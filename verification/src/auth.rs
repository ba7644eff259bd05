//! Request authorization and rate-limit key extraction: the string logic
//! of the middleware, verified; the HTTP plumbing around it is not part of
//! the library.

use vstd::prelude::*;
use vstd::string::StrSliceExecFns;
use vstd::string::StringExecFns;

use crate::numfmt::dec_digits;
use crate::numfmt::u64_to_string;
use crate::search::trim;
use crate::search::trim_of;

verus! {

/// Why a request was refused authorization.
#[derive(Debug, Clone, Copy, PartialEq, Eq, Structural)]
pub enum AuthError {
    /// No Authorization header came with the request.
    MissingHeader,
    /// The header does not start with the Bearer scheme.
    NotBearer,
    /// The Bearer token is empty or all whitespace.
    EmptyToken,
}

/// True when the header names the Bearer scheme.
pub open spec fn has_bearer_prefix(s: Seq<char>) -> bool {
    s.len() >= 7 && s.subrange(0, 7) == "Bearer "@
}

/// Relies on str::strip_prefix: the text after the prefix, exactly when
/// the text starts with it.
#[verifier::external_body]
fn strip_bearer(s: &str) -> (r: Option<&str>)
    ensures
        match r {
            Some(rest) => has_bearer_prefix(s@) && rest@ == s@.skip(7),
            None => !has_bearer_prefix(s@),
        },
{
    s.strip_prefix("Bearer ")
}

/// The authorization decision on a request's Authorization header: it must
/// exist, carry the Bearer scheme, and hold a token that is not blank. The
/// token is returned as the header carries it, untrimmed.
pub fn authorize_header(header: Option<&str>) -> (r: Result<String, AuthError>)
    ensures
        match header {
            None => r == Err::<String, AuthError>(AuthError::MissingHeader),
            Some(h) => if !has_bearer_prefix(h@) {
                r == Err::<String, AuthError>(AuthError::NotBearer)
            } else if trim_of(h@.skip(7)).len() == 0 {
                r == Err::<String, AuthError>(AuthError::EmptyToken)
            } else {
                (r matches Ok(token) && token@ == h@.skip(7))
            },
        },
{
    let h = match header {
        None => {
            return Err(AuthError::MissingHeader);
        },
        Some(h) => h,
    };
    let token = match strip_bearer(h) {
        None => {
            return Err(AuthError::NotBearer);
        },
        Some(token) => token,
    };
    if trim(token).is_empty() {
        return Err(AuthError::EmptyToken);
    }
    Ok(token.to_owned())
}

/// Key extractor for per-user rate limiting.
#[derive(Debug, Clone, Copy, PartialEq, Eq, Structural)]
pub struct UserToken;

/// The rate-limit bypass key for a request carrying its own credential.
pub open spec fn bypass_key(now_nanos: nat) -> Seq<char> {
    "api_key_bypass_"@ + dec_digits(now_nanos)
}

impl UserToken {
    /// The rate-limit key of a request: a caller that supplied its own
    /// credential bypasses rate limiting through a key unique to this
    /// instant; everyone else is keyed by their trimmed Bearer token, and
    /// a request without a valid one is refused.
    pub fn extract(&self, has_api_key: bool, auth_header: Option<&str>, now_nanos: u64) -> (r:
        Result<String, String>)
        ensures
            has_api_key ==> (r matches Ok(k) && k@ == bypass_key(now_nanos as nat)),
            !has_api_key ==> match auth_header {
                None => (r matches Err(m) && m@ == "You don't have permission to access"@),
                Some(h) => if has_bearer_prefix(h@) {
                    r matches Ok(k) && k@ == trim_of(h@.skip(7))
                } else {
                    r matches Err(m) && m@ == "You don't have permission to access"@
                },
            },
    {
        if has_api_key {
            let mut k = "api_key_bypass_".to_owned();
            k.append(u64_to_string(now_nanos).as_str());
            return Ok(k);
        }
        let h = match auth_header {
            None => {
                return Err("You don't have permission to access".to_owned());
            },
            Some(h) => h,
        };
        match strip_bearer(h) {
            None => Err("You don't have permission to access".to_owned()),
            Some(token) => Ok(trim(token).to_owned()),
        }
    }

    /// The display form of a key.
    pub fn key_name(&self, key: &String) -> (r: Option<String>)
        ensures
            r matches Some(k) && k@ == key@,
    {
        Some(key.clone())
    }

    /// The extractor's name.
    pub fn name(&self) -> (r: &'static str)
        ensures
            r@ == "UserToken"@,
    {
        "UserToken"
    }
}

} // verus!
