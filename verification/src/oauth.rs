//! The cached identity of an authenticated source account, built from the
//! identity provider's JSON answer.
//!
//! The JSON value itself is opaque to the library; small trusted wrappers
//! read its fields out as plain values, and a verified builder with an
//! exact contract decides which answers are acceptable.

use vstd::prelude::*;
use vstd::string::StringExecFns;

use crate::numfmt::dec_digits_signed;
use crate::numfmt::i64_to_string;

verus! {

#[verifier::external_type_specification]
#[verifier::external_body]
pub struct ExValue(serde_json::Value);

/// Relies on serde_json::Value::get: the member of this key when the value
/// is an object that has one.
#[verifier::external_body]
fn json_field<'a>(v: &'a serde_json::Value, key: &str) -> Option<&'a serde_json::Value> {
    v.get(key)
}

/// Relies on serde_json::Value::as_i64: the number when the value is an
/// integer representable as i64.
#[verifier::external_body]
fn json_as_i64(v: &serde_json::Value) -> Option<i64> {
    v.as_i64()
}

/// Relies on serde_json::Value::as_str: the text when the value is a
/// string.
#[verifier::external_body]
fn json_as_str(v: &serde_json::Value) -> Option<&str> {
    v.as_str()
}

/// The Unix epoch milliseconds an RFC 3339 timestamp denotes, if the text
/// parses.
pub uninterp spec fn rfc3339_epoch_millis(s: Seq<char>) -> Option<i64>;

/// Relies on chrono's DateTime::parse_from_rfc3339 and timestamp_millis:
/// parsing and the resulting instant depend on the text alone.
#[verifier::external_body]
fn parse_rfc3339_millis(s: &str) -> (r: Option<i64>)
    ensures
        r == rfc3339_epoch_millis(s@),
{
    match chrono::DateTime::parse_from_rfc3339(s) {
        Ok(parsed) => Some(parsed.timestamp_millis()),
        Err(_) => None,
    }
}

/// Errors of identity-answer parsing. Variants that carried an error of an
/// outside crate in the unverified shell carry its message here.
#[derive(Debug, Clone, PartialEq, Eq)]
pub enum OAuthCacheError {
    MissingField { field: String },
    InvalidDateFormat(String),
    JsonError(String),
}

/// The cached identity of a source account.
#[derive(Debug, Clone, PartialEq, Eq)]
pub struct OAuthCacheObject {
    /// The account id, in decimal.
    pub user_id: String,
    /// Account creation instant, Unix epoch milliseconds.
    pub created_at: i64,
    /// How many accounts this account follows.
    pub following_count: i32,
    /// The account's login name.
    pub github_username: String,
}

impl OAuthCacheObject {
    /// A cache entry from its parts.
    pub fn new(user_id: String, created_at: i64, following_count: i32, github_username: String)
        -> (r: OAuthCacheObject)
        ensures
            r == (OAuthCacheObject { user_id, created_at, following_count, github_username }),
    {
        OAuthCacheObject { user_id, created_at, following_count, github_username }
    }

    /// Build a cache entry from the fields of the provider's answer: the
    /// id, login and creation timestamp must be present and the timestamp
    /// must parse; a missing following count stands for zero. The answer
    /// is rejected with the first missing field, in this order.
    pub fn from_user_fields(
        id: Option<i64>,
        login: Option<String>,
        created_at_raw: Option<String>,
        following: Option<i64>,
    ) -> (r: Result<OAuthCacheObject, OAuthCacheError>)
        ensures
            id is None ==> (r matches Err(OAuthCacheError::MissingField { field }) && field@
                == "id"@),
            id is Some && login is None ==> (r matches Err(OAuthCacheError::MissingField {
                field,
            }) && field@ == "login"@),
            id is Some && login is Some && created_at_raw is None ==> (r matches Err(
                OAuthCacheError::MissingField { field },
            ) && field@ == "created_at"@),
            match (id, created_at_raw) {
                (Some(n), Some(raw)) => login is Some ==> match rfc3339_epoch_millis(raw@) {
                    None => (r matches Err(OAuthCacheError::InvalidDateFormat(m)) && m@ == raw@),
                    Some(millis) => (r matches Ok(obj) && obj.user_id@ == dec_digits_signed(
                        n as int,
                    ) && obj.created_at == millis && obj.github_username == login->0
                        && obj.following_count as int == (match following {
                        Some(f) => if i32::MIN <= f <= i32::MAX {
                            f as int
                        } else {
                            obj.following_count as int
                        },
                        None => 0int,
                    })),
                },
                _ => true,
            },
    {
        let n = match id {
            None => {
                return Err(OAuthCacheError::MissingField { field: "id".to_owned() });
            },
            Some(n) => n,
        };
        let login = match login {
            None => {
                return Err(OAuthCacheError::MissingField { field: "login".to_owned() });
            },
            Some(login) => login,
        };
        let raw = match created_at_raw {
            None => {
                return Err(OAuthCacheError::MissingField { field: "created_at".to_owned() });
            },
            Some(raw) => raw,
        };
        let millis = match parse_rfc3339_millis(raw.as_str()) {
            None => {
                return Err(OAuthCacheError::InvalidDateFormat(raw));
            },
            Some(millis) => millis,
        };
        let following_count: i32 = match following {
            Some(f) => {
                if f >= i32::MIN as i64 && f <= i32::MAX as i64 {
                    f as i32
                } else {
                    #[verifier::truncate] (f as i32)
                }
            },
            None => 0,
        };
        Ok(OAuthCacheObject {
            user_id: i64_to_string(n),
            created_at: millis,
            following_count,
            github_username: login,
        })
    }

    /// Build a cache entry from the provider's JSON answer, reading the
    /// `id`, `login`, `created_at` and `following` members and holding
    /// them to [`OAuthCacheObject::from_user_fields`].
    pub fn from_github_user(data: &serde_json::Value) -> Result<OAuthCacheObject, OAuthCacheError> {
        let id = match json_field(data, "id") {
            Some(v) => json_as_i64(v),
            None => None,
        };
        let login = match json_field(data, "login") {
            Some(v) => match json_as_str(v) {
                Some(text) => Some(text.to_owned()),
                None => None,
            },
            None => None,
        };
        let created_at_raw = match json_field(data, "created_at") {
            Some(v) => match json_as_str(v) {
                Some(text) => Some(text.to_owned()),
                None => None,
            },
            None => None,
        };
        let following = match json_field(data, "following") {
            Some(v) => json_as_i64(v),
            None => None,
        };
        OAuthCacheObject::from_user_fields(id, login, created_at_raw, following)
    }
}

} // verus!
