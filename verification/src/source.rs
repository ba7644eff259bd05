//! Logic around the item source: pagination arithmetic, extraction of the
//! page number from a pagination URL, and decoding of fetched auxiliary
//! content.
//!
//! The HTTP calls themselves live outside the library; the URL parsing and
//! the base64 decoding are plain computations and stay here, behind trusted
//! wrappers for the outside crates that perform them.

use vstd::prelude::*;
use vstd::string::StrSliceExecFns;
use vstd::utf8::encode_utf8;
use vstd::utf8::valid_utf8;

use crate::numfmt::parse_u32;
use crate::numfmt::parse_u32_spec;

verus! {

/// Items fetched from the source per page.
pub const SOURCE_PAGE_SIZE: usize = 100;

/// The number of pages needed to fetch `star_count` items, at
/// [`SOURCE_PAGE_SIZE`] items per page, rounding up.
pub fn pages_needed(star_count: usize) -> (r: usize)
    ensures
        r == if star_count as int % (SOURCE_PAGE_SIZE as int) == 0 {
            star_count as int / (SOURCE_PAGE_SIZE as int)
        } else {
            star_count as int / (SOURCE_PAGE_SIZE as int) + 1
        },
{
    let full = star_count / SOURCE_PAGE_SIZE;
    if star_count % SOURCE_PAGE_SIZE == 0 {
        full
    } else {
        full + 1
    }
}

/// The decoded query pairs of a URL, in order; nothing when the text is
/// not a URL.
pub uninterp spec fn url_query_pairs(s: Seq<char>) -> Option<Seq<(Seq<char>, Seq<char>)>>;

/// Relies on url::Url::parse and Url::query_pairs: parses the URL and
/// yields its percent-decoded query pairs in order; parsing depends on the
/// text alone.
#[verifier::external_body]
fn query_pairs_of(url_str: &str) -> (r: Option<Vec<(String, String)>>)
    ensures
        match r {
            Some(pairs) => url_query_pairs(url_str@) == Some(pairs.deep_view()),
            None => url_query_pairs(url_str@) is None,
        },
{
    match url::Url::parse(url_str) {
        Ok(parsed) => Some(
            parsed.query_pairs().map(|(key, value)| (key.into_owned(), value.into_owned())).collect(),
        ),
        Err(_) => None,
    }
}

/// The first query pair whose key is `page` and whose value is a decimal
/// `u32`, if any.
pub open spec fn first_page_value(pairs: Seq<(Seq<char>, Seq<char>)>) -> Option<u32>
    decreases pairs.len(),
{
    if pairs.len() == 0 {
        None
    } else if pairs[0].0 == "page"@ && parse_u32_spec(pairs[0].1) is Some {
        parse_u32_spec(pairs[0].1)
    } else {
        first_page_value(pairs.drop_first())
    }
}

/// What `get_page_from_url` returns: the first parsable `page` query
/// parameter of the URL.
pub open spec fn page_of_url(s: Seq<char>) -> Option<u32> {
    match url_query_pairs(s) {
        Some(pairs) => first_page_value(pairs),
        None => None,
    }
}

/// Parses a URL and extracts the `page` query parameter.
#[verifier::loop_isolation(false)]
pub fn get_page_from_url(url_str: &str) -> (r: Option<u32>)
    ensures
        r == page_of_url(url_str@),
{
    let pairs = match query_pairs_of(url_str) {
        Some(pairs) => pairs,
        None => {
            return None;
        },
    };
    let key = "page".to_owned();
    proof {
        assert(pairs.deep_view().skip(0) =~= pairs.deep_view());
    }
    let mut i: usize = 0;
    while i < pairs.len()
        invariant
            i <= pairs@.len(),
            url_query_pairs(url_str@) == Some(pairs.deep_view()),
            first_page_value(pairs.deep_view()) == first_page_value(
                pairs.deep_view().skip(i as int),
            ),
            key@ == "page"@,
        decreases pairs@.len() - i,
    {
        let ghost rest = pairs.deep_view().skip(i as int);
        proof {
            assert(rest[0] == (pairs@[i as int].0@, pairs@[i as int].1@));
        }
        if pairs[i].0 == key {
            if let Some(value) = parse_u32(pairs[i].1.as_str()) {
                proof {
                    assert(first_page_value(rest) == parse_u32_spec(pairs@[i as int].1@));
                }
                return Some(value);
            }
        }
        proof {
            assert(rest.drop_first() =~= pairs.deep_view().skip(i + 1));
        }
        i += 1;
    }
    proof {
        assert(pairs.deep_view().skip(pairs@.len() as int).len() == 0);
    }
    None
}

/// The bytes of `bytes` that are not ASCII line feeds: the source delivers
/// base64 content broken into lines.
pub open spec fn strip_newlines(bytes: Seq<u8>) -> Seq<u8>
    decreases bytes.len(),
{
    if bytes.len() == 0 {
        Seq::empty()
    } else {
        let rest = strip_newlines(bytes.drop_last());
        if bytes.last() == 10u8 {
            rest
        } else {
            rest.push(bytes.last())
        }
    }
}

/// Remove ASCII line feeds before base64 decoding.
fn remove_newlines(bytes: &Vec<u8>) -> (r: Vec<u8>)
    ensures
        r@ == strip_newlines(bytes@),
{
    let mut r: Vec<u8> = Vec::new();
    let mut i: usize = 0;
    while i < bytes.len()
        invariant
            i <= bytes@.len(),
            r@ == strip_newlines(bytes@.take(i as int)),
        decreases bytes@.len() - i,
    {
        if bytes[i] != 10 {
            r.push(bytes[i]);
        }
        proof {
            let next = bytes@.take(i + 1);
            assert(next.drop_last() =~= bytes@.take(i as int));
        }
        i += 1;
    }
    proof {
        assert(bytes@.take(bytes@.len() as int) =~= bytes@);
    }
    r
}

#[verifier::external_type_specification]
#[verifier::external_body]
pub struct ExDecodeError(base64::DecodeError);

/// What base64's standard engine decodes a byte string to; nothing when
/// the input is not valid base64.
pub uninterp spec fn base64_decoded(bytes: Seq<u8>) -> Option<Seq<u8>>;

/// Relies on base64's BASE64_STANDARD engine (standard alphabet, padding):
/// decodes the input, a function of the bytes alone.
#[verifier::external_body]
fn base64_decode(bytes: &Vec<u8>) -> (r: Result<Vec<u8>, base64::DecodeError>)
    ensures
        match r {
            Ok(decoded) => base64_decoded(bytes@) == Some(decoded@),
            Err(_) => base64_decoded(bytes@) is None,
        },
{
    base64::Engine::decode(&base64::prelude::BASE64_STANDARD, bytes.as_slice())
}

/// Relies on String::from_utf8: succeeds exactly on valid UTF-8, returning
/// the string those bytes encode.
#[verifier::external_body]
fn bytes_to_string(bytes: Vec<u8>) -> (r: Result<String, ()>)
    ensures
        match r {
            Ok(content) => valid_utf8(bytes@) && encode_utf8(content@) == bytes@,
            Err(_) => !valid_utf8(bytes@),
        },
{
    match String::from_utf8(bytes) {
        Ok(content) => Ok(content),
        Err(_) => Err(()),
    }
}

/// Why an auxiliary-content payload could not be decoded.
#[derive(Debug, Clone, Copy, PartialEq, Eq, Structural)]
pub enum ReadmeDecodeError {
    /// The payload was not valid base64 once line feeds were removed.
    Base64,
    /// The decoded bytes were not valid UTF-8.
    Utf8,
}

/// Decode an auxiliary-content payload as the source delivers it: absent
/// content stays absent; otherwise line feeds are removed, the rest is
/// base64-decoded, and the bytes are read as UTF-8.
pub fn decode_readme_content(encoded: Option<String>) -> (r: Result<
    Option<String>,
    ReadmeDecodeError,
>)
    ensures
        match encoded {
            None => r == Ok::<Option<String>, ReadmeDecodeError>(None),
            Some(enc) => {
                let cleaned = strip_newlines(encode_utf8(enc@));
                match base64_decoded(cleaned) {
                    None => r == Err::<Option<String>, ReadmeDecodeError>(
                        ReadmeDecodeError::Base64,
                    ),
                    Some(decoded) => if valid_utf8(decoded) {
                        r matches Ok(Some(content)) && encode_utf8(content@) == decoded
                    } else {
                        r == Err::<Option<String>, ReadmeDecodeError>(ReadmeDecodeError::Utf8)
                    },
                }
            },
        },
{
    let enc = match encoded {
        None => {
            return Ok(None);
        },
        Some(enc) => enc,
    };
    let raw = enc.as_str().as_bytes_vec();
    let cleaned = remove_newlines(&raw);
    let decoded = match base64_decode(&cleaned) {
        Ok(decoded) => decoded,
        Err(_) => {
            return Err(ReadmeDecodeError::Base64);
        },
    };
    match bytes_to_string(decoded) {
        Ok(content) => Ok(Some(content)),
        Err(_) => Err(ReadmeDecodeError::Utf8),
    }
}

} // verus!
