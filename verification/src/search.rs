//! The semantic query service: validation and scope decisions.
//!
//! Embedding a query and ranking by distance are outside calls; this module
//! decides, for every request, whether they happen at all and with which
//! arguments. The decisions are total functions of the request and of the
//! user's membership set, so the cost rules — no provider call for an empty
//! scope, none for a zero result budget — are part of the contracts.

use vstd::prelude::*;
use vstd::string::StringExecFns;

verus! {

/// Scope of a semantic search.
#[derive(Debug, Clone, Copy, PartialEq, Eq, Structural)]
pub enum SearchScope {
    Global,
    Starred { user_id: u64 },
}

/// Errors of the query service. Variants that carried an error of an
/// outside crate in the unverified shell carry its message here.
#[derive(Debug, Clone, PartialEq, Eq)]
pub enum SemanticSearchManagerError {
    DatabaseError(String),
    GitHubError(String),
    EmbeddingError(String),
    ConfigError(String),
    ValidationError(String),
}

/// Query parameters of the search endpoints.
#[derive(Debug, Clone)]
pub struct SearchQuery {
    /// The search query string.
    pub query: String,
    /// Number of results to return; the handler defaults it to 10 and
    /// bounds it by 50.
    pub top_k: Option<usize>,
}

/// What the query service does next for a request.
#[derive(Debug, Clone, Copy, PartialEq, Eq, Structural)]
pub enum QueryStep {
    /// Answer with an empty result, calling nothing.
    EmptyResult,
    /// Read the membership set of this user, then decide further.
    FetchMembership { user_id: u64 },
    /// Embed the query text, then rank by distance with the given budget.
    EmbedQuery { top_k: usize },
}

/// First decision of the query service, before anything is called: reject
/// empty query text; short-circuit a zero budget to an empty result; send
/// a global search to the provider; for a restricted search, read the
/// membership set first.
pub fn plan_search(query: &str, top_k: usize, scope: SearchScope) -> (r: Result<
    QueryStep,
    SemanticSearchManagerError,
>)
    ensures
        query@.len() == 0 ==> (r matches Err(SemanticSearchManagerError::ValidationError(m))
            && m@ == "Query cannot be empty"@),
        query@.len() > 0 && top_k == 0 ==> r == Ok::<QueryStep, SemanticSearchManagerError>(QueryStep::EmptyResult),
        query@.len() > 0 && top_k > 0 ==> r == Ok::<QueryStep, SemanticSearchManagerError>(
            match scope {
                SearchScope::Global => QueryStep::EmbedQuery { top_k },
                SearchScope::Starred { user_id } => QueryStep::FetchMembership { user_id },
            },
        ),
{
    if query.is_empty() {
        return Err(
            SemanticSearchManagerError::ValidationError("Query cannot be empty".to_owned()),
        );
    }
    if top_k == 0 {
        return Ok(QueryStep::EmptyResult);
    }
    match scope {
        SearchScope::Global => Ok(QueryStep::EmbedQuery { top_k }),
        SearchScope::Starred { user_id } => Ok(QueryStep::FetchMembership { user_id }),
    }
}

/// Second decision for a restricted search, once the membership set is
/// read: a user with no known items gets an empty result at once, and the
/// embedding provider is never called; otherwise the query goes to the
/// provider with the given budget.
pub fn plan_after_membership(membership: &Vec<u64>, top_k: usize) -> (r: QueryStep)
    ensures
        membership@.len() == 0 ==> r == QueryStep::EmptyResult,
        membership@.len() > 0 ==> r == (QueryStep::EmbedQuery { top_k }),
{
    if membership.len() == 0 {
        QueryStep::EmptyResult
    } else {
        QueryStep::EmbedQuery { top_k }
    }
}

/// The handler's result budget: defaults to 10, and must lie in 1 to 50.
pub fn effective_top_k(requested: Option<usize>) -> (r: Result<usize, String>)
    ensures
        match requested {
            None => r == Ok::<usize, String>(10usize),
            Some(k) => if k == 0 || k > 50 {
                (r matches Err(m) && m@ == "top_k must be between 1 and 50"@)
            } else {
                r == Ok::<usize, String>(k)
            },
        },
{
    let top_k = match requested {
        Some(k) => k,
        None => 10,
    };
    if top_k == 0 || top_k > 50 {
        Err("top_k must be between 1 and 50".to_owned())
    } else {
        Ok(top_k)
    }
}

/// What `str::trim` leaves of a string.
pub uninterp spec fn trim_of(s: Seq<char>) -> Seq<char>;

/// Relies on str::trim: returns the string with leading and trailing
/// whitespace removed, so the result is never longer than the input.
#[verifier::external_body]
pub(crate) fn trim(s: &str) -> (r: &str)
    ensures
        r@ == trim_of(s@),
        r@.len() <= s@.len(),
{
    s.trim()
}

/// The handler's query validation: trim the raw text and reject it when
/// nothing remains.
pub fn validate_query_text(raw: &str) -> (r: Result<String, String>)
    ensures
        trim_of(raw@).len() == 0 ==> (r matches Err(m) && m@
            == "Query parameter cannot be empty"@),
        trim_of(raw@).len() > 0 ==> (r matches Ok(q) && q@ == trim_of(raw@)),
{
    let trimmed = trim(raw);
    if trimmed.is_empty() {
        Err("Query parameter cannot be empty".to_owned())
    } else {
        Ok(trimmed.to_owned())
    }
}

/// The credential used for a request: the caller's own key when one came
/// with the request, the configured key otherwise.
pub fn choose_api_key(user_key: Option<String>, default_key: String) -> (r: String)
    ensures
        match user_key {
            Some(k) => r == k,
            None => r == default_key,
        },
{
    match user_key {
        Some(k) => k,
        None => default_key,
    }
}

} // verus!
