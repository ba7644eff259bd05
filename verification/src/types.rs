//! Core data types shared across the library.

use vstd::prelude::*;

verus! {

/// An item of the user's starred set, enriched step by step by the pipeline.
///
/// Identifiers are plain integers (the external source assigns them),
/// timestamps are Unix epoch milliseconds.
#[derive(Debug, Clone, PartialEq)]
pub struct Repository {
    pub id: u64,
    pub name: String,
    pub owner: String,
    pub description: Option<String>,
    pub readme_content: Option<String>,
    pub topics: Vec<String>,
    pub homepage_url: String,
    pub created_at: Option<i64>,
    pub last_updated: Option<i64>,
}

/// The identity of an authenticated request, as the middleware hands it to
/// handlers: the source account's id and login name.
#[derive(Debug, Clone, PartialEq, Eq)]
pub struct AuthenticatedUser {
    pub user_id: u64,
    pub login: String,
}

/// Uniform envelope for request handlers.
#[derive(Debug, Clone)]
pub struct ApiResponse<T> {
    pub success: bool,
    pub data: Option<T>,
    pub message: Option<String>,
}

impl<T> ApiResponse<T> {
    /// A successful response carrying `data` and no message.
    pub fn success(data: T) -> (r: ApiResponse<T>)
        ensures
            r.success,
            r.data == Some(data),
            r.message is None,
    {
        ApiResponse { success: true, data: Some(data), message: None }
    }

    /// A failed response carrying `message` and no data.
    pub fn error(message: String) -> (r: ApiResponse<T>)
        ensures
            !r.success,
            r.data is None,
            r.message == Some(message),
    {
        ApiResponse { success: false, data: None, message: Some(message) }
    }
}

} // verus!
