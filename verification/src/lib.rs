//! Verified core of a starred-repository semantic indexing service.
//!
//! The library holds the job orchestration, batch enrichment and semantic
//! query logic; network and storage side effects are driven by a thin
//! unverified shell that feeds their results back in as plain values.

use vstd::prelude::*;

pub mod auth;
pub mod config;
pub mod embedding;
pub mod job;
pub mod numfmt;
pub mod oauth;
pub mod orchestrator;
pub mod pipeline;
pub mod search;
pub mod source;
pub mod text;
pub mod types;

verus! {

/// Truncation threshold for auxiliary text fed to the embedding provider,
/// counted in Unicode scalar values.
pub const README_TRUNCATION_LIMIT: usize = 2000;

/// Number of items processed per outer pipeline batch.
pub const BATCH_SIZE: usize = 50;

/// Number of texts sent to the embedding provider per request.
pub const EMBEDDING_SUB_BATCH_SIZE: usize = 4;

} // verus!
