//! A verified core for a post search service.
//!
//! The library covers the two pipelines of the service: the index build pass
//! (enumerate the object store's keys across pages, fetch the document
//! objects under a concurrency bound, decode them into typed posts, stage
//! them into the full-text index, commit once) and the query engine (extract
//! the query text from request parameters, run ranked retrieval against the
//! title field, project the top hits to stored identifiers). The inverted
//! index itself and the JSON codec are consumed from outside crates through
//! trusted contracts; everything around them is verified.

use vstd::prelude::*;

pub mod builder;
pub mod engine;
pub mod enumerate;
pub mod errors;
pub mod fetch;
pub mod parse;
pub mod post;
pub mod query;

verus! {

/// Maximum number of hits a query may return.
pub const RESULT_LIMIT: usize = 3;

} // verus!
