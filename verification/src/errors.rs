use vstd::prelude::*;

verus! {

/// Why a build pass failed. A pass is all-or-nothing up to staging: a store
/// failure or a malformed document aborts it before anything is committed.
#[derive(Debug)]
pub enum BuildError {
    /// Listing a page of keys or fetching an object failed; holds the store's
    /// message for the first failure encountered.
    StoreAccess(String),
    /// A fetched object did not decode as a post; holds the position of the
    /// first such object in the fetched set.
    MalformedDocument(usize),
    /// The index could not be created nor opened at the configured path.
    IndexLifecycle(String),
    /// The final commit of the write session failed.
    CommitFailed(String),
}

/// Why a single query request failed. Query failures never touch the index.
#[derive(Debug)]
pub enum SearchError {
    /// The request carries no `q` parameter.
    MissingParameter,
    /// The query text does not parse under the engine's query syntax.
    QueryParse(String),
    /// No index has ever been created at the configured path.
    IndexNotFound,
    /// Any other engine failure while opening or searching.
    Engine(String),
}

} // verus!
