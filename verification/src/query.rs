use vstd::prelude::*;
use crate::RESULT_LIMIT;
use crate::engine::{ReaderSession, hits_of, session_hit, stored_id_of};
use crate::errors::SearchError;

verus! {

/// The value of the first parameter with the given name, if any.
pub open spec fn param_lookup(params: Seq<(String, String)>, name: Seq<char>) -> Option<Seq<char>>
    decreases params.len(),
{
    if params.len() == 0 {
        None
    } else if params[0].0@ == name {
        Some(params[0].1@)
    } else {
        param_lookup(params.drop_first(), name)
    }
}

/// Relies on str PartialEq: true exactly when the two strings hold the same
/// characters.
#[verifier::external_body]
fn str_equal(a: &str, b: &str) -> (r: bool)
    ensures
        r == (a@ == b@),
{
    a == b
}

/// Looks a query parameter up by name: the value of its first occurrence, or
/// nothing when the request does not carry it.
pub fn query_param(params: &Vec<(String, String)>, name: &str) -> (r: Option<String>)
    ensures
        match r {
            Some(v) => param_lookup(params@, name@) == Some(v@),
            None => param_lookup(params@, name@) is None,
        },
{
    proof {
        assert(params@.skip(0) =~= params@);
    }
    let mut i: usize = 0;
    while i < params.len()
        invariant
            i <= params@.len(),
            param_lookup(params@, name@) == param_lookup(params@.skip(i as int), name@),
        decreases params@.len() - i,
    {
        let hit = str_equal(params[i].0.as_str(), name);
        proof {
            assert(params@.skip(i as int).len() > 0);
            assert(params@.skip(i as int)[0] == params@[i as int]);
            assert(params@.skip(i as int).drop_first() =~= params@.skip(i + 1));
        }
        if hit {
            return Some(params[i].1.clone());
        }
        i += 1;
    }
    proof {
        assert(params@.skip(params@.len() as int).len() == 0);
    }
    None
}

/// The top-ranked identifiers for a query: the stored id of each hit of the
/// engine's ranked retrieval, in the engine's descending relevance order, at
/// most `RESULT_LIMIT` of them (null for a hit whose document carries no text
/// id, which the schema rules out).
pub fn search_top_ids(rs: &ReaderSession, query: &str) -> (r: Result<
    Vec<Option<String>>,
    SearchError,
>)
    ensures
        match r {
            Ok(ids) => {
                &&& ids@.len() <= RESULT_LIMIT as int
                &&& ids.deep_view().len() == hits_of(*rs, query@, RESULT_LIMIT as int).len()
                &&& forall|i: int|
                    0 <= i < ids.deep_view().len() ==> #[trigger] ids.deep_view()[i]
                        == stored_id_of(*rs, hits_of(*rs, query@, RESULT_LIMIT as int)[i])
            },
            Err(e) => e matches SearchError::QueryParse(_) || e matches SearchError::Engine(_),
        },
{
    let addrs = match rs.run_query(query, RESULT_LIMIT) {
        Ok(addrs) => addrs,
        Err(e) => {
            return Err(e);
        },
    };
    let mut ids: Vec<Option<String>> = Vec::new();
    let mut i: usize = 0;
    while i < addrs.len()
        invariant
            i <= addrs@.len(),
            addrs@.len() <= RESULT_LIMIT as int,
            addrs@ == hits_of(*rs, query@, RESULT_LIMIT as int),
            forall|k: int| 0 <= k < addrs@.len() ==> session_hit(*rs, #[trigger] addrs@[k]),
            ids.deep_view().len() == i as int,
            forall|k: int|
                0 <= k < i as int ==> #[trigger] ids.deep_view()[k] == stored_id_of(
                    *rs,
                    addrs@[k],
                ),
        decreases addrs@.len() - i,
    {
        let ghost prev = ids.deep_view();
        match rs.stored_id(&addrs[i]) {
            Ok(id) => {
                let ghost idm = id.deep_view();
                ids.push(id);
                proof {
                    assert(ids.deep_view() =~= prev.push(idm));
                }
            },
            Err(e) => {
                return Err(e);
            },
        }
        i += 1;
    }
    Ok(ids)
}

/// Serves one search request from its query parameters: the ranked identifier
/// list for the request's `q` text — the stored id of each hit of the engine's
/// retrieval for that text, capped at `RESULT_LIMIT`. A request without a `q`
/// parameter fails with the distinct MissingParameter error — and only such a
/// request does.
pub fn handle_search(rs: &ReaderSession, params: &Vec<(String, String)>) -> (r: Result<
    Vec<Option<String>>,
    SearchError,
>)
    ensures
        r matches Err(SearchError::MissingParameter) <==> param_lookup(params@, "q"@) is None,
        r matches Err(e) ==> !(e matches SearchError::IndexNotFound),
        r matches Ok(ids) ==> ids@.len() <= RESULT_LIMIT as int,
        r matches Ok(ids) ==> (param_lookup(params@, "q"@) matches Some(q) && ({
            let hits = hits_of(*rs, q, RESULT_LIMIT as int);
            &&& ids.deep_view().len() == hits.len()
            &&& forall|i: int|
                0 <= i < hits.len() ==> #[trigger] ids.deep_view()[i] == stored_id_of(
                    *rs,
                    hits[i],
                )
        })),
{
    let q = match query_param(params, "q") {
        Some(q) => q,
        None => {
            return Err(SearchError::MissingParameter);
        },
    };
    search_top_ids(rs, q.as_str())
}

/// What serializing an identifier list to its JSON array text yields: a
/// function of the identifiers alone.
pub uninterp spec fn ids_json(ids: Seq<Option<Seq<char>>>) -> Seq<char>;

/// Relies on serde_json::to_string over a list of optional strings: the JSON
/// array text of the ranked identifiers, a string or null per entry.
#[verifier::external_body]
pub fn ids_to_json(ids: &Vec<Option<String>>) -> (r: String)
    ensures
        r@ == ids_json(ids.deep_view()),
{
    match serde_json::to_string(ids) {
        Ok(s) => s,
        Err(_) => String::new(),
    }
}

} // verus!
