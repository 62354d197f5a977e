use post_search::builder::{build_pass, ingest_and_commit};
use post_search::engine::{
    open_read_session, open_write_session, post_index_schema, WRITER_MEMORY_BUDGET,
};
use post_search::errors::{BuildError, SearchError};
use post_search::parse::parse_posts;
use post_search::post::Post;
use post_search::query::{handle_search, ids_to_json, search_top_ids};

fn post(id: &str, title: &str, author: &str, points: u64, comments: u64) -> Post {
    Post {
        id: id.to_string(),
        title: title.to_string(),
        url: format!("https://example.com/{}", id),
        num_points: points,
        num_comments: comments,
        author: author.to_string(),
        created_at: "2024-01-01T00:00:00Z".to_string(),
    }
}

fn post_json(p: &Post) -> Vec<u8> {
    format!(
        "{{\"id\":\"{}\",\"title\":\"{}\",\"url\":\"{}\",\"num_points\":{},\"num_comments\":{},\"author\":\"{}\",\"created_at\":\"{}\"}}",
        p.id, p.title, p.url, p.num_points, p.num_comments, p.author, p.created_at
    )
    .into_bytes()
}

fn build_at(path: &str, posts: &[Post]) {
    let schema = post_index_schema();
    let (mut w, _created) = open_write_session(path, schema, WRITER_MEMORY_BUDGET).unwrap();
    let outcome = ingest_and_commit(&mut w, &posts.to_vec()).unwrap();
    assert_eq!(outcome.dropped, 0);
}

fn params(q: Option<&str>) -> Vec<(String, String)> {
    let mut v = vec![("page".to_string(), "1".to_string())];
    if let Some(q) = q {
        v.push(("q".to_string(), q.to_string()));
    }
    v
}

#[test]
fn round_trip_returns_the_indexed_identifier() {
    let dir = tempfile::tempdir().unwrap();
    let path = dir.path().to_str().unwrap();
    // the reference round trip, built from raw document bytes
    let p = post("123", "Rust is great", "alice", 42, 7);
    let files = vec![post_json(&p)];
    let schema = post_index_schema();
    let (mut w, created) = open_write_session(path, schema, WRITER_MEMORY_BUDGET).unwrap();
    assert!(created);
    let outcome = build_pass(&mut w, &files).unwrap();
    assert_eq!(outcome.staged, 1);
    assert_eq!(outcome.dropped, 0);
    drop(w);
    let rs = open_read_session(path).unwrap();
    let ids = handle_search(&rs, &params(Some("rust"))).unwrap();
    assert_eq!(ids, vec![Some("123".to_string())]);
    assert_eq!(ids_to_json(&ids), "[\"123\"]");
}

#[test]
fn matching_title_word_returns_the_post() {
    let dir = tempfile::tempdir().unwrap();
    let path = dir.path().to_str().unwrap();
    build_at(
        path,
        &[
            post("1", "learning verified systems", "ada", 10, 2),
            post("2", "a quiet week in review", "brian", 5, 1),
            post("3", "typed schemas everywhere", "carol", 8, 0),
        ],
    );
    let rs = open_read_session(path).unwrap();
    let ids = search_top_ids(&rs, "verified").unwrap();
    assert!(ids.contains(&Some("1".to_string())));
    let ids = search_top_ids(&rs, "schemas").unwrap();
    assert!(ids.contains(&Some("3".to_string())));
}

#[test]
fn result_set_is_capped_at_three() {
    let dir = tempfile::tempdir().unwrap();
    let path = dir.path().to_str().unwrap();
    let posts: Vec<Post> = (0..7)
        .map(|i| post(&format!("{}", i), "rust news of the day", "alice", i, 0))
        .collect();
    build_at(path, &posts);
    let rs = open_read_session(path).unwrap();
    let ids = search_top_ids(&rs, "rust").unwrap();
    assert_eq!(ids.len(), 3);
}

#[test]
fn stronger_match_ranks_first() {
    let dir = tempfile::tempdir().unwrap();
    let path = dir.path().to_str().unwrap();
    build_at(
        path,
        &[
            post("weak", "rust is great for systems", "alice", 1, 0),
            post("strong", "rust rust rust rust", "bob", 1, 0),
        ],
    );
    let rs = open_read_session(path).unwrap();
    let ids = search_top_ids(&rs, "rust").unwrap();
    assert_eq!(ids.len(), 2);
    assert_eq!(ids[0], Some("strong".to_string()));
    assert_eq!(ids[1], Some("weak".to_string()));
}

#[test]
fn missing_index_is_a_distinct_error() {
    let dir = tempfile::tempdir().unwrap();
    let path = dir.path().to_str().unwrap();
    match open_read_session(path) {
        Err(SearchError::IndexNotFound) => {}
        _ => panic!("expected the distinct missing-index error"),
    }
}

#[test]
fn missing_q_parameter_is_a_client_error() {
    let dir = tempfile::tempdir().unwrap();
    let path = dir.path().to_str().unwrap();
    build_at(path, &[post("1", "anything", "alice", 1, 0)]);
    let rs = open_read_session(path).unwrap();
    match handle_search(&rs, &params(None)) {
        Err(SearchError::MissingParameter) => {}
        _ => panic!("expected the missing-parameter error"),
    }
}

#[test]
fn malformed_query_is_a_parse_error() {
    let dir = tempfile::tempdir().unwrap();
    let path = dir.path().to_str().unwrap();
    build_at(path, &[post("1", "anything", "alice", 1, 0)]);
    let rs = open_read_session(path).unwrap();
    match search_top_ids(&rs, "title:[unbalanced TO") {
        Err(SearchError::QueryParse(_)) => {}
        other => panic!("expected a query parse error, got {:?}", other.is_ok()),
    }
}

#[test]
fn index_lifecycle_failure_is_surfaced() {
    // a path that exists but is not a directory can be neither created nor opened
    let file = tempfile::NamedTempFile::new().unwrap();
    let path = file.path().to_str().unwrap();
    let schema = post_index_schema();
    match open_write_session(path, schema, WRITER_MEMORY_BUDGET) {
        Err(BuildError::IndexLifecycle(_)) => {}
        _ => panic!("expected an index lifecycle error"),
    }
}

#[test]
fn rebuilding_does_not_lose_entries() {
    let dir = tempfile::tempdir().unwrap();
    let path = dir.path().to_str().unwrap();
    let posts = vec![post("123", "Rust is great", "alice", 42, 7)];
    build_at(path, &posts);
    // the second pass opens the existing index and appends the same corpus
    build_at(path, &posts);
    let rs = open_read_session(path).unwrap();
    let ids = search_top_ids(&rs, "rust").unwrap();
    assert!(!ids.is_empty());
    assert!(ids.iter().all(|i| i == &Some("123".to_string())));
}

#[test]
fn second_build_pass_parses_the_same_source_set() {
    // the strict decode stage is deterministic across passes
    let p = post("9", "determinism holds", "dora", 3, 1);
    let files = vec![post_json(&p), post_json(&p)];
    let first = parse_posts(&files).unwrap();
    let second = parse_posts(&files).unwrap();
    assert_eq!(first.len(), 2);
    assert_eq!(second.len(), 2);
    assert_eq!(first[0].id, second[0].id);
    assert_eq!(first[1].title, second[1].title);
}
