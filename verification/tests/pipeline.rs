use post_search::enumerate::{collect_pages, filter_document_keys};
use post_search::errors::BuildError;
use post_search::fetch::FetchScheduler;
use post_search::parse::{parse_post, parse_posts};
use post_search::query::{ids_to_json, query_param};
use post_search::engine::{document_schema, FieldKind};

fn keys(prefix: &str, n: usize) -> Vec<String> {
    let mut v = Vec::new();
    for i in 0..n {
        v.push(format!("{}{}.json", prefix, i));
    }
    v
}

#[test]
fn enumeration_returns_every_key_across_pages() {
    let pages = vec![keys("posts/a", 100), keys("posts/b", 100), keys("posts/c", 50)];
    let all = collect_pages(&pages);
    assert_eq!(all.len(), 250);
    // no duplicates and no omissions: every page key appears exactly once
    let mut sorted = all.clone();
    sorted.sort();
    let mut expected: Vec<String> = pages.into_iter().flatten().collect();
    expected.sort();
    assert_eq!(sorted, expected);
    for w in sorted.windows(2) {
        assert_ne!(w[0], w[1]);
    }
}

#[test]
fn filter_keeps_only_document_keys() {
    let listing = vec![
        "posts/1.json".to_string(),
        "posts/readme.txt".to_string(),
        "posts/2.json".to_string(),
        "posts/.json".to_string(),
        "posts/3.jsonx".to_string(),
        "json".to_string(),
    ];
    let filtered = filter_document_keys(&listing);
    assert_eq!(
        filtered,
        vec!["posts/1.json".to_string(), "posts/2.json".to_string(), "posts/.json".to_string()]
    );
}

#[test]
fn fetcher_never_exceeds_bound_and_returns_all() {
    let mut s = FetchScheduler::new(keys("posts/", 25), 10);
    let mut launched: Vec<String> = Vec::new();
    // fill the fan-out: exactly 10 fetches may be started before any completes
    while let Some(k) = s.next_launch() {
        launched.push(k);
    }
    assert_eq!(launched.len(), 10);
    assert!(!s.is_done());
    // completing one frees one slot, and only one
    s.on_success(b"content-0".to_vec());
    let next = s.next_launch();
    assert!(next.is_some());
    launched.push(next.unwrap());
    assert!(s.next_launch().is_none());
    // drain the rest
    let mut completed = 1;
    loop {
        s.on_success(format!("content-{}", completed).into_bytes());
        completed += 1;
        while let Some(k) = s.next_launch() {
            launched.push(k);
        }
        if s.is_done() {
            break;
        }
    }
    assert_eq!(launched.len(), 25);
    let contents = s.finish().unwrap();
    assert_eq!(contents.len(), 25);
}

#[test]
fn fetcher_surfaces_first_error_without_partial_result() {
    let mut s = FetchScheduler::new(keys("posts/", 25), 10);
    let mut started = 0;
    while let Some(_k) = s.next_launch() {
        started += 1;
    }
    assert_eq!(started, 10);
    s.on_success(b"ok-1".to_vec());
    s.on_failure("access denied: posts/3.json".to_string());
    s.on_failure("timeout: posts/4.json".to_string());
    // attempt every remaining key even after a failure
    loop {
        while s.next_launch().is_some() {
            started += 1;
        }
        if s.is_done() {
            break;
        }
        s.on_success(b"ok".to_vec());
    }
    assert_eq!(started, 25);
    let outcome = s.finish();
    match outcome {
        Err(BuildError::StoreAccess(m)) => assert_eq!(m, "access denied: posts/3.json"),
        _ => panic!("expected the first store error"),
    }
}

fn post_json(id: &str, title: &str, author: &str, points: u64, comments: u64) -> Vec<u8> {
    format!(
        "{{\"id\":\"{}\",\"title\":\"{}\",\"url\":\"https://example.com/{}\",\"num_points\":{},\"num_comments\":{},\"author\":\"{}\",\"created_at\":\"2024-01-01T00:00:00Z\"}}",
        id, title, id, points, comments, author
    )
    .into_bytes()
}

#[test]
fn parse_post_reads_every_field() {
    let bytes = post_json("123", "Rust is great", "alice", 42, 7);
    let p = parse_post(&bytes).unwrap();
    assert_eq!(p.id, "123");
    assert_eq!(p.title, "Rust is great");
    assert_eq!(p.url, "https://example.com/123");
    assert_eq!(p.num_points, 42);
    assert_eq!(p.num_comments, 7);
    assert_eq!(p.author, "alice");
    assert_eq!(p.created_at, "2024-01-01T00:00:00Z");
}

#[test]
fn parse_post_rejects_malformed_documents() {
    assert!(parse_post(&b"not json at all".to_vec()).is_none());
    assert!(parse_post(&b"{\"id\":\"1\"}".to_vec()).is_none());
    // a negative count is not an unsigned field
    let negative = b"{\"id\":\"1\",\"title\":\"t\",\"url\":\"u\",\"num_points\":-3,\"num_comments\":0,\"author\":\"a\",\"created_at\":\"c\"}".to_vec();
    assert!(parse_post(&negative).is_none());
    // a numeric id is not a text field
    let numeric_id = b"{\"id\":7,\"title\":\"t\",\"url\":\"u\",\"num_points\":1,\"num_comments\":0,\"author\":\"a\",\"created_at\":\"c\"}".to_vec();
    assert!(parse_post(&numeric_id).is_none());
}

#[test]
fn parse_posts_aborts_on_first_malformed_document() {
    let files = vec![
        post_json("1", "first", "a", 1, 0),
        b"broken".to_vec(),
        post_json("2", "second", "b", 2, 0),
    ];
    match parse_posts(&files) {
        Err(BuildError::MalformedDocument(ix)) => assert_eq!(ix, 1),
        _ => panic!("expected the malformed document's position"),
    }
    let good = vec![post_json("1", "first", "a", 1, 0), post_json("2", "second", "b", 2, 0)];
    let posts = parse_posts(&good).unwrap();
    assert_eq!(posts.len(), 2);
    assert_eq!(posts[0].id, "1");
    assert_eq!(posts[1].id, "2");
}

#[test]
fn schema_is_the_shared_field_layout() {
    let defs = document_schema();
    let names: Vec<&str> = defs.iter().map(|d| d.name.as_str()).collect();
    assert_eq!(names, vec!["id", "author", "title", "num_points", "num_comments", "created_at"]);
    for d in &defs {
        match d.name.as_str() {
            "num_points" | "num_comments" => {
                assert!(matches!(d.kind, FieldKind::Unsigned));
                assert!(d.stored);
            }
            "title" | "created_at" => {
                assert!(matches!(d.kind, FieldKind::Text));
                assert!(!d.stored);
            }
            _ => {
                assert!(matches!(d.kind, FieldKind::Text));
                assert!(d.stored);
            }
        }
    }
}

#[test]
fn query_param_finds_first_occurrence() {
    let params = vec![
        ("page".to_string(), "2".to_string()),
        ("q".to_string(), "rust".to_string()),
        ("q".to_string(), "later".to_string()),
    ];
    assert_eq!(query_param(&params, "q"), Some("rust".to_string()));
    assert_eq!(query_param(&params, "page"), Some("2".to_string()));
    assert_eq!(query_param(&params, "missing"), None);
    assert_eq!(query_param(&Vec::new(), "q"), None);
}

#[test]
fn identifier_list_serializes_to_json_array() {
    let ids = vec![Some("123".to_string()), None, Some("9".to_string())];
    assert_eq!(ids_to_json(&ids), "[\"123\",null,\"9\"]");
    assert_eq!(ids_to_json(&Vec::new()), "[]");
}
