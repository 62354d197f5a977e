use vstd::prelude::*;
use crate::errors::BuildError;
use crate::post::{Post, PostModel};

verus! {

/// One field of a decoded document, as the post shape reads it: a text
/// value, an unsigned integer, or anything else.
pub ghost enum JsonField {
    Text(Seq<char>),
    Unsigned(u64),
    Other,
}

#[verifier::external_type_specification]
#[verifier::external_body]
pub struct ExJsonValue(serde_json::Value);

/// The named fields a decoded document holds, with the kind and value of
/// each, as far as the post shape reads them.
pub uninterp spec fn json_fields(v: serde_json::Value) -> Map<Seq<char>, JsonField>;

/// What decoding a byte blob yields: the field map of the decoded document,
/// or nothing when the bytes are not a well-formed document. The outcome is a
/// function of the bytes alone.
pub uninterp spec fn decoded_fields(bytes: Seq<u8>) -> Option<Map<Seq<char>, JsonField>>;

/// Relies on serde_json::from_slice::<Value>: decodes a document from bytes;
/// decoding is deterministic in the bytes.
#[verifier::external_body]
fn json_decode(bytes: &Vec<u8>) -> (r: Option<serde_json::Value>)
    ensures
        match r {
            Some(v) => decoded_fields(bytes@) == Some(json_fields(v)),
            None => decoded_fields(bytes@) is None,
        },
{
    serde_json::from_slice(bytes.as_slice()).ok()
}

/// Relies on serde_json::Value::get and the Value::String variant: yields the
/// text under `key` exactly when the document holds a text field of that name.
#[verifier::external_body]
fn json_text_field(v: &serde_json::Value, key: &str) -> (r: Option<String>)
    ensures
        match r {
            Some(s) => json_fields(*v).contains_key(key@) && json_fields(*v)[key@]
                == JsonField::Text(s@),
            None => !(json_fields(*v).contains_key(key@) && json_fields(*v)[key@] is Text),
        },
{
    match v.get(key) {
        Some(serde_json::Value::String(s)) => Some(s.clone()),
        _ => None,
    }
}

/// Relies on serde_json::Value::get and Value::as_u64: yields the integer
/// under `key` exactly when the document holds a number of that name that is
/// representable as a u64.
#[verifier::external_body]
fn json_unsigned_field(v: &serde_json::Value, key: &str) -> (r: Option<u64>)
    ensures
        match r {
            Some(n) => json_fields(*v).contains_key(key@) && json_fields(*v)[key@]
                == JsonField::Unsigned(n),
            None => !(json_fields(*v).contains_key(key@) && json_fields(*v)[key@] is Unsigned),
        },
{
    match v.get(key) {
        Some(x) => x.as_u64(),
        None => None,
    }
}

/// Whether a decoded field map holds a text field of the given name.
pub open spec fn has_text(m: Map<Seq<char>, JsonField>, name: Seq<char>) -> bool {
    m.contains_key(name) && m[name] is Text
}

/// Whether a decoded field map holds an unsigned field of the given name.
pub open spec fn has_unsigned(m: Map<Seq<char>, JsonField>, name: Seq<char>) -> bool {
    m.contains_key(name) && m[name] is Unsigned
}

/// The post a decoded field map describes, if it holds every field of the
/// post shape with the right kind.
pub open spec fn post_of_fields(m: Map<Seq<char>, JsonField>) -> Option<PostModel> {
    if has_text(m, "id"@) && has_text(m, "title"@) && has_text(m, "url"@) && has_unsigned(
        m,
        "num_points"@,
    ) && has_unsigned(m, "num_comments"@) && has_text(m, "author"@) && has_text(
        m,
        "created_at"@,
    ) {
        Some(
            PostModel {
                id: m["id"@]->Text_0,
                title: m["title"@]->Text_0,
                url: m["url"@]->Text_0,
                num_points: m["num_points"@]->Unsigned_0,
                num_comments: m["num_comments"@]->Unsigned_0,
                author: m["author"@]->Text_0,
                created_at: m["created_at"@]->Text_0,
            },
        )
    } else {
        None
    }
}

/// The post that a byte blob decodes to, if it decodes at all and holds the
/// post shape.
pub open spec fn parsed_post(bytes: Seq<u8>) -> Option<PostModel> {
    match decoded_fields(bytes) {
        Some(m) => post_of_fields(m),
        None => None,
    }
}

/// Decodes one fetched object into a typed post: the exact post the bytes
/// describe, or nothing when the bytes are malformed or any schema field is
/// missing or of the wrong kind.
pub fn parse_post(bytes: &Vec<u8>) -> (r: Option<Post>)
    ensures
        match r {
            Some(p) => parsed_post(bytes@) == Some(p@),
            None => parsed_post(bytes@) is None,
        },
{
    let v = match json_decode(bytes) {
        Some(v) => v,
        None => {
            return None;
        },
    };
    let id = json_text_field(&v, "id");
    let title = json_text_field(&v, "title");
    let url = json_text_field(&v, "url");
    let num_points = json_unsigned_field(&v, "num_points");
    let num_comments = json_unsigned_field(&v, "num_comments");
    let author = json_text_field(&v, "author");
    let created_at = json_text_field(&v, "created_at");
    match (id, title, url, num_points, num_comments, author, created_at) {
        (
            Some(id),
            Some(title),
            Some(url),
            Some(num_points),
            Some(num_comments),
            Some(author),
            Some(created_at),
        ) => Some(
            Post { id, title, url, num_points, num_comments, author, created_at },
        ),
        _ => None,
    }
}

/// Decodes every fetched object, strictly: all posts in input order when every
/// blob parses, and otherwise the position of the first malformed blob — the
/// whole pass aborts, nothing is skipped.
pub fn parse_posts(files: &Vec<Vec<u8>>) -> (r: Result<Vec<Post>, BuildError>)
    ensures
        match r {
            Ok(posts) => {
                &&& posts.deep_view().len() == files.deep_view().len()
                &&& forall|i: int|
                    0 <= i < files.deep_view().len() ==> parsed_post(#[trigger] files.deep_view()[i])
                        == Some(posts.deep_view()[i])
            },
            Err(e) => {
                &&& e matches BuildError::MalformedDocument(ix)
                &&& 0 <= ix < files.deep_view().len()
                &&& parsed_post(files.deep_view()[ix as int]) is None
                &&& forall|j: int|
                    0 <= j < ix ==> parsed_post(#[trigger] files.deep_view()[j]) is Some
            },
        },
{
    let mut posts: Vec<Post> = Vec::new();
    let mut i: usize = 0;
    while i < files.len()
        invariant
            i <= files@.len(),
            posts.deep_view().len() == i as int,
            forall|j: int|
                0 <= j < i as int ==> parsed_post(#[trigger] files.deep_view()[j]) == Some(
                    posts.deep_view()[j],
                ),
        decreases files@.len() - i,
    {
        let ghost prev = posts.deep_view();
        match parse_post(&files[i]) {
            Some(p) => {
                let ghost pm = p@;
                posts.push(p);
                proof {
                    assert(posts.deep_view() =~= prev.push(pm));
                    assert(files.deep_view()[i as int] == files@[i as int].deep_view());
                    assert(files@[i as int].deep_view() =~= files@[i as int]@);
                }
            },
            None => {
                proof {
                    assert(files.deep_view()[i as int] == files@[i as int].deep_view());
                    assert(files@[i as int].deep_view() =~= files@[i as int]@);
                }
                return Err(BuildError::MalformedDocument(i));
            },
        }
        i += 1;
    }
    Ok(posts)
}

} // verus!
