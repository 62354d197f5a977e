use vstd::prelude::*;
use vstd::multiset::Multiset;
use crate::errors::{BuildError, SearchError};
use crate::post::{Post, PostModel};

verus! {

/// The memory budget of a write session's buffered additions, in bytes.
pub const WRITER_MEMORY_BUDGET: usize = 50_000_000;

/// The kind of a schema field: free text, or an unsigned integer.
#[derive(PartialEq, Eq, Structural, Clone, Copy, Debug)]
pub enum FieldKind {
    Text,
    Unsigned,
}

/// One field of the document schema: its name, its kind, and whether its
/// value is stored (retrievable from the index) besides being indexed.
#[derive(Debug)]
pub struct FieldDef {
    pub name: String,
    pub kind: FieldKind,
    pub stored: bool,
}

/// The model of a schema field.
pub ghost struct FieldModel {
    pub name: Seq<char>,
    pub kind: FieldKind,
    pub stored: bool,
}

impl View for FieldDef {
    type V = FieldModel;

    open spec fn view(&self) -> FieldModel {
        FieldModel { name: self.name@, kind: self.kind, stored: self.stored }
    }
}

impl DeepView for FieldDef {
    type V = FieldModel;

    open spec fn deep_view(&self) -> FieldModel {
        self.view()
    }
}

/// The document schema, the one shared contract between the build pipeline
/// and the query engine: id and author are searchable text and stored; title
/// and created_at are searchable text only; the two counters are indexed
/// numerics and stored.
pub open spec fn document_schema_model() -> Seq<FieldModel> {
    seq![
        FieldModel { name: "id"@, kind: FieldKind::Text, stored: true },
        FieldModel { name: "author"@, kind: FieldKind::Text, stored: true },
        FieldModel { name: "title"@, kind: FieldKind::Text, stored: false },
        FieldModel { name: "num_points"@, kind: FieldKind::Unsigned, stored: true },
        FieldModel { name: "num_comments"@, kind: FieldKind::Unsigned, stored: true },
        FieldModel { name: "created_at"@, kind: FieldKind::Text, stored: false },
    ]
}

/// The one constructor of the document schema value: both the builder and the
/// query side call this rather than re-declaring field lists.
pub fn document_schema() -> (r: Vec<FieldDef>)
    ensures
        r.deep_view() == document_schema_model(),
{
    let mut defs: Vec<FieldDef> = Vec::new();
    defs.push(FieldDef { name: "id".to_owned(), kind: FieldKind::Text, stored: true });
    defs.push(FieldDef { name: "author".to_owned(), kind: FieldKind::Text, stored: true });
    defs.push(FieldDef { name: "title".to_owned(), kind: FieldKind::Text, stored: false });
    defs.push(FieldDef { name: "num_points".to_owned(), kind: FieldKind::Unsigned, stored: true });
    defs.push(
        FieldDef { name: "num_comments".to_owned(), kind: FieldKind::Unsigned, stored: true },
    );
    defs.push(FieldDef { name: "created_at".to_owned(), kind: FieldKind::Text, stored: false });
    proof {
        assert(defs.deep_view() =~= document_schema_model());
    }
    defs
}

#[verifier::external_type_specification]
#[verifier::external_body]
pub struct ExSchemaBuilder(tantivy::schema::SchemaBuilder);

#[verifier::external_type_specification]
#[verifier::external_body]
pub struct ExSchema(tantivy::schema::Schema);

/// The fields a schema builder will put into the schema, in addition order.
pub uninterp spec fn builder_fields(b: tantivy::schema::SchemaBuilder) -> Seq<FieldModel>;

/// The fields a built schema holds, in addition order.
pub uninterp spec fn schema_fields(s: tantivy::schema::Schema) -> Seq<FieldModel>;

/// Relies on tantivy's Schema::builder: a new builder with no fields.
#[verifier::external_body]
fn schema_builder_new() -> (r: tantivy::schema::SchemaBuilder)
    ensures
        builder_fields(r) == Seq::<FieldModel>::empty(),
{
    tantivy::schema::Schema::builder()
}

/// Relies on SchemaBuilder::add_text_field with the TEXT (and STORED) option:
/// appends a searchable text field of that name. The method panics on a name
/// that was already added, so a repeated name is excluded here.
#[verifier::external_body]
fn builder_add_text(b: &mut tantivy::schema::SchemaBuilder, name: &str, stored: bool)
    requires
        forall|i: int|
            0 <= i < builder_fields(*old(b)).len() ==> (#[trigger] builder_fields(*old(b))[i]).name
                != name@,
    ensures
        builder_fields(*final(b)) == builder_fields(*old(b)).push(
            FieldModel { name: name@, kind: FieldKind::Text, stored },
        ),
{
    if stored {
        b.add_text_field(name, tantivy::schema::TEXT | tantivy::schema::STORED);
    } else {
        b.add_text_field(name, tantivy::schema::TEXT);
    }
}

/// Relies on SchemaBuilder::add_u64_field with the INDEXED (and STORED)
/// option: appends an indexed unsigned field of that name. The method panics
/// on a name that was already added, so a repeated name is excluded here.
#[verifier::external_body]
fn builder_add_unsigned(b: &mut tantivy::schema::SchemaBuilder, name: &str, stored: bool)
    requires
        forall|i: int|
            0 <= i < builder_fields(*old(b)).len() ==> (#[trigger] builder_fields(*old(b))[i]).name
                != name@,
    ensures
        builder_fields(*final(b)) == builder_fields(*old(b)).push(
            FieldModel { name: name@, kind: FieldKind::Unsigned, stored },
        ),
{
    if stored {
        b.add_u64_field(name, tantivy::schema::INDEXED | tantivy::schema::STORED);
    } else {
        b.add_u64_field(name, tantivy::schema::INDEXED);
    }
}

/// Relies on SchemaBuilder::build: the schema holds exactly the added fields.
#[verifier::external_body]
fn builder_build(b: tantivy::schema::SchemaBuilder) -> (r: tantivy::schema::Schema)
    ensures
        schema_fields(r) == builder_fields(b),
{
    b.build()
}

/// Assembles the engine's schema from field definitions: the built schema
/// holds exactly the given fields, in order. The engine refuses a repeated
/// field name, so the definitions must carry distinct names.
pub fn engine_schema(defs: &Vec<FieldDef>) -> (r: tantivy::schema::Schema)
    requires
        forall|i: int, j: int|
            #![trigger defs.deep_view()[i], defs.deep_view()[j]]
            0 <= i < j < defs.deep_view().len() ==> defs.deep_view()[i].name
                != defs.deep_view()[j].name,
    ensures
        schema_fields(r) == defs.deep_view(),
{
    let mut b = schema_builder_new();
    let mut i: usize = 0;
    while i < defs.len()
        invariant
            i <= defs@.len(),
            builder_fields(b) == defs.deep_view().take(i as int),
            forall|k: int, j: int|
                #![trigger defs.deep_view()[k], defs.deep_view()[j]]
                0 <= k < j < defs.deep_view().len() ==> defs.deep_view()[k].name
                    != defs.deep_view()[j].name,
        decreases defs@.len() - i,
    {
        let d = &defs[i];
        proof {
            assert(defs.deep_view()[i as int] == defs@[i as int]@);
            assert forall|k: int|
                0 <= k < builder_fields(b).len() implies (#[trigger] builder_fields(b)[k]).name
                != d.name@ by {
                assert(builder_fields(b)[k] == defs.deep_view()[k]);
                assert(defs.deep_view()[k].name != defs.deep_view()[i as int].name);
            }
        }
        match d.kind {
            FieldKind::Text => builder_add_text(&mut b, d.name.as_str(), d.stored),
            FieldKind::Unsigned => builder_add_unsigned(&mut b, d.name.as_str(), d.stored),
        }
        proof {
            assert(defs.deep_view().take(i + 1) =~= defs.deep_view().take(i as int).push(
                defs.deep_view()[i as int],
            ));
        }
        i += 1;
    }
    assert(defs.deep_view().take(defs@.len() as int) =~= defs.deep_view());
    builder_build(b)
}

/// The engine schema of the document schema: the one schema value both the
/// build pass and the query engine run under.
pub fn post_index_schema() -> (r: tantivy::schema::Schema)
    ensures
        schema_fields(r) == document_schema_model(),
{
    let defs = document_schema();
    proof {
        reveal_strlit("id");
        reveal_strlit("author");
        reveal_strlit("title");
        reveal_strlit("num_points");
        reveal_strlit("num_comments");
        reveal_strlit("created_at");
        let m = document_schema_model();
        assert(m[0].name.len() == 2 && m[1].name.len() == 6 && m[2].name.len() == 5);
        assert(m[3].name.len() == 10 && m[4].name.len() == 12 && m[5].name.len() == 10);
        assert(m[3].name[0] == 'n' && m[5].name[0] == 'c');
        assert forall|i: int, j: int|
            #![trigger defs.deep_view()[i], defs.deep_view()[j]]
            0 <= i < j < defs.deep_view().len() implies defs.deep_view()[i].name
            != defs.deep_view()[j].name by {
            assert(defs.deep_view() == m);
            assert(i == 0 || i == 1 || i == 2 || i == 3 || i == 4);
            assert(j == 1 || j == 2 || j == 3 || j == 4 || j == 5);
        }
    }
    engine_schema(&defs)
}

/// An exclusive write session over the on-disk index: staged additions become
/// durable, and visible to later read sessions, at its single commit.
#[verifier::external_body]
pub struct WriterSession {
    index: tantivy::Index,
    writer: tantivy::IndexWriter,
}

/// What the engine's default text analysis makes of a text: the sequence of
/// indexed terms, a function of the text alone. An indexed-only field retains
/// its terms (postings with positions), not its exact character sequence.
pub uninterp spec fn indexed_terms(text: Seq<char>) -> Seq<Seq<char>>;

/// What the index retains of one post: the exact text of the stored fields
/// (id, author), the two stored counters, and the indexed term sequences of
/// the unstored text fields (title, created_at). The url is outside the
/// schema and is not retained at all.
pub ghost struct IndexedDoc {
    pub id: Seq<char>,
    pub author: Seq<char>,
    pub num_points: u64,
    pub num_comments: u64,
    pub title_terms: Seq<Seq<char>>,
    pub created_at_terms: Seq<Seq<char>>,
}

/// The document the engine retains for a post.
pub open spec fn doc_of_post(p: PostModel) -> IndexedDoc {
    IndexedDoc {
        id: p.id,
        author: p.author,
        num_points: p.num_points,
        num_comments: p.num_comments,
        title_terms: indexed_terms(p.title),
        created_at_terms: indexed_terms(p.created_at),
    }
}

/// The documents a write session has staged and not yet committed.
pub uninterp spec fn staged_docs(w: WriterSession) -> Multiset<IndexedDoc>;

/// The documents durably committed at the session's index path, as this
/// session will leave them visible to subsequent read sessions.
pub uninterp spec fn committed_docs(w: WriterSession) -> Multiset<IndexedDoc>;

/// Relies on Index::create_in_dir (which reports IndexAlreadyExists when an
/// index is already there), Index::open_in_dir, and Index::writer: creates the
/// index at `path` under the given schema or opens the existing one, and opens
/// its single write session with the given memory budget. A fresh session has
/// nothing staged, and a just-created index holds no committed documents.
#[verifier::external_body]
pub fn open_write_session(
    path: &str,
    schema: tantivy::schema::Schema,
    memory_budget: usize,
) -> (r: Result<(WriterSession, bool), BuildError>)
    ensures
        match r {
            Ok((w, created)) => staged_docs(w) == Multiset::<IndexedDoc>::empty() && (created
                ==> committed_docs(w) == Multiset::<IndexedDoc>::empty()),
            Err(e) => e matches BuildError::IndexLifecycle(_),
        },
{
    let (index, created) = match tantivy::Index::create_in_dir(path, schema) {
        Ok(ix) => (ix, true),
        Err(tantivy::TantivyError::IndexAlreadyExists) => match tantivy::Index::open_in_dir(path) {
            Ok(ix) => (ix, false),
            Err(e) => return Err(BuildError::IndexLifecycle(e.to_string())),
        },
        Err(e) => return Err(BuildError::IndexLifecycle(e.to_string())),
    };
    match index.writer::<tantivy::TantivyDocument>(memory_budget) {
        Ok(writer) => Ok((WriterSession { index, writer }, created)),
        Err(e) => Err(BuildError::IndexLifecycle(e.to_string())),
    }
}

impl WriterSession {
    /// Relies on IndexWriter::add_document: stages the post's engine document
    /// for the next commit and reports true; when the engine rejects the
    /// document (or the opened index does not carry the schema fields)
    /// nothing changes and it reports false.
    #[verifier::external_body]
    pub fn stage(&mut self, post: &Post) -> (r: bool)
        ensures
            committed_docs(*final(self)) == committed_docs(*old(self)),
            r ==> staged_docs(*final(self)) == staged_docs(*old(self)).insert(
                (IndexedDoc {
                    id: post@.id,
                    author: post@.author,
                    num_points: post@.num_points,
                    num_comments: post@.num_comments,
                    title_terms: indexed_terms(post@.title),
                    created_at_terms: indexed_terms(post@.created_at),
                }),
            ),
            !r ==> staged_docs(*final(self)) == staged_docs(*old(self)),
    {
        match post_document(&self.index.schema(), post) {
            Some(doc) => self.writer.add_document(doc).is_ok(),
            None => false,
        }
    }

    /// Relies on IndexWriter::commit: durably publishes everything staged in
    /// this session; the staged documents join the committed ones and the
    /// staged set becomes empty. A failed commit leaves the committed state
    /// untouched (the index meta file is written atomically, or not at all).
    #[verifier::external_body]
    pub fn commit(&mut self) -> (r: Result<(), BuildError>)
        ensures
            match r {
                Ok(()) => committed_docs(*final(self)) == committed_docs(*old(self)).add(
                    staged_docs(*old(self)),
                ) && staged_docs(*final(self)) == Multiset::<IndexedDoc>::empty(),
                Err(e) => e matches BuildError::CommitFailed(_) && committed_docs(*final(self))
                    == committed_docs(*old(self)),
            },
    {
        match self.writer.commit() {
            Ok(_) => Ok(()),
            Err(e) => Err(BuildError::CommitFailed(e.to_string())),
        }
    }
}

#[verifier::external_type_specification]
#[verifier::external_body]
pub struct ExTantivyDocument(tantivy::TantivyDocument);

/// Relies on Schema::get_field and TantivyDocument's add_text and add_u64:
/// converts a post into the engine document that carries the post's value
/// under every schema field, or nothing when the schema lacks a field.
#[verifier::external_body]
fn post_document(s: &tantivy::schema::Schema, p: &Post) -> (r: Option<tantivy::TantivyDocument>) {
    let q = (s.get_field("id"), s.get_field("author"), s.get_field("title"),
        s.get_field("num_points"), s.get_field("num_comments"), s.get_field("created_at"));
    let (a, b, c, d, e, g) = match q {
        (Ok(a), Ok(b), Ok(c), Ok(d), Ok(e), Ok(g)) => (a, b, c, d, e, g),
        _ => return None,
    };
    let mut doc = tantivy::TantivyDocument::new();
    doc.add_text(a, &p.id);
    doc.add_text(b, &p.author);
    doc.add_text(c, &p.title);
    doc.add_u64(d, p.num_points);
    doc.add_u64(e, p.num_comments);
    doc.add_text(g, &p.created_at);
    Some(doc)
}

#[verifier::external_type_specification]
#[verifier::external_body]
pub struct ExDocAddress(tantivy::DocAddress);

#[verifier::external_type_specification]
#[verifier::external_body]
pub struct ExTantivyError(tantivy::TantivyError);

/// Relies on the error variants of Index::open_in_dir: a directory that does
/// not exist, or one without the index meta file, means no index was ever
/// created there; anything else is an engine failure.
#[verifier::external_body]
fn open_error(e: tantivy::TantivyError) -> (r: SearchError) {
    match e {
        tantivy::TantivyError::OpenDirectoryError(
            tantivy::directory::error::OpenDirectoryError::DoesNotExist(_),
        ) => SearchError::IndexNotFound,
        tantivy::TantivyError::OpenReadError(
            tantivy::directory::error::OpenReadError::FileDoesNotExist(_),
        ) => SearchError::IndexNotFound,
        other => SearchError::Engine(other.to_string()),
    }
}

/// A point-in-time read session over the committed index state: a snapshot
/// searcher over whatever had been committed when it was opened.
#[verifier::external_body]
pub struct ReaderSession {
    index: tantivy::Index,
    searcher: tantivy::Searcher,
}

/// Relies on Index::open_in_dir, Index::reader and IndexReader::searcher:
/// opens a snapshot read session over the index at `path`. A path whose
/// directory does not exist or holds no index meta file — no index was ever
/// created there — fails with the distinct IndexNotFound error (see
/// open_error); any other engine failure is an Engine error.
#[verifier::external_body]
pub fn open_read_session(path: &str) -> (r: Result<ReaderSession, SearchError>)
    ensures
        r matches Err(e) ==> (e matches SearchError::IndexNotFound || e matches SearchError::Engine(
            _,
        )),
{
    let index = match tantivy::Index::open_in_dir(path) {
        Ok(ix) => ix,
        Err(e) => return Err(open_error(e)),
    };
    let reader = match index.reader() {
        Ok(r) => r,
        Err(e) => return Err(SearchError::Engine(e.to_string())),
    };
    let searcher = reader.searcher();
    Ok(ReaderSession { index, searcher })
}

/// The ranked hit list of a query against a read session's snapshot: the
/// session is a point-in-time searcher over immutable segments and the
/// engine's ranking is deterministic, so the list is a function of the
/// session, the query text and the limit.
pub uninterp spec fn hits_of(rs: ReaderSession, query: Seq<char>, limit: int) -> Seq<
    tantivy::DocAddress,
>;

/// Whether an address names a document of this session's snapshot. Only such
/// addresses may be resolved against the session's searcher.
pub uninterp spec fn session_hit(rs: ReaderSession, addr: tantivy::DocAddress) -> bool;

/// The stored identifier of a document of the session's snapshot: a function
/// of the session and the address.
pub uninterp spec fn stored_id_of(rs: ReaderSession, addr: tantivy::DocAddress) -> Option<
    Seq<char>,
>;

impl ReaderSession {
    /// Relies on QueryParser::for_index over the stored schema's title field,
    /// QueryParser::parse_query, and Searcher::search under TopDocs::with_limit ordered by score:
    /// ranked retrieval of at most `limit` hits, in the engine's descending
    /// relevance-score order (ties in the engine's unspecified order), each hit
    /// given as its document address. The hit list is the named function of the
    /// snapshot session and the arguments, and every hit belongs to this
    /// snapshot. Query text the engine's grammar rejects fails with QueryParse.
    #[verifier::external_body]
    pub fn run_query(&self, query: &str, limit: usize) -> (r: Result<
        Vec<tantivy::DocAddress>,
        SearchError,
    >)
        requires
            1 <= limit,
        ensures
            match r {
                Ok(hits) => {
                    &&& hits@ == hits_of(*self, query@, limit as int)
                    &&& hits@.len() <= limit
                    &&& forall|i: int|
                        0 <= i < hits@.len() ==> session_hit(*self, #[trigger] hits@[i])
                },
                Err(e) => e matches SearchError::QueryParse(_) || e matches SearchError::Engine(
                    _,
                ),
            },
    {
        let title = match self.index.schema().get_field("title") {
            Ok(f) => f,
            Err(e) => return Err(SearchError::Engine(e.to_string())),
        };
        let parser = tantivy::query::QueryParser::for_index(&self.index, vec![title]);
        let parsed = match parser.parse_query(query) {
            Ok(q) => q,
            Err(e) => return Err(SearchError::QueryParse(e.to_string())),
        };
        match self.searcher.search(&parsed, &tantivy::collector::TopDocs::with_limit(limit).order_by_score()) {
            Ok(hits) => Ok(hits.into_iter().map(|(_score, addr)| addr).collect()),
            Err(e) => Err(SearchError::Engine(e.to_string())),
        }
    }

    /// Relies on Searcher::doc, TantivyDocument::get_first on the stored id
    /// field, and the text accessor of the stored value: the stored identifier
    /// of the hit at `addr`, or None when the document holds no text id.
    /// Searcher::doc indexes its store readers by the address's segment
    /// ordinal and panics on an address of another snapshot, so only this
    /// session's hits are admitted; for them the value is the named function
    /// of the session and the address.
    #[verifier::external_body]
    pub fn stored_id(&self, addr: &tantivy::DocAddress) -> (r: Result<Option<String>, SearchError>)
        requires
            session_hit(*self, *addr),
        ensures
            match r {
                Ok(id) => id.deep_view() == stored_id_of(*self, *addr),
                Err(e) => e matches SearchError::Engine(_),
            },
    {
        let id = match self.index.schema().get_field("id") {
            Ok(f) => f,
            Err(e) => return Err(SearchError::Engine(e.to_string())),
        };
        let doc: tantivy::TantivyDocument = match self.searcher.doc(*addr) {
            Ok(d) => d,
            Err(e) => return Err(SearchError::Engine(e.to_string())),
        };
        let text = doc.get_first(id).and_then(|v| tantivy::schema::Value::as_str(&v));
        Ok(text.map(|s| s.to_string()))
    }
}

} // verus!
