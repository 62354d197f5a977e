use vstd::prelude::*;
use vstd::multiset::Multiset;
use crate::engine::{IndexedDoc, WriterSession, committed_docs, doc_of_post, staged_docs};
use crate::errors::BuildError;
use crate::parse::{parse_posts, parsed_post};
use crate::post::{Post, PostModel};

verus! {

/// What one build pass did: how many posts were staged, and how many the
/// engine rejected (those are dropped from the pass, which continues).
pub struct BuildOutcome {
    pub staged: usize,
    pub dropped: usize,
}

/// The documents the engine retains for a sequence of posts, in order.
pub open spec fn docs_of(posts: Seq<PostModel>) -> Seq<IndexedDoc> {
    posts.map_values(|p: PostModel| doc_of_post(p))
}

/// Stages every post of the pass into a fresh write session and commits once.
///
/// Staging is best-effort per document: a post the engine rejects is dropped
/// and counted, and the pass continues. Nothing already committed is ever
/// lost; when no post was dropped, the committed documents afterwards are
/// exactly the committed documents before plus every post's document; and a
/// failed commit leaves the committed documents untouched.
pub fn ingest_and_commit(w: &mut WriterSession, posts: &Vec<Post>) -> (r: Result<
    BuildOutcome,
    BuildError,
>)
    requires
        staged_docs(*old(w)) == Multiset::<IndexedDoc>::empty(),
    ensures
        match r {
            Ok(out) => {
                &&& out.staged + out.dropped == posts@.len()
                &&& staged_docs(*final(w)) == Multiset::<IndexedDoc>::empty()
                &&& forall|d: IndexedDoc|
                    committed_docs(*old(w)).count(d) <= committed_docs(*final(w)).count(d)
                &&& (out.dropped == 0 ==> committed_docs(*final(w)) == committed_docs(*old(w)).add(
                    docs_of(posts.deep_view()).to_multiset(),
                ))
            },
            Err(e) => e matches BuildError::CommitFailed(_) && committed_docs(*final(w))
                == committed_docs(*old(w)),
        },
{
    broadcast use vstd::multiset::group_multiset_axioms;
    broadcast use vstd::multiset::lemma_multiset_empty_len;
    broadcast use vstd::seq_lib::group_to_multiset_ensures;

    proof {
        assert(docs_of(posts.deep_view().take(0)).to_multiset()
            =~= Multiset::<IndexedDoc>::empty());
    }
    let mut staged: usize = 0;
    let mut dropped: usize = 0;
    let mut i: usize = 0;
    while i < posts.len()
        invariant
            i <= posts@.len(),
            staged as int + dropped as int == i as int,
            committed_docs(*w) == committed_docs(*old(w)),
            dropped == 0 ==> staged_docs(*w) == docs_of(
                posts.deep_view().take(i as int),
            ).to_multiset(),
        decreases posts@.len() - i,
    {
        let accepted = w.stage(&posts[i]);
        if accepted {
            staged += 1;
        } else {
            dropped += 1;
        }
        proof {
            assert(posts.deep_view()[i as int] == posts@[i as int]@);
            assert(docs_of(posts.deep_view().take(i + 1)) =~= docs_of(
                posts.deep_view().take(i as int),
            ).push(doc_of_post(posts.deep_view()[i as int])));
            vstd::seq_lib::to_multiset_build(
                docs_of(posts.deep_view().take(i as int)),
                doc_of_post(posts.deep_view()[i as int]),
            );
        }
        i += 1;
    }
    proof {
        assert(posts.deep_view().take(posts@.len() as int) =~= posts.deep_view());
    }
    let ghost before_commit = *w;
    match w.commit() {
        Ok(()) => {
            proof {
                assert(committed_docs(*w) == committed_docs(before_commit).add(
                    staged_docs(before_commit),
                ));
                if dropped == 0 {
                } else {
                    assert forall|d: IndexedDoc|
                        committed_docs(*old(w)).count(d) <= committed_docs(*w).count(d) by {
                        assert(committed_docs(*w).count(d) == committed_docs(before_commit).count(d)
                            + staged_docs(before_commit).count(d));
                    }
                }
            }
            Ok(BuildOutcome { staged, dropped })
        },
        Err(e) => Err(e),
    }
}

/// The models of the posts that a set of fetched objects decodes to, in
/// input order, counting only the objects that decode.
pub open spec fn parsed_models(files: Seq<Seq<u8>>) -> Seq<PostModel>
    decreases files.len(),
{
    if files.len() == 0 {
        Seq::empty()
    } else {
        match parsed_post(files.first()) {
            Some(m) => seq![m] + parsed_models(files.drop_first()),
            None => parsed_models(files.drop_first()),
        }
    }
}

/// A sequence that matches another pointwise under parsing is its parsed model.
proof fn lemma_parsed_models_pointwise(files: Seq<Seq<u8>>, posts: Seq<PostModel>)
    requires
        posts.len() == files.len(),
        forall|i: int| 0 <= i < files.len() ==> parsed_post(#[trigger] files[i]) == Some(posts[i]),
    ensures
        parsed_models(files) == posts,
    decreases files.len(),
{
    if files.len() == 0 {
        assert(parsed_models(files) =~= posts);
    } else {
        assert forall|i: int| 0 <= i < files.drop_first().len() implies parsed_post(
            #[trigger] files.drop_first()[i],
        ) == Some(posts.drop_first()[i]) by {
            assert(files.drop_first()[i] == files[i + 1]);
            assert(posts.drop_first()[i] == posts[i + 1]);
        }
        lemma_parsed_models_pointwise(files.drop_first(), posts.drop_first());
        assert(parsed_post(files[0]) == Some(posts[0]));
        assert(parsed_models(files) =~= seq![posts[0]] + posts.drop_first());
        assert(seq![posts[0]] + posts.drop_first() =~= posts);
    }
}

/// One full build pass over already-fetched objects: decode every blob
/// strictly — a malformed document aborts the pass with its position, before
/// anything is staged and with the session untouched — then stage every post
/// and commit once. When no document was dropped, the committed documents
/// afterwards are exactly those before plus every decoded post's document;
/// whatever fails, nothing partial is ever committed.
pub fn build_pass(w: &mut WriterSession, files: &Vec<Vec<u8>>) -> (r: Result<
    BuildOutcome,
    BuildError,
>)
    requires
        staged_docs(*old(w)) == Multiset::<IndexedDoc>::empty(),
    ensures
        match r {
            Ok(out) => {
                &&& out.staged + out.dropped == files@.len()
                &&& forall|i: int|
                    0 <= i < files.deep_view().len() ==> parsed_post(
                        #[trigger] files.deep_view()[i],
                    ) is Some
                &&& staged_docs(*final(w)) == Multiset::<IndexedDoc>::empty()
                &&& forall|d: IndexedDoc|
                    committed_docs(*old(w)).count(d) <= committed_docs(*final(w)).count(d)
                &&& (out.dropped == 0 ==> committed_docs(*final(w)) == committed_docs(*old(w)).add(
                    docs_of(parsed_models(files.deep_view())).to_multiset(),
                ))
            },
            Err(e) => {
                &&& committed_docs(*final(w)) == committed_docs(*old(w))
                &&& match e {
                    BuildError::MalformedDocument(ix) => {
                        &&& *final(w) == *old(w)
                        &&& 0 <= ix < files.deep_view().len()
                        &&& parsed_post(files.deep_view()[ix as int]) is None
                        &&& forall|j: int|
                            0 <= j < ix ==> parsed_post(#[trigger] files.deep_view()[j]) is Some
                    },
                    BuildError::CommitFailed(_) => true,
                    _ => false,
                }
            },
        },
{
    let posts = match parse_posts(files) {
        Ok(posts) => posts,
        Err(e) => {
            proof {
                assert(e matches BuildError::MalformedDocument(_));
            }
            return Err(e);
        },
    };
    proof {
        lemma_parsed_models_pointwise(files.deep_view(), posts.deep_view());
    }
    match ingest_and_commit(w, &posts) {
        Ok(out) => Ok(out),
        Err(e) => Err(e),
    }
}

/// Law: building the same source set twice in succession never silently loses
/// entries against a single build. With the engine's append semantics a pass
/// adds its documents to the committed ones; after a second identical pass
/// every document of the first build is still committed at least as often,
/// and every document of the source set is still present.
pub proof fn lemma_rebuild_keeps_entries(initial: Multiset<IndexedDoc>, docs: Seq<IndexedDoc>)
    ensures
        forall|d: IndexedDoc|
            initial.add(docs.to_multiset()).count(d) <= initial.add(docs.to_multiset()).add(
                docs.to_multiset(),
            ).count(d),
        forall|d: IndexedDoc|
            docs.contains(d) ==> initial.add(docs.to_multiset()).add(
                docs.to_multiset(),
            ).count(d) >= 1,
{
    broadcast use vstd::multiset::group_multiset_axioms;
    broadcast use vstd::seq_lib::group_to_multiset_ensures;

    let twice = initial.add(docs.to_multiset()).add(docs.to_multiset());
    assert forall|d: IndexedDoc| docs.contains(d) implies twice.count(d) >= 1 by {
        assert(docs.to_multiset().count(d) > 0);
    }
}

} // verus!
