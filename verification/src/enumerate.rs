use vstd::prelude::*;
use vstd::multiset::Multiset;

verus! {

/// A key names a document file when it ends in the `.json` suffix.
pub open spec fn is_document_key(k: Seq<char>) -> bool {
    k.len() >= ".json"@.len() && k.subrange(k.len() - ".json"@.len(), k.len() as int)
        == ".json"@
}

/// The keys of a listing that name document files, in their original order.
pub open spec fn document_keys_of(keys: Seq<Seq<char>>) -> Seq<Seq<char>> {
    keys.filter(|k: Seq<char>| is_document_key(k))
}

/// Relies on str::ends_with: true exactly when the string ends in the given
/// suffix.
#[verifier::external_body]
fn str_ends_with(s: &str, suffix: &str) -> (r: bool)
    ensures
        r == (suffix@.len() <= s@.len() && s@.subrange(
            s@.len() - suffix@.len(),
            s@.len() as int,
        ) == suffix@),
{
    s.ends_with(suffix)
}

/// Collects a paginated listing into one complete ordered key set: the result
/// is exactly the concatenation of the pages, in page order.
pub fn collect_pages(pages: &Vec<Vec<String>>) -> (r: Vec<String>)
    ensures
        r.deep_view() == pages.deep_view().flatten(),
{
    let mut r: Vec<String> = Vec::new();
    let mut i: usize = 0;
    while i < pages.len()
        invariant
            i <= pages@.len(),
            r.deep_view() == pages.deep_view().take(i as int).flatten(),
        decreases pages@.len() - i,
    {
        let page = &pages[i];
        let mut j: usize = 0;
        while j < page.len()
            invariant
                i < pages@.len(),
                j <= page@.len(),
                page == &pages[i as int],
                r.deep_view() == pages.deep_view().take(i as int).flatten() + page.deep_view()
                    .take(j as int),
            decreases page@.len() - j,
        {
            let ghost prev = r.deep_view();
            r.push(page[j].clone());
            proof {
                assert(r.deep_view() =~= prev.push(page@[j as int].deep_view()));
                assert(page.deep_view().take(j + 1) =~= page.deep_view().take(j as int).push(
                    page.deep_view()[j as int],
                ));
                assert(page.deep_view()[j as int] == page@[j as int].deep_view());
                assert(r.deep_view() =~= pages.deep_view().take(i as int).flatten()
                    + page.deep_view().take(j + 1));
            }
            j += 1;
        }
        proof {
            assert(page.deep_view().take(page@.len() as int) =~= page.deep_view());
            pages.deep_view().take(i as int).lemma_flatten_push(page.deep_view());
            assert(pages.deep_view().take(i + 1) =~= pages.deep_view().take(i as int).push(
                pages.deep_view()[i as int],
            ));
            assert(pages.deep_view()[i as int] == page.deep_view());
            assert(r.deep_view() =~= pages.deep_view().take(i + 1).flatten());
        }
        i += 1;
    }
    assert(pages.deep_view().take(pages@.len() as int) =~= pages.deep_view());
    r
}

/// The total number of keys the pages hold together.
pub open spec fn pages_key_total(pages: Seq<Seq<Seq<char>>>) -> int
    decreases pages.len(),
{
    if pages.len() == 0 {
        0
    } else {
        pages.first().len() + pages_key_total(pages.drop_first())
    }
}

/// The keys the pages hold together, with multiplicity and without order.
pub open spec fn pages_key_multiset(pages: Seq<Seq<Seq<char>>>) -> Multiset<Seq<char>>
    decreases pages.len(),
{
    if pages.len() == 0 {
        Multiset::empty()
    } else {
        pages.first().to_multiset().add(pages_key_multiset(pages.drop_first()))
    }
}

/// Law: an enumeration walked across pagination boundaries returns exactly the
/// keys of all pages — as many keys as the pages hold together, and the same
/// keys as a multiset, so none is duplicated and none is omitted, independent
/// of how the listing was split into pages.
pub proof fn lemma_enumeration_exact(pages: Seq<Seq<Seq<char>>>)
    ensures
        pages.flatten().len() == pages_key_total(pages),
        pages.flatten().to_multiset() == pages_key_multiset(pages),
    decreases pages.len(),
{
    broadcast use vstd::multiset::group_multiset_axioms;
    broadcast use vstd::multiset::lemma_multiset_empty_len;
    broadcast use vstd::prelude::Seq::to_multiset_ensures;

    if pages.len() == 0 {
        assert(pages.flatten().to_multiset().len() == 0);
        assert(pages.flatten().to_multiset() =~= pages_key_multiset(pages));
    } else {
        lemma_enumeration_exact(pages.drop_first());
        vstd::seq_lib::lemma_multiset_commutative(pages.first(), pages.drop_first().flatten());
        assert(pages.flatten() == pages.first() + pages.drop_first().flatten());
    }
}

/// Keeps exactly the keys that name document files, in their original order.
/// Filtering to recognized document files is the caller's step after a
/// complete enumeration.
pub fn filter_document_keys(keys: &Vec<String>) -> (r: Vec<String>)
    ensures
        r.deep_view() == document_keys_of(keys.deep_view()),
{
    let mut r: Vec<String> = Vec::new();
    let mut i: usize = 0;
    while i < keys.len()
        invariant
            i <= keys@.len(),
            r.deep_view() == document_keys_of(keys.deep_view().take(i as int)),
        decreases keys@.len() - i,
    {
        let ghost prev = r.deep_view();
        let keep = str_ends_with(keys[i].as_str(), ".json");
        if keep {
            r.push(keys[i].clone());
        }
        proof {
            reveal(Seq::filter);
            let prefix = keys.deep_view().take(i + 1);
            assert(prefix.drop_last() =~= keys.deep_view().take(i as int));
            assert(prefix.last() == keys.deep_view()[i as int]);
            assert(keys.deep_view()[i as int] == keys@[i as int]@);
            assert(keep == is_document_key(prefix.last()));
            if keep {
                assert(r.deep_view() =~= prev.push(keys@[i as int]@));
                assert(document_keys_of(prefix) == document_keys_of(prefix.drop_last()).push(
                    prefix.last(),
                ));
            } else {
                assert(document_keys_of(prefix) == document_keys_of(prefix.drop_last()));
            }
            assert(r.deep_view() == document_keys_of(keys.deep_view().take(i + 1)));
        }
        i += 1;
    }
    assert(keys.deep_view().take(keys@.len() as int) =~= keys.deep_view());
    r
}

} // verus!
