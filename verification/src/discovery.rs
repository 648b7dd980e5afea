//! Which entries of the migrations directory are migrations, and in which
//! order they apply.

use vstd::prelude::*;
use vstd::relations::{sorted_by, total_ordering};
use vstd::seq_lib::lemma_sorted_unique;
use crate::text::{
    ends_with, is_suffix, lemma_lex_le_antisymmetric, lemma_lex_le_reflexive, lemma_lex_le_total,
    lemma_lex_le_transitive, lex_le, str_le,
};

verus! {

/// The texts of a list of names.
pub open spec fn texts(names: Seq<String>) -> Seq<Seq<char>> {
    Seq::new(names.len(), |i: int| names[i]@)
}

/// A name is that of a migration file if its extension is `sql`: it ends in
/// `.sql`, and something stands before that dot.
pub open spec fn is_migration_name(name: Seq<char>) -> bool {
    name.len() > 4 && is_suffix(".sql"@, name)
}

/// The test for migration names, as a predicate.
pub open spec fn migration_names() -> spec_fn(Seq<char>) -> bool {
    |name: Seq<char>| is_migration_name(name)
}

/// The order in which migrations apply: ascending, code point by code point.
pub open spec fn name_order() -> spec_fn(Seq<char>, Seq<char>) -> bool {
    |a: Seq<char>, b: Seq<char>| lex_le(a, b)
}

/// The migrations of a directory listing in the order in which they apply: the
/// names with the extension `sql`, sorted ascending.
pub open spec fn discovered(listing: Seq<Seq<char>>) -> Seq<Seq<char>> {
    listing.filter(migration_names()).sort_by(name_order())
}

/// The order of names is a total order.
pub proof fn lemma_name_order_total()
    ensures
        total_ordering(name_order()),
{
    let r = name_order();
    assert forall|x: Seq<char>| #[trigger] r(x, x) by {
        lemma_lex_le_reflexive(x, 0);
    }
    assert forall|x: Seq<char>, y: Seq<char>| #[trigger] r(x, y) && #[trigger] r(y, x) implies x
        == y by {
        lemma_lex_le_antisymmetric(x, y, 0);
    }
    assert forall|x: Seq<char>, y: Seq<char>, z: Seq<char>| #[trigger]
        r(x, y) && #[trigger] r(y, z) implies r(x, z) by {
        lemma_lex_le_transitive(x, y, z, 0);
    }
    assert forall|x: Seq<char>, y: Seq<char>| #[trigger] r(x, y) || #[trigger] r(y, x) by {
        lemma_lex_le_total(x, y, 0);
    }
}

/// The discovered migrations are sorted, and they are the migration names of
/// the listing, each as often as the listing has it.
pub proof fn lemma_discovered(listing: Seq<Seq<char>>)
    ensures
        sorted_by(discovered(listing), name_order()),
        discovered(listing).to_multiset() == listing.filter(migration_names()).to_multiset(),
{
    lemma_name_order_total();
    listing.filter(migration_names()).lemma_sort_by_ensures(name_order());
}

/// The order of application does not depend on the order of the listing: two
/// listings with the same entries give the same sequence of migrations.
pub proof fn lemma_discovery_ignores_listing_order(a: Seq<Seq<char>>, b: Seq<Seq<char>>)
    requires
        a.to_multiset() == b.to_multiset(),
    ensures
        discovered(a) == discovered(b),
{
    lemma_discovered(a);
    lemma_discovered(b);
    lemma_name_order_total();
    lemma_filter_multiset(a, migration_names());
    lemma_filter_multiset(b, migration_names());
    assert(a.filter(migration_names()).to_multiset() =~= b.filter(migration_names()).to_multiset());
    lemma_sorted_unique(discovered(a), discovered(b), name_order());
}

/// An element occurs in a filtered sequence as often as in the sequence, if it
/// passes the filter, and not at all otherwise.
pub proof fn lemma_filter_multiset<A>(s: Seq<A>, pred: spec_fn(A) -> bool)
    ensures
        forall|x: A|
            #[trigger] s.filter(pred).to_multiset().count(x) == if pred(x) {
                s.to_multiset().count(x)
            } else {
                0
            },
    decreases s.len(),
{
    broadcast use vstd::seq_lib::group_to_multiset_ensures;

    reveal(Seq::filter);
    if s.len() == 0 {
        assert forall|x: A| #[trigger] s.filter(pred).to_multiset().count(x) == 0 by {}
        assert forall|x: A| #[trigger] s.to_multiset().count(x) == 0 by {}
    } else {
        lemma_filter_multiset(s.drop_last(), pred);
        assert(s =~= s.drop_last().push(s.last()));
        assert forall|x: A|
            #[trigger] s.filter(pred).to_multiset().count(x) == if pred(x) {
                s.to_multiset().count(x)
            } else {
                0
            } by {
            assert(s.to_multiset() =~= s.drop_last().to_multiset().insert(s.last()));
            if pred(s.last()) {
                assert(s.filter(pred) =~= s.drop_last().filter(pred).push(s.last()));
                assert(s.filter(pred).to_multiset() =~= s.drop_last().filter(
                    pred,
                ).to_multiset().insert(s.last()));
            } else {
                assert(s.filter(pred) =~= s.drop_last().filter(pred));
            }
        }
    }
}

/// Whether the entry `name` is a migration file.
pub fn is_migration_file(name: &str) -> (r: bool)
    ensures
        r == is_migration_name(name@),
{
    name.unicode_len() > 4 && ends_with(name, ".sql")
}

/// Where `name` goes in the sorted `names`: behind every name that sorts at or
/// before it.
fn insertion_point(names: &Vec<String>, name: &str) -> (p: usize)
    requires
        sorted_by(texts(names@), name_order()),
    ensures
        p <= names.len(),
        forall|j: int| 0 <= j < p ==> lex_le(#[trigger] names[j]@, name@),
        forall|j: int| p <= j < names.len() ==> lex_le(name@, #[trigger] names[j]@),
{
    let mut p: usize = 0;
    while p < names.len()
        invariant
            p <= names.len(),
            sorted_by(texts(names@), name_order()),
            forall|j: int| 0 <= j < p ==> lex_le(#[trigger] names[j]@, name@),
        decreases names.len() - p,
    {
        if !str_le(names[p].as_str(), name) {
            proof {
                lemma_lex_le_total(names[p as int]@, name@, 0);
                assert forall|j: int| p <= j < names.len() implies lex_le(
                    name@,
                    #[trigger] names[j]@,
                ) by {
                    if j > p {
                        assert(name_order()(texts(names@)[p as int], texts(names@)[j]));
                        lemma_lex_le_transitive(name@, names[p as int]@, names[j]@, 0);
                    }
                }
            }
            return p;
        }
        p = p + 1;
    }
    p
}

/// The migration files among the entries of the migrations directory, in the
/// order in which they apply.
pub fn get_migration_files(listing: &Vec<String>) -> (files: Vec<String>)
    ensures
        texts(files@) == discovered(texts(listing@)),
{
    let mut files: Vec<String> = Vec::new();
    let mut i: usize = 0;
    proof {
        reveal(Seq::filter);
        assert(texts(listing@).take(0) =~= Seq::<Seq<char>>::empty());
        assert(texts(files@) =~= Seq::<Seq<char>>::empty());
    }
    while i < listing.len()
        invariant
            i <= listing.len(),
            sorted_by(texts(files@), name_order()),
            texts(files@).to_multiset() == texts(listing@).take(i as int).filter(
                migration_names(),
            ).to_multiset(),
        decreases listing.len() - i,
    {
        let ghost before = texts(files@);
        let ghost seen = texts(listing@).take(i as int);
        proof {
            reveal(Seq::filter);
            assert(texts(listing@).take(i + 1) =~= seen.push(listing[i as int]@));
            assert(seen.push(listing[i as int]@).drop_last() =~= seen);
        }
        if is_migration_file(listing[i].as_str()) {
            let p = insertion_point(&files, listing[i].as_str());
            files.insert(p, listing[i].clone());
            proof {
                broadcast use vstd::seq_lib::group_to_multiset_ensures;

                let name = listing[i as int]@;
                assert(texts(files@) =~= before.insert(p as int, name));
                assert forall|a: int, b: int| 0 <= a < b < texts(files@).len() implies name_order()(
                    #[trigger] texts(files@)[a],
                    #[trigger] texts(files@)[b],
                ) by {
                    if b < p {
                        assert(name_order()(before[a], before[b]));
                    } else if b == p {
                        assert(lex_le(files@[a]@, name)) by {
                            assert(before[a] == texts(files@)[a]);
                        }
                    } else if a < p {
                        assert(name_order()(before[a], before[b - 1]));
                    } else if a == p {
                        assert(lex_le(name, before[b - 1]));
                    } else {
                        assert(name_order()(before[a - 1], before[b - 1]));
                    }
                }
                assert(seen.push(name).filter(migration_names()) =~= seen.filter(
                    migration_names(),
                ).push(name));
            }
        }
        i = i + 1;
    }
    proof {
        assert(texts(listing@).take(listing.len() as int) =~= texts(listing@));
        lemma_discovered(texts(listing@));
        lemma_name_order_total();
        lemma_sorted_unique(texts(files@), discovered(texts(listing@)), name_order());
    }
    files
}

} // verus!
