//! The download counts of a crate: the versions whose daily counts are shown
//! one by one, and those whose counts are summed per day.
use crate::text::{lemma_str_lt_irreflexive, lemma_str_lt_total, lemma_str_lt_transitive, str_less, str_lt};
use vstd::prelude::*;

verus! {

/// A version of the crate: its id and its version number text.
#[derive(Debug, Clone, PartialEq, Eq)]
pub struct VersionRef {
    pub id: i32,
    pub num: String,
}

/// Whether the versions are ordered by number text, greatest first (in the
/// order of `String`'s `Ord`).
pub open spec fn by_num_descending(s: Seq<VersionRef>) -> bool {
    forall|i: int, j: int| 0 <= i < j < s.len() ==> !str_lt(s[i].num@, s[j].num@)
}

/// How many versions are shown one by one.
pub const SHOWN_VERSIONS: usize = 5;

/// Inserts `x` into versions ordered greatest first, after those with a
/// number no smaller than its own.
fn insert_by_num(v: &mut Vec<VersionRef>, x: VersionRef)
    requires
        by_num_descending(old(v)@),
    ensures
        by_num_descending(final(v)@),
        final(v)@.to_multiset() == old(v)@.to_multiset().insert(x),
        final(v).len() == old(v).len() + 1,
{
    let ghost before = v@;
    let mut i: usize = 0;
    while i < v.len() && !str_less(v[i].num.as_str(), x.num.as_str())
        invariant
            i <= v.len(),
            v@ == before,
            by_num_descending(before),
            forall|j: int| 0 <= j < i ==> !str_lt(before[j].num@, x.num@),
        decreases v.len() - i,
    {
        i = i + 1;
    }
    let ghost xv = x;
    v.insert(i, x);
    proof {
        broadcast use vstd::seq_lib::to_multiset_insert;

        let after = v@;
        assert(after == before.insert(i as int, xv));
        assert forall|a: int, b: int| 0 <= a < b < after.len() implies !str_lt(
            after[a].num@,
            after[b].num@,
        ) by {
            if b < i {
            } else if a < i && b == i {
            } else if a < i && b > i {
                assert(after[b] == before[b - 1]);
            } else if a == i {
                // `before[i]` sorts below `x`, and each later one no higher.
                assert(after[b] == before[b - 1]);
                assert(str_lt(before[i as int].num@, xv.num@));
                let q = before[b - 1].num@;
                let p = before[i as int].num@;
                if b - 1 > i {
                    assert(!str_lt(p, q));
                    lemma_str_lt_total(p, q);
                    if str_lt(q, p) {
                        lemma_str_lt_transitive(q, p, xv.num@);
                    }
                }
                assert(str_lt(q, xv.num@));
                if str_lt(xv.num@, q) {
                    lemma_str_lt_transitive(xv.num@, q, xv.num@);
                    lemma_str_lt_irreflexive(xv.num@);
                }
            } else {
                assert(after[a] == before[a - 1] && after[b] == before[b - 1]);
            }
        }
    }
}

/// The versions ordered by number text, greatest first, and split after the
/// first five: those are shown one by one, the others summed per day.
pub fn split_latest_versions(versions: Vec<VersionRef>) -> (r: (Vec<VersionRef>, Vec<VersionRef>))
    ensures
        by_num_descending(r.0@ + r.1@),
        (r.0@ + r.1@).to_multiset() == versions@.to_multiset(),
        r.0.len() == if versions.len() < 5 { versions.len() } else { 5 },
{
    let ghost orig = versions@;
    let mut rest = versions;
    let mut sorted: Vec<VersionRef> = Vec::new();
    proof {
        broadcast use vstd::seq_lib::to_multiset_len;
        broadcast use vstd::multiset::lemma_multiset_empty_len;
        broadcast use vstd::multiset::group_multiset_axioms;

        assert(sorted@.to_multiset().len() == 0);
        assert(sorted@.to_multiset() =~= vstd::multiset::Multiset::empty());
        assert(sorted@.to_multiset().add(rest@.to_multiset()) =~= rest@.to_multiset());
    }
    while rest.len() > 0
        invariant
            by_num_descending(sorted@),
            sorted@.to_multiset().add(rest@.to_multiset()) == orig.to_multiset(),
            sorted.len() + rest.len() == orig.len(),
        decreases rest.len(),
    {
        let ghost prev_rest = rest@;
        let x = rest.pop().unwrap();
        proof {
            broadcast use vstd::seq_lib::to_multiset_build;
            broadcast use vstd::multiset::group_multiset_axioms;

            assert(prev_rest == rest@.push(x));
        }
        let ghost prev_sorted = sorted@;
        insert_by_num(&mut sorted, x);
        proof {
            broadcast use vstd::seq_lib::to_multiset_build;
            broadcast use vstd::multiset::group_multiset_axioms;

            assert(prev_rest.to_multiset() == rest@.to_multiset().insert(x));
            assert(sorted@.to_multiset().add(rest@.to_multiset()) =~= prev_sorted.to_multiset().add(
                prev_rest.to_multiset(),
            ));
        }
    }
    proof {
        broadcast use vstd::multiset::group_multiset_axioms;

        broadcast use vstd::seq_lib::to_multiset_len;
        broadcast use vstd::multiset::lemma_multiset_empty_len;

        assert(rest@.to_multiset().len() == 0);
        assert(rest@.to_multiset() =~= vstd::multiset::Multiset::empty());
        assert(sorted@.to_multiset().add(rest@.to_multiset()) =~= sorted@.to_multiset());
    }
    let k = if sorted.len() < SHOWN_VERSIONS {
        sorted.len()
    } else {
        SHOWN_VERSIONS
    };
    let ghost all = sorted@;
    let tail = sorted.split_off(k);
    assert(sorted@ + tail@ =~= all);
    (sorted, tail)
}

} // verus!
