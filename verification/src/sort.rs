//! Ordering identifiers: sorting 128-bit identifier values, and comparing
//! texts the way `str`'s ordering does.

use vstd::prelude::*;
use vstd::relations::{sorted_by, total_ordering};
use vstd::seq_lib::{lemma_sorted_unique, to_multiset_build, to_multiset_insert};

use crate::ids::{lemma_uuid_text_order, uuid_text};

verus! {

/// The numeric order on identifier values.
pub open spec fn id_leq() -> spec_fn(u128, u128) -> bool {
    |a: u128, b: u128| a <= b
}

/// `s` in ascending order.
pub open spec fn sorted_ids(s: Seq<u128>) -> Seq<u128> {
    s.sort_by(id_leq())
}

proof fn lemma_id_leq_total()
    ensures
        total_ordering(id_leq()),
{
}

/// The values of `v`, ascending.
pub fn sort_ids(v: &Vec<u128>) -> (r: Vec<u128>)
    ensures
        r@ == sorted_ids(v@),
{
    let mut r: Vec<u128> = Vec::new();
    let mut i: usize = 0;
    assert(v@.subrange(0, 0) =~= Seq::<u128>::empty());
    while i < v.len()
        invariant
            i <= v@.len(),
            sorted_by(r@, id_leq()),
            r@.to_multiset() == v@.subrange(0, i as int).to_multiset(),
        decreases v.len() - i,
    {
        let x = v[i];
        let mut p: usize = 0;
        while p < r.len() && r[p] <= x
            invariant
                p <= r@.len(),
                forall|k: int| 0 <= k < p ==> r@[k] <= x,
            decreases r.len() - p,
        {
            p = p + 1;
        }
        let ghost before = r@;
        proof {
            to_multiset_insert(before, p as int, x);
            assert(v@.subrange(0, i + 1) =~= v@.subrange(0, i as int).push(x));
            to_multiset_build(v@.subrange(0, i as int), x);
        }
        r.insert(p, x);
        assert(r@ == before.insert(p as int, x));
        assert forall|a: int, b: int| 0 <= a < b < r@.len() implies #[trigger] id_leq()(r@[a], r@[b]) by {
            if b < p {
                assert(id_leq()(before[a], before[b]));
            } else if b == p {
                assert(before[a] <= x);
            } else if a < p {
                assert(id_leq()(before[a], before[b - 1]));
            } else if a == p {
                assert(!(before[p as int] <= x));
                if b - 1 > p {
                    assert(id_leq()(before[p as int], before[b - 1]));
                }
            } else {
                assert(id_leq()(before[a - 1], before[b - 1]));
            }
        }
        i = i + 1;
    }
    proof {
        assert(v@.subrange(0, i as int) =~= v@);
        lemma_id_leq_total();
        v@.lemma_sort_by_ensures(id_leq());
        lemma_sorted_unique(r@, sorted_ids(v@), id_leq());
    }
    r
}

/// Whether `a` comes before `b` in the order of `str`: the first differing
/// character decides, and a proper prefix comes first.
pub open spec fn text_less(a: Seq<char>, b: Seq<char>) -> bool
    decreases a.len(),
{
    if a.len() == 0 {
        b.len() > 0
    } else if b.len() == 0 {
        false
    } else if a[0] != b[0] {
        (a[0] as u32) < (b[0] as u32)
    } else {
        text_less(a.drop_first(), b.drop_first())
    }
}

/// Whether `a` comes before `b` in the order of `str`.
pub fn less_text(a: &Vec<char>, b: &Vec<char>) -> (r: bool)
    ensures
        r == text_less(a@, b@),
{
    let mut i: usize = 0;
    assert(a@.skip(0) =~= a@);
    assert(b@.skip(0) =~= b@);
    while i < a.len() && i < b.len() && a[i] == b[i]
        invariant
            i <= a@.len(),
            i <= b@.len(),
            text_less(a@, b@) == text_less(a@.skip(i as int), b@.skip(i as int)),
        decreases a.len() - i,
    {
        proof {
            assert(a@.skip(i as int).drop_first() =~= a@.skip(i + 1));
            assert(b@.skip(i as int).drop_first() =~= b@.skip(i + 1));
        }
        i = i + 1;
    }
    if i == a.len() {
        i < b.len()
    } else if i == b.len() {
        false
    } else {
        (a[i] as u32) < (b[i] as u32)
    }
}

/// Texts that agree up to position `j` and differ there are ordered by
/// the characters at `j`.
pub proof fn lemma_text_less_at(x: Seq<char>, y: Seq<char>, j: int)
    requires
        0 <= j < x.len(),
        j < y.len(),
        forall|i: int| 0 <= i < j ==> #[trigger] x[i] == y[i],
        (x[j] as u32) < (y[j] as u32),
    ensures
        text_less(x, y),
    decreases j,
{
    if j > 0 {
        assert(x[0] == y[0]);
        assert forall|i: int| 0 <= i < j - 1 implies #[trigger] x.drop_first()[i] == y.drop_first()[i] by {
            assert(x[i + 1] == y[i + 1]);
        }
        lemma_text_less_at(x.drop_first(), y.drop_first(), j - 1);
    }
}

/// No text comes before itself, and of two texts at most one comes first.
pub proof fn lemma_text_less_strict(x: Seq<char>, y: Seq<char>)
    ensures
        !text_less(x, x),
        text_less(x, y) ==> !text_less(y, x),
    decreases x.len(),
{
    if x.len() > 0 && y.len() > 0 {
        lemma_text_less_strict(x.drop_first(), y.drop_first());
    }
    if x.len() > 0 {
        lemma_text_less_strict(x.drop_first(), x.drop_first());
    }
}

/// The text order of hyphenated UUIDs is the numeric order of their
/// values.
pub proof fn lemma_uuid_text_less(a: u128, b: u128)
    ensures
        a < b ==> text_less(uuid_text(a), uuid_text(b)),
        a <= b ==> !text_less(uuid_text(b), uuid_text(a)),
{
    if a < b {
        let j = lemma_uuid_text_order(a, b);
        lemma_text_less_at(uuid_text(a), uuid_text(b), j);
    }
    lemma_text_less_strict(uuid_text(a), uuid_text(b));
}

} // verus!
