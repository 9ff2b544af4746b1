use vstd::prelude::*;

use super::{sorted_between, swap_entries, Sort};

verus! {

/// Quicksort: the first entry of a range is the pivot; the entries not above it gather on its
/// left, the others on its right, and each side is sorted in turn.
pub struct QuickSort;

/// Every entry of `s` at positions `lo` to `hi - 1` is at most `x`.
pub open spec fn all_at_most(s: Seq<i32>, lo: int, hi: int, x: i32) -> bool {
    forall|k: int| lo <= k < hi ==> s[k] <= x
}

/// Every entry of `s` at positions `lo` to `hi - 1` is at least `x`.
pub open spec fn all_at_least(s: Seq<i32>, lo: int, hi: int, x: i32) -> bool {
    forall|k: int| lo <= k < hi ==> x <= s[k]
}

/// Moves the pivot, the entry at `lo`, to the place it has in sorted order within the range
/// `lo` to `hi - 1`, with no larger entry before it and no smaller one after it; returns that
/// place. Entries outside the range stay.
fn partition(v: &mut Vec<i32>, lo: usize, hi: usize) -> (p: usize)
    requires
        lo < hi <= old(v).len(),
    ensures
        lo <= p < hi,
        final(v).len() == old(v).len(),
        final(v)@.to_multiset() == old(v)@.to_multiset(),
        forall|k: int| 0 <= k < lo || hi <= k < final(v).len() ==> final(v)@[k] == old(v)@[k],
        all_at_most(final(v)@, lo as int, p as int, final(v)@[p as int]),
        all_at_least(final(v)@, p + 1, hi as int, final(v)@[p as int]),
        forall|x: i32|
            all_at_most(old(v)@, lo as int, hi as int, x) ==> all_at_most(
                final(v)@,
                lo as int,
                hi as int,
                x,
            ),
        forall|x: i32|
            all_at_least(old(v)@, lo as int, hi as int, x) ==> all_at_least(
                final(v)@,
                lo as int,
                hi as int,
                x,
            ),
{
    let pivot = v[lo];
    // Entries lo + 1 to last are at most the pivot; those from last + 1 to j - 1 exceed it.
    let mut last = lo;
    let mut j = lo + 1;
    while j < hi
        invariant
            lo <= last < j <= hi <= v.len(),
            v.len() == old(v).len(),
            v@[lo as int] == pivot,
            v@.to_multiset() == old(v)@.to_multiset(),
            forall|k: int| 0 <= k < lo || hi <= k < v.len() ==> v@[k] == old(v)@[k],
            all_at_most(v@, lo as int + 1, last + 1, pivot),
            forall|k: int| last < k < j ==> pivot < v@[k],
            forall|x: i32|
                all_at_most(old(v)@, lo as int, hi as int, x) ==> all_at_most(
                    v@,
                    lo as int,
                    hi as int,
                    x,
                ),
            forall|x: i32|
                all_at_least(old(v)@, lo as int, hi as int, x) ==> all_at_least(
                    v@,
                    lo as int,
                    hi as int,
                    x,
                ),
        decreases hi - j,
    {
        if v[j] <= pivot {
            last = last + 1;
            swap_entries(v, last, j);
        }
        j = j + 1;
    }
    swap_entries(v, lo, last);
    last
}

/// Sorts the range `lo` to `hi - 1`; entries outside it stay, and bounds that held of every
/// entry in the range still hold.
fn sort_range(v: &mut Vec<i32>, lo: usize, hi: usize)
    requires
        lo <= hi <= old(v).len(),
    ensures
        final(v).len() == old(v).len(),
        final(v)@.to_multiset() == old(v)@.to_multiset(),
        sorted_between(final(v)@, lo as int, hi as int),
        forall|k: int| 0 <= k < lo || hi <= k < final(v).len() ==> final(v)@[k] == old(v)@[k],
        forall|x: i32|
            all_at_most(old(v)@, lo as int, hi as int, x) ==> all_at_most(
                final(v)@,
                lo as int,
                hi as int,
                x,
            ),
        forall|x: i32|
            all_at_least(old(v)@, lo as int, hi as int, x) ==> all_at_least(
                final(v)@,
                lo as int,
                hi as int,
                x,
            ),
    decreases hi - lo,
{
    if hi - lo <= 1 {
        return;
    }
    let p = partition(v, lo, hi);
    let ghost mid = v@;
    let ghost pv = v@[p as int];
    sort_range(v, lo, p);
    let ghost left = v@;
    sort_range(v, p + 1, hi);
    proof {
        assert(all_at_most(left, lo as int, p as int, pv));
        assert(all_at_most(v@, lo as int, p as int, pv));
        assert(all_at_least(v@, p + 1, hi as int, pv));
        assert forall|x: i32| all_at_most(old(v)@, lo as int, hi as int, x) implies all_at_most(
            v@,
            lo as int,
            hi as int,
            x,
        ) by {
            assert(all_at_most(mid, lo as int, hi as int, x));
            assert(all_at_most(mid, lo as int, p as int, x));
            assert(all_at_most(left, lo as int, p as int, x));
            assert(all_at_most(left, p + 1, hi as int, x));
        }
        assert forall|x: i32| all_at_least(old(v)@, lo as int, hi as int, x) implies all_at_least(
            v@,
            lo as int,
            hi as int,
            x,
        ) by {
            assert(all_at_least(mid, lo as int, hi as int, x));
            assert(all_at_least(mid, lo as int, p as int, x));
            assert(all_at_least(left, lo as int, p as int, x));
            assert(all_at_least(left, p + 1, hi as int, x));
        }
    }
}

impl Sort for QuickSort {
    fn sort(v: &mut Vec<i32>) {
        let n = v.len();
        sort_range(v, 0, n);
    }
}

} // verus!
