//! In-place sorting routines for vectors of integers, behind one trait.
use vstd::prelude::*;

pub mod bubblesort;
pub mod insertionsort;
pub mod quicksort;
pub mod selectionsort;

verus! {

broadcast use vstd::seq_lib::to_multiset_update, vstd::multiset::group_multiset_properties;

/// The entries of `s` at positions `lo` to `hi - 1` are in ascending order.
pub open spec fn sorted_between(s: Seq<i32>, lo: int, hi: int) -> bool {
    forall|i: int, j: int| lo <= i <= j < hi ==> s[i] <= s[j]
}

/// All of `s` is in ascending order.
pub open spec fn is_sorted(s: Seq<i32>) -> bool {
    sorted_between(s, 0, s.len() as int)
}

/// An in-place sort.
pub trait Sort {
    /// Puts the entries of `v` in ascending order, keeping each entry as often as it occurs.
    fn sort(v: &mut Vec<i32>)
        ensures
            is_sorted(final(v)@),
            final(v)@.to_multiset() == old(v)@.to_multiset();
}

/// Exchanges the entries at positions `i` and `j`.
pub fn swap_entries(v: &mut Vec<i32>, i: usize, j: usize)
    requires
        i < old(v).len(),
        j < old(v).len(),
    ensures
        final(v)@ == old(v)@.update(i as int, old(v)@[j as int]).update(
            j as int,
            old(v)@[i as int],
        ),
        final(v)@.to_multiset() == old(v)@.to_multiset(),
{
    let a = v[i];
    let b = v[j];
    v.set(i, b);
    v.set(j, a);
    proof {
        let s = old(v)@;
        let m = s.to_multiset();
        s.to_multiset_ensures();
        assert(s.contains(a));
        assert(m.count(a) > 0);
        let s1 = s.update(i as int, b);
        assert(s1[j as int] == b);
        assert(s1.to_multiset() == m.insert(b).remove(a));
        assert(m.insert(b).remove(a).insert(a).remove(b) =~= m);
    }
}

} // verus!
