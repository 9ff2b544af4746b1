use vstd::prelude::*;

use super::{sorted_between, swap_entries, Sort};

verus! {

/// Insertion sort: each entry in turn sinks left past the larger entries before it.
pub struct InsertionSort;

impl Sort for InsertionSort {
    fn sort(v: &mut Vec<i32>) {
        let n = v.len();
        let mut unsorted: usize = 1;
        while unsorted < n
            invariant
                n == v.len(),
                1 <= unsorted,
                n > 0 ==> unsorted <= n,
                sorted_between(v@, 0, unsorted as int),
                v@.to_multiset() == old(v)@.to_multiset(),
            decreases n - unsorted,
        {
            let mut i = unsorted;
            while i > 0 && v[i] < v[i - 1]
                invariant
                    n == v.len(),
                    unsorted < n,
                    i <= unsorted,
                    sorted_between(v@, 0, i as int),
                    sorted_between(v@, i as int, unsorted + 1),
                    forall|a: int, b: int| 0 <= a < i < b <= unsorted ==> v@[a] <= v@[b],
                    v@.to_multiset() == old(v)@.to_multiset(),
                decreases i,
            {
                swap_entries(v, i, i - 1);
                i = i - 1;
            }
            proof {
                assert forall|a: int, b: int| 0 <= a <= b < unsorted + 1 implies v@[a] <= v@[b] by {
                    if a < i && b > i {
                    } else if a < i && b == i {
                        assert(v@[a] <= v@[i - 1]);
                    }
                }
            }
            unsorted = unsorted + 1;
        }
    }
}

} // verus!
