use vstd::prelude::*;

use super::{sorted_between, swap_entries, Sort};

verus! {

/// Selection sort: each position in turn receives the least entry not yet placed.
pub struct SelectionSort;

impl Sort for SelectionSort {
    fn sort(v: &mut Vec<i32>) {
        let n = v.len();
        let mut i: usize = 0;
        while i < n
            invariant
                n == v.len(),
                i <= n,
                sorted_between(v@, 0, i as int),
                forall|a: int, b: int| 0 <= a < i <= b < n ==> v@[a] <= v@[b],
                v@.to_multiset() == old(v)@.to_multiset(),
            decreases n - i,
        {
            let mut min = i;
            let mut j = i + 1;
            while j < n
                invariant
                    n == v.len(),
                    i <= min < n,
                    i < j <= n,
                    forall|k: int| i <= k < j ==> v@[min as int] <= v@[k],
                decreases n - j,
            {
                if v[j] < v[min] {
                    min = j;
                }
                j = j + 1;
            }
            swap_entries(v, i, min);
            i = i + 1;
        }
    }
}

} // verus!
