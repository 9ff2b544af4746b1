use vstd::prelude::*;

use super::{sorted_between, swap_entries, Sort};

verus! {

/// Bubble sort: passes that swap neighbours out of order, until one pass swaps nothing. Each
/// pass carries the largest entry not yet placed to the end of the unplaced part.
pub struct Bubblesort;

impl Sort for Bubblesort {
    fn sort(v: &mut Vec<i32>) {
        let n = v.len();
        let mut placed: usize = 0;
        while placed < n
            invariant
                n == v.len(),
                placed <= n,
                sorted_between(v@, n - placed, n as int),
                forall|a: int, b: int| 0 <= a < n - placed <= b < n ==> v@[a] <= v@[b],
                v@.to_multiset() == old(v)@.to_multiset(),
            decreases n - placed,
        {
            let end = n - placed;
            let mut swapped = false;
            let mut j: usize = 0;
            while j + 1 < end
                invariant
                    n == v.len(),
                    end == n - placed,
                    0 < end <= n,
                    j < end,
                    forall|k: int| 0 <= k <= j ==> v@[k] <= v@[j as int],
                    !swapped ==> sorted_between(v@, 0, j + 1),
                    sorted_between(v@, end as int, n as int),
                    forall|a: int, b: int| 0 <= a < end <= b < n ==> v@[a] <= v@[b],
                    v@.to_multiset() == old(v)@.to_multiset(),
                decreases end - j,
            {
                if v[j] > v[j + 1] {
                    swap_entries(v, j, j + 1);
                    swapped = true;
                }
                j = j + 1;
            }
            if swapped {
                placed = placed + 1;
            } else {
                placed = n;
            }
        }
    }
}

} // verus!
