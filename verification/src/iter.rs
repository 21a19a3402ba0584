//! Sequence utilities.

use vstd::prelude::*;

verus! {

/// Reports whether all the elements of the slice are the same.
///
/// This condition is trivially true for slices with zero or one elements.
pub fn all_equal(items: &[i64]) -> (r: bool)
    ensures
        r == (forall|i: int, j: int|
            0 <= i < items@.len() && 0 <= j < items@.len() ==> items@[i] == items@[j]),
{
    let n: usize = items.len();
    if n == 0 {
        return true;
    }
    let first = items[0];
    let mut idx: usize = 1;
    while idx < n
        invariant
            n == items@.len(),
            0 < n,
            1 <= idx <= n,
            first == items@[0],
            forall|i: int| 0 <= i < idx ==> items@[i] == first,
        decreases n - idx,
    {
        if items[idx] != first {
            return false;
        }
        idx = idx + 1;
    }
    true
}

} // verus!
