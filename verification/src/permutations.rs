//! Functions for working with permutations.

use vstd::prelude::*;

verus! {

/// Given a permutation (or any sequence of indices), construct its
/// inverse as a list of pairs: each entry maps the value at a position
/// back to that position.
pub fn invert(permutation: &Vec<usize>) -> (r: Vec<(usize, usize)>)
    ensures
        r@.len() == permutation@.len(),
        forall|i: int|
            0 <= i < r@.len() ==> #[trigger] r@[i] == (permutation@[i], i as usize),
{
    let n: usize = permutation.len();
    let mut out: Vec<(usize, usize)> = Vec::new();
    let mut idx: usize = 0;
    while idx < n
        invariant
            n == permutation@.len(),
            0 <= idx <= n,
            out@.len() == idx,
            forall|i: int| 0 <= i < idx ==> #[trigger] out@[i] == (permutation@[i], i as usize),
        decreases n - idx,
    {
        out.push((permutation[idx], idx));
        idx = idx + 1;
    }
    out
}

/// What it means for `a` to be the permutation that stably sorts `data`:
/// `a` lists each position of `data` exactly once, the data read through
/// `a` is non-decreasing, and positions with equal data keep their
/// original order.  Exactly one sequence satisfies this for given `data`.
pub open spec fn is_stable_argsort(data: Seq<i64>, a: Seq<usize>) -> bool {
    &&& a.len() == data.len()
    &&& forall|i: int| 0 <= i < a.len() ==> 0 <= #[trigger] a[i] < data.len()
    &&& forall|i: int, j: int| 0 <= i < j < a.len() ==> #[trigger] a[i] != #[trigger] a[j]
    &&& forall|i: int, j: int|
        0 <= i < j < a.len() ==> data[#[trigger] a[i] as int] <= data[#[trigger] a[j] as int]
    &&& forall|i: int, j: int|
        0 <= i < j < a.len() && data[#[trigger] a[i] as int] == data[#[trigger] a[j] as int]
            ==> a[i] < a[j]
}

/// Construct the permutation that stably sorts `data`.
pub fn argsort(data: &Vec<i64>) -> (r: Vec<usize>)
    ensures
        is_stable_argsort(data@, r@),
{
    let n: usize = data.len();
    let mut idx: Vec<usize> = Vec::new();
    let mut k: usize = 0;
    while k < n
        invariant
            n == data@.len(),
            0 <= k <= n,
            idx@.len() == k,
            forall|i: int| 0 <= i < k ==> 0 <= #[trigger] idx@[i] < k,
            forall|i: int, j: int| 0 <= i < j < k ==> #[trigger] idx@[i] != #[trigger] idx@[j],
            forall|i: int, j: int|
                0 <= i < j < k ==> data@[#[trigger] idx@[i] as int] <= data@[#[trigger] idx@[j] as int],
            forall|i: int, j: int|
                0 <= i < j < k && data@[#[trigger] idx@[i] as int] == data@[#[trigger] idx@[j] as int]
                    ==> idx@[i] < idx@[j],
        decreases n - k,
    {
        let ghost prev = idx@;
        let mut pos: usize = idx.len();
        while pos > 0 && data[idx[pos - 1]] > data[k]
            invariant
                n == data@.len(),
                k < n,
                idx@ == prev,
                idx@.len() == k,
                0 <= pos <= k,
                forall|i: int| 0 <= i < k ==> 0 <= #[trigger] idx@[i] < k,
                forall|m: int| pos <= m < k ==> data@[#[trigger] idx@[m] as int] > data@[k as int],
            decreases pos,
        {
            pos = pos - 1;
        }
        idx.insert(pos, k);
        proof {
            assert(forall|i: int| 0 <= i < pos ==> idx@[i] == prev[i]);
            assert(idx@[pos as int] == k as usize);
            assert(forall|i: int| pos < i < k + 1 ==> idx@[i] == prev[i - 1]);
            assert(pos > 0 ==> data@[prev[pos as int - 1] as int] <= data@[k as int]);
        }
        k = k + 1;
    }
    idx
}

/// Construct the permutation that takes the stably sorted `data` back to
/// `data`: entry `i` says where position `i` of `data` lands in the
/// sorted order.
pub fn inverse_argsort(data: &Vec<i64>) -> (r: Vec<usize>)
    ensures
        r@.len() == data@.len(),
        exists|a: Seq<usize>|
            is_stable_argsort(data@, a) && (forall|i: int|
                0 <= i < a.len() ==> #[trigger] r@[a[i] as int] == i),
{
    let n: usize = data.len();
    let a = argsort(data);
    let mut out: Vec<usize> = Vec::new();
    let mut i: usize = 0;
    while i < n
        invariant
            n == data@.len(),
            0 <= i <= n,
            out@.len() == i,
        decreases n - i,
    {
        out.push(0);
        i = i + 1;
    }
    let mut j: usize = 0;
    while j < n
        invariant
            n == data@.len(),
            is_stable_argsort(data@, a@),
            0 <= j <= n,
            out@.len() == n,
            forall|i: int| 0 <= i < j ==> #[trigger] out@[a@[i] as int] == i,
        decreases n - j,
    {
        let slot: usize = a[j];
        out[slot] = j;
        j = j + 1;
    }
    proof {
        assert(is_stable_argsort(data@, a@) && (forall|i: int|
            0 <= i < a@.len() ==> #[trigger] out@[a@[i] as int] == i));
    }
    out
}

} // verus!
