//! Utilities for bit and byte manipulation.

use vstd::prelude::*;

verus! {

/// Increases `p` as little as possible (including possibly by 0) such
/// that it becomes a multiple of `N`.
///
/// `N` must not be zero, and the aligned value must be representable.
pub fn align_up<const N: usize>(p: usize) -> (r: usize)
    requires
        N != 0,
        p % N == 0 || p + (N - p % N) <= usize::MAX,
    ensures
        r % N == 0,
        p <= r,
        r - p < N,
{
    if p % N == 0 {
        p
    } else {
        let r = p + (N - p % N);
        proof {
            let q = p as int / N as int;
            vstd::arithmetic::div_mod::lemma_fundamental_div_mod(p as int, N as int);
            assert(r == N * (q + 1)) by (nonlinear_arith)
                requires
                    p == q * N + p % N,
                    r == p + N - p % N,
            ;
            assert(N * (q + 1) % (N as int) == 0) by (nonlinear_arith)
                requires
                    N != 0,
            ;
        }
        r
    }
}

} // verus!
