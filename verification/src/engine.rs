//! The compute engine: one term of the Fibonacci sequence in a `u64`.

use crate::sequence::{fib, lemma_fib_90, lemma_fib_monotone};
use vstd::prelude::*;

verus! {

/// The largest index that the engine is asked for. Every term up to this
/// index fits in a `u64` (see [`lemma_terms_fit_u64`]); a wider bound needs a
/// new proof of that, or a wider integer.
pub const MAX_INDEX: u64 = 90;

/// Every term that the engine can be asked for fits in a `u64`.
pub proof fn lemma_terms_fit_u64(n: nat)
    requires
        n <= MAX_INDEX,
    ensures
        fib(n) <= u64::MAX,
{
    lemma_fib_monotone(n, MAX_INDEX as nat);
    lemma_fib_90();
}

/// Computes the term of the Fibonacci sequence at index `n`.
///
/// The computation keeps two running values and advances them once per
/// index, so it takes `n` additions and constant space. It makes no overflow
/// check of its own: the caller keeps `n` within [`MAX_INDEX`].
pub fn fibonacci(n: u64) -> (value: u64)
    requires
        n <= MAX_INDEX,
    ensures
        value == fib(n as nat),
{
    match n {
        0 => 0,
        1 => 1,
        _ => {
            let mut a: u64 = 0;
            let mut b: u64 = 1;
            let mut i: u64 = 2;
            while i <= n
                invariant
                    2 <= i <= n + 1,
                    n <= MAX_INDEX,
                    a == fib((i - 2) as nat),
                    b == fib((i - 1) as nat),
                decreases n + 1 - i,
            {
                proof {
                    lemma_terms_fit_u64(i as nat);
                }
                let temp: u64 = a + b;
                a = b;
                b = temp;
                i = i + 1;
            }
            b
        },
    }
}

} // verus!
