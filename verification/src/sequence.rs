//! The Fibonacci sequence as a mathematical object, and the lemmas about it.

use vstd::prelude::*;

verus! {

/// The term of the Fibonacci sequence at index `n`: the sequence starts
/// `0, 1`, and every later term is the sum of the two terms before it.
pub open spec fn fib(n: nat) -> nat
    decreases n,
{
    if n < 2 {
        n
    } else {
        fib((n - 1) as nat) + fib((n - 2) as nat)
    }
}

/// The current value of a pair of running values `(prev, cur)` after it has
/// been advanced `steps` times, where one advance replaces the pair by
/// `(cur, prev + cur)`.
pub open spec fn advance(prev: nat, cur: nat, steps: nat) -> nat
    decreases steps,
{
    if steps == 0 {
        cur
    } else {
        advance(cur, prev + cur, (steps - 1) as nat)
    }
}

/// Advancing a pair of neighbouring terms walks along the sequence: started at
/// the terms `i` and `i + 1`, the current value after `steps` advances is the
/// term `i + 1 + steps`.
pub proof fn lemma_advance_walks_sequence(i: nat, steps: nat)
    ensures
        advance(fib(i), fib(i + 1), steps) == fib(i + 1 + steps),
    decreases steps,
{
    if steps > 0 {
        lemma_advance_walks_sequence(i + 1, (steps - 1) as nat);
    }
}

/// The sequence never decreases.
pub proof fn lemma_fib_monotone(i: nat, j: nat)
    requires
        i <= j,
    ensures
        fib(i) <= fib(j),
    decreases j,
{
    if i < j {
        lemma_fib_monotone(i, (j - 1) as nat);
    }
}

/// The terms at indices 44 and 45, written out.
proof fn lemma_fib_44_45()
    ensures
        fib(44) == 701408733,
        fib(45) == 1134903170,
{
    lemma_advance_walks_sequence(0, 43);
    lemma_advance_walks_sequence(0, 44);
    assert(advance(0, 1, 43) == 701408733 && advance(0, 1, 44) == 1134903170) by {
        reveal_with_fuel(advance, 45);
    }
}

/// The term at index 90, written out.
///
/// The value is reached in two walks of the running pair, the first from the
/// start of the sequence to index 45 and the second from there to index 90,
/// so that each stays within the number of unfoldings the solver is given.
pub proof fn lemma_fib_90()
    ensures
        fib(90) == 2880067194370816120,
{
    lemma_fib_44_45();
    lemma_advance_walks_sequence(44, 45);
    assert(advance(701408733, 1134903170, 45) == 2880067194370816120) by {
        reveal_with_fuel(advance, 46);
    }
}

/// A few terms of the sequence, written out: the two it starts with, some
/// early ones, and the one at index 90.
pub proof fn lemma_known_terms()
    ensures
        fib(0) == 0,
        fib(1) == 1,
        fib(2) == 1,
        fib(10) == 55,
        fib(20) == 6765,
        fib(90) == 2880067194370816120,
{
    lemma_advance_walks_sequence(0, 9);
    lemma_advance_walks_sequence(0, 19);
    assert(advance(0, 1, 9) == 55 && advance(0, 1, 19) == 6765) by {
        reveal_with_fuel(advance, 20);
    }
    lemma_fib_90();
}

} // verus!
