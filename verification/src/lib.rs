//! A minimal entry-point library: one pure, doubly recursive computation and
//! the fixed result that the program's start symbol hands back to its caller.
//!
//! The computation is total over the signed integers: every input at or below
//! one yields one, and above that the value is the sum of the two preceding
//! terms. The only machine constraint is that the result must fit in an `i32`,
//! which the precondition of [`fib`] states directly.

use vstd::prelude::*;

verus! {

/// The sequence being computed, as a mathematical function: 1 for every
/// `n <= 1`, and the sum of the two preceding terms above that.
pub open spec fn spec_fib(n: int) -> int
    decreases n,
{
    if n <= 1 {
        1
    } else {
        spec_fib(n - 1) + spec_fib(n - 2)
    }
}

/// Every term of the sequence is at least one.
proof fn lemma_fib_pos(n: int)
    ensures
        spec_fib(n) >= 1,
    decreases n,
{
    if n >= 2 {
        lemma_fib_pos(n - 1);
        lemma_fib_pos(n - 2);
    }
}

/// Law: on the base inputs, zero and one, the computation yields exactly one.
pub proof fn lemma_fib_base(n: int)
    requires
        0 <= n <= 1,
    ensures
        spec_fib(n) == 1,
{
}

/// Law: from two upward the recurrence holds: each term is the sum of the two
/// preceding terms.
pub proof fn lemma_fib_recurrence(n: int)
    requires
        n >= 2,
    ensures
        spec_fib(n) == spec_fib(n - 1) + spec_fib(n - 2),
{
}

/// Law: the computation is deterministic. Any two results obtained for the
/// same input agree, because each one equals `spec_fib` of that input; there
/// is no hidden state that a call could read or mutate.
pub proof fn lemma_fib_deterministic(n: i32, r1: i32, r2: i32)
    requires
        r1 as int == spec_fib(n as int),
        r2 as int == spec_fib(n as int),
    ensures
        r1 == r2,
{
}

/// The computation itself, doubly recursive, with no side effects and no
/// allocation. The precondition asks only what the machine forces: the
/// result must fit in an `i32`.
pub fn fib(i: i32) -> (r: i32)
    requires
        spec_fib(i as int) <= i32::MAX,
    ensures
        r as int == spec_fib(i as int),
    decreases i,
{
    if i <= 1 {
        1
    } else {
        proof {
            lemma_fib_recurrence(i as int);
            lemma_fib_pos(i - 1);
            lemma_fib_pos(i - 2);
        }
        let a: i32 = fib(i - 1);
        let b: i32 = fib(i - 2);
        a + b
    }
}

/// The externally callable operation: no arguments, and the seventh term of
/// the sequence (thirteen) as its result, suitable as a process status code.
pub fn entry() -> (r: i32)
    ensures
        r == 13,
        r as int == spec_fib(6),
{
    proof {
        reveal_with_fuel(spec_fib, 8);
    }
    fib(6)
}

} // verus!
