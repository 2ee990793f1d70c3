use vstd::prelude::*;

verus! {

/// The factorial of `n`: `0! = 1`, `n! = n * (n - 1)!`.
pub open spec fn factorial(n: nat) -> nat
    decreases n,
{
    if n == 0 {
        1
    } else {
        n * factorial((n - 1) as nat)
    }
}

/// `20!` is the largest factorial that fits in an `i64`.
proof fn lemma_factorial_bound(n: nat)
    requires
        n <= 20,
    ensures
        factorial(n) <= factorial(20),
        factorial(20) == 2432902008176640000,
    decreases 20 - n,
{
    reveal_with_fuel(factorial, 21);
    if n < 20 {
        lemma_factorial_monotone(n);
        lemma_factorial_bound(n + 1);
    }
}

proof fn lemma_factorial_monotone(n: nat)
    ensures
        factorial(n) <= factorial(n + 1),
{
    assert(factorial(n + 1) == (n + 1) * factorial(n));
    assert(factorial(n) <= (n + 1) * factorial(n)) by (nonlinear_arith);
}

/// Recursive factorial of a small non-negative number.
pub fn fac(n: i64) -> (r: i64)
    requires
        0 <= n <= 20,
    ensures
        r == factorial(n as nat),
    decreases n,
{
    if n == 0 {
        1
    } else {
        let p = fac(n - 1);
        proof {
            lemma_factorial_bound(n as nat);
            assert(factorial(n as nat) == n * factorial((n - 1) as nat));
        }
        n * p
    }
}

} // verus!
