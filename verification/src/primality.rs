//! What it is to be a prime number, and trial division as a way to settle it.

use vstd::arithmetic::div_mod::{lemma_fundamental_div_mod, lemma_mod_multiples_basic};
use vstd::prelude::*;

verus! {

/// `d` divides `n` without remainder.
pub open spec fn divides(d: int, n: int) -> bool {
    n % d == 0
}

/// `n` is at least two and nothing between one and itself divides it.
pub open spec fn is_prime(n: int) -> bool {
    2 <= n && forall|d: int| 2 <= d < n ==> !#[trigger] divides(d, n)
}

/// None of `2, .., bound - 1` divides `n`.
pub open spec fn no_divisor_below(n: int, bound: int) -> bool
    decreases bound,
{
    bound <= 2 || (!divides(bound - 1, n) && no_divisor_below(n, bound - 1))
}

/// Where trial division stops for `n`: at `limit`, or at `n` itself if that
/// comes first.
pub open spec fn trial_bound(n: int, limit: int) -> int {
    if n < limit {
        n
    } else {
        limit
    }
}

/// What [`no_divisor_below`] says of a single candidate.
pub proof fn lemma_no_divisor_below(n: int, bound: int, d: int)
    requires
        no_divisor_below(n, bound),
        2 <= d < bound,
    ensures
        !divides(d, n),
    decreases bound,
{
    if d < bound - 1 {
        lemma_no_divisor_below(n, bound - 1, d);
    }
}

/// Trial division up to a bound whose square exceeds `n` settles that `n` is
/// prime: of two numbers whose product is `n`, one is below the bound.
pub proof fn lemma_trial_division_finds_primes(n: int, bound: int)
    requires
        2 <= n,
        0 <= bound <= n,
        n < bound * bound,
        no_divisor_below(n, bound),
    ensures
        is_prime(n),
{
    assert forall|d: int| 2 <= d < n implies !#[trigger] divides(d, n) by {
        if divides(d, n) {
            if d < bound {
                lemma_no_divisor_below(n, bound, d);
            } else {
                let e = n / d;
                lemma_fundamental_div_mod(n, d);
                assert(n == d * e);
                assert(2 <= e) by (nonlinear_arith)
                    requires
                        n == d * e,
                        2 <= d < n,
                {
                    if e <= 1 {
                        assert(d * e <= d);
                    }
                }
                assert(e < bound) by (nonlinear_arith)
                    requires
                        n == d * e,
                        0 <= bound <= d,
                        n < bound * bound,
                {
                    if bound <= e {
                        assert(bound * bound <= d * bound);
                        assert(d * bound <= d * e);
                    }
                }
                assert(n == e * d) by (nonlinear_arith)
                    requires
                        n == d * e,
                ;
                lemma_mod_multiples_basic(d, e);
                assert(divides(e, n));
                lemma_no_divisor_below(n, bound, e);
            }
        }
    }
}

} // verus!
