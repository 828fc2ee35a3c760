//! Why the tables of primes deserve their name: every entry is prime, the
//! entries increase, and no prime up to the last entry is missing.

use crate::primality::{
    divides, is_prime, lemma_trial_division_finds_primes, no_divisor_below, trial_bound,
};
use crate::table_lookup::PRIMES_256;
use vstd::prelude::*;

verus! {

/// Each of the first `k` entries of the table passes trial division by
/// everything below 41, whose square exceeds the last entry.
spec fn entries_pass_trial(k: int) -> bool
    decreases k,
{
    k <= 0 || (no_divisor_below(
        PRIMES_256[k - 1] as int,
        trial_bound(PRIMES_256[k - 1] as int, 41),
    ) && entries_pass_trial(k - 1))
}

/// Each of the first `k + 1` entries of the table is less than the next.
spec fn neighbours_increase(k: int) -> bool
    decreases k,
{
    k <= 0 || (PRIMES_256[k - 1] < PRIMES_256[k] && neighbours_increase(k - 1))
}

/// A prime below 41, other than `n` itself, divides `n`.
spec fn has_small_factor(n: int) -> bool {
    ||| (2 < n && divides(2, n))
    ||| (3 < n && divides(3, n))
    ||| (5 < n && divides(5, n))
    ||| (7 < n && divides(7, n))
    ||| (11 < n && divides(11, n))
    ||| (13 < n && divides(13, n))
    ||| (17 < n && divides(17, n))
    ||| (19 < n && divides(19, n))
    ||| (23 < n && divides(23, n))
    ||| (29 < n && divides(29, n))
    ||| (31 < n && divides(31, n))
    ||| (37 < n && divides(37, n))
}

/// Every number in `lo, .., hi - 1` has a small factor.
spec fn run_has_small_factors(lo: int, hi: int) -> bool
    decreases hi - lo,
{
    lo >= hi || (has_small_factor(lo) && run_has_small_factors(lo + 1, hi))
}

/// Between any two neighbours among the first `k + 1` entries of the table,
/// every number has a small factor.
spec fn gaps_have_small_factors(k: int) -> bool
    decreases k,
{
    k <= 0 || (run_has_small_factors(PRIMES_256[k - 1] + 1, PRIMES_256[k] as int)
        && gaps_have_small_factors(k - 1))
}

// Trial division of the entries, worked through a few entries at a time so
// that each step stays small.

proof fn lemma_entries_pass_trial_to_32()
    ensures
        entries_pass_trial(32),
{
    reveal_with_fuel(entries_pass_trial, 17);
    reveal_with_fuel(no_divisor_below, 41);
    assert(entries_pass_trial(16));
    assert(entries_pass_trial(32));
}

proof fn lemma_entries_pass_trial_to_64()
    ensures
        entries_pass_trial(64),
{
    lemma_entries_pass_trial_to_32();
    reveal_with_fuel(entries_pass_trial, 17);
    reveal_with_fuel(no_divisor_below, 41);
    assert(entries_pass_trial(48));
    assert(entries_pass_trial(64));
}

proof fn lemma_entries_pass_trial_to_96()
    ensures
        entries_pass_trial(96),
{
    lemma_entries_pass_trial_to_64();
    reveal_with_fuel(entries_pass_trial, 17);
    reveal_with_fuel(no_divisor_below, 41);
    assert(entries_pass_trial(80));
    assert(entries_pass_trial(96));
}

proof fn lemma_entries_pass_trial_to_128()
    ensures
        entries_pass_trial(128),
{
    lemma_entries_pass_trial_to_96();
    reveal_with_fuel(entries_pass_trial, 17);
    reveal_with_fuel(no_divisor_below, 41);
    assert(entries_pass_trial(112));
    assert(entries_pass_trial(128));
}

proof fn lemma_entries_pass_trial_to_160()
    ensures
        entries_pass_trial(160),
{
    lemma_entries_pass_trial_to_128();
    reveal_with_fuel(entries_pass_trial, 17);
    reveal_with_fuel(no_divisor_below, 41);
    assert(entries_pass_trial(144));
    assert(entries_pass_trial(160));
}

proof fn lemma_entries_pass_trial_to_192()
    ensures
        entries_pass_trial(192),
{
    lemma_entries_pass_trial_to_160();
    reveal_with_fuel(entries_pass_trial, 17);
    reveal_with_fuel(no_divisor_below, 41);
    assert(entries_pass_trial(176));
    assert(entries_pass_trial(192));
}

proof fn lemma_entries_pass_trial_to_224()
    ensures
        entries_pass_trial(224),
{
    lemma_entries_pass_trial_to_192();
    reveal_with_fuel(entries_pass_trial, 17);
    reveal_with_fuel(no_divisor_below, 41);
    assert(entries_pass_trial(208));
    assert(entries_pass_trial(224));
}

proof fn lemma_entries_pass_trial_to_256()
    ensures
        entries_pass_trial(256),
{
    lemma_entries_pass_trial_to_224();
    reveal_with_fuel(entries_pass_trial, 17);
    reveal_with_fuel(no_divisor_below, 41);
    assert(entries_pass_trial(240));
    assert(entries_pass_trial(256));
}

// The numbers between the entries, worked through a few gaps at a time. Each
// step unfolds a run as far as the widest gap among its own.

proof fn lemma_gaps_have_small_factors_to_16()
    ensures
        gaps_have_small_factors(16),
{
    reveal_with_fuel(gaps_have_small_factors, 17);
    reveal_with_fuel(run_has_small_factors, 6);
}

proof fn lemma_gaps_have_small_factors_to_32()
    ensures
        gaps_have_small_factors(32),
{
    lemma_gaps_have_small_factors_to_16();
    reveal_with_fuel(gaps_have_small_factors, 17);
    reveal_with_fuel(run_has_small_factors, 14);
}

proof fn lemma_gaps_have_small_factors_to_48()
    ensures
        gaps_have_small_factors(48),
{
    lemma_gaps_have_small_factors_to_32();
    reveal_with_fuel(gaps_have_small_factors, 17);
    reveal_with_fuel(run_has_small_factors, 12);
}

proof fn lemma_gaps_have_small_factors_to_64()
    ensures
        gaps_have_small_factors(64),
{
    lemma_gaps_have_small_factors_to_48();
    reveal_with_fuel(gaps_have_small_factors, 17);
    reveal_with_fuel(run_has_small_factors, 14);
}

proof fn lemma_gaps_have_small_factors_to_80()
    ensures
        gaps_have_small_factors(80),
{
    lemma_gaps_have_small_factors_to_64();
    reveal_with_fuel(gaps_have_small_factors, 17);
    reveal_with_fuel(run_has_small_factors, 14);
}

proof fn lemma_gaps_have_small_factors_to_96()
    ensures
        gaps_have_small_factors(96),
{
    lemma_gaps_have_small_factors_to_80();
    reveal_with_fuel(gaps_have_small_factors, 17);
    reveal_with_fuel(run_has_small_factors, 12);
}

proof fn lemma_gaps_have_small_factors_to_112()
    ensures
        gaps_have_small_factors(112),
{
    lemma_gaps_have_small_factors_to_96();
    reveal_with_fuel(gaps_have_small_factors, 17);
    reveal_with_fuel(run_has_small_factors, 18);
}

proof fn lemma_gaps_have_small_factors_to_128()
    ensures
        gaps_have_small_factors(128),
{
    lemma_gaps_have_small_factors_to_112();
    reveal_with_fuel(gaps_have_small_factors, 17);
    reveal_with_fuel(run_has_small_factors, 12);
}

proof fn lemma_gaps_have_small_factors_to_144()
    ensures
        gaps_have_small_factors(144),
{
    lemma_gaps_have_small_factors_to_128();
    reveal_with_fuel(gaps_have_small_factors, 17);
    reveal_with_fuel(run_has_small_factors, 14);
}

proof fn lemma_gaps_have_small_factors_to_160()
    ensures
        gaps_have_small_factors(160),
{
    lemma_gaps_have_small_factors_to_144();
    reveal_with_fuel(gaps_have_small_factors, 17);
    reveal_with_fuel(run_has_small_factors, 20);
}

proof fn lemma_gaps_have_small_factors_to_176()
    ensures
        gaps_have_small_factors(176),
{
    lemma_gaps_have_small_factors_to_160();
    reveal_with_fuel(gaps_have_small_factors, 17);
    reveal_with_fuel(run_has_small_factors, 14);
}

proof fn lemma_gaps_have_small_factors_to_192()
    ensures
        gaps_have_small_factors(192),
{
    lemma_gaps_have_small_factors_to_176();
    reveal_with_fuel(gaps_have_small_factors, 17);
    reveal_with_fuel(run_has_small_factors, 22);
}

proof fn lemma_gaps_have_small_factors_to_208()
    ensures
        gaps_have_small_factors(208),
{
    lemma_gaps_have_small_factors_to_192();
    reveal_with_fuel(gaps_have_small_factors, 17);
    reveal_with_fuel(run_has_small_factors, 18);
}

proof fn lemma_gaps_have_small_factors_to_224()
    ensures
        gaps_have_small_factors(224),
{
    lemma_gaps_have_small_factors_to_208();
    reveal_with_fuel(gaps_have_small_factors, 17);
    reveal_with_fuel(run_has_small_factors, 34);
}

proof fn lemma_gaps_have_small_factors_to_240()
    ensures
        gaps_have_small_factors(240),
{
    lemma_gaps_have_small_factors_to_224();
    reveal_with_fuel(gaps_have_small_factors, 17);
    reveal_with_fuel(run_has_small_factors, 12);
}

proof fn lemma_gaps_have_small_factors_to_255()
    ensures
        gaps_have_small_factors(255),
{
    lemma_gaps_have_small_factors_to_240();
    reveal_with_fuel(gaps_have_small_factors, 16);
    reveal_with_fuel(run_has_small_factors, 14);
}

// The order of the entries, and what the three unfolded facts say of a single
// entry, gap and number.

proof fn lemma_neighbours_increase_to_255()
    ensures
        neighbours_increase(255),
{
    reveal_with_fuel(neighbours_increase, 52);
    assert(neighbours_increase(51));
    assert(neighbours_increase(102));
    assert(neighbours_increase(153));
    assert(neighbours_increase(204));
}

proof fn lemma_neighbour_is_less(k: int, i: int)
    requires
        neighbours_increase(k),
        0 <= i < k <= 255,
    ensures
        PRIMES_256[i] < PRIMES_256[i + 1],
    decreases k,
{
    if i < k - 1 {
        lemma_neighbour_is_less(k - 1, i);
    }
}

/// The table is in strictly increasing order, and so are the smaller
/// tables, which are its fronts.
pub proof fn lemma_primes_increase(i: int, j: int)
    requires
        0 <= i < j < 256,
    ensures
        PRIMES_256[i] < PRIMES_256[j],
    decreases j - i,
{
    lemma_neighbours_increase_to_255();
    lemma_neighbour_is_less(255, j - 1);
    if i + 1 < j {
        lemma_primes_increase(i, j - 1);
    }
}

proof fn lemma_entry_passes_trial(k: int, i: int)
    requires
        entries_pass_trial(k),
        0 <= i < k <= 256,
    ensures
        no_divisor_below(PRIMES_256[i] as int, trial_bound(PRIMES_256[i] as int, 41)),
    decreases k,
{
    if i < k - 1 {
        lemma_entry_passes_trial(k - 1, i);
    }
}

proof fn lemma_gap_has_small_factors(k: int, i: int)
    requires
        gaps_have_small_factors(k),
        0 <= i < k <= 255,
    ensures
        run_has_small_factors(PRIMES_256[i] + 1, PRIMES_256[i + 1] as int),
    decreases k,
{
    if i < k - 1 {
        lemma_gap_has_small_factors(k - 1, i);
    }
}

proof fn lemma_run_member_has_small_factor(lo: int, hi: int, n: int)
    requires
        run_has_small_factors(lo, hi),
        lo <= n < hi,
    ensures
        has_small_factor(n),
    decreases hi - lo,
{
    if lo < n {
        lemma_run_member_has_small_factor(lo + 1, hi, n);
    }
}

/// The table runs from 2, the least prime, to 1619.
pub proof fn lemma_table_bounds(i: int)
    requires
        0 <= i < 256,
    ensures
        PRIMES_256[0] == 2,
        PRIMES_256[255] == 1619,
        2 <= PRIMES_256[i] <= 1619,
{
    if 0 < i {
        lemma_primes_increase(0, i);
    }
    if i < 255 {
        lemma_primes_increase(i, 255);
    }
}

/// Every entry of the table is a prime number.
pub proof fn lemma_entries_are_prime(i: int)
    requires
        0 <= i < 256,
    ensures
        is_prime(PRIMES_256[i] as int),
{
    let n = PRIMES_256[i] as int;
    let bound = trial_bound(n, 41);
    lemma_table_bounds(i);
    lemma_entries_pass_trial_to_256();
    lemma_entry_passes_trial(256, i);
    assert(n < bound * bound) by (nonlinear_arith)
        requires
            2 <= n <= 1619,
            bound == if n < 41 {
                n
            } else {
                41
            },
    ;
    lemma_trial_division_finds_primes(n, bound);
}

/// No number strictly between two neighbouring entries of the table is
/// prime.
pub proof fn lemma_no_prime_between_entries(i: int, n: int)
    requires
        0 <= i < 255,
        PRIMES_256[i] < n < PRIMES_256[i + 1],
    ensures
        !is_prime(n),
{
    lemma_gaps_have_small_factors_to_255();
    lemma_gap_has_small_factors(255, i);
    lemma_run_member_has_small_factor(PRIMES_256[i] + 1, PRIMES_256[i + 1] as int, n);
}

proof fn lemma_prime_is_an_entry_from(n: int, k: int)
    requires
        is_prime(n),
        0 <= k < 256,
        PRIMES_256[k] <= n <= 1619,
    ensures
        exists|i: int| 0 <= i < 256 && PRIMES_256[i] == n,
    decreases 256 - k,
{
    lemma_table_bounds(k);
    if PRIMES_256[k] == n {
    } else if n < PRIMES_256[k + 1] {
        lemma_no_prime_between_entries(k, n);
    } else {
        lemma_prime_is_an_entry_from(n, k + 1);
    }
}

/// Every prime number up to 1619 is an entry of the table. With the entries
/// prime and increasing, the table holds the first 256 primes in order, and
/// the smaller tables, being its fronts, the first 16 and the first 7.
pub proof fn lemma_every_prime_is_an_entry(n: int)
    requires
        is_prime(n),
        n <= 1619,
    ensures
        exists|i: int| 0 <= i < 256 && PRIMES_256[i] == n,
{
    lemma_table_bounds(0);
    lemma_prime_is_an_entry_from(n, 0);
}

} // verus!
