//! Pairwise sums and products over a flat sequence of numbers.
//!
//! A sequence `s` is read as consecutive pairs `(s[0], s[1])`, `(s[2], s[3])`,
//! and so on; a trailing unpaired element belongs to no pair.
//!
//! All results are exact. A pair whose sum does not fit in a `u32`, or a
//! total of products that does not, lies outside every function's domain.

use vstd::prelude::*;

verus! {

/// The number of complete pairs in `s`.
pub open spec fn pair_count(s: Seq<u32>) -> int {
    s.len() as int / 2
}

/// The number of sums made when the complete pairs of `pairs` are matched
/// one to one with an output of `out_len` places: the shorter side decides.
pub open spec fn zipped_pair_count(pairs: Seq<u32>, out_len: int) -> int {
    if out_len <= pair_count(pairs) {
        out_len
    } else {
        pair_count(pairs)
    }
}

/// The sum of the `k`-th consecutive pair of `s`, as a mathematical integer.
pub open spec fn pair_sum(s: Seq<u32>, k: int) -> int {
    s[2 * k] + s[2 * k + 1]
}

/// Each of the first `n` pair sums of `s` fits in a `u32`.
pub open spec fn pair_sums_fit(s: Seq<u32>, n: int) -> bool {
    forall|k: int| 0 <= k < n ==> #[trigger] pair_sum(s, k) <= u32::MAX
}

/// `out` with its first `n` entries replaced by the first `n` pair sums of
/// `pairs`; the other entries and the length stay as they are.
pub open spec fn with_pair_sums(out: Seq<u32>, pairs: Seq<u32>, n: int) -> Seq<u32> {
    Seq::new(
        out.len(),
        |k: int|
            if k < n {
                pair_sum(pairs, k) as u32
            } else {
                out[k]
            },
    )
}

/// What [`with_pair_sums`] holds, entry by entry: the pair sums in its first
/// `n` places, the entries of `out` behind them, and the length of `out`.
pub proof fn lemma_with_pair_sums_entries(out: Seq<u32>, pairs: Seq<u32>, n: int)
    requires
        0 <= n <= out.len(),
        2 * n <= pairs.len(),
        pair_sums_fit(pairs, n),
    ensures
        with_pair_sums(out, pairs, n).len() == out.len(),
        forall|k: int|
            0 <= k < n ==> #[trigger] with_pair_sums(out, pairs, n)[k] == pairs[2 * k] + pairs[2
                * k + 1],
        forall|k: int|
            n <= k < out.len() ==> #[trigger] with_pair_sums(out, pairs, n)[k] == out[k],
{
    assert forall|k: int| 0 <= k < n implies #[trigger] with_pair_sums(
        out,
        pairs,
        n,
    )[k] == pairs[2 * k] + pairs[2 * k + 1] by {
        assert(pair_sum(pairs, k) <= u32::MAX);
    }
}

/// An input of even length `2 * k` holds exactly `k` pairs, and against an
/// output of `k` places every way of counting the sums arrives at `k`: the
/// output then consists of the `k` pair sums and nothing else.
pub proof fn lemma_pair_sums_of_even_length(out: Seq<u32>, pairs: Seq<u32>, k: int)
    requires
        pairs.len() == 2 * k,
        out.len() == k,
        pair_sums_fit(pairs, k),
    ensures
        pair_count(pairs) == k,
        zipped_pair_count(pairs, out.len() as int) == k,
        with_pair_sums(out, pairs, k).len() == k,
        forall|i: int|
            0 <= i < k ==> #[trigger] with_pair_sums(out, pairs, k)[i] == pairs[2 * i] + pairs[2
                * i + 1],
{
    lemma_with_pair_sums_entries(out, pairs, k);
}

/// The product of the `k`-th consecutive pair of `s`, as a mathematical integer.
pub open spec fn pair_product(s: Seq<u32>, k: int) -> int {
    s[2 * k] * s[2 * k + 1]
}

/// The sum of the products of the first `n` pairs of `s`.
pub open spec fn sum_of_pair_products(s: Seq<u32>, n: int) -> int
    decreases n,
{
    if n <= 0 {
        0
    } else {
        sum_of_pair_products(s, n - 1) + pair_product(s, n - 1)
    }
}

/// A sum of pair products never shrinks as more pairs are taken in, and no
/// single product exceeds a sum that takes it in.
pub proof fn lemma_sum_of_pair_products_grows(s: Seq<u32>, i: int, j: int)
    requires
        0 <= i <= j,
    ensures
        0 <= sum_of_pair_products(s, i) <= sum_of_pair_products(s, j),
        i < j ==> 0 <= pair_product(s, i) <= sum_of_pair_products(s, j),
    decreases j,
{
    assert forall|k: int| 0 <= #[trigger] pair_product(s, k) by {
        let a = s[2 * k];
        let b = s[2 * k + 1];
        assert(0 <= a * b) by (nonlinear_arith)
            requires
                0 <= a,
                0 <= b,
        ;
    }
    if 0 < j {
        let below = if i < j {
            i
        } else {
            j - 1
        };
        lemma_sum_of_pair_products_grows(s, below, j - 1);
    }
}

/// Writes the sum of every complete pair of `pairs` to the front of `sums`.
///
/// The number of sums is taken from the input: `pairs.len() / 2`. `sums` has
/// to have room for them.
pub fn add_pairs_naive_using_input_len(pairs: &[u32], sums: &mut [u32])
    requires
        pair_count(pairs@) <= old(sums).len(),
        pair_sums_fit(pairs@, pair_count(pairs@)),
    ensures
        final(sums)@ == with_pair_sums(old(sums)@, pairs@, pair_count(pairs@)),
{
    for i in 0..pairs.len() / 2
        invariant
            pair_count(pairs@) <= sums.len(),
            pair_sums_fit(pairs@, pair_count(pairs@)),
            sums@ == with_pair_sums(old(sums)@, pairs@, i as int),
    {
        assert(pair_sum(pairs@, i as int) <= u32::MAX);
        sums[i] = pairs[i * 2] + pairs[i * 2 + 1];
        assert(sums@ =~= with_pair_sums(old(sums)@, pairs@, i + 1));
    }
}

/// Fills all of `sums` with pair sums of `pairs`.
///
/// The number of sums is taken from the output: `sums.len()`. `pairs` has to
/// hold that many complete pairs.
pub fn add_pairs_naive_using_output_len(pairs: &[u32], sums: &mut [u32])
    requires
        2 * old(sums).len() <= pairs.len(),
        pair_sums_fit(pairs@, old(sums).len() as int),
    ensures
        final(sums)@ == with_pair_sums(old(sums)@, pairs@, old(sums).len() as int),
{
    let n: usize = sums.len();
    for i in 0..n
        invariant
            n == sums.len(),
            2 * n <= pairs.len(),
            pair_sums_fit(pairs@, n as int),
            sums@ == with_pair_sums(old(sums)@, pairs@, i as int),
    {
        assert(pair_sum(pairs@, i as int) <= u32::MAX);
        sums[i] = pairs[i * 2] + pairs[i * 2 + 1];
        assert(sums@ =~= with_pair_sums(old(sums)@, pairs@, i + 1));
    }
}

/// Fills all of `sums` with the pair sums of `pairs`, which holds exactly
/// `sums.len()` pairs and nothing more.
pub fn add_pairs_naive_using_output_len_assert_eq(pairs: &[u32], sums: &mut [u32])
    requires
        pairs.len() == 2 * old(sums).len(),
        pair_sums_fit(pairs@, old(sums).len() as int),
    ensures
        final(sums)@ == with_pair_sums(old(sums)@, pairs@, old(sums).len() as int),
{
    let n: usize = sums.len();
    for i in 0..n
        invariant
            n == sums.len(),
            pairs.len() == 2 * n,
            pair_sums_fit(pairs@, n as int),
            sums@ == with_pair_sums(old(sums)@, pairs@, i as int),
    {
        assert(pair_sum(pairs@, i as int) <= u32::MAX);
        sums[i] = pairs[i * 2] + pairs[i * 2 + 1];
        assert(sums@ =~= with_pair_sums(old(sums)@, pairs@, i + 1));
    }
}

/// Walks `pairs` in chunks of two with a counter kept by hand, and writes the
/// sum of each chunk to the front of `sums`.
///
/// Every chunk has to be a complete pair, so the length of `pairs` is even.
pub fn add_pairs_using_chunks(pairs: &[u32], sums: &mut [u32])
    requires
        pairs.len() % 2 == 0,
        pair_count(pairs@) <= old(sums).len(),
        pair_sums_fit(pairs@, pair_count(pairs@)),
    ensures
        final(sums)@ == with_pair_sums(old(sums)@, pairs@, pair_count(pairs@)),
{
    let mut i: usize = 0;
    let mut start: usize = 0;
    while start < pairs.len()
        invariant
            pairs.len() % 2 == 0,
            start == 2 * i,
            start <= pairs.len(),
            pair_count(pairs@) <= sums.len(),
            pair_sums_fit(pairs@, pair_count(pairs@)),
            sums@ == with_pair_sums(old(sums)@, pairs@, i as int),
        decreases pairs.len() - start,
    {
        let pair = &pairs[start..start + 2];
        assert(pair_sum(pairs@, i as int) <= u32::MAX);
        sums[i] = pair[0] + pair[1];
        assert(sums@ =~= with_pair_sums(old(sums)@, pairs@, i + 1));
        i += 1;
        start += 2;
    }
}

/// Walks `pairs` in numbered chunks of two and writes the sum of each chunk
/// to the place in `sums` that has the chunk's number.
///
/// Every chunk has to be a complete pair, so the length of `pairs` is even.
pub fn add_pairs_using_chunks_exact(pairs: &[u32], sums: &mut [u32])
    requires
        pairs.len() % 2 == 0,
        pair_count(pairs@) <= old(sums).len(),
        pair_sums_fit(pairs@, pair_count(pairs@)),
    ensures
        final(sums)@ == with_pair_sums(old(sums)@, pairs@, pair_count(pairs@)),
{
    let chunks: usize = pairs.len() / 2;
    for i in 0..chunks
        invariant
            chunks == pair_count(pairs@),
            2 * chunks <= pairs.len(),
            chunks <= sums.len(),
            pair_sums_fit(pairs@, pair_count(pairs@)),
            sums@ == with_pair_sums(old(sums)@, pairs@, i as int),
    {
        let pair = &pairs[2 * i..2 * i + 2];
        assert(pair_sum(pairs@, i as int) <= u32::MAX);
        sums[i] = pair[0] + pair[1];
        assert(sums@ =~= with_pair_sums(old(sums)@, pairs@, i + 1));
    }
}

/// Matches the places of `sums` one to one with the complete pairs of
/// `pairs` and writes each pair's sum to its place, until either side runs
/// out. A trailing unpaired element of `pairs` is ignored.
///
/// Any two lengths are accepted.
pub fn add_pairs_using_chunks_exact_zipped(pairs: &[u32], sums: &mut [u32])
    requires
        pair_sums_fit(pairs@, zipped_pair_count(pairs@, old(sums).len() as int)),
    ensures
        final(sums)@ == with_pair_sums(
            old(sums)@,
            pairs@,
            zipped_pair_count(pairs@, old(sums).len() as int),
        ),
{
    let chunks: usize = pairs.len() / 2;
    let n: usize = if sums.len() <= chunks {
        sums.len()
    } else {
        chunks
    };
    for i in 0..n
        invariant
            n == zipped_pair_count(pairs@, old(sums).len() as int),
            2 * n <= pairs.len(),
            sums.len() == old(sums).len(),
            pair_sums_fit(pairs@, n as int),
            sums@ == with_pair_sums(old(sums)@, pairs@, i as int),
    {
        let pair = &pairs[2 * i..2 * i + 2];
        assert(pair_sum(pairs@, i as int) <= u32::MAX);
        sums[i] = pair[0] + pair[1];
        assert(sums@ =~= with_pair_sums(old(sums)@, pairs@, i + 1));
    }
}

/// Matches the places of `sums` one to one with the chunks of two of `pairs`
/// and writes each chunk's sum to its place, until either side runs out.
///
/// A trailing unpaired element of `pairs` makes a short last chunk, which has
/// no sum: either the length of `pairs` is even, or `sums` ends before that
/// chunk is reached.
pub fn add_pairs_using_chunks_zipped(pairs: &[u32], sums: &mut [u32])
    requires
        pairs.len() % 2 == 0 || old(sums).len() <= pair_count(pairs@),
        pair_sums_fit(pairs@, zipped_pair_count(pairs@, old(sums).len() as int)),
    ensures
        final(sums)@ == with_pair_sums(
            old(sums)@,
            pairs@,
            zipped_pair_count(pairs@, old(sums).len() as int),
        ),
{
    let chunks: usize = pairs.len() / 2 + pairs.len() % 2;
    let n: usize = if sums.len() <= chunks {
        sums.len()
    } else {
        chunks
    };
    for i in 0..n
        invariant
            n == zipped_pair_count(pairs@, old(sums).len() as int),
            2 * n <= pairs.len(),
            sums.len() == old(sums).len(),
            pair_sums_fit(pairs@, n as int),
            sums@ == with_pair_sums(old(sums)@, pairs@, i as int),
    {
        let pair = &pairs[2 * i..2 * i + 2];
        assert(pair_sum(pairs@, i as int) <= u32::MAX);
        sums[i] = pair[0] + pair[1];
        assert(sums@ =~= with_pair_sums(old(sums)@, pairs@, i + 1));
    }
}

/// Replaces the front of `s` with the sums of its own pairs, counting pairs.
///
/// Each pair is read before the place it lies in is overwritten, so the sums
/// are those of the pairs as they were before the call.
pub fn add_pairs_mut_naive(s: &mut [u32])
    requires
        pair_sums_fit(old(s)@, pair_count(old(s)@)),
    ensures
        final(s)@ == with_pair_sums(old(s)@, old(s)@, pair_count(old(s)@)),
{
    let n: usize = s.len() / 2;
    for i in 0..n
        invariant
            n == pair_count(old(s)@),
            s.len() == old(s).len(),
            pair_sums_fit(old(s)@, n as int),
            s@ == with_pair_sums(old(s)@, old(s)@, i as int),
    {
        assert(pair_sum(old(s)@, i as int) <= u32::MAX);
        s[i] = s[i * 2] + s[i * 2 + 1];
        assert(s@ =~= with_pair_sums(old(s)@, old(s)@, i + 1));
    }
}

/// Replaces the front of `s` with the sums of its own pairs, stepping by two
/// while two more elements are left.
pub fn add_pairs_mut_naive_lteq(s: &mut [u32])
    requires
        pair_sums_fit(old(s)@, pair_count(old(s)@)),
    ensures
        final(s)@ == with_pair_sums(old(s)@, old(s)@, pair_count(old(s)@)),
{
    let mut i: usize = 0;
    while 2 <= s.len() - i
        invariant
            i % 2 == 0,
            i <= s.len(),
            s.len() == old(s).len(),
            pair_sums_fit(old(s)@, pair_count(old(s)@)),
            s@ == with_pair_sums(old(s)@, old(s)@, i as int / 2),
        decreases s.len() - i,
    {
        assert(pair_sum(old(s)@, i as int / 2) <= u32::MAX);
        s[i / 2] = s[i] + s[i + 1];
        assert(s@ =~= with_pair_sums(old(s)@, old(s)@, i as int / 2 + 1));
        i += 2;
    }
}

/// Replaces the front of `s` with the sums of its own pairs, stepping by two
/// while more than one element is left.
pub fn add_pairs_mut_naive2_plusone_lt(s: &mut [u32])
    requires
        pair_sums_fit(old(s)@, pair_count(old(s)@)),
    ensures
        final(s)@ == with_pair_sums(old(s)@, old(s)@, pair_count(old(s)@)),
{
    let mut i: usize = 0;
    while 1 < s.len() - i
        invariant
            i % 2 == 0,
            i <= s.len(),
            s.len() == old(s).len(),
            pair_sums_fit(old(s)@, pair_count(old(s)@)),
            s@ == with_pair_sums(old(s)@, old(s)@, i as int / 2),
        decreases s.len() - i,
    {
        assert(pair_sum(old(s)@, i as int / 2) <= u32::MAX);
        s[i / 2] = s[i] + s[i + 1];
        assert(s@ =~= with_pair_sums(old(s)@, old(s)@, i as int / 2 + 1));
        i += 2;
    }
}

/// Replaces the front of `s` with the sums of its own pairs, taking each
/// pair as a sub-slice that ends at a cursor which starts at two.
pub fn add_pairs_mut_sliced(s: &mut [u32])
    requires
        pair_sums_fit(old(s)@, pair_count(old(s)@)),
    ensures
        final(s)@ == with_pair_sums(old(s)@, old(s)@, pair_count(old(s)@)),
{
    let mut i: usize = 2;
    while i <= s.len()
        invariant
            i % 2 == 0,
            2 <= i <= s.len() + 2,
            s.len() == old(s).len(),
            pair_sums_fit(old(s)@, pair_count(old(s)@)),
            s@ == with_pair_sums(old(s)@, old(s)@, i as int / 2 - 1),
        decreases s.len() - i,
    {
        assert(pair_sum(old(s)@, i as int / 2 - 1) <= u32::MAX);
        let p = &s[i - 2..i];
        let sum: u32 = p[0] + p[1];
        s[(i - 2) / 2] = sum;
        assert(s@ =~= with_pair_sums(old(s)@, old(s)@, i as int / 2));
        if s.len() - i < 2 {
            // The last pair is done; stepping on could leave the range of the cursor.
            return;
        }
        i += 2;
    }
}

/// Replaces the front of `s` with the sums of its own pairs, reading each
/// pair just below a cursor which starts at two.
pub fn add_pairs_mut_naive3(s: &mut [u32])
    requires
        pair_sums_fit(old(s)@, pair_count(old(s)@)),
    ensures
        final(s)@ == with_pair_sums(old(s)@, old(s)@, pair_count(old(s)@)),
{
    let mut i: usize = 2;
    while i <= s.len()
        invariant
            i % 2 == 0,
            2 <= i <= s.len() + 2,
            s.len() == old(s).len(),
            pair_sums_fit(old(s)@, pair_count(old(s)@)),
            s@ == with_pair_sums(old(s)@, old(s)@, i as int / 2 - 1),
        decreases s.len() - i,
    {
        assert(pair_sum(old(s)@, i as int / 2 - 1) <= u32::MAX);
        s[(i - 2) / 2] = s[i - 2] + s[i - 1];
        assert(s@ =~= with_pair_sums(old(s)@, old(s)@, i as int / 2));
        if s.len() - i < 2 {
            // The last pair is done; stepping on could leave the range of the cursor.
            return;
        }
        i += 2;
    }
}

/// Adds up the products of the pairs of `s`, stepping by two while two more
/// elements are left. `s` is not changed.
///
/// The total has to fit in a `u32`; then every product and every running sum
/// fits as well.
pub fn sum_pairs_product_naive(s: &mut [u32]) -> (sum: u32)
    requires
        sum_of_pair_products(old(s)@, pair_count(old(s)@)) <= u32::MAX,
    ensures
        sum == sum_of_pair_products(old(s)@, pair_count(old(s)@)),
        final(s)@ == old(s)@,
{
    let mut sum: u32 = 0;
    let mut i: usize = 0;
    while 2 <= s.len() - i
        invariant
            i % 2 == 0,
            i <= s.len(),
            s@ == old(s)@,
            sum_of_pair_products(s@, pair_count(s@)) <= u32::MAX,
            sum == sum_of_pair_products(s@, i as int / 2),
        decreases s.len() - i,
    {
        proof {
            lemma_sum_of_pair_products_grows(s@, i as int / 2, i as int / 2 + 1);
            lemma_sum_of_pair_products_grows(s@, i as int / 2 + 1, pair_count(s@));
        }
        sum += s[i] * s[i + 1];
        i += 2;
    }
    sum
}

/// Adds up the products of the pairs of `s`, visiting every second index.
/// `s` is not changed.
///
/// Each visited index needs the one after it, so the length of `s` is even.
pub fn sum_pairs_product_iter(s: &mut [u32]) -> (sum: u32)
    requires
        old(s).len() % 2 == 0,
        sum_of_pair_products(old(s)@, pair_count(old(s)@)) <= u32::MAX,
    ensures
        sum == sum_of_pair_products(old(s)@, pair_count(old(s)@)),
        final(s)@ == old(s)@,
{
    let mut sum: u32 = 0;
    let mut i: usize = 0;
    while i < s.len()
        invariant
            i % 2 == 0,
            s.len() % 2 == 0,
            i <= s.len(),
            s@ == old(s)@,
            sum_of_pair_products(s@, pair_count(s@)) <= u32::MAX,
            sum == sum_of_pair_products(s@, i as int / 2),
        decreases s.len() - i,
    {
        proof {
            lemma_sum_of_pair_products_grows(s@, i as int / 2, i as int / 2 + 1);
            lemma_sum_of_pair_products_grows(s@, i as int / 2 + 1, pair_count(s@));
        }
        sum += s[i] * s[i + 1];
        i += 2;
    }
    sum
}

/// Adds up the products of the chunks of two of `s`. `s` is not changed.
///
/// Every chunk has to be a complete pair, so the length of `s` is even.
pub fn sum_pairs_product_chunks(s: &mut [u32]) -> (sum: u32)
    requires
        old(s).len() % 2 == 0,
        sum_of_pair_products(old(s)@, pair_count(old(s)@)) <= u32::MAX,
    ensures
        sum == sum_of_pair_products(old(s)@, pair_count(old(s)@)),
        final(s)@ == old(s)@,
{
    let mut sum: u32 = 0;
    let mut start: usize = 0;
    while start < s.len()
        invariant
            start % 2 == 0,
            s.len() % 2 == 0,
            start <= s.len(),
            s@ == old(s)@,
            sum_of_pair_products(s@, pair_count(s@)) <= u32::MAX,
            sum == sum_of_pair_products(s@, start as int / 2),
        decreases s.len() - start,
    {
        proof {
            lemma_sum_of_pair_products_grows(s@, start as int / 2, start as int / 2 + 1);
            lemma_sum_of_pair_products_grows(s@, start as int / 2 + 1, pair_count(s@));
        }
        let pair = &s[start..start + 2];
        sum += pair[0] * pair[1];
        start += 2;
    }
    sum
}

/// Adds up the products of the complete pairs of `s`, taken as chunks of
/// exactly two; a trailing unpaired element is ignored. `s` is not changed.
pub fn sum_pairs_product_chunks_exact(s: &mut [u32]) -> (sum: u32)
    requires
        sum_of_pair_products(old(s)@, pair_count(old(s)@)) <= u32::MAX,
    ensures
        sum == sum_of_pair_products(old(s)@, pair_count(old(s)@)),
        final(s)@ == old(s)@,
{
    let mut sum: u32 = 0;
    let chunks: usize = s.len() / 2;
    for k in 0..chunks
        invariant
            chunks == pair_count(s@),
            2 * chunks <= s.len(),
            s@ == old(s)@,
            sum_of_pair_products(s@, pair_count(s@)) <= u32::MAX,
            sum == sum_of_pair_products(s@, k as int),
    {
        proof {
            lemma_sum_of_pair_products_grows(s@, k as int, k + 1);
            lemma_sum_of_pair_products_grows(s@, k + 1, pair_count(s@));
        }
        let pair = &s[2 * k..2 * k + 2];
        sum += pair[0] * pair[1];
    }
    sum
}

} // verus!
