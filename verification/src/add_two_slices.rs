//! Element-wise addition of two slices into a third.
//!
//! All results are exact. Two elements whose sum does not fit in a `u32` lie
//! outside every function's domain.

use vstd::prelude::*;

verus! {

/// The sum of the entries of `a` and `b` at index `i`, as a mathematical
/// integer.
pub open spec fn element_sum(a: Seq<u32>, b: Seq<u32>, i: int) -> int {
    a[i] + b[i]
}

/// Each of the first `n` element-wise sums of `a` and `b` fits in a `u32`.
pub open spec fn element_sums_fit(a: Seq<u32>, b: Seq<u32>, n: int) -> bool {
    forall|i: int| 0 <= i < n ==> #[trigger] element_sum(a, b, i) <= u32::MAX
}

/// `out` with its first `n` entries replaced by the first `n` element-wise
/// sums of `a` and `b`; the other entries and the length stay as they are.
pub open spec fn with_element_sums(out: Seq<u32>, a: Seq<u32>, b: Seq<u32>, n: int) -> Seq<u32> {
    Seq::new(
        out.len(),
        |i: int|
            if i < n {
                element_sum(a, b, i) as u32
            } else {
                out[i]
            },
    )
}

/// The least of three lengths.
pub open spec fn shortest(x: int, y: int, z: int) -> int {
    if x <= y && x <= z {
        x
    } else if y <= z {
        y
    } else {
        z
    }
}

/// For three sequences of one length, every way of counting the sums arrives
/// at that length, and the output consists of the element-wise sums and
/// nothing else.
pub proof fn lemma_element_sums_of_equal_lengths(out: Seq<u32>, a: Seq<u32>, b: Seq<u32>)
    requires
        a.len() == b.len(),
        a.len() == out.len(),
        element_sums_fit(a, b, a.len() as int),
    ensures
        shortest(a.len() as int, b.len() as int, out.len() as int) == a.len(),
        with_element_sums(out, a, b, a.len() as int).len() == a.len(),
        forall|i: int|
            0 <= i < a.len() ==> #[trigger] with_element_sums(out, a, b, a.len() as int)[i] == a[i]
                + b[i],
{
    assert forall|i: int| 0 <= i < a.len() implies #[trigger] with_element_sums(
        out,
        a,
        b,
        a.len() as int,
    )[i] == a[i] + b[i] by {
        assert(element_sum(a, b, i) <= u32::MAX);
    }
}

/// Adds `a` and `b` element by element into the front of `sum`, once for
/// every element of `a`.
///
/// `b` and `sum` have to be at least as long as `a`. With three equal
/// lengths, all of `sum` is written.
pub fn add_two_slices_naive(a: &[u32], b: &[u32], sum: &mut [u32])
    requires
        a.len() <= b.len(),
        a.len() <= old(sum).len(),
        element_sums_fit(a@, b@, a.len() as int),
    ensures
        final(sum)@ == with_element_sums(old(sum)@, a@, b@, a.len() as int),
{
    for i in 0..a.len()
        invariant
            a.len() <= b.len(),
            a.len() <= sum.len(),
            element_sums_fit(a@, b@, a.len() as int),
            sum@ == with_element_sums(old(sum)@, a@, b@, i as int),
    {
        assert(element_sum(a@, b@, i as int) <= u32::MAX);
        sum[i] = a[i] + b[i];
        assert(sum@ =~= with_element_sums(old(sum)@, a@, b@, i + 1));
    }
}

/// A second entry point with the loop and the contract of
/// [`add_two_slices_naive`]: one sum for every element of `a`.
pub fn add_two_slices_naive_output_dependent(a: &[u32], b: &[u32], sum: &mut [u32])
    requires
        a.len() <= b.len(),
        a.len() <= old(sum).len(),
        element_sums_fit(a@, b@, a.len() as int),
    ensures
        final(sum)@ == with_element_sums(old(sum)@, a@, b@, a.len() as int),
{
    for i in 0..a.len()
        invariant
            a.len() <= b.len(),
            a.len() <= sum.len(),
            element_sums_fit(a@, b@, a.len() as int),
            sum@ == with_element_sums(old(sum)@, a@, b@, i as int),
    {
        assert(element_sum(a@, b@, i as int) <= u32::MAX);
        sum[i] = a[i] + b[i];
        assert(sum@ =~= with_element_sums(old(sum)@, a@, b@, i + 1));
    }
}

/// Adds `a` and `b` element by element into `sum`, for three slices of one
/// length, stated as two equalities.
pub fn add_two_slices_assert_eq(a: &[u32], b: &[u32], sum: &mut [u32])
    requires
        a.len() == b.len(),
        a.len() == old(sum).len(),
        element_sums_fit(a@, b@, a.len() as int),
    ensures
        final(sum)@ == with_element_sums(old(sum)@, a@, b@, a.len() as int),
{
    for i in 0..a.len()
        invariant
            a.len() == b.len(),
            a.len() == sum.len(),
            element_sums_fit(a@, b@, a.len() as int),
            sum@ == with_element_sums(old(sum)@, a@, b@, i as int),
    {
        assert(element_sum(a@, b@, i as int) <= u32::MAX);
        sum[i] = a[i] + b[i];
        assert(sum@ =~= with_element_sums(old(sum)@, a@, b@, i + 1));
    }
}

/// Adds `a` and `b` element by element into `sum`, for three slices of one
/// length, stated as a single condition.
pub fn add_two_slices_assert2(a: &[u32], b: &[u32], sum: &mut [u32])
    requires
        a.len() == b.len() && a.len() == old(sum).len(),
        element_sums_fit(a@, b@, a.len() as int),
    ensures
        final(sum)@ == with_element_sums(old(sum)@, a@, b@, a.len() as int),
{
    for i in 0..a.len()
        invariant
            a.len() == b.len() && a.len() == sum.len(),
            element_sums_fit(a@, b@, a.len() as int),
            sum@ == with_element_sums(old(sum)@, a@, b@, i as int),
    {
        assert(element_sum(a@, b@, i as int) <= u32::MAX);
        sum[i] = a[i] + b[i];
        assert(sum@ =~= with_element_sums(old(sum)@, a@, b@, i + 1));
    }
}

/// Matches the places of `sum` one to one with the elements of `a` and of
/// `b`, and writes each sum to its place until one of the three runs out.
///
/// Any three lengths are accepted.
pub fn add_two_slices_zip(a: &[u32], b: &[u32], sum: &mut [u32])
    requires
        element_sums_fit(
            a@,
            b@,
            shortest(a.len() as int, b.len() as int, old(sum).len() as int),
        ),
    ensures
        final(sum)@ == with_element_sums(
            old(sum)@,
            a@,
            b@,
            shortest(a.len() as int, b.len() as int, old(sum).len() as int),
        ),
{
    let mut n: usize = sum.len();
    if a.len() < n {
        n = a.len();
    }
    if b.len() < n {
        n = b.len();
    }
    for i in 0..n
        invariant
            n == shortest(a.len() as int, b.len() as int, old(sum).len() as int),
            sum.len() == old(sum).len(),
            element_sums_fit(a@, b@, n as int),
            sum@ == with_element_sums(old(sum)@, a@, b@, i as int),
    {
        assert(element_sum(a@, b@, i as int) <= u32::MAX);
        sum[i] = a[i] + b[i];
        assert(sum@ =~= with_element_sums(old(sum)@, a@, b@, i + 1));
    }
}

} // verus!
