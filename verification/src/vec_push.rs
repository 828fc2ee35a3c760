//! Appending to a vector, with and without a check for spare capacity.

use vstd::prelude::*;

verus! {

/// The capacity of `v`, from `Vec::capacity`: the number of elements that the
/// vector can hold without reallocating.
///
/// Not verified. The contract claims only that the capacity is never below
/// the length. What the allocator handed out beyond that is its own
/// business, so two vectors with equal contents may report different
/// capacities.
#[verifier::external_body]
pub(crate) fn capacity_of(v: &Vec<u32>) -> (capacity: usize)
    ensures
        v.len() <= capacity,
{
    v.capacity()
}

/// Appends `x` to `v`, growing the vector where it has to.
pub fn push_simple(v: &mut Vec<u32>, x: u32)
    ensures
        final(v)@ == old(v)@.push(x),
{
    v.push(x);
}

/// Appends `x` to `v` if and only if `v` holds fewer than `limit` elements,
/// and says whether it did. With `limit` at the capacity of `v`, the
/// append never reallocates.
pub fn push_below(v: &mut Vec<u32>, x: u32, limit: usize) -> (pushed: bool)
    ensures
        pushed <==> old(v).len() < limit,
        pushed ==> final(v)@ == old(v)@.push(x) && final(v).len() == old(v).len() + 1,
        !pushed ==> final(v)@ == old(v)@ && final(v).len() == old(v).len(),
{
    if v.len() < limit {
        v.push(x);
        true
    } else {
        false
    }
}

/// Appends `x` to `v` only if `v` has spare capacity, and says whether it
/// did. The vector is never reallocated.
///
/// The capacity is read once, before the append, and decides as
/// [`push_below`] states; whichever way it decides, `v` has either gained
/// exactly `x` at its end or not changed at all.
pub fn push_with_capacity_check(v: &mut Vec<u32>, x: u32) -> (pushed: bool)
    ensures
        pushed ==> final(v)@ == old(v)@.push(x) && final(v).len() == old(v).len() + 1,
        !pushed ==> final(v)@ == old(v)@ && final(v).len() == old(v).len(),
{
    let capacity: usize = capacity_of(v);
    push_below(v, x, capacity)
}

} // verus!
