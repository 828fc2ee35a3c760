//! One failure, many shapes: an append that fails for want of spare capacity
//! and reports it through a range of error types, each with three kinds of
//! success value.

use crate::vec_push::push_below;
use vstd::prelude::*;

pub mod ok_is_i32;
pub mod ok_is_string;
pub mod ok_is_unit;

verus! {

/// An error that carries nothing.
#[derive(Debug, PartialEq, Eq)]
pub struct SimpleError;

/// An error that is one of a few bare cases.
#[derive(Debug, PartialEq, Eq)]
pub enum EnumError {
    A,
    B,
    OutOfMemory,
}

/// An error whose cases may carry data that needs no clean-up.
#[derive(Debug, PartialEq, Eq)]
pub enum ErrorWithData {
    StaticStr(&'static str),
    A(i32),
    B,
    C,
}

/// An error whose cases may carry data that owns memory.
#[derive(Debug, PartialEq, Eq)]
pub enum ErrorWithDropData {
    String(String),
    StaticStr(&'static str),
    Other,
}

/// Appends `x` to `v` if and only if `v` holds fewer than `limit` elements.
/// If it did, the result is `Ok(good)`; if not, `v` is as it was and the
/// result is `Err(bad)`.
///
/// Every fallible append of this family is this function with `limit` at the
/// capacity of `v`, and with its own two values.
pub fn push_below_or<T, E>(v: &mut Vec<u32>, x: u32, limit: usize, good: T, bad: E) -> (r: Result<
    T,
    E,
>)
    ensures
        old(v).len() < limit ==> r == Ok::<T, E>(good) && final(v)@ == old(v)@.push(x),
        old(v).len() >= limit ==> r == Err::<T, E>(bad) && final(v)@ == old(v)@,
{
    if push_below(v, x, limit) {
        Ok(good)
    } else {
        Err(bad)
    }
}

/// The text that the errors with a message carry.
pub open spec fn out_of_memory_text() -> Seq<char> {
    "Out of memory"@
}

} // verus!
