//! The fallible append where success carries the number 333.

use crate::results::{push_below_or, EnumError, ErrorWithData, ErrorWithDropData, SimpleError};
use crate::vec_push::{capacity_of, push_below};
use vstd::prelude::*;

verus! {

/// A status code in the style of a Windows `HRESULT`.
#[allow(non_camel_case_types)]
#[derive(Debug, PartialEq, Eq)]
pub struct HRESULT(pub i32);

impl HRESULT {
    /// The code for "out of memory": the bit pattern `0x8007000E`.
    pub const E_OUTOFMEMORY: i32 = -2147024882;
}

/// A status code in the style of a Windows `NTSTATUS`.
#[allow(non_camel_case_types)]
#[derive(Debug, PartialEq, Eq)]
pub struct NTSTATUS(pub i32);

impl NTSTATUS {
    /// The code for "no memory": the bit pattern `0xC0000017`.
    pub const STATUS_NO_MEMORY: i32 = -1073741801;
}

/// Appends `x` to `v` only if `v` has spare capacity; `true` says it did.
pub fn try_push_returning_bool(v: &mut Vec<u32>, x: u32) -> (pushed: bool)
    ensures
        pushed ==> final(v)@ == old(v)@.push(x),
        !pushed ==> final(v)@ == old(v)@,
{
    let capacity: usize = capacity_of(v);
    push_below(v, x, capacity)
}

/// Appends `x` to `v` only if `v` has spare capacity; fails with
/// [`SimpleError`] and leaves `v` alone otherwise.
pub fn try_push_returning_simple_error(v: &mut Vec<u32>, x: u32) -> (r: Result<i32, SimpleError>)
    ensures
        r is Ok ==> r == Ok::<i32, SimpleError>(333) && final(v)@ == old(v)@.push(x),
        r is Err ==> final(v)@ == old(v)@,
{
    let capacity: usize = capacity_of(v);
    push_below_or(v, x, capacity, 333, SimpleError)
}

/// Appends `x` to `v` only if `v` has spare capacity; fails with
/// `E_OUTOFMEMORY` and leaves `v` alone otherwise.
pub fn try_push_returning_hresult(v: &mut Vec<u32>, x: u32) -> (r: Result<i32, HRESULT>)
    ensures
        r is Ok ==> r == Ok::<i32, HRESULT>(333) && final(v)@ == old(v)@.push(x),
        r is Err ==> r == Err::<i32, HRESULT>(HRESULT(HRESULT::E_OUTOFMEMORY)) && final(v)@ == old(v)@,
{
    let capacity: usize = capacity_of(v);
    push_below_or(v, x, capacity, 333, HRESULT(HRESULT::E_OUTOFMEMORY))
}

/// Appends `x` to `v` only if `v` has spare capacity; fails with a message
/// that needs no clean-up and leaves `v` alone otherwise.
pub fn try_push_returning_data_static_str(v: &mut Vec<u32>, x: u32) -> (r: Result<
    i32,
    ErrorWithData,
>)
    ensures
        r is Ok ==> r == Ok::<i32, ErrorWithData>(333) && final(v)@ == old(v)@.push(x),
        r is Err ==> final(v)@ == old(v)@ && (r->Err_0 matches ErrorWithData::StaticStr(text)
            && text@ == crate::results::out_of_memory_text()),
{
    let capacity: usize = capacity_of(v);
    push_below_or(v, x, capacity, 333, ErrorWithData::StaticStr("Out of memory"))
}

/// Appends `x` to `v` only if `v` has spare capacity; fails with an owned
/// message and leaves `v` alone otherwise.
pub fn try_push_returning_drop_data_string(v: &mut Vec<u32>, x: u32) -> (r: Result<
    i32,
    ErrorWithDropData,
>)
    ensures
        r is Ok ==> r == Ok::<i32, ErrorWithDropData>(333) && final(v)@ == old(v)@.push(x),
        r is Err ==> final(v)@ == old(v)@ && (r->Err_0 matches ErrorWithDropData::String(text)
            && text@ == crate::results::out_of_memory_text()),
{
    // Decided here rather than in `push_below_or`, so that the message is
    // built only where the append fails.
    let capacity: usize = capacity_of(v);
    if push_below(v, x, capacity) {
        Ok(333)
    } else {
        Err(ErrorWithDropData::String("Out of memory".to_string()))
    }
}

/// Appends `x` to `v` only if `v` has spare capacity; fails with the unit
/// value and leaves `v` alone otherwise.
pub fn try_push_returning_unit(v: &mut Vec<u32>, x: u32) -> (r: Result<i32, ()>)
    ensures
        r is Ok ==> r == Ok::<i32, ()>(333) && final(v)@ == old(v)@.push(x),
        r is Err ==> final(v)@ == old(v)@,
{
    let capacity: usize = capacity_of(v);
    push_below_or(v, x, capacity, 333, ())
}

/// Appends `x` to `v` only if `v` has spare capacity; fails with
/// `STATUS_NO_MEMORY` and leaves `v` alone otherwise.
pub fn try_push_returning_ntstatus(v: &mut Vec<u32>, x: u32) -> (r: Result<i32, NTSTATUS>)
    ensures
        r is Ok ==> r == Ok::<i32, NTSTATUS>(333) && final(v)@ == old(v)@.push(x),
        r is Err ==> r == Err::<i32, NTSTATUS>(NTSTATUS(NTSTATUS::STATUS_NO_MEMORY)) && final(v)@
            == old(v)@,
{
    let capacity: usize = capacity_of(v);
    push_below_or(v, x, capacity, 333, NTSTATUS(NTSTATUS::STATUS_NO_MEMORY))
}

/// Appends `x` to `v` only if `v` has spare capacity; fails with
/// [`EnumError::OutOfMemory`] and leaves `v` alone otherwise.
pub fn try_push_enum_error(v: &mut Vec<u32>, x: u32) -> (r: Result<i32, EnumError>)
    ensures
        r is Ok ==> r == Ok::<i32, EnumError>(333) && final(v)@ == old(v)@.push(x),
        r is Err ==> r == Err::<i32, EnumError>(EnumError::OutOfMemory) && final(v)@ == old(v)@,
{
    let capacity: usize = capacity_of(v);
    push_below_or(v, x, capacity, 333, EnumError::OutOfMemory)
}

/// A second entry point with the contract of [`try_push_enum_error`].
pub fn try_push_returning_enum_error(v: &mut Vec<u32>, x: u32) -> (r: Result<i32, EnumError>)
    ensures
        r is Ok ==> r == Ok::<i32, EnumError>(333) && final(v)@ == old(v)@.push(x),
        r is Err ==> r == Err::<i32, EnumError>(EnumError::OutOfMemory) && final(v)@ == old(v)@,
{
    let capacity: usize = capacity_of(v);
    push_below_or(v, x, capacity, 333, EnumError::OutOfMemory)
}

/// Appends `x` to `v` only if `v` has spare capacity; fails with a borrowed
/// message, in an error type that could also own one, and leaves `v` alone
/// otherwise.
pub fn try_push_returning_drop_data_str(v: &mut Vec<u32>, x: u32) -> (r: Result<
    i32,
    ErrorWithDropData,
>)
    ensures
        r is Ok ==> r == Ok::<i32, ErrorWithDropData>(333) && final(v)@ == old(v)@.push(x),
        r is Err ==> final(v)@ == old(v)@ && (r->Err_0 matches ErrorWithDropData::StaticStr(text)
            && text@ == crate::results::out_of_memory_text()),
{
    let capacity: usize = capacity_of(v);
    push_below_or(v, x, capacity, 333, ErrorWithDropData::StaticStr("Out of memory"))
}

/// Appends `x` to `v` only if `v` has spare capacity; fails with the case
/// that carries nothing, in an error type that could own a message, and
/// leaves `v` alone otherwise.
pub fn try_push_returning_drop_data_other(v: &mut Vec<u32>, x: u32) -> (r: Result<
    i32,
    ErrorWithDropData,
>)
    ensures
        r is Ok ==> r == Ok::<i32, ErrorWithDropData>(333) && final(v)@ == old(v)@.push(x),
        r is Err ==> r == Err::<i32, ErrorWithDropData>(ErrorWithDropData::Other) && final(v)@
            == old(v)@,
{
    let capacity: usize = capacity_of(v);
    push_below_or(v, x, capacity, 333, ErrorWithDropData::Other)
}

} // verus!
