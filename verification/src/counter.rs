//! Safe movement of the child-count fields.
//!
//! Post counts move through the checked, reported forms below.  Comment-count
//! increment is deliberately different: the operation treats saturation as
//! fatal rather than reported, so `increment` demands room from its caller
//! instead of returning an error.

use vstd::prelude::*;

use crate::errors::BlogError;

verus! {

/// One more than `counter`, or `Overflow` when the counter is saturated.
pub fn checked_increment(counter: u64) -> (r: Result<u64, BlogError>)
    ensures
        counter < u64::MAX ==> r == Ok::<u64, BlogError>((counter + 1) as u64),
        counter == u64::MAX ==> r == Err::<u64, BlogError>(BlogError::Overflow),
{
    match counter.checked_add(1) {
        Some(v) => Ok(v),
        None => Err(BlogError::Overflow),
    }
}

/// One less than `counter`, or `Underflow` when the counter is already zero.
pub fn checked_decrement(counter: u64) -> (r: Result<u64, BlogError>)
    ensures
        counter > 0 ==> r == Ok::<u64, BlogError>((counter - 1) as u64),
        counter == 0 ==> r == Err::<u64, BlogError>(BlogError::Underflow),
{
    match counter.checked_sub(1) {
        Some(v) => Ok(v),
        None => Err(BlogError::Underflow),
    }
}

/// One more than `counter`; saturation is ruled out up front, never reported.
pub fn increment(counter: u64) -> (r: u64)
    requires
        counter < u64::MAX,
    ensures
        r == counter + 1,
{
    counter + 1
}

} // verus!
