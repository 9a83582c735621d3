//! Dispatch over an optional value: the present case is transformed and the
//! absent case passes through.

use vstd::prelude::*;

verus! {

/// Increments a present value and passes an absent one through unchanged.
/// The largest value is excluded so that the increment cannot overflow.
pub fn plus_one(x: Option<i32>) -> (incremented: Option<i32>)
    requires
        x matches Some(i) ==> i < i32::MAX,
    ensures
        x is None <==> incremented is None,
        x matches Some(i) ==> incremented matches Some(j) && j == i + 1,
{
    match x {
        None => None,
        Some(i) => Some(i + 1),
    }
}

} // verus!
