//! The arithmetic helper: adding two unsigned integers.

use vstd::prelude::*;

verus! {

/// Adds two unsigned 32-bit integers and returns the sum as the
/// function's result value.
///
/// The sum must fit in a `u32`; within that limit the result is exactly
/// the mathematical sum of the operands.
pub fn sum(a: u32, b: u32) -> (result: u32)
    requires
        a + b <= u32::MAX,
    ensures
        result == a + b,
{
    let result: u32 = a + b;
    result
}

} // verus!
