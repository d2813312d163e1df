//! Integer arithmetic offered to the embedded runtime.

use vstd::prelude::*;

verus! {

/// Adds two 32-bit integers.
///
/// The sum has to fit in an `i32`; the caller rules out the rest.
pub fn add(a: i32, b: i32) -> (sum: i32)
    requires
        i32::MIN <= a + b <= i32::MAX,
    ensures
        sum == a + b,
{
    a + b
}

} // verus!
