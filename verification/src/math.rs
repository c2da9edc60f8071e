use vstd::prelude::*;

verus! {

/// Namespace for the scalar helpers.
pub struct Math;

impl Math {
    /// The magnitude of an integer.
    pub open spec fn spec_abs_i32(value: int) -> int {
        if value < 0 {
            -value
        } else {
            value
        }
    }

    /// Gets the absolute value of the number.
    ///
    /// The smallest `i32` has no positive counterpart, so it is left out.
    pub fn abs_i32(value: i32) -> (result: i32)
        requires
            value != i32::MIN,
        ensures
            result == Self::spec_abs_i32(value as int),
    {
        if value < 0 {
            -value
        } else {
            value
        }
    }
}

} // verus!
