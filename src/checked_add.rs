//! Addition restricted to non-negative operands.
use vstd::prelude::*;

verus! {

/// Sum of two non-negative integers. Negative operands are outside the
/// domain of this function.
pub fn my_add(a: i32, b: i32) -> (r: i32)
    requires
        a >= 0,
        b >= 0,
        a + b <= i32::MAX,
    ensures
        r == a + b,
{
    a + b
}

} // verus!
