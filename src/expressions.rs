//! Values computed by `if`, nested `if` and `loop ... break value`.
use vstd::prelude::*;

verus! {

/// `1` when `flag` holds, else `2`.
pub fn if_expression(flag: bool) -> (r: i32)
    ensures
        r == if flag { 1i32 } else { 2i32 },
{
    let x: i32 = if flag {
        1
    } else {
        2
    };
    x
}

/// The branch taken for `x == 5` inside the branch for `x == 5`.
pub fn nested_if() -> (r: i32)
    ensures
        r == 2,
{
    let x: i32 = 5;
    if x == 5 {
        if x == 6 {
            1
        } else {
            2
        }
    } else {
        3
    }
}

/// Counts up from 5 and breaks at 10 with twice the counter.
pub fn break_with_value() -> (r: i32)
    ensures
        r == 20,
{
    let mut x: i32 = 5;
    let mut y: i32 = 0;
    loop
        invariant_except_break
            5 <= x < 10,
        ensures
            y == 20,
        decreases 10 - x,
    {
        x += 1;
        if x == 10 {
            y = x * 2;
            break;
        }
    }
    y
}

} // verus!
