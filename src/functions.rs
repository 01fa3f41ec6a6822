//! Functions: blocks as expressions, and returning a value.
use vstd::prelude::*;

verus! {

/// The value of a block that binds `x` to 5 and ends in the expression
/// `x + 1`.
pub fn statements_expressions() -> (y: i32)
    ensures
        y == 6,
{
    let y: i32 = {
        let x: i32 = 5;
        x + 1
    };
    y
}

/// One more than `x`; the last expression of the body is the value.
pub fn plus_one(x: i32) -> (r: i32)
    requires
        x < i32::MAX,
    ensures
        r == x + 1,
{
    x + 1
}

} // verus!
