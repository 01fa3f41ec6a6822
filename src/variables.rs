//! Variables: constants, and shadowing a binding in an inner scope.
use vstd::prelude::*;

verus! {

/// Named for three hours, though its value, `60 * 60`, is the seconds in one
/// hour.
pub const THREE_HOURS_IN_SECONDS: u32 = 60 * 60;

/// Shadows `x = 5` with `x + 1`, then with twice that inside a block.
/// Returns the value inside the block and the value after it.
pub fn shadowing() -> (r: (i32, i32))
    ensures
        r == (12i32, 6i32),
{
    let x: i32 = 5;
    let x: i32 = x + 1;
    let inner: i32 = {
        let x: i32 = x * 2;
        x
    };
    (inner, x)
}

/// The number of bytes in a run of three spaces, shadowing the text with
/// its length.
pub fn spaces() -> (r: usize)
    ensures
        r == 3,
{
    let spaces = "   ";
    proof {
        reveal_strlit("   ");
        vstd::string::is_ascii_spec_bytes("   ");
    }
    let spaces: usize = spaces.len();
    spaces
}

} // verus!
