//! Computing a rectangle's area from loose values, a tuple, and a struct.
use vstd::prelude::*;

verus! {

/// A rectangle given by its width and height.
#[derive(Debug, Clone, Copy, PartialEq, Eq, Structural)]
pub struct Rectangle {
    pub width: u32,
    pub height: u32,
}

/// The area of a `width` by `height` rectangle.
pub open spec fn area_of(width: u32, height: u32) -> int {
    width as int * height as int
}

/// The area of a rectangle of the given width and height.
pub fn area(width: u32, height: u32) -> (r: u32)
    requires
        area_of(width, height) <= u32::MAX,
    ensures
        r == area_of(width, height),
{
    width * height
}

/// The area of a rectangle given as a `(width, height)` pair.
pub fn refactored_area(dimensions: (u32, u32)) -> (r: u32)
    requires
        area_of(dimensions.0, dimensions.1) <= u32::MAX,
    ensures
        r == area_of(dimensions.0, dimensions.1),
{
    dimensions.0 * dimensions.1
}

/// The area of a `Rectangle`.
pub fn structs_area(rectangle: &Rectangle) -> (r: u32)
    requires
        area_of(rectangle.width, rectangle.height) <= u32::MAX,
    ensures
        r == area_of(rectangle.width, rectangle.height),
{
    rectangle.width * rectangle.height
}

/// The area of a 30 by 50 rectangle, from two loose values.
pub fn structs_data() -> (r: u32)
    ensures
        r == 1500,
{
    let width1: u32 = 30;
    let height1: u32 = 50;
    area(width1, height1)
}

/// The area of a 30 by 50 rectangle, from a tuple.
pub fn refactoring_tuples() -> (r: u32)
    ensures
        r == 1500,
{
    let rect1: (u32, u32) = (30, 50);
    refactored_area(rect1)
}

/// The area of a 30 by 50 rectangle, from a `Rectangle`.
pub fn refactored_structs() -> (r: u32)
    ensures
        r == 1500,
{
    let rect1 = Rectangle { width: 30, height: 50 };
    structs_area(&rect1)
}

/// The 30 by 50 rectangle whose debug form is shown.
pub fn derived_traits() -> (r: Rectangle)
    ensures
        r.width == 30,
        r.height == 50,
{
    Rectangle { width: 30, height: 50 }
}

/// A rectangle whose width is 30 scaled by 2, and whose height is 50.
pub fn derived_impls() -> (r: Rectangle)
    ensures
        r.width == 60,
        r.height == 50,
{
    let scale: u32 = 2;
    Rectangle { width: 30 * scale, height: 50 }
}

} // verus!
