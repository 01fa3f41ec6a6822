//! Methods on rectangles: `&self` methods and methods with more parameters.
use vstd::prelude::*;

verus! {

/// A rectangle with an `area` method.
#[derive(Debug, Clone, Copy, PartialEq, Eq, Structural)]
pub struct Rectangle {
    pub width: u32,
    pub height: u32,
}

impl Rectangle {
    /// The product of width and height.
    pub open spec fn spec_area(&self) -> int {
        self.width as int * self.height as int
    }

    /// The rectangle's area.
    pub fn area(&self) -> (r: u32)
        requires
            self.spec_area() <= u32::MAX,
        ensures
            r == self.spec_area(),
    {
        self.width * self.height
    }
}

/// A rectangle whose method shares its name with a field.
#[derive(Debug, Clone, Copy, PartialEq, Eq, Structural)]
pub struct Rec {
    pub width: u32,
    pub height: u32,
}

impl Rec {
    /// Whether the width is nonzero.
    pub fn width(&self) -> (r: bool)
        ensures
            r == (self.width > 0),
    {
        self.width > 0
    }
}

/// A rectangle that can tell whether it holds another.
#[derive(Debug, Clone, Copy, PartialEq, Eq, Structural)]
pub struct Rectangle2 {
    pub width: u32,
    pub height: u32,
}

impl Rectangle2 {
    /// The product of width and height.
    pub open spec fn spec_area(&self) -> int {
        self.width as int * self.height as int
    }

    /// `self` is strictly wider and strictly taller than `other`.
    pub open spec fn holds(&self, other: &Rectangle2) -> bool {
        self.width > other.width && self.height > other.height
    }

    /// The rectangle's area.
    pub fn area(&self) -> (r: u32)
        requires
            self.spec_area() <= u32::MAX,
        ensures
            r == self.spec_area(),
    {
        self.width * self.height
    }

    /// Whether `another` fits strictly inside `self`.
    pub fn can_hold(&self, another: &Rectangle2) -> (r: bool)
        ensures
            r == self.holds(another),
    {
        self.width > another.width && self.height > another.height
    }
}

/// The area of a 30 by 50 `Rectangle`, by its method.
pub fn methods() -> (r: u32)
    ensures
        r == 1500,
{
    let rect1 = Rectangle { width: 30, height: 50 };
    rect1.area()
}

/// Whether a 30 by 50 `Rec` has a nonzero width.
pub fn methods2() -> (r: bool)
    ensures
        r,
{
    let rect1 = Rec { width: 30, height: 50 };
    rect1.width()
}

/// Whether a 30 by 50 rectangle holds a 10 by 40 one, and whether it holds
/// a 60 by 45 one.
pub fn methods3() -> (r: (bool, bool))
    ensures
        r == (true, false),
{
    let rect1 = Rectangle2 { width: 30, height: 50 };
    let rect2 = Rectangle2 { width: 10, height: 40 };
    let rect3 = Rectangle2 { width: 60, height: 45 };
    (rect1.can_hold(&rect2), rect1.can_hold(&rect3))
}

} // verus!
