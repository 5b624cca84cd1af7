//! Rectangles: areas, containment, squares.

use vstd::prelude::*;

verus! {

/// An axis-aligned rectangle given by its side lengths in pixels.
#[derive(Debug)]
pub struct Rectangle {
    pub width: u32,
    pub height: u32,
}

/// The area of a rectangle, as a free function taking a borrowed argument.
pub fn area(rect: &Rectangle) -> (a: u32)
    requires
        rect.width * rect.height <= u32::MAX,
    ensures
        a == rect.width * rect.height,
{
    rect.width * rect.height
}

impl Rectangle {
    /// The area of this rectangle.
    pub fn area(&self) -> (a: u32)
        requires
            self.width * self.height <= u32::MAX,
        ensures
            a == self.width * self.height,
    {
        self.width * self.height
    }

    /// Whether `other` fits strictly inside this rectangle.
    pub fn can_hold(&self, other: &Rectangle) -> (b: bool)
        ensures
            b == (self.width > other.width && self.height > other.height),
    {
        self.width > other.width && self.height > other.height
    }

    /// A square with the given side length.
    pub fn square(size: u32) -> (r: Rectangle)
        ensures
            r.width == size,
            r.height == size,
    {
        Rectangle { height: size, width: size }
    }
}

} // verus!
