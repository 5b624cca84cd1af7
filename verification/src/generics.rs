//! Generic points and functions over type parameters.

use vstd::prelude::*;

verus! {

/// A point whose two coordinates share one type.
pub struct Point<T> {
    pub x: T,
    pub y: T,
}

impl<T> Point<T> {
    /// A borrow of the first coordinate.
    pub fn x(&self) -> (r: &T)
        ensures
            *r == self.x,
    {
        &self.x
    }
}

/// A point whose two coordinates may have different types.
pub struct MultiPoint<T, U> {
    pub x: T,
    pub y: U,
}

impl<T, U> MultiPoint<T, U> {
    /// Mixes two points: the first coordinate of this one with the second
    /// coordinate of the other.
    pub fn mixup<V, W>(self, other: MultiPoint<V, W>) -> (r: MultiPoint<T, W>)
        ensures
            r.x == self.x,
            r.y == other.y,
    {
        MultiPoint { x: self.x, y: other.y }
    }
}

/// A function whose interest lies in its bounds, not its body: it accepts
/// any displayable, cloneable `t` and any cloneable, debuggable `u`, and
/// returns zero.
pub fn some_function<T, U>(t: &T, u: &U) -> (r: i32) where
    T: core::fmt::Display + Clone,
    U: Clone + core::fmt::Debug,

    ensures
        r == 0,
{
    let _ = t;
    let _ = u;
    0
}

} // verus!
