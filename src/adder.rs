//! Small arithmetic helpers and a rectangle with positive sides.
use vstd::prelude::*;

verus! {

/// The sum of two counts; the sum must fit in a `u64`.
pub fn add(left: u64, right: u64) -> (r: u64)
    requires
        left + right <= u64::MAX,
    ensures
        r == left + right,
{
    left + right
}

/// `a` plus two; the result must fit in an `i32`.
pub fn add_two(a: i32) -> (r: i32)
    requires
        a <= i32::MAX - 2,
    ensures
        r == a + 2,
{
    a + 2
}

/// A rectangle whose sides are meant to be positive.
pub struct Rectangle {
    pub width: i32,
    pub height: i32,
}

impl Rectangle {
    /// A rectangle with the given sides; both must be positive.
    pub fn new(width: i32, height: i32) -> (r: Rectangle)
        requires
            width > 0,
            height > 0,
        ensures
            r.width == width,
            r.height == height,
    {
        Rectangle { width, height }
    }

    /// Whether `other` fits strictly inside this rectangle, side by side.
    pub fn can_hold(&self, other: &Rectangle) -> (r: bool)
        ensures
            r == (self.width > other.width && self.height > other.height),
    {
        self.width > other.width && self.height > other.height
    }
}

} // verus!
