//! Addition of points and of lengths, and names for a dog.
use vstd::prelude::*;
use vstd::string::*;

verus! {

#[derive(Clone, Copy, Debug, PartialEq, Eq, Structural)]
pub struct Point {
    pub x: i32,
    pub y: i32,
}

impl Point {
    /// The sum, coordinate by coordinate; each sum must fit in an `i32`.
    pub fn add(self, rhs: Point) -> (r: Point)
        requires
            i32::MIN <= self.x + rhs.x <= i32::MAX,
            i32::MIN <= self.y + rhs.y <= i32::MAX,
        ensures
            r.x == self.x + rhs.x,
            r.y == self.y + rhs.y,
    {
        Point { x: self.x + rhs.x, y: self.y + rhs.y }
    }
}

#[derive(Clone, Copy, Debug, PartialEq, Eq, Structural)]
pub struct Millimeters(pub u32);

#[derive(Clone, Copy, Debug, PartialEq, Eq, Structural)]
pub struct Meters(pub u32);

impl Millimeters {
    /// This length plus `rhs`, in millimetres; the sum must fit in a `u32`.
    pub fn add(self, rhs: Meters) -> (r: Millimeters)
        requires
            self.0 + rhs.0 * 1000 <= u32::MAX,
        ensures
            r.0 == self.0 + rhs.0 * 1000,
    {
        Millimeters(self.0 + rhs.0 * 1000)
    }
}

pub struct Dog;

impl Dog {
    /// The name this dog gives its puppies.
    pub fn baby_name() -> (r: String)
        ensures
            r@ == "Spot"@,
    {
        String::from_str("Spot")
    }
}

} // verus!
