//! Rectangles with unsigned sides, and user records.
use vstd::prelude::*;

verus! {

#[derive(Debug)]
pub struct Rectangle {
    pub width: u32,
    pub height: u32,
}

impl Rectangle {
    /// The area; it must fit in a `u32`.
    pub fn area(&self) -> (r: u32)
        requires
            self.width * self.height <= u32::MAX,
        ensures
            r == self.width * self.height,
    {
        self.width * self.height
    }

    /// Whether `other` fits strictly inside this rectangle, side by side.
    pub fn can_hold(&self, other: &Rectangle) -> (r: bool)
        ensures
            r == (self.width > other.width && self.height > other.height),
    {
        self.width > other.width && self.height > other.height
    }

    /// A square with sides of `size`.
    pub fn square(size: u32) -> (r: Rectangle)
        ensures
            r.width == size,
            r.height == size,
    {
        Rectangle { width: size, height: size }
    }
}

/// The area of `rectangle`; it must fit in a `u32`.
pub fn area(rectangle: &Rectangle) -> (r: u32)
    requires
        rectangle.width * rectangle.height <= u32::MAX,
    ensures
        r == rectangle.width * rectangle.height,
{
    rectangle.width * rectangle.height
}

pub struct User {
    pub username: String,
    pub email: String,
    pub sign_in_count: i64,
    pub active: bool,
}

/// A new, active user who has signed in once.
pub fn build_user(email: String, username: String) -> (r: User)
    ensures
        r.email@ == email@,
        r.username@ == username@,
        r.sign_in_count == 1,
        r.active,
{
    User { email, username, sign_in_count: 1, active: true }
}

} // verus!
