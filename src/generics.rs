//! Largest elements, generic points and longest strings.
use vstd::prelude::*;
use vstd::string::*;

verus! {

/// The largest number in a non-empty list.
pub fn largest_i32(list: &[i32]) -> (r: i32)
    requires
        list@.len() > 0,
    ensures
        exists|i: int| 0 <= i < list@.len() && list@[i] == r,
        forall|i: int| 0 <= i < list@.len() ==> list@[i] <= r,
{
    let mut largest = list[0];
    let mut k: usize = 1;
    while k < list.len()
        invariant
            1 <= k <= list@.len(),
            exists|i: int| 0 <= i < k && list@[i] == largest,
            forall|i: int| 0 <= i < k ==> list@[i] <= largest,
        decreases list@.len() - k,
    {
        if list[k] > largest {
            largest = list[k];
        }
        k = k + 1;
    }
    largest
}

/// The largest character, by code point, in a non-empty list.
pub fn largest_char(list: &[char]) -> (r: char)
    requires
        list@.len() > 0,
    ensures
        exists|i: int| 0 <= i < list@.len() && list@[i] == r,
        forall|i: int| 0 <= i < list@.len() ==> (list@[i] as u32) <= (r as u32),
{
    let mut largest = list[0];
    let mut k: usize = 1;
    while k < list.len()
        invariant
            1 <= k <= list@.len(),
            exists|i: int| 0 <= i < k && list@[i] == largest,
            forall|i: int| 0 <= i < k ==> (list@[i] as u32) <= (largest as u32),
        decreases list@.len() - k,
    {
        if (list[k] as u32) > (largest as u32) {
            largest = list[k];
        }
        k = k + 1;
    }
    largest
}

pub struct Point<T, U> {
    pub x: T,
    pub y: U,
}

impl<T, U> Point<T, U> {
    pub fn x(&self) -> (r: &T)
        ensures
            *r == self.x,
    {
        &self.x
    }

    /// A point with this point's `x` and the other point's `y`.
    pub fn mixup<V, W>(self, other: Point<V, W>) -> (r: Point<T, W>)
        ensures
            r.x == self.x,
            r.y == other.y,
    {
        Point { x: self.x, y: other.y }
    }
}

/// The longer of two strings by length in bytes; the second on a tie.
pub fn longest<'a>(str1: &'a str, str2: &'a str) -> (r: &'a str)
    ensures
        r == if str1.len() > str2.len() {
            str1
        } else {
            str2
        },
{
    if str1.len() > str2.len() {
        str1
    } else {
        str2
    }
}

/// A part of some longer text.
pub struct ImportantExcerpt<'a> {
    pub part: &'a str,
}

impl<'a> ImportantExcerpt<'a> {
    pub fn level(&self) -> (r: i32)
        ensures
            r == 3,
    {
        3
    }
}

} // verus!
