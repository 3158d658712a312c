//! A box that holds one value, and a linked list of integers.
use vstd::prelude::*;

verus! {

pub struct MyBox<T>(T);

impl<T> MyBox<T> {
    pub closed spec fn inner(&self) -> T {
        self.0
    }

    /// A box holding `x`.
    pub fn new(x: T) -> (r: MyBox<T>)
        ensures
            r.inner() == x,
    {
        MyBox(x)
    }

    /// The value in the box.
    pub fn value(&self) -> (r: &T)
        ensures
            *r == self.inner(),
    {
        &self.0
    }
}

#[derive(Debug)]
pub enum List {
    Cons(i32, Box<List>),
    Nil,
}

} // verus!
