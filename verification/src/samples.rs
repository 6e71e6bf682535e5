//! A rectangle that can hold another, a sum and a greeting.

use vstd::prelude::*;

verus! {

/// A rectangle with whole-numbered sides.
#[derive(Debug)]
pub struct Rectangle {
    pub width: u32,
    pub height: u32,
}

impl Rectangle {
    /// Whether `other` fits inside this rectangle with room to spare on both
    /// sides.
    pub fn can_hold(&self, other: &Rectangle) -> (holds: bool)
        ensures
            holds == (self.width > other.width && self.height > other.height),
    {
        self.width > other.width && self.height > other.height
    }

    /// A rectangle of the given width and height. The width must not reach
    /// from one to under two times the height: such a rectangle counts as a
    /// square and is not made.
    pub fn new(width: u32, height: u32) -> (rectangle: Rectangle)
        requires
            height != 0,
            width / height != 1,
        ensures
            rectangle.width == width,
            rectangle.height == height,
    {
        Rectangle { width, height }
    }
}

/// The sum of two numbers.
pub fn add(left: usize, right: usize) -> (sum: usize)
    requires
        left + right <= usize::MAX,
    ensures
        sum == left + right,
{
    left + right
}

/// A greeting. It is the same for every name.
#[allow(unused_variables)]
pub fn hello(name: &str) -> (greeting: String)
    ensures
        greeting@ == "Hello!"@,
{
    String::from_str("Hello!")
}

} // verus!
