//! A point in the plane, with `+` for adding another point or a number to
//! both of its coordinates.

use vstd::prelude::*;
use vstd::std_specs::ops::AddSpecImpl;

verus! {

/// A point in the plane.
#[derive(Debug, Copy, Clone, PartialEq, Eq, Structural)]
pub struct Point {
    pub x: i32,
    pub y: i32,
}

/// `v` is a value of `i32`.
pub open spec fn fits_i32(v: int) -> bool {
    i32::MIN <= v <= i32::MAX
}

impl core::ops::Add for Point {
    type Output = Point;

    /// The sum of two points, coordinate by coordinate. The operands are
    /// taken by value and stay as they were.
    fn add(self, other: Point) -> (sum: Point)
        ensures
            sum.x == self.x + other.x,
            sum.y == self.y + other.y,
    {
        Point { x: self.x + other.x, y: self.y + other.y }
    }
}

impl AddSpecImpl for Point {
    open spec fn obeys_add_spec() -> bool {
        true
    }

    /// Both sums must be values of `i32`.
    open spec fn add_req(self, other: Point) -> bool {
        fits_i32(self.x + other.x) && fits_i32(self.y + other.y)
    }

    open spec fn add_spec(self, other: Point) -> Point {
        Point { x: (self.x + other.x) as i32, y: (self.y + other.y) as i32 }
    }
}

impl core::ops::Add<i32> for Point {
    type Output = Point;

    /// The point with `amount` added to both of its coordinates. The
    /// operands are taken by value and stay as they were.
    fn add(self, amount: i32) -> (sum: Point)
        ensures
            sum.x == self.x + amount,
            sum.y == self.y + amount,
    {
        Point { x: self.x + amount, y: self.y + amount }
    }
}

impl AddSpecImpl<i32> for Point {
    open spec fn obeys_add_spec() -> bool {
        true
    }

    /// Both sums must be values of `i32`.
    open spec fn add_req(self, amount: i32) -> bool {
        fits_i32(self.x + amount) && fits_i32(self.y + amount)
    }

    open spec fn add_spec(self, amount: i32) -> Point {
        Point { x: (self.x + amount) as i32, y: (self.y + amount) as i32 }
    }
}

} // verus!
