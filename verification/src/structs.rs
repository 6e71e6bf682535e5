//! A rectangle and four ways to ask for its area.

use vstd::prelude::*;

verus! {

/// A rectangle with whole-numbered sides.
#[derive(Debug, PartialEq, Eq, Copy, Clone, Structural)]
pub struct Rectangle {
    pub height: u32,
    pub width: u32,
}

impl Rectangle {
    /// The area: height times width.
    pub open spec fn area(&self) -> nat {
        (self.height * self.width) as nat
    }

    /// The square with sides of `size`.
    pub open spec fn square_of(size: u32) -> Rectangle {
        Rectangle { width: size, height: size }
    }

    /// The area of the rectangle.
    pub fn calculate_area(&self) -> (area: u32)
        requires
            self.area() <= u32::MAX,
        ensures
            area == self.area(),
    {
        self.height() * self.width
    }

    /// The height of the rectangle.
    pub fn height(&self) -> (height: u32)
        ensures
            height == self.height,
    {
        self.height
    }

    /// The square with sides of `size`.
    pub fn square(size: u32) -> (square: Rectangle)
        ensures
            square == Rectangle::square_of(size),
    {
        Rectangle { width: size, height: size }
    }
}

/// The area of a rectangle given by its width and its height.
pub fn calculate_area(width: u32, height: u32) -> (area: u32)
    requires
        width * height <= u32::MAX,
    ensures
        area == width * height,
{
    width * height
}

/// The area of a rectangle given as a pair of width and height.
pub fn calculate_area_tuple(rec: (u32, u32)) -> (area: u32)
    requires
        rec.0 * rec.1 <= u32::MAX,
    ensures
        area == rec.0 * rec.1,
{
    rec.0 * rec.1
}

/// The area of a rectangle that the function takes over.
pub fn calculate_area_struct(rec: Rectangle) -> (area: u32)
    requires
        rec.area() <= u32::MAX,
    ensures
        area == rec.area(),
{
    rec.height * rec.width
}

/// The area of a rectangle that the function borrows.
pub fn calculate_area_struct_borrow(rec: &Rectangle) -> (area: u32)
    requires
        rec.area() <= u32::MAX,
    ensures
        area == rec.area(),
{
    rec.height * rec.width
}

/// A rectangle of a given width and height has the area width times height,
/// whichever way it is made: from its two sides, as a pair of them, or, with
/// equal sides, as a square.
pub proof fn lemma_area_whatever_the_construction(width: u32, height: u32)
    ensures
        (Rectangle { width, height }).area() == width * height,
        (Rectangle { height, width }).area() == width * height,
        ({
            let pair = (width, height);
            pair.0 * pair.1 == width * height
        }),
        width == height ==> Rectangle::square_of(width).area() == width * height,
{
    assert(height * width == width * height) by (nonlinear_arith);
}

} // verus!
