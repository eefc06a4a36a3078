//! Rectangles with integer sides.

use vstd::prelude::*;

verus! {

/// The area that a product of two sides is reported as: the product itself
/// where it is not negative, and otherwise the product reduced into the range
/// of `usize`.
pub open spec fn area_of(width: i32, height: i32) -> int {
    if width * height >= 0 {
        width * height
    } else {
        width * height + usize::MAX + 1
    }
}

/// Whether the product of two sides can be computed in 32 bits.
pub open spec fn sides_fit(width: i32, height: i32) -> bool {
    i32::MIN <= width * height <= i32::MAX
}

/// A rectangle, given by its two sides.
#[derive(Clone, Copy, Debug, PartialEq, Eq, Structural)]
pub struct Rectangle {
    pub width: i32,
    pub height: i32,
}

impl Rectangle {
    /// The area of the rectangle.
    pub fn area(&self) -> (r: usize)
        requires
            sides_fit(self.width, self.height),
        ensures
            r == area_of(self.width, self.height),
    {
        area_with_variables(self.width, self.height)
    }

    /// Whether `rec` fits inside this rectangle with room to spare on both
    /// sides.
    pub fn can_hold(&self, rec: &Rectangle) -> (r: bool)
        ensures
            r == (self.width > rec.width && self.height > rec.height),
    {
        self.width > rec.width && self.height > rec.height
    }

    /// The square with the given side.
    pub fn square(size: i32) -> (r: Self)
        ensures
            r.width == size,
            r.height == size,
    {
        Self { height: size, width: size }
    }
}

/// The area of a rectangle given by its two sides.
pub fn area_with_variables(width: i32, height: i32) -> (r: usize)
    requires
        sides_fit(width, height),
    ensures
        r == area_of(width, height),
{
    let product: i32 = width * height;
    if product >= 0 {
        product as usize
    } else {
        usize::MAX - ((-(product + 1)) as usize)
    }
}

/// The area of a rectangle given by its two sides as a pair.
pub fn area_with_tuple(dimensions: (i32, i32)) -> (r: usize)
    requires
        sides_fit(dimensions.0, dimensions.1),
    ensures
        r == area_of(dimensions.0, dimensions.1),
{
    area_with_variables(dimensions.0, dimensions.1)
}

} // verus!
