//! Integer points, sizes and rectangles.
use vstd::prelude::*;

verus! {

/// A width and a height.
#[derive(Copy, Clone, Debug, PartialEq, PartialOrd)]
pub struct Size {
    pub width: i32,
    pub height: i32,
}

impl Size {
    /// Componentwise sum of two sizes.
    pub fn _add(&self, size: Size) -> (r: Size)
        requires
            i32::MIN <= self.width + size.width <= i32::MAX,
            i32::MIN <= self.height + size.height <= i32::MAX,
        ensures
            r.width == self.width + size.width,
            r.height == self.height + size.height,
    {
        Size { width: self.width + size.width, height: self.height + size.height }
    }

    /// Componentwise difference of two sizes.
    pub fn _subtract(&self, size: Size) -> (r: Size)
        requires
            i32::MIN <= self.width - size.width <= i32::MAX,
            i32::MIN <= self.height - size.height <= i32::MAX,
        ensures
            r.width == self.width - size.width,
            r.height == self.height - size.height,
    {
        Size { width: self.width - size.width, height: self.height - size.height }
    }
}

/// A position on the integer plane.
#[derive(Copy, Clone, Debug, PartialEq, PartialOrd)]
pub struct Point {
    pub x: i32,
    pub y: i32,
}

impl Point {
    /// Componentwise sum of two points.
    pub fn add(&self, pt: Point) -> (r: Point)
        requires
            i32::MIN <= self.x + pt.x <= i32::MAX,
            i32::MIN <= self.y + pt.y <= i32::MAX,
        ensures
            r.x == self.x + pt.x,
            r.y == self.y + pt.y,
    {
        Point { x: self.x + pt.x, y: self.y + pt.y }
    }

    /// Componentwise difference of two points.
    pub fn subtract(&self, pt: Point) -> (r: Point)
        requires
            i32::MIN <= self.x - pt.x <= i32::MAX,
            i32::MIN <= self.y - pt.y <= i32::MAX,
        ensures
            r.x == self.x - pt.x,
            r.y == self.y - pt.y,
    {
        Point { x: self.x - pt.x, y: self.y - pt.y }
    }

    /// The size spanned from the origin to this point.
    pub fn to_size(&self) -> (r: Size)
        ensures
            r.width == self.x,
            r.height == self.y,
    {
        Size { width: self.x, height: self.y }
    }
}

/// An origin and a size.
#[derive(Copy, Clone, Debug, PartialEq, PartialOrd)]
pub struct Rectangle {
    pub origin: Point,
    pub size: Size,
}

impl Rectangle {
    /// Whether the rectangle has neither positive width nor positive height.
    pub fn empty(&self) -> (r: bool)
        ensures
            r == (self.size.width <= 0 && self.size.height <= 0),
    {
        self.size.width <= 0 && self.size.height <= 0
    }
}

} // verus!
