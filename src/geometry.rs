use embedded_graphics::prelude::{Point as EgPoint, Size as EgSize};
use embedded_graphics::primitives::Rectangle as EgRectangle;
use vstd::prelude::*;

verus! {

/// A point in pixel coordinates. The x axis grows to the right and the y axis grows downwards.
#[derive(Clone, Copy, Debug, PartialEq, Eq, Structural)]
pub struct Point {
    pub x: i32,
    pub y: i32,
}

/// A width and a height in pixels.
#[derive(Clone, Copy, Debug, PartialEq, Eq, Structural)]
pub struct Size {
    pub width: u32,
    pub height: u32,
}

/// An axis-aligned rectangle: the pixels `top_left.x <= x < top_left.x + width` and
/// `top_left.y <= y < top_left.y + height`.
#[derive(Clone, Copy, Debug, PartialEq, Eq, Structural)]
pub struct Rectangle {
    pub top_left: Point,
    pub size: Size,
}

impl Point {
    pub fn new(x: i32, y: i32) -> (r: Point)
        ensures
            r.x == x,
            r.y == y,
    {
        Point { x, y }
    }

    pub fn zero() -> (r: Point)
        ensures
            r.x == 0,
            r.y == 0,
    {
        Point { x: 0, y: 0 }
    }
}

impl Size {
    pub fn new(width: u32, height: u32) -> (r: Size)
        ensures
            r.width == width,
            r.height == height,
    {
        Size { width, height }
    }
}

impl Rectangle {
    pub fn new(top_left: Point, size: Size) -> (r: Rectangle)
        ensures
            r.top_left == top_left,
            r.size == size,
    {
        Rectangle { top_left, size }
    }

    /// Whether the pixel `(x, y)` lies inside this rectangle.
    pub open spec fn contains(self, x: int, y: int) -> bool {
        &&& self.top_left.x <= x < self.top_left.x + self.size.width
        &&& self.top_left.y <= y < self.top_left.y + self.size.height
    }

    /// A rectangle that covers no pixel.
    pub open spec fn is_zero_sized(self) -> bool {
        self.size.width == 0 || self.size.height == 0
    }

    /// The far edges of the rectangle are representable as `i32` coordinates.
    pub open spec fn fits(self) -> bool {
        &&& self.size.width <= i32::MAX
        &&& self.size.height <= i32::MAX
        &&& self.top_left.x + self.size.width <= i32::MAX
        &&& self.top_left.y + self.size.height <= i32::MAX
    }
}

pub open spec fn max_i32(a: i32, b: i32) -> i32 {
    if a >= b { a } else { b }
}

pub open spec fn min_int(a: int, b: int) -> int {
    if a <= b { a } else { b }
}

/// The rectangle covering the pixels shared by `a` and `b`, when both cover some pixel and
/// they overlap.
pub open spec fn overlap(a: Rectangle, b: Rectangle) -> Rectangle {
    let left = max_i32(a.top_left.x, b.top_left.x);
    let top = max_i32(a.top_left.y, b.top_left.y);
    let right = min_int(a.top_left.x + a.size.width, b.top_left.x + b.size.width);
    let bottom = min_int(a.top_left.y + a.size.height, b.top_left.y + b.size.height);
    Rectangle {
        top_left: Point { x: left, y: top },
        size: Size { width: (right - left) as u32, height: (bottom - top) as u32 },
    }
}

/// Whether two rectangles share at least one pixel.
pub open spec fn overlaps(a: Rectangle, b: Rectangle) -> bool {
    &&& !a.is_zero_sized()
    &&& !b.is_zero_sized()
    &&& max_i32(a.top_left.x, b.top_left.x) < min_int(
        a.top_left.x + a.size.width,
        b.top_left.x + b.size.width,
    )
    &&& max_i32(a.top_left.y, b.top_left.y) < min_int(
        a.top_left.y + a.size.height,
        b.top_left.y + b.size.height,
    )
}

/// Relies on embedded-graphics' `Rectangle::intersection`: the overlapping part of two
/// rectangles, or a zero-sized rectangle when they share no pixel.
#[verifier::external_body]
pub(crate) fn intersection(a: &Rectangle, b: &Rectangle) -> (r: Rectangle)
    requires
        a.fits(),
        b.fits(),
    ensures
        overlaps(*a, *b) ==> r == overlap(*a, *b),
        !overlaps(*a, *b) ==> r.is_zero_sized(),
{
    let eg = |r: &Rectangle|
        EgRectangle::new(
            EgPoint::new(r.top_left.x, r.top_left.y),
            EgSize::new(r.size.width, r.size.height),
        );
    let r = eg(a).intersection(&eg(b));
    Rectangle::new(Point::new(r.top_left.x, r.top_left.y), Size::new(r.size.width, r.size.height))
}

} // verus!
