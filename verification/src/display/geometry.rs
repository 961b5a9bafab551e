//! Plain integer geometry for a pixel display: points, sizes, rectangles and
//! the two colours of a monochrome panel.
use vstd::prelude::*;

verus! {

/// A pixel position; `y` grows downward.
#[derive(Debug, Clone, Copy, PartialEq, Eq, Structural)]
pub struct Point {
    pub x: i32,
    pub y: i32,
}

/// A width and height in pixels.
#[derive(Debug, Clone, Copy, PartialEq, Eq, Structural)]
pub struct Size {
    pub width: u32,
    pub height: u32,
}

/// An axis-aligned rectangle given by its top-left corner and its size.
#[derive(Debug, Clone, Copy, PartialEq, Eq, Structural)]
pub struct Rectangle {
    pub top_left: Point,
    pub size: Size,
}

/// The colour of one pixel of a monochrome display.
#[derive(Debug, Clone, Copy, PartialEq, Eq, Structural)]
pub enum BinaryColor {
    Off,
    On,
}

pub open spec fn spec_point(x: i32, y: i32) -> Point {
    Point { x, y }
}

pub open spec fn spec_size(width: u32, height: u32) -> Size {
    Size { width, height }
}

pub open spec fn spec_rect(top_left: Point, size: Size) -> Rectangle {
    Rectangle { top_left, size }
}

/// The bound on coordinates and sizes within which the layout arithmetic of
/// the widgets and screens stays far from the limits of `i32` and `u32`.
pub const LAYOUT_LIMIT: i32 = 0x10_0000;

/// Whether the corner of `r` is within `corner` of the origin on each axis
/// and its width and height are at most `extent`.
pub open spec fn rect_bounded(r: Rectangle, corner: int, extent: int) -> bool {
    &&& -corner <= r.top_left.x <= corner
    &&& -corner <= r.top_left.y <= corner
    &&& r.size.width <= extent
    &&& r.size.height <= extent
}

/// Whether the corner and the size of `r` are within `LAYOUT_LIMIT`.
pub open spec fn rect_in_limit(r: Rectangle) -> bool {
    rect_bounded(r, LAYOUT_LIMIT as int, LAYOUT_LIMIT as int)
}

impl Point {
    pub fn new(x: i32, y: i32) -> (r: Self)
        ensures
            r == spec_point(x, y),
    {
        Point { x, y }
    }
}

impl Size {
    pub fn new(width: u32, height: u32) -> (r: Self)
        ensures
            r == spec_size(width, height),
    {
        Size { width, height }
    }
}

impl Rectangle {
    pub fn new(top_left: Point, size: Size) -> (r: Self)
        ensures
            r == spec_rect(top_left, size),
    {
        Rectangle { top_left, size }
    }

    /// Whether the corner and the size are within `LAYOUT_LIMIT`.
    pub fn in_layout_limit(&self) -> (r: bool)
        ensures
            r == rect_in_limit(*self),
    {
        -LAYOUT_LIMIT <= self.top_left.x && self.top_left.x <= LAYOUT_LIMIT
            && -LAYOUT_LIMIT <= self.top_left.y && self.top_left.y <= LAYOUT_LIMIT
            && self.size.width <= LAYOUT_LIMIT as u32 && self.size.height <= LAYOUT_LIMIT as u32
    }
}

impl BinaryColor {
    pub open spec fn spec_invert(self) -> BinaryColor {
        match self {
            BinaryColor::Off => BinaryColor::On,
            BinaryColor::On => BinaryColor::Off,
        }
    }

    /// The other colour.
    pub fn invert(self) -> (r: BinaryColor)
        ensures
            r == self.spec_invert(),
    {
        match self {
            BinaryColor::Off => BinaryColor::On,
            BinaryColor::On => BinaryColor::Off,
        }
    }
}

} // verus!
