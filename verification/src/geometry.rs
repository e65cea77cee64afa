//! Points, sizes and rectangles of the shared logical coordinate space.

use vstd::prelude::*;

verus! {

/// A location in the shared logical coordinate space.
#[derive(Clone, Copy, Debug, PartialEq, Eq, Structural)]
pub struct Point {
    pub x: i32,
    pub y: i32,
}

/// An extent in logical coordinates.
#[derive(Clone, Copy, Debug, PartialEq, Eq, Structural)]
pub struct Size {
    pub w: i32,
    pub h: i32,
}

/// A placed extent: a window geometry or a damage region.
#[derive(Clone, Copy, Debug, PartialEq, Eq, Structural)]
pub struct Rect {
    pub loc: Point,
    pub size: Size,
}

/// Whether a mathematical coordinate is representable as an `i32`.
pub open spec fn fits(v: int) -> bool {
    -0x8000_0000 <= v && v < 0x8000_0000
}

} // verus!
