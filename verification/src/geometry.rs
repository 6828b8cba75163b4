//! Plain geometric value types used by the decoder.

use vstd::prelude::*;

verus! {

/// A 2D point, in pixels, relative to the top left corner of the image.
#[derive(Copy, Clone, Debug, PartialEq, Eq, Structural, Default)]
pub struct Point {
    /// Horizontal coordinate.
    pub x: i32,
    /// Vertical coordinate.
    pub y: i32,
}

impl Point {
    /// Creates a new point.
    pub fn new(x: i32, y: i32) -> (r: Self)
        ensures
            r == (Point { x, y }),
    {
        Point { x, y }
    }
}

/// The dimensions of an image, in pixels.
#[derive(Copy, Clone, Debug, PartialEq, Eq, Structural, Default)]
pub struct Size {
    /// Width in pixels.
    pub width: u32,
    /// Height in pixels.
    pub height: u32,
}

impl Size {
    /// Creates a new size.
    pub fn new(width: u32, height: u32) -> (r: Self)
        ensures
            r == (Size { width, height }),
    {
        Size { width, height }
    }
}

} // verus!
