//! Axis-aligned rectangles.

use vstd::prelude::*;

verus! {

/// A rectangle in fixed-point coordinates, given by its top-left corner and its
/// size.
#[derive(Clone, Copy, Debug, PartialEq, Eq, Structural)]
pub struct Rect {
    /// Left coordinate of the rectangle.
    pub left: i64,
    /// Top coordinate of the rectangle.
    pub top: i64,
    /// Width of the rectangle.
    pub width: i64,
    /// Height of the rectangle.
    pub height: i64,
}

impl Rect {
    /// Construct a rectangle from its coordinates.
    pub fn new(left: i64, top: i64, width: i64, height: i64) -> (rect: Rect)
        ensures
            rect == (Rect { left, top, width, height }),
    {
        Rect { left, top, width, height }
    }
}

impl Default for Rect {
    /// The zero rectangle.
    fn default() -> (rect: Rect)
        ensures
            rect == (Rect { left: 0, top: 0, width: 0, height: 0 }),
    {
        Rect { left: 0, top: 0, width: 0, height: 0 }
    }
}

/// A rectangle in whole pixels, such as a region of a texture.
#[derive(Clone, Copy, Debug, PartialEq, Eq, Structural)]
pub struct IntRect {
    /// Left coordinate of the rectangle.
    pub left: i32,
    /// Top coordinate of the rectangle.
    pub top: i32,
    /// Width of the rectangle.
    pub width: i32,
    /// Height of the rectangle.
    pub height: i32,
}

impl IntRect {
    /// Construct a rectangle from its coordinates.
    pub fn new(left: i32, top: i32, width: i32, height: i32) -> (rect: IntRect)
        ensures
            rect == (IntRect { left, top, width, height }),
    {
        IntRect { left, top, width, height }
    }
}

impl Default for IntRect {
    /// The zero rectangle.
    fn default() -> (rect: IntRect)
        ensures
            rect == (IntRect { left: 0, top: 0, width: 0, height: 0 }),
    {
        IntRect { left: 0, top: 0, width: 0, height: 0 }
    }
}

} // verus!
