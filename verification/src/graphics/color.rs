//! Colors.

use vstd::prelude::*;

verus! {

/// An RGBA color, one byte per component.
#[derive(Clone, Copy, Debug, PartialEq, Eq, Structural)]
pub struct Color {
    /// Red component
    pub r: u8,
    /// Green component
    pub g: u8,
    /// Blue component
    pub b: u8,
    /// Alpha component (transparency)
    pub a: u8,
}

impl Color {
    /// Construct an opaque color from its 3 RGB components.
    pub fn rgb(red: u8, green: u8, blue: u8) -> (color: Color)
        ensures
            color == (Color { r: red, g: green, b: blue, a: 255 }),
    {
        Color { r: red, g: green, b: blue, a: 255 }
    }

    /// Construct a color from its 4 RGBA components.
    pub fn rgba(red: u8, green: u8, blue: u8, alpha: u8) -> (color: Color)
        ensures
            color == (Color { r: red, g: green, b: blue, a: alpha }),
    {
        Color { r: red, g: green, b: blue, a: alpha }
    }
}

} // verus!
