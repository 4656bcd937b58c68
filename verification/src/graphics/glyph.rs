//! Glyphs.

use vstd::prelude::*;
use crate::graphics::rect::{IntRect, Rect};

verus! {

/// Structure describing a glyph.
///
/// A glyph is the visual representation of a character: its bounding box
/// relative to the baseline, the pen movement it causes and its place in the
/// font's texture.
#[derive(Clone, Copy, Debug, PartialEq, Eq, Structural)]
pub struct Glyph {
    /// Offset to move horizontally to the next character.
    pub advance: i64,
    /// Bounding rectangle of the glyph, in coordinates relative to the baseline.
    pub bounds: Rect,
    /// Texture coordinates of the glyph inside the font's texture, in whole pixels.
    pub texture_rect: IntRect,
}

impl Glyph {
    /// The glyph of a character that a font does not have: it covers nothing
    /// and does not move the pen.
    pub open spec fn blank() -> Glyph {
        Glyph {
            advance: 0,
            bounds: Rect { left: 0, top: 0, width: 0, height: 0 },
            texture_rect: IntRect { left: 0, top: 0, width: 0, height: 0 },
        }
    }

    /// Bounding rectangle of the glyph, in coordinates relative to the baseline.
    pub fn bounds(&self) -> (bounds: Rect)
        ensures
            bounds == self.bounds,
    {
        self.bounds
    }

    /// Texture coordinates of the glyph inside the font's texture.
    pub fn texture_rect(&self) -> (rect: IntRect)
        ensures
            rect == self.texture_rect,
    {
        self.texture_rect
    }

    /// Offset to move horizontally to the next character.
    pub fn advance(&self) -> (advance: i64)
        ensures
            advance == self.advance,
    {
        self.advance
    }
}

impl Default for Glyph {
    /// The blank glyph.
    fn default() -> (glyph: Glyph)
        ensures
            glyph == Glyph::blank(),
    {
        Glyph { advance: 0, bounds: Rect::default(), texture_rect: IntRect::default() }
    }
}

} // verus!
