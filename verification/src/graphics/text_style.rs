//! Text styles.

use vstd::prelude::*;

verus! {

/// Available text styles: a set of the four capabilities bold, italic,
/// underlined and strike-through. The empty set is the regular style.
#[derive(Clone, Copy, Debug, PartialEq, Eq, Structural)]
pub struct TextStyle {
    /// Bold characters.
    pub bold: bool,
    /// Italic characters.
    pub italic: bool,
    /// Underlined characters.
    pub underlined: bool,
    /// Strike through characters.
    pub strikethrough: bool,
}

impl TextStyle {
    /// Regular characters, no style.
    pub fn regular() -> (style: TextStyle)
        ensures
            style == (TextStyle { bold: false, italic: false, underlined: false, strikethrough: false }),
    {
        TextStyle { bold: false, italic: false, underlined: false, strikethrough: false }
    }

    /// Bold characters.
    pub fn bold() -> (style: TextStyle)
        ensures
            style == (TextStyle { bold: true, italic: false, underlined: false, strikethrough: false }),
    {
        TextStyle { bold: true, italic: false, underlined: false, strikethrough: false }
    }

    /// Italic characters.
    pub fn italic() -> (style: TextStyle)
        ensures
            style == (TextStyle { bold: false, italic: true, underlined: false, strikethrough: false }),
    {
        TextStyle { bold: false, italic: true, underlined: false, strikethrough: false }
    }

    /// Underlined characters.
    pub fn underlined() -> (style: TextStyle)
        ensures
            style == (TextStyle { bold: false, italic: false, underlined: true, strikethrough: false }),
    {
        TextStyle { bold: false, italic: false, underlined: true, strikethrough: false }
    }

    /// Strike through characters.
    pub fn strikethrough() -> (style: TextStyle)
        ensures
            style == (TextStyle { bold: false, italic: false, underlined: false, strikethrough: true }),
    {
        TextStyle { bold: false, italic: false, underlined: false, strikethrough: true }
    }

    /// The style that has the capabilities of both.
    pub open spec fn spec_union(self, other: TextStyle) -> TextStyle {
        TextStyle {
            bold: self.bold || other.bold,
            italic: self.italic || other.italic,
            underlined: self.underlined || other.underlined,
            strikethrough: self.strikethrough || other.strikethrough,
        }
    }

    /// Whether `self` has every capability of `other`.
    pub open spec fn spec_contains(self, other: TextStyle) -> bool {
        &&& other.bold ==> self.bold
        &&& other.italic ==> self.italic
        &&& other.underlined ==> self.underlined
        &&& other.strikethrough ==> self.strikethrough
    }

    /// The style that has the capabilities of both.
    #[verifier::when_used_as_spec(spec_union)]
    pub fn union(self, other: TextStyle) -> (style: TextStyle)
        ensures
            style == self.spec_union(other),
    {
        TextStyle {
            bold: self.bold || other.bold,
            italic: self.italic || other.italic,
            underlined: self.underlined || other.underlined,
            strikethrough: self.strikethrough || other.strikethrough,
        }
    }

    /// Whether `self` has every capability of `other`.
    #[verifier::when_used_as_spec(spec_contains)]
    pub fn contains(self, other: TextStyle) -> (contained: bool)
        ensures
            contained == self.spec_contains(other),
    {
        (!other.bold || self.bold) && (!other.italic || self.italic) && (!other.underlined
            || self.underlined) && (!other.strikethrough || self.strikethrough)
    }
}

} // verus!
