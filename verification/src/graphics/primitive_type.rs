//! Primitive types.

use vstd::prelude::*;

verus! {

/// Types of primitives that a render target can draw.
///
/// Points and lines have no area, therefore their thickness will always be 1
/// pixel, regardless of the current transform and view.
#[derive(Clone, Copy, Debug, PartialEq, Eq, Structural)]
pub enum PrimitiveType {
    /// List of individual points
    Points,
    /// List of individual lines
    Lines,
    /// List of connected lines, a point uses the previous point to form a line
    LineStrip,
    /// List of individual triangles
    Triangles,
    /// List of connected triangles, a point uses the two previous points to form a triangle
    TriangleStrip,
    /// List of connected triangles, a point uses the common center
    /// and the previous point to form a triangle
    TriangleFan,
}

} // verus!
