//! Vertices.

use vstd::prelude::*;
use crate::graphics::color::Color;
use crate::system::Vector2;

verus! {

/// Define a point with color and texture coordinates.
///
/// Vertices come in groups of six, two triangles for each quad, and are drawn
/// as a triangle list.
#[derive(Clone, Copy, Debug, PartialEq, Eq, Structural)]
pub struct Vertex {
    /// 2D position of the vertex
    pub position: Vector2,
    /// Color of the vertex.
    pub color: Color,
    /// Coordinates of the texture's pixel to map to the vertex.
    pub tex_coords: Vector2,
}

impl Vertex {
    /// Create a new Vertex.
    pub fn new(position: Vector2, color: Color, tex_coords: Vector2) -> (vertex: Vertex)
        ensures
            vertex == (Vertex { position, color, tex_coords }),
    {
        Vertex { position, color, tex_coords }
    }
}

} // verus!
