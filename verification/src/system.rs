//! Base module of SFML, defining various utilities.
//!
//! It provides the vector type that the graphics module is stated over.

use vstd::prelude::*;

verus! {

/// A point or an offset in the plane, in fixed-point coordinates.
#[derive(Clone, Copy, Debug, PartialEq, Eq, Structural)]
pub struct Vector2 {
    /// X coordinate of the vector.
    pub x: i64,
    /// Y coordinate of the vector.
    pub y: i64,
}

impl Vector2 {
    /// Creates a new vector from its coordinates.
    pub fn new(x: i64, y: i64) -> (vector: Vector2)
        ensures
            vector == (Vector2 { x, y }),
    {
        Vector2 { x, y }
    }
}

impl Default for Vector2 {
    /// The origin.
    fn default() -> (vector: Vector2)
        ensures
            vector == (Vector2 { x: 0, y: 0 }),
    {
        Vector2 { x: 0, y: 0 }
    }
}

} // verus!
