//! 2D graphics module: text, vertices, transforms.

use vstd::prelude::*;

pub mod color;
pub mod font;
pub mod glyph;
pub mod layout;
pub mod metric_keys;
pub mod primitive_type;
pub mod rect;
pub mod text;
pub mod text_style;
pub mod transform;
pub mod transformable;
pub mod vertex;

pub use self::color::Color;
pub use self::font::{Font, FontView, GlyphKey, KerningKey, LineMetrics};
pub use self::glyph::Glyph;
pub use self::metric_keys::{metric_keys, MetricKeys};
pub use self::primitive_type::PrimitiveType;
pub use self::text::{DrawCall, Text, TextView};
pub use self::text_style::TextStyle;
pub use self::transform::Transform;
pub use self::rect::{IntRect, Rect};
pub use self::transformable::{Rotation, TransformChange, Transformable, TransformableData};
pub use self::vertex::Vertex;

use crate::fixed::{saturate, saturated};

verus! {

/// The least x coordinate among the positions of a non-empty vertex sequence.
pub open spec fn least_x(vertices: Seq<Vertex>) -> int
    decreases vertices.len(),
{
    if vertices.len() <= 1 {
        vertices[0].position.x as int
    } else {
        let rest = least_x(vertices.drop_last());
        if vertices.last().position.x < rest {
            vertices.last().position.x as int
        } else {
            rest
        }
    }
}

/// The greatest x coordinate among the positions of a non-empty vertex sequence.
pub open spec fn greatest_x(vertices: Seq<Vertex>) -> int
    decreases vertices.len(),
{
    if vertices.len() <= 1 {
        vertices[0].position.x as int
    } else {
        let rest = greatest_x(vertices.drop_last());
        if vertices.last().position.x > rest {
            vertices.last().position.x as int
        } else {
            rest
        }
    }
}

/// The least y coordinate among the positions of a non-empty vertex sequence.
pub open spec fn least_y(vertices: Seq<Vertex>) -> int
    decreases vertices.len(),
{
    if vertices.len() <= 1 {
        vertices[0].position.y as int
    } else {
        let rest = least_y(vertices.drop_last());
        if vertices.last().position.y < rest {
            vertices.last().position.y as int
        } else {
            rest
        }
    }
}

/// The greatest y coordinate among the positions of a non-empty vertex sequence.
pub open spec fn greatest_y(vertices: Seq<Vertex>) -> int
    decreases vertices.len(),
{
    if vertices.len() <= 1 {
        vertices[0].position.y as int
    } else {
        let rest = greatest_y(vertices.drop_last());
        if vertices.last().position.y > rest {
            vertices.last().position.y as int
        } else {
            rest
        }
    }
}

/// The bounding rectangle of a vertex sequence: the zero rectangle where it is
/// empty, else the rectangle from the least to the greatest coordinates.
pub open spec fn bounding_rect(vertices: Seq<Vertex>) -> Rect {
    if vertices.len() == 0 {
        Rect { left: 0, top: 0, width: 0, height: 0 }
    } else {
        Rect {
            left: least_x(vertices) as i64,
            top: least_y(vertices) as i64,
            width: saturated(greatest_x(vertices) - least_x(vertices)),
            height: saturated(greatest_y(vertices) - least_y(vertices)),
        }
    }
}

/// Every vertex lies between the extremes of its sequence.
pub proof fn lemma_extremes_enclose(vertices: Seq<Vertex>, i: int)
    requires
        0 <= i < vertices.len(),
    ensures
        least_x(vertices) <= vertices[i].position.x <= greatest_x(vertices),
        least_y(vertices) <= vertices[i].position.y <= greatest_y(vertices),
    decreases vertices.len(),
{
    if vertices.len() > 1 && i < vertices.len() - 1 {
        lemma_extremes_enclose(vertices.drop_last(), i);
    }
}

/// Each extreme of a non-empty sequence is the coordinate of one of its
/// vertices, so no smaller rectangle contains them all.
pub proof fn lemma_extremes_are_attained(vertices: Seq<Vertex>)
    requires
        vertices.len() > 0,
    ensures
        exists|i: int| 0 <= i < vertices.len() && (#[trigger] vertices[i]).position.x == least_x(vertices),
        exists|i: int| 0 <= i < vertices.len() && (#[trigger] vertices[i]).position.x == greatest_x(vertices),
        exists|i: int| 0 <= i < vertices.len() && (#[trigger] vertices[i]).position.y == least_y(vertices),
        exists|i: int| 0 <= i < vertices.len() && (#[trigger] vertices[i]).position.y == greatest_y(vertices),
    decreases vertices.len(),
{
    if vertices.len() <= 1 {
        assert(vertices[0].position.x == least_x(vertices));
        assert(vertices[0].position.y == least_y(vertices));
    } else {
        let rest = vertices.drop_last();
        lemma_extremes_are_attained(rest);
        let last = vertices.len() - 1;
        let a = choose|i: int| 0 <= i < rest.len() && (#[trigger] rest[i]).position.x == least_x(rest);
        let b = choose|i: int| 0 <= i < rest.len() && (#[trigger] rest[i]).position.x == greatest_x(rest);
        let c = choose|i: int| 0 <= i < rest.len() && (#[trigger] rest[i]).position.y == least_y(rest);
        let d = choose|i: int| 0 <= i < rest.len() && (#[trigger] rest[i]).position.y == greatest_y(rest);
        assert(vertices[a] == rest[a] && vertices[b] == rest[b] && vertices[c] == rest[c]
            && vertices[d] == rest[d]);
        assert(vertices[last] == vertices.last());
        assert(vertices[a].position.x == least_x(vertices) || vertices[last].position.x
            == least_x(vertices));
        assert(vertices[b].position.x == greatest_x(vertices) || vertices[last].position.x
            == greatest_x(vertices));
        assert(vertices[c].position.y == least_y(vertices) || vertices[last].position.y
            == least_y(vertices));
        assert(vertices[d].position.y == greatest_y(vertices) || vertices[last].position.y
            == greatest_y(vertices));
    }
}

/// Compute the bounding rectangle of the vertex array.
///
/// This function returns the minimal axis-aligned rectangle that contains all
/// the vertices of the array: its left and top are the least coordinates that
/// occur, its width and height the distances to the greatest ones. For an empty
/// array it is the zero rectangle.
#[must_use]
pub fn vertex_array_bounds(vertices: &[Vertex]) -> (bounds: Rect)
    ensures
        bounds == bounding_rect(vertices@),
{
    if vertices.len() == 0 {
        return Rect::default();
    }
    let first = vertices[0].position;
    let mut left: i64 = first.x;
    let mut top: i64 = first.y;
    let mut right: i64 = first.x;
    let mut bottom: i64 = first.y;
    assert(vertices@.take(1).len() == 1);
    for index in 1..vertices.len()
        invariant
            left == least_x(vertices@.take(index as int)),
            right == greatest_x(vertices@.take(index as int)),
            top == least_y(vertices@.take(index as int)),
            bottom == greatest_y(vertices@.take(index as int)),
            left <= right,
            top <= bottom,
    {
        let pos = vertices[index].position;
        proof {
            let longer = vertices@.take(index + 1);
            assert(longer.drop_last() =~= vertices@.take(index as int));
            assert(longer.last() == vertices@[index as int]);
        }
        // Update left and right
        if pos.x < left {
            left = pos.x;
        } else if pos.x > right {
            right = pos.x;
        }
        // Update top and bottom
        if pos.y < top {
            top = pos.y;
        } else if pos.y > bottom {
            bottom = pos.y;
        }
    }
    assert(vertices@.take(vertices@.len() as int) =~= vertices@);
    Rect::new(
        left,
        top,
        saturate(right as i128 - left as i128),
        saturate(bottom as i128 - top as i128),
    )
}

} // verus!
