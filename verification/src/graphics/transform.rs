//! Transforms.

use vstd::prelude::*;
use crate::fixed::{
    floor_div, greater, lesser, saturate, saturated, scaled_difference, scaled_pair_difference,
    scaled_pair_sum, scaled_sum, scaled_sum3, scaled_triple_sum, ONE,
};
use crate::graphics::rect::Rect;
use crate::system::Vector2;

verus! {

/// Define a 3x3 transform matrix, row by row.
///
/// The two upper rows map points; in a transform of the plane the last row is
/// `0, 0, 1`. The entries of the last column of the upper rows are lengths, all
/// others are factors.
#[derive(Clone, Copy, Debug, PartialEq, Eq, Structural)]
pub struct Transform {
    /// Element (0, 0) of the matrix
    pub a00: i64,
    /// Element (0, 1) of the matrix
    pub a01: i64,
    /// Element (0, 2) of the matrix
    pub a02: i64,
    /// Element (1, 0) of the matrix
    pub a10: i64,
    /// Element (1, 1) of the matrix
    pub a11: i64,
    /// Element (1, 2) of the matrix
    pub a12: i64,
    /// Element (2, 0) of the matrix
    pub a20: i64,
    /// Element (2, 1) of the matrix
    pub a21: i64,
    /// Element (2, 2) of the matrix
    pub a22: i64,
}

impl Transform {
    /// The transform that leaves every point where it is.
    pub open spec fn identity() -> Transform {
        Transform {
            a00: ONE,
            a01: 0,
            a02: 0,
            a10: 0,
            a11: ONE,
            a12: 0,
            a20: 0,
            a21: 0,
            a22: ONE,
        }
    }

    /// Where the transform takes a point: `(a00 x + a01 y + a02, a10 x + a11 y +
    /// a12)`, the products rounded down together.
    pub open spec fn apply(self, point: Vector2) -> Vector2 {
        Vector2 {
            x: saturated(
                scaled_sum(self.a00 as int, point.x as int, self.a01 as int, point.y as int)
                    + self.a02,
            ),
            y: saturated(
                scaled_sum(self.a10 as int, point.x as int, self.a11 as int, point.y as int)
                    + self.a12,
            ),
        }
    }

    /// The element of the matrix product of two transforms that comes from the
    /// row `(left0, left1, left2)` of the first and the column `(up0, up1, up2)`
    /// of the second.
    pub open spec fn product_entry(left0: i64, left1: i64, left2: i64, up0: i64, up1: i64, up2: i64) -> i64 {
        saturated(
            scaled_sum3(
                left0 as int,
                up0 as int,
                left1 as int,
                up1 as int,
                left2 as int,
                up2 as int,
            ),
        )
    }

    /// The matrix product of `self` and `other`: the transform that applies
    /// `other` first and `self` then.
    pub open spec fn combined(self, other: Transform) -> Transform {
        Transform {
            a00: Self::product_entry(self.a00, self.a01, self.a02, other.a00, other.a10, other.a20),
            a01: Self::product_entry(self.a00, self.a01, self.a02, other.a01, other.a11, other.a21),
            a02: Self::product_entry(self.a00, self.a01, self.a02, other.a02, other.a12, other.a22),
            a10: Self::product_entry(self.a10, self.a11, self.a12, other.a00, other.a10, other.a20),
            a11: Self::product_entry(self.a10, self.a11, self.a12, other.a01, other.a11, other.a21),
            a12: Self::product_entry(self.a10, self.a11, self.a12, other.a02, other.a12, other.a22),
            a20: Self::product_entry(self.a20, self.a21, self.a22, other.a00, other.a10, other.a20),
            a21: Self::product_entry(self.a20, self.a21, self.a22, other.a01, other.a11, other.a21),
            a22: Self::product_entry(self.a20, self.a21, self.a22, other.a02, other.a12, other.a22),
        }
    }

    /// A minor of a matrix: `a b - c d`, rounded down.
    pub open spec fn minor(a: i64, b: i64, c: i64, d: i64) -> i64 {
        saturated(scaled_difference(a as int, b as int, c as int, d as int))
    }

    /// The determinant of the matrix, expanded along its first row.
    pub open spec fn determinant(self) -> int {
        scaled_sum3(
            self.a00 as int,
            Self::minor(self.a11, self.a22, self.a12, self.a21) as int,
            self.a01 as int,
            Self::minor(self.a12, self.a20, self.a10, self.a22) as int,
            self.a02 as int,
            Self::minor(self.a10, self.a21, self.a11, self.a20) as int,
        )
    }

    /// The fixed-point quotient of a minor by a determinant that is not 0,
    /// rounded down.
    pub open spec fn over(minor: i64, determinant: int) -> i64 {
        if determinant > 0 {
            saturated((minor * ONE) / determinant)
        } else {
            saturated((-(minor * ONE)) / (-determinant))
        }
    }

    /// The inverse of the transform: the transposed matrix of its cofactors,
    /// each over the determinant. A transform whose determinant is 0 has no
    /// inverse; in place of one it has the identity.
    pub open spec fn inverted(self) -> Transform {
        let d = self.determinant();
        if d == 0 {
            Transform::identity()
        } else {
            Transform {
                a00: Self::over(Self::minor(self.a11, self.a22, self.a12, self.a21), d),
                a01: Self::over(Self::minor(self.a02, self.a21, self.a01, self.a22), d),
                a02: Self::over(Self::minor(self.a01, self.a12, self.a02, self.a11), d),
                a10: Self::over(Self::minor(self.a12, self.a20, self.a10, self.a22), d),
                a11: Self::over(Self::minor(self.a00, self.a22, self.a02, self.a20), d),
                a12: Self::over(Self::minor(self.a02, self.a10, self.a00, self.a12), d),
                a20: Self::over(Self::minor(self.a10, self.a21, self.a11, self.a20), d),
                a21: Self::over(Self::minor(self.a01, self.a20, self.a00, self.a21), d),
                a22: Self::over(Self::minor(self.a00, self.a11, self.a01, self.a10), d),
            }
        }
    }

    /// The least rectangle with sides along the axes that holds the images of
    /// the four corners of `rect`.
    pub open spec fn apply_rect(self, rect: Rect) -> Rect {
        let right = saturated(rect.left + rect.width);
        let bottom = saturated(rect.top + rect.height);
        let top_left = self.apply(Vector2 { x: rect.left, y: rect.top });
        let bottom_left = self.apply(Vector2 { x: rect.left, y: bottom });
        let top_right = self.apply(Vector2 { x: right, y: rect.top });
        let bottom_right = self.apply(Vector2 { x: right, y: bottom });
        let min_x = lesser(lesser(lesser(top_left.x, bottom_left.x), top_right.x), bottom_right.x);
        let max_x = greater(greater(greater(top_left.x, bottom_left.x), top_right.x), bottom_right.x);
        let min_y = lesser(lesser(lesser(top_left.y, bottom_left.y), top_right.y), bottom_right.y);
        let max_y = greater(greater(greater(top_left.y, bottom_left.y), top_right.y), bottom_right.y);
        Rect {
            left: min_x,
            top: min_y,
            width: saturated(max_x - min_x),
            height: saturated(max_y - min_y),
        }
    }

    /// Creates a new transform from a 3x3 matrix.
    ///
    /// # Arguments
    ///
    /// - *a00* : Element (0, 0) of the matrix
    /// - *a01* : Element (0, 1) of the matrix
    /// - *a02* : Element (0, 2) of the matrix
    /// - *a10* : Element (1, 0) of the matrix
    /// - *a11* : Element (1, 1) of the matrix
    /// - *a12* : Element (1, 2) of the matrix
    /// - *a20* : Element (2, 0) of the matrix
    /// - *a21* : Element (2, 1) of the matrix
    /// - *a22* : Element (2, 2) of the matrix
    pub fn new(
        a00: i64,
        a01: i64,
        a02: i64,
        a10: i64,
        a11: i64,
        a12: i64,
        a20: i64,
        a21: i64,
        a22: i64,
    ) -> (transform: Transform)
        ensures
            transform == (Transform { a00, a01, a02, a10, a11, a12, a20, a21, a22 }),
    {
        Transform { a00, a01, a02, a10, a11, a12, a20, a21, a22 }
    }

    /// Applies the transform to a 2D point.
    pub fn transform_point(&self, point: Vector2) -> (image: Vector2)
        ensures
            image == self.apply(point),
    {
        let x: i128 = point.x as i128;
        let y: i128 = point.y as i128;
        Vector2 {
            x: saturate(scaled_pair_sum(self.a00 as i128, x, self.a01 as i128, y) + self.a02 as i128),
            y: saturate(scaled_pair_sum(self.a10 as i128, x, self.a11 as i128, y) + self.a12 as i128),
        }
    }

    /// One element of a matrix product.
    fn entry(left0: i64, left1: i64, left2: i64, up0: i64, up1: i64, up2: i64) -> (element: i64)
        ensures
            element == Self::product_entry(left0, left1, left2, up0, up1, up2),
    {
        saturate(
            scaled_triple_sum(
                left0 as i128,
                up0 as i128,
                left1 as i128,
                up1 as i128,
                left2 as i128,
                up2 as i128,
            ),
        )
    }

    /// Combines the transform with another one.
    ///
    /// The result is a transform that is equivalent to applying `other` first
    /// and `self` then: mathematically, the matrix product of `self` and `other`.
    pub fn combine(&mut self, other: &Transform)
        ensures
            *final(self) == old(self).combined(*other),
    {
        let a = *self;
        let b = *other;
        *self = Transform {
            a00: Self::entry(a.a00, a.a01, a.a02, b.a00, b.a10, b.a20),
            a01: Self::entry(a.a00, a.a01, a.a02, b.a01, b.a11, b.a21),
            a02: Self::entry(a.a00, a.a01, a.a02, b.a02, b.a12, b.a22),
            a10: Self::entry(a.a10, a.a11, a.a12, b.a00, b.a10, b.a20),
            a11: Self::entry(a.a10, a.a11, a.a12, b.a01, b.a11, b.a21),
            a12: Self::entry(a.a10, a.a11, a.a12, b.a02, b.a12, b.a22),
            a20: Self::entry(a.a20, a.a21, a.a22, b.a00, b.a10, b.a20),
            a21: Self::entry(a.a20, a.a21, a.a22, b.a01, b.a11, b.a21),
            a22: Self::entry(a.a20, a.a21, a.a22, b.a02, b.a12, b.a22),
        };
    }

    /// One minor of the matrix.
    fn cofactor(a: i64, b: i64, c: i64, d: i64) -> (value: i64)
        ensures
            value == Self::minor(a, b, c, d),
    {
        saturate(scaled_pair_difference(a as i128, b as i128, c as i128, d as i128))
    }

    /// A minor over the determinant.
    fn ratio(minor: i64, determinant: i128) -> (value: i64)
        requires
            determinant != 0,
            -0xc000_0000_0000_0000_0000_0000_0000 <= determinant <= 0xc000_0000_0000_0000_0000_0000_0000,
        ensures
            value == Self::over(minor, determinant as int),
    {
        assert(minor * ONE == minor * 65536);
        let scaled: i128 = minor as i128 * (ONE as i128);
        if determinant > 0 {
            saturate(floor_div(scaled, determinant))
        } else {
            saturate(floor_div(-scaled, -determinant))
        }
    }

    /// Return the inverse of the transform.
    ///
    /// If the inverse cannot be computed, an identity transform is returned.
    pub fn inverse(&self) -> (inverse: Transform)
        ensures
            inverse == self.inverted(),
    {
        let c00 = Self::cofactor(self.a11, self.a22, self.a12, self.a21);
        let c01 = Self::cofactor(self.a12, self.a20, self.a10, self.a22);
        let c02 = Self::cofactor(self.a10, self.a21, self.a11, self.a20);
        let determinant: i128 = scaled_triple_sum(
            self.a00 as i128,
            c00 as i128,
            self.a01 as i128,
            c01 as i128,
            self.a02 as i128,
            c02 as i128,
        );
        if determinant == 0 {
            return Transform::default();
        }
        Transform {
            a00: Self::ratio(c00, determinant),
            a01: Self::ratio(Self::cofactor(self.a02, self.a21, self.a01, self.a22), determinant),
            a02: Self::ratio(Self::cofactor(self.a01, self.a12, self.a02, self.a11), determinant),
            a10: Self::ratio(c01, determinant),
            a11: Self::ratio(Self::cofactor(self.a00, self.a22, self.a02, self.a20), determinant),
            a12: Self::ratio(Self::cofactor(self.a02, self.a10, self.a00, self.a12), determinant),
            a20: Self::ratio(c02, determinant),
            a21: Self::ratio(Self::cofactor(self.a01, self.a20, self.a00, self.a21), determinant),
            a22: Self::ratio(Self::cofactor(self.a00, self.a11, self.a01, self.a10), determinant),
        }
    }

    /// Transforms a rectangle.
    ///
    /// Since rectangles stay aligned with the axes, the result is the bounding
    /// rectangle of the transformed corners.
    pub fn transform_rect(&self, rect: Rect) -> (image: Rect)
        ensures
            image == self.apply_rect(rect),
    {
        let right: i64 = saturate(rect.left as i128 + rect.width as i128);
        let bottom: i64 = saturate(rect.top as i128 + rect.height as i128);
        let top_left = self.transform_point(Vector2 { x: rect.left, y: rect.top });
        let bottom_left = self.transform_point(Vector2 { x: rect.left, y: bottom });
        let top_right = self.transform_point(Vector2 { x: right, y: rect.top });
        let bottom_right = self.transform_point(Vector2 { x: right, y: bottom });
        let mut min_x: i64 = top_left.x;
        let mut max_x: i64 = top_left.x;
        let mut min_y: i64 = top_left.y;
        let mut max_y: i64 = top_left.y;
        if bottom_left.x < min_x {
            min_x = bottom_left.x;
        }
        if top_right.x < min_x {
            min_x = top_right.x;
        }
        if bottom_right.x < min_x {
            min_x = bottom_right.x;
        }
        if bottom_left.x > max_x {
            max_x = bottom_left.x;
        }
        if top_right.x > max_x {
            max_x = top_right.x;
        }
        if bottom_right.x > max_x {
            max_x = bottom_right.x;
        }
        if bottom_left.y < min_y {
            min_y = bottom_left.y;
        }
        if top_right.y < min_y {
            min_y = top_right.y;
        }
        if bottom_right.y < min_y {
            min_y = bottom_right.y;
        }
        if bottom_left.y > max_y {
            max_y = bottom_left.y;
        }
        if top_right.y > max_y {
            max_y = top_right.y;
        }
        if bottom_right.y > max_y {
            max_y = bottom_right.y;
        }
        Rect {
            left: min_x,
            top: min_y,
            width: saturate(max_x as i128 - min_x as i128),
            height: saturate(max_y as i128 - min_y as i128),
        }
    }
}

impl Default for Transform {
    /// The identity transform.
    fn default() -> (transform: Transform)
        ensures
            transform == Transform::identity(),
    {
        Transform {
            a00: ONE,
            a01: 0,
            a02: 0,
            a10: 0,
            a11: ONE,
            a12: 0,
            a20: 0,
            a21: 0,
            a22: ONE,
        }
    }
}

/// The identity is its own inverse.
pub proof fn lemma_identity_is_its_own_inverse()
    ensures
        Transform::identity().inverted() == Transform::identity(),
{
    let one = ONE as int;
    assert(one * one == 4294967296) by (nonlinear_arith)
        requires
            one == 65536,
    ;
    assert(Transform::minor(ONE, ONE, 0, 0) == ONE);
    assert(Transform::minor(0, 0, 0, ONE) == 0);
    assert(Transform::minor(0, 0, ONE, 0) == 0);
    assert(Transform::minor(0, 0, 0, 0) == 0);
    assert(Transform::identity().determinant() == ONE);
    assert(Transform::over(ONE, one) == ONE);
    assert(Transform::over(0, one) == 0);
}

/// A translation is undone by the opposite translation, as long as that is in
/// range.
pub proof fn lemma_translation_is_inverted(x: i64, y: i64)
    requires
        x > i64::MIN,
        y > i64::MIN,
    ensures
        (Transform { a02: x, a12: y, ..Transform::identity() }).inverted() == (Transform {
            a02: (-x) as i64,
            a12: (-y) as i64,
            ..Transform::identity()
        }),
{
    let one = ONE as int;
    assert(one * one == 4294967296) by (nonlinear_arith)
        requires
            one == 65536,
    ;
    assert(Transform::minor(ONE, ONE, 0, 0) == ONE);
    assert(Transform::minor(x, 0, 0, ONE) == 0);
    assert(Transform::minor(0, 0, ONE, 0) == 0);
    assert(Transform::minor(0, 0, 0, 0) == 0);
    assert(Transform::minor(0, y, x, ONE) == -x) by {
        assert(0 * y - x * one == -x * one) by (nonlinear_arith);
        assert((-x * one) / one == -x) by (nonlinear_arith)
            requires
                one == 65536,
        ;
    }
    assert(Transform::minor(x, 0, ONE, y) == -y) by {
        assert(x * 0 - one * y == -y * one) by (nonlinear_arith);
        assert((-y * one) / one == -y) by (nonlinear_arith)
            requires
                one == 65536,
        ;
    }
    assert(Transform::minor(y, 0, 0, ONE) == 0);
    assert(Transform::minor(ONE, ONE, x, 0) == ONE) by {
        assert(one * one - x * 0 == one * one) by (nonlinear_arith);
    }
    assert(Transform::minor(ONE, ONE, y, 0) == ONE) by {
        assert(one * one - y * 0 == one * one) by (nonlinear_arith);
    }
    let t = Transform { a02: x, a12: y, ..Transform::identity() };
    assert(t.determinant() == ONE) by {
        assert(one * one + 0 * 0 + x * 0 == one * one) by (nonlinear_arith);
    }
    assert(Transform::over(ONE, one) == ONE);
    assert(Transform::over(0, one) == 0);
    assert(Transform::over((-x) as i64, one) == -x) by {
        assert(((-x) * one) / one == -x) by (nonlinear_arith)
            requires
                one == 65536,
        ;
    }
    assert(Transform::over((-y) as i64, one) == -y) by {
        assert(((-y) * one) / one == -y) by (nonlinear_arith)
            requires
                one == 65536,
        ;
    }
}

} // verus!
