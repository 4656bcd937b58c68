//! Decomposed transforms.

use vstd::prelude::*;
use crate::fixed::{
    multiply, saturate, saturated, scaled, scaled_difference, scaled_pair_difference,
    scaled_pair_sum, scaled_product, scaled_sum, ONE,
};
use crate::graphics::transform::Transform;
use crate::system::Vector2;

verus! {

/// An angle of rotation, with its cosine and sine.
///
/// The library evaluates no trigonometric function: whoever makes a rotation
/// gives the cosine and the sine of its angle, as fixed-point numbers.
#[derive(Clone, Copy, Debug, PartialEq, Eq, Structural)]
pub struct Rotation {
    /// The angle, in degrees.
    pub degrees: i64,
    /// The cosine of the angle.
    pub cosine: i64,
    /// The sine of the angle.
    pub sine: i64,
}

impl Rotation {
    /// The rotation by no angle.
    pub open spec fn none() -> Rotation {
        Rotation { degrees: 0, cosine: ONE, sine: 0 }
    }

    /// The rotation by the sum of two angles: the degrees add up, and cosine
    /// and sine follow from the addition theorems.
    pub open spec fn plus(self, other: Rotation) -> Rotation {
        Rotation {
            degrees: saturated(self.degrees + other.degrees),
            cosine: saturated(
                scaled_difference(
                    self.cosine as int,
                    other.cosine as int,
                    self.sine as int,
                    other.sine as int,
                ),
            ),
            sine: saturated(
                scaled_sum(
                    self.sine as int,
                    other.cosine as int,
                    self.cosine as int,
                    other.sine as int,
                ),
            ),
        }
    }

    /// Creates a rotation from its angle in degrees and the cosine and sine of
    /// that angle.
    pub fn new(degrees: i64, cosine: i64, sine: i64) -> (rotation: Rotation)
        ensures
            rotation == (Rotation { degrees, cosine, sine }),
    {
        Rotation { degrees, cosine, sine }
    }

    /// The rotation by the sum of the two angles.
    pub fn add_angle(self, other: Rotation) -> (sum: Rotation)
        ensures
            sum == self.plus(other),
    {
        Rotation {
            degrees: saturate(self.degrees as i128 + other.degrees as i128),
            cosine: saturate(
                scaled_pair_difference(
                    self.cosine as i128,
                    other.cosine as i128,
                    self.sine as i128,
                    other.sine as i128,
                ),
            ),
            sine: saturate(
                scaled_pair_sum(
                    self.sine as i128,
                    other.cosine as i128,
                    self.cosine as i128,
                    other.sine as i128,
                ),
            ),
        }
    }
}

impl Default for Rotation {
    /// The rotation by no angle.
    fn default() -> (rotation: Rotation)
        ensures
            rotation == Rotation::none(),
    {
        Rotation { degrees: 0, cosine: ONE, sine: 0 }
    }
}

/// One change of a decomposed transform.
#[derive(Clone, Copy, Debug, PartialEq, Eq, Structural)]
pub enum TransformChange {
    /// Overwrites the position.
    SetPosition(Vector2),
    /// Overwrites the rotation.
    SetRotation(Rotation),
    /// Overwrites the scale factors.
    SetScale(Vector2),
    /// Overwrites the local origin.
    SetOrigin(Vector2),
    /// Adds an offset to the position.
    Move(Vector2),
    /// Adds an angle to the rotation.
    Rotate(Rotation),
    /// Multiplies the scale factors by further factors.
    Scale(Vector2),
}

/// Decomposed transform defined by an origin, a position, a rotation and a
/// scale.
#[derive(Clone, Copy, Debug, PartialEq, Eq, Structural)]
pub struct TransformableData {
    /// The center point of all transformations, relative to the top-left corner
    /// of the object.
    pub origin: Vector2,
    /// Where the origin of the object is placed.
    pub position: Vector2,
    /// The orientation of the object.
    pub rotation: Rotation,
    /// The scale factors of the object.
    pub scale: Vector2,
}

impl TransformableData {
    /// The decomposed transform of an object that was not moved, rotated or
    /// scaled.
    pub open spec fn initial() -> TransformableData {
        TransformableData {
            origin: Vector2 { x: 0, y: 0 },
            position: Vector2 { x: 0, y: 0 },
            rotation: Rotation::none(),
            scale: Vector2 { x: ONE, y: ONE },
        }
    }

    /// The decomposed transform after one change.
    pub open spec fn after(self, change: TransformChange) -> TransformableData {
        match change {
            TransformChange::SetPosition(position) => TransformableData { position, ..self },
            TransformChange::SetRotation(rotation) => TransformableData { rotation, ..self },
            TransformChange::SetScale(scale) => TransformableData { scale, ..self },
            TransformChange::SetOrigin(origin) => TransformableData { origin, ..self },
            TransformChange::Move(offset) => TransformableData {
                position: Vector2 {
                    x: saturated(self.position.x + offset.x),
                    y: saturated(self.position.y + offset.y),
                },
                ..self
            },
            TransformChange::Rotate(angle) => TransformableData {
                rotation: self.rotation.plus(angle),
                ..self
            },
            TransformChange::Scale(factors) => TransformableData {
                scale: Vector2 {
                    x: saturated(scaled(self.scale.x as int, factors.x as int)),
                    y: saturated(scaled(self.scale.y as int, factors.y as int)),
                },
                ..self
            },
        }
    }

    /// The decomposed transform after a sequence of changes, the first one
    /// first.
    pub open spec fn after_all(self, changes: Seq<TransformChange>) -> TransformableData
        decreases changes.len(),
    {
        if changes.len() == 0 {
            self
        } else {
            self.after_all(changes.drop_last()).after(changes.last())
        }
    }

    /// The scale factor `factor` times the cosine of the angle of the matrix,
    /// which is the angle of rotation turned round.
    pub open spec fn scaled_cosine(self, factor: i64) -> i64 {
        saturated(scaled(factor as int, self.rotation.cosine as int))
    }

    /// The scale factor `factor` times the sine of the angle of the matrix: the
    /// sine of the angle of rotation, negated.
    pub open spec fn scaled_sine(self, factor: i64) -> i64 {
        saturated(scaled(factor as int, -self.rotation.sine))
    }

    /// The horizontal translation of the combined transform.
    pub open spec fn translation_x(self) -> i64 {
        let sxc = self.scaled_cosine(self.scale.x);
        let sys = self.scaled_sine(self.scale.y);
        saturated(scaled_sum(-self.origin.x, sxc as int, -self.origin.y, sys as int) + self.position.x)
    }

    /// The vertical translation of the combined transform.
    pub open spec fn translation_y(self) -> i64 {
        let sxs = self.scaled_sine(self.scale.x);
        let syc = self.scaled_cosine(self.scale.y);
        saturated(scaled_sum(self.origin.x as int, sxs as int, -self.origin.y, syc as int) + self.position.y)
    }

    /// The combined transform: with the scale factors `s`, the origin `o`, the
    /// position `p`, and cosine and sine of the angle of rotation turned round,
    ///
    /// ```text
    /// sxc = s.x cos    syc = s.y cos    sxs = s.x sin    sys = s.y sin
    /// tx = -o.x sxc - o.y sys + p.x
    /// ty =  o.x sxs - o.y syc + p.y
    ///
    ///  sxc  sys  tx
    /// -sxs  syc  ty
    ///    0    0   1
    /// ```
    pub open spec fn matrix(self) -> Transform {
        Transform {
            a00: self.scaled_cosine(self.scale.x),
            a01: self.scaled_sine(self.scale.y),
            a02: self.translation_x(),
            a10: saturated(-self.scaled_sine(self.scale.x)),
            a11: self.scaled_cosine(self.scale.y),
            a12: self.translation_y(),
            a20: 0,
            a21: 0,
            a22: ONE,
        }
    }

    /// The combined transform of the origin, position, rotation and scale.
    pub fn get(&self) -> (transform: Transform)
        ensures
            transform == self.matrix(),
    {
        let cosine: i128 = self.rotation.cosine as i128;
        let sine: i128 = -(self.rotation.sine as i128);
        let sxc: i64 = saturate(scaled_product(self.scale.x as i128, cosine));
        let syc: i64 = saturate(scaled_product(self.scale.y as i128, cosine));
        let sxs: i64 = saturate(scaled_product(self.scale.x as i128, sine));
        let sys: i64 = saturate(scaled_product(self.scale.y as i128, sine));
        let tx: i64 = saturate(
            scaled_pair_sum(
                -(self.origin.x as i128),
                sxc as i128,
                -(self.origin.y as i128),
                sys as i128,
            ) + self.position.x as i128,
        );
        let ty: i64 = saturate(
            scaled_pair_sum(
                self.origin.x as i128,
                sxs as i128,
                -(self.origin.y as i128),
                syc as i128,
            ) + self.position.y as i128,
        );
        Transform::new(sxc, sys, tx, saturate(-(sxs as i128)), syc, ty, 0, 0, ONE)
    }

    /// The decomposed transform after one change.
    pub fn changed(self, change: TransformChange) -> (data: TransformableData)
        ensures
            data == self.after(change),
    {
        match change {
            TransformChange::SetPosition(position) => TransformableData { position, ..self },
            TransformChange::SetRotation(rotation) => TransformableData { rotation, ..self },
            TransformChange::SetScale(scale) => TransformableData { scale, ..self },
            TransformChange::SetOrigin(origin) => TransformableData { origin, ..self },
            TransformChange::Move(offset) => TransformableData {
                position: Vector2 {
                    x: saturate(self.position.x as i128 + offset.x as i128),
                    y: saturate(self.position.y as i128 + offset.y as i128),
                },
                ..self
            },
            TransformChange::Rotate(angle) => TransformableData {
                rotation: self.rotation.add_angle(angle),
                ..self
            },
            TransformChange::Scale(factors) => TransformableData {
                scale: Vector2 {
                    x: multiply(self.scale.x, factors.x),
                    y: multiply(self.scale.y, factors.y),
                },
                ..self
            },
        }
    }
}

impl Default for TransformableData {
    /// The decomposed transform of an object that was not moved, rotated or
    /// scaled: origin and position `(0, 0)`, no rotation, scale `(1, 1)`.
    fn default() -> (data: TransformableData)
        ensures
            data == TransformableData::initial(),
    {
        TransformableData {
            origin: Vector2::default(),
            position: Vector2::default(),
            rotation: Rotation::default(),
            scale: Vector2 { x: ONE, y: ONE },
        }
    }
}

/// Decomposed transform defined by a position, a rotation and a scale.
///
/// The combined transform is computed when it is asked for, never on a change.
pub trait Transformable {
    /// The origin, position, rotation and scale of the object.
    spec fn placement(&self) -> TransformableData;

    /// Sets the position of the object.
    ///
    /// This function completely overwrites the previous position.
    /// See [`move_`](Self::move_) to apply an offset based on the previous position instead.
    /// The default position of a transformable object is (0, 0).
    fn set_position(&mut self, position: Vector2)
        ensures
            final(self).placement() == old(self).placement().after(
                TransformChange::SetPosition(position),
            ),
    ;

    /// Set the orientation of the object.
    ///
    /// This function completely overwrites the previous rotation.
    /// See the rotate function to add an angle based on the previous rotation instead.
    /// The default rotation of a transformable object is 0.
    fn set_rotation(&mut self, angle: Rotation)
        ensures
            final(self).placement() == old(self).placement().after(
                TransformChange::SetRotation(angle),
            ),
    ;

    /// Sets the scale factors of the object.
    ///
    /// This function completely overwrites the previous scale.
    /// See the scale function to add a factor based on the previous scale instead.
    /// The default scale of a transformable object is (1, 1).
    fn set_scale(&mut self, scale: Vector2)
        ensures
            final(self).placement() == old(self).placement().after(TransformChange::SetScale(scale)),
    ;

    /// Sets the local origin of the object.
    ///
    /// The origin of an object defines the center point for all transformations
    /// (position, scale, rotation).
    /// The coordinates of this point must be relative to the top-left corner of the object,
    /// and ignore all transformations (position, scale, rotation).
    /// The default origin of a transformable object is (0, 0).
    fn set_origin(&mut self, origin: Vector2)
        ensures
            final(self).placement() == old(self).placement().after(
                TransformChange::SetOrigin(origin),
            ),
    ;

    /// Gets the position of the object.
    fn position(&self) -> (position: Vector2)
        ensures
            position == self.placement().position,
    ;

    /// Gets the rotation of the object.
    fn rotation(&self) -> (rotation: Rotation)
        ensures
            rotation == self.placement().rotation,
    ;

    /// Gets the current scale of the object.
    fn get_scale(&self) -> (scale: Vector2)
        ensures
            scale == self.placement().scale,
    ;

    /// Gets the local origin of the object.
    fn origin(&self) -> (origin: Vector2)
        ensures
            origin == self.placement().origin,
    ;

    /// Moves the object by a given offset.
    ///
    /// This function adds to the current position of the object,
    /// unlike [`set_position`](Self::set_position) which overwrites it.
    fn move_(&mut self, offset: Vector2)
        ensures
            final(self).placement() == old(self).placement().after(TransformChange::Move(offset)),
    ;

    /// Rotates the object.
    ///
    /// This function adds to the current rotation of the object, unlike
    /// [`set_rotation`](Self::set_rotation), which overwrites it.
    fn rotate(&mut self, angle: Rotation)
        ensures
            final(self).placement() == old(self).placement().after(TransformChange::Rotate(angle)),
    ;

    /// Scales the object.
    ///
    /// This function multiplies the current scale of the object, unlike
    /// [`set_scale`](Self::set_scale), which overwrites it.
    fn scale(&mut self, factors: Vector2)
        ensures
            final(self).placement() == old(self).placement().after(TransformChange::Scale(factors)),
    ;

    /// Gets the combined transform of the object.
    fn transform(&mut self) -> (transform: Transform)
        ensures
            transform == old(self).placement().matrix(),
            final(self).placement() == old(self).placement(),
    ;

    /// Gets the inverse combined transform of the object.
    fn inverse_transform(&mut self) -> (transform: Transform)
        ensures
            transform == old(self).placement().matrix().inverted(),
            final(self).placement() == old(self).placement(),
    ;
}

/// Where the closed form of the combined transform takes a point: with the
/// entries `sxc`, `sys`, `sxs`, `syc`, `tx` and `ty` of the matrix of origin,
/// position, rotation and scale, to `(sxc x + sys y + tx, -sxs x + syc y + ty)`.
pub open spec fn closed_form_image(
    origin: Vector2,
    position: Vector2,
    rotation: Rotation,
    scale: Vector2,
    point: Vector2,
) -> Vector2 {
    let cosine = rotation.cosine as int;
    let sine = -rotation.sine;
    let sxc = saturated(scaled(scale.x as int, cosine));
    let syc = saturated(scaled(scale.y as int, cosine));
    let sxs = saturated(scaled(scale.x as int, sine));
    let sys = saturated(scaled(scale.y as int, sine));
    let tx = saturated(scaled_sum(-origin.x, sxc as int, -origin.y, sys as int) + position.x);
    let ty = saturated(scaled_sum(origin.x as int, sxs as int, -origin.y, syc as int) + position.y);
    Vector2 {
        x: saturated(scaled_sum(sxc as int, point.x as int, sys as int, point.y as int) + tx),
        y: saturated(
            scaled_sum(saturated(-sxs) as int, point.x as int, syc as int, point.y as int) + ty,
        ),
    }
}

/// An object that was not moved, rotated or scaled has the identity for its
/// combined transform.
pub proof fn lemma_initial_matrix_is_identity()
    ensures
        TransformableData::initial().matrix() == Transform::identity(),
{
    let one = ONE as int;
    assert(one * one == 4294967296) by (nonlinear_arith)
        requires
            one == 65536,
    ;
    assert(one * 0 == 0 && 0 * one == 0 && 0 * 0 == 0) by (nonlinear_arith);
    let initial = TransformableData::initial();
    assert(initial.scaled_cosine(ONE) == ONE);
    assert(initial.scaled_sine(ONE) == 0);
    assert(initial.translation_x() == 0);
    assert(initial.translation_y() == 0);
}

/// After any sequence of changes, the combined transform takes a point to
/// where the closed form does, evaluated on the origin, position, rotation and
/// scale that the changes have led to.
pub proof fn lemma_transform_is_closed_form(
    start: TransformableData,
    changes: Seq<TransformChange>,
    point: Vector2,
)
    ensures
        ({
            let end = start.after_all(changes);
            end.matrix().apply(point) == closed_form_image(
                end.origin,
                end.position,
                end.rotation,
                end.scale,
                point,
            )
        }),
{
}

} // verus!
