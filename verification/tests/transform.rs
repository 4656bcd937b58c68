use sfml::fixed::{HALF, ONE};
use sfml::graphics::{Rect, Rotation, Transform, TransformChange, TransformableData};
use sfml::system::Vector2;

fn px(pixels: i64) -> i64 {
    pixels * ONE
}

fn identity() -> Transform {
    Transform::new(ONE, 0, 0, 0, ONE, 0, 0, 0, ONE)
}

fn translation(x: i64, y: i64) -> Transform {
    Transform::new(ONE, 0, x, 0, ONE, y, 0, 0, ONE)
}

fn scaling(x: i64, y: i64) -> Transform {
    Transform::new(x, 0, 0, 0, y, 0, 0, 0, ONE)
}

fn quarter_turn() -> Rotation {
    Rotation::new(px(90), 0, ONE)
}

#[test]
fn the_default_transform_is_the_identity() {
    assert_eq!(Transform::default(), identity());
    let point = Vector2::new(px(3), px(-4));
    assert_eq!(Transform::default().transform_point(point), point);
}

#[test]
fn a_transform_keeps_its_matrix_row_by_row() {
    let transform = Transform::new(1, 2, 3, 4, 5, 6, 7, 8, 9);
    assert_eq!((transform.a00, transform.a01, transform.a02), (1, 2, 3));
    assert_eq!((transform.a10, transform.a11, transform.a12), (4, 5, 6));
    assert_eq!((transform.a20, transform.a21, transform.a22), (7, 8, 9));
}

#[test]
fn a_point_is_scaled_and_then_moved() {
    let transform = Transform::new(px(2), 0, px(5), 0, px(3), px(7), 0, 0, ONE);
    assert_eq!(
        transform.transform_point(Vector2::new(px(1), px(1))),
        Vector2::new(px(7), px(10))
    );
    assert_eq!(
        transform.transform_point(Vector2::new(px(-1), 0)),
        Vector2::new(px(3), px(7))
    );
}

#[test]
fn the_products_of_a_row_are_rounded_down_together() {
    let transform = Transform::new(HALF, HALF, 0, HALF, 0, 0, 0, 0, ONE);
    assert_eq!(transform.transform_point(Vector2::new(1, 1)), Vector2::new(1, 0));
    assert_eq!(transform.transform_point(Vector2::new(-1, 0)), Vector2::new(-1, -1));
}

#[test]
fn the_greatest_products_are_summed_exactly() {
    let least = i64::MIN;
    let transform = Transform::new(least, least, least, least, 0, 0, 0, 0, ONE);
    // 2 * 2^126 / 2^16 - 2^63 and 2^126 / 2^16, both beyond the range
    assert_eq!(
        transform.transform_point(Vector2::new(least, least)),
        Vector2::new(i64::MAX, i64::MAX)
    );
    // -2^63 * 2^16 / 2^16 - 2^63 * 0 - 2^63
    assert_eq!(
        transform.transform_point(Vector2::new(ONE, 0)),
        Vector2::new(i64::MIN, i64::MIN)
    );
    let mut squared = Transform::new(least, least, least, 0, 0, 0, 0, 0, 0);
    squared.combine(&Transform::new(least, 0, 0, least, 0, 0, least, 0, 0));
    assert_eq!(squared, Transform::new(i64::MAX, 0, 0, 0, 0, 0, 0, 0, 0));
}

#[test]
fn an_image_beyond_the_range_saturates() {
    let transform = scaling(px(4), px(4));
    assert_eq!(
        transform.transform_point(Vector2::new(i64::MAX, i64::MIN)),
        Vector2::new(i64::MAX, i64::MIN)
    );
}

#[test]
fn combining_applies_the_other_transform_first() {
    let mut transform = translation(px(5), px(7));
    transform.combine(&scaling(px(2), px(3)));
    assert_eq!(transform, Transform::new(px(2), 0, px(5), 0, px(3), px(7), 0, 0, ONE));
    let mut other = scaling(px(2), px(3));
    other.combine(&translation(px(5), px(7)));
    assert_eq!(other, Transform::new(px(2), 0, px(10), 0, px(3), px(21), 0, 0, ONE));
}

#[test]
fn combining_with_the_identity_changes_nothing() {
    let matrix = Transform::new(px(2), px(-1), px(5), px(4), px(3), px(7), 0, 0, ONE);
    let mut left = identity();
    left.combine(&matrix);
    assert_eq!(left, matrix);
    let mut right = matrix;
    right.combine(&identity());
    assert_eq!(right, matrix);
}

#[test]
fn a_rectangle_goes_to_the_bounds_of_its_corners() {
    let turned = Transform::new(0, -ONE, 0, ONE, 0, 0, 0, 0, ONE);
    // (1,2) (1,6) (4,2) (4,6) go to (-2,1) (-6,1) (-2,4) (-6,4)
    assert_eq!(
        turned.transform_rect(Rect::new(px(1), px(2), px(3), px(4))),
        Rect::new(px(-6), px(1), px(4), px(3))
    );
    assert_eq!(
        translation(px(10), px(20)).transform_rect(Rect::new(px(1), px(2), px(3), px(4))),
        Rect::new(px(11), px(22), px(3), px(4))
    );
    assert_eq!(
        scaling(px(-2), px(2)).transform_rect(Rect::new(px(1), px(2), px(3), px(4))),
        Rect::new(px(-8), px(4), px(6), px(8))
    );
}

#[test]
fn a_translation_is_undone_by_the_opposite_translation() {
    assert_eq!(translation(px(5), px(-7)).inverse(), translation(px(-5), px(7)));
    assert_eq!(identity().inverse(), identity());
}

#[test]
fn a_scaling_is_undone_by_the_inverse_factors() {
    assert_eq!(scaling(px(2), px(4)).inverse(), scaling(HALF, ONE / 4));
    assert_eq!(scaling(-ONE, ONE).inverse(), scaling(-ONE, ONE));
}

#[test]
fn the_inverse_takes_images_back() {
    let transform = Transform::new(0, px(-2), px(160), px(2), 0, px(180), 0, 0, ONE);
    let inverse = transform.inverse();
    assert_eq!(inverse, Transform::new(0, HALF, px(-90), -HALF, 0, px(80), 0, 0, ONE));
    let point = Vector2::new(px(3), px(5));
    assert_eq!(inverse.transform_point(transform.transform_point(point)), point);
}

#[test]
fn a_transform_without_an_inverse_has_the_identity_for_one() {
    assert_eq!(scaling(0, px(3)).inverse(), identity());
    let dependent_rows =
        Transform::new(px(1), px(2), px(3), px(4), px(5), px(6), px(7), px(8), px(9));
    assert_eq!(dependent_rows.inverse(), identity());
}

#[test]
fn an_object_that_was_not_changed_has_the_identity() {
    let data = TransformableData::default();
    assert_eq!(data.origin, Vector2::new(0, 0));
    assert_eq!(data.position, Vector2::new(0, 0));
    assert_eq!(data.rotation, Rotation::new(0, ONE, 0));
    assert_eq!(data.rotation, Rotation::default());
    assert_eq!(data.scale, Vector2::new(ONE, ONE));
    assert_eq!(data.get(), identity());
}

#[test]
fn the_matrix_has_the_closed_form() {
    let data = TransformableData {
        origin: Vector2::new(px(10), px(20)),
        position: Vector2::new(px(100), px(200)),
        rotation: quarter_turn(),
        scale: Vector2::new(px(2), px(3)),
    };
    // cos = 0, sin = -1: sxc = 0, syc = 0, sxs = -2, sys = -3
    // tx = -10 * 0 - 20 * -3 + 100, ty = 10 * -2 - 20 * 0 + 200
    assert_eq!(data.get(), Transform::new(0, px(-3), px(160), px(2), 0, px(180), 0, 0, ONE));
}

#[test]
fn without_rotation_the_matrix_scales_about_the_origin() {
    let data = TransformableData {
        origin: Vector2::new(px(10), px(20)),
        position: Vector2::new(px(100), px(200)),
        rotation: Rotation::default(),
        scale: Vector2::new(px(2), px(3)),
    };
    assert_eq!(data.get(), Transform::new(px(2), 0, px(80), 0, px(3), px(140), 0, 0, ONE));
    // the origin of the object goes to its position
    assert_eq!(
        data.get().transform_point(Vector2::new(px(10), px(20))),
        Vector2::new(px(100), px(200))
    );
}

#[test]
fn a_quarter_turn_takes_the_x_axis_to_the_y_axis() {
    let data = TransformableData { rotation: quarter_turn(), ..TransformableData::default() };
    assert_eq!(data.get().transform_point(Vector2::new(px(1), 0)), Vector2::new(0, px(1)));
    assert_eq!(data.get().transform_point(Vector2::new(0, px(1))), Vector2::new(px(-1), 0));
}

#[test]
fn setters_overwrite() {
    let data = TransformableData::default()
        .changed(TransformChange::SetPosition(Vector2::new(1, 2)))
        .changed(TransformChange::SetPosition(Vector2::new(3, 4)))
        .changed(TransformChange::SetScale(Vector2::new(5, 6)))
        .changed(TransformChange::SetOrigin(Vector2::new(7, 8)))
        .changed(TransformChange::SetRotation(quarter_turn()));
    assert_eq!(
        data,
        TransformableData {
            origin: Vector2::new(7, 8),
            position: Vector2::new(3, 4),
            rotation: quarter_turn(),
            scale: Vector2::new(5, 6),
        }
    );
}

#[test]
fn moving_rotating_and_scaling_compose() {
    let data = TransformableData::default()
        .changed(TransformChange::SetPosition(Vector2::new(px(1), px(2))))
        .changed(TransformChange::Move(Vector2::new(px(10), px(-20))))
        .changed(TransformChange::SetScale(Vector2::new(px(2), px(3))))
        .changed(TransformChange::Scale(Vector2::new(px(4), HALF)))
        .changed(TransformChange::SetRotation(quarter_turn()))
        .changed(TransformChange::Rotate(quarter_turn()));
    assert_eq!(data.position, Vector2::new(px(11), px(-18)));
    assert_eq!(data.scale, Vector2::new(px(8), px(3) / 2));
    assert_eq!(data.rotation, Rotation::new(px(180), -ONE, 0));
}

#[test]
fn angles_add_up_with_their_cosine_and_sine() {
    let sum = quarter_turn().add_angle(Rotation::new(px(-90), 0, -ONE));
    assert_eq!(sum, Rotation::new(0, ONE, 0));
    let same = Rotation::default().add_angle(quarter_turn());
    assert_eq!(same, quarter_turn());
}

#[test]
fn a_move_beyond_the_range_saturates() {
    let data = TransformableData::default()
        .changed(TransformChange::SetPosition(Vector2::new(i64::MAX, i64::MIN)))
        .changed(TransformChange::Move(Vector2::new(1, -1)));
    assert_eq!(data.position, Vector2::new(i64::MAX, i64::MIN));
}

#[test]
fn the_transform_after_changes_is_the_closed_form_of_the_result() {
    let data = TransformableData::default()
        .changed(TransformChange::SetOrigin(Vector2::new(px(10), px(20))))
        .changed(TransformChange::Move(Vector2::new(px(60), px(100))))
        .changed(TransformChange::Move(Vector2::new(px(40), px(100))))
        .changed(TransformChange::Rotate(quarter_turn()))
        .changed(TransformChange::SetScale(Vector2::new(px(1), px(6))))
        .changed(TransformChange::Scale(Vector2::new(px(2), HALF)));
    let point = Vector2::new(px(1), px(1));
    // sxc x + sys y + tx = -3 + 160; -sxs x + syc y + ty = 2 + 180
    assert_eq!(data.get().transform_point(point), Vector2::new(px(157), px(182)));
}
