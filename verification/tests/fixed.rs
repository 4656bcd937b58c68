use sfml::fixed::{multiply, saturate, HALF, ONE};

#[test]
fn one_counts_65536() {
    assert_eq!(ONE, 65536);
    assert_eq!(HALF * 2, ONE);
}

#[test]
fn a_result_that_fits_is_stored_as_it_is() {
    assert_eq!(saturate(0), 0);
    assert_eq!(saturate(-5), -5);
    assert_eq!(saturate(i64::MAX as i128), i64::MAX);
    assert_eq!(saturate(i64::MIN as i128), i64::MIN);
}

#[test]
fn a_result_that_does_not_fit_saturates() {
    assert_eq!(saturate(i64::MAX as i128 + 1), i64::MAX);
    assert_eq!(saturate(i64::MIN as i128 - 1), i64::MIN);
    assert_eq!(saturate(i128::MAX), i64::MAX);
    assert_eq!(saturate(i128::MIN), i64::MIN);
}

#[test]
fn fixed_point_products_round_down() {
    assert_eq!(multiply(2 * ONE, 3 * ONE), 6 * ONE);
    assert_eq!(multiply(HALF, HALF), ONE / 4);
    assert_eq!(multiply(1, 1), 0);
    assert_eq!(multiply(-1, 1), -1);
    assert_eq!(multiply(-3 * ONE, HALF), -3 * HALF);
    assert_eq!(multiply(5, ONE), 5);
    assert_eq!(multiply(-7, HALF), -4);
}

#[test]
fn fixed_point_products_saturate() {
    assert_eq!(multiply(i64::MAX, 2 * ONE), i64::MAX);
    assert_eq!(multiply(i64::MIN, 2 * ONE), i64::MIN);
    assert_eq!(multiply(i64::MIN, -2 * ONE), i64::MAX);
}
