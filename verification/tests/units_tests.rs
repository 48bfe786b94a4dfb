use vectorcade_web::units::{add_clamped, clamp, divide, scale, UNIT};

#[test]
fn the_unit_is_a_million() {
    assert_eq!(UNIT, 1_000_000);
}

#[test]
fn divide_rounds_toward_zero() {
    assert_eq!(divide(7, 2), 3);
    assert_eq!(divide(-7, 2), -3);
    assert_eq!(divide(6, 2), 3);
    assert_eq!(divide(-6, 2), -3);
    assert_eq!(divide(1, 1_000_000), 0);
    assert_eq!(divide(-1, 1_000_000), 0);
    assert_eq!(divide(0, 5), 0);
}

#[test]
fn divide_holds_at_the_least_dividend() {
    assert_eq!(divide(i128::MIN, 1), i128::MIN);
    assert_eq!(divide(i128::MIN, 2), i128::MIN / 2);
    assert_eq!(divide(i128::MIN, i128::MAX), -1);
    assert_eq!(divide(i128::MAX, i128::MAX), 1);
    assert_eq!(divide(i128::MIN + 1, i128::MAX), -1);
}

#[test]
fn clamp_holds_a_value_to_sixty_four_bits() {
    assert_eq!(clamp(0), 0);
    assert_eq!(clamp(-5), -5);
    assert_eq!(clamp(i64::MAX as i128), i64::MAX);
    assert_eq!(clamp(i64::MAX as i128 + 1), i64::MAX);
    assert_eq!(clamp(i64::MIN as i128), i64::MIN);
    assert_eq!(clamp(i64::MIN as i128 - 1), i64::MIN);
    assert_eq!(clamp(i128::MAX), i64::MAX);
    assert_eq!(clamp(i128::MIN), i64::MIN);
}

#[test]
fn scale_is_the_fixed_point_product() {
    // 0.5 * 0.5 = 0.25
    assert_eq!(scale(500_000, 500_000), 250_000);
    // 3 * -1.5 = -4.5
    assert_eq!(scale(3_000_000, -1_500_000), -4_500_000);
    assert_eq!(scale(-3_000_000, -1_500_000), 4_500_000);
    assert_eq!(scale(UNIT, 123), 123);
    assert_eq!(scale(0, i64::MAX), 0);
}

#[test]
fn scale_rounds_toward_zero() {
    assert_eq!(scale(1, 999_999), 0);
    assert_eq!(scale(-1, 999_999), 0);
    assert_eq!(scale(3, 500_000), 1);
    assert_eq!(scale(-3, 500_000), -1);
    assert_eq!(scale(3, -500_000), -1);
}

#[test]
fn scale_stops_at_the_limits() {
    assert_eq!(scale(i64::MAX, i64::MAX), i64::MAX);
    assert_eq!(scale(i64::MIN, i64::MAX), i64::MIN);
    assert_eq!(scale(i64::MIN, i64::MIN), i64::MAX);
    assert_eq!(scale(i64::MAX, UNIT), i64::MAX);
    assert_eq!(scale(i64::MIN, UNIT), i64::MIN);
    assert_eq!(scale(i64::MAX, 2_000_000), i64::MAX);
}

#[test]
fn add_clamped_stops_at_the_limits() {
    assert_eq!(add_clamped(1, 2), 3);
    assert_eq!(add_clamped(-1, 1), 0);
    assert_eq!(add_clamped(i64::MAX, 1), i64::MAX);
    assert_eq!(add_clamped(i64::MIN, -1), i64::MIN);
    assert_eq!(add_clamped(i64::MAX, i64::MIN), -1);
}
