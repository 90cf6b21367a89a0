use ecosim::fx::{abs_i64, clamp_i64, fx_mul, isqrt_u64, sqrt_ceil_u64, wrap_angle, FX_ONE, TWO_PI_FX};
use ecosim::vec3::normalize_or_zero_xz;

#[test]
fn fx_mul_scales_by_one_ten_thousandth() {
    assert_eq!(fx_mul(15_000, 5_000), 7_500);
    assert_eq!(fx_mul(10_000, 10_000), 10_000);
    assert_eq!(fx_mul(0, 123_456), 0);
}

#[test]
fn fx_mul_truncates_toward_zero() {
    assert_eq!(fx_mul(-1, 9_999), 0);
    assert_eq!(fx_mul(1, 9_999), 0);
    assert_eq!(fx_mul(-15_000, 5_000), -7_500);
    assert_eq!(fx_mul(-10_001, 1), -1);
}

#[test]
fn clamp_holds_the_bounds() {
    assert_eq!(clamp_i64(5, 0, 10), 5);
    assert_eq!(clamp_i64(-5, 0, 10), 0);
    assert_eq!(clamp_i64(15, 0, 10), 10);
}

#[test]
fn abs_flips_negatives() {
    assert_eq!(abs_i64(-7), 7);
    assert_eq!(abs_i64(7), 7);
    assert_eq!(abs_i64(0), 0);
}

#[test]
fn isqrt_brackets_the_square() {
    assert_eq!(isqrt_u64(0), 0);
    assert_eq!(isqrt_u64(1), 1);
    assert_eq!(isqrt_u64(3), 1);
    assert_eq!(isqrt_u64(4), 2);
    assert_eq!(isqrt_u64(200_000_000), 14_142);
    assert_eq!(sqrt_ceil_u64(200_000_000), 14_143);
    assert_eq!(sqrt_ceil_u64(4), 2);
    assert_eq!(sqrt_ceil_u64(0), 0);
}

#[test]
fn wrap_angle_lands_in_one_turn() {
    assert_eq!(wrap_angle(0), 0);
    assert_eq!(wrap_angle(TWO_PI_FX), 0);
    assert_eq!(wrap_angle(-20), TWO_PI_FX - 20);
    assert_eq!(wrap_angle(TWO_PI_FX + 5), 5);
    assert_eq!(wrap_angle(-TWO_PI_FX), 0);
}

#[test]
fn normalize_zero_stays_zero() {
    assert_eq!(normalize_or_zero_xz(0, 0), (0, 0));
}

#[test]
fn normalize_axis_vector_is_exactly_unit() {
    assert_eq!(normalize_or_zero_xz(FX_ONE, 0), (FX_ONE, 0));
    assert_eq!(normalize_or_zero_xz(0, -FX_ONE), (0, -FX_ONE));
    assert_eq!(normalize_or_zero_xz(30_000, 0), (FX_ONE, 0));
}

#[test]
fn normalize_diagonal_lands_on_the_unit_band() {
    let (x, z) = normalize_or_zero_xz(FX_ONE, -FX_ONE);
    assert_eq!((x, z), (7_070, -7_070));
    let sq = x * x + z * z;
    assert!(sq <= FX_ONE * FX_ONE);
    assert!(sq >= FX_ONE * FX_ONE - 7 * FX_ONE);
}

#[test]
fn normalize_tiny_vector_keeps_direction_and_unit_length() {
    let (x, z) = normalize_or_zero_xz(3, -2);
    assert_eq!((x, z), (8_320, -5_546));
    let sq = x * x + z * z;
    assert!(sq <= FX_ONE * FX_ONE);
    assert!(sq >= FX_ONE * FX_ONE - 7 * FX_ONE);
}
