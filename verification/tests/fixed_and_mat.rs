use sdf_renderer::fixed::{fx_mul, fx_div, sin_deg, cos_deg, wrap_deg, SCALE, DEG90, DEG180, DEG270, DEG360};
use sdf_renderer::mat::{Vec3, Mat4, identity, translate, vec3_neg, mat_mul, invert4};

#[test]
fn fixed_multiplication_is_exact_on_scale_multiples() {
    assert_eq!(fx_mul(2_500_000, 2_000_000), 5_000_000);
    assert_eq!(fx_mul(-3_000_000, 2_000_000), -6_000_000);
    assert_eq!(fx_mul(SCALE, 123_456), 123_456);
}

#[test]
fn fixed_multiplication_truncates_toward_zero() {
    assert_eq!(fx_mul(1, 1), 0);
    assert_eq!(fx_mul(-1, 1), 0);
}

#[test]
fn fixed_division_truncates_toward_zero() {
    assert_eq!(fx_div(1_000_000, 2_000_000), 500_000);
    assert_eq!(fx_div(1_000_000, 3_000_000), 333_333);
    assert_eq!(fx_div(-1_000_000, 3_000_000), -333_333);
    assert_eq!(fx_div(1_000_000, -3_000_000), -333_333);
}

#[test]
fn sine_is_exact_on_quadrant_boundaries() {
    assert_eq!(sin_deg(0), 0);
    assert_eq!(sin_deg(DEG90), SCALE);
    assert_eq!(sin_deg(DEG180), 0);
    assert_eq!(sin_deg(DEG270), -SCALE);
    assert_eq!(sin_deg(DEG360), 0);
    assert_eq!(sin_deg(-DEG90), -SCALE);
}

#[test]
fn cosine_is_exact_on_quadrant_boundaries() {
    assert_eq!(cos_deg(0), SCALE);
    assert_eq!(cos_deg(DEG90), 0);
    assert_eq!(cos_deg(DEG180), -SCALE);
    assert_eq!(cos_deg(DEG270), 0);
    assert_eq!(cos_deg(-DEG90), 0);
}

#[test]
fn sine_of_thirty_degrees_is_exactly_half() {
    assert_eq!(sin_deg(30_000_000), 500_000);
}

#[test]
fn sine_of_forty_five_degrees_matches_the_rational_approximation() {
    assert_eq!(sin_deg(45_000_000), 705_882);
    assert_eq!(cos_deg(45_000_000), 705_882);
}

#[test]
fn wrapping_angles_lands_in_one_turn() {
    assert_eq!(wrap_deg(370_000_000), 10_000_000);
    assert_eq!(wrap_deg(-10_000_000), 350_000_000);
    assert_eq!(wrap_deg(0), 0);
    assert_eq!(wrap_deg(DEG360), 0);
}

#[test]
fn identity_is_neutral_for_matrix_multiplication() {
    let t = translate(Vec3 { x: 7_000_000, y: -2_000_000, z: 3_500_000 });
    assert_eq!(mat_mul(&identity(), &t), t);
    assert_eq!(mat_mul(&t, &identity()), t);
}

#[test]
fn inverting_the_identity_gives_the_identity() {
    assert_eq!(invert4(&identity()), Some(identity()));
}

#[test]
fn inverting_a_translation_gives_the_opposite_translation() {
    let v = Vec3 { x: 4_000_000, y: -9_000_000, z: 1_250_000 };
    let t = translate(v);
    let inv = invert4(&t).expect("translation must be invertible");
    assert_eq!(inv, translate(vec3_neg(v)));
    assert_eq!(mat_mul(&t, &inv), identity());
}

#[test]
fn a_zero_matrix_is_reported_singular() {
    let zero = Mat4 {
        m00: 0, m01: 0, m02: 0, m03: 0,
        m10: 0, m11: 0, m12: 0, m13: 0,
        m20: 0, m21: 0, m22: 0, m23: 0,
        m30: 0, m31: 0, m32: 0, m33: 0,
    };
    assert_eq!(invert4(&zero), None);
}
