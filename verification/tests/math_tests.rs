//! Exact-value tests for the fixed-point scalar, vector, matrix and
//! color arithmetic.

use shiota_engine::color::Color;
use shiota_engine::fx::{
    cos_fx, fx_div, fx_mod_tau, fx_mul, isqrt, sin_fx, tdiv_i64, FX_ONE, HALF_PI_FX,
    PI_FX, TAU_FX,
};
use shiota_engine::math::{Matrix4, Vector2, Vector3, Vector4};

#[test]
fn fixed_point_products_truncate_toward_zero() {
    // 1.5 * 2.0 == 3.0 exactly
    assert_eq!(fx_mul(3 * FX_ONE / 2, 2 * FX_ONE), 3 * FX_ONE);
    // (-1.5) * 2.0 == -3.0 exactly
    assert_eq!(fx_mul(-(3 * FX_ONE / 2), 2 * FX_ONE), -3 * FX_ONE);
    // truncation toward zero on both signs
    assert_eq!(tdiv_i64(7, 2), 3);
    assert_eq!(tdiv_i64(-7, 2), -3);
}

#[test]
fn fixed_point_division() {
    assert_eq!(fx_div(3 * FX_ONE, 2 * FX_ONE), 3 * FX_ONE / 2);
    assert_eq!(fx_div(-3 * FX_ONE, 2 * FX_ONE), -(3 * FX_ONE / 2));
    assert_eq!(fx_div(3 * FX_ONE, -(2 * FX_ONE)), -(3 * FX_ONE / 2));
}

#[test]
fn angle_reduction_is_euclidean() {
    assert_eq!(fx_mod_tau(0), 0);
    assert_eq!(fx_mod_tau(TAU_FX), 0);
    assert_eq!(fx_mod_tau(TAU_FX + 5), 5);
    assert_eq!(fx_mod_tau(-5), TAU_FX - 5);
    assert_eq!(fx_mod_tau(-TAU_FX), 0);
}

#[test]
fn sine_and_cosine_are_exact_at_zero() {
    assert_eq!(sin_fx(0), 0);
    assert_eq!(cos_fx(0), FX_ONE);
}

#[test]
fn sine_and_cosine_near_quarter_turn() {
    let s = sin_fx(HALF_PI_FX);
    let c = cos_fx(HALF_PI_FX);
    assert!((s - FX_ONE).abs() <= 16, "sin(pi/2) = {s}");
    assert!(c.abs() <= 64, "cos(pi/2) = {c}");
    let s_pi = sin_fx(PI_FX);
    let c_pi = cos_fx(PI_FX);
    assert!(s_pi.abs() <= 64, "sin(pi) = {s_pi}");
    assert!((c_pi + FX_ONE).abs() <= 16, "cos(pi) = {c_pi}");
}

#[test]
fn integer_square_roots() {
    assert_eq!(isqrt(0), 0);
    assert_eq!(isqrt(1), 1);
    assert_eq!(isqrt(15), 3);
    assert_eq!(isqrt(16), 4);
    assert_eq!(isqrt(u64::MAX), 0xffff_ffff);
}

#[test]
fn vector_constructors() {
    assert_eq!(Vector2::zero(), Vector2 { x: 0, y: 0 });
    assert_eq!(Vector2::one(), Vector2 { x: FX_ONE, y: FX_ONE });
    assert_eq!(Vector3::new(1, 2, 3), Vector3 { x: 1, y: 2, z: 3 });
    assert_eq!(Vector3::zero(), Vector3 { x: 0, y: 0, z: 0 });
    assert_eq!(Vector3::one(), Vector3 { x: FX_ONE, y: FX_ONE, z: FX_ONE });
    assert_eq!(Vector4::one(), Vector4 { x: FX_ONE, y: FX_ONE, z: FX_ONE, w: FX_ONE });
}

#[test]
fn identity_matrix_layout() {
    let m = Matrix4::identity().to_array();
    for r in 0..4 {
        for c in 0..4 {
            let expected = if r == c { FX_ONE } else { 0 };
            assert_eq!(m[c * 4 + r], expected);
        }
    }
}

#[test]
fn identity_is_neutral_for_multiplication() {
    let t = Matrix4::from_translation(Vector3::new(FX_ONE, 2 * FX_ONE, -3 * FX_ONE));
    let i = Matrix4::identity();
    assert_eq!(t.multiply(&i).to_array(), t.to_array());
    assert_eq!(i.multiply(&t).to_array(), t.to_array());
}

#[test]
fn translation_matrix_places_offset_in_last_column() {
    let t = Matrix4::from_translation(Vector3::new(7, -8, 9)).to_array();
    assert_eq!(t[12], 7);
    assert_eq!(t[13], -8);
    assert_eq!(t[14], 9);
    assert_eq!(t[15], FX_ONE);
    assert_eq!(t[0], FX_ONE);
    assert_eq!(t[5], FX_ONE);
    assert_eq!(t[10], FX_ONE);
}

#[test]
fn rotation_matrices_at_zero_are_identity() {
    assert_eq!(Matrix4::from_rotation_x(0).to_array(), Matrix4::identity().to_array());
    assert_eq!(Matrix4::from_rotation_y(0).to_array(), Matrix4::identity().to_array());
    assert_eq!(Matrix4::from_rotation_z(0).to_array(), Matrix4::identity().to_array());
}

#[test]
fn colors_from_channels_and_hex() {
    let c = Color::from_rgba(255, 0, 128, 255);
    assert_eq!(c.r, FX_ONE);
    assert_eq!(c.g, 0);
    assert_eq!(c.b, 128 * FX_ONE / 255);
    assert_eq!(c.a, FX_ONE);
    let c2 = Color::from_rgb(255, 255, 255);
    assert_eq!(c2.a, FX_ONE);
    let c3 = Color::from_hex(0xff00_80ff);
    assert_eq!(c3, c);
}

#[test]
fn vector_arithmetic() {
    let a = Vector3::new(FX_ONE, 2 * FX_ONE, -3 * FX_ONE);
    let b = Vector3::new(FX_ONE, FX_ONE, FX_ONE);
    assert_eq!(a.add(&b), Vector3::new(2 * FX_ONE, 3 * FX_ONE, -2 * FX_ONE));
    assert_eq!(a.sub(&b), Vector3::new(0, FX_ONE, -4 * FX_ONE));
    assert_eq!(a.neg(), Vector3::new(-FX_ONE, -2 * FX_ONE, 3 * FX_ONE));
    assert_eq!(
        a.scale(FX_ONE / 2),
        Vector3::new(FX_ONE / 2, FX_ONE, -(3 * FX_ONE) / 2)
    );
}
