use lucis::fx::{
    fx_add_e, fx_clamp_e, fx_div_e, fx_divi, fx_max_e, fx_min_e, fx_mul_e, fx_muldiv, fx_pow_e,
    fx_sqrt, isqrt_u32, FX_ONE,
};
use lucis::trig::{cos_deg_e, deg_norm_e, sin_deg_e, tan_deg_e, DEG_FULL};

fn fx(v: f64) -> i64 {
    (v * 65536.0).round() as i64
}

#[test]
fn mul_is_exact_on_integers() {
    assert_eq!(fx_mul_e(fx(3.0), fx(4.0)), fx(12.0));
    assert_eq!(fx_mul_e(fx(-3.0), fx(4.0)), fx(-12.0));
    assert_eq!(fx_mul_e(fx(0.5), fx(0.5)), fx(0.25));
}

#[test]
fn mul_truncates_toward_zero() {
    // 1/65536 * 1/65536 is far below one LSB and truncates to zero,
    // from both sides.
    assert_eq!(fx_mul_e(1, 1), 0);
    assert_eq!(fx_mul_e(-1, 1), 0);
}

#[test]
fn mul_saturates_instead_of_wrapping() {
    assert_eq!(fx_mul_e(i64::MAX, fx(4.0)), i64::MAX);
    assert_eq!(fx_mul_e(i64::MAX, fx(-4.0)), i64::MIN);
}

#[test]
fn div_matches_ratio() {
    assert_eq!(fx_div_e(fx(12.0), fx(4.0)), fx(3.0));
    assert_eq!(fx_div_e(fx(-12.0), fx(4.0)), fx(-3.0));
    assert_eq!(fx_div_e(fx(1.0), fx(2.0)), fx(0.5));
}

#[test]
fn divi_truncates_toward_zero() {
    assert_eq!(fx_divi(7, 2), 3);
    assert_eq!(fx_divi(-7, 2), -3);
}

#[test]
fn muldiv_combines_exactly() {
    assert_eq!(fx_muldiv(10, FX_ONE, 4), 10 * 65536 / 4);
}

#[test]
fn add_sub_clamp_minmax() {
    assert_eq!(fx_add_e(fx(1.5), fx(2.5)), fx(4.0));
    assert_eq!(fx_add_e(i64::MAX, 1), i64::MAX);
    assert_eq!(fx_clamp_e(fx(5.0), 0, FX_ONE), FX_ONE);
    assert_eq!(fx_clamp_e(fx(-5.0), 0, FX_ONE), 0);
    assert_eq!(fx_max_e(3, -3), 3);
    assert_eq!(fx_min_e(3, -3), -3);
}

#[test]
fn sqrt_of_perfect_squares() {
    assert_eq!(fx_sqrt(fx(4.0)), fx(2.0));
    assert_eq!(fx_sqrt(fx(9.0)), fx(3.0));
    assert_eq!(fx_sqrt(fx(1.0)), fx(1.0));
    assert_eq!(fx_sqrt(0), 0);
    assert_eq!(fx_sqrt(-fx(4.0)), 0);
}

#[test]
fn sqrt_of_two_is_close() {
    let r = fx_sqrt(fx(2.0));
    let expect = fx(1.41421356);
    assert!((r - expect).abs() <= 2, "sqrt(2) was {r}");
}

#[test]
fn isqrt_small_values() {
    assert_eq!(isqrt_u32(0), 0);
    assert_eq!(isqrt_u32(1), 1);
    assert_eq!(isqrt_u32(3), 1);
    assert_eq!(isqrt_u32(4), 2);
    assert_eq!(isqrt_u32(16), 4);
    assert_eq!(isqrt_u32(24), 4);
}

#[test]
fn pow_repeated_multiplication() {
    assert_eq!(fx_pow_e(fx(2.0), 0), FX_ONE);
    assert_eq!(fx_pow_e(fx(2.0), 10), fx(1024.0));
    assert_eq!(fx_pow_e(fx(0.5), 2), fx(0.25));
}

#[test]
fn angles_fold_into_one_turn() {
    assert_eq!(deg_norm_e(0), 0);
    assert_eq!(deg_norm_e(fx(360.0)), 0);
    assert_eq!(deg_norm_e(fx(370.0)), fx(10.0));
    assert_eq!(deg_norm_e(-fx(30.0)), fx(330.0));
    assert!(deg_norm_e(i64::MIN) >= 0);
    assert!(deg_norm_e(i64::MIN) < DEG_FULL);
}

#[test]
fn sine_and_cosine_key_values() {
    let tol = 16;
    assert_eq!(sin_deg_e(0), 0);
    assert!((sin_deg_e(fx(30.0)) - fx(0.5)).abs() <= tol);
    assert!((sin_deg_e(fx(90.0)) - FX_ONE).abs() <= tol);
    assert!((sin_deg_e(fx(210.0)) + fx(0.5)).abs() <= tol);
    assert!((cos_deg_e(0) - FX_ONE).abs() <= tol);
    assert!((cos_deg_e(fx(60.0)) - fx(0.5)).abs() <= tol);
    assert!((cos_deg_e(fx(180.0)) + FX_ONE).abs() <= tol);
    assert!((sin_deg_e(-fx(330.0)) - fx(0.5)).abs() <= tol);
}

#[test]
fn tangent_of_key_angles() {
    assert!((tan_deg_e(fx(45.0)) - FX_ONE).abs() <= 64);
    assert_eq!(tan_deg_e(0), 0);
}
