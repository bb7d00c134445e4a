//! Sine, cosine and tangent of fixed-point angles given in degrees.
//!
//! An angle is first folded into one turn, then into the first quadrant by
//! the usual symmetries, converted to radians and fed to a degree-seven
//! Taylor polynomial.  The model below is the exact fixed-point computation,
//! so callers reason about these functions as closed formulas.

use vstd::prelude::*;
use crate::fx::{
    fx_add, fx_add_e, fx_clamp, fx_clamp_e, fx_div, fx_div_e, fx_divi, fx_mul, fx_mul_e,
    fx_muldiv, fx_sub, fx_sub_e, spec_abs, tdiv, FX_ONE,
};

verus! {

/// One full turn: 360 degrees in fixed point.
pub const DEG_FULL: i64 = 23592960;

/// A quarter turn: 90 degrees in fixed point.
pub const DEG_QUARTER: i64 = 5898240;

/// Half a turn: 180 degrees in fixed point.
pub const DEG_HALF: i64 = 11796480;

/// Three quarter turns: 270 degrees in fixed point.
pub const DEG_THREE_QUARTERS: i64 = 17694720;

/// PI in fixed point.
pub const PI_FX: i64 = 205887;

/// Model of folding an angle into `[0, DEG_FULL)`.
pub open spec fn deg_norm(a: int) -> int {
    let m = spec_abs(a) % (DEG_FULL as int);
    if a >= 0 {
        m
    } else if m == 0 {
        0
    } else {
        DEG_FULL as int - m
    }
}

/// Model of converting first-quadrant degrees to radians.
pub open spec fn deg_to_rad(a: int) -> int {
    tdiv(a * (PI_FX as int), DEG_HALF as int)
}

/// Model of the Taylor polynomial for the sine of first-quadrant radians,
/// clamped into `[-FX_ONE, FX_ONE]`.
pub open spec fn sin_poly(x: int) -> int {
    let x2 = fx_mul(x, x);
    let x3 = fx_mul(x2, x);
    let x5 = fx_mul(x3, x2);
    let x7 = fx_mul(x5, x2);
    fx_clamp(
        fx_sub(fx_add(fx_sub(x, tdiv(x3, 6)), tdiv(x5, 120)), tdiv(x7, 5040)),
        -(FX_ONE as int),
        FX_ONE as int,
    )
}

/// Model of the sine of a first-quadrant angle in degrees.
pub open spec fn sin_quadrant(a: int) -> int {
    sin_poly(deg_to_rad(a))
}

/// Model of the sine of any angle in degrees.
pub open spec fn sin_deg(a: int) -> int {
    let n = deg_norm(a);
    if n <= DEG_QUARTER as int {
        sin_quadrant(n)
    } else if n <= DEG_HALF as int {
        sin_quadrant(DEG_HALF as int - n)
    } else if n <= DEG_THREE_QUARTERS as int {
        -sin_quadrant(n - DEG_HALF as int)
    } else {
        -sin_quadrant(DEG_FULL as int - n)
    }
}

/// Model of the cosine of any angle in degrees.
pub open spec fn cos_deg(a: int) -> int {
    sin_deg(deg_norm(a) + DEG_QUARTER as int)
}

/// Model of the tangent of any angle in degrees; where the cosine truncates
/// to zero there is no finite fixed-point tangent and the model gives 0.
pub open spec fn tan_deg(a: int) -> int {
    if cos_deg(a) == 0 {
        0
    } else {
        fx_div(sin_deg(a), cos_deg(a))
    }
}

/// Fold an angle into `[0, DEG_FULL)`.
pub fn deg_norm_e(a: i64) -> (r: i64)
    ensures
        r as int == deg_norm(a as int),
        0 <= r < DEG_FULL,
{
    let wide: i128 = a as i128;
    let mag: u64 = if wide < 0 { (-wide) as u64 } else { wide as u64 };
    let m: u64 = mag % 23592960;
    if a >= 0 {
        m as i64
    } else if m == 0 {
        0
    } else {
        DEG_FULL - m as i64
    }
}

/// The sine of a first-quadrant angle in degrees.
fn sin_quadrant_e(a: i64) -> (r: i64)
    requires
        0 <= a <= DEG_QUARTER,
    ensures
        r as int == sin_quadrant(a as int),
        -(FX_ONE as int) <= r as int <= FX_ONE as int,
{
    let x = fx_muldiv(a, PI_FX, DEG_HALF);
    let x2 = fx_mul_e(x, x);
    let x3 = fx_mul_e(x2, x);
    let x5 = fx_mul_e(x3, x2);
    let x7 = fx_mul_e(x5, x2);
    let s = fx_sub_e(fx_add_e(fx_sub_e(x, fx_divi(x3, 6)), fx_divi(x5, 120)), fx_divi(x7, 5040));
    fx_clamp_e(s, -FX_ONE, FX_ONE)
}

/// The sine of an angle in degrees.
pub fn sin_deg_e(a: i64) -> (r: i64)
    ensures
        r as int == sin_deg(a as int),
        -(FX_ONE as int) <= r as int <= FX_ONE as int,
{
    let n = deg_norm_e(a);
    if n <= DEG_QUARTER {
        sin_quadrant_e(n)
    } else if n <= DEG_HALF {
        sin_quadrant_e(DEG_HALF - n)
    } else if n <= DEG_THREE_QUARTERS {
        -sin_quadrant_e(n - DEG_HALF)
    } else {
        -sin_quadrant_e(DEG_FULL - n)
    }
}

/// The cosine of an angle in degrees.
pub fn cos_deg_e(a: i64) -> (r: i64)
    ensures
        r as int == cos_deg(a as int),
        -(FX_ONE as int) <= r as int <= FX_ONE as int,
{
    let n = deg_norm_e(a);
    sin_deg_e(n + DEG_QUARTER)
}

/// The tangent of an angle in degrees; 0 where the cosine truncates to zero.
pub fn tan_deg_e(a: i64) -> (r: i64)
    ensures
        r as int == tan_deg(a as int),
{
    let c = cos_deg_e(a);
    if c == 0 {
        0
    } else {
        fx_div_e(sin_deg_e(a), c)
    }
}

} // verus!
