//! Fixed-point scalar arithmetic.
//!
//! A scalar is an `i64` holding the real value times `FX_ONE` (16 fractional
//! bits).  Multiplication and division truncate toward zero, like hardware
//! integer division, and saturate at the `i64` range instead of wrapping.
//! Each executable operation returns exactly the value of its spec-level
//! model, so contracts further up can be stated as closed formulas.

use vstd::prelude::*;

verus! {

/// The fixed-point representation of 1.0.
pub const FX_ONE: i64 = 65536;

/// Magnitude of an integer.
pub open spec fn spec_abs(a: int) -> int {
    if a >= 0 { a } else { -a }
}

/// Saturate an integer into the `i64` range.
pub open spec fn sat64(x: int) -> int {
    if x > i64::MAX as int {
        i64::MAX as int
    } else if x < i64::MIN as int {
        i64::MIN as int
    } else {
        x
    }
}

/// Division truncating toward zero (the rounding of machine division),
/// defined through Euclidean division on magnitudes.
pub open spec fn tdiv(a: int, b: int) -> int {
    let q = spec_abs(a) / spec_abs(b);
    if (a >= 0) == (b >= 0) { q } else { -q }
}

/// Model of fixed-point addition.
pub open spec fn fx_add(a: int, b: int) -> int {
    sat64(a + b)
}

/// Model of fixed-point subtraction.
pub open spec fn fx_sub(a: int, b: int) -> int {
    sat64(a - b)
}

/// Model of fixed-point multiplication.
pub open spec fn fx_mul(a: int, b: int) -> int {
    sat64(tdiv(a * b, FX_ONE as int))
}

/// Model of fixed-point division.
pub open spec fn fx_div(a: int, b: int) -> int {
    sat64(tdiv(a * (FX_ONE as int), b))
}

/// `r` is the integer square root of `n`.
pub open spec fn is_sqrt(n: int, r: int) -> bool {
    &&& 0 <= r
    &&& r * r <= n
    &&& n < (r + 1) * (r + 1)
}

/// The integer square root (floor) of a nonnegative integer.
pub open spec fn sqrt_floor(n: int) -> int {
    choose|r: int| is_sqrt(n, r)
}

/// Model of fixed-point square root: nonpositive inputs give 0.
pub open spec fn fx_sqrt_spec(a: int) -> int {
    if a <= 0 { 0 } else { sqrt_floor(a * (FX_ONE as int)) }
}

/// Every nonnegative integer has an integer square root.
pub proof fn lemma_sqrt_floor_exists(n: int)
    requires
        n >= 0,
    ensures
        is_sqrt(n, sqrt_floor(n)),
    decreases n,
{
    if n == 0 {
        assert(is_sqrt(0, 0)) by (nonlinear_arith);
    } else {
        lemma_sqrt_floor_exists(n - 1);
        let r0 = sqrt_floor(n - 1);
        if (r0 + 1) * (r0 + 1) <= n {
            assert(is_sqrt(n, r0 + 1)) by (nonlinear_arith)
                requires
                    r0 >= 0,
                    (r0 + 1) * (r0 + 1) <= n,
                    n - 1 < (r0 + 1) * (r0 + 1);
        } else {
            assert(is_sqrt(n, r0));
        }
    }
    assert(exists|r: int| is_sqrt(n, r));
}

/// Two integer square roots of the same integer are equal.
pub proof fn lemma_sqrt_unique(n: int, r1: int, r2: int)
    requires
        is_sqrt(n, r1),
        is_sqrt(n, r2),
    ensures
        r1 == r2,
{
    assert(r1 == r2) by (nonlinear_arith)
        requires
            0 <= r1,
            r1 * r1 <= n,
            n < (r1 + 1) * (r1 + 1),
            0 <= r2,
            r2 * r2 <= n,
            n < (r2 + 1) * (r2 + 1);
}

/// Saturate an `i128` into the `i64` range.
fn clamp_i128(x: i128) -> (r: i64)
    ensures
        r as int == sat64(x as int),
{
    if x > i64::MAX as i128 {
        i64::MAX
    } else if x < i64::MIN as i128 {
        i64::MIN
    } else {
        x as i64
    }
}

/// Division of `i128` values truncating toward zero.
fn tdiv_i128(a: i128, b: i128) -> (r: i128)
    requires
        b != 0,
        a > i128::MIN,
        b > i128::MIN,
    ensures
        r as int == tdiv(a as int, b as int),
        spec_abs(r as int) <= spec_abs(a as int),
{
    let ua: u128 = if a < 0 { (-a) as u128 } else { a as u128 };
    let ub: u128 = if b < 0 { (-b) as u128 } else { b as u128 };
    let q: u128 = ua / ub;
    assert(ua as int / ub as int <= ua as int) by (nonlinear_arith)
        requires
            ub as int >= 1,
            ua as int >= 0;
    if (a < 0) != (b < 0) {
        -(q as i128)
    } else {
        q as i128
    }
}

/// Fixed-point addition, saturating at the `i64` range.
pub fn fx_add_e(a: i64, b: i64) -> (r: i64)
    ensures
        r as int == fx_add(a as int, b as int),
{
    clamp_i128(a as i128 + b as i128)
}

/// Fixed-point subtraction, saturating at the `i64` range.
pub fn fx_sub_e(a: i64, b: i64) -> (r: i64)
    ensures
        r as int == fx_sub(a as int, b as int),
{
    clamp_i128(a as i128 - b as i128)
}

/// Fixed-point multiplication, saturating at the `i64` range.
pub fn fx_mul_e(a: i64, b: i64) -> (r: i64)
    ensures
        r as int == fx_mul(a as int, b as int),
{
    let wa = a as i128;
    let wb = b as i128;
    assert(i128::MIN < wa * wb <= i128::MAX) by (nonlinear_arith)
        requires
            i64::MIN as int <= wa <= i64::MAX as int,
            i64::MIN as int <= wb <= i64::MAX as int;
    let p: i128 = wa * wb;
    clamp_i128(tdiv_i128(p, FX_ONE as i128))
}

/// Fixed-point division, saturating at the `i64` range.
pub fn fx_div_e(a: i64, b: i64) -> (r: i64)
    requires
        b != 0,
    ensures
        r as int == fx_div(a as int, b as int),
{
    assert(i128::MIN < (a as int) * 65536 <= i128::MAX) by (nonlinear_arith)
        requires
            i64::MIN as int <= a as int <= i64::MAX as int;
    let wa = a as i128 * 65536;
    clamp_i128(tdiv_i128(wa, b as i128))
}

/// Integer square root by bisection.
fn isqrt_u128(n: u128) -> (r: u64)
    ensures
        is_sqrt(n as int, r as int),
{
    let mut lo: u128 = 0;
    let mut hi: u128 = 18446744073709551616;
    assert((hi as int) * (hi as int) > n as int) by (nonlinear_arith)
        requires
            hi as int == 18446744073709551616,
            n as int <= u128::MAX as int;
    while lo + 1 < hi
        invariant
            0 <= lo < hi <= 18446744073709551616,
            (lo as int) * (lo as int) <= n as int,
            (hi as int) * (hi as int) > n as int,
        decreases hi - lo,
    {
        let mid: u128 = lo + (hi - lo) / 2;
        assert(lo < mid < hi);
        assert((mid as int) * (mid as int) < u128::MAX as int) by (nonlinear_arith)
            requires
                0 <= mid as int <= 18446744073709551615;
        if mid * mid <= n {
            lo = mid;
        } else {
            hi = mid;
        }
    }
    assert(hi == lo + 1);
    assert(lo <= 18446744073709551615);
    lo as u64
}

/// Integer square root of a plain 32-bit count.
pub fn isqrt_u32(n: u32) -> (r: u32)
    ensures
        is_sqrt(n as int, r as int),
{
    let r = isqrt_u128(n as u128);
    assert((r as int) < 65536) by (nonlinear_arith)
        requires
            is_sqrt(n as int, r as int),
            (n as int) < 4294967296;
    r as u32
}

/// Fixed-point square root.  Nonpositive inputs give 0.
pub fn fx_sqrt(a: i64) -> (r: i64)
    ensures
        r as int == fx_sqrt_spec(a as int),
        r >= 0,
{
    if a <= 0 {
        0
    } else {
        assert((a as int) * (FX_ONE as int) < u128::MAX as int);
        let n: u128 = (a as u128) * (FX_ONE as u128);
        let r = isqrt_u128(n);
        proof {
            lemma_sqrt_floor_exists(n as int);
            lemma_sqrt_unique(n as int, r as int, sqrt_floor(n as int));
        }
        assert((r as int) < 1099511627776) by (nonlinear_arith)
            requires
                is_sqrt(n as int, r as int),
                (n as int) < 1208925819614629174706176;
        r as i64
    }
}

/// Integer division of a scalar by a plain integer, truncating toward zero.
pub fn fx_divi(v: i64, k: i64) -> (r: i64)
    requires
        k > 0,
    ensures
        r as int == tdiv(v as int, k as int),
        spec_abs(r as int) <= spec_abs(v as int),
{
    let q = tdiv_i128(v as i128, k as i128);
    proof {
        if v >= 0 {
            assert(q as int == (v as int) / (k as int));
            assert(0 <= q as int <= v as int);
        } else {
            assert(q as int == -((-(v as int)) / (k as int)));
            assert(v as int <= q as int <= 0);
        }
    }
    q as i64
}

/// `tdiv(a * m, d)`, exact when the product stays within `|a * m| <= 2^62`.
pub fn fx_muldiv(a: i64, m: i64, d: i64) -> (r: i64)
    requires
        d != 0,
        d != i64::MIN,
        -4611686018427387904 <= (a as int) * (m as int) <= 4611686018427387904,
    ensures
        r as int == tdiv((a as int) * (m as int), d as int),
        spec_abs(r as int) <= spec_abs((a as int) * (m as int)),
{
    let wa = a as i128;
    let wm = m as i128;
    assert(i128::MIN < wa * wm <= i128::MAX) by (nonlinear_arith)
        requires
            i64::MIN as int <= wa <= i64::MAX as int,
            i64::MIN as int <= wm <= i64::MAX as int;
    let q = tdiv_i128(wa * wm, d as i128);
    q as i64
}

/// Model of raising a scalar to a plain integer power by repeated
/// fixed-point multiplication, from the left.
pub open spec fn fx_pow(b: int, e: nat) -> int
    decreases e,
{
    if e == 0 {
        FX_ONE as int
    } else {
        fx_mul(fx_pow(b, (e - 1) as nat), b)
    }
}

/// Raise a scalar to a plain integer power.
pub fn fx_pow_e(b: i64, e: u32) -> (r: i64)
    ensures
        r as int == fx_pow(b as int, e as nat),
{
    let mut acc: i64 = FX_ONE;
    let mut i: u32 = 0;
    while i < e
        invariant
            0 <= i <= e,
            acc as int == fx_pow(b as int, i as nat),
        decreases e - i,
    {
        acc = fx_mul_e(acc, b);
        i = i + 1;
    }
    acc
}

/// Model of clamping a scalar to a closed interval.
pub open spec fn fx_clamp(v: int, lo: int, hi: int) -> int {
    if v < lo { lo } else if v > hi { hi } else { v }
}

/// Clamp a scalar to the closed interval `[lo, hi]`.
pub fn fx_clamp_e(v: i64, lo: i64, hi: i64) -> (r: i64)
    ensures
        r as int == fx_clamp(v as int, lo as int, hi as int),
{
    if v < lo { lo } else if v > hi { hi } else { v }
}

/// Model of the larger of two scalars.
pub open spec fn fx_max(a: int, b: int) -> int {
    if a >= b { a } else { b }
}

/// Model of the smaller of two scalars.
pub open spec fn fx_min(a: int, b: int) -> int {
    if a <= b { a } else { b }
}

/// The larger of two scalars.
pub fn fx_max_e(a: i64, b: i64) -> (r: i64)
    ensures
        r as int == fx_max(a as int, b as int),
{
    if a >= b { a } else { b }
}

/// The smaller of two scalars.
pub fn fx_min_e(a: i64, b: i64) -> (r: i64)
    ensures
        r as int == fx_min(a as int, b as int),
{
    if a <= b { a } else { b }
}

} // verus!
