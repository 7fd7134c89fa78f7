//! Saturating fixed-point arithmetic on `i64`, one pixel being [`UNIT`] units.

use vstd::prelude::*;

verus! {

/// The number of fixed-point units in one pixel.
pub const UNIT: i64 = 1_000_000;

/// `v` brought into the range of `i64`.
pub open spec fn clamp(v: int) -> int {
    if v < i64::MIN {
        i64::MIN as int
    } else if v > i64::MAX {
        i64::MAX as int
    } else {
        v
    }
}

/// The absolute value of `v`.
pub open spec fn magnitude(v: int) -> int {
    if v < 0 {
        -v
    } else {
        v
    }
}

/// `-1`, `0` or `1` as `v` is negative, zero or positive.
pub open spec fn signum(v: int) -> int {
    if v < 0 {
        -1
    } else if v > 0 {
        1
    } else {
        0
    }
}

/// `v * num / den`, the magnitude rounded down (toward zero).
pub open spec fn scale_toward_zero(v: int, num: int, den: int) -> int {
    if v < 0 {
        -((-v * num) / den)
    } else {
        (v * num) / den
    }
}

/// `v / den`, the magnitude rounded up (away from zero), so that the quotient
/// is zero only for `v == 0`.
pub open spec fn divide_away_from_zero(v: int, den: int) -> int {
    if v < 0 {
        -((-v + den - 1) / den)
    } else {
        (v + den - 1) / den
    }
}

/// `v` in whole pixels, rounded to the nearest; a half rounds away from zero.
pub open spec fn round_to_pixel(v: int) -> int {
    if v < 0 {
        -((-v + UNIT / 2) / (UNIT as int))
    } else {
        (v + UNIT / 2) / (UNIT as int)
    }
}

/// `v` brought into the range of `i32`.
pub open spec fn clamp_i32(v: int) -> int {
    if v < i32::MIN {
        i32::MIN as int
    } else if v > i32::MAX {
        i32::MAX as int
    } else {
        v
    }
}

/// `n` whole pixels in fixed-point units.
pub fn pixels(n: u8) -> (r: i64)
    ensures
        r == n * UNIT,
{
    n as i64 * UNIT
}

/// Narrows a wide intermediate result to `i64`, saturating.
pub fn narrow(v: i128) -> (r: i64)
    ensures
        r == clamp(v as int),
{
    if v < i64::MIN as i128 {
        i64::MIN
    } else if v > i64::MAX as i128 {
        i64::MAX
    } else {
        v as i64
    }
}

/// Saturating sum.
pub fn sum(a: i64, b: i64) -> (r: i64)
    ensures
        r == clamp(a + b),
{
    narrow(a as i128 + b as i128)
}

/// Saturating negation: `i64::MIN` becomes `i64::MAX`.
pub fn negated(a: i64) -> (r: i64)
    ensures
        r == clamp(-a),
{
    narrow(-(a as i128))
}

/// The absolute value of `v`, which always fits in `u64`.
pub fn magnitude_of(v: i64) -> (r: u64)
    ensures
        r == magnitude(v as int),
{
    if v < 0 {
        (-(v as i128)) as u64
    } else {
        v as u64
    }
}

/// `v * num / den` with the magnitude rounded down, saturating.
pub fn scaled(v: i64, num: u32, den: u32) -> (r: i64)
    requires
        den > 0,
    ensures
        r == clamp(scale_toward_zero(v as int, num as int, den as int)),
{
    let m: u128 = magnitude_of(v) as u128;
    assert(m * num <= u64::MAX * u32::MAX) by (nonlinear_arith)
        requires
            0 <= m <= u64::MAX,
            0 <= num <= u32::MAX,
    ;
    let q: u128 = (m * num as u128) / den as u128;
    assert(q <= m * num) by (nonlinear_arith)
        requires
            q == (m * num) / (den as int),
            den > 0,
            m * num >= 0,
    ;
    if v < 0 {
        narrow(-(q as i128))
    } else {
        narrow(q as i128)
    }
}

/// `v / den` with the magnitude rounded up, saturating.
pub fn divided_away_from_zero(v: i128, den: u32) -> (r: i64)
    requires
        den > 0,
        v > i128::MIN,
    ensures
        r == clamp(divide_away_from_zero(v as int, den as int)),
{
    let m: u128 = if v < 0 {
        (-v) as u128
    } else {
        v as u128
    };
    let q: u128 = (m + (den as u128 - 1)) / den as u128;
    assert(q <= m) by (nonlinear_arith)
        requires
            q == (m + den - 1) / (den as int),
            den > 0,
            m >= 0,
    ;
    if v < 0 {
        narrow(-(q as i128))
    } else {
        narrow(q as i128)
    }
}

/// `v` in whole pixels, rounded to the nearest, saturating at the ends of `i32`.
pub fn rounded_pixel(v: i64) -> (r: i32)
    ensures
        r == clamp_i32(round_to_pixel(v as int)),
{
    let m: u128 = magnitude_of(v) as u128;
    let q: u128 = (m + 500_000) / 1_000_000;
    if q > i32::MAX as u128 {
        if v < 0 {
            i32::MIN
        } else {
            i32::MAX
        }
    } else if v < 0 {
        -(q as i32)
    } else {
        q as i32
    }
}

} // verus!
