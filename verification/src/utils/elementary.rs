//! Sine, cosine, tangent and logarithm on fixed-point scalars.
//!
//! Each function is a short polynomial in saturating arithmetic. Its contract
//! states that polynomial exactly; how close it comes to the function it is
//! named after is a matter of numerical analysis and is not proved here.

use crate::utils::scalar::{Scalar, SCALE};
use vstd::prelude::*;

verus! {

/// Half a turn, in raw units of angle (radians).
pub const PI_RAW: i64 = 3_141_593;

/// A quarter turn.
pub const HALF_PI_RAW: i64 = 1_570_796;

/// A full turn.
pub const TAU_RAW: i64 = 6_283_185;

/// The natural logarithm of 2.
pub const LN2_RAW: i64 = 693_147;

/// The angle in `[0, TAU_RAW)` that differs from `a` by whole turns.
pub open spec fn wrap_angle(a: int) -> int {
    if a >= 0 {
        a % (TAU_RAW as int)
    } else {
        let m = (-a) % (TAU_RAW as int);
        if m == 0 {
            0
        } else {
            TAU_RAW - m
        }
    }
}

fn wrapped(a: i64) -> (m: i64)
    ensures
        m == wrap_angle(a as int),
        0 <= m < TAU_RAW,
{
    if a >= 0 {
        ((a as u64) % (TAU_RAW as u64)) as i64
    } else {
        let n: u64 = (-(a as i128)) as u64;
        let m: u64 = n % (TAU_RAW as u64);
        if m == 0 {
            0
        } else {
            TAU_RAW - (m as i64)
        }
    }
}

/// One step of a nested polynomial: `1 - (y2 / k) * acc`.
pub open spec fn spec_horner(y2: Scalar, k: i64, acc: Scalar) -> Scalar {
    Scalar::one().minus(y2.over(Scalar::from_int(k)).times(acc))
}

#[verifier::when_used_as_spec(spec_horner)]
fn horner(y2: Scalar, k: i64, acc: Scalar) -> (r: Scalar)
    ensures
        r == spec_horner(y2, k, acc),
{
    Scalar::one().minus(y2.over(Scalar::from_int(k)).times(acc))
}

/// The odd polynomial of degree 11 that sine is close to on a quarter turn:
/// `y - y^3/3! + y^5/5! - y^7/7! + y^9/9! - y^11/11!`, nested.
pub open spec fn spec_sin_quarter(y: Scalar) -> Scalar {
    let y2 = y.times(y);
    y.times(
        spec_horner(
            y2,
            6,
            spec_horner(
                y2,
                20,
                spec_horner(y2, 42, spec_horner(y2, 72, spec_horner(y2, 110, Scalar::one()))),
            ),
        ),
    )
}

#[verifier::when_used_as_spec(spec_sin_quarter)]
fn sin_quarter(y: Scalar) -> (r: Scalar)
    ensures
        r == spec_sin_quarter(y),
{
    let y2 = y.times(y);
    let a = horner(y2, 110, Scalar::one());
    let b = horner(y2, 72, a);
    let c = horner(y2, 42, b);
    let d = horner(y2, 20, c);
    y.times(horner(y2, 6, d))
}

pub open spec fn spec_sin(x: Scalar) -> Scalar {
    let m = wrap_angle(x.raw as int);
    if m <= HALF_PI_RAW {
        spec_sin_quarter(Scalar { raw: m as i64 })
    } else if m <= PI_RAW {
        spec_sin_quarter(Scalar { raw: (PI_RAW - m) as i64 })
    } else if m <= PI_RAW + HALF_PI_RAW {
        spec_sin_quarter(Scalar { raw: (m - PI_RAW) as i64 }).negated()
    } else {
        spec_sin_quarter(Scalar { raw: (TAU_RAW - m) as i64 }).negated()
    }
}

/// Sine of an angle in radians: the angle is brought into one turn, folded
/// into the first quarter, and the polynomial evaluated there.
#[verifier::when_used_as_spec(spec_sin)]
pub fn sin(x: Scalar) -> (r: Scalar)
    ensures
        r == spec_sin(x),
{
    let m: i64 = wrapped(x.raw);
    if m <= HALF_PI_RAW {
        sin_quarter(Scalar { raw: m })
    } else if m <= PI_RAW {
        sin_quarter(Scalar { raw: PI_RAW - m })
    } else if m <= PI_RAW + HALF_PI_RAW {
        sin_quarter(Scalar { raw: m - PI_RAW }).negated()
    } else {
        sin_quarter(Scalar { raw: TAU_RAW - m }).negated()
    }
}

pub open spec fn spec_cos(x: Scalar) -> Scalar {
    spec_sin(x.plus(Scalar { raw: HALF_PI_RAW }))
}

/// Cosine of an angle in radians: the sine a quarter turn later.
#[verifier::when_used_as_spec(spec_cos)]
pub fn cos(x: Scalar) -> (r: Scalar)
    ensures
        r == spec_cos(x),
{
    sin(x.plus(Scalar { raw: HALF_PI_RAW }))
}

pub open spec fn spec_tan(x: Scalar) -> Scalar {
    spec_sin(x).over(spec_cos(x))
}

/// Tangent of an angle in radians: sine over cosine.
#[verifier::when_used_as_spec(spec_tan)]
pub fn tan(x: Scalar) -> (r: Scalar)
    ensures
        r == spec_tan(x),
{
    sin(x).over(cos(x))
}

pub open spec fn spec_to_radians(degrees: Scalar) -> Scalar {
    degrees.times(Scalar { raw: PI_RAW }).over(Scalar::from_int(180))
}

/// An angle given in degrees, in radians.
#[verifier::when_used_as_spec(spec_to_radians)]
pub fn to_radians(degrees: Scalar) -> (r: Scalar)
    ensures
        r == spec_to_radians(degrees),
{
    degrees.times(Scalar { raw: PI_RAW }).over(Scalar::from_int(180))
}

/// The odd polynomial of degree 9 that the inverse hyperbolic tangent is
/// close to near 0: `y + y^3/3 + y^5/5 + y^7/7 + y^9/9`, nested.
pub open spec fn spec_atanh_series(y: Scalar) -> Scalar {
    let y2 = y.times(y);
    let c3 = Scalar::one().over(Scalar::from_int(3));
    let c5 = Scalar::one().over(Scalar::from_int(5));
    let c7 = Scalar::one().over(Scalar::from_int(7));
    let c9 = Scalar::one().over(Scalar::from_int(9));
    y.times(
        Scalar::one().plus(
            y2.times(c3.plus(y2.times(c5.plus(y2.times(c7.plus(y2.times(c9))))))),
        ),
    )
}

#[verifier::when_used_as_spec(spec_atanh_series)]
fn atanh_series(y: Scalar) -> (r: Scalar)
    ensures
        r == spec_atanh_series(y),
{
    let y2 = y.times(y);
    let c3 = Scalar::one().over(Scalar::from_int(3));
    let c5 = Scalar::one().over(Scalar::from_int(5));
    let c7 = Scalar::one().over(Scalar::from_int(7));
    let c9 = Scalar::one().over(Scalar::from_int(9));
    let inner = c3.plus(y2.times(c5.plus(y2.times(c7.plus(y2.times(c9))))));
    y.times(Scalar::one().plus(y2.times(inner)))
}

/// Minus the logarithm of a number from one half up, by the series
/// `ln u = 2 atanh((u - 1) / (u + 1))`.
pub open spec fn spec_neg_ln_upper(u: Scalar) -> Scalar {
    spec_atanh_series(u.minus(Scalar::one()).over(u.plus(Scalar::one()))).times(
        Scalar::from_int(2),
    ).negated()
}

pub open spec fn spec_neg_ln(u: Scalar) -> Scalar
    decreases SCALE - u.raw,
{
    if u.raw <= 0 {
        Scalar::infinity()
    } else if 2 * u.raw >= SCALE {
        spec_neg_ln_upper(u)
    } else {
        Scalar { raw: LN2_RAW }.plus(spec_neg_ln(Scalar { raw: (2 * u.raw) as i64 }))
    }
}

/// Minus the natural logarithm, meant for numbers in `(0, 1]`: the number is
/// doubled until it reaches one half, each doubling adding `ln 2`, and the
/// series is evaluated there. For 0 and below the result is the largest
/// scalar.
#[verifier::when_used_as_spec(spec_neg_ln)]
pub fn neg_ln(u: Scalar) -> (r: Scalar)
    ensures
        r == spec_neg_ln(u),
    decreases SCALE - u.raw,
{
    if u.raw <= 0 {
        Scalar::infinity()
    } else if u.raw >= SCALE / 2 {
        atanh_series(u.minus(Scalar::one()).over(u.plus(Scalar::one()))).times(
            Scalar::from_int(2),
        ).negated()
    } else {
        Scalar { raw: LN2_RAW }.plus(neg_ln(Scalar { raw: 2 * u.raw }))
    }
}

} // verus!
