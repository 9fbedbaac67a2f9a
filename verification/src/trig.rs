//! Fixed-point sine and cosine.
//!
//! Angles are fixed-point radians.  An angle is first wrapped into the
//! interval `[-FX_PI, FX_PI)` and the result is then a truncated Taylor
//! polynomial evaluated with the saturating fixed-point helpers, so both
//! functions are total and exact integer computations.

use vstd::prelude::*;

use crate::fixed::{fx_mul, fx_sub, fx_add, sadd, ssub, smul, tdiv, FX_ONE};

verus! {

/// Fixed-point value of pi.
pub const FX_PI: i64 = 205887;

/// Fixed-point value of one full turn, kept at exactly `2 * FX_PI` so that
/// the wrapping interval below covers every residue.
pub const FX_TAU: i64 = 411774;

/// The representative of `theta` modulo a full turn that lies in
/// `[-FX_PI, FX_PI)`.  `%` here is the mathematical (Euclidean) remainder.
pub open spec fn wrap_angle(theta: i64) -> int {
    (theta + FX_PI) % (FX_TAU as int) - FX_PI
}

/// Truncated Taylor polynomial for the sine of a wrapped angle `x`:
/// `x - x^3/6 + x^5/120 - x^7/5040 + x^9/362880`, evaluated with
/// saturating fixed-point steps.
pub open spec fn sin_poly(x: i64) -> i64 {
    let x2 = smul(x, x);
    let x3 = smul(x2, x);
    let x5 = smul(x3, x2);
    let x7 = smul(x5, x2);
    let x9 = smul(x7, x2);
    sadd(
        ssub(sadd(ssub(x, tdiv(x3 as int, 6) as i64), tdiv(x5 as int, 120) as i64),
            tdiv(x7 as int, 5040) as i64),
        tdiv(x9 as int, 362880) as i64,
    )
}

/// Truncated Taylor polynomial for the cosine of a wrapped angle `x`:
/// `1 - x^2/2 + x^4/24 - x^6/720 + x^8/40320`, evaluated with saturating
/// fixed-point steps.
pub open spec fn cos_poly(x: i64) -> i64 {
    let x2 = smul(x, x);
    let x4 = smul(x2, x2);
    let x6 = smul(x4, x2);
    let x8 = smul(x6, x2);
    sadd(
        ssub(sadd(ssub(FX_ONE, tdiv(x2 as int, 2) as i64), tdiv(x4 as int, 24) as i64),
            tdiv(x6 as int, 720) as i64),
        tdiv(x8 as int, 40320) as i64,
    )
}

/// The sine of a fixed-point angle.
#[verifier::opaque]
pub open spec fn spec_sin(theta: i64) -> i64 {
    sin_poly(wrap_angle(theta) as i64)
}

/// The cosine of a fixed-point angle.
#[verifier::opaque]
pub open spec fn spec_cos(theta: i64) -> i64 {
    cos_poly(wrap_angle(theta) as i64)
}

/// Wrap an angle into `[-FX_PI, FX_PI)`.
fn wrap_angle_exec(theta: i64) -> (r: i64)
    ensures
        r == wrap_angle(theta),
        -FX_PI <= r < FX_PI,
{
    // Shift by a multiple of FX_TAU large enough to make the dividend
    // non-negative, so that the machine remainder is the mathematical one.
    let big: i128 = 14488009632506707968;
    assert(big == 0x2000_0000_0000 * (FX_TAU as int));
    let t: i128 = theta as i128 + FX_PI as i128 + big;
    let m: i128 = t % (FX_TAU as i128);
    proof {
        vstd::arithmetic::div_mod::lemma_mod_multiples_vanish(
            0x2000_0000_0000,
            theta + FX_PI,
            FX_TAU as int,
        );
        vstd::arithmetic::div_mod::lemma_mod_bound(theta + FX_PI, FX_TAU as int);
    }
    (m - FX_PI as i128) as i64
}

/// Truncated division of a fixed-point scalar by a small positive factor.
fn div_by(a: i64, d: i64) -> (r: i64)
    requires
        d > 0,
    ensures
        r == tdiv(a as int, d as int),
{
    if a >= 0 {
        a / d
    } else {
        proof {
            vstd::arithmetic::div_mod::lemma_div_nonincreasing(-(a as int), d as int);
            vstd::arithmetic::div_mod::lemma_div_pos_is_pos(-(a as int), d as int);
        }
        let q: i128 = (-(a as i128)) / (d as i128);
        (-q) as i64
    }
}

/// Fixed-point sine of a fixed-point angle in radians.
pub fn fx_sin(theta: i64) -> (r: i64)
    ensures
        r == spec_sin(theta),
{
    proof {
        reveal(spec_sin);
    }
    let x = wrap_angle_exec(theta);
    let x2 = fx_mul(x, x);
    let x3 = fx_mul(x2, x);
    let x5 = fx_mul(x3, x2);
    let x7 = fx_mul(x5, x2);
    let x9 = fx_mul(x7, x2);
    fx_add(
        fx_sub(fx_add(fx_sub(x, div_by(x3, 6)), div_by(x5, 120)), div_by(x7, 5040)),
        div_by(x9, 362880),
    )
}

/// Fixed-point cosine of a fixed-point angle in radians.
pub fn fx_cos(theta: i64) -> (r: i64)
    ensures
        r == spec_cos(theta),
{
    proof {
        reveal(spec_cos);
    }
    let x = wrap_angle_exec(theta);
    let x2 = fx_mul(x, x);
    let x4 = fx_mul(x2, x2);
    let x6 = fx_mul(x4, x2);
    let x8 = fx_mul(x6, x2);
    fx_add(
        fx_sub(fx_add(fx_sub(FX_ONE, div_by(x2, 2)), div_by(x4, 24)), div_by(x6, 720)),
        div_by(x8, 40320),
    )
}

} // verus!
