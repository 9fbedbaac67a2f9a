//! Fixed-point scalar arithmetic.
//!
//! Every scalar in the library is a signed 64-bit fixed-point number counted
//! in steps of `1 / FX_ONE`.  The arithmetic helpers here are total: sums and
//! products are computed in 128 bits and then clipped into the `i64` range,
//! so no operation can overflow or panic.  Division truncates toward zero,
//! matching the behaviour of Rust's `/` operator.

use vstd::prelude::*;

verus! {

/// Number of fixed-point steps in one unit.
pub const FX_ONE: i64 = 65536;

/// Clip a mathematical integer into the `i64` range.
pub open spec fn clip(x: int) -> i64 {
    if x > i64::MAX {
        i64::MAX
    } else if x < i64::MIN {
        i64::MIN
    } else {
        x as i64
    }
}

/// Quotient of `a / d` truncated toward zero, as Rust's `/` computes it.
pub open spec fn tdiv(a: int, d: int) -> int
    recommends
        d > 0,
{
    if a >= 0 {
        a / d
    } else {
        -((-a) / d)
    }
}

/// Saturating fixed-point sum.
pub open spec fn sadd(a: i64, b: i64) -> i64 {
    clip(a + b)
}

/// Saturating fixed-point difference.
pub open spec fn ssub(a: i64, b: i64) -> i64 {
    clip(a - b)
}

/// Saturating fixed-point negation.
pub open spec fn sneg(a: i64) -> i64 {
    clip(-a)
}

/// Absolute value, saturating at `i64::MAX` for `i64::MIN`.
pub open spec fn sabs(a: i64) -> i64 {
    if a >= 0 {
        a
    } else {
        sneg(a)
    }
}

/// Saturating fixed-point product: `(a * b) / FX_ONE`, truncated toward zero.
pub open spec fn smul(a: i64, b: i64) -> i64 {
    clip(tdiv(a * b, FX_ONE as int))
}

/// Half of `a`, truncated toward zero.
pub open spec fn shalf(a: i64) -> i64 {
    tdiv(a as int, 2) as i64
}

/// Saturating fixed-point quotient for a positive divisor:
/// `(a * FX_ONE) / b`, truncated toward zero.
pub open spec fn sdiv(a: i64, b: i64) -> i64
    recommends
        b > 0,
{
    clip(tdiv(a * FX_ONE, b as int))
}

/// Clip a 128-bit intermediate result into the `i64` range.
fn clip128(x: i128) -> (r: i64)
    ensures
        r == clip(x as int),
{
    if x > i64::MAX as i128 {
        i64::MAX
    } else if x < i64::MIN as i128 {
        i64::MIN
    } else {
        x as i64
    }
}

/// Fixed-point addition, saturating at the ends of the `i64` range.
pub fn fx_add(a: i64, b: i64) -> (r: i64)
    ensures
        r == sadd(a, b),
{
    clip128(a as i128 + b as i128)
}

/// Fixed-point subtraction, saturating at the ends of the `i64` range.
pub fn fx_sub(a: i64, b: i64) -> (r: i64)
    ensures
        r == ssub(a, b),
{
    clip128(a as i128 - b as i128)
}

/// Fixed-point negation, saturating at `i64::MAX` for `i64::MIN`.
pub fn fx_neg(a: i64) -> (r: i64)
    ensures
        r == sneg(a),
{
    clip128(-(a as i128))
}

/// Absolute value, saturating at `i64::MAX` for `i64::MIN`.
pub fn fx_abs(a: i64) -> (r: i64)
    ensures
        r == sabs(a),
{
    if a >= 0 {
        a
    } else {
        fx_neg(a)
    }
}

/// Truncated-toward-zero division of a 128-bit value by a positive divisor.
fn tdiv128(a: i128, d: i128) -> (r: i128)
    requires
        d > 0,
        a > i128::MIN,
    ensures
        r == tdiv(a as int, d as int),
{
    if a >= 0 {
        a / d
    } else {
        -((-a) / d)
    }
}

/// Fixed-point multiplication: `(a * b) / FX_ONE` truncated toward zero,
/// saturating at the ends of the `i64` range.
pub fn fx_mul(a: i64, b: i64) -> (r: i64)
    ensures
        r == smul(a, b),
{
    proof {
        lemma_prod_in_i128(a, b);
    }
    let p: i128 = (a as i128) * (b as i128);
    let q = tdiv128(p, FX_ONE as i128);
    clip128(q)
}

/// Fixed-point division by a positive divisor: `(a * FX_ONE) / b`
/// truncated toward zero, saturating at the ends of the `i64` range.
pub fn fx_div(a: i64, b: i64) -> (r: i64)
    requires
        b > 0,
    ensures
        r == sdiv(a, b),
{
    proof {
        lemma_prod_in_i128(a, FX_ONE);
    }
    let p: i128 = (a as i128) * (FX_ONE as i128);
    let q = tdiv128(p, b as i128);
    clip128(q)
}

/// Half of `a`, truncated toward zero.
pub fn fx_half(a: i64) -> (r: i64)
    ensures
        r == shalf(a),
{
    let q = tdiv128(a as i128, 2);
    clip128(q)
}

/// The product of two `i64` values lies strictly inside the `i128` range.
proof fn lemma_prod_in_i128(a: i64, b: i64)
    by (nonlinear_arith)
    ensures
        (a as int) * (b as int) < i128::MAX,
        (a as int) * (b as int) > i128::MIN,
{
}

/// Truncated division by a power-of-two scale recovers a scaled value:
/// `tdiv(a * d, d) == a`.
pub proof fn lemma_tdiv_exact(a: int, d: int)
    by (nonlinear_arith)
    requires
        d > 0,
    ensures
        tdiv(a * d, d) == a,
{
}

/// Scaling a truncated quotient back up lands within one scale step of
/// the dividend: `a - FX_ONE < FX_ONE * tdiv(a, FX_ONE) < a + FX_ONE`.
pub proof fn lemma_tdiv_near(a: int)
    ensures
        a - FX_ONE < FX_ONE * tdiv(a, FX_ONE as int),
        FX_ONE * tdiv(a, FX_ONE as int) < a + FX_ONE,
{
    let s = FX_ONE as int;
    if a >= 0 {
        vstd::arithmetic::div_mod::lemma_fundamental_div_mod(a, s);
        vstd::arithmetic::div_mod::lemma_mod_bound(a, s);
    } else {
        vstd::arithmetic::div_mod::lemma_fundamental_div_mod(-a, s);
        vstd::arithmetic::div_mod::lemma_mod_bound(-a, s);
    }
}

/// A fixed-point product of bounded factors does not saturate, stays
/// within the bound of its second factor, and lies within one scale step
/// of the exact product.
pub proof fn lemma_smul_err(a: i64, b: i64, bound: int)
    requires
        -(FX_ONE as int) <= a as int <= FX_ONE as int,
        0 <= bound <= 0x4000_0000_0000,
        -bound <= b as int <= bound,
    ensures
        -bound - 1 <= smul(a, b) as int <= bound + 1,
        (a as int) * (b as int) - FX_ONE < FX_ONE * (smul(a, b) as int),
        FX_ONE * (smul(a, b) as int) < (a as int) * (b as int) + FX_ONE,
{
    let s = FX_ONE as int;
    let p = (a as int) * (b as int);
    assert((-(s * bound) <= p) && (p <= s * bound)) by (nonlinear_arith)
        requires
            s == 65536,
            p == (a as int) * (b as int),
            -s <= a as int <= s,
            0 <= bound,
            -bound <= b as int <= bound;
    lemma_tdiv_near(p);
    let q = tdiv(p, s);
    assert(s * q < s * bound + s);
    assert(s * q > -(s * bound) - s);
    assert((s * q < s * (bound + 1) ==> q < bound + 1) && (s * q > s * (-bound - 1) ==> q
        > -bound - 1)) by (nonlinear_arith)
        requires
            s == 65536;

    assert(s * (bound + 1) == s * bound + s) by (nonlinear_arith);
    assert(s * (-bound - 1) == -(s * bound) - s) by (nonlinear_arith);
    assert(-bound - 1 <= q <= bound + 1);
    assert(clip(q) == q);
}

/// `smul` by the unit scale is the identity: multiplying any scalar by
/// `FX_ONE` gives the scalar back exactly.
pub proof fn lemma_smul_one(a: i64)
    ensures
        smul(a, FX_ONE) == a,
        smul(FX_ONE, a) == a,
{
    lemma_tdiv_exact(a as int, FX_ONE as int);
    assert(FX_ONE * a == a * FX_ONE) by (nonlinear_arith);
}

/// Multiplying by zero gives zero exactly.
pub proof fn lemma_smul_zero(a: i64)
    ensures
        smul(a, 0) == 0,
        smul(0, a) == 0,
{
    assert(a * 0 == 0) by (nonlinear_arith);
    assert(0 * a == 0) by (nonlinear_arith);
}

} // verus!
