//! Fixed-point vectors and matrices.
//!
//! A `Vec3` is a triple of fixed-point scalars; a `Mat3` is a row-major
//! 3-by-3 matrix whose entries are fixed-point scalars, so the identity
//! matrix carries `FX_ONE` on its diagonal.  All operations are built from
//! the saturating scalar helpers of `crate::fixed` and are therefore total.

use vstd::prelude::*;

use crate::fixed::{
    fx_add, fx_mul, fx_neg, sadd, smul, sneg, FX_ONE,
};

verus! {

/// A vector of three fixed-point scalars.
#[derive(Clone, Copy, PartialEq, Eq, Structural, Debug)]
pub struct Vec3 {
    pub x: i64,
    pub y: i64,
    pub z: i64,
}

/// A row-major 3-by-3 matrix of fixed-point scalars.  Field `r<i>c<j>`
/// holds the entry of row `i`, column `j`.
#[derive(Clone, Copy, PartialEq, Eq, Structural, Debug)]
pub struct Mat3 {
    pub r0c0: i64,
    pub r0c1: i64,
    pub r0c2: i64,
    pub r1c0: i64,
    pub r1c1: i64,
    pub r1c2: i64,
    pub r2c0: i64,
    pub r2c1: i64,
    pub r2c2: i64,
}

/// Fixed-point dot product of two scalar triples: each product is scaled
/// back by `FX_ONE` before the saturating sums.
pub open spec fn dot3(a0: i64, a1: i64, a2: i64, b0: i64, b1: i64, b2: i64) -> i64 {
    sadd(sadd(smul(a0, b0), smul(a1, b1)), smul(a2, b2))
}

/// Component-wise vector sum.
pub open spec fn v_add(a: Vec3, b: Vec3) -> Vec3 {
    Vec3 { x: sadd(a.x, b.x), y: sadd(a.y, b.y), z: sadd(a.z, b.z) }
}

/// Component-wise vector negation.
pub open spec fn v_neg(a: Vec3) -> Vec3 {
    Vec3 { x: sneg(a.x), y: sneg(a.y), z: sneg(a.z) }
}

/// Vector scaled by a fixed-point factor.
pub open spec fn v_scale(a: Vec3, k: i64) -> Vec3 {
    Vec3 { x: smul(a.x, k), y: smul(a.y, k), z: smul(a.z, k) }
}

/// Matrix product: entry by entry, the fixed-point dot product of a row
/// of `a` with a column of `b`.
#[verifier::opaque]
pub open spec fn m_mul(a: Mat3, b: Mat3) -> Mat3 {
    Mat3 {
        r0c0: dot3(a.r0c0, a.r0c1, a.r0c2, b.r0c0, b.r1c0, b.r2c0),
        r0c1: dot3(a.r0c0, a.r0c1, a.r0c2, b.r0c1, b.r1c1, b.r2c1),
        r0c2: dot3(a.r0c0, a.r0c1, a.r0c2, b.r0c2, b.r1c2, b.r2c2),
        r1c0: dot3(a.r1c0, a.r1c1, a.r1c2, b.r0c0, b.r1c0, b.r2c0),
        r1c1: dot3(a.r1c0, a.r1c1, a.r1c2, b.r0c1, b.r1c1, b.r2c1),
        r1c2: dot3(a.r1c0, a.r1c1, a.r1c2, b.r0c2, b.r1c2, b.r2c2),
        r2c0: dot3(a.r2c0, a.r2c1, a.r2c2, b.r0c0, b.r1c0, b.r2c0),
        r2c1: dot3(a.r2c0, a.r2c1, a.r2c2, b.r0c1, b.r1c1, b.r2c1),
        r2c2: dot3(a.r2c0, a.r2c1, a.r2c2, b.r0c2, b.r1c2, b.r2c2),
    }
}

/// Matrix applied to a vector: the fixed-point dot product of each row
/// with the vector.
#[verifier::opaque]
pub open spec fn m_apply(m: Mat3, v: Vec3) -> Vec3 {
    Vec3 {
        x: dot3(m.r0c0, m.r0c1, m.r0c2, v.x, v.y, v.z),
        y: dot3(m.r1c0, m.r1c1, m.r1c2, v.x, v.y, v.z),
        z: dot3(m.r2c0, m.r2c1, m.r2c2, v.x, v.y, v.z),
    }
}

/// The transpose of a matrix.
pub open spec fn m_transpose(m: Mat3) -> Mat3 {
    Mat3 {
        r0c0: m.r0c0,
        r0c1: m.r1c0,
        r0c2: m.r2c0,
        r1c0: m.r0c1,
        r1c1: m.r1c1,
        r1c2: m.r2c1,
        r2c0: m.r0c2,
        r2c1: m.r1c2,
        r2c2: m.r2c2,
    }
}

/// The identity matrix at the fixed-point scale.
pub open spec fn m_identity() -> Mat3 {
    Mat3 {
        r0c0: FX_ONE,
        r0c1: 0,
        r0c2: 0,
        r1c0: 0,
        r1c1: FX_ONE,
        r1c2: 0,
        r2c0: 0,
        r2c1: 0,
        r2c2: FX_ONE,
    }
}

impl Vec3 {
    pub fn new(x: i64, y: i64, z: i64) -> (r: Vec3)
        ensures
            r == (Vec3 { x, y, z }),
    {
        Vec3 { x, y, z }
    }

    pub fn zero() -> (r: Vec3)
        ensures
            r == (Vec3 { x: 0i64, y: 0i64, z: 0i64 }),
    {
        Vec3 { x: 0, y: 0, z: 0 }
    }

    pub fn add(self, other: Vec3) -> (r: Vec3)
        ensures
            r == v_add(self, other),
    {
        Vec3 { x: fx_add(self.x, other.x), y: fx_add(self.y, other.y), z: fx_add(self.z, other.z) }
    }

    pub fn neg(self) -> (r: Vec3)
        ensures
            r == v_neg(self),
    {
        Vec3 { x: fx_neg(self.x), y: fx_neg(self.y), z: fx_neg(self.z) }
    }

    pub fn scale(self, k: i64) -> (r: Vec3)
        ensures
            r == v_scale(self, k),
    {
        Vec3 { x: fx_mul(self.x, k), y: fx_mul(self.y, k), z: fx_mul(self.z, k) }
    }
}

/// Fixed-point dot product of two scalar triples.
fn dot3_exec(a0: i64, a1: i64, a2: i64, b0: i64, b1: i64, b2: i64) -> (r: i64)
    ensures
        r == dot3(a0, a1, a2, b0, b1, b2),
{
    fx_add(fx_add(fx_mul(a0, b0), fx_mul(a1, b1)), fx_mul(a2, b2))
}

impl Mat3 {
    pub fn identity() -> (r: Mat3)
        ensures
            r == m_identity(),
    {
        Mat3 {
            r0c0: FX_ONE,
            r0c1: 0,
            r0c2: 0,
            r1c0: 0,
            r1c1: FX_ONE,
            r1c2: 0,
            r2c0: 0,
            r2c1: 0,
            r2c2: FX_ONE,
        }
    }

    pub fn mul(self, other: Mat3) -> (r: Mat3)
        ensures
            r == m_mul(self, other),
    {
        proof {
            reveal(m_mul);
        }
        Mat3 {
            r0c0: dot3_exec(self.r0c0, self.r0c1, self.r0c2, other.r0c0, other.r1c0, other.r2c0),
            r0c1: dot3_exec(self.r0c0, self.r0c1, self.r0c2, other.r0c1, other.r1c1, other.r2c1),
            r0c2: dot3_exec(self.r0c0, self.r0c1, self.r0c2, other.r0c2, other.r1c2, other.r2c2),
            r1c0: dot3_exec(self.r1c0, self.r1c1, self.r1c2, other.r0c0, other.r1c0, other.r2c0),
            r1c1: dot3_exec(self.r1c0, self.r1c1, self.r1c2, other.r0c1, other.r1c1, other.r2c1),
            r1c2: dot3_exec(self.r1c0, self.r1c1, self.r1c2, other.r0c2, other.r1c2, other.r2c2),
            r2c0: dot3_exec(self.r2c0, self.r2c1, self.r2c2, other.r0c0, other.r1c0, other.r2c0),
            r2c1: dot3_exec(self.r2c0, self.r2c1, self.r2c2, other.r0c1, other.r1c1, other.r2c1),
            r2c2: dot3_exec(self.r2c0, self.r2c1, self.r2c2, other.r0c2, other.r1c2, other.r2c2),
        }
    }

    pub fn apply(self, v: Vec3) -> (r: Vec3)
        ensures
            r == m_apply(self, v),
    {
        proof {
            reveal(m_apply);
        }
        Vec3 {
            x: dot3_exec(self.r0c0, self.r0c1, self.r0c2, v.x, v.y, v.z),
            y: dot3_exec(self.r1c0, self.r1c1, self.r1c2, v.x, v.y, v.z),
            z: dot3_exec(self.r2c0, self.r2c1, self.r2c2, v.x, v.y, v.z),
        }
    }

    pub fn transpose(self) -> (r: Mat3)
        ensures
            r == m_transpose(self),
    {
        Mat3 {
            r0c0: self.r0c0,
            r0c1: self.r1c0,
            r0c2: self.r2c0,
            r1c0: self.r0c1,
            r1c1: self.r1c1,
            r1c2: self.r2c1,
            r2c0: self.r0c2,
            r2c1: self.r1c2,
            r2c2: self.r2c2,
        }
    }
}

/// A fixed-point dot product whose left factors are at most one unit and
/// whose right factors are bounded stays bounded, and lies within three
/// scale steps of the exact sum of products.
pub proof fn lemma_dot3_err(a0: i64, a1: i64, a2: i64, b0: i64, b1: i64, b2: i64, bound: int)
    requires
        -(FX_ONE as int) <= a0 as int <= FX_ONE as int,
        -(FX_ONE as int) <= a1 as int <= FX_ONE as int,
        -(FX_ONE as int) <= a2 as int <= FX_ONE as int,
        0 <= bound <= 0x4000_0000_0000,
        -bound <= b0 as int <= bound,
        -bound <= b1 as int <= bound,
        -bound <= b2 as int <= bound,
    ensures
        -3 * bound - 3 <= dot3(a0, a1, a2, b0, b1, b2) as int <= 3 * bound + 3,
        (a0 as int) * b0 + (a1 as int) * b1 + (a2 as int) * b2 - 3 * FX_ONE < FX_ONE * (dot3(
            a0,
            a1,
            a2,
            b0,
            b1,
            b2,
        ) as int),
        FX_ONE * (dot3(a0, a1, a2, b0, b1, b2) as int) < (a0 as int) * b0 + (a1 as int) * b1 + (
        a2 as int) * b2 + 3 * FX_ONE,
{
    crate::fixed::lemma_smul_err(a0, b0, bound);
    crate::fixed::lemma_smul_err(a1, b1, bound);
    crate::fixed::lemma_smul_err(a2, b2, bound);
    let t0 = smul(a0, b0) as int;
    let t1 = smul(a1, b1) as int;
    let t2 = smul(a2, b2) as int;
    assert(sadd(smul(a0, b0), smul(a1, b1)) as int == t0 + t1);
    assert(dot3(a0, a1, a2, b0, b1, b2) as int == t0 + t1 + t2);
}

/// Multiplying any matrix by the identity, on either side, gives the
/// matrix back exactly: the fixed-point scaling cancels without loss.
pub proof fn lemma_m_mul_identity(m: Mat3)
    ensures
        m_mul(m, m_identity()) == m,
        m_mul(m_identity(), m) == m,
{
    reveal(m_mul);
    crate::fixed::lemma_smul_one(m.r0c0);
    crate::fixed::lemma_smul_one(m.r0c1);
    crate::fixed::lemma_smul_one(m.r0c2);
    crate::fixed::lemma_smul_one(m.r1c0);
    crate::fixed::lemma_smul_one(m.r1c1);
    crate::fixed::lemma_smul_one(m.r1c2);
    crate::fixed::lemma_smul_one(m.r2c0);
    crate::fixed::lemma_smul_one(m.r2c1);
    crate::fixed::lemma_smul_one(m.r2c2);
    crate::fixed::lemma_smul_zero(m.r0c0);
    crate::fixed::lemma_smul_zero(m.r0c1);
    crate::fixed::lemma_smul_zero(m.r0c2);
    crate::fixed::lemma_smul_zero(m.r1c0);
    crate::fixed::lemma_smul_zero(m.r1c1);
    crate::fixed::lemma_smul_zero(m.r1c2);
    crate::fixed::lemma_smul_zero(m.r2c0);
    crate::fixed::lemma_smul_zero(m.r2c1);
    crate::fixed::lemma_smul_zero(m.r2c2);
}

/// Applying the identity matrix to a vector gives the vector back exactly.
pub proof fn lemma_m_apply_identity(v: Vec3)
    ensures
        m_apply(m_identity(), v) == v,
{
    reveal(m_apply);
    crate::fixed::lemma_smul_one(v.x);
    crate::fixed::lemma_smul_one(v.y);
    crate::fixed::lemma_smul_one(v.z);
    crate::fixed::lemma_smul_zero(v.x);
    crate::fixed::lemma_smul_zero(v.y);
    crate::fixed::lemma_smul_zero(v.z);
}

/// Applying any matrix to the zero vector gives the zero vector.
pub proof fn lemma_m_apply_zero(m: Mat3)
    ensures
        m_apply(m, Vec3 { x: 0i64, y: 0i64, z: 0i64 }) == (Vec3 { x: 0i64, y: 0i64, z: 0i64 }),
{
    reveal(m_apply);
    crate::fixed::lemma_smul_zero(m.r0c0);
    crate::fixed::lemma_smul_zero(m.r0c1);
    crate::fixed::lemma_smul_zero(m.r0c2);
    crate::fixed::lemma_smul_zero(m.r1c0);
    crate::fixed::lemma_smul_zero(m.r1c1);
    crate::fixed::lemma_smul_zero(m.r1c2);
    crate::fixed::lemma_smul_zero(m.r2c0);
    crate::fixed::lemma_smul_zero(m.r2c1);
    crate::fixed::lemma_smul_zero(m.r2c2);
}

} // verus!
