//! Affine transforms.
//!
//! A `Transform` is a linear part (a fixed-point 3-by-3 matrix, normally a
//! rotation) together with a translation vector.  Composition applies the
//! right-hand transform first, matching the matrix convention `M1 * M2`.
//! The inverse transposes the linear part, which is the true inverse
//! exactly when the linear part is orthonormal; callers are expected to
//! keep the linear part orthonormal, as the engine's conventions demand.

use vstd::prelude::*;

use crate::fixed::FX_ONE;
use crate::math::{
    m_apply, m_identity, m_mul, m_transpose, v_add, v_neg, Mat3, Vec3,
};
use crate::trig::{fx_cos, fx_sin, spec_cos, spec_sin};

verus! {

/// Whether a movement operates in the object's own basis or in the basis
/// of its parent (or the world).
pub enum TransformSpace {
    Local,
    Global,
}

/// An affine map: a linear part applied first, then a translation.
#[derive(Clone, Copy, PartialEq, Eq, Structural, Debug)]
pub struct Transform {
    pub linear: Mat3,
    pub translation: Vec3,
}

/// The identity transform.
pub open spec fn t_identity() -> Transform {
    Transform { linear: m_identity(), translation: Vec3 { x: 0i64, y: 0i64, z: 0i64 } }
}

/// `a` composed after `b`: the result applies `b` first, then `a`.
pub open spec fn t_compose(a: Transform, b: Transform) -> Transform {
    Transform {
        linear: m_mul(a.linear, b.linear),
        translation: v_add(m_apply(a.linear, b.translation), a.translation),
    }
}

/// The transpose-based inverse, exact for orthonormal linear parts.
pub open spec fn t_inverse(t: Transform) -> Transform {
    Transform {
        linear: m_transpose(t.linear),
        translation: v_neg(m_apply(m_transpose(t.linear), t.translation)),
    }
}

/// A transform applied to a point: linear part, then translation.
pub open spec fn t_apply_point(t: Transform, v: Vec3) -> Vec3 {
    v_add(m_apply(t.linear, v), t.translation)
}

/// A transform applied to a direction: linear part only.
pub open spec fn t_apply_vector(t: Transform, v: Vec3) -> Vec3 {
    m_apply(t.linear, v)
}

/// Exact orthonormality of a fixed-point matrix: the rows are mutually
/// orthogonal and each has squared length exactly `FX_ONE * FX_ONE`.
pub open spec fn orthonormal(m: Mat3) -> bool {
    &&& m.r0c0 * m.r0c0 + m.r0c1 * m.r0c1 + m.r0c2 * m.r0c2 == FX_ONE * FX_ONE
    &&& m.r1c0 * m.r1c0 + m.r1c1 * m.r1c1 + m.r1c2 * m.r1c2 == FX_ONE * FX_ONE
    &&& m.r2c0 * m.r2c0 + m.r2c1 * m.r2c1 + m.r2c2 * m.r2c2 == FX_ONE * FX_ONE
    &&& m.r0c0 * m.r1c0 + m.r0c1 * m.r1c1 + m.r0c2 * m.r1c2 == 0
    &&& m.r0c0 * m.r2c0 + m.r0c1 * m.r2c1 + m.r0c2 * m.r2c2 == 0
    &&& m.r1c0 * m.r2c0 + m.r1c1 * m.r2c1 + m.r1c2 * m.r2c2 == 0
    &&& m.r0c0 * m.r0c0 + m.r1c0 * m.r1c0 + m.r2c0 * m.r2c0 == FX_ONE * FX_ONE
    &&& m.r0c1 * m.r0c1 + m.r1c1 * m.r1c1 + m.r2c1 * m.r2c1 == FX_ONE * FX_ONE
    &&& m.r0c2 * m.r0c2 + m.r1c2 * m.r1c2 + m.r2c2 * m.r2c2 == FX_ONE * FX_ONE
    &&& m.r0c0 * m.r0c1 + m.r1c0 * m.r1c1 + m.r2c0 * m.r2c1 == 0
    &&& m.r0c0 * m.r0c2 + m.r1c0 * m.r1c2 + m.r2c0 * m.r2c2 == 0
    &&& m.r0c1 * m.r0c2 + m.r1c1 * m.r1c2 + m.r2c1 * m.r2c2 == 0
}

/// The rotation about the x axis by a fixed-point angle.
pub open spec fn rot_x(theta: i64) -> Mat3 {
    let c = spec_cos(theta);
    let s = spec_sin(theta);
    Mat3 {
        r0c0: FX_ONE,
        r0c1: 0,
        r0c2: 0,
        r1c0: 0,
        r1c1: c,
        r1c2: crate::fixed::sneg(s),
        r2c0: 0,
        r2c1: s,
        r2c2: c,
    }
}

/// The rotation about the y axis by a fixed-point angle.
pub open spec fn rot_y(theta: i64) -> Mat3 {
    let c = spec_cos(theta);
    let s = spec_sin(theta);
    Mat3 {
        r0c0: c,
        r0c1: 0,
        r0c2: s,
        r1c0: 0,
        r1c1: FX_ONE,
        r1c2: 0,
        r2c0: crate::fixed::sneg(s),
        r2c1: 0,
        r2c2: c,
    }
}

/// The rotation about the z axis by a fixed-point angle.
pub open spec fn rot_z(theta: i64) -> Mat3 {
    let c = spec_cos(theta);
    let s = spec_sin(theta);
    Mat3 {
        r0c0: c,
        r0c1: crate::fixed::sneg(s),
        r0c2: 0,
        r1c0: s,
        r1c1: c,
        r1c2: 0,
        r2c0: 0,
        r2c1: 0,
        r2c2: FX_ONE,
    }
}

/// The combined rotation `Rz * Ry * Rx` built from negated Euler angles,
/// as the engine's rotate operations use it.  The negation is the
/// engine's documented rotation convention.
pub open spec fn euler_rotation_negated(e: Vec3) -> Mat3 {
    m_mul(
        m_mul(rot_z(crate::fixed::sneg(e.z)), rot_y(crate::fixed::sneg(e.y))),
        rot_x(crate::fixed::sneg(e.x)),
    )
}

impl Transform {
    /// The identity transform: `T(x) = x`.
    pub fn identity() -> (r: Transform)
        ensures
            r == t_identity(),
    {
        Transform { linear: Mat3::identity(), translation: Vec3::zero() }
    }

    /// A pure translation.
    pub fn from_translation(v: Vec3) -> (r: Transform)
        ensures
            r == (Transform { linear: m_identity(), translation: v }),
    {
        Transform { linear: Mat3::identity(), translation: v }
    }

    /// A rotation about the x axis by a fixed-point angle in radians.
    pub fn from_angle_x(theta: i64) -> (r: Transform)
        ensures
            r == (Transform { linear: rot_x(theta), translation: Vec3 { x: 0i64, y: 0i64, z: 0i64 } }),
    {
        let c = fx_cos(theta);
        let s = fx_sin(theta);
        Transform {
            linear: Mat3 {
                r0c0: FX_ONE,
                r0c1: 0,
                r0c2: 0,
                r1c0: 0,
                r1c1: c,
                r1c2: crate::fixed::fx_neg(s),
                r2c0: 0,
                r2c1: s,
                r2c2: c,
            },
            translation: Vec3::zero(),
        }
    }

    /// A rotation about the y axis by a fixed-point angle in radians.
    pub fn from_angle_y(theta: i64) -> (r: Transform)
        ensures
            r == (Transform { linear: rot_y(theta), translation: Vec3 { x: 0i64, y: 0i64, z: 0i64 } }),
    {
        let c = fx_cos(theta);
        let s = fx_sin(theta);
        Transform {
            linear: Mat3 {
                r0c0: c,
                r0c1: 0,
                r0c2: s,
                r1c0: 0,
                r1c1: FX_ONE,
                r1c2: 0,
                r2c0: crate::fixed::fx_neg(s),
                r2c1: 0,
                r2c2: c,
            },
            translation: Vec3::zero(),
        }
    }

    /// A rotation about the z axis by a fixed-point angle in radians.
    pub fn from_angle_z(theta: i64) -> (r: Transform)
        ensures
            r == (Transform { linear: rot_z(theta), translation: Vec3 { x: 0i64, y: 0i64, z: 0i64 } }),
    {
        let c = fx_cos(theta);
        let s = fx_sin(theta);
        Transform {
            linear: Mat3 {
                r0c0: c,
                r0c1: crate::fixed::fx_neg(s),
                r0c2: 0,
                r1c0: s,
                r1c1: c,
                r1c2: 0,
                r2c0: 0,
                r2c1: 0,
                r2c2: FX_ONE,
            },
            translation: Vec3::zero(),
        }
    }

    /// `self` composed after `other`: applies `other` first, then `self`.
    pub fn compose(self, other: Transform) -> (r: Transform)
        ensures
            r == t_compose(self, other),
    {
        Transform {
            linear: self.linear.mul(other.linear),
            translation: self.linear.apply(other.translation).add(self.translation),
        }
    }

    /// The transpose-based inverse; the true inverse whenever the linear
    /// part is orthonormal.
    pub fn inverse(self) -> (r: Transform)
        ensures
            r == t_inverse(self),
    {
        let rt = self.linear.transpose();
        Transform { linear: rt, translation: rt.apply(self.translation).neg() }
    }

    /// Apply the transform to a point: linear part, then translation.
    pub fn apply_point(self, v: Vec3) -> (r: Vec3)
        ensures
            r == t_apply_point(self, v),
    {
        self.linear.apply(v).add(self.translation)
    }

    /// Apply the transform to a direction: linear part only.
    pub fn apply_vector(self, v: Vec3) -> (r: Vec3)
        ensures
            r == t_apply_vector(self, v),
    {
        self.linear.apply(v)
    }

    /// The translation component.
    pub fn translation(self) -> (r: Vec3)
        ensures
            r == self.translation,
    {
        self.translation
    }

    /// The direction the transform's own z axis points at.
    pub fn forward(self) -> (r: Vec3)
        ensures
            r == (Vec3 { x: self.linear.r0c2, y: self.linear.r1c2, z: self.linear.r2c2 }),
    {
        Vec3 { x: self.linear.r0c2, y: self.linear.r1c2, z: self.linear.r2c2 }
    }

    /// Move in the chosen space.
    pub fn translate(&mut self, v: Vec3, space: TransformSpace)
        ensures
            *final(self) == match space {
                TransformSpace::Local => Transform {
                    linear: old(self).linear,
                    translation: v_add(old(self).translation, m_apply(old(self).linear, v)),
                },
                TransformSpace::Global => Transform {
                    linear: old(self).linear,
                    translation: v_add(old(self).translation, v),
                },
            },
    {
        match space {
            TransformSpace::Local => self.translate_local(v),
            TransformSpace::Global => self.translate_global(v),
        }
    }

    /// Move the position directly, in the parent's (or world) basis.
    pub fn translate_global(&mut self, v: Vec3)
        ensures
            *final(self) == (Transform {
                linear: old(self).linear,
                translation: v_add(old(self).translation, v),
            }),
    {
        self.translation = self.translation.add(v);
    }

    /// Move the position along the transform's own basis: the offset is
    /// first rotated by the linear part.
    pub fn translate_local(&mut self, v: Vec3)
        ensures
            *final(self) == (Transform {
                linear: old(self).linear,
                translation: v_add(old(self).translation, m_apply(old(self).linear, v)),
            }),
    {
        let step = self.linear.apply(v);
        self.translation = self.translation.add(step);
    }

    /// Rotate in the transform's own basis by Euler angles, with the
    /// engine's negated-angle convention.
    pub fn rotate_euler_local(&mut self, e: Vec3)
        ensures
            *final(self) == (Transform {
                linear: m_mul(old(self).linear, euler_rotation_negated(e)),
                translation: old(self).translation,
            }),
    {
        let rot = euler_rotation_negated_exec(e);
        self.linear = self.linear.mul(rot);
    }

    /// Rotate in the parent's (or world) basis by Euler angles, with the
    /// engine's negated-angle convention.  The position is unchanged: the
    /// rotation spins the transform about its own origin.
    pub fn rotate_euler_global(&mut self, e: Vec3)
        ensures
            *final(self) == (Transform {
                linear: m_mul(euler_rotation_negated(e), old(self).linear),
                translation: old(self).translation,
            }),
    {
        let rot = euler_rotation_negated_exec(e);
        self.linear = rot.mul(self.linear);
    }

    /// Replace the rotation with the combined rotation `Rz * Ry * Rx` of
    /// the given Euler angles (not negated here).
    pub fn set_euler_rotation(&mut self, e: Vec3)
        ensures
            *final(self) == (Transform {
                linear: m_mul(m_mul(rot_z(e.z), rot_y(e.y)), rot_x(e.x)),
                translation: old(self).translation,
            }),
    {
        let z = Transform::from_angle_z(e.z);
        let y = Transform::from_angle_y(e.y);
        let x = Transform::from_angle_x(e.x);
        self.linear = z.linear.mul(y.linear).mul(x.linear);
    }
}

/// The combined negated Euler rotation `Rz(-z) * Ry(-y) * Rx(-x)`.
fn euler_rotation_negated_exec(e: Vec3) -> (r: Mat3)
    ensures
        r == euler_rotation_negated(e),
{
    let z = Transform::from_angle_z(crate::fixed::fx_neg(e.z));
    let y = Transform::from_angle_y(crate::fixed::fx_neg(e.y));
    let x = Transform::from_angle_x(crate::fixed::fx_neg(e.x));
    z.linear.mul(y.linear).mul(x.linear)
}

/// Each entry of a row with squared length `FX_ONE * FX_ONE` is at most
/// one unit in magnitude.
proof fn lemma_row_entry_bounds(a: i64, b: i64, c: i64)
    by (nonlinear_arith)
    requires
        (a as int) * (a as int) + (b as int) * (b as int) + (c as int) * (c as int) == (
        FX_ONE as int) * (FX_ONE as int),
    ensures
        -(FX_ONE as int) <= a as int <= FX_ONE as int,
        -(FX_ONE as int) <= b as int <= FX_ONE as int,
        -(FX_ONE as int) <= c as int <= FX_ONE as int,
{
}

/// One axis of the inverse-composition translation: with the exact
/// cancellation `mi0*c0 + mi1*c1 + mi2*c2 == FX_ONE^2 * tri` and each
/// intermediate within the stated error bands, the final component lands
/// within twelve fixed-point steps of zero.
proof fn lemma_inverse_translation_axis(
    mi0: i64,
    mi1: i64,
    mi2: i64,
    u0: i64,
    u1: i64,
    u2: i64,
    d0: i64,
    d1: i64,
    d2: i64,
    c0: int,
    c1: int,
    c2: int,
    tri: i64,
)
    requires
        -(FX_ONE as int) <= mi0 as int <= FX_ONE as int,
        -(FX_ONE as int) <= mi1 as int <= FX_ONE as int,
        -(FX_ONE as int) <= mi2 as int <= FX_ONE as int,
        u0 as int == -(d0 as int),
        u1 as int == -(d1 as int),
        u2 as int == -(d2 as int),
        -0x30000000003 <= d0 as int <= 0x30000000003,
        -0x30000000003 <= d1 as int <= 0x30000000003,
        -0x30000000003 <= d2 as int <= 0x30000000003,
        c0 - 3 * FX_ONE < FX_ONE * (d0 as int) < c0 + 3 * FX_ONE,
        c1 - 3 * FX_ONE < FX_ONE * (d1 as int) < c1 + 3 * FX_ONE,
        c2 - 3 * FX_ONE < FX_ONE * (d2 as int) < c2 + 3 * FX_ONE,
        (mi0 as int) * c0 + (mi1 as int) * c1 + (mi2 as int) * c2 == (FX_ONE as int) * (
        FX_ONE as int) * (tri as int),
    ensures
        -12 <= crate::fixed::sadd(crate::math::dot3(mi0, mi1, mi2, u0, u1, u2), tri) as int <= 12,
{
    let s = FX_ONE as int;
    crate::math::lemma_dot3_err(mi0, mi1, mi2, u0, u1, u2, 0x30000000003);
    let e = crate::math::dot3(mi0, mi1, mi2, u0, u1, u2) as int;
    let p0 = (mi0 as int) * (d0 as int);
    let p1 = (mi1 as int) * (d1 as int);
    let p2 = (mi2 as int) * (d2 as int);
    // The dot product's exact sum is the negated sum of the products.
    lemma_mul_neg(mi0 as int, u0 as int, d0 as int);
    lemma_mul_neg(mi1 as int, u1 as int, d1 as int);
    lemma_mul_neg(mi2 as int, u2 as int, d2 as int);
    let su = (mi0 as int) * (u0 as int) + (mi1 as int) * (u1 as int) + (mi2 as int) * (u2 as int);
    assert(su == -(p0 + p1 + p2));
    // Each product of a row entry with a scaled column dot stays within
    // three squared-scale steps of the exact term.
    lemma_scaled_product_err(mi0 as int, d0 as int, c0);
    lemma_scaled_product_err(mi1 as int, d1 as int, c1);
    lemma_scaled_product_err(mi2 as int, d2 as int, c2);
    assert(s * (p0 + p1 + p2) == s * p0 + s * p1 + s * p2) by (nonlinear_arith);
    assert(s * (p0 + p1 + p2) < (mi0 as int) * c0 + (mi1 as int) * c1 + (mi2 as int) * c2 + 9 * s
        * s);
    assert(s * (p0 + p1 + p2) > (mi0 as int) * c0 + (mi1 as int) * c1 + (mi2 as int) * c2 - 9 * s
        * s);
    assert(s * su == -(s * (p0 + p1 + p2))) by (nonlinear_arith)
        requires
            su == -(p0 + p1 + p2);
    assert(s * su < -(s * s * (tri as int)) + 9 * s * s);
    assert(s * su > -(s * s * (tri as int)) - 9 * s * s);
    // The dot product is within three scale steps of that sum, so the
    // doubly scaled component cancels to within twelve steps.
    assert(s * (s * e) < s * su + 3 * s * s && s * (s * e) > s * su - 3 * s * s)
        by (nonlinear_arith)
        requires
            s == 65536,
            su - 3 * s < s * e < su + 3 * s;
    assert(s * (s * e) < -(s * s * (tri as int)) + 12 * s * s);
    assert(s * (s * e) > -(s * s * (tri as int)) - 12 * s * s);
    assert(s * (s * e) == 4294967296 * e) by (nonlinear_arith)
        requires
            s == 65536;
    assert(s * s * (tri as int) == 4294967296 * (tri as int)) by (nonlinear_arith)
        requires
            s == 65536;
    assert(s * s == 4294967296) by (nonlinear_arith)
        requires
            s == 65536;
    assert(4294967296 * e < 4294967296 * (-(tri as int)) + 12 * 4294967296);
    assert(4294967296 * e > 4294967296 * (-(tri as int)) - 12 * 4294967296);
    assert(-(tri as int) - 12 < e < -(tri as int) + 12);
    assert(crate::fixed::sadd(crate::math::dot3(mi0, mi1, mi2, u0, u1, u2), tri) as int == e + (
    tri as int));
}

/// A product with a negated factor is the negated product.
proof fn lemma_mul_neg(m: int, u: int, d: int)
    by (nonlinear_arith)
    requires
        u == -d,
    ensures
        m * u == -(m * d),
{
}

/// Scaling the product of a bounded entry and an approximate quotient
/// stays within three squared-scale steps of the exact term.
proof fn lemma_scaled_product_err(m: int, d: int, c: int)
    by (nonlinear_arith)
    requires
        -65536 <= m <= 65536,
        c - 3 * 65536 < 65536 * d < c + 3 * 65536,
    ensures
        65536 * (m * d) < m * c + 3 * 65536 * 65536,
        65536 * (m * d) > m * c - 3 * 65536 * 65536,
{
    assert(65536 * (m * d) == m * (65536 * d));
}

/// The linear part of an orthonormal transform composed with its
/// inverse: each entry lies within two fixed-point steps of the identity
/// matrix.
proof fn lemma_compose_inverse_linear(t: Transform)
    requires
        orthonormal(t.linear),
    ensures
        -2 <= t_compose(t, t_inverse(t)).linear.r0c0 as int - FX_ONE <= 2,
        -2 <= t_compose(t, t_inverse(t)).linear.r1c1 as int - FX_ONE <= 2,
        -2 <= t_compose(t, t_inverse(t)).linear.r2c2 as int - FX_ONE <= 2,
        -2 <= t_compose(t, t_inverse(t)).linear.r0c1 as int <= 2,
        -2 <= t_compose(t, t_inverse(t)).linear.r0c2 as int <= 2,
        -2 <= t_compose(t, t_inverse(t)).linear.r1c0 as int <= 2,
        -2 <= t_compose(t, t_inverse(t)).linear.r1c2 as int <= 2,
        -2 <= t_compose(t, t_inverse(t)).linear.r2c0 as int <= 2,
        -2 <= t_compose(t, t_inverse(t)).linear.r2c1 as int <= 2,
{
    reveal(crate::math::m_mul);
    let s = FX_ONE as int;
    let m = t.linear;
    lemma_row_entry_bounds(m.r0c0, m.r0c1, m.r0c2);
    lemma_row_entry_bounds(m.r1c0, m.r1c1, m.r1c2);
    lemma_row_entry_bounds(m.r2c0, m.r2c1, m.r2c2);
    crate::math::lemma_dot3_err(m.r0c0, m.r0c1, m.r0c2, m.r0c0, m.r0c1, m.r0c2, s);
    crate::math::lemma_dot3_err(m.r0c0, m.r0c1, m.r0c2, m.r1c0, m.r1c1, m.r1c2, s);
    crate::math::lemma_dot3_err(m.r0c0, m.r0c1, m.r0c2, m.r2c0, m.r2c1, m.r2c2, s);
    crate::math::lemma_dot3_err(m.r1c0, m.r1c1, m.r1c2, m.r0c0, m.r0c1, m.r0c2, s);
    crate::math::lemma_dot3_err(m.r1c0, m.r1c1, m.r1c2, m.r1c0, m.r1c1, m.r1c2, s);
    crate::math::lemma_dot3_err(m.r1c0, m.r1c1, m.r1c2, m.r2c0, m.r2c1, m.r2c2, s);
    crate::math::lemma_dot3_err(m.r2c0, m.r2c1, m.r2c2, m.r0c0, m.r0c1, m.r0c2, s);
    crate::math::lemma_dot3_err(m.r2c0, m.r2c1, m.r2c2, m.r1c0, m.r1c1, m.r1c2, s);
    crate::math::lemma_dot3_err(m.r2c0, m.r2c1, m.r2c2, m.r2c0, m.r2c1, m.r2c2, s);
    lemma_dot_comm(m.r0c0, m.r0c1, m.r0c2, m.r1c0, m.r1c1, m.r1c2);
    lemma_dot_comm(m.r0c0, m.r0c1, m.r0c2, m.r2c0, m.r2c1, m.r2c2);
    lemma_dot_comm(m.r1c0, m.r1c1, m.r1c2, m.r2c0, m.r2c1, m.r2c2);
}

/// Sums of pairwise products do not depend on the order of the factors.
proof fn lemma_dot_comm(a0: i64, a1: i64, a2: i64, b0: i64, b1: i64, b2: i64)
    by (nonlinear_arith)
    ensures
        (a0 as int) * (b0 as int) + (a1 as int) * (b1 as int) + (a2 as int) * (b2 as int) == (
        b0 as int) * (a0 as int) + (b1 as int) * (a1 as int) + (b2 as int) * (a2 as int),
{
}

/// Distributing one factor over a three-term column sum.
proof fn lemma_expand(a: int, p: int, q: int, r: int, x: int, y: int, z: int, c: int)
    requires
        c == p * x + q * y + r * z,
    ensures
        a * c == (a * p) * x + (a * q) * y + (a * r) * z,
{
    vstd::arithmetic::mul::lemma_mul_is_distributive_add(a, p * x + q * y, r * z);
    vstd::arithmetic::mul::lemma_mul_is_distributive_add(a, p * x, q * y);
    vstd::arithmetic::mul::lemma_mul_is_associative(a, p, x);
    vstd::arithmetic::mul::lemma_mul_is_associative(a, q, y);
    vstd::arithmetic::mul::lemma_mul_is_associative(a, r, z);
}

/// Collecting three scaled terms over a shared factor.
proof fn lemma_collect3(a: int, b: int, c: int, x: int)
    ensures
        a * x + b * x + c * x == (a + b + c) * x,
{
    vstd::arithmetic::mul::lemma_mul_is_distributive_add_other_way(x, a + b, c);
    vstd::arithmetic::mul::lemma_mul_is_distributive_add_other_way(x, a, b);
}

/// A zero coefficient annihilates its factor.
proof fn lemma_zero_mul(x: int)
    by (nonlinear_arith)
    ensures
        0 * x == 0,
{
}

/// A row dotted into columns built from itself and two orthogonal rows
/// collapses to the squared scale times its own coordinate.
proof fn lemma_rows_cancel(
    a0: i64,
    a1: i64,
    a2: i64,
    b0: i64,
    b1: i64,
    b2: i64,
    g0: i64,
    g1: i64,
    g2: i64,
    x: i64,
    y: i64,
    z: i64,
    c0: int,
    c1: int,
    c2: int,
)
    requires
        c0 == (a0 as int) * (x as int) + (b0 as int) * (y as int) + (g0 as int) * (z as int),
        c1 == (a1 as int) * (x as int) + (b1 as int) * (y as int) + (g1 as int) * (z as int),
        c2 == (a2 as int) * (x as int) + (b2 as int) * (y as int) + (g2 as int) * (z as int),
        (a0 as int) * (a0 as int) + (a1 as int) * (a1 as int) + (a2 as int) * (a2 as int) == (
        FX_ONE as int) * (FX_ONE as int),
        (a0 as int) * (b0 as int) + (a1 as int) * (b1 as int) + (a2 as int) * (b2 as int) == 0,
        (a0 as int) * (g0 as int) + (a1 as int) * (g1 as int) + (a2 as int) * (g2 as int) == 0,
    ensures
        (a0 as int) * c0 + (a1 as int) * c1 + (a2 as int) * c2 == (FX_ONE as int) * (
        FX_ONE as int) * (x as int),
{
    lemma_expand(a0 as int, a0 as int, b0 as int, g0 as int, x as int, y as int, z as int, c0);
    lemma_expand(a1 as int, a1 as int, b1 as int, g1 as int, x as int, y as int, z as int, c1);
    lemma_expand(a2 as int, a2 as int, b2 as int, g2 as int, x as int, y as int, z as int, c2);
    lemma_collect3(
        (a0 as int) * (a0 as int),
        (a1 as int) * (a1 as int),
        (a2 as int) * (a2 as int),
        x as int,
    );
    lemma_collect3(
        (a0 as int) * (b0 as int),
        (a1 as int) * (b1 as int),
        (a2 as int) * (b2 as int),
        y as int,
    );
    lemma_collect3(
        (a0 as int) * (g0 as int),
        (a1 as int) * (g1 as int),
        (a2 as int) * (g2 as int),
        z as int,
    );
    lemma_zero_mul(y as int);
    lemma_zero_mul(z as int);
    assert(((FX_ONE as int) * (FX_ONE as int)) * (x as int) == (FX_ONE as int) * (FX_ONE as int)
        * (x as int)) by (nonlinear_arith);
}

/// Transform inverse: composing an orthonormal transform with its
/// inverse lands within a few fixed-point steps of the identity — the
/// linear part within two steps of the identity matrix entrywise, and
/// the translation within twelve steps of zero, far inside the engine's
/// working tolerance.  The only restriction on the translation is that
/// its components stay well below the saturation range.
pub proof fn lemma_compose_inverse(t: Transform)
    requires
        orthonormal(t.linear),
        -0x10000000000 <= t.translation.x as int <= 0x10000000000,
        -0x10000000000 <= t.translation.y as int <= 0x10000000000,
        -0x10000000000 <= t.translation.z as int <= 0x10000000000,
    ensures
        -2 <= t_compose(t, t_inverse(t)).linear.r0c0 as int - FX_ONE <= 2,
        -2 <= t_compose(t, t_inverse(t)).linear.r1c1 as int - FX_ONE <= 2,
        -2 <= t_compose(t, t_inverse(t)).linear.r2c2 as int - FX_ONE <= 2,
        -2 <= t_compose(t, t_inverse(t)).linear.r0c1 as int <= 2,
        -2 <= t_compose(t, t_inverse(t)).linear.r0c2 as int <= 2,
        -2 <= t_compose(t, t_inverse(t)).linear.r1c0 as int <= 2,
        -2 <= t_compose(t, t_inverse(t)).linear.r1c2 as int <= 2,
        -2 <= t_compose(t, t_inverse(t)).linear.r2c0 as int <= 2,
        -2 <= t_compose(t, t_inverse(t)).linear.r2c1 as int <= 2,
        -12 <= t_compose(t, t_inverse(t)).translation.x as int <= 12,
        -12 <= t_compose(t, t_inverse(t)).translation.y as int <= 12,
        -12 <= t_compose(t, t_inverse(t)).translation.z as int <= 12,
{
    lemma_compose_inverse_linear(t);
    reveal(crate::math::m_apply);
    let m = t.linear;
    let tr = t.translation;
    lemma_row_entry_bounds(m.r0c0, m.r0c1, m.r0c2);
    lemma_row_entry_bounds(m.r1c0, m.r1c1, m.r1c2);
    lemma_row_entry_bounds(m.r2c0, m.r2c1, m.r2c2);
    let d0 = crate::math::dot3(m.r0c0, m.r1c0, m.r2c0, tr.x, tr.y, tr.z);
    let d1 = crate::math::dot3(m.r0c1, m.r1c1, m.r2c1, tr.x, tr.y, tr.z);
    let d2 = crate::math::dot3(m.r0c2, m.r1c2, m.r2c2, tr.x, tr.y, tr.z);
    crate::math::lemma_dot3_err(m.r0c0, m.r1c0, m.r2c0, tr.x, tr.y, tr.z, 0x10000000000);
    crate::math::lemma_dot3_err(m.r0c1, m.r1c1, m.r2c1, tr.x, tr.y, tr.z, 0x10000000000);
    crate::math::lemma_dot3_err(m.r0c2, m.r1c2, m.r2c2, tr.x, tr.y, tr.z, 0x10000000000);
    let c0 = (m.r0c0 as int) * (tr.x as int) + (m.r1c0 as int) * (tr.y as int) + (m.r2c0 as int)
        * (tr.z as int);
    let c1 = (m.r0c1 as int) * (tr.x as int) + (m.r1c1 as int) * (tr.y as int) + (m.r2c1 as int)
        * (tr.z as int);
    let c2 = (m.r0c2 as int) * (tr.x as int) + (m.r1c2 as int) * (tr.y as int) + (m.r2c2 as int)
        * (tr.z as int);
    lemma_dot_comm(m.r0c0, m.r0c1, m.r0c2, m.r1c0, m.r1c1, m.r1c2);
    lemma_dot_comm(m.r0c0, m.r0c1, m.r0c2, m.r2c0, m.r2c1, m.r2c2);
    lemma_dot_comm(m.r1c0, m.r1c1, m.r1c2, m.r2c0, m.r2c1, m.r2c2);
    lemma_rows_cancel(
        m.r0c0,
        m.r0c1,
        m.r0c2,
        m.r1c0,
        m.r1c1,
        m.r1c2,
        m.r2c0,
        m.r2c1,
        m.r2c2,
        tr.x,
        tr.y,
        tr.z,
        c0,
        c1,
        c2,
    );
    lemma_rows_cancel(
        m.r1c0,
        m.r1c1,
        m.r1c2,
        m.r0c0,
        m.r0c1,
        m.r0c2,
        m.r2c0,
        m.r2c1,
        m.r2c2,
        tr.y,
        tr.x,
        tr.z,
        c0,
        c1,
        c2,
    );
    lemma_rows_cancel(
        m.r2c0,
        m.r2c1,
        m.r2c2,
        m.r0c0,
        m.r0c1,
        m.r0c2,
        m.r1c0,
        m.r1c1,
        m.r1c2,
        tr.z,
        tr.x,
        tr.y,
        c0,
        c1,
        c2,
    );
    let u0 = crate::fixed::sneg(d0);
    let u1 = crate::fixed::sneg(d1);
    let u2 = crate::fixed::sneg(d2);
    lemma_inverse_translation_axis(
        m.r0c0,
        m.r0c1,
        m.r0c2,
        u0,
        u1,
        u2,
        d0,
        d1,
        d2,
        c0,
        c1,
        c2,
        tr.x,
    );
    lemma_inverse_translation_axis(
        m.r1c0,
        m.r1c1,
        m.r1c2,
        u0,
        u1,
        u2,
        d0,
        d1,
        d2,
        c0,
        c1,
        c2,
        tr.y,
    );
    lemma_inverse_translation_axis(
        m.r2c0,
        m.r2c1,
        m.r2c2,
        u0,
        u1,
        u2,
        d0,
        d1,
        d2,
        c0,
        c1,
        c2,
        tr.z,
    );
}

/// Composing any transform with the identity, on either side, gives the
/// transform back exactly.
pub proof fn lemma_compose_identity(t: Transform)
    ensures
        t_compose(t, t_identity()) == t,
        t_compose(t_identity(), t) == t,
{
    crate::math::lemma_m_mul_identity(t.linear);
    crate::math::lemma_m_apply_identity(t.translation);
    crate::math::lemma_m_apply_zero(t.linear);
}

} // verus!
