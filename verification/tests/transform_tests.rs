use chickadee::{Mat3, Transform, Vec3, FX_ONE};
use chickadee::fixed::{fx_add, fx_div, fx_half, fx_mul, fx_neg};
use chickadee::trig::{fx_cos, fx_sin};

fn fx(units: i64) -> i64 {
    units * FX_ONE
}

#[test]
fn fixed_arithmetic_basics() {
    assert_eq!(fx_add(fx(2), fx(3)), fx(5));
    assert_eq!(fx_mul(fx(2), fx(3)), fx(6));
    assert_eq!(fx_mul(fx(-2), fx(3)), fx(-6));
    assert_eq!(fx_div(fx(3), fx(2)), 98304);
    assert_eq!(fx_half(-3), -1);
    assert_eq!(fx_half(7), 3);
    assert_eq!(fx_neg(5), -5);
}

#[test]
fn fixed_arithmetic_saturates() {
    assert_eq!(fx_add(i64::MAX, 1), i64::MAX);
    assert_eq!(fx_add(i64::MIN, -1), i64::MIN);
    assert_eq!(fx_neg(i64::MIN), i64::MAX);
    assert_eq!(fx_mul(i64::MAX, fx(2)), i64::MAX);
}

#[test]
fn trig_at_zero() {
    assert_eq!(fx_cos(0), FX_ONE);
    assert_eq!(fx_sin(0), 0);
}

#[test]
fn rotation_by_zero_angle_is_identity() {
    let r = Transform::from_angle_z(0);
    assert_eq!(r, Transform::identity());
}

// Transform identity: T * identity() == identity() * T == T.
#[test]
fn compose_with_identity_is_identity_both_sides() {
    let t = Transform {
        linear: Mat3 {
            r0c0: 0,
            r0c1: -FX_ONE,
            r0c2: 0,
            r1c0: FX_ONE,
            r1c1: 0,
            r1c2: 0,
            r2c0: 0,
            r2c1: 0,
            r2c2: FX_ONE,
        },
        translation: Vec3::new(fx(5), fx(-6), 12345),
    };
    assert_eq!(t.compose(Transform::identity()), t);
    assert_eq!(Transform::identity().compose(t), t);
}

// Transform inverse: for an orthonormal transform, T * T.inverse() is the
// identity; on these inputs the fixed-point computation is even exact.
#[test]
fn compose_with_inverse_of_translation_is_identity() {
    let t = Transform::from_translation(Vec3::new(fx(1), fx(2), fx(3)));
    assert_eq!(t.compose(t.inverse()), Transform::identity());
}

#[test]
fn compose_with_inverse_of_quarter_turn_is_identity() {
    let t = Transform {
        linear: Mat3 {
            r0c0: 0,
            r0c1: -FX_ONE,
            r0c2: 0,
            r1c0: FX_ONE,
            r1c1: 0,
            r1c2: 0,
            r2c0: 0,
            r2c1: 0,
            r2c2: FX_ONE,
        },
        translation: Vec3::new(fx(5), fx(6), fx(7)),
    };
    assert_eq!(t.compose(t.inverse()), Transform::identity());
}

#[test]
fn apply_point_includes_translation() {
    let t = Transform::from_translation(Vec3::new(fx(1), 0, 0));
    let p = t.apply_point(Vec3::new(0, fx(2), 0));
    assert_eq!(p, Vec3::new(fx(1), fx(2), 0));
    let d = t.apply_vector(Vec3::new(0, fx(2), 0));
    assert_eq!(d, Vec3::new(0, fx(2), 0));
}

#[test]
fn translate_local_follows_rotation() {
    // A quarter turn about z maps +x to +y; moving locally along +x then
    // moves the position along +y.
    let mut t = Transform {
        linear: Mat3 {
            r0c0: 0,
            r0c1: -FX_ONE,
            r0c2: 0,
            r1c0: FX_ONE,
            r1c1: 0,
            r1c2: 0,
            r2c0: 0,
            r2c1: 0,
            r2c2: FX_ONE,
        },
        translation: Vec3::new(0, 0, 0),
    };
    t.translate_local(Vec3::new(fx(1), 0, 0));
    assert_eq!(t.translation, Vec3::new(0, fx(1), 0));
    t.translate_global(Vec3::new(fx(1), 0, 0));
    assert_eq!(t.translation, Vec3::new(fx(1), fx(1), 0));
}

#[test]
fn forward_is_the_z_column() {
    let t = Transform::identity();
    assert_eq!(t.forward(), Vec3::new(0, 0, FX_ONE));
}
