use chickadee::{SimpleBoxCollider, Transform, Vec3, FX_ONE};

fn fx(units: i64) -> i64 {
    units * FX_ONE
}

fn vec3(x: i64, y: i64, z: i64) -> Vec3 {
    Vec3::new(x, y, z)
}

#[test]
fn test_box_corretion_vec() {
    let box_a = SimpleBoxCollider::new(vec3(0, 0, 0), vec3(fx(1), fx(1), fx(1)));
    let a_transform = Transform::from_translation(vec3(0, fx(1), 0));
    let box_b = SimpleBoxCollider::new(vec3(0, 0, 0), vec3(98304, fx(1), fx(1)));
    let b_transform = Transform::from_translation(vec3(fx(1), fx(1), fx(1)));

    let vec =
        SimpleBoxCollider::box_correction_vec(&box_a, &a_transform, &box_b, &b_transform).unwrap();

    assert_eq!(vec, vec3(0, 0, fx(-1)));
}

#[test]
fn separated_boxes_have_no_correction() {
    let box_a = SimpleBoxCollider::new(vec3(0, 0, 0), vec3(fx(1), fx(1), fx(1)));
    let a_transform = Transform::from_translation(vec3(0, 0, 0));
    let box_b = SimpleBoxCollider::new(vec3(0, 0, 0), vec3(fx(1), fx(1), fx(1)));
    let b_transform = Transform::from_translation(vec3(fx(5), 0, 0));

    let vec = SimpleBoxCollider::box_correction_vec(&box_a, &a_transform, &box_b, &b_transform);
    assert!(vec.is_none());
}

#[test]
fn equal_overlap_on_x_and_y_resolves_along_y() {
    // The comparison chain prefers y when x and y tie: x wins only when
    // it is strictly smallest.
    let box_a = SimpleBoxCollider::new(vec3(0, 0, 0), vec3(fx(1), fx(1), fx(1)));
    let a_transform = Transform::from_translation(vec3(0, 0, 0));
    let box_b = SimpleBoxCollider::new(vec3(0, 0, 0), vec3(fx(1), fx(1), fx(1)));
    let b_transform = Transform::from_translation(vec3(fx(1), fx(1), 0));

    let vec =
        SimpleBoxCollider::box_correction_vec(&box_a, &a_transform, &box_b, &b_transform).unwrap();
    assert_eq!(vec, vec3(0, fx(-1), 0));
}

#[test]
fn collider_offset_moves_the_box() {
    // The collider's local center offset is added to the transform.
    let box_a = SimpleBoxCollider::new(vec3(fx(10), 0, 0), vec3(fx(1), fx(1), fx(1)));
    let a_transform = Transform::from_translation(vec3(fx(-10), 0, 0));
    let box_b = SimpleBoxCollider::new(vec3(0, 0, 0), vec3(fx(1), fx(1), fx(1)));
    let b_transform = Transform::from_translation(vec3(0, 0, fx(1)));

    let vec =
        SimpleBoxCollider::box_correction_vec(&box_a, &a_transform, &box_b, &b_transform).unwrap();
    assert_eq!(vec, vec3(0, 0, fx(-1)));
}
