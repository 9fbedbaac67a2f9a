use chickadee::{Camera, CameraController, Transform, Vec3, WindowEvent, FX_ONE};
use chickadee::camera_controller::{CAM_SPEED, SPRINT_SPEED, WALK_SPEED};
use chickadee::entity::EntityTransform;

fn fx(units: i64) -> i64 {
    units * FX_ONE
}

#[test]
fn camera_defaults() {
    let cam = Camera::new();
    assert_eq!(cam.aspect, FX_ONE);
    assert_eq!(cam.fovy, fx(45));
}

#[test]
fn update_aspect_divides_width_by_height() {
    let mut cam = Camera::new();
    cam.update_aspect(fx(800), fx(600));
    assert_eq!(cam.aspect, 87381);
}

#[test]
fn refresh_view_caches_the_inverse() {
    let mut cam = Camera::new();
    let global = Transform::from_translation(Vec3::new(fx(1), fx(2), fx(3)));
    cam.refresh_view(&global);
    let view = cam.get_view_transform();
    assert_eq!(
        view.translation,
        Vec3::new(fx(-1), fx(-2), fx(-3))
    );
    assert_eq!(view.linear, Transform::identity().linear);
}

#[test]
fn controller_speeds_default() {
    let c = CameraController::new();
    assert_eq!(c.walk_speed, WALK_SPEED);
    assert_eq!(c.sprint_speed, SPRINT_SPEED);
    assert_eq!(c.cam_speed, CAM_SPEED);
    assert!(c.mouse_captured);
}

#[test]
fn cursor_movement_accumulates_deltas_against_the_center() {
    let mut c = CameraController::new();
    c.set_window_center(fx(400), fx(300));
    c.process_event(WindowEvent::CursorMoved {
        position_x: fx(410),
        position_y: fx(290),
    });
    assert_eq!(c.delta_yaw, fx(10));
    assert_eq!(c.delta_pitch, fx(-10));
}

#[test]
fn cursor_movement_is_ignored_while_released() {
    let mut c = CameraController::new();
    c.set_mouse_captured(false);
    c.process_event(WindowEvent::CursorMoved {
        position_x: fx(410),
        position_y: fx(290),
    });
    assert_eq!(c.delta_yaw, 0);
    assert_eq!(c.delta_pitch, 0);
}

#[test]
fn update_spends_the_rotation_deltas() {
    let mut c = CameraController::new();
    c.delta_yaw = fx(1);
    c.delta_pitch = fx(2);
    let mut t = EntityTransform::new();
    c.update_camera(&mut t);
    assert_eq!(c.delta_yaw, 0);
    assert_eq!(c.delta_pitch, 0);
    assert!(t.dirty);
}

#[test]
fn sprint_scales_the_walk_vector() {
    let mut c = CameraController::new();
    c.is_forward_pressed = true;
    c.is_sprint_pressed = true;
    let mut t = EntityTransform::new();
    c.update_camera(&mut t);
    assert_eq!(t.local.translation, Vec3::new(0, 0, -SPRINT_SPEED));
}
