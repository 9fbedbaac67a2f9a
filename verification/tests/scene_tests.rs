use chickadee::{
    Camera, CameraController, Collider, ComponentKind, ComponentValue, DynComponentRef,
    EntityId, Error, KeyCode, KeyEvent, Model, Scene, Transform, Vec3, WindowEvent, FX_ONE,
};

fn fx(units: i64) -> i64 {
    units * FX_ONE
}

#[test]
fn add_entity_under_root_succeeds() {
    let mut scene = Scene::new();
    let root = scene.get_root();
    let child = scene.add_entity(root, "player".to_string()).unwrap();
    assert!(scene.contains_entity(&child));
    assert_eq!(scene.parent(&child), Some(root));
    assert_eq!(scene.parent(&root), None);
}

// Add-entity failure: an unknown parent is rejected and nothing changes.
#[test]
fn add_entity_with_unknown_parent_fails() {
    let mut scene = Scene::new();
    let bogus = EntityId::new();
    let before = scene.get_root();
    let r = scene.add_entity(bogus, "orphan".to_string());
    assert_eq!(r, Err(Error::EntityNotFound));
    assert_eq!(scene.get_root(), before);
    assert!(!scene.contains_entity(&bogus));
}

#[test]
fn add_entity_with_taken_id_fails() {
    let mut scene = Scene::new();
    let root = scene.get_root();
    let id = EntityId::new();
    assert_eq!(scene.add_entity_with_id(root, id, "a".to_string()), Ok(id));
    assert_eq!(
        scene.add_entity_with_id(root, id, "b".to_string()),
        Err(Error::IdCollision)
    );
}

#[test]
fn add_component_to_unknown_entity_fails() {
    let mut scene = Scene::new();
    let bogus = EntityId::new();
    let r = scene.add_component(bogus, ComponentValue::Camera(Camera::new()));
    assert_eq!(r, Err(Error::EntityNotFound));
}

// Propagation correctness: for root -> a -> b with local translations
// (1,0,0) and (0,1,0), b's global transform sends the origin to (1,1,0).
#[test]
fn propagation_composes_down_a_chain() {
    let mut scene = Scene::new();
    let root = scene.get_root();
    let a = scene.add_entity(root, "a".to_string()).unwrap();
    let b = scene.add_entity(a, "b".to_string()).unwrap();
    assert!(scene.translate_entity_local(&a, Vec3::new(fx(1), 0, 0)));
    assert!(scene.translate_entity_local(&b, Vec3::new(0, fx(1), 0)));

    scene.update_transforms();

    let t = scene.get_transform(&b).unwrap();
    assert!(!t.dirty);
    let p = t.global_ref().apply_point(Vec3::new(0, 0, 0));
    assert_eq!(p, Vec3::new(fx(1), fx(1), 0));
}

// Dirty propagation: touching a's local transform dirties a; after the
// next propagation b's global is recomputed and both are clean again.
#[test]
fn dirty_parent_recomputes_child_global() {
    let mut scene = Scene::new();
    let root = scene.get_root();
    let a = scene.add_entity(root, "a".to_string()).unwrap();
    let b = scene.add_entity(a, "b".to_string()).unwrap();
    assert!(scene.translate_entity_local(&a, Vec3::new(fx(1), 0, 0)));
    assert!(scene.translate_entity_local(&b, Vec3::new(0, fx(1), 0)));
    scene.update_transforms();

    // Move a again: a is dirty, b still carries the old cached global.
    assert!(scene.translate_entity_local(&a, Vec3::new(fx(1), 0, 0)));
    assert!(scene.get_transform(&a).unwrap().dirty);
    let stale = scene.get_transform(&b).unwrap();
    assert!(!stale.dirty);
    assert_eq!(
        stale.global_ref().apply_point(Vec3::new(0, 0, 0)),
        Vec3::new(fx(1), fx(1), 0)
    );

    scene.update_transforms();
    let t = scene.get_transform(&b).unwrap();
    assert!(!t.dirty);
    assert_eq!(
        t.global_ref().apply_point(Vec3::new(0, 0, 0)),
        Vec3::new(fx(2), fx(1), 0)
    );
}

// Downcast safety: a stored camera refuses to be read as a camera
// controller and comes back unchanged as a camera.
#[test]
fn downcast_checks_the_kind_tag() {
    let cam = Camera::new();
    let handle = DynComponentRef::new(ComponentValue::Camera(cam));
    assert!(handle.downcast_camera_controller().is_err());
    assert_eq!(handle.downcast_camera().unwrap(), &cam);
    assert!(handle.downcast_collider().is_err());
    assert!(handle.downcast_model().is_err());
}

#[test]
fn get_component_filters_by_kind_and_entity() {
    let mut scene = Scene::new();
    let root = scene.get_root();
    let e = scene.add_entity(root, "e".to_string()).unwrap();
    scene
        .add_component(e, ComponentValue::Camera(Camera::new()))
        .unwrap();
    scene
        .add_component(e, ComponentValue::Model(Model::new(7)))
        .unwrap();

    let (_, v) = scene.get_component(&e, ComponentKind::Model).unwrap();
    assert_eq!(v, ComponentValue::Model(Model::new(7)));
    assert!(scene.get_component(&e, ComponentKind::Collider).is_none());
    assert!(scene.get_component(&root, ComponentKind::Camera).is_none());

    let (cid, cam) = scene.find_first_camera().unwrap();
    assert_eq!(cam, Camera::new());
    assert_eq!(scene.get_entity(&cid), Some(e));
}

// Static-static skip: two overlapping static colliders cause no transform
// mutation in the collision pass.
#[test]
fn static_static_pairs_are_skipped() {
    let mut scene = Scene::new();
    let root = scene.get_root();
    let a = scene.add_entity(root, "a".to_string()).unwrap();
    let b = scene.add_entity(root, "b".to_string()).unwrap();
    assert!(scene.translate_entity_local(&b, Vec3::new(fx(1), 0, 0)));
    let he = Vec3::new(fx(1), fx(1), fx(1));
    scene
        .add_component(
            a,
            ComponentValue::Collider(Collider::new_aabb(Vec3::new(0, 0, 0), he, false)),
        )
        .unwrap();
    scene
        .add_component(
            b,
            ComponentValue::Collider(Collider::new_aabb(Vec3::new(0, 0, 0), he, false)),
        )
        .unwrap();
    scene.update_transforms();

    let a_before = scene.get_transform(&a).unwrap();
    let b_before = scene.get_transform(&b).unwrap();
    scene.run_collisions();
    assert_eq!(scene.get_transform(&a).unwrap(), a_before);
    assert_eq!(scene.get_transform(&b).unwrap(), b_before);
}

// Box collider correction example, applied through the scene: the dynamic
// body is pushed out along z by one unit.
#[test]
fn collision_pass_moves_the_dynamic_body() {
    let mut scene = Scene::new();
    let root = scene.get_root();
    let a = scene.add_entity(root, "a".to_string()).unwrap();
    let b = scene.add_entity(root, "b".to_string()).unwrap();
    assert!(scene.translate_entity_local(&a, Vec3::new(0, fx(1), 0)));
    assert!(scene.translate_entity_local(&b, Vec3::new(fx(1), fx(1), fx(1))));
    scene
        .add_component(
            a,
            ComponentValue::Collider(Collider::new_aabb(
                Vec3::new(0, 0, 0),
                Vec3::new(fx(1), fx(1), fx(1)),
                true,
            )),
        )
        .unwrap();
    scene
        .add_component(
            b,
            ComponentValue::Collider(Collider::new_aabb(
                Vec3::new(0, 0, 0),
                Vec3::new(98304, fx(1), fx(1)),
                false,
            )),
        )
        .unwrap();
    scene.update_transforms();
    scene.run_collisions();

    let a_t = scene.get_transform(&a).unwrap();
    assert!(a_t.dirty);
    assert_eq!(a_t.local_ref().translation, Vec3::new(0, fx(1), fx(-1)));
    let b_t = scene.get_transform(&b).unwrap();
    assert_eq!(b_t.local_ref().translation, Vec3::new(fx(1), fx(1), fx(1)));
}

#[test]
fn controller_moves_the_camera_entity() {
    let mut scene = Scene::new();
    let root = scene.get_root();
    let cam_entity = scene.add_entity(root, "player_cam".to_string()).unwrap();
    scene
        .add_component(cam_entity, ComponentValue::Camera(Camera::new()))
        .unwrap();
    scene
        .add_component(
            cam_entity,
            ComponentValue::CameraController(CameraController::new()),
        )
        .unwrap();

    // Press W, then run one frame.
    scene.on_event(&WindowEvent::KeyboardInput {
        event: KeyEvent { is_pressed: true, key: KeyCode::KeyW },
    });
    let (_, ctrl) = scene
        .find_first_component(ComponentKind::CameraController)
        .unwrap();
    match ctrl {
        ComponentValue::CameraController(c) => assert!(c.is_forward_pressed),
        _ => panic!("wrong component kind"),
    }

    scene.on_update(fx(1) / 60);

    // Walking speed moves the camera entity along its own -z.
    let t = scene.get_transform(&cam_entity).unwrap();
    assert_eq!(t.local_ref().translation, Vec3::new(0, 0, -655));
}

#[test]
fn draw_scene_pairs_models_with_globals() {
    let mut scene = Scene::new();
    let root = scene.get_root();
    let e = scene.add_entity(root, "block".to_string()).unwrap();
    assert!(scene.translate_entity_local(&e, Vec3::new(fx(3), 0, 0)));
    scene
        .add_component(e, ComponentValue::Model(Model::new(42)))
        .unwrap();
    scene.update_transforms();

    let list = scene.draw_scene();
    assert_eq!(list.len(), 1);
    let (m, g) = list[0];
    assert_eq!(m, Model::new(42));
    assert_eq!(g, Transform::from_translation(Vec3::new(fx(3), 0, 0)));
}

#[test]
fn on_start_leaves_the_scene_unchanged() {
    let mut scene = Scene::new();
    let root = scene.get_root();
    let e = scene.add_entity(root, "e".to_string()).unwrap();
    scene
        .add_component(e, ComponentValue::Model(Model::new(1)))
        .unwrap();
    let before = scene.get_transform(&e).unwrap();
    scene.on_start();
    assert_eq!(scene.get_transform(&e).unwrap(), before);
}
