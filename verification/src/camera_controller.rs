//! The camera controller component.
//!
//! The controller turns key and cursor events into camera movement.  Key
//! events toggle direction flags; cursor movement, while the mouse is
//! captured, is measured against the window center and accumulated as yaw
//! and pitch deltas.  Every update then moves the camera's entity by the
//! pressed directions and spends the accumulated rotation deltas.

use vstd::prelude::*;

use crate::component::Component;
use crate::event::{OnEventContext, OnStartContext, OnUpdateContext};
use crate::scene::Scene;
use crate::entity::{
    et_move_global, et_move_local, et_rotate_euler_global, et_rotate_euler_local,
    EntityTransform,
};
use crate::event::{KeyCode, WindowEvent};
use crate::fixed::{fx_mul, smul, ssub, fx_sub, FX_ONE};
use crate::math::{v_add, v_scale, Vec3};

verus! {

/// Fixed-point speed of normal walking.
pub const WALK_SPEED: i64 = 655;

/// Fixed-point speed while sprinting.
pub const SPRINT_SPEED: i64 = 3277;

/// Fixed-point factor from cursor distance to rotation angle.
pub const CAM_SPEED: i64 = 66;

/// First-person movement state driven by input events.
#[derive(Clone, Copy, PartialEq, Eq, Structural, Debug)]
pub struct CameraController {
    pub walk_speed: i64,
    pub sprint_speed: i64,
    pub cam_speed: i64,
    pub mouse_captured: bool,
    pub is_forward_pressed: bool,
    pub is_backward_pressed: bool,
    pub is_left_pressed: bool,
    pub is_right_pressed: bool,
    pub is_up_pressed: bool,
    pub is_down_pressed: bool,
    pub is_sprint_pressed: bool,
    pub delta_yaw: i64,
    pub delta_pitch: i64,
    /// Cursor deltas are measured against this window-center point.
    pub window_center_x: i64,
    pub window_center_y: i64,
}

/// The walking direction the pressed keys ask for, one unit per
/// direction, before speed scaling.
pub open spec fn walk_direction(c: CameraController) -> Vec3 {
    let v0 = Vec3 { x: 0i64, y: 0i64, z: 0i64 };
    let v1 = if c.is_forward_pressed {
        v_add(v0, Vec3 { x: 0i64, y: 0i64, z: (-FX_ONE) as i64 })
    } else {
        v0
    };
    let v2 = if c.is_backward_pressed {
        v_add(v1, Vec3 { x: 0i64, y: 0i64, z: FX_ONE })
    } else {
        v1
    };
    let v3 = if c.is_right_pressed {
        v_add(v2, Vec3 { x: FX_ONE, y: 0i64, z: 0i64 })
    } else {
        v2
    };
    if c.is_left_pressed {
        v_add(v3, Vec3 { x: (-FX_ONE) as i64, y: 0i64, z: 0i64 })
    } else {
        v3
    }
}

/// The vertical direction the pressed keys ask for, before speed scaling.
pub open spec fn rise_direction(c: CameraController) -> Vec3 {
    let v0 = Vec3 { x: 0i64, y: 0i64, z: 0i64 };
    let v1 = if c.is_up_pressed {
        v_add(v0, Vec3 { x: 0i64, y: FX_ONE, z: 0i64 })
    } else {
        v0
    };
    if c.is_down_pressed {
        v_add(v1, Vec3 { x: 0i64, y: (-FX_ONE) as i64, z: 0i64 })
    } else {
        v1
    }
}

/// The speed the controller moves at: sprinting or walking.
pub open spec fn current_speed(c: CameraController) -> i64 {
    if c.is_sprint_pressed {
        c.sprint_speed
    } else {
        c.walk_speed
    }
}

/// The camera transform after one controller update: move along the
/// camera's own axes, rise along the world's vertical, then spend the
/// accumulated pitch locally and the accumulated yaw globally.
#[verifier::opaque]
pub open spec fn camera_step(c: CameraController, t: EntityTransform) -> EntityTransform {
    let moved = et_move_local(t, v_scale(walk_direction(c), current_speed(c)));
    let risen = et_move_global(moved, v_scale(rise_direction(c), current_speed(c)));
    let pitched = et_rotate_euler_local(
        risen,
        Vec3 { x: smul(c.delta_pitch, c.cam_speed), y: 0i64, z: 0i64 },
    );
    et_rotate_euler_global(
        pitched,
        Vec3 { x: 0i64, y: smul(c.delta_yaw, c.cam_speed), z: 0i64 },
    )
}

/// The controller state after a key event.
pub open spec fn key_step(c: CameraController, is_pressed: bool, key: KeyCode) -> CameraController {
    match key {
        KeyCode::KeyW | KeyCode::ArrowUp => CameraController { is_forward_pressed: is_pressed, ..c },
        KeyCode::KeyA | KeyCode::ArrowLeft => CameraController { is_left_pressed: is_pressed, ..c },
        KeyCode::KeyS | KeyCode::ArrowDown => CameraController {
            is_backward_pressed: is_pressed,
            ..c
        },
        KeyCode::KeyD | KeyCode::ArrowRight => CameraController {
            is_right_pressed: is_pressed,
            ..c
        },
        KeyCode::KeyE | KeyCode::Space => CameraController { is_up_pressed: is_pressed, ..c },
        KeyCode::KeyQ | KeyCode::ControlLeft => CameraController { is_down_pressed: is_pressed, ..c },
        KeyCode::ShiftLeft => CameraController { is_sprint_pressed: is_pressed, ..c },
        KeyCode::Escape => if is_pressed {
            CameraController { mouse_captured: !c.mouse_captured, ..c }
        } else {
            c
        },
        KeyCode::Other => c,
    }
}

/// The controller state after any window event.
pub open spec fn event_step(c: CameraController, event: WindowEvent) -> CameraController {
    match event {
        WindowEvent::KeyboardInput { event: k } => key_step(c, k.is_pressed, k.key),
        WindowEvent::CursorMoved { position_x, position_y } => if c.mouse_captured {
            CameraController {
                delta_yaw: ssub(position_x, c.window_center_x),
                delta_pitch: ssub(position_y, c.window_center_y),
                ..c
            }
        } else {
            c
        },
        WindowEvent::Other => c,
    }
}

/// One controller step keeps the cached global transform and leaves the
/// camera transform dirty.
pub proof fn lemma_camera_step_frame(c: CameraController, t: EntityTransform)
    ensures
        camera_step(c, t).global == t.global,
        camera_step(c, t).dirty,
{
    reveal(camera_step);
}

impl CameraController {
    /// A fresh controller: nothing pressed, mouse captured, default speeds.
    pub fn new() -> (r: CameraController)
        ensures
            r == (CameraController {
                walk_speed: WALK_SPEED,
                sprint_speed: SPRINT_SPEED,
                cam_speed: CAM_SPEED,
                mouse_captured: true,
                is_forward_pressed: false,
                is_backward_pressed: false,
                is_left_pressed: false,
                is_right_pressed: false,
                is_up_pressed: false,
                is_down_pressed: false,
                is_sprint_pressed: false,
                delta_yaw: 0i64,
                delta_pitch: 0i64,
                window_center_x: 0i64,
                window_center_y: 0i64,
            }),
    {
        CameraController {
            walk_speed: WALK_SPEED,
            sprint_speed: SPRINT_SPEED,
            cam_speed: CAM_SPEED,
            mouse_captured: true,
            is_forward_pressed: false,
            is_backward_pressed: false,
            is_left_pressed: false,
            is_right_pressed: false,
            is_up_pressed: false,
            is_down_pressed: false,
            is_sprint_pressed: false,
            delta_yaw: 0,
            delta_pitch: 0,
            window_center_x: 0,
            window_center_y: 0,
        }
    }

    /// Move the camera transform by the pressed directions and spend the
    /// accumulated rotation deltas.
    pub fn update_camera(&mut self, camera_transform: &mut EntityTransform)
        ensures
            *final(camera_transform) == camera_step(*old(self), *old(camera_transform)),
            *final(self) == (CameraController { delta_yaw: 0i64, delta_pitch: 0i64, ..*old(self) }),
    {
        proof {
            reveal(camera_step);
        }
        let mut move_vec = Vec3::zero();
        let mut global_move_vec = Vec3::zero();

        if self.is_forward_pressed {
            move_vec = move_vec.add(Vec3::new(0, 0, -FX_ONE));
        }
        if self.is_backward_pressed {
            move_vec = move_vec.add(Vec3::new(0, 0, FX_ONE));
        }
        if self.is_right_pressed {
            move_vec = move_vec.add(Vec3::new(FX_ONE, 0, 0));
        }
        if self.is_left_pressed {
            move_vec = move_vec.add(Vec3::new(-FX_ONE, 0, 0));
        }
        if self.is_up_pressed {
            global_move_vec = global_move_vec.add(Vec3::new(0, FX_ONE, 0));
        }
        if self.is_down_pressed {
            global_move_vec = global_move_vec.add(Vec3::new(0, -FX_ONE, 0));
        }

        let speed = if self.is_sprint_pressed {
            self.sprint_speed
        } else {
            self.walk_speed
        };
        move_vec = move_vec.scale(speed);
        global_move_vec = global_move_vec.scale(speed);

        camera_transform.move_local(move_vec);
        camera_transform.move_global(global_move_vec);

        // local rotation for the pitch
        let rotation = Vec3 { x: fx_mul(self.delta_pitch, self.cam_speed), y: 0, z: 0 };
        camera_transform.rotate_euler_local(rotation);
        // global rotation for the yaw
        let rotation = Vec3 { x: 0, y: fx_mul(self.delta_yaw, self.cam_speed), z: 0 };
        camera_transform.rotate_euler_global(rotation);

        // reset rotation deltas
        self.delta_yaw = 0;
        self.delta_pitch = 0;
    }

    /// Note a key press or release, or a cursor movement.
    pub fn process_event(&mut self, event: WindowEvent)
        ensures
            *final(self) == event_step(*old(self), event),
    {
        match event {
            WindowEvent::KeyboardInput { event: k } => {
                let is_pressed = k.is_pressed;
                match k.key {
                    KeyCode::KeyW | KeyCode::ArrowUp => {
                        self.is_forward_pressed = is_pressed;
                    }
                    KeyCode::KeyA | KeyCode::ArrowLeft => {
                        self.is_left_pressed = is_pressed;
                    }
                    KeyCode::KeyS | KeyCode::ArrowDown => {
                        self.is_backward_pressed = is_pressed;
                    }
                    KeyCode::KeyD | KeyCode::ArrowRight => {
                        self.is_right_pressed = is_pressed;
                    }
                    KeyCode::KeyE | KeyCode::Space => {
                        self.is_up_pressed = is_pressed;
                    }
                    KeyCode::KeyQ | KeyCode::ControlLeft => {
                        self.is_down_pressed = is_pressed;
                    }
                    KeyCode::ShiftLeft => {
                        self.is_sprint_pressed = is_pressed;
                    }
                    KeyCode::Escape => {
                        if is_pressed {
                            self.toggle_mouse_captured();
                        }
                    }
                    KeyCode::Other => {}
                }
            }
            WindowEvent::CursorMoved { position_x, position_y } => {
                if self.mouse_captured {
                    self.delta_yaw = fx_sub(position_x, self.window_center_x);
                    self.delta_pitch = fx_sub(position_y, self.window_center_y);
                }
            }
            WindowEvent::Other => {}
        }
    }

    /// Flip whether the mouse is captured.  The windowing layer reads the
    /// flag back and grabs or frees the cursor accordingly.
    fn toggle_mouse_captured(&mut self)
        ensures
            *final(self) == (CameraController {
                mouse_captured: !old(self).mouse_captured,
                ..*old(self)
            }),
    {
        let captured = !self.mouse_captured;
        self.set_mouse_captured(captured);
    }

    /// Set whether the mouse is captured.  The windowing layer reads the
    /// flag back and grabs or frees the cursor accordingly.
    pub fn set_mouse_captured(&mut self, captured: bool)
        ensures
            *final(self) == (CameraController { mouse_captured: captured, ..*old(self) }),
    {
        self.mouse_captured = captured;
    }

    /// Tell the controller where the window center lies, in the same
    /// fixed-point coordinates cursor events use.
    pub fn set_window_center(&mut self, x: i64, y: i64)
        ensures
            *final(self) == (CameraController {
                window_center_x: x,
                window_center_y: y,
                ..*old(self)
            }),
    {
        self.window_center_x = x;
        self.window_center_y = y;
    }
}

impl Component for CameraController {
    fn on_start(&mut self, _scene: &mut Scene, _context: OnStartContext) {
    }

    fn on_update(&mut self, scene: &mut Scene, _context: OnUpdateContext) {
        scene.drive_camera(self);
    }

    fn on_event(&mut self, _scene: &mut Scene, context: OnEventContext) {
        self.process_event(context.event);
    }
}

} // verus!
