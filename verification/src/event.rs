//! Engine-level input events and dispatch contexts.
//!
//! The windowing layer translates platform events into these plain values
//! before they reach the scene.  Cursor positions are fixed-point scalars;
//! the elapsed time handed to updates is a fixed-point count of seconds.

use vstd::prelude::*;

use crate::ids::{ComponentId, EntityId};

verus! {

/// The physical keys the engine reacts to; every other key maps to `Other`.
#[derive(Clone, Copy, PartialEq, Eq, Structural, Debug)]
pub enum KeyCode {
    KeyW,
    KeyA,
    KeyS,
    KeyD,
    KeyE,
    KeyQ,
    Space,
    ShiftLeft,
    ControlLeft,
    Escape,
    ArrowUp,
    ArrowDown,
    ArrowLeft,
    ArrowRight,
    Other,
}

/// A key press or release.
#[derive(Clone, Copy, PartialEq, Eq, Structural, Debug)]
pub struct KeyEvent {
    pub is_pressed: bool,
    pub key: KeyCode,
}

/// An engine-level window event.
#[derive(Clone, Copy, PartialEq, Eq, Structural, Debug)]
pub enum WindowEvent {
    KeyboardInput { event: KeyEvent },
    CursorMoved { position_x: i64, position_y: i64 },
    Other,
}

/// Caller information handed to a component when the scene starts.
#[derive(Clone, Copy, PartialEq, Eq, Structural, Debug)]
pub struct OnStartContext {
    pub entity: EntityId,
    pub component: ComponentId,
}

/// Caller information handed to a component on every frame update.
#[derive(Clone, Copy, PartialEq, Eq, Structural, Debug)]
pub struct OnUpdateContext {
    pub entity: EntityId,
    pub component: ComponentId,
    /// Fixed-point seconds since the previous update.
    pub delta_time: i64,
}

/// Caller information handed to a component for an input event.
#[derive(Clone, Copy, PartialEq, Eq, Structural, Debug)]
pub struct OnEventContext {
    pub entity: EntityId,
    pub component: ComponentId,
    /// The window event being dispatched.
    pub event: WindowEvent,
}

} // verus!
