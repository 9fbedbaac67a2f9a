//! Type-erased component storage with safe downcasting.
//!
//! The engine's component set is closed, so the erased holder is a tagged
//! union and a downcast is a checked variant match: it either yields the
//! concrete value or fails with `ComponentDowncastError`, and can never
//! misread memory.  Exclusive access during dispatch is modelled by
//! taking the value out of its slot and leaving an `InUse` marker behind;
//! a dispatch that meets its own marker skips instead of deadlocking.

use vstd::prelude::*;

use crate::camera::Camera;
use crate::camera_controller::CameraController;
use crate::collision::Collider;
use crate::event::{OnEventContext, OnStartContext, OnUpdateContext};
use crate::model::Model;
use crate::scene::Scene;

verus! {

/// The lifecycle contract every component implements.  Each callback
/// receives the scene and the caller's identifiers; every implementation
/// must leave the scene well-formed.
pub trait Component: Sized {
    /// Called once when the scene starts.
    fn on_start(&mut self, scene: &mut Scene, context: OnStartContext)
        requires
            old(scene).wf(),
        ensures
            final(scene).wf(),
    ;

    /// Called on every frame update.
    fn on_update(&mut self, scene: &mut Scene, context: OnUpdateContext)
        requires
            old(scene).wf(),
        ensures
            final(scene).wf(),
    ;

    /// Called for every window event.
    fn on_event(&mut self, scene: &mut Scene, context: OnEventContext)
        requires
            old(scene).wf(),
        ensures
            final(scene).wf(),
    ;
}

/// A failed attempt to view a component as a type it does not have.
#[derive(Clone, Copy, PartialEq, Eq, Structural, Debug)]
pub struct ComponentDowncastError {}

/// The concrete kinds of component the engine knows.
#[derive(Clone, Copy, PartialEq, Eq, Structural, Debug)]
pub enum ComponentKind {
    Camera,
    CameraController,
    Collider,
    Model,
}

/// A component value of any of the engine's concrete kinds.
#[derive(Clone, Copy, PartialEq, Eq, Structural, Debug)]
pub enum ComponentValue {
    Camera(Camera),
    CameraController(CameraController),
    Collider(Collider),
    Model(Model),
}

/// The kind tag of a component value.
pub open spec fn kind_of(v: ComponentValue) -> ComponentKind {
    match v {
        ComponentValue::Camera(_) => ComponentKind::Camera,
        ComponentValue::CameraController(_) => ComponentKind::CameraController,
        ComponentValue::Collider(_) => ComponentKind::Collider,
        ComponentValue::Model(_) => ComponentKind::Model,
    }
}

/// What a component slot holds: its value at rest, or a marker with the
/// value's kind while a dispatch call is running inside it.
#[derive(Clone, Copy, PartialEq, Eq, Structural, Debug)]
pub enum ComponentSlot {
    Present(ComponentValue),
    InUse(ComponentKind),
}

/// The kind tag of a slot, present or in use.
pub open spec fn slot_kind(s: ComponentSlot) -> ComponentKind {
    match s {
        ComponentSlot::Present(v) => kind_of(v),
        ComponentSlot::InUse(k) => k,
    }
}

/// How a dispatch attempt on one component ended.
#[derive(Clone, Copy, PartialEq, Eq, Structural, Debug)]
pub enum DispatchResult {
    /// The lifecycle method ran.
    Dispatched,
    /// The component was already being dispatched — a re-entrant call —
    /// so the attempt was skipped rather than blocking.
    SkippedReentrant,
}

/// The kind tag of a component value.
pub fn kind_of_value(v: &ComponentValue) -> (r: ComponentKind)
    ensures
        r == kind_of(*v),
{
    match v {
        ComponentValue::Camera(_) => ComponentKind::Camera,
        ComponentValue::CameraController(_) => ComponentKind::CameraController,
        ComponentValue::Collider(_) => ComponentKind::Collider,
        ComponentValue::Model(_) => ComponentKind::Model,
    }
}

/// A type-erased component holder: one concrete value behind a uniform
/// handle, recovered by a checked downcast.
#[derive(Clone, Copy, PartialEq, Eq, Structural, Debug)]
pub struct DynComponentRef {
    /// The held value.
    pub value: ComponentValue,
}

impl DynComponentRef {
    /// Wrap a concrete component value.
    pub fn new(value: ComponentValue) -> (r: DynComponentRef)
        ensures
            r == (DynComponentRef { value }),
    {
        DynComponentRef { value }
    }

    /// The kind tag of the held value.
    pub fn kind(&self) -> (r: ComponentKind)
        ensures
            r == kind_of(self.value),
    {
        match &self.value {
            ComponentValue::Camera(_) => ComponentKind::Camera,
            ComponentValue::CameraController(_) => ComponentKind::CameraController,
            ComponentValue::Collider(_) => ComponentKind::Collider,
            ComponentValue::Model(_) => ComponentKind::Model,
        }
    }

    /// View the held value as a camera; fails unless it is one.
    pub fn downcast_camera(&self) -> (r: Result<&Camera, ComponentDowncastError>)
        ensures
            match r {
                Ok(c) => self.value == ComponentValue::Camera(*c),
                Err(_) => !(self.value is Camera),
            },
    {
        match &self.value {
            ComponentValue::Camera(c) => Ok(c),
            _ => Err(ComponentDowncastError {}),
        }
    }

    /// View the held value as a camera controller; fails unless it is one.
    pub fn downcast_camera_controller(&self) -> (r: Result<
        &CameraController,
        ComponentDowncastError,
    >)
        ensures
            match r {
                Ok(c) => self.value == ComponentValue::CameraController(*c),
                Err(_) => !(self.value is CameraController),
            },
    {
        match &self.value {
            ComponentValue::CameraController(c) => Ok(c),
            _ => Err(ComponentDowncastError {}),
        }
    }

    /// View the held value as a collider; fails unless it is one.
    pub fn downcast_collider(&self) -> (r: Result<&Collider, ComponentDowncastError>)
        ensures
            match r {
                Ok(c) => self.value == ComponentValue::Collider(*c),
                Err(_) => !(self.value is Collider),
            },
    {
        match &self.value {
            ComponentValue::Collider(c) => Ok(c),
            _ => Err(ComponentDowncastError {}),
        }
    }

    /// View the held value as a model; fails unless it is one.
    pub fn downcast_model(&self) -> (r: Result<&Model, ComponentDowncastError>)
        ensures
            match r {
                Ok(c) => self.value == ComponentValue::Model(*c),
                Err(_) => !(self.value is Model),
            },
    {
        match &self.value {
            ComponentValue::Model(c) => Ok(c),
            _ => Err(ComponentDowncastError {}),
        }
    }
}

} // verus!
