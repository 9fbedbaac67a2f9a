//! Scene and entity layer of a small real-time 3D engine.
//!
//! The crate provides an entity-component hierarchy with lazily propagated
//! hierarchical transforms, a closed set of components behind a downcastable
//! handle, and an axis-aligned collision-correction pass.  All scalar
//! quantities are fixed-point numbers so that every operation is exact
//! integer arithmetic with saturation at the ends of the `i64` range.

pub mod camera;
pub mod camera_controller;
pub mod collision;
pub mod component;
pub mod entity;
pub mod event;
pub mod fixed;
pub mod handler;
pub mod ids;
pub mod math;
pub mod model;
pub mod scene;
pub mod scene_dispatch;
pub mod scene_draw;
pub mod scene_mut;
pub mod scene_collision;
pub mod scene_propagate;
pub mod transform;
pub mod trig;

pub use camera::Camera;
pub use camera_controller::CameraController;
pub use collision::{Collider, ColliderShape, SimpleBoxCollider};
pub use component::{ComponentDowncastError, ComponentKind, ComponentSlot, ComponentValue, DispatchResult, DynComponentRef};
pub use entity::{Entity, EntityTransform};
pub use event::{KeyCode, KeyEvent, OnEventContext, OnStartContext, OnUpdateContext, WindowEvent};
pub use fixed::FX_ONE;
pub use handler::{EngineHandler, HandlerAction, WindowSignal};
pub use ids::{ComponentId, EntityId};
pub use math::{Mat3, Vec3};
pub use model::Model;
pub use scene::{ComponentEntry, Error, Scene, SceneNode};
pub use transform::{Transform, TransformSpace};
