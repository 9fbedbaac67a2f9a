//! The camera component.
//!
//! The camera caches the world-to-camera transform: the inverse of its
//! entity's global transform, refreshed on every update.  Building the
//! projection matrix from the lens parameters is the renderer's job; the
//! parameters are kept here as fixed-point values.

use vstd::prelude::*;

use crate::component::Component;
use crate::event::{OnEventContext, OnStartContext, OnUpdateContext};
use crate::fixed::{fx_div, sdiv, FX_ONE};
use crate::ids::EntityId;
use crate::math::{Mat3, Vec3};
use crate::scene::{node_index, Scene, SceneNode};
use crate::transform::{t_inverse, Transform};

verus! {

/// Vertical field of view the camera starts with: 45 degrees.
pub const DEFAULT_FOVY: i64 = 2949120;

/// Near clipping plane the camera starts with: a tenth of a unit.
pub const DEFAULT_ZNEAR: i64 = 6554;

/// Far clipping plane the camera starts with: a hundred units.
pub const DEFAULT_ZFAR: i64 = 6553600;

/// The transform whose linear part and translation are all zero: the
/// value the cached view holds before the first update.
pub open spec fn zero_transform() -> Transform {
    Transform {
        linear: Mat3 {
            r0c0: 0,
            r0c1: 0,
            r0c2: 0,
            r1c0: 0,
            r1c1: 0,
            r1c2: 0,
            r2c0: 0,
            r2c1: 0,
            r2c2: 0,
        },
        translation: Vec3 { x: 0i64, y: 0i64, z: 0i64 },
    }
}

/// The camera after one refresh against an entity tree: the cached view
/// becomes the inverse of the owning entity's cached global transform,
/// or stays as it was when the entity is not in the tree.
pub open spec fn camera_refreshed(c: Camera, nodes: Seq<SceneNode>, entity: EntityId) -> Camera {
    let i = node_index(nodes, entity);
    if 0 <= i < nodes.len() {
        Camera { view: t_inverse(nodes[i].entity.transform.global), ..c }
    } else {
        c
    }
}

/// A perspective camera.
#[derive(Clone, Copy, PartialEq, Eq, Structural, Debug)]
pub struct Camera {
    /// The cached world-to-camera transform: the inverse of the entity's
    /// global transform as of the last update.
    pub view: Transform,
    /// Width over height of the drawing surface.
    pub aspect: i64,
    /// Vertical field of view, fixed-point degrees.
    pub fovy: i64,
    /// Near clipping plane distance.
    pub znear: i64,
    /// Far clipping plane distance.
    pub zfar: i64,
}

impl Camera {
    /// A camera with default lens parameters and a zeroed view.
    pub fn new() -> (r: Camera)
        ensures
            r == (Camera {
                view: zero_transform(),
                aspect: FX_ONE,
                fovy: DEFAULT_FOVY,
                znear: DEFAULT_ZNEAR,
                zfar: DEFAULT_ZFAR,
            }),
    {
        Camera {
            view: Transform {
                linear: Mat3 {
                    r0c0: 0,
                    r0c1: 0,
                    r0c2: 0,
                    r1c0: 0,
                    r1c1: 0,
                    r1c2: 0,
                    r2c0: 0,
                    r2c1: 0,
                    r2c2: 0,
                },
                translation: Vec3 { x: 0, y: 0, z: 0 },
            },
            aspect: FX_ONE,
            fovy: DEFAULT_FOVY,
            znear: DEFAULT_ZNEAR,
            zfar: DEFAULT_ZFAR,
        }
    }

    /// Track a resize of the drawing surface.
    pub fn update_aspect(&mut self, width: i64, height: i64)
        requires
            height > 0,
        ensures
            *final(self) == (Camera { aspect: sdiv(width, height), ..*old(self) }),
    {
        self.aspect = fx_div(width, height);
    }

    /// Recompute the cached view from the entity's global transform.
    pub fn refresh_view(&mut self, global: &Transform)
        ensures
            *final(self) == (Camera { view: t_inverse(*global), ..*old(self) }),
    {
        self.view = global.inverse();
    }

    /// Recompute the cached view from the owning entity's cached global
    /// transform; unchanged when the entity is not in the scene.
    pub fn refresh_from_scene(&mut self, scene: &Scene, entity: &EntityId)
        ensures
            *final(self) == camera_refreshed(*old(self), scene.nodes@, *entity),
    {
        proof {
            crate::scene_mut::lemma_find_node_props(scene.nodes@, *entity, 0);
        }
        match scene.get_transform(entity) {
            Some(t) => {
                let g = t.global;
                self.refresh_view(&g);
            },
            None => {},
        }
    }

    /// The cached world-to-camera transform.
    pub fn get_view_transform(&self) -> (r: Transform)
        ensures
            r == self.view,
    {
        self.view
    }
}

impl Component for Camera {
    fn on_start(&mut self, _scene: &mut Scene, _context: OnStartContext) {
    }

    fn on_update(&mut self, scene: &mut Scene, context: OnUpdateContext) {
        // update the cached view from the entity's transform
        self.refresh_from_scene(scene, &context.entity);
    }

    fn on_event(&mut self, _scene: &mut Scene, _context: OnEventContext) {
    }
}

} // verus!
