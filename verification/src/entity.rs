//! Entities and their cached transforms.
//!
//! Every entity carries an `EntityTransform`: a local transform relative
//! to its parent, a cached global transform, and a dirty flag.  Any
//! mutation of the local transform raises the dirty flag; the scene's
//! propagation pass recomputes the cached global transform and clears it.

use vstd::prelude::*;

use crate::component::Component;
use crate::event::{OnEventContext, OnStartContext, OnUpdateContext};
use crate::scene::Scene;
use crate::ids::ComponentId;
use crate::math::{m_apply, m_identity, m_mul, v_add, Vec3};
use crate::transform::{
    euler_rotation_negated, t_compose, t_identity, t_inverse, Transform,
};

verus! {

/// Per-entity transform cache.  Whenever `dirty` is false, the scene
/// keeps `global == parent.global * local`.
#[derive(Clone, Copy, PartialEq, Eq, Structural, Debug)]
pub struct EntityTransform {
    /// The transform relative to the parent entity.
    pub local: Transform,
    /// Raised when `local` changed after `global` was last computed.
    pub dirty: bool,
    /// The cached transform in world space.
    pub global: Transform,
}

/// A pure translation as a transform.
pub open spec fn translation_transform(v: Vec3) -> Transform {
    Transform { linear: m_identity(), translation: v }
}

/// The cache after translating along the world axes:
/// `local = local * (global^-1 * T(v) * global)`, dirty raised.  The
/// conjugation carries the world-space offset into the parent basis, so
/// after the next propagation the entity's world position has moved by
/// exactly `v` and its rotation is untouched.
pub open spec fn et_translate_global(t: EntityTransform, v: Vec3) -> EntityTransform {
    EntityTransform {
        local: t_compose(
            t.local,
            t_compose(t_compose(t_inverse(t.global), translation_transform(v)), t.global),
        ),
        dirty: true,
        global: t.global,
    }
}

/// The cache after translating along the entity's own axes:
/// `local = local * T(v)`, dirty raised.
pub open spec fn et_translate_local(t: EntityTransform, v: Vec3) -> EntityTransform {
    EntityTransform {
        local: t_compose(t.local, translation_transform(v)),
        dirty: true,
        global: t.global,
    }
}

/// The cache after rotating the local transform on its right, dirty raised.
pub open spec fn et_rotate_euler_local(t: EntityTransform, e: Vec3) -> EntityTransform {
    EntityTransform {
        local: Transform {
            linear: m_mul(t.local.linear, euler_rotation_negated(e)),
            translation: t.local.translation,
        },
        dirty: true,
        global: t.global,
    }
}

/// The cache after rotating the local transform on its left, dirty raised.
pub open spec fn et_rotate_euler_global(t: EntityTransform, e: Vec3) -> EntityTransform {
    EntityTransform {
        local: Transform {
            linear: m_mul(euler_rotation_negated(e), t.local.linear),
            translation: t.local.translation,
        },
        dirty: true,
        global: t.global,
    }
}

/// The cache after moving the local position along the parent's axes,
/// dirty raised.
pub open spec fn et_move_global(t: EntityTransform, v: Vec3) -> EntityTransform {
    EntityTransform {
        local: Transform {
            linear: t.local.linear,
            translation: v_add(t.local.translation, v),
        },
        dirty: true,
        global: t.global,
    }
}

/// The cache after moving the local position along the entity's own axes,
/// dirty raised.
pub open spec fn et_move_local(t: EntityTransform, v: Vec3) -> EntityTransform {
    EntityTransform {
        local: Transform {
            linear: t.local.linear,
            translation: v_add(t.local.translation, m_apply(t.local.linear, v)),
        },
        dirty: true,
        global: t.global,
    }
}

impl EntityTransform {
    /// A fresh cache: identity transforms, nothing dirty.
    pub fn new() -> (r: EntityTransform)
        ensures
            r == (EntityTransform { local: t_identity(), dirty: false, global: t_identity() }),
    {
        EntityTransform { local: Transform::identity(), dirty: false, global: Transform::identity() }
    }

    /// The local transform.
    pub fn local_ref(&self) -> (r: &Transform)
        ensures
            r == self.local,
    {
        &self.local
    }

    /// The cached world transform; valid only right after a propagation
    /// pass, while `dirty` is false.
    pub fn global_ref(&self) -> (r: &Transform)
        ensures
            r == self.global,
    {
        &self.global
    }

    /// Translate along the world axes:
    /// `local = local * (global^-1 * T(v) * global)`.
    pub fn translate_global(&mut self, v: Vec3)
        ensures
            *final(self) == et_translate_global(*old(self), v),
    {
        self.dirty = true;
        let global_translate = Transform::from_translation(v);
        let inverse_global = self.global.inverse();
        let local_translation = inverse_global.compose(global_translate).compose(self.global);
        self.local = self.local.compose(local_translation);
    }

    /// Translate along the entity's own axes: `local = local * T(v)`.
    pub fn translate_local(&mut self, v: Vec3)
        ensures
            *final(self) == et_translate_local(*old(self), v),
    {
        self.dirty = true;
        let step = Transform::from_translation(v);
        self.local = self.local.compose(step);
    }

    /// Rotate the local transform by Euler angles, applied on its right:
    /// `local = local * Rz * Ry * Rx`.
    pub fn rotate_euler_local(&mut self, e: Vec3)
        ensures
            *final(self) == et_rotate_euler_local(*old(self), e),
    {
        self.dirty = true;
        self.local.rotate_euler_local(e);
    }

    /// Rotate the local transform by Euler angles, applied on its left;
    /// the local position is unchanged.
    pub fn rotate_euler_global(&mut self, e: Vec3)
        ensures
            *final(self) == et_rotate_euler_global(*old(self), e),
    {
        self.dirty = true;
        self.local.rotate_euler_global(e);
    }

    /// Move the local position directly along the parent's axes.
    pub fn move_global(&mut self, v: Vec3)
        ensures
            *final(self) == et_move_global(*old(self), v),
    {
        self.dirty = true;
        self.local.translate_global(v);
    }

    /// Move the local position along the entity's own axes.
    pub fn move_local(&mut self, v: Vec3)
        ensures
            *final(self) == et_move_local(*old(self), v),
    {
        self.dirty = true;
        self.local.translate_local(v);
    }
}

/// An entity: a diagnostic name, the components it owns, and its
/// transform cache.
#[derive(Clone, Debug)]
pub struct Entity {
    /// Diagnostic name; carries no meaning for the engine.
    pub name: String,
    /// The components attached to this entity, in attachment order.
    pub components: Vec<ComponentId>,
    /// The entity's transform cache.
    pub transform: EntityTransform,
}

impl Entity {
    /// A fresh entity with no components and an identity transform.
    pub fn new(name: String) -> (r: Entity)
        ensures
            r.name == name,
            r.components@ == Seq::<ComponentId>::empty(),
            r.transform == (EntityTransform {
                local: t_identity(),
                dirty: false,
                global: t_identity(),
            }),
    {
        Entity { name, components: Vec::new(), transform: EntityTransform::new() }
    }
}

impl Component for EntityTransform {
    fn on_start(&mut self, _scene: &mut Scene, _context: OnStartContext) {
    }

    fn on_update(&mut self, _scene: &mut Scene, _context: OnUpdateContext) {
    }

    fn on_event(&mut self, _scene: &mut Scene, _context: OnEventContext) {
    }
}

} // verus!
