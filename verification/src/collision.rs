//! Axis-aligned box colliders and their correction vectors.
//!
//! The overlap test works on world-space box centers: each collider's
//! local center offset is added to the translation of its entity's global
//! transform.  Rotation and scale of the collider box itself are not
//! modelled; only the translation is applied — a deliberate
//! simplification of the collision model.

use vstd::prelude::*;

use crate::component::Component;
use crate::event::{OnEventContext, OnStartContext, OnUpdateContext};
use crate::fixed::{fx_abs, fx_add, fx_sub, sabs, sadd, ssub};
use crate::math::{v_add, Vec3};
use crate::scene::Scene;
use crate::transform::Transform;

verus! {

/// Axis-aligned box collider: fast and simple.
#[derive(Clone, Copy, PartialEq, Eq, Structural, Debug)]
pub struct SimpleBoxCollider {
    /// The center point of the collider, relative to the entity's transform.
    pub position: Vec3,
    /// Half-extents: the distance from the center to each face.
    pub dimensions: Vec3,
}

/// The signed overlap along one axis, following the rule of pushing out
/// along the side the box already leans toward.
pub open spec fn axis_overlap(ap: i64, ae: i64, bp: i64, be: i64) -> i64 {
    if ap > bp {
        ssub(sadd(bp, be), ssub(ap, ae))
    } else {
        ssub(ssub(bp, be), sadd(ap, ae))
    }
}

/// Whether the overlap along one axis really is an overlap: positive on
/// the positive side, negative on the negative side.
pub open spec fn axis_in_bounds(ap: i64, bp: i64, d: i64) -> bool {
    if ap > bp {
        d > 0
    } else {
        d < 0
    }
}

/// The correction vector separating box `a` from box `b`, or `None` when
/// they do not overlap.  When all three axes overlap, the axis of
/// smallest absolute displacement wins; the comparison chain lets x win
/// only when strictly smallest, so a tied axis falls through to the
/// later one.
pub open spec fn correction_vec(
    a: SimpleBoxCollider,
    a_transform: Transform,
    b: SimpleBoxCollider,
    b_transform: Transform,
) -> Option<Vec3> {
    let a_pos = v_add(a_transform.translation, a.position);
    let b_pos = v_add(b_transform.translation, b.position);
    let dx = axis_overlap(a_pos.x, a.dimensions.x, b_pos.x, b.dimensions.x);
    let dy = axis_overlap(a_pos.y, a.dimensions.y, b_pos.y, b.dimensions.y);
    let dz = axis_overlap(a_pos.z, a.dimensions.z, b_pos.z, b.dimensions.z);
    if !(axis_in_bounds(a_pos.x, b_pos.x, dx) && axis_in_bounds(a_pos.y, b_pos.y, dy)
        && axis_in_bounds(a_pos.z, b_pos.z, dz)) {
        None
    } else if sabs(dx) < sabs(dy) && sabs(dx) < sabs(dz) {
        Some(Vec3 { x: dx, y: 0i64, z: 0i64 })
    } else if sabs(dy) < sabs(dz) {
        Some(Vec3 { x: 0i64, y: dy, z: 0i64 })
    } else {
        Some(Vec3 { x: 0i64, y: 0i64, z: dz })
    }
}

/// The signed overlap along one axis.
fn axis_overlap_exec(ap: i64, ae: i64, bp: i64, be: i64) -> (r: i64)
    ensures
        r == axis_overlap(ap, ae, bp, be),
{
    if ap > bp {
        fx_sub(fx_add(bp, be), fx_sub(ap, ae))
    } else {
        fx_sub(fx_sub(bp, be), fx_add(ap, ae))
    }
}

impl SimpleBoxCollider {
    /// A box with the given center offset and half-extents.
    pub fn new(position: Vec3, dimensions: Vec3) -> (r: SimpleBoxCollider)
        ensures
            r == (SimpleBoxCollider { position, dimensions }),
    {
        SimpleBoxCollider { position, dimensions }
    }

    /// Get the collision correction vector for this box if the other one
    /// is also a box.
    pub fn box_correction_vec(
        a: &SimpleBoxCollider,
        a_transform: &Transform,
        b: &SimpleBoxCollider,
        b_transform: &Transform,
    ) -> (r: Option<Vec3>)
        ensures
            r == correction_vec(*a, *a_transform, *b, *b_transform),
    {
        let a_pos = a_transform.translation.add(a.position);
        let b_pos = b_transform.translation.add(b.position);

        let dx = axis_overlap_exec(a_pos.x, a.dimensions.x, b_pos.x, b.dimensions.x);
        let x_in_bounds = if a_pos.x > b_pos.x { dx > 0 } else { dx < 0 };

        let dy = axis_overlap_exec(a_pos.y, a.dimensions.y, b_pos.y, b.dimensions.y);
        let y_in_bounds = if a_pos.y > b_pos.y { dy > 0 } else { dy < 0 };

        let dz = axis_overlap_exec(a_pos.z, a.dimensions.z, b_pos.z, b.dimensions.z);
        let z_in_bounds = if a_pos.z > b_pos.z { dz > 0 } else { dz < 0 };

        if !x_in_bounds || !y_in_bounds || !z_in_bounds {
            None
        } else {
            // take the axis of smallest displacement
            if fx_abs(dx) < fx_abs(dy) && fx_abs(dx) < fx_abs(dz) {
                Some(Vec3 { x: dx, y: 0, z: 0 })
            } else if fx_abs(dy) < fx_abs(dz) {
                Some(Vec3 { x: 0, y: dy, z: 0 })
            } else {
                Some(Vec3 { x: 0, y: 0, z: dz })
            }
        }
    }
}

/// The shapes a collider can take.
#[derive(Clone, Copy, PartialEq, Eq, Structural, Debug)]
pub enum ColliderShape {
    Box(SimpleBoxCollider),
}

impl ColliderShape {
    /// The correction vector between two collider shapes.
    pub fn get_correction_vec(
        a: &ColliderShape,
        a_transform: &Transform,
        b: &ColliderShape,
        b_transform: &Transform,
    ) -> (r: Option<Vec3>)
        ensures
            r == shape_correction_vec(*a, *a_transform, *b, *b_transform),
    {
        match (a, b) {
            (ColliderShape::Box(a_box), ColliderShape::Box(b_box)) => {
                SimpleBoxCollider::box_correction_vec(a_box, a_transform, b_box, b_transform)
            }
        }
    }
}

/// The correction vector between two collider shapes.
pub open spec fn shape_correction_vec(
    a: ColliderShape,
    a_transform: Transform,
    b: ColliderShape,
    b_transform: Transform,
) -> Option<Vec3> {
    match (a, b) {
        (ColliderShape::Box(a_box), ColliderShape::Box(b_box)) => {
            correction_vec(a_box, a_transform, b_box, b_transform)
        }
    }
}

/// A collider component: a shape plus the flag telling whether collision
/// resolution may move the body.
#[derive(Clone, Copy, PartialEq, Eq, Structural, Debug)]
pub struct Collider {
    /// The collider's shape.
    pub shape: ColliderShape,
    /// False means the collider is static and is never moved.
    pub dynamic: bool,
}

impl Collider {
    /// A collider with the given shape.
    pub fn new(shape: ColliderShape, dynamic: bool) -> (r: Collider)
        ensures
            r == (Collider { shape, dynamic }),
    {
        Collider { shape, dynamic }
    }

    /// Construct a new axis-aligned bounding-box collider.
    pub fn new_aabb(position: Vec3, dimensions: Vec3, dynamic: bool) -> (r: Collider)
        ensures
            r == (Collider {
                shape: ColliderShape::Box(SimpleBoxCollider { position, dimensions }),
                dynamic,
            }),
    {
        Collider {
            shape: ColliderShape::Box(SimpleBoxCollider::new(position, dimensions)),
            dynamic,
        }
    }

    /// Whether collision resolution may move this collider's entity.
    pub fn dynamic(&self) -> (r: bool)
        ensures
            r == self.dynamic,
    {
        self.dynamic
    }

    /// The correction vector between two colliders.
    pub fn get_correction_vec(
        a: &Collider,
        a_transform: &Transform,
        b: &Collider,
        b_transform: &Transform,
    ) -> (r: Option<Vec3>)
        ensures
            r == shape_correction_vec(a.shape, *a_transform, b.shape, *b_transform),
    {
        ColliderShape::get_correction_vec(&a.shape, a_transform, &b.shape, b_transform)
    }
}

// colliders could be treated separately
impl Component for SimpleBoxCollider {
    fn on_start(&mut self, _scene: &mut Scene, _context: OnStartContext) {
    }

    fn on_update(&mut self, _scene: &mut Scene, _context: OnUpdateContext) {
    }

    fn on_event(&mut self, _scene: &mut Scene, _context: OnEventContext) {
    }
}

// Colliders get special treatment from the scene's collision pass.
impl Component for Collider {
    fn on_start(&mut self, _scene: &mut Scene, _context: OnStartContext) {
    }

    fn on_update(&mut self, _scene: &mut Scene, _context: OnUpdateContext) {
    }

    fn on_event(&mut self, _scene: &mut Scene, _context: OnEventContext) {
    }
}

} // verus!
