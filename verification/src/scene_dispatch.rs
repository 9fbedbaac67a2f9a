//! Component lookup and lifecycle dispatch.
//!
//! Lookups scan the component table in registration order, which is the
//! stable per-frame dispatch order the scene promises.  Dispatch takes a
//! component's value out of its slot, leaving an in-use marker behind;
//! an attempt to dispatch into a marked slot — a re-entrant call — is
//! skipped and reported as such rather than blocking.  The marker also
//! hides the component from lookups while its own callback runs.

use vstd::prelude::*;

use crate::camera::Camera;
use crate::camera_controller::{camera_step, event_step, CameraController};
use crate::component::{
    kind_of, kind_of_value, ComponentKind, ComponentSlot, ComponentValue, DispatchResult,
};
use crate::event::WindowEvent;
use crate::ids::{ComponentId, EntityId};
use crate::scene::{node_index, ComponentEntry, Scene, SceneNode};

verus! {

/// The first entry at or after `from` holding a value of the kind, or -1.
/// Entries whose slot is marked in use are invisible to the search.
pub open spec fn find_kind(entries: Seq<ComponentEntry>, kind: ComponentKind, from: int) -> int
    decreases entries.len() - from,
{
    if from < 0 || from >= entries.len() {
        -1
    } else {
        match entries[from].slot {
            ComponentSlot::Present(v) => if kind_of(v) == kind {
                from
            } else {
                find_kind(entries, kind, from + 1)
            },
            ComponentSlot::InUse(_) => find_kind(entries, kind, from + 1),
        }
    }
}

/// The first entry at or after `from` attached to the entity and holding
/// a value of the kind, or -1; in-use slots are invisible.
pub open spec fn find_entity_kind(
    entries: Seq<ComponentEntry>,
    entity: EntityId,
    kind: ComponentKind,
    from: int,
) -> int
    decreases entries.len() - from,
{
    if from < 0 || from >= entries.len() {
        -1
    } else {
        match entries[from].slot {
            ComponentSlot::Present(v) => if entries[from].entity == entity && kind_of(v) == kind {
                from
            } else {
                find_entity_kind(entries, entity, kind, from + 1)
            },
            ComponentSlot::InUse(_) => find_entity_kind(entries, entity, kind, from + 1),
        }
    }
}

impl Scene {
    /// The first component of the kind, in registration order, with its
    /// identifier.  Components whose own callback is running are not
    /// seen.
    pub fn find_first_component(&self, kind: ComponentKind) -> (r: Option<(
        ComponentId,
        ComponentValue,
    )>)
        ensures
            match r {
                Some((cid, v)) => {
                    let k = find_kind(self.components@, kind, 0);
                    &&& 0 <= k < self.components@.len()
                    &&& self.components@[k].id == cid
                    &&& self.components@[k].slot == ComponentSlot::Present(v)
                    &&& kind_of(v) == kind
                },
                None => find_kind(self.components@, kind, 0) == -1,
            },
    {
        let n = self.components.len();
        let mut j: usize = 0;
        while j < n
            invariant
                0 <= j <= n,
                n == self.components@.len(),
                find_kind(self.components@, kind, 0) == find_kind(self.components@, kind, j as int),
            decreases n - j,
        {
            let e = self.components[j];
            match e.slot {
                ComponentSlot::Present(v) => {
                    let vk = kind_of_value(&v);
                    if vk == kind {
                        return Some((e.id, v));
                    }
                },
                ComponentSlot::InUse(_) => {},
            }
            j += 1;
        }
        None
    }

    /// The first camera component, in registration order.
    pub fn find_first_camera(&self) -> (r: Option<(ComponentId, Camera)>)
        ensures
            match r {
                Some((cid, cam)) => {
                    let k = find_kind(self.components@, ComponentKind::Camera, 0);
                    &&& 0 <= k < self.components@.len()
                    &&& self.components@[k].id == cid
                    &&& self.components@[k].slot == ComponentSlot::Present(
                        ComponentValue::Camera(cam),
                    )
                },
                None => find_kind(self.components@, ComponentKind::Camera, 0) == -1,
            },
    {
        match self.find_first_component(ComponentKind::Camera) {
            Some((cid, ComponentValue::Camera(cam))) => Some((cid, cam)),
            _ => None,
        }
    }

    /// The first component of the kind attached to the entity, in
    /// registration order.
    pub fn get_component(&self, entity: &EntityId, kind: ComponentKind) -> (r: Option<(
        ComponentId,
        ComponentValue,
    )>)
        ensures
            match r {
                Some((cid, v)) => {
                    let k = find_entity_kind(self.components@, *entity, kind, 0);
                    &&& 0 <= k < self.components@.len()
                    &&& self.components@[k].id == cid
                    &&& self.components@[k].entity == *entity
                    &&& self.components@[k].slot == ComponentSlot::Present(v)
                    &&& kind_of(v) == kind
                },
                None => find_entity_kind(self.components@, *entity, kind, 0) == -1,
            },
    {
        let n = self.components.len();
        let mut j: usize = 0;
        while j < n
            invariant
                0 <= j <= n,
                n == self.components@.len(),
                find_entity_kind(self.components@, *entity, kind, 0) == find_entity_kind(
                    self.components@,
                    *entity,
                    kind,
                    j as int,
                ),
            decreases n - j,
        {
            let e = self.components[j];
            match e.slot {
                ComponentSlot::Present(v) => {
                    let vk = kind_of_value(&v);
                    if e.entity.raw == entity.raw && vk == kind {
                        return Some((e.id, v));
                    }
                },
                ComponentSlot::InUse(_) => {},
            }
            j += 1;
        }
        None
    }

    /// Move the camera entity by the controller's pressed directions and
    /// accumulated rotation deltas, as one frame update of the
    /// controller.  Without a camera in the scene nothing happens.
    pub(crate) fn drive_camera(&mut self, ctrl: &mut CameraController)
        requires
            old(self).wf(),
        ensures
            final(self).wf(),
            final(self).components@ == old(self).components@,
            ({
                let k = find_kind(old(self).components@, ComponentKind::Camera, 0);
                if k == -1 {
                    &&& final(self).nodes@ == old(self).nodes@
                    &&& *final(ctrl) == *old(ctrl)
                } else {
                    let i = node_index(old(self).nodes@, old(self).components@[k].entity);
                    &&& 0 <= i < old(self).nodes@.len()
                    &&& final(self).nodes@ == crate::scene_mut::with_transform(
                        old(self).nodes@,
                        i,
                        camera_step(*old(ctrl), old(self).nodes@[i].entity.transform),
                    )
                    &&& *final(ctrl) == (CameraController {
                        delta_yaw: 0i64,
                        delta_pitch: 0i64,
                        ..*old(ctrl)
                    })
                }
            }),
    {
        match self.find_first_camera() {
            None => {},
            Some((cam_cid, _cam)) => {
                proof {
                    reveal(crate::scene::comps_wf);
                    lemma_find_kind_id(self.components@, ComponentKind::Camera, 0);
                }
                let ki = match self.find_comp_index(&cam_cid) {
                    Some(k) => k,
                    None => {
                        proof {
                            assert(false);
                        }
                        0
                    },
                };
                let cam_entity = self.components[ki].entity;
                proof {
                    reveal(crate::scene::comps_wf);
                    let k = find_kind(self.components@, ComponentKind::Camera, 0);
                    assert(ki == k);
                    assert(cam_entity == self.components@[k].entity);
                    assert(0 <= node_index(self.nodes@, self.components@[k].entity)
                        < self.nodes@.len());
                }
                match self.find_index(&cam_entity) {
                    Some(ci) => {
                        let mut t = self.nodes[ci].entity.transform;
                        ctrl.update_camera(&mut t);
                        proof {
                            crate::camera_controller::lemma_camera_step_frame(
                                *old(ctrl),
                                self.nodes@[ci as int].entity.transform,
                            );
                            assert(t.dirty);
                            assert(t.global == self.nodes@[ci as int].entity.transform.global);
                        }
                        self.set_node_transform(ci, t);
                    },
                    None => {
                        proof {
                            assert(false);
                        }
                    },
                }
            },
        }
    }
}

/// The value a component takes after seeing a window event: the camera
/// controller tracks its keys and cursor deltas; every other component
/// ignores events.
pub open spec fn event_value_step(v: ComponentValue, event: WindowEvent) -> ComponentValue {
    match v {
        ComponentValue::CameraController(c) => ComponentValue::CameraController(
            event_step(c, event),
        ),
        _ => v,
    }
}

/// What one dispatch step leaves untouched about a node: its place in
/// the tree, its name, its component list and its cached global
/// transform; only the rest of the transform cache may change.
#[verifier::opaque]
pub open spec fn node_frame_at(
    cur: Seq<crate::scene::SceneNode>,
    o: Seq<crate::scene::SceneNode>,
    j: int,
) -> bool {
    &&& cur[j].id == o[j].id
    &&& cur[j].parent == o[j].parent
    &&& cur[j].entity.name == o[j].entity.name
    &&& cur[j].entity.components == o[j].entity.components
    &&& cur[j].entity.transform.global == o[j].entity.transform.global
}

/// The dispatch frame is transitive across two steps.
pub proof fn lemma_node_frame_trans(
    a: Seq<crate::scene::SceneNode>,
    b: Seq<crate::scene::SceneNode>,
    c: Seq<crate::scene::SceneNode>,
    j: int,
)
    requires
        node_frame_at(b, a, j),
        node_frame_at(c, b, j),
    ensures
        node_frame_at(c, a, j),
{
    reveal(node_frame_at);
}

/// Consistency of the component table does not depend on what the slots
/// hold: two tables with the same identifiers and entities are equally
/// consistent.
pub proof fn lemma_comps_wf_slots_only(
    nodes: Seq<crate::scene::SceneNode>,
    a: Seq<ComponentEntry>,
    b: Seq<ComponentEntry>,
)
    requires
        crate::scene::comps_wf(nodes, a),
        a.len() == b.len(),
        forall|k: int|
            0 <= k < a.len() ==> (#[trigger] a[k].id) == b[k].id && a[k].entity == b[k].entity,
    ensures
        crate::scene::comps_wf(nodes, b),
{
    reveal(crate::scene::comps_wf);
    assert forall|k: int, l: int|
        0 <= k < l < b.len() implies (#[trigger] b[k].id) != (#[trigger] b[l].id) by {
        assert(a[k].id == b[k].id);
        assert(a[l].id == b[l].id);
    }
    assert forall|k: int|
        0 <= k < b.len() implies 0 <= node_index(nodes, (#[trigger] b[k]).entity) < nodes.len()
        && nodes[node_index(nodes, b[k].entity)].entity.components@.contains(b[k].id) by {
        assert(a[k].entity == b[k].entity && a[k].id == b[k].id);
    }
    assert forall|i2: int, j: int|
        0 <= i2 < nodes.len() && 0 <= j < nodes[i2].entity.components@.len() implies {
        let k = crate::scene::comp_index(b, #[trigger] nodes[i2].entity.components@[j]);
        &&& 0 <= k < b.len()
        &&& b[k].entity == nodes[i2].id
    } by {
        let cid = nodes[i2].entity.components@[j];
        crate::scene_mut::lemma_find_comp_same_ids(a, b, cid, 0);
        let k = crate::scene::comp_index(a, cid);
        assert(a[k].entity == b[k].entity);
    }
}

/// What one update-dispatch attempt does to the scene: nothing for an
/// in-use slot; a camera refreshes its cached view from its entity's
/// cached global transform; a camera controller moves the first camera
/// entity by its `camera_step` and zeroes its deltas (the camera search
/// runs while the controller's own slot carries the in-use marker); a
/// collider or model is put back unchanged.
#[verifier::opaque]
pub open spec fn update_step_spec(
    nodes: Seq<SceneNode>,
    comps: Seq<ComponentEntry>,
    k: int,
) -> (Seq<SceneNode>, Seq<ComponentEntry>) {
    let e = comps[k];
    match e.slot {
        ComponentSlot::InUse(_) => (nodes, comps),
        ComponentSlot::Present(v) => match v {
            ComponentValue::Camera(cam) => (
                nodes,
                comps.update(
                    k,
                    ComponentEntry {
                        slot: ComponentSlot::Present(
                            ComponentValue::Camera(
                                crate::camera::camera_refreshed(cam, nodes, e.entity),
                            ),
                        ),
                        ..e
                    },
                ),
            ),
            ComponentValue::CameraController(c) => {
                let marked = comps.update(
                    k,
                    ComponentEntry { slot: ComponentSlot::InUse(kind_of(v)), ..e },
                );
                let kk = find_kind(marked, ComponentKind::Camera, 0);
                if kk == -1 {
                    (
                        nodes,
                        comps.update(
                            k,
                            ComponentEntry {
                                slot: ComponentSlot::Present(
                                    ComponentValue::CameraController(c),
                                ),
                                ..e
                            },
                        ),
                    )
                } else {
                    let i = node_index(nodes, marked[kk].entity);
                    let moved = if 0 <= i < nodes.len() {
                        crate::scene_mut::with_transform(
                            nodes,
                            i,
                            camera_step(c, nodes[i].entity.transform),
                        )
                    } else {
                        nodes
                    };
                    (
                        moved,
                        comps.update(
                            k,
                            ComponentEntry {
                                slot: ComponentSlot::Present(
                                    ComponentValue::CameraController(
                                        CameraController {
                                            delta_yaw: 0i64,
                                            delta_pitch: 0i64,
                                            ..c
                                        },
                                    ),
                                ),
                                ..e
                            },
                        ),
                    )
                }
            },
            _ => (
                nodes,
                comps.update(k, ComponentEntry { slot: ComponentSlot::Present(v), ..e }),
            ),
        },
    }
}


/// The dispatch phase of one frame: the update steps applied to every
/// table entry in registration order, each step reading the state the
/// earlier steps left.
#[verifier::opaque]
pub open spec fn update_fold(
    nodes: Seq<SceneNode>,
    comps: Seq<ComponentEntry>,
    k: int,
) -> (Seq<SceneNode>, Seq<ComponentEntry>)
    decreases k,
{
    if k <= 0 {
        (nodes, comps)
    } else {
        let prev = update_fold(nodes, comps, k - 1);
        update_step_spec(prev.0, prev.1, k - 1)
    }
}

impl Scene {
    /// Try to run one component's event callback: skipped, changing
    /// nothing, when the component is already being dispatched; otherwise
    /// the callback runs with the value taken out of its slot.
    pub fn try_on_event(&mut self, k: usize, event: WindowEvent) -> (r: DispatchResult)
        requires
            old(self).wf(),
            k < old(self).components@.len(),
        ensures
            final(self).wf(),
            final(self).nodes@ == old(self).nodes@,
            final(self).components@.len() == old(self).components@.len(),
            forall|l: int|
                0 <= l < old(self).components@.len() && l != k ==> (#[trigger] final(self).components@[l]) == old(self).components@[l],
            match old(self).components@[k as int].slot {
                ComponentSlot::InUse(_) => r == DispatchResult::SkippedReentrant && final(self).components@ == old(self).components@,
                ComponentSlot::Present(v) => r == DispatchResult::Dispatched && final(self).components@[k as int] == (ComponentEntry {
                    slot: ComponentSlot::Present(event_value_step(v, event)),
                    ..old(self).components@[k as int]
                }),
            },
    {
        let ghost oc = self.components@;
        let e = self.components[k];
        match e.slot {
            ComponentSlot::InUse(_) => {
                proof {
                    assert(self.components@ =~= oc);
                }
                DispatchResult::SkippedReentrant
            },
            ComponentSlot::Present(v) => {
                let kind = kind_of_value(&v);
                self.components[k].slot = ComponentSlot::InUse(kind);
                let v2 = match v {
                    ComponentValue::CameraController(mut c) => {
                        c.process_event(event);
                        ComponentValue::CameraController(c)
                    },
                    other => other,
                };
                self.components[k].slot = ComponentSlot::Present(v2);
                proof {
                    lemma_comps_wf_slots_only(self.nodes@, oc, self.components@);
                }
                DispatchResult::Dispatched
            },
        }
    }

    /// Try to run one component's start callback: skipped, changing
    /// nothing, when the component is already being dispatched.  No
    /// component of the engine does anything at start, so the scene is
    /// unchanged either way.
    pub fn try_on_start(&mut self, k: usize) -> (r: DispatchResult)
        requires
            old(self).wf(),
            k < old(self).components@.len(),
        ensures
            final(self).wf(),
            final(self).nodes@ == old(self).nodes@,
            final(self).components@ == old(self).components@,
            r == (match old(self).components@[k as int].slot {
                ComponentSlot::InUse(_) => DispatchResult::SkippedReentrant,
                ComponentSlot::Present(_) => DispatchResult::Dispatched,
            }),
    {
        let ghost oc = self.components@;
        let e = self.components[k];
        match e.slot {
            ComponentSlot::InUse(_) => {
                proof {
                    assert(self.components@ =~= oc);
                }
                DispatchResult::SkippedReentrant
            },
            ComponentSlot::Present(v) => {
                let kind = kind_of_value(&v);
                self.components[k].slot = ComponentSlot::InUse(kind);
                self.components[k].slot = ComponentSlot::Present(v);
                proof {
                    assert(self.components@ =~= oc);
                }
                DispatchResult::Dispatched
            },
        }
    }

    /// Try to run one component's update callback: skipped, changing
    /// nothing, when the component is already being dispatched.  The
    /// camera recomputes its cached view from its entity's global
    /// transform; the camera controller moves the camera entity by its
    /// `camera_step` and zeroes its deltas; the collider and the model do
    /// nothing.  The exact effect is `update_step_spec`.
    #[verifier::rlimit(50)]
    pub fn try_on_update(&mut self, k: usize, delta_time: i64) -> (r: DispatchResult)
        requires
            old(self).wf(),
            k < old(self).components@.len(),
        ensures
            final(self).wf(),
            final(self).nodes@ == update_step_spec(
                old(self).nodes@,
                old(self).components@,
                k as int,
            ).0,
            final(self).components@ == update_step_spec(
                old(self).nodes@,
                old(self).components@,
                k as int,
            ).1,
            final(self).components@.len() == old(self).components@.len(),
            forall|l: int|
                0 <= l < old(self).components@.len() && l != k ==> (#[trigger] final(self).components@[l]) == old(self).components@[l],
            final(self).components@[k as int].id == old(self).components@[k as int].id,
            final(self).components@[k as int].entity == old(self).components@[k as int].entity,
            final(self).nodes@.len() == old(self).nodes@.len(),
            forall|j: int|
                0 <= j < old(self).nodes@.len() ==> #[trigger] node_frame_at(
                    final(self).nodes@,
                    old(self).nodes@,
                    j,
                ),
            match old(self).components@[k as int].slot {
                ComponentSlot::InUse(_) => r == DispatchResult::SkippedReentrant && final(self).components@ == old(self).components@ && final(self).nodes@ == old(self).nodes@,
                ComponentSlot::Present(v) => r == DispatchResult::Dispatched && (final(self).components@[k as int].slot matches ComponentSlot::Present(v2) && kind_of(v2)
                    == kind_of(v)),
            },
    {
        let ghost oc = self.components@;
        let ghost on = self.nodes@;
        let e = self.components[k];
        match e.slot {
            ComponentSlot::InUse(_) => {
                proof {
                    reveal(update_step_spec);
                    assert(self.components@ =~= oc);
                    assert forall|j: int|
                        0 <= j < on.len() implies #[trigger] node_frame_at(
                        self.nodes@,
                        on,
                        j,
                    ) by {
                        reveal(node_frame_at);
                    }
                }
                DispatchResult::SkippedReentrant
            },
            ComponentSlot::Present(v) => {
                let kind = kind_of_value(&v);
                self.components[k].slot = ComponentSlot::InUse(kind);
                proof {
                    lemma_comps_wf_slots_only(self.nodes@, oc, self.components@);
                    assert(self.components@ =~= oc.update(
                        k as int,
                        ComponentEntry { slot: ComponentSlot::InUse(kind_of(v)), ..e },
                    ));
                }
                let v2 = match v {
                    ComponentValue::Camera(mut cam) => {
                        cam.refresh_from_scene(self, &e.entity);
                        proof {
                            assert forall|j: int|
                                0 <= j < on.len() implies #[trigger] node_frame_at(
                                self.nodes@,
                                on,
                                j,
                            ) by {
                                reveal(node_frame_at);
                            }
                        }
                        ComponentValue::Camera(cam)
                    },
                    ComponentValue::CameraController(mut c) => {
                        self.dispatch_controller_update(&mut c, Ghost(on));
                        ComponentValue::CameraController(c)
                    },
                    other => {
                        proof {
                            assert forall|j: int|
                                0 <= j < on.len() implies #[trigger] node_frame_at(
                                self.nodes@,
                                on,
                                j,
                            ) by {
                                reveal(node_frame_at);
                            }
                        }
                        other
                    },
                };
                let ghost mid_comps = self.components@;
                self.components[k].slot = ComponentSlot::Present(v2);
                proof {
                    lemma_comps_wf_slots_only(self.nodes@, mid_comps, self.components@);
                    reveal(update_step_spec);
                    let s = update_step_spec(on, oc, k as int);
                    assert(self.components@ =~= s.1);
                    assert(self.nodes@ == s.0);
                }
                DispatchResult::Dispatched
            },
        }
    }

    /// Run the camera controller's frame update with the scene, keeping
    /// the dispatch frame for every node.
    fn dispatch_controller_update(&mut self, c: &mut CameraController, base: Ghost<Seq<crate::scene::SceneNode>>)
        requires
            old(self).wf(),
            base@ == old(self).nodes@,
        ensures
            final(self).wf(),
            final(self).components@ == old(self).components@,
            final(self).nodes@.len() == old(self).nodes@.len(),
            forall|j: int|
                0 <= j < base@.len() ==> #[trigger] node_frame_at(
                    final(self).nodes@,
                    base@,
                    j,
                ),
            ({
                let kk = find_kind(old(self).components@, ComponentKind::Camera, 0);
                if kk == -1 {
                    &&& final(self).nodes@ == old(self).nodes@
                    &&& *final(c) == *old(c)
                } else {
                    let i = node_index(old(self).nodes@, old(self).components@[kk].entity);
                    &&& 0 <= i < old(self).nodes@.len()
                    &&& final(self).nodes@ == crate::scene_mut::with_transform(
                        old(self).nodes@,
                        i,
                        camera_step(*old(c), old(self).nodes@[i].entity.transform),
                    )
                    &&& *final(c) == (CameraController {
                        delta_yaw: 0i64,
                        delta_pitch: 0i64,
                        ..*old(c)
                    })
                }
            }),
    {
        let ghost pre = self.nodes@;
        self.drive_camera(c);
        proof {
            let kk = find_kind(old(self).components@, ComponentKind::Camera, 0);
            assert forall|j: int| 0 <= j < pre.len() implies #[trigger] node_frame_at(
                self.nodes@,
                pre,
                j,
            ) by {
                reveal(node_frame_at);
                if kk != -1 {
                    let i = node_index(pre, old(self).components@[kk as int].entity);
                    crate::camera_controller::lemma_camera_step_frame(
                        *old(c),
                        pre[i].entity.transform,
                    );
                    if j != i {
                        assert(self.nodes@[j] == pre[j]);
                    }
                }
            }
        }
    }
}


impl Scene {
    /// Dispatch the start callback to every component present when the
    /// call began, in registration order.  No component of the engine
    /// does anything at start, so the scene is unchanged.
    pub fn on_start(&mut self)
        requires
            old(self).wf(),
        ensures
            final(self).wf(),
            final(self).nodes@ == old(self).nodes@,
            final(self).components@ == old(self).components@,
    {
        let n = self.components.len();
        let mut k: usize = 0;
        while k < n
            invariant
                0 <= k <= n,
                n == self.components@.len(),
                self.wf(),
                self.nodes@ == old(self).nodes@,
                self.components@ == old(self).components@,
            decreases n - k,
        {
            let _ = self.try_on_start(k);
            k += 1;
        }
    }

    /// Dispatch a window event to every component present when the call
    /// began, in registration order: each present slot takes one event
    /// step; slots already being dispatched are skipped unchanged.
    pub fn on_event(&mut self, event: &WindowEvent)
        requires
            old(self).wf(),
        ensures
            final(self).wf(),
            final(self).nodes@ == old(self).nodes@,
            final(self).components@.len() == old(self).components@.len(),
            forall|l: int|
                0 <= l < old(self).components@.len() ==> (#[trigger] final(self).components@[l])
                    == (match old(self).components@[l].slot {
                    ComponentSlot::Present(v) => ComponentEntry {
                        slot: ComponentSlot::Present(event_value_step(v, *event)),
                        ..old(self).components@[l]
                    },
                    ComponentSlot::InUse(_) => old(self).components@[l],
                }),
    {
        let n = self.components.len();
        let mut k: usize = 0;
        while k < n
            invariant
                0 <= k <= n,
                n == self.components@.len(),
                self.wf(),
                self.nodes@ == old(self).nodes@,
                self.components@.len() == old(self).components@.len(),
                forall|l: int|
                    0 <= l < k ==> (#[trigger] self.components@[l]) == (match old(
                        self,
                    ).components@[l].slot {
                        ComponentSlot::Present(v) => ComponentEntry {
                            slot: ComponentSlot::Present(event_value_step(v, *event)),
                            ..old(self).components@[l]
                        },
                        ComponentSlot::InUse(_) => old(self).components@[l],
                    }),
                forall|l: int|
                    k <= l < n ==> (#[trigger] self.components@[l]) == old(self).components@[l],
            decreases n - k,
        {
            let _ = self.try_on_event(k, *event);
            k += 1;
        }
    }

    /// One frame update: propagate transforms, run the collision pass,
    /// propagate again (corrections dirty their subtrees), then dispatch
    /// the update callback to every component present at dispatch time,
    /// in registration order.  The tree shape, the entity names, the
    /// component ownerships and the set of components are untouched;
    /// a slot holding its value keeps holding one.
    pub fn on_update(&mut self, delta_time: i64)
        requires
            old(self).wf(),
        ensures
            final(self).wf(),
            final(self).components@.len() == old(self).components@.len(),
            forall|l: int|
                0 <= l < old(self).components@.len() ==> (#[trigger] final(self).components@[l]).id
                    == old(self).components@[l].id && final(self).components@[l].entity == old(
                    self,
                ).components@[l].entity,
            forall|l: int|
                0 <= l < old(self).components@.len() && (#[trigger] old(
                    self,
                ).components@[l].slot) is Present ==> (final(self).components@[l].slot) is Present,
            final(self).nodes@.len() == old(self).nodes@.len(),
            forall|j: int|
                0 <= j < old(self).nodes@.len() ==> {
                    &&& (#[trigger] final(self).nodes@[j]).id == old(self).nodes@[j].id
                    &&& final(self).nodes@[j].parent == old(self).nodes@[j].parent
                    &&& final(self).nodes@[j].entity.name == old(self).nodes@[j].entity.name
                    &&& final(self).nodes@[j].entity.components == old(
                        self,
                    ).nodes@[j].entity.components
                },
            ({
                let after_first = crate::scene_propagate::propagated(old(self).nodes@);
                let after_collisions = crate::scene_collision::outer_pass(
                    after_first,
                    old(self).components@,
                    0,
                );
                let after_second = crate::scene_propagate::propagated(after_collisions);
                let end = update_fold(
                    after_second,
                    old(self).components@,
                    old(self).components@.len() as int,
                );
                &&& final(self).nodes@ == end.0
                &&& final(self).components@ == end.1
            }),
    {
        self.update_transforms();
        let ghost s1 = self.nodes@;
        self.run_collisions();
        proof {
            assert forall|j: int|
                0 <= j < s1.len() implies {
                &&& (#[trigger] self.nodes@[j]).id == s1[j].id
                &&& self.nodes@[j].parent == s1[j].parent
                &&& self.nodes@[j].entity.name == s1[j].entity.name
                &&& self.nodes@[j].entity.components == s1[j].entity.components
            } by {
                reveal(crate::scene_collision::coll_frame_at);
                assert(crate::scene_collision::coll_frame_at(
                    self.nodes@,
                    s1,
                    old(self).components@,
                    j,
                ));
            }
        }
        self.update_transforms();
        let ghost base_nodes = self.nodes@;
        let ghost base_comps = self.components@;
        proof {
            assert forall|j: int|
                0 <= j < base_nodes.len() implies #[trigger] node_frame_at(
                self.nodes@,
                base_nodes,
                j,
            ) by {
                reveal(node_frame_at);
            }
            reveal(update_fold);
            assert(update_fold(base_nodes, base_comps, 0) == (base_nodes, base_comps));
        }
        let n = self.components.len();
        let mut k: usize = 0;
        while k < n
            invariant
                0 <= k <= n,
                n == self.components@.len(),
                self.wf(),
                base_comps.len() == n,
                self.nodes@.len() == base_nodes.len(),
                self.components@.len() == base_comps.len(),
                (self.nodes@, self.components@) == update_fold(base_nodes, base_comps, k as int),
                forall|l: int|
                    0 <= l < n ==> (#[trigger] self.components@[l]).id == base_comps[l].id
                        && self.components@[l].entity == base_comps[l].entity,
                forall|l: int|
                    0 <= l < n && (#[trigger] base_comps[l].slot) is Present ==> (
                    self.components@[l].slot) is Present,
                forall|j: int|
                    0 <= j < base_nodes.len() ==> #[trigger] node_frame_at(
                        self.nodes@,
                        base_nodes,
                        j,
                    ),
            decreases n - k,
        {
            let ghost pre_nodes = self.nodes@;
            let ghost pre_comps = self.components@;
            let _ = self.try_on_update(k, delta_time);
            proof {
                assert forall|j: int|
                    0 <= j < base_nodes.len() implies #[trigger] node_frame_at(
                    self.nodes@,
                    base_nodes,
                    j,
                ) by {
                    lemma_node_frame_trans(base_nodes, pre_nodes, self.nodes@, j);
                }
                reveal(update_fold);
                assert(update_fold(base_nodes, base_comps, k as int + 1) == update_step_spec(
                    pre_nodes,
                    pre_comps,
                    k as int,
                ));
            }
            k += 1;
        }
        proof {
            assert forall|j: int|
                0 <= j < old(self).nodes@.len() implies {
                &&& (#[trigger] self.nodes@[j]).id == old(self).nodes@[j].id
                &&& self.nodes@[j].parent == old(self).nodes@[j].parent
                &&& self.nodes@[j].entity.name == old(self).nodes@[j].entity.name
                &&& self.nodes@[j].entity.components == old(self).nodes@[j].entity.components
            } by {
                reveal(node_frame_at);
                assert(node_frame_at(self.nodes@, base_nodes, j));
            }
        }
    }
}

/// A successful kind search names an entry whose identifier is its own:
/// looking that identifier up finds the same entry.
pub proof fn lemma_find_kind_id(entries: Seq<ComponentEntry>, kind: ComponentKind, from: int)
    requires
        0 <= from,
        forall|k: int, l: int|
            0 <= k < l < entries.len() ==> (#[trigger] entries[k].id) != (#[trigger] entries[l].id),
    ensures
        find_kind(entries, kind, from) >= 0 ==> {
            let k = find_kind(entries, kind, from);
            &&& from <= k < entries.len()
            &&& crate::scene::comp_index(entries, entries[k].id) == k
        },
    decreases entries.len() - from,
{
    if from < entries.len() {
        lemma_find_kind_id(entries, kind, from + 1);
        let k = find_kind(entries, kind, from);
        if k >= 0 {
            lemma_comp_index_of_member(entries, k);
        }
    }
}

/// With distinct identifiers, looking up the identifier of entry `k`
/// finds exactly `k`.
pub proof fn lemma_comp_index_of_member(entries: Seq<ComponentEntry>, k: int)
    requires
        0 <= k < entries.len(),
        forall|a: int, b: int|
            0 <= a < b < entries.len() ==> (#[trigger] entries[a].id) != (#[trigger] entries[b].id),
    ensures
        crate::scene::comp_index(entries, entries[k].id) == k,
{
    lemma_comp_find_prefix(entries, entries[k].id, 0, k);
}

/// A search that has not yet reached `k` and has met no match continues
/// to find `k`.
proof fn lemma_comp_find_prefix(entries: Seq<ComponentEntry>, id: ComponentId, from: int, k: int)
    requires
        0 <= from <= k < entries.len(),
        entries[k].id == id,
        forall|a: int, b: int|
            0 <= a < b < entries.len() ==> (#[trigger] entries[a].id) != (#[trigger] entries[b].id),
    ensures
        crate::scene::find_comp(entries, id, from) == k,
    decreases k - from,
{
    if from < k {
        lemma_comp_find_prefix(entries, id, from + 1, k);
    }
}

} // verus!
