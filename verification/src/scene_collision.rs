//! The scene's collision-correction pass.
//!
//! Every unordered pair of collider components in which at least one
//! collider is dynamic is tested for overlap against the cached global
//! transforms; pairs of two static colliders are skipped outright.  A
//! found correction is applied as a world-space translation: the whole
//! vector to the single dynamic body, or half to each when both are
//! dynamic.  Corrections only touch local transforms and dirty flags, so
//! every pair in one pass is judged against the same pre-pass positions;
//! the propagation that follows the pass rebuilds the caches.

use vstd::prelude::*;

use crate::collision::{shape_correction_vec, Collider};
use crate::component::{ComponentSlot, ComponentValue};
use crate::entity::et_translate_global;
use crate::fixed::{fx_half, fx_sub, fx_neg, shalf, sneg, ssub};
use crate::ids::EntityId;
use crate::math::Vec3;
use crate::scene::{node_index, ComponentEntry, Scene, SceneNode};
use crate::scene_mut::with_transform;

verus! {

/// One world-space correction applied to an entity: its transform cache
/// takes `et_translate_global`; an entity not in the tree leaves the
/// tree unchanged.
#[verifier::opaque]
pub open spec fn corrected(ns: Seq<SceneNode>, entity: EntityId, v: Vec3) -> Seq<SceneNode> {
    let i = node_index(ns, entity);
    if 0 <= i < ns.len() {
        with_transform(ns, i, et_translate_global(ns[i].entity.transform, v))
    } else {
        ns
    }
}

/// One collider pair resolved against the cached globals: no overlap
/// moves nothing; otherwise the whole correction goes to the single
/// dynamic body, or half to the first and the remaining half, negated,
/// to the second when both are dynamic.
#[verifier::opaque]
pub open spec fn pair_step(
    ns: Seq<SceneNode>,
    ent1: EntityId,
    c1: Collider,
    ent2: EntityId,
    c2: Collider,
) -> Seq<SceneNode> {
    let i1 = node_index(ns, ent1);
    let i2 = node_index(ns, ent2);
    if !(0 <= i1 < ns.len() && 0 <= i2 < ns.len()) {
        ns
    } else {
        let g1 = ns[i1].entity.transform.global;
        let g2 = ns[i2].entity.transform.global;
        match shape_correction_vec(c1.shape, g1, c2.shape, g2) {
            Option::None => ns,
            Option::Some(c) => if c1.dynamic && c2.dynamic {
                let half = Vec3 { x: shalf(c.x), y: shalf(c.y), z: shalf(c.z) };
                let rest = Vec3 {
                    x: ssub(shalf(c.x), c.x),
                    y: ssub(shalf(c.y), c.y),
                    z: ssub(shalf(c.z), c.z),
                };
                corrected(corrected(ns, ent1, half), ent2, rest)
            } else if c1.dynamic {
                corrected(ns, ent1, c)
            } else {
                corrected(ns, ent2, Vec3 { x: sneg(c.x), y: sneg(c.y), z: sneg(c.z) })
            },
        }
    }
}

/// One inner-loop step of the pass: entries `k1 < k2` are resolved when
/// both hold collider values and at least one is dynamic; every other
/// combination, including two static colliders, moves nothing.
#[verifier::opaque]
pub open spec fn pass_step(
    ns: Seq<SceneNode>,
    comps: Seq<ComponentEntry>,
    k1: int,
    k2: int,
) -> Seq<SceneNode> {
    match (comps[k1].slot, comps[k2].slot) {
        (
            ComponentSlot::Present(ComponentValue::Collider(c1)),
            ComponentSlot::Present(ComponentValue::Collider(c2)),
        ) => if c1.dynamic || c2.dynamic {
            pair_step(ns, comps[k1].entity, c1, comps[k2].entity, c2)
        } else {
            ns
        },
        _ => ns,
    }
}

/// The pass's inner loop: partner `k1` with every entry from `k2` on.
#[verifier::opaque]
pub open spec fn inner_pass(
    ns: Seq<SceneNode>,
    comps: Seq<ComponentEntry>,
    k1: int,
    k2: int,
) -> Seq<SceneNode>
    decreases comps.len() - k2,
{
    if k2 < 0 || k2 >= comps.len() {
        ns
    } else {
        inner_pass(pass_step(ns, comps, k1, k2), comps, k1, k2 + 1)
    }
}

/// The whole collision pass: every unordered pair, in table order.
#[verifier::opaque]
pub open spec fn outer_pass(ns: Seq<SceneNode>, comps: Seq<ComponentEntry>, k1: int) -> Seq<
    SceneNode,
>
    decreases comps.len() - k1,
{
    if k1 < 0 || k1 >= comps.len() {
        ns
    } else {
        outer_pass(inner_pass(ns, comps, k1, k1 + 1), comps, k1 + 1)
    }
}

/// An entry that holds no collider value pairs with nothing: the inner
/// loop from it leaves the tree unchanged.
proof fn lemma_inner_pass_noop(
    ns: Seq<SceneNode>,
    comps: Seq<ComponentEntry>,
    k1: int,
    k2: int,
)
    requires
        !(comps[k1].slot matches ComponentSlot::Present(ComponentValue::Collider(_))),
    ensures
        inner_pass(ns, comps, k1, k2) == ns,
    decreases comps.len() - k2,
{
    reveal(inner_pass);
    reveal(pass_step);
    if k2 < 0 || k2 >= comps.len() {
    } else {
        lemma_inner_pass_noop(ns, comps, k1, k2 + 1);
    }
}

/// Whether some component entry attaches a dynamic collider to the
/// entity.
#[verifier::opaque]
pub open spec fn owns_dynamic_collider(entries: Seq<ComponentEntry>, id: EntityId) -> bool {
    exists|k: int|
        {
            &&& 0 <= k < entries.len()
            &&& (#[trigger] entries[k]).entity == id
            &&& match entries[k].slot {
                ComponentSlot::Present(ComponentValue::Collider(c)) => c.dynamic,
                _ => false,
            }
        }
}

/// What the collision pass guarantees for one node: its place in the
/// tree, its components and its cached global transform are untouched, a
/// raised dirty flag stays raised, and an entity that owns no dynamic
/// collider is not moved at all.
#[verifier::opaque]
pub open spec fn coll_frame_at(
    cur: Seq<SceneNode>,
    o: Seq<SceneNode>,
    oc: Seq<ComponentEntry>,
    j: int,
) -> bool {
    &&& cur[j].id == o[j].id
    &&& cur[j].parent == o[j].parent
    &&& cur[j].entity.name == o[j].entity.name
    &&& cur[j].entity.components == o[j].entity.components
    &&& cur[j].entity.transform.global == o[j].entity.transform.global
    &&& (o[j].entity.transform.dirty ==> cur[j].entity.transform.dirty)
    &&& (!owns_dynamic_collider(oc, o[j].id) ==> cur[j].entity.transform
        == o[j].entity.transform)
}

impl Scene {
    /// Apply a world-space correction to an entity that owns a dynamic
    /// collider, keeping the pass's frame guarantees.
    #[verifier::rlimit(60)]
    fn apply_correction(&mut self, entity: EntityId, v: crate::math::Vec3, old_scene: Ghost<Scene>)
        requires
            old(self).wf(),
            old(self).components@ == old_scene@.components@,
            old(self).nodes@.len() == old_scene@.nodes@.len(),
            forall|j: int|
                0 <= j < old_scene@.nodes@.len() ==> #[trigger] coll_frame_at(
                    old(self).nodes@,
                    old_scene@.nodes@,
                    old_scene@.components@,
                    j,
                ),
            owns_dynamic_collider(old_scene@.components@, entity),
        ensures
            final(self).wf(),
            final(self).components@ == old_scene@.components@,
            final(self).nodes@.len() == old_scene@.nodes@.len(),
            forall|j: int|
                0 <= j < old_scene@.nodes@.len() ==> #[trigger] coll_frame_at(
                    final(self).nodes@,
                    old_scene@.nodes@,
                    old_scene@.components@,
                    j,
                ),
            final(self).nodes@ == corrected(old(self).nodes@, entity, v),
    {
        let ghost pre = self.nodes@;
        let moved = self.translate_entity_global(&entity, v);
        proof {
            reveal(corrected);
            crate::scene_mut::lemma_find_node_props(pre, entity, 0);
            assert(self.nodes@.len() == pre.len());
            assert(self.nodes@ == corrected(pre, entity, v));
            assert forall|j: int|
                0 <= j < old_scene@.nodes@.len() implies #[trigger] coll_frame_at(
                self.nodes@,
                old_scene@.nodes@,
                old_scene@.components@,
                j,
            ) by {
                let o = old_scene@.nodes@;
                let oc = old_scene@.components@;
                reveal(coll_frame_at);
                crate::scene_mut::lemma_find_node_props(pre, entity, 0);
                assert(coll_frame_at(pre, o, oc, j));
                if moved && j == node_index(pre, entity) {
                    assert(pre[j].id == entity);
                    assert(owns_dynamic_collider(oc, o[j].id));
                } else {
                    assert(self.nodes@[j] == pre[j]);
                }
            }
        }
    }

    /// One collision pass over every unordered pair of colliders, in
    /// table order: the final tree is exactly the `outer_pass` fold of
    /// the pair corrections.  Pairs of two static colliders are skipped,
    /// and only entities owning a dynamic collider are moved; tree
    /// shape, component table and cached global transforms are
    /// untouched, and dirty flags are only raised.
    pub fn run_collisions(&mut self)
        requires
            old(self).wf(),
        ensures
            final(self).wf(),
            final(self).components@ == old(self).components@,
            final(self).nodes@.len() == old(self).nodes@.len(),
            forall|j: int|
                0 <= j < old(self).nodes@.len() ==> #[trigger] coll_frame_at(
                    final(self).nodes@,
                    old(self).nodes@,
                    old(self).components@,
                    j,
                ),
            final(self).nodes@ == outer_pass(old(self).nodes@, old(self).components@, 0),
    {
        let ghost oc = old(self).components@;
        let ghost total = outer_pass(old(self).nodes@, oc, 0);
        let n = self.components.len();
        proof {
            assert forall|j: int|
                0 <= j < old(self).nodes@.len() implies #[trigger] coll_frame_at(
                self.nodes@,
                old(self).nodes@,
                old(self).components@,
                j,
            ) by {
                reveal(coll_frame_at);
            }
        }
        let mut k1: usize = 0;
        while k1 < n
            invariant
                0 <= k1 <= n,
                n == self.components@.len(),
                self.wf(),
                self.components@ == old(self).components@,
                oc == old(self).components@,
                self.nodes@.len() == old(self).nodes@.len(),
                total == outer_pass(old(self).nodes@, oc, 0),
                outer_pass(self.nodes@, oc, k1 as int) == total,
                forall|j: int|
                    0 <= j < old(self).nodes@.len() ==> #[trigger] coll_frame_at(
                        self.nodes@,
                        old(self).nodes@,
                        old(self).components@,
                        j,
                    ),
            decreases n - k1,
        {
            let e1 = self.components[k1];
            match e1.slot {
                ComponentSlot::Present(ComponentValue::Collider(c1)) => {
                    proof {
                        reveal(outer_pass);
                        assert(outer_pass(self.nodes@, oc, k1 as int) == outer_pass(
                            inner_pass(self.nodes@, oc, k1 as int, k1 as int + 1),
                            oc,
                            k1 as int + 1,
                        ));
                    }
                    let mut k2: usize = k1 + 1;
                    while k2 < n
                        invariant
                            k1 < n,
                            k1 < k2 <= n,
                            n == self.components@.len(),
                            self.wf(),
                            self.components@ == old(self).components@,
                            oc == old(self).components@,
                            self.nodes@.len() == old(self).nodes@.len(),
                            e1 == self.components@[k1 as int],
                            e1.slot == ComponentSlot::Present(ComponentValue::Collider(c1)),
                            total == outer_pass(old(self).nodes@, oc, 0),
                            outer_pass(
                                inner_pass(self.nodes@, oc, k1 as int, k2 as int),
                                oc,
                                k1 as int + 1,
                            ) == total,
                            forall|j: int|
                                0 <= j < old(self).nodes@.len() ==> #[trigger] coll_frame_at(
                                    self.nodes@,
                                    old(self).nodes@,
                                    old(self).components@,
                                    j,
                                ),
                        decreases n - k2,
                    {
                        let ghost pre = self.nodes@;
                        let e2 = self.components[k2];
                        match e2.slot {
                            ComponentSlot::Present(ComponentValue::Collider(c2)) => {
                                if c1.dynamic || c2.dynamic {
                                    proof {
                                        reveal(owns_dynamic_collider);
                                        if c1.dynamic {
                                            assert(self.components@[k1 as int].entity
                                                == e1.entity);
                                            assert(owns_dynamic_collider(
                                                old(self).components@,
                                                e1.entity,
                                            ));
                                        }
                                        if c2.dynamic {
                                            assert(self.components@[k2 as int].entity
                                                == e2.entity);
                                            assert(owns_dynamic_collider(
                                                old(self).components@,
                                                e2.entity,
                                            ));
                                        }
                                    }
                                    self.resolve_pair(e1.entity, c1, e2.entity, c2, Ghost(*old(self)));
                                    proof {
                                        reveal(pass_step);
                                        assert(self.nodes@ == pass_step(
                                            pre,
                                            oc,
                                            k1 as int,
                                            k2 as int,
                                        ));
                                    }
                                } else {
                                    proof {
                                        reveal(pass_step);
                                        assert(self.nodes@ == pass_step(
                                            pre,
                                            oc,
                                            k1 as int,
                                            k2 as int,
                                        ));
                                    }
                                }
                            },
                            _ => {
                                proof {
                                    reveal(pass_step);
                                    assert(self.nodes@ == pass_step(
                                        pre,
                                        oc,
                                        k1 as int,
                                        k2 as int,
                                    ));
                                }
                            },
                        }
                        proof {
                            reveal(inner_pass);
                            assert(inner_pass(pre, oc, k1 as int, k2 as int) == inner_pass(
                                pass_step(pre, oc, k1 as int, k2 as int),
                                oc,
                                k1 as int,
                                k2 as int + 1,
                            ));
                        }
                        k2 += 1;
                    }
                    proof {
                        reveal(inner_pass);
                        assert(inner_pass(self.nodes@, oc, k1 as int, n as int) == self.nodes@);
                    }
                },
                _ => {
                    proof {
                        reveal(outer_pass);
                        lemma_inner_pass_noop(self.nodes@, oc, k1 as int, k1 as int + 1);
                        assert(outer_pass(self.nodes@, oc, k1 as int) == outer_pass(
                            self.nodes@,
                            oc,
                            k1 as int + 1,
                        ));
                    }
                },
            }
            k1 += 1;
        }
        proof {
            reveal(outer_pass);
            assert(outer_pass(self.nodes@, oc, n as int) == self.nodes@);
        }
    }

    /// Test one pair of colliders against the cached global transforms
    /// and apply the correction, split evenly when both are dynamic.
    fn resolve_pair(
        &mut self,
        entity1: EntityId,
        c1: Collider,
        entity2: EntityId,
        c2: Collider,
        old_scene: Ghost<Scene>,
    )
        requires
            old(self).wf(),
            old(self).components@ == old_scene@.components@,
            old(self).nodes@.len() == old_scene@.nodes@.len(),
            forall|j: int|
                0 <= j < old_scene@.nodes@.len() ==> #[trigger] coll_frame_at(
                    old(self).nodes@,
                    old_scene@.nodes@,
                    old_scene@.components@,
                    j,
                ),
            c1.dynamic || c2.dynamic,
            c1.dynamic ==> owns_dynamic_collider(old_scene@.components@, entity1),
            c2.dynamic ==> owns_dynamic_collider(old_scene@.components@, entity2),
        ensures
            final(self).wf(),
            final(self).components@ == old_scene@.components@,
            final(self).nodes@.len() == old_scene@.nodes@.len(),
            forall|j: int|
                0 <= j < old_scene@.nodes@.len() ==> #[trigger] coll_frame_at(
                    final(self).nodes@,
                    old_scene@.nodes@,
                    old_scene@.components@,
                    j,
                ),
            final(self).nodes@ == pair_step(old(self).nodes@, entity1, c1, entity2, c2),
    {
        proof {
            reveal(pair_step);
            crate::scene_mut::lemma_find_node_props(self.nodes@, entity1, 0);
            crate::scene_mut::lemma_find_node_props(self.nodes@, entity2, 0);
        }
        let t1 = match self.get_transform(&entity1) {
            Some(t) => t,
            None => {
                return ;
            },
        };
        let t2 = match self.get_transform(&entity2) {
            Some(t) => t,
            None => {
                return ;
            },
        };
        let g1 = t1.global;
        let g2 = t2.global;
        match Collider::get_correction_vec(&c1, &g1, &c2, &g2) {
            None => {},
            Some(c) => {
                if c1.dynamic && c2.dynamic {
                    let half = crate::math::Vec3 {
                        x: fx_half(c.x),
                        y: fx_half(c.y),
                        z: fx_half(c.z),
                    };
                    let rest = crate::math::Vec3 {
                        x: fx_sub(half.x, c.x),
                        y: fx_sub(half.y, c.y),
                        z: fx_sub(half.z, c.z),
                    };
                    self.apply_correction(entity1, half, old_scene);
                    self.apply_correction(entity2, rest, old_scene);
                } else if c1.dynamic {
                    self.apply_correction(entity1, c, old_scene);
                } else {
                    let neg = crate::math::Vec3 {
                        x: fx_neg(c.x),
                        y: fx_neg(c.y),
                        z: fx_neg(c.z),
                    };
                    self.apply_correction(entity2, neg, old_scene);
                }
            },
        }
    }
}

} // verus!
