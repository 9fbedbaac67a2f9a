//! Scene mutation: adding entities and components, and moving entities.
//!
//! Insertion is append-only: entities and components are never removed,
//! so the insertion order stays a topological order of the tree.  The
//! transform operations all raise the dirty flag of the touched entity,
//! keeping the cache consistency invariant.

use vstd::prelude::*;

use crate::component::{ComponentSlot, ComponentValue};
use crate::entity::{
    et_move_global, et_move_local, et_rotate_euler_global, et_rotate_euler_local,
    et_translate_global, et_translate_local, Entity, EntityTransform,
};
use crate::ids::{ComponentId, EntityId};
use crate::math::Vec3;
use crate::scene::{
    comp_index, find_comp, find_node, node_index, parent_id, parent_index, ComponentEntry, Error,
    Scene, SceneNode,
};
use crate::transform::t_identity;

verus! {

/// Finding an identifier does not depend on anything but the identifiers:
/// two node sequences with equal identifiers agree on every search.
pub proof fn lemma_find_node_same_ids(a: Seq<SceneNode>, b: Seq<SceneNode>, id: EntityId, from: int)
    requires
        a.len() == b.len(),
        forall|i: int| 0 <= i < a.len() ==> (#[trigger] a[i].id) == b[i].id,
    ensures
        find_node(a, id, from) == find_node(b, id, from),
    decreases a.len() - from,
{
    if from < 0 || from >= a.len() {
    } else {
        lemma_find_node_same_ids(a, b, id, from + 1);
    }
}

/// Searching a sequence extended by one node finds everything the old
/// sequence found; a fresh identifier is found only at the new end.
pub proof fn lemma_find_node_push(nodes: Seq<SceneNode>, x: SceneNode, id: EntityId, from: int)
    requires
        0 <= from,
    ensures
        find_node(nodes.push(x), id, from) == if find_node(nodes, id, from) >= 0 {
            find_node(nodes, id, from)
        } else if from <= nodes.len() && x.id == id {
            nodes.len() as int
        } else {
            -1
        },
    decreases nodes.len() + 1 - from,
{
    if from >= nodes.len() + 1 {
        assert(find_node(nodes.push(x), id, from) == -1);
        assert(find_node(nodes, id, from) == -1);
    } else if from == nodes.len() {
        assert(find_node(nodes, id, from) == -1);
        if x.id == id {
            assert(find_node(nodes.push(x), id, from) == from);
        } else {
            assert(find_node(nodes.push(x), id, from) == find_node(nodes.push(x), id, from + 1));
            assert(find_node(nodes.push(x), id, from + 1) == -1);
        }
    } else {
        lemma_find_node_push(nodes, x, id, from + 1);
    }
}

/// Searching an entry sequence extended by one entry finds everything the
/// old sequence found; a fresh identifier is found only at the new end.
pub proof fn lemma_find_comp_push(
    entries: Seq<ComponentEntry>,
    x: ComponentEntry,
    id: ComponentId,
    from: int,
)
    requires
        0 <= from,
    ensures
        find_comp(entries.push(x), id, from) == if find_comp(entries, id, from) >= 0 {
            find_comp(entries, id, from)
        } else if from <= entries.len() && x.id == id {
            entries.len() as int
        } else {
            -1
        },
    decreases entries.len() + 1 - from,
{
    if from >= entries.len() + 1 {
        assert(find_comp(entries.push(x), id, from) == -1);
        assert(find_comp(entries, id, from) == -1);
    } else if from == entries.len() {
        assert(find_comp(entries, id, from) == -1);
        if x.id == id {
            assert(find_comp(entries.push(x), id, from) == from);
        } else {
            assert(find_comp(entries.push(x), id, from) == find_comp(entries.push(x), id, from + 1));
            assert(find_comp(entries.push(x), id, from + 1) == -1);
        }
    } else {
        lemma_find_comp_push(entries, x, id, from + 1);
    }
}

/// Finding a component entry does not depend on anything but the
/// identifiers.
pub proof fn lemma_find_comp_same_ids(
    a: Seq<ComponentEntry>,
    b: Seq<ComponentEntry>,
    id: ComponentId,
    from: int,
)
    requires
        a.len() == b.len(),
        forall|i: int| 0 <= i < a.len() ==> (#[trigger] a[i].id) == b[i].id,
    ensures
        find_comp(a, id, from) == find_comp(b, id, from),
    decreases a.len() - from,
{
    if from < 0 || from >= a.len() {
    } else {
        lemma_find_comp_same_ids(a, b, id, from + 1);
    }
}

/// What the result of a node search means: a failed search rules the
/// identifier out everywhere at or after `from`; a successful one names a
/// position holding it.
pub proof fn lemma_find_node_props(nodes: Seq<SceneNode>, id: EntityId, from: int)
    requires
        0 <= from,
    ensures
        find_node(nodes, id, from) == -1 ==> forall|i: int|
            from <= i < nodes.len() ==> (#[trigger] nodes[i].id) != id,
        find_node(nodes, id, from) >= 0 ==> from <= find_node(nodes, id, from) < nodes.len()
            && nodes[find_node(nodes, id, from)].id == id,
    decreases nodes.len() - from,
{
    if from < nodes.len() {
        lemma_find_node_props(nodes, id, from + 1);
    }
}

/// What the result of an entry search means: a failed search rules the
/// identifier out everywhere at or after `from`; a successful one names a
/// position holding it.
pub proof fn lemma_find_comp_props(entries: Seq<ComponentEntry>, id: ComponentId, from: int)
    requires
        0 <= from,
    ensures
        find_comp(entries, id, from) == -1 ==> forall|i: int|
            from <= i < entries.len() ==> (#[trigger] entries[i].id) != id,
        find_comp(entries, id, from) >= 0 ==> from <= find_comp(entries, id, from) < entries.len()
            && entries[find_comp(entries, id, from)].id == id,
    decreases entries.len() - from,
{
    if from < entries.len() {
        lemma_find_comp_props(entries, id, from + 1);
    }
}

/// The node sequence after replacing one node's transform cache.
pub open spec fn with_transform(
    nodes: Seq<SceneNode>,
    i: int,
    t: EntityTransform,
) -> Seq<SceneNode> {
    nodes.update(
        i,
        SceneNode {
            id: nodes[i].id,
            parent: nodes[i].parent,
            entity: Entity {
                name: nodes[i].entity.name,
                components: nodes[i].entity.components,
                transform: t,
            },
        },
    )
}

impl Scene {
    /// Replace one entity's transform cache with a dirtied value.  The
    /// cached global transform must be kept so that the consistency
    /// invariant of the node's children still refers to the same value.
    pub(crate) fn set_node_transform(&mut self, i: usize, t: EntityTransform)
        requires
            old(self).wf(),
            i < old(self).nodes@.len(),
            t.dirty,
            t.global == old(self).nodes@[i as int].entity.transform.global,
        ensures
            final(self).wf(),
            final(self).nodes@ == with_transform(old(self).nodes@, i as int, t),
            final(self).components@ == old(self).components@,
    {
        proof {
            lemma_find_node_same_ids(
                self.nodes@,
                with_transform(self.nodes@, i as int, t),
                parent_id(self.nodes@[i as int]),
                0,
            );
        }
        self.nodes[i].entity.transform = t;
        proof {
            reveal(crate::scene::tree_wf);
            reveal(crate::scene::clean_consistent);
            reveal(crate::scene::comps_wf);
            let nodes = self.nodes@;
            let o = old(self).nodes@;
            assert forall|j: int|
                1 <= j < nodes.len() implies 0 <= #[trigger] parent_index(nodes, j) < j by {
                lemma_find_node_same_ids(o, nodes, parent_id(nodes[j]), 0);
                assert(parent_id(nodes[j]) == parent_id(o[j]));
                assert(parent_index(o, j) == parent_index(nodes, j));
            }
            assert(crate::scene::tree_wf(nodes));
            assert forall|j: int|
                0 <= j < nodes.len() && !(#[trigger] nodes[j].entity.transform).dirty implies (
            if j == 0 {
                nodes[j].entity.transform.global == nodes[j].entity.transform.local
            } else {
                nodes[j].entity.transform.global == crate::transform::t_compose(
                    nodes[parent_index(nodes, j)].entity.transform.global,
                    nodes[j].entity.transform.local,
                )
            }) by {
                assert(j != i as int);
                assert(nodes[j] == o[j]);
                if j > 0 {
                    lemma_find_node_same_ids(o, nodes, parent_id(nodes[j]), 0);
                    assert(parent_id(nodes[j]) == parent_id(o[j]));
                    assert(parent_index(nodes, j) == parent_index(o, j));
                    assert(nodes[parent_index(nodes, j)].entity.transform.global == o[parent_index(
                        o,
                        j,
                    )].entity.transform.global);
                }
            }
            assert forall|k: int|
                0 <= k < self.components@.len() implies 0 <= node_index(
                nodes,
                (#[trigger] self.components@[k]).entity,
            ) < nodes.len() && nodes[node_index(
                nodes,
                self.components@[k].entity,
            )].entity.components@.contains(self.components@[k].id) by {
                lemma_find_node_same_ids(o, nodes, self.components@[k].entity, 0);
                assert(node_index(nodes, self.components@[k].entity) == node_index(
                    o,
                    self.components@[k].entity,
                ));
            }
            assert forall|i2: int, j: int|
                0 <= i2 < nodes.len() && 0 <= j < nodes[i2].entity.components@.len() implies {
                let k = comp_index(self.components@, #[trigger] nodes[i2].entity.components@[j]);
                &&& 0 <= k < self.components@.len()
                &&& self.components@[k].entity == nodes[i2].id
            } by {
                assert(nodes[i2].entity.components@[j] == o[i2].entity.components@[j]);
            }
            assert forall|i2: int, j1: int, j2: int|
                0 <= i2 < nodes.len() && 0 <= j1 < j2 < nodes[i2].entity.components@.len() implies
                (#[trigger] nodes[i2].entity.components@[j1])
                    != (#[trigger] nodes[i2].entity.components@[j2]) by {
                assert(nodes[i2].entity.components@[j1] == o[i2].entity.components@[j1]);
                assert(nodes[i2].entity.components@[j2] == o[i2].entity.components@[j2]);
            }
            assert(crate::scene::comps_wf(nodes, self.components@));
        }
    }

    /// Translate the entity along its own axes; false when the entity is
    /// not in the scene, and then nothing changes.
    pub fn translate_entity_local(&mut self, entity: &EntityId, v: Vec3) -> (r: bool)
        requires
            old(self).wf(),
        ensures
            final(self).wf(),
            final(self).components@ == old(self).components@,
            r == (node_index(old(self).nodes@, *entity) >= 0),
            r ==> final(self).nodes@ == with_transform(
                old(self).nodes@,
                node_index(old(self).nodes@, *entity),
                et_translate_local(
                    old(self).nodes@[node_index(old(self).nodes@, *entity)].entity.transform,
                    v,
                ),
            ),
            !r ==> final(self).nodes@ == old(self).nodes@,
    {
        match self.find_index(entity) {
            Some(i) => {
                let mut t = self.nodes[i].entity.transform;
                t.translate_local(v);
                self.set_node_transform(i, t);
                true
            },
            None => false,
        }
    }

    /// Translate the entity along the world axes; false when the entity
    /// is not in the scene, and then nothing changes.
    pub fn translate_entity_global(&mut self, entity: &EntityId, v: Vec3) -> (r: bool)
        requires
            old(self).wf(),
        ensures
            final(self).wf(),
            final(self).components@ == old(self).components@,
            r == (node_index(old(self).nodes@, *entity) >= 0),
            r ==> final(self).nodes@ == with_transform(
                old(self).nodes@,
                node_index(old(self).nodes@, *entity),
                et_translate_global(
                    old(self).nodes@[node_index(old(self).nodes@, *entity)].entity.transform,
                    v,
                ),
            ),
            !r ==> final(self).nodes@ == old(self).nodes@,
    {
        match self.find_index(entity) {
            Some(i) => {
                let mut t = self.nodes[i].entity.transform;
                t.translate_global(v);
                self.set_node_transform(i, t);
                true
            },
            None => false,
        }
    }

    /// Move the entity's local position along the parent's axes; false
    /// when the entity is not in the scene, and then nothing changes.
    pub fn move_entity_global(&mut self, entity: &EntityId, v: Vec3) -> (r: bool)
        requires
            old(self).wf(),
        ensures
            final(self).wf(),
            final(self).components@ == old(self).components@,
            r == (node_index(old(self).nodes@, *entity) >= 0),
            r ==> final(self).nodes@ == with_transform(
                old(self).nodes@,
                node_index(old(self).nodes@, *entity),
                et_move_global(
                    old(self).nodes@[node_index(old(self).nodes@, *entity)].entity.transform,
                    v,
                ),
            ),
            !r ==> final(self).nodes@ == old(self).nodes@,
    {
        match self.find_index(entity) {
            Some(i) => {
                let mut t = self.nodes[i].entity.transform;
                t.move_global(v);
                self.set_node_transform(i, t);
                true
            },
            None => false,
        }
    }

    /// Move the entity's local position along its own axes; false when
    /// the entity is not in the scene, and then nothing changes.
    pub fn move_entity_local(&mut self, entity: &EntityId, v: Vec3) -> (r: bool)
        requires
            old(self).wf(),
        ensures
            final(self).wf(),
            final(self).components@ == old(self).components@,
            r == (node_index(old(self).nodes@, *entity) >= 0),
            r ==> final(self).nodes@ == with_transform(
                old(self).nodes@,
                node_index(old(self).nodes@, *entity),
                et_move_local(
                    old(self).nodes@[node_index(old(self).nodes@, *entity)].entity.transform,
                    v,
                ),
            ),
            !r ==> final(self).nodes@ == old(self).nodes@,
    {
        match self.find_index(entity) {
            Some(i) => {
                let mut t = self.nodes[i].entity.transform;
                t.move_local(v);
                self.set_node_transform(i, t);
                true
            },
            None => false,
        }
    }

    /// Rotate the entity's local transform on its right by Euler angles;
    /// false when the entity is not in the scene, and then nothing
    /// changes.
    pub fn rotate_entity_euler_local(&mut self, entity: &EntityId, e: Vec3) -> (r: bool)
        requires
            old(self).wf(),
        ensures
            final(self).wf(),
            final(self).components@ == old(self).components@,
            r == (node_index(old(self).nodes@, *entity) >= 0),
            r ==> final(self).nodes@ == with_transform(
                old(self).nodes@,
                node_index(old(self).nodes@, *entity),
                et_rotate_euler_local(
                    old(self).nodes@[node_index(old(self).nodes@, *entity)].entity.transform,
                    e,
                ),
            ),
            !r ==> final(self).nodes@ == old(self).nodes@,
    {
        match self.find_index(entity) {
            Some(i) => {
                let mut t = self.nodes[i].entity.transform;
                t.rotate_euler_local(e);
                self.set_node_transform(i, t);
                true
            },
            None => false,
        }
    }

    /// Rotate the entity's local transform on its left by Euler angles;
    /// false when the entity is not in the scene, and then nothing
    /// changes.
    pub fn rotate_entity_euler_global(&mut self, entity: &EntityId, e: Vec3) -> (r: bool)
        requires
            old(self).wf(),
        ensures
            final(self).wf(),
            final(self).components@ == old(self).components@,
            r == (node_index(old(self).nodes@, *entity) >= 0),
            r ==> final(self).nodes@ == with_transform(
                old(self).nodes@,
                node_index(old(self).nodes@, *entity),
                et_rotate_euler_global(
                    old(self).nodes@[node_index(old(self).nodes@, *entity)].entity.transform,
                    e,
                ),
            ),
            !r ==> final(self).nodes@ == old(self).nodes@,
    {
        match self.find_index(entity) {
            Some(i) => {
                let mut t = self.nodes[i].entity.transform;
                t.rotate_euler_global(e);
                self.set_node_transform(i, t);
                true
            },
            None => false,
        }
    }

    /// Insert a new leaf entity with the given identifier under `parent`.
    /// Fails with `EntityNotFound`, changing nothing, exactly when the
    /// parent is not in the scene; fails with `IdCollision`, changing
    /// nothing, when the identifier is already taken.  The fresh entity
    /// starts dirty, so the next propagation computes its global
    /// transform.
    pub fn add_entity_with_id(&mut self, parent: EntityId, id: EntityId, name: String) -> (r:
        Result<EntityId, Error>)
        requires
            old(self).wf(),
        ensures
            final(self).wf(),
            (r is Ok) == (node_index(old(self).nodes@, parent) >= 0 && node_index(
                old(self).nodes@,
                id,
            ) == -1),
            match r {
                Ok(rid) => {
                    &&& rid == id
                    &&& final(self).components@ == old(self).components@
                    &&& final(self).nodes@.len() == old(self).nodes@.len() + 1
                    &&& forall|j: int|
                        0 <= j < old(self).nodes@.len() ==> final(self).nodes@[j] == old(
                            self,
                        ).nodes@[j]
                    &&& final(self).nodes@.last().id == id
                    &&& final(self).nodes@.last().parent == Some(parent)
                    &&& final(self).nodes@.last().entity.name == name
                    &&& final(self).nodes@.last().entity.components@ == Seq::<
                        ComponentId,
                    >::empty()
                    &&& final(self).nodes@.last().entity.transform == (EntityTransform {
                        local: t_identity(),
                        dirty: true,
                        global: t_identity(),
                    })
                },
                Err(e) => {
                    &&& final(self).nodes@ == old(self).nodes@
                    &&& final(self).components@ == old(self).components@
                    &&& (e == Error::EntityNotFound) == (node_index(old(self).nodes@, parent)
                        == -1)
                },
            },
    {
        match self.find_index(&parent) {
            None => Err(Error::EntityNotFound),
            Some(_) => {
                match self.find_index(&id) {
                    Some(_) => Err(Error::IdCollision),
                    None => {
                        let mut e = Entity::new(name);
                        e.transform.dirty = true;
                        let node = SceneNode { id, parent: Some(parent), entity: e };
                        proof {
                            lemma_find_node_props(old(self).nodes@, id, 0);
                        }
                        self.nodes.push(node);
                        proof {
                            self.lemma_wf_after_push_node(*old(self), node, parent);
                        }
                        Ok(id)
                    },
                }
            },
        }
    }

    /// The pushed node keeps the scene well-formed, given that its parent
    /// is present and its identifier fresh.
    proof fn lemma_wf_after_push_node(self, o: Scene, node: SceneNode, parent: EntityId)
        requires
            o.wf(),
            self.nodes@ == o.nodes@.push(node),
            self.components@ == o.components@,
            node.parent == Some(parent),
            0 <= node_index(o.nodes@, parent) < o.nodes@.len(),
            node_index(o.nodes@, node.id) == -1,
            node.entity.transform.dirty,
            node.entity.components@ == Seq::<ComponentId>::empty(),
        ensures
            self.wf(),
    {
        reveal(crate::scene::tree_wf);
        reveal(crate::scene::clean_consistent);
        reveal(crate::scene::comps_wf);
        let on = o.nodes@;
        let nodes = self.nodes@;
        let len = on.len() as int;
        lemma_find_node_props(on, node.id, 0);
        assert forall|j: int|
            1 <= j < nodes.len() implies 0 <= #[trigger] parent_index(nodes, j) < j by {
            if j < len {
                assert(parent_id(nodes[j]) == parent_id(on[j]));
                lemma_find_node_push(on, node, parent_id(on[j]), 0);
                assert(parent_index(nodes, j) == parent_index(on, j));
            } else {
                assert(parent_id(nodes[j]) == parent);
                lemma_find_node_push(on, node, parent, 0);
                assert(parent_index(nodes, j) == node_index(on, parent));
            }
        }
        assert(crate::scene::tree_wf(nodes));
        assert forall|j: int|
            0 <= j < nodes.len() && !(#[trigger] nodes[j].entity.transform).dirty implies (if j
            == 0 {
            nodes[j].entity.transform.global == nodes[j].entity.transform.local
        } else {
            nodes[j].entity.transform.global == crate::transform::t_compose(
                nodes[parent_index(nodes, j)].entity.transform.global,
                nodes[j].entity.transform.local,
            )
        }) by {
            assert(j < len);
            if j > 0 {
                assert(parent_id(nodes[j]) == parent_id(on[j]));
                lemma_find_node_push(on, node, parent_id(on[j]), 0);
                assert(parent_index(nodes, j) == parent_index(on, j));
                assert(nodes[parent_index(nodes, j)] == on[parent_index(on, j)]);
            }
        }
        assert forall|k: int|
            0 <= k < self.components@.len() implies 0 <= node_index(
            nodes,
            (#[trigger] self.components@[k]).entity,
        ) < nodes.len() && nodes[node_index(
            nodes,
            self.components@[k].entity,
        )].entity.components@.contains(self.components@[k].id) by {
            lemma_find_node_push(on, node, self.components@[k].entity, 0);
            assert(node_index(nodes, self.components@[k].entity) == node_index(
                on,
                self.components@[k].entity,
            ));
            assert(nodes[node_index(on, self.components@[k].entity)] == on[node_index(
                on,
                self.components@[k].entity,
            )]);
        }
        assert forall|i2: int, j: int|
            0 <= i2 < nodes.len() && 0 <= j < nodes[i2].entity.components@.len() implies {
            let k = comp_index(self.components@, #[trigger] nodes[i2].entity.components@[j]);
            &&& 0 <= k < self.components@.len()
            &&& self.components@[k].entity == nodes[i2].id
        } by {
            assert(i2 < len);
            assert(nodes[i2].entity.components@[j] == on[i2].entity.components@[j]);
        }
        assert forall|i2: int, j1: int, j2: int|
            0 <= i2 < nodes.len() && 0 <= j1 < j2 < nodes[i2].entity.components@.len() implies
            (#[trigger] nodes[i2].entity.components@[j1])
                != (#[trigger] nodes[i2].entity.components@[j2]) by {
            assert(i2 < len);
            assert(nodes[i2].entity.components@[j1] == on[i2].entity.components@[j1]);
            assert(nodes[i2].entity.components@[j2] == on[i2].entity.components@[j2]);
        }
        assert(crate::scene::comps_wf(nodes, self.components@));
    }

    /// Insert a new leaf entity under `parent` with a freshly drawn
    /// identifier.  Fails with `EntityNotFound`, changing nothing,
    /// exactly when the parent is not in the scene; the freshly drawn
    /// identifier can collide with an existing one, and then the scene
    /// reports `IdCollision` and changes nothing rather than corrupting
    /// the tree.
    pub fn add_entity(&mut self, parent: EntityId, name: String) -> (r: Result<EntityId, Error>)
        requires
            old(self).wf(),
        ensures
            final(self).wf(),
            match r {
                Ok(rid) => {
                    &&& node_index(old(self).nodes@, parent) >= 0
                    &&& node_index(old(self).nodes@, rid) == -1
                    &&& final(self).components@ == old(self).components@
                    &&& final(self).nodes@.len() == old(self).nodes@.len() + 1
                    &&& forall|j: int|
                        0 <= j < old(self).nodes@.len() ==> final(self).nodes@[j] == old(
                            self,
                        ).nodes@[j]
                    &&& final(self).nodes@.last().id == rid
                    &&& final(self).nodes@.last().parent == Some(parent)
                    &&& final(self).nodes@.last().entity.name == name
                    &&& final(self).nodes@.last().entity.components@ == Seq::<
                        ComponentId,
                    >::empty()
                    &&& final(self).nodes@.last().entity.transform == (EntityTransform {
                        local: t_identity(),
                        dirty: true,
                        global: t_identity(),
                    })
                },
                Err(e) => {
                    &&& final(self).nodes@ == old(self).nodes@
                    &&& final(self).components@ == old(self).components@
                    &&& (e == Error::EntityNotFound) == (node_index(old(self).nodes@, parent)
                        == -1)
                },
            },
    {
        let id = EntityId::new();
        self.add_entity_with_id(parent, id, name)
    }

    /// Attach a component with the given identifier to an entity.  Fails
    /// with `EntityNotFound`, changing nothing, exactly when the entity
    /// is not in the scene; fails with `IdCollision`, changing nothing,
    /// when the identifier is already taken.
    pub fn add_component_with_id(
        &mut self,
        entity: EntityId,
        id: ComponentId,
        component: ComponentValue,
    ) -> (r: Result<(), Error>)
        requires
            old(self).wf(),
        ensures
            final(self).wf(),
            (r is Ok) == (node_index(old(self).nodes@, entity) >= 0 && comp_index(
                old(self).components@,
                id,
            ) == -1),
            match r {
                Ok(_) => {
                    &&& final(self).components@ == old(self).components@.push(
                        ComponentEntry { id, entity, slot: ComponentSlot::Present(component) },
                    )
                    &&& final(self).nodes@.len() == old(self).nodes@.len()
                    &&& forall|j: int|
                        0 <= j < old(self).nodes@.len() && j != node_index(old(self).nodes@, entity)
                            ==> final(self).nodes@[j] == old(self).nodes@[j]
                    &&& {
                        let i = node_index(old(self).nodes@, entity);
                        &&& final(self).nodes@[i].id == old(self).nodes@[i].id
                        &&& final(self).nodes@[i].parent == old(self).nodes@[i].parent
                        &&& final(self).nodes@[i].entity.name == old(self).nodes@[i].entity.name
                        &&& final(self).nodes@[i].entity.transform == old(
                            self,
                        ).nodes@[i].entity.transform
                        &&& final(self).nodes@[i].entity.components@ == old(
                            self,
                        ).nodes@[i].entity.components@.push(id)
                    }
                },
                Err(e) => {
                    &&& final(self).nodes@ == old(self).nodes@
                    &&& final(self).components@ == old(self).components@
                    &&& (e == Error::EntityNotFound) == (node_index(old(self).nodes@, entity)
                        == -1)
                },
            },
    {
        match self.find_index(&entity) {
            None => Err(Error::EntityNotFound),
            Some(i) => {
                match self.find_comp_index(&id) {
                    Some(_) => Err(Error::IdCollision),
                    None => {
                        proof {
                            lemma_find_comp_props(old(self).components@, id, 0);
                        }
                        self.components.push(
                            ComponentEntry { id, entity, slot: ComponentSlot::Present(component) },
                        );
                        self.nodes[i].entity.components.push(id);
                        proof {
                            self.lemma_wf_after_push_component(*old(self), entity, id, component);
                        }
                        Ok(())
                    },
                }
            },
        }
    }

    /// The pushed component entry keeps the scene well-formed, given that
    /// its entity is present and its identifier fresh.
    proof fn lemma_wf_after_push_component(
        self,
        o: Scene,
        entity: EntityId,
        id: ComponentId,
        component: ComponentValue,
    )
        requires
            o.wf(),
            0 <= node_index(o.nodes@, entity) < o.nodes@.len(),
            comp_index(o.components@, id) == -1,
            self.components@ == o.components@.push(
                ComponentEntry { id, entity, slot: ComponentSlot::Present(component) },
            ),
            self.nodes@.len() == o.nodes@.len(),
            forall|j: int|
                0 <= j < o.nodes@.len() && j != node_index(o.nodes@, entity)
                    ==> self.nodes@[j] == o.nodes@[j],
            ({
                let i = node_index(o.nodes@, entity);
                &&& self.nodes@[i].id == o.nodes@[i].id
                &&& self.nodes@[i].parent == o.nodes@[i].parent
                &&& self.nodes@[i].entity.name == o.nodes@[i].entity.name
                &&& self.nodes@[i].entity.transform == o.nodes@[i].entity.transform
                &&& self.nodes@[i].entity.components@ == o.nodes@[i].entity.components@.push(id)
            }),
        ensures
            self.wf(),
    {
        reveal(crate::scene::tree_wf);
        reveal(crate::scene::clean_consistent);
        reveal(crate::scene::comps_wf);
        let on = o.nodes@;
        let oc = o.components@;
        let nodes = self.nodes@;
        let entries = self.components@;
        let i = node_index(on, entity);
        lemma_find_comp_props(oc, id, 0);
        lemma_find_node_props(on, entity, 0);
        assert forall|j: int| 0 <= j < nodes.len() implies (#[trigger] nodes[j].id) == on[j].id
            && nodes[j].parent == on[j].parent by {}
        assert forall|xid: EntityId, from: int| 0 <= from implies find_node(nodes, xid, from)
            == find_node(on, xid, from) by {
            lemma_find_node_same_ids(on, nodes, xid, from);
        }
        assert forall|j: int|
            1 <= j < nodes.len() implies 0 <= #[trigger] parent_index(nodes, j) < j by {
            assert(parent_id(nodes[j]) == parent_id(on[j]));
            assert(parent_index(nodes, j) == parent_index(on, j));
        }
        assert(crate::scene::tree_wf(nodes));
        assert forall|j: int|
            0 <= j < nodes.len() && !(#[trigger] nodes[j].entity.transform).dirty implies (if j
            == 0 {
            nodes[j].entity.transform.global == nodes[j].entity.transform.local
        } else {
            nodes[j].entity.transform.global == crate::transform::t_compose(
                nodes[parent_index(nodes, j)].entity.transform.global,
                nodes[j].entity.transform.local,
            )
        }) by {
            assert(nodes[j].entity.transform == on[j].entity.transform);
            if j > 0 {
                assert(parent_index(nodes, j) == parent_index(on, j));
                assert(nodes[parent_index(nodes, j)].entity.transform == on[parent_index(
                    on,
                    j,
                )].entity.transform);
            }
        }
        // Distinct component identifiers.
        assert forall|k: int, l: int|
            0 <= k < l < entries.len() implies (#[trigger] entries[k].id)
                != (#[trigger] entries[l].id) by {
            if l == oc.len() as int {
                assert(entries[l].id == id);
                assert(oc[k].id != id);
            }
        }
        // Entries point at present entities that list them.
        assert forall|k: int|
            0 <= k < entries.len() implies 0 <= node_index(
            nodes,
            (#[trigger] entries[k]).entity,
        ) < nodes.len() && nodes[node_index(nodes, entries[k].entity)].entity.components@.contains(
            entries[k].id,
        ) by {
            if k < oc.len() as int {
                assert(entries[k] == oc[k]);
                let ni = node_index(on, oc[k].entity);
                assert(node_index(nodes, entries[k].entity) == ni);
                let lst = on[ni].entity.components@;
                let widx = choose|w: int| 0 <= w < lst.len() && lst[w] == oc[k].id;
                if ni == i {
                    assert(nodes[ni].entity.components@[widx] == lst[widx]);
                    assert(nodes[ni].entity.components@.contains(oc[k].id));
                } else {
                    assert(nodes[ni] == on[ni]);
                }
            } else {
                assert(entries[k].entity == entity);
                assert(node_index(nodes, entity) == i);
                let nl = nodes[i].entity.components@;
                assert(nl.last() == id);
                assert(nl.contains(id));
            }
        }
        // Listed components point back at entries of their own entity.
        assert forall|i2: int, j: int|
            0 <= i2 < nodes.len() && 0 <= j < nodes[i2].entity.components@.len() implies {
            let k = comp_index(entries, #[trigger] nodes[i2].entity.components@[j]);
            &&& 0 <= k < entries.len()
            &&& entries[k].entity == nodes[i2].id
        } by {
            let cid = nodes[i2].entity.components@[j];
            if i2 == i && j == on[i2].entity.components@.len() as int {
                assert(cid == id);
                lemma_find_comp_push(
                    oc,
                    ComponentEntry { id, entity, slot: ComponentSlot::Present(component) },
                    id,
                    0,
                );
                assert(comp_index(entries, id) == oc.len() as int);
            } else {
                assert(cid == on[i2].entity.components@[j]);
                let ko = comp_index(oc, cid);
                assert(0 <= ko < oc.len() && oc[ko].entity == on[i2].id);
                lemma_find_comp_push(
                    oc,
                    ComponentEntry { id, entity, slot: ComponentSlot::Present(component) },
                    cid,
                    0,
                );
                assert(comp_index(entries, cid) == ko);
                assert(entries[ko] == oc[ko]);
            }
        }
        // Per-entity lists stay free of repeats.
        assert forall|i2: int, j1: int, j2: int|
            0 <= i2 < nodes.len() && 0 <= j1 < j2 < nodes[i2].entity.components@.len() implies
            (#[trigger] nodes[i2].entity.components@[j1])
                != (#[trigger] nodes[i2].entity.components@[j2]) by {
            if i2 == i && j2 == on[i2].entity.components@.len() as int {
                assert(nodes[i2].entity.components@[j1] == on[i2].entity.components@[j1]);
                assert(nodes[i2].entity.components@[j2] == id);
                let cid = on[i2].entity.components@[j1];
                assert(0 <= comp_index(oc, cid) < oc.len());
                assert(cid != id);
            } else {
                assert(nodes[i2].entity.components@[j1] == on[i2].entity.components@[j1]);
                assert(nodes[i2].entity.components@[j2] == on[i2].entity.components@[j2]);
            }
        }
        assert(crate::scene::comps_wf(nodes, entries));
    }

    /// Attach a component to an entity under a freshly drawn identifier.
    /// Fails with `EntityNotFound`, changing nothing, exactly when the
    /// entity is not in the scene; the freshly drawn identifier can
    /// collide with an existing one, and then the scene reports
    /// `IdCollision` and changes nothing rather than corrupting the
    /// table.
    pub fn add_component(&mut self, entity: EntityId, component: ComponentValue) -> (r: Result<
        (),
        Error,
    >)
        requires
            old(self).wf(),
        ensures
            final(self).wf(),
            match r {
                Ok(_) => {
                    &&& node_index(old(self).nodes@, entity) >= 0
                    &&& exists|id: ComponentId|
                        {
                            &&& comp_index(old(self).components@, id) == -1
                            &&& final(self).components@ == old(self).components@.push(
                                ComponentEntry {
                                    id,
                                    entity,
                                    slot: ComponentSlot::Present(component),
                                },
                            )
                            &&& final(self).nodes@.len() == old(self).nodes@.len()
                            &&& (forall|j: int|
                                0 <= j < old(self).nodes@.len() && j != node_index(
                                    old(self).nodes@,
                                    entity,
                                ) ==> final(self).nodes@[j] == old(self).nodes@[j])
                            &&& {
                                let i = node_index(old(self).nodes@, entity);
                                &&& final(self).nodes@[i].id == old(self).nodes@[i].id
                                &&& final(self).nodes@[i].parent == old(self).nodes@[i].parent
                                &&& final(self).nodes@[i].entity.name == old(
                                    self,
                                ).nodes@[i].entity.name
                                &&& final(self).nodes@[i].entity.transform == old(
                                    self,
                                ).nodes@[i].entity.transform
                                &&& final(self).nodes@[i].entity.components@ == old(
                                    self,
                                ).nodes@[i].entity.components@.push(id)
                            }
                        }
                },
                Err(e) => {
                    &&& final(self).nodes@ == old(self).nodes@
                    &&& final(self).components@ == old(self).components@
                    &&& (e == Error::EntityNotFound) == (node_index(old(self).nodes@, entity)
                        == -1)
                },
            },
    {
        let id = ComponentId::new();
        self.add_component_with_id(entity, id, component)
    }
}


} // verus!
