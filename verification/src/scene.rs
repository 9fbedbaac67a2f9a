//! The scene: the entity tree and the component table.
//!
//! Entities live in a vector in insertion order; the root is created with
//! the scene and every later entity names an earlier entity as its
//! parent, so the vector order is a topological order of the tree.
//! Components live in a second vector in registration order, each entry
//! tying a component identifier to its owning entity and holding the
//! value itself.
//!
//! The scene maintains two families of invariants, gathered in `wf`:
//! the tree shape (one root, parents come earlier, identifiers are
//! distinct) and transform-cache consistency (a clean cache equals the
//! parent's cached global composed with the local transform).

use vstd::prelude::*;

use crate::component::{ComponentSlot, ComponentValue};
use crate::entity::{Entity, EntityTransform};
use crate::ids::{ComponentId, EntityId};
use crate::transform::t_compose;

verus! {

/// Structural failures of scene mutation.
#[derive(Clone, Copy, PartialEq, Eq, Structural, Debug)]
pub enum Error {
    /// The named entity (or parent) is not in the scene.
    EntityNotFound,
    /// A freshly drawn identifier collided with an existing one: the
    /// scene would be corrupted by inserting it twice.
    IdCollision,
}

/// A node of the entity tree: the entity and its place in the tree.
#[derive(Clone, Debug)]
pub struct SceneNode {
    /// The entity's identifier.
    pub id: EntityId,
    /// The parent entity; `None` only for the root.
    pub parent: Option<EntityId>,
    /// The entity's own data.
    pub entity: Entity,
}

/// One entry of the component table.
#[derive(Clone, Copy, PartialEq, Eq, Structural, Debug)]
pub struct ComponentEntry {
    /// The component's identifier.
    pub id: ComponentId,
    /// The entity the component is attached to.
    pub entity: EntityId,
    /// The component value, or an in-use marker during dispatch.
    pub slot: ComponentSlot,
}

/// The scene: the entity tree and the component table.
pub struct Scene {
    /// The entity tree in insertion order; index 0 is the root.
    pub nodes: Vec<SceneNode>,
    /// The component table in registration order.
    pub components: Vec<ComponentEntry>,
}

/// The first index at or after `from` whose node has the identifier, or
/// -1 if there is none.
pub open spec fn find_node(nodes: Seq<SceneNode>, id: EntityId, from: int) -> int
    decreases nodes.len() - from,
{
    if from < 0 || from >= nodes.len() {
        -1
    } else if nodes[from].id == id {
        from
    } else {
        find_node(nodes, id, from + 1)
    }
}

/// The index of the node with the identifier, or -1 if there is none.
pub open spec fn node_index(nodes: Seq<SceneNode>, id: EntityId) -> int {
    find_node(nodes, id, 0)
}

/// The first entry index at or after `from` with the component
/// identifier, or -1 if there is none.
pub open spec fn find_comp(entries: Seq<ComponentEntry>, id: ComponentId, from: int) -> int
    decreases entries.len() - from,
{
    if from < 0 || from >= entries.len() {
        -1
    } else if entries[from].id == id {
        from
    } else {
        find_comp(entries, id, from + 1)
    }
}

/// The index of the entry with the component identifier, or -1.
pub open spec fn comp_index(entries: Seq<ComponentEntry>, id: ComponentId) -> int {
    find_comp(entries, id, 0)
}

/// A node's parent identifier; the node's own identifier for the root,
/// which has no parent.
pub open spec fn parent_id(n: SceneNode) -> EntityId {
    match n.parent {
        Option::Some(p) => p,
        Option::None => n.id,
    }
}

/// The index of a node's parent.
pub open spec fn parent_index(nodes: Seq<SceneNode>, i: int) -> int {
    node_index(nodes, parent_id(nodes[i]))
}

/// The shape of the entity tree: at least the root, whose parent is
/// `None`; every later node's parent stands earlier in the vector; and
/// identifiers are distinct.
#[verifier::opaque]
pub open spec fn tree_wf(nodes: Seq<SceneNode>) -> bool {
    &&& nodes.len() >= 1
    &&& nodes[0].parent is None
    &&& forall|i: int|
        1 <= i < nodes.len() ==> (#[trigger] nodes[i].parent) is Some
    &&& forall|i: int|
        1 <= i < nodes.len() ==> 0 <= #[trigger] parent_index(nodes, i) < i
    &&& forall|i: int, j: int|
        0 <= i < j < nodes.len() ==> (#[trigger] nodes[i].id) != (#[trigger] nodes[j].id)
}

/// Transform-cache consistency: a clean cache equals the parent's cached
/// global transform composed with the local transform (the local
/// transform itself for the root).
#[verifier::opaque]
pub open spec fn clean_consistent(nodes: Seq<SceneNode>) -> bool {
    forall|i: int|
        0 <= i < nodes.len() && !(#[trigger] nodes[i].entity.transform).dirty ==> (if i == 0 {
            nodes[i].entity.transform.global == nodes[i].entity.transform.local
        } else {
            nodes[i].entity.transform.global == t_compose(
                nodes[parent_index(nodes, i)].entity.transform.global,
                nodes[i].entity.transform.local,
            )
        })
}

/// Consistency of the component table with the per-entity component
/// lists: entries point at existing entities that list them, and the
/// lists point back at entries of their own entity.
#[verifier::opaque]
pub open spec fn comps_wf(nodes: Seq<SceneNode>, entries: Seq<ComponentEntry>) -> bool {
    &&& forall|k: int, l: int|
        0 <= k < l < entries.len() ==> (#[trigger] entries[k].id) != (#[trigger] entries[l].id)
    &&& forall|k: int|
        0 <= k < entries.len() ==> 0 <= node_index(nodes, (#[trigger] entries[k]).entity)
            < nodes.len()
    &&& forall|k: int|
        0 <= k < entries.len() ==> nodes[node_index(
            nodes,
            (#[trigger] entries[k]).entity,
        )].entity.components@.contains(entries[k].id)
    &&& forall|i: int, j: int|
        0 <= i < nodes.len() && 0 <= j < nodes[i].entity.components@.len() ==> {
            let k = comp_index(entries, #[trigger] nodes[i].entity.components@[j]);
            &&& 0 <= k < entries.len()
            &&& entries[k].entity == nodes[i].id
        }
    &&& forall|i: int, j1: int, j2: int|
        0 <= i < nodes.len() && 0 <= j1 < j2 < nodes[i].entity.components@.len()
            ==> (#[trigger] nodes[i].entity.components@[j1]) != (#[trigger] nodes[i].entity.components@[j2])
}

/// Every component slot holds its value: no dispatch is running.
pub open spec fn slots_at_rest(entries: Seq<ComponentEntry>) -> bool {
    forall|k: int| 0 <= k < entries.len() ==> (#[trigger] entries[k].slot) is Present
}

impl Scene {
    /// The scene's invariant: tree shape, transform-cache consistency,
    /// and component-table consistency.
    pub open spec fn wf(self) -> bool {
        &&& tree_wf(self.nodes@)
        &&& clean_consistent(self.nodes@)
        &&& comps_wf(self.nodes@, self.components@)
    }

    /// A fresh scene holding only the root entity.
    pub fn new() -> (r: Scene)
        ensures
            r.wf(),
            slots_at_rest(r.components@),
            r.nodes@.len() == 1,
            r.components@.len() == 0,
            r.nodes@[0].parent is None,
            r.nodes@[0].entity.name@ == "root"@,
            r.nodes@[0].entity.components@ == Seq::<crate::ids::ComponentId>::empty(),
            r.nodes@[0].entity.transform == (EntityTransform {
                local: crate::transform::t_identity(),
                dirty: false,
                global: crate::transform::t_identity(),
            }),
    {
        let root = SceneNode {
            id: EntityId::new(),
            parent: None,
            entity: Entity::new("root".to_string()),
        };
        let mut nodes: Vec<SceneNode> = Vec::new();
        nodes.push(root);
        let s = Scene { nodes, components: Vec::new() };
        proof {
            reveal(tree_wf);
            reveal(clean_consistent);
            reveal(comps_wf);
            assert(s.wf());
        }
        s
    }

    /// The root entity's identifier.
    pub fn get_root(&self) -> (r: EntityId)
        requires
            self.nodes@.len() >= 1,
        ensures
            r == self.nodes@[0].id,
    {
        self.nodes[0].id
    }

    /// The index of the entity in the tree, if it is there.
    pub(crate) fn find_index(&self, id: &EntityId) -> (r: Option<usize>)
        ensures
            match r {
                Some(i) => i == node_index(self.nodes@, *id) && 0 <= i < self.nodes@.len()
                    && self.nodes@[i as int].id == *id,
                None => node_index(self.nodes@, *id) == -1,
            },
    {
        let n = self.nodes.len();
        let mut j: usize = 0;
        while j < n
            invariant
                0 <= j <= n,
                n == self.nodes@.len(),
                forall|k: int| 0 <= k < j ==> (#[trigger] self.nodes@[k].id) != *id,
                node_index(self.nodes@, *id) == find_node(self.nodes@, *id, j as int),
            decreases n - j,
        {
            if self.nodes[j].id.raw == id.raw {
                return Some(j);
            }
            j += 1;
        }
        None
    }

    /// Whether the entity is in the tree.
    pub fn contains_entity(&self, id: &EntityId) -> (r: bool)
        ensures
            r == (node_index(self.nodes@, *id) >= 0),
    {
        match self.find_index(id) {
            Some(_) => true,
            None => false,
        }
    }

    /// The index of the component entry, if it is there.
    pub(crate) fn find_comp_index(&self, id: &ComponentId) -> (r: Option<usize>)
        ensures
            match r {
                Some(k) => k == comp_index(self.components@, *id) && 0 <= k
                    < self.components@.len() && self.components@[k as int].id == *id,
                None => comp_index(self.components@, *id) == -1,
            },
    {
        let n = self.components.len();
        let mut j: usize = 0;
        while j < n
            invariant
                0 <= j <= n,
                n == self.components@.len(),
                forall|k: int| 0 <= k < j ==> (#[trigger] self.components@[k].id) != *id,
                comp_index(self.components@, *id) == find_comp(self.components@, *id, j as int),
            decreases n - j,
        {
            if self.components[j].id.raw == id.raw {
                return Some(j);
            }
            j += 1;
        }
        None
    }

    /// The parent of an entity: `None` for the root or for an entity
    /// that is not in the scene.
    pub fn parent(&self, child_id: &EntityId) -> (r: Option<EntityId>)
        ensures
            match r {
                Some(p) => {
                    let i = node_index(self.nodes@, *child_id);
                    &&& i >= 0
                    &&& self.nodes@[i].parent == Some(p)
                },
                None => {
                    let i = node_index(self.nodes@, *child_id);
                    i == -1 || self.nodes@[i].parent is None
                },
            },
    {
        match self.find_index(child_id) {
            Some(i) => self.nodes[i].parent,
            None => None,
        }
    }

    /// The entity a component is attached to.
    pub fn get_entity(&self, comp_id: &ComponentId) -> (r: Option<EntityId>)
        ensures
            match r {
                Some(e) => {
                    let k = comp_index(self.components@, *comp_id);
                    &&& k >= 0
                    &&& self.components@[k].entity == e
                },
                None => comp_index(self.components@, *comp_id) == -1,
            },
    {
        match self.find_comp_index(comp_id) {
            Some(k) => Some(self.components[k].entity),
            None => None,
        }
    }

    /// The entity's transform cache, if the entity is in the scene.
    pub fn get_transform_ref(&self, entity: &EntityId) -> (r: Option<&EntityTransform>)
        ensures
            match r {
                Some(t) => {
                    let i = node_index(self.nodes@, *entity);
                    &&& i >= 0
                    &&& *t == self.nodes@[i].entity.transform
                },
                None => node_index(self.nodes@, *entity) == -1,
            },
    {
        match self.find_index(entity) {
            Some(i) => Some(&self.nodes[i].entity.transform),
            None => None,
        }
    }

    /// A copy of the entity's transform cache, if the entity is there.
    pub fn get_transform(&self, entity: &EntityId) -> (r: Option<EntityTransform>)
        ensures
            match r {
                Some(t) => {
                    let i = node_index(self.nodes@, *entity);
                    &&& i >= 0
                    &&& t == self.nodes@[i].entity.transform
                },
                None => node_index(self.nodes@, *entity) == -1,
            },
    {
        match self.find_index(entity) {
            Some(i) => Some(self.nodes[i].entity.transform),
            None => None,
        }
    }
}

} // verus!
