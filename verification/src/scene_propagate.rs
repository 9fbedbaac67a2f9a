//! Lazy hierarchical transform propagation.
//!
//! The entity vector is kept in topological order (parents first), so one
//! forward sweep visits every parent before its children.  A node is
//! recomputed when its own dirty flag is raised or when its parent was
//! recomputed earlier in the same sweep — the sweep-local substitute for
//! marking children dirty.  After the sweep every cache is clean and every
//! cached global transform equals the composition of its ancestors' local
//! transforms, written `global_of`.

use vstd::prelude::*;

use crate::scene::{
    clean_consistent, comps_wf, node_index, parent_id, parent_index, tree_wf, Scene, SceneNode,
};
use crate::scene_mut::lemma_find_node_same_ids;
use crate::transform::{t_compose, Transform};

verus! {

/// The world transform the tree assigns to node `i`: the root keeps its
/// local transform; every other node composes its parent's world
/// transform with its own local transform.  The recursion is grounded by
/// the topological order: a parent stands strictly earlier.
pub open spec fn global_of(nodes: Seq<SceneNode>, i: int) -> Transform
    decreases i,
{
    if 0 <= i < nodes.len() {
        match nodes[i].parent {
            Option::None => nodes[i].entity.transform.local,
            Option::Some(_) => {
                let j = parent_index(nodes, i);
                if 0 <= j < i {
                    t_compose(global_of(nodes, j), nodes[i].entity.transform.local)
                } else {
                    nodes[i].entity.transform.local
                }
            },
        }
    } else {
        crate::transform::t_identity()
    }
}

/// The tree after a full propagation: every identifier, parent, name,
/// component list and local transform kept; every cache clean and
/// holding the tree's value `global_of`.
#[verifier::opaque]
pub open spec fn propagated(nodes: Seq<SceneNode>) -> Seq<SceneNode> {
    Seq::new(
        nodes.len(),
        |i: int|
            SceneNode {
                id: nodes[i].id,
                parent: nodes[i].parent,
                entity: crate::entity::Entity {
                    name: nodes[i].entity.name,
                    components: nodes[i].entity.components,
                    transform: crate::entity::EntityTransform {
                        local: nodes[i].entity.transform.local,
                        dirty: false,
                        global: global_of(nodes, i),
                    },
                },
            },
    )
}

/// Everything about a node except its transform cache, plus the local
/// transform inside the cache: what a propagation sweep leaves alone.
pub open spec fn same_skeleton(a: SceneNode, b: SceneNode) -> bool {
    &&& a.id == b.id
    &&& a.parent == b.parent
    &&& a.entity.name == b.entity.name
    &&& a.entity.components == b.entity.components
    &&& a.entity.transform.local == b.entity.transform.local
}

/// What the sweep has established for an already visited node: the
/// skeleton is untouched, the cache is clean and holds the tree's value,
/// and a node the sweep did not recompute kept its old cache.
pub open spec fn swept_ok(
    cur: Seq<SceneNode>,
    o: Seq<SceneNode>,
    rec: Seq<bool>,
    j: int,
) -> bool {
    &&& same_skeleton(cur[j], o[j])
    &&& !cur[j].entity.transform.dirty
    &&& cur[j].entity.transform.global == global_of(o, j)
    &&& (!rec[j] ==> cur[j].entity.transform.global == o[j].entity.transform.global)
}

/// A non-root node's parent stands strictly earlier in a well-formed
/// tree.
proof fn proof_tree_parent_bound(nodes: Seq<SceneNode>, i: int)
    requires
        tree_wf(nodes),
        1 <= i < nodes.len(),
    ensures
        0 <= parent_index(nodes, i) < i,
{
    reveal(tree_wf);
}

impl Scene {
    /// One propagation sweep: after it, every transform cache is clean
    /// and every cached global transform equals the tree's composition of
    /// local transforms.  Nothing else about the scene changes.
    #[verifier::rlimit(100)]
    pub fn update_transforms(&mut self)
        requires
            old(self).wf(),
        ensures
            final(self).wf(),
            final(self).components@ == old(self).components@,
            final(self).nodes@.len() == old(self).nodes@.len(),
            forall|j: int|
                0 <= j < old(self).nodes@.len() ==> {
                    &&& (#[trigger] final(self).nodes@[j]).id == old(self).nodes@[j].id
                    &&& final(self).nodes@[j].parent == old(self).nodes@[j].parent
                    &&& final(self).nodes@[j].entity.name == old(self).nodes@[j].entity.name
                    &&& final(self).nodes@[j].entity.components == old(
                        self,
                    ).nodes@[j].entity.components
                    &&& final(self).nodes@[j].entity.transform.local == old(
                        self,
                    ).nodes@[j].entity.transform.local
                },
            forall|j: int|
                0 <= j < old(self).nodes@.len()
                    ==> !(#[trigger] final(self).nodes@[j]).entity.transform.dirty
                    && final(self).nodes@[j].entity.transform.global
                    == global_of(old(self).nodes@, j),
            final(self).nodes@ == propagated(old(self).nodes@),
    {
        let ghost o = old(self).nodes@;
        let n = self.nodes.len();
        let mut rec: Vec<bool> = Vec::new();
        let mut i: usize = 0;
        while i < n
            invariant
                0 <= i <= n,
                n == self.nodes@.len(),
                o.len() == n,
                o == old(self).nodes@,
                rec@.len() == i,
                self.components@ == old(self).components@,
                tree_wf(o),
                clean_consistent(o),
                forall|j: int| i <= j < n ==> (#[trigger] self.nodes@[j]) == o[j],
                forall|j: int| 0 <= j < i ==> #[trigger] swept_ok(self.nodes@, o, rec@, j),
            decreases n - i,
        {
            let ghost pre = self.nodes@;
            let ghost pre_rec = rec@;
            let node_parent = {
                let node_ref = &self.nodes[i];
                node_ref.parent
            };
            match node_parent {
                None => {
                    proof {
                        reveal(tree_wf);
                        assert(i == 0);
                    }
                    let was_dirty = self.nodes[i].entity.transform.dirty;
                    if was_dirty {
                        let local = self.nodes[i].entity.transform.local;
                        self.nodes[i].entity.transform.global = local;
                        self.nodes[i].entity.transform.dirty = false;
                        rec.push(true);
                    } else {
                        rec.push(false);
                    }
                    proof {
                        reveal(clean_consistent);
                        assert(swept_ok(self.nodes@, o, rec@, i as int));
                    }
                },
                Some(p) => {
                    proof {
                        reveal(tree_wf);
                        assert(i >= 1) by {
                            assert(self.nodes@[i as int] == o[i as int]);
                            if i == 0 {
                                assert(o[0].parent is None);
                            }
                        }
                    }
                    let pi_opt = self.find_index(&p);
                    proof {
                        assert forall|j: int|
                            0 <= j < self.nodes@.len() implies (#[trigger] self.nodes@[j].id)
                            == o[j].id by {
                            if j < i as int {
                                assert(swept_ok(self.nodes@, o, rec@, j));
                            }
                        }
                        lemma_find_node_same_ids(self.nodes@, o, p, 0);
                        assert(parent_id(o[i as int]) == p);
                        proof_tree_parent_bound(o, i as int);
                    }
                    let pi = match pi_opt {
                        Some(pi) => pi,
                        None => {
                            proof {
                                assert(false);
                            }
                            0
                        },
                    };
                    proof {
                        assert(pi == parent_index(o, i as int));
                        assert(swept_ok(self.nodes@, o, rec@, pi as int));
                    }
                    let parent_was_rec = rec[pi];
                    let was_dirty = self.nodes[i].entity.transform.dirty;
                    if was_dirty || parent_was_rec {
                        let pg = self.nodes[pi].entity.transform.global;
                        let local = self.nodes[i].entity.transform.local;
                        let g = pg.compose(local);
                        self.nodes[i].entity.transform.global = g;
                        self.nodes[i].entity.transform.dirty = false;
                        rec.push(true);
                        proof {
                            assert(pg == global_of(o, pi as int));
                            assert(global_of(o, i as int) == t_compose(
                                global_of(o, pi as int),
                                o[i as int].entity.transform.local,
                            ));
                            assert(swept_ok(self.nodes@, o, rec@, i as int));
                        }
                    } else {
                        rec.push(false);
                        proof {
                            reveal(clean_consistent);
                            // A clean node under an untouched parent is
                            // already consistent: its cache equals the
                            // parent's cache composed with its local
                            // transform, and the parent's cache is the
                            // tree's value.
                            assert(self.nodes@[i as int] == o[i as int]);
                            assert(o[i as int].entity.transform.global == t_compose(
                                o[parent_index(o, i as int)].entity.transform.global,
                                o[i as int].entity.transform.local,
                            ));
                            assert(o[pi as int].entity.transform.global == global_of(o, pi as int));
                            assert(global_of(o, i as int) == t_compose(
                                global_of(o, pi as int),
                                o[i as int].entity.transform.local,
                            ));
                            assert(swept_ok(self.nodes@, o, rec@, i as int));
                        }
                    }
                },
            }
            proof {
                assert forall|j: int| 0 <= j < i + 1 implies #[trigger] swept_ok(
                    self.nodes@,
                    o,
                    rec@,
                    j,
                ) by {
                    if j < i as int {
                        assert(swept_ok(pre, o, pre_rec, j));
                        assert(self.nodes@[j] == pre[j]);
                        assert(rec@[j] == pre_rec[j]);
                    }
                }
            }
            i += 1;
        }
        proof {
            assert forall|j: int|
                0 <= j < o.len() implies {
                &&& (#[trigger] self.nodes@[j]).id == o[j].id
                &&& self.nodes@[j].parent == o[j].parent
                &&& self.nodes@[j].entity.name == o[j].entity.name
                &&& self.nodes@[j].entity.components == o[j].entity.components
                &&& self.nodes@[j].entity.transform.local == o[j].entity.transform.local
                &&& !self.nodes@[j].entity.transform.dirty
                &&& self.nodes@[j].entity.transform.global == global_of(o, j)
            } by {
                assert(swept_ok(self.nodes@, o, rec@, j));
            }
            self.lemma_wf_after_propagation(*old(self));
            reveal(propagated);
            assert forall|j: int|
                0 <= j < o.len() implies (#[trigger] self.nodes@[j]) == propagated(o)[j] by {
                assert(swept_ok(self.nodes@, o, rec@, j));
            }
            assert(self.nodes@ =~= propagated(o));
        }
    }

    /// A sweep that only rewrites transform caches, leaving identifiers,
    /// parents and component lists alone and every cache clean and equal
    /// to the tree's value, keeps the scene well-formed.
    proof fn lemma_wf_after_propagation(self, old_scene: Scene)
        requires
            old_scene.wf(),
            self.components@ == old_scene.components@,
            self.nodes@.len() == old_scene.nodes@.len(),
            forall|j: int|
                0 <= j < old_scene.nodes@.len() ==> {
                    &&& (#[trigger] self.nodes@[j]).id == old_scene.nodes@[j].id
                    &&& self.nodes@[j].parent == old_scene.nodes@[j].parent
                    &&& self.nodes@[j].entity.name == old_scene.nodes@[j].entity.name
                    &&& self.nodes@[j].entity.components == old_scene.nodes@[j].entity.components
                    &&& self.nodes@[j].entity.transform.local
                        == old_scene.nodes@[j].entity.transform.local
                },
            forall|j: int|
                0 <= j < old_scene.nodes@.len() ==> !(#[trigger] self.nodes@[j]).entity.transform.dirty
                    && self.nodes@[j].entity.transform.global == global_of(old_scene.nodes@, j),
        ensures
            self.wf(),
    {
        reveal(tree_wf);
        reveal(clean_consistent);
        reveal(comps_wf);
        let o = old_scene.nodes@;
        let nodes = self.nodes@;
        assert forall|j: int|
            1 <= j < nodes.len() implies 0 <= #[trigger] parent_index(nodes, j) < j by {
            lemma_find_node_same_ids(o, nodes, parent_id(nodes[j]), 0);
            assert(parent_id(nodes[j]) == parent_id(o[j]));
            assert(parent_index(nodes, j) == parent_index(o, j));
        }
        assert(tree_wf(nodes));
        assert forall|j: int|
            0 <= j < nodes.len() && !(#[trigger] nodes[j].entity.transform).dirty implies (if j
            == 0 {
            nodes[j].entity.transform.global == nodes[j].entity.transform.local
        } else {
            nodes[j].entity.transform.global == t_compose(
                nodes[parent_index(nodes, j)].entity.transform.global,
                nodes[j].entity.transform.local,
            )
        }) by {
            if j > 0 {
                lemma_find_node_same_ids(o, nodes, parent_id(nodes[j]), 0);
                assert(parent_id(nodes[j]) == parent_id(o[j]));
                assert(parent_index(nodes, j) == parent_index(o, j));
                let pj = parent_index(o, j);
                assert(nodes[pj].entity.transform.global == global_of(o, pj));
                assert(global_of(o, j) == t_compose(
                    global_of(o, pj),
                    o[j].entity.transform.local,
                ));
            }
        }
        assert forall|k: int|
            0 <= k < self.components@.len() implies 0 <= node_index(
            nodes,
            (#[trigger] self.components@[k]).entity,
        ) < nodes.len() && nodes[node_index(
            nodes,
            self.components@[k].entity,
        )].entity.components@.contains(self.components@[k].id) by {
            lemma_find_node_same_ids(o, nodes, self.components@[k].entity, 0);
            let ni = node_index(o, self.components@[k].entity);
            assert(node_index(nodes, self.components@[k].entity) == ni);
            assert(nodes[ni].entity.components == o[ni].entity.components);
        }
        assert forall|i2: int, j: int|
            0 <= i2 < nodes.len() && 0 <= j < nodes[i2].entity.components@.len() implies {
            let k = crate::scene::comp_index(
                self.components@,
                #[trigger] nodes[i2].entity.components@[j],
            );
            &&& 0 <= k < self.components@.len()
            &&& self.components@[k].entity == nodes[i2].id
        } by {
            assert(nodes[i2].entity.components@[j] == o[i2].entity.components@[j]);
        }
        assert forall|i2: int, j1: int, j2: int|
            0 <= i2 < nodes.len() && 0 <= j1 < j2 < nodes[i2].entity.components@.len() implies
            (#[trigger] nodes[i2].entity.components@[j1])
                != (#[trigger] nodes[i2].entity.components@[j2]) by {
            assert(nodes[i2].entity.components@[j1] == o[i2].entity.components@[j1]);
            assert(nodes[i2].entity.components@[j2] == o[i2].entity.components@[j2]);
        }
        assert(comps_wf(nodes, self.components@));
    }
}

} // verus!
