//! The renderer-facing read pass.
//!
//! The draw pass walks the entities in insertion order and, for each
//! component list in attachment order, yields every model component
//! paired with its entity's cached global transform.  The renderer owns
//! all drawing state; the scene only hands it this list.

use vstd::prelude::*;

use crate::component::{ComponentSlot, ComponentValue};
use crate::ids::ComponentId;
use crate::model::Model;
use crate::scene::{comp_index, ComponentEntry, Scene, SceneNode};
use crate::transform::Transform;

verus! {

/// The drawable items among the first `j` components of one entity's
/// list: each model component found in the table, paired with the
/// entity's cached global transform.
pub open spec fn node_draw_upto(
    comps: Seq<ComponentId>,
    entries: Seq<ComponentEntry>,
    g: Transform,
    j: int,
) -> Seq<(Model, Transform)>
    decreases j,
{
    if j <= 0 {
        Seq::empty()
    } else {
        let prev = node_draw_upto(comps, entries, g, j - 1);
        let k = comp_index(entries, comps[j - 1]);
        if 0 <= k < entries.len() {
            match entries[k].slot {
                ComponentSlot::Present(ComponentValue::Model(m)) => prev.push((m, g)),
                _ => prev,
            }
        } else {
            prev
        }
    }
}

/// The drawable items of the first `i` entities, in insertion order.
pub open spec fn scene_draw_upto(
    nodes: Seq<SceneNode>,
    entries: Seq<ComponentEntry>,
    i: int,
) -> Seq<(Model, Transform)>
    decreases i,
{
    if i <= 0 {
        Seq::empty()
    } else {
        scene_draw_upto(nodes, entries, i - 1) + node_draw_upto(
            nodes[i - 1].entity.components@,
            entries,
            nodes[i - 1].entity.transform.global,
            nodes[i - 1].entity.components@.len() as int,
        )
    }
}

impl Scene {
    /// Every drawable component with its entity's cached global
    /// transform, in entity insertion order and component attachment
    /// order.  Valid right after a propagation pass, when the caches are
    /// clean.
    pub fn draw_scene(&self) -> (r: Vec<(Model, Transform)>)
        ensures
            r@ == scene_draw_upto(self.nodes@, self.components@, self.nodes@.len() as int),
    {
        let mut out: Vec<(Model, Transform)> = Vec::new();
        let n = self.nodes.len();
        let mut i: usize = 0;
        while i < n
            invariant
                0 <= i <= n,
                n == self.nodes@.len(),
                out@ == scene_draw_upto(self.nodes@, self.components@, i as int),
            decreases n - i,
        {
            let m = self.nodes[i].entity.components.len();
            let g = self.nodes[i].entity.transform.global;
            let mut j: usize = 0;
            while j < m
                invariant
                    0 <= j <= m,
                    0 <= i < n,
                    n == self.nodes@.len(),
                    m == self.nodes@[i as int].entity.components@.len(),
                    g == self.nodes@[i as int].entity.transform.global,
                    out@ == scene_draw_upto(self.nodes@, self.components@, i as int)
                        + node_draw_upto(
                        self.nodes@[i as int].entity.components@,
                        self.components@,
                        g,
                        j as int,
                    ),
                decreases m - j,
            {
                let cid = self.nodes[i].entity.components[j];
                match self.find_comp_index(&cid) {
                    Some(k) => {
                        let e = self.components[k];
                        match e.slot {
                            ComponentSlot::Present(ComponentValue::Model(model)) => {
                                out.push((model, g));
                            },
                            _ => {},
                        }
                    },
                    None => {},
                }
                j += 1;
            }
            i += 1;
        }
        out
    }
}

} // verus!
