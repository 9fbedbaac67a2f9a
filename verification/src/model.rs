//! The drawable model component.
//!
//! Meshes, materials and buffers live with the renderer; the scene keeps
//! only a handle naming the loaded asset.  The draw pass pairs each model
//! handle with its entity's global transform for the renderer to consume.

use vstd::prelude::*;

use crate::component::Component;
use crate::event::{OnEventContext, OnStartContext, OnUpdateContext};
use crate::scene::Scene;

verus! {

/// A drawable component: a handle to a renderer-side model asset.
#[derive(Clone, Copy, PartialEq, Eq, Structural, Debug)]
pub struct Model {
    /// The renderer-side asset this model draws.
    pub asset: u64,
}

impl Model {
    /// A model drawing the given renderer-side asset.
    pub fn new(asset: u64) -> (r: Model)
        ensures
            r == (Model { asset }),
    {
        Model { asset }
    }
}

impl Component for Model {
    fn on_start(&mut self, _scene: &mut Scene, _context: OnStartContext) {
    }

    fn on_update(&mut self, _scene: &mut Scene, _context: OnUpdateContext) {
    }

    fn on_event(&mut self, _scene: &mut Scene, _context: OnEventContext) {
    }
}

} // verus!
