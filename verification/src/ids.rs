//! Opaque identifiers for entities and components.
//!
//! Identifiers carry a random 64-bit value drawn from a version-4 UUID.
//! Nothing is assumed about the drawn value: the scene checks freshness on
//! insertion and reports a structural error on the (vanishingly unlikely)
//! collision instead of trusting randomness.

use vstd::prelude::*;

verus! {

/// Opaque identifier of an entity; used purely as a key.
#[derive(Clone, Copy, PartialEq, Eq, Structural, Hash, Debug)]
pub struct EntityId {
    pub raw: u64,
}

/// Opaque identifier of a component; keys the component table.
#[derive(Clone, Copy, PartialEq, Eq, Structural, Hash, Debug)]
pub struct ComponentId {
    pub raw: u64,
}

/// Relies on `uuid::Uuid::new_v4` for a random identifier.  The value is
/// random, so nothing is stated about it.
#[verifier::external_body]
fn random_raw_id() -> u64 {
    uuid::Uuid::new_v4().as_u64_pair().0
}

impl EntityId {
    /// A randomly drawn entity identifier.
    pub fn new() -> EntityId {
        EntityId { raw: random_raw_id() }
    }
}

impl ComponentId {
    /// A randomly drawn component identifier.
    pub fn new() -> ComponentId {
        ComponentId { raw: random_raw_id() }
    }
}

} // verus!
