//! Synchronizes updated body placements back to position components.

use vstd::prelude::*;
use crate::bodies::PhysicsBody;
use crate::pose::SimplePosition;
use crate::storage::FlaggedStorage;
use crate::systems::sync_positions_from_physics::{spec_readback, SyncPositionsFromPhysicsSystem};
use crate::world::Physics;

verus! {

/// Synchronizes the updated placement of every live dynamic engine body
/// with its entity's position component.
#[derive(Clone, Copy, Debug, Default, PartialEq, Eq, Structural)]
pub struct SyncBodiesFromPhysicsSystem;

impl SyncBodiesFromPhysicsSystem {
    /// One frame of placement read-back; see
    /// [`SyncPositionsFromPhysicsSystem::run`], whose behaviour this
    /// stage shares.
    pub fn run(
        &mut self,
        physics: &Physics,
        physics_bodies: &FlaggedStorage<PhysicsBody>,
        positions: &mut FlaggedStorage<SimplePosition>,
    )
        requires
            old(positions).wf(),
            physics_bodies.wf(),
        ensures
            final(positions).wf(),
            forall|e: u32|
                final(positions).spec_get(e) == (match spec_readback(
                    *physics,
                    *physics_bodies,
                    *old(positions),
                    e,
                ) {
                    Some(p) => Some(p),
                    None => old(positions).spec_get(e),
                }),
    {
        let mut inner = SyncPositionsFromPhysicsSystem;
        inner.run(physics, physics_bodies, positions);
    }
}

} // verus!
