//! The minimal pose synchronization stage.

use vstd::prelude::*;
use crate::bodies::PhysicsBody;
use crate::pose::SimplePosition;
use crate::storage::FlaggedStorage;
use crate::systems::sync_positions_from_physics::{spec_readback, SyncPositionsFromPhysicsSystem};
use crate::world::Physics;

verus! {

/// Applies each live dynamic body's simulated placement to its entity's
/// pose component, after the stepper has run.
#[derive(Clone, Copy, Debug, Default, PartialEq, Eq, Structural)]
pub struct PhysicsPoseSystem;

impl PhysicsPoseSystem {
    /// One frame of pose synchronization; see
    /// [`SyncPositionsFromPhysicsSystem::run`], whose behaviour this
    /// stage shares.
    pub fn run(
        &mut self,
        physics: &Physics,
        physics_bodies: &FlaggedStorage<PhysicsBody>,
        poses: &mut FlaggedStorage<SimplePosition>,
    )
        requires
            old(poses).wf(),
            physics_bodies.wf(),
        ensures
            final(poses).wf(),
            forall|e: u32|
                final(poses).spec_get(e) == (match spec_readback(
                    *physics,
                    *physics_bodies,
                    *old(poses),
                    e,
                ) {
                    Some(p) => Some(p),
                    None => old(poses).spec_get(e),
                }),
    {
        let mut inner = SyncPositionsFromPhysicsSystem;
        inner.run(physics, physics_bodies, poses);
    }
}

} // verus!
