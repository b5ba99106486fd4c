//! An all-in-one synchronization system.
//!
//! One call performs a whole frame: body components are reconciled into
//! the engine-facing store, gravity and the frame's timestep are pushed,
//! the simulation is stepped once, and the updated placements are copied
//! back into the transforms. The staged systems do the same work in
//! separately schedulable pieces; this system composes them for hosts
//! that want a single dependency.

use vstd::prelude::*;
use crate::bodies::PhysicsBody;
use crate::parameters::Gravity;
use crate::pose::SimplePosition;
use crate::storage::{FlaggedStorage, ReaderId};
use crate::systems::sync_bodies_to_physics::SyncBodiesToPhysicsSystem;
use crate::systems::sync_positions_from_physics::{spec_readback, SyncPositionsFromPhysicsSystem};
use crate::world::Physics;

verus! {

/// Synchronizes transform and body components into an engine world,
/// steps the simulation once per frame, and synchronizes the simulated
/// state back.
pub struct Dumb3dPhysicsSystem {
    /// The change readers for the transform and body storages.
    pub body_sync: SyncBodiesToPhysicsSystem,
}

impl Default for Dumb3dPhysicsSystem {
    /// A system with no readers yet; call [`Dumb3dPhysicsSystem::setup`]
    /// before the first run.
    fn default() -> (r: Dumb3dPhysicsSystem)
        ensures
            r.body_sync.positions_reader_id is None,
            r.body_sync.physics_bodies_reader_id is None,
    {
        Dumb3dPhysicsSystem { body_sync: SyncBodiesToPhysicsSystem::default() }
    }
}

impl Dumb3dPhysicsSystem {
    /// Establishes the persistent reader cursors. Must run once before
    /// the first frame.
    pub fn setup(
        &mut self,
        transforms: &FlaggedStorage<SimplePosition>,
        physics_bodies: &FlaggedStorage<PhysicsBody>,
    )
        ensures
            final(self).body_sync.positions_reader_id == Some(
                ReaderId { cursor: transforms.spec_events().len() as usize },
            ),
            final(self).body_sync.physics_bodies_reader_id == Some(
                ReaderId { cursor: physics_bodies.spec_events().len() as usize },
            ),
    {
        self.body_sync.setup(transforms, physics_bodies);
    }

    /// One whole frame: reconcile changed bodies into the engine, apply
    /// gravity, set the frame's wall delta as the integration timestep,
    /// step once, and copy every live dynamic body's placement back into
    /// its transform.
    pub fn run(
        &mut self,
        time_delta: u64,
        gravity: &Gravity,
        transforms: &mut FlaggedStorage<SimplePosition>,
        physics_bodies: &mut FlaggedStorage<PhysicsBody>,
        physics: &mut Physics,
    )
        requires
            old(self).body_sync.positions_reader_id matches Some(pr) && pr.cursor <= old(
                transforms,
            ).spec_events().len(),
            old(self).body_sync.physics_bodies_reader_id matches Some(br) && br.cursor <= old(
                physics_bodies,
            ).spec_events().len(),
            old(physics).wf(),
            old(transforms).wf(),
            old(physics_bodies).wf(),
            old(physics).world.step_count < u64::MAX,
            old(physics).world.next_body_handle as int + (old(transforms).spec_events().len() - old(
                self,
            ).body_sync.positions_reader_id->0.cursor) + (old(
                physics_bodies,
            ).spec_events().len() - old(self).body_sync.physics_bodies_reader_id->0.cursor)
                < u32::MAX as int,
        ensures
            final(physics).wf(),
            final(transforms).wf(),
            final(physics_bodies).wf(),
            final(physics).world.gravity == gravity.0,
            final(physics).world.timestep == time_delta,
            final(physics).world.step_count == old(physics).world.step_count + 1,
            forall|e: u32|
                final(transforms).spec_get(e) == (match spec_readback(
                    *final(physics),
                    *final(physics_bodies),
                    *old(transforms),
                    e,
                ) {
                    Some(p) => Some(p),
                    None => old(transforms).spec_get(e),
                }),
    {
        self.body_sync.run(transforms, physics, physics_bodies);
        let ghost mid = *physics;
        physics.world.set_gravity(gravity.0);
        physics.world.set_timestep(time_delta);
        physics.world.step();
        proof {
            let fp = *physics;
            assert forall|k: int| #[trigger] fp.world.spec_body(k) == mid.world.spec_body(k) by {}
            assert forall|k: int|
                #[trigger] fp.world.spec_collider(k) == mid.world.spec_collider(k) by {}
        }
        let mut readback = SyncPositionsFromPhysicsSystem;
        readback.run(physics, physics_bodies, transforms);
    }
}

} // verus!
