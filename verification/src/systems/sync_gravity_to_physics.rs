//! Pushes the gravity resource into the engine-facing world.

use vstd::prelude::*;
use crate::parameters::Gravity;
use crate::world::Physics;

verus! {

/// Synchronizes the optional [`Gravity`] resource with the engine's
/// gravity, so it can be changed on demand.
#[derive(Clone, Copy, Debug, Default, PartialEq, Eq, Structural)]
pub struct SyncGravityToPhysicsSystem;

impl SyncGravityToPhysicsSystem {
    /// One frame: if a gravity resource exists, its value becomes the
    /// engine's gravity; without one, nothing changes.
    pub fn run(&mut self, gravity: Option<&Gravity>, physics: &mut Physics)
        requires
            old(physics).wf(),
        ensures
            final(physics).wf(),
            match gravity {
                Some(g) => final(physics).world.gravity == g.0,
                None => final(physics).world.gravity == old(physics).world.gravity,
            },
            *final(physics) == (Physics {
                world: crate::world::PhysicsWorld {
                    gravity: final(physics).world.gravity,
                    ..old(physics).world
                },
                ..*old(physics)
            }),
    {
        match gravity {
            Some(g) => {
                physics.world.set_gravity(g.0);
            },
            None => {},
        }
        proof {
            let fp = *physics;
            assert forall|k: int|
                #[trigger] fp.world.spec_body(k) == old(physics).world.spec_body(k) by {}
            assert forall|k: int|
                #[trigger] fp.world.spec_collider(k) == old(physics).world.spec_collider(k) by {}
        }
    }
}

} // verus!
