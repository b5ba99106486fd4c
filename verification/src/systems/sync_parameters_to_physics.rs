//! Pushes the simulation-wide parameter resources into the engine.
//!
//! Each field is compared before it is written, because some engine
//! parameter writes reset internal solver caches: only values that
//! actually differ are pushed.

use vstd::prelude::*;
use crate::parameters::{Gravity, PhysicsIntegrationParameters, PhysicsProfilingEnabled};
use crate::world::Physics;

verus! {

/// Synchronizes the optional gravity, profiling and integration-tuning
/// resources with the engine-facing world.
#[derive(Clone, Copy, Debug, Default, PartialEq, Eq, Structural)]
pub struct SyncParametersToPhysicsSystem;

impl SyncParametersToPhysicsSystem {
    /// One frame of parameter synchronization: every supplied resource
    /// ends up in effect in the engine; absent resources change nothing.
    pub fn run(
        &mut self,
        gravity: Option<&Gravity>,
        profiling: Option<&PhysicsProfilingEnabled>,
        integration_params: Option<&PhysicsIntegrationParameters>,
        physics: &mut Physics,
    )
        requires
            old(physics).wf(),
        ensures
            final(physics).wf(),
            match gravity {
                Some(g) => final(physics).world.gravity == g.0,
                None => final(physics).world.gravity == old(physics).world.gravity,
            },
            match profiling {
                Some(p) => final(physics).world.performance_counters_enabled == p.0,
                None => final(physics).world.performance_counters_enabled == old(physics).world.performance_counters_enabled,
            },
            match integration_params {
                Some(p) => p.agrees_with_spec(final(physics).world.integration_parameters),
                None => final(physics).world.integration_parameters == old(physics).world.integration_parameters,
            },
            *final(physics) == (Physics {
                world: crate::world::PhysicsWorld {
                    gravity: final(physics).world.gravity,
                    performance_counters_enabled: final(physics).world.performance_counters_enabled,
                    integration_parameters: final(physics).world.integration_parameters,
                    ..old(physics).world
                },
                ..*old(physics)
            }),
    {
        match gravity {
            Some(g) => {
                // Value-equality check before writing: a gravity write
                // invalidates engine caches.
                let current = physics.world.gravity();
                if !(g.0.x == current.x && g.0.y == current.y && g.0.z == current.z) {
                    physics.world.set_gravity(g.0);
                }
            },
            None => {},
        }
        match profiling {
            Some(enable) => {
                if enable.0 != physics.world.performance_counters_enabled {
                    if enable.0 {
                        physics.world.enable_performance_counters();
                    } else {
                        physics.world.disable_performance_counters();
                    }
                }
            },
            None => {},
        }
        match integration_params {
            Some(params) => {
                if !params.agrees_with(&physics.world.integration_parameters) {
                    params.apply(&mut physics.world.integration_parameters);
                }
            },
            None => {},
        }
        proof {
            let fp = *physics;
            assert forall|k: int|
                #[trigger] fp.world.spec_body(k) == old(physics).world.spec_body(k) by {}
            assert forall|k: int|
                #[trigger] fp.world.spec_collider(k) == old(physics).world.spec_collider(k) by {}
        }
    }
}

} // verus!
