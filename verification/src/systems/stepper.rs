//! Steps the engine once per call, under the stepping resource's
//! direction.

use vstd::prelude::*;
use crate::stepper::StepperRes;
use crate::world::Physics;

verus! {

/// Steps the engine world once when called. When a stepping resource is
/// present and reports a changed timestep, the new timestep is pushed
/// into the engine first.
#[derive(Clone, Copy, Debug, Default, PartialEq, Eq, Structural)]
pub struct PhysicsStepperSystem;

impl PhysicsStepperSystem {
    /// One call: update the engine timestep if the stepper marked it
    /// dirty, then advance the simulation by one step.
    pub fn run(&mut self, step: Option<&StepperRes>, physics: &mut Physics)
        requires
            old(physics).wf(),
            old(physics).world.step_count < u64::MAX,
            step matches Some(s) ==> s.time_step.wf(),
        ensures
            final(physics).wf(),
            final(physics).world.step_count == old(physics).world.step_count + 1,
            final(physics).world.timestep == (match step {
                Some(s) => if s.time_step_dirty {
                    s.spec_time_step()
                } else {
                    old(physics).world.timestep
                },
                None => old(physics).world.timestep,
            }),
            final(physics).body_handles == old(physics).body_handles,
            final(physics).collider_handles == old(physics).collider_handles,
            forall|k: int| final(physics).world.spec_body(k) == old(physics).world.spec_body(k),
            forall|k: int|
                final(physics).world.spec_collider(k) == old(physics).world.spec_collider(k),
    {
        match step {
            Some(step_data) => {
                if step_data.is_dirty() {
                    let delta = step_data.current_time_step();
                    physics.world.set_timestep(delta);
                }
            },
            None => {},
        }
        physics.world.step();
        proof {
            let fp = *physics;
            assert forall|k: int|
                #[trigger] fp.world.spec_body(k) == old(physics).world.spec_body(k) by {}
            assert forall|k: int|
                #[trigger] fp.world.spec_collider(k) == old(physics).world.spec_collider(k) by {}
        }
    }
}

} // verus!
