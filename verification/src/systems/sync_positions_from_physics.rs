//! The pose read-back stage: copies simulated placements back into pose
//! components.
//!
//! For every entity with a body handle and a pose component, the engine
//! body's current placement overwrites the pose. Bodies that are not
//! dynamic are skipped: nothing meaningful changed there, and ground
//! bodies have no well-defined read-back. One-way state: poses written
//! here are not authoring inputs.

use vstd::prelude::*;
use crate::bodies::{BodyStatus, PhysicsBody};
use crate::pose::SimplePosition;
use crate::storage::FlaggedStorage;
use crate::world::Physics;

verus! {

/// What the read-back writes for entity `e`: the engine placement of the
/// entity's live dynamic body, if the entity carries both a handle-bearing
/// body component and a pose.
pub open spec fn spec_readback(
    physics: Physics,
    physics_bodies: FlaggedStorage<PhysicsBody>,
    positions: FlaggedStorage<SimplePosition>,
    e: u32,
) -> Option<SimplePosition> {
    let pb = physics_bodies.spec_get(e);
    if pb is Some && positions.spec_get(e) is Some && pb->0.handle is Some {
        let body = physics.world.spec_body((pb->0.handle->0).0 as int);
        if body is Some && body->0.status == BodyStatus::Dynamic {
            Some(SimplePosition(body->0.position))
        } else {
            None
        }
    } else {
        None
    }
}

/// Synchronizes the updated placements of engine bodies back to the pose
/// components of their entities.
#[derive(Clone, Copy, Debug, Default, PartialEq, Eq, Structural)]
pub struct SyncPositionsFromPhysicsSystem;

impl SyncPositionsFromPhysicsSystem {
    /// One frame of pose read-back: every entity with a live dynamic body
    /// shows that body's placement afterwards; every other pose is left
    /// alone.
    pub fn run(
        &mut self,
        physics: &Physics,
        physics_bodies: &FlaggedStorage<PhysicsBody>,
        positions: &mut FlaggedStorage<SimplePosition>,
    )
        requires
            old(positions).wf(),
            physics_bodies.wf(),
        ensures
            final(positions).wf(),
            forall|e: u32|
                final(positions).spec_get(e) == (match spec_readback(
                    *physics,
                    *physics_bodies,
                    *old(positions),
                    e,
                ) {
                    Some(p) => Some(p),
                    None => old(positions).spec_get(e),
                }),
    {
        let ghost orig = *positions;
        let bound = physics_bodies.entity_bound();
        let mut e: usize = 0;
        while e < bound
            invariant
                positions.wf(),
                e <= bound,
                bound <= u32::MAX as int + 1,
                forall|x: int| x >= bound ==> physics_bodies.data.spec_get(x) is None,
                forall|x: u32|
                    x < e ==> final_matches(*physics, *physics_bodies, orig, *positions, x),
                forall|x: u32| x >= e ==> positions.spec_get(x) == orig.spec_get(x),
            decreases bound - e,
        {
            let id = e as u32;
            let ghost pre = *positions;
            let step: Option<SimplePosition> = match physics_bodies.get(id) {
                Some(pb) => match pb.handle {
                    Some(h) => if positions.contains(id) {
                        match physics.world.rigid_body(h) {
                            Some(rb) => if rb.status == BodyStatus::Dynamic {
                                Some(SimplePosition(rb.position))
                            } else {
                                None
                            },
                            None => None,
                        }
                    } else {
                        None
                    },
                    None => None,
                },
                None => None,
            };
            match step {
                Some(p) => {
                    let _ = positions.modify(id, p);
                },
                None => {},
            }
            proof {
                assert forall|x: u32|
                    x < e + 1 implies final_matches(
                    *physics,
                    *physics_bodies,
                    orig,
                    *positions,
                    x,
                ) by {
                    if x == id {
                        assert(pre.spec_get(x) == orig.spec_get(x));
                        match step {
                            Some(p) => {
                                assert(positions.spec_get(id) == Some(p));
                                assert(spec_readback(*physics, *physics_bodies, orig, id)
                                    == Some(p));
                            },
                            None => {
                                assert(positions.spec_get(id) == orig.spec_get(id));
                                assert(spec_readback(*physics, *physics_bodies, orig, id)
                                    is None);
                            },
                        }
                    } else if x < e {
                        assert(final_matches(*physics, *physics_bodies, orig, pre, x));
                        assert(positions.spec_get(x) == pre.spec_get(x));
                    }
                }
                assert forall|x: u32| x >= e + 1 implies positions.spec_get(x) == orig.spec_get(
                    x,
                ) by {
                    assert(pre.spec_get(x) == orig.spec_get(x));
                }
            }
            e = e + 1;
        }
        proof {
            assert forall|x: u32|
                final_matches(*physics, *physics_bodies, orig, *positions, x) by {
                if x >= bound {
                    assert(physics_bodies.spec_get(x) is None);
                    assert(positions.spec_get(x) == orig.spec_get(x));
                }
            }
            assert forall|x: u32|
                final(positions).spec_get(x) == (match spec_readback(
                    *physics,
                    *physics_bodies,
                    orig,
                    x,
                ) {
                    Some(p) => Some(p),
                    None => orig.spec_get(x),
                }) by {
                assert(final_matches(*physics, *physics_bodies, orig, *positions, x));
            }
        }
    }
}

/// Whether `positions` shows for `x` exactly what the read-back of
/// `orig` prescribes.
pub open spec fn final_matches(
    physics: Physics,
    physics_bodies: FlaggedStorage<PhysicsBody>,
    orig: FlaggedStorage<SimplePosition>,
    positions: FlaggedStorage<SimplePosition>,
    x: u32,
) -> bool {
    positions.spec_get(x) == (match spec_readback(physics, physics_bodies, orig, x) {
        Some(p) => Some(p),
        None => orig.spec_get(x),
    })
}

} // verus!
