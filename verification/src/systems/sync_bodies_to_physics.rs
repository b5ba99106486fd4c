//! The body synchronization stage: reconciles body components with the
//! engine-facing store.
//!
//! Each frame the stage drains the change events of the pose and body
//! storages and partitions the mentioned entities. Removed entities lose
//! their registered engine body; freshly inserted entities get a new one —
//! removing any stale object first, so a replacement never leaves two live
//! bodies — and modified entities have their engine body updated in
//! place, with a direct teleport when the pose itself changed.

use vstd::prelude::*;
use crate::bodies::{Force, PhysicsBody};
use crate::handle::BodyHandle;
use crate::index_map::IndexSet;
use crate::pose::SimplePosition;
use crate::storage::{iterate_component_events, ComponentEvent, FlaggedStorage, ReaderId};
use crate::world::{cascade_removal, Physics, RigidBody};

verus! {

/// The engine body described by component `pb` at pose `position`, stamped
/// with entity `id`: what a fresh insertion creates.
pub open spec fn spec_described_body(pb: PhysicsBody, position: SimplePosition, id: u32)
    -> RigidBody {
    RigidBody {
        position: position.0,
        velocity: pb.velocity,
        angular_inertia: pb.angular_inertia,
        mass: pb.mass,
        local_center_of_mass: pb.local_center_of_mass,
        gravity_enabled: pb.gravity_enabled,
        status: pb.body_status,
        user_data: Some(id),
        applied_force: pb.external_forces,
    }
}

/// The engine body `b` after an in-place update from component `pb` and
/// pose `position`: component fields overwrite the body's when the body
/// component changed, and the pose overwrites the engine position — an
/// explicit teleport — when the pose changed.
pub open spec fn spec_updated_body(
    b: RigidBody,
    pb: PhysicsBody,
    position: SimplePosition,
    body_modified: bool,
    position_modified: bool,
) -> RigidBody {
    let b1 = if body_modified {
        RigidBody {
            velocity: pb.velocity,
            angular_inertia: pb.angular_inertia,
            mass: pb.mass,
            local_center_of_mass: pb.local_center_of_mass,
            gravity_enabled: pb.gravity_enabled,
            status: pb.body_status,
            applied_force: pb.external_forces,
            ..b
        }
    } else {
        b
    };
    if position_modified {
        RigidBody { position: position.0, ..b1 }
    } else {
        b1
    }
}

/// Creates a fresh engine body for entity `id` from its body component and
/// current pose, after clearing any stale handle: the registry entry and
/// the engine object it pointed at are removed first, so a duplicate
/// insertion replaces rather than leaks. The new handle is registered and
/// written back into the component, and the queued one-shot force is
/// applied and cleared.
pub fn add_rigid_body(
    id: u32,
    position: &SimplePosition,
    physics: &mut Physics,
    physics_body: &mut PhysicsBody,
)
    requires
        old(physics).wf(),
        old(physics).world.spec_can_add_body(),
    ensures
        final(physics).wf(),
        final(physics_body).handle matches Some(h) && {
            &&& final(physics).body_handles.spec_lookup(id) == Some(h.0)
            &&& final(physics).world.spec_body(h.0 as int) == Some(
                spec_described_body(*old(physics_body), *position, id),
            )
            &&& old(physics).world.spec_body(h.0 as int) is None
            &&& h.0 == old(physics).world.next_body_handle
        },
        *final(physics_body) == (PhysicsBody {
            handle: final(physics_body).handle,
            external_forces: Force::zero_spec(),
            ..*old(physics_body)
        }),
        forall|e: u32|
            e != id ==> final(physics).body_handles.spec_lookup(e) == old(physics).body_handles.spec_lookup(e),
        forall|e: u32|
            final(physics).collider_handles.spec_lookup(e) == old(physics).collider_handles.spec_lookup(e),
        match old(physics).body_handles.spec_lookup(id) {
            Some(stale) => {
                &&& final(physics).world.spec_body(stale as int) is None
                &&& forall|k: int|
                    k != stale as int && k != old(physics).world.next_body_handle as int ==> final(physics).world.spec_body(k) == old(physics).world.spec_body(k)
                &&& forall|k: int|
                    final(physics).world.spec_collider(k) == cascade_removal(
                        old(physics).world.spec_collider(k),
                        seq![BodyHandle(stale)],
                    )
                &&& final(physics).world.spec_body_count() == old(physics).world.spec_body_count()
            },
            None => {
                &&& forall|k: int|
                    k != old(physics).world.next_body_handle as int ==> final(physics).world.spec_body(k) == old(physics).world.spec_body(k)
                &&& forall|k: int|
                    final(physics).world.spec_collider(k) == old(physics).world.spec_collider(k)
                &&& final(physics).world.spec_body_count() == old(physics).world.spec_body_count()
                    + 1
            },
        },
        final(physics).world.next_body_handle == old(physics).world.next_body_handle + 1,
        final(physics).world.gravity == old(physics).world.gravity,
        final(physics).world.timestep == old(physics).world.timestep,
        final(physics).world.step_count == old(physics).world.step_count,
{
    let ghost orig = *physics;
    // Duplicate-insertion guard: clear any stale handle and engine object
    // before creating the replacement.
    remove_rigid_body(id, physics);
    let ghost mid = *physics;
    let force = physics_body.drain_external_force();
    let handle = physics_body
        .to_rigid_body_desc()
        .position(position.0)
        .user_data(id)
        .build(&mut physics.world);
    let body = match physics.world.rigid_body(handle) {
        Some(b) => {
            let mut b2 = *b;
            b2.applied_force = force;
            b2
        },
        None => RigidBody {
            position: position.0,
            velocity: physics_body.velocity,
            angular_inertia: physics_body.angular_inertia,
            mass: physics_body.mass,
            local_center_of_mass: physics_body.local_center_of_mass,
            gravity_enabled: physics_body.gravity_enabled,
            status: physics_body.body_status,
            user_data: Some(id),
            applied_force: force,
        },
    };
    let _ = physics.world.set_rigid_body(handle, body);
    physics_body.handle = Some(handle);
    let _ = physics.body_handles.register(id, handle.0);
    proof {
        let fp = *physics;
        let h = handle.0 as int;
        assert forall|k: int|
            #[trigger] fp.world.spec_collider(k) == mid.world.spec_collider(k) by {}
        assert forall|e: u32|
            #[trigger] fp.collider_handles.spec_lookup(e) == mid.collider_handles.spec_lookup(
                e,
            ) by {}
        assert forall|k: int|
            k != h ==> #[trigger] fp.world.spec_body(k) == mid.world.spec_body(k) by {}
        assert forall|e: u32| #[trigger] fp.body_handles.spec_lookup(e) is Some implies {
            let hh = fp.body_handles.spec_lookup(e)->Some_0;
            &&& fp.world.spec_body(hh as int) is Some
            &&& fp.world.spec_body(hh as int)->Some_0.user_data == Some(e)
        } by {
            let hh = fp.body_handles.spec_lookup(e)->Some_0;
            if e != id {
                assert(mid.body_handles.spec_lookup(e) == fp.body_handles.spec_lookup(e));
                assert(mid.world.spec_body(hh as int) is Some);
                assert(hh as int != h) by {
                    assert(mid.world.spec_body(h) is None);
                }
            }
        }
        assert forall|k: int| #[trigger] fp.world.spec_body(k) is Some
            && fp.world.spec_body(k)->Some_0.user_data is Some implies {
            let e = fp.world.spec_body(k)->Some_0.user_data->0;
            0 <= k < u32::MAX && fp.body_handles.spec_lookup(e) == Some(k as u32)
        } by {
            let e = fp.world.spec_body(k)->Some_0.user_data->0;
            if k != h {
                assert(mid.world.spec_body(k) == fp.world.spec_body(k));
                assert(mid.body_handles.spec_lookup(e) == Some(k as u32));
                assert(e != id) by {
                    assert(!mid.body_handles.spec_contains(id));
                }
                assert(fp.body_handles.spec_lookup(e) == mid.body_handles.spec_lookup(e));
            }
        }
        assert forall|e: u32| #[trigger] fp.collider_handles.spec_lookup(e) is Some
            && fp.world.spec_collider(
            fp.collider_handles.spec_lookup(e)->0 as int,
        ) is Some implies fp.world.spec_collider(
            fp.collider_handles.spec_lookup(e)->0 as int,
        )->Some_0.user_data == Some(e) by {
            let hh = fp.collider_handles.spec_lookup(e)->0;
            assert(mid.collider_handles.spec_lookup(e) is Some);
            assert(mid.world.spec_collider(hh as int) is Some);
        }
        assert forall|k: int| #[trigger] fp.world.spec_collider(k) is Some
            && fp.world.spec_collider(k)->Some_0.user_data is Some implies {
            let e = fp.world.spec_collider(k)->Some_0.user_data->0;
            0 <= k < u32::MAX && fp.collider_handles.spec_lookup(e) == Some(k as u32)
        } by {
            assert(mid.world.spec_collider(k) is Some);
        }
    }
}

/// Updates the engine body of entity `id` in place from its component —
/// and, when the pose changed this frame, teleports it to the current
/// pose. The registry is consulted as the source of truth for which
/// engine body the entity owns; an entity without a registered handle is
/// an orphan, logged and skipped, never fatal. The component's queued
/// force is applied and cleared when the body component changed.
pub fn update_rigid_body(
    id: u32,
    position: &SimplePosition,
    physics: &mut Physics,
    physics_body: &mut PhysicsBody,
    modified_positions: &IndexSet,
    modified_physics_bodies: &IndexSet,
)
    requires
        old(physics).wf(),
    ensures
        final(physics).wf(),
        final(physics).body_handles == old(physics).body_handles,
        final(physics).collider_handles == old(physics).collider_handles,
        ({
            match old(physics).body_handles.spec_lookup(id) {
                Some(h) => {
                    &&& old(physics).world.spec_body(h as int) matches Some(b) && final(physics).world.spec_body(h as int) == Some(
                        spec_updated_body(
                            b,
                            *old(physics_body),
                            *position,
                            modified_physics_bodies.spec_contains(id),
                            modified_positions.spec_contains(id),
                        ),
                    )
                    &&& forall|k: int|
                        k != h as int ==> final(physics).world.spec_body(k) == old(physics).world.spec_body(k)
                    &&& *final(physics_body) == (PhysicsBody {
                        external_forces: (if modified_physics_bodies.spec_contains(id) {
                            Force::zero_spec()
                        } else {
                            old(physics_body).external_forces
                        }),
                        ..*old(physics_body)
                    })
                },
                None => {
                    &&& final(physics).world == old(physics).world
                    &&& *final(physics_body) == *old(physics_body)
                },
            }
        }),
        forall|k: int|
            final(physics).world.spec_collider(k) == old(physics).world.spec_collider(k),
        final(physics).world.spec_body_count() == old(physics).world.spec_body_count(),
        final(physics).world.next_body_handle == old(physics).world.next_body_handle,
        final(physics).world.gravity == old(physics).world.gravity,
        final(physics).world.timestep == old(physics).world.timestep,
        final(physics).world.step_count == old(physics).world.step_count,
{
    let ghost orig = *physics;
    let registered = physics.body_handles.lookup(id);
    match registered {
        Some(h) => {
            let handle = BodyHandle(h);
            let found = match physics.world.rigid_body(handle) {
                Some(b) => Some(*b),
                None => None,
            };
            match found {
                Some(b) => {
                    let mut updated = b;
                    if modified_physics_bodies.contains(id) {
                        physics_body.apply_to_physics_world(&mut updated);
                    }
                    if modified_positions.contains(id) {
                        updated.position = position.0;
                    }
                    let _ = physics.world.set_rigid_body(handle, updated);
                    proof {
                        let fp = *physics;
                        assert(fp.world.spec_body(handle.0 as int)->Some_0.user_data
                            == b.user_data);
                        assert forall|k: int|
                            #[trigger] fp.world.spec_collider(k) == orig.world.spec_collider(
                                k,
                            ) by {}
                        assert forall|e: u32|
                            #[trigger] fp.body_handles.spec_lookup(e) is Some implies {
                            let hh = fp.body_handles.spec_lookup(e)->Some_0;
                            &&& fp.world.spec_body(hh as int) is Some
                            &&& fp.world.spec_body(hh as int)->Some_0.user_data == Some(e)
                        } by {
                            let hh = fp.body_handles.spec_lookup(e)->Some_0;
                            assert(orig.body_handles.spec_lookup(e) == Some(hh));
                            if hh as int != handle.0 as int {
                                assert(orig.world.spec_body(hh as int) == fp.world.spec_body(
                                    hh as int,
                                ));
                            }
                        }
                        assert forall|k: int| #[trigger] fp.world.spec_body(k) is Some
                            && fp.world.spec_body(k)->Some_0.user_data is Some implies {
                            let e = fp.world.spec_body(k)->Some_0.user_data->0;
                            0 <= k < u32::MAX && fp.body_handles.spec_lookup(e) == Some(k as u32)
                        } by {
                            if k != handle.0 as int {
                                assert(orig.world.spec_body(k) == fp.world.spec_body(k));
                            }
                        }
                    }
                },
                None => {
                    proof {
                        // A registered handle always points at a live
                        // body in a well-formed world.
                        assert(orig.world.spec_body(h as int) is Some);
                    }
                },
            }
        },
        None => {},
    }
}

/// Removes entity `id`'s engine body: the registry entry is taken out and
/// the engine object removed, together with any colliders attached to it.
/// Idempotent: an entity without a registered handle is an orphan, logged
/// and skipped, never fatal.
pub fn remove_rigid_body(id: u32, physics: &mut Physics)
    requires
        old(physics).wf(),
    ensures
        final(physics).wf(),
        !final(physics).body_handles.spec_contains(id),
        forall|e: u32|
            e != id ==> final(physics).body_handles.spec_lookup(e) == old(physics).body_handles.spec_lookup(e),
        forall|e: u32|
            final(physics).collider_handles.spec_lookup(e) == old(physics).collider_handles.spec_lookup(e),
        match old(physics).body_handles.spec_lookup(id) {
            Some(h) => {
                &&& final(physics).world.spec_body(h as int) is None
                &&& forall|k: int|
                    k != h as int ==> final(physics).world.spec_body(k) == old(physics).world.spec_body(k)
                &&& forall|k: int|
                    final(physics).world.spec_collider(k) == cascade_removal(
                        old(physics).world.spec_collider(k),
                        seq![BodyHandle(h)],
                    )
                &&& final(physics).world.spec_body_count() == old(physics).world.spec_body_count()
                    - 1
            },
            None => final(physics).world == old(physics).world,
        },
        final(physics).world.next_body_handle == old(physics).world.next_body_handle,
        final(physics).world.gravity == old(physics).world.gravity,
        final(physics).world.timestep == old(physics).world.timestep,
        final(physics).world.step_count == old(physics).world.step_count,
{
    let ghost orig = *physics;
    match physics.body_handles.unregister(id) {
        Some(h) => {
            let mut doomed: Vec<BodyHandle> = Vec::new();
            doomed.push(BodyHandle(h));
            proof {
                assert(doomed@ =~= seq![BodyHandle(h)]);
            }
            physics.world.remove_bodies(&doomed);
            proof {
                let fp = *physics;
                assert(orig.world.spec_body(h as int) is Some);
                assert forall|k: int| #[trigger] fp.world.spec_body(k) is Some
                    && fp.world.spec_body(k)->Some_0.user_data is Some implies {
                    let e = fp.world.spec_body(k)->Some_0.user_data->0;
                    0 <= k < u32::MAX && fp.body_handles.spec_lookup(e) == Some(k as u32)
                } by {
                    let e = fp.world.spec_body(k)->Some_0.user_data->0;
                    assert(orig.world.spec_body(k) == fp.world.spec_body(k));
                    assert(orig.body_handles.spec_lookup(e) == Some(k as u32));
                    assert(e != id) by {
                        if e == id {
                            assert(k == h as int);
                        }
                    }
                }
                assert forall|e: u32| #[trigger] fp.collider_handles.spec_lookup(e) is Some
                    && fp.world.spec_collider(
                    fp.collider_handles.spec_lookup(e)->0 as int,
                ) is Some implies fp.world.spec_collider(
                    fp.collider_handles.spec_lookup(e)->0 as int,
                )->Some_0.user_data == Some(e) by {
                    let hh = fp.collider_handles.spec_lookup(e)->0;
                    assert(fp.world.spec_collider(hh as int) == cascade_removal(
                        orig.world.spec_collider(hh as int),
                        seq![BodyHandle(h)],
                    ));
                }
                assert forall|k: int| #[trigger] fp.world.spec_collider(k) is Some
                    && fp.world.spec_collider(k)->Some_0.user_data is Some implies {
                    let e = fp.world.spec_collider(k)->Some_0.user_data->0;
                    0 <= k < u32::MAX && fp.collider_handles.spec_lookup(e) == Some(k as u32)
                } by {
                    assert(fp.world.spec_collider(k) == cascade_removal(
                        orig.world.spec_collider(k),
                        seq![BodyHandle(h)],
                    ));
                }
            }
        },
        None => {},
    }
}

} // verus!

verus! {

/// Insertion is idempotent under duplicate events: after
/// [`add_rigid_body`] registered a fresh handle for an entity — its
/// contract says the previously registered engine object was removed
/// first — the world holds exactly one live body stamped with that
/// entity, namely the registered one. Processing the same insertion
/// again replaces that one body instead of accumulating a second.
pub proof fn lemma_insertion_idempotent(p: Physics, e: u32, k: int)
    requires
        p.wf(),
        p.body_handles.spec_lookup(e) is Some,
        p.world.spec_body(k) matches Some(b) && b.user_data == Some(e),
    ensures
        k == p.body_handles.spec_lookup(e)->0 as int,
        p.world.spec_body(p.body_handles.spec_lookup(e)->0 as int) is Some,
{
    assert(p.body_handles.spec_lookup(e) == Some(k as u32));
}

/// Whether, in `physics`, entity `e` has a registered body handle whose
/// engine body is exactly the one described by `e`'s components: the body
/// component value in `orig_bodies` at the pose in `positions`.
pub open spec fn spec_insertion_settled(
    physics: Physics,
    positions: FlaggedStorage<SimplePosition>,
    orig_bodies: FlaggedStorage<PhysicsBody>,
    e: u32,
) -> bool {
    let h = physics.body_handles.spec_lookup(e);
    &&& h is Some
    &&& physics.world.spec_body(h->0 as int) == Some(
        spec_described_body(orig_bodies.spec_get(e)->0, positions.spec_get(e)->0, e),
    )
}

/// Whether `events` mention entity `e` at all.
pub open spec fn spec_mentions(events: Seq<ComponentEvent>, e: u32) -> bool {
    ||| events.contains(ComponentEvent::Inserted(e))
    ||| events.contains(ComponentEvent::Modified(e))
    ||| events.contains(ComponentEvent::Removed(e))
}

/// The body synchronization stage. Holds the two persistent reader
/// cursors — established once in [`Self::setup`] — into the pose and body
/// component logs.
pub struct SyncBodiesToPhysicsSystem {
    pub positions_reader_id: Option<ReaderId>,
    pub physics_bodies_reader_id: Option<ReaderId>,
}

impl Default for SyncBodiesToPhysicsSystem {
    /// A stage with no readers yet; call [`SyncBodiesToPhysicsSystem::setup`]
    /// before the first run.
    fn default() -> (r: SyncBodiesToPhysicsSystem)
        ensures
            r.positions_reader_id is None,
            r.physics_bodies_reader_id is None,
    {
        SyncBodiesToPhysicsSystem { positions_reader_id: None, physics_bodies_reader_id: None }
    }
}

impl SyncBodiesToPhysicsSystem {
    /// Establishes the persistent reader cursors. Must run once before the
    /// first frame; skipping it is a setup error the stage refuses to run
    /// with.
    pub fn setup(
        &mut self,
        positions: &FlaggedStorage<SimplePosition>,
        physics_bodies: &FlaggedStorage<PhysicsBody>,
    )
        ensures
            final(self).positions_reader_id == Some(
                ReaderId { cursor: positions.spec_events().len() as usize },
            ),
            final(self).physics_bodies_reader_id == Some(
                ReaderId { cursor: physics_bodies.spec_events().len() as usize },
            ),
    {
        self.positions_reader_id = Some(positions.register_reader());
        self.physics_bodies_reader_id = Some(physics_bodies.register_reader());
    }

    /// One frame of body synchronization: drains both change logs exactly
    /// once, removes the engine bodies of removed entities, creates fresh
    /// engine bodies for inserted entities that carry both a pose and a
    /// body component — replacing any stale object — and updates the
    /// bodies of entities that were only modified.
    pub fn run(
        &mut self,
        positions: &FlaggedStorage<SimplePosition>,
        physics: &mut Physics,
        physics_bodies: &mut FlaggedStorage<PhysicsBody>,
    )
        requires
            old(self).positions_reader_id matches Some(pr) && pr.cursor
                <= positions.spec_events().len(),
            old(self).physics_bodies_reader_id matches Some(br) && br.cursor <= old(physics_bodies).spec_events().len(),
            old(physics).wf(),
            old(physics_bodies).wf(),
            old(physics).world.next_body_handle as int + (positions.spec_events().len() - old(self).positions_reader_id->0.cursor) + (old(physics_bodies).spec_events().len() - old(self).physics_bodies_reader_id->0.cursor) < u32::MAX as int,
        ensures
            final(physics).wf(),
            final(physics_bodies).wf(),
            final(physics).world.step_count == old(physics).world.step_count,
            final(self).positions_reader_id matches Some(pr2) && pr2.cursor
                == positions.spec_events().len(),
            final(self).physics_bodies_reader_id matches Some(br2) && br2.cursor == old(physics_bodies).spec_events().len() && br2.cursor <= final(physics_bodies).spec_events().len(),
            ({
                let pos_new = positions.spec_events().skip(
                    old(self).positions_reader_id->0.cursor as int,
                );
                let body_new = old(physics_bodies).spec_events().skip(
                    old(self).physics_bodies_reader_id->0.cursor as int,
                );
                &&& forall|e: u32|
                    !spec_mentions(pos_new, e) && !spec_mentions(body_new, e) ==> final(physics).body_handles.spec_lookup(e) == old(physics).body_handles.spec_lookup(e)
                        && final(physics_bodies).spec_get(e) == old(physics_bodies).spec_get(e)
                &&& forall|e: u32|
                    (pos_new.contains(ComponentEvent::Removed(e)) || body_new.contains(
                        ComponentEvent::Removed(e),
                    )) && !(pos_new.contains(ComponentEvent::Inserted(e)) || body_new.contains(
                        ComponentEvent::Inserted(e),
                    )) ==> !final(physics).body_handles.spec_contains(e)
                &&& forall|e: u32|
                    (pos_new.contains(ComponentEvent::Inserted(e)) || body_new.contains(
                        ComponentEvent::Inserted(e),
                    )) && positions.spec_get(e) is Some && old(physics_bodies).spec_get(e) is Some
                        ==> spec_insertion_settled(
                        *final(physics),
                        *positions,
                        *old(physics_bodies),
                        e,
                    )
                &&& forall|e: u32|
                    !spec_mentions(pos_new, e) && !spec_mentions(body_new, e) ==> (old(physics).body_handles.spec_lookup(e) matches Some(h) ==> final(physics).world.spec_body(h as int) == old(physics).world.spec_body(h as int))
                &&& forall|k: int|
                    (#[trigger] final(physics).world.spec_body(k)) matches Some(b) ==> (
                    b.user_data is None ==> old(physics).world.spec_body(k) == Some(b))
            }),
    {
        let ghost orig_physics = *physics;
        let ghost orig_bodies = *physics_bodies;
        let mut pos_reader = match self.positions_reader_id {
            Some(r) => r,
            None => ReaderId { cursor: 0 },
        };
        let mut body_reader = match self.physics_bodies_reader_id {
            Some(r) => r,
            None => ReaderId { cursor: 0 },
        };
        let (inserted_positions, modified_positions, removed_positions) = iterate_component_events(
            positions,
            &mut pos_reader,
        );
        let (inserted_bodies, modified_bodies, removed_bodies) = iterate_component_events(
            physics_bodies,
            &mut body_reader,
        );
        self.positions_reader_id = Some(pos_reader);
        self.physics_bodies_reader_id = Some(body_reader);
        let ghost pos_new = positions.spec_events().skip(
            old(self).positions_reader_id->0.cursor as int,
        );
        let ghost body_new = orig_bodies.spec_events().skip(
            old(self).physics_bodies_reader_id->0.cursor as int,
        );

        // Removal pass: spec removal events always reach the engine, also
        // for entities whose components are already gone.
        let removed_union = removed_positions.union(&removed_bodies);
        let mut i: usize = 0;
        while i < removed_union.len()
            invariant
                physics.wf(),
                physics_bodies.wf(),
                *physics_bodies == orig_bodies,
                physics.world.next_body_handle == orig_physics.world.next_body_handle,
                physics.world.step_count == orig_physics.world.step_count,
                i <= removed_union.spec_items().len(),
                removed_union.wf(),
                forall|x: u32|
                    #[trigger] removed_union.spec_contains(x) == (pos_new.contains(
                        ComponentEvent::Removed(x),
                    ) || body_new.contains(ComponentEvent::Removed(x))),
                forall|k: int|
                    0 <= k < i ==> !physics.body_handles.spec_contains(
                        #[trigger] removed_union.spec_items()[k],
                    ),
                forall|e: u32|
                    !removed_union.spec_contains(e) ==> physics.body_handles.spec_lookup(e)
                        == orig_physics.body_handles.spec_lookup(e),
                forall|k: int|
                    #[trigger] physics.world.spec_body(k) is Some ==> physics.world.spec_body(k)
                        == orig_physics.world.spec_body(k),
            decreases removed_union.spec_items().len() - i,
        {
            let e = removed_union.index(i);
            remove_rigid_body(e, physics);
            proof {
                assert forall|k: int|
                    0 <= k < i + 1 implies !physics.body_handles.spec_contains(
                    #[trigger] removed_union.spec_items()[k],
                ) by {
                    if k < i {
                        assert(removed_union.spec_items()[k] != e || !physics.body_handles.spec_contains(e));
                    }
                }
            }
            i = i + 1;
        }
        let ghost after_removal = *physics;

        // Main pass: insertion takes precedence over modification for an
        // entity that saw both kinds of event this frame.
        let union_pos = inserted_positions.union(&modified_positions);
        let union_bodies = inserted_bodies.union(&modified_bodies);
        let changed = union_pos.union(&union_bodies);
        let mut i: usize = 0;
        while i < changed.len()
            invariant
                physics.wf(),
                physics_bodies.wf(),
                changed.wf(),
                i <= changed.spec_items().len(),
                physics.world.step_count == orig_physics.world.step_count,
                orig_bodies.spec_events().len() <= physics_bodies.spec_events().len(),
                physics.world.next_body_handle as int <= after_removal.world.next_body_handle as int
                    + i,
                after_removal.world.next_body_handle as int + changed.spec_items().len()
                    < u32::MAX as int,
                forall|x: u32|
                    #[trigger] changed.spec_contains(x) == (pos_new.contains(
                        ComponentEvent::Inserted(x),
                    ) || pos_new.contains(ComponentEvent::Modified(x)) || body_new.contains(
                        ComponentEvent::Inserted(x),
                    ) || body_new.contains(ComponentEvent::Modified(x))),
                forall|x: u32|
                    #[trigger] inserted_positions.spec_contains(x) == pos_new.contains(
                        ComponentEvent::Inserted(x),
                    ),
                forall|x: u32|
                    #[trigger] inserted_bodies.spec_contains(x) == body_new.contains(
                        ComponentEvent::Inserted(x),
                    ),
                forall|e: u32|
                    !changed.spec_contains(e) ==> physics.body_handles.spec_lookup(e)
                        == after_removal.body_handles.spec_lookup(e),
                forall|e: u32|
                    !changed.spec_contains(e) ==> physics_bodies.spec_get(e) == orig_bodies.spec_get(
                        e,
                    ),
                forall|k: int|
                    i <= k < changed.spec_items().len() ==> physics_bodies.spec_get(
                        #[trigger] changed.spec_items()[k],
                    ) == orig_bodies.spec_get(changed.spec_items()[k]),
                forall|k: int|
                    i <= k < changed.spec_items().len() ==> physics.body_handles.spec_lookup(
                        #[trigger] changed.spec_items()[k],
                    ) == after_removal.body_handles.spec_lookup(changed.spec_items()[k]),
                forall|e: u32|
                    (removed_union.spec_contains(e) && !(inserted_positions.spec_contains(e)
                        || inserted_bodies.spec_contains(e)))
                        ==> !physics.body_handles.spec_contains(e),
                forall|x: u32|
                    #[trigger] removed_union.spec_contains(x) == (pos_new.contains(
                        ComponentEvent::Removed(x),
                    ) || body_new.contains(ComponentEvent::Removed(x))),
                forall|e: u32|
                    !removed_union.spec_contains(e) ==> after_removal.body_handles.spec_lookup(e)
                        == orig_physics.body_handles.spec_lookup(e),
                after_removal.wf(),
                forall|k: int|
                    #[trigger] after_removal.world.spec_body(k) is Some
                        ==> after_removal.world.spec_body(k) == orig_physics.world.spec_body(k),
                forall|k: int|
                    #[trigger] physics.world.spec_body(k) is Some && physics.world.spec_body(
                        k,
                    )->Some_0.user_data is None ==> after_removal.world.spec_body(k)
                        == physics.world.spec_body(k),
                forall|e: u32|
                    !changed.spec_contains(e) ==> (after_removal.body_handles.spec_lookup(e) matches Some(h) ==> physics.world.spec_body(h as int) == after_removal.world.spec_body(h as int)),
                forall|k: int|
                    0 <= k < i ==> ((inserted_positions.spec_contains(
                        #[trigger] changed.spec_items()[k],
                    ) || inserted_bodies.spec_contains(changed.spec_items()[k]))
                        && positions.spec_get(changed.spec_items()[k]) is Some
                        && orig_bodies.spec_get(changed.spec_items()[k]) is Some
                        ==> spec_insertion_settled(
                        *physics,
                        *positions,
                        orig_bodies,
                        changed.spec_items()[k],
                    )),
            decreases changed.spec_items().len() - i,
        {
            let e = changed.index(i);
            let pos_found: Option<SimplePosition> = match positions.get(e) {
                Some(p) => Some(*p),
                None => None,
            };
            let body_found: Option<PhysicsBody> = match physics_bodies.get(e) {
                Some(b) => Some(*b),
                None => None,
            };
            let ghost pre_iter = *physics;
            match (pos_found, body_found) {
                (Some(position), Some(body_component)) => {
                    if inserted_positions.contains(e) || inserted_bodies.contains(e) {
                        let mut physics_body = body_component;
                        add_rigid_body(e, &position, physics, &mut physics_body);
                        let _ = physics_bodies.modify(e, physics_body);
                    } else if modified_positions.contains(e) || modified_bodies.contains(e) {
                        let mut physics_body = body_component;
                        update_rigid_body(
                            e,
                            &position,
                            physics,
                            &mut physics_body,
                            &modified_positions,
                            &modified_bodies,
                        );
                        let _ = physics_bodies.modify(e, physics_body);
                    }
                },
                _ => {},
            }
            proof {
                assert forall|k: int|
                    i + 1 <= k < changed.spec_items().len() implies physics_bodies.spec_get(
                    #[trigger] changed.spec_items()[k],
                ) == orig_bodies.spec_get(changed.spec_items()[k]) by {
                    assert(changed.spec_items()[k] != changed.spec_items()[i as int]);
                }
                assert forall|k: int|
                    i + 1 <= k < changed.spec_items().len() implies physics.body_handles.spec_lookup(
                    #[trigger] changed.spec_items()[k],
                ) == after_removal.body_handles.spec_lookup(changed.spec_items()[k]) by {
                    assert(changed.spec_items()[k] != changed.spec_items()[i as int]);
                }
                assert forall|k: int|
                    0 <= k < i + 1 implies ((inserted_positions.spec_contains(
                        #[trigger] changed.spec_items()[k],
                    ) || inserted_bodies.spec_contains(changed.spec_items()[k]))
                        && positions.spec_get(changed.spec_items()[k]) is Some
                        && orig_bodies.spec_get(changed.spec_items()[k]) is Some
                        ==> spec_insertion_settled(
                        *physics,
                        *positions,
                        orig_bodies,
                        changed.spec_items()[k],
                    )) by {
                    let x = changed.spec_items()[k];
                    if (inserted_positions.spec_contains(x) || inserted_bodies.spec_contains(x))
                        && positions.spec_get(x) is Some && orig_bodies.spec_get(x) is Some {
                        if k < i {
                            assert(x != changed.spec_items()[i as int]);
                            assert(spec_insertion_settled(pre_iter, *positions, orig_bodies, x));
                            let hx = pre_iter.body_handles.spec_lookup(x)->0;
                            assert(physics.body_handles.spec_lookup(x)
                                == pre_iter.body_handles.spec_lookup(x));
                            assert(pre_iter.world.spec_body(hx as int)->Some_0.user_data == Some(
                                x,
                            ));
                            assert(physics.world.spec_body(hx as int) == pre_iter.world.spec_body(
                                hx as int,
                            )) by {
                                match pre_iter.body_handles.spec_lookup(e) {
                                    Some(stale) => {
                                        assert(pre_iter.world.spec_body(stale as int) is Some
                                            ==> pre_iter.world.spec_body(
                                            stale as int,
                                        )->Some_0.user_data == Some(e));
                                        assert(hx != stale);
                                    },
                                    None => {},
                                }
                            }
                        } else {
                            assert(x == e);
                        }
                    }
                }
            }
            i = i + 1;
        }
        proof {
            assert forall|e: u32|
                (pos_new.contains(ComponentEvent::Inserted(e)) || body_new.contains(
                    ComponentEvent::Inserted(e),
                )) && positions.spec_get(e) is Some && orig_bodies.spec_get(e) is Some implies spec_insertion_settled(*physics, *positions, orig_bodies, e) by {
                assert(changed.spec_contains(e));
                let k = choose|k: int|
                    0 <= k < changed.spec_items().len() && changed.spec_items()[k] == e;
                assert(spec_insertion_settled(
                    *physics,
                    *positions,
                    orig_bodies,
                    changed.spec_items()[k],
                ));
            }
            assert forall|e: u32|
                (pos_new.contains(ComponentEvent::Removed(e)) || body_new.contains(
                    ComponentEvent::Removed(e),
                )) && !(pos_new.contains(ComponentEvent::Inserted(e)) || body_new.contains(
                    ComponentEvent::Inserted(e),
                )) implies !physics.body_handles.spec_contains(e) by {
                assert(removed_union.spec_contains(e));
                assert(!inserted_positions.spec_contains(e));
                assert(!inserted_bodies.spec_contains(e));
            }
            assert forall|e: u32|
                !spec_mentions(pos_new, e) && !spec_mentions(body_new, e) implies physics.body_handles.spec_lookup(e) == orig_physics.body_handles.spec_lookup(e)
                && physics_bodies.spec_get(e) == orig_bodies.spec_get(e) by {
                assert(!removed_union.spec_contains(e));
                assert(!changed.spec_contains(e));
            }
            assert forall|e: u32|
                !spec_mentions(pos_new, e) && !spec_mentions(body_new, e) implies (orig_physics.body_handles.spec_lookup(e) matches Some(h) ==> physics.world.spec_body(h as int) == orig_physics.world.spec_body(h as int)) by {
                if orig_physics.body_handles.spec_lookup(e) is Some {
                    assert(!removed_union.spec_contains(e));
                    assert(!changed.spec_contains(e));
                    let h = orig_physics.body_handles.spec_lookup(e)->0;
                    assert(after_removal.body_handles.spec_lookup(e)
                        == orig_physics.body_handles.spec_lookup(e));
                    assert(after_removal.world.spec_body(h as int) is Some
                        && after_removal.world.spec_body(h as int)->Some_0.user_data == Some(e));
                    assert(after_removal.world.spec_body(h as int) == orig_physics.world.spec_body(
                        h as int,
                    ));
                    assert(physics.world.spec_body(h as int) == after_removal.world.spec_body(
                        h as int,
                    ));
                }
            }
            assert forall|k: int|
                (#[trigger] physics.world.spec_body(k)) is Some && physics.world.spec_body(
                    k,
                )->Some_0.user_data is None implies orig_physics.world.spec_body(k)
                == physics.world.spec_body(k) by {
                assert(after_removal.world.spec_body(k) == physics.world.spec_body(k));
            }
        }
    }
}

} // verus!
