//! The collider synchronization stage: reconciles collider components
//! with the engine-facing store.
//!
//! It runs after the body stage, because a collider may attach to a body
//! created in the same frame. For each changed collider entity the parent
//! is resolved — the entity's own live body first, then the body of an
//! explicit parent entity, and failing both the static ground frame — and
//! the collider's placement follows: an offset in the parent part's frame,
//! or, when attaching to ground, the entity's own pose composed with the
//! local offset.

use vstd::prelude::*;
use crate::colliders::PhysicsCollider;
use crate::handle::{BodyHandle, BodyPartHandle, ColliderHandle, PhysicsParent};
use crate::index_map::IndexSet;
use crate::pose::SimplePosition;
use crate::storage::{iterate_component_events, ComponentEvent, FlaggedStorage, ReaderId};
use crate::world::{ColliderDesc, ColliderPosition, CollisionObject, Physics};

verus! {

/// The body part a collider of entity `id` attaches to: the entity's own
/// live body if it has one, else the live body of the explicit parent
/// entity if resolvable, else the static ground frame.
pub open spec fn spec_resolved_parent(p: Physics, id: u32, parent: Option<u32>) -> BodyPartHandle {
    let own = p.body_handles.spec_lookup(id);
    if own is Some && p.world.spec_body(own->0 as int) is Some {
        BodyPartHandle { set_handle: BodyHandle(own->0), part_index: 0 }
    } else {
        if parent is Some && p.body_handles.spec_lookup(parent->0) is Some && p.world.spec_body(
            p.body_handles.spec_lookup(parent->0)->0 as int,
        ) is Some {
            BodyPartHandle {
                set_handle: BodyHandle(p.body_handles.spec_lookup(parent->0)->0),
                part_index: 0,
            }
        } else {
            BodyPartHandle::ground_spec()
        }
    }
}

/// The effective placement of a collider attached under `parent`: ground
/// attachment composes the entity's current pose with the local offset,
/// because ground supplies no base frame; a real body part supplies the
/// base frame every step, so the local offset is used directly.
pub open spec fn spec_collider_placement(
    parent: BodyPartHandle,
    pose: SimplePosition,
    offset: crate::math::Isometry,
) -> ColliderPosition {
    if parent.spec_is_ground() {
        ColliderPosition::GroundPlacement { base: pose.0, offset }
    } else {
        ColliderPosition::OffsetFromParent(offset)
    }
}

/// A collider with a resolvable parent sits at its local offset in the
/// parent part's frame; one with no resolvable parent sits, relative to
/// ground, at the composition of its entity's pose with the local offset
/// — the recorded pair determines that composed isometry exactly.
pub proof fn lemma_placement_isometry(parent: BodyPartHandle, pose: SimplePosition, offset: crate::math::Isometry)
    ensures
        parent.spec_is_ground() ==> spec_collider_placement(parent, pose, offset).spec_isometry()
            == crate::math::spec_compose(pose.0, offset),
        !parent.spec_is_ground() ==> spec_collider_placement(parent, pose, offset).spec_isometry()
            == offset,
{
}

/// The engine collider described by component `pc` for entity `id` under
/// `parent` at `placement`.
pub open spec fn spec_described_collider(
    pc: PhysicsCollider,
    parent: BodyPartHandle,
    placement: ColliderPosition,
    id: u32,
) -> CollisionObject {
    CollisionObject {
        shape: crate::colliders::ShapeHandle(pc.shape),
        parent,
        position: placement,
        density: pc.density,
        material: pc.material,
        margin: pc.margin,
        collision_groups: pc.collision_groups,
        linear_prediction: pc.linear_prediction,
        angular_prediction: pc.angular_prediction,
        sensor: pc.sensor,
        user_data: Some(id),
    }
}

/// Whether, in `physics`, entity `e` has a registered collider handle
/// whose engine collider is exactly the one described by `e`'s
/// components: the collider component value in `orig_colliders`, under
/// the parent resolved against `base` — the body registry and bodies are
/// not touched by this stage, so resolution is stable across it — at the
/// placement that parent dictates for the pose in `positions`.
pub open spec fn spec_collider_settled(
    physics: Physics,
    base: Physics,
    positions: FlaggedStorage<SimplePosition>,
    parents: FlaggedStorage<PhysicsParent>,
    orig_colliders: FlaggedStorage<PhysicsCollider>,
    e: u32,
) -> bool {
    let h = physics.collider_handles.spec_lookup(e);
    let parent = spec_resolved_parent(
        base,
        e,
        match parents.spec_get(e) {
            Some(pe) => Some(pe.entity),
            None => None,
        },
    );
    let placement = spec_collider_placement(
        parent,
        positions.spec_get(e)->0,
        orig_colliders.spec_get(e)->0.offset_from_parent,
    );
    &&& h is Some
    &&& physics.world.spec_collider(h->0 as int) == Some(
        spec_described_collider(orig_colliders.spec_get(e)->0, parent, placement, e),
    )
}

/// Creates a fresh engine collider for entity `id`, clearing any stale
/// handle first. The parent is resolved against the current registry and
/// the placement computed from it; the new handle is registered and
/// written back into the component.
pub fn add_collider(
    id: u32,
    parent_entity: Option<&PhysicsParent>,
    position: &SimplePosition,
    physics: &mut Physics,
    physics_collider: &mut PhysicsCollider,
)
    requires
        old(physics).wf(),
        old(physics).world.spec_can_add_collider(),
    ensures
        final(physics).wf(),
        ({
            let parent = spec_resolved_parent(
                *old(physics),
                id,
                match parent_entity {
                    Some(pe) => Some(pe.entity),
                    None => None,
                },
            );
            let placement = spec_collider_placement(
                parent,
                *position,
                old(physics_collider).offset_from_parent,
            );
            &&& final(physics_collider).handle matches Some(h) && {
                &&& final(physics).collider_handles.spec_lookup(id) == Some(h.0)
                &&& final(physics).world.spec_collider(h.0 as int) == Some(
                    spec_described_collider(*old(physics_collider), parent, placement, id),
                )
                &&& old(physics).world.spec_collider(h.0 as int) is None
            }
        }),
        *final(physics_collider) == (PhysicsCollider {
            handle: final(physics_collider).handle,
            ..*old(physics_collider)
        }),
        final(physics).body_handles == old(physics).body_handles,
        forall|e: u32|
            e != id ==> final(physics).collider_handles.spec_lookup(e) == old(physics).collider_handles.spec_lookup(e),
        forall|k: int| final(physics).world.spec_body(k) == old(physics).world.spec_body(k),
        match old(physics).collider_handles.spec_lookup(id) {
            Some(stale) => {
                &&& final(physics).world.spec_collider(stale as int) is None
                &&& forall|k: int|
                    k != stale as int && k != old(physics).world.next_collider_handle as int
                        ==> final(physics).world.spec_collider(k) == old(physics).world.spec_collider(k)
            },
            None => {
                &&& forall|k: int|
                    k != old(physics).world.next_collider_handle as int ==> final(physics).world.spec_collider(k) == old(physics).world.spec_collider(k)
                &&& final(physics).world.spec_collider_count() == old(physics).world.spec_collider_count() + 1
            },
        },
        final(physics).world.next_collider_handle == old(physics).world.next_collider_handle + 1,
        final(physics).world.next_body_handle == old(physics).world.next_body_handle,
        final(physics).world.gravity == old(physics).world.gravity,
        final(physics).world.timestep == old(physics).world.timestep,
        final(physics).world.step_count == old(physics).world.step_count,
{
    let ghost orig = *physics;
    // Duplicate-insertion guard: clear any stale handle and engine object
    // before creating the replacement.
    remove_collider(id, physics);
    let ghost mid = *physics;

    // Resolve the parent body part: own body first, then the explicit
    // parent entity's body, then ground.
    let own_part: Option<BodyPartHandle> = match physics.body_handles.lookup(id) {
        Some(ph) => match physics.world.rigid_body(BodyHandle(ph)) {
            Some(_) => Some(BodyPartHandle { set_handle: BodyHandle(ph), part_index: 0 }),
            None => None,
        },
        None => None,
    };
    let parent_part_handle: BodyPartHandle = match own_part {
        Some(part) => part,
        None => match parent_entity {
            Some(pe) => match physics.body_handles.lookup(pe.entity) {
                Some(ph) => match physics.world.rigid_body(BodyHandle(ph)) {
                    Some(_) => BodyPartHandle { set_handle: BodyHandle(ph), part_index: 0 },
                    None => BodyPartHandle::ground(),
                },
                None => BodyPartHandle::ground(),
            },
            None => BodyPartHandle::ground(),
        },
    };

    // Ground attachment has no parent frame, so the entity's own pose is
    // composed with the local offset; a real parent part supplies the
    // frame and the offset is used as is.
    let translation: ColliderPosition = if parent_part_handle.is_ground() {
        ColliderPosition::GroundPlacement {
            base: position.0,
            offset: physics_collider.offset_from_parent,
        }
    } else {
        ColliderPosition::OffsetFromParent(physics_collider.offset_from_parent)
    };

    let built = ColliderDesc::new(physics_collider.shape_handle())
        .position(translation)
        .density(physics_collider.density)
        .material(physics_collider.material)
        .margin(physics_collider.margin)
        .collision_groups(physics_collider.collision_groups)
        .linear_prediction(physics_collider.linear_prediction)
        .angular_prediction(physics_collider.angular_prediction)
        .sensor(physics_collider.sensor)
        .user_data(id)
        .build_with_parent(parent_part_handle, &mut physics.world);
    match built {
        Some(handle) => {
            physics_collider.handle = Some(handle);
            let _ = physics.collider_handles.register(id, handle.0);
            proof {
                let fp = *physics;
                let h = handle.0 as int;
                let parent_spec = spec_resolved_parent(
                    orig,
                    id,
                    match parent_entity {
                        Some(pe) => Some(pe.entity),
                        None => None,
                    },
                );
                assert(mid.body_handles == orig.body_handles);
                assert forall|k: int|
                    #[trigger] mid.world.spec_body(k) == orig.world.spec_body(k) by {}
                assert(parent_part_handle == parent_spec);
                assert(translation == spec_collider_placement(
                    parent_spec,
                    *position,
                    old(physics_collider).offset_from_parent,
                ));
                assert(fp.world.spec_collider(h) == Some(
                    spec_described_collider(*old(physics_collider), parent_spec, translation, id),
                ));
                assert forall|k: int|
                    #[trigger] fp.world.spec_body(k) == mid.world.spec_body(k) by {}
                assert forall|e: u32|
                    #[trigger] fp.body_handles.spec_lookup(e) == mid.body_handles.spec_lookup(
                        e,
                    ) by {}
                assert forall|k: int|
                    k != h ==> #[trigger] fp.world.spec_collider(k) == mid.world.spec_collider(
                        k,
                    ) by {}
                assert forall|e: u32| #[trigger] fp.collider_handles.spec_lookup(e) is Some
                    && fp.world.spec_collider(
                    fp.collider_handles.spec_lookup(e)->0 as int,
                ) is Some implies fp.world.spec_collider(
                    fp.collider_handles.spec_lookup(e)->0 as int,
                )->Some_0.user_data == Some(e) by {
                    let hh = fp.collider_handles.spec_lookup(e)->0;
                    if e != id {
                        assert(mid.collider_handles.spec_lookup(e) == fp.collider_handles.spec_lookup(e));
                        if hh as int != h {
                            assert(mid.world.spec_collider(hh as int) == fp.world.spec_collider(hh as int));
                        } else {
                            assert(mid.collider_handles.spec_lookup(e) == Some(hh));
                            assert(hh < mid.world.next_collider_handle);
                            assert(handle.0 == mid.world.next_collider_handle);
                        }
                    } else {
                        assert(fp.collider_handles.spec_lookup(id) == Some(handle.0));
                        assert(fp.world.spec_collider(h)->Some_0.user_data == Some(id));
                    }
                }
                assert forall|k: int| #[trigger] fp.world.spec_collider(k) is Some
                    && fp.world.spec_collider(k)->Some_0.user_data is Some implies {
                    let e = fp.world.spec_collider(k)->Some_0.user_data->0;
                    0 <= k < u32::MAX && fp.collider_handles.spec_lookup(e) == Some(k as u32)
                } by {
                    let e = fp.world.spec_collider(k)->Some_0.user_data->0;
                    if k != h {
                        assert(mid.world.spec_collider(k) == fp.world.spec_collider(k));
                        assert(mid.collider_handles.spec_lookup(e) == Some(k as u32));
                        assert(e != id) by {
                            assert(!mid.collider_handles.spec_contains(id));
                        }
                        assert(fp.collider_handles.spec_lookup(e) == mid.collider_handles.spec_lookup(e));
                    }
                }
                assert forall|e: u32| #[trigger] fp.body_handles.spec_lookup(e) is Some implies {
                    let hh = fp.body_handles.spec_lookup(e)->Some_0;
                    &&& fp.world.spec_body(hh as int) is Some
                    &&& fp.world.spec_body(hh as int)->Some_0.user_data == Some(e)
                } by {
                    assert(mid.body_handles.spec_lookup(e) is Some);
                }
                assert forall|k: int| #[trigger] fp.world.spec_body(k) is Some
                    && fp.world.spec_body(k)->Some_0.user_data is Some implies {
                    let e = fp.world.spec_body(k)->Some_0.user_data->0;
                    0 <= k < u32::MAX && fp.body_handles.spec_lookup(e) == Some(k as u32)
                } by {
                    assert(mid.world.spec_body(k) is Some);
                }
                assert forall|e: u32|
                    #[trigger] fp.collider_handles.spec_lookup(e) is Some implies fp.collider_handles.spec_lookup(e)->0 < fp.world.next_collider_handle by {
                    if e != id {
                        assert(mid.collider_handles.spec_lookup(e) == fp.collider_handles.spec_lookup(e));
                    }
                }
            }
        },
        None => {
            proof {
                assert(false);
            }
        },
    }
}

/// The engine collider `co` after an in-place modification from
/// component `pc` at pose `position`: the collision groups, the shape (a
/// full replacement, never a mutation), the placement — recomputed under
/// the collider's existing parent — the query type (the sensor flag) and
/// the material are pushed from the component, while the handle, parent,
/// density, margin, prediction margins and entity stamp survive.
pub open spec fn spec_updated_collider(
    co: CollisionObject,
    pc: PhysicsCollider,
    position: SimplePosition,
) -> CollisionObject {
    CollisionObject {
        shape: crate::colliders::ShapeHandle(pc.shape),
        position: spec_collider_placement(co.parent, position, pc.offset_from_parent),
        material: pc.material,
        collision_groups: pc.collision_groups,
        sensor: pc.sensor,
        ..co
    }
}

/// Pushes the component's collision groups, shape, placement, query type
/// and material into the live engine collider in place, without
/// destroying the handle. The registry is consulted as the source of
/// truth for which collider the entity owns; an entity without a
/// registered handle, or whose collider a body removal already cascaded
/// away, is skipped.
pub fn update_collider(
    id: u32,
    position: &SimplePosition,
    physics: &mut Physics,
    physics_collider: &PhysicsCollider,
)
    requires
        old(physics).wf(),
    ensures
        final(physics).wf(),
        final(physics).body_handles == old(physics).body_handles,
        final(physics).collider_handles == old(physics).collider_handles,
        forall|k: int| final(physics).world.spec_body(k) == old(physics).world.spec_body(k),
        ({
            match old(physics).collider_handles.spec_lookup(id) {
                Some(h) => {
                    &&& (match old(physics).world.spec_collider(h as int) {
                        Some(co) => final(physics).world.spec_collider(h as int) == Some(
                            spec_updated_collider(co, *physics_collider, *position),
                        ),
                        None => final(physics).world.spec_collider(h as int) is None,
                    })
                    &&& forall|k: int|
                        k != h as int ==> final(physics).world.spec_collider(k) == old(physics).world.spec_collider(k)
                },
                None => forall|k: int|
                    final(physics).world.spec_collider(k) == old(physics).world.spec_collider(k),
            }
        }),
        final(physics).world.spec_collider_count() == old(physics).world.spec_collider_count(),
        final(physics).world.next_collider_handle == old(physics).world.next_collider_handle,
{
    let ghost orig = *physics;
    match physics.collider_handles.lookup(id) {
        Some(h) => {
            let handle = ColliderHandle(h);
            let kept: Option<(BodyPartHandle, i64, i64, i64, i64, Option<u32>)> = match physics.world.collider(handle) {
                Some(co) => Some(
                    (
                        co.parent,
                        co.density,
                        co.margin,
                        co.linear_prediction,
                        co.angular_prediction,
                        co.user_data,
                    ),
                ),
                None => None,
            };
            match kept {
                Some(fields) => {
                    let parent = fields.0;
                    let placement: ColliderPosition = if parent.is_ground() {
                        ColliderPosition::GroundPlacement {
                            base: position.0,
                            offset: physics_collider.offset_from_parent,
                        }
                    } else {
                        ColliderPosition::OffsetFromParent(physics_collider.offset_from_parent)
                    };
                    let updated = CollisionObject {
                        shape: physics_collider.shape_handle(),
                        parent,
                        position: placement,
                        density: fields.1,
                        material: physics_collider.material,
                        margin: fields.2,
                        collision_groups: physics_collider.collision_groups,
                        linear_prediction: fields.3,
                        angular_prediction: fields.4,
                        sensor: physics_collider.sensor,
                        user_data: fields.5,
                    };
                    let _ = physics.world.set_collider(handle, updated);
                    proof {
                        let fp = *physics;
                        assert forall|k: int|
                            #[trigger] fp.world.spec_body(k) == orig.world.spec_body(k) by {}
                        assert forall|k: int|
                            k != handle.0 as int ==> #[trigger] fp.world.spec_collider(k)
                                == orig.world.spec_collider(k) by {}
                        assert(fp.world.spec_collider(handle.0 as int)->Some_0.user_data
                            == orig.world.spec_collider(handle.0 as int)->Some_0.user_data);
                    }
                },
                None => {},
            }
        },
        None => {},
    }
}

/// Removes entity `id`'s engine collider: the registry entry is taken out
/// and, if the engine object is still live — a body removal may already
/// have cascaded it away — it is removed too. Idempotent; an entity
/// without a registered handle is skipped.
pub fn remove_collider(id: u32, physics: &mut Physics)
    requires
        old(physics).wf(),
    ensures
        final(physics).wf(),
        !final(physics).collider_handles.spec_contains(id),
        final(physics).body_handles == old(physics).body_handles,
        forall|e: u32|
            e != id ==> final(physics).collider_handles.spec_lookup(e) == old(physics).collider_handles.spec_lookup(e),
        forall|k: int| final(physics).world.spec_body(k) == old(physics).world.spec_body(k),
        match old(physics).collider_handles.spec_lookup(id) {
            Some(h) => {
                &&& final(physics).world.spec_collider(h as int) is None
                &&& forall|k: int|
                    k != h as int ==> final(physics).world.spec_collider(k) == old(physics).world.spec_collider(k)
                &&& final(physics).world.spec_collider_count() == old(physics).world.spec_collider_count() - (if old(physics).world.spec_collider(
                    h as int,
                ) is Some {
                    1nat
                } else {
                    0nat
                })
            },
            None => final(physics).world == old(physics).world,
        },
        final(physics).world.next_collider_handle == old(physics).world.next_collider_handle,
        final(physics).world.next_body_handle == old(physics).world.next_body_handle,
        final(physics).world.gravity == old(physics).world.gravity,
        final(physics).world.timestep == old(physics).world.timestep,
        final(physics).world.step_count == old(physics).world.step_count,
{
    let ghost orig = *physics;
    match physics.collider_handles.unregister(id) {
        Some(h) => {
            // A collider can be gone already when its parent body was
            // removed this frame and the removal cascaded; only remove
            // what is still live.
            let live = physics.world.collider(ColliderHandle(h)).is_some();
            if live {
                let mut doomed: Vec<ColliderHandle> = Vec::new();
                doomed.push(ColliderHandle(h));
                proof {
                    assert(doomed@ =~= seq![ColliderHandle(h)]);
                }
                physics.world.remove_colliders(&doomed);
                proof {
                    assert(doomed@[0].0 == h);
                    assert(crate::world::collider_handles_contain(doomed@, h as int));
                    assert forall|k: int|
                        crate::world::collider_handles_contain(doomed@, k) implies k
                        == h as int by {
                        let ix = choose|ix: int|
                            0 <= ix < doomed@.len() && doomed@[ix].0 == k;
                        assert(ix == 0);
                    }
                }
            }
            proof {
                let fp = *physics;
                assert forall|k: int|
                    #[trigger] fp.world.spec_body(k) == orig.world.spec_body(k) by {}
                assert forall|k: int|
                    k != h as int ==> #[trigger] fp.world.spec_collider(k)
                        == orig.world.spec_collider(k) by {}
                assert forall|k: int| #[trigger] fp.world.spec_collider(k) is Some
                    && fp.world.spec_collider(k)->Some_0.user_data is Some implies {
                    let e = fp.world.spec_collider(k)->Some_0.user_data->0;
                    0 <= k < u32::MAX && fp.collider_handles.spec_lookup(e) == Some(k as u32)
                } by {
                    let e = fp.world.spec_collider(k)->Some_0.user_data->0;
                    assert(k != h as int);
                    assert(orig.world.spec_collider(k) == fp.world.spec_collider(k));
                    assert(orig.collider_handles.spec_lookup(e) == Some(k as u32));
                    assert(e != id) by {
                        if e == id {
                            assert(k == h as int);
                        }
                    }
                }
            }
        },
        None => {},
    }
}

} // verus!

verus! {

/// The collider synchronization stage. Holds the two persistent reader
/// cursors — established once in [`Self::setup`] — into the pose and
/// collider component logs.
pub struct SyncCollidersToPhysicsSystem {
    pub positions_reader_id: Option<ReaderId>,
    pub physics_colliders_reader_id: Option<ReaderId>,
}

impl Default for SyncCollidersToPhysicsSystem {
    /// A stage with no readers yet; call
    /// [`SyncCollidersToPhysicsSystem::setup`] before the first run.
    fn default() -> (r: SyncCollidersToPhysicsSystem)
        ensures
            r.positions_reader_id is None,
            r.physics_colliders_reader_id is None,
    {
        SyncCollidersToPhysicsSystem {
            positions_reader_id: None,
            physics_colliders_reader_id: None,
        }
    }
}

impl SyncCollidersToPhysicsSystem {
    /// Establishes the persistent reader cursors. Must run once before the
    /// first frame.
    pub fn setup(
        &mut self,
        positions: &FlaggedStorage<SimplePosition>,
        physics_colliders: &FlaggedStorage<PhysicsCollider>,
    )
        ensures
            final(self).positions_reader_id matches Some(pr) && pr.cursor
                == positions.spec_events().len(),
            final(self).physics_colliders_reader_id matches Some(cr) && cr.cursor
                == physics_colliders.spec_events().len(),
    {
        self.positions_reader_id = Some(positions.register_reader());
        self.physics_colliders_reader_id = Some(physics_colliders.register_reader());
    }

    /// One frame of collider synchronization: drains both change logs,
    /// removes the engine colliders of removed entities, creates fresh
    /// engine colliders — resolving each parent and placement — for
    /// inserted entities carrying a pose and a collider component, and
    /// pushes collision-group changes for modified entities. The events
    /// caused by the stage's own write-backs are drained before it
    /// returns, so they are never mistaken for application changes.
    pub fn run(
        &mut self,
        positions: &FlaggedStorage<SimplePosition>,
        parent_entities: &FlaggedStorage<PhysicsParent>,
        physics: &mut Physics,
        physics_colliders: &mut FlaggedStorage<PhysicsCollider>,
    )
        requires
            old(self).positions_reader_id matches Some(pr) && pr.cursor
                <= positions.spec_events().len(),
            old(self).physics_colliders_reader_id matches Some(cr) && cr.cursor <= old(physics_colliders).spec_events().len(),
            old(physics).wf(),
            old(physics_colliders).wf(),
            old(physics).world.next_collider_handle as int + (positions.spec_events().len() - old(self).positions_reader_id->0.cursor) + (old(physics_colliders).spec_events().len() - old(self).physics_colliders_reader_id->0.cursor) < u32::MAX as int,
        ensures
            final(physics).wf(),
            final(physics_colliders).wf(),
            final(self).positions_reader_id matches Some(pr2) && pr2.cursor
                == positions.spec_events().len(),
            final(self).physics_colliders_reader_id matches Some(cr2) && cr2.cursor == final(physics_colliders).spec_events().len(),
            ({
                let pos_new = positions.spec_events().skip(
                    old(self).positions_reader_id->0.cursor as int,
                );
                let coll_new = old(physics_colliders).spec_events().skip(
                    old(self).physics_colliders_reader_id->0.cursor as int,
                );
                &&& forall|e: u32|
                    !pos_new.contains(ComponentEvent::Inserted(e)) && !crate::systems::sync_bodies_to_physics::spec_mentions(coll_new, e)
                        ==> final(physics).collider_handles.spec_lookup(e) == old(physics).collider_handles.spec_lookup(e)
                        && final(physics_colliders).spec_get(e) == old(physics_colliders).spec_get(e)
                &&& forall|e: u32|
                    coll_new.contains(ComponentEvent::Removed(e)) && !(pos_new.contains(
                        ComponentEvent::Inserted(e),
                    ) || coll_new.contains(ComponentEvent::Inserted(e))) ==> !final(physics).collider_handles.spec_contains(e)
                &&& forall|e: u32|
                    (pos_new.contains(ComponentEvent::Inserted(e)) || coll_new.contains(
                        ComponentEvent::Inserted(e),
                    )) && positions.spec_get(e) is Some && old(physics_colliders).spec_get(e) is Some
                        ==> spec_collider_settled(
                        *final(physics),
                        *old(physics),
                        *positions,
                        *parent_entities,
                        *old(physics_colliders),
                        e,
                    )
                &&& forall|e: u32|
                    !pos_new.contains(ComponentEvent::Inserted(e)) && !crate::systems::sync_bodies_to_physics::spec_mentions(coll_new, e) ==> (old(physics).collider_handles.spec_lookup(e) matches Some(h) ==> final(physics).world.spec_collider(h as int) == old(physics).world.spec_collider(h as int))
                &&& forall|k: int|
                    (#[trigger] final(physics).world.spec_collider(k)) matches Some(co) ==> (
                    co.user_data is None ==> old(physics).world.spec_collider(k) == Some(co))
            }),
            final(physics).body_handles == old(physics).body_handles,
            forall|k: int| final(physics).world.spec_body(k) == old(physics).world.spec_body(k),
    {
        let ghost orig_physics = *physics;
        let ghost orig_colliders = *physics_colliders;
        let mut pos_reader = match self.positions_reader_id {
            Some(r) => r,
            None => ReaderId { cursor: 0 },
        };
        let mut coll_reader = match self.physics_colliders_reader_id {
            Some(r) => r,
            None => ReaderId { cursor: 0 },
        };
        let (inserted_positions, _modified_positions, _removed_positions) =
            iterate_component_events(positions, &mut pos_reader);
        let (inserted_colliders, modified_colliders, removed_colliders) = iterate_component_events(
            physics_colliders,
            &mut coll_reader,
        );
        self.positions_reader_id = Some(pos_reader);
        let ghost pos_new = positions.spec_events().skip(
            old(self).positions_reader_id->0.cursor as int,
        );
        let ghost coll_new = orig_colliders.spec_events().skip(
            old(self).physics_colliders_reader_id->0.cursor as int,
        );

        // Removal pass: removal events always reach the engine, also for
        // entities whose components are already gone.
        let mut i: usize = 0;
        while i < removed_colliders.len()
            invariant
                physics.wf(),
                physics_colliders.wf(),
                *physics_colliders == orig_colliders,
                physics.world.next_collider_handle == orig_physics.world.next_collider_handle,
                physics.body_handles == orig_physics.body_handles,
                forall|k: int|
                    #[trigger] physics.world.spec_body(k) == orig_physics.world.spec_body(k),
                i <= removed_colliders.spec_items().len(),
                removed_colliders.wf(),
                forall|x: u32|
                    #[trigger] removed_colliders.spec_contains(x) == coll_new.contains(
                        ComponentEvent::Removed(x),
                    ),
                forall|k: int|
                    0 <= k < i ==> !physics.collider_handles.spec_contains(
                        #[trigger] removed_colliders.spec_items()[k],
                    ),
                forall|e: u32|
                    !removed_colliders.spec_contains(e) ==> physics.collider_handles.spec_lookup(e)
                        == orig_physics.collider_handles.spec_lookup(e),
                forall|k: int|
                    #[trigger] physics.world.spec_collider(k) is Some
                        ==> physics.world.spec_collider(k) == orig_physics.world.spec_collider(k),
                forall|e: u32|
                    !removed_colliders.spec_contains(e) ==> (orig_physics.collider_handles.spec_lookup(e) matches Some(h) ==> physics.world.spec_collider(h as int) == orig_physics.world.spec_collider(h as int)),
            decreases removed_colliders.spec_items().len() - i,
        {
            let e = removed_colliders.index(i);
            remove_collider(e, physics);
            proof {
                assert forall|k: int|
                    0 <= k < i + 1 implies !physics.collider_handles.spec_contains(
                    #[trigger] removed_colliders.spec_items()[k],
                ) by {
                    if k < i {
                        assert(removed_colliders.spec_items()[k] != e
                            || !physics.collider_handles.spec_contains(e));
                    }
                }
            }
            i = i + 1;
        }
        let ghost after_removal = *physics;

        // Main pass: insertion takes precedence over modification.
        let union_ins = inserted_positions.union(&inserted_colliders);
        let changed = union_ins.union(&modified_colliders);
        let mut i: usize = 0;
        while i < changed.len()
            invariant
                physics.wf(),
                physics_colliders.wf(),
                changed.wf(),
                i <= changed.spec_items().len(),
                physics.body_handles == orig_physics.body_handles,
                forall|k: int|
                    #[trigger] physics.world.spec_body(k) == orig_physics.world.spec_body(k),
                orig_colliders.spec_events().len() <= physics_colliders.spec_events().len(),
                physics.world.next_collider_handle as int
                    <= after_removal.world.next_collider_handle as int + i,
                after_removal.world.next_collider_handle as int + changed.spec_items().len()
                    < u32::MAX as int,
                forall|x: u32|
                    #[trigger] changed.spec_contains(x) == (pos_new.contains(
                        ComponentEvent::Inserted(x),
                    ) || coll_new.contains(ComponentEvent::Inserted(x)) || coll_new.contains(
                        ComponentEvent::Modified(x),
                    )),
                forall|x: u32|
                    #[trigger] inserted_positions.spec_contains(x) == pos_new.contains(
                        ComponentEvent::Inserted(x),
                    ),
                forall|x: u32|
                    #[trigger] inserted_colliders.spec_contains(x) == coll_new.contains(
                        ComponentEvent::Inserted(x),
                    ),
                forall|e: u32|
                    !changed.spec_contains(e) ==> physics.collider_handles.spec_lookup(e)
                        == after_removal.collider_handles.spec_lookup(e),
                forall|e: u32|
                    !changed.spec_contains(e) ==> physics_colliders.spec_get(e)
                        == orig_colliders.spec_get(e),
                forall|k: int|
                    i <= k < changed.spec_items().len() ==> physics_colliders.spec_get(
                        #[trigger] changed.spec_items()[k],
                    ) == orig_colliders.spec_get(changed.spec_items()[k]),
                forall|k: int|
                    i <= k < changed.spec_items().len() ==> physics.collider_handles.spec_lookup(
                        #[trigger] changed.spec_items()[k],
                    ) == after_removal.collider_handles.spec_lookup(changed.spec_items()[k]),
                forall|e: u32|
                    (removed_colliders.spec_contains(e) && !(inserted_positions.spec_contains(e)
                        || inserted_colliders.spec_contains(e)))
                        ==> !physics.collider_handles.spec_contains(e),
                forall|x: u32|
                    #[trigger] removed_colliders.spec_contains(x) == coll_new.contains(
                        ComponentEvent::Removed(x),
                    ),
                forall|e: u32|
                    !removed_colliders.spec_contains(e)
                        ==> after_removal.collider_handles.spec_lookup(e)
                        == orig_physics.collider_handles.spec_lookup(e),
                after_removal.wf(),
                forall|k: int|
                    #[trigger] after_removal.world.spec_collider(k) is Some
                        ==> after_removal.world.spec_collider(k) == orig_physics.world.spec_collider(
                        k,
                    ),
                forall|e: u32|
                    !removed_colliders.spec_contains(e) ==> (orig_physics.collider_handles.spec_lookup(e) matches Some(h) ==> after_removal.world.spec_collider(h as int) == orig_physics.world.spec_collider(h as int)),
                forall|k: int|
                    #[trigger] physics.world.spec_collider(k) is Some && physics.world.spec_collider(
                        k,
                    )->Some_0.user_data is None ==> after_removal.world.spec_collider(k)
                        == physics.world.spec_collider(k),
                forall|e: u32|
                    !changed.spec_contains(e) ==> (after_removal.collider_handles.spec_lookup(
                        e,
                    ) matches Some(h) ==> physics.world.spec_collider(h as int)
                        == after_removal.world.spec_collider(h as int)),
                forall|k: int|
                    0 <= k < i ==> ((inserted_positions.spec_contains(
                        #[trigger] changed.spec_items()[k],
                    ) || inserted_colliders.spec_contains(changed.spec_items()[k]))
                        && positions.spec_get(changed.spec_items()[k]) is Some
                        && orig_colliders.spec_get(changed.spec_items()[k]) is Some
                        ==> spec_collider_settled(
                        *physics,
                        orig_physics,
                        *positions,
                        *parent_entities,
                        orig_colliders,
                        changed.spec_items()[k],
                    )),
            decreases changed.spec_items().len() - i,
        {
            let e = changed.index(i);
            let pos_found: Option<SimplePosition> = match positions.get(e) {
                Some(p) => Some(*p),
                None => None,
            };
            let coll_found: Option<PhysicsCollider> = match physics_colliders.get(e) {
                Some(c) => Some(c.clone()),
                None => None,
            };
            let ghost pre_iter = *physics;
            match (pos_found, coll_found) {
                (Some(position), Some(collider_component)) => {
                    if inserted_positions.contains(e) || inserted_colliders.contains(e) {
                        let mut physics_collider = collider_component;
                        let parent_ref = parent_entities.get(e);
                        add_collider(e, parent_ref, &position, physics, &mut physics_collider);
                        let _ = physics_colliders.modify(e, physics_collider);
                    } else if modified_colliders.contains(e) {
                        update_collider(e, &position, physics, &collider_component);
                    }
                },
                _ => {},
            }
            proof {
                assert forall|k: int|
                    i + 1 <= k < changed.spec_items().len() implies physics_colliders.spec_get(
                    #[trigger] changed.spec_items()[k],
                ) == orig_colliders.spec_get(changed.spec_items()[k]) by {
                    assert(changed.spec_items()[k] != changed.spec_items()[i as int]);
                }
                assert forall|k: int|
                    i + 1 <= k < changed.spec_items().len() implies physics.collider_handles.spec_lookup(
                    #[trigger] changed.spec_items()[k],
                ) == after_removal.collider_handles.spec_lookup(changed.spec_items()[k]) by {
                    assert(changed.spec_items()[k] != changed.spec_items()[i as int]);
                }
                assert forall|k: int|
                    0 <= k < i + 1 implies ((inserted_positions.spec_contains(
                        #[trigger] changed.spec_items()[k],
                    ) || inserted_colliders.spec_contains(changed.spec_items()[k]))
                        && positions.spec_get(changed.spec_items()[k]) is Some
                        && orig_colliders.spec_get(changed.spec_items()[k]) is Some
                        ==> spec_collider_settled(
                        *physics,
                        orig_physics,
                        *positions,
                        *parent_entities,
                        orig_colliders,
                        changed.spec_items()[k],
                    )) by {
                    let x = changed.spec_items()[k];
                    let pp: Option<u32> = match parent_entities.spec_get(x) {
                        Some(pe) => Some(pe.entity),
                        None => None,
                    };
                    if (inserted_positions.spec_contains(x) || inserted_colliders.spec_contains(x))
                        && positions.spec_get(x) is Some && orig_colliders.spec_get(x) is Some {
                        if k < i {
                            assert(x != changed.spec_items()[i as int]);
                            assert(spec_collider_settled(
                                pre_iter,
                                orig_physics,
                                *positions,
                                *parent_entities,
                                orig_colliders,
                                x,
                            ));
                            let hx = pre_iter.collider_handles.spec_lookup(x)->0;
                            assert(physics.collider_handles.spec_lookup(x)
                                == pre_iter.collider_handles.spec_lookup(x));
                            assert(pre_iter.world.spec_collider(hx as int)->Some_0.user_data
                                == Some(x));
                            assert(physics.world.spec_collider(hx as int)
                                == pre_iter.world.spec_collider(hx as int)) by {
                                match pre_iter.collider_handles.spec_lookup(e) {
                                    Some(stale) => {
                                        assert(pre_iter.world.spec_collider(stale as int) is Some
                                            ==> pre_iter.world.spec_collider(
                                            stale as int,
                                        )->Some_0.user_data == Some(e));
                                        assert(hx != stale);
                                    },
                                    None => {},
                                }
                            }
                        } else {
                            assert(x == e);
                            assert(spec_resolved_parent(pre_iter, x, pp) == spec_resolved_parent(
                                orig_physics,
                                x,
                                pp,
                            )) by {
                                assert(pre_iter.body_handles == orig_physics.body_handles);
                                let own = orig_physics.body_handles.spec_lookup(x);
                                if own is Some {
                                    assert(pre_iter.world.spec_body(own->0 as int)
                                        == orig_physics.world.spec_body(own->0 as int));
                                }
                                match pp {
                                    Some(pe) => {
                                        let h2 = orig_physics.body_handles.spec_lookup(pe);
                                        if h2 is Some {
                                            assert(pre_iter.world.spec_body(h2->0 as int)
                                                == orig_physics.world.spec_body(h2->0 as int));
                                        }
                                    },
                                    None => {},
                                }
                            }
                        }
                    }
                }
            }
            i = i + 1;
        }

        // Drain the update triggers caused by this stage's own
        // write-backs, so the next frame does not reprocess them.
        let _ = physics_colliders.channel.read(&mut coll_reader);
        self.physics_colliders_reader_id = Some(coll_reader);
        proof {
            assert forall|e: u32|
                coll_new.contains(ComponentEvent::Removed(e)) && !(pos_new.contains(
                    ComponentEvent::Inserted(e),
                ) || coll_new.contains(ComponentEvent::Inserted(e))) implies !physics.collider_handles.spec_contains(e) by {
                assert(removed_colliders.spec_contains(e));
                assert(!inserted_positions.spec_contains(e));
                assert(!inserted_colliders.spec_contains(e));
            }
            assert forall|e: u32|
                (pos_new.contains(ComponentEvent::Inserted(e)) || coll_new.contains(
                    ComponentEvent::Inserted(e),
                )) && positions.spec_get(e) is Some && orig_colliders.spec_get(e) is Some implies spec_collider_settled(
                *physics,
                orig_physics,
                *positions,
                *parent_entities,
                orig_colliders,
                e,
            ) by {
                assert(changed.spec_contains(e));
                let k = choose|k: int|
                    0 <= k < changed.spec_items().len() && changed.spec_items()[k] == e;
                assert(spec_collider_settled(
                    *physics,
                    orig_physics,
                    *positions,
                    *parent_entities,
                    orig_colliders,
                    changed.spec_items()[k],
                ));
            }
            assert forall|e: u32|
                !pos_new.contains(ComponentEvent::Inserted(e)) && !crate::systems::sync_bodies_to_physics::spec_mentions(coll_new, e) implies physics.collider_handles.spec_lookup(e)
                == orig_physics.collider_handles.spec_lookup(e) && physics_colliders.spec_get(e)
                == orig_colliders.spec_get(e) by {
                assert(!removed_colliders.spec_contains(e));
                assert(!changed.spec_contains(e));
            }
            assert forall|e: u32|
                !pos_new.contains(ComponentEvent::Inserted(e)) && !crate::systems::sync_bodies_to_physics::spec_mentions(coll_new, e) implies (orig_physics.collider_handles.spec_lookup(e) matches Some(h) ==> physics.world.spec_collider(h as int) == orig_physics.world.spec_collider(h as int)) by {
                if orig_physics.collider_handles.spec_lookup(e) is Some {
                    assert(!removed_colliders.spec_contains(e));
                    assert(!changed.spec_contains(e));
                    let h = orig_physics.collider_handles.spec_lookup(e)->0;
                    assert(after_removal.collider_handles.spec_lookup(e)
                        == orig_physics.collider_handles.spec_lookup(e));
                    assert(after_removal.world.spec_collider(h as int)
                        == orig_physics.world.spec_collider(h as int));
                    assert(physics.world.spec_collider(h as int) == after_removal.world.spec_collider(h as int));
                }
            }
            assert forall|k: int|
                (#[trigger] physics.world.spec_collider(k)) is Some && physics.world.spec_collider(
                    k,
                )->Some_0.user_data is None implies orig_physics.world.spec_collider(k)
                == physics.world.spec_collider(k) by {
                assert(after_removal.world.spec_collider(k) == physics.world.spec_collider(k));
            }
        }
    }
}

} // verus!
