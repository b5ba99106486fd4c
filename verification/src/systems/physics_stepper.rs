//! Advances the engine and translates its events for entity-world
//! consumers.
//!
//! Engine contact and proximity events are keyed by collider handles; the
//! translation looks each handle up and reads the entity index stamped on
//! the collider at creation. An event whose handles no longer resolve —
//! the entity may have been deleted in the very frame the event was
//! generated — is dropped rather than published with a dangling
//! reference.

use vstd::prelude::*;
use crate::events::{
    ContactEvent,
    ContactEvents,
    ContactType,
    ProximityEvent,
    ProximityEvents,
    RawContactEvent,
    RawProximityEvent,
};
use crate::handle::ColliderHandle;
use crate::parameters::TimeStep;
use crate::world::Physics;

verus! {

/// The entity stamped on the collider at `handle`, if the collider is
/// live and stamped.
pub open spec fn spec_entity_of_handle(physics: Physics, handle: ColliderHandle) -> Option<u32> {
    match physics.world.spec_collider(handle.0 as int) {
        Some(co) => co.user_data,
        None => None,
    }
}

/// Looks up the entity stamped on the collider at `handle`. In a
/// well-formed world the answer is authoritative: a resolved entity is
/// exactly the one whose registry entry leads back to this collider.
pub fn entity_from_collision_object_handle(physics: &Physics, handle: ColliderHandle) -> (r:
    Option<u32>)
    ensures
        r == spec_entity_of_handle(*physics, handle),
{
    match physics.world.collider(handle) {
        Some(co) => co.user_data,
        None => None,
    }
}

/// The translation of one engine contact event: the entity of each
/// collider beside its handle, or nothing when either collider no longer
/// resolves.
pub open spec fn spec_translate_contact(physics: Physics, raw: RawContactEvent) -> Option<
    ContactEvent,
> {
    let pair = match raw {
        RawContactEvent::Started(h1, h2) => (h1, h2, ContactType::Started),
        RawContactEvent::Stopped(h1, h2) => (h1, h2, ContactType::Stopped),
    };
    let e1 = spec_entity_of_handle(physics, pair.0);
    let e2 = spec_entity_of_handle(physics, pair.1);
    if e1 is Some && e2 is Some {
        Some(
            ContactEvent {
                collider1: (e1, pair.0),
                collider2: (e2, pair.1),
                contact_type: pair.2,
            },
        )
    } else {
        None
    }
}

/// The translation of one engine proximity event.
pub open spec fn spec_translate_proximity(physics: Physics, raw: RawProximityEvent) -> Option<
    ProximityEvent,
> {
    let e1 = spec_entity_of_handle(physics, raw.collider1);
    let e2 = spec_entity_of_handle(physics, raw.collider2);
    if e1 is Some && e2 is Some {
        Some(
            ProximityEvent {
                collider1: (e1, raw.collider1),
                collider2: (e2, raw.collider2),
                prev_status: raw.prev_status,
                new_status: raw.new_status,
            },
        )
    } else {
        None
    }
}

/// The translations of a whole batch of engine contact events, in order,
/// with unresolvable events dropped.
pub open spec fn spec_translated_contacts(physics: Physics, raw: Seq<RawContactEvent>) -> Seq<
    ContactEvent,
>
    decreases raw.len(),
{
    if raw.len() == 0 {
        Seq::empty()
    } else {
        let rest = spec_translated_contacts(physics, raw.drop_last());
        match spec_translate_contact(physics, raw.last()) {
            Some(ev) => rest.push(ev),
            None => rest,
        }
    }
}

/// The translations of a whole batch of engine proximity events, in
/// order, with unresolvable events dropped.
pub open spec fn spec_translated_proximities(physics: Physics, raw: Seq<RawProximityEvent>) -> Seq<
    ProximityEvent,
>
    decreases raw.len(),
{
    if raw.len() == 0 {
        Seq::empty()
    } else {
        let rest = spec_translated_proximities(physics, raw.drop_last());
        match spec_translate_proximity(physics, raw.last()) {
            Some(ev) => rest.push(ev),
            None => rest,
        }
    }
}

/// Steps the engine once per frame and publishes the translated contact
/// and proximity events.
#[derive(Clone, Copy, Debug, Default, PartialEq, Eq, Structural)]
pub struct PhysicsStepperSystem;

impl PhysicsStepperSystem {
    /// One frame: pushes the timestep resource into the engine when it
    /// disagrees with the engine's current one, advances the simulation by
    /// one step, and publishes the translation of every resolvable engine
    /// event of that step — unresolvable events are dropped.
    pub fn run(
        &mut self,
        time_step: Option<&TimeStep>,
        contact_events: &mut ContactEvents,
        proximity_events: &mut ProximityEvents,
        physics: &mut Physics,
        raw_contacts: &Vec<RawContactEvent>,
        raw_proximities: &Vec<RawProximityEvent>,
    )
        requires
            old(physics).wf(),
            old(physics).world.step_count < u64::MAX,
        ensures
            final(physics).wf(),
            final(physics).world.timestep == (match time_step {
                Some(ts) => ts.0,
                None => old(physics).world.timestep,
            }),
            final(physics).world.step_count == old(physics).world.step_count + 1,
            final(contact_events).spec_events() == old(contact_events).spec_events()
                + spec_translated_contacts(*final(physics), raw_contacts@),
            final(proximity_events).spec_events() == old(proximity_events).spec_events()
                + spec_translated_proximities(*final(physics), raw_proximities@),
            final(physics).body_handles == old(physics).body_handles,
            final(physics).collider_handles == old(physics).collider_handles,
            forall|k: int| final(physics).world.spec_body(k) == old(physics).world.spec_body(k),
            forall|k: int|
                final(physics).world.spec_collider(k) == old(physics).world.spec_collider(k),
    {
        // Push the timestep only when it differs: a timestep write
        // destabilizes the running simulation.
        match time_step {
            Some(ts) => {
                if physics.world.timestep() != ts.0 {
                    physics.world.set_timestep(ts.0);
                }
            },
            None => {},
        }

        physics.world.step();
        proof {
            let fp = *physics;
            assert forall|k: int|
                #[trigger] fp.world.spec_body(k) == old(physics).world.spec_body(k) by {}
            assert forall|k: int|
                #[trigger] fp.world.spec_collider(k) == old(physics).world.spec_collider(k) by {}
        }

        let mut i: usize = 0;
        while i < raw_contacts.len()
            invariant
                i <= raw_contacts@.len(),
                contact_events.spec_events() == old(contact_events).spec_events()
                    + spec_translated_contacts(*physics, raw_contacts@.take(i as int)),
            decreases raw_contacts@.len() - i,
        {
            let raw = raw_contacts[i];
            let (handle1, handle2, contact_type) = match raw {
                RawContactEvent::Started(h1, h2) => (h1, h2, ContactType::Started),
                RawContactEvent::Stopped(h1, h2) => (h1, h2, ContactType::Stopped),
            };
            let entity1 = entity_from_collision_object_handle(physics, handle1);
            let entity2 = entity_from_collision_object_handle(physics, handle2);
            match (entity1, entity2) {
                (Some(e1), Some(e2)) => {
                    contact_events.single_write(
                        ContactEvent {
                            collider1: (Some(e1), handle1),
                            collider2: (Some(e2), handle2),
                            contact_type,
                        },
                    );
                },
                _ => {
                    // The event references a collider that no longer
                    // resolves to a live entity: drop it rather than
                    // publish a dangling reference.
                },
            }
            proof {
                assert(raw_contacts@.take(i + 1).drop_last() =~= raw_contacts@.take(i as int));
                assert(raw_contacts@.take(i + 1).last() == raw_contacts@[i as int]);
            }
            i = i + 1;
        }
        proof {
            assert(raw_contacts@.take(raw_contacts@.len() as int) =~= raw_contacts@);
        }

        let mut i: usize = 0;
        while i < raw_proximities.len()
            invariant
                i <= raw_proximities@.len(),
                proximity_events.spec_events() == old(proximity_events).spec_events()
                    + spec_translated_proximities(*physics, raw_proximities@.take(i as int)),
            decreases raw_proximities@.len() - i,
        {
            let raw = raw_proximities[i];
            let entity1 = entity_from_collision_object_handle(physics, raw.collider1);
            let entity2 = entity_from_collision_object_handle(physics, raw.collider2);
            match (entity1, entity2) {
                (Some(e1), Some(e2)) => {
                    proximity_events.single_write(
                        ProximityEvent {
                            collider1: (Some(e1), raw.collider1),
                            collider2: (Some(e2), raw.collider2),
                            prev_status: raw.prev_status,
                            new_status: raw.new_status,
                        },
                    );
                },
                _ => {},
            }
            proof {
                assert(raw_proximities@.take(i + 1).drop_last() =~= raw_proximities@.take(
                    i as int,
                ));
                assert(raw_proximities@.take(i + 1).last() == raw_proximities@[i as int]);
            }
            i = i + 1;
        }
        proof {
            assert(raw_proximities@.take(raw_proximities@.len() as int) =~= raw_proximities@);
        }
    }
}

/// Translation is authoritative in a well-formed world: an entity
/// resolved from a collider handle is exactly the entity whose collider
/// registry entry is that handle — the event can never name a bystander.
pub proof fn lemma_translation_resolves_owner(p: Physics, handle: ColliderHandle, e: u32)
    requires
        p.wf(),
        spec_entity_of_handle(p, handle) == Some(e),
    ensures
        p.collider_handles.spec_lookup(e) == Some(handle.0),
{
}

} // verus!
