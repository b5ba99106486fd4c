//! Contact and proximity events, on both sides of the translation.
//!
//! The engine reports events keyed by collider handles; the event
//! translation stage maps each handle back to the entity stamped on the
//! collider and publishes entity-keyed events on a channel. An event whose
//! handle no longer resolves to a live, stamped collider carries `None` in
//! the entity slot.

use vstd::prelude::*;
use crate::handle::ColliderHandle;
use crate::storage::EventChannel;

verus! {

/// Whether a contact began or ended.
#[derive(Clone, Copy, Debug, PartialEq, Eq, Structural)]
pub enum ContactType {
    /// Two collision objects started being in contact.
    Started,
    /// Two collision objects stopped being in contact.
    Stopped,
}

/// How close two proximity-tracked objects are.
#[derive(Clone, Copy, Debug, PartialEq, Eq, Structural)]
pub enum Proximity {
    /// The objects are touching or penetrating.
    Intersecting,
    /// The objects are within each other's proximity margin.
    WithinMargin,
    /// The objects are apart.
    Disjoint,
}

/// A contact event as the engine reports it, keyed by collider handles.
#[derive(Clone, Copy, Debug, PartialEq, Eq, Structural)]
pub enum RawContactEvent {
    Started(ColliderHandle, ColliderHandle),
    Stopped(ColliderHandle, ColliderHandle),
}

/// A proximity event as the engine reports it, keyed by collider handles.
#[derive(Clone, Copy, Debug, PartialEq, Eq, Structural)]
pub struct RawProximityEvent {
    pub collider1: ColliderHandle,
    pub collider2: ColliderHandle,
    pub prev_status: Proximity,
    pub new_status: Proximity,
}

/// A contact event translated for entity-world consumers: each collider is
/// given as the owning entity — `None` if the handle did not resolve —
/// beside the engine handle.
#[derive(Clone, Copy, Debug)]
pub struct ContactEvent {
    pub collider1: (Option<u32>, ColliderHandle),
    pub collider2: (Option<u32>, ColliderHandle),
    pub contact_type: ContactType,
}

/// A proximity event translated for entity-world consumers. At least one
/// of the two colliders is a sensor.
#[derive(Clone, Copy, Debug)]
pub struct ProximityEvent {
    pub collider1: (Option<u32>, ColliderHandle),
    pub collider2: (Option<u32>, ColliderHandle),
    pub prev_status: Proximity,
    pub new_status: Proximity,
}

/// The channel on which translated contact events are published.
pub type ContactEvents = EventChannel<ContactEvent>;

/// The channel on which translated proximity events are published.
pub type ProximityEvents = EventChannel<ProximityEvent>;

} // verus!
