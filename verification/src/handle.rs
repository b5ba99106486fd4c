//! Engine handles and the per-entity handle registry.
//!
//! The registry is the single source of truth for which entity owns which
//! engine object. A handle registered for an entity must always point at a
//! live engine object; the synchronization stages keep that invariant by
//! unregistering and removing before every fresh insertion.

use vstd::prelude::*;
use crate::index_map::IndexMap;

verus! {

/// Handle to a body in the engine-facing object store.
#[derive(Clone, Copy, Debug, PartialEq, Eq, Hash, Structural)]
pub struct BodyHandle(pub u32);

/// Handle to a collider in the engine-facing object store.
#[derive(Clone, Copy, Debug, PartialEq, Eq, Hash, Structural)]
pub struct ColliderHandle(pub u32);

/// The reserved handle value that stands for the static world frame.
/// Ordinary handles are allocated strictly below it.
pub const GROUND_HANDLE: u32 = u32::MAX;

/// Handle to one part of a body: the body's handle together with the index
/// of the part within it. For bodies without parts, part zero is the body
/// itself.
#[derive(Clone, Copy, Debug, PartialEq, Eq, Hash, Structural)]
pub struct BodyPartHandle {
    pub set_handle: BodyHandle,
    pub part_index: usize,
}

impl BodyPartHandle {
    /// The part handle of the distinguished ground pseudo-body, to which
    /// colliders without a resolvable parent attach.
    pub fn ground() -> (r: BodyPartHandle)
        ensures
            r == BodyPartHandle::ground_spec(),
    {
        BodyPartHandle { set_handle: BodyHandle(GROUND_HANDLE), part_index: 0 }
    }

    /// The ground part handle, as a specification value.
    pub open spec fn ground_spec() -> BodyPartHandle {
        BodyPartHandle { set_handle: BodyHandle(u32::MAX), part_index: 0 }
    }

    /// Whether this part handle stands for the static world frame.
    pub fn is_ground(&self) -> (r: bool)
        ensures
            r == self.spec_is_ground(),
    {
        self.set_handle.0 == GROUND_HANDLE
    }

    /// Whether this part handle stands for the static world frame.
    pub open spec fn spec_is_ground(self) -> bool {
        self.set_handle.0 == u32::MAX
    }
}

/// Error returned when registering a handle for an entity that already has
/// a live handle of that kind. The caller must unregister first.
#[derive(Clone, Copy, Debug, PartialEq, Eq, Structural)]
pub struct DuplicateHandleError;

/// A mapping from entity index to engine handle, one map per handle kind.
///
/// Registration refuses to overwrite: inserting over a live handle would
/// leak the engine object it pointed at, so the synchronization stages
/// always check and clear first.
pub struct HandleMap {
    pub map: IndexMap<u32>,
}

impl HandleMap {
    /// Whether the underlying map is well formed.
    pub open spec fn wf(self) -> bool {
        self.map.wf()
    }

    /// The handle registered for entity `e`, if any.
    pub open spec fn spec_lookup(self, e: u32) -> Option<u32> {
        self.map.spec_get(e as int)
    }

    /// Whether entity `e` has a registered handle.
    pub open spec fn spec_contains(self, e: u32) -> bool {
        self.spec_lookup(e) is Some
    }

    /// How many entities have a registered handle.
    pub open spec fn spec_len(self) -> nat {
        self.map.spec_len()
    }

    /// An empty registry.
    pub fn new() -> (r: HandleMap)
        ensures
            r.wf(),
            r.spec_len() == 0,
            forall|e: u32| r.spec_lookup(e) is None,
    {
        HandleMap { map: IndexMap::new() }
    }

    /// The number of registered entities.
    pub fn len(&self) -> (r: usize)
        requires
            self.wf(),
        ensures
            r == self.spec_len(),
    {
        self.map.len()
    }

    /// Whether entity `e` has a registered handle. Never panics on a missing
    /// entity.
    pub fn contains(&self, e: u32) -> (r: bool)
        ensures
            r == self.spec_contains(e),
    {
        self.map.contains_key(e)
    }

    /// The handle registered for entity `e`, if any. Never panics on a
    /// missing entity.
    pub fn lookup(&self, e: u32) -> (r: Option<u32>)
        ensures
            r == self.spec_lookup(e),
    {
        match self.map.get(e) {
            Some(h) => Some(*h),
            None => None,
        }
    }

    /// Registers `handle` for entity `e`. Fails if `e` already has a live
    /// handle, in which case nothing changes: the caller must unregister
    /// (and remove the engine object) first.
    pub fn register(&mut self, e: u32, handle: u32) -> (r: Result<(), DuplicateHandleError>)
        requires
            old(self).wf(),
        ensures
            final(self).wf(),
            r is Ok <==> !old(self).spec_contains(e),
            r is Ok ==> final(self).spec_lookup(e) == Some(handle),
            r is Ok ==> final(self).spec_len() == old(self).spec_len() + 1,
            r is Err ==> *final(self) == *old(self),
            forall|x: u32| x != e ==> final(self).spec_lookup(x) == old(self).spec_lookup(x),
    {
        if self.map.contains_key(e) {
            Err(DuplicateHandleError)
        } else {
            let _ = self.map.insert(e, handle);
            Ok(())
        }
    }

    /// A registry with no registered entity has length zero.
    pub proof fn lemma_len_zero(m: HandleMap)
        requires
            m.wf(),
            forall|e: u32| m.spec_lookup(e) is None,
        ensures
            m.spec_len() == 0,
    {
        assert forall|k: int| m.map.spec_get(k) is None by {
            if 0 <= k <= u32::MAX {
                assert(m.spec_lookup(k as u32) is None);
            } else {
                crate::index_map::IndexMap::lemma_negative_key_vacant(m.map, k);
                assert(k < 0 ==> m.map.spec_get(k) is None);
                if k > u32::MAX {
                    assert(m.map.spec_get(k) is None) by {
                        crate::index_map::IndexMap::lemma_key_above_range_vacant(m.map, k);
                    }
                }
            }
        }
        crate::index_map::IndexMap::lemma_len_zero(m.map);
    }

    /// A registry whose only registered entity is `e` has length one.
    pub proof fn lemma_len_one(m: HandleMap, e: u32)
        requires
            m.wf(),
            m.spec_lookup(e) is Some,
            forall|x: u32| x != e ==> m.spec_lookup(x) is None,
        ensures
            m.spec_len() == 1,
    {
        assert forall|k: int| k != e as int implies m.map.spec_get(k) is None by {
            if 0 <= k <= u32::MAX {
                assert(m.spec_lookup(k as u32) is None);
            } else if k < 0 {
                crate::index_map::IndexMap::lemma_negative_key_vacant(m.map, k);
            } else {
                crate::index_map::IndexMap::lemma_key_above_range_vacant(m.map, k);
            }
        }
        crate::index_map::IndexMap::lemma_len_one(m.map, e as int);
    }

    /// Removes and returns the handle registered for entity `e`. Idempotent:
    /// a second call returns `None` and changes nothing.
    pub fn unregister(&mut self, e: u32) -> (r: Option<u32>)
        requires
            old(self).wf(),
        ensures
            final(self).wf(),
            r == old(self).spec_lookup(e),
            !final(self).spec_contains(e),
            forall|x: u32| x != e ==> final(self).spec_lookup(x) == old(self).spec_lookup(x),
            final(self).spec_len() == old(self).spec_len() - (if r is Some {
                1nat
            } else {
                0nat
            }),
    {
        self.map.remove(e)
    }
}

} // verus!

verus! {

/// Optional back-reference from a collider-only entity to the parent
/// entity whose body the collider should attach to. A weak relation: if
/// the parent entity has no live body, the collider attaches to ground
/// instead.
#[derive(Clone, Copy, Debug, PartialEq, Eq, Structural)]
pub struct PhysicsParent {
    pub entity: u32,
}

} // verus!
