//! Constraint joints between two body parts.
//!
//! A joint component names the two intended targets as entity and
//! part-index pairs; it owns no bodies. The constraint set is the
//! engine-facing store of live joints, and it records insertion and
//! removal events with the anchors captured at the moment the store
//! reports them — the store is the source of truth for which body parts
//! a joint actually binds, the component only supplies the intention.

use vstd::prelude::*;
use crate::handle::{BodyHandle, BodyPartHandle, HandleMap};
use crate::index_map::IndexMap;

verus! {

/// Handle to a joint in the engine-facing constraint set.
#[derive(Clone, Copy, Debug, PartialEq, Eq, Hash, Structural)]
pub struct JointHandle(pub u32);

/// A joint component: the intended constraint between two body parts,
/// each named as an entity and the index of a part on its body.
#[derive(Clone, Copy, Debug, PartialEq, Eq, Structural)]
pub struct JointComponent {
    pub entity1: u32,
    pub part1: usize,
    pub entity2: u32,
    pub part2: usize,
}

/// A joint as the engine-facing store holds it: the two bound body
/// parts, and the entity stamped at creation.
#[derive(Clone, Copy, Debug, PartialEq, Eq, Structural)]
pub struct JointObject {
    pub anchor1: BodyPartHandle,
    pub anchor2: BodyPartHandle,
    pub user_data: Option<u32>,
}

/// Resolves a joint component's intended targets against the body
/// registry: both entities must have a registered body for the joint to
/// bind.
pub open spec fn spec_resolve_joint(registry: HandleMap, component: JointComponent) -> Option<
    (BodyPartHandle, BodyPartHandle),
> {
    let h1 = registry.spec_lookup(component.entity1);
    let h2 = registry.spec_lookup(component.entity2);
    if h1 is Some && h2 is Some {
        Some(
            (
                BodyPartHandle { set_handle: BodyHandle(h1->0), part_index: component.part1 },
                BodyPartHandle { set_handle: BodyHandle(h2->0), part_index: component.part2 },
            ),
        )
    } else {
        None
    }
}

/// Resolves a joint component's intended targets against the body
/// registry, returning the two anchors, or nothing when either entity
/// has no registered body.
pub fn resolve_joint(registry: &HandleMap, component: &JointComponent) -> (r: Option<
    (BodyPartHandle, BodyPartHandle),
>)
    ensures
        r == spec_resolve_joint(*registry, *component),
{
    match (registry.lookup(component.entity1), registry.lookup(component.entity2)) {
        (Some(h1), Some(h2)) => Some(
            (
                BodyPartHandle { set_handle: BodyHandle(h1), part_index: component.part1 },
                BodyPartHandle { set_handle: BodyHandle(h2), part_index: component.part2 },
            ),
        ),
        _ => None,
    }
}

/// The engine-facing store of live joints, with the insertion and
/// removal event queues the engine pops one at a time.
pub struct JointConstraintSet {
    pub joints: IndexMap<JointObject>,
    pub next_joint_handle: u32,
    pub insertions: Vec<(JointHandle, BodyPartHandle, BodyPartHandle)>,
    pub removals: Vec<(JointHandle, BodyPartHandle, BodyPartHandle)>,
}

impl JointConstraintSet {
    /// The store is well formed and fresh handles never collide.
    pub open spec fn wf(self) -> bool {
        &&& self.joints.wf()
        &&& forall|k: int| k >= self.next_joint_handle ==> self.joints.spec_get(k) is None
    }

    /// The joint stored at handle value `k`, if any.
    pub open spec fn spec_joint(self, k: int) -> Option<JointObject> {
        self.joints.spec_get(k)
    }

    /// An empty store with empty event queues.
    pub fn new() -> (r: JointConstraintSet)
        ensures
            r.wf(),
            r.joints.spec_len() == 0,
            forall|k: int| r.spec_joint(k) is None,
            r.insertions@ == Seq::<(JointHandle, BodyPartHandle, BodyPartHandle)>::empty(),
            r.removals@ == Seq::<(JointHandle, BodyPartHandle, BodyPartHandle)>::empty(),
    {
        JointConstraintSet {
            joints: IndexMap::new(),
            next_joint_handle: 0,
            insertions: Vec::new(),
            removals: Vec::new(),
        }
    }

    /// How many joints are live.
    pub fn len(&self) -> (r: usize)
        requires
            self.joints.wf(),
        ensures
            r == self.joints.spec_len(),
    {
        self.joints.len()
    }

    /// The joint at `handle`, if it is live.
    pub fn get(&self, handle: JointHandle) -> (r: Option<&JointObject>)
        ensures
            match r {
                Some(j) => self.spec_joint(handle.0 as int) == Some(*j),
                None => self.spec_joint(handle.0 as int) is None,
            },
    {
        self.joints.get(handle.0)
    }

    /// Whether the joint at `handle` is live.
    pub fn contains(&self, handle: JointHandle) -> (r: bool)
        ensures
            r == (self.spec_joint(handle.0 as int) is Some),
    {
        self.joints.contains_key(handle.0)
    }

    /// Stores a fresh joint and queues an insertion event carrying the
    /// anchors the store actually bound.
    pub fn insert(&mut self, joint: JointObject) -> (h: JointHandle)
        requires
            old(self).wf(),
            old(self).next_joint_handle < u32::MAX,
        ensures
            final(self).wf(),
            h.0 == old(self).next_joint_handle,
            old(self).spec_joint(h.0 as int) is None,
            final(self).spec_joint(h.0 as int) == Some(joint),
            forall|k: int| k != h.0 as int ==> final(self).spec_joint(k) == old(self).spec_joint(k),
            final(self).joints.spec_len() == old(self).joints.spec_len() + 1,
            final(self).insertions@ == old(self).insertions@.push(
                (h, joint.anchor1, joint.anchor2),
            ),
            final(self).removals@ == old(self).removals@,
    {
        let h = self.next_joint_handle;
        self.next_joint_handle = self.next_joint_handle + 1;
        let _ = self.joints.insert(h, joint);
        self.insertions.push((JointHandle(h), joint.anchor1, joint.anchor2));
        JointHandle(h)
    }

    /// Removes the joint at `handle`, queuing a removal event with the
    /// anchors read back from the live joint; removing an absent handle
    /// changes nothing and queues nothing.
    pub fn remove(&mut self, handle: JointHandle) -> (r: bool)
        requires
            old(self).wf(),
        ensures
            final(self).wf(),
            r == (old(self).spec_joint(handle.0 as int) is Some),
            final(self).spec_joint(handle.0 as int) is None,
            forall|k: int|
                k != handle.0 as int ==> final(self).spec_joint(k) == old(self).spec_joint(k),
            final(self).joints.spec_len() == old(self).joints.spec_len() - (if r {
                1nat
            } else {
                0nat
            }),
            match old(self).spec_joint(handle.0 as int) {
                Some(joint) => final(self).removals@ == old(self).removals@.push(
                    (handle, joint.anchor1, joint.anchor2),
                ),
                None => final(self).removals@ == old(self).removals@,
            },
            final(self).insertions@ == old(self).insertions@,
    {
        match self.joints.remove(handle.0) {
            Some(joint) => {
                self.removals.push((handle, joint.anchor1, joint.anchor2));
                true
            },
            None => false,
        }
    }

    /// Pops the oldest queued insertion event, if any.
    pub fn pop_insertion_event(&mut self) -> (r: Option<
        (JointHandle, BodyPartHandle, BodyPartHandle),
    >)
        ensures
            old(self).insertions@.len() == 0 ==> r is None && final(self).insertions@ == old(self).insertions@,
            old(self).insertions@.len() > 0 ==> r == Some(old(self).insertions@[0]) && final(self).insertions@ == old(self).insertions@.skip(1),
            final(self).removals@ == old(self).removals@,
            final(self).joints == old(self).joints,
            final(self).next_joint_handle == old(self).next_joint_handle,
    {
        if self.insertions.len() > 0 {
            Some(self.insertions.remove(0))
        } else {
            None
        }
    }

    /// Pops the oldest queued removal event, if any.
    pub fn pop_removal_event(&mut self) -> (r: Option<
        (JointHandle, BodyPartHandle, BodyPartHandle),
    >)
        ensures
            old(self).removals@.len() == 0 ==> r is None && final(self).removals@ == old(self).removals@,
            old(self).removals@.len() > 0 ==> r == Some(old(self).removals@[0]) && final(self).removals@ == old(self).removals@.skip(1),
            final(self).insertions@ == old(self).insertions@,
            final(self).joints == old(self).joints,
            final(self).next_joint_handle == old(self).next_joint_handle,
    {
        if self.removals.len() > 0 {
            Some(self.removals.remove(0))
        } else {
            None
        }
    }
}

impl Default for JointConstraintSet {
    /// Same as [`JointConstraintSet::new`].
    fn default() -> (r: JointConstraintSet)
        ensures
            r.wf(),
            r.joints.spec_len() == 0,
    {
        JointConstraintSet::new()
    }
}

} // verus!
