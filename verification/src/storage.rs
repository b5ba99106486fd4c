//! Component storage with change tracking.
//!
//! Each tracked component type lives in a [`FlaggedStorage`]: a map from
//! entity index to component value together with an ordered event log of
//! insertions, modifications and removals. A system holds a persistent
//! [`ReaderId`] cursor into the log, established once at setup; each frame
//! it drains the events written since its last drain, so every event is
//! delivered to each reader exactly once, and independent readers never
//! interfere.

use vstd::prelude::*;
use crate::index_map::{IndexMap, IndexSet};

verus! {

/// A change notification for one entity's component.
#[derive(Clone, Copy, Debug, PartialEq, Eq, Structural)]
pub enum ComponentEvent {
    /// The component was inserted, possibly replacing a previous value.
    Inserted(u32),
    /// The component's value was modified in place.
    Modified(u32),
    /// The component was removed.
    Removed(u32),
}

/// A persistent cursor into an event channel. Create it once at setup and
/// keep it: a recreated reader starts at the end of the log and silently
/// misses everything written before.
#[derive(Clone, Copy, Debug, PartialEq, Eq, Structural)]
pub struct ReaderId {
    pub cursor: usize,
}

/// An ordered, append-only log of events, drained independently by any
/// number of readers.
pub struct EventChannel<T> {
    events: Vec<T>,
}

impl<T: Copy> EventChannel<T> {
    /// The events written so far, oldest first.
    pub closed spec fn spec_events(self) -> Seq<T> {
        self.events@
    }

    /// Whether `reader` points into this channel's log.
    pub open spec fn spec_valid_reader(self, reader: ReaderId) -> bool {
        reader.cursor <= self.spec_events().len()
    }

    /// An empty channel.
    pub fn new() -> (r: EventChannel<T>)
        ensures
            r.spec_events() == Seq::<T>::empty(),
    {
        EventChannel { events: Vec::new() }
    }

    /// How many events have been written so far.
    pub fn len(&self) -> (r: usize)
        ensures
            r == self.spec_events().len(),
    {
        self.events.len()
    }

    /// A cursor positioned at the current end of the log: it will observe
    /// exactly the events written from now on.
    pub fn register_reader(&self) -> (r: ReaderId)
        ensures
            r.cursor == self.spec_events().len(),
            self.spec_valid_reader(r),
    {
        ReaderId { cursor: self.events.len() }
    }

    /// Appends one event.
    pub fn single_write(&mut self, event: T)
        ensures
            final(self).spec_events() == old(self).spec_events().push(event),
    {
        self.events.push(event);
    }

    /// Appends a batch of events in order.
    pub fn iter_write(&mut self, events: &Vec<T>)
        ensures
            final(self).spec_events() == old(self).spec_events() + events@,
    {
        let mut i: usize = 0;
        while i < events.len()
            invariant
                i <= events@.len(),
                self.spec_events() == old(self).spec_events() + events@.take(i as int),
            decreases events@.len() - i,
        {
            let e = events[i];
            self.events.push(e);
            proof {
                assert(old(self).spec_events() + events@.take(i + 1) =~= (old(
                    self,
                ).spec_events() + events@.take(i as int)).push(events@[i as int]));
            }
            i = i + 1;
        }
        proof {
            assert(events@.take(events@.len() as int) =~= events@);
        }
    }

    /// Drains the events `reader` has not yet seen, oldest first, and
    /// advances the cursor past them. A second drain without intervening
    /// writes returns nothing: every event reaches each reader exactly
    /// once.
    pub fn read(&self, reader: &mut ReaderId) -> (r: Vec<T>)
        requires
            self.spec_valid_reader(*old(reader)),
        ensures
            r@ == self.spec_events().skip(old(reader).cursor as int),
            final(reader).cursor == self.spec_events().len(),
            self.spec_valid_reader(*final(reader)),
    {
        let mut out: Vec<T> = Vec::new();
        let mut i: usize = reader.cursor;
        while i < self.events.len()
            invariant
                reader.cursor <= i <= self.events@.len(),
                out@ == self.events@.subrange(reader.cursor as int, i as int),
            decreases self.events@.len() - i,
        {
            let e = self.events[i];
            out.push(e);
            proof {
                assert(self.events@.subrange(reader.cursor as int, i + 1) =~= self.events@.subrange(
                    reader.cursor as int,
                    i as int,
                ).push(self.events@[i as int]));
            }
            i = i + 1;
        }
        reader.cursor = self.events.len();
        proof {
            assert(self.events@.subrange(
                old(reader).cursor as int,
                self.events@.len() as int,
            ) =~= self.events@.skip(old(reader).cursor as int));
        }
        out
    }
}

/// Consecutive drains deliver every event exactly once: what a reader saw
/// before the log grew and what it sees afterwards are disjoint slices
/// that join back into everything written since the cursor.
pub proof fn lemma_exactly_once_delivery<T>(log: Seq<T>, grown: Seq<T>, cursor: int)
    requires
        0 <= cursor <= log.len(),
        grown.len() >= log.len(),
        grown.take(log.len() as int) == log,
    ensures
        log.skip(cursor) + grown.skip(log.len() as int) == grown.skip(cursor),
        log.skip(cursor).len() + grown.skip(log.len() as int).len() == grown.skip(cursor).len(),
{
    assert(forall|j: int| 0 <= j < log.len() ==> grown[j] == #[trigger] log[j]) by {
        assert(forall|j: int|
            0 <= j < log.len() ==> #[trigger] log[j] == grown.take(log.len() as int)[j]);
    }
    assert(log.skip(cursor) + grown.skip(log.len() as int) =~= grown.skip(cursor));
}

/// A component storage with change tracking: a dense map from entity index
/// to value, and the event channel recording every change to it.
pub struct FlaggedStorage<T> {
    pub data: IndexMap<T>,
    pub channel: EventChannel<ComponentEvent>,
}

impl<T> FlaggedStorage<T> {
    /// Whether the underlying map is well formed.
    pub open spec fn wf(self) -> bool {
        self.data.wf()
    }

    /// The component of entity `e`, if any.
    pub open spec fn spec_get(self, e: u32) -> Option<T> {
        self.data.spec_get(e as int)
    }

    /// The change events recorded so far.
    pub open spec fn spec_events(self) -> Seq<ComponentEvent> {
        self.channel.spec_events()
    }

    /// How many entities have the component.
    pub open spec fn spec_len(self) -> nat {
        self.data.spec_len()
    }

    /// An empty storage with an empty log.
    pub fn new() -> (r: FlaggedStorage<T>)
        ensures
            r.wf(),
            r.spec_len() == 0,
            forall|e: u32| r.spec_get(e) is None,
            r.spec_events() == Seq::<ComponentEvent>::empty(),
    {
        FlaggedStorage { data: IndexMap::new(), channel: EventChannel::new() }
    }

    /// The component of entity `e`, if any.
    pub fn get(&self, e: u32) -> (r: Option<&T>)
        ensures
            match r {
                Some(v) => self.spec_get(e) == Some(*v),
                None => self.spec_get(e) is None,
            },
    {
        self.data.get(e)
    }

    /// Whether entity `e` has the component.
    pub fn contains(&self, e: u32) -> (r: bool)
        ensures
            r == (self.spec_get(e) is Some),
    {
        self.data.contains_key(e)
    }

    /// How many entities have the component.
    pub fn len(&self) -> (r: usize)
        requires
            self.wf(),
        ensures
            r == self.spec_len(),
    {
        self.data.len()
    }

    /// An index at or beyond every entity that has the component.
    pub fn entity_bound(&self) -> (r: usize)
        requires
            self.wf(),
        ensures
            forall|e: int| e >= r ==> self.data.spec_get(e) is None,
            r as int <= u32::MAX as int + 1,
    {
        self.data.key_bound()
    }

    /// Gives entity `e` the component value `v` and records an `Inserted`
    /// event — also when a previous value is replaced, which the returned
    /// value reports.
    pub fn insert(&mut self, e: u32, v: T) -> (prev: Option<T>)
        requires
            old(self).wf(),
        ensures
            final(self).wf(),
            prev == old(self).spec_get(e),
            final(self).spec_get(e) == Some(v),
            forall|x: u32| x != e ==> final(self).spec_get(x) == old(self).spec_get(x),
            final(self).spec_events() == old(self).spec_events().push(ComponentEvent::Inserted(e)),
            final(self).spec_len() == old(self).spec_len() + (if prev is Some {
                0nat
            } else {
                1nat
            }),
    {
        let prev = self.data.insert(e, v);
        self.channel.single_write(ComponentEvent::Inserted(e));
        prev
    }

    /// Replaces the component value of entity `e` in place and records a
    /// `Modified` event; returns whether the entity had the component, and
    /// changes nothing if it did not.
    pub fn modify(&mut self, e: u32, v: T) -> (r: bool)
        requires
            old(self).wf(),
        ensures
            final(self).wf(),
            r == old(self).spec_get(e) is Some,
            r ==> final(self).spec_get(e) == Some(v),
            !r ==> final(self).spec_get(e) is None,
            forall|x: u32| x != e ==> final(self).spec_get(x) == old(self).spec_get(x),
            r ==> final(self).spec_events() == old(self).spec_events().push(
                ComponentEvent::Modified(e),
            ),
            !r ==> final(self).spec_events() == old(self).spec_events(),
            final(self).spec_len() == old(self).spec_len(),
    {
        if self.data.contains_key(e) {
            let _ = self.data.insert(e, v);
            self.channel.single_write(ComponentEvent::Modified(e));
            true
        } else {
            false
        }
    }

    /// Takes entity `e`'s component away, recording a `Removed` event if
    /// there was one to remove.
    pub fn remove(&mut self, e: u32) -> (prev: Option<T>)
        requires
            old(self).wf(),
        ensures
            final(self).wf(),
            prev == old(self).spec_get(e),
            final(self).spec_get(e) is None,
            forall|x: u32| x != e ==> final(self).spec_get(x) == old(self).spec_get(x),
            prev is Some ==> final(self).spec_events() == old(self).spec_events().push(
                ComponentEvent::Removed(e),
            ),
            prev is None ==> final(self).spec_events() == old(self).spec_events(),
            final(self).spec_len() == old(self).spec_len() - (if prev is Some {
                1nat
            } else {
                0nat
            }),
    {
        let prev = self.data.remove(e);
        if prev.is_some() {
            self.channel.single_write(ComponentEvent::Removed(e));
        }
        prev
    }

    /// A cursor positioned at the current end of this storage's log.
    pub fn register_reader(&self) -> (r: ReaderId)
        ensures
            r.cursor == self.spec_events().len(),
    {
        self.channel.register_reader()
    }
}

/// Drains all events `reader` has not yet seen from `storage`'s log and
/// partitions the mentioned entities into the three change sets:
/// inserted, modified and removed.
pub fn iterate_component_events<T>(storage: &FlaggedStorage<T>, reader: &mut ReaderId) -> (r: (
    IndexSet,
    IndexSet,
    IndexSet,
))
    requires
        old(reader).cursor <= storage.spec_events().len(),
    ensures
        final(reader).cursor == storage.spec_events().len(),
        r.0.wf() && r.1.wf() && r.2.wf(),
        r.0.spec_items().len() + r.1.spec_items().len() + r.2.spec_items().len()
            <= storage.spec_events().len() - old(reader).cursor,
        forall|x: u32|
            #[trigger] r.0.spec_contains(x) == storage.spec_events().skip(
                old(reader).cursor as int,
            ).contains(ComponentEvent::Inserted(x)),
        forall|x: u32|
            #[trigger] r.1.spec_contains(x) == storage.spec_events().skip(
                old(reader).cursor as int,
            ).contains(ComponentEvent::Modified(x)),
        forall|x: u32|
            #[trigger] r.2.spec_contains(x) == storage.spec_events().skip(
                old(reader).cursor as int,
            ).contains(ComponentEvent::Removed(x)),
{
    let events = storage.channel.read(reader);
    let mut inserted = IndexSet::new();
    let mut modified = IndexSet::new();
    let mut removed = IndexSet::new();
    let mut i: usize = 0;
    while i < events.len()
        invariant
            inserted.wf() && modified.wf() && removed.wf(),
            i <= events@.len(),
            inserted.spec_items().len() + modified.spec_items().len()
                + removed.spec_items().len() <= i,
            forall|x: u32|
                #[trigger] inserted.spec_contains(x) == events@.take(i as int).contains(
                    ComponentEvent::Inserted(x),
                ),
            forall|x: u32|
                #[trigger] modified.spec_contains(x) == events@.take(i as int).contains(
                    ComponentEvent::Modified(x),
                ),
            forall|x: u32|
                #[trigger] removed.spec_contains(x) == events@.take(i as int).contains(
                    ComponentEvent::Removed(x),
                ),
        decreases events@.len() - i,
    {
        let event = events[i];
        match event {
            ComponentEvent::Inserted(id) => inserted.add(id),
            ComponentEvent::Modified(id) => modified.add(id),
            ComponentEvent::Removed(id) => removed.add(id),
        }
        proof {
            assert(events@.take(i + 1).drop_last() =~= events@.take(i as int));
            assert(events@.take(i + 1).last() == events@[i as int]);
            assert forall|ev: ComponentEvent|
                #[trigger] events@.take(i + 1).contains(ev) == (events@.take(i as int).contains(ev)
                    || ev == events@[i as int]) by {
                let s1 = events@.take(i + 1);
                let s0 = events@.take(i as int);
                if s1.contains(ev) {
                    let ix = choose|ix: int| 0 <= ix < s1.len() && s1[ix] == ev;
                    if ix < i {
                        assert(s0[ix] == ev);
                    }
                }
                if s0.contains(ev) {
                    let ix = choose|ix: int| 0 <= ix < s0.len() && s0[ix] == ev;
                    assert(s1[ix] == ev);
                }
                if ev == events@[i as int] {
                    assert(s1[i as int] == ev);
                }
            }
        }
        i = i + 1;
    }
    proof {
        assert(events@.take(events@.len() as int) =~= events@);
    }
    (inserted, modified, removed)
}

} // verus!
