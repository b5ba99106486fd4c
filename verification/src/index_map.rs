//! Verified containers keyed by small integer indices.
//!
//! [`IndexMap`] is a dense map from an integer key to a value, used for the
//! handle registry and for the engine-facing object stores. [`IndexSet`] is
//! a duplicate-free set of entity indices, used for the per-frame change
//! sets. Both carry exact contracts: every operation states which keys it
//! touches and that all others are left alone.

use vstd::prelude::*;
use vstd::std_specs::vec::vec_index_mut;

verus! {

broadcast use vstd::seq_lib::lemma_seq_contains_after_push;

/// How many of the slots in `s` are occupied.
pub open spec fn count_some<V>(s: Seq<Option<V>>) -> nat
    decreases s.len(),
{
    if s.len() == 0 {
        0
    } else {
        count_some(s.drop_last()) + (if s.last() is Some {
            1nat
        } else {
            0nat
        })
    }
}

proof fn lemma_count_some_le_len<V>(s: Seq<Option<V>>)
    ensures
        count_some(s) <= s.len(),
    decreases s.len(),
{
    if s.len() > 0 {
        lemma_count_some_le_len(s.drop_last());
    }
}

proof fn lemma_count_some_push<V>(s: Seq<Option<V>>, v: Option<V>)
    ensures
        count_some(s.push(v)) == count_some(s) + (if v is Some {
            1nat
        } else {
            0nat
        }),
{
    assert(s.push(v).drop_last() =~= s);
    assert(s.push(v).last() == v);
}

proof fn lemma_count_some_update<V>(s: Seq<Option<V>>, i: int, v: Option<V>)
    requires
        0 <= i < s.len(),
    ensures
        count_some(s.update(i, v)) + (if s[i] is Some {
            1nat
        } else {
            0nat
        }) == count_some(s) + (if v is Some {
            1nat
        } else {
            0nat
        }),
    decreases s.len(),
{
    let t = s.update(i, v);
    if i == s.len() - 1 {
        assert(t.drop_last() =~= s.drop_last());
        assert(t.last() == v);
        assert(s.last() == s[i]);
    } else {
        assert(t.drop_last() =~= s.drop_last().update(i, v));
        assert(t.last() == s.last());
        lemma_count_some_update(s.drop_last(), i, v);
        assert(s.drop_last()[i] == s[i]);
    }
}

/// A dense map from small integer keys to values.
///
/// The slots vector is indexed directly by key; unused keys hold `None`,
/// and a counter keeps the number of occupied slots available in constant
/// time.
pub struct IndexMap<V> {
    slots: Vec<Option<V>>,
    occupied: usize,
}

impl<V> IndexMap<V> {
    /// Whether the occupancy counter agrees with the slots, which never
    /// outgrow the key space.
    pub closed spec fn wf(self) -> bool {
        self.occupied == count_some(self.slots@) && self.slots@.len() <= u32::MAX as int + 1
    }

    /// The value stored at `k`, if any.
    pub closed spec fn spec_get(self, k: int) -> Option<V> {
        if 0 <= k < self.slots@.len() {
            self.slots@[k]
        } else {
            None
        }
    }

    /// Whether `k` holds a value.
    pub open spec fn spec_contains_key(self, k: int) -> bool {
        self.spec_get(k) is Some
    }

    /// How many keys hold a value.
    pub closed spec fn spec_len(self) -> nat {
        count_some(self.slots@)
    }

    /// An empty map.
    pub fn new() -> (r: IndexMap<V>)
        ensures
            r.wf(),
            r.spec_len() == 0,
            forall|k: int| r.spec_get(k) is None,
    {
        IndexMap { slots: Vec::new(), occupied: 0 }
    }

    /// The number of keys that hold a value.
    pub fn len(&self) -> (r: usize)
        requires
            self.wf(),
        ensures
            r == self.spec_len(),
    {
        self.occupied
    }

    /// Whether `k` holds a value.
    pub fn contains_key(&self, k: u32) -> (r: bool)
        ensures
            r == self.spec_contains_key(k as int),
    {
        (k as usize) < self.slots.len() && self.slots[k as usize].is_some()
    }

    /// The value stored at `k`, if any.
    pub fn get(&self, k: u32) -> (r: Option<&V>)
        ensures
            match r {
                Some(v) => self.spec_get(k as int) == Some(*v),
                None => self.spec_get(k as int) is None,
            },
    {
        if (k as usize) < self.slots.len() {
            self.slots[k as usize].as_ref()
        } else {
            None
        }
    }

    /// Stores `v` at `k`, growing the slots if needed, and returns the value
    /// that previously occupied `k`.
    pub fn insert(&mut self, k: u32, v: V) -> (prev: Option<V>)
        requires
            old(self).wf(),
        ensures
            final(self).wf(),
            prev == old(self).spec_get(k as int),
            final(self).spec_get(k as int) == Some(v),
            forall|j: int| j != k as int ==> final(self).spec_get(j) == old(self).spec_get(j),
            final(self).spec_len() == old(self).spec_len() + (if prev is Some {
                0nat
            } else {
                1nat
            }),
    {
        let ghost orig = *self;
        while self.slots.len() <= k as usize
            invariant
                self.wf(),
                orig.wf(),
                self.occupied == orig.occupied,
                forall|j: int| self.spec_get(j) == orig.spec_get(j),
            decreases k as int + 1 - self.slots.len(),
        {
            proof {
                lemma_count_some_push(self.slots@, None::<V>);
                assert(forall|j: int|
                    0 <= j < self.slots@.len() ==> self.slots@.push(None::<V>)[j]
                        == self.slots@[j]);
            }
            self.slots.push(None);
        }
        proof {
            lemma_count_some_update(self.slots@, k as int, Some(v));
            lemma_count_some_le_len(self.slots@.update(k as int, Some(v)));
        }
        let slot = vec_index_mut(&mut self.slots, k as usize);
        let prev = slot.take();
        *slot = Some(v);
        if prev.is_none() {
            self.occupied = self.occupied + 1;
        }
        prev
    }

    /// Removes and returns the value at `k`, if any. Removing an absent key
    /// changes nothing.
    pub fn remove(&mut self, k: u32) -> (prev: Option<V>)
        requires
            old(self).wf(),
        ensures
            final(self).wf(),
            prev == old(self).spec_get(k as int),
            final(self).spec_get(k as int) is None,
            forall|j: int| j != k as int ==> final(self).spec_get(j) == old(self).spec_get(j),
            final(self).spec_len() == old(self).spec_len() - (if prev is Some {
                1nat
            } else {
                0nat
            }),
    {
        if (k as usize) < self.slots.len() {
            proof {
                lemma_count_some_update(self.slots@, k as int, None::<V>);
            }
            let slot = vec_index_mut(&mut self.slots, k as usize);
            let prev = slot.take();
            if prev.is_some() {
                self.occupied = self.occupied - 1;
            }
            prev
        } else {
            None
        }
    }

    /// A key outside the slot range never holds a value; in particular no
    /// negative key does.
    pub broadcast proof fn lemma_negative_key_vacant(m: IndexMap<V>, k: int)
        ensures
            k < 0 ==> (#[trigger] m.spec_get(k)) is None,
    {
    }

    /// In a well-formed map, any key above the key space is vacant.
    pub proof fn lemma_key_above_range_vacant(m: IndexMap<V>, k: int)
        requires
            m.wf(),
            k > u32::MAX,
        ensures
            m.spec_get(k) is None,
    {
    }

    /// A map whose every key is vacant has length zero.
    pub proof fn lemma_len_zero(m: IndexMap<V>)
        requires
            m.wf(),
            forall|k: int| m.spec_get(k) is None,
        ensures
            m.spec_len() == 0,
    {
        assert forall|i: int| 0 <= i < m.slots@.len() implies m.slots@[i] is None by {
            assert(m.spec_get(i) is None);
        }
        Self::lemma_count_some_all_none(m.slots@);
    }

    /// A map whose only occupied key is `k` has length one.
    pub proof fn lemma_len_one(m: IndexMap<V>, k: int)
        requires
            m.wf(),
            m.spec_get(k) is Some,
            forall|j: int| j != k ==> m.spec_get(j) is None,
        ensures
            m.spec_len() == 1,
    {
        assert(0 <= k < m.slots@.len());
        assert forall|i: int|
            0 <= i < m.slots@.len() && i != k implies m.slots@[i] is None by {
            assert(m.spec_get(i) is None);
        }
        Self::lemma_count_some_one(m.slots@, k);
    }

    proof fn lemma_count_some_all_none(s: Seq<Option<V>>)
        requires
            forall|i: int| 0 <= i < s.len() ==> s[i] is None,
        ensures
            count_some(s) == 0,
        decreases s.len(),
    {
        if s.len() > 0 {
            Self::lemma_count_some_all_none(s.drop_last());
        }
    }

    proof fn lemma_count_some_one(s: Seq<Option<V>>, k: int)
        requires
            0 <= k < s.len(),
            s[k] is Some,
            forall|i: int| 0 <= i < s.len() && i != k ==> s[i] is None,
        ensures
            count_some(s) == 1,
        decreases s.len(),
    {
        if k == s.len() - 1 {
            Self::lemma_count_some_all_none(s.drop_last());
        } else {
            Self::lemma_count_some_one(s.drop_last(), k);
        }
    }

    /// The smallest bound above every occupied key: each key at or beyond it
    /// is vacant.
    pub fn key_bound(&self) -> (r: usize)
        requires
            self.wf(),
        ensures
            forall|j: int| j >= r ==> self.spec_get(j) is None,
            r as int <= u32::MAX as int + 1,
    {
        self.slots.len()
    }
}

/// A duplicate-free set of entity indices, kept in insertion order.
pub struct IndexSet {
    items: Vec<u32>,
}

impl IndexSet {
    /// No index occurs twice.
    pub open spec fn wf(self) -> bool {
        forall|i: int, j: int|
            0 <= i < j < self.spec_items().len() ==> self.spec_items()[i] != self.spec_items()[j]
    }

    /// Whether `x` is in the set.
    pub open spec fn spec_contains(self, x: u32) -> bool {
        self.spec_items().contains(x)
    }

    /// The indices as a sequence, in insertion order.
    pub closed spec fn spec_items(self) -> Seq<u32> {
        self.items@
    }

    /// An empty set.
    pub fn new() -> (r: IndexSet)
        ensures
            r.wf(),
            r.spec_items() == Seq::<u32>::empty(),
            forall|x: u32| !r.spec_contains(x),
    {
        IndexSet { items: Vec::new() }
    }

    /// How many indices are in the set.
    pub fn len(&self) -> (r: usize)
        ensures
            r == self.spec_items().len(),
    {
        self.items.len()
    }

    /// The index at position `i`, in insertion order.
    pub fn index(&self, i: usize) -> (r: u32)
        requires
            i < self.spec_items().len(),
        ensures
            r == self.spec_items()[i as int],
            self.spec_contains(r),
    {
        self.items[i]
    }

    /// Whether `x` is in the set.
    pub fn contains(&self, x: u32) -> (r: bool)
        ensures
            r == self.spec_contains(x),
    {
        let mut i: usize = 0;
        while i < self.items.len()
            invariant
                i <= self.items@.len(),
                forall|j: int| 0 <= j < i ==> self.items@[j] != x,
            decreases self.items@.len() - i,
        {
            if self.items[i] == x {
                return true;
            }
            i = i + 1;
        }
        false
    }

    /// Adds `x` to the set; adding a present index changes nothing.
    pub fn add(&mut self, x: u32)
        requires
            old(self).wf(),
        ensures
            final(self).wf(),
            final(self).spec_contains(x),
            forall|y: u32| y != x ==> final(self).spec_contains(y) == old(self).spec_contains(y),
            old(self).spec_contains(x) ==> final(self).spec_items() == old(self).spec_items(),
            !old(self).spec_contains(x) ==> final(self).spec_items() == old(self).spec_items().push(
                x,
            ),
    {
        if !self.contains(x) {
            self.items.push(x);
        }
    }

    /// Empties the set.
    pub fn clear(&mut self)
        ensures
            final(self).wf(),
            final(self).spec_items() == Seq::<u32>::empty(),
            forall|x: u32| !final(self).spec_contains(x),
    {
        self.items.clear();
    }

    /// The union of this set with `other`, as a new set.
    pub fn union(&self, other: &IndexSet) -> (r: IndexSet)
        requires
            self.wf(),
        ensures
            r.wf(),
            forall|x: u32|
                #[trigger] r.spec_contains(x) == (self.spec_contains(x) || other.spec_contains(x)),
            r.spec_items().len() <= self.spec_items().len() + other.spec_items().len(),
    {
        let mut out = IndexSet { items: Vec::new() };
        let mut i: usize = 0;
        while i < self.items.len()
            invariant
                self.wf(),
                out.wf(),
                i <= self.items@.len(),
                out.spec_items().len() <= i,
                forall|x: u32|
                    #[trigger] out.spec_contains(x) == self.items@.take(i as int).contains(x),
            decreases self.items@.len() - i,
        {
            let x = self.items[i];
            out.add(x);
            proof {
                assert(self.items@.take(i + 1).drop_last() =~= self.items@.take(i as int));
                assert(self.items@.take(i + 1).last() == self.items@[i as int]);
                assert(forall|y: u32|
                    #[trigger] self.items@.take(i + 1).contains(y) == (self.items@.take(
                        i as int,
                    ).contains(y) || y == self.items@[i as int])) by {
                    assert(forall|y: u32|
                        self.items@.take(i as int).contains(y) ==> #[trigger] self.items@.take(
                            i + 1,
                        ).contains(y)) by {
                        assert(forall|j: int|
                            0 <= j < i ==> self.items@.take(i + 1)[j] == #[trigger] self.items@.take(
                                i as int,
                            )[j]);
                    }
                }
            }
            i = i + 1;
        }
        proof {
            assert(self.items@.take(self.items@.len() as int) =~= self.items@);
        }
        let ghost mid = out;
        let mut i: usize = 0;
        while i < other.items.len()
            invariant
                out.wf(),
                i <= other.items@.len(),
                out.spec_items().len() <= self.spec_items().len() + i,
                forall|x: u32|
                    #[trigger] out.spec_contains(x) == (mid.spec_contains(x)
                        || other.items@.take(i as int).contains(x)),
            decreases other.items@.len() - i,
        {
            let x = other.items[i];
            out.add(x);
            proof {
                assert(other.items@.take(i + 1).drop_last() =~= other.items@.take(i as int));
                assert(other.items@.take(i + 1).last() == other.items@[i as int]);
                assert(forall|y: u32|
                    #[trigger] other.items@.take(i + 1).contains(y) == (other.items@.take(
                        i as int,
                    ).contains(y) || y == other.items@[i as int])) by {
                    assert(forall|y: u32|
                        other.items@.take(i as int).contains(y) ==> #[trigger] other.items@.take(
                            i + 1,
                        ).contains(y)) by {
                        assert(forall|j: int|
                            0 <= j < i ==> other.items@.take(i + 1)[j]
                                == #[trigger] other.items@.take(i as int)[j]);
                    }
                }
            }
            i = i + 1;
        }
        proof {
            assert(other.items@.take(other.items@.len() as int) =~= other.items@);
        }
        out
    }
}

} // verus!
