//! A slot table that hands out compact `u8` identifiers for stored values.
//!
//! An identifier is *live* while a value is stored under it, and becomes
//! *reclaimable* once removed: it is then appended to a FIFO free list and is
//! preferred over a fresh identifier by the next allocation.  A fresh
//! identifier is issued from a monotonic counter, so at most 256 identifiers
//! can ever be live at once; allocating beyond that is reported as
//! [`CapacityError`] rather than reusing a live slot.

use std::collections::HashMap;
use std::collections::VecDeque;
use vstd::prelude::*;

verus! {

/// The identifier space is fully occupied: every one of the 256 identifiers
/// is live and none is reclaimable.
#[derive(Clone, Copy, Debug, PartialEq, Eq, Structural)]
pub struct CapacityError;

/// A container mapping a small unsigned identifier to a stored value, with
/// constant-time insert/lookup/remove and FIFO reuse of freed identifiers.
pub struct UniqueIdCollection<T> {
    /// The live slots: an identifier is live iff it is a key here.
    items: HashMap<u8, T>,
    /// Freed identifiers awaiting reuse, oldest-freed first.
    deleted_ids: VecDeque<u8>,
    /// The next never-before-issued identifier.  One step wider than the
    /// identifier type so that the exhausted state (256 issued) is a value.
    id_counter: u16,
}

impl<T> UniqueIdCollection<T> {
    /// The live slots, as a map from identifier to stored value.
    pub closed spec fn slots_map(&self) -> Map<u8, T> {
        self.items@
    }

    /// The reclaimable identifiers, oldest-freed first.
    pub closed spec fn free_ids(&self) -> Seq<u8> {
        self.deleted_ids@
    }

    /// The next never-before-issued identifier; `256` once all are issued.
    pub closed spec fn next_fresh(&self) -> int {
        self.id_counter as int
    }

    /// Whether an allocation can succeed: some identifier is reclaimable, or
    /// a fresh one remains to be issued.
    pub open spec fn can_allocate(&self) -> bool {
        self.free_ids().len() > 0 || self.next_fresh() < 256
    }

    /// The identifier the next successful allocation returns: the oldest
    /// reclaimable one if any, else the next fresh one.
    pub open spec fn next_alloc_id(&self) -> int {
        if self.free_ids().len() > 0 {
            self.free_ids()[0] as int
        } else {
            self.next_fresh()
        }
    }

    /// The internal invariant.
    ///
    /// Every live or reclaimable identifier has been issued; an identifier is
    /// never both live and reclaimable, nor reclaimable twice over; and every
    /// issued identifier is accounted for as either live or reclaimable.
    pub closed spec fn wf(&self) -> bool {
        &&& self.id_counter <= 256
        &&& forall|id: u8| #[trigger] self.items@.contains_key(id) ==> (id as int) < self.id_counter as int
        &&& forall|k: int| 0 <= k < self.deleted_ids@.len()
            ==> (#[trigger] self.deleted_ids@[k] as int) < self.id_counter as int
        &&& forall|k: int| 0 <= k < self.deleted_ids@.len()
            ==> !self.items@.contains_key(#[trigger] self.deleted_ids@[k])
        &&& forall|k1: int, k2: int|
            0 <= k1 < k2 < self.deleted_ids@.len()
                ==> self.deleted_ids@[k1] != self.deleted_ids@[k2]
        &&& forall|id: u8|
            (id as int) < self.id_counter as int
                ==> #[trigger] self.items@.contains_key(id) || self.deleted_ids@.contains(id)
    }

    /// Creates an empty collection: nothing live, nothing reclaimable, and
    /// the fresh counter at zero.
    pub fn new() -> (c: Self)
        ensures
            c.wf(),
            c.slots_map() == Map::<u8, T>::empty(),
            c.free_ids() == Seq::<u8>::empty(),
            c.next_fresh() == 0,
    {
        UniqueIdCollection { items: HashMap::new(), deleted_ids: VecDeque::new(), id_counter: 0 }
    }

    /// Inserts the value and returns its assigned identifier: the oldest
    /// reclaimable identifier if any, else the next fresh one.  Fails exactly
    /// when the identifier space is exhausted, leaving the collection
    /// unchanged.  A returned identifier is live and no longer reclaimable.
    pub fn add_item(&mut self, item: T) -> (r: Result<u8, CapacityError>)
        requires
            old(self).wf(),
        ensures
            final(self).wf(),
            r is Ok <==> old(self).can_allocate(),
            match r {
                Ok(id) => {
                    &&& id as int == old(self).next_alloc_id()
                    &&& !old(self).slots_map().contains_key(id)
                    &&& final(self).slots_map() == old(self).slots_map().insert(id, item)
                    &&& final(self).slots_map().len() == old(self).slots_map().len() + 1
                    &&& !final(self).free_ids().contains(id)
                    &&& if old(self).free_ids().len() > 0 {
                        final(self).free_ids() == old(self).free_ids().drop_first()
                            && final(self).next_fresh() == old(self).next_fresh()
                    } else {
                        final(self).free_ids() == old(self).free_ids() && final(self).next_fresh()
                            == old(self).next_fresh() + 1
                    }
                },
                Err(_) => {
                    &&& final(self).slots_map() == old(self).slots_map()
                    &&& final(self).free_ids() == old(self).free_ids()
                    &&& final(self).next_fresh() == old(self).next_fresh()
                    &&& old(self).free_ids().len() == 0
                    &&& old(self).next_fresh() == 256
                },
            },
    {
        match self.deleted_ids.pop_front() {
            Some(reused_id) => {
                proof {
                    // The front of the free list is reclaimable, hence not live.
                    assert(!old(self).items@.contains_key(old(self).deleted_ids@[0]));
                }
                self.items.insert(reused_id, item);
                proof {
                    self.lemma_wf_after_reuse(*old(self), reused_id, item);
                }
                Ok(reused_id)
            },
            None => {
                if self.id_counter < 256 {
                    let new_id: u8 = self.id_counter as u8;
                    proof {
                        // A fresh identifier was never issued, hence is not live.
                        assert(!old(self).items@.contains_key(new_id));
                    }
                    self.items.insert(new_id, item);
                    self.id_counter = self.id_counter + 1;
                    proof {
                        self.lemma_wf_after_fresh(*old(self), new_id, item);
                    }
                    Ok(new_id)
                } else {
                    Err(CapacityError)
                }
            },
        }
    }

    /// The invariant is preserved when the front of the free list is popped
    /// and the value is stored under it.
    proof fn lemma_wf_after_reuse(&self, pre: Self, id: u8, item: T)
        requires
            pre.wf(),
            pre.deleted_ids@.len() > 0,
            id == pre.deleted_ids@[0],
            self.deleted_ids@ == pre.deleted_ids@.subrange(1, pre.deleted_ids@.len() as int),
            self.items@ == pre.items@.insert(id, item),
            self.id_counter == pre.id_counter,
        ensures
            self.wf(),
            !self.deleted_ids@.contains(id),
            self.items@.len() == pre.items@.len() + 1,
    {
        let pre_free = pre.deleted_ids@;
        let new_free = self.deleted_ids@;
        assert forall|k: int| 0 <= k < new_free.len() implies new_free[k] != id by {
            assert(new_free[k] == pre_free[k + 1]);
        }
        assert forall|k: int| 0 <= k < new_free.len() implies !self.items@.contains_key(
            #[trigger] new_free[k],
        ) by {
            assert(new_free[k] == pre_free[k + 1]);
        }
        assert forall|i: u8| (i as int) < self.id_counter as int implies #[trigger] self.items@
            .contains_key(i) || self.deleted_ids@.contains(i) by {
            if !self.items@.contains_key(i) {
                // Accounted for in the old state as reclaimable, at an index
                // past the popped front.
                assert(pre_free.contains(i));
                let k = choose|k: int| 0 <= k < pre_free.len() && pre_free[k] == i;
                assert(k != 0);
                assert(new_free[k - 1] == i);
            }
        }
        assert(!pre.items@.contains_key(id));
    }

    /// The invariant is preserved when a fresh identifier is issued and the
    /// value is stored under it.
    proof fn lemma_wf_after_fresh(&self, pre: Self, id: u8, item: T)
        requires
            pre.wf(),
            pre.deleted_ids@.len() == 0,
            pre.id_counter < 256,
            id as int == pre.id_counter as int,
            self.deleted_ids@ == pre.deleted_ids@,
            self.items@ == pre.items@.insert(id, item),
            self.id_counter as int == pre.id_counter as int + 1,
        ensures
            self.wf(),
            !self.deleted_ids@.contains(id),
            self.items@.len() == pre.items@.len() + 1,
    {
        assert(!pre.items@.contains_key(id));
        assert forall|i: u8| (i as int) < self.id_counter as int implies #[trigger] self.items@
            .contains_key(i) || self.deleted_ids@.contains(i) by {
            if (i as int) < pre.id_counter as int {
                assert(pre.items@.contains_key(i) || pre.deleted_ids@.contains(i));
            } else {
                assert(i == id);
            }
        }
    }

    /// Looks the identifier up among the live slots; absent when it is not
    /// live.  No side effects.
    pub fn get_item(&self, id: u8) -> (r: Option<&T>)
        ensures
            match r {
                Some(v) => self.slots_map().contains_key(id) && *v == self.slots_map()[id],
                None => !self.slots_map().contains_key(id),
            },
    {
        self.items.get(&id)
    }

    /// If the identifier is live, removes its value, appends the identifier
    /// to the tail of the free list, and returns the value.  Removing a
    /// non-live identifier is a no-op that returns absent: neither the live
    /// slots nor the free list change.
    pub fn remove_item(&mut self, id: u8) -> (r: Option<T>)
        requires
            old(self).wf(),
        ensures
            final(self).wf(),
            r is Some <==> old(self).slots_map().contains_key(id),
            match r {
                Some(v) => {
                    &&& v == old(self).slots_map()[id]
                    &&& final(self).slots_map() == old(self).slots_map().remove(id)
                    &&& final(self).slots_map().len() == old(self).slots_map().len() - 1
                    &&& final(self).free_ids() == old(self).free_ids().push(id)
                    &&& final(self).next_fresh() == old(self).next_fresh()
                },
                None => {
                    &&& final(self).slots_map() == old(self).slots_map()
                    &&& final(self).free_ids() == old(self).free_ids()
                    &&& final(self).next_fresh() == old(self).next_fresh()
                },
            },
    {
        match self.items.remove(&id) {
            Some(removed_item) => {
                self.deleted_ids.push_back(id);
                proof {
                    self.lemma_wf_after_remove(*old(self), id);
                }
                Some(removed_item)
            },
            None => None,
        }
    }

    /// The invariant is preserved when a live identifier's value is removed
    /// and the identifier is appended to the free list.
    proof fn lemma_wf_after_remove(&self, pre: Self, id: u8)
        requires
            pre.wf(),
            pre.items@.contains_key(id),
            self.items@ == pre.items@.remove(id),
            self.deleted_ids@ == pre.deleted_ids@.push(id),
            self.id_counter == pre.id_counter,
        ensures
            self.wf(),
            self.items@.len() == pre.items@.len() - 1,
    {
        let pre_free = pre.deleted_ids@;
        let new_free = self.deleted_ids@;
        // A live identifier is not reclaimable, so the push keeps the free
        // list duplicate-free.
        assert forall|k: int| 0 <= k < pre_free.len() implies pre_free[k] != id by {
            assert(!pre.items@.contains_key(pre_free[k]));
        }
        assert forall|i: u8| (i as int) < self.id_counter as int implies #[trigger] self.items@
            .contains_key(i) || self.deleted_ids@.contains(i) by {
            if i == id {
                assert(new_free[new_free.len() - 1] == id);
            } else if !self.items@.contains_key(i) {
                assert(pre_free.contains(i));
                let k = choose|k: int| 0 <= k < pre_free.len() && pre_free[k] == i;
                assert(new_free[k] == i);
            }
        }
    }

    /// If the identifier is live, replaces its stored value in place and
    /// reports success; otherwise leaves the collection unchanged.  This is
    /// the registry's mutable access to a stored value; identifiers and the
    /// free list are unaffected.
    pub(crate) fn update_item(&mut self, id: u8, item: T) -> (r: bool)
        requires
            old(self).wf(),
        ensures
            final(self).wf(),
            r == old(self).slots_map().contains_key(id),
            if r {
                final(self).slots_map() == old(self).slots_map().insert(id, item)
            } else {
                final(self).slots_map() == old(self).slots_map()
            },
            final(self).slots_map().len() == old(self).slots_map().len(),
            final(self).free_ids() == old(self).free_ids(),
            final(self).next_fresh() == old(self).next_fresh(),
    {
        if self.items.contains_key(&id) {
            self.items.insert(id, item);
            proof {
                assert(self.items@.dom() =~= old(self).items@.dom());
                assert forall|k: int| 0 <= k < self.deleted_ids@.len()
                    implies !self.items@.contains_key(#[trigger] self.deleted_ids@[k]) by {
                    assert(!old(self).items@.contains_key(self.deleted_ids@[k]));
                }
            }
            true
        } else {
            false
        }
    }

    /// The number of live entries.
    pub fn len(&self) -> (n: usize)
        ensures
            n == self.slots_map().len(),
    {
        self.items.len()
    }

    /// Whether no entry is live.
    pub fn is_empty(&self) -> (r: bool)
        ensures
            r == self.slots_map().is_empty(),
    {
        self.items.is_empty()
    }

    /// Law: an identifier is never both live and reclaimable — every
    /// identifier on the free list is absent from the live slots.  Together
    /// with `add_item`'s postcondition (a returned identifier is live and off
    /// the free list) this keeps live and reclaimable identifiers disjoint
    /// under every sequence of allocations and removals.
    pub proof fn lemma_free_ids_not_live(&self)
        requires
            self.wf(),
        ensures
            forall|k: int|
                0 <= k < self.free_ids().len() ==> !self.slots_map().contains_key(
                    #[trigger] self.free_ids()[k],
                ),
    {
    }

    /// Law: the free list never holds an identifier twice.
    pub proof fn lemma_free_ids_distinct(&self)
        requires
            self.wf(),
        ensures
            forall|k1: int, k2: int|
                0 <= k1 < k2 < self.free_ids().len() ==> self.free_ids()[k1] != self.free_ids()[k2],
    {
    }

    /// Law: FIFO reuse in the single-entry case.  When the free list is
    /// empty and a removal (whose postcondition appends the removed
    /// identifier) produces the state `post`, the very next allocation
    /// succeeds and returns exactly that identifier.
    pub proof fn lemma_fifo_reuse_single(pre: Self, post: Self, id: u8)
        requires
            pre.free_ids().len() == 0,
            post.free_ids() == pre.free_ids().push(id),
        ensures
            post.can_allocate(),
            post.next_alloc_id() == id,
    {
    }
}

impl<T> Default for UniqueIdCollection<T> {
    /// An empty collection, as [`UniqueIdCollection::new`] creates it.
    fn default() -> (c: Self)
        ensures
            c.wf(),
            c.slots_map() == Map::<u8, T>::empty(),
            c.free_ids() == Seq::<u8>::empty(),
            c.next_fresh() == 0,
    {
        UniqueIdCollection::new()
    }
}

} // verus!
