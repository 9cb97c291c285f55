use vstd::prelude::*;

use crate::errors::Error;

verus! {

/// An identity issued by the allocator: a slot number paired with the
/// generation under which the slot was handed out.
///
/// A slot number alone is not a safe reference, because slots are reused
/// after deallocation.  The generation counter disambiguates occupants: a
/// lookup keyed by a `GenerationalIndex` succeeds only when both the slot
/// and the recorded generation match, so an index that outlives its entity
/// silently stops matching instead of aliasing the slot's next occupant.
#[derive(Clone, Copy)]
pub struct GenerationalIndex {
    pub index: usize,
    pub generation: u32,
}

impl GenerationalIndex {
    /// The slot number of this index.
    pub open spec fn spec_index(&self) -> usize {
        self.index
    }

    /// The generation of this index.
    pub open spec fn spec_generation(&self) -> u32 {
        self.generation
    }

    /// Returns the slot number of this index.
    #[verifier::when_used_as_spec(spec_index)]
    pub fn index(&self) -> (r: usize)
        ensures
            r == self.spec_index(),
    {
        self.index
    }
}

/// Per-slot bookkeeping: the generation of the slot's current (or most
/// recent) occupant, and whether that occupant is still live.
struct AllocatorEntry {
    live: bool,
    generation: u32,
}

/// Owns the universe of slots: hands out fresh or recycled
/// `GenerationalIndex` values and tracks which of them are live.
///
/// `entries` holds one record per slot ever created; `free` lists the slot
/// numbers available for reuse.  A slot is never reused without its
/// generation being incremented, which is the single invariant that keeps
/// stale indices from aliasing new entities.
pub struct IndexAllocator {
    entries: Vec<AllocatorEntry>,
    free: Vec<usize>,
}

impl IndexAllocator {
    /// The number of slots this allocator has ever created.
    pub closed spec fn num_slots(&self) -> nat {
        self.entries@.len()
    }

    /// Whether the slot's current occupant is live.
    pub closed spec fn slot_live(&self, slot: int) -> bool {
        self.entries@[slot].live
    }

    /// The generation recorded for the slot's current occupant.
    pub closed spec fn slot_generation(&self, slot: int) -> u32 {
        self.entries@[slot].generation
    }

    /// The slot numbers currently available for reuse, oldest first.
    pub closed spec fn free_slots(&self) -> Seq<usize> {
        self.free@
    }

    /// An index names the current, live occupant of its slot: the slot
    /// exists, is marked live, and records the index's generation.
    pub open spec fn index_is_live(&self, index: GenerationalIndex) -> bool {
        &&& index.index() < self.num_slots()
        &&& self.slot_live(index.index() as int)
        &&& self.slot_generation(index.index() as int) == index.spec_generation()
    }

    /// Internal consistency: every freed slot number refers to an existing,
    /// non-live entry whose generation can still be incremented, and no slot
    /// number is freed twice.
    pub closed spec fn wf(&self) -> bool {
        &&& forall|i: int|
            0 <= i < self.free@.len() ==> {
                &&& (#[trigger] self.free@[i]) < self.entries@.len()
                &&& !self.entries@[self.free@[i] as int].live
                &&& self.entries@[self.free@[i] as int].generation < u32::MAX
            }
        &&& forall|i: int, j: int|
            0 <= i < j < self.free@.len() ==> #[trigger] self.free@[i] != #[trigger] self.free@[j]
    }

    /// The exact effect of one `allocate` call: if any slot is free, the most
    /// recently freed one is reused under an incremented generation;
    /// otherwise a brand-new slot is created under generation 0.  Either way
    /// every other slot is untouched.
    pub open spec fn allocate_rel(pre: Self, post: Self, r: GenerationalIndex) -> bool {
        if pre.free_slots().len() > 0 {
            let slot = pre.free_slots().last() as int;
            &&& r.index() == pre.free_slots().last()
            &&& r.spec_generation() == pre.slot_generation(slot) + 1
            &&& post.num_slots() == pre.num_slots()
            &&& post.slot_live(slot)
            &&& post.slot_generation(slot) == pre.slot_generation(slot) + 1
            &&& forall|j: int|
                0 <= j < pre.num_slots() && j != slot ==> #[trigger] post.slot_live(j)
                    == pre.slot_live(j)
            &&& forall|j: int|
                0 <= j < pre.num_slots() && j != slot ==> #[trigger] post.slot_generation(j)
                    == pre.slot_generation(j)
            &&& post.free_slots() == pre.free_slots().drop_last()
        } else {
            &&& r.index() == pre.num_slots()
            &&& r.spec_generation() == 0
            &&& post.num_slots() == pre.num_slots() + 1
            &&& post.slot_live(r.index() as int)
            &&& post.slot_generation(r.index() as int) == 0
            &&& forall|j: int|
                0 <= j < pre.num_slots() ==> #[trigger] post.slot_live(j) == pre.slot_live(j)
            &&& forall|j: int|
                0 <= j < pre.num_slots() ==> #[trigger] post.slot_generation(j)
                    == pre.slot_generation(j)
            &&& post.free_slots() == pre.free_slots()
        }
    }

    /// The exact effect of one `deallocate` call.  A live, generation-matching
    /// index has its slot marked dead and (unless the generation counter is
    /// exhausted) returned to the free list; a stale or already-dead index is
    /// rejected as a no-op, so the free list can never be corrupted by a
    /// double or late deallocation.
    pub open spec fn deallocate_rel(pre: Self, post: Self, index: GenerationalIndex) -> bool {
        if pre.index_is_live(index) {
            let slot = index.index() as int;
            &&& post.num_slots() == pre.num_slots()
            &&& !post.slot_live(slot)
            &&& post.slot_generation(slot) == pre.slot_generation(slot)
            &&& forall|j: int|
                0 <= j < pre.num_slots() && j != slot ==> #[trigger] post.slot_live(j)
                    == pre.slot_live(j)
            &&& forall|j: int|
                0 <= j < pre.num_slots() && j != slot ==> #[trigger] post.slot_generation(j)
                    == pre.slot_generation(j)
            &&& post.free_slots() == if index.spec_generation() < u32::MAX {
                pre.free_slots().push(index.index())
            } else {
                pre.free_slots()
            }
        } else {
            post == pre
        }
    }

    /// Creates an empty allocator: no slots, nothing to reuse.
    pub fn new() -> (r: IndexAllocator)
        ensures
            r.wf(),
            r.num_slots() == 0,
            r.free_slots() == Seq::<usize>::empty(),
    {
        IndexAllocator { entries: Vec::new(), free: Vec::new() }
    }

    /// Returns a unique generational index.
    ///
    /// Pops the most recently freed slot, increments that slot's generation
    /// and marks it live; if no slot is free, appends a brand-new slot under
    /// generation 0.  Never fails.
    pub fn allocate(&mut self) -> (r: Result<GenerationalIndex, Error>)
        requires
            old(self).wf(),
        ensures
            final(self).wf(),
            r matches Ok(idx) && Self::allocate_rel(*old(self), *final(self), idx),
            r matches Ok(idx) ==> final(self).index_is_live(idx),
    {
        match self.free.pop() {
            Some(slot) => {
                let generation = self.entries[slot].generation + 1;
                self.entries[slot] = AllocatorEntry { live: true, generation };
                Ok(GenerationalIndex { index: slot, generation })
            },
            None => {
                self.entries.push(AllocatorEntry { live: true, generation: 0 });
                Ok(GenerationalIndex { index: self.entries.len() - 1, generation: 0 })
            },
        }
    }

    /// De-allocates an index: marks its slot dead and queues the slot number
    /// for reuse.
    ///
    /// A stale request — a slot that is already dead, out of range, or whose
    /// recorded generation no longer matches the index — is rejected as a
    /// no-op rather than corrupting the free list.  A slot whose generation
    /// counter is exhausted is marked dead but never offered for reuse.
    pub fn deallocate(&mut self, index: &GenerationalIndex)
        requires
            old(self).wf(),
        ensures
            final(self).wf(),
            Self::deallocate_rel(*old(self), *final(self), *index),
    {
        let slot = index.index();
        if slot < self.entries.len() {
            let generation = self.entries[slot].generation;
            if self.entries[slot].live && generation == index.generation {
                self.entries[slot] = AllocatorEntry { live: false, generation };
                if generation < u32::MAX {
                    self.free.push(slot);
                }
            }
        }
    }

    /// Checks whether an index names the live occupant of its slot: the slot
    /// is marked live and its recorded generation equals the index's.
    pub fn is_live(&self, index: GenerationalIndex) -> (r: bool)
        requires
            index.index() < self.num_slots(),
        ensures
            r == self.index_is_live(index),
    {
        let slot = index.index();
        self.entries[slot].live && self.entries[slot].generation == index.generation
    }

    /// Law: starting from a fresh allocator, a run of allocations with no
    /// interleaved deallocation returns slot numbers 0, 1, 2, ... in order,
    /// every one under generation 0.
    ///
    /// `states` are the allocator states around each call: the call on
    /// `states[i]` yields `states[i + 1]` and returns `results[i]`.
    pub proof fn lemma_fresh_allocations_are_sequential(
        states: Seq<IndexAllocator>,
        results: Seq<GenerationalIndex>,
    )
        requires
            states.len() == results.len() + 1,
            states[0].num_slots() == 0,
            states[0].free_slots().len() == 0,
            forall|i: int|
                0 <= i < results.len() ==> Self::allocate_rel(
                    states[i],
                    #[trigger] states[i + 1],
                    results[i],
                ),
        ensures
            forall|i: int| 0 <= i < results.len() ==> (#[trigger] results[i]).index() == i,
            forall|i: int|
                0 <= i < results.len() ==> (#[trigger] results[i]).spec_generation() == 0,
    {
        assert forall|i: int| 0 <= i < results.len() implies (#[trigger] results[i]).index() == i
            && results[i].spec_generation() == 0 by {
            Self::lemma_allocation_chain_stays_fresh(states, results, i);
            assert(Self::allocate_rel(states[i], states[i + 1], results[i]));
        }
    }

    /// Along a chain of allocations that begins with nothing to reuse, the
    /// free list stays empty and each call adds exactly one slot.
    proof fn lemma_allocation_chain_stays_fresh(
        states: Seq<IndexAllocator>,
        results: Seq<GenerationalIndex>,
        k: int,
    )
        requires
            states.len() == results.len() + 1,
            states[0].num_slots() == 0,
            states[0].free_slots().len() == 0,
            forall|i: int|
                0 <= i < results.len() ==> Self::allocate_rel(
                    states[i],
                    #[trigger] states[i + 1],
                    results[i],
                ),
            0 <= k < states.len(),
        ensures
            states[k].num_slots() == k,
            states[k].free_slots().len() == 0,
        decreases k,
    {
        if k > 0 {
            Self::lemma_allocation_chain_stays_fresh(states, results, k - 1);
            assert(Self::allocate_rel(states[k - 1], states[k - 1 + 1], results[k - 1]));
        }
    }

    /// Law: deallocating a live index and then immediately allocating returns
    /// the same slot number under the next generation; the old index stays
    /// dead while the new one is live.
    pub proof fn lemma_reallocation_reuses_slot(
        s0: IndexAllocator,
        s1: IndexAllocator,
        s2: IndexAllocator,
        i: GenerationalIndex,
        j: GenerationalIndex,
    )
        requires
            s0.index_is_live(i),
            i.spec_generation() < u32::MAX,
            Self::deallocate_rel(s0, s1, i),
            Self::allocate_rel(s1, s2, j),
        ensures
            j.index() == i.index(),
            j.spec_generation() == i.spec_generation() + 1,
            s2.index_is_live(j),
            !s2.index_is_live(i),
    {
        assert(s1.free_slots().last() == i.index());
    }

    /// Law: an index is live immediately after the allocation that returned
    /// it.
    pub proof fn lemma_allocate_makes_live(
        pre: IndexAllocator,
        post: IndexAllocator,
        r: GenerationalIndex,
    )
        requires
            pre.wf(),
            Self::allocate_rel(pre, post, r),
        ensures
            post.index_is_live(r),
    {
    }

    /// Law: an index is dead immediately after it is deallocated, whether the
    /// deallocation took effect or was rejected as stale.
    pub proof fn lemma_deallocate_makes_dead(
        pre: IndexAllocator,
        post: IndexAllocator,
        i: GenerationalIndex,
    )
        requires
            Self::deallocate_rel(pre, post, i),
        ensures
            !post.index_is_live(i),
    {
    }

    /// Law: deallocation never revives an index — one that was dead before
    /// any deallocation is still dead after it.
    pub proof fn lemma_deallocate_never_revives(
        pre: IndexAllocator,
        post: IndexAllocator,
        x: GenerationalIndex,
        i: GenerationalIndex,
    )
        requires
            Self::deallocate_rel(pre, post, x),
            !pre.index_is_live(i),
        ensures
            !post.index_is_live(i),
    {
    }

    /// Law: an allocation revives a previously dead index only by returning
    /// that very identity — the same slot under the same (new) generation.
    pub proof fn lemma_allocate_revives_only_its_result(
        pre: IndexAllocator,
        post: IndexAllocator,
        r: GenerationalIndex,
        i: GenerationalIndex,
    )
        requires
            Self::allocate_rel(pre, post, r),
            !pre.index_is_live(i),
            post.index_is_live(i),
        ensures
            i.index() == r.index(),
            i.spec_generation() == r.spec_generation(),
    {
    }
}

} // verus!
