use vstd::prelude::*;

use crate::index_allocator::GenerationalIndex;
use crate::index_array::ArrayEntry;

verus! {

/// The value a storage holds for `index`, if any: the entry at the index's
/// slot, provided one exists there and was written under the very same
/// generation.  A missing slot, an empty slot and a generation mismatch all
/// mean absence — a mismatch is how a stale index is kept from reading data
/// that now belongs to the slot's next occupant.
pub open spec fn spec_lookup<T>(
    entries: Seq<Option<ArrayEntry<T>>>,
    index: GenerationalIndex,
) -> Option<T> {
    let slot = index.index() as int;
    if 0 <= slot < entries.len() {
        match entries[slot] {
            Some(e) => if e.generation == index.spec_generation() {
                Some(e.value)
            } else {
                None
            },
            None => None,
        }
    } else {
        None
    }
}

/// The contents of a storage after `set(value, index)`: the backing sequence,
/// grown with empty slots as far as needed to reach the index's slot, with
/// that slot overwritten by the value tagged with the index's generation.
pub open spec fn spec_set<T>(
    entries: Seq<Option<ArrayEntry<T>>>,
    value: T,
    index: GenerationalIndex,
) -> Seq<Option<ArrayEntry<T>>> {
    let slot = index.index() as int;
    let grown = if slot < entries.len() {
        entries
    } else {
        entries + Seq::new((slot + 1 - entries.len()) as nat, |i: int| None)
    };
    grown.update(slot, Some(ArrayEntry { value, generation: index.spec_generation() }))
}

/// A polymorphic collection mapping a `GenerationalIndex` to an optional
/// value of type `T`, each value tagged with the generation it was written
/// under.  Lookups are generation-checked: an index whose generation does not
/// match the recorded one reports absence instead of returning stale data.
pub trait Storage<T>: Sized {
    /// The model of the collection: one optional, generation-tagged entry
    /// per slot of the backing sequence.
    spec fn contents(&self) -> Seq<Option<ArrayEntry<T>>>;

    /// Creates an empty storage.
    fn new() -> (r: Self)
        ensures
            r.contents() == Seq::<Option<ArrayEntry<T>>>::empty(),
    ;

    /// Returns the value stored for `index`, or absence when the slot is out
    /// of range, holds nothing, or was written under another generation.
    fn get<'a>(&'a self, index: &GenerationalIndex) -> (r: Option<&'a T>)
        ensures
            match r {
                Some(v) => spec_lookup(self.contents(), *index) == Some(*v),
                None => spec_lookup(self.contents(), *index) is None,
            },
    ;

    /// Returns mutable access to the value stored for `index`, under the same
    /// presence rule as `get`; nothing else in the storage is disturbed.
    fn get_mut<'a>(&'a mut self, index: &GenerationalIndex) -> (r: Option<&'a mut T>)
        ensures
            match spec_lookup(old(self).contents(), *index) {
                Some(v0) => {
                    &&& r.is_some()
                    &&& *r.unwrap() == v0
                    &&& final(self).contents() == old(self).contents().update(
                        index.index() as int,
                        Some(
                            (ArrayEntry {
                                value: *final(r.unwrap()),
                                generation: index.spec_generation(),
                            }),
                        ),
                    )
                },
                None => {
                    &&& r.is_none()
                    &&& final(self).contents() == old(self).contents()
                },
            },
    ;

    /// Writes `value` at the index's slot, tagged with the index's
    /// generation, growing the backing sequence if needed; any prior value at
    /// that slot is overwritten regardless of its generation.
    fn set(&mut self, value: T, index: &GenerationalIndex)
        ensures
            final(self).contents() == spec_set(old(self).contents(), value, *index),
    ;

    /// The size of the backing sequence: an upper bound on how many slots
    /// hold a value, not the count of present entries.
    fn len(&self) -> (r: usize)
        ensures
            r == self.contents().len(),
    ;

    /// Whether a value is stored for `index`, under the same presence rule
    /// as `get`.
    fn contains(&self, index: &GenerationalIndex) -> (r: bool)
        ensures
            r == (spec_lookup(self.contents(), *index) is Some),
    ;
}

/// Law (round trip): writing a value and looking it up under the same index
/// returns exactly that value, whatever the storage held before.
pub proof fn lemma_set_then_lookup<T>(
    entries: Seq<Option<ArrayEntry<T>>>,
    value: T,
    index: GenerationalIndex,
)
    ensures
        spec_lookup(spec_set(entries, value, index), index) == Some(value),
{
}

/// Law: a value written under one generation is absent for any index that
/// names the same slot under a different generation — after a slot is
/// deallocated and reallocated, the new occupant's index reads nothing until
/// a fresh write.
pub proof fn lemma_lookup_other_generation<T>(
    entries: Seq<Option<ArrayEntry<T>>>,
    value: T,
    index: GenerationalIndex,
    other: GenerationalIndex,
)
    requires
        other.index() == index.index(),
        other.spec_generation() != index.spec_generation(),
    ensures
        spec_lookup(spec_set(entries, value, index), other) is None,
{
}

/// Law: an empty storage reports absence for every index.
pub proof fn lemma_lookup_empty<T>(index: GenerationalIndex)
    ensures
        spec_lookup(Seq::<Option<ArrayEntry<T>>>::empty(), index) is None,
{
}

/// Law: a write disturbs no other slot — a lookup keyed by a different slot
/// number returns what it returned before the write.
pub proof fn lemma_set_frame<T>(
    entries: Seq<Option<ArrayEntry<T>>>,
    value: T,
    index: GenerationalIndex,
    other: GenerationalIndex,
)
    requires
        other.index() != index.index(),
    ensures
        spec_lookup(spec_set(entries, value, index), other) == spec_lookup(entries, other),
{
}

} // verus!
