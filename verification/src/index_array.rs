use vstd::prelude::*;

use crate::index_allocator::GenerationalIndex;
use crate::storage::{spec_set, Storage};

verus! {

/// One occupied slot of an `IndexArray`: the stored value together with the
/// generation of the index it was written under.
#[derive(Clone, Copy)]
pub struct ArrayEntry<T> {
    pub value: T,
    pub generation: u32,
}

/// The default, dense implementation of [`Storage`]: a growable array
/// indexed by slot number, with absent entries represented explicitly.
pub struct IndexArray<T> {
    entries: Vec<Option<ArrayEntry<T>>>,
}

impl<T> Storage<T> for IndexArray<T> {
    closed spec fn contents(&self) -> Seq<Option<ArrayEntry<T>>> {
        self.entries@
    }

    fn new() -> (r: Self) {
        IndexArray { entries: Vec::new() }
    }

    fn get<'a>(&'a self, index: &GenerationalIndex) -> (r: Option<&'a T>) {
        let slot = index.index();
        if slot < self.entries.len() {
            match &self.entries[slot] {
                Some(e) => if e.generation == index.generation {
                    Some(&e.value)
                } else {
                    None
                },
                None => None,
            }
        } else {
            None
        }
    }

    fn get_mut<'a>(&'a mut self, index: &GenerationalIndex) -> (r: Option<&'a mut T>) {
        let slot = index.index();
        if slot < self.entries.len() {
            match &mut self.entries[slot] {
                Some(e) => if e.generation == index.generation {
                    Some(&mut e.value)
                } else {
                    None
                },
                None => None,
            }
        } else {
            None
        }
    }

    fn set(&mut self, value: T, index: &GenerationalIndex) {
        let slot = index.index();
        let ghost pre = self.entries@;
        while self.entries.len() <= slot
            invariant
                pre.len() <= self.entries@.len(),
                self.entries@.len() <= slot + 1 || self.entries@.len() == pre.len(),
                self.entries@ == pre + Seq::new(
                    (self.entries@.len() - pre.len()) as nat,
                    |i: int| None::<ArrayEntry<T>>,
                ),
            decreases slot + 1 - self.entries@.len(),
        {
            self.entries.push(None);
        }
        self.entries[slot] = Some(ArrayEntry { value, generation: index.generation });
        proof {
            assert(self.entries@ =~= spec_set(pre, value, *index));
        }
    }

    fn len(&self) -> (r: usize) {
        self.entries.len()
    }

    fn contains(&self, index: &GenerationalIndex) -> (r: bool) {
        let slot = index.index();
        if slot < self.entries.len() {
            match &self.entries[slot] {
                Some(e) => e.generation == index.generation,
                None => false,
            }
        } else {
            false
        }
    }
}

} // verus!
