use vstd::prelude::*;

use crate::entity::EntityBuilder;
use crate::errors::Error;
use crate::index_allocator::{GenerationalIndex, IndexAllocator};
use crate::index_array::{ArrayEntry, IndexArray};
use crate::storage::{lemma_lookup_empty, lemma_lookup_other_generation, lemma_set_then_lookup,
    spec_lookup, spec_set, Storage};

verus! {

/// A capability witnessing one shared (read-only) access to one component
/// map.  Obtained from `ECS::get_map`, surrendered through
/// `ECS::release_map`; while at least one is outstanding for a map, no
/// exclusive access to that map can be obtained.
pub struct MapRef {
    tag: usize,
}

impl MapRef {
    /// The tag of the component map this capability gives access to.
    pub closed spec fn tag(&self) -> usize {
        self.tag
    }
}

/// A capability witnessing the one exclusive (read-write) access to one
/// component map.  Obtained from `ECS::get_map_mut`, surrendered through
/// `ECS::release_map_mut`; while it is outstanding, no other access to that
/// map can be obtained.
pub struct MapRefMut {
    tag: usize,
}

impl MapRefMut {
    /// The tag of the component map this capability gives access to.
    pub closed spec fn tag(&self) -> usize {
        self.tag
    }
}

/// One registered component map together with its checked-borrow state: how
/// many shared accesses are outstanding, and whether the exclusive access is.
struct ComponentSlot<C> {
    storage: IndexArray<C>,
    readers: usize,
    writer: bool,
}

/// The entity-component registry.
///
/// Owns the index allocator, the list of created entities, and one
/// generation-checked storage per registered component map.  Component maps
/// are named by the `usize` tag that `register` returned for them.  Access to
/// each map is arbitrated at runtime as one writer or many readers — never
/// both, and never two writers; a conflicting request fails with
/// `Error::BorrowConflict` instead of handing out aliased access.
pub struct ECS<C> {
    entities: Vec<GenerationalIndex>,
    allocator: IndexAllocator,
    components: Vec<ComponentSlot<C>>,
}

impl<C> ECS<C> {
    /// The number of component maps registered so far.
    pub closed spec fn num_maps(&self) -> nat {
        self.components@.len()
    }

    /// The contents of the component map registered under `tag`.
    pub closed spec fn map_contents(&self, tag: int) -> Seq<Option<ArrayEntry<C>>> {
        self.components@[tag].storage.contents()
    }

    /// How many shared accesses to the map under `tag` are outstanding.
    pub closed spec fn readers(&self, tag: int) -> nat {
        self.components@[tag].readers as nat
    }

    /// Whether the exclusive access to the map under `tag` is outstanding.
    pub closed spec fn has_writer(&self, tag: int) -> bool {
        self.components@[tag].writer
    }

    /// The index allocator owned by this registry.
    pub closed spec fn spec_allocator(&self) -> IndexAllocator {
        self.allocator
    }

    /// Every entity created through this registry, in creation order.
    pub closed spec fn entity_list(&self) -> Seq<GenerationalIndex> {
        self.entities@
    }

    /// Internal consistency: the allocator is consistent, and no map has the
    /// exclusive access outstanding at the same time as a shared one.
    pub closed spec fn wf(&self) -> bool {
        &&& self.allocator.wf()
        &&& forall|t: int|
            0 <= t < self.components@.len() ==> !((#[trigger] self.components@[t]).writer
                && self.components@[t].readers > 0)
    }

    /// Every component map other than `tag` — contents and borrow state — is
    /// the same in `post` as in `pre`.
    pub open spec fn other_maps_unchanged(pre: Self, post: Self, tag: int) -> bool {
        forall|t: int|
            0 <= t < pre.num_maps() && t != tag ==> {
                &&& #[trigger] post.map_contents(t) == pre.map_contents(t)
                &&& post.readers(t) == pre.readers(t)
                &&& post.has_writer(t) == pre.has_writer(t)
            }
    }

    /// Every component map — contents and borrow state — is the same in
    /// `post` as in `pre`.  (No tag is negative, so exempting -1 exempts
    /// nothing.)
    pub open spec fn maps_unchanged(pre: Self, post: Self) -> bool {
        &&& post.num_maps() == pre.num_maps()
        &&& Self::other_maps_unchanged(pre, post, -1)
    }

    /// The entity list and the allocator are the same in `post` as in `pre`.
    pub open spec fn entities_and_allocator_unchanged(pre: Self, post: Self) -> bool {
        &&& post.spec_allocator() == pre.spec_allocator()
        &&& post.entity_list() == pre.entity_list()
    }

    /// Only the contents of the map under `tag` may differ between `pre` and
    /// `post`: its borrow state, every other map, the entity list and the
    /// allocator are all the same.
    pub open spec fn only_map_contents_changed(pre: Self, post: Self, tag: int) -> bool {
        &&& post.num_maps() == pre.num_maps()
        &&& post.readers(tag) == pre.readers(tag)
        &&& post.has_writer(tag) == pre.has_writer(tag)
        &&& Self::other_maps_unchanged(pre, post, tag)
        &&& Self::entities_and_allocator_unchanged(pre, post)
    }

    /// The exact effect of one `add_component` call: rejected for an
    /// unregistered tag, rejected while any access to the map is outstanding,
    /// and otherwise a generation-tagged write of the value into the map,
    /// with everything else untouched.
    pub open spec fn add_component_rel(
        pre: Self,
        post: Self,
        component: C,
        index: GenerationalIndex,
        tag: usize,
        r: Result<(), Error>,
    ) -> bool {
        if tag >= pre.num_maps() {
            r == Err::<(), Error>(Error::UnregisteredComponent) && post == pre
        } else if pre.has_writer(tag as int) || pre.readers(tag as int) > 0 {
            r == Err::<(), Error>(Error::BorrowConflict) && post == pre
        } else {
            &&& r == Ok::<(), Error>(())
            &&& post.map_contents(tag as int) == spec_set(
                pre.map_contents(tag as int),
                component,
                index,
            )
            &&& Self::only_map_contents_changed(pre, post, tag as int)
        }
    }

    /// The exact effect of one `get_map` call: rejected for an unregistered
    /// tag, rejected while the exclusive access is outstanding or the reader
    /// count is saturated, and otherwise one more shared access is recorded
    /// and a capability for the map is returned, with everything else
    /// untouched.
    pub open spec fn get_map_rel(pre: Self, post: Self, tag: usize, r: Result<MapRef, Error>) -> bool {
        if tag >= pre.num_maps() {
            r == Err::<MapRef, Error>(Error::UnregisteredComponent) && post == pre
        } else if pre.has_writer(tag as int) || pre.readers(tag as int) == usize::MAX {
            r == Err::<MapRef, Error>(Error::BorrowConflict) && post == pre
        } else {
            &&& r matches Ok(m) && m.tag() == tag
            &&& post.num_maps() == pre.num_maps()
            &&& post.map_contents(tag as int) == pre.map_contents(tag as int)
            &&& post.readers(tag as int) == pre.readers(tag as int) + 1
            &&& !post.has_writer(tag as int)
            &&& Self::other_maps_unchanged(pre, post, tag as int)
            &&& Self::entities_and_allocator_unchanged(pre, post)
        }
    }

    /// The exact effect of one `get_map_mut` call: rejected for an
    /// unregistered tag, rejected while any access to the map is outstanding,
    /// and otherwise the exclusive access is recorded and a capability for
    /// the map is returned, with everything else untouched.
    pub open spec fn get_map_mut_rel(
        pre: Self,
        post: Self,
        tag: usize,
        r: Result<MapRefMut, Error>,
    ) -> bool {
        if tag >= pre.num_maps() {
            r == Err::<MapRefMut, Error>(Error::UnregisteredComponent) && post == pre
        } else if pre.has_writer(tag as int) || pre.readers(tag as int) > 0 {
            r == Err::<MapRefMut, Error>(Error::BorrowConflict) && post == pre
        } else {
            &&& r matches Ok(m) && m.tag() == tag
            &&& post.num_maps() == pre.num_maps()
            &&& post.map_contents(tag as int) == pre.map_contents(tag as int)
            &&& post.readers(tag as int) == pre.readers(tag as int)
            &&& post.has_writer(tag as int)
            &&& Self::other_maps_unchanged(pre, post, tag as int)
            &&& Self::entities_and_allocator_unchanged(pre, post)
        }
    }

    /// The exact effect of surrendering one shared access: the reader count
    /// drops by one, and everything else is untouched.  A capability that
    /// matches no recorded access (possible only for a capability from a
    /// different registry) is ignored.
    pub open spec fn release_map_rel(pre: Self, post: Self, tag: usize) -> bool {
        if tag < pre.num_maps() && pre.readers(tag as int) > 0 {
            &&& post.num_maps() == pre.num_maps()
            &&& post.map_contents(tag as int) == pre.map_contents(tag as int)
            &&& post.readers(tag as int) == pre.readers(tag as int) - 1
            &&& post.has_writer(tag as int) == pre.has_writer(tag as int)
            &&& Self::other_maps_unchanged(pre, post, tag as int)
            &&& Self::entities_and_allocator_unchanged(pre, post)
        } else {
            post == pre
        }
    }

    /// The exact effect of surrendering the exclusive access: the map is
    /// marked writer-free, and everything else is untouched.  A capability
    /// that matches no recorded access is ignored.
    pub open spec fn release_map_mut_rel(pre: Self, post: Self, tag: usize) -> bool {
        if tag < pre.num_maps() && pre.has_writer(tag as int) {
            &&& post.num_maps() == pre.num_maps()
            &&& post.map_contents(tag as int) == pre.map_contents(tag as int)
            &&& post.readers(tag as int) == pre.readers(tag as int)
            &&& !post.has_writer(tag as int)
            &&& Self::other_maps_unchanged(pre, post, tag as int)
            &&& Self::entities_and_allocator_unchanged(pre, post)
        } else {
            post == pre
        }
    }

    /// Creates a registry with no entities and no registered component maps.
    pub fn new() -> (r: Self)
        ensures
            r.wf(),
            r.num_maps() == 0,
            r.entity_list() == Seq::<GenerationalIndex>::empty(),
            r.spec_allocator().num_slots() == 0,
            r.spec_allocator().free_slots() == Seq::<usize>::empty(),
    {
        ECS { entities: Vec::new(), allocator: IndexAllocator::new(), components: Vec::new() }
    }

    /// Registers a new component map and returns the tag under which it is
    /// reachable.  The map starts empty, with no access outstanding.
    pub fn register(&mut self) -> (tag: usize)
        requires
            old(self).wf(),
        ensures
            final(self).wf(),
            tag == old(self).num_maps(),
            final(self).num_maps() == old(self).num_maps() + 1,
            final(self).map_contents(tag as int) == Seq::<Option<ArrayEntry<C>>>::empty(),
            final(self).readers(tag as int) == 0,
            !final(self).has_writer(tag as int),
            Self::other_maps_unchanged(*old(self), *final(self), tag as int),
            Self::entities_and_allocator_unchanged(*old(self), *final(self)),
    {
        let tag = self.components.len();
        let storage = <IndexArray<C> as Storage<C>>::new();
        self.components.push(ComponentSlot { storage, readers: 0, writer: false });
        tag
    }

    /// Creates a new entity: allocates an identity, records it in the entity
    /// list, and returns a builder bound to it for attaching components.
    pub fn create_entity(&mut self) -> (r: Result<EntityBuilder, Error>)
        requires
            old(self).wf(),
        ensures
            final(self).wf(),
            r matches Ok(b) && IndexAllocator::allocate_rel(
                old(self).spec_allocator(),
                final(self).spec_allocator(),
                b.id,
            ),
            r matches Ok(b) ==> final(self).entity_list() == old(self).entity_list().push(b.id),
            r matches Ok(b) ==> final(self).spec_allocator().index_is_live(b.id),
            Self::maps_unchanged(*old(self), *final(self)),
    {
        let idx = match self.allocator.allocate() {
            Ok(idx) => idx,
            Err(e) => {
                return Err(e);
            },
        };
        self.entities.push(idx.clone());
        Ok(EntityBuilder::new(idx))
    }

    /// Destroys an entity: deallocates its identity through the owned
    /// allocator, so that the slot can be reused under a new generation.
    ///
    /// Component storages are not purged — the entries the entity left behind
    /// simply become unreachable, because generation checks reject its
    /// identity, until the slot's next occupant overwrites them.  A stale
    /// identity (already destroyed, or from an older generation) is rejected
    /// as a no-op.
    pub fn destroy_entity(&mut self, index: &GenerationalIndex)
        requires
            old(self).wf(),
        ensures
            final(self).wf(),
            IndexAllocator::deallocate_rel(
                old(self).spec_allocator(),
                final(self).spec_allocator(),
                *index,
            ),
            final(self).entity_list() == old(self).entity_list(),
            Self::maps_unchanged(*old(self), *final(self)),
    {
        self.allocator.deallocate(index);
    }

    /// Writes a component value for an entity into the map registered under
    /// `tag`.  Fails with `UnregisteredComponent` for an unknown tag and with
    /// `BorrowConflict` while any access to that map is outstanding; the
    /// write itself is `Storage::set`, keyed by the entity's identity.
    pub fn add_component(&mut self, component: C, index: &GenerationalIndex, tag: usize) -> (r:
        Result<(), Error>)
        requires
            old(self).wf(),
        ensures
            final(self).wf(),
            Self::add_component_rel(*old(self), *final(self), component, *index, tag, r),
    {
        if tag >= self.components.len() {
            return Err(Error::UnregisteredComponent);
        }
        if self.components[tag].writer || self.components[tag].readers > 0 {
            return Err(Error::BorrowConflict);
        }
        let slot = &mut self.components[tag];
        slot.storage.set(component, index);
        Ok(())
    }

    /// Obtains one shared (read-only) access to the map registered under
    /// `tag`.  Fails with `UnregisteredComponent` for an unknown tag and with
    /// `BorrowConflict` while the exclusive access is outstanding.
    pub fn get_map(&mut self, tag: usize) -> (r: Result<MapRef, Error>)
        requires
            old(self).wf(),
        ensures
            final(self).wf(),
            Self::get_map_rel(*old(self), *final(self), tag, r),
    {
        if tag >= self.components.len() {
            return Err(Error::UnregisteredComponent);
        }
        if self.components[tag].writer || self.components[tag].readers == usize::MAX {
            return Err(Error::BorrowConflict);
        }
        let slot = &mut self.components[tag];
        slot.readers = slot.readers + 1;
        Ok(MapRef { tag })
    }

    /// Obtains the exclusive (read-write) access to the map registered under
    /// `tag`.  Fails with `UnregisteredComponent` for an unknown tag and with
    /// `BorrowConflict` while any access — shared or exclusive — is
    /// outstanding.
    pub fn get_map_mut(&mut self, tag: usize) -> (r: Result<MapRefMut, Error>)
        requires
            old(self).wf(),
        ensures
            final(self).wf(),
            Self::get_map_mut_rel(*old(self), *final(self), tag, r),
    {
        if tag >= self.components.len() {
            return Err(Error::UnregisteredComponent);
        }
        if self.components[tag].writer || self.components[tag].readers > 0 {
            return Err(Error::BorrowConflict);
        }
        let slot = &mut self.components[tag];
        slot.writer = true;
        Ok(MapRefMut { tag })
    }

    /// Surrenders one shared access.
    pub fn release_map(&mut self, map: MapRef)
        requires
            old(self).wf(),
        ensures
            final(self).wf(),
            Self::release_map_rel(*old(self), *final(self), map.tag()),
    {
        if map.tag < self.components.len() {
            let readers = self.components[map.tag].readers;
            if readers > 0 {
                let slot = &mut self.components[map.tag];
                slot.readers = readers - 1;
            }
        }
    }

    /// Surrenders the exclusive access.
    pub fn release_map_mut(&mut self, map: MapRefMut)
        requires
            old(self).wf(),
        ensures
            final(self).wf(),
            Self::release_map_mut_rel(*old(self), *final(self), map.tag()),
    {
        if map.tag < self.components.len() {
            let writer = self.components[map.tag].writer;
            if writer {
                let slot = &mut self.components[map.tag];
                slot.writer = false;
            }
        }
    }

    /// Reads the component stored for an entity through a shared access
    /// capability: the generation-checked `Storage::get` of that map.
    pub fn map_get<'a>(&'a self, map: &MapRef, index: &GenerationalIndex) -> (r: Option<&'a C>)
        ensures
            map.tag() < self.num_maps() ==> match r {
                Some(v) => spec_lookup(self.map_contents(map.tag() as int), *index) == Some(*v),
                None => spec_lookup(self.map_contents(map.tag() as int), *index) is None,
            },
            map.tag() >= self.num_maps() ==> r is None,
    {
        if map.tag >= self.components.len() {
            return None;
        }
        self.components[map.tag].storage.get(index)
    }

    /// The size of a map's backing sequence, read through a shared access
    /// capability: an upper bound on how many slots hold a value.
    pub fn map_len(&self, map: &MapRef) -> (r: usize)
        ensures
            map.tag() < self.num_maps() ==> r == self.map_contents(map.tag() as int).len(),
            map.tag() >= self.num_maps() ==> r == 0,
    {
        if map.tag >= self.components.len() {
            return 0;
        }
        self.components[map.tag].storage.len()
    }

    /// Whether a component is stored for an entity, read through a shared
    /// access capability, under the same presence rule as `map_get`.
    pub fn map_contains(&self, map: &MapRef, index: &GenerationalIndex) -> (r: bool)
        ensures
            r == (map.tag() < self.num_maps() && spec_lookup(
                self.map_contents(map.tag() as int),
                *index,
            ) is Some),
    {
        if map.tag >= self.components.len() {
            return false;
        }
        self.components[map.tag].storage.contains(index)
    }

    /// Writes a component value for an entity through the exclusive access
    /// capability: the generation-tagged `Storage::set` of that map.
    pub fn map_set(&mut self, map: &MapRefMut, component: C, index: &GenerationalIndex)
        requires
            old(self).wf(),
        ensures
            final(self).wf(),
            map.tag() < old(self).num_maps() ==> {
                &&& final(self).map_contents(map.tag() as int) == spec_set(
                    old(self).map_contents(map.tag() as int),
                    component,
                    *index,
                )
                &&& Self::only_map_contents_changed(*old(self), *final(self), map.tag() as int)
            },
            map.tag() >= old(self).num_maps() ==> *final(self) == *old(self),
    {
        if map.tag < self.components.len() {
            let slot = &mut self.components[map.tag];
            slot.storage.set(component, index);
        }
    }

    /// Reads the component stored for an entity through the exclusive access
    /// capability, mutably: the generation-checked `Storage::get_mut` of that
    /// map.  Nothing besides the returned value can change through the
    /// returned reference.
    pub fn map_get_mut<'a>(&'a mut self, map: &MapRefMut, index: &GenerationalIndex) -> (r: Option<
        &'a mut C,
    >)
        requires
            old(self).wf(),
        ensures
            final(self).wf(),
            map.tag() >= old(self).num_maps() ==> r is None && *final(self) == *old(self),
            map.tag() < old(self).num_maps() ==> match spec_lookup(
                old(self).map_contents(map.tag() as int),
                *index,
            ) {
                Some(v0) => {
                    &&& r.is_some()
                    &&& *r.unwrap() == v0
                    &&& final(self).map_contents(map.tag() as int) == old(self).map_contents(
                        map.tag() as int,
                    ).update(
                        index.spec_index() as int,
                        Some(
                            (ArrayEntry {
                                value: *final(r.unwrap()),
                                generation: index.spec_generation(),
                            }),
                        ),
                    )
                    &&& Self::only_map_contents_changed(*old(self), *final(self), map.tag() as int)
                },
                None => {
                    &&& r.is_none()
                    &&& final(self).map_contents(map.tag() as int) == old(self).map_contents(
                        map.tag() as int,
                    )
                    &&& Self::only_map_contents_changed(*old(self), *final(self), map.tag() as int)
                },
            },
    {
        if map.tag >= self.components.len() {
            return None;
        }
        let slot = &mut self.components[map.tag];
        slot.storage.get_mut(index)
    }

    /// Law: while at least one shared access to a map is outstanding, a
    /// request for the exclusive access to the same map fails with a borrow
    /// conflict and changes nothing.
    pub proof fn lemma_shared_blocks_exclusive(
        s0: Self,
        s1: Self,
        s2: Self,
        tag: usize,
        m: MapRef,
        r: Result<MapRefMut, Error>,
    )
        requires
            Self::get_map_rel(s0, s1, tag, Ok(m)),
            Self::get_map_mut_rel(s1, s2, tag, r),
        ensures
            r == Err::<MapRefMut, Error>(Error::BorrowConflict),
            s2 == s1,
    {
    }

    /// Law: while the exclusive access to a map is outstanding, any further
    /// request for that map — shared or exclusive — fails with a borrow
    /// conflict and changes nothing.
    pub proof fn lemma_exclusive_blocks_all(
        s0: Self,
        s1: Self,
        s2: Self,
        s3: Self,
        tag: usize,
        m: MapRefMut,
        shared: Result<MapRef, Error>,
        exclusive: Result<MapRefMut, Error>,
    )
        requires
            Self::get_map_mut_rel(s0, s1, tag, Ok(m)),
            Self::get_map_rel(s1, s2, tag, shared),
            Self::get_map_mut_rel(s1, s3, tag, exclusive),
        ensures
            shared == Err::<MapRef, Error>(Error::BorrowConflict),
            exclusive == Err::<MapRefMut, Error>(Error::BorrowConflict),
            s2 == s1,
            s3 == s1,
    {
    }

    /// Law: two shared accesses to the same map may be outstanding at once —
    /// while one is held, a second request still succeeds (as long as the
    /// reader count is not saturated).
    pub proof fn lemma_two_shared_allowed(
        s0: Self,
        s1: Self,
        s2: Self,
        tag: usize,
        m: MapRef,
        r: Result<MapRef, Error>,
    )
        requires
            s0.readers(tag as int) < usize::MAX - 1,
            Self::get_map_rel(s0, s1, tag, Ok(m)),
            Self::get_map_rel(s1, s2, tag, r),
        ensures
            r matches Ok(m2) && m2.tag() == tag,
    {
    }

    /// Law (round trip, registry level): a component successfully written for
    /// an entity is exactly what a subsequent lookup of that map returns for
    /// the same identity.
    pub proof fn lemma_component_written_then_found(
        pre: Self,
        post: Self,
        component: C,
        index: GenerationalIndex,
        tag: usize,
    )
        requires
            Self::add_component_rel(pre, post, component, index, tag, Ok(())),
        ensures
            spec_lookup(post.map_contents(tag as int), index) == Some(component),
    {
        lemma_set_then_lookup(pre.map_contents(tag as int), component, index);
    }

    /// Law (stale identity, registry level): after a successful write keyed
    /// by one identity, a lookup of the same slot under any other generation
    /// reports absence — a recycled slot reveals nothing to its previous
    /// owner, and nothing to its new owner until a fresh write.
    pub proof fn lemma_component_hidden_from_other_generation(
        pre: Self,
        post: Self,
        component: C,
        index: GenerationalIndex,
        tag: usize,
        other: GenerationalIndex,
    )
        requires
            Self::add_component_rel(pre, post, component, index, tag, Ok(())),
            other.spec_index() == index.spec_index(),
            other.spec_generation() != index.spec_generation(),
        ensures
            spec_lookup(post.map_contents(tag as int), other) is None,
    {
        lemma_lookup_other_generation(pre.map_contents(tag as int), component, index, other);
    }

    /// Law: a freshly registered map — one whose contents are still empty —
    /// holds nothing for any identity.
    pub proof fn lemma_fresh_map_is_empty(ecs: Self, tag: usize, index: GenerationalIndex)
        requires
            ecs.map_contents(tag as int) == Seq::<Option<ArrayEntry<C>>>::empty(),
        ensures
            spec_lookup(ecs.map_contents(tag as int), index) is None,
    {
        lemma_lookup_empty::<C>(index);
    }
}

} // verus!
