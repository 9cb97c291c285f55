use vstd::prelude::*;

use crate::ecs::ECS;
use crate::errors::Error;
use crate::index_allocator::GenerationalIndex;

verus! {

/// A disposable, single-use helper bound to one freshly created entity:
/// chains "create entity, then attach components" into one expression,
/// delegating every step to the registry.
pub struct EntityBuilder {
    pub id: GenerationalIndex,
}

impl EntityBuilder {
    /// Binds a builder to an entity identity.
    pub fn new(id: GenerationalIndex) -> (r: Self)
        ensures
            r.id == id,
    {
        EntityBuilder { id }
    }

    /// Attaches a component to the bound entity, delegating to
    /// `ECS::add_component`; any failure is propagated immediately, so a
    /// chain of attachments short-circuits on the first error.
    pub fn with<C>(self, ecs: &mut ECS<C>, component: C, tag: usize) -> (r: Result<Self, Error>)
        requires
            old(ecs).wf(),
        ensures
            final(ecs).wf(),
            match r {
                Ok(b) => b.id == self.id && ECS::add_component_rel(
                    *old(ecs),
                    *final(ecs),
                    component,
                    self.id,
                    tag,
                    Ok(()),
                ),
                Err(e) => ECS::add_component_rel(
                    *old(ecs),
                    *final(ecs),
                    component,
                    self.id,
                    tag,
                    Err(e),
                ),
            },
    {
        match ecs.add_component(component, &self.id, tag) {
            Ok(_) => Ok(self),
            Err(e) => Err(e),
        }
    }

    /// Yields the bound entity's identity, consuming the builder.
    pub fn build(self) -> (r: GenerationalIndex)
        ensures
            r == self.id,
    {
        self.id
    }
}

} // verus!
