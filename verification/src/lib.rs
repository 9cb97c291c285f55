//! An entity-component store built on generational indices.
//!
//! Entities are lightweight identities (a slot number plus a generation
//! counter) handed out by an [`index_allocator::IndexAllocator`].  Component
//! values live in per-type collections implementing the
//! [`storage::Storage`] contract, and the [`ecs::ECS`] registry ties both
//! together: it owns the allocator and one storage per registered component
//! map, and arbitrates shared/exclusive access to each map at runtime.

pub mod ecs;
pub mod entity;
pub mod errors;
pub mod index_allocator;
pub mod index_array;
pub mod storage;
