use scrapyard_ecs::errors::Error;
use scrapyard_ecs::index_allocator::{GenerationalIndex, IndexAllocator};
use scrapyard_ecs::index_array::IndexArray;
use scrapyard_ecs::storage::Storage;

#[test]
fn set_get_round_trip() -> Result<(), Error> {
    let mut allocator = IndexAllocator::new();
    let entity = allocator.allocate()?;
    let mut map: IndexArray<u32> = <IndexArray<u32> as Storage<u32>>::new();
    assert_eq!(map.len(), 0);
    map.set(41, &entity);
    assert_eq!(map.get(&entity), Some(&41));
    assert!(map.contains(&entity));
    assert_eq!(map.len(), 1);
    map.set(42, &entity);
    assert_eq!(map.get(&entity), Some(&42));
    assert_eq!(map.len(), 1);
    Ok(())
}

#[test]
fn get_mut_updates_in_place() -> Result<(), Error> {
    let mut allocator = IndexAllocator::new();
    let entity = allocator.allocate()?;
    let mut map: IndexArray<u32> = <IndexArray<u32> as Storage<u32>>::new();
    map.set(1, &entity);
    match map.get_mut(&entity) {
        Some(value) => *value = 7,
        None => panic!("component missing"),
    }
    assert_eq!(map.get(&entity), Some(&7));
    Ok(())
}

#[test]
fn stale_generation_reads_absent() -> Result<(), Error> {
    let mut allocator = IndexAllocator::new();
    let entity = allocator.allocate()?;
    let mut map: IndexArray<u32> = <IndexArray<u32> as Storage<u32>>::new();
    map.set(9, &entity);
    allocator.deallocate(&entity);
    let reused = allocator.allocate()?;
    assert_eq!(reused.index(), 0);
    assert_eq!(reused.generation, 1);
    // The slot was reallocated under a new generation, so the new identity
    // must read nothing until a fresh write ...
    assert_eq!(map.get(&reused), None);
    assert!(!map.contains(&reused));
    assert!(map.get_mut(&reused).is_none());
    // ... and after the fresh write, the old identity must read nothing.
    map.set(10, &reused);
    assert_eq!(map.get(&reused), Some(&10));
    assert_eq!(map.get(&entity), None);
    assert!(!map.contains(&entity));
    Ok(())
}

#[test]
fn out_of_range_slot_is_absent() {
    let mut map: IndexArray<u32> = <IndexArray<u32> as Storage<u32>>::new();
    let far = GenerationalIndex { index: 5, generation: 0 };
    assert_eq!(map.get(&far), None);
    assert!(!map.contains(&far));
    assert!(map.get_mut(&far).is_none());
}

#[test]
fn set_grows_backing_sequence() -> Result<(), Error> {
    let mut allocator = IndexAllocator::new();
    let first = allocator.allocate()?;
    let _second = allocator.allocate()?;
    let third = allocator.allocate()?;
    let mut map: IndexArray<u32> = <IndexArray<u32> as Storage<u32>>::new();
    map.set(30, &third);
    assert_eq!(map.len(), 3);
    assert_eq!(map.get(&first), None);
    assert_eq!(map.get(&third), Some(&30));
    Ok(())
}
