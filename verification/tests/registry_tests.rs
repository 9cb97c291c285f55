use scrapyard_ecs::ecs::ECS;
use scrapyard_ecs::errors::Error;

#[derive(Clone, Copy, Debug, PartialEq)]
struct Pos {
    x: f32,
}

#[derive(Clone, Copy, Debug, PartialEq)]
struct Vel {
    x: f32,
}

#[derive(Clone, Copy, Debug, PartialEq)]
enum Comp {
    Pos(Pos),
    Vel(Vel),
}

#[test]
fn register_component() -> Result<(), Error> {
    let mut ecs: ECS<Pos> = ECS::new();
    let pos_tag: usize = ecs.register();
    let pos_map = ecs.get_map(pos_tag)?;
    assert_eq!(ecs.map_len(&pos_map), 0);
    ecs.release_map(pos_map);
    Ok(())
}

#[test]
fn add_components() -> Result<(), Error> {
    let mut ecs: ECS<Pos> = ECS::new();
    let pos_tag: usize = ecs.register();
    let entity = ecs.create_entity()?.with(&mut ecs, Pos { x: 0.0 }, pos_tag)?.build();
    let pos_map = ecs.get_map(pos_tag)?;
    let comp = match ecs.map_get(&pos_map, &entity) {
        Some(comp) => comp,
        None => panic!("component missing"),
    };
    assert_eq!(comp.x, 0.0);
    ecs.release_map(pos_map);
    Ok(())
}

#[test]
fn get_multiple_refs() -> Result<(), Error> {
    let mut ecs: ECS<Comp> = ECS::new();
    let pos_tag: usize = ecs.register();
    let vel_tag: usize = ecs.register();
    let entity = ecs
        .create_entity()?
        .with(&mut ecs, Comp::Pos(Pos { x: 0.0 }), pos_tag)?
        .with(&mut ecs, Comp::Vel(Vel { x: 5.0 }), vel_tag)?
        .build();
    {
        let pos_map = ecs.get_map_mut(pos_tag)?;
        let vel_map = ecs.get_map(vel_tag)?;

        let vel_x: f32 = match ecs.map_get(&vel_map, &entity) {
            Some(Comp::Vel(vel)) => vel.x,
            _ => panic!("velocity missing"),
        };
        match ecs.map_get_mut(&pos_map, &entity) {
            Some(Comp::Pos(pos)) => pos.x += vel_x,
            _ => panic!("position missing"),
        }
        ecs.release_map_mut(pos_map);
        ecs.release_map(vel_map);
    }
    let pos_map = ecs.get_map(pos_tag)?;
    let vel_map = ecs.get_map(vel_tag)?;
    let pos_x: f32 = match ecs.map_get(&pos_map, &entity) {
        Some(Comp::Pos(pos)) => pos.x,
        _ => panic!("position missing"),
    };
    let vel_x: f32 = match ecs.map_get(&vel_map, &entity) {
        Some(Comp::Vel(vel)) => vel.x,
        _ => panic!("velocity missing"),
    };
    assert_eq!(pos_x, 5.0);
    assert_eq!(vel_x, 5.0);
    ecs.release_map(pos_map);
    ecs.release_map(vel_map);
    Ok(())
}

#[test]
fn two_entities_two_positions() -> Result<(), Error> {
    let mut ecs: ECS<Pos> = ECS::new();
    let pos_tag: usize = ecs.register();
    let e1 = ecs.create_entity()?.with(&mut ecs, Pos { x: 0.0 }, pos_tag)?.build();
    let e2 = ecs.create_entity()?.with(&mut ecs, Pos { x: 3.0 }, pos_tag)?.build();
    let pos_map = ecs.get_map(pos_tag)?;
    let x1: f32 = match ecs.map_get(&pos_map, &e1) {
        Some(pos) => pos.x,
        None => panic!("position missing"),
    };
    let x2: f32 = match ecs.map_get(&pos_map, &e2) {
        Some(pos) => pos.x,
        None => panic!("position missing"),
    };
    assert_eq!(x1, 0.0);
    assert_eq!(x2, 3.0);
    assert_eq!(ecs.map_len(&pos_map), 2);
    ecs.release_map(pos_map);
    Ok(())
}

#[test]
fn unregistered_component_fails() -> Result<(), Error> {
    let mut ecs: ECS<Pos> = ECS::new();
    let entity = ecs.create_entity()?.build();
    assert!(matches!(
        ecs.add_component(Pos { x: 1.0 }, &entity, 0),
        Err(Error::UnregisteredComponent)
    ));
    assert!(matches!(ecs.get_map(0), Err(Error::UnregisteredComponent)));
    assert!(matches!(ecs.get_map_mut(0), Err(Error::UnregisteredComponent)));
    Ok(())
}

#[test]
fn builder_short_circuits_on_failure() -> Result<(), Error> {
    let mut ecs: ECS<Pos> = ECS::new();
    let builder = ecs.create_entity()?;
    let result = builder.with(&mut ecs, Pos { x: 1.0 }, 7);
    assert!(matches!(result, Err(Error::UnregisteredComponent)));
    Ok(())
}

#[test]
fn error_messages() {
    assert_eq!(Error::UnregisteredComponent.message(), "unregistered component type");
    assert_eq!(Error::BorrowConflict.message(), "conflicting access to component map");
}

#[test]
fn conflicting_accesses_fail_fast() -> Result<(), Error> {
    let mut ecs: ECS<Pos> = ECS::new();
    let pos_tag: usize = ecs.register();
    let entity = ecs.create_entity()?.with(&mut ecs, Pos { x: 1.0 }, pos_tag)?.build();

    // Two shared accesses may be held at once ...
    let first = ecs.get_map(pos_tag)?;
    let second = ecs.get_map(pos_tag)?;
    // ... but no exclusive access, and no write, while they are outstanding.
    assert!(matches!(ecs.get_map_mut(pos_tag), Err(Error::BorrowConflict)));
    assert!(matches!(
        ecs.add_component(Pos { x: 2.0 }, &entity, pos_tag),
        Err(Error::BorrowConflict)
    ));
    ecs.release_map(second);
    assert!(matches!(ecs.get_map_mut(pos_tag), Err(Error::BorrowConflict)));
    ecs.release_map(first);

    // With every access surrendered, exclusive access succeeds, and then
    // blocks both shared and exclusive requests until surrendered.
    let writer = ecs.get_map_mut(pos_tag)?;
    assert!(matches!(ecs.get_map(pos_tag), Err(Error::BorrowConflict)));
    assert!(matches!(ecs.get_map_mut(pos_tag), Err(Error::BorrowConflict)));
    ecs.release_map_mut(writer);
    let reader = ecs.get_map(pos_tag)?;
    ecs.release_map(reader);
    Ok(())
}

#[test]
fn different_maps_do_not_interact() -> Result<(), Error> {
    let mut ecs: ECS<Comp> = ECS::new();
    let pos_tag: usize = ecs.register();
    let vel_tag: usize = ecs.register();
    let pos_writer = ecs.get_map_mut(pos_tag)?;
    // Exclusive access to one map leaves the other fully available.
    let vel_writer = ecs.get_map_mut(vel_tag)?;
    ecs.release_map_mut(vel_writer);
    let vel_reader = ecs.get_map(vel_tag)?;
    ecs.release_map(vel_reader);
    ecs.release_map_mut(pos_writer);
    Ok(())
}

#[test]
fn destroyed_entity_slot_is_reused_and_reads_absent() -> Result<(), Error> {
    let mut ecs: ECS<Pos> = ECS::new();
    let pos_tag: usize = ecs.register();
    let e1 = ecs.create_entity()?.with(&mut ecs, Pos { x: 1.0 }, pos_tag)?.build();
    ecs.destroy_entity(&e1);
    let e2 = ecs.create_entity()?.build();
    assert_eq!(e2.index(), e1.index());
    assert_eq!(e2.generation, e1.generation + 1);
    let pos_map = ecs.get_map(pos_tag)?;
    // The new occupant of the slot must not see its predecessor's component.
    assert!(ecs.map_get(&pos_map, &e2).is_none());
    assert!(!ecs.map_contains(&pos_map, &e2));
    ecs.release_map(pos_map);
    // After a fresh write for the new occupant, the old identity reads nothing.
    ecs.add_component(Pos { x: 9.0 }, &e2, pos_tag)?;
    let pos_map = ecs.get_map(pos_tag)?;
    assert!(ecs.map_contains(&pos_map, &e2));
    assert!(ecs.map_get(&pos_map, &e1).is_none());
    assert!(!ecs.map_contains(&pos_map, &e1));
    ecs.release_map(pos_map);
    Ok(())
}

#[test]
fn builder_bound_by_hand_attaches_to_its_entity() -> Result<(), Error> {
    let mut ecs: ECS<Pos> = ECS::new();
    let pos_tag: usize = ecs.register();
    let entity = ecs.create_entity()?.build();
    let builder = scrapyard_ecs::entity::EntityBuilder::new(entity);
    let same = builder.with(&mut ecs, Pos { x: 4.0 }, pos_tag)?.build();
    assert_eq!(same.index(), entity.index());
    assert_eq!(same.generation, entity.generation);
    let pos_map = ecs.get_map(pos_tag)?;
    let x: f32 = match ecs.map_get(&pos_map, &entity) {
        Some(pos) => pos.x,
        None => panic!("component missing"),
    };
    assert_eq!(x, 4.0);
    ecs.release_map(pos_map);
    Ok(())
}
