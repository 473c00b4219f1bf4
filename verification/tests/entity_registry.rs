use ball_pickup::entity::EntityHandle;
use ball_pickup::entity::EntityRegistry;
use ball_pickup::entity::RegistryError;
use ball_pickup::entity::Role;
use ball_pickup::vector::FixedVec3;

fn handle(id: u64) -> EntityHandle {
    EntityHandle { id }
}

fn arena() -> EntityRegistry {
    let mut registry = EntityRegistry::new();
    assert_eq!(registry.set_player(handle(1)), Ok(()));
    assert_eq!(registry.set_floor(handle(2)), Ok(()));
    for id in 3..6 {
        let name = format!("Box {}", id - 3);
        let done = registry.register_object(
            handle(id),
            name,
            "Priceless Treasures".to_string(),
            FixedVec3::from_units(id as i32, 1, 0),
        );
        assert_eq!(done, Ok(()));
    }
    registry
}

#[test]
fn new_registry_knows_nobody() {
    let registry = EntityRegistry::new();
    assert_eq!(registry.player(), None);
    assert_eq!(registry.floor(), None);
    assert!(!registry.knows(handle(0)));
    assert_eq!(registry.role_of(handle(0)), None);
    assert!(registry.object(handle(0)).is_none());
    assert!(!registry.is_free(handle(0)));
}

#[test]
fn roles_are_looked_up_by_handle() {
    let registry = arena();
    assert_eq!(registry.player(), Some(handle(1)));
    assert_eq!(registry.floor(), Some(handle(2)));
    assert_eq!(registry.role_of(handle(1)), Some(Role::Player));
    assert_eq!(registry.role_of(handle(2)), Some(Role::Floor));
    assert_eq!(registry.role_of(handle(3)), Some(Role::FreeObject));
    assert_eq!(registry.role_of(handle(5)), Some(Role::FreeObject));
    assert_eq!(registry.role_of(handle(6)), None);
    assert!(registry.knows(handle(1)));
    assert!(registry.knows(handle(2)));
    assert!(registry.knows(handle(4)));
    assert!(!registry.knows(handle(6)));
    assert!(registry.is_free(handle(4)));
    assert!(!registry.is_free(handle(1)));
    assert!(!registry.is_free(handle(2)));
}

#[test]
fn object_record_keeps_what_was_registered() {
    let registry = arena();
    let record = registry.object(handle(4)).expect("object 4 is registered");
    assert_eq!(record.handle(), handle(4));
    assert_eq!(record.name(), "Box 1");
    assert_eq!(record.category(), "Priceless Treasures");
    assert!(!record.is_attached());
    assert_eq!(record.position(), FixedVec3::from_units(4, 1, 0));
    assert!(registry.object(handle(1)).is_none());
    assert!(registry.object(handle(9)).is_none());
}

#[test]
fn singletons_are_set_once() {
    let mut registry = arena();
    assert_eq!(registry.set_player(handle(7)), Err(RegistryError::AlreadyPresent));
    assert_eq!(registry.set_player(handle(1)), Err(RegistryError::AlreadyPresent));
    assert_eq!(registry.set_floor(handle(7)), Err(RegistryError::AlreadyPresent));
    assert_eq!(registry.player(), Some(handle(1)));
    assert_eq!(registry.floor(), Some(handle(2)));
    assert!(!registry.knows(handle(7)));
}

#[test]
fn a_handle_plays_one_part() {
    let mut registry = EntityRegistry::new();
    let at = FixedVec3::splat(0);
    assert_eq!(registry.register_object(handle(3), "a".to_string(), "c".to_string(), at), Ok(()));
    assert_eq!(registry.set_player(handle(3)), Err(RegistryError::HandleInUse));
    assert_eq!(registry.set_floor(handle(3)), Err(RegistryError::HandleInUse));
    assert_eq!(registry.set_player(handle(1)), Ok(()));
    assert_eq!(registry.set_floor(handle(1)), Err(RegistryError::HandleInUse));
    assert_eq!(registry.set_floor(handle(2)), Ok(()));
    for taken in [1, 2, 3] {
        let done = registry.register_object(handle(taken), "b".to_string(), "c".to_string(), at);
        assert_eq!(done, Err(RegistryError::HandleInUse));
    }
    assert_eq!(registry.object(handle(3)).unwrap().name(), "a");
    assert_eq!(registry.role_of(handle(1)), Some(Role::Player));
    assert_eq!(registry.role_of(handle(2)), Some(Role::Floor));
}

#[test]
fn free_objects_can_be_moved() {
    let mut registry = arena();
    let there = FixedVec3::new(-5, 6, 7);
    assert!(registry.move_object(handle(4), there));
    assert_eq!(registry.object(handle(4)).unwrap().position(), there);
    assert_eq!(registry.object(handle(4)).unwrap().name(), "Box 1");
    assert_eq!(registry.object(handle(3)).unwrap().position(), FixedVec3::from_units(3, 1, 0));
    assert_eq!(registry.object(handle(5)).unwrap().position(), FixedVec3::from_units(5, 1, 0));
    assert!(!registry.move_object(handle(1), there));
    assert!(!registry.move_object(handle(9), there));
}

#[test]
fn despawned_objects_are_forgotten() {
    let mut registry = arena();
    assert!(registry.despawn(handle(4)));
    assert!(!registry.knows(handle(4)));
    assert_eq!(registry.role_of(handle(4)), None);
    assert!(registry.object(handle(4)).is_none());
    assert!(!registry.despawn(handle(4)));
    assert!(!registry.despawn(handle(1)));
    assert!(!registry.despawn(handle(2)));
    assert_eq!(registry.object(handle(3)).unwrap().name(), "Box 0");
    assert_eq!(registry.object(handle(5)).unwrap().name(), "Box 2");
    assert_eq!(registry.player(), Some(handle(1)));
    let done = registry.register_object(
        handle(4),
        "again".to_string(),
        "c".to_string(),
        FixedVec3::splat(0),
    );
    assert_eq!(done, Ok(()));
    assert_eq!(registry.object(handle(4)).unwrap().name(), "again");
}
