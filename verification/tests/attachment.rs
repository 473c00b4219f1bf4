use ball_pickup::attach::default_padding;
use ball_pickup::attach::on_attach_request;
use ball_pickup::attach::process_attach_requests;
use ball_pickup::attach::AttachError;
use ball_pickup::attach::AttachJob;
use ball_pickup::attach::Command;
use ball_pickup::collision::AttachRequest;
use ball_pickup::collision::SingletonViolation;
use ball_pickup::contact::ContactManifold;
use ball_pickup::contact::ContactPair;
use ball_pickup::entity::EntityHandle;
use ball_pickup::entity::EntityRegistry;
use ball_pickup::entity::Role;
use ball_pickup::vector::FixedVec3;
use ball_pickup::vector::UNIT;

const PLAYER: EntityHandle = EntityHandle { id: 1 };
const FLOOR: EntityHandle = EntityHandle { id: 2 };
const OBJECT_5: EntityHandle = EntityHandle { id: 5 };
const OBJECT_6: EntityHandle = EntityHandle { id: 6 };

fn spawn_place(object: EntityHandle) -> FixedVec3 {
    FixedVec3::from_units(10 * object.id as i32, 1, -10)
}

fn objects_only() -> EntityRegistry {
    let mut registry = EntityRegistry::new();
    for (object, name) in [(OBJECT_5, "Box 3"), (OBJECT_6, "Box 4")] {
        registry
            .register_object(
                object,
                name.to_string(),
                "Priceless Treasures".to_string(),
                spawn_place(object),
            )
            .unwrap();
    }
    registry
}

fn arena() -> EntityRegistry {
    let mut registry = objects_only();
    registry.set_player(PLAYER).unwrap();
    registry.set_floor(FLOOR).unwrap();
    registry
}

fn contact(normals: &[FixedVec3]) -> ContactPair {
    ContactPair::new(normals.iter().map(|n| ContactManifold { local_normal: *n }).collect())
}

fn request(object: EntityHandle) -> AttachRequest {
    AttachRequest { object }
}

fn job(object: EntityHandle, contact: Option<ContactPair>) -> AttachJob {
    AttachJob { request: request(object), contact }
}

#[test]
fn default_padding_is_three_units() {
    assert_eq!(default_padding(), FixedVec3 { x: 3_000_000, y: 3_000_000, z: 3_000_000 });
}

#[test]
fn object_is_perched_at_the_padded_contact_normal() {
    let mut registry = arena();
    let touching = contact(&[FixedVec3::from_units(0, 1, 0)]);
    let done =
        on_attach_request(&mut registry, request(OBJECT_5), Some(&touching), default_padding())
            .expect("object 5 is free");
    assert_eq!(done.object, OBJECT_5);
    assert_eq!(done.parent, PLAYER);
    assert_eq!(done.local_position, FixedVec3::from_units(0, 3, 0));
    assert!(!done.missing_contact_geometry);
    assert_eq!(done.notification.title, "Box 3");
    assert_eq!(done.notification.message, "Priceless Treasures");
    assert_eq!(done.commands(), vec![
        Command::RemoveCollider { entity: OBJECT_5 },
        Command::Reparent {
            child: OBJECT_5,
            parent: PLAYER,
            local_position: FixedVec3::from_units(0, 3, 0),
        },
    ]);
    assert_eq!(registry.role_of(OBJECT_5), Some(Role::AttachedObject));
    let record = registry.object(OBJECT_5).unwrap();
    assert!(record.is_attached());
    assert_eq!(record.position(), FixedVec3::from_units(0, 3, 0));
    assert_eq!(record.name(), "Box 3");
    assert_eq!(registry.role_of(OBJECT_6), Some(Role::FreeObject));
    assert_eq!(registry.object(OBJECT_6).unwrap().position(), spawn_place(OBJECT_6));
}

#[test]
fn second_request_for_an_attached_object_is_stale() {
    let mut registry = arena();
    let touching = contact(&[FixedVec3::from_units(0, 1, 0)]);
    let padding = default_padding();
    assert!(on_attach_request(&mut registry, request(OBJECT_5), Some(&touching), padding).is_ok());
    let elsewhere = contact(&[FixedVec3::from_units(1, 0, 0)]);
    let again = on_attach_request(&mut registry, request(OBJECT_5), Some(&elsewhere), padding);
    assert_eq!(again.err(), Some(AttachError::StaleRequest));
    let record = registry.object(OBJECT_5).unwrap();
    assert!(record.is_attached());
    assert_eq!(record.position(), FixedVec3::from_units(0, 3, 0));
}

#[test]
fn request_for_what_is_no_object_is_stale() {
    let mut registry = arena();
    let padding = default_padding();
    for not_an_object in [PLAYER, FLOOR, EntityHandle { id: 99 }] {
        let outcome = on_attach_request(&mut registry, request(not_an_object), None, padding);
        assert_eq!(outcome.err(), Some(AttachError::StaleRequest));
    }
    assert!(registry.despawn(OBJECT_6));
    let outcome = on_attach_request(&mut registry, request(OBJECT_6), None, padding);
    assert_eq!(outcome.err(), Some(AttachError::StaleRequest));
    assert_eq!(registry.role_of(OBJECT_5), Some(Role::FreeObject));
}

#[test]
fn without_contact_the_object_stays_where_it_was_last_known() {
    let mut registry = arena();
    let done = on_attach_request(&mut registry, request(OBJECT_5), None, default_padding())
        .expect("attachment goes ahead without contact");
    assert!(done.missing_contact_geometry);
    assert_eq!(done.local_position, spawn_place(OBJECT_5));
    assert_eq!(done.notification.title, "Box 3");
    assert_eq!(registry.role_of(OBJECT_5), Some(Role::AttachedObject));
    assert_eq!(registry.object(OBJECT_5).unwrap().position(), spawn_place(OBJECT_5));

    let moved_to = FixedVec3::new(1, 2, 3);
    assert!(registry.move_object(OBJECT_6, moved_to));
    let no_manifolds = contact(&[]);
    let done =
        on_attach_request(&mut registry, request(OBJECT_6), Some(&no_manifolds), default_padding())
            .expect("attachment goes ahead without manifolds");
    assert!(done.missing_contact_geometry);
    assert_eq!(done.local_position, moved_to);
}

#[test]
fn last_manifold_decides() {
    let mut registry = arena();
    let touching = contact(&[
        FixedVec3::from_units(1, 0, 0),
        FixedVec3::from_units(0, 0, -1),
        FixedVec3::new(600_000, 0, 800_000),
    ]);
    assert_eq!(touching.deciding_normal(), Some(FixedVec3::new(600_000, 0, 800_000)));
    assert_eq!(contact(&[]).deciding_normal(), None);
    let padding = FixedVec3::new(2 * UNIT, 2 * UNIT, UNIT / 2);
    let done = on_attach_request(&mut registry, request(OBJECT_5), Some(&touching), padding).unwrap();
    assert_eq!(done.local_position, FixedVec3::new(1_200_000, 0, 400_000));
    assert!(!done.missing_contact_geometry);
}

#[test]
fn without_a_player_a_free_object_cannot_be_attached() {
    let mut registry = objects_only();
    let touching = contact(&[FixedVec3::from_units(0, 1, 0)]);
    let outcome =
        on_attach_request(&mut registry, request(OBJECT_5), Some(&touching), default_padding());
    assert_eq!(outcome.err(), Some(AttachError::SingletonViolation));
    assert_eq!(registry.role_of(OBJECT_5), Some(Role::FreeObject));
    assert_eq!(registry.object(OBJECT_5).unwrap().position(), spawn_place(OBJECT_5));
    // Staleness is found first.
    let outcome = on_attach_request(&mut registry, request(PLAYER), None, default_padding());
    assert_eq!(outcome.err(), Some(AttachError::StaleRequest));
}

#[test]
fn duplicate_requests_attach_once() {
    let mut registry = arena();
    let up = FixedVec3::from_units(0, 1, 0);
    let side = FixedVec3::from_units(1, 0, 0);
    let jobs = vec![
        job(OBJECT_5, Some(contact(&[up]))),
        job(OBJECT_5, Some(contact(&[side]))),
        job(OBJECT_6, None),
        job(OBJECT_5, None),
        job(PLAYER, None),
        job(OBJECT_6, Some(contact(&[side]))),
    ];
    let batch = process_attach_requests(&mut registry, &jobs, default_padding()).unwrap();
    assert_eq!(batch.commands, vec![
        Command::RemoveCollider { entity: OBJECT_5 },
        Command::Reparent {
            child: OBJECT_5,
            parent: PLAYER,
            local_position: FixedVec3::from_units(0, 3, 0),
        },
        Command::RemoveCollider { entity: OBJECT_6 },
        Command::Reparent { child: OBJECT_6, parent: PLAYER, local_position: spawn_place(OBJECT_6) },
    ]);
    let removals = |object: EntityHandle| {
        batch.commands.iter().filter(|c| **c == Command::RemoveCollider { entity: object }).count()
    };
    let reparentings = |object: EntityHandle| {
        batch
            .commands
            .iter()
            .filter(|c| matches!(c, Command::Reparent { child, .. } if *child == object))
            .count()
    };
    for object in [OBJECT_5, OBJECT_6] {
        assert_eq!(removals(object), 1);
        assert_eq!(reparentings(object), 1);
    }
    assert_eq!(removals(PLAYER), 0);
    assert_eq!(reparentings(PLAYER), 0);
    assert_eq!(batch.stale, 4);
    assert_eq!(batch.missing_contact_geometry, 1);
    let announced: Vec<(&str, &str)> =
        batch.notifications.iter().map(|n| (n.title.as_str(), n.message.as_str())).collect();
    assert_eq!(announced, vec![("Box 3", "Priceless Treasures"), ("Box 4", "Priceless Treasures")]);
    assert_eq!(registry.role_of(OBJECT_5), Some(Role::AttachedObject));
    assert_eq!(registry.role_of(OBJECT_6), Some(Role::AttachedObject));

    // A later batch finds nothing left to attach.
    let later = vec![job(OBJECT_5, Some(contact(&[up]))), job(OBJECT_6, Some(contact(&[up])))];
    let batch = process_attach_requests(&mut registry, &later, default_padding()).unwrap();
    assert!(batch.commands.is_empty());
    assert!(batch.notifications.is_empty());
    assert_eq!(batch.stale, 2);
    assert_eq!(batch.missing_contact_geometry, 0);
}

#[test]
fn empty_batch_does_nothing() {
    let mut registry = arena();
    let batch = process_attach_requests(&mut registry, &Vec::new(), default_padding()).unwrap();
    assert!(batch.commands.is_empty());
    assert!(batch.notifications.is_empty());
    assert_eq!(batch.stale, 0);
    assert_eq!(batch.missing_contact_geometry, 0);
    let mut nobody = EntityRegistry::new();
    assert!(process_attach_requests(&mut nobody, &Vec::new(), default_padding()).is_ok());
}

#[test]
fn batch_without_a_player_fails_only_on_a_free_object() {
    let mut registry = objects_only();
    let stale_only = vec![job(PLAYER, None), job(EntityHandle { id: 99 }, None)];
    let batch = process_attach_requests(&mut registry, &stale_only, default_padding()).unwrap();
    assert!(batch.commands.is_empty());
    assert!(batch.notifications.is_empty());
    assert_eq!(batch.stale, 2);
    assert_eq!(batch.missing_contact_geometry, 0);

    let jobs = vec![job(PLAYER, None), job(OBJECT_6, None), job(OBJECT_5, None)];
    let outcome = process_attach_requests(&mut registry, &jobs, default_padding());
    assert_eq!(outcome.err(), Some(SingletonViolation));
    assert_eq!(registry.role_of(OBJECT_5), Some(Role::FreeObject));
    assert_eq!(registry.role_of(OBJECT_6), Some(Role::FreeObject));
    assert_eq!(registry.object(OBJECT_6).unwrap().position(), spawn_place(OBJECT_6));
}
