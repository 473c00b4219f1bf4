use ball_pickup::attach::AttachJob;
use ball_pickup::attach::Command;
use ball_pickup::collision::AttachRequest;
use ball_pickup::collision::CollisionEvent;
use ball_pickup::collision::SingletonViolation;
use ball_pickup::contact::ContactManifold;
use ball_pickup::contact::ContactPair;
use ball_pickup::entity::EntityHandle;
use ball_pickup::entity::Role;
use ball_pickup::notification::Fraction;
use ball_pickup::notification::Phase;
use ball_pickup::pipeline::Pipeline;
use ball_pickup::vector::FixedVec3;

const SECOND: u64 = 1_000_000_000;
const PLAYER: EntityHandle = EntityHandle { id: 1 };
const FLOOR: EntityHandle = EntityHandle { id: 2 };
const OBJECT_5: EntityHandle = EntityHandle { id: 5 };
const OBJECT_6: EntityHandle = EntityHandle { id: 6 };

fn arena() -> Pipeline {
    let mut pipeline = Pipeline::new();
    pipeline.registry.set_player(PLAYER).unwrap();
    pipeline.registry.set_floor(FLOOR).unwrap();
    for (object, name) in [(OBJECT_5, "Box 3"), (OBJECT_6, "Box 4")] {
        pipeline
            .registry
            .register_object(
                object,
                name.to_string(),
                "Priceless Treasures".to_string(),
                FixedVec3::from_units(50, 1, 50),
            )
            .unwrap();
    }
    pipeline
}

fn jobs_for(requests: &[AttachRequest], normal: FixedVec3) -> Vec<AttachJob> {
    requests
        .iter()
        .map(|request| AttachJob {
            request: *request,
            contact: Some(ContactPair::new(vec![ContactManifold { local_normal: normal }])),
        })
        .collect()
}

#[test]
fn new_pipeline_is_empty() {
    let pipeline = Pipeline::new();
    assert_eq!(pipeline.padding, FixedVec3::from_units(3, 3, 3));
    assert_eq!(pipeline.registry.player(), None);
    assert_eq!(pipeline.registry.floor(), None);
    assert!(pipeline.notifications.is_empty());
    assert!(pipeline.current_notification().is_none());
    assert_eq!(pipeline.classify(&vec![]), Err(SingletonViolation));
}

#[test]
fn collision_with_the_floor_yields_no_request() {
    let mut pipeline = arena();
    let events = vec![CollisionEvent::Started(PLAYER, FLOOR)];
    let requests = pipeline.classify(&events).unwrap();
    assert_eq!(requests.len(), 0);
    let report = pipeline.resolve(&Vec::new(), SECOND).unwrap();
    assert!(report.commands.is_empty());
    assert_eq!(report.stale, 0);
    assert!(report.removed.is_none());
    assert!(pipeline.current_notification().is_none());
}

#[test]
fn a_tick_attaches_announces_and_then_advances() {
    let mut pipeline = arena();
    let events = vec![
        CollisionEvent::Started(PLAYER, FLOOR),
        CollisionEvent::Started(PLAYER, OBJECT_5),
        CollisionEvent::Started(OBJECT_5, PLAYER),
    ];
    let requests = pipeline.classify(&events).unwrap();
    assert_eq!(requests, vec![AttachRequest { object: OBJECT_5 }, AttachRequest { object: OBJECT_5 }]);
    let jobs = jobs_for(&requests, FixedVec3::from_units(0, 1, 0));
    let report = pipeline.resolve(&jobs, SECOND).unwrap();
    assert_eq!(report.commands, vec![
        Command::RemoveCollider { entity: OBJECT_5 },
        Command::Reparent {
            child: OBJECT_5,
            parent: PLAYER,
            local_position: FixedVec3::from_units(0, 3, 0),
        },
    ]);
    assert_eq!(report.stale, 1);
    assert_eq!(report.missing_contact_geometry, 0);
    assert!(report.removed.is_none());
    assert_eq!(pipeline.registry.role_of(OBJECT_5), Some(Role::AttachedObject));
    assert_eq!(pipeline.registry.role_of(OBJECT_6), Some(Role::FreeObject));

    // The notice was enqueued before the queue moved on: it holds already.
    assert_eq!(pipeline.notifications.len(), 1);
    let (shown, fraction) = pipeline.current_notification().unwrap();
    assert_eq!(shown.title(), "Box 3");
    assert_eq!(shown.message(), "Priceless Treasures");
    assert_eq!(shown.phase(), Phase::Holding);
    assert_eq!(fraction, Fraction { numerator: 1, denominator: 1 });
}

#[test]
fn notices_of_one_tick_are_shown_one_after_the_other() {
    let mut pipeline = arena();
    let events =
        vec![CollisionEvent::Started(OBJECT_6, PLAYER), CollisionEvent::Started(PLAYER, OBJECT_5)];
    let requests = pipeline.classify(&events).unwrap();
    let jobs = jobs_for(&requests, FixedVec3::from_units(1, 0, 0));
    let report = pipeline.resolve(&jobs, 0).unwrap();
    assert_eq!(report.commands.len(), 4);
    assert_eq!(pipeline.notifications.len(), 2);

    let mut titles: Vec<String> = Vec::new();
    let mut ticks = 0;
    while let Some((shown, _)) = pipeline.current_notification() {
        if titles.last() != Some(shown.title()) {
            titles.push(shown.title().clone());
        }
        let report = pipeline.resolve(&Vec::new(), SECOND).unwrap();
        assert!(report.commands.is_empty());
        ticks += 1;
        assert!(ticks < 100);
    }
    assert_eq!(titles, vec!["Box 4", "Box 3"]);
    // The first is holding already: three seconds to hold, three to fade.
    // The second needs a tick more, to start.
    assert_eq!(ticks, 6 + 7);
}

#[test]
fn removed_notification_is_reported() {
    let mut pipeline = arena();
    let requests = vec![AttachRequest { object: OBJECT_5 }];
    let jobs = jobs_for(&requests, FixedVec3::from_units(0, 0, 1));
    assert!(pipeline.resolve(&jobs, 0).unwrap().removed.is_none());
    assert!(pipeline.resolve(&Vec::new(), 3 * SECOND).unwrap().removed.is_none());
    assert!(pipeline.resolve(&Vec::new(), 2 * SECOND).unwrap().removed.is_none());
    let (_, fraction) = pipeline.current_notification().unwrap();
    assert_eq!(fraction, Fraction { numerator: SECOND, denominator: 3 * SECOND });
    assert_eq!(fraction.alpha(), 85);
    let removed = pipeline.resolve(&Vec::new(), SECOND).unwrap().removed.expect("the fade is over");
    assert_eq!(removed.title(), "Box 3");
    assert!(removed.fade_fraction().is_zero());
    assert!(pipeline.current_notification().is_none());
}

#[test]
fn a_failed_tick_changes_nothing() {
    let mut pipeline = Pipeline::new();
    pipeline
        .registry
        .register_object(OBJECT_5, "Box 3".to_string(), "c".to_string(), FixedVec3::splat(0))
        .unwrap();
    pipeline.notifications.enqueue("waiting".to_string(), "m".to_string());
    let jobs = jobs_for(&[AttachRequest { object: OBJECT_5 }], FixedVec3::from_units(0, 1, 0));
    assert_eq!(pipeline.resolve(&jobs, SECOND).err(), Some(SingletonViolation));
    assert_eq!(pipeline.registry.role_of(OBJECT_5), Some(Role::FreeObject));
    assert_eq!(pipeline.notifications.len(), 1);
    let (shown, _) = pipeline.current_notification().unwrap();
    assert_eq!(shown.phase(), Phase::Queued);
}
