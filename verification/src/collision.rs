//! The collision classifier: it reads the physics engine's collision
//! events and says which object, if any, each one asks to absorb.

use crate::entity::EntityHandle;
use crate::entity::EntityRegistry;
use crate::entity::RegistryView;
use vstd::prelude::*;

verus! {

/// What the physics engine reports of two colliders in one tick.
#[derive(Clone, Copy, Debug, PartialEq, Eq, Structural)]
pub enum CollisionEvent {
    /// The two began to touch.
    Started(EntityHandle, EntityHandle),
    /// The two ceased to touch.
    Stopped(EntityHandle, EntityHandle),
}

/// A request to absorb one object into the player.
#[derive(Clone, Copy, Debug, PartialEq, Eq, Structural)]
pub struct AttachRequest {
    pub object: EntityHandle,
}

/// The player or the floor is missing: the arena was set up wrongly, and
/// the tick cannot go on.
#[derive(Clone, Copy, Debug, PartialEq, Eq, Structural)]
pub struct SingletonViolation;

/// Whether the registry holds both singletons.
pub open spec fn singletons_present(registry: RegistryView) -> bool {
    registry.player is Some && registry.floor is Some
}

/// The side of a collision to absorb: none when the floor is involved,
/// else the side that is not the player (the second, where the first is the
/// player; the first, where it is not).
pub open spec fn candidate(registry: RegistryView, a: EntityHandle, b: EntityHandle) -> Option<
    EntityHandle,
> {
    if registry.floor == Some(a) || registry.floor == Some(b) {
        None
    } else if registry.player == Some(a) {
        Some(b)
    } else {
        Some(a)
    }
}

/// The request that one event gives rise to, if any. Only the start of a
/// collision can give one.
pub open spec fn request_of(registry: RegistryView, event: CollisionEvent) -> Option<
    AttachRequest,
> {
    match event {
        CollisionEvent::Started(a, b) => match candidate(registry, a, b) {
            Some(object) => Some(AttachRequest { object }),
            None => None,
        },
        CollisionEvent::Stopped(_, _) => None,
    }
}

/// The requests that a run of events gives rise to, in the order of the
/// events.
pub open spec fn requests_of(registry: RegistryView, events: Seq<CollisionEvent>) -> Seq<
    AttachRequest,
>
    decreases events.len(),
{
    if events.len() == 0 {
        Seq::empty()
    } else {
        let earlier = requests_of(registry, events.drop_last());
        match request_of(registry, events.last()) {
            Some(request) => earlier.push(request),
            None => earlier,
        }
    }
}

/// Whether the floor is one side of the event.
pub open spec fn involves_floor(registry: RegistryView, event: CollisionEvent) -> bool {
    match event {
        CollisionEvent::Started(a, b) => registry.floor == Some(a) || registry.floor == Some(b),
        CollisionEvent::Stopped(a, b) => registry.floor == Some(a) || registry.floor == Some(b),
    }
}

/// Classifies the start of a collision between `a` and `b`.
pub fn on_collision_started(registry: &EntityRegistry, a: EntityHandle, b: EntityHandle) -> (request:
    Result<Option<AttachRequest>, SingletonViolation>)
    ensures
        request is Ok <==> singletons_present(registry@),
        request matches Ok(r) ==> r == request_of(registry@, CollisionEvent::Started(a, b)),
        request matches Ok(r) ==> (registry@.floor == Some(a) || registry@.floor == Some(b) ==> r
            is None),
{
    let player = match registry.player() {
        Some(player) => player,
        None => {
            return Err(SingletonViolation);
        },
    };
    let floor = match registry.floor() {
        Some(floor) => floor,
        None => {
            return Err(SingletonViolation);
        },
    };
    if a == floor || b == floor {
        Ok(None)
    } else if a == player {
        Ok(Some(AttachRequest { object: b }))
    } else {
        Ok(Some(AttachRequest { object: a }))
    }
}

/// Classifies one tick's events, in order. Ends of collisions are read and
/// passed over.
pub fn classify_collisions(registry: &EntityRegistry, events: &Vec<CollisionEvent>) -> (requests:
    Result<Vec<AttachRequest>, SingletonViolation>)
    ensures
        requests is Ok <==> singletons_present(registry@),
        requests matches Ok(r) ==> r@ == requests_of(registry@, events@),
{
    if registry.player().is_none() || registry.floor().is_none() {
        return Err(SingletonViolation);
    }
    let mut requests: Vec<AttachRequest> = Vec::new();
    let mut i: usize = 0;
    while i < events.len()
        invariant
            i <= events@.len(),
            singletons_present(registry@),
            requests@ == requests_of(registry@, events@.take(i as int)),
        decreases events@.len() - i,
    {
        assert(events@.take(i + 1).drop_last() == events@.take(i as int));
        match events[i] {
            CollisionEvent::Started(a, b) => {
                match on_collision_started(registry, a, b) {
                    Ok(Some(request)) => {
                        requests.push(request);
                    },
                    Ok(None) => {},
                    Err(_) => {},
                }
            },
            CollisionEvent::Stopped(_, _) => {},
        }
        i += 1;
    }
    assert(events@.take(i as int) == events@);
    Ok(requests)
}

/// Events that involve the floor give rise to no request, however many
/// they are.
pub proof fn lemma_floor_events_request_nothing(registry: RegistryView, events: Seq<CollisionEvent>)
    requires
        forall|i: int| 0 <= i < events.len() ==> involves_floor(registry, #[trigger] events[i]),
    ensures
        requests_of(registry, events).len() == 0,
    decreases events.len(),
{
    if events.len() > 0 {
        lemma_floor_events_request_nothing(registry, events.drop_last());
    }
}

} // verus!
