//! One tick of the arena, in its fixed order: collisions are classified,
//! then objects are attached, then their notices are enqueued, and last the
//! notification queue moves on.
//!
//! Between the first step and the second the caller asks the physics engine
//! for the contact of each requested object with the player; so a tick is
//! two calls, `classify` and `resolve`.

use crate::attach::asks_for_free_object;
use crate::attach::batch_spec;
use crate::attach::default_padding;
use crate::attach::job_views;
use crate::attach::process_attach_requests;
use crate::attach::AttachJob;
use crate::attach::Command;
use crate::collision::classify_collisions;
use crate::collision::requests_of;
use crate::collision::singletons_present;
use crate::collision::AttachRequest;
use crate::collision::CollisionEvent;
use crate::collision::SingletonViolation;
use crate::entity::EntityRegistry;
use crate::entity::RegistryView;
use crate::notification::enqueue_all_spec;
use crate::notification::tick_spec;
use crate::notification::Fraction;
use crate::notification::DEFAULT_HOLD_NANOS;
use crate::notification::Notification;
use crate::notification::NotificationQueue;
use crate::vector::FixedVec3;
use crate::vector::UNIT;
use vstd::prelude::*;

verus! {

/// The state that lasts from tick to tick.
#[derive(Debug)]
pub struct Pipeline {
    /// Who is who, and which objects are still free.
    pub registry: EntityRegistry,
    /// The notices waiting and showing.
    pub notifications: NotificationQueue,
    /// The clearance of an attached object from the player's centre, along
    /// each axis.
    pub padding: FixedVec3,
}

/// What the second half of a tick came to.
#[derive(Debug)]
pub struct TickReport {
    /// The commands to carry out, in order.
    pub commands: Vec<Command>,
    /// How many requests were stale, and dropped.
    pub stale: usize,
    /// How many objects were attached without a contact normal to go by.
    pub missing_contact_geometry: usize,
    /// The notification whose fade ran out in this tick, if one did.
    pub removed: Option<Notification>,
}

impl Pipeline {
    /// Both parts are sound.
    pub open spec fn wf(&self) -> bool {
        self.registry.wf() && self.notifications.wf()
    }

    /// An empty arena with an empty queue, the default padding and the
    /// default durations.
    pub fn new() -> (pipeline: Pipeline)
        ensures
            pipeline.wf(),
            pipeline.registry@ == RegistryView::empty(),
            pipeline.notifications@.len() == 0,
            pipeline.notifications.hold_duration() == DEFAULT_HOLD_NANOS,
            pipeline.notifications.fade_duration() == DEFAULT_HOLD_NANOS,
            pipeline.padding.x == 3 * UNIT,
            pipeline.padding.y == 3 * UNIT,
            pipeline.padding.z == 3 * UNIT,
    {
        Pipeline {
            registry: EntityRegistry::new(),
            notifications: NotificationQueue::new(),
            padding: default_padding(),
        }
    }

    /// The first half of a tick: the requests that the tick's collision
    /// events give rise to.
    pub fn classify(&self, events: &Vec<CollisionEvent>) -> (requests: Result<
        Vec<AttachRequest>,
        SingletonViolation,
    >)
        ensures
            requests is Ok <==> singletons_present(self.registry@),
            requests matches Ok(r) ==> r@ == requests_of(self.registry@, events@),
    {
        classify_collisions(&self.registry, events)
    }

    /// The second half of a tick: attaches what the jobs ask for, enqueues
    /// a notice for each object attached, then lets `delta_nanos` pass in
    /// the notification queue. A tick that fails changes nothing.
    pub fn resolve(&mut self, jobs: &Vec<AttachJob>, delta_nanos: u64) -> (outcome: Result<
        TickReport,
        SingletonViolation,
    >)
        requires
            old(self).wf(),
        ensures
            final(self).wf(),
            final(self).padding == old(self).padding,
            final(self).notifications.hold_duration() == old(self).notifications.hold_duration(),
            final(self).notifications.fade_duration() == old(self).notifications.fade_duration(),
            outcome is Err <==> old(self).registry@.player is None && asks_for_free_object(
                old(self).registry@,
                job_views(jobs@),
            ),
            outcome is Err ==> final(self).registry@ == old(self).registry@,
            outcome is Err ==> final(self).notifications@ == old(self).notifications@,
            outcome matches Ok(report) ==> {
                let batch = batch_spec(old(self).registry@, job_views(jobs@), old(self).padding);
                let waiting = enqueue_all_spec(
                    old(self).notifications@,
                    batch.notices,
                    old(self).notifications.hold_duration() as nat,
                    old(self).notifications.fade_duration() as nat,
                );
                &&& final(self).registry@ == batch.registry
                &&& report.commands@ == batch.commands
                &&& report.stale == batch.stale
                &&& report.missing_contact_geometry == batch.missing_contact_geometry
                &&& final(self).notifications@ == tick_spec(waiting, delta_nanos as nat)
                &&& report.removed is Some <==> waiting.len() > 0 && waiting[0].expires(
                    delta_nanos as nat,
                )
                &&& report.removed matches Some(n) ==> n.wf() && n@ == waiting[0].advance(
                    delta_nanos as nat,
                )
            },
    {
        let batch = match process_attach_requests(&mut self.registry, jobs, self.padding) {
            Ok(batch) => batch,
            Err(violation) => {
                return Err(violation);
            },
        };
        self.notifications.enqueue_all(&batch.notifications);
        let removed = self.notifications.tick(delta_nanos);
        Ok(
            TickReport {
                commands: batch.commands,
                stale: batch.stale,
                missing_contact_geometry: batch.missing_contact_geometry,
                removed,
            },
        )
    }

    /// The notification to draw and how much of it is still to be seen, or
    /// nothing when none is due.
    pub fn current_notification(&self) -> (shown: Option<(&Notification, Fraction)>)
        requires
            self.wf(),
        ensures
            shown is None <==> self.notifications@.len() == 0,
            shown matches Some((n, f)) ==> {
                &&& n@ == self.notifications@[0]
                &&& n.wf()
                &&& f.wf()
                &&& f.numerator == self.notifications@[0].remaining()
                &&& f.denominator == self.notifications@[0].span()
            },
    {
        self.notifications.current()
    }
}

} // verus!
