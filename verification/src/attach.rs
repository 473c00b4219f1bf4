//! The attachment coordinator: it takes a request to absorb an object,
//! checks that the object is still there to be absorbed, works out where on
//! the player it comes to sit, and says what the physics engine and the
//! scene graph are to do about it.

use crate::collision::AttachRequest;
use crate::collision::SingletonViolation;
use crate::contact::deciding_normal;
use crate::contact::ContactManifold;
use crate::contact::ContactPair;
use crate::entity::EntityHandle;
use crate::entity::EntityRegistry;
use crate::entity::RegistryView;
use crate::notification::NotificationRequest;
use crate::notification::NoticeView;
use crate::vector::FixedVec3;
use crate::vector::UNIT;
use vstd::prelude::*;

verus! {

/// The clearance between the player's centre and an absorbed object, along
/// each axis, unless the caller sets another: three units.
pub fn default_padding() -> (padding: FixedVec3)
    ensures
        padding.x == 3 * UNIT,
        padding.y == 3 * UNIT,
        padding.z == 3 * UNIT,
{
    FixedVec3::splat(3 * UNIT)
}

/// Something for the caller to carry out.
#[derive(Clone, Copy, Debug, PartialEq, Eq, Structural)]
pub enum Command {
    /// Take the collider off the entity, so that it collides no more.
    RemoveCollider { entity: EntityHandle },
    /// Make `child` a child of `parent` in the scene graph, at
    /// `local_position` relative to it.
    Reparent { child: EntityHandle, parent: EntityHandle, local_position: FixedVec3 },
}

/// Why a request was not carried out.
#[derive(Clone, Copy, Debug, PartialEq, Eq, Structural)]
pub enum AttachError {
    /// The object is attached already, or is no longer there. This happens
    /// when one tick reports a collision twice, and is no fault.
    StaleRequest,
    /// There is no player to attach to.
    SingletonViolation,
}

/// One absorbed object.
#[derive(Debug)]
pub struct Attachment {
    /// The object.
    pub object: EntityHandle,
    /// The player, its new parent.
    pub parent: EntityHandle,
    /// Where the object sits, relative to the player.
    pub local_position: FixedVec3,
    /// Whether there was no contact normal to go by, so that the object
    /// stayed at the place last known of it.
    pub missing_contact_geometry: bool,
    /// The notice that announces the absorption.
    pub notification: NotificationRequest,
}

/// A request together with what the physics engine knows of the contact
/// between the object and the player, if the two still touch.
#[derive(Debug)]
pub struct AttachJob {
    pub request: AttachRequest,
    pub contact: Option<ContactPair>,
}

/// A job as plain values.
pub struct JobView {
    pub object: EntityHandle,
    pub contact: Option<Seq<ContactManifold>>,
}

impl View for AttachJob {
    type V = JobView;

    open spec fn view(&self) -> JobView {
        JobView {
            object: self.request.object,
            contact: match self.contact {
                Some(pair) => Some(pair.manifolds@),
                None => None,
            },
        }
    }
}

/// The normal to go by, if the contact has one.
pub open spec fn normal_of(contact: Option<Seq<ContactManifold>>) -> Option<FixedVec3> {
    match contact {
        Some(manifolds) => deciding_normal(manifolds),
        None => None,
    }
}

/// Where an absorbed object comes to sit: at the contact normal scaled by
/// the padding, or, with no normal to go by, where it was last known to be.
pub open spec fn perch(
    last_known: FixedVec3,
    contact: Option<Seq<ContactManifold>>,
    padding: FixedVec3,
) -> FixedVec3 {
    match normal_of(contact) {
        Some(normal) => normal.scaled(padding),
        None => last_known,
    }
}

/// The two commands that absorbing `object` at `local_position` issues.
pub open spec fn attach_commands(
    object: EntityHandle,
    parent: EntityHandle,
    local_position: FixedVec3,
) -> Seq<Command> {
    seq![
        Command::RemoveCollider { entity: object },
        Command::Reparent { child: object, parent, local_position },
    ]
}

impl Attachment {
    /// What the caller is to do: remove the collider, then reparent.
    pub fn commands(&self) -> (commands: Vec<Command>)
        ensures
            commands@ == attach_commands(self.object, self.parent, self.local_position),
    {
        let mut commands: Vec<Command> = Vec::new();
        commands.push(Command::RemoveCollider { entity: self.object });
        commands.push(
            Command::Reparent {
                child: self.object,
                parent: self.parent,
                local_position: self.local_position,
            },
        );
        commands
    }
}

/// Carries out one request. A request for anything but a free object is
/// stale and changes nothing; so does one made while there is no player.
/// Otherwise the object is marked attached at its perch, and the result says
/// where that is and what to announce.
pub fn on_attach_request(
    registry: &mut EntityRegistry,
    request: AttachRequest,
    contact: Option<&ContactPair>,
    padding: FixedVec3,
) -> (outcome: Result<Attachment, AttachError>)
    requires
        old(registry).wf(),
    ensures
        final(registry).wf(),
        !old(registry)@.is_free(request.object) <==> outcome matches Err(AttachError::StaleRequest),
        old(registry)@.is_free(request.object) && old(registry)@.player is None <==> outcome matches Err(
            AttachError::SingletonViolation,
        ),
        old(registry)@.is_free(request.object) && old(registry)@.player is Some <==> outcome is Ok,
        outcome is Err ==> final(registry)@ == old(registry)@,
        outcome matches Ok(done) ==> {
            let record = old(registry)@.objects[request.object];
            let manifolds = match contact {
                Some(pair) => Some(pair.manifolds@),
                None => None,
            };
            &&& done.object == request.object
            &&& Some(done.parent) == old(registry)@.player
            &&& done.local_position == perch(record.position, manifolds, padding)
            &&& done.missing_contact_geometry == (normal_of(manifolds) is None)
            &&& done.notification@ == (NoticeView { title: record.name, message: record.category })
            &&& final(registry)@ == old(registry)@.attach(request.object, done.local_position)
        },
{
    let object = request.object;
    let (last_known, title, message) = match registry.object(object) {
        Some(record) => {
            if record.is_attached() {
                return Err(AttachError::StaleRequest);
            }
            (record.position(), record.name().clone(), record.category().clone())
        },
        None => {
            return Err(AttachError::StaleRequest);
        },
    };
    let parent = match registry.player() {
        Some(player) => player,
        None => {
            return Err(AttachError::SingletonViolation);
        },
    };
    let normal = match contact {
        Some(pair) => pair.deciding_normal(),
        None => None,
    };
    let (local_position, missing_contact_geometry) = match normal {
        Some(normal) => (normal.scale(padding), false),
        None => (last_known, true),
    };
    registry.attach(object, local_position);
    Ok(
        Attachment {
            object,
            parent,
            local_position,
            missing_contact_geometry,
            notification: NotificationRequest { title, message },
        },
    )
}

/// What a batch of jobs came to.
#[derive(Debug)]
pub struct BatchOutcome {
    /// The commands to carry out, in order.
    pub commands: Vec<Command>,
    /// The notices to announce, in order.
    pub notifications: Vec<NotificationRequest>,
    /// How many requests were stale, and dropped.
    pub stale: usize,
    /// How many objects were attached without a contact normal to go by.
    pub missing_contact_geometry: usize,
}

/// A batch's progress as plain values.
pub struct BatchView {
    pub registry: RegistryView,
    pub commands: Seq<Command>,
    pub notices: Seq<NoticeView>,
    pub stale: nat,
    pub missing_contact_geometry: nat,
}

/// The progress of a batch after one more job, with `parent` the player. A
/// job for anything but a free object is counted as stale and changes
/// nothing else.
pub open spec fn after_job(
    so_far: BatchView,
    job: JobView,
    parent: EntityHandle,
    padding: FixedVec3,
) -> BatchView {
    if so_far.registry.is_free(job.object) {
        let record = so_far.registry.objects[job.object];
        let local_position = perch(record.position, job.contact, padding);
        BatchView {
            registry: so_far.registry.attach(job.object, local_position),
            commands: so_far.commands.push(Command::RemoveCollider { entity: job.object }).push(
                Command::Reparent { child: job.object, parent, local_position },
            ),
            notices: so_far.notices.push(
                NoticeView { title: record.name, message: record.category },
            ),
            stale: so_far.stale,
            missing_contact_geometry: if normal_of(job.contact) is None {
                so_far.missing_contact_geometry + 1
            } else {
                so_far.missing_contact_geometry
            },
        }
    } else {
        BatchView { stale: so_far.stale + 1, ..so_far }
    }
}

/// What a run of jobs comes to, taken in order, with `parent` the player.
pub open spec fn after_jobs(
    registry: RegistryView,
    jobs: Seq<JobView>,
    parent: EntityHandle,
    padding: FixedVec3,
) -> BatchView
    decreases jobs.len(),
{
    if jobs.len() == 0 {
        BatchView {
            registry,
            commands: Seq::empty(),
            notices: Seq::empty(),
            stale: 0,
            missing_contact_geometry: 0,
        }
    } else {
        after_job(after_jobs(registry, jobs.drop_last(), parent, padding), jobs.last(), parent, padding)
    }
}

/// What a batch comes to. With a player, each job is taken in turn. Without
/// one nothing can be attached, and a batch that gets through at all has
/// dropped every request as stale.
pub open spec fn batch_spec(registry: RegistryView, jobs: Seq<JobView>, padding: FixedVec3) -> BatchView {
    match registry.player {
        Some(parent) => after_jobs(registry, jobs, parent, padding),
        None => BatchView {
            registry,
            commands: Seq::empty(),
            notices: Seq::empty(),
            stale: jobs.len(),
            missing_contact_geometry: 0,
        },
    }
}

/// The jobs as plain values.
pub open spec fn job_views(jobs: Seq<AttachJob>) -> Seq<JobView> {
    jobs.map_values(|job: AttachJob| job@)
}

/// The notices as plain values.
pub open spec fn notice_views(notices: Seq<NotificationRequest>) -> Seq<NoticeView> {
    notices.map_values(|notice: NotificationRequest| notice@)
}

/// Whether some job asks for a free object.
pub open spec fn asks_for_free_object(registry: RegistryView, jobs: Seq<JobView>) -> bool {
    exists|i: int| 0 <= i < jobs.len() && registry.is_free((#[trigger] jobs[i]).object)
}

/// Carries out one tick's jobs, in order. Stale requests are dropped and
/// counted. Without a player nothing can be attached: if any job asks for a
/// free object then, the batch fails and the registry stays as it was.
pub fn process_attach_requests(
    registry: &mut EntityRegistry,
    jobs: &Vec<AttachJob>,
    padding: FixedVec3,
) -> (outcome: Result<BatchOutcome, SingletonViolation>)
    requires
        old(registry).wf(),
    ensures
        final(registry).wf(),
        outcome is Err <==> old(registry)@.player is None && asks_for_free_object(
            old(registry)@,
            job_views(jobs@),
        ),
        outcome is Err ==> final(registry)@ == old(registry)@,
        outcome matches Ok(batch) ==> {
            let result = batch_spec(old(registry)@, job_views(jobs@), padding);
            &&& final(registry)@ == result.registry
            &&& batch.commands@ == result.commands
            &&& notice_views(batch.notifications@) == result.notices
            &&& batch.stale == result.stale
            &&& batch.missing_contact_geometry == result.missing_contact_geometry
        },
{
    let mut commands: Vec<Command> = Vec::new();
    let mut notifications: Vec<NotificationRequest> = Vec::new();
    let mut stale: usize = 0;
    let mut missing_contact_geometry: usize = 0;
    let ghost views = job_views(jobs@);
    let mut i: usize = 0;
    while i < jobs.len()
        invariant
            i <= jobs@.len(),
            views == job_views(jobs@),
            registry.wf(),
            registry@.player == old(registry)@.player,
            stale + missing_contact_geometry <= i,
            old(registry)@.player is None ==> {
                &&& registry@ == old(registry)@
                &&& commands@.len() == 0
                &&& notifications@.len() == 0
                &&& stale == i
                &&& missing_contact_geometry == 0
                &&& !asks_for_free_object(old(registry)@, views.take(i as int))
            },
            old(registry)@.player matches Some(parent) ==> {
                let result = after_jobs(old(registry)@, views.take(i as int), parent, padding);
                &&& registry@ == result.registry
                &&& commands@ == result.commands
                &&& notice_views(notifications@) == result.notices
                &&& stale == result.stale
                &&& missing_contact_geometry == result.missing_contact_geometry
            },
        decreases jobs@.len() - i,
    {
        assert(views.take(i + 1).drop_last() == views.take(i as int));
        let job = &jobs[i];
        match on_attach_request(registry, job.request, job.contact.as_ref(), padding) {
            Ok(done) => {
                commands.push(Command::RemoveCollider { entity: done.object });
                commands.push(
                    Command::Reparent {
                        child: done.object,
                        parent: done.parent,
                        local_position: done.local_position,
                    },
                );
                if done.missing_contact_geometry {
                    missing_contact_geometry += 1;
                }
                notifications.push(done.notification);
            },
            Err(AttachError::StaleRequest) => {
                stale += 1;
                proof {
                    let longer = views.take(i + 1);
                    if old(registry)@.player is None && asks_for_free_object(old(registry)@, longer) {
                        let k = choose|k: int|
                            0 <= k < longer.len() && old(registry)@.is_free(
                                (#[trigger] longer[k]).object,
                            );
                        assert(views.take(i as int)[k] == longer[k]);
                    }
                }
            },
            Err(AttachError::SingletonViolation) => {
                return Err(SingletonViolation);
            },
        }
        i += 1;
    }
    assert(views.take(i as int) == views);
    Ok(BatchOutcome { commands, notifications, stale, missing_contact_geometry })
}

/// How often `commands` tells to remove the collider of `object`.
pub open spec fn collider_removals(commands: Seq<Command>, object: EntityHandle) -> nat
    decreases commands.len(),
{
    if commands.len() == 0 {
        0
    } else {
        let earlier = collider_removals(commands.drop_last(), object);
        if commands.last() == (Command::RemoveCollider { entity: object }) {
            earlier + 1
        } else {
            earlier
        }
    }
}

/// How often `commands` tells to reparent `object`, under whatever parent
/// and wherever.
pub open spec fn reparentings(commands: Seq<Command>, object: EntityHandle) -> nat
    decreases commands.len(),
{
    if commands.len() == 0 {
        0
    } else {
        let earlier = reparentings(commands.drop_last(), object);
        match commands.last() {
            Command::Reparent { child, .. } => if child == object {
                earlier + 1
            } else {
                earlier
            },
            Command::RemoveCollider { .. } => earlier,
        }
    }
}

/// Whether some job names `object`.
pub open spec fn names(jobs: Seq<JobView>, object: EntityHandle) -> bool {
    exists|i: int| 0 <= i < jobs.len() && (#[trigger] jobs[i]).object == object
}

/// An object is attached at most once. However often a batch's jobs name
/// it, and whatever else they name, the batch tells once to remove its
/// collider and once to reparent it if it was free and named at all, and
/// never otherwise; and after the batch it is free only if it was free and
/// not named.
pub proof fn lemma_single_attach(
    registry: RegistryView,
    jobs: Seq<JobView>,
    parent: EntityHandle,
    padding: FixedVec3,
    object: EntityHandle,
)
    ensures
        ({
            let result = after_jobs(registry, jobs, parent, padding);
            let once: nat = if registry.is_free(object) && names(jobs, object) {
                1
            } else {
                0
            };
            &&& collider_removals(result.commands, object) == once
            &&& reparentings(result.commands, object) == once
            &&& result.registry.is_free(object) == (registry.is_free(object) && !names(
                jobs,
                object,
            ))
        }),
    decreases jobs.len(),
{
    if jobs.len() > 0 {
        let earlier = jobs.drop_last();
        let job = jobs.last();
        lemma_single_attach(registry, earlier, parent, padding, object);
        let so_far = after_jobs(registry, earlier, parent, padding);
        let result = after_job(so_far, job, parent, padding);
        assert(names(jobs, object) == (names(earlier, object) || job.object == object)) by {
            if names(earlier, object) {
                let k = choose|k: int| 0 <= k < earlier.len() && (#[trigger] earlier[k]).object == object;
                assert(jobs[k].object == object);
            }
            if job.object == object {
                assert(jobs[jobs.len() - 1].object == object);
            }
            if names(jobs, object) {
                let k = choose|k: int| 0 <= k < jobs.len() && (#[trigger] jobs[k]).object == object;
                if k < earlier.len() {
                    assert(earlier[k].object == object);
                }
            }
        }
        if so_far.registry.is_free(job.object) {
            // The job adds two commands; count through them one at a time.
            let with_removal = so_far.commands.push(Command::RemoveCollider { entity: job.object });
            assert(result.commands.drop_last() == with_removal);
            assert(with_removal.drop_last() == so_far.commands);
            assert(collider_removals(result.commands, object) == collider_removals(
                with_removal,
                object,
            ));
            assert(reparentings(with_removal, object) == reparentings(so_far.commands, object));
        }
    }
}

/// A run of jobs may be split anywhere, as it is when it spans several
/// ticks: taken whole it comes to the same as its first part followed, on
/// the registry that the first part leaves, by the rest.
pub proof fn lemma_batches_compose(
    registry: RegistryView,
    first: Seq<JobView>,
    second: Seq<JobView>,
    parent: EntityHandle,
    padding: FixedVec3,
)
    ensures
        ({
            let whole = after_jobs(registry, first + second, parent, padding);
            let head = after_jobs(registry, first, parent, padding);
            let tail = after_jobs(head.registry, second, parent, padding);
            &&& whole.registry == tail.registry
            &&& whole.commands == head.commands + tail.commands
            &&& whole.notices == head.notices + tail.notices
            &&& whole.stale == head.stale + tail.stale
            &&& whole.missing_contact_geometry == head.missing_contact_geometry
                + tail.missing_contact_geometry
        }),
    decreases second.len(),
{
    if second.len() == 0 {
        assert(first + second =~= first);
    } else {
        lemma_batches_compose(registry, first, second.drop_last(), parent, padding);
        assert((first + second).drop_last() =~= first + second.drop_last());
        assert((first + second).last() == second.last());
    }
}

} // verus!
