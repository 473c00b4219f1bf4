//! The notification queue: notices wait in line, and only the one at the
//! head is ever on screen. It waits, holds at full strength, fades, and
//! leaves; then the next one takes its place.
//!
//! All times are whole nanoseconds.

use crate::timer::timer_duration;
use crate::timer::timer_duration_nanos;
use crate::timer::timer_elapsed;
use crate::timer::timer_elapsed_nanos;
use crate::timer::timer_finished;
use crate::timer::timer_is_finished;
use crate::timer::timer_once;
use crate::timer::timer_paused;
use crate::timer::timer_repeating;
use crate::timer::timer_tick;
use bevy::time::Timer;
use vstd::prelude::*;

verus! {

/// How long a notification holds, and then how long it fades, unless the
/// queue is told otherwise: three seconds.
pub const DEFAULT_HOLD_NANOS: u64 = 3_000_000_000;

/// Where a notification stands in its life.
#[derive(Clone, Copy, Debug, PartialEq, Eq, Structural)]
pub enum Phase {
    /// Waiting; its timers have not started.
    Queued,
    /// Shown at full strength while the hold timer runs.
    Holding,
    /// Shown ever fainter while the fade timer runs.
    Fading,
}

/// A part of a whole, `numerator / denominator`, between zero and one.
#[derive(Clone, Copy, Debug, PartialEq, Eq, Structural)]
pub struct Fraction {
    pub numerator: u64,
    pub denominator: u64,
}

impl Fraction {
    /// The denominator is not zero and the value is at most one.
    pub open spec fn wf(self) -> bool {
        0 < self.denominator && self.numerator <= self.denominator
    }

    /// `self <= other`, by cross-multiplication.
    pub open spec fn le(self, other: Fraction) -> bool {
        self.numerator * other.denominator <= other.numerator * self.denominator
    }

    /// The fraction of 255, rounded down: the opacity to draw with.
    pub fn alpha(self) -> (a: u8)
        requires
            self.wf(),
        ensures
            a == (self.numerator * 255) / (self.denominator as int),
    {
        let scaled: u128 = (self.numerator as u128) * 255;
        let whole: u128 = self.denominator as u128;
        let level: u128 = scaled / whole;
        assert(level <= 255) by (nonlinear_arith)
            requires
                level == scaled / whole,
                0 < whole,
                scaled <= whole * 255,
        ;
        level as u8
    }

    /// Whether nothing is left.
    pub fn is_zero(self) -> (zero: bool)
        ensures
            zero == (self.numerator == 0),
    {
        self.numerator == 0
    }

    /// Whether the whole is left.
    pub fn is_one(self) -> (one: bool)
        ensures
            one == (self.numerator == self.denominator),
    {
        self.numerator == self.denominator
    }
}

/// A request to announce something: what `enqueue` takes.
#[derive(Debug)]
pub struct NotificationRequest {
    pub title: String,
    pub message: String,
}

/// A request as plain values.
pub struct NoticeView {
    pub title: Seq<char>,
    pub message: Seq<char>,
}

impl View for NotificationRequest {
    type V = NoticeView;

    open spec fn view(&self) -> NoticeView {
        NoticeView { title: self.title@, message: self.message@ }
    }
}

/// One notice: a title, a message, and the two timers of its life.
#[derive(Debug)]
pub struct Notification {
    title: String,
    message: String,
    hold_timer: Timer,
    fade_timer: Timer,
    phase: Phase,
}

/// What a notification is, as plain values.
pub struct NotificationView {
    pub title: Seq<char>,
    pub message: Seq<char>,
    pub phase: Phase,
    /// Time held so far.
    pub hold_elapsed: nat,
    /// Time to hold in all.
    pub hold_duration: nat,
    /// Time faded so far.
    pub fade_elapsed: nat,
    /// Time to fade in all.
    pub fade_duration: nat,
}

impl NotificationView {
    /// A notification as `enqueue` makes it: waiting, no time counted.
    pub open spec fn queued(
        title: Seq<char>,
        message: Seq<char>,
        hold_duration: nat,
        fade_duration: nat,
    ) -> NotificationView {
        NotificationView {
            title,
            message,
            phase: Phase::Queued,
            hold_elapsed: 0,
            hold_duration,
            fade_elapsed: 0,
            fade_duration,
        }
    }

    /// The counts fit the phase: nothing counted while waiting, no fading
    /// before the hold is over, and no timer past its duration.
    pub open spec fn valid(self) -> bool {
        &&& self.hold_duration <= u64::MAX
        &&& self.fade_duration <= u64::MAX
        &&& match self.phase {
            Phase::Queued => self.hold_elapsed == 0 && self.fade_elapsed == 0,
            Phase::Holding => self.hold_elapsed <= self.hold_duration && self.fade_elapsed == 0,
            Phase::Fading => self.hold_elapsed == self.hold_duration && self.fade_elapsed
                <= self.fade_duration,
        }
    }

    /// Numerator of the fade fraction: the fade time still to run. Before
    /// the fade the fraction is one, `1 / 1`; a fade of no length is over at
    /// once, `0 / 1`.
    pub open spec fn remaining(self) -> nat {
        if self.phase != Phase::Fading {
            1
        } else if self.fade_duration == 0 {
            0
        } else {
            (self.fade_duration - self.fade_elapsed) as nat
        }
    }

    /// Denominator of the fade fraction: the length of the fade.
    pub open spec fn span(self) -> nat {
        if self.phase != Phase::Fading || self.fade_duration == 0 {
            1
        } else {
            self.fade_duration
        }
    }

    /// Whether a tick of `delta` ends the fade, and with it the
    /// notification.
    pub open spec fn expires(self, delta: nat) -> bool {
        self.phase == Phase::Fading && self.fade_elapsed + delta >= self.fade_duration
    }

    /// The notification after one tick of `delta` at the head of the queue.
    /// Waiting, it starts to hold, and the tick's time is not counted.
    /// Holding, it counts the time; once the hold is over it starts to fade
    /// from the full length, and time beyond the hold is dropped. Fading, it
    /// counts the time, up to the length of the fade.
    pub open spec fn advance(self, delta: nat) -> NotificationView {
        match self.phase {
            Phase::Queued => NotificationView { phase: Phase::Holding, ..self },
            Phase::Holding => if self.hold_elapsed + delta >= self.hold_duration {
                NotificationView {
                    phase: Phase::Fading,
                    hold_elapsed: self.hold_duration,
                    fade_elapsed: 0,
                    ..self
                }
            } else {
                NotificationView { hold_elapsed: self.hold_elapsed + delta, ..self }
            },
            Phase::Fading => if self.fade_elapsed + delta >= self.fade_duration {
                NotificationView { fade_elapsed: self.fade_duration, ..self }
            } else {
                NotificationView { fade_elapsed: self.fade_elapsed + delta, ..self }
            },
        }
    }
}

impl View for Notification {
    type V = NotificationView;

    closed spec fn view(&self) -> NotificationView {
        NotificationView {
            title: self.title@,
            message: self.message@,
            phase: self.phase,
            hold_elapsed: timer_elapsed(self.hold_timer),
            hold_duration: timer_duration(self.hold_timer),
            fade_elapsed: timer_elapsed(self.fade_timer),
            fade_duration: timer_duration(self.fade_timer),
        }
    }
}

impl Notification {
    /// Both timers run once and are never paused; the hold timer has
    /// finished exactly when the fade has begun, and the fade timer has not
    /// finished before that.
    pub closed spec fn timers_fit(&self) -> bool {
        &&& !timer_repeating(self.hold_timer)
        &&& !timer_repeating(self.fade_timer)
        &&& !timer_paused(self.hold_timer)
        &&& !timer_paused(self.fade_timer)
        &&& timer_finished(self.hold_timer) == (self.phase == Phase::Fading)
        &&& self.phase != Phase::Fading ==> !timer_finished(self.fade_timer)
    }

    /// The fade has run out: the notification is due to leave the queue.
    pub closed spec fn spent(&self) -> bool {
        self.phase == Phase::Fading && timer_finished(self.fade_timer)
    }

    /// The notification is sound.
    pub open spec fn wf(&self) -> bool {
        self.timers_fit() && self@.valid()
    }

    /// A waiting notification with the two durations, its timers not yet
    /// ticked.
    fn queued(title: String, message: String, hold_nanos: u64, fade_nanos: u64) -> (n:
        Notification)
        ensures
            n.wf(),
            !n.spent(),
            n@ == NotificationView::queued(title@, message@, hold_nanos as nat, fade_nanos as nat),
    {
        let hold_timer = timer_once(hold_nanos);
        let fade_timer = timer_once(fade_nanos);
        Notification { title, message, hold_timer, fade_timer, phase: Phase::Queued }
    }

    /// One tick at the head of the queue. Says whether the fade ran out.
    fn step(&mut self, delta_nanos: u64) -> (expired: bool)
        requires
            old(self).wf(),
            !old(self).spent(),
        ensures
            final(self).wf(),
            final(self)@ == old(self)@.advance(delta_nanos as nat),
            expired == old(self)@.expires(delta_nanos as nat),
            expired == final(self).spent(),
    {
        match self.phase {
            Phase::Queued => {
                self.phase = Phase::Holding;
                false
            },
            Phase::Holding => {
                timer_tick(&mut self.hold_timer, delta_nanos);
                if timer_is_finished(&self.hold_timer) {
                    self.phase = Phase::Fading;
                }
                false
            },
            Phase::Fading => {
                timer_tick(&mut self.fade_timer, delta_nanos);
                timer_is_finished(&self.fade_timer)
            },
        }
    }

    pub fn title(&self) -> (title: &String)
        ensures
            title@ == self@.title,
    {
        &self.title
    }

    pub fn message(&self) -> (message: &String)
        ensures
            message@ == self@.message,
    {
        &self.message
    }

    pub fn phase(&self) -> (phase: Phase)
        ensures
            phase == self@.phase,
    {
        self.phase
    }

    /// How much of the notification is still to be seen: one until it
    /// fades, then the part of the fade that is left.
    pub fn fade_fraction(&self) -> (f: Fraction)
        requires
            self.wf(),
        ensures
            f.wf(),
            f.numerator == self@.remaining(),
            f.denominator == self@.span(),
    {
        match self.phase {
            Phase::Fading => {
                let total = timer_duration_nanos(&self.fade_timer);
                let done = timer_elapsed_nanos(&self.fade_timer);
                if total == 0 {
                    Fraction { numerator: 0, denominator: 1 }
                } else {
                    Fraction { numerator: (total - done) as u64, denominator: total as u64 }
                }
            },
            _ => Fraction { numerator: 1, denominator: 1 },
        }
    }
}

/// At most the head has started: every notification behind it waits,
/// untouched.
pub open spec fn queue_valid(q: Seq<NotificationView>) -> bool {
    &&& forall|i: int| 0 <= i < q.len() ==> (#[trigger] q[i]).valid()
    &&& forall|i: int| 1 <= i < q.len() ==> (#[trigger] q[i]).phase == Phase::Queued
}

/// The queue after one tick of `delta`: the head advances, or leaves when
/// its fade runs out; nothing behind it changes.
pub open spec fn tick_spec(q: Seq<NotificationView>, delta: nat) -> Seq<NotificationView> {
    if q.len() == 0 {
        q
    } else if q[0].expires(delta) {
        q.drop_first()
    } else {
        q.update(0, q[0].advance(delta))
    }
}

/// The queue once it has taken in `notices`, in their order, as waiting
/// notifications with the given durations.
pub open spec fn enqueue_all_spec(
    q: Seq<NotificationView>,
    notices: Seq<NoticeView>,
    hold_duration: nat,
    fade_duration: nat,
) -> Seq<NotificationView> {
    q + notices.map_values(
        |notice: NoticeView|
            NotificationView::queued(notice.title, notice.message, hold_duration, fade_duration),
    )
}

/// Notifications in the order they came, the head first.
#[derive(Debug)]
pub struct NotificationQueue {
    items: Vec<Notification>,
    hold_nanos: u64,
    fade_nanos: u64,
}

impl View for NotificationQueue {
    type V = Seq<NotificationView>;

    closed spec fn view(&self) -> Seq<NotificationView> {
        self.items@.map_values(|n: Notification| n@)
    }
}

impl NotificationQueue {
    /// How long a notification made by `enqueue` holds.
    pub closed spec fn hold_duration(&self) -> u64 {
        self.hold_nanos
    }

    /// How long a notification made by `enqueue` fades.
    pub closed spec fn fade_duration(&self) -> u64 {
        self.fade_nanos
    }

    /// Every notification's timers fit its phase, and none has run out.
    pub closed spec fn timers_fit(&self) -> bool {
        forall|i: int|
            0 <= i < self.items@.len() ==> (#[trigger] self.items@[i]).timers_fit()
                && !self.items@[i].spent()
    }

    /// The queue is sound.
    pub open spec fn wf(&self) -> bool {
        self.timers_fit() && queue_valid(self@)
    }

    /// An empty queue whose notifications hold and fade for the default
    /// time.
    pub fn new() -> (q: NotificationQueue)
        ensures
            q.wf(),
            q@.len() == 0,
            q.hold_duration() == DEFAULT_HOLD_NANOS,
            q.fade_duration() == DEFAULT_HOLD_NANOS,
    {
        NotificationQueue {
            items: Vec::new(),
            hold_nanos: DEFAULT_HOLD_NANOS,
            fade_nanos: DEFAULT_HOLD_NANOS,
        }
    }

    /// An empty queue whose notifications hold for `hold_nanos` and fade
    /// for `fade_nanos`.
    pub fn with_durations(hold_nanos: u64, fade_nanos: u64) -> (q: NotificationQueue)
        ensures
            q.wf(),
            q@.len() == 0,
            q.hold_duration() == hold_nanos,
            q.fade_duration() == fade_nanos,
    {
        NotificationQueue { items: Vec::new(), hold_nanos, fade_nanos }
    }

    pub fn len(&self) -> (n: usize)
        ensures
            n == self@.len(),
    {
        self.items.len()
    }

    pub fn is_empty(&self) -> (empty: bool)
        ensures
            empty == (self@.len() == 0),
    {
        self.items.len() == 0
    }

    /// Puts a new notification at the back, waiting.
    pub fn enqueue(&mut self, title: String, message: String)
        requires
            old(self).wf(),
        ensures
            final(self).wf(),
            final(self).hold_duration() == old(self).hold_duration(),
            final(self).fade_duration() == old(self).fade_duration(),
            final(self)@ == old(self)@.push(
                NotificationView::queued(
                    title@,
                    message@,
                    old(self).hold_duration() as nat,
                    old(self).fade_duration() as nat,
                ),
            ),
    {
        let n = Notification::queued(title, message, self.hold_nanos, self.fade_nanos);
        self.items.push(n);
        assert(self@ =~= old(self)@.push(n@));
    }

    /// Puts a notification at the back for each request, in their order.
    pub fn enqueue_all(&mut self, requests: &Vec<NotificationRequest>)
        requires
            old(self).wf(),
        ensures
            final(self).wf(),
            final(self).hold_duration() == old(self).hold_duration(),
            final(self).fade_duration() == old(self).fade_duration(),
            final(self)@ == enqueue_all_spec(
                old(self)@,
                requests@.map_values(|r: NotificationRequest| r@),
                old(self).hold_duration() as nat,
                old(self).fade_duration() as nat,
            ),
    {
        let ghost notices = requests@.map_values(|r: NotificationRequest| r@);
        let ghost hold = self.hold_nanos as nat;
        let ghost fade = self.fade_nanos as nat;
        let mut i: usize = 0;
        while i < requests.len()
            invariant
                i <= requests@.len(),
                self.wf(),
                self.hold_duration() == old(self).hold_duration(),
                self.fade_duration() == old(self).fade_duration(),
                hold == old(self).hold_duration(),
                fade == old(self).fade_duration(),
                notices == requests@.map_values(|r: NotificationRequest| r@),
                self@ == enqueue_all_spec(old(self)@, notices.take(i as int), hold, fade),
            decreases requests@.len() - i,
        {
            let request = &requests[i];
            self.enqueue(request.title.clone(), request.message.clone());
            assert(self@ =~= enqueue_all_spec(old(self)@, notices.take(i + 1), hold, fade));
            i += 1;
        }
        assert(notices.take(i as int) == notices);
    }

    /// The notification on screen and how much of it is still to be seen,
    /// or nothing when the queue is empty.
    pub fn current(&self) -> (shown: Option<(&Notification, Fraction)>)
        requires
            self.wf(),
        ensures
            shown is None <==> self@.len() == 0,
            shown matches Some((n, f)) ==> {
                &&& n@ == self@[0]
                &&& n.wf()
                &&& f.wf()
                &&& f.numerator == self@[0].remaining()
                &&& f.denominator == self@[0].span()
            },
    {
        if self.items.len() == 0 {
            None
        } else {
            let head = &self.items[0];
            assert(head@ == self@[0]);
            Some((head, head.fade_fraction()))
        }
    }

    /// Lets `delta_nanos` pass. Only the head counts it. A head whose fade
    /// runs out leaves the queue and is handed back, its fraction at zero.
    pub fn tick(&mut self, delta_nanos: u64) -> (removed: Option<Notification>)
        requires
            old(self).wf(),
        ensures
            final(self).wf(),
            final(self).hold_duration() == old(self).hold_duration(),
            final(self).fade_duration() == old(self).fade_duration(),
            final(self)@ == tick_spec(old(self)@, delta_nanos as nat),
            removed is Some <==> old(self)@.len() > 0 && old(self)@[0].expires(delta_nanos as nat),
            removed matches Some(n) ==> n.wf() && n@ == old(self)@[0].advance(delta_nanos as nat),
    {
        if self.items.len() == 0 {
            return None;
        }
        let expired = self.items[0].step(delta_nanos);
        if expired {
            let gone = self.items.remove(0);
            assert(self@ =~= old(self)@.drop_first());
            Some(gone)
        } else {
            assert(self@ =~= old(self)@.update(0, old(self)@[0].advance(delta_nanos as nat)));
            None
        }
    }
}

/// While a notification fades, a tick never raises its fade fraction: the
/// length of the fade stays and the time left does not grow. The tick that
/// ends the fade leaves exactly nothing.
pub proof fn lemma_fade_never_rises(v: NotificationView, delta: nat)
    requires
        v.valid(),
        v.phase == Phase::Fading,
    ensures
        v.advance(delta).valid(),
        v.advance(delta).phase == Phase::Fading,
        v.advance(delta).span() == v.span(),
        v.advance(delta).remaining() <= v.remaining(),
        v.advance(delta).remaining() * v.span() <= v.remaining() * v.advance(delta).span(),
        v.expires(delta) ==> v.advance(delta).remaining() == 0,
{
    let after = v.advance(delta);
    assert(after.remaining() * v.span() <= v.remaining() * v.span()) by (nonlinear_arith)
        requires
            after.remaining() <= v.remaining(),
    ;
}

/// Until it fades a notification is shown whole, and its fraction is never
/// more than one.
pub proof fn lemma_fraction_at_most_one(v: NotificationView)
    requires
        v.valid(),
    ensures
        0 < v.span(),
        v.remaining() <= v.span(),
        v.phase != Phase::Fading ==> v.remaining() == v.span(),
{
}

/// A tick moves the head and nothing else. Time passes for one
/// notification at most: those behind the head come out of the tick as they
/// went in, still waiting, and the queue stays sound.
pub proof fn lemma_tick_moves_head_only(q: Seq<NotificationView>, delta: nat)
    requires
        queue_valid(q),
    ensures
        queue_valid(tick_spec(q, delta)),
        q.len() > 0 && q[0].expires(delta) ==> tick_spec(q, delta) == q.drop_first(),
        q.len() > 0 && !q[0].expires(delta) ==> tick_spec(q, delta).len() == q.len() && tick_spec(
            q,
            delta,
        )[0] == q[0].advance(delta),
        q.len() > 0 && !q[0].expires(delta) ==> forall|i: int|
            1 <= i < q.len() ==> #[trigger] tick_spec(q, delta)[i] == q[i],
        forall|i: int, j: int|
            0 <= i < j < q.len() ==> (#[trigger] q[i]).phase == Phase::Queued || (#[trigger] q[j]).phase
                == Phase::Queued,
{
    if q.len() > 0 && q[0].expires(delta) {
        // What was behind the head has moved up by one.
        let after = q.drop_first();
        assert forall|i: int| 0 <= i < after.len() implies (#[trigger] after[i]).valid() && (i >= 1
            ==> after[i].phase == Phase::Queued) by {
            assert(after[i] == q[i + 1]);
        }
    } else if q.len() > 0 {
        assert(q[0].valid());
    }
}

/// Something done to the queue.
pub enum QueueOp {
    /// A notification is put at the back.
    Enqueue { title: Seq<char>, message: Seq<char> },
    /// Time passes.
    Tick { delta: nat },
}

/// The queue after one operation, for a queue that gives its notifications
/// the two durations.
pub open spec fn after_op(
    q: Seq<NotificationView>,
    op: QueueOp,
    hold_duration: nat,
    fade_duration: nat,
) -> Seq<NotificationView> {
    match op {
        QueueOp::Enqueue { title, message } => q.push(
            NotificationView::queued(title, message, hold_duration, fade_duration),
        ),
        QueueOp::Tick { delta } => tick_spec(q, delta),
    }
}

/// The queue after a run of operations.
pub open spec fn after_ops(
    q: Seq<NotificationView>,
    ops: Seq<QueueOp>,
    hold_duration: nat,
    fade_duration: nat,
) -> Seq<NotificationView>
    decreases ops.len(),
{
    if ops.len() == 0 {
        q
    } else {
        after_op(
            after_ops(q, ops.drop_last(), hold_duration, fade_duration),
            ops.last(),
            hold_duration,
            fade_duration,
        )
    }
}

/// What the screen is given never grows fainter and then stronger again:
/// while the head fades, any operation on the queue either ends its fade
/// and removes it, or leaves it at the head with the same length of fade
/// and no more of it left than before.
pub proof fn lemma_shown_fade_never_rises(
    q: Seq<NotificationView>,
    op: QueueOp,
    hold_duration: nat,
    fade_duration: nat,
)
    requires
        queue_valid(q),
        q.len() > 0,
        q[0].phase == Phase::Fading,
    ensures
        ({
            let after = after_op(q, op, hold_duration, fade_duration);
            match op {
                QueueOp::Tick { delta } if q[0].expires(delta) => {
                    &&& after == q.drop_first()
                    &&& q[0].advance(delta).remaining() == 0
                },
                _ => {
                    &&& after.len() > 0
                    &&& after[0].phase == Phase::Fading
                    &&& after[0].span() == q[0].span()
                    &&& after[0].remaining() <= q[0].remaining()
                },
            }
        }),
{
    assert(q[0].valid());
    match op {
        QueueOp::Enqueue { title, message } => {},
        QueueOp::Tick { delta } => {
            lemma_fade_never_rises(q[0], delta);
        },
    }
}

/// The queue is sound in every state it can reach: whatever is enqueued and
/// however time passes, at most the head has started.
pub proof fn lemma_queue_stays_valid(
    q: Seq<NotificationView>,
    ops: Seq<QueueOp>,
    hold_duration: nat,
    fade_duration: nat,
)
    requires
        queue_valid(q),
        hold_duration <= u64::MAX,
        fade_duration <= u64::MAX,
    ensures
        queue_valid(after_ops(q, ops, hold_duration, fade_duration)),
    decreases ops.len(),
{
    if ops.len() > 0 {
        lemma_queue_stays_valid(q, ops.drop_last(), hold_duration, fade_duration);
        let before = after_ops(q, ops.drop_last(), hold_duration, fade_duration);
        match ops.last() {
            QueueOp::Enqueue { title, message } => {},
            QueueOp::Tick { delta } => {
                lemma_tick_moves_head_only(before, delta);
            },
        }
    }
}

/// What each notification of a queue says, in the queue's order.
pub open spec fn notices_of(q: Seq<NotificationView>) -> Seq<NoticeView> {
    q.map_values(|v: NotificationView| NoticeView { title: v.title, message: v.message })
}

/// What a run of operations enqueued, in order.
pub open spec fn arrivals(ops: Seq<QueueOp>) -> Seq<NoticeView>
    decreases ops.len(),
{
    if ops.len() == 0 {
        Seq::empty()
    } else {
        match ops.last() {
            QueueOp::Enqueue { title, message } => arrivals(ops.drop_last()).push(
                NoticeView { title, message },
            ),
            QueueOp::Tick { .. } => arrivals(ops.drop_last()),
        }
    }
}

/// What left the queue in a run of operations, having been shown to the
/// end, in order.
pub open spec fn departures(
    q: Seq<NotificationView>,
    ops: Seq<QueueOp>,
    hold_duration: nat,
    fade_duration: nat,
) -> Seq<NoticeView>
    decreases ops.len(),
{
    if ops.len() == 0 {
        Seq::empty()
    } else {
        let earlier = departures(q, ops.drop_last(), hold_duration, fade_duration);
        let before = after_ops(q, ops.drop_last(), hold_duration, fade_duration);
        match ops.last() {
            QueueOp::Tick { delta } => if before.len() > 0 && before[0].expires(delta) {
                earlier.push(NoticeView { title: before[0].title, message: before[0].message })
            } else {
                earlier
            },
            QueueOp::Enqueue { .. } => earlier,
        }
    }
}

/// First in, first out. Through any run of enqueues and ticks, the
/// notifications that have left, followed by those still in the queue, are
/// those that were in the queue at first, followed by those that came: none
/// is lost, none overtakes another, and each is at the head, and so on
/// screen, before any that came after it.
pub proof fn lemma_first_in_first_out(
    q: Seq<NotificationView>,
    ops: Seq<QueueOp>,
    hold_duration: nat,
    fade_duration: nat,
)
    ensures
        departures(q, ops, hold_duration, fade_duration) + notices_of(
            after_ops(q, ops, hold_duration, fade_duration),
        ) == notices_of(q) + arrivals(ops),
    decreases ops.len(),
{
    if ops.len() == 0 {
        assert(notices_of(q) + arrivals(ops) =~= notices_of(q));
    } else {
        let earlier = ops.drop_last();
        lemma_first_in_first_out(q, earlier, hold_duration, fade_duration);
        let left_before = departures(q, earlier, hold_duration, fade_duration);
        let before = after_ops(q, earlier, hold_duration, fade_duration);
        let now = after_ops(q, ops, hold_duration, fade_duration);
        match ops.last() {
            QueueOp::Enqueue { title, message } => {
                // One more at the back of both sides.
                let notice = NoticeView { title, message };
                assert(notices_of(now) =~= notices_of(before).push(notice));
                assert(left_before + notices_of(now) =~= (left_before + notices_of(before)).push(
                    notice,
                ));
                assert(notices_of(q) + arrivals(ops) =~= (notices_of(q) + arrivals(earlier)).push(
                    notice,
                ));
            },
            QueueOp::Tick { delta } => {
                if before.len() > 0 && before[0].expires(delta) {
                    // The head crosses from the queue to those that have left.
                    let gone = notices_of(before)[0];
                    assert(notices_of(before) =~= seq![gone] + notices_of(now));
                    assert(left_before.push(gone) + notices_of(now) =~= left_before + notices_of(
                        before,
                    ));
                } else {
                    // The head may have changed, but not what it says.
                    assert(notices_of(now) =~= notices_of(before));
                }
            },
        }
    }
}

} // verus!
