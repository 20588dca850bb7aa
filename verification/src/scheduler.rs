//! The virtual-time scheduler and execution engine.
//!
//! A [`Scheduler`] holds a time-ordered collection of pending
//! [`ScheduledEntry`] values, each carrying a dispatchable unit for one
//! mailbox.  Entries dispatch in order of virtual time, ties broken by
//! insertion order, which keeps execution deterministic.  The engine
//! ([`Scheduler::step`] and [`Scheduler::step_unbounded`]) pops the due
//! entry, observes the cooperative halt flag immediately before dispatch —
//! a halt leaves the entry queued, so a later run resumes without losing
//! it — delivers the unit to the target mailbox, advances virtual time to
//! the entry's time, and re-inserts periodic entries one period later.
//! A delivery to a vanished mailbox fails the run.
//!
//! An optional [`ClockBinding`] pairs a virtual-time origin with a
//! wall-clock origin; [`Scheduler::next_deadline`] computes the wall-clock
//! instant before which the next entry must not be dispatched.  Waiting for
//! that instant is the caller's part: virtual time itself advances only by
//! dispatching entries.

use vstd::prelude::*;

use crate::registry::{Address, Event, MailboxModel, Registry, RegistryModel};

verus! {

/// A pending dispatch: a unit bound for `target` at virtual time `time`,
/// with the insertion sequence number `seq` as the deterministic tie
/// breaker, re-inserted every `period` when periodic.
#[derive(Clone, Copy, PartialEq, Eq, Structural, Debug)]
pub struct ScheduledEntry {
    pub time: u64,
    pub seq: u64,
    pub target: Address,
    pub event: Event,
    pub period: Option<u64>,
}

/// A virtual-time origin paired with a wall-clock origin, for pacing.
#[derive(Clone, Copy, PartialEq, Eq, Structural, Debug)]
pub struct ClockBinding {
    pub virtual_origin: u64,
    pub wall_origin: u64,
}

/// What one dispatch step did.
#[derive(Clone, Copy, PartialEq, Eq, Structural, Debug)]
pub enum StepResult {
    /// The due entry was dispatched; the run goes on.
    Dispatched,
    /// The queue is empty; the run is complete.
    Completed,
    /// The halt flag was observed; the due entry remains queued.
    Halted,
    /// The due entry's mailbox no longer exists; the run has failed.
    Failed,
}

/// Terminal outcome of a run.
#[derive(Clone, Copy, PartialEq, Eq, Structural, Debug)]
pub enum RunOutcome {
    /// No more entries were due.
    Completed,
    /// An external halt was observed at a dispatch boundary.
    Halted,
    /// A delivery failure was escalated; the run is not resumable.
    Failed,
}

/// Mathematical model of a [`Scheduler`].
pub struct SchedulerModel {
    pub queue: Seq<ScheduledEntry>,
    pub now: u64,
    pub next_seq: u64,
    pub halted: bool,
    pub clock: Option<ClockBinding>,
}

/// Dispatch order: earlier virtual time first, insertion order among
/// entries at equal virtual time.
pub open spec fn dispatches_before(a: ScheduledEntry, b: ScheduledEntry) -> bool {
    a.time < b.time || (a.time == b.time && a.seq < b.seq)
}

/// `i` indexes the entry due next: the one that dispatches before every
/// other queued entry.
pub open spec fn is_due(q: Seq<ScheduledEntry>, i: int) -> bool {
    &&& 0 <= i < q.len()
    &&& forall|j: int| 0 <= j < q.len() && j != i ==> dispatches_before(q[i], #[trigger] q[j])
}

/// The index of the due entry (unique when one exists).
pub open spec fn due_index(q: Seq<ScheduledEntry>) -> int {
    choose|i: int| is_due(q, i)
}

/// At most one entry is due.
pub proof fn lemma_due_unique(q: Seq<ScheduledEntry>, i: int, j: int)
    requires
        is_due(q, i),
        is_due(q, j),
    ensures
        i == j,
{
    if i != j {
        assert(dispatches_before(q[i], q[j]));
        assert(dispatches_before(q[j], q[i]));
    }
}

/// Entries at equal virtual time dispatch in insertion order: an entry is
/// never due while an entry with the same virtual time and a smaller
/// insertion sequence number is still queued.
pub proof fn lemma_equal_time_fifo(q: Seq<ScheduledEntry>, i: int, j: int)
    requires
        0 <= i < q.len(),
        0 <= j < q.len(),
        i != j,
        q[i].time == q[j].time,
        q[i].seq < q[j].seq,
    ensures
        !is_due(q, j),
{
    if is_due(q, j) {
        assert(dispatches_before(q[j], q[i]));
    }
}

impl SchedulerModel {
    /// Well-formedness: queued entries never lie in the past, sequence
    /// numbers are unique and below the counter, periods are nonzero, and
    /// a bound clock's virtual origin does not exceed the current time.
    pub open spec fn wf(self) -> bool {
        &&& forall|i: int|
            0 <= i < self.queue.len() ==> (#[trigger] self.queue[i]).time >= self.now
        &&& forall|i: int|
            0 <= i < self.queue.len() ==> (#[trigger] self.queue[i]).seq < self.next_seq
        &&& forall|i: int, j: int|
            0 <= i < j < self.queue.len() ==> (#[trigger] self.queue[i]).seq != (
            #[trigger] self.queue[j]).seq
        &&& forall|i: int|
            0 <= i < self.queue.len() ==> ((#[trigger] self.queue[i]).period matches Some(p)
                ==> p >= 1)
        &&& (self.clock matches Some(c) ==> c.virtual_origin <= self.now)
    }
}

/// The scheduler, registry and step result after one dispatch step from
/// state `s` over the destinations `reg`.
pub open spec fn step_spec(s: SchedulerModel, reg: RegistryModel) -> (
    SchedulerModel,
    RegistryModel,
    StepResult,
) {
    if s.queue.len() == 0 {
        (SchedulerModel { halted: false, ..s }, reg, StepResult::Completed)
    } else if s.halted {
        (SchedulerModel { halted: false, ..s }, reg, StepResult::Halted)
    } else {
        let i = due_index(s.queue);
        let e = s.queue[i];
        let rest = s.queue.remove(i);
        if !reg.mailbox_ok(e.target) {
            (SchedulerModel { queue: rest, now: e.time, ..s }, reg, StepResult::Failed)
        } else {
            let reg2 = reg.push_mailbox(e.target, e.event);
            match e.period {
                Some(p) => if e.time + p <= u64::MAX && s.next_seq < u64::MAX {
                    (
                        SchedulerModel {
                            queue: rest.push(
                                ScheduledEntry {
                                    time: (e.time + p) as u64,
                                    seq: s.next_seq,
                                    ..e
                                },
                            ),
                            now: e.time,
                            next_seq: (s.next_seq + 1) as u64,
                            ..s
                        },
                        reg2,
                        StepResult::Dispatched,
                    )
                } else {
                    (
                        SchedulerModel { queue: rest, now: e.time, ..s },
                        reg2,
                        StepResult::Dispatched,
                    )
                },
                None => (
                    SchedulerModel { queue: rest, now: e.time, ..s },
                    reg2,
                    StepResult::Dispatched,
                ),
            }
        }
    }
}

/// Halting is observed at the next dispatch boundary without dispatching:
/// the pending queue, the current virtual time, the clock binding and every
/// destination are left exactly as they were, the halt request is consumed,
/// and the run can later resume from that very state as if the halt had
/// never been requested.
pub proof fn lemma_halt_resume(s: SchedulerModel, reg: RegistryModel)
    requires
        s.queue.len() > 0,
    ensures
        ({
            let (s2, reg2, r) = step_spec(SchedulerModel { halted: true, ..s }, reg);
            &&& r == StepResult::Halted
            &&& reg2 == reg
            &&& s2 == (SchedulerModel { halted: false, ..s })
        }),
{
}

/// Termination measure of one entry: an upper bound on the number of
/// dispatches it can still cause.  A periodic entry re-inserts itself at a
/// strictly later virtual time until the next occurrence would pass the
/// largest representable time, so the distance to that limit bounds its
/// remaining dispatches.
pub open spec fn entry_measure(e: ScheduledEntry) -> int {
    match e.period {
        None => 1,
        Some(_) => 2 + (u64::MAX - e.time),
    }
}

/// Termination measure of the pending queue: every run performs at most
/// this many dispatch steps.
pub open spec fn queue_measure(q: Seq<ScheduledEntry>) -> int
    decreases q.len(),
{
    if q.len() == 0 {
        0
    } else {
        entry_measure(q[0]) + queue_measure(q.drop_first())
    }
}

proof fn lemma_entry_measure_pos(e: ScheduledEntry)
    ensures
        entry_measure(e) >= 1,
{
}

proof fn lemma_queue_measure_nonneg(q: Seq<ScheduledEntry>)
    ensures
        queue_measure(q) >= 0,
    decreases q.len(),
{
    if q.len() > 0 {
        lemma_entry_measure_pos(q[0]);
        lemma_queue_measure_nonneg(q.drop_first());
    }
}

proof fn lemma_queue_measure_push(q: Seq<ScheduledEntry>, e: ScheduledEntry)
    ensures
        queue_measure(q.push(e)) == queue_measure(q) + entry_measure(e),
    decreases q.len(),
{
    if q.len() == 0 {
        assert(q.push(e)[0] == e);
        assert(q.push(e).drop_first() =~= Seq::<ScheduledEntry>::empty());
        assert(queue_measure(Seq::<ScheduledEntry>::empty()) == 0);
    } else {
        assert(q.push(e)[0] == q[0]);
        assert(q.push(e).drop_first() =~= q.drop_first().push(e));
        lemma_queue_measure_push(q.drop_first(), e);
    }
}

proof fn lemma_queue_measure_remove(q: Seq<ScheduledEntry>, i: int)
    requires
        0 <= i < q.len(),
    ensures
        queue_measure(q.remove(i)) == queue_measure(q) - entry_measure(q[i]),
    decreases q.len(),
{
    if i == 0 {
        assert(q.remove(0) =~= q.drop_first());
    } else {
        assert(q.remove(i)[0] == q[0]);
        assert(q.remove(i).drop_first() =~= q.drop_first().remove(i - 1));
        lemma_queue_measure_remove(q.drop_first(), i - 1);
    }
}

/// A nonempty queue with pairwise distinct sequence numbers has a due
/// entry, so `due_index` denotes it.
pub proof fn lemma_due_exists(q: Seq<ScheduledEntry>)
    requires
        q.len() > 0,
        forall|i: int, j: int|
            0 <= i < j < q.len() ==> (#[trigger] q[i]).seq != (#[trigger] q[j]).seq,
    ensures
        is_due(q, due_index(q)),
    decreases q.len(),
{
    if q.len() == 1 {
        assert(is_due(q, 0));
    } else {
        let q0 = q.drop_last();
        let l = q.len() - 1;
        assert forall|i: int, j: int| 0 <= i < j < q0.len() implies (#[trigger] q0[i]).seq != (
        #[trigger] q0[j]).seq by {
            assert(q0[i] == q[i]);
            assert(q0[j] == q[j]);
        }
        lemma_due_exists(q0);
        let i0 = due_index(q0);
        assert(q0[i0] == q[i0]);
        if dispatches_before(q[i0], q[l]) {
            assert forall|j: int| 0 <= j < q.len() && j != i0 implies dispatches_before(
                q[i0],
                #[trigger] q[j],
            ) by {
                if j != l {
                    assert(q0[j] == q[j]);
                    assert(dispatches_before(q0[i0], q0[j]));
                }
            }
            assert(is_due(q, i0));
        } else {
            assert(q[i0].seq != q[l].seq);
            assert(dispatches_before(q[l], q[i0]));
            assert forall|j: int| 0 <= j < q.len() && j != l implies dispatches_before(
                q[l],
                #[trigger] q[j],
            ) by {
                if j != i0 {
                    assert(q0[j] == q[j]);
                    assert(dispatches_before(q0[i0], q0[j]));
                }
            }
            assert(is_due(q, l));
        }
    }
}

/// One step from a well-formed state preserves well-formedness, never
/// moves virtual time backwards, and strictly shrinks the termination
/// measure whenever it dispatches.
pub proof fn lemma_step_spec_wf(s: SchedulerModel, reg: RegistryModel)
    requires
        s.wf(),
    ensures
        step_spec(s, reg).0.wf(),
        step_spec(s, reg).0.now >= s.now,
        step_spec(s, reg).2 == StepResult::Dispatched ==> queue_measure(
            step_spec(s, reg).0.queue,
        ) < queue_measure(s.queue),
{
    if s.queue.len() > 0 && !s.halted {
        lemma_due_exists(s.queue);
        let i = due_index(s.queue);
        let e = s.queue[i];
        let rest = s.queue.remove(i);
        assert(e.time >= s.now);
        assert forall|j: int| 0 <= j < rest.len() implies (#[trigger] rest[j]).time >= e.time by {
            if j < i {
                assert(rest[j] == s.queue[j]);
                assert(dispatches_before(e, s.queue[j]));
            } else {
                assert(rest[j] == s.queue[j + 1]);
                assert(dispatches_before(e, s.queue[j + 1]));
            }
        }
        assert forall|j: int| 0 <= j < rest.len() implies (#[trigger] rest[j]).seq
            < s.next_seq by {
            if j < i {
                assert(rest[j] == s.queue[j]);
            } else {
                assert(rest[j] == s.queue[j + 1]);
            }
        }
        assert forall|j: int, l: int| 0 <= j < l < rest.len() implies (
        #[trigger] rest[j]).seq != (#[trigger] rest[l]).seq by {
            let j0 = if j < i {
                j
            } else {
                j + 1
            };
            let l0 = if l < i {
                l
            } else {
                l + 1
            };
            assert(rest[j] == s.queue[j0]);
            assert(rest[l] == s.queue[l0]);
        }
        assert forall|j: int| 0 <= j < rest.len() implies ((#[trigger] rest[j]).period matches
            Some(p) ==> p >= 1) by {
            if j < i {
                assert(rest[j] == s.queue[j]);
            } else {
                assert(rest[j] == s.queue[j + 1]);
            }
        }
        lemma_queue_measure_remove(s.queue, i);
        lemma_entry_measure_pos(e);
        if reg.mailbox_ok(e.target) {
            match e.period {
                Some(p) => {
                    assert(p >= 1);
                    if e.time + p <= u64::MAX && s.next_seq < u64::MAX {
                        lemma_queue_measure_push(
                            rest,
                            ScheduledEntry { time: (e.time + p) as u64, seq: s.next_seq, ..e },
                        );
                    }
                },
                None => {},
            }
        }
    }
}

/// The terminal scheduler, destinations and outcome of a whole run from
/// `s` over `reg`: `step_spec` iterated until it no longer dispatches.
pub open spec fn run_spec(s: SchedulerModel, reg: RegistryModel) -> (
    SchedulerModel,
    RegistryModel,
    RunOutcome,
)
    decreases queue_measure(s.queue)
        when s.wf()
        via run_spec_decreases
{
    let (s2, reg2, r) = step_spec(s, reg);
    match r {
        StepResult::Dispatched => run_spec(s2, reg2),
        StepResult::Completed => (s2, reg2, RunOutcome::Completed),
        StepResult::Halted => (s2, reg2, RunOutcome::Halted),
        StepResult::Failed => (s2, reg2, RunOutcome::Failed),
    }
}

#[via_fn]
proof fn run_spec_decreases(s: SchedulerModel, reg: RegistryModel) {
    lemma_step_spec_wf(s, reg);
    lemma_queue_measure_nonneg(step_spec(s, reg).0.queue);
}

/// A run begun with a halt request pending and entries still queued stops
/// at its first dispatch boundary: nothing is dispatched, every entry
/// stays queued, the destinations and the virtual time are untouched, and
/// the consumed request leaves the state ready to resume.
pub proof fn lemma_halted_run(s: SchedulerModel, reg: RegistryModel)
    requires
        s.wf(),
        s.halted,
        s.queue.len() > 0,
    ensures
        run_spec(s, reg) == (
            SchedulerModel { halted: false, ..s },
            reg,
            RunOutcome::Halted,
        ),
{
}

/// A mailbox only ever grows during a run, keeping its delivery order, and
/// stays open or closed as it was.
pub open spec fn mailbox_extends(m1: MailboxModel, m2: MailboxModel) -> bool {
    &&& m2.open == m1.open
    &&& m1.queue.is_prefix_of(m2.queue)
}

/// The destinations after a run extend the destinations before it: no
/// delivered unit is lost or reordered, and sinks are untouched by the
/// engine.
pub open spec fn registry_extends(r1: RegistryModel, r2: RegistryModel) -> bool {
    &&& r2.mailboxes.len() == r1.mailboxes.len()
    &&& forall|a: int|
        0 <= a < r1.mailboxes.len() ==> mailbox_extends(
            r1.mailboxes[a],
            #[trigger] r2.mailboxes[a],
        )
    &&& r2.sinks == r1.sinks
}

pub proof fn lemma_registry_extends_refl(r: RegistryModel)
    ensures
        registry_extends(r, r),
{
    assert forall|a: int| 0 <= a < r.mailboxes.len() implies mailbox_extends(
        r.mailboxes[a],
        #[trigger] r.mailboxes[a],
    ) by {
        assert(r.mailboxes[a].queue.take(r.mailboxes[a].queue.len() as int) =~= r.mailboxes[
            a
        ].queue);
    }
}

pub proof fn lemma_registry_extends_trans(r1: RegistryModel, r2: RegistryModel, r3: RegistryModel)
    requires
        registry_extends(r1, r2),
        registry_extends(r2, r3),
    ensures
        registry_extends(r1, r3),
{
    assert forall|a: int| 0 <= a < r1.mailboxes.len() implies mailbox_extends(
        r1.mailboxes[a],
        #[trigger] r3.mailboxes[a],
    ) by {
        let q1 = r1.mailboxes[a].queue;
        let q2 = r2.mailboxes[a].queue;
        let q3 = r3.mailboxes[a].queue;
        assert(q2 == q3.take(q2.len() as int));
        assert(q3.take(q2.len() as int).take(q1.len() as int) =~= q3.take(q1.len() as int));
        assert(q1 =~= q3.take(q1.len() as int));
    }
}

/// One step only extends the destinations.
pub proof fn lemma_step_extends(s: SchedulerModel, reg: RegistryModel)
    ensures
        registry_extends(reg, step_spec(s, reg).1),
{
    let reg2 = step_spec(s, reg).1;
    if reg2 == reg {
        lemma_registry_extends_refl(reg);
    } else {
        let e = s.queue[due_index(s.queue)];
        assert(reg2 == reg.push_mailbox(e.target, e.event));
        assert forall|a: int| 0 <= a < reg.mailboxes.len() implies mailbox_extends(
            reg.mailboxes[a],
            #[trigger] reg2.mailboxes[a],
        ) by {
            let q = reg.mailboxes[a].queue;
            if a == e.target.index as int {
                assert(reg2.mailboxes[a].queue == q.push(e.event));
                assert(q.push(e.event).take(q.len() as int) =~= q);
            } else {
                assert(q.take(q.len() as int) =~= q);
            }
        }
    }
}

/// The time-ordered priority structure of pending dispatches, with the
/// virtual clock, the insertion counter, the cooperative halt flag and the
/// optional wall-clock binding.
pub struct Scheduler {
    queue: Vec<ScheduledEntry>,
    now: u64,
    next_seq: u64,
    halted: bool,
    clock: Option<ClockBinding>,
}

impl View for Scheduler {
    type V = SchedulerModel;

    closed spec fn view(&self) -> SchedulerModel {
        SchedulerModel {
            queue: self.queue@,
            now: self.now,
            next_seq: self.next_seq,
            halted: self.halted,
            clock: self.clock,
        }
    }
}

/// Whether `a` dispatches before `b`.
fn entry_before(a: &ScheduledEntry, b: &ScheduledEntry) -> (r: bool)
    ensures
        r == dispatches_before(*a, *b),
{
    a.time < b.time || (a.time == b.time && a.seq < b.seq)
}

impl Scheduler {
    /// Creates a scheduler at virtual time zero with nothing pending, not
    /// halted, with no clock binding.
    pub fn new() -> (r: Scheduler)
        ensures
            r@ == (SchedulerModel {
                queue: Seq::<ScheduledEntry>::empty(),
                now: 0,
                next_seq: 0,
                halted: false,
                clock: None,
            }),
            r@.wf(),
    {
        let r = Scheduler { queue: Vec::new(), now: 0, next_seq: 0, halted: false, clock: None };
        r
    }

    /// Current virtual time; meaningful between runs.
    pub fn time(&self) -> (t: u64)
        ensures
            t == self@.now,
    {
        self.now
    }

    /// Requests a cooperative halt; idempotent.  The request persists
    /// until a run consumes it: observing it at a dispatch boundary ends
    /// that run with the halted outcome, and a run that completes clears
    /// it unobserved, so every run starts with a clear flag.  In this
    /// sequential model a request made between runs stands in for the
    /// concurrent signal arriving during the next run, which it stops at
    /// its first dispatch boundary.
    pub fn halt(&mut self)
        ensures
            final(self)@ == (SchedulerModel { halted: true, ..old(self)@ }),
    {
        self.halted = true;
    }

    /// Binds virtual-to-wall pacing: pairs the current virtual time with
    /// the wall-clock origin `wall_origin`.
    pub fn set_clock(&mut self, wall_origin: u64)
        ensures
            final(self)@ == (SchedulerModel {
                clock: Some(
                    ClockBinding { virtual_origin: old(self)@.now, wall_origin },
                ),
                ..old(self)@
            }),
    {
        self.clock = Some(ClockBinding { virtual_origin: self.now, wall_origin });
    }

    /// Rebinds the pacing origin.  Already-queued virtual times are
    /// untouched; only the wall-clock deadline computation changes.  Safe
    /// to call only between runs or while halted.
    pub fn reset_clock(&mut self, wall_origin: u64)
        ensures
            final(self)@ == (SchedulerModel {
                clock: Some(
                    ClockBinding { virtual_origin: old(self)@.now, wall_origin },
                ),
                ..old(self)@
            }),
    {
        self.set_clock(wall_origin);
    }

    /// Schedules the unit `event` for `target` once, `delay` after the
    /// current virtual time.
    pub fn schedule_event(&mut self, delay: u64, target: Address, event: Event)
        requires
            old(self)@.wf(),
            old(self)@.now + delay <= u64::MAX,
            old(self)@.next_seq < u64::MAX,
        ensures
            final(self)@.wf(),
            final(self)@ == (SchedulerModel {
                queue: old(self)@.queue.push(
                    ScheduledEntry {
                        time: (old(self)@.now + delay) as u64,
                        seq: old(self)@.next_seq,
                        target,
                        event,
                        period: None,
                    },
                ),
                next_seq: (old(self)@.next_seq + 1) as u64,
                ..old(self)@
            }),
    {
        let e = ScheduledEntry {
            time: self.now + delay,
            seq: self.next_seq,
            target,
            event,
            period: None,
        };
        self.queue.push(e);
        self.next_seq = self.next_seq + 1;
    }

    /// Schedules the unit `event` for `target` every `period` of virtual
    /// time, first `delay` after the current virtual time.
    pub fn schedule_periodic_event(
        &mut self,
        delay: u64,
        period: u64,
        target: Address,
        event: Event,
    )
        requires
            old(self)@.wf(),
            period >= 1,
            old(self)@.now + delay <= u64::MAX,
            old(self)@.next_seq < u64::MAX,
        ensures
            final(self)@.wf(),
            final(self)@ == (SchedulerModel {
                queue: old(self)@.queue.push(
                    ScheduledEntry {
                        time: (old(self)@.now + delay) as u64,
                        seq: old(self)@.next_seq,
                        target,
                        event,
                        period: Some(period),
                    },
                ),
                next_seq: (old(self)@.next_seq + 1) as u64,
                ..old(self)@
            }),
    {
        let e = ScheduledEntry {
            time: self.now + delay,
            seq: self.next_seq,
            target,
            event,
            period: Some(period),
        };
        self.queue.push(e);
        self.next_seq = self.next_seq + 1;
    }

    /// Finds the index of the due entry.
    fn due_entry_index(&self) -> (i: usize)
        requires
            self@.wf(),
            self@.queue.len() > 0,
        ensures
            is_due(self@.queue, i as int),
    {
        let mut best: usize = 0;
        let mut k: usize = 1;
        while k < self.queue.len()
            invariant
                self@.wf(),
                best < k <= self.queue.len(),
                forall|j: int|
                    0 <= j < k && j != best ==> dispatches_before(
                        self@.queue[best as int],
                        #[trigger] self@.queue[j],
                    ),
            decreases self.queue.len() - k,
        {
            if entry_before(&self.queue[k], &self.queue[best]) {
                best = k;
            } else {
                proof {
                    let q = self@.queue;
                    let b = best as int;
                    let kk = k as int;
                    assert(q[b].seq != q[kk].seq);
                    assert(dispatches_before(q[b], q[kk]));
                }
            }
            k = k + 1;
        }
        best
    }

    /// One dispatch step.  Reports completion on an empty queue, clearing
    /// any unobserved halt request with the finished run; consumes an
    /// observed halt without dispatching (the due entry stays queued);
    /// otherwise pops the due entry, advances virtual time to its time,
    /// delivers its unit to the target mailbox — a vanished mailbox fails
    /// the run — and re-inserts a periodic entry one period later (unless
    /// its next occurrence is not representable).
    pub fn step(&mut self, reg: &mut Registry) -> (r: StepResult)
        requires
            old(self)@.wf(),
        ensures
            final(self)@.wf(),
            (final(self)@, final(reg)@, r) == step_spec(old(self)@, old(reg)@),
            final(self)@.now >= old(self)@.now,
            r == StepResult::Dispatched ==> queue_measure(final(self)@.queue) < queue_measure(
                old(self)@.queue,
            ),
    {
        if self.queue.len() == 0 {
            self.halted = false;
            return StepResult::Completed;
        }
        if self.halted {
            self.halted = false;
            return StepResult::Halted;
        }
        let i = self.due_entry_index();
        proof {
            lemma_due_unique(self@.queue, i as int, due_index(self@.queue));
            lemma_step_spec_wf(old(self)@, old(reg)@);
        }
        let e = self.queue[i];
        self.queue.remove(i);
        self.now = e.time;
        let delivered = reg.deliver_to_mailbox(e.target, e.event);
        if !delivered {
            return StepResult::Failed;
        }
        match e.period {
            Some(p) => {
                if e.time <= u64::MAX - p && self.next_seq < u64::MAX {
                    let e2 = ScheduledEntry {
                        time: e.time + p,
                        seq: self.next_seq,
                        target: e.target,
                        event: e.event,
                        period: e.period,
                    };
                    self.queue.push(e2);
                    self.next_seq = self.next_seq + 1;
                }
            },
            None => {},
        }
        StepResult::Dispatched
    }

    /// Drives dispatch until the queue is empty (`Completed`), a halt is
    /// observed (`Halted`, resumable from the exact stop state) or a
    /// delivery fails (`Failed`, not resumable).  The final scheduler, the
    /// final destinations and the outcome equal `run_spec` of the starting
    /// state: `step_spec` iterated to its terminal result.  Virtual time
    /// never moves backwards, and the destinations are only extended: no
    /// delivered unit is lost or reordered.
    pub fn step_unbounded(&mut self, reg: &mut Registry) -> (r: RunOutcome)
        requires
            old(self)@.wf(),
        ensures
            final(self)@.wf(),
            (final(self)@, final(reg)@, r) == run_spec(old(self)@, old(reg)@),
            final(self)@.now >= old(self)@.now,
            registry_extends(old(reg)@, final(reg)@),
    {
        proof {
            lemma_registry_extends_refl(reg@);
        }
        loop
            invariant
                self@.wf(),
                self@.now >= old(self)@.now,
                registry_extends(old(reg)@, reg@),
                run_spec(self@, reg@) == run_spec(old(self)@, old(reg)@),
            decreases queue_measure(self@.queue),
        {
            let ghost pre_s = self@;
            let ghost pre_r = reg@;
            proof {
                lemma_queue_measure_nonneg(pre_s.queue);
            }
            let outcome = self.step(reg);
            proof {
                lemma_step_extends(pre_s, pre_r);
                lemma_registry_extends_trans(old(reg)@, pre_r, reg@);
            }
            match outcome {
                StepResult::Dispatched => {
                    proof {
                        lemma_queue_measure_nonneg(self@.queue);
                        assert(run_spec(pre_s, pre_r) == run_spec(self@, reg@));
                    }
                },
                StepResult::Completed => {
                    proof {
                        assert(run_spec(pre_s, pre_r) == (self@, reg@, RunOutcome::Completed));
                    }
                    return RunOutcome::Completed;
                },
                StepResult::Halted => {
                    proof {
                        assert(run_spec(pre_s, pre_r) == (self@, reg@, RunOutcome::Halted));
                    }
                    return RunOutcome::Halted;
                },
                StepResult::Failed => {
                    proof {
                        assert(run_spec(pre_s, pre_r) == (self@, reg@, RunOutcome::Failed));
                    }
                    return RunOutcome::Failed;
                },
            }
        }
    }

    /// The wall-clock deadline of the due entry under the current clock
    /// binding: the wall origin plus the entry's virtual delay since the
    /// binding's virtual origin, saturating at the largest representable
    /// instant.  `None` without a binding or without pending entries.
    pub fn next_deadline(&self) -> (d: Option<u64>)
        requires
            self@.wf(),
        ensures
            self@.clock is None ==> d is None,
            self@.queue.len() == 0 ==> d is None,
            self@.clock matches Some(c) ==> self@.queue.len() > 0 ==> d == Some(
                deadline_spec(c, self@.queue[due_index(self@.queue)].time),
            ),
    {
        match self.clock {
            None => None,
            Some(c) => {
                if self.queue.len() == 0 {
                    return None;
                }
                let i = self.due_entry_index();
                proof {
                    lemma_due_unique(self@.queue, i as int, due_index(self@.queue));
                    assert(self@.queue[i as int].time >= self@.now);
                }
                let t = self.queue[i].time;
                let delta = t - c.virtual_origin;
                if c.wall_origin <= u64::MAX - delta {
                    Some(c.wall_origin + delta)
                } else {
                    Some(u64::MAX)
                }
            },
        }
    }
}

/// The wall-clock instant before which an entry at virtual time `t` must
/// not be dispatched under the binding `c`, saturating at the largest
/// representable instant.  Defined for entries no older than the binding's
/// virtual origin.
pub open spec fn deadline_spec(c: ClockBinding, t: u64) -> u64 {
    if c.wall_origin + (t - c.virtual_origin) <= u64::MAX {
        (c.wall_origin + (t - c.virtual_origin)) as u64
    } else {
        u64::MAX
    }
}

} // verus!
