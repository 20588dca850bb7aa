use nexosim::handlers::BasicHandlers;
use nexosim::output::Output;
use nexosim::registry::{Event, Registry};
use nexosim::scheduler::{RunOutcome, Scheduler, StepResult};

#[test]
fn empty_run_completes() {
    let mut reg = Registry::new();
    let mut sched = Scheduler::new();
    assert_eq!(sched.step_unbounded(&mut reg), RunOutcome::Completed);
    assert_eq!(sched.time(), 0);
}

#[test]
fn dispatch_follows_virtual_time() {
    let mut reg = Registry::new();
    let a = reg.add_model();
    let mut sched = Scheduler::new();

    sched.schedule_event(10, a, Event { handler: 1, value: 100 });
    sched.schedule_event(3, a, Event { handler: 1, value: 200 });

    assert_eq!(sched.step_unbounded(&mut reg), RunOutcome::Completed);
    assert_eq!(sched.time(), 10);
    let values: Vec<u64> = reg.mailbox_events(a).iter().map(|e| e.value).collect();
    assert_eq!(values, vec![200, 100]);
}

#[test]
fn equal_time_entries_dispatch_in_insertion_order() {
    let mut reg = Registry::new();
    let a = reg.add_model();
    let mut sched = Scheduler::new();

    // Two one-shot events at the same virtual time, from two call sites in
    // a deterministic order.
    sched.schedule_event(5, a, Event { handler: 1, value: 10 });
    sched.schedule_event(5, a, Event { handler: 2, value: 20 });

    assert_eq!(sched.step_unbounded(&mut reg), RunOutcome::Completed);
    assert_eq!(sched.time(), 5);
    let units: Vec<(u64, u64)> = reg
        .mailbox_events(a)
        .iter()
        .map(|e| (e.handler, e.value))
        .collect();
    assert_eq!(units, vec![(1, 10), (2, 20)]);
}

#[test]
fn periodic_event_reschedules_itself() {
    let mut reg = Registry::new();
    let a = reg.add_model();
    let mut sched = Scheduler::new();

    sched.schedule_periodic_event(1, 2, a, Event { handler: 1, value: 5 });
    assert_eq!(sched.step(&mut reg), StepResult::Dispatched);
    assert_eq!(sched.time(), 1);
    assert_eq!(sched.step(&mut reg), StepResult::Dispatched);
    assert_eq!(sched.time(), 3);
    assert_eq!(sched.step(&mut reg), StepResult::Dispatched);
    assert_eq!(sched.time(), 5);
    assert_eq!(reg.mailbox_events(a).len(), 3);
}

#[test]
fn halt_and_resume() {
    let mut reg = Registry::new();
    let a = reg.add_model();
    let mut sched = Scheduler::new();

    // A periodic event with period 100, first due at 200.
    sched.schedule_periodic_event(200, 100, a, Event { handler: 1, value: 1 });
    for _ in 0..3 {
        assert_eq!(sched.step(&mut reg), StepResult::Dispatched);
    }
    assert_eq!(sched.time(), 400);
    assert_eq!(reg.mailbox_events(a).len(), 3);

    // Halt partway through the next interval: the run stops with the
    // halted outcome, at the time of the last fully dispatched entry,
    // without dispatching the pending entry.
    sched.halt();
    assert_eq!(sched.step_unbounded(&mut reg), RunOutcome::Halted);
    assert_eq!(sched.time(), 400);
    assert_eq!(reg.mailbox_events(a).len(), 3);

    // Rebind the clock at that same virtual time: the pending entry's
    // virtual time is untouched, so its wall-clock deadline lies exactly
    // one interval after the new origin — it does not fire immediately.
    sched.reset_clock(5000);
    assert_eq!(sched.next_deadline(), Some(5100));

    // Resuming dispatches the pending entry exactly once, one period after
    // the halt time: nothing was lost and nothing is duplicated.
    assert_eq!(sched.step(&mut reg), StepResult::Dispatched);
    assert_eq!(sched.time(), 500);
    assert_eq!(reg.mailbox_events(a).len(), 4);
}

#[test]
fn halt_is_idempotent_and_consumed() {
    let mut reg = Registry::new();
    let a = reg.add_model();
    let mut sched = Scheduler::new();
    sched.schedule_event(1, a, Event { handler: 1, value: 1 });

    sched.halt();
    sched.halt();
    assert_eq!(sched.step_unbounded(&mut reg), RunOutcome::Halted);
    assert_eq!(reg.mailbox_events(a).len(), 0);

    // The halt request was consumed with the halted outcome: the next run
    // proceeds and delivers the untouched entry.
    assert_eq!(sched.step_unbounded(&mut reg), RunOutcome::Completed);
    assert_eq!(reg.mailbox_events(a).len(), 1);
    assert_eq!(sched.time(), 1);
}

#[test]
fn run_fails_on_vanished_mailbox() {
    let mut reg = Registry::new();
    let a = reg.add_model();
    let b = reg.add_model();
    let c = reg.add_model();
    let mut sched = Scheduler::new();

    sched.schedule_event(1, a, Event { handler: 1, value: 1 });
    sched.schedule_event(2, b, Event { handler: 1, value: 2 });
    sched.schedule_event(3, c, Event { handler: 1, value: 3 });
    reg.close_mailbox(b);

    assert_eq!(sched.step_unbounded(&mut reg), RunOutcome::Failed);
    assert_eq!(sched.time(), 2);
    assert_eq!(reg.mailbox_events(a).len(), 1);
    assert_eq!(reg.mailbox_events(b).len(), 0);
    assert_eq!(reg.mailbox_events(c).len(), 0);
}

#[test]
fn clock_rebinding_keeps_virtual_times() {
    let mut reg = Registry::new();
    let a = reg.add_model();
    let mut sched = Scheduler::new();

    sched.set_clock(1000);
    sched.schedule_event(50, a, Event { handler: 1, value: 1 });
    assert_eq!(sched.next_deadline(), Some(1050));

    // Rebinding changes only the deadline computation's origin.
    sched.reset_clock(9999);
    assert_eq!(sched.next_deadline(), Some(9999 + 50));

    assert_eq!(sched.step_unbounded(&mut reg), RunOutcome::Completed);
    assert_eq!(sched.time(), 50);
    // No pending entries: no deadline.
    assert_eq!(sched.next_deadline(), None);
}

#[test]
fn dispatched_handlers_send_in_dispatch_order() {
    // A driver loop stands in for the model handlers: each dispatched unit
    // triggers a send on a port connected to one shared sink.  Two entries
    // at the same virtual time, scheduled in a deterministic order, reach
    // the sink in that order.
    let h = BasicHandlers;
    let mut reg = Registry::new();
    let a = reg.add_model();
    let s = reg.add_sink();
    let mut out = Output::new();
    out.connect_sink(s);

    let mut sched = Scheduler::new();
    sched.schedule_event(5, a, Event { handler: 1, value: 11 });
    sched.schedule_event(5, a, Event { handler: 1, value: 22 });
    assert_eq!(sched.step_unbounded(&mut reg), RunOutcome::Completed);

    let units: Vec<Event> = reg.mailbox_events(a).clone();
    for e in &units {
        assert!(out.send(&h, &mut reg, e.value).is_ok());
    }
    assert_eq!(reg.sink_values(s), &vec![11, 22]);
}

#[test]
fn periodic_sends_halt_and_resume_without_duplicates() {
    // A periodic entry whose handler (the driver loop below) sends to a
    // sink: one send per fully elapsed period, nothing at the halt, and
    // exactly one more send after resuming — no duplicate, no loss.
    let h = BasicHandlers;
    let mut reg = Registry::new();
    let a = reg.add_model();
    let s = reg.add_sink();
    let mut out = Output::new();
    out.connect_sink(s);

    let mut sched = Scheduler::new();
    sched.schedule_periodic_event(100, 100, a, Event { handler: 1, value: 7 });
    let mut drained: usize = 0;
    for _ in 0..2 {
        assert_eq!(sched.step(&mut reg), StepResult::Dispatched);
        let units: Vec<Event> = reg.mailbox_events(a).clone();
        for e in &units[drained..] {
            assert!(out.send(&h, &mut reg, e.value).is_ok());
        }
        drained = units.len();
    }
    assert_eq!(reg.sink_values(s), &vec![7, 7]);

    sched.halt();
    assert_eq!(sched.step_unbounded(&mut reg), RunOutcome::Halted);
    assert_eq!(sched.time(), 200);
    assert_eq!(reg.sink_values(s), &vec![7, 7]);

    // Rebound clock: the next occurrence is owed one full period after the
    // new origin, not immediately.
    sched.reset_clock(1000);
    assert_eq!(sched.next_deadline(), Some(1100));

    assert_eq!(sched.step(&mut reg), StepResult::Dispatched);
    let units: Vec<Event> = reg.mailbox_events(a).clone();
    for e in &units[drained..] {
        assert!(out.send(&h, &mut reg, e.value).is_ok());
    }
    assert_eq!(reg.sink_values(s), &vec![7, 7, 7]);
}

#[test]
fn no_deadline_without_clock_binding() {
    let mut reg = Registry::new();
    let a = reg.add_model();
    let mut sched = Scheduler::new();
    sched.schedule_event(5, a, Event { handler: 1, value: 1 });
    assert_eq!(sched.next_deadline(), None);
    assert_eq!(sched.step_unbounded(&mut reg), RunOutcome::Completed);
}
