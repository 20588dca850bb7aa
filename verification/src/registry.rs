//! Mailboxes and event sinks: the destinations that senders deliver to.
//!
//! A [`Registry`] holds one inbound FIFO [`Mailbox`] per registered model and
//! one value queue per event sink.  An [`Address`] identifies a mailbox; a
//! [`SinkId`] identifies a sink.  A mailbox can be closed, after which any
//! delivery to it fails; a delivery failure is fatal to the broadcast that
//! triggered it.

use vstd::prelude::*;

verus! {

/// An opaque, comparable, cloneable handle identifying a model's mailbox.
#[derive(Clone, Copy, PartialEq, Eq, Structural, Debug)]
pub struct Address {
    pub index: usize,
}

/// A handle identifying an event sink's value queue.
#[derive(Clone, Copy, PartialEq, Eq, Structural, Debug)]
pub struct SinkId {
    pub index: usize,
}

/// A dispatchable unit: an invocation of the input or replier handler
/// identified by `handler` with the argument `value`.
#[derive(Clone, Copy, PartialEq, Eq, Structural, Debug)]
pub struct Event {
    pub handler: u64,
    pub value: u64,
}

/// A per-model inbound queue of dispatchable units, delivered in FIFO order.
pub struct Mailbox {
    pub open: bool,
    pub queue: Vec<Event>,
}

/// Mathematical model of a [`Mailbox`].
pub struct MailboxModel {
    pub open: bool,
    pub queue: Seq<Event>,
}

impl View for Mailbox {
    type V = MailboxModel;

    open spec fn view(&self) -> MailboxModel {
        MailboxModel { open: self.open, queue: self.queue@ }
    }
}

/// Mathematical model of a [`Registry`].
pub struct RegistryModel {
    pub mailboxes: Seq<MailboxModel>,
    pub sinks: Seq<Seq<u64>>,
}

impl RegistryModel {
    /// The mailbox behind `a` exists and still accepts deliveries.
    pub open spec fn mailbox_ok(self, a: Address) -> bool {
        a.index < self.mailboxes.len() && self.mailboxes[a.index as int].open
    }

    /// The sink behind `s` exists.
    pub open spec fn sink_ok(self, s: SinkId) -> bool {
        s.index < self.sinks.len()
    }

    /// The model after appending `e` to the mailbox behind `a`.
    pub open spec fn push_mailbox(self, a: Address, e: Event) -> RegistryModel {
        RegistryModel {
            mailboxes: self.mailboxes.update(
                a.index as int,
                MailboxModel {
                    open: self.mailboxes[a.index as int].open,
                    queue: self.mailboxes[a.index as int].queue.push(e),
                },
            ),
            sinks: self.sinks,
        }
    }

    /// The model after appending `v` to the sink behind `s`.
    pub open spec fn push_sink(self, s: SinkId, v: u64) -> RegistryModel {
        RegistryModel {
            mailboxes: self.mailboxes,
            sinks: self.sinks.update(s.index as int, self.sinks[s.index as int].push(v)),
        }
    }
}

/// The set of delivery destinations of one simulation: one mailbox per
/// registered model and one value queue per event sink.
pub struct Registry {
    pub mailboxes: Vec<Mailbox>,
    pub sinks: Vec<Vec<u64>>,
}

impl View for Registry {
    type V = RegistryModel;

    open spec fn view(&self) -> RegistryModel {
        RegistryModel {
            mailboxes: self.mailboxes@.map(|i: int, mb: Mailbox| mb@),
            sinks: self.sinks@.map(|i: int, q: Vec<u64>| q@),
        }
    }
}

impl Registry {
    /// Creates a registry with no mailboxes and no sinks.
    pub fn new() -> (r: Registry)
        ensures
            r@.mailboxes == Seq::<MailboxModel>::empty(),
            r@.sinks == Seq::<Seq<u64>>::empty(),
    {
        let r = Registry { mailboxes: Vec::new(), sinks: Vec::new() };
        proof {
            assert(r@.mailboxes =~= Seq::<MailboxModel>::empty());
            assert(r@.sinks =~= Seq::<Seq<u64>>::empty());
        }
        r
    }

    /// Registers a model: opens a fresh, empty mailbox and returns its address.
    pub fn add_model(&mut self) -> (a: Address)
        ensures
            a.index == old(self)@.mailboxes.len(),
            final(self)@.mailboxes == old(self)@.mailboxes.push(
                MailboxModel { open: true, queue: Seq::<Event>::empty() },
            ),
            final(self)@.sinks == old(self)@.sinks,
    {
        let a = Address { index: self.mailboxes.len() };
        self.mailboxes.push(Mailbox { open: true, queue: Vec::new() });
        proof {
            assert(self@.mailboxes =~= old(self)@.mailboxes.push(
                MailboxModel { open: true, queue: Seq::<Event>::empty() },
            ));
        }
        a
    }

    /// Registers an event sink: opens a fresh, empty value queue and returns
    /// its handle.
    pub fn add_sink(&mut self) -> (s: SinkId)
        ensures
            s.index == old(self)@.sinks.len(),
            final(self)@.sinks == old(self)@.sinks.push(Seq::<u64>::empty()),
            final(self)@.mailboxes == old(self)@.mailboxes,
    {
        let s = SinkId { index: self.sinks.len() };
        self.sinks.push(Vec::new());
        proof {
            assert(self@.sinks =~= old(self)@.sinks.push(Seq::<u64>::empty()));
        }
        s
    }

    /// Closes the mailbox behind `a`: the model no longer exists, so every
    /// later delivery to it fails.  Already queued units are kept.
    pub fn close_mailbox(&mut self, a: Address)
        requires
            a.index < old(self)@.mailboxes.len(),
        ensures
            final(self)@.mailboxes == old(self)@.mailboxes.update(
                a.index as int,
                MailboxModel {
                    open: false,
                    queue: old(self)@.mailboxes[a.index as int].queue,
                },
            ),
            final(self)@.sinks == old(self)@.sinks,
    {
        let mb = &mut self.mailboxes[a.index];
        mb.open = false;
        proof {
            assert(self@.mailboxes =~= old(self)@.mailboxes.update(
                a.index as int,
                MailboxModel {
                    open: false,
                    queue: old(self)@.mailboxes[a.index as int].queue,
                },
            ));
        }
    }

    /// Attempts to deliver the unit `e` to the mailbox behind `a`.  Succeeds
    /// exactly when the mailbox exists and is open; a failed delivery leaves
    /// every destination unchanged.
    pub fn deliver_to_mailbox(&mut self, a: Address, e: Event) -> (ok: bool)
        ensures
            ok == old(self)@.mailbox_ok(a),
            ok ==> final(self)@ == old(self)@.push_mailbox(a, e),
            !ok ==> final(self)@ == old(self)@,
    {
        if a.index < self.mailboxes.len() {
            let mb = &mut self.mailboxes[a.index];
            if mb.open {
                mb.queue.push(e);
                proof {
                    assert(self@.mailboxes =~= old(self)@.push_mailbox(a, e).mailboxes);
                }
                true
            } else {
                proof {
                    assert(self@.mailboxes =~= old(self)@.mailboxes);
                }
                false
            }
        } else {
            false
        }
    }

    /// Attempts to deliver the value `v` to the sink behind `s`.  Succeeds
    /// exactly when the sink exists; a failed delivery leaves every
    /// destination unchanged.
    pub fn deliver_to_sink(&mut self, s: SinkId, v: u64) -> (ok: bool)
        ensures
            ok == old(self)@.sink_ok(s),
            ok ==> final(self)@ == old(self)@.push_sink(s, v),
            !ok ==> final(self)@ == old(self)@,
    {
        if s.index < self.sinks.len() {
            let q = &mut self.sinks[s.index];
            q.push(v);
            proof {
                assert(self@.sinks =~= old(self)@.push_sink(s, v).sinks);
            }
            true
        } else {
            false
        }
    }

    /// The units queued so far in the mailbox behind `a`, oldest first.
    pub fn mailbox_events(&self, a: Address) -> (r: &Vec<Event>)
        requires
            a.index < self@.mailboxes.len(),
        ensures
            r@ == self@.mailboxes[a.index as int].queue,
    {
        &self.mailboxes[a.index].queue
    }

    /// Whether the mailbox behind `a` is still open.
    pub fn mailbox_open(&self, a: Address) -> (r: bool)
        requires
            a.index < self@.mailboxes.len(),
        ensures
            r == self@.mailboxes[a.index as int].open,
    {
        self.mailboxes[a.index].open
    }

    /// The values delivered so far to the sink behind `s`, oldest first.
    pub fn sink_values(&self, s: SinkId) -> (r: &Vec<u64>)
        requires
            s.index < self@.sinks.len(),
        ensures
            r@ == self@.sinks[s.index as int],
    {
        &self.sinks[s.index]
    }
}

} // verus!
