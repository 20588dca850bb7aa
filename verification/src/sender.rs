//! Senders: bound delivery capabilities.
//!
//! A sender represents one outbound connection from a port to one consumer.
//! An [`EventSender`] delivers fire-and-forget events to a model input or to
//! an event sink; a [`QuerySender`] delivers a query to a replier and yields
//! the reply.  Each variant composes an optional mapping or filter-mapping
//! (selected by a [`Handlers`] function id) before delivering.  A filtered
//! delivery whose filter discards the value has no observable side effect;
//! a delivery whose destination no longer exists fails, which is fatal to
//! the broadcast that triggered it.

use vstd::prelude::*;

use crate::handlers::Handlers;
use crate::registry::{Address, Event, Registry, RegistryModel, SinkId};

verus! {

/// A delivery could not reach its destination: the mailbox or sink no
/// longer exists.  Fatal to the enclosing broadcast.
#[derive(Clone, Copy, PartialEq, Eq, Structural, Debug)]
pub struct DeliveryError;

/// One fire-and-forget connection from an output port to one consumer.
#[derive(Clone, Copy, PartialEq, Eq, Structural, Debug)]
pub enum EventSender {
    /// Delivers the event unchanged to input `input` of the model at `address`.
    Input { input: u64, address: Address },
    /// Delivers the event unchanged to the sink `sink`.
    Sink { sink: SinkId },
    /// Maps the event through `map`, then delivers to a model input.
    MapInput { map: u64, input: u64, address: Address },
    /// Maps the event through `map`, then delivers to a sink.
    MapSink { map: u64, sink: SinkId },
    /// Filter-maps the event through `filter_map`; if kept, delivers to a
    /// model input, otherwise does nothing.
    FilterMapInput { filter_map: u64, input: u64, address: Address },
    /// Filter-maps the event through `filter_map`; if kept, delivers to a
    /// sink, otherwise does nothing.
    FilterMapSink { filter_map: u64, sink: SinkId },
}

/// The value an event sender hands to its destination for the event `v`,
/// or `None` when its filter discards the event.
pub open spec fn event_payload<H: Handlers>(h: H, s: EventSender, v: u64) -> Option<u64> {
    match s {
        EventSender::Input { .. } => Some(v),
        EventSender::Sink { .. } => Some(v),
        EventSender::MapInput { map, .. } => Some(h.map_spec(map, v)),
        EventSender::MapSink { map, .. } => Some(h.map_spec(map, v)),
        EventSender::FilterMapInput { filter_map, .. } => h.filter_map_spec(filter_map, v),
        EventSender::FilterMapSink { filter_map, .. } => h.filter_map_spec(filter_map, v),
    }
}

/// The registry after the sender `s` delivers the event `v`, paired with
/// whether the delivery succeeded.  A discarded event changes nothing and
/// succeeds; a delivery to a vanished destination changes nothing and fails.
pub open spec fn apply_event_sender<H: Handlers>(
    h: H,
    s: EventSender,
    reg: RegistryModel,
    v: u64,
) -> (RegistryModel, bool) {
    match event_payload(h, s, v) {
        None => (reg, true),
        Some(p) => match s {
            EventSender::Input { input, address } => if reg.mailbox_ok(address) {
                (reg.push_mailbox(address, Event { handler: input, value: p }), true)
            } else {
                (reg, false)
            },
            EventSender::MapInput { input, address, .. } => if reg.mailbox_ok(address) {
                (reg.push_mailbox(address, Event { handler: input, value: p }), true)
            } else {
                (reg, false)
            },
            EventSender::FilterMapInput { input, address, .. } => if reg.mailbox_ok(address) {
                (reg.push_mailbox(address, Event { handler: input, value: p }), true)
            } else {
                (reg, false)
            },
            EventSender::Sink { sink } => if reg.sink_ok(sink) {
                (reg.push_sink(sink, p), true)
            } else {
                (reg, false)
            },
            EventSender::MapSink { sink, .. } => if reg.sink_ok(sink) {
                (reg.push_sink(sink, p), true)
            } else {
                (reg, false)
            },
            EventSender::FilterMapSink { sink, .. } => if reg.sink_ok(sink) {
                (reg.push_sink(sink, p), true)
            } else {
                (reg, false)
            },
        },
    }
}

impl EventSender {
    /// Delivers the event `v` through this sender: applies the mapping or
    /// filter, then appends the payload to the destination.  Returns whether
    /// the destination was reached (a discarded event counts as success).
    pub fn deliver<H: Handlers>(&self, h: &H, reg: &mut Registry, v: u64) -> (ok: bool)
        ensures
            ({
                let (m, k) = apply_event_sender(*h, *self, old(reg)@, v);
                final(reg)@ == m && ok == k
            }),
    {
        match self {
            EventSender::Input { input, address } => {
                reg.deliver_to_mailbox(*address, Event { handler: *input, value: v })
            }
            EventSender::Sink { sink } => reg.deliver_to_sink(*sink, v),
            EventSender::MapInput { map, input, address } => {
                let p = h.map(*map, v);
                reg.deliver_to_mailbox(*address, Event { handler: *input, value: p })
            }
            EventSender::MapSink { map, sink } => {
                let p = h.map(*map, v);
                reg.deliver_to_sink(*sink, p)
            }
            EventSender::FilterMapInput { filter_map, input, address } => {
                match h.filter_map(*filter_map, v) {
                    Some(p) => reg.deliver_to_mailbox(
                        *address,
                        Event { handler: *input, value: p },
                    ),
                    None => true,
                }
            }
            EventSender::FilterMapSink { filter_map, sink } => {
                match h.filter_map(*filter_map, v) {
                    Some(p) => reg.deliver_to_sink(*sink, p),
                    None => true,
                }
            }
        }
    }
}

/// One reply-returning connection from a request port to one replier.
#[derive(Clone, Copy, PartialEq, Eq, Structural, Debug)]
pub enum QuerySender {
    /// Delivers the query unchanged to replier `replier` at `address` and
    /// returns its reply unchanged.
    Replier { replier: u64, address: Address },
    /// Maps the query through `query_map` before delivery and the reply
    /// through `reply_map` after.
    MapReplier { query_map: u64, reply_map: u64, replier: u64, address: Address },
    /// Filter-maps the query through `query_filter_map`; a discarded query
    /// is not delivered and yields no reply.  A kept query's reply is mapped
    /// through `reply_map`.
    FilterMapReplier { query_filter_map: u64, reply_map: u64, replier: u64, address: Address },
}

/// The query a query sender hands to its replier for the value `v`, or
/// `None` when its filter discards the query.
pub open spec fn query_payload<H: Handlers>(h: H, s: QuerySender, v: u64) -> Option<u64> {
    match s {
        QuerySender::Replier { .. } => Some(v),
        QuerySender::MapReplier { query_map, .. } => Some(h.map_spec(query_map, v)),
        QuerySender::FilterMapReplier { query_filter_map, .. } => h.filter_map_spec(
            query_filter_map,
            v,
        ),
    }
}

/// The mailbox address a query sender delivers to.
pub open spec fn query_address(s: QuerySender) -> Address {
    match s {
        QuerySender::Replier { address, .. } => address,
        QuerySender::MapReplier { address, .. } => address,
        QuerySender::FilterMapReplier { address, .. } => address,
    }
}

/// The replier id a query sender targets.
pub open spec fn query_replier(s: QuerySender) -> u64 {
    match s {
        QuerySender::Replier { replier, .. } => replier,
        QuerySender::MapReplier { replier, .. } => replier,
        QuerySender::FilterMapReplier { replier, .. } => replier,
    }
}

/// The reply the sender `s` yields once the delivered query `q` has been
/// answered: the replier's answer, mapped through the sender's reply
/// mapping where it has one.
pub open spec fn query_reply<H: Handlers>(h: H, s: QuerySender, q: u64) -> u64 {
    match s {
        QuerySender::Replier { replier, .. } => h.reply_spec(replier, q),
        QuerySender::MapReplier { reply_map, replier, .. } => h.map_spec(
            reply_map,
            h.reply_spec(replier, q),
        ),
        QuerySender::FilterMapReplier { reply_map, replier, .. } => h.map_spec(
            reply_map,
            h.reply_spec(replier, q),
        ),
    }
}

/// The registry after the sender `s` delivers the query `v`, the reply it
/// yields (`None` when the filter discarded the query), and whether the
/// delivery succeeded.
pub open spec fn apply_query_sender<H: Handlers>(
    h: H,
    s: QuerySender,
    reg: RegistryModel,
    v: u64,
) -> (RegistryModel, Option<u64>, bool) {
    match query_payload(h, s, v) {
        None => (reg, None, true),
        Some(q) => if reg.mailbox_ok(query_address(s)) {
            (
                reg.push_mailbox(query_address(s), Event { handler: query_replier(s), value: q }),
                Some(query_reply(h, s, q)),
                true,
            )
        } else {
            (reg, None, false)
        },
    }
}

/// An event sender whose filter discards the event delivers nothing: the
/// destinations are untouched and the outcome is success, however often the
/// same event is sent.
pub proof fn lemma_discarded_event_is_noop<H: Handlers>(
    h: H,
    s: EventSender,
    reg: RegistryModel,
    v: u64,
)
    requires
        event_payload(h, s, v) is None,
    ensures
        apply_event_sender(h, s, reg, v) == (reg, true),
{
}

/// A query sender whose filter discards the query delivers nothing: the
/// destinations are untouched, no reply is produced, and the outcome is
/// success, however often the same query is sent.
pub proof fn lemma_discarded_query_is_noop<H: Handlers>(
    h: H,
    s: QuerySender,
    reg: RegistryModel,
    v: u64,
)
    requires
        query_payload(h, s, v) is None,
    ensures
        apply_query_sender(h, s, reg, v) == (reg, None::<u64>, true),
{
}

impl QuerySender {
    /// Delivers the query `v` through this sender and returns the reply:
    /// `Ok(Some(_))` when the query reached its replier, `Ok(None)` when the
    /// filter discarded it, `Err` when the destination no longer exists.
    pub fn deliver<H: Handlers>(&self, h: &H, reg: &mut Registry, v: u64) -> (r: Result<
        Option<u64>,
        DeliveryError,
    >)
        ensures
            ({
                let (m, rep, k) = apply_query_sender(*h, *self, old(reg)@, v);
                final(reg)@ == m && r == (if k {
                    Ok::<Option<u64>, DeliveryError>(rep)
                } else {
                    Err::<Option<u64>, DeliveryError>(DeliveryError)
                })
            }),
    {
        match self {
            QuerySender::Replier { replier, address } => {
                if reg.deliver_to_mailbox(*address, Event { handler: *replier, value: v }) {
                    Ok(Some(h.reply(*replier, v)))
                } else {
                    Err(DeliveryError)
                }
            }
            QuerySender::MapReplier { query_map, reply_map, replier, address } => {
                let q = h.map(*query_map, v);
                if reg.deliver_to_mailbox(*address, Event { handler: *replier, value: q }) {
                    let raw = h.reply(*replier, q);
                    Ok(Some(h.map(*reply_map, raw)))
                } else {
                    Err(DeliveryError)
                }
            }
            QuerySender::FilterMapReplier { query_filter_map, reply_map, replier, address } => {
                match h.filter_map(*query_filter_map, v) {
                    None => Ok(None),
                    Some(q) => {
                        if reg.deliver_to_mailbox(
                            *address,
                            Event { handler: *replier, value: q },
                        ) {
                            let raw = h.reply(*replier, q);
                            Ok(Some(h.map(*reply_map, raw)))
                        } else {
                            Err(DeliveryError)
                        }
                    }
                }
            }
        }
    }
}

} // verus!
