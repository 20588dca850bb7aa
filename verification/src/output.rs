//! Port types: user-facing handles wrapping a broadcaster.
//!
//! An [`Output`] port broadcasts fire-and-forget events to all connected
//! model inputs and event sinks.  A [`Requestor`] port broadcasts queries to
//! all connected repliers and collects their replies in connection order.
//! A [`UniRequestor`] port is bound to exactly one replier and is the only
//! port where "no reply" (a filtered query) is an ordinary outcome.
//!
//! Each fan-out port keeps its connection list in a [`SyncCell`]: `connect*`
//! calls check out the committed list, append a sender and commit it back,
//! while `send` takes a synchronized private copy, so a broadcast always
//! sees every connection committed before it, and a connect followed by a
//! send in the same call sequence always sees its own connect.

use vstd::prelude::*;

use crate::broadcaster::{
    event_broadcast_spec, query_broadcast_spec, EventBroadcaster, QueryBroadcaster,
};
use crate::handlers::Handlers;
use crate::registry::{Address, Registry, SinkId};
use crate::sender::{apply_query_sender, DeliveryError, EventSender, QuerySender};
use crate::sync_cell::SyncCell;

verus! {

/// An output port: broadcasts events to all connected input ports and sinks.
pub struct Output {
    broadcaster: SyncCell<EventBroadcaster>,
}

impl View for Output {
    type V = Seq<EventSender>;

    closed spec fn view(&self) -> Seq<EventSender> {
        self.broadcaster.committed()@
    }
}

impl Default for Output {
    /// A disconnected `Output` port.
    fn default() -> (r: Self)
        ensures
            r@ == Seq::<EventSender>::empty(),
    {
        Output { broadcaster: SyncCell::new(EventBroadcaster::default()) }
    }
}

impl Output {
    /// Creates a disconnected `Output` port.
    pub fn new() -> (r: Output)
        ensures
            r@ == Seq::<EventSender>::empty(),
    {
        Self::default()
    }

    /// Checks the committed connection list out of the cell, appends a
    /// sender and commits it back.
    fn add_sender(&mut self, sender: EventSender)
        ensures
            final(self)@ == old(self)@.push(sender),
    {
        let mut b = self.broadcaster.checkout();
        b.add(sender);
        self.broadcaster.commit(b);
    }

    /// Adds a connection to the input `input` of the model at `address`.
    pub fn connect(&mut self, input: u64, address: Address)
        ensures
            final(self)@ == old(self)@.push(EventSender::Input { input, address }),
    {
        self.add_sender(EventSender::Input { input, address });
    }

    /// Adds a connection to the event sink `sink`.
    pub fn connect_sink(&mut self, sink: SinkId)
        ensures
            final(self)@ == old(self)@.push(EventSender::Sink { sink }),
    {
        self.add_sender(EventSender::Sink { sink });
    }

    /// Adds an auto-converting connection to a model input: events are
    /// mapped through the mapping function `map` before delivery.
    pub fn map_connect(&mut self, map: u64, input: u64, address: Address)
        ensures
            final(self)@ == old(self)@.push(EventSender::MapInput { map, input, address }),
    {
        self.add_sender(EventSender::MapInput { map, input, address });
    }

    /// Adds an auto-converting connection to an event sink: events are
    /// mapped through the mapping function `map` before delivery.
    pub fn map_connect_sink(&mut self, map: u64, sink: SinkId)
        ensures
            final(self)@ == old(self)@.push(EventSender::MapSink { map, sink }),
    {
        self.add_sender(EventSender::MapSink { map, sink });
    }

    /// Adds an auto-converting, filtered connection to a model input:
    /// events are mapped through the filter-mapping function `filter_map`,
    /// or ignored when it discards them.
    pub fn filter_map_connect(&mut self, filter_map: u64, input: u64, address: Address)
        ensures
            final(self)@ == old(self)@.push(
                EventSender::FilterMapInput { filter_map, input, address },
            ),
    {
        self.add_sender(EventSender::FilterMapInput { filter_map, input, address });
    }

    /// Adds an auto-converting, filtered connection to an event sink:
    /// events are mapped through the filter-mapping function `filter_map`,
    /// or ignored when it discards them.
    pub fn filter_map_connect_sink(&mut self, filter_map: u64, sink: SinkId)
        ensures
            final(self)@ == old(self)@.push(EventSender::FilterMapSink { filter_map, sink }),
    {
        self.add_sender(EventSender::FilterMapSink { filter_map, sink });
    }

    /// The number of connected ports.
    pub fn connected_count(&self) -> (n: usize)
        ensures
            n == self@.len(),
    {
        self.broadcaster.checkout().len()
    }

    /// Broadcasts an event to all connected input ports and sinks.  The
    /// call returns only once every connected sender's delivery has been
    /// applied, in connection order; a delivery failure is reported only
    /// after every delivery has been attempted, and partial delivery is not
    /// rolled back.
    pub fn send<H: Handlers>(&mut self, h: &H, reg: &mut Registry, arg: u64) -> (r: Result<
        (),
        DeliveryError,
    >)
        ensures
            final(self)@ == old(self)@,
            ({
                let (m, ok) = event_broadcast_spec(*h, old(self)@, old(reg)@, arg);
                &&& final(reg)@ == m
                &&& r == (if ok {
                    Ok::<(), DeliveryError>(())
                } else {
                    Err::<(), DeliveryError>(DeliveryError)
                })
            }),
    {
        let b = self.broadcaster.read();
        b.broadcast(h, reg, arg)
    }
}

/// A requestor port: broadcasts queries to all connected replier ports and
/// collects their replies.
pub struct Requestor {
    broadcaster: SyncCell<QueryBroadcaster>,
}

impl View for Requestor {
    type V = Seq<QuerySender>;

    closed spec fn view(&self) -> Seq<QuerySender> {
        self.broadcaster.committed()@
    }
}

impl Default for Requestor {
    /// A disconnected `Requestor` port.
    fn default() -> (r: Self)
        ensures
            r@ == Seq::<QuerySender>::empty(),
    {
        Requestor { broadcaster: SyncCell::new(QueryBroadcaster::default()) }
    }
}

impl Requestor {
    /// Creates a disconnected `Requestor` port.
    pub fn new() -> (r: Requestor)
        ensures
            r@ == Seq::<QuerySender>::empty(),
    {
        Self::default()
    }

    /// Checks the committed connection list out of the cell, appends a
    /// sender and commits it back.
    fn add_sender(&mut self, sender: QuerySender)
        ensures
            final(self)@ == old(self)@.push(sender),
    {
        let mut b = self.broadcaster.checkout();
        b.add(sender);
        self.broadcaster.commit(b);
    }

    /// Adds a connection to the replier `replier` of the model at `address`.
    pub fn connect(&mut self, replier: u64, address: Address)
        ensures
            final(self)@ == old(self)@.push(QuerySender::Replier { replier, address }),
    {
        self.add_sender(QuerySender::Replier { replier, address });
    }

    /// Adds an auto-converting connection to a replier: queries are mapped
    /// through `query_map` before delivery and replies through `reply_map`
    /// after.
    pub fn map_connect(&mut self, query_map: u64, reply_map: u64, replier: u64, address: Address)
        ensures
            final(self)@ == old(self)@.push(
                QuerySender::MapReplier { query_map, reply_map, replier, address },
            ),
    {
        self.add_sender(QuerySender::MapReplier { query_map, reply_map, replier, address });
    }

    /// Adds an auto-converting, filtered connection to a replier: queries
    /// are mapped through the filter-mapping function `query_filter_map`,
    /// or ignored when it discards them; replies are mapped through
    /// `reply_map`.
    pub fn filter_map_connect(
        &mut self,
        query_filter_map: u64,
        reply_map: u64,
        replier: u64,
        address: Address,
    )
        ensures
            final(self)@ == old(self)@.push(
                QuerySender::FilterMapReplier { query_filter_map, reply_map, replier, address },
            ),
    {
        self.add_sender(
            QuerySender::FilterMapReplier { query_filter_map, reply_map, replier, address },
        );
    }

    /// The number of connected ports.
    pub fn connected_count(&self) -> (n: usize)
        ensures
            n == self@.len(),
    {
        self.broadcaster.checkout().len()
    }

    /// Broadcasts a query to all connected replier ports and returns the
    /// replies, one per sender whose filter kept the query, in connection
    /// order.  Every delivery is attempted before a failure is reported.
    pub fn send<H: Handlers>(&mut self, h: &H, reg: &mut Registry, arg: u64) -> (r: Result<
        Vec<u64>,
        DeliveryError,
    >)
        ensures
            final(self)@ == old(self)@,
            ({
                let (m, rs, ok) = query_broadcast_spec(*h, old(self)@, old(reg)@, arg);
                &&& final(reg)@ == m
                &&& ok ==> (r matches Ok(rv) && rv@ == rs)
                &&& !ok ==> r matches Err(DeliveryError)
            }),
    {
        let b = self.broadcaster.read();
        b.broadcast(h, reg, arg)
    }
}

/// A requestor port with exactly one connection.
#[derive(Clone, Copy)]
pub struct UniRequestor {
    sender: QuerySender,
}

impl View for UniRequestor {
    type V = QuerySender;

    closed spec fn view(&self) -> QuerySender {
        self.sender
    }
}

impl UniRequestor {
    /// Creates a `UniRequestor` port connected to the replier `replier` of
    /// the model at `address`.
    pub fn new(replier: u64, address: Address) -> (r: UniRequestor)
        ensures
            r@ == (QuerySender::Replier { replier, address }),
    {
        UniRequestor { sender: QuerySender::Replier { replier, address } }
    }

    /// Creates an auto-converting `UniRequestor` port: queries are mapped
    /// through `query_map` before delivery and replies through `reply_map`
    /// after.
    pub fn with_map(query_map: u64, reply_map: u64, replier: u64, address: Address) -> (r:
        UniRequestor)
        ensures
            r@ == (QuerySender::MapReplier { query_map, reply_map, replier, address }),
    {
        UniRequestor { sender: QuerySender::MapReplier { query_map, reply_map, replier, address } }
    }

    /// Creates an auto-converting, filtered `UniRequestor` port: queries
    /// are mapped through the filter-mapping function `query_filter_map`,
    /// or discarded when it returns nothing; replies are mapped through
    /// `reply_map`.
    pub fn with_filter_map(
        query_filter_map: u64,
        reply_map: u64,
        replier: u64,
        address: Address,
    ) -> (r: UniRequestor)
        ensures
            r@ == (QuerySender::FilterMapReplier {
                query_filter_map,
                reply_map,
                replier,
                address,
            }),
    {
        UniRequestor {
            sender: QuerySender::FilterMapReplier {
                query_filter_map,
                reply_map,
                replier,
                address,
            },
        }
    }

    /// Sends a query to the connected replier port.  Returns `Ok(Some(_))`
    /// with the reply when the query reached the replier, `Ok(None)` with
    /// no destination side effect when the filter discarded it, and an
    /// error when the destination no longer exists.
    pub fn send<H: Handlers>(&mut self, h: &H, reg: &mut Registry, arg: u64) -> (r: Result<
        Option<u64>,
        DeliveryError,
    >)
        ensures
            final(self)@ == old(self)@,
            ({
                let (m, rep, ok) = apply_query_sender(*h, old(self)@, old(reg)@, arg);
                &&& final(reg)@ == m
                &&& r == (if ok {
                    Ok::<Option<u64>, DeliveryError>(rep)
                } else {
                    Err::<Option<u64>, DeliveryError>(DeliveryError)
                })
            }),
    {
        self.sender.deliver(h, reg, arg)
    }
}

} // verus!
