//! Broadcasters: the fan-out managers holding a port's senders.
//!
//! A broadcaster owns an ordered, append-only collection of senders; the
//! insertion order is the broadcast order.  A broadcast attempts every
//! sender's delivery — none is skipped, even after a failure — and reports
//! the first fatal delivery failure only after all deliveries have been
//! attempted.  The query form additionally collects the replies of the
//! senders whose filter kept the query, in insertion order.

use vstd::prelude::*;

use crate::handlers::Handlers;
use crate::registry::{Registry, RegistryModel};
use crate::sender::{
    apply_event_sender, apply_query_sender, query_payload, query_reply, DeliveryError,
    EventSender, QuerySender,
};
use crate::sync_cell::Snapshot;

verus! {

/// The registry and success flag after the first `n` event senders have
/// delivered the event `v`, in insertion order.
pub open spec fn apply_event_senders<H: Handlers>(
    h: H,
    senders: Seq<EventSender>,
    reg: RegistryModel,
    v: u64,
    n: int,
) -> (RegistryModel, bool)
    decreases n,
{
    if n <= 0 {
        (reg, true)
    } else {
        let (m, ok) = apply_event_senders(h, senders, reg, v, n - 1);
        let (m2, ok2) = apply_event_sender(h, senders[n - 1], m, v);
        (m2, ok && ok2)
    }
}

/// The registry and success flag after every sender of an event broadcast
/// has delivered `v`.
pub open spec fn event_broadcast_spec<H: Handlers>(
    h: H,
    senders: Seq<EventSender>,
    reg: RegistryModel,
    v: u64,
) -> (RegistryModel, bool) {
    apply_event_senders(h, senders, reg, v, senders.len() as int)
}

/// The registry, collected replies and success flag after the first `n`
/// query senders have delivered the query `v`, in insertion order.
pub open spec fn apply_query_senders<H: Handlers>(
    h: H,
    senders: Seq<QuerySender>,
    reg: RegistryModel,
    v: u64,
    n: int,
) -> (RegistryModel, Seq<u64>, bool)
    decreases n,
{
    if n <= 0 {
        (reg, Seq::<u64>::empty(), true)
    } else {
        let (m, rs, ok) = apply_query_senders(h, senders, reg, v, n - 1);
        let (m2, rep, ok2) = apply_query_sender(h, senders[n - 1], m, v);
        (
            m2,
            match rep {
                Some(x) => rs.push(x),
                None => rs,
            },
            ok && ok2,
        )
    }
}

/// The registry, replies and success flag after every sender of a query
/// broadcast has delivered `v`.
pub open spec fn query_broadcast_spec<H: Handlers>(
    h: H,
    senders: Seq<QuerySender>,
    reg: RegistryModel,
    v: u64,
) -> (RegistryModel, Seq<u64>, bool) {
    apply_query_senders(h, senders, reg, v, senders.len() as int)
}

/// The replies owed by the first `n` query senders for the query `v`: one
/// reply per sender whose filter kept the query, in insertion order,
/// independent of the state of the destinations.
pub open spec fn expected_replies<H: Handlers>(
    h: H,
    senders: Seq<QuerySender>,
    v: u64,
    n: int,
) -> Seq<u64>
    decreases n,
{
    if n <= 0 {
        Seq::<u64>::empty()
    } else {
        let rs = expected_replies(h, senders, v, n - 1);
        match query_payload(h, senders[n - 1], v) {
            Some(q) => rs.push(query_reply(h, senders[n - 1], q)),
            None => rs,
        }
    }
}

/// How many of the first `n` query senders keep the query `v` (their filter,
/// if any, does not discard it).
pub open spec fn kept_count<H: Handlers>(h: H, senders: Seq<QuerySender>, v: u64, n: int) -> int
    decreases n,
{
    if n <= 0 {
        0
    } else {
        kept_count(h, senders, v, n - 1) + if query_payload(h, senders[n - 1], v) is Some {
            1int
        } else {
            0int
        }
    }
}

/// A successful query broadcast yields exactly the replies owed: one per
/// sender whose filter kept the query, in connection (insertion) order.
pub proof fn lemma_replies_follow_insertion_order<H: Handlers>(
    h: H,
    senders: Seq<QuerySender>,
    reg: RegistryModel,
    v: u64,
    n: int,
)
    requires
        0 <= n <= senders.len(),
    ensures
        ({
            let (m, rs, ok) = apply_query_senders(h, senders, reg, v, n);
            ok ==> rs == expected_replies(h, senders, v, n)
        }),
    decreases n,
{
    if n > 0 {
        let (m, rs, ok) = apply_query_senders(h, senders, reg, v, n - 1);
        lemma_replies_follow_insertion_order(h, senders, reg, v, n - 1);
    }
}

/// The length of the owed reply sequence equals the number of senders whose
/// filter kept the query.
pub proof fn lemma_reply_count<H: Handlers>(h: H, senders: Seq<QuerySender>, v: u64, n: int)
    requires
        0 <= n <= senders.len(),
    ensures
        expected_replies(h, senders, v, n).len() == kept_count(h, senders, v, n),
    decreases n,
{
    if n > 0 {
        lemma_reply_count(h, senders, v, n - 1);
    }
}

/// Destinations keep their identity throughout an event broadcast:
/// deliveries only append, so which mailboxes exist and are open, and which
/// sinks exist, never changes mid-broadcast.
pub proof fn lemma_event_broadcast_preserves_destinations<H: Handlers>(
    h: H,
    senders: Seq<EventSender>,
    reg: RegistryModel,
    v: u64,
    n: int,
)
    requires
        0 <= n <= senders.len(),
    ensures
        ({
            let m = apply_event_senders(h, senders, reg, v, n).0;
            &&& m.mailboxes.len() == reg.mailboxes.len()
            &&& forall|a: int|
                0 <= a < reg.mailboxes.len() ==> (#[trigger] m.mailboxes[a]).open
                    == reg.mailboxes[a].open
            &&& m.sinks.len() == reg.sinks.len()
        }),
    decreases n,
{
    if n > 0 {
        lemma_event_broadcast_preserves_destinations(h, senders, reg, v, n - 1);
    }
}

/// An event broadcast succeeds exactly when every connected sender can
/// reach its destination for this event (a sender whose filter discards the
/// event needs none): every delivery is attempted, so one failure neither
/// stops the others nor is masked by them.
pub proof fn lemma_event_broadcast_success_iff<H: Handlers>(
    h: H,
    senders: Seq<EventSender>,
    reg: RegistryModel,
    v: u64,
    n: int,
)
    requires
        0 <= n <= senders.len(),
    ensures
        apply_event_senders(h, senders, reg, v, n).1 <==> (forall|i: int|
            0 <= i < n ==> (#[trigger] apply_event_sender(h, senders[i], reg, v)).1),
    decreases n,
{
    if n > 0 {
        lemma_event_broadcast_success_iff(h, senders, reg, v, n - 1);
        lemma_event_broadcast_preserves_destinations(h, senders, reg, v, n - 1);
        let mid = apply_event_senders(h, senders, reg, v, n - 1).0;
        assert(apply_event_sender(h, senders[n - 1], mid, v).1 == apply_event_sender(
            h,
            senders[n - 1],
            reg,
            v,
        ).1);
    }
}

/// Destinations keep their identity throughout a query broadcast, as in an
/// event broadcast.
pub proof fn lemma_query_broadcast_preserves_destinations<H: Handlers>(
    h: H,
    senders: Seq<QuerySender>,
    reg: RegistryModel,
    v: u64,
    n: int,
)
    requires
        0 <= n <= senders.len(),
    ensures
        ({
            let m = apply_query_senders(h, senders, reg, v, n).0;
            &&& m.mailboxes.len() == reg.mailboxes.len()
            &&& forall|a: int|
                0 <= a < reg.mailboxes.len() ==> (#[trigger] m.mailboxes[a]).open
                    == reg.mailboxes[a].open
            &&& m.sinks.len() == reg.sinks.len()
        }),
    decreases n,
{
    if n > 0 {
        lemma_query_broadcast_preserves_destinations(h, senders, reg, v, n - 1);
    }
}

/// A query broadcast succeeds exactly when every connected sender whose
/// filter keeps the query can reach its replier: every delivery is
/// attempted, so one failure neither stops the others nor is masked by
/// them.
pub proof fn lemma_query_broadcast_success_iff<H: Handlers>(
    h: H,
    senders: Seq<QuerySender>,
    reg: RegistryModel,
    v: u64,
    n: int,
)
    requires
        0 <= n <= senders.len(),
    ensures
        apply_query_senders(h, senders, reg, v, n).2 <==> (forall|i: int|
            0 <= i < n ==> (#[trigger] apply_query_sender(h, senders[i], reg, v)).2),
    decreases n,
{
    if n > 0 {
        lemma_query_broadcast_success_iff(h, senders, reg, v, n - 1);
        lemma_query_broadcast_preserves_destinations(h, senders, reg, v, n - 1);
        let mid = apply_query_senders(h, senders, reg, v, n - 1).0;
        assert(apply_query_sender(h, senders[n - 1], mid, v).2 == apply_query_sender(
            h,
            senders[n - 1],
            reg,
            v,
        ).2);
    }
}

/// An event broadcast depends only on the first `n` senders it applies, so
/// two connection lists agreeing up to `n` broadcast identically.
pub proof fn lemma_apply_event_prefix<H: Handlers>(
    h: H,
    s1: Seq<EventSender>,
    s2: Seq<EventSender>,
    reg: RegistryModel,
    v: u64,
    n: int,
)
    requires
        0 <= n <= s1.len(),
        n <= s2.len(),
        forall|i: int| 0 <= i < n ==> s1[i] == s2[i],
    ensures
        apply_event_senders(h, s1, reg, v, n) == apply_event_senders(h, s2, reg, v, n),
    decreases n,
{
    if n > 0 {
        lemma_apply_event_prefix(h, s1, s2, reg, v, n - 1);
    }
}

/// A connection appended to the list is exactly the last delivery applied
/// by the next broadcast: a broadcast includes every connection committed
/// before it, and the earlier connections deliver exactly as they did
/// without the new one.
pub proof fn lemma_broadcast_sees_new_connection<H: Handlers>(
    h: H,
    senders: Seq<EventSender>,
    x: EventSender,
    reg: RegistryModel,
    v: u64,
)
    ensures
        ({
            let (m, ok) = event_broadcast_spec(h, senders, reg, v);
            let (m2, ok2) = apply_event_sender(h, x, m, v);
            event_broadcast_spec(h, senders.push(x), reg, v) == (m2, ok && ok2)
        }),
{
    let s2 = senders.push(x);
    lemma_apply_event_prefix(h, senders, s2, reg, v, senders.len() as int);
    assert(s2[s2.len() - 1] == x);
}

/// A query broadcast depends only on the first `n` senders it applies, so
/// two connection lists agreeing up to `n` broadcast identically.
pub proof fn lemma_apply_query_prefix<H: Handlers>(
    h: H,
    s1: Seq<QuerySender>,
    s2: Seq<QuerySender>,
    reg: RegistryModel,
    v: u64,
    n: int,
)
    requires
        0 <= n <= s1.len(),
        n <= s2.len(),
        forall|i: int| 0 <= i < n ==> s1[i] == s2[i],
    ensures
        apply_query_senders(h, s1, reg, v, n) == apply_query_senders(h, s2, reg, v, n),
    decreases n,
{
    if n > 0 {
        lemma_apply_query_prefix(h, s1, s2, reg, v, n - 1);
    }
}

/// A replier connection appended to the list is exactly the last delivery
/// applied, and the last reply collected, by the next query broadcast.
pub proof fn lemma_query_broadcast_sees_new_connection<H: Handlers>(
    h: H,
    senders: Seq<QuerySender>,
    x: QuerySender,
    reg: RegistryModel,
    v: u64,
)
    ensures
        ({
            let (m, rs, ok) = query_broadcast_spec(h, senders, reg, v);
            let (m2, rep, ok2) = apply_query_sender(h, x, m, v);
            query_broadcast_spec(h, senders.push(x), reg, v) == (
                m2,
                match rep {
                    Some(r) => rs.push(r),
                    None => rs,
                },
                ok && ok2,
            )
        }),
{
    let s2 = senders.push(x);
    lemma_apply_query_prefix(h, senders, s2, reg, v, senders.len() as int);
    assert(s2[s2.len() - 1] == x);
}

/// The ordered collection of a port's fire-and-forget senders.
pub struct EventBroadcaster {
    pub senders: Vec<EventSender>,
}

impl View for EventBroadcaster {
    type V = Seq<EventSender>;

    open spec fn view(&self) -> Seq<EventSender> {
        self.senders@
    }
}

impl Default for EventBroadcaster {
    /// A broadcaster with no connections.
    fn default() -> (r: Self)
        ensures
            r@ == Seq::<EventSender>::empty(),
    {
        EventBroadcaster { senders: Vec::new() }
    }
}

impl Snapshot for EventBroadcaster {
    fn snapshot(&self) -> (r: Self)
        ensures
            r@ == self@,
    {
        let mut senders: Vec<EventSender> = Vec::new();
        let mut i: usize = 0;
        while i < self.senders.len()
            invariant
                i <= self.senders.len(),
                senders@ == self.senders@.take(i as int),
            decreases self.senders.len() - i,
        {
            senders.push(self.senders[i]);
            i += 1;
            proof {
                assert(senders@ =~= self.senders@.take(i as int));
            }
        }
        proof {
            assert(senders@ =~= self.senders@);
        }
        EventBroadcaster { senders }
    }
}

impl EventBroadcaster {
    /// Appends a sender; always succeeds, and the new sender broadcasts
    /// after every existing one.
    pub fn add(&mut self, sender: EventSender)
        ensures
            final(self)@ == old(self)@.push(sender),
    {
        self.senders.push(sender);
    }

    /// The number of connections.
    pub fn len(&self) -> (n: usize)
        ensures
            n == self@.len(),
    {
        self.senders.len()
    }

    /// Delivers the event `v` through every sender, in insertion order.
    /// Every delivery is attempted; the first fatal failure is reported only
    /// after all have been, and partial delivery is not rolled back.
    pub fn broadcast<H: Handlers>(&self, h: &H, reg: &mut Registry, arg: u64) -> (r: Result<
        (),
        DeliveryError,
    >)
        ensures
            ({
                let (m, ok) = event_broadcast_spec(*h, self@, old(reg)@, arg);
                &&& final(reg)@ == m
                &&& r == (if ok {
                    Ok::<(), DeliveryError>(())
                } else {
                    Err::<(), DeliveryError>(DeliveryError)
                })
            }),
    {
        let ghost reg0 = reg@;
        let mut ok = true;
        let mut i: usize = 0;
        while i < self.senders.len()
            invariant
                i <= self.senders.len(),
                ({
                    let (m, k) = apply_event_senders(*h, self@, reg0, arg, i as int);
                    reg@ == m && ok == k
                }),
            decreases self.senders.len() - i,
        {
            let s_ok = self.senders[i].deliver(h, reg, arg);
            ok = ok && s_ok;
            i += 1;
        }
        if ok {
            Ok(())
        } else {
            Err(DeliveryError)
        }
    }
}

/// The ordered collection of a port's reply-returning senders.
pub struct QueryBroadcaster {
    pub senders: Vec<QuerySender>,
}

impl View for QueryBroadcaster {
    type V = Seq<QuerySender>;

    open spec fn view(&self) -> Seq<QuerySender> {
        self.senders@
    }
}

impl Default for QueryBroadcaster {
    /// A broadcaster with no connections.
    fn default() -> (r: Self)
        ensures
            r@ == Seq::<QuerySender>::empty(),
    {
        QueryBroadcaster { senders: Vec::new() }
    }
}

impl Snapshot for QueryBroadcaster {
    fn snapshot(&self) -> (r: Self)
        ensures
            r@ == self@,
    {
        let mut senders: Vec<QuerySender> = Vec::new();
        let mut i: usize = 0;
        while i < self.senders.len()
            invariant
                i <= self.senders.len(),
                senders@ == self.senders@.take(i as int),
            decreases self.senders.len() - i,
        {
            senders.push(self.senders[i]);
            i += 1;
            proof {
                assert(senders@ =~= self.senders@.take(i as int));
            }
        }
        proof {
            assert(senders@ =~= self.senders@);
        }
        QueryBroadcaster { senders }
    }
}

impl QueryBroadcaster {
    /// Appends a sender; always succeeds, and the new sender broadcasts
    /// after every existing one.
    pub fn add(&mut self, sender: QuerySender)
        ensures
            final(self)@ == old(self)@.push(sender),
    {
        self.senders.push(sender);
    }

    /// The number of connections.
    pub fn len(&self) -> (n: usize)
        ensures
            n == self@.len(),
    {
        self.senders.len()
    }

    /// Delivers the query `v` through every sender, in insertion order, and
    /// collects the replies of the senders whose filter kept it, in that
    /// same order.  Every delivery is attempted; the first fatal failure is
    /// reported only after all have been.
    pub fn broadcast<H: Handlers>(&self, h: &H, reg: &mut Registry, arg: u64) -> (r: Result<
        Vec<u64>,
        DeliveryError,
    >)
        ensures
            ({
                let (m, rs, ok) = query_broadcast_spec(*h, self@, old(reg)@, arg);
                &&& final(reg)@ == m
                &&& ok ==> (r matches Ok(rv) && rv@ == rs)
                &&& !ok ==> r matches Err(DeliveryError)
            }),
    {
        let ghost reg0 = reg@;
        let mut replies: Vec<u64> = Vec::new();
        let mut ok = true;
        let mut i: usize = 0;
        while i < self.senders.len()
            invariant
                i <= self.senders.len(),
                ({
                    let (m, rs, k) = apply_query_senders(*h, self@, reg0, arg, i as int);
                    reg@ == m && ok == k && replies@ == rs
                }),
            decreases self.senders.len() - i,
        {
            match self.senders[i].deliver(h, reg, arg) {
                Ok(Some(x)) => replies.push(x),
                Ok(None) => (),
                Err(_) => {
                    ok = false;
                },
            }
            i += 1;
        }
        if ok {
            Ok(replies)
        } else {
            Err(DeliveryError)
        }
    }
}

} // verus!
