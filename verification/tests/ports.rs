use nexosim::handlers::{
    BasicHandlers, Handlers, FILTER_DROP_ALL, FILTER_KEEP_EVEN, MAP_DOUBLE, MAP_IDENTITY,
    MAP_PLUS_ONE, REPLY_DOUBLE, REPLY_ECHO, REPLY_PLUS_ONE,
};
use nexosim::output::{Output, Requestor, UniRequestor};
use nexosim::registry::{Event, Registry};
use nexosim::sender::DeliveryError;

#[test]
fn emitter_send_reaches_every_connection() {
    let h = BasicHandlers;
    let mut reg = Registry::new();
    let a = reg.add_model();
    let b = reg.add_model();
    let s = reg.add_sink();

    let mut out = Output::new();
    out.connect(7, a);
    out.connect(8, b);
    out.connect_sink(s);
    assert_eq!(out.connected_count(), 3);

    assert!(out.send(&h, &mut reg, 4).is_ok());

    assert_eq!(reg.mailbox_events(a).len(), 1);
    assert_eq!(reg.mailbox_events(a)[0], Event { handler: 7, value: 4 });
    assert_eq!(reg.mailbox_events(b).len(), 1);
    assert_eq!(reg.mailbox_events(b)[0], Event { handler: 8, value: 4 });
    assert_eq!(reg.sink_values(s).len(), 1);
    assert_eq!(reg.sink_values(s)[0], 4);
}

#[test]
fn direct_mapped_and_filtered_sinks() {
    let h = BasicHandlers;
    let mut reg = Registry::new();
    let direct = reg.add_sink();
    let doubled = reg.add_sink();
    let even_only = reg.add_sink();

    let mut out = Output::new();
    out.connect_sink(direct);
    out.map_connect_sink(MAP_DOUBLE, doubled);
    out.filter_map_connect_sink(FILTER_KEEP_EVEN, even_only);

    assert!(out.send(&h, &mut reg, 4).is_ok());
    assert_eq!(reg.sink_values(direct), &vec![4]);
    assert_eq!(reg.sink_values(doubled), &vec![8]);
    assert_eq!(reg.sink_values(even_only), &vec![4]);

    assert!(out.send(&h, &mut reg, 3).is_ok());
    assert_eq!(reg.sink_values(direct), &vec![4, 3]);
    assert_eq!(reg.sink_values(doubled), &vec![8, 6]);
    assert_eq!(reg.sink_values(even_only), &vec![4]);
}

#[test]
fn mapped_inputs_deliver_mapped_values() {
    let h = BasicHandlers;
    let mut reg = Registry::new();
    let a = reg.add_model();

    let mut out = Output::new();
    out.map_connect(MAP_PLUS_ONE, 1, a);
    out.filter_map_connect(FILTER_KEEP_EVEN, 2, a);

    assert!(out.send(&h, &mut reg, 9).is_ok());
    assert_eq!(
        reg.mailbox_events(a).as_slice(),
        &[Event { handler: 1, value: 10 }]
    );
}

#[test]
fn reply_sequence_follows_connection_order() {
    let h = BasicHandlers;
    let mut reg = Registry::new();
    let a = reg.add_model();
    let b = reg.add_model();
    let c = reg.add_model();

    let mut req = Requestor::new();
    req.connect(REPLY_PLUS_ONE, a);
    req.map_connect(MAP_DOUBLE, MAP_IDENTITY, REPLY_ECHO, b);
    req.filter_map_connect(FILTER_KEEP_EVEN, MAP_IDENTITY, REPLY_ECHO, c);

    // Odd query: the keep-even connection contributes no reply.
    let replies = req.send(&h, &mut reg, 5).unwrap();
    assert_eq!(replies, vec![6, 10]);
    assert_eq!(reg.mailbox_events(c).len(), 0);

    // Even query: every connection replies, in connection order.
    let replies = req.send(&h, &mut reg, 4).unwrap();
    assert_eq!(replies, vec![5, 8, 4]);
    assert_eq!(reg.mailbox_events(c).len(), 1);
    assert_eq!(
        reg.mailbox_events(b).as_slice(),
        &[
            Event { handler: REPLY_ECHO, value: 10 },
            Event { handler: REPLY_ECHO, value: 8 },
        ]
    );
}

#[test]
fn filtered_unirequestor_is_a_noop() {
    let h = BasicHandlers;
    let mut reg = Registry::new();
    let a = reg.add_model();

    let mut uni = UniRequestor::with_filter_map(FILTER_DROP_ALL, MAP_IDENTITY, REPLY_ECHO, a);
    for _ in 0..3 {
        assert_eq!(uni.send(&h, &mut reg, 42), Ok(None));
        assert_eq!(reg.mailbox_events(a).len(), 0);
    }
}

#[test]
fn unirequestor_maps_query_and_reply() {
    let h = BasicHandlers;
    let mut reg = Registry::new();
    let a = reg.add_model();

    let mut uni = UniRequestor::with_map(MAP_DOUBLE, MAP_PLUS_ONE, REPLY_ECHO, a);
    assert_eq!(uni.send(&h, &mut reg, 4), Ok(Some(9)));
    assert_eq!(
        reg.mailbox_events(a).as_slice(),
        &[Event { handler: REPLY_ECHO, value: 8 }]
    );

    let mut plain = UniRequestor::new(REPLY_DOUBLE, a);
    assert_eq!(plain.send(&h, &mut reg, 21), Ok(Some(42)));
}

#[test]
fn failed_delivery_reported_after_all_attempted() {
    let h = BasicHandlers;
    let mut reg = Registry::new();
    let a = reg.add_model();
    let b = reg.add_model();
    let c = reg.add_model();
    reg.close_mailbox(b);

    let mut out = Output::new();
    out.connect(1, a);
    out.connect(1, b);
    out.connect(1, c);

    assert_eq!(out.send(&h, &mut reg, 4), Err(DeliveryError));
    // Partial delivery to the other consumers is not rolled back.
    assert_eq!(reg.mailbox_events(a).len(), 1);
    assert_eq!(reg.mailbox_events(b).len(), 0);
    assert_eq!(reg.mailbox_events(c).len(), 1);
}

#[test]
fn requestor_fails_on_closed_mailbox() {
    let h = BasicHandlers;
    let mut reg = Registry::new();
    let a = reg.add_model();
    let b = reg.add_model();
    reg.close_mailbox(b);

    let mut req = Requestor::new();
    req.connect(REPLY_ECHO, a);
    req.connect(REPLY_ECHO, b);
    assert_eq!(req.send(&h, &mut reg, 1), Err(DeliveryError));
    // The reachable replier was still delivered to.
    assert_eq!(reg.mailbox_events(a).len(), 1);
}

#[test]
fn unirequestor_fails_on_closed_mailbox() {
    let h = BasicHandlers;
    let mut reg = Registry::new();
    let a = reg.add_model();
    reg.close_mailbox(a);

    let mut uni = UniRequestor::new(REPLY_ECHO, a);
    assert_eq!(uni.send(&h, &mut reg, 1), Err(DeliveryError));
}

#[test]
fn disconnected_ports_send_trivially() {
    let h = BasicHandlers;
    let mut reg = Registry::new();

    let mut out = Output::default();
    assert_eq!(out.connected_count(), 0);
    assert_eq!(out.send(&h, &mut reg, 1), Ok(()));

    let mut req = Requestor::default();
    assert_eq!(req.connected_count(), 0);
    assert_eq!(req.send(&h, &mut reg, 1), Ok(Vec::new()));
}

#[test]
fn basic_handlers_saturate() {
    let h = BasicHandlers;
    assert_eq!(h.map(MAP_DOUBLE, 3), 6);
    assert_eq!(h.map(MAP_DOUBLE, u64::MAX), u64::MAX);
    assert_eq!(h.map(MAP_DOUBLE, u64::MAX / 2), u64::MAX - 1);
    assert_eq!(h.map(MAP_PLUS_ONE, u64::MAX), u64::MAX);
    assert_eq!(h.filter_map(FILTER_KEEP_EVEN, 7), None);
    assert_eq!(h.filter_map(FILTER_KEEP_EVEN, 8), Some(8));
    assert_eq!(h.filter_map(FILTER_DROP_ALL, 8), None);
    assert_eq!(h.reply(REPLY_DOUBLE, 3), 6);
    assert_eq!(h.reply(REPLY_PLUS_ONE, u64::MAX), u64::MAX);
    assert_eq!(h.reply(REPLY_ECHO, 11), 11);
}
