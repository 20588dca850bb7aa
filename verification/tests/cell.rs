use nexosim::broadcaster::EventBroadcaster;
use nexosim::registry::Registry;
use nexosim::sender::EventSender;
use nexosim::sync_cell::SyncCell;

#[test]
fn committed_write_is_seen_by_synchronized_read() {
    let mut reg = Registry::new();
    let s = reg.add_sink();

    let mut cell: SyncCell<EventBroadcaster> = SyncCell::new(EventBroadcaster::default());

    // A structural write: check out, mutate, commit.
    let mut b = cell.checkout();
    b.add(EventSender::Sink { sink: s });
    cell.commit(b);

    // The cached copy lags until the next synchronized read.
    assert_eq!(cell.read_unsync().len(), 0);

    // A synchronized read observes the committed write and refreshes the
    // cache: a write followed by a broadcast in the same call sequence
    // always sees its own write.
    assert_eq!(cell.read().len(), 1);
    assert_eq!(cell.read_unsync().len(), 1);
}

#[test]
fn checkout_is_a_private_copy() {
    let mut cell: SyncCell<EventBroadcaster> = SyncCell::new(EventBroadcaster::default());
    let mut scratch = cell.checkout();
    scratch.add(EventSender::Sink { sink: nexosim::registry::SinkId { index: 0 } });
    // An uncommitted scratchpad does not change the committed value.
    assert_eq!(cell.read().len(), 0);
}
