use rpc_core::channel::{BoundedChannel, ReceiveOutcome, SendOutcome};
use rpc_core::history::history_record_at;
use rpc_core::messages::TransactionRecord;

fn rec(i: u64) -> TransactionRecord {
    history_record_at(i)
}

fn drain_all(items: &[TransactionRecord], capacity: usize) -> Vec<TransactionRecord> {
    let mut ch = BoundedChannel::new(capacity);
    let mut out = Vec::new();
    let mut next = 0;
    loop {
        while next < items.len() {
            match ch.try_send(items[next].clone()) {
                SendOutcome::Sent => next += 1,
                SendOutcome::Full(_) => break,
                SendOutcome::Closed(_) => panic!("receiver is open"),
            }
        }
        if next == items.len() && ch.is_sender_open() {
            ch.close_sender();
        }
        match ch.try_receive() {
            ReceiveOutcome::Item(x) => out.push(x),
            ReceiveOutcome::Empty => {}
            ReceiveOutcome::EndOfStream => return out,
        }
    }
}

#[test]
fn items_arrive_in_send_order_for_every_capacity() {
    let items: Vec<TransactionRecord> = (1..=20).map(rec).collect();
    for capacity in [1usize, 2, 4, 7, 32] {
        assert_eq!(drain_all(&items, capacity), items);
    }
}

#[test]
fn empty_sequence_ends_at_once() {
    assert_eq!(drain_all(&[], 4), Vec::<TransactionRecord>::new());
    let mut ch = BoundedChannel::new(1);
    assert!(matches!(ch.try_receive(), ReceiveOutcome::Empty));
    ch.close_sender();
    assert!(matches!(ch.try_receive(), ReceiveOutcome::EndOfStream));
    assert!(matches!(ch.try_receive(), ReceiveOutcome::EndOfStream));
}

#[test]
fn full_channel_hands_item_back() {
    let mut ch = BoundedChannel::new(2);
    assert!(matches!(ch.try_send(rec(1)), SendOutcome::Sent));
    assert!(matches!(ch.try_send(rec(2)), SendOutcome::Sent));
    match ch.try_send(rec(3)) {
        SendOutcome::Full(x) => assert_eq!(x, rec(3)),
        _ => panic!("channel is full"),
    }
    assert_eq!(ch.len(), 2);
    assert_eq!(ch.capacity(), 2);
    assert!(matches!(ch.try_receive(), ReceiveOutcome::Item(x) if x == rec(1)));
    assert!(matches!(ch.try_send(rec(3)), SendOutcome::Sent));
    assert!(matches!(ch.try_receive(), ReceiveOutcome::Item(x) if x == rec(2)));
    assert!(matches!(ch.try_receive(), ReceiveOutcome::Item(x) if x == rec(3)));
    assert_eq!(ch.len(), 0);
}

#[test]
fn send_fails_once_receiver_dropped() {
    let mut ch = BoundedChannel::new(4);
    assert!(matches!(ch.try_send(rec(1)), SendOutcome::Sent));
    assert!(!ch.is_closed());
    ch.close_receiver();
    assert!(ch.is_closed());
    match ch.try_send(rec(2)) {
        SendOutcome::Closed(x) => assert_eq!(x, rec(2)),
        _ => panic!("receiver is closed"),
    }
}

#[test]
fn queued_items_still_delivered_after_sender_closes() {
    let mut ch = BoundedChannel::new(3);
    assert!(matches!(ch.try_send(rec(5)), SendOutcome::Sent));
    assert!(matches!(ch.try_send(rec(6)), SendOutcome::Sent));
    ch.close_sender();
    assert!(!ch.is_sender_open());
    assert!(matches!(ch.try_receive(), ReceiveOutcome::Item(x) if x == rec(5)));
    assert!(matches!(ch.try_receive(), ReceiveOutcome::Item(x) if x == rec(6)));
    assert!(matches!(ch.try_receive(), ReceiveOutcome::EndOfStream));
}
