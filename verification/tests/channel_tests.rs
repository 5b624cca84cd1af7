use handoff::channel::Channel;
use handoff::channel::Phase;
use handoff::channel::TryRecvError;
use handoff::channel::TrySendError;

#[test]
fn lifecycle_phases_in_order() {
    let mut c: Channel<i32> = Channel::new(None);
    assert_eq!(c.current_phase(), Phase::Open);
    assert!(matches!(c.try_send(1), Ok(())));
    c.drop_sender();
    // The last sender is gone with an item still buffered: draining.
    assert_eq!(c.current_phase(), Phase::Draining);
    assert!(matches!(c.try_recv(), Ok(1)));
    assert_eq!(c.current_phase(), Phase::Closed);
}

#[test]
fn fifo_order_single_producer() {
    let mut c: Channel<i32> = Channel::new(None);
    for i in 1..=5 {
        assert!(matches!(c.try_send(i), Ok(())));
    }
    for i in 1..=5 {
        match c.try_recv() {
            Ok(v) => assert_eq!(v, i),
            Err(_) => panic!("item {} missing", i),
        }
    }
    assert!(matches!(c.try_recv(), Err(TryRecvError::Empty)));
}

#[test]
fn backpressure_full_at_bound() {
    let mut c: Channel<i32> = Channel::new(Some(2));
    assert!(matches!(c.try_send(1), Ok(())));
    assert!(matches!(c.try_send(2), Ok(())));
    // The bound is reached: the next non-blocking send is refused and the
    // item handed back, until a receive frees a slot.
    match c.try_send(3) {
        Err(TrySendError::Full(v)) => assert_eq!(v, 3),
        _ => panic!("expected the channel to be full"),
    }
    match c.try_recv() {
        Ok(v) => assert_eq!(v, 1),
        Err(_) => panic!("expected the oldest item"),
    }
    assert!(matches!(c.try_send(3), Ok(())));
}

#[test]
fn rendezvous_bound_zero_never_buffers() {
    let mut c: Channel<i32> = Channel::new(Some(0));
    match c.try_send(1) {
        Err(TrySendError::Full(v)) => assert_eq!(v, 1),
        _ => panic!("a rendezvous channel must refuse a resting item"),
    }
    assert_eq!(c.len(), 0);
}

#[test]
fn close_on_last_sender_drop() {
    let mut c: Channel<i32> = Channel::new(None);
    c.clone_sender();
    assert_eq!(c.sender_count(), 2);
    assert!(matches!(c.try_send(7), Ok(())));
    c.drop_sender();
    // One sender is still live: the channel stays open.
    assert!(!c.closed());
    c.drop_sender();
    // The last sender is gone: the channel is closed, but the buffered
    // item is still delivered before end of stream is reported.
    assert!(c.closed());
    match c.try_recv() {
        Ok(v) => assert_eq!(v, 7),
        Err(_) => panic!("the queued item must still be delivered"),
    }
    assert!(matches!(c.try_recv(), Err(TryRecvError::Disconnected)));
    assert!(matches!(c.try_recv(), Err(TryRecvError::Disconnected)));
}

#[test]
fn send_after_close_disconnected() {
    let mut c: Channel<i32> = Channel::new(None);
    c.close();
    match c.try_send(1) {
        Err(TrySendError::Disconnected(v)) => assert_eq!(v, 1),
        _ => panic!("a closed channel must refuse new items"),
    }
}

#[test]
fn empty_open_channel_reports_empty() {
    let mut c: Channel<i32> = Channel::new(Some(4));
    assert!(matches!(c.try_recv(), Err(TryRecvError::Empty)));
    assert_eq!(c.capacity(), Some(4));
    assert!(c.is_empty());
}
