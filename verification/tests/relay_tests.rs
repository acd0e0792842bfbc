use portal_lib::relay::{ConnectionBroker, DrainStep, RegisterAction, RelayError, Tunnel};

#[test]
fn relay_pairing_keeps_first_sender() {
    let mut broker = ConnectionBroker::new();
    let dup = "dup".to_string();

    // The first sender under an identifier is pended; a second one
    // under the same identifier is dropped.
    assert_eq!(broker.add_sender(&dup, 1, 0), RegisterAction::PendSender);
    assert_eq!(
        broker.add_sender(&dup, 2, 1),
        RegisterAction::DropDuplicateSender
    );
    assert_eq!(broker.pending_count(), 1);

    // The receiver pairs with the first sender only, which leaves the
    // pending set.
    assert_eq!(
        broker.add_receiver(&dup),
        RegisterAction::PairWithSender(1)
    );
    assert!(!broker.has_pending(&dup));

    // A further receiver has nobody to pair with.
    assert_eq!(broker.add_receiver(&dup), RegisterAction::CloseNoSender);
}

#[test]
fn relay_pairs_by_identifier() {
    let mut broker = ConnectionBroker::new();
    let a = "aaaa".to_string();
    let b = "bbbb".to_string();
    assert_eq!(broker.add_sender(&a, 10, 0), RegisterAction::PendSender);
    assert_eq!(broker.add_sender(&b, 20, 0), RegisterAction::PendSender);
    assert_eq!(broker.add_receiver(&b), RegisterAction::PairWithSender(20));
    assert_eq!(broker.add_receiver(&a), RegisterAction::PairWithSender(10));
    assert_eq!(broker.pending_count(), 0);
}

#[test]
fn relay_reaps_stale_senders() {
    let mut broker = ConnectionBroker::new();
    let old = "old!".to_string();
    let fresh = "new!".to_string();
    broker.add_sender(&old, 1, 0);
    broker.add_sender(&fresh, 2, 600);

    // Fifteen minutes after the first arrival, only the fresh sender
    // survives.
    broker.reap(900);
    assert!(!broker.has_pending(&old));
    assert!(broker.has_pending(&fresh));
    assert_eq!(broker.pending_count(), 1);

    // The survivor is still pairable.
    assert_eq!(
        broker.add_receiver(&fresh),
        RegisterAction::PairWithSender(2)
    );
}

#[test]
fn tunnel_buffer_source_decisions() {
    // End-of-stream: remember it and ask for the pipe writer to close.
    let mut t = Tunnel::new();
    assert!(!t.source_finished);
    let (close, res) = t.buffer_source(Ok(0));
    assert!(close);
    assert_eq!(res, Ok(0));
    assert!(t.source_finished);

    // Would-block counts as zero bytes buffered.
    let mut t = Tunnel::new();
    let (close, res) = t.buffer_source(Err(RelayError::WouldBlock));
    assert!(!close);
    assert_eq!(res, Ok(0));
    assert!(!t.source_finished);

    // Moved bytes pass through.
    let (close, res) = t.buffer_source(Ok(4096));
    assert!(!close);
    assert_eq!(res, Ok(4096));

    // Fatal errors propagate.
    let (close, res) = t.buffer_source(Err(RelayError::Unknown(5)));
    assert!(!close);
    assert_eq!(res, Err(RelayError::Unknown(5)));
}

#[test]
fn tunnel_drain_decisions() {
    assert_eq!(Tunnel::drain_to_destination(Ok(0)), Ok(DrainStep::Done));
    assert_eq!(
        Tunnel::drain_to_destination(Err(RelayError::WouldBlock)),
        Ok(DrainStep::Yield)
    );
    assert_eq!(
        Tunnel::drain_to_destination(Ok(512)),
        Ok(DrainStep::Continue)
    );
    assert_eq!(
        Tunnel::drain_to_destination(Err(RelayError::Unknown(32))),
        Err(RelayError::Unknown(32))
    );
}

#[test]
fn errno_classification() {
    assert_eq!(RelayError::from_errno(11), RelayError::WouldBlock);
    assert_eq!(RelayError::from_errno(32), RelayError::Unknown(32));
}
