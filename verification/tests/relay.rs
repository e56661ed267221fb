//! Shedding, counting and closing on the inbound side.

use voip_bridge::engine::relay::{missing_method, on_close, timeout_millis};
use voip_bridge::js_relay::{
    close_event, close_fate, close_offers, drops_left, free_slots, packet_offers, push_close,
    push_packet, report_due, CloseFate, ClosePush, RelayDisconnectReason, RelayEndpointParams,
    RelayTransportEvent, SendOutcome,
};
use voip_bridge::js_transport::{
    closes_the_queue, push_or_close, ConnectionLatch, TransportEvent,
};
use wacore::net::{DisconnectReason, TransportEvent as CoreEvent};

fn packet(n: u8) -> Vec<u8> {
    vec![n]
}

#[test]
fn sheds_are_counted_and_packets_keep_flowing() {
    let (mut tx, rx) = async_channel::bounded(3);
    let mut drops: u32 = 0;

    push_packet(&mut tx, &mut drops, packet(1));
    push_packet(&mut tx, &mut drops, packet(2));
    push_packet(&mut tx, &mut drops, packet(3));
    // Full: this shed reaches only the counter.
    push_packet(&mut tx, &mut drops, packet(4));
    assert_eq!(drops, 1);

    // The consumer drains one slot per arrival from here on. The count waits
    // while only one slot is free, and every packet still gets through.
    for expected in [packet(1), packet(2), packet(3)] {
        match rx.try_recv().expect("a queued packet reads back") {
            RelayTransportEvent::PacketReceived(data) => assert_eq!(data, expected),
            other => panic!("expected the queued packet, got {other:?}"),
        }
        push_packet(&mut tx, &mut drops, packet(9));
    }
    assert_eq!(drops, 1);
    // Drained faster than arrivals now: with two slots free the waiting count
    // flushes ahead of the next packet, in the order the two happened.
    for _ in 0..2 {
        match rx.try_recv().expect("a queued packet reads back") {
            RelayTransportEvent::PacketReceived(data) => assert_eq!(data, packet(9)),
            other => panic!("expected the queued packet, got {other:?}"),
        }
    }
    push_packet(&mut tx, &mut drops, packet(9));
    match rx.try_recv().expect("a queued packet reads back") {
        RelayTransportEvent::PacketReceived(data) => assert_eq!(data, packet(9)),
        other => panic!("expected the queued packet, got {other:?}"),
    }
    match rx.try_recv().expect("the shed count reads back") {
        RelayTransportEvent::InboundDropped(1) => {}
        other => panic!("expected the shed count, got {other:?}"),
    }
    match rx.try_recv().expect("the new packet follows its count") {
        RelayTransportEvent::PacketReceived(data) => assert_eq!(data, packet(9)),
        other => panic!("expected the queued packet, got {other:?}"),
    }
    assert_eq!(drops, 0);
}

#[test]
fn an_undeliverable_close_still_ends_the_stream() {
    let (mut tx, rx) = async_channel::bounded(1);
    let mut drops: u32 = 3;

    push_packet(&mut tx, &mut drops, packet(1));
    let pushed = push_close(
        &mut tx,
        &mut drops,
        RelayTransportEvent::Disconnected(RelayDisconnectReason::Closed),
    );
    let (report, event) = match pushed {
        ClosePush::Later { report, event } => (report, event),
        other => panic!("the queue is full, got {other:?}"),
    };
    assert_eq!(drops, 0);
    // The queued packet still reads back; then what was held back follows, and
    // the stream ends instead of hanging on a close event that never fit.
    assert!(rx.try_recv().is_ok());
    assert!(tx
        .try_send(RelayTransportEvent::InboundDropped(report.expect("a count")))
        .is_ok());
    assert!(matches!(
        rx.try_recv().unwrap(),
        RelayTransportEvent::InboundDropped(3)
    ));
    assert!(tx.try_send(event).is_ok());
    tx.close();
    assert!(matches!(
        rx.try_recv().unwrap(),
        RelayTransportEvent::Disconnected(RelayDisconnectReason::Closed)
    ));
    assert!(rx.try_recv().is_err());
}

#[test]
fn a_close_goes_out_where_there_is_room() {
    let (mut tx, rx) = async_channel::bounded(2);
    let mut drops: u32 = 5;
    let gone = RelayTransportEvent::Disconnected(RelayDisconnectReason::Unknown);
    assert_eq!(push_close(&mut tx, &mut drops, gone.clone()), ClosePush::Sent);
    assert_eq!(drops, 0);
    assert_eq!(rx.try_recv().unwrap(), RelayTransportEvent::InboundDropped(5));
    assert_eq!(rx.try_recv().unwrap(), gone);

    // One place: the count takes it, and the close waits.
    let (mut tx, rx) = async_channel::bounded(1);
    let mut drops: u32 = 5;
    assert_eq!(
        push_close(&mut tx, &mut drops, gone.clone()),
        ClosePush::Later {
            report: None,
            event: gone.clone()
        }
    );
    assert_eq!(rx.try_recv().unwrap(), RelayTransportEvent::InboundDropped(5));

    // Nobody reads.
    let (mut tx, rx) = async_channel::bounded::<RelayTransportEvent>(1);
    drop(rx);
    let mut drops: u32 = 0;
    assert_eq!(push_close(&mut tx, &mut drops, gone), ClosePush::Closed);
}

#[test]
fn a_packet_after_the_end_is_not_counted() {
    let (mut tx, rx) = async_channel::bounded::<RelayTransportEvent>(4);
    drop(rx);
    let mut drops: u32 = 2;
    let push = push_packet(&mut tx, &mut drops, packet(1));
    assert_eq!(push.packet, SendOutcome::Closed);
    assert_eq!(push.report, Some((2, SendOutcome::Closed)));
    assert_eq!(drops, 2);
}

#[test]
fn an_unbounded_queue_has_room() {
    assert_eq!(free_slots(None, 10), usize::MAX);
    assert_eq!(free_slots(Some(3), 1), 2);
    assert_eq!(free_slots(Some(3), 3), 0);
    assert_eq!(free_slots(Some(3), 9), 0);
}

#[test]
fn the_count_is_offered_ahead() {
    assert_eq!(
        packet_offers(2, 5, packet(1)),
        [
            RelayTransportEvent::InboundDropped(5),
            RelayTransportEvent::PacketReceived(packet(1)),
        ]
    );
    assert_eq!(
        packet_offers(1, 5, packet(1)),
        [RelayTransportEvent::PacketReceived(packet(1))]
    );
    assert_eq!(
        packet_offers(2, 0, packet(1)),
        [RelayTransportEvent::PacketReceived(packet(1))]
    );
    let close = || RelayTransportEvent::Disconnected(RelayDisconnectReason::Closed);
    assert_eq!(
        close_offers(3, close()),
        [RelayTransportEvent::InboundDropped(3), close()]
    );
    assert_eq!(close_offers(0, close()), [close()]);
}

#[test]
fn a_full_signalling_queue_is_closed() {
    let (mut tx, rx) = async_channel::bounded(1);
    let first = push_or_close(&mut tx, TransportEvent::DataReceived(vec![1, 2, 3]));
    assert_eq!(first.outcome, SendOutcome::Sent);
    assert!(first.closed.is_none() && !tx.is_closed());
    let second = push_or_close(&mut tx, TransportEvent::Connected);
    assert_eq!(second.outcome, SendOutcome::Full);
    assert_eq!(second.closed, Some(true));
    assert!(tx.is_closed());
    let third = push_or_close(&mut tx, TransportEvent::Disconnected);
    assert_eq!(third.outcome, SendOutcome::Closed);
    assert!(third.closed.is_none());
    assert!(matches!(rx.try_recv(), Ok(CoreEvent::DataReceived(b)) if b[..] == [1, 2, 3]));
    assert!(rx.try_recv().is_err());
    assert!(closes_the_queue(SendOutcome::Full));
    assert!(!closes_the_queue(SendOutcome::Sent) && !closes_the_queue(SendOutcome::Closed));
}

#[test]
fn signalling_events_reach_the_core_in_order() {
    let (mut tx, rx) = async_channel::bounded(3);
    push_or_close(&mut tx, TransportEvent::Connected);
    push_or_close(&mut tx, TransportEvent::DataReceived(vec![7]));
    push_or_close(&mut tx, TransportEvent::Disconnected);
    assert!(matches!(rx.try_recv(), Ok(CoreEvent::Connected)));
    assert!(matches!(rx.try_recv(), Ok(CoreEvent::DataReceived(b)) if b[..] == [7]));
    assert!(matches!(
        rx.try_recv(),
        Ok(CoreEvent::Disconnected(DisconnectReason::Unknown))
    ));
}

#[test]
fn a_connection_is_closed_once() {
    let mut latch = ConnectionLatch::new();
    assert!(latch.may_send());
    assert!(latch.disconnect());
    assert!(!latch.may_send());
    assert!(!latch.disconnect());
}

#[test]
fn a_close_reason_that_says_something_is_a_failed_read() {
    let failed = RelayTransportEvent::Disconnected(RelayDisconnectReason::ReadError(
        "reset".to_owned(),
    ));
    let closed = RelayTransportEvent::Disconnected(RelayDisconnectReason::Closed);
    assert_eq!(close_event(Some("reset".to_owned())), failed);
    assert_eq!(close_event(Some(String::new())), closed);
    assert_eq!(close_event(None), closed);
    // The engine takes the host's word as it is.
    assert_eq!(on_close(Some("reset".to_owned())), failed);
    assert_eq!(
        on_close(Some(String::new())),
        RelayTransportEvent::Disconnected(RelayDisconnectReason::ReadError(String::new()))
    );
    assert_eq!(on_close(None), closed);
}

#[test]
fn a_migration_keeps_the_credentials() {
    let params = RelayEndpointParams {
        address: "192.0.2.1".to_owned(),
        port: 3478,
        ice_ufrag: "u".to_owned(),
        ice_pwd: "p".to_owned(),
    };
    assert_eq!(
        params.migrated("192.0.2.2".to_owned(), 3480),
        RelayEndpointParams {
            address: "192.0.2.2".to_owned(),
            port: 3480,
            ice_ufrag: "u".to_owned(),
            ice_pwd: "p".to_owned(),
        }
    );
}

#[test]
fn a_timer_takes_no_more_than_the_host_does() {
    assert_eq!(timeout_millis(0), 0);
    assert_eq!(timeout_millis(2_147_483_647), i32::MAX);
    assert_eq!(timeout_millis(2_147_483_648), i32::MAX);
    assert_eq!(timeout_millis(u128::MAX), i32::MAX);
    assert_eq!(missing_method("send"), "relay connection has no send");
}

#[test]
fn a_report_rides_only_where_both_fit() {
    assert_eq!(report_due(2, 3), Some(3));
    assert_eq!(report_due(1, 3), None);
    assert_eq!(report_due(2, 0), None);
    assert_eq!(drops_left(3, Some(SendOutcome::Sent), SendOutcome::Sent), 0);
    assert_eq!(drops_left(3, Some(SendOutcome::Sent), SendOutcome::Full), 1);
    assert_eq!(drops_left(3, Some(SendOutcome::Full), SendOutcome::Full), 4);
    assert_eq!(drops_left(3, None, SendOutcome::Closed), 3);
    assert_eq!(drops_left(u32::MAX, None, SendOutcome::Full), 0);
}

#[test]
fn the_free_places_come_from_the_channel() {
    let (mut tx, _rx) = async_channel::bounded(5);
    let mut drops: u32 = 0;
    assert_eq!(push_packet(&mut tx, &mut drops, packet(1)).free, 5);
    assert_eq!(push_packet(&mut tx, &mut drops, packet(2)).free, 4);
    let (mut tx, _rx) = async_channel::unbounded();
    assert_eq!(push_packet(&mut tx, &mut drops, packet(1)).free, usize::MAX);
}

#[test]
fn a_count_that_waits_holds_the_close_back() {
    let (sent, full, closed) = (SendOutcome::Sent, SendOutcome::Full, SendOutcome::Closed);
    assert_eq!(close_fate(0, sent, sent), CloseFate::Sent);
    assert_eq!(close_fate(0, full, full), CloseFate::Later(None));
    assert_eq!(close_fate(0, sent, closed), CloseFate::Closed);
    assert_eq!(close_fate(3, sent, full), CloseFate::Later(None));
    assert_eq!(close_fate(3, full, sent), CloseFate::Later(Some(3)));
    assert_eq!(close_fate(3, closed, closed), CloseFate::Later(Some(3)));
}
