//! The inbound side of the signalling connection, and its one close.

use async_channel::{Sender, TrySendError};
use bytes::Bytes;
use vstd::prelude::*;
use wacore::net::{DisconnectReason, TransportEvent as CoreEvent};

use crate::js_relay::SendOutcome;

verus! {

/// Inbound events of one connection that may wait.
pub const TRANSPORT_EVENT_CHANNEL_CAPACITY: usize = 32768;

/// What comes in from the host's connection.
#[derive(Debug, Clone, PartialEq, Eq)]
pub enum TransportEvent {
    /// It is open.
    Connected,
    /// Bytes of the server.
    DataReceived(Vec<u8>),
    /// It ended; the host says no reason.
    Disconnected,
}

/// The values of a [`TransportEvent`].
pub enum TransportEventView {
    /// The connection is open.
    Connected,
    /// Bytes of the server.
    DataReceived(Seq<u8>),
    /// The connection ended.
    Disconnected,
}

impl View for TransportEvent {
    type V = TransportEventView;

    open spec fn view(&self) -> TransportEventView {
        match self {
            TransportEvent::Connected => TransportEventView::Connected,
            TransportEvent::DataReceived(bytes) => TransportEventView::DataReceived(bytes@),
            TransportEvent::Disconnected => TransportEventView::Disconnected,
        }
    }
}

#[verifier::external_type_specification]
#[verifier::external_body]
pub struct ExCoreEvent(CoreEvent);

/// What was done to the core's queue through one end of it.
pub enum QueueAct {
    /// An event was offered, and came to this.
    Offered(TransportEventView, SendOutcome),
    /// The queue was closed; whether it was open until then.
    Closed(bool),
}

/// What was done to the core's queue through this end of it, in order. Every
/// offer and every close adds to it; nothing takes from it.
pub uninterp spec fn acts_of(tx: Sender<CoreEvent>) -> Seq<QueueAct>;

/// [`Sender::try_send`] of an event, put into the core's type: one offer more
/// through this end. What it comes to depends on the reader, so that is not
/// stated.
#[verifier::external_body]
fn try_event(tx: &mut Sender<CoreEvent>, event: TransportEvent) -> (outcome: SendOutcome)
    ensures
        acts_of(*final(tx)) == acts_of(*old(tx)).push(QueueAct::Offered(event@, outcome)),
{
    let event = match event {
        TransportEvent::Connected => CoreEvent::Connected,
        TransportEvent::DataReceived(bytes) => CoreEvent::DataReceived(Bytes::from(bytes)),
        TransportEvent::Disconnected => CoreEvent::Disconnected(DisconnectReason::Unknown),
    };
    match tx.try_send(event) {
        Ok(()) => SendOutcome::Sent,
        Err(TrySendError::Full(_)) => SendOutcome::Full,
        Err(TrySendError::Closed(_)) => SendOutcome::Closed,
    }
}

/// [`Sender::close`]: one close more through this end. Whether the channel was
/// open until then depends on whoever else holds it, so that is not stated.
#[verifier::external_body]
fn close_queue(tx: &mut Sender<CoreEvent>) -> (first: bool)
    ensures
        acts_of(*final(tx)) == acts_of(*old(tx)).push(QueueAct::Closed(first)),
{
    tx.close()
}

/// What pushing a transport event came to.
#[derive(Debug, Clone, Copy, PartialEq, Eq, Structural)]
pub struct TransportPush {
    /// What became of the event.
    pub outcome: SendOutcome,
    /// What closing the channel over it came to, where it was closed.
    pub closed: Option<bool>,
}

impl TransportPush {
    /// What the push did to the queue: the offer, and the close behind it where
    /// there was one.
    pub open spec fn acts(self, event: TransportEventView) -> Seq<QueueAct> {
        match self.closed {
            Some(first) => seq![QueueAct::Offered(event, self.outcome), QueueAct::Closed(first)],
            None => seq![QueueAct::Offered(event, self.outcome)],
        }
    }
}

/// Whether an event that came to this closes the channel.
pub fn closes_the_queue(outcome: SendOutcome) -> (b: bool)
    ensures
        b == (outcome == SendOutcome::Full),
{
    outcome == SendOutcome::Full
}

/// Pushes an event of the signalling transport. A frame that is lost would put
/// the two ends out of step, so a queue without room is closed: that ends the
/// connection, and what was not acknowledged is delivered again on the next.
pub fn push_or_close(tx: &mut Sender<CoreEvent>, event: TransportEvent) -> (push: TransportPush)
    ensures
        push.closed is Some == (push.outcome == SendOutcome::Full),
        acts_of(*final(tx)) == acts_of(*old(tx)) + push.acts(event@),
{
    let outcome = try_event(tx, event);
    let closed = if closes_the_queue(outcome) {
        Some(close_queue(tx))
    } else {
        None
    };
    let push = TransportPush { outcome, closed };
    assert(acts_of(*tx) =~= acts_of(*old(tx)) + push.acts(event@));
    push
}

/// A connection that is closed once.
#[derive(Debug, Clone, Copy, PartialEq, Eq, Structural)]
pub struct ConnectionLatch {
    /// Whether it was closed.
    pub disconnected: bool,
}

impl ConnectionLatch {
    /// An open connection.
    pub fn new() -> (l: Self)
        ensures
            !l.disconnected,
    {
        ConnectionLatch { disconnected: false }
    }

    /// Whether something may be sent.
    pub fn may_send(&self) -> (b: bool)
        ensures
            b == !self.disconnected,
    {
        !self.disconnected
    }

    /// Closes the connection. Only the first close crosses to the host: a
    /// second one could close the connection that took its place.
    pub fn disconnect(&mut self) -> (first: bool)
        ensures
            first == !old(self).disconnected,
            final(self).disconnected,
    {
        let first = !self.disconnected;
        self.disconnected = true;
        first
    }
}

} // verus!
