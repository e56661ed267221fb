//! The inbound side of a relay channel.
//!
//! Datagrams arrive on callbacks of the host and go into a bounded queue. What
//! does not fit is shed and counted, and the count rides ahead of a later
//! packet as soon as it costs none its place. A close is never lost: what the
//! queue cannot carry at once is handed back to be sent later.

use async_channel::{Sender, TrySendError};
use vstd::prelude::*;

use crate::messages::fields::views;

verus! {

/// Inbound events of one connection that may wait.
pub const RELAY_EVENT_CHANNEL_CAPACITY: usize = 128;

/// Why a relay channel ended.
#[derive(Debug, Clone, PartialEq, Eq)]
pub enum RelayDisconnectReason {
    /// It was closed.
    Closed,
    /// Reading from it failed.
    ReadError(String),
    /// Nobody said.
    Unknown,
}

/// What comes in from a relay.
#[derive(Debug, Clone, PartialEq, Eq)]
pub enum RelayTransportEvent {
    /// The channel is open.
    Connected,
    /// A datagram.
    PacketReceived(Vec<u8>),
    /// So many datagrams were shed before this point.
    InboundDropped(u32),
    /// The channel ended.
    Disconnected(RelayDisconnectReason),
}

/// The values of a [`RelayDisconnectReason`].
pub enum RelayReasonView {
    /// It was closed.
    Closed,
    /// Reading from it failed.
    ReadError(Seq<char>),
    /// Nobody said.
    Unknown,
}

impl View for RelayDisconnectReason {
    type V = RelayReasonView;

    open spec fn view(&self) -> RelayReasonView {
        match self {
            RelayDisconnectReason::Closed => RelayReasonView::Closed,
            RelayDisconnectReason::ReadError(text) => RelayReasonView::ReadError(text@),
            RelayDisconnectReason::Unknown => RelayReasonView::Unknown,
        }
    }
}

/// The values of a [`RelayTransportEvent`].
pub enum RelayEventView {
    /// The channel is open.
    Connected,
    /// A datagram.
    PacketReceived(Seq<u8>),
    /// So many datagrams were shed before this point.
    InboundDropped(u32),
    /// The channel ended.
    Disconnected(RelayReasonView),
}

impl View for RelayTransportEvent {
    type V = RelayEventView;

    open spec fn view(&self) -> RelayEventView {
        match self {
            RelayTransportEvent::Connected => RelayEventView::Connected,
            RelayTransportEvent::PacketReceived(bytes) => RelayEventView::PacketReceived(bytes@),
            RelayTransportEvent::InboundDropped(n) => RelayEventView::InboundDropped(*n),
            RelayTransportEvent::Disconnected(reason) => RelayEventView::Disconnected(reason@),
        }
    }
}

#[verifier::external_type_specification]
#[verifier::external_body]
#[verifier::reject_recursive_types(T)]
pub struct ExSender<T>(Sender<T>);

/// An event that a queue did not take.
#[derive(Debug, Clone, PartialEq, Eq)]
pub enum Unsent {
    /// There is no room.
    Full(RelayTransportEvent),
    /// Nobody reads any more.
    Closed(RelayTransportEvent),
}

impl Unsent {
    /// The event itself.
    pub open spec fn event(self) -> RelayTransportEvent {
        match self {
            Unsent::Full(event) => event,
            Unsent::Closed(event) => event,
        }
    }
}

/// What became of an event.
#[derive(Debug, Clone, Copy, PartialEq, Eq, Structural)]
pub enum SendOutcome {
    /// It waits in the queue.
    Sent,
    /// There was no room for it.
    Full,
    /// Nobody reads any more.
    Closed,
}

/// How many events may wait in a channel of the relay's, if there is a bound:
/// what it was made with.
pub uninterp spec fn room_of(tx: Sender<RelayTransportEvent>) -> Option<usize>;

/// [`Sender::capacity`]: how many events may wait, which is fixed when the
/// channel is made.
#[verifier::external_body]
fn queue_capacity(tx: &Sender<RelayTransportEvent>) -> (n: Option<usize>)
    ensures
        n == room_of(*tx),
{
    tx.capacity()
}

/// Whether so many events may wait in a channel of the relay's. How many do
/// changes as they are read.
pub uninterp spec fn may_wait(tx: Sender<RelayTransportEvent>, waiting: usize) -> bool;

/// [`Sender::len`]: how many events wait. Which number comes depends on the
/// reader, so that is not stated.
#[verifier::external_body]
fn queue_len(tx: &Sender<RelayTransportEvent>) -> (waiting: usize)
    ensures
        may_wait(*tx, waiting),
{
    tx.len()
}

/// What was offered through this end of a channel, in order, and what each
/// offer came to. Every offer adds to it; nothing takes from it.
pub uninterp spec fn offers_of(tx: Sender<RelayTransportEvent>) -> Seq<
    (RelayEventView, SendOutcome),
>;

/// What an offer came to.
pub open spec fn outcome_of(res: Result<(), Unsent>) -> SendOutcome {
    match res {
        Ok(()) => SendOutcome::Sent,
        Err(Unsent::Full(_)) => SendOutcome::Full,
        Err(Unsent::Closed(_)) => SendOutcome::Closed,
    }
}

/// [`Sender::try_send`]: one offer more through this end, whose bound stays;
/// an event that is not taken comes back. Whether it is taken depends on the
/// reader, so that is not stated.
#[verifier::external_body]
fn try_push(tx: &mut Sender<RelayTransportEvent>, event: RelayTransportEvent) -> (res: Result<
    (),
    Unsent,
>)
    ensures
        offers_of(*final(tx)) == offers_of(*old(tx)).push((event@, outcome_of(res))),
        room_of(*final(tx)) == room_of(*old(tx)),
        res matches Err(unsent) ==> unsent.event() == event,
{
    match tx.try_send(event) {
        Ok(()) => Ok(()),
        Err(TrySendError::Full(event)) => Err(Unsent::Full(event)),
        Err(TrySendError::Closed(event)) => Err(Unsent::Closed(event)),
    }
}

/// Events that were offered, each with what it came to.
pub open spec fn offered(events: Seq<RelayEventView>, outcomes: Seq<SendOutcome>) -> Seq<
    (RelayEventView, SendOutcome),
> {
    Seq::new(events.len(), |i: int| (events[i], outcomes[i]))
}

/// Offers events front to back, each whatever became of the one before it.
fn offer_each(tx: &mut Sender<RelayTransportEvent>, events: Vec<RelayTransportEvent>) -> (outcomes:
    Vec<SendOutcome>)
    ensures
        outcomes@.len() == events@.len(),
        offers_of(*final(tx)) == offers_of(*old(tx)) + offered(views(events@), outcomes@),
        room_of(*final(tx)) == room_of(*old(tx)),
{
    let ghost all = events@;
    let ghost before = offers_of(*tx);
    let mut left = events;
    let mut outcomes: Vec<SendOutcome> = Vec::new();
    assert(before =~= before + offered(views(all.take(0)), outcomes@));
    while left.len() > 0
        invariant
            outcomes@.len() + left@.len() == all.len(),
            left@ == all.skip(outcomes@.len() as int),
            offers_of(*tx) == before + offered(
                views(all.take(outcomes@.len() as int)),
                outcomes@,
            ),
            room_of(*tx) == room_of(*old(tx)),
        decreases left.len(),
    {
        let ghost n = outcomes@.len() as int;
        let ghost known = outcomes@;
        let event = left.remove(0);
        assert(event == all[n]);
        let outcome = match try_push(tx, event) {
            Ok(()) => SendOutcome::Sent,
            Err(Unsent::Full(_)) => SendOutcome::Full,
            Err(Unsent::Closed(_)) => SendOutcome::Closed,
        };
        outcomes.push(outcome);
        assert(offered(views(all.take(n + 1)), outcomes@) =~= offered(
            views(all.take(n)),
            known,
        ).push((event@, outcome)));
        assert(offers_of(*tx) =~= before + offered(views(all.take(n + 1)), outcomes@));
    }
    assert(all.take(outcomes@.len() as int) =~= all);
    outcomes
}

/// Events that were offered in turn until one was refused.
struct Stopped {
    /// What became of the refused one.
    outcome: SendOutcome,
    /// The refused one, and those behind it.
    left: Vec<RelayTransportEvent>,
}

/// Events that were all taken.
pub open spec fn taken(events: Seq<RelayEventView>) -> Seq<(RelayEventView, SendOutcome)> {
    Seq::new(events.len(), |i: int| (events[i], SendOutcome::Sent))
}

/// Offers events front to back, up to the first that is not taken.
fn offer_in_turn(tx: &mut Sender<RelayTransportEvent>, events: Vec<RelayTransportEvent>) -> (stopped:
    Option<Stopped>)
    ensures
        room_of(*final(tx)) == room_of(*old(tx)),
        match stopped {
            None => offers_of(*final(tx)) == offers_of(*old(tx)) + taken(views(events@)),
            Some(s) => {
                let n = events@.len() - s.left@.len();
                &&& 0 <= n < events@.len()
                &&& s.left@ == events@.skip(n)
                &&& s.outcome != SendOutcome::Sent
                &&& offers_of(*final(tx)) == offers_of(*old(tx)) + taken(
                    views(events@.take(n)),
                ).push((events@[n]@, s.outcome))
            },
        },
{
    let ghost all = events@;
    let ghost before = offers_of(*tx);
    let mut left = events;
    assert(before =~= before + taken(views(all.take(0))));
    while left.len() > 0
        invariant
            all == events@,
            before == offers_of(*old(tx)),
            left@.len() <= all.len(),
            left@ == all.skip(all.len() - left@.len()),
            offers_of(*tx) == before + taken(views(all.take(all.len() - left@.len()))),
            room_of(*tx) == room_of(*old(tx)),
        decreases left.len(),
    {
        let ghost n = all.len() - left@.len();
        let ghost done = taken(views(all.take(n)));
        let event = left.remove(0);
        assert(event == all[n]);
        assert(left@ =~= all.skip(n + 1));
        let (outcome, event) = match try_push(tx, event) {
            Ok(()) => {
                assert(taken(views(all.take(n + 1))) =~= done.push((event@, SendOutcome::Sent)));
                assert(offers_of(*tx) =~= before + taken(views(all.take(n + 1))));
                continue;
            },
            Err(Unsent::Full(event)) => (SendOutcome::Full, event),
            Err(Unsent::Closed(event)) => (SendOutcome::Closed, event),
        };
        assert(offers_of(*tx) =~= before + done.push((all[n]@, outcome)));
        left.insert(0, event);
        assert(left@ =~= all.skip(n));
        assert(left@.len() == all.len() - n);
        return Some(Stopped { outcome, left });
    }
    assert(all.take(all.len() as int) =~= all);
    None
}

/// The places left in a queue.
pub open spec fn free_places(capacity: Option<usize>, waiting: usize) -> usize {
    match capacity {
        None => usize::MAX,
        Some(cap) => if waiting < cap {
            (cap - waiting) as usize
        } else {
            0
        },
    }
}

/// The places left in a queue.
pub fn free_slots(capacity: Option<usize>, waiting: usize) -> (n: usize)
    ensures
        n == free_places(capacity, waiting),
{
    match capacity {
        None => usize::MAX,
        Some(cap) => cap.saturating_sub(waiting),
    }
}

/// What pushing a packet came to.
#[derive(Debug, Clone, Copy, PartialEq, Eq)]
pub struct PacketPush {
    /// The places that were left.
    pub free: usize,
    /// The count that was tried ahead of the packet, and what became of it.
    pub report: Option<(u32, SendOutcome)>,
    /// What became of the packet.
    pub packet: SendOutcome,
}

/// Whether the count rides ahead of a packet: only where both fit, because a
/// report that spends the last place starves the packet behind it.
pub open spec fn reports(free: usize, drops: u32) -> bool {
    free >= 2 && drops > 0
}

/// The count that rides ahead of a packet, if it does.
pub fn report_due(free: usize, drops: u32) -> (count: Option<u32>)
    ensures
        count == if reports(free, drops) {
            Some(drops)
        } else {
            None
        },
{
    if free >= 2 && drops > 0 {
        Some(drops)
    } else {
        None
    }
}

/// The count that is left after a push: a report that went out clears it, and
/// a packet that found no room adds one.
pub open spec fn count_after(drops: u32, report: Option<SendOutcome>, packet: SendOutcome) -> u32 {
    let waiting: u32 = if report == Some(SendOutcome::Sent) {
        0
    } else {
        drops
    };
    if packet == SendOutcome::Full {
        if waiting == u32::MAX {
            0
        } else {
            (waiting + 1) as u32
        }
    } else {
        waiting
    }
}

/// The count that is left after a push, given what became of the report and of
/// the packet.
pub fn drops_left(drops: u32, report: Option<SendOutcome>, packet: SendOutcome) -> (left: u32)
    ensures
        left == count_after(drops, report, packet),
{
    let waiting: u32 = match report {
        Some(SendOutcome::Sent) => 0,
        _ => drops,
    };
    if packet == SendOutcome::Full {
        waiting.wrapping_add(1)
    } else {
        waiting
    }
}

impl PacketPush {
    /// What became of the report, if there was one.
    pub open spec fn report_outcome(self) -> Option<SendOutcome> {
        match self.report {
            Some((_, outcome)) => Some(outcome),
            None => None,
        }
    }

    /// What became of each offer, in order.
    pub open spec fn outcomes(self) -> Seq<SendOutcome> {
        match self.report {
            Some((_, outcome)) => seq![outcome, self.packet],
            None => seq![self.packet],
        }
    }

    /// The count that is left after the push.
    pub open spec fn drops_after(self, drops: u32) -> u32 {
        count_after(drops, self.report_outcome(), self.packet)
    }
}

/// What is offered for a packet, in this order: the count where it rides
/// ahead, and then the packet.
pub open spec fn packet_events(free: usize, drops: u32, bytes: Seq<u8>) -> Seq<RelayEventView> {
    if reports(free, drops) {
        seq![RelayEventView::InboundDropped(drops), RelayEventView::PacketReceived(bytes)]
    } else {
        seq![RelayEventView::PacketReceived(bytes)]
    }
}

/// What is offered for a packet, front to back.
pub fn packet_offers(free: usize, drops: u32, bytes: Vec<u8>) -> (events: Vec<RelayTransportEvent>)
    ensures
        views(events@) == packet_events(free, drops, bytes@),
{
    let mut events: Vec<RelayTransportEvent> = Vec::new();
    match report_due(free, drops) {
        Some(count) => {
            events.push(RelayTransportEvent::InboundDropped(count));
        },
        None => {},
    }
    events.push(RelayTransportEvent::PacketReceived(bytes));
    assert(views(events@) =~= packet_events(free, drops, bytes@));
    events
}

/// Pushes one inbound packet, accounting for what is shed.
pub fn push_packet(tx: &mut Sender<RelayTransportEvent>, drops: &mut u32, bytes: Vec<u8>) -> (push:
    PacketPush)
    ensures
        exists|waiting: usize|
            #[trigger] may_wait(*old(tx), waiting) && push.free == free_places(
                room_of(*old(tx)),
                waiting,
            ),
        room_of(*final(tx)) == room_of(*old(tx)),
        offers_of(*final(tx)) == offers_of(*old(tx)) + offered(
            packet_events(push.free, *old(drops), bytes@),
            push.outcomes(),
        ),
        match push.report {
            Some((n, _)) => n == *old(drops) && reports(push.free, *old(drops)),
            None => !reports(push.free, *old(drops)),
        },
        *final(drops) == push.drops_after(*old(drops)),
{
    let free: usize = free_slots(queue_capacity(tx), queue_len(tx));
    let events = packet_offers(free, *drops, bytes);
    assert(views(events@).len() == events@.len());
    let outcomes = offer_each(tx, events);
    let (report, packet) = if outcomes.len() == 2 {
        (Some(outcomes[0]), outcomes[1])
    } else {
        (None, outcomes[0])
    };
    let pending: u32 = *drops;
    *drops = drops_left(pending, report, packet);
    let report = match report {
        Some(outcome) => Some((pending, outcome)),
        None => None,
    };
    let push = PacketPush { free, report, packet };
    assert(push.outcomes() =~= outcomes@);
    push
}

/// With room for two, the count is out before the packet: what is left counts
/// nothing that happened before.
pub proof fn reports_clear_the_count(push: PacketPush, drops: u32)
    requires
        push.report matches Some((_, SendOutcome::Sent)),
        push.packet == SendOutcome::Sent,
    ensures
        push.drops_after(drops) == 0,
{
}

/// Every shed packet is counted once: the count that went out and the count
/// that is left together are the count before, and one more for a packet that
/// found no room.
pub proof fn every_shed_packet_is_counted(push: PacketPush, drops: u32)
    requires
        drops < u32::MAX,
        push.report matches Some((n, _)) ==> n == drops,
    ensures
        push.drops_after(drops) + (match push.report {
            Some((n, SendOutcome::Sent)) => n as int,
            _ => 0,
        }) == drops + (if push.packet == SendOutcome::Full {
            1int
        } else {
            0
        }),
{
}

/// What pushing a close came to.
#[derive(Debug, Clone, PartialEq, Eq)]
pub enum ClosePush {
    /// The close waits in the queue.
    Sent,
    /// Nobody reads any more.
    Closed,
    /// The queue could not carry it: the count, where there is one, and then
    /// the close have to be sent as room comes, and then the channel closed.
    Later {
        /// The count.
        report: Option<u32>,
        /// The close.
        event: RelayTransportEvent,
    },
}

/// What pushing a close comes to, without the close itself.
#[derive(Debug, Clone, Copy, PartialEq, Eq, Structural)]
pub enum CloseFate {
    /// It waits in the queue.
    Sent,
    /// Nobody reads any more.
    Closed,
    /// It has to be sent as room comes, behind the count where there is one.
    Later(Option<u32>),
}

impl ClosePush {
    /// What the push came to, without the close itself.
    pub open spec fn fate(self) -> CloseFate {
        match self {
            ClosePush::Sent => CloseFate::Sent,
            ClosePush::Closed => CloseFate::Closed,
            ClosePush::Later { report, .. } => CloseFate::Later(report),
        }
    }
}

/// What a close comes to, given what became of the count ahead of it, where
/// there is one, and of the close, where it was tried. A count that cannot go
/// out holds the close back behind it, so that the order stays.
pub open spec fn close_outcome(
    pending: u32,
    report: SendOutcome,
    close: SendOutcome,
) -> CloseFate {
    if pending > 0 && report != SendOutcome::Sent {
        CloseFate::Later(Some(pending))
    } else {
        match close {
            SendOutcome::Sent => CloseFate::Sent,
            SendOutcome::Full => CloseFate::Later(None),
            SendOutcome::Closed => CloseFate::Closed,
        }
    }
}

/// What a close comes to, given what became of the count and of the close.
pub fn close_fate(pending: u32, report: SendOutcome, close: SendOutcome) -> (fate: CloseFate)
    ensures
        fate == close_outcome(pending, report, close),
{
    if pending > 0 && report != SendOutcome::Sent {
        CloseFate::Later(Some(pending))
    } else {
        match close {
            SendOutcome::Sent => CloseFate::Sent,
            SendOutcome::Full => CloseFate::Later(None),
            SendOutcome::Closed => CloseFate::Closed,
        }
    }
}

/// What is offered for a close, in this order: the count where there is one,
/// and then the close.
pub open spec fn close_events(pending: u32, event: RelayEventView) -> Seq<RelayEventView> {
    if pending > 0 {
        seq![RelayEventView::InboundDropped(pending), event]
    } else {
        seq![event]
    }
}

/// What is offered for a close, front to back.
pub fn close_offers(pending: u32, event: RelayTransportEvent) -> (events: Vec<RelayTransportEvent>)
    ensures
        views(events@) == close_events(pending, event@),
        events@.last() == event,
{
    let mut events: Vec<RelayTransportEvent> = Vec::new();
    if pending > 0 {
        events.push(RelayTransportEvent::InboundDropped(pending));
    }
    events.push(event);
    assert(views(events@) =~= close_events(pending, event@));
    events
}

/// The offers that pushing a close makes: the count where there is one, and
/// then the close, which stays behind a count that was not taken.
pub open spec fn close_log(
    pending: u32,
    event: RelayEventView,
    report: SendOutcome,
    close: SendOutcome,
) -> Seq<(RelayEventView, SendOutcome)> {
    let events = close_events(pending, event);
    if pending == 0 {
        offered(events, seq![close])
    } else if report == SendOutcome::Sent {
        offered(events, seq![report, close])
    } else {
        offered(events.take(1), seq![report])
    }
}

/// Pushes a close, the count ahead of it.
pub fn push_close(
    tx: &mut Sender<RelayTransportEvent>,
    drops: &mut u32,
    event: RelayTransportEvent,
) -> (push: ClosePush)
    ensures
        *final(drops) == 0,
        room_of(*final(tx)) == room_of(*old(tx)),
        exists|report: SendOutcome, close: SendOutcome|
            push.fate() == #[trigger] close_outcome(*old(drops), report, close) && offers_of(
                *final(tx),
            ) == offers_of(*old(tx)) + close_log(*old(drops), event@, report, close),
        push matches ClosePush::Later { event: held, .. } ==> held == event,
{
    let pending: u32 = *drops;
    *drops = 0;
    let events = close_offers(pending, event);
    let ghost all = events@;
    assert(views(all).len() == all.len());
    assert(views(all)[all.len() - 1] == event@);
    match offer_in_turn(tx, events) {
        None => {
            let ghost sent = SendOutcome::Sent;
            assert(taken(views(all)) =~= close_log(pending, event@, sent, sent));
            assert(CloseFate::Sent == close_outcome(pending, sent, sent));
            ClosePush::Sent
        },
        Some(stopped) => {
            let mut left = stopped.left;
            assert(left@.last() == event);
            let (report, close) = if left.len() == 2 {
                (stopped.outcome, SendOutcome::Full)
            } else {
                (SendOutcome::Sent, stopped.outcome)
            };
            proof {
                let n = all.len() - left@.len();
                assert(views(all)[n] == all[n]@);
                assert(taken(views(all.take(n))).push((all[n]@, stopped.outcome)) =~= close_log(
                    pending,
                    event@,
                    report,
                    close,
                ));
            }
            let fate = close_fate(pending, report, close);
            match (fate, left.pop()) {
                (CloseFate::Later(report), Some(event)) => ClosePush::Later { report, event },
                _ => ClosePush::Closed,
            }
        },
    }
}

/// What the host's reason for a close means: a text that says something is a
/// failed read.
pub open spec fn reason_of(reason: Option<Seq<char>>) -> Option<Seq<char>> {
    match reason {
        Some(text) if text.len() > 0 => Some(text),
        _ => None,
    }
}

/// The event of a close that the host reports.
pub fn close_event(reason: Option<String>) -> (event: RelayTransportEvent)
    ensures
        match reason_of(crate::messages::fields::opt_view(reason)) {
            Some(text) => event matches RelayTransportEvent::Disconnected(
                RelayDisconnectReason::ReadError(t),
            ) && t@ == text,
            None => event == RelayTransportEvent::Disconnected(RelayDisconnectReason::Closed),
        },
{
    match reason {
        Some(text) => if text.as_str().unicode_len() > 0 {
            RelayTransportEvent::Disconnected(RelayDisconnectReason::ReadError(text))
        } else {
            RelayTransportEvent::Disconnected(RelayDisconnectReason::Closed)
        },
        None => RelayTransportEvent::Disconnected(RelayDisconnectReason::Closed),
    }
}

/// Where a relay is, and the credentials of the call.
#[derive(Debug, Clone, PartialEq, Eq)]
pub struct RelayEndpointParams {
    /// Its address.
    pub address: String,
    /// Its port.
    pub port: u16,
    /// The user fragment.
    pub ice_ufrag: String,
    /// The password.
    pub ice_pwd: String,
}

impl RelayEndpointParams {
    /// The same call at another address: a migration names an address alone,
    /// and keeps the credentials.
    pub fn migrated(&self, address: String, port: u16) -> (p: Self)
        ensures
            p.address@ == address@,
            p.port == port,
            p.ice_ufrag@ == self.ice_ufrag@,
            p.ice_pwd@ == self.ice_pwd@,
    {
        RelayEndpointParams {
            address,
            port,
            ice_ufrag: self.ice_ufrag.clone(),
            ice_pwd: self.ice_pwd.clone(),
        }
    }
}

} // verus!
