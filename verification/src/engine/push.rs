//! What leaves the engine side unasked: notifications and media, framed.

use vstd::prelude::*;

use crate::engine::call::{pcm_bytes, pcm_payload};
use crate::engine::neutral::{MediaEncodedFrame, MediaEvent, MediaEventView, MediaStats, VideoFrame};
use crate::engine::project::{
    close_reason_to_wire, close_wire, encoded_frame_to_dto, encoded_frame_wire, event_to_wire,
    event_wire, stats_to_wire, stats_wire, video_frame_to_dto, video_frame_wire,
};
use crate::messages::event::{
    AbiEvent, AbiEventView, EventNotification, EventNotificationView,
};
use crate::messages::fields::opt_view;
use crate::messages::media::{
    EncodedAudioOut, EncodedAudioOutView, EncodedFrameDto, MediaFrame, MediaFrameView,
    VideoFrameDto, VideoOut, VideoOutView,
};
use crate::messages::open::{CloseReason, CloseRequest, CloseRequestView, OpenNotification};
use crate::messages::stats::{StatsData, StatsPush};
use crate::protocol::{AbiErrorCode, Frame, FrameView, Opcode};
use crate::session::SessionId;
use crate::wire::Body;

verus! {

/// The bytes of a push: current versions, no flags, and a body.
pub open spec fn pushed<M: Body>(opcode: Opcode, body: M) -> Seq<u8> {
    FrameView::of_request(opcode, body.body()).bytes()
}

/// Builds the push frame for one engine event.
pub fn event_push(session: SessionId, event: AbiEvent) -> (bytes: Vec<u8>)
    ensures
        bytes@ == pushed(Opcode::Event, EventNotificationView { session, event: event@ }),
{
    let payload = EventNotification { session, event }.encode();
    Frame::request(Opcode::Event, payload).encode()
}

/// Builds the push frame for one stats snapshot.
pub fn stats_push(session: SessionId, stats: StatsData) -> (bytes: Vec<u8>)
    ensures
        bytes@ == pushed(Opcode::Stats, StatsPush { session, stats }),
{
    let payload = StatsPush { session, stats }.encode();
    Frame::request(Opcode::Stats, payload).encode()
}

/// Builds the push frame for one decoded PCM frame.
pub fn pcm_push(session: SessionId, seq: u32, data: Vec<u8>) -> (bytes: Vec<u8>)
    ensures
        bytes@ == pushed(Opcode::PcmOut, MediaFrameView { session, seq, data: data@ }),
{
    let payload = MediaFrame { session, seq, data }.encode();
    Frame::request(Opcode::PcmOut, payload).encode()
}

/// Builds the push frame for one encoded packet.
pub fn encoded_push(session: SessionId, seq: u32, frame: EncodedFrameDto) -> (bytes: Vec<u8>)
    ensures
        bytes@ == pushed(
            Opcode::EncodedAudioOut,
            EncodedAudioOutView { session, seq, frame: frame@ },
        ),
{
    let payload = EncodedAudioOut { session, seq, frame }.encode();
    Frame::request(Opcode::EncodedAudioOut, payload).encode()
}

/// Builds the push frame for one video unit.
pub fn video_push(session: SessionId, seq: u32, frame: VideoFrameDto) -> (bytes: Vec<u8>)
    ensures
        bytes@ == pushed(Opcode::VideoOut, VideoOutView { session, seq, frame: frame@ }),
{
    let payload = VideoOut { session, seq, frame }.encode();
    Frame::request(Opcode::VideoOut, payload).encode()
}

/// Builds the push frame for media that ended.
pub fn ended_push(session: SessionId, reason: CloseReason, detail: Option<String>) -> (bytes: Vec<
    u8,
>)
    ensures
        bytes@ == pushed(
            Opcode::MediaEnded,
            CloseRequestView { session, reason, detail: opt_view(detail) },
        ),
{
    let payload = CloseRequest { session, reason, detail }.encode();
    Frame::request(Opcode::MediaEnded, payload).encode()
}

/// Builds the push frame for a session whose setup completed.
pub fn open_push(session: SessionId) -> (bytes: Vec<u8>)
    ensures
        bytes@ == pushed(Opcode::Open, OpenNotification { session }),
{
    let payload = OpenNotification { session }.encode();
    Frame::request(Opcode::Open, payload).encode()
}

/// What a failed setup says: the wire code's name, then the refusal.
pub open spec fn setup_failure(code: AbiErrorCode, rendered: Seq<char>) -> Seq<char> {
    code.name_spec()@ + ": "@ + rendered
}

/// Builds the event for an open that never became a call. The wire code rides
/// beside the detail, so that a transport failure stays one.
pub fn setup_failed_push(session: SessionId, code: AbiErrorCode, rendered: &str) -> (bytes: Vec<u8>)
    ensures
        bytes@ == pushed(
            Opcode::Event,
            EventNotificationView {
                session,
                event: AbiEventView::MediaSetupFailed(setup_failure(code, rendered@)),
            },
        ),
{
    let mut detail = code.name().to_owned();
    detail.push_str(": ");
    detail.push_str(rendered);
    event_push(session, AbiEvent::MediaSetupFailed(detail))
}

/// What one event on the engine's stream becomes.
#[derive(Debug, Clone, PartialEq, Eq)]
pub enum EventOut {
    /// The stream goes on; nothing leaves.
    Nothing,
    /// The stream goes on; this push leaves.
    Push(Vec<u8>),
    /// The call is over: this push leaves, and nothing after it.
    Ended(Vec<u8>),
}

/// [`EventOut`] as values.
pub enum EventOutView {
    Nothing,
    Push(Seq<u8>),
    Ended(Seq<u8>),
}

impl View for EventOut {
    type V = EventOutView;

    open spec fn view(&self) -> EventOutView {
        match *self {
            EventOut::Nothing => EventOutView::Nothing,
            EventOut::Push(b) => EventOutView::Push(b@),
            EventOut::Ended(b) => EventOutView::Ended(b@),
        }
    }
}

/// A close ends the stream through the ended path; an event with a spelling
/// is pushed; the rest is dropped.
pub open spec fn event_out(id: SessionId, event: MediaEventView) -> EventOutView {
    match event {
        MediaEventView::Closed(reason) => {
            let (reason, detail) = close_wire(reason);
            EventOutView::Ended(
                pushed(Opcode::MediaEnded, CloseRequestView { session: id, reason, detail }),
            )
        },
        _ => match event_wire(event) {
            Some(event) => EventOutView::Push(
                pushed(Opcode::Event, EventNotificationView { session: id, event }),
            ),
            None => EventOutView::Nothing,
        },
    }
}

/// Takes one event off the engine's stream.
pub fn fan_event(id: SessionId, event: &MediaEvent) -> (out: EventOut)
    ensures
        out@ == event_out(id, event@),
{
    match event {
        MediaEvent::Closed(reason) => {
            let (wire, detail) = close_reason_to_wire(reason);
            EventOut::Ended(ended_push(id, wire, detail))
        },
        _ => match event_to_wire(event) {
            Some(wire) => EventOut::Push(event_push(id, wire)),
            None => EventOut::Nothing,
        },
    }
}

/// One media stream out of the engine. Its frames are numbered from 0, and
/// the count starts again after the last `u32`.
#[derive(Debug, Clone, Copy, PartialEq, Eq, Structural)]
pub struct MediaFan {
    /// The session the stream belongs to.
    pub id: SessionId,
    /// The number of the next frame.
    pub seq: u32,
}

/// The number after `seq`.
pub open spec fn next_seq(seq: u32) -> u32 {
    if seq == u32::MAX {
        0
    } else {
        (seq + 1) as u32
    }
}

impl MediaFan {
    /// A stream that has carried nothing.
    pub fn new(id: SessionId) -> (f: Self)
        ensures
            f == (MediaFan { id, seq: 0 }),
    {
        MediaFan { id, seq: 0 }
    }

    fn advance(&mut self)
        ensures
            *final(self) == (MediaFan { seq: next_seq(old(self).seq), ..*old(self) }),
    {
        self.seq =
        if self.seq == 0xffff_ffff {
            0
        } else {
            self.seq + 1
        };
    }

    /// The push for the next decoded PCM frame.
    pub fn pcm(&mut self, samples: &Vec<i16>) -> (bytes: Vec<u8>)
        ensures
            bytes@ == pushed(
                Opcode::PcmOut,
                MediaFrameView {
                    session: old(self).id,
                    seq: old(self).seq,
                    data: pcm_payload(samples@),
                },
            ),
            *final(self) == (MediaFan { seq: next_seq(old(self).seq), ..*old(self) }),
    {
        let bytes = pcm_push(self.id, self.seq, pcm_bytes(samples));
        self.advance();
        bytes
    }

    /// The push for the next encoded packet.
    pub fn encoded(&mut self, frame: &MediaEncodedFrame) -> (bytes: Vec<u8>)
        ensures
            bytes@ == pushed(
                Opcode::EncodedAudioOut,
                EncodedAudioOutView {
                    session: old(self).id,
                    seq: old(self).seq,
                    frame: encoded_frame_wire(frame@),
                },
            ),
            *final(self) == (MediaFan { seq: next_seq(old(self).seq), ..*old(self) }),
    {
        let bytes = encoded_push(self.id, self.seq, encoded_frame_to_dto(frame));
        self.advance();
        bytes
    }

    /// The push for the next video unit.
    pub fn video(&mut self, frame: &VideoFrame) -> (bytes: Vec<u8>)
        ensures
            bytes@ == pushed(
                Opcode::VideoOut,
                VideoOutView {
                    session: old(self).id,
                    seq: old(self).seq,
                    frame: video_frame_wire(frame@),
                },
            ),
            *final(self) == (MediaFan { seq: next_seq(old(self).seq), ..*old(self) }),
    {
        let bytes = video_push(self.id, self.seq, video_frame_to_dto(frame));
        self.advance();
        bytes
    }
}

/// The counters fan: what it last pushed.
#[derive(Debug, Clone, Copy, PartialEq, Eq, Structural)]
pub struct StatsFan {
    /// The session the counters belong to.
    pub id: SessionId,
    /// What was last seen.
    pub last: MediaStats,
}

impl StatsFan {
    /// Looks at the published counters: they are pushed when they moved.
    pub fn poll(&mut self, now: MediaStats) -> (push: Option<Vec<u8>>)
        ensures
            *final(self) == (StatsFan { last: now, ..*old(self) }),
            match push {
                Some(bytes) => now != old(self).last && bytes@ == pushed(
                    Opcode::Stats,
                    StatsPush { session: old(self).id, stats: stats_wire(now) },
                ),
                None => now == old(self).last,
            },
    {
        if now != self.last {
            self.last = now;
            Some(stats_push(self.id, stats_to_wire(&now)))
        } else {
            None
        }
    }
}

} // verus!
