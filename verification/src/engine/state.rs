//! The engine module's state, and what each request frame does to it.
//!
//! One request frame in, one response frame out. Where the answer depends on
//! the engine itself, routing names what has to be done first, and the reply
//! is made from its outcome.

use std::collections::HashMap;

use vstd::prelude::*;

use crate::engine::call::{
    video_feed, Intent, IntentView, LiveCall, LiveCallView, MailboxAnswer, VideoFeed,
    VideoFeedView,
};
use crate::engine::opus::encoded_input;
use crate::engine::push::{open_push, pushed, setup_failed_push, setup_failure};
use crate::messages::command::CommandRequest;
use crate::messages::command::CommandRequestView;
use crate::messages::event::{AbiEventView, EventNotificationView};
use crate::messages::fields::opt_view;
use crate::messages::group::{GroupFitsRequest, GroupFitsRequestView, GroupFitsResponse};
use crate::messages::handshake::{HelloRequest, HelloResponse};
use crate::messages::media::{MediaFrame, MediaFrameView, VideoIn, VideoInView};
use crate::messages::open::{
    BeginOpenRequest, BeginOpenRequestView, CancelOpenRequest, CancelOpenResponse, CancelOutcome,
    CloseRequest, CloseRequestView, OpenNotification, OpenParams, OpenParamsView, ReserveRequest,
    ReserveRequestView,
};
use crate::messages::stats::{StatsData, StatsRequest};
use crate::protocol::{AbiErrorCode, Capabilities, Frame, FrameView, Opcode, Role};
use crate::session::{
    reserved, validated, ReservationView, SessionError, SessionId, SessionTable,
};
use crate::wire::{decoded, Body};
use crate::{agreement, negotiate, ABI_MAJOR, ABI_MINOR};

verus! {

broadcast use vstd::std_specs::hash::group_hash_axioms;

/// One engine-side session behind a reserved handle.
#[derive(Debug, Clone, PartialEq, Eq)]
pub struct EngineSession {
    /// The generational identity the core reserved.
    pub id: SessionId,
    /// The call this handle stands for.
    pub call_id: String,
    /// Whether an open is in flight.
    pub opening: bool,
    /// The running call, once its engine was built.
    pub live_call: Option<LiveCall>,
}

/// The values that a [`EngineSession`] carries.
#[verifier::ext_equal]
pub struct EngineSessionView {
    pub id: SessionId,
    pub call_id: Seq<char>,
    pub opening: bool,
    pub live_call: Option<LiveCallView>,
}

impl View for EngineSession {
    type V = EngineSessionView;

    open spec fn view(&self) -> EngineSessionView {
        EngineSessionView {
            id: self.id,
            call_id: self.call_id@,
            opening: self.opening,
            live_call: opt_view(self.live_call),
        }
    }
}

/// What routing asks for beside the reply.
#[allow(inconsistent_fields)]
#[derive(Clone, PartialEq, Eq)]
pub enum Action {
    /// Nothing.
    Nothing,
    /// Build the engine, and report through [`Engine::opened`].
    Open {
        /// Which session.
        session: SessionId,
        /// Which call.
        call_id: String,
        /// What to open it with.
        params: OpenParams,
    },
    /// Put an intent into its mailbox, and reply through [`Engine::sent`].
    Send {
        /// Which session.
        session: SessionId,
        /// What to put where.
        intent: Intent,
    },
    /// Read the counters, and reply through [`stats_reply`].
    ReadStats {
        /// Which session.
        session: SessionId,
    },
    /// Put samples into the microphone mailbox; a full one sheds.
    Mic {
        /// Which session.
        session: SessionId,
        /// The samples.
        samples: Vec<i16>,
    },
    /// Put a packet into the encoded mailbox; a full one sheds.
    Encoded {
        /// Which session.
        session: SessionId,
        /// The packet.
        packet: Vec<u8>,
    },
    /// Put a unit into a video mailbox; a full one sheds.
    Video {
        /// Which session.
        session: SessionId,
        /// The unit.
        feed: VideoFeed,
    },
    /// Drop the running call: its drive task aborts with it.
    Drop {
        /// Which session.
        session: SessionId,
        /// Which call.
        call_id: String,
    },
}

/// The values that a [`Action`] carries.
#[allow(inconsistent_fields)]
#[verifier::ext_equal]
pub enum ActionView {
    Nothing,
    Open { session: SessionId, call_id: Seq<char>, params: OpenParamsView },
    Send { session: SessionId, intent: IntentView },
    ReadStats { session: SessionId },
    Mic { session: SessionId, samples: Seq<i16> },
    Encoded { session: SessionId, packet: Seq<u8> },
    Video { session: SessionId, feed: VideoFeedView },
    Drop { session: SessionId, call_id: Seq<char> },
}

impl View for Action {
    type V = ActionView;

    open spec fn view(&self) -> ActionView {
        match *self {
            Action::Nothing => ActionView::Nothing,
            Action::Open { session, call_id, params } => ActionView::Open { session, call_id: call_id@, params: params@ },
            Action::Send { session, intent } => ActionView::Send { session, intent: intent@ },
            Action::ReadStats { session } => ActionView::ReadStats { session },
            Action::Mic { session, samples } => ActionView::Mic { session, samples: samples@ },
            Action::Encoded { session, packet } => ActionView::Encoded { session, packet: packet@ },
            Action::Video { session, feed } => ActionView::Video { session, feed: feed@ },
            Action::Drop { session, call_id } => ActionView::Drop { session, call_id: call_id@ },
        }
    }
}

/// What a request frame leads to.
#[derive(Clone, PartialEq, Eq)]
pub struct Routed {
    /// The response, unless it has to wait for the action.
    pub reply: Option<Frame>,
    /// What has to be done.
    pub action: Action,
}

/// The values that a [`Routed`] carries.
#[verifier::ext_equal]
pub struct RoutedView {
    pub reply: Option<FrameView>,
    pub action: ActionView,
}

impl View for Routed {
    type V = RoutedView;

    open spec fn view(&self) -> RoutedView {
        RoutedView {
            reply: opt_view(self.reply),
            action: self.action@,
        }
    }
}

/// Capability bits this side offers: everything the engine carries. Relay
/// reconnects stay out: the relay lives on the plugin's transport, which
/// redials out of band, so this side must not promise help it never gives.
pub const ENGINE_CAPABILITIES: u32 = Capabilities::PCM | Capabilities::ENCODED_AUDIO
    | Capabilities::VIDEO | Capabilities::GROUP_CALLS | Capabilities::CALL_LINKS
    | Capabilities::STATS_PUSH;

/// The engine module's mutable state.
#[derive(Debug)]
pub struct Engine {
    agreed_minor: Option<u8>,
    sessions: SessionTable,
    live: HashMap<u32, EngineSession>,
}

/// The values that an [`Engine`] holds: the minor agreed on, the registry of
/// reserved handles, and the sessions behind them.
#[verifier::ext_equal]
pub struct EngineView {
    pub agreed_minor: Option<u8>,
    pub sessions: Map<u32, ReservationView>,
    pub live: Map<u32, EngineSessionView>,
}

impl View for Engine {
    type V = EngineView;

    closed spec fn view(&self) -> EngineView {
        EngineView {
            agreed_minor: self.agreed_minor,
            sessions: self.sessions@,
            live: self.live@.map_values(|s: EngineSession| s@),
        }
    }
}

/// A reply that changes nothing and asks for nothing.
pub open spec fn replied(reply: FrameView) -> RoutedView {
    RoutedView { reply: Some(reply), action: ActionView::Nothing }
}

/// A refusal: an error code and a short detail.
pub open spec fn refusal(req: FrameView, code: AbiErrorCode, detail: Seq<char>) -> RoutedView {
    replied(req.failure(code, Some(detail)))
}

/// Why a session message is refused, as a code and a detail.
pub open spec fn session_refusal(e: SessionError) -> (AbiErrorCode, Seq<char>) {
    match e {
        SessionError::Unknown => (AbiErrorCode::UnknownSession, "session is not reserved"@),
        SessionError::Stale { .. } => (
            AbiErrorCode::StaleGeneration,
            "session generation is not current"@,
        ),
        SessionError::HandleInUse { .. } => (AbiErrorCode::Internal, "session table is confused"@),
    }
}

/// What a request of another major is told.
pub open spec fn major_refusal(opcode: Opcode) -> Seq<char> {
    match opcode {
        Opcode::Hello => "HELLO speaks another major"@,
        _ => "request speaks another major"@,
    }
}

impl EngineView {
    /// A fresh module: nothing agreed, nothing reserved.
    pub open spec fn fresh() -> EngineView {
        EngineView { agreed_minor: None, sessions: Map::empty(), live: Map::empty() }
    }

    /// Every reserved handle has its session, of the same generation and the
    /// same call, and none has a session without being reserved. A session
    /// that runs a call is not opening one, and the call is its own.
    pub open spec fn wf(self) -> bool {
        &&& self.live.dom() =~= self.sessions.dom()
        &&& forall|h: u32| #[trigger]
            self.live.dom().contains(h) ==> {
                let s = self.live[h];
                &&& s.id == (SessionId { handle: h, generation: self.sessions[h].generation })
                &&& s.call_id == self.sessions[h].call_id
                &&& s.live_call matches Some(call) ==> !s.opening && call.id == s.id
            }
    }

    /// The session that a message may touch: reserved, and of exactly this
    /// generation. The refusal otherwise.
    pub open spec fn admitted(self, session: SessionId) -> Result<
        EngineSessionView,
        (AbiErrorCode, Seq<char>),
    > {
        match validated(self.sessions, session) {
            Err(e) => Err(session_refusal(e)),
            Ok(_) => if !self.live.dom().contains(session.handle) {
                Err(session_refusal(SessionError::Unknown))
            } else if self.live[session.handle].id.generation != session.generation {
                Err(session_refusal(SessionError::Stale { current: 0 }))
            } else {
                Ok(self.live[session.handle])
            },
        }
    }

    /// The state with one session replaced.
    pub open spec fn with(self, handle: u32, session: EngineSessionView) -> EngineView {
        EngineView { live: self.live.insert(handle, session), ..self }
    }

    /// `HELLO`: only the core may ask.
    pub open spec fn on_hello(self, req: FrameView) -> (EngineView, RoutedView) {
        match decoded::<HelloRequest>(req.payload) {
            Err(_) => (self, refusal(req, AbiErrorCode::BadPayload, "HELLO misformed"@)),
            Ok(hello) => if hello.role != Role::Core {
                (self, refusal(req, AbiErrorCode::BadPayload, "HELLO role is not core"@))
            } else {
                (
                    EngineView { agreed_minor: Some(hello_cap_minor_spec(req.minor)), ..self },
                    replied(
                        req.response(HelloResponse { capabilities: ENGINE_CAPABILITIES }.body()),
                    ),
                )
            },
        }
    }

    /// `RESERVE`: a free handle is bound, a reserved one stays with its
    /// holder.
    pub open spec fn on_reserve(self, req: FrameView) -> (EngineView, RoutedView) {
        match decoded::<ReserveRequestView>(req.payload) {
            Err(_) => (self, refusal(req, AbiErrorCode::BadPayload, "RESERVE misformed"@)),
            Ok(r) => if self.sessions.dom().contains(r.session.handle) {
                (
                    self,
                    refusal(
                        req,
                        AbiErrorCode::Internal,
                        "session handle still reserved; close it first"@,
                    ),
                )
            } else {
                (
                    EngineView {
                        sessions: reserved(self.sessions, r.session, r.call_id),
                        live: self.live.insert(
                            r.session.handle,
                            EngineSessionView {
                                id: r.session,
                                call_id: r.call_id,
                                opening: false,
                                live_call: None,
                            },
                        ),
                        ..self
                    },
                    replied(req.response(Seq::empty())),
                )
            },
        }
    }

    /// `BEGIN_OPEN`: the ack means that setup started; a second open of the
    /// same session is busy.
    pub open spec fn on_begin_open(self, req: FrameView) -> (EngineView, RoutedView) {
        match decoded::<BeginOpenRequestView>(req.payload) {
            Err(_) => (self, refusal(req, AbiErrorCode::BadPayload, "BEGIN_OPEN misformed"@)),
            Ok(begin) => match self.admitted(begin.session) {
                Err((code, detail)) => (self, refusal(req, code, detail)),
                Ok(s) => if s.opening || s.live_call is Some {
                    (self, refusal(req, AbiErrorCode::Busy, "open already in flight"@))
                } else {
                    (
                        self.with(
                            begin.session.handle,
                            EngineSessionView { opening: true, ..s },
                        ),
                        RoutedView {
                            reply: Some(req.response(Seq::empty())),
                            action: ActionView::Open {
                                session: begin.session,
                                call_id: s.call_id,
                                params: begin.params,
                            },
                        },
                    )
                },
            },
        }
    }

    /// `CANCEL_OPEN`: the ack says what the abort found.
    pub open spec fn on_cancel_open(self, req: FrameView) -> (EngineView, RoutedView) {
        match decoded::<CancelOpenRequest>(req.payload) {
            Err(_) => (self, refusal(req, AbiErrorCode::BadPayload, "CANCEL_OPEN misformed"@)),
            Ok(cancel) => match validated(self.sessions, cancel.session) {
                Err(e) => (self, refusal(req, session_refusal(e).0, session_refusal(e).1)),
                Ok(_) => match self.admitted(cancel.session) {
                    Err(_) => (self, cancel_reply(req, CancelOutcome::Unknown)),
                    Ok(s) => if s.opening {
                        (
                            self.with(
                                cancel.session.handle,
                                EngineSessionView { opening: false, ..s },
                            ),
                            cancel_reply(req, CancelOutcome::Aborted),
                        )
                    } else if s.live_call is Some {
                        (self, cancel_reply(req, CancelOutcome::AlreadyOpen))
                    } else {
                        (self, cancel_reply(req, CancelOutcome::Unknown))
                    },
                },
            },
        }
    }

    /// `COMMAND`: a call that runs takes it, one that does not is busy.
    pub open spec fn on_command(self, req: FrameView) -> (EngineView, RoutedView) {
        match decoded::<CommandRequestView>(req.payload) {
            Err(_) => (self, refusal(req, AbiErrorCode::BadPayload, "COMMAND misformed"@)),
            Ok(cmd) => match self.admitted(cmd.session) {
                Err((code, detail)) => (self, refusal(req, code, detail)),
                Ok(s) => match s.live_call {
                    None => (self, refusal(req, AbiErrorCode::Busy, "call is not open"@)),
                    Some(call) => (
                        self.with(
                            cmd.session.handle,
                            EngineSessionView {
                                live_call: Some(call.commanded(cmd.command)),
                                ..s
                            },
                        ),
                        match call.intent(cmd.command) {
                            IntentView::Settled(accepted) => replied(
                                command_reply_spec(req, accepted),
                            ),
                            intent => RoutedView {
                                reply: None,
                                action: ActionView::Send { session: cmd.session, intent },
                            },
                        },
                    ),
                },
            },
        }
    }

    /// `GROUP_FITS`: a live group plane admits, a one-to-one call does not.
    pub open spec fn on_group_fits(self, req: FrameView) -> (EngineView, RoutedView) {
        match decoded::<GroupFitsRequestView>(req.payload) {
            Err(_) => (self, refusal(req, AbiErrorCode::BadPayload, "GROUP_FITS misformed"@)),
            Ok(fits) => match self.admitted(fits.session) {
                Err((code, detail)) => (self, refusal(req, code, detail)),
                Ok(s) => match s.live_call {
                    None => (self, refusal(req, AbiErrorCode::Busy, "call is not open"@)),
                    Some(call) => (
                        self,
                        replied(
                            req.response(
                                GroupFitsResponse {
                                    fits: if call.has_group {
                                        1
                                    } else {
                                        0
                                    },
                                    limit: 0,
                                }.body(),
                            ),
                        ),
                    ),
                },
            },
        }
    }

    /// `CLOSE`: the session and its call go. Closing what is already gone is
    /// no error; a stale generation touches nothing.
    pub open spec fn on_close(self, req: FrameView) -> (EngineView, RoutedView) {
        match decoded::<CloseRequestView>(req.payload) {
            Err(_) => (self, refusal(req, AbiErrorCode::BadPayload, "CLOSE misformed"@)),
            Ok(close) => match validated(self.sessions, close.session) {
                Err(SessionError::Unknown) => (self, replied(req.response(Seq::empty()))),
                Err(e) => (self, refusal(req, session_refusal(e).0, session_refusal(e).1)),
                Ok(_) => (
                    EngineView {
                        sessions: self.sessions.remove(close.session.handle),
                        live: self.live.remove(close.session.handle),
                        ..self
                    },
                    RoutedView {
                        reply: Some(req.response(Seq::empty())),
                        action: if self.live.dom().contains(close.session.handle) {
                            match self.live[close.session.handle].live_call {
                                Some(call) => ActionView::Drop {
                                    session: call.id,
                                    call_id: call.call_id,
                                },
                                None => ActionView::Nothing,
                            }
                        } else {
                            ActionView::Nothing
                        },
                    },
                ),
            },
        }
    }

    /// `STATS`: a running call's counters, or zeroes.
    pub open spec fn on_stats(self, req: FrameView) -> (EngineView, RoutedView) {
        match decoded::<StatsRequest>(req.payload) {
            Err(_) => (self, refusal(req, AbiErrorCode::BadPayload, "STATS misformed"@)),
            Ok(poll) => match validated(self.sessions, poll.session) {
                Err(e) => (self, refusal(req, session_refusal(e).0, session_refusal(e).1)),
                Ok(_) => match self.admitted(poll.session) {
                    Ok(s) if s.live_call is Some => (
                        self,
                        RoutedView {
                            reply: None,
                            action: ActionView::ReadStats { session: poll.session },
                        },
                    ),
                    _ => (self, replied(req.response(zero_stats_spec().body()))),
                },
            },
        }
    }

    /// `PCM_IN` and `ENCODED_AUDIO_IN`: acknowledged for every session that is
    /// current, and fed to a call that runs.
    pub open spec fn on_audio_in(self, req: FrameView) -> (EngineView, RoutedView) {
        match decoded::<MediaFrameView>(req.payload) {
            Err(_) => (self, refusal(req, AbiErrorCode::BadPayload, "media frame misformed"@)),
            Ok(frame) => match self.admitted(frame.session) {
                Err((code, detail)) => (self, refusal(req, code, detail)),
                Ok(s) => (
                    self,
                    RoutedView {
                        reply: Some(req.response(Seq::empty())),
                        action: match s.live_call {
                            None => ActionView::Nothing,
                            Some(call) => if req.opcode == Opcode::PcmIn {
                                match call.mic(frame.data) {
                                    Some(samples) => ActionView::Mic {
                                        session: frame.session,
                                        samples,
                                    },
                                    None => ActionView::Nothing,
                                }
                            } else {
                                match encoded_input(frame.data, call.opus_mlow_escape) {
                                    Some(packet) => ActionView::Encoded {
                                        session: frame.session,
                                        packet,
                                    },
                                    None => ActionView::Nothing,
                                }
                            },
                        },
                    },
                ),
            },
        }
    }

    /// `VIDEO_IN`: acknowledged for every session that is current, and fed to
    /// a call that runs.
    pub open spec fn on_video_in(self, req: FrameView) -> (EngineView, RoutedView) {
        match decoded::<VideoInView>(req.payload) {
            Err(_) => (self, refusal(req, AbiErrorCode::BadPayload, "media frame misformed"@)),
            Ok(frame) => match self.admitted(frame.session) {
                Err((code, detail)) => (self, refusal(req, code, detail)),
                Ok(s) => (
                    self,
                    RoutedView {
                        reply: Some(req.response(Seq::empty())),
                        action: match s.live_call {
                            None => ActionView::Nothing,
                            Some(_) => ActionView::Video {
                                session: frame.session,
                                feed: video_feed(frame.input),
                            },
                        },
                    },
                ),
            },
        }
    }

    /// What a request frame does. One of another major is refused before
    /// anything in it is read.
    pub open spec fn routed(self, req: FrameView) -> (EngineView, RoutedView) {
        if req.major != ABI_MAJOR {
            (self, refusal(req, AbiErrorCode::BadVersion, major_refusal(req.opcode)))
        } else {
            self.dispatched(req)
        }
    }

    /// What a request frame of this major does, by its opcode. A push opcode is
    /// no request.
    pub open spec fn dispatched(self, req: FrameView) -> (EngineView, RoutedView) {
        match req.opcode {
            Opcode::Hello => self.on_hello(req),
            Opcode::Reserve => self.on_reserve(req),
            Opcode::BeginOpen => self.on_begin_open(req),
            Opcode::CancelOpen => self.on_cancel_open(req),
            Opcode::Command => self.on_command(req),
            Opcode::GroupFits => self.on_group_fits(req),
            Opcode::Close => self.on_close(req),
            Opcode::Stats => self.on_stats(req),
            Opcode::PcmIn => self.on_audio_in(req),
            Opcode::EncodedAudioIn => self.on_audio_in(req),
            Opcode::VideoIn => self.on_video_in(req),
            _ => (self, refusal(req, AbiErrorCode::BadPayload, "push opcode sent as request"@)),
        }
    }

    /// The state once an open's outcome is known. Only the session that still
    /// waits for it takes the call; one that was cancelled, closed or replaced
    /// meanwhile does not.
    pub open spec fn opened(self, session: SessionId, call: Option<LiveCallView>) -> EngineView {
        if self.awaits(session) {
            let s = self.live[session.handle];
            self.with(
                session.handle,
                EngineSessionView { opening: false, live_call: call, ..s },
            )
        } else {
            self
        }
    }

    /// Whether a session waits for the outcome of its open.
    pub open spec fn awaits(self, session: SessionId) -> bool {
        &&& self.live.dom().contains(session.handle)
        &&& self.live[session.handle].id.generation == session.generation
        &&& self.live[session.handle].opening
    }

    /// The state once a mailbox answered an intent.
    pub open spec fn answered(
        self,
        session: SessionId,
        intent: IntentView,
        answer: MailboxAnswer,
    ) -> EngineView {
        match self.admitted(session) {
            Ok(s) => match s.live_call {
                Some(call) => self.with(
                    session.handle,
                    EngineSessionView { live_call: Some(call.answered(intent, answer)), ..s },
                ),
                None => self,
            },
            Err(_) => self,
        }
    }
}

/// The minor the two sides speak: the lower of the two.
pub open spec fn hello_cap_minor_spec(peer_minor: u8) -> u8 {
    if peer_minor < ABI_MINOR {
        peer_minor
    } else {
        ABI_MINOR
    }
}

/// The reply to a cancelled open.
pub open spec fn cancel_reply(req: FrameView, outcome: CancelOutcome) -> RoutedView {
    replied(req.response(CancelOpenResponse { outcome }.body()))
}

/// The reply to a command that was taken or refused.
pub open spec fn command_reply_spec(req: FrameView, accepted: bool) -> FrameView {
    if accepted {
        req.response(Seq::empty())
    } else {
        req.failure(AbiErrorCode::Busy, Some("command refused"@))
    }
}

/// Counters of a call that has counted nothing.
pub open spec fn zero_stats_spec() -> StatsData {
    StatsData {
        rtp_received: 0,
        rtp_payload_type_unexpected: 0,
        srtp_unprotect_failed: 0,
        sframe_decrypt_failed: 0,
        audio_frames_decoded: 0,
        audio_frames_delivered: 0,
        audio_frames_concealed: 0,
        mlow_off_point_dropped: 0,
        mlow_inactive_or_sid: 0,
        foreign_frames_decoded: 0,
        audio_frames_without_decoder: 0,
        outbound_frames_without_encoder: 0,
        playout_trimmed_samples: 0,
        inbound_pipe_dropped: 0,
        audio_sink_dropped: 0,
        video_sink_dropped: 0,
        peer_keyframe_requests: 0,
        relay_packet_unclassified: 0,
        forwarding_envelope_rejected: 0,
        codec_switches: 0,
    }
}

/// Zero counters: the shape the core caches, with no counters invented.
pub fn zero_stats() -> (s: StatsData)
    ensures
        s == zero_stats_spec(),
{
    StatsData {
        rtp_received: 0,
        rtp_payload_type_unexpected: 0,
        srtp_unprotect_failed: 0,
        sframe_decrypt_failed: 0,
        audio_frames_decoded: 0,
        audio_frames_delivered: 0,
        audio_frames_concealed: 0,
        mlow_off_point_dropped: 0,
        mlow_inactive_or_sid: 0,
        foreign_frames_decoded: 0,
        audio_frames_without_decoder: 0,
        outbound_frames_without_encoder: 0,
        playout_trimmed_samples: 0,
        inbound_pipe_dropped: 0,
        audio_sink_dropped: 0,
        video_sink_dropped: 0,
        peer_keyframe_requests: 0,
        relay_packet_unclassified: 0,
        forwarding_envelope_rejected: 0,
        codec_switches: 0,
    }
}

/// The minor the two sides speak: the lower of the two, whose reader both
/// sides already satisfy by ignoring trailing bytes.
fn hello_cap_minor(peer_minor: u8) -> (m: u8)
    ensures
        m == hello_cap_minor_spec(peer_minor),
{
    if peer_minor < ABI_MINOR {
        peer_minor
    } else {
        ABI_MINOR
    }
}

/// The reply to a command once its mailbox answered.
pub fn command_reply(req: &Frame, accepted: bool) -> (f: Frame)
    ensures
        f@ == command_reply_spec(req@, accepted),
{
    if accepted {
        Frame::respond(req, Vec::new())
    } else {
        Frame::fail(req, AbiErrorCode::Busy, Some("command refused"))
    }
}

/// The reply to a stats poll once the counters were read.
pub fn stats_reply(req: &Frame, stats: &StatsData) -> (f: Frame)
    ensures
        f@ == req@.response(stats.body()),
{
    Frame::respond(req, stats.encode())
}

fn reply(f: Frame) -> (r: Routed)
    ensures
        r@ == replied(f@),
{
    Routed { reply: Some(f), action: Action::Nothing }
}

fn refuse(req: &Frame, code: AbiErrorCode, detail: &str) -> (r: Routed)
    ensures
        r@ == refusal(req@, code, detail@),
{
    reply(Frame::fail(req, code, Some(detail)))
}

/// Maps a session-table refusal onto the wire grammar: unknown handles and
/// stale generations both fail, and only an exact generation passes.
fn session_error(e: SessionError) -> (r: (AbiErrorCode, &'static str))
    ensures
        (r.0, r.1@) == session_refusal(e),
{
    match e {
        SessionError::Unknown => (AbiErrorCode::UnknownSession, "session is not reserved"),
        SessionError::Stale { .. } => (
            AbiErrorCode::StaleGeneration,
            "session generation is not current",
        ),
        SessionError::HandleInUse { .. } => (AbiErrorCode::Internal, "session table is confused"),
    }
}

impl Engine {
    /// A fresh module.
    pub fn new() -> (e: Self)
        ensures
            e@ == EngineView::fresh(),
            e@.wf(),
    {
        let e = Engine { agreed_minor: None, sessions: SessionTable::new(), live: HashMap::new() };
        assert(e@.live =~= Map::empty());
        e
    }

    /// The minor both sides agreed to speak, once the handshake ran.
    pub fn agreed_minor(&self) -> (m: Option<u8>)
        ensures
            m == self@.agreed_minor,
    {
        self.agreed_minor
    }

    /// Whether the session behind a handle runs a call.
    pub fn is_live(&self, handle: u32) -> (b: bool)
        ensures
            b == (self@.live.dom().contains(handle) && self@.live[handle].live_call is Some),
    {
        match self.live.get(&handle) {
            Some(s) => s.live_call.is_some(),
            None => false,
        }
    }

    fn current(&self, session: SessionId) -> (res: Result<&EngineSession, (AbiErrorCode, &'static str)>)
        ensures
            match (res, self@.admitted(session)) {
                (Ok(s), Ok(m)) => s@ == m,
                (Err((code, detail)), Err(m)) => (code, detail@) == m,
                _ => false,
            },
    {
        match self.sessions.validate(session) {
            Err(e) => Err(session_error(e)),
            Ok(_) => match self.live.get(&session.handle) {
                None => Err(session_error(SessionError::Unknown)),
                Some(s) => if s.id.generation != session.generation {
                    Err(session_error(SessionError::Stale { current: 0 }))
                } else {
                    Ok(s)
                },
            },
        }
    }

    fn put(&mut self, handle: u32, session: EngineSession)
        ensures
            final(self)@ == old(self)@.with(handle, session@),
    {
        self.live.insert(handle, session);
        assert(self@.live =~= old(self)@.live.insert(handle, session@));
    }

    /// The handshake: the version gate runs before anything else exists. A
    /// major mismatch fails here, with no session and no engine. Returns the
    /// capabilities of this side.
    pub fn init(&mut self, abi_major: u32, abi_minor: u32) -> (res: Result<Vec<u8>, String>)
        ensures
            match res {
                Ok(payload) => {
                    &&& abi_minor <= u8::MAX
                    &&& abi_major <= u8::MAX
                    &&& agreement(abi_major as u8, abi_minor as u8, ABI_MINOR) matches Ok(agreed)
                        && final(self)@ == (EngineView {
                        agreed_minor: Some(agreed.minor),
                        ..old(self)@
                    })
                    &&& payload@ == HelloResponse { capabilities: ENGINE_CAPABILITIES }.body()
                },
                Err(e) => {
                    &&& final(self)@ == old(self)@
                    &&& e@ == if abi_major > u8::MAX {
                        "voip ABI major out of range"@
                    } else if abi_minor > u8::MAX {
                        "voip ABI minor out of range"@
                    } else {
                        "voip ABI handshake refused: "@ + agreement(
                            abi_major as u8,
                            abi_minor as u8,
                            ABI_MINOR,
                        )->Err_0.text()
                    }
                    &&& abi_major != ABI_MAJOR || abi_minor > u8::MAX
                },
            },
    {
        if abi_major > 0xff {
            return Err("voip ABI major out of range".to_owned());
        }
        if abi_minor > 0xff {
            return Err("voip ABI minor out of range".to_owned());
        }
        match negotiate(abi_major as u8, abi_minor as u8, ABI_MINOR) {
            Err(e) => {
                let mut s = "voip ABI handshake refused: ".to_owned();
                s.push_str(e.message().as_str());
                Err(s)
            },
            Ok(agreed) => {
                self.agreed_minor = Some(agreed.minor);
                Ok(HelloResponse { capabilities: ENGINE_CAPABILITIES }.encode())
            },
        }
    }

    /// One request frame in: the frame that was read, and what it leads to.
    /// Bytes that are no frame touch nothing.
    pub fn send_frame(&mut self, frame: &[u8]) -> (res: Result<(Frame, Routed), String>)
        requires
            old(self)@.wf(),
        ensures
            final(self)@.wf(),
            match FrameView::of_bytes(frame@) {
                Ok(req) => res matches Ok((f, routed)) && f@ == req && (final(self)@, routed@)
                    == old(self)@.routed(req),
                Err(e) => res matches Err(text) && text@ == "voip frame misframed: "@ + e.text()
                    && final(self)@ == old(self)@,
            },
    {
        match Frame::decode(frame) {
            Err(e) => {
                let mut s = "voip frame misframed: ".to_owned();
                s.push_str(e.message().as_str());
                Err(s)
            },
            Ok(req) => {
                let routed = self.route(&req);
                Ok((req, routed))
            },
        }
    }

    /// Routes one decoded request to its handler, once its major is known to
    /// be this side's.
    pub fn route(&mut self, req: &Frame) -> (r: Routed)
        requires
            old(self)@.wf(),
        ensures
            (final(self)@, r@) == old(self)@.routed(req@),
            final(self)@.wf(),
    {
        if req.major != ABI_MAJOR {
            let detail = match req.opcode {
                Opcode::Hello => "HELLO speaks another major",
                _ => "request speaks another major",
            };
            return refuse(req, AbiErrorCode::BadVersion, detail);
        }
        match req.opcode {
            Opcode::Hello => self.on_hello(req),
            Opcode::Reserve => self.on_reserve(req),
            Opcode::BeginOpen => self.on_begin_open(req),
            Opcode::CancelOpen => self.on_cancel_open(req),
            Opcode::Command => self.on_command(req),
            Opcode::GroupFits => self.on_group_fits(req),
            Opcode::Close => self.on_close(req),
            Opcode::Stats => self.on_stats(req),
            Opcode::PcmIn | Opcode::EncodedAudioIn => self.on_audio_in(req),
            Opcode::VideoIn => self.on_video_in(req),
            _ => refuse(req, AbiErrorCode::BadPayload, "push opcode sent as request"),
        }
    }

    fn on_hello(&mut self, req: &Frame) -> (r: Routed)
        requires
            old(self)@.wf(),
        ensures
            (final(self)@, r@) == old(self)@.on_hello(req@),
            final(self)@.wf(),
    {
        match HelloRequest::decode(req.payload.as_slice()) {
            Err(_) => refuse(req, AbiErrorCode::BadPayload, "HELLO misformed"),
            Ok(hello) => if hello.role != Role::Core {
                refuse(req, AbiErrorCode::BadPayload, "HELLO role is not core")
            } else {
                self.agreed_minor = Some(hello_cap_minor(req.minor));
                reply(
                    Frame::respond(
                        req,
                        HelloResponse { capabilities: ENGINE_CAPABILITIES }.encode(),
                    ),
                )
            },
        }
    }

    fn on_reserve(&mut self, req: &Frame) -> (r: Routed)
        requires
            old(self)@.wf(),
        ensures
            (final(self)@, r@) == old(self)@.on_reserve(req@),
            final(self)@.wf(),
    {
        let reserve = match ReserveRequest::decode(req.payload.as_slice()) {
            Err(_) => {
                return refuse(req, AbiErrorCode::BadPayload, "RESERVE misformed");
            },
            Ok(reserve) => reserve,
        };
        match self.sessions.reserve(reserve.session, reserve.call_id.as_str()) {
            Err(_) => refuse(
                req,
                AbiErrorCode::Internal,
                "session handle still reserved; close it first",
            ),
            Ok(()) => {
                self.put(
                    reserve.session.handle,
                    EngineSession {
                        id: reserve.session,
                        call_id: reserve.call_id,
                        opening: false,
                        live_call: None,
                    },
                );
                reply(Frame::respond(req, Vec::new()))
            },
        }
    }

    fn on_begin_open(&mut self, req: &Frame) -> (r: Routed)
        requires
            old(self)@.wf(),
        ensures
            (final(self)@, r@) == old(self)@.on_begin_open(req@),
            final(self)@.wf(),
    {
        let begin = match BeginOpenRequest::decode(req.payload.as_slice()) {
            Err(_) => {
                return refuse(req, AbiErrorCode::BadPayload, "BEGIN_OPEN misformed");
            },
            Ok(begin) => begin,
        };
        let (id, call_id) = match self.current(begin.session) {
            Err((code, detail)) => {
                return refuse(req, code, detail);
            },
            Ok(s) => {
                if s.opening || s.live_call.is_some() {
                    return refuse(req, AbiErrorCode::Busy, "open already in flight");
                }
                (s.id, s.call_id.clone())
            },
        };
        self.put(
            begin.session.handle,
            EngineSession { id, call_id: call_id.clone(), opening: true, live_call: None },
        );
        Routed {
            reply: Some(Frame::respond(req, Vec::new())),
            action: Action::Open { session: begin.session, call_id, params: begin.params },
        }
    }

    fn on_cancel_open(&mut self, req: &Frame) -> (r: Routed)
        requires
            old(self)@.wf(),
        ensures
            (final(self)@, r@) == old(self)@.on_cancel_open(req@),
            final(self)@.wf(),
    {
        let cancel = match CancelOpenRequest::decode(req.payload.as_slice()) {
            Err(_) => {
                return refuse(req, AbiErrorCode::BadPayload, "CANCEL_OPEN misformed");
            },
            Ok(cancel) => cancel,
        };
        match self.sessions.validate(cancel.session) {
            Err(e) => {
                let (code, detail) = session_error(e);
                return refuse(req, code, detail);
            },
            Ok(_) => {},
        }
        let outcome = match self.current(cancel.session) {
            Err(_) => CancelOutcome::Unknown,
            Ok(s) => if s.opening {
                CancelOutcome::Aborted
            } else if s.live_call.is_some() {
                CancelOutcome::AlreadyOpen
            } else {
                CancelOutcome::Unknown
            },
        };
        if outcome == CancelOutcome::Aborted {
            match self.live.remove(&cancel.session.handle) {
                Some(s) => {
                    self.live.insert(cancel.session.handle, EngineSession { opening: false, ..s });
                    assert(self@.live =~= old(self)@.live.insert(
                        cancel.session.handle,
                        EngineSession { opening: false, ..s }@,
                    ));
                },
                None => {},
            }
        }
        reply(Frame::respond(req, CancelOpenResponse { outcome }.encode()))
    }

    fn on_command(&mut self, req: &Frame) -> (r: Routed)
        requires
            old(self)@.wf(),
        ensures
            (final(self)@, r@) == old(self)@.on_command(req@),
            final(self)@.wf(),
    {
        let cmd = match CommandRequest::decode(req.payload.as_slice()) {
            Err(_) => {
                return refuse(req, AbiErrorCode::BadPayload, "COMMAND misformed");
            },
            Ok(cmd) => cmd,
        };
        match self.current(cmd.session) {
            Err((code, detail)) => {
                return refuse(req, code, detail);
            },
            Ok(s) => {
                if s.live_call.is_none() {
                    return refuse(req, AbiErrorCode::Busy, "call is not open");
                }
            },
        }
        match self.live.remove(&cmd.session.handle) {
            Some(EngineSession { id, call_id, opening, live_call: Some(call) }) => {
                let mut call = call;
                let intent = call.command(cmd.command);
                let session = EngineSession { id, call_id, opening, live_call: Some(call) };
                let ghost after = session@;
                self.live.insert(cmd.session.handle, session);
                assert(self@.live =~= old(self)@.live.insert(cmd.session.handle, after));
                match intent {
                    Intent::Settled(accepted) => reply(command_reply(req, accepted)),
                    intent => Routed {
                        reply: None,
                        action: Action::Send { session: cmd.session, intent },
                    },
                }
            },
            _ => refuse(req, AbiErrorCode::Busy, "call is not open"),
        }
    }

    fn on_group_fits(&mut self, req: &Frame) -> (r: Routed)
        requires
            old(self)@.wf(),
        ensures
            (final(self)@, r@) == old(self)@.on_group_fits(req@),
            final(self)@.wf(),
    {
        match GroupFitsRequest::decode(req.payload.as_slice()) {
            Err(_) => refuse(req, AbiErrorCode::BadPayload, "GROUP_FITS misformed"),
            Ok(fits) => match self.current(fits.session) {
                Err((code, detail)) => refuse(req, code, detail),
                Ok(s) => match &s.live_call {
                    None => refuse(req, AbiErrorCode::Busy, "call is not open"),
                    Some(call) => {
                        let (fits, limit) = call.group_fits(&fits.update);
                        reply(Frame::respond(req, GroupFitsResponse { fits, limit }.encode()))
                    },
                },
            },
        }
    }

    fn on_close(&mut self, req: &Frame) -> (r: Routed)
        requires
            old(self)@.wf(),
        ensures
            (final(self)@, r@) == old(self)@.on_close(req@),
            final(self)@.wf(),
    {
        let close = match CloseRequest::decode(req.payload.as_slice()) {
            Err(_) => {
                return refuse(req, AbiErrorCode::BadPayload, "CLOSE misformed");
            },
            Ok(close) => close,
        };
        match self.sessions.validate(close.session) {
            Err(SessionError::Unknown) => {
                return reply(Frame::respond(req, Vec::new()));
            },
            Err(e) => {
                let (code, detail) = session_error(e);
                return refuse(req, code, detail);
            },
            Ok(_) => {},
        }
        let action = match self.live.remove(&close.session.handle) {
            Some(EngineSession { live_call: Some(call), .. }) => {
                let (session, call_id) = call.close();
                Action::Drop { session, call_id }
            },
            _ => Action::Nothing,
        };
        self.sessions.remove(close.session.handle);
        assert(self@.live =~= old(self)@.live.remove(close.session.handle));
        Routed { reply: Some(Frame::respond(req, Vec::new())), action }
    }

    fn on_stats(&mut self, req: &Frame) -> (r: Routed)
        requires
            old(self)@.wf(),
        ensures
            (final(self)@, r@) == old(self)@.on_stats(req@),
            final(self)@.wf(),
    {
        let poll = match StatsRequest::decode(req.payload.as_slice()) {
            Err(_) => {
                return refuse(req, AbiErrorCode::BadPayload, "STATS misformed");
            },
            Ok(poll) => poll,
        };
        match self.sessions.validate(poll.session) {
            Err(e) => {
                let (code, detail) = session_error(e);
                return refuse(req, code, detail);
            },
            Ok(_) => {},
        }
        match self.current(poll.session) {
            Ok(s) => if s.live_call.is_some() {
                return Routed {
                    reply: None,
                    action: Action::ReadStats { session: poll.session },
                };
            },
            Err(_) => {},
        }
        let zero = zero_stats();
        reply(stats_reply(req, &zero))
    }

    fn on_audio_in(&mut self, req: &Frame) -> (r: Routed)
        requires
            old(self)@.wf(),
        ensures
            (final(self)@, r@) == old(self)@.on_audio_in(req@),
            final(self)@.wf(),
    {
        match MediaFrame::decode(req.payload.as_slice()) {
            Err(_) => refuse(req, AbiErrorCode::BadPayload, "media frame misformed"),
            Ok(frame) => match self.current(frame.session) {
                Err((code, detail)) => refuse(req, code, detail),
                Ok(s) => {
                    let action = match &s.live_call {
                        None => Action::Nothing,
                        Some(call) => if req.opcode == Opcode::PcmIn {
                            match call.pcm_in(&frame) {
                                Some(samples) => Action::Mic { session: frame.session, samples },
                                None => Action::Nothing,
                            }
                        } else {
                            match call.encoded_in(frame.data.as_slice()) {
                                Some(packet) => Action::Encoded { session: frame.session, packet },
                                None => Action::Nothing,
                            }
                        },
                    };
                    Routed { reply: Some(Frame::respond(req, Vec::new())), action }
                },
            },
        }
    }

    fn on_video_in(&mut self, req: &Frame) -> (r: Routed)
        requires
            old(self)@.wf(),
        ensures
            (final(self)@, r@) == old(self)@.on_video_in(req@),
            final(self)@.wf(),
    {
        match VideoIn::decode(req.payload.as_slice()) {
            Err(_) => refuse(req, AbiErrorCode::BadPayload, "media frame misformed"),
            Ok(frame) => match self.current(frame.session) {
                Err((code, detail)) => refuse(req, code, detail),
                Ok(s) => {
                    let action = match &s.live_call {
                        None => Action::Nothing,
                        Some(call) => Action::Video {
                            session: frame.session,
                            feed: call.video_in(&frame.input),
                        },
                    };
                    Routed { reply: Some(Frame::respond(req, Vec::new())), action }
                },
            },
        }
    }

    /// Takes the outcome of an open: the running call, or the refusal as a
    /// code and a text. The push that reports it is returned where the
    /// session still waits for it; a cancelled, closed or replaced one drops
    /// the outcome without a word.
    pub fn opened(
        &mut self,
        session: SessionId,
        outcome: Result<LiveCall, (AbiErrorCode, String)>,
    ) -> (push: Option<Vec<u8>>)
        requires
            old(self)@.wf(),
            outcome matches Ok(call) ==> call@.id == session,
        ensures
            final(self)@.wf(),
            final(self)@ == old(self)@.opened(
                session,
                match outcome {
                    Ok(call) => Some(call@),
                    Err(_) => None,
                },
            ),
            match push {
                None => !old(self)@.awaits(session),
                Some(bytes) => old(self)@.awaits(session) && bytes@ == match outcome {
                    Ok(_) => pushed(Opcode::Open, OpenNotification { session }),
                    Err((code, rendered)) => pushed(
                        Opcode::Event,
                        EventNotificationView {
                            session,
                            event: AbiEventView::MediaSetupFailed(
                                setup_failure(code, rendered@),
                            ),
                        },
                    ),
                },
            },
    {
        let waits = match self.live.get(&session.handle) {
            Some(s) => s.id.generation == session.generation && s.opening,
            None => false,
        };
        if !waits {
            return None;
        }
        match self.live.remove(&session.handle) {
            Some(EngineSession { id, call_id, .. }) => {
                match outcome {
                    Ok(call) => {
                        let s = EngineSession {
                            id,
                            call_id,
                            opening: false,
                            live_call: Some(call),
                        };
                        let ghost after = s@;
                        self.live.insert(session.handle, s);
                        assert(self@.live =~= old(self)@.live.insert(session.handle, after));
                        Some(open_push(session))
                    },
                    Err((code, rendered)) => {
                        let s = EngineSession { id, call_id, opening: false, live_call: None };
                        let ghost after = s@;
                        self.live.insert(session.handle, s);
                        assert(self@.live =~= old(self)@.live.insert(session.handle, after));
                        Some(setup_failed_push(session, code, rendered.as_str()))
                    },
                }
            },
            None => None,
        }
    }

    /// Takes a mailbox's answer to an intent, and makes the reply to the
    /// command that asked for it.
    pub fn sent(
        &mut self,
        req: &Frame,
        session: SessionId,
        intent: &Intent,
        answer: MailboxAnswer,
    ) -> (f: Frame)
        requires
            old(self)@.wf(),
        ensures
            final(self)@.wf(),
            final(self)@ == old(self)@.answered(session, intent@, answer),
            f@ == command_reply_spec(req@, answer == MailboxAnswer::Taken),
    {
        let live = match self.current(session) {
            Ok(s) => s.live_call.is_some(),
            Err(_) => false,
        };
        if live {
            match self.live.remove(&session.handle) {
                Some(EngineSession { id, call_id, opening, live_call: Some(call) }) => {
                    let mut call = call;
                    call.answer(intent, answer);
                    let s = EngineSession { id, call_id, opening, live_call: Some(call) };
                    let ghost after = s@;
                    self.live.insert(session.handle, s);
                    assert(self@.live =~= old(self)@.live.insert(session.handle, after));
                },
                _ => {},
            }
        }
        command_reply(req, answer == MailboxAnswer::Taken)
    }
}

} // verus!
