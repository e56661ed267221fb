//! What each request does to the session that it names, and what it is told.

use vstd::prelude::*;

use crate::codec::DecodeError;
use crate::engine::call::{IntentView, LiveCallView, MailboxAnswer};
use crate::engine::laws::named_session;
use crate::engine::neutral::{MediaAudioFormat, MediaEventView};
use crate::engine::open::{step_refusal, OpenStepView};
use crate::engine::opus::{encoded_input, opus_for_mlow, opus_from_mlow, OpusMlowError};
use crate::engine::project::{close_wire, event_wire};
use crate::engine::push::{event_out, next_seq, pushed, setup_failure, EventOutView};
use crate::engine::state::{
    command_reply_spec, hello_cap_minor_spec, session_refusal, zero_stats_spec, ActionView, EngineView,
    ENGINE_CAPABILITIES,
};
use crate::messages::command::CommandRequestView;
use crate::messages::event::EventNotificationView;
use crate::messages::group::{GroupFitsRequestView, GroupFitsResponse};
use crate::messages::handshake::{HelloRequest, HelloResponse};
use crate::messages::media::{MediaFrameView, VideoInView};
use crate::messages::open::{
    BeginOpenRequestView, CancelOpenRequest, CancelOpenResponse, CancelOutcome, CloseRequestView,
    ReserveRequestView,
};
use crate::messages::stats::StatsRequest;
use crate::protocol::{AbiErrorCode, FrameView, Opcode, Role};
use crate::session::{validated, SessionError, SessionId};
use crate::wire::{decoded, Body};

verus! {

/// Whether a request is told no, with this code.
pub open spec fn is_refused(e: EngineView, req: FrameView, code: AbiErrorCode) -> bool {
    &&& e.routed(req).0 == e
    &&& e.routed(req).1.action is Nothing
    &&& e.routed(req).1.reply matches Some(f) && exists|detail: Seq<char>|
        f == #[trigger] req.failure(code, Some(detail))
}

/// Whether a request is told yes, with nothing more to say.
pub open spec fn is_acknowledged(e: EngineView, req: FrameView) -> bool {
    e.routed(req).1.reply == Some(req.response(Seq::empty()))
}

/// A hello from the core settles on a minor that neither side is above, offers
/// everything but relay reconnects, and leaves the sessions alone. One from
/// anybody else is refused.
pub proof fn a_hello_settles_the_minor(e: EngineView, req: FrameView, hello: HelloRequest)
    requires
        req.major == 1,
        req.opcode == Opcode::Hello,
        decoded::<HelloRequest>(req.payload) == Ok::<HelloRequest, DecodeError>(hello),
    ensures
        hello.role == Role::Core ==> {
            let after = e.routed(req).0;
            &&& after.sessions == e.sessions
            &&& after.live == e.live
            &&& after.agreed_minor == Some(0u8)
            &&& e.routed(req).1.action is Nothing
            &&& e.routed(req).1.reply == Some(
                req.response(HelloResponse { capabilities: 0x3f }.body()),
            )
        },
        hello.role != Role::Core ==> is_refused(e, req, AbiErrorCode::BadPayload),
{
    assert(ENGINE_CAPABILITIES == 0x3f) by {
        assert(0x01u32 | 0x02 | 0x04 | 0x08 | 0x10 | 0x20 == 0x3f) by (bit_vector);
    }
    if hello.role != Role::Core {
        assert(e.routed(req).1.reply == Some(
            req.failure(AbiErrorCode::BadPayload, Some("HELLO role is not core"@)),
        ));
    }
}

/// The minor that is settled on is the lower of the two.
pub proof fn the_lower_minor_is_spoken(peer_minor: u8)
    ensures
        hello_cap_minor_spec(peer_minor) <= peer_minor,
        hello_cap_minor_spec(peer_minor) <= crate::ABI_MINOR,
        hello_cap_minor_spec(peer_minor) == peer_minor || hello_cap_minor_spec(peer_minor)
            == crate::ABI_MINOR,
{
}

/// A free handle that is reserved is held by that call at that generation, and
/// neither opens nor runs anything yet.
pub proof fn a_reserved_handle_is_held(e: EngineView, req: FrameView, r: ReserveRequestView)
    requires
        req.major == 1,
        req.opcode == Opcode::Reserve,
        decoded::<ReserveRequestView>(req.payload) == Ok::<ReserveRequestView, DecodeError>(r),
        !e.sessions.dom().contains(r.session.handle),
    ensures
        is_acknowledged(e, req),
        e.routed(req).1.action is Nothing,
        ({
            let after = e.routed(req).0;
            let held = after.live[r.session.handle];
            &&& validated(after.sessions, r.session) matches Ok(kept) && kept.call_id == r.call_id
                && kept.generation == r.session.generation
            &&& after.live.dom().contains(r.session.handle)
            &&& held.id == r.session
            &&& held.call_id == r.call_id
            &&& !held.opening
            &&& held.live_call is None
            &&& after.agreed_minor == e.agreed_minor
        }),
{
}

/// A session that is free to open starts to: what is built is for that session,
/// for the call that reserved it, with the params that came.
pub proof fn an_open_starts_with_what_came(e: EngineView, req: FrameView, begin: BeginOpenRequestView)
    requires
        e.wf(),
        req.major == 1,
        req.opcode == Opcode::BeginOpen,
        decoded::<BeginOpenRequestView>(req.payload) == Ok::<BeginOpenRequestView, DecodeError>(
            begin,
        ),
        validated(e.sessions, begin.session) is Ok,
        !e.live[begin.session.handle].opening,
        e.live[begin.session.handle].live_call is None,
    ensures
        is_acknowledged(e, req),
        e.routed(req).1.action == (ActionView::Open {
            session: begin.session,
            call_id: e.sessions[begin.session.handle].call_id,
            params: begin.params,
        }),
        e.routed(req).0.awaits(begin.session),
        e.routed(req).0.live[begin.session.handle].live_call is None,
        e.routed(req).0.sessions == e.sessions,
{
    assert(e.live.dom().contains(begin.session.handle));
}

/// What was opened runs on the session that waited for it; what failed leaves
/// it reserved and free to open again; what nobody waits for changes nothing.
pub proof fn an_open_ends_where_it_began(
    e: EngineView,
    session: SessionId,
    call: LiveCallView,
    other: u32,
)
    ensures
        e.awaits(session) ==> {
            let after = e.opened(session, Some(call));
            &&& after.live[session.handle].live_call == Some(call)
            &&& !after.live[session.handle].opening
            &&& !after.awaits(session)
        },
        e.awaits(session) ==> {
            let after = e.opened(session, None);
            &&& after.live[session.handle].live_call is None
            &&& !after.live[session.handle].opening
            &&& !after.awaits(session)
        },
        !e.awaits(session) ==> e.opened(session, Some(call)) == e && e.opened(session, None) == e,
        e.opened(session, Some(call)).sessions == e.sessions,
        e.opened(session, Some(call)).agreed_minor == e.agreed_minor,
        other != session.handle && e.live.dom().contains(other) ==> e.opened(
            session,
            Some(call),
        ).live[other] == e.live[other],
{
}

/// Only a session that is opening, and of this generation, waits for an open.
pub proof fn only_an_opening_session_waits(e: EngineView, session: SessionId)
    requires
        e.wf(),
    ensures
        e.awaits(session) ==> validated(e.sessions, session) is Ok && e.live[session.handle].opening
            && e.live[session.handle].live_call is None,
        validated(e.sessions, session) is Ok && e.live[session.handle].opening ==> e.awaits(session),
{
    if e.awaits(session) {
        assert(e.live.dom().contains(session.handle));
    }
    if validated(e.sessions, session) is Ok {
        assert(e.live.dom().contains(session.handle));
    }
}

/// A cancel says what it found: an open that it aborted, a call that runs
/// already and goes on, or nothing.
pub proof fn a_cancel_says_what_it_found(e: EngineView, req: FrameView, session: SessionId)
    requires
        e.wf(),
        req.major == 1,
        req.opcode == Opcode::CancelOpen,
        decoded::<CancelOpenRequest>(req.payload) == Ok::<CancelOpenRequest, DecodeError>(
            CancelOpenRequest { session },
        ),
        validated(e.sessions, session) is Ok,
    ensures
        e.routed(req).1.action is Nothing,
        e.live[session.handle].opening ==> e.routed(req).1.reply == Some(
            req.response(CancelOpenResponse { outcome: CancelOutcome::Aborted }.body()),
        ) && !e.routed(req).0.live[session.handle].opening,
        e.live[session.handle].live_call is Some ==> e.routed(req).1.reply == Some(
            req.response(CancelOpenResponse { outcome: CancelOutcome::AlreadyOpen }.body()),
        ) && e.routed(req).0 == e,
        !e.live[session.handle].opening && e.live[session.handle].live_call is None ==> e.routed(
            req,
        ).1.reply == Some(
            req.response(CancelOpenResponse { outcome: CancelOutcome::Unknown }.body()),
        ) && e.routed(req).0 == e,
{
    assert(e.live.dom().contains(session.handle));
}

/// A command for a call that runs goes to the mailbox that it is for and is
/// answered when that has answered; one that needs no mailbox is answered at
/// once; one for a session without a call is busy.
pub proof fn a_command_reaches_its_call(
    e: EngineView,
    req: FrameView,
    cmd: CommandRequestView,
    call: LiveCallView,
)
    requires
        e.wf(),
        req.major == 1,
        req.opcode == Opcode::Command,
        decoded::<CommandRequestView>(req.payload) == Ok::<CommandRequestView, DecodeError>(cmd),
        validated(e.sessions, cmd.session) is Ok,
    ensures
        e.live[cmd.session.handle].live_call == Some(call) ==> {
            let (after, routed) = e.routed(req);
            &&& after.live[cmd.session.handle].live_call == Some(call.commanded(cmd.command))
            &&& after.sessions == e.sessions
            &&& match call.intent(cmd.command) {
                IntentView::Settled(true) => routed.reply == Some(req.response(Seq::empty()))
                    && routed.action is Nothing,
                IntentView::Settled(false) => routed.reply == Some(
                    req.failure(AbiErrorCode::Busy, Some("command refused"@)),
                ) && routed.action is Nothing,
                intent => routed.reply is None && routed.action == (ActionView::Send {
                    session: cmd.session,
                    intent,
                }),
            }
        },
        e.live[cmd.session.handle].live_call is None ==> is_refused(e, req, AbiErrorCode::Busy),
{
    assert(e.live.dom().contains(cmd.session.handle));
    if e.live[cmd.session.handle].live_call is None {
        assert(e.routed(req).1.reply == Some(
            req.failure(AbiErrorCode::Busy, Some("call is not open"@)),
        ));
    }
}

/// A command that was taken succeeds, one that was not is busy.
pub proof fn a_taken_command_succeeds(req: FrameView)
    ensures
        command_reply_spec(req, true) == req.response(Seq::empty()),
        command_reply_spec(req, false) == req.failure(
            AbiErrorCode::Busy,
            Some("command refused"@),
        ),
{
}

/// A mailbox's answer reaches the call that asked, and no other session.
pub proof fn an_answer_reaches_its_call(
    e: EngineView,
    session: SessionId,
    intent: IntentView,
    answer: MailboxAnswer,
    other: u32,
)
    requires
        e.wf(),
    ensures
        validated(e.sessions, session) is Ok && e.live[session.handle].live_call is Some
            ==> e.answered(session, intent, answer).live[session.handle].live_call == Some(
            e.live[session.handle].live_call->0.answered(intent, answer),
        ),
        validated(e.sessions, session) is Err ==> e.answered(session, intent, answer) == e,
        other != session.handle && e.live.dom().contains(other) ==> e.answered(
            session,
            intent,
            answer,
        ).live[other] == e.live[other],
        e.answered(session, intent, answer).sessions == e.sessions,
{
    if validated(e.sessions, session) is Ok {
        assert(e.live.dom().contains(session.handle));
    }
}

/// A probe is admitted on a call with a group plane and on no other.
pub proof fn a_group_plane_admits(
    e: EngineView,
    req: FrameView,
    fits: GroupFitsRequestView,
    call: LiveCallView,
)
    requires
        e.wf(),
        req.major == 1,
        req.opcode == Opcode::GroupFits,
        decoded::<GroupFitsRequestView>(req.payload) == Ok::<GroupFitsRequestView, DecodeError>(
            fits,
        ),
        validated(e.sessions, fits.session) is Ok,
    ensures
        e.routed(req).0 == e,
        e.routed(req).1.action is Nothing,
        e.live[fits.session.handle].live_call == Some(call) && call.has_group ==> e.routed(
            req,
        ).1.reply == Some(req.response(GroupFitsResponse { fits: 1, limit: 0 }.body())),
        e.live[fits.session.handle].live_call == Some(call) && !call.has_group ==> e.routed(
            req,
        ).1.reply == Some(req.response(GroupFitsResponse { fits: 0, limit: 0 }.body())),
        e.live[fits.session.handle].live_call is None ==> is_refused(e, req, AbiErrorCode::Busy),
{
    assert(e.live.dom().contains(fits.session.handle));
    if e.live[fits.session.handle].live_call is None {
        assert(e.routed(req).1.reply == Some(
            req.failure(AbiErrorCode::Busy, Some("call is not open"@)),
        ));
    }
}

/// A close lets the handle go and drops the call that ran on it, and only that
/// one.
pub proof fn a_close_drops_its_own_call(
    e: EngineView,
    req: FrameView,
    close: CloseRequestView,
    call: LiveCallView,
)
    requires
        e.wf(),
        req.major == 1,
        req.opcode == Opcode::Close,
        decoded::<CloseRequestView>(req.payload) == Ok::<CloseRequestView, DecodeError>(close),
        validated(e.sessions, close.session) is Ok,
    ensures
        is_acknowledged(e, req),
        validated(e.routed(req).0.sessions, close.session) == Err::<
            crate::session::ReservationView,
            SessionError,
        >(SessionError::Unknown),
        !e.routed(req).0.live.dom().contains(close.session.handle),
        e.live[close.session.handle].live_call is None ==> e.routed(req).1.action is Nothing,
        e.live[close.session.handle].live_call == Some(call) ==> e.routed(req).1.action == (
        ActionView::Drop { session: close.session, call_id: call.call_id }),
{
    assert(e.live.dom().contains(close.session.handle));
}

/// Counters are read from a call that runs; without one they are all zero.
pub proof fn counters_are_read_or_zero(e: EngineView, req: FrameView, session: SessionId)
    requires
        e.wf(),
        req.major == 1,
        req.opcode == Opcode::Stats,
        decoded::<StatsRequest>(req.payload) == Ok::<StatsRequest, DecodeError>(
            StatsRequest { session },
        ),
        validated(e.sessions, session) is Ok,
    ensures
        e.routed(req).0 == e,
        e.live[session.handle].live_call is Some ==> e.routed(req).1.reply is None && e.routed(
            req,
        ).1.action == (ActionView::ReadStats { session }),
        e.live[session.handle].live_call is None ==> e.routed(req).1.action is Nothing && e.routed(
            req,
        ).1.reply == Some(req.response(zero_stats_spec().body())),
{
    assert(e.live.dom().contains(session.handle));
}

/// Counters of a call that never ran are those of an engine that counted
/// nothing.
pub proof fn nothing_counted_is_zero()
    ensures
        ({
            let s = zero_stats_spec();
            &&& s.rtp_received == 0 && s.rtp_payload_type_unexpected == 0
            &&& s.srtp_unprotect_failed == 0 && s.sframe_decrypt_failed == 0
            &&& s.audio_frames_decoded == 0 && s.audio_frames_delivered == 0
            &&& s.audio_frames_concealed == 0 && s.mlow_off_point_dropped == 0
            &&& s.mlow_inactive_or_sid == 0 && s.foreign_frames_decoded == 0
            &&& s.audio_frames_without_decoder == 0 && s.outbound_frames_without_encoder == 0
            &&& s.playout_trimmed_samples == 0 && s.inbound_pipe_dropped == 0
            &&& s.audio_sink_dropped == 0 && s.video_sink_dropped == 0
            &&& s.peer_keyframe_requests == 0 && s.relay_packet_unclassified == 0
            &&& s.forwarding_envelope_rejected == 0 && s.codec_switches == 0
        }),
{
}

/// Samples reach the microphone and packets the encoded mailbox, never each
/// other's, and only of a call that runs; either is acknowledged regardless.
pub proof fn audio_reaches_its_own_mailbox(
    e: EngineView,
    req: FrameView,
    frame: MediaFrameView,
    call: LiveCallView,
)
    requires
        e.wf(),
        req.major == 1,
        req.opcode == Opcode::PcmIn || req.opcode == Opcode::EncodedAudioIn,
        decoded::<MediaFrameView>(req.payload) == Ok::<MediaFrameView, DecodeError>(frame),
        validated(e.sessions, frame.session) is Ok,
    ensures
        is_acknowledged(e, req),
        e.routed(req).0 == e,
        e.live[frame.session.handle].live_call is None ==> e.routed(req).1.action is Nothing,
        e.live[frame.session.handle].live_call == Some(call) && req.opcode == Opcode::PcmIn
            ==> match call.mic(frame.data) {
            Some(samples) => e.routed(req).1.action == (ActionView::Mic {
                session: frame.session,
                samples,
            }),
            None => e.routed(req).1.action is Nothing,
        },
        e.live[frame.session.handle].live_call == Some(call) && req.opcode
            == Opcode::EncodedAudioIn && !call.opus_mlow_escape ==> e.routed(req).1.action == (
        ActionView::Encoded { session: frame.session, packet: frame.data }),
        e.live[frame.session.handle].live_call == Some(call) && req.opcode
            == Opcode::EncodedAudioIn && call.opus_mlow_escape ==> match opus_for_mlow(frame.data) {
            Ok(packet) => e.routed(req).1.action == (ActionView::Encoded {
                session: frame.session,
                packet,
            }),
            Err(_) => e.routed(req).1.action is Nothing,
        },
{
    assert(e.live.dom().contains(frame.session.handle));
}

/// An access unit reaches the video mailbox of a call that runs, whole; it is
/// acknowledged regardless.
pub proof fn video_reaches_its_mailbox(e: EngineView, req: FrameView, frame: VideoInView)
    requires
        e.wf(),
        req.major == 1,
        req.opcode == Opcode::VideoIn,
        decoded::<VideoInView>(req.payload) == Ok::<VideoInView, DecodeError>(frame),
        validated(e.sessions, frame.session) is Ok,
    ensures
        is_acknowledged(e, req),
        e.routed(req).0 == e,
        e.live[frame.session.handle].live_call is None ==> e.routed(req).1.action is Nothing,
        e.live[frame.session.handle].live_call is Some ==> (e.routed(req).1.action
            matches ActionView::Video { session, feed } && session == frame.session && feed
            == crate::engine::call::video_feed(frame.input)),
{
    assert(e.live.dom().contains(frame.session.handle));
}

/// What is done is done for the session that the request names.
pub proof fn an_action_is_for_the_session_named(e: EngineView, req: FrameView)
    requires
        e.wf(),
    ensures
        match e.routed(req).1.action {
            ActionView::Nothing => true,
            ActionView::Open { session, .. } => named_session(req) == Some(session) && req.opcode
                == Opcode::BeginOpen,
            ActionView::Send { session, .. } => named_session(req) == Some(session) && req.opcode
                == Opcode::Command,
            ActionView::ReadStats { session } => named_session(req) == Some(session) && req.opcode
                == Opcode::Stats,
            ActionView::Mic { session, .. } => named_session(req) == Some(session) && req.opcode
                == Opcode::PcmIn,
            ActionView::Encoded { session, .. } => named_session(req) == Some(session)
                && req.opcode == Opcode::EncodedAudioIn,
            ActionView::Video { session, .. } => named_session(req) == Some(session) && req.opcode
                == Opcode::VideoIn,
            ActionView::Drop { session, .. } => named_session(req) == Some(session) && req.opcode
                == Opcode::Close,
        },
{
    match decoded::<CloseRequestView>(req.payload) {
        Ok(close) => {
            if e.live.dom().contains(close.session.handle) {
                assert(e.live[close.session.handle].id.handle == close.session.handle);
            }
        },
        Err(_) => {},
    }
}

/// Whether the body of a request can be read as what its opcode says it is.
pub open spec fn is_readable(req: FrameView) -> bool {
    match req.opcode {
        Opcode::Hello => decoded::<HelloRequest>(req.payload) is Ok,
        Opcode::Reserve => decoded::<ReserveRequestView>(req.payload) is Ok,
        _ => named_session(req) is Some,
    }
}

/// A request whose body cannot be read, and what is pushed but never asked, is
/// a bad payload, and changes nothing.
pub proof fn an_unreadable_request_is_a_bad_payload(e: EngineView, req: FrameView)
    requires
        req.major == 1,
        !is_readable(req),
    ensures
        is_refused(e, req, AbiErrorCode::BadPayload),
{
    let detail = match req.opcode {
        Opcode::Hello => "HELLO misformed"@,
        Opcode::Reserve => "RESERVE misformed"@,
        Opcode::BeginOpen => "BEGIN_OPEN misformed"@,
        Opcode::CancelOpen => "CANCEL_OPEN misformed"@,
        Opcode::Command => "COMMAND misformed"@,
        Opcode::GroupFits => "GROUP_FITS misformed"@,
        Opcode::Close => "CLOSE misformed"@,
        Opcode::Stats => "STATS misformed"@,
        Opcode::PcmIn => "media frame misformed"@,
        Opcode::EncodedAudioIn => "media frame misformed"@,
        Opcode::VideoIn => "media frame misformed"@,
        _ => "push opcode sent as request"@,
    };
    assert(e.routed(req).1.reply == Some(req.failure(AbiErrorCode::BadPayload, Some(detail))));
}

/// A session that is not there and one that is not current are told apart.
pub proof fn an_unknown_session_is_not_a_stale_one(e: SessionError)
    ensures
        session_refusal(e).0 == AbiErrorCode::UnknownSession <==> e is Unknown,
        session_refusal(e).0 == AbiErrorCode::StaleGeneration <==> e is Stale,
        session_refusal(e).0 == AbiErrorCode::Internal <==> e is HandleInUse,
{
}

/// What is pushed reads back as a request of that opcode with that body.
pub proof fn a_push_reads_back<M: Body>(opcode: Opcode, body: M)
    requires
        body.body().len() <= u32::MAX,
    ensures
        FrameView::of_bytes(pushed(opcode, body)) matches Ok(f) && f.opcode == opcode && f.payload
            == body.body() && f.flags == 0 && f.major == 1 && f.minor == 0,
{
    let f = FrameView::of_request(opcode, body.body());
    crate::protocol::frame_round_trip(f, Seq::empty());
    assert(f.bytes() + Seq::<u8>::empty() =~= f.bytes());
}

/// A close ends the stream, and nothing else does; what has a word is pushed
/// for its session, and what has none leaves nothing.
pub proof fn only_a_close_ends_the_stream(id: SessionId, event: MediaEventView)
    ensures
        event_out(id, event) is Ended <==> event is Closed,
        event matches MediaEventView::Closed(reason) ==> event_out(id, event)
            == EventOutView::Ended(
            pushed(
                Opcode::MediaEnded,
                CloseRequestView {
                    session: id,
                    reason: close_wire(reason).0,
                    detail: close_wire(reason).1,
                },
            ),
        ),
        !(event is Closed) ==> (event_out(id, event) is Nothing <==> event_wire(event) is None),
        !(event is Closed) ==> (event_wire(event) matches Some(said) ==> event_out(id, event)
            == EventOutView::Push(
            pushed(Opcode::Event, EventNotificationView { session: id, event: said }),
        )),
{
}

/// Frames are numbered one after the other, around the end of the count.
pub proof fn frames_are_numbered_in_order(seq: u32)
    ensures
        (next_seq(seq) as int - seq as int - 1) % 0x1_0000_0000 == 0,
{
}

/// A failed setup names its code first and what was said last.
pub proof fn a_failed_setup_names_its_code(code: AbiErrorCode, rendered: Seq<char>)
    ensures
        ({
            let said = setup_failure(code, rendered);
            let name = code.name_spec()@;
            &&& said.len() == name.len() + 2 + rendered.len()
            &&& said.take(name.len() as int) == name
            &&& said.skip(name.len() as int + 2) == rendered
            &&& said[name.len() as int] == ':' && said[name.len() as int + 1] == ' '
        }),
{
    reveal_strlit(": ");
    let said = setup_failure(code, rendered);
    let name = code.name_spec()@;
    assert(said.take(name.len() as int) =~= name);
    assert(said.skip(name.len() as int + 2) =~= rendered);
}

/// A refused step is the engine's fault, says which step it was, and ends with
/// why.
pub proof fn a_refused_step_says_which(step: OpenStepView, why: Seq<char>)
    ensures
        step is ApplyEpoch ==> step_refusal(step, why)
            == crate::engine::neutral::OpenErrorView::Engine("pre-attach epoch refused: "@ + why),
        step is SwitchCodec ==> step_refusal(step, why)
            == crate::engine::neutral::OpenErrorView::Engine("initial codec refused: "@ + why),
{
}

/// The native format is MLOW at sixteen thousand samples a second in frames of
/// sixty milliseconds; the escape has its timing and Opus inside.
pub proof fn the_native_formats_agree_on_timing()
    ensures
        ({
            let native = MediaAudioFormat::mlow_spec();
            let escape = MediaAudioFormat::opus_mlow_spec();
            &&& native.codec is Mlow && escape.codec is Opus
            &&& native.rtp_profile is Mlow && escape.rtp_profile is Mlow
            &&& native.sample_rate == 16_000 && native.channels == 1
            &&& native.samples_per_frame * 1000 == 60 * native.sample_rate
            &&& native.signaling_rate == native.sample_rate && native.rtp_clock_rate
                == native.sample_rate
            &&& native.rtp_timestamp_step == native.samples_per_frame
            &&& native.rtp_payload_type == 120
            &&& escape.sample_rate == native.sample_rate && escape.channels == native.channels
            &&& escape.samples_per_frame == native.samples_per_frame && escape.rtp_clock_rate
                == native.rtp_clock_rate
            &&& escape.rtp_timestamp_step == native.rtp_timestamp_step && escape.rtp_payload_type
                == native.rtp_payload_type && escape.signaling_rate == native.signaling_rate
        }),
{
}

/// Without the escape every packet reaches the engine as it came; with it,
/// what cannot be escaped does not reach it.
pub proof fn the_escape_is_all_that_changes_a_packet(data: Seq<u8>)
    ensures
        encoded_input(data, false) == Some(data),
        match opus_for_mlow(data) {
            Ok(packet) => encoded_input(data, true) == Some(packet),
            Err(_) => encoded_input(data, true) is None,
        },
{
}

/// The first byte behind an escape is that of an Opus packet: a configuration
/// from the four middle bits of the escape, its stereo bit, and one frame or as
/// many as the second byte counts.
pub proof fn undoing_the_escape_restores_the_first_byte(packet: Seq<u8>, out: Seq<u8>)
    requires
        opus_from_mlow(packet) == Ok::<Seq<u8>, OpusMlowError>(out),
    ensures
        packet[0] >= 0xc0,
        out[0] / 8 == 16 + packet[0] / 4 % 16,
        out[0] / 4 % 2 == packet[0] / 2 % 2,
        out[0] % 4 == if packet[0] % 2 == 1 {
            3u8
        } else {
            0u8
        },
        packet[0] % 2 == 1 ==> packet.len() >= 2 && 1 <= packet[1] % 64 <= 48,
{
    let b = packet[0];
    let config = (16 + ((b >> 2) & 0x0f)) as u8;
    let stereo = (b >> 1) & 1;
    let packing: u8 = if b & 1 != 0 {
        3
    } else {
        0
    };
    assert(b & 0xc0 == 0xc0 ==> b >= 0xc0) by (bit_vector);
    assert((b & 1 != 0) == (b % 2 == 1)) by (bit_vector);
    assert((b >> 2) & 0x0f == b / 4 % 16) by (bit_vector);
    assert((b >> 1) & 1 == b / 2 % 2) by (bit_vector);
    let first = config << 3 | stereo << 2 | packing;
    assert(first / 8 == config && first / 4 % 2 == stereo && first % 4 == packing) by (bit_vector)
        requires
            first == config << 3 | stereo << 2 | packing,
            config < 32,
            stereo < 2,
            packing < 4,
    ;
    if b % 2 == 1 {
        let d = packet[1];
        assert(d & 0x3f == d % 64) by (bit_vector);
    }
}

/// Undoing the escape changes the first byte alone.
pub proof fn undoing_the_escape_keeps_the_rest(packet: Seq<u8>)
    ensures
        opus_from_mlow(packet) matches Ok(out) ==> out.len() == packet.len() && out.len() > 0
            && out.skip(1) == packet.skip(1),
        packet.len() == 0 ==> opus_from_mlow(packet) == Err::<Seq<u8>, OpusMlowError>(
            OpusMlowError::Empty,
        ),
{
    match opus_from_mlow(packet) {
        Ok(out) => {
            assert(out.skip(1) =~= packet.skip(1));
        },
        Err(_) => {},
    }
}

} // verus!
