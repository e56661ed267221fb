//! What holds of the engine side as a whole, whatever frames arrive.

use vstd::prelude::*;

use crate::engine::call::LiveCallView;
use crate::engine::state::{major_refusal, refusal, replied, EngineSessionView, EngineView};
use crate::messages::command::CommandRequestView;
use crate::messages::group::GroupFitsRequestView;
use crate::messages::media::{MediaFrameView, VideoInView};
use crate::messages::open::{
    BeginOpenRequestView, CancelOpenRequest, CloseRequestView, ReserveRequestView,
};
use crate::messages::stats::StatsRequest;
use crate::protocol::{
    responses_echo_the_request, AbiErrorCode, FrameView, Opcode, FLAG_ERROR, FLAG_RESPONSE,
};
use crate::session::{validated, SessionError, SessionId};
use crate::wire::decoded;
use crate::ABI_MAJOR;

verus! {

/// The live session that a request names, where its body can be read.
pub open spec fn named_session(req: FrameView) -> Option<SessionId> {
    match req.opcode {
        Opcode::BeginOpen => match decoded::<BeginOpenRequestView>(req.payload) {
            Ok(m) => Some(m.session),
            Err(_) => None,
        },
        Opcode::CancelOpen => match decoded::<CancelOpenRequest>(req.payload) {
            Ok(m) => Some(m.session),
            Err(_) => None,
        },
        Opcode::Command => match decoded::<CommandRequestView>(req.payload) {
            Ok(m) => Some(m.session),
            Err(_) => None,
        },
        Opcode::GroupFits => match decoded::<GroupFitsRequestView>(req.payload) {
            Ok(m) => Some(m.session),
            Err(_) => None,
        },
        Opcode::Close => match decoded::<CloseRequestView>(req.payload) {
            Ok(m) => Some(m.session),
            Err(_) => None,
        },
        Opcode::Stats => match decoded::<StatsRequest>(req.payload) {
            Ok(m) => Some(m.session),
            Err(_) => None,
        },
        Opcode::PcmIn => match decoded::<MediaFrameView>(req.payload) {
            Ok(m) => Some(m.session),
            Err(_) => None,
        },
        Opcode::EncodedAudioIn => match decoded::<MediaFrameView>(req.payload) {
            Ok(m) => Some(m.session),
            Err(_) => None,
        },
        Opcode::VideoIn => match decoded::<VideoInView>(req.payload) {
            Ok(m) => Some(m.session),
            Err(_) => None,
        },
        _ => None,
    }
}

/// A stale session never touches its replacement: whatever it asks, nothing
/// changes, nothing is done, and the answer is that its generation is not
/// current.
pub proof fn a_stale_session_touches_nothing(e: EngineView, req: FrameView, session: SessionId)
    requires
        named_session(req) == Some(session),
        validated(e.sessions, session) matches Err(SessionError::Stale { .. }),
    ensures
        e.routed(req).0 == e,
        req.major == ABI_MAJOR ==> e.routed(req) == (
            e,
            refusal(
                req,
                AbiErrorCode::StaleGeneration,
                "session generation is not current"@,
            ),
        ),
{
}

/// A session that was never reserved, or is closed already, is unknown to
/// every request but the one that closes it, and nothing changes.
pub proof fn an_unknown_session_touches_nothing(e: EngineView, req: FrameView, session: SessionId)
    requires
        named_session(req) == Some(session),
        !e.sessions.dom().contains(session.handle),
    ensures
        e.routed(req).0 == e,
        req.major == ABI_MAJOR ==> e.routed(req) == (
            e,
            if req.opcode == Opcode::Close {
                replied(req.response(Seq::empty()))
            } else {
                refusal(req, AbiErrorCode::UnknownSession, "session is not reserved"@)
            },
        ),
{
}

/// Reserving a handle that is still reserved is refused and changes nothing,
/// whatever the generation: replacement closes first.
pub proof fn a_reserved_handle_is_never_overwritten(
    e: EngineView,
    req: FrameView,
    reserve: ReserveRequestView,
)
    requires
        req.opcode == Opcode::Reserve,
        decoded::<ReserveRequestView>(req.payload) == Ok::<
            ReserveRequestView,
            crate::codec::DecodeError,
        >(reserve),
        e.sessions.dom().contains(reserve.session.handle),
    ensures
        e.routed(req).0 == e,
        req.major == ABI_MAJOR ==> e.routed(req).1 == refusal(
            req,
            AbiErrorCode::Internal,
            "session handle still reserved; close it first"@,
        ),
{
}

/// A request of another major is refused up front, whatever it asks: the
/// module stays as it was, and the answer is that the version is wrong.
pub proof fn another_major_leaves_no_trace(e: EngineView, req: FrameView)
    requires
        req.major != ABI_MAJOR,
    ensures
        e.routed(req) == (
            e,
            refusal(req, AbiErrorCode::BadVersion, major_refusal(req.opcode)),
        ),
        e.routed(req).1.reply matches Some(f) && f.is_error(),
{
    responses_echo_the_request(
        req,
        Seq::empty(),
        AbiErrorCode::BadVersion,
        Some(major_refusal(req.opcode)),
    );
}

/// Every reply echoes the opcode of its request, and is either a success or a
/// failure.
pub proof fn every_reply_echoes_its_request(e: EngineView, req: FrameView)
    ensures
        e.routed(req).1.reply matches Some(f) ==> f.opcode == req.opcode && (f.is_response()
            || f.is_error()),
{
    assert(FLAG_RESPONSE & FLAG_RESPONSE != 0 && FLAG_RESPONSE & FLAG_ERROR == 0) by (bit_vector);
    assert((FLAG_RESPONSE | FLAG_ERROR) & FLAG_RESPONSE != 0) by (bit_vector);
    assert((FLAG_RESPONSE | FLAG_ERROR) & FLAG_ERROR != 0) by (bit_vector);
}

/// Closing twice is closing once: the second close succeeds and changes
/// nothing.
pub proof fn close_is_idempotent(e: EngineView, req: FrameView, session: SessionId)
    requires
        req.major == ABI_MAJOR,
        req.opcode == Opcode::Close,
        named_session(req) == Some(session),
        validated(e.sessions, session) is Ok,
    ensures
        ({
            let after = e.routed(req).0;
            &&& !after.sessions.dom().contains(session.handle)
            &&& !after.live.dom().contains(session.handle)
            &&& after.routed(req) == (after, replied(req.response(Seq::empty())))
        }),
{
}

/// Once an open was aborted, its outcome installs no call: the session stays
/// reserved, and open to another try.
pub proof fn an_aborted_open_installs_nothing(
    e: EngineView,
    req: FrameView,
    session: SessionId,
    call: Option<LiveCallView>,
)
    requires
        e.wf(),
        req.major == ABI_MAJOR,
        req.opcode == Opcode::CancelOpen,
        named_session(req) == Some(session),
        e.awaits(session),
    ensures
        ({
            let after = e.routed(req).0;
            &&& !after.awaits(session)
            &&& after.opened(session, call) == after
            &&& after.live[session.handle] == (EngineSessionView {
                opening: false,
                ..e.live[session.handle]
            })
        }),
{
    let s = e.live[session.handle];
    assert(e.sessions.dom().contains(session.handle));
    assert(s.id == session);
}

/// A session opens once at a time: while one open is in flight, or a call
/// runs, another is busy and changes nothing.
pub proof fn a_second_open_is_busy(e: EngineView, req: FrameView, session: SessionId)
    requires
        e.wf(),
        req.major == ABI_MAJOR,
        req.opcode == Opcode::BeginOpen,
        named_session(req) == Some(session),
        validated(e.sessions, session) is Ok,
        e.live[session.handle].opening || e.live[session.handle].live_call is Some,
    ensures
        e.routed(req) == (e, refusal(req, AbiErrorCode::Busy, "open already in flight"@)),
{
    assert(e.live.dom().contains(session.handle));
}

/// No request changes another handle's session.
pub proof fn other_sessions_are_untouched(e: EngineView, req: FrameView, other: u32)
    requires
        e.live.dom().contains(other),
        named_session(req) matches Some(session) ==> session.handle != other,
        req.opcode == Opcode::Reserve ==> (decoded::<ReserveRequestView>(req.payload) matches Ok(r)
            ==> r.session.handle != other),
    ensures
        e.routed(req).0.live.dom().contains(other),
        e.routed(req).0.live[other] == e.live[other],
{
}

} // verus!
