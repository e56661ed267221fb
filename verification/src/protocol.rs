//! Header layout, opcodes, flags, capabilities, and error codes.
//!
//! The header is fixed at 13 bytes so either side can frame without parsing:
//! `magic[4] | major u8 | minor u8 | opcode u8 | flags u16 LE | payload_len u32 LE`.

use vstd::prelude::*;
use vstd::slice::{slice_subrange, slice_to_vec};

use crate::codec::{DecodeError, Writer};
use crate::messages::error::ErrorBodyView;
use crate::messages::fields::Discriminant;
use crate::wire::{
    concat_empty, decode_inverts_encode, decoded, le_u32, le_u32_inverse, length_prefix, of_le_u32,
    opt_text_fits, Body, Tag,
};
use crate::{ABI_MAJOR, ABI_MINOR};

verus! {

/// `OZVP`: every message starts here, so garbage fails on the first 4 bytes.
pub const MAGIC: [u8; 4] = [0x4f, 0x5a, 0x56, 0x50];

/// Header bytes: 4 magic + major + minor + opcode + 2 flags + 4 length.
pub const HEADER_LEN: usize = 13;

/// Set on every response; the opcode echoes the request's.
pub const FLAG_RESPONSE: u16 = 0x0001;

/// Set with `RESPONSE` when the request failed; the payload is an error body.
pub const FLAG_ERROR: u16 = 0x0002;

/// The operation a message carries. Frame opcodes (`>= 0x10`) are media;
/// everything below is control.
#[derive(Debug, Clone, Copy, PartialEq, Eq, Structural)]
pub enum Opcode {
    /// `core -> voip`: version probe and capability exchange. Response
    /// carries the responder's capabilities.
    Hello,
    /// `core -> voip`: bind a handle to `(call_id, generation)` before any
    /// media message names it.
    Reserve,
    /// `core -> voip`: start asynchronous setup with open params. Ack means
    /// setup started, not finished; completion arrives as [`Opcode::Open`].
    BeginOpen,
    /// `voip -> core`: setup completed, media is flowing. A notification,
    /// never a request.
    Open,
    /// `core -> voip`: abort an in-flight `BeginOpen`. The ack carries the
    /// [`CancelOutcome`].
    CancelOpen,
    /// `core -> voip`: mute, video control, rekey, keyframe. See
    /// [`crate::MediaCommandKind`].
    Command,
    /// `core -> voip`: admission probe for a group roster. Response carries
    /// whether the engine fits it and its limit.
    GroupFits,
    /// `core -> voip`: release a session. Carries the [`crate::CloseReason`].
    Close,
    /// `voip -> core`: media-side event on the same ordered stream as
    /// signaling. A notification, never a request.
    Event,
    /// Both directions: `core -> voip` polls, `voip -> core` pushes when the
    /// `STATS_PUSH` capability was negotiated. Pushes carry no response flag.
    Stats,
    /// `voip -> core`: the media path ended. A notification, never a request.
    MediaEnded,
    /// `core -> voip`: one decoded PCM frame, inline copy.
    PcmIn,
    /// `voip -> core`: one decoded PCM frame, inline copy.
    PcmOut,
    /// `core -> voip`: one encoded audio packet, inline copy.
    EncodedAudioIn,
    /// `voip -> core`: one encoded audio packet, inline copy.
    EncodedAudioOut,
    /// `core -> voip`: one encoded video frame, inline copy.
    VideoIn,
    /// `voip -> core`: one encoded video frame, inline copy.
    VideoOut,
}

impl Tag for Opcode {
    open spec fn tag(self) -> u8 {
        match self {
            Opcode::Hello => 0x01,
            Opcode::Reserve => 0x02,
            Opcode::BeginOpen => 0x03,
            Opcode::Open => 0x04,
            Opcode::CancelOpen => 0x05,
            Opcode::Command => 0x06,
            Opcode::GroupFits => 0x07,
            Opcode::Close => 0x08,
            Opcode::Event => 0x09,
            Opcode::Stats => 0x0A,
            Opcode::MediaEnded => 0x0B,
            Opcode::PcmIn => 0x10,
            Opcode::PcmOut => 0x11,
            Opcode::EncodedAudioIn => 0x12,
            Opcode::EncodedAudioOut => 0x13,
            Opcode::VideoIn => 0x14,
            Opcode::VideoOut => 0x15,
        }
    }

    open spec fn of_tag(b: u8) -> Option<Self> {
        match b {
            0x01 => Some(Opcode::Hello),
            0x02 => Some(Opcode::Reserve),
            0x03 => Some(Opcode::BeginOpen),
            0x04 => Some(Opcode::Open),
            0x05 => Some(Opcode::CancelOpen),
            0x06 => Some(Opcode::Command),
            0x07 => Some(Opcode::GroupFits),
            0x08 => Some(Opcode::Close),
            0x09 => Some(Opcode::Event),
            0x0A => Some(Opcode::Stats),
            0x0B => Some(Opcode::MediaEnded),
            0x10 => Some(Opcode::PcmIn),
            0x11 => Some(Opcode::PcmOut),
            0x12 => Some(Opcode::EncodedAudioIn),
            0x13 => Some(Opcode::EncodedAudioOut),
            0x14 => Some(Opcode::VideoIn),
            0x15 => Some(Opcode::VideoOut),
            _ => None,
        }
    }

    proof fn tag_inverse(self) {
    }

    proof fn of_tag_inverse(b: u8) {
    }
}

impl Opcode {
    /// The wire byte.
    pub fn as_u8(self) -> (b: u8)
        ensures
            b == self.tag(),
    {
        match self {
            Opcode::Hello => 0x01,
            Opcode::Reserve => 0x02,
            Opcode::BeginOpen => 0x03,
            Opcode::Open => 0x04,
            Opcode::CancelOpen => 0x05,
            Opcode::Command => 0x06,
            Opcode::GroupFits => 0x07,
            Opcode::Close => 0x08,
            Opcode::Event => 0x09,
            Opcode::Stats => 0x0A,
            Opcode::MediaEnded => 0x0B,
            Opcode::PcmIn => 0x10,
            Opcode::PcmOut => 0x11,
            Opcode::EncodedAudioIn => 0x12,
            Opcode::EncodedAudioOut => 0x13,
            Opcode::VideoIn => 0x14,
            Opcode::VideoOut => 0x15,
        }
    }

    /// Parses a wire byte; unknown values fail rather than alias.
    pub fn from_u8(v: u8) -> (res: Result<Self, DecodeError>)
        ensures
            res == match Self::of_tag(v) {
                Some(op) => Ok::<Self, DecodeError>(op),
                None => Err(DecodeError::UnknownOpcode(v)),
            },
    {
        match v {
            0x01 => Ok(Opcode::Hello),
            0x02 => Ok(Opcode::Reserve),
            0x03 => Ok(Opcode::BeginOpen),
            0x04 => Ok(Opcode::Open),
            0x05 => Ok(Opcode::CancelOpen),
            0x06 => Ok(Opcode::Command),
            0x07 => Ok(Opcode::GroupFits),
            0x08 => Ok(Opcode::Close),
            0x09 => Ok(Opcode::Event),
            0x0A => Ok(Opcode::Stats),
            0x0B => Ok(Opcode::MediaEnded),
            0x10 => Ok(Opcode::PcmIn),
            0x11 => Ok(Opcode::PcmOut),
            0x12 => Ok(Opcode::EncodedAudioIn),
            0x13 => Ok(Opcode::EncodedAudioOut),
            0x14 => Ok(Opcode::VideoIn),
            0x15 => Ok(Opcode::VideoOut),
            other => Err(DecodeError::UnknownOpcode(other)),
        }
    }

    /// The written-down name, as a value.
    pub open spec fn name_spec(self) -> &'static str {
        match self {
            Opcode::Hello => "HELLO",
            Opcode::Reserve => "RESERVE",
            Opcode::BeginOpen => "BEGIN_OPEN",
            Opcode::Open => "OPEN",
            Opcode::CancelOpen => "CANCEL_OPEN",
            Opcode::Command => "COMMAND",
            Opcode::GroupFits => "GROUP_FITS",
            Opcode::Close => "CLOSE",
            Opcode::Event => "EVENT",
            Opcode::Stats => "STATS",
            Opcode::MediaEnded => "MEDIA_ENDED",
            Opcode::PcmIn => "PCM_IN",
            Opcode::PcmOut => "PCM_OUT",
            Opcode::EncodedAudioIn => "ENCODED_AUDIO_IN",
            Opcode::EncodedAudioOut => "ENCODED_AUDIO_OUT",
            Opcode::VideoIn => "VIDEO_IN",
            Opcode::VideoOut => "VIDEO_OUT",
        }
    }

    /// Written-down name, so that no derived rendering can rename the wire.
    pub fn name(self) -> (s: &'static str)
        ensures
            s == self.name_spec(),
    {
        match self {
            Opcode::Hello => "HELLO",
            Opcode::Reserve => "RESERVE",
            Opcode::BeginOpen => "BEGIN_OPEN",
            Opcode::Open => "OPEN",
            Opcode::CancelOpen => "CANCEL_OPEN",
            Opcode::Command => "COMMAND",
            Opcode::GroupFits => "GROUP_FITS",
            Opcode::Close => "CLOSE",
            Opcode::Event => "EVENT",
            Opcode::Stats => "STATS",
            Opcode::MediaEnded => "MEDIA_ENDED",
            Opcode::PcmIn => "PCM_IN",
            Opcode::PcmOut => "PCM_OUT",
            Opcode::EncodedAudioIn => "ENCODED_AUDIO_IN",
            Opcode::EncodedAudioOut => "ENCODED_AUDIO_OUT",
            Opcode::VideoIn => "VIDEO_IN",
            Opcode::VideoOut => "VIDEO_OUT",
        }
    }
}

/// Which end of the wire a `HELLO` came from.
#[derive(Debug, Clone, Copy, PartialEq, Eq, Structural)]
pub enum Role {
    /// The WhatsApp client side.
    Core,
    /// The media engine side.
    Voip,
}

impl Tag for Role {
    open spec fn tag(self) -> u8 {
        match self {
            Role::Core => 0,
            Role::Voip => 1,
        }
    }

    open spec fn of_tag(b: u8) -> Option<Self> {
        match b {
            0 => Some(Role::Core),
            1 => Some(Role::Voip),
            _ => None,
        }
    }

    proof fn tag_inverse(self) {
    }

    proof fn of_tag_inverse(b: u8) {
    }
}

impl Discriminant for Role {
    fn to_byte(self) -> (b: u8) {
        self.as_u8()
    }

    fn of_byte(b: u8) -> (v: Option<Self>) {
        Self::from_u8(b)
    }
}

impl Role {
    /// The wire byte.
    pub fn as_u8(self) -> (b: u8)
        ensures
            b == self.tag(),
    {
        match self {
            Role::Core => 0,
            Role::Voip => 1,
        }
    }

    /// Parses a wire byte; unknown values fail rather than alias.
    pub fn from_u8(v: u8) -> (res: Option<Self>)
        ensures
            res == Self::of_tag(v),
    {
        match v {
            0 => Some(Role::Core),
            1 => Some(Role::Voip),
            _ => None,
        }
    }
}

/// Capability bits exchanged in `HELLO`. A bit set by both sides enables the
/// behavior; anything else is refused with `NOT_SUPPORTED`, never half-run.
pub struct Capabilities;

impl Capabilities {
    /// 16 kHz mono PCM frame pumps.
    pub const PCM: u32 = 0x01;

    /// Opaque encoded audio packets (codec negotiated in the open params).
    pub const ENCODED_AUDIO: u32 = 0x02;

    /// Encoded video frames plus the video control commands.
    pub const VIDEO: u32 = 0x04;

    /// Group roster operations (`GROUP_FITS`, group events).
    pub const GROUP_CALLS: u32 = 0x08;

    /// Call-link joins.
    pub const CALL_LINKS: u32 = 0x10;

    /// Unsolicited `STATS` pushes from the engine side.
    pub const STATS_PUSH: u32 = 0x20;

    /// Relay reconnect signalling through the engine side.
    pub const RELAY_RECONNECT: u32 = 0x40;
}

/// Typed failure a response can carry. The grammar is fixed: a code plus an
/// optional detail, never a stacked message.
#[derive(Debug, Clone, Copy, PartialEq, Eq, Structural)]
pub enum AbiErrorCode {
    /// Peer major differs; nothing else of the frame is acted on.
    BadVersion,
    /// The handle was never reserved.
    UnknownSession,
    /// The handle is known but the generation is not current. The message
    /// touched nothing; a stale session never touches its replacement.
    StaleGeneration,
    /// The payload fails its own shape (truncated field, bad enum, ...).
    BadPayload,
    /// The operation needs a capability the handshake did not agree on.
    NotSupported,
    /// A second open is already in flight for this session.
    Busy,
    /// Anything else on the responder side.
    Internal,
    /// The media transport failed: refused connect, expired dial, dropped
    /// socket. Maps to `MediaSetupError::Connect`, never to setup.
    Transport,
}

impl Tag for AbiErrorCode {
    open spec fn tag(self) -> u8 {
        match self {
            AbiErrorCode::BadVersion => 1,
            AbiErrorCode::UnknownSession => 2,
            AbiErrorCode::StaleGeneration => 3,
            AbiErrorCode::BadPayload => 4,
            AbiErrorCode::NotSupported => 5,
            AbiErrorCode::Busy => 6,
            AbiErrorCode::Internal => 7,
            AbiErrorCode::Transport => 8,
        }
    }

    open spec fn of_tag(b: u8) -> Option<Self> {
        match b {
            1 => Some(AbiErrorCode::BadVersion),
            2 => Some(AbiErrorCode::UnknownSession),
            3 => Some(AbiErrorCode::StaleGeneration),
            4 => Some(AbiErrorCode::BadPayload),
            5 => Some(AbiErrorCode::NotSupported),
            6 => Some(AbiErrorCode::Busy),
            7 => Some(AbiErrorCode::Internal),
            8 => Some(AbiErrorCode::Transport),
            _ => None,
        }
    }

    proof fn tag_inverse(self) {
    }

    proof fn of_tag_inverse(b: u8) {
    }
}

impl Discriminant for AbiErrorCode {
    fn to_byte(self) -> (b: u8) {
        self.as_u8()
    }

    fn of_byte(b: u8) -> (v: Option<Self>) {
        Self::from_u8(b)
    }
}

impl AbiErrorCode {
    /// The wire byte.
    pub fn as_u8(self) -> (b: u8)
        ensures
            b == self.tag(),
    {
        match self {
            AbiErrorCode::BadVersion => 1,
            AbiErrorCode::UnknownSession => 2,
            AbiErrorCode::StaleGeneration => 3,
            AbiErrorCode::BadPayload => 4,
            AbiErrorCode::NotSupported => 5,
            AbiErrorCode::Busy => 6,
            AbiErrorCode::Internal => 7,
            AbiErrorCode::Transport => 8,
        }
    }

    /// Parses a wire byte; unknown values fail rather than alias.
    pub fn from_u8(v: u8) -> (res: Option<Self>)
        ensures
            res == Self::of_tag(v),
    {
        match v {
            1 => Some(AbiErrorCode::BadVersion),
            2 => Some(AbiErrorCode::UnknownSession),
            3 => Some(AbiErrorCode::StaleGeneration),
            4 => Some(AbiErrorCode::BadPayload),
            5 => Some(AbiErrorCode::NotSupported),
            6 => Some(AbiErrorCode::Busy),
            7 => Some(AbiErrorCode::Internal),
            8 => Some(AbiErrorCode::Transport),
            _ => None,
        }
    }

    /// The written-down name, as a value.
    pub open spec fn name_spec(self) -> &'static str {
        match self {
            AbiErrorCode::BadVersion => "BAD_VERSION",
            AbiErrorCode::UnknownSession => "UNKNOWN_SESSION",
            AbiErrorCode::StaleGeneration => "STALE_GENERATION",
            AbiErrorCode::BadPayload => "BAD_PAYLOAD",
            AbiErrorCode::NotSupported => "NOT_SUPPORTED",
            AbiErrorCode::Busy => "BUSY",
            AbiErrorCode::Internal => "INTERNAL",
            AbiErrorCode::Transport => "TRANSPORT",
        }
    }

    /// Written-down name, so that no derived rendering can rename the wire.
    pub fn name(self) -> (s: &'static str)
        ensures
            s == self.name_spec(),
    {
        match self {
            AbiErrorCode::BadVersion => "BAD_VERSION",
            AbiErrorCode::UnknownSession => "UNKNOWN_SESSION",
            AbiErrorCode::StaleGeneration => "STALE_GENERATION",
            AbiErrorCode::BadPayload => "BAD_PAYLOAD",
            AbiErrorCode::NotSupported => "NOT_SUPPORTED",
            AbiErrorCode::Busy => "BUSY",
            AbiErrorCode::Internal => "INTERNAL",
            AbiErrorCode::Transport => "TRANSPORT",
        }
    }
}

/// A framed message: header plus the payload bytes that follow it.
#[derive(Debug, Clone, PartialEq, Eq)]
pub struct Frame {
    /// The peer's major, checked before anything else is read.
    pub major: u8,
    /// The peer's minor; the lower of the two sides wins.
    pub minor: u8,
    /// The operation.
    pub opcode: Opcode,
    /// `RESPONSE` / `ERROR` bits.
    pub flags: u16,
    /// The payload bytes.
    pub payload: Vec<u8>,
}

/// The values that a [`Frame`] carries.
#[verifier::ext_equal]
pub struct FrameView {
    pub major: u8,
    pub minor: u8,
    pub opcode: Opcode,
    pub flags: u16,
    pub payload: Seq<u8>,
}

impl View for Frame {
    type V = FrameView;

    open spec fn view(&self) -> FrameView {
        FrameView {
            major: self.major,
            minor: self.minor,
            opcode: self.opcode,
            flags: self.flags,
            payload: self.payload@,
        }
    }
}

/// `v` as two little-endian bytes.
pub open spec fn le_u16(v: u16) -> Seq<u8> {
    seq![(v as int % 256) as u8, (v as int / 256) as u8]
}

/// The number that two little-endian bytes hold.
pub open spec fn of_le_u16(low: u8, high: u8) -> u16 {
    (low as int + high as int * 256) as u16
}

impl FrameView {
    /// A request: current versions, no flags.
    pub open spec fn of_request(opcode: Opcode, payload: Seq<u8>) -> FrameView {
        FrameView { major: ABI_MAJOR, minor: ABI_MINOR, opcode, flags: 0, payload }
    }

    /// The success response: the request's opcode, `RESPONSE`.
    pub open spec fn response(self, payload: Seq<u8>) -> FrameView {
        FrameView {
            major: ABI_MAJOR,
            minor: ABI_MINOR,
            opcode: self.opcode,
            flags: FLAG_RESPONSE,
            payload,
        }
    }

    /// The failure response: the request's opcode, `RESPONSE | ERROR`, and an
    /// error body.
    pub open spec fn failure(self, code: AbiErrorCode, detail: Option<Seq<char>>) -> FrameView {
        FrameView {
            major: ABI_MAJOR,
            minor: ABI_MINOR,
            opcode: self.opcode,
            flags: FLAG_RESPONSE | FLAG_ERROR,
            payload: ErrorBodyView { code, detail }.body(),
        }
    }

    /// `RESPONSE` without `ERROR`.
    pub open spec fn is_response(self) -> bool {
        self.flags & FLAG_RESPONSE != 0 && self.flags & FLAG_ERROR == 0
    }

    /// `RESPONSE` with `ERROR`.
    pub open spec fn is_error(self) -> bool {
        self.flags & FLAG_RESPONSE != 0 && self.flags & FLAG_ERROR != 0
    }

    /// The header's 13 bytes.
    pub open spec fn header(self) -> Seq<u8> {
        MAGIC@ + seq![self.major, self.minor, self.opcode.tag()] + le_u16(self.flags) + le_u32(
            length_prefix(self.payload.len()),
        )
    }

    /// Header, then payload.
    pub open spec fn bytes(self) -> Seq<u8> {
        self.header() + self.payload
    }

    /// What a buffer holds as a frame, or the first thing wrong with it: the
    /// header's length, the magic, the opcode, the payload's length, in that
    /// order. The major is not judged, and bytes after the payload are
    /// ignored.
    pub open spec fn of_bytes(s: Seq<u8>) -> Result<FrameView, DecodeError> {
        if s.len() < HEADER_LEN {
            Err(DecodeError::TruncatedHeader { len: s.len() as usize })
        } else if s.take(4) != MAGIC@ {
            Err(DecodeError::BadMagic { got: [s[0], s[1], s[2], s[3]] })
        } else {
            match Opcode::of_tag(s[6]) {
                None => Err(DecodeError::UnknownOpcode(s[6])),
                Some(opcode) => {
                    let want = of_le_u32(s.subrange(9, 13));
                    let got = s.len() - HEADER_LEN;
                    if got < want {
                        Err(
                            DecodeError::TruncatedPayload { want: want as usize, got: got as usize },
                        )
                    } else {
                        Ok(
                            FrameView {
                                major: s[4],
                                minor: s[5],
                                opcode,
                                flags: of_le_u16(s[7], s[8]),
                                payload: s.subrange(13, 13 + want as int),
                            },
                        )
                    }
                },
            }
        }
    }
}

impl Frame {
    /// Frames a request: current versions, no flags.
    pub fn request(opcode: Opcode, payload: Vec<u8>) -> (f: Self)
        ensures
            f@ == FrameView::of_request(opcode, payload@),
            f.opcode == opcode,
            f.flags == 0,
            f.payload@ == payload@,
    {
        Frame { major: ABI_MAJOR, minor: ABI_MINOR, opcode, flags: 0, payload }
    }

    /// Frames the success response to `request`: opcode echoed, `RESPONSE`.
    pub fn respond(request: &Frame, payload: Vec<u8>) -> (f: Self)
        ensures
            f@ == request@.response(payload@),
            f.opcode == request.opcode,
            f.flags == 1,
            f.payload@ == payload@,
    {
        Frame {
            major: ABI_MAJOR,
            minor: ABI_MINOR,
            opcode: request.opcode,
            flags: FLAG_RESPONSE,
            payload,
        }
    }

    /// Frames the failure response: opcode echoed, `RESPONSE | ERROR`, with
    /// the code and optional detail as the body.
    pub fn fail(request: &Frame, code: AbiErrorCode, detail: Option<&str>) -> (f: Self)
        ensures
            f@ == request@.failure(
                code,
                match detail {
                    None => None,
                    Some(t) => Some(t@),
                },
            ),
    {
        broadcast use concat_empty;

        proof {
            reveal(ErrorBodyView::layout);
        }
        let mut w = Writer::new();
        w.u8(code.as_u8());
        w.option_str(detail);
        Frame {
            major: ABI_MAJOR,
            minor: ABI_MINOR,
            opcode: request.opcode,
            flags: FLAG_RESPONSE | FLAG_ERROR,
            payload: w.finish(),
        }
    }

    /// True for a success response.
    pub fn is_response(&self) -> (b: bool)
        ensures
            b == self@.is_response(),
    {
        self.flags & FLAG_RESPONSE != 0 && self.flags & FLAG_ERROR == 0
    }

    /// True for a failure response.
    pub fn is_error(&self) -> (b: bool)
        ensures
            b == self@.is_error(),
    {
        self.flags & FLAG_RESPONSE != 0 && self.flags & FLAG_ERROR != 0
    }

    /// Serializes header plus payload into one buffer.
    pub fn encode(&self) -> (out: Vec<u8>)
        ensures
            out@ == self@.bytes(),
            out@.len() == 13 + self.payload@.len(),
            out@[4] == self.major,
            out@[5] == self.minor,
            out@[6] == self.opcode.tag(),
            out@[7] as int + 256 * out@[8] as int == self.flags,
            out@.skip(13) == self.payload@,
    {
        broadcast use concat_empty;

        let mut w = Writer::new();
        w.u8(MAGIC[0]);
        w.u8(MAGIC[1]);
        w.u8(MAGIC[2]);
        w.u8(MAGIC[3]);
        w.u8(self.major);
        w.u8(self.minor);
        w.u8(self.opcode.as_u8());
        w.u8((self.flags % 256) as u8);
        w.u8((self.flags / 256) as u8);
        w.u32_le((self.payload.len() as u64 % 0x1_0000_0000) as u32);
        let mut out = w.finish();
        assert(out@ =~= self@.header());
        assert(out@.len() == 13) by {
            reveal(le_u32);
        }
        out.extend_from_slice(self.payload.as_slice());
        assert(out@ =~= self@.bytes());
        assert(out@.skip(13) =~= self.payload@);
        out
    }

    /// Parses one framed message. The major is returned unchecked for the
    /// handshake to judge; every other caller rejects a mismatch up front.
    pub fn decode(buf: &[u8]) -> (res: Result<Self, DecodeError>)
        ensures
            match res {
                Ok(f) => FrameView::of_bytes(buf@) == Ok::<FrameView, DecodeError>(f@),
                Err(e) => FrameView::of_bytes(buf@) == Err::<FrameView, DecodeError>(e),
            },
            res matches Ok(f) ==> {
                &&& f.major == buf@[4]
                &&& f.minor == buf@[5]
                &&& f.opcode.tag() == buf@[6]
                &&& f.flags == buf@[7] as int + 256 * buf@[8] as int
                &&& f.payload@ == buf@.subrange(13, 13 + f.payload@.len() as int)
            },
    {
        if buf.len() < HEADER_LEN {
            return Err(DecodeError::TruncatedHeader { len: buf.len() });
        }
        let magic: [u8; 4] = [buf[0], buf[1], buf[2], buf[3]];
        if buf[0] != MAGIC[0] || buf[1] != MAGIC[1] || buf[2] != MAGIC[2] || buf[3] != MAGIC[3] {
            assert(buf@.take(4) != MAGIC@) by {
                if buf@.take(4) == MAGIC@ {
                    assert(buf@[0] == buf@.take(4)[0]);
                    assert(buf@[1] == buf@.take(4)[1]);
                    assert(buf@[2] == buf@.take(4)[2]);
                    assert(buf@[3] == buf@.take(4)[3]);
                }
            }
            return Err(DecodeError::BadMagic { got: magic });
        }
        assert(buf@.take(4) =~= MAGIC@);
        let opcode = Opcode::from_u8(buf[6])?;
        let flags: u16 = buf[7] as u16 + buf[8] as u16 * 256;
        let len: u32 = buf[9] as u32 + buf[10] as u32 * 0x100 + buf[11] as u32 * 0x1_0000
            + buf[12] as u32 * 0x100_0000;
        assert(len == of_le_u32(buf@.subrange(9, 13)));
        let got: usize = buf.len() - HEADER_LEN;
        if got < len as usize {
            return Err(DecodeError::TruncatedPayload { want: len as usize, got });
        }
        let payload = slice_to_vec(slice_subrange(buf, HEADER_LEN, HEADER_LEN + len as usize));
        Ok(Frame { major: buf[4], minor: buf[5], opcode, flags, payload })
    }
}

/// Framing then parsing gives the frame back, whatever bytes follow it.
pub proof fn frame_round_trip(f: FrameView, trailing: Seq<u8>)
    requires
        f.payload.len() <= u32::MAX,
    ensures
        FrameView::of_bytes(f.bytes() + trailing) == Ok::<FrameView, DecodeError>(f),
{
    let s = f.bytes() + trailing;
    reveal(le_u32);
    f.opcode.tag_inverse();
    le_u32_inverse(length_prefix(f.payload.len()));
    assert(s.take(4) =~= MAGIC@);
    assert(s.subrange(9, 13) =~= le_u32(length_prefix(f.payload.len())));
    assert(s.subrange(13, 13 + f.payload.len() as int) =~= f.payload);
    assert(s[4] == f.major && s[5] == f.minor && s[6] == f.opcode.tag());
    assert(s[7] == le_u16(f.flags)[0] && s[8] == le_u16(f.flags)[1]);
}

/// A frame that parses does so with anything appended: trailing bytes are
/// never read.
pub proof fn frame_ignores_trailing(s: Seq<u8>, trailing: Seq<u8>)
    requires
        FrameView::of_bytes(s) is Ok,
    ensures
        FrameView::of_bytes(s + trailing) == FrameView::of_bytes(s),
{
    let t = s + trailing;
    let want = of_le_u32(s.subrange(9, 13));
    assert(t.take(4) =~= s.take(4));
    assert(t.subrange(9, 13) =~= s.subrange(9, 13));
    assert(t.subrange(13, 13 + want as int) =~= s.subrange(13, 13 + want as int));
}

/// No cut of a frame parses: inside the header it is a truncated header, and
/// behind it a payload that is shorter than promised.
pub proof fn frame_rejects_truncation(f: FrameView, kept: int)
    requires
        f.payload.len() <= u32::MAX,
        0 <= kept < f.bytes().len(),
        f.bytes().len() <= usize::MAX,
    ensures
        FrameView::of_bytes(f.bytes().take(kept)) == if kept < HEADER_LEN {
            Err::<FrameView, DecodeError>(DecodeError::TruncatedHeader { len: kept as usize })
        } else {
            Err::<FrameView, DecodeError>(
                DecodeError::TruncatedPayload {
                    want: f.payload.len() as usize,
                    got: (kept - HEADER_LEN) as usize,
                },
            )
        },
{
    let s = f.bytes().take(kept);
    reveal(le_u32);
    f.opcode.tag_inverse();
    le_u32_inverse(length_prefix(f.payload.len()));
    if kept >= HEADER_LEN {
        assert(s.take(4) =~= MAGIC@);
        assert(s.subrange(9, 13) =~= le_u32(length_prefix(f.payload.len())));
        assert(s[6] == f.opcode.tag());
    }
}

/// A response echoes the request's opcode and is a success; a failure echoes
/// it too and is an error. No frame is both.
pub proof fn responses_echo_the_request(
    request: FrameView,
    payload: Seq<u8>,
    code: AbiErrorCode,
    detail: Option<Seq<char>>,
)
    ensures
        request.response(payload).opcode == request.opcode,
        request.response(payload).is_response(),
        !request.response(payload).is_error(),
        request.failure(code, detail).opcode == request.opcode,
        request.failure(code, detail).is_error(),
        !request.failure(code, detail).is_response(),
        !FrameView::of_request(request.opcode, payload).is_response(),
        !FrameView::of_request(request.opcode, payload).is_error(),
{
    assert(FLAG_RESPONSE & FLAG_RESPONSE != 0 && FLAG_RESPONSE & FLAG_ERROR == 0) by (bit_vector);
    assert((FLAG_RESPONSE | FLAG_ERROR) & FLAG_RESPONSE != 0) by (bit_vector);
    assert((FLAG_RESPONSE | FLAG_ERROR) & FLAG_ERROR != 0) by (bit_vector);
    assert(0u16 & FLAG_RESPONSE == 0) by (bit_vector);
}

/// A failure's payload decodes to the code and detail it was made from.
pub proof fn failure_carries_its_code(
    request: FrameView,
    code: AbiErrorCode,
    detail: Option<Seq<char>>,
)
    requires
        opt_text_fits(detail),
    ensures
        decoded::<ErrorBodyView>(request.failure(code, detail).payload) == Ok::<
            ErrorBodyView,
            DecodeError,
        >(ErrorBodyView { code, detail }),
{
    let body = ErrorBodyView { code, detail };
    decode_inverts_encode(body, Seq::empty());
    assert(body.body() + Seq::<u8>::empty() =~= body.body());
}

} // verus!
