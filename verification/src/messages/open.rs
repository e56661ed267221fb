//! Session set-up bodies: reserving, opening, cancelling and closing.

use vstd::prelude::*;
use vstd::slice::slice_to_vec;

use crate::codec::{DecodeError, Reader, Writer};
use crate::messages::fields::{
    at_most, decode_option_dto, decode_option_secret, decode_option_tag, decode_option_u32,
    decode_rotations, encode_option_dto, encode_option_secret, encode_option_tag,
    encode_option_u32, encode_rotations, enum_byte, opt_owned, opt_str, opt_view, rotations,
    Discriminant, Dto, MAX_ITEMS,
};
use crate::messages::group::{GroupCallUpdateDto, GroupCallUpdateDtoView};
use crate::secret::SecretBytes;
use crate::session::SessionId;
use crate::wire::{
    blob, blob_fits, concat_empty, decoded, extended, group_extends, group_stuck, group_written,
    le_u32, le_u32_len, le_u64, list, list_fits, opt, opt_fits, opt_tag, opt_text, opt_text_fits,
    text, text_fits, Body, Cursor, Piece, Tag,
};

verus! {

/// Call direction, mirroring the core's neutral enum.
#[derive(Debug, Clone, Copy, PartialEq, Eq, Structural)]
pub enum Direction {
    /// This side placed the call.
    Outgoing,
    /// This side received the call.
    Incoming,
}

impl Tag for Direction {
    open spec fn tag(self) -> u8 {
        match self {
            Direction::Outgoing => 0,
            Direction::Incoming => 1,
        }
    }

    open spec fn of_tag(b: u8) -> Option<Self> {
        match b {
            0 => Some(Direction::Outgoing),
            1 => Some(Direction::Incoming),
            _ => None,
        }
    }

    proof fn tag_inverse(self) {
    }

    proof fn of_tag_inverse(b: u8) {
    }
}

impl Discriminant for Direction {
    fn to_byte(self) -> (b: u8) {
        self.as_u8()
    }

    fn of_byte(b: u8) -> (v: Option<Self>) {
        Self::from_u8(b)
    }
}

impl Direction {
    /// The wire byte.
    pub fn as_u8(self) -> (b: u8)
        ensures
            b == self.tag(),
    {
        match self {
            Direction::Outgoing => 0,
            Direction::Incoming => 1,
        }
    }

    /// Parses a wire byte; unknown values fail rather than alias.
    pub fn from_u8(v: u8) -> (res: Option<Self>)
        ensures
            res == Self::of_tag(v),
    {
        match v {
            0 => Some(Direction::Outgoing),
            1 => Some(Direction::Incoming),
            _ => None,
        }
    }

    /// The written-down name, as a value.
    pub open spec fn name_spec(self) -> &'static str {
        match self {
            Direction::Outgoing => "OUTGOING",
            Direction::Incoming => "INCOMING",
        }
    }

    /// Written-down name, so that no derived rendering can rename the wire.
    pub fn name(self) -> (s: &'static str)
        ensures
            s == self.name_spec(),
    {
        match self {
            Direction::Outgoing => "OUTGOING",
            Direction::Incoming => "INCOMING",
        }
    }
}

/// Where encoding and decoding happen, mirroring the core's audio I/O mode.
#[derive(Debug, Clone, Copy, PartialEq, Eq, Structural)]
pub enum AudioIo {
    /// 16-bit PCM frames cross; the engine converts with its codec.
    Pcm,
    /// Complete codec payloads cross, transcoded nowhere.
    Encoded,
}

impl Tag for AudioIo {
    open spec fn tag(self) -> u8 {
        match self {
            AudioIo::Pcm => 0,
            AudioIo::Encoded => 1,
        }
    }

    open spec fn of_tag(b: u8) -> Option<Self> {
        match b {
            0 => Some(AudioIo::Pcm),
            1 => Some(AudioIo::Encoded),
            _ => None,
        }
    }

    proof fn tag_inverse(self) {
    }

    proof fn of_tag_inverse(b: u8) {
    }
}

impl Discriminant for AudioIo {
    fn to_byte(self) -> (b: u8) {
        self.as_u8()
    }

    fn of_byte(b: u8) -> (v: Option<Self>) {
        Self::from_u8(b)
    }
}

impl AudioIo {
    /// The wire byte.
    pub fn as_u8(self) -> (b: u8)
        ensures
            b == self.tag(),
    {
        match self {
            AudioIo::Pcm => 0,
            AudioIo::Encoded => 1,
        }
    }

    /// Parses a wire byte; unknown values fail rather than alias.
    pub fn from_u8(v: u8) -> (res: Option<Self>)
        ensures
            res == Self::of_tag(v),
    {
        match v {
            0 => Some(AudioIo::Pcm),
            1 => Some(AudioIo::Encoded),
            _ => None,
        }
    }

    /// The written-down name, as a value.
    pub open spec fn name_spec(self) -> &'static str {
        match self {
            AudioIo::Pcm => "PCM",
            AudioIo::Encoded => "ENCODED",
        }
    }

    /// Written-down name, so that no derived rendering can rename the wire.
    pub fn name(self) -> (s: &'static str)
        ensures
            s == self.name_spec(),
    {
        match self {
            AudioIo::Pcm => "PCM",
            AudioIo::Encoded => "ENCODED",
        }
    }
}

/// Audio codec, mirroring the core's neutral codec enum.
#[derive(Debug, Clone, Copy, PartialEq, Eq, Structural)]
pub enum AudioCodecWire {
    /// MLOW codec audio.
    Mlow,
    /// Opus audio.
    Opus,
}

impl Tag for AudioCodecWire {
    open spec fn tag(self) -> u8 {
        match self {
            AudioCodecWire::Mlow => 1,
            AudioCodecWire::Opus => 2,
        }
    }

    open spec fn of_tag(b: u8) -> Option<Self> {
        match b {
            1 => Some(AudioCodecWire::Mlow),
            2 => Some(AudioCodecWire::Opus),
            _ => None,
        }
    }

    proof fn tag_inverse(self) {
    }

    proof fn of_tag_inverse(b: u8) {
    }
}

impl Discriminant for AudioCodecWire {
    fn to_byte(self) -> (b: u8) {
        self.as_u8()
    }

    fn of_byte(b: u8) -> (v: Option<Self>) {
        Self::from_u8(b)
    }
}

impl AudioCodecWire {
    /// The wire byte.
    pub fn as_u8(self) -> (b: u8)
        ensures
            b == self.tag(),
    {
        match self {
            AudioCodecWire::Mlow => 1,
            AudioCodecWire::Opus => 2,
        }
    }

    /// Parses a wire byte; unknown values fail rather than alias.
    pub fn from_u8(v: u8) -> (res: Option<Self>)
        ensures
            res == Self::of_tag(v),
    {
        match v {
            1 => Some(AudioCodecWire::Mlow),
            2 => Some(AudioCodecWire::Opus),
            _ => None,
        }
    }

    /// The written-down name, as a value.
    pub open spec fn name_spec(self) -> &'static str {
        match self {
            AudioCodecWire::Mlow => "MLOW",
            AudioCodecWire::Opus => "OPUS",
        }
    }

    /// Written-down name, so that no derived rendering can rename the wire.
    pub fn name(self) -> (s: &'static str)
        ensures
            s == self.name_spec(),
    {
        match self {
            AudioCodecWire::Mlow => "MLOW",
            AudioCodecWire::Opus => "OPUS",
        }
    }
}

/// RTP payload family, mirroring the core's neutral profile enum.
#[derive(Debug, Clone, Copy, PartialEq, Eq, Structural)]
pub enum RtpProfile {
    /// WhatsApp MLOW framing.
    Mlow,
    /// Native Opus bytes.
    StandardOpus,
}

impl Tag for RtpProfile {
    open spec fn tag(self) -> u8 {
        match self {
            RtpProfile::Mlow => 0,
            RtpProfile::StandardOpus => 1,
        }
    }

    open spec fn of_tag(b: u8) -> Option<Self> {
        match b {
            0 => Some(RtpProfile::Mlow),
            1 => Some(RtpProfile::StandardOpus),
            _ => None,
        }
    }

    proof fn tag_inverse(self) {
    }

    proof fn of_tag_inverse(b: u8) {
    }
}

impl Discriminant for RtpProfile {
    fn to_byte(self) -> (b: u8) {
        self.as_u8()
    }

    fn of_byte(b: u8) -> (v: Option<Self>) {
        Self::from_u8(b)
    }
}

impl RtpProfile {
    /// The wire byte.
    pub fn as_u8(self) -> (b: u8)
        ensures
            b == self.tag(),
    {
        match self {
            RtpProfile::Mlow => 0,
            RtpProfile::StandardOpus => 1,
        }
    }

    /// Parses a wire byte; unknown values fail rather than alias.
    pub fn from_u8(v: u8) -> (res: Option<Self>)
        ensures
            res == Self::of_tag(v),
    {
        match v {
            0 => Some(RtpProfile::Mlow),
            1 => Some(RtpProfile::StandardOpus),
            _ => None,
        }
    }

    /// The written-down name, as a value.
    pub open spec fn name_spec(self) -> &'static str {
        match self {
            RtpProfile::Mlow => "MLOW",
            RtpProfile::StandardOpus => "STANDARD_OPUS",
        }
    }

    /// Written-down name, so that no derived rendering can rename the wire.
    pub fn name(self) -> (s: &'static str)
        ensures
            s == self.name_spec(),
    {
        match self {
            RtpProfile::Mlow => "MLOW",
            RtpProfile::StandardOpus => "STANDARD_OPUS",
        }
    }
}

/// What aborting an in-flight open found.
#[derive(Debug, Clone, Copy, PartialEq, Eq, Structural)]
pub enum CancelOutcome {
    /// Setup stopped before media flowed.
    Aborted,
    /// Setup had already completed; the session is open.
    AlreadyOpen,
    /// Nothing was in flight for this session.
    Unknown,
}

impl Tag for CancelOutcome {
    open spec fn tag(self) -> u8 {
        match self {
            CancelOutcome::Aborted => 1,
            CancelOutcome::AlreadyOpen => 2,
            CancelOutcome::Unknown => 3,
        }
    }

    open spec fn of_tag(b: u8) -> Option<Self> {
        match b {
            1 => Some(CancelOutcome::Aborted),
            2 => Some(CancelOutcome::AlreadyOpen),
            3 => Some(CancelOutcome::Unknown),
            _ => None,
        }
    }

    proof fn tag_inverse(self) {
    }

    proof fn of_tag_inverse(b: u8) {
    }
}

impl Discriminant for CancelOutcome {
    fn to_byte(self) -> (b: u8) {
        self.as_u8()
    }

    fn of_byte(b: u8) -> (v: Option<Self>) {
        Self::from_u8(b)
    }
}

impl CancelOutcome {
    /// The wire byte.
    pub fn as_u8(self) -> (b: u8)
        ensures
            b == self.tag(),
    {
        match self {
            CancelOutcome::Aborted => 1,
            CancelOutcome::AlreadyOpen => 2,
            CancelOutcome::Unknown => 3,
        }
    }

    /// Parses a wire byte; unknown values fail rather than alias.
    pub fn from_u8(v: u8) -> (res: Option<Self>)
        ensures
            res == Self::of_tag(v),
    {
        match v {
            1 => Some(CancelOutcome::Aborted),
            2 => Some(CancelOutcome::AlreadyOpen),
            3 => Some(CancelOutcome::Unknown),
            _ => None,
        }
    }

    /// The written-down name, as a value.
    pub open spec fn name_spec(self) -> &'static str {
        match self {
            CancelOutcome::Aborted => "ABORTED",
            CancelOutcome::AlreadyOpen => "ALREADY_OPEN",
            CancelOutcome::Unknown => "UNKNOWN",
        }
    }

    /// Written-down name, so that no derived rendering can rename the wire.
    pub fn name(self) -> (s: &'static str)
        ensures
            s == self.name_spec(),
    {
        match self {
            CancelOutcome::Aborted => "ABORTED",
            CancelOutcome::AlreadyOpen => "ALREADY_OPEN",
            CancelOutcome::Unknown => "UNKNOWN",
        }
    }
}

/// Why a session or its media ended. One enum for `CLOSE` and `MEDIA_ENDED`
/// so both sides read the same reason off either path.
#[derive(Debug, Clone, Copy, PartialEq, Eq, Structural)]
pub enum CloseReason {
    /// This side hung up, or the control plane asked.
    LocalHangup,
    /// The peer ended the call.
    RemoteEnd,
    /// A newer generation replaced this session.
    Replaced,
    /// Setup or media failed.
    Failed,
    /// A deadline passed (dial, open, handshake).
    Timeout,
    /// The relay dropped mid-call.
    RelayDropped,
}

impl Tag for CloseReason {
    open spec fn tag(self) -> u8 {
        match self {
            CloseReason::LocalHangup => 1,
            CloseReason::RemoteEnd => 2,
            CloseReason::Replaced => 3,
            CloseReason::Failed => 4,
            CloseReason::Timeout => 5,
            CloseReason::RelayDropped => 6,
        }
    }

    open spec fn of_tag(b: u8) -> Option<Self> {
        match b {
            1 => Some(CloseReason::LocalHangup),
            2 => Some(CloseReason::RemoteEnd),
            3 => Some(CloseReason::Replaced),
            4 => Some(CloseReason::Failed),
            5 => Some(CloseReason::Timeout),
            6 => Some(CloseReason::RelayDropped),
            _ => None,
        }
    }

    proof fn tag_inverse(self) {
    }

    proof fn of_tag_inverse(b: u8) {
    }
}

impl Discriminant for CloseReason {
    fn to_byte(self) -> (b: u8) {
        self.as_u8()
    }

    fn of_byte(b: u8) -> (v: Option<Self>) {
        Self::from_u8(b)
    }
}

impl CloseReason {
    /// The wire byte.
    pub fn as_u8(self) -> (b: u8)
        ensures
            b == self.tag(),
    {
        match self {
            CloseReason::LocalHangup => 1,
            CloseReason::RemoteEnd => 2,
            CloseReason::Replaced => 3,
            CloseReason::Failed => 4,
            CloseReason::Timeout => 5,
            CloseReason::RelayDropped => 6,
        }
    }

    /// Parses a wire byte; unknown values fail rather than alias.
    pub fn from_u8(v: u8) -> (res: Option<Self>)
        ensures
            res == Self::of_tag(v),
    {
        match v {
            1 => Some(CloseReason::LocalHangup),
            2 => Some(CloseReason::RemoteEnd),
            3 => Some(CloseReason::Replaced),
            4 => Some(CloseReason::Failed),
            5 => Some(CloseReason::Timeout),
            6 => Some(CloseReason::RelayDropped),
            _ => None,
        }
    }

    /// The written-down name, as a value.
    pub open spec fn name_spec(self) -> &'static str {
        match self {
            CloseReason::LocalHangup => "LOCAL_HANGUP",
            CloseReason::RemoteEnd => "REMOTE_END",
            CloseReason::Replaced => "REPLACED",
            CloseReason::Failed => "FAILED",
            CloseReason::Timeout => "TIMEOUT",
            CloseReason::RelayDropped => "RELAY_DROPPED",
        }
    }

    /// Written-down name, so that no derived rendering can rename the wire.
    pub fn name(self) -> (s: &'static str)
        ensures
            s == self.name_spec(),
    {
        match self {
            CloseReason::LocalHangup => "LOCAL_HANGUP",
            CloseReason::RemoteEnd => "REMOTE_END",
            CloseReason::Replaced => "REPLACED",
            CloseReason::Failed => "FAILED",
            CloseReason::Timeout => "TIMEOUT",
            CloseReason::RelayDropped => "RELAY_DROPPED",
        }
    }
}

/// Video direction bits in the open params.
pub struct VideoCaps;

impl VideoCaps {
    /// This side may send video.
    pub const SEND: u8 = 0x01;

    /// This side may receive video.
    pub const RECV: u8 = 0x02;
}

/// `RESERVE` request: binds a handle to `(call_id, generation, direction)`
/// before any media message names it. Reserving a handle that is still
/// reserved fails; replacement is `CLOSE` then `RESERVE`, never an overwrite.
#[derive(Debug, Clone, PartialEq, Eq)]
pub struct ReserveRequest {
    /// The session identity being bound.
    pub session: SessionId,
    /// The WhatsApp call id this handle stands for.
    pub call_id: String,
    /// Which way the call flows.
    pub direction: Direction,
}

/// The values that a [`ReserveRequest`] carries.
#[verifier::ext_equal]
pub struct ReserveRequestView {
    pub session: SessionId,
    pub call_id: Seq<char>,
    pub direction: Direction,
}

impl View for ReserveRequest {
    type V = ReserveRequestView;

    open spec fn view(&self) -> ReserveRequestView {
        ReserveRequestView {
            session: self.session,
            call_id: self.call_id@,
            direction: self.direction,
        }
    }
}

impl ReserveRequestView {
    /// The fields as bytes, in wire order.
    #[verifier::opaque]
    pub open spec fn layout(self) -> Seq<u8> {
        le_u32(self.session.handle)
            + le_u64(self.session.generation)
            + text(self.call_id)
            + seq![self.direction.tag()]
    }

    /// The fields, read in wire order.
    #[verifier::opaque]
    pub open spec fn fields(c: Cursor) -> (ReserveRequestView, Cursor) {
        let (handle, c) = c.u32();
        let (generation, c) = c.u64();
        let (call_id, c) = c.text();
        let (direction, c) = c.tag::<Direction>("direction");
        (ReserveRequestView { session: SessionId { handle, generation }, call_id, direction }, c)
    }
}

impl Body for ReserveRequestView {
    open spec fn body_fits(self) -> bool {
        text_fits(self.call_id)
    }

    open spec fn body(self) -> Seq<u8> {
        self.layout()
    }

    open spec fn parse(c: Cursor) -> (ReserveRequestView, Cursor) {
        ReserveRequestView::fields(c)
    }

    proof fn body_written(self, tail: Seq<u8>) {
        broadcast use group_written;

        reveal(ReserveRequestView::layout);
        reveal(ReserveRequestView::fields);
    }

    proof fn parse_extends(s: Seq<u8>, more: Seq<u8>) {
        broadcast use {group_extends, group_stuck};

        reveal(ReserveRequestView::fields);
        assert(Cursor::at(s + more) == extended(Cursor::at(s), more));
    }
}

impl ReserveRequest {
    /// Serializes the body.
    pub fn encode(&self) -> (payload: Vec<u8>)
        ensures
            payload@ == self@.body(),
    {
        broadcast use concat_empty;

        proof {
            reveal(ReserveRequestView::layout);
        }
        let mut w = Writer::new();
        w.u32_le(self.session.handle);
        w.u64_le(self.session.generation);
        w.utf8(self.call_id.as_str());
        w.u8(self.direction.as_u8());
        w.finish()
    }

    /// Parses the body. Trailing bytes are ignored (newer minor fields).
    pub fn decode(buf: &[u8]) -> (res: Result<Self, DecodeError>)
        ensures
            match res {
                Ok(v) => decoded::<ReserveRequestView>(buf@) == Ok::<ReserveRequestView, DecodeError>(v@),
                Err(e) => decoded::<ReserveRequestView>(buf@) == Err::<ReserveRequestView, DecodeError>(e),
            },
    {
        broadcast use group_stuck;

        proof {
            reveal(ReserveRequestView::fields);
        }
        let mut r = Reader::new(buf);
        let handle: u32 = r.u32_le()?;
        let generation: u64 = r.u64_le()?;
        let call_id = r.utf8()?.to_owned();
        let direction = enum_byte::<Direction>("direction", &mut r)?;
        Ok(ReserveRequest { session: SessionId { handle, generation }, call_id, direction })
    }
}

impl Dto for ReserveRequest {
    fn to_payload(&self) -> (payload: Vec<u8>) {
        self.encode()
    }

    fn of_payload(buf: &[u8]) -> (res: Result<Self, DecodeError>) {
        Self::decode(buf)
    }
}

/// Fixed audio timing for one call, mirroring the core's audio format.
#[derive(Debug, Clone, Copy, PartialEq, Eq)]
pub struct AudioFormatDto {
    /// Codec of the payloads.
    pub codec: AudioCodecWire,
    /// RTP family negotiated with the peer.
    pub rtp_profile: RtpProfile,
    /// `<audio rate=…>` value used by call signaling.
    pub signaling_rate: u32,
    /// PCM rate expected by a codec adapter.
    pub sample_rate: u32,
    /// Channels (1 for mono).
    pub channels: u8,
    /// PCM samples per encoded payload, per channel.
    pub samples_per_frame: u32,
    /// RTP clock rate.
    pub rtp_clock_rate: u32,
    /// RTP clock increment per access unit.
    pub rtp_timestamp_step: u32,
    /// RTP payload type.
    pub rtp_payload_type: u8,
}

impl View for AudioFormatDto {
    type V = AudioFormatDto;

    open spec fn view(&self) -> AudioFormatDto {
        *self
    }
}

impl AudioFormatDto {
    /// The fields as bytes, in wire order.
    #[verifier::opaque]
    pub open spec fn layout(self) -> Seq<u8> {
        seq![self.codec.tag()]
            + seq![self.rtp_profile.tag()]
            + le_u32(self.signaling_rate)
            + le_u32(self.sample_rate)
            + seq![self.channels]
            + le_u32(self.samples_per_frame)
            + le_u32(self.rtp_clock_rate)
            + le_u32(self.rtp_timestamp_step)
            + seq![self.rtp_payload_type]
    }

    /// The fields, read in wire order.
    #[verifier::opaque]
    pub open spec fn fields(c: Cursor) -> (AudioFormatDto, Cursor) {
        let (codec, c) = c.tag::<AudioCodecWire>("codec");
        let (rtp_profile, c) = c.tag::<RtpProfile>("rtp_profile");
        let (signaling_rate, c) = c.u32();
        let (sample_rate, c) = c.u32();
        let (channels, c) = c.u8();
        let (samples_per_frame, c) = c.u32();
        let (rtp_clock_rate, c) = c.u32();
        let (rtp_timestamp_step, c) = c.u32();
        let (rtp_payload_type, c) = c.u8();
        (AudioFormatDto { codec, rtp_profile, signaling_rate, sample_rate, channels, samples_per_frame, rtp_clock_rate, rtp_timestamp_step, rtp_payload_type }, c)
    }

    /// The body always takes 24 bytes.
    pub proof fn layout_len(self)
        ensures
            self.layout().len() == 24,
    {
        broadcast use le_u32_len;

        reveal(AudioFormatDto::layout);
    }
}

impl Body for AudioFormatDto {
    open spec fn body_fits(self) -> bool {
        true
    }

    open spec fn body(self) -> Seq<u8> {
        self.layout()
    }

    open spec fn parse(c: Cursor) -> (AudioFormatDto, Cursor) {
        AudioFormatDto::fields(c)
    }

    proof fn body_written(self, tail: Seq<u8>) {
        broadcast use group_written;

        reveal(AudioFormatDto::layout);
        reveal(AudioFormatDto::fields);
    }

    proof fn parse_extends(s: Seq<u8>, more: Seq<u8>) {
        broadcast use {group_extends, group_stuck};

        reveal(AudioFormatDto::fields);
        assert(Cursor::at(s + more) == extended(Cursor::at(s), more));
    }
}

impl AudioFormatDto {
    /// Serializes the body.
    pub fn encode(&self) -> (payload: Vec<u8>)
        ensures
            payload@ == self@.body(),
    {
        broadcast use concat_empty;

        proof {
            reveal(AudioFormatDto::layout);
        }
        let mut w = Writer::new();
        w.u8(self.codec.as_u8());
        w.u8(self.rtp_profile.as_u8());
        w.u32_le(self.signaling_rate);
        w.u32_le(self.sample_rate);
        w.u8(self.channels);
        w.u32_le(self.samples_per_frame);
        w.u32_le(self.rtp_clock_rate);
        w.u32_le(self.rtp_timestamp_step);
        w.u8(self.rtp_payload_type);
        w.finish()
    }

    /// Parses the body. Trailing bytes are ignored (newer minor fields).
    pub fn decode(buf: &[u8]) -> (res: Result<Self, DecodeError>)
        ensures
            match res {
                Ok(v) => decoded::<AudioFormatDto>(buf@) == Ok::<AudioFormatDto, DecodeError>(v@),
                Err(e) => decoded::<AudioFormatDto>(buf@) == Err::<AudioFormatDto, DecodeError>(e),
            },
    {
        broadcast use group_stuck;

        proof {
            reveal(AudioFormatDto::fields);
        }
        let mut r = Reader::new(buf);
        let codec = enum_byte::<AudioCodecWire>("codec", &mut r)?;
        let rtp_profile = enum_byte::<RtpProfile>("rtp_profile", &mut r)?;
        let signaling_rate: u32 = r.u32_le()?;
        let sample_rate: u32 = r.u32_le()?;
        let channels: u8 = r.u8()?;
        let samples_per_frame: u32 = r.u32_le()?;
        let rtp_clock_rate: u32 = r.u32_le()?;
        let rtp_timestamp_step: u32 = r.u32_le()?;
        let rtp_payload_type: u8 = r.u8()?;
        Ok(AudioFormatDto { codec, rtp_profile, signaling_rate, sample_rate, channels, samples_per_frame, rtp_clock_rate, rtp_timestamp_step, rtp_payload_type })
    }
}

impl Dto for AudioFormatDto {
    fn to_payload(&self) -> (payload: Vec<u8>) {
        self.encode()
    }

    fn of_payload(buf: &[u8]) -> (res: Result<Self, DecodeError>) {
        Self::decode(buf)
    }
}

/// One direct peer inside a group open, mirroring the core's direct-peer
/// record. The callKey is secret.
#[derive(Clone, PartialEq, Eq)]
pub struct DirectPeerDto {
    /// User JID string.
    pub user_jid: String,
    /// Device JID string.
    pub device_jid: String,
    /// Direct-call callKey (secret).
    pub call_key: SecretBytes,
}

/// The values that a [`DirectPeerDto`] carries.
#[verifier::ext_equal]
pub struct DirectPeerDtoView {
    pub user_jid: Seq<char>,
    pub device_jid: Seq<char>,
    pub call_key: Seq<u8>,
}

impl View for DirectPeerDto {
    type V = DirectPeerDtoView;

    open spec fn view(&self) -> DirectPeerDtoView {
        DirectPeerDtoView {
            user_jid: self.user_jid@,
            device_jid: self.device_jid@,
            call_key: self.call_key@,
        }
    }
}

impl DirectPeerDtoView {
    /// The fields as bytes, in wire order.
    #[verifier::opaque]
    pub open spec fn layout(self) -> Seq<u8> {
        text(self.user_jid)
            + text(self.device_jid)
            + blob(self.call_key)
    }

    /// The fields, read in wire order.
    #[verifier::opaque]
    pub open spec fn fields(c: Cursor) -> (DirectPeerDtoView, Cursor) {
        let (user_jid, c) = c.text();
        let (device_jid, c) = c.text();
        let (call_key, c) = c.blob();
        (DirectPeerDtoView { user_jid, device_jid, call_key }, c)
    }
}

impl Body for DirectPeerDtoView {
    open spec fn body_fits(self) -> bool {
        &&& text_fits(self.user_jid)
        &&& text_fits(self.device_jid)
        &&& blob_fits(self.call_key)
    }

    open spec fn body(self) -> Seq<u8> {
        self.layout()
    }

    open spec fn parse(c: Cursor) -> (DirectPeerDtoView, Cursor) {
        DirectPeerDtoView::fields(c)
    }

    proof fn body_written(self, tail: Seq<u8>) {
        broadcast use group_written;

        reveal(DirectPeerDtoView::layout);
        reveal(DirectPeerDtoView::fields);
    }

    proof fn parse_extends(s: Seq<u8>, more: Seq<u8>) {
        broadcast use {group_extends, group_stuck};

        reveal(DirectPeerDtoView::fields);
        assert(Cursor::at(s + more) == extended(Cursor::at(s), more));
    }
}

impl DirectPeerDto {
    /// Serializes the body.
    pub fn encode(&self) -> (payload: Vec<u8>)
        ensures
            payload@ == self@.body(),
    {
        broadcast use concat_empty;

        proof {
            reveal(DirectPeerDtoView::layout);
        }
        let mut w = Writer::new();
        w.utf8(self.user_jid.as_str());
        w.utf8(self.device_jid.as_str());
        w.bytes_raw(self.call_key.as_bytes());
        w.finish()
    }

    /// Parses the body. Trailing bytes are ignored (newer minor fields).
    pub fn decode(buf: &[u8]) -> (res: Result<Self, DecodeError>)
        ensures
            match res {
                Ok(v) => decoded::<DirectPeerDtoView>(buf@) == Ok::<DirectPeerDtoView, DecodeError>(v@),
                Err(e) => decoded::<DirectPeerDtoView>(buf@) == Err::<DirectPeerDtoView, DecodeError>(e),
            },
    {
        broadcast use group_stuck;

        proof {
            reveal(DirectPeerDtoView::fields);
        }
        let mut r = Reader::new(buf);
        let user_jid = r.utf8()?.to_owned();
        let device_jid = r.utf8()?.to_owned();
        let call_key = SecretBytes::new(slice_to_vec(r.bytes_raw()?));
        Ok(DirectPeerDto { user_jid, device_jid, call_key })
    }
}

impl Dto for DirectPeerDto {
    fn to_payload(&self) -> (payload: Vec<u8>) {
        self.encode()
    }

    fn of_payload(buf: &[u8]) -> (res: Result<Self, DecodeError>) {
        Self::decode(buf)
    }
}

/// Group state for an open into a group call, mirroring the core's group
/// spec plus the already-authenticated epoch the caller fanned out, if any.
#[derive(Clone, PartialEq, Eq)]
pub struct GroupOpenSpec {
    /// Creator JID string.
    pub call_creator: String,
    /// Own JID string.
    pub self_jid: String,
    /// The roster snapshot the open starts from.
    pub initial_update: GroupCallUpdateDto,
    /// Direct peer, if any.
    pub direct_peer: Option<DirectPeerDto>,
    /// Transaction id of the pre-authenticated epoch, if any.
    pub epoch_transaction_id: Option<u32>,
    /// The pre-authenticated epoch itself (secret).
    pub epoch: Option<SecretBytes>,
}

/// The values that a [`GroupOpenSpec`] carries.
#[verifier::ext_equal]
pub struct GroupOpenSpecView {
    pub call_creator: Seq<char>,
    pub self_jid: Seq<char>,
    pub initial_update: GroupCallUpdateDtoView,
    pub direct_peer: Option<DirectPeerDtoView>,
    pub epoch_transaction_id: Option<u32>,
    pub epoch: Option<Seq<u8>>,
}

impl View for GroupOpenSpec {
    type V = GroupOpenSpecView;

    open spec fn view(&self) -> GroupOpenSpecView {
        GroupOpenSpecView {
            call_creator: self.call_creator@,
            self_jid: self.self_jid@,
            initial_update: self.initial_update@,
            direct_peer: opt_view(self.direct_peer),
            epoch_transaction_id: self.epoch_transaction_id,
            epoch: opt_view(self.epoch),
        }
    }
}

impl GroupOpenSpecView {
    /// The fields as bytes, in wire order.
    #[verifier::opaque]
    pub open spec fn layout(self) -> Seq<u8> {
        text(self.call_creator)
            + text(self.self_jid)
            + blob(self.initial_update.body())
            + opt(self.direct_peer)
            + opt(self.epoch_transaction_id)
            + opt(self.epoch)
    }

    /// The fields, read in wire order.
    #[verifier::opaque]
    pub open spec fn fields(c: Cursor) -> (GroupOpenSpecView, Cursor) {
        let (call_creator, c) = c.text();
        let (self_jid, c) = c.text();
        let (initial_update, c) = GroupCallUpdateDtoView::read(c);
        let (direct_peer, c) = c.opt::<DirectPeerDtoView>("direct_peer");
        let (epoch_transaction_id, c) = c.opt::<u32>("epoch_transaction_id");
        let (epoch, c) = c.opt::<Seq<u8>>("epoch");
        (GroupOpenSpecView { call_creator, self_jid, initial_update, direct_peer, epoch_transaction_id, epoch }, c)
    }
}

impl Body for GroupOpenSpecView {
    open spec fn body_fits(self) -> bool {
        &&& text_fits(self.call_creator)
        &&& text_fits(self.self_jid)
        &&& self.initial_update.fits()
        &&& opt_fits(self.direct_peer)
        &&& opt_fits(self.epoch)
    }

    open spec fn body(self) -> Seq<u8> {
        self.layout()
    }

    open spec fn parse(c: Cursor) -> (GroupOpenSpecView, Cursor) {
        GroupOpenSpecView::fields(c)
    }

    proof fn body_written(self, tail: Seq<u8>) {
        broadcast use group_written;

        reveal(GroupOpenSpecView::layout);
        reveal(GroupOpenSpecView::fields);
    }

    proof fn parse_extends(s: Seq<u8>, more: Seq<u8>) {
        broadcast use {group_extends, group_stuck};

        reveal(GroupOpenSpecView::fields);
        assert(Cursor::at(s + more) == extended(Cursor::at(s), more));
    }
}

impl GroupOpenSpec {
    /// Serializes the body.
    pub fn encode(&self) -> (payload: Vec<u8>)
        ensures
            payload@ == self@.body(),
    {
        broadcast use concat_empty;

        proof {
            reveal(GroupOpenSpecView::layout);
        }
        let mut w = Writer::new();
        w.utf8(self.call_creator.as_str());
        w.utf8(self.self_jid.as_str());
        let raw = self.initial_update.encode();
        w.bytes_raw(raw.as_slice());
        encode_option_dto(&mut w, &self.direct_peer);
        encode_option_u32(&mut w, self.epoch_transaction_id);
        encode_option_secret(&mut w, &self.epoch);
        w.finish()
    }

    /// Parses the body. Trailing bytes are ignored (newer minor fields).
    pub fn decode(buf: &[u8]) -> (res: Result<Self, DecodeError>)
        ensures
            match res {
                Ok(v) => decoded::<GroupOpenSpecView>(buf@) == Ok::<GroupOpenSpecView, DecodeError>(v@),
                Err(e) => decoded::<GroupOpenSpecView>(buf@) == Err::<GroupOpenSpecView, DecodeError>(e),
            },
    {
        broadcast use group_stuck;

        proof {
            reveal(GroupOpenSpecView::fields);
        }
        let mut r = Reader::new(buf);
        let call_creator = r.utf8()?.to_owned();
        let self_jid = r.utf8()?.to_owned();
        let initial_update = GroupCallUpdateDto::decode(r.bytes_raw()?)?;
        let direct_peer = decode_option_dto::<DirectPeerDto>(&mut r, "direct_peer")?;
        let epoch_transaction_id = decode_option_u32(&mut r, "epoch_transaction_id")?;
        let epoch = decode_option_secret(&mut r, "epoch")?;
        Ok(GroupOpenSpec { call_creator, self_jid, initial_update, direct_peer, epoch_transaction_id, epoch })
    }
}

impl Dto for GroupOpenSpec {
    fn to_payload(&self) -> (payload: Vec<u8>) {
        self.encode()
    }

    fn of_payload(buf: &[u8]) -> (res: Result<Self, DecodeError>) {
        Self::decode(buf)
    }
}

/// What `BEGIN_OPEN` carries: the flat media-session spec as plain data, so
/// the engine side can build the same media the resident backend would. Key
/// material travels as [`SecretBytes`] and is zeroed on drop on both sides.
#[derive(Clone, PartialEq, Eq)]
pub struct OpenParams {
    /// Which way the call flows.
    pub direction: Direction,
    /// This side's LID.
    pub self_lid: String,
    /// The peer's LID.
    pub peer_lid: String,
    /// RTP SSRC.
    pub ssrc: u32,
    /// Where encoding and decoding happen.
    pub audio_io: AudioIo,
    /// Fixed audio timing for the call.
    pub audio_format: AudioFormatDto,
    /// The STUN `RELAY-TOKEN` attribute (secret).
    pub relay_token: SecretBytes,
    /// The `<auth_token>` for the synthetic SDP `ice-ufrag` (secret).
    pub auth_token: SecretBytes,
    /// The 32-byte callKey (secret).
    pub call_key: SecretBytes,
    /// Relay host, as text.
    pub relay_host: String,
    /// Relay port.
    pub relay_port: u32,
    /// The relay `<key>` for STUN MESSAGE-INTEGRITY (secret).
    pub integrity_key: SecretBytes,
    /// WARP integrity tag length.
    pub warp_mi_tag_len: u32,
    /// Bring up the audio path: 0 or 1.
    pub enable_media: u8,
    /// Bring up the video plane: 0 or 1.
    pub enable_video: u8,
    /// Negotiate SFrame: 0 or 1.
    pub enable_sframe: u8,
    /// Start muted: 0 or 1.
    pub muted: u8,
    /// [`VideoCaps`] bits.
    pub video: u8,
    /// A codec the caller selected that the engine adopts before its first
    /// packet, when the negotiated format is not already correct.
    pub initial_codec: Option<AudioCodecWire>,
    /// Rotations peers announced before media attached, in order:
    /// `(participant, orientation)`, with `None` for the peer itself.
    pub peer_orientations: Vec<(Option<String>, u8)>,
    /// Group state, present only for a group call.
    pub group: Option<GroupOpenSpec>,
}

/// The values that a [`OpenParams`] carries.
#[verifier::ext_equal]
pub struct OpenParamsView {
    pub direction: Direction,
    pub self_lid: Seq<char>,
    pub peer_lid: Seq<char>,
    pub ssrc: u32,
    pub audio_io: AudioIo,
    pub audio_format: AudioFormatDto,
    pub relay_token: Seq<u8>,
    pub auth_token: Seq<u8>,
    pub call_key: Seq<u8>,
    pub relay_host: Seq<char>,
    pub relay_port: u32,
    pub integrity_key: Seq<u8>,
    pub warp_mi_tag_len: u32,
    pub enable_media: u8,
    pub enable_video: u8,
    pub enable_sframe: u8,
    pub muted: u8,
    pub video: u8,
    pub initial_codec: Option<AudioCodecWire>,
    pub peer_orientations: Seq<(Option<Seq<char>>, u8)>,
    pub group: Option<GroupOpenSpecView>,
}

impl View for OpenParams {
    type V = OpenParamsView;

    open spec fn view(&self) -> OpenParamsView {
        OpenParamsView {
            direction: self.direction,
            self_lid: self.self_lid@,
            peer_lid: self.peer_lid@,
            ssrc: self.ssrc,
            audio_io: self.audio_io,
            audio_format: self.audio_format,
            relay_token: self.relay_token@,
            auth_token: self.auth_token@,
            call_key: self.call_key@,
            relay_host: self.relay_host@,
            relay_port: self.relay_port,
            integrity_key: self.integrity_key@,
            warp_mi_tag_len: self.warp_mi_tag_len,
            enable_media: self.enable_media,
            enable_video: self.enable_video,
            enable_sframe: self.enable_sframe,
            muted: self.muted,
            video: self.video,
            initial_codec: self.initial_codec,
            peer_orientations: rotations(self.peer_orientations@),
            group: opt_view(self.group),
        }
    }
}

impl OpenParamsView {
    /// The fields as bytes, in wire order.
    #[verifier::opaque]
    pub open spec fn layout(self) -> Seq<u8> {
        seq![self.direction.tag()]
            + text(self.self_lid)
            + text(self.peer_lid)
            + le_u32(self.ssrc)
            + seq![self.audio_io.tag()]
            + blob(self.audio_format.body())
            + blob(self.relay_token)
            + blob(self.auth_token)
            + blob(self.call_key)
            + text(self.relay_host)
            + le_u32(self.relay_port)
            + blob(self.integrity_key)
            + le_u32(self.warp_mi_tag_len)
            + seq![self.enable_media]
            + seq![self.enable_video]
            + seq![self.enable_sframe]
            + seq![self.muted]
            + seq![self.video]
            + opt_tag(self.initial_codec)
            + list(self.peer_orientations)
            + opt(self.group)
    }

    /// The fields, read in wire order.
    #[verifier::opaque]
    pub open spec fn fields(c: Cursor) -> (OpenParamsView, Cursor) {
        let (direction, c) = c.tag::<Direction>("direction");
        let (self_lid, c) = c.text();
        let (peer_lid, c) = c.text();
        let (ssrc, c) = c.u32();
        let (audio_io, c) = c.tag::<AudioIo>("audio_io");
        let (audio_format, c) = AudioFormatDto::read(c);
        let (relay_token, c) = c.blob();
        let (auth_token, c) = c.blob();
        let (call_key, c) = c.blob();
        let (relay_host, c) = c.text();
        let (relay_port, c) = c.u32();
        let (integrity_key, c) = c.blob();
        let (warp_mi_tag_len, c) = c.u32();
        let (enable_media, c) = c.u8();
        let (enable_video, c) = c.u8();
        let (enable_sframe, c) = c.u8();
        let (muted, c) = c.u8();
        let c = c.at_most("enable_media", enable_media, 1)
            .at_most("enable_video", enable_video, 1)
            .at_most("enable_sframe", enable_sframe, 1)
            .at_most("muted", muted, 1);
        let (video, c) = c.u8();
        let (initial_codec, c) = c.opt_tag::<AudioCodecWire>("initial_codec");
        let (peer_orientations, c) = c.list::<(Option<Seq<char>>, u8)>(MAX_ITEMS);
        let (group, c) = c.opt::<GroupOpenSpecView>("group");
        (OpenParamsView { direction, self_lid, peer_lid, ssrc, audio_io, audio_format, relay_token, auth_token, call_key, relay_host, relay_port, integrity_key, warp_mi_tag_len, enable_media, enable_video, enable_sframe, muted, video, initial_codec, peer_orientations, group }, c)
    }
}

impl Body for OpenParamsView {
    open spec fn body_fits(self) -> bool {
        &&& text_fits(self.self_lid)
        &&& text_fits(self.peer_lid)
        &&& blob_fits(self.relay_token)
        &&& blob_fits(self.auth_token)
        &&& blob_fits(self.call_key)
        &&& text_fits(self.relay_host)
        &&& blob_fits(self.integrity_key)
        &&& self.enable_media <= 1
        &&& self.enable_video <= 1
        &&& self.enable_sframe <= 1
        &&& self.muted <= 1
        &&& list_fits(self.peer_orientations, MAX_ITEMS)
        &&& opt_fits(self.group)
    }

    open spec fn body(self) -> Seq<u8> {
        self.layout()
    }

    open spec fn parse(c: Cursor) -> (OpenParamsView, Cursor) {
        OpenParamsView::fields(c)
    }

    proof fn body_written(self, tail: Seq<u8>) {
        broadcast use group_written;

        reveal(OpenParamsView::layout);
        reveal(OpenParamsView::fields);
        self.audio_format.layout_len();
    }

    proof fn parse_extends(s: Seq<u8>, more: Seq<u8>) {
        broadcast use {group_extends, group_stuck};

        reveal(OpenParamsView::fields);
        assert(Cursor::at(s + more) == extended(Cursor::at(s), more));
    }
}

impl OpenParams {
    /// Serializes the body.
    pub fn encode(&self) -> (payload: Vec<u8>)
        ensures
            payload@ == self@.body(),
    {
        broadcast use concat_empty;

        proof {
            reveal(OpenParamsView::layout);
        }
        let mut w = Writer::new();
        w.u8(self.direction.as_u8());
        w.utf8(self.self_lid.as_str());
        w.utf8(self.peer_lid.as_str());
        w.u32_le(self.ssrc);
        w.u8(self.audio_io.as_u8());
        let raw = self.audio_format.encode();
        w.bytes_raw(raw.as_slice());
        w.bytes_raw(self.relay_token.as_bytes());
        w.bytes_raw(self.auth_token.as_bytes());
        w.bytes_raw(self.call_key.as_bytes());
        w.utf8(self.relay_host.as_str());
        w.u32_le(self.relay_port);
        w.bytes_raw(self.integrity_key.as_bytes());
        w.u32_le(self.warp_mi_tag_len);
        w.u8(self.enable_media);
        w.u8(self.enable_video);
        w.u8(self.enable_sframe);
        w.u8(self.muted);
        w.u8(self.video);
        encode_option_tag(&mut w, self.initial_codec);
        encode_rotations(&mut w, &self.peer_orientations);
        encode_option_dto(&mut w, &self.group);
        w.finish()
    }

    /// Parses the body. Trailing bytes are ignored (newer minor fields).
    pub fn decode(buf: &[u8]) -> (res: Result<Self, DecodeError>)
        ensures
            match res {
                Ok(v) => decoded::<OpenParamsView>(buf@) == Ok::<OpenParamsView, DecodeError>(v@),
                Err(e) => decoded::<OpenParamsView>(buf@) == Err::<OpenParamsView, DecodeError>(e),
            },
    {
        broadcast use group_stuck;

        proof {
            reveal(OpenParamsView::fields);
        }
        let mut r = Reader::new(buf);
        let direction = enum_byte::<Direction>("direction", &mut r)?;
        let self_lid = r.utf8()?.to_owned();
        let peer_lid = r.utf8()?.to_owned();
        let ssrc: u32 = r.u32_le()?;
        let audio_io = enum_byte::<AudioIo>("audio_io", &mut r)?;
        let audio_format = AudioFormatDto::decode(r.bytes_raw()?)?;
        let relay_token = SecretBytes::new(slice_to_vec(r.bytes_raw()?));
        let auth_token = SecretBytes::new(slice_to_vec(r.bytes_raw()?));
        let call_key = SecretBytes::new(slice_to_vec(r.bytes_raw()?));
        let relay_host = r.utf8()?.to_owned();
        let relay_port: u32 = r.u32_le()?;
        let integrity_key = SecretBytes::new(slice_to_vec(r.bytes_raw()?));
        let warp_mi_tag_len: u32 = r.u32_le()?;
        let enable_media: u8 = r.u8()?;
        let enable_video: u8 = r.u8()?;
        let enable_sframe: u8 = r.u8()?;
        let muted: u8 = r.u8()?;
        at_most("enable_media", enable_media, 1)?;
        at_most("enable_video", enable_video, 1)?;
        at_most("enable_sframe", enable_sframe, 1)?;
        at_most("muted", muted, 1)?;
        let video: u8 = r.u8()?;
        let initial_codec = decode_option_tag::<AudioCodecWire>(&mut r, "initial_codec")?;
        let peer_orientations = decode_rotations(&mut r)?;
        let group = decode_option_dto::<GroupOpenSpec>(&mut r, "group")?;
        Ok(OpenParams { direction, self_lid, peer_lid, ssrc, audio_io, audio_format, relay_token, auth_token, call_key, relay_host, relay_port, integrity_key, warp_mi_tag_len, enable_media, enable_video, enable_sframe, muted, video, initial_codec, peer_orientations, group })
    }
}

impl Dto for OpenParams {
    fn to_payload(&self) -> (payload: Vec<u8>) {
        self.encode()
    }

    fn of_payload(buf: &[u8]) -> (res: Result<Self, DecodeError>) {
        Self::decode(buf)
    }
}

/// `BEGIN_OPEN` request: start asynchronous setup for a reserved session.
#[derive(Clone, PartialEq, Eq)]
pub struct BeginOpenRequest {
    /// The reserved session being opened.
    pub session: SessionId,
    /// What to open it with.
    pub params: OpenParams,
}

/// The values that a [`BeginOpenRequest`] carries.
#[verifier::ext_equal]
pub struct BeginOpenRequestView {
    pub session: SessionId,
    pub params: OpenParamsView,
}

impl View for BeginOpenRequest {
    type V = BeginOpenRequestView;

    open spec fn view(&self) -> BeginOpenRequestView {
        BeginOpenRequestView {
            session: self.session,
            params: self.params@,
        }
    }
}

impl BeginOpenRequestView {
    /// The fields as bytes, in wire order.
    #[verifier::opaque]
    pub open spec fn layout(self) -> Seq<u8> {
        le_u32(self.session.handle)
            + le_u64(self.session.generation)
            + blob(self.params.body())
    }

    /// The fields, read in wire order.
    #[verifier::opaque]
    pub open spec fn fields(c: Cursor) -> (BeginOpenRequestView, Cursor) {
        let (handle, c) = c.u32();
        let (generation, c) = c.u64();
        let (params, c) = OpenParamsView::read(c);
        (BeginOpenRequestView { session: SessionId { handle, generation }, params }, c)
    }
}

impl Body for BeginOpenRequestView {
    open spec fn body_fits(self) -> bool {
        self.params.fits()
    }

    open spec fn body(self) -> Seq<u8> {
        self.layout()
    }

    open spec fn parse(c: Cursor) -> (BeginOpenRequestView, Cursor) {
        BeginOpenRequestView::fields(c)
    }

    proof fn body_written(self, tail: Seq<u8>) {
        broadcast use group_written;

        reveal(BeginOpenRequestView::layout);
        reveal(BeginOpenRequestView::fields);
    }

    proof fn parse_extends(s: Seq<u8>, more: Seq<u8>) {
        broadcast use {group_extends, group_stuck};

        reveal(BeginOpenRequestView::fields);
        assert(Cursor::at(s + more) == extended(Cursor::at(s), more));
    }
}

impl BeginOpenRequest {
    /// Serializes the body.
    pub fn encode(&self) -> (payload: Vec<u8>)
        ensures
            payload@ == self@.body(),
    {
        broadcast use concat_empty;

        proof {
            reveal(BeginOpenRequestView::layout);
        }
        let mut w = Writer::new();
        w.u32_le(self.session.handle);
        w.u64_le(self.session.generation);
        let raw = self.params.encode();
        w.bytes_raw(raw.as_slice());
        w.finish()
    }

    /// Parses the body. Trailing bytes are ignored (newer minor fields).
    pub fn decode(buf: &[u8]) -> (res: Result<Self, DecodeError>)
        ensures
            match res {
                Ok(v) => decoded::<BeginOpenRequestView>(buf@) == Ok::<BeginOpenRequestView, DecodeError>(v@),
                Err(e) => decoded::<BeginOpenRequestView>(buf@) == Err::<BeginOpenRequestView, DecodeError>(e),
            },
    {
        broadcast use group_stuck;

        proof {
            reveal(BeginOpenRequestView::fields);
        }
        let mut r = Reader::new(buf);
        let handle: u32 = r.u32_le()?;
        let generation: u64 = r.u64_le()?;
        let params = OpenParams::decode(r.bytes_raw()?)?;
        Ok(BeginOpenRequest { session: SessionId { handle, generation }, params })
    }
}

impl Dto for BeginOpenRequest {
    fn to_payload(&self) -> (payload: Vec<u8>) {
        self.encode()
    }

    fn of_payload(buf: &[u8]) -> (res: Result<Self, DecodeError>) {
        Self::decode(buf)
    }
}

/// `OPEN` notification (`voip -> core`): setup completed, media is flowing.
/// Fire-and-forget; the session identity is the whole body.
#[derive(Debug, Clone, PartialEq, Eq)]
pub struct OpenNotification {
    /// The session that is now live.
    pub session: SessionId,
}

impl View for OpenNotification {
    type V = OpenNotification;

    open spec fn view(&self) -> OpenNotification {
        *self
    }
}

impl OpenNotification {
    /// The fields as bytes, in wire order.
    #[verifier::opaque]
    pub open spec fn layout(self) -> Seq<u8> {
        le_u32(self.session.handle)
            + le_u64(self.session.generation)
    }

    /// The fields, read in wire order.
    #[verifier::opaque]
    pub open spec fn fields(c: Cursor) -> (OpenNotification, Cursor) {
        let (handle, c) = c.u32();
        let (generation, c) = c.u64();
        (OpenNotification { session: SessionId { handle, generation } }, c)
    }
}

impl Body for OpenNotification {
    open spec fn body_fits(self) -> bool {
        true
    }

    open spec fn body(self) -> Seq<u8> {
        self.layout()
    }

    open spec fn parse(c: Cursor) -> (OpenNotification, Cursor) {
        OpenNotification::fields(c)
    }

    proof fn body_written(self, tail: Seq<u8>) {
        broadcast use group_written;

        reveal(OpenNotification::layout);
        reveal(OpenNotification::fields);
    }

    proof fn parse_extends(s: Seq<u8>, more: Seq<u8>) {
        broadcast use {group_extends, group_stuck};

        reveal(OpenNotification::fields);
        assert(Cursor::at(s + more) == extended(Cursor::at(s), more));
    }
}

impl OpenNotification {
    /// Serializes the body.
    pub fn encode(&self) -> (payload: Vec<u8>)
        ensures
            payload@ == self@.body(),
    {
        broadcast use concat_empty;

        proof {
            reveal(OpenNotification::layout);
        }
        let mut w = Writer::new();
        w.u32_le(self.session.handle);
        w.u64_le(self.session.generation);
        w.finish()
    }

    /// Parses the body. Trailing bytes are ignored (newer minor fields).
    pub fn decode(buf: &[u8]) -> (res: Result<Self, DecodeError>)
        ensures
            match res {
                Ok(v) => decoded::<OpenNotification>(buf@) == Ok::<OpenNotification, DecodeError>(v@),
                Err(e) => decoded::<OpenNotification>(buf@) == Err::<OpenNotification, DecodeError>(e),
            },
    {
        broadcast use group_stuck;

        proof {
            reveal(OpenNotification::fields);
        }
        let mut r = Reader::new(buf);
        let handle: u32 = r.u32_le()?;
        let generation: u64 = r.u64_le()?;
        Ok(OpenNotification { session: SessionId { handle, generation } })
    }
}

impl Dto for OpenNotification {
    fn to_payload(&self) -> (payload: Vec<u8>) {
        self.encode()
    }

    fn of_payload(buf: &[u8]) -> (res: Result<Self, DecodeError>) {
        Self::decode(buf)
    }
}

/// `CANCEL_OPEN` request: abort an in-flight `BEGIN_OPEN`.
#[derive(Debug, Clone, PartialEq, Eq)]
pub struct CancelOpenRequest {
    /// The session whose setup must stop.
    pub session: SessionId,
}

impl View for CancelOpenRequest {
    type V = CancelOpenRequest;

    open spec fn view(&self) -> CancelOpenRequest {
        *self
    }
}

impl CancelOpenRequest {
    /// The fields as bytes, in wire order.
    #[verifier::opaque]
    pub open spec fn layout(self) -> Seq<u8> {
        le_u32(self.session.handle)
            + le_u64(self.session.generation)
    }

    /// The fields, read in wire order.
    #[verifier::opaque]
    pub open spec fn fields(c: Cursor) -> (CancelOpenRequest, Cursor) {
        let (handle, c) = c.u32();
        let (generation, c) = c.u64();
        (CancelOpenRequest { session: SessionId { handle, generation } }, c)
    }
}

impl Body for CancelOpenRequest {
    open spec fn body_fits(self) -> bool {
        true
    }

    open spec fn body(self) -> Seq<u8> {
        self.layout()
    }

    open spec fn parse(c: Cursor) -> (CancelOpenRequest, Cursor) {
        CancelOpenRequest::fields(c)
    }

    proof fn body_written(self, tail: Seq<u8>) {
        broadcast use group_written;

        reveal(CancelOpenRequest::layout);
        reveal(CancelOpenRequest::fields);
    }

    proof fn parse_extends(s: Seq<u8>, more: Seq<u8>) {
        broadcast use {group_extends, group_stuck};

        reveal(CancelOpenRequest::fields);
        assert(Cursor::at(s + more) == extended(Cursor::at(s), more));
    }
}

impl CancelOpenRequest {
    /// Serializes the body.
    pub fn encode(&self) -> (payload: Vec<u8>)
        ensures
            payload@ == self@.body(),
    {
        broadcast use concat_empty;

        proof {
            reveal(CancelOpenRequest::layout);
        }
        let mut w = Writer::new();
        w.u32_le(self.session.handle);
        w.u64_le(self.session.generation);
        w.finish()
    }

    /// Parses the body. Trailing bytes are ignored (newer minor fields).
    pub fn decode(buf: &[u8]) -> (res: Result<Self, DecodeError>)
        ensures
            match res {
                Ok(v) => decoded::<CancelOpenRequest>(buf@) == Ok::<CancelOpenRequest, DecodeError>(v@),
                Err(e) => decoded::<CancelOpenRequest>(buf@) == Err::<CancelOpenRequest, DecodeError>(e),
            },
    {
        broadcast use group_stuck;

        proof {
            reveal(CancelOpenRequest::fields);
        }
        let mut r = Reader::new(buf);
        let handle: u32 = r.u32_le()?;
        let generation: u64 = r.u64_le()?;
        Ok(CancelOpenRequest { session: SessionId { handle, generation } })
    }
}

impl Dto for CancelOpenRequest {
    fn to_payload(&self) -> (payload: Vec<u8>) {
        self.encode()
    }

    fn of_payload(buf: &[u8]) -> (res: Result<Self, DecodeError>) {
        Self::decode(buf)
    }
}

/// `CANCEL_OPEN` response: what the abort found.
#[derive(Debug, Clone, PartialEq, Eq)]
pub struct CancelOpenResponse {
    /// What aborting found.
    pub outcome: CancelOutcome,
}

impl View for CancelOpenResponse {
    type V = CancelOpenResponse;

    open spec fn view(&self) -> CancelOpenResponse {
        *self
    }
}

impl CancelOpenResponse {
    /// The fields as bytes, in wire order.
    #[verifier::opaque]
    pub open spec fn layout(self) -> Seq<u8> {
        seq![self.outcome.tag()]
    }

    /// The fields, read in wire order.
    #[verifier::opaque]
    pub open spec fn fields(c: Cursor) -> (CancelOpenResponse, Cursor) {
        let (outcome, c) = c.tag::<CancelOutcome>("outcome");
        (CancelOpenResponse { outcome }, c)
    }
}

impl Body for CancelOpenResponse {
    open spec fn body_fits(self) -> bool {
        true
    }

    open spec fn body(self) -> Seq<u8> {
        self.layout()
    }

    open spec fn parse(c: Cursor) -> (CancelOpenResponse, Cursor) {
        CancelOpenResponse::fields(c)
    }

    proof fn body_written(self, tail: Seq<u8>) {
        broadcast use group_written;

        reveal(CancelOpenResponse::layout);
        reveal(CancelOpenResponse::fields);
    }

    proof fn parse_extends(s: Seq<u8>, more: Seq<u8>) {
        broadcast use {group_extends, group_stuck};

        reveal(CancelOpenResponse::fields);
        assert(Cursor::at(s + more) == extended(Cursor::at(s), more));
    }
}

impl CancelOpenResponse {
    /// Serializes the body.
    pub fn encode(&self) -> (payload: Vec<u8>)
        ensures
            payload@ == self@.body(),
    {
        broadcast use concat_empty;

        proof {
            reveal(CancelOpenResponse::layout);
        }
        let mut w = Writer::new();
        w.u8(self.outcome.as_u8());
        w.finish()
    }

    /// Parses the body. Trailing bytes are ignored (newer minor fields).
    pub fn decode(buf: &[u8]) -> (res: Result<Self, DecodeError>)
        ensures
            match res {
                Ok(v) => decoded::<CancelOpenResponse>(buf@) == Ok::<CancelOpenResponse, DecodeError>(v@),
                Err(e) => decoded::<CancelOpenResponse>(buf@) == Err::<CancelOpenResponse, DecodeError>(e),
            },
    {
        broadcast use group_stuck;

        proof {
            reveal(CancelOpenResponse::fields);
        }
        let mut r = Reader::new(buf);
        let outcome = enum_byte::<CancelOutcome>("outcome", &mut r)?;
        Ok(CancelOpenResponse { outcome })
    }
}

impl Dto for CancelOpenResponse {
    fn to_payload(&self) -> (payload: Vec<u8>) {
        self.encode()
    }

    fn of_payload(buf: &[u8]) -> (res: Result<Self, DecodeError>) {
        Self::decode(buf)
    }
}

/// `CLOSE` request (`core -> voip`) and `MEDIA_ENDED` notification
/// (`voip -> core`): one shape for both directions, since both say the same
/// thing — this session's media is over, and why.
#[derive(Debug, Clone, PartialEq, Eq)]
pub struct CloseRequest {
    /// The session being released.
    pub session: SessionId,
    /// Why.
    pub reason: CloseReason,
    /// Short detail for the failure reasons, if any.
    pub detail: Option<String>,
}

/// The values that a [`CloseRequest`] carries.
#[verifier::ext_equal]
pub struct CloseRequestView {
    pub session: SessionId,
    pub reason: CloseReason,
    pub detail: Option<Seq<char>>,
}

impl View for CloseRequest {
    type V = CloseRequestView;

    open spec fn view(&self) -> CloseRequestView {
        CloseRequestView {
            session: self.session,
            reason: self.reason,
            detail: opt_view(self.detail),
        }
    }
}

impl CloseRequestView {
    /// The fields as bytes, in wire order.
    #[verifier::opaque]
    pub open spec fn layout(self) -> Seq<u8> {
        le_u32(self.session.handle)
            + le_u64(self.session.generation)
            + seq![self.reason.tag()]
            + opt_text(self.detail)
    }

    /// The fields, read in wire order.
    #[verifier::opaque]
    pub open spec fn fields(c: Cursor) -> (CloseRequestView, Cursor) {
        let (handle, c) = c.u32();
        let (generation, c) = c.u64();
        let (reason, c) = c.tag::<CloseReason>("reason");
        let (detail, c) = c.opt_text();
        (CloseRequestView { session: SessionId { handle, generation }, reason, detail }, c)
    }
}

impl Body for CloseRequestView {
    open spec fn body_fits(self) -> bool {
        opt_text_fits(self.detail)
    }

    open spec fn body(self) -> Seq<u8> {
        self.layout()
    }

    open spec fn parse(c: Cursor) -> (CloseRequestView, Cursor) {
        CloseRequestView::fields(c)
    }

    proof fn body_written(self, tail: Seq<u8>) {
        broadcast use group_written;

        reveal(CloseRequestView::layout);
        reveal(CloseRequestView::fields);
    }

    proof fn parse_extends(s: Seq<u8>, more: Seq<u8>) {
        broadcast use {group_extends, group_stuck};

        reveal(CloseRequestView::fields);
        assert(Cursor::at(s + more) == extended(Cursor::at(s), more));
    }
}

impl CloseRequest {
    /// Serializes the body.
    pub fn encode(&self) -> (payload: Vec<u8>)
        ensures
            payload@ == self@.body(),
    {
        broadcast use concat_empty;

        proof {
            reveal(CloseRequestView::layout);
        }
        let mut w = Writer::new();
        w.u32_le(self.session.handle);
        w.u64_le(self.session.generation);
        w.u8(self.reason.as_u8());
        w.option_str(opt_str(&self.detail));
        w.finish()
    }

    /// Parses the body. Trailing bytes are ignored (newer minor fields).
    pub fn decode(buf: &[u8]) -> (res: Result<Self, DecodeError>)
        ensures
            match res {
                Ok(v) => decoded::<CloseRequestView>(buf@) == Ok::<CloseRequestView, DecodeError>(v@),
                Err(e) => decoded::<CloseRequestView>(buf@) == Err::<CloseRequestView, DecodeError>(e),
            },
    {
        broadcast use group_stuck;

        proof {
            reveal(CloseRequestView::fields);
        }
        let mut r = Reader::new(buf);
        let handle: u32 = r.u32_le()?;
        let generation: u64 = r.u64_le()?;
        let reason = enum_byte::<CloseReason>("reason", &mut r)?;
        let detail = opt_owned(r.option_str()?);
        Ok(CloseRequest { session: SessionId { handle, generation }, reason, detail })
    }
}

impl Dto for CloseRequest {
    fn to_payload(&self) -> (payload: Vec<u8>) {
        self.encode()
    }

    fn of_payload(buf: &[u8]) -> (res: Result<Self, DecodeError>) {
        Self::decode(buf)
    }
}

} // verus!
