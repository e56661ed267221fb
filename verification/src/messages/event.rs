//! What the engine raises: media events and their notification.

use vstd::prelude::*;
use vstd::slice::slice_to_vec;

use crate::codec::{DecodeError, Reader, Writer};
use crate::messages::fields::{
    at_most, decode_dto_vec, decode_words, encode_dto_vec, encode_words, enum_byte, views,
    Discriminant, Dto, MAX_ITEMS,
};
use crate::messages::media::{EncodedFrameDto, EncodedFrameDtoView};
use crate::messages::open::{AudioCodecWire, CloseReason};
use crate::session::SessionId;
use crate::wire::{
    blob, blob_fits, bits_of_i32, concat_empty, decoded, extended, group_extends, group_stuck,
    group_written, le_u32, le_u64, list, list_fits, text, text_fits, Body, Cursor, Piece, Tag,
};

verus! {

/// Why audio RTP keeps arriving without becoming sound, mirroring the
/// core's neutral silence reasons.
#[derive(Debug, Clone, Copy, PartialEq, Eq, Structural)]
pub enum SilenceReason {
    /// No decoder for the negotiated codec.
    NoDecoderForNegotiatedCodec,
    /// Authentication keeps failing.
    AuthenticationFailing,
    /// Unexpected payload type.
    UnexpectedPayloadType,
    /// Codec rejecting frames.
    CodecRejectingFrames,
    /// Codec flapping.
    CodecFlapping,
    /// Unknown.
    Unknown,
}

impl Tag for SilenceReason {
    open spec fn tag(self) -> u8 {
        match self {
            SilenceReason::NoDecoderForNegotiatedCodec => 0,
            SilenceReason::AuthenticationFailing => 1,
            SilenceReason::UnexpectedPayloadType => 2,
            SilenceReason::CodecRejectingFrames => 3,
            SilenceReason::CodecFlapping => 4,
            SilenceReason::Unknown => 5,
        }
    }

    open spec fn of_tag(b: u8) -> Option<Self> {
        match b {
            0 => Some(SilenceReason::NoDecoderForNegotiatedCodec),
            1 => Some(SilenceReason::AuthenticationFailing),
            2 => Some(SilenceReason::UnexpectedPayloadType),
            3 => Some(SilenceReason::CodecRejectingFrames),
            4 => Some(SilenceReason::CodecFlapping),
            5 => Some(SilenceReason::Unknown),
            _ => None,
        }
    }

    proof fn tag_inverse(self) {
    }

    proof fn of_tag_inverse(b: u8) {
    }
}

impl Discriminant for SilenceReason {
    fn to_byte(self) -> (b: u8) {
        self.as_u8()
    }

    fn of_byte(b: u8) -> (v: Option<Self>) {
        Self::from_u8(b)
    }
}

impl SilenceReason {
    /// The wire byte.
    pub fn as_u8(self) -> (b: u8)
        ensures
            b == self.tag(),
    {
        match self {
            SilenceReason::NoDecoderForNegotiatedCodec => 0,
            SilenceReason::AuthenticationFailing => 1,
            SilenceReason::UnexpectedPayloadType => 2,
            SilenceReason::CodecRejectingFrames => 3,
            SilenceReason::CodecFlapping => 4,
            SilenceReason::Unknown => 5,
        }
    }

    /// Parses a wire byte; unknown values fail rather than alias.
    pub fn from_u8(v: u8) -> (res: Option<Self>)
        ensures
            res == Self::of_tag(v),
    {
        match v {
            0 => Some(SilenceReason::NoDecoderForNegotiatedCodec),
            1 => Some(SilenceReason::AuthenticationFailing),
            2 => Some(SilenceReason::UnexpectedPayloadType),
            3 => Some(SilenceReason::CodecRejectingFrames),
            4 => Some(SilenceReason::CodecFlapping),
            5 => Some(SilenceReason::Unknown),
            _ => None,
        }
    }

    /// The written-down name, as a value.
    pub open spec fn name_spec(self) -> &'static str {
        match self {
            SilenceReason::NoDecoderForNegotiatedCodec => "NO_DECODER_FOR_NEGOTIATED_CODEC",
            SilenceReason::AuthenticationFailing => "AUTHENTICATION_FAILING",
            SilenceReason::UnexpectedPayloadType => "UNEXPECTED_PAYLOAD_TYPE",
            SilenceReason::CodecRejectingFrames => "CODEC_REJECTING_FRAMES",
            SilenceReason::CodecFlapping => "CODEC_FLAPPING",
            SilenceReason::Unknown => "UNKNOWN",
        }
    }

    /// Written-down name, so that no derived rendering can rename the wire.
    pub fn name(self) -> (s: &'static str)
        ensures
            s == self.name_spec(),
    {
        match self {
            SilenceReason::NoDecoderForNegotiatedCodec => "NO_DECODER_FOR_NEGOTIATED_CODEC",
            SilenceReason::AuthenticationFailing => "AUTHENTICATION_FAILING",
            SilenceReason::UnexpectedPayloadType => "UNEXPECTED_PAYLOAD_TYPE",
            SilenceReason::CodecRejectingFrames => "CODEC_REJECTING_FRAMES",
            SilenceReason::CodecFlapping => "CODEC_FLAPPING",
            SilenceReason::Unknown => "UNKNOWN",
        }
    }
}

/// What decided a codec switch, mirroring the core's neutral source enum.
#[derive(Debug, Clone, Copy, PartialEq, Eq, Structural)]
pub enum CodecSource {
    /// Signaling negotiation.
    Negotiated,
    /// Packet content.
    Content,
}

impl Tag for CodecSource {
    open spec fn tag(self) -> u8 {
        match self {
            CodecSource::Negotiated => 0,
            CodecSource::Content => 1,
        }
    }

    open spec fn of_tag(b: u8) -> Option<Self> {
        match b {
            0 => Some(CodecSource::Negotiated),
            1 => Some(CodecSource::Content),
            _ => None,
        }
    }

    proof fn tag_inverse(self) {
    }

    proof fn of_tag_inverse(b: u8) {
    }
}

impl Discriminant for CodecSource {
    fn to_byte(self) -> (b: u8) {
        self.as_u8()
    }

    fn of_byte(b: u8) -> (v: Option<Self>) {
        Self::from_u8(b)
    }
}

impl CodecSource {
    /// The wire byte.
    pub fn as_u8(self) -> (b: u8)
        ensures
            b == self.tag(),
    {
        match self {
            CodecSource::Negotiated => 0,
            CodecSource::Content => 1,
        }
    }

    /// Parses a wire byte; unknown values fail rather than alias.
    pub fn from_u8(v: u8) -> (res: Option<Self>)
        ensures
            res == Self::of_tag(v),
    {
        match v {
            0 => Some(CodecSource::Negotiated),
            1 => Some(CodecSource::Content),
            _ => None,
        }
    }

    /// The written-down name, as a value.
    pub open spec fn name_spec(self) -> &'static str {
        match self {
            CodecSource::Negotiated => "NEGOTIATED",
            CodecSource::Content => "CONTENT",
        }
    }

    /// Written-down name, so that no derived rendering can rename the wire.
    pub fn name(self) -> (s: &'static str)
        ensures
            s == self.name_spec(),
    {
        match self {
            CodecSource::Negotiated => "NEGOTIATED",
            CodecSource::Content => "CONTENT",
        }
    }
}

/// One RTCP report block, mirroring the core's flattened block.
#[derive(Debug, Clone, PartialEq, Eq)]
pub struct RtcpBlockDto {
    /// Source SSRC.
    pub ssrc: u32,
    /// Fraction lost.
    pub fraction_lost: u8,
    /// Cumulative packets lost (signed upstream).
    pub cumulative_lost: i32,
    /// Extended highest sequence received.
    pub extended_highest_sequence: u32,
    /// Interarrival jitter.
    pub jitter: u32,
    /// Last SR timestamp.
    pub last_sender_report: u32,
    /// Delay since last SR.
    pub delay_since_last_sender_report: u32,
    /// Profile-specific extension bytes.
    pub profile_extension: Vec<u8>,
}

/// The values that a [`RtcpBlockDto`] carries.
#[verifier::ext_equal]
pub struct RtcpBlockDtoView {
    pub ssrc: u32,
    pub fraction_lost: u8,
    pub cumulative_lost: i32,
    pub extended_highest_sequence: u32,
    pub jitter: u32,
    pub last_sender_report: u32,
    pub delay_since_last_sender_report: u32,
    pub profile_extension: Seq<u8>,
}

impl View for RtcpBlockDto {
    type V = RtcpBlockDtoView;

    open spec fn view(&self) -> RtcpBlockDtoView {
        RtcpBlockDtoView {
            ssrc: self.ssrc,
            fraction_lost: self.fraction_lost,
            cumulative_lost: self.cumulative_lost,
            extended_highest_sequence: self.extended_highest_sequence,
            jitter: self.jitter,
            last_sender_report: self.last_sender_report,
            delay_since_last_sender_report: self.delay_since_last_sender_report,
            profile_extension: self.profile_extension@,
        }
    }
}

impl RtcpBlockDtoView {
    /// The fields as bytes, in wire order.
    #[verifier::opaque]
    pub open spec fn layout(self) -> Seq<u8> {
        le_u32(self.ssrc)
            + seq![self.fraction_lost]
            + le_u32(bits_of_i32(self.cumulative_lost))
            + le_u32(self.extended_highest_sequence)
            + le_u32(self.jitter)
            + le_u32(self.last_sender_report)
            + le_u32(self.delay_since_last_sender_report)
            + blob(self.profile_extension)
    }

    /// The fields, read in wire order.
    #[verifier::opaque]
    pub open spec fn fields(c: Cursor) -> (RtcpBlockDtoView, Cursor) {
        let (ssrc, c) = c.u32();
        let (fraction_lost, c) = c.u8();
        let (cumulative_lost, c) = c.i32();
        let (extended_highest_sequence, c) = c.u32();
        let (jitter, c) = c.u32();
        let (last_sender_report, c) = c.u32();
        let (delay_since_last_sender_report, c) = c.u32();
        let (profile_extension, c) = c.blob();
        (RtcpBlockDtoView { ssrc, fraction_lost, cumulative_lost, extended_highest_sequence, jitter, last_sender_report, delay_since_last_sender_report, profile_extension }, c)
    }
}

impl Body for RtcpBlockDtoView {
    open spec fn body_fits(self) -> bool {
        blob_fits(self.profile_extension)
    }

    open spec fn body(self) -> Seq<u8> {
        self.layout()
    }

    open spec fn parse(c: Cursor) -> (RtcpBlockDtoView, Cursor) {
        RtcpBlockDtoView::fields(c)
    }

    proof fn body_written(self, tail: Seq<u8>) {
        broadcast use group_written;

        reveal(RtcpBlockDtoView::layout);
        reveal(RtcpBlockDtoView::fields);
    }

    proof fn parse_extends(s: Seq<u8>, more: Seq<u8>) {
        broadcast use {group_extends, group_stuck};

        reveal(RtcpBlockDtoView::fields);
        assert(Cursor::at(s + more) == extended(Cursor::at(s), more));
    }
}

impl RtcpBlockDto {
    /// Serializes the body.
    pub fn encode(&self) -> (payload: Vec<u8>)
        ensures
            payload@ == self@.body(),
    {
        broadcast use concat_empty;

        proof {
            reveal(RtcpBlockDtoView::layout);
        }
        let mut w = Writer::new();
        w.u32_le(self.ssrc);
        w.u8(self.fraction_lost);
        w.i32_le(self.cumulative_lost);
        w.u32_le(self.extended_highest_sequence);
        w.u32_le(self.jitter);
        w.u32_le(self.last_sender_report);
        w.u32_le(self.delay_since_last_sender_report);
        w.bytes_raw(self.profile_extension.as_slice());
        w.finish()
    }

    /// Parses the body. Trailing bytes are ignored (newer minor fields).
    pub fn decode(buf: &[u8]) -> (res: Result<Self, DecodeError>)
        ensures
            match res {
                Ok(v) => decoded::<RtcpBlockDtoView>(buf@) == Ok::<RtcpBlockDtoView, DecodeError>(v@),
                Err(e) => decoded::<RtcpBlockDtoView>(buf@) == Err::<RtcpBlockDtoView, DecodeError>(e),
            },
    {
        broadcast use group_stuck;

        proof {
            reveal(RtcpBlockDtoView::fields);
        }
        let mut r = Reader::new(buf);
        let ssrc: u32 = r.u32_le()?;
        let fraction_lost: u8 = r.u8()?;
        let cumulative_lost: i32 = r.i32_le()?;
        let extended_highest_sequence: u32 = r.u32_le()?;
        let jitter: u32 = r.u32_le()?;
        let last_sender_report: u32 = r.u32_le()?;
        let delay_since_last_sender_report: u32 = r.u32_le()?;
        let profile_extension = slice_to_vec(r.bytes_raw()?);
        Ok(RtcpBlockDto { ssrc, fraction_lost, cumulative_lost, extended_highest_sequence, jitter, last_sender_report, delay_since_last_sender_report, profile_extension })
    }
}

impl Dto for RtcpBlockDto {
    fn to_payload(&self) -> (payload: Vec<u8>) {
        self.encode()
    }

    fn of_payload(buf: &[u8]) -> (res: Result<Self, DecodeError>) {
        Self::decode(buf)
    }
}

/// One RTCP feedback packet, mirroring the core's flattened feedback.
#[derive(Debug, Clone, PartialEq, Eq)]
pub struct RtcpFeedbackDto {
    /// RTCP packet type.
    pub packet_type: u8,
    /// Format.
    pub fmt: u8,
    /// Sender SSRC.
    pub sender_ssrc: u32,
    /// Media SSRC.
    pub media_ssrc: u32,
    /// Feedback control information bytes.
    pub fci: Vec<u8>,
}

/// The values that a [`RtcpFeedbackDto`] carries.
#[verifier::ext_equal]
pub struct RtcpFeedbackDtoView {
    pub packet_type: u8,
    pub fmt: u8,
    pub sender_ssrc: u32,
    pub media_ssrc: u32,
    pub fci: Seq<u8>,
}

impl View for RtcpFeedbackDto {
    type V = RtcpFeedbackDtoView;

    open spec fn view(&self) -> RtcpFeedbackDtoView {
        RtcpFeedbackDtoView {
            packet_type: self.packet_type,
            fmt: self.fmt,
            sender_ssrc: self.sender_ssrc,
            media_ssrc: self.media_ssrc,
            fci: self.fci@,
        }
    }
}

impl RtcpFeedbackDtoView {
    /// The fields as bytes, in wire order.
    #[verifier::opaque]
    pub open spec fn layout(self) -> Seq<u8> {
        seq![self.packet_type]
            + seq![self.fmt]
            + le_u32(self.sender_ssrc)
            + le_u32(self.media_ssrc)
            + blob(self.fci)
    }

    /// The fields, read in wire order.
    #[verifier::opaque]
    pub open spec fn fields(c: Cursor) -> (RtcpFeedbackDtoView, Cursor) {
        let (packet_type, c) = c.u8();
        let (fmt, c) = c.u8();
        let (sender_ssrc, c) = c.u32();
        let (media_ssrc, c) = c.u32();
        let (fci, c) = c.blob();
        (RtcpFeedbackDtoView { packet_type, fmt, sender_ssrc, media_ssrc, fci }, c)
    }
}

impl Body for RtcpFeedbackDtoView {
    open spec fn body_fits(self) -> bool {
        blob_fits(self.fci)
    }

    open spec fn body(self) -> Seq<u8> {
        self.layout()
    }

    open spec fn parse(c: Cursor) -> (RtcpFeedbackDtoView, Cursor) {
        RtcpFeedbackDtoView::fields(c)
    }

    proof fn body_written(self, tail: Seq<u8>) {
        broadcast use group_written;

        reveal(RtcpFeedbackDtoView::layout);
        reveal(RtcpFeedbackDtoView::fields);
    }

    proof fn parse_extends(s: Seq<u8>, more: Seq<u8>) {
        broadcast use {group_extends, group_stuck};

        reveal(RtcpFeedbackDtoView::fields);
        assert(Cursor::at(s + more) == extended(Cursor::at(s), more));
    }
}

impl RtcpFeedbackDto {
    /// Serializes the body.
    pub fn encode(&self) -> (payload: Vec<u8>)
        ensures
            payload@ == self@.body(),
    {
        broadcast use concat_empty;

        proof {
            reveal(RtcpFeedbackDtoView::layout);
        }
        let mut w = Writer::new();
        w.u8(self.packet_type);
        w.u8(self.fmt);
        w.u32_le(self.sender_ssrc);
        w.u32_le(self.media_ssrc);
        w.bytes_raw(self.fci.as_slice());
        w.finish()
    }

    /// Parses the body. Trailing bytes are ignored (newer minor fields).
    pub fn decode(buf: &[u8]) -> (res: Result<Self, DecodeError>)
        ensures
            match res {
                Ok(v) => decoded::<RtcpFeedbackDtoView>(buf@) == Ok::<RtcpFeedbackDtoView, DecodeError>(v@),
                Err(e) => decoded::<RtcpFeedbackDtoView>(buf@) == Err::<RtcpFeedbackDtoView, DecodeError>(e),
            },
    {
        broadcast use group_stuck;

        proof {
            reveal(RtcpFeedbackDtoView::fields);
        }
        let mut r = Reader::new(buf);
        let packet_type: u8 = r.u8()?;
        let fmt: u8 = r.u8()?;
        let sender_ssrc: u32 = r.u32_le()?;
        let media_ssrc: u32 = r.u32_le()?;
        let fci = slice_to_vec(r.bytes_raw()?);
        Ok(RtcpFeedbackDto { packet_type, fmt, sender_ssrc, media_ssrc, fci })
    }
}

impl Dto for RtcpFeedbackDto {
    fn to_payload(&self) -> (payload: Vec<u8>) {
        self.encode()
    }

    fn of_payload(buf: &[u8]) -> (res: Result<Self, DecodeError>) {
        Self::decode(buf)
    }
}

/// One engine-raised event, mirroring the engine-raised subset of the core's
/// public call-event stream. Signaling-born events (peer video states, group
/// snapshots from signaling, reactions, screen share) never cross: the
/// control plane publishes those into the session stream itself, so the same
/// ordered stream carries the whole call either way.
#[derive(Debug, Clone, PartialEq, Eq)]
pub enum AbiEvent {
    /// The relay accepted our allocate; the media path is live.
    RelayAllocated,
    /// One standard Opus packet through the in-profile escape.
    ForeignAudio(Vec<u8>),
    /// One Opus fallback packet from one authenticated group participant.
    ForeignGroupAudio(EncodedFrameDto),
    /// The peer's signaling rates fit no offered profile.
    AudioFormatMismatch {
        /// Rate offered locally.
        expected_rate: u32,
        /// Rates the peer sent.
        received_rates: Vec<u32>,
    },
    /// The relay rejected our allocate, with the STUN error code.
    RelayAllocateFailed(u32),
    /// The relay never acked the allocate within the deadline.
    RelayAllocateTimedOut,
    /// The media path was never built, with why.
    MediaSetupFailed(String),
    /// A migrated relay transport did not finish reconnecting in time.
    RelayReconnectTimedOut,
    /// Outbound video needs an IDR before anything goes on the wire.
    VideoKeyframeNeeded,
    /// Authenticated peer RTCP.
    RtcpReceived {
        /// Packet types.
        packet_types: Vec<u8>,
        /// Sender SSRC.
        sender_ssrc: u32,
        /// Referenced SSRCs.
        referenced_ssrcs: Vec<u32>,
        /// Reports audio: 0 or 1.
        reports_audio: u8,
        /// Reports video: 0 or 1.
        reports_video: u8,
        /// Report blocks.
        report_blocks: Vec<RtcpBlockDto>,
        /// Feedback packets.
        feedback: Vec<RtcpFeedbackDto>,
    },
    /// Relay-send backpressure discarded complete media units.
    OutboundMediaDropped {
        /// Video access units dropped.
        video_access_units: u32,
        /// Packets dropped.
        packets: u32,
    },
    /// Audio RTP keeps arriving and none of it is becoming sound.
    AudioSilent {
        /// Window length in milliseconds.
        silent_for_ms: u64,
        /// RTP packets counted in the window.
        rtp_received: u32,
        /// Frames produced in the window.
        frames_produced: u32,
        /// Dominant reason.
        dominant_reason: SilenceReason,
    },
    /// The payload grammar changed inside the negotiated RTP timing.
    AudioCodecSwitched {
        /// Previous codec.
        from: AudioCodecWire,
        /// New codec.
        to: AudioCodecWire,
        /// What decided the switch.
        source: CodecSource,
        /// Packets observed before switching.
        packets_observed: u32,
    },
    /// The peer speaks one codec and the source emits another, immovably.
    AudioCodecSourceIsFixed {
        /// What the source sends.
        sending: AudioCodecWire,
        /// What the peer expects.
        peer_expects: AudioCodecWire,
        /// What decided.
        source: CodecSource,
    },
    /// Audio RTP has stopped arriving.
    AudioReceptionStalled {
        /// Silence length in milliseconds.
        silent_for_ms: u64,
    },
    /// The media session closed, with why.
    Closed(CloseReason),
}

/// The values that a [`AbiEvent`] carries.
#[allow(inconsistent_fields)]
#[verifier::ext_equal]
pub enum AbiEventView {
    RelayAllocated,
    ForeignAudio(Seq<u8>),
    ForeignGroupAudio(EncodedFrameDtoView),
    AudioFormatMismatch { expected_rate: u32, received_rates: Seq<u32> },
    RelayAllocateFailed(u32),
    RelayAllocateTimedOut,
    MediaSetupFailed(Seq<char>),
    RelayReconnectTimedOut,
    VideoKeyframeNeeded,
    RtcpReceived { packet_types: Seq<u8>, sender_ssrc: u32, referenced_ssrcs: Seq<u32>, reports_audio: u8, reports_video: u8, report_blocks: Seq<RtcpBlockDtoView>, feedback: Seq<RtcpFeedbackDtoView> },
    OutboundMediaDropped { video_access_units: u32, packets: u32 },
    AudioSilent { silent_for_ms: u64, rtp_received: u32, frames_produced: u32, dominant_reason: SilenceReason },
    AudioCodecSwitched { from: AudioCodecWire, to: AudioCodecWire, source: CodecSource, packets_observed: u32 },
    AudioCodecSourceIsFixed { sending: AudioCodecWire, peer_expects: AudioCodecWire, source: CodecSource },
    AudioReceptionStalled { silent_for_ms: u64 },
    Closed(CloseReason),
}

impl View for AbiEvent {
    type V = AbiEventView;

    open spec fn view(&self) -> AbiEventView {
        match *self {
            AbiEvent::RelayAllocated => AbiEventView::RelayAllocated,
            AbiEvent::ForeignAudio(data) => AbiEventView::ForeignAudio(data@),
            AbiEvent::ForeignGroupAudio(frame) => AbiEventView::ForeignGroupAudio(frame@),
            AbiEvent::AudioFormatMismatch { expected_rate, received_rates } => AbiEventView::AudioFormatMismatch { expected_rate, received_rates: received_rates@ },
            AbiEvent::RelayAllocateFailed(code) => AbiEventView::RelayAllocateFailed(code),
            AbiEvent::RelayAllocateTimedOut => AbiEventView::RelayAllocateTimedOut,
            AbiEvent::MediaSetupFailed(detail) => AbiEventView::MediaSetupFailed(detail@),
            AbiEvent::RelayReconnectTimedOut => AbiEventView::RelayReconnectTimedOut,
            AbiEvent::VideoKeyframeNeeded => AbiEventView::VideoKeyframeNeeded,
            AbiEvent::RtcpReceived { packet_types, sender_ssrc, referenced_ssrcs, reports_audio, reports_video, report_blocks, feedback } => AbiEventView::RtcpReceived { packet_types: packet_types@, sender_ssrc, referenced_ssrcs: referenced_ssrcs@, reports_audio, reports_video, report_blocks: views(report_blocks@), feedback: views(feedback@) },
            AbiEvent::OutboundMediaDropped { video_access_units, packets } => AbiEventView::OutboundMediaDropped { video_access_units, packets },
            AbiEvent::AudioSilent { silent_for_ms, rtp_received, frames_produced, dominant_reason } => AbiEventView::AudioSilent { silent_for_ms, rtp_received, frames_produced, dominant_reason },
            AbiEvent::AudioCodecSwitched { from, to, source, packets_observed } => AbiEventView::AudioCodecSwitched { from, to, source, packets_observed },
            AbiEvent::AudioCodecSourceIsFixed { sending, peer_expects, source } => AbiEventView::AudioCodecSourceIsFixed { sending, peer_expects, source },
            AbiEvent::AudioReceptionStalled { silent_for_ms } => AbiEventView::AudioReceptionStalled { silent_for_ms },
            AbiEvent::Closed(reason) => AbiEventView::Closed(reason),
        }
    }
}

impl AbiEventView {
    /// The discriminant byte.
    pub open spec fn kind(self) -> u8 {
        match self {
            AbiEventView::RelayAllocated => 1,
            AbiEventView::ForeignAudio(_) => 2,
            AbiEventView::ForeignGroupAudio(_) => 3,
            AbiEventView::AudioFormatMismatch { .. } => 4,
            AbiEventView::RelayAllocateFailed(_) => 5,
            AbiEventView::RelayAllocateTimedOut => 6,
            AbiEventView::MediaSetupFailed(_) => 7,
            AbiEventView::RelayReconnectTimedOut => 8,
            AbiEventView::VideoKeyframeNeeded => 9,
            AbiEventView::RtcpReceived { .. } => 10,
            AbiEventView::OutboundMediaDropped { .. } => 11,
            AbiEventView::AudioSilent { .. } => 12,
            AbiEventView::AudioCodecSwitched { .. } => 13,
            AbiEventView::AudioCodecSourceIsFixed { .. } => 14,
            AbiEventView::AudioReceptionStalled { .. } => 15,
            AbiEventView::Closed(_) => 16,
        }
    }

    /// The written-down name.
    pub open spec fn kind_name_spec(self) -> &'static str {
        match self {
            AbiEventView::RelayAllocated => "RELAY_ALLOCATED",
            AbiEventView::ForeignAudio(_) => "FOREIGN_AUDIO",
            AbiEventView::ForeignGroupAudio(_) => "FOREIGN_GROUP_AUDIO",
            AbiEventView::AudioFormatMismatch { .. } => "AUDIO_FORMAT_MISMATCH",
            AbiEventView::RelayAllocateFailed(_) => "RELAY_ALLOCATE_FAILED",
            AbiEventView::RelayAllocateTimedOut => "RELAY_ALLOCATE_TIMED_OUT",
            AbiEventView::MediaSetupFailed(_) => "MEDIA_SETUP_FAILED",
            AbiEventView::RelayReconnectTimedOut => "RELAY_RECONNECT_TIMED_OUT",
            AbiEventView::VideoKeyframeNeeded => "VIDEO_KEYFRAME_NEEDED",
            AbiEventView::RtcpReceived { .. } => "RTCP_RECEIVED",
            AbiEventView::OutboundMediaDropped { .. } => "OUTBOUND_MEDIA_DROPPED",
            AbiEventView::AudioSilent { .. } => "AUDIO_SILENT",
            AbiEventView::AudioCodecSwitched { .. } => "AUDIO_CODEC_SWITCHED",
            AbiEventView::AudioCodecSourceIsFixed { .. } => "AUDIO_CODEC_SOURCE_IS_FIXED",
            AbiEventView::AudioReceptionStalled { .. } => "AUDIO_RECEPTION_STALLED",
            AbiEventView::Closed(_) => "CLOSED",
        }
    }

    /// The discriminant, then the variant's fields in wire order.
    #[verifier::opaque]
    pub open spec fn layout(self) -> Seq<u8> {
        match self {
            AbiEventView::RelayAllocated => seq![1u8],
            AbiEventView::ForeignAudio(data) => seq![2u8] + blob(data),
            AbiEventView::ForeignGroupAudio(frame) => seq![3u8] + blob(frame.body()),
            AbiEventView::AudioFormatMismatch { expected_rate, received_rates } => seq![4u8] + le_u32(expected_rate) + list(received_rates),
            AbiEventView::RelayAllocateFailed(code) => seq![5u8] + le_u32(code),
            AbiEventView::RelayAllocateTimedOut => seq![6u8],
            AbiEventView::MediaSetupFailed(detail) => seq![7u8] + text(detail),
            AbiEventView::RelayReconnectTimedOut => seq![8u8],
            AbiEventView::VideoKeyframeNeeded => seq![9u8],
            AbiEventView::RtcpReceived { packet_types, sender_ssrc, referenced_ssrcs, reports_audio, reports_video, report_blocks, feedback } => seq![10u8] + blob(packet_types) + le_u32(sender_ssrc) + list(referenced_ssrcs) + seq![reports_audio] + seq![reports_video] + list(report_blocks) + list(feedback),
            AbiEventView::OutboundMediaDropped { video_access_units, packets } => seq![11u8] + le_u32(video_access_units) + le_u32(packets),
            AbiEventView::AudioSilent { silent_for_ms, rtp_received, frames_produced, dominant_reason } => seq![12u8] + le_u64(silent_for_ms) + le_u32(rtp_received) + le_u32(frames_produced) + seq![dominant_reason.tag()],
            AbiEventView::AudioCodecSwitched { from, to, source, packets_observed } => seq![13u8] + seq![from.tag()] + seq![to.tag()] + seq![source.tag()] + le_u32(packets_observed),
            AbiEventView::AudioCodecSourceIsFixed { sending, peer_expects, source } => seq![14u8] + seq![sending.tag()] + seq![peer_expects.tag()] + seq![source.tag()],
            AbiEventView::AudioReceptionStalled { silent_for_ms } => seq![15u8] + le_u64(silent_for_ms),
            AbiEventView::Closed(reason) => seq![16u8] + seq![reason.tag()],
        }
    }

    /// The discriminant, then the fields it announces.
    #[verifier::opaque]
    pub open spec fn fields(c: Cursor) -> (AbiEventView, Cursor) {
        let (kind, c) = c.u8();
        if c.err is Some {
            (arbitrary(), c)
        } else if kind == 1 {
            (AbiEventView::RelayAllocated, c)
        } else if kind == 2 {
            let (data, c) = c.blob();
            (AbiEventView::ForeignAudio(data), c)
        } else if kind == 3 {
            let (frame, c) = EncodedFrameDtoView::read(c);
            (AbiEventView::ForeignGroupAudio(frame), c)
        } else if kind == 4 {
            let (expected_rate, c) = c.u32();
            let (received_rates, c) = c.list::<u32>(64);
            (AbiEventView::AudioFormatMismatch { expected_rate, received_rates }, c)
        } else if kind == 5 {
            let (code, c) = c.u32();
            (AbiEventView::RelayAllocateFailed(code), c)
        } else if kind == 6 {
            (AbiEventView::RelayAllocateTimedOut, c)
        } else if kind == 7 {
            let (detail, c) = c.text();
            (AbiEventView::MediaSetupFailed(detail), c)
        } else if kind == 8 {
            (AbiEventView::RelayReconnectTimedOut, c)
        } else if kind == 9 {
            (AbiEventView::VideoKeyframeNeeded, c)
        } else if kind == 10 {
            let (packet_types, c) = c.blob();
            let (sender_ssrc, c) = c.u32();
            let (referenced_ssrcs, c) = c.list::<u32>(256);
            let (reports_audio, c) = c.u8();
            let (reports_video, c) = c.u8();
            let c = c.at_most("reports_audio", reports_audio, 1).at_most(
                "reports_video",
                reports_video,
                1,
            );
            let (report_blocks, c) = c.list::<RtcpBlockDtoView>(MAX_ITEMS);
            let (feedback, c) = c.list::<RtcpFeedbackDtoView>(MAX_ITEMS);
            (AbiEventView::RtcpReceived { packet_types, sender_ssrc, referenced_ssrcs, reports_audio, reports_video, report_blocks, feedback }, c)
        } else if kind == 11 {
            let (video_access_units, c) = c.u32();
            let (packets, c) = c.u32();
            (AbiEventView::OutboundMediaDropped { video_access_units, packets }, c)
        } else if kind == 12 {
            let (silent_for_ms, c) = c.u64();
            let (rtp_received, c) = c.u32();
            let (frames_produced, c) = c.u32();
            let (dominant_reason, c) = c.tag::<SilenceReason>("dominant_reason");
            (AbiEventView::AudioSilent { silent_for_ms, rtp_received, frames_produced, dominant_reason }, c)
        } else if kind == 13 {
            let (from, c) = c.tag::<AudioCodecWire>("from");
            let (to, c) = c.tag::<AudioCodecWire>("to");
            let (source, c) = c.tag::<CodecSource>("source");
            let (packets_observed, c) = c.u32();
            (AbiEventView::AudioCodecSwitched { from, to, source, packets_observed }, c)
        } else if kind == 14 {
            let (sending, c) = c.tag::<AudioCodecWire>("sending");
            let (peer_expects, c) = c.tag::<AudioCodecWire>("peer_expects");
            let (source, c) = c.tag::<CodecSource>("source");
            (AbiEventView::AudioCodecSourceIsFixed { sending, peer_expects, source }, c)
        } else if kind == 15 {
            let (silent_for_ms, c) = c.u64();
            (AbiEventView::AudioReceptionStalled { silent_for_ms }, c)
        } else if kind == 16 {
            let (reason, c) = c.tag::<CloseReason>("reason");
            (AbiEventView::Closed(reason), c)
        } else {
            (arbitrary(), c.fail(DecodeError::BadValue { field: "event", value: kind }))
        }
    }
}

impl Body for AbiEventView {
    open spec fn body_fits(self) -> bool {
        match self {
            AbiEventView::ForeignAudio(data) => blob_fits(data),
            AbiEventView::ForeignGroupAudio(frame) => frame.fits(),
            AbiEventView::AudioFormatMismatch { expected_rate, received_rates } => list_fits(received_rates, 64),
            AbiEventView::MediaSetupFailed(detail) => text_fits(detail),
            AbiEventView::RtcpReceived { packet_types, sender_ssrc, referenced_ssrcs, reports_audio, reports_video, report_blocks, feedback } => {
                &&& blob_fits(packet_types)
                &&& list_fits(referenced_ssrcs, 256)
                &&& reports_audio <= 1
                &&& reports_video <= 1
                &&& list_fits(report_blocks, MAX_ITEMS)
                &&& list_fits(feedback, MAX_ITEMS)
            },
            _ => true,
        }
    }

    open spec fn body(self) -> Seq<u8> {
        self.layout()
    }

    open spec fn parse(c: Cursor) -> (AbiEventView, Cursor) {
        AbiEventView::fields(c)
    }

    #[verifier::rlimit(40)]
    proof fn body_written(self, tail: Seq<u8>) {
        broadcast use group_written;

        reveal(AbiEventView::layout);
        reveal(AbiEventView::fields);
    }

    proof fn parse_extends(s: Seq<u8>, more: Seq<u8>) {
        broadcast use {group_extends, group_stuck};

        reveal(AbiEventView::fields);
        assert(Cursor::at(s + more) == extended(Cursor::at(s), more));
    }
}

impl AbiEvent {
    /// The wire discriminant.
    pub fn kind_u8(&self) -> (b: u8)
        ensures
            b == self@.kind(),
    {
        match self {
            AbiEvent::RelayAllocated => 1,
            AbiEvent::ForeignAudio(_) => 2,
            AbiEvent::ForeignGroupAudio(_) => 3,
            AbiEvent::AudioFormatMismatch { .. } => 4,
            AbiEvent::RelayAllocateFailed(_) => 5,
            AbiEvent::RelayAllocateTimedOut => 6,
            AbiEvent::MediaSetupFailed(_) => 7,
            AbiEvent::RelayReconnectTimedOut => 8,
            AbiEvent::VideoKeyframeNeeded => 9,
            AbiEvent::RtcpReceived { .. } => 10,
            AbiEvent::OutboundMediaDropped { .. } => 11,
            AbiEvent::AudioSilent { .. } => 12,
            AbiEvent::AudioCodecSwitched { .. } => 13,
            AbiEvent::AudioCodecSourceIsFixed { .. } => 14,
            AbiEvent::AudioReceptionStalled { .. } => 15,
            AbiEvent::Closed(_) => 16,
        }
    }

    /// Written-down name.
    pub fn kind_name(&self) -> (s: &'static str)
        ensures
            s == self@.kind_name_spec(),
    {
        match self {
            AbiEvent::RelayAllocated => "RELAY_ALLOCATED",
            AbiEvent::ForeignAudio(_) => "FOREIGN_AUDIO",
            AbiEvent::ForeignGroupAudio(_) => "FOREIGN_GROUP_AUDIO",
            AbiEvent::AudioFormatMismatch { .. } => "AUDIO_FORMAT_MISMATCH",
            AbiEvent::RelayAllocateFailed(_) => "RELAY_ALLOCATE_FAILED",
            AbiEvent::RelayAllocateTimedOut => "RELAY_ALLOCATE_TIMED_OUT",
            AbiEvent::MediaSetupFailed(_) => "MEDIA_SETUP_FAILED",
            AbiEvent::RelayReconnectTimedOut => "RELAY_RECONNECT_TIMED_OUT",
            AbiEvent::VideoKeyframeNeeded => "VIDEO_KEYFRAME_NEEDED",
            AbiEvent::RtcpReceived { .. } => "RTCP_RECEIVED",
            AbiEvent::OutboundMediaDropped { .. } => "OUTBOUND_MEDIA_DROPPED",
            AbiEvent::AudioSilent { .. } => "AUDIO_SILENT",
            AbiEvent::AudioCodecSwitched { .. } => "AUDIO_CODEC_SWITCHED",
            AbiEvent::AudioCodecSourceIsFixed { .. } => "AUDIO_CODEC_SOURCE_IS_FIXED",
            AbiEvent::AudioReceptionStalled { .. } => "AUDIO_RECEPTION_STALLED",
            AbiEvent::Closed(_) => "CLOSED",
        }
    }

    /// Serializes discriminant plus fields.
    pub fn encode(&self) -> (payload: Vec<u8>)
        ensures
            payload@ == self@.body(),
    {
        broadcast use concat_empty;

        proof {
            reveal(AbiEventView::layout);
        }
        let mut w = Writer::new();
        w.u8(self.kind_u8());
        match self {
            AbiEvent::ForeignAudio(data) => {
                w.bytes_raw(data.as_slice());
            },
            AbiEvent::ForeignGroupAudio(frame) => {
                let raw = frame.encode();
                w.bytes_raw(raw.as_slice());
            },
            AbiEvent::AudioFormatMismatch { expected_rate, received_rates } => {
                w.u32_le(*expected_rate);
                encode_words(&mut w, received_rates);
            },
            AbiEvent::RelayAllocateFailed(code) => {
                w.u32_le(*code);
            },
            AbiEvent::MediaSetupFailed(detail) => {
                w.utf8(detail.as_str());
            },
            AbiEvent::RtcpReceived { packet_types, sender_ssrc, referenced_ssrcs, reports_audio, reports_video, report_blocks, feedback } => {
                w.bytes_raw(packet_types.as_slice());
                w.u32_le(*sender_ssrc);
                encode_words(&mut w, referenced_ssrcs);
                w.u8(*reports_audio);
                w.u8(*reports_video);
                encode_dto_vec(&mut w, report_blocks);
                encode_dto_vec(&mut w, feedback);
            },
            AbiEvent::OutboundMediaDropped { video_access_units, packets } => {
                w.u32_le(*video_access_units);
                w.u32_le(*packets);
            },
            AbiEvent::AudioSilent { silent_for_ms, rtp_received, frames_produced, dominant_reason } => {
                w.u64_le(*silent_for_ms);
                w.u32_le(*rtp_received);
                w.u32_le(*frames_produced);
                w.u8(dominant_reason.as_u8());
            },
            AbiEvent::AudioCodecSwitched { from, to, source, packets_observed } => {
                w.u8(from.as_u8());
                w.u8(to.as_u8());
                w.u8(source.as_u8());
                w.u32_le(*packets_observed);
            },
            AbiEvent::AudioCodecSourceIsFixed { sending, peer_expects, source } => {
                w.u8(sending.as_u8());
                w.u8(peer_expects.as_u8());
                w.u8(source.as_u8());
            },
            AbiEvent::AudioReceptionStalled { silent_for_ms } => {
                w.u64_le(*silent_for_ms);
            },
            AbiEvent::Closed(reason) => {
                w.u8(reason.as_u8());
            },
            _ => {},
        }
        w.finish()
    }

    /// Parses discriminant plus fields. Trailing bytes are ignored.
    pub fn decode(buf: &[u8]) -> (res: Result<Self, DecodeError>)
        ensures
            match res {
                Ok(v) => decoded::<AbiEventView>(buf@) == Ok::<AbiEventView, DecodeError>(v@),
                Err(e) => decoded::<AbiEventView>(buf@) == Err::<AbiEventView, DecodeError>(e),
            },
    {
        broadcast use group_stuck;

        proof {
            reveal(AbiEventView::fields);
        }
        let mut r = Reader::new(buf);
        let kind: u8 = r.u8()?;
        match kind {
            1 => Ok(AbiEvent::RelayAllocated),
            2 => {
                let data = slice_to_vec(r.bytes_raw()?);
                Ok(AbiEvent::ForeignAudio(data))
            },
            3 => {
                let frame = EncodedFrameDto::decode(r.bytes_raw()?)?;
                Ok(AbiEvent::ForeignGroupAudio(frame))
            },
            4 => {
                let expected_rate: u32 = r.u32_le()?;
                let received_rates = decode_words(&mut r, 64)?;
                Ok(AbiEvent::AudioFormatMismatch { expected_rate, received_rates })
            },
            5 => {
                let code: u32 = r.u32_le()?;
                Ok(AbiEvent::RelayAllocateFailed(code))
            },
            6 => Ok(AbiEvent::RelayAllocateTimedOut),
            7 => {
                let detail = r.utf8()?.to_owned();
                Ok(AbiEvent::MediaSetupFailed(detail))
            },
            8 => Ok(AbiEvent::RelayReconnectTimedOut),
            9 => Ok(AbiEvent::VideoKeyframeNeeded),
            10 => {
                let packet_types = slice_to_vec(r.bytes_raw()?);
                let sender_ssrc: u32 = r.u32_le()?;
                let referenced_ssrcs = decode_words(&mut r, 256)?;
                let reports_audio: u8 = r.u8()?;
                let reports_video: u8 = r.u8()?;
                at_most("reports_audio", reports_audio, 1)?;
                at_most("reports_video", reports_video, 1)?;
                let report_blocks = decode_dto_vec::<RtcpBlockDto>(&mut r)?;
                let feedback = decode_dto_vec::<RtcpFeedbackDto>(&mut r)?;
                Ok(AbiEvent::RtcpReceived { packet_types, sender_ssrc, referenced_ssrcs, reports_audio, reports_video, report_blocks, feedback })
            },
            11 => {
                let video_access_units: u32 = r.u32_le()?;
                let packets: u32 = r.u32_le()?;
                Ok(AbiEvent::OutboundMediaDropped { video_access_units, packets })
            },
            12 => {
                let silent_for_ms: u64 = r.u64_le()?;
                let rtp_received: u32 = r.u32_le()?;
                let frames_produced: u32 = r.u32_le()?;
                let dominant_reason = enum_byte::<SilenceReason>("dominant_reason", &mut r)?;
                Ok(AbiEvent::AudioSilent { silent_for_ms, rtp_received, frames_produced, dominant_reason })
            },
            13 => {
                let from = enum_byte::<AudioCodecWire>("from", &mut r)?;
                let to = enum_byte::<AudioCodecWire>("to", &mut r)?;
                let source = enum_byte::<CodecSource>("source", &mut r)?;
                let packets_observed: u32 = r.u32_le()?;
                Ok(AbiEvent::AudioCodecSwitched { from, to, source, packets_observed })
            },
            14 => {
                let sending = enum_byte::<AudioCodecWire>("sending", &mut r)?;
                let peer_expects = enum_byte::<AudioCodecWire>("peer_expects", &mut r)?;
                let source = enum_byte::<CodecSource>("source", &mut r)?;
                Ok(AbiEvent::AudioCodecSourceIsFixed { sending, peer_expects, source })
            },
            15 => {
                let silent_for_ms: u64 = r.u64_le()?;
                Ok(AbiEvent::AudioReceptionStalled { silent_for_ms })
            },
            16 => {
                let reason = enum_byte::<CloseReason>("reason", &mut r)?;
                Ok(AbiEvent::Closed(reason))
            },
            _ => Err(DecodeError::BadValue { field: "event", value: kind }),
        }
    }
}

impl Dto for AbiEvent {
    fn to_payload(&self) -> (payload: Vec<u8>) {
        self.encode()
    }

    fn of_payload(buf: &[u8]) -> (res: Result<Self, DecodeError>) {
        Self::decode(buf)
    }
}

/// `EVENT` notification (`voip -> core`): one engine-raised event against a
/// session, published into the same ordered stream as signaling.
#[derive(Debug, Clone, PartialEq, Eq)]
pub struct EventNotification {
    /// The session the event belongs to.
    pub session: SessionId,
    /// The event.
    pub event: AbiEvent,
}

/// The values that a [`EventNotification`] carries.
#[verifier::ext_equal]
pub struct EventNotificationView {
    pub session: SessionId,
    pub event: AbiEventView,
}

impl View for EventNotification {
    type V = EventNotificationView;

    open spec fn view(&self) -> EventNotificationView {
        EventNotificationView {
            session: self.session,
            event: self.event@,
        }
    }
}

impl EventNotificationView {
    /// The fields as bytes, in wire order.
    #[verifier::opaque]
    pub open spec fn layout(self) -> Seq<u8> {
        le_u32(self.session.handle)
            + le_u64(self.session.generation)
            + blob(self.event.body())
    }

    /// The fields, read in wire order.
    #[verifier::opaque]
    pub open spec fn fields(c: Cursor) -> (EventNotificationView, Cursor) {
        let (handle, c) = c.u32();
        let (generation, c) = c.u64();
        let (event, c) = AbiEventView::read(c);
        (EventNotificationView { session: SessionId { handle, generation }, event }, c)
    }
}

impl Body for EventNotificationView {
    open spec fn body_fits(self) -> bool {
        self.event.fits()
    }

    open spec fn body(self) -> Seq<u8> {
        self.layout()
    }

    open spec fn parse(c: Cursor) -> (EventNotificationView, Cursor) {
        EventNotificationView::fields(c)
    }

    proof fn body_written(self, tail: Seq<u8>) {
        broadcast use group_written;

        reveal(EventNotificationView::layout);
        reveal(EventNotificationView::fields);
    }

    proof fn parse_extends(s: Seq<u8>, more: Seq<u8>) {
        broadcast use {group_extends, group_stuck};

        reveal(EventNotificationView::fields);
        assert(Cursor::at(s + more) == extended(Cursor::at(s), more));
    }
}

impl EventNotification {
    /// Serializes the body.
    pub fn encode(&self) -> (payload: Vec<u8>)
        ensures
            payload@ == self@.body(),
    {
        broadcast use concat_empty;

        proof {
            reveal(EventNotificationView::layout);
        }
        let mut w = Writer::new();
        w.u32_le(self.session.handle);
        w.u64_le(self.session.generation);
        let raw = self.event.encode();
        w.bytes_raw(raw.as_slice());
        w.finish()
    }

    /// Parses the body. Trailing bytes are ignored (newer minor fields).
    pub fn decode(buf: &[u8]) -> (res: Result<Self, DecodeError>)
        ensures
            match res {
                Ok(v) => decoded::<EventNotificationView>(buf@) == Ok::<EventNotificationView, DecodeError>(v@),
                Err(e) => decoded::<EventNotificationView>(buf@) == Err::<EventNotificationView, DecodeError>(e),
            },
    {
        broadcast use group_stuck;

        proof {
            reveal(EventNotificationView::fields);
        }
        let mut r = Reader::new(buf);
        let handle: u32 = r.u32_le()?;
        let generation: u64 = r.u64_le()?;
        let event = AbiEvent::decode(r.bytes_raw()?)?;
        Ok(EventNotification { session: SessionId { handle, generation }, event })
    }
}

impl Dto for EventNotification {
    fn to_payload(&self) -> (payload: Vec<u8>) {
        self.encode()
    }

    fn of_payload(buf: &[u8]) -> (res: Result<Self, DecodeError>) {
        Self::decode(buf)
    }
}

} // verus!
