//! The engine's vocabulary as plain values.
//!
//! These are the records that the media engine and this side of the wire
//! exchange. An engine may know more variants of a closed choice than the
//! wire has spellings for: `Unlisted` stands for every one of those.

use vstd::prelude::*;

use crate::messages::fields::{opt_view, rotations, views};

verus! {

/// Audio codec of a payload.
#[derive(Debug, Clone, Copy, PartialEq, Eq, Structural)]
pub enum MediaAudioCodec {
    /// MLOW codec audio.
    Mlow,
    /// Opus audio.
    Opus,
    /// A codec the wire has no spelling for.
    Unlisted,
}

/// RTP payload family.
#[derive(Debug, Clone, Copy, PartialEq, Eq, Structural)]
pub enum MediaAudioRtpProfile {
    /// MLOW framing.
    Mlow,
    /// Native Opus bytes.
    StandardOpus,
}

/// Where encoding and decoding happen.
#[derive(Debug, Clone, Copy, PartialEq, Eq, Structural)]
pub enum MediaAudioIo {
    /// PCM frames cross.
    Pcm,
    /// Complete codec payloads cross.
    Encoded,
}

/// Which way a call flows.
#[derive(Debug, Clone, Copy, PartialEq, Eq, Structural)]
pub enum CallDirection {
    /// This side placed the call.
    Outgoing,
    /// This side received the call.
    Incoming,
}

/// How soon a peer keyframe is wanted.
#[derive(Debug, Clone, Copy, PartialEq, Eq, Structural)]
pub enum MediaKeyframeUrgency {
    /// With the next scheduled request.
    Coalesced,
    /// At once.
    Immediate,
}

/// Why audio RTP keeps arriving without becoming sound.
#[derive(Debug, Clone, Copy, PartialEq, Eq, Structural)]
pub enum MediaSilenceReason {
    /// No decoder for the negotiated codec.
    NoDecoderForNegotiatedCodec,
    /// Authentication keeps failing.
    AuthenticationFailing,
    /// Unexpected payload type.
    UnexpectedPayloadType,
    /// Codec rejecting frames.
    CodecRejectingFrames,
    /// Codec flapping.
    CodecFlapping,
    /// Unknown.
    Unknown,
    /// A reason the wire has no spelling for.
    Unlisted,
}

/// What decided a codec switch.
#[derive(Debug, Clone, Copy, PartialEq, Eq, Structural)]
pub enum MediaCodecDecisionSource {
    /// Signaling negotiation.
    Negotiated,
    /// Packet content.
    Content,
    /// A source the wire has no spelling for.
    Unlisted,
}

/// Why the media session closed.
#[derive(Debug, Clone, PartialEq, Eq)]
pub enum MediaCloseReason {
    /// This side hung up.
    Local,
    /// The relay went away.
    RelayDisconnected,
    /// A send failed, with why.
    SendFailed(String),
    /// Setup failed, with why.
    SetupFailed(String),
    /// A reason the wire has no spelling for.
    Unlisted,
}

/// The values that a [`MediaCloseReason`] carries.
#[verifier::ext_equal]
pub enum MediaCloseReasonView {
    Local,
    RelayDisconnected,
    SendFailed(Seq<char>),
    SetupFailed(Seq<char>),
    Unlisted,
}

impl View for MediaCloseReason {
    type V = MediaCloseReasonView;

    open spec fn view(&self) -> MediaCloseReasonView {
        match *self {
            MediaCloseReason::Local => MediaCloseReasonView::Local,
            MediaCloseReason::RelayDisconnected => MediaCloseReasonView::RelayDisconnected,
            MediaCloseReason::SendFailed(x) => MediaCloseReasonView::SendFailed(x@),
            MediaCloseReason::SetupFailed(x) => MediaCloseReasonView::SetupFailed(x@),
            MediaCloseReason::Unlisted => MediaCloseReasonView::Unlisted,
        }
    }
}

/// Fixed audio timing for one call.
#[derive(Debug, Clone, Copy, PartialEq, Eq, Structural)]
pub struct MediaAudioFormat {
    /// Codec of the payloads.
    pub codec: MediaAudioCodec,
    /// RTP family negotiated with the peer.
    pub rtp_profile: MediaAudioRtpProfile,
    /// Rate used by call signaling.
    pub signaling_rate: u32,
    /// PCM rate expected by a codec adapter.
    pub sample_rate: u32,
    /// Channels.
    pub channels: u8,
    /// PCM samples per encoded payload, per channel.
    pub samples_per_frame: u32,
    /// RTP clock rate.
    pub rtp_clock_rate: u32,
    /// RTP clock increment per access unit.
    pub rtp_timestamp_step: u32,
    /// RTP payload type.
    pub rtp_payload_type: u8,
}

/// Audio half of a media session.
#[derive(Debug, Clone, Copy, PartialEq, Eq, Structural)]
pub struct MediaAudioSpec {
    /// Timing and codec.
    pub format: MediaAudioFormat,
    /// Where encoding happens.
    pub io: MediaAudioIo,
}

impl MediaAudioFormat {
    /// MLOW at 16 kHz in 60 ms frames: the engine's native format.
    pub open spec fn mlow_spec() -> MediaAudioFormat {
        MediaAudioFormat {
            codec: MediaAudioCodec::Mlow,
            rtp_profile: MediaAudioRtpProfile::Mlow,
            signaling_rate: 16_000,
            sample_rate: 16_000,
            channels: 1,
            samples_per_frame: 960,
            rtp_clock_rate: 16_000,
            rtp_timestamp_step: 960,
            rtp_payload_type: 120,
        }
    }

    /// Opus carried through MLOW's in-profile escape, in the same timing.
    pub open spec fn opus_mlow_spec() -> MediaAudioFormat {
        MediaAudioFormat { codec: MediaAudioCodec::Opus, ..MediaAudioFormat::mlow_spec() }
    }

    /// MLOW at 16 kHz in 60 ms frames: the engine's native format.
    pub fn mlow_16khz_60ms() -> (f: Self)
        ensures
            f == MediaAudioFormat::mlow_spec(),
    {
        MediaAudioFormat {
            codec: MediaAudioCodec::Mlow,
            rtp_profile: MediaAudioRtpProfile::Mlow,
            signaling_rate: 16_000,
            sample_rate: 16_000,
            channels: 1,
            samples_per_frame: 960,
            rtp_clock_rate: 16_000,
            rtp_timestamp_step: 960,
            rtp_payload_type: 120,
        }
    }

    /// Opus carried through MLOW's in-profile escape, in the same timing.
    pub fn opus_mlow_16khz_60ms() -> (f: Self)
        ensures
            f == MediaAudioFormat::opus_mlow_spec(),
    {
        MediaAudioFormat { codec: MediaAudioCodec::Opus, ..MediaAudioFormat::mlow_16khz_60ms() }
    }
}

/// One decrypted codec payload from the peer.
#[derive(Debug, Clone, PartialEq, Eq)]
pub struct MediaEncodedFrame {
    /// Codec of these bytes.
    pub codec: MediaAudioCodec,
    /// Codec payload bytes.
    pub data: Vec<u8>,
    /// RTP payload type.
    pub payload_type: u8,
    /// RTP sequence number.
    pub sequence_number: u16,
    /// RTP timestamp.
    pub timestamp: u32,
    /// Marker bit.
    pub marker: bool,
    /// Sender JID, rendered, if any.
    pub sender: Option<String>,
    /// Sender device JID, rendered, if any.
    pub device: Option<String>,
}

/// The values that a [`MediaEncodedFrame`] carries.
#[verifier::ext_equal]
pub struct MediaEncodedFrameView {
    pub codec: MediaAudioCodec,
    pub data: Seq<u8>,
    pub payload_type: u8,
    pub sequence_number: u16,
    pub timestamp: u32,
    pub marker: bool,
    pub sender: Option<Seq<char>>,
    pub device: Option<Seq<char>>,
}

impl View for MediaEncodedFrame {
    type V = MediaEncodedFrameView;

    open spec fn view(&self) -> MediaEncodedFrameView {
        MediaEncodedFrameView {
            codec: self.codec,
            data: self.data@,
            payload_type: self.payload_type,
            sequence_number: self.sequence_number,
            timestamp: self.timestamp,
            marker: self.marker,
            sender: opt_view(self.sender),
            device: opt_view(self.device),
        }
    }
}

/// One reassembled peer access unit.
#[derive(Debug, Clone, PartialEq, Eq)]
pub struct VideoFrame {
    /// Annex-B access unit bytes.
    pub data: Vec<u8>,
    /// Carries an IDR/SPS/PPS NAL.
    pub keyframe: bool,
    /// Rotation bits from RTP metadata.
    pub orientation: u8,
    /// Group sender JID, rendered, if any.
    pub sender: Option<String>,
    /// Group sender device JID, rendered, if any.
    pub device: Option<String>,
    /// Relay participant id, if any.
    pub pid: Option<u32>,
}

/// The values that a [`VideoFrame`] carries.
#[verifier::ext_equal]
pub struct VideoFrameView {
    pub data: Seq<u8>,
    pub keyframe: bool,
    pub orientation: u8,
    pub sender: Option<Seq<char>>,
    pub device: Option<Seq<char>>,
    pub pid: Option<u32>,
}

impl View for VideoFrame {
    type V = VideoFrameView;

    open spec fn view(&self) -> VideoFrameView {
        VideoFrameView {
            data: self.data@,
            keyframe: self.keyframe,
            orientation: self.orientation,
            sender: opt_view(self.sender),
            device: opt_view(self.device),
            pid: self.pid,
        }
    }
}

/// One RTCP report block.
#[derive(Debug, Clone, PartialEq, Eq)]
pub struct MediaRtcpReportBlock {
    /// Source SSRC.
    pub ssrc: u32,
    /// Fraction lost.
    pub fraction_lost: u8,
    /// Cumulative packets lost.
    pub cumulative_lost: i32,
    /// Extended highest sequence received.
    pub extended_highest_sequence: u32,
    /// Interarrival jitter.
    pub jitter: u32,
    /// Last SR timestamp.
    pub last_sender_report: u32,
    /// Delay since last SR.
    pub delay_since_last_sender_report: u32,
    /// Profile-specific extension bytes.
    pub profile_extension: Vec<u8>,
}

/// The values that a [`MediaRtcpReportBlock`] carries.
#[verifier::ext_equal]
pub struct MediaRtcpReportBlockView {
    pub ssrc: u32,
    pub fraction_lost: u8,
    pub cumulative_lost: i32,
    pub extended_highest_sequence: u32,
    pub jitter: u32,
    pub last_sender_report: u32,
    pub delay_since_last_sender_report: u32,
    pub profile_extension: Seq<u8>,
}

impl View for MediaRtcpReportBlock {
    type V = MediaRtcpReportBlockView;

    open spec fn view(&self) -> MediaRtcpReportBlockView {
        MediaRtcpReportBlockView {
            ssrc: self.ssrc,
            fraction_lost: self.fraction_lost,
            cumulative_lost: self.cumulative_lost,
            extended_highest_sequence: self.extended_highest_sequence,
            jitter: self.jitter,
            last_sender_report: self.last_sender_report,
            delay_since_last_sender_report: self.delay_since_last_sender_report,
            profile_extension: self.profile_extension@,
        }
    }
}

/// One RTCP feedback packet.
#[derive(Debug, Clone, PartialEq, Eq)]
pub struct MediaRtcpFeedback {
    /// RTCP packet type.
    pub packet_type: u8,
    /// Format.
    pub fmt: u8,
    /// Sender SSRC.
    pub sender_ssrc: u32,
    /// Media SSRC.
    pub media_ssrc: u32,
    /// Feedback control information bytes.
    pub fci: Vec<u8>,
}

/// The values that a [`MediaRtcpFeedback`] carries.
#[verifier::ext_equal]
pub struct MediaRtcpFeedbackView {
    pub packet_type: u8,
    pub fmt: u8,
    pub sender_ssrc: u32,
    pub media_ssrc: u32,
    pub fci: Seq<u8>,
}

impl View for MediaRtcpFeedback {
    type V = MediaRtcpFeedbackView;

    open spec fn view(&self) -> MediaRtcpFeedbackView {
        MediaRtcpFeedbackView {
            packet_type: self.packet_type,
            fmt: self.fmt,
            sender_ssrc: self.sender_ssrc,
            media_ssrc: self.media_ssrc,
            fci: self.fci@,
        }
    }
}

/// Per-call media counters as the engine publishes them.
#[derive(Debug, Clone, Copy, PartialEq, Eq, Structural)]
pub struct MediaStats {
    pub rtp_received: u32,
    pub rtp_payload_type_unexpected: u32,
    pub srtp_unprotect_failed: u32,
    pub sframe_decrypt_failed: u32,
    pub audio_frames_decoded: u32,
    pub audio_frames_delivered: u32,
    pub audio_frames_concealed: u32,
    pub mlow_off_point_dropped: u32,
    pub mlow_inactive_or_sid: u32,
    pub foreign_frames_decoded: u32,
    pub audio_frames_without_decoder: u32,
    pub outbound_frames_without_encoder: u32,
    pub playout_trimmed_samples: u32,
    pub inbound_pipe_dropped: u32,
    pub audio_sink_dropped: u32,
    pub video_sink_dropped: u32,
    pub peer_keyframe_requests: u32,
    pub relay_packet_unclassified: u32,
    pub forwarding_envelope_rejected: u32,
    pub codec_switches: u16,
}

/// One event on the engine's stream. Those that signaling raises carry nothing
/// here: the wire never spells them.
#[allow(inconsistent_fields)]
#[derive(Debug, Clone, PartialEq, Eq)]
pub enum MediaEvent {
    /// The relay accepted our allocate.
    RelayAllocated,
    /// One standard Opus packet through the in-profile escape.
    ForeignAudio(Vec<u8>),
    /// One Opus fallback packet from a group participant.
    ForeignGroupAudio(MediaEncodedFrame),
    /// The peer's signaling rates fit no offered profile.
    AudioFormatMismatch {
        /// Rate offered locally.
        expected_rate: u32,
        /// Rates the peer sent.
        received_rates: Vec<u32>,
    },
    /// The relay rejected our allocate, with the STUN error code.
    RelayAllocateFailed(u16),
    /// The relay never acked the allocate.
    RelayAllocateTimedOut,
    /// The media path was never built, with why.
    MediaSetupFailed(String),
    /// A migrated relay transport did not reconnect in time.
    RelayReconnectTimedOut,
    /// Outbound video needs an IDR.
    VideoKeyframeNeeded,
    /// Authenticated peer RTCP.
    RtcpReceived {
        /// Packet types.
        packet_types: Vec<u8>,
        /// Sender SSRC.
        sender_ssrc: u32,
        /// Referenced SSRCs.
        referenced_ssrcs: Vec<u32>,
        /// Reports audio.
        reports_audio: bool,
        /// Reports video.
        reports_video: bool,
        /// Report blocks.
        report_blocks: Vec<MediaRtcpReportBlock>,
        /// Feedback packets.
        feedback: Vec<MediaRtcpFeedback>,
    },
    /// Backpressure discarded complete media units.
    OutboundMediaDropped {
        /// Video access units dropped.
        video_access_units: u32,
        /// Packets dropped.
        packets: u32,
    },
    /// Audio RTP keeps arriving and none of it is becoming sound.
    AudioSilent {
        /// Window length in milliseconds.
        silent_for_ms: u64,
        /// RTP packets counted in the window.
        rtp_received: u32,
        /// Frames produced in the window.
        frames_produced: u32,
        /// Dominant reason.
        dominant_reason: MediaSilenceReason,
    },
    /// The payload grammar changed inside the negotiated timing.
    AudioCodecSwitched {
        /// Previous codec.
        from: MediaAudioCodec,
        /// New codec.
        to: MediaAudioCodec,
        /// What decided the switch.
        source: MediaCodecDecisionSource,
        /// Packets observed before switching.
        packets_observed: u32,
    },
    /// The peer speaks one codec and the source emits another.
    AudioCodecSourceIsFixed {
        /// What the source sends.
        sending: MediaAudioCodec,
        /// What the peer expects.
        peer_expects: MediaAudioCodec,
        /// What decided.
        source: MediaCodecDecisionSource,
    },
    /// Audio RTP has stopped arriving.
    AudioReceptionStalled {
        /// Silence length in milliseconds.
        silent_for_ms: u64,
    },
    /// The media session closed, with why.
    Closed(MediaCloseReason),
    /// Signaling: our video state.
    VideoStateChanged,
    /// Signaling: the peer's video state.
    PeerVideoStateChanged,
    /// Signaling: a group snapshot.
    GroupUpdated,
    /// Signaling: the waiting room.
    WaitingRoomUpdated,
    /// Signaling: the waiting-room heartbeat failed.
    WaitingRoomHeartbeatFailed,
    /// Signaling: a group control was rejected.
    GroupControlRejected,
    /// Signaling: a group rekey failed.
    GroupRekeyFailed,
    /// Signaling: a raised hand.
    HandRaised,
    /// Signaling: screen share.
    ScreenShareChanged,
    /// Signaling: a reaction.
    Reaction,
    /// An event the wire has no spelling for.
    Unlisted,
}

/// The values that a [`MediaEvent`] carries.
#[allow(inconsistent_fields)]
#[verifier::ext_equal]
pub enum MediaEventView {
    RelayAllocated,
    ForeignAudio(Seq<u8>),
    ForeignGroupAudio(MediaEncodedFrameView),
    AudioFormatMismatch { expected_rate: u32, received_rates: Seq<u32> },
    RelayAllocateFailed(u16),
    RelayAllocateTimedOut,
    MediaSetupFailed(Seq<char>),
    RelayReconnectTimedOut,
    VideoKeyframeNeeded,
    RtcpReceived { packet_types: Seq<u8>, sender_ssrc: u32, referenced_ssrcs: Seq<u32>, reports_audio: bool, reports_video: bool, report_blocks: Seq<MediaRtcpReportBlockView>, feedback: Seq<MediaRtcpFeedbackView> },
    OutboundMediaDropped { video_access_units: u32, packets: u32 },
    AudioSilent { silent_for_ms: u64, rtp_received: u32, frames_produced: u32, dominant_reason: MediaSilenceReason },
    AudioCodecSwitched { from: MediaAudioCodec, to: MediaAudioCodec, source: MediaCodecDecisionSource, packets_observed: u32 },
    AudioCodecSourceIsFixed { sending: MediaAudioCodec, peer_expects: MediaAudioCodec, source: MediaCodecDecisionSource },
    AudioReceptionStalled { silent_for_ms: u64 },
    Closed(MediaCloseReasonView),
    VideoStateChanged,
    PeerVideoStateChanged,
    GroupUpdated,
    WaitingRoomUpdated,
    WaitingRoomHeartbeatFailed,
    GroupControlRejected,
    GroupRekeyFailed,
    HandRaised,
    ScreenShareChanged,
    Reaction,
    Unlisted,
}

impl View for MediaEvent {
    type V = MediaEventView;

    open spec fn view(&self) -> MediaEventView {
        match *self {
            MediaEvent::RelayAllocated => MediaEventView::RelayAllocated,
            MediaEvent::ForeignAudio(x) => MediaEventView::ForeignAudio(x@),
            MediaEvent::ForeignGroupAudio(x) => MediaEventView::ForeignGroupAudio(x@),
            MediaEvent::AudioFormatMismatch { expected_rate, received_rates } => MediaEventView::AudioFormatMismatch { expected_rate, received_rates: received_rates@ },
            MediaEvent::RelayAllocateFailed(x) => MediaEventView::RelayAllocateFailed(x),
            MediaEvent::RelayAllocateTimedOut => MediaEventView::RelayAllocateTimedOut,
            MediaEvent::MediaSetupFailed(x) => MediaEventView::MediaSetupFailed(x@),
            MediaEvent::RelayReconnectTimedOut => MediaEventView::RelayReconnectTimedOut,
            MediaEvent::VideoKeyframeNeeded => MediaEventView::VideoKeyframeNeeded,
            MediaEvent::RtcpReceived { packet_types, sender_ssrc, referenced_ssrcs, reports_audio, reports_video, report_blocks, feedback } => MediaEventView::RtcpReceived { packet_types: packet_types@, sender_ssrc, referenced_ssrcs: referenced_ssrcs@, reports_audio, reports_video, report_blocks: views(report_blocks@), feedback: views(feedback@) },
            MediaEvent::OutboundMediaDropped { video_access_units, packets } => MediaEventView::OutboundMediaDropped { video_access_units, packets },
            MediaEvent::AudioSilent { silent_for_ms, rtp_received, frames_produced, dominant_reason } => MediaEventView::AudioSilent { silent_for_ms, rtp_received, frames_produced, dominant_reason },
            MediaEvent::AudioCodecSwitched { from, to, source, packets_observed } => MediaEventView::AudioCodecSwitched { from, to, source, packets_observed },
            MediaEvent::AudioCodecSourceIsFixed { sending, peer_expects, source } => MediaEventView::AudioCodecSourceIsFixed { sending, peer_expects, source },
            MediaEvent::AudioReceptionStalled { silent_for_ms } => MediaEventView::AudioReceptionStalled { silent_for_ms },
            MediaEvent::Closed(x) => MediaEventView::Closed(x@),
            MediaEvent::VideoStateChanged => MediaEventView::VideoStateChanged,
            MediaEvent::PeerVideoStateChanged => MediaEventView::PeerVideoStateChanged,
            MediaEvent::GroupUpdated => MediaEventView::GroupUpdated,
            MediaEvent::WaitingRoomUpdated => MediaEventView::WaitingRoomUpdated,
            MediaEvent::WaitingRoomHeartbeatFailed => MediaEventView::WaitingRoomHeartbeatFailed,
            MediaEvent::GroupControlRejected => MediaEventView::GroupControlRejected,
            MediaEvent::GroupRekeyFailed => MediaEventView::GroupRekeyFailed,
            MediaEvent::HandRaised => MediaEventView::HandRaised,
            MediaEvent::ScreenShareChanged => MediaEventView::ScreenShareChanged,
            MediaEvent::Reaction => MediaEventView::Reaction,
            MediaEvent::Unlisted => MediaEventView::Unlisted,
        }
    }
}

/// A parsed address: who, on which server, and which of their devices.
#[derive(Debug, Clone, PartialEq, Eq)]
pub struct Jid {
    /// User part.
    pub user: String,
    /// Server part.
    pub server: String,
    /// Agent, where the server has one.
    pub agent: u8,
    /// Device number; 0 is the account itself.
    pub device: u16,
    /// Integrator, where the server has one.
    pub integrator: u16,
}

/// The values that a [`Jid`] carries.
#[verifier::ext_equal]
pub struct JidView {
    pub user: Seq<char>,
    pub server: Seq<char>,
    pub agent: u8,
    pub device: u16,
    pub integrator: u16,
}

impl View for Jid {
    type V = JidView;

    open spec fn view(&self) -> JidView {
        JidView {
            user: self.user@,
            server: self.server@,
            agent: self.agent,
            device: self.device,
            integrator: self.integrator,
        }
    }
}

/// One device of a group-call participant.
#[derive(Debug, Clone, PartialEq, Eq)]
pub struct GroupCallDevice {
    /// Device address.
    pub jid: Jid,
    /// Announced platform, if any.
    pub platform: Option<String>,
    /// Relay participant id, if any.
    pub pid: Option<u32>,
    /// Capability version, if any.
    pub capability_version: Option<u32>,
}

/// The values that a [`GroupCallDevice`] carries.
#[verifier::ext_equal]
pub struct GroupCallDeviceView {
    pub jid: JidView,
    pub platform: Option<Seq<char>>,
    pub pid: Option<u32>,
    pub capability_version: Option<u32>,
}

impl View for GroupCallDevice {
    type V = GroupCallDeviceView;

    open spec fn view(&self) -> GroupCallDeviceView {
        GroupCallDeviceView {
            jid: self.jid@,
            platform: opt_view(self.platform),
            pid: self.pid,
            capability_version: self.capability_version,
        }
    }
}

/// One group-call participant.
#[derive(Debug, Clone, PartialEq, Eq)]
pub struct GroupCallParticipant {
    /// Participant address.
    pub jid: Jid,
    /// Phone-number alias, if any.
    pub pn: Option<Jid>,
    /// Presence state, if any.
    pub state: Option<String>,
    /// Participant type, if any.
    pub participant_type: Option<String>,
    /// Their devices.
    pub devices: Vec<GroupCallDevice>,
}

/// The values that a [`GroupCallParticipant`] carries.
#[verifier::ext_equal]
pub struct GroupCallParticipantView {
    pub jid: JidView,
    pub pn: Option<JidView>,
    pub state: Option<Seq<char>>,
    pub participant_type: Option<Seq<char>>,
    pub devices: Seq<GroupCallDeviceView>,
}

impl View for GroupCallParticipant {
    type V = GroupCallParticipantView;

    open spec fn view(&self) -> GroupCallParticipantView {
        GroupCallParticipantView {
            jid: self.jid@,
            pn: opt_view(self.pn),
            state: opt_view(self.state),
            participant_type: opt_view(self.participant_type),
            devices: views(self.devices@),
        }
    }
}

/// One address advertised by the shared group relay.
#[derive(Debug, Clone, PartialEq, Eq)]
pub struct GroupCallRelayEndpoint {
    /// Relay id.
    pub relay_id: u32,
    /// Token id.
    pub token_id: u32,
    /// Auth token id.
    pub auth_token_id: u32,
    /// Relay name.
    pub relay_name: String,
    /// Domain name, if any.
    pub domain_name: Option<String>,
    /// Measured RTT, if any.
    pub rtt_ms: Option<u32>,
    /// Whether this is a first-party relay.
    pub is_fna: bool,
    /// IPv4 text, if any.
    pub ipv4: Option<String>,
    /// Port, if any.
    pub port: Option<u16>,
}

/// The values that a [`GroupCallRelayEndpoint`] carries.
#[verifier::ext_equal]
pub struct GroupCallRelayEndpointView {
    pub relay_id: u32,
    pub token_id: u32,
    pub auth_token_id: u32,
    pub relay_name: Seq<char>,
    pub domain_name: Option<Seq<char>>,
    pub rtt_ms: Option<u32>,
    pub is_fna: bool,
    pub ipv4: Option<Seq<char>>,
    pub port: Option<u16>,
}

impl View for GroupCallRelayEndpoint {
    type V = GroupCallRelayEndpointView;

    open spec fn view(&self) -> GroupCallRelayEndpointView {
        GroupCallRelayEndpointView {
            relay_id: self.relay_id,
            token_id: self.token_id,
            auth_token_id: self.auth_token_id,
            relay_name: self.relay_name@,
            domain_name: opt_view(self.domain_name),
            rtt_ms: self.rtt_ms,
            is_fna: self.is_fna,
            ipv4: opt_view(self.ipv4),
            port: self.port,
        }
    }
}

/// Shared relay allocation in a group snapshot.
#[derive(Debug, Clone, PartialEq, Eq)]
pub struct GroupCallRelay {
    /// Transaction id, if any.
    pub transaction_id: Option<u32>,
    /// Own participant id, if any.
    pub self_pid: Option<u32>,
    /// Relay uuid.
    pub uuid: String,
    /// Participant uuid.
    pub participant_uuid: String,
    /// Attribute padding.
    pub attribute_padding: bool,
    /// WARP integrity tag length, if any.
    pub warp_mi_tag_len: Option<u32>,
    /// Advertised addresses.
    pub endpoints: Vec<GroupCallRelayEndpoint>,
}

/// The values that a [`GroupCallRelay`] carries.
#[verifier::ext_equal]
pub struct GroupCallRelayView {
    pub transaction_id: Option<u32>,
    pub self_pid: Option<u32>,
    pub uuid: Seq<char>,
    pub participant_uuid: Seq<char>,
    pub attribute_padding: bool,
    pub warp_mi_tag_len: Option<u32>,
    pub endpoints: Seq<GroupCallRelayEndpointView>,
}

impl View for GroupCallRelay {
    type V = GroupCallRelayView;

    open spec fn view(&self) -> GroupCallRelayView {
        GroupCallRelayView {
            transaction_id: self.transaction_id,
            self_pid: self.self_pid,
            uuid: self.uuid@,
            participant_uuid: self.participant_uuid@,
            attribute_padding: self.attribute_padding,
            warp_mi_tag_len: self.warp_mi_tag_len,
            endpoints: views(self.endpoints@),
        }
    }
}

/// One transaction-ordered authoritative group-call snapshot.
#[derive(Debug, Clone, PartialEq, Eq)]
pub struct GroupCallUpdate {
    /// Call id.
    pub call_id: String,
    /// Creator address.
    pub call_creator: Jid,
    /// Group address, if any.
    pub group_jid: Option<Jid>,
    /// Transaction id.
    pub transaction_id: u32,
    /// Media description.
    pub media: String,
    /// Roster limit the engine was admitted under.
    pub connected_limit: u32,
    /// Joinable.
    pub joinable: bool,
    /// AV-upgradable.
    pub av_upgradable: bool,
    /// Rekey requested.
    pub rekey_requested: bool,
    /// Authoritative roster.
    pub participants: Vec<GroupCallParticipant>,
    /// Shared relay allocation, if any.
    pub relay: Option<GroupCallRelay>,
}

/// The values that a [`GroupCallUpdate`] carries.
#[verifier::ext_equal]
pub struct GroupCallUpdateView {
    pub call_id: Seq<char>,
    pub call_creator: JidView,
    pub group_jid: Option<JidView>,
    pub transaction_id: u32,
    pub media: Seq<char>,
    pub connected_limit: u32,
    pub joinable: bool,
    pub av_upgradable: bool,
    pub rekey_requested: bool,
    pub participants: Seq<GroupCallParticipantView>,
    pub relay: Option<GroupCallRelayView>,
}

impl View for GroupCallUpdate {
    type V = GroupCallUpdateView;

    open spec fn view(&self) -> GroupCallUpdateView {
        GroupCallUpdateView {
            call_id: self.call_id@,
            call_creator: self.call_creator@,
            group_jid: opt_view(self.group_jid),
            transaction_id: self.transaction_id,
            media: self.media@,
            connected_limit: self.connected_limit,
            joinable: self.joinable,
            av_upgradable: self.av_upgradable,
            rekey_requested: self.rekey_requested,
            participants: views(self.participants@),
            relay: opt_view(self.relay),
        }
    }
}

/// The direct peer inside a group open.
#[derive(Clone, PartialEq, Eq)]
pub struct MediaDirectPeer {
    /// User address.
    pub user_jid: Jid,
    /// Device address.
    pub device_jid: Jid,
    /// Direct-call key.
    pub call_key: Vec<u8>,
}

/// The values that a [`MediaDirectPeer`] carries.
#[verifier::ext_equal]
pub struct MediaDirectPeerView {
    pub user_jid: JidView,
    pub device_jid: JidView,
    pub call_key: Seq<u8>,
}

impl View for MediaDirectPeer {
    type V = MediaDirectPeerView;

    open spec fn view(&self) -> MediaDirectPeerView {
        MediaDirectPeerView {
            user_jid: self.user_jid@,
            device_jid: self.device_jid@,
            call_key: self.call_key@,
        }
    }
}

/// Group half of a media session.
#[derive(Clone, PartialEq, Eq)]
pub struct MediaGroupSpec {
    /// Creator address.
    pub call_creator: Jid,
    /// Own address.
    pub self_jid: Jid,
    /// The roster snapshot the open starts from.
    pub initial_update: GroupCallUpdate,
    /// Direct peer, if any.
    pub direct_peer: Option<MediaDirectPeer>,
}

/// The values that a [`MediaGroupSpec`] carries.
#[verifier::ext_equal]
pub struct MediaGroupSpecView {
    pub call_creator: JidView,
    pub self_jid: JidView,
    pub initial_update: GroupCallUpdateView,
    pub direct_peer: Option<MediaDirectPeerView>,
}

impl View for MediaGroupSpec {
    type V = MediaGroupSpecView;

    open spec fn view(&self) -> MediaGroupSpecView {
        MediaGroupSpecView {
            call_creator: self.call_creator@,
            self_jid: self.self_jid@,
            initial_update: self.initial_update@,
            direct_peer: opt_view(self.direct_peer),
        }
    }
}

/// Which call a media session belongs to.
#[derive(Debug, Clone, PartialEq, Eq)]
pub struct MediaSessionKey {
    /// Call id.
    pub call_id: String,
    /// Session generation.
    pub generation: u64,
}

/// The values that a [`MediaSessionKey`] carries.
#[verifier::ext_equal]
pub struct MediaSessionKeyView {
    pub call_id: Seq<char>,
    pub generation: u64,
}

impl View for MediaSessionKey {
    type V = MediaSessionKeyView;

    open spec fn view(&self) -> MediaSessionKeyView {
        MediaSessionKeyView {
            call_id: self.call_id@,
            generation: self.generation,
        }
    }
}

/// Everything the engine builds one media session from.
#[derive(Clone, PartialEq, Eq)]
pub struct MediaSessionSpec {
    /// Which call.
    pub key: MediaSessionKey,
    /// Which way the call flows.
    pub direction: CallDirection,
    /// This side's LID.
    pub self_lid: String,
    /// The peer's LID.
    pub peer_lid: String,
    /// Call key.
    pub call_key: Vec<u8>,
    /// RTP SSRC.
    pub ssrc: u32,
    /// Audio half.
    pub audio: MediaAudioSpec,
    /// STUN relay token.
    pub relay_token: Vec<u8>,
    /// Auth token.
    pub auth_token: Vec<u8>,
    /// Relay host, as text.
    pub relay_ip: String,
    /// Relay port.
    pub relay_port: u16,
    /// Relay integrity key.
    pub integrity_key: Vec<u8>,
    /// WARP integrity tag length.
    pub warp_mi_tag_len: u32,
    /// Bring up the audio path.
    pub enable_media: bool,
    /// Bring up the video plane.
    pub enable_video: bool,
    /// Negotiate SFrame.
    pub enable_sframe: bool,
    /// Group half, for a group call.
    pub group: Option<MediaGroupSpec>,
}

/// The values that a [`MediaSessionSpec`] carries.
#[verifier::ext_equal]
pub struct MediaSessionSpecView {
    pub key: MediaSessionKeyView,
    pub direction: CallDirection,
    pub self_lid: Seq<char>,
    pub peer_lid: Seq<char>,
    pub call_key: Seq<u8>,
    pub ssrc: u32,
    pub audio: MediaAudioSpec,
    pub relay_token: Seq<u8>,
    pub auth_token: Seq<u8>,
    pub relay_ip: Seq<char>,
    pub relay_port: u16,
    pub integrity_key: Seq<u8>,
    pub warp_mi_tag_len: u32,
    pub enable_media: bool,
    pub enable_video: bool,
    pub enable_sframe: bool,
    pub group: Option<MediaGroupSpecView>,
}

impl View for MediaSessionSpec {
    type V = MediaSessionSpecView;

    open spec fn view(&self) -> MediaSessionSpecView {
        MediaSessionSpecView {
            key: self.key@,
            direction: self.direction,
            self_lid: self.self_lid@,
            peer_lid: self.peer_lid@,
            call_key: self.call_key@,
            ssrc: self.ssrc,
            audio: self.audio,
            relay_token: self.relay_token@,
            auth_token: self.auth_token@,
            relay_ip: self.relay_ip@,
            relay_port: self.relay_port,
            integrity_key: self.integrity_key@,
            warp_mi_tag_len: self.warp_mi_tag_len,
            enable_media: self.enable_media,
            enable_video: self.enable_video,
            enable_sframe: self.enable_sframe,
            group: opt_view(self.group),
        }
    }
}

/// The model of a pre-authenticated epoch.
pub open spec fn epoch_view(v: Option<(u32, Vec<u8>)>) -> Option<(u32, Seq<u8>)> {
    match v {
        None => None,
        Some((transaction_id, epoch)) => Some((transaction_id, epoch@)),
    }
}

/// The opening context that rides beside the spec.
#[derive(Clone, PartialEq, Eq)]
pub struct OpenCtx {
    /// Start muted.
    pub muted: bool,
    /// A codec the caller selected, if any.
    pub initial_codec: Option<MediaAudioCodec>,
    /// Rotations peers announced before media attached, in order.
    pub peer_orientations: Vec<(Option<String>, u8)>,
    /// The pre-authenticated group epoch, if any.
    pub epoch: Option<(u32, Vec<u8>)>,
}

/// The values that a [`OpenCtx`] carries.
#[verifier::ext_equal]
pub struct OpenCtxView {
    pub muted: bool,
    pub initial_codec: Option<MediaAudioCodec>,
    pub peer_orientations: Seq<(Option<Seq<char>>, u8)>,
    pub epoch: Option<(u32, Seq<u8>)>,
}

impl View for OpenCtx {
    type V = OpenCtxView;

    open spec fn view(&self) -> OpenCtxView {
        OpenCtxView {
            muted: self.muted,
            initial_codec: self.initial_codec,
            peer_orientations: rotations(self.peer_orientations@),
            epoch: epoch_view(self.epoch),
        }
    }
}

/// Why a media session could not be specified.
#[derive(Debug, Clone, PartialEq, Eq)]
pub enum MediaSetupError {
    /// A value that cannot be mapped, named.
    Backend(String),
    /// The relay endpoint is not one.
    BadEndpoint,
}

/// The values that a [`MediaSetupError`] carries.
#[verifier::ext_equal]
pub enum MediaSetupErrorView {
    Backend(Seq<char>),
    BadEndpoint,
}

impl View for MediaSetupError {
    type V = MediaSetupErrorView;

    open spec fn view(&self) -> MediaSetupErrorView {
        match *self {
            MediaSetupError::Backend(x) => MediaSetupErrorView::Backend(x@),
            MediaSetupError::BadEndpoint => MediaSetupErrorView::BadEndpoint,
        }
    }
}

/// Why an open never became a call.
#[derive(Debug, Clone, PartialEq, Eq)]
pub enum OpenError {
    /// The params do not make a session.
    Spec(MediaSetupError),
    /// The session names no relay endpoint.
    Endpoint,
    /// The engine refused, with why.
    Engine(String),
    /// The relay could not be dialled, with why.
    Relay(String),
}

/// The values that a [`OpenError`] carries.
#[verifier::ext_equal]
pub enum OpenErrorView {
    Spec(MediaSetupErrorView),
    Endpoint,
    Engine(Seq<char>),
    Relay(Seq<char>),
}

impl View for OpenError {
    type V = OpenErrorView;

    open spec fn view(&self) -> OpenErrorView {
        match *self {
            OpenError::Spec(x) => OpenErrorView::Spec(x@),
            OpenError::Endpoint => OpenErrorView::Endpoint,
            OpenError::Engine(x) => OpenErrorView::Engine(x@),
            OpenError::Relay(x) => OpenErrorView::Relay(x@),
        }
    }
}

} // verus!
