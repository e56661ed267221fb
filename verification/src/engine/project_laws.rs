//! What the wire says of the engine's records: the same thing in each field.

use vstd::prelude::*;

use crate::engine::neutral::{
    MediaAudioCodec, MediaCloseReasonView, MediaCodecDecisionSource, MediaEncodedFrameView,
    MediaEventView, MediaRtcpFeedbackView, MediaRtcpReportBlockView, MediaSilenceReason,
    MediaStats, VideoFrameView,
};
use crate::engine::project::{
    bit, block_wire, close_wire, codec_wire, encoded_frame_wire, event_wire, feedback_wire,
    silence_wire, source_wire, stats_wire, video_frame_wire,
};
use crate::messages::event::{AbiEventView, CodecSource, SilenceReason};
use crate::messages::open::{AudioCodecWire, CloseReason};

verus! {

/// Opus is called Opus, and nothing else is; MLOW is called MLOW.
pub proof fn a_codec_has_its_own_word(codec: MediaAudioCodec)
    ensures
        codec_wire(codec) == AudioCodecWire::Opus <==> codec == MediaAudioCodec::Opus,
        codec == MediaAudioCodec::Mlow ==> codec_wire(codec) == AudioCodecWire::Mlow,
        codec == MediaAudioCodec::Unlisted ==> codec_wire(codec) == AudioCodecWire::Mlow,
{
}

/// A decision from the packets' content is called that, and nothing else is.
pub proof fn a_source_has_its_own_word(source: MediaCodecDecisionSource)
    ensures
        source_wire(source) == CodecSource::Content <==> source
            == MediaCodecDecisionSource::Content,
        source_wire(source) == CodecSource::Negotiated <==> source
            != MediaCodecDecisionSource::Content,
{
}

/// Every reason for silence that the wire knows has its own word; any other is
/// unknown.
pub proof fn a_silence_has_its_own_word(reason: MediaSilenceReason)
    ensures
        silence_wire(reason) == SilenceReason::NoDecoderForNegotiatedCodec <==> reason
            == MediaSilenceReason::NoDecoderForNegotiatedCodec,
        silence_wire(reason) == SilenceReason::AuthenticationFailing <==> reason
            == MediaSilenceReason::AuthenticationFailing,
        silence_wire(reason) == SilenceReason::UnexpectedPayloadType <==> reason
            == MediaSilenceReason::UnexpectedPayloadType,
        silence_wire(reason) == SilenceReason::CodecRejectingFrames <==> reason
            == MediaSilenceReason::CodecRejectingFrames,
        silence_wire(reason) == SilenceReason::CodecFlapping <==> reason
            == MediaSilenceReason::CodecFlapping,
        silence_wire(reason) == SilenceReason::Unknown <==> (reason == MediaSilenceReason::Unknown
            || reason == MediaSilenceReason::Unlisted),
{
}

/// A reported switch names the codec that was left before the one that was
/// taken up: from Opus is from Opus, to Opus is to Opus, whatever the other
/// is.
pub proof fn a_switch_goes_from_the_old_codec_to_the_new(
    from: MediaAudioCodec,
    to: MediaAudioCodec,
    source: MediaCodecDecisionSource,
    packets_observed: u32,
)
    ensures
        event_wire(
            MediaEventView::AudioCodecSwitched { from, to, source, packets_observed },
        ) matches Some(AbiEventView::AudioCodecSwitched { from: f, to: t, source: s, packets_observed: n }) && (
        f == AudioCodecWire::Opus <==> from == MediaAudioCodec::Opus) && (t == AudioCodecWire::Opus
            <==> to == MediaAudioCodec::Opus) && (s == CodecSource::Content <==> source
            == MediaCodecDecisionSource::Content) && n == packets_observed,
{
}

/// From MLOW to Opus and from Opus to MLOW are reported as what they are.
pub proof fn a_switch_is_not_its_reverse(source: MediaCodecDecisionSource, packets_observed: u32)
    ensures
        event_wire(
            MediaEventView::AudioCodecSwitched {
                from: MediaAudioCodec::Mlow,
                to: MediaAudioCodec::Opus,
                source,
                packets_observed,
            },
        ) matches Some(AbiEventView::AudioCodecSwitched { from, to, .. }) && from
            == AudioCodecWire::Mlow && to == AudioCodecWire::Opus,
        event_wire(
            MediaEventView::AudioCodecSwitched {
                from: MediaAudioCodec::Opus,
                to: MediaAudioCodec::Mlow,
                source,
                packets_observed,
            },
        ) matches Some(AbiEventView::AudioCodecSwitched { from, to, .. }) && from
            == AudioCodecWire::Opus && to == AudioCodecWire::Mlow,
{
}

/// A source that is fixed is reported with what is sent and what the peer
/// expects, each in its own field.
pub proof fn a_fixed_source_says_what_is_sent(
    sending: MediaAudioCodec,
    peer_expects: MediaAudioCodec,
    source: MediaCodecDecisionSource,
)
    ensures
        event_wire(
            MediaEventView::AudioCodecSourceIsFixed { sending, peer_expects, source },
        ) matches Some(AbiEventView::AudioCodecSourceIsFixed { sending: a, peer_expects: b, source: s }) && (
        a == AudioCodecWire::Opus <==> sending == MediaAudioCodec::Opus) && (b
            == AudioCodecWire::Opus <==> peer_expects == MediaAudioCodec::Opus) && (s
            == CodecSource::Content <==> source == MediaCodecDecisionSource::Content),
{
}

/// A silence is reported with how long it lasted, what came in, what came out
/// and why.
pub proof fn a_silence_keeps_its_numbers(
    silent_for_ms: u64,
    rtp_received: u32,
    frames_produced: u32,
    dominant_reason: MediaSilenceReason,
)
    ensures
        event_wire(
            MediaEventView::AudioSilent {
                silent_for_ms,
                rtp_received,
                frames_produced,
                dominant_reason,
            },
        ) matches Some(AbiEventView::AudioSilent { silent_for_ms: a, rtp_received: b, frames_produced: c, dominant_reason: d })
            && a == silent_for_ms && b == rtp_received && c == frames_produced && (d
            == SilenceReason::AuthenticationFailing <==> dominant_reason
            == MediaSilenceReason::AuthenticationFailing) && (d == SilenceReason::CodecFlapping <==>
        dominant_reason == MediaSilenceReason::CodecFlapping) && (d
            == SilenceReason::NoDecoderForNegotiatedCodec <==> dominant_reason
            == MediaSilenceReason::NoDecoderForNegotiatedCodec) && (d
            == SilenceReason::UnexpectedPayloadType <==> dominant_reason
            == MediaSilenceReason::UnexpectedPayloadType) && (d
            == SilenceReason::CodecRejectingFrames <==> dominant_reason
            == MediaSilenceReason::CodecRejectingFrames),
{
}

/// A stall, a loss and a mismatch are reported with their own numbers.
pub proof fn a_count_stays_in_its_field(
    silent_for_ms: u64,
    video_access_units: u32,
    packets: u32,
    expected_rate: u32,
    received_rates: Seq<u32>,
    code: u16,
)
    ensures
        event_wire(MediaEventView::AudioReceptionStalled { silent_for_ms }) matches Some(
            AbiEventView::AudioReceptionStalled { silent_for_ms: a },
        ) && a == silent_for_ms,
        event_wire(MediaEventView::OutboundMediaDropped { video_access_units, packets }) matches Some(
            AbiEventView::OutboundMediaDropped { video_access_units: a, packets: b },
        ) && a == video_access_units && b == packets,
        event_wire(MediaEventView::AudioFormatMismatch { expected_rate, received_rates }) matches Some(
            AbiEventView::AudioFormatMismatch { expected_rate: a, received_rates: b },
        ) && a == expected_rate && b == received_rates,
        event_wire(MediaEventView::RelayAllocateFailed(code)) matches Some(
            AbiEventView::RelayAllocateFailed(a),
        ) && a as int == code as int,
{
}

/// What is reported without numbers keeps its kind, and its bytes or text.
pub proof fn an_event_keeps_its_kind(event: MediaEventView)
    ensures
        event is RelayAllocated <==> event_wire(event) == Some(AbiEventView::RelayAllocated),
        event is RelayAllocateTimedOut <==> event_wire(event) == Some(
            AbiEventView::RelayAllocateTimedOut,
        ),
        event is RelayReconnectTimedOut <==> event_wire(event) == Some(
            AbiEventView::RelayReconnectTimedOut,
        ),
        event is VideoKeyframeNeeded <==> event_wire(event) == Some(
            AbiEventView::VideoKeyframeNeeded,
        ),
        event matches MediaEventView::ForeignAudio(data) ==> event_wire(event) == Some(
            AbiEventView::ForeignAudio(data),
        ),
        event matches MediaEventView::MediaSetupFailed(detail) ==> event_wire(event) == Some(
            AbiEventView::MediaSetupFailed(detail),
        ),
        event_wire(event) matches Some(AbiEventView::ForeignAudio(_)) ==> event is ForeignAudio,
        event_wire(event) matches Some(AbiEventView::MediaSetupFailed(_)) ==> event
            is MediaSetupFailed,
        event_wire(event) is None <==> (event is Closed || event is VideoStateChanged || event
            is PeerVideoStateChanged || event is GroupUpdated || event is WaitingRoomUpdated
            || event is WaitingRoomHeartbeatFailed || event is GroupControlRejected || event
            is GroupRekeyFailed || event is HandRaised || event is ScreenShareChanged || event
            is Reaction || event is Unlisted),
{
}

/// A report of received control packets keeps who sent it, what it covers, and
/// each of its blocks and feedback packets, in order.
pub proof fn a_control_report_is_kept(
    event: MediaEventView,
    packet_types: Seq<u8>,
    sender_ssrc: u32,
    referenced_ssrcs: Seq<u32>,
    reports_audio: bool,
    reports_video: bool,
    report_blocks: Seq<MediaRtcpReportBlockView>,
    feedback: Seq<MediaRtcpFeedbackView>,
)
    requires
        event == (MediaEventView::RtcpReceived {
            packet_types,
            sender_ssrc,
            referenced_ssrcs,
            reports_audio,
            reports_video,
            report_blocks,
            feedback,
        }),
    ensures
        ({
            &&& event_wire(event) matches Some(
                AbiEventView::RtcpReceived {
                    packet_types: types,
                    sender_ssrc: sender,
                    referenced_ssrcs: referenced,
                    reports_audio: audio,
                    reports_video: video,
                    report_blocks: blocks,
                    feedback: packets,
                },
            )
            &&& types == packet_types
            &&& sender == sender_ssrc
            &&& referenced == referenced_ssrcs
            &&& audio == 1 <==> reports_audio
            &&& video == 1 <==> reports_video
            &&& audio <= 1 && video <= 1
            &&& blocks.len() == report_blocks.len()
            &&& forall|i: int|
                0 <= i < blocks.len() ==> #[trigger] blocks[i] == block_wire(report_blocks[i])
            &&& packets.len() == feedback.len()
            &&& forall|i: int|
                0 <= i < packets.len() ==> #[trigger] packets[i] == feedback_wire(feedback[i])
        }),
{
}

/// A report block keeps each number in its field.
pub proof fn a_report_block_is_kept(b: MediaRtcpReportBlockView)
    ensures
        block_wire(b).ssrc == b.ssrc,
        block_wire(b).fraction_lost == b.fraction_lost,
        block_wire(b).cumulative_lost == b.cumulative_lost,
        block_wire(b).extended_highest_sequence == b.extended_highest_sequence,
        block_wire(b).jitter == b.jitter,
        block_wire(b).last_sender_report == b.last_sender_report,
        block_wire(b).delay_since_last_sender_report == b.delay_since_last_sender_report,
        block_wire(b).profile_extension == b.profile_extension,
{
}

/// A feedback packet keeps who sent it apart from whom it is about.
pub proof fn a_feedback_packet_is_kept(f: MediaRtcpFeedbackView)
    ensures
        feedback_wire(f).packet_type == f.packet_type,
        feedback_wire(f).fmt == f.fmt,
        feedback_wire(f).sender_ssrc == f.sender_ssrc,
        feedback_wire(f).media_ssrc == f.media_ssrc,
        feedback_wire(f).fci == f.fci,
{
}

/// An encoded frame keeps its bytes, its place in the stream, and its sender
/// apart from the sender's device; so does one of a group, as an event.
pub proof fn an_encoded_frame_is_kept(frame: MediaEncodedFrameView)
    ensures
        ({
            let sent = encoded_frame_wire(frame);
            &&& sent.codec == AudioCodecWire::Opus <==> frame.codec == MediaAudioCodec::Opus
            &&& sent.data == frame.data
            &&& sent.payload_type == frame.payload_type
            &&& sent.sequence_number as int == frame.sequence_number as int
            &&& sent.timestamp == frame.timestamp
            &&& sent.marker == 1 <==> frame.marker
            &&& sent.marker == 0 <==> !frame.marker
            &&& sent.sender == frame.sender
            &&& sent.device == frame.device
        }),
        event_wire(MediaEventView::ForeignGroupAudio(frame)) == Some(
            AbiEventView::ForeignGroupAudio(encoded_frame_wire(frame)),
        ),
{
}

/// A video frame keeps its bytes, its rotation, and its sender apart from the
/// sender's device.
pub proof fn a_video_frame_is_kept(frame: VideoFrameView)
    ensures
        ({
            let sent = video_frame_wire(frame);
            &&& sent.data == frame.data
            &&& sent.keyframe == 1 <==> frame.keyframe
            &&& sent.keyframe == 0 <==> !frame.keyframe
            &&& sent.orientation == frame.orientation
            &&& sent.sender == frame.sender
            &&& sent.device == frame.device
            &&& sent.pid == frame.pid
        }),
{
}

/// A hangup on this side, a relay that dropped and a failure are told apart,
/// and what is said of a failure is passed on.
pub proof fn a_close_says_who_ended_it(reason: MediaCloseReasonView)
    ensures
        close_wire(reason).0 == CloseReason::LocalHangup <==> reason is Local,
        close_wire(reason).0 == CloseReason::RelayDropped <==> reason is RelayDisconnected,
        close_wire(reason).0 == CloseReason::Failed <==> (reason is SendFailed || reason
            is SetupFailed || reason is Unlisted),
        match reason {
            MediaCloseReasonView::SendFailed(detail) => close_wire(reason).1 == Some(detail),
            MediaCloseReasonView::SetupFailed(detail) => close_wire(reason).1 == Some(detail),
            _ => close_wire(reason).1 is None,
        },
{
}

/// Every counter crosses as itself.
pub proof fn a_counter_crosses_as_itself(stats: MediaStats)
    ensures
        ({
            let sent = stats_wire(stats);
            &&& sent.rtp_received == stats.rtp_received
            &&& sent.rtp_payload_type_unexpected == stats.rtp_payload_type_unexpected
            &&& sent.srtp_unprotect_failed == stats.srtp_unprotect_failed
            &&& sent.sframe_decrypt_failed == stats.sframe_decrypt_failed
            &&& sent.audio_frames_decoded == stats.audio_frames_decoded
            &&& sent.audio_frames_delivered == stats.audio_frames_delivered
            &&& sent.audio_frames_concealed == stats.audio_frames_concealed
            &&& sent.mlow_off_point_dropped == stats.mlow_off_point_dropped
            &&& sent.mlow_inactive_or_sid == stats.mlow_inactive_or_sid
            &&& sent.foreign_frames_decoded == stats.foreign_frames_decoded
            &&& sent.audio_frames_without_decoder == stats.audio_frames_without_decoder
            &&& sent.outbound_frames_without_encoder == stats.outbound_frames_without_encoder
            &&& sent.playout_trimmed_samples == stats.playout_trimmed_samples
            &&& sent.inbound_pipe_dropped == stats.inbound_pipe_dropped
            &&& sent.audio_sink_dropped == stats.audio_sink_dropped
            &&& sent.video_sink_dropped == stats.video_sink_dropped
            &&& sent.peer_keyframe_requests == stats.peer_keyframe_requests
            &&& sent.relay_packet_unclassified == stats.relay_packet_unclassified
            &&& sent.forwarding_envelope_rejected == stats.forwarding_envelope_rejected
            &&& sent.codec_switches as int == stats.codec_switches as int
        }),
{
}

/// A flag is one where it is set and zero where it is not.
pub proof fn a_flag_is_one_or_zero(b: bool)
    ensures
        bit(b) <= 1,
        bit(b) == 1 <==> b,
{
}

} // verus!
