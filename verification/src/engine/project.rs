//! Projections of the engine's records into the wire's vocabulary.
//!
//! Nothing is invented on the way: a choice the wire cannot spell falls back
//! to the one it is documented to fall back to, and an event it has no word
//! for is dropped.

use vstd::prelude::*;

use crate::engine::neutral::{
    MediaAudioCodec, MediaCloseReason, MediaCloseReasonView, MediaCodecDecisionSource,
    MediaEncodedFrame, MediaEncodedFrameView, MediaEvent, MediaEventView, MediaRtcpFeedback,
    MediaRtcpFeedbackView, MediaRtcpReportBlock, MediaRtcpReportBlockView, MediaSilenceReason,
    MediaStats, VideoFrame, VideoFrameView,
};
use crate::messages::event::{
    AbiEvent, AbiEventView, CodecSource, RtcpBlockDto, RtcpBlockDtoView, RtcpFeedbackDto,
    RtcpFeedbackDtoView, SilenceReason,
};
use crate::messages::fields::{opt_view, views};
use crate::messages::media::{
    EncodedFrameDto, EncodedFrameDtoView, VideoFrameDto, VideoFrameDtoView,
};
use crate::messages::open::{AudioCodecWire, CloseReason};
use crate::messages::stats::StatsData;

verus! {

/// A flag as its wire byte.
pub open spec fn bit(b: bool) -> u8 {
    if b {
        1
    } else {
        0
    }
}

/// The wire's word for a codec.
pub open spec fn codec_wire(codec: MediaAudioCodec) -> AudioCodecWire {
    match codec {
        MediaAudioCodec::Opus => AudioCodecWire::Opus,
        _ => AudioCodecWire::Mlow,
    }
}

/// The wire's word for a decision source.
pub open spec fn source_wire(source: MediaCodecDecisionSource) -> CodecSource {
    match source {
        MediaCodecDecisionSource::Content => CodecSource::Content,
        _ => CodecSource::Negotiated,
    }
}

/// The wire's word for a silence reason.
pub open spec fn silence_wire(reason: MediaSilenceReason) -> SilenceReason {
    match reason {
        MediaSilenceReason::NoDecoderForNegotiatedCodec =>
        SilenceReason::NoDecoderForNegotiatedCodec,
        MediaSilenceReason::AuthenticationFailing => SilenceReason::AuthenticationFailing,
        MediaSilenceReason::UnexpectedPayloadType => SilenceReason::UnexpectedPayloadType,
        MediaSilenceReason::CodecRejectingFrames => SilenceReason::CodecRejectingFrames,
        MediaSilenceReason::CodecFlapping => SilenceReason::CodecFlapping,
        _ => SilenceReason::Unknown,
    }
}

/// The wire's words for a close: the reason, and the detail where the engine
/// gave one.
pub open spec fn close_wire(reason: MediaCloseReasonView) -> (CloseReason, Option<Seq<char>>) {
    match reason {
        MediaCloseReasonView::Local => (CloseReason::LocalHangup, None),
        MediaCloseReasonView::RelayDisconnected => (CloseReason::RelayDropped, None),
        MediaCloseReasonView::SendFailed(detail) => (CloseReason::Failed, Some(detail)),
        MediaCloseReasonView::SetupFailed(detail) => (CloseReason::Failed, Some(detail)),
        MediaCloseReasonView::Unlisted => (CloseReason::Failed, None),
    }
}

/// An encoded frame as it crosses.
pub open spec fn encoded_frame_wire(frame: MediaEncodedFrameView) -> EncodedFrameDtoView {
    EncodedFrameDtoView {
        codec: codec_wire(frame.codec),
        data: frame.data,
        payload_type: frame.payload_type,
        sequence_number: frame.sequence_number as u32,
        timestamp: frame.timestamp,
        marker: bit(frame.marker),
        sender: frame.sender,
        device: frame.device,
    }
}

/// A video frame as it crosses.
pub open spec fn video_frame_wire(frame: VideoFrameView) -> VideoFrameDtoView {
    VideoFrameDtoView {
        data: frame.data,
        keyframe: bit(frame.keyframe),
        orientation: frame.orientation,
        sender: frame.sender,
        device: frame.device,
        pid: frame.pid,
    }
}

/// A report block as it crosses.
pub open spec fn block_wire(b: MediaRtcpReportBlockView) -> RtcpBlockDtoView {
    RtcpBlockDtoView {
        ssrc: b.ssrc,
        fraction_lost: b.fraction_lost,
        cumulative_lost: b.cumulative_lost,
        extended_highest_sequence: b.extended_highest_sequence,
        jitter: b.jitter,
        last_sender_report: b.last_sender_report,
        delay_since_last_sender_report: b.delay_since_last_sender_report,
        profile_extension: b.profile_extension,
    }
}

/// A feedback packet as it crosses.
pub open spec fn feedback_wire(f: MediaRtcpFeedbackView) -> RtcpFeedbackDtoView {
    RtcpFeedbackDtoView {
        packet_type: f.packet_type,
        fmt: f.fmt,
        sender_ssrc: f.sender_ssrc,
        media_ssrc: f.media_ssrc,
        fci: f.fci,
    }
}

/// The wire's spelling of an event, where it has one. A close is none: it
/// leaves through the ended path. Nor are the events that signaling raises.
pub open spec fn event_wire(event: MediaEventView) -> Option<AbiEventView> {
    match event {
        MediaEventView::RelayAllocated => Some(AbiEventView::RelayAllocated),
        MediaEventView::ForeignAudio(data) => Some(AbiEventView::ForeignAudio(data)),
        MediaEventView::ForeignGroupAudio(frame) => Some(
            AbiEventView::ForeignGroupAudio(encoded_frame_wire(frame)),
        ),
        MediaEventView::AudioFormatMismatch { expected_rate, received_rates } => Some(
            AbiEventView::AudioFormatMismatch { expected_rate, received_rates },
        ),
        MediaEventView::RelayAllocateFailed(code) => Some(
            AbiEventView::RelayAllocateFailed(code as u32),
        ),
        MediaEventView::RelayAllocateTimedOut => Some(AbiEventView::RelayAllocateTimedOut),
        MediaEventView::MediaSetupFailed(detail) => Some(AbiEventView::MediaSetupFailed(detail)),
        MediaEventView::RelayReconnectTimedOut => Some(AbiEventView::RelayReconnectTimedOut),
        MediaEventView::VideoKeyframeNeeded => Some(AbiEventView::VideoKeyframeNeeded),
        MediaEventView::RtcpReceived {
            packet_types,
            sender_ssrc,
            referenced_ssrcs,
            reports_audio,
            reports_video,
            report_blocks,
            feedback,
        } => Some(
            AbiEventView::RtcpReceived {
                packet_types,
                sender_ssrc,
                referenced_ssrcs,
                reports_audio: bit(reports_audio),
                reports_video: bit(reports_video),
                report_blocks: report_blocks.map_values(
                    |b: MediaRtcpReportBlockView| block_wire(b),
                ),
                feedback: feedback.map_values(|f: MediaRtcpFeedbackView| feedback_wire(f)),
            },
        ),
        MediaEventView::OutboundMediaDropped { video_access_units, packets } => Some(
            AbiEventView::OutboundMediaDropped { video_access_units, packets },
        ),
        MediaEventView::AudioSilent {
            silent_for_ms,
            rtp_received,
            frames_produced,
            dominant_reason,
        } => Some(
            AbiEventView::AudioSilent {
                silent_for_ms,
                rtp_received,
                frames_produced,
                dominant_reason: silence_wire(dominant_reason),
            },
        ),
        MediaEventView::AudioCodecSwitched { from, to, source, packets_observed } => Some(
            AbiEventView::AudioCodecSwitched {
                from: codec_wire(from),
                to: codec_wire(to),
                source: source_wire(source),
                packets_observed,
            },
        ),
        MediaEventView::AudioCodecSourceIsFixed { sending, peer_expects, source } => Some(
            AbiEventView::AudioCodecSourceIsFixed {
                sending: codec_wire(sending),
                peer_expects: codec_wire(peer_expects),
                source: source_wire(source),
            },
        ),
        MediaEventView::AudioReceptionStalled { silent_for_ms } => Some(
            AbiEventView::AudioReceptionStalled { silent_for_ms },
        ),
        _ => None,
    }
}

/// Counters as they cross: field for field, the switch count widened.
pub open spec fn stats_wire(stats: MediaStats) -> StatsData {
    StatsData {
        rtp_received: stats.rtp_received,
        rtp_payload_type_unexpected: stats.rtp_payload_type_unexpected,
        srtp_unprotect_failed: stats.srtp_unprotect_failed,
        sframe_decrypt_failed: stats.sframe_decrypt_failed,
        audio_frames_decoded: stats.audio_frames_decoded,
        audio_frames_delivered: stats.audio_frames_delivered,
        audio_frames_concealed: stats.audio_frames_concealed,
        mlow_off_point_dropped: stats.mlow_off_point_dropped,
        mlow_inactive_or_sid: stats.mlow_inactive_or_sid,
        foreign_frames_decoded: stats.foreign_frames_decoded,
        audio_frames_without_decoder: stats.audio_frames_without_decoder,
        outbound_frames_without_encoder: stats.outbound_frames_without_encoder,
        playout_trimmed_samples: stats.playout_trimmed_samples,
        inbound_pipe_dropped: stats.inbound_pipe_dropped,
        audio_sink_dropped: stats.audio_sink_dropped,
        video_sink_dropped: stats.video_sink_dropped,
        peer_keyframe_requests: stats.peer_keyframe_requests,
        relay_packet_unclassified: stats.relay_packet_unclassified,
        forwarding_envelope_rejected: stats.forwarding_envelope_rejected,
        codec_switches: stats.codec_switches as u32,
    }
}

fn flag_byte(b: bool) -> (v: u8)
    ensures
        v == bit(b),
{
    if b {
        1
    } else {
        0
    }
}

fn codec_to_wire(codec: MediaAudioCodec) -> (w: AudioCodecWire)
    ensures
        w == codec_wire(codec),
{
    match codec {
        MediaAudioCodec::Opus => AudioCodecWire::Opus,
        _ => AudioCodecWire::Mlow,
    }
}

fn source_to_wire(source: MediaCodecDecisionSource) -> (w: CodecSource)
    ensures
        w == source_wire(source),
{
    match source {
        MediaCodecDecisionSource::Content => CodecSource::Content,
        _ => CodecSource::Negotiated,
    }
}

fn silence_to_wire(reason: MediaSilenceReason) -> (w: SilenceReason)
    ensures
        w == silence_wire(reason),
{
    match reason {
        MediaSilenceReason::NoDecoderForNegotiatedCodec =>
        SilenceReason::NoDecoderForNegotiatedCodec,
        MediaSilenceReason::AuthenticationFailing => SilenceReason::AuthenticationFailing,
        MediaSilenceReason::UnexpectedPayloadType => SilenceReason::UnexpectedPayloadType,
        MediaSilenceReason::CodecRejectingFrames => SilenceReason::CodecRejectingFrames,
        MediaSilenceReason::CodecFlapping => SilenceReason::CodecFlapping,
        _ => SilenceReason::Unknown,
    }
}

/// A copy of some bytes.
pub(crate) fn copy_bytes(v: &Vec<u8>) -> (c: Vec<u8>)
    ensures
        c@ == v@,
{
    let c = v.clone();
    assert(c@ =~= v@);
    c
}

/// A copy of some words.
pub(crate) fn copy_words(v: &Vec<u32>) -> (c: Vec<u32>)
    ensures
        c@ == v@,
{
    let c = v.clone();
    assert(c@ =~= v@);
    c
}

/// A copy of an optional text.
pub(crate) fn copy_text(v: &Option<String>) -> (c: Option<String>)
    ensures
        opt_view(c) == opt_view(*v),
{
    match v {
        None => None,
        Some(s) => Some(s.clone()),
    }
}

/// Projects a close reason and its detail.
pub fn close_reason_to_wire(reason: &MediaCloseReason) -> (out: (CloseReason, Option<String>))
    ensures
        (out.0, opt_view(out.1)) == close_wire(reason@),
        out.0 is LocalHangup <==> reason is Local,
        out.0 is RelayDropped <==> reason is RelayDisconnected,
        out.1 is Some <==> (reason is SendFailed || reason is SetupFailed),
{
    match reason {
        MediaCloseReason::Local => (CloseReason::LocalHangup, None),
        MediaCloseReason::RelayDisconnected => (CloseReason::RelayDropped, None),
        MediaCloseReason::SendFailed(detail) => (CloseReason::Failed, Some(detail.clone())),
        MediaCloseReason::SetupFailed(detail) => (CloseReason::Failed, Some(detail.clone())),
        MediaCloseReason::Unlisted => (CloseReason::Failed, None),
    }
}

/// Projects the engine's counters.
pub fn stats_to_wire(stats: &MediaStats) -> (out: StatsData)
    ensures
        out == stats_wire(*stats),
{
    StatsData {
        rtp_received: stats.rtp_received,
        rtp_payload_type_unexpected: stats.rtp_payload_type_unexpected,
        srtp_unprotect_failed: stats.srtp_unprotect_failed,
        sframe_decrypt_failed: stats.sframe_decrypt_failed,
        audio_frames_decoded: stats.audio_frames_decoded,
        audio_frames_delivered: stats.audio_frames_delivered,
        audio_frames_concealed: stats.audio_frames_concealed,
        mlow_off_point_dropped: stats.mlow_off_point_dropped,
        mlow_inactive_or_sid: stats.mlow_inactive_or_sid,
        foreign_frames_decoded: stats.foreign_frames_decoded,
        audio_frames_without_decoder: stats.audio_frames_without_decoder,
        outbound_frames_without_encoder: stats.outbound_frames_without_encoder,
        playout_trimmed_samples: stats.playout_trimmed_samples,
        inbound_pipe_dropped: stats.inbound_pipe_dropped,
        audio_sink_dropped: stats.audio_sink_dropped,
        video_sink_dropped: stats.video_sink_dropped,
        peer_keyframe_requests: stats.peer_keyframe_requests,
        relay_packet_unclassified: stats.relay_packet_unclassified,
        forwarding_envelope_rejected: stats.forwarding_envelope_rejected,
        codec_switches: stats.codec_switches as u32,
    }
}

/// Projects one encoded frame.
pub fn encoded_frame_to_dto(frame: &MediaEncodedFrame) -> (out: EncodedFrameDto)
    ensures
        out@ == encoded_frame_wire(frame@),
        out.codec is Opus <==> frame.codec is Opus,
        out.data@ == frame.data@,
        out.payload_type == frame.payload_type,
        out.sequence_number as int == frame.sequence_number as int,
        out.timestamp == frame.timestamp,
        out.marker == 1 <==> frame.marker,
        opt_view(out.sender) == opt_view(frame.sender),
        opt_view(out.device) == opt_view(frame.device),
{
    EncodedFrameDto {
        codec: codec_to_wire(frame.codec),
        data: copy_bytes(&frame.data),
        payload_type: frame.payload_type,
        sequence_number: frame.sequence_number as u32,
        timestamp: frame.timestamp,
        marker: flag_byte(frame.marker),
        sender: copy_text(&frame.sender),
        device: copy_text(&frame.device),
    }
}

/// Projects one video frame.
pub fn video_frame_to_dto(frame: &VideoFrame) -> (out: VideoFrameDto)
    ensures
        out@ == video_frame_wire(frame@),
        out.data@ == frame.data@,
        out.keyframe == 1 <==> frame.keyframe,
        out.orientation == frame.orientation,
        opt_view(out.sender) == opt_view(frame.sender),
        opt_view(out.device) == opt_view(frame.device),
        out.pid == frame.pid,
{
    VideoFrameDto {
        data: copy_bytes(&frame.data),
        keyframe: flag_byte(frame.keyframe),
        orientation: frame.orientation,
        sender: copy_text(&frame.sender),
        device: copy_text(&frame.device),
        pid: frame.pid,
    }
}

fn blocks_to_dto(blocks: &Vec<MediaRtcpReportBlock>) -> (out: Vec<RtcpBlockDto>)
    ensures
        views(out@) == views(blocks@).map_values(|b: MediaRtcpReportBlockView| block_wire(b)),
{
    let mut out: Vec<RtcpBlockDto> = Vec::new();
    let mut i: usize = 0;
    while i < blocks.len()
        invariant
            i <= blocks.len(),
            out.len() == i,
            forall|j: int| 0 <= j < i ==> (#[trigger] out@[j])@ == block_wire(blocks@[j]@),
        decreases blocks.len() - i,
    {
        let b = &blocks[i];
        out.push(
            RtcpBlockDto {
                ssrc: b.ssrc,
                fraction_lost: b.fraction_lost,
                cumulative_lost: b.cumulative_lost,
                extended_highest_sequence: b.extended_highest_sequence,
                jitter: b.jitter,
                last_sender_report: b.last_sender_report,
                delay_since_last_sender_report: b.delay_since_last_sender_report,
                profile_extension: copy_bytes(&b.profile_extension),
            },
        );
        i += 1;
    }
    assert(views(out@) =~= views(blocks@).map_values(|b: MediaRtcpReportBlockView| block_wire(b)));
    out
}

fn feedback_to_dto(feedback: &Vec<MediaRtcpFeedback>) -> (out: Vec<RtcpFeedbackDto>)
    ensures
        views(out@) == views(feedback@).map_values(|f: MediaRtcpFeedbackView| feedback_wire(f)),
{
    let mut out: Vec<RtcpFeedbackDto> = Vec::new();
    let mut i: usize = 0;
    while i < feedback.len()
        invariant
            i <= feedback.len(),
            out.len() == i,
            forall|j: int| 0 <= j < i ==> (#[trigger] out@[j])@ == feedback_wire(feedback@[j]@),
        decreases feedback.len() - i,
    {
        let f = &feedback[i];
        out.push(
            RtcpFeedbackDto {
                packet_type: f.packet_type,
                fmt: f.fmt,
                sender_ssrc: f.sender_ssrc,
                media_ssrc: f.media_ssrc,
                fci: copy_bytes(&f.fci),
            },
        );
        i += 1;
    }
    assert(views(out@) =~= views(feedback@).map_values(
        |f: MediaRtcpFeedbackView| feedback_wire(f),
    ));
    out
}

/// Projects one engine event into the wire vocabulary. A close never becomes
/// an event here, and the events that signaling raises have no wire spelling:
/// they are dropped rather than invented.
pub fn event_to_wire(event: &MediaEvent) -> (out: Option<AbiEvent>)
    ensures
        opt_view(out) == event_wire(event@),
        event matches MediaEvent::AudioCodecSwitched { from, to, source, packets_observed } ==> (out
            matches Some(AbiEvent::AudioCodecSwitched { from: f, to: t, source: s, packets_observed: n })
            && (f is Opus <==> from is Opus) && (t is Opus <==> to is Opus) && (s is Content <==>
        source is Content) && n == packets_observed),
        event matches MediaEvent::AudioCodecSourceIsFixed { sending, peer_expects, source } ==> (out
            matches Some(AbiEvent::AudioCodecSourceIsFixed { sending: a, peer_expects: b, source: s })
            && (a is Opus <==> sending is Opus) && (b is Opus <==> peer_expects is Opus) && (s
            is Content <==> source is Content)),
        event matches MediaEvent::AudioSilent { silent_for_ms, rtp_received, frames_produced, .. }
            ==> (out matches Some(
            AbiEvent::AudioSilent { silent_for_ms: a, rtp_received: b, frames_produced: c, .. },
        ) && a == silent_for_ms && b == rtp_received && c == frames_produced),
        event matches MediaEvent::OutboundMediaDropped { video_access_units, packets } ==> (out
            matches Some(AbiEvent::OutboundMediaDropped { video_access_units: a, packets: b }) && a
            == video_access_units && b == packets),
        event matches MediaEvent::AudioReceptionStalled { silent_for_ms } ==> (out matches Some(
            AbiEvent::AudioReceptionStalled { silent_for_ms: a },
        ) && a == silent_for_ms),
        event matches MediaEvent::RtcpReceived {
            packet_types,
            sender_ssrc,
            referenced_ssrcs,
            reports_audio,
            reports_video,
            ..
        } ==> (out matches Some(
            AbiEvent::RtcpReceived {
                packet_types: a,
                sender_ssrc: b,
                referenced_ssrcs: c,
                reports_audio: d,
                reports_video: e,
                ..
            },
        ) && a@ == packet_types@ && b == sender_ssrc && c@ == referenced_ssrcs@ && (d == 1 <==>
        *reports_audio) && (e == 1 <==> *reports_video)),
{
    match event {
        MediaEvent::RelayAllocated => Some(AbiEvent::RelayAllocated),
        MediaEvent::ForeignAudio(data) => Some(AbiEvent::ForeignAudio(copy_bytes(data))),
        MediaEvent::ForeignGroupAudio(frame) => Some(
            AbiEvent::ForeignGroupAudio(encoded_frame_to_dto(frame)),
        ),
        MediaEvent::AudioFormatMismatch { expected_rate, received_rates } => Some(
            AbiEvent::AudioFormatMismatch {
                expected_rate: *expected_rate,
                received_rates: copy_words(received_rates),
            },
        ),
        MediaEvent::RelayAllocateFailed(code) => Some(AbiEvent::RelayAllocateFailed(*code as u32)),
        MediaEvent::RelayAllocateTimedOut => Some(AbiEvent::RelayAllocateTimedOut),
        MediaEvent::MediaSetupFailed(detail) => Some(AbiEvent::MediaSetupFailed(detail.clone())),
        MediaEvent::RelayReconnectTimedOut => Some(AbiEvent::RelayReconnectTimedOut),
        MediaEvent::VideoKeyframeNeeded => Some(AbiEvent::VideoKeyframeNeeded),
        MediaEvent::RtcpReceived {
            packet_types,
            sender_ssrc,
            referenced_ssrcs,
            reports_audio,
            reports_video,
            report_blocks,
            feedback,
        } => Some(
            AbiEvent::RtcpReceived {
                packet_types: copy_bytes(packet_types),
                sender_ssrc: *sender_ssrc,
                referenced_ssrcs: copy_words(referenced_ssrcs),
                reports_audio: flag_byte(*reports_audio),
                reports_video: flag_byte(*reports_video),
                report_blocks: blocks_to_dto(report_blocks),
                feedback: feedback_to_dto(feedback),
            },
        ),
        MediaEvent::OutboundMediaDropped { video_access_units, packets } => Some(
            AbiEvent::OutboundMediaDropped {
                video_access_units: *video_access_units,
                packets: *packets,
            },
        ),
        MediaEvent::AudioSilent {
            silent_for_ms,
            rtp_received,
            frames_produced,
            dominant_reason,
        } => Some(
            AbiEvent::AudioSilent {
                silent_for_ms: *silent_for_ms,
                rtp_received: *rtp_received,
                frames_produced: *frames_produced,
                dominant_reason: silence_to_wire(*dominant_reason),
            },
        ),
        MediaEvent::AudioCodecSwitched { from, to, source, packets_observed } => Some(
            AbiEvent::AudioCodecSwitched {
                from: codec_to_wire(*from),
                to: codec_to_wire(*to),
                source: source_to_wire(*source),
                packets_observed: *packets_observed,
            },
        ),
        MediaEvent::AudioCodecSourceIsFixed { sending, peer_expects, source } => Some(
            AbiEvent::AudioCodecSourceIsFixed {
                sending: codec_to_wire(*sending),
                peer_expects: codec_to_wire(*peer_expects),
                source: source_to_wire(*source),
            },
        ),
        MediaEvent::AudioReceptionStalled { silent_for_ms } => Some(
            AbiEvent::AudioReceptionStalled { silent_for_ms: *silent_for_ms },
        ),
        _ => None,
    }
}

/// A close and a projected event never name the same event: what ends the
/// call leaves through the ended path alone.
pub proof fn a_close_is_not_an_event(reason: MediaCloseReasonView)
    ensures
        event_wire(MediaEventView::Closed(reason)) is None,
{
}

} // verus!
