//! Where each field of a message lies on the wire, and which byte each name
//! is.

use vstd::prelude::*;

use crate::messages::command::{
    CommandRequest, CommandRequestView, MediaCommand, MediaCommandView, Urgency,
};
use crate::messages::error::{ErrorBody, ErrorBodyView};
use crate::messages::event::{
    AbiEvent, AbiEventView, CodecSource, EventNotification, EventNotificationView, RtcpBlockDto,
    RtcpBlockDtoView, RtcpFeedbackDto, RtcpFeedbackDtoView, SilenceReason,
};
use crate::messages::fields::{opt_view, rotations, views};
use crate::messages::group::{
    GroupCallUpdateDto, GroupCallUpdateDtoView, GroupDeviceDto, GroupDeviceDtoView,
    GroupFitsRequest, GroupFitsRequestView, GroupFitsResponse, GroupParticipantDto,
    GroupParticipantDtoView, GroupRelayDto, GroupRelayDtoView, GroupRelayEndpointDto,
    GroupRelayEndpointDtoView,
};
use crate::messages::handshake::{HelloRequest, HelloResponse};
use crate::messages::media::{
    EncodedAudioOut, EncodedAudioOutView, EncodedFrameDto, EncodedFrameDtoView, MediaFrame,
    MediaFrameView, VideoFrameDto, VideoFrameDtoView, VideoIn, VideoInView, VideoInputDto,
    VideoInputDtoView, VideoOut, VideoOutView,
};
use crate::messages::open::{
    AudioCodecWire, AudioFormatDto, AudioIo, BeginOpenRequest, BeginOpenRequestView,
    CancelOpenRequest, CancelOpenResponse, CancelOutcome, CloseReason, CloseRequest,
    CloseRequestView, DirectPeerDto, DirectPeerDtoView, Direction, GroupOpenSpec,
    GroupOpenSpecView, OpenNotification, OpenParams, OpenParamsView, ReserveRequest,
    ReserveRequestView, RtpProfile,
};
use crate::messages::stats::{StatsData, StatsPush, StatsRequest};
use crate::protocol::{AbiErrorCode, Opcode, Role};
use crate::wire::{
    bits_of_i32, blob, le_u32, le_u64, list, opt, opt_tag, opt_text, text, Body, Tag,
};

verus! {

/// A command is its number, then what it carries, in this order.
#[verifier::rlimit(40)]
pub proof fn a_command_lies_in_order(m: MediaCommand)
    ensures
        m is VideoEnable ==> m@.body() == seq![3u8],
        m is VideoEnableAwaitingAccept ==> m@.body() == seq![4u8],
        m is VideoDisable ==> m@.body() == seq![5u8],
        m is VideoDisableKeepLegacy ==> m@.body() == seq![7u8],
        m is VideoDisableOutbound ==> m@.body() == seq![6u8],
        m is VideoRequireKeyframe ==> m@.body() == seq![13u8],
        m matches MediaCommand::VideoRequestPeerKeyframe(urgency)
            ==> m@.body() == seq![11u8]
            + seq![urgency.tag()],
        m matches MediaCommand::VideoSetOrientation { participant, orientation }
            ==> m@.body() == seq![10u8]
            + opt_text(opt_view(participant))
            + seq![orientation],
        m matches MediaCommand::VideoSetInputGeneration(generation)
            ==> m@.body() == seq![8u8]
            + le_u64(generation),
        m matches MediaCommand::VideoSetTimestampStride(stride)
            ==> m@.body() == seq![9u8]
            + le_u32(stride),
        m matches MediaCommand::RekeyRecv { answering_lid, audio_codec }
            ==> m@.body() == seq![12u8]
            + text(answering_lid@)
            + opt_tag(audio_codec),
        m matches MediaCommand::GroupApplyUpdate(update)
            ==> m@.body() == seq![20u8]
            + blob(update@.body()),
        m matches MediaCommand::GroupApplyTransition { update, transaction_id, epoch }
            ==> m@.body() == seq![21u8]
            + blob(update@.body())
            + le_u32(transaction_id)
            + blob(epoch@),
        m matches MediaCommand::GroupApplyEpoch { transaction_id, epoch }
            ==> m@.body() == seq![22u8]
            + le_u32(transaction_id)
            + blob(epoch@),
        m matches MediaCommand::GroupSendReaction(emoji)
            ==> m@.body() == seq![23u8]
            + text(emoji@),
        m matches MediaCommand::AudioMute(muted)
            ==> m@.body() == seq![30u8]
            + seq![muted],
{
    reveal(MediaCommandView::layout);
}

/// A command request names its session, then carries its command as a block of
/// its own.
pub proof fn a_command_request_lies_in_order(m: CommandRequest)
    ensures
        m@.body() == le_u32(m.session.handle)
            + le_u64(m.session.generation)
            + blob(m.command@.body()),
{
    reveal(CommandRequestView::layout);
}

/// An error is its code, then what may be said of it.
pub proof fn an_error_lies_in_order(m: ErrorBody)
    ensures
        m@.body() == seq![m.code.tag()]
            + opt_text(opt_view(m.detail)),
{
    reveal(ErrorBodyView::layout);
}

/// A report block is whom it is about, then what was lost, how far the stream
/// came, its jitter and its timing.
pub proof fn a_report_block_lies_in_order(m: RtcpBlockDto)
    ensures
        m@.body() == le_u32(m.ssrc)
            + seq![m.fraction_lost]
            + le_u32(bits_of_i32(m.cumulative_lost))
            + le_u32(m.extended_highest_sequence)
            + le_u32(m.jitter)
            + le_u32(m.last_sender_report)
            + le_u32(m.delay_since_last_sender_report)
            + blob(m.profile_extension@),
{
    reveal(RtcpBlockDtoView::layout);
}

/// A feedback packet is its two types, then who sends it before whom it is
/// about, then its content.
pub proof fn a_feedback_packet_lies_in_order(m: RtcpFeedbackDto)
    ensures
        m@.body() == seq![m.packet_type]
            + seq![m.fmt]
            + le_u32(m.sender_ssrc)
            + le_u32(m.media_ssrc)
            + blob(m.fci@),
{
    reveal(RtcpFeedbackDtoView::layout);
}

/// An event is its number, then what it reports, in this order.
#[verifier::rlimit(40)]
pub proof fn an_event_lies_in_order(m: AbiEvent)
    ensures
        m is RelayAllocated ==> m@.body() == seq![1u8],
        m matches AbiEvent::ForeignAudio(data)
            ==> m@.body() == seq![2u8]
            + blob(data@),
        m matches AbiEvent::ForeignGroupAudio(frame)
            ==> m@.body() == seq![3u8]
            + blob(frame@.body()),
        m matches AbiEvent::AudioFormatMismatch { expected_rate, received_rates }
            ==> m@.body() == seq![4u8]
            + le_u32(expected_rate)
            + list(received_rates@),
        m matches AbiEvent::RelayAllocateFailed(code)
            ==> m@.body() == seq![5u8]
            + le_u32(code),
        m is RelayAllocateTimedOut ==> m@.body() == seq![6u8],
        m matches AbiEvent::MediaSetupFailed(detail)
            ==> m@.body() == seq![7u8]
            + text(detail@),
        m is RelayReconnectTimedOut ==> m@.body() == seq![8u8],
        m is VideoKeyframeNeeded ==> m@.body() == seq![9u8],
        m matches AbiEvent::RtcpReceived { packet_types, sender_ssrc, referenced_ssrcs, reports_audio, reports_video, report_blocks, feedback }
            ==> m@.body() == seq![10u8]
            + blob(packet_types@)
            + le_u32(sender_ssrc)
            + list(referenced_ssrcs@)
            + seq![reports_audio]
            + seq![reports_video]
            + list(views(report_blocks@))
            + list(views(feedback@)),
        m matches AbiEvent::OutboundMediaDropped { video_access_units, packets }
            ==> m@.body() == seq![11u8]
            + le_u32(video_access_units)
            + le_u32(packets),
        m matches AbiEvent::AudioSilent { silent_for_ms, rtp_received, frames_produced, dominant_reason }
            ==> m@.body() == seq![12u8]
            + le_u64(silent_for_ms)
            + le_u32(rtp_received)
            + le_u32(frames_produced)
            + seq![dominant_reason.tag()],
        m matches AbiEvent::AudioCodecSwitched { from, to, source, packets_observed }
            ==> m@.body() == seq![13u8]
            + seq![from.tag()]
            + seq![to.tag()]
            + seq![source.tag()]
            + le_u32(packets_observed),
        m matches AbiEvent::AudioCodecSourceIsFixed { sending, peer_expects, source }
            ==> m@.body() == seq![14u8]
            + seq![sending.tag()]
            + seq![peer_expects.tag()]
            + seq![source.tag()],
        m matches AbiEvent::AudioReceptionStalled { silent_for_ms }
            ==> m@.body() == seq![15u8]
            + le_u64(silent_for_ms),
        m matches AbiEvent::Closed(reason)
            ==> m@.body() == seq![16u8]
            + seq![reason.tag()],
{
    reveal(AbiEventView::layout);
}

/// An event notification names its session, then carries its event as a block
/// of its own.
pub proof fn an_event_notification_lies_in_order(m: EventNotification)
    ensures
        m@.body() == le_u32(m.session.handle)
            + le_u64(m.session.generation)
            + blob(m.event@.body()),
{
    reveal(EventNotificationView::layout);
}

/// A device of a group is its address, then what it may say of itself.
pub proof fn a_group_device_lies_in_order(m: GroupDeviceDto)
    ensures
        m@.body() == text(m.jid@)
            + opt_text(opt_view(m.platform))
            + opt(m.pid)
            + opt(m.capability_version),
{
    reveal(GroupDeviceDtoView::layout);
}

/// A participant is their address before their number, then their state, their
/// kind and their devices.
pub proof fn a_group_participant_lies_in_order(m: GroupParticipantDto)
    ensures
        m@.body() == text(m.jid@)
            + opt_text(opt_view(m.pn))
            + opt_text(opt_view(m.state))
            + opt_text(opt_view(m.participant_type))
            + list(views(m.devices@)),
{
    reveal(GroupParticipantDtoView::layout);
}

/// A relay endpoint is its three numbers, its two names, then its timing, its
/// flag, its address and its port.
pub proof fn a_relay_endpoint_lies_in_order(m: GroupRelayEndpointDto)
    ensures
        m@.body() == le_u32(m.relay_id)
            + le_u32(m.token_id)
            + le_u32(m.auth_token_id)
            + text(m.relay_name@)
            + opt_text(opt_view(m.domain_name))
            + opt(m.rtt_ms)
            + seq![m.is_fna]
            + opt_text(opt_view(m.ipv4))
            + opt(m.port),
{
    reveal(GroupRelayEndpointDtoView::layout);
}

/// A shared relay is its transaction, this side of it, its two identities, its
/// flags and its endpoints.
pub proof fn a_group_relay_lies_in_order(m: GroupRelayDto)
    ensures
        m@.body() == opt(m.transaction_id)
            + opt(m.self_pid)
            + text(m.uuid@)
            + text(m.participant_uuid@)
            + seq![m.attribute_padding]
            + opt(m.warp_mi_tag_len)
            + list(views(m.endpoints@)),
{
    reveal(GroupRelayDtoView::layout);
}

/// A snapshot is its call before its creator before its group, then its limits
/// and flags, its roster and its relay.
pub proof fn a_group_snapshot_lies_in_order(m: GroupCallUpdateDto)
    ensures
        m@.body() == text(m.call_id@)
            + text(m.call_creator@)
            + opt_text(opt_view(m.group_jid))
            + le_u32(m.transaction_id)
            + text(m.media@)
            + le_u32(m.connected_limit)
            + seq![m.joinable]
            + seq![m.av_upgradable]
            + seq![m.rekey_requested]
            + list(views(m.participants@))
            + opt(opt_view(m.relay)),
{
    reveal(GroupCallUpdateDtoView::layout);
}

/// An admission probe names its session, then the snapshot, then whether it is
/// a call link.
pub proof fn a_group_probe_lies_in_order(m: GroupFitsRequest)
    ensures
        m@.body() == le_u32(m.session.handle)
            + le_u64(m.session.generation)
            + blob(m.update@.body())
            + seq![m.is_call_link],
{
    reveal(GroupFitsRequestView::layout);
}

/// A verdict on a probe is the answer before the limit.
pub proof fn a_group_verdict_lies_in_order(m: GroupFitsResponse)
    ensures
        m.body() == seq![m.fits]
            + le_u32(m.limit),
{
    reveal(GroupFitsResponse::layout);
}

/// A hello is the role before the capabilities.
pub proof fn a_hello_lies_in_order(m: HelloRequest)
    ensures
        m.body() == seq![m.role.tag()]
            + le_u32(m.capabilities),
{
    reveal(HelloRequest::layout);
}

/// The answer to a hello is the capabilities.
pub proof fn a_hello_answer_lies_in_order(m: HelloResponse)
    ensures
        m.body() == le_u32(m.capabilities),
{
    reveal(HelloResponse::layout);
}

/// A media frame names its session, then its place in the stream, then its
/// bytes.
pub proof fn a_media_frame_lies_in_order(m: MediaFrame)
    ensures
        m@.body() == le_u32(m.session.handle)
            + le_u64(m.session.generation)
            + le_u32(m.seq)
            + blob(m.data@),
{
    reveal(MediaFrameView::layout);
}

/// An encoded frame is its codec, its bytes, its place in the stream, then its
/// sender before the device.
pub proof fn an_encoded_frame_lies_in_order(m: EncodedFrameDto)
    ensures
        m@.body() == seq![m.codec.tag()]
            + blob(m.data@)
            + seq![m.payload_type]
            + le_u32(m.sequence_number)
            + le_u32(m.timestamp)
            + seq![m.marker]
            + opt_text(opt_view(m.sender))
            + opt_text(opt_view(m.device)),
{
    reveal(EncodedFrameDtoView::layout);
}

/// Encoded audio names its session and its place, then carries its frame as a
/// block.
pub proof fn encoded_audio_lies_in_order(m: EncodedAudioOut)
    ensures
        m@.body() == le_u32(m.session.handle)
            + le_u64(m.session.generation)
            + le_u32(m.seq)
            + blob(m.frame@.body()),
{
    reveal(EncodedAudioOutView::layout);
}

/// A video input is its bytes, then its timestamp before its generation.
pub proof fn a_video_input_lies_in_order(m: VideoInputDto)
    ensures
        m@.body() == blob(m.data@)
            + opt(m.timestamp)
            + opt(m.input_generation),
{
    reveal(VideoInputDtoView::layout);
}

/// Video to send names its session and its place, then carries its unit as a
/// block.
pub proof fn video_to_send_lies_in_order(m: VideoIn)
    ensures
        m@.body() == le_u32(m.session.handle)
            + le_u64(m.session.generation)
            + le_u32(m.seq)
            + blob(m.input@.body()),
{
    reveal(VideoInView::layout);
}

/// A video frame is its bytes, whether it is a keyframe, its rotation, then
/// its sender before the device.
pub proof fn a_video_frame_lies_in_order(m: VideoFrameDto)
    ensures
        m@.body() == blob(m.data@)
            + seq![m.keyframe]
            + seq![m.orientation]
            + opt_text(opt_view(m.sender))
            + opt_text(opt_view(m.device))
            + opt(m.pid),
{
    reveal(VideoFrameDtoView::layout);
}

/// Video that came names its session and its place, then carries its frame as
/// a block.
pub proof fn video_that_came_lies_in_order(m: VideoOut)
    ensures
        m@.body() == le_u32(m.session.handle)
            + le_u64(m.session.generation)
            + le_u32(m.seq)
            + blob(m.frame@.body()),
{
    reveal(VideoOutView::layout);
}

/// A reserve request names its session, then the call, then which way it goes.
pub proof fn a_reserve_request_lies_in_order(m: ReserveRequest)
    ensures
        m@.body() == le_u32(m.session.handle)
            + le_u64(m.session.generation)
            + text(m.call_id@)
            + seq![m.direction.tag()],
{
    reveal(ReserveRequestView::layout);
}

/// An audio format is its codec before its profile, then its rates and sizes.
pub proof fn an_audio_format_lies_in_order(m: AudioFormatDto)
    ensures
        m.body() == seq![m.codec.tag()]
            + seq![m.rtp_profile.tag()]
            + le_u32(m.signaling_rate)
            + le_u32(m.sample_rate)
            + seq![m.channels]
            + le_u32(m.samples_per_frame)
            + le_u32(m.rtp_clock_rate)
            + le_u32(m.rtp_timestamp_step)
            + seq![m.rtp_payload_type],
{
    reveal(AudioFormatDto::layout);
}

/// A direct peer is the user before the device, then the key.
pub proof fn a_direct_peer_lies_in_order(m: DirectPeerDto)
    ensures
        m@.body() == text(m.user_jid@)
            + text(m.device_jid@)
            + blob(m.call_key@),
{
    reveal(DirectPeerDtoView::layout);
}

/// A group open is the creator before this side, then the first snapshot, the
/// direct peer and the epoch.
pub proof fn a_group_open_lies_in_order(m: GroupOpenSpec)
    ensures
        m@.body() == text(m.call_creator@)
            + text(m.self_jid@)
            + blob(m.initial_update@.body())
            + opt(opt_view(m.direct_peer))
            + opt(m.epoch_transaction_id)
            + opt(opt_view(m.epoch)),
{
    reveal(GroupOpenSpecView::layout);
}

/// The params of an open name this side before the peer, and each key and
/// token has its own place.
pub proof fn open_params_lie_in_order(m: OpenParams)
    ensures
        m@.body() == seq![m.direction.tag()]
            + text(m.self_lid@)
            + text(m.peer_lid@)
            + le_u32(m.ssrc)
            + seq![m.audio_io.tag()]
            + blob(m.audio_format.body())
            + blob(m.relay_token@)
            + blob(m.auth_token@)
            + blob(m.call_key@)
            + text(m.relay_host@)
            + le_u32(m.relay_port)
            + blob(m.integrity_key@)
            + le_u32(m.warp_mi_tag_len)
            + seq![m.enable_media]
            + seq![m.enable_video]
            + seq![m.enable_sframe]
            + seq![m.muted]
            + seq![m.video]
            + opt_tag(m.initial_codec)
            + list(rotations(m.peer_orientations@))
            + opt(opt_view(m.group)),
{
    reveal(OpenParamsView::layout);
}

/// A request to open names its session, then carries its params as a block of
/// its own.
pub proof fn a_begin_open_request_lies_in_order(m: BeginOpenRequest)
    ensures
        m@.body() == le_u32(m.session.handle)
            + le_u64(m.session.generation)
            + blob(m.params@.body()),
{
    reveal(BeginOpenRequestView::layout);
}

/// A notice that a call is open names its session.
pub proof fn an_open_notification_lies_in_order(m: OpenNotification)
    ensures
        m.body() == le_u32(m.session.handle)
            + le_u64(m.session.generation),
{
    reveal(OpenNotification::layout);
}

/// A request to cancel names its session.
pub proof fn a_cancel_request_lies_in_order(m: CancelOpenRequest)
    ensures
        m.body() == le_u32(m.session.handle)
            + le_u64(m.session.generation),
{
    reveal(CancelOpenRequest::layout);
}

/// The answer to a cancel is what came of it.
pub proof fn a_cancel_answer_lies_in_order(m: CancelOpenResponse)
    ensures
        m.body() == seq![m.outcome.tag()],
{
    reveal(CancelOpenResponse::layout);
}

/// A request to close names its session, then why, then what may be said of
/// it.
pub proof fn a_close_request_lies_in_order(m: CloseRequest)
    ensures
        m@.body() == le_u32(m.session.handle)
            + le_u64(m.session.generation)
            + seq![m.reason.tag()]
            + opt_text(opt_view(m.detail)),
{
    reveal(CloseRequestView::layout);
}

/// Counters lie one after the other, each in its own place.
pub proof fn counters_lie_in_order(m: StatsData)
    ensures
        m.body() == le_u32(m.rtp_received)
            + le_u32(m.rtp_payload_type_unexpected)
            + le_u32(m.srtp_unprotect_failed)
            + le_u32(m.sframe_decrypt_failed)
            + le_u32(m.audio_frames_decoded)
            + le_u32(m.audio_frames_delivered)
            + le_u32(m.audio_frames_concealed)
            + le_u32(m.mlow_off_point_dropped)
            + le_u32(m.mlow_inactive_or_sid)
            + le_u32(m.foreign_frames_decoded)
            + le_u32(m.audio_frames_without_decoder)
            + le_u32(m.outbound_frames_without_encoder)
            + le_u32(m.playout_trimmed_samples)
            + le_u32(m.inbound_pipe_dropped)
            + le_u32(m.audio_sink_dropped)
            + le_u32(m.video_sink_dropped)
            + le_u32(m.peer_keyframe_requests)
            + le_u32(m.relay_packet_unclassified)
            + le_u32(m.forwarding_envelope_rejected)
            + le_u32(m.codec_switches),
{
    reveal(StatsData::layout);
}

/// A request for counters names its session.
pub proof fn a_stats_request_lies_in_order(m: StatsRequest)
    ensures
        m.body() == le_u32(m.session.handle)
            + le_u64(m.session.generation),
{
    reveal(StatsRequest::layout);
}

/// Pushed counters name their session, then carry the counters as a block.
pub proof fn pushed_counters_lie_in_order(m: StatsPush)
    ensures
        m.body() == le_u32(m.session.handle)
            + le_u64(m.session.generation)
            + blob(m.stats.body()),
{
    reveal(StatsPush::layout);
}

/// An opcode has its own byte, and no other byte is one.
pub proof fn opcode_bytes(v: Opcode, b: u8)
    ensures
        v == Opcode::Hello <==> v.tag() == 0x01,
        v == Opcode::Reserve <==> v.tag() == 0x02,
        v == Opcode::BeginOpen <==> v.tag() == 0x03,
        v == Opcode::Open <==> v.tag() == 0x04,
        v == Opcode::CancelOpen <==> v.tag() == 0x05,
        v == Opcode::Command <==> v.tag() == 0x06,
        v == Opcode::GroupFits <==> v.tag() == 0x07,
        v == Opcode::Close <==> v.tag() == 0x08,
        v == Opcode::Event <==> v.tag() == 0x09,
        v == Opcode::Stats <==> v.tag() == 0x0A,
        v == Opcode::MediaEnded <==> v.tag() == 0x0B,
        v == Opcode::PcmIn <==> v.tag() == 0x10,
        v == Opcode::PcmOut <==> v.tag() == 0x11,
        v == Opcode::EncodedAudioIn <==> v.tag() == 0x12,
        v == Opcode::EncodedAudioOut <==> v.tag() == 0x13,
        v == Opcode::VideoIn <==> v.tag() == 0x14,
        v == Opcode::VideoOut <==> v.tag() == 0x15,
        Opcode::of_tag(v.tag()) == Some(v),
        v == Opcode::Hello ==> v.name_spec() == "HELLO",
        v == Opcode::Reserve ==> v.name_spec() == "RESERVE",
        v == Opcode::BeginOpen ==> v.name_spec() == "BEGIN_OPEN",
        v == Opcode::Open ==> v.name_spec() == "OPEN",
        v == Opcode::CancelOpen ==> v.name_spec() == "CANCEL_OPEN",
        v == Opcode::Command ==> v.name_spec() == "COMMAND",
        v == Opcode::GroupFits ==> v.name_spec() == "GROUP_FITS",
        v == Opcode::Close ==> v.name_spec() == "CLOSE",
        v == Opcode::Event ==> v.name_spec() == "EVENT",
        v == Opcode::Stats ==> v.name_spec() == "STATS",
        v == Opcode::MediaEnded ==> v.name_spec() == "MEDIA_ENDED",
        v == Opcode::PcmIn ==> v.name_spec() == "PCM_IN",
        v == Opcode::PcmOut ==> v.name_spec() == "PCM_OUT",
        v == Opcode::EncodedAudioIn ==> v.name_spec() == "ENCODED_AUDIO_IN",
        v == Opcode::EncodedAudioOut ==> v.name_spec() == "ENCODED_AUDIO_OUT",
        v == Opcode::VideoIn ==> v.name_spec() == "VIDEO_IN",
        v == Opcode::VideoOut ==> v.name_spec() == "VIDEO_OUT",
        Opcode::of_tag(b) is Some <==> (1 <= b <= 11 || 16 <= b <= 21),
{
}

/// A role has its own byte, and no other byte is one.
pub proof fn role_bytes(v: Role, b: u8)
    ensures
        v == Role::Core <==> v.tag() == 0,
        v == Role::Voip <==> v.tag() == 1,
        Role::of_tag(v.tag()) == Some(v),
        Role::of_tag(b) is Some <==> 0 <= b <= 1,
{
}

/// An error code has its own byte, and no other byte is one.
pub proof fn abi_error_code_bytes(v: AbiErrorCode, b: u8)
    ensures
        v == AbiErrorCode::BadVersion <==> v.tag() == 1,
        v == AbiErrorCode::UnknownSession <==> v.tag() == 2,
        v == AbiErrorCode::StaleGeneration <==> v.tag() == 3,
        v == AbiErrorCode::BadPayload <==> v.tag() == 4,
        v == AbiErrorCode::NotSupported <==> v.tag() == 5,
        v == AbiErrorCode::Busy <==> v.tag() == 6,
        v == AbiErrorCode::Internal <==> v.tag() == 7,
        v == AbiErrorCode::Transport <==> v.tag() == 8,
        AbiErrorCode::of_tag(v.tag()) == Some(v),
        v == AbiErrorCode::BadVersion ==> v.name_spec() == "BAD_VERSION",
        v == AbiErrorCode::UnknownSession ==> v.name_spec() == "UNKNOWN_SESSION",
        v == AbiErrorCode::StaleGeneration ==> v.name_spec() == "STALE_GENERATION",
        v == AbiErrorCode::BadPayload ==> v.name_spec() == "BAD_PAYLOAD",
        v == AbiErrorCode::NotSupported ==> v.name_spec() == "NOT_SUPPORTED",
        v == AbiErrorCode::Busy ==> v.name_spec() == "BUSY",
        v == AbiErrorCode::Internal ==> v.name_spec() == "INTERNAL",
        v == AbiErrorCode::Transport ==> v.name_spec() == "TRANSPORT",
        AbiErrorCode::of_tag(b) is Some <==> 1 <= b <= 8,
{
}

/// An urgency has its own byte, and no other byte is one.
pub proof fn urgency_bytes(v: Urgency, b: u8)
    ensures
        v == Urgency::Coalesced <==> v.tag() == 0,
        v == Urgency::Immediate <==> v.tag() == 1,
        Urgency::of_tag(v.tag()) == Some(v),
        v == Urgency::Coalesced ==> v.name_spec() == "COALESCED",
        v == Urgency::Immediate ==> v.name_spec() == "IMMEDIATE",
        Urgency::of_tag(b) is Some <==> 0 <= b <= 1,
{
}

/// A reason for silence has its own byte, and no other byte is one.
pub proof fn silence_reason_bytes(v: SilenceReason, b: u8)
    ensures
        v == SilenceReason::NoDecoderForNegotiatedCodec <==> v.tag() == 0,
        v == SilenceReason::AuthenticationFailing <==> v.tag() == 1,
        v == SilenceReason::UnexpectedPayloadType <==> v.tag() == 2,
        v == SilenceReason::CodecRejectingFrames <==> v.tag() == 3,
        v == SilenceReason::CodecFlapping <==> v.tag() == 4,
        v == SilenceReason::Unknown <==> v.tag() == 5,
        SilenceReason::of_tag(v.tag()) == Some(v),
        v == SilenceReason::NoDecoderForNegotiatedCodec ==> v.name_spec() == "NO_DECODER_FOR_NEGOTIATED_CODEC",
        v == SilenceReason::AuthenticationFailing ==> v.name_spec() == "AUTHENTICATION_FAILING",
        v == SilenceReason::UnexpectedPayloadType ==> v.name_spec() == "UNEXPECTED_PAYLOAD_TYPE",
        v == SilenceReason::CodecRejectingFrames ==> v.name_spec() == "CODEC_REJECTING_FRAMES",
        v == SilenceReason::CodecFlapping ==> v.name_spec() == "CODEC_FLAPPING",
        v == SilenceReason::Unknown ==> v.name_spec() == "UNKNOWN",
        SilenceReason::of_tag(b) is Some <==> 0 <= b <= 5,
{
}

/// A decision source has its own byte, and no other byte is one.
pub proof fn codec_source_bytes(v: CodecSource, b: u8)
    ensures
        v == CodecSource::Negotiated <==> v.tag() == 0,
        v == CodecSource::Content <==> v.tag() == 1,
        CodecSource::of_tag(v.tag()) == Some(v),
        v == CodecSource::Negotiated ==> v.name_spec() == "NEGOTIATED",
        v == CodecSource::Content ==> v.name_spec() == "CONTENT",
        CodecSource::of_tag(b) is Some <==> 0 <= b <= 1,
{
}

/// A direction has its own byte, and no other byte is one.
pub proof fn direction_bytes(v: Direction, b: u8)
    ensures
        v == Direction::Outgoing <==> v.tag() == 0,
        v == Direction::Incoming <==> v.tag() == 1,
        Direction::of_tag(v.tag()) == Some(v),
        v == Direction::Outgoing ==> v.name_spec() == "OUTGOING",
        v == Direction::Incoming ==> v.name_spec() == "INCOMING",
        Direction::of_tag(b) is Some <==> 0 <= b <= 1,
{
}

/// A way for audio has its own byte, and no other byte is one.
pub proof fn audio_io_bytes(v: AudioIo, b: u8)
    ensures
        v == AudioIo::Pcm <==> v.tag() == 0,
        v == AudioIo::Encoded <==> v.tag() == 1,
        AudioIo::of_tag(v.tag()) == Some(v),
        v == AudioIo::Pcm ==> v.name_spec() == "PCM",
        v == AudioIo::Encoded ==> v.name_spec() == "ENCODED",
        AudioIo::of_tag(b) is Some <==> 0 <= b <= 1,
{
}

/// A codec has its own byte, and no other byte is one.
pub proof fn audio_codec_wire_bytes(v: AudioCodecWire, b: u8)
    ensures
        v == AudioCodecWire::Mlow <==> v.tag() == 1,
        v == AudioCodecWire::Opus <==> v.tag() == 2,
        AudioCodecWire::of_tag(v.tag()) == Some(v),
        v == AudioCodecWire::Mlow ==> v.name_spec() == "MLOW",
        v == AudioCodecWire::Opus ==> v.name_spec() == "OPUS",
        AudioCodecWire::of_tag(b) is Some <==> 1 <= b <= 2,
{
}

/// A profile has its own byte, and no other byte is one.
pub proof fn rtp_profile_bytes(v: RtpProfile, b: u8)
    ensures
        v == RtpProfile::Mlow <==> v.tag() == 0,
        v == RtpProfile::StandardOpus <==> v.tag() == 1,
        RtpProfile::of_tag(v.tag()) == Some(v),
        v == RtpProfile::Mlow ==> v.name_spec() == "MLOW",
        v == RtpProfile::StandardOpus ==> v.name_spec() == "STANDARD_OPUS",
        RtpProfile::of_tag(b) is Some <==> 0 <= b <= 1,
{
}

/// An outcome has its own byte, and no other byte is one.
pub proof fn cancel_outcome_bytes(v: CancelOutcome, b: u8)
    ensures
        v == CancelOutcome::Aborted <==> v.tag() == 1,
        v == CancelOutcome::AlreadyOpen <==> v.tag() == 2,
        v == CancelOutcome::Unknown <==> v.tag() == 3,
        CancelOutcome::of_tag(v.tag()) == Some(v),
        v == CancelOutcome::Aborted ==> v.name_spec() == "ABORTED",
        v == CancelOutcome::AlreadyOpen ==> v.name_spec() == "ALREADY_OPEN",
        v == CancelOutcome::Unknown ==> v.name_spec() == "UNKNOWN",
        CancelOutcome::of_tag(b) is Some <==> 1 <= b <= 3,
{
}

/// A reason to close has its own byte, and no other byte is one.
pub proof fn close_reason_bytes(v: CloseReason, b: u8)
    ensures
        v == CloseReason::LocalHangup <==> v.tag() == 1,
        v == CloseReason::RemoteEnd <==> v.tag() == 2,
        v == CloseReason::Replaced <==> v.tag() == 3,
        v == CloseReason::Failed <==> v.tag() == 4,
        v == CloseReason::Timeout <==> v.tag() == 5,
        v == CloseReason::RelayDropped <==> v.tag() == 6,
        CloseReason::of_tag(v.tag()) == Some(v),
        v == CloseReason::LocalHangup ==> v.name_spec() == "LOCAL_HANGUP",
        v == CloseReason::RemoteEnd ==> v.name_spec() == "REMOTE_END",
        v == CloseReason::Replaced ==> v.name_spec() == "REPLACED",
        v == CloseReason::Failed ==> v.name_spec() == "FAILED",
        v == CloseReason::Timeout ==> v.name_spec() == "TIMEOUT",
        v == CloseReason::RelayDropped ==> v.name_spec() == "RELAY_DROPPED",
        CloseReason::of_tag(b) is Some <==> 1 <= b <= 6,
{
}

/// A command starts with its number, has it from no other, and is called by its
/// own name.
#[verifier::rlimit(40)]
pub proof fn a_command_starts_with_its_number(m: MediaCommandView)
    ensures
        m.body().len() > 0,
        m.body()[0] == m.kind(),
        m is VideoEnable <==> m.kind() == 3,
        m is VideoEnable ==> m.kind_name_spec() == "VIDEO_ENABLE",
        m is VideoEnableAwaitingAccept <==> m.kind() == 4,
        m is VideoEnableAwaitingAccept ==> m.kind_name_spec() == "VIDEO_ENABLE_AWAITING_ACCEPT",
        m is VideoDisable <==> m.kind() == 5,
        m is VideoDisable ==> m.kind_name_spec() == "VIDEO_DISABLE",
        m is VideoDisableKeepLegacy <==> m.kind() == 7,
        m is VideoDisableKeepLegacy ==> m.kind_name_spec() == "VIDEO_DISABLE_KEEP_LEGACY",
        m is VideoDisableOutbound <==> m.kind() == 6,
        m is VideoDisableOutbound ==> m.kind_name_spec() == "VIDEO_DISABLE_OUTBOUND",
        m is VideoRequireKeyframe <==> m.kind() == 13,
        m is VideoRequireKeyframe ==> m.kind_name_spec() == "VIDEO_REQUIRE_KEYFRAME",
        m is VideoRequestPeerKeyframe <==> m.kind() == 11,
        m is VideoRequestPeerKeyframe ==> m.kind_name_spec() == "VIDEO_REQUEST_PEER_KEYFRAME",
        m is VideoSetOrientation <==> m.kind() == 10,
        m is VideoSetOrientation ==> m.kind_name_spec() == "VIDEO_SET_ORIENTATION",
        m is VideoSetInputGeneration <==> m.kind() == 8,
        m is VideoSetInputGeneration ==> m.kind_name_spec() == "VIDEO_SET_INPUT_GENERATION",
        m is VideoSetTimestampStride <==> m.kind() == 9,
        m is VideoSetTimestampStride ==> m.kind_name_spec() == "VIDEO_SET_TIMESTAMP_STRIDE",
        m is RekeyRecv <==> m.kind() == 12,
        m is RekeyRecv ==> m.kind_name_spec() == "REKEY_RECV",
        m is GroupApplyUpdate <==> m.kind() == 20,
        m is GroupApplyUpdate ==> m.kind_name_spec() == "GROUP_APPLY_UPDATE",
        m is GroupApplyTransition <==> m.kind() == 21,
        m is GroupApplyTransition ==> m.kind_name_spec() == "GROUP_APPLY_TRANSITION",
        m is GroupApplyEpoch <==> m.kind() == 22,
        m is GroupApplyEpoch ==> m.kind_name_spec() == "GROUP_APPLY_EPOCH",
        m is GroupSendReaction <==> m.kind() == 23,
        m is GroupSendReaction ==> m.kind_name_spec() == "GROUP_SEND_REACTION",
        m is AudioMute <==> m.kind() == 30,
        m is AudioMute ==> m.kind_name_spec() == "AUDIO_MUTE",
{
    reveal(MediaCommandView::layout);
}

/// An event starts with its number, has it from no other, and is called by its
/// own name.
#[verifier::rlimit(40)]
pub proof fn an_event_starts_with_its_number(m: AbiEventView)
    ensures
        m.body().len() > 0,
        m.body()[0] == m.kind(),
        m is RelayAllocated <==> m.kind() == 1,
        m is RelayAllocated ==> m.kind_name_spec() == "RELAY_ALLOCATED",
        m is ForeignAudio <==> m.kind() == 2,
        m is ForeignAudio ==> m.kind_name_spec() == "FOREIGN_AUDIO",
        m is ForeignGroupAudio <==> m.kind() == 3,
        m is ForeignGroupAudio ==> m.kind_name_spec() == "FOREIGN_GROUP_AUDIO",
        m is AudioFormatMismatch <==> m.kind() == 4,
        m is AudioFormatMismatch ==> m.kind_name_spec() == "AUDIO_FORMAT_MISMATCH",
        m is RelayAllocateFailed <==> m.kind() == 5,
        m is RelayAllocateFailed ==> m.kind_name_spec() == "RELAY_ALLOCATE_FAILED",
        m is RelayAllocateTimedOut <==> m.kind() == 6,
        m is RelayAllocateTimedOut ==> m.kind_name_spec() == "RELAY_ALLOCATE_TIMED_OUT",
        m is MediaSetupFailed <==> m.kind() == 7,
        m is MediaSetupFailed ==> m.kind_name_spec() == "MEDIA_SETUP_FAILED",
        m is RelayReconnectTimedOut <==> m.kind() == 8,
        m is RelayReconnectTimedOut ==> m.kind_name_spec() == "RELAY_RECONNECT_TIMED_OUT",
        m is VideoKeyframeNeeded <==> m.kind() == 9,
        m is VideoKeyframeNeeded ==> m.kind_name_spec() == "VIDEO_KEYFRAME_NEEDED",
        m is RtcpReceived <==> m.kind() == 10,
        m is RtcpReceived ==> m.kind_name_spec() == "RTCP_RECEIVED",
        m is OutboundMediaDropped <==> m.kind() == 11,
        m is OutboundMediaDropped ==> m.kind_name_spec() == "OUTBOUND_MEDIA_DROPPED",
        m is AudioSilent <==> m.kind() == 12,
        m is AudioSilent ==> m.kind_name_spec() == "AUDIO_SILENT",
        m is AudioCodecSwitched <==> m.kind() == 13,
        m is AudioCodecSwitched ==> m.kind_name_spec() == "AUDIO_CODEC_SWITCHED",
        m is AudioCodecSourceIsFixed <==> m.kind() == 14,
        m is AudioCodecSourceIsFixed ==> m.kind_name_spec() == "AUDIO_CODEC_SOURCE_IS_FIXED",
        m is AudioReceptionStalled <==> m.kind() == 15,
        m is AudioReceptionStalled ==> m.kind_name_spec() == "AUDIO_RECEPTION_STALLED",
        m is Closed <==> m.kind() == 16,
        m is Closed ==> m.kind_name_spec() == "CLOSED",
{
    reveal(AbiEventView::layout);
}

} // verus!
