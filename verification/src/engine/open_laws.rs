//! What an open and a snapshot carry over from the wire, field by field.

use vstd::prelude::*;

use crate::engine::jid::jid_of;
use crate::engine::neutral::{
    CallDirection, GroupCallDeviceView, GroupCallParticipantView, GroupCallRelayEndpointView,
    GroupCallRelayView, GroupCallUpdateView, JidView, MediaAudioCodec, MediaAudioIo,
    MediaAudioRtpProfile, MediaDirectPeerView, MediaGroupSpecView, MediaSessionSpecView,
    MediaSetupErrorView, OpenCtxView,
};
use crate::engine::open::{steps_of, OpenStepView};
use crate::engine::spec::{
    all_made, collected, ctx_of, device_of, direct_peer_of, each_is_made, endpoint_of, format_of,
    group_spec_of, participant_of, relay_of, spec_of, update_of,
};
use crate::messages::group::{
    GroupCallUpdateDtoView, GroupDeviceDtoView, GroupParticipantDtoView, GroupRelayDtoView,
    GroupRelayEndpointDtoView,
};
use crate::messages::open::{
    AudioCodecWire, AudioFormatDto, AudioIo, DirectPeerDtoView, Direction, GroupOpenSpecView,
    OpenParamsView, RtpProfile,
};
use crate::text::decimal;

verus! {

/// Whether a text names this address.
pub open spec fn names(raw: Seq<char>, jid: JidView) -> bool {
    jid_of(raw) == Some(jid)
}

/// Whether an optional text names this optional address.
pub open spec fn names_too(raw: Option<Seq<char>>, jid: Option<JidView>) -> bool {
    match (raw, jid) {
        (Some(raw), Some(jid)) => names(raw, jid),
        (None, None) => true,
        _ => false,
    }
}

/// An open keeps whose it is: this side stays this side and the peer the peer,
/// each key and token stays what it is for, and each switch switches what it
/// names.
pub proof fn an_open_keeps_what_it_was_given(
    params: OpenParamsView,
    call_id: Seq<char>,
    generation: u64,
    spec: MediaSessionSpecView,
)
    requires
        spec_of(params, call_id, generation) == Ok::<MediaSessionSpecView, MediaSetupErrorView>(spec),
    ensures
        spec.key.call_id == call_id,
        spec.key.generation == generation,
        spec.self_lid == params.self_lid,
        spec.peer_lid == params.peer_lid,
        spec.call_key == params.call_key,
        spec.relay_token == params.relay_token,
        spec.auth_token == params.auth_token,
        spec.integrity_key == params.integrity_key,
        spec.ssrc == params.ssrc,
        spec.relay_ip == params.relay_host,
        spec.relay_port as int == params.relay_port as int,
        spec.warp_mi_tag_len == params.warp_mi_tag_len,
        params.direction == Direction::Outgoing <==> spec.direction == CallDirection::Outgoing,
        params.direction == Direction::Incoming <==> spec.direction == CallDirection::Incoming,
        params.audio_io == AudioIo::Pcm <==> spec.audio.io == MediaAudioIo::Pcm,
        params.audio_io == AudioIo::Encoded <==> spec.audio.io == MediaAudioIo::Encoded,
        spec.enable_media == (params.enable_media != 0),
        spec.enable_video == (params.enable_video != 0),
        spec.enable_sframe == (params.enable_sframe != 0),
        spec.group is Some <==> params.group is Some,
{
}

/// Without a group, an open fails for its relay's port alone, and only where
/// that is none.
pub proof fn an_open_without_a_group_fails_only_for_its_port(
    params: OpenParamsView,
    call_id: Seq<char>,
    generation: u64,
)
    requires
        params.group is None,
    ensures
        spec_of(params, call_id, generation) is Ok <==> params.relay_port <= 65535,
        spec_of(params, call_id, generation) matches Err(e) ==> e == MediaSetupErrorView::BadEndpoint,
{
}

/// An audio format keeps its codec, its profile and every number.
pub proof fn a_format_is_kept(dto: AudioFormatDto)
    ensures
        ({
            let format = format_of(dto);
            &&& dto.codec == AudioCodecWire::Mlow ==> format.codec == MediaAudioCodec::Mlow
            &&& dto.codec == AudioCodecWire::Opus ==> format.codec == MediaAudioCodec::Opus
            &&& dto.rtp_profile == RtpProfile::Mlow ==> format.rtp_profile
                == MediaAudioRtpProfile::Mlow
            &&& dto.rtp_profile == RtpProfile::StandardOpus ==> format.rtp_profile
                == MediaAudioRtpProfile::StandardOpus
            &&& format.signaling_rate == dto.signaling_rate
            &&& format.sample_rate == dto.sample_rate
            &&& format.channels == dto.channels
            &&& format.samples_per_frame == dto.samples_per_frame
            &&& format.rtp_clock_rate == dto.rtp_clock_rate
            &&& format.rtp_timestamp_step == dto.rtp_timestamp_step
            &&& format.rtp_payload_type == dto.rtp_payload_type
        }),
{
}

/// The format of an open is the one that its params name.
pub proof fn an_open_keeps_its_format(
    params: OpenParamsView,
    call_id: Seq<char>,
    generation: u64,
    spec: MediaSessionSpecView,
)
    requires
        spec_of(params, call_id, generation) == Ok::<MediaSessionSpecView, MediaSetupErrorView>(spec),
    ensures
        params.audio_format.codec == AudioCodecWire::Mlow <==> spec.audio.format.codec
            == MediaAudioCodec::Mlow,
        params.audio_format.codec == AudioCodecWire::Opus <==> spec.audio.format.codec
            == MediaAudioCodec::Opus,
        spec.audio.format.sample_rate == params.audio_format.sample_rate,
        spec.audio.format.channels == params.audio_format.channels,
        spec.audio.format.samples_per_frame == params.audio_format.samples_per_frame,
        spec.audio.format.rtp_payload_type == params.audio_format.rtp_payload_type,
{
}

/// The opening context is what the params say: muted where they say so, the
/// codec that they select, the rotations in their order, and an epoch only
/// with both its number and its key.
pub proof fn the_opening_context_is_what_was_asked(params: OpenParamsView, ctx: OpenCtxView)
    requires
        ctx == ctx_of(params),
    ensures
        ctx.muted == (params.muted != 0),
        params.initial_codec is None <==> ctx.initial_codec is None,
        params.initial_codec == Some(AudioCodecWire::Mlow) ==> ctx.initial_codec == Some(
            MediaAudioCodec::Mlow,
        ),
        params.initial_codec == Some(AudioCodecWire::Opus) ==> ctx.initial_codec == Some(
            MediaAudioCodec::Opus,
        ),
        ctx.peer_orientations == params.peer_orientations,
        ctx.epoch matches Some((number, key)) ==> (params.group matches Some(g)
            && g.epoch_transaction_id == Some(number) && g.epoch == Some(key)),
        params.group matches Some(g) ==> (g.epoch_transaction_id is Some && g.epoch is Some)
            == ctx.epoch is Some,
{
}

/// An engine that opens is given its epoch before its codec, each at most
/// once, and nothing else.
pub proof fn the_epoch_comes_before_the_codec(ctx: OpenCtxView)
    ensures
        ({
            let steps = steps_of(ctx);
            &&& steps.len() == (if ctx.epoch is Some {
                1int
            } else {
                0
            }) + (if ctx.initial_codec is Some {
                1int
            } else {
                0
            })
            &&& ctx.epoch matches Some((number, key)) ==> steps[0] == (OpenStepView::ApplyEpoch {
                transaction_id: number,
                epoch: key,
            })
            &&& ctx.initial_codec matches Some(codec) ==> steps.last()
                == OpenStepView::SwitchCodec(codec)
        }),
{
}

/// A relay endpoint keeps its numbers, its names and its port.
pub proof fn an_endpoint_is_kept(dto: GroupRelayEndpointDtoView, endpoint: GroupCallRelayEndpointView)
    requires
        endpoint_of(dto) == Ok::<GroupCallRelayEndpointView, Seq<char>>(endpoint),
    ensures
        endpoint.relay_id == dto.relay_id,
        endpoint.token_id == dto.token_id,
        endpoint.auth_token_id == dto.auth_token_id,
        endpoint.relay_name == dto.relay_name,
        endpoint.domain_name == dto.domain_name,
        endpoint.rtt_ms == dto.rtt_ms,
        endpoint.is_fna == (dto.is_fna != 0),
        endpoint.ipv4 == dto.ipv4,
        dto.port is None <==> endpoint.port is None,
        dto.port matches Some(p) ==> (endpoint.port matches Some(q) && q as int == p as int),
{
}

/// A shared relay keeps its identities and every endpoint, in order.
pub proof fn a_relay_is_kept(dto: GroupRelayDtoView, relay: GroupCallRelayView)
    requires
        relay_of(dto) == Ok::<GroupCallRelayView, Seq<char>>(relay),
    ensures
        relay.transaction_id == dto.transaction_id,
        relay.self_pid == dto.self_pid,
        relay.uuid == dto.uuid,
        relay.participant_uuid == dto.participant_uuid,
        relay.attribute_padding == (dto.attribute_padding != 0),
        relay.warp_mi_tag_len == dto.warp_mi_tag_len,
        relay.endpoints.len() == dto.endpoints.len(),
        forall|i: int|
            0 <= i < dto.endpoints.len() ==> endpoint_of(#[trigger] dto.endpoints[i]) == Ok::<
                GroupCallRelayEndpointView,
                Seq<char>,
            >(relay.endpoints[i]),
{
    each_is_made(dto.endpoints, |e: GroupRelayEndpointDtoView| endpoint_of(e));
}

/// A device keeps its address and what it says of itself.
pub proof fn a_device_is_kept(
    dto: GroupDeviceDtoView,
    complaint: Seq<char>,
    device: GroupCallDeviceView,
)
    requires
        device_of(dto, complaint) == Ok::<GroupCallDeviceView, Seq<char>>(device),
    ensures
        names(dto.jid, device.jid),
        device.platform == dto.platform,
        device.pid == dto.pid,
        device.capability_version == dto.capability_version,
{
}

/// A participant keeps both addresses apart, their state and kind, and every
/// device, in order.
pub proof fn a_participant_is_kept(
    dto: GroupParticipantDtoView,
    complaint: Seq<char>,
    participant: GroupCallParticipantView,
)
    requires
        participant_of(dto, complaint) == Ok::<GroupCallParticipantView, Seq<char>>(participant),
    ensures
        names(dto.jid, participant.jid),
        names_too(dto.pn, participant.pn),
        participant.state == dto.state,
        participant.participant_type == dto.participant_type,
        participant.devices.len() == dto.devices.len(),
        forall|i: int|
            0 <= i < dto.devices.len() ==> device_of(#[trigger] dto.devices[i], complaint) == Ok::<
                GroupCallDeviceView,
                Seq<char>,
            >(participant.devices[i]),
{
    each_is_made(dto.devices, |d: GroupDeviceDtoView| device_of(d, complaint));
}

/// A snapshot keeps its call, its creator apart from its group, its limits and
/// flags, and every participant, in order.
pub proof fn a_snapshot_is_kept(
    dto: GroupCallUpdateDtoView,
    complaint: Seq<char>,
    update: GroupCallUpdateView,
)
    requires
        update_of(dto, complaint) == Ok::<GroupCallUpdateView, Seq<char>>(update),
    ensures
        update.call_id == dto.call_id,
        names(dto.call_creator, update.call_creator),
        names_too(dto.group_jid, update.group_jid),
        update.transaction_id == dto.transaction_id,
        update.media == dto.media,
        update.connected_limit == dto.connected_limit,
        update.joinable == (dto.joinable != 0),
        update.av_upgradable == (dto.av_upgradable != 0),
        update.rekey_requested == (dto.rekey_requested != 0),
        update.participants.len() == dto.participants.len(),
        forall|i: int|
            0 <= i < dto.participants.len() ==> participant_of(
                #[trigger] dto.participants[i],
                complaint,
            ) == Ok::<GroupCallParticipantView, Seq<char>>(update.participants[i]),
        dto.relay is None <==> update.relay is None,
        dto.relay matches Some(r) ==> relay_of(r) == Ok::<GroupCallRelayView, Seq<char>>(
            update.relay->0,
        ),
{
    each_is_made(
        dto.participants,
        |p: GroupParticipantDtoView| participant_of(p, complaint),
    );
}

/// Whether a refusal says that a text names no address.
pub open spec fn blames_an_address(complaint: Seq<char>, refusal: Seq<char>) -> bool {
    exists|raw: Seq<char>| jid_of(raw) is None && refusal == complaint + #[trigger] same(raw)
}

/// A text itself.
pub open spec fn same(raw: Seq<char>) -> Seq<char> {
    raw
}

/// Whether a refusal says that a number is no port.
pub open spec fn blames_a_port(refusal: Seq<char>) -> bool {
    exists|p: u32|
        p > 65535 && refusal == "group relay endpoint port refused: "@ + #[trigger] decimal(
            p as nat,
        )
}

/// What is refused of a snapshot is an address that does not parse, named
/// behind the complaint, or a port that is none, named too.
pub proof fn a_refused_snapshot_says_what_was_wrong(
    dto: GroupCallUpdateDtoView,
    complaint: Seq<char>,
    refusal: Seq<char>,
)
    requires
        update_of(dto, complaint) == Err::<GroupCallUpdateView, Seq<char>>(refusal),
    ensures
        blames_an_address(complaint, refusal) || blames_a_port(refusal),
{
    let roster = |p: GroupParticipantDtoView| participant_of(p, complaint);
    each_is_made(dto.participants, roster);
    if collected(dto.participants, roster) is Err {
        let i = choose|i: int|
            0 <= i < dto.participants.len() && roster(#[trigger] dto.participants[i]) == Err::<
                GroupCallParticipantView,
                Seq<char>,
            >(refusal);
        let p = dto.participants[i];
        let devices = |d: GroupDeviceDtoView| device_of(d, complaint);
        each_is_made(p.devices, devices);
        if jid_of(p.jid) is None {
            assert(refusal == complaint + same(p.jid));
        } else if p.pn is Some && jid_of(p.pn->0) is None {
            assert(refusal == complaint + same(p.pn->0));
        } else {
            let j = choose|j: int|
                0 <= j < p.devices.len() && devices(#[trigger] p.devices[j]) == Err::<
                    GroupCallDeviceView,
                    Seq<char>,
                >(refusal);
            assert(refusal == complaint + same(p.devices[j].jid));
        }
    } else if dto.relay is Some && relay_of(dto.relay->0) is Err {
        let endpoints = dto.relay->0.endpoints;
        let f = |e: GroupRelayEndpointDtoView| endpoint_of(e);
        each_is_made(endpoints, f);
        let i = choose|i: int|
            0 <= i < endpoints.len() && f(#[trigger] endpoints[i]) == Err::<
                GroupCallRelayEndpointView,
                Seq<char>,
            >(refusal);
        let p = endpoints[i].port->0;
        assert(refusal == "group relay endpoint port refused: "@ + decimal(p as nat));
    } else if jid_of(dto.call_creator) is None {
        assert(refusal == complaint + same(dto.call_creator));
    } else {
        assert(refusal == complaint + same(dto.group_jid->0));
    }
}

/// A snapshot maps exactly where every address in it parses and every port is
/// one; what is refused is refused in the order of the roster, the relay, the
/// creator and the group.
pub proof fn a_snapshot_maps_where_all_of_it_does(
    dto: GroupCallUpdateDtoView,
    complaint: Seq<char>,
)
    ensures
        ({
            let roster = |p: GroupParticipantDtoView| participant_of(p, complaint);
            let relay_maps = dto.relay is None || relay_of(dto.relay->0) is Ok;
            let group_parses = dto.group_jid is None || jid_of(dto.group_jid->0) is Some;
            &&& update_of(dto, complaint) is Ok <==> all_made(dto.participants, roster)
                && relay_maps && jid_of(dto.call_creator) is Some && group_parses
            &&& collected(dto.participants, roster) matches Err(e) ==> update_of(dto, complaint)
                == Err::<GroupCallUpdateView, Seq<char>>(e)
            &&& all_made(dto.participants, roster) && !relay_maps ==> update_of(dto, complaint)
                == Err::<GroupCallUpdateView, Seq<char>>(relay_of(dto.relay->0)->Err_0)
            &&& all_made(dto.participants, roster) && relay_maps && jid_of(dto.call_creator) is None
                ==> update_of(dto, complaint) == Err::<GroupCallUpdateView, Seq<char>>(
                complaint + dto.call_creator,
            )
            &&& all_made(dto.participants, roster) && relay_maps && jid_of(dto.call_creator) is Some
                && !group_parses ==> update_of(dto, complaint) == Err::<
                GroupCallUpdateView,
                Seq<char>,
            >(complaint + dto.group_jid->0)
        }),
{
    let roster = |p: GroupParticipantDtoView| participant_of(p, complaint);
    each_is_made(dto.participants, roster);
}

/// A participant maps exactly where both addresses parse and every device does;
/// their own address is judged first, then the alias, then the devices.
pub proof fn a_participant_maps_where_all_of_it_does(
    dto: GroupParticipantDtoView,
    complaint: Seq<char>,
)
    ensures
        ({
            let devices = |d: GroupDeviceDtoView| device_of(d, complaint);
            let alias_parses = dto.pn is None || jid_of(dto.pn->0) is Some;
            &&& participant_of(dto, complaint) is Ok <==> jid_of(dto.jid) is Some && alias_parses
                && all_made(dto.devices, devices)
            &&& jid_of(dto.jid) is None ==> participant_of(dto, complaint) == Err::<
                GroupCallParticipantView,
                Seq<char>,
            >(complaint + dto.jid)
            &&& jid_of(dto.jid) is Some && !alias_parses ==> participant_of(dto, complaint)
                == Err::<GroupCallParticipantView, Seq<char>>(complaint + dto.pn->0)
        }),
{
    let devices = |d: GroupDeviceDtoView| device_of(d, complaint);
    each_is_made(dto.devices, devices);
}

/// A device maps exactly where its address parses, an endpoint where its port
/// is one, and a relay where all of its endpoints do.
pub proof fn the_parts_of_a_snapshot_map_by_themselves(
    device: GroupDeviceDtoView,
    endpoint: GroupRelayEndpointDtoView,
    relay: GroupRelayDtoView,
    complaint: Seq<char>,
)
    ensures
        jid_of(device.jid) is Some <==> device_of(device, complaint) is Ok,
        jid_of(device.jid) is None ==> device_of(device, complaint) == Err::<
            GroupCallDeviceView,
            Seq<char>,
        >(complaint + device.jid),
        (endpoint.port is None || endpoint.port->0 <= 65535) <==> endpoint_of(endpoint) is Ok,
        endpoint.port is Some && endpoint.port->0 > 65535 ==> endpoint_of(endpoint) == Err::<
            GroupCallRelayEndpointView,
            Seq<char>,
        >("group relay endpoint port refused: "@ + decimal(endpoint.port->0 as nat)),
        all_made(relay.endpoints, |e: GroupRelayEndpointDtoView| endpoint_of(e)) <==> relay_of(
            relay,
        ) is Ok,
{
    each_is_made(relay.endpoints, |e: GroupRelayEndpointDtoView| endpoint_of(e));
}

/// A group open maps exactly where its snapshot and its direct peer do and both
/// of its addresses parse, judged in that order.
pub proof fn a_group_open_maps_where_all_of_it_does(dto: GroupOpenSpecView, complaint: Seq<char>)
    ensures
        ({
            let peer_maps = dto.direct_peer is None || (jid_of(dto.direct_peer->0.user_jid) is Some
                && jid_of(dto.direct_peer->0.device_jid) is Some);
            let first = update_of(dto.initial_update, complaint);
            &&& group_spec_of(dto, complaint) is Ok <==> first is Ok && peer_maps && jid_of(
                dto.call_creator,
            ) is Some && jid_of(dto.self_jid) is Some
            &&& first matches Err(e) ==> group_spec_of(dto, complaint) == Err::<
                MediaGroupSpecView,
                Seq<char>,
            >(e)
            &&& first is Ok && peer_maps && jid_of(dto.call_creator) is None ==> group_spec_of(
                dto,
                complaint,
            ) == Err::<MediaGroupSpecView, Seq<char>>(complaint + dto.call_creator)
            &&& first is Ok && peer_maps && jid_of(dto.call_creator) is Some && jid_of(dto.self_jid)
                is None ==> group_spec_of(dto, complaint) == Err::<MediaGroupSpecView, Seq<char>>(
                complaint + dto.self_jid,
            )
        }),
{
}

/// An open maps exactly where its group does and its relay's port is one; a
/// group that does not is told as the backend's refusal, a port as an endpoint.
pub proof fn an_open_maps_where_all_of_it_does(
    params: OpenParamsView,
    call_id: Seq<char>,
    generation: u64,
)
    ensures
        ({
            let complaint = "group JID this bridge predates: "@;
            let group_maps = params.group is None || group_spec_of(params.group->0, complaint)
                is Ok;
            &&& spec_of(params, call_id, generation) is Ok <==> group_maps && params.relay_port
                <= 65535
            &&& !group_maps ==> spec_of(params, call_id, generation) == Err::<
                MediaSessionSpecView,
                MediaSetupErrorView,
            >(
                MediaSetupErrorView::Backend(
                    group_spec_of(params.group->0, complaint)->Err_0,
                ),
            )
            &&& group_maps && params.relay_port > 65535 ==> spec_of(params, call_id, generation)
                == Err::<MediaSessionSpecView, MediaSetupErrorView>(
                MediaSetupErrorView::BadEndpoint,
            )
        }),
{
}

/// A direct peer keeps the user apart from the device, and the key.
pub proof fn a_direct_peer_is_kept(
    dto: DirectPeerDtoView,
    complaint: Seq<char>,
    peer: MediaDirectPeerView,
)
    requires
        direct_peer_of(dto, complaint) == Ok::<MediaDirectPeerView, Seq<char>>(peer),
    ensures
        names(dto.user_jid, peer.user_jid),
        names(dto.device_jid, peer.device_jid),
        peer.call_key == dto.call_key,
{
}

/// A group open keeps its creator apart from this side, its first snapshot and
/// its direct peer.
pub proof fn a_group_open_is_kept(
    dto: GroupOpenSpecView,
    complaint: Seq<char>,
    group: MediaGroupSpecView,
)
    requires
        group_spec_of(dto, complaint) == Ok::<MediaGroupSpecView, Seq<char>>(group),
    ensures
        names(dto.call_creator, group.call_creator),
        names(dto.self_jid, group.self_jid),
        update_of(dto.initial_update, complaint) == Ok::<GroupCallUpdateView, Seq<char>>(
            group.initial_update,
        ),
        dto.direct_peer is None <==> group.direct_peer is None,
        dto.direct_peer matches Some(p) ==> direct_peer_of(p, complaint) == Ok::<
            MediaDirectPeerView,
            Seq<char>,
        >(group.direct_peer->0),
{
}

/// The group of an open is the one that its params describe.
pub proof fn an_open_keeps_its_group(
    params: OpenParamsView,
    call_id: Seq<char>,
    generation: u64,
    spec: MediaSessionSpecView,
)
    requires
        spec_of(params, call_id, generation) == Ok::<MediaSessionSpecView, MediaSetupErrorView>(spec),
        params.group is Some,
    ensures
        spec.group is Some,
        names(params.group->0.call_creator, spec.group->0.call_creator),
        names(params.group->0.self_jid, spec.group->0.self_jid),
        spec.group->0.initial_update.call_id == params.group->0.initial_update.call_id,
        spec.group->0.initial_update.transaction_id
            == params.group->0.initial_update.transaction_id,
{
    let complaint = crate::engine::spec::predates();
    a_group_open_is_kept(params.group->0, complaint, spec.group->0);
    a_snapshot_is_kept(
        params.group->0.initial_update,
        complaint,
        spec.group->0.initial_update,
    );
}

} // verus!
