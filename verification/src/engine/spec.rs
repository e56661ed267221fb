//! Open params back into the neutral spec the engine builds from.
//!
//! Field for field: the direction, audio, relay, key and flag fields map onto
//! the same neutral types. Anything the wire cannot name (an address that
//! does not parse, a port that is none) refuses with what was wrong rather
//! than a guess.

use vstd::prelude::*;
use vstd::slice::slice_to_vec;

use crate::engine::jid::{
    jid_of, jid_or, jid_or_complain, opt_jid_or, opt_jid_or_complain, same_outcome,
};
use crate::engine::neutral::{
    CallDirection, GroupCallDevice, GroupCallDeviceView, GroupCallParticipant,
    GroupCallParticipantView, GroupCallRelay, GroupCallRelayEndpoint, GroupCallRelayEndpointView,
    GroupCallRelayView, GroupCallUpdate, GroupCallUpdateView, MediaAudioCodec, MediaAudioFormat,
    MediaAudioIo, MediaAudioRtpProfile, MediaAudioSpec, MediaDirectPeer, MediaDirectPeerView,
    MediaGroupSpec, MediaGroupSpecView, MediaSessionKey, MediaSessionKeyView, MediaSessionSpec,
    MediaSessionSpecView, MediaSetupError, MediaSetupErrorView, OpenCtx, OpenCtxView,
};
use crate::engine::project::copy_text;
use crate::messages::fields::views;
use crate::messages::group::{
    GroupCallUpdateDto, GroupCallUpdateDtoView, GroupDeviceDto, GroupDeviceDtoView,
    GroupParticipantDto, GroupParticipantDtoView, GroupRelayDto, GroupRelayDtoView,
    GroupRelayEndpointDto, GroupRelayEndpointDtoView,
};
use crate::messages::open::{
    AudioCodecWire, AudioFormatDto, AudioIo, DirectPeerDto, DirectPeerDtoView, Direction,
    GroupOpenSpec, GroupOpenSpecView, OpenParams, OpenParamsView, RtpProfile,
};
use crate::text::{decimal, push_decimal};

verus! {

/// The items that `f` makes of `s`, in order, or what it said of the first
/// item that it refused.
pub open spec fn collected<A, B, E>(s: Seq<A>, f: spec_fn(A) -> Result<B, E>) -> Result<Seq<B>, E>
    decreases s.len(),
{
    if s.len() == 0 {
        Ok(Seq::empty())
    } else {
        match collected(s.drop_last(), f) {
            Err(e) => Err(e),
            Ok(done) => match f(s.last()) {
                Err(e) => Err(e),
                Ok(b) => Ok(done.push(b)),
            },
        }
    }
}

/// Items that are made one by one keep their number and their order; where one
/// is refused, the first that is says why.
pub proof fn each_is_made<A, B, E>(s: Seq<A>, f: spec_fn(A) -> Result<B, E>)
    ensures
        match collected(s, f) {
            Ok(out) => out.len() == s.len() && forall|i: int|
                0 <= i < s.len() ==> f(#[trigger] s[i]) == Ok::<B, E>(out[i]),
            Err(e) => exists|i: int|
                0 <= i < s.len() && f(#[trigger] s[i]) == Err::<B, E>(e) && all_made(
                    s.take(i),
                    f,
                ),
        },
    decreases s.len(),
{
    if s.len() > 0 {
        let front = s.drop_last();
        each_is_made(front, f);
        match collected(front, f) {
            Ok(done) => {
                assert forall|i: int| 0 <= i < front.len() implies f(#[trigger] s[i]) == Ok::<B, E>(
                    done[i],
                ) by {
                    assert(front[i] == s[i]);
                }
                assert(s[s.len() - 1] == s.last());
                assert(s.take(s.len() - 1) =~= front);
                assert(all_made(front, f));
            },
            Err(e) => {
                let i = choose|i: int|
                    0 <= i < front.len() && f(#[trigger] front[i]) == Err::<B, E>(e) && all_made(
                        front.take(i),
                        f,
                    );
                assert(s[i] == front[i]);
                assert(s.take(i) =~= front.take(i));
            },
        }
    }
}

/// Whether something is made of every item.
pub open spec fn all_made<A, B, E>(s: Seq<A>, f: spec_fn(A) -> Result<B, E>) -> bool {
    forall|i: int| 0 <= i < s.len() ==> f(#[trigger] s[i]) is Ok
}

/// Once an item was refused, the ones behind it change nothing.
proof fn collected_stuck<A, B, E>(s: Seq<A>, f: spec_fn(A) -> Result<B, E>, n: int)
    requires
        0 <= n <= s.len(),
        collected(s.take(n), f) is Err,
    ensures
        collected(s, f) == collected(s.take(n), f),
    decreases s.len() - n,
{
    if n < s.len() {
        assert(s.take(n + 1).drop_last() =~= s.take(n));
        collected_stuck(s, f, n + 1);
    } else {
        assert(s.take(n) =~= s);
    }
}

/// One more item: what it adds to the ones before it.
proof fn collected_step<A, B, E>(s: Seq<A>, f: spec_fn(A) -> Result<B, E>, n: int)
    requires
        0 <= n < s.len(),
    ensures
        collected(s.take(n + 1), f) == (match collected(s.take(n), f) {
            Err(e) => Err(e),
            Ok(done) => match f(s[n]) {
                Err(e) => Err(e),
                Ok(b) => Ok(done.push(b)),
            },
        }),
{
    assert(s.take(n + 1).drop_last() =~= s.take(n));
    assert(s.take(n + 1).last() == s[n]);
}

/// The neutral word for a wire codec.
pub open spec fn codec_of(codec: AudioCodecWire) -> MediaAudioCodec {
    match codec {
        AudioCodecWire::Mlow => MediaAudioCodec::Mlow,
        AudioCodecWire::Opus => MediaAudioCodec::Opus,
    }
}

/// The neutral form of an audio format.
pub open spec fn format_of(dto: AudioFormatDto) -> MediaAudioFormat {
    MediaAudioFormat {
        codec: codec_of(dto.codec),
        rtp_profile: match dto.rtp_profile {
            RtpProfile::Mlow => MediaAudioRtpProfile::Mlow,
            RtpProfile::StandardOpus => MediaAudioRtpProfile::StandardOpus,
        },
        signaling_rate: dto.signaling_rate,
        sample_rate: dto.sample_rate,
        channels: dto.channels,
        samples_per_frame: dto.samples_per_frame,
        rtp_clock_rate: dto.rtp_clock_rate,
        rtp_timestamp_step: dto.rtp_timestamp_step,
        rtp_payload_type: dto.rtp_payload_type,
    }
}

/// The neutral form of a device.
pub open spec fn device_of(d: GroupDeviceDtoView, complaint: Seq<char>) -> Result<
    GroupCallDeviceView,
    Seq<char>,
> {
    match jid_or(d.jid, complaint) {
        Err(e) => Err(e),
        Ok(jid) => Ok(
            GroupCallDeviceView {
                jid,
                platform: d.platform,
                pid: d.pid,
                capability_version: d.capability_version,
            },
        ),
    }
}

/// The neutral form of a participant: their own address is judged first, then
/// the alias, then the devices in order.
pub open spec fn participant_of(p: GroupParticipantDtoView, complaint: Seq<char>) -> Result<
    GroupCallParticipantView,
    Seq<char>,
> {
    match jid_or(p.jid, complaint) {
        Err(e) => Err(e),
        Ok(jid) => match opt_jid_or(p.pn, complaint) {
            Err(e) => Err(e),
            Ok(pn) => match collected(p.devices, |d: GroupDeviceDtoView| device_of(d, complaint)) {
                Err(e) => Err(e),
                Ok(devices) => Ok(
                    GroupCallParticipantView {
                        jid,
                        pn,
                        state: p.state,
                        participant_type: p.participant_type,
                        devices,
                    },
                ),
            },
        },
    }
}

/// What an endpoint's port that is none is refused with.
pub open spec fn port_refusal(port: u32) -> Seq<char> {
    "group relay endpoint port refused: "@ + decimal(port as nat)
}

/// A port of the wire.
pub open spec fn port_of(port: Option<u32>) -> Result<Option<u16>, Seq<char>> {
    match port {
        None => Ok(None),
        Some(p) => if p > u16::MAX {
            Err(port_refusal(p))
        } else {
            Ok(Some(p as u16))
        },
    }
}

/// The neutral form of a relay endpoint.
pub open spec fn endpoint_of(e: GroupRelayEndpointDtoView) -> Result<
    GroupCallRelayEndpointView,
    Seq<char>,
> {
    match port_of(e.port) {
        Err(e) => Err(e),
        Ok(port) => Ok(
            GroupCallRelayEndpointView {
                relay_id: e.relay_id,
                token_id: e.token_id,
                auth_token_id: e.auth_token_id,
                relay_name: e.relay_name,
                domain_name: e.domain_name,
                rtt_ms: e.rtt_ms,
                is_fna: e.is_fna != 0,
                ipv4: e.ipv4,
                port,
            },
        ),
    }
}

/// The neutral form of a shared relay: its endpoints are judged in order.
pub open spec fn relay_of(r: GroupRelayDtoView) -> Result<GroupCallRelayView, Seq<char>> {
    match collected(r.endpoints, |e: GroupRelayEndpointDtoView| endpoint_of(e)) {
        Err(e) => Err(e),
        Ok(endpoints) => Ok(
            GroupCallRelayView {
                transaction_id: r.transaction_id,
                self_pid: r.self_pid,
                uuid: r.uuid,
                participant_uuid: r.participant_uuid,
                attribute_padding: r.attribute_padding != 0,
                warp_mi_tag_len: r.warp_mi_tag_len,
                endpoints,
            },
        ),
    }
}

/// The neutral form of a relay that may be absent.
pub open spec fn opt_relay_of(r: Option<GroupRelayDtoView>) -> Result<
    Option<GroupCallRelayView>,
    Seq<char>,
> {
    match r {
        None => Ok(None),
        Some(r) => match relay_of(r) {
            Err(e) => Err(e),
            Ok(r) => Ok(Some(r)),
        },
    }
}

/// The neutral form of a group snapshot: the roster is judged first, then the
/// relay, then the creator, then the group's own address.
pub open spec fn update_of(dto: GroupCallUpdateDtoView, complaint: Seq<char>) -> Result<
    GroupCallUpdateView,
    Seq<char>,
> {
    match collected(
        dto.participants,
        |p: GroupParticipantDtoView| participant_of(p, complaint),
    ) {
        Err(e) => Err(e),
        Ok(participants) => match opt_relay_of(dto.relay) {
            Err(e) => Err(e),
            Ok(relay) => match jid_or(dto.call_creator, complaint) {
                Err(e) => Err(e),
                Ok(call_creator) => match opt_jid_or(dto.group_jid, complaint) {
                    Err(e) => Err(e),
                    Ok(group_jid) => Ok(
                        GroupCallUpdateView {
                            call_id: dto.call_id,
                            call_creator,
                            group_jid,
                            transaction_id: dto.transaction_id,
                            media: dto.media,
                            connected_limit: dto.connected_limit,
                            joinable: dto.joinable != 0,
                            av_upgradable: dto.av_upgradable != 0,
                            rekey_requested: dto.rekey_requested != 0,
                            participants,
                            relay,
                        },
                    ),
                },
            },
        },
    }
}

/// A snapshot with a relay endpoint whose port is none is refused, and never
/// replaced by a guess.
pub proof fn a_port_that_is_none_refuses_the_snapshot(
    dto: GroupCallUpdateDtoView,
    complaint: Seq<char>,
    i: int,
)
    requires
        dto.relay matches Some(r) && 0 <= i < r.endpoints.len() && (r.endpoints[i].port matches Some(
            p,
        ) && p > u16::MAX),
    ensures
        update_of(dto, complaint) is Err,
{
    let endpoints = dto.relay->0.endpoints;
    let f = |e: GroupRelayEndpointDtoView| endpoint_of(e);
    collected_step(endpoints, f, i);
    assert(f(endpoints[i]) is Err);
    collected_stuck(endpoints, f, i + 1);
}

/// The neutral form of a direct peer.
pub open spec fn direct_peer_of(p: DirectPeerDtoView, complaint: Seq<char>) -> Result<
    MediaDirectPeerView,
    Seq<char>,
> {
    match jid_or(p.user_jid, complaint) {
        Err(e) => Err(e),
        Ok(user_jid) => match jid_or(p.device_jid, complaint) {
            Err(e) => Err(e),
            Ok(device_jid) => Ok(
                MediaDirectPeerView { user_jid, device_jid, call_key: p.call_key },
            ),
        },
    }
}

/// The neutral form of a group open: the snapshot is judged first, then the
/// direct peer, then the creator, then this side's own address.
pub open spec fn group_spec_of(spec: GroupOpenSpecView, complaint: Seq<char>) -> Result<
    MediaGroupSpecView,
    Seq<char>,
> {
    match update_of(spec.initial_update, complaint) {
        Err(e) => Err(e),
        Ok(initial_update) => match (match spec.direct_peer {
            None => Ok(None),
            Some(p) => match direct_peer_of(p, complaint) {
                Err(e) => Err(e),
                Ok(p) => Ok(Some(p)),
            },
        }) {
            Err(e) => Err(e),
            Ok(direct_peer) => match jid_or(spec.call_creator, complaint) {
                Err(e) => Err(e),
                Ok(call_creator) => match jid_or(spec.self_jid, complaint) {
                    Err(e) => Err(e),
                    Ok(self_jid) => Ok(
                        MediaGroupSpecView { call_creator, self_jid, initial_update, direct_peer },
                    ),
                },
            },
        },
    }
}

/// The opening context in the params. An epoch needs both its transaction and
/// its key.
pub open spec fn ctx_of(params: OpenParamsView) -> OpenCtxView {
    OpenCtxView {
        muted: params.muted != 0,
        initial_codec: match params.initial_codec {
            None => None,
            Some(c) => Some(codec_of(c)),
        },
        peer_orientations: params.peer_orientations,
        epoch: match params.group {
            None => None,
            Some(g) => match (g.epoch_transaction_id, g.epoch) {
                (Some(tx), Some(epoch)) => Some((tx, epoch)),
                _ => None,
            },
        },
    }
}

/// How a refused group address is complained about.
pub open spec fn predates() -> Seq<char> {
    "group JID this bridge predates: "@
}

/// The neutral spec that open params make under a call's identity. A group
/// that does not map is refused before a port that is none.
pub open spec fn spec_of(params: OpenParamsView, call_id: Seq<char>, generation: u64) -> Result<
    MediaSessionSpecView,
    MediaSetupErrorView,
> {
    match (match params.group {
        None => Ok(None),
        Some(g) => match group_spec_of(g, predates()) {
            Err(e) => Err(e),
            Ok(g) => Ok(Some(g)),
        },
    }) {
        Err(e) => Err(MediaSetupErrorView::Backend(e)),
        Ok(group) => if params.relay_port > u16::MAX {
            Err(MediaSetupErrorView::BadEndpoint)
        } else {
            Ok(
                MediaSessionSpecView {
                    key: MediaSessionKeyView { call_id, generation },
                    direction: match params.direction {
                        Direction::Outgoing => CallDirection::Outgoing,
                        Direction::Incoming => CallDirection::Incoming,
                    },
                    self_lid: params.self_lid,
                    peer_lid: params.peer_lid,
                    call_key: params.call_key,
                    ssrc: params.ssrc,
                    audio: MediaAudioSpec {
                        format: format_of(params.audio_format),
                        io: match params.audio_io {
                            AudioIo::Pcm => MediaAudioIo::Pcm,
                            AudioIo::Encoded => MediaAudioIo::Encoded,
                        },
                    },
                    relay_token: params.relay_token,
                    auth_token: params.auth_token,
                    relay_ip: params.relay_host,
                    relay_port: params.relay_port as u16,
                    integrity_key: params.integrity_key,
                    warp_mi_tag_len: params.warp_mi_tag_len,
                    enable_media: params.enable_media != 0,
                    enable_video: params.enable_video != 0,
                    enable_sframe: params.enable_sframe != 0,
                    group,
                },
            )
        },
    }
}

/// The neutral word for a wire codec.
pub fn codec_from_wire(codec: AudioCodecWire) -> (c: MediaAudioCodec)
    ensures
        c == codec_of(codec),
{
    match codec {
        AudioCodecWire::Mlow => MediaAudioCodec::Mlow,
        AudioCodecWire::Opus => MediaAudioCodec::Opus,
    }
}

/// The neutral form of an audio format.
pub fn format_from_dto(dto: &AudioFormatDto) -> (f: MediaAudioFormat)
    ensures
        f == format_of(*dto),
{
    MediaAudioFormat {
        codec: codec_from_wire(dto.codec),
        rtp_profile: match dto.rtp_profile {
            RtpProfile::Mlow => MediaAudioRtpProfile::Mlow,
            RtpProfile::StandardOpus => MediaAudioRtpProfile::StandardOpus,
        },
        signaling_rate: dto.signaling_rate,
        sample_rate: dto.sample_rate,
        channels: dto.channels,
        samples_per_frame: dto.samples_per_frame,
        rtp_clock_rate: dto.rtp_clock_rate,
        rtp_timestamp_step: dto.rtp_timestamp_step,
        rtp_payload_type: dto.rtp_payload_type,
    }
}

fn device_from_dto(d: &GroupDeviceDto, complaint: &str) -> (res: Result<GroupCallDevice, String>)
    ensures
        same_outcome(res, device_of(d@, complaint@)),
        res matches Ok(device) ==> {
            &&& jid_of(d.jid@) == Some(device.jid@)
            &&& device.pid == d.pid
            &&& device.capability_version == d.capability_version
        },
{
    Ok(
        GroupCallDevice {
            jid: jid_or_complain(d.jid.as_str(), complaint)?,
            platform: copy_text(&d.platform),
            pid: d.pid,
            capability_version: d.capability_version,
        },
    )
}

fn devices_from_dto(v: &Vec<GroupDeviceDto>, complaint: &str) -> (res: Result<
    Vec<GroupCallDevice>,
    String,
>)
    ensures
        match (
            res,
            collected(views(v@), |d: GroupDeviceDtoView| device_of(d, complaint@)),
        ) {
            (Ok(v), Ok(m)) => views(v@) == m,
            (Err(e), Err(m)) => e@ == m,
            _ => false,
        },
{
    let ghost all = views(v@);
    let ghost f = |d: GroupDeviceDtoView| device_of(d, complaint@);
    let mut out: Vec<GroupCallDevice> = Vec::new();
    let mut i: usize = 0;
    proof {
        assert(all.take(0) =~= Seq::empty());
        assert(views(out@) =~= Seq::empty());
    }
    while i < v.len()
        invariant
            i <= v.len(),
            all == views(v@),
            f == (|d: GroupDeviceDtoView| device_of(d, complaint@)),
            collected(all.take(i as int), f) == Ok::<Seq<GroupCallDeviceView>, Seq<char>>(
                views(out@),
            ),
        decreases v.len() - i,
    {
        proof {
            collected_step(all, f, i as int);
            if collected(all.take(i + 1), f) is Err {
                collected_stuck(all, f, i + 1);
            }
        }
        let ghost before = out@;
        let one = device_from_dto(&v[i], complaint)?;
        out.push(one);
        assert(views(out@) =~= views(before).push(one@));
        i += 1;
    }
    assert(all.take(i as int) =~= all);
    Ok(out)
}

fn participant_from_dto(p: &GroupParticipantDto, complaint: &str) -> (res: Result<
    GroupCallParticipant,
    String,
>)
    ensures
        same_outcome(res, participant_of(p@, complaint@)),
        res matches Ok(participant) ==> {
            &&& jid_of(p.jid@) == Some(participant.jid@)
            &&& p.pn is None <==> participant.pn is None
            &&& p.pn matches Some(raw) ==> jid_of(raw@) == Some(participant.pn->0@)
        },
{
    let jid = jid_or_complain(p.jid.as_str(), complaint)?;
    let pn = opt_jid_or_complain(&p.pn, complaint)?;
    let devices = devices_from_dto(&p.devices, complaint)?;
    Ok(
        GroupCallParticipant {
            jid,
            pn,
            state: copy_text(&p.state),
            participant_type: copy_text(&p.participant_type),
            devices,
        },
    )
}

fn participants_from_dto(v: &Vec<GroupParticipantDto>, complaint: &str) -> (res: Result<
    Vec<GroupCallParticipant>,
    String,
>)
    ensures
        match (
            res,
            collected(views(v@), |p: GroupParticipantDtoView| participant_of(p, complaint@)),
        ) {
            (Ok(v), Ok(m)) => views(v@) == m,
            (Err(e), Err(m)) => e@ == m,
            _ => false,
        },
{
    let ghost all = views(v@);
    let ghost f = |p: GroupParticipantDtoView| participant_of(p, complaint@);
    let mut out: Vec<GroupCallParticipant> = Vec::new();
    let mut i: usize = 0;
    proof {
        assert(all.take(0) =~= Seq::empty());
        assert(views(out@) =~= Seq::empty());
    }
    while i < v.len()
        invariant
            i <= v.len(),
            all == views(v@),
            f == (|p: GroupParticipantDtoView| participant_of(p, complaint@)),
            collected(all.take(i as int), f) == Ok::<Seq<GroupCallParticipantView>, Seq<char>>(
                views(out@),
            ),
        decreases v.len() - i,
    {
        proof {
            collected_step(all, f, i as int);
            if collected(all.take(i + 1), f) is Err {
                collected_stuck(all, f, i + 1);
            }
        }
        let ghost before = out@;
        let one = participant_from_dto(&v[i], complaint)?;
        out.push(one);
        assert(views(out@) =~= views(before).push(one@));
        i += 1;
    }
    assert(all.take(i as int) =~= all);
    Ok(out)
}

fn port_from_wire(port: Option<u32>) -> (res: Result<Option<u16>, String>)
    ensures
        match (res, port_of(port)) {
            (Ok(p), Ok(m)) => p == m,
            (Err(e), Err(m)) => e@ == m,
            _ => false,
        },
{
    match port {
        None => Ok(None),
        Some(p) => if p > 0xffff {
            let mut refusal = "group relay endpoint port refused: ".to_owned();
            push_decimal(&mut refusal, p as u64);
            Err(refusal)
        } else {
            Ok(Some(p as u16))
        },
    }
}

fn endpoint_from_dto(e: &GroupRelayEndpointDto) -> (res: Result<GroupCallRelayEndpoint, String>)
    ensures
        same_outcome(res, endpoint_of(e@)),
        res matches Ok(endpoint) ==> {
            &&& endpoint.relay_id == e.relay_id
            &&& endpoint.token_id == e.token_id
            &&& endpoint.auth_token_id == e.auth_token_id
            &&& endpoint.relay_name@ == e.relay_name@
            &&& endpoint.rtt_ms == e.rtt_ms
            &&& endpoint.is_fna == (e.is_fna != 0)
        },
{
    let port = port_from_wire(e.port)?;
    Ok(
        GroupCallRelayEndpoint {
            relay_id: e.relay_id,
            token_id: e.token_id,
            auth_token_id: e.auth_token_id,
            relay_name: e.relay_name.clone(),
            domain_name: copy_text(&e.domain_name),
            rtt_ms: e.rtt_ms,
            is_fna: e.is_fna != 0,
            ipv4: copy_text(&e.ipv4),
            port,
        },
    )
}

fn endpoints_from_dto(v: &Vec<GroupRelayEndpointDto>) -> (res: Result<
    Vec<GroupCallRelayEndpoint>,
    String,
>)
    ensures
        match (res, collected(views(v@), |e: GroupRelayEndpointDtoView| endpoint_of(e))) {
            (Ok(v), Ok(m)) => views(v@) == m,
            (Err(e), Err(m)) => e@ == m,
            _ => false,
        },
{
    let ghost all = views(v@);
    let ghost f = |e: GroupRelayEndpointDtoView| endpoint_of(e);
    let mut out: Vec<GroupCallRelayEndpoint> = Vec::new();
    let mut i: usize = 0;
    proof {
        assert(all.take(0) =~= Seq::empty());
        assert(views(out@) =~= Seq::empty());
    }
    while i < v.len()
        invariant
            i <= v.len(),
            all == views(v@),
            f == (|e: GroupRelayEndpointDtoView| endpoint_of(e)),
            collected(all.take(i as int), f) == Ok::<Seq<GroupCallRelayEndpointView>, Seq<char>>(
                views(out@),
            ),
        decreases v.len() - i,
    {
        proof {
            collected_step(all, f, i as int);
            if collected(all.take(i + 1), f) is Err {
                collected_stuck(all, f, i + 1);
            }
        }
        let ghost before = out@;
        let one = endpoint_from_dto(&v[i])?;
        out.push(one);
        assert(views(out@) =~= views(before).push(one@));
        i += 1;
    }
    assert(all.take(i as int) =~= all);
    Ok(out)
}

fn relay_from_dto(r: &GroupRelayDto) -> (res: Result<GroupCallRelay, String>)
    ensures
        same_outcome(res, relay_of(r@)),
        res matches Ok(relay) ==> {
            &&& relay.transaction_id == r.transaction_id
            &&& relay.self_pid == r.self_pid
            &&& relay.uuid@ == r.uuid@
            &&& relay.participant_uuid@ == r.participant_uuid@
            &&& relay.attribute_padding == (r.attribute_padding != 0)
            &&& relay.warp_mi_tag_len == r.warp_mi_tag_len
            &&& relay.endpoints@.len() == r.endpoints@.len()
        },
{
    let endpoints = endpoints_from_dto(&r.endpoints)?;
    proof {
        each_is_made(views(r.endpoints@), |e: GroupRelayEndpointDtoView| endpoint_of(e));
        assert(views(endpoints@).len() == endpoints@.len());
    }
    Ok(
        GroupCallRelay {
            transaction_id: r.transaction_id,
            self_pid: r.self_pid,
            uuid: r.uuid.clone(),
            participant_uuid: r.participant_uuid.clone(),
            attribute_padding: r.attribute_padding != 0,
            warp_mi_tag_len: r.warp_mi_tag_len,
            endpoints,
        },
    )
}

/// The neutral form of a group snapshot. The first address that does not
/// parse is refused by name, behind `complaint`, and so is a relay endpoint's
/// port that is none.
pub fn update_from_dto(dto: &GroupCallUpdateDto, complaint: &str) -> (res: Result<
    GroupCallUpdate,
    String,
>)
    ensures
        same_outcome(res, update_of(dto@, complaint@)),
        res matches Ok(update) ==> {
            &&& update.call_id@ == dto.call_id@
            &&& jid_of(dto.call_creator@) == Some(update.call_creator@)
            &&& dto.group_jid is None <==> update.group_jid is None
            &&& dto.group_jid matches Some(raw) ==> jid_of(raw@) == Some(update.group_jid->0@)
            &&& update.transaction_id == dto.transaction_id
            &&& update.connected_limit == dto.connected_limit
            &&& update.joinable == (dto.joinable != 0)
            &&& update.av_upgradable == (dto.av_upgradable != 0)
            &&& update.rekey_requested == (dto.rekey_requested != 0)
            &&& update.participants@.len() == dto.participants@.len()
            &&& dto.relay is None <==> update.relay is None
        },
{
    let participants = participants_from_dto(&dto.participants, complaint)?;
    proof {
        each_is_made(
            views(dto.participants@),
            |p: GroupParticipantDtoView| participant_of(p, complaint@),
        );
        assert(views(participants@).len() == participants@.len());
    }
    let relay = match &dto.relay {
        None => None,
        Some(r) => Some(relay_from_dto(r)?),
    };
    let call_creator = jid_or_complain(dto.call_creator.as_str(), complaint)?;
    let group_jid = opt_jid_or_complain(&dto.group_jid, complaint)?;
    Ok(
        GroupCallUpdate {
            call_id: dto.call_id.clone(),
            call_creator,
            group_jid,
            transaction_id: dto.transaction_id,
            media: dto.media.clone(),
            connected_limit: dto.connected_limit,
            joinable: dto.joinable != 0,
            av_upgradable: dto.av_upgradable != 0,
            rekey_requested: dto.rekey_requested != 0,
            participants,
            relay,
        },
    )
}

/// The neutral form of a snapshot that arrives on a live call.
pub fn group_update_from_dto(dto: &GroupCallUpdateDto) -> (res: Result<GroupCallUpdate, String>)
    ensures
        same_outcome(res, update_of(dto@, "group JID refused: "@)),
{
    update_from_dto(dto, "group JID refused: ")
}

fn direct_peer_from_dto(p: &DirectPeerDto, complaint: &str) -> (res: Result<
    MediaDirectPeer,
    String,
>)
    ensures
        same_outcome(res, direct_peer_of(p@, complaint@)),
        res matches Ok(peer) ==> {
            &&& jid_of(p.user_jid@) == Some(peer.user_jid@)
            &&& jid_of(p.device_jid@) == Some(peer.device_jid@)
            &&& peer.call_key@ == p.call_key@
        },
{
    let user_jid = jid_or_complain(p.user_jid.as_str(), complaint)?;
    let device_jid = jid_or_complain(p.device_jid.as_str(), complaint)?;
    Ok(MediaDirectPeer { user_jid, device_jid, call_key: slice_to_vec(p.call_key.as_bytes()) })
}

/// The neutral form of a group open.
pub fn group_spec_from_dto(spec: &GroupOpenSpec) -> (res: Result<MediaGroupSpec, String>)
    ensures
        same_outcome(res, group_spec_of(spec@, predates())),
        res matches Ok(group) ==> {
            &&& jid_of(spec.call_creator@) == Some(group.call_creator@)
            &&& jid_of(spec.self_jid@) == Some(group.self_jid@)
            &&& group.initial_update.call_id@ == spec.initial_update.call_id@
            &&& group.direct_peer is Some <==> spec.direct_peer is Some
        },
{
    let complaint = "group JID this bridge predates: ";
    let initial_update = update_from_dto(&spec.initial_update, complaint)?;
    let direct_peer = match &spec.direct_peer {
        None => None,
        Some(p) => Some(direct_peer_from_dto(p, complaint)?),
    };
    let call_creator = jid_or_complain(spec.call_creator.as_str(), complaint)?;
    let self_jid = jid_or_complain(spec.self_jid.as_str(), complaint)?;
    Ok(MediaGroupSpec { call_creator, self_jid, initial_update, direct_peer })
}

/// Rebuilds the neutral spec from decoded open params. The call identity
/// comes from the reservation, not from the params: the wire carries no
/// generation there, and inventing one would break the stale-session guard.
pub fn spec_from_params(params: OpenParams, call_id: &str, generation: u64) -> (res: Result<
    (MediaSessionSpec, OpenCtx),
    MediaSetupError,
>)
    ensures
        match (res, spec_of(params@, call_id@, generation)) {
            (Ok((spec, ctx)), Ok(m)) => spec@ == m && ctx@ == ctx_of(params@),
            (Err(e), Err(m)) => e@ == m,
            _ => false,
        },
        res matches Ok((spec, ctx)) ==> {
            &&& spec.key.call_id@ == call_id@
            &&& spec.key.generation == generation
            &&& spec.self_lid@ == params.self_lid@
            &&& spec.peer_lid@ == params.peer_lid@
            &&& spec.call_key@ == params.call_key@
            &&& spec.relay_token@ == params.relay_token@
            &&& spec.auth_token@ == params.auth_token@
            &&& spec.integrity_key@ == params.integrity_key@
            &&& spec.ssrc == params.ssrc
            &&& spec.relay_ip@ == params.relay_host@
            &&& spec.relay_port as int == params.relay_port as int
            &&& spec.warp_mi_tag_len == params.warp_mi_tag_len
            &&& spec.direction is Outgoing <==> params.direction is Outgoing
            &&& spec.audio.io is Pcm <==> params.audio_io is Pcm
            &&& spec.audio.format.codec is Opus <==> params.audio_format.codec is Opus
            &&& spec.audio.format.sample_rate == params.audio_format.sample_rate
            &&& spec.enable_media == (params.enable_media != 0)
            &&& spec.enable_video == (params.enable_video != 0)
            &&& spec.enable_sframe == (params.enable_sframe != 0)
            &&& spec.group is Some <==> params.group is Some
            &&& ctx.muted == (params.muted != 0)
            &&& ctx.initial_codec is Some <==> params.initial_codec is Some
            &&& ctx.peer_orientations@ == params.peer_orientations@
        },
        params.group is None ==> (res is Ok <==> params.relay_port <= 65535),
{
    let direction = match params.direction {
        Direction::Outgoing => CallDirection::Outgoing,
        Direction::Incoming => CallDirection::Incoming,
    };
    let io = match params.audio_io {
        AudioIo::Pcm => MediaAudioIo::Pcm,
        AudioIo::Encoded => MediaAudioIo::Encoded,
    };
    let format = format_from_dto(&params.audio_format);
    let group = match &params.group {
        None => None,
        Some(g) => match group_spec_from_dto(g) {
            Ok(g) => Some(g),
            Err(e) => {
                return Err(MediaSetupError::Backend(e));
            },
        },
    };
    let epoch: Option<(u32, Vec<u8>)> = match &params.group {
        None => None,
        Some(g) => match (&g.epoch_transaction_id, &g.epoch) {
            (Some(tx), Some(epoch)) => Some((*tx, slice_to_vec(epoch.as_bytes()))),
            _ => None,
        },
    };
    let initial_codec = match params.initial_codec {
        None => None,
        Some(c) => Some(codec_from_wire(c)),
    };
    if params.relay_port > 0xffff {
        return Err(MediaSetupError::BadEndpoint);
    }
    let spec = MediaSessionSpec {
        key: MediaSessionKey { call_id: call_id.to_owned(), generation },
        direction,
        self_lid: params.self_lid,
        peer_lid: params.peer_lid,
        call_key: slice_to_vec(params.call_key.as_bytes()),
        ssrc: params.ssrc,
        audio: MediaAudioSpec { format, io },
        relay_token: slice_to_vec(params.relay_token.as_bytes()),
        auth_token: slice_to_vec(params.auth_token.as_bytes()),
        relay_ip: params.relay_host,
        relay_port: params.relay_port as u16,
        integrity_key: slice_to_vec(params.integrity_key.as_bytes()),
        warp_mi_tag_len: params.warp_mi_tag_len,
        enable_media: params.enable_media != 0,
        enable_video: params.enable_video != 0,
        enable_sframe: params.enable_sframe != 0,
        group,
    };
    let ctx = OpenCtx {
        muted: params.muted != 0,
        initial_codec,
        peer_orientations: params.peer_orientations,
        epoch,
    };
    Ok((spec, ctx))
}

} // verus!
