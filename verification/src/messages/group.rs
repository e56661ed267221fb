//! Group-call bodies: roster, devices, shared relay, admission.

use vstd::prelude::*;

use crate::codec::{DecodeError, Reader, Writer};
use crate::messages::fields::{
    at_most, byte_at_most, decode_dto_vec, decode_option_dto, decode_option_u32, encode_dto_vec,
    encode_option_dto, encode_option_u32, opt_owned, opt_str, opt_view, views, Dto, MAX_ITEMS,
};
use crate::session::SessionId;
use crate::wire::{
    blob, concat_empty, decoded, extended, group_extends, group_stuck, group_written, le_u32,
    le_u64, list, list_fits, opt, opt_fits, opt_text, opt_text_fits, text, text_fits, Body,
    Cursor, Piece,
};

verus! {

/// One group-call device, mirroring the public fields of the core's device
/// record. The raw capability blob is crate-private upstream and does not
/// cross; the engine parses capabilities from the epoch path instead.
#[derive(Debug, Clone, PartialEq, Eq)]
pub struct GroupDeviceDto {
    /// Device JID string.
    pub jid: String,
    /// Announced platform, if any.
    pub platform: Option<String>,
    /// Relay participant id, if any.
    pub pid: Option<u32>,
    /// Capability version, if any.
    pub capability_version: Option<u32>,
}

/// The values that a [`GroupDeviceDto`] carries.
#[verifier::ext_equal]
pub struct GroupDeviceDtoView {
    pub jid: Seq<char>,
    pub platform: Option<Seq<char>>,
    pub pid: Option<u32>,
    pub capability_version: Option<u32>,
}

impl View for GroupDeviceDto {
    type V = GroupDeviceDtoView;

    open spec fn view(&self) -> GroupDeviceDtoView {
        GroupDeviceDtoView {
            jid: self.jid@,
            platform: opt_view(self.platform),
            pid: self.pid,
            capability_version: self.capability_version,
        }
    }
}

impl GroupDeviceDtoView {
    /// The fields as bytes, in wire order.
    #[verifier::opaque]
    pub open spec fn layout(self) -> Seq<u8> {
        text(self.jid)
            + opt_text(self.platform)
            + opt(self.pid)
            + opt(self.capability_version)
    }

    /// The fields, read in wire order.
    #[verifier::opaque]
    pub open spec fn fields(c: Cursor) -> (GroupDeviceDtoView, Cursor) {
        let (jid, c) = c.text();
        let (platform, c) = c.opt_text();
        let (pid, c) = c.opt::<u32>("pid");
        let (capability_version, c) = c.opt::<u32>("capability_version");
        (GroupDeviceDtoView { jid, platform, pid, capability_version }, c)
    }
}

impl Body for GroupDeviceDtoView {
    open spec fn body_fits(self) -> bool {
        &&& text_fits(self.jid)
        &&& opt_text_fits(self.platform)
    }

    open spec fn body(self) -> Seq<u8> {
        self.layout()
    }

    open spec fn parse(c: Cursor) -> (GroupDeviceDtoView, Cursor) {
        GroupDeviceDtoView::fields(c)
    }

    proof fn body_written(self, tail: Seq<u8>) {
        broadcast use group_written;

        reveal(GroupDeviceDtoView::layout);
        reveal(GroupDeviceDtoView::fields);
    }

    proof fn parse_extends(s: Seq<u8>, more: Seq<u8>) {
        broadcast use {group_extends, group_stuck};

        reveal(GroupDeviceDtoView::fields);
        assert(Cursor::at(s + more) == extended(Cursor::at(s), more));
    }
}

impl GroupDeviceDto {
    /// Serializes the body.
    pub fn encode(&self) -> (payload: Vec<u8>)
        ensures
            payload@ == self@.body(),
    {
        broadcast use concat_empty;

        proof {
            reveal(GroupDeviceDtoView::layout);
        }
        let mut w = Writer::new();
        w.utf8(self.jid.as_str());
        w.option_str(opt_str(&self.platform));
        encode_option_u32(&mut w, self.pid);
        encode_option_u32(&mut w, self.capability_version);
        w.finish()
    }

    /// Parses the body. Trailing bytes are ignored (newer minor fields).
    pub fn decode(buf: &[u8]) -> (res: Result<Self, DecodeError>)
        ensures
            match res {
                Ok(v) => decoded::<GroupDeviceDtoView>(buf@) == Ok::<GroupDeviceDtoView, DecodeError>(v@),
                Err(e) => decoded::<GroupDeviceDtoView>(buf@) == Err::<GroupDeviceDtoView, DecodeError>(e),
            },
    {
        broadcast use group_stuck;

        proof {
            reveal(GroupDeviceDtoView::fields);
        }
        let mut r = Reader::new(buf);
        let jid = r.utf8()?.to_owned();
        let platform = opt_owned(r.option_str()?);
        let pid = decode_option_u32(&mut r, "pid")?;
        let capability_version = decode_option_u32(&mut r, "capability_version")?;
        Ok(GroupDeviceDto { jid, platform, pid, capability_version })
    }
}

impl Dto for GroupDeviceDto {
    fn to_payload(&self) -> (payload: Vec<u8>) {
        self.encode()
    }

    fn of_payload(buf: &[u8]) -> (res: Result<Self, DecodeError>) {
        Self::decode(buf)
    }
}

/// One group-call participant, mirroring the public fields of the core's
/// participant record.
#[derive(Debug, Clone, PartialEq, Eq)]
pub struct GroupParticipantDto {
    /// Participant JID string.
    pub jid: String,
    /// Phone-number alias, retained for routing, never exposed in events.
    pub pn: Option<String>,
    /// Presence state (`connected`, ...), if any.
    pub state: Option<String>,
    /// Participant type, if any.
    pub participant_type: Option<String>,
    /// Their devices.
    pub devices: Vec<GroupDeviceDto>,
}

/// The values that a [`GroupParticipantDto`] carries.
#[verifier::ext_equal]
pub struct GroupParticipantDtoView {
    pub jid: Seq<char>,
    pub pn: Option<Seq<char>>,
    pub state: Option<Seq<char>>,
    pub participant_type: Option<Seq<char>>,
    pub devices: Seq<GroupDeviceDtoView>,
}

impl View for GroupParticipantDto {
    type V = GroupParticipantDtoView;

    open spec fn view(&self) -> GroupParticipantDtoView {
        GroupParticipantDtoView {
            jid: self.jid@,
            pn: opt_view(self.pn),
            state: opt_view(self.state),
            participant_type: opt_view(self.participant_type),
            devices: views(self.devices@),
        }
    }
}

impl GroupParticipantDtoView {
    /// The fields as bytes, in wire order.
    #[verifier::opaque]
    pub open spec fn layout(self) -> Seq<u8> {
        text(self.jid)
            + opt_text(self.pn)
            + opt_text(self.state)
            + opt_text(self.participant_type)
            + list(self.devices)
    }

    /// The fields, read in wire order.
    #[verifier::opaque]
    pub open spec fn fields(c: Cursor) -> (GroupParticipantDtoView, Cursor) {
        let (jid, c) = c.text();
        let (pn, c) = c.opt_text();
        let (state, c) = c.opt_text();
        let (participant_type, c) = c.opt_text();
        let (devices, c) = c.list::<GroupDeviceDtoView>(MAX_ITEMS);
        (GroupParticipantDtoView { jid, pn, state, participant_type, devices }, c)
    }
}

impl Body for GroupParticipantDtoView {
    open spec fn body_fits(self) -> bool {
        &&& text_fits(self.jid)
        &&& opt_text_fits(self.pn)
        &&& opt_text_fits(self.state)
        &&& opt_text_fits(self.participant_type)
        &&& list_fits(self.devices, MAX_ITEMS)
    }

    open spec fn body(self) -> Seq<u8> {
        self.layout()
    }

    open spec fn parse(c: Cursor) -> (GroupParticipantDtoView, Cursor) {
        GroupParticipantDtoView::fields(c)
    }

    proof fn body_written(self, tail: Seq<u8>) {
        broadcast use group_written;

        reveal(GroupParticipantDtoView::layout);
        reveal(GroupParticipantDtoView::fields);
    }

    proof fn parse_extends(s: Seq<u8>, more: Seq<u8>) {
        broadcast use {group_extends, group_stuck};

        reveal(GroupParticipantDtoView::fields);
        assert(Cursor::at(s + more) == extended(Cursor::at(s), more));
    }
}

impl GroupParticipantDto {
    /// Serializes the body.
    pub fn encode(&self) -> (payload: Vec<u8>)
        ensures
            payload@ == self@.body(),
    {
        broadcast use concat_empty;

        proof {
            reveal(GroupParticipantDtoView::layout);
        }
        let mut w = Writer::new();
        w.utf8(self.jid.as_str());
        w.option_str(opt_str(&self.pn));
        w.option_str(opt_str(&self.state));
        w.option_str(opt_str(&self.participant_type));
        encode_dto_vec(&mut w, &self.devices);
        w.finish()
    }

    /// Parses the body. Trailing bytes are ignored (newer minor fields).
    pub fn decode(buf: &[u8]) -> (res: Result<Self, DecodeError>)
        ensures
            match res {
                Ok(v) => decoded::<GroupParticipantDtoView>(buf@) == Ok::<GroupParticipantDtoView, DecodeError>(v@),
                Err(e) => decoded::<GroupParticipantDtoView>(buf@) == Err::<GroupParticipantDtoView, DecodeError>(e),
            },
    {
        broadcast use group_stuck;

        proof {
            reveal(GroupParticipantDtoView::fields);
        }
        let mut r = Reader::new(buf);
        let jid = r.utf8()?.to_owned();
        let pn = opt_owned(r.option_str()?);
        let state = opt_owned(r.option_str()?);
        let participant_type = opt_owned(r.option_str()?);
        let devices = decode_dto_vec::<GroupDeviceDto>(&mut r)?;
        Ok(GroupParticipantDto { jid, pn, state, participant_type, devices })
    }
}

impl Dto for GroupParticipantDto {
    fn to_payload(&self) -> (payload: Vec<u8>) {
        self.encode()
    }

    fn of_payload(buf: &[u8]) -> (res: Result<Self, DecodeError>) {
        Self::decode(buf)
    }
}

/// One address advertised by the shared group relay, mirroring the public
/// fields of the core's endpoint record. The resolved socket address is
/// crate-private upstream and does not cross.
#[derive(Debug, Clone, PartialEq, Eq)]
pub struct GroupRelayEndpointDto {
    /// Relay id.
    pub relay_id: u32,
    /// Token id.
    pub token_id: u32,
    /// Auth token id.
    pub auth_token_id: u32,
    /// Relay name.
    pub relay_name: String,
    /// Domain name, if any.
    pub domain_name: Option<String>,
    /// Measured RTT, if any.
    pub rtt_ms: Option<u32>,
    /// Whether this is a first-party relay: 0 or 1.
    pub is_fna: u8,
    /// IPv4 text, if any.
    pub ipv4: Option<String>,
    /// Port, if any.
    pub port: Option<u32>,
}

/// The values that a [`GroupRelayEndpointDto`] carries.
#[verifier::ext_equal]
pub struct GroupRelayEndpointDtoView {
    pub relay_id: u32,
    pub token_id: u32,
    pub auth_token_id: u32,
    pub relay_name: Seq<char>,
    pub domain_name: Option<Seq<char>>,
    pub rtt_ms: Option<u32>,
    pub is_fna: u8,
    pub ipv4: Option<Seq<char>>,
    pub port: Option<u32>,
}

impl View for GroupRelayEndpointDto {
    type V = GroupRelayEndpointDtoView;

    open spec fn view(&self) -> GroupRelayEndpointDtoView {
        GroupRelayEndpointDtoView {
            relay_id: self.relay_id,
            token_id: self.token_id,
            auth_token_id: self.auth_token_id,
            relay_name: self.relay_name@,
            domain_name: opt_view(self.domain_name),
            rtt_ms: self.rtt_ms,
            is_fna: self.is_fna,
            ipv4: opt_view(self.ipv4),
            port: self.port,
        }
    }
}

impl GroupRelayEndpointDtoView {
    /// The fields as bytes, in wire order.
    #[verifier::opaque]
    pub open spec fn layout(self) -> Seq<u8> {
        le_u32(self.relay_id)
            + le_u32(self.token_id)
            + le_u32(self.auth_token_id)
            + text(self.relay_name)
            + opt_text(self.domain_name)
            + opt(self.rtt_ms)
            + seq![self.is_fna]
            + opt_text(self.ipv4)
            + opt(self.port)
    }

    /// The fields, read in wire order.
    #[verifier::opaque]
    pub open spec fn fields(c: Cursor) -> (GroupRelayEndpointDtoView, Cursor) {
        let (relay_id, c) = c.u32();
        let (token_id, c) = c.u32();
        let (auth_token_id, c) = c.u32();
        let (relay_name, c) = c.text();
        let (domain_name, c) = c.opt_text();
        let (rtt_ms, c) = c.opt::<u32>("rtt_ms");
        let (is_fna, c) = c.byte_at_most("is_fna", 1);
        let (ipv4, c) = c.opt_text();
        let (port, c) = c.opt::<u32>("port");
        (GroupRelayEndpointDtoView { relay_id, token_id, auth_token_id, relay_name, domain_name, rtt_ms, is_fna, ipv4, port }, c)
    }
}

impl Body for GroupRelayEndpointDtoView {
    open spec fn body_fits(self) -> bool {
        &&& text_fits(self.relay_name)
        &&& opt_text_fits(self.domain_name)
        &&& self.is_fna <= 1
        &&& opt_text_fits(self.ipv4)
    }

    open spec fn body(self) -> Seq<u8> {
        self.layout()
    }

    open spec fn parse(c: Cursor) -> (GroupRelayEndpointDtoView, Cursor) {
        GroupRelayEndpointDtoView::fields(c)
    }

    proof fn body_written(self, tail: Seq<u8>) {
        broadcast use group_written;

        reveal(GroupRelayEndpointDtoView::layout);
        reveal(GroupRelayEndpointDtoView::fields);
    }

    proof fn parse_extends(s: Seq<u8>, more: Seq<u8>) {
        broadcast use {group_extends, group_stuck};

        reveal(GroupRelayEndpointDtoView::fields);
        assert(Cursor::at(s + more) == extended(Cursor::at(s), more));
    }
}

impl GroupRelayEndpointDto {
    /// Serializes the body.
    pub fn encode(&self) -> (payload: Vec<u8>)
        ensures
            payload@ == self@.body(),
    {
        broadcast use concat_empty;

        proof {
            reveal(GroupRelayEndpointDtoView::layout);
        }
        let mut w = Writer::new();
        w.u32_le(self.relay_id);
        w.u32_le(self.token_id);
        w.u32_le(self.auth_token_id);
        w.utf8(self.relay_name.as_str());
        w.option_str(opt_str(&self.domain_name));
        encode_option_u32(&mut w, self.rtt_ms);
        w.u8(self.is_fna);
        w.option_str(opt_str(&self.ipv4));
        encode_option_u32(&mut w, self.port);
        w.finish()
    }

    /// Parses the body. Trailing bytes are ignored (newer minor fields).
    pub fn decode(buf: &[u8]) -> (res: Result<Self, DecodeError>)
        ensures
            match res {
                Ok(v) => decoded::<GroupRelayEndpointDtoView>(buf@) == Ok::<GroupRelayEndpointDtoView, DecodeError>(v@),
                Err(e) => decoded::<GroupRelayEndpointDtoView>(buf@) == Err::<GroupRelayEndpointDtoView, DecodeError>(e),
            },
    {
        broadcast use group_stuck;

        proof {
            reveal(GroupRelayEndpointDtoView::fields);
        }
        let mut r = Reader::new(buf);
        let relay_id: u32 = r.u32_le()?;
        let token_id: u32 = r.u32_le()?;
        let auth_token_id: u32 = r.u32_le()?;
        let relay_name = r.utf8()?.to_owned();
        let domain_name = opt_owned(r.option_str()?);
        let rtt_ms = decode_option_u32(&mut r, "rtt_ms")?;
        let is_fna: u8 = byte_at_most("is_fna", 1, &mut r)?;
        let ipv4 = opt_owned(r.option_str()?);
        let port = decode_option_u32(&mut r, "port")?;
        Ok(GroupRelayEndpointDto { relay_id, token_id, auth_token_id, relay_name, domain_name, rtt_ms, is_fna, ipv4, port })
    }
}

impl Dto for GroupRelayEndpointDto {
    fn to_payload(&self) -> (payload: Vec<u8>) {
        self.encode()
    }

    fn of_payload(buf: &[u8]) -> (res: Result<Self, DecodeError>) {
        Self::decode(buf)
    }
}

/// Shared relay allocation in a group snapshot, mirroring the public fields
/// of the core's relay record. The relay keys and tokens are crate-private
/// upstream and do not cross; rotation arrives through the epoch path.
#[derive(Debug, Clone, PartialEq, Eq)]
pub struct GroupRelayDto {
    /// Transaction id, if any.
    pub transaction_id: Option<u32>,
    /// Own participant id, if any.
    pub self_pid: Option<u32>,
    /// Relay uuid.
    pub uuid: String,
    /// Participant uuid.
    pub participant_uuid: String,
    /// Attribute padding: 0 or 1.
    pub attribute_padding: u8,
    /// WARP integrity tag length, if any.
    pub warp_mi_tag_len: Option<u32>,
    /// Advertised addresses.
    pub endpoints: Vec<GroupRelayEndpointDto>,
}

/// The values that a [`GroupRelayDto`] carries.
#[verifier::ext_equal]
pub struct GroupRelayDtoView {
    pub transaction_id: Option<u32>,
    pub self_pid: Option<u32>,
    pub uuid: Seq<char>,
    pub participant_uuid: Seq<char>,
    pub attribute_padding: u8,
    pub warp_mi_tag_len: Option<u32>,
    pub endpoints: Seq<GroupRelayEndpointDtoView>,
}

impl View for GroupRelayDto {
    type V = GroupRelayDtoView;

    open spec fn view(&self) -> GroupRelayDtoView {
        GroupRelayDtoView {
            transaction_id: self.transaction_id,
            self_pid: self.self_pid,
            uuid: self.uuid@,
            participant_uuid: self.participant_uuid@,
            attribute_padding: self.attribute_padding,
            warp_mi_tag_len: self.warp_mi_tag_len,
            endpoints: views(self.endpoints@),
        }
    }
}

impl GroupRelayDtoView {
    /// The fields as bytes, in wire order.
    #[verifier::opaque]
    pub open spec fn layout(self) -> Seq<u8> {
        opt(self.transaction_id)
            + opt(self.self_pid)
            + text(self.uuid)
            + text(self.participant_uuid)
            + seq![self.attribute_padding]
            + opt(self.warp_mi_tag_len)
            + list(self.endpoints)
    }

    /// The fields, read in wire order.
    #[verifier::opaque]
    pub open spec fn fields(c: Cursor) -> (GroupRelayDtoView, Cursor) {
        let (transaction_id, c) = c.opt::<u32>("transaction_id");
        let (self_pid, c) = c.opt::<u32>("self_pid");
        let (uuid, c) = c.text();
        let (participant_uuid, c) = c.text();
        let (attribute_padding, c) = c.byte_at_most("attribute_padding", 1);
        let (warp_mi_tag_len, c) = c.opt::<u32>("warp_mi_tag_len");
        let (endpoints, c) = c.list::<GroupRelayEndpointDtoView>(MAX_ITEMS);
        (GroupRelayDtoView { transaction_id, self_pid, uuid, participant_uuid, attribute_padding, warp_mi_tag_len, endpoints }, c)
    }
}

impl Body for GroupRelayDtoView {
    open spec fn body_fits(self) -> bool {
        &&& text_fits(self.uuid)
        &&& text_fits(self.participant_uuid)
        &&& self.attribute_padding <= 1
        &&& list_fits(self.endpoints, MAX_ITEMS)
    }

    open spec fn body(self) -> Seq<u8> {
        self.layout()
    }

    open spec fn parse(c: Cursor) -> (GroupRelayDtoView, Cursor) {
        GroupRelayDtoView::fields(c)
    }

    proof fn body_written(self, tail: Seq<u8>) {
        broadcast use group_written;

        reveal(GroupRelayDtoView::layout);
        reveal(GroupRelayDtoView::fields);
    }

    proof fn parse_extends(s: Seq<u8>, more: Seq<u8>) {
        broadcast use {group_extends, group_stuck};

        reveal(GroupRelayDtoView::fields);
        assert(Cursor::at(s + more) == extended(Cursor::at(s), more));
    }
}

impl GroupRelayDto {
    /// Serializes the body.
    pub fn encode(&self) -> (payload: Vec<u8>)
        ensures
            payload@ == self@.body(),
    {
        broadcast use concat_empty;

        proof {
            reveal(GroupRelayDtoView::layout);
        }
        let mut w = Writer::new();
        encode_option_u32(&mut w, self.transaction_id);
        encode_option_u32(&mut w, self.self_pid);
        w.utf8(self.uuid.as_str());
        w.utf8(self.participant_uuid.as_str());
        w.u8(self.attribute_padding);
        encode_option_u32(&mut w, self.warp_mi_tag_len);
        encode_dto_vec(&mut w, &self.endpoints);
        w.finish()
    }

    /// Parses the body. Trailing bytes are ignored (newer minor fields).
    pub fn decode(buf: &[u8]) -> (res: Result<Self, DecodeError>)
        ensures
            match res {
                Ok(v) => decoded::<GroupRelayDtoView>(buf@) == Ok::<GroupRelayDtoView, DecodeError>(v@),
                Err(e) => decoded::<GroupRelayDtoView>(buf@) == Err::<GroupRelayDtoView, DecodeError>(e),
            },
    {
        broadcast use group_stuck;

        proof {
            reveal(GroupRelayDtoView::fields);
        }
        let mut r = Reader::new(buf);
        let transaction_id = decode_option_u32(&mut r, "transaction_id")?;
        let self_pid = decode_option_u32(&mut r, "self_pid")?;
        let uuid = r.utf8()?.to_owned();
        let participant_uuid = r.utf8()?.to_owned();
        let attribute_padding: u8 = byte_at_most("attribute_padding", 1, &mut r)?;
        let warp_mi_tag_len = decode_option_u32(&mut r, "warp_mi_tag_len")?;
        let endpoints = decode_dto_vec::<GroupRelayEndpointDto>(&mut r)?;
        Ok(GroupRelayDto { transaction_id, self_pid, uuid, participant_uuid, attribute_padding, warp_mi_tag_len, endpoints })
    }
}

impl Dto for GroupRelayDto {
    fn to_payload(&self) -> (payload: Vec<u8>) {
        self.encode()
    }

    fn of_payload(buf: &[u8]) -> (res: Result<Self, DecodeError>) {
        Self::decode(buf)
    }
}

/// One transaction-ordered authoritative group-call snapshot, mirroring the
/// public fields of the core's update record.
#[derive(Debug, Clone, PartialEq, Eq)]
pub struct GroupCallUpdateDto {
    /// Call id.
    pub call_id: String,
    /// Creator JID string.
    pub call_creator: String,
    /// Group JID string, if any.
    pub group_jid: Option<String>,
    /// Transaction id.
    pub transaction_id: u32,
    /// Media description.
    pub media: String,
    /// Roster limit the engine was admitted under.
    pub connected_limit: u32,
    /// Joinable: 0 or 1.
    pub joinable: u8,
    /// AV-upgradable: 0 or 1.
    pub av_upgradable: u8,
    /// Rekey requested: 0 or 1.
    pub rekey_requested: u8,
    /// Authoritative roster.
    pub participants: Vec<GroupParticipantDto>,
    /// Shared relay allocation, if any.
    pub relay: Option<GroupRelayDto>,
}

/// The values that a [`GroupCallUpdateDto`] carries.
#[verifier::ext_equal]
pub struct GroupCallUpdateDtoView {
    pub call_id: Seq<char>,
    pub call_creator: Seq<char>,
    pub group_jid: Option<Seq<char>>,
    pub transaction_id: u32,
    pub media: Seq<char>,
    pub connected_limit: u32,
    pub joinable: u8,
    pub av_upgradable: u8,
    pub rekey_requested: u8,
    pub participants: Seq<GroupParticipantDtoView>,
    pub relay: Option<GroupRelayDtoView>,
}

impl View for GroupCallUpdateDto {
    type V = GroupCallUpdateDtoView;

    open spec fn view(&self) -> GroupCallUpdateDtoView {
        GroupCallUpdateDtoView {
            call_id: self.call_id@,
            call_creator: self.call_creator@,
            group_jid: opt_view(self.group_jid),
            transaction_id: self.transaction_id,
            media: self.media@,
            connected_limit: self.connected_limit,
            joinable: self.joinable,
            av_upgradable: self.av_upgradable,
            rekey_requested: self.rekey_requested,
            participants: views(self.participants@),
            relay: opt_view(self.relay),
        }
    }
}

impl GroupCallUpdateDtoView {
    /// The fields as bytes, in wire order.
    #[verifier::opaque]
    pub open spec fn layout(self) -> Seq<u8> {
        text(self.call_id)
            + text(self.call_creator)
            + opt_text(self.group_jid)
            + le_u32(self.transaction_id)
            + text(self.media)
            + le_u32(self.connected_limit)
            + seq![self.joinable]
            + seq![self.av_upgradable]
            + seq![self.rekey_requested]
            + list(self.participants)
            + opt(self.relay)
    }

    /// The fields, read in wire order.
    #[verifier::opaque]
    pub open spec fn fields(c: Cursor) -> (GroupCallUpdateDtoView, Cursor) {
        let (call_id, c) = c.text();
        let (call_creator, c) = c.text();
        let (group_jid, c) = c.opt_text();
        let (transaction_id, c) = c.u32();
        let (media, c) = c.text();
        let (connected_limit, c) = c.u32();
        let (joinable, c) = c.u8();
        let (av_upgradable, c) = c.u8();
        let (rekey_requested, c) = c.u8();
        let c = c.at_most("joinable", joinable, 1)
            .at_most("av_upgradable", av_upgradable, 1)
            .at_most("rekey_requested", rekey_requested, 1);
        let (participants, c) = c.list::<GroupParticipantDtoView>(MAX_ITEMS);
        let (relay, c) = c.opt::<GroupRelayDtoView>("relay");
        (GroupCallUpdateDtoView { call_id, call_creator, group_jid, transaction_id, media, connected_limit, joinable, av_upgradable, rekey_requested, participants, relay }, c)
    }
}

impl Body for GroupCallUpdateDtoView {
    open spec fn body_fits(self) -> bool {
        &&& text_fits(self.call_id)
        &&& text_fits(self.call_creator)
        &&& opt_text_fits(self.group_jid)
        &&& text_fits(self.media)
        &&& self.joinable <= 1
        &&& self.av_upgradable <= 1
        &&& self.rekey_requested <= 1
        &&& list_fits(self.participants, MAX_ITEMS)
        &&& opt_fits(self.relay)
    }

    open spec fn body(self) -> Seq<u8> {
        self.layout()
    }

    open spec fn parse(c: Cursor) -> (GroupCallUpdateDtoView, Cursor) {
        GroupCallUpdateDtoView::fields(c)
    }

    proof fn body_written(self, tail: Seq<u8>) {
        broadcast use group_written;

        reveal(GroupCallUpdateDtoView::layout);
        reveal(GroupCallUpdateDtoView::fields);
    }

    proof fn parse_extends(s: Seq<u8>, more: Seq<u8>) {
        broadcast use {group_extends, group_stuck};

        reveal(GroupCallUpdateDtoView::fields);
        assert(Cursor::at(s + more) == extended(Cursor::at(s), more));
    }
}

impl GroupCallUpdateDto {
    /// Serializes the body.
    pub fn encode(&self) -> (payload: Vec<u8>)
        ensures
            payload@ == self@.body(),
    {
        broadcast use concat_empty;

        proof {
            reveal(GroupCallUpdateDtoView::layout);
        }
        let mut w = Writer::new();
        w.utf8(self.call_id.as_str());
        w.utf8(self.call_creator.as_str());
        w.option_str(opt_str(&self.group_jid));
        w.u32_le(self.transaction_id);
        w.utf8(self.media.as_str());
        w.u32_le(self.connected_limit);
        w.u8(self.joinable);
        w.u8(self.av_upgradable);
        w.u8(self.rekey_requested);
        encode_dto_vec(&mut w, &self.participants);
        encode_option_dto(&mut w, &self.relay);
        w.finish()
    }

    /// Parses the body. Trailing bytes are ignored (newer minor fields).
    pub fn decode(buf: &[u8]) -> (res: Result<Self, DecodeError>)
        ensures
            match res {
                Ok(v) => decoded::<GroupCallUpdateDtoView>(buf@) == Ok::<GroupCallUpdateDtoView, DecodeError>(v@),
                Err(e) => decoded::<GroupCallUpdateDtoView>(buf@) == Err::<GroupCallUpdateDtoView, DecodeError>(e),
            },
    {
        broadcast use group_stuck;

        proof {
            reveal(GroupCallUpdateDtoView::fields);
        }
        let mut r = Reader::new(buf);
        let call_id = r.utf8()?.to_owned();
        let call_creator = r.utf8()?.to_owned();
        let group_jid = opt_owned(r.option_str()?);
        let transaction_id: u32 = r.u32_le()?;
        let media = r.utf8()?.to_owned();
        let connected_limit: u32 = r.u32_le()?;
        let joinable: u8 = r.u8()?;
        let av_upgradable: u8 = r.u8()?;
        let rekey_requested: u8 = r.u8()?;
        at_most("joinable", joinable, 1)?;
        at_most("av_upgradable", av_upgradable, 1)?;
        at_most("rekey_requested", rekey_requested, 1)?;
        let participants = decode_dto_vec::<GroupParticipantDto>(&mut r)?;
        let relay = decode_option_dto::<GroupRelayDto>(&mut r, "relay")?;
        Ok(GroupCallUpdateDto { call_id, call_creator, group_jid, transaction_id, media, connected_limit, joinable, av_upgradable, rekey_requested, participants, relay })
    }
}

impl Dto for GroupCallUpdateDto {
    fn to_payload(&self) -> (payload: Vec<u8>) {
        self.encode()
    }

    fn of_payload(buf: &[u8]) -> (res: Result<Self, DecodeError>) {
        Self::decode(buf)
    }
}

/// `GROUP_FITS` request: asks whether the engine fits a committed roster,
/// charging a call-link admission like the pre-attach reservation does.
#[derive(Debug, Clone, PartialEq, Eq)]
pub struct GroupFitsRequest {
    /// The session asking.
    pub session: SessionId,
    /// The committed roster being probed.
    pub update: GroupCallUpdateDto,
    /// Whether this probes a call-link admission: 0 or 1.
    pub is_call_link: u8,
}

/// The values that a [`GroupFitsRequest`] carries.
#[verifier::ext_equal]
pub struct GroupFitsRequestView {
    pub session: SessionId,
    pub update: GroupCallUpdateDtoView,
    pub is_call_link: u8,
}

impl View for GroupFitsRequest {
    type V = GroupFitsRequestView;

    open spec fn view(&self) -> GroupFitsRequestView {
        GroupFitsRequestView {
            session: self.session,
            update: self.update@,
            is_call_link: self.is_call_link,
        }
    }
}

impl GroupFitsRequestView {
    /// The fields as bytes, in wire order.
    #[verifier::opaque]
    pub open spec fn layout(self) -> Seq<u8> {
        le_u32(self.session.handle)
            + le_u64(self.session.generation)
            + blob(self.update.body())
            + seq![self.is_call_link]
    }

    /// The fields, read in wire order.
    #[verifier::opaque]
    pub open spec fn fields(c: Cursor) -> (GroupFitsRequestView, Cursor) {
        let (handle, c) = c.u32();
        let (generation, c) = c.u64();
        let (update, c) = GroupCallUpdateDtoView::read(c);
        let (is_call_link, c) = c.byte_at_most("is_call_link", 1);
        (GroupFitsRequestView { session: SessionId { handle, generation }, update, is_call_link }, c)
    }
}

impl Body for GroupFitsRequestView {
    open spec fn body_fits(self) -> bool {
        &&& self.update.fits()
        &&& self.is_call_link <= 1
    }

    open spec fn body(self) -> Seq<u8> {
        self.layout()
    }

    open spec fn parse(c: Cursor) -> (GroupFitsRequestView, Cursor) {
        GroupFitsRequestView::fields(c)
    }

    proof fn body_written(self, tail: Seq<u8>) {
        broadcast use group_written;

        reveal(GroupFitsRequestView::layout);
        reveal(GroupFitsRequestView::fields);
    }

    proof fn parse_extends(s: Seq<u8>, more: Seq<u8>) {
        broadcast use {group_extends, group_stuck};

        reveal(GroupFitsRequestView::fields);
        assert(Cursor::at(s + more) == extended(Cursor::at(s), more));
    }
}

impl GroupFitsRequest {
    /// Serializes the body.
    pub fn encode(&self) -> (payload: Vec<u8>)
        ensures
            payload@ == self@.body(),
    {
        broadcast use concat_empty;

        proof {
            reveal(GroupFitsRequestView::layout);
        }
        let mut w = Writer::new();
        w.u32_le(self.session.handle);
        w.u64_le(self.session.generation);
        let raw = self.update.encode();
        w.bytes_raw(raw.as_slice());
        w.u8(self.is_call_link);
        w.finish()
    }

    /// Parses the body. Trailing bytes are ignored (newer minor fields).
    pub fn decode(buf: &[u8]) -> (res: Result<Self, DecodeError>)
        ensures
            match res {
                Ok(v) => decoded::<GroupFitsRequestView>(buf@) == Ok::<GroupFitsRequestView, DecodeError>(v@),
                Err(e) => decoded::<GroupFitsRequestView>(buf@) == Err::<GroupFitsRequestView, DecodeError>(e),
            },
    {
        broadcast use group_stuck;

        proof {
            reveal(GroupFitsRequestView::fields);
        }
        let mut r = Reader::new(buf);
        let handle: u32 = r.u32_le()?;
        let generation: u64 = r.u64_le()?;
        let update = GroupCallUpdateDto::decode(r.bytes_raw()?)?;
        let is_call_link: u8 = byte_at_most("is_call_link", 1, &mut r)?;
        Ok(GroupFitsRequest { session: SessionId { handle, generation }, update, is_call_link })
    }
}

impl Dto for GroupFitsRequest {
    fn to_payload(&self) -> (payload: Vec<u8>) {
        self.encode()
    }

    fn of_payload(buf: &[u8]) -> (res: Result<Self, DecodeError>) {
        Self::decode(buf)
    }
}

/// `GROUP_FITS` response: the verdict and the engine's own limit.
#[derive(Debug, Clone, PartialEq, Eq)]
pub struct GroupFitsResponse {
    /// Whether the roster fits: 0 or 1.
    pub fits: u8,
    /// The engine's participant limit.
    pub limit: u32,
}

impl View for GroupFitsResponse {
    type V = GroupFitsResponse;

    open spec fn view(&self) -> GroupFitsResponse {
        *self
    }
}

impl GroupFitsResponse {
    /// The fields as bytes, in wire order.
    #[verifier::opaque]
    pub open spec fn layout(self) -> Seq<u8> {
        seq![self.fits]
            + le_u32(self.limit)
    }

    /// The fields, read in wire order.
    #[verifier::opaque]
    pub open spec fn fields(c: Cursor) -> (GroupFitsResponse, Cursor) {
        let (fits, c) = c.byte_at_most("fits", 1);
        let (limit, c) = c.u32();
        (GroupFitsResponse { fits, limit }, c)
    }
}

impl Body for GroupFitsResponse {
    open spec fn body_fits(self) -> bool {
        self.fits <= 1
    }

    open spec fn body(self) -> Seq<u8> {
        self.layout()
    }

    open spec fn parse(c: Cursor) -> (GroupFitsResponse, Cursor) {
        GroupFitsResponse::fields(c)
    }

    proof fn body_written(self, tail: Seq<u8>) {
        broadcast use group_written;

        reveal(GroupFitsResponse::layout);
        reveal(GroupFitsResponse::fields);
    }

    proof fn parse_extends(s: Seq<u8>, more: Seq<u8>) {
        broadcast use {group_extends, group_stuck};

        reveal(GroupFitsResponse::fields);
        assert(Cursor::at(s + more) == extended(Cursor::at(s), more));
    }
}

impl GroupFitsResponse {
    /// Serializes the body.
    pub fn encode(&self) -> (payload: Vec<u8>)
        ensures
            payload@ == self@.body(),
    {
        broadcast use concat_empty;

        proof {
            reveal(GroupFitsResponse::layout);
        }
        let mut w = Writer::new();
        w.u8(self.fits);
        w.u32_le(self.limit);
        w.finish()
    }

    /// Parses the body. Trailing bytes are ignored (newer minor fields).
    pub fn decode(buf: &[u8]) -> (res: Result<Self, DecodeError>)
        ensures
            match res {
                Ok(v) => decoded::<GroupFitsResponse>(buf@) == Ok::<GroupFitsResponse, DecodeError>(v@),
                Err(e) => decoded::<GroupFitsResponse>(buf@) == Err::<GroupFitsResponse, DecodeError>(e),
            },
    {
        broadcast use group_stuck;

        proof {
            reveal(GroupFitsResponse::fields);
        }
        let mut r = Reader::new(buf);
        let fits: u8 = byte_at_most("fits", 1, &mut r)?;
        let limit: u32 = r.u32_le()?;
        Ok(GroupFitsResponse { fits, limit })
    }
}

impl Dto for GroupFitsResponse {
    fn to_payload(&self) -> (payload: Vec<u8>) {
        self.encode()
    }

    fn of_payload(buf: &[u8]) -> (res: Result<Self, DecodeError>) {
        Self::decode(buf)
    }
}

} // verus!
