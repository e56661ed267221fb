//! Per-call counters, polled or pushed.

use vstd::prelude::*;

use crate::codec::{DecodeError, Reader, Writer};
use crate::messages::fields::Dto;
use crate::session::SessionId;
use crate::wire::{
    blob, concat_empty, decoded, extended, group_extends, group_stuck, group_written, le_u32,
    le_u32_len, le_u64, Body, Cursor, Piece,
};

verus! {

/// Per-call media counters, mirroring the core's neutral stats record field
/// for field. The core caches the latest push per session and serves reads
/// locally, so stats never poll across the boundary.
#[derive(Debug, Clone, PartialEq, Eq)]
pub struct StatsData {
    /// RTP packets received.
    pub rtp_received: u32,
    /// RTP packets with an unexpected payload type.
    pub rtp_payload_type_unexpected: u32,
    /// SRTP unprotect failures.
    pub srtp_unprotect_failed: u32,
    /// SFrame decrypt failures.
    pub sframe_decrypt_failed: u32,
    /// Audio frames decoded.
    pub audio_frames_decoded: u32,
    /// Audio frames delivered.
    pub audio_frames_delivered: u32,
    /// Concealed audio frames.
    pub audio_frames_concealed: u32,
    /// MLOW off-point frames dropped.
    pub mlow_off_point_dropped: u32,
    /// MLOW inactive/SID frames.
    pub mlow_inactive_or_sid: u32,
    /// Foreign (Opus-escape) frames decoded.
    pub foreign_frames_decoded: u32,
    /// Audio frames with no decoder.
    pub audio_frames_without_decoder: u32,
    /// Outbound frames with no encoder.
    pub outbound_frames_without_encoder: u32,
    /// Trimmed playout samples.
    pub playout_trimmed_samples: u32,
    /// Inbound pipe drops.
    pub inbound_pipe_dropped: u32,
    /// Audio sink drops.
    pub audio_sink_dropped: u32,
    /// Video sink drops.
    pub video_sink_dropped: u32,
    /// Peer keyframe requests.
    pub peer_keyframe_requests: u32,
    /// Unclassified relay packets.
    pub relay_packet_unclassified: u32,
    /// Rejected forwarding envelopes.
    pub forwarding_envelope_rejected: u32,
    /// Codec switches (u16 upstream; saturated on mapping).
    pub codec_switches: u32,
}

impl View for StatsData {
    type V = StatsData;

    open spec fn view(&self) -> StatsData {
        *self
    }
}

impl StatsData {
    /// The fields as bytes, in wire order.
    #[verifier::opaque]
    pub open spec fn layout(self) -> Seq<u8> {
        le_u32(self.rtp_received)
            + le_u32(self.rtp_payload_type_unexpected)
            + le_u32(self.srtp_unprotect_failed)
            + le_u32(self.sframe_decrypt_failed)
            + le_u32(self.audio_frames_decoded)
            + le_u32(self.audio_frames_delivered)
            + le_u32(self.audio_frames_concealed)
            + le_u32(self.mlow_off_point_dropped)
            + le_u32(self.mlow_inactive_or_sid)
            + le_u32(self.foreign_frames_decoded)
            + le_u32(self.audio_frames_without_decoder)
            + le_u32(self.outbound_frames_without_encoder)
            + le_u32(self.playout_trimmed_samples)
            + le_u32(self.inbound_pipe_dropped)
            + le_u32(self.audio_sink_dropped)
            + le_u32(self.video_sink_dropped)
            + le_u32(self.peer_keyframe_requests)
            + le_u32(self.relay_packet_unclassified)
            + le_u32(self.forwarding_envelope_rejected)
            + le_u32(self.codec_switches)
    }

    /// The fields, read in wire order.
    #[verifier::opaque]
    pub open spec fn fields(c: Cursor) -> (StatsData, Cursor) {
        let (rtp_received, c) = c.u32();
        let (rtp_payload_type_unexpected, c) = c.u32();
        let (srtp_unprotect_failed, c) = c.u32();
        let (sframe_decrypt_failed, c) = c.u32();
        let (audio_frames_decoded, c) = c.u32();
        let (audio_frames_delivered, c) = c.u32();
        let (audio_frames_concealed, c) = c.u32();
        let (mlow_off_point_dropped, c) = c.u32();
        let (mlow_inactive_or_sid, c) = c.u32();
        let (foreign_frames_decoded, c) = c.u32();
        let (audio_frames_without_decoder, c) = c.u32();
        let (outbound_frames_without_encoder, c) = c.u32();
        let (playout_trimmed_samples, c) = c.u32();
        let (inbound_pipe_dropped, c) = c.u32();
        let (audio_sink_dropped, c) = c.u32();
        let (video_sink_dropped, c) = c.u32();
        let (peer_keyframe_requests, c) = c.u32();
        let (relay_packet_unclassified, c) = c.u32();
        let (forwarding_envelope_rejected, c) = c.u32();
        let (codec_switches, c) = c.u32();
        (StatsData { rtp_received, rtp_payload_type_unexpected, srtp_unprotect_failed, sframe_decrypt_failed, audio_frames_decoded, audio_frames_delivered, audio_frames_concealed, mlow_off_point_dropped, mlow_inactive_or_sid, foreign_frames_decoded, audio_frames_without_decoder, outbound_frames_without_encoder, playout_trimmed_samples, inbound_pipe_dropped, audio_sink_dropped, video_sink_dropped, peer_keyframe_requests, relay_packet_unclassified, forwarding_envelope_rejected, codec_switches }, c)
    }

    /// The body always takes 80 bytes.
    pub proof fn layout_len(self)
        ensures
            self.layout().len() == 80,
    {
        broadcast use le_u32_len;

        reveal(StatsData::layout);
    }
}

impl Body for StatsData {
    open spec fn body_fits(self) -> bool {
        true
    }

    open spec fn body(self) -> Seq<u8> {
        self.layout()
    }

    open spec fn parse(c: Cursor) -> (StatsData, Cursor) {
        StatsData::fields(c)
    }

    proof fn body_written(self, tail: Seq<u8>) {
        broadcast use group_written;

        reveal(StatsData::layout);
        reveal(StatsData::fields);
    }

    proof fn parse_extends(s: Seq<u8>, more: Seq<u8>) {
        broadcast use {group_extends, group_stuck};

        reveal(StatsData::fields);
        assert(Cursor::at(s + more) == extended(Cursor::at(s), more));
    }
}

impl StatsData {
    /// Serializes the body.
    pub fn encode(&self) -> (payload: Vec<u8>)
        ensures
            payload@ == self@.body(),
    {
        broadcast use concat_empty;

        proof {
            reveal(StatsData::layout);
        }
        let mut w = Writer::new();
        w.u32_le(self.rtp_received);
        w.u32_le(self.rtp_payload_type_unexpected);
        w.u32_le(self.srtp_unprotect_failed);
        w.u32_le(self.sframe_decrypt_failed);
        w.u32_le(self.audio_frames_decoded);
        w.u32_le(self.audio_frames_delivered);
        w.u32_le(self.audio_frames_concealed);
        w.u32_le(self.mlow_off_point_dropped);
        w.u32_le(self.mlow_inactive_or_sid);
        w.u32_le(self.foreign_frames_decoded);
        w.u32_le(self.audio_frames_without_decoder);
        w.u32_le(self.outbound_frames_without_encoder);
        w.u32_le(self.playout_trimmed_samples);
        w.u32_le(self.inbound_pipe_dropped);
        w.u32_le(self.audio_sink_dropped);
        w.u32_le(self.video_sink_dropped);
        w.u32_le(self.peer_keyframe_requests);
        w.u32_le(self.relay_packet_unclassified);
        w.u32_le(self.forwarding_envelope_rejected);
        w.u32_le(self.codec_switches);
        w.finish()
    }

    /// Parses the body. Trailing bytes are ignored (newer minor fields).
    pub fn decode(buf: &[u8]) -> (res: Result<Self, DecodeError>)
        ensures
            match res {
                Ok(v) => decoded::<StatsData>(buf@) == Ok::<StatsData, DecodeError>(v@),
                Err(e) => decoded::<StatsData>(buf@) == Err::<StatsData, DecodeError>(e),
            },
    {
        broadcast use group_stuck;

        proof {
            reveal(StatsData::fields);
        }
        let mut r = Reader::new(buf);
        let rtp_received: u32 = r.u32_le()?;
        let rtp_payload_type_unexpected: u32 = r.u32_le()?;
        let srtp_unprotect_failed: u32 = r.u32_le()?;
        let sframe_decrypt_failed: u32 = r.u32_le()?;
        let audio_frames_decoded: u32 = r.u32_le()?;
        let audio_frames_delivered: u32 = r.u32_le()?;
        let audio_frames_concealed: u32 = r.u32_le()?;
        let mlow_off_point_dropped: u32 = r.u32_le()?;
        let mlow_inactive_or_sid: u32 = r.u32_le()?;
        let foreign_frames_decoded: u32 = r.u32_le()?;
        let audio_frames_without_decoder: u32 = r.u32_le()?;
        let outbound_frames_without_encoder: u32 = r.u32_le()?;
        let playout_trimmed_samples: u32 = r.u32_le()?;
        let inbound_pipe_dropped: u32 = r.u32_le()?;
        let audio_sink_dropped: u32 = r.u32_le()?;
        let video_sink_dropped: u32 = r.u32_le()?;
        let peer_keyframe_requests: u32 = r.u32_le()?;
        let relay_packet_unclassified: u32 = r.u32_le()?;
        let forwarding_envelope_rejected: u32 = r.u32_le()?;
        let codec_switches: u32 = r.u32_le()?;
        Ok(StatsData { rtp_received, rtp_payload_type_unexpected, srtp_unprotect_failed, sframe_decrypt_failed, audio_frames_decoded, audio_frames_delivered, audio_frames_concealed, mlow_off_point_dropped, mlow_inactive_or_sid, foreign_frames_decoded, audio_frames_without_decoder, outbound_frames_without_encoder, playout_trimmed_samples, inbound_pipe_dropped, audio_sink_dropped, video_sink_dropped, peer_keyframe_requests, relay_packet_unclassified, forwarding_envelope_rejected, codec_switches })
    }
}

impl Dto for StatsData {
    fn to_payload(&self) -> (payload: Vec<u8>) {
        self.encode()
    }

    fn of_payload(buf: &[u8]) -> (res: Result<Self, DecodeError>) {
        Self::decode(buf)
    }
}

/// `STATS` request (`core -> voip`): poll one session's counters. The
/// response body is [`StatsData`]. The bridge itself never polls — it serves
/// the locally cached push — but the shape stays for backends that do.
#[derive(Debug, Clone, PartialEq, Eq)]
pub struct StatsRequest {
    /// The session being polled.
    pub session: SessionId,
}

impl View for StatsRequest {
    type V = StatsRequest;

    open spec fn view(&self) -> StatsRequest {
        *self
    }
}

impl StatsRequest {
    /// The fields as bytes, in wire order.
    #[verifier::opaque]
    pub open spec fn layout(self) -> Seq<u8> {
        le_u32(self.session.handle)
            + le_u64(self.session.generation)
    }

    /// The fields, read in wire order.
    #[verifier::opaque]
    pub open spec fn fields(c: Cursor) -> (StatsRequest, Cursor) {
        let (handle, c) = c.u32();
        let (generation, c) = c.u64();
        (StatsRequest { session: SessionId { handle, generation } }, c)
    }
}

impl Body for StatsRequest {
    open spec fn body_fits(self) -> bool {
        true
    }

    open spec fn body(self) -> Seq<u8> {
        self.layout()
    }

    open spec fn parse(c: Cursor) -> (StatsRequest, Cursor) {
        StatsRequest::fields(c)
    }

    proof fn body_written(self, tail: Seq<u8>) {
        broadcast use group_written;

        reveal(StatsRequest::layout);
        reveal(StatsRequest::fields);
    }

    proof fn parse_extends(s: Seq<u8>, more: Seq<u8>) {
        broadcast use {group_extends, group_stuck};

        reveal(StatsRequest::fields);
        assert(Cursor::at(s + more) == extended(Cursor::at(s), more));
    }
}

impl StatsRequest {
    /// Serializes the body.
    pub fn encode(&self) -> (payload: Vec<u8>)
        ensures
            payload@ == self@.body(),
    {
        broadcast use concat_empty;

        proof {
            reveal(StatsRequest::layout);
        }
        let mut w = Writer::new();
        w.u32_le(self.session.handle);
        w.u64_le(self.session.generation);
        w.finish()
    }

    /// Parses the body. Trailing bytes are ignored (newer minor fields).
    pub fn decode(buf: &[u8]) -> (res: Result<Self, DecodeError>)
        ensures
            match res {
                Ok(v) => decoded::<StatsRequest>(buf@) == Ok::<StatsRequest, DecodeError>(v@),
                Err(e) => decoded::<StatsRequest>(buf@) == Err::<StatsRequest, DecodeError>(e),
            },
    {
        broadcast use group_stuck;

        proof {
            reveal(StatsRequest::fields);
        }
        let mut r = Reader::new(buf);
        let handle: u32 = r.u32_le()?;
        let generation: u64 = r.u64_le()?;
        Ok(StatsRequest { session: SessionId { handle, generation } })
    }
}

impl Dto for StatsRequest {
    fn to_payload(&self) -> (payload: Vec<u8>) {
        self.encode()
    }

    fn of_payload(buf: &[u8]) -> (res: Result<Self, DecodeError>) {
        Self::decode(buf)
    }
}

/// `STATS` push (`voip -> core`, no response flag): one session's counters
/// for the core's local cache. Same body shape as the poll response.
#[derive(Debug, Clone, PartialEq, Eq)]
pub struct StatsPush {
    /// The session the counters belong to.
    pub session: SessionId,
    /// The counters.
    pub stats: StatsData,
}

impl View for StatsPush {
    type V = StatsPush;

    open spec fn view(&self) -> StatsPush {
        *self
    }
}

impl StatsPush {
    /// The fields as bytes, in wire order.
    #[verifier::opaque]
    pub open spec fn layout(self) -> Seq<u8> {
        le_u32(self.session.handle)
            + le_u64(self.session.generation)
            + blob(self.stats.body())
    }

    /// The fields, read in wire order.
    #[verifier::opaque]
    pub open spec fn fields(c: Cursor) -> (StatsPush, Cursor) {
        let (handle, c) = c.u32();
        let (generation, c) = c.u64();
        let (stats, c) = StatsData::read(c);
        (StatsPush { session: SessionId { handle, generation }, stats }, c)
    }
}

impl Body for StatsPush {
    open spec fn body_fits(self) -> bool {
        true
    }

    open spec fn body(self) -> Seq<u8> {
        self.layout()
    }

    open spec fn parse(c: Cursor) -> (StatsPush, Cursor) {
        StatsPush::fields(c)
    }

    proof fn body_written(self, tail: Seq<u8>) {
        broadcast use group_written;

        reveal(StatsPush::layout);
        reveal(StatsPush::fields);
        self.stats.layout_len();
    }

    proof fn parse_extends(s: Seq<u8>, more: Seq<u8>) {
        broadcast use {group_extends, group_stuck};

        reveal(StatsPush::fields);
        assert(Cursor::at(s + more) == extended(Cursor::at(s), more));
    }
}

impl StatsPush {
    /// Serializes the body.
    pub fn encode(&self) -> (payload: Vec<u8>)
        ensures
            payload@ == self@.body(),
    {
        broadcast use concat_empty;

        proof {
            reveal(StatsPush::layout);
        }
        let mut w = Writer::new();
        w.u32_le(self.session.handle);
        w.u64_le(self.session.generation);
        let raw = self.stats.encode();
        w.bytes_raw(raw.as_slice());
        w.finish()
    }

    /// Parses the body. Trailing bytes are ignored (newer minor fields).
    pub fn decode(buf: &[u8]) -> (res: Result<Self, DecodeError>)
        ensures
            match res {
                Ok(v) => decoded::<StatsPush>(buf@) == Ok::<StatsPush, DecodeError>(v@),
                Err(e) => decoded::<StatsPush>(buf@) == Err::<StatsPush, DecodeError>(e),
            },
    {
        broadcast use group_stuck;

        proof {
            reveal(StatsPush::fields);
        }
        let mut r = Reader::new(buf);
        let handle: u32 = r.u32_le()?;
        let generation: u64 = r.u64_le()?;
        let stats = StatsData::decode(r.bytes_raw()?)?;
        Ok(StatsPush { session: SessionId { handle, generation }, stats })
    }
}

impl Dto for StatsPush {
    fn to_payload(&self) -> (payload: Vec<u8>) {
        self.encode()
    }

    fn of_payload(buf: &[u8]) -> (res: Result<Self, DecodeError>) {
        Self::decode(buf)
    }
}

} // verus!
