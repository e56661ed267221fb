//! Media frames in both directions.

use vstd::prelude::*;
use vstd::slice::slice_to_vec;

use crate::codec::{DecodeError, Reader, Writer};
use crate::messages::fields::{
    byte_at_most, decode_option_u32, decode_option_u64, encode_option_u32, encode_option_u64,
    enum_byte, opt_owned, opt_str, opt_view, Dto,
};
use crate::messages::open::AudioCodecWire;
use crate::session::SessionId;
use crate::wire::{
    blob, blob_fits, concat_empty, decoded, extended, group_extends, group_stuck, group_written,
    le_u32, le_u64, opt, opt_text, opt_text_fits, Body, Cursor, Piece, Tag,
};

verus! {

/// One PCM or encoded-audio-in frame: session, sequence, and the bytes
/// inline (copy semantics, v1). PCM data is little-endian `i16` samples.
#[derive(Debug, Clone, PartialEq, Eq)]
pub struct MediaFrame {
    /// The session the frame belongs to.
    pub session: SessionId,
    /// Per-session sequence; the pumps use it to order and spot loss.
    pub seq: u32,
    /// The frame bytes.
    pub data: Vec<u8>,
}

/// The values that a [`MediaFrame`] carries.
#[verifier::ext_equal]
pub struct MediaFrameView {
    pub session: SessionId,
    pub seq: u32,
    pub data: Seq<u8>,
}

impl View for MediaFrame {
    type V = MediaFrameView;

    open spec fn view(&self) -> MediaFrameView {
        MediaFrameView {
            session: self.session,
            seq: self.seq,
            data: self.data@,
        }
    }
}

impl MediaFrameView {
    /// The fields as bytes, in wire order.
    #[verifier::opaque]
    pub open spec fn layout(self) -> Seq<u8> {
        le_u32(self.session.handle)
            + le_u64(self.session.generation)
            + le_u32(self.seq)
            + blob(self.data)
    }

    /// The fields, read in wire order.
    #[verifier::opaque]
    pub open spec fn fields(c: Cursor) -> (MediaFrameView, Cursor) {
        let (handle, c) = c.u32();
        let (generation, c) = c.u64();
        let (seq, c) = c.u32();
        let (data, c) = c.blob();
        (MediaFrameView { session: SessionId { handle, generation }, seq, data }, c)
    }
}

impl Body for MediaFrameView {
    open spec fn body_fits(self) -> bool {
        blob_fits(self.data)
    }

    open spec fn body(self) -> Seq<u8> {
        self.layout()
    }

    open spec fn parse(c: Cursor) -> (MediaFrameView, Cursor) {
        MediaFrameView::fields(c)
    }

    proof fn body_written(self, tail: Seq<u8>) {
        broadcast use group_written;

        reveal(MediaFrameView::layout);
        reveal(MediaFrameView::fields);
    }

    proof fn parse_extends(s: Seq<u8>, more: Seq<u8>) {
        broadcast use {group_extends, group_stuck};

        reveal(MediaFrameView::fields);
        assert(Cursor::at(s + more) == extended(Cursor::at(s), more));
    }
}

impl MediaFrame {
    /// Serializes the body.
    pub fn encode(&self) -> (payload: Vec<u8>)
        ensures
            payload@ == self@.body(),
    {
        broadcast use concat_empty;

        proof {
            reveal(MediaFrameView::layout);
        }
        let mut w = Writer::new();
        w.u32_le(self.session.handle);
        w.u64_le(self.session.generation);
        w.u32_le(self.seq);
        w.bytes_raw(self.data.as_slice());
        w.finish()
    }

    /// Parses the body. Trailing bytes are ignored (newer minor fields).
    pub fn decode(buf: &[u8]) -> (res: Result<Self, DecodeError>)
        ensures
            match res {
                Ok(v) => decoded::<MediaFrameView>(buf@) == Ok::<MediaFrameView, DecodeError>(v@),
                Err(e) => decoded::<MediaFrameView>(buf@) == Err::<MediaFrameView, DecodeError>(e),
            },
    {
        broadcast use group_stuck;

        proof {
            reveal(MediaFrameView::fields);
        }
        let mut r = Reader::new(buf);
        let handle: u32 = r.u32_le()?;
        let generation: u64 = r.u64_le()?;
        let seq: u32 = r.u32_le()?;
        let data = slice_to_vec(r.bytes_raw()?);
        Ok(MediaFrame { session: SessionId { handle, generation }, seq, data })
    }
}

impl Dto for MediaFrame {
    fn to_payload(&self) -> (payload: Vec<u8>) {
        self.encode()
    }

    fn of_payload(buf: &[u8]) -> (res: Result<Self, DecodeError>) {
        Self::decode(buf)
    }
}

/// One decrypted codec payload from the peer, mirroring the core's flattened
/// encoded frame. The audio format (timing, profile) does not travel per
/// packet: the bridge fills it from the negotiated open params, refreshed on
/// `AudioCodecSwitched`, so the wire carries only what changes per frame.
#[derive(Debug, Clone, PartialEq, Eq)]
pub struct EncodedFrameDto {
    /// Codec of these bytes.
    pub codec: AudioCodecWire,
    /// Codec payload bytes.
    pub data: Vec<u8>,
    /// RTP payload type.
    pub payload_type: u8,
    /// RTP sequence number.
    pub sequence_number: u32,
    /// RTP timestamp.
    pub timestamp: u32,
    /// Marker bit: 0 or 1.
    pub marker: u8,
    /// Sender JID string, if any.
    pub sender: Option<String>,
    /// Sender device JID string, if any.
    pub device: Option<String>,
}

/// The values that a [`EncodedFrameDto`] carries.
#[verifier::ext_equal]
pub struct EncodedFrameDtoView {
    pub codec: AudioCodecWire,
    pub data: Seq<u8>,
    pub payload_type: u8,
    pub sequence_number: u32,
    pub timestamp: u32,
    pub marker: u8,
    pub sender: Option<Seq<char>>,
    pub device: Option<Seq<char>>,
}

impl View for EncodedFrameDto {
    type V = EncodedFrameDtoView;

    open spec fn view(&self) -> EncodedFrameDtoView {
        EncodedFrameDtoView {
            codec: self.codec,
            data: self.data@,
            payload_type: self.payload_type,
            sequence_number: self.sequence_number,
            timestamp: self.timestamp,
            marker: self.marker,
            sender: opt_view(self.sender),
            device: opt_view(self.device),
        }
    }
}

impl EncodedFrameDtoView {
    /// The fields as bytes, in wire order.
    #[verifier::opaque]
    pub open spec fn layout(self) -> Seq<u8> {
        seq![self.codec.tag()]
            + blob(self.data)
            + seq![self.payload_type]
            + le_u32(self.sequence_number)
            + le_u32(self.timestamp)
            + seq![self.marker]
            + opt_text(self.sender)
            + opt_text(self.device)
    }

    /// The fields, read in wire order.
    #[verifier::opaque]
    pub open spec fn fields(c: Cursor) -> (EncodedFrameDtoView, Cursor) {
        let (codec, c) = c.tag::<AudioCodecWire>("codec");
        let (data, c) = c.blob();
        let (payload_type, c) = c.u8();
        let (sequence_number, c) = c.u32();
        let (timestamp, c) = c.u32();
        let (marker, c) = c.byte_at_most("marker", 1);
        let (sender, c) = c.opt_text();
        let (device, c) = c.opt_text();
        (EncodedFrameDtoView { codec, data, payload_type, sequence_number, timestamp, marker, sender, device }, c)
    }
}

impl Body for EncodedFrameDtoView {
    open spec fn body_fits(self) -> bool {
        &&& blob_fits(self.data)
        &&& self.marker <= 1
        &&& opt_text_fits(self.sender)
        &&& opt_text_fits(self.device)
    }

    open spec fn body(self) -> Seq<u8> {
        self.layout()
    }

    open spec fn parse(c: Cursor) -> (EncodedFrameDtoView, Cursor) {
        EncodedFrameDtoView::fields(c)
    }

    proof fn body_written(self, tail: Seq<u8>) {
        broadcast use group_written;

        reveal(EncodedFrameDtoView::layout);
        reveal(EncodedFrameDtoView::fields);
    }

    proof fn parse_extends(s: Seq<u8>, more: Seq<u8>) {
        broadcast use {group_extends, group_stuck};

        reveal(EncodedFrameDtoView::fields);
        assert(Cursor::at(s + more) == extended(Cursor::at(s), more));
    }
}

impl EncodedFrameDto {
    /// Serializes the body.
    pub fn encode(&self) -> (payload: Vec<u8>)
        ensures
            payload@ == self@.body(),
    {
        broadcast use concat_empty;

        proof {
            reveal(EncodedFrameDtoView::layout);
        }
        let mut w = Writer::new();
        w.u8(self.codec.as_u8());
        w.bytes_raw(self.data.as_slice());
        w.u8(self.payload_type);
        w.u32_le(self.sequence_number);
        w.u32_le(self.timestamp);
        w.u8(self.marker);
        w.option_str(opt_str(&self.sender));
        w.option_str(opt_str(&self.device));
        w.finish()
    }

    /// Parses the body. Trailing bytes are ignored (newer minor fields).
    pub fn decode(buf: &[u8]) -> (res: Result<Self, DecodeError>)
        ensures
            match res {
                Ok(v) => decoded::<EncodedFrameDtoView>(buf@) == Ok::<EncodedFrameDtoView, DecodeError>(v@),
                Err(e) => decoded::<EncodedFrameDtoView>(buf@) == Err::<EncodedFrameDtoView, DecodeError>(e),
            },
    {
        broadcast use group_stuck;

        proof {
            reveal(EncodedFrameDtoView::fields);
        }
        let mut r = Reader::new(buf);
        let codec = enum_byte::<AudioCodecWire>("codec", &mut r)?;
        let data = slice_to_vec(r.bytes_raw()?);
        let payload_type: u8 = r.u8()?;
        let sequence_number: u32 = r.u32_le()?;
        let timestamp: u32 = r.u32_le()?;
        let marker: u8 = byte_at_most("marker", 1, &mut r)?;
        let sender = opt_owned(r.option_str()?);
        let device = opt_owned(r.option_str()?);
        Ok(EncodedFrameDto { codec, data, payload_type, sequence_number, timestamp, marker, sender, device })
    }
}

impl Dto for EncodedFrameDto {
    fn to_payload(&self) -> (payload: Vec<u8>) {
        self.encode()
    }

    fn of_payload(buf: &[u8]) -> (res: Result<Self, DecodeError>) {
        Self::decode(buf)
    }
}

/// One encoded audio packet out of the engine, with the RTP metadata the
/// core's encoded sink carries alongside the bytes.
#[derive(Debug, Clone, PartialEq, Eq)]
pub struct EncodedAudioOut {
    /// The session the packet belongs to.
    pub session: SessionId,
    /// Per-session sequence.
    pub seq: u32,
    /// The packet with its metadata.
    pub frame: EncodedFrameDto,
}

/// The values that a [`EncodedAudioOut`] carries.
#[verifier::ext_equal]
pub struct EncodedAudioOutView {
    pub session: SessionId,
    pub seq: u32,
    pub frame: EncodedFrameDtoView,
}

impl View for EncodedAudioOut {
    type V = EncodedAudioOutView;

    open spec fn view(&self) -> EncodedAudioOutView {
        EncodedAudioOutView {
            session: self.session,
            seq: self.seq,
            frame: self.frame@,
        }
    }
}

impl EncodedAudioOutView {
    /// The fields as bytes, in wire order.
    #[verifier::opaque]
    pub open spec fn layout(self) -> Seq<u8> {
        le_u32(self.session.handle)
            + le_u64(self.session.generation)
            + le_u32(self.seq)
            + blob(self.frame.body())
    }

    /// The fields, read in wire order.
    #[verifier::opaque]
    pub open spec fn fields(c: Cursor) -> (EncodedAudioOutView, Cursor) {
        let (handle, c) = c.u32();
        let (generation, c) = c.u64();
        let (seq, c) = c.u32();
        let (frame, c) = EncodedFrameDtoView::read(c);
        (EncodedAudioOutView { session: SessionId { handle, generation }, seq, frame }, c)
    }
}

impl Body for EncodedAudioOutView {
    open spec fn body_fits(self) -> bool {
        self.frame.fits()
    }

    open spec fn body(self) -> Seq<u8> {
        self.layout()
    }

    open spec fn parse(c: Cursor) -> (EncodedAudioOutView, Cursor) {
        EncodedAudioOutView::fields(c)
    }

    proof fn body_written(self, tail: Seq<u8>) {
        broadcast use group_written;

        reveal(EncodedAudioOutView::layout);
        reveal(EncodedAudioOutView::fields);
    }

    proof fn parse_extends(s: Seq<u8>, more: Seq<u8>) {
        broadcast use {group_extends, group_stuck};

        reveal(EncodedAudioOutView::fields);
        assert(Cursor::at(s + more) == extended(Cursor::at(s), more));
    }
}

impl EncodedAudioOut {
    /// Serializes the body.
    pub fn encode(&self) -> (payload: Vec<u8>)
        ensures
            payload@ == self@.body(),
    {
        broadcast use concat_empty;

        proof {
            reveal(EncodedAudioOutView::layout);
        }
        let mut w = Writer::new();
        w.u32_le(self.session.handle);
        w.u64_le(self.session.generation);
        w.u32_le(self.seq);
        let raw = self.frame.encode();
        w.bytes_raw(raw.as_slice());
        w.finish()
    }

    /// Parses the body. Trailing bytes are ignored (newer minor fields).
    pub fn decode(buf: &[u8]) -> (res: Result<Self, DecodeError>)
        ensures
            match res {
                Ok(v) => decoded::<EncodedAudioOutView>(buf@) == Ok::<EncodedAudioOutView, DecodeError>(v@),
                Err(e) => decoded::<EncodedAudioOutView>(buf@) == Err::<EncodedAudioOutView, DecodeError>(e),
            },
    {
        broadcast use group_stuck;

        proof {
            reveal(EncodedAudioOutView::fields);
        }
        let mut r = Reader::new(buf);
        let handle: u32 = r.u32_le()?;
        let generation: u64 = r.u64_le()?;
        let seq: u32 = r.u32_le()?;
        let frame = EncodedFrameDto::decode(r.bytes_raw()?)?;
        Ok(EncodedAudioOut { session: SessionId { handle, generation }, seq, frame })
    }
}

impl Dto for EncodedAudioOut {
    fn to_payload(&self) -> (payload: Vec<u8>) {
        self.encode()
    }

    fn of_payload(buf: &[u8]) -> (res: Result<Self, DecodeError>) {
        Self::decode(buf)
    }
}

/// One outbound video access unit with its capture metadata, mirroring the
/// core's timed video input. The untimed source feed has no timestamp or
/// input generation; `None` tells the engine to pace and accept freely.
#[derive(Debug, Clone, PartialEq, Eq)]
pub struct VideoInputDto {
    /// Annex-B access unit bytes.
    pub data: Vec<u8>,
    /// Capture timestamp in the 90 kHz RTP clock, if timed.
    pub timestamp: Option<u32>,
    /// Source generation, if the source assigns one.
    pub input_generation: Option<u64>,
}

/// The values that a [`VideoInputDto`] carries.
#[verifier::ext_equal]
pub struct VideoInputDtoView {
    pub data: Seq<u8>,
    pub timestamp: Option<u32>,
    pub input_generation: Option<u64>,
}

impl View for VideoInputDto {
    type V = VideoInputDtoView;

    open spec fn view(&self) -> VideoInputDtoView {
        VideoInputDtoView {
            data: self.data@,
            timestamp: self.timestamp,
            input_generation: self.input_generation,
        }
    }
}

impl VideoInputDtoView {
    /// The fields as bytes, in wire order.
    #[verifier::opaque]
    pub open spec fn layout(self) -> Seq<u8> {
        blob(self.data)
            + opt(self.timestamp)
            + opt(self.input_generation)
    }

    /// The fields, read in wire order.
    #[verifier::opaque]
    pub open spec fn fields(c: Cursor) -> (VideoInputDtoView, Cursor) {
        let (data, c) = c.blob();
        let (timestamp, c) = c.opt::<u32>("timestamp");
        let (input_generation, c) = c.opt::<u64>("input_generation");
        (VideoInputDtoView { data, timestamp, input_generation }, c)
    }
}

impl Body for VideoInputDtoView {
    open spec fn body_fits(self) -> bool {
        blob_fits(self.data)
    }

    open spec fn body(self) -> Seq<u8> {
        self.layout()
    }

    open spec fn parse(c: Cursor) -> (VideoInputDtoView, Cursor) {
        VideoInputDtoView::fields(c)
    }

    proof fn body_written(self, tail: Seq<u8>) {
        broadcast use group_written;

        reveal(VideoInputDtoView::layout);
        reveal(VideoInputDtoView::fields);
    }

    proof fn parse_extends(s: Seq<u8>, more: Seq<u8>) {
        broadcast use {group_extends, group_stuck};

        reveal(VideoInputDtoView::fields);
        assert(Cursor::at(s + more) == extended(Cursor::at(s), more));
    }
}

impl VideoInputDto {
    /// Serializes the body.
    pub fn encode(&self) -> (payload: Vec<u8>)
        ensures
            payload@ == self@.body(),
    {
        broadcast use concat_empty;

        proof {
            reveal(VideoInputDtoView::layout);
        }
        let mut w = Writer::new();
        w.bytes_raw(self.data.as_slice());
        encode_option_u32(&mut w, self.timestamp);
        encode_option_u64(&mut w, self.input_generation);
        w.finish()
    }

    /// Parses the body. Trailing bytes are ignored (newer minor fields).
    pub fn decode(buf: &[u8]) -> (res: Result<Self, DecodeError>)
        ensures
            match res {
                Ok(v) => decoded::<VideoInputDtoView>(buf@) == Ok::<VideoInputDtoView, DecodeError>(v@),
                Err(e) => decoded::<VideoInputDtoView>(buf@) == Err::<VideoInputDtoView, DecodeError>(e),
            },
    {
        broadcast use group_stuck;

        proof {
            reveal(VideoInputDtoView::fields);
        }
        let mut r = Reader::new(buf);
        let data = slice_to_vec(r.bytes_raw()?);
        let timestamp = decode_option_u32(&mut r, "timestamp")?;
        let input_generation = decode_option_u64(&mut r, "input_generation")?;
        Ok(VideoInputDto { data, timestamp, input_generation })
    }
}

impl Dto for VideoInputDto {
    fn to_payload(&self) -> (payload: Vec<u8>) {
        self.encode()
    }

    fn of_payload(buf: &[u8]) -> (res: Result<Self, DecodeError>) {
        Self::decode(buf)
    }
}

/// One outbound video access unit with its capture metadata.
#[derive(Debug, Clone, PartialEq, Eq)]
pub struct VideoIn {
    /// The session the unit belongs to.
    pub session: SessionId,
    /// Per-session sequence.
    pub seq: u32,
    /// The unit with its metadata.
    pub input: VideoInputDto,
}

/// The values that a [`VideoIn`] carries.
#[verifier::ext_equal]
pub struct VideoInView {
    pub session: SessionId,
    pub seq: u32,
    pub input: VideoInputDtoView,
}

impl View for VideoIn {
    type V = VideoInView;

    open spec fn view(&self) -> VideoInView {
        VideoInView {
            session: self.session,
            seq: self.seq,
            input: self.input@,
        }
    }
}

impl VideoInView {
    /// The fields as bytes, in wire order.
    #[verifier::opaque]
    pub open spec fn layout(self) -> Seq<u8> {
        le_u32(self.session.handle)
            + le_u64(self.session.generation)
            + le_u32(self.seq)
            + blob(self.input.body())
    }

    /// The fields, read in wire order.
    #[verifier::opaque]
    pub open spec fn fields(c: Cursor) -> (VideoInView, Cursor) {
        let (handle, c) = c.u32();
        let (generation, c) = c.u64();
        let (seq, c) = c.u32();
        let (input, c) = VideoInputDtoView::read(c);
        (VideoInView { session: SessionId { handle, generation }, seq, input }, c)
    }
}

impl Body for VideoInView {
    open spec fn body_fits(self) -> bool {
        self.input.fits()
    }

    open spec fn body(self) -> Seq<u8> {
        self.layout()
    }

    open spec fn parse(c: Cursor) -> (VideoInView, Cursor) {
        VideoInView::fields(c)
    }

    proof fn body_written(self, tail: Seq<u8>) {
        broadcast use group_written;

        reveal(VideoInView::layout);
        reveal(VideoInView::fields);
    }

    proof fn parse_extends(s: Seq<u8>, more: Seq<u8>) {
        broadcast use {group_extends, group_stuck};

        reveal(VideoInView::fields);
        assert(Cursor::at(s + more) == extended(Cursor::at(s), more));
    }
}

impl VideoIn {
    /// Serializes the body.
    pub fn encode(&self) -> (payload: Vec<u8>)
        ensures
            payload@ == self@.body(),
    {
        broadcast use concat_empty;

        proof {
            reveal(VideoInView::layout);
        }
        let mut w = Writer::new();
        w.u32_le(self.session.handle);
        w.u64_le(self.session.generation);
        w.u32_le(self.seq);
        let raw = self.input.encode();
        w.bytes_raw(raw.as_slice());
        w.finish()
    }

    /// Parses the body. Trailing bytes are ignored (newer minor fields).
    pub fn decode(buf: &[u8]) -> (res: Result<Self, DecodeError>)
        ensures
            match res {
                Ok(v) => decoded::<VideoInView>(buf@) == Ok::<VideoInView, DecodeError>(v@),
                Err(e) => decoded::<VideoInView>(buf@) == Err::<VideoInView, DecodeError>(e),
            },
    {
        broadcast use group_stuck;

        proof {
            reveal(VideoInView::fields);
        }
        let mut r = Reader::new(buf);
        let handle: u32 = r.u32_le()?;
        let generation: u64 = r.u64_le()?;
        let seq: u32 = r.u32_le()?;
        let input = VideoInputDto::decode(r.bytes_raw()?)?;
        Ok(VideoIn { session: SessionId { handle, generation }, seq, input })
    }
}

impl Dto for VideoIn {
    fn to_payload(&self) -> (payload: Vec<u8>) {
        self.encode()
    }

    fn of_payload(buf: &[u8]) -> (res: Result<Self, DecodeError>) {
        Self::decode(buf)
    }
}

/// One reassembled peer access unit, mirroring the core's video frame.
#[derive(Debug, Clone, PartialEq, Eq)]
pub struct VideoFrameDto {
    /// Annex-B access unit bytes.
    pub data: Vec<u8>,
    /// Carries an IDR/SPS/PPS NAL: 0 or 1.
    pub keyframe: u8,
    /// Rotation bits (0..3) from RTP metadata.
    pub orientation: u8,
    /// Group sender JID string. Absent on 1:1 video.
    pub sender: Option<String>,
    /// Group sender device JID string. Absent on 1:1 video.
    pub device: Option<String>,
    /// Relay participant id, if any.
    pub pid: Option<u32>,
}

/// The values that a [`VideoFrameDto`] carries.
#[verifier::ext_equal]
pub struct VideoFrameDtoView {
    pub data: Seq<u8>,
    pub keyframe: u8,
    pub orientation: u8,
    pub sender: Option<Seq<char>>,
    pub device: Option<Seq<char>>,
    pub pid: Option<u32>,
}

impl View for VideoFrameDto {
    type V = VideoFrameDtoView;

    open spec fn view(&self) -> VideoFrameDtoView {
        VideoFrameDtoView {
            data: self.data@,
            keyframe: self.keyframe,
            orientation: self.orientation,
            sender: opt_view(self.sender),
            device: opt_view(self.device),
            pid: self.pid,
        }
    }
}

impl VideoFrameDtoView {
    /// The fields as bytes, in wire order.
    #[verifier::opaque]
    pub open spec fn layout(self) -> Seq<u8> {
        blob(self.data)
            + seq![self.keyframe]
            + seq![self.orientation]
            + opt_text(self.sender)
            + opt_text(self.device)
            + opt(self.pid)
    }

    /// The fields, read in wire order.
    #[verifier::opaque]
    pub open spec fn fields(c: Cursor) -> (VideoFrameDtoView, Cursor) {
        let (data, c) = c.blob();
        let (keyframe, c) = c.byte_at_most("keyframe", 1);
        let (orientation, c) = c.byte_at_most("orientation", 3);
        let (sender, c) = c.opt_text();
        let (device, c) = c.opt_text();
        let (pid, c) = c.opt::<u32>("pid");
        (VideoFrameDtoView { data, keyframe, orientation, sender, device, pid }, c)
    }
}

impl Body for VideoFrameDtoView {
    open spec fn body_fits(self) -> bool {
        &&& blob_fits(self.data)
        &&& self.keyframe <= 1
        &&& self.orientation <= 3
        &&& opt_text_fits(self.sender)
        &&& opt_text_fits(self.device)
    }

    open spec fn body(self) -> Seq<u8> {
        self.layout()
    }

    open spec fn parse(c: Cursor) -> (VideoFrameDtoView, Cursor) {
        VideoFrameDtoView::fields(c)
    }

    proof fn body_written(self, tail: Seq<u8>) {
        broadcast use group_written;

        reveal(VideoFrameDtoView::layout);
        reveal(VideoFrameDtoView::fields);
    }

    proof fn parse_extends(s: Seq<u8>, more: Seq<u8>) {
        broadcast use {group_extends, group_stuck};

        reveal(VideoFrameDtoView::fields);
        assert(Cursor::at(s + more) == extended(Cursor::at(s), more));
    }
}

impl VideoFrameDto {
    /// Serializes the body.
    pub fn encode(&self) -> (payload: Vec<u8>)
        ensures
            payload@ == self@.body(),
    {
        broadcast use concat_empty;

        proof {
            reveal(VideoFrameDtoView::layout);
        }
        let mut w = Writer::new();
        w.bytes_raw(self.data.as_slice());
        w.u8(self.keyframe);
        w.u8(self.orientation);
        w.option_str(opt_str(&self.sender));
        w.option_str(opt_str(&self.device));
        encode_option_u32(&mut w, self.pid);
        w.finish()
    }

    /// Parses the body. Trailing bytes are ignored (newer minor fields).
    pub fn decode(buf: &[u8]) -> (res: Result<Self, DecodeError>)
        ensures
            match res {
                Ok(v) => decoded::<VideoFrameDtoView>(buf@) == Ok::<VideoFrameDtoView, DecodeError>(v@),
                Err(e) => decoded::<VideoFrameDtoView>(buf@) == Err::<VideoFrameDtoView, DecodeError>(e),
            },
    {
        broadcast use group_stuck;

        proof {
            reveal(VideoFrameDtoView::fields);
        }
        let mut r = Reader::new(buf);
        let data = slice_to_vec(r.bytes_raw()?);
        let keyframe: u8 = byte_at_most("keyframe", 1, &mut r)?;
        let orientation: u8 = byte_at_most("orientation", 3, &mut r)?;
        let sender = opt_owned(r.option_str()?);
        let device = opt_owned(r.option_str()?);
        let pid = decode_option_u32(&mut r, "pid")?;
        Ok(VideoFrameDto { data, keyframe, orientation, sender, device, pid })
    }
}

impl Dto for VideoFrameDto {
    fn to_payload(&self) -> (payload: Vec<u8>) {
        self.encode()
    }

    fn of_payload(buf: &[u8]) -> (res: Result<Self, DecodeError>) {
        Self::decode(buf)
    }
}

/// One reassembled peer access unit with its metadata.
#[derive(Debug, Clone, PartialEq, Eq)]
pub struct VideoOut {
    /// The session the unit belongs to.
    pub session: SessionId,
    /// Per-session sequence.
    pub seq: u32,
    /// The unit with its metadata.
    pub frame: VideoFrameDto,
}

/// The values that a [`VideoOut`] carries.
#[verifier::ext_equal]
pub struct VideoOutView {
    pub session: SessionId,
    pub seq: u32,
    pub frame: VideoFrameDtoView,
}

impl View for VideoOut {
    type V = VideoOutView;

    open spec fn view(&self) -> VideoOutView {
        VideoOutView {
            session: self.session,
            seq: self.seq,
            frame: self.frame@,
        }
    }
}

impl VideoOutView {
    /// The fields as bytes, in wire order.
    #[verifier::opaque]
    pub open spec fn layout(self) -> Seq<u8> {
        le_u32(self.session.handle)
            + le_u64(self.session.generation)
            + le_u32(self.seq)
            + blob(self.frame.body())
    }

    /// The fields, read in wire order.
    #[verifier::opaque]
    pub open spec fn fields(c: Cursor) -> (VideoOutView, Cursor) {
        let (handle, c) = c.u32();
        let (generation, c) = c.u64();
        let (seq, c) = c.u32();
        let (frame, c) = VideoFrameDtoView::read(c);
        (VideoOutView { session: SessionId { handle, generation }, seq, frame }, c)
    }
}

impl Body for VideoOutView {
    open spec fn body_fits(self) -> bool {
        self.frame.fits()
    }

    open spec fn body(self) -> Seq<u8> {
        self.layout()
    }

    open spec fn parse(c: Cursor) -> (VideoOutView, Cursor) {
        VideoOutView::fields(c)
    }

    proof fn body_written(self, tail: Seq<u8>) {
        broadcast use group_written;

        reveal(VideoOutView::layout);
        reveal(VideoOutView::fields);
    }

    proof fn parse_extends(s: Seq<u8>, more: Seq<u8>) {
        broadcast use {group_extends, group_stuck};

        reveal(VideoOutView::fields);
        assert(Cursor::at(s + more) == extended(Cursor::at(s), more));
    }
}

impl VideoOut {
    /// Serializes the body.
    pub fn encode(&self) -> (payload: Vec<u8>)
        ensures
            payload@ == self@.body(),
    {
        broadcast use concat_empty;

        proof {
            reveal(VideoOutView::layout);
        }
        let mut w = Writer::new();
        w.u32_le(self.session.handle);
        w.u64_le(self.session.generation);
        w.u32_le(self.seq);
        let raw = self.frame.encode();
        w.bytes_raw(raw.as_slice());
        w.finish()
    }

    /// Parses the body. Trailing bytes are ignored (newer minor fields).
    pub fn decode(buf: &[u8]) -> (res: Result<Self, DecodeError>)
        ensures
            match res {
                Ok(v) => decoded::<VideoOutView>(buf@) == Ok::<VideoOutView, DecodeError>(v@),
                Err(e) => decoded::<VideoOutView>(buf@) == Err::<VideoOutView, DecodeError>(e),
            },
    {
        broadcast use group_stuck;

        proof {
            reveal(VideoOutView::fields);
        }
        let mut r = Reader::new(buf);
        let handle: u32 = r.u32_le()?;
        let generation: u64 = r.u64_le()?;
        let seq: u32 = r.u32_le()?;
        let frame = VideoFrameDto::decode(r.bytes_raw()?)?;
        Ok(VideoOut { session: SessionId { handle, generation }, seq, frame })
    }
}

impl Dto for VideoOut {
    fn to_payload(&self) -> (payload: Vec<u8>) {
        self.encode()
    }

    fn of_payload(buf: &[u8]) -> (res: Result<Self, DecodeError>) {
        Self::decode(buf)
    }
}

} // verus!
