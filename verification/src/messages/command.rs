//! What the control plane asks of a live call.

use vstd::prelude::*;
use vstd::slice::slice_to_vec;

use crate::codec::{DecodeError, Reader, Writer};
use crate::messages::fields::{
    byte_at_most, decode_option_tag, encode_option_tag, enum_byte, opt_owned, opt_str, opt_view,
    Discriminant, Dto,
};
use crate::messages::group::{GroupCallUpdateDto, GroupCallUpdateDtoView};
use crate::messages::open::AudioCodecWire;
use crate::secret::SecretBytes;
use crate::session::SessionId;
use crate::wire::{
    blob, blob_fits, concat_empty, decoded, extended, group_extends, group_stuck, group_written,
    le_u32, le_u64, opt_tag, opt_text, opt_text_fits, text, text_fits, Body, Cursor, Piece, Tag,
};

verus! {

/// Keyframe urgency for a peer-keyframe request, mirroring the core's
/// neutral urgency enum.
#[derive(Debug, Clone, Copy, PartialEq, Eq, Structural)]
pub enum Urgency {
    /// Coalesce with the next scheduled request.
    Coalesced,
    /// Ask immediately.
    Immediate,
}

impl Tag for Urgency {
    open spec fn tag(self) -> u8 {
        match self {
            Urgency::Coalesced => 0,
            Urgency::Immediate => 1,
        }
    }

    open spec fn of_tag(b: u8) -> Option<Self> {
        match b {
            0 => Some(Urgency::Coalesced),
            1 => Some(Urgency::Immediate),
            _ => None,
        }
    }

    proof fn tag_inverse(self) {
    }

    proof fn of_tag_inverse(b: u8) {
    }
}

impl Discriminant for Urgency {
    fn to_byte(self) -> (b: u8) {
        self.as_u8()
    }

    fn of_byte(b: u8) -> (v: Option<Self>) {
        Self::from_u8(b)
    }
}

impl Urgency {
    /// The wire byte.
    pub fn as_u8(self) -> (b: u8)
        ensures
            b == self.tag(),
    {
        match self {
            Urgency::Coalesced => 0,
            Urgency::Immediate => 1,
        }
    }

    /// Parses a wire byte; unknown values fail rather than alias.
    pub fn from_u8(v: u8) -> (res: Option<Self>)
        ensures
            res == Self::of_tag(v),
    {
        match v {
            0 => Some(Urgency::Coalesced),
            1 => Some(Urgency::Immediate),
            _ => None,
        }
    }

    /// The written-down name, as a value.
    pub open spec fn name_spec(self) -> &'static str {
        match self {
            Urgency::Coalesced => "COALESCED",
            Urgency::Immediate => "IMMEDIATE",
        }
    }

    /// Written-down name, so that no derived rendering can rename the wire.
    pub fn name(self) -> (s: &'static str)
        ensures
            s == self.name_spec(),
    {
        match self {
            Urgency::Coalesced => "COALESCED",
            Urgency::Immediate => "IMMEDIATE",
        }
    }
}

/// One media command, mirroring the core's `MediaCommand`. The discriminant
/// is the wire; each variant's fields follow in order, append-only per
/// variant.
///
/// `AudioMute` is the one command the core never emits: mute travels in the
/// core as a shared flag, which cannot cross WASMs, so the bridge forwards
/// flag changes as this command from its watcher. It is bridge-originated,
/// never mapped from a core `submit`.
#[derive(Clone, PartialEq, Eq)]
pub enum MediaCommand {
    /// Bring the video plane up.
    VideoEnable,
    /// Bring the video plane up, holding outbound until the peer accepts.
    VideoEnableAwaitingAccept,
    /// Tear the video plane down.
    VideoDisable,
    /// Tear the video plane down, retaining legacy AUs for a reattach.
    VideoDisableKeepLegacy,
    /// Stop sending video while keeping inbound decoding.
    VideoDisableOutbound,
    /// Require the next outbound access unit to be an IDR.
    VideoRequireKeyframe,
    /// Ask the peer for a keyframe, with urgency.
    VideoRequestPeerKeyframe(Urgency),
    /// A device orientation: `None` is the peer itself, `Some` a routed
    /// group participant.
    VideoSetOrientation {
        /// Participant JID string, if any.
        participant: Option<String>,
        /// Rotation (0..3, x90 degrees).
        orientation: u8,
    },
    /// Select the source generation accepted by the input queue.
    VideoSetInputGeneration(u64),
    /// RTP clock increment per access unit.
    VideoSetTimestampStride(u32),
    /// Rekey the recv path to the answering device, adopting the audio codec
    /// its capability selected in the same step.
    RekeyRecv {
        /// Answering device LID.
        answering_lid: String,
        /// Codec to adopt, if the format changes with the rekey.
        audio_codec: Option<AudioCodecWire>,
    },
    /// A newer authoritative group roster/relay snapshot.
    GroupApplyUpdate(GroupCallUpdateDto),
    /// One roster snapshot and its decrypted epoch, indivisible.
    GroupApplyTransition {
        /// The roster snapshot.
        update: GroupCallUpdateDto,
        /// Transaction id pairing the two.
        transaction_id: u32,
        /// The decrypted epoch (secret).
        epoch: SecretBytes,
    },
    /// A decrypted epoch alone.
    GroupApplyEpoch {
        /// Transaction id.
        transaction_id: u32,
        /// The decrypted epoch (secret).
        epoch: SecretBytes,
    },
    /// One authenticated group reaction to broadcast.
    GroupSendReaction(String),
    /// Set the outbound mute flag (bridge-originated; see above).
    AudioMute(u8),
}

/// The values that a [`MediaCommand`] carries.
#[allow(inconsistent_fields)]
#[verifier::ext_equal]
pub enum MediaCommandView {
    VideoEnable,
    VideoEnableAwaitingAccept,
    VideoDisable,
    VideoDisableKeepLegacy,
    VideoDisableOutbound,
    VideoRequireKeyframe,
    VideoRequestPeerKeyframe(Urgency),
    VideoSetOrientation { participant: Option<Seq<char>>, orientation: u8 },
    VideoSetInputGeneration(u64),
    VideoSetTimestampStride(u32),
    RekeyRecv { answering_lid: Seq<char>, audio_codec: Option<AudioCodecWire> },
    GroupApplyUpdate(GroupCallUpdateDtoView),
    GroupApplyTransition { update: GroupCallUpdateDtoView, transaction_id: u32, epoch: Seq<u8> },
    GroupApplyEpoch { transaction_id: u32, epoch: Seq<u8> },
    GroupSendReaction(Seq<char>),
    AudioMute(u8),
}

impl View for MediaCommand {
    type V = MediaCommandView;

    open spec fn view(&self) -> MediaCommandView {
        match *self {
            MediaCommand::VideoEnable => MediaCommandView::VideoEnable,
            MediaCommand::VideoEnableAwaitingAccept => MediaCommandView::VideoEnableAwaitingAccept,
            MediaCommand::VideoDisable => MediaCommandView::VideoDisable,
            MediaCommand::VideoDisableKeepLegacy => MediaCommandView::VideoDisableKeepLegacy,
            MediaCommand::VideoDisableOutbound => MediaCommandView::VideoDisableOutbound,
            MediaCommand::VideoRequireKeyframe => MediaCommandView::VideoRequireKeyframe,
            MediaCommand::VideoRequestPeerKeyframe(urgency) => MediaCommandView::VideoRequestPeerKeyframe(urgency),
            MediaCommand::VideoSetOrientation { participant, orientation } => MediaCommandView::VideoSetOrientation { participant: opt_view(participant), orientation },
            MediaCommand::VideoSetInputGeneration(generation) => MediaCommandView::VideoSetInputGeneration(generation),
            MediaCommand::VideoSetTimestampStride(stride) => MediaCommandView::VideoSetTimestampStride(stride),
            MediaCommand::RekeyRecv { answering_lid, audio_codec } => MediaCommandView::RekeyRecv { answering_lid: answering_lid@, audio_codec },
            MediaCommand::GroupApplyUpdate(update) => MediaCommandView::GroupApplyUpdate(update@),
            MediaCommand::GroupApplyTransition { update, transaction_id, epoch } => MediaCommandView::GroupApplyTransition { update: update@, transaction_id, epoch: epoch@ },
            MediaCommand::GroupApplyEpoch { transaction_id, epoch } => MediaCommandView::GroupApplyEpoch { transaction_id, epoch: epoch@ },
            MediaCommand::GroupSendReaction(emoji) => MediaCommandView::GroupSendReaction(emoji@),
            MediaCommand::AudioMute(muted) => MediaCommandView::AudioMute(muted),
        }
    }
}

impl MediaCommandView {
    /// The discriminant byte.
    pub open spec fn kind(self) -> u8 {
        match self {
            MediaCommandView::VideoEnable => 3,
            MediaCommandView::VideoEnableAwaitingAccept => 4,
            MediaCommandView::VideoDisable => 5,
            MediaCommandView::VideoDisableKeepLegacy => 7,
            MediaCommandView::VideoDisableOutbound => 6,
            MediaCommandView::VideoRequireKeyframe => 13,
            MediaCommandView::VideoRequestPeerKeyframe(_) => 11,
            MediaCommandView::VideoSetOrientation { .. } => 10,
            MediaCommandView::VideoSetInputGeneration(_) => 8,
            MediaCommandView::VideoSetTimestampStride(_) => 9,
            MediaCommandView::RekeyRecv { .. } => 12,
            MediaCommandView::GroupApplyUpdate(_) => 20,
            MediaCommandView::GroupApplyTransition { .. } => 21,
            MediaCommandView::GroupApplyEpoch { .. } => 22,
            MediaCommandView::GroupSendReaction(_) => 23,
            MediaCommandView::AudioMute(_) => 30,
        }
    }

    /// The written-down name.
    pub open spec fn kind_name_spec(self) -> &'static str {
        match self {
            MediaCommandView::VideoEnable => "VIDEO_ENABLE",
            MediaCommandView::VideoEnableAwaitingAccept => "VIDEO_ENABLE_AWAITING_ACCEPT",
            MediaCommandView::VideoDisable => "VIDEO_DISABLE",
            MediaCommandView::VideoDisableKeepLegacy => "VIDEO_DISABLE_KEEP_LEGACY",
            MediaCommandView::VideoDisableOutbound => "VIDEO_DISABLE_OUTBOUND",
            MediaCommandView::VideoRequireKeyframe => "VIDEO_REQUIRE_KEYFRAME",
            MediaCommandView::VideoRequestPeerKeyframe(_) => "VIDEO_REQUEST_PEER_KEYFRAME",
            MediaCommandView::VideoSetOrientation { .. } => "VIDEO_SET_ORIENTATION",
            MediaCommandView::VideoSetInputGeneration(_) => "VIDEO_SET_INPUT_GENERATION",
            MediaCommandView::VideoSetTimestampStride(_) => "VIDEO_SET_TIMESTAMP_STRIDE",
            MediaCommandView::RekeyRecv { .. } => "REKEY_RECV",
            MediaCommandView::GroupApplyUpdate(_) => "GROUP_APPLY_UPDATE",
            MediaCommandView::GroupApplyTransition { .. } => "GROUP_APPLY_TRANSITION",
            MediaCommandView::GroupApplyEpoch { .. } => "GROUP_APPLY_EPOCH",
            MediaCommandView::GroupSendReaction(_) => "GROUP_SEND_REACTION",
            MediaCommandView::AudioMute(_) => "AUDIO_MUTE",
        }
    }

    /// The discriminant, then the variant's fields in wire order.
    #[verifier::opaque]
    pub open spec fn layout(self) -> Seq<u8> {
        match self {
            MediaCommandView::VideoEnable => seq![3u8],
            MediaCommandView::VideoEnableAwaitingAccept => seq![4u8],
            MediaCommandView::VideoDisable => seq![5u8],
            MediaCommandView::VideoDisableKeepLegacy => seq![7u8],
            MediaCommandView::VideoDisableOutbound => seq![6u8],
            MediaCommandView::VideoRequireKeyframe => seq![13u8],
            MediaCommandView::VideoRequestPeerKeyframe(urgency) => seq![11u8] + seq![urgency.tag()],
            MediaCommandView::VideoSetOrientation { participant, orientation } => seq![10u8] + opt_text(participant) + seq![orientation],
            MediaCommandView::VideoSetInputGeneration(generation) => seq![8u8] + le_u64(generation),
            MediaCommandView::VideoSetTimestampStride(stride) => seq![9u8] + le_u32(stride),
            MediaCommandView::RekeyRecv { answering_lid, audio_codec } => seq![12u8] + text(answering_lid) + opt_tag(audio_codec),
            MediaCommandView::GroupApplyUpdate(update) => seq![20u8] + blob(update.body()),
            MediaCommandView::GroupApplyTransition { update, transaction_id, epoch } => seq![21u8] + blob(update.body()) + le_u32(transaction_id) + blob(epoch),
            MediaCommandView::GroupApplyEpoch { transaction_id, epoch } => seq![22u8] + le_u32(transaction_id) + blob(epoch),
            MediaCommandView::GroupSendReaction(emoji) => seq![23u8] + text(emoji),
            MediaCommandView::AudioMute(muted) => seq![30u8] + seq![muted],
        }
    }

    /// The discriminant, then the fields it announces.
    #[verifier::opaque]
    pub open spec fn fields(c: Cursor) -> (MediaCommandView, Cursor) {
        let (kind, c) = c.u8();
        if c.err is Some {
            (arbitrary(), c)
        } else if kind == 3 {
            (MediaCommandView::VideoEnable, c)
        } else if kind == 4 {
            (MediaCommandView::VideoEnableAwaitingAccept, c)
        } else if kind == 5 {
            (MediaCommandView::VideoDisable, c)
        } else if kind == 6 {
            (MediaCommandView::VideoDisableOutbound, c)
        } else if kind == 7 {
            (MediaCommandView::VideoDisableKeepLegacy, c)
        } else if kind == 8 {
            let (generation, c) = c.u64();
            (MediaCommandView::VideoSetInputGeneration(generation), c)
        } else if kind == 9 {
            let (stride, c) = c.u32();
            (MediaCommandView::VideoSetTimestampStride(stride), c)
        } else if kind == 10 {
            let (participant, c) = c.opt_text();
            let (orientation, c) = c.u8();
            (MediaCommandView::VideoSetOrientation { participant, orientation }, c)
        } else if kind == 11 {
            let (urgency, c) = c.tag::<Urgency>("urgency");
            (MediaCommandView::VideoRequestPeerKeyframe(urgency), c)
        } else if kind == 12 {
            let (answering_lid, c) = c.text();
            let (audio_codec, c) = c.opt_tag::<AudioCodecWire>("audio_codec");
            (MediaCommandView::RekeyRecv { answering_lid, audio_codec }, c)
        } else if kind == 13 {
            (MediaCommandView::VideoRequireKeyframe, c)
        } else if kind == 20 {
            let (update, c) = GroupCallUpdateDtoView::read(c);
            (MediaCommandView::GroupApplyUpdate(update), c)
        } else if kind == 21 {
            let (update, c) = GroupCallUpdateDtoView::read(c);
            let (transaction_id, c) = c.u32();
            let (epoch, c) = c.blob();
            (MediaCommandView::GroupApplyTransition { update, transaction_id, epoch }, c)
        } else if kind == 22 {
            let (transaction_id, c) = c.u32();
            let (epoch, c) = c.blob();
            (MediaCommandView::GroupApplyEpoch { transaction_id, epoch }, c)
        } else if kind == 23 {
            let (emoji, c) = c.text();
            (MediaCommandView::GroupSendReaction(emoji), c)
        } else if kind == 30 {
            let (muted, c) = c.byte_at_most("muted", 1);
            (MediaCommandView::AudioMute(muted), c)
        } else {
            (arbitrary(), c.fail(DecodeError::BadValue { field: "command", value: kind }))
        }
    }
}

impl Body for MediaCommandView {
    open spec fn body_fits(self) -> bool {
        match self {
            MediaCommandView::VideoSetOrientation { participant, orientation } => opt_text_fits(participant),
            MediaCommandView::RekeyRecv { answering_lid, audio_codec } => text_fits(answering_lid),
            MediaCommandView::GroupApplyUpdate(update) => update.fits(),
            MediaCommandView::GroupApplyTransition { update, transaction_id, epoch } => {
                &&& update.fits()
                &&& blob_fits(epoch)
            },
            MediaCommandView::GroupApplyEpoch { transaction_id, epoch } => blob_fits(epoch),
            MediaCommandView::GroupSendReaction(emoji) => text_fits(emoji),
            MediaCommandView::AudioMute(muted) => muted <= 1,
            _ => true,
        }
    }

    open spec fn body(self) -> Seq<u8> {
        self.layout()
    }

    open spec fn parse(c: Cursor) -> (MediaCommandView, Cursor) {
        MediaCommandView::fields(c)
    }

    proof fn body_written(self, tail: Seq<u8>) {
        broadcast use group_written;

        reveal(MediaCommandView::layout);
        reveal(MediaCommandView::fields);
    }

    proof fn parse_extends(s: Seq<u8>, more: Seq<u8>) {
        broadcast use {group_extends, group_stuck};

        reveal(MediaCommandView::fields);
        assert(Cursor::at(s + more) == extended(Cursor::at(s), more));
    }
}

impl MediaCommand {
    /// The wire discriminant.
    pub fn kind_u8(&self) -> (b: u8)
        ensures
            b == self@.kind(),
    {
        match self {
            MediaCommand::VideoEnable => 3,
            MediaCommand::VideoEnableAwaitingAccept => 4,
            MediaCommand::VideoDisable => 5,
            MediaCommand::VideoDisableKeepLegacy => 7,
            MediaCommand::VideoDisableOutbound => 6,
            MediaCommand::VideoRequireKeyframe => 13,
            MediaCommand::VideoRequestPeerKeyframe(_) => 11,
            MediaCommand::VideoSetOrientation { .. } => 10,
            MediaCommand::VideoSetInputGeneration(_) => 8,
            MediaCommand::VideoSetTimestampStride(_) => 9,
            MediaCommand::RekeyRecv { .. } => 12,
            MediaCommand::GroupApplyUpdate(_) => 20,
            MediaCommand::GroupApplyTransition { .. } => 21,
            MediaCommand::GroupApplyEpoch { .. } => 22,
            MediaCommand::GroupSendReaction(_) => 23,
            MediaCommand::AudioMute(_) => 30,
        }
    }

    /// Written-down name.
    pub fn kind_name(&self) -> (s: &'static str)
        ensures
            s == self@.kind_name_spec(),
    {
        match self {
            MediaCommand::VideoEnable => "VIDEO_ENABLE",
            MediaCommand::VideoEnableAwaitingAccept => "VIDEO_ENABLE_AWAITING_ACCEPT",
            MediaCommand::VideoDisable => "VIDEO_DISABLE",
            MediaCommand::VideoDisableKeepLegacy => "VIDEO_DISABLE_KEEP_LEGACY",
            MediaCommand::VideoDisableOutbound => "VIDEO_DISABLE_OUTBOUND",
            MediaCommand::VideoRequireKeyframe => "VIDEO_REQUIRE_KEYFRAME",
            MediaCommand::VideoRequestPeerKeyframe(_) => "VIDEO_REQUEST_PEER_KEYFRAME",
            MediaCommand::VideoSetOrientation { .. } => "VIDEO_SET_ORIENTATION",
            MediaCommand::VideoSetInputGeneration(_) => "VIDEO_SET_INPUT_GENERATION",
            MediaCommand::VideoSetTimestampStride(_) => "VIDEO_SET_TIMESTAMP_STRIDE",
            MediaCommand::RekeyRecv { .. } => "REKEY_RECV",
            MediaCommand::GroupApplyUpdate(_) => "GROUP_APPLY_UPDATE",
            MediaCommand::GroupApplyTransition { .. } => "GROUP_APPLY_TRANSITION",
            MediaCommand::GroupApplyEpoch { .. } => "GROUP_APPLY_EPOCH",
            MediaCommand::GroupSendReaction(_) => "GROUP_SEND_REACTION",
            MediaCommand::AudioMute(_) => "AUDIO_MUTE",
        }
    }

    /// Serializes discriminant plus fields.
    pub fn encode(&self) -> (payload: Vec<u8>)
        ensures
            payload@ == self@.body(),
    {
        broadcast use concat_empty;

        proof {
            reveal(MediaCommandView::layout);
        }
        let mut w = Writer::new();
        w.u8(self.kind_u8());
        match self {
            MediaCommand::VideoRequestPeerKeyframe(urgency) => {
                w.u8(urgency.as_u8());
            },
            MediaCommand::VideoSetOrientation { participant, orientation } => {
                w.option_str(opt_str(participant));
                w.u8(*orientation);
            },
            MediaCommand::VideoSetInputGeneration(generation) => {
                w.u64_le(*generation);
            },
            MediaCommand::VideoSetTimestampStride(stride) => {
                w.u32_le(*stride);
            },
            MediaCommand::RekeyRecv { answering_lid, audio_codec } => {
                w.utf8(answering_lid.as_str());
                encode_option_tag(&mut w, *audio_codec);
            },
            MediaCommand::GroupApplyUpdate(update) => {
                let raw = update.encode();
                w.bytes_raw(raw.as_slice());
            },
            MediaCommand::GroupApplyTransition { update, transaction_id, epoch } => {
                let raw = update.encode();
                w.bytes_raw(raw.as_slice());
                w.u32_le(*transaction_id);
                w.bytes_raw(epoch.as_bytes());
            },
            MediaCommand::GroupApplyEpoch { transaction_id, epoch } => {
                w.u32_le(*transaction_id);
                w.bytes_raw(epoch.as_bytes());
            },
            MediaCommand::GroupSendReaction(emoji) => {
                w.utf8(emoji.as_str());
            },
            MediaCommand::AudioMute(muted) => {
                w.u8(*muted);
            },
            _ => {},
        }
        w.finish()
    }

    /// Parses discriminant plus fields. Trailing bytes are ignored.
    pub fn decode(buf: &[u8]) -> (res: Result<Self, DecodeError>)
        ensures
            match res {
                Ok(v) => decoded::<MediaCommandView>(buf@) == Ok::<MediaCommandView, DecodeError>(v@),
                Err(e) => decoded::<MediaCommandView>(buf@) == Err::<MediaCommandView, DecodeError>(e),
            },
    {
        broadcast use group_stuck;

        proof {
            reveal(MediaCommandView::fields);
        }
        let mut r = Reader::new(buf);
        let kind: u8 = r.u8()?;
        match kind {
            3 => Ok(MediaCommand::VideoEnable),
            4 => Ok(MediaCommand::VideoEnableAwaitingAccept),
            5 => Ok(MediaCommand::VideoDisable),
            6 => Ok(MediaCommand::VideoDisableOutbound),
            7 => Ok(MediaCommand::VideoDisableKeepLegacy),
            8 => {
                let generation: u64 = r.u64_le()?;
                Ok(MediaCommand::VideoSetInputGeneration(generation))
            },
            9 => {
                let stride: u32 = r.u32_le()?;
                Ok(MediaCommand::VideoSetTimestampStride(stride))
            },
            10 => {
                let participant = opt_owned(r.option_str()?);
                let orientation: u8 = r.u8()?;
                Ok(MediaCommand::VideoSetOrientation { participant, orientation })
            },
            11 => {
                let urgency = enum_byte::<Urgency>("urgency", &mut r)?;
                Ok(MediaCommand::VideoRequestPeerKeyframe(urgency))
            },
            12 => {
                let answering_lid = r.utf8()?.to_owned();
                let audio_codec = decode_option_tag::<AudioCodecWire>(&mut r, "audio_codec")?;
                Ok(MediaCommand::RekeyRecv { answering_lid, audio_codec })
            },
            13 => Ok(MediaCommand::VideoRequireKeyframe),
            20 => {
                let update = GroupCallUpdateDto::decode(r.bytes_raw()?)?;
                Ok(MediaCommand::GroupApplyUpdate(update))
            },
            21 => {
                let update = GroupCallUpdateDto::decode(r.bytes_raw()?)?;
                let transaction_id: u32 = r.u32_le()?;
                let epoch = SecretBytes::new(slice_to_vec(r.bytes_raw()?));
                Ok(MediaCommand::GroupApplyTransition { update, transaction_id, epoch })
            },
            22 => {
                let transaction_id: u32 = r.u32_le()?;
                let epoch = SecretBytes::new(slice_to_vec(r.bytes_raw()?));
                Ok(MediaCommand::GroupApplyEpoch { transaction_id, epoch })
            },
            23 => {
                let emoji = r.utf8()?.to_owned();
                Ok(MediaCommand::GroupSendReaction(emoji))
            },
            30 => {
                let muted: u8 = byte_at_most("muted", 1, &mut r)?;
                Ok(MediaCommand::AudioMute(muted))
            },
            _ => Err(DecodeError::BadValue { field: "command", value: kind }),
        }
    }
}

impl Dto for MediaCommand {
    fn to_payload(&self) -> (payload: Vec<u8>) {
        self.encode()
    }

    fn of_payload(buf: &[u8]) -> (res: Result<Self, DecodeError>) {
        Self::decode(buf)
    }
}

/// `COMMAND` request: one media command against a live session.
#[derive(Clone, PartialEq, Eq)]
pub struct CommandRequest {
    /// The session being commanded.
    pub session: SessionId,
    /// The command.
    pub command: MediaCommand,
}

/// The values that a [`CommandRequest`] carries.
#[verifier::ext_equal]
pub struct CommandRequestView {
    pub session: SessionId,
    pub command: MediaCommandView,
}

impl View for CommandRequest {
    type V = CommandRequestView;

    open spec fn view(&self) -> CommandRequestView {
        CommandRequestView {
            session: self.session,
            command: self.command@,
        }
    }
}

impl CommandRequestView {
    /// The fields as bytes, in wire order.
    #[verifier::opaque]
    pub open spec fn layout(self) -> Seq<u8> {
        le_u32(self.session.handle)
            + le_u64(self.session.generation)
            + blob(self.command.body())
    }

    /// The fields, read in wire order.
    #[verifier::opaque]
    pub open spec fn fields(c: Cursor) -> (CommandRequestView, Cursor) {
        let (handle, c) = c.u32();
        let (generation, c) = c.u64();
        let (command, c) = MediaCommandView::read(c);
        (CommandRequestView { session: SessionId { handle, generation }, command }, c)
    }
}

impl Body for CommandRequestView {
    open spec fn body_fits(self) -> bool {
        self.command.fits()
    }

    open spec fn body(self) -> Seq<u8> {
        self.layout()
    }

    open spec fn parse(c: Cursor) -> (CommandRequestView, Cursor) {
        CommandRequestView::fields(c)
    }

    proof fn body_written(self, tail: Seq<u8>) {
        broadcast use group_written;

        reveal(CommandRequestView::layout);
        reveal(CommandRequestView::fields);
    }

    proof fn parse_extends(s: Seq<u8>, more: Seq<u8>) {
        broadcast use {group_extends, group_stuck};

        reveal(CommandRequestView::fields);
        assert(Cursor::at(s + more) == extended(Cursor::at(s), more));
    }
}

impl CommandRequest {
    /// Serializes the body.
    pub fn encode(&self) -> (payload: Vec<u8>)
        ensures
            payload@ == self@.body(),
    {
        broadcast use concat_empty;

        proof {
            reveal(CommandRequestView::layout);
        }
        let mut w = Writer::new();
        w.u32_le(self.session.handle);
        w.u64_le(self.session.generation);
        let raw = self.command.encode();
        w.bytes_raw(raw.as_slice());
        w.finish()
    }

    /// Parses the body. Trailing bytes are ignored (newer minor fields).
    pub fn decode(buf: &[u8]) -> (res: Result<Self, DecodeError>)
        ensures
            match res {
                Ok(v) => decoded::<CommandRequestView>(buf@) == Ok::<CommandRequestView, DecodeError>(v@),
                Err(e) => decoded::<CommandRequestView>(buf@) == Err::<CommandRequestView, DecodeError>(e),
            },
    {
        broadcast use group_stuck;

        proof {
            reveal(CommandRequestView::fields);
        }
        let mut r = Reader::new(buf);
        let handle: u32 = r.u32_le()?;
        let generation: u64 = r.u64_le()?;
        let command = MediaCommand::decode(r.bytes_raw()?)?;
        Ok(CommandRequest { session: SessionId { handle, generation }, command })
    }
}

impl Dto for CommandRequest {
    fn to_payload(&self) -> (payload: Vec<u8>) {
        self.encode()
    }

    fn of_payload(buf: &[u8]) -> (res: Result<Self, DecodeError>) {
        Self::decode(buf)
    }
}

} // verus!
