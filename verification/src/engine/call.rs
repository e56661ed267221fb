//! One live call: what each intent asks of the engine, and what the frames
//! that reach it become.
//!
//! The engine itself, its mailboxes and the relay live outside. This side
//! decides what is put into which mailbox, and keeps what those decisions
//! depend on: the mute gate, whether there is a group plane, and whether the
//! rekey mailbox still has a reader.

use vstd::prelude::*;
use vstd::slice::slice_to_vec;

use crate::engine::jid::{jid_of, parse_jid};
use crate::engine::neutral::{
    GroupCallUpdate, GroupCallUpdateView, Jid, JidView, MediaAudioCodec, MediaAudioFormat,
    MediaKeyframeUrgency, OpenCtx, OpenError, OpenErrorView,
};
use crate::engine::opus::{encoded_input, encoded_input_packet};
use crate::engine::project::copy_bytes;
use crate::engine::spec::{codec_from_wire, codec_of, group_update_from_dto, update_of};
use crate::messages::command::{MediaCommand, MediaCommandView, Urgency};
use crate::messages::fields::{opt_view, rotations, views};
use crate::messages::group::GroupCallUpdateDto;
use crate::messages::media::{MediaFrame, VideoInputDto, VideoInputDtoView};
use crate::protocol::AbiErrorCode;
use crate::session::SessionId;

verus! {

/// One intent for the video mailbox.
#[derive(Debug, Clone, PartialEq, Eq)]
pub enum VideoControl {
    /// Bring the video plane up.
    Enable,
    /// Bring it up, holding outbound until the peer accepts.
    EnableAwaitingAccept,
    /// Tear it down.
    Disable,
    /// Tear it down, retaining legacy units.
    DisableKeepLegacy,
    /// Stop sending, keep decoding.
    DisableOutbound,
    /// The next outbound unit must be an IDR.
    RequireKeyframe,
    /// Ask the peer for a keyframe.
    RequestPeerKeyframe(MediaKeyframeUrgency),
    /// The peer's own rotation.
    SetOrientation(u8),
    /// A routed participant's rotation.
    SetParticipantOrientation {
        /// Whose.
        participant: Jid,
        /// Which.
        orientation: u8,
    },
    /// The source generation to accept.
    SetInputGeneration(u64),
    /// RTP clock increment per access unit.
    SetTimestampStride(u32),
}

/// The values that a [`VideoControl`] carries.
#[verifier::ext_equal]
pub enum VideoControlView {
    Enable,
    EnableAwaitingAccept,
    Disable,
    DisableKeepLegacy,
    DisableOutbound,
    RequireKeyframe,
    RequestPeerKeyframe(MediaKeyframeUrgency),
    SetOrientation(u8),
    SetParticipantOrientation { participant: JidView, orientation: u8 },
    SetInputGeneration(u64),
    SetTimestampStride(u32),
}

impl View for VideoControl {
    type V = VideoControlView;

    open spec fn view(&self) -> VideoControlView {
        match *self {
            VideoControl::Enable => VideoControlView::Enable,
            VideoControl::EnableAwaitingAccept => VideoControlView::EnableAwaitingAccept,
            VideoControl::Disable => VideoControlView::Disable,
            VideoControl::DisableKeepLegacy => VideoControlView::DisableKeepLegacy,
            VideoControl::DisableOutbound => VideoControlView::DisableOutbound,
            VideoControl::RequireKeyframe => VideoControlView::RequireKeyframe,
            VideoControl::RequestPeerKeyframe(x) => VideoControlView::RequestPeerKeyframe(x),
            VideoControl::SetOrientation(x) => VideoControlView::SetOrientation(x),
            VideoControl::SetParticipantOrientation { participant, orientation } => VideoControlView::SetParticipantOrientation { participant: participant@, orientation },
            VideoControl::SetInputGeneration(x) => VideoControlView::SetInputGeneration(x),
            VideoControl::SetTimestampStride(x) => VideoControlView::SetTimestampStride(x),
        }
    }
}

/// A decrypted group epoch.
#[derive(Clone, PartialEq, Eq)]
pub struct GroupRawEpoch {
    /// Transaction id.
    pub transaction_id: u32,
    /// The key.
    pub epoch: Vec<u8>,
}

/// The values that a [`GroupRawEpoch`] carries.
#[verifier::ext_equal]
pub struct GroupRawEpochView {
    pub transaction_id: u32,
    pub epoch: Seq<u8>,
}

impl View for GroupRawEpoch {
    type V = GroupRawEpochView;

    open spec fn view(&self) -> GroupRawEpochView {
        GroupRawEpochView {
            transaction_id: self.transaction_id,
            epoch: self.epoch@,
        }
    }
}

/// One intent for the group mailbox.
#[derive(Clone, PartialEq, Eq)]
pub enum GroupControl {
    /// A newer authoritative snapshot.
    Update(GroupCallUpdate),
    /// A snapshot and its epoch, indivisible.
    Transition {
        /// The snapshot.
        update: GroupCallUpdate,
        /// The epoch.
        epoch: GroupRawEpoch,
    },
    /// An epoch alone.
    RawEpoch(GroupRawEpoch),
    /// One reaction to broadcast.
    Reaction(String),
}

/// The values that a [`GroupControl`] carries.
#[verifier::ext_equal]
pub enum GroupControlView {
    Update(GroupCallUpdateView),
    Transition { update: GroupCallUpdateView, epoch: GroupRawEpochView },
    RawEpoch(GroupRawEpochView),
    Reaction(Seq<char>),
}

impl View for GroupControl {
    type V = GroupControlView;

    open spec fn view(&self) -> GroupControlView {
        match *self {
            GroupControl::Update(x) => GroupControlView::Update(x@),
            GroupControl::Transition { update, epoch } => GroupControlView::Transition { update: update@, epoch: epoch@ },
            GroupControl::RawEpoch(x) => GroupControlView::RawEpoch(x@),
            GroupControl::Reaction(x) => GroupControlView::Reaction(x@),
        }
    }
}

/// What a mailbox answered to an intent.
#[derive(Debug, Clone, Copy, PartialEq, Eq, Structural)]
pub enum MailboxAnswer {
    /// It took it.
    Taken,
    /// There was no room: backpressure.
    Full,
    /// Nobody reads it any more.
    Gone,
}

/// What the rekey mailbox takes: the answering device.
#[derive(Debug, Clone, PartialEq, Eq)]
pub struct PeerAnswer {
    /// Answering device LID.
    pub answering_lid: String,
    /// Codec to adopt, if the format changes.
    pub audio_codec: Option<MediaAudioCodec>,
}

/// The values that a [`PeerAnswer`] carries.
#[verifier::ext_equal]
pub struct PeerAnswerView {
    pub answering_lid: Seq<char>,
    pub audio_codec: Option<MediaAudioCodec>,
}

impl View for PeerAnswer {
    type V = PeerAnswerView;

    open spec fn view(&self) -> PeerAnswerView {
        PeerAnswerView {
            answering_lid: self.answering_lid@,
            audio_codec: self.audio_codec,
        }
    }
}

/// What a command asks for.
#[derive(Clone, PartialEq, Eq)]
pub enum Intent {
    /// Put this into the video mailbox.
    Video(VideoControl),
    /// Put this into the rekey mailbox.
    Rekey(PeerAnswer),
    /// Put this into the group mailbox.
    Group(GroupControl),
    /// Nothing more to do: the command was taken or refused.
    Settled(bool),
}

/// The values that a [`Intent`] carries.
#[verifier::ext_equal]
pub enum IntentView {
    Video(VideoControlView),
    Rekey(PeerAnswerView),
    Group(GroupControlView),
    Settled(bool),
}

impl View for Intent {
    type V = IntentView;

    open spec fn view(&self) -> IntentView {
        match *self {
            Intent::Video(x) => IntentView::Video(x@),
            Intent::Rekey(x) => IntentView::Rekey(x@),
            Intent::Group(x) => IntentView::Group(x@),
            Intent::Settled(x) => IntentView::Settled(x),
        }
    }
}

/// Which video mailbox an access unit goes to.
#[derive(Debug, Clone, PartialEq, Eq)]
pub enum VideoFeed {
    /// It carries its capture stamp.
    Timed {
        /// Access unit bytes.
        data: Vec<u8>,
        /// Capture timestamp.
        timestamp: u32,
        /// Source generation.
        generation: u64,
    },
    /// It paces freely.
    Untimed(Vec<u8>),
}

/// The values that a [`VideoFeed`] carries.
#[verifier::ext_equal]
pub enum VideoFeedView {
    Timed { data: Seq<u8>, timestamp: u32, generation: u64 },
    Untimed(Seq<u8>),
}

impl View for VideoFeed {
    type V = VideoFeedView;

    open spec fn view(&self) -> VideoFeedView {
        match *self {
            VideoFeed::Timed { data, timestamp, generation } => VideoFeedView::Timed { data: data@, timestamp, generation },
            VideoFeed::Untimed(x) => VideoFeedView::Untimed(x@),
        }
    }
}

/// What one running call keeps between frames.
#[derive(Debug, Clone, PartialEq, Eq)]
pub struct LiveCall {
    /// The session it belongs to.
    pub id: SessionId,
    /// The call it carries.
    pub call_id: String,
    /// The format it was opened with.
    pub format: MediaAudioFormat,
    /// Whether encoded input goes through the MLOW escape.
    pub opus_mlow_escape: bool,
    /// Whether there is a group plane.
    pub has_group: bool,
    /// Whether the rekey mailbox still has a reader.
    pub rekey_open: bool,
    /// Whether the microphone is gated.
    pub muted: bool,
}

/// The values that a [`LiveCall`] carries.
#[verifier::ext_equal]
pub struct LiveCallView {
    pub id: SessionId,
    pub call_id: Seq<char>,
    pub format: MediaAudioFormat,
    pub opus_mlow_escape: bool,
    pub has_group: bool,
    pub rekey_open: bool,
    pub muted: bool,
}

impl View for LiveCall {
    type V = LiveCallView;

    open spec fn view(&self) -> LiveCallView {
        LiveCallView {
            id: self.id,
            call_id: self.call_id@,
            format: self.format,
            opus_mlow_escape: self.opus_mlow_escape,
            has_group: self.has_group,
            rekey_open: self.rekey_open,
            muted: self.muted,
        }
    }
}

/// The sample that two little-endian bytes hold.
pub open spec fn sample(low: u8, high: u8) -> i16 {
    let bits = low as int + high as int * 256;
    if bits >= 0x8000 {
        (bits - 0x1_0000) as i16
    } else {
        bits as i16
    }
}

/// The samples of a PCM payload. A byte without its other half is no sample.
pub open spec fn samples(data: Seq<u8>) -> Seq<i16> {
    Seq::new((data.len() / 2) as nat, |i: int| sample(data[2 * i], data[2 * i + 1]))
}

/// A sample as two little-endian bytes.
pub open spec fn sample_bytes(s: i16) -> Seq<u8> {
    let bits = if s < 0 {
        s + 0x1_0000
    } else {
        s as int
    };
    seq![(bits % 256) as u8, (bits / 256) as u8]
}

/// The PCM payload of some samples.
pub open spec fn pcm_payload(s: Seq<i16>) -> Seq<u8>
    decreases s.len(),
{
    if s.len() == 0 {
        Seq::empty()
    } else {
        pcm_payload(s.drop_last()) + sample_bytes(s.last())
    }
}

/// What an announced rotation asks of the video mailbox: nothing, where the
/// participant's address does not parse.
pub open spec fn orientation_control(participant: Option<Seq<char>>, orientation: u8) -> Option<
    VideoControlView,
> {
    match participant {
        None => Some(VideoControlView::SetOrientation(orientation)),
        Some(who) => match jid_of(who) {
            Some(participant) => Some(
                VideoControlView::SetParticipantOrientation { participant, orientation },
            ),
            None => None,
        },
    }
}

/// What a list of announced rotations asks, in order, without the ones that
/// name nobody.
pub open spec fn orientation_controls(v: Seq<(Option<Seq<char>>, u8)>) -> Seq<VideoControlView>
    decreases v.len(),
{
    if v.len() == 0 {
        Seq::empty()
    } else {
        let before = orientation_controls(v.drop_last());
        match orientation_control(v.last().0, v.last().1) {
            Some(control) => before.push(control),
            None => before,
        }
    }
}

/// What a group intent asks, where there is a group plane and the snapshot
/// maps; it is refused otherwise.
pub open spec fn group_intent(has_group: bool, control: Option<GroupControlView>) -> IntentView {
    if !has_group {
        IntentView::Settled(false)
    } else {
        match control {
            Some(control) => IntentView::Group(control),
            None => IntentView::Settled(false),
        }
    }
}

/// A snapshot for a live call, where every address in it parses.
pub open spec fn live_update(
    update: crate::messages::group::GroupCallUpdateDtoView,
) -> Option<GroupCallUpdateView> {
    match update_of(update, "group JID refused: "@) {
        Ok(update) => Some(update),
        Err(_) => None,
    }
}

impl LiveCallView {
    /// What a command asks for on this call.
    pub open spec fn intent(self, command: MediaCommandView) -> IntentView {
        match command {
            MediaCommandView::VideoEnable => IntentView::Video(VideoControlView::Enable),
            MediaCommandView::VideoEnableAwaitingAccept => IntentView::Video(
                VideoControlView::EnableAwaitingAccept,
            ),
            MediaCommandView::VideoDisable => IntentView::Video(VideoControlView::Disable),
            MediaCommandView::VideoDisableKeepLegacy => IntentView::Video(
                VideoControlView::DisableKeepLegacy,
            ),
            MediaCommandView::VideoDisableOutbound => IntentView::Video(
                VideoControlView::DisableOutbound,
            ),
            MediaCommandView::VideoRequireKeyframe => IntentView::Video(
                VideoControlView::RequireKeyframe,
            ),
            MediaCommandView::VideoRequestPeerKeyframe(urgency) => IntentView::Video(
                VideoControlView::RequestPeerKeyframe(
                    match urgency {
                        Urgency::Coalesced => MediaKeyframeUrgency::Coalesced,
                        Urgency::Immediate => MediaKeyframeUrgency::Immediate,
                    },
                ),
            ),
            MediaCommandView::VideoSetOrientation { participant, orientation } => {
                match orientation_control(participant, orientation) {
                    Some(control) => IntentView::Video(control),
                    None => IntentView::Settled(false),
                }
            },
            MediaCommandView::VideoSetInputGeneration(generation) => IntentView::Video(
                VideoControlView::SetInputGeneration(generation),
            ),
            MediaCommandView::VideoSetTimestampStride(stride) => IntentView::Video(
                VideoControlView::SetTimestampStride(stride),
            ),
            MediaCommandView::RekeyRecv { answering_lid, audio_codec } => if self.rekey_open {
                IntentView::Rekey(
                    PeerAnswerView {
                        answering_lid,
                        audio_codec: match audio_codec {
                            None => None,
                            Some(c) => Some(codec_of(c)),
                        },
                    },
                )
            } else {
                IntentView::Settled(false)
            },
            MediaCommandView::GroupApplyUpdate(update) => group_intent(
                self.has_group,
                match live_update(update) {
                    Some(update) => Some(GroupControlView::Update(update)),
                    None => None,
                },
            ),
            MediaCommandView::GroupApplyTransition { update, transaction_id, epoch } =>
            group_intent(
                self.has_group,
                match live_update(update) {
                    Some(update) => Some(
                        GroupControlView::Transition {
                            update,
                            epoch: GroupRawEpochView { transaction_id, epoch },
                        },
                    ),
                    None => None,
                },
            ),
            MediaCommandView::GroupApplyEpoch { transaction_id, epoch } => group_intent(
                self.has_group,
                Some(GroupControlView::RawEpoch(GroupRawEpochView { transaction_id, epoch })),
            ),
            MediaCommandView::GroupSendReaction(emoji) => group_intent(
                self.has_group,
                Some(GroupControlView::Reaction(emoji)),
            ),
            MediaCommandView::AudioMute(_) => IntentView::Settled(true),
        }
    }

    /// The call after a command was looked at. Only the mute gate moves.
    pub open spec fn commanded(self, command: MediaCommandView) -> LiveCallView {
        match command {
            MediaCommandView::AudioMute(flag) => LiveCallView { muted: flag != 0, ..self },
            _ => self,
        }
    }

    /// The call once a mailbox answered. A rekey mailbox that nobody reads any
    /// more is let go; a full one stays, for the next rekey to try again.
    pub open spec fn answered(self, intent: IntentView, answer: MailboxAnswer) -> LiveCallView {
        match (intent, answer) {
            (IntentView::Rekey(_), MailboxAnswer::Gone) => LiveCallView {
                rekey_open: false,
                ..self
            },
            _ => self,
        }
    }

    /// What reaches the microphone mailbox for a PCM payload.
    pub open spec fn mic(self, data: Seq<u8>) -> Option<Seq<i16>> {
        if self.muted {
            None
        } else {
            Some(samples(data))
        }
    }
}

/// Where an access unit goes: with its stamp only where it has both the
/// timestamp and the generation.
pub open spec fn video_feed(input: VideoInputDtoView) -> VideoFeedView {
    match (input.timestamp, input.input_generation) {
        (Some(timestamp), Some(generation)) => VideoFeedView::Timed {
            data: input.data,
            timestamp,
            generation,
        },
        _ => VideoFeedView::Untimed(input.data),
    }
}

/// Reads the samples of a PCM payload.
pub fn pcm_samples(data: &[u8]) -> (out: Vec<i16>)
    ensures
        out@ == samples(data@),
{
    let mut out: Vec<i16> = Vec::new();
    let mut i: usize = 0;
    let n: usize = data.len() / 2;
    while i < n
        invariant
            i <= n,
            n == data@.len() / 2,
            out@ == samples(data@).take(i as int),
        decreases n - i,
    {
        assert(2 * i + 1 < data.len());
        let bits: u32 = data[2 * i] as u32 + data[2 * i + 1] as u32 * 256;
        let s: i16 = if bits >= 0x8000 {
            (bits as i32 - 0x1_0000) as i16
        } else {
            bits as i16
        };
        out.push(s);
        assert(out@ =~= samples(data@).take(i + 1));
        i += 1;
    }
    assert(out@ =~= samples(data@));
    out
}

/// Writes samples as a PCM payload.
pub fn pcm_bytes(samples: &Vec<i16>) -> (out: Vec<u8>)
    ensures
        out@ == pcm_payload(samples@),
{
    let mut out: Vec<u8> = Vec::new();
    let mut i: usize = 0;
    assert(samples@.take(0) =~= Seq::empty());
    while i < samples.len()
        invariant
            i <= samples.len(),
            out@ == pcm_payload(samples@.take(i as int)),
        decreases samples.len() - i,
    {
        let s: i16 = samples[i];
        let bits: u32 = if s < 0 {
            (s as i32 + 0x1_0000) as u32
        } else {
            s as u32
        };
        let ghost before = out@;
        out.push((bits % 256) as u8);
        out.push((bits / 256) as u8);
        proof {
            assert(samples@.take(i + 1).drop_last() =~= samples@.take(i as int));
            assert(out@ =~= before + sample_bytes(s));
        }
        i += 1;
    }
    assert(samples@.take(i as int) =~= samples@);
    out
}

/// A payload written from samples reads back as those samples.
pub proof fn pcm_round_trip(s: Seq<i16>)
    ensures
        samples(pcm_payload(s)) == s,
        pcm_payload(s).len() == 2 * s.len(),
    decreases s.len(),
{
    if s.len() > 0 {
        let before = pcm_payload(s.drop_last());
        let all = pcm_payload(s);
        pcm_round_trip(s.drop_last());
        let n = (s.len() - 1) as int;
        assert forall|i: int| 0 <= i < s.len() implies samples(all)[i] == s[i] by {
            if i < n {
                assert(all[2 * i] == before[2 * i] && all[2 * i + 1] == before[2 * i + 1]);
                assert(samples(all)[i] == samples(before)[i]);
                assert(s.drop_last()[i] == s[i]);
            } else {
                assert(all[2 * i] == sample_bytes(s.last())[0]);
                assert(all[2 * i + 1] == sample_bytes(s.last())[1]);
            }
        }
    }
    assert(samples(pcm_payload(s)) =~= s);
}

fn orientation_to_control(participant: &Option<String>, orientation: u8) -> (c: Option<VideoControl>)
    ensures
        opt_view(c) == orientation_control(opt_view(*participant), orientation),
{
    match participant {
        None => Some(VideoControl::SetOrientation(orientation)),
        Some(who) => match parse_jid(who.as_str()) {
            Some(participant) => Some(
                VideoControl::SetParticipantOrientation { participant, orientation },
            ),
            None => None,
        },
    }
}

impl LiveCall {
    /// Feeds one inbound PCM frame to the microphone, unless the call is
    /// muted.
    pub fn pcm_in(&self, frame: &MediaFrame) -> (out: Option<Vec<i16>>)
        ensures
            match out {
                Some(s) => self@.mic(frame@.data) == Some(s@),
                None => self@.mic(frame@.data) is None,
            },
            out is None <==> self.muted,
            out matches Some(s) ==> s@.len() == frame.data@.len() / 2,
    {
        if self.muted {
            return None;
        }
        Some(pcm_samples(frame.data.as_slice()))
    }

    /// Feeds one encoded packet to the engine, where it may reach it.
    pub fn encoded_in(&self, data: &[u8]) -> (packet: Option<Vec<u8>>)
        ensures
            match packet {
                Some(p) => encoded_input(data@, self@.opus_mlow_escape) == Some(p@),
                None => encoded_input(data@, self@.opus_mlow_escape) is None,
            },
            !self@.opus_mlow_escape ==> (packet matches Some(p) && p@ == data@),
    {
        encoded_input_packet(data, self.opus_mlow_escape)
    }

    /// Feeds one outbound access unit to a video mailbox: timed units carry
    /// their capture stamp, untimed ones pace freely.
    pub fn video_in(&self, input: &VideoInputDto) -> (feed: VideoFeed)
        ensures
            feed@ == video_feed(input@),
            match feed {
                VideoFeed::Timed { data, timestamp, generation } => data@ == input.data@
                    && input.timestamp == Some(timestamp) && input.input_generation == Some(
                    generation,
                ),
                VideoFeed::Untimed(data) => data@ == input.data@ && (input.timestamp is None
                    || input.input_generation is None),
            },
    {
        match (input.timestamp, input.input_generation) {
            (Some(timestamp), Some(generation)) => VideoFeed::Timed {
                data: copy_bytes(&input.data),
                timestamp,
                generation,
            },
            _ => VideoFeed::Untimed(copy_bytes(&input.data)),
        }
    }

    /// Replays the rotations that peers announced before media attached. An
    /// address that does not parse drops that entry rather than fails the
    /// open: one bad rotation must not cost the call.
    pub fn replay_orientations(&self, orientations: &Vec<(Option<String>, u8)>) -> (out: Vec<
        VideoControl,
    >)
        ensures
            views(out@) == orientation_controls(rotations(orientations@)),
    {
        let ghost all = rotations(orientations@);
        let mut out: Vec<VideoControl> = Vec::new();
        let mut i: usize = 0;
        proof {
            assert(all.take(0) =~= Seq::empty());
            assert(views(out@) =~= Seq::empty());
        }
        while i < orientations.len()
            invariant
                i <= orientations.len(),
                all == rotations(orientations@),
                views(out@) == orientation_controls(all.take(i as int)),
            decreases orientations.len() - i,
        {
            let ghost before = out@;
            proof {
                assert(all.take(i + 1).drop_last() =~= all.take(i as int));
                assert(all.take(i + 1).last() == all[i as int]);
            }
            match orientation_to_control(&orientations[i].0, orientations[i].1) {
                Some(control) => {
                    out.push(control);
                    assert(views(out@) =~= views(before).push(control@));
                },
                None => {},
            }
            i += 1;
        }
        assert(all.take(i as int) =~= all);
        out
    }

    /// Applies one control intent to the call: what it asks of which mailbox.
    /// Mute flips the local gate that the microphone reads. A group intent on
    /// a call with no group plane is refused, and so is one whose snapshot
    /// names an address that does not parse.
    pub fn command(&mut self, command: MediaCommand) -> (intent: Intent)
        ensures
            intent@ == old(self)@.intent(command@),
            final(self)@ == old(self)@.commanded(command@),
            command is VideoEnable ==> intent == Intent::Video(VideoControl::Enable),
            command is VideoEnableAwaitingAccept ==> intent == Intent::Video(
                VideoControl::EnableAwaitingAccept,
            ),
            command is VideoDisable ==> intent == Intent::Video(VideoControl::Disable),
            command is VideoDisableKeepLegacy ==> intent == Intent::Video(
                VideoControl::DisableKeepLegacy,
            ),
            command is VideoDisableOutbound ==> intent == Intent::Video(
                VideoControl::DisableOutbound,
            ),
            command is VideoRequireKeyframe ==> intent == Intent::Video(
                VideoControl::RequireKeyframe,
            ),
            command matches MediaCommand::VideoRequestPeerKeyframe(urgency) ==> (intent
                matches Intent::Video(VideoControl::RequestPeerKeyframe(asked)) && (urgency
                is Immediate <==> asked is Immediate)),
            command matches MediaCommand::VideoSetInputGeneration(g) ==> intent == Intent::Video(
                VideoControl::SetInputGeneration(g),
            ),
            command matches MediaCommand::VideoSetTimestampStride(n) ==> intent == Intent::Video(
                VideoControl::SetTimestampStride(n),
            ),
            command matches MediaCommand::RekeyRecv { answering_lid, audio_codec } ==> (if old(
                self,
            ).rekey_open {
                intent matches Intent::Rekey(answer) && answer.answering_lid@ == answering_lid@
                    && (audio_codec is Some <==> answer.audio_codec is Some)
            } else {
                intent == Intent::Settled(false)
            }),
            command matches MediaCommand::GroupSendReaction(emoji) ==> (if old(self).has_group {
                intent matches Intent::Group(GroupControl::Reaction(sent)) && sent@ == emoji@
            } else {
                intent == Intent::Settled(false)
            }),
            command matches MediaCommand::GroupApplyEpoch { transaction_id, epoch } ==> (if old(
                self,
            ).has_group {
                intent matches Intent::Group(GroupControl::RawEpoch(sent)) && sent.transaction_id
                    == transaction_id && sent.epoch@ == epoch@
            } else {
                intent == Intent::Settled(false)
            }),
            command matches MediaCommand::AudioMute(flag) ==> intent == Intent::Settled(true)
                && final(self).muted == (flag != 0),
            !(command is AudioMute) ==> final(self).muted == old(self).muted,
            final(self).rekey_open == old(self).rekey_open,
            final(self).has_group == old(self).has_group,
            final(self).id == old(self).id,
    {
        match command {
            MediaCommand::VideoEnable => Intent::Video(VideoControl::Enable),
            MediaCommand::VideoEnableAwaitingAccept => Intent::Video(
                VideoControl::EnableAwaitingAccept,
            ),
            MediaCommand::VideoDisable => Intent::Video(VideoControl::Disable),
            MediaCommand::VideoDisableKeepLegacy => Intent::Video(VideoControl::DisableKeepLegacy),
            MediaCommand::VideoDisableOutbound => Intent::Video(VideoControl::DisableOutbound),
            MediaCommand::VideoRequireKeyframe => Intent::Video(VideoControl::RequireKeyframe),
            MediaCommand::VideoRequestPeerKeyframe(urgency) => Intent::Video(
                VideoControl::RequestPeerKeyframe(
                    match urgency {
                        Urgency::Coalesced => MediaKeyframeUrgency::Coalesced,
                        Urgency::Immediate => MediaKeyframeUrgency::Immediate,
                    },
                ),
            ),
            MediaCommand::VideoSetOrientation { participant, orientation } => {
                match orientation_to_control(&participant, orientation) {
                    Some(control) => Intent::Video(control),
                    None => Intent::Settled(false),
                }
            },
            MediaCommand::VideoSetInputGeneration(generation) => Intent::Video(
                VideoControl::SetInputGeneration(generation),
            ),
            MediaCommand::VideoSetTimestampStride(stride) => Intent::Video(
                VideoControl::SetTimestampStride(stride),
            ),
            MediaCommand::RekeyRecv { answering_lid, audio_codec } => {
                if !self.rekey_open {
                    return Intent::Settled(false);
                }
                Intent::Rekey(
                    PeerAnswer {
                        answering_lid,
                        audio_codec: match audio_codec {
                            None => None,
                            Some(c) => Some(codec_from_wire(c)),
                        },
                    },
                )
            },
            MediaCommand::GroupApplyUpdate(update) => {
                if !self.has_group {
                    return Intent::Settled(false);
                }
                match group_update_from_dto(&update) {
                    Ok(parsed) => Intent::Group(GroupControl::Update(parsed)),
                    Err(_) => Intent::Settled(false),
                }
            },
            MediaCommand::GroupApplyTransition { update, transaction_id, epoch } => {
                if !self.has_group {
                    return Intent::Settled(false);
                }
                match group_update_from_dto(&update) {
                    Ok(parsed) => Intent::Group(
                        GroupControl::Transition {
                            update: parsed,
                            epoch: GroupRawEpoch {
                                transaction_id,
                                epoch: slice_to_vec(epoch.as_bytes()),
                            },
                        },
                    ),
                    Err(_) => Intent::Settled(false),
                }
            },
            MediaCommand::GroupApplyEpoch { transaction_id, epoch } => {
                if !self.has_group {
                    return Intent::Settled(false);
                }
                Intent::Group(
                    GroupControl::RawEpoch(
                        GroupRawEpoch { transaction_id, epoch: slice_to_vec(epoch.as_bytes()) },
                    ),
                )
            },
            MediaCommand::GroupSendReaction(emoji) => {
                if !self.has_group {
                    return Intent::Settled(false);
                }
                Intent::Group(GroupControl::Reaction(emoji))
            },
            MediaCommand::AudioMute(flag) => {
                self.muted = flag != 0;
                Intent::Settled(true)
            },
        }
    }

    /// Takes a mailbox's answer to an intent. The rekey mailbox goes only where
    /// nobody reads it any more.
    pub fn answer(&mut self, intent: &Intent, answer: MailboxAnswer)
        ensures
            final(self)@ == old(self)@.answered(intent@, answer),
            final(self).rekey_open == (old(self).rekey_open && !(intent is Rekey && answer
                is Gone)),
            final(self).muted == old(self).muted,
    {
        match (intent, answer) {
            (Intent::Rekey(_), MailboxAnswer::Gone) => {
                self.rekey_open = false;
            },
            _ => {},
        }
    }

    /// Answers the admission probe: a live group plane admits, a one-to-one
    /// call fits no roster. The delivery answer stays authoritative.
    pub fn group_fits(&self, update: &GroupCallUpdateDto) -> (verdict: (u8, u32))
        ensures
            verdict == if self@.has_group {
                (1u8, 0u32)
            } else {
                (0u8, 0u32)
            },
    {
        if self.has_group {
            (1, 0)
        } else {
            (0, 0)
        }
    }

    /// Ends the call, naming what it was.
    pub fn close(self) -> (out: (SessionId, String))
        ensures
            out.0 == self@.id,
            out.1@ == self@.call_id,
            out.0 == self.id,
            out.1@ == self.call_id@,
    {
        (self.id, self.call_id)
    }

    /// The call that an open leaves running.
    pub fn opened(
        id: SessionId,
        call_id: String,
        format: MediaAudioFormat,
        opus_mlow_escape: bool,
        has_group: bool,
        ctx: &OpenCtx,
    ) -> (call: Self)
        ensures
            call@ == (LiveCallView {
                id,
                call_id: call_id@,
                format,
                opus_mlow_escape,
                has_group,
                rekey_open: true,
                muted: ctx@.muted,
            }),
    {
        LiveCall {
            id,
            call_id,
            format,
            opus_mlow_escape,
            has_group,
            rekey_open: true,
            muted: ctx.muted,
        }
    }
}

/// Whether a format sends encoded input through the MLOW escape.
pub fn needs_opus_mlow_escape(format: MediaAudioFormat) -> (b: bool)
    ensures
        b == (format == MediaAudioFormat::opus_mlow_spec()),
{
    format == MediaAudioFormat::opus_mlow_16khz_60ms()
}

/// The format a call runs with: the engine's own, or its native one.
pub fn engine_format(active: Option<MediaAudioFormat>) -> (f: MediaAudioFormat)
    ensures
        f == match active {
            Some(f) => f,
            None => MediaAudioFormat::mlow_spec(),
        },
{
    match active {
        Some(f) => f,
        None => MediaAudioFormat::mlow_16khz_60ms(),
    }
}

impl OpenErrorView {
    /// The wire code of a refusal: what reached the transport is the
    /// transport's, bad params are the sender's, the rest is internal.
    pub open spec fn code(self) -> AbiErrorCode {
        match self {
            OpenErrorView::Spec(_) => AbiErrorCode::BadPayload,
            OpenErrorView::Endpoint => AbiErrorCode::Transport,
            OpenErrorView::Relay(_) => AbiErrorCode::Transport,
            OpenErrorView::Engine(_) => AbiErrorCode::Internal,
        }
    }
}

impl OpenError {
    /// The wire code that rides beside the refusal.
    pub fn code(&self) -> (c: AbiErrorCode)
        ensures
            c == self@.code(),
            c is BadPayload <==> self is Spec,
            c is Transport <==> (self is Endpoint || self is Relay),
            c is Internal <==> self is Engine,
    {
        match self {
            OpenError::Spec(_) => AbiErrorCode::BadPayload,
            OpenError::Endpoint | OpenError::Relay(_) => AbiErrorCode::Transport,
            OpenError::Engine(_) => AbiErrorCode::Internal,
        }
    }
}

/// Mute is a gate: once set nothing reaches the microphone, and once lifted
/// every sample does.
pub proof fn mute_gates_the_microphone(call: LiveCallView, flag: u8, data: Seq<u8>)
    ensures
        call.commanded(MediaCommandView::AudioMute(flag)).mic(data) == if flag != 0 {
            None::<Seq<i16>>
        } else {
            Some(samples(data))
        },
{
}

/// A call without a group plane refuses every group intent, whatever it says,
/// and stays as it is.
pub proof fn group_intents_need_a_group_plane(call: LiveCallView, command: MediaCommandView)
    requires
        !call.has_group,
        command is GroupApplyUpdate || command is GroupApplyTransition || command
            is GroupApplyEpoch || command is GroupSendReaction,
    ensures
        call.intent(command) == IntentView::Settled(false),
        call.commanded(command) == call,
{
}

/// A full rekey mailbox is backpressure: the call stays as it is, and the next
/// rekey is offered as the first would have been.
pub proof fn a_full_mailbox_takes_the_next_rekey(
    call: LiveCallView,
    first: MediaCommandView,
    second: MediaCommandView,
)
    requires
        call.rekey_open,
        first is RekeyRecv,
        second is RekeyRecv,
    ensures
        call.commanded(first).answered(call.intent(first), MailboxAnswer::Full) == call,
        call.intent(second) is Rekey,
{
}

} // verus!
