//! What a command means for a live call, and what its frames hold.

use vstd::prelude::*;

use crate::engine::call::{
    orientation_control, orientation_controls, pcm_payload, pcm_round_trip, sample, sample_bytes,
    samples, video_feed, GroupControlView, IntentView, LiveCallView, MailboxAnswer, PeerAnswerView,
    VideoControlView, VideoFeedView,
};
use crate::engine::jid::jid_of;
use crate::engine::neutral::{
    MediaAudioCodec, MediaKeyframeUrgency, OpenErrorView,
};
use crate::engine::spec::update_of;
use crate::messages::command::{MediaCommandView, Urgency};
use crate::messages::group::GroupCallUpdateDtoView;
use crate::messages::media::VideoInputDtoView;
use crate::messages::open::AudioCodecWire;
use crate::protocol::AbiErrorCode;

verus! {

/// Whether a command turns video off, wholly or in part.
pub open spec fn turns_video_off(command: MediaCommandView) -> bool {
    command is VideoDisable || command is VideoDisableKeepLegacy || command is VideoDisableOutbound
}

/// Whether a control turns video off, wholly or in part.
pub open spec fn stops_video(control: VideoControlView) -> bool {
    control is Disable || control is DisableKeepLegacy || control is DisableOutbound
}

/// Whether a command turns video on.
pub open spec fn turns_video_on(command: MediaCommandView) -> bool {
    command is VideoEnable || command is VideoEnableAwaitingAccept
}

/// Whether a control turns video on.
pub open spec fn starts_video(control: VideoControlView) -> bool {
    control is Enable || control is EnableAwaitingAccept
}

/// Whether a command is for the video mailbox.
pub open spec fn about_video(command: MediaCommandView) -> bool {
    ||| turns_video_on(command)
    ||| turns_video_off(command)
    ||| command is VideoRequireKeyframe
    ||| command is VideoRequestPeerKeyframe
    ||| command is VideoSetOrientation
    ||| command is VideoSetInputGeneration
    ||| command is VideoSetTimestampStride
}

/// A call asks for exactly this of its video mailbox.
pub open spec fn asks(call: LiveCallView, command: MediaCommandView, control: VideoControlView) -> bool {
    call.intent(command) == IntentView::Video(control)
}

/// Each video command reaches the video mailbox as the control of the same
/// meaning, on every call.
pub proof fn a_video_command_keeps_its_meaning(call: LiveCallView)
    ensures
        asks(call, MediaCommandView::VideoEnable, VideoControlView::Enable),
        asks(
            call,
            MediaCommandView::VideoEnableAwaitingAccept,
            VideoControlView::EnableAwaitingAccept,
        ),
        asks(call, MediaCommandView::VideoDisable, VideoControlView::Disable),
        asks(call, MediaCommandView::VideoDisableKeepLegacy, VideoControlView::DisableKeepLegacy),
        asks(call, MediaCommandView::VideoDisableOutbound, VideoControlView::DisableOutbound),
        asks(call, MediaCommandView::VideoRequireKeyframe, VideoControlView::RequireKeyframe),
        asks(
            call,
            MediaCommandView::VideoRequestPeerKeyframe(Urgency::Coalesced),
            VideoControlView::RequestPeerKeyframe(MediaKeyframeUrgency::Coalesced),
        ),
        asks(
            call,
            MediaCommandView::VideoRequestPeerKeyframe(Urgency::Immediate),
            VideoControlView::RequestPeerKeyframe(MediaKeyframeUrgency::Immediate),
        ),
        forall|g: u64|
            #[trigger] asks(
                call,
                MediaCommandView::VideoSetInputGeneration(g),
                VideoControlView::SetInputGeneration(g),
            ),
        forall|n: u32|
            #[trigger] asks(
                call,
                MediaCommandView::VideoSetTimestampStride(n),
                VideoControlView::SetTimestampStride(n),
            ),
{
}

/// What turns video off never turns it on, and what turns it on never off.
pub proof fn off_never_asks_for_on(call: LiveCallView, command: MediaCommandView)
    ensures
        call.intent(command) matches IntentView::Video(control) ==> {
            &&& turns_video_off(command) <==> stops_video(control)
            &&& turns_video_on(command) <==> starts_video(control)
        },
        turns_video_off(command) || turns_video_on(command) ==> call.intent(command) is Video,
{
}

/// Two video commands that ask for one control are one command, but for an
/// address that is written in two ways.
pub proof fn no_two_commands_ask_for_the_same(
    call: LiveCallView,
    other: LiveCallView,
    a: MediaCommandView,
    b: MediaCommandView,
)
    requires
        call.intent(a) is Video,
        call.intent(a) == other.intent(b),
    ensures
        a == b || (a is VideoSetOrientation && b is VideoSetOrientation),
        a matches MediaCommandView::VideoSetOrientation { participant: p, orientation: x } ==> (
        b matches MediaCommandView::VideoSetOrientation { participant: q, orientation: y } && x == y
            && (p is Some) == (q is Some) && (p is Some ==> jid_of(p->0) == jid_of(q->0))),
{
}

/// Only a video command reaches the video mailbox, and each does, but for a
/// rotation of a participant whose address names nobody.
pub proof fn the_video_mailbox_takes_video_alone(call: LiveCallView, command: MediaCommandView)
    ensures
        call.intent(command) is Video ==> about_video(command),
        about_video(command) && !(command is VideoSetOrientation) ==> call.intent(command) is Video,
        command matches MediaCommandView::VideoSetOrientation { participant, orientation } ==> match participant {
            None => asks(call, command, VideoControlView::SetOrientation(orientation)),
            Some(who) => match jid_of(who) {
                Some(jid) => asks(
                    call,
                    command,
                    VideoControlView::SetParticipantOrientation { participant: jid, orientation },
                ),
                None => call.intent(command) == IntentView::Settled(false),
            },
        },
{
}

/// A rekey names the device that answered and the codec that it speaks, as
/// long as somebody reads the rekey mailbox; after that it is refused.
pub proof fn a_rekey_names_who_answered(
    call: LiveCallView,
    answering_lid: Seq<char>,
    audio_codec: Option<AudioCodecWire>,
)
    ensures
        ({
            let command = MediaCommandView::RekeyRecv { answering_lid, audio_codec };
            if call.rekey_open {
                &&& call.intent(command) matches IntentView::Rekey(answer)
                &&& answer.answering_lid == answering_lid
                &&& audio_codec is None <==> answer.audio_codec is None
                &&& audio_codec == Some(AudioCodecWire::Opus) <==> answer.audio_codec == Some(
                    MediaAudioCodec::Opus,
                )
                &&& audio_codec == Some(AudioCodecWire::Mlow) <==> answer.audio_codec == Some(
                    MediaAudioCodec::Mlow,
                )
            } else {
                call.intent(command) == IntentView::Settled(false)
            }
        }),
        call.intent(MediaCommandView::RekeyRecv { answering_lid, audio_codec }) is Rekey <==> call.rekey_open,
{
}

/// A rekey mailbox without a reader is let go for good, and every rekey after
/// it is refused; no other answer changes anything.
pub proof fn a_gone_rekey_mailbox_stays_gone(
    call: LiveCallView,
    asked: PeerAnswerView,
    intent: IntentView,
    answer: MailboxAnswer,
    later: MediaCommandView,
)
    ensures
        ({
            let after = call.answered(IntentView::Rekey(asked), MailboxAnswer::Gone);
            &&& !after.rekey_open
            &&& after.muted == call.muted && after.has_group == call.has_group && after.id
                == call.id && after.call_id == call.call_id && after.format == call.format
                && after.opus_mlow_escape == call.opus_mlow_escape
            &&& later is RekeyRecv ==> after.intent(later) == IntentView::Settled(false)
        }),
        !(intent is Rekey && answer is Gone) ==> call.answered(intent, answer) == call,
        !call.rekey_open ==> !call.answered(intent, answer).rekey_open,
{
}

/// On a call with a group plane, what a group intent carries reaches the group
/// mailbox as it came: a snapshot as a snapshot, an epoch with its number, a
/// reaction as its text.
pub proof fn a_group_intent_keeps_what_it_carries(
    call: LiveCallView,
    dto: GroupCallUpdateDtoView,
    transaction_id: u32,
    epoch: Seq<u8>,
    emoji: Seq<char>,
)
    requires
        call.has_group,
    ensures
        call.intent(MediaCommandView::GroupSendReaction(emoji)) == IntentView::Group(
            GroupControlView::Reaction(emoji),
        ),
        call.intent(MediaCommandView::GroupApplyEpoch { transaction_id, epoch }) matches IntentView::Group(
            GroupControlView::RawEpoch(e),
        ) && e.transaction_id == transaction_id && e.epoch == epoch,
        match update_of(dto, "group JID refused: "@) {
            Ok(update) => {
                &&& call.intent(MediaCommandView::GroupApplyUpdate(dto)) == IntentView::Group(
                    GroupControlView::Update(update),
                )
                &&& call.intent(
                    MediaCommandView::GroupApplyTransition { update: dto, transaction_id, epoch },
                ) matches IntentView::Group(GroupControlView::Transition { update: u, epoch: e })
                    && u == update && e.transaction_id == transaction_id && e.epoch == epoch
            },
            Err(_) => {
                &&& call.intent(MediaCommandView::GroupApplyUpdate(dto)) == IntentView::Settled(false)
                &&& call.intent(
                    MediaCommandView::GroupApplyTransition { update: dto, transaction_id, epoch },
                ) == IntentView::Settled(false)
            },
        },
{
}

/// A command changes nothing of a call but its mute gate, and that only where
/// it is a mute, which is always taken.
pub proof fn only_mute_moves_a_call(call: LiveCallView, command: MediaCommandView)
    ensures
        ({
            let after = call.commanded(command);
            &&& after.id == call.id
            &&& after.call_id == call.call_id
            &&& after.format == call.format
            &&& after.opus_mlow_escape == call.opus_mlow_escape
            &&& after.has_group == call.has_group
            &&& after.rekey_open == call.rekey_open
            &&& command matches MediaCommandView::AudioMute(flag) ==> after.muted == (flag != 0)
            &&& !(command is AudioMute) ==> after.muted == call.muted
        }),
        call.intent(command) == IntentView::Settled(true) <==> command is AudioMute,
{
}

/// A sample is its two bytes, the low one first, read as a signed number of
/// sixteen bits; its bytes are those again.
pub proof fn a_sample_is_little_endian(low: u8, high: u8, s: i16)
    ensures
        (sample(low, high) as int - (low as int + 256 * high as int)) % 0x1_0000 == 0,
        sample_bytes(s).len() == 2,
        (s as int - (sample_bytes(s)[0] as int + 256 * sample_bytes(s)[1] as int)) % 0x1_0000 == 0,
        sample(low, high) < 0 <==> high >= 128,
        sample_bytes(sample(low, high)) == seq![low, high],
{
    assert(sample_bytes(sample(low, high)) =~= seq![low, high]);
}

/// A payload holds a sample for every two of its bytes, in order; a byte that
/// is left over is none.
pub proof fn samples_come_in_pairs_of_bytes(data: Seq<u8>)
    ensures
        2 * samples(data).len() <= data.len() < 2 * samples(data).len() + 2,
        forall|i: int|
            0 <= i < samples(data).len() ==> (#[trigger] samples(data)[i] as int - (data[2 * i]
                as int + 256 * data[2 * i + 1] as int)) % 0x1_0000 == 0,
{
}

/// Each sample's bytes stand where its place in the payload is.
pub proof fn a_payload_holds_each_sample_in_place(s: Seq<i16>, i: int)
    requires
        0 <= i < s.len(),
    ensures
        pcm_payload(s).len() == 2 * s.len(),
        (s[i] as int - (pcm_payload(s)[2 * i] as int + 256 * pcm_payload(s)[2 * i + 1] as int))
            % 0x1_0000 == 0,
{
    pcm_round_trip(s);
    assert(samples(pcm_payload(s))[i] == s[i]);
}

/// What the microphone gets is every sample of the payload, unless the call is
/// muted, when it gets nothing.
pub proof fn the_microphone_gets_all_or_nothing(call: LiveCallView, data: Seq<u8>)
    ensures
        call.mic(data) is None <==> call.muted,
        call.mic(data) matches Some(s) ==> 2 * s.len() <= data.len() < 2 * s.len() + 2
            && forall|i: int|
            0 <= i < s.len() ==> (#[trigger] s[i] as int - (data[2 * i] as int + 256 * data[2 * i
                + 1] as int)) % 0x1_0000 == 0,
{
}

/// An access unit goes out whole, and with its stamp where it has both halves
/// of one.
pub proof fn an_access_unit_goes_out_whole(input: VideoInputDtoView)
    ensures
        match video_feed(input) {
            VideoFeedView::Timed { data, timestamp, generation } => data == input.data
                && input.timestamp == Some(timestamp) && input.input_generation == Some(generation),
            VideoFeedView::Untimed(data) => data == input.data && (input.timestamp is None
                || input.input_generation is None),
        },
{
}

/// Rotations are replayed one after the other: those of two lists are those of
/// the first and then those of the second.
pub proof fn rotations_are_replayed_in_order(
    a: Seq<(Option<Seq<char>>, u8)>,
    b: Seq<(Option<Seq<char>>, u8)>,
)
    ensures
        orientation_controls(a + b) == orientation_controls(a) + orientation_controls(b),
    decreases b.len(),
{
    if b.len() == 0 {
        assert(a + b =~= a);
        assert(orientation_controls(a) + orientation_controls(b) =~= orientation_controls(a));
    } else {
        assert((a + b).drop_last() =~= a + b.drop_last());
        assert((a + b).last() == b.last());
        rotations_are_replayed_in_order(a, b.drop_last());
        assert(orientation_controls(a + b) =~= orientation_controls(a) + orientation_controls(b));
    }
}

/// One rotation is replayed as the rotation that it is, or not at all where
/// its address names nobody.
pub proof fn a_rotation_is_replayed_as_it_is(who: Option<Seq<char>>, orientation: u8)
    ensures
        ({
            let replayed = orientation_controls(seq![(who, orientation)]);
            match who {
                None => replayed == seq![VideoControlView::SetOrientation(orientation)],
                Some(raw) => match jid_of(raw) {
                    None => replayed.len() == 0,
                    Some(participant) => replayed == seq![
                        VideoControlView::SetParticipantOrientation { participant, orientation },
                    ],
                },
            }
        }),
{
    let one = seq![(who, orientation)];
    assert(one.drop_last() =~= Seq::empty());
    assert(one.last() == (who, orientation));
    assert(orientation_controls(one.drop_last()) =~= Seq::empty());
    match orientation_control(who, orientation) {
        Some(control) => {
            assert(orientation_controls(one) =~= seq![control]);
        },
        None => {},
    }
}

/// A refused open says whose fault it was: the sender's params, the way to the
/// relay, or the engine.
pub proof fn a_refused_open_says_whose_fault(e: OpenErrorView)
    ensures
        e.code() == AbiErrorCode::BadPayload <==> e is Spec,
        e.code() == AbiErrorCode::Transport <==> (e is Endpoint || e is Relay),
        e.code() == AbiErrorCode::Internal <==> e is Engine,
{
}

} // verus!
