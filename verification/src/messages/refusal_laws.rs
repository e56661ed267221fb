//! What a reader refuses: what is cut short, out of range or unknown.

use vstd::prelude::*;
use vstd::utf8::{decode_utf8, valid_utf8};

use crate::codec::DecodeError;
use crate::messages::command::MediaCommandView;
use crate::messages::event::AbiEventView;
use crate::messages::fields::MAX_ITEMS;
use crate::messages::group::{
    GroupCallUpdateDtoView, GroupFitsRequestView, GroupFitsResponse, GroupParticipantDtoView,
    GroupRelayDtoView, GroupRelayEndpointDtoView,
};
use crate::messages::media::{EncodedFrameDtoView, VideoFrameDtoView};
use crate::messages::open::OpenParamsView;
use crate::text::{decimal, hex_byte};
use crate::wire::{
    blob_fits, decoded, group_stuck, list_fits, of_le_u32, of_le_u64, opt_fits, opt_text_fits,
    text_fits, Body, Cursor, Piece, Tag,
};

verus! {

/// A number is read off the front, and needs all of its bytes.
pub proof fn a_number_needs_all_of_its_bytes(s: Seq<u8>)
    ensures
        s.len() >= 1 ==> Cursor::at(s).u8() == (s[0], Cursor::at(s.skip(1))),
        s.len() < 1 ==> Cursor::at(s).u8().1.err == Some(DecodeError::Overrun),
        s.len() >= 4 ==> Cursor::at(s).u32() == (of_le_u32(s.take(4)), Cursor::at(s.skip(4))),
        s.len() < 4 ==> Cursor::at(s).u32().1.err == Some(DecodeError::Overrun),
        s.len() >= 8 ==> Cursor::at(s).u64() == (of_le_u64(s.take(8)), Cursor::at(s.skip(8))),
        s.len() < 8 ==> Cursor::at(s).u64().1.err == Some(DecodeError::Overrun),
{
    reveal(Cursor::u8);
    reveal(Cursor::u32);
    reveal(Cursor::u64);
}

/// Bytes are as many as their length says; a length that promises more than
/// there is is refused with itself.
pub proof fn bytes_are_as_many_as_promised(s: Seq<u8>)
    requires
        s.len() >= 4,
    ensures
        ({
            let n = of_le_u32(s.take(4));
            let (b, c) = Cursor::at(s).blob();
            if n <= s.len() - 4 {
                b == s.subrange(4, 4 + n as int) && c == Cursor::at(s.skip(4 + n as int))
            } else {
                c.err == Some(DecodeError::BadLength(n))
            }
        }),
{
    reveal(Cursor::blob);
    a_number_needs_all_of_its_bytes(s);
    let n = of_le_u32(s.take(4));
    let rest = s.skip(4);
    if n <= rest.len() {
        assert(rest.take(n as int) =~= s.subrange(4, 4 + n as int));
        assert(rest.skip(n as int) =~= s.skip(4 + n as int));
    }
}

/// A text is bytes that are one.
pub proof fn a_text_is_bytes_that_are_one(c: Cursor)
    requires
        c.blob().1.err is None,
    ensures
        valid_utf8(c.blob().0) ==> c.text() == (decode_utf8(c.blob().0), c.blob().1),
        !valid_utf8(c.blob().0) ==> c.text().1.err == Some(DecodeError::BadUtf8),
{
    reveal(Cursor::text);
}

/// A byte that names nothing is refused by the name of its field, and so is one
/// above its range.
pub proof fn an_unknown_byte_is_refused_by_name<T: Tag>(
    s: Seq<u8>,
    field: &'static str,
    max: u8,
)
    requires
        s.len() > 0,
    ensures
        T::of_tag(s[0]) matches Some(v) ==> Cursor::at(s).tag::<T>(field) == (
            v,
            Cursor::at(s.skip(1)),
        ),
        T::of_tag(s[0]) is None ==> Cursor::at(s).tag::<T>(field).1.err == Some(
            DecodeError::BadValue { field, value: s[0] },
        ),
        s[0] <= max ==> Cursor::at(s).byte_at_most(field, max) == (s[0], Cursor::at(s.skip(1))),
        s[0] > max ==> Cursor::at(s).byte_at_most(field, max).1.err == Some(
            DecodeError::BadValue { field, value: s[0] },
        ),
{
    reveal(Cursor::tag);
    reveal(Cursor::byte_at_most);
    a_number_needs_all_of_its_bytes(s);
}

/// What may be absent is absent at 0, there at 1, and refused at anything else.
pub proof fn an_option_is_zero_or_one<P: Piece, T: Tag>(s: Seq<u8>, field: &'static str)
    requires
        s.len() > 0,
    ensures
        s[0] == 0 ==> Cursor::at(s).opt_blob() == (None::<Seq<u8>>, Cursor::at(s.skip(1))),
        s[0] == 1 ==> Cursor::at(s).opt_blob() == (
            Some(Cursor::at(s.skip(1)).blob().0),
            Cursor::at(s.skip(1)).blob().1,
        ),
        s[0] > 1 ==> Cursor::at(s).opt_blob().1.err == Some(DecodeError::BadOptionFlag(s[0])),
        s[0] == 0 ==> Cursor::at(s).opt::<P>(field) == (None::<P>, Cursor::at(s.skip(1))),
        s[0] == 1 ==> Cursor::at(s).opt::<P>(field) == (
            Some(P::read(Cursor::at(s.skip(1))).0),
            P::read(Cursor::at(s.skip(1))).1,
        ),
        s[0] > 1 ==> Cursor::at(s).opt::<P>(field).1.err == Some(
            DecodeError::BadValue { field, value: s[0] },
        ),
        s[0] == 0 ==> Cursor::at(s).opt_tag::<T>(field) == (None::<T>, Cursor::at(s.skip(1))),
        s[0] > 1 ==> Cursor::at(s).opt_tag::<T>(field).1.err == Some(
            DecodeError::BadValue { field, value: s[0] },
        ),
{
    reveal(Cursor::opt_blob);
    reveal(Cursor::opt);
    reveal(Cursor::opt_tag);
    a_number_needs_all_of_its_bytes(s);
    an_unknown_byte_is_refused_by_name::<T>(s, field, 1);
}

/// A list has as many items as its count says, and a count above its limit is
/// refused with itself.
pub proof fn a_list_is_as_long_as_its_count<P: Piece>(s: Seq<u8>, limit: u32)
    requires
        s.len() >= 4,
    ensures
        of_le_u32(s.take(4)) > limit ==> Cursor::at(s).list::<P>(limit).1.err == Some(
            DecodeError::BadLength(of_le_u32(s.take(4))),
        ),
        of_le_u32(s.take(4)) <= limit ==> Cursor::at(s).list::<P>(limit).0.len() == of_le_u32(
            s.take(4),
        ),
        MAX_ITEMS == 4096,
{
    reveal(Cursor::list);
    a_number_needs_all_of_its_bytes(s);
    let n = of_le_u32(s.take(4));
    if n <= limit {
        as_many_items_are_read::<P>(Cursor::at(s.skip(4)), n as nat);
    }
}

/// As many items are read as were asked for.
proof fn as_many_items_are_read<P: Piece>(c: Cursor, n: nat)
    ensures
        c.items::<P>(n).0.len() == n,
    decreases n,
{
    if n > 0 {
        as_many_items_are_read::<P>(c, (n - 1) as nat);
    }
}

/// What an error says names what was wrong, with the bytes or numbers at fault.
pub proof fn a_decode_error_names_what_was_wrong(e: DecodeError)
    ensures
        e matches DecodeError::TruncatedHeader { len } ==> e.text()
            == "voip ABI header truncated: "@ + decimal(len as nat) + " bytes"@,
        e matches DecodeError::TruncatedPayload { want, got } ==> e.text()
            == "voip ABI payload truncated: want "@ + decimal(want as nat) + ", got "@ + decimal(
            got as nat,
        ),
        e is Overrun ==> e.text() == "voip ABI field ran past the payload end"@,
        e matches DecodeError::UnknownOpcode(op) ==> e.text() == "unknown voip ABI opcode 0x"@
            + hex_byte(op),
        e matches DecodeError::BadLength(n) ==> e.text() == "bad voip ABI length prefix "@
            + decimal(n as nat),
        e is BadUtf8 ==> e.text() == "voip ABI UTF-8 field is not valid UTF-8"@,
        e matches DecodeError::BadOptionFlag(b) ==> e.text() == "bad voip ABI option flag 0x"@
            + hex_byte(b),
        e matches DecodeError::BadValue { field, value } ==> e.text() == "bad voip ABI "@ + field@
            + ": 0x"@ + hex_byte(value),
{
}

/// What reads as a relay endpoint has a flag of 0 or 1.
#[verifier::rlimit(40)]
pub proof fn a_relay_endpoint_has_one_flag(s: Seq<u8>, m: GroupRelayEndpointDtoView)
    ensures
        decoded::<GroupRelayEndpointDtoView>(s) == Ok::<GroupRelayEndpointDtoView, DecodeError>(m) ==> m.is_fna <= 1,
        m.body_fits() <==> m.is_fna <= 1 && text_fits(m.relay_name) && opt_text_fits(m.domain_name) && opt_text_fits(m.ipv4),
{
    broadcast use group_stuck;

    reveal(GroupRelayEndpointDtoView::fields);
    reveal(Cursor::byte_at_most);
}

/// What reads as a relay has a flag of 0 or 1, and no more endpoints than a
/// list holds.
#[verifier::rlimit(40)]
pub proof fn a_relay_has_one_flag(s: Seq<u8>, m: GroupRelayDtoView)
    ensures
        decoded::<GroupRelayDtoView>(s) == Ok::<GroupRelayDtoView, DecodeError>(m) ==> m.attribute_padding <= 1,
        m.body_fits() <==> m.attribute_padding <= 1 && text_fits(m.uuid) && text_fits(m.participant_uuid) && list_fits(m.endpoints, 4096),
{
    broadcast use group_stuck;

    reveal(GroupRelayDtoView::fields);
    reveal(Cursor::byte_at_most);
}

/// What reads as a snapshot has flags of 0 or 1, and no more participants than
/// a list holds.
#[verifier::rlimit(40)]
pub proof fn a_snapshot_has_its_flags(s: Seq<u8>, m: GroupCallUpdateDtoView)
    ensures
        decoded::<GroupCallUpdateDtoView>(s) == Ok::<GroupCallUpdateDtoView, DecodeError>(m) ==> m.joinable <= 1 && m.av_upgradable <= 1 && m.rekey_requested <= 1,
        m.body_fits() <==> m.joinable <= 1 && m.av_upgradable <= 1 && m.rekey_requested <= 1 && text_fits(m.call_id) && text_fits(m.call_creator) && opt_text_fits(m.group_jid) && text_fits(m.media) && list_fits(m.participants, 4096) && opt_fits(m.relay),
{
    broadcast use group_stuck;

    reveal(GroupCallUpdateDtoView::fields);
    reveal(Cursor::byte_at_most);
}

/// What reads as an admission probe has a flag of 0 or 1.
#[verifier::rlimit(40)]
pub proof fn a_probe_has_one_flag(s: Seq<u8>, m: GroupFitsRequestView)
    ensures
        decoded::<GroupFitsRequestView>(s) == Ok::<GroupFitsRequestView, DecodeError>(m) ==> m.is_call_link <= 1,
        m.body_fits() <==> m.is_call_link <= 1 && m.update.fits(),
{
    broadcast use group_stuck;

    reveal(GroupFitsRequestView::fields);
    reveal(Cursor::byte_at_most);
}

/// What reads as a verdict is yes or no.
#[verifier::rlimit(40)]
pub proof fn a_verdict_is_yes_or_no(s: Seq<u8>, m: GroupFitsResponse)
    ensures
        decoded::<GroupFitsResponse>(s) == Ok::<GroupFitsResponse, DecodeError>(m) ==> m.fits <= 1,
        m.body_fits() <==> m.fits <= 1,
{
    broadcast use group_stuck;

    reveal(GroupFitsResponse::fields);
    reveal(Cursor::byte_at_most);
}

/// What reads as an encoded frame has a flag of 0 or 1.
#[verifier::rlimit(40)]
pub proof fn an_encoded_frame_has_one_flag(s: Seq<u8>, m: EncodedFrameDtoView)
    ensures
        decoded::<EncodedFrameDtoView>(s) == Ok::<EncodedFrameDtoView, DecodeError>(m) ==> m.marker <= 1,
        m.body_fits() <==> m.marker <= 1 && blob_fits(m.data) && opt_text_fits(m.sender) && opt_text_fits(m.device),
{
    broadcast use group_stuck;

    reveal(EncodedFrameDtoView::fields);
    reveal(Cursor::byte_at_most);
}

/// What reads as a video frame has a flag of 0 or 1, and one of four rotations.
#[verifier::rlimit(40)]
pub proof fn a_video_frame_is_turned_by_quarters(s: Seq<u8>, m: VideoFrameDtoView)
    ensures
        decoded::<VideoFrameDtoView>(s) == Ok::<VideoFrameDtoView, DecodeError>(m) ==> m.keyframe <= 1 && m.orientation <= 3,
        m.body_fits() <==> m.keyframe <= 1 && m.orientation <= 3 && blob_fits(m.data) && opt_text_fits(m.sender) && opt_text_fits(m.device),
{
    broadcast use group_stuck;

    reveal(VideoFrameDtoView::fields);
    reveal(Cursor::byte_at_most);
}

/// What reads as open params has flags of 0 or 1.
#[verifier::rlimit(40)]
pub proof fn open_params_have_their_flags(s: Seq<u8>, m: OpenParamsView)
    ensures
        decoded::<OpenParamsView>(s) == Ok::<OpenParamsView, DecodeError>(m) ==> m.enable_media <= 1 && m.enable_video <= 1 && m.enable_sframe <= 1 && m.muted <= 1,
        m.body_fits() <==> m.enable_media <= 1 && m.enable_video <= 1 && m.enable_sframe <= 1 && m.muted <= 1 && text_fits(m.self_lid) && text_fits(m.peer_lid) && blob_fits(m.relay_token) && blob_fits(m.auth_token) && blob_fits(m.call_key) && text_fits(m.relay_host) && blob_fits(m.integrity_key) && list_fits(m.peer_orientations, 4096) && opt_fits(m.group),
{
    broadcast use group_stuck;

    reveal(OpenParamsView::fields);
    reveal(Cursor::byte_at_most);
}

/// Whether a command may be sent: a mute is on or off, and what it carries
/// fits.
pub proof fn a_mute_is_on_or_off(s: Seq<u8>, m: MediaCommandView)
    ensures
        decoded::<MediaCommandView>(s) == Ok::<MediaCommandView, DecodeError>(m) ==> (m
            matches MediaCommandView::AudioMute(flag) ==> flag <= 1),
        m matches MediaCommandView::AudioMute(flag) ==> (m.body_fits() <==> flag <= 1),
        m matches MediaCommandView::GroupSendReaction(emoji) ==> (m.body_fits() <==> text_fits(
            emoji,
        )),
        m matches MediaCommandView::RekeyRecv { answering_lid, .. } ==> (m.body_fits()
            <==> text_fits(answering_lid)),
        m matches MediaCommandView::VideoSetOrientation { participant, .. } ==> (m.body_fits()
            <==> opt_text_fits(participant)),
{
    broadcast use group_stuck;

    reveal(MediaCommandView::fields);
    reveal(Cursor::byte_at_most);
}

/// Whether an event may be sent: it names no more rates and streams than it
/// may, and its flags are 0 or 1.
pub proof fn an_event_has_its_limits(m: AbiEventView)
    ensures
        m matches AbiEventView::AudioFormatMismatch { received_rates, .. } ==> (m.body_fits()
            <==> list_fits(received_rates, 64)),
        m matches AbiEventView::RtcpReceived {
            packet_types,
            referenced_ssrcs,
            reports_audio,
            reports_video,
            report_blocks,
            feedback,
            ..
        } ==> (m.body_fits() <==> blob_fits(packet_types) && list_fits(referenced_ssrcs, 256)
            && reports_audio <= 1 && reports_video <= 1 && list_fits(report_blocks, 4096)
            && list_fits(feedback, 4096)),
{
}

/// A participant may have no more devices than a list holds.
pub proof fn a_participant_has_its_limits(m: GroupParticipantDtoView)
    ensures
        m.body_fits() <==> text_fits(m.jid) && opt_text_fits(m.pn) && opt_text_fits(m.state)
            && opt_text_fits(m.participant_type) && list_fits(m.devices, 4096),
{
}

} // verus!
