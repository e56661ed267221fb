//! What the bytes of the wire are, place by place, and what digits mean.

use vstd::prelude::*;
use vstd::utf8::encode_utf8;

use crate::codec::DecodeError;
use crate::messages::open::VideoCaps;
use crate::protocol::{
    le_u16, of_le_u16, AbiErrorCode, Capabilities, FrameView, Opcode, FLAG_ERROR, FLAG_RESPONSE,
    MAGIC,
};
use crate::text::{decimal, digit_value, digits_value, hex, hex_byte, hex_digit, u32_of_text};
use crate::wire::{
    bits_of_i32, blob, i32_of_bits, items, le_u32, le_u64, length_prefix, list, of_le_u32,
    of_le_u64, opt, opt_blob, opt_tag, opt_text, text, Body, Piece, Tag,
};

verus! {

/// A word lies with its lowest byte first, and reads back by the same weights.
pub proof fn a_word_is_little_endian(v: u32, s: Seq<u8>)
    requires
        s.len() == 4,
    ensures
        le_u32(v).len() == 4,
        v as int == le_u32(v)[0] as int + 0x100 * le_u32(v)[1] as int + 0x1_0000 * le_u32(v)[2]
            as int + 0x100_0000 * le_u32(v)[3] as int,
        of_le_u32(s) as int == s[0] as int + 0x100 * s[1] as int + 0x1_0000 * s[2] as int
            + 0x100_0000 * s[3] as int,
{
    reveal(le_u32);
}

/// A double word lies with its low word first.
pub proof fn a_double_word_is_little_endian(v: u64)
    ensures
        le_u64(v).len() == 8,
        v as int == of_le_u32(le_u64(v).take(4)) as int + 0x1_0000_0000 * of_le_u32(
            le_u64(v).skip(4),
        ) as int,
        of_le_u64(le_u64(v)) == v,
{
    reveal(le_u64);
    let low = (v as int % 0x1_0000_0000) as u32;
    let high = (v as int / 0x1_0000_0000) as u32;
    crate::wire::le_u32_inverse(low);
    crate::wire::le_u32_inverse(high);
    crate::wire::le_u32_len(low);
    crate::wire::le_u32_len(high);
    crate::wire::le_u64_inverse(v);
    assert(le_u64(v).take(4) =~= le_u32(low));
    assert(le_u64(v).skip(4) =~= le_u32(high));
}

/// A half word lies with its low byte first.
pub proof fn a_half_word_is_little_endian(v: u16, low: u8, high: u8)
    ensures
        le_u16(v).len() == 2,
        v as int == le_u16(v)[0] as int + 0x100 * le_u16(v)[1] as int,
        of_le_u16(low, high) as int == low as int + 0x100 * high as int,
{
}

/// A signed number and its bits differ by nothing or by a whole turn.
pub proof fn signed_words_wrap(v: i32, bits: u32)
    ensures
        (bits_of_i32(v) as int - v as int) % 0x1_0000_0000 == 0,
        (i32_of_bits(bits) as int - bits as int) % 0x1_0000_0000 == 0,
        i32_of_bits(bits_of_i32(v)) == v,
{
}

/// Bytes lie behind their length, whole.
pub proof fn bytes_lie_behind_their_length(b: Seq<u8>)
    ensures
        blob(b).len() == 4 + b.len(),
        blob(b).skip(4) == b,
        b.len() < 0x1_0000_0000 ==> of_le_u32(blob(b).take(4)) == b.len(),
{
    reveal(blob);
    crate::wire::le_u32_len(length_prefix(b.len()));
    crate::wire::le_u32_inverse(length_prefix(b.len()));
    assert(blob(b).skip(4) =~= b);
    assert(blob(b).take(4) =~= le_u32(length_prefix(b.len())));
}

/// A text lies as the bytes of its UTF-8.
pub proof fn a_text_lies_as_its_bytes(t: Seq<char>)
    ensures
        text(t) == blob(encode_utf8(t)),
{
    reveal(text);
}

/// What may be absent starts with 0 where it is, and with 1 and then itself
/// where it is not.
pub proof fn what_may_be_absent_says_so<P: Piece, T: Tag>(
    b: Option<Seq<u8>>,
    t: Option<Seq<char>>,
    p: Option<P>,
    tag: Option<T>,
)
    ensures
        match b {
            None => opt_blob(b) == seq![0u8],
            Some(v) => opt_blob(b) == seq![1u8] + blob(v),
        },
        match t {
            None => opt_text(t) == seq![0u8],
            Some(v) => opt_text(t) == seq![1u8] + text(v),
        },
        match p {
            None => opt(p) == seq![0u8],
            Some(v) => opt(p) == seq![1u8] + v.wire(),
        },
        match tag {
            None => opt_tag(tag) == seq![0u8],
            Some(v) => opt_tag(tag) == seq![1u8, v.tag()],
        },
{
    reveal(opt_blob);
    reveal(opt_text);
    reveal(opt);
    reveal(opt_tag);
    match tag {
        None => {},
        Some(v) => {
            assert(seq![1u8] + seq![v.tag()] =~= seq![1u8, v.tag()]);
        },
    }
}

/// A list lies behind its count, and its items one after the other: those of
/// two lists joined are those of the first and then those of the second.
pub proof fn items_lie_one_after_the_other<P: Piece>(a: Seq<P>, b: Seq<P>, one: P)
    ensures
        items(a + b) == items(a) + items(b),
        items(seq![one]) == one.wire(),
        list(a).take(4) == le_u32(length_prefix(a.len())),
        list(a).skip(4) == items(a),
    decreases b.len(),
{
    reveal(list);
    crate::wire::le_u32_len(length_prefix(a.len()));
    assert(list(a).take(4) =~= le_u32(length_prefix(a.len())));
    assert(list(a).skip(4) =~= items(a));
    let single = seq![one];
    assert(single.drop_last() =~= Seq::empty());
    assert(items(single.drop_last()) =~= Seq::<u8>::empty());
    assert(items(single) =~= one.wire());
    if b.len() == 0 {
        assert(a + b =~= a);
        assert(items(a) + items(b) =~= items(a));
    } else {
        items_lie_one_after_the_other(a, b.drop_last(), one);
        assert((a + b).drop_last() =~= a + b.drop_last());
        assert(items(a + b) =~= items(a) + items(b));
    }
}

/// Words, double words and bytes lie as themselves in a list, and a rotation
/// as whose it is before which.
pub proof fn an_item_lies_as_itself(word: u32, double: u64, bytes: Seq<u8>, who: Option<Seq<char>>, rotation: u8)
    ensures
        word.wire() == le_u32(word),
        double.wire() == le_u64(double),
        bytes.wire() == blob(bytes),
        (who, rotation).wire() == opt_text(who) + seq![rotation],
{
}

/// A body inside another lies as bytes of its own, behind their length.
pub proof fn a_body_inside_another_is_a_block<M: Body>(m: M)
    ensures
        m.wire() == blob(m.body()),
        m.fits() <==> m.body_fits() && m.body().len() < 0x1_0000_0000,
{
}

/// A frame is its magic, the two versions, the opcode, the flags and the
/// payload's length, each in its place, and behind them the payload.
pub proof fn a_frame_has_its_header_in_front(f: FrameView)
    ensures
        f.bytes().len() == 13 + f.payload.len(),
        f.bytes()[0] == 0x4f && f.bytes()[1] == 0x5a && f.bytes()[2] == 0x56 && f.bytes()[3]
            == 0x50,
        f.bytes()[4] == f.major,
        f.bytes()[5] == f.minor,
        f.bytes()[6] == f.opcode.tag(),
        f.flags as int == f.bytes()[7] as int + 0x100 * f.bytes()[8] as int,
        f.payload.len() < 0x1_0000_0000 ==> f.payload.len() == f.bytes()[9] as int + 0x100
            * f.bytes()[10] as int + 0x1_0000 * f.bytes()[11] as int + 0x100_0000 * f.bytes()[12]
            as int,
        f.bytes().skip(13) == f.payload,
{
    reveal(le_u32);
    assert(f.bytes().skip(13) =~= f.payload);
    let n = length_prefix(f.payload.len());
    assert(f.bytes()[9] == le_u32(n)[0] && f.bytes()[10] == le_u32(n)[1] && f.bytes()[11] == le_u32(
        n,
    )[2] && f.bytes()[12] == le_u32(n)[3]);
}

/// A buffer that is read as a frame is read place by place; what is not is
/// refused for the first thing wrong with it.
pub proof fn a_buffer_is_read_place_by_place(s: Seq<u8>)
    requires
        s.len() <= usize::MAX,
    ensures
        s.len() < 13 ==> FrameView::of_bytes(s) == Err::<FrameView, DecodeError>(
            DecodeError::TruncatedHeader { len: s.len() as usize },
        ),
        s.len() >= 13 && !(s[0] == 0x4f && s[1] == 0x5a && s[2] == 0x56 && s[3] == 0x50)
            ==> FrameView::of_bytes(s) == Err::<FrameView, DecodeError>(
            DecodeError::BadMagic { got: [s[0], s[1], s[2], s[3]] },
        ),
        FrameView::of_bytes(s) matches Err(DecodeError::UnknownOpcode(b)) ==> b == s[6]
            && Opcode::of_tag(b) is None,
        FrameView::of_bytes(s) matches Err(DecodeError::TruncatedPayload { want, got }) ==> got
            == s.len() - 13 && got < want && want == of_le_u32(s.subrange(9, 13)),
        FrameView::of_bytes(s) matches Ok(f) ==> {
            &&& f.major == s[4]
            &&& f.minor == s[5]
            &&& f.opcode.tag() == s[6]
            &&& f.flags as int == s[7] as int + 0x100 * s[8] as int
            &&& f.payload.len() == of_le_u32(s.subrange(9, 13))
            &&& f.payload == s.subrange(13, 13 + f.payload.len() as int)
        },
{
    if s.len() >= 13 {
        if s[0] == 0x4f && s[1] == 0x5a && s[2] == 0x56 && s[3] == 0x50 {
            assert(s.take(4) =~= MAGIC@);
        } else if s.take(4) == MAGIC@ {
            assert(s.take(4)[0] == s[0] && s.take(4)[1] == s[1] && s.take(4)[2] == s[2] && s.take(
                4,
            )[3] == s[3]);
        }
        Opcode::of_tag_inverse(s[6]);
    }
}

/// Flags are bits of their own: one says that a frame answers, the other that
/// it refuses.
pub proof fn flags_are_bits_of_their_own(
    request: FrameView,
    payload: Seq<u8>,
    code: AbiErrorCode,
    detail: Option<Seq<char>>,
)
    ensures
        FLAG_RESPONSE == 1 && FLAG_ERROR == 2,
        FrameView::of_request(request.opcode, payload).flags == 0,
        FrameView::of_request(request.opcode, payload).payload == payload,
        FrameView::of_request(request.opcode, payload).opcode == request.opcode,
        request.response(payload).flags == 1,
        request.response(payload).payload == payload,
        request.failure(code, detail).flags == 3,
        request.response(payload).major == 1 && request.failure(code, detail).major == 1,
        request.response(payload).minor == 0 && request.failure(code, detail).minor == 0,
{
    assert(1u16 | 2u16 == 3u16) by (bit_vector);
}

/// Each capability is a bit of its own.
pub proof fn capabilities_are_bits_of_their_own()
    ensures
        Capabilities::PCM == 1,
        Capabilities::ENCODED_AUDIO == 2,
        Capabilities::VIDEO == 4,
        Capabilities::GROUP_CALLS == 8,
        Capabilities::CALL_LINKS == 16,
        Capabilities::STATS_PUSH == 32,
        Capabilities::RELAY_RECONNECT == 64,
        VideoCaps::SEND == 1,
        VideoCaps::RECV == 2,
{
}

/// The digits below ten are the characters from 0 on, those above the letters
/// from a on; a character's value as a decimal digit is its distance from 0.
pub proof fn digits_follow_each_other(d: int, c: char)
    requires
        0 <= d < 16,
    ensures
        d < 10 ==> hex_digit(d) as u32 == 0x30 + d,
        d >= 10 ==> hex_digit(d) as u32 == 0x61 + (d - 10),
        0x30 <= c as u32 <= 0x39 ==> digit_value(c) == Some((c as u32 - 0x30) as nat),
        !(0x30 <= c as u32 <= 0x39) ==> digit_value(c) is None,
{
}

/// A run of digits means ten times what it means without its last, and that.
pub proof fn a_digit_weighs_by_its_place(s: Seq<char>, c: char)
    ensures
        s.len() == 0 ==> digits_value(s) is None && digits_value(s.push(c)) == digit_value(c),
        s.len() > 0 && digits_value(s) is Some && digit_value(c) is Some ==> digits_value(s.push(c))
            == Some((10 * digits_value(s)->0 + digit_value(c)->0) as nat),
        s.len() > 0 && (digits_value(s) is None || digit_value(c) is None) ==> digits_value(
            s.push(c),
        ) is None,
{
    assert(s.push(c).drop_last() =~= s);
}

/// A number in decimal has no zero in front, unless it is zero, and one more
/// digit behind makes it ten times as large.
pub proof fn decimals_have_no_zero_in_front(n: nat, d: nat)
    requires
        d < 10,
    ensures
        n > 0 ==> decimal(n)[0] != '0' && decimal(n).len() > 0,
        n > 0 ==> decimal(10 * n + d) == decimal(n).push(hex_digit(d as int)),
        n < 10 ==> decimal(n).len() == 1,
    decreases n,
{
    if n >= 10 {
        decimals_have_no_zero_in_front(n / 10, d);
        assert(decimal(n)[0] == decimal(n / 10)[0]);
    }
    if n > 0 {
        assert((10 * n + d) / 10 == n && (10 * n + d) % 10 == d) by (nonlinear_arith)
            requires
                d < 10,
        ;
    }
}

/// A number in a text is what its digits mean, where that fits, with or
/// without one plus in front.
pub proof fn a_number_in_a_text_may_have_a_plus(s: Seq<char>)
    requires
        s.len() == 0 || s[0] != '+',
    ensures
        u32_of_text(s) == u32_of_text(seq!['+'] + s),
        u32_of_text(s) matches Some(n) ==> digits_value(s) == Some(n as nat),
        digits_value(s) is None ==> u32_of_text(s) is None,
        digits_value(s) matches Some(n) ==> (u32_of_text(s) is Some <==> n < 0x1_0000_0000),
{
    assert((seq!['+'] + s).skip(1) =~= s);
}

/// Bytes in hexadecimal follow each other, and in each the high digit comes
/// first.
pub proof fn hexadecimal_goes_byte_by_byte(a: Seq<u8>, b: Seq<u8>, one: u8)
    ensures
        hex(a + b) == hex(a) + hex(b),
        hex(seq![one]) == seq![hex_digit(one as int / 16), hex_digit(one as int % 16)],
    decreases b.len(),
{
    let single = seq![one];
    assert(single.drop_last() =~= Seq::empty());
    assert(hex(single.drop_last()) =~= Seq::<char>::empty());
    assert(hex(single) =~= hex_byte(one));
    if b.len() == 0 {
        assert(a + b =~= a);
        assert(hex(a) + hex(b) =~= hex(a));
    } else {
        hexadecimal_goes_byte_by_byte(a, b.drop_last(), one);
        assert((a + b).drop_last() =~= a + b.drop_last());
        assert(hex(a + b) =~= hex(a) + hex(b));
    }
}

} // verus!
