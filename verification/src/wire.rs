//! The wire as mathematics: what bytes each field becomes, how a payload is
//! read back field by field, and the laws every message body obeys.
//!
//! A field is written as a byte sequence, and a body is the concatenation of
//! its fields. Reading goes through a [`Cursor`]: the bytes still unread plus
//! the first error met, if any. Once a cursor carries an error every later
//! read leaves it as it is, so a body's `parse` lists its fields in wire order
//! without repeating what happens on failure.

use vstd::prelude::*;
use vstd::utf8::{
    decode_utf8, encode_utf8, encode_utf8_decode_utf8, encode_utf8_valid_utf8, valid_utf8,
};

use crate::codec::DecodeError;

verus! {

/// `v` as four little-endian bytes.
#[verifier::opaque]
pub open spec fn le_u32(v: u32) -> Seq<u8> {
    seq![
        (v as int % 256) as u8,
        (v as int / 0x100 % 256) as u8,
        (v as int / 0x1_0000 % 256) as u8,
        (v as int / 0x100_0000 % 256) as u8,
    ]
}

/// The number that four little-endian bytes hold.
pub open spec fn of_le_u32(s: Seq<u8>) -> u32 {
    (s[0] as int + s[1] as int * 0x100 + s[2] as int * 0x1_0000 + s[3] as int * 0x100_0000) as u32
}

/// `v` as eight little-endian bytes: the low word, then the high word.
#[verifier::opaque]
pub open spec fn le_u64(v: u64) -> Seq<u8> {
    le_u32((v as int % 0x1_0000_0000) as u32) + le_u32((v as int / 0x1_0000_0000) as u32)
}

/// The number that eight little-endian bytes hold.
pub open spec fn of_le_u64(s: Seq<u8>) -> u64 {
    (of_le_u32(s.take(4)) as int + of_le_u32(s.skip(4)) as int * 0x1_0000_0000) as u64
}

/// The two's complement bit pattern of `v`, as an unsigned number.
pub open spec fn bits_of_i32(v: i32) -> u32 {
    if v < 0 {
        (v + 0x1_0000_0000) as u32
    } else {
        v as u32
    }
}

/// The signed number whose two's complement bit pattern is `v`.
pub open spec fn i32_of_bits(v: u32) -> i32 {
    if v > i32::MAX {
        (v - 0x1_0000_0000) as i32
    } else {
        v as i32
    }
}

/// A length as its prefix carries it: the low 32 bits.
pub open spec fn length_prefix(len: nat) -> u32 {
    (len % 0x1_0000_0000) as u32
}

/// Length-prefixed bytes.
#[verifier::opaque]
pub open spec fn blob(b: Seq<u8>) -> Seq<u8> {
    le_u32(length_prefix(b.len())) + b
}

/// Length-prefixed UTF-8.
#[verifier::opaque]
pub open spec fn text(t: Seq<char>) -> Seq<u8> {
    blob(encode_utf8(t))
}

/// A 0/1 flag, then length-prefixed bytes when present.
#[verifier::opaque]
pub open spec fn opt_blob(b: Option<Seq<u8>>) -> Seq<u8> {
    match b {
        None => seq![0u8],
        Some(b) => seq![1u8] + blob(b),
    }
}

/// A 0/1 flag, then length-prefixed UTF-8 when present.
#[verifier::opaque]
pub open spec fn opt_text(t: Option<Seq<char>>) -> Seq<u8> {
    match t {
        None => seq![0u8],
        Some(t) => seq![1u8] + text(t),
    }
}

/// A length that its prefix can carry whole.
pub open spec fn blob_fits(b: Seq<u8>) -> bool {
    b.len() <= u32::MAX
}

/// A text whose UTF-8 length its prefix can carry whole.
pub open spec fn text_fits(t: Seq<char>) -> bool {
    blob_fits(encode_utf8(t))
}

/// [`text_fits`] where there is a text.
pub open spec fn opt_text_fits(t: Option<Seq<char>>) -> bool {
    t matches Some(t) ==> text_fits(t)
}

/// A read position: the bytes still unread, and the first error met.
pub struct Cursor {
    pub rest: Seq<u8>,
    pub err: Option<DecodeError>,
}

impl Cursor {
    /// Reading starts here, with nothing wrong so far.
    pub open spec fn at(s: Seq<u8>) -> Cursor {
        Cursor { rest: s, err: None }
    }

    /// The position stays; the read failed with `e`.
    pub open spec fn fail(self, e: DecodeError) -> Cursor {
        Cursor { rest: self.rest, err: Some(e) }
    }

    /// What a reader owes its caller: `value` when every read went well, and
    /// the first error otherwise.
    pub open spec fn outcome<T>(self, value: T) -> Result<T, DecodeError> {
        match self.err {
            None => Ok(value),
            Some(e) => Err(e),
        }
    }

    /// The next `n` bytes.
    pub open spec fn take(self, n: nat) -> (Seq<u8>, Cursor) {
        if self.err is Some {
            (arbitrary(), self)
        } else if self.rest.len() < n {
            (arbitrary(), self.fail(DecodeError::Overrun))
        } else {
            (self.rest.take(n as int), Cursor::at(self.rest.skip(n as int)))
        }
    }

    /// One byte.
    #[verifier::opaque]
    pub open spec fn u8(self) -> (u8, Cursor) {
        let (b, c) = self.take(1);
        (b[0], c)
    }

    /// A little-endian `u32`.
    #[verifier::opaque]
    pub open spec fn u32(self) -> (u32, Cursor) {
        let (b, c) = self.take(4);
        (of_le_u32(b), c)
    }

    /// A little-endian `u64`.
    #[verifier::opaque]
    pub open spec fn u64(self) -> (u64, Cursor) {
        let (b, c) = self.take(8);
        (of_le_u64(b), c)
    }

    /// A little-endian two's complement `i32`.
    #[verifier::opaque]
    pub open spec fn i32(self) -> (i32, Cursor) {
        let (v, c) = self.u32();
        (i32_of_bits(v), c)
    }

    /// Length-prefixed bytes. A prefix that promises more than is left fails
    /// with the length it named.
    #[verifier::opaque]
    pub open spec fn blob(self) -> (Seq<u8>, Cursor) {
        let (len, c) = self.u32();
        if c.err is None && len > c.rest.len() {
            (arbitrary(), c.fail(DecodeError::BadLength(len)))
        } else {
            c.take(len as nat)
        }
    }

    /// Length-prefixed UTF-8.
    #[verifier::opaque]
    pub open spec fn text(self) -> (Seq<char>, Cursor) {
        let (raw, c) = self.blob();
        if c.err is None && !valid_utf8(raw) {
            (arbitrary(), c.fail(DecodeError::BadUtf8))
        } else {
            (decode_utf8(raw), c)
        }
    }

    /// A 0/1 flag, then length-prefixed bytes when the flag is 1.
    #[verifier::opaque]
    pub open spec fn opt_blob(self) -> (Option<Seq<u8>>, Cursor) {
        let (flag, c) = self.u8();
        if c.err is Some || flag == 0 {
            (None, c)
        } else if flag == 1 {
            let (b, c) = c.blob();
            (Some(b), c)
        } else {
            (None, c.fail(DecodeError::BadOptionFlag(flag)))
        }
    }

    /// A 0/1 flag, then length-prefixed UTF-8 when the flag is 1.
    #[verifier::opaque]
    pub open spec fn opt_text(self) -> (Option<Seq<char>>, Cursor) {
        let (raw, c) = self.opt_blob();
        match raw {
            None => (None, c),
            Some(raw) => if c.err is None && !valid_utf8(raw) {
                (None, c.fail(DecodeError::BadUtf8))
            } else {
                (Some(decode_utf8(raw)), c)
            },
        }
    }
}

/// A value that one discriminant byte names.
pub trait Tag: Sized {
    /// The byte that names `self`.
    spec fn tag(self) -> u8;

    /// What `b` names, if anything.
    spec fn of_tag(b: u8) -> Option<Self>;

    /// A name leads back to what it names.
    proof fn tag_inverse(self)
        ensures
            Self::of_tag(self.tag()) == Some(self),
    ;

    /// A byte that names something is that value's own name.
    proof fn of_tag_inverse(b: u8)
        ensures
            Self::of_tag(b) matches Some(v) ==> v.tag() == b,
    ;
}

/// A whole message body: how it is laid out in bytes, and how it is read.
pub trait Body: Sized {
    /// Every length, count and flag in the value is one that a reader accepts.
    spec fn body_fits(self) -> bool;

    /// The bytes of the body.
    spec fn body(self) -> Seq<u8>;

    /// The fields, read in wire order.
    spec fn parse(c: Cursor) -> (Self, Cursor);

    /// What was written is read back, whatever follows it.
    proof fn body_written(self, tail: Seq<u8>)
        requires
            self.body_fits(),
        ensures
            Self::parse(Cursor::at(self.body() + tail)) == (self, Cursor::at(tail)),
    ;

    /// A body that was read well is read the same way with more behind it.
    proof fn parse_extends(s: Seq<u8>, more: Seq<u8>)
        requires
            Self::parse(Cursor::at(s)).1.err is None,
        ensures
            Self::parse(Cursor::at(s + more)) == (
                Self::parse(Cursor::at(s)).0,
                extended(Self::parse(Cursor::at(s)).1, more),
            ),
    ;
}

/// What decoding `s` as a message body returns. Bytes behind the last field
/// are ignored.
pub open spec fn decoded<M: Body>(s: Seq<u8>) -> Result<M, DecodeError> {
    M::parse(Cursor::at(s)).1.outcome(M::parse(Cursor::at(s)).0)
}

/// A value that stands inside a body, as an optional field or a list item.
pub trait Piece: Sized {
    /// A reader accepts every length, count and flag in the value.
    spec fn fits(self) -> bool;

    /// The bytes of the value.
    spec fn wire(self) -> Seq<u8>;

    /// The value, read at the cursor.
    spec fn read(c: Cursor) -> (Self, Cursor);

    /// A cursor that failed stays as it is.
    proof fn read_stuck(c: Cursor)
        requires
            c.err is Some,
        ensures
            Self::read(c).1 == c,
    ;

    /// What was written is read back.
    proof fn wire_written(self, tail: Seq<u8>)
        requires
            self.fits(),
        ensures
            Self::read(Cursor::at(self.wire() + tail)) == (self, Cursor::at(tail)),
    ;

    /// A read that goes well does not depend on what follows.
    proof fn read_extends(c: Cursor, more: Seq<u8>)
        requires
            Self::read(c).1.err is None,
        ensures
            Self::read(extended(c, more)) == (Self::read(c).0, extended(Self::read(c).1, more)),
    ;
}

impl Piece for u32 {
    open spec fn fits(self) -> bool {
        true
    }

    open spec fn wire(self) -> Seq<u8> {
        le_u32(self)
    }

    open spec fn read(c: Cursor) -> (u32, Cursor) {
        c.u32()
    }

    proof fn read_stuck(c: Cursor) {
        u32_stuck(c);
    }

    proof fn wire_written(self, tail: Seq<u8>) {
        u32_written(self, tail);
    }

    proof fn read_extends(c: Cursor, more: Seq<u8>) {
        u32_extends(c, more);
    }
}

impl Piece for u64 {
    open spec fn fits(self) -> bool {
        true
    }

    open spec fn wire(self) -> Seq<u8> {
        le_u64(self)
    }

    open spec fn read(c: Cursor) -> (u64, Cursor) {
        c.u64()
    }

    proof fn read_stuck(c: Cursor) {
        u64_stuck(c);
    }

    proof fn wire_written(self, tail: Seq<u8>) {
        u64_written(self, tail);
    }

    proof fn read_extends(c: Cursor, more: Seq<u8>) {
        u64_extends(c, more);
    }
}

impl Piece for Seq<u8> {
    open spec fn fits(self) -> bool {
        blob_fits(self)
    }

    open spec fn wire(self) -> Seq<u8> {
        blob(self)
    }

    open spec fn read(c: Cursor) -> (Seq<u8>, Cursor) {
        c.blob()
    }

    proof fn read_stuck(c: Cursor) {
        blob_stuck(c);
    }

    proof fn wire_written(self, tail: Seq<u8>) {
        blob_written(self, tail);
    }

    proof fn read_extends(c: Cursor, more: Seq<u8>) {
        blob_extends(c, more);
    }
}

/// An announced rotation: whose, if not the peer's own, and which.
impl Piece for (Option<Seq<char>>, u8) {
    open spec fn fits(self) -> bool {
        opt_text_fits(self.0)
    }

    open spec fn wire(self) -> Seq<u8> {
        opt_text(self.0) + seq![self.1]
    }

    open spec fn read(c: Cursor) -> ((Option<Seq<char>>, u8), Cursor) {
        let (who, c) = c.opt_text();
        let (rotation, c) = c.u8();
        ((who, rotation), c)
    }

    proof fn read_stuck(c: Cursor) {
        opt_text_stuck(c);
        u8_stuck(c);
    }

    proof fn wire_written(self, tail: Seq<u8>) {
        concat_assoc(opt_text(self.0), seq![self.1], tail);
        opt_text_written(self.0, seq![self.1] + tail);
        u8_written(self.1, tail);
    }

    proof fn read_extends(c: Cursor, more: Seq<u8>) {
        if c.opt_text().1.err is Some {
            u8_stuck(c.opt_text().1);
        }
        opt_text_extends(c, more);
        u8_extends(c.opt_text().1, more);
    }
}

/// A body inside another one travels as length-prefixed bytes. What its
/// reader leaves unread inside those bytes is ignored.
impl<M: Body> Piece for M {
    open spec fn fits(self) -> bool {
        self.body_fits() && blob_fits(self.body())
    }

    open spec fn wire(self) -> Seq<u8> {
        blob(self.body())
    }

    open spec fn read(c: Cursor) -> (M, Cursor) {
        let (raw, c) = c.blob();
        let (v, inner) = M::parse(Cursor::at(raw));
        (
            v,
            if c.err is Some {
                c
            } else {
                Cursor { rest: c.rest, err: inner.err }
            },
        )
    }

    proof fn read_stuck(c: Cursor) {
        blob_stuck(c);
    }

    proof fn wire_written(self, tail: Seq<u8>) {
        let c = Cursor::at(self.wire() + tail);
        blob_written(self.body(), tail);
        assert(c.blob() == (self.body(), Cursor::at(tail)));
        self.body_written(Seq::empty());
        assert(self.body() + Seq::<u8>::empty() =~= self.body());
        assert(M::parse(Cursor::at(self.body())) == (self, Cursor::at(Seq::empty())));
    }

    proof fn read_extends(c: Cursor, more: Seq<u8>) {
        blob_extends(c, more);
    }
}

/// An optional value: a 0/1 flag, then the value when the flag is 1.
#[verifier::opaque]
pub open spec fn opt<P: Piece>(v: Option<P>) -> Seq<u8> {
    match v {
        None => seq![0u8],
        Some(v) => seq![1u8] + v.wire(),
    }
}

/// [`Piece::fits`] where there is a value.
pub open spec fn opt_fits<P: Piece>(v: Option<P>) -> bool {
    v matches Some(v) ==> v.fits()
}

/// An optional discriminant: a 0/1 flag, then the byte when the flag is 1.
#[verifier::opaque]
pub open spec fn opt_tag<T: Tag>(v: Option<T>) -> Seq<u8> {
    match v {
        None => seq![0u8],
        Some(v) => seq![1u8] + seq![v.tag()],
    }
}

/// The items of a list, one after the other.
pub open spec fn items<P: Piece>(v: Seq<P>) -> Seq<u8>
    decreases v.len(),
{
    if v.len() == 0 {
        Seq::empty()
    } else {
        items(v.drop_last()) + v.last().wire()
    }
}

/// A list: its count, then its items.
#[verifier::opaque]
pub open spec fn list<P: Piece>(v: Seq<P>) -> Seq<u8> {
    le_u32(length_prefix(v.len())) + items(v)
}

/// A list whose count its reader accepts, and whose items all fit.
pub open spec fn list_fits<P: Piece>(v: Seq<P>, limit: u32) -> bool {
    &&& v.len() <= limit
    &&& forall|i: int| 0 <= i < v.len() ==> (#[trigger] v[i]).fits()
}

impl Cursor {
    /// A discriminant byte. One that names nothing fails with the field's name.
    #[verifier::opaque]
    pub open spec fn tag<T: Tag>(self, field: &'static str) -> (T, Cursor) {
        let (b, c) = self.u8();
        match T::of_tag(b) {
            Some(v) => (v, c),
            None => (
                arbitrary(),
                if c.err is Some {
                    c
                } else {
                    c.fail(DecodeError::BadValue { field, value: b })
                },
            ),
        }
    }

    /// A byte already read that must not exceed `max`.
    pub open spec fn at_most(self, field: &'static str, value: u8, max: u8) -> Cursor {
        if self.err is None && value > max {
            self.fail(DecodeError::BadValue { field, value })
        } else {
            self
        }
    }

    /// A byte that must not exceed `max`.
    #[verifier::opaque]
    pub open spec fn byte_at_most(self, field: &'static str, max: u8) -> (u8, Cursor) {
        let (b, c) = self.u8();
        (b, c.at_most(field, b, max))
    }

    /// A 0/1 flag, then a value when the flag is 1. Another flag fails with
    /// the field's name.
    #[verifier::opaque]
    pub open spec fn opt<P: Piece>(self, field: &'static str) -> (Option<P>, Cursor) {
        let (flag, c) = self.byte_at_most(field, 1);
        if c.err is None && flag == 1 {
            let (v, c) = P::read(c);
            (Some(v), c)
        } else {
            (None, c)
        }
    }

    /// A 0/1 flag, then a discriminant when the flag is 1.
    #[verifier::opaque]
    pub open spec fn opt_tag<T: Tag>(self, field: &'static str) -> (Option<T>, Cursor) {
        let (flag, c) = self.byte_at_most(field, 1);
        if c.err is None && flag == 1 {
            let (v, c) = c.tag::<T>(field);
            (Some(v), c)
        } else {
            (None, c)
        }
    }

    /// The next `n` items.
    pub open spec fn items<P: Piece>(self, n: nat) -> (Seq<P>, Cursor)
        decreases n,
    {
        if n == 0 {
            (Seq::empty(), self)
        } else {
            let (v, c) = self.items::<P>((n - 1) as nat);
            let (last, c) = P::read(c);
            (v.push(last), c)
        }
    }

    /// A count, then that many items. A count over `limit` fails with itself.
    #[verifier::opaque]
    pub open spec fn list<P: Piece>(self, limit: u32) -> (Seq<P>, Cursor) {
        let (n, c) = self.u32();
        if c.err is Some {
            (arbitrary(), c)
        } else if n > limit {
            (arbitrary(), c.fail(DecodeError::BadLength(n)))
        } else {
            c.items::<P>(n as nat)
        }
    }
}

// ---------------------------------------------------------------------------
// What a field written can be read back as, and reading past what is there
// ---------------------------------------------------------------------------

/// Concatenation groups either way.
pub broadcast proof fn concat_assoc(a: Seq<u8>, b: Seq<u8>, c: Seq<u8>)
    ensures
        #[trigger] ((a + b) + c) == a + (b + c),
{
    assert((a + b) + c =~= a + (b + c));
}

/// Reading starts at the first field, however the fields are grouped.
pub broadcast proof fn regroup(a: Seq<u8>, b: Seq<u8>, c: Seq<u8>)
    ensures
        #[trigger] Cursor::at((a + b) + c) == Cursor::at(a + (b + c)),
{
    concat_assoc(a, b, c);
}

/// Nothing written before a field leaves the field alone.
pub broadcast proof fn concat_empty(a: Seq<u8>)
    ensures
        #[trigger] (Seq::<u8>::empty() + a) == a,
{
    assert(Seq::<u8>::empty() + a =~= a);
}

/// A word's bytes hold the word.
pub broadcast proof fn le_u32_inverse(v: u32)
    ensures
        #[trigger] of_le_u32(le_u32(v)) == v,
{
    reveal(le_u32);
}

/// A word takes four bytes.
pub broadcast proof fn le_u32_len(v: u32)
    ensures
        (#[trigger] le_u32(v)).len() == 4,
{
    reveal(le_u32);
}

/// A double word's bytes hold the double word.
pub broadcast proof fn le_u64_inverse(v: u64)
    ensures
        #[trigger] of_le_u64(le_u64(v)) == v,
{
    reveal(le_u64);
    reveal(le_u32);
    let low = (v as int % 0x1_0000_0000) as u32;
    let high = (v as int / 0x1_0000_0000) as u32;
    le_u32_inverse(low);
    le_u32_inverse(high);
    assert(le_u64(v).take(4) =~= le_u32(low));
    assert(le_u64(v).skip(4) =~= le_u32(high));
}

/// Taking as many bytes as were written gives them back.
pub broadcast proof fn take_written(b: Seq<u8>, tail: Seq<u8>)
    ensures
        #[trigger] Cursor::at(b + tail).take(b.len()) == (b, Cursor::at(tail)),
{
    assert((b + tail).take(b.len() as int) =~= b);
    assert((b + tail).skip(b.len() as int) =~= tail);
}

/// A byte written is the byte read.
pub broadcast proof fn u8_written(v: u8, tail: Seq<u8>)
    ensures
        #[trigger] Cursor::at(seq![v] + tail).u8() == (v, Cursor::at(tail)),
{
    reveal(Cursor::u8);
    take_written(seq![v], tail);
}

/// A word written is the word read.
pub broadcast proof fn u32_written(v: u32, tail: Seq<u8>)
    ensures
        #[trigger] Cursor::at(le_u32(v) + tail).u32() == (v, Cursor::at(tail)),
{
    reveal(Cursor::u32);
    reveal(le_u32);
    le_u32_inverse(v);
    take_written(le_u32(v), tail);
}

/// A double word written is the double word read.
pub broadcast proof fn u64_written(v: u64, tail: Seq<u8>)
    ensures
        #[trigger] Cursor::at(le_u64(v) + tail).u64() == (v, Cursor::at(tail)),
{
    reveal(Cursor::u64);
    reveal(le_u64);
    reveal(le_u32);
    le_u64_inverse(v);
    take_written(le_u64(v), tail);
}

/// A signed word written is the signed word read.
pub broadcast proof fn i32_written(v: i32, tail: Seq<u8>)
    ensures
        #[trigger] Cursor::at(le_u32(bits_of_i32(v)) + tail).i32() == (v, Cursor::at(tail)),
{
    reveal(Cursor::i32);
    u32_written(bits_of_i32(v), tail);
}

/// Bytes written are the bytes read, where the prefix can carry their length.
pub broadcast proof fn blob_written(b: Seq<u8>, tail: Seq<u8>)
    requires
        blob_fits(b),
    ensures
        #[trigger] Cursor::at(blob(b) + tail).blob() == (b, Cursor::at(tail)),
{
    reveal(Cursor::blob);
    reveal(blob);
    concat_assoc(le_u32(length_prefix(b.len())), b, tail);
    u32_written(length_prefix(b.len()), b + tail);
    take_written(b, tail);
}

/// Text written is the text read, where the prefix can carry its length.
pub broadcast proof fn text_written(t: Seq<char>, tail: Seq<u8>)
    requires
        text_fits(t),
    ensures
        #[trigger] Cursor::at(text(t) + tail).text() == (t, Cursor::at(tail)),
{
    reveal(Cursor::text);
    reveal(text);
    encode_utf8_valid_utf8(t);
    encode_utf8_decode_utf8(t);
    blob_written(encode_utf8(t), tail);
}

/// An optional text written is the one read.
pub broadcast proof fn opt_text_written(t: Option<Seq<char>>, tail: Seq<u8>)
    requires
        opt_text_fits(t),
    ensures
        #[trigger] Cursor::at(opt_text(t) + tail).opt_text() == (t, Cursor::at(tail)),
{
    reveal(Cursor::opt_text);
    reveal(Cursor::opt_blob);
    reveal(opt_text);
    reveal(text);
    match t {
        None => u8_written(0, tail),
        Some(t) => {
            encode_utf8_valid_utf8(t);
            encode_utf8_decode_utf8(t);
            concat_assoc(seq![1u8], text(t), tail);
            u8_written(1, text(t) + tail);
            blob_written(encode_utf8(t), tail);
        },
    }
}

/// What a cursor sees when more bytes follow the ones it has.
pub open spec fn extended(c: Cursor, more: Seq<u8>) -> Cursor {
    Cursor { rest: c.rest + more, err: c.err }
}

/// A read that goes well does not depend on what follows.
pub broadcast proof fn take_extends(c: Cursor, n: nat, more: Seq<u8>)
    requires
        c.take(n).1.err is None,
    ensures
        #[trigger] extended(c, more).take(n) == (c.take(n).0, extended(c.take(n).1, more)),
{
    assert((c.rest + more).take(n as int) =~= c.rest.take(n as int));
    assert((c.rest + more).skip(n as int) =~= c.rest.skip(n as int) + more);
}

/// Reading a byte well does not depend on what follows.
pub broadcast proof fn u8_extends(c: Cursor, more: Seq<u8>)
    requires
        c.u8().1.err is None,
    ensures
        #[trigger] extended(c, more).u8() == (c.u8().0, extended(c.u8().1, more)),
{
    reveal(Cursor::u8);
    take_extends(c, 1, more);
}

/// Reading a word well does not depend on what follows.
pub broadcast proof fn u32_extends(c: Cursor, more: Seq<u8>)
    requires
        c.u32().1.err is None,
    ensures
        #[trigger] extended(c, more).u32() == (c.u32().0, extended(c.u32().1, more)),
{
    reveal(Cursor::u32);
    take_extends(c, 4, more);
}

/// Reading a double word well does not depend on what follows.
pub broadcast proof fn u64_extends(c: Cursor, more: Seq<u8>)
    requires
        c.u64().1.err is None,
    ensures
        #[trigger] extended(c, more).u64() == (c.u64().0, extended(c.u64().1, more)),
{
    reveal(Cursor::u64);
    take_extends(c, 8, more);
}

/// Reading a signed word well does not depend on what follows.
pub broadcast proof fn i32_extends(c: Cursor, more: Seq<u8>)
    requires
        c.i32().1.err is None,
    ensures
        #[trigger] extended(c, more).i32() == (c.i32().0, extended(c.i32().1, more)),
{
    reveal(Cursor::i32);
    reveal(Cursor::u32);
    take_extends(c, 4, more);
}

/// Reading bytes well does not depend on what follows.
pub broadcast proof fn blob_extends(c: Cursor, more: Seq<u8>)
    requires
        c.blob().1.err is None,
    ensures
        #[trigger] extended(c, more).blob() == (c.blob().0, extended(c.blob().1, more)),
{
    reveal(Cursor::blob);
    reveal(Cursor::u32);
    take_extends(c, 4, more);
    let (len, d) = c.u32();
    take_extends(d, len as nat, more);
}

/// Reading text well does not depend on what follows.
pub broadcast proof fn text_extends(c: Cursor, more: Seq<u8>)
    requires
        c.text().1.err is None,
    ensures
        #[trigger] extended(c, more).text() == (c.text().0, extended(c.text().1, more)),
{
    reveal(Cursor::text);
    blob_extends(c, more);
}

/// Reading optional bytes well does not depend on what follows.
pub broadcast proof fn opt_blob_extends(c: Cursor, more: Seq<u8>)
    requires
        c.opt_blob().1.err is None,
    ensures
        #[trigger] extended(c, more).opt_blob() == (c.opt_blob().0, extended(c.opt_blob().1, more)),
{
    reveal(Cursor::opt_blob);
    u8_extends(c, more);
    if c.u8().0 == 1 {
        blob_extends(c.u8().1, more);
    }
}

/// Reading an optional text well does not depend on what follows.
pub broadcast proof fn opt_text_extends(c: Cursor, more: Seq<u8>)
    requires
        c.opt_text().1.err is None,
    ensures
        #[trigger] extended(c, more).opt_text() == (c.opt_text().0, extended(c.opt_text().1, more)),
{
    reveal(Cursor::opt_text);
    opt_blob_extends(c, more);
}

/// A discriminant written is the one read.
pub broadcast proof fn tag_written<T: Tag>(v: T, field: &'static str, tail: Seq<u8>)
    ensures
        #[trigger] Cursor::at(seq![v.tag()] + tail).tag::<T>(field) == (v, Cursor::at(tail)),
{
    reveal(Cursor::tag);
    v.tag_inverse();
    u8_written(v.tag(), tail);
}

/// Reading a discriminant well does not depend on what follows.
pub broadcast proof fn tag_extends<T: Tag>(c: Cursor, field: &'static str, more: Seq<u8>)
    requires
        c.tag::<T>(field).1.err is None,
    ensures
        #[trigger] extended(c, more).tag::<T>(field) == (
            c.tag::<T>(field).0,
            extended(c.tag::<T>(field).1, more),
        ),
{
    reveal(Cursor::tag);
    u8_extends(c, more);
}

/// A byte within its range is read back.
pub broadcast proof fn byte_at_most_written(v: u8, field: &'static str, max: u8, tail: Seq<u8>)
    requires
        v <= max,
    ensures
        #[trigger] Cursor::at(seq![v] + tail).byte_at_most(field, max) == (v, Cursor::at(tail)),
{
    reveal(Cursor::byte_at_most);
    u8_written(v, tail);
}

/// Reading a byte in range does not depend on what follows.
pub broadcast proof fn byte_at_most_extends(c: Cursor, field: &'static str, max: u8, more: Seq<u8>)
    requires
        c.byte_at_most(field, max).1.err is None,
    ensures
        #[trigger] extended(c, more).byte_at_most(field, max) == (
            c.byte_at_most(field, max).0,
            extended(c.byte_at_most(field, max).1, more),
        ),
{
    reveal(Cursor::byte_at_most);
    u8_extends(c, more);
}

/// An optional value written is the one read.
pub broadcast proof fn opt_written<P: Piece>(v: Option<P>, field: &'static str, tail: Seq<u8>)
    requires
        opt_fits(v),
    ensures
        #[trigger] Cursor::at(opt(v) + tail).opt::<P>(field) == (v, Cursor::at(tail)),
{
    reveal(Cursor::opt);
    reveal(opt);
    match v {
        None => byte_at_most_written(0, field, 1, tail),
        Some(p) => {
            concat_assoc(seq![1u8], p.wire(), tail);
            byte_at_most_written(1, field, 1, p.wire() + tail);
            p.wire_written(tail);
        },
    }
}

/// Reading an optional value well does not depend on what follows.
pub broadcast proof fn opt_extends<P: Piece>(c: Cursor, field: &'static str, more: Seq<u8>)
    requires
        c.opt::<P>(field).1.err is None,
    ensures
        #[trigger] extended(c, more).opt::<P>(field) == (
            c.opt::<P>(field).0,
            extended(c.opt::<P>(field).1, more),
        ),
{
    reveal(Cursor::opt);
    let (flag, d) = c.byte_at_most(field, 1);
    byte_at_most_extends(c, field, 1, more);
    if flag == 1 {
        P::read_extends(d, more);
    }
}

/// An optional discriminant written is the one read.
pub broadcast proof fn opt_tag_written<T: Tag>(v: Option<T>, field: &'static str, tail: Seq<u8>)
    ensures
        #[trigger] Cursor::at(opt_tag(v) + tail).opt_tag::<T>(field) == (v, Cursor::at(tail)),
{
    reveal(Cursor::opt_tag);
    reveal(opt_tag);
    match v {
        None => byte_at_most_written(0, field, 1, tail),
        Some(t) => {
            concat_assoc(seq![1u8], seq![t.tag()], tail);
            byte_at_most_written(1, field, 1, seq![t.tag()] + tail);
            tag_written(t, field, tail);
        },
    }
}

/// Reading an optional discriminant well does not depend on what follows.
pub broadcast proof fn opt_tag_extends<T: Tag>(c: Cursor, field: &'static str, more: Seq<u8>)
    requires
        c.opt_tag::<T>(field).1.err is None,
    ensures
        #[trigger] extended(c, more).opt_tag::<T>(field) == (
            c.opt_tag::<T>(field).0,
            extended(c.opt_tag::<T>(field).1, more),
        ),
{
    reveal(Cursor::opt_tag);
    let (flag, d) = c.byte_at_most(field, 1);
    byte_at_most_extends(c, field, 1, more);
    if flag == 1 {
        tag_extends::<T>(d, field, more);
    }
}

/// A body inside another one is read back.
pub broadcast proof fn embedded_written<M: Body>(v: M, tail: Seq<u8>)
    requires
        v.fits(),
    ensures
        #[trigger] M::read(Cursor::at(blob(v.body()) + tail)) == (v, Cursor::at(tail)),
{
    v.wire_written(tail);
}

/// Reading a body inside another one does not depend on what follows it.
pub broadcast proof fn embedded_extends<M: Body>(c: Cursor, more: Seq<u8>)
    requires
        M::read(c).1.err is None,
    ensures
        #[trigger] M::read(extended(c, more)) == (M::read(c).0, extended(M::read(c).1, more)),
{
    M::read_extends(c, more);
}

/// Items written are the items read.
pub proof fn items_written<P: Piece>(v: Seq<P>, tail: Seq<u8>)
    requires
        forall|i: int| 0 <= i < v.len() ==> (#[trigger] v[i]).fits(),
    ensures
        Cursor::at(items(v) + tail).items::<P>(v.len()) == (v, Cursor::at(tail)),
    decreases v.len(),
{
    if v.len() == 0 {
        concat_empty(tail);
        assert(v =~= Seq::<P>::empty());
    } else {
        assert forall|i: int| 0 <= i < v.drop_last().len() implies (
        #[trigger] v.drop_last()[i]).fits() by {
            assert(v[i].fits());
        }
        concat_assoc(items(v.drop_last()), v.last().wire(), tail);
        items_written(v.drop_last(), v.last().wire() + tail);
        assert(v[v.len() - 1].fits());
        v.last().wire_written(tail);
        assert(v.drop_last().push(v.last()) =~= v);
    }
}

/// Where reading one item fails, reading the whole list ends there.
pub proof fn items_stuck<P: Piece>(c: Cursor, i: nat, n: nat)
    requires
        i < n,
        P::read(c.items::<P>(i).1).1.err is Some,
    ensures
        c.items::<P>(n).1 == P::read(c.items::<P>(i).1).1,
    decreases n,
{
    assert(((i + 1) - 1) as nat == i);
    assert(c.items::<P>(i + 1).1 == P::read(c.items::<P>(i).1).1);
    if i + 1 < n {
        items_stuck::<P>(c, i, (n - 1) as nat);
        P::read_stuck(c.items::<P>((n - 1) as nat).1);
    }
}

/// Reading items well does not depend on what follows.
pub proof fn items_extends<P: Piece>(c: Cursor, n: nat, more: Seq<u8>)
    requires
        c.items::<P>(n).1.err is None,
    ensures
        extended(c, more).items::<P>(n) == (c.items::<P>(n).0, extended(c.items::<P>(n).1, more)),
    decreases n,
{
    if n > 0 {
        let d = c.items::<P>((n - 1) as nat).1;
        if d.err is Some {
            P::read_stuck(d);
        }
        items_extends::<P>(c, (n - 1) as nat, more);
        P::read_extends(d, more);
    }
}

/// A list written is the list read.
pub broadcast proof fn list_written<P: Piece>(v: Seq<P>, limit: u32, tail: Seq<u8>)
    requires
        list_fits(v, limit),
    ensures
        #[trigger] Cursor::at(list(v) + tail).list::<P>(limit) == (v, Cursor::at(tail)),
{
    reveal(Cursor::list);
    reveal(list);
    concat_assoc(le_u32(length_prefix(v.len())), items(v), tail);
    u32_written(length_prefix(v.len()), items(v) + tail);
    items_written(v, tail);
}

/// Reading a list well does not depend on what follows.
pub broadcast proof fn list_extends<P: Piece>(c: Cursor, limit: u32, more: Seq<u8>)
    requires
        c.list::<P>(limit).1.err is None,
    ensures
        #[trigger] extended(c, more).list::<P>(limit) == (
            c.list::<P>(limit).0,
            extended(c.list::<P>(limit).1, more),
        ),
{
    reveal(Cursor::list);
    u32_extends(c, more);
    let (n, d) = c.u32();
    items_extends::<P>(d, n as nat, more);
}

// A cursor that failed stays where it is, whatever is read next.

/// Reading a byte after a failure changes nothing.
pub broadcast proof fn u8_stuck(c: Cursor)
    requires
        c.err is Some,
    ensures
        (#[trigger] c.u8()).1 == c,
{
    reveal(Cursor::u8);
}

/// Reading a word after a failure changes nothing.
pub broadcast proof fn u32_stuck(c: Cursor)
    requires
        c.err is Some,
    ensures
        (#[trigger] c.u32()).1 == c,
{
    reveal(Cursor::u32);
}

/// Reading a double word after a failure changes nothing.
pub broadcast proof fn u64_stuck(c: Cursor)
    requires
        c.err is Some,
    ensures
        (#[trigger] c.u64()).1 == c,
{
    reveal(Cursor::u64);
}

/// Reading a signed word after a failure changes nothing.
pub broadcast proof fn i32_stuck(c: Cursor)
    requires
        c.err is Some,
    ensures
        (#[trigger] c.i32()).1 == c,
{
    reveal(Cursor::i32);
    reveal(Cursor::u32);
}

/// Reading bytes after a failure changes nothing.
pub broadcast proof fn blob_stuck(c: Cursor)
    requires
        c.err is Some,
    ensures
        (#[trigger] c.blob()).1 == c,
{
    reveal(Cursor::blob);
    reveal(Cursor::u32);
}

/// Reading text after a failure changes nothing.
pub broadcast proof fn text_stuck(c: Cursor)
    requires
        c.err is Some,
    ensures
        (#[trigger] c.text()).1 == c,
{
    reveal(Cursor::text);
    reveal(Cursor::blob);
    reveal(Cursor::u32);
}

/// Reading an optional text after a failure changes nothing.
pub broadcast proof fn opt_text_stuck(c: Cursor)
    requires
        c.err is Some,
    ensures
        (#[trigger] c.opt_text()).1 == c,
{
    reveal(Cursor::opt_text);
    reveal(Cursor::opt_blob);
    reveal(Cursor::u8);
}

/// Reading a discriminant after a failure changes nothing.
pub broadcast proof fn tag_stuck<T: Tag>(c: Cursor, field: &'static str)
    requires
        c.err is Some,
    ensures
        (#[trigger] c.tag::<T>(field)).1 == c,
{
    reveal(Cursor::tag);
    reveal(Cursor::u8);
}

/// Reading a byte in range after a failure changes nothing.
pub broadcast proof fn byte_at_most_stuck(c: Cursor, field: &'static str, max: u8)
    requires
        c.err is Some,
    ensures
        (#[trigger] c.byte_at_most(field, max)).1 == c,
{
    reveal(Cursor::byte_at_most);
    reveal(Cursor::u8);
}

/// Reading an optional value after a failure changes nothing.
pub broadcast proof fn opt_stuck<P: Piece>(c: Cursor, field: &'static str)
    requires
        c.err is Some,
    ensures
        (#[trigger] c.opt::<P>(field)).1 == c,
{
    reveal(Cursor::opt);
    reveal(Cursor::byte_at_most);
    reveal(Cursor::u8);
}

/// Reading an optional discriminant after a failure changes nothing.
pub broadcast proof fn opt_tag_stuck<T: Tag>(c: Cursor, field: &'static str)
    requires
        c.err is Some,
    ensures
        (#[trigger] c.opt_tag::<T>(field)).1 == c,
{
    reveal(Cursor::opt_tag);
    reveal(Cursor::byte_at_most);
    reveal(Cursor::u8);
}

/// Reading a list after a failure changes nothing.
pub broadcast proof fn list_stuck<P: Piece>(c: Cursor, limit: u32)
    requires
        c.err is Some,
    ensures
        (#[trigger] c.list::<P>(limit)).1 == c,
{
    reveal(Cursor::list);
    reveal(Cursor::u32);
}

/// Reading an embedded body after a failure changes nothing.
pub broadcast proof fn embedded_stuck<M: Body>(c: Cursor)
    requires
        c.err is Some,
    ensures
        (#[trigger] M::read(c)).1 == c,
{
    reveal(Cursor::blob);
    reveal(Cursor::u32);
}

/// Nothing is read after a failure.
pub broadcast group group_stuck {
    u8_stuck,
    u32_stuck,
    u64_stuck,
    i32_stuck,
    blob_stuck,
    text_stuck,
    opt_text_stuck,
    tag_stuck,
    byte_at_most_stuck,
    opt_stuck,
    opt_tag_stuck,
    list_stuck,
    embedded_stuck,
}

/// Reading back, field by field, what a body's layout wrote.
pub broadcast group group_written {
    regroup,
    u8_written,
    u32_written,
    u64_written,
    i32_written,
    blob_written,
    text_written,
    opt_text_written,
    tag_written,
    byte_at_most_written,
    opt_written,
    opt_tag_written,
    embedded_written,
    list_written,
}

/// Reading the same fields when more bytes follow.
pub broadcast group group_extends {
    u8_extends,
    u32_extends,
    u64_extends,
    i32_extends,
    blob_extends,
    text_extends,
    opt_text_extends,
    tag_extends,
    byte_at_most_extends,
    opt_extends,
    opt_tag_extends,
    embedded_extends,
    list_extends,
}

// ---------------------------------------------------------------------------
// The laws of every message body
// ---------------------------------------------------------------------------

/// Encoding then decoding gives the value back, for every message body and
/// whatever bytes a newer writer appended.
pub proof fn decode_inverts_encode<M: Body>(v: M, trailing: Seq<u8>)
    requires
        v.body_fits(),
    ensures
        decoded::<M>(v.body() + trailing) == Ok::<M, DecodeError>(v),
{
    v.body_written(trailing);
}

/// Decoders ignore trailing bytes: whatever payload decodes, decodes to the
/// same value with anything appended.
pub proof fn decode_ignores_trailing<M: Body>(payload: Seq<u8>, trailing: Seq<u8>)
    requires
        decoded::<M>(payload) is Ok,
    ensures
        decoded::<M>(payload + trailing) == decoded::<M>(payload),
{
    M::parse_extends(payload, trailing);
}

/// Decoders reject a short payload: no encoding decodes once cut anywhere.
pub proof fn decode_rejects_truncation<M: Body>(v: M, kept: int)
    requires
        v.body_fits(),
        0 <= kept < v.body().len(),
    ensures
        decoded::<M>(v.body().take(kept)) is Err,
{
    let cut = v.body().take(kept);
    let lost = v.body().skip(kept);
    if decoded::<M>(cut) is Ok {
        M::parse_extends(cut, lost);
        v.body_written(Seq::empty());
        assert(cut + lost =~= v.body());
        assert(v.body() + Seq::<u8>::empty() =~= v.body());
        assert(extended(M::parse(Cursor::at(cut)).1, lost).rest.len() >= lost.len());
    }
}

/// Two values with the same encoding are the same value.
pub proof fn encode_is_injective<M: Body>(v: M, w: M)
    requires
        v.body_fits(),
        w.body_fits(),
        v.body() == w.body(),
    ensures
        v == w,
{
    v.body_written(Seq::empty());
    w.body_written(Seq::empty());
}

} // verus!
