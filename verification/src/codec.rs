//! Hand-written little-endian primitives. The repertoire is fixed: `u8`,
//! `u32`/`u64`/`i32` LE, length-prefixed bytes, length-prefixed UTF-8, and an
//! option flag plus value. Anything else is a second encoding waiting to
//! disagree with the first.

use vstd::prelude::*;
use vstd::slice::slice_subrange;
use vstd::utf8::{encode_utf8, encode_utf8_decode_utf8, valid_utf8};

use crate::text::{decimal, hex_byte, push_decimal, push_hex_byte};
use crate::wire::{bits_of_i32, blob, le_u32, le_u64, opt_blob, opt_text, text, Cursor};

verus! {

/// What went wrong reading a message off the wire.
#[allow(inconsistent_fields)]
#[derive(Debug, Clone, PartialEq, Eq)]
pub enum DecodeError {
    /// Magic is not `OZVP`.
    BadMagic { got: [u8; 4] },
    /// Fewer than the 13 header bytes arrived.
    TruncatedHeader { len: usize },
    /// The payload is shorter than `payload_len` promised.
    TruncatedPayload { want: usize, got: usize },
    /// A field ran past the payload end.
    Overrun,
    /// A `u8` discriminant names nothing this side knows.
    UnknownOpcode(u8),
    /// A length prefix exceeds the remaining payload, or a count its limit.
    BadLength(u32),
    /// A UTF-8 field is not valid UTF-8.
    BadUtf8,
    /// An option flag is not 0 or 1.
    BadOptionFlag(u8),
    /// A discriminant or flag names nothing its field knows.
    BadValue {
        /// Which field failed, as written in the body.
        field: &'static str,
        /// The byte that failed it.
        value: u8,
    },
}

impl DecodeError {
    /// The rendered text.
    pub open spec fn text(self) -> Seq<char> {
        match self {
            DecodeError::BadMagic { got } => "bad voip ABI magic: ["@ + hex_byte(got[0]) + ", "@
                + hex_byte(got[1]) + ", "@ + hex_byte(got[2]) + ", "@ + hex_byte(got[3])
                + "], want OZVP"@,
            DecodeError::TruncatedHeader { len } => "voip ABI header truncated: "@ + decimal(
                len as nat,
            ) + " bytes"@,
            DecodeError::TruncatedPayload { want, got } => "voip ABI payload truncated: want "@
                + decimal(want as nat) + ", got "@ + decimal(got as nat),
            DecodeError::Overrun => "voip ABI field ran past the payload end"@,
            DecodeError::UnknownOpcode(op) => "unknown voip ABI opcode 0x"@ + hex_byte(op),
            DecodeError::BadLength(n) => "bad voip ABI length prefix "@ + decimal(n as nat),
            DecodeError::BadUtf8 => "voip ABI UTF-8 field is not valid UTF-8"@,
            DecodeError::BadOptionFlag(b) => "bad voip ABI option flag 0x"@ + hex_byte(b),
            DecodeError::BadValue { field, value } => "bad voip ABI "@ + field@ + ": 0x"@
                + hex_byte(value),
        }
    }

    /// Renders the error for a log or a caller.
    pub fn message(&self) -> (s: String)
        ensures
            s@ == self.text(),
    {
        let mut s = String::new();
        match self {
            DecodeError::BadMagic { got } => {
                s = "bad voip ABI magic: [".to_owned();
                push_hex_byte(&mut s, got[0]);
                s.push_str(", ");
                push_hex_byte(&mut s, got[1]);
                s.push_str(", ");
                push_hex_byte(&mut s, got[2]);
                s.push_str(", ");
                push_hex_byte(&mut s, got[3]);
                s.push_str("], want OZVP");
            },
            DecodeError::TruncatedHeader { len } => {
                s = "voip ABI header truncated: ".to_owned();
                push_decimal(&mut s, *len as u64);
                s.push_str(" bytes");
            },
            DecodeError::TruncatedPayload { want, got } => {
                s = "voip ABI payload truncated: want ".to_owned();
                push_decimal(&mut s, *want as u64);
                s.push_str(", got ");
                push_decimal(&mut s, *got as u64);
            },
            DecodeError::Overrun => {
                s = "voip ABI field ran past the payload end".to_owned();
            },
            DecodeError::UnknownOpcode(op) => {
                s = "unknown voip ABI opcode 0x".to_owned();
                push_hex_byte(&mut s, *op);
            },
            DecodeError::BadLength(n) => {
                s = "bad voip ABI length prefix ".to_owned();
                push_decimal(&mut s, *n as u64);
            },
            DecodeError::BadUtf8 => {
                s = "voip ABI UTF-8 field is not valid UTF-8".to_owned();
            },
            DecodeError::BadOptionFlag(b) => {
                s = "bad voip ABI option flag 0x".to_owned();
                push_hex_byte(&mut s, *b);
            },
            DecodeError::BadValue { field, value } => {
                s = "bad voip ABI ".to_owned();
                s.push_str(field);
                s.push_str(": 0x");
                push_hex_byte(&mut s, *value);
            },
        }
        s
    }
}

/// The error of [`core::str::from_utf8`].
#[verifier::external_type_specification]
#[verifier::external_body]
pub struct ExUtf8Error(core::str::Utf8Error);

/// [`core::str::from_utf8`] succeeds exactly on valid UTF-8, and the string
/// it returns has those very bytes.
pub assume_specification[ core::str::from_utf8 ](v: &[u8]) -> (res: Result<
    &str,
    core::str::Utf8Error,
>)
    ensures
        res is Ok <==> valid_utf8(v@),
        res matches Ok(s) ==> encode_utf8(s@) == v@,
;

/// Appends the fixed repertoire to a byte buffer.
#[derive(Debug, Default)]
pub struct Writer {
    buf: Vec<u8>,
}

impl View for Writer {
    type V = Seq<u8>;

    closed spec fn view(&self) -> Seq<u8> {
        self.buf@
    }
}

impl Writer {
    /// An empty payload buffer.
    pub fn new() -> (w: Self)
        ensures
            w@ == Seq::<u8>::empty(),
    {
        Writer { buf: Vec::new() }
    }

    /// The bytes written so far.
    pub fn bytes(&self) -> (b: &[u8])
        ensures
            b@ == self@,
    {
        self.buf.as_slice()
    }

    /// Consumes the writer into the finished payload.
    pub fn finish(self) -> (b: Vec<u8>)
        ensures
            b@ == self@,
    {
        self.buf
    }

    /// A single byte: opcodes, kinds, flags, small enums.
    pub fn u8(&mut self, v: u8)
        ensures
            final(self)@ == old(self)@ + seq![v],
    {
        self.buf.push(v);
    }

    /// 32-bit little-endian: handles, lengths, counts, bitrates.
    pub fn u32_le(&mut self, v: u32)
        ensures
            final(self)@ == old(self)@ + le_u32(v),
    {
        proof {
            reveal(le_u32);
        }
        self.buf.push((v % 256) as u8);
        self.buf.push((v / 0x100 % 256) as u8);
        self.buf.push((v / 0x1_0000 % 256) as u8);
        self.buf.push((v / 0x100_0000 % 256) as u8);
    }

    /// 64-bit little-endian: generations, epochs.
    pub fn u64_le(&mut self, v: u64)
        ensures
            final(self)@ == old(self)@ + le_u64(v),
    {
        proof {
            reveal(le_u64);
        }
        self.u32_le((v % 0x1_0000_0000) as u32);
        self.u32_le((v / 0x1_0000_0000) as u32);
    }

    /// 32-bit little-endian two's complement: signed counters.
    pub fn i32_le(&mut self, v: i32)
        ensures
            final(self)@ == old(self)@ + le_u32(bits_of_i32(v)),
    {
        if v < 0 {
            self.u32_le((v as i64 + 0x1_0000_0000) as u32);
        } else {
            self.u32_le(v as u32);
        }
    }

    /// `u32` length prefix plus the raw bytes.
    pub fn bytes_raw(&mut self, v: &[u8])
        ensures
            final(self)@ == old(self)@ + blob(v@),
    {
        proof {
            reveal(blob);
        }
        self.u32_le((v.len() as u64 % 0x1_0000_0000) as u32);
        self.buf.extend_from_slice(v);
        assert(self@ =~= old(self)@ + blob(v@));
    }

    /// `u32` length prefix plus the UTF-8 bytes.
    pub fn utf8(&mut self, v: &str)
        ensures
            final(self)@ == old(self)@ + text(v@),
    {
        proof {
            reveal(text);
        }
        self.bytes_raw(v.as_bytes());
    }

    /// A 0/1 flag plus the value when present.
    pub fn option(&mut self, v: Option<&[u8]>)
        ensures
            final(self)@ == old(self)@ + opt_blob(
                match v {
                    None => None,
                    Some(b) => Some(b@),
                },
            ),
    {
        proof {
            reveal(opt_blob);
        }
        match v {
            None => self.u8(0),
            Some(b) => {
                self.u8(1);
                self.bytes_raw(b);
                assert(self@ =~= old(self)@ + (seq![1u8] + blob(b@)));
            },
        }
    }

    /// A 0/1 flag plus the UTF-8 value when present.
    pub fn option_str(&mut self, v: Option<&str>)
        ensures
            final(self)@ == old(self)@ + opt_text(
                match v {
                    None => None,
                    Some(t) => Some(t@),
                },
            ),
    {
        proof {
            reveal(opt_blob);
            reveal(opt_text);
            reveal(text);
        }
        match v {
            None => self.option(None),
            Some(t) => self.option(Some(t.as_bytes())),
        }
    }
}

/// Reads the fixed repertoire back out of a payload slice. Its view is the
/// bytes still unread.
#[derive(Debug)]
pub struct Reader<'a> {
    buf: &'a [u8],
    pos: usize,
}

impl<'a> View for Reader<'a> {
    type V = Seq<u8>;

    closed spec fn view(&self) -> Seq<u8> {
        self.buf@.skip(self.pos as int)
    }
}

impl<'a> Reader<'a> {
    /// Everything the reader was made over.
    pub closed spec fn whole(&self) -> Seq<u8> {
        self.buf@
    }

    /// How many bytes were read.
    pub closed spec fn position(&self) -> int {
        self.pos as int
    }

    /// What is unread is the whole buffer behind what was read.
    pub proof fn the_unread_is_behind_the_read(&self)
        ensures
            self@ == self.whole().skip(self.position()),
    {
    }

    /// The position lies inside the buffer.
    #[verifier::type_invariant]
    closed spec fn wf(&self) -> bool {
        self.pos <= self.buf@.len()
    }

    /// Reads from the start of `buf`.
    pub fn new(buf: &'a [u8]) -> (r: Self)
        ensures
            r@ == buf@,
            r.whole() == buf@,
    {
        Reader { buf, pos: 0 }
    }

    fn take(&mut self, n: usize) -> (res: Result<&'a [u8], DecodeError>)
        ensures
            final(self).whole() == old(self).whole(),
            final(self)@ == Cursor::at(old(self)@).take(n as nat).1.rest,
            match res {
                Ok(b) => Cursor::at(old(self)@).take(n as nat) == (b@, Cursor::at(final(self)@)),
                Err(e) => Cursor::at(old(self)@).take(n as nat).1.err == Some(e),
            },
    {
        proof {
            use_type_invariant(&*self);
        }
        if n > self.buf.len() - self.pos {
            return Err(DecodeError::Overrun);
        }
        let end: usize = self.pos + n;
        let out = slice_subrange(self.buf, self.pos, end);
        assert(out@ =~= self@.take(n as int));
        assert(self.buf@.skip(end as int) =~= self@.skip(n as int));
        self.pos = end;
        Ok(out)
    }

    /// Bytes consumed so far.
    pub fn consumed(&self) -> (n: usize)
        ensures
            n == self.position(),
            n == self.whole().len() - self@.len(),
            self@ == self.whole().skip(n as int),
    {
        proof {
            use_type_invariant(&*self);
        }
        self.pos
    }

    /// Bytes still unread. Trailing bytes are legal (newer minor fields).
    pub fn remaining(&self) -> (n: usize)
        ensures
            n == self@.len(),
    {
        proof {
            use_type_invariant(&*self);
        }
        self.buf.len() - self.pos
    }

    /// A single byte.
    pub fn u8(&mut self) -> (res: Result<u8, DecodeError>)
        ensures
            final(self).whole() == old(self).whole(),
            final(self)@ == Cursor::at(old(self)@).u8().1.rest,
            res == Cursor::at(old(self)@).u8().1.outcome(Cursor::at(old(self)@).u8().0),
    {
        proof {
            reveal(Cursor::u8);
        }
        let b = self.take(1)?;
        Ok(b[0])
    }

    /// 32-bit little-endian.
    pub fn u32_le(&mut self) -> (res: Result<u32, DecodeError>)
        ensures
            final(self).whole() == old(self).whole(),
            final(self)@ == Cursor::at(old(self)@).u32().1.rest,
            res == Cursor::at(old(self)@).u32().1.outcome(Cursor::at(old(self)@).u32().0),
    {
        proof {
            reveal(Cursor::u32);
        }
        let b = self.take(4)?;
        Ok(b[0] as u32 + b[1] as u32 * 0x100 + b[2] as u32 * 0x1_0000 + b[3] as u32 * 0x100_0000)
    }

    /// 64-bit little-endian.
    pub fn u64_le(&mut self) -> (res: Result<u64, DecodeError>)
        ensures
            final(self).whole() == old(self).whole(),
            final(self)@ == Cursor::at(old(self)@).u64().1.rest,
            res == Cursor::at(old(self)@).u64().1.outcome(Cursor::at(old(self)@).u64().0),
    {
        proof {
            reveal(Cursor::u64);
        }
        let b = self.take(8)?;
        let low: u32 = b[0] as u32 + b[1] as u32 * 0x100 + b[2] as u32 * 0x1_0000 + b[3] as u32
            * 0x100_0000;
        let high: u32 = b[4] as u32 + b[5] as u32 * 0x100 + b[6] as u32 * 0x1_0000 + b[7] as u32
            * 0x100_0000;
        Ok(low as u64 + high as u64 * 0x1_0000_0000)
    }

    /// 32-bit little-endian two's complement.
    pub fn i32_le(&mut self) -> (res: Result<i32, DecodeError>)
        ensures
            final(self).whole() == old(self).whole(),
            final(self)@ == Cursor::at(old(self)@).i32().1.rest,
            res == Cursor::at(old(self)@).i32().1.outcome(Cursor::at(old(self)@).i32().0),
    {
        proof {
            reveal(Cursor::i32);
        }
        let bits: u32 = self.u32_le()?;
        if bits > 0x7fff_ffff {
            Ok((bits as i64 - 0x1_0000_0000) as i32)
        } else {
            Ok(bits as i32)
        }
    }

    /// `u32` length prefix plus the raw bytes.
    pub fn bytes_raw(&mut self) -> (res: Result<&'a [u8], DecodeError>)
        ensures
            final(self).whole() == old(self).whole(),
            final(self)@ == Cursor::at(old(self)@).blob().1.rest,
            match res {
                Ok(b) => Cursor::at(old(self)@).blob() == (b@, Cursor::at(final(self)@)),
                Err(e) => Cursor::at(old(self)@).blob().1.err == Some(e),
            },
    {
        proof {
            reveal(Cursor::blob);
            reveal(Cursor::u32);
        }
        let len: u32 = self.u32_le()?;
        if len as usize > self.remaining() {
            return Err(DecodeError::BadLength(len));
        }
        self.take(len as usize)
    }

    /// `u32` length prefix plus valid UTF-8.
    pub fn utf8(&mut self) -> (res: Result<&'a str, DecodeError>)
        ensures
            final(self).whole() == old(self).whole(),
            final(self)@ == Cursor::at(old(self)@).text().1.rest,
            match res {
                Ok(t) => Cursor::at(old(self)@).text() == (t@, Cursor::at(final(self)@)),
                Err(e) => Cursor::at(old(self)@).text().1.err == Some(e),
            },
    {
        proof {
            reveal(Cursor::text);
        }
        broadcast use encode_utf8_decode_utf8;

        let raw = self.bytes_raw()?;
        match core::str::from_utf8(raw) {
            Ok(t) => Ok(t),
            Err(_) => Err(DecodeError::BadUtf8),
        }
    }

    /// A 0/1 flag plus the value when present.
    pub fn option(&mut self) -> (res: Result<Option<&'a [u8]>, DecodeError>)
        ensures
            final(self).whole() == old(self).whole(),
            final(self)@ == Cursor::at(old(self)@).opt_blob().1.rest,
            match res {
                Ok(None) => Cursor::at(old(self)@).opt_blob() == (
                    None::<Seq<u8>>,
                    Cursor::at(final(self)@),
                ),
                Ok(Some(b)) => Cursor::at(old(self)@).opt_blob() == (
                    Some(b@),
                    Cursor::at(final(self)@),
                ),
                Err(e) => Cursor::at(old(self)@).opt_blob().1.err == Some(e),
            },
    {
        proof {
            reveal(Cursor::opt_blob);
        }
        match self.u8()? {
            0 => Ok(None),
            1 => Ok(Some(self.bytes_raw()?)),
            b => Err(DecodeError::BadOptionFlag(b)),
        }
    }

    /// A 0/1 flag plus the UTF-8 value when present.
    pub fn option_str(&mut self) -> (res: Result<Option<&'a str>, DecodeError>)
        ensures
            final(self).whole() == old(self).whole(),
            final(self)@ == Cursor::at(old(self)@).opt_text().1.rest,
            match res {
                Ok(None) => Cursor::at(old(self)@).opt_text() == (
                    None::<Seq<char>>,
                    Cursor::at(final(self)@),
                ),
                Ok(Some(t)) => Cursor::at(old(self)@).opt_text() == (
                    Some(t@),
                    Cursor::at(final(self)@),
                ),
                Err(e) => Cursor::at(old(self)@).opt_text().1.err == Some(e),
            },
    {
        proof {
            reveal(Cursor::opt_text);
        }
        broadcast use encode_utf8_decode_utf8;

        match self.option()? {
            None => Ok(None),
            Some(raw) => match core::str::from_utf8(raw) {
                Ok(t) => Ok(Some(t)),
                Err(_) => Err(DecodeError::BadUtf8),
            },
        }
    }
}

} // verus!
