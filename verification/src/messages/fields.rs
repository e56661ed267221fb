//! The fields that message bodies share: discriminants, optional values,
//! embedded bodies and lists, written to and read from the wire.

use vstd::prelude::*;
use vstd::slice::slice_to_vec;

use crate::codec::{DecodeError, Reader, Writer};
use crate::secret::SecretBytes;
use crate::wire::{
    concat_assoc, decoded, items, items_stuck, length_prefix, list, opt, opt_tag, u8_stuck, Body,
    Cursor, Piece, Tag,
};

verus! {

/// How many items a list field may carry.
pub const MAX_ITEMS: u32 = 4096;

/// A discriminant with its byte, at run time.
pub trait Discriminant: Tag + Copy {
    /// The byte that names `self`.
    fn to_byte(self) -> (b: u8)
        ensures
            b == self.tag(),
    ;

    /// What `b` names, if anything.
    fn of_byte(b: u8) -> (v: Option<Self>)
        ensures
            v == Self::of_tag(b),
    ;
}

/// A message body that can stand inside another one.
pub trait Dto: View + Sized where Self::V: Body {
    /// The bytes of the body.
    fn to_payload(&self) -> (payload: Vec<u8>)
        ensures
            payload@ == self@.body(),
    ;

    /// The body that the bytes hold.
    fn of_payload(buf: &[u8]) -> (res: Result<Self, DecodeError>)
        ensures
            match res {
                Ok(v) => decoded::<Self::V>(buf@) == Ok::<Self::V, DecodeError>(v@),
                Err(e) => decoded::<Self::V>(buf@) == Err::<Self::V, DecodeError>(e),
            },
    ;
}

/// The model of an optional value.
pub open spec fn opt_view<T: View>(v: Option<T>) -> Option<T::V> {
    match v {
        None => None,
        Some(v) => Some(v@),
    }
}

/// The models of a list's items.
pub open spec fn views<T: View>(v: Seq<T>) -> Seq<T::V> {
    Seq::new(v.len(), |i: int| v[i]@)
}

/// The model of a list of announced rotations.
pub open spec fn rotations(v: Seq<(Option<String>, u8)>) -> Seq<(Option<Seq<char>>, u8)> {
    Seq::new(v.len(), |i: int| (opt_view(v[i].0), v[i].1))
}

/// Borrows an optional text.
pub(crate) fn opt_str(v: &Option<String>) -> (t: Option<&str>)
    ensures
        match t {
            None => *v is None,
            Some(t) => opt_view(*v) == Some(t@),
        },
{
    match v {
        None => None,
        Some(s) => Some(s.as_str()),
    }
}

/// Takes ownership of an optional text.
pub(crate) fn opt_owned(v: Option<&str>) -> (t: Option<String>)
    ensures
        opt_view(t) == match v {
            None => None,
            Some(s) => Some(s@),
        },
{
    match v {
        None => None,
        Some(s) => Some(s.to_owned()),
    }
}

/// Parses one discriminant byte, naming the field on failure.
pub(crate) fn enum_byte<T: Discriminant>(field: &'static str, r: &mut Reader<'_>) -> (res: Result<
    T,
    DecodeError,
>)
    ensures
        final(r)@ == Cursor::at(old(r)@).tag::<T>(field).1.rest,
        res == Cursor::at(old(r)@).tag::<T>(field).1.outcome(
            Cursor::at(old(r)@).tag::<T>(field).0,
        ),
{
    proof {
        reveal(Cursor::tag);
    }
    let raw: u8 = r.u8()?;
    match T::of_byte(raw) {
        Some(v) => Ok(v),
        None => Err(DecodeError::BadValue { field, value: raw }),
    }
}

/// Refuses a byte above `max`, naming the field.
pub(crate) fn at_most(field: &'static str, value: u8, max: u8) -> (res: Result<(), DecodeError>)
    ensures
        res == if value > max {
            Err::<(), DecodeError>(DecodeError::BadValue { field, value })
        } else {
            Ok(())
        },
{
    if value > max {
        Err(DecodeError::BadValue { field, value })
    } else {
        Ok(())
    }
}

/// Reads a byte and refuses one above `max`, naming the field.
pub(crate) fn byte_at_most(field: &'static str, max: u8, r: &mut Reader<'_>) -> (res: Result<
    u8,
    DecodeError,
>)
    ensures
        final(r)@ == Cursor::at(old(r)@).byte_at_most(field, max).1.rest,
        res == Cursor::at(old(r)@).byte_at_most(field, max).1.outcome(
            Cursor::at(old(r)@).byte_at_most(field, max).0,
        ),
{
    proof {
        reveal(Cursor::byte_at_most);
    }
    let value: u8 = r.u8()?;
    at_most(field, value, max)?;
    Ok(value)
}

/// Writes an `Option<u32>` as a 0/1 flag plus value.
pub(crate) fn encode_option_u32(w: &mut Writer, v: Option<u32>)
    ensures
        final(w)@ == old(w)@ + opt(v),
{
    proof {
        reveal(opt);
    }
    match v {
        None => w.u8(0),
        Some(n) => {
            w.u8(1);
            w.u32_le(n);
            proof {
                concat_assoc(old(w)@, seq![1u8], n.wire());
            }
        },
    }
}

/// Reads an `Option<u32>` written by [`encode_option_u32`].
pub(crate) fn decode_option_u32(r: &mut Reader<'_>, field: &'static str) -> (res: Result<
    Option<u32>,
    DecodeError,
>)
    ensures
        final(r)@ == Cursor::at(old(r)@).opt::<u32>(field).1.rest,
        res == Cursor::at(old(r)@).opt::<u32>(field).1.outcome(
            Cursor::at(old(r)@).opt::<u32>(field).0,
        ),
{
    proof {
        reveal(Cursor::opt);
        reveal(Cursor::byte_at_most);
    }
    match byte_at_most(field, 1, r)? {
        0 => Ok(None),
        _ => Ok(Some(r.u32_le()?)),
    }
}

/// Writes an `Option<u64>` as a 0/1 flag plus value.
pub(crate) fn encode_option_u64(w: &mut Writer, v: Option<u64>)
    ensures
        final(w)@ == old(w)@ + opt(v),
{
    proof {
        reveal(opt);
    }
    match v {
        None => w.u8(0),
        Some(n) => {
            w.u8(1);
            w.u64_le(n);
            proof {
                concat_assoc(old(w)@, seq![1u8], n.wire());
            }
        },
    }
}

/// Reads an `Option<u64>` written by [`encode_option_u64`].
pub(crate) fn decode_option_u64(r: &mut Reader<'_>, field: &'static str) -> (res: Result<
    Option<u64>,
    DecodeError,
>)
    ensures
        final(r)@ == Cursor::at(old(r)@).opt::<u64>(field).1.rest,
        res == Cursor::at(old(r)@).opt::<u64>(field).1.outcome(
            Cursor::at(old(r)@).opt::<u64>(field).0,
        ),
{
    proof {
        reveal(Cursor::opt);
        reveal(Cursor::byte_at_most);
    }
    match byte_at_most(field, 1, r)? {
        0 => Ok(None),
        _ => Ok(Some(r.u64_le()?)),
    }
}

/// Writes optional key material as a 0/1 flag plus its bytes.
pub(crate) fn encode_option_secret(w: &mut Writer, v: &Option<SecretBytes>)
    ensures
        final(w)@ == old(w)@ + opt(opt_view(*v)),
{
    proof {
        reveal(opt);
    }
    match v {
        None => w.u8(0),
        Some(secret) => {
            w.u8(1);
            w.bytes_raw(secret.as_bytes());
            proof {
                concat_assoc(old(w)@, seq![1u8], secret@.wire());
            }
        },
    }
}

/// Reads key material written by [`encode_option_secret`].
pub(crate) fn decode_option_secret(r: &mut Reader<'_>, field: &'static str) -> (res: Result<
    Option<SecretBytes>,
    DecodeError,
>)
    ensures
        final(r)@ == Cursor::at(old(r)@).opt::<Seq<u8>>(field).1.rest,
        match res {
            Ok(v) => Cursor::at(old(r)@).opt::<Seq<u8>>(field) == (
                opt_view(v),
                Cursor::at(final(r)@),
            ),
            Err(e) => Cursor::at(old(r)@).opt::<Seq<u8>>(field).1.err == Some(e),
        },
{
    proof {
        reveal(Cursor::opt);
        reveal(Cursor::byte_at_most);
    }
    match byte_at_most(field, 1, r)? {
        0 => Ok(None),
        _ => {
            let raw = r.bytes_raw()?;
            Ok(Some(SecretBytes::new(slice_to_vec(raw))))
        },
    }
}

/// Writes an optional discriminant as a 0/1 flag plus its byte.
pub(crate) fn encode_option_tag<T: Discriminant>(w: &mut Writer, v: Option<T>)
    ensures
        final(w)@ == old(w)@ + opt_tag(v),
{
    proof {
        reveal(opt_tag);
    }
    match v {
        None => w.u8(0),
        Some(t) => {
            w.u8(1);
            w.u8(t.to_byte());
            proof {
                concat_assoc(old(w)@, seq![1u8], seq![t.tag()]);
            }
        },
    }
}

/// Reads a discriminant written by [`encode_option_tag`].
pub(crate) fn decode_option_tag<T: Discriminant>(
    r: &mut Reader<'_>,
    field: &'static str,
) -> (res: Result<Option<T>, DecodeError>)
    ensures
        final(r)@ == Cursor::at(old(r)@).opt_tag::<T>(field).1.rest,
        res == Cursor::at(old(r)@).opt_tag::<T>(field).1.outcome(
            Cursor::at(old(r)@).opt_tag::<T>(field).0,
        ),
{
    proof {
        reveal(Cursor::opt_tag);
        reveal(Cursor::byte_at_most);
    }
    match byte_at_most(field, 1, r)? {
        0 => Ok(None),
        _ => Ok(Some(enum_byte::<T>(field, r)?)),
    }
}

/// Writes an optional body as a 0/1 flag plus its length-prefixed bytes.
pub(crate) fn encode_option_dto<T: Dto>(w: &mut Writer, v: &Option<T>) where T::V: Body
    ensures
        final(w)@ == old(w)@ + opt(opt_view(*v)),
{
    proof {
        reveal(opt);
    }
    match v {
        None => w.u8(0),
        Some(dto) => {
            w.u8(1);
            let raw = dto.to_payload();
            w.bytes_raw(raw.as_slice());
            proof {
                concat_assoc(old(w)@, seq![1u8], dto@.wire());
            }
        },
    }
}

/// Reads a body written by [`encode_option_dto`].
pub(crate) fn decode_option_dto<T: Dto>(r: &mut Reader<'_>, field: &'static str) -> (res: Result<
    Option<T>,
    DecodeError,
>) where T::V: Body
    ensures
        final(r)@ == Cursor::at(old(r)@).opt::<T::V>(field).1.rest,
        match res {
            Ok(v) => Cursor::at(old(r)@).opt::<T::V>(field) == (
                opt_view(v),
                Cursor::at(final(r)@),
            ),
            Err(e) => Cursor::at(old(r)@).opt::<T::V>(field).1.err == Some(e),
        },
{
    proof {
        reveal(Cursor::opt);
        reveal(Cursor::byte_at_most);
    }
    match byte_at_most(field, 1, r)? {
        0 => Ok(None),
        _ => {
            let raw = r.bytes_raw()?;
            Ok(Some(T::of_payload(raw)?))
        },
    }
}

/// Writes a counted list of bodies, each with its length prefix.
pub(crate) fn encode_dto_vec<T: Dto>(w: &mut Writer, v: &Vec<T>) where T::V: Body
    ensures
        final(w)@ == old(w)@ + list(views(v@)),
{
    proof {
        reveal(list);
    }
    let ghost all = views(v@);
    w.u32_le((v.len() as u64 % 0x1_0000_0000) as u32);
    let ghost counted = w@;
    assert(all.take(0) =~= Seq::empty());
    assert(counted + Seq::<u8>::empty() =~= counted);
    let mut i: usize = 0;
    while i < v.len()
        invariant
            i <= v.len(),
            all == views(v@),
            w@ == counted + items(all.take(i as int)),
        decreases v.len() - i,
    {
        let raw = v[i].to_payload();
        w.bytes_raw(raw.as_slice());
        proof {
            let next = all.take(i + 1);
            assert(next.drop_last() =~= all.take(i as int));
            assert(next.last() == v[i as int]@);
            concat_assoc(counted, items(all.take(i as int)), next.last().wire());
        }
        i += 1;
    }
    proof {
        assert(all.take(i as int) =~= all);
        concat_assoc(old(w)@, crate::wire::le_u32(length_prefix(all.len())), items(all));
    }
}

/// Reads a counted list of bodies, bounding the count before allocating.
pub(crate) fn decode_dto_vec<T: Dto>(r: &mut Reader<'_>) -> (res: Result<
    Vec<T>,
    DecodeError,
>) where T::V: Body
    ensures
        final(r)@ == Cursor::at(old(r)@).list::<T::V>(MAX_ITEMS).1.rest,
        match res {
            Ok(v) => Cursor::at(old(r)@).list::<T::V>(MAX_ITEMS) == (
                views(v@),
                Cursor::at(final(r)@),
            ),
            Err(e) => Cursor::at(old(r)@).list::<T::V>(MAX_ITEMS).1.err == Some(e),
        },
{
    proof {
        reveal(Cursor::list);
    }
    let count: u32 = r.u32_le()?;
    if count > MAX_ITEMS {
        return Err(DecodeError::BadLength(count));
    }
    let ghost start = Cursor::at(r@);
    let mut out: Vec<T> = Vec::with_capacity(if count < 32 { count as usize } else { 32 });
    assert(views(out@) =~= Seq::empty());
    let mut i: u32 = 0;
    while i < count
        invariant
            i <= count <= MAX_ITEMS,
            start.err is None,
            Cursor::at(old(r)@).u32() == (count, start),
            start.items::<T::V>(i as nat) == (views(out@), Cursor::at(r@)),
        decreases count - i,
    {
        proof {
            reveal(Cursor::list);
            if <T::V as Piece>::read(Cursor::at(r@)).1.err is Some {
                items_stuck::<T::V>(start, i as nat, count as nat);
            }
        }
        let ghost before = out@;
        let raw = r.bytes_raw()?;
        let one = T::of_payload(raw)?;
        out.push(one);
        assert(views(out@) =~= views(before).push(one@));
        i += 1;
    }
    Ok(out)
}

/// Writes a counted list of words.
pub(crate) fn encode_words(w: &mut Writer, v: &Vec<u32>)
    ensures
        final(w)@ == old(w)@ + list(v@),
{
    proof {
        reveal(list);
    }
    let ghost all = v@;
    w.u32_le((v.len() as u64 % 0x1_0000_0000) as u32);
    let ghost counted = w@;
    assert(all.take(0) =~= Seq::empty());
    assert(counted + Seq::<u8>::empty() =~= counted);
    let mut i: usize = 0;
    while i < v.len()
        invariant
            i <= v.len(),
            all == v@,
            w@ == counted + items(all.take(i as int)),
        decreases v.len() - i,
    {
        w.u32_le(v[i]);
        proof {
            let next = all.take(i + 1);
            assert(next.drop_last() =~= all.take(i as int));
            concat_assoc(counted, items(all.take(i as int)), next.last().wire());
        }
        i += 1;
    }
    proof {
        assert(all.take(i as int) =~= all);
        concat_assoc(old(w)@, crate::wire::le_u32(length_prefix(all.len())), items(all));
    }
}

/// Reads a counted list of words, bounding the count before allocating.
pub(crate) fn decode_words(r: &mut Reader<'_>, limit: u32) -> (res: Result<Vec<u32>, DecodeError>)
    ensures
        final(r)@ == Cursor::at(old(r)@).list::<u32>(limit).1.rest,
        match res {
            Ok(v) => Cursor::at(old(r)@).list::<u32>(limit) == (v@, Cursor::at(final(r)@)),
            Err(e) => Cursor::at(old(r)@).list::<u32>(limit).1.err == Some(e),
        },
{
    proof {
        reveal(Cursor::list);
    }
    let count: u32 = r.u32_le()?;
    if count > limit {
        return Err(DecodeError::BadLength(count));
    }
    let ghost start = Cursor::at(r@);
    let mut out: Vec<u32> = Vec::with_capacity(if count < 8 { count as usize } else { 8 });
    let mut i: u32 = 0;
    while i < count
        invariant
            i <= count <= limit,
            start.err is None,
            Cursor::at(old(r)@).u32() == (count, start),
            start.items::<u32>(i as nat) == (out@, Cursor::at(r@)),
        decreases count - i,
    {
        proof {
            reveal(Cursor::list);
            if <u32 as Piece>::read(Cursor::at(r@)).1.err is Some {
                items_stuck::<u32>(start, i as nat, count as nat);
            }
        }
        out.push(r.u32_le()?);
        i += 1;
    }
    Ok(out)
}

/// Writes a counted list of announced rotations.
pub(crate) fn encode_rotations(w: &mut Writer, v: &Vec<(Option<String>, u8)>)
    ensures
        final(w)@ == old(w)@ + list(rotations(v@)),
{
    proof {
        reveal(list);
    }
    let ghost all = rotations(v@);
    w.u32_le((v.len() as u64 % 0x1_0000_0000) as u32);
    let ghost counted = w@;
    assert(all.take(0) =~= Seq::empty());
    assert(counted + Seq::<u8>::empty() =~= counted);
    let mut i: usize = 0;
    while i < v.len()
        invariant
            i <= v.len(),
            all == rotations(v@),
            w@ == counted + items(all.take(i as int)),
        decreases v.len() - i,
    {
        let ghost before = w@;
        w.option_str(opt_str(&v[i].0));
        w.u8(v[i].1);
        proof {
            let next = all.take(i + 1);
            assert(next.drop_last() =~= all.take(i as int));
            let (who, rotation) = next.last();
            concat_assoc(before, crate::wire::opt_text(who), seq![rotation]);
            concat_assoc(counted, items(all.take(i as int)), next.last().wire());
        }
        i += 1;
    }
    proof {
        assert(all.take(i as int) =~= all);
        concat_assoc(old(w)@, crate::wire::le_u32(length_prefix(all.len())), items(all));
    }
}

/// Reads a counted list of announced rotations.
pub(crate) fn decode_rotations(r: &mut Reader<'_>) -> (res: Result<
    Vec<(Option<String>, u8)>,
    DecodeError,
>)
    ensures
        final(r)@ == Cursor::at(old(r)@).list::<(Option<Seq<char>>, u8)>(MAX_ITEMS).1.rest,
        match res {
            Ok(v) => Cursor::at(old(r)@).list::<(Option<Seq<char>>, u8)>(MAX_ITEMS) == (
                rotations(v@),
                Cursor::at(final(r)@),
            ),
            Err(e) => Cursor::at(old(r)@).list::<(Option<Seq<char>>, u8)>(MAX_ITEMS).1.err == Some(
                e,
            ),
        },
{
    proof {
        reveal(Cursor::list);
    }
    let count: u32 = r.u32_le()?;
    if count > MAX_ITEMS {
        return Err(DecodeError::BadLength(count));
    }
    let ghost start = Cursor::at(r@);
    let mut out: Vec<(Option<String>, u8)> = Vec::with_capacity(
        if count < 32 {
            count as usize
        } else {
            32
        },
    );
    assert(rotations(out@) =~= Seq::empty());
    let mut i: u32 = 0;
    while i < count
        invariant
            i <= count <= MAX_ITEMS,
            start.err is None,
            Cursor::at(old(r)@).u32() == (count, start),
            start.items::<(Option<Seq<char>>, u8)>(i as nat) == (
                rotations(out@),
                Cursor::at(r@),
            ),
        decreases count - i,
    {
        proof {
            reveal(Cursor::list);
            let named = Cursor::at(r@).opt_text().1;
            if named.err is Some {
                u8_stuck(named);
            }
            if <(Option<Seq<char>>, u8) as Piece>::read(Cursor::at(r@)).1.err is Some {
                items_stuck::<(Option<Seq<char>>, u8)>(start, i as nat, count as nat);
            }
        }
        let ghost before = out@;
        let who = opt_owned(r.option_str()?);
        let rotation: u8 = r.u8()?;
        out.push((who, rotation));
        assert(rotations(out@) =~= rotations(before).push((opt_view(who), rotation)));
        i += 1;
    }
    Ok(out)
}

} // verus!
