//! How records become host values: camelCase names, bytes where a sequence is
//! all bytes, `Long` objects for 64-bit numbers, and defaults left out.
//!
//! Protobuf's 64-bit fields do not fit a host number without losing
//! precision, and a big integer cannot be rendered as JSON. A `Long` object
//! `{ low, high, unsigned }` can, and is what host-side protobuf code reads.

use vstd::prelude::*;
use vstd::utf8::encode_utf8;

use crate::messages::fields::{opt_view, views};

verus! {

/// A host value.
#[derive(Debug, PartialEq, Eq)]
pub enum HostValue {
    /// Nothing.
    Null,
    /// A truth value.
    Bool(bool),
    /// A whole number that a host number holds exactly.
    Int(i64),
    /// Another host number: its bits, whether it is zero, and the byte it is
    /// equal to, if any.
    Real {
        /// The number's bits.
        bits: u64,
        /// Whether it is zero.
        zero: bool,
        /// The byte it equals.
        byte: Option<u8>,
    },
    /// A 64-bit number in two halves.
    Long {
        /// The low half, unsigned.
        low: u32,
        /// The high half, as the signed field that holds it.
        high: i32,
        /// Whether the number is unsigned.
        unsigned: bool,
    },
    /// A text.
    Text(String),
    /// Bytes.
    Bytes(Vec<u8>),
    /// A list.
    List(Vec<HostValue>),
    /// An object: its own properties.
    Object(Vec<(String, HostValue)>),
}

/// The number that the low half of a `Long` and its high half make up.
pub open spec fn long_value(low: u32, high: i32) -> int {
    high as int * 0x1_0000_0000 + low as int
}

/// The high half as an unsigned number.
pub open spec fn high_bits(high: i32) -> int {
    if high < 0 {
        high + 0x1_0000_0000
    } else {
        high as int
    }
}

/// Split a signed number into `Long` parts: the low 32 bits as an unsigned
/// value and the high 32 bits as a signed one.
pub fn i64_to_long_parts(v: i64) -> (parts: (u32, i32))
    ensures
        long_value(parts.0, parts.1) == v,
{
    let wide: i128 = v as i128 + 0x8000_0000_0000_0000;
    let high: i64 = (wide / 0x1_0000_0000) as i64 - 0x8000_0000;
    let low: u32 = (wide % 0x1_0000_0000) as u32;
    (low, high as i32)
}

/// Split an unsigned number into `Long` parts: the high half is read as the
/// signed field that holds it.
pub fn u64_to_long_parts(v: u64) -> (parts: (u32, i32))
    ensures
        high_bits(parts.1) * 0x1_0000_0000 + parts.0 as int == v,
{
    let high: u32 = (v / 0x1_0000_0000) as u32;
    let low: u32 = (v % 0x1_0000_0000) as u32;
    let signed: i32 = if high > 0x7fff_ffff {
        (high as i64 - 0x1_0000_0000) as i32
    } else {
        high as i32
    };
    (low, signed)
}

/// A signed 64-bit number as a host value.
pub fn i64_to_long(v: i64) -> (h: HostValue)
    ensures
        h matches HostValue::Long { low, high, unsigned } && !unsigned && long_value(low, high)
            == v,
{
    let (low, high) = i64_to_long_parts(v);
    HostValue::Long { low, high, unsigned: false }
}

/// An unsigned 64-bit number as a host value.
pub fn u64_to_long(v: u64) -> (h: HostValue)
    ensures
        h matches HostValue::Long { low, high, unsigned } && unsigned && high_bits(high)
            * 0x1_0000_0000 + low as int == v,
{
    let (low, high) = u64_to_long_parts(v);
    HostValue::Long { low, high, unsigned: true }
}

/// Only zero has a `Long` whose halves are both zero.
pub proof fn zero_long_is_zero(low: u32, high: i32)
    ensures
        long_value(low, high) == 0 <==> low == 0 && high == 0,
        high_bits(high) * 0x1_0000_0000 + low as int == 0 <==> low == 0 && high == 0,
{
}

/// An object's properties, their names as texts.
pub open spec fn properties(fields: Seq<(String, HostValue)>) -> Seq<(Seq<char>, HostValue)> {
    Seq::new(fields.len(), |i: int| (fields[i].0@, fields[i].1))
}

/// The place of a property.
pub open spec fn place_of(fields: Seq<(Seq<char>, HostValue)>, name: Seq<char>) -> Option<int>
    decreases fields.len(),
{
    if fields.len() == 0 {
        None
    } else if fields.last().0 == name {
        Some(fields.len() - 1)
    } else {
        place_of(fields.drop_last(), name)
    }
}

/// The properties with one set: in its place, or behind the others.
pub open spec fn with_property(
    fields: Seq<(Seq<char>, HostValue)>,
    name: Seq<char>,
    value: HostValue,
) -> Seq<(Seq<char>, HostValue)> {
    match place_of(fields, name) {
        Some(i) => fields.update(i, (name, value)),
        None => fields.push((name, value)),
    }
}

/// Whether a value is a number equal to zero.
pub open spec fn is_number_zero(v: HostValue) -> bool {
    match v {
        HostValue::Int(n) => n == 0,
        HostValue::Real { zero, .. } => zero,
        _ => false,
    }
}

/// Whether an object looks like a `Long` of zero: both halves are zero, and
/// the sign flag is there.
pub open spec fn looks_zero_long(fields: Seq<(Seq<char>, HostValue)>) -> bool {
    &&& place_of(fields, "low"@) matches Some(i) && is_number_zero(fields[i].1)
    &&& place_of(fields, "high"@) matches Some(i) && is_number_zero(fields[i].1)
    &&& place_of(fields, "unsigned"@) matches Some(i) && fields[i].1 is Bool
}

impl HostValue {
    /// A `Long` of zero, or an object that is one.
    pub open spec fn zero_long(self) -> bool {
        match self {
            HostValue::Long { low, high, .. } => low == 0 && high == 0,
            HostValue::Object(fields) => looks_zero_long(properties(fields@)),
            _ => false,
        }
    }

    /// An empty list, no bytes, or an object without properties.
    pub open spec fn empty_collection(self) -> bool {
        match self {
            HostValue::Bytes(b) => b@.len() == 0,
            HostValue::List(v) => v@.len() == 0,
            HostValue::Object(fields) => fields@.len() == 0,
            _ => false,
        }
    }

    /// Nothing was supplied: no value, or an empty text or collection, which
    /// protobuf cannot tell from one that was never set.
    pub open spec fn absent(self) -> bool {
        match self {
            HostValue::Null => true,
            HostValue::Text(t) => t@.len() == 0,
            _ => self.empty_collection(),
        }
    }

    /// A value that equals its type's default.
    pub open spec fn default_valued(self) -> bool {
        match self {
            HostValue::Bool(b) => !b,
            HostValue::Int(_) => is_number_zero(self),
            HostValue::Real { .. } => is_number_zero(self),
            _ => self.absent() || self.zero_long(),
        }
    }

    /// The byte that a value is, where it is one.
    pub open spec fn byte(self) -> Option<u8> {
        match self {
            HostValue::Int(n) => if 0 <= n <= 255 {
                Some(n as u8)
            } else {
                None
            },
            HostValue::Real { byte, .. } => byte,
            _ => None,
        }
    }

    /// True for a `Long` of zero, so that a default 64-bit field is left out
    /// like a zero number is.
    pub fn is_zero_long(&self) -> (b: bool)
        ensures
            b == self.zero_long(),
    {
        match self {
            HostValue::Long { low, high, .. } => *low == 0 && *high == 0,
            HostValue::Object(fields) => {
                let low = match find_property(fields, "low") {
                    Some(i) => number_is_zero(&fields[i].1),
                    None => false,
                };
                let high = match find_property(fields, "high") {
                    Some(i) => number_is_zero(&fields[i].1),
                    None => false,
                };
                let sign = match find_property(fields, "unsigned") {
                    Some(i) => match &fields[i].1 {
                        HostValue::Bool(_) => true,
                        _ => false,
                    },
                    None => false,
                };
                low && high && sign
            },
            _ => false,
        }
    }

    /// An empty list, no bytes, or an object without properties.
    pub fn is_empty_collection(&self) -> (b: bool)
        ensures
            b == self.empty_collection(),
    {
        match self {
            HostValue::Bytes(b) => b.len() == 0,
            HostValue::List(v) => v.len() == 0,
            HostValue::Object(fields) => fields.len() == 0,
            _ => false,
        }
    }

    /// Nothing was supplied.
    pub fn is_absent(&self) -> (b: bool)
        ensures
            b == self.absent(),
    {
        match self {
            HostValue::Null => true,
            HostValue::Text(t) => t.as_str().is_empty(),
            _ => self.is_empty_collection(),
        }
    }

    /// Protobuf's rule: a default-valued field is left out.
    pub fn should_skip(&self) -> (b: bool)
        ensures
            b == self.default_valued(),
    {
        match self {
            HostValue::Bool(b) => !*b,
            HostValue::Int(_) => number_is_zero(self),
            HostValue::Real { .. } => number_is_zero(self),
            _ => self.is_absent() || self.is_zero_long(),
        }
    }

    /// The byte that a value is, where it is one.
    pub fn as_byte(&self) -> (b: Option<u8>)
        ensures
            b == self.byte(),
    {
        match self {
            HostValue::Int(n) => if 0 <= *n && *n <= 255 {
                Some(*n as u8)
            } else {
                None
            },
            HostValue::Real { byte, .. } => *byte,
            _ => None,
        }
    }
}

fn number_is_zero(v: &HostValue) -> (b: bool)
    ensures
        b == is_number_zero(*v),
{
    match v {
        HostValue::Int(n) => *n == 0,
        HostValue::Real { zero, .. } => *zero,
        _ => false,
    }
}

fn find_property(fields: &Vec<(String, HostValue)>, name: &str) -> (place: Option<usize>)
    ensures
        match place {
            Some(i) => i < fields@.len() && place_of(properties(fields@), name@) == Some(i as int),
            None => place_of(properties(fields@), name@) is None,
        },
{
    let wanted = name.to_owned();
    let ghost all = properties(fields@);
    let mut i: usize = fields.len();
    assert(all.take(i as int) =~= all);
    while i > 0
        invariant
            i <= fields.len(),
            all == properties(fields@),
            wanted@ == name@,
            place_of(all, name@) == place_of(all.take(i as int), name@),
        decreases i,
    {
        assert(all.take(i as int).drop_last() =~= all.take(i - 1));
        if fields[i - 1].0 == wanted {
            return Some(i - 1);
        }
        i -= 1;
    }
    None
}

fn set_property(fields: &mut Vec<(String, HostValue)>, name: String, value: HostValue)
    ensures
        properties(final(fields)@) == with_property(properties(old(fields)@), name@, value),
{
    let ghost all = properties(fields@);
    match find_property(fields, name.as_str()) {
        Some(i) => {
            fields.set(i, (name, value));
            assert(properties(fields@) =~= all.update(i as int, (name@, value)));
        },
        None => {
            fields.push((name, value));
            assert(properties(fields@) =~= all.push((name@, value)));
        },
    }
}

/// A character in upper case, where it is an ASCII letter.
pub open spec fn ascii_upper(c: char) -> char {
    match c {
        'a' => 'A',
        'b' => 'B',
        'c' => 'C',
        'd' => 'D',
        'e' => 'E',
        'f' => 'F',
        'g' => 'G',
        'h' => 'H',
        'i' => 'I',
        'j' => 'J',
        'k' => 'K',
        'l' => 'L',
        'm' => 'M',
        'n' => 'N',
        'o' => 'O',
        'p' => 'P',
        'q' => 'Q',
        'r' => 'R',
        's' => 'S',
        't' => 'T',
        'u' => 'U',
        'v' => 'V',
        'w' => 'W',
        'x' => 'X',
        'y' => 'Y',
        'z' => 'Z',
        _ => c,
    }
}

fn upper(c: char) -> (u: char)
    ensures
        u == ascii_upper(c),
{
    match c {
        'a' => 'A',
        'b' => 'B',
        'c' => 'C',
        'd' => 'D',
        'e' => 'E',
        'f' => 'F',
        'g' => 'G',
        'h' => 'H',
        'i' => 'I',
        'j' => 'J',
        'k' => 'K',
        'l' => 'L',
        'm' => 'M',
        'n' => 'N',
        'o' => 'O',
        'p' => 'P',
        'q' => 'Q',
        'r' => 'R',
        's' => 'S',
        't' => 'T',
        'u' => 'U',
        'v' => 'V',
        'w' => 'W',
        'x' => 'X',
        'y' => 'Y',
        'z' => 'Z',
        _ => c,
    }
}

/// A name without its underscores. A letter that follows one, other than at
/// the front, is raised.
pub open spec fn camel_case(s: Seq<char>) -> Seq<char>
    decreases s.len(),
{
    if s.len() == 0 {
        Seq::empty()
    } else {
        let before = camel_case(s.drop_last());
        if s.last() == '_' {
            before
        } else if before.len() > 0 && s[s.len() - 2] == '_' {
            before.push(ascii_upper(s.last()))
        } else {
            before.push(s.last())
        }
    }
}

/// How many characters of a name are no underscores.
pub open spec fn kept(s: Seq<char>) -> nat
    decreases s.len(),
{
    if s.len() == 0 {
        0
    } else if s.last() == '_' {
        kept(s.drop_last())
    } else {
        kept(s.drop_last()) + 1
    }
}

/// Whether the character at `i` begins a word other than the first: it follows
/// an underscore, and something other than underscores stands before it.
pub open spec fn begins_a_later_word(s: Seq<char>, i: int) -> bool {
    0 < i < s.len() && s[i] != '_' && s[i - 1] == '_' && exists|j: int|
        0 <= j < i && #[trigger] s[j] != '_'
}

/// Something is kept exactly where something is no underscore.
proof fn kept_something(s: Seq<char>)
    ensures
        kept(s) > 0 <==> exists|j: int| 0 <= j < s.len() && #[trigger] s[j] != '_',
    decreases s.len(),
{
    if s.len() > 0 {
        let front = s.drop_last();
        kept_something(front);
        if s.last() != '_' {
            assert(s[s.len() - 1] != '_');
        } else if kept(front) > 0 {
            let j = choose|j: int| 0 <= j < front.len() && #[trigger] front[j] != '_';
            assert(s[j] != '_');
        } else if exists|j: int| 0 <= j < s.len() && #[trigger] s[j] != '_' {
            let j = choose|j: int| 0 <= j < s.len() && #[trigger] s[j] != '_';
            assert(front[j] != '_');
        }
    }
}

/// Every character that is no underscore is kept, in its place among the kept
/// ones: raised where it begins a word other than the first, and unchanged
/// everywhere else.
pub proof fn each_later_word_is_raised(s: Seq<char>, i: int)
    requires
        0 <= i < s.len(),
        s[i] != '_',
    ensures
        camel_case(s).len() == kept(s),
        kept(s.take(i)) < kept(s),
        begins_a_later_word(s, i) ==> camel_case(s)[kept(s.take(i)) as int] == ascii_upper(s[i]),
        !begins_a_later_word(s, i) ==> camel_case(s)[kept(s.take(i)) as int] == s[i],
    decreases s.len(),
{
    let front = s.drop_last();
    camel_case_keeps_what_is_no_underscore(s);
    camel_case_keeps_what_is_no_underscore(front);
    if i < front.len() {
        assert(front[i] == s[i]);
        each_later_word_is_raised(front, i);
        assert(front.take(i) =~= s.take(i));
        if begins_a_later_word(s, i) {
            let j = choose|j: int| 0 <= j < i && #[trigger] s[j] != '_';
            assert(front[j] != '_');
            assert(begins_a_later_word(front, i));
        }
        if begins_a_later_word(front, i) {
            let j = choose|j: int| 0 <= j < i && #[trigger] front[j] != '_';
            assert(s[j] != '_');
        }
    } else {
        assert(s.take(i) =~= front);
        kept_something(front);
        if kept(front) > 0 {
            let j = choose|j: int| 0 <= j < front.len() && #[trigger] front[j] != '_';
            assert(s[j] != '_');
        }
        if begins_a_later_word(s, i) {
            let j = choose|j: int| 0 <= j < i && #[trigger] s[j] != '_';
            assert(front[j] != '_');
        }
    }
}

/// As many characters are kept as are no underscores.
pub proof fn camel_case_keeps_what_is_no_underscore(s: Seq<char>)
    ensures
        camel_case(s).len() == kept(s),
    decreases s.len(),
{
    if s.len() > 0 {
        camel_case_keeps_what_is_no_underscore(s.drop_last());
    }
}

/// A name without underscores stays as it is.
pub proof fn a_single_word_stays(s: Seq<char>)
    requires
        !s.contains('_'),
    ensures
        camel_case(s) == s,
    decreases s.len(),
{
    if s.len() > 0 {
        let front = s.drop_last();
        assert(s.contains(s[s.len() - 1]));
        if s.len() > 1 {
            assert(s.contains(s[s.len() - 2]));
        }
        assert(!front.contains('_')) by {
            if front.contains('_') {
                let i = choose|i: int| 0 <= i < front.len() && front[i] == '_';
                assert(s[i] == '_');
                assert(s.contains('_'));
            }
        }
        a_single_word_stays(front);
        assert(front.push(s.last()) =~= s);
    }
}

/// A word with its first letter raised.
pub open spec fn raised(word: Seq<char>) -> Seq<char> {
    seq![ascii_upper(word[0])] + word.skip(1)
}

/// A name that begins with no underscore begins as it did.
proof fn a_front_stays(s: Seq<char>)
    requires
        s.len() > 0,
        s[0] != '_',
    ensures
        camel_case(s).len() > 0,
        camel_case(s)[0] == s[0],
    decreases s.len(),
{
    let front = s.drop_last();
    if front.len() > 0 {
        assert(front[0] == s[0]);
        a_front_stays(front);
    } else {
        assert(camel_case(front) =~= Seq::empty());
    }
}

/// Two names joined by an underscore become the first, and behind it the
/// second with its first letter raised, however many words either has.
pub proof fn joined_names_join_their_camel_case(a: Seq<char>, b: Seq<char>)
    requires
        a.len() > 0,
        a.last() != '_',
        b.len() > 0,
        b[0] != '_',
    ensures
        camel_case(a + seq!['_'] + b) == camel_case(a) + raised(camel_case(b)),
    decreases b.len(),
{
    let t = a + seq!['_'] + b;
    let front = b.drop_last();
    a_front_stays(b);
    assert(t.last() == b.last());
    if front.len() == 0 {
        let joint = a + seq!['_'];
        assert(t.drop_last() =~= joint);
        assert(joint.drop_last() =~= a);
        assert(joint.last() == '_');
        assert(camel_case(joint) == camel_case(a));
        assert(t[t.len() - 2] == '_');
        assert(camel_case(front) =~= Seq::empty());
        assert(camel_case(b) =~= seq![b[0]]);
        assert(camel_case(t) =~= camel_case(a) + raised(camel_case(b)));
    } else {
        assert(front[0] == b[0]);
        a_front_stays(front);
        joined_names_join_their_camel_case(a, front);
        assert(t.drop_last() =~= a + seq!['_'] + front);
        assert(t[t.len() - 2] == b[b.len() - 2]);
        assert(camel_case(t) =~= camel_case(a) + raised(camel_case(b)));
    }
}

/// Underscores at the front, at the end and beside others count for nothing.
pub proof fn spare_underscores_are_dropped(a: Seq<char>, b: Seq<char>)
    ensures
        camel_case(a.push('_')) == camel_case(a),
        camel_case(a + seq!['_', '_'] + b) == camel_case(a + seq!['_'] + b),
        camel_case(seq!['_'] + b) == camel_case(b),
    decreases b.len(),
{
    assert(a.push('_').drop_last() =~= a);
    let two = a + seq!['_', '_'] + b;
    let one = a + seq!['_'] + b;
    let lead = seq!['_'] + b;
    if b.len() == 0 {
        assert(two.drop_last() =~= one);
        assert(lead.drop_last() =~= b);
    } else {
        let front = b.drop_last();
        spare_underscores_are_dropped(a, front);
        assert(two.drop_last() =~= a + seq!['_', '_'] + front);
        assert(one.drop_last() =~= a + seq!['_'] + front);
        assert(lead.drop_last() =~= seq!['_'] + front);
        assert(two.last() == b.last() && one.last() == b.last() && lead.last() == b.last());
        if front.len() == 0 {
            assert(lead.drop_last().drop_last() =~= Seq::empty());
            assert(camel_case(front) =~= Seq::empty());
            assert(two[two.len() - 2] == '_' && one[one.len() - 2] == '_');
        } else {
            assert(two[two.len() - 2] == front.last());
            assert(one[one.len() - 2] == front.last());
            assert(lead[lead.len() - 2] == front.last());
            assert(b[b.len() - 2] == front.last());
        }
    }
}

/// Raising moves the letters from a to z by as much as their capitals stand
/// before them, and nothing else.
pub proof fn raising_moves_letters_alone(c: char)
    ensures
        0x61 <= c as u32 <= 0x7a ==> ascii_upper(c) as u32 == c as u32 - 0x20,
        !(0x61 <= c as u32 <= 0x7a) ==> ascii_upper(c) == c,
{
}

/// A snake_case name as camelCase.
pub fn to_camel_case(s: &str) -> (out: String)
    ensures
        out@ == camel_case(s@),
        out@.len() == kept(s@),
        forall|i: int|
            0 <= i < s@.len() && #[trigger] s@[i] != '_' ==> out@[kept(s@.take(i)) as int] == if begins_a_later_word(
                s@,
                i,
            ) {
                ascii_upper(s@[i])
            } else {
                s@[i]
            },
{
    let mut out = String::new();
    let mut upper_next = false;
    let mut started = false;
    let n: usize = s.unicode_len();
    let mut i: usize = 0;
    assert(s@.take(0) =~= Seq::empty());
    while i < n
        invariant
            i <= n,
            n == s@.len(),
            out@ == camel_case(s@.take(i as int)),
            started == (out@.len() > 0),
            upper_next == (started && s@[i - 1] == '_'),
        decreases n - i,
    {
        proof {
            assert(s@.take(i + 1).drop_last() =~= s@.take(i as int));
            assert(s@.take(i + 1).last() == s@[i as int]);
            if i > 0 {
                assert(s@.take(i + 1)[i - 1] == s@[i - 1]);
            }
        }
        let c = s.get_char(i);
        if c == '_' {
            if started {
                upper_next = true;
            }
        } else {
            started = true;
            if upper_next {
                upper_next = false;
                out.push(upper(c));
            } else {
                out.push(c);
            }
        }
        i += 1;
    }
    assert(s@.take(i as int) =~= s@);
    proof {
        camel_case_keeps_what_is_no_underscore(s@);
        assert forall|i: int| 0 <= i < s@.len() && #[trigger] s@[i] != '_' implies out@[kept(
            s@.take(i),
        ) as int] == if begins_a_later_word(s@, i) {
            ascii_upper(s@[i])
        } else {
            s@[i]
        } by {
            each_later_word_is_raised(s@, i);
        }
    }
    out
}

/// No underscore survives.
pub proof fn camel_case_has_no_underscore(s: Seq<char>)
    ensures
        !camel_case(s).contains('_'),
    decreases s.len(),
{
    if s.len() > 0 {
        let before = camel_case(s.drop_last());
        camel_case_has_no_underscore(s.drop_last());
        let out = camel_case(s);
        if out.contains('_') {
            let i = choose|i: int| 0 <= i < out.len() && out[i] == '_';
            if i < before.len() {
                assert(before[i] == '_');
                assert(before.contains('_'));
            }
        }
    }
}

/// What a struct field does with a value equal to its type's default. Absent
/// is absent either way.
#[derive(Debug, Clone, Copy, PartialEq, Eq, Structural)]
pub enum Defaults {
    /// A default-valued field is indistinguishable from an unset one, so it is
    /// left out.
    Skip,
    /// Every supplied value crosses, `0` and `false` and `""` alike.
    Keep,
    /// A supplied scalar crosses even at its default, while an empty text or
    /// collection is left out, having no presence to report.
    KeepScalars,
}

impl Defaults {
    /// Whether a value is left out.
    pub open spec fn omits(self, value: HostValue) -> bool {
        match self {
            Defaults::Skip => value.default_valued(),
            Defaults::Keep => value is Null,
            Defaults::KeepScalars => value.absent(),
        }
    }

    /// Whether a value is left out.
    pub fn skips(&self, value: &HostValue) -> (b: bool)
        ensures
            b == self.omits(*value),
    {
        match self {
            Defaults::Skip => value.should_skip(),
            Defaults::Keep => match value {
                HostValue::Null => true,
                _ => false,
            },
            Defaults::KeepScalars => value.is_absent(),
        }
    }
}

/// The modes differ only in how much they leave out: what the preserving mode
/// omits the scalar mode omits, and what that omits the regular mode omits.
pub proof fn defaults_are_ordered(value: HostValue)
    ensures
        Defaults::Keep.omits(value) ==> Defaults::KeepScalars.omits(value),
        Defaults::KeepScalars.omits(value) ==> Defaults::Skip.omits(value),
        value is Null ==> Defaults::Keep.omits(value),
        value is Bool || value is Int || value is Real || value is Long
            ==> !Defaults::KeepScalars.omits(value),
{
}

/// A struct on its way to an object.
#[derive(Debug)]
pub struct StructSerializer {
    fields: Vec<(String, HostValue)>,
    defaults: Defaults,
}

impl StructSerializer {
    /// The properties so far.
    pub closed spec fn properties(&self) -> Seq<(Seq<char>, HostValue)> {
        properties(self.fields@)
    }

    /// What it does with defaults.
    pub closed spec fn defaults(&self) -> Defaults {
        self.defaults
    }

    /// A struct without fields.
    pub fn new(defaults: Defaults) -> (s: Self)
        ensures
            s.properties() == Seq::<(Seq<char>, HostValue)>::empty(),
            s.defaults() == defaults,
    {
        let s = StructSerializer { fields: Vec::new(), defaults };
        assert(s.properties() =~= Seq::empty());
        s
    }

    /// One field: its value under its camelCase name, unless it is left out.
    pub fn serialize_field(&mut self, key: &str, value: HostValue)
        ensures
            final(self).defaults() == old(self).defaults(),
            final(self).properties() == if old(self).defaults().omits(value) {
                old(self).properties()
            } else {
                with_property(old(self).properties(), camel_case(key@), value)
            },
    {
        if self.defaults.skips(&value) {
            return;
        }
        set_property(&mut self.fields, to_camel_case(key), value);
    }

    /// The object.
    pub fn end(self) -> (v: HostValue)
        ensures
            v matches HostValue::Object(fields) && properties(fields@) == self.properties(),
    {
        HostValue::Object(self.fields)
    }
}

/// A map on its way to an object. Its keys keep their spelling, and nothing is
/// left out.
#[derive(Debug)]
pub struct MapSerializer {
    fields: Vec<(String, HostValue)>,
    next_key: Option<String>,
}

impl MapSerializer {
    /// The properties so far.
    pub closed spec fn properties(&self) -> Seq<(Seq<char>, HostValue)> {
        properties(self.fields@)
    }

    /// The key that waits for its value.
    pub closed spec fn key(&self) -> Option<Seq<char>> {
        opt_view(self.next_key)
    }

    /// A map without entries.
    pub fn new() -> (s: Self)
        ensures
            s.properties() == Seq::<(Seq<char>, HostValue)>::empty(),
            s.key() is None,
    {
        let s = MapSerializer { fields: Vec::new(), next_key: None };
        assert(s.properties() =~= Seq::empty());
        s
    }

    /// A key: its text, where it is one.
    pub fn serialize_key(&mut self, key: HostValue)
        ensures
            final(self).properties() == old(self).properties(),
            final(self).key() == (match key {
                HostValue::Text(t) => Some(t@),
                _ => None,
            }),
    {
        self.next_key =
        match key {
            HostValue::Text(t) => Some(t),
            _ => None,
        };
    }

    /// The value of the key before it. A key that was no text is empty.
    pub fn serialize_value(&mut self, value: HostValue)
        ensures
            final(self).key() is None,
            final(self).properties() == with_property(
                old(self).properties(),
                match old(self).key() {
                    Some(k) => k,
                    None => Seq::empty(),
                },
                value,
            ),
    {
        let key = match self.next_key.take() {
            Some(k) => k,
            None => String::new(),
        };
        set_property(&mut self.fields, key, value);
    }

    /// The object.
    pub fn end(self) -> (v: HostValue)
        ensures
            v matches HostValue::Object(fields) && properties(fields@) == self.properties(),
    {
        HostValue::Object(self.fields)
    }
}

/// A value under the name of its variant.
pub fn variant_value(variant: &str, value: HostValue) -> (v: HostValue)
    ensures
        v matches HostValue::Object(fields) && properties(fields@) == seq![(variant@, value)],
{
    let mut fields: Vec<(String, HostValue)> = Vec::new();
    fields.push((variant.to_owned(), value));
    assert(properties(fields@) =~= seq![(variant@, value)]);
    HostValue::Object(fields)
}

/// A sequence on its way to bytes or to a list.
#[derive(Debug)]
pub enum SeqItems {
    /// No item has settled what it becomes.
    Unknown,
    /// Every item so far is a byte.
    Bytes(Vec<u8>),
    /// Some item is not.
    Values(Vec<HostValue>),
}

/// Whether every item is a byte.
pub open spec fn all_bytes(items: Seq<HostValue>) -> bool {
    forall|i: int| 0 <= i < items.len() ==> (#[trigger] items[i]).byte() is Some
}

/// The bytes that items are.
pub open spec fn bytes_of(items: Seq<HostValue>) -> Seq<u8> {
    Seq::new(items.len(), |i: int| items[i].byte()->0)
}

/// The items of a list: those in front of the first that is no byte become
/// plain numbers.
pub open spec fn list_of(items: Seq<HostValue>) -> Seq<HostValue>
    decreases items.len(),
{
    if items.len() == 0 {
        Seq::empty()
    } else {
        let front = items.drop_last();
        if all_bytes(items) {
            list_of(front).push(HostValue::Int(items.last().byte()->0 as i64))
        } else {
            list_of(front).push(items.last())
        }
    }
}

/// The sequence that was collected so far, as the items that were given.
pub open spec fn collects(state: SeqItems, items: Seq<HostValue>) -> bool {
    match state {
        SeqItems::Unknown => items.len() == 0,
        SeqItems::Bytes(b) => items.len() > 0 && all_bytes(items) && b@ == bytes_of(items),
        SeqItems::Values(v) => items.len() > 0 && !all_bytes(items) && v@ == list_of(items),
    }
}

/// Detects sequences of bytes, which become bytes rather than a list.
#[derive(Debug)]
pub struct SeqSerializer {
    items: SeqItems,
}

impl SeqSerializer {
    /// What was collected so far.
    pub closed spec fn state(&self) -> SeqItems {
        self.items
    }

    /// A sequence without items.
    pub fn new() -> (s: Self)
        ensures
            collects(s.state(), Seq::empty()),
    {
        SeqSerializer { items: SeqItems::Unknown }
    }

    /// One more item.
    pub fn serialize_element(&mut self, value: HostValue)
        ensures
            forall|items: Seq<HostValue>|
                #![trigger collects(old(self).state(), items)]
                collects(old(self).state(), items) ==> collects(
                    final(self).state(),
                    items.push(value),
                ),
    {
        let byte = value.as_byte();
        let ghost before = self.items;
        let mut state = SeqItems::Unknown;
        std::mem::swap(&mut state, &mut self.items);
        match state {
            SeqItems::Unknown => match byte {
                Some(b) => {
                    let mut bytes: Vec<u8> = Vec::new();
                    bytes.push(b);
                    self.items = SeqItems::Bytes(bytes);
                },
                None => {
                    let mut values: Vec<HostValue> = Vec::new();
                    values.push(value);
                    self.items = SeqItems::Values(values);
                },
            },
            SeqItems::Bytes(bytes) => match byte {
                Some(b) => {
                    let mut bytes = bytes;
                    bytes.push(b);
                    self.items = SeqItems::Bytes(bytes);
                },
                None => {
                    let mut values = numbers(&bytes);
                    values.push(value);
                    self.items = SeqItems::Values(values);
                },
            },
            SeqItems::Values(values) => {
                let mut values = values;
                values.push(value);
                self.items = SeqItems::Values(values);
            },
        }
        proof {
            assert forall|items: Seq<HostValue>|
                #![trigger collects(before, items)]
                collects(before, items) implies collects(self.items, items.push(value)) by {
                let next = items.push(value);
                assert(next.drop_last() =~= items);
                assert(next.last() == value);
                push_keeps_bytes(items, value);
                if all_bytes(items) {
                    list_of_bytes(items);
                }
                match self.items {
                    SeqItems::Bytes(b) => {
                        assert(b@ =~= bytes_of(next));
                    },
                    SeqItems::Values(v) => {
                        assert(v@ =~= list_of(next));
                    },
                    SeqItems::Unknown => {},
                }
            }
        }
    }

    /// The value: no items make an empty list, bytes alone make bytes,
    /// anything else makes a list.
    pub fn end(self) -> (v: HostValue)
        ensures
            forall|items: Seq<HostValue>|
                #![trigger collects(self.state(), items)]
                collects(self.state(), items) ==> if items.len() == 0 {
                    v matches HostValue::List(l) && l@.len() == 0
                } else if all_bytes(items) {
                    v matches HostValue::Bytes(b) && b@ == bytes_of(items)
                } else {
                    v matches HostValue::List(l) && l@ == list_of(items)
                },
    {
        match self.items {
            SeqItems::Unknown => HostValue::List(Vec::new()),
            SeqItems::Bytes(b) => HostValue::Bytes(b),
            SeqItems::Values(v) => HostValue::List(v),
        }
    }
}

fn numbers(bytes: &Vec<u8>) -> (out: Vec<HostValue>)
    ensures
        out@ == Seq::new(bytes@.len(), |i: int| HostValue::Int(bytes@[i] as i64)),
{
    let mut out: Vec<HostValue> = Vec::new();
    let mut i: usize = 0;
    while i < bytes.len()
        invariant
            i <= bytes.len(),
            out@.len() == i,
            forall|j: int| 0 <= j < i ==> out@[j] == HostValue::Int(bytes@[j] as i64),
        decreases bytes.len() - i,
    {
        out.push(HostValue::Int(bytes[i] as i64));
        i += 1;
    }
    assert(out@ =~= Seq::new(bytes@.len(), |i: int| HostValue::Int(bytes@[i] as i64)));
    out
}

proof fn push_keeps_bytes(items: Seq<HostValue>, value: HostValue)
    ensures
        all_bytes(items.push(value)) <==> all_bytes(items) && value.byte() is Some,
{
    let next = items.push(value);
    if all_bytes(next) {
        assert(next[items.len() as int].byte() is Some);
        assert forall|i: int| 0 <= i < items.len() implies (#[trigger] items[i]).byte() is Some by {
            assert(next[i].byte() is Some);
        }
    }
    if all_bytes(items) && value.byte() is Some {
        assert forall|i: int| 0 <= i < next.len() implies (#[trigger] next[i]).byte() is Some by {
            if i < items.len() {
                assert(items[i].byte() is Some);
            }
        }
    }
}

proof fn list_of_bytes(items: Seq<HostValue>)
    requires
        all_bytes(items),
    ensures
        list_of(items) == Seq::new(
            items.len(),
            |i: int| HostValue::Int(bytes_of(items)[i] as i64),
        ),
    decreases items.len(),
{
    if items.len() > 0 {
        let front = items.drop_last();
        assert(items =~= front.push(items.last()));
        push_keeps_bytes(front, items.last());
        list_of_bytes(front);
    }
    assert(list_of(items) =~= Seq::new(
        items.len(),
        |i: int| HostValue::Int(bytes_of(items)[i] as i64),
    ));
}

/// How many addresses the cache keeps.
pub const JID_CACHE_MAX: usize = 1024;

/// The longest text, in bytes, that is looked at as an address.
pub const JID_TEXT_MAX: usize = 64;

/// The place of the first `@`.
pub open spec fn first_at(v: Seq<char>) -> Option<int>
    decreases v.len(),
{
    if v.len() == 0 {
        None
    } else {
        match first_at(v.drop_last()) {
            Some(i) => Some(i),
            None => if v.last() == '@' {
                Some(v.len() - 1)
            } else {
                None
            },
        }
    }
}

/// The server part of an address: what follows the first `@`, where a user
/// part stands in front of it.
pub open spec fn server_part(v: Seq<char>) -> Option<Seq<char>> {
    match first_at(v) {
        Some(i) if i > 0 => Some(v.skip(i + 1)),
        _ => None,
    }
}

/// The servers that addresses are on.
pub open spec fn known_server(s: Seq<char>) -> bool {
    ||| s == "s.whatsapp.net"@
    ||| s == "lid"@
    ||| s == "g.us"@
    ||| s == "broadcast"@
    ||| s == "newsletter"@
    ||| s == "hosted"@
    ||| s == "hosted.lid"@
    ||| s == "msgr"@
    ||| s == "interop"@
    ||| s == "bot"@
    ||| s == "c.us"@
    ||| s == "call"@
}

/// [`wacore_binary::jid::parse_jid_fast`], as far as its server goes: it
/// parses exactly the texts with a user part in front of the first `@`, and
/// the server is what follows that.
#[verifier::external_body]
fn jid_server(v: &str) -> (server: Option<String>)
    ensures
        opt_view(server) == server_part(v@),
{
    wacore_binary::jid::parse_jid_fast(v).map(|parts| parts.server.to_string())
}

/// [`wacore_binary::jid::Server`]'s `TryFrom<&str>` knows exactly the servers
/// of [`known_server`].
#[verifier::external_body]
fn is_known_server(s: &str) -> (b: bool)
    ensures
        b == known_server(s@),
{
    wacore_binary::jid::Server::try_from(s).is_ok()
}

/// Whether a text is address-shaped, so that it may be interned: unbounded
/// user content never is.
pub fn is_jid_like(v: &str) -> (b: bool)
    ensures
        b == (encode_utf8(v@).len() <= JID_TEXT_MAX && (server_part(v@) matches Some(s)
            && known_server(s))),
{
    if v.as_bytes().len() > JID_TEXT_MAX {
        return false;
    }
    match jid_server(v) {
        Some(s) => is_known_server(s.as_str()),
        None => false,
    }
}

/// Interned addresses: each has a slot, and the whole is cleared when full.
#[derive(Debug)]
pub struct JidCache {
    keys: Vec<String>,
}

/// What interning a text found.
#[derive(Debug, Clone, Copy, PartialEq, Eq, Structural)]
pub enum Interned {
    /// It has this slot.
    Known(usize),
    /// It takes this slot, the next one.
    Added(usize),
    /// The cache was full: everything in it goes, and the text takes the first
    /// slot.
    Restarted,
}

impl View for JidCache {
    type V = Seq<Seq<char>>;

    closed spec fn view(&self) -> Seq<Seq<char>> {
        views(self.keys@)
    }
}

impl JidCache {
    /// There is room for no more than so many.
    pub open spec fn wf(&self) -> bool {
        self@.len() <= JID_CACHE_MAX
    }

    /// An empty cache.
    pub fn new() -> (c: Self)
        ensures
            c.wf(),
            c@ == Seq::<Seq<char>>::empty(),
    {
        let c = JidCache { keys: Vec::new() };
        assert(c@ =~= Seq::empty());
        c
    }

    /// The slot of a text.
    pub fn intern(&mut self, v: &str) -> (slot: Interned)
        requires
            old(self).wf(),
        ensures
            final(self).wf(),
            match slot {
                Interned::Known(i) => i < old(self)@.len() && old(self)@[i as int] == v@
                    && final(self)@ == old(self)@,
                Interned::Added(i) => i == old(self)@.len() && i < JID_CACHE_MAX && !old(
                    self,
                )@.contains(v@) && final(self)@ == old(self)@.push(v@),
                Interned::Restarted => old(self)@.len() == JID_CACHE_MAX && !old(self)@.contains(
                    v@,
                ) && final(self)@ == seq![v@],
            },
    {
        let key = v.to_owned();
        let mut i: usize = 0;
        while i < self.keys.len()
            invariant
                i <= self.keys.len(),
                self.keys@.len() <= JID_CACHE_MAX,
                *self == *old(self),
                key@ == v@,
                forall|j: int| 0 <= j < i ==> (#[trigger] self.keys@[j])@ != v@,
            decreases self.keys.len() - i,
        {
            if self.keys[i] == key {
                return Interned::Known(i);
            }
            i += 1;
        }
        assert forall|j: int| 0 <= j < self@.len() implies self@[j] != v@ by {
            assert(self@[j] == self.keys@[j]@);
        }
        if self.keys.len() >= JID_CACHE_MAX {
            self.keys.clear();
            self.keys.push(key);
            assert(self@ =~= seq![v@]);
            return Interned::Restarted;
        }
        let slot: usize = self.keys.len();
        self.keys.push(key);
        assert(self@ =~= old(self)@.push(v@));
        Interned::Added(slot)
    }
}

} // verus!
