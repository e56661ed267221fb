//! Rows that carry a timestamp, and which of them have expired.
//!
//! A stamped value is eight big-endian bytes of seconds, then the payload. A
//! value too short to carry a stamp is corrupt, and goes with the expired.

use vstd::prelude::*;
use vstd::slice::{slice_subrange, slice_to_vec};

use crate::messages::fields::{opt_view, views};
use crate::store::index::SentRow;

verus! {

/// Bytes of the timestamp in front of a stamped value.
pub const TIMESTAMP_PREFIX_LEN: usize = 8;

/// How many values are pulled at once.
pub const SCAN_CHUNK: usize = 512;

/// The bit pattern of a timestamp, as an unsigned number.
pub open spec fn stamp_bits(now: i64) -> int {
    if now < 0 {
        now + 0x1_0000_0000_0000_0000
    } else {
        now as int
    }
}

/// A word as four big-endian bytes.
pub open spec fn be_word(v: u32) -> Seq<u8> {
    seq![
        (v as int / 0x100_0000 % 256) as u8,
        (v as int / 0x1_0000 % 256) as u8,
        (v as int / 0x100 % 256) as u8,
        (v as int % 256) as u8,
    ]
}

/// The word that four big-endian bytes hold.
pub open spec fn of_be_word(s: Seq<u8>) -> u32 {
    (s[0] as int * 0x100_0000 + s[1] as int * 0x1_0000 + s[2] as int * 0x100 + s[3] as int) as u32
}

/// A timestamp as eight big-endian bytes.
pub open spec fn stamp(now: i64) -> Seq<u8> {
    let bits = stamp_bits(now);
    be_word((bits / 0x1_0000_0000) as u32) + be_word((bits % 0x1_0000_0000) as u32)
}

/// The timestamp that a stamped value begins with.
pub open spec fn stamp_of(data: Seq<u8>) -> i64 {
    let bits = of_be_word(data.subrange(0, 4)) as int * 0x1_0000_0000 + of_be_word(
        data.subrange(4, 8),
    ) as int;
    if bits >= 0x8000_0000_0000_0000 {
        (bits - 0x1_0000_0000_0000_0000) as i64
    } else {
        bits as i64
    }
}

/// What a stored value says about its row.
#[derive(Debug, Clone, Copy, PartialEq, Eq, Structural)]
pub enum Fate {
    /// It may go: its time is over, or it is corrupt.
    Expired,
    /// It stays.
    Live,
    /// There is none.
    Gone,
}

/// The fate of a row: gone where there is no value, expired where the value
/// is older than the cutoff or carries no stamp, live otherwise.
pub open spec fn fate_of(value: Option<Seq<u8>>, cutoff: i64) -> Fate {
    match value {
        None => Fate::Gone,
        Some(data) => if data.len() < TIMESTAMP_PREFIX_LEN {
            Fate::Expired
        } else if stamp_of(data) < cutoff {
            Fate::Expired
        } else {
            Fate::Live
        },
    }
}

/// Stamps a value.
pub fn stamped(now: i64, payload: &[u8]) -> (data: Vec<u8>)
    ensures
        data@ == stamp(now) + payload@,
{
    let bits: u64 = if now < 0 {
        (now as i128 + 0x1_0000_0000_0000_0000) as u64
    } else {
        now as u64
    };
    let high: u32 = (bits / 0x1_0000_0000) as u32;
    let low: u32 = (bits % 0x1_0000_0000) as u32;
    let mut data: Vec<u8> = Vec::with_capacity(TIMESTAMP_PREFIX_LEN);
    push_word(&mut data, high);
    push_word(&mut data, low);
    assert(data@ =~= stamp(now));
    data.extend_from_slice(payload);
    assert(data@ =~= stamp(now) + payload@);
    data
}

fn push_word(data: &mut Vec<u8>, v: u32)
    ensures
        final(data)@ == old(data)@ + be_word(v),
{
    data.push((v / 0x100_0000 % 256) as u8);
    data.push((v / 0x1_0000 % 256) as u8);
    data.push((v / 0x100 % 256) as u8);
    data.push((v % 256) as u8);
    assert(data@ =~= old(data)@ + be_word(v));
}

/// A word's bytes hold the word.
proof fn be_word_inverse(v: u32)
    ensures
        of_be_word(be_word(v)) == v,
{
}

/// A stamp reads back as the timestamp that was written, whatever follows.
pub proof fn stamp_reads_back(now: i64, payload: Seq<u8>)
    ensures
        stamp_of(stamp(now) + payload) == now,
        (stamp(now) + payload).skip(TIMESTAMP_PREFIX_LEN as int) == payload,
{
    let data = stamp(now) + payload;
    let bits = stamp_bits(now);
    let high = (bits / 0x1_0000_0000) as u32;
    let low = (bits % 0x1_0000_0000) as u32;
    be_word_inverse(high);
    be_word_inverse(low);
    assert(data.subrange(0, 4) =~= be_word(high));
    assert(data.subrange(4, 8) =~= be_word(low));
    assert(data.skip(TIMESTAMP_PREFIX_LEN as int) =~= payload);
}

/// A row stamped now outlives every cutoff up to now, and no later one.
pub proof fn a_fresh_row_is_live(now: i64, payload: Seq<u8>, cutoff: i64)
    ensures
        fate_of(Some(stamp(now) + payload), cutoff) == if now < cutoff {
            Fate::Expired
        } else {
            Fate::Live
        },
{
    stamp_reads_back(now, payload);
}

fn read_stamp(data: &[u8]) -> (ts: i64)
    requires
        data@.len() >= TIMESTAMP_PREFIX_LEN,
    ensures
        ts == stamp_of(data@),
{
    let high: u32 = data[0] as u32 * 0x100_0000 + data[1] as u32 * 0x1_0000 + data[2] as u32 * 0x100
        + data[3] as u32;
    let low: u32 = data[4] as u32 * 0x100_0000 + data[5] as u32 * 0x1_0000 + data[6] as u32 * 0x100
        + data[7] as u32;
    assert(high == of_be_word(data@.subrange(0, 4)));
    assert(low == of_be_word(data@.subrange(4, 8)));
    let bits: u64 = high as u64 * 0x1_0000_0000 + low as u64;
    if bits >= 0x8000_0000_0000_0000 {
        (bits as i128 - 0x1_0000_0000_0000_0000) as i64
    } else {
        bits as i64
    }
}

/// The fate of a value that was read.
pub fn fate_of_value(data: &[u8], cutoff: i64) -> (f: Fate)
    ensures
        f == fate_of(Some(data@), cutoff),
{
    if data.len() < TIMESTAMP_PREFIX_LEN {
        Fate::Expired
    } else if read_stamp(data) < cutoff {
        Fate::Expired
    } else {
        Fate::Live
    }
}

/// What a look at a sent message finds: a value without a stamp is corrupt, and
/// one older than the cutoff is over.
pub open spec fn sent_row_of(value: Option<Seq<u8>>, cutoff: i64) -> SentRow {
    match value {
        None => SentRow::Gone,
        Some(data) => if data.len() < TIMESTAMP_PREFIX_LEN {
            SentRow::Corrupt
        } else if stamp_of(data) < cutoff {
            SentRow::Expired
        } else {
            SentRow::Kept
        },
    }
}

/// What a look at a sent message finds.
pub fn sent_row(data: Option<&[u8]>, cutoff: i64) -> (row: SentRow)
    ensures
        row == sent_row_of(opt_view(data), cutoff),
{
    match data {
        None => SentRow::Gone,
        Some(data) => if data.len() < TIMESTAMP_PREFIX_LEN {
            SentRow::Corrupt
        } else if read_stamp(data) < cutoff {
            SentRow::Expired
        } else {
            SentRow::Kept
        },
    }
}

/// A look at a sent message agrees with the fate of its row: what is deleted
/// may go, what is gone is gone, and what is kept is live.
pub proof fn a_sent_row_meets_its_fate(value: Option<Seq<u8>>, cutoff: i64)
    ensures
        sent_row_of(value, cutoff).is_deleted() <==> fate_of(value, cutoff) == Fate::Expired,
        sent_row_of(value, cutoff) == SentRow::Gone <==> fate_of(value, cutoff) == Fate::Gone,
        sent_row_of(value, cutoff) == SentRow::Kept <==> fate_of(value, cutoff) == Fate::Live,
{
}

/// The payload of a stored message secret, where the value carries a stamp.
pub fn secret_payload(data: &[u8]) -> (payload: Option<Vec<u8>>)
    ensures
        match payload {
            Some(p) => data@.len() >= TIMESTAMP_PREFIX_LEN && p@ == data@.skip(
                TIMESTAMP_PREFIX_LEN as int,
            ),
            None => data@.len() < TIMESTAMP_PREFIX_LEN,
        },
{
    if data.len() < TIMESTAMP_PREFIX_LEN {
        None
    } else {
        let p = slice_to_vec(slice_subrange(data, TIMESTAMP_PREFIX_LEN, data.len()));
        assert(p@ =~= data@.skip(TIMESTAMP_PREFIX_LEN as int));
        Some(p)
    }
}

/// The payload of a sent message that is taken back. One without a payload
/// behind its stamp is none.
pub fn sent_payload(data: &[u8]) -> (payload: Option<Vec<u8>>)
    ensures
        match payload {
            Some(p) => data@.len() > TIMESTAMP_PREFIX_LEN && p@ == data@.skip(
                TIMESTAMP_PREFIX_LEN as int,
            ),
            None => data@.len() <= TIMESTAMP_PREFIX_LEN,
        },
{
    if data.len() <= TIMESTAMP_PREFIX_LEN {
        None
    } else {
        secret_payload(data)
    }
}

/// The rows that a read gave back: the last value of a key counts.
pub open spec fn value_of(found: Seq<(Seq<char>, Seq<u8>)>, key: Seq<char>) -> Option<Seq<u8>>
    decreases found.len(),
{
    if found.len() == 0 {
        None
    } else if found.last().0 == key {
        Some(found.last().1)
    } else {
        value_of(found.drop_last(), key)
    }
}

/// What a read gave back, as values.
pub open spec fn found_view(found: Seq<(String, Vec<u8>)>) -> Seq<(Seq<char>, Seq<u8>)> {
    Seq::new(found.len(), |i: int| (found[i].0@, found[i].1@))
}

/// The keys of one fate, in order.
pub open spec fn with_fate(
    keys: Seq<Seq<char>>,
    found: Seq<(Seq<char>, Seq<u8>)>,
    cutoff: i64,
    fate: Fate,
) -> Seq<Seq<char>>
    decreases keys.len(),
{
    if keys.len() == 0 {
        Seq::empty()
    } else {
        let before = with_fate(keys.drop_last(), found, cutoff, fate);
        if fate_of(value_of(found, keys.last()), cutoff) == fate {
            before.push(keys.last())
        } else {
            before
        }
    }
}

fn fate_in(found: &Vec<(String, Vec<u8>)>, key: &String, cutoff: i64) -> (f: Fate)
    ensures
        f == fate_of(value_of(found_view(found@), key@), cutoff),
{
    let ghost all = found_view(found@);
    let mut i: usize = found.len();
    assert(all.take(i as int) =~= all);
    while i > 0
        invariant
            i <= found.len(),
            all == found_view(found@),
            value_of(all, key@) == value_of(all.take(i as int), key@),
        decreases i,
    {
        assert(all.take(i as int).drop_last() =~= all.take(i - 1));
        if found[i - 1].0 == *key {
            return fate_of_value(found[i - 1].1.as_slice(), cutoff);
        }
        i -= 1;
    }
    Fate::Gone
}

/// A scan over the keys of a stamped store: it asks for their values chunk by
/// chunk, and sorts the keys by fate. Keys that are gone fall out of both
/// sets.
#[derive(Debug)]
pub struct ExpiryScan {
    keys: Vec<String>,
    cutoff: i64,
    at: usize,
    victims: Vec<String>,
    survivors: Vec<String>,
}

/// The values that an [`ExpiryScan`] holds.
#[verifier::ext_equal]
pub struct ExpiryScanView {
    /// The keys to look at.
    pub keys: Seq<Seq<char>>,
    /// Rows older than this are expired.
    pub cutoff: i64,
    /// How many keys were looked at.
    pub at: int,
    /// Expired or corrupt.
    pub victims: Seq<Seq<char>>,
    /// Live.
    pub survivors: Seq<Seq<char>>,
}

impl View for ExpiryScan {
    type V = ExpiryScanView;

    closed spec fn view(&self) -> ExpiryScanView {
        ExpiryScanView {
            keys: views(self.keys@),
            cutoff: self.cutoff,
            at: self.at as int,
            victims: views(self.victims@),
            survivors: views(self.survivors@),
        }
    }
}

impl ExpiryScanView {
    /// Where the next chunk ends.
    pub open spec fn chunk_end(self) -> int {
        if self.at + SCAN_CHUNK < self.keys.len() {
            self.at + SCAN_CHUNK
        } else {
            self.keys.len() as int
        }
    }

    /// The keys of the next chunk.
    pub open spec fn chunk(self) -> Seq<Seq<char>> {
        self.keys.subrange(self.at, self.chunk_end())
    }

    /// The scan once the next chunk's values were read.
    pub open spec fn answered(self, found: Seq<(Seq<char>, Seq<u8>)>) -> ExpiryScanView {
        ExpiryScanView {
            at: self.chunk_end(),
            victims: self.victims + with_fate(self.chunk(), found, self.cutoff, Fate::Expired),
            survivors: self.survivors + with_fate(self.chunk(), found, self.cutoff, Fate::Live),
            ..self
        }
    }

    /// Some of the keys were looked at, at most all.
    pub open spec fn wf(self) -> bool {
        0 <= self.at <= self.keys.len()
    }
}

impl ExpiryScan {
    /// A scan that has looked at nothing.
    pub fn new(keys: Vec<String>, cutoff: i64) -> (s: Self)
        ensures
            s@ == (ExpiryScanView {
                keys: views(keys@),
                cutoff,
                at: 0,
                victims: Seq::empty(),
                survivors: Seq::empty(),
            }),
            s@.wf(),
    {
        let s = ExpiryScan { keys, cutoff, at: 0, victims: Vec::new(), survivors: Vec::new() };
        assert(s@.victims =~= Seq::empty());
        assert(s@.survivors =~= Seq::empty());
        s
    }

    /// The keys whose values are needed next, at most a chunk of them; none
    /// once every key was looked at.
    pub fn next_chunk(&self) -> (chunk: Vec<String>)
        requires
            self@.wf(),
        ensures
            views(chunk@) == self@.chunk(),
            chunk@.len() <= SCAN_CHUNK,
            chunk@.len() == 0 <==> self@.at == self@.keys.len(),
    {
        let mut chunk: Vec<String> = Vec::new();
        let mut i: usize = self.at;
        while i < self.keys.len() && i - self.at < SCAN_CHUNK
            invariant
                self@.wf(),
                self.at <= i <= self.keys@.len(),
                i - self.at <= SCAN_CHUNK,
                views(chunk@) == self@.keys.subrange(self.at as int, i as int),
            decreases self.keys.len() - i,
        {
            let ghost before = chunk@;
            let key = self.keys[i].clone();
            chunk.push(key);
            proof {
                assert(views(chunk@) =~= views(before).push(key@));
                assert(self@.keys.subrange(self.at as int, i + 1) =~= self@.keys.subrange(
                    self.at as int,
                    i as int,
                ).push(self@.keys[i as int]));
            }
            i += 1;
        }
        assert(views(chunk@).len() == chunk@.len());
        chunk
    }

    /// Takes the values of the next chunk.
    pub fn answer(&mut self, found: &Vec<(String, Vec<u8>)>)
        requires
            old(self)@.wf(),
        ensures
            final(self)@ == old(self)@.answered(found_view(found@)),
            final(self)@.wf(),
    {
        let ghost start = *self;
        let ghost f = found_view(found@);
        let end: usize = if self.keys.len() - self.at > SCAN_CHUNK {
            self.at + SCAN_CHUNK
        } else {
            self.keys.len()
        };
        let first: usize = self.at;
        proof {
            let none = start@.keys.subrange(first as int, first as int);
            assert(none =~= Seq::empty());
            assert(self@.victims =~= start@.victims + with_fate(
                none,
                f,
                start@.cutoff,
                Fate::Expired,
            ));
            assert(self@.survivors =~= start@.survivors + with_fate(
                none,
                f,
                start@.cutoff,
                Fate::Live,
            ));
        }
        let mut i: usize = first;
        while i < end
            invariant
                first <= i <= end <= self.keys@.len(),
                first == start.at,
                end == start@.chunk_end(),
                f == found_view(found@),
                self.keys == start.keys,
                self.cutoff == start.cutoff,
                self.at == start.at,
                self@.victims == start@.victims + with_fate(
                    start@.keys.subrange(first as int, i as int),
                    f,
                    start@.cutoff,
                    Fate::Expired,
                ),
                self@.survivors == start@.survivors + with_fate(
                    start@.keys.subrange(first as int, i as int),
                    f,
                    start@.cutoff,
                    Fate::Live,
                ),
            decreases end - i,
        {
            let ghost next = start@.keys.subrange(first as int, i + 1);
            let ghost victims = self.victims@;
            let ghost survivors = self.survivors@;
            proof {
                assert(next.drop_last() =~= start@.keys.subrange(first as int, i as int));
                assert(next.last() == self.keys@[i as int]@);
            }
            match fate_in(found, &self.keys[i], self.cutoff) {
                Fate::Expired => {
                    let key = self.keys[i].clone();
                    self.victims.push(key);
                    assert(views(self.victims@) =~= views(victims).push(key@));
                },
                Fate::Live => {
                    let key = self.keys[i].clone();
                    self.survivors.push(key);
                    assert(views(self.survivors@) =~= views(survivors).push(key@));
                },
                Fate::Gone => {},
            }
            proof {
                assert(self@.victims =~= start@.victims + with_fate(
                    next,
                    f,
                    start@.cutoff,
                    Fate::Expired,
                ));
                assert(self@.survivors =~= start@.survivors + with_fate(
                    next,
                    f,
                    start@.cutoff,
                    Fate::Live,
                ));
            }
            i += 1;
        }
        self.at = end;
    }

    /// What the scan found: the expired keys, and the live ones.
    pub fn finish(self) -> (out: (Vec<String>, Vec<String>))
        ensures
            views(out.0@) == self@.victims,
            views(out.1@) == self@.survivors,
    {
        (self.victims, self.survivors)
    }
}

/// A key that a scan looked at is a victim only where its value was expired or
/// corrupt when it was read, and a survivor only where it was live: nothing is
/// dropped that a concurrent write refreshed before the read.
pub proof fn fates_exclude_each_other(
    keys: Seq<Seq<char>>,
    found: Seq<(Seq<char>, Seq<u8>)>,
    cutoff: i64,
    key: Seq<char>,
)
    ensures
        with_fate(keys, found, cutoff, Fate::Expired).contains(key) <==> keys.contains(key)
            && fate_of(value_of(found, key), cutoff) == Fate::Expired,
        with_fate(keys, found, cutoff, Fate::Live).contains(key) <==> keys.contains(key) && fate_of(
            value_of(found, key),
            cutoff,
        ) == Fate::Live,
    decreases keys.len(),
{
    if keys.len() > 0 {
        let before = keys.drop_last();
        fates_exclude_each_other(before, found, cutoff, key);
        assert(keys =~= before.push(keys.last()));
        assert(keys.contains(key) <==> before.contains(key) || keys.last() == key) by {
            if keys.contains(key) {
                let i = choose|i: int| 0 <= i < keys.len() && keys[i] == key;
                if i < before.len() {
                    assert(before[i] == key);
                }
            }
            if before.contains(key) {
                let i = choose|i: int| 0 <= i < before.len() && before[i] == key;
                assert(keys[i] == key);
            }
            if keys.last() == key {
                assert(keys[keys.len() - 1] == key);
            }
        }
        assert forall|f: Fate| #![auto] with_fate(keys, found, cutoff, f).contains(key) <==> (
        with_fate(before, found, cutoff, f).contains(key) || (keys.last() == key && fate_of(
            value_of(found, key),
            cutoff,
        ) == f)) by {
            let old_set = with_fate(before, found, cutoff, f);
            let new_set = with_fate(keys, found, cutoff, f);
            if new_set.len() > old_set.len() {
                assert(new_set == old_set.push(keys.last()));
                if old_set.contains(key) {
                    let i = choose|i: int| 0 <= i < old_set.len() && old_set[i] == key;
                    assert(new_set[i] == key);
                }
                if keys.last() == key {
                    assert(new_set[new_set.len() - 1] == key);
                }
                if new_set.contains(key) {
                    let i = choose|i: int| 0 <= i < new_set.len() && new_set[i] == key;
                    if i < old_set.len() {
                        assert(old_set[i] == key);
                    }
                }
            }
        }
    }
}

} // verus!
