//! What stored rows mean: identities, pre-keys, sender keys, tokens, and the
//! shapes in which the host hands rows over.

use vstd::prelude::*;
use vstd::utf8::{decode_utf8, encode_utf8_decode_utf8, valid_utf8};

use crate::messages::fields::{opt_view, views};
use crate::store::expiry::found_view;
use crate::store::index::contains_key;
use crate::text::{decimal, parse_u32, push_decimal, u32_of_text};

verus! {

/// What is wrong with an identity key of another length.
pub open spec fn identity_complaint(address: Seq<char>, len: nat) -> Seq<char> {
    "identity key for "@ + address + " has invalid length "@ + decimal(len)
}

/// An identity key as it is stored: exactly 32 bytes.
pub fn identity_key(address: &str, bytes: &Vec<u8>) -> (res: Result<[u8; 32], String>)
    ensures
        match res {
            Ok(key) => key@ == bytes@,
            Err(e) => bytes@.len() != 32 && e@ == identity_complaint(address@, bytes@.len()),
        },
        bytes@.len() == 32 ==> res is Ok,
{
    if bytes.len() != 32 {
        let mut e = "identity key for ".to_owned();
        e.push_str(address);
        e.push_str(" has invalid length ");
        push_decimal(&mut e, bytes.len() as u64);
        return Err(e);
    }
    let mut key: [u8; 32] = [0;32];
    let mut i: usize = 0;
    while i < 32
        invariant
            i <= 32,
            bytes@.len() == 32,
            key@.len() == 32,
            forall|j: int| 0 <= j < i ==> key@[j] == bytes@[j],
        decreases 32 - i,
    {
        key[i] = bytes[i];
        i += 1;
    }
    assert(key@ =~= bytes@);
    Ok(key)
}

/// The largest pre-key id on record. Anything that is no number counts as
/// none.
pub open spec fn stored_max(stored: Option<Seq<u8>>) -> u32 {
    match stored {
        Some(bytes) if valid_utf8(bytes) => match u32_of_text(decode_utf8(bytes)) {
            Some(n) => n,
            None => 0,
        },
        _ => 0,
    }
}

/// Reads the largest pre-key id on record.
pub fn max_prekey_id(stored: Option<&[u8]>) -> (id: u32)
    ensures
        id == stored_max(
            match stored {
                Some(b) => Some(b@),
                None => None,
            },
        ),
{
    broadcast use encode_utf8_decode_utf8;

    match stored {
        None => 0,
        Some(bytes) => match core::str::from_utf8(bytes) {
            Err(_) => 0,
            Ok(t) => match parse_u32(t) {
                Some(n) => n,
                None => 0,
            },
        },
    }
}

/// The largest of some numbers and a floor.
pub open spec fn max_with(ids: Seq<u32>, floor: u32) -> u32
    decreases ids.len(),
{
    if ids.len() == 0 {
        floor
    } else {
        let before = max_with(ids.drop_last(), floor);
        if ids.last() > before {
            ids.last()
        } else {
            before
        }
    }
}

/// The largest pre-key id once a batch was stored: it never falls.
pub fn next_max_prekey_id(ids: &Vec<u32>, stored: u32) -> (id: u32)
    ensures
        id == max_with(ids@, stored),
{
    let mut id: u32 = stored;
    let mut i: usize = 0;
    assert(ids@.take(0) =~= Seq::empty());
    while i < ids.len()
        invariant
            i <= ids.len(),
            id == max_with(ids@.take(i as int), stored),
        decreases ids.len() - i,
    {
        assert(ids@.take(i + 1).drop_last() =~= ids@.take(i as int));
        if ids[i] > id {
            id = ids[i];
        }
        i += 1;
    }
    assert(ids@.take(i as int) =~= ids@);
    id
}

/// The text that a row holds; a row that is no text holds an empty one.
pub open spec fn stored_text(bytes: Seq<u8>) -> Seq<char> {
    if valid_utf8(bytes) {
        decode_utf8(bytes)
    } else {
        Seq::empty()
    }
}

/// Reads which mapping a phone number's row points to.
pub fn mapped_lid(stored: &[u8]) -> (lid: String)
    ensures
        lid@ == stored_text(stored@),
{
    broadcast use encode_utf8_decode_utf8;

    match core::str::from_utf8(stored) {
        Err(_) => String::new(),
        Ok(t) => t.to_owned(),
    }
}

/// The largest id on record covers every id of the batch and the record it
/// replaces, and is one of them.
pub proof fn max_prekey_id_covers(ids: Seq<u32>, stored: u32)
    ensures
        max_with(ids, stored) >= stored,
        forall|i: int| 0 <= i < ids.len() ==> ids[i] <= max_with(ids, stored),
        max_with(ids, stored) == stored || ids.contains(max_with(ids, stored)),
    decreases ids.len(),
{
    if ids.len() > 0 {
        let front = ids.drop_last();
        max_prekey_id_covers(front, stored);
        assert forall|i: int| 0 <= i < ids.len() implies ids[i] <= max_with(ids, stored) by {
            if i < front.len() {
                assert(front[i] == ids[i]);
            }
        }
        let m = max_with(ids, stored);
        if m == ids.last() {
            assert(ids[ids.len() - 1] == m);
        } else if front.contains(m) {
            let i = choose|i: int| 0 <= i < front.len() && front[i] == m;
            assert(ids[i] == m);
        }
    }
}

/// The numbered rows behind some keys, or the first key that is no number.
pub open spec fn numbered(rows: Seq<(Seq<char>, Seq<u8>)>) -> Result<Seq<(u32, Seq<u8>)>, Seq<char>>
    decreases rows.len(),
{
    if rows.len() == 0 {
        Ok(Seq::empty())
    } else {
        match numbered(rows.drop_last()) {
            Err(key) => Err(key),
            Ok(done) => match u32_of_text(rows.last().0) {
                Some(id) => Ok(done.push((id, rows.last().1))),
                None => Err(rows.last().0),
            },
        }
    }
}

/// Rows with numbers, as values.
pub open spec fn numbered_view(rows: Seq<(u32, Vec<u8>)>) -> Seq<(u32, Seq<u8>)> {
    Seq::new(rows.len(), |i: int| (rows[i].0, rows[i].1@))
}

/// Pre-key records by id. A key that is no number fails the whole read.
pub fn prekey_records(rows: &Vec<(String, Vec<u8>)>) -> (res: Result<Vec<(u32, Vec<u8>)>, String>)
    ensures
        match (res, numbered(found_view(rows@))) {
            (Ok(v), Ok(m)) => numbered_view(v@) == m,
            (Err(e), Err(key)) => e@ == "pre-key store returned a non-numeric id: "@ + key,
            _ => false,
        },
{
    let ghost all = found_view(rows@);
    let mut out: Vec<(u32, Vec<u8>)> = Vec::new();
    let mut i: usize = 0;
    proof {
        assert(all.take(0) =~= Seq::empty());
        assert(numbered_view(out@) =~= Seq::empty());
    }
    while i < rows.len()
        invariant
            i <= rows.len(),
            all == found_view(rows@),
            numbered(all.take(i as int)) == Ok::<Seq<(u32, Seq<u8>)>, Seq<char>>(
                numbered_view(out@),
            ),
        decreases rows.len() - i,
    {
        let ghost before = out@;
        proof {
            assert(all.take(i + 1).drop_last() =~= all.take(i as int));
            assert(all.take(i + 1).last() == all[i as int]);
        }
        match parse_u32(rows[i].0.as_str()) {
            Some(id) => {
                let record = rows[i].1.clone();
                assert(record@ =~= rows@[i as int].1@);
                out.push((id, record));
                assert(numbered_view(out@) =~= numbered_view(before).push((id, record@)));
            },
            None => {
                let mut e = "pre-key store returned a non-numeric id: ".to_owned();
                e.push_str(rows[i].0.as_str());
                proof {
                    numbered_stuck(all, i + 1);
                }
                return Err(e);
            },
        }
        i += 1;
    }
    assert(all.take(i as int) =~= all);
    Ok(out)
}

proof fn numbered_stuck(rows: Seq<(Seq<char>, Seq<u8>)>, n: int)
    requires
        0 <= n <= rows.len(),
        numbered(rows.take(n)) is Err,
    ensures
        numbered(rows) == numbered(rows.take(n)),
    decreases rows.len() - n,
{
    if n < rows.len() {
        assert(rows.take(n + 1).drop_last() =~= rows.take(n));
        numbered_stuck(rows, n + 1);
    } else {
        assert(rows.take(n) =~= rows);
    }
}

/// Sender-key devices with their status, as values.
pub open spec fn device_view(rows: Seq<(String, bool)>) -> Seq<(Seq<char>, bool)> {
    Seq::new(rows.len(), |i: int| (rows[i].0@, rows[i].1))
}

/// The first row of a device.
pub open spec fn device_place(rows: Seq<(Seq<char>, bool)>, jid: Seq<char>) -> Option<int>
    decreases rows.len(),
{
    if rows.len() == 0 {
        None
    } else if rows[0].0 == jid {
        Some(0)
    } else {
        match device_place(rows.skip(1), jid) {
            Some(i) => Some(i + 1),
            None => None,
        }
    }
}

/// The rows with a device's status set: in its row, or in a new one.
pub open spec fn with_status(
    rows: Seq<(Seq<char>, bool)>,
    jid: Seq<char>,
    status: bool,
) -> Seq<(Seq<char>, bool)> {
    match device_place(rows, jid) {
        Some(i) => rows.update(i, (jid, status)),
        None => rows.push((jid, status)),
    }
}

/// The rows with several statuses set, in order.
pub open spec fn with_statuses(
    rows: Seq<(Seq<char>, bool)>,
    entries: Seq<(Seq<char>, bool)>,
) -> Seq<(Seq<char>, bool)>
    decreases entries.len(),
{
    if entries.len() == 0 {
        rows
    } else {
        with_status(
            with_statuses(rows, entries.drop_last()),
            entries.last().0,
            entries.last().1,
        )
    }
}

proof fn device_place_bounds(rows: Seq<(Seq<char>, bool)>, jid: Seq<char>)
    ensures
        device_place(rows, jid) matches Some(i) ==> 0 <= i < rows.len() && rows[i].0 == jid,
    decreases rows.len(),
{
    if rows.len() > 0 && rows[0].0 != jid {
        device_place_bounds(rows.skip(1), jid);
    }
}

fn set_status(devices: &mut Vec<(String, bool)>, jid: &String, status: bool)
    ensures
        device_view(final(devices)@) == with_status(device_view(old(devices)@), jid@, status),
{
    let ghost all = device_view(devices@);
    let mut i: usize = 0;
    assert(all.skip(0) =~= all);
    while i < devices.len()
        invariant
            i <= devices.len(),
            *devices == *old(devices),
            all == device_view(devices@),
            device_place(all, jid@) == (match device_place(all.skip(i as int), jid@) {
                Some(k) => Some(k + i),
                None => None,
            }),
        decreases devices.len() - i,
    {
        proof {
            assert(all.skip(i as int)[0] == all[i as int]);
            assert(all.skip(i as int).skip(1) =~= all.skip(i + 1));
        }
        if devices[i].0 == *jid {
            let name = jid.clone();
            devices.set(i, (name, status));
            assert(device_view(devices@) =~= all.update(i as int, (jid@, status)));
            return;
        }
        i += 1;
    }
    assert(all.skip(i as int).len() == 0);
    let name = jid.clone();
    devices.push((name, status));
    assert(device_view(devices@) =~= all.push((jid@, status)));
}

/// Sets the sender-key status of some devices of a group.
pub fn set_sender_key_status(devices: &mut Vec<(String, bool)>, entries: &Vec<(String, bool)>)
    ensures
        device_view(final(devices)@) == with_statuses(
            device_view(old(devices)@),
            device_view(entries@),
        ),
{
    let ghost all = device_view(entries@);
    let mut i: usize = 0;
    assert(all.take(0) =~= Seq::empty());
    while i < entries.len()
        invariant
            i <= entries.len(),
            all == device_view(entries@),
            device_view(devices@) == with_statuses(
                device_view(old(devices)@),
                all.take(i as int),
            ),
        decreases entries.len() - i,
    {
        proof {
            assert(all.take(i + 1).drop_last() =~= all.take(i as int));
            assert(all.take(i + 1).last() == all[i as int]);
        }
        set_status(devices, &entries[i].0, entries[i].1);
        i += 1;
    }
    assert(all.take(i as int) =~= all);
}

/// The status that was set last is the one on record.
pub proof fn status_reads_back(rows: Seq<(Seq<char>, bool)>, jid: Seq<char>, status: bool)
    ensures
        with_status(rows, jid, status).contains((jid, status)),
{
    device_place_bounds(rows, jid);
    match device_place(rows, jid) {
        Some(i) => {
            assert(with_status(rows, jid, status)[i] == (jid, status));
        },
        None => {
            assert(with_status(rows, jid, status)[rows.len() as int] == (jid, status));
        },
    }
}

/// A group's rows without some devices, where that changes them.
pub fn without_devices(devices: &Vec<(String, bool)>, targets: &Vec<String>) -> (out: Option<
    Vec<(String, bool)>,
>)
    ensures
        ({
            let left = device_view(devices@).filter(
                |row: (Seq<char>, bool)| !views(targets@).contains(row.0),
            );
            match out {
                Some(v) => device_view(v@) == left && left.len() != devices@.len(),
                None => left.len() == devices@.len(),
            }
        }),
{
    reveal(Seq::filter);
    let ghost all = device_view(devices@);
    let ghost keep = |row: (Seq<char>, bool)| !views(targets@).contains(row.0);
    let mut out: Vec<(String, bool)> = Vec::new();
    let mut i: usize = 0;
    proof {
        assert(all.take(0) =~= Seq::empty());
        assert(device_view(out@) =~= Seq::empty());
        assert(all.take(0).filter(keep) =~= Seq::empty());
    }
    while i < devices.len()
        invariant
            i <= devices.len(),
            all == device_view(devices@),
            keep == (|row: (Seq<char>, bool)| !views(targets@).contains(row.0)),
            device_view(out@) == all.take(i as int).filter(keep),
        decreases devices.len() - i,
    {
        reveal(Seq::filter);
        let ghost before = out@;
        proof {
            assert(all.take(i + 1).drop_last() =~= all.take(i as int));
            assert(all.take(i + 1).last() == all[i as int]);
        }
        if !contains_key(targets, &devices[i].0) {
            let name = devices[i].0.clone();
            out.push((name, devices[i].1));
            assert(device_view(out@) =~= device_view(before).push(all[i as int]));
        }
        i += 1;
    }
    proof {
        assert(all.take(i as int) =~= all);
        assert(device_view(out@).len() == out@.len());
    }
    if out.len() != devices.len() {
        Some(out)
    } else {
        None
    }
}

/// What a stored token says about its age.
#[derive(Debug, Clone, Copy, PartialEq, Eq, Structural)]
pub struct TokenTimes {
    /// Whether there is a token at all.
    pub has_token: bool,
    /// When the token was received.
    pub token_timestamp: i64,
    /// When this side sent one, if it did.
    pub sender_timestamp: Option<i64>,
}

impl TokenTimes {
    /// Whether either half is still within its own cutoff.
    pub open spec fn live(self, token_cutoff: i64, sender_cutoff: i64) -> bool {
        ||| self.has_token && self.token_timestamp >= token_cutoff
        ||| self.sender_timestamp matches Some(t) && t >= sender_cutoff
    }

    /// Whether the row stays: one half within its own cutoff is enough.
    pub fn is_live(&self, token_cutoff: i64, sender_cutoff: i64) -> (b: bool)
        ensures
            b == self.live(token_cutoff, sender_cutoff),
    {
        let token_live = self.has_token && self.token_timestamp >= token_cutoff;
        let sender_live = match self.sender_timestamp {
            Some(t) => t >= sender_cutoff,
            None => false,
        };
        token_live || sender_live
    }
}

/// The reverse key that a new mapping makes stale: the old phone number's,
/// where there was another one.
pub fn stale_reverse_key(old_phone: &Option<String>, new_phone: &String) -> (key: Option<String>)
    ensures
        opt_view(key) == (match *old_phone {
            Some(old) => if old@ != new_phone@ {
                Some("pn:"@ + old@)
            } else {
                None
            },
            None => None,
        }),
{
    match old_phone {
        Some(old) => if *old != *new_phone {
            let mut key = "pn:".to_owned();
            key.push_str(old.as_str());
            Some(key)
        } else {
            None
        },
        None => None,
    }
}

/// Whether a stored base key is the current one.
pub fn same_base_key(stored: &Option<Vec<u8>>, current: &[u8]) -> (b: bool)
    ensures
        b == (match *stored {
            Some(s) => s@ == current@,
            None => false,
        }),
{
    match stored {
        None => false,
        Some(s) => {
            if s.len() != current.len() {
                return false;
            }
            let mut i: usize = 0;
            while i < s.len()
                invariant
                    i <= s@.len(),
                    *stored == Some(*s),
                    s@.len() == current@.len(),
                    forall|j: int| 0 <= j < i ==> s@[j] == current@[j],
                decreases s.len() - i,
            {
                if s[i] != current[i] {
                    return false;
                }
                i += 1;
            }
            assert(s@ =~= current@);
            true
        },
    }
}

/// One pair as the host handed it over: what was a text, what was bytes.
#[derive(Debug, Clone, PartialEq, Eq)]
pub struct HostEntry {
    /// The key, where the first half is a text.
    pub key: Option<String>,
    /// The value, where the second half is bytes.
    pub value: Option<Vec<u8>>,
}

/// Whether a pair is one: a text and bytes.
pub open spec fn well_formed(e: Option<HostEntry>) -> bool {
    e matches Some(e) && e.key is Some && e.value is Some
}

/// Whether every pair is one.
pub open spec fn all_well_formed(v: Seq<Option<HostEntry>>) -> bool {
    forall|i: int| 0 <= i < v.len() ==> well_formed(#[trigger] v[i])
}

/// A well-formed pair, as values.
pub open spec fn entry_pair(e: Option<HostEntry>) -> (Seq<char>, Seq<u8>) {
    (e->0.key->0@, e->0.value->0@)
}

/// Reads the pairs of a batch read. One malformed pair fails the whole batch:
/// a dropped one would look like a missing key to the caller, which on the
/// expiry path can prune a live key while its value is still stored.
pub fn parse_entry_array(listing: Option<Vec<Option<HostEntry>>>) -> (res: Result<
    Vec<(String, Vec<u8>)>,
    &'static str,
>)
    ensures
        match listing {
            None => res == Err::<Vec<(String, Vec<u8>)>, &'static str>("expected array"),
            Some(v) => if all_well_formed(v@) {
                res matches Ok(out) && found_view(out@) == Seq::new(
                    v@.len(),
                    |i: int| entry_pair(v@[i]),
                )
            } else {
                res == Err::<Vec<(String, Vec<u8>)>, &'static str>("malformed [key, value] entry")
            },
        },
{
    let v = match listing {
        None => {
            return Err("expected array");
        },
        Some(v) => v,
    };
    let mut out: Vec<(String, Vec<u8>)> = Vec::new();
    let mut i: usize = 0;
    while i < v.len()
        invariant
            i <= v.len(),
            listing == Some(v),
            out@.len() == i,
            forall|j: int| 0 <= j < i ==> well_formed(#[trigger] v@[j]),
            forall|j: int|
                0 <= j < i ==> (#[trigger] out@[j]).0@ == entry_pair(v@[j]).0 && out@[j].1@
                    == entry_pair(v@[j]).1,
        decreases v.len() - i,
    {
        match &v[i] {
            Some(HostEntry { key: Some(key), value: Some(value) }) => {
                let bytes = value.clone();
                assert(bytes@ =~= value@);
                out.push((key.clone(), bytes));
            },
            _ => {
                assert(!well_formed(v@[i as int]));
                assert(!all_well_formed(v@));
                return Err("malformed [key, value] entry");
            },
        }
        i += 1;
    }
    assert(found_view(out@) =~= Seq::new(v@.len(), |i: int| entry_pair(v@[i])));
    Ok(out)
}

/// Reads the keys of a listing. One that is no text fails the whole listing:
/// dropping it would make a live key look absent.
pub fn parse_key_array(listing: Option<Vec<Option<String>>>) -> (res: Result<
    Vec<String>,
    &'static str,
>)
    ensures
        match listing {
            None => res == Err::<Vec<String>, &'static str>("expected array"),
            Some(v) => if forall|i: int| 0 <= i < v@.len() ==> (#[trigger] v@[i]) is Some {
                res matches Ok(out) && views(out@) == Seq::new(v@.len(), |i: int| v@[i]->0@)
            } else {
                res == Err::<Vec<String>, &'static str>("non-string key in result")
            },
        },
{
    let v = match listing {
        None => {
            return Err("expected array");
        },
        Some(v) => v,
    };
    let mut out: Vec<String> = Vec::new();
    let mut i: usize = 0;
    while i < v.len()
        invariant
            i <= v.len(),
            listing == Some(v),
            out@.len() == i,
            forall|j: int| 0 <= j < i ==> (#[trigger] v@[j]) is Some,
            forall|j: int| 0 <= j < i ==> (#[trigger] out@[j])@ == v@[j]->0@,
        decreases v.len() - i,
    {
        match &v[i] {
            Some(key) => {
                out.push(key.clone());
            },
            None => {
                return Err("non-string key in result");
            },
        }
        i += 1;
    }
    assert(views(out@) =~= Seq::new(v@.len(), |i: int| v@[i]->0@));
    Ok(out)
}

/// What a failed host callback said: the text it threw, the message of the
/// error it threw, or whatever it renders as.
pub fn callback_message(text: Option<String>, message: Option<String>, rendered: String) -> (m:
    String)
    ensures
        m@ == (match (text, message) {
            (Some(t), _) => t@,
            (None, Some(m)) => m@,
            (None, None) => rendered@,
        }),
{
    match text {
        Some(t) => t,
        None => match message {
            Some(m) => m,
            None => rendered,
        },
    }
}

} // verus!
