//! Which of the two account copies a device record answers with.
//!
//! The record carries the account inline; a sidecar key keeps an older copy
//! for readers that know only that. The record is authoritative as soon as it
//! has the field at all, even as an explicit null; only a record without the
//! field is completed from the sidecar, and a load never writes.

use vstd::prelude::*;

use crate::messages::fields::{opt_view, views};
use crate::store::host::{
    after, row, HostWrite, HostWriteView, Rows, DEVICE_ACCOUNT, DEVICE_RECORD, STORE_DEVICE,
};
use crate::store::index::contains_key;

verus! {

/// The keys of a JSON document's outermost object, as [`serde_json`] parses it:
/// nothing at all where the bytes are no document, and no keys where it is no
/// object.
pub uninterp spec fn document_keys(record: Seq<u8>) -> Option<Option<Set<Seq<char>>>>;

/// The keys that a parse found, as a set.
pub open spec fn found_keys(found: Option<Option<Vec<String>>>) -> Option<Option<Set<Seq<char>>>> {
    match found {
        None => None,
        Some(None) => Some(None),
        Some(Some(keys)) => Some(Some(views(keys@).to_set())),
    }
}

/// [`serde_json::from_slice`] into a [`serde_json::Value`], and the keys of
/// the object that it is. They follow from the bytes alone; an empty record is
/// no document. What else is a document is left to that parser.
#[verifier::external_body]
fn parse_keys(record: &[u8]) -> (found: Option<Option<Vec<String>>>)
    ensures
        found_keys(found) == document_keys(record@),
        record@.len() == 0 ==> found is None,
{
    match serde_json::from_slice::<serde_json::Value>(record) {
        Ok(serde_json::Value::Object(map)) => Some(Some(map.keys().cloned().collect())),
        Ok(_) => Some(None),
        Err(_) => None,
    }
}

/// What loading a device needs next.
#[derive(Debug, Clone, Copy, PartialEq, Eq, Structural)]
pub enum DeviceLoad {
    /// There is no device.
    Absent,
    /// The record is no document.
    Malformed,
    /// The record answers by itself.
    Current,
    /// The record has no account field: the sidecar completes it.
    NeedsSidecar,
}

/// The key that holds the account in a record.
pub const ACCOUNT_FIELD: &'static str = "account";

/// What loading a device needs, given the keys of its record, if there is one:
/// a record answers by itself as soon as it has the account's key, whatever
/// that holds.
pub open spec fn load_step(record: Option<Option<Option<Set<Seq<char>>>>>) -> DeviceLoad {
    match record {
        None => DeviceLoad::Absent,
        Some(None) => DeviceLoad::Malformed,
        Some(Some(None)) => DeviceLoad::NeedsSidecar,
        Some(Some(Some(keys))) => if keys.contains(ACCOUNT_FIELD@) {
            DeviceLoad::Current
        } else {
            DeviceLoad::NeedsSidecar
        },
    }
}

/// What loading a device needs, given the keys of its record.
pub fn load_step_of(keys: Option<Option<Option<Vec<String>>>>) -> (step: DeviceLoad)
    ensures
        step == load_step(
            match keys {
                Some(found) => Some(found_keys(found)),
                None => None,
            },
        ),
{
    match keys {
        None => DeviceLoad::Absent,
        Some(None) => DeviceLoad::Malformed,
        Some(Some(None)) => DeviceLoad::NeedsSidecar,
        Some(Some(Some(keys))) => if contains_key(&keys, &ACCOUNT_FIELD.to_owned()) {
            DeviceLoad::Current
        } else {
            DeviceLoad::NeedsSidecar
        },
    }
}

/// What loading a device from its record needs.
pub fn device_load(record: Option<&[u8]>) -> (step: DeviceLoad)
    ensures
        step == load_step(
            match record {
                Some(r) => Some(document_keys(r@)),
                None => None,
            },
        ),
        record is None <==> step == DeviceLoad::Absent,
{
    match record {
        None => load_step_of(None),
        Some(r) => load_step_of(Some(parse_keys(r))),
    }
}

/// What saving a device writes: the record first, so that it answers even
/// where the second write fails; then the account beside it, or, without one,
/// its removal, so that a reader of that key alone does not find a retired
/// account.
pub open spec fn save_writes(record: Seq<u8>, account: Option<Seq<u8>>) -> Seq<HostWriteView> {
    seq![
        HostWriteView::Put { store: STORE_DEVICE@, key: DEVICE_RECORD@, value: record },
        match account {
            Some(bytes) => HostWriteView::Put {
                store: STORE_DEVICE@,
                key: DEVICE_ACCOUNT@,
                value: bytes,
            },
            None => HostWriteView::Remove { store: STORE_DEVICE@, key: DEVICE_ACCOUNT@ },
        },
    ]
}

/// Plans saving a device: its record, and its account where it has one.
pub fn save_device(record: Vec<u8>, account: Option<Vec<u8>>) -> (out: Vec<HostWrite>)
    ensures
        views(out@) == save_writes(record@, opt_view(account)),
{
    let mut out: Vec<HostWrite> = Vec::new();
    out.push(
        HostWrite::Put { store: STORE_DEVICE, key: DEVICE_RECORD.to_owned(), value: record },
    );
    match account {
        Some(bytes) => {
            out.push(
                HostWrite::Put {
                    store: STORE_DEVICE,
                    key: DEVICE_ACCOUNT.to_owned(),
                    value: bytes,
                },
            );
        },
        None => {
            out.push(HostWrite::Remove { store: STORE_DEVICE, key: DEVICE_ACCOUNT.to_owned() });
        },
    }
    assert(views(out@) =~= save_writes(record@, opt_view(account)));
    out
}

/// Once a device is saved, its record is the one that was given, and the key
/// beside it holds its account, or nothing. The record stands before the other
/// write is tried.
pub proof fn a_saved_device_reads_back(rows: Rows, record: Seq<u8>, account: Option<Seq<u8>>)
    ensures
        ({
            let writes = save_writes(record, account);
            let end = after(rows, writes);
            &&& row(after(rows, writes.take(1)), STORE_DEVICE@, DEVICE_RECORD@) == Some(record)
            &&& row(end, STORE_DEVICE@, DEVICE_RECORD@) == Some(record)
            &&& row(end, STORE_DEVICE@, DEVICE_ACCOUNT@) == account
        }),
{
    let writes = save_writes(record, account);
    reveal_strlit("device");
    reveal_strlit("account");
    assert(DEVICE_RECORD@.len() != DEVICE_ACCOUNT@.len());
    assert(writes.take(1).drop_last() =~= Seq::empty());
    assert(after(rows, Seq::empty()) == rows);
    assert(writes.drop_last() =~= writes.take(1));
}

} // verus!
