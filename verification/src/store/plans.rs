//! What each operation of the store writes, and in which order.
//!
//! A plan has up to three stages: writes, then a change to an index, which has
//! to be read for it, then writes again. The order is part of the plan: a
//! batch of secrets is indexed before it is written, so that what is cut short
//! leaves an index entry without a row, which the next sweep drops, and never
//! a row without an index entry, which nothing would find again.

use vstd::prelude::*;
use vstd::slice::slice_to_vec;
use vstd::utf8::encode_utf8;

use crate::messages::fields::{opt_view, views};
use crate::store::changes::{index_put, one, reads_back, IndexChange, IndexChangeView};
use crate::store::expiry::{found_view, sent_payload, stamp, stamped, TIMESTAMP_PREFIX_LEN};
use crate::store::host::{
    single_removes, HostWrite, HostWriteView, META_LATEST_SYNC_KEY_ID, META_LID_LIST,
    META_MSG_SECRET_KEYS, META_SENDER_KEY_GROUPS, META_SIGNED_PREKEY_IDS, META_TC_TOKEN_JIDS,
    MUTATION_MAC_INDEX, STORE_LID_MAPPING, STORE_META, STORE_MSG_SECRET, STORE_MUTATION_MAC,
    STORE_PREKEY, STORE_SENDER_KEY_DEVICES, STORE_SENT_MESSAGE, STORE_SIGNED_PREKEY,
    STORE_SYNC_KEY, STORE_TC_TOKEN,
};
use crate::store::index::{keys_with_prefix, HostCapabilities};
use crate::store::json::{
    devices_json, json_devices, read_devices, write_devices, write_texts, JsonFailure,
};
use crate::store::keys::{
    compound_store_key, joined_key, mutation_key, mutation_mac_key, part_views, prefixed,
    unprefixed,
};
use crate::store::rows::{
    device_view, numbered_view, set_sender_key_status, stale_reverse_key, with_statuses,
    without_devices, TokenTimes,
};
use crate::text::{decimal, decimal_string, hex, to_hex};

verus! {

/// What an operation writes.
#[derive(Debug, Clone, PartialEq, Eq)]
pub struct Plan {
    /// What is written first.
    pub before: Vec<HostWrite>,
    /// What becomes of an index then.
    pub index: Option<IndexChange>,
    /// What is written last.
    pub behind: Vec<HostWrite>,
}

/// The values that a [`Plan`] carries.
#[verifier::ext_equal]
pub struct PlanView {
    pub before: Seq<HostWriteView>,
    pub index: Option<IndexChangeView>,
    pub behind: Seq<HostWriteView>,
}

impl View for Plan {
    type V = PlanView;

    open spec fn view(&self) -> PlanView {
        PlanView {
            before: views(self.before@),
            index: opt_view(self.index),
            behind: views(self.behind@),
        }
    }
}

impl PlanView {
    /// A plan that writes nothing.
    pub open spec fn nothing() -> PlanView {
        PlanView { before: Seq::empty(), index: None, behind: Seq::empty() }
    }

    /// A plan that writes first, and then changes an index where one is kept.
    pub open spec fn then_index(
        before: Seq<HostWriteView>,
        kept: bool,
        change: IndexChangeView,
    ) -> PlanView {
        PlanView {
            before,
            index: if kept {
                Some(change)
            } else {
                None
            },
            behind: Seq::empty(),
        }
    }
}

fn then_index(before: Vec<HostWrite>, kept: bool, change: IndexChange) -> (p: Plan)
    ensures
        p@ == PlanView::then_index(views(before@), kept, change@),
{
    let index = if kept {
        Some(change)
    } else {
        None
    };
    let p = Plan { before, index, behind: Vec::new() };
    assert(p@.behind =~= Seq::empty());
    p
}

fn just(key: &String) -> (out: Vec<String>)
    ensures
        views(out@) == seq![key@],
{
    let mut out: Vec<String> = Vec::new();
    out.push(key.clone());
    assert(views(out@) =~= seq![key@]);
    out
}

/// A message's secret and whose it is.
#[derive(Debug, Clone, PartialEq, Eq)]
pub struct MsgSecretEntry {
    /// The chat.
    pub chat: String,
    /// The sender.
    pub sender: String,
    /// The message.
    pub msg_id: String,
    /// The secret.
    pub secret: Vec<u8>,
}

/// The values that a [`MsgSecretEntry`] carries.
pub struct MsgSecretEntryView {
    pub chat: Seq<char>,
    pub sender: Seq<char>,
    pub msg_id: Seq<char>,
    pub secret: Seq<u8>,
}

impl View for MsgSecretEntry {
    type V = MsgSecretEntryView;

    open spec fn view(&self) -> MsgSecretEntryView {
        MsgSecretEntryView {
            chat: self.chat@,
            sender: self.sender@,
            msg_id: self.msg_id@,
            secret: self.secret@,
        }
    }
}

/// The key of a message's secret.
pub open spec fn secret_key(chat: Seq<char>, sender: Seq<char>, msg_id: Seq<char>) -> Seq<char> {
    joined_key(seq![chat, sender, msg_id])
}

/// The key of a sent message.
pub open spec fn sent_key(chat: Seq<char>, msg_id: Seq<char>) -> Seq<char> {
    joined_key(seq![chat, msg_id])
}

/// The row of a message's secret: its key, and the stamped secret.
pub open spec fn secret_row(e: MsgSecretEntryView, now: i64) -> (Seq<char>, Seq<u8>) {
    (secret_key(e.chat, e.sender, e.msg_id), stamp(now) + e.secret)
}

/// The rows of some secrets.
pub open spec fn secret_rows(entries: Seq<MsgSecretEntryView>, now: i64) -> Seq<
    (Seq<char>, Seq<u8>),
> {
    Seq::new(entries.len(), |i: int| secret_row(entries[i], now))
}

/// The keys of some rows.
pub open spec fn row_keys(rows: Seq<(Seq<char>, Seq<u8>)>) -> Seq<Seq<char>> {
    Seq::new(rows.len(), |i: int| rows[i].0)
}

/// Spells the key of a message's secret.
pub fn secret_key_of(chat: &str, sender: &str, msg_id: &str) -> (key: String)
    ensures
        key@ == secret_key(chat@, sender@, msg_id@),
{
    let parts: [&str; 3] = [chat, sender, msg_id];
    let key = compound_store_key(&parts);
    assert(part_views(parts@) =~= seq![chat@, sender@, msg_id@]);
    key
}

/// Spells the key of a sent message.
pub fn sent_key_of(chat: &str, msg_id: &str) -> (key: String)
    ensures
        key@ == sent_key(chat@, msg_id@),
{
    let parts: [&str; 2] = [chat, msg_id];
    let key = compound_store_key(&parts);
    assert(part_views(parts@) =~= seq![chat@, msg_id@]);
    key
}

/// What storing one secret writes: the row, then its index entry.
pub open spec fn put_secret_plan(e: MsgSecretEntryView, now: i64, kept: bool) -> PlanView {
    PlanView::then_index(
        seq![
            HostWriteView::Put {
                store: STORE_MSG_SECRET@,
                key: secret_row(e, now).0,
                value: secret_row(e, now).1,
            },
        ],
        kept,
        IndexChangeView::Add { meta: META_MSG_SECRET_KEYS@, keys: seq![secret_row(e, now).0] },
    )
}

/// Plans storing one secret.
pub fn put_msg_secret(entry: &MsgSecretEntry, now: i64, caps: &HostCapabilities) -> (p: Plan)
    ensures
        p@ == put_secret_plan(entry@, now, !caps.enumerate),
{
    let key = secret_key_of(entry.chat.as_str(), entry.sender.as_str(), entry.msg_id.as_str());
    let keys = just(&key);
    let value = stamped(now, entry.secret.as_slice());
    then_index(
        one(HostWrite::Put { store: STORE_MSG_SECRET, key, value }),
        caps.needs_self_index(),
        IndexChange::Add { meta: META_MSG_SECRET_KEYS, keys },
    )
}

/// What storing a batch of secrets writes: the index entries, then the rows.
pub open spec fn put_secrets_plan(
    entries: Seq<MsgSecretEntryView>,
    now: i64,
    kept: bool,
) -> PlanView {
    if entries.len() == 0 {
        PlanView::nothing()
    } else {
        PlanView {
            before: Seq::empty(),
            index: if kept {
                Some(
                    IndexChangeView::Add {
                        meta: META_MSG_SECRET_KEYS@,
                        keys: row_keys(secret_rows(entries, now)),
                    },
                )
            } else {
                None
            },
            behind: seq![
                HostWriteView::PutMany {
                    store: STORE_MSG_SECRET@,
                    entries: secret_rows(entries, now),
                },
            ],
        }
    }
}

/// Plans storing a batch of secrets, all with the same timestamp.
pub fn put_msg_secrets(entries: &Vec<MsgSecretEntry>, now: i64, caps: &HostCapabilities) -> (p:
    Plan)
    ensures
        p@ == put_secrets_plan(views(entries@), now, !caps.enumerate),
{
    let ghost all = views(entries@);
    let mut batch: Vec<(String, Vec<u8>)> = Vec::new();
    let mut keys: Vec<String> = Vec::new();
    let mut i: usize = 0;
    while i < entries.len()
        invariant
            i <= entries.len(),
            all == views(entries@),
            found_view(batch@) =~= secret_rows(all, now).take(i as int),
            views(keys@) =~= row_keys(secret_rows(all, now)).take(i as int),
        decreases entries.len() - i,
    {
        let e = &entries[i];
        let key = secret_key_of(e.chat.as_str(), e.sender.as_str(), e.msg_id.as_str());
        let ghost a = batch@;
        let ghost b = keys@;
        let copy = key.clone();
        let value = stamped(now, e.secret.as_slice());
        let ghost row = (key@, value@);
        keys.push(copy);
        batch.push((key, value));
        assert(found_view(batch@) =~= found_view(a).push(row));
        assert(views(keys@) =~= views(b).push(copy@));
        i += 1;
    }
    assert(found_view(batch@) =~= secret_rows(all, now));
    assert(views(keys@) =~= row_keys(secret_rows(all, now)));
    if entries.len() == 0 {
        let p = Plan { before: Vec::new(), index: None, behind: Vec::new() };
        assert(p@ =~= PlanView::nothing());
        return p;
    }
    let index = if caps.needs_self_index() {
        Some(IndexChange::Add { meta: META_MSG_SECRET_KEYS, keys })
    } else {
        None
    };
    let p = Plan {
        before: Vec::new(),
        index,
        behind: one(HostWrite::PutMany { store: STORE_MSG_SECRET, entries: batch }),
    };
    assert(p@ =~= put_secrets_plan(all, now, !caps.enumerate));
    p
}

/// The write that stores a sent message.
pub open spec fn put_sent(
    chat: Seq<char>,
    msg_id: Seq<char>,
    payload: Seq<u8>,
    now: i64,
) -> HostWriteView {
    HostWriteView::Put {
        store: STORE_SENT_MESSAGE@,
        key: sent_key(chat, msg_id),
        value: stamp(now) + payload,
    }
}

/// Plans storing a sent message: the stamped payload. Its key joins the index
/// that is kept in memory, where one is.
pub fn store_sent_message(chat: &str, msg_id: &str, payload: &[u8], now: i64) -> (w: HostWrite)
    ensures
        w@ == put_sent(chat@, msg_id@, payload@, now),
{
    HostWrite::Put {
        store: STORE_SENT_MESSAGE,
        key: sent_key_of(chat, msg_id),
        value: stamped(now, payload),
    }
}

/// Plans taking a sent message, once its row was read: its payload, and the
/// write that deletes the row. A row without a payload is left alone.
pub fn take_sent_message(chat: &str, msg_id: &str, data: Option<&[u8]>) -> (taken: Option<
    (Vec<u8>, HostWrite),
>)
    ensures
        match (taken, data) {
            (Some((payload, w)), Some(d)) => {
                &&& d@.len() > TIMESTAMP_PREFIX_LEN
                &&& payload@ == d@.skip(TIMESTAMP_PREFIX_LEN as int)
                &&& w@ == (HostWriteView::Remove {
                    store: STORE_SENT_MESSAGE@,
                    key: sent_key(chat@, msg_id@),
                })
            },
            (None, Some(d)) => d@.len() <= TIMESTAMP_PREFIX_LEN,
            (Some(_), None) => false,
            (None, None) => true,
        },
{
    match data {
        None => None,
        Some(d) => match sent_payload(d) {
            None => None,
            Some(payload) => Some(
                (
                    payload,
                    HostWrite::Remove {
                        store: STORE_SENT_MESSAGE,
                        key: sent_key_of(chat, msg_id),
                    },
                ),
            ),
        },
    }
}

/// Plans storing a signed key: the record under its number, then the number in
/// the index.
pub fn store_signed_prekey(id: u32, record: &[u8], caps: &HostCapabilities) -> (p: Plan)
    ensures
        p@ == PlanView::then_index(
            seq![
                HostWriteView::Put {
                    store: STORE_SIGNED_PREKEY@,
                    key: decimal(id as nat),
                    value: record@,
                },
            ],
            !caps.enumerate,
            IndexChangeView::AddId { meta: META_SIGNED_PREKEY_IDS@, id },
        ),
{
    then_index(
        one(
            HostWrite::Put {
                store: STORE_SIGNED_PREKEY,
                key: decimal_string(id as u64),
                value: slice_to_vec(record),
            },
        ),
        caps.needs_self_index(),
        IndexChange::AddId { meta: META_SIGNED_PREKEY_IDS, id },
    )
}

/// Plans removing a signed key.
pub fn remove_signed_prekey(id: u32, caps: &HostCapabilities) -> (p: Plan)
    ensures
        p@ == PlanView::then_index(
            seq![HostWriteView::Remove { store: STORE_SIGNED_PREKEY@, key: decimal(id as nat) }],
            !caps.enumerate,
            IndexChangeView::DropId { meta: META_SIGNED_PREKEY_IDS@, id },
        ),
{
    then_index(
        one(HostWrite::Remove { store: STORE_SIGNED_PREKEY, key: decimal_string(id as u64) }),
        caps.needs_self_index(),
        IndexChange::DropId { meta: META_SIGNED_PREKEY_IDS, id },
    )
}

/// The rows of some one-time keys: each under its number.
pub open spec fn prekey_rows(records: Seq<(u32, Seq<u8>)>) -> Seq<(Seq<char>, Seq<u8>)> {
    Seq::new(records.len(), |i: int| (decimal(records[i].0 as nat), records[i].1))
}

/// The numbers of some one-time keys.
pub open spec fn prekey_ids(records: Seq<(u32, Seq<u8>)>) -> Seq<u32> {
    Seq::new(records.len(), |i: int| records[i].0)
}

/// Plans storing a batch of one-time keys: the records, then the highest
/// number on record, which never falls.
pub fn store_prekeys_batch(records: &Vec<(u32, Vec<u8>)>) -> (p: Plan)
    ensures
        p@ == PlanView::then_index(
            seq![
                HostWriteView::PutMany {
                    store: STORE_PREKEY@,
                    entries: prekey_rows(numbered_view(records@)),
                },
            ],
            true,
            IndexChangeView::RaiseMax { ids: prekey_ids(numbered_view(records@)) },
        ),
{
    let ghost all = numbered_view(records@);
    let mut entries: Vec<(String, Vec<u8>)> = Vec::new();
    let mut ids: Vec<u32> = Vec::new();
    let mut i: usize = 0;
    while i < records.len()
        invariant
            i <= records.len(),
            all == numbered_view(records@),
            found_view(entries@) =~= prekey_rows(all).take(i as int),
            ids@ =~= prekey_ids(all).take(i as int),
        decreases records.len() - i,
    {
        let ghost a = entries@;
        let key = decimal_string(records[i].0 as u64);
        let value = slice_to_vec(records[i].1.as_slice());
        let ghost row = (key@, value@);
        ids.push(records[i].0);
        entries.push((key, value));
        assert(found_view(entries@) =~= found_view(a).push(row));
        i += 1;
    }
    assert(found_view(entries@) =~= prekey_rows(all));
    assert(ids@ =~= prekey_ids(all));
    then_index(
        one(HostWrite::PutMany { store: STORE_PREKEY, entries }),
        true,
        IndexChange::RaiseMax { ids },
    )
}

/// The code of one mutation and the index it belongs to.
#[derive(Debug, Clone, PartialEq, Eq)]
pub struct MutationMac {
    /// The index.
    pub index_mac: Vec<u8>,
    /// The code.
    pub value_mac: Vec<u8>,
}

/// The writes that store some mutation codes, one by one.
pub open spec fn mutation_puts(name: Seq<char>, macs: Seq<MutationMac>) -> Seq<HostWriteView> {
    Seq::new(
        macs.len(),
        |i: int|
            HostWriteView::Put {
                store: STORE_MUTATION_MAC@,
                key: mutation_key(name, macs[i].index_mac@),
                value: macs[i].value_mac@,
            },
    )
}

/// The keys of some mutation codes.
pub open spec fn mutation_keys(name: Seq<char>, macs: Seq<MutationMac>) -> Seq<Seq<char>> {
    Seq::new(macs.len(), |i: int| mutation_key(name, macs[i].index_mac@))
}

/// The keys of the mutation codes of some indexes.
pub open spec fn index_keys(name: Seq<char>, indexes: Seq<Vec<u8>>) -> Seq<Seq<char>> {
    Seq::new(indexes.len(), |i: int| mutation_key(name, indexes[i]@))
}

/// Plans storing mutation codes: each row, then the index entries.
pub fn put_mutation_macs(name: &str, mutations: &Vec<MutationMac>, caps: &HostCapabilities) -> (p:
    Plan)
    ensures
        p@ == PlanView::then_index(
            mutation_puts(name@, mutations@),
            !caps.enumerate && mutations@.len() > 0,
            IndexChangeView::Add {
                meta: MUTATION_MAC_INDEX@,
                keys: mutation_keys(name@, mutations@),
            },
        ),
{
    let mut before: Vec<HostWrite> = Vec::new();
    let mut keys: Vec<String> = Vec::new();
    let mut i: usize = 0;
    while i < mutations.len()
        invariant
            i <= mutations.len(),
            views(before@) =~= mutation_puts(name@, mutations@).take(i as int),
            views(keys@) =~= mutation_keys(name@, mutations@).take(i as int),
        decreases mutations.len() - i,
    {
        let ghost a = before@;
        let ghost b = keys@;
        let key = mutation_mac_key(name, mutations[i].index_mac.as_slice());
        let copy = key.clone();
        let w = HostWrite::Put {
            store: STORE_MUTATION_MAC,
            key,
            value: slice_to_vec(mutations[i].value_mac.as_slice()),
        };
        before.push(w);
        keys.push(copy);
        assert(views(before@) =~= views(a).push(w@));
        assert(views(keys@) =~= views(b).push(copy@));
        i += 1;
    }
    assert(views(before@) =~= mutation_puts(name@, mutations@));
    assert(views(keys@) =~= mutation_keys(name@, mutations@));
    then_index(
        before,
        caps.needs_self_index() && mutations.len() > 0,
        IndexChange::Add { meta: MUTATION_MAC_INDEX, keys },
    )
}

/// Plans deleting mutation codes: each row, then the index entries.
pub fn delete_mutation_macs(name: &str, index_macs: &Vec<Vec<u8>>, caps: &HostCapabilities) -> (p:
    Plan)
    ensures
        p@ == PlanView::then_index(
            single_removes(
                STORE_MUTATION_MAC@,
                index_keys(name@, index_macs@),
            ),
            !caps.enumerate && index_macs@.len() > 0,
            IndexChangeView::Drop {
                meta: MUTATION_MAC_INDEX@,
                keys: index_keys(name@, index_macs@),
            },
        ),
{
    let ghost all = index_keys(name@, index_macs@);
    let mut before: Vec<HostWrite> = Vec::new();
    let mut keys: Vec<String> = Vec::new();
    let mut i: usize = 0;
    while i < index_macs.len()
        invariant
            i <= index_macs.len(),
            all == index_keys(name@, index_macs@),
            views(before@) =~= single_removes(STORE_MUTATION_MAC@, all).take(
                i as int,
            ),
            views(keys@) =~= all.take(i as int),
        decreases index_macs.len() - i,
    {
        let ghost a = before@;
        let ghost b = keys@;
        let key = mutation_mac_key(name, index_macs[i].as_slice());
        let copy = key.clone();
        let w = HostWrite::Remove { store: STORE_MUTATION_MAC, key };
        before.push(w);
        keys.push(copy);
        assert(views(before@) =~= views(a).push(w@));
        assert(views(keys@) =~= views(b).push(copy@));
        i += 1;
    }
    assert(views(before@) =~= single_removes(STORE_MUTATION_MAC@, all));
    assert(views(keys@) =~= all);
    then_index(
        before,
        caps.needs_self_index() && index_macs.len() > 0,
        IndexChange::Drop { meta: MUTATION_MAC_INDEX, keys },
    )
}

/// The write that clears every row of a namespace whose key starts alike: by
/// prefix where the host can, else the keys that were listed, if any.
pub open spec fn clearing(
    store: Seq<char>,
    prefix: Seq<char>,
    by_prefix: bool,
    keys: Seq<Seq<char>>,
) -> Seq<HostWriteView> {
    let matching = keys.filter(|k: Seq<char>| unprefixed(k, prefix) is Some);
    if by_prefix {
        seq![HostWriteView::RemovePrefix { store, prefix }]
    } else if matching.len() > 0 {
        seq![HostWriteView::RemoveMany { store, keys: matching }]
    } else {
        Seq::empty()
    }
}

fn clear_rows(
    store: &'static str,
    prefix: &String,
    by_prefix: bool,
    keys: &Vec<String>,
) -> (out: Vec<HostWrite>)
    ensures
        views(out@) == clearing(store@, prefix@, by_prefix, views(keys@)),
{
    if by_prefix {
        return one(HostWrite::RemovePrefix { store, prefix: prefix.clone() });
    }
    let matching = keys_with_prefix(keys, prefix.as_str());
    assert(views(matching@).len() == matching@.len());
    if matching.len() > 0 {
        one(HostWrite::RemoveMany { store, keys: matching })
    } else {
        let out: Vec<HostWrite> = Vec::new();
        assert(views(out@) =~= Seq::empty());
        out
    }
}

/// Plans clearing the mutation codes of a collection. The prefix ends with the
/// separator, so that a collection whose name starts alike is left alone. The
/// keys are those of the namespace: they are needed only where the host cannot
/// delete by prefix.
pub fn clear_mutation_macs(name: &str, caps: &HostCapabilities, keys: &Vec<String>) -> (p: Plan)
    ensures
        p@ == PlanView::then_index(
            clearing(STORE_MUTATION_MAC@, name@ + ":"@, caps.prefix_delete, views(keys@)),
            !caps.enumerate,
            IndexChangeView::ClearPrefix { meta: MUTATION_MAC_INDEX@, prefix: name@ + ":"@ },
        ),
{
    let prefix = prefixed(name, ":");
    let before = clear_rows(STORE_MUTATION_MAC, &prefix, caps.prefix_delete, keys);
    then_index(
        before,
        caps.needs_self_index(),
        IndexChange::ClearPrefix { meta: MUTATION_MAC_INDEX, prefix },
    )
}

/// What clearing the sender-key devices of every group writes.
pub open spec fn clear_all_groups(kept: bool, by_prefix: bool, groups: Seq<Seq<char>>) -> Seq<
    HostWriteView,
> {
    let rows = clearing(STORE_SENDER_KEY_DEVICES@, Seq::empty(), by_prefix, groups);
    if kept {
        rows.push(HostWriteView::Remove { store: STORE_META@, key: META_SENDER_KEY_GROUPS@ })
    } else {
        rows
    }
}

/// Plans clearing the sender-key devices of every group: the namespace holds
/// nothing else, so everything in it goes, and the index with it.
pub fn clear_all_sender_key_devices(caps: &HostCapabilities, groups: &Vec<String>) -> (out: Vec<
    HostWrite,
>)
    ensures
        views(out@) == clear_all_groups(!caps.enumerate, caps.prefix_delete, views(groups@)),
{
    let prefix = String::new();
    assert(prefix@ =~= Seq::empty());
    let mut out = clear_rows(STORE_SENDER_KEY_DEVICES, &prefix, caps.prefix_delete, groups);
    let ghost rows = out@;
    if caps.needs_self_index() {
        let w = HostWrite::Remove { store: STORE_META, key: META_SENDER_KEY_GROUPS.to_owned() };
        out.push(w);
        assert(views(out@) =~= views(rows).push(w@));
    }
    out
}

/// The devices of a group on record.
pub open spec fn devices_on_record(stored: Option<Seq<u8>>) -> Option<Seq<(Seq<char>, bool)>> {
    match stored {
        None => Some(Seq::empty()),
        Some(bytes) => json_devices(bytes),
    }
}

/// Whether a list of devices reads back as it was written.
pub open spec fn devices_read_back(list: Seq<(Seq<char>, bool)>) -> bool {
    json_devices(devices_json(list)) == Some(list)
}

/// The write of a group's devices.
pub open spec fn devices_put(group: Seq<char>, list: Seq<(Seq<char>, bool)>) -> HostWriteView {
    HostWriteView::Put {
        store: STORE_SENDER_KEY_DEVICES@,
        key: group,
        value: devices_json(list),
    }
}

fn group_devices(group: &str, stored: Option<&[u8]>) -> (res: Result<
    Vec<(String, bool)>,
    JsonFailure,
>)
    ensures
        match (res, devices_on_record(opt_view(stored))) {
            (Ok(list), Some(m)) => device_view(list@) == m,
            (Err(e), None) => e.store@ == STORE_SENDER_KEY_DEVICES@ && e.key@ == group@,
            _ => false,
        },
{
    match stored {
        None => {
            let list: Vec<(String, bool)> = Vec::new();
            assert(device_view(list@) =~= Seq::empty());
            Ok(list)
        },
        Some(bytes) => match read_devices(bytes) {
            Some(list) => Ok(list),
            None => Err(JsonFailure { store: STORE_SENDER_KEY_DEVICES, key: group.to_owned() }),
        },
    }
}

/// Plans recording which devices of a group hold the sender key, once its row
/// was read: the devices, then the group in the index.
pub fn put_sender_key_status(
    group: &str,
    stored: Option<&[u8]>,
    entries: &Vec<(String, bool)>,
    caps: &HostCapabilities,
) -> (res: Result<Plan, JsonFailure>)
    ensures
        match (res, devices_on_record(opt_view(stored))) {
            (Ok(p), Some(devices)) => {
                let next = with_statuses(devices, device_view(entries@));
                &&& p@ == PlanView::then_index(
                    seq![devices_put(group@, next)],
                    !caps.enumerate,
                    IndexChangeView::Add { meta: META_SENDER_KEY_GROUPS@, keys: seq![group@] },
                )
                &&& devices_read_back(next)
            },
            (Err(e), None) => e.store@ == STORE_SENDER_KEY_DEVICES@ && e.key@ == group@,
            _ => false,
        },
{
    let mut devices = group_devices(group, stored)?;
    set_sender_key_status(&mut devices, entries);
    let value = write_devices(&devices);
    let key = group.to_owned();
    let keys = just(&key);
    Ok(
        then_index(
            one(HostWrite::Put { store: STORE_SENDER_KEY_DEVICES, key, value }),
            caps.needs_self_index(),
            IndexChange::Add { meta: META_SENDER_KEY_GROUPS, keys },
        ),
    )
}

/// Plans forgetting the sender-key devices of a group: the row, then the group
/// in the index.
pub fn clear_sender_key_devices(group: &str, caps: &HostCapabilities) -> (p: Plan)
    ensures
        p@ == PlanView::then_index(
            seq![HostWriteView::Remove { store: STORE_SENDER_KEY_DEVICES@, key: group@ }],
            !caps.enumerate,
            IndexChangeView::SwapOut { meta: META_SENDER_KEY_GROUPS@, key: group@ },
        ),
{
    then_index(
        one(HostWrite::Remove { store: STORE_SENDER_KEY_DEVICES, key: group.to_owned() }),
        caps.needs_self_index(),
        IndexChange::SwapOut { meta: META_SENDER_KEY_GROUPS, key: group.to_owned() },
    )
}

/// The devices of a group without some.
pub open spec fn devices_left(devices: Seq<(Seq<char>, bool)>, targets: Seq<Seq<char>>) -> Seq<
    (Seq<char>, bool),
> {
    devices.filter(|row: (Seq<char>, bool)| !targets.contains(row.0))
}

/// Plans taking devices out of one group, once its row was read: a write only
/// where one of them was in it.
pub fn delete_sender_key_devices(
    group: &str,
    stored: Option<&[u8]>,
    targets: &Vec<String>,
) -> (res: Result<Option<HostWrite>, JsonFailure>)
    ensures
        match (res, devices_on_record(opt_view(stored))) {
            (Ok(w), Some(devices)) => {
                let left = devices_left(devices, views(targets@));
                match w {
                    Some(w) => left.len() != devices.len() && w@ == devices_put(group@, left)
                        && devices_read_back(left),
                    None => left.len() == devices.len(),
                }
            },
            (Err(e), None) => e.store@ == STORE_SENDER_KEY_DEVICES@ && e.key@ == group@,
            _ => false,
        },
{
    let devices = group_devices(group, stored)?;
    assert(device_view(devices@).len() == devices@.len());
    match without_devices(&devices, targets) {
        Some(left) => {
            let value = write_devices(&left);
            Ok(
                Some(
                    HostWrite::Put {
                        store: STORE_SENDER_KEY_DEVICES,
                        key: group.to_owned(),
                        value,
                    },
                ),
            )
        },
        None => Ok(None),
    }
}

/// What storing a mapping writes: a reverse entry that became stale goes, then
/// the forward entry and the reverse one are set.
pub open spec fn mapping_writes(
    old_phone: Option<Seq<char>>,
    lid: Seq<char>,
    phone: Seq<char>,
    record: Seq<u8>,
) -> Seq<HostWriteView> {
    let stale = match old_phone {
        Some(old) if old != phone => seq![
            HostWriteView::Remove { store: STORE_LID_MAPPING@, key: "pn:"@ + old },
        ],
        _ => Seq::empty(),
    };
    stale.push(
        HostWriteView::Put { store: STORE_LID_MAPPING@, key: "lid:"@ + lid, value: record },
    ).push(
        HostWriteView::Put {
            store: STORE_LID_MAPPING@,
            key: "pn:"@ + phone,
            value: encode_utf8(lid),
        },
    )
}

/// Plans storing a mapping, once the phone number of the one it replaces is
/// known: the entries, then the bare identifier in the index.
pub fn put_lid_mapping(
    old_phone: &Option<String>,
    lid: &String,
    phone: &String,
    record: Vec<u8>,
    caps: &HostCapabilities,
) -> (p: Plan)
    ensures
        p@ == PlanView::then_index(
            mapping_writes(opt_view(*old_phone), lid@, phone@, record@),
            !caps.enumerate,
            IndexChangeView::Add { meta: META_LID_LIST@, keys: seq![lid@] },
        ),
{
    let mut before: Vec<HostWrite> = Vec::new();
    match stale_reverse_key(old_phone, phone) {
        Some(key) => {
            before.push(HostWrite::Remove { store: STORE_LID_MAPPING, key });
        },
        None => {},
    }
    let forward = HostWrite::Put {
        store: STORE_LID_MAPPING,
        key: prefixed("lid:", lid.as_str()),
        value: record,
    };
    let reverse = HostWrite::Put {
        store: STORE_LID_MAPPING,
        key: prefixed("pn:", phone.as_str()),
        value: slice_to_vec(lid.as_str().as_bytes()),
    };
    before.push(forward);
    before.push(reverse);
    assert(views(before@) =~= mapping_writes(opt_view(*old_phone), lid@, phone@, record@));
    then_index(
        before,
        caps.needs_self_index(),
        IndexChange::Add { meta: META_LID_LIST, keys: just(lid) },
    )
}

/// Plans storing a contact token. Its index is kept on every host.
pub fn put_tc_token(jid: &String, record: Vec<u8>) -> (p: Plan)
    ensures
        p@ == PlanView::then_index(
            seq![HostWriteView::Put { store: STORE_TC_TOKEN@, key: jid@, value: record@ }],
            true,
            IndexChangeView::Add { meta: META_TC_TOKEN_JIDS@, keys: seq![jid@] },
        ),
{
    then_index(
        one(HostWrite::Put { store: STORE_TC_TOKEN, key: jid.clone(), value: record }),
        true,
        IndexChange::Add { meta: META_TC_TOKEN_JIDS, keys: just(jid) },
    )
}

/// Plans deleting a contact token.
pub fn delete_tc_token(jid: &String) -> (p: Plan)
    ensures
        p@ == PlanView::then_index(
            seq![HostWriteView::Remove { store: STORE_TC_TOKEN@, key: jid@ }],
            true,
            IndexChangeView::DropAlways { meta: META_TC_TOKEN_JIDS@, key: jid@ },
        ),
{
    then_index(
        one(HostWrite::Remove { store: STORE_TC_TOKEN, key: jid.clone() }),
        true,
        IndexChange::DropAlways { meta: META_TC_TOKEN_JIDS, key: jid.clone() },
    )
}

/// A contact token's row as it was read: whose it is, and its times, where the
/// row is there.
#[derive(Debug, Clone, PartialEq, Eq)]
pub struct TokenRow {
    /// Whose.
    pub jid: String,
    /// Its times.
    pub times: Option<TokenTimes>,
}

/// The tokens that are there and no longer live, in order.
pub open spec fn dead_tokens(rows: Seq<TokenRow>, token_cutoff: i64, sender_cutoff: i64) -> Seq<
    Seq<char>,
>
    decreases rows.len(),
{
    if rows.len() == 0 {
        Seq::empty()
    } else {
        let before = dead_tokens(rows.drop_last(), token_cutoff, sender_cutoff);
        match rows.last().times {
            Some(t) if !t.live(token_cutoff, sender_cutoff) => before.push(rows.last().jid@),
            _ => before,
        }
    }
}

/// The tokens that are there and live, in order.
pub open spec fn live_tokens(rows: Seq<TokenRow>, token_cutoff: i64, sender_cutoff: i64) -> Seq<
    Seq<char>,
>
    decreases rows.len(),
{
    if rows.len() == 0 {
        Seq::empty()
    } else {
        let before = live_tokens(rows.drop_last(), token_cutoff, sender_cutoff);
        match rows.last().times {
            Some(t) if t.live(token_cutoff, sender_cutoff) => before.push(rows.last().jid@),
            _ => before,
        }
    }
}

/// Plans what one contact token's row comes to in a sweep: one that is there
/// and no longer live goes.
pub fn expired_token_write(row: &TokenRow, token_cutoff: i64, sender_cutoff: i64) -> (w: Option<
    HostWrite,
>)
    ensures
        opt_view(w) == match row.times {
            Some(t) if !t.live(token_cutoff, sender_cutoff) => Some(
                HostWriteView::Remove { store: STORE_TC_TOKEN@, key: row.jid@ },
            ),
            _ => None,
        },
{
    match row.times {
        Some(t) => if t.is_live(token_cutoff, sender_cutoff) {
            None
        } else {
            Some(HostWrite::Remove { store: STORE_TC_TOKEN, key: row.jid.clone() })
        },
        None => None,
    }
}

/// Plans deleting the contact tokens that are no longer live: each row, then
/// the index of those that are, which is written in any case. A token whose
/// row is gone leaves the index.
pub fn delete_expired_tc_tokens(
    rows: &Vec<TokenRow>,
    token_cutoff: i64,
    sender_cutoff: i64,
) -> (plan: (u32, Vec<HostWrite>))
    requires
        rows@.len() <= u32::MAX,
    ensures
        ({
            let dead = dead_tokens(rows@, token_cutoff, sender_cutoff);
            let live = live_tokens(rows@, token_cutoff, sender_cutoff);
            &&& plan.0 == dead.len()
            &&& views(plan.1@) == single_removes(STORE_TC_TOKEN@, dead).push(
                index_put(META_TC_TOKEN_JIDS@, live),
            )
            &&& reads_back(live)
        }),
{
    let mut out: Vec<HostWrite> = Vec::new();
    let mut remaining: Vec<String> = Vec::new();
    let mut deleted: u32 = 0;
    let mut i: usize = 0;
    assert(rows@.take(0) =~= Seq::empty());
    while i < rows.len()
        invariant
            i <= rows.len(),
            rows@.len() <= u32::MAX,
            deleted <= i,
            deleted == dead_tokens(rows@.take(i as int), token_cutoff, sender_cutoff).len(),
            views(out@) =~= single_removes(
                STORE_TC_TOKEN@,
                dead_tokens(rows@.take(i as int), token_cutoff, sender_cutoff),
            ),
            views(remaining@) =~= live_tokens(
                rows@.take(i as int),
                token_cutoff,
                sender_cutoff,
            ),
        decreases rows.len() - i,
    {
        proof {
            assert(rows@.take(i + 1).drop_last() =~= rows@.take(i as int));
        }
        match rows[i].times {
            Some(t) => {
                let jid = rows[i].jid.clone();
                if t.is_live(token_cutoff, sender_cutoff) {
                    let ghost a = remaining@;
                    remaining.push(jid);
                    assert(views(remaining@) =~= views(a).push(jid@));
                } else {
                    let ghost a = out@;
                    let w = HostWrite::Remove { store: STORE_TC_TOKEN, key: jid };
                    out.push(w);
                    assert(views(out@) =~= views(a).push(w@));
                    deleted += 1;
                }
            },
            None => {},
        }
        i += 1;
    }
    assert(rows@.take(i as int) =~= rows@);
    let ghost a = out@;
    let w = HostWrite::Put {
        store: STORE_META,
        key: META_TC_TOKEN_JIDS.to_owned(),
        value: write_texts(&remaining),
    };
    out.push(w);
    assert(views(out@) =~= views(a).push(w@));
    (deleted, out)
}

/// Plans deleting the sent messages that a listing host has found expired, all
/// at once; nothing where there is none.
pub fn delete_sent_messages(victims: Vec<String>) -> (w: Option<HostWrite>)
    ensures
        opt_view(w) == if victims@.len() == 0 {
            None::<HostWriteView>
        } else {
            Some(HostWriteView::RemoveMany { store: STORE_SENT_MESSAGE@, keys: views(victims@) })
        },
{
    if victims.len() == 0 {
        None
    } else {
        Some(HostWrite::RemoveMany { store: STORE_SENT_MESSAGE, keys: victims })
    }
}

/// What a sweep of the message secrets writes: the rows that are still expired
/// go, and an index is written where one is kept and it lost a key.
pub open spec fn sweep_writes(
    indexed: nat,
    victims: Seq<Seq<char>>,
    survivors: Seq<Seq<char>>,
    kept: bool,
) -> Seq<HostWriteView> {
    let rows = if victims.len() > 0 {
        seq![HostWriteView::RemoveMany { store: STORE_MSG_SECRET@, keys: victims }]
    } else {
        Seq::empty()
    };
    if kept && survivors.len() != indexed {
        rows.push(index_put(META_MSG_SECRET_KEYS@, survivors))
    } else {
        rows
    }
}

/// Plans the end of a sweep over the message secrets. `indexed` is the number
/// of keys it began with, `victims` those that were expired when they were
/// read a second time, `survivors` those that were live, and `revived` those
/// that were expired at first and live then: they stay, and stay indexed.
pub fn sweep_msg_secrets(
    indexed: usize,
    victims: Vec<String>,
    survivors: Vec<String>,
    revived: Vec<String>,
    caps: &HostCapabilities,
) -> (out: Vec<HostWrite>)
    ensures
        views(out@) == sweep_writes(
            indexed as nat,
            views(victims@),
            views(survivors@) + views(revived@),
            !caps.enumerate,
        ),
        !caps.enumerate && views(survivors@).len() + views(revived@).len() != indexed ==> reads_back(
            views(survivors@) + views(revived@),
        ),
{
    let ghost wanted = views(survivors@) + views(revived@);
    let mut left = survivors;
    let mut revived = revived;
    left.append(&mut revived);
    assert(views(left@) =~= wanted);
    assert(views(left@).len() == left@.len());
    assert(views(victims@).len() == victims@.len());
    let mut out: Vec<HostWrite> = Vec::new();
    if victims.len() > 0 {
        out = one(HostWrite::RemoveMany { store: STORE_MSG_SECRET, keys: victims });
    }
    let ghost rows = out@;
    if caps.needs_self_index() && left.len() != indexed {
        let w = HostWrite::Put {
            store: STORE_META,
            key: META_MSG_SECRET_KEYS.to_owned(),
            value: write_texts(&left),
        };
        out.push(w);
        assert(views(out@) =~= views(rows).push(w@));
    }
    assert(views(out@) =~= sweep_writes(
        indexed as nat,
        views(victims@),
        wanted,
        !caps.enumerate,
    ));
    out
}

/// Plans storing a sync key: its record under the hexadecimal form of its id,
/// then the id as that of the newest.
pub fn set_sync_key(key_id: &[u8], record: Vec<u8>) -> (out: Vec<HostWrite>)
    ensures
        views(out@) == seq![
            HostWriteView::Put { store: STORE_SYNC_KEY@, key: hex(key_id@), value: record@ },
            HostWriteView::Put {
                store: STORE_META@,
                key: META_LATEST_SYNC_KEY_ID@,
                value: key_id@,
            },
        ],
{
    let mut out = one(
        HostWrite::Put { store: STORE_SYNC_KEY, key: to_hex(key_id), value: record },
    );
    let ghost first = out@;
    let latest = HostWrite::Put {
        store: STORE_META,
        key: META_LATEST_SYNC_KEY_ID.to_owned(),
        value: slice_to_vec(key_id),
    };
    out.push(latest);
    assert(views(out@) =~= views(first).push(latest@));
    out
}

} // verus!
