//! The host's store: what is written to it, and what a write does.
//!
//! The host keeps rows of bytes under a namespace and a key. Reading and
//! writing them is asynchronous and happens outside. Here a write is a value,
//! an operation decides on a list of writes, and what such a list does to the
//! rows is a function.

use vstd::prelude::*;
use vstd::slice::slice_to_vec;

use crate::messages::fields::views;
use crate::store::expiry::{found_view, value_of};
use crate::store::keys::unprefixed;

verus! {

/// Identity keys, by address.
pub const STORE_IDENTITY: &'static str = "identity";

/// Sessions, by address.
pub const STORE_SESSION: &'static str = "session";

/// One-time keys, by number.
pub const STORE_PREKEY: &'static str = "prekey";

/// Signed keys, by number.
pub const STORE_SIGNED_PREKEY: &'static str = "signed_prekey";

/// Sender keys, by address.
pub const STORE_SENDER_KEY: &'static str = "sender_key";

/// Sync keys, by the hexadecimal form of their id.
pub const STORE_SYNC_KEY: &'static str = "sync_key";

/// Sync versions, by collection.
pub const STORE_SYNC_VERSION: &'static str = "sync_version";

/// Mutation codes, by collection and index.
pub const STORE_MUTATION_MAC: &'static str = "mutation_mac";

/// The device.
pub const STORE_DEVICE: &'static str = "device";

/// The devices of a group that hold the sender key, by group.
pub const STORE_SENDER_KEY_DEVICES: &'static str = "sender_key_devices";

/// Mappings between the two kinds of identifiers.
pub const STORE_LID_MAPPING: &'static str = "lid_mapping";

/// Base keys, by address and message.
pub const STORE_BASE_KEY: &'static str = "base_key";

/// Device lists, by user.
pub const STORE_DEVICE_LIST: &'static str = "device_list";

/// Contact tokens, by address.
pub const STORE_TC_TOKEN: &'static str = "tc_token";

/// Sent messages, by chat and message.
pub const STORE_SENT_MESSAGE: &'static str = "sent_message";

/// Message secrets, by chat, sender and message.
pub const STORE_MSG_SECRET: &'static str = "msg_secret";

/// Indexes and counters.
pub const STORE_META: &'static str = "meta";

/// The index of sent messages.
pub const META_SENT_MESSAGE_KEYS: &'static str = "sent_message_keys";

/// The highest number of a one-time key.
pub const META_MAX_PREKEY_ID: &'static str = "max_prekey_id";

/// The index of signed keys.
pub const META_SIGNED_PREKEY_IDS: &'static str = "signed_prekey_ids";

/// The id of the newest sync key.
pub const META_LATEST_SYNC_KEY_ID: &'static str = "latest_sync_key_id";

/// The index of groups with sender-key devices.
pub const META_SENDER_KEY_GROUPS: &'static str = "sender_key_groups";

/// The index of mappings.
pub const META_LID_LIST: &'static str = "lid_list";

/// The index of contact tokens.
pub const META_TC_TOKEN_JIDS: &'static str = "tc_token_jids";

/// The index of message secrets.
pub const META_MSG_SECRET_KEYS: &'static str = "msg_secret_keys";

/// The index of mutation codes.
pub const MUTATION_MAC_INDEX: &'static str = "mutation_mac_keys";

/// The device's record.
pub const DEVICE_RECORD: &'static str = "device";

/// The account beside the device's record.
pub const DEVICE_ACCOUNT: &'static str = "account";

/// One write.
#[derive(Debug, Clone, PartialEq, Eq)]
pub enum HostWrite {
    /// A row is set.
    Put {
        /// The namespace.
        store: &'static str,
        /// The key.
        key: String,
        /// The bytes.
        value: Vec<u8>,
    },
    /// A row is deleted.
    Remove {
        /// The namespace.
        store: &'static str,
        /// The key.
        key: String,
    },
    /// Rows are set, in order.
    PutMany {
        /// The namespace.
        store: &'static str,
        /// The keys and their bytes.
        entries: Vec<(String, Vec<u8>)>,
    },
    /// Rows are deleted.
    RemoveMany {
        /// The namespace.
        store: &'static str,
        /// The keys.
        keys: Vec<String>,
    },
    /// Every row whose key starts alike is deleted.
    RemovePrefix {
        /// The namespace.
        store: &'static str,
        /// How the keys start.
        prefix: String,
    },
}

/// The values that a [`HostWrite`] carries.
#[verifier::ext_equal]
pub enum HostWriteView {
    Put { store: Seq<char>, key: Seq<char>, value: Seq<u8> },
    Remove { store: Seq<char>, key: Seq<char> },
    PutMany { store: Seq<char>, entries: Seq<(Seq<char>, Seq<u8>)> },
    RemoveMany { store: Seq<char>, keys: Seq<Seq<char>> },
    RemovePrefix { store: Seq<char>, prefix: Seq<char> },
}

impl View for HostWrite {
    type V = HostWriteView;

    open spec fn view(&self) -> HostWriteView {
        match *self {
            HostWrite::Put { store, key, value } => HostWriteView::Put {
                store: store@,
                key: key@,
                value: value@,
            },
            HostWrite::Remove { store, key } => HostWriteView::Remove { store: store@, key: key@ },
            HostWrite::PutMany { store, entries } => HostWriteView::PutMany {
                store: store@,
                entries: found_view(entries@),
            },
            HostWrite::RemoveMany { store, keys } => HostWriteView::RemoveMany {
                store: store@,
                keys: views(keys@),
            },
            HostWrite::RemovePrefix { store, prefix } => HostWriteView::RemovePrefix {
                store: store@,
                prefix: prefix@,
            },
        }
    }
}

/// What a host keeps: bytes, by namespace and key.
pub type Rows = Map<(Seq<char>, Seq<char>), Seq<u8>>;

/// A row, if it is there.
pub open spec fn row(rows: Rows, store: Seq<char>, key: Seq<char>) -> Option<Seq<u8>> {
    if rows.dom().contains((store, key)) {
        Some(rows[(store, key)])
    } else {
        None
    }
}

/// Rows with some set, in order.
pub open spec fn with_rows(rows: Rows, store: Seq<char>, entries: Seq<(Seq<char>, Seq<u8>)>) -> Rows
    decreases entries.len(),
{
    if entries.len() == 0 {
        rows
    } else {
        with_rows(rows, store, entries.drop_last()).insert(
            (store, entries.last().0),
            entries.last().1,
        )
    }
}

/// Rows with some deleted.
pub open spec fn without_rows(rows: Rows, store: Seq<char>, keys: Seq<Seq<char>>) -> Rows
    decreases keys.len(),
{
    if keys.len() == 0 {
        rows
    } else {
        without_rows(rows, store, keys.drop_last()).remove((store, keys.last()))
    }
}

/// Rows without those whose key starts alike.
pub open spec fn without_prefix(rows: Rows, store: Seq<char>, prefix: Seq<char>) -> Rows {
    rows.restrict(
        Set::new(
            |at: (Seq<char>, Seq<char>)| at.0 != store || unprefixed(at.1, prefix) is None,
        ),
    )
}

/// What a write does to the rows.
pub open spec fn written(rows: Rows, w: HostWriteView) -> Rows {
    match w {
        HostWriteView::Put { store, key, value } => rows.insert((store, key), value),
        HostWriteView::Remove { store, key } => rows.remove((store, key)),
        HostWriteView::PutMany { store, entries } => with_rows(rows, store, entries),
        HostWriteView::RemoveMany { store, keys } => without_rows(rows, store, keys),
        HostWriteView::RemovePrefix { store, prefix } => without_prefix(rows, store, prefix),
    }
}

/// What writes do to the rows, one after the other.
pub open spec fn after(rows: Rows, writes: Seq<HostWriteView>) -> Rows
    decreases writes.len(),
{
    if writes.len() == 0 {
        rows
    } else {
        written(after(rows, writes.drop_last()), writes.last())
    }
}

/// A row after some were set: the last value given for it, else what it was.
pub proof fn with_rows_at(
    rows: Rows,
    store: Seq<char>,
    entries: Seq<(Seq<char>, Seq<u8>)>,
    s: Seq<char>,
    k: Seq<char>,
)
    ensures
        row(with_rows(rows, store, entries), s, k) == if s == store && value_of(entries, k) is Some {
            value_of(entries, k)
        } else {
            row(rows, s, k)
        },
    decreases entries.len(),
{
    if entries.len() > 0 {
        with_rows_at(rows, store, entries.drop_last(), s, k);
    }
}

/// A row after some were deleted: gone if it is one of them, else what it was.
pub proof fn without_rows_at(
    rows: Rows,
    store: Seq<char>,
    keys: Seq<Seq<char>>,
    s: Seq<char>,
    k: Seq<char>,
)
    ensures
        row(without_rows(rows, store, keys), s, k) == if s == store && keys.contains(k) {
            None
        } else {
            row(rows, s, k)
        },
    decreases keys.len(),
{
    if keys.len() > 0 {
        let before = keys.drop_last();
        without_rows_at(rows, store, before, s, k);
        assert(keys.contains(k) <==> before.contains(k) || keys.last() == k) by {
            if keys.contains(k) {
                let i = choose|i: int| 0 <= i < keys.len() && keys[i] == k;
                if i < before.len() {
                    assert(before[i] == k);
                }
            }
            if before.contains(k) {
                let i = choose|i: int| 0 <= i < before.len() && before[i] == k;
                assert(keys[i] == k);
            }
            if keys.last() == k {
                assert(keys[keys.len() - 1] == k);
            }
        }
    }
}

/// The writes that set rows one by one.
pub open spec fn single_puts(store: Seq<char>, entries: Seq<(Seq<char>, Seq<u8>)>) -> Seq<
    HostWriteView,
> {
    Seq::new(
        entries.len(),
        |i: int| HostWriteView::Put { store, key: entries[i].0, value: entries[i].1 },
    )
}

/// The writes that delete rows one by one.
pub open spec fn single_removes(store: Seq<char>, keys: Seq<Seq<char>>) -> Seq<HostWriteView> {
    Seq::new(keys.len(), |i: int| HostWriteView::Remove { store, key: keys[i] })
}

/// The writes that a host without batches is given: one for each row.
pub open spec fn degraded(w: HostWriteView, has_set_many: bool, has_delete_many: bool) -> Seq<
    HostWriteView,
> {
    match w {
        HostWriteView::PutMany { store, entries } if !has_set_many => single_puts(store, entries),
        HostWriteView::RemoveMany { store, keys } if !has_delete_many => single_removes(
            store,
            keys,
        ),
        _ => seq![w],
    }
}

/// Degrades a write to what the host can do: a batch that it has no method for
/// becomes one write for each row, in the same order.
pub fn degrade(w: HostWrite, has_set_many: bool, has_delete_many: bool) -> (out: Vec<HostWrite>)
    ensures
        views(out@) == degraded(w@, has_set_many, has_delete_many),
{
    let ghost wanted = degraded(w@, has_set_many, has_delete_many);
    let mut out: Vec<HostWrite> = Vec::new();
    match w {
        HostWrite::PutMany { store, entries } => {
            if !has_set_many {
                let mut i: usize = 0;
                while i < entries.len()
                    invariant
                        i <= entries.len(),
                        views(out@) =~= single_puts(store@, found_view(entries@)).take(i as int),
                    decreases entries.len() - i,
                {
                    let ghost before = out@;
                    let one = HostWrite::Put {
                        store,
                        key: entries[i].0.clone(),
                        value: slice_to_vec(entries[i].1.as_slice()),
                    };
                    out.push(one);
                    assert(views(out@) =~= views(before).push(one@));
                    i += 1;
                }
                assert(views(out@) =~= wanted);
                return out;
            }
            out.push(HostWrite::PutMany { store, entries });
        },
        HostWrite::RemoveMany { store, keys } => {
            if !has_delete_many {
                let mut i: usize = 0;
                while i < keys.len()
                    invariant
                        i <= keys.len(),
                        views(out@) =~= single_removes(store@, views(keys@)).take(i as int),
                    decreases keys.len() - i,
                {
                    let ghost before = out@;
                    let one = HostWrite::Remove { store, key: keys[i].clone() };
                    out.push(one);
                    assert(views(out@) =~= views(before).push(one@));
                    i += 1;
                }
                assert(views(out@) =~= wanted);
                return out;
            }
            out.push(HostWrite::RemoveMany { store, keys });
        },
        w => {
            out.push(w);
        },
    }
    assert(views(out@) =~= wanted);
    out
}

/// A host without batches ends up with the same rows as one with them.
pub proof fn degrading_changes_nothing(
    rows: Rows,
    w: HostWriteView,
    has_set_many: bool,
    has_delete_many: bool,
)
    ensures
        after(rows, degraded(w, has_set_many, has_delete_many)) == written(rows, w),
{
    match w {
        HostWriteView::PutMany { store, entries } if !has_set_many => {
            single_puts_are_the_batch(rows, store, entries);
        },
        HostWriteView::RemoveMany { store, keys } if !has_delete_many => {
            single_removes_are_the_batch(rows, store, keys);
        },
        _ => {
            assert(seq![w].drop_last() =~= Seq::empty());
            assert(after(rows, Seq::empty()) == rows);
        },
    }
}

proof fn single_puts_are_the_batch(
    rows: Rows,
    store: Seq<char>,
    entries: Seq<(Seq<char>, Seq<u8>)>,
)
    ensures
        after(rows, single_puts(store, entries)) == with_rows(rows, store, entries),
    decreases entries.len(),
{
    if entries.len() > 0 {
        assert(single_puts(store, entries).drop_last() =~= single_puts(store, entries.drop_last()));
        single_puts_are_the_batch(rows, store, entries.drop_last());
    }
}

proof fn single_removes_are_the_batch(rows: Rows, store: Seq<char>, keys: Seq<Seq<char>>)
    ensures
        after(rows, single_removes(store, keys)) == without_rows(rows, store, keys),
    decreases keys.len(),
{
    if keys.len() > 0 {
        assert(single_removes(store, keys).drop_last() =~= single_removes(
            store,
            keys.drop_last(),
        ));
        single_removes_are_the_batch(rows, store, keys.drop_last());
    }
}

} // verus!
