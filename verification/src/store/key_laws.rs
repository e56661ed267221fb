//! How rows are named and stamped, and what becomes of an index entry.

use vstd::prelude::*;

use crate::store::changes::{listed, listed_ids, IndexChangeView};
use crate::store::device::{load_step, DeviceLoad, ACCOUNT_FIELD};
use crate::store::expiry::{
    be_word, fate_of, of_be_word, sent_row_of, stamp, stamp_bits, stamp_of, value_of, with_fate,
    ExpiryScanView, Fate, SCAN_CHUNK, TIMESTAMP_PREFIX_LEN,
};
use crate::store::host::{
    degraded, row, single_puts, single_removes, written, HostWriteView, Rows, DEVICE_ACCOUNT,
    DEVICE_RECORD, META_LATEST_SYNC_KEY_ID, META_LID_LIST, META_MAX_PREKEY_ID,
    META_MSG_SECRET_KEYS, META_SENDER_KEY_GROUPS, META_SENT_MESSAGE_KEYS, META_SIGNED_PREKEY_IDS,
    META_TC_TOKEN_JIDS, MUTATION_MAC_INDEX, STORE_BASE_KEY, STORE_DEVICE, STORE_DEVICE_LIST,
    STORE_IDENTITY, STORE_LID_MAPPING, STORE_META, STORE_MSG_SECRET, STORE_MUTATION_MAC,
    STORE_PREKEY, STORE_SENDER_KEY, STORE_SENDER_KEY_DEVICES, STORE_SENT_MESSAGE, STORE_SESSION,
    STORE_SIGNED_PREKEY, STORE_SYNC_KEY, STORE_SYNC_VERSION, STORE_TC_TOKEN,
};
use crate::store::index::{
    expired_count, first_place, gone_keys, swap_removed, with_item, with_items, with_items_holds,
    SentRow,
};
use crate::store::json::{comma_separated, ids_json, texts_json};
use crate::store::keys::{
    address_of_user, behind_prefix, joined_key, mutation_key, named_numbers, unprefixed,
};
use crate::store::laws::filter_holds;
use crate::store::plans::{
    clear_all_groups, clearing, dead_tokens, devices_left, index_keys, live_tokens, mapping_writes,
    mutation_keys, mutation_puts, prekey_ids, prekey_rows, put_sent, row_keys, secret_key,
    secret_row, secret_rows, sent_key, sweep_writes, MsgSecretEntryView, MutationMac, PlanView,
    TokenRow,
};
use crate::store::rows::{
    device_place, identity_complaint, max_with, numbered, stored_max, stored_text, with_status,
    with_statuses, TokenTimes,
};
use crate::text::{decimal, hex, u32_of_text, u32_text_inverse};

verus! {

/// Components joined are those in front, a colon, and those behind, wherever
/// they are parted.
pub proof fn components_join_with_a_colon(a: Seq<Seq<char>>, b: Seq<Seq<char>>, one: Seq<char>)
    requires
        a.len() > 0,
        b.len() > 0,
    ensures
        joined_key(a + b) == joined_key(a) + seq![':'] + joined_key(b),
        joined_key(seq![one]) == one,
    decreases b.len(),
{
    reveal_strlit(":");
    assert(":"@ =~= seq![':']);
    let all = a + b;
    let front = b.drop_last();
    assert(all.last() == b.last());
    assert(all.drop_last() =~= a + front);
    if front.len() == 0 {
        assert(a + front =~= a);
        assert(joined_key(b) == b[0]);
    } else {
        components_join_with_a_colon(a, front, one);
        assert(joined_key(all) =~= joined_key(a) + seq![':'] + joined_key(b));
    }
}

/// The key of a secret names the chat, then the sender, then the message; that
/// of a sent message the chat, then the message.
pub proof fn a_message_key_names_the_chat_first(
    chat: Seq<char>,
    sender: Seq<char>,
    msg_id: Seq<char>,
)
    ensures
        secret_key(chat, sender, msg_id) == chat + seq![':'] + sender + seq![':'] + msg_id,
        sent_key(chat, msg_id) == chat + seq![':'] + msg_id,
{
    reveal_strlit(":");
    assert(":"@ =~= seq![':']);
    let three = seq![chat, sender, msg_id];
    let two = seq![chat, sender];
    let sent = seq![chat, msg_id];
    assert(three.drop_last() =~= two);
    assert(two.drop_last() =~= seq![chat]);
    assert(sent.drop_last() =~= seq![chat]);
    assert(joined_key(seq![chat]) == chat);
    assert(joined_key(two) == chat + ":"@ + sender);
    assert(joined_key(three) == joined_key(two) + ":"@ + msg_id);
}

/// A stored secret lies under its own key, behind its stamp.
pub proof fn a_secret_lies_behind_its_stamp(e: MsgSecretEntryView, now: i64)
    ensures
        secret_row(e, now).0 == secret_key(e.chat, e.sender, e.msg_id),
        secret_row(e, now).1.skip(8) == e.secret,
        stamp_of(secret_row(e, now).1) == now,
{
    crate::store::expiry::stamp_reads_back(now, e.secret);
}

/// A mutation code's key names its collection, then its index in hexadecimal.
pub proof fn a_mutation_key_names_its_collection(name: Seq<char>, index_mac: Seq<u8>)
    ensures
        mutation_key(name, index_mac) == name + seq![':'] + hex(index_mac),
        unprefixed(mutation_key(name, index_mac), name + seq![':']) == Some(hex(index_mac)),
{
    reveal_strlit(":");
    assert(":"@ =~= seq![':']);
    what_follows_a_prefix_is_the_rest(name + seq![':'], hex(index_mac));
}

/// What stands behind a prefix is what was put behind it, and nothing without
/// the prefix has anything behind it.
pub proof fn what_follows_a_prefix_is_the_rest(prefix: Seq<char>, rest: Seq<char>)
    ensures
        unprefixed(prefix + rest, prefix) == Some(rest),
        forall|key: Seq<char>| #[trigger]
            unprefixed(key, prefix) == Some(rest) ==> key == prefix + rest,
{
    assert((prefix + rest).take(prefix.len() as int) =~= prefix);
    assert((prefix + rest).skip(prefix.len() as int) =~= rest);
    assert forall|key: Seq<char>| #[trigger] unprefixed(key, prefix) == Some(rest) implies key
        == prefix + rest by {
        assert(key =~= key.take(prefix.len() as int) + key.skip(prefix.len() as int));
    }
}

/// An address is the user's where the user is followed by an at sign or a
/// colon, and no other sign will do.
pub proof fn an_address_parts_the_user_by_a_sign(user: Seq<u8>, sign: u8, rest: Seq<u8>)
    ensures
        address_of_user(user + seq![sign] + rest, user) <==> (sign == 0x40 || sign == 0x3a),
        !address_of_user(user, user),
        rest.len() > 0 ==> !address_of_user(user, user + rest),
{
    let address = user + seq![sign] + rest;
    assert(address.take(user.len() as int) =~= user);
    assert(address[user.len() as int] == sign);
}

/// Stripping and reading numbers go key by key, in order, and leave out what is
/// none.
pub proof fn keys_are_read_one_by_one(
    a: Seq<Seq<char>>,
    b: Seq<Seq<char>>,
    prefix: Seq<char>,
    rest: Seq<char>,
    n: u32,
)
    ensures
        behind_prefix(a + b, prefix) == behind_prefix(a, prefix) + behind_prefix(b, prefix),
        named_numbers(a + b) == named_numbers(a) + named_numbers(b),
        behind_prefix(seq![prefix + rest], prefix) == seq![rest],
        named_numbers(seq![decimal(n as nat)]) == seq![n],
        unprefixed(rest, prefix) is None ==> behind_prefix(seq![rest], prefix).len() == 0,
        u32_of_text(rest) is None ==> named_numbers(seq![rest]).len() == 0,
    decreases b.len(),
{
    what_follows_a_prefix_is_the_rest(prefix, rest);
    u32_text_inverse(n);
    let key = seq![prefix + rest];
    let number = seq![decimal(n as nat)];
    let bare = seq![rest];
    assert(key.drop_last() =~= Seq::empty());
    assert(number.drop_last() =~= Seq::empty());
    assert(bare.drop_last() =~= Seq::empty());
    assert(behind_prefix(key.drop_last(), prefix) =~= Seq::empty());
    assert(named_numbers(number.drop_last()) =~= Seq::empty());
    assert(key.last() == prefix + rest);
    assert(number.last() == decimal(n as nat));
    assert(behind_prefix(key, prefix) =~= seq![rest]);
    assert(named_numbers(number) =~= seq![n]);
    if b.len() == 0 {
        assert(a + b =~= a);
        assert(behind_prefix(a, prefix) + behind_prefix(b, prefix) =~= behind_prefix(a, prefix));
        assert(named_numbers(a) + named_numbers(b) =~= named_numbers(a));
    } else {
        keys_are_read_one_by_one(a, b.drop_last(), prefix, rest, n);
        assert((a + b).drop_last() =~= a + b.drop_last());
        assert(behind_prefix(a + b, prefix) =~= behind_prefix(a, prefix) + behind_prefix(
            b,
            prefix,
        ));
        assert(named_numbers(a + b) =~= named_numbers(a) + named_numbers(b));
    }
}

/// A word lies with its highest byte first.
pub proof fn a_stamped_word_is_big_endian(v: u32)
    ensures
        be_word(v).len() == 4,
        v as int == 0x100_0000 * be_word(v)[0] as int + 0x1_0000 * be_word(v)[1] as int + 0x100
            * be_word(v)[2] as int + be_word(v)[3] as int,
        of_be_word(be_word(v)) == v,
{
}

/// A stamp is the time in eight bytes, its high word first.
pub proof fn a_stamp_is_big_endian(now: i64)
    ensures
        stamp(now).len() == 8,
        ({
            let high = of_be_word(stamp(now).take(4)) as int;
            let low = of_be_word(stamp(now).skip(4)) as int;
            0x1_0000_0000 * high + low == if now < 0 {
                now + 0x1_0000_0000_0000_0000
            } else {
                now as int
            }
        }),
        TIMESTAMP_PREFIX_LEN == 8,
{
    let bits = stamp_bits(now);
    let high = (bits / 0x1_0000_0000) as u32;
    let low = (bits % 0x1_0000_0000) as u32;
    a_stamped_word_is_big_endian(high);
    a_stamped_word_is_big_endian(low);
    assert(stamp(now).take(4) =~= be_word(high));
    assert(stamp(now).skip(4) =~= be_word(low));
}

/// A row without a value is gone; one too short for a stamp, or older than the
/// cutoff, is expired; a row at the cutoff lives.
pub proof fn a_row_lives_from_the_cutoff_on(data: Seq<u8>, cutoff: i64)
    ensures
        fate_of(None, cutoff) == Fate::Gone,
        data.len() < 8 ==> fate_of(Some(data), cutoff) == Fate::Expired,
        data.len() >= 8 && stamp_of(data) < cutoff ==> fate_of(Some(data), cutoff)
            == Fate::Expired,
        data.len() >= 8 && stamp_of(data) >= cutoff ==> fate_of(Some(data), cutoff) == Fate::Live,
        sent_row_of(None, cutoff) == SentRow::Gone,
        data.len() < 8 ==> sent_row_of(Some(data), cutoff) == SentRow::Corrupt,
        data.len() >= 8 ==> sent_row_of(Some(data), cutoff) == if stamp_of(data) < cutoff {
            SentRow::Expired
        } else {
            SentRow::Kept
        },
{
}

/// Of several values read for a key the last one counts, and a value read for
/// one key says nothing of another.
pub proof fn the_last_value_counts(
    found: Seq<(Seq<char>, Seq<u8>)>,
    key: Seq<char>,
    value: Seq<u8>,
    other: Seq<char>,
)
    ensures
        value_of(found.push((key, value)), key) == Some(value),
        other != key ==> value_of(found.push((key, value)), other) == value_of(found, other),
        value_of(Seq::empty(), key) is None,
{
    assert(found.push((key, value)).drop_last() =~= found);
}

/// Keys of one fate keep their order, and those of two lists are those of the
/// first and then those of the second.
pub proof fn keys_of_a_fate_keep_their_order(
    a: Seq<Seq<char>>,
    b: Seq<Seq<char>>,
    found: Seq<(Seq<char>, Seq<u8>)>,
    cutoff: i64,
    fate: Fate,
)
    ensures
        with_fate(a + b, found, cutoff, fate) == with_fate(a, found, cutoff, fate) + with_fate(
            b,
            found,
            cutoff,
            fate,
        ),
    decreases b.len(),
{
    if b.len() == 0 {
        assert(a + b =~= a);
        assert(with_fate(a, found, cutoff, fate) + with_fate(b, found, cutoff, fate) =~= with_fate(
            a,
            found,
            cutoff,
            fate,
        ));
    } else {
        keys_of_a_fate_keep_their_order(a, b.drop_last(), found, cutoff, fate);
        assert((a + b).drop_last() =~= a + b.drop_last());
        assert(with_fate(a + b, found, cutoff, fate) =~= with_fate(a, found, cutoff, fate)
            + with_fate(b, found, cutoff, fate));
    }
}

/// A scan looks at the next five hundred and twelve keys, or at those that are
/// left, and goes on behind them.
pub proof fn a_scan_goes_on_behind_its_chunk(
    scan: ExpiryScanView,
    found: Seq<(Seq<char>, Seq<u8>)>,
)
    requires
        scan.wf(),
    ensures
        SCAN_CHUNK == 512,
        scan.chunk().len() <= 512,
        scan.keys.len() - scan.at >= 512 ==> scan.chunk().len() == 512,
        scan.keys.len() - scan.at < 512 ==> scan.chunk().len() == scan.keys.len() - scan.at,
        scan.keys.take(scan.at) + scan.chunk() == scan.keys.take(scan.answered(found).at),
        scan.answered(found).at == scan.at + scan.chunk().len(),
        scan.answered(found).keys == scan.keys,
        scan.answered(found).cutoff == scan.cutoff,
        scan.answered(found).victims.take(scan.victims.len() as int) == scan.victims,
        scan.answered(found).survivors.take(scan.survivors.len() as int) == scan.survivors,
{
    assert(scan.keys.take(scan.at) + scan.chunk() =~= scan.keys.take(scan.answered(found).at));
    assert(scan.answered(found).victims.take(scan.victims.len() as int) =~= scan.victims);
    assert(scan.answered(found).survivors.take(scan.survivors.len() as int) =~= scan.survivors);
}

/// Adding keeps what is there in its place and puts what is new behind it, once.
pub proof fn adding_goes_behind<T>(list: Seq<T>, items: Seq<T>, item: T)
    ensures
        list.len() <= with_items(list, items).len() <= list.len() + items.len(),
        with_items(list, items).take(list.len() as int) == list,
        list.contains(item) ==> with_item(list, item) == list,
        !list.contains(item) ==> with_item(list, item) == list.push(item),
    decreases items.len(),
{
    if items.len() == 0 {
        assert(list.take(list.len() as int) =~= list);
    } else {
        let before = with_items(list, items.drop_last());
        adding_goes_behind(list, items.drop_last(), item);
        assert(with_items(list, items).take(list.len() as int) =~= before.take(list.len() as int));
    }
}

/// Taking out by swapping moves the last item to the place that came free, and
/// no other.
pub proof fn swapping_out_moves_the_last<T>(list: Seq<T>, i: int, j: int)
    requires
        0 <= i < list.len(),
        0 <= j < list.len() - 1,
    ensures
        swap_removed(list, i).len() == list.len() - 1,
        j != i ==> swap_removed(list, i)[j] == list[j],
        j == i ==> swap_removed(list, i)[j] == list.last(),
{
}

/// The first place of a key is one of its places, and none lies before it.
pub proof fn the_first_place_is_first(list: Seq<Seq<char>>, key: Seq<char>)
    ensures
        match first_place(list, key) {
            Some(i) => 0 <= i < list.len() && list[i] == key && forall|j: int|
                0 <= j < i ==> #[trigger] list[j] != key,
            None => forall|j: int| 0 <= j < list.len() ==> #[trigger] list[j] != key,
        },
    decreases list.len(),
{
    if list.len() > 0 {
        let front = list.drop_last();
        the_first_place_is_first(front, key);
        match first_place(front, key) {
            Some(i) => {
                assert(front[i] == list[i]);
                assert forall|j: int| 0 <= j < i implies #[trigger] list[j] != key by {
                    assert(front[j] == list[j]);
                }
            },
            None => {
                assert forall|j: int| 0 <= j < front.len() implies #[trigger] list[j] != key by {
                    assert(front[j] == list[j]);
                }
            },
        }
    }
}

/// What an index holds after a change: what was added and what was there, or
/// what was there without what was dropped.
pub proof fn an_index_holds_what_was_asked(
    change: IndexChangeView,
    list: Seq<Seq<char>>,
    ids: Seq<u32>,
    k: Seq<char>,
    n: u32,
)
    ensures
        change matches IndexChangeView::Add { keys, .. } ==> (change.changed(list).contains(k) <==>
        list.contains(k) || keys.contains(k)),
        change matches IndexChangeView::Drop { keys, .. } ==> (change.changed(list).contains(k)
            <==> list.contains(k) && !keys.contains(k)),
        change matches IndexChangeView::DropAlways { key, .. } ==> (change.changed(list).contains(
            k,
        ) <==> list.contains(k) && k != key),
        change matches IndexChangeView::ClearPrefix { prefix, .. } ==> (change.changed(
            list,
        ).contains(k) <==> list.contains(k) && unprefixed(k, prefix) is None),
        change matches IndexChangeView::SwapOut { key, .. } ==> (if list.contains(key) {
            change.changed(list).len() == list.len() - 1
        } else {
            change.changed(list) == list
        }),
        change matches IndexChangeView::AddId { id, .. } ==> (change.changed_ids(ids).contains(n)
            <==> ids.contains(n) || n == id),
        change matches IndexChangeView::DropId { id, .. } ==> (change.changed_ids(ids).contains(n)
            <==> ids.contains(n) && n != id),
{
    match change {
        IndexChangeView::Add { keys, .. } => {
            with_items_holds(list, keys, k);
        },
        IndexChangeView::Drop { keys, .. } => {
            filter_holds(list, |x: Seq<char>| !keys.contains(x), k);
        },
        IndexChangeView::DropAlways { key, .. } => {
            filter_holds(list, |x: Seq<char>| !seq![key].contains(x), k);
            assert(seq![key].contains(k) <==> k == key) by {
                assert(seq![key][0] == key);
            }
        },
        IndexChangeView::ClearPrefix { prefix, .. } => {
            filter_holds(list, |x: Seq<char>| unprefixed(x, prefix) is None, k);
        },
        IndexChangeView::SwapOut { key, .. } => {
            the_first_place_is_first(list, key);
            if list.contains(key) {
                let i = choose|i: int| 0 <= i < list.len() && list[i] == key;
                assert(list[i] == key);
            }
        },
        IndexChangeView::AddId { id, .. } => {
            if ids.contains(id) {
            } else {
                let after = ids.push(id);
                assert(after[ids.len() as int] == id);
                if ids.contains(n) {
                    let i = choose|i: int| 0 <= i < ids.len() && ids[i] == n;
                    assert(after[i] == n);
                }
            }
        },
        IndexChangeView::DropId { id, .. } => {
            filter_holds(ids, |x: u32| x != id, n);
        },
        _ => {},
    }
}

/// An index of keys is written where it changes, at its own row, as the list
/// that it became; what stays the same is not written, and what a cleared
/// prefix leaves empty is removed.
pub proof fn an_index_is_written_where_it_changes(
    change: IndexChangeView,
    stored: Option<Seq<u8>>,
    list: Seq<Seq<char>>,
)
    requires
        listed(stored) == Some(list),
        change is Add || change is Drop || change is DropAlways || change is SwapOut || change
            is ClearPrefix,
    ensures
        ({
            let left = change.changed(list);
            let put = HostWriteView::Put {
                store: "meta"@,
                key: change.meta(),
                value: texts_json(left),
            };
            &&& change is DropAlways ==> change.writes(stored) == Some(seq![put])
            &&& !(change is DropAlways) && left.len() == list.len() ==> change.writes(stored)
                == Some(Seq::<HostWriteView>::empty())
            &&& !(change is ClearPrefix) && left.len() != list.len() ==> change.writes(stored)
                == Some(seq![put])
            &&& change is ClearPrefix && left.len() != list.len() && left.len() > 0
                ==> change.writes(stored) == Some(seq![put])
            &&& change is ClearPrefix && left.len() != list.len() && left.len() == 0
                ==> change.writes(stored) == Some(
                seq![HostWriteView::Remove { store: "meta"@, key: change.meta() }],
            )
        }),
{
    assert(STORE_META == "meta");
}

/// An index of numbers is written where it changes, and always where a number
/// goes; the highest number on record is written as its digits.
pub proof fn an_index_of_numbers_is_written_where_it_changes(
    change: IndexChangeView,
    stored: Option<Seq<u8>>,
    list: Seq<u32>,
)
    requires
        listed_ids(stored) == Some(list),
    ensures
        ({
            let left = change.changed_ids(list);
            let put = HostWriteView::Put {
                store: "meta"@,
                key: change.meta(),
                value: ids_json(left),
            };
            &&& change is DropId ==> change.writes(stored) == Some(seq![put])
            &&& change is AddId && left.len() != list.len() ==> change.writes(stored) == Some(
                seq![put],
            )
            &&& change is AddId && left.len() == list.len() ==> change.writes(stored) == Some(
                Seq::<HostWriteView>::empty(),
            )
        }),
        change matches IndexChangeView::RaiseMax { ids } ==> change.writes(stored) == Some(
            seq![
                HostWriteView::Put {
                    store: "meta"@,
                    key: "max_prekey_id"@,
                    value: vstd::utf8::encode_utf8(
                        decimal(max_with(ids, stored_max(stored)) as nat),
                    ),
                },
            ],
        ),
{
    assert(STORE_META == "meta");
    assert(META_MAX_PREKEY_ID == "max_prekey_id");
}

/// A change reads and writes the row that it names.
pub proof fn a_change_names_its_row(change: IndexChangeView)
    ensures
        change matches IndexChangeView::Add { meta, .. } ==> change.meta() == meta,
        change matches IndexChangeView::Drop { meta, .. } ==> change.meta() == meta,
        change matches IndexChangeView::DropAlways { meta, .. } ==> change.meta() == meta,
        change matches IndexChangeView::SwapOut { meta, .. } ==> change.meta() == meta,
        change matches IndexChangeView::ClearPrefix { meta, .. } ==> change.meta() == meta,
        change matches IndexChangeView::AddId { meta, .. } ==> change.meta() == meta,
        change matches IndexChangeView::DropId { meta, .. } ==> change.meta() == meta,
        change is RaiseMax ==> change.meta() == "max_prekey_id"@,
{
    assert(META_MAX_PREKEY_ID == "max_prekey_id");
}

/// What holds no list yet holds an empty one.
pub proof fn an_unwritten_index_is_empty()
    ensures
        listed(None) == Some(Seq::<Seq<char>>::empty()),
        listed_ids(None) == Some(Seq::<u32>::empty()),
{
}

/// Batches go item by item: each secret, each key and each code at its own
/// place.
pub proof fn a_batch_goes_item_by_item(
    entries: Seq<MsgSecretEntryView>,
    now: i64,
    rows: Seq<(Seq<char>, Seq<u8>)>,
    records: Seq<(u32, Seq<u8>)>,
    name: Seq<char>,
    macs: Seq<MutationMac>,
    indexes: Seq<Vec<u8>>,
    i: int,
)
    ensures
        secret_rows(entries, now).len() == entries.len(),
        0 <= i < entries.len() ==> secret_rows(entries, now)[i] == secret_row(entries[i], now),
        row_keys(rows).len() == rows.len(),
        0 <= i < rows.len() ==> row_keys(rows)[i] == rows[i].0,
        prekey_ids(records).len() == records.len(),
        0 <= i < records.len() ==> prekey_ids(records)[i] == records[i].0,
        mutation_puts(name, macs).len() == macs.len(),
        0 <= i < macs.len() ==> mutation_puts(name, macs)[i] == (HostWriteView::Put {
            store: "mutation_mac"@,
            key: name + seq![':'] + hex(macs[i].index_mac@),
            value: macs[i].value_mac@,
        }),
        mutation_keys(name, macs).len() == macs.len(),
        0 <= i < macs.len() ==> mutation_keys(name, macs)[i] == mutation_key(
            name,
            macs[i].index_mac@,
        ),
        index_keys(name, indexes).len() == indexes.len(),
        0 <= i < indexes.len() ==> index_keys(name, indexes)[i] == mutation_key(name, indexes[i]@),
{
    assert(STORE_MUTATION_MAC == "mutation_mac");
    if 0 <= i < macs.len() {
        a_mutation_key_names_its_collection(name, macs[i].index_mac@);
    }
}

/// A sent message is stored under its chat and its number, behind its stamp.
pub proof fn a_sent_message_is_stamped(
    chat: Seq<char>,
    msg_id: Seq<char>,
    payload: Seq<u8>,
    now: i64,
)
    ensures
        put_sent(chat, msg_id, payload, now) matches HostWriteView::Put { store, key, value }
            && store == "sent_message"@ && key == chat + seq![':'] + msg_id && value.skip(8)
            == payload && stamp_of(value) == now,
{
    assert(STORE_SENT_MESSAGE == "sent_message");
    a_message_key_names_the_chat_first(chat, chat, msg_id);
    crate::store::expiry::stamp_reads_back(now, payload);
}

/// Clearing every group clears the whole namespace, and its index where one is
/// kept.
pub proof fn clearing_every_group_clears_its_index(by_prefix: bool, groups: Seq<Seq<char>>)
    ensures
        clear_all_groups(false, by_prefix, groups) == clearing(
            "sender_key_devices"@,
            Seq::empty(),
            by_prefix,
            groups,
        ),
        clear_all_groups(true, by_prefix, groups).drop_last() == clear_all_groups(
            false,
            by_prefix,
            groups,
        ),
        clear_all_groups(true, by_prefix, groups).last() == (HostWriteView::Remove {
            store: "meta"@,
            key: "sender_key_groups"@,
        }),
{
    assert(STORE_SENDER_KEY_DEVICES == "sender_key_devices");
    assert(STORE_META == "meta");
    assert(META_SENDER_KEY_GROUPS == "sender_key_groups");
    assert(clear_all_groups(true, by_prefix, groups).drop_last() =~= clear_all_groups(
        false,
        by_prefix,
        groups,
    ));
}

/// A plan writes first and changes its index after, where one is kept.
pub proof fn a_plan_writes_before_its_index(
    before: Seq<HostWriteView>,
    change: IndexChangeView,
    kept: bool,
)
    ensures
        PlanView::then_index(before, kept, change).before == before,
        PlanView::then_index(before, true, change).index == Some(change),
        PlanView::then_index(before, false, change).index is None,
        PlanView::then_index(before, kept, change).behind.len() == 0,
        PlanView::nothing().before.len() == 0 && PlanView::nothing().index is None
            && PlanView::nothing().behind.len() == 0,
{
}

/// A text that was stored is read back; what is no text reads as an empty one.
pub proof fn a_stored_text_reads_back(t: Seq<char>, bytes: Seq<u8>)
    ensures
        stored_text(vstd::utf8::encode_utf8(t)) == t,
        !vstd::utf8::valid_utf8(bytes) ==> stored_text(bytes).len() == 0,
{
    vstd::utf8::encode_utf8_valid_utf8(t);
    vstd::utf8::encode_utf8_decode_utf8(t);
}

/// Setting a status sets it in the first row of the device, or in a new one
/// behind the others, and no other row changes; several are set in order.
pub proof fn a_status_is_set_in_its_own_row(
    rows: Seq<(Seq<char>, bool)>,
    jid: Seq<char>,
    status: bool,
    entries: Seq<(Seq<char>, bool)>,
    j: int,
)
    ensures
        match device_place(rows, jid) {
            Some(i) => 0 <= i < rows.len() && rows[i].0 == jid && with_status(rows, jid, status)[i]
                == (jid, status) && with_status(rows, jid, status).len() == rows.len(),
            None => with_status(rows, jid, status) == rows.push((jid, status)),
        },
        0 <= j < rows.len() && rows[j].0 != jid ==> with_status(rows, jid, status)[j] == rows[j],
        with_statuses(rows, Seq::empty()) == rows,
        with_statuses(rows, entries.push((jid, status))) == with_status(
            with_statuses(rows, entries),
            jid,
            status,
        ),
    decreases rows.len(),
{
    assert(entries.push((jid, status)).drop_last() =~= entries);
    if rows.len() > 0 && rows[0].0 != jid {
        a_status_is_set_in_its_own_row(rows.skip(1), jid, status, entries, j - 1);
    }
}

/// Only what is over or unreadable is deleted, and only what is over counts.
pub proof fn only_what_is_over_counts(rows: Seq<SentRow>, r: SentRow)
    ensures
        r.is_deleted() <==> (r is Expired || r is Corrupt),
        expired_count(rows.push(r)) == expired_count(rows) + (if r is Expired {
            1int
        } else {
            0
        }),
        expired_count(Seq::empty()) == 0,
{
    assert(rows.push(r).drop_last() =~= rows);
}

/// The keys that go are those whose rows are not kept.
pub proof fn the_keys_that_go_are_not_kept(
    keys: Seq<Seq<char>>,
    rows: Seq<SentRow>,
    n: int,
    i: int,
)
    requires
        0 <= i < n,
        n <= keys.len(),
        n <= rows.len(),
    ensures
        rows[i] != SentRow::Kept ==> gone_keys(keys, rows, n).contains(keys[i]),
        forall|j: int|
            0 <= j < gone_keys(keys, rows, n).len() ==> exists|m: int|
                0 <= m < n && rows[m] != SentRow::Kept && #[trigger] keys[m] == #[trigger] gone_keys(
                    keys,
                    rows,
                    n,
                )[j],
    decreases n,
{
    let gone = gone_keys(keys, rows, n);
    let before = gone_keys(keys, rows, n - 1);
    if n > 1 {
        the_keys_that_go_are_not_kept(
            keys,
            rows,
            n - 1,
            if i < n - 1 {
                i
            } else {
                0
            },
        );
    }
    if rows[i] != SentRow::Kept {
        if i < n - 1 {
            let j = choose|j: int| 0 <= j < before.len() && before[j] == keys[i];
            assert(gone[j] == keys[i]);
        } else {
            assert(gone[gone.len() - 1] == keys[i]);
        }
    }
    assert forall|j: int| 0 <= j < gone.len() implies exists|m: int|
        0 <= m < n && rows[m] != SentRow::Kept && #[trigger] keys[m] == #[trigger] gone[j] by {
        if j < before.len() {
            assert(gone[j] == before[j]);
            let m = choose|m: int|
                0 <= m < n - 1 && rows[m] != SentRow::Kept && #[trigger] keys[m] == before[j];
            assert(keys[m] == gone[j]);
        } else {
            assert(keys[n - 1] == gone[j]);
        }
    }
}

/// Numbers lie in brackets with a comma between any two of them.
pub proof fn numbers_lie_between_commas(a: Seq<u32>, b: Seq<u32>, one: u32)
    requires
        a.len() > 0,
        b.len() > 0,
    ensures
        comma_separated(a + b) == comma_separated(a) + seq![','] + comma_separated(b),
        comma_separated(seq![one]) == decimal(one as nat),
        ids_json(a) == vstd::utf8::encode_utf8(seq!['['] + comma_separated(a) + seq![']']),
    decreases b.len(),
{
    let all = a + b;
    let front = b.drop_last();
    assert(all.last() == b.last());
    assert(all.drop_last() =~= a + front);
    if front.len() == 0 {
        assert(a + front =~= a);
        assert(comma_separated(b) == decimal(b[0] as nat));
    } else {
        numbers_lie_between_commas(a, front, one);
        assert(comma_separated(all) =~= comma_separated(a) + seq![','] + comma_separated(b));
    }
}

/// A record answers by itself where it has the account's key; without that the
/// sidecar is needed, and no record is no device.
pub proof fn a_record_with_an_account_answers(keys: Set<Seq<char>>)
    ensures
        load_step(None) == DeviceLoad::Absent,
        load_step(Some(None)) == DeviceLoad::Malformed,
        load_step(Some(Some(None))) == DeviceLoad::NeedsSidecar,
        keys.contains("account"@) ==> load_step(Some(Some(Some(keys)))) == DeviceLoad::Current,
        !keys.contains("account"@) ==> load_step(Some(Some(Some(keys))))
            == DeviceLoad::NeedsSidecar,
{
    assert(ACCOUNT_FIELD == "account");
}

/// What is put is read back, what is removed is not, and no other row changes.
pub proof fn a_write_touches_its_own_row(
    rows: Rows,
    store: Seq<char>,
    key: Seq<char>,
    value: Seq<u8>,
    other: (Seq<char>, Seq<char>),
)
    requires
        other != (store, key),
    ensures
        row(written(rows, HostWriteView::Put { store, key, value }), store, key) == Some(value),
        row(written(rows, HostWriteView::Remove { store, key }), store, key) is None,
        row(written(rows, HostWriteView::Put { store, key, value }), other.0, other.1) == row(
            rows,
            other.0,
            other.1,
        ),
        row(written(rows, HostWriteView::Remove { store, key }), other.0, other.1) == row(
            rows,
            other.0,
            other.1,
        ),
{
}

/// What is cleared by prefix is what starts with it in that namespace.
pub proof fn a_cleared_prefix_takes_what_starts_alike(
    rows: Rows,
    store: Seq<char>,
    prefix: Seq<char>,
    at: (Seq<char>, Seq<char>),
)
    ensures
        row(written(rows, HostWriteView::RemovePrefix { store, prefix }), at.0, at.1) == if at.0
            == store && unprefixed(at.1, prefix) is Some {
            None::<Seq<u8>>
        } else {
            row(rows, at.0, at.1)
        },
{
}

/// A batch that the host has a method for stays one; else each of its rows is
/// written alone, in order.
pub proof fn a_batch_is_taken_apart_only_where_it_must(
    store: Seq<char>,
    entries: Seq<(Seq<char>, Seq<u8>)>,
    keys: Seq<Seq<char>>,
    other: bool,
    i: int,
)
    ensures
        degraded(HostWriteView::PutMany { store, entries }, true, other) == seq![
            HostWriteView::PutMany { store, entries },
        ],
        degraded(HostWriteView::RemoveMany { store, keys }, other, true) == seq![
            HostWriteView::RemoveMany { store, keys },
        ],
        degraded(HostWriteView::PutMany { store, entries }, false, other) == single_puts(
            store,
            entries,
        ),
        degraded(HostWriteView::RemoveMany { store, keys }, other, false) == single_removes(
            store,
            keys,
        ),
        0 <= i < entries.len() ==> single_puts(store, entries)[i] == (HostWriteView::Put {
            store,
            key: entries[i].0,
            value: entries[i].1,
        }),
        0 <= i < keys.len() ==> single_removes(store, keys)[i] == (HostWriteView::Remove {
            store,
            key: keys[i],
        }),
        single_puts(store, entries).len() == entries.len(),
        single_removes(store, keys).len() == keys.len(),
{
}

/// A one-time key lies under its own number.
pub proof fn a_prekey_lies_under_its_number(records: Seq<(u32, Seq<u8>)>, i: int)
    requires
        0 <= i < records.len(),
    ensures
        prekey_rows(records).len() == records.len(),
        u32_of_text(prekey_rows(records)[i].0) == Some(records[i].0),
        prekey_rows(records)[i].1 == records[i].1,
{
    u32_text_inverse(records[i].0);
}

/// Rows read back by number are as many as there are, each with its number and
/// its record; a key that is no number fails them all, by name.
pub proof fn numbered_rows_keep_their_records(rows: Seq<(Seq<char>, Seq<u8>)>)
    ensures
        match numbered(rows) {
            Ok(out) => out.len() == rows.len() && forall|i: int|
                0 <= i < rows.len() ==> u32_of_text(rows[i].0) == Some((#[trigger] out[i]).0)
                    && out[i].1 == rows[i].1,
            Err(key) => u32_of_text(key) is None && exists|i: int|
                0 <= i < rows.len() && (#[trigger] rows[i]).0 == key,
        },
    decreases rows.len(),
{
    if rows.len() > 0 {
        let front = rows.drop_last();
        numbered_rows_keep_their_records(front);
        match numbered(front) {
            Ok(done) => {
                match numbered(rows) {
                    Ok(out) => {
                        assert forall|i: int| 0 <= i < rows.len() implies u32_of_text(rows[i].0)
                            == Some((#[trigger] out[i]).0) && out[i].1 == rows[i].1 by {
                            if i < front.len() {
                                assert(done[i] == out[i]);
                                assert(front[i] == rows[i]);
                            }
                        }
                    },
                    Err(key) => {
                        assert(rows[rows.len() - 1].0 == key);
                    },
                }
            },
            Err(key) => {
                let i = choose|i: int| 0 <= i < front.len() && (#[trigger] front[i]).0 == key;
                assert(rows[i].0 == key);
            },
        }
    }
}

/// A number on record is the number that its text names; anything else is
/// none.
pub proof fn a_number_on_record_is_its_text(n: u32)
    ensures
        stored_max(None) == 0,
        stored_max(Some(vstd::utf8::encode_utf8(decimal(n as nat)))) == n,
{
    u32_text_inverse(n);
    vstd::utf8::encode_utf8_valid_utf8(decimal(n as nat));
    vstd::utf8::encode_utf8_decode_utf8(decimal(n as nat));
}

/// A token lives as long as either of its times is not before its own cutoff.
pub proof fn a_token_lives_by_either_time(t: TokenTimes, token_cutoff: i64, sender_cutoff: i64)
    ensures
        t.has_token && t.token_timestamp >= token_cutoff ==> t.live(token_cutoff, sender_cutoff),
        (t.sender_timestamp matches Some(at) && at >= sender_cutoff) ==> t.live(
            token_cutoff,
            sender_cutoff,
        ),
        t.live(token_cutoff, sender_cutoff) ==> (t.has_token && t.token_timestamp >= token_cutoff)
            || (t.sender_timestamp is Some && t.sender_timestamp->0 >= sender_cutoff),
{
}

/// A token that is there is dead or live, never both, and one that is not is
/// neither.
pub proof fn a_token_is_dead_or_live(
    rows: Seq<TokenRow>,
    one: TokenRow,
    token_cutoff: i64,
    sender_cutoff: i64,
)
    ensures
        ({
            let lives = one.times is Some && one.times->0.live(token_cutoff, sender_cutoff);
            let dies = one.times is Some && !one.times->0.live(token_cutoff, sender_cutoff);
            let more = rows.push(one);
            &&& live_tokens(more, token_cutoff, sender_cutoff) == live_tokens(
                rows,
                token_cutoff,
                sender_cutoff,
            ) + (if lives {
                seq![one.jid@]
            } else {
                Seq::empty()
            })
            &&& dead_tokens(more, token_cutoff, sender_cutoff) == dead_tokens(
                rows,
                token_cutoff,
                sender_cutoff,
            ) + (if dies {
                seq![one.jid@]
            } else {
                Seq::empty()
            })
        }),
{
    let more = rows.push(one);
    assert(more.drop_last() =~= rows);
    assert(more.last() == one);
    let live = live_tokens(rows, token_cutoff, sender_cutoff);
    let dead = dead_tokens(rows, token_cutoff, sender_cutoff);
    assert(live + Seq::empty() =~= live);
    assert(dead + Seq::empty() =~= dead);
    assert(live + seq![one.jid@] =~= live.push(one.jid@));
    assert(dead + seq![one.jid@] =~= dead.push(one.jid@));
}

/// The devices that are left are those that were not named, in their state.
pub proof fn the_devices_left_were_not_named(
    devices: Seq<(Seq<char>, bool)>,
    targets: Seq<Seq<char>>,
    d: (Seq<char>, bool),
)
    ensures
        devices_left(devices, targets).contains(d) <==> devices.contains(d) && !targets.contains(
            d.0,
        ),
{
    filter_holds(devices, |r: (Seq<char>, bool)| !targets.contains(r.0), d);
}

/// A mapping is written forward under the identifier and back under the number,
/// and a number that it replaces is forgotten first.
pub proof fn a_mapping_is_written_both_ways(
    old_phone: Option<Seq<char>>,
    lid: Seq<char>,
    phone: Seq<char>,
    record: Seq<u8>,
)
    ensures
        ({
            let writes = mapping_writes(old_phone, lid, phone, record);
            let n = writes.len() as int;
            &&& writes[n - 1] == (HostWriteView::Put {
                store: "lid_mapping"@,
                key: "pn:"@ + phone,
                value: vstd::utf8::encode_utf8(lid),
            })
            &&& writes[n - 2] == (HostWriteView::Put {
                store: "lid_mapping"@,
                key: "lid:"@ + lid,
                value: record,
            })
            &&& old_phone is None || old_phone == Some(phone) ==> n == 2
            &&& old_phone is Some && old_phone != Some(phone) ==> n == 3 && writes[0] == (
            HostWriteView::Remove { store: "lid_mapping"@, key: "pn:"@ + old_phone->0 })
        }),
{
    assert(STORE_LID_MAPPING == "lid_mapping");
}

/// Clearing goes by prefix where the host can; else it names the keys that
/// start alike, and writes nothing where there are none.
pub proof fn clearing_names_what_starts_alike(
    store: Seq<char>,
    prefix: Seq<char>,
    keys: Seq<Seq<char>>,
    k: Seq<char>,
)
    ensures
        clearing(store, prefix, true, keys) == seq![HostWriteView::RemovePrefix { store, prefix }],
        clearing(store, prefix, false, keys).len() <= 1,
        keys.contains(k) && unprefixed(k, prefix) is Some ==> clearing(
            store,
            prefix,
            false,
            keys,
        ).len() == 1,
        clearing(store, prefix, false, keys).len() == 1 ==> (clearing(store, prefix, false, keys)[0]
            matches HostWriteView::RemoveMany { store: at, keys: gone } && at == store && (
        gone.contains(k) <==> keys.contains(k) && unprefixed(k, prefix) is Some)),
{
    let starts = |x: Seq<char>| unprefixed(x, prefix) is Some;
    filter_holds(keys, starts, k);
}

/// A sweep deletes the secrets that are over, and writes the index where one is
/// kept and it lost a key.
pub proof fn a_sweep_deletes_what_is_over(
    indexed: nat,
    victims: Seq<Seq<char>>,
    survivors: Seq<Seq<char>>,
)
    ensures
        victims.len() > 0 ==> sweep_writes(indexed, victims, survivors, false) == seq![
            HostWriteView::RemoveMany { store: "msg_secret"@, keys: victims },
        ],
        victims.len() == 0 ==> sweep_writes(indexed, victims, survivors, false).len() == 0,
        survivors.len() == indexed ==> sweep_writes(indexed, victims, survivors, true)
            == sweep_writes(indexed, victims, survivors, false),
        survivors.len() != indexed ==> sweep_writes(indexed, victims, survivors, true).last()
            == crate::store::changes::index_put("msg_secret_keys"@, survivors),
{
    assert(STORE_MSG_SECRET == "msg_secret");
    assert(META_MSG_SECRET_KEYS == "msg_secret_keys");
}

/// A key of the wrong length is complained of with whose it is and its length.
pub proof fn an_identity_is_complained_of_by_length(address: Seq<char>, len: nat)
    ensures
        identity_complaint(address, len) == "identity key for "@ + address
            + " has invalid length "@ + decimal(len),
{
}

/// Every namespace and every row of the meta namespace has the name under which
/// hosts keep it.
pub proof fn namespaces_have_their_names()
    ensures
        STORE_IDENTITY == "identity" && STORE_SESSION == "session" && STORE_PREKEY == "prekey",
        STORE_SIGNED_PREKEY == "signed_prekey" && STORE_SENDER_KEY == "sender_key",
        STORE_SYNC_KEY == "sync_key" && STORE_SYNC_VERSION == "sync_version",
        STORE_MUTATION_MAC == "mutation_mac" && STORE_DEVICE == "device",
        STORE_SENDER_KEY_DEVICES == "sender_key_devices" && STORE_LID_MAPPING == "lid_mapping",
        STORE_BASE_KEY == "base_key" && STORE_DEVICE_LIST == "device_list",
        STORE_TC_TOKEN == "tc_token" && STORE_SENT_MESSAGE == "sent_message",
        STORE_MSG_SECRET == "msg_secret" && STORE_META == "meta",
        META_SENT_MESSAGE_KEYS == "sent_message_keys" && META_MAX_PREKEY_ID == "max_prekey_id",
        META_SIGNED_PREKEY_IDS == "signed_prekey_ids",
        META_LATEST_SYNC_KEY_ID == "latest_sync_key_id",
        META_SENDER_KEY_GROUPS == "sender_key_groups" && META_LID_LIST == "lid_list",
        META_TC_TOKEN_JIDS == "tc_token_jids" && META_MSG_SECRET_KEYS == "msg_secret_keys",
        MUTATION_MAC_INDEX == "mutation_mac_keys",
        DEVICE_RECORD == "device" && DEVICE_ACCOUNT == "account",
{
}

} // verus!
