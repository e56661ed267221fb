//! What the store's operations keep, over any rows the host may hold.

use vstd::prelude::*;
use vstd::utf8::{decode_utf8, encode_utf8, encode_utf8_decode_utf8, encode_utf8_valid_utf8};

use crate::store::changes::{index_put, listed, reads_back, IndexChangeView};
use crate::store::expiry::{
    fate_of, fates_exclude_each_other, stamp, stamp_reads_back, value_of, with_fate,
    ExpiryScanView, Fate, TIMESTAMP_PREFIX_LEN,
};
use crate::store::host::{
    after, row, single_puts, with_rows, with_rows_at, without_rows_at,
    written, HostWriteView, Rows, META_MAX_PREKEY_ID, META_MSG_SECRET_KEYS, STORE_LID_MAPPING,
    STORE_META, STORE_MSG_SECRET, STORE_MUTATION_MAC, STORE_PREKEY, STORE_SENT_MESSAGE,
};
use crate::store::index::{with_items, with_items_holds};
use crate::store::keys::unprefixed;
use crate::store::plans::{
    clearing, mapping_writes, prekey_ids, prekey_rows, put_secret_plan, put_secrets_plan, put_sent,
    row_keys, secret_row, secret_rows, sent_key, sweep_writes, MsgSecretEntryView, PlanView,
};
use crate::store::rows::{max_prekey_id_covers, max_with, stored_max};
use crate::text::{decimal, u32_text_inverse};

verus! {

/// The rows once a plan was carried out; none can be named where the index
/// that it changes is no list.
pub open spec fn carried_out(rows: Rows, plan: PlanView) -> Option<Rows> {
    let first = after(rows, plan.before);
    match plan.index {
        None => Some(after(first, plan.behind)),
        Some(change) => match change.writes(row(first, STORE_META@, change.meta())) {
            None => None,
            Some(writes) => Some(after(after(first, writes), plan.behind)),
        },
    }
}

/// Whether every row of a namespace is in its index.
pub open spec fn covered(rows: Rows, store: Seq<char>, meta: Seq<char>) -> bool {
    match listed(row(rows, STORE_META@, meta)) {
        None => false,
        Some(list) => forall|k: Seq<char>| #[trigger]
            row(rows, store, k) is Some ==> list.contains(k),
    }
}

pub(crate) proof fn one_write(rows: Rows, w: HostWriteView)
    ensures
        after(rows, seq![w]) == written(rows, w),
{
    assert(seq![w].drop_last() =~= Seq::<HostWriteView>::empty());
    assert(after(rows, Seq::empty()) == rows);
}

pub(crate) proof fn no_write(rows: Rows)
    ensures
        after(rows, Seq::<HostWriteView>::empty()) == rows,
{
}

proof fn namespaces_differ()
    ensures
        STORE_META@ != STORE_MSG_SECRET@,
        STORE_META@ != STORE_PREKEY@,
        STORE_META@ != STORE_MUTATION_MAC@,
{
    reveal_strlit("meta");
    reveal_strlit("msg_secret");
    reveal_strlit("prekey");
    reveal_strlit("mutation_mac");
    assert(STORE_META@.len() == 4);
    assert(STORE_MSG_SECRET@.len() == 10);
    assert(STORE_PREKEY@.len() == 6);
    assert(STORE_MUTATION_MAC@.len() == 12);
}

/// A secret that was stored reads back: its row carries the timestamp and then
/// the secret.
pub proof fn a_secret_reads_back(rows: Rows, e: MsgSecretEntryView, now: i64, kept: bool)
    ensures
        carried_out(rows, put_secret_plan(e, now, kept)) matches Some(r) ==> {
            let found = row(r, STORE_MSG_SECRET@, secret_row(e, now).0);
            &&& found is Some
            &&& found->0.skip(TIMESTAMP_PREFIX_LEN as int) == e.secret
            &&& fate_of(found, now) == Fate::Live
        },
{
    namespaces_differ();
    let plan = put_secret_plan(e, now, kept);
    let (key, value) = secret_row(e, now);
    let put = HostWriteView::Put { store: STORE_MSG_SECRET@, key, value };
    one_write(rows, put);
    let first = after(rows, plan.before);
    assert(plan.before =~= seq![put]);
    no_write(first);
    stamp_reads_back(now, e.secret);
    if kept {
        let change = IndexChangeView::Add { meta: META_MSG_SECRET_KEYS@, keys: seq![key] };
        let stored = row(first, STORE_META@, META_MSG_SECRET_KEYS@);
        match listed(stored) {
            Some(list) => {
                no_write(after(first, seq![index_put(META_MSG_SECRET_KEYS@, change.changed(list))]));
                one_write(first, index_put(META_MSG_SECRET_KEYS@, change.changed(list)));
            },
            None => {},
        }
    }
}

/// A batch of secrets reads back: the row of each key carries what the batch
/// gave for it last.
pub proof fn a_batch_of_secrets_reads_back(
    rows: Rows,
    entries: Seq<MsgSecretEntryView>,
    now: i64,
    kept: bool,
    i: int,
)
    requires
        0 <= i < entries.len(),
        forall|j: int|
            i < j < entries.len() ==> secret_row(#[trigger] entries[j], now).0 != secret_row(
                entries[i],
                now,
            ).0,
    ensures
        carried_out(rows, put_secrets_plan(entries, now, kept)) matches Some(r) ==> row(
            r,
            STORE_MSG_SECRET@,
            secret_row(entries[i], now).0,
        ) == Some(stamp(now) + entries[i].secret),
{
    let batch = secret_rows(entries, now);
    let (key, value) = secret_row(entries[i], now);
    last_value_counts(batch, i);
    let plan = put_secrets_plan(entries, now, kept);
    no_write(rows);
    match carried_out(rows, plan) {
        Some(r) => {
            let put = HostWriteView::PutMany { store: STORE_MSG_SECRET@, entries: batch };
            let mid = if plan.index is Some {
                after(rows, plan.index->0.writes(row(rows, STORE_META@, META_MSG_SECRET_KEYS@))->0)
            } else {
                rows
            };
            assert(plan.before =~= Seq::empty());
            one_write(mid, put);
            with_rows_at(mid, STORE_MSG_SECRET@, batch, STORE_MSG_SECRET@, key);
        },
        None => {},
    }
}

pub(crate) proof fn last_value_counts(batch: Seq<(Seq<char>, Seq<u8>)>, i: int)
    requires
        0 <= i < batch.len(),
        forall|j: int| i < j < batch.len() ==> (#[trigger] batch[j]).0 != batch[i].0,
    ensures
        value_of(batch, batch[i].0) == Some(batch[i].1),
    decreases batch.len(),
{
    if i < batch.len() - 1 {
        assert(batch.last().0 != batch[i].0);
        assert forall|j: int| i < j < batch.drop_last().len() implies (
        #[trigger] batch.drop_last()[j]).0 != batch.drop_last()[i].0 by {
            assert(batch[j].0 != batch[i].0);
        }
        last_value_counts(batch.drop_last(), i);
    }
}

proof fn value_of_is_a_key(batch: Seq<(Seq<char>, Seq<u8>)>, k: Seq<char>)
    ensures
        value_of(batch, k) is Some ==> row_keys(batch).contains(k),
    decreases batch.len(),
{
    if batch.len() > 0 {
        value_of_is_a_key(batch.drop_last(), k);
        if batch.last().0 == k {
            assert(row_keys(batch)[batch.len() - 1] == k);
        } else if value_of(batch, k) is Some {
            let i = choose|i: int|
                0 <= i < batch.drop_last().len() && row_keys(batch.drop_last())[i] == k;
            assert(row_keys(batch)[i] == k);
        }
    }
}

/// A batch of secrets is never found without its index entries, wherever it is
/// cut short: not before the index is written, not after it, and not after any
/// number of the rows.
pub proof fn a_batch_cut_short_leaves_no_orphan(
    rows: Rows,
    entries: Seq<MsgSecretEntryView>,
    now: i64,
    n: int,
)
    requires
        covered(rows, STORE_MSG_SECRET@, META_MSG_SECRET_KEYS@),
        put_secrets_plan(entries, now, true).index matches Some(change) ==> change.legible(
            row(rows, STORE_META@, META_MSG_SECRET_KEYS@),
        ),
        0 <= n <= entries.len(),
    ensures
        put_secrets_plan(entries, now, true).index matches Some(change) ==> {
            let writes = change.writes(row(rows, STORE_META@, META_MSG_SECRET_KEYS@));
            &&& writes is Some
            &&& covered(after(rows, writes->0), STORE_MSG_SECRET@, META_MSG_SECRET_KEYS@)
            &&& covered(
                after(
                    after(rows, writes->0),
                    single_puts(STORE_MSG_SECRET@, secret_rows(entries, now)).take(n),
                ),
                STORE_MSG_SECRET@,
                META_MSG_SECRET_KEYS@,
            )
        },
{
    namespaces_differ();
    if entries.len() > 0 {
        let batch = secret_rows(entries, now);
        let keys = row_keys(batch);
        let change = IndexChangeView::Add { meta: META_MSG_SECRET_KEYS@, keys };
        let stored = row(rows, STORE_META@, META_MSG_SECRET_KEYS@);
        let list = listed(stored)->0;
        let next = with_items(list, keys);
        let writes = change.writes(stored)->0;
        let mid = after(rows, writes);
        if change.rewrites(list) {
            one_write(rows, index_put(META_MSG_SECRET_KEYS@, next));
            assert(listed(row(mid, STORE_META@, META_MSG_SECRET_KEYS@)) == Some(next));
        } else {
            no_write(rows);
            same_length_same_list(list, keys);
        }
        assert(listed(row(mid, STORE_META@, META_MSG_SECRET_KEYS@)) == Some(next));
        assert forall|k: Seq<char>| #[trigger]
            row(mid, STORE_MSG_SECRET@, k) is Some implies next.contains(k) by {
            assert(row(mid, STORE_MSG_SECRET@, k) == row(rows, STORE_MSG_SECRET@, k));
            with_items_holds(list, keys, k);
        }
        let some = batch.take(n);
        assert(single_puts(STORE_MSG_SECRET@, batch).take(n) =~= single_puts(
            STORE_MSG_SECRET@,
            some,
        ));
        let end = after(mid, single_puts(STORE_MSG_SECRET@, some));
        crate::store::host::degrading_changes_nothing(
            mid,
            HostWriteView::PutMany { store: STORE_MSG_SECRET@, entries: some },
            false,
            false,
        );
        assert(end == with_rows(mid, STORE_MSG_SECRET@, some));
        with_rows_at(mid, STORE_MSG_SECRET@, some, STORE_META@, META_MSG_SECRET_KEYS@);
        assert forall|k: Seq<char>| #[trigger]
            row(end, STORE_MSG_SECRET@, k) is Some implies next.contains(k) by {
            with_rows_at(mid, STORE_MSG_SECRET@, some, STORE_MSG_SECRET@, k);
            if value_of(some, k) is Some {
                value_of_is_a_key(some, k);
                let i = choose|i: int| 0 <= i < some.len() && row_keys(some)[i] == k;
                assert(keys[i] == k);
                with_items_holds(list, keys, k);
            }
        }
    }
}

proof fn same_length_same_list<T>(list: Seq<T>, items: Seq<T>)
    requires
        with_items(list, items).len() == list.len(),
    ensures
        with_items(list, items) == list,
    decreases items.len(),
{
    if items.len() > 0 {
        never_shorter(list, items.drop_last());
        same_length_same_list(list, items.drop_last());
    }
}

proof fn never_shorter<T>(list: Seq<T>, items: Seq<T>)
    ensures
        with_items(list, items).len() >= list.len(),
    decreases items.len(),
{
    if items.len() > 0 {
        never_shorter(list, items.drop_last());
    }
}

/// Whether a read told the truth about some keys.
pub open spec fn truthful(
    found: Seq<(Seq<char>, Seq<u8>)>,
    rows: Rows,
    store: Seq<char>,
    keys: Seq<Seq<char>>,
) -> bool {
    forall|k: Seq<char>| #[trigger] keys.contains(k) ==> value_of(found, k) == row(rows, store, k)
}

/// Whether the keys that a scan looked at are sorted by the fate of their
/// rows.
pub open spec fn sorted_by_fate(scan: ExpiryScanView, rows: Rows, store: Seq<char>) -> bool {
    forall|k: Seq<char>| #[trigger] sorted_at(scan, rows, store, k)
}

/// Whether a scan put one key where it belongs.
pub open spec fn sorted_at(
    scan: ExpiryScanView,
    rows: Rows,
    store: Seq<char>,
    k: Seq<char>,
) -> bool {
    let seen = scan.keys.take(scan.at).contains(k);
    let fate = fate_of(row(rows, store, k), scan.cutoff);
    &&& scan.victims.contains(k) == (seen && fate == Fate::Expired)
    &&& scan.survivors.contains(k) == (seen && fate == Fate::Live)
}

proof fn concat_holds<T>(a: Seq<T>, b: Seq<T>, x: T)
    ensures
        (a + b).contains(x) <==> a.contains(x) || b.contains(x),
{
    if a.contains(x) {
        let i = choose|i: int| 0 <= i < a.len() && a[i] == x;
        assert((a + b)[i] == x);
    }
    if b.contains(x) {
        let i = choose|i: int| 0 <= i < b.len() && b[i] == x;
        assert((a + b)[a.len() + i] == x);
    }
    if (a + b).contains(x) {
        let i = choose|i: int| 0 <= i < (a + b).len() && (a + b)[i] == x;
        if i < a.len() {
            assert(a[i] == x);
        } else {
            assert(b[i - a.len()] == x);
        }
    }
}

/// A scan sorts its keys by the fate of their rows, chunk by chunk, whatever
/// else a read gave back.
pub proof fn a_scan_sorts_by_fate(
    scan: ExpiryScanView,
    found: Seq<(Seq<char>, Seq<u8>)>,
    rows: Rows,
    store: Seq<char>,
)
    requires
        scan.wf(),
        sorted_by_fate(scan, rows, store),
        truthful(found, rows, store, scan.chunk()),
    ensures
        scan.answered(found).wf(),
        sorted_by_fate(scan.answered(found), rows, store),
{
    let next = scan.answered(found);
    let chunk = scan.chunk();
    assert(next.keys.take(next.at) =~= scan.keys.take(scan.at) + chunk);
    assert forall|k: Seq<char>| #[trigger] sorted_at(next, rows, store, k) by {
        concat_holds(scan.keys.take(scan.at), chunk, k);
        concat_holds(
            scan.victims,
            with_fate(chunk, found, scan.cutoff, Fate::Expired),
            k,
        );
        concat_holds(scan.survivors, with_fate(chunk, found, scan.cutoff, Fate::Live), k);
        fates_exclude_each_other(chunk, found, scan.cutoff, k);
        assert(sorted_at(scan, rows, store, k));
        if chunk.contains(k) {
            assert(value_of(found, k) == row(rows, store, k));
        }
    }
}

/// A scan that has not begun is sorted.
pub proof fn a_fresh_scan_is_sorted(keys: Seq<Seq<char>>, cutoff: i64, rows: Rows, store: Seq<char>)
    ensures
        sorted_by_fate(
            ExpiryScanView {
                keys,
                cutoff,
                at: 0,
                victims: Seq::empty(),
                survivors: Seq::empty(),
            },
            rows,
            store,
        ),
{
    assert(keys.take(0) =~= Seq::empty());
}

/// A sweep of the message secrets deletes no row that was live when it was
/// read the second time, deletes every indexed one that was not, and leaves
/// every row indexed that it leaves. The rows may have been refreshed between
/// the two reads, but none came.
pub proof fn a_sweep_spares_the_living(
    first: Rows,
    second: Rows,
    scan: ExpiryScanView,
    confirm: ExpiryScanView,
    kept: bool,
)
    requires
        scan.at == scan.keys.len(),
        confirm.at == confirm.keys.len(),
        sorted_by_fate(scan, first, STORE_MSG_SECRET@),
        confirm.keys == scan.victims,
        confirm.cutoff == scan.cutoff,
        sorted_by_fate(confirm, second, STORE_MSG_SECRET@),
        forall|k: Seq<char>| #[trigger]
            row(second, STORE_MSG_SECRET@, k) is Some ==> scan.keys.contains(k) && row(
                first,
                STORE_MSG_SECRET@,
                k,
            ) is Some,
        forall|k: Seq<char>|
            fate_of(#[trigger] row(first, STORE_MSG_SECRET@, k), scan.cutoff) == Fate::Live
                ==> fate_of(row(second, STORE_MSG_SECRET@, k), scan.cutoff) != Fate::Expired,
        reads_back(scan.survivors + confirm.survivors),
        kept ==> listed(row(second, STORE_META@, META_MSG_SECRET_KEYS@)) == Some(scan.keys),
    ensures
        ({
            let writes = sweep_writes(
                scan.keys.len(),
                confirm.victims,
                scan.survivors + confirm.survivors,
                kept,
            );
            let end = after(second, writes);
            &&& forall|k: Seq<char>| #[trigger]
                row(end, STORE_MSG_SECRET@, k) == (if fate_of(
                    row(second, STORE_MSG_SECRET@, k),
                    scan.cutoff,
                ) == Fate::Expired {
                    None
                } else {
                    row(second, STORE_MSG_SECRET@, k)
                })
            &&& kept ==> covered(end, STORE_MSG_SECRET@, META_MSG_SECRET_KEYS@)
        }),
{
    namespaces_differ();
    let left = scan.survivors + confirm.survivors;
    let victims = confirm.victims;
    let writes = sweep_writes(scan.keys.len(), victims, left, kept);
    let end = after(second, writes);
    let removal = HostWriteView::RemoveMany { store: STORE_MSG_SECRET@, keys: victims };
    let rows_part = if victims.len() > 0 {
        seq![removal]
    } else {
        Seq::empty()
    };
    let mid = after(second, rows_part);
    assert(scan.keys.take(scan.at) =~= scan.keys);
    assert(confirm.keys.take(confirm.at) =~= confirm.keys);
    if victims.len() > 0 {
        one_write(second, removal);
    } else {
        no_write(second);
    }
    let put = index_put(META_MSG_SECRET_KEYS@, left);
    if kept && left.len() != scan.keys.len() {
        assert(writes == rows_part.push(put));
        assert(writes.drop_last() =~= rows_part);
        assert(end == written(mid, put));
    } else {
        assert(writes == rows_part);
    }
    assert forall|k: Seq<char>| #[trigger]
        row(end, STORE_MSG_SECRET@, k) == (if fate_of(
            row(second, STORE_MSG_SECRET@, k),
            scan.cutoff,
        ) == Fate::Expired {
            None
        } else {
            row(second, STORE_MSG_SECRET@, k)
        }) by {
        without_rows_at(second, STORE_MSG_SECRET@, victims, STORE_MSG_SECRET@, k);
        assert(row(end, STORE_MSG_SECRET@, k) == row(mid, STORE_MSG_SECRET@, k));
        assert(sorted_at(confirm, second, STORE_MSG_SECRET@, k));
        assert(sorted_at(scan, first, STORE_MSG_SECRET@, k));
        if victims.len() == 0 {
            assert(!victims.contains(k));
        }
    }
    if kept {
        without_rows_at(
            second,
            STORE_MSG_SECRET@,
            victims,
            STORE_META@,
            META_MSG_SECRET_KEYS@,
        );
        let list = if left.len() != scan.keys.len() {
            left
        } else {
            scan.keys
        };
        assert(listed(row(end, STORE_META@, META_MSG_SECRET_KEYS@)) == Some(list));
        assert forall|k: Seq<char>| #[trigger]
            row(end, STORE_MSG_SECRET@, k) is Some implies list.contains(k) by {
            assert(row(second, STORE_MSG_SECRET@, k) is Some);
            concat_holds(scan.survivors, confirm.survivors, k);
            assert(sorted_at(scan, first, STORE_MSG_SECRET@, k));
            assert(sorted_at(confirm, second, STORE_MSG_SECRET@, k));
        }
    }
}

/// A cleared collection is gone, and nothing else is touched: by prefix, or
/// through a list of the namespace's keys.
pub proof fn clearing_clears_what_starts_alike(
    rows: Rows,
    store: Seq<char>,
    prefix: Seq<char>,
    by_prefix: bool,
    keys: Seq<Seq<char>>,
    s: Seq<char>,
    k: Seq<char>,
)
    requires
        by_prefix || forall|key: Seq<char>| #[trigger]
            row(rows, store, key) is Some ==> keys.contains(key),
    ensures
        row(after(rows, clearing(store, prefix, by_prefix, keys)), s, k) == if s == store
            && unprefixed(k, prefix) is Some {
            None
        } else {
            row(rows, s, k)
        },
{
    let starts = |key: Seq<char>| unprefixed(key, prefix) is Some;
    let matching = keys.filter(starts);
    let writes = clearing(store, prefix, by_prefix, keys);
    if by_prefix {
        one_write(rows, HostWriteView::RemovePrefix { store, prefix });
    } else {
        filter_holds(keys, starts, k);
        if matching.len() > 0 {
            one_write(rows, HostWriteView::RemoveMany { store, keys: matching });
            without_rows_at(rows, store, matching, s, k);
        } else {
            no_write(rows);
        }
        if s == store && unprefixed(k, prefix) is Some && row(rows, s, k) is Some {
            assert(keys.contains(k));
        }
    }
}

pub(crate) proof fn filter_holds<T>(s: Seq<T>, f: spec_fn(T) -> bool, x: T)
    ensures
        s.filter(f).contains(x) <==> s.contains(x) && f(x),
    decreases s.len(),
{
    reveal(Seq::filter);
    if s.len() > 0 {
        let before = s.drop_last();
        filter_holds(before, f, x);
        assert(s =~= before + seq![s.last()]);
        concat_holds(before, seq![s.last()], x);
        assert(seq![s.last()].contains(x) <==> s.last() == x) by {
            if s.last() == x {
                assert(seq![s.last()][0] == x);
            }
        }
        if f(s.last()) {
            assert(s.filter(f) == before.filter(f).push(s.last()));
            assert(s.filter(f) =~= before.filter(f) + seq![s.last()]);
            concat_holds(before.filter(f), seq![s.last()], x);
        } else {
            assert(s.filter(f) == before.filter(f));
        }
    }
}

proof fn prefixes_differ(a: Seq<char>, b: Seq<char>)
    ensures
        "pn:"@ + a != "lid:"@ + b,
{
    reveal_strlit("pn:");
    reveal_strlit("lid:");
    assert(("pn:"@ + a)[0] == 'p');
    assert(("lid:"@ + b)[0] == 'l');
}

/// A mapping that was stored is found from both ends: the phone number names
/// the identifier, and the identifier its record. The number that it had
/// before names nothing any more.
pub proof fn a_mapping_is_found_from_both_ends(
    rows: Rows,
    old_phone: Option<Seq<char>>,
    lid: Seq<char>,
    phone: Seq<char>,
    record: Seq<u8>,
)
    ensures
        ({
            let end = after(rows, mapping_writes(old_phone, lid, phone, record));
            &&& row(end, STORE_LID_MAPPING@, "pn:"@ + phone) == Some(encode_utf8(lid))
            &&& decode_utf8(encode_utf8(lid)) == lid
            &&& row(end, STORE_LID_MAPPING@, "lid:"@ + lid) == Some(record)
            &&& old_phone matches Some(old) ==> old != phone ==> row(
                end,
                STORE_LID_MAPPING@,
                "pn:"@ + old,
            ) is None
        }),
{
    broadcast use encode_utf8_decode_utf8;

    let writes = mapping_writes(old_phone, lid, phone, record);
    let reverse = writes.last();
    let forward = writes.drop_last().last();
    let stale = writes.drop_last().drop_last();
    let a = after(rows, stale);
    let b = after(rows, writes.drop_last());
    assert(b == written(a, forward));
    assert(after(rows, writes) == written(b, reverse));
    prefixes_differ(phone, lid);
    match old_phone {
        Some(old) => {
            if old != phone {
                prefixes_differ(old, lid);
                let removal = HostWriteView::Remove {
                    store: STORE_LID_MAPPING@,
                    key: "pn:"@ + old,
                };
                assert(stale =~= seq![removal]);
                one_write(rows, removal);
                assert("pn:"@ + old != "pn:"@ + phone) by {
                    if "pn:"@ + old == "pn:"@ + phone {
                        assert(("pn:"@ + old).skip("pn:"@.len() as int) =~= old);
                        assert(("pn:"@ + phone).skip("pn:"@.len() as int) =~= phone);
                    }
                }
            }
        },
        None => {},
    }
}

/// A sent message that was stored is taken back whole, and once: the row is
/// gone then.
pub proof fn a_sent_message_is_taken_once(
    rows: Rows,
    chat: Seq<char>,
    msg_id: Seq<char>,
    payload: Seq<u8>,
    now: i64,
)
    requires
        payload.len() > 0,
    ensures
        ({
            let key = sent_key(chat, msg_id);
            let stored = written(rows, put_sent(chat, msg_id, payload, now));
            let found = row(stored, STORE_SENT_MESSAGE@, key);
            &&& found is Some
            &&& found->0.len() > TIMESTAMP_PREFIX_LEN
            &&& found->0.skip(TIMESTAMP_PREFIX_LEN as int) == payload
            &&& row(
                written(stored, HostWriteView::Remove { store: STORE_SENT_MESSAGE@, key }),
                STORE_SENT_MESSAGE@,
                key,
            ) is None
        }),
{
    stamp_reads_back(now, payload);
}

/// Once a batch of one-time keys is stored, the highest number on record is at
/// least that of every one of them, and never lower than it was.
pub proof fn the_highest_prekey_covers_the_batch(rows: Rows, records: Seq<(u32, Seq<u8>)>)
    ensures
        ({
            let plan = PlanView::then_index(
                seq![
                    HostWriteView::PutMany { store: STORE_PREKEY@, entries: prekey_rows(records) },
                ],
                true,
                IndexChangeView::RaiseMax { ids: prekey_ids(records) },
            );
            let end = carried_out(rows, plan);
            &&& end is Some
            &&& ({
                let max = stored_max(row(end->0, STORE_META@, META_MAX_PREKEY_ID@));
                &&& max >= stored_max(row(rows, STORE_META@, META_MAX_PREKEY_ID@))
                &&& forall|i: int| 0 <= i < records.len() ==> (#[trigger] records[i]).0 <= max
            })
        }),
{
    broadcast use encode_utf8_decode_utf8;

    namespaces_differ();
    let ids = prekey_ids(records);
    let put = HostWriteView::PutMany { store: STORE_PREKEY@, entries: prekey_rows(records) };
    one_write(rows, put);
    let first = after(rows, seq![put]);
    with_rows_at(rows, STORE_PREKEY@, prekey_rows(records), STORE_META@, META_MAX_PREKEY_ID@);
    let before = stored_max(row(rows, STORE_META@, META_MAX_PREKEY_ID@));
    let max = max_with(ids, before);
    max_prekey_id_covers(ids, before);
    u32_text_inverse(max);
    let value = encode_utf8(decimal(max as nat));
    encode_utf8_valid_utf8(decimal(max as nat));
    let raise = HostWriteView::Put { store: STORE_META@, key: META_MAX_PREKEY_ID@, value };
    one_write(first, raise);
    no_write(after(first, seq![raise]));
    assert forall|i: int| 0 <= i < records.len() implies (#[trigger] records[i]).0 <= max by {
        assert(ids[i] <= max);
    }
}

/// A row that is set and then indexed leaves its namespace covered, if it was.
pub proof fn an_indexed_row_keeps_the_namespace_covered(
    rows: Rows,
    store: Seq<char>,
    meta: Seq<char>,
    key: Seq<char>,
    value: Seq<u8>,
)
    requires
        store != STORE_META@,
        covered(rows, store, meta),
        (IndexChangeView::Add { meta, keys: seq![key] }).legible(row(rows, STORE_META@, meta)),
    ensures
        ({
            let plan = PlanView::then_index(
                seq![HostWriteView::Put { store, key, value }],
                true,
                IndexChangeView::Add { meta, keys: seq![key] },
            );
            &&& carried_out(rows, plan) is Some
            &&& covered(carried_out(rows, plan)->0, store, meta)
        }),
{
    let put = HostWriteView::Put { store, key, value };
    let change = IndexChangeView::Add { meta, keys: seq![key] };
    one_write(rows, put);
    let first = after(rows, seq![put]);
    let stored = row(rows, STORE_META@, meta);
    assert(row(first, STORE_META@, meta) == stored);
    let list = listed(stored)->0;
    let next = change.changed(list);
    let end = if change.rewrites(list) {
        one_write(first, index_put(meta, next));
        after(first, seq![index_put(meta, next)])
    } else {
        no_write(first);
        same_length_same_list(list, seq![key]);
        first
    };
    no_write(end);
    assert(listed(row(end, STORE_META@, meta)) == Some(next));
    assert forall|k: Seq<char>| #[trigger] row(end, store, k) is Some implies next.contains(
        k,
    ) by {
        with_items_holds(list, seq![key], k);
        if k == key {
            assert(seq![key][0] == k);
        } else {
            assert(row(end, store, k) == row(rows, store, k));
        }
    }
}

/// A collection that is cleared leaves its namespace covered, if it was: its
/// keys leave the index with its rows.
pub proof fn clearing_keeps_the_namespace_covered(
    rows: Rows,
    store: Seq<char>,
    meta: Seq<char>,
    prefix: Seq<char>,
    by_prefix: bool,
)
    requires
        store != STORE_META@,
        covered(rows, store, meta),
        (IndexChangeView::ClearPrefix { meta, prefix }).legible(row(rows, STORE_META@, meta)),
    ensures
        ({
            let list = listed(row(rows, STORE_META@, meta))->0;
            let plan = PlanView::then_index(
                clearing(store, prefix, by_prefix, list),
                true,
                IndexChangeView::ClearPrefix { meta, prefix },
            );
            &&& carried_out(rows, plan) is Some
            &&& covered(carried_out(rows, plan)->0, store, meta)
        }),
{
    let stored = row(rows, STORE_META@, meta);
    let list = listed(stored)->0;
    let change = IndexChangeView::ClearPrefix { meta, prefix };
    let first = after(rows, clearing(store, prefix, by_prefix, list));
    clearing_clears_what_starts_alike(
        rows,
        store,
        prefix,
        by_prefix,
        list,
        STORE_META@,
        meta,
    );
    let others = |k: Seq<char>| unprefixed(k, prefix) is None;
    let next = change.changed(list);
    assert(next == list.filter(others));
    let end = after(first, change.writes(stored)->0);
    if change.rewrites(list) {
        one_write(first, index_put(meta, next));
    } else if next.len() != list.len() {
        one_write(first, HostWriteView::Remove { store: STORE_META@, key: meta });
    } else {
        no_write(first);
    }
    no_write(end);
    let shown = listed(row(end, STORE_META@, meta));
    assert(shown is Some);
    assert forall|k: Seq<char>| #[trigger] row(end, store, k) is Some implies shown->0.contains(
        k,
    ) by {
        clearing_clears_what_starts_alike(rows, store, prefix, by_prefix, list, store, k);
        assert(row(end, store, k) == row(first, store, k));
        assert(row(rows, store, k) is Some);
        filter_holds(list, others, k);
        assert(next.contains(k));
    }
}

} // verus!
