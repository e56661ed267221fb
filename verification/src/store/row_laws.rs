//! What an operation stores reads back, what it deletes is gone, and what it
//! was not asked about stays.

use vstd::prelude::*;

use crate::store::changes::{index_put, listed, listed_ids, reads_back, IndexChangeView};
use crate::store::host::{
    after, degrading_changes_nothing, row, single_puts, single_removes, with_rows, with_rows_at,
    without_rows_at, written, HostWriteView, Rows, META_LATEST_SYNC_KEY_ID,
    META_SIGNED_PREKEY_IDS, META_TC_TOKEN_JIDS, STORE_META, STORE_MUTATION_MAC, STORE_PREKEY,
    STORE_SENDER_KEY_DEVICES, STORE_SIGNED_PREKEY, STORE_SYNC_KEY, STORE_TC_TOKEN,
};
use crate::store::index::with_item;
use crate::store::keys::{indexes_do_not_collide, mutation_key};
use crate::store::json::devices_json;
use crate::store::laws::{carried_out, filter_holds, last_value_counts, no_write, one_write};
use crate::store::plans::{
    dead_tokens, devices_on_record, devices_put, devices_read_back, live_tokens, mutation_puts,
    prekey_rows, MutationMac, PlanView, TokenRow,
};
use crate::text::{decimal, hex, u32_text_inverse};

verus! {

/// An index is changed in its own row, and nowhere else.
pub proof fn an_index_change_stays_in_its_row(
    rows: Rows,
    change: IndexChangeView,
    s: Seq<char>,
    k: Seq<char>,
)
    requires
        s != STORE_META@ || k != change.meta(),
    ensures
        change.writes(row(rows, STORE_META@, change.meta())) matches Some(writes) ==> row(
            after(rows, writes),
            s,
            k,
        ) == row(rows, s, k),
{
    match change.writes(row(rows, STORE_META@, change.meta())) {
        Some(writes) => {
            if writes.len() == 0 {
                assert(writes =~= Seq::empty());
                no_write(rows);
            } else {
                assert(writes =~= seq![writes[0]]);
                one_write(rows, writes[0]);
            }
        },
        None => {},
    }
}

/// A row that is stored reads back, whatever becomes of an index with it, and
/// no other row is touched but that of the index.
pub proof fn a_stored_row_reads_back(
    rows: Rows,
    store: Seq<char>,
    key: Seq<char>,
    value: Seq<u8>,
    kept: bool,
    change: IndexChangeView,
    s: Seq<char>,
    k: Seq<char>,
)
    requires
        store != STORE_META@,
    ensures
        carried_out(
            rows,
            PlanView::then_index(seq![HostWriteView::Put { store, key, value }], kept, change),
        ) matches Some(r) ==> {
            &&& row(r, store, key) == Some(value)
            &&& (s != store || k != key) && (s != STORE_META@ || k != change.meta()) ==> row(
                r,
                s,
                k,
            ) == row(rows, s, k)
        },
{
    let put = HostWriteView::Put { store, key, value };
    one_write(rows, put);
    let first = after(rows, seq![put]);
    no_write(first);
    an_index_change_stays_in_its_row(first, change, store, key);
    if s != STORE_META@ || k != change.meta() {
        an_index_change_stays_in_its_row(first, change, s, k);
    }
    match change.writes(row(first, STORE_META@, change.meta())) {
        Some(writes) => {
            no_write(after(first, writes));
        },
        None => {},
    }
}

/// A row that is deleted is gone, whatever becomes of an index with it, and no
/// other row is touched but that of the index.
pub proof fn a_deleted_row_is_gone(
    rows: Rows,
    store: Seq<char>,
    key: Seq<char>,
    kept: bool,
    change: IndexChangeView,
    s: Seq<char>,
    k: Seq<char>,
)
    requires
        store != STORE_META@,
    ensures
        carried_out(
            rows,
            PlanView::then_index(seq![HostWriteView::Remove { store, key }], kept, change),
        ) matches Some(r) ==> {
            &&& row(r, store, key) is None
            &&& (s != store || k != key) && (s != STORE_META@ || k != change.meta()) ==> row(
                r,
                s,
                k,
            ) == row(rows, s, k)
        },
{
    let removal = HostWriteView::Remove { store, key };
    one_write(rows, removal);
    let first = after(rows, seq![removal]);
    no_write(first);
    an_index_change_stays_in_its_row(first, change, store, key);
    if s != STORE_META@ || k != change.meta() {
        an_index_change_stays_in_its_row(first, change, s, k);
    }
    match change.writes(row(first, STORE_META@, change.meta())) {
        Some(writes) => {
            no_write(after(first, writes));
        },
        None => {},
    }
}

/// A signed key that is stored is in the index of numbers, and one that is
/// removed is not.
pub proof fn a_signed_key_is_indexed_while_it_is_stored(rows: Rows, id: u32, record: Seq<u8>)
    requires
        (IndexChangeView::AddId { meta: META_SIGNED_PREKEY_IDS@, id }).legible(
            row(rows, STORE_META@, META_SIGNED_PREKEY_IDS@),
        ),
        (IndexChangeView::DropId { meta: META_SIGNED_PREKEY_IDS@, id }).legible(
            row(rows, STORE_META@, META_SIGNED_PREKEY_IDS@),
        ),
        listed_ids(row(rows, STORE_META@, META_SIGNED_PREKEY_IDS@)) is Some,
    ensures
        ({
            let key = decimal(id as nat);
            let stored = carried_out(
                rows,
                PlanView::then_index(
                    seq![HostWriteView::Put { store: STORE_SIGNED_PREKEY@, key, value: record }],
                    true,
                    IndexChangeView::AddId { meta: META_SIGNED_PREKEY_IDS@, id },
                ),
            );
            let removed = carried_out(
                rows,
                PlanView::then_index(
                    seq![HostWriteView::Remove { store: STORE_SIGNED_PREKEY@, key }],
                    true,
                    IndexChangeView::DropId { meta: META_SIGNED_PREKEY_IDS@, id },
                ),
            );
            &&& stored is Some
            &&& listed_ids(row(stored->0, STORE_META@, META_SIGNED_PREKEY_IDS@)) matches Some(ids)
                && ids.contains(id)
            &&& removed is Some
            &&& listed_ids(row(removed->0, STORE_META@, META_SIGNED_PREKEY_IDS@)) matches Some(ids)
                && !ids.contains(id)
        }),
{
    reveal_strlit("meta");
    reveal_strlit("signed_prekey");
    assert(STORE_META@.len() != STORE_SIGNED_PREKEY@.len());
    let key = decimal(id as nat);
    let meta = META_SIGNED_PREKEY_IDS@;
    let list = listed_ids(row(rows, STORE_META@, meta))->0;

    let put = HostWriteView::Put { store: STORE_SIGNED_PREKEY@, key, value: record };
    let add = IndexChangeView::AddId { meta, id };
    one_write(rows, put);
    let first = after(rows, seq![put]);
    let with = with_item(list, id);
    if list.contains(id) {
        no_write(first);
    } else {
        assert(with[list.len() as int] == id);
        one_write(first, add.writes(row(first, STORE_META@, meta))->0[0]);
        assert(add.writes(row(first, STORE_META@, meta))->0 =~= seq![
            add.writes(row(first, STORE_META@, meta))->0[0],
        ]);
    }
    no_write(after(first, add.writes(row(first, STORE_META@, meta))->0));

    let removal = HostWriteView::Remove { store: STORE_SIGNED_PREKEY@, key };
    let drop = IndexChangeView::DropId { meta, id };
    one_write(rows, removal);
    let second = after(rows, seq![removal]);
    let writes = drop.writes(row(second, STORE_META@, meta))->0;
    assert(writes =~= seq![writes[0]]);
    one_write(second, writes[0]);
    no_write(after(second, writes));
    filter_holds(list, |n: u32| n != id, id);
}

/// A batch of one-time keys reads back: each under its number, with the record
/// that the batch gave for it last.
pub proof fn a_batch_of_prekeys_reads_back(
    rows: Rows,
    records: Seq<(u32, Seq<u8>)>,
    kept: bool,
    change: IndexChangeView,
    i: int,
)
    requires
        0 <= i < records.len(),
        forall|j: int| i < j < records.len() ==> (#[trigger] records[j]).0 != records[i].0,
    ensures
        carried_out(
            rows,
            PlanView::then_index(
                seq![HostWriteView::PutMany { store: STORE_PREKEY@, entries: prekey_rows(records) }],
                kept,
                change,
            ),
        ) matches Some(r) ==> row(r, STORE_PREKEY@, decimal(records[i].0 as nat)) == Some(
            records[i].1,
        ),
{
    reveal_strlit("meta");
    reveal_strlit("prekey");
    assert(STORE_META@.len() != STORE_PREKEY@.len());
    let batch = prekey_rows(records);
    let key = decimal(records[i].0 as nat);
    assert forall|j: int| i < j < batch.len() implies (#[trigger] batch[j]).0 != batch[i].0 by {
        assert(records[j].0 != records[i].0);
        u32_text_inverse(records[j].0);
        u32_text_inverse(records[i].0);
    }
    last_value_counts(batch, i);
    let put = HostWriteView::PutMany { store: STORE_PREKEY@, entries: batch };
    one_write(rows, put);
    let first = after(rows, seq![put]);
    with_rows_at(rows, STORE_PREKEY@, batch, STORE_PREKEY@, key);
    no_write(first);
    an_index_change_stays_in_its_row(first, change, STORE_PREKEY@, key);
    match change.writes(row(first, STORE_META@, change.meta())) {
        Some(writes) => {
            no_write(after(first, writes));
        },
        None => {},
    }
}

/// The rows of some mutation codes.
pub open spec fn mutation_rows(name: Seq<char>, macs: Seq<MutationMac>) -> Seq<
    (Seq<char>, Seq<u8>),
> {
    Seq::new(macs.len(), |i: int| (mutation_key(name, macs[i].index_mac@), macs[i].value_mac@))
}

/// A mutation code reads back under its collection and index, as it was stored
/// last.
pub proof fn a_mutation_code_reads_back(
    rows: Rows,
    name: Seq<char>,
    macs: Seq<MutationMac>,
    kept: bool,
    change: IndexChangeView,
    i: int,
)
    requires
        0 <= i < macs.len(),
        forall|j: int|
            i < j < macs.len() ==> (#[trigger] macs[j]).index_mac@ != macs[i].index_mac@,
    ensures
        carried_out(
            rows,
            PlanView::then_index(mutation_puts(name, macs), kept, change),
        ) matches Some(r) ==> row(
            r,
            STORE_MUTATION_MAC@,
            mutation_key(name, macs[i].index_mac@),
        ) == Some(macs[i].value_mac@),
{
    reveal_strlit("meta");
    reveal_strlit("mutation_mac");
    assert(STORE_META@.len() != STORE_MUTATION_MAC@.len());
    let batch = mutation_rows(name, macs);
    let key = mutation_key(name, macs[i].index_mac@);
    assert forall|j: int| i < j < batch.len() implies (#[trigger] batch[j]).0 != batch[i].0 by {
        indexes_do_not_collide(name, macs[j].index_mac@, macs[i].index_mac@);
    }
    last_value_counts(batch, i);
    assert(mutation_puts(name, macs) =~= single_puts(STORE_MUTATION_MAC@, batch));
    degrading_changes_nothing(
        rows,
        HostWriteView::PutMany { store: STORE_MUTATION_MAC@, entries: batch },
        false,
        false,
    );
    let first = after(rows, mutation_puts(name, macs));
    assert(first == with_rows(rows, STORE_MUTATION_MAC@, batch));
    with_rows_at(rows, STORE_MUTATION_MAC@, batch, STORE_MUTATION_MAC@, key);
    no_write(first);
    an_index_change_stays_in_its_row(first, change, STORE_MUTATION_MAC@, key);
    match change.writes(row(first, STORE_META@, change.meta())) {
        Some(writes) => {
            no_write(after(first, writes));
        },
        None => {},
    }
}

/// A sync key that is stored is found under its id, and is the newest.
pub proof fn a_sync_key_is_the_newest(rows: Rows, key_id: Seq<u8>, record: Seq<u8>)
    ensures
        ({
            let end = after(
                rows,
                seq![
                    HostWriteView::Put { store: STORE_SYNC_KEY@, key: hex(key_id), value: record },
                    HostWriteView::Put {
                        store: STORE_META@,
                        key: META_LATEST_SYNC_KEY_ID@,
                        value: key_id,
                    },
                ],
            );
            &&& row(end, STORE_SYNC_KEY@, hex(key_id)) == Some(record)
            &&& row(end, STORE_META@, META_LATEST_SYNC_KEY_ID@) == Some(key_id)
        }),
{
    reveal_strlit("meta");
    reveal_strlit("sync_key");
    assert(STORE_META@.len() != STORE_SYNC_KEY@.len());
    let put = HostWriteView::Put { store: STORE_SYNC_KEY@, key: hex(key_id), value: record };
    let latest = HostWriteView::Put {
        store: STORE_META@,
        key: META_LATEST_SYNC_KEY_ID@,
        value: key_id,
    };
    one_write(rows, put);
    assert(seq![put, latest].drop_last() =~= seq![put]);
}

/// The devices of a group read back as they were recorded.
pub proof fn the_devices_of_a_group_read_back(
    rows: Rows,
    group: Seq<char>,
    list: Seq<(Seq<char>, bool)>,
    kept: bool,
    change: IndexChangeView,
)
    requires
        devices_read_back(list),
    ensures
        carried_out(
            rows,
            PlanView::then_index(seq![devices_put(group, list)], kept, change),
        ) matches Some(r) ==> devices_on_record(row(r, STORE_SENDER_KEY_DEVICES@, group)) == Some(
            list,
        ),
{
    reveal_strlit("meta");
    reveal_strlit("sender_key_devices");
    assert(STORE_META@.len() != STORE_SENDER_KEY_DEVICES@.len());
    a_stored_row_reads_back(
        rows,
        STORE_SENDER_KEY_DEVICES@,
        group,
        devices_json(list),
        kept,
        change,
        STORE_META@,
        change.meta(),
    );
}

/// Once the tokens were swept, those that were no longer live are gone, every
/// other row of theirs is as it was, and the index is that of the live ones.
pub proof fn a_sweep_of_tokens_leaves_the_live(
    rows: Rows,
    tokens: Seq<TokenRow>,
    token_cutoff: i64,
    sender_cutoff: i64,
    k: Seq<char>,
)
    requires
        reads_back(live_tokens(tokens, token_cutoff, sender_cutoff)),
    ensures
        ({
            let dead = dead_tokens(tokens, token_cutoff, sender_cutoff);
            let live = live_tokens(tokens, token_cutoff, sender_cutoff);
            let end = after(
                rows,
                single_removes(STORE_TC_TOKEN@, dead).push(index_put(META_TC_TOKEN_JIDS@, live)),
            );
            &&& row(end, STORE_TC_TOKEN@, k) == (if dead.contains(k) {
                None
            } else {
                row(rows, STORE_TC_TOKEN@, k)
            })
            &&& listed(row(end, STORE_META@, META_TC_TOKEN_JIDS@)) == Some(live)
        }),
{
    reveal_strlit("meta");
    reveal_strlit("tc_token");
    assert(STORE_META@.len() != STORE_TC_TOKEN@.len());
    let dead = dead_tokens(tokens, token_cutoff, sender_cutoff);
    let live = live_tokens(tokens, token_cutoff, sender_cutoff);
    let removals = single_removes(STORE_TC_TOKEN@, dead);
    let put = index_put(META_TC_TOKEN_JIDS@, live);
    degrading_changes_nothing(
        rows,
        HostWriteView::RemoveMany { store: STORE_TC_TOKEN@, keys: dead },
        false,
        false,
    );
    let mid = after(rows, removals);
    without_rows_at(rows, STORE_TC_TOKEN@, dead, STORE_TC_TOKEN@, k);
    assert(removals.push(put).drop_last() =~= removals);
    assert(after(rows, removals.push(put)) == written(mid, put));
}

} // verus!
