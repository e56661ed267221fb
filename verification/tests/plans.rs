//! The store's operations, carried out on a map that stands for the host.

use std::collections::BTreeMap;

use voip_bridge::store::expiry::{secret_payload, stamped, ExpiryScan};
use voip_bridge::store::host::{
    degrade, HostWrite, META_LID_LIST, META_MAX_PREKEY_ID, META_MSG_SECRET_KEYS,
    META_SENDER_KEY_GROUPS, META_SIGNED_PREKEY_IDS, META_TC_TOKEN_JIDS, MUTATION_MAC_INDEX,
    STORE_LID_MAPPING, STORE_META, STORE_MSG_SECRET, STORE_MUTATION_MAC, STORE_PREKEY,
    STORE_SENDER_KEY_DEVICES, STORE_SENT_MESSAGE, STORE_SIGNED_PREKEY, STORE_SYNC_KEY,
    STORE_TC_TOKEN,
};
use voip_bridge::store::index::HostCapabilities;
use voip_bridge::store::plans::{
    clear_all_sender_key_devices, clear_mutation_macs, clear_sender_key_devices,
    delete_expired_tc_tokens, delete_mutation_macs, delete_sender_key_devices,
    delete_sent_messages, delete_tc_token, expired_token_write,
    put_lid_mapping, put_msg_secret, put_msg_secrets, put_mutation_macs, put_sender_key_status,
    put_tc_token, remove_signed_prekey, secret_key_of, sent_key_of, set_sync_key,
    store_prekeys_batch, store_sent_message, store_signed_prekey, sweep_msg_secrets,
    take_sent_message, MsgSecretEntry, MutationMac, Plan, TokenRow,
};
use voip_bridge::store::rows::{max_prekey_id, TokenTimes};

/// A host that keeps rows, with or without batches, and that can be cut short.
struct Host {
    rows: BTreeMap<(String, String), Vec<u8>>,
    batches: bool,
    writes_left: usize,
}

impl Host {
    fn new(batches: bool) -> Self {
        Host {
            rows: BTreeMap::new(),
            batches,
            writes_left: usize::MAX,
        }
    }

    fn get(&self, store: &str, key: &str) -> Option<Vec<u8>> {
        self.rows.get(&(store.to_owned(), key.to_owned())).cloned()
    }

    fn keys(&self, store: &str) -> Vec<String> {
        self.rows
            .keys()
            .filter(|k| k.0 == store)
            .map(|k| k.1.clone())
            .collect()
    }

    fn texts(&self, meta: &str) -> Vec<String> {
        match self.get(STORE_META, meta) {
            Some(bytes) => serde_json::from_slice(&bytes).unwrap(),
            None => Vec::new(),
        }
    }

    fn write(&mut self, w: HostWrite) {
        for w in degrade(w, self.batches, self.batches) {
            if self.writes_left == 0 {
                return;
            }
            self.writes_left -= 1;
            match w {
                HostWrite::Put { store, key, value } => {
                    self.rows.insert((store.to_owned(), key), value);
                }
                HostWrite::Remove { store, key } => {
                    self.rows.remove(&(store.to_owned(), key));
                }
                HostWrite::PutMany { store, entries } => {
                    assert!(self.batches);
                    for (key, value) in entries {
                        self.rows.insert((store.to_owned(), key), value);
                    }
                }
                HostWrite::RemoveMany { store, keys } => {
                    assert!(self.batches);
                    for key in keys {
                        self.rows.remove(&(store.to_owned(), key));
                    }
                }
                HostWrite::RemovePrefix { store, prefix } => {
                    self.rows
                        .retain(|k, _| k.0 != store || !k.1.starts_with(&prefix));
                }
            }
        }
    }

    fn run(&mut self, plan: Plan) {
        for w in plan.before {
            self.write(w);
        }
        if let Some(change) = plan.index {
            let stored = self.get(STORE_META, change.meta());
            for w in change.writes(stored.as_deref()).unwrap() {
                self.write(w);
            }
        }
        for w in plan.behind {
            self.write(w);
        }
    }
}

fn bare() -> HostCapabilities {
    HostCapabilities::new(false, false, false, false)
}

fn listing() -> HostCapabilities {
    HostCapabilities::new(true, true, true, true)
}

fn secret(id: &str, byte: u8) -> MsgSecretEntry {
    MsgSecretEntry {
        chat: "c".to_owned(),
        sender: "s".to_owned(),
        msg_id: id.to_owned(),
        secret: vec![byte; 32],
    }
}

#[test]
fn a_stored_secret_reads_back() {
    for caps in [bare(), listing()] {
        let mut host = Host::new(true);
        host.run(put_msg_secret(&secret("1", 7), 100, &caps));
        let row = host.get(STORE_MSG_SECRET, "c:s:1").unwrap();
        assert_eq!(row[..8], 100i64.to_be_bytes());
        assert_eq!(secret_payload(&row), Some(vec![7; 32]));
        let indexed = host.texts(META_MSG_SECRET_KEYS);
        assert_eq!(indexed.len(), if caps.enumerate { 0 } else { 1 });
        // A second time changes the row and not the index.
        host.run(put_msg_secret(&secret("1", 8), 101, &caps));
        assert_eq!(host.texts(META_MSG_SECRET_KEYS), indexed);
        assert_eq!(
            secret_payload(&host.get(STORE_MSG_SECRET, "c:s:1").unwrap()),
            Some(vec![8; 32])
        );
    }
    assert_eq!(secret_key_of("c", "s", "1"), "c:s:1");
}

#[test]
fn a_batch_is_indexed_before_it_is_written() {
    let entries = vec![secret("1", 1), secret("2", 2), secret("1", 3)];
    let plan = put_msg_secrets(&entries, 5, &bare());
    assert!(plan.before.is_empty());
    assert!(plan.index.is_some());
    // Wherever it is cut short, no row is without its index entry.
    for left in 0..6 {
        let mut host = Host::new(false);
        host.writes_left = left;
        host.run(put_msg_secrets(&entries, 5, &bare()));
        let indexed = host.texts(META_MSG_SECRET_KEYS);
        for key in host.keys(STORE_MSG_SECRET) {
            assert!(indexed.contains(&key), "{left}: {key}");
        }
    }
    let mut host = Host::new(true);
    host.run(plan);
    assert_eq!(host.texts(META_MSG_SECRET_KEYS), ["c:s:1", "c:s:2"]);
    assert_eq!(
        secret_payload(&host.get(STORE_MSG_SECRET, "c:s:1").unwrap()),
        Some(vec![3; 32])
    );
    let nothing = put_msg_secrets(&Vec::new(), 5, &bare());
    assert!(nothing.index.is_none() && nothing.behind.is_empty());
}

#[test]
fn a_host_without_batches_ends_up_the_same() {
    let entries = vec![secret("1", 1), secret("2", 2), secret("1", 3)];
    let mut one = Host::new(true);
    let mut other = Host::new(false);
    one.run(put_msg_secrets(&entries, 5, &bare()));
    other.run(put_msg_secrets(&entries, 5, &bare()));
    assert_eq!(one.rows, other.rows);
}

fn scanned(host: &Host, keys: Vec<String>, cutoff: i64) -> (Vec<String>, Vec<String>) {
    let mut scan = ExpiryScan::new(keys, cutoff);
    loop {
        let chunk = scan.next_chunk();
        if chunk.is_empty() {
            return scan.finish();
        }
        let found = chunk
            .into_iter()
            .filter_map(|k| host.get(STORE_MSG_SECRET, &k).map(|v| (k, v)))
            .collect();
        scan.answer(&found);
    }
}

#[test]
fn a_sweep_spares_what_was_refreshed() {
    for caps in [bare(), listing()] {
        let mut host = Host::new(true);
        for (id, now) in [("old", 1), ("new", 100), ("saved", 1)] {
            host.run(put_msg_secret(&secret(id, 9), now, &caps));
        }
        let keys = host.keys(STORE_MSG_SECRET);
        let (victims, survivors) = scanned(&host, keys.clone(), 50);
        // One of the victims is written again before the second look.
        host.run(put_msg_secret(&secret("saved", 9), 100, &caps));
        let (victims, revived) = scanned(&host, victims, 50);
        assert_eq!(victims, ["c:s:old"]);
        assert_eq!(revived, ["c:s:saved"]);
        for w in sweep_msg_secrets(keys.len(), victims, survivors, revived, &caps) {
            host.write(w);
        }
        assert_eq!(host.keys(STORE_MSG_SECRET), ["c:s:new", "c:s:saved"]);
        if !caps.enumerate {
            assert_eq!(host.texts(META_MSG_SECRET_KEYS), ["c:s:new", "c:s:saved"]);
        }
    }
    // Nothing expired: nothing is written.
    let none = sweep_msg_secrets(1, Vec::new(), vec!["k".to_owned()], Vec::new(), &bare());
    assert!(none.is_empty());
}

#[test]
fn a_sent_message_is_taken_once() {
    let mut host = Host::new(true);
    host.write(store_sent_message("chat", "1", b"payload", 7));
    let key = sent_key_of("chat", "1");
    let row = host.get(STORE_SENT_MESSAGE, &key);
    let (payload, w) = take_sent_message("chat", "1", row.as_deref()).unwrap();
    assert_eq!(payload, b"payload");
    host.write(w);
    assert_eq!(host.get(STORE_SENT_MESSAGE, &key), None);
    assert_eq!(take_sent_message("chat", "1", None), None);
    let empty = stamped(7, b"");
    assert_eq!(take_sent_message("chat", "1", Some(&empty)), None);
}

#[test]
fn signed_keys_come_and_go_with_their_index() {
    let mut host = Host::new(true);
    host.run(store_signed_prekey(7, b"record", &bare()));
    host.run(store_signed_prekey(8, b"other", &bare()));
    host.run(store_signed_prekey(7, b"again", &bare()));
    assert_eq!(host.get(STORE_SIGNED_PREKEY, "7"), Some(b"again".to_vec()));
    let ids = |host: &Host| -> Vec<u32> {
        serde_json::from_slice(&host.get(STORE_META, META_SIGNED_PREKEY_IDS).unwrap()).unwrap()
    };
    assert_eq!(ids(&host), [7, 8]);
    assert_eq!(host.get(STORE_META, META_SIGNED_PREKEY_IDS).unwrap(), b"[7,8]");
    host.run(remove_signed_prekey(7, &bare()));
    assert_eq!(ids(&host), [8]);
    assert_eq!(host.get(STORE_SIGNED_PREKEY, "7"), None);
    let plan = store_signed_prekey(7, b"record", &listing());
    assert!(plan.index.is_none());
}

#[test]
fn the_highest_prekey_on_record_never_falls() {
    let mut host = Host::new(false);
    host.run(store_prekeys_batch(&vec![
        (11, b"first record".to_vec()),
        (12, b"second record".to_vec()),
    ]));
    assert_eq!(host.get(STORE_PREKEY, "11"), Some(b"first record".to_vec()));
    assert_eq!(host.get(STORE_PREKEY, "12"), Some(b"second record".to_vec()));
    let max = |host: &Host| max_prekey_id(host.get(STORE_META, META_MAX_PREKEY_ID).as_deref());
    assert_eq!(max(&host), 12);
    host.run(store_prekeys_batch(&vec![(3, b"low".to_vec())]));
    assert_eq!(max(&host), 12);
    host.run(store_prekeys_batch(&Vec::new()));
    assert_eq!(max(&host), 12);
}

fn mac(byte: u8) -> MutationMac {
    MutationMac {
        index_mac: vec![byte],
        value_mac: vec![byte, byte],
    }
}

#[test]
fn a_cleared_collection_leaves_its_neighbours() {
    for caps in [
        bare(),
        listing(),
        HostCapabilities::new(true, true, false, false),
        HostCapabilities::new(false, false, true, true),
    ] {
        let mut host = Host::new(false);
        host.run(put_mutation_macs("regular", &vec![mac(1), mac(2)], &caps));
        host.run(put_mutation_macs("regular_high", &vec![mac(1)], &caps));
        assert_eq!(
            host.get(STORE_MUTATION_MAC, "regular:01"),
            Some(vec![1, 1])
        );
        let keys = if caps.enumerate {
            host.keys(STORE_MUTATION_MAC)
        } else {
            host.texts(MUTATION_MAC_INDEX)
        };
        host.run(clear_mutation_macs("regular", &caps, &keys));
        assert_eq!(host.keys(STORE_MUTATION_MAC), ["regular_high:01"]);
        if !caps.enumerate {
            assert_eq!(host.texts(MUTATION_MAC_INDEX), ["regular_high:01"]);
        }
        let keys = host.keys(STORE_MUTATION_MAC);
        host.run(clear_mutation_macs("regular_high", &caps, &keys));
        assert!(host.keys(STORE_MUTATION_MAC).is_empty());
        assert_eq!(host.get(STORE_META, MUTATION_MAC_INDEX), None);
    }
}

#[test]
fn deleted_codes_leave_their_index() {
    let mut host = Host::new(true);
    host.run(put_mutation_macs("n", &vec![mac(1), mac(2)], &bare()));
    host.run(delete_mutation_macs("n", &vec![vec![1], vec![9]], &bare()));
    assert_eq!(host.keys(STORE_MUTATION_MAC), ["n:02"]);
    assert_eq!(host.texts(MUTATION_MAC_INDEX), ["n:02"]);
    assert!(put_mutation_macs("n", &Vec::new(), &bare()).index.is_none());
    assert!(delete_mutation_macs("n", &Vec::new(), &bare()).index.is_none());
}

#[test]
fn sender_key_devices_are_kept_by_group() {
    let mut host = Host::new(true);
    let status = |jid: &str, b: bool| (jid.to_owned(), b);
    let mut put = |host: &mut Host, group: &str, entries: Vec<(String, bool)>| {
        let stored = host.get(STORE_SENDER_KEY_DEVICES, group);
        let plan = put_sender_key_status(group, stored.as_deref(), &entries, &bare()).unwrap();
        host.run(plan);
    };
    put(&mut host, "g1", vec![status("a", true), status("b", false)]);
    put(&mut host, "g1", vec![status("b", true)]);
    put(&mut host, "g2", vec![status("a", true)]);
    let devices = |host: &Host, group: &str| -> Vec<(String, bool)> {
        serde_json::from_slice(&host.get(STORE_SENDER_KEY_DEVICES, group).unwrap()).unwrap()
    };
    assert_eq!(devices(&host, "g1"), [status("a", true), status("b", true)]);
    assert_eq!(host.texts(META_SENDER_KEY_GROUPS), ["g1", "g2"]);
    for group in ["g1", "g2"] {
        let stored = host.get(STORE_SENDER_KEY_DEVICES, group);
        let w = delete_sender_key_devices(group, stored.as_deref(), &vec!["b".to_owned()]);
        if let Some(w) = w.unwrap() {
            assert_eq!(group, "g1");
            host.write(w);
        }
    }
    assert_eq!(devices(&host, "g1"), [status("a", true)]);
    host.run(clear_sender_key_devices("g1", &bare()));
    assert_eq!(host.texts(META_SENDER_KEY_GROUPS), ["g2"]);
    let groups = host.texts(META_SENDER_KEY_GROUPS);
    for w in clear_all_sender_key_devices(&bare(), &groups) {
        host.write(w);
    }
    assert!(host.rows.is_empty());
    let e = put_sender_key_status("g", Some(b"{}"), &Vec::new(), &bare())
        .err()
        .unwrap();
    assert_eq!(e.message(), "deserialize sender_key_devices/g");
}

#[test]
fn a_mapping_is_found_from_both_ends() {
    let mut host = Host::new(true);
    let lid = "L".to_owned();
    host.run(put_lid_mapping(
        &None,
        &lid,
        &"1".to_owned(),
        b"one".to_vec(),
        &bare(),
    ));
    host.run(put_lid_mapping(
        &Some("1".to_owned()),
        &lid,
        &"2".to_owned(),
        b"two".to_vec(),
        &bare(),
    ));
    assert_eq!(host.get(STORE_LID_MAPPING, "pn:1"), None);
    assert_eq!(host.get(STORE_LID_MAPPING, "pn:2"), Some(b"L".to_vec()));
    assert_eq!(host.get(STORE_LID_MAPPING, "lid:L"), Some(b"two".to_vec()));
    assert_eq!(host.texts(META_LID_LIST), ["L"]);
}

#[test]
fn dead_tokens_go_and_live_ones_stay_indexed() {
    let mut host = Host::new(true);
    for jid in ["a", "b", "c"] {
        host.run(put_tc_token(&jid.to_owned(), b"t".to_vec()));
    }
    host.run(delete_tc_token(&"b".to_owned()));
    assert_eq!(host.texts(META_TC_TOKEN_JIDS), ["a", "c"]);
    let row = |jid: &str, token_timestamp: Option<i64>| TokenRow {
        jid: jid.to_owned(),
        times: token_timestamp.map(|t| TokenTimes {
            has_token: true,
            token_timestamp: t,
            sender_timestamp: None,
        }),
    };
    let rows = vec![row("a", Some(1)), row("c", Some(9)), row("gone", None)];
    let (deleted, writes) = delete_expired_tc_tokens(&rows, 5, 5);
    assert_eq!(deleted, 1);
    // Row by row, the same rows go.
    let singly: Vec<HostWrite> = rows
        .iter()
        .filter_map(|row| expired_token_write(row, 5, 5))
        .collect();
    assert_eq!(singly, writes[..1]);
    for w in writes {
        host.write(w);
    }
    assert_eq!(host.keys(STORE_TC_TOKEN), ["c"]);
    assert_eq!(host.texts(META_TC_TOKEN_JIDS), ["c"]);
}

#[test]
fn expired_sent_messages_go_at_once() {
    assert!(delete_sent_messages(Vec::new()).is_none());
    assert_eq!(
        delete_sent_messages(vec!["a".to_owned(), "b".to_owned()]),
        Some(HostWrite::RemoveMany {
            store: STORE_SENT_MESSAGE,
            keys: vec!["a".to_owned(), "b".to_owned()],
        })
    );
}

#[test]
fn the_newest_sync_key_is_on_record() {
    let mut host = Host::new(true);
    for w in set_sync_key(&[0, 0xab], b"record".to_vec()) {
        host.write(w);
    }
    assert_eq!(host.get(STORE_SYNC_KEY, "00ab"), Some(b"record".to_vec()));
    assert_eq!(
        host.get(STORE_META, "latest_sync_key_id"),
        Some(vec![0, 0xab])
    );
}

#[test]
fn an_index_that_is_no_list_stops_the_change() {
    let plan = put_msg_secret(&secret("1", 7), 100, &bare());
    let e = plan.index.unwrap().writes(Some(b"broken")).err().unwrap();
    assert_eq!(e.message(), "deserialize meta/msg_secret_keys");
    let plan = store_signed_prekey(1, b"", &bare());
    assert!(plan.index.unwrap().writes(Some(b"[\"x\"]")).is_err());
}
