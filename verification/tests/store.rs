//! Keys, indexes, stamps and rows of the store.

use voip_bridge::store::expiry::{
    fate_of_value, secret_payload, sent_payload, sent_row, stamped, ExpiryScan, Fate,
};
use voip_bridge::store::index::{
    add_id, add_key, add_keys, clear_prefix, contains_key, drop_key, keys_with_prefix,
    prune_sent_keys, remove_keys, without_id, without_keys, HostCapabilities, IndexWrite, SentRow,
};
use voip_bridge::store::keys::{
    any_address_matches, compound_store_key, has_prefix, ids_from_keys, mutation_mac_key, prefixed,
    signal_address_matches_user, strip_prefixes,
};
use voip_bridge::store::rows::{
    callback_message, identity_key, mapped_lid, max_prekey_id, next_max_prekey_id,
    parse_entry_array,
    parse_key_array, prekey_records, same_base_key, set_sender_key_status, stale_reverse_key,
    without_devices, HostEntry, TokenTimes,
};

fn strings(items: &[&str]) -> Vec<String> {
    items.iter().map(|s| (*s).to_owned()).collect()
}

#[test]
fn a_host_that_cannot_list_assumes_signal_state() {
    let bare = HostCapabilities { enumerate: false, prefix_delete: false };
    let listing = HostCapabilities { enumerate: true, prefix_delete: false };
    assert_eq!(bare.assumed_signal_state(), Some(true));
    assert_eq!(listing.assumed_signal_state(), None);
}

#[test]
fn a_mapping_row_that_is_no_text_points_nowhere() {
    assert_eq!(mapped_lid(b"123@lid"), "123@lid");
    assert_eq!(mapped_lid(&[0x31, 0xff]), "");
}

#[test]
fn joins_components_without_retaining_spare_capacity() {
    let key = compound_store_key(&["chat", "sender", "message"]);
    assert_eq!(key, "chat:sender:message");
    assert_eq!(key.capacity(), key.len());
}

#[test]
fn a_key_of_one_part_or_none_has_no_separator() {
    assert_eq!(compound_store_key(&[]), "");
    assert_eq!(compound_store_key(&["one"]), "one");
    assert_eq!(compound_store_key(&["", ""]), ":");
}

#[test]
fn rejected_error_object_preserves_its_message_in_the_source_chain() {
    let message = callback_message(
        None,
        Some("session projection failed".to_owned()),
        "Error: session projection failed".to_owned(),
    );
    let link = voip_bridge::errors::Link {
        text: "database".to_owned(),
        leaf: voip_bridge::errors::Leaf::Callback {
            context: "setMany".to_owned(),
            message,
        },
    };
    let error = voip_bridge::errors::BridgeError::from_error_chain(&vec![link], false, false);
    assert_eq!(
        error,
        voip_bridge::errors::BridgeError::Storage {
            operation: "JS setMany: session projection failed".to_owned()
        }
    );
}

#[test]
fn a_thrown_text_wins_over_its_rendering() {
    assert_eq!(
        callback_message(Some("t".to_owned()), Some("m".to_owned()), "r".to_owned()),
        "t"
    );
    assert_eq!(callback_message(None, None, "r".to_owned()), "r");
}

#[test]
fn prekey_rows_read_back_by_number() {
    let rows = vec![
        ("11".to_owned(), b"first record".to_vec()),
        ("12".to_owned(), b"second record".to_vec()),
    ];
    assert_eq!(
        prekey_records(&rows),
        Ok(vec![
            (11, b"first record".to_vec()),
            (12, b"second record".to_vec())
        ])
    );
    assert_eq!(
        prekey_records(&vec![("x1".to_owned(), Vec::new())]),
        Err("pre-key store returned a non-numeric id: x1".to_owned())
    );
}

#[test]
fn an_address_belongs_to_its_user_up_to_a_separator() {
    assert!(signal_address_matches_user("123@s.whatsapp.net", "123"));
    assert!(signal_address_matches_user("123:4@s.whatsapp.net", "123"));
    assert!(!signal_address_matches_user("1234@s.whatsapp.net", "123"));
    assert!(!signal_address_matches_user("123", "123"));
    assert!(!signal_address_matches_user("12@x", "123"));
    let addresses = strings(&["999@x", "123:1@x"]);
    assert!(any_address_matches(&addresses, "123"));
    assert!(!any_address_matches(&addresses, "12"));
    assert!(!any_address_matches(&Vec::new(), "123"));
}

#[test]
fn prefixes_are_put_on_and_taken_off() {
    assert_eq!(mutation_mac_key("regular", &[0x0a, 0xff]), "regular:0aff");
    assert_eq!(prefixed("pn:", "1"), "pn:1");
    assert!(has_prefix("pn:1", "pn:"));
    assert!(!has_prefix("pn", "pn:"));
    assert_eq!(
        strip_prefixes(&strings(&["pn:1", "lid:2", "pn:"]), "pn:"),
        strings(&["1", ""])
    );
    assert_eq!(ids_from_keys(&strings(&["7", "x", "4294967295", "4294967296", "+8"])), [
        7, 4294967295, 8
    ]);
}

#[test]
fn an_index_holds_each_key_once() {
    let mut list = strings(&["a"]);
    assert!(add_key(&mut list, &"b".to_owned()));
    assert!(!add_key(&mut list, &"a".to_owned()));
    assert!(add_keys(&mut list, &strings(&["b", "c", "c"])));
    assert!(!add_keys(&mut list, &strings(&["a", "c"])));
    assert_eq!(list, strings(&["a", "b", "c"]));
    assert!(contains_key(&list, &"c".to_owned()));
    assert!(!contains_key(&list, &"d".to_owned()));
}

#[test]
fn an_index_is_rewritten_only_where_it_changed() {
    let list = strings(&["a", "b", "c"]);
    assert_eq!(without_keys(&list, &strings(&["b", "x"])), strings(&["a", "c"]));
    assert_eq!(remove_keys(&list, &strings(&["x"])), IndexWrite::Keep);
    assert_eq!(
        remove_keys(&list, &strings(&["a", "c"])),
        IndexWrite::Rewrite(strings(&["b"]))
    );
    let list = strings(&["g:1", "g:2", "h:1"]);
    assert_eq!(keys_with_prefix(&list, "g:"), strings(&["g:1", "g:2"]));
    assert_eq!(clear_prefix(&list, "x:"), IndexWrite::Keep);
    assert_eq!(
        clear_prefix(&list, "g:"),
        IndexWrite::Rewrite(strings(&["h:1"]))
    );
    assert_eq!(clear_prefix(&strings(&["g:1"]), "g:"), IndexWrite::Delete);
}

#[test]
fn a_dropped_key_leaves_its_place_to_the_last() {
    let mut list = strings(&["a", "b", "c"]);
    assert!(drop_key(&mut list, &"a".to_owned()));
    assert_eq!(list, strings(&["c", "b"]));
    assert!(!drop_key(&mut list, &"a".to_owned()));
    let mut ids = vec![1u32, 2];
    assert!(add_id(&mut ids, 3));
    assert!(!add_id(&mut ids, 1));
    assert_eq!(without_id(&ids, 2), [1, 3]);
}

#[test]
fn a_host_that_lists_its_keys_needs_no_index() {
    assert!(!HostCapabilities::new(true, true, false, false).needs_self_index());
    assert!(HostCapabilities::new(true, false, true, true).needs_self_index());
    assert!(HostCapabilities::new(false, true, true, true).needs_self_index());
}

#[test]
fn pruning_keeps_what_is_kept() {
    let mut keys = strings(&["a", "b", "c", "d", "e"]);
    let deleted = prune_sent_keys(
        &mut keys,
        &vec![
            SentRow::Expired,
            SentRow::Kept,
            SentRow::Gone,
            SentRow::Corrupt,
            SentRow::Kept,
        ],
    );
    assert!(keys.contains(&"b".to_owned()) && keys.contains(&"e".to_owned()));
    assert!(!keys.contains(&"a".to_owned()) && !keys.contains(&"c".to_owned()));
    assert_eq!(deleted, 1);
}

#[test]
fn a_stamp_decides_what_is_expired() {
    let row = stamped(1000, b"payload");
    assert_eq!(row.len(), 8 + 7);
    assert_eq!(row[..8], 1000i64.to_be_bytes());
    assert_eq!(fate_of_value(&row, 1000), Fate::Live);
    assert_eq!(fate_of_value(&row, 1001), Fate::Expired);
    assert_eq!(stamped(-1, b"")[..], (-1i64).to_be_bytes());
    assert_eq!(secret_payload(&row), Some(b"payload".to_vec()));
    assert_eq!(sent_payload(&row), Some(b"payload".to_vec()));
    assert_eq!(secret_payload(&row[..8]), Some(Vec::new()));
    assert_eq!(sent_payload(&row[..8]), None);
    assert_eq!(secret_payload(&row[..7]), None);
}

#[test]
fn a_scan_sorts_its_keys_by_their_fate() {
    let keys = strings(&["old", "new", "gone"]);
    let mut scan = ExpiryScan::new(keys, 100);
    let chunk = scan.next_chunk();
    assert_eq!(chunk, strings(&["old", "new", "gone"]));
    scan.answer(&vec![
        ("new".to_owned(), stamped(100, b"x")),
        ("old".to_owned(), stamped(99, b"x")),
    ]);
    assert!(scan.next_chunk().is_empty());
    let (victims, survivors) = scan.finish();
    assert_eq!(victims, strings(&["old"]));
    assert_eq!(survivors, strings(&["new"]));
}

#[test]
fn a_scan_goes_through_its_keys_in_chunks() {
    let keys: Vec<String> = (0..1000).map(|n| format!("k{n}")).collect();
    let mut scan = ExpiryScan::new(keys.clone(), 5);
    let mut seen = Vec::new();
    loop {
        let chunk = scan.next_chunk();
        if chunk.is_empty() {
            break;
        }
        let found = chunk
            .iter()
            .map(|k| (k.clone(), stamped(9, b"v")))
            .collect();
        seen.extend(chunk);
        scan.answer(&found);
    }
    assert_eq!(seen, keys);
    assert_eq!(scan.finish(), (Vec::new(), keys));
}

#[test]
fn an_identity_is_exactly_a_key() {
    assert_eq!(identity_key("a@x", &vec![7; 32]), Ok([7; 32]));
    let e = identity_key("a@x", &vec![7; 31]).err().unwrap();
    assert!(e.starts_with("identity key for a@x"), "{e}");
    assert!(e.contains("31"), "{e}");
}

#[test]
fn the_highest_prekey_covers_all() {
    assert_eq!(max_prekey_id(None), 0);
    assert_eq!(max_prekey_id(Some(b"12")), 12);
    assert_eq!(max_prekey_id(Some(b"x")), 0);
    assert_eq!(max_prekey_id(Some(&[0xff])), 0);
    assert_eq!(next_max_prekey_id(&vec![3, 9, 4], 7), 9);
    assert_eq!(next_max_prekey_id(&Vec::new(), 7), 7);
}

#[test]
fn sender_key_statuses_read_back() {
    let mut devices = vec![("a".to_owned(), false), ("b".to_owned(), true)];
    set_sender_key_status(
        &mut devices,
        &vec![("a".to_owned(), true), ("c".to_owned(), false)],
    );
    assert_eq!(
        devices,
        vec![
            ("a".to_owned(), true),
            ("b".to_owned(), true),
            ("c".to_owned(), false)
        ]
    );
    assert_eq!(
        without_devices(&devices, &strings(&["b"])),
        Some(vec![("a".to_owned(), true), ("c".to_owned(), false)])
    );
    assert_eq!(without_devices(&devices, &strings(&["x"])), None);
}

#[test]
fn a_token_lives_by_either_of_its_times() {
    let times = |has_token, token_timestamp, sender_timestamp| TokenTimes {
        has_token,
        token_timestamp,
        sender_timestamp,
    };
    assert!(times(true, 10, None).is_live(10, 10));
    assert!(!times(true, 9, None).is_live(10, 10));
    assert!(!times(false, 10, None).is_live(10, 10));
    assert!(times(false, 0, Some(10)).is_live(10, 10));
    assert!(!times(false, 0, Some(9)).is_live(10, 10));
}

#[test]
fn a_moved_number_leaves_a_stale_key() {
    let old = Some("1".to_owned());
    assert_eq!(
        stale_reverse_key(&old, &"2".to_owned()),
        Some("pn:1".to_owned())
    );
    assert_eq!(stale_reverse_key(&old, &"1".to_owned()), None);
    assert_eq!(stale_reverse_key(&None, &"1".to_owned()), None);
    assert!(same_base_key(&Some(vec![1, 2]), &[1, 2]));
    assert!(!same_base_key(&Some(vec![1]), &[1, 2]));
    assert!(!same_base_key(&None, &[]));
}

#[test]
fn identity_pairs_read_back_in_order() {
    let identities = [
        ("5511999@s.whatsapp.net:0", [7u8; 32]),
        ("5511888@s.whatsapp.net:3", [9u8; 32]),
    ];
    let listing = identities
        .iter()
        .map(|(address, key)| {
            Some(HostEntry {
                key: Some((*address).to_owned()),
                value: Some(key.to_vec()),
            })
        })
        .collect();
    let entries = parse_entry_array(Some(listing)).unwrap();
    assert_eq!(entries.len(), 2);
    for (index, (address, key)) in identities.iter().enumerate() {
        assert_eq!(entries[index].0, *address);
        assert_eq!(entries[index].1, key.as_slice());
    }
}

#[test]
fn a_listing_is_taken_whole_or_not_at_all() {
    assert_eq!(parse_key_array(None), Err("expected array"));
    assert_eq!(
        parse_key_array(Some(vec![Some("a".to_owned()), None])),
        Err("non-string key in result")
    );
    assert_eq!(
        parse_key_array(Some(vec![Some("a".to_owned())])),
        Ok(strings(&["a"]))
    );
    assert_eq!(parse_entry_array(None), Err("expected array"));
    assert_eq!(
        parse_entry_array(Some(vec![None])),
        Err("malformed [key, value] entry")
    );
}

#[test]
fn a_look_at_a_sent_message_meets_its_fate() {
    let row = stamped(100, b"payload");
    assert_eq!(sent_row(None, 100), SentRow::Gone);
    assert_eq!(sent_row(Some(&row), 100), SentRow::Kept);
    assert_eq!(sent_row(Some(&row), 101), SentRow::Expired);
    assert_eq!(sent_row(Some(&row[..7]), 0), SentRow::Corrupt);
    assert!(SentRow::Expired.deletes() && SentRow::Corrupt.deletes());
    assert!(!SentRow::Gone.deletes() && !SentRow::Kept.deletes());
}
