//! How records become host values.

use voip_bridge::camel_serializer::{
    i64_to_long, i64_to_long_parts, is_jid_like, to_camel_case, u64_to_long, u64_to_long_parts,
    variant_value, Defaults, HostValue, Interned, JidCache, MapSerializer, SeqSerializer,
    StructSerializer,
};

fn field<'a>(value: &'a HostValue, key: &str) -> Option<&'a HostValue> {
    match value {
        HostValue::Object(fields) => fields.iter().find(|f| f.0 == key).map(|f| &f.1),
        other => panic!("expected an object, got {other:?}"),
    }
}

fn envelope(defaults: Defaults) -> HostValue {
    let mut s = StructSerializer::new(defaults);
    s.serialize_field("sync_type", HostValue::Int(0));
    s.serialize_field("is_final", HostValue::Bool(false));
    s.serialize_field("progress", HostValue::Int(0));
    s.serialize_field("absent", HostValue::Null);
    s.end()
}

#[test]
fn envelope_mode_preserves_scalar_defaults_but_not_absent_options() {
    let regular = envelope(Defaults::Skip);
    assert_eq!(field(&regular, "syncType"), None);
    assert_eq!(field(&regular, "isFinal"), None);
    assert_eq!(field(&regular, "progress"), None);

    let preserved = envelope(Defaults::Keep);
    assert_eq!(field(&preserved, "syncType"), Some(&HostValue::Int(0)));
    assert_eq!(field(&preserved, "isFinal"), Some(&HostValue::Bool(false)));
    assert_eq!(field(&preserved, "progress"), Some(&HostValue::Int(0)));
    assert_eq!(field(&preserved, "absent"), None);
}

fn sequence(items: Vec<HostValue>) -> HostValue {
    let mut s = SeqSerializer::new();
    for item in items {
        s.serialize_element(item);
    }
    s.end()
}

#[test]
fn sequence_state_preserves_byte_and_array_representations() {
    let bytes = sequence(vec![
        HostValue::Int(1),
        HostValue::Int(2),
        HostValue::Int(255),
    ]);
    assert_eq!(bytes, HostValue::Bytes(vec![1, 2, 255]));

    // Starts as bytes, then turns into a list.
    let wider = sequence(vec![HostValue::Int(1), HostValue::Int(256)]);
    assert_eq!(
        wider,
        HostValue::List(vec![HostValue::Int(1), HostValue::Int(256)])
    );
    assert_eq!(sequence(Vec::new()), HostValue::List(Vec::new()));
}

#[test]
fn a_scalar_mode_keeps_scalars_and_drops_empty_collections() {
    let mut s = StructSerializer::new(Defaults::KeepScalars);
    s.serialize_field("a_number", HostValue::Int(0));
    s.serialize_field("a_text", HostValue::Text(String::new()));
    s.serialize_field("some_bytes", HostValue::Bytes(Vec::new()));
    s.serialize_field("a_list", HostValue::List(Vec::new()));
    s.serialize_field("nothing", HostValue::Null);
    let v = s.end();
    assert_eq!(
        v,
        HostValue::Object(vec![("aNumber".to_owned(), HostValue::Int(0))])
    );
}

#[test]
fn a_regular_mode_drops_every_default() {
    for value in [
        HostValue::Null,
        HostValue::Bool(false),
        HostValue::Int(0),
        HostValue::Text(String::new()),
        HostValue::Bytes(Vec::new()),
        HostValue::List(Vec::new()),
        i64_to_long(0),
        u64_to_long(0),
    ] {
        assert!(value.should_skip(), "{value:?}");
    }
    for value in [
        HostValue::Bool(true),
        HostValue::Int(-1),
        HostValue::Text("x".to_owned()),
        HostValue::Bytes(vec![0]),
        i64_to_long(1 << 32),
        u64_to_long(1),
    ] {
        assert!(!value.should_skip(), "{value:?}");
    }
    assert!(i64_to_long(0).is_zero_long());
    assert!(!i64_to_long(-1).is_zero_long());
    assert!(HostValue::Bytes(Vec::new()).is_empty_collection());
    assert!(HostValue::Null.is_absent());
}

#[test]
fn a_repeated_field_replaces_the_first() {
    let mut s = StructSerializer::new(Defaults::Keep);
    s.serialize_field("a_b", HostValue::Int(1));
    s.serialize_field("c", HostValue::Int(2));
    s.serialize_field("aB", HostValue::Int(3));
    assert_eq!(
        s.end(),
        HostValue::Object(vec![
            ("aB".to_owned(), HostValue::Int(3)),
            ("c".to_owned(), HostValue::Int(2)),
        ])
    );
}

#[test]
fn a_map_keeps_its_spelling() {
    let mut m = MapSerializer::new();
    m.serialize_key(HostValue::Text("snake_key".to_owned()));
    m.serialize_value(HostValue::Int(0));
    m.serialize_key(HostValue::Int(5));
    m.serialize_value(HostValue::Null);
    assert_eq!(
        m.end(),
        HostValue::Object(vec![
            ("snake_key".to_owned(), HostValue::Int(0)),
            (String::new(), HostValue::Null),
        ])
    );
    assert_eq!(
        variant_value("Kind", HostValue::Int(1)),
        HostValue::Object(vec![("Kind".to_owned(), HostValue::Int(1))])
    );
}

#[test]
fn long_halves_are_the_number() {
    assert_eq!(i64_to_long_parts(-1), (u32::MAX, -1));
    assert_eq!(i64_to_long_parts(i64::MIN), (0, i32::MIN));
    assert_eq!(i64_to_long_parts(0x1_0000_0002), (2, 1));
    assert_eq!(u64_to_long_parts(u64::MAX), (u32::MAX, -1));
    assert_eq!(u64_to_long_parts(1 << 63), (0, i32::MIN));
    assert_eq!(
        u64_to_long(7),
        HostValue::Long {
            low: 7,
            high: 0,
            unsigned: true
        }
    );
    assert_eq!(
        i64_to_long(7),
        HostValue::Long {
            low: 7,
            high: 0,
            unsigned: false
        }
    );
}

#[test]
fn names_turn_to_camel_case() {
    for (snake, camel) in [
        ("sync_type", "syncType"),
        ("already", "already"),
        ("alreadyCamel", "alreadyCamel"),
        ("a__b", "aB"),
        ("_leading", "leading"),
        ("trailing_", "trailing"),
        ("", ""),
    ] {
        assert_eq!(to_camel_case(snake), camel);
    }
}

#[test]
fn addresses_are_recognised() {
    assert!(is_jid_like("123@s.whatsapp.net"));
    assert!(is_jid_like("123:4@lid"));
    assert!(!is_jid_like("someone@example.com"));
    assert!(!is_jid_like("no address"));
    assert!(!is_jid_like(""));
}

#[test]
fn an_address_has_one_slot_until_the_cache_is_full() {
    let mut cache = JidCache::new();
    assert_eq!(cache.intern("a"), Interned::Added(0));
    assert_eq!(cache.intern("b"), Interned::Added(1));
    assert_eq!(cache.intern("a"), Interned::Known(0));
    let mut n = 2;
    loop {
        match cache.intern(&format!("k{n}")) {
            Interned::Added(slot) => assert_eq!(slot, n),
            Interned::Restarted => break,
            other => panic!("got {other:?}"),
        }
        n += 1;
    }
    assert_eq!(cache.intern("a"), Interned::Added(1));
}
