//! How store keys are spelled and matched.

use vstd::prelude::*;
use vstd::utf8::encode_utf8;

use crate::messages::fields::views;
use crate::text::{hex, hex_is_injective, parse_u32, to_hex, u32_of_text};

verus! {

/// [`String::shrink_to_fit`] leaves the text as it is.
pub assume_specification[ String::shrink_to_fit ](s: &mut String)
    ensures
        final(s)@ == old(s)@,
;

/// Key components, joined by `:`.
pub open spec fn joined_key(parts: Seq<Seq<char>>) -> Seq<char>
    decreases parts.len(),
{
    if parts.len() == 0 {
        Seq::empty()
    } else if parts.len() == 1 {
        parts[0]
    } else {
        joined_key(parts.drop_last()) + ":"@ + parts.last()
    }
}

/// The components of a key, as texts.
pub open spec fn part_views(parts: Seq<&str>) -> Seq<Seq<char>> {
    Seq::new(parts.len(), |i: int| parts[i]@)
}

/// Join store-key components, without spare capacity: the key is carried
/// through batch and host-boundary calls.
pub fn compound_store_key(parts: &[&str]) -> (key: String)
    ensures
        key@ == joined_key(part_views(parts@)),
{
    let ghost all = part_views(parts@);
    let mut key = String::new();
    let mut i: usize = 0;
    assert(all.take(0) =~= Seq::empty());
    while i < parts.len()
        invariant
            i <= parts.len(),
            all == part_views(parts@),
            key@ == joined_key(all.take(i as int)),
        decreases parts.len() - i,
    {
        proof {
            assert(all.take(i + 1).drop_last() =~= all.take(i as int));
            assert(all.take(i + 1).last() == parts@[i as int]@);
        }
        if i != 0 {
            key.push_str(":");
        }
        key.push_str(parts[i]);
        proof {
            if i == 0 {
                assert(key@ =~= parts@[0]@);
            }
        }
        i += 1;
    }
    assert(all.take(i as int) =~= all);
    key.shrink_to_fit();
    key
}

/// Whether an address is the user's: the user part, then `@` or `:`.
pub open spec fn address_of_user(address: Seq<u8>, user: Seq<u8>) -> bool {
    &&& user.len() < address.len()
    &&& address.take(user.len() as int) == user
    &&& address[user.len() as int] == 0x40 || address[user.len() as int] == 0x3a
}

/// Whether a signal address belongs to a user. A longer user that only starts
/// alike does not match.
pub fn signal_address_matches_user(address: &str, user: &str) -> (b: bool)
    ensures
        b == address_of_user(encode_utf8(address@), encode_utf8(user@)),
{
    let a = address.as_bytes();
    let u = user.as_bytes();
    if u.len() >= a.len() {
        return false;
    }
    let mut i: usize = 0;
    while i < u.len()
        invariant
            i <= u.len(),
            u.len() < a.len(),
            a@ == encode_utf8(address@),
            u@ == encode_utf8(user@),
            forall|j: int| 0 <= j < i ==> a@[j] == u@[j],
        decreases u.len() - i,
    {
        if a[i] != u[i] {
            assert(a@.take(u@.len() as int)[i as int] != u@[i as int]);
            return false;
        }
        i += 1;
    }
    assert(a@.take(u@.len() as int) =~= u@);
    a[u.len()] == 0x40 || a[u.len()] == 0x3a
}

/// Whether any of the listed addresses is the user's.
pub fn any_address_matches(addresses: &Vec<String>, user: &str) -> (b: bool)
    ensures
        b == exists|i: int|
            0 <= i < addresses@.len() && address_of_user(
                encode_utf8(#[trigger] addresses@[i]@),
                encode_utf8(user@),
            ),
{
    let mut i: usize = 0;
    while i < addresses.len()
        invariant
            i <= addresses.len(),
            forall|j: int|
                0 <= j < i ==> !address_of_user(
                    encode_utf8(#[trigger] addresses@[j]@),
                    encode_utf8(user@),
                ),
        decreases addresses.len() - i,
    {
        if signal_address_matches_user(addresses[i].as_str(), user) {
            return true;
        }
        i += 1;
    }
    false
}

/// The key of a mutation MAC: its collection, then the index MAC in hex.
pub open spec fn mutation_key(name: Seq<char>, index_mac: Seq<u8>) -> Seq<char> {
    name + ":"@ + hex(index_mac)
}

/// The key of a mutation MAC.
pub fn mutation_mac_key(name: &str, index_mac: &[u8]) -> (key: String)
    ensures
        key@ == mutation_key(name@, index_mac@),
{
    let mut key = name.to_owned();
    key.push_str(":");
    key.push_str(to_hex(index_mac).as_str());
    key
}

/// A fixed prefix, then a text.
pub fn prefixed(prefix: &str, text: &str) -> (key: String)
    ensures
        key@ == prefix@ + text@,
{
    let mut key = prefix.to_owned();
    key.push_str(text);
    key
}

/// A text behind its prefix, where it has that prefix.
pub open spec fn unprefixed(key: Seq<char>, prefix: Seq<char>) -> Option<Seq<char>> {
    if prefix.len() <= key.len() && key.take(prefix.len() as int) == prefix {
        Some(key.skip(prefix.len() as int))
    } else {
        None
    }
}

/// Whether a key has a prefix.
pub fn has_prefix(key: &str, prefix: &str) -> (b: bool)
    ensures
        b == (unprefixed(key@, prefix@) is Some),
{
    let n: usize = prefix.unicode_len();
    if n > key.unicode_len() {
        return false;
    }
    let mut i: usize = 0;
    while i < n
        invariant
            i <= n,
            n == prefix@.len(),
            n <= key@.len(),
            forall|j: int| 0 <= j < i ==> key@[j] == prefix@[j],
        decreases n - i,
    {
        if key.get_char(i) != prefix.get_char(i) {
            assert(key@.take(n as int)[i as int] != prefix@[i as int]);
            return false;
        }
        i += 1;
    }
    assert(key@.take(n as int) =~= prefix@);
    true
}

/// The texts behind a prefix, for the keys that have it, in order.
pub open spec fn behind_prefix(keys: Seq<Seq<char>>, prefix: Seq<char>) -> Seq<Seq<char>>
    decreases keys.len(),
{
    if keys.len() == 0 {
        Seq::empty()
    } else {
        let before = behind_prefix(keys.drop_last(), prefix);
        match unprefixed(keys.last(), prefix) {
            Some(rest) => before.push(rest),
            None => before,
        }
    }
}

/// The bare names behind a prefix. A key without it is left out.
pub fn strip_prefixes(keys: &Vec<String>, prefix: &str) -> (out: Vec<String>)
    ensures
        views(out@) == behind_prefix(views(keys@), prefix@),
{
    let ghost all = views(keys@);
    let mut out: Vec<String> = Vec::new();
    let n: usize = prefix.unicode_len();
    let mut i: usize = 0;
    proof {
        assert(all.take(0) =~= Seq::empty());
        assert(views(out@) =~= Seq::empty());
    }
    while i < keys.len()
        invariant
            i <= keys.len(),
            n == prefix@.len(),
            all == views(keys@),
            views(out@) == behind_prefix(all.take(i as int), prefix@),
        decreases keys.len() - i,
    {
        let ghost before = out@;
        proof {
            assert(all.take(i + 1).drop_last() =~= all.take(i as int));
            assert(all.take(i + 1).last() == keys@[i as int]@);
        }
        let key = keys[i].as_str();
        if has_prefix(key, prefix) {
            let rest = key.substring_char(n, key.unicode_len()).to_owned();
            out.push(rest);
            proof {
                assert(rest@ =~= key@.skip(n as int));
                assert(views(out@) =~= views(before).push(rest@));
            }
        }
        i += 1;
    }
    assert(all.take(i as int) =~= all);
    out
}

/// The numbers that keys name, without the keys that name none, in order.
pub open spec fn named_numbers(keys: Seq<Seq<char>>) -> Seq<u32>
    decreases keys.len(),
{
    if keys.len() == 0 {
        Seq::empty()
    } else {
        let before = named_numbers(keys.drop_last());
        match u32_of_text(keys.last()) {
            Some(n) => before.push(n),
            None => before,
        }
    }
}

/// The signed pre-key ids among a store's keys.
pub fn ids_from_keys(keys: &Vec<String>) -> (ids: Vec<u32>)
    ensures
        ids@ == named_numbers(views(keys@)),
{
    let ghost all = views(keys@);
    let mut ids: Vec<u32> = Vec::new();
    let mut i: usize = 0;
    assert(all.take(0) =~= Seq::empty());
    while i < keys.len()
        invariant
            i <= keys.len(),
            all == views(keys@),
            ids@ == named_numbers(all.take(i as int)),
        decreases keys.len() - i,
    {
        proof {
            assert(all.take(i + 1).drop_last() =~= all.take(i as int));
            assert(all.take(i + 1).last() == keys@[i as int]@);
        }
        match parse_u32(keys[i].as_str()) {
            Some(n) => ids.push(n),
            None => {},
        }
        i += 1;
    }
    assert(all.take(i as int) =~= all);
    ids
}

/// Within a collection, different indexes have different keys.
pub proof fn indexes_do_not_collide(name: Seq<char>, a: Seq<u8>, b: Seq<u8>)
    requires
        a != b,
    ensures
        mutation_key(name, a) != mutation_key(name, b),
{
    hex_is_injective(a, b);
    let n = (name + ":"@).len() as int;
    assert(mutation_key(name, a).skip(n) =~= hex(a));
    assert(mutation_key(name, b).skip(n) =~= hex(b));
}

/// A cleared collection never reaches into another one: where two names
/// differ, no key of the one has the other's prefix, unless a name itself
/// contains the separator.
pub proof fn collections_do_not_overlap(name: Seq<char>, other: Seq<char>, index_mac: Seq<u8>)
    requires
        name != other,
        !name.contains(':'),
        !other.contains(':'),
    ensures
        unprefixed(mutation_key(other, index_mac), name + ":"@) is None,
{
    reveal_strlit(":");
    let key = mutation_key(other, index_mac);
    let prefix = name + ":"@;
    if prefix.len() <= key.len() && key.take(prefix.len() as int) == prefix {
        assert(key.take(prefix.len() as int)[name.len() as int] == ':');
        if name.len() < other.len() {
            assert(key[name.len() as int] == other[name.len() as int]);
            assert(other.contains(':'));
        } else if name.len() == other.len() {
            assert(name =~= other) by {
                assert forall|i: int| 0 <= i < name.len() implies name[i] == other[i] by {
                    assert(key.take(prefix.len() as int)[i] == prefix[i]);
                }
            }
        } else {
            assert(key[other.len() as int] == ':');
            assert(prefix[other.len() as int] == name[other.len() as int]);
            assert(key.take(prefix.len() as int)[other.len() as int] == prefix[other.len() as int]);
            assert(name.contains(':'));
        }
    }
}

} // verus!
