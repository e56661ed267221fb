//! What is left out of a host object, and what stays.

use vstd::prelude::*;

use crate::camel_serializer::{
    all_bytes, bytes_of, first_at, is_number_zero, known_server, list_of, place_of, properties,
    server_part, with_property, Defaults, HostValue, JID_CACHE_MAX, JID_TEXT_MAX,
};

verus! {

/// A property that was set is found again with its value, and no other
/// property changes.
pub proof fn a_set_property_is_found(
    fields: Seq<(Seq<char>, HostValue)>,
    name: Seq<char>,
    value: HostValue,
    other: Seq<char>,
)
    ensures
        ({
            let after = with_property(fields, name, value);
            &&& place_of(after, name) matches Some(i) && 0 <= i < after.len() && after[i] == (
                name,
                value,
            )
            &&& other != name ==> place_of(after, other) == place_of(fields, other)
            &&& other != name ==> (place_of(fields, other) matches Some(i) ==> after[i]
                == fields[i])
            &&& fields.len() <= after.len() <= fields.len() + 1
        }),
{
    let after = with_property(fields, name, value);
    a_place_is_the_last(fields, name);
    a_place_is_the_last(after, name);
    a_place_is_the_last(fields, other);
    a_place_is_the_last(after, other);
    match place_of(fields, name) {
        Some(i) => {
            assert(after[i] == (name, value));
            if other != name {
                assert forall|j: int| 0 <= j < fields.len() implies (after[j].0 == other <==> (
                #[trigger] fields[j]).0 == other) by {}
                match (place_of(fields, other), place_of(after, other)) {
                    (Some(a), Some(b)) => {
                        assert(fields[a].0 == other && after[b].0 == other);
                        assert(after[a].0 == other && fields[b].0 == other);
                    },
                    (Some(a), None) => {
                        assert(after[a].0 == other);
                    },
                    (None, Some(b)) => {
                        assert(fields[b].0 == other);
                    },
                    (None, None) => {},
                }
            }
        },
        None => {
            assert(after.drop_last() =~= fields);
            assert(after.last() == (name, value));
        },
    }
}

/// The place of a property is the last at which its name stands.
pub proof fn a_place_is_the_last(fields: Seq<(Seq<char>, HostValue)>, name: Seq<char>)
    ensures
        match place_of(fields, name) {
            Some(i) => 0 <= i < fields.len() && fields[i].0 == name && forall|j: int|
                i < j < fields.len() ==> (#[trigger] fields[j]).0 != name,
            None => forall|j: int| 0 <= j < fields.len() ==> (#[trigger] fields[j]).0 != name,
        },
    decreases fields.len(),
{
    if fields.len() > 0 {
        let front = fields.drop_last();
        a_place_is_the_last(front, name);
        if fields.last().0 != name {
            assert forall|j: int|
                0 <= j < fields.len() && (match place_of(front, name) {
                    Some(i) => i < j,
                    None => true,
                }) implies (#[trigger] fields[j]).0 != name by {
                if j < front.len() {
                    assert(front[j] == fields[j]);
                }
            }
        }
    }
}

/// The regular mode leaves out what protobuf cannot tell from unset: false,
/// zero, an empty text or collection, and nothing.
pub proof fn a_default_is_left_out(value: HostValue)
    ensures
        value matches HostValue::Bool(b) ==> (Defaults::Skip.omits(value) <==> b == false),
        value matches HostValue::Int(n) ==> (Defaults::Skip.omits(value) <==> n == 0),
        value matches HostValue::Real { zero, .. } ==> (Defaults::Skip.omits(value) <==> zero),
        value matches HostValue::Long { low, high, .. } ==> (Defaults::Skip.omits(value) <==> (low
            == 0 && high == 0)),
        value matches HostValue::Text(t) ==> (Defaults::Skip.omits(value) <==> t@.len() == 0),
        value matches HostValue::Bytes(b) ==> (Defaults::Skip.omits(value) <==> b@.len() == 0),
        value matches HostValue::List(v) ==> (Defaults::Skip.omits(value) <==> v@.len() == 0),
        value matches HostValue::Object(f) ==> (f@.len() == 0 ==> Defaults::Skip.omits(value)),
        value is Null ==> Defaults::Skip.omits(value),
{
}

/// The keeping mode leaves out nothing but what is not there, and the scalar
/// mode nothing but that and an empty text or collection.
pub proof fn a_supplied_value_is_kept(value: HostValue)
    ensures
        Defaults::Keep.omits(value) <==> value is Null,
        value is Bool || value is Int || value is Real || value is Long
            ==> !Defaults::KeepScalars.omits(value),
        value matches HostValue::Text(t) ==> (Defaults::KeepScalars.omits(value) <==> t@.len()
            == 0),
        value matches HostValue::Bytes(b) ==> (Defaults::KeepScalars.omits(value) <==> b@.len()
            == 0),
        value matches HostValue::List(v) ==> (Defaults::KeepScalars.omits(value) <==> v@.len()
            == 0),
        value matches HostValue::Object(f) ==> (Defaults::KeepScalars.omits(value) <==> f@.len()
            == 0),
{
}

/// Whether an object has a property that is a zero.
pub open spec fn has_zero(fields: Seq<(Seq<char>, HostValue)>, name: Seq<char>) -> bool {
    place_of(fields, name) matches Some(i) && is_number_zero(fields[i].1)
}

/// An object stands for a `Long` of zero exactly with two halves that are zero
/// and a sign, and is then left out as a zero is; nothing else but a `Long`
/// stands for one.
pub proof fn a_zero_long_has_both_halves(value: HostValue)
    ensures
        value matches HostValue::Object(fields) ==> (value.zero_long() <==> has_zero(
            properties(fields@),
            "low"@,
        ) && has_zero(properties(fields@), "high"@) && (place_of(
            properties(fields@),
            "unsigned"@,
        ) matches Some(i) && properties(fields@)[i].1 is Bool)),
        value matches HostValue::Object(fields) ==> (Defaults::Skip.omits(value) <==> fields@.len()
            == 0 || value.zero_long()),
        value matches HostValue::Long { low, high, .. } ==> (value.zero_long() <==> low == 0 && high
            == 0),
        !(value is Object) && !(value is Long) ==> !value.zero_long(),
{
}

/// A text of more than sixty-four bytes is no address, and no more than a
/// thousand and twenty-four are kept.
pub proof fn addresses_are_short_and_few()
    ensures
        JID_TEXT_MAX == 64,
        JID_CACHE_MAX == 1024,
{
}

/// The servers that addresses are on, and no others.
pub proof fn addresses_are_on_known_servers(s: Seq<char>)
    ensures
        known_server(s) <==> (s == "s.whatsapp.net"@ || s == "c.us"@ || s == "lid"@ || s == "g.us"@
            || s == "broadcast"@ || s == "newsletter"@ || s == "call"@ || s == "bot"@ || s
            == "hosted"@ || s == "hosted.lid"@ || s == "msgr"@ || s == "interop"@),
{
}

/// A number is a byte from 0 to 255, and then that byte; a text, a list or
/// anything else never is one.
pub proof fn a_byte_is_a_number_in_range(value: HostValue)
    ensures
        value matches HostValue::Int(n) ==> (value.byte() is Some <==> 0 <= n <= 255) && (
        value.byte() matches Some(b) ==> b as int == n as int),
        !(value is Int) && !(value is Real) ==> value.byte() is None,
        is_number_zero(value) ==> (value is Int || value is Real),
{
}

/// A list keeps the number of its items, and from the first that is no byte on
/// the items themselves; a byte before that is the number that it is.
pub proof fn a_list_keeps_its_items(items: Seq<HostValue>, i: int)
    requires
        0 <= i < items.len(),
    ensures
        list_of(items).len() == items.len(),
        all_bytes(items.take(i + 1)) ==> (list_of(items)[i] matches HostValue::Int(n) && items[i].byte()
            == Some(n as u8) && 0 <= n <= 255),
        !all_bytes(items.take(i + 1)) ==> list_of(items)[i] == items[i],
    decreases items.len(),
{
    let front = items.drop_last();
    if i < front.len() {
        a_list_keeps_its_items(front, i);
        assert(front.take(i + 1) =~= items.take(i + 1));
        assert(front[i] == items[i]);
    } else {
        assert(items.take(i + 1) =~= items);
        if front.len() > 0 {
            a_list_keeps_its_items(front, 0);
        }
        if all_bytes(items) {
            assert(items[i].byte() is Some);
        }
    }
}

/// Bytes come out in the order in which the items were given.
pub proof fn bytes_keep_their_order(items: Seq<HostValue>, i: int)
    requires
        0 <= i < items.len(),
        all_bytes(items),
    ensures
        bytes_of(items).len() == items.len(),
        items[i].byte() == Some(bytes_of(items)[i]),
{
    assert(items[i].byte() is Some);
}

/// The first `@` is one, and none stands before it.
pub proof fn the_first_at_is_first(v: Seq<char>)
    ensures
        match first_at(v) {
            Some(i) => 0 <= i < v.len() && v[i] == '@' && forall|j: int|
                0 <= j < i ==> #[trigger] v[j] != '@',
            None => forall|j: int| 0 <= j < v.len() ==> #[trigger] v[j] != '@',
        },
    decreases v.len(),
{
    if v.len() > 0 {
        let front = v.drop_last();
        the_first_at_is_first(front);
        match first_at(front) {
            Some(i) => {
                assert(front[i] == v[i]);
                assert forall|j: int| 0 <= j < i implies #[trigger] v[j] != '@' by {
                    assert(front[j] == v[j]);
                }
            },
            None => {
                assert forall|j: int| 0 <= j < front.len() implies #[trigger] v[j] != '@' by {
                    assert(front[j] == v[j]);
                }
            },
        }
    }
}

/// An address that is written as a user, an `@` and a server has that server;
/// one without a user has none.
pub proof fn an_address_has_its_server(user: Seq<char>, server: Seq<char>)
    requires
        !user.contains('@'),
    ensures
        user.len() > 0 ==> server_part(user + seq!['@'] + server) == Some(server),
        user.len() == 0 ==> server_part(user + seq!['@'] + server) is None,
        server_part(user) is None,
{
    let v = user + seq!['@'] + server;
    the_first_at_is_first(v);
    the_first_at_is_first(user);
    assert(v[user.len() as int] == '@');
    match first_at(v) {
        Some(i) => {
            if i < user.len() {
                assert(user[i] == '@');
                assert(user.contains('@'));
            }
            assert(v.skip(user.len() as int + 1) =~= server);
        },
        None => {},
    }
    match first_at(user) {
        Some(i) => {
            assert(user.contains(user[i]));
        },
        None => {},
    }
}

} // verus!
