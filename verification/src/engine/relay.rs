//! Where a call's relay is, and what a relay channel of the host's tells the
//! engine.

use vstd::prelude::*;
use vstd::utf8::{decode_utf8, valid_utf8};
use wacore::voip::relay_parse::token_to_ice_ufrag;

use crate::engine::neutral::MediaSessionSpec;
use crate::js_relay::{RelayDisconnectReason, RelayEndpointParams, RelayTransportEvent};

verus! {

/// The event of a channel that ended: with a text, reading from it failed.
pub fn on_close(reason: Option<String>) -> (event: RelayTransportEvent)
    ensures
        event == RelayTransportEvent::Disconnected(
            match reason {
                Some(text) => RelayDisconnectReason::ReadError(text),
                None => RelayDisconnectReason::Closed,
            },
        ),
{
    match reason {
        Some(text) => RelayTransportEvent::Disconnected(RelayDisconnectReason::ReadError(text)),
        None => RelayTransportEvent::Disconnected(RelayDisconnectReason::Closed),
    }
}

/// The complaint about a connection that lacks a method.
pub fn missing_method(name: &str) -> (s: String)
    ensures
        s@ == "relay connection has no "@ + name@,
{
    let mut s = "relay connection has no ".to_owned();
    s.push_str(name);
    s
}

/// The milliseconds that a timer is set to: the host takes no more than fit in
/// 31 bits.
pub fn timeout_millis(millis: u128) -> (n: i32)
    ensures
        n == if millis > i32::MAX {
            i32::MAX as int
        } else {
            millis as int
        },
{
    if millis > i32::MAX as u128 {
        i32::MAX
    } else {
        millis as i32
    }
}

/// The user fragment that a relay's token makes.
pub uninterp spec fn ufrag_of(token: Seq<u8>) -> Seq<char>;

/// [`token_to_ice_ufrag`]: it follows from the token alone, and an empty token
/// makes an empty one.
#[verifier::external_body]
fn ufrag(token: &[u8]) -> (text: String)
    ensures
        text@ == ufrag_of(token@),
        token@.len() == 0 ==> text@.len() == 0,
{
    token_to_ice_ufrag(token)
}

/// The text of some bytes, with replacement characters where they are none.
pub uninterp spec fn lossy_text(bytes: Seq<u8>) -> Seq<char>;

/// [`String::from_utf8_lossy`]: bytes that are a text are that text.
#[verifier::external_body]
fn text_of(bytes: &[u8]) -> (text: String)
    ensures
        text@ == lossy_text(bytes@),
        valid_utf8(bytes@) ==> text@ == decode_utf8(bytes@),
{
    String::from_utf8_lossy(bytes).into_owned()
}

/// Where a session's relay is, and the credentials that it is joined with.
pub fn relay_endpoint(spec: &MediaSessionSpec) -> (params: RelayEndpointParams)
    ensures
        params.address@ == spec.relay_ip@,
        params.port == spec.relay_port,
        params.ice_ufrag@ == ufrag_of(spec.auth_token@),
        params.ice_pwd@ == lossy_text(spec.integrity_key@),
        valid_utf8(spec.integrity_key@) ==> params.ice_pwd@ == decode_utf8(spec.integrity_key@),
{
    RelayEndpointParams {
        address: spec.relay_ip.clone(),
        port: spec.relay_port,
        ice_ufrag: ufrag(spec.auth_token.as_slice()),
        ice_pwd: text_of(spec.integrity_key.as_slice()),
    }
}

} // verus!
