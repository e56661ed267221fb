//! Payloads that ride on the secret of another message: votes on a poll, and
//! responses to an event.
//!
//! The core derives the key and the authenticated data, and has the active
//! crypto provider open the payload.

use vstd::prelude::*;
use wacore::event::decrypt_event_response_payload_with_secret;
use wacore::poll::{decrypt_poll_vote_payload_with_secret, PollVoteCiphertext};

use crate::text::decimal;

verus! {

/// Bytes of a message's secret.
pub const MESSAGE_SECRET_BYTES: usize = 32;

/// Bytes of a payload's initialisation vector.
pub const ADDON_IV_BYTES: usize = 12;

/// Bytes of the tag that a payload ends with.
pub const ADDON_TAG_BYTES: usize = 16;

/// What the sizes of a payload's parts are refused with, the secret's first.
pub open spec fn addon_refusal(
    enc_payload: Seq<u8>,
    enc_iv: Seq<u8>,
    message_secret: Seq<u8>,
) -> Option<Seq<char>> {
    if message_secret.len() != MESSAGE_SECRET_BYTES {
        Some("message_secret must be 32 bytes, got "@ + decimal(message_secret.len()))
    } else if enc_iv.len() != ADDON_IV_BYTES {
        Some("Invalid IV size: expected 12, got "@ + decimal(enc_iv.len()))
    } else if enc_payload.len() < ADDON_TAG_BYTES {
        Some(
            "Encrypted payload too short: need at least 16 bytes for tag, got "@ + decimal(
                enc_payload.len(),
            ),
        )
    } else {
        None
    }
}

/// What is said of a payload whose tag does not match.
pub open spec fn unauthentic() -> Seq<char> {
    "Addon GCM tag verification failed"@
}

/// The plaintext that an opening came to, if it came to one.
pub open spec fn plaintext_of(res: Result<Vec<u8>, String>) -> Option<Seq<u8>> {
    match res {
        Ok(bytes) => Some(bytes@),
        Err(_) => None,
    }
}

/// What an opening was refused with, if it was.
pub open spec fn refusal_of(res: Result<Vec<u8>, String>) -> Option<Seq<char>> {
    match res {
        Ok(_) => None,
        Err(text) => Some(text@),
    }
}

/// Whether opening this vote, of this voter on this creator's poll, may come to
/// this plaintext, or to none. The active provider decides, and providers
/// differ.
pub uninterp spec fn may_open_vote(
    sealed: (Seq<u8>, Seq<u8>),
    message_secret: Seq<u8>,
    stanza_id: Seq<char>,
    poll_creator_jid: Seq<char>,
    voter_jid: Seq<char>,
    plaintext: Option<Seq<u8>>,
) -> bool;

/// Whether opening this response, of this responder to this creator's event,
/// may come to this plaintext, or to none. The active provider decides, and
/// providers differ.
pub uninterp spec fn may_open_response(
    sealed: (Seq<u8>, Seq<u8>),
    message_secret: Seq<u8>,
    stanza_id: Seq<char>,
    event_creator_jid: Seq<char>,
    responder_jid: Seq<char>,
    plaintext: Option<Seq<u8>>,
) -> bool;

/// [`decrypt_poll_vote_payload_with_secret`], its error rendered: parts of the
/// wrong size are refused, and so is a payload that the active provider does
/// not open. Which it opens, and to which bytes, is not stated.
#[verifier::external_body]
fn open_vote(
    enc_payload: &[u8],
    enc_iv: &[u8],
    message_secret: &[u8],
    stanza_id: &str,
    poll_creator_jid: &str,
    voter_jid: &str,
) -> (res: Result<Vec<u8>, String>)
    requires
        enc_payload@.len() <= u32::MAX,
    ensures
        match addon_refusal(enc_payload@, enc_iv@, message_secret@) {
            Some(text) => refusal_of(res) == Some(text),
            None => res is Err ==> refusal_of(res) == Some(unauthentic()),
        },
        may_open_vote(
            (enc_payload@, enc_iv@),
            message_secret@,
            stanza_id@,
            poll_creator_jid@,
            voter_jid@,
            plaintext_of(res),
        ),
{
    let sealed = PollVoteCiphertext { enc_payload, enc_iv };
    decrypt_poll_vote_payload_with_secret(
        sealed,
        message_secret,
        stanza_id,
        poll_creator_jid,
        voter_jid,
    ).map_err(|e| e.to_string())
}

/// [`decrypt_event_response_payload_with_secret`], its error rendered: parts of
/// the wrong size are refused, and so is a payload that the active provider
/// does not open. Which it opens, and to which bytes, is not stated.
#[verifier::external_body]
fn open_response(
    enc_payload: &[u8],
    enc_iv: &[u8],
    message_secret: &[u8],
    stanza_id: &str,
    event_creator_jid: &str,
    responder_jid: &str,
) -> (res: Result<Vec<u8>, String>)
    requires
        enc_payload@.len() <= u32::MAX,
    ensures
        match addon_refusal(enc_payload@, enc_iv@, message_secret@) {
            Some(text) => refusal_of(res) == Some(text),
            None => res is Err ==> refusal_of(res) == Some(unauthentic()),
        },
        may_open_response(
            (enc_payload@, enc_iv@),
            message_secret@,
            stanza_id@,
            event_creator_jid@,
            responder_jid@,
            plaintext_of(res),
        ),
{
    decrypt_event_response_payload_with_secret(
        enc_payload,
        enc_iv,
        message_secret,
        stanza_id,
        event_creator_jid,
        responder_jid,
    ).map_err(|e| e.to_string())
}

/// Opens a vote on a poll, and returns the encoded message that it holds.
pub fn decrypt_poll_vote_payload(
    enc_payload: &[u8],
    enc_iv: &[u8],
    message_secret: &[u8],
    stanza_id: &str,
    poll_creator_jid: &str,
    voter_jid: &str,
) -> (res: Result<Vec<u8>, String>)
    requires
        enc_payload@.len() <= u32::MAX,
    ensures
        match addon_refusal(enc_payload@, enc_iv@, message_secret@) {
            Some(text) => refusal_of(res) == Some(text),
            None => res is Err ==> refusal_of(res) == Some(unauthentic()),
        },
        may_open_vote(
            (enc_payload@, enc_iv@),
            message_secret@,
            stanza_id@,
            poll_creator_jid@,
            voter_jid@,
            plaintext_of(res),
        ),
{
    open_vote(enc_payload, enc_iv, message_secret, stanza_id, poll_creator_jid, voter_jid)
}

/// Opens a response to an event, and returns the encoded message that it holds.
pub fn decrypt_event_response_payload(
    enc_payload: &[u8],
    enc_iv: &[u8],
    message_secret: &[u8],
    stanza_id: &str,
    event_creator_jid: &str,
    responder_jid: &str,
) -> (res: Result<Vec<u8>, String>)
    requires
        enc_payload@.len() <= u32::MAX,
    ensures
        match addon_refusal(enc_payload@, enc_iv@, message_secret@) {
            Some(text) => refusal_of(res) == Some(text),
            None => res is Err ==> refusal_of(res) == Some(unauthentic()),
        },
        may_open_response(
            (enc_payload@, enc_iv@),
            message_secret@,
            stanza_id@,
            event_creator_jid@,
            responder_jid@,
            plaintext_of(res),
        ),
{
    open_response(enc_payload, enc_iv, message_secret, stanza_id, event_creator_jid, responder_jid)
}

} // verus!
