//! Votes and event responses, sealed under the secret of another message.

use voip_bridge::addon_crypto::{decrypt_event_response_payload, decrypt_poll_vote_payload};
use wacore::secret_enc_addon::{encrypt_addon, AddonContext, ModificationType};

const SECRET: [u8; 32] = [0x5a; 32];
const CREATOR: &str = "15550001111@s.whatsapp.net";
const SENDER: &str = "15550002222@s.whatsapp.net";

fn sealed(plaintext: &[u8], kind: ModificationType) -> (Vec<u8>, [u8; 12]) {
    let ctx = AddonContext {
        stanza_id: "3EB0ABC",
        parent_msg_original_sender: CREATOR,
        modification_sender: SENDER,
        modification_type: kind,
    };
    encrypt_addon(plaintext, &SECRET, &ctx).unwrap()
}

#[test]
fn a_vote_opens_to_what_was_sealed() {
    let (payload, iv) = sealed(b"the vote", ModificationType::PollVote);
    let opened = decrypt_poll_vote_payload(&payload, &iv, &SECRET, "3EB0ABC", CREATOR, SENDER);
    assert_eq!(opened, Ok(b"the vote".to_vec()));
    assert_ne!(payload, b"the vote".to_vec());
}

#[test]
fn a_response_opens_to_what_was_sealed() {
    let (payload, iv) = sealed(b"the response", ModificationType::EventResponse);
    let opened = decrypt_event_response_payload(&payload, &iv, &SECRET, "3EB0ABC", CREATOR, SENDER);
    assert_eq!(opened, Ok(b"the response".to_vec()));
}

#[test]
fn a_payload_of_another_kind_or_sender_does_not_open() {
    let (payload, iv) = sealed(b"the vote", ModificationType::PollVote);
    let unauthentic = Err("Addon GCM tag verification failed".to_string());
    let as_response =
        decrypt_event_response_payload(&payload, &iv, &SECRET, "3EB0ABC", CREATOR, SENDER);
    assert_eq!(as_response, unauthentic);
    let swapped = decrypt_poll_vote_payload(&payload, &iv, &SECRET, "3EB0ABC", SENDER, CREATOR);
    assert_eq!(swapped, unauthentic);
    let elsewhere = decrypt_poll_vote_payload(&payload, &iv, &SECRET, "3EB0ABD", CREATOR, SENDER);
    assert_eq!(elsewhere, unauthentic);
}

#[test]
fn parts_of_the_wrong_size_are_refused() {
    let vote = |payload: &[u8], iv: &[u8], secret: &[u8]| {
        decrypt_poll_vote_payload(payload, iv, secret, "3EB0ABC", CREATOR, SENDER).unwrap_err()
    };
    assert_eq!(vote(&[0; 3], &[0; 3], &[0; 31]), "message_secret must be 32 bytes, got 31");
    assert_eq!(vote(&[0; 3], &[0; 3], &SECRET), "Invalid IV size: expected 12, got 3");
    assert_eq!(
        vote(&[0; 15], &[0; 12], &SECRET),
        "Encrypted payload too short: need at least 16 bytes for tag, got 15"
    );
    let response = |payload: &[u8], iv: &[u8], secret: &[u8]| {
        decrypt_event_response_payload(payload, iv, secret, "3EB0ABC", CREATOR, SENDER).unwrap_err()
    };
    assert_eq!(response(&[0; 3], &[0; 3], &[0; 31]), "message_secret must be 32 bytes, got 31");
    assert_eq!(response(&[0; 3], &[0; 13], &SECRET), "Invalid IV size: expected 12, got 13");
    assert_eq!(
        response(&[], &[0; 12], &SECRET),
        "Encrypted payload too short: need at least 16 bytes for tag, got 0"
    );
}
