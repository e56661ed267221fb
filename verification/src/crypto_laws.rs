//! What keys, sizes and answers are refused for, and what goes to the host.

use vstd::prelude::*;

use crate::addon_crypto::{addon_refusal, unauthentic};
use crate::compression::{bad_limit, effective_limit, too_large, within};
use crate::crypto::{
    agreement_refusal, crypto_failure_view, decrypt_refusal, encrypt_refusal, private_key_fault,
    public_key_fault, relays, wrong_length, CryptoProviderError, CurveError, HkdfInfo,
    HKDF_MAX_BYTES,
};
use crate::errors::{BridgeError, BridgeErrorView};
use crate::js_crypto::{
    cbc_fault, cbc_opened, gcm_fault, gcm_opened, host_bytes, host_does_two_part, in_place,
    padded_len, plaintext_len, settlement, unpads, whole_blocks, HostAnswer, Routed,
    HMAC_SHA256_BYTES, NATIVE_CBC_DECRYPT_MIN_BYTES, NATIVE_CBC_ENCRYPT_MIN_BYTES,
    NATIVE_GCM_MIN_BYTES, NATIVE_HMAC_MIN_BYTES,
};
use crate::mlow::{payload_type_of, HostPayloadType, RTP_PAYLOAD_TYPE_MLOW_RED};
use crate::text::{decimal, hex_byte};

verus! {

/// The host takes over at half a kilobyte for CBC encryption, at two for CBC
/// decryption and for GCM, and at eight for an HMAC of two parts.
pub proof fn the_host_takes_over_at_its_sizes(first: nat, second: nat)
    ensures
        NATIVE_CBC_ENCRYPT_MIN_BYTES == 512,
        NATIVE_CBC_DECRYPT_MIN_BYTES == 4 * NATIVE_CBC_ENCRYPT_MIN_BYTES,
        NATIVE_GCM_MIN_BYTES == 2048,
        NATIVE_HMAC_MIN_BYTES == 4 * NATIVE_GCM_MIN_BYTES,
        HMAC_SHA256_BYTES == 32,
        !host_does_two_part(first, second, false),
        host_does_two_part(first, second, true) <==> first + second >= 8192,
{
}

/// A sealed payload is longer than its plaintext by its tag; one that has no
/// room for a tag has no plaintext.
pub proof fn a_tag_is_sixteen_bytes(n: nat)
    ensures
        plaintext_len(n + 16) == n,
        n < 16 ==> plaintext_len(n) == 0,
{
}

/// Padding fills up the last block and is never empty, so it goes away to as
/// much as was there.
pub proof fn padding_fills_a_block(n: nat)
    ensures
        padded_len(n) % 16 == 0,
        n < padded_len(n) <= n + 16,
        whole_blocks(padded_len(n)),
        unpads(padded_len(n), n),
        !whole_blocks(0),
        n % 16 != 0 ==> !whole_blocks(n),
{
}

/// Unpadding takes away at least a byte and at most a block.
pub proof fn unpadding_takes_a_block_at_most(m: nat, n: nat)
    ensures
        unpads(m, n) <==> n < m <= n + 16,
{
}

/// A ciphertext that is no whole number of blocks, and one that does not open,
/// is bad input; only one that opens is none.
pub proof fn cbc_fails_as_bad_input(key: Seq<u8>, iv: Seq<u8>, ciphertext: Seq<u8>)
    ensures
        cbc_fault(key, iv, ciphertext) is None ==> ciphertext.len() > 0 && ciphertext.len() % 16
            == 0 && cbc_opened(key, iv, ciphertext) is Some,
        cbc_fault(key, iv, ciphertext) matches Some(e) ==> e == CryptoProviderError::BadInput && (
        ciphertext.len() == 0 || ciphertext.len() % 16 != 0 || cbc_opened(key, iv, ciphertext)
            is None),
{
}

/// What is too short for a tag is bad input; what has a tag that does not
/// match fails authentication.
pub proof fn gcm_tells_short_from_forged(
    key: Seq<u8>,
    nonce: Seq<u8>,
    aad: Seq<u8>,
    sealed: Seq<u8>,
)
    ensures
        gcm_fault(key, nonce, aad, sealed) == Some(CryptoProviderError::BadInput) <==> sealed.len()
            < 16,
        gcm_fault(key, nonce, aad, sealed) == Some(CryptoProviderError::AuthFailed) <==> (
        sealed.len() >= 16 && gcm_opened(key, nonce, aad, sealed) is None),
        gcm_fault(key, nonce, aad, sealed) != Some(CryptoProviderError::BackendFailed),
{
}

/// What went well here is done, and what did not is refused with its reason;
/// neither is left to the host.
pub proof fn what_is_settled_here_is_not_the_hosts(fault: Option<CryptoProviderError>)
    ensures
        fault is None <==> settlement(fault) == Routed::Done,
        fault matches Some(e) ==> settlement(fault) == Routed::Refused(e),
        settlement(fault) != Routed::Host,
{
}

/// Bytes that the host answers with are taken as they are; a throw fails as
/// the operation says, and anything else as the backend.
pub proof fn the_hosts_bytes_are_taken(answer: HostAnswer, thrown: CryptoProviderError)
    ensures
        answer matches HostAnswer::Bytes(b) ==> host_bytes(answer, thrown) == Ok::<
            Seq<u8>,
            CryptoProviderError,
        >(b@),
        answer is Threw ==> host_bytes(answer, thrown) == Err::<Seq<u8>, CryptoProviderError>(
            thrown,
        ),
        answer is NotBytes ==> host_bytes(answer, thrown) == Err::<Seq<u8>, CryptoProviderError>(
            CryptoProviderError::BackendFailed,
        ),
{
}

/// An answer in place of a buffer is taken only at the length that the
/// operation yields.
pub proof fn an_answer_in_place_has_its_length(
    answer: HostAnswer,
    thrown: CryptoProviderError,
    fits: spec_fn(nat) -> bool,
)
    ensures
        in_place(answer, thrown, fits) matches Ok(bytes) ==> fits(bytes.len()) && (answer
            matches HostAnswer::Bytes(b) && b@ == bytes),
        answer matches HostAnswer::Bytes(b) ==> (fits(b@.len()) ==> in_place(answer, thrown, fits)
            == Ok::<Seq<u8>, CryptoProviderError>(b@)) && (!fits(b@.len()) ==> in_place(
            answer,
            thrown,
            fits,
        ) == Err::<Seq<u8>, CryptoProviderError>(CryptoProviderError::BackendFailed)),
        answer is Threw ==> in_place(answer, thrown, fits) == Err::<Seq<u8>, CryptoProviderError>(
            thrown,
        ),
{
}

/// A public key is its type and thirty-two bytes, whatever follows; a private
/// key is thirty-two bytes and nothing more.
pub proof fn keys_have_their_sizes(key: Seq<u8>)
    requires
        key.len() <= usize::MAX,
    ensures
        public_key_fault(key) is None <==> key.len() >= 33 && key[0] == 5,
        key.len() == 0 ==> public_key_fault(key) == Some(CurveError::NoKeyTypeIdentifier),
        key.len() > 0 && key[0] != 5 ==> public_key_fault(key) == Some(
            CurveError::BadKeyType(key[0]),
        ),
        0 < key.len() < 33 && key[0] == 5 ==> public_key_fault(key) == Some(
            CurveError::BadKeyLength(key.len() as usize),
        ),
        private_key_fault(key) is None <==> key.len() == 32,
        key.len() != 32 ==> private_key_fault(key) == Some(
            CurveError::BadKeyLength(key.len() as usize),
        ),
{
}

/// Of two bad keys the public one is complained of; two good ones agree.
pub proof fn the_public_key_is_looked_at_first(public_key: Seq<u8>, private_key: Seq<u8>)
    ensures
        public_key_fault(public_key) is Some ==> agreement_refusal(public_key, private_key)
            == public_key_fault(public_key),
        public_key_fault(public_key) is None ==> agreement_refusal(public_key, private_key)
            == private_key_fault(private_key),
{
}

/// Sealing wants a key of thirty-two bytes and then a nonce of twelve; opening
/// wants a tag besides.
pub proof fn sealing_wants_its_sizes(key: Seq<u8>, nonce: Seq<u8>, sealed: Seq<u8>)
    ensures
        encrypt_refusal(key, nonce) is None <==> key.len() == 32 && nonce.len() == 12,
        key.len() != 32 ==> encrypt_refusal(key, nonce) == Some(wrong_length("key"@, 32)),
        key.len() == 32 && nonce.len() != 12 ==> encrypt_refusal(key, nonce) == Some(
            wrong_length("nonce"@, 12),
        ),
        decrypt_refusal(key, nonce, sealed) is None <==> key.len() == 32 && nonce.len() == 12
            && sealed.len() >= 16,
        encrypt_refusal(key, nonce) is Some ==> decrypt_refusal(key, nonce, sealed)
            == encrypt_refusal(key, nonce),
        key.len() == 32 && nonce.len() == 12 && sealed.len() < 16 ==> (decrypt_refusal(
            key,
            nonce,
            sealed,
        ) matches Some(BridgeErrorView::InvalidArgument { field, reason }) && field
            == "ciphertextWithTag"@ && reason == "must include a 16-byte authentication tag"@),
{
}

/// A wrong length is complained of by the field and the length it needs, a
/// failure by the operation and then what failed.
pub proof fn complaints_name_what_they_are_about(
    field: Seq<char>,
    n: nat,
    operation: Seq<char>,
    error: CryptoProviderError,
)
    ensures
        wrong_length(field, n) matches BridgeErrorView::InvalidArgument { field: f, reason } && f
            == field && reason == "must be exactly "@ + decimal(n) + " bytes"@,
        crypto_failure_view(operation, error) matches BridgeErrorView::Crypto { operation: said }
            && said == operation + ": "@ + error.text(),
{
}

/// What the provider answered is what the caller gets: its bytes as they are,
/// or its failure under the operation's name.
pub proof fn an_answer_is_relayed(
    operation: Seq<char>,
    answer: Result<Seq<u8>, CryptoProviderError>,
    res: Result<Vec<u8>, BridgeError>,
)
    requires
        relays(operation, answer, res),
    ensures
        answer matches Ok(bytes) ==> (res matches Ok(out) && out@ == bytes),
        answer matches Err(error) ==> (res matches Err(e) && (e@ matches BridgeErrorView::Crypto {
            operation: said,
        } && said == operation + ": "@ + error.text())),
{
}

/// What a provider fails with is told in its own words.
pub proof fn a_provider_error_has_its_words(e: CryptoProviderError, c: CurveError)
    ensures
        e is BadInput ==> e.text() == "bad key/iv/nonce size or malformed input"@,
        e is AuthFailed ==> e.text() == "authentication tag verification failed"@,
        e is BackendFailed ==> e.text() == "provider backend reported failure"@,
        c is NoKeyTypeIdentifier ==> c.text() == "no key type identifier"@,
        c matches CurveError::BadKeyType(t) ==> c.text() == "bad key type <0x"@ + hex_byte(t)
            + ">"@,
        c matches CurveError::BadKeyLength(n) ==> c.text() == "bad key length <"@ + decimal(
            n as nat,
        ) + "> for key with type <Djb>"@,
        c is AgreementFailed ==> c.text() == "the active crypto provider failed the key agreement"@,
{
}

/// A derivation may be salted and may have a context; without one it is empty,
/// and no expansion yields more than two hundred and fifty-five digests.
pub proof fn a_derivation_has_an_empty_context_by_default(info: HkdfInfo)
    ensures
        info.info is None ==> info.info_bytes().len() == 0,
        info.info matches Some(t) ==> info.info_bytes() == vstd::utf8::encode_utf8(t@),
        info.salt is None <==> info.salt_bytes() is None,
        info.salt matches Some(s) ==> info.salt_bytes() == Some(s@),
        HKDF_MAX_BYTES == 255 * 32,
{
}

/// A sealed addon wants a secret of thirty-two bytes, then a vector of twelve,
/// then room for a tag; what is wrong is told with the length that came.
pub proof fn an_addon_wants_its_sizes(payload: Seq<u8>, iv: Seq<u8>, secret: Seq<u8>)
    ensures
        addon_refusal(payload, iv, secret) is None <==> secret.len() == 32 && iv.len() == 12
            && payload.len() >= 16,
        secret.len() != 32 ==> addon_refusal(payload, iv, secret) == Some(
            "message_secret must be 32 bytes, got "@ + decimal(secret.len()),
        ),
        secret.len() == 32 && iv.len() != 12 ==> addon_refusal(payload, iv, secret) == Some(
            "Invalid IV size: expected 12, got "@ + decimal(iv.len()),
        ),
        secret.len() == 32 && iv.len() == 12 && payload.len() < 16 ==> addon_refusal(
            payload,
            iv,
            secret,
        ) == Some(
            "Encrypted payload too short: need at least 16 bytes for tag, got "@ + decimal(
                payload.len(),
            ),
        ),
        unauthentic() == "Addon GCM tag verification failed"@,
{
}

/// An output passes under a limit that it does not exceed, whole, and a wider
/// limit lets through whatever a narrower one did.
pub proof fn a_limit_lets_through_what_fits(output: Option<Seq<u8>>, max: u64, wider: u64)
    ensures
        within(output, max) matches Some(bytes) ==> output == Some(bytes) && bytes.len() <= max,
        output matches Some(bytes) ==> (bytes.len() <= max ==> within(output, max) == Some(bytes))
            && (bytes.len() > max ==> within(output, max) is None),
        output is None ==> within(output, max) is None,
        max <= wider && within(output, max) is Some ==> within(output, wider) == within(
            output,
            max,
        ),
{
}

/// A limit that is named is the limit; without one it is sixty-four megabytes.
pub proof fn a_named_limit_is_the_limit(max: u64)
    ensures
        effective_limit(Some(max)) == max,
        effective_limit(None) == 64 * 1024 * 1024,
        too_large(max) == "decompressed payload exceeds "@ + decimal(max as nat) + " bytes"@,
        bad_limit() == "maxOutputBytes must be a positive finite number"@,
{
}

/// A payload type is a whole number that a byte holds, or nothing; everything
/// else is refused under its name.
pub proof fn a_payload_type_is_a_byte(value: HostPayloadType)
    ensures
        value is Absent <==> payload_type_of(value) == Ok::<Option<u8>, BridgeErrorView>(None),
        value matches HostPayloadType::Number { whole: Some(n), .. } ==> (payload_type_of(value)
            is Ok <==> 0 <= n <= 255),
        payload_type_of(value) matches Ok(Some(t)) ==> (value matches HostPayloadType::Number {
            whole: Some(n),
            ..
        } && n as int == t as int),
        payload_type_of(value) matches Err(e) ==> (e matches BridgeErrorView::InvalidArgument {
            field,
            ..
        } && field == "payloadType"@),
        value matches HostPayloadType::Number { whole: None, .. } ==> payload_type_of(value) is Err,
        value is NotANumber ==> payload_type_of(value) is Err,
        RTP_PAYLOAD_TYPE_MLOW_RED == 121,
{
}

} // verus!
