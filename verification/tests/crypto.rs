//! Digests, derivations, the curve, and which cipher runs where.

use voip_bridge::crypto::{
    aes_gcm_256_decrypt, aes_gcm_256_encrypt, agreement_result, calculate_agreement,
    calculate_signature, check_private_key, check_public_key, generate_key_pair, hkdf_sha256,
    md5_digest, provider_result, public_from_private_key, sha256_digest, verify_signature,
    CryptoError, CryptoProviderError, CurveError, HkdfInfo,
};
use voip_bridge::errors::BridgeError;
use voip_bridge::js_crypto::{
    aes_256_cbc_decrypt, aes_256_cbc_decrypt_in_place, aes_256_cbc_encrypt, aes_256_gcm_decrypt,
    aes_256_gcm_encrypt, check_cbc_ciphertext, gcm_plaintext_len, hmac_result, hmac_sha256,
    hmac_sha256_two_part, host_cbc_decrypted, host_cbc_decrypted_in_place, host_encrypted,
    host_gcm_decrypted, host_gcm_decrypted_in_place, host_gcm_encrypted_in_place,
    host_opens_in_place, host_seals_in_place, use_native, HostAnswer, Routed, GCM_AUTH_TAG_BYTES,
    NATIVE_CBC_DECRYPT_MIN_BYTES, NATIVE_CBC_ENCRYPT_MIN_BYTES, NATIVE_GCM_MIN_BYTES,
    NATIVE_HMAC_MIN_BYTES,
};
use voip_bridge::text::to_hex;

#[test]
fn native_aes_threshold_has_an_explicit_boundary() {
    assert!(!use_native(
        NATIVE_CBC_ENCRYPT_MIN_BYTES - 1,
        NATIVE_CBC_ENCRYPT_MIN_BYTES
    ));
    assert!(use_native(
        NATIVE_CBC_ENCRYPT_MIN_BYTES,
        NATIVE_CBC_ENCRYPT_MIN_BYTES
    ));
}

#[test]
fn gcm_routing_uses_plaintext_size_not_tagged_size() {
    assert_eq!(gcm_plaintext_len(GCM_AUTH_TAG_BYTES - 1), 0);
    assert_eq!(gcm_plaintext_len(GCM_AUTH_TAG_BYTES), 0);
    assert_eq!(
        gcm_plaintext_len(NATIVE_GCM_MIN_BYTES + GCM_AUTH_TAG_BYTES),
        NATIVE_GCM_MIN_BYTES
    );
    assert!(!host_opens_in_place(NATIVE_GCM_MIN_BYTES + GCM_AUTH_TAG_BYTES - 1));
    assert!(host_opens_in_place(NATIVE_GCM_MIN_BYTES + GCM_AUTH_TAG_BYTES));
    assert!(!host_seals_in_place(NATIVE_GCM_MIN_BYTES - 1));
    assert!(host_seals_in_place(NATIVE_GCM_MIN_BYTES));
}

#[test]
fn digests_match_their_known_answers() {
    assert_eq!(to_hex(&md5_digest(b"abc")), "900150983cd24fb0d6963f7d28e17f72");
    assert_eq!(
        to_hex(&sha256_digest(b"abc").unwrap()),
        "ba7816bf8f01cfea414140de5dae2223b00361a396177a9cb410ff61f20015ad"
    );
    assert_eq!(
        to_hex(&sha256_digest(b"").unwrap()),
        "e3b0c44298fc1c149afbf4c8996fb92427ae41e4649b934ca495991b7852b855"
    );
}

#[test]
fn a_derivation_matches_its_known_answer() {
    let ikm = [0x0bu8; 22];
    let out = hkdf_sha256(
        &ikm,
        42,
        &HkdfInfo {
            salt: Some(vec![0, 1, 2, 3, 4, 5, 6, 7, 8, 9, 10, 11, 12]),
            info: None,
        },
    )
    .unwrap();
    assert_eq!(out.len(), 42);
    // No context is the empty context.
    let same = hkdf_sha256(
        &ikm,
        42,
        &HkdfInfo {
            salt: Some(vec![0, 1, 2, 3, 4, 5, 6, 7, 8, 9, 10, 11, 12]),
            info: Some(String::new()),
        },
    )
    .unwrap();
    assert_eq!(out, same);
    let plain = hkdf_sha256(&ikm, 42, &HkdfInfo::default()).unwrap();
    assert_eq!(
        to_hex(&plain),
        "8da4e775a563c18f715f802a063c5a31b8a11f5c5ee1879ec3454e5f3c738d2d9d201395faa4b61a96c8"
    );
}

#[test]
fn a_derivation_has_a_limit() {
    assert_eq!(hkdf_sha256(b"k", 8160, &HkdfInfo::default()).unwrap().len(), 8160);
    assert_eq!(
        hkdf_sha256(b"k", 8161, &HkdfInfo::default()),
        Err(CryptoError::InvalidHkdfLength)
    );
    assert_eq!(
        CryptoError::InvalidHkdfLength.message(),
        "HKDF-SHA256 output length is invalid"
    );
}

#[test]
fn a_generated_pair_belongs_together() {
    let pair = generate_key_pair();
    assert_eq!(pair.pub_key.len(), 33);
    assert_eq!(pair.pub_key[0], 5);
    assert_eq!(pair.priv_key.len(), 32);
    assert_eq!(public_from_private_key(&pair.priv_key).unwrap(), pair.pub_key);
}

#[test]
fn two_pairs_agree() {
    let a = generate_key_pair();
    let b = generate_key_pair();
    let ab = calculate_agreement(&b.pub_key, &a.priv_key).unwrap();
    let ba = calculate_agreement(&a.pub_key, &b.priv_key).unwrap();
    assert_eq!(ab.len(), 32);
    assert_eq!(ab, ba);
}

#[test]
fn a_signature_holds_for_its_own_key_and_message() {
    let pair = generate_key_pair();
    let signature = calculate_signature(&pair.priv_key, b"message").unwrap();
    assert_eq!(signature.len(), 64);
    assert_eq!(verify_signature(&pair.pub_key, b"message", &signature), Ok(true));
    assert_eq!(verify_signature(&pair.pub_key, b"tampered", &signature), Ok(false));
    assert_eq!(verify_signature(&pair.pub_key, b"message", &signature[..63]), Ok(false));
    let another = generate_key_pair();
    assert_eq!(verify_signature(&another.pub_key, b"message", &signature), Ok(false));
    // Bytes after the key do not matter.
    let mut longer = pair.pub_key.clone();
    longer.push(0);
    assert_eq!(verify_signature(&longer, b"message", &signature), Ok(true));
}

#[test]
fn keys_of_another_shape_are_refused() {
    let pair = generate_key_pair();
    assert_eq!(
        calculate_agreement(&[], &pair.priv_key),
        Err(CurveError::NoKeyTypeIdentifier)
    );
    let mut wrong = pair.pub_key.clone();
    wrong[0] = 6;
    assert_eq!(
        calculate_agreement(&wrong, &pair.priv_key),
        Err(CurveError::BadKeyType(6))
    );
    assert_eq!(
        calculate_agreement(&pair.pub_key[..32], &pair.priv_key),
        Err(CurveError::BadKeyLength(32))
    );
    assert_eq!(
        calculate_agreement(&pair.pub_key, &pair.priv_key[..31]),
        Err(CurveError::BadKeyLength(31))
    );
    assert_eq!(
        calculate_signature(&pair.priv_key[..5], b"m"),
        Err(CurveError::BadKeyLength(5))
    );
    assert_eq!(
        public_from_private_key(&[0; 33]),
        Err(CurveError::BadKeyLength(33))
    );
    assert_eq!(
        verify_signature(&[], b"m", &[0; 64]),
        Err(CurveError::NoKeyTypeIdentifier)
    );
    assert_eq!(check_public_key(&pair.pub_key), Ok(()));
    assert_eq!(check_private_key(&pair.priv_key), Ok(()));
    assert_eq!(agreement_result(None), Err(CurveError::AgreementFailed));
}

#[test]
fn curve_errors_render_as_the_core_does() {
    assert_eq!(
        CurveError::NoKeyTypeIdentifier.message(),
        "no key type identifier"
    );
    assert_eq!(CurveError::BadKeyType(6).message(), "bad key type <0x06>");
    assert_eq!(CurveError::BadKeyType(0xab).message(), "bad key type <0xab>");
    assert_eq!(
        CurveError::BadKeyLength(31).message(),
        "bad key length <31> for key with type <Djb>"
    );
    assert_eq!(
        CurveError::AgreementFailed.message(),
        "the active crypto provider failed the key agreement"
    );
    // The texts are the core's own.
    let core = wacore::libsignal::protocol::PublicKey::deserialize(&[6; 33]).err().unwrap();
    assert_eq!(core.to_string(), CurveError::BadKeyType(6).message());
    let core = wacore::libsignal::protocol::PrivateKey::deserialize(&[6; 31]).err().unwrap();
    assert_eq!(core.to_string(), CurveError::BadKeyLength(31).message());
    let core = wacore::libsignal::protocol::PublicKey::deserialize(&[]).err().unwrap();
    assert_eq!(core.to_string(), CurveError::NoKeyTypeIdentifier.message());
}

#[test]
fn sealed_bytes_open_with_the_same_key_nonce_and_data() {
    let key = [1u8; 32];
    let nonce = [2u8; 12];
    let sealed = aes_gcm_256_encrypt(&key, &nonce, b"aad", b"plaintext").unwrap();
    assert_eq!(sealed.len(), 9 + 16);
    assert_eq!(
        aes_gcm_256_decrypt(&key, &nonce, b"aad", &sealed).unwrap(),
        b"plaintext"
    );
    assert_eq!(
        aes_gcm_256_decrypt(&key, &nonce, b"other", &sealed),
        Err(BridgeError::Crypto {
            operation: "AES-256-GCM decrypt: authentication tag verification failed".to_owned()
        })
    );
}

#[test]
fn sealing_refuses_inputs_of_another_size() {
    let bad = |field: &str, reason: &str| {
        Err(BridgeError::InvalidArgument {
            field: field.to_owned(),
            reason: reason.to_owned(),
        })
    };
    assert_eq!(
        aes_gcm_256_encrypt(&[0; 31], &[0; 12], b"", b""),
        bad("key", "must be exactly 32 bytes")
    );
    assert_eq!(
        aes_gcm_256_encrypt(&[0; 32], &[0; 13], b"", b""),
        bad("nonce", "must be exactly 12 bytes")
    );
    assert_eq!(
        aes_gcm_256_decrypt(&[0; 31], &[0; 13], b"", b""),
        bad("key", "must be exactly 32 bytes")
    );
    assert_eq!(
        aes_gcm_256_decrypt(&[0; 32], &[0; 13], b"", b""),
        bad("nonce", "must be exactly 12 bytes")
    );
    assert_eq!(
        aes_gcm_256_decrypt(&[0; 32], &[0; 12], b"", &[0; 15]),
        bad(
            "ciphertextWithTag",
            "must include a 16-byte authentication tag"
        )
    );
}

#[test]
fn a_provider_failure_names_its_operation() {
    for (e, text) in [
        (
            CryptoProviderError::BadInput,
            "bad key/iv/nonce size or malformed input",
        ),
        (
            CryptoProviderError::AuthFailed,
            "authentication tag verification failed",
        ),
        (
            CryptoProviderError::BackendFailed,
            "provider backend reported failure",
        ),
    ] {
        assert_eq!(e.message(), text);
        assert_eq!(
            provider_result("AES-256-GCM encrypt", Err(e)),
            Err(BridgeError::Crypto {
                operation: format!("AES-256-GCM encrypt: {text}")
            })
        );
    }
    assert_eq!(provider_result("x", Ok(vec![1])), Ok(vec![1]));
}

#[test]
fn small_cbc_stays_here_and_opens_again() {
    let key = [3u8; 32];
    let iv = [4u8; 16];
    let mut sealed = vec![9u8, 9];
    assert_eq!(
        aes_256_cbc_encrypt(&key, &iv, b"sixteen  bytes!!", &mut sealed),
        Routed::Done
    );
    assert_eq!(sealed.len(), 2 + 32);
    assert_eq!(sealed[..2], [9, 9]);
    let mut opened = vec![1u8, 2, 3];
    assert_eq!(
        aes_256_cbc_decrypt(&key, &iv, &sealed[2..], &mut opened),
        Routed::Done
    );
    assert_eq!(opened, b"sixteen  bytes!!");
    let mut buffer = sealed[2..].to_vec();
    assert_eq!(aes_256_cbc_decrypt_in_place(&key, &iv, &mut buffer), Ok(()));
    assert_eq!(buffer, b"sixteen  bytes!!");
}

#[test]
fn cbc_refuses_what_is_not_whole_blocks() {
    let key = [3u8; 32];
    let iv = [4u8; 16];
    let mut out = vec![1u8];
    assert_eq!(
        aes_256_cbc_decrypt(&key, &iv, &[0; 15], &mut out),
        Routed::Refused(CryptoProviderError::BadInput)
    );
    assert_eq!(out, [1]);
    assert_eq!(
        aes_256_cbc_decrypt_in_place(&key, &iv, &mut Vec::new()),
        Err(CryptoProviderError::BadInput)
    );
    assert_eq!(check_cbc_ciphertext(0), Err(CryptoProviderError::BadInput));
    assert_eq!(check_cbc_ciphertext(17), Err(CryptoProviderError::BadInput));
    assert_eq!(check_cbc_ciphertext(32), Ok(()));
}

#[test]
fn large_payloads_go_to_the_host() {
    let key = [3u8; 32];
    let iv = [4u8; 16];
    let nonce = [5u8; 12];
    let mut out = Vec::new();
    assert_eq!(
        aes_256_cbc_encrypt(&key, &iv, &vec![0; NATIVE_CBC_ENCRYPT_MIN_BYTES], &mut out),
        Routed::Host
    );
    assert_eq!(
        aes_256_cbc_decrypt(&key, &iv, &vec![0; NATIVE_CBC_DECRYPT_MIN_BYTES], &mut out),
        Routed::Host
    );
    assert_eq!(
        aes_256_gcm_encrypt(&key, &nonce, b"", &vec![0; NATIVE_GCM_MIN_BYTES], &mut out),
        Routed::Host
    );
    let tagged = vec![0; NATIVE_GCM_MIN_BYTES + GCM_AUTH_TAG_BYTES];
    assert_eq!(
        aes_256_gcm_decrypt(&key, &nonce, b"", &tagged, &mut out),
        Routed::Host
    );
    assert!(out.is_empty());
}

#[test]
fn small_gcm_stays_here_and_opens_again() {
    let key = [3u8; 32];
    let nonce = [5u8; 12];
    let mut sealed = Vec::new();
    assert_eq!(
        aes_256_gcm_encrypt(&key, &nonce, b"aad", b"text", &mut sealed),
        Routed::Done
    );
    assert_eq!(sealed.len(), 4 + GCM_AUTH_TAG_BYTES);
    let mut out = vec![7u8];
    assert_eq!(
        aes_256_gcm_decrypt(&key, &nonce, b"aad", &sealed, &mut out),
        Routed::Done
    );
    assert_eq!(out, b"\x07text");
    assert_eq!(
        aes_256_gcm_decrypt(&key, &nonce, b"bad", &sealed, &mut out),
        Routed::Refused(CryptoProviderError::AuthFailed)
    );
    assert_eq!(
        aes_256_gcm_decrypt(&key, &nonce, b"aad", &sealed[..15], &mut out),
        Routed::Refused(CryptoProviderError::BadInput)
    );
    assert_eq!(out, b"\x07text");
    // A tag over nothing is as long as a tag.
    let mut empty = Vec::new();
    aes_256_gcm_encrypt(&key, &nonce, b"", b"", &mut empty);
    assert_eq!(empty.len(), GCM_AUTH_TAG_BYTES);
}

#[test]
fn hmacs_match_their_known_answer() {
    let mac = hmac_sha256(b"key", b"The quick brown fox jumps over the lazy dog");
    assert_eq!(
        to_hex(&mac),
        "f7bc83f430538424b13298e6aa6fb143ef4d59a14946175997479dbc2d1a3cd8"
    );
    assert_eq!(
        hmac_sha256_two_part(b"key", b"The quick brown fox ", b"jumps over the lazy dog", true),
        Some(mac)
    );
}

#[test]
fn a_large_two_part_hmac_goes_to_the_host_that_offers_it() {
    let half = vec![0u8; NATIVE_HMAC_MIN_BYTES / 2];
    assert_eq!(hmac_sha256_two_part(b"k", &half, &half, true), None);
    assert!(hmac_sha256_two_part(b"k", &half, &half, false).is_some());
    assert!(hmac_sha256_two_part(b"k", &half, &half[1..], true).is_some());
    assert_eq!(hmac_result(&[7; 32]), [7; 32]);
}

#[test]
fn what_the_host_returns_is_checked() {
    let bytes = |n: usize| HostAnswer::Bytes(vec![8; n]);
    let mut out = vec![1u8];
    assert_eq!(host_encrypted(bytes(2), &mut out), Ok(()));
    assert_eq!(out, [1, 8, 8]);
    assert_eq!(
        host_encrypted(HostAnswer::Threw, &mut out),
        Err(CryptoProviderError::BackendFailed)
    );
    assert_eq!(
        host_encrypted(HostAnswer::NotBytes, &mut out),
        Err(CryptoProviderError::BackendFailed)
    );
    assert_eq!(host_gcm_decrypted(bytes(1), &mut out), Ok(()));
    assert_eq!(out, [1, 8, 8, 8]);
    assert_eq!(
        host_gcm_decrypted(HostAnswer::Threw, &mut out),
        Err(CryptoProviderError::AuthFailed)
    );
    assert_eq!(host_cbc_decrypted(bytes(1), &mut out), Ok(()));
    assert_eq!(out, [8]);
    assert_eq!(
        host_cbc_decrypted(HostAnswer::Threw, &mut out),
        Err(CryptoProviderError::BackendFailed)
    );
    assert!(out.is_empty());
}

#[test]
fn an_in_place_answer_has_to_have_its_length() {
    let bytes = |n: usize| HostAnswer::Bytes(vec![8; n]);
    let failed = Err(CryptoProviderError::BackendFailed);
    for (n, ok) in [(32, false), (31, true), (16, true), (15, false), (33, false)] {
        let mut buffer = vec![1u8; 32];
        let res = host_cbc_decrypted_in_place(&mut buffer, bytes(n));
        assert_eq!(res.is_ok(), ok, "{n}");
        assert_eq!(buffer.len(), if ok { n } else { 32 });
    }
    let mut buffer = vec![1u8; 4];
    assert_eq!(host_gcm_encrypted_in_place(&mut buffer, bytes(19)), failed);
    assert_eq!(host_gcm_encrypted_in_place(&mut buffer, bytes(20)), Ok(()));
    assert_eq!(buffer, [8; 20]);
    assert_eq!(host_gcm_decrypted_in_place(&mut buffer, bytes(5)), failed);
    assert_eq!(
        host_gcm_decrypted_in_place(&mut buffer, HostAnswer::Threw),
        Err(CryptoProviderError::AuthFailed)
    );
    assert_eq!(host_gcm_decrypted_in_place(&mut buffer, bytes(4)), Ok(()));
    assert_eq!(buffer, [8; 4]);
    assert_eq!(host_gcm_decrypted_in_place(&mut buffer, bytes(0)), failed);
}
