//! Cryptographic operations, without protocol-specific naming or state.
//!
//! The hashes, the key derivation and the curve come from the core. AES-GCM
//! and the key agreement go through whichever provider is active when they are
//! called: what those two compute is the provider's affair, and the contracts
//! say what it was asked and what becomes of its answer.

use vstd::prelude::*;
use wacore::libsignal::crypto::CryptoProviderError as CoreProviderError;

use crate::errors::{invalid_arg, BridgeError, BridgeErrorView};
use crate::messages::fields::opt_view;
use crate::text::{decimal, hex_byte, push_decimal, push_hex_byte};

verus! {

/// A curve key pair.
#[derive(Debug, Clone, PartialEq, Eq)]
pub struct KeyPair {
    /// The public key, with its leading type byte.
    pub pub_key: Vec<u8>,
    /// The private key.
    pub priv_key: Vec<u8>,
}

/// What an HKDF expansion may be given.
#[derive(Debug, Clone, PartialEq, Eq)]
pub struct HkdfInfo {
    /// The salt, if any.
    pub salt: Option<Vec<u8>>,
    /// The context; empty when it is absent.
    pub info: Option<String>,
}

impl Default for HkdfInfo {
    fn default() -> (o: Self)
        ensures
            o.salt is None,
            o.info is None,
    {
        HkdfInfo { salt: None, info: None }
    }
}

impl HkdfInfo {
    /// The salt's bytes.
    pub open spec fn salt_bytes(self) -> Option<Seq<u8>> {
        match self.salt {
            Some(salt) => Some(salt@),
            None => None,
        }
    }

    /// The context's bytes.
    pub open spec fn info_bytes(self) -> Seq<u8> {
        match self.info {
            Some(info) => vstd::utf8::encode_utf8(info@),
            None => Seq::empty(),
        }
    }
}

/// The most bytes that one HKDF-SHA256 expansion yields.
pub const HKDF_MAX_BYTES: usize = 8160;

/// The byte that leads a serialised public key.
pub const KEY_TYPE_DJB: u8 = 5;

/// The bytes of a serialised public key.
pub const PUBLIC_KEY_BYTES: usize = 33;

/// The bytes of a private key.
pub const PRIVATE_KEY_BYTES: usize = 32;

/// Why a derivation was refused.
#[derive(Debug, Clone, Copy, PartialEq, Eq, Structural)]
pub enum CryptoError {
    /// More bytes were asked for than an expansion yields.
    InvalidHkdfLength,
}

impl CryptoError {
    /// The rendered text.
    pub open spec fn text(self) -> Seq<char> {
        "HKDF-SHA256 output length is invalid"@
    }

    /// Renders the error.
    pub fn message(&self) -> (s: String)
        ensures
            s@ == self.text(),
    {
        "HKDF-SHA256 output length is invalid".to_owned()
    }
}

/// Why a curve operation was refused.
#[derive(Debug, Clone, Copy, PartialEq, Eq, Structural)]
pub enum CurveError {
    /// The key is empty.
    NoKeyTypeIdentifier,
    /// The key's type byte is not known.
    BadKeyType(u8),
    /// The key has this many bytes, which is not what it needs.
    BadKeyLength(usize),
    /// The active provider could not agree on a key.
    AgreementFailed,
}

impl CurveError {
    /// The rendered text.
    pub open spec fn text(self) -> Seq<char> {
        match self {
            CurveError::NoKeyTypeIdentifier => "no key type identifier"@,
            CurveError::BadKeyType(t) => "bad key type <0x"@ + hex_byte(t) + ">"@,
            CurveError::BadKeyLength(n) => "bad key length <"@ + decimal(n as nat)
                + "> for key with type <Djb>"@,
            CurveError::AgreementFailed => "the active crypto provider failed the key agreement"@,
        }
    }

    /// Renders the error.
    pub fn message(&self) -> (s: String)
        ensures
            s@ == self.text(),
    {
        match self {
            CurveError::NoKeyTypeIdentifier => "no key type identifier".to_owned(),
            CurveError::BadKeyType(t) => {
                let mut s = "bad key type <0x".to_owned();
                push_hex_byte(&mut s, *t);
                s.push_str(">");
                s
            },
            CurveError::BadKeyLength(n) => {
                let mut s = "bad key length <".to_owned();
                push_decimal(&mut s, *n as u64);
                s.push_str("> for key with type <Djb>");
                s
            },
            CurveError::AgreementFailed => {
                "the active crypto provider failed the key agreement".to_owned()
            },
        }
    }
}

/// What a crypto provider can fail with.
#[derive(Debug, Clone, Copy, PartialEq, Eq, Structural)]
pub enum CryptoProviderError {
    /// An input has the wrong size or shape.
    BadInput,
    /// The authentication tag does not match.
    AuthFailed,
    /// The backend itself failed.
    BackendFailed,
}

impl CryptoProviderError {
    /// The rendered text.
    pub open spec fn text(self) -> Seq<char> {
        match self {
            CryptoProviderError::BadInput => "bad key/iv/nonce size or malformed input"@,
            CryptoProviderError::AuthFailed => "authentication tag verification failed"@,
            CryptoProviderError::BackendFailed => "provider backend reported failure"@,
        }
    }

    /// Renders the error.
    pub fn message(&self) -> (s: String)
        ensures
            s@ == self.text(),
    {
        match self {
            CryptoProviderError::BadInput => "bad key/iv/nonce size or malformed input".to_owned(),
            CryptoProviderError::AuthFailed => "authentication tag verification failed".to_owned(),
            CryptoProviderError::BackendFailed => "provider backend reported failure".to_owned(),
        }
    }
}

/// The bytes that a call returned, if it returned any.
pub open spec fn bytes_of<E>(res: Result<Vec<u8>, E>) -> Option<Seq<u8>> {
    match res {
        Ok(out) => Some(out@),
        Err(_) => None,
    }
}

/// The error that a call returned, if it returned one.
pub open spec fn fault_of<T, E>(res: Result<T, E>) -> Option<E> {
    match res {
        Ok(_) => None,
        Err(e) => Some(e),
    }
}

/// What is wrong with the bytes of a public key. Bytes after the key are
/// allowed.
pub open spec fn public_key_fault(key: Seq<u8>) -> Option<CurveError> {
    if key.len() == 0 {
        Some(CurveError::NoKeyTypeIdentifier)
    } else if key[0] != KEY_TYPE_DJB {
        Some(CurveError::BadKeyType(key[0]))
    } else if key.len() < PUBLIC_KEY_BYTES {
        Some(CurveError::BadKeyLength(key.len() as usize))
    } else {
        None
    }
}

/// What is wrong with the bytes of a private key.
pub open spec fn private_key_fault(key: Seq<u8>) -> Option<CurveError> {
    if key.len() != PRIVATE_KEY_BYTES {
        Some(CurveError::BadKeyLength(key.len() as usize))
    } else {
        None
    }
}

/// The MD5 digest of some bytes, as [`wacore::crypto::md5_digest`] has it.
pub uninterp spec fn md5_of(input: Seq<u8>) -> Seq<u8>;

/// The SHA-256 digest of some bytes, as
/// [`wacore::libsignal::crypto::CryptographicHash`] has it.
pub uninterp spec fn sha256_of(input: Seq<u8>) -> Seq<u8>;

/// So many bytes expanded from key material, a salt and a context, as
/// [`wacore::crypto::hkdf_sha256`] has them.
pub uninterp spec fn hkdf_of(
    input_key_material: Seq<u8>,
    expanded_length: usize,
    salt: Option<Seq<u8>>,
    info: Seq<u8>,
) -> Seq<u8>;

/// The serialised public key of a private one, as
/// [`wacore::libsignal::protocol::PrivateKey::public_key`] has it.
pub uninterp spec fn public_of(private_key: Seq<u8>) -> Seq<u8>;

/// Whether a signature over a message is one of the public key's, as
/// [`wacore::libsignal::protocol::PublicKey::verify_signature`] has it.
pub uninterp spec fn signature_holds(
    public_key: Seq<u8>,
    message: Seq<u8>,
    signature: Seq<u8>,
) -> bool;

/// A salt's bytes.
pub open spec fn opt_bytes(salt: Option<&[u8]>) -> Option<Seq<u8>> {
    match salt {
        Some(salt) => Some(salt@),
        None => None,
    }
}

/// [`wacore::crypto::md5_digest`]: a digest has 16 bytes.
#[verifier::external_body]
fn core_md5(input: &[u8]) -> (out: Vec<u8>)
    ensures
        out@ == md5_of(input@),
        out@.len() == 16,
{
    wacore::crypto::md5_digest(input).to_vec()
}

/// [`wacore::libsignal::crypto::CryptographicHash`] under the name "SHA-256",
/// fed with the input and finalised: the algorithm is known there, and a
/// digest has 32 bytes.
#[verifier::external_body]
fn core_sha256(input: &[u8]) -> (res: Result<Vec<u8>, String>)
    ensures
        bytes_of(res) == Some(sha256_of(input@)),
        bytes_of(res).unwrap().len() == 32,
{
    let mut hash = wacore::libsignal::crypto::CryptographicHash::new("SHA-256").map_err(
        |error| error.to_string(),
    )?;
    hash.update(input);
    Ok(hash.finalize().to_vec())
}

/// [`wacore::crypto::hkdf_sha256`]: it refuses more than 255 blocks of 32
/// bytes, and otherwise yields exactly what was asked for.
#[verifier::external_body]
fn core_hkdf(
    input_key_material: &[u8],
    expanded_length: usize,
    salt: Option<&[u8]>,
    info: &[u8],
) -> (res: Result<Vec<u8>, CryptoError>)
    ensures
        fault_of(res) == (if expanded_length > HKDF_MAX_BYTES {
            Some(CryptoError::InvalidHkdfLength)
        } else {
            None
        }),
        bytes_of(res) matches Some(out) ==> out == hkdf_of(
            input_key_material@,
            expanded_length,
            opt_bytes(salt),
            info@,
        ) && out.len() == expanded_length,
{
    wacore::crypto::hkdf_sha256(input_key_material, expanded_length, salt, info).map_err(
        |_| CryptoError::InvalidHkdfLength,
    )
}

/// [`wacore::crypto::generate_curve_key_pair`], both keys serialised: the
/// private key is random, and the public key is the one that belongs to it.
#[verifier::external_body]
fn core_key_pair() -> (pair: (Vec<u8>, Vec<u8>))
    ensures
        pair.1@.len() == PRIVATE_KEY_BYTES,
        pair.0@ == public_of(pair.1@),
        pair.0@.len() == PUBLIC_KEY_BYTES && pair.0@[0] == KEY_TYPE_DJB,
{
    let pair = wacore::crypto::generate_curve_key_pair();
    (pair.public_key.serialize().to_vec(), pair.private_key.serialize().to_vec())
}

/// [`wacore::libsignal::protocol::PrivateKey::public_key`] of a private key
/// that parses, serialised: the type byte, then 32 bytes.
#[verifier::external_body]
fn core_public_key(private_key: &[u8]) -> (key: Option<Vec<u8>>)
    requires
        private_key_fault(private_key@) is None,
    ensures
        key is Some,
        key.unwrap()@ == public_of(private_key@),
        key.unwrap()@.len() == PUBLIC_KEY_BYTES && key.unwrap()@[0] == KEY_TYPE_DJB,
{
    let private = wacore::libsignal::protocol::PrivateKey::deserialize(private_key).ok()?;
    Some(private.public_key().ok()?.serialize().to_vec())
}

/// Whether the active provider may answer so when it is asked for the secret of
/// these two keys. Providers differ, and so may two answers.
pub uninterp spec fn may_agree(
    public_key: Seq<u8>,
    private_key: Seq<u8>,
    secret: Option<Seq<u8>>,
) -> bool;

/// [`wacore::libsignal::protocol::PrivateKey::calculate_agreement`] on keys
/// that parse: 32 bytes, or nothing where the active provider failed. Which
/// bytes is the provider's affair, so it is not stated.
#[verifier::external_body]
fn core_agreement(public_key: &[u8], private_key: &[u8]) -> (secret: Option<Vec<u8>>)
    requires
        public_key_fault(public_key@) is None,
        private_key_fault(private_key@) is None,
    ensures
        secret matches Some(bytes) ==> bytes@.len() == 32,
        may_agree(public_key@, private_key@, opt_view(secret)),
{
    let public = wacore::libsignal::protocol::PublicKey::deserialize(public_key).ok()?;
    let private = wacore::libsignal::protocol::PrivateKey::deserialize(private_key).ok()?;
    Some(private.calculate_agreement(&public).ok()?.to_vec())
}

/// [`wacore::crypto::calculate_curve_signature`] with a private key that
/// parses: 64 bytes, randomised, which hold for that key's public one.
#[verifier::external_body]
fn core_signature(private_key: &[u8], message: &[u8]) -> (signature: Option<Vec<u8>>)
    requires
        private_key_fault(private_key@) is None,
    ensures
        signature is Some,
        signature.unwrap()@.len() == 64,
        signature_holds(public_of(private_key@), message@, signature.unwrap()@),
{
    let private = wacore::libsignal::protocol::PrivateKey::deserialize(private_key).ok()?;
    Some(wacore::crypto::calculate_curve_signature(&private, message).ok()?.to_vec())
}

/// [`wacore::libsignal::protocol::PublicKey::verify_signature`] of a public
/// key that parses: a signature that is not 64 bytes long never holds.
#[verifier::external_body]
fn core_verify(public_key: &[u8], message: &[u8], signature: &[u8]) -> (holds: Option<bool>)
    requires
        public_key_fault(public_key@) is None,
    ensures
        holds == Some(signature_holds(public_key@, message@, signature@)),
        signature@.len() != 64 ==> holds == Some(false),
{
    let public = wacore::libsignal::protocol::PublicKey::deserialize(public_key).ok()?;
    Some(public.verify_signature(message, signature))
}

/// What the provider answered, as mathematical values.
pub open spec fn answer_of(answer: Result<Vec<u8>, CryptoProviderError>) -> Result<
    Seq<u8>,
    CryptoProviderError,
> {
    match answer {
        Ok(bytes) => Ok(bytes@),
        Err(error) => Err(error),
    }
}

/// Whether the active provider may answer so when it is asked to seal these
/// bytes with AES-256-GCM. Providers differ, and so may two answers.
pub uninterp spec fn may_seal(
    key: Seq<u8>,
    nonce: Seq<u8>,
    aad: Seq<u8>,
    plaintext: Seq<u8>,
    answer: Result<Seq<u8>, CryptoProviderError>,
) -> bool;

/// Whether the active provider may answer so when it is asked to open these
/// bytes with AES-256-GCM. Providers differ, and so may two answers.
pub uninterp spec fn may_open(
    key: Seq<u8>,
    nonce: Seq<u8>,
    aad: Seq<u8>,
    sealed: Seq<u8>,
    answer: Result<Seq<u8>, CryptoProviderError>,
) -> bool;

/// [`wacore::libsignal::crypto::aes_256_gcm_encrypt`], which the active
/// provider carries out: nothing is stated of the bytes or of whether they
/// come.
#[verifier::external_body]
fn core_gcm_encrypt(key: &[u8; 32], nonce: &[u8; 12], aad: &[u8], plaintext: &[u8]) -> (answer:
    Result<Vec<u8>, CryptoProviderError>)
    requires
        plaintext@.len() <= u32::MAX,
    ensures
        may_seal(key@, nonce@, aad@, plaintext@, answer_of(answer)),
{
    let mut output = Vec::with_capacity(plaintext.len() + 16);
    match wacore::libsignal::crypto::aes_256_gcm_encrypt(key, nonce, aad, plaintext, &mut output) {
        Ok(()) => Ok(output),
        Err(CoreProviderError::BadInput) => Err(CryptoProviderError::BadInput),
        Err(CoreProviderError::AuthFailed) => Err(CryptoProviderError::AuthFailed),
        Err(CoreProviderError::BackendFailed) => Err(CryptoProviderError::BackendFailed),
    }
}

/// [`wacore::libsignal::crypto::aes_256_gcm_decrypt`], which the active
/// provider carries out: nothing is stated of the bytes or of whether they
/// come.
#[verifier::external_body]
fn core_gcm_decrypt(key: &[u8; 32], nonce: &[u8; 12], aad: &[u8], sealed: &[u8]) -> (answer:
    Result<Vec<u8>, CryptoProviderError>)
    requires
        sealed@.len() <= u32::MAX,
    ensures
        may_open(key@, nonce@, aad@, sealed@, answer_of(answer)),
{
    let mut output = Vec::with_capacity(sealed.len());
    match wacore::libsignal::crypto::aes_256_gcm_decrypt(key, nonce, aad, sealed, &mut output) {
        Ok(()) => Ok(output),
        Err(CoreProviderError::BadInput) => Err(CryptoProviderError::BadInput),
        Err(CoreProviderError::AuthFailed) => Err(CryptoProviderError::AuthFailed),
        Err(CoreProviderError::BackendFailed) => Err(CryptoProviderError::BackendFailed),
    }
}

/// The MD5 digest of some bytes.
pub fn md5_digest(input: &[u8]) -> (out: Vec<u8>)
    ensures
        out@ == md5_of(input@),
        out@.len() == 16,
{
    core_md5(input)
}

/// The complaint about an input of the wrong length.
pub open spec fn wrong_length(field: Seq<char>, n: nat) -> BridgeErrorView {
    BridgeErrorView::InvalidArgument {
        field,
        reason: "must be exactly "@ + decimal(n) + " bytes"@,
    }
}

/// The bytes of an input that has a fixed length.
pub fn fixed_bytes<const N: usize>(field: &str, input: &[u8]) -> (res: Result<[u8; N], BridgeError>)
    ensures
        match res {
            Ok(bytes) => bytes@ == input@,
            Err(e) => input@.len() != N && e@ == wrong_length(field@, N as nat),
        },
{
    if input.len() != N {
        let mut reason = "must be exactly ".to_owned();
        push_decimal(&mut reason, N as u64);
        reason.push_str(" bytes");
        return Err(invalid_arg(field, reason));
    }
    let mut bytes: [u8; N] = [0u8; N];
    let mut i: usize = 0;
    while i < N
        invariant
            i <= N,
            input@.len() == N,
            forall|j: int| 0 <= j < i ==> bytes@[j] == input@[j],
        decreases N - i,
    {
        bytes[i] = input[i];
        i += 1;
    }
    assert(bytes@ =~= input@);
    Ok(bytes)
}

/// The complaint about a failed operation.
pub open spec fn crypto_failure_view(
    operation: Seq<char>,
    error: CryptoProviderError,
) -> BridgeErrorView {
    BridgeErrorView::Crypto { operation: operation + ": "@ + error.text() }
}

/// The error of a failed operation.
pub fn crypto_failure(operation: &str, error: CryptoProviderError) -> (e: BridgeError)
    ensures
        e@ == crypto_failure_view(operation@, error),
{
    let mut s = operation.to_owned();
    s.push_str(": ");
    s.push_str(error.message().as_str());
    BridgeError::Crypto { operation: s }
}

/// What the sizes of a sealing's inputs are refused with.
pub open spec fn encrypt_refusal(key: Seq<u8>, nonce: Seq<u8>) -> Option<BridgeErrorView> {
    if key.len() != 32 {
        Some(wrong_length("key"@, 32))
    } else if nonce.len() != 12 {
        Some(wrong_length("nonce"@, 12))
    } else {
        None
    }
}

/// What the sizes of an opening's inputs are refused with.
pub open spec fn decrypt_refusal(key: Seq<u8>, nonce: Seq<u8>, sealed: Seq<u8>) -> Option<
    BridgeErrorView,
> {
    match encrypt_refusal(key, nonce) {
        Some(e) => Some(e),
        None => if sealed.len() < 16 {
            Some(
                BridgeErrorView::InvalidArgument {
                    field: "ciphertextWithTag"@,
                    reason: "must include a 16-byte authentication tag"@,
                },
            )
        } else {
            None
        },
    }
}

/// Whether this is what a caller gets of what the provider answered: its bytes,
/// or its failure under the operation's name.
pub open spec fn relays(
    operation: Seq<char>,
    answer: Result<Seq<u8>, CryptoProviderError>,
    res: Result<Vec<u8>, BridgeError>,
) -> bool {
    match (answer, res) {
        (Ok(bytes), Ok(out)) => out@ == bytes,
        (Err(error), Err(e)) => e@ == crypto_failure_view(operation, error),
        _ => false,
    }
}

/// What a caller gets of what the provider answered.
pub fn provider_result(operation: &str, answer: Result<Vec<u8>, CryptoProviderError>) -> (res:
    Result<Vec<u8>, BridgeError>)
    ensures
        relays(operation@, answer_of(answer), res),
{
    match answer {
        Ok(bytes) => Ok(bytes),
        Err(error) => Err(crypto_failure(operation, error)),
    }
}

/// Encrypts with the active provider. The returned bytes are the ciphertext
/// and then the authentication tag.
pub fn aes_gcm_256_encrypt(key: &[u8], nonce: &[u8], aad: &[u8], plaintext: &[u8]) -> (res: Result<
    Vec<u8>,
    BridgeError,
>)
    requires
        plaintext@.len() <= u32::MAX,
    ensures
        match encrypt_refusal(key@, nonce@) {
            Some(refusal) => res is Err && res.unwrap_err()@ == refusal,
            None => exists|answer: Result<Seq<u8>, CryptoProviderError>|
                #[trigger] may_seal(key@, nonce@, aad@, plaintext@, answer) && relays(
                    "AES-256-GCM encrypt"@,
                    answer,
                    res,
                ),
        },
{
    let key = fixed_bytes::<32>("key", key)?;
    let nonce = fixed_bytes::<12>("nonce", nonce)?;
    let answer = core_gcm_encrypt(&key, &nonce, aad, plaintext);
    provider_result("AES-256-GCM encrypt", answer)
}

/// Decrypts what [`aes_gcm_256_encrypt`] returned.
pub fn aes_gcm_256_decrypt(
    key: &[u8],
    nonce: &[u8],
    aad: &[u8],
    ciphertext_with_tag: &[u8],
) -> (res: Result<Vec<u8>, BridgeError>)
    requires
        ciphertext_with_tag@.len() <= u32::MAX,
    ensures
        match decrypt_refusal(key@, nonce@, ciphertext_with_tag@) {
            Some(refusal) => res is Err && res.unwrap_err()@ == refusal,
            None => exists|answer: Result<Seq<u8>, CryptoProviderError>|
                #[trigger] may_open(key@, nonce@, aad@, ciphertext_with_tag@, answer) && relays(
                    "AES-256-GCM decrypt"@,
                    answer,
                    res,
                ),
        },
{
    let key = fixed_bytes::<32>("key", key)?;
    let nonce = fixed_bytes::<12>("nonce", nonce)?;
    if ciphertext_with_tag.len() < 16 {
        return Err(
            invalid_arg(
                "ciphertextWithTag",
                "must include a 16-byte authentication tag".to_owned(),
            ),
        );
    }
    let answer = core_gcm_decrypt(&key, &nonce, aad, ciphertext_with_tag);
    provider_result("AES-256-GCM decrypt", answer)
}

/// Hashes arbitrary bytes with SHA-256.
pub fn sha256_digest(input: &[u8]) -> (res: Result<Vec<u8>, BridgeError>)
    ensures
        bytes_of(res) == Some(sha256_of(input@)),
        bytes_of(res).unwrap().len() == 32,
{
    match core_sha256(input) {
        Ok(out) => Ok(out),
        Err(error) => {
            let mut message = "initialize SHA-256: ".to_owned();
            message.push_str(error.as_str());
            Err(BridgeError::Internal { message })
        },
    }
}

/// Expands key material to so many bytes.
pub fn hkdf_sha256(
    input_key_material: &[u8],
    expanded_length: usize,
    options: &HkdfInfo,
) -> (res: Result<Vec<u8>, CryptoError>)
    ensures
        match res {
            Ok(out) => expanded_length <= HKDF_MAX_BYTES && out@.len() == expanded_length && out@
                == hkdf_of(
                input_key_material@,
                expanded_length,
                options.salt_bytes(),
                options.info_bytes(),
            ),
            Err(e) => expanded_length > HKDF_MAX_BYTES && e == CryptoError::InvalidHkdfLength,
        },
{
    let salt = match &options.salt {
        Some(salt) => Some(salt.as_slice()),
        None => None,
    };
    let info = match &options.info {
        Some(info) => info.as_str().as_bytes(),
        None => &[],
    };
    assert(info@ =~= options.info_bytes());
    core_hkdf(input_key_material, expanded_length, salt, info)
}

/// A fresh key pair.
pub fn generate_key_pair() -> (pair: KeyPair)
    ensures
        private_key_fault(pair.priv_key@) is None,
        pair.pub_key@ == public_of(pair.priv_key@),
        pair.pub_key@.len() == PUBLIC_KEY_BYTES,
        public_key_fault(pair.pub_key@) is None,
{
    let (pub_key, priv_key) = core_key_pair();
    KeyPair { pub_key, priv_key }
}

/// Checks the bytes of a public key.
pub fn check_public_key(key: &[u8]) -> (res: Result<(), CurveError>)
    ensures
        fault_of(res) == public_key_fault(key@),
{
    if key.len() == 0 {
        Err(CurveError::NoKeyTypeIdentifier)
    } else if key[0] != KEY_TYPE_DJB {
        Err(CurveError::BadKeyType(key[0]))
    } else if key.len() < PUBLIC_KEY_BYTES {
        Err(CurveError::BadKeyLength(key.len()))
    } else {
        Ok(())
    }
}

/// Checks the bytes of a private key.
pub fn check_private_key(key: &[u8]) -> (res: Result<(), CurveError>)
    ensures
        fault_of(res) == private_key_fault(key@),
{
    if key.len() != PRIVATE_KEY_BYTES {
        Err(CurveError::BadKeyLength(key.len()))
    } else {
        Ok(())
    }
}

/// The public key of a private one.
pub fn public_from_private_key(private_key: &[u8]) -> (res: Result<Vec<u8>, CurveError>)
    ensures
        fault_of(res) == private_key_fault(private_key@),
        res matches Ok(key) ==> key@ == public_of(private_key@) && key@.len() == PUBLIC_KEY_BYTES
            && public_key_fault(key@) is None,
{
    check_private_key(private_key)?;
    Ok(core_public_key(private_key).unwrap())
}

/// What an agreement's keys are refused with; the public key is read first.
pub open spec fn agreement_refusal(public_key: Seq<u8>, private_key: Seq<u8>) -> Option<
    CurveError,
> {
    match public_key_fault(public_key) {
        Some(e) => Some(e),
        None => private_key_fault(private_key),
    }
}

/// What a caller gets of an agreement that the provider carried out.
pub fn agreement_result(secret: Option<Vec<u8>>) -> (res: Result<Vec<u8>, CurveError>)
    ensures
        match (secret, res) {
            (Some(bytes), Ok(out)) => out@ == bytes@,
            (None, Err(e)) => e == CurveError::AgreementFailed,
            _ => false,
        },
{
    match secret {
        Some(bytes) => Ok(bytes),
        None => Err(CurveError::AgreementFailed),
    }
}

/// The secret that two keys agree on.
pub fn calculate_agreement(public_key: &[u8], private_key: &[u8]) -> (res: Result<
    Vec<u8>,
    CurveError,
>)
    ensures
        match agreement_refusal(public_key@, private_key@) {
            Some(e) => fault_of(res) == Some(e),
            None => may_agree(public_key@, private_key@, bytes_of(res)) && match res {
                Ok(secret) => secret@.len() == 32,
                Err(e) => e == CurveError::AgreementFailed,
            },
        },
{
    check_public_key(public_key)?;
    check_private_key(private_key)?;
    let secret = core_agreement(public_key, private_key);
    agreement_result(secret)
}

/// A signature over a message. It holds for the private key's public one.
pub fn calculate_signature(private_key: &[u8], message: &[u8]) -> (res: Result<
    Vec<u8>,
    CurveError,
>)
    ensures
        fault_of(res) == private_key_fault(private_key@),
        res matches Ok(signature) ==> signature@.len() == 64 && signature_holds(
            public_of(private_key@),
            message@,
            signature@,
        ),
{
    check_private_key(private_key)?;
    Ok(core_signature(private_key, message).unwrap())
}

/// Whether a signature over a message is one of the public key's.
pub fn verify_signature(public_key: &[u8], message: &[u8], signature: &[u8]) -> (res: Result<
    bool,
    CurveError,
>)
    ensures
        fault_of(res) == public_key_fault(public_key@),
        res matches Ok(holds) ==> holds == signature_holds(public_key@, message@, signature@) && (
        signature@.len() != 64 ==> !holds),
{
    check_public_key(public_key)?;
    Ok(core_verify(public_key, message, signature).unwrap())
}

} // verus!
