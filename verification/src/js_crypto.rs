//! Which crypto runs in the host and which stays here.
//!
//! Large AES-CBC and AES-GCM operations are delegated to the host, whose
//! native ciphers win once the payload outweighs the crossing. Small AES,
//! one-shot HMAC, in-place CBC and the transport stay in software. What the
//! host hands back is checked before it is used.

use vstd::prelude::*;
use wacore::libsignal::crypto::CryptoProviderError as CoreProviderError;
use wacore::libsignal::crypto::{RustCryptoProvider, SignalCryptoProvider};

use crate::crypto::{fault_of, CryptoProviderError};

verus! {

/// From so many bytes on, the host encrypts CBC.
pub const NATIVE_CBC_ENCRYPT_MIN_BYTES: usize = 512;

/// From so many bytes on, the host decrypts CBC.
pub const NATIVE_CBC_DECRYPT_MIN_BYTES: usize = 2048;

/// From so many bytes of plaintext on, the host does GCM.
pub const NATIVE_GCM_MIN_BYTES: usize = 2048;

/// From so many bytes on, the host does a two-part HMAC.
pub const NATIVE_HMAC_MIN_BYTES: usize = 8192;

/// The bytes of a CBC block.
pub const AES_CBC_BLOCK_BYTES: usize = 16;

/// The bytes of a GCM authentication tag.
pub const GCM_AUTH_TAG_BYTES: usize = 16;

/// The bytes of an HMAC-SHA256.
pub const HMAC_SHA256_BYTES: usize = 32;

/// CBC encryption is serial, so it crosses over before CBC decryption; GCM
/// crosses over before HMAC.
pub proof fn thresholds_are_ordered()
    ensures
        NATIVE_CBC_ENCRYPT_MIN_BYTES < NATIVE_CBC_DECRYPT_MIN_BYTES,
        NATIVE_GCM_MIN_BYTES < NATIVE_HMAC_MIN_BYTES,
{
}

/// Whether a payload is large enough for the host.
pub fn use_native(payload_len: usize, min_bytes: usize) -> (b: bool)
    ensures
        b == (payload_len >= min_bytes),
{
    payload_len >= min_bytes
}

/// The plaintext's length in a sealed payload; none, where there is not even a
/// tag.
pub open spec fn plaintext_len(ciphertext_len: nat) -> nat {
    if ciphertext_len < GCM_AUTH_TAG_BYTES {
        0
    } else {
        (ciphertext_len - GCM_AUTH_TAG_BYTES) as nat
    }
}

/// The plaintext's length in a sealed payload.
pub fn gcm_plaintext_len(ciphertext_len: usize) -> (n: usize)
    ensures
        n == plaintext_len(ciphertext_len as nat),
{
    ciphertext_len.saturating_sub(GCM_AUTH_TAG_BYTES)
}

/// What became of an operation that may be the host's.
#[derive(Debug, Clone, Copy, PartialEq, Eq, Structural)]
pub enum Routed {
    /// The host has to carry it out.
    Host,
    /// It was carried out here.
    Done,
    /// It was refused here.
    Refused(CryptoProviderError),
}

fn settled(res: Result<(), CryptoProviderError>) -> (routed: Routed)
    ensures
        routed == settlement(fault_of(res)),
{
    match res {
        Ok(()) => Routed::Done,
        Err(e) => Routed::Refused(e),
    }
}

/// How an operation ended that was carried out here.
pub open spec fn settlement(fault: Option<CryptoProviderError>) -> Routed {
    match fault {
        None => Routed::Done,
        Some(e) => Routed::Refused(e),
    }
}

/// What the host's callback came back with.
#[derive(Debug, Clone, PartialEq, Eq)]
pub enum HostAnswer {
    /// It threw.
    Threw,
    /// It returned something that is not bytes.
    NotBytes,
    /// It returned these bytes.
    Bytes(Vec<u8>),
}

/// The padded length of a plaintext: the next multiple of a block above it.
pub open spec fn padded_len(n: nat) -> nat {
    (n - n % 16 + 16) as nat
}

/// Whether bytes can be a CBC ciphertext.
pub open spec fn whole_blocks(n: nat) -> bool {
    n > 0 && n % 16 == 0
}

/// The ciphertext of a plaintext under AES-256-CBC with PKCS#7 padding, as
/// [`RustCryptoProvider`] has it.
pub uninterp spec fn cbc_sealed(key: Seq<u8>, iv: Seq<u8>, plaintext: Seq<u8>) -> Seq<u8>;

/// The plaintext of whole blocks under AES-256-CBC with PKCS#7 padding, or
/// nothing where the padding is wrong, as [`RustCryptoProvider`] has it.
pub uninterp spec fn cbc_opened(key: Seq<u8>, iv: Seq<u8>, ciphertext: Seq<u8>) -> Option<Seq<u8>>;

/// The ciphertext and tag of a plaintext under AES-256-GCM, as
/// [`RustCryptoProvider`] has them.
pub uninterp spec fn gcm_sealed(
    key: Seq<u8>,
    nonce: Seq<u8>,
    aad: Seq<u8>,
    plaintext: Seq<u8>,
) -> Seq<u8>;

/// The plaintext of a ciphertext and its tag under AES-256-GCM, or nothing
/// where the tag does not match, as [`RustCryptoProvider`] has it.
pub uninterp spec fn gcm_opened(
    key: Seq<u8>,
    nonce: Seq<u8>,
    aad: Seq<u8>,
    sealed: Seq<u8>,
) -> Option<Seq<u8>>;

/// The HMAC-SHA256 of some bytes, as [`RustCryptoProvider`] has it.
pub uninterp spec fn hmac_of(key: Seq<u8>, input: Seq<u8>) -> Seq<u8>;

/// What was appended to a buffer.
pub open spec fn appended(before: Seq<u8>, after: Seq<u8>) -> Seq<u8> {
    after.skip(before.len() as int)
}

/// `RustCryptoProvider::aes_256_cbc_encrypt`: it appends the padded
/// ciphertext, which the same key and vector open again.
#[verifier::external_body]
fn soft_cbc_encrypt(key: &[u8; 32], iv: &[u8; 16], plaintext: &[u8], out: &mut Vec<u8>) -> (res:
    Result<(), CryptoProviderError>)
    ensures
        res is Ok,
        final(out)@ == old(out)@ + cbc_sealed(key@, iv@, plaintext@),
        final(out)@.len() == old(out)@.len() + padded_len(plaintext@.len()),
        cbc_opened(key@, iv@, appended(old(out)@, final(out)@)) == Some(plaintext@),
{
    RustCryptoProvider.aes_256_cbc_encrypt(key, iv, plaintext, out).map_err(
        |_| CryptoProviderError::BadInput,
    )
}

/// `RustCryptoProvider::aes_256_cbc_decrypt`: a length that is not whole
/// blocks is refused before the buffer is touched, wrong padding after; else
/// the buffer becomes the plaintext. What a buffer holds after wrong padding
/// is not stated.
#[verifier::external_body]
fn soft_cbc_decrypt(key: &[u8; 32], iv: &[u8; 16], ciphertext: &[u8], out: &mut Vec<u8>) -> (res:
    Result<(), CryptoProviderError>)
    ensures
        fault_of(res) == cbc_fault(key@, iv@, ciphertext@),
        res is Ok ==> cbc_opened(key@, iv@, ciphertext@) == Some(final(out)@),
        !whole_blocks(ciphertext@.len()) ==> final(out)@ == old(out)@,
{
    RustCryptoProvider.aes_256_cbc_decrypt(key, iv, ciphertext, out).map_err(
        |_| CryptoProviderError::BadInput,
    )
}

/// `RustCryptoProvider::aes_256_cbc_decrypt_in_place`: the same as out of
/// place, on the ciphertext's own buffer.
#[verifier::external_body]
fn soft_cbc_decrypt_in_place(key: &[u8; 32], iv: &[u8; 16], buffer: &mut Vec<u8>) -> (res: Result<
    (),
    CryptoProviderError,
>)
    ensures
        fault_of(res) == cbc_fault(key@, iv@, old(buffer)@),
        res is Ok ==> cbc_opened(key@, iv@, old(buffer)@) == Some(final(buffer)@),
        !whole_blocks(old(buffer)@.len()) ==> final(buffer)@ == old(buffer)@,
{
    RustCryptoProvider.aes_256_cbc_decrypt_in_place(key, iv, buffer).map_err(
        |_| CryptoProviderError::BadInput,
    )
}

/// `RustCryptoProvider::aes_256_gcm_encrypt`: it appends the ciphertext, as
/// long as the plaintext, and a tag, which the same key, nonce and data open
/// again. The counter of a block is 32 bits wide, which bounds the plaintext.
#[verifier::external_body]
fn soft_gcm_encrypt(
    key: &[u8; 32],
    nonce: &[u8; 12],
    aad: &[u8],
    plaintext: &[u8],
    out: &mut Vec<u8>,
) -> (res: Result<(), CryptoProviderError>)
    requires
        plaintext@.len() <= u32::MAX,
    ensures
        res is Ok,
        final(out)@ == old(out)@ + gcm_sealed(key@, nonce@, aad@, plaintext@),
        final(out)@.len() == old(out)@.len() + plaintext@.len() + GCM_AUTH_TAG_BYTES,
        gcm_opened(key@, nonce@, aad@, appended(old(out)@, final(out)@)) == Some(plaintext@),
{
    RustCryptoProvider.aes_256_gcm_encrypt(key, nonce, aad, plaintext, out).map_err(
        |_| CryptoProviderError::BadInput,
    )
}

/// `RustCryptoProvider::aes_256_gcm_decrypt`: without room for a tag the input
/// is refused, with another tag it does not authenticate, and either leaves
/// the buffer as it was; else the plaintext is appended.
#[verifier::external_body]
fn soft_gcm_decrypt(
    key: &[u8; 32],
    nonce: &[u8; 12],
    aad: &[u8],
    sealed: &[u8],
    out: &mut Vec<u8>,
) -> (res: Result<(), CryptoProviderError>)
    requires
        sealed@.len() <= u32::MAX,
    ensures
        fault_of(res) == gcm_fault(key@, nonce@, aad@, sealed@),
        res is Err ==> final(out)@ == old(out)@,
        res is Ok ==> final(out)@ == old(out)@ + gcm_opened(key@, nonce@, aad@, sealed@).unwrap(),
        res is Ok ==> final(out)@.len() + GCM_AUTH_TAG_BYTES == old(out)@.len() + sealed@.len(),
{
    match RustCryptoProvider.aes_256_gcm_decrypt(key, nonce, aad, sealed, out) {
        Ok(()) => Ok(()),
        Err(CoreProviderError::BadInput) => Err(CryptoProviderError::BadInput),
        Err(CoreProviderError::AuthFailed) => Err(CryptoProviderError::AuthFailed),
        Err(CoreProviderError::BackendFailed) => Err(CryptoProviderError::BackendFailed),
    }
}

/// `RustCryptoProvider::hmac_sha256`.
#[verifier::external_body]
fn soft_hmac(key: &[u8], input: &[u8]) -> (mac: [u8; 32])
    ensures
        mac@ == hmac_of(key@, input@),
{
    RustCryptoProvider.hmac_sha256(key, input)
}

/// `RustCryptoProvider::hmac_sha256_two_part`: the HMAC of the two parts
/// joined.
#[verifier::external_body]
fn soft_hmac_two_part(key: &[u8], first: &[u8], second: &[u8]) -> (mac: [u8; 32])
    ensures
        mac@ == hmac_of(key@, first@ + second@),
{
    RustCryptoProvider.hmac_sha256_two_part(key, first, second)
}

/// What a software CBC decryption fails with.
pub open spec fn cbc_fault(key: Seq<u8>, iv: Seq<u8>, ciphertext: Seq<u8>) -> Option<
    CryptoProviderError,
> {
    if whole_blocks(ciphertext.len()) && cbc_opened(key, iv, ciphertext) is Some {
        None
    } else {
        Some(CryptoProviderError::BadInput)
    }
}

/// What a software GCM opening fails with.
pub open spec fn gcm_fault(key: Seq<u8>, nonce: Seq<u8>, aad: Seq<u8>, sealed: Seq<u8>) -> Option<
    CryptoProviderError,
> {
    if sealed.len() < GCM_AUTH_TAG_BYTES {
        Some(CryptoProviderError::BadInput)
    } else if gcm_opened(key, nonce, aad, sealed) is None {
        Some(CryptoProviderError::AuthFailed)
    } else {
        None
    }
}

/// Encrypts CBC, unless that is the host's.
pub fn aes_256_cbc_encrypt(
    key: &[u8; 32],
    iv: &[u8; 16],
    plaintext: &[u8],
    out: &mut Vec<u8>,
) -> (routed: Routed)
    ensures
        plaintext@.len() >= NATIVE_CBC_ENCRYPT_MIN_BYTES ==> routed == Routed::Host && final(out)@
            == old(out)@,
        plaintext@.len() < NATIVE_CBC_ENCRYPT_MIN_BYTES ==> {
            &&& routed == Routed::Done
            &&& final(out)@ == old(out)@ + cbc_sealed(key@, iv@, plaintext@)
            &&& cbc_opened(key@, iv@, appended(old(out)@, final(out)@)) == Some(plaintext@)
        },
{
    if use_native(plaintext.len(), NATIVE_CBC_ENCRYPT_MIN_BYTES) {
        Routed::Host
    } else {
        settled(soft_cbc_encrypt(key, iv, plaintext, out))
    }
}

/// Decrypts CBC, unless that is the host's. The buffer is replaced.
pub fn aes_256_cbc_decrypt(
    key: &[u8; 32],
    iv: &[u8; 16],
    ciphertext: &[u8],
    out: &mut Vec<u8>,
) -> (routed: Routed)
    ensures
        ciphertext@.len() >= NATIVE_CBC_DECRYPT_MIN_BYTES ==> routed == Routed::Host && final(out)@ == old(out)@,
        ciphertext@.len() < NATIVE_CBC_DECRYPT_MIN_BYTES ==> {
            &&& routed == settlement(cbc_fault(key@, iv@, ciphertext@))
            &&& routed == Routed::Done ==> cbc_opened(key@, iv@, ciphertext@) == Some(
                final(out)@,
            )
            &&& !whole_blocks(ciphertext@.len()) ==> final(out)@ == old(out)@
        },
{
    if use_native(ciphertext.len(), NATIVE_CBC_DECRYPT_MIN_BYTES) {
        Routed::Host
    } else {
        settled(soft_cbc_decrypt(key, iv, ciphertext, out))
    }
}

/// Decrypts CBC in the caller's buffer, always here: the host would hold a
/// second copy of the whole payload.
pub fn aes_256_cbc_decrypt_in_place(key: &[u8; 32], iv: &[u8; 16], buffer: &mut Vec<u8>) -> (res:
    Result<(), CryptoProviderError>)
    ensures
        fault_of(res) == cbc_fault(key@, iv@, old(buffer)@),
        res is Ok ==> cbc_opened(key@, iv@, old(buffer)@) == Some(final(buffer)@),
        !whole_blocks(old(buffer)@.len()) ==> final(buffer)@ == old(buffer)@,
{
    soft_cbc_decrypt_in_place(key, iv, buffer)
}

/// Seals with GCM, unless that is the host's.
pub fn aes_256_gcm_encrypt(
    key: &[u8; 32],
    nonce: &[u8; 12],
    aad: &[u8],
    plaintext: &[u8],
    out: &mut Vec<u8>,
) -> (routed: Routed)
    ensures
        plaintext@.len() >= NATIVE_GCM_MIN_BYTES ==> routed == Routed::Host && final(out)@ == old(out)@,
        plaintext@.len() < NATIVE_GCM_MIN_BYTES ==> {
            &&& routed == Routed::Done
            &&& final(out)@ == old(out)@ + gcm_sealed(key@, nonce@, aad@, plaintext@)
            &&& gcm_opened(key@, nonce@, aad@, appended(old(out)@, final(out)@)) == Some(plaintext@)
        },
{
    if use_native(plaintext.len(), NATIVE_GCM_MIN_BYTES) {
        Routed::Host
    } else {
        settled(soft_gcm_encrypt(key, nonce, aad, plaintext, out))
    }
}

/// Opens with GCM, unless that is the host's. The plaintext's size decides,
/// not the tagged one.
pub fn aes_256_gcm_decrypt(
    key: &[u8; 32],
    nonce: &[u8; 12],
    aad: &[u8],
    ciphertext_with_tag: &[u8],
    out: &mut Vec<u8>,
) -> (routed: Routed)
    ensures
        plaintext_len(ciphertext_with_tag@.len()) >= NATIVE_GCM_MIN_BYTES ==> routed
            == Routed::Host && final(out)@ == old(out)@,
        plaintext_len(ciphertext_with_tag@.len()) < NATIVE_GCM_MIN_BYTES ==> match gcm_fault(
            key@,
            nonce@,
            aad@,
            ciphertext_with_tag@,
        ) {
            Some(e) => routed == Routed::Refused(e) && final(out)@ == old(out)@,
            None => routed == Routed::Done && final(out)@ == old(out)@ + gcm_opened(
                key@,
                nonce@,
                aad@,
                ciphertext_with_tag@,
            ).unwrap(),
        },
{
    let plaintext_len: usize = gcm_plaintext_len(ciphertext_with_tag.len());
    if use_native(plaintext_len, NATIVE_GCM_MIN_BYTES) {
        Routed::Host
    } else {
        settled(soft_gcm_decrypt(key, nonce, aad, ciphertext_with_tag, out))
    }
}

/// Whether the host seals a buffer of so many bytes in place.
pub fn host_seals_in_place(buffer_len: usize) -> (b: bool)
    ensures
        b == (buffer_len >= NATIVE_GCM_MIN_BYTES),
{
    use_native(buffer_len, NATIVE_GCM_MIN_BYTES)
}

/// Whether the host opens a sealed buffer of so many bytes in place.
pub fn host_opens_in_place(buffer_len: usize) -> (b: bool)
    ensures
        b == (plaintext_len(buffer_len as nat) >= NATIVE_GCM_MIN_BYTES),
{
    use_native(gcm_plaintext_len(buffer_len), NATIVE_GCM_MIN_BYTES)
}

/// An HMAC, always here.
pub fn hmac_sha256(key: &[u8], input: &[u8]) -> (mac: [u8; 32])
    ensures
        mac@ == hmac_of(key@, input@),
{
    soft_hmac(key, input)
}

/// Whether the host does an HMAC over two parts: it has to offer that, and
/// together they have to be large enough.
pub open spec fn host_does_two_part(first: nat, second: nat, offered: bool) -> bool {
    offered && first + second >= NATIVE_HMAC_MIN_BYTES
}

/// An HMAC over two parts, or nothing where that is the host's.
pub fn hmac_sha256_two_part(key: &[u8], first: &[u8], second: &[u8], offered: bool) -> (mac: Option<
    [u8; 32],
>)
    ensures
        match mac {
            None => host_does_two_part(first@.len(), second@.len(), offered),
            Some(mac) => !host_does_two_part(first@.len(), second@.len(), offered) && mac@
                == hmac_of(key@, first@ + second@),
        },
{
    if offered && first.len().saturating_add(second.len()) >= NATIVE_HMAC_MIN_BYTES {
        None
    } else {
        Some(soft_hmac_two_part(key, first, second))
    }
}

/// Takes an HMAC that the host returned.
pub fn hmac_result(bytes: &[u8]) -> (mac: [u8; 32])
    requires
        bytes@.len() == HMAC_SHA256_BYTES,
    ensures
        mac@ == bytes@,
{
    let mut mac: [u8; 32] = [0u8; 32];
    let mut i: usize = 0;
    while i < 32
        invariant
            i <= 32,
            bytes@.len() == 32,
            forall|j: int| 0 <= j < i ==> mac@[j] == bytes@[j],
        decreases 32 - i,
    {
        mac[i] = bytes[i];
        i += 1;
    }
    assert(mac@ =~= bytes@);
    mac
}

/// The bytes that the host answered with, or what its silence means: a
/// callback that threw fails with `thrown`, one that returned no bytes is a
/// failed backend.
pub open spec fn host_bytes(answer: HostAnswer, thrown: CryptoProviderError) -> Result<
    Seq<u8>,
    CryptoProviderError,
> {
    match answer {
        HostAnswer::Threw => Err(thrown),
        HostAnswer::NotBytes => Err(CryptoProviderError::BackendFailed),
        HostAnswer::Bytes(bytes) => Ok(bytes@),
    }
}

fn taken(answer: HostAnswer, thrown: CryptoProviderError) -> (res: Result<
    Vec<u8>,
    CryptoProviderError,
>)
    ensures
        match (host_bytes(answer, thrown), res) {
            (Ok(bytes), Ok(out)) => out@ == bytes,
            (Err(e), Err(f)) => e == f,
            _ => false,
        },
{
    match answer {
        HostAnswer::Threw => Err(thrown),
        HostAnswer::NotBytes => Err(CryptoProviderError::BackendFailed),
        HostAnswer::Bytes(bytes) => Ok(bytes),
    }
}

/// Takes what the host encrypted, with either cipher: it is appended.
pub fn host_encrypted(answer: HostAnswer, out: &mut Vec<u8>) -> (res: Result<
    (),
    CryptoProviderError,
>)
    ensures
        match host_bytes(answer, CryptoProviderError::BackendFailed) {
            Ok(bytes) => res is Ok && final(out)@ == old(out)@ + bytes,
            Err(e) => res == Err::<(), CryptoProviderError>(e) && final(out)@ == old(out)@,
        },
{
    let bytes = taken(answer, CryptoProviderError::BackendFailed)?;
    out.extend_from_slice(bytes.as_slice());
    Ok(())
}

/// Takes what the host decrypted with CBC: it replaces the buffer, which is
/// cleared in any case.
pub fn host_cbc_decrypted(answer: HostAnswer, out: &mut Vec<u8>) -> (res: Result<
    (),
    CryptoProviderError,
>)
    ensures
        match host_bytes(answer, CryptoProviderError::BackendFailed) {
            Ok(bytes) => res is Ok && final(out)@ == bytes,
            Err(e) => res == Err::<(), CryptoProviderError>(e) && final(out)@.len() == 0,
        },
{
    out.clear();
    let bytes = taken(answer, CryptoProviderError::BackendFailed)?;
    out.extend_from_slice(bytes.as_slice());
    assert(out@ =~= bytes@);
    Ok(())
}

/// Takes what the host opened with GCM: it is appended. The host throws where
/// the tag does not match.
pub fn host_gcm_decrypted(answer: HostAnswer, out: &mut Vec<u8>) -> (res: Result<
    (),
    CryptoProviderError,
>)
    ensures
        match host_bytes(answer, CryptoProviderError::AuthFailed) {
            Ok(bytes) => res is Ok && final(out)@ == old(out)@ + bytes,
            Err(e) => res == Err::<(), CryptoProviderError>(e) && final(out)@ == old(out)@,
        },
{
    let bytes = taken(answer, CryptoProviderError::AuthFailed)?;
    out.extend_from_slice(bytes.as_slice());
    Ok(())
}

/// Whether a ciphertext of so many bytes may go to the host for decryption.
pub fn check_cbc_ciphertext(ciphertext_len: usize) -> (res: Result<(), CryptoProviderError>)
    ensures
        fault_of(res) == (if whole_blocks(ciphertext_len as nat) {
            None
        } else {
            Some(CryptoProviderError::BadInput)
        }),
{
    if ciphertext_len == 0 || ciphertext_len % AES_CBC_BLOCK_BYTES != 0 {
        return Err(CryptoProviderError::BadInput);
    }
    Ok(())
}

/// What a buffer becomes when the host answered an in-place operation on it:
/// the answer's bytes, if there are as many as the operation yields.
pub open spec fn in_place(
    answer: HostAnswer,
    thrown: CryptoProviderError,
    fits: spec_fn(nat) -> bool,
) -> Result<Seq<u8>, CryptoProviderError> {
    match host_bytes(answer, thrown) {
        Ok(bytes) if !fits(bytes.len()) => Err(CryptoProviderError::BackendFailed),
        other => other,
    }
}

/// Whether a CBC plaintext of `n` bytes can come of a ciphertext of `m`: a
/// block or less of padding is gone.
pub open spec fn unpads(m: nat, n: nat) -> bool {
    1 <= m - n <= AES_CBC_BLOCK_BYTES
}

/// Puts what the host decrypted with CBC in place of the ciphertext.
pub fn host_cbc_decrypted_in_place(buffer: &mut Vec<u8>, answer: HostAnswer) -> (res: Result<
    (),
    CryptoProviderError,
>)
    ensures
        match in_place(
            answer,
            CryptoProviderError::BackendFailed,
            |n: nat| unpads(old(buffer)@.len(), n),
        ) {
            Ok(bytes) => res is Ok && final(buffer)@ == bytes,
            Err(e) => res == Err::<(), CryptoProviderError>(e) && final(buffer)@ == old(buffer)@,
        },
{
    let bytes = taken(answer, CryptoProviderError::BackendFailed)?;
    let before: usize = buffer.len();
    if bytes.len() >= before || before - bytes.len() > AES_CBC_BLOCK_BYTES {
        return Err(CryptoProviderError::BackendFailed);
    }
    *buffer = bytes;
    Ok(())
}

/// Puts what the host sealed with GCM in place of the plaintext: it has to be
/// longer by a tag.
pub fn host_gcm_encrypted_in_place(buffer: &mut Vec<u8>, answer: HostAnswer) -> (res: Result<
    (),
    CryptoProviderError,
>)
    ensures
        match in_place(
            answer,
            CryptoProviderError::BackendFailed,
            |n: nat| n == old(buffer)@.len() + GCM_AUTH_TAG_BYTES,
        ) {
            Ok(bytes) => res is Ok && final(buffer)@ == bytes,
            Err(e) => res == Err::<(), CryptoProviderError>(e) && final(buffer)@ == old(buffer)@,
        },
{
    let bytes = taken(answer, CryptoProviderError::BackendFailed)?;
    if bytes.len() < GCM_AUTH_TAG_BYTES || bytes.len() - GCM_AUTH_TAG_BYTES != buffer.len() {
        return Err(CryptoProviderError::BackendFailed);
    }
    *buffer = bytes;
    Ok(())
}

/// Puts what the host opened with GCM in place of the sealed bytes: it has to
/// be shorter by a tag. The host throws where the tag does not match.
pub fn host_gcm_decrypted_in_place(buffer: &mut Vec<u8>, answer: HostAnswer) -> (res: Result<
    (),
    CryptoProviderError,
>)
    ensures
        match in_place(
            answer,
            CryptoProviderError::AuthFailed,
            |n: nat| n + GCM_AUTH_TAG_BYTES == old(buffer)@.len(),
        ) {
            Ok(bytes) => res is Ok && final(buffer)@ == bytes,
            Err(e) => res == Err::<(), CryptoProviderError>(e) && final(buffer)@ == old(buffer)@,
        },
{
    let bytes = taken(answer, CryptoProviderError::AuthFailed)?;
    if buffer.len() < GCM_AUTH_TAG_BYTES || buffer.len() - GCM_AUTH_TAG_BYTES != bytes.len() {
        return Err(CryptoProviderError::BackendFailed);
    }
    *buffer = bytes;
    Ok(())
}

} // verus!
