//! Key material that zeroes itself. Any field that is a token or a key
//! crosses as [`SecretBytes`] and is wiped on drop on both sides, so a heap
//! dump after the call holds no call key, relay token, auth token, or
//! integrity key.

use vstd::prelude::*;

use crate::text::{decimal, push_decimal};

verus! {

/// Owned secret bytes, never rendered and zeroed on drop.
#[derive(Clone, PartialEq, Eq)]
pub struct SecretBytes {
    bytes: Vec<u8>,
}

impl View for SecretBytes {
    type V = Seq<u8>;

    closed spec fn view(&self) -> Seq<u8> {
        self.bytes@
    }
}

impl SecretBytes {
    /// Wraps caller-owned bytes as secret.
    pub fn new(bytes: Vec<u8>) -> (s: Self)
        ensures
            s@ == bytes@,
    {
        SecretBytes { bytes }
    }

    /// An empty secret.
    pub fn empty() -> (s: Self)
        ensures
            s@ == Seq::<u8>::empty(),
    {
        SecretBytes { bytes: Vec::new() }
    }

    /// The secret bytes.
    pub fn as_bytes(&self) -> (b: &[u8])
        ensures
            b@ == self@,
    {
        self.bytes.as_slice()
    }

    /// Length in bytes.
    pub fn len(&self) -> (n: usize)
        ensures
            n == self@.len(),
    {
        self.bytes.len()
    }

    /// True when empty.
    pub fn is_empty(&self) -> (b: bool)
        ensures
            b == (self@.len() == 0),
    {
        self.bytes.len() == 0
    }

    /// What may be shown of a secret: that there is one, and its length.
    pub fn redacted(&self) -> (s: String)
        ensures
            s@ == "SecretBytes([redacted; "@ + decimal(self@.len()) + " bytes])"@,
    {
        let mut s = "SecretBytes([redacted; ".to_owned();
        push_decimal(&mut s, self.bytes.len() as u64);
        s.push_str(" bytes])");
        s
    }

    /// Overwrites every byte with zero.
    pub fn wipe(&mut self)
        ensures
            final(self)@ == Seq::new(old(self)@.len(), |i: int| 0u8),
        opens_invariants none
        no_unwind
    {
        fill_zero(&mut self.bytes);
        observe(&self.bytes);
    }
}

/// [`slice::fill`] with 0: every byte becomes 0, and their number stays.
#[verifier::external_body]
fn fill_zero(bytes: &mut Vec<u8>)
    ensures
        final(bytes)@ == Seq::new(old(bytes)@.len(), |i: int| 0u8),
    opens_invariants none
    no_unwind
{
    bytes.fill(0);
}

/// [`std::hint::black_box`]: a hint, on a best-effort basis, that the bytes are
/// looked at here, so that the wipe before it is not removed as a dead store.
/// Nothing is stated of it.
#[verifier::external_body]
fn observe(bytes: &Vec<u8>)
    opens_invariants none
    no_unwind
{
    std::hint::black_box(bytes);
}

impl Drop for SecretBytes {
    fn drop(&mut self)
        opens_invariants none
        no_unwind
    {
        self.wipe();
    }
}

} // verus!
