//! Generic zlib decompression, without protocol-specific naming or state.

use vstd::prelude::*;
use wacore_binary::zlib_pool::decompress_zlib_pooled;

use crate::text::decimal;

verus! {

/// The ceiling for a caller that names none.
pub const DEFAULT_MAX_OUTPUT_BYTES: u64 = 67_108_864;

/// What a whole zlib stream inflates to, or nothing where the bytes do not
/// start with one, as [`decompress_zlib_pooled`] has it.
pub uninterp spec fn inflated(data: Seq<u8>) -> Option<Seq<u8>>;

/// What a stream comes to under a limit.
pub open spec fn within(output: Option<Seq<u8>>, max: u64) -> Option<Seq<u8>> {
    match output {
        Some(bytes) if bytes.len() <= max => Some(bytes),
        _ => None,
    }
}

/// The bytes of an answer, if it has any.
pub open spec fn output_of(res: Result<Vec<u8>, String>) -> Option<Seq<u8>> {
    match res {
        Ok(bytes) => Some(bytes@),
        Err(_) => None,
    }
}

/// The complaint of an answer, if it is one.
pub open spec fn complaint_of(res: Result<Vec<u8>, String>) -> Option<Seq<char>> {
    match res {
        Ok(_) => None,
        Err(e) => Some(e@),
    }
}

/// What is said of an output that is larger than it may be.
pub open spec fn too_large(max: u64) -> Seq<char> {
    "decompressed payload exceeds "@ + decimal(max as nat) + " bytes"@
}

/// How the decompressor complains of a stream that is broken: where it breaks
/// is settled by its bytes.
pub uninterp spec fn breakage(data: Seq<u8>) -> Seq<char>;

/// [`decompress_zlib_pooled`], its error rendered: the output of a stream that
/// is whole and not larger than the limit. One that is whole and larger is
/// told so. A broken one is told how it breaks, or, where what comes before the
/// break is larger than the limit already, perhaps that: which of the two then
/// depends on the room that the pooled buffer happens to have.
#[verifier::external_body]
fn decompress(data: &[u8], max: u64) -> (res: Result<Vec<u8>, String>)
    requires
        max <= usize::MAX,
    ensures
        output_of(res) == within(inflated(data@), max),
        inflated(data@) is Some && res is Err ==> complaint_of(res) == Some(too_large(max)),
        inflated(data@) is None ==> complaint_of(res) == Some(breakage(data@)) || complaint_of(res)
            == Some(too_large(max)),
{
    decompress_zlib_pooled(data, max).map_err(|e| e.to_string())
}

/// What is said of a limit that lets nothing through.
pub open spec fn bad_limit() -> Seq<char> {
    "maxOutputBytes must be a positive finite number"@
}

/// The limit that a caller's wish comes to.
pub open spec fn effective_limit(max_output_bytes: Option<u64>) -> u64 {
    match max_output_bytes {
        Some(max) => max,
        None => DEFAULT_MAX_OUTPUT_BYTES,
    }
}

/// Inflates a zlib stream. The limit caps the decompressed size, so a small
/// input cannot exhaust the memory; it has to be positive, and a length of this
/// machine. A stream that is broken is told how, or that it is too large.
pub fn inflate_zlib(data: &[u8], max_output_bytes: Option<u64>) -> (res: Result<Vec<u8>, String>)
    requires
        effective_limit(max_output_bytes) <= usize::MAX,
    ensures
        effective_limit(max_output_bytes) == 0 ==> complaint_of(res) == Some(bad_limit()),
        effective_limit(max_output_bytes) > 0 ==> output_of(res) == within(
            inflated(data@),
            effective_limit(max_output_bytes),
        ),
        effective_limit(max_output_bytes) > 0 && inflated(data@) is Some && res is Err
            ==> complaint_of(res) == Some(too_large(effective_limit(max_output_bytes))),
        effective_limit(max_output_bytes) > 0 && inflated(data@) is None ==> complaint_of(res)
            == Some(breakage(data@)) || complaint_of(res) == Some(
            too_large(effective_limit(max_output_bytes)),
        ),
{
    let limit: u64 = match max_output_bytes {
        Some(max) => max,
        None => DEFAULT_MAX_OUTPUT_BYTES,
    };
    if limit == 0 {
        return Err("maxOutputBytes must be a positive finite number".to_owned());
    }
    decompress(data, limit)
}

} // verus!
