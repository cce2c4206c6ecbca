//! The codec layer: one pair of functions over byte sequences, backed by the
//! Snappy raw block format.

use vstd::prelude::*;

verus! {

/// Why the codec refused an input.
#[derive(Clone, Copy, Debug, PartialEq, Eq, Structural)]
pub enum CodecError {
    /// The input is longer than the block format can describe.
    TooBig,
    /// The input is not a stream that the compressor could have produced.
    Malformed,
}

/// The largest length that the block format's header can describe.
pub const MAX_INPUT_LEN: u64 = 0xFFFF_FFFF;

/// The room that the compressor reserves for an input of `len` bytes.
pub open spec fn compress_bound(len: nat) -> nat {
    32 + len + len / 6
}

/// Whether an input of `len` bytes is short enough to be compressed.
pub open spec fn compressible_len(len: nat) -> bool {
    compress_bound(len) <= MAX_INPUT_LEN
}

/// The block that `snap`'s raw encoder produces for `input`.
pub uninterp spec fn snappy_compressed(input: Seq<u8>) -> Seq<u8>;

/// The bytes that `snap`'s raw decoder recovers from `input`, or `None` where
/// it rejects the stream.
pub uninterp spec fn snappy_decompressed(input: Seq<u8>) -> Option<Seq<u8>>;

/// `snap::Error`, carried through as an opaque value.
#[verifier::external_type_specification]
#[verifier::external_body]
pub struct ExSnapError(snap::Error);

/// Calls `snap::raw::Encoder::compress_vec` on a fresh encoder.
///
/// Trusted: the call succeeds exactly when the reserved room
/// `32 + len + len / 6` stays within `2^32 - 1`; the block is a function of
/// the input alone and no longer than the reserved room; and the raw decoder
/// recovers the input from the block.
#[verifier::external_body]
fn snap_compress_vec(input: &[u8]) -> (r: Result<Vec<u8>, snap::Error>)
    ensures
        r is Ok <==> compressible_len(input@.len()),
        r matches Ok(block) ==> block@ == snappy_compressed(input@),
        r matches Ok(block) ==> block@.len() <= compress_bound(input@.len()),
        r matches Ok(block) ==> snappy_decompressed(block@) == Some(input@),
{
    snap::raw::Encoder::new().compress_vec(input)
}

/// Calls `snap::raw::Decoder::decompress_vec` on a fresh decoder.
///
/// Trusted: the outcome is a function of the input alone, and an empty input
/// is an error.
#[verifier::external_body]
fn snap_decompress_vec(input: &[u8]) -> (r: Result<Vec<u8>, snap::Error>)
    ensures
        r matches Ok(bytes) ==> snappy_decompressed(input@) == Some(bytes@),
        r is Err ==> snappy_decompressed(input@) is None,
        input@.len() == 0 ==> r is Err,
{
    snap::raw::Decoder::new().decompress_vec(input)
}

/// What `compress` returns for `input`.
pub open spec fn compress_spec(input: Seq<u8>) -> Result<Seq<u8>, CodecError> {
    if compressible_len(input.len()) {
        Ok(snappy_compressed(input))
    } else {
        Err(CodecError::TooBig)
    }
}

/// What `decompress` returns for `input`.
pub open spec fn decompress_spec(input: Seq<u8>) -> Result<Seq<u8>, CodecError> {
    match snappy_decompressed(input) {
        Some(bytes) => Ok(bytes),
        None => Err(CodecError::Malformed),
    }
}

/// The view of a codec result.
pub open spec fn result_view(r: Result<Vec<u8>, CodecError>) -> Result<Seq<u8>, CodecError> {
    match r {
        Ok(bytes) => Ok(bytes@),
        Err(e) => Err(e),
    }
}

/// Compresses `input` into one raw Snappy block.
///
/// Every input whose reserved room fits the format is compressed; a longer
/// one is refused as `TooBig`. Decompressing the block gives the input back.
pub fn compress(input: &[u8]) -> (r: Result<Vec<u8>, CodecError>)
    ensures
        result_view(r) == compress_spec(input@),
        r matches Ok(block) ==> block@.len() <= compress_bound(input@.len()),
        r matches Ok(block) ==> decompress_spec(block@) == Ok::<Seq<u8>, CodecError>(input@),
{
    match snap_compress_vec(input) {
        Ok(block) => Ok(block),
        Err(_) => Err(CodecError::TooBig),
    }
}

/// Decompresses one raw Snappy block.
///
/// A stream that the decoder rejects, the empty one among them, is
/// `Malformed`.
pub fn decompress(input: &[u8]) -> (r: Result<Vec<u8>, CodecError>)
    ensures
        result_view(r) == decompress_spec(input@),
        input@.len() == 0 ==> r == Err::<Vec<u8>, CodecError>(CodecError::Malformed),
{
    match snap_decompress_vec(input) {
        Ok(bytes) => Ok(bytes),
        Err(_) => Err(CodecError::Malformed),
    }
}

} // verus!
