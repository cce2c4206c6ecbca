//! The entry points of the bridge, over plain values: an absent input stands
//! for the null pointer, a buffer for the bytes that precede the terminator.

use vstd::prelude::*;
use crate::codec::{
    compress, compress_bound, compressible_len, decompress, snappy_compressed,
    snappy_decompressed,
};
use crate::transport::{
    base64_text, decode_text, decode_text_spec, encode_text, is_text_safe, is_transportable,
    option_view, text_len, transportable_len,
};

verus! {

/// Why an entry point hands back no buffer.
#[derive(Clone, Copy, Debug, PartialEq, Eq, Structural)]
pub enum BridgeError {
    /// The caller passed no input. This is a defined path, not a fault.
    NullInput,
    /// The input is not transport text.
    EncodingInvalid,
    /// The decoded bytes are not a compressed stream.
    CodecMalformed,
    /// The result cannot be given room: the input is too long for the block
    /// format, or the text would be too long to measure.
    AllocationFailure,
}

/// The view of an optional borrowed buffer.
pub open spec fn input_view(input: Option<&[u8]>) -> Option<Seq<u8>> {
    match input {
        Some(bytes) => Some(bytes@),
        None => None,
    }
}

/// The view of an entry point's outcome.
pub open spec fn outcome_view(r: Result<Vec<u8>, BridgeError>) -> Result<Seq<u8>, BridgeError> {
    match r {
        Ok(bytes) => Ok(bytes@),
        Err(e) => Err(e),
    }
}

/// What an outcome looks like to a caller that sees only a pointer.
pub open spec fn as_pointer(r: Result<Seq<u8>, BridgeError>) -> Option<Seq<u8>> {
    match r {
        Ok(bytes) => Some(bytes),
        Err(_) => None,
    }
}

/// What `compress_entry` returns for `input`.
pub open spec fn compress_entry_spec(input: Option<Seq<u8>>) -> Result<Seq<u8>, BridgeError> {
    match input {
        None => Err(BridgeError::NullInput),
        Some(bytes) => {
            if !compressible_len(bytes.len()) {
                Err(BridgeError::AllocationFailure)
            } else if !transportable_len(snappy_compressed(bytes).len()) {
                Err(BridgeError::AllocationFailure)
            } else {
                Ok(base64_text(snappy_compressed(bytes)))
            }
        },
    }
}

/// What `decompress_entry` returns for `input`.
pub open spec fn decompress_entry_spec(input: Option<Seq<u8>>) -> Result<Seq<u8>, BridgeError> {
    match input {
        None => Err(BridgeError::NullInput),
        Some(text) => match decode_text_spec(text) {
            None => Err(BridgeError::EncodingInvalid),
            Some(block) => match snappy_decompressed(block) {
                None => Err(BridgeError::CodecMalformed),
                Some(bytes) => Ok(bytes),
            },
        },
    }
}

/// Compresses the caller's bytes and encodes the block as transport text.
///
/// An absent input is `NullInput`. The text holds no zero byte, and it carries
/// the input: `decompress_entry` gives the input back from it.
pub fn compress_entry(input: Option<&[u8]>) -> (r: Result<Vec<u8>, BridgeError>)
    ensures
        outcome_view(r) == compress_entry_spec(input_view(input)),
        r matches Ok(text) ==> is_text_safe(text@),
        r matches Ok(text) ==> forall|i: int| 0 <= i < text@.len() ==> #[trigger] text@[i] != 0,
        r matches Ok(text) ==> as_pointer(decompress_entry_spec(Some(text@))) == input_view(input),
        r matches Ok(text) ==> text@.len() <= text_len(
            compress_bound(input_view(input).unwrap().len()),
        ),
{
    let bytes = match input {
        Some(bytes) => bytes,
        None => { return Err(BridgeError::NullInput); },
    };
    let block = match compress(bytes) {
        Ok(block) => block,
        Err(_) => { return Err(BridgeError::AllocationFailure); },
    };
    if !is_transportable(block.len()) {
        return Err(BridgeError::AllocationFailure);
    }
    Ok(encode_text(block.as_slice()))
}

/// Decodes the caller's transport text and decompresses the block it carries.
///
/// An absent input is `NullInput`; a text with a byte outside the alphabet is
/// `EncodingInvalid` and never reaches the codec.
pub fn decompress_entry(input: Option<&[u8]>) -> (r: Result<Vec<u8>, BridgeError>)
    ensures
        outcome_view(r) == decompress_entry_spec(input_view(input)),
        input matches Some(text) && !is_text_safe(text@) ==> r == Err::<Vec<u8>, BridgeError>(
            BridgeError::EncodingInvalid,
        ),
{
    let text = match input {
        Some(text) => text,
        None => { return Err(BridgeError::NullInput); },
    };
    let block = match decode_text(text) {
        Some(block) => block,
        None => { return Err(BridgeError::EncodingInvalid); },
    };
    match decompress(block.as_slice()) {
        Ok(bytes) => Ok(bytes),
        Err(_) => Err(BridgeError::CodecMalformed),
    }
}

/// `compress_entry` as the foreign caller sees it: a buffer, or nothing on an
/// absent input and on every failure.
pub fn snappy_compress(input: Option<&[u8]>) -> (r: Option<Vec<u8>>)
    ensures
        option_view(r) == as_pointer(compress_entry_spec(input_view(input))),
        input is None ==> r is None,
        r matches Some(text) ==> is_text_safe(text@),
        r matches Some(text) ==> forall|i: int| 0 <= i < text@.len() ==> #[trigger] text@[i] != 0,
        r matches Some(text) ==> as_pointer(decompress_entry_spec(Some(text@))) == input_view(input),
{
    match compress_entry(input) {
        Ok(text) => Some(text),
        Err(_) => None,
    }
}

/// `decompress_entry` as the foreign caller sees it: a buffer, or nothing on
/// an absent input and on every failure.
pub fn snappy_decompress(input: Option<&[u8]>) -> (r: Option<Vec<u8>>)
    ensures
        option_view(r) == as_pointer(decompress_entry_spec(input_view(input))),
        input is None ==> r is None,
        input matches Some(text) && !is_text_safe(text@) ==> r is None,
{
    match decompress_entry(input) {
        Ok(bytes) => Some(bytes),
        Err(_) => None,
    }
}

/// The sum of two integers, wrapping at the ends of the range.
pub fn add(a: i32, b: i32) -> (sum: i32)
    ensures
        i32::MIN <= a + b <= i32::MAX ==> sum == a + b,
        a + b > i32::MAX ==> sum == a + b - 0x1_0000_0000,
        a + b < i32::MIN ==> sum == a + b + 0x1_0000_0000,
{
    a.wrapping_add(b)
}

} // verus!
