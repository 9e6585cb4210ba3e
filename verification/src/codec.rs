//! The codec: Zstandard compression and decompression of whole buffers.

use crate::error::Error;
use vstd::prelude::*;

verus! {

/// Compression level handed to the encoder; zero selects its default.
pub const COMPRESSION_LEVEL: i32 = 0;

/// What the Zstandard decoder makes of a payload: the concatenated content
/// of the frames it holds, or `None` where the decoder rejects it.
///
/// The function is left uninterpreted: proofs learn about it only through
/// the codec's two calls.
pub uninterp spec fn spec_zstd_decode(payload: Seq<u8>) -> Option<Seq<u8>>;

/// Calls `zstd::encode_all`.
///
/// Trusted: the encoder is lossless, so whenever it succeeds its output
/// decodes to exactly the bytes it was given. Nothing is claimed about
/// whether it succeeds.
#[verifier::external_body]
pub(crate) fn zstd_encode_all(data: &[u8], level: i32) -> (outcome: Result<Vec<u8>, std::io::Error>)
    ensures
        outcome matches Ok(payload) ==> spec_zstd_decode(payload@) == Some(data@),
{
    zstd::encode_all(data, level)
}

/// Calls `zstd::decode_all`.
///
/// Trusted: the outcome depends on the payload alone. Success yields the
/// content of the payload's frames; an error means that the decoder rejects
/// the payload.
#[verifier::external_body]
pub(crate) fn zstd_decode_all(payload: &[u8]) -> (outcome: Result<Vec<u8>, std::io::Error>)
    ensures
        match outcome {
            Ok(data) => spec_zstd_decode(payload@) == Some(data@),
            Err(_) => spec_zstd_decode(payload@) is None,
        },
{
    zstd::decode_all(payload)
}

/// Compresses `data`. A payload that comes back decodes to `data`; an encoder
/// fault is reported as a compression failure that carries the encoder's own
/// words.
pub fn compress(data: &[u8]) -> (result: Result<Vec<u8>, Error>)
    ensures
        match result {
            Ok(payload) => spec_zstd_decode(payload@) == Some(data@),
            Err(e) => e.is_encoder_fault(),
        },
{
    match zstd_encode_all(data, COMPRESSION_LEVEL) {
        Ok(payload) => Ok(payload),
        Err(fault) => {
            let cause = fault.to_string();
            Err(Error::encoder_fault(cause.as_str()))
        },
    }
}

/// Decompresses `payload`. It succeeds exactly on the payloads that decode,
/// and then returns what they decode to; any other payload is reported as a
/// decompression failure that carries the decoder's own words.
pub fn decompress(payload: &[u8]) -> (result: Result<Vec<u8>, Error>)
    ensures
        match result {
            Ok(data) => spec_zstd_decode(payload@) == Some(data@),
            Err(e) => spec_zstd_decode(payload@) is None && e.is_decoder_fault(),
        },
{
    match zstd_decode_all(payload) {
        Ok(data) => Ok(data),
        Err(fault) => {
            let cause = fault.to_string();
            Err(Error::decoder_fault(cause.as_str()))
        },
    }
}

} // verus!
