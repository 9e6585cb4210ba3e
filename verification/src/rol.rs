//! The reconstitution layer: recovering bytes from a state vector, with or
//! without the fingerprint check.

use crate::codec::decompress;
use crate::diee::verify_integrity;
use crate::error::Error;
use crate::tvc::{DataStateVector, Verdict};
use vstd::prelude::*;

verus! {

/// Decodes the vector's payload and returns the candidate bytes. The
/// fingerprint is not consulted: a payload that decodes is returned even if
/// the vector was forged.
pub fn reconstitute(vector: &DataStateVector) -> (result: Result<Vec<u8>, Error>)
    ensures
        match result {
            Ok(candidate) => vector@.decoded() == Some(candidate@),
            Err(e) => vector@.decoded() is None && e.is_decoder_fault(),
        },
{
    decompress(vector.compressed_payload.as_slice())
}

/// Hands `candidate` back if it has the vector's fingerprint, and reports an
/// integrity failure if it has not.
pub fn accept(vector: &DataStateVector, candidate: Vec<u8>) -> (result: Result<Vec<u8>, Error>)
    ensures
        match result {
            Ok(data) => vector@.accepts(candidate@) && data@ == candidate@,
            Err(e) => !vector@.accepts(candidate@) && e is IntegrityCheckFailed,
        },
{
    if verify_integrity(vector, candidate.as_slice()) {
        Ok(candidate)
    } else {
        Err(Error::IntegrityCheckFailed)
    }
}

/// Decodes the vector's payload and returns the bytes only if they have the
/// stored fingerprint. A payload that does not decode is a decompression
/// failure; one that decodes to other bytes is an integrity failure.
pub fn reconstitute_trusted(vector: &DataStateVector) -> (result: Result<Vec<u8>, Error>)
    ensures
        match vector@.verdict() {
            Verdict::Trusted(data) => result matches Ok(bytes) && bytes@ == data,
            Verdict::Rejected => result matches Err(e) && e is IntegrityCheckFailed,
            Verdict::Undecodable => result matches Err(e) && e.is_decoder_fault(),
        },
{
    match reconstitute(vector) {
        Ok(candidate) => accept(vector, candidate),
        Err(e) => Err(e),
    }
}

} // verus!
