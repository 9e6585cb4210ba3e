//! The fingerprint engine: SHA-256 digests and their exact comparison.

use sha2::{Digest, Sha256};
use vstd::prelude::*;

verus! {

/// Number of bytes in a fingerprint.
pub const FINGERPRINT_LEN: usize = 32;

/// The SHA-256 digest of `data`, as FIPS 180-4 defines it.
///
/// The function is left uninterpreted: proofs may use that equal inputs have
/// equal digests, and nothing else about it. In particular nothing here says
/// that different inputs have different digests.
pub uninterp spec fn spec_sha256(data: Seq<u8>) -> Seq<u8>;

/// Calls `sha2::Sha256::digest`.
///
/// Trusted: the 32 bytes that come back are the SHA-256 digest of `data`.
#[verifier::external_body]
pub(crate) fn sha256(data: &[u8]) -> (digest: [u8; 32])
    ensures
        digest@ == spec_sha256(data@),
{
    Sha256::digest(data).into()
}

/// Whether two fingerprints agree in every byte.
pub fn fingerprints_equal(left: &[u8; 32], right: &[u8; 32]) -> (same: bool)
    ensures
        same == (left@ == right@),
{
    let mut i: usize = 0;
    while i < FINGERPRINT_LEN
        invariant
            i <= FINGERPRINT_LEN,
            forall|k: int| 0 <= k < i ==> left@[k] == right@[k],
        decreases FINGERPRINT_LEN - i,
    {
        if left[i] != right[i] {
            return false;
        }
        i += 1;
    }
    assert(left@ =~= right@);
    true
}

} // verus!
