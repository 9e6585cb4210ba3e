//! The integrity engine: does this data belong to this vector?

use crate::fingerprint::{fingerprints_equal, sha256};
use crate::tvc::DataStateVector;
use vstd::prelude::*;

verus! {

/// Recomputes the fingerprint of `original_data` and compares it, byte for
/// byte, with the one stored in `vector`. There is no partial match.
pub fn verify_integrity(vector: &DataStateVector, original_data: &[u8]) -> (intact: bool)
    ensures
        intact == vector@.accepts(original_data@),
{
    let calculated = sha256(original_data);
    fingerprints_equal(&calculated, &vector.statistical_fingerprint)
}

} // verus!
