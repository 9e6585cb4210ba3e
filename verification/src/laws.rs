//! What holds of every vector that vectorization produces, and of every
//! vector forged from one.

use crate::fingerprint::spec_sha256;
use crate::tvc::{StateVectorView, Verdict};
use vstd::prelude::*;

verus! {

/// Round trip: the payload of a vector that describes `data` decodes to
/// `data`, to every byte, whatever `data` is.
pub proof fn lemma_round_trip(vector: StateVectorView, data: Seq<u8>)
    requires
        vector.describes(data),
    ensures
        vector.decoded() == Some(data),
        vector.verdict() == Verdict::Trusted(data),
{
}

/// Fingerprint stability: a vector that describes `data` accepts `data`.
pub proof fn lemma_fingerprint_stable(vector: StateVectorView, data: Seq<u8>)
    requires
        vector.describes(data),
    ensures
        vector.accepts(data),
{
}

/// Acceptance is equality of digests and nothing weaker: a vector that
/// describes `data` accepts `other` exactly when the two have the same
/// SHA-256 digest.
pub proof fn lemma_accepts_same_digest_only(
    vector: StateVectorView,
    data: Seq<u8>,
    other: Seq<u8>,
)
    requires
        vector.describes(data),
    ensures
        vector.accepts(other) <==> spec_sha256(other) == spec_sha256(data),
{
}

/// Tamper detection: change one byte of the bytes recovered from a vector
/// and the vector no longer accepts them, unless the changed bytes collide
/// with the original under SHA-256.
pub proof fn lemma_tamper_detected(
    vector: StateVectorView,
    data: Seq<u8>,
    position: int,
    byte: u8,
)
    requires
        vector.describes(data),
        0 <= position < data.len(),
        byte != data[position],
        spec_sha256(data.update(position, byte)) != spec_sha256(data),
    ensures
        vector.decoded() == Some(data),
        !vector.accepts(data.update(position, byte)),
{
}

/// Cross-data rejection: a vector that describes `data` rejects any other
/// bytes, unless they collide with `data` under SHA-256.
pub proof fn lemma_other_data_rejected(vector: StateVectorView, data: Seq<u8>, other: Seq<u8>)
    requires
        vector.describes(data),
        other != data,
        spec_sha256(other) != spec_sha256(data),
    ensures
        !vector.accepts(other),
{
}

/// Forged-vector detection: take a vector that describes `data` and replace
/// its fingerprint by any other one; the payload still decodes, and the
/// verdict is a rejection.
pub proof fn lemma_forged_fingerprint_rejected(
    vector: StateVectorView,
    data: Seq<u8>,
    forged: StateVectorView,
)
    requires
        vector.describes(data),
        forged.payload == vector.payload,
        forged.fingerprint != vector.fingerprint,
    ensures
        forged.decoded() == Some(data),
        forged.verdict() == Verdict::Rejected,
{
}

/// The first byte of a fingerprint, incremented modulo 256.
pub open spec fn bumped_first_byte(fingerprint: Seq<u8>) -> Seq<u8>
    recommends
        fingerprint.len() > 0,
{
    fingerprint.update(0, ((fingerprint[0] + 1) % 256) as u8)
}

/// Forged-vector detection, in its usual form: incrementing the first byte
/// of the stored fingerprint (modulo 256) turns a trusted vector into a
/// rejected one.
pub proof fn lemma_bumped_fingerprint_rejected(vector: StateVectorView, data: Seq<u8>)
    requires
        vector.wf(),
        vector.describes(data),
    ensures
        (StateVectorView {
            fingerprint: bumped_first_byte(vector.fingerprint),
            ..vector
        }).verdict() == Verdict::Rejected,
{
    let bumped = bumped_first_byte(vector.fingerprint);
    assert(bumped[0] != vector.fingerprint[0]);
    lemma_forged_fingerprint_rejected(
        vector,
        data,
        StateVectorView { fingerprint: bumped, ..vector },
    );
}

} // verus!
