//! The vector core: the state vector, its metadata, and vectorization.

use crate::codec::{compress, spec_zstd_decode};
use crate::error::Error;
use crate::fingerprint::{sha256, spec_sha256};
use vstd::prelude::*;
use vstd::string::StringExecFns;

verus! {

/// The label given to every input: the library does not inspect content.
pub const GENERIC_DATA_TYPE: &'static str = "application/octet-stream";

/// What is recorded about the bytes a vector was made from.
#[derive(Debug)]
pub struct Metadata {
    /// Number of bytes in the uncompressed input.
    pub original_size: u64,
    /// A short label for the kind of data.
    pub data_type: String,
}

/// A compressed payload together with the fingerprint and the metadata of
/// the original bytes.
#[derive(Debug)]
pub struct DataStateVector {
    /// The encoded bytes; opaque to callers.
    pub compressed_payload: Vec<u8>,
    /// SHA-256 digest of the original, uncompressed bytes.
    pub statistical_fingerprint: [u8; 32],
    /// Description of the original bytes.
    pub structural_metadata: Metadata,
}

/// The mathematical content of a `Metadata`.
#[verifier::ext_equal]
pub struct MetadataView {
    pub original_size: nat,
    pub data_type: Seq<char>,
}

/// The mathematical content of a `DataStateVector`.
#[verifier::ext_equal]
pub struct StateVectorView {
    pub payload: Seq<u8>,
    pub fingerprint: Seq<u8>,
    pub metadata: MetadataView,
}

/// Where a vector ends up once its payload has been decoded and the result
/// held against its fingerprint.
#[verifier::ext_equal]
pub enum Verdict {
    /// The payload decodes to these bytes and the fingerprint is theirs.
    Trusted(Seq<u8>),
    /// The payload decodes, but to bytes with another fingerprint.
    Rejected,
    /// The payload does not decode.
    Undecodable,
}

impl View for Metadata {
    type V = MetadataView;

    open spec fn view(&self) -> MetadataView {
        MetadataView { original_size: self.original_size as nat, data_type: self.data_type@ }
    }
}

impl View for DataStateVector {
    type V = StateVectorView;

    open spec fn view(&self) -> StateVectorView {
        StateVectorView {
            payload: self.compressed_payload@,
            fingerprint: self.statistical_fingerprint@,
            metadata: self.structural_metadata@,
        }
    }
}

impl Clone for Metadata {
    /// The copy has the same content.
    fn clone(&self) -> (copy: Self)
        ensures
            copy@ == self@,
    {
        Metadata { original_size: self.original_size, data_type: self.data_type.clone() }
    }
}

impl Clone for DataStateVector {
    /// The copy has the same content.
    fn clone(&self) -> (copy: Self)
        ensures
            copy@ == self@,
    {
        DataStateVector {
            compressed_payload: self.compressed_payload.clone(),
            statistical_fingerprint: self.statistical_fingerprint,
            structural_metadata: self.structural_metadata.clone(),
        }
    }
}

/// The metadata that describes `data`: its exact length and the generic
/// label.
pub open spec fn description(data: Seq<u8>) -> MetadataView {
    MetadataView { original_size: data.len(), data_type: GENERIC_DATA_TYPE@ }
}

/// The vector that holds `payload` for the original bytes `data`: the
/// fingerprint and the metadata are those of `data`, never of the payload.
pub open spec fn sealed(data: Seq<u8>, payload: Seq<u8>) -> StateVectorView {
    StateVectorView {
        payload,
        fingerprint: spec_sha256(data),
        metadata: description(data),
    }
}

impl StateVectorView {
    /// A fingerprint has exactly 32 bytes. The view of every
    /// `DataStateVector` is well formed.
    pub open spec fn wf(self) -> bool {
        self.fingerprint.len() == 32
    }

    /// What the payload decodes to, if it decodes.
    pub open spec fn decoded(self) -> Option<Seq<u8>> {
        spec_zstd_decode(self.payload)
    }

    /// Whether `candidate` has exactly the stored fingerprint.
    pub open spec fn accepts(self, candidate: Seq<u8>) -> bool {
        spec_sha256(candidate) == self.fingerprint
    }

    /// Round-trip closure: the vector is sealed for `data` and its payload
    /// decodes to `data`. Vectorization establishes this; a vector assembled
    /// by hand need not have it.
    pub open spec fn describes(self, data: Seq<u8>) -> bool {
        &&& self == sealed(data, self.payload)
        &&& self.decoded() == Some(data)
    }

    /// Decoding followed by the fingerprint check.
    pub open spec fn verdict(self) -> Verdict {
        match self.decoded() {
            Some(candidate) => if self.accepts(candidate) {
                Verdict::Trusted(candidate)
            } else {
                Verdict::Rejected
            },
            None => Verdict::Undecodable,
        }
    }
}

/// Describes `data`: its length in bytes and the generic label. The content
/// is not inspected.
pub fn describe(data: &[u8]) -> (metadata: Metadata)
    ensures
        metadata@ == description(data@),
{
    Metadata {
        original_size: data.len() as u64,
        data_type: String::from_str(GENERIC_DATA_TYPE),
    }
}

/// Assembles the vector that stores `payload` for the original bytes
/// `data`. The payload is taken as it is.
pub fn seal(data: &[u8], payload: Vec<u8>) -> (vector: DataStateVector)
    ensures
        vector@ == sealed(data@, payload@),
{
    DataStateVector {
        compressed_payload: payload,
        statistical_fingerprint: sha256(data),
        structural_metadata: describe(data),
    }
}

/// Turns raw bytes into a state vector: compresses them, fingerprints the
/// original bytes and records their description.
///
/// Whether the encoder succeeds is its own affair. When it does, the vector
/// describes `data`; when it does not, the failure is a compression failure
/// and no vector is returned.
pub fn vectorize(data: &[u8]) -> (result: Result<DataStateVector, Error>)
    ensures
        match result {
            Ok(vector) => vector@.describes(data@),
            Err(e) => e.is_encoder_fault(),
        },
{
    match compress(data) {
        Ok(payload) => Ok(seal(data, payload)),
        Err(e) => Err(e),
    }
}

} // verus!
