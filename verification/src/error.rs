//! The closed set of failures that the library reports.

use vstd::prelude::*;
use vstd::std_specs::convert::FromSpecImpl;
use vstd::string::StringExecFns;
use vstd::string::to_string_from_display_ensures;

verus! {

/// `std::io::Error`, carried through as an opaque value.
#[verifier::external_type_specification]
#[verifier::external_body]
pub struct ExIoError(std::io::Error);

/// Everything that can go wrong in this library. Each kind but the last
/// carries a human-readable cause.
#[derive(Debug)]
pub enum Error {
    /// A value could not be serialized or deserialized.
    SerializationError(String),
    /// The digest could not be computed.
    HashingError(String),
    /// The encoder failed while compressing.
    CompressionError(String),
    /// The payload is not validly encoded, or its framing is truncated or
    /// corrupt.
    DecompressionError(String),
    /// Reconstitution failed for a reason other than decoding.
    ReconstitutionError(String),
    /// An I/O operation failed.
    IoError(String),
    /// The bytes decoded validly but their fingerprint is not the stored one.
    IntegrityCheckFailed,
}

impl Error {
    /// The cause that the error carries; empty for an integrity failure,
    /// which carries none.
    pub open spec fn cause(&self) -> Seq<char> {
        match self {
            Error::SerializationError(msg) => msg@,
            Error::HashingError(msg) => msg@,
            Error::CompressionError(msg) => msg@,
            Error::DecompressionError(msg) => msg@,
            Error::ReconstitutionError(msg) => msg@,
            Error::IoError(msg) => msg@,
            Error::IntegrityCheckFailed => Seq::empty(),
        }
    }

    /// The words that introduce the cause when the error is rendered.
    pub open spec fn heading(&self) -> Seq<char> {
        match self {
            Error::SerializationError(_) => "Serialization Error: "@,
            Error::HashingError(_) => "Hashing Error: "@,
            Error::CompressionError(_) => "Compression Error: "@,
            Error::DecompressionError(_) => "Decompression Error: "@,
            Error::ReconstitutionError(_) => "Reconstitution Error: "@,
            Error::IoError(_) => "I/O Error: "@,
            Error::IntegrityCheckFailed => "Data integrity check failed during reconstitution"@,
        }
    }

    /// The rendered error: the heading followed by the cause.
    pub open spec fn rendered(&self) -> Seq<char> {
        self.heading() + self.cause()
    }

    /// Whether this is a compression failure worded as the library words
    /// an encoder fault.
    pub open spec fn is_encoder_fault(&self) -> bool {
        self is CompressionError && "ZSTD compression failed: "@.is_prefix_of(self.cause())
    }

    /// Whether this is a decompression failure worded as the library words
    /// a payload that does not decode.
    pub open spec fn is_decoder_fault(&self) -> bool {
        self is DecompressionError && "ZSTD decompression failed: "@.is_prefix_of(self.cause())
    }

    /// The error that reports an encoder fault described by `cause`.
    pub fn encoder_fault(cause: &str) -> (e: Error)
        ensures
            e matches Error::CompressionError(msg) && msg@ == "ZSTD compression failed: "@
                + cause@,
            e.is_encoder_fault(),
    {
        Error::CompressionError(String::from_str("ZSTD compression failed: ").concat(cause))
    }

    /// The error that reports a payload that could not be decoded, for the
    /// reason given in `cause`.
    pub fn decoder_fault(cause: &str) -> (e: Error)
        ensures
            e matches Error::DecompressionError(msg) && msg@ == "ZSTD decompression failed: "@
                + cause@,
            e.is_decoder_fault(),
    {
        Error::DecompressionError(String::from_str("ZSTD decompression failed: ").concat(cause))
    }

    /// Renders the error as text.
    pub fn to_string(&self) -> (text: String)
        ensures
            text@ == self.rendered(),
    {
        match self {
            Error::SerializationError(msg) => String::from_str("Serialization Error: ").concat(
                msg.as_str(),
            ),
            Error::HashingError(msg) => String::from_str("Hashing Error: ").concat(msg.as_str()),
            Error::CompressionError(msg) => String::from_str("Compression Error: ").concat(
                msg.as_str(),
            ),
            Error::DecompressionError(msg) => String::from_str("Decompression Error: ").concat(
                msg.as_str(),
            ),
            Error::ReconstitutionError(msg) => String::from_str("Reconstitution Error: ").concat(
                msg.as_str(),
            ),
            Error::IoError(msg) => String::from_str("I/O Error: ").concat(msg.as_str()),
            Error::IntegrityCheckFailed => {
                let text = String::from_str("Data integrity check failed during reconstitution");
                assert(text@ + Seq::<char>::empty() =~= text@);
                text
            },
        }
    }
}

impl From<std::io::Error> for Error {
    /// An I/O failure becomes `IoError`, with the failure's own text as the
    /// cause.
    fn from(err: std::io::Error) -> (e: Error)
        ensures
            e matches Error::IoError(msg) && to_string_from_display_ensures::<std::io::Error>(
                &err,
                msg,
            ),
    {
        Error::IoError(err.to_string())
    }
}

/// The text of an I/O failure has no model of its own, so the conversion is
/// described by the `ensures` of `from` and not by a spec function.
impl FromSpecImpl<std::io::Error> for Error {
    open spec fn obeys_from_spec() -> bool {
        false
    }

    open spec fn from_spec(v: std::io::Error) -> Error {
        arbitrary()
    }
}

} // verus!
