//! State vectors: a compressed payload sealed with a SHA-256 fingerprint of
//! the bytes it was made from, so that whatever is recovered from a vector
//! can be checked, byte for byte, against what went in.

pub mod codec;
pub mod diee;
pub mod error;
pub mod fingerprint;
pub mod laws;
pub mod rol;
pub mod tvc;

pub use error::Error;
