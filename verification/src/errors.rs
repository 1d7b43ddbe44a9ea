//! The error type shared by the framing codec and its callers.

use vstd::prelude::*;

verus! {

/// Declaration of serde_json's error type, so that a serialization failure
/// can be carried to the caller as context.
#[verifier::external_type_specification]
#[verifier::external_body]
pub struct ExJsonError(serde_json::Error);

/// All possible errors that can happen with reading or writing messages.
///
/// Each variant stands for one failure domain: the byte source, the wire
/// format's limits, and the serialization format.
#[derive(Debug)]
pub enum MessagingError {
    /// The byte source ended before the four-byte length field was complete.
    Io,
    /// The byte source ended after the length field but before the declared
    /// number of payload bytes was delivered.
    Truncation,
    /// A payload length that does not fit the wire format's unsigned 32-bit
    /// length field (on encode), or the platform's addressable-size type
    /// (on decode).
    Size,
    /// The serialization format rejected the payload or the value.
    Json(serde_json::Error),
}

} // verus!
