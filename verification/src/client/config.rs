//! What a client is told about the connections it makes.

use bytesize::ByteSize;
use std::time::Duration;
use vstd::prelude::*;

verus! {

/// A number of bytes, as the crate `bytesize` holds it.
#[verifier::external_type_specification]
#[verifier::external_body]
pub struct ExByteSize(ByteSize);

/// The settings of a client.
pub struct Config {
    /// The largest payload that a frame may carry.
    pub max_payload_size: ByteSize,
    /// How long a request waits for its response.
    pub request_timeout: Duration,
    /// How long the upgrade and the handshake may take together.
    pub handshake_timeout: Duration,
    /// The encodings that the client can speak, best first.
    pub supported_encodings: &'static [&'static str],
}

} // verus!
