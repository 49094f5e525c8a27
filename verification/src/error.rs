//! What can go wrong on a connection.

use crate::frames::{GoAway, UpgradeFrame};
use std::string::FromUtf8Error;
use vstd::prelude::*;
use vstd::utf8::{decode_utf8, valid_utf8};

verus! {

/// The standard library's account of why some bytes are not UTF-8.
#[verifier::external_type_specification]
#[verifier::external_body]
pub struct ExFromUtf8Error(FromUtf8Error);

/// Any error at all, as the crate `failure` holds it. It is carried, never looked into.
#[verifier::external_type_specification]
#[verifier::external_body]
pub struct ExFailureError(failure::Error);

/// What `String::from_utf8` answers for bytes that are not UTF-8.
pub uninterp spec fn utf8_failure(bytes: Seq<u8>) -> FromUtf8Error;

/// `String::from_utf8`: bytes that are UTF-8 become the text they encode; for other bytes the
/// answer is an error that depends on them alone.
pub assume_specification[ String::from_utf8 ](vec: Vec<u8>) -> (r: Result<String, FromUtf8Error>)
    ensures
        match r {
            Ok(text) => valid_utf8(vec@) && text@ == decode_utf8(vec@),
            Err(error) => !valid_utf8(vec@) && error == utf8_failure(vec@),
        },
;

/// The failures that the protocol itself knows.
#[derive(Debug, PartialEq, Eq)]
pub enum LoquiError {
    /// The last ping has not been answered when the next one is due.
    PingTimeout,
    /// The peer sent a frame that ends the connection.
    GoAway,
    /// The peer answered the handshake by turning the client away.
    ToldToGoAway { go_away: GoAway },
    /// No answer came before the request's deadline.
    RequestTimeout,
    /// The stream ended.
    TcpStreamClosed,
    /// The peer did not answer the upgrade as it should.
    InvalidUpgradeFrame { frame: UpgradeFrame },
    /// A frame came that has no place here.
    InvalidOpcode { actual: u8, expected: Option<u8> },
    /// The server chose an encoding that the client does not support.
    InvalidEncoding,
    /// The server chose a compression; none is supported.
    InvalidCompression,
    /// The peer failed to serve a request and said why.
    Remote { reason: String },
    /// The peer failed to serve a request, and what it said is not text.
    InvalidReason { error: FromUtf8Error },
}

/// Why something failed on a connection: for the protocol's reasons, or for one of the stream's or
/// of a handler's own.
#[derive(Debug, PartialEq, Eq)]
pub enum Failure<E> {
    Loqui(LoquiError),
    Other(E),
}

/// A failure whose reason may be anything.
pub type AnyFailure = Failure<failure::Error>;

/// What a request comes to: the payload of its response, or why there is none.
pub type Outcome = Result<Vec<u8>, AnyFailure>;

/// `outcome` is what a request comes to whose error frame holds `payload`.
pub open spec fn reports(payload: Seq<u8>, outcome: Outcome) -> bool {
    match outcome {
        Err(Failure::Loqui(LoquiError::Remote { reason })) => {
            valid_utf8(payload) && reason@ == decode_utf8(payload)
        },
        Err(Failure::Loqui(LoquiError::InvalidReason { error })) => {
            !valid_utf8(payload) && error == utf8_failure(payload)
        },
        _ => false,
    }
}

/// What a request comes to whose error frame holds `payload`: always a failure.
pub fn error_outcome(payload: Vec<u8>) -> (outcome: Outcome)
    ensures
        reports(payload@, outcome),
{
    match String::from_utf8(payload) {
        Ok(reason) => Err(Failure::Loqui(LoquiError::Remote { reason })),
        Err(error) => Err(Failure::Loqui(LoquiError::InvalidReason { error })),
    }
}

} // verus!
