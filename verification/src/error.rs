//! The ways in which a session can fail.

use vstd::prelude::*;
use crate::codec::CodecError;

verus! {

/// Why the request handler could not produce a response.
#[derive(Debug, Clone, Copy, PartialEq, Eq, Structural)]
pub enum HandlerError {
    /// The requested resource does not exist.
    NotFound,
    /// The requested resource could not be read.
    IoError,
}

/// A failure of the session or of what it stands on.
#[derive(Debug, Clone, Copy, PartialEq, Eq, Structural)]
pub enum SessionError {
    /// A channel could not be created or opened.
    TransportUnavailable,
    /// Publishing, notifying or pulling failed on an open channel.
    TransportError,
    /// A received payload is no valid message.
    Malformed,
    /// The request handler failed.
    HandlerFailure(HandlerError),
    /// The liveness deadline passed.
    DeadlineExceeded,
}

impl SessionError {
    /// The session error that a codec error stands for.
    pub fn from_codec(e: CodecError) -> (r: SessionError)
        ensures
            r == SessionError::Malformed,
    {
        match e {
            CodecError::Malformed => SessionError::Malformed,
        }
    }
}

} // verus!
