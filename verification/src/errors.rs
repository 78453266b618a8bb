//! Error taxonomy of the registry core.
//!
//! Lookup and state-machine failures are surfaced to the caller unchanged:
//! a missing entity or an illegal lifecycle transition is a caller contract
//! violation, not a transient condition, so there is no local retry.

use vstd::prelude::*;

verus! {

/// Every failure the registry core can report.
///
/// `InvalidSessionError` and `InvalidPeerConnection` carry the identifier
/// that was not found; `InvalidStateError` carries the reason the lifecycle
/// transition was refused; the duplicate variants carry the identifier that
/// was already taken (an identifier collision is a contract violation of the
/// identifier generator, reported rather than recovered from).
/// `MediaEngineError` is an opaque pass-through of the external media
/// engine's message, never produced by the verified core itself.
#[derive(Debug, PartialEq, Eq)]
pub enum ServerError {
    InvalidSessionError(String),
    InvalidPeerConnection(String),
    InvalidStateError(String),
    DuplicateSessionError(String),
    DuplicatePeerConnectionError(String),
    MediaEngineError(String),
}

impl ServerError {
    /// The identifier or message the error carries.
    pub fn message(&self) -> (r: &String)
        ensures
            r@ == self.message_spec(),
    {
        match self {
            ServerError::InvalidSessionError(m) => m,
            ServerError::InvalidPeerConnection(m) => m,
            ServerError::InvalidStateError(m) => m,
            ServerError::DuplicateSessionError(m) => m,
            ServerError::DuplicatePeerConnectionError(m) => m,
            ServerError::MediaEngineError(m) => m,
        }
    }

    pub open spec fn message_spec(self) -> Seq<char> {
        match self {
            ServerError::InvalidSessionError(m) => m@,
            ServerError::InvalidPeerConnection(m) => m@,
            ServerError::InvalidStateError(m) => m@,
            ServerError::DuplicateSessionError(m) => m@,
            ServerError::DuplicatePeerConnectionError(m) => m@,
            ServerError::MediaEngineError(m) => m@,
        }
    }
}

} // verus!
