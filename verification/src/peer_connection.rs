//! The registry-owned record for one peer connection.
//!
//! A peer connection is one negotiated media link to a single remote
//! endpoint, owned by exactly one session. The negotiation itself (SDP
//! offer/answer, descriptions, tracks, transceivers) is the external media
//! engine's work; the engine-side connection object lives with the caller
//! that drives the engine. The registry holds the connection's identity and
//! addresses the connection by it.

use vstd::prelude::*;

verus! {

/// The registry's record of one peer connection: its identity.
#[derive(Debug)]
pub struct PeerConnection {
    /// Opaque unique identifier, immutable after creation.
    pub id: String,
    /// Display name, immutable.
    pub name: String,
}

impl PeerConnection {
    pub fn new(id: String, name: String) -> (pc: PeerConnection)
        ensures
            pc.id@ == id@,
            pc.name@ == name@,
    {
        PeerConnection { id, name }
    }
}

} // verus!
