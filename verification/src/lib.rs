//! Session / peer-connection registry and lifecycle manager for a
//! multi-party real-time media gateway.
//!
//! The crate keeps every live media session, and within each session every
//! live peer connection, in a two-level identifier-keyed store. It owns the
//! session lifecycle state machine (`Created` -> `Started` -> `Stopped`),
//! the teardown discipline for each session's background frame producer,
//! and the two-level addressing scheme that request handlers use to reach a
//! peer connection inside a session. The media engine itself (SDP, ICE,
//! transport) is an external collaborator and is not modelled here.

pub mod clock;
pub mod errors;
pub mod helpers;
pub mod idmap;
pub mod laws;
mod ids;
pub mod peer_connection;
pub mod producer;
pub mod registry;
pub mod session;
pub mod stats;
