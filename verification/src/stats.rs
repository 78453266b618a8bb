//! Statistics fan-out.
//!
//! For each peer connection in a session, the external statistics collector
//! either yields that connection's video-sender metrics or fails. A failed
//! entry is excluded from the aggregate; the call as a whole still
//! succeeds, so the aggregate holds between zero and all of the session's
//! peer connections, in sub-registry order. The collector itself belongs to
//! the media engine; this module assembles the aggregate from the per-entry
//! outcomes, whatever they were.

use vstd::prelude::*;

use crate::peer_connection::PeerConnection;
use crate::session::State;

verus! {

/// Video-sender metrics of one peer connection, as the external collector
/// reports them.
#[derive(Clone, Copy, Debug, PartialEq, Eq, Structural)]
pub struct VideoMetrics {
    pub packets_sent: u64,
    pub bytes_sent: u64,
    pub frames_encoded: u64,
}

/// One peer connection's entry in the aggregate.
#[derive(Debug)]
pub struct PeerConnectionStats {
    pub peer_connection_id: String,
    pub name: String,
    pub metrics: VideoMetrics,
}

/// The per-session header of the aggregate.
#[derive(Debug)]
pub struct SessionStats {
    pub session_id: String,
    pub name: String,
    pub state: State,
    pub elapsed_time: Option<u64>,
}

/// The aggregate statistics of one session.
#[derive(Debug)]
pub struct Stats {
    pub session: SessionStats,
    pub peer_connections: Vec<PeerConnectionStats>,
}

/// The aggregate entry built for one peer connection from its collected
/// metrics.
pub open spec fn pc_stats_of(pc: PeerConnection, m: VideoMetrics) -> PeerConnectionStats {
    PeerConnectionStats { peer_connection_id: pc.id, name: pc.name, metrics: m }
}

/// The entries the aggregate holds, given the collection outcome of each
/// peer connection: one entry per collected outcome, in order; failed
/// outcomes are skipped.
pub open spec fn collected(
    pcs: Seq<PeerConnection>,
    outcomes: Seq<Option<VideoMetrics>>,
) -> Seq<PeerConnectionStats>
    decreases pcs.len(),
{
    if pcs.len() == 0 || outcomes.len() == 0 {
        Seq::empty()
    } else {
        collected(pcs.drop_last(), outcomes.drop_last()) + (match outcomes.last() {
            Some(m) => seq![pc_stats_of(pcs.last(), m)],
            None => Seq::empty(),
        })
    }
}

/// How many outcomes were collected successfully.
pub open spec fn count_collected(outcomes: Seq<Option<VideoMetrics>>) -> nat
    decreases outcomes.len(),
{
    if outcomes.len() == 0 {
        0
    } else {
        count_collected(outcomes.drop_last()) + (if outcomes.last() is Some {
            1nat
        } else {
            0nat
        })
    }
}

/// The aggregate holds exactly the successfully collected entries: its
/// length is the number of collected outcomes, never more than the number
/// of peer connections. In particular, one failed entry among `M` leaves an
/// aggregate of the other `M - 1`, and a session with no peer connections
/// yields an empty aggregate.
pub proof fn lemma_collected_len(pcs: Seq<PeerConnection>, outcomes: Seq<Option<VideoMetrics>>)
    requires
        pcs.len() == outcomes.len(),
    ensures
        collected(pcs, outcomes).len() == count_collected(outcomes),
        count_collected(outcomes) <= pcs.len(),
    decreases pcs.len(),
{
    if pcs.len() != 0 {
        lemma_collected_len(pcs.drop_last(), outcomes.drop_last());
    }
}

} // verus!
