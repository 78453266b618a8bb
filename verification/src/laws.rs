//! Laws of the lifecycle and of the registries.
//!
//! Each proof function here states one behavioural guarantee of the library
//! over the transition predicates that the executable operations' contracts
//! are phrased in, so the guarantees compose across any sequence of calls.

use vstd::prelude::*;

use crate::peer_connection::PeerConnection;
use crate::session::{Session, State};
use crate::stats::{collected, count_collected, lemma_collected_len, PeerConnectionStats, VideoMetrics};

verus! {

/// A session starts exactly once: after a successful `start`, the session
/// is `Started`, and every further `start` call is illegal (by
/// `start_at`'s contract it then fails with `InvalidStateError` and leaves
/// the session, in particular its `Started` state, unchanged).
pub proof fn lemma_start_succeeds_exactly_once(pre: Session, post: Session, now: u64)
    requires
        Session::start_step(pre, post, now),
    ensures
        post.state == State::Started,
        !post.can_start(),
{
}

/// `stop` before any `start` is illegal: a session still in `Created`
/// cannot stop (by `stop_at`'s contract the call then fails with
/// `InvalidStateError` and the state remains `Created`).
pub proof fn lemma_stop_before_start_fails(s: Session)
    requires
        s.state == State::Created,
    ensures
        !s.can_stop(),
{
}

/// A `start` and a `stop` racing on the same session can never both
/// succeed: whichever state one of them observes, at most one of the two
/// transitions is legal from it, so the loser observes the winner's state
/// and fails with `InvalidStateError`.
pub proof fn lemma_start_stop_mutually_exclusive(s: Session)
    ensures
        !(s.can_start() && s.can_stop()),
{
}

/// No transition reverses and none skips a state: a stopped session can
/// neither start nor stop again.
pub proof fn lemma_stopped_is_terminal(s: Session)
    requires
        s.state == State::Stopped,
    ensures
        !s.can_start(),
        !s.can_stop(),
{
}

/// After `start` at `t1` and `stop` at `t2`, the elapsed time is exactly
/// `t2 - t1`, at whatever time it is queried — so querying it again yields
/// the identical value.
pub proof fn lemma_elapsed_fixed_once_stopped(
    s0: Session,
    s1: Session,
    s2: Session,
    t1: u64,
    t2: u64,
    query1: u64,
    query2: u64,
)
    requires
        Session::start_step(s0, s1, t1),
        Session::stop_step(s1, s2, t2),
        t1 <= t2,
    ensures
        s2.elapsed_at(query1) == Some((t2 - t1) as u64),
        s2.elapsed_at(query1) == s2.elapsed_at(query2),
{
}

/// While a session is `Started`, its elapsed time never decreases from one
/// query to a later one.
pub proof fn lemma_elapsed_monotonic_while_started(s: Session, t1: u64, t2: u64)
    requires
        s.wf(),
        s.state == State::Started,
        t1 <= t2,
    ensures
        s.elapsed_at(t1) is Some ==> s.elapsed_at(t2) is Some
            && s.elapsed_at(t1)->0 <= s.elapsed_at(t2)->0,
{
}

/// Registering a peer connection grows the sub-registry by exactly one
/// record and registers exactly that identifier on top of what was there.
pub proof fn lemma_add_pc_effect(pre: Session, post: Session, pc: PeerConnection)
    requires
        Session::add_pc_step(pre, post, pc),
    ensures
        post.pc_seq().len() == pre.pc_seq().len() + 1,
        forall|k: Seq<char>| post.has_pc(k) <==> (pre.has_pc(k) || k == pc.id@),
{
    assert forall|k: Seq<char>| post.has_pc(k) <==> (pre.has_pc(k) || k == pc.id@) by {
        assert(post.pc_index_view().dom() == pre.pc_index_view().insert(
            pc.id@,
            pre.pc_seq().len() as usize,
        ).dom());
        assert(pre.pc_index_view().insert(pc.id@, pre.pc_seq().len() as usize).dom().contains(k)
            <==> (pre.pc_index_view().dom().contains(k) || k == pc.id@));
    }
}

/// Registering any number of peer connections with pairwise distinct,
/// previously unregistered identifiers: every single registration finds
/// its identifier free (so by `add_peer_connection`'s contract it
/// succeeds), no registration is lost, and the sub-registry ends exactly
/// `pcs.len()` records larger.
pub proof fn lemma_distinct_adds_all_succeed(sessions: Seq<Session>, pcs: Seq<PeerConnection>)
    requires
        sessions.len() == pcs.len() + 1,
        forall|i: int, j: int| 0 <= i < j < pcs.len() ==> pcs[i].id@ != pcs[j].id@,
        forall|i: int| 0 <= i < pcs.len() ==> !sessions.first().has_pc(#[trigger] pcs[i].id@),
        forall|i: int| 0 <= i < pcs.len()
            ==> Session::add_pc_step(sessions[i], sessions[i + 1], #[trigger] pcs[i]),
    ensures
        forall|i: int| 0 <= i < pcs.len() ==> !sessions[i].has_pc(#[trigger] pcs[i].id@),
        sessions.last().pc_seq().len() == sessions.first().pc_seq().len() + pcs.len(),
        forall|k: Seq<char>| sessions.last().has_pc(k) <==> (sessions.first().has_pc(k)
            || exists|j: int| 0 <= j < pcs.len() && (#[trigger] pcs[j].id@) == k),
    decreases pcs.len(),
{
    if pcs.len() == 0 {
        assert(sessions.last() == sessions.first());
    } else {
        let n = pcs.len() as int;
        let shorter = sessions.drop_last();
        let fewer = pcs.drop_last();
        assert(forall|i: int| 0 <= i < fewer.len() ==> Session::add_pc_step(
            shorter[i],
            shorter[i + 1],
            #[trigger] fewer[i],
        ));
        lemma_distinct_adds_all_succeed(shorter, fewer);
        assert(shorter.last() == sessions[n - 1]);
        assert(!sessions[n - 1].has_pc(pcs[n - 1].id@)) by {
            assert(!sessions.first().has_pc(pcs[n - 1].id@));
            assert(forall|j: int| 0 <= j < n - 1 ==> (#[trigger] fewer[j].id@) != pcs[n - 1].id@);
        }
        lemma_add_pc_effect(sessions[n - 1], sessions[n], pcs[n - 1]);
        assert(sessions.last() == sessions[n]);
        assert forall|k: Seq<char>| sessions.last().has_pc(k) <==> (sessions.first().has_pc(k)
            || exists|j: int| 0 <= j < pcs.len() && (#[trigger] pcs[j].id@) == k) by {
            if sessions.first().has_pc(k) || exists|j: int| 0 <= j < pcs.len() && (
            #[trigger] pcs[j].id@) == k {
                if !sessions.first().has_pc(k) {
                    let j = choose|j: int| 0 <= j < pcs.len() && (#[trigger] pcs[j].id@) == k;
                    if j < n - 1 {
                        assert(fewer[j].id@ == k);
                    }
                }
            }
        }
    }
}

/// A session with no peer connections yields an aggregate with an empty
/// peer-connection list, whatever the outcomes argument holds.
pub proof fn lemma_stats_of_empty_session(
    pcs: Seq<PeerConnection>,
    outcomes: Seq<Option<VideoMetrics>>,
)
    requires
        pcs.len() == 0,
    ensures
        collected(pcs, outcomes) == Seq::<PeerConnectionStats>::empty(),
{
}

/// If exactly one of `M` peer connections' statistics collection fails,
/// the aggregate still holds the other `M - 1` entries.
pub proof fn lemma_one_failure_keeps_the_rest(
    pcs: Seq<PeerConnection>,
    outcomes: Seq<Option<VideoMetrics>>,
    failed: int,
)
    requires
        pcs.len() == outcomes.len(),
        0 <= failed < outcomes.len(),
        outcomes[failed] is None,
        forall|i: int| 0 <= i < outcomes.len() && i != failed ==> (#[trigger] outcomes[i]) is Some,
    ensures
        collected(pcs, outcomes).len() == pcs.len() - 1,
{
    lemma_collected_len(pcs, outcomes);
    lemma_count_one_failure(outcomes, failed);
}

/// Counting the collected outcomes when exactly one failed.
proof fn lemma_count_one_failure(outcomes: Seq<Option<VideoMetrics>>, failed: int)
    requires
        0 <= failed < outcomes.len(),
        outcomes[failed] is None,
        forall|i: int| 0 <= i < outcomes.len() && i != failed ==> (#[trigger] outcomes[i]) is Some,
    ensures
        count_collected(outcomes) == outcomes.len() - 1,
    decreases outcomes.len(),
{
    let n = outcomes.len() as int;
    if failed == n - 1 {
        lemma_count_all_collected(outcomes.drop_last());
    } else {
        lemma_count_one_failure(outcomes.drop_last(), failed);
    }
}

/// Counting the collected outcomes when every collection succeeded.
proof fn lemma_count_all_collected(outcomes: Seq<Option<VideoMetrics>>)
    requires
        forall|i: int| 0 <= i < outcomes.len() ==> (#[trigger] outcomes[i]) is Some,
    ensures
        count_collected(outcomes) == outcomes.len(),
    decreases outcomes.len(),
{
    if outcomes.len() > 0 {
        lemma_count_all_collected(outcomes.drop_last());
    }
}

} // verus!
