//! One media session: identity, lifecycle state machine, the sub-registry
//! of its peer connections, and its owned media-production resource.
//!
//! The lifecycle is `Created` -> `Started` -> `Stopped`; no transition
//! skips a state and none reverses. `start_time` is recorded exactly once,
//! on the `Created -> Started` transition, and `stop_time` exactly once, on
//! `Started -> Stopped`; whenever `stop_time` is set, `start_time` is set
//! and does not exceed it.

use vstd::prelude::*;

use crate::clock::now_at_least;
use crate::errors::ServerError;
use crate::helpers::elapsed_between;
use crate::idmap::{id_index_get, id_index_insert, id_index_view};
use crate::peer_connection::PeerConnection;
use crate::producer::FrameProducer;
use crate::stats::{collected, PeerConnectionStats, SessionStats, Stats, VideoMetrics};

verus! {

/// Lifecycle state of a session.
#[derive(Clone, Copy, Debug, PartialEq, Eq, Structural)]
pub enum State {
    Created,
    Started,
    Stopped,
}

/// A top-level media conversation grouping zero or more peer connections.
#[derive(Debug)]
pub struct Session {
    /// Opaque unique identifier, immutable after creation.
    pub id: String,
    /// Display name, immutable.
    pub name: String,
    /// Lifecycle state.
    pub state: State,
    /// Set exactly once, on the `Created -> Started` transition.
    pub start_time: Option<u64>,
    /// Set exactly once, on the `Started -> Stopped` transition.
    pub stop_time: Option<u64>,
    /// Identifier index of the peer-connection sub-registry.
    pub pc_index: dashmap::DashMap<String, usize>,
    /// Arena of peer-connection records; `pc_index` maps an identifier to
    /// its slot here.
    pub peer_connections: Vec<PeerConnection>,
    /// The owned media-production resource all of this session's peer
    /// connections share.
    pub producer: FrameProducer,
}

impl Session {
    /// Lifecycle fields are coherent: each state pins which timestamps are
    /// recorded, and a recorded stop never precedes the start.
    pub open spec fn times_wf(self) -> bool {
        &&& (self.state == State::Created ==> self.start_time is None && self.stop_time is None)
        &&& (self.state == State::Started ==> self.start_time is Some && self.stop_time is None)
        &&& (self.state == State::Stopped ==> self.start_time is Some && self.stop_time is Some
            && self.start_time->0 <= self.stop_time->0)
    }

    /// The identifier index and the arena agree: every indexed identifier
    /// names a live slot holding a record with that identifier, and every
    /// slot is indexed under its record's identifier.
    pub open spec fn pc_store_wf(self) -> bool {
        &&& forall|k: Seq<char>| #[trigger] self.pc_index_view().dom().contains(k)
            ==> self.pc_index_view()[k] < self.peer_connections@.len()
                && self.peer_connections@[self.pc_index_view()[k] as int].id@ == k
        &&& forall|i: int| 0 <= i < self.peer_connections@.len()
            ==> self.pc_index_view().dom().contains(#[trigger] self.peer_connections@[i].id@)
                && self.pc_index_view()[self.peer_connections@[i].id@] == i
    }

    /// Well-formedness: established by the constructor, preserved by every
    /// operation.
    pub open spec fn wf(self) -> bool {
        &&& self.times_wf()
        &&& self.pc_store_wf()
    }

    /// What the peer-connection identifier index records.
    pub open spec fn pc_index_view(self) -> Map<Seq<char>, usize> {
        id_index_view(self.pc_index)
    }

    /// The peer-connection records, in insertion order.
    pub open spec fn pc_seq(self) -> Seq<PeerConnection> {
        self.peer_connections@
    }

    /// Whether a peer connection with this identifier is registered.
    pub open spec fn has_pc(self, id: Seq<char>) -> bool {
        self.pc_index_view().dom().contains(id)
    }

    /// The registered record under this identifier.
    pub open spec fn pc_at(self, id: Seq<char>) -> PeerConnection {
        self.peer_connections@[self.pc_index_view()[id] as int]
    }

    /// Whether the owned media-production resource has been cancelled.
    pub open spec fn producer_cancelled(self) -> bool {
        self.producer.is_cancelled()
    }

    /// `start()` is legal exactly in `Created`.
    pub open spec fn can_start(self) -> bool {
        self.state == State::Created
    }

    /// `stop()` is legal exactly in `Started`.
    pub open spec fn can_stop(self) -> bool {
        self.state == State::Started
    }

    /// Identity is immutable: `post` carries the same identifier and name
    /// as `pre`.
    pub open spec fn same_identity(pre: Session, post: Session) -> bool {
        &&& post.id@ == pre.id@
        &&& post.name@ == pre.name@
    }

    /// The peer-connection sub-registry and the media-production resource
    /// of `post` are those of `pre`, untouched.
    pub open spec fn same_store(pre: Session, post: Session) -> bool {
        &&& post.pc_index_view() == pre.pc_index_view()
        &&& post.pc_seq() == pre.pc_seq()
        &&& post.producer_cancelled() == pre.producer_cancelled()
    }

    /// The successful `start` transition taken at time `now`.
    pub open spec fn start_step(pre: Session, post: Session, now: u64) -> bool {
        &&& pre.can_start()
        &&& post.state == State::Started
        &&& post.start_time == Some(now)
        &&& post.stop_time is None
        &&& Self::same_identity(pre, post)
        &&& Self::same_store(pre, post)
    }

    /// The successful registration of `pc` into the peer-connection
    /// sub-registry: the record is appended to the arena and indexed under
    /// its identifier; the session's lifecycle fields are untouched.
    pub open spec fn add_pc_step(pre: Session, post: Session, pc: PeerConnection) -> bool {
        &&& post.pc_seq() == pre.pc_seq().push(pc)
        &&& post.pc_index_view() == pre.pc_index_view().insert(
            pc.id@,
            pre.pc_seq().len() as usize,
        )
        &&& post.state == pre.state
        &&& post.start_time == pre.start_time
        &&& post.stop_time == pre.stop_time
        &&& Self::same_identity(pre, post)
        &&& post.producer_cancelled() == pre.producer_cancelled()
    }

    /// The teardown of the session's media-production resource: the
    /// producer is cancelled and everything else is untouched.
    pub open spec fn teardown_step(pre: Session, post: Session) -> bool {
        &&& post.producer_cancelled()
        &&& post.state == pre.state
        &&& post.start_time == pre.start_time
        &&& post.stop_time == pre.stop_time
        &&& Self::same_identity(pre, post)
        &&& post.pc_index_view() == pre.pc_index_view()
        &&& post.pc_seq() == pre.pc_seq()
    }

    /// The successful `stop` transition taken at time `now`.
    pub open spec fn stop_step(pre: Session, post: Session, now: u64) -> bool {
        &&& pre.can_stop()
        &&& post.state == State::Stopped
        &&& post.start_time == pre.start_time
        &&& post.stop_time == Some(now)
        &&& Self::same_identity(pre, post)
        &&& Self::same_store(pre, post)
    }

    /// The duration the session has run, judged at time `now`: nothing in
    /// `Created`, the span from `start_time` to `now` while `Started`, and
    /// the fixed span from `start_time` to `stop_time` once `Stopped`.
    pub open spec fn elapsed_at(self, now: u64) -> Option<u64> {
        match self.state {
            State::Created => None,
            State::Started => elapsed_between(self.start_time, Some(now)),
            State::Stopped => elapsed_between(self.start_time, self.stop_time),
        }
    }

    /// A new session: freshly in `Created`, no timestamps, an empty
    /// peer-connection sub-registry, and a running media-production
    /// resource of its own.
    pub fn new(id: String, name: String) -> (s: Session)
        ensures
            s.wf(),
            s.id@ == id@,
            s.name@ == name@,
            s.state == State::Created,
            s.start_time is None,
            s.stop_time is None,
            s.pc_seq().len() == 0,
            forall|k: Seq<char>| !s.has_pc(k),
            !s.producer_cancelled(),
    {
        Session {
            id,
            name,
            state: State::Created,
            start_time: None,
            stop_time: None,
            pc_index: crate::idmap::id_index_new(),
            peer_connections: Vec::new(),
            producer: FrameProducer::start(),
        }
    }

    /// Move the session from `Created` to `Started`, recording `now` as
    /// its start time. From any other state the call fails with
    /// `InvalidStateError` and changes nothing.
    pub fn start_at(&mut self, now: u64) -> (r: Result<(), ServerError>)
        requires
            old(self).wf(),
        ensures
            final(self).wf(),
            old(self).can_start() ==> r is Ok && Self::start_step(*old(self), *final(self), now),
            !old(self).can_start() ==> (r matches Err(ServerError::InvalidStateError(_)))
                && *final(self) == *old(self),
    {
        match self.state {
            State::Created => {
                self.state = State::Started;
                self.start_time = Some(now);
                proof {
                    assert(self.pc_index_view() == old(self).pc_index_view());
                }
                Ok(())
            },
            _ => Err(
                ServerError::InvalidStateError(
                    "Only a created session can be started".to_owned(),
                ),
            ),
        }
    }

    /// Move the session from `Started` to `Stopped`, recording `now` as
    /// its stop time; `now` must not precede the recorded start time (as
    /// [`Self::stop`] guarantees by clamping the clock reading). From any
    /// other state the call fails with `InvalidStateError` and changes
    /// nothing.
    pub fn stop_at(&mut self, now: u64) -> (r: Result<(), ServerError>)
        requires
            old(self).wf(),
            old(self).can_stop() ==> old(self).start_time->0 <= now,
        ensures
            final(self).wf(),
            old(self).can_stop() ==> r is Ok && Self::stop_step(*old(self), *final(self), now),
            !old(self).can_stop() ==> (r matches Err(ServerError::InvalidStateError(_)))
                && *final(self) == *old(self),
    {
        match self.state {
            State::Started => {
                self.state = State::Stopped;
                self.stop_time = Some(now);
                proof {
                    assert(self.pc_index_view() == old(self).pc_index_view());
                }
                Ok(())
            },
            _ => Err(
                ServerError::InvalidStateError(
                    "Only a started session can be stopped".to_owned(),
                ),
            ),
        }
    }

    /// Start the session at the current time.
    pub fn start(&mut self) -> (r: Result<(), ServerError>)
        requires
            old(self).wf(),
        ensures
            final(self).wf(),
            old(self).can_start() ==> r is Ok
                && exists|now: u64| Self::start_step(*old(self), *final(self), now),
            !old(self).can_start() ==> (r matches Err(ServerError::InvalidStateError(_)))
                && *final(self) == *old(self),
    {
        let now = crate::clock::system_now_millis();
        let r = self.start_at(now);
        proof {
            if old(self).can_start() {
                assert(Self::start_step(*old(self), *final(self), now));
            }
        }
        r
    }

    /// Stop the session at the current time. The recorded stop time never
    /// precedes the recorded start time, even if the system clock stepped
    /// backwards in between.
    pub fn stop(&mut self) -> (r: Result<(), ServerError>)
        requires
            old(self).wf(),
        ensures
            final(self).wf(),
            old(self).can_stop() ==> r is Ok
                && exists|now: u64|
                    old(self).start_time->0 <= now
                    && Self::stop_step(*old(self), *final(self), now),
            !old(self).can_stop() ==> (r matches Err(ServerError::InvalidStateError(_)))
                && *final(self) == *old(self),
    {
        let floor = match self.start_time {
            Some(t) => t,
            None => 0,
        };
        let now = now_at_least(floor);
        let r = self.stop_at(now);
        proof {
            if old(self).can_stop() {
                assert(old(self).start_time->0 <= now
                    && Self::stop_step(*old(self), *final(self), now));
            }
        }
        r
    }

    /// The session's elapsed running time: `None` in `Created`, the span
    /// from the start time to the present while `Started` (recomputed on
    /// every call), and the fixed recorded span once `Stopped`.
    pub fn elapsed_time(&self) -> (r: Option<u64>)
        requires
            self.wf(),
        ensures
            self.state == State::Created ==> r is None,
            self.state == State::Started ==> r is Some
                && exists|now: u64| self.start_time->0 <= now && r == self.elapsed_at(now),
            self.state == State::Stopped ==> r == elapsed_between(self.start_time, self.stop_time)
                && r is Some,
    {
        match self.state {
            State::Created => None,
            State::Started => {
                match self.start_time {
                    Some(b) => {
                        let now = now_at_least(b);
                        proof {
                            assert(self.start_time->0 <= now
                                && self.elapsed_at(now) == elapsed_between(
                                    self.start_time,
                                    Some(now),
                                ));
                        }
                        crate::helpers::elapsed(Some(b), Some(now))
                    },
                    None => None,
                }
            },
            State::Stopped => crate::helpers::elapsed(self.start_time, self.stop_time),
        }
    }

    /// Register a peer connection under its identifier. Any session state
    /// accepts registrations: a session still in `Created` or already
    /// `Stopped` takes new peer connections exactly like a `Started` one.
    /// Fails only when the identifier is already taken, leaving the session
    /// unchanged.
    pub fn add_peer_connection(&mut self, peer_connection: PeerConnection) -> (r: Result<
        (),
        ServerError,
    >)
        requires
            old(self).wf(),
        ensures
            final(self).wf(),
            !old(self).has_pc(peer_connection.id@) ==> r is Ok
                && Self::add_pc_step(*old(self), *final(self), peer_connection)
                && final(self).has_pc(peer_connection.id@)
                && final(self).pc_at(peer_connection.id@) == peer_connection
                && final(self).pc_seq().len() == old(self).pc_seq().len() + 1,
            old(self).has_pc(peer_connection.id@) ==> (r matches Err(
                ServerError::DuplicatePeerConnectionError(m),
            ) && m@ == peer_connection.id@) && *final(self) == *old(self),
    {
        let peer_connection_id = peer_connection.id.clone();
        match id_index_get(&self.pc_index, &peer_connection_id) {
            Some(_) => Err(ServerError::DuplicatePeerConnectionError(peer_connection_id)),
            None => {
                let ghost pre = *old(self);
                let slot = self.peer_connections.len();
                self.peer_connections.push(peer_connection);
                id_index_insert(&mut self.pc_index, &peer_connection_id, slot);
                proof {
                    assert(self.pc_seq() == pre.pc_seq().push(peer_connection));
                    assert(self.pc_index_view() == pre.pc_index_view().insert(
                        peer_connection.id@,
                        slot,
                    ));
                    assert forall|k: Seq<char>| #[trigger] self.pc_index_view().dom().contains(k)
                        implies self.pc_index_view()[k] < self.peer_connections@.len()
                            && self.peer_connections@[self.pc_index_view()[k] as int].id@
                            == k by {
                        if k == peer_connection.id@ {
                            assert(self.peer_connections@[slot as int] == peer_connection);
                        } else {
                            assert(pre.pc_index_view().dom().contains(k));
                        }
                    }
                    assert forall|i: int| 0 <= i < self.peer_connections@.len()
                        implies self.pc_index_view().dom().contains(
                            #[trigger] self.peer_connections@[i].id@,
                        ) && self.pc_index_view()[self.peer_connections@[i].id@] == i by {
                        if i < slot as int {
                            assert(self.peer_connections@[i] == pre.pc_seq()[i]);
                            assert(pre.pc_index_view().dom().contains(pre.pc_seq()[i].id@));
                        } else {
                            assert(self.peer_connections@[i] == peer_connection);
                        }
                    }
                    assert(self.pc_store_wf());
                }
                Ok(())
            },
        }
    }

    /// Look a peer connection up within this session's own sub-registry;
    /// fails with `InvalidPeerConnection` when the identifier was never
    /// registered here.
    pub fn get_peer_connection(&self, id: &String) -> (r: Result<&PeerConnection, ServerError>)
        requires
            self.wf(),
        ensures
            self.has_pc(id@) ==> (r matches Ok(pc) && *pc == self.pc_at(id@) && pc.id@ == id@),
            !self.has_pc(id@) ==> (r matches Err(ServerError::InvalidPeerConnection(m)) && m@
                == id@),
    {
        match id_index_get(&self.pc_index, id) {
            Some(slot) => {
                proof {
                    assert(self.pc_index_view().dom().contains(id@));
                }
                Ok(&self.peer_connections[slot])
            },
            None => Err(ServerError::InvalidPeerConnection(id.clone())),
        }
    }

    /// The number of registered peer connections.
    pub fn peer_connection_count(&self) -> (n: usize)
        ensures
            n == self.pc_seq().len(),
    {
        self.peer_connections.len()
    }

    /// A snapshot of the registered peer-connection identifiers, in
    /// sub-registry order.
    pub fn peer_connection_ids(&self) -> (ids: Vec<String>)
        ensures
            ids@.len() == self.pc_seq().len(),
            forall|i: int| 0 <= i < ids@.len() ==> ids@[i]@ == self.pc_seq()[i].id@,
    {
        let mut ids: Vec<String> = Vec::new();
        let mut i: usize = 0;
        while i < self.peer_connections.len()
            invariant
                i <= self.peer_connections@.len(),
                ids@.len() == i as int,
                forall|j: int| 0 <= j < i ==> ids@[j]@ == self.peer_connections@[j].id@,
            decreases self.peer_connections@.len() - i,
        {
            ids.push(self.peer_connections[i].id.clone());
            i += 1;
        }
        ids
    }

    /// Assemble this session's aggregate statistics, judged at time `now`,
    /// from the collection outcome of each registered peer connection
    /// (`outcomes` is aligned with the sub-registry order). Entries whose
    /// collection failed are left out; the call itself always succeeds.
    pub fn stats_at(&self, now: u64, outcomes: &Vec<Option<VideoMetrics>>) -> (st: Stats)
        requires
            self.wf(),
            outcomes@.len() == self.pc_seq().len(),
        ensures
            st.session.session_id@ == self.id@,
            st.session.name@ == self.name@,
            st.session.state == self.state,
            st.session.elapsed_time == self.elapsed_at(now),
            st.peer_connections@ == collected(self.pc_seq(), outcomes@),
    {
        let mut entries: Vec<PeerConnectionStats> = Vec::new();
        let mut i: usize = 0;
        while i < self.peer_connections.len()
            invariant
                self.wf(),
                outcomes@.len() == self.peer_connections@.len(),
                i <= self.peer_connections@.len(),
                entries@ == collected(
                    self.peer_connections@.take(i as int),
                    outcomes@.take(i as int),
                ),
            decreases self.peer_connections@.len() - i,
        {
            match &outcomes[i] {
                Some(m) => {
                    let pc = &self.peer_connections[i];
                    entries.push(
                        PeerConnectionStats {
                            peer_connection_id: pc.id.clone(),
                            name: pc.name.clone(),
                            metrics: *m,
                        },
                    );
                },
                None => {},
            }
            proof {
                lemma_collected_take_step(self.peer_connections@, outcomes@, i as int);
            }
            i += 1;
        }
        proof {
            assert(self.peer_connections@.take(self.peer_connections@.len() as int)
                == self.peer_connections@);
            assert(outcomes@.take(outcomes@.len() as int) == outcomes@);
        }
        let elapsed_time = crate::helpers::elapsed(
            self.start_time,
            match self.state {
                State::Created => None,
                State::Started => Some(now),
                State::Stopped => self.stop_time,
            },
        );
        let session = SessionStats {
            session_id: self.id.clone(),
            name: self.name.clone(),
            state: self.state,
            elapsed_time,
        };
        Stats { session, peer_connections: entries }
    }

    /// Cancel this session's media-production resource. Idempotent;
    /// everything else about the session is untouched.
    pub fn teardown(&mut self)
        requires
            old(self).wf(),
        ensures
            final(self).wf(),
            Self::teardown_step(*old(self), *final(self)),
    {
        self.producer.cancel();
        proof {
            assert(self.pc_index_view() == old(self).pc_index_view());
        }
    }
}

/// One step of [`collected`] along a prefix: extending the prefix by entry
/// `i` appends that entry's aggregate row exactly when its outcome was
/// collected.
proof fn lemma_collected_take_step(
    pcs: Seq<PeerConnection>,
    outcomes: Seq<Option<VideoMetrics>>,
    i: int,
)
    requires
        pcs.len() == outcomes.len(),
        0 <= i < pcs.len(),
    ensures
        collected(pcs.take(i + 1), outcomes.take(i + 1)) == collected(
            pcs.take(i),
            outcomes.take(i),
        ) + (match outcomes[i] {
            Some(m) => seq![crate::stats::pc_stats_of(pcs[i], m)],
            None => Seq::<crate::stats::PeerConnectionStats>::empty(),
        }),
{
    assert(pcs.take(i + 1).drop_last() == pcs.take(i));
    assert(outcomes.take(i + 1).drop_last() == outcomes.take(i));
    assert(pcs.take(i + 1).last() == pcs[i]);
    assert(outcomes.take(i + 1).last() == outcomes[i]);
}

} // verus!
