//! The process-wide session registry and the two-level dispatch helper.
//!
//! The registry is the single top-level store of live sessions, keyed by
//! session identifier, owned by the process for its entire lifetime and
//! handed explicitly to the request handlers (no ambient singleton). Every
//! operation that targets a peer connection is addressed by the pair of
//! session identifier and peer-connection identifier; the dispatch helper
//! resolves both levels afresh on every call and maps the two miss cases to
//! `InvalidSessionError` and `InvalidPeerConnection`, so each handler gets
//! one consistent error path instead of re-implementing the double lookup.

use vstd::prelude::*;

use crate::errors::ServerError;
use crate::idmap::{id_index_get, id_index_insert, id_index_view};
use crate::ids::new_id;
use crate::peer_connection::PeerConnection;
use crate::clock::now_at_least;
use crate::session::{Session, State};
use crate::stats::{collected, Stats, VideoMetrics};

verus! {

/// The top-level concurrent mapping from session identifier to session.
pub struct SessionRegistry {
    /// Identifier index: which arena slot each session identifier names.
    pub index: dashmap::DashMap<String, usize>,
    /// Arena of sessions; `index` maps a session identifier to its slot.
    pub sessions: Vec<Session>,
}

impl SessionRegistry {
    /// What the session identifier index records.
    pub open spec fn index_view(self) -> Map<Seq<char>, usize> {
        id_index_view(self.index)
    }

    /// The stored sessions, in insertion order.
    pub open spec fn session_seq(self) -> Seq<Session> {
        self.sessions@
    }

    /// Whether a session with this identifier is registered.
    pub open spec fn has_session(self, id: Seq<char>) -> bool {
        self.index_view().dom().contains(id)
    }

    /// The registered session under this identifier.
    pub open spec fn session_at(self, id: Seq<char>) -> Session {
        self.session_seq()[self.index_view()[id] as int]
    }

    /// Well-formedness: the index and the arena agree (every indexed
    /// identifier names a live slot holding a session with that identifier,
    /// every slot is indexed under its session's identifier), and every
    /// stored session is itself well-formed.
    pub open spec fn wf(self) -> bool {
        &&& forall|k: Seq<char>| #[trigger] self.index_view().dom().contains(k)
            ==> self.index_view()[k] < self.session_seq().len()
                && self.session_seq()[self.index_view()[k] as int].id@ == k
        &&& forall|i: int| 0 <= i < self.session_seq().len()
            ==> self.index_view().dom().contains(#[trigger] self.session_seq()[i].id@)
                && self.index_view()[self.session_seq()[i].id@] == i
        &&& forall|i: int| 0 <= i < self.session_seq().len()
            ==> (#[trigger] self.session_seq()[i]).wf()
    }

    /// `post` holds exactly what `pre` held.
    pub open spec fn unchanged(pre: SessionRegistry, post: SessionRegistry) -> bool {
        &&& post.index_view() == pre.index_view()
        &&& post.session_seq() == pre.session_seq()
    }

    /// `post` is `pre` with at most the session named `id` changed: the
    /// index and every other session are untouched.
    pub open spec fn step_at(pre: SessionRegistry, post: SessionRegistry, id: Seq<char>) -> bool {
        &&& post.index_view() == pre.index_view()
        &&& post.session_seq().len() == pre.session_seq().len()
        &&& forall|i: int| 0 <= i < pre.session_seq().len()
            && (#[trigger] pre.session_seq()[i]).id@ != id
            ==> post.session_seq()[i] == pre.session_seq()[i]
    }

    /// The successful insertion of `session`: appended to the arena and
    /// indexed under its identifier; everything already stored is kept.
    pub open spec fn add_step(pre: SessionRegistry, post: SessionRegistry, session: Session) -> bool {
        &&& post.session_seq() == pre.session_seq().push(session)
        &&& post.index_view() == pre.index_view().insert(
            session.id@,
            pre.session_seq().len() as usize,
        )
    }

    /// An empty registry.
    pub fn new() -> (reg: SessionRegistry)
        ensures
            reg.wf(),
            reg.session_seq().len() == 0,
            forall|k: Seq<char>| !reg.has_session(k),
    {
        SessionRegistry { index: crate::idmap::id_index_new(), sessions: Vec::new() }
    }

    /// The number of registered sessions.
    pub fn session_count(&self) -> (n: usize)
        ensures
            n == self.session_seq().len(),
    {
        self.sessions.len()
    }

    /// Insert a session under its own identifier. Fails only when the
    /// identifier already exists (which a correct identifier generator
    /// never produces); succeeds otherwise with no effect besides the
    /// insertion.
    pub fn add_session(&mut self, session: Session) -> (r: Result<(), ServerError>)
        requires
            old(self).wf(),
            session.wf(),
        ensures
            final(self).wf(),
            !old(self).has_session(session.id@) ==> r is Ok
                && Self::add_step(*old(self), *final(self), session)
                && final(self).has_session(session.id@)
                && final(self).session_at(session.id@) == session
                && final(self).session_seq().len() == old(self).session_seq().len() + 1,
            old(self).has_session(session.id@) ==> (r matches Err(
                ServerError::DuplicateSessionError(m),
            ) && m@ == session.id@) && *final(self) == *old(self),
    {
        let session_id = session.id.clone();
        match id_index_get(&self.index, &session_id) {
            Some(_) => Err(ServerError::DuplicateSessionError(session_id)),
            None => {
                let ghost pre = *old(self);
                let slot = self.sessions.len();
                self.sessions.push(session);
                id_index_insert(&mut self.index, &session_id, slot);
                proof {
                    assert(self.session_seq() == pre.session_seq().push(session));
                    assert(self.index_view() == pre.index_view().insert(session.id@, slot));
                    assert forall|k: Seq<char>| #[trigger] self.index_view().dom().contains(k)
                        implies self.index_view()[k] < self.session_seq().len()
                            && self.session_seq()[self.index_view()[k] as int].id@ == k by {
                        if k == session.id@ {
                            assert(self.session_seq()[slot as int] == session);
                        } else {
                            assert(pre.index_view().dom().contains(k));
                        }
                    }
                    assert forall|i: int| 0 <= i < self.session_seq().len()
                        implies self.index_view().dom().contains(
                            #[trigger] self.session_seq()[i].id@,
                        ) && self.index_view()[self.session_seq()[i].id@] == i by {
                        if i < slot as int {
                            assert(self.session_seq()[i] == pre.session_seq()[i]);
                            assert(pre.index_view().dom().contains(pre.session_seq()[i].id@));
                        } else {
                            assert(self.session_seq()[i] == session);
                        }
                    }
                }
                Ok(())
            },
        }
    }

    /// Create a session: assign it a fresh identifier, construct it with
    /// its own media-production resource, register it, and hand the
    /// identifier back. Success has no side effect beyond the one
    /// insertion: every session already registered is kept, untouched,
    /// under its identifier. The call fails only if the generated
    /// identifier collides with a registered one (so on an empty registry
    /// it always succeeds), in which case nothing is changed.
    pub fn create_session(&mut self, name: String) -> (r: Result<String, ServerError>)
        requires
            old(self).wf(),
        ensures
            final(self).wf(),
            r matches Ok(id) ==> {
                &&& id@.len() == 21
                &&& !old(self).has_session(id@)
                &&& final(self).has_session(id@)
                &&& final(self).session_at(id@).id@ == id@
                &&& final(self).session_at(id@).name@ == name@
                &&& final(self).session_at(id@).state == crate::session::State::Created
                &&& final(self).session_at(id@).start_time is None
                &&& final(self).session_at(id@).stop_time is None
                &&& final(self).session_at(id@).pc_seq().len() == 0
                &&& !final(self).session_at(id@).producer_cancelled()
                &&& final(self).session_seq().len() == old(self).session_seq().len() + 1
                &&& forall|k: Seq<char>| #[trigger] old(self).has_session(k)
                    ==> final(self).has_session(k)
                        && final(self).session_at(k) == old(self).session_at(k)
            },
            r matches Err(e) ==> (e matches ServerError::DuplicateSessionError(_))
                && *final(self) == *old(self),
            r matches Err(ServerError::DuplicateSessionError(m)) ==> old(self).has_session(m@),
            old(self).session_seq().len() == 0 ==> r is Ok,
    {
        let id = new_id();
        let session = Session::new(id.clone(), name);
        match self.add_session(session) {
            Ok(()) => Ok(id),
            Err(e) => Err(e),
        }
    }

    /// Start the session named `session_id` at time `now`. Fails with
    /// `InvalidSessionError` when no such session is registered, and with
    /// `InvalidStateError` when the session is not in `Created`; in either
    /// failure case the registry is unchanged.
    pub fn start_session_at(&mut self, session_id: &String, now: u64) -> (r: Result<
        (),
        ServerError,
    >)
        requires
            old(self).wf(),
        ensures
            final(self).wf(),
            !old(self).has_session(session_id@) ==> (r matches Err(
                ServerError::InvalidSessionError(m),
            ) && m@ == session_id@) && *final(self) == *old(self),
            old(self).has_session(session_id@) && old(self).session_at(session_id@).can_start()
                ==> r is Ok
                && Session::start_step(
                    old(self).session_at(session_id@),
                    final(self).session_at(session_id@),
                    now,
                )
                && Self::step_at(*old(self), *final(self), session_id@),
            old(self).has_session(session_id@) && !old(self).session_at(session_id@).can_start()
                ==> (r matches Err(ServerError::InvalidStateError(_)))
                && Self::unchanged(*old(self), *final(self)),
    {
        match id_index_get(&self.index, session_id) {
            None => Err(ServerError::InvalidSessionError(session_id.clone())),
            Some(slot) => {
                let ghost pre = *old(self);
                proof {
                    assert(pre.index_view().dom().contains(session_id@));
                }
                let r = self.sessions[slot].start_at(now);
                proof {
                    lemma_slot_update_wf(pre, *self, slot as int);
                    if !pre.session_at(session_id@).can_start() {
                        assert(self.sessions@ =~= pre.sessions@);
                    }
                }
                r
            },
        }
    }

    /// Stop the session named `session_id` at time `now`. Fails with
    /// `InvalidSessionError` when no such session is registered, and with
    /// `InvalidStateError` when the session is not in `Started`; in either
    /// failure case the registry is unchanged.
    pub fn stop_session_at(&mut self, session_id: &String, now: u64) -> (r: Result<
        (),
        ServerError,
    >)
        requires
            old(self).wf(),
            old(self).has_session(session_id@) && old(self).session_at(session_id@).can_stop()
                ==> old(self).session_at(session_id@).start_time->0 <= now,
        ensures
            final(self).wf(),
            !old(self).has_session(session_id@) ==> (r matches Err(
                ServerError::InvalidSessionError(m),
            ) && m@ == session_id@) && *final(self) == *old(self),
            old(self).has_session(session_id@) && old(self).session_at(session_id@).can_stop()
                ==> r is Ok
                && Session::stop_step(
                    old(self).session_at(session_id@),
                    final(self).session_at(session_id@),
                    now,
                )
                && Self::step_at(*old(self), *final(self), session_id@),
            old(self).has_session(session_id@) && !old(self).session_at(session_id@).can_stop()
                ==> (r matches Err(ServerError::InvalidStateError(_)))
                && Self::unchanged(*old(self), *final(self)),
    {
        match id_index_get(&self.index, session_id) {
            None => Err(ServerError::InvalidSessionError(session_id.clone())),
            Some(slot) => {
                let ghost pre = *old(self);
                proof {
                    assert(pre.index_view().dom().contains(session_id@));
                }
                let r = self.sessions[slot].stop_at(now);
                proof {
                    lemma_slot_update_wf(pre, *self, slot as int);
                    if !pre.session_at(session_id@).can_stop() {
                        assert(self.sessions@ =~= pre.sessions@);
                    }
                }
                r
            },
        }
    }

    /// Start the session named `session_id` at the current time.
    pub fn start_session(&mut self, session_id: &String) -> (r: Result<(), ServerError>)
        requires
            old(self).wf(),
        ensures
            final(self).wf(),
            !old(self).has_session(session_id@) ==> (r matches Err(
                ServerError::InvalidSessionError(m),
            ) && m@ == session_id@) && *final(self) == *old(self),
            old(self).has_session(session_id@) && old(self).session_at(session_id@).can_start()
                ==> r is Ok
                && (exists|now: u64|
                    Session::start_step(
                        old(self).session_at(session_id@),
                        final(self).session_at(session_id@),
                        now,
                    ))
                && Self::step_at(*old(self), *final(self), session_id@),
            old(self).has_session(session_id@) && !old(self).session_at(session_id@).can_start()
                ==> (r matches Err(ServerError::InvalidStateError(_)))
                && Self::unchanged(*old(self), *final(self)),
    {
        match id_index_get(&self.index, session_id) {
            None => Err(ServerError::InvalidSessionError(session_id.clone())),
            Some(slot) => {
                let ghost pre = *old(self);
                proof {
                    assert(pre.index_view().dom().contains(session_id@));
                }
                let r = self.sessions[slot].start();
                proof {
                    lemma_slot_update_wf(pre, *self, slot as int);
                    if !pre.session_at(session_id@).can_start() {
                        assert(self.sessions@ =~= pre.sessions@);
                    }
                }
                r
            },
        }
    }

    /// Stop the session named `session_id` at the current time; the
    /// recorded stop time never precedes the session's start time.
    pub fn stop_session(&mut self, session_id: &String) -> (r: Result<(), ServerError>)
        requires
            old(self).wf(),
        ensures
            final(self).wf(),
            !old(self).has_session(session_id@) ==> (r matches Err(
                ServerError::InvalidSessionError(m),
            ) && m@ == session_id@) && *final(self) == *old(self),
            old(self).has_session(session_id@) && old(self).session_at(session_id@).can_stop()
                ==> r is Ok
                && (exists|now: u64|
                    old(self).session_at(session_id@).start_time->0 <= now
                    && Session::stop_step(
                        old(self).session_at(session_id@),
                        final(self).session_at(session_id@),
                        now,
                    ))
                && Self::step_at(*old(self), *final(self), session_id@),
            old(self).has_session(session_id@) && !old(self).session_at(session_id@).can_stop()
                ==> (r matches Err(ServerError::InvalidStateError(_)))
                && Self::unchanged(*old(self), *final(self)),
    {
        match id_index_get(&self.index, session_id) {
            None => Err(ServerError::InvalidSessionError(session_id.clone())),
            Some(slot) => {
                let ghost pre = *old(self);
                proof {
                    assert(pre.index_view().dom().contains(session_id@));
                }
                let r = self.sessions[slot].stop();
                proof {
                    lemma_slot_update_wf(pre, *self, slot as int);
                    if !pre.session_at(session_id@).can_stop() {
                        assert(self.sessions@ =~= pre.sessions@);
                    }
                }
                r
            },
        }
    }

    /// Register an already-constructed peer connection into the session
    /// named `session_id`, under the record's own identifier.
    pub fn add_peer_connection(
        &mut self,
        session_id: &String,
        peer_connection: PeerConnection,
    ) -> (r: Result<(), ServerError>)
        requires
            old(self).wf(),
        ensures
            final(self).wf(),
            !old(self).has_session(session_id@) ==> (r matches Err(
                ServerError::InvalidSessionError(m),
            ) && m@ == session_id@) && *final(self) == *old(self),
            old(self).has_session(session_id@) && !old(self).session_at(
                session_id@,
            ).has_pc(peer_connection.id@) ==> r is Ok
                && Session::add_pc_step(
                    old(self).session_at(session_id@),
                    final(self).session_at(session_id@),
                    peer_connection,
                )
                && final(self).session_at(session_id@).has_pc(peer_connection.id@)
                && final(self).session_at(session_id@).pc_at(peer_connection.id@)
                    == peer_connection
                && Self::step_at(*old(self), *final(self), session_id@),
            old(self).has_session(session_id@) && old(self).session_at(
                session_id@,
            ).has_pc(peer_connection.id@) ==> (r matches Err(
                ServerError::DuplicatePeerConnectionError(m),
            ) && m@ == peer_connection.id@) && Self::unchanged(*old(self), *final(self)),
    {
        match id_index_get(&self.index, session_id) {
            None => Err(ServerError::InvalidSessionError(session_id.clone())),
            Some(slot) => {
                let ghost pre = *old(self);
                proof {
                    assert(pre.index_view().dom().contains(session_id@));
                }
                let r = self.sessions[slot].add_peer_connection(peer_connection);
                proof {
                    lemma_slot_update_wf(pre, *self, slot as int);
                    if pre.session_at(session_id@).has_pc(peer_connection.id@) {
                        assert(self.sessions@ =~= pre.sessions@);
                    }
                }
                r
            },
        }
    }

    /// Create a peer connection inside the session named `session_id`:
    /// assign it a fresh identifier, register the record, and hand the
    /// identifier back. The engine-side connection object is the caller's
    /// to create, using this session's shared media-production resource.
    /// Success performs exactly one registration: the session's lifecycle
    /// fields, its prior registrations, and every other session are kept
    /// untouched. The call fails with `InvalidSessionError` when the
    /// session is absent, and with a duplicate-identifier error when the
    /// generated identifier collides with a registered one (so on a
    /// session with no peer connections it always succeeds); in either
    /// case the registry is unchanged.
    pub fn create_peer_connection(&mut self, session_id: &String, name: String) -> (r: Result<
        String,
        ServerError,
    >)
        requires
            old(self).wf(),
        ensures
            final(self).wf(),
            !old(self).has_session(session_id@) ==> (r matches Err(
                ServerError::InvalidSessionError(m),
            ) && m@ == session_id@) && *final(self) == *old(self),
            old(self).has_session(session_id@) ==> {
                let pre_s = old(self).session_at(session_id@);
                let post_s = final(self).session_at(session_id@);
                &&& (r matches Ok(pc_id) ==> {
                    &&& pc_id@.len() == 21
                    &&& !pre_s.has_pc(pc_id@)
                    &&& post_s.has_pc(pc_id@)
                    &&& post_s.pc_at(pc_id@).id@ == pc_id@
                    &&& post_s.pc_at(pc_id@).name@ == name@
                    &&& post_s.pc_seq().len() == pre_s.pc_seq().len() + 1
                    &&& Session::add_pc_step(pre_s, post_s, post_s.pc_at(pc_id@))
                    &&& Self::step_at(*old(self), *final(self), session_id@)
                })
                &&& (r matches Err(e) ==> (e matches ServerError::DuplicatePeerConnectionError(
                    _,
                )) && Self::unchanged(*old(self), *final(self)))
                &&& (r matches Err(ServerError::DuplicatePeerConnectionError(m))
                    ==> pre_s.has_pc(m@))
                &&& pre_s.pc_seq().len() == 0 ==> r is Ok
            },
    {
        let peer_connection_id = new_id();
        let peer_connection = PeerConnection::new(peer_connection_id.clone(), name);
        match self.add_peer_connection(session_id, peer_connection) {
            Ok(()) => Ok(peer_connection_id),
            Err(e) => Err(e),
        }
    }

    /// Look a session up by identifier; fails with `InvalidSessionError`
    /// when absent.
    pub fn get_session(&self, id: &String) -> (r: Result<&Session, ServerError>)
        requires
            self.wf(),
        ensures
            self.has_session(id@) ==> (r matches Ok(s) && *s == self.session_at(id@) && s.id@
                == id@),
            !self.has_session(id@) ==> (r matches Err(ServerError::InvalidSessionError(m)) && m@
                == id@),
    {
        match id_index_get(&self.index, id) {
            Some(slot) => {
                proof {
                    assert(self.index_view().dom().contains(id@));
                }
                Ok(&self.sessions[slot])
            },
            None => Err(ServerError::InvalidSessionError(id.clone())),
        }
    }

    /// The dispatch helper: resolve a peer connection by the pair of
    /// session identifier and peer-connection identifier. Both levels are
    /// resolved afresh on every call; a missing session fails with
    /// `InvalidSessionError`, a missing peer connection inside a live
    /// session with `InvalidPeerConnection`, and the resolved record is
    /// handed back unchanged.
    pub fn get_peer_connection(&self, session_id: &String, peer_connection_id: &String) -> (r:
        Result<&PeerConnection, ServerError>)
        requires
            self.wf(),
        ensures
            !self.has_session(session_id@) ==> (r matches Err(ServerError::InvalidSessionError(
                m,
            )) && m@ == session_id@),
            self.has_session(session_id@) && !self.session_at(session_id@).has_pc(
                peer_connection_id@,
            ) ==> (r matches Err(ServerError::InvalidPeerConnection(m)) && m@
                == peer_connection_id@),
            self.has_session(session_id@) && self.session_at(session_id@).has_pc(
                peer_connection_id@,
            ) ==> (r matches Ok(pc) && *pc == self.session_at(session_id@).pc_at(
                peer_connection_id@,
            ) && pc.id@ == peer_connection_id@),
    {
        match self.get_session(session_id) {
            Err(e) => Err(e),
            Ok(session) => {
                proof {
                    assert(self.index_view().dom().contains(session_id@));
                    assert(self.session_at(session_id@).wf());
                }
                session.get_peer_connection(peer_connection_id)
            },
        }
    }

    /// A snapshot of the peer-connection identifiers registered in the
    /// session named `session_id`, in sub-registry order.
    pub fn peer_connection_ids(&self, session_id: &String) -> (r: Result<Vec<String>, ServerError>)
        requires
            self.wf(),
        ensures
            !self.has_session(session_id@) ==> (r matches Err(ServerError::InvalidSessionError(
                m,
            )) && m@ == session_id@),
            self.has_session(session_id@) ==> (r matches Ok(ids) && {
                let s = self.session_at(session_id@);
                &&& ids@.len() == s.pc_seq().len()
                &&& forall|i: int| 0 <= i < ids@.len() ==> ids@[i]@ == s.pc_seq()[i].id@
            }),
    {
        match self.get_session(session_id) {
            Err(e) => Err(e),
            Ok(session) => Ok(session.peer_connection_ids()),
        }
    }

    /// Produce the aggregate statistics of the session named `session_id`,
    /// given the external collector's outcome for each of its peer
    /// connections, aligned with [`Self::peer_connection_ids`]. Entries
    /// whose collection failed are left out of the aggregate and the call
    /// still succeeds; only a missing session fails, with
    /// `InvalidSessionError`.
    pub fn get_stats(&self, session_id: &String, outcomes: &Vec<Option<VideoMetrics>>) -> (r:
        Result<Stats, ServerError>)
        requires
            self.wf(),
            self.has_session(session_id@) ==> outcomes@.len() == self.session_at(
                session_id@,
            ).pc_seq().len(),
        ensures
            !self.has_session(session_id@) ==> (r matches Err(ServerError::InvalidSessionError(
                m,
            )) && m@ == session_id@),
            self.has_session(session_id@) ==> (r matches Ok(st) && {
                let s = self.session_at(session_id@);
                &&& st.session.session_id@ == session_id@
                &&& st.session.name@ == s.name@
                &&& st.session.state == s.state
                &&& st.peer_connections@ == collected(s.pc_seq(), outcomes@)
                &&& exists|now: u64|
                    (s.state == State::Started ==> s.start_time->0 <= now)
                    && st.session.elapsed_time == s.elapsed_at(now)
            }),
    {
        match self.get_session(session_id) {
            Err(e) => Err(e),
            Ok(session) => {
                proof {
                    assert(self.index_view().dom().contains(session_id@));
                    assert(self.session_at(session_id@).wf());
                }
                let floor = match session.start_time {
                    Some(t) => t,
                    None => 0,
                };
                let now = now_at_least(floor);
                let st = session.stats_at(now, outcomes);
                proof {
                    let s = self.session_at(session_id@);
                    assert((s.state == State::Started ==> s.start_time->0 <= now)
                        && st.session.elapsed_time == s.elapsed_at(now));
                }
                Ok(st)
            },
        }
    }

    /// Tear the whole registry down: cancel every session's
    /// media-production resource, exactly as removing each session would.
    /// Every session is otherwise kept as it was.
    pub fn shutdown(&mut self)
        requires
            old(self).wf(),
        ensures
            final(self).wf(),
            final(self).index_view() == old(self).index_view(),
            final(self).session_seq().len() == old(self).session_seq().len(),
            forall|i: int| 0 <= i < old(self).session_seq().len()
                ==> Session::teardown_step(
                    old(self).session_seq()[i],
                    #[trigger] final(self).session_seq()[i],
                ),
    {
        let ghost orig = *old(self);
        let mut i: usize = 0;
        while i < self.sessions.len()
            invariant
                self.wf(),
                i <= self.sessions@.len(),
                self.sessions@.len() == orig.session_seq().len(),
                self.index_view() == orig.index_view(),
                forall|j: int| 0 <= j < i
                    ==> Session::teardown_step(
                        orig.session_seq()[j],
                        #[trigger] self.sessions@[j],
                    ),
                forall|j: int| i <= j < self.sessions@.len()
                    ==> #[trigger] self.sessions@[j] == orig.session_seq()[j],
            decreases self.sessions@.len() - i,
        {
            let ghost snap = *self;
            self.sessions[i].teardown();
            proof {
                lemma_slot_update_wf(snap, *self, i as int);
            }
            i += 1;
        }
    }
}

/// Re-establish registry well-formedness after one arena slot was mutated
/// in a way that kept the session's identifier and well-formedness.
proof fn lemma_slot_update_wf(pre: SessionRegistry, post: SessionRegistry, slot: int)
    requires
        pre.wf(),
        0 <= slot < pre.session_seq().len(),
        post.index_view() == pre.index_view(),
        post.session_seq().len() == pre.session_seq().len(),
        forall|i: int| 0 <= i < pre.session_seq().len() && i != slot
            ==> post.session_seq()[i] == pre.session_seq()[i],
        post.session_seq()[slot].wf(),
        post.session_seq()[slot].id@ == pre.session_seq()[slot].id@,
    ensures
        post.wf(),
        SessionRegistry::step_at(pre, post, pre.session_seq()[slot].id@),
{
    assert forall|k: Seq<char>| #[trigger] post.index_view().dom().contains(k)
        implies post.index_view()[k] < post.session_seq().len()
            && post.session_seq()[post.index_view()[k] as int].id@ == k by {
        assert(pre.index_view().dom().contains(k));
    }
    assert forall|i: int| 0 <= i < post.session_seq().len()
        implies post.index_view().dom().contains(#[trigger] post.session_seq()[i].id@)
            && post.index_view()[post.session_seq()[i].id@] == i by {
        assert(pre.index_view().dom().contains(pre.session_seq()[i].id@));
        assert(post.session_seq()[i].id@ == pre.session_seq()[i].id@);
    }
    assert forall|i: int| 0 <= i < post.session_seq().len()
        implies (#[trigger] post.session_seq()[i]).wf() by {
        if i != slot {
            assert(pre.session_seq()[i].wf());
        }
    }
}

} // verus!
