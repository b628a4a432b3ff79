//! The session pool: per-connection session lifecycle, launch via the
//! shared application factory, channel traffic logs, and failure
//! containment so that one session's failure cannot affect another.

use crate::error::LiveViewError;
use vstd::prelude::*;

verus! {

/// Constructor capability for a session's rendering root: a single-method
/// factory, supplied by the application and shared across all upgrades of a
/// route.  The pool invokes it exactly once per launched session.
pub trait RootFactory<R> {
    fn fresh_root(&self) -> R;
}

/// Lifecycle state of one session.
#[derive(Clone, Copy, Debug, PartialEq, Eq, Structural)]
pub enum SessionState {
    /// The session is live and its channel is usable in both directions.
    Running,
    /// The channel reported end-of-stream; the session ended normally.
    Closed,
    /// The channel became unusable; the session ended with `SendingFailed`.
    Failed,
}

/// One rendering session, bound 1:1 to one opaque duplex byte channel.  The
/// session exclusively owns its channel: the payload logs below model the
/// traffic of that channel and of no other.
pub struct LiveViewSession<R> {
    /// Pool-unique identifier; doubles as the identity of the channel the
    /// session exclusively owns.
    pub id: usize,
    /// The rendering root constructed for this session by the factory.
    pub root: R,
    /// Lifecycle state.
    pub state: SessionState,
    /// Outbound payloads, in submission order.
    pub sent: Vec<Vec<u8>>,
    /// Inbound payloads, in transport delivery order.
    pub received: Vec<Vec<u8>>,
}

/// Process-wide coordinator owning session creation: constructed once at
/// router-setup time, shared across all upgrade requests of one route, and
/// outliving any individual session.
pub struct LiveViewPool<R> {
    /// Every session launched so far, in launch order.
    pub sessions: Vec<LiveViewSession<R>>,
    /// The identifier the next launched session will receive.
    pub next_id: usize,
}

impl<R> LiveViewPool<R> {
    /// Well-formedness: session identifiers are pairwise distinct and below
    /// the next free identifier, so a channel is never shared across
    /// sessions.
    pub open spec fn wf(&self) -> bool {
        &&& forall|i: int|
            0 <= i < self.sessions@.len() ==> (#[trigger] self.sessions@[i].id) < self.next_id
        &&& forall|i: int, j: int|
            0 <= i < self.sessions@.len() && 0 <= j < self.sessions@.len() && i != j
                ==> self.sessions@[i].id != self.sessions@[j].id
    }

    /// There is a session with this identifier.
    pub open spec fn has_session(&self, id: usize) -> bool {
        exists|i: int| 0 <= i < self.sessions@.len() && (#[trigger] self.sessions@[i].id) == id
    }

    /// The position of the session with this identifier.
    pub open spec fn session_index(&self, id: usize) -> int {
        choose|i: int| 0 <= i < self.sessions@.len() && (#[trigger] self.sessions@[i].id) == id
    }

    /// The session with this identifier can send and receive: it exists and
    /// is still running.
    pub open spec fn is_live(&self, id: usize) -> bool {
        self.has_session(id) && self.sessions@[self.session_index(id)].state is Running
    }

    /// In a well-formed pool the position of a session identifier is the
    /// unique position holding it.
    pub proof fn lemma_session_index_is(self, id: usize, i: int)
        requires
            self.wf(),
            0 <= i < self.sessions@.len(),
            self.sessions@[i].id == id,
        ensures
            self.has_session(id),
            self.session_index(id) == i,
    {
        assert(self.has_session(id));
        let j = self.session_index(id);
        assert(0 <= j < self.sessions@.len() && self.sessions@[j].id == id);
        if j != i {
            assert(self.sessions@[i].id != self.sessions@[j].id);
        }
    }

    /// Creates an empty pool.
    pub fn new() -> (p: Self)
        ensures
            p.wf(),
            p.sessions@.len() == 0,
            p.next_id == 0,
    {
        LiveViewPool { sessions: Vec::new(), next_id: 0 }
    }

    /// Launches one fresh, isolated session: invokes the factory exactly
    /// once to construct the session's rendering root, appends the new
    /// session in the running state with empty traffic logs and a fresh
    /// identifier, and leaves every existing session exactly as it was.
    pub fn launch_virtualdom<F: RootFactory<R>>(&mut self, factory: &F) -> (id: usize)
        requires
            old(self).wf(),
            old(self).next_id < usize::MAX,
        ensures
            final(self).wf(),
            id == old(self).next_id,
            final(self).next_id == old(self).next_id + 1,
            final(self).sessions@.len() == old(self).sessions@.len() + 1,
            forall|j: int|
                0 <= j < old(self).sessions@.len()
                    ==> final(self).sessions@[j] == old(self).sessions@[j],
            final(self).sessions@.last().id == id,
            final(self).sessions@.last().state is Running,
            final(self).sessions@.last().sent@.len() == 0,
            final(self).sessions@.last().received@.len() == 0,
            forall|j: int|
                0 <= j < old(self).sessions@.len()
                    ==> (#[trigger] old(self).sessions@[j].id) != id,
            final(self).is_live(id),
    {
        let root = factory.fresh_root();
        let id = self.next_id;
        self.next_id = self.next_id + 1;
        self.sessions.push(
            LiveViewSession {
                id,
                root,
                state: SessionState::Running,
                sent: Vec::new(),
                received: Vec::new(),
            },
        );
        proof {
            self.lemma_session_index_is(id, self.sessions@.len() - 1);
        }
        id
    }

    /// Submits one outbound payload on the session's channel.  On a live
    /// session it succeeds and appends the payload to that session's
    /// outbound log, preserving submission order; on an ended or unknown
    /// session it reports the unified channel error and changes nothing.
    /// Either way, every other session is left exactly as it was.
    pub fn send(&mut self, id: usize, payload: Vec<u8>) -> (r: Result<(), LiveViewError>)
        requires
            old(self).wf(),
        ensures
            final(self).wf(),
            final(self).next_id == old(self).next_id,
            final(self).sessions@.len() == old(self).sessions@.len(),
            forall|j: int|
                0 <= j < old(self).sessions@.len() && (#[trigger] old(self).sessions@[j].id) != id
                    ==> final(self).sessions@[j] == old(self).sessions@[j],
            old(self).is_live(id) ==> {
                &&& r is Ok
                &&& final(self).sessions@[old(self).session_index(id)].sent@ == old(
                    self,
                ).sessions@[old(self).session_index(id)].sent@.push(payload)
                &&& final(self).sessions@[old(self).session_index(id)].received == old(
                    self,
                ).sessions@[old(self).session_index(id)].received
                &&& final(self).sessions@[old(self).session_index(id)].state is Running
                &&& final(self).sessions@[old(self).session_index(id)].id == id
            },
            !old(self).is_live(id) ==> r == Err::<(), LiveViewError>(LiveViewError::SendingFailed)
                && *final(self) == *old(self),
    {
        let n = self.sessions.len();
        let mut i: usize = 0;
        while i < n
            invariant
                n == self.sessions@.len(),
                i <= n,
                self == old(self),
                old(self).wf(),
                forall|k: int| 0 <= k < i ==> (#[trigger] self.sessions@[k].id) != id,
            decreases n - i,
        {
            if self.sessions[i].id == id {
                if !matches!(self.sessions[i].state, SessionState::Running) {
                    proof {
                        old(self).lemma_session_index_is(id, i as int);
                    }
                    return Err(LiveViewError::SendingFailed);
                }
                let mut session = self.sessions.remove(i);
                session.sent.push(payload);
                let ghost updated = session;
                self.sessions.insert(i, session);
                proof {
                    assert(self.sessions@ =~= old(self).sessions@.update(i as int, updated));
                    old(self).lemma_session_index_is(id, i as int);
                }
                return Ok(());
            }
            i = i + 1;
        }
        proof {
            assert(!old(self).has_session(id));
        }
        Err(LiveViewError::SendingFailed)
    }

    /// Records one inbound payload delivered on the session's channel.  On a
    /// live session it succeeds and appends the payload to that session's
    /// inbound log, preserving transport delivery order; on an ended or
    /// unknown session it reports the unified channel error and changes
    /// nothing.  Either way, every other session is left exactly as it was.
    pub fn receive(&mut self, id: usize, payload: Vec<u8>) -> (r: Result<(), LiveViewError>)
        requires
            old(self).wf(),
        ensures
            final(self).wf(),
            final(self).next_id == old(self).next_id,
            final(self).sessions@.len() == old(self).sessions@.len(),
            forall|j: int|
                0 <= j < old(self).sessions@.len() && (#[trigger] old(self).sessions@[j].id) != id
                    ==> final(self).sessions@[j] == old(self).sessions@[j],
            old(self).is_live(id) ==> {
                &&& r is Ok
                &&& final(self).sessions@[old(self).session_index(id)].received@ == old(
                    self,
                ).sessions@[old(self).session_index(id)].received@.push(payload)
                &&& final(self).sessions@[old(self).session_index(id)].sent == old(
                    self,
                ).sessions@[old(self).session_index(id)].sent
                &&& final(self).sessions@[old(self).session_index(id)].state is Running
                &&& final(self).sessions@[old(self).session_index(id)].id == id
            },
            !old(self).is_live(id) ==> r == Err::<(), LiveViewError>(LiveViewError::SendingFailed)
                && *final(self) == *old(self),
    {
        let n = self.sessions.len();
        let mut i: usize = 0;
        while i < n
            invariant
                n == self.sessions@.len(),
                i <= n,
                self == old(self),
                old(self).wf(),
                forall|k: int| 0 <= k < i ==> (#[trigger] self.sessions@[k].id) != id,
            decreases n - i,
        {
            if self.sessions[i].id == id {
                if !matches!(self.sessions[i].state, SessionState::Running) {
                    proof {
                        old(self).lemma_session_index_is(id, i as int);
                    }
                    return Err(LiveViewError::SendingFailed);
                }
                let mut session = self.sessions.remove(i);
                session.received.push(payload);
                let ghost updated = session;
                self.sessions.insert(i, session);
                proof {
                    assert(self.sessions@ =~= old(self).sessions@.update(i as int, updated));
                    old(self).lemma_session_index_is(id, i as int);
                }
                return Ok(());
            }
            i = i + 1;
        }
        proof {
            assert(!old(self).has_session(id));
        }
        Err(LiveViewError::SendingFailed)
    }

    /// Ends one session: transport-driven termination, on end-of-stream
    /// (`failed == false`) or on a channel error (`failed == true`).  The
    /// outcome is contained at this boundary: only the named session changes
    /// state, every other session is left exactly as it was, and an unknown
    /// identifier changes nothing.
    pub fn end_session(&mut self, id: usize, failed: bool)
        requires
            old(self).wf(),
        ensures
            final(self).wf(),
            final(self).next_id == old(self).next_id,
            final(self).sessions@.len() == old(self).sessions@.len(),
            forall|j: int|
                0 <= j < old(self).sessions@.len() && (#[trigger] old(self).sessions@[j].id) != id
                    ==> final(self).sessions@[j] == old(self).sessions@[j],
            old(self).has_session(id) ==> {
                &&& final(self).sessions@[old(self).session_index(id)].state == (if failed {
                    SessionState::Failed
                } else {
                    SessionState::Closed
                })
                &&& final(self).sessions@[old(self).session_index(id)].id == id
                &&& final(self).sessions@[old(self).session_index(id)].sent == old(
                    self,
                ).sessions@[old(self).session_index(id)].sent
                &&& final(self).sessions@[old(self).session_index(id)].received == old(
                    self,
                ).sessions@[old(self).session_index(id)].received
            },
            !old(self).has_session(id) ==> *final(self) == *old(self),
    {
        let n = self.sessions.len();
        let mut i: usize = 0;
        while i < n
            invariant
                n == self.sessions@.len(),
                i <= n,
                self == old(self),
                old(self).wf(),
                forall|k: int| 0 <= k < i ==> (#[trigger] self.sessions@[k].id) != id,
            decreases n - i,
        {
            if self.sessions[i].id == id {
                let mut session = self.sessions.remove(i);
                session.state = if failed {
                    SessionState::Failed
                } else {
                    SessionState::Closed
                };
                let ghost updated = session;
                self.sessions.insert(i, session);
                proof {
                    assert(self.sessions@ =~= old(self).sessions@.update(i as int, updated));
                    old(self).lemma_session_index_is(id, i as int);
                }
                return ;
            }
            i = i + 1;
        }
        proof {
            assert(!old(self).has_session(id));
        }
    }

    /// The number of sessions launched so far.
    pub fn session_count(&self) -> (n: usize)
        ensures
            n == self.sessions@.len(),
    {
        self.sessions.len()
    }

    /// The lifecycle state of the session with this identifier, if any.
    pub fn session_state(&self, id: usize) -> (r: Option<SessionState>)
        requires
            self.wf(),
        ensures
            self.has_session(id) ==> r == Some(self.sessions@[self.session_index(id)].state),
            !self.has_session(id) ==> r is None,
    {
        let n = self.sessions.len();
        let mut i: usize = 0;
        while i < n
            invariant
                n == self.sessions@.len(),
                i <= n,
                self.wf(),
                forall|k: int| 0 <= k < i ==> (#[trigger] self.sessions@[k].id) != id,
            decreases n - i,
        {
            if self.sessions[i].id == id {
                proof {
                    self.lemma_session_index_is(id, i as int);
                }
                return Some(self.sessions[i].state);
            }
            i = i + 1;
        }
        proof {
            assert(!self.has_session(id));
        }
        None
    }
}

} // verus!
