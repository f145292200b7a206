//! The session registry: a map from game id to session, owned
//! exclusively by the store and read or changed only through its
//! operations. Its view is the mathematical map of stored sessions;
//! `store_wf` is the invariant every operation preserves.

use std::collections::HashMap;

use vstd::prelude::*;

use crate::game::{session_evolves, session_wf, GameSession};

verus! {

broadcast use vstd::std_specs::hash::group_hash_axioms;

/// Every stored session is well-formed and keyed by its own id.
pub open spec fn store_wf(m: Map<u64, GameSession>) -> bool {
    forall|id: u64| #[trigger]
        m.contains_key(id) ==> session_wf(m[id]) && m[id].game_id == id
}

/// How the registry as a whole may change: sessions are never deleted,
/// and every surviving session evolves per the state machine — its id
/// and creation time fixed, its value set at most once, its status only
/// moving forward.
pub open spec fn store_evolves(a: Map<u64, GameSession>, b: Map<u64, GameSession>) -> bool {
    forall|id: u64| #[trigger]
        a.contains_key(id) ==> b.contains_key(id) && session_evolves(a[id], b[id])
}

/// Registry evolution composes: across any run of operations, each
/// session of an earlier state survives into every later state, its
/// value kept once set and its status never regressing.
pub proof fn lemma_store_evolves_trans(
    a: Map<u64, GameSession>,
    b: Map<u64, GameSession>,
    c: Map<u64, GameSession>,
)
    requires
        store_evolves(a, b),
        store_evolves(b, c),
    ensures
        store_evolves(a, c),
{
}

/// Creation fails only on a duplicate id; the id-generation scheme
/// should never produce one, so this is reported as an internal fault.
#[derive(Clone, Copy, Debug, PartialEq, Eq, Structural)]
pub enum StoreError {
    DuplicateId,
}

/// The registry of sessions. The coordinator and the background
/// acquisition path both act on the store only through its operations,
/// so every change is one of the state-machine transitions.
pub struct SessionStore {
    games: HashMap<u64, GameSession>,
}

impl SessionStore {
    /// The sessions currently stored, as a map from id to session.
    pub closed spec fn view(&self) -> Map<u64, GameSession> {
        self.games@
    }

    /// Creates an empty registry.
    pub fn new() -> (s: SessionStore)
        ensures
            s@ == Map::<u64, GameSession>::empty(),
    {
        SessionStore { games: HashMap::new() }
    }

    /// How many sessions the registry holds.
    pub fn len(&self) -> (n: usize)
        ensures
            n == self@.len(),
    {
        self.games.len()
    }

    /// Whether a session with this id exists.
    pub fn contains(&self, id: u64) -> (present: bool)
        ensures
            present == self@.contains_key(id),
    {
        self.games.contains_key(&id)
    }

    /// Reads the session with this id, if any.
    pub fn get(&self, id: u64) -> (r: Option<&GameSession>)
        ensures
            match r {
                Some(s) => self@.contains_key(id) && *s == self@[id],
                None => !self@.contains_key(id),
            },
    {
        self.games.get(&id)
    }

    /// Inserts a fresh session under its id; rejects a duplicate id and
    /// then leaves the registry unchanged.
    pub fn create(&mut self, session: GameSession) -> (r: Result<(), StoreError>)
        requires
            session_wf(session),
        ensures
            match r {
                Ok(()) => !old(self)@.contains_key(session.game_id)
                    && final(self)@ == old(self)@.insert(session.game_id, session),
                Err(StoreError::DuplicateId) => old(self)@.contains_key(session.game_id)
                    && final(self)@ == old(self)@,
            },
            store_wf(old(self)@) ==> store_wf(final(self)@),
    {
        if self.games.contains_key(&session.game_id) {
            Err(StoreError::DuplicateId)
        } else {
            let id = session.game_id;
            self.games.insert(id, session);
            proof {
                if store_wf(old(self)@) {
                    assert forall|k: u64| #[trigger] self@.contains_key(k) implies session_wf(
                        self@[k],
                    ) && self@[k].game_id == k by {
                        if k != id {
                            assert(old(self)@.contains_key(k));
                        }
                    }
                }
            }
            Ok(())
        }
    }

    /// Replaces the session stored under `id`. This is the single
    /// mutation primitive; the coordinator's transitions call it with a
    /// session evolved from the stored one, under the registry's lock.
    pub(crate) fn replace(&mut self, id: u64, session: GameSession)
        requires
            old(self)@.contains_key(id),
            session.game_id == id,
            session_wf(session),
        ensures
            final(self)@ == old(self)@.insert(id, session),
            store_wf(old(self)@) ==> store_wf(final(self)@),
    {
        self.games.insert(id, session);
        proof {
            if store_wf(old(self)@) {
                assert forall|k: u64| #[trigger] self@.contains_key(k) implies session_wf(self@[k])
                    && self@[k].game_id == k by {
                    if k != id {
                        assert(old(self)@.contains_key(k));
                    }
                }
            }
        }
    }
}

} // verus!
