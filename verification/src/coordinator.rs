//! The coordinator: the transitions of the session state machine. Each
//! operation is an atomic read-modify-write of one session in the
//! registry; the caller runs them under the registry's lock, with no
//! outside call in between. The acquisition outcome (the random value,
//! or failure) reaches a session only through `apply_acquisition_success`
//! and `apply_acquisition_failure`, whichever way it was obtained, so the
//! session invariants hold for every value the backend may hand back.

use vstd::prelude::*;

use crate::codec::{decode_journal, decoded_value};
use crate::game::{wins, GameSession, GameStatus};
use crate::game::score_guess;
use crate::store::{store_evolves, store_wf, SessionStore, StoreError};

verus! {

/// The session a game starts in: no value, no external request,
/// acquisition pending.
pub open spec fn fresh_session(id: u64, created_at: u64) -> GameSession {
    GameSession {
        game_id: id,
        random_number: None,
        request_id: None,
        status: GameStatus::RequestingProof,
        created_at,
    }
}

/// A session with the external request id recorded.
pub open spec fn with_request_id(s: GameSession, rid: String) -> GameSession {
    GameSession { request_id: Some(rid), ..s }
}

/// A session whose random value has arrived: the value is set and the
/// session now waits for the guess.
pub open spec fn with_value(s: GameSession, value: u32) -> GameSession {
    GameSession { random_number: Some(value), status: GameStatus::WaitingForGuess, ..s }
}

/// A session whose acquisition failed.
pub open spec fn failed(s: GameSession) -> GameSession {
    GameSession { status: GameStatus::Failed, ..s }
}

/// A session completed by a scored guess.
pub open spec fn completed(s: GameSession, guess: u32, won: bool) -> GameSession {
    GameSession { status: GameStatus::Completed { winner: won, guess }, ..s }
}

/// What became of an acquisition outcome delivered to a session.
#[derive(Clone, Copy, Debug, PartialEq, Eq, Structural)]
pub enum ApplyOutcome {
    /// The session was still acquiring; the outcome was applied.
    Applied,
    /// The session had already left the acquiring state; the outcome
    /// was discarded, the session kept.
    Ignored,
    /// No session with this id exists.
    NotFound,
}

/// Creates a new session under `id`, in the acquiring state, with no
/// value; rejects a duplicate id and then changes nothing.
pub fn create_game(store: &mut SessionStore, id: u64, created_at: u64) -> (r: Result<
    (),
    StoreError,
>)
    requires
        store_wf(old(store)@),
    ensures
        store_wf(final(store)@),
        match r {
            Ok(()) => !old(store)@.contains_key(id)
                && final(store)@ == old(store)@.insert(id, fresh_session(id, created_at)),
            Err(StoreError::DuplicateId) => old(store)@.contains_key(id)
                && final(store)@ == old(store)@,
        },
        store_evolves(old(store)@, final(store)@),
{
    let session = GameSession {
        game_id: id,
        random_number: None,
        request_id: None,
        status: GameStatus::RequestingProof,
        created_at,
    };
    store.create(session)
}

/// Records the id of the in-flight external proof request on a session
/// that is still acquiring and has none recorded yet; any other session
/// is left unchanged.
pub fn record_request_id(store: &mut SessionStore, id: u64, rid: String) -> (r: ApplyOutcome)
    requires
        store_wf(old(store)@),
    ensures
        store_wf(final(store)@),
        match r {
            ApplyOutcome::Applied => old(store)@.contains_key(id)
                && old(store)@[id].status is RequestingProof
                && old(store)@[id].request_id is None
                && final(store)@ == old(store)@.insert(id, with_request_id(old(store)@[id], rid)),
            ApplyOutcome::Ignored => old(store)@.contains_key(id)
                && !(old(store)@[id].status is RequestingProof
                    && old(store)@[id].request_id is None)
                && final(store)@ == old(store)@,
            ApplyOutcome::NotFound => !old(store)@.contains_key(id)
                && final(store)@ == old(store)@,
        },
        store_evolves(old(store)@, final(store)@),
{
    let current = match store.get(id) {
        Some(s) => s,
        None => {
            return ApplyOutcome::NotFound;
        },
    };
    match (&current.status, &current.request_id) {
        (GameStatus::RequestingProof, Option::None) => {
            let updated = GameSession {
                game_id: current.game_id,
                random_number: current.random_number,
                request_id: Some(rid),
                status: current.status,
                created_at: current.created_at,
            };
            store.replace(id, updated);
            ApplyOutcome::Applied
        },
        _ => ApplyOutcome::Ignored,
    }
}

/// Delivers a successfully acquired random value to a session: a session
/// still acquiring gets the value and moves to waiting-for-guess; a
/// session in any later state keeps its state and the value is
/// discarded, so a value is never set twice and a failed or completed
/// session never regresses.
pub fn apply_acquisition_success(store: &mut SessionStore, id: u64, value: u32) -> (r:
    ApplyOutcome)
    requires
        store_wf(old(store)@),
        1 <= value <= 100,
    ensures
        store_wf(final(store)@),
        match r {
            ApplyOutcome::Applied => old(store)@.contains_key(id)
                && old(store)@[id].status is RequestingProof
                && final(store)@ == old(store)@.insert(id, with_value(old(store)@[id], value)),
            ApplyOutcome::Ignored => old(store)@.contains_key(id)
                && !(old(store)@[id].status is RequestingProof)
                && final(store)@ == old(store)@,
            ApplyOutcome::NotFound => !old(store)@.contains_key(id)
                && final(store)@ == old(store)@,
        },
        store_evolves(old(store)@, final(store)@),
{
    let current = match store.get(id) {
        Some(s) => s,
        None => {
            return ApplyOutcome::NotFound;
        },
    };
    match &current.status {
        GameStatus::RequestingProof => {
            let updated = GameSession {
                game_id: current.game_id,
                random_number: Some(value),
                request_id: match &current.request_id {
                    Some(s) => Some(s.clone()),
                    None => None,
                },
                status: GameStatus::WaitingForGuess,
                created_at: current.created_at,
            };
            store.replace(id, updated);
            ApplyOutcome::Applied
        },
        _ => ApplyOutcome::Ignored,
    }
}

/// Delivers an acquisition failure (backend error, timeout, malformed or
/// out-of-range output) to a session: a session still acquiring moves to
/// the terminal failed state and will never carry a value; any later
/// state is kept.
pub fn apply_acquisition_failure(store: &mut SessionStore, id: u64) -> (r: ApplyOutcome)
    requires
        store_wf(old(store)@),
    ensures
        store_wf(final(store)@),
        match r {
            ApplyOutcome::Applied => old(store)@.contains_key(id)
                && old(store)@[id].status is RequestingProof
                && final(store)@ == old(store)@.insert(id, failed(old(store)@[id])),
            ApplyOutcome::Ignored => old(store)@.contains_key(id)
                && !(old(store)@[id].status is RequestingProof)
                && final(store)@ == old(store)@,
            ApplyOutcome::NotFound => !old(store)@.contains_key(id)
                && final(store)@ == old(store)@,
        },
        store_evolves(old(store)@, final(store)@),
{
    let current = match store.get(id) {
        Some(s) => s,
        None => {
            return ApplyOutcome::NotFound;
        },
    };
    match &current.status {
        GameStatus::RequestingProof => {
            let updated = GameSession {
                game_id: current.game_id,
                random_number: None,
                request_id: match &current.request_id {
                    Some(s) => Some(s.clone()),
                    None => None,
                },
                status: GameStatus::Failed,
                created_at: current.created_at,
            };
            store.replace(id, updated);
            ApplyOutcome::Applied
        },
        _ => ApplyOutcome::Ignored,
    }
}

/// Delivers the backend's committed output to a session: a journal that
/// decodes to a value in range is an acquisition success with that
/// value; a malformed or out-of-range journal fails the acquisition.
pub fn apply_journal(store: &mut SessionStore, id: u64, journal: &Vec<u8>) -> (r: ApplyOutcome)
    requires
        store_wf(old(store)@),
    ensures
        store_wf(final(store)@),
        match r {
            ApplyOutcome::Applied => old(store)@.contains_key(id)
                && old(store)@[id].status is RequestingProof
                && final(store)@ == old(store)@.insert(
                id,
                match decoded_value(journal@) {
                    Some(value) => with_value(old(store)@[id], value),
                    None => failed(old(store)@[id]),
                },
            ),
            ApplyOutcome::Ignored => old(store)@.contains_key(id)
                && !(old(store)@[id].status is RequestingProof)
                && final(store)@ == old(store)@,
            ApplyOutcome::NotFound => !old(store)@.contains_key(id)
                && final(store)@ == old(store)@,
        },
        store_evolves(old(store)@, final(store)@),
{
    match decode_journal(journal) {
        Some(value) => apply_acquisition_success(store, id, value),
        None => apply_acquisition_failure(store, id),
    }
}

/// The outcome of a guess, as handed to the adapter.
#[derive(Clone, Copy, Debug, PartialEq, Eq, Structural)]
pub enum GuessResult {
    Win,
    Lose,
    /// The session has no value yet (still acquiring, or failed); the
    /// caller should poll again. This is an expected outcome, not a
    /// fault.
    NotReady,
    /// No session with this id exists.
    GameNotFound,
    /// The session was already completed by an earlier guess; the prior
    /// result is reported and kept. Rejecting here, rather than scoring
    /// again, is a deliberate choice: a completed session's result must
    /// never be overwritten.
    AlreadyCompleted,
}

/// The reply to a guess: the outcome, the actual value (0 when the value
/// is not available to report), and whether the guess won.
#[derive(Clone, Copy, Debug, PartialEq, Eq, Structural)]
pub struct GuessReply {
    pub result: GuessResult,
    pub actual_number: u32,
    pub won: bool,
}

/// A concluded game's outcome, to be attested to the proof backend after
/// the reply has gone out: best-effort, detached, never awaited.
#[derive(Clone, Copy, Debug, PartialEq, Eq, Structural)]
pub struct AttestationRecord {
    pub random_number: u32,
    pub guess: u32,
    pub won: bool,
}

/// The reply owed to a guess against a store `m`: `GameNotFound` on an
/// unknown id; `NotReady` while the session has no value (still
/// acquiring, or failed); the scored outcome on a session awaiting its
/// guess; the prior result on a completed session.
pub open spec fn guess_reply_of(
    m: Map<u64, GameSession>,
    id: u64,
    guess: u32,
    direction: Seq<char>,
) -> GuessReply {
    if !m.contains_key(id) {
        GuessReply { result: GuessResult::GameNotFound, actual_number: 0, won: false }
    } else {
        match m[id].status {
            GameStatus::RequestingProof => GuessReply {
                result: GuessResult::NotReady,
                actual_number: 0,
                won: false,
            },
            GameStatus::Failed => GuessReply {
                result: GuessResult::NotReady,
                actual_number: 0,
                won: false,
            },
            GameStatus::WaitingForGuess => {
                let actual = m[id].random_number->0;
                let won = wins(direction, guess, actual);
                GuessReply {
                    result: if won {
                        GuessResult::Win
                    } else {
                        GuessResult::Lose
                    },
                    actual_number: actual,
                    won,
                }
            },
            GameStatus::Completed { winner, .. } => GuessReply {
                result: GuessResult::AlreadyCompleted,
                actual_number: m[id].random_number->0,
                won: winner,
            },
        }
    }
}

/// The store after a guess against `m`: only a session awaiting its
/// guess changes, to completed with the scored outcome; everything else
/// is left exactly as it was.
pub open spec fn store_after_guess(
    m: Map<u64, GameSession>,
    id: u64,
    guess: u32,
    direction: Seq<char>,
) -> Map<u64, GameSession> {
    if m.contains_key(id) && m[id].status is WaitingForGuess {
        m.insert(id, completed(m[id], guess, wins(direction, guess, m[id].random_number->0)))
    } else {
        m
    }
}

/// Scores a guess against the session's committed value and completes
/// the session; an unknown id, a session without a value, and a session
/// already completed are reported without any change to the registry.
/// Returns the reply for the caller and, exactly when this call scored
/// the guess, the record to attest to the backend afterwards.
pub fn make_guess(store: &mut SessionStore, id: u64, guess: u32, direction: &String) -> (r: (
    GuessReply,
    Option<AttestationRecord>,
))
    requires
        store_wf(old(store)@),
    ensures
        store_wf(final(store)@),
        r.0 == guess_reply_of(old(store)@, id, guess, direction@),
        final(store)@ == store_after_guess(old(store)@, id, guess, direction@),
        r.1 == if old(store)@.contains_key(id) && old(store)@[id].status is WaitingForGuess {
            Some(
                AttestationRecord {
                    random_number: old(store)@[id].random_number->0,
                    guess,
                    won: wins(direction@, guess, old(store)@[id].random_number->0),
                },
            )
        } else {
            Option::<AttestationRecord>::None
        },
        store_evolves(old(store)@, final(store)@),
{
    let current = match store.get(id) {
        Some(s) => s,
        None => {
            return (
                (GuessReply { result: GuessResult::GameNotFound, actual_number: 0, won: false }),
                None,
            );
        },
    };
    match &current.status {
        GameStatus::RequestingProof => (
            (GuessReply { result: GuessResult::NotReady, actual_number: 0, won: false }),
            None,
        ),
        GameStatus::Failed => (
            (GuessReply { result: GuessResult::NotReady, actual_number: 0, won: false }),
            None,
        ),
        GameStatus::Completed { winner, .. } => {
            let prior_winner: bool = *winner;
            let actual: u32 = match &current.random_number {
                Some(v) => *v,
                None => 0,
            };
            (
                (GuessReply {
                    result: GuessResult::AlreadyCompleted,
                    actual_number: actual,
                    won: prior_winner,
                }),
                None,
            )
        },
        GameStatus::WaitingForGuess => {
            let actual: u32 = match &current.random_number {
                Some(v) => *v,
                None => 0,
            };
            let won = score_guess(direction, guess, actual);
            let updated = GameSession {
                game_id: current.game_id,
                random_number: Some(actual),
                request_id: match &current.request_id {
                    Some(s) => Some(s.clone()),
                    None => None,
                },
                status: GameStatus::Completed { winner: won, guess },
                created_at: current.created_at,
            };
            store.replace(id, updated);
            (
                (GuessReply {
                    result: if won {
                        GuessResult::Win
                    } else {
                        GuessResult::Lose
                    },
                    actual_number: actual,
                    won,
                }),
                Some(AttestationRecord { random_number: actual, guess, won }),
            )
        },
    }
}

/// The status snapshot owed to a read of `m` at `id`.
pub open spec fn status_of(m: Map<u64, GameSession>, id: u64) -> Option<GameSession> {
    if m.contains_key(id) {
        Some(m[id])
    } else {
        None
    }
}

/// Reads a session: a pure snapshot of the stored state, or nothing for
/// an unknown id. The registry is not touched.
pub fn get_status(store: &SessionStore, id: u64) -> (r: Option<&GameSession>)
    ensures
        match r {
            Some(s) => status_of(store@, id) == Some(*s),
            None => status_of(store@, id) is None,
        },
{
    store.get(id)
}

/// Reads of the status are idempotent: any two snapshots taken of the
/// same registry state, with no mutation in between, are one and the
/// same.
pub proof fn lemma_status_reads_agree(
    m: Map<u64, GameSession>,
    id: u64,
    r1: Option<GameSession>,
    r2: Option<GameSession>,
)
    requires
        r1 == status_of(m, id),
        r2 == status_of(m, id),
    ensures
        r1 == r2,
{
}

} // verus!
