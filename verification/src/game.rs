//! The session data model: a game session, its status, the
//! well-formedness that every stored session keeps, and the scoring
//! predicate for a guess.

use vstd::prelude::*;

verus! {

/// The state of one game session. A session starts in
/// `RequestingProof`, moves to `WaitingForGuess` when its random value
/// arrives, and ends in `Completed` once a guess is scored, or in
/// `Failed` when acquisition fails; the two last states are terminal.
#[derive(Clone, Copy, Debug, PartialEq, Eq, Structural)]
pub enum GameStatus {
    RequestingProof,
    WaitingForGuess,
    Completed { winner: bool, guess: u32 },
    Failed,
}

/// One game session, stored in the registry under its `game_id`.
#[derive(Debug, PartialEq, Eq)]
pub struct GameSession {
    pub game_id: u64,
    pub random_number: Option<u32>,
    pub request_id: Option<String>,
    pub status: GameStatus,
    pub created_at: u64,
}

impl Clone for GameSession {
    /// A snapshot of the session: the clone is the session itself,
    /// field for field.
    fn clone(&self) -> (r: Self)
        ensures
            r == *self,
    {
        GameSession {
            game_id: self.game_id,
            random_number: self.random_number,
            request_id: match &self.request_id {
                Some(s) => Some(s.clone()),
                None => None,
            },
            status: self.status,
            created_at: self.created_at,
        }
    }
}

/// Well-formedness of a stored session: the random value, when present,
/// lies in `[1, 100]`, and the value's presence agrees with the status —
/// a session that waits for a guess or is completed carries a value, and
/// one that is still acquiring, or whose acquisition failed, carries none.
pub open spec fn session_wf(s: GameSession) -> bool {
    &&& (s.random_number is Some ==> 1 <= s.random_number->0 <= 100)
    &&& (s.status is WaitingForGuess ==> s.random_number is Some)
    &&& (s.status is Completed ==> s.random_number is Some)
    &&& (s.status is RequestingProof ==> s.random_number is None)
    &&& (s.status is Failed ==> s.random_number is None)
}

/// The status order of the state machine: from `RequestingProof` a
/// session may reach any state; `WaitingForGuess` may only complete;
/// `Completed` and `Failed` are terminal, their payload fixed.
pub open spec fn status_progresses(a: GameStatus, b: GameStatus) -> bool {
    match a {
        GameStatus::RequestingProof => true,
        GameStatus::WaitingForGuess => b == a || b is Completed,
        GameStatus::Completed { .. } => b == a,
        GameStatus::Failed => b == a,
    }
}

/// How a stored session may change under any registry mutation: the id
/// and the creation time never change, the random value is set at most
/// once and never changes once set, and the status only moves forward.
pub open spec fn session_evolves(a: GameSession, b: GameSession) -> bool {
    &&& b.game_id == a.game_id
    &&& b.created_at == a.created_at
    &&& (a.random_number is Some ==> b.random_number == a.random_number)
    &&& status_progresses(a.status, b.status)
}

/// A session's random value is set at most once: across any two
/// successive evolutions of a session that already carries a value, the
/// value is the one first set.
pub proof fn lemma_random_value_set_once(a: GameSession, b: GameSession, c: GameSession)
    requires
        session_evolves(a, b),
        session_evolves(b, c),
        a.random_number is Some,
    ensures
        b.random_number == a.random_number,
        c.random_number == a.random_number,
{
}

/// A well-formed session's random value, once set, lies in `[1, 100]`.
pub proof fn lemma_random_value_in_range(s: GameSession)
    requires
        session_wf(s),
        s.random_number is Some,
    ensures
        1 <= s.random_number->0 <= 100,
{
}

/// Whether a guess wins against the actual value: `"higher"` wins iff
/// the guess is above the value, `"lower"` iff below, `"equal"` iff
/// equal; any other direction loses.
pub open spec fn wins(direction: Seq<char>, guess: u32, actual: u32) -> bool {
    if direction == "higher"@ {
        guess > actual
    } else if direction == "lower"@ {
        guess < actual
    } else if direction == "equal"@ {
        guess == actual
    } else {
        false
    }
}

/// Scores a guess against the actual value, per `wins`.
pub fn score_guess(direction: &String, guess: u32, actual: u32) -> (won: bool)
    ensures
        won == wins(direction@, guess, actual),
{
    let higher: String = "higher".to_owned();
    let lower: String = "lower".to_owned();
    let equal: String = "equal".to_owned();
    if *direction == higher {
        guess > actual
    } else if *direction == lower {
        guess < actual
    } else if *direction == equal {
        guess == actual
    } else {
        false
    }
}

} // verus!
