//! A number-guessing game server core: the session state machine, the
//! session registry, and the coordinator that acquires a verifiable random
//! value (locally or through an external proof backend) and scores guesses
//! against it.
//!
//! The network transport, the process entry point and the calls into the
//! proof backend live outside this crate; this library holds the data
//! model, the transitions and the byte-level codecs, each with a proved
//! contract.

pub mod codec;
pub mod coordinator;
pub mod game;
pub mod rng;
pub mod store;

pub use rng::generate_random_number;
