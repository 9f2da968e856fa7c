//! Core logic of a terminal word-guessing game: a player has a fixed number
//! of attempts to guess a secret five-letter word, and after each guess every
//! letter is scored `Correct`, `Present` or `Absent`.
//!
//! The crate holds the verified parts: the word comparator, the keyboard
//! state that aggregates verdicts across guesses, and the session controller
//! that owns the attempt budget and the win/loss decision.  Terminal
//! rendering and input live outside the library.

pub mod compare;
pub mod session;
pub mod text;
pub mod verdict;
pub mod words;
