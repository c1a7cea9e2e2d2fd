//! Engine for a terminal word-guessing game: a hidden five-letter target is
//! compared against successive five-letter guesses, each letter of a guess is
//! classified against the target, per-letter results are aggregated across the
//! game for an on-screen keyboard, and a board state machine tracks completion.

pub mod board;
pub mod classify;
pub mod status;

pub use board::GuessError;
pub use board::WordleBoard;
pub use classify::classify;
pub use status::LetterStatus;
