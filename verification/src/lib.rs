//! Scoring logic for a word-guessing game.
//!
//! A [`Wordle`] holds a secret word. Each guess of the right length is
//! scored letter by letter: is the letter anywhere in the secret, and is it
//! at the guessed position? The game counts the accepted guesses and
//! remembers whether one of them was the secret.

pub mod game;
mod letters;
pub mod scoring;

pub use game::{GuessError, Session, Wordle};
pub use scoring::{GuessResult, GuessScore, LetterScore, PartResult};
