//! The game session: a secret word, the number of guesses made so far and
//! whether the word has been found.

use crate::letters::{letters_of, same_letters};
use crate::scoring::{score, GuessResult};
use vstd::prelude::*;
use vstd::string::StrSliceExecFns;

verus! {

/// Why a guess was turned down.
#[derive(Debug, Clone, Copy, PartialEq, Eq, Structural)]
pub enum GuessError {
    /// The guess does not have as many letters as the secret word.
    InvalidGuessLength,
}

/// The state of a game, as contracts see it.
pub ghost struct Session {
    /// The letters of the secret word.
    pub word: Seq<char>,
    /// The number of guesses that were accepted so far.
    pub count: nat,
    /// Whether some accepted guess was the secret word.
    pub won: bool,
}

impl Session {
    /// The session of a game that has just begun.
    pub open spec fn start(word: Seq<char>) -> Session {
        Session { word, count: 0, won: false }
    }

    /// A guess is accepted when it has as many letters as the secret word.
    pub open spec fn accepts(self, guess: Seq<char>) -> bool {
        guess.len() == self.word.len()
    }

    /// The session after `guess` was made. An accepted guess is counted,
    /// and wins the game if it is the secret word; a game once won stays
    /// won. A guess that is not accepted leaves the session as it was.
    pub open spec fn after(self, guess: Seq<char>) -> Session {
        if self.accepts(guess) {
            Session { word: self.word, count: self.count + 1, won: self.won || guess == self.word }
        } else {
            self
        }
    }
}

/// A game of guessing one secret word.
#[derive(Debug)]
pub struct Wordle<'a> {
    word: &'a str,
    count: u32,
    won: bool,
}

impl<'a> View for Wordle<'a> {
    type V = Session;

    closed spec fn view(&self) -> Session {
        Session { word: self.word@, count: self.count as nat, won: self.won }
    }
}

impl<'a> Wordle<'a> {
    /// Begins a game with `word` as the secret.
    #[must_use]
    pub fn new(word: &'a str) -> (game: Wordle<'a>)
        ensures
            game@ == Session::start(word@),
    {
        Wordle { word, count: 0, won: false }
    }

    /// Scores `guess` against the secret word.
    ///
    /// A guess with as many letters as the secret is accepted: it is
    /// counted, wins the game if it is the secret itself, and is answered
    /// with one result per letter. Any other guess is turned down with
    /// `GuessError::InvalidGuessLength` and changes nothing.
    ///
    /// The count is a `u32`: an accepted guess needs room for one more.
    pub fn guess(&mut self, guess: &str) -> (result: Result<GuessResult, GuessError>)
        requires
            old(self)@.accepts(guess@) ==> old(self)@.count < u32::MAX,
        ensures
            result is Ok <==> old(self)@.accepts(guess@),
            result matches Ok(scored) ==> {
                &&& scored@.word == guess@
                &&& scored@.parts == score(old(self)@.word, guess@)
            },
            result matches Err(error) ==> error == GuessError::InvalidGuessLength,
            final(self)@ == old(self)@.after(guess@),
    {
        let secret = letters_of(self.word);
        let letters = letters_of(guess);
        if letters.len() != secret.len() {
            return Err(GuessError::InvalidGuessLength);
        }
        if same_letters(&letters, &secret) {
            self.set_won();
        }
        self.count = self.count + 1;
        Ok(GuessResult::of(&secret, &letters, guess.to_owned()))
    }

    /// Returns the number of guesses that were accepted so far.
    #[must_use]
    pub fn count(&self) -> (count: u32)
        ensures
            count == self@.count,
    {
        self.count
    }

    /// Returns true if the word has been guessed.
    #[must_use]
    pub fn won(&self) -> (won: bool)
        ensures
            won == self@.won,
    {
        self.won
    }

    /// Returns the number of letters of the secret word, which is the
    /// number of letters that every guess must have.
    #[must_use]
    pub fn length(&self) -> (length: usize)
        ensures
            length == self@.word.len(),
    {
        self.word.unicode_len()
    }

    /// Returns the secret word.
    #[must_use]
    pub fn word(&self) -> (word: &str)
        ensures
            word@ == self@.word,
    {
        self.word
    }

    /// Records that the word has been guessed.
    fn set_won(&mut self)
        ensures
            final(self)@ == (Session { won: true, ..old(self)@ }),
    {
        self.won = true;
    }
}

/// No guess changes the secret word or the number of letters asked for.
/// An accepted guess raises the count by exactly one, and a guess that is
/// turned down leaves it alone.
pub proof fn guess_keeps_word_and_counts_once(session: Session, guess: Seq<char>)
    ensures
        session.after(guess).word == session.word,
        session.after(guess).word.len() == session.word.len(),
        session.accepts(guess) ==> session.after(guess).count == session.count + 1,
        !session.accepts(guess) ==> session.after(guess).count == session.count,
{
}

/// Guessing the secret itself is accepted, wins the game, and is answered
/// with every letter in position.
pub proof fn guessing_the_secret_wins(session: Session)
    ensures
        session.accepts(session.word),
        session.after(session.word).won,
        forall|i: int|
            0 <= i < session.word.len() ==> {
                &&& (#[trigger] score(session.word, session.word)[i]).in_position
                &&& score(session.word, session.word)[i].in_word
            },
{
}

/// A guess of the wrong length is not accepted and changes nothing: not the
/// count, not whether the game is won, not the word.
pub proof fn wrong_length_changes_nothing(session: Session, guess: Seq<char>)
    requires
        guess.len() != session.word.len(),
    ensures
        !session.accepts(guess),
        session.after(guess) == session,
{
}

/// An accepted guess wins the game exactly if the game was won before or the
/// guess is the secret word.
pub proof fn won_by_the_secret_only(session: Session, guess: Seq<char>)
    requires
        session.accepts(guess),
    ensures
        session.after(guess).won <==> session.won || guess == session.word,
{
}

/// A game once won stays won, and the count never goes down, whatever is
/// guessed next.
pub proof fn won_is_permanent(session: Session, guess: Seq<char>)
    ensures
        session.won ==> session.after(guess).won,
        session.after(guess).count >= session.count,
{
}

} // verus!
