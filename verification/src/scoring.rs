//! Per-letter scoring of a guess against a secret word.
//!
//! The scoring rule is the simple one: a guessed letter counts as being in
//! the word whenever the secret holds it anywhere, however often it was
//! guessed, and as being in position when the secret holds it at the same
//! index.

use crate::letters::has_letter;
use vstd::prelude::*;

verus! {

/// What is known about one guessed letter.
pub ghost struct LetterScore {
    /// The guessed letter.
    pub letter: char,
    /// Whether the secret holds the letter anywhere.
    pub in_word: bool,
    /// Whether the secret holds the letter at the guessed position.
    pub in_position: bool,
}

impl LetterScore {
    /// A letter that is in position is also in the word.
    pub open spec fn consistent(self) -> bool {
        self.in_position ==> self.in_word
    }
}

/// The score of `letter`, guessed at position `i`, against `secret`.
pub open spec fn letter_score(secret: Seq<char>, letter: char, i: int) -> LetterScore {
    LetterScore {
        letter,
        in_word: secret.contains(letter),
        in_position: 0 <= i < secret.len() && secret[i] == letter,
    }
}

/// The scores of all letters of `guess`, in guess order.
pub open spec fn score(secret: Seq<char>, guess: Seq<char>) -> Seq<LetterScore> {
    Seq::new(guess.len(), |i: int| letter_score(secret, guess[i], i))
}

/// The result of a guess for a single letter.
#[derive(Debug, Copy, Clone)]
pub struct PartResult {
    letter: char,
    in_word: bool,
    in_position: bool,
}

impl View for PartResult {
    type V = LetterScore;

    closed spec fn view(&self) -> LetterScore {
        LetterScore { letter: self.letter, in_word: self.in_word, in_position: self.in_position }
    }
}

impl PartResult {
    #[verifier::type_invariant]
    spec fn inv(self) -> bool {
        self@.consistent()
    }

    /// Scores `letter`, guessed at `position`, against `secret`.
    pub(crate) fn of(secret: &Vec<char>, letter: char, position: usize) -> (part: PartResult)
        ensures
            part@ == letter_score(secret@, letter, position as int),
    {
        let in_word = has_letter(secret, letter);
        let in_position = position < secret.len() && secret[position] == letter;
        PartResult { letter, in_word, in_position }
    }

    /// Returns the letter that was guessed.
    #[must_use]
    pub fn letter(&self) -> (c: char)
        ensures
            c == self@.letter,
    {
        self.letter
    }

    /// Returns true if the letter occurs anywhere in the word.
    #[must_use]
    pub fn in_word(&self) -> (b: bool)
        ensures
            b == self@.in_word,
            self@.consistent(),
    {
        proof {
            use_type_invariant(self);
        }
        self.in_word
    }

    /// Returns true if the letter stands at the same position in the word.
    #[must_use]
    pub fn in_position(&self) -> (b: bool)
        ensures
            b == self@.in_position,
            self@.consistent(),
    {
        proof {
            use_type_invariant(self);
        }
        self.in_position
    }
}

/// The scores that a sequence of letter results stands for.
pub open spec fn scores_of(parts: Seq<PartResult>) -> Seq<LetterScore> {
    Seq::new(parts.len(), |i: int| parts[i]@)
}

/// What is known about a whole guess.
pub ghost struct GuessScore {
    /// The guessed word.
    pub word: Seq<char>,
    /// One score per letter of the word, in the word's order.
    pub parts: Seq<LetterScore>,
}

impl GuessScore {
    /// There is one score per letter of the guessed word, each is about the
    /// letter at its own position, and each is consistent.
    pub open spec fn well_formed(self) -> bool {
        &&& self.parts.len() == self.word.len()
        &&& forall|i: int|
            0 <= i < self.parts.len() ==> {
                &&& (#[trigger] self.parts[i]).letter == self.word[i]
                &&& self.parts[i].consistent()
            }
    }
}

/// The result of a guess for the entire word.
#[derive(Debug)]
pub struct GuessResult {
    word: String,
    parts: Vec<PartResult>,
}

impl View for GuessResult {
    type V = GuessScore;

    closed spec fn view(&self) -> GuessScore {
        GuessScore { word: self.word@, parts: scores_of(self.parts@) }
    }
}

impl GuessResult {
    #[verifier::type_invariant]
    spec fn inv(self) -> bool {
        self@.well_formed()
    }

    /// Scores `guess` against `secret`, letter by letter.
    pub(crate) fn of(secret: &Vec<char>, guess: &Vec<char>, word: String) -> (result: GuessResult)
        requires
            word@ == guess@,
        ensures
            result@.word == guess@,
            result@.parts == score(secret@, guess@),
    {
        let mut parts: Vec<PartResult> = Vec::new();
        let mut i: usize = 0;
        while i < guess.len()
            invariant
                i <= guess.len(),
                parts@.len() == i,
                forall|j: int|
                    0 <= j < i ==> (#[trigger] parts@[j])@ == letter_score(secret@, guess@[j], j),
            decreases guess.len() - i,
        {
            parts.push(PartResult::of(secret, guess[i], i));
            i += 1;
        }
        assert(scores_of(parts@) =~= score(secret@, guess@));
        GuessResult { word, parts }
    }

    /// Returns the word that was guessed.
    #[must_use]
    pub fn word(&self) -> (w: &str)
        ensures
            w@ == self@.word,
            self@.well_formed(),
    {
        proof {
            use_type_invariant(self);
        }
        self.word.as_str()
    }

    /// Returns the results for the letters of the guessed word, in order.
    #[must_use]
    pub fn parts(&self) -> (parts: &Vec<PartResult>)
        ensures
            scores_of(parts@) == self@.parts,
            parts@.len() == self@.word.len(),
            self@.well_formed(),
    {
        proof {
            use_type_invariant(self);
        }
        &self.parts
    }
}

/// A guess is answered with exactly one score per letter, and the scores
/// come in the order of the guessed letters.
pub proof fn score_follows_guess(secret: Seq<char>, guess: Seq<char>)
    ensures
        score(secret, guess).len() == guess.len(),
        forall|i: int|
            0 <= i < guess.len() ==> (#[trigger] score(secret, guess)[i]).letter == guess[i],
        (GuessScore { word: guess, parts: score(secret, guess) }).well_formed(),
{
}

/// A letter is in the word exactly if the secret holds it somewhere, and in
/// position exactly if the secret holds it at the same index. How often the
/// letter was guessed plays no part.
pub proof fn score_of_each_letter(secret: Seq<char>, guess: Seq<char>, i: int)
    requires
        guess.len() == secret.len(),
        0 <= i < guess.len(),
    ensures
        score(secret, guess)[i].in_word <==> exists|j: int|
            0 <= j < secret.len() && secret[j] == guess[i],
        score(secret, guess)[i].in_position <==> secret[i] == guess[i],
        score(secret, guess)[i].in_position ==> score(secret, guess)[i].in_word,
{
}

/// Guessing the secret itself puts every letter in the word and in position.
pub proof fn score_of_secret(secret: Seq<char>)
    ensures
        forall|i: int|
            0 <= i < secret.len() ==> {
                &&& (#[trigger] score(secret, secret)[i]).in_position
                &&& score(secret, secret)[i].in_word
            },
{
}

/// A guess of the right length has every letter in position exactly if it
/// is the secret.
pub proof fn all_in_position_means_secret(secret: Seq<char>, guess: Seq<char>)
    requires
        guess.len() == secret.len(),
    ensures
        guess == secret <==> forall|i: int|
            0 <= i < guess.len() ==> (#[trigger] score(secret, guess)[i]).in_position,
{
    if forall|i: int| 0 <= i < guess.len() ==> (#[trigger] score(secret, guess)[i]).in_position {
        assert forall|i: int| 0 <= i < guess.len() implies guess[i] == secret[i] by {
            assert(score(secret, guess)[i].in_position);
        }
        assert(guess =~= secret);
    }
}

} // verus!
