//! Executable helpers on sequences of letters.
//!
//! A word is handled as the sequence of its `char`s, so positions count
//! letters and never bytes.

use vstd::prelude::*;

verus! {

/// Collects the letters of `s`, in order.
pub(crate) fn letters_of(s: &str) -> (v: Vec<char>)
    ensures
        v@ == s@,
{
    let mut v: Vec<char> = Vec::new();
    for c in it: s.chars()
        invariant
            it.seq() == s@,
            v@ == s@.take(it.index()),
    {
        v.push(c);
    }
    v
}

/// Tells whether `letter` occurs anywhere in `word`.
pub(crate) fn has_letter(word: &Vec<char>, letter: char) -> (found: bool)
    ensures
        found == word@.contains(letter),
{
    let mut i: usize = 0;
    while i < word.len()
        invariant
            i <= word.len(),
            forall|j: int| 0 <= j < i ==> word@[j] != letter,
        decreases word.len() - i,
    {
        if word[i] == letter {
            return true;
        }
        i += 1;
    }
    false
}

/// Tells whether `a` and `b` hold the same letters in the same order.
pub(crate) fn same_letters(a: &Vec<char>, b: &Vec<char>) -> (same: bool)
    ensures
        same == (a@ == b@),
{
    if a.len() != b.len() {
        return false;
    }
    let mut i: usize = 0;
    while i < a.len()
        invariant
            a.len() == b.len(),
            i <= a.len(),
            forall|j: int| 0 <= j < i ==> a@[j] == b@[j],
        decreases a.len() - i,
    {
        if a[i] != b[i] {
            return false;
        }
        i += 1;
    }
    assert(a@ =~= b@);
    true
}

} // verus!
