//! The letter classifier: compares a five-letter guess to the target,
//! position by position.
//!
//! Classification is position-only, with no duplicate-letter budgeting: every
//! non-matching occurrence of a letter that the target contains anywhere is
//! marked `Close`, even when the target holds fewer copies of that letter
//! than the guess does.

use vstd::prelude::*;

use crate::status::LetterStatus;

verus! {

/// Status of one guessed letter `gc` standing where the target holds `tc`,
/// within target word `t`.
pub open spec fn status_at(gc: char, tc: char, t: Seq<char>) -> LetterStatus {
    if gc == tc {
        LetterStatus::Correct
    } else if t.contains(gc) {
        LetterStatus::Close
    } else {
        LetterStatus::Wrong
    }
}

/// The full classification of guess `g` against target `t`: one
/// (letter, status) pair per position of the guess.
pub open spec fn classified(g: Seq<char>, t: Seq<char>) -> Seq<(char, LetterStatus)> {
    Seq::new(g.len(), |i: int| (g[i], status_at(g[i], t[i], t)))
}

/// Whether `word` contains the character `c` anywhere.
fn word_contains(word: &Vec<char>, c: char) -> (b: bool)
    ensures
        b == word@.contains(c),
{
    let mut j: usize = 0;
    while j < word.len()
        invariant
            j <= word@.len(),
            forall|k: int| 0 <= k < j ==> word@[k] != c,
        decreases word@.len() - j,
    {
        if word[j] == c {
            return true;
        }
        j += 1;
    }
    false
}

/// Classifies a five-letter guess against the five-letter target: `Correct`
/// where the letters agree, `Close` where the guessed letter occurs elsewhere
/// in the target, `Wrong` where it does not occur at all.
pub fn classify(guess: &Vec<char>, target: &Vec<char>) -> (r: Vec<(char, LetterStatus)>)
    requires
        guess@.len() == 5,
        target@.len() == 5,
    ensures
        r@ == classified(guess@, target@),
        forall|i: int|
            0 <= i < 5 ==> ((#[trigger] r@[i]).1 == LetterStatus::Correct <==> guess@[i]
                == target@[i]),
        forall|i: int|
            0 <= i < 5 && (#[trigger] r@[i]).1 != LetterStatus::Correct ==> (r@[i].1
                == LetterStatus::Close <==> target@.contains(guess@[i])),
        forall|i: int|
            0 <= i < 5 && (#[trigger] r@[i]).1 != LetterStatus::Correct && !target@.contains(
                guess@[i],
            ) ==> r@[i].1 == LetterStatus::Wrong,
    {
    let mut r: Vec<(char, LetterStatus)> = Vec::new();
    let mut i: usize = 0;
    while i < 5
        invariant
            guess@.len() == 5,
            target@.len() == 5,
            i <= 5,
            r@.len() == i,
            forall|k: int| 0 <= k < i ==> r@[k] == classified(guess@, target@)[k],
        decreases 5 - i,
    {
        let gc = guess[i];
        let status = if gc == target[i] {
            LetterStatus::Correct
        } else if word_contains(target, gc) {
            LetterStatus::Close
        } else {
            LetterStatus::Wrong
        };
        r.push((gc, status));
        i += 1;
    }
    proof {
        assert(r@ =~= classified(guess@, target@));
    }
    r
}

} // verus!
