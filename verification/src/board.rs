//! The board: owns the target word, the history of classified guesses, the
//! aggregated per-letter keyboard state, and the completion flag.
//!
//! The board is mutated only through [`WordleBoard::add_guess`], which
//! validates the guess, classifies it against the target, appends the result
//! to the history, folds it into the keyboard aggregate under the
//! upgrade-only rule, and flips the completion flag when the guess matches
//! the target or the sixth guess is used. A rejected guess leaves the board
//! untouched, and a completed board rejects every further guess.

use vstd::prelude::*;

use crate::classify::classified;
use crate::classify::classify;
use crate::status::strength;
use crate::status::upgrade;
use crate::status::upgrade_status;
use crate::status::LetterStatus;

verus! {

/// Why a submitted guess was rejected; the board is left untouched in every
/// case.
#[derive(Clone, Copy, Debug, PartialEq, Eq, Structural)]
pub enum GuessError {
    /// The game already reached its terminal state.
    GameAlreadyCompleted,
    /// The guess is not exactly five characters long.
    InvalidGuessLength,
    /// The guess has the right length but is not a recognized word.
    WordNotInDictionary,
}

/// Whether `c` is one of the 26 lower-case alphabet letters that the
/// keyboard aggregate tracks.
pub open spec fn is_alphabet_letter(c: char) -> bool {
    'a' as int <= c as int <= 'z' as int
}

/// Index of an alphabet letter in the keyboard aggregate.
pub open spec fn letter_index(c: char) -> int {
    c as int - 'a' as int
}

/// The keyboard aggregate after one (letter, status) pair is folded in:
/// the letter's entry is upgraded if the pair's status is strictly stronger,
/// and a character outside the alphabet leaves the aggregate unchanged.
pub open spec fn fold_pair(agg: Seq<LetterStatus>, p: (char, LetterStatus)) -> Seq<LetterStatus> {
    if is_alphabet_letter(p.0) {
        agg.update(letter_index(p.0), upgrade(agg[letter_index(p.0)], p.1))
    } else {
        agg
    }
}

/// The keyboard aggregate after a whole classified guess is folded in,
/// pair by pair in guess order.
pub open spec fn fold_guess(
    agg: Seq<LetterStatus>,
    cg: Seq<(char, LetterStatus)>,
) -> Seq<LetterStatus>
    decreases cg.len(),
{
    if cg.len() == 0 {
        agg
    } else {
        fold_pair(fold_guess(agg, cg.drop_last()), cg.last())
    }
}

/// Folding preserves the length of the aggregate.
pub proof fn lemma_fold_guess_len(agg: Seq<LetterStatus>, cg: Seq<(char, LetterStatus)>)
    requires
        agg.len() == 26,
    ensures
        fold_guess(agg, cg).len() == agg.len(),
    decreases cg.len(),
{
    if cg.len() > 0 {
        lemma_fold_guess_len(agg, cg.drop_last());
    }
}

/// Aggregation is upgrade-only: folding a classified guess into the keyboard
/// aggregate never reports a weaker status for any letter than the aggregate
/// held before.
pub proof fn lemma_fold_guess_upgrade_only(agg: Seq<LetterStatus>, cg: Seq<(char, LetterStatus)>)
    requires
        agg.len() == 26,
    ensures
        forall|j: int|
            0 <= j < agg.len() ==> strength(#[trigger] fold_guess(agg, cg)[j]) >= strength(agg[j]),
    decreases cg.len(),
{
    if cg.len() > 0 {
        lemma_fold_guess_upgrade_only(agg, cg.drop_last());
        lemma_fold_guess_len(agg, cg.drop_last());
    }
}

/// The status a letter's aggregate entry holds after one classified guess:
/// its prior value, upgraded in turn by every status the guess assigns to
/// that letter.
pub open spec fn best_for_letter(
    prior: LetterStatus,
    cg: Seq<(char, LetterStatus)>,
    c: char,
) -> LetterStatus
    decreases cg.len(),
{
    if cg.len() == 0 {
        prior
    } else {
        let rest = best_for_letter(prior, cg.drop_last(), c);
        if cg.last().0 == c {
            upgrade(rest, cg.last().1)
        } else {
            rest
        }
    }
}

/// The aggregate reflects the strongest status seen per letter: folding a
/// classified guess moves an alphabet letter's entry to the upgrade of its
/// prior value by exactly the statuses that the guess assigns to that
/// letter — in particular, a letter the guess does not contain keeps its
/// entry unchanged.
pub proof fn lemma_fold_guess_tracks_letter(
    agg: Seq<LetterStatus>,
    cg: Seq<(char, LetterStatus)>,
    c: char,
)
    requires
        agg.len() == 26,
        is_alphabet_letter(c),
    ensures
        fold_guess(agg, cg)[letter_index(c)] == best_for_letter(agg[letter_index(c)], cg, c),
    decreases cg.len(),
{
    if cg.len() > 0 {
        lemma_fold_guess_tracks_letter(agg, cg.drop_last(), c);
        lemma_fold_guess_len(agg, cg.drop_last());
    }
}

/// Whether the word `w` is a member of the dictionary `dict`.
pub open spec fn dict_has(dict: Seq<Vec<char>>, w: Seq<char>) -> bool {
    exists|i: int| 0 <= i < dict.len() && (#[trigger] dict[i])@ == w
}

/// Index of `c` in the keyboard aggregate, when `c` is an alphabet letter.
fn alphabet_index(c: char) -> (r: Option<usize>)
    ensures
        r is Some <==> is_alphabet_letter(c),
        is_alphabet_letter(c) ==> r == Some(letter_index(c) as usize) && 0 <= letter_index(c)
            < 26,
{
    let u = c as u32;
    if 'a' as u32 <= u && u <= 'z' as u32 {
        Some((u - 'a' as u32) as usize)
    } else {
        None
    }
}

/// Whether two words hold the same characters in the same order.
fn words_equal(a: &Vec<char>, b: &Vec<char>) -> (r: bool)
    ensures
        r == (a@ == b@),
{
    if a.len() != b.len() {
        return false;
    }
    let mut i: usize = 0;
    while i < a.len()
        invariant
            a@.len() == b@.len(),
            i <= a@.len(),
            forall|k: int| 0 <= k < i ==> a@[k] == b@[k],
        decreases a@.len() - i,
    {
        if a[i] != b[i] {
            return false;
        }
        i += 1;
    }
    proof {
        assert(a@ =~= b@);
    }
    true
}

/// Whether `w` is a member of the dictionary.
fn is_valid_word(dict: &Vec<Vec<char>>, w: &Vec<char>) -> (r: bool)
    ensures
        r == dict_has(dict@, w@),
{
    let mut i: usize = 0;
    while i < dict.len()
        invariant
            i <= dict@.len(),
            forall|k: int| 0 <= k < i ==> (#[trigger] dict@[k])@ != w@,
        decreases dict@.len() - i,
    {
        if words_equal(&dict[i], w) {
            return true;
        }
        i += 1;
    }
    false
}

/// Folds a classified guess into the keyboard aggregate, pair by pair.
fn fold_guess_into(agg: &mut Vec<LetterStatus>, cg: &Vec<(char, LetterStatus)>)
    requires
        old(agg)@.len() == 26,
    ensures
        final(agg)@ == fold_guess(old(agg)@, cg@),
        final(agg)@.len() == 26,
{
    let ghost agg0 = agg@;
    let mut i: usize = 0;
    while i < cg.len()
        invariant
            i <= cg@.len(),
            agg@.len() == 26,
            agg@ == fold_guess(agg0, cg@.take(i as int)),
        decreases cg@.len() - i,
    {
        proof {
            assert(cg@.take(i as int + 1).drop_last() =~= cg@.take(i as int));
            assert(cg@.take(i as int + 1).last() == cg@[i as int]);
        }
        let (c, s) = cg[i];
        if let Some(idx) = alphabet_index(c) {
            let cur = agg[idx];
            agg.set(idx, upgrade_status(cur, s));
        }
        i += 1;
    }
    proof {
        assert(cg@.take(cg@.len() as int) =~= cg@);
    }
}

/// The aggregate root of one game: the fixed target word, the dictionary of
/// accepted words, the history of classified guesses, the per-letter
/// keyboard aggregate, and the completion flag.
pub struct WordleBoard {
    /// The five-character word to be guessed, fixed for the game's lifetime.
    pub target: Vec<char>,
    /// The externally supplied set of words accepted as guesses.
    pub valid_words: Vec<Vec<char>>,
    /// Ordered history of classified guesses, append-only, at most six.
    pub history: Vec<Vec<(char, LetterStatus)>>,
    /// Best-known status of each of the 26 alphabet letters, indexed by
    /// [`letter_index`].
    pub letter_aggregate: Vec<LetterStatus>,
    /// True once a winning guess was appended or six guesses were used.
    pub completed: bool,
}

impl WordleBoard {
    /// The history as a sequence of classified-guess sequences.
    pub open spec fn history_view(&self) -> Seq<Seq<(char, LetterStatus)>> {
        Seq::new(self.history@.len(), |i: int| self.history@[i]@)
    }

    /// Well-formedness: the target has five letters, the aggregate one entry
    /// per alphabet letter, the history at most six entries — and room for
    /// one more while the game is in progress — and every history entry is
    /// the classification of some five-letter guess against the fixed target.
    pub open spec fn wf(&self) -> bool {
        &&& self.target@.len() == 5
        &&& self.letter_aggregate@.len() == 26
        &&& self.history@.len() <= 6
        &&& (!self.completed ==> self.history@.len() < 6)
        &&& forall|i: int|
            0 <= i < self.history@.len() ==> exists|g: Seq<char>|
                g.len() == 5 && (#[trigger] self.history@[i])@ == classified(g, self.target@)
    }

    /// Creates the board for one game: empty history, no letter guessed yet,
    /// game in progress.
    pub fn new(target: Vec<char>, valid_words: Vec<Vec<char>>) -> (board: WordleBoard)
        requires
            target@.len() == 5,
        ensures
            board.wf(),
            board.target@ == target@,
            board.valid_words@ == valid_words@,
            !board.completed,
            board.history@.len() == 0,
            forall|j: int|
                0 <= j < 26 ==> board.letter_aggregate@[j] == LetterStatus::NotGuessed,
    {
        let mut letter_aggregate: Vec<LetterStatus> = Vec::new();
        let mut i: usize = 0;
        while i < 26
            invariant
                i <= 26,
                letter_aggregate@.len() == i,
                forall|j: int| 0 <= j < i ==> letter_aggregate@[j] == LetterStatus::NotGuessed,
            decreases 26 - i,
        {
            letter_aggregate.push(LetterStatus::NotGuessed);
            i += 1;
        }
        WordleBoard {
            target,
            valid_words,
            history: Vec::new(),
            letter_aggregate,
            completed: false,
        }
    }

    /// Submits one guess.
    ///
    /// A guess is rejected — with the board left exactly as it was — when the
    /// game is already completed, when it is not five characters long, or
    /// when it is not in the dictionary, the first failing check deciding the
    /// error. An accepted guess is classified against the target, the
    /// classification is appended to the history and folded into the keyboard
    /// aggregate under the upgrade-only rule, and the game completes exactly
    /// when the guess equals the target or the history reaches six entries.
    pub fn add_guess(&mut self, new_guess: Vec<char>) -> (r: Result<(), GuessError>)
        requires
            old(self).wf(),
        ensures
            final(self).wf(),
            final(self).target@ == old(self).target@,
            final(self).valid_words@ == old(self).valid_words@,
            r is Err ==> *final(self) == *old(self),
            old(self).completed ==> r == Err::<(), GuessError>(GuessError::GameAlreadyCompleted),
            !old(self).completed && new_guess@.len() != 5 ==> r == Err::<(), GuessError>(
                GuessError::InvalidGuessLength,
            ),
            !old(self).completed && new_guess@.len() == 5 && !dict_has(
                old(self).valid_words@,
                new_guess@,
            ) ==> r == Err::<(), GuessError>(GuessError::WordNotInDictionary),
            !old(self).completed && new_guess@.len() == 5 && dict_has(
                old(self).valid_words@,
                new_guess@,
            ) ==> {
                &&& r == Ok::<(), GuessError>(())
                &&& final(self).history_view() == old(self).history_view().push(
                    classified(new_guess@, old(self).target@),
                )
                &&& final(self).history@.len() == old(self).history@.len() + 1
                &&& final(self).letter_aggregate@ == fold_guess(
                    old(self).letter_aggregate@,
                    classified(new_guess@, old(self).target@),
                )
                &&& final(self).completed == (new_guess@ == old(self).target@
                    || final(self).history@.len() == 6)
            },
            forall|j: int|
                0 <= j < 26 ==> strength(#[trigger] final(self).letter_aggregate@[j]) >= strength(
                    old(self).letter_aggregate@[j],
                ),
    {
        if self.completed {
            return Err(GuessError::GameAlreadyCompleted);
        }
        if new_guess.len() != 5 {
            return Err(GuessError::InvalidGuessLength);
        }
        if !is_valid_word(&self.valid_words, &new_guess) {
            return Err(GuessError::WordNotInDictionary);
        }
        let cg = classify(&new_guess, &self.target);
        fold_guess_into(&mut self.letter_aggregate, &cg);
        self.history.push(cg);
        let won = words_equal(&new_guess, &self.target);
        if won || self.history.len() == 6 {
            self.completed = true;
        }
        proof {
            lemma_fold_guess_upgrade_only(
                old(self).letter_aggregate@,
                classified(new_guess@, old(self).target@),
            );
            assert(self.history_view() =~= old(self).history_view().push(
                classified(new_guess@, old(self).target@),
            ));
            assert forall|i: int| 0 <= i < self.history@.len() implies exists|g: Seq<char>|
                g.len() == 5 && (#[trigger] self.history@[i])@ == classified(
                    g,
                    self.target@,
                ) by {
                if i < old(self).history@.len() {
                    assert(self.history@[i] == old(self).history@[i]);
                } else {
                    assert((self.history@[i])@ == classified(new_guess@, self.target@));
                }
            }
        }
        Ok(())
    }

    /// Whether the game has reached its terminal state.
    pub fn is_completed(&self) -> (b: bool)
        ensures
            b == self.completed,
    {
        self.completed
    }

    /// How many guesses are still available.
    pub fn remaining_attempts(&self) -> (n: usize)
        requires
            self.wf(),
        ensures
            n as int == 6 - self.history@.len(),
    {
        6 - self.history.len()
    }

    /// The best-known status of one keyboard letter; a character outside the
    /// 26 alphabet letters was never aggregated and reads as `NotGuessed`.
    pub fn letter_status(&self, c: char) -> (s: LetterStatus)
        requires
            self.wf(),
        ensures
            is_alphabet_letter(c) ==> s == self.letter_aggregate@[letter_index(c)],
            !is_alphabet_letter(c) ==> s == LetterStatus::NotGuessed,
    {
        if let Some(idx) = alphabet_index(c) {
            self.letter_aggregate[idx]
        } else {
            LetterStatus::NotGuessed
        }
    }

    /// The read-only snapshot the presentation layer draws from: the history,
    /// the keyboard aggregate, and the number of remaining attempts.
    pub fn render_state(&self) -> (r: (&Vec<Vec<(char, LetterStatus)>>, &Vec<LetterStatus>, usize))
        requires
            self.wf(),
        ensures
            r.0@ == self.history@,
            r.1@ == self.letter_aggregate@,
            r.2 as int == 6 - self.history@.len(),
    {
        (&self.history, &self.letter_aggregate, 6 - self.history.len())
    }
}

} // verus!
