//! The four per-letter evaluation results and the strength order that drives
//! the upgrade-only keyboard aggregation.

use vstd::prelude::*;

verus! {

/// Evaluation result for a single letter of a guess, or the keyboard state of
/// an alphabet letter.
#[derive(Clone, Copy, Debug, PartialEq, Eq, Structural)]
pub enum LetterStatus {
    /// The letter stands at this exact position in the target.
    Correct,
    /// The letter occurs in the target, but not at this position.
    Close,
    /// The letter does not occur in the target.
    Wrong,
    /// No guess has touched this letter yet.
    NotGuessed,
}

/// Strength of a status under the order
/// `Correct > Close > Wrong > NotGuessed`.
pub open spec fn strength(s: LetterStatus) -> int {
    match s {
        LetterStatus::Correct => 3,
        LetterStatus::Close => 2,
        LetterStatus::Wrong => 1,
        LetterStatus::NotGuessed => 0,
    }
}

/// The stronger of a stored status and a newly observed one: the stored value
/// is replaced only by a strictly stronger observation.
pub open spec fn upgrade(stored: LetterStatus, observed: LetterStatus) -> LetterStatus {
    if strength(observed) > strength(stored) {
        observed
    } else {
        stored
    }
}

/// Strength of a status as a machine integer.
pub fn strength_of(s: LetterStatus) -> (n: u8)
    ensures
        n as int == strength(s),
{
    match s {
        LetterStatus::Correct => 3,
        LetterStatus::Close => 2,
        LetterStatus::Wrong => 1,
        LetterStatus::NotGuessed => 0,
    }
}

/// The stronger of a stored status and a newly observed one.
pub fn upgrade_status(stored: LetterStatus, observed: LetterStatus) -> (r: LetterStatus)
    ensures
        r == upgrade(stored, observed),
{
    if strength_of(observed) > strength_of(stored) {
        observed
    } else {
        stored
    }
}

} // verus!
