use wordle_board::classify;
use wordle_board::LetterStatus;

fn word(s: &str) -> Vec<char> {
    s.chars().collect()
}

#[test]
fn classify_exact_match_is_all_correct() {
    let r = classify(&word("hello"), &word("hello"));
    assert_eq!(
        r,
        vec![
            ('h', LetterStatus::Correct),
            ('e', LetterStatus::Correct),
            ('l', LetterStatus::Correct),
            ('l', LetterStatus::Correct),
            ('o', LetterStatus::Correct),
        ]
    );
}

#[test]
fn classify_mixed_statuses() {
    // Target "hello": 'w' and 'd' are absent, 'o' and 'l' occur elsewhere.
    let r = classify(&word("world"), &word("hello"));
    assert_eq!(
        r,
        vec![
            ('w', LetterStatus::Wrong),
            ('o', LetterStatus::Close),
            ('r', LetterStatus::Wrong),
            ('l', LetterStatus::Correct),
            ('d', LetterStatus::Wrong),
        ]
    );
}

#[test]
fn classify_is_position_only_for_duplicates() {
    // Position-only classification, no duplicate-letter budgeting: the 'o'
    // at position 3 is Close because the target contains an 'o' elsewhere,
    // even though the target's only 'o' is already matched at position 4.
    let r = classify(&word("heloo"), &word("hello"));
    assert_eq!(
        r,
        vec![
            ('h', LetterStatus::Correct),
            ('e', LetterStatus::Correct),
            ('l', LetterStatus::Correct),
            ('o', LetterStatus::Close),
            ('o', LetterStatus::Correct),
        ]
    );
}

#[test]
fn classify_duplicate_guess_letters_all_close() {
    // Target "cargo" holds a single 'a'; both misplaced 'a's in the guess
    // are marked Close.
    let r = classify(&word("salad"), &word("cargo"));
    assert_eq!(
        r,
        vec![
            ('s', LetterStatus::Wrong),
            ('a', LetterStatus::Correct),
            ('l', LetterStatus::Wrong),
            ('a', LetterStatus::Close),
            ('d', LetterStatus::Wrong),
        ]
    );
}

#[test]
fn classify_absent_letters_are_wrong() {
    let r = classify(&word("crumb"), &word("hello"));
    assert_eq!(
        r,
        vec![
            ('c', LetterStatus::Wrong),
            ('r', LetterStatus::Wrong),
            ('u', LetterStatus::Wrong),
            ('m', LetterStatus::Wrong),
            ('b', LetterStatus::Wrong),
        ]
    );
}
