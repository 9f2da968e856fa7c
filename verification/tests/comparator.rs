use wordle::compare::compare_words;
use wordle::verdict::LetterState;

fn ok(guess: &str, secret: &str) -> Vec<LetterState> {
    compare_words(guess, secret).expect("comparison should succeed")
}

#[test]
fn exact_guess_all_correct() {
    let states = ok("ERASE", "ERASE");
    assert_eq!(
        states,
        vec![
            LetterState::Correct,
            LetterState::Correct,
            LetterState::Correct,
            LetterState::Correct,
            LetterState::Correct,
        ]
    );
}

#[test]
fn duplicate_letters_speed_erase() {
    // Secret ERASE holds two E's and one S.  Neither E of SPEED sits on a
    // secret E position, but both secret E's are free to be claimed, so both
    // guessed E's score Present; the S is in the secret too, misplaced.
    let states = ok("SPEED", "ERASE");
    assert_eq!(
        states,
        vec![
            LetterState::Present,
            LetterState::Absent,
            LetterState::Present,
            LetterState::Present,
            LetterState::Absent,
        ]
    );
}

#[test]
fn reversed_word_scores_middle_correct() {
    // Reversing ABCDE keeps the middle letter in place: it scores Correct,
    // every other letter is misplaced.
    let states = ok("ABCDE", "EDCBA");
    assert_eq!(
        states,
        vec![
            LetterState::Present,
            LetterState::Present,
            LetterState::Correct,
            LetterState::Present,
            LetterState::Present,
        ]
    );
}

#[test]
fn derangement_all_present() {
    // Every letter of the guess occurs in the secret, none in its own
    // position: all five verdicts are Present.
    let states = ok("ABCDE", "BCDEA");
    assert_eq!(
        states,
        vec![
            LetterState::Present,
            LetterState::Present,
            LetterState::Present,
            LetterState::Present,
            LetterState::Present,
        ]
    );
}

#[test]
fn repeated_letter_capped_by_secret_count() {
    // ERASE holds exactly two E's, both matched in place by EEEEE; the
    // remaining three E's have nothing left to claim.
    let states = ok("EEEEE", "ERASE");
    assert_eq!(
        states,
        vec![
            LetterState::Correct,
            LetterState::Absent,
            LetterState::Absent,
            LetterState::Absent,
            LetterState::Correct,
        ]
    );
}

#[test]
fn no_shared_letters_all_absent() {
    let states = ok("MONTH", "ERASE");
    assert_eq!(
        states,
        vec![
            LetterState::Absent,
            LetterState::Absent,
            LetterState::Absent,
            LetterState::Absent,
            LetterState::Absent,
        ]
    );
}

#[test]
fn wrong_length_guess_rejected() {
    let err = compare_words("ABC", "ERASE").expect_err("short guess must be refused");
    assert_eq!(err, "'ABC' should be 5 letters long.");
    let err = compare_words("ABCDEF", "ERASE").expect_err("long guess must be refused");
    assert_eq!(err, "'ABCDEF' should be 5 letters long.");
}
