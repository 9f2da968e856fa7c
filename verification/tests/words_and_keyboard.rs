use wordle::text::to_upper;
use wordle::verdict::merge;
use wordle::verdict::Keyboard;
use wordle::verdict::LetterState;
use wordle::verdict::LetterState::Absent;
use wordle::verdict::LetterState::Correct;
use wordle::verdict::LetterState::Present;
use wordle::verdict::LetterState::Unknown;
use wordle::words::print_keyboard;
use wordle::words::read_word;
use wordle::words::valid_word;
use wordle::words::Word;

fn dict(words: &[&str]) -> Vec<String> {
    words.iter().map(|w| String::from(*w)).collect()
}

#[test]
fn word_new_is_blank() {
    let w = Word::new(5);
    assert_eq!(w.text, "     ");
    assert_eq!(w.state, vec![LetterState::Unknown; 5]);
}

#[test]
fn valid_word_is_membership() {
    let allowed = dict(&["ERASE", "SPEED"]);
    assert!(valid_word(&allowed, "ERASE"));
    assert!(valid_word(&allowed, "SPEED"));
    assert!(!valid_word(&allowed, "CRANE"));
    assert!(!valid_word(&dict(&[]), "ERASE"));
}

#[test]
fn to_upper_maps_ascii_letters() {
    assert_eq!(to_upper("speed"), "SPEED");
    assert_eq!(to_upper("SpEeD"), "SPEED");
    assert_eq!(to_upper("a1-z!"), "A1-Z!");
}

#[test]
fn read_word_scores_accepted_guess() {
    let allowed = dict(&["ERASE", "SPEED"]);
    let w = read_word("speed", &allowed, "ERASE").expect("guess should be accepted");
    assert_eq!(w.text, "SPEED");
    assert_eq!(
        w.state,
        vec![
            LetterState::Present,
            LetterState::Absent,
            LetterState::Present,
            LetterState::Present,
            LetterState::Absent,
        ]
    );
}

#[test]
fn read_word_rejects_wrong_length() {
    let allowed = dict(&["ERASE"]);
    let err = read_word("spe", &allowed, "ERASE").expect_err("short guess must be refused");
    assert_eq!(err, "'spe' is not 5 letters long.");
}

#[test]
fn read_word_rejects_unknown_word() {
    let allowed = dict(&["ERASE"]);
    let err = read_word("qwzxj", &allowed, "ERASE").expect_err("unknown word must be refused");
    assert_eq!(err, "'QWZXJ' is not a word.");
}

#[test]
fn merge_follows_upgrade_table() {
    // Correct and Absent are frozen.
    for incoming in [Correct, Present, Absent, Unknown] {
        assert_eq!(merge(Correct, incoming), Correct);
        assert_eq!(merge(Absent, incoming), Absent);
    }
    // Present only upgrades to Correct.
    assert_eq!(merge(Present, Correct), Correct);
    assert_eq!(merge(Present, Present), Present);
    assert_eq!(merge(Present, Absent), Present);
    assert_eq!(merge(Present, Unknown), Present);
    // Unknown adopts whatever arrives.
    for incoming in [Correct, Present, Absent, Unknown] {
        assert_eq!(merge(Unknown, incoming), incoming);
    }
}

fn rank(s: LetterState) -> u32 {
    match s {
        Correct => 3,
        Present => 2,
        Absent => 1,
        Unknown => 0,
    }
}

#[test]
fn merge_chain_never_regresses() {
    let chain = [Present, Absent, Unknown, Correct, Absent, Present];
    let mut current = Unknown;
    for incoming in chain {
        let next = merge(current, incoming);
        assert!(rank(next) >= rank(current));
        current = next;
    }
    assert_eq!(current, Correct);
}

#[test]
fn fresh_keyboard_knows_nothing() {
    let kb = Keyboard::new();
    assert_eq!(kb.status_of('A'), LetterState::Unknown);
    assert_eq!(kb.status_of('Z'), LetterState::Unknown);
    // Only upper-case ASCII letters are tracked.
    assert_eq!(kb.status_of('a'), LetterState::Unknown);
    assert_eq!(kb.status_of('!'), LetterState::Unknown);
}

#[test]
fn keyboard_records_and_upgrades() {
    let mut kb = Keyboard::new();
    kb.record('E', LetterState::Present);
    assert_eq!(kb.status_of('E'), LetterState::Present);
    kb.record('E', LetterState::Absent);
    assert_eq!(kb.status_of('E'), LetterState::Present);
    kb.record('E', LetterState::Correct);
    assert_eq!(kb.status_of('E'), LetterState::Correct);
    // Characters outside the alphabet are ignored.
    kb.record('!', LetterState::Correct);
    assert_eq!(kb.status_of('!'), LetterState::Unknown);
}

#[test]
fn keyboard_rows_follow_status() {
    let mut kb = Keyboard::new();
    kb.record('Q', LetterState::Correct);
    kb.record('S', LetterState::Present);
    kb.record('M', LetterState::Absent);
    let rows = print_keyboard(&kb);
    assert_eq!(rows.len(), 3);
    assert_eq!(rows[0].text, "QWERTYUIOP");
    assert_eq!(rows[1].text, "ASDFGHJKL");
    assert_eq!(rows[2].text, "ZXCVBNM");
    assert_eq!(rows[0].state[0], LetterState::Correct);
    assert_eq!(rows[0].state[1], LetterState::Unknown);
    assert_eq!(rows[1].state[1], LetterState::Present);
    assert_eq!(rows[2].state[6], LetterState::Absent);
}
