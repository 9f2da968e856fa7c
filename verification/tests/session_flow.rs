use wordle::session::choose_word;
use wordle::session::GameOutcome;
use wordle::session::GuessError;
use wordle::session::Session;
use wordle::verdict::LetterState;

fn dict(words: &[&str]) -> Vec<String> {
    words.iter().map(|w| String::from(*w)).collect()
}

#[test]
fn win_on_first_attempt() {
    let allowed = dict(&["ERASE", "SPEED"]);
    let mut s = Session::new(String::from("ERASE"), 6);
    assert_eq!(s.outcome(), GameOutcome::InProgress);
    s.submit_guess("erase", &allowed).expect("guess should be accepted");
    assert_eq!(s.outcome(), GameOutcome::Won);
    assert_eq!(s.remaining_attempts(), 5);
    assert_eq!(s.guesses().len(), 1);
    assert_eq!(s.guesses()[0].text, "ERASE");
    assert_eq!(s.guesses()[0].state, vec![LetterState::Correct; 5]);
}

#[test]
fn win_on_third_attempt() {
    let allowed = dict(&["ERASE", "SPEED", "MONTH"]);
    let mut s = Session::new(String::from("ERASE"), 6);
    s.submit_guess("MONTH", &allowed).expect("guess should be accepted");
    assert_eq!(s.outcome(), GameOutcome::InProgress);
    s.submit_guess("SPEED", &allowed).expect("guess should be accepted");
    assert_eq!(s.outcome(), GameOutcome::InProgress);
    s.submit_guess("ERASE", &allowed).expect("guess should be accepted");
    assert_eq!(s.outcome(), GameOutcome::Won);
    assert_eq!(s.remaining_attempts(), 3);
    assert_eq!(s.guesses().len(), 3);
}

#[test]
fn loss_when_budget_runs_out() {
    let allowed = dict(&["ERASE", "SPEED"]);
    let mut s = Session::new(String::from("ERASE"), 6);
    for turn in 0..6 {
        assert_eq!(s.outcome(), GameOutcome::InProgress, "turn {turn}");
        s.submit_guess("SPEED", &allowed).expect("guess should be accepted");
    }
    assert_eq!(s.outcome(), GameOutcome::Lost);
    assert_eq!(s.remaining_attempts(), 0);
    assert_eq!(s.guesses().len(), 6);
    assert_eq!(s.reveal_secret().as_str(), "ERASE");
}

#[test]
fn winning_guess_on_last_attempt_wins() {
    let allowed = dict(&["ERASE", "SPEED"]);
    let mut s = Session::new(String::from("ERASE"), 2);
    s.submit_guess("SPEED", &allowed).expect("guess should be accepted");
    s.submit_guess("ERASE", &allowed).expect("guess should be accepted");
    assert_eq!(s.outcome(), GameOutcome::Won);
    assert_eq!(s.remaining_attempts(), 0);
}

#[test]
fn invalid_guesses_cost_no_attempt() {
    let allowed = dict(&["ERASE", "SPEED"]);
    let mut s = Session::new(String::from("ERASE"), 6);
    let err = s.submit_guess("abc", &allowed).expect_err("short guess must be refused");
    assert_eq!(err, GuessError::WrongLength);
    let err = s.submit_guess("abcdef", &allowed).expect_err("long guess must be refused");
    assert_eq!(err, GuessError::WrongLength);
    let err = s.submit_guess("qwzxj", &allowed).expect_err("unknown word must be refused");
    assert_eq!(err, GuessError::NotInDictionary);
    assert_eq!(s.remaining_attempts(), 6);
    assert_eq!(s.guesses().len(), 0);
    assert_eq!(s.outcome(), GameOutcome::InProgress);
}

#[test]
fn finished_session_refuses_guesses() {
    let allowed = dict(&["ERASE", "SPEED"]);
    let mut s = Session::new(String::from("ERASE"), 6);
    s.submit_guess("ERASE", &allowed).expect("guess should be accepted");
    assert_eq!(s.outcome(), GameOutcome::Won);
    let err = s.submit_guess("SPEED", &allowed).expect_err("finished game must refuse");
    assert_eq!(err, GuessError::SessionOver);
    assert_eq!(s.remaining_attempts(), 5);
    assert_eq!(s.guesses().len(), 1);
}

#[test]
fn keyboard_tracks_session_guesses() {
    let allowed = dict(&["ERASE", "SPEED"]);
    let mut s = Session::new(String::from("ERASE"), 6);
    s.submit_guess("SPEED", &allowed).expect("guess should be accepted");
    let kb = s.keyboard();
    assert_eq!(kb.status_of('S'), LetterState::Present);
    assert_eq!(kb.status_of('P'), LetterState::Absent);
    assert_eq!(kb.status_of('E'), LetterState::Present);
    assert_eq!(kb.status_of('D'), LetterState::Absent);
    assert_eq!(kb.status_of('Z'), LetterState::Unknown);
    s.submit_guess("ERASE", &allowed).expect("guess should be accepted");
    let kb = s.keyboard();
    assert_eq!(kb.status_of('E'), LetterState::Correct);
    assert_eq!(kb.status_of('S'), LetterState::Correct);
    assert_eq!(kb.status_of('P'), LetterState::Absent);
}

#[test]
fn error_messages_name_the_reason() {
    assert_eq!(GuessError::WrongLength.message(), "guess is not 5 letters long");
    assert_eq!(GuessError::NotInDictionary.message(), "guess is not a word");
    assert_eq!(GuessError::SessionOver.message(), "the game is already over");
}

#[test]
fn choose_word_draws_a_pool_member() {
    let pool = dict(&["ERASE"]);
    assert_eq!(choose_word(&pool), "ERASE");
    let pool = dict(&["ERASE", "SPEED", "MONTH", "CRANE"]);
    for _ in 0..20 {
        let drawn = choose_word(&pool);
        assert!(pool.contains(&drawn), "drawn word {drawn} must come from the pool");
    }
}

#[test]
fn start_draws_secret_from_pool() {
    let pool = dict(&["ERASE", "SPEED"]);
    let s = Session::start(&pool);
    assert_eq!(s.outcome(), GameOutcome::InProgress);
    assert_eq!(s.remaining_attempts(), 6);
    assert_eq!(s.guesses().len(), 0);
}
