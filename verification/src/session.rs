//! The game session controller: attempt budget, secret selection, win/loss
//! determination, and the bookkeeping done for each accepted guess.

use vstd::prelude::*;
use vstd::pervasive::unreached;
use vstd::string::StrSliceExecFns;
use vstd::string::StringExecFns;

use rand::Rng;

use crate::compare::compare_words;
use crate::compare::verdicts;
use crate::text::chars_of;
use crate::text::spec_upper;
use crate::text::str_eq;
use crate::text::to_upper;
use crate::verdict::fold_word;
use crate::verdict::Keyboard;
use crate::verdict::LetterState;
use crate::words::spec_in_dict;
use crate::words::valid_word;
use crate::words::Word;

verus! {

/// How many guesses a session grants unless configured otherwise.
pub const DEFAULT_ATTEMPTS: u32 = 6;

/// Where a session stands: still accepting guesses, or finished.
#[derive(Clone, Copy, Debug, PartialEq, Eq, Structural)]
pub enum GameOutcome {
    InProgress,
    Won,
    Lost,
}

/// Why a submitted guess was refused.  A refused guess never costs an
/// attempt.
#[derive(Clone, Copy, Debug, PartialEq, Eq, Structural)]
pub enum GuessError {
    /// The input is not exactly five characters.
    WrongLength,
    /// The input is not a member of the accepted-guesses dictionary.
    NotInDictionary,
    /// The session already ended; submitting further guesses is a caller
    /// error.
    SessionOver,
}

impl GuessError {
    /// The human-readable reason shown to the player.
    pub fn message(&self) -> (m: String)
        ensures
            m@ == match *self {
                GuessError::WrongLength => "guess is not 5 letters long"@,
                GuessError::NotInDictionary => "guess is not a word"@,
                GuessError::SessionOver => "the game is already over"@,
            },
    {
        match self {
            GuessError::WrongLength => String::from_str("guess is not 5 letters long"),
            GuessError::NotInDictionary => String::from_str("guess is not a word"),
            GuessError::SessionOver => String::from_str("the game is already over"),
        }
    }
}

/// Relies on `rand::Rng::gen_range` over `0..n`, which rand documents as
/// returning a uniform sample within the given range; the range must not be
/// empty, or the call panics.
#[verifier::external_body]
fn pick_index(n: usize) -> (r: usize)
    requires
        n > 0,
    ensures
        r < n,
{
    rand::thread_rng().gen_range(0..n)
}

/// Draws one word uniformly at random from the pool.
pub fn choose_word(pool: &Vec<String>) -> (r: String)
    requires
        pool@.len() > 0,
    ensures
        exists|i: int| 0 <= i < pool@.len() && r@ == pool@[i]@,
{
    let i = pick_index(pool.len());
    let w = pool[i].clone();
    proof {
        assert(w@ == pool@[i as int]@);
    }
    w
}

/// One game: a secret, the guesses made so far, the attempts that remain,
/// the aggregate keyboard state, and whether the game is over.
pub struct Session {
    secret: String,
    guesses: Vec<Word>,
    attempts_left: u32,
    max_attempts: u32,
    outcome: GameOutcome,
    keyboard: Keyboard,
}

impl Session {
    /// The secret word, as characters.
    pub closed spec fn spec_secret(self) -> Seq<char> {
        self.secret@
    }

    /// The guesses accepted so far, oldest first.
    pub closed spec fn spec_guesses(self) -> Seq<Word> {
        self.guesses@
    }

    /// Guesses still available.
    pub closed spec fn spec_attempts_left(self) -> u32 {
        self.attempts_left
    }

    /// The attempt budget this session started with.
    pub closed spec fn spec_max_attempts(self) -> u32 {
        self.max_attempts
    }

    /// Whether the game is still in progress, won, or lost.
    pub closed spec fn spec_outcome(self) -> GameOutcome {
        self.outcome
    }

    /// The aggregate keyboard slots, one per letter 'A' through 'Z'.
    pub closed spec fn spec_keyboard(self) -> Seq<LetterState> {
        self.keyboard@
    }

    /// The session invariant: the secret is five letters, accepted guesses
    /// and remaining attempts partition the budget, every stored guess
    /// carries the verdicts of the comparator against this secret, only the
    /// latest guess can have hit the secret, and the outcome says exactly
    /// whether it did (`Won`) or the budget ran out first (`Lost`).
    pub open spec fn wf(self) -> bool {
        &&& self.spec_secret().len() == 5
        &&& self.spec_max_attempts() >= 1
        &&& self.spec_attempts_left() <= self.spec_max_attempts()
        &&& self.spec_guesses().len() + self.spec_attempts_left() == self.spec_max_attempts()
        &&& self.spec_keyboard().len() == 26
        &&& forall|i: int|
            0 <= i < self.spec_guesses().len() ==> {
                let w = #[trigger] self.spec_guesses()[i];
                w.text@.len() == 5 && w.state@ == verdicts(w.text@, self.spec_secret())
            }
        &&& forall|i: int|
            0 <= i < self.spec_guesses().len() - 1 ==> (#[trigger] self.spec_guesses()[i]).text@
                != self.spec_secret()
        &&& (self.spec_outcome() == GameOutcome::Won <==> self.spec_guesses().len() > 0
            && self.spec_guesses().last().text@ == self.spec_secret())
        &&& (self.spec_outcome() == GameOutcome::Lost <==> self.spec_attempts_left() == 0 && (
        self.spec_guesses().len() == 0 || self.spec_guesses().last().text@
            != self.spec_secret()))
    }

    /// A fresh session around a chosen secret: the full attempt budget, no
    /// guesses, nothing known on the keyboard.
    pub fn new(secret: String, max_attempts: u32) -> (s: Session)
        requires
            secret@.len() == 5,
            max_attempts >= 1,
        ensures
            s.wf(),
            s.spec_secret() == secret@,
            s.spec_max_attempts() == max_attempts,
            s.spec_attempts_left() == max_attempts,
            s.spec_guesses().len() == 0,
            s.spec_outcome() == GameOutcome::InProgress,
            forall|j: int| 0 <= j < 26 ==> s.spec_keyboard()[j] == LetterState::Unknown,
    {
        Session {
            secret,
            guesses: Vec::new(),
            attempts_left: max_attempts,
            max_attempts,
            outcome: GameOutcome::InProgress,
            keyboard: Keyboard::new(),
        }
    }

    /// Starts a game with the default attempt budget: draws a secret
    /// uniformly at random from the answer pool and resets everything.
    pub fn start(pool: &Vec<String>) -> (s: Session)
        requires
            pool@.len() > 0,
            forall|i: int| 0 <= i < pool@.len() ==> (#[trigger] pool@[i])@.len() == 5,
        ensures
            s.wf(),
            exists|i: int| 0 <= i < pool@.len() && s.spec_secret() == pool@[i]@,
            s.spec_max_attempts() == DEFAULT_ATTEMPTS,
            s.spec_attempts_left() == DEFAULT_ATTEMPTS,
            s.spec_guesses().len() == 0,
            s.spec_outcome() == GameOutcome::InProgress,
            forall|j: int| 0 <= j < 26 ==> s.spec_keyboard()[j] == LetterState::Unknown,
    {
        let secret = choose_word(pool);
        Session::new(secret, DEFAULT_ATTEMPTS)
    }

    /// Submits one guess.
    ///
    /// A guess of the wrong length, or one the dictionary does not know, is
    /// refused without costing an attempt, and a finished session refuses
    /// everything.  An accepted guess is upper-cased, scored against the
    /// secret, appended to the history, folded into the keyboard, and costs
    /// one attempt; the session becomes `Won` exactly when the guess equals
    /// the secret and `Lost` exactly when the last attempt is spent on a
    /// miss.
    pub fn submit_guess(&mut self, raw: &str, allowed: &Vec<String>) -> (r: Result<
        (),
        GuessError,
    >)
        requires
            old(self).wf(),
        ensures
            final(self).wf(),
            final(self).spec_secret() == old(self).spec_secret(),
            final(self).spec_max_attempts() == old(self).spec_max_attempts(),
            match r {
                Err(e) => *final(self) == *old(self) && match e {
                    GuessError::SessionOver => old(self).spec_outcome() != GameOutcome::InProgress,
                    GuessError::WrongLength => old(self).spec_outcome() == GameOutcome::InProgress
                        && raw@.len() != 5,
                    GuessError::NotInDictionary => old(self).spec_outcome()
                        == GameOutcome::InProgress && raw@.len() == 5 && !spec_in_dict(
                        allowed@,
                        spec_upper(raw@),
                    ),
                },
                Ok(accepted) => {
                    let up = spec_upper(raw@);
                    &&& old(self).spec_outcome() == GameOutcome::InProgress
                    &&& raw@.len() == 5
                    &&& spec_in_dict(allowed@, up)
                    &&& final(self).spec_attempts_left() == old(self).spec_attempts_left() - 1
                    &&& final(self).spec_guesses().len() == old(self).spec_guesses().len() + 1
                    &&& forall|i: int|
                        0 <= i < old(self).spec_guesses().len() ==> final(self).spec_guesses()[i]
                            == old(self).spec_guesses()[i]
                    &&& final(self).spec_guesses().last().text@ == up
                    &&& final(self).spec_guesses().last().state@ == verdicts(
                        up,
                        old(self).spec_secret(),
                    )
                    &&& final(self).spec_keyboard() == fold_word(
                        old(self).spec_keyboard(),
                        up,
                        verdicts(up, old(self).spec_secret()),
                    )
                    &&& final(self).spec_outcome() == (if up == old(self).spec_secret() {
                        GameOutcome::Won
                    } else if old(self).spec_attempts_left() == 1 {
                        GameOutcome::Lost
                    } else {
                        GameOutcome::InProgress
                    })
                },
            },
    {
        if self.outcome != GameOutcome::InProgress {
            return Err(GuessError::SessionOver);
        }
        if raw.unicode_len() != 5 {
            return Err(GuessError::WrongLength);
        }
        let up = to_upper(raw);
        if !valid_word(allowed, up.as_str()) {
            return Err(GuessError::NotInDictionary);
        }
        let state = match compare_words(up.as_str(), self.secret.as_str()) {
            Ok(state) => state,
            Err(_) => unreached(),
        };
        let won = str_eq(up.as_str(), self.secret.as_str());
        let chars = chars_of(up.as_str());
        self.keyboard.record_word(&chars, &state);
        self.guesses.push(Word { text: up, state });
        self.attempts_left = self.attempts_left - 1;
        if won {
            self.outcome = GameOutcome::Won;
        } else if self.attempts_left == 0 {
            self.outcome = GameOutcome::Lost;
        }
        Ok(())
    }

    /// The guesses accepted so far, oldest first, for rendering.
    pub fn guesses(&self) -> (g: &Vec<Word>)
        ensures
            g@ == self.spec_guesses(),
    {
        &self.guesses
    }

    /// How many attempts remain.
    pub fn remaining_attempts(&self) -> (n: u32)
        ensures
            n == self.spec_attempts_left(),
    {
        self.attempts_left
    }

    /// Whether the game is still in progress, won, or lost.
    pub fn outcome(&self) -> (o: GameOutcome)
        ensures
            o == self.spec_outcome(),
    {
        self.outcome
    }

    /// The aggregate keyboard state, for rendering hints.
    pub fn keyboard(&self) -> (kb: &Keyboard)
        ensures
            kb@ == self.spec_keyboard(),
            self.wf() ==> kb.wf(),
    {
        &self.keyboard
    }

    /// The secret, revealed only once the game is over (for showing the
    /// answer on a loss).
    pub fn reveal_secret(&self) -> (s: &String)
        requires
            self.spec_outcome() != GameOutcome::InProgress,
        ensures
            s@ == self.spec_secret(),
    {
        &self.secret
    }
}

/// A well-formed session is `Won` exactly when one of its guesses equals the
/// secret, and `Lost` exactly when its attempts are exhausted and no guess
/// equals the secret.
pub proof fn lemma_outcome_characterization(s: Session)
    requires
        s.wf(),
    ensures
        s.spec_outcome() == GameOutcome::Won <==> exists|i: int|
            0 <= i < s.spec_guesses().len() && (#[trigger] s.spec_guesses()[i]).text@
                == s.spec_secret(),
        s.spec_outcome() == GameOutcome::Lost <==> s.spec_attempts_left() == 0 && forall|i: int|
            0 <= i < s.spec_guesses().len() ==> (#[trigger] s.spec_guesses()[i]).text@
                != s.spec_secret(),
{
    let n = s.spec_guesses().len() as int;
    if s.spec_outcome() == GameOutcome::Won {
        assert(s.spec_guesses()[n - 1].text@ == s.spec_secret());
    }
    if exists|i: int|
        0 <= i < n && (#[trigger] s.spec_guesses()[i]).text@ == s.spec_secret() {
        let i = choose|i: int|
            0 <= i < n && (#[trigger] s.spec_guesses()[i]).text@ == s.spec_secret();
        assert(i == n - 1);
    }
}

} // verus!
