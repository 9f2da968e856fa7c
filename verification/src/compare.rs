//! Scoring a guess against the secret word.
//!
//! The comparator is a pure function from (guess, secret) to one verdict per
//! position.  It runs in two passes so that duplicate letters are scored
//! correctly: exact matches are claimed first, and only the copies of a
//! letter that no exact match claimed are available to be scored `Present`.

use vstd::prelude::*;
use vstd::string::StrSliceExecFns;
use vstd::string::StringExecFns;

use crate::text::chars_of;
use crate::verdict::LetterState;

verus! {

/// Occurrences of `c` among the first `i` characters of `s`.
pub open spec fn count_upto(s: Seq<char>, c: char, i: int) -> int
    decreases i,
{
    if i <= 0 {
        0
    } else {
        count_upto(s, c, i - 1) + if s[i - 1] == c {
            1int
        } else {
            0int
        }
    }
}

/// Occurrences of `c` in all of `s`.
pub open spec fn count_of(s: Seq<char>, c: char) -> int {
    count_upto(s, c, s.len() as int)
}

/// Positions among the first `i` where the guess matches the secret exactly
/// and that common letter is `c`.
pub open spec fn correct_upto(guess: Seq<char>, secret: Seq<char>, c: char, i: int) -> int
    decreases i,
{
    if i <= 0 {
        0
    } else {
        correct_upto(guess, secret, c, i - 1) + if guess[i - 1] == secret[i - 1] && guess[i - 1]
            == c {
            1int
        } else {
            0int
        }
    }
}

/// Exact matches of the letter `c` over the whole words.
pub open spec fn correct_count(guess: Seq<char>, secret: Seq<char>, c: char) -> int {
    correct_upto(guess, secret, c, guess.len() as int)
}

/// `Present` verdicts already handed to the letter `c` at positions before `i`.
pub open spec fn presents_before(guess: Seq<char>, secret: Seq<char>, c: char, i: int) -> int
    decreases i, 0int,
{
    if i <= 0 {
        0
    } else {
        presents_before(guess, secret, c, i - 1) + if guess[i - 1] == c && is_present_at(
            guess,
            secret,
            i - 1,
        ) {
            1int
        } else {
            0int
        }
    }
}

/// Copies of the letter `c` in the secret still unclaimed when the second
/// pass reaches position `i`: its occurrences, minus those reserved by exact
/// matches anywhere, minus those handed out as `Present` earlier.
pub open spec fn available(guess: Seq<char>, secret: Seq<char>, c: char, i: int) -> int
    decreases i, 1int,
{
    count_of(secret, c) - correct_count(guess, secret, c) - presents_before(guess, secret, c, i)
}

/// Whether the second pass marks position `i` as `Present`: it is not an
/// exact match, and a copy of its letter is still unclaimed.
pub open spec fn is_present_at(guess: Seq<char>, secret: Seq<char>, i: int) -> bool
    decreases i, 2int,
{
    guess[i] != secret[i] && available(guess, secret, guess[i], i) > 0
}

/// The verdict of position `i`.
pub open spec fn verdict_at(guess: Seq<char>, secret: Seq<char>, i: int) -> LetterState {
    if guess[i] == secret[i] {
        LetterState::Correct
    } else if is_present_at(guess, secret, i) {
        LetterState::Present
    } else {
        LetterState::Absent
    }
}

/// The full verdict sequence for a guess: one verdict per guessed letter.
pub open spec fn verdicts(guess: Seq<char>, secret: Seq<char>) -> Seq<LetterState> {
    Seq::new(guess.len(), |i: int| verdict_at(guess, secret, i))
}

/// Positions among the first `i` whose letter is `c` and whose verdict is
/// `Correct` or `Present`.
pub open spec fn scored_upto(guess: Seq<char>, secret: Seq<char>, c: char, i: int) -> int
    decreases i,
{
    if i <= 0 {
        0
    } else {
        scored_upto(guess, secret, c, i - 1) + if guess[i - 1] == c && (verdict_at(
            guess,
            secret,
            i - 1,
        ) == LetterState::Correct || verdict_at(guess, secret, i - 1) == LetterState::Present) {
            1int
        } else {
            0int
        }
    }
}

/// Positions whose letter is `c` and whose verdict is `Correct` or `Present`,
/// over the whole guess.
pub open spec fn scored_count(guess: Seq<char>, secret: Seq<char>, c: char) -> int {
    scored_upto(guess, secret, c, guess.len() as int)
}

pub proof fn lemma_correct_le_count(guess: Seq<char>, secret: Seq<char>, c: char, i: int)
    ensures
        0 <= correct_upto(guess, secret, c, i) <= count_upto(secret, c, i),
    decreases i,
{
    if i > 0 {
        lemma_correct_le_count(guess, secret, c, i - 1);
    }
}

pub proof fn lemma_presents_before_bound(guess: Seq<char>, secret: Seq<char>, c: char, i: int)
    requires
        correct_count(guess, secret, c) <= count_of(secret, c),
    ensures
        0 <= presents_before(guess, secret, c, i),
        correct_count(guess, secret, c) + presents_before(guess, secret, c, i) <= count_of(
            secret,
            c,
        ),
    decreases i,
{
    if i > 0 {
        lemma_presents_before_bound(guess, secret, c, i - 1);
        if guess[i - 1] == c && is_present_at(guess, secret, i - 1) {
            assert(available(guess, secret, c, i - 1) > 0);
        }
    }
}

proof fn lemma_scored_split(guess: Seq<char>, secret: Seq<char>, c: char, i: int)
    ensures
        scored_upto(guess, secret, c, i) == correct_upto(guess, secret, c, i) + presents_before(
            guess,
            secret,
            c,
            i,
        ),
    decreases i,
{
    if i > 0 {
        lemma_scored_split(guess, secret, c, i - 1);
        if guess[i - 1] == secret[i - 1] {
            assert(verdict_at(guess, secret, i - 1) == LetterState::Correct);
            assert(!is_present_at(guess, secret, i - 1));
        } else if is_present_at(guess, secret, i - 1) {
            assert(verdict_at(guess, secret, i - 1) == LetterState::Present);
        } else {
            assert(verdict_at(guess, secret, i - 1) == LetterState::Absent);
        }
    }
}

/// A guess earns `Correct` and `Present` verdicts for a letter at most as
/// often as that letter occurs in the secret, and there is exactly one
/// verdict per guessed position.
pub proof fn lemma_scored_bounded(guess: Seq<char>, secret: Seq<char>, c: char)
    requires
        guess.len() == secret.len(),
    ensures
        verdicts(guess, secret).len() == guess.len(),
        0 <= scored_count(guess, secret, c) <= count_of(secret, c),
{
    let n = guess.len() as int;
    lemma_correct_le_count(guess, secret, c, n);
    lemma_presents_before_bound(guess, secret, c, n);
    lemma_scored_split(guess, secret, c, n);
}

/// Guessing the secret itself scores every position `Correct`.
pub proof fn lemma_exact_guess_all_correct(s: Seq<char>)
    ensures
        verdicts(s, s).len() == s.len(),
        forall|i: int| 0 <= i < s.len() ==> verdicts(s, s)[i] == LetterState::Correct,
{
}

/// How often `c` occurs in `v`.
fn count_char(v: &Vec<char>, c: char) -> (r: usize)
    ensures
        r == count_upto(v@, c, v@.len() as int),
        r <= v@.len(),
{
    let mut r: usize = 0;
    let mut i: usize = 0;
    while i < v.len()
        invariant
            i <= v@.len(),
            r == count_upto(v@, c, i as int),
            r <= i,
        decreases v@.len() - i,
    {
        if v[i] == c {
            r = r + 1;
        }
        i += 1;
    }
    r
}

/// How often the guess matches the secret exactly with the letter `c`.
fn correct_pairs(g: &Vec<char>, s: &Vec<char>, c: char) -> (r: usize)
    requires
        g@.len() == s@.len(),
    ensures
        r == correct_upto(g@, s@, c, g@.len() as int),
        r <= g@.len(),
{
    let mut r: usize = 0;
    let mut i: usize = 0;
    while i < g.len()
        invariant
            g@.len() == s@.len(),
            i <= g@.len(),
            r == correct_upto(g@, s@, c, i as int),
            r <= i,
        decreases g@.len() - i,
    {
        if g[i] == s[i] && g[i] == c {
            r = r + 1;
        }
        i += 1;
    }
    r
}

/// How many `Present` verdicts the letter `c` earned at positions before `i`,
/// read off the verdicts already computed.
fn present_marks(
    states: &Vec<LetterState>,
    g: &Vec<char>,
    secret: Ghost<Seq<char>>,
    c: char,
    i: usize,
) -> (r: usize)
    requires
        i <= states@.len(),
        i <= g@.len(),
        forall|j: int| 0 <= j < i ==> states@[j] == verdict_at(g@, secret@, j),
    ensures
        r == presents_before(g@, secret@, c, i as int),
        r <= i,
{
    let mut r: usize = 0;
    let mut k: usize = 0;
    while k < i
        invariant
            i <= states@.len(),
            i <= g@.len(),
            forall|j: int| 0 <= j < i ==> states@[j] == verdict_at(g@, secret@, j),
            k <= i,
            r == presents_before(g@, secret@, c, k as int),
            r <= k,
        decreases i - k,
    {
        proof {
            if g@[k as int] == secret@[k as int] {
                assert(!is_present_at(g@, secret@, k as int));
            }
        }
        if g[k] == c && states[k] == LetterState::Present {
            r = r + 1;
        }
        k += 1;
    }
    r
}

/// Scores `word` against `to_match`, one verdict per position, using the
/// two-pass rule: exact matches first, then `Present` for letters whose
/// unclaimed count in the secret is still positive, `Absent` otherwise.
///
/// A guess of the wrong length is rejected before any comparison work.
pub fn compare_words(word: &str, to_match: &str) -> (r: Result<Vec<LetterState>, String>)
    requires
        to_match@.len() == 5,
    ensures
        match r {
            Ok(states) => word@.len() == 5 && states@ == verdicts(word@, to_match@),
            Err(m) => word@.len() != 5 && m@ == "'"@ + word@ + "' should be 5 letters long."@,
        },
{
    if word.unicode_len() != 5 {
        let mut msg = String::from_str("'");
        msg.append(word);
        msg.append("' should be 5 letters long.");
        return Err(msg);
    }
    let g = chars_of(word);
    let s = chars_of(to_match);

    // Pass 1: claim the exact matches.
    let mut states: Vec<LetterState> = Vec::new();
    let mut i: usize = 0;
    while i < 5
        invariant
            g@.len() == 5,
            s@.len() == 5,
            i <= 5,
            states@.len() == i as int,
            forall|j: int|
                0 <= j < i ==> states@[j] == (if g@[j] == s@[j] {
                    LetterState::Correct
                } else {
                    LetterState::Unknown
                }),
        decreases 5 - i,
    {
        if g[i] == s[i] {
            states.push(LetterState::Correct);
        } else {
            states.push(LetterState::Unknown);
        }
        i += 1;
    }

    // Pass 2: hand the unclaimed copies of each letter out as `Present`.
    let mut i: usize = 0;
    while i < 5
        invariant
            g@.len() == 5,
            s@.len() == 5,
            i <= 5,
            states@.len() == 5,
            forall|j: int|
                i <= j < 5 ==> states@[j] == (if g@[j] == s@[j] {
                    LetterState::Correct
                } else {
                    LetterState::Unknown
                }),
            forall|j: int| 0 <= j < i ==> states@[j] == verdict_at(g@, s@, j),
        decreases 5 - i,
    {
        if g[i] == s[i] {
            proof {
                assert(states@[i as int] == LetterState::Correct);
            }
        } else {
            let c = g[i];
            let total = count_char(&s, c);
            let corr = correct_pairs(&g, &s, c);
            let pres = present_marks(&states, &g, Ghost(s@), c, i);
            if total > corr + pres {
                proof {
                    assert(available(g@, s@, c, i as int) > 0);
                }
                states.set(i, LetterState::Present);
            } else {
                proof {
                    assert(available(g@, s@, c, i as int) <= 0);
                    assert(!is_present_at(g@, s@, i as int));
                }
                states.set(i, LetterState::Absent);
            }
        }
        i += 1;
    }
    proof {
        assert(states@ =~= verdicts(g@, s@));
    }
    Ok(states)
}

} // verus!
