//! The per-letter verdict and the rule that merges verdicts into the
//! keyboard hint for a letter.

use vstd::prelude::*;

verus! {

/// What one guessed letter revealed about the secret: it sits in the right
/// position (`Correct`), it occurs elsewhere (`Present`), all its occurrences
/// are already accounted for (`Absent`), or nothing is known yet (`Unknown`).
#[derive(Clone, Copy, Debug, PartialEq, Eq, Structural)]
pub enum LetterState {
    Correct,
    Present,
    Absent,
    Unknown,
}

/// The ordering used by the keyboard merge rule:
/// `Correct` > `Present` > `Absent` > `Unknown`.
pub open spec fn rank(s: LetterState) -> int {
    match s {
        LetterState::Correct => 3,
        LetterState::Present => 2,
        LetterState::Absent => 1,
        LetterState::Unknown => 0,
    }
}

/// The keyboard merge rule, as a mathematical function.
///
/// `Correct` and `Absent` are frozen; `Present` can only be upgraded to
/// `Correct`; `Unknown` adopts whatever arrives.
pub open spec fn spec_merge(current: LetterState, incoming: LetterState) -> LetterState {
    match current {
        LetterState::Unknown => incoming,
        LetterState::Absent => current,
        LetterState::Correct => current,
        LetterState::Present => match incoming {
            LetterState::Correct => incoming,
            _ => current,
        },
    }
}

/// Merges a newly computed verdict into the verdict remembered for a letter.
pub fn merge(current: LetterState, incoming: LetterState) -> (r: LetterState)
    ensures
        r == spec_merge(current, incoming),
{
    match current {
        LetterState::Unknown => incoming,
        LetterState::Absent => current,
        LetterState::Correct => current,
        LetterState::Present => match incoming {
            LetterState::Correct => incoming,
            _ => current,
        },
    }
}

/// One merge step never lowers the remembered verdict.
pub proof fn lemma_merge_upgrades(current: LetterState, incoming: LetterState)
    ensures
        rank(spec_merge(current, incoming)) >= rank(current),
{
}

/// The verdict remembered for a letter after a whole sequence of guesses:
/// the merges applied left to right, starting from `init`.
pub open spec fn merge_all(init: LetterState, incoming: Seq<LetterState>) -> LetterState
    decreases incoming.len(),
{
    if incoming.len() == 0 {
        init
    } else {
        merge_all(spec_merge(init, incoming[0]), incoming.drop_first())
    }
}

/// Merging a whole sequence never lowers the starting verdict.
pub proof fn lemma_merge_all_ge_init(init: LetterState, incoming: Seq<LetterState>)
    ensures
        rank(merge_all(init, incoming)) >= rank(init),
    decreases incoming.len(),
{
    if incoming.len() > 0 {
        lemma_merge_all_ge_init(spec_merge(init, incoming[0]), incoming.drop_first());
    }
}

/// Merging a sequence is merging a prefix, then the rest.
pub proof fn lemma_merge_all_split(init: LetterState, incoming: Seq<LetterState>, i: int)
    requires
        0 <= i <= incoming.len(),
    ensures
        merge_all(init, incoming) == merge_all(
            merge_all(init, incoming.take(i)),
            incoming.skip(i),
        ),
    decreases i,
{
    if i == 0 {
        assert(incoming.take(0) =~= Seq::<LetterState>::empty());
        assert(incoming.skip(0) =~= incoming);
    } else {
        let stepped = spec_merge(init, incoming[0]);
        assert(incoming.take(i)[0] == incoming[0]);
        assert(incoming.take(i).drop_first() =~= incoming.drop_first().take(i - 1));
        assert(incoming.skip(i) =~= incoming.drop_first().skip(i - 1));
        lemma_merge_all_split(stepped, incoming.drop_first(), i - 1);
    }
}

/// The keyboard merge is monotonic: after any sequence of verdicts reaches a
/// letter, its final remembered verdict is never lower — under the ordering
/// `Correct` > `Present` > `Absent` > `Unknown` — than the verdict remembered
/// at any intermediate point.
pub proof fn lemma_merge_all_monotonic(init: LetterState, incoming: Seq<LetterState>, i: int)
    requires
        0 <= i <= incoming.len(),
    ensures
        rank(merge_all(init, incoming)) >= rank(merge_all(init, incoming.take(i))),
{
    lemma_merge_all_split(init, incoming, i);
    lemma_merge_all_ge_init(merge_all(init, incoming.take(i)), incoming.skip(i));
}

/// Whether `c` is an upper-case ASCII letter, the only letters the keyboard
/// tracks.
pub open spec fn is_upper_alpha(c: char) -> bool {
    'A' <= c && c <= 'Z'
}

/// The keyboard slot of an upper-case ASCII letter: 0 for 'A' through 25 for
/// 'Z'.
pub open spec fn letter_index(c: char) -> int {
    c as int - 'A' as int
}

/// The aggregate verdict remembered for each letter of the alphabet across a
/// session's guesses, driving the on-screen keyboard hints.
pub struct Keyboard {
    states: Vec<LetterState>,
}

impl View for Keyboard {
    type V = Seq<LetterState>;

    closed spec fn view(&self) -> Seq<LetterState> {
        self.states@
    }
}

impl Keyboard {
    /// One slot per letter of the alphabet.
    pub open spec fn wf(self) -> bool {
        self@.len() == 26
    }

    /// The verdict remembered for `c`: letters outside 'A'..='Z' are never
    /// tracked and stay `Unknown`.
    pub open spec fn spec_status(self, c: char) -> LetterState {
        if is_upper_alpha(c) {
            self@[letter_index(c)]
        } else {
            LetterState::Unknown
        }
    }

    /// A fresh keyboard: nothing is known of any letter.
    pub fn new() -> (kb: Keyboard)
        ensures
            kb.wf(),
            forall|j: int| 0 <= j < 26 ==> kb@[j] == LetterState::Unknown,
            forall|c: char| kb.spec_status(c) == LetterState::Unknown,
    {
        let mut states: Vec<LetterState> = Vec::new();
        let mut i: usize = 0;
        while i < 26
            invariant
                i <= 26,
                states@.len() == i as int,
                forall|j: int| 0 <= j < i ==> states@[j] == LetterState::Unknown,
            decreases 26 - i,
        {
            states.push(LetterState::Unknown);
            i += 1;
        }
        Keyboard { states }
    }

    /// The current aggregate verdict for a letter; `Unknown` for anything the
    /// keyboard does not track.
    pub fn status_of(&self, c: char) -> (r: LetterState)
        requires
            self.wf(),
        ensures
            r == self.spec_status(c),
    {
        if 'A' <= c && c <= 'Z' {
            let i = (c as u32 - 'A' as u32) as usize;
            self.states[i]
        } else {
            LetterState::Unknown
        }
    }

    /// Folds one freshly computed verdict for the letter `c` into the
    /// keyboard; letters outside the alphabet are ignored.
    pub fn record(&mut self, c: char, incoming: LetterState)
        requires
            old(self).wf(),
        ensures
            final(self).wf(),
            is_upper_alpha(c) ==> final(self)@ == old(self)@.update(
                letter_index(c),
                spec_merge(old(self)@[letter_index(c)], incoming),
            ),
            !is_upper_alpha(c) ==> final(self)@ == old(self)@,
    {
        if 'A' <= c && c <= 'Z' {
            let i = (c as u32 - 'A' as u32) as usize;
            let cur = self.states[i];
            self.states.set(i, merge(cur, incoming));
        }
    }

    /// Folds the verdicts of one whole guess into the keyboard, letter by
    /// letter, left to right.
    pub fn record_word(&mut self, text: &Vec<char>, verdicts: &Vec<LetterState>)
        requires
            old(self).wf(),
            text@.len() == verdicts@.len(),
        ensures
            final(self).wf(),
            final(self)@ == fold_word(old(self)@, text@, verdicts@),
    {
        let ghost kb0 = self@;
        let mut i: usize = 0;
        while i < text.len()
            invariant
                self.wf(),
                kb0.len() == 26,
                text@.len() == verdicts@.len(),
                i <= text@.len(),
                self@ == fold_word_upto(kb0, text@, verdicts@, i as int),
            decreases text@.len() - i,
        {
            proof {
                lemma_fold_word_upto_len(kb0, text@, verdicts@, i as int);
            }
            self.record(text[i], verdicts[i]);
            i += 1;
        }
    }
}

/// The keyboard slots after folding in the verdicts of the first `i` letters
/// of one guess.
pub open spec fn fold_word_upto(
    kb: Seq<LetterState>,
    text: Seq<char>,
    verdicts: Seq<LetterState>,
    i: int,
) -> Seq<LetterState>
    decreases i,
{
    if i <= 0 {
        kb
    } else {
        let prev = fold_word_upto(kb, text, verdicts, i - 1);
        let c = text[i - 1];
        if is_upper_alpha(c) {
            prev.update(letter_index(c), spec_merge(prev[letter_index(c)], verdicts[i - 1]))
        } else {
            prev
        }
    }
}

/// The keyboard slots after folding in one whole guess.
pub open spec fn fold_word(
    kb: Seq<LetterState>,
    text: Seq<char>,
    verdicts: Seq<LetterState>,
) -> Seq<LetterState> {
    fold_word_upto(kb, text, verdicts, text.len() as int)
}

pub proof fn lemma_fold_word_upto_len(
    kb: Seq<LetterState>,
    text: Seq<char>,
    verdicts: Seq<LetterState>,
    i: int,
)
    requires
        kb.len() == 26,
    ensures
        fold_word_upto(kb, text, verdicts, i).len() == 26,
    decreases i,
{
    if i > 0 {
        lemma_fold_word_upto_len(kb, text, verdicts, i - 1);
    }
}

proof fn lemma_fold_word_upto_monotonic(
    kb: Seq<LetterState>,
    text: Seq<char>,
    verdicts: Seq<LetterState>,
    i: int,
    j: int,
)
    requires
        kb.len() == 26,
        0 <= j < 26,
    ensures
        rank(fold_word_upto(kb, text, verdicts, i)[j]) >= rank(kb[j]),
    decreases i,
{
    if i > 0 {
        lemma_fold_word_upto_monotonic(kb, text, verdicts, i - 1, j);
        lemma_fold_word_upto_len(kb, text, verdicts, i - 1);
    }
}

/// Folding a whole guess into the keyboard never lowers any letter's slot:
/// the hint for a letter can only stay or climb from one guess to the next.
pub proof fn lemma_fold_word_monotonic(
    kb: Seq<LetterState>,
    text: Seq<char>,
    verdicts: Seq<LetterState>,
    j: int,
)
    requires
        kb.len() == 26,
        0 <= j < 26,
    ensures
        rank(fold_word(kb, text, verdicts)[j]) >= rank(kb[j]),
{
    lemma_fold_word_upto_monotonic(kb, text, verdicts, text.len() as int, j);
}

} // verus!
