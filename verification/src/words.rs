//! Guessed words, dictionary lookup, and the keyboard layout handed to the
//! renderer.

use vstd::prelude::*;
use vstd::pervasive::unreached;
use vstd::string::StrSliceExecFns;
use vstd::string::StringExecFns;

use crate::compare::compare_words;
use crate::compare::verdicts;
use crate::text::chars_of;
use crate::text::spec_upper;
use crate::text::str_eq;
use crate::text::to_upper;
use crate::verdict::Keyboard;
use crate::verdict::LetterState;

verus! {

/// A submitted word together with the verdict computed for each of its
/// letters.
#[derive(Clone, Debug)]
pub struct Word {
    pub text: String,
    pub state: Vec<LetterState>,
}

impl Word {
    /// One verdict per letter.
    pub open spec fn wf(self) -> bool {
        self.text@.len() == self.state@.len()
    }

    /// An empty slot of the guess grid: blanks, nothing known yet.
    pub fn new(size: usize) -> (w: Word)
        ensures
            w.text@ == Seq::new(size as nat, |i: int| ' '),
            w.state@ == Seq::new(size as nat, |i: int| LetterState::Unknown),
            w.wf(),
    {
        let mut text = String::new();
        let mut state: Vec<LetterState> = Vec::new();
        let mut i: usize = 0;
        while i < size
            invariant
                i <= size,
                text@.len() == i as int,
                state@.len() == i as int,
                forall|j: int| 0 <= j < i ==> text@[j] == ' ',
                forall|j: int| 0 <= j < i ==> state@[j] == LetterState::Unknown,
            decreases size - i,
        {
            crate::text::push_char(&mut text, ' ');
            state.push(LetterState::Unknown);
            i += 1;
        }
        proof {
            assert(text@ =~= Seq::new(size as nat, |j: int| ' '));
            assert(state@ =~= Seq::new(size as nat, |j: int| LetterState::Unknown));
        }
        Word { text, state }
    }
}

/// Whether the characters `w` spell a word of the dictionary `dict`.
pub open spec fn spec_in_dict(dict: Seq<String>, w: Seq<char>) -> bool {
    exists|i: int| 0 <= i < dict.len() && dict[i]@ == w
}

/// Whether `word` is a member of the accepted-guesses dictionary.
pub fn valid_word(allowed: &Vec<String>, word: &str) -> (r: bool)
    ensures
        r == spec_in_dict(allowed@, word@),
{
    let mut i: usize = 0;
    while i < allowed.len()
        invariant
            i <= allowed@.len(),
            forall|j: int| 0 <= j < i ==> allowed@[j]@ != word@,
        decreases allowed@.len() - i,
    {
        if str_eq(allowed[i].as_str(), word) {
            proof {
                assert(spec_in_dict(allowed@, word@));
            }
            return true;
        }
        i += 1;
    }
    false
}

/// Turns a submitted line into a scored `Word`: the line must be exactly
/// five characters and, upper-cased, a member of the accepted dictionary;
/// it is then scored against the secret `word`.  The two rejections carry
/// distinct human-readable reasons.
pub fn read_word(line: &str, allowed: &Vec<String>, word: &str) -> (r: Result<Word, String>)
    requires
        word@.len() == 5,
    ensures
        match r {
            Ok(w) => {
                &&& line@.len() == 5
                &&& spec_in_dict(allowed@, spec_upper(line@))
                &&& w.text@ == spec_upper(line@)
                &&& w.state@ == verdicts(spec_upper(line@), word@)
            },
            Err(m) => {
                ||| (line@.len() != 5 && m@ == "'"@ + line@ + "' is not 5 letters long."@)
                ||| (line@.len() == 5 && !spec_in_dict(allowed@, spec_upper(line@)) && m@ == "'"@
                    + spec_upper(line@) + "' is not a word."@)
            },
        },
{
    if line.unicode_len() != 5 {
        let mut msg = String::from_str("'");
        msg.append(line);
        msg.append("' is not 5 letters long.");
        return Err(msg);
    }
    let up = to_upper(line);
    if !valid_word(allowed, up.as_str()) {
        let mut msg = String::from_str("'");
        msg.append(up.as_str());
        msg.append("' is not a word.");
        return Err(msg);
    }
    let state = match compare_words(up.as_str(), word) {
        Ok(state) => state,
        Err(_) => unreached(),
    };
    Ok(Word { text: up, state })
}

/// One keyboard row, colored from the tracked keyboard state.
fn row_word(kb: &Keyboard, text: &str) -> (w: Word)
    requires
        kb.wf(),
    ensures
        w.text@ == text@,
        w.state@.len() == text@.len(),
        forall|j: int| 0 <= j < text@.len() ==> w.state@[j] == kb.spec_status(text@[j]),
{
    let chars = chars_of(text);
    let mut state: Vec<LetterState> = Vec::new();
    let mut i: usize = 0;
    while i < chars.len()
        invariant
            kb.wf(),
            chars@ == text@,
            i <= chars@.len(),
            state@.len() == i as int,
            forall|j: int| 0 <= j < i ==> state@[j] == kb.spec_status(text@[j]),
        decreases chars@.len() - i,
    {
        state.push(kb.status_of(chars[i]));
        i += 1;
    }
    Word { text: String::from_str(text), state }
}

/// Lays the tracked keyboard out as the three QWERTY rows, each letter
/// carrying its aggregate verdict, ready for the renderer.
pub fn print_keyboard(kb: &Keyboard) -> (rows: Vec<Word>)
    requires
        kb.wf(),
    ensures
        rows@.len() == 3,
        rows@[0].text@ == "QWERTYUIOP"@,
        rows@[1].text@ == "ASDFGHJKL"@,
        rows@[2].text@ == "ZXCVBNM"@,
        forall|r: int| 0 <= r < 3 ==> (#[trigger] rows@[r]).state@.len() == rows@[r].text@.len(),
        forall|r: int, j: int|
            0 <= r < 3 && 0 <= j < rows@[r].text@.len() ==> (#[trigger] rows@[r].state@[j])
                == kb.spec_status(rows@[r].text@[j]),
{
    let mut rows: Vec<Word> = Vec::new();
    rows.push(row_word(kb, "QWERTYUIOP"));
    rows.push(row_word(kb, "ASDFGHJKL"));
    rows.push(row_word(kb, "ZXCVBNM"));
    rows
}

} // verus!
