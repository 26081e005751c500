//! The confirmation gate placed before any destructive action.
//!
//! The interactive loop is driven from an injectable sequence of input lines:
//! each line is classified as an affirmative answer, a negative answer, or
//! noise that causes one more prompt. Exhausted input counts as a decline, so
//! the loop always ends, with or without an interactive user.

use vstd::prelude::*;
use crate::text::{trimmed, trim_spaces};

verus! {

/// How one input line answers the yes/no prompt: `Some(true)` for yes,
/// `Some(false)` for no, `None` when the prompt must be repeated.
pub open spec fn answer_of(s: Seq<char>) -> Option<bool> {
    let t = trimmed(s);
    if t.len() == 1 && (t[0] == 'y' || t[0] == 'Y') {
        Some(true)
    } else if t.len() == 1 && (t[0] == 'n' || t[0] == 'N') {
        Some(false)
    } else {
        None
    }
}

/// Classifies one line of input: trailing and leading whitespace is ignored
/// and the answer letter may be of either case.
pub fn parse_answer(line: &str) -> (r: Option<bool>)
    ensures
        r == answer_of(line@),
{
    let t = trim_spaces(line);
    if t.unicode_len() == 1 {
        let c = t.get_char(0);
        if c == 'y' || c == 'Y' {
            Some(true)
        } else if c == 'n' || c == 'N' {
            Some(false)
        } else {
            None
        }
    } else {
        None
    }
}

/// The decision for a sequence of answer lines, with the count of prompts:
/// the first decisive line settles it, and running out of lines counts as a
/// decline.
pub open spec fn confirm_spec(lines: Seq<Seq<char>>) -> (bool, nat)
    decreases lines.len(),
{
    if lines.len() == 0 {
        (false, 0)
    } else {
        match answer_of(lines[0]) {
            Some(b) => (b, 1),
            None => {
                let rest = confirm_spec(lines.subrange(1, lines.len() as int));
                (rest.0, (rest.1 + 1) as nat)
            },
        }
    }
}

/// What the confirmation gate decided, and how many prompts it took.
pub struct ConfirmOutcome {
    pub accepted: bool,
    pub prompts: usize,
}

proof fn lemma_confirm_skip(lines: Seq<Seq<char>>, i: int)
    requires
        0 <= i <= lines.len(),
        forall|j: int| 0 <= j < i ==> answer_of(#[trigger] lines[j]) is None,
    ensures
        confirm_spec(lines).0 == confirm_spec(lines.subrange(i, lines.len() as int)).0,
        confirm_spec(lines).1 == i + confirm_spec(lines.subrange(i, lines.len() as int)).1,
    decreases i,
{
    if i == 0 {
        assert(lines.subrange(0, lines.len() as int) =~= lines);
    } else {
        lemma_confirm_skip(lines, i - 1);
        let tail = lines.subrange(i - 1, lines.len() as int);
        assert(answer_of(tail[0]) is None);
        assert(tail.subrange(1, tail.len() as int) =~= lines.subrange(i, lines.len() as int));
    }
}

/// Runs the confirmation gate over a sequence of already-read input lines,
/// one prompt per line examined.
pub fn confirm_from_lines(lines: &Vec<String>) -> (r: ConfirmOutcome)
    ensures
        r.accepted == confirm_spec(lines.deep_view()).0,
        r.prompts == confirm_spec(lines.deep_view()).1,
{
    let ghost all = lines.deep_view();
    let n = lines.len();
    let mut i: usize = 0;
    while i < n
        invariant
            n == lines.len(),
            all == lines.deep_view(),
            i <= n,
            forall|j: int| 0 <= j < i ==> answer_of(#[trigger] all[j]) is None,
        decreases n - i,
    {
        let ans = parse_answer(lines[i].as_str());
        if let Some(b) = ans {
            proof {
                lemma_confirm_skip(all, i as int);
                let tail = all.subrange(i as int, all.len() as int);
                assert(answer_of(tail[0]) == Some(b));
            }
            return ConfirmOutcome { accepted: b, prompts: i + 1 };
        }
        i = i + 1;
    }
    proof {
        lemma_confirm_skip(all, n as int);
        assert(all.subrange(n as int, all.len() as int) =~= Seq::<Seq<char>>::empty());
    }
    ConfirmOutcome { accepted: false, prompts: n }
}

} // verus!
