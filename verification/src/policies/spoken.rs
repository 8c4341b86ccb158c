//! Making a reason that came from the world into something a screen reader can read as a
//! finished thought.

use vstd::prelude::*;

use crate::text::{chars_of, push_char, trim_end, trimmed_end};

verus! {

pub open spec fn is_ending(c: char) -> bool {
    c == '.' || c == '!' || c == '?'
}

/// The reason without its trailing whitespace, with a full stop added unless it already
/// ends in `.`, `!` or `?`.
pub open spec fn ended_text(reason: Seq<char>) -> Seq<char> {
    let t = trim_end(reason);
    if t.len() > 0 && is_ending(t.last()) {
        t
    } else {
        t.push('.')
    }
}

/// Trims trailing whitespace before checking for a final `.`, `!` or `?`: cmd.exe can
/// leave a trailing space, as in `set ACTER_SHELL=x && acter`.
pub fn ended(reason: &str) -> (r: String)
    ensures
        r@ == ended_text(reason@),
{
    let mut trimmed = trimmed_end(reason);
    let chars = chars_of(trimmed.as_str());
    let n = chars.len();
    if n > 0 && (chars[n - 1] == '.' || chars[n - 1] == '!' || chars[n - 1] == '?') {
        trimmed
    } else {
        push_char(&mut trimmed, '.');
        trimmed
    }
}

/// An ended reason is ended already: ending it again changes nothing.
pub proof fn lemma_ending_twice_changes_nothing(reason: Seq<char>)
    ensures
        ended_text(ended_text(reason)) == ended_text(reason),
{
    let e = ended_text(reason);
    crate::text::lemma_trim_end_last(reason);
    assert(e.len() > 0 && is_ending(e.last()));
    assert(!crate::text::is_white(e.last()));
    assert(trim_end(e) == e);
}

} // verus!
