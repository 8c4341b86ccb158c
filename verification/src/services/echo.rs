//! What a session keeps of the far end's echo while a line it submitted comes back: the
//! prompt it was typed after, the echoed text, and what of a held row came before it.

use vstd::prelude::*;

use crate::entities::LineRevision;
use crate::policies::Region;
use crate::text::{
    chars_of, copied, ends_with, is_blank, push_chars, same_text, starts_with, string_of, trim,
    trim_end, trimmed, trimmed_end,
};

verus! {

/// The text before `suffix` when `text` ends with it.
pub open spec fn without_suffix(text: Seq<char>, suffix: Seq<char>) -> Option<Seq<char>> {
    if ends_with(text, suffix) {
        Some(text.take(text.len() - suffix.len()))
    } else {
        None
    }
}

/// The text after `prefix` when `text` starts with it.
pub open spec fn without_prefix(text: Seq<char>, prefix: Seq<char>) -> Option<Seq<char>> {
    if starts_with(text, prefix) {
        Some(text.skip(prefix.len() as int))
    } else {
        None
    }
}

/// Whether `inner` stands in `text` at `at`.
pub open spec fn found_at(text: Seq<char>, inner: Seq<char>, at: int) -> bool {
    0 <= at && at + inner.len() <= text.len() && text.subrange(at, at + inner.len()) == inner
}

/// Where `inner` last stands in `text`, or `-1`.
pub open spec fn last_found(text: Seq<char>, inner: Seq<char>) -> int {
    if exists|at: int| #[trigger] found_at(text, inner, at) {
        choose|at: int| #[trigger] found_at(text, inner, at) && forall|later: int| at < later ==> !found_at(text, inner, later)
    } else {
        -1
    }
}

/// What of a held row came before the echo of `line`: the held text up to where the echo
/// begins in the row the far end drew, or, with no row, the held text without the line at
/// its end. `None` when something rewrote the row underneath the held text.
pub open spec fn before_echo_text(held: Seq<char>, row: Option<Seq<char>>, line: Seq<char>) -> Option<Seq<char>> {
    let held = trim_end(held);
    match row {
        None => without_suffix(held, line),
        Some(drawn) => {
            let row = trim_end(drawn);
            if row.len() < line.len() {
                None
            } else if last_found(row, held) < 0 {
                None
            } else {
                let echo_at = row.len() - line.len();
                let held_at = last_found(row, held);
                let keep = if echo_at > held_at { echo_at - held_at } else { 0 };
                let keep = if keep < held.len() { keep } else { held.len() as int };
                Some(held.take(keep))
            }
        },
    }
}

fn found_here(text: &Vec<char>, inner: &Vec<char>, at: usize) -> (r: bool)
    requires
        at + inner@.len() <= text@.len(),
    ensures
        r == found_at(text@, inner@, at as int),
{
    let n = text.len();
    let mut k: usize = 0;
    while k < inner.len()
        invariant
            n == text@.len(),
            at + inner@.len() <= text@.len(),
            k <= inner@.len(),
            forall|j: int| 0 <= j < k ==> text@[at + j] == inner@[j],
        decreases inner.len() - k,
    {
        if text[at + k] != inner[k] {
            assert(text@.subrange(at as int, at + inner@.len())[k as int] != inner@[k as int]);
            return false;
        }
        k += 1;
    }
    assert(text@.subrange(at as int, at + inner@.len()) =~= inner@);
    true
}

/// Where `inner` last stands in `text`, or `None`.
fn last_position(text: &Vec<char>, inner: &Vec<char>) -> (r: Option<usize>)
    ensures
        match r {
            Some(at) => at as int == last_found(text@, inner@) && at as int >= 0,
            None => last_found(text@, inner@) == -1,
        },
{
    if inner.len() > text.len() {
        proof {
            assert forall|at: int| !found_at(text@, inner@, at) by {}
        }
        return None;
    }
    let mut next: usize = text.len() - inner.len();
    let mut left = true;
    while left
        invariant
            inner@.len() <= text@.len(),
            next <= text@.len() - inner@.len(),
            forall|later: int| next < later ==> !found_at(text@, inner@, later),
            !left ==> next == 0 && !found_at(text@, inner@, 0),
        decreases next + if left { 1int } else { 0int },
    {
        if found_here(text, inner, next) {
            proof {
                let c = last_found(text@, inner@);
                assert(found_at(text@, inner@, next as int));
                assert(c == next) by {
                    if c < next {
                        assert(!found_at(text@, inner@, next as int));
                    } else if c > next {
                        assert(!found_at(text@, inner@, c));
                    }
                }
            }
            return Some(next);
        }
        if next == 0 {
            left = false;
        } else {
            next -= 1;
        }
    }
    proof {
        assert forall|p: int| !found_at(text@, inner@, p) by {
            if p < 0 {
            }
        }
    }
    None
}

/// What of the held row came before the echo of `line`, as `before_echo_text` says.
pub fn before_echo(held: &str, row: Option<&str>, line: &str) -> (r: Option<String>)
    ensures
        match (r, before_echo_text(held@, match row {
            Some(x) => Some(x@),
            None => None,
        }, line@)) {
            (Some(kept), Some(text)) => kept@ == text,
            (None, None) => true,
            _ => false,
        },
{
    let held = chars_of(trimmed_end(held).as_str());
    let line = chars_of(line);
    match row {
        None => {
            if crate::text::ends_with_chars(held.as_slice(), line.as_slice()) {
                let mut out = String::new();
                push_chars(&mut out, held.as_slice(), 0, held.len() - line.len());
                assert(held@.subrange(0, held@.len() - line@.len()) =~= held@.take(held@.len() - line@.len()));
                Some(out)
            } else {
                None
            }
        },
        Some(drawn) => {
            let row = chars_of(trimmed_end(drawn).as_str());
            if row.len() < line.len() {
                return None;
            }
            let echo_at = row.len() - line.len();
            let held_at = match last_position(&row, &held) {
                Some(at) => at,
                None => {
                    return None;
                },
            };
            let keep = if echo_at > held_at {
                echo_at - held_at
            } else {
                0
            };
            let keep = if keep < held.len() {
                keep
            } else {
                held.len()
            };
            let mut out = String::new();
            push_chars(&mut out, held.as_slice(), 0, keep);
            assert(held@.subrange(0, keep as int) =~= held@.take(keep as int));
            Some(out)
        },
    }
}

/// The far end's echo of a submitted line, watched as the rows of its prompt and command
/// line arrive.
pub struct Echo {
    prompt: String,
    /// `None` once a whole row arrived that does not start with the prompt.
    text: Option<String>,
}

impl Default for Echo {
    fn default() -> (r: Self)
        ensures
            r.prompt_text() == Seq::<char>::empty(),
            r.echoed() is None,
    {
        Echo { prompt: String::new(), text: None }
    }
}

impl Echo {
    pub closed spec fn prompt_text(self) -> Seq<char> {
        self.prompt@
    }

    pub closed spec fn echoed(self) -> Option<Seq<char>> {
        match self.text {
            Some(t) => Some(t@),
            None => None,
        }
    }

    /// One row of the region the boundary tracker put it in.
    pub fn observe(&mut self, region: Region, text: &str, revision: LineRevision)
        ensures
            match region {
                Region::CommandLine => match revision {
                    LineRevision::Appended => {
                        &&& final(self).prompt_text() == old(self).prompt_text()
                        &&& final(self).echoed() == match old(self).echoed() {
                            Some(was) => Some(was + text@),
                            None => None,
                        }
                    },
                    _ => {
                        &&& final(self).prompt_text() == old(self).prompt_text()
                        &&& final(self).echoed() == without_prefix(text@, old(self).prompt_text())
                    },
                },
                Region::Prompt => {
                    &&& final(self).echoed() == Some(Seq::<char>::empty())
                    &&& final(self).prompt_text() == if revision == LineRevision::Appended {
                        old(self).prompt_text() + text@
                    } else {
                        text@
                    }
                },
                _ => {
                    &&& final(self).echoed() == Some(Seq::<char>::empty())
                    &&& final(self).prompt_text() == Seq::<char>::empty()
                },
            },
    {
        match region {
            Region::CommandLine => match revision {
                LineRevision::Appended => {
                    match &mut self.text {
                        Some(echoed) => echoed.append(text),
                        None => {},
                    }
                },
                _ => {
                    let v = chars_of(text);
                    let p = chars_of(self.prompt.as_str());
                    if p.len() <= v.len() && crate::text::same_text(
                        string_of(crate::entities::slice_of(&v, 0, p.len()).as_slice()).as_str(),
                        self.prompt.as_str(),
                    ) {
                        let rest = crate::entities::slice_of(&v, p.len(), v.len());
                        assert(rest@ =~= text@.skip(p@.len() as int));
                        self.text = Some(string_of(rest.as_slice()));
                    } else {
                        self.text = None;
                    }
                },
            },
            Region::Prompt => {
                self.text = Some(String::new());
                match revision {
                    LineRevision::Appended => self.prompt.append(text),
                    _ => {
                        self.prompt = copied(text);
                    },
                }
            },
            _ => {
                self.text = Some(String::new());
                self.prompt = String::new();
            },
        }
    }

    /// The echoed line, trimmed, or `None` when there is none or it is blank; the watch
    /// starts over either way.
    pub fn take(&mut self) -> (r: Option<String>)
        ensures
            match old(self).echoed() {
                Some(t) => if trim(t).len() == 0 {
                    r is None
                } else {
                    r matches Some(s) && s@ == trim(t)
                },
                None => r is None,
            },
            final(self).echoed() == Some(Seq::<char>::empty()),
            final(self).prompt_text() == Seq::<char>::empty(),
    {
        let taken = match &self.text {
            Some(t) => Some(trimmed(t.as_str())),
            None => None,
        };
        self.text = Some(String::new());
        self.prompt = String::new();
        match taken {
            Some(t) => {
                if t.as_str().unicode_len() == 0 {
                    None
                } else {
                    Some(t)
                }
            },
            None => None,
        }
    }
}

/// A line the pump holds back while it might still be the echo of what was submitted.
pub struct Held {
    pub line: crate::entities::LineId,
    pub text: String,
    pub revision: LineRevision,
    pub spoken: bool,
    pub prompt: bool,
}

/// What is owed to the buffer for one line: its text, how it changed, whether it may be
/// read aloud, and whether the shell drew it as its prompt.
pub struct Due {
    pub text: String,
    pub revision: LineRevision,
    pub spoken: bool,
    pub prompt: bool,
}

impl Held {
    pub fn of(line: crate::entities::LineId, due: Due) -> (r: Self)
        ensures
            r.line == line,
            r.text@ == due.text@,
            r.revision == due.revision,
            r.spoken == due.spoken,
            r.prompt == due.prompt,
    {
        Held { line, text: due.text, revision: due.revision, spoken: due.spoken, prompt: due.prompt }
    }

    /// Takes in more of the same line: an append extends the held text, anything else
    /// replaces it; it is spoken if any part of it was, and a prompt if any part of it was.
    pub fn absorb(&mut self, due: Due)
        ensures
            final(self).line == old(self).line,
            final(self).spoken == (old(self).spoken || due.spoken),
            final(self).prompt == (old(self).prompt || due.prompt),
            due.revision == LineRevision::Appended ==> final(self).text@ == old(self).text@ + due.text@
                && final(self).revision == old(self).revision,
            due.revision != LineRevision::Appended ==> final(self).text@ == due.text@
                && final(self).revision == due.revision,
    {
        let spoken = self.spoken || due.spoken;
        let prompt = self.prompt || due.prompt;
        match due.revision {
            LineRevision::Appended => {
                self.text.append(due.text.as_str());
            },
            _ => {
                self.text = due.text;
                self.revision = due.revision;
            },
        }
        self.spoken = spoken;
        self.prompt = prompt;
    }

    pub fn due(self) -> (r: Due)
        ensures
            r.text@ == self.text@,
            r.revision == self.revision,
            r.spoken == self.spoken,
            r.prompt == self.prompt,
    {
        Due { text: self.text, revision: self.revision, spoken: self.spoken, prompt: self.prompt }
    }
}

} // verus!
