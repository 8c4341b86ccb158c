//! The text a running command has produced but not yet announced.
//!
//! Past the auto-read threshold the verdict cannot change back, since the size only grows,
//! so the text is dropped and only counts are kept; that bounds memory under a gapless flood
//! such as `yes`.

use vstd::prelude::*;

use crate::entities::{PacingConfig, ReadMode};
use crate::policies::{
    TextSize, lemma_split_lines_nonempty, measure, measured_chars, measured_lines, read_mode_of,
    lemma_measure_grows, lemma_too_big_stays_too_big, size_of_text, split_lines, text_lines, verdict,
};
use crate::text::{blank, chars_of, copied, is_blank, push_chars};

verus! {

pub open spec fn count_newlines(s: Seq<char>) -> nat
    decreases s.len(),
{
    if s.len() == 0 {
        0
    } else {
        count_newlines(s.drop_last()) + if s.last() == '\n' {
            1nat
        } else {
            0nat
        }
    }
}

/// What follows the last line feed of `s`, or the whole of it when it has none.
pub open spec fn after_last_newline(s: Seq<char>) -> Seq<char>
    decreases s.len(),
{
    if s.len() == 0 {
        s
    } else if s.last() == '\n' {
        seq![]
    } else {
        after_last_newline(s.drop_last()).push(s.last())
    }
}

pub proof fn lemma_split_lines_len(s: Seq<char>)
    ensures
        split_lines(s).len() == count_newlines(s) + 1,
    decreases s.len(),
{
    if s.len() > 0 {
        lemma_split_lines_len(s.drop_last());
    }
}

/// A span's line count is its line feeds, plus one for a last line that does not end in one.
pub proof fn lemma_measured_lines(s: Seq<char>)
    ensures
        measured_lines(s) == count_newlines(s) + if s.len() > 0 && s.last() != '\n' {
            1nat
        } else {
            0nat
        },
{
    lemma_split_lines_len(s);
}

pub proof fn lemma_count_newlines_concat(a: Seq<char>, b: Seq<char>)
    ensures
        count_newlines(a + b) == count_newlines(a) + count_newlines(b),
    decreases b.len(),
{
    if b.len() == 0 {
        assert(a + b =~= a);
    } else {
        lemma_count_newlines_concat(a, b.drop_last());
        assert((a + b).drop_last() =~= a + b.drop_last());
    }
}

pub proof fn lemma_after_last_newline_concat(a: Seq<char>, b: Seq<char>)
    ensures
        after_last_newline(a + b) == if count_newlines(b) > 0 {
            after_last_newline(b)
        } else {
            after_last_newline(a) + b
        },
    decreases b.len(),
{
    if b.len() == 0 {
        assert(a + b =~= a);
        assert(after_last_newline(a) + b =~= after_last_newline(a));
    } else {
        lemma_after_last_newline_concat(a, b.drop_last());
        assert((a + b).drop_last() =~= a + b.drop_last());
        if b.last() != '\n' && count_newlines(b.drop_last()) == 0 {
            assert(after_last_newline(a) + b.drop_last() + seq![b.last()] =~= after_last_newline(a)
                + b);
            assert((after_last_newline(a) + b.drop_last()).push(b.last()) =~= after_last_newline(
                a,
            ) + b);
        }
    }
}

/// Once the text is dropped the character count is an over-estimate; line counts stay exact.
pub struct UnspokenText {
    /// `None` once dropped; empty is `Some("")`.
    text: Option<String>,
    newlines: usize,
    chars: usize,
    ends_with_newline: bool,
    any: bool,
    /// Kept after the text is dropped; in an unintegrated session this row is the prompt.
    last_line: String,
    /// Everything pushed since the last `take`.
    heard: Ghost<Seq<char>>,
}

impl UnspokenText {
    #[verifier::type_invariant]
    closed spec fn well_formed(self) -> bool {
        &&& self.newlines == count_newlines(self.heard@)
        &&& self.any == (self.heard@.len() > 0)
        &&& self.ends_with_newline == (self.heard@.len() > 0 && self.heard@.last() == '\n')
        &&& self.last_line@ == after_last_newline(self.heard@)
        &&& self.heard@.len() <= usize::MAX
        &&& self.text matches Some(t) ==> t@ == self.heard@ && self.chars == measured_chars(
            self.heard@,
        )
    }

    /// Everything pushed since the last `take`.
    pub closed spec fn heard(self) -> Seq<char> {
        self.heard@
    }

    /// Whether the text itself is still held.
    pub closed spec fn kept(self) -> bool {
        self.text is Some
    }

    pub closed spec fn counted_chars(self) -> nat {
        self.chars as nat
    }

    pub fn new() -> (r: Self)
        ensures
            r.heard() == Seq::<char>::empty(),
            r.kept(),
    {
        UnspokenText {
            text: Some(String::new()),
            newlines: 0,
            chars: 0,
            ends_with_newline: false,
            any: false,
            last_line: String::new(),
            heard: Ghost(Seq::empty()),
        }
    }

    /// Adds a chunk; the text is dropped once the span is too big to ever be read aloud.
    pub fn push(&mut self, chunk: &str, config: &PacingConfig)
        requires
            old(self).heard().len() + chunk@.len() <= usize::MAX,
        ensures
            final(self).heard() == old(self).heard() + chunk@,
            final(self).kept() == (old(self).kept() && (chunk@.len() == 0 || read_mode_of(
                TextSize {
                    lines: measured_lines(old(self).heard() + chunk@) as usize,
                    chars: measured_chars(old(self).heard() + chunk@) as usize,
                },
                *config,
            ) != ReadMode::TooBig)),
            !old(self).kept() && chunk@.len() > 0 ==> final(self).counted_chars() == if old(
                self,
            ).counted_chars() + chunk@.len() > usize::MAX {
                usize::MAX as nat
            } else {
                old(self).counted_chars() + chunk@.len()
            },
    {
        proof {
            use_type_invariant(&*self);
        }
        let c = chars_of(chunk);
        if c.len() == 0 {
            assert(self.heard@ + chunk@ =~= self.heard@);
            return;
        }
        let ghost before = self.heard@;
        let ghost after = before + chunk@;
        let mut count: usize = 0;
        let mut at: usize = 0;
        let mut found = false;
        let mut i: usize = 0;
        while i < c.len()
            invariant
                i <= c@.len(),
                c@ == chunk@,
                count == count_newlines(c@.take(i as int)),
                count <= i,
                found ==> at < i && c@[at as int] == '\n',
                found ==> after_last_newline(c@.take(i as int)) == c@.subrange(at + 1, i as int),
                found == (count > 0),
                !found ==> after_last_newline(c@.take(i as int)) == c@.take(i as int),
            decreases c.len() - i,
        {
            assert(c@.take(i + 1).drop_last() =~= c@.take(i as int));
            if c[i] == '\n' {
                count = count + 1;
                at = i;
                found = true;
                assert(c@.subrange(at + 1, i + 1) =~= seq![]);
            } else {
                if found {
                    assert(c@.subrange(at + 1, i + 1) =~= c@.subrange(at + 1, i as int).push(c@[i as int]));
                }
            }
            i += 1;
        }
        assert(c@.take(c@.len() as int) =~= c@);
        proof {
            lemma_count_newlines_concat(before, chunk@);
            lemma_after_last_newline_concat(before, chunk@);
        }
        proof {
            lemma_count_bounded(before);
            lemma_count_bounded(after);
        }
        let newlines = self.newlines + count;
        let ends_with_newline = c[c.len() - 1] == '\n';
        let last_line = if found {
            let mut rest = String::new();
            push_chars(&mut rest, c.as_slice(), at + 1, c.len());
            rest
        } else {
            crate::text::concat(self.last_line.as_str(), chunk)
        };
        proof {
            assert(after.last() == chunk@.last());
            lemma_measured_lines(after);
            lemma_split_lines_len(after);
            lemma_count_bounded(after);
        }
        let trailing: usize = if ends_with_newline { 0 } else { 1 };
        let (text, chars) = match &self.text {
            Some(kept) => {
                let mut text = kept.clone();
                text.append(chunk);
                let measured = measure(text.as_str());
                let size = TextSize { lines: newlines + trailing, chars: measured.chars };
                if verdict(size, config) == ReadMode::TooBig {
                    (None, measured.chars)
                } else {
                    (Some(text), measured.chars)
                }
            },
            None => (None, self.chars.saturating_add(c.len())),
        };
        *self = UnspokenText {
            text,
            newlines,
            chars,
            ends_with_newline,
            any: true,
            last_line,
            heard: Ghost(after),
        };
    }

    pub fn size(&self) -> (r: TextSize)
        ensures
            r.lines == measured_lines(self.heard()),
            self.kept() ==> r.chars == measured_chars(self.heard()),
            r.chars == self.counted_chars(),
    {
        proof {
            use_type_invariant(self);
            lemma_measured_lines(self.heard@);
        }
        let trailing: usize = if self.any && !self.ends_with_newline { 1 } else { 0 };
        proof {
            lemma_split_lines_len(self.heard@);
            lemma_count_bounded(self.heard@);
        }
        TextSize { lines: self.newlines + trailing, chars: self.chars }
    }

    /// `None` when the span ends at a line ending or the row is only whitespace, as the blank
    /// first row of a two-row prompt is.
    pub fn last_line(&self) -> (r: Option<&str>)
        ensures
            match r {
                Some(row) => row@ == after_last_newline(self.heard()) && !is_blank(row@),
                None => is_blank(after_last_newline(self.heard())),
            },
    {
        proof {
            use_type_invariant(self);
        }
        if blank(self.last_line.as_str()) {
            None
        } else {
            Some(self.last_line.as_str())
        }
    }

    /// Hands the span over and starts again; the text is `None` when it was dropped.
    pub fn take(&mut self) -> (r: (Option<String>, TextSize))
        ensures
            final(self).heard() == Seq::<char>::empty(),
            final(self).kept(),
            r.1.lines == measured_lines(old(self).heard()),
            r.1.chars == old(self).counted_chars(),
            old(self).kept() ==> r.1.chars == measured_chars(old(self).heard()),
            match r.0 {
                Some(text) => old(self).kept() && text@ == old(self).heard(),
                None => !old(self).kept(),
            },
    {
        proof {
            use_type_invariant(&*self);
        }
        let size = self.size();
        let text = self.text.clone();
        *self = UnspokenText::new();
        (text, size)
    }
}

pub proof fn lemma_count_bounded(s: Seq<char>)
    ensures
        count_newlines(s) <= s.len(),
        count_newlines(s) == s.len() ==> (s.len() == 0 || s.last() == '\n'),
    decreases s.len(),
{
    if s.len() > 0 {
        lemma_count_bounded(s.drop_last());
    }
}

impl UnspokenText {
    /// The span as it was pushed, or `None` once it was dropped for being too big to read.
    pub fn text(&self) -> (r: Option<&str>)
        ensures
            match r {
                Some(t) => self.kept() && t@ == self.heard(),
                None => !self.kept(),
            },
    {
        proof {
            use_type_invariant(self);
        }
        match &self.text {
            Some(t) => Some(t.as_str()),
            None => None,
        }
    }
}

impl Default for UnspokenText {
    fn default() -> (r: Self)
        ensures
            r.heard() == Seq::<char>::empty(),
            r.kept(),
    {
        UnspokenText::new()
    }
}


/// The chunks of a span run together, in order.
pub open spec fn run_together(chunks: Seq<Seq<char>>) -> Seq<char>
    decreases chunks.len(),
{
    if chunks.len() == 0 {
        Seq::empty()
    } else {
        run_together(chunks.drop_last()) + chunks.last()
    }
}

/// Whether a span that held `heard`, kept as `kept`, is still kept once `chunks` are pushed
/// to it in turn: each push, as `push` promises, keeps it while what it has heard is not too
/// big to read aloud.
pub open spec fn kept_after(heard: Seq<char>, kept: bool, chunks: Seq<Seq<char>>, config: PacingConfig) -> bool
    decreases chunks.len(),
{
    if chunks.len() == 0 {
        kept
    } else {
        &&& kept_after(heard, kept, chunks.drop_last(), config)
        &&& (chunks.last().len() == 0 || read_mode_of(
            size_of_text(heard + run_together(chunks.drop_last()) + chunks.last()),
            config,
        ) != ReadMode::TooBig)
    }
}

/// A span pushed in chunks from nothing is kept exactly when the whole of it would be read
/// aloud: how it was cut changes nothing, and no text is held once it is too big.
pub proof fn lemma_kept_exactly_while_small(chunks: Seq<Seq<char>>, config: PacingConfig)
    requires
        measured_lines(run_together(chunks)) <= usize::MAX,
        measured_chars(run_together(chunks)) <= usize::MAX,
    ensures
        kept_after(Seq::empty(), true, chunks, config) == (read_mode_of(size_of_text(run_together(chunks)), config)
            != ReadMode::TooBig),
    decreases chunks.len(),
{
    if chunks.len() == 0 {
        assert(text_lines(Seq::<char>::empty()) =~= Seq::<Seq<char>>::empty());
    } else {
        let before = run_together(chunks.drop_last());
        let last = chunks.last();
        lemma_measure_grows(before, last);
        lemma_kept_exactly_while_small(chunks.drop_last(), config);
        assert(Seq::<char>::empty() + before + last =~= before + last);
        if last.len() == 0 {
            assert(before + last =~= before);
        } else if read_mode_of(size_of_text(before), config) == ReadMode::TooBig {
            lemma_too_big_stays_too_big(before, last, config);
        }
    }
}

} // verus!
