//! How a span of a line's text is drawn, as the far end styled it.

use vstd::prelude::*;

use crate::text::chars_of;

verus! {

#[derive(Debug, Clone, Copy, PartialEq, Eq, Structural)]
pub enum Colour {
    /// One of the sixteen palette colours, 0 to 15.
    Named { index: u8 },
    /// An entry of the 256-colour table from 16 to 255.
    Indexed { index: u8 },
    Rgb { r: u8, g: u8, b: u8 },
}

/// A `None` colour is the terminal's own default.
#[derive(Debug, Clone, Copy, PartialEq, Eq, Structural)]
pub struct Style {
    pub fg: Option<Colour>,
    pub bg: Option<Colour>,
    pub bold: bool,
    pub dim: bool,
    pub italic: bool,
    pub underline: bool,
    pub inverse: bool,
    pub strike: bool,
}

impl Default for Style {
    fn default() -> (r: Self)
        ensures
            r == (Style {
                fg: None,
                bg: None,
                bold: false,
                dim: false,
                italic: false,
                underline: false,
                inverse: false,
                strike: false,
            }),
    {
        Style {
            fg: None,
            bg: None,
            bold: false,
            dim: false,
            italic: false,
            underline: false,
            inverse: false,
            strike: false,
        }
    }
}

/// `start` and `len` count UTF-16 code units of the line's text.
#[derive(Debug, Clone, Copy, PartialEq, Eq, Structural)]
pub struct StyleRun {
    pub start: u32,
    pub len: u32,
    pub style: Style,
}

pub open spec fn run_end(run: StyleRun) -> int {
    run.start + run.len
}

pub open spec fn fits(run: StyleRun) -> bool {
    run_end(run) <= u32::MAX
}

impl StyleRun {
    pub fn end(&self) -> (r: u32)
        requires
            fits(*self),
        ensures
            r == run_end(*self),
    {
        self.start + self.len
    }
}

pub open spec fn max(a: int, b: int) -> int {
    if a < b { b } else { a }
}

pub open spec fn min(a: int, b: int) -> int {
    if a < b { a } else { b }
}

/// The part of one run inside `from..to`, counted from `from`.
pub open spec fn run_slice(run: StyleRun, from: u32, to: u32) -> Option<StyleRun> {
    let start = max(run.start as int, from as int);
    let end = min(run_end(run), to as int);
    if start < end {
        Some(StyleRun { start: (start - from) as u32, len: (end - start) as u32, style: run.style })
    } else {
        None
    }
}

pub open spec fn sliced(runs: Seq<StyleRun>, from: u32, to: u32) -> Seq<StyleRun>
    decreases runs.len(),
{
    if runs.len() == 0 {
        seq![]
    } else {
        let before = sliced(runs.drop_last(), from, to);
        match run_slice(runs.last(), from, to) {
            Some(piece) => before.push(piece),
            None => before,
        }
    }
}

/// The runs over `from..to` of a line, counted from `from`.
pub fn slice_runs(runs: &[StyleRun], from: u32, to: u32) -> (r: Vec<StyleRun>)
    requires
        forall|i: int| 0 <= i < runs@.len() ==> fits(#[trigger] runs@[i]),
    ensures
        r@ == sliced(runs@, from, to),
{
    let mut out: Vec<StyleRun> = Vec::new();
    let mut i: usize = 0;
    while i < runs.len()
        invariant
            i <= runs@.len(),
            forall|k: int| 0 <= k < runs@.len() ==> fits(#[trigger] runs@[k]),
            out@ == sliced(runs@.take(i as int), from, to),
        decreases runs.len() - i,
    {
        let run = runs[i];
        let start = if run.start < from { from } else { run.start };
        let e = run.end();
        let end = if e < to { e } else { to };
        if start < end {
            out.push(StyleRun { start: start - from, len: end - start, style: run.style });
        }
        assert(runs@.take(i + 1).drop_last() =~= runs@.take(i as int));
        i += 1;
    }
    assert(runs@.take(runs@.len() as int) =~= runs@);
    out
}

/// Whether one of `runs` covers code unit `p` with `style`.
pub open spec fn covers(runs: Seq<StyleRun>, p: int, style: Style) -> bool {
    exists|i: int| 0 <= i < runs.len() && (#[trigger] runs[i]).start <= p < run_end(runs[i]) && runs[i].style == style
}

proof fn lemma_covers_push(runs: Seq<StyleRun>, run: StyleRun, p: int, style: Style)
    ensures
        covers(runs.push(run), p, style) == (covers(runs, p, style) || (run.start <= p < run_end(run)
            && run.style == style)),
{
    if covers(runs, p, style) {
        let i = choose|i: int| 0 <= i < runs.len() && (#[trigger] runs[i]).start <= p < run_end(runs[i]) && runs[i].style == style;
        assert(runs.push(run)[i] == runs[i]);
    }
    if run.start <= p < run_end(run) && run.style == style {
        assert(runs.push(run)[runs.len() as int] == run);
    }
    if covers(runs.push(run), p, style) {
        let i = choose|i: int|
            0 <= i < runs.push(run).len() && (#[trigger] runs.push(run)[i]).start <= p < run_end(runs.push(run)[i])
                && runs.push(run)[i].style == style;
        if i < runs.len() {
            assert(runs.push(run)[i] == runs[i]);
        }
    }
}

/// The runs over `from..to` lie inside that span, and cover, counted from `from`, exactly
/// the code units the line's runs cover there, each in the style it had.
pub proof fn lemma_sliced_runs_cover_the_span(runs: Seq<StyleRun>, from: u32, to: u32, p: int, style: Style)
    requires
        0 <= p,
    ensures
        forall|k: int|
            0 <= k < sliced(runs, from, to).len() ==> run_end(#[trigger] sliced(runs, from, to)[k]) <= to - from,
        covers(sliced(runs, from, to), p, style) == (p + from < to && covers(runs, p + from, style)),
    decreases runs.len(),
{
    if runs.len() > 0 {
        let init = runs.drop_last();
        let last = runs.last();
        lemma_sliced_runs_cover_the_span(init, from, to, p, style);
        assert(init.push(last) =~= runs);
        lemma_covers_push(init, last, p + from, style);
        let before = sliced(init, from, to);
        match run_slice(last, from, to) {
            Some(piece) => {
                lemma_covers_push(before, piece, p, style);
                assert forall|k: int| 0 <= k < before.push(piece).len() implies run_end(
                    #[trigger] before.push(piece)[k],
                ) <= to - from by {
                    if k < before.len() {
                        assert(before.push(piece)[k] == before[k]);
                    }
                }
            },
            None => {},
        }
    }
}

/// How many UTF-16 code units a text takes.
pub open spec fn utf16_units(s: Seq<char>) -> nat
    decreases s.len(),
{
    if s.len() == 0 {
        0
    } else {
        utf16_units(s.drop_last()) + if s.last() as u32 >= 0x10000 {
            2nat
        } else {
            1nat
        }
    }
}

pub open spec fn utf16_count(s: Seq<char>) -> u32 {
    if utf16_units(s) > u32::MAX {
        u32::MAX
    } else {
        utf16_units(s) as u32
    }
}

pub proof fn lemma_utf16_units_grow(s: Seq<char>, i: int)
    requires
        0 <= i <= s.len(),
    ensures
        utf16_units(s.take(i)) <= utf16_units(s),
    decreases s.len() - i,
{
    if i < s.len() {
        lemma_utf16_units_grow(s, i + 1);
        assert(s.take(i + 1).drop_last() =~= s.take(i));
    } else {
        assert(s.take(i) =~= s);
    }
}

/// The length of `text` in UTF-16 code units, or `u32::MAX` when it is longer than that.
pub fn utf16_len(text: &str) -> (r: u32)
    ensures
        r == utf16_count(text@),
{
    let v = chars_of(text);
    let mut total: u64 = 0;
    let mut i: usize = 0;
    while i < v.len()
        invariant
            i <= v@.len(),
            v@ == text@,
            total == if utf16_units(v@.take(i as int)) > u32::MAX {
                u32::MAX as nat + 1
            } else {
                utf16_units(v@.take(i as int))
            },
        decreases v.len() - i,
    {
        assert(v@.take(i + 1).drop_last() =~= v@.take(i as int));
        let units: u64 = if v[i] as u32 >= 0x10000 { 2 } else { 1 };
        if total > u32::MAX as u64 {
            proof {
                lemma_utf16_units_grow(v@.take(i + 1), i as int);
                assert(v@.take(i + 1).take(i as int) =~= v@.take(i as int));
            }
        } else {
            total = total + units;
            if total > u32::MAX as u64 {
                total = u32::MAX as u64 + 1;
            }
        }
        i += 1;
    }
    assert(v@.take(v@.len() as int) =~= v@);
    if total > u32::MAX as u64 {
        u32::MAX
    } else {
        total as u32
    }
}

/// One later run added after the runs so far, shifted by `offset`, merged into the last one
/// when it continues it.
pub open spec fn join_one(runs: Seq<StyleRun>, run: StyleRun, offset: int) -> Seq<StyleRun> {
    let start = offset + run.start;
    if runs.len() > 0 && runs.last().style == run.style && run_end(runs.last()) == start {
        runs.update(
            runs.len() - 1,
            StyleRun { len: (runs.last().len + run.len) as u32, ..runs.last() },
        )
    } else {
        runs.push(StyleRun { start: start as u32, ..run })
    }
}

pub open spec fn joined(runs: Seq<StyleRun>, later: Seq<StyleRun>, offset: int) -> Seq<StyleRun>
    decreases later.len(),
{
    if later.len() == 0 {
        runs
    } else {
        join_one(joined(runs, later.drop_last(), offset), later.last(), offset)
    }
}

/// Whether every run of `runs` and every shifted run of `later` ends within `u32`.
pub open spec fn joinable(runs: Seq<StyleRun>, later: Seq<StyleRun>, offset: int) -> bool {
    &&& forall|i: int| 0 <= i < runs.len() ==> fits(#[trigger] runs[i])
    &&& forall|i: int| 0 <= i < later.len() ==> offset + run_end(#[trigger] later[i]) <= u32::MAX
}

pub proof fn lemma_joined_fits(runs: Seq<StyleRun>, later: Seq<StyleRun>, offset: int)
    requires
        joinable(runs, later, offset),
        offset >= 0,
    ensures
        forall|i: int|
            0 <= i < joined(runs, later, offset).len() ==> fits(
                #[trigger] joined(runs, later, offset)[i],
            ),
    decreases later.len(),
{
    if later.len() > 0 {
        assert(joinable(runs, later.drop_last(), offset)) by {
            assert forall|i: int| 0 <= i < later.drop_last().len() implies offset + run_end(
                #[trigger] later.drop_last()[i],
            ) <= u32::MAX by {
                assert(later.drop_last()[i] == later[i]);
            }
        }
        lemma_joined_fits(runs, later.drop_last(), offset);
        assert(offset + run_end(later[later.len() - 1]) <= u32::MAX);
        let prev = joined(runs, later.drop_last(), offset);
        let run = later.last();
        let next = join_one(prev, run, offset);
        assert forall|i: int| 0 <= i < next.len() implies fits(#[trigger] next[i]) by {
            if i < prev.len() - 1 || (i == prev.len() - 1 && !(prev.last().style == run.style
                && run_end(prev.last()) == offset + run.start)) {
                assert(next[i] == prev[i]);
            }
        }
    } else {
        assert forall|i: int| 0 <= i < runs.len() implies fits(#[trigger] runs[i]) by {}
    }
}

/// Adds the runs of text appended after `before`, merging a run that continues the last one.
pub fn join_runs(runs: &mut Vec<StyleRun>, before: &str, later: &[StyleRun])
    requires
        joinable(old(runs)@, later@, utf16_count(before@) as int),
    ensures
        final(runs)@ == joined(old(runs)@, later@, utf16_count(before@) as int),
{
    let offset = utf16_len(before);
    let ghost start_runs = runs@;
    let mut i: usize = 0;
    while i < later.len()
        invariant
            i <= later@.len(),
            offset == utf16_count(before@),
            joinable(start_runs, later@, offset as int),
            runs@ == joined(start_runs, later@.take(i as int), offset as int),
        decreases later.len() - i,
    {
        let run = later[i];
        proof {
            assert(later@.take(i + 1).drop_last() =~= later@.take(i as int));
            assert(joinable(start_runs, later@.take(i as int), offset as int)) by {
                assert forall|k: int| 0 <= k < later@.take(i as int).len() implies offset
                    + run_end(#[trigger] later@.take(i as int)[k]) <= u32::MAX by {
                    assert(later@.take(i as int)[k] == later@[k]);
                }
            }
            lemma_joined_fits(start_runs, later@.take(i as int), offset as int);
            assert(offset + run_end(later@[i as int]) <= u32::MAX);
        }
        let start = offset + run.start;
        let n = runs.len();
        if n > 0 && runs[n - 1].style == run.style && runs[n - 1].end() == start {
            let last = runs[n - 1];
            runs.set(n - 1, StyleRun { len: last.len + run.len, ..last });
        } else {
            runs.push(StyleRun { start, ..run });
        }
        i += 1;
    }
    assert(later@.take(later@.len() as int) =~= later@);
}

} // verus!
