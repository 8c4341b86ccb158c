//! Which row the far end just redrew is the answer to the key Acter sent, and where the
//! caret goes in it.
//!
//! Runs only after a key Acter sent, once the batch settles on the pacing policy's
//! quiescence clock, over the rows the engine says changed.
//!
//! Row count routes nothing: one arrow inside PSReadLine's completion menu changes eleven
//! rows.

use vstd::prelude::*;

use crate::entities::LineId;
use crate::text::{chars_of, copied, is_white, is_whitespace, push_char, push_chars, same_text, trim_end};

verus! {

#[derive(Debug, PartialEq, Eq)]
pub struct RowChange {
    pub line: LineId,
    pub before: String,
    pub after: String,
}

impl Clone for RowChange {
    fn clone(&self) -> (r: Self)
        ensures
            r.line == self.line,
            r.before@ == self.before@,
            r.after@ == self.after@,
    {
        RowChange { line: self.line, before: self.before.clone(), after: self.after.clone() }
    }
}

/// The row the far end draws its command line on, and the column that line starts at.
///
/// `readline` repaints from the column the line starts at, so the engine reports the row
/// as `marlon@splyt:...$ exit` when a listener wants `exit`.
#[derive(Debug, Clone, Copy, PartialEq, Eq, Structural)]
pub struct Anchor {
    /// The row the far end's cursor sat on when it finished drawing its prompt.
    pub line: LineId,
    /// The column it sat at, which is where the command line begins.
    pub column: u16,
}

/// Where the far end's cursor was when the key went out, and where it is now.
///
/// `None` for a far end that is not showing one, as `gh` does for the whole of a selection.
#[derive(Debug, Clone, Copy, PartialEq, Eq, Structural)]
pub struct Caret {
    pub column: u16,
    pub row: u16,
}

/// Everything one settled batch knows: what changed, where the command line starts, and
/// what the cursor did.
#[derive(Debug, Clone)]
pub struct Keystroke<'a> {
    /// The rows whose text differs from what stood on them when the key went out.
    pub changed: &'a [RowChange],
    /// The anchored row, or `None` when the far end has not drawn a command line Acter
    /// could anchor to — which is every widget that took the screen without one.
    pub anchor: Option<Anchor>,
    /// The visible cursor as the key went out, and as the batch settled. Either side is
    /// `None` when the far end was hiding it.
    pub was: Option<Caret>,
    pub now: Option<Caret>,
    /// The text this policy handed over last time; see `padded` for why it can be wider
    /// than the row the extractor read.
    pub held: &'a str,
}

/// Text and a caret, never a sentence: an ARIA text box holds them and the screen reader
/// does the speaking, so this type carries no words Acter invented.
#[derive(Debug, PartialEq, Eq)]
pub enum FarEndAnswer {
    /// The row changed: this is its text, with the caret at this character.
    Row { text: String, caret: usize },
    /// No anchored row changed and this whole row gained content; the caret sits at its
    /// start.
    Detached { text: String },
    /// Nothing was redrawn and the cursor moved along the row it was already on.
    Caret { caret: usize },
    /// Nothing the listener has any business hearing about.
    Nothing,
}

/// A [`FarEndAnswer`] with its text as characters.
pub enum AnswerView {
    Row { text: Seq<char>, caret: nat },
    Detached { text: Seq<char> },
    Caret { caret: nat },
    Nothing,
}

impl View for FarEndAnswer {
    type V = AnswerView;

    open spec fn view(&self) -> AnswerView {
        match self {
            FarEndAnswer::Row { text, caret } => AnswerView::Row { text: text@, caret: *caret as nat },
            FarEndAnswer::Detached { text } => AnswerView::Detached { text: text@ },
            FarEndAnswer::Caret { caret } => AnswerView::Caret { caret: *caret as nat },
            FarEndAnswer::Nothing => AnswerView::Nothing,
        }
    }
}

impl Clone for FarEndAnswer {
    fn clone(&self) -> (r: Self)
        ensures
            r@ == self@,
    {
        match self {
            FarEndAnswer::Row { text, caret } => FarEndAnswer::Row { text: text.clone(), caret: *caret },
            FarEndAnswer::Detached { text } => FarEndAnswer::Detached { text: text.clone() },
            FarEndAnswer::Caret { caret } => FarEndAnswer::Caret { caret: *caret },
            FarEndAnswer::Nothing => FarEndAnswer::Nothing,
        }
    }
}

/// How many characters of `text` are not whitespace.
pub open spec fn weight(text: Seq<char>) -> nat
    decreases text.len(),
{
    if text.len() == 0 {
        0
    } else {
        weight(text.drop_last()) + if is_white(text.last()) { 0nat } else { 1nat }
    }
}

/// Whether the row holds more than whitespace beyond what it held before.
pub open spec fn gains(change: RowChange) -> bool {
    weight(change.after@) > weight(change.before@)
}

/// The first of the first `n` changes that `p` picks, or `-1`.
pub open spec fn first_in(changed: Seq<RowChange>, p: spec_fn(RowChange) -> bool, n: int) -> int
    decreases n,
{
    if n <= 0 {
        -1
    } else {
        let before = first_in(changed, p, n - 1);
        if before >= 0 {
            before
        } else if p(changed[n - 1]) {
            n - 1
        } else {
            -1
        }
    }
}

/// The first change that `p` picks, or `-1`.
pub open spec fn first_where(changed: Seq<RowChange>, p: spec_fn(RowChange) -> bool) -> int {
    first_in(changed, p, changed.len() as int)
}

pub open spec fn on_line(line: LineId) -> spec_fn(RowChange) -> bool {
    |change: RowChange| change.line == line
}

/// The row from `column` on; nothing when the row is shorter than that.
pub open spec fn from_column(row: Seq<char>, column: nat) -> Seq<char> {
    if column <= row.len() {
        row.skip(column as int)
    } else {
        seq![]
    }
}

pub open spec fn past(column: u16, anchor: u16) -> nat {
    if column > anchor {
        (column - anchor) as nat
    } else {
        0
    }
}

/// Placed at the end of the text when the far end shows no cursor.
pub open spec fn caret_in(text: Seq<char>, anchor: u16, now: Option<Caret>) -> nat {
    match now {
        Some(caret) => past(caret.column, anchor),
        None => text.len(),
    }
}

pub open spec fn spaces(n: nat) -> Seq<char> {
    Seq::new(n, |i: int| ' ')
}

/// The text with spaces added up to `caret`, when the caret stands past it.
pub open spec fn padded(text: Seq<char>, caret: nat) -> Seq<char> {
    if caret > text.len() {
        text + spaces((caret - text.len()) as nat)
    } else {
        text
    }
}

/// What the listener hears of a cursor that moved along its row with nothing redrawn.
pub open spec fn caret_moved(anchor: Option<Anchor>, now: Caret, held: Seq<char>) -> AnswerView {
    let column = match anchor {
        Some(a) => a.column,
        None => 0u16,
    };
    let caret = past(now.column, column);
    let row = trim_end(held);
    let text = if caret >= row.len() {
        padded(row, caret)
    } else {
        held
    };
    if text == held {
        AnswerView::Caret { caret }
    } else {
        AnswerView::Row { text, caret }
    }
}

/// The anchored row if it changed, else the first row that gained content, else the caret
/// if it moved along its row, else nothing.
pub open spec fn answer_for(
    changed: Seq<RowChange>,
    anchor: Option<Anchor>,
    was: Option<Caret>,
    now: Option<Caret>,
    held: Seq<char>,
) -> AnswerView {
    if anchor is Some && first_where(changed, on_line(anchor->0.line)) >= 0 {
        let a = anchor->0;
        let change = changed[first_where(changed, on_line(a.line))];
        let text = from_column(change.after@, a.column as nat);
        let caret = caret_in(text, a.column, now);
        AnswerView::Row { text: padded(text, caret), caret }
    } else if first_where(changed, |c: RowChange| gains(c)) >= 0 {
        AnswerView::Detached { text: changed[first_where(changed, |c: RowChange| gains(c))].after@ }
    } else {
        match (was, now) {
            (Some(w), Some(n)) => {
                if w.row == n.row && w.column != n.column {
                    caret_moved(anchor, n, held)
                } else {
                    AnswerView::Nothing
                }
            },
            _ => AnswerView::Nothing,
        }
    }
}

pub open spec fn answers(keystroke: Keystroke) -> AnswerView {
    answer_for(keystroke.changed@, keystroke.anchor, keystroke.was, keystroke.now, keystroke.held@)
}

proof fn lemma_first_in_finds(changed: Seq<RowChange>, p: spec_fn(RowChange) -> bool, n: int, i: int)
    requires
        0 <= i < n <= changed.len(),
        p(changed[i]),
    ensures
        0 <= first_in(changed, p, n) <= i,
        p(changed[first_in(changed, p, n)]),
    decreases n,
{
    if i < n - 1 {
        lemma_first_in_finds(changed, p, n - 1, i);
    } else if first_in(changed, p, n - 1) >= 0 {
        lemma_first_in_picks(changed, p, n - 1);
    }
}

proof fn lemma_first_in_picks(changed: Seq<RowChange>, p: spec_fn(RowChange) -> bool, n: int)
    requires
        n <= changed.len(),
        first_in(changed, p, n) >= 0,
    ensures
        first_in(changed, p, n) < n,
        p(changed[first_in(changed, p, n)]),
    decreases n,
{
    if n > 0 && first_in(changed, p, n - 1) >= 0 {
        lemma_first_in_picks(changed, p, n - 1);
    }
}

/// When the anchored row changed and the far end shows no cursor, the answer is that row's
/// text from the anchor on, with the caret at the end of it.
pub proof fn lemma_caret_ends_the_row_with_no_cursor(keystroke: Keystroke)
    requires
        keystroke.anchor is Some,
        keystroke.now is None,
        exists|i: int| 0 <= i < keystroke.changed@.len() && (#[trigger] keystroke.changed@[i]).line == keystroke.anchor->0.line,
    ensures
        answers(keystroke) matches AnswerView::Row { text, caret } && caret == text.len()
            && exists|i: int| 0 <= i < keystroke.changed@.len()
                && (#[trigger] keystroke.changed@[i]).line == keystroke.anchor->0.line
                && text == from_column(keystroke.changed@[i].after@, keystroke.anchor->0.column as nat),
{
    let changed = keystroke.changed@;
    let a = keystroke.anchor->0;
    let i = choose|i: int| 0 <= i < changed.len() && (#[trigger] changed[i]).line == a.line;
    lemma_first_in_finds(changed, on_line(a.line), changed.len() as int, i);
    let k = first_where(changed, on_line(a.line));
    assert(changed[k].line == a.line);
}

proof fn lemma_first_in_settles(changed: Seq<RowChange>, p: spec_fn(RowChange) -> bool, m: int, n: int)
    requires
        0 <= m <= n,
        first_in(changed, p, m) >= 0,
    ensures
        first_in(changed, p, n) == first_in(changed, p, m),
    decreases n - m,
{
    if n > m {
        lemma_first_in_settles(changed, p, m, n - 1);
    }
}

/// The index of the first change on `line`, or `changed.len()`.
pub(crate) fn find_on_line(changed: &[RowChange], line: LineId) -> (i: usize)
    ensures
        i <= changed@.len(),
        i < changed@.len() ==> i == first_where(changed@, on_line(line)) && changed@[i as int].line == line,
        i == changed@.len() ==> first_where(changed@, on_line(line)) == -1,
{
    let ghost p = on_line(line);
    let mut i: usize = 0;
    while i < changed.len()
        invariant
            i <= changed@.len(),
            p == on_line(line),
            first_in(changed@, p, i as int) == -1,
        decreases changed.len() - i,
    {
        if changed[i].line == line {
            proof {
                lemma_first_in_settles(changed@, p, i + 1, changed@.len() as int);
            }
            return i;
        }
        i += 1;
    }
    i
}

fn weight_of(text: &str) -> (n: usize)
    ensures
        n == weight(text@),
{
    let chars = chars_of(text);
    let mut n: usize = 0;
    let mut i: usize = 0;
    while i < chars.len()
        invariant
            i <= chars@.len(),
            chars@ == text@,
            n == weight(chars@.take(i as int)),
            n <= i,
        decreases chars.len() - i,
    {
        assert(chars@.take(i + 1).drop_last() =~= chars@.take(i as int));
        if !is_whitespace(chars[i]) {
            n += 1;
        }
        i += 1;
    }
    assert(chars@.take(chars@.len() as int) =~= chars@);
    n
}

/// The index of the first change that gained content, or `changed.len()`.
fn find_gained(changed: &[RowChange]) -> (i: usize)
    ensures
        i <= changed@.len(),
        i < changed@.len() ==> i == first_where(changed@, |c: RowChange| gains(c)),
        i == changed@.len() ==> first_where(changed@, |c: RowChange| gains(c)) == -1,
{
    let ghost p = |c: RowChange| gains(c);
    let mut i: usize = 0;
    while i < changed.len()
        invariant
            i <= changed@.len(),
            p == (|c: RowChange| gains(c)),
            first_in(changed@, p, i as int) == -1,
        decreases changed.len() - i,
    {
        if weight_of(changed[i].after.as_str()) > weight_of(changed[i].before.as_str()) {
            proof {
                lemma_first_in_settles(changed@, p, i + 1, changed@.len() as int);
            }
            return i;
        }
        i += 1;
    }
    i
}

pub fn text_from_column(row: &str, column: u16) -> (r: String)
    ensures
        r@ == from_column(row@, column as nat),
{
    let chars = chars_of(row);
    let mut out = String::new();
    if (column as usize) <= chars.len() {
        push_chars(&mut out, chars.as_slice(), column as usize, chars.len());
        assert(chars@.subrange(column as int, chars@.len() as int) =~= chars@.skip(column as int));
    }
    out
}

fn columns_past(column: u16, anchor: u16) -> (n: usize)
    ensures
        n == past(column, anchor),
{
    if column > anchor {
        (column - anchor) as usize
    } else {
        0
    }
}

fn length_of(text: &str) -> (n: usize)
    ensures
        n == text@.len(),
{
    chars_of(text).len()
}

/// The extractor trims the grid's trailing spaces, so a caret past the text is the only
/// evidence they exist; padding restores them and keeps the caret inside the text.
fn pad(text: String, caret: usize) -> (r: String)
    ensures
        r@ == padded(text@, caret as nat),
{
    let length = length_of(text.as_str());
    let mut text = text;
    if caret > length {
        let ghost start = text@;
        let mut added: usize = 0;
        while added < caret - length
            invariant
                length == start.len(),
                caret > length,
                added <= caret - length,
                text@ == start + spaces(added as nat),
            decreases caret - length - added,
        {
            push_char(&mut text, ' ');
            assert(spaces(added as nat).push(' ') =~= spaces((added + 1) as nat));
            added += 1;
        }
    }
    text
}

/// The anchored row if it changed, else the row that gained content, else the caret if it
/// moved along its row, else nothing.
///
/// The first up arrow at a fresh `readline` prompt appends the recalled line rather than
/// rewriting the row, so an appended change counts the same as a rewrite.
///
/// Every row handed over is padded out to the caret; see `padded`.
pub fn far_end_row(keystroke: &Keystroke) -> (r: FarEndAnswer)
    ensures
        r@ == answers(*keystroke),
{
    let changed = keystroke.changed;
    if let Some(anchor) = keystroke.anchor {
        let i = find_on_line(changed, anchor.line);
        if i < changed.len() {
            let text = text_from_column(changed[i].after.as_str(), anchor.column);
            let caret = match keystroke.now {
                Some(now) => columns_past(now.column, anchor.column),
                None => length_of(text.as_str()),
            };
            return FarEndAnswer::Row { text: pad(text, caret), caret };
        }
    }
    let g = find_gained(changed);
    if g < changed.len() {
        return FarEndAnswer::Detached { text: changed[g].after.clone() };
    }
    match (keystroke.was, keystroke.now) {
        (Some(was), Some(now)) => {
            if was.row == now.row && was.column != now.column {
                let column = match keystroke.anchor {
                    Some(anchor) => anchor.column,
                    None => 0,
                };
                let caret = columns_past(now.column, column);
                // Nothing was redrawn, so the row is what the listener already has with
                // this policy's own padding removed, and where the cursor rests is the only
                // evidence of how much is still there. A cursor at or past the row's end
                // re-measures the padding — telling a space typed at the end from one
                // deleted from it; a cursor that landed inside the row says nothing about
                // the whitespace after it, so the line is left exactly as it was.
                let row = crate::text::trimmed_end(keystroke.held);
                let text = if caret >= length_of(row.as_str()) {
                    pad(row, caret)
                } else {
                    copied(keystroke.held)
                };
                if same_text(text.as_str(), keystroke.held) {
                    FarEndAnswer::Caret { caret }
                } else {
                    FarEndAnswer::Row { text, caret }
                }
            } else {
                FarEndAnswer::Nothing
            }
        },
        _ => FarEndAnswer::Nothing,
    }
}

/// Every row handed over holds its caret: a caret past the text the far end drew is
/// padded out to, never clamped.
pub proof fn lemma_the_caret_stays_inside_the_row(
    changed: Seq<RowChange>,
    anchor: Option<Anchor>,
    was: Option<Caret>,
    now: Option<Caret>,
    held: Seq<char>,
)
    ensures
        answer_for(changed, anchor, was, now, held) matches AnswerView::Row { text, caret }
            ==> caret <= text.len(),
{
    crate::text::lemma_trim_end_is_prefix(held);
}

} // verus!
