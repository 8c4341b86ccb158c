//! The session pump: the one owner of a session's transport, between the terminal engine
//! and the actor. Each thing that happens to it (a read, a request from the window, one of
//! its two timers) becomes the bytes to write, the inputs to send the actor and the timers
//! to arm, in order. The loop that waits, the engine, the transport and the channels belong
//! to the caller.

use std::collections::VecDeque;
use std::sync::Arc;
use std::sync::atomic::AtomicU32;

use vstd::prelude::*;
use vstd::utf8::encode_utf8;

use crate::controllers::SessionInput;
use crate::entities::{
    CommandId, ConnectionState, ExitCode, Integration, Key, KeyAck, KeyPress, LineId, LineOwner,
    LineRevision, PacingConfig, Screen, SessionEvent, SessionIntent, ShellMarkers, TerminalItem,
};
use crate::policies::{
    Anchor, Binding, BoundaryEvent, BoundaryTracker, Caret, FarEndAnswer, Keystroke, Region,
    RowChange, binding_for, far_end_row, find_on_line, first_where, key_bytes, has_marker, lemma_unmarked_batch_tells_no_boundary, observed, on_line, text_from_column,
};
use crate::ports::{Cursor, TerminalModes};
use crate::services::echo::{Due, Echo, Held, before_echo};
use crate::services::framing::{
    framed, framed_from, lemma_framed_chain, lemma_framed_push, lemma_framed_still,
};
use crate::text::{chars_of, copied, is_blank, trim, trim_end, trimmed, trimmed_end};

verus! {

broadcast use {vstd::std_specs::vec::group_vec_axioms, lemma_framed_chain};

/// What the window asked of a session, queued for the pump in the order it was asked.
#[derive(Debug, PartialEq, Eq)]
pub enum Request {
    Submit { command_id: CommandId, line: String },
    Interrupt,
    /// The bytes that end the shell's input.
    Eof { bytes: Vec<u8> },
    Key { key: KeyPress },
    Owner(LineOwner),
    Paste { text: String },
}

/// One thing the caller does for the pump, in the order given.
#[derive(Debug, PartialEq, Eq)]
pub enum PumpAction {
    /// Write these bytes to the transport; a failure means the far end is gone, which the
    /// transport's reads ending reports.
    Write(Vec<u8>),
    /// Interrupt whatever runs at the far end.
    Interrupt,
    /// Send this to the session's actor.
    Send(SessionInput),
    /// Whether a command is running or a submission is pending, for the window's keys.
    Running(bool),
    /// Arm the integration grace timer, this many milliseconds from now.
    ArmGrace(u64),
    /// Arm (or re-arm) the far-end settle timer, this many milliseconds from now.
    ArmSettled(u64),
}

/// What the engine says of itself at the moment the pump acts: its cursor and the modes
/// the far end asked for.
#[derive(Debug, Clone, Copy, PartialEq, Eq, Structural)]
pub struct EngineState {
    pub cursor: Cursor,
    pub modes: TerminalModes,
}

// --- Byte counts ------------------------------------------------------------------------

/// How many bytes `text` takes as UTF-8, the unit a transport and a `String` count in.
pub open spec fn byte_len(text: Seq<char>) -> nat {
    encode_utf8(text).len()
}

/// The width of one character in UTF-8.
pub open spec fn width(c: char) -> nat {
    vstd::utf8::encode_scalar(c as u32).len()
}

pub proof fn lemma_byte_len_front(text: Seq<char>)
    requires
        text.len() > 0,
    ensures
        byte_len(text) == width(text[0]) + byte_len(text.drop_first()),
{
}

fn byte_count(text: &str) -> (n: usize)
    ensures
        n == byte_len(text@),
{
    text.as_bytes().len()
}

fn char_width(c: char) -> (n: usize)
    ensures
        n == width(c),
        1 <= n <= 4,
{
    let u = c as u32;
    if u <= 0x7f {
        1
    } else if u <= 0x7ff {
        2
    } else if u <= 0xffff {
        3
    } else {
        4
    }
}

/// Whether `n` is past a window one wider than `longest`.
fn exceeds(n: usize, longest: usize) -> (r: bool)
    ensures
        r == (n > longest + 1),
{
    n > longest && n - longest > 1
}

/// The bytes of `text`, as the transport takes them.
pub fn utf8_bytes(text: &str) -> (r: Vec<u8>)
    ensures
        r@ == encode_utf8(text@),
{
    vstd::slice::slice_to_vec(text.as_bytes())
}

/// The tail of `row` within `window` bytes: whole characters are dropped from its front
/// while it is longer.
pub open spec fn keep_within(row: Seq<char>, window: nat) -> Seq<char>
    decreases row.len(),
{
    if row.len() > 0 && byte_len(row) > window {
        keep_within(row.drop_first(), window)
    } else {
        row
    }
}

fn kept_within(row: &str, longest: usize) -> (r: String)
    ensures
        r@ == keep_within(row@, longest as nat + 1),
{
    let chars = chars_of(row);
    let mut total = byte_count(row);
    let mut from: usize = 0;
    assert(chars@.skip(0) =~= chars@);
    while from < chars.len() && exceeds(total, longest)
        invariant
            chars@ == row@,
            from <= chars@.len(),
            total == byte_len(chars@.skip(from as int)),
            keep_within(row@, longest as nat + 1) == keep_within(chars@.skip(from as int), longest as nat + 1),
        decreases chars.len() - from,
    {
        proof {
            let rest = chars@.skip(from as int);
            lemma_byte_len_front(rest);
            assert(rest.drop_first() =~= chars@.skip(from + 1));
        }
        total = total - char_width(chars[from]);
        from += 1;
    }
    let mut out = String::new();
    crate::text::push_chars(&mut out, chars.as_slice(), from, chars.len());
    proof {
        assert(chars@.subrange(from as int, chars@.len() as int) =~= chars@.skip(from as int));
    }
    out
}


// --- Words -------------------------------------------------------------------------------

/// Unicode's `Alphabetic` or `Numeric` property, which `char::is_alphanumeric` answers.
pub uninterp spec fn alphanumeric(c: char) -> bool;

/// `char::is_alphanumeric`: whether `c` is a letter or a digit in Unicode's sense. The
/// contract names the answer; the tables behind it are not stated.
#[verifier::external_body]
fn is_alphanumeric(c: char) -> (r: bool)
    ensures
        r == alphanumeric(c),
{
    c.is_alphanumeric()
}

/// Whether a row ends in the echo of `line`: the trimmed line is not blank, the row ends
/// with it, and what stands before it, if anything, is not a letter or digit that would make
/// it the tail of a longer word.
pub open spec fn echoes(row: Seq<char>, line: Seq<char>) -> bool {
    let row = trim_end(row);
    let line = trim(line);
    &&& line.len() > 0
    &&& crate::text::ends_with(row, line)
    &&& (row.len() == line.len() || !alphanumeric(row[row.len() - line.len() - 1]))
}

fn echoes_line(row: &Vec<char>, line: &str) -> (r: bool)
    requires
        row@ == trim_end(row@),
    ensures
        r == echoes(row@, line@),
{
    let line = chars_of(trimmed(line).as_str());
    if line.len() == 0 || !crate::text::ends_with_chars(row.as_slice(), line.as_slice()) {
        return false;
    }
    if row.len() == line.len() {
        return true;
    }
    !is_alphanumeric(row[row.len() - line.len() - 1])
}

// --- The pump's own records -------------------------------------------------------------

/// A submitted line waiting for the far end to echo it.
struct Submitted {
    id: CommandId,
    line: String,
    /// A line the user typed is already headed by the window, so only the pump's own is
    /// named when its block opens.
    ours: bool,
    /// Whether the id was minted for a block nobody submitted.
    minted: bool,
}

/// What the pump knows of one line: all its text so far, and whether it was rewritten since
/// its last word reached a block.
struct Row {
    line: LineId,
    owed: bool,
    text: String,
}

/// Every field is inert while Acter owns the line.
struct FarEndLine {
    owner: LineOwner,
    anchor: Option<Anchor>,
    /// Whether a submission cleared the anchor; a far end that hides its cursor also has none.
    awaiting_prompt: bool,
    changed: Vec<RowChange>,
    watching: bool,
    /// The far end's cursor when the key went out; `None` if it was hidden.
    was: Option<Caret>,
    /// Rows the far end drew at its own prompt that the region filter turned away.
    printed: Vec<(LineId, Due)>,
    /// The text the listener currently has in front of them.
    held: String,
}

/// The longest pending line, trimmed, in bytes.
spec fn longest(pending: Seq<Submitted>) -> nat
    decreases pending.len(),
{
    if pending.len() == 0 {
        0
    } else {
        let rest = longest(pending.drop_last());
        let here = byte_len(trim(pending.last().line@));
        if here > rest {
            here
        } else {
            rest
        }
    }
}

/// The first pending line the row echoes, or `-1`.
spec fn first_echoed(pending: Seq<Submitted>, row: Seq<char>, i: int) -> bool {
    &&& 0 <= i < pending.len()
    &&& echoes(row, pending[i].line@)
    &&& forall|j: int| 0 <= j < i ==> !echoes(row, #[trigger] pending[j].line@)
}

/// The first pending line that, trimmed, is `echoed`.
spec fn first_named(pending: Seq<Submitted>, echoed: Seq<char>, i: int) -> bool {
    &&& 0 <= i < pending.len()
    &&& trim(pending[i].line@) == echoed
    &&& forall|j: int| 0 <= j < i ==> trim(#[trigger] pending[j].line@) != echoed
}

/// What claiming a block's submission does to what is pending, and which it takes.
spec fn claimed(before: Seq<Submitted>, echoed: Option<Seq<char>>, after: Seq<Submitted>, taken: Submitted) -> bool {
    if echoed matches Some(e) && exists|i: int| first_named(before, e, i) {
        exists|i: int| first_named(before, echoed.unwrap(), i) && taken == before[i] && after == before.skip(i + 1)
    } else if before.len() > 0 {
        taken == before[0] && after == before.skip(1)
    } else {
        &&& after == before
        &&& taken.line@.len() == 0
        &&& !taken.ours
        &&& taken.minted
    }
}

/// Whether one appended line reached the actor as output among `out`.
pub open spec fn line_reached(out: Seq<PumpAction>, id: LineId, text: Seq<char>, prompt: bool) -> bool {
    exists|j: int, spoken: bool|
        0 <= j < out.len() && #[trigger] outputs(out[j], id, LineRevision::Appended, text, spoken, prompt)
}

/// Whether `event` is an appended line in a region the pump relays as output.
pub open spec fn relayed_line(event: BoundaryEvent, integration: Integration, markers: ShellMarkers) -> bool {
    event matches BoundaryEvent::Line { region, revision, .. } && revision == LineRevision::Appended && wanted(
        integration,
        markers,
        region,
    )
}

/// Whether the line `event` tells of reached the actor among `out`.
pub open spec fn line_of_reached(out: Seq<PumpAction>, event: BoundaryEvent) -> bool {
    match event {
        BoundaryEvent::Line { region, id, text, .. } => line_reached(out, id, text@, region == Region::Prompt),
        _ => true,
    }
}

/// A line that reached the actor stays reached as more actions are added after.
proof fn lemma_still_reached(before: Seq<PumpAction>, after: Seq<PumpAction>, event: BoundaryEvent)
    requires
        before.len() <= after.len(),
        after.take(before.len() as int) == before,
        line_of_reached(before, event),
    ensures
        line_of_reached(after, event),
{
    match event {
        BoundaryEvent::Line { region, id, text, .. } => {
            let prompt = region == Region::Prompt;
            let (j, spoken) = choose|j: int, spoken: bool|
                0 <= j < before.len() && #[trigger] outputs(before[j], id, LineRevision::Appended, text@, spoken, prompt);
            assert(after.take(before.len() as int)[j] == after[j]);
            assert(outputs(after[j], id, LineRevision::Appended, text@, spoken, prompt));
        },
        _ => {},
    }
}

/// What the actor is told of a boundary event that is neither a line nor a block.
pub open spec fn told_of(event: BoundaryEvent) -> Option<SessionInput> {
    match event {
        BoundaryEvent::MarkersObserved => Some(SessionInput::MarkersObserved),
        BoundaryEvent::ScreenChanged(Screen::Alternate) => Some(SessionInput::AltScreenEntered),
        BoundaryEvent::ScreenChanged(Screen::Normal) => Some(SessionInput::AltScreenLeft),
        _ => None,
    }
}

/// Whether `action` is among `out`.
pub open spec fn sent_in(out: Seq<PumpAction>, action: PumpAction) -> bool {
    exists|j: int| 0 <= j < out.len() && out[j] == action
}

/// What was among the actions stays among them as more are added after.
proof fn lemma_still_sent(before: Seq<PumpAction>, after: Seq<PumpAction>, action: PumpAction)
    requires
        before.len() <= after.len(),
        after.take(before.len() as int) == before,
        sent_in(before, action),
    ensures
        sent_in(after, action),
{
    let j = choose|j: int| 0 <= j < before.len() && before[j] == action;
    assert(after.take(before.len() as int)[j] == after[j]);
}

/// What the rows that changed while a key was out become once row `id` reads `after`,
/// having read `before` when the key went out: the row's record keeps what it said then and
/// takes what it says now; a row not yet recorded is added last.
pub open spec fn noted_change(
    changed: Seq<RowChange>,
    id: LineId,
    before: Seq<char>,
    after: Seq<char>,
    result: Seq<RowChange>,
) -> bool {
    let at = first_where(changed, on_line(id));
    if at >= 0 {
        &&& result.len() == changed.len()
        &&& forall|j: int| 0 <= j < changed.len() && j != at ==> #[trigger] result[j] == changed[j]
        &&& result[at].line == id
        &&& result[at].before == changed[at].before
        &&& result[at].after@ == after
    } else {
        &&& result.len() == changed.len() + 1
        &&& result.take(changed.len() as int) == changed
        &&& result[changed.len() as int].line == id
        &&& result[changed.len() as int].before@ == before
        &&& result[changed.len() as int].after@ == after
    }
}

/// What a paste sends: the text, between the bracketed-paste markers when the far end
/// asked for them.
pub open spec fn pasted(text: Seq<char>, modes: TerminalModes) -> Seq<u8> {
    if modes.bracketed_paste {
        seq![0x1bu8, 0x5bu8, 0x32u8, 0x30u8, 0x30u8, 0x7eu8] + encode_utf8(text) + seq![0x1bu8, 0x5bu8, 0x32u8, 0x30u8, 0x31u8, 0x7eu8]
    } else {
        encode_utf8(text)
    }
}

fn bracket_start() -> (r: Vec<u8>)
    ensures
        r@ == seq![0x1bu8, 0x5bu8, 0x32u8, 0x30u8, 0x30u8, 0x7eu8],
{
    let r: Vec<u8> = vec![0x1b, 0x5b, 0x32, 0x30, 0x30, 0x7e];
    assert(r@ =~= seq![0x1bu8, 0x5bu8, 0x32u8, 0x30u8, 0x30u8, 0x7eu8]);
    r
}

fn bracket_end() -> (r: Vec<u8>)
    ensures
        r@ == seq![0x1bu8, 0x5bu8, 0x32u8, 0x30u8, 0x31u8, 0x7eu8],
{
    let r: Vec<u8> = vec![0x1b, 0x5b, 0x32, 0x30, 0x31, 0x7e];
    assert(r@ =~= seq![0x1bu8, 0x5bu8, 0x32u8, 0x30u8, 0x31u8, 0x7eu8]);
    r
}

/// The far end's cursor as a caret, or `None` while it hides it.
pub open spec fn caret_of(engine: EngineState) -> Option<Caret> {
    if engine.cursor.visible {
        Some(Caret { column: engine.cursor.column, row: engine.cursor.row })
    } else {
        None
    }
}

/// The anchored row from the anchor's column on.
spec fn from_anchor(rows: Seq<Row>, anchor: Option<Anchor>) -> Seq<char> {
    match anchor {
        Some(a) => crate::policies::from_column(text_of(rows, a.line), a.column as nat),
        None => Seq::empty(),
    }
}

/// Where the anchor goes when the far end drew its command line again: onto the cursor's
/// row, at the column where what the listener already had begins on it.
spec fn followed(rows: Seq<Row>, anchor: Option<Anchor>, held: Seq<char>, cursor: Option<LineId>, engine: EngineState) -> Option<Anchor> {
    match cursor {
        Some(line) => {
            let held = trim_end(held);
            let row = trim_end(text_of(rows, line));
            let on_it = match anchor {
                Some(a) => a.line == line,
                None => false,
            };
            if engine.cursor.visible && !on_it && held.len() > 0 && crate::text::ends_with(row, held) {
                let column = row.len() - held.len();
                Some(Anchor { line, column: if column > u16::MAX { u16::MAX } else { column as u16 } })
            } else {
                anchor
            }
        },
        None => anchor,
    }
}

/// Whether a row is watched for the echo of what is pending: anything but the command line
/// the shell echoes into, while a line waits, appended to or drawn whole on the row the
/// submission is pending on.
spec fn watches(region: Region, id: LineId, revision: LineRevision, longest: nat, pending_row: Option<LineId>) -> bool {
    region != Region::CommandLine && longest > 0 && (revision == LineRevision::Appended || pending_row == Some(id))
}

/// The row watched for an echo once a line arrives: appended to what accumulated, or drawn
/// whole, kept within the echo window.
spec fn echo_row(row: Seq<char>, text: Seq<char>, revision: LineRevision, pending: Seq<Submitted>) -> Seq<char> {
    keep_within(
        if revision == LineRevision::Appended {
            row + text
        } else {
            text
        },
        longest(pending) + 1,
    )
}

/// What taking the echo gives: the echoed line trimmed, unless there is none or it is blank.
spec fn echo_taken(echoed: Option<Seq<char>>) -> Option<Seq<char>> {
    match echoed {
        Some(t) => if trim(t).len() == 0 {
            None
        } else {
            Some(trim(t))
        },
        None => None,
    }
}

/// Where the anchor stands once a settled batch has followed the cursor.
spec fn anchor_after(pump: Pump, engine: EngineState) -> Option<Anchor> {
    followed(pump.lines@, pump.far_end.anchor, pump.far_end.held@, pump.cursor, engine)
}

/// What the far-end rule answers for the batch that settled after a key.
spec fn settle_answer(pump: Pump, engine: EngineState) -> crate::policies::AnswerView {
    crate::policies::answer_for(
        pump.far_end.changed@,
        anchor_after(pump, engine),
        pump.far_end.was,
        caret_of(engine),
        pump.far_end.held@,
    )
}

/// Whether the actions from `from` on end in the listener being handed `answer`: the row
/// with its caret, the detached row, or the caret alone; nothing for no answer.
pub open spec fn answered(out: Seq<PumpAction>, from: int, answer: crate::policies::AnswerView, anchor: Option<Anchor>) -> bool {
    match answer {
        crate::policies::AnswerView::Row { text, caret } => {
            &&& out.len() > from
            &&& out.last() matches PumpAction::Send(SessionInput::FarEndLine { text: Some(t), caret: c, anchored: true })
                && t@ == text && c == (if caret > u32::MAX { u32::MAX } else { caret as u32 })
        },
        crate::policies::AnswerView::Detached { text } => {
            &&& out.len() > from
            &&& out.last() matches PumpAction::Send(SessionInput::FarEndLine { text: Some(t), caret: 0, anchored: false })
                && t@ == text
        },
        crate::policies::AnswerView::Caret { caret } => {
            &&& out.len() > from
            &&& out.last() matches PumpAction::Send(SessionInput::FarEndLine { text: None, caret: c, anchored: a })
                && a == (anchor is Some) && c == (if caret > u32::MAX { u32::MAX } else { caret as u32 })
        },
        crate::policies::AnswerView::Nothing => true,
    }
}

spec fn row_at(rows: Seq<Row>, id: LineId, i: int) -> bool {
    0 <= i < rows.len() && rows[i].line == id
}

spec fn has_row(rows: Seq<Row>, id: LineId) -> bool {
    exists|i: int| row_at(rows, id, i)
}

spec fn distinct_rows(rows: Seq<Row>) -> bool {
    forall|i: int, j: int| 0 <= i < rows.len() && 0 <= j < rows.len() && i != j ==> #[trigger] rows[i].line != #[trigger] rows[j].line
}

spec fn row_index(rows: Seq<Row>, id: LineId) -> int {
    choose|i: int| row_at(rows, id, i)
}

/// All of a line's text the pump has seen, or nothing for a line it has no record of.
spec fn text_of(rows: Seq<Row>, id: LineId) -> Seq<char> {
    if has_row(rows, id) {
        rows[row_index(rows, id)].text@
    } else {
        Seq::empty()
    }
}

spec fn owed_of(rows: Seq<Row>, id: LineId) -> bool {
    has_row(rows, id) && rows[row_index(rows, id)].owed
}

proof fn lemma_row_index(rows: Seq<Row>, id: LineId, i: int)
    requires
        distinct_rows(rows),
        row_at(rows, id, i),
    ensures
        has_row(rows, id),
        row_index(rows, id) == i,
{
    let k = row_index(rows, id);
    assert(row_at(rows, id, k));
    if k != i {
        assert(rows[k].line != rows[i].line);
    }
}


// --- The pump ----------------------------------------------------------------------------

/// Which regions a session wants as block content: before the first marker every line is
/// unstructured, so a session still waiting for one wants those too.
pub open spec fn wanted(integration: Integration, markers: ShellMarkers, region: Region) -> bool {
    match integration {
        Integration::Unintegrated => region == Region::Unstructured,
        Integration::Pending => region == Region::Unstructured || marked(markers, region),
        Integration::Integrated => marked(markers, region),
    }
}

/// A shell with no exit code ends a command only by drawing its prompt, so there the prompt
/// is content too.
pub open spec fn marked(markers: ShellMarkers, region: Region) -> bool {
    if crate::entities::reports_exit_code(markers) {
        region == Region::Output
    } else {
        region == Region::Output || region == Region::Prompt
    }
}

/// What closing the open block `id` tells the actor.
pub open spec fn ending(id: CommandId, exit: Option<ExitCode>, interrupted: bool, barren: bool) -> SessionInput {
    if exit is None && interrupted {
        SessionInput::CommandInterrupted { command_id: id }
    } else if barren {
        SessionInput::NothingRan { command_id: id }
    } else {
        SessionInput::CommandEnded {
            command_id: id,
            exit_code: match exit {
                Some(code) => code,
                None => ExitCode(0),
            },
        }
    }
}

/// Whether the far end owns the line and `id` is its anchored row.
pub open spec fn anchored_on(owner: LineOwner, anchor: Option<Anchor>, id: LineId) -> bool {
    owner == LineOwner::FarEnd && match anchor {
        Some(a) => a.line == id,
        None => false,
    }
}

/// Whether `action` sends the actor one line's output.
pub open spec fn outputs(
    action: PumpAction,
    line: LineId,
    revision: LineRevision,
    text: Seq<char>,
    spoken: bool,
    prompt: bool,
) -> bool {
    action matches PumpAction::Send(SessionInput::Output { line: l, revision: v, text: t, spoken: s, prompt: p, runs })
        && l == line && v == revision && t@ == text && s == spoken && p == prompt && runs@.len() == 0
}

/// The settings a pump was made with, and whether the far end spoke yet: what none of its
/// steps but a read changes.
spec fn same_config(a: Pump, b: Pump) -> bool {
    &&& a.tracker == b.tracker
    &&& a.grace == b.grace
    &&& a.quiescence == b.quiescence
    &&& a.far_end_settle == b.far_end_settle
    &&& a.markers == b.markers
    &&& a.discards_line == b.discards_line
    &&& a.spoken == b.spoken
}

/// One session's pump, between its engine, its transport and its actor.
pub struct Pump {
    tracker: BoundaryTracker,
    grace: u64,
    quiescence: u64,
    far_end_settle: u64,
    /// Shared with whatever else mints this session's command ids.
    ids: Arc<AtomicU32>,
    /// Mirrors the actor's integration status; the pump sends both copies' transitions, so
    /// they cannot disagree.
    integration: Integration,
    drawing: Option<String>,
    /// `None` once something happened that makes the next prompt news; `readline` in `bash`
    /// draws the whole prompt again on every Tab, history recall and `Ctrl+L`.
    standing: Option<String>,
    spoken: bool,
    /// `None` for a far end that is not being set up, or once its setup went out.
    setup: Option<String>,
    /// While `Some`, what comes back is rendered and never announced.
    self_talk: Option<CommandId>,
    /// `None` for a shell whose line editor has no byte that discards the pending line.
    discards_line: Option<u8>,
    markers: ShellMarkers,
    submitted: VecDeque<Submitted>,
    echo: Echo,
    open: Option<CommandId>,
    interrupted: bool,
    /// Whether the open block is nobody's; set from what opened it rather than what it
    /// printed, so a real command that fails silently keeps its verdict.
    barren: bool,
    /// Kept across regions and blocks; a row leaves only when its line settles.
    lines: Vec<Row>,
    held: Option<Held>,
    row: String,
    cursor: Option<LineId>,
    /// Only meaningful while a submission is pending.
    pending_row: Option<LineId>,
    far_end: FarEndLine,
}

impl Pump {
    /// Whether a block is open at the actor.
    pub closed spec fn block_open(&self) -> bool {
        self.open is Some
    }

    /// Where the boundary tracker stands: the region and whether markers were seen.
    pub closed spec fn boundaries(&self) -> crate::policies::Boundaries {
        self.tracker@
    }

    /// Whether a submitted line still waits for its echo.
    pub closed spec fn awaiting_echo(&self) -> bool {
        self.submitted@.len() > 0
    }

    /// Whether shell-integration markers have been seen, as the pump mirrors the actor's.
    pub closed spec fn integration_status(&self) -> Integration {
        self.integration
    }

    /// How far the shell's own markers reach.
    pub closed spec fn shell_markers(&self) -> ShellMarkers {
        self.markers
    }

    /// Who owns the command line.
    pub closed spec fn owner(&self) -> LineOwner {
        self.far_end.owner
    }

    /// Whether a command is running or a submission is pending.
    pub closed spec fn busy(&self) -> bool {
        self.open is Some || self.submitted@.len() > 0
    }

    /// Whether the setup line is still to be sent.
    pub closed spec fn setup_pending(&self) -> bool {
        self.setup is Some
    }

    /// Whether what comes back is still the session talking to itself.
    pub closed spec fn talking_to_itself(&self) -> bool {
        self.self_talk is Some
    }

    /// Whether the far end has said anything yet.
    pub closed spec fn heard(&self) -> bool {
        self.spoken
    }

    /// Milliseconds the session waits for its first shell-integration marker.
    pub closed spec fn grace_period(&self) -> u64 {
        self.grace
    }

    /// Milliseconds of quiet after which the far end's answer to a key is taken.
    pub closed spec fn settle_period(&self) -> u64 {
        self.far_end_settle
    }

    /// Milliseconds of quiet after which whatever the far end drew is taken.
    pub closed spec fn quiet_period(&self) -> u64 {
        self.quiescence
    }

    /// The row the far end's cursor was last seen drawing on, if any.
    pub closed spec fn cursor_row(&self) -> Option<LineId> {
        self.cursor
    }

    /// All of a row's text the pump has seen.
    pub closed spec fn row_seen(&self, id: LineId) -> Seq<char> {
        text_of(self.lines@, id)
    }

    /// What stands on the anchored row from the anchor on: the far end's command line.
    pub closed spec fn command_line(&self) -> Seq<char> {
        from_anchor(self.lines@, self.far_end.anchor)
    }

    /// Where the far end's command line is anchored, while it owns the line.
    pub closed spec fn anchor(&self) -> Option<Anchor> {
        self.far_end.anchor
    }

    /// What the far-end rule answers for the rows the far end changed since its key went
    /// out, should the batch settle now with the engine as it is.
    pub closed spec fn far_end_answer(&self, engine: EngineState) -> crate::policies::AnswerView {
        settle_answer(*self, engine)
    }

    /// Where the command line is anchored once a settled batch has followed the cursor.
    pub closed spec fn anchor_once_followed(&self, engine: EngineState) -> Option<Anchor> {
        anchor_after(*self, engine)
    }

    /// Whether a key is out that the listener is waiting on, rather than Enter, after which
    /// the next prompt may still be drawing.
    pub closed spec fn waiting_on_a_key(&self) -> bool {
        self.far_end.watching && !self.far_end.awaiting_prompt
    }

    pub closed spec fn wf(&self) -> bool {
        distinct_rows(self.lines@)
    }

    /// A pump for a session that has not spoken yet. `setup` is the line that sets the far
    /// end up, when it can be; `ids` is the counter every command id of the session comes
    /// from.
    pub fn new(
        config: &PacingConfig,
        markers: ShellMarkers,
        discards_line: Option<u8>,
        setup: Option<String>,
        ids: Arc<AtomicU32>,
    ) -> (r: Self)
        ensures
            r.wf(),
            !r.block_open(),
            !r.busy(),
            !r.heard(),
            !r.talking_to_itself(),
            r.setup_pending() == (setup is Some),
            r.owner() == LineOwner::Local,
            r.grace_period() == config.integration_grace,
            r.settle_period() == config.far_end_settle,
            r.quiet_period() == config.quiescence,
    {
        Pump {
            tracker: BoundaryTracker::new(),
            grace: config.integration_grace,
            quiescence: config.quiescence,
            far_end_settle: config.far_end_settle,
            ids,
            integration: Integration::Pending,
            drawing: None,
            standing: None,
            spoken: false,
            setup,
            self_talk: None,
            discards_line,
            markers,
            submitted: VecDeque::new(),
            echo: Echo::default(),
            open: None,
            interrupted: false,
            barren: false,
            lines: Vec::new(),
            held: None,
            row: String::new(),
            cursor: None,
            pending_row: None,
            far_end: FarEndLine {
                owner: LineOwner::Local,
                anchor: None,
                awaiting_prompt: false,
                changed: Vec::new(),
                watching: false,
                was: None,
                printed: Vec::new(),
                held: String::new(),
            },
        }
    }

    /// A fresh command id from the session's counter.
    fn mint(&self) -> CommandId {
        CommandId(self.ids.fetch_add(1, std::sync::atomic::Ordering::SeqCst))
    }

    fn send(&self, input: SessionInput, out: &mut Vec<PumpAction>)
        ensures
            final(out)@ == old(out)@.push(PumpAction::Send(input)),
    {
        out.push(PumpAction::Send(input));
    }

    /// Tells the window's side whether a command is running or a submission is pending.
    fn settle_running(&self, out: &mut Vec<PumpAction>)
        ensures
            final(out)@ == old(out)@.push(PumpAction::Running(self.open is Some || self.submitted@.len() > 0)),
    {
        out.push(PumpAction::Running(self.open.is_some() || self.submitted.len() > 0));
    }

    fn open_block(&mut self, command_id: CommandId, command_line: Option<String>, out: &mut Vec<PumpAction>)
        requires
            old(self).open is None,
        ensures
            same_config(*old(self), *final(self)),
            *final(self) == (Pump { open: Some(command_id), barren: false, ..*old(self) }),
            final(out)@ == old(out)@.push(PumpAction::Send(SessionInput::CommandStarted { command_id, command_line })),
            framed_from(old(out)@, final(out)@, false, true),
    {
        self.open = Some(command_id);
        self.barren = false;
        self.send(SessionInput::CommandStarted { command_id, command_line }, out);
        proof {
            lemma_framed_push(old(out)@, PumpAction::Send(SessionInput::CommandStarted { command_id, command_line }), false);
        }
    }

    /// Closes the open block, if one is: every recorded line's text went to it, so none is
    /// owed any more. An interrupted command that ended without a code was stopped; a block
    /// nobody's was nothing running; anything else ended with its code, or zero. The
    /// session stops talking to itself when the block that set it up closes, after the
    /// close, so the flush the close triggers is quiet too.
    fn close(&mut self, exit: Option<ExitCode>, out: &mut Vec<PumpAction>)
        requires
            old(self).wf(),
        ensures
            same_config(*old(self), *final(self)),
            final(self).wf(),
            *final(self) == (Pump {
                open: None,
                lines: final(self).lines,
                interrupted: final(self).interrupted,
                self_talk: final(self).self_talk,
                ..*old(self)
            }),
            final(self).lines@.len() == old(self).lines@.len(),
            forall|i: int| 0 <= i < old(self).lines@.len() ==> {
                &&& (#[trigger] final(self).lines@[i]).line == old(self).lines@[i].line
                &&& final(self).lines@[i].text@ == old(self).lines@[i].text@
                &&& (old(self).open is Some ==> !final(self).lines@[i].owed)
                &&& (old(self).open is None ==> final(self).lines@[i].owed == old(self).lines@[i].owed)
            },
            match old(self).open {
                None => final(out)@ == old(out)@ && final(self).self_talk == old(self).self_talk
                    && final(self).interrupted == old(self).interrupted,
                Some(id) => {
                    let ended = old(out)@.push(PumpAction::Send(ending(id, exit, old(self).interrupted, old(self).barren)));
                    let quiet = if old(self).self_talk == Some(id) {
                        ended.push(PumpAction::Send(SessionInput::SelfTalk(false)))
                    } else {
                        ended
                    };
                    &&& final(out)@ == quiet.push(PumpAction::Running(old(self).submitted@.len() > 0))
                    &&& !final(self).interrupted
                    &&& final(self).self_talk == if old(self).self_talk == Some(id) {
                        None
                    } else {
                        old(self).self_talk
                    }
                },
            },
            framed_from(old(out)@, final(out)@, old(self).open is Some, false),
    {
        let command_id = match self.open {
            Some(id) => id,
            None => {
                proof {
                    lemma_framed_still(old(out)@, false);
                }
                return;
            },
        };
        self.open = None;
        let mut rows: Vec<Row> = Vec::new();
        std::mem::swap(&mut rows, &mut self.lines);
        let ghost was = rows@;
        let mut fresh: Vec<Row> = Vec::new();
        for row in it: rows
            invariant
                it.seq() == was,
                fresh@.len() == it.index(),
                forall|i: int| 0 <= i < it.index() ==> {
                    &&& (#[trigger] fresh@[i]).line == was[i].line
                    &&& fresh@[i].text@ == was[i].text@
                    &&& !fresh@[i].owed
                },
        {
            fresh.push(Row { line: row.line, owed: false, text: row.text });
        }
        self.lines = fresh;
        proof {
            assert forall|i: int, j: int| 0 <= i < self.lines@.len() && 0 <= j < self.lines@.len() && i != j
                implies #[trigger] self.lines@[i].line != #[trigger] self.lines@[j].line by {
                assert(was[i].line != was[j].line);
            }
        }
        let stopped = exit.is_none() && self.interrupted;
        self.interrupted = false;
        let ending_input = if stopped {
            SessionInput::CommandInterrupted { command_id }
        } else if self.barren {
            SessionInput::NothingRan { command_id }
        } else {
            SessionInput::CommandEnded {
                command_id,
                exit_code: match exit {
                    Some(code) => code,
                    None => ExitCode(0),
                },
            }
        };
        self.send(ending_input, out);
        let ghost after_end = out@;
        proof {
            lemma_framed_push(old(out)@, PumpAction::Send(ending(command_id, exit, old(self).interrupted, old(self).barren)), true);
        }
        if self.self_talk == Some(command_id) {
            self.self_talk = None;
            self.send(SessionInput::SelfTalk(false), out);
            proof {
                lemma_framed_push(after_end, PumpAction::Send(SessionInput::SelfTalk(false)), false);
            }
        } else {
            proof {
                lemma_framed_still(after_end, false);
            }
        }
        let ghost after_quiet = out@;
        self.settle_running(out);
        proof {
            lemma_framed_push(after_quiet, PumpAction::Running(self.submitted@.len() > 0), false);
        }
    }

    /// Whether a line is the anchored row, which decides speech only: the row still reaches
    /// the buffer.
    fn on_anchor(&self, id: LineId) -> (r: bool)
        ensures
            r == anchored_on(self.far_end.owner, self.far_end.anchor, id),
    {
        self.far_end.owner == LineOwner::FarEnd && match self.far_end.anchor {
            Some(anchor) => anchor.line == id,
            None => false,
        }
    }

    /// Sends a line's due to the open block; the anchored row is never spoken.
    fn output(&mut self, id: LineId, due: Due, out: &mut Vec<PumpAction>)
        requires
            old(self).open is Some,
        ensures
            same_config(*old(self), *final(self)),
            *final(self) == (Pump { barren: false, ..*old(self) }),
            final(out)@.len() == old(out)@.len() + 1,
            final(out)@.take(old(out)@.len() as int) == old(out)@,
            outputs(final(out)@.last(), id, due.revision, due.text@,
                due.spoken && !anchored_on(old(self).far_end.owner, old(self).far_end.anchor, id),
                due.prompt),
            framed_from(old(out)@, final(out)@, true, true),
    {
        self.barren = false;
        let spoken = due.spoken && !self.on_anchor(id);
        let input = SessionInput::Output {
            line: id,
            revision: due.revision,
            text: due.text,
            spoken,
            prompt: due.prompt,
            runs: Vec::new(),
        };
        let ghost action = PumpAction::Send(input);
        self.send(input, out);
        proof {
            lemma_framed_push(old(out)@, action, true);
            assert(final(out)@.take(old(out)@.len() as int) =~= old(out)@);
        }
    }

    fn find_row(&self, id: LineId) -> (r: Option<usize>)
        ensures
            match r {
                Some(i) => row_at(self.lines@, id, i as int),
                None => !has_row(self.lines@, id),
            },
    {
        let mut i: usize = 0;
        while i < self.lines.len()
            invariant
                i <= self.lines@.len(),
                forall|j: int| 0 <= j < i ==> !row_at(self.lines@, id, j),
            decreases self.lines.len() - i,
        {
            if self.lines[i].line == id {
                return Some(i);
            }
            i += 1;
        }
        None
    }

    /// What of a line is owed to a block. An append is owed and spoken; a rewrite is owed
    /// unspoken and leaves the line owed its words; a settled line is owed, spoken, only
    /// when it was rewritten since its last word or never seen: a line that scrolled out
    /// within one read arrives settled without ever appending.
    fn due(&mut self, id: LineId, text: String, revision: LineRevision, prompt: bool) -> (r: Option<Due>)
        requires
            old(self).wf(),
        ensures
            same_config(*old(self), *final(self)),
            final(self).wf(),
            *final(self) == (Pump { lines: final(self).lines, ..*old(self) }),
            match revision {
                LineRevision::Appended => {
                    &&& has_row(final(self).lines@, id)
                    &&& text_of(final(self).lines@, id) == text_of(old(self).lines@, id) + text@
                    &&& !owed_of(final(self).lines@, id)
                    &&& r matches Some(d) && d.text@ == text@ && d.revision == revision && d.spoken && d.prompt == prompt
                },
                LineRevision::Rewritten => {
                    &&& has_row(final(self).lines@, id)
                    &&& text_of(final(self).lines@, id) == text@
                    &&& owed_of(final(self).lines@, id)
                    &&& r matches Some(d) && d.text@ == text@ && d.revision == revision && !d.spoken && d.prompt == prompt
                },
                LineRevision::Settled => {
                    &&& !has_row(final(self).lines@, id)
                    &&& (r is Some <==> (!has_row(old(self).lines@, id) || owed_of(old(self).lines@, id)))
                    &&& (r matches Some(d) ==> d.text@ == text@ && d.revision == revision && d.spoken && d.prompt == prompt)
                },
            },
    {
        let found = self.find_row(id);
        match revision {
            LineRevision::Appended => {
                match found {
                    Some(i) => {
                        proof {
                            lemma_row_index(self.lines@, id, i as int);
                        }
                        let mut row = self.lines.remove(i);
                        row.owed = false;
                        row.text.append(text.as_str());
                        self.lines.insert(i, row);
                        proof {
                            assert(self.lines@ =~= old(self).lines@.update(i as int, self.lines@[i as int]));
                            self.lemma_rows_updated(old(self).lines@, i as int);
                            lemma_row_index(self.lines@, id, i as int);
                        }
                    },
                    None => {
                        self.lines.push(Row { line: id, owed: false, text: copied(text.as_str()) });
                        proof {
                            assert(self.lines@.take(old(self).lines@.len() as int) =~= old(self).lines@);
                            self.lemma_rows_pushed(old(self).lines@, id);
                            lemma_row_index(self.lines@, id, old(self).lines@.len() as int);
                        }
                    },
                }
                Some(Due { text, revision, spoken: true, prompt })
            },
            LineRevision::Rewritten => {
                let copy = copied(text.as_str());
                match found {
                    Some(i) => {
                        let mut row = self.lines.remove(i);
                        row.owed = true;
                        row.text = copy;
                        self.lines.insert(i, row);
                        proof {
                            assert(self.lines@ =~= old(self).lines@.update(i as int, self.lines@[i as int]));
                            self.lemma_rows_updated(old(self).lines@, i as int);
                            lemma_row_index(self.lines@, id, i as int);
                        }
                    },
                    None => {
                        self.lines.push(Row { line: id, owed: true, text: copy });
                        proof {
                            assert(self.lines@.take(old(self).lines@.len() as int) =~= old(self).lines@);
                            self.lemma_rows_pushed(old(self).lines@, id);
                            lemma_row_index(self.lines@, id, old(self).lines@.len() as int);
                        }
                    },
                }
                Some(Due { text, revision, spoken: false, prompt })
            },
            LineRevision::Settled => {
                let owed = match found {
                    Some(i) => {
                        proof {
                            lemma_row_index(self.lines@, id, i as int);
                        }
                        let row = self.lines.remove(i);
                        proof {
                            assert(self.lines@ =~= old(self).lines@.remove(i as int));
                            self.lemma_rows_removed(old(self).lines@, i as int);
                        }
                        row.owed
                    },
                    None => true,
                };
                if owed {
                    Some(Due { text, revision, spoken: true, prompt })
                } else {
                    None
                }
            },
        }
    }

    fn wants(&self, region: Region) -> (r: bool)
        ensures
            r == wanted(self.integration, self.markers, region),
    {
        match self.integration {
            Integration::Unintegrated => region == Region::Unstructured,
            Integration::Pending => region == Region::Unstructured || self.marked(region),
            Integration::Integrated => self.marked(region),
        }
    }

    fn marked(&self, region: Region) -> (r: bool)
        ensures
            r == marked(self.markers, region),
    {
        if self.markers.reports_exit_code() {
            return region == Region::Output;
        }
        region == Region::Output || region == Region::Prompt
    }

    /// The longest pending line, trimmed, in bytes. The echo window is one past it: the one
    /// character that shows a match starts a word. Zero when nothing waits for an echo.
    fn longest_pending(&self) -> (r: usize)
        ensures
            r as nat == longest(self.submitted@),
    {
        let mut best: usize = 0;
        let mut i: usize = 0;
        while i < self.submitted.len()
            invariant
                i <= self.submitted@.len(),
                best as nat == longest(self.submitted@.take(i as int)),
            decreases self.submitted.len() - i,
        {
            proof {
                assert(self.submitted@.take(i + 1).drop_last() =~= self.submitted@.take(i as int));
                assert(self.submitted@.take(i + 1).last() == self.submitted@[i as int]);
            }
            let n = byte_count(trimmed(self.submitted[i].line.as_str()).as_str());
            if n > best {
                best = n;
            }
            i += 1;
        }
        proof {
            assert(self.submitted@.take(self.submitted@.len() as int) =~= self.submitted@);
        }
        best
    }

    /// Whether the row a submission is pending on is this line, while something still waits
    /// for an echo: what lands there is the echo.
    fn pending_echo(&self, id: LineId) -> (r: bool)
        ensures
            r == (self.pending_row == Some(id) && longest(self.submitted@) > 0),
    {
        self.pending_row == Some(id) && self.longest_pending() > 0
    }

    /// The first pending line the row ends in the echo of.
    fn echoed(&self, row: &str) -> (r: Option<usize>)
        ensures
            match r {
                Some(i) => first_echoed(self.submitted@, row@, i as int),
                None => forall|j: int| 0 <= j < self.submitted@.len() ==> !echoes(row@, #[trigger] self.submitted@[j].line@),
            },
    {
        let row_chars = chars_of(trimmed_end(row).as_str());
        proof {
            crate::text::lemma_trim_end_twice(row@);
        }
        let mut i: usize = 0;
        while i < self.submitted.len()
            invariant
                i <= self.submitted@.len(),
                row_chars@ == trim_end(row@),
                forall|j: int| 0 <= j < i ==> !echoes(row@, #[trigger] self.submitted@[j].line@),
            decreases self.submitted.len() - i,
        {
            proof {
                crate::text::lemma_trim_end_twice(row@);
            }
            if echoes_line(&row_chars, self.submitted[i].line.as_str()) {
                return Some(i);
            }
            i += 1;
        }
        None
    }

    /// Takes the submission at `index`, retiring the ones ahead of it.
    fn adopt(&mut self, index: usize) -> (r: Submitted)
        requires
            index < old(self).submitted@.len(),
        ensures
            same_config(*old(self), *final(self)),
            r == old(self).submitted@[index as int],
            final(self).submitted@ == old(self).submitted@.skip(index + 1),
            final(self).open == old(self).open,
            final(self).lines == old(self).lines,
            final(self).held == old(self).held,
            final(self).far_end == old(self).far_end,
            final(self).self_talk == old(self).self_talk,
    {
        let mut rest = self.submitted.split_off(index);
        let first = rest.pop_front().unwrap();
        self.submitted = rest;
        proof {
            assert(self.submitted@ =~= old(self).submitted@.skip(index + 1));
        }
        first
    }

    /// The submission a block that just started belongs to: the one whose line the shell
    /// echoed, retiring those ahead of it, which assumes a serial shell already disposed of
    /// them; else the oldest pending; else a fresh one nobody submitted.
    fn claim(&mut self, echoed: Option<&str>) -> (r: Submitted)
        ensures
            same_config(*old(self), *final(self)),
            final(self).open == old(self).open,
            final(self).lines == old(self).lines,
            final(self).held == old(self).held,
            final(self).far_end == old(self).far_end,
            final(self).self_talk == old(self).self_talk,
            claimed(old(self).submitted@, match echoed {
                Some(e) => Some(e@),
                None => None,
            }, final(self).submitted@, r),
    {
        match echoed {
            Some(e) => {
                let mut i: usize = 0;
                while i < self.submitted.len()
                    invariant
                        i <= self.submitted@.len(),
                        self.submitted == old(self).submitted,
                        self.open == old(self).open,
                        self.lines == old(self).lines,
                        self.held == old(self).held,
                        self.far_end == old(self).far_end,
                        self.self_talk == old(self).self_talk,
                        same_config(*old(self), *self),
                        echoed == Some(e),
                        forall|j: int| 0 <= j < i ==> trim(#[trigger] self.submitted@[j].line@) != e@,
                    decreases self.submitted.len() - i,
                {
                    if crate::text::same_text(trimmed(self.submitted[i].line.as_str()).as_str(), e) {
                        let r = self.adopt(i);
                        proof {
                            let ghost echoed_text: Option<Seq<char>> = Some(e@);
                            assert(first_named(old(self).submitted@, e@, i as int));
                            assert(echoed_text.unwrap() == e@);
                            assert(first_named(old(self).submitted@, echoed_text.unwrap(), i as int)
                                && r == old(self).submitted@[i as int]
                                && self.submitted@ == old(self).submitted@.skip(i + 1));
                            assert(claimed(old(self).submitted@, echoed_text, self.submitted@, r));
                        }
                        return r;
                    }
                    i += 1;
                }
                proof {
                    assert forall|k: int| !first_named(old(self).submitted@, e@, k) by {
                        if 0 <= k < old(self).submitted@.len() {
                            assert(trim(old(self).submitted@[k].line@) != e@);
                        }
                    }
                }
            },
            None => {},
        }
        if self.submitted.len() > 0 {
            self.adopt(0)
        } else {
            Submitted { id: self.mint(), line: String::new(), ours: false, minted: true }
        }
    }

    /// Opens a block nobody submitted, under a fresh id, never a claimed one: claiming would
    /// take the submission whose echo this row may be about to complete.
    fn unclaimed(&mut self, out: &mut Vec<PumpAction>)
        requires
            old(self).open is None,
            old(self).wf(),
        ensures
            same_config(*old(self), *final(self)),
            final(self).wf(),
            final(self).open is Some,
            final(self).barren,
            final(self).submitted == old(self).submitted,
            final(self).lines == old(self).lines,
            final(self).cursor == old(self).cursor,
            final(self).held == old(self).held,
            final(self).far_end == old(self).far_end,
            final(self).self_talk == old(self).self_talk,
            final(self).interrupted == old(self).interrupted,
            final(self).integration == old(self).integration,
            framed_from(old(out)@, final(out)@, false, true),
    {
        let command_id = self.mint();
        self.open_block(command_id, None, out);
        self.barren = true;
        let ghost mid = out@;
        self.settle_running(out);
        proof {
            lemma_framed_push(mid, PumpAction::Running(true), true);
        }
    }

    /// Sends a line's due to a block, opening one nobody submitted if none is open.
    fn publish(&mut self, id: LineId, due: Due, out: &mut Vec<PumpAction>)
        requires
            old(self).wf(),
        ensures
            same_config(*old(self), *final(self)),
            final(self).wf(),
            final(self).open is Some,
            old(self).open is Some ==> final(self).open == old(self).open,
            final(self).submitted == old(self).submitted,
            final(self).lines == old(self).lines,
            final(self).cursor == old(self).cursor,
            final(self).held == old(self).held,
            final(self).far_end == old(self).far_end,
            final(self).self_talk == old(self).self_talk,
            final(self).interrupted == old(self).interrupted,
            final(self).integration == old(self).integration,
            framed_from(old(out)@, final(out)@, old(self).open is Some, true),
    {
        if self.open.is_none() {
            self.unclaimed(out);
        } else {
            proof {
                lemma_framed_still(old(out)@, true);
            }
        }
        self.output(id, due, out);
    }

    /// Lets go of the held row, whatever it was: it reaches a block whole.
    fn spill(&mut self, out: &mut Vec<PumpAction>)
        requires
            old(self).wf(),
        ensures
            same_config(*old(self), *final(self)),
            final(self).wf(),
            final(self).held is None,
            final(self).submitted == old(self).submitted,
            final(self).far_end == old(self).far_end,
            final(self).self_talk == old(self).self_talk,
            final(self).interrupted == old(self).interrupted,
            old(self).held is None ==> final(self).open == old(self).open && final(out)@ == old(out)@,
            old(self).held is Some ==> final(self).open is Some,
            old(self).open is Some ==> final(self).open == old(self).open,
            final(self).integration == old(self).integration,
            framed_from(old(out)@, final(out)@, old(self).open is Some, final(self).open is Some),
    {
        match self.held.take() {
            Some(held) => {
                let line = held.line;
                self.publish(line, held.due(), out);
            },
            None => {
                proof {
                    lemma_framed_still(old(out)@, old(self).open is Some);
                }
            },
        }
    }

    /// Holds a row that may still be the echo of what was submitted: within the echo window,
    /// one row at a time, appended to while it is the same row. Text past the window can no
    /// longer be an echo and is let go, as is all of it when nothing waits for an echo.
    fn hold(&mut self, id: LineId, due: Due, out: &mut Vec<PumpAction>)
        requires
            old(self).wf(),
        ensures
            same_config(*old(self), *final(self)),
            final(self).wf(),
            final(self).submitted == old(self).submitted,
            final(self).far_end == old(self).far_end,
            final(self).self_talk == old(self).self_talk,
            final(self).interrupted == old(self).interrupted,
            final(self).integration == old(self).integration,
            old(self).open is Some ==> final(self).open == old(self).open,
            match final(self).held {
                Some(h) => h.line == id && byte_len(h.text@) <= longest(old(self).submitted@) + 1
                    && longest(old(self).submitted@) > 0,
                None => true,
            },
            framed_from(old(out)@, final(out)@, old(self).open is Some, final(self).open is Some),
    {
        let longest = self.longest_pending();
        if longest == 0 {
            self.spill(out);
            self.publish(id, due, out);
            return;
        }
        let same_row = match &self.held {
            Some(held) => held.line == id,
            None => false,
        };
        if !same_row {
            self.spill(out);
        } else {
            proof {
                lemma_framed_still(old(out)@, old(self).open is Some);
            }
        }
        let ghost mid = out@;
        match self.held.take() {
            Some(mut held) => {
                held.absorb(due);
                self.held = Some(held);
            },
            None => {
                self.held = Some(Held::of(id, due));
            },
        }
        let too_long = match &self.held {
            Some(held) => exceeds(byte_count(held.text.as_str()), longest),
            None => false,
        };
        if too_long {
            self.spill(out);
        } else {
            proof {
                lemma_framed_still(mid, self.open is Some);
            }
        }
    }

    /// Says a prompt once its drawing finished: not while the far end is still drawing it,
    /// not when blank, and not when it is the prompt already standing. A repaint is told
    /// apart from a new prompt by whether a command started or ended since, never by the
    /// text: only that clears the standing prompt.
    fn prompt_finished(&mut self, out: &mut Vec<PumpAction>)
        ensures
            same_config(*old(self), *final(self)),
            ({
                let region = old(self).tracker@.region;
                match old(self).drawing {
                    Some(drawn) if region != Region::Prompt => {
                        let repeated = match old(self).standing {
                            Some(t) => t@ == drawn@,
                            None => false,
                        };
                        if is_blank(drawn@) || repeated {
                            &&& *final(self) == (Pump { drawing: None, ..*old(self) })
                            &&& final(out)@ == old(out)@
                        } else {
                            &&& final(self).standing matches Some(t) && t@ == drawn@
                            &&& final(self).drawing is None
                            &&& *final(self) == (Pump { drawing: None, standing: final(self).standing, ..*old(self) })
                            &&& final(out)@.len() == old(out)@.len() + 1
                            &&& final(out)@.take(old(out)@.len() as int) == old(out)@
                            &&& final(out)@.last() matches PumpAction::Send(SessionInput::PromptDrawn { text }) && text@ == drawn@
                        }
                    },
                    _ => *final(self) == *old(self) && final(out)@ == old(out)@,
                }
            }),
            framed_from(old(out)@, final(out)@, old(self).open is Some, final(self).open is Some),
    {
        if self.tracker.region() == Region::Prompt {
            proof {
                lemma_framed_still(old(out)@, old(self).open is Some);
            }
            return;
        }
        let drawn = match self.drawing.take() {
            Some(drawn) => drawn,
            None => {
                proof {
                    lemma_framed_still(old(out)@, old(self).open is Some);
                }
                return;
            },
        };
        let repeated = match &self.standing {
            Some(standing) => crate::text::same_text(standing.as_str(), drawn.as_str()),
            None => false,
        };
        if crate::text::blank(drawn.as_str()) || repeated {
            proof {
                lemma_framed_still(old(out)@, old(self).open is Some);
            }
            return;
        }
        self.standing = Some(copied(drawn.as_str()));
        let ghost action = PumpAction::Send(SessionInput::PromptDrawn { text: drawn });
        self.send(SessionInput::PromptDrawn { text: drawn }, out);
        proof {
            lemma_framed_push(old(out)@, action, old(self).open is Some);
            assert(final(out)@.take(old(out)@.len() as int) =~= old(out)@);
        }
    }

    /// Keeps what the far end draws as its prompt, for a shell that reports exit codes and
    /// so says its prompt apart from any block; anything drawn elsewhere finishes it.
    fn drawn(&mut self, region: Region, text: &str, revision: LineRevision, out: &mut Vec<PumpAction>)
        requires
            old(self).wf(),
        ensures
            same_config(*old(self), *final(self)),
            final(self).wf(),
            final(self).open == old(self).open,
            final(self).submitted == old(self).submitted,
            final(self).held == old(self).held,
            final(self).far_end == old(self).far_end,
            final(self).self_talk == old(self).self_talk,
            final(self).interrupted == old(self).interrupted,
            final(self).lines == old(self).lines,
            final(self).tracker == old(self).tracker,
            final(self).integration == old(self).integration,
            final(self).pending_row == old(self).pending_row,
            framed_from(old(out)@, final(out)@, old(self).open is Some, final(self).open is Some),
    {
        if !self.markers.reports_exit_code() {
            proof {
                lemma_framed_still(old(out)@, old(self).open is Some);
            }
            return;
        }
        match region {
            Region::Prompt => {
                let mut drawing = match self.drawing.take() {
                    Some(drawing) => drawing,
                    None => String::new(),
                };
                match revision {
                    LineRevision::Appended => drawing.append(text),
                    _ => {
                        drawing = copied(text);
                    },
                }
                self.drawing = Some(drawing);
                proof {
                    lemma_framed_still(old(out)@, old(self).open is Some);
                }
            },
            _ => self.prompt_finished(out),
        }
    }

    /// All of a line's text the pump has seen.
    fn row_text(&self, id: LineId) -> (r: String)
        requires
            self.wf(),
        ensures
            r@ == text_of(self.lines@, id),
    {
        match self.find_row(id) {
            Some(i) => {
                proof {
                    lemma_row_index(self.lines@, id, i as int);
                }
                copied(self.lines[i].text.as_str())
            },
            None => String::new(),
        }
    }

    /// Records how a row changed while the far end owns the line and a key is out: what it
    /// said when the key went out, and what it says now.
    fn note_change(&mut self, id: LineId, before: String, text: &str, revision: LineRevision)
        ensures
            same_config(*old(self), *final(self)),
            *final(self) == (Pump { far_end: FarEndLine { changed: final(self).far_end.changed, ..old(self).far_end }, ..*old(self) }),
            (old(self).far_end.owner != LineOwner::FarEnd || !old(self).far_end.watching)
                ==> final(self).far_end.changed == old(self).far_end.changed,
            (old(self).far_end.owner == LineOwner::FarEnd && old(self).far_end.watching) ==> noted_change(
                old(self).far_end.changed@,
                id,
                before@,
                if revision is Appended { before@ + text@ } else { text@ },
                final(self).far_end.changed@,
            ),
    {
        if self.far_end.owner != LineOwner::FarEnd || !self.far_end.watching {
            return;
        }
        let after = match revision {
            LineRevision::Appended => crate::text::concat(before.as_str(), text),
            _ => copied(text),
        };
        let mut changed: Vec<RowChange> = Vec::new();
        std::mem::swap(&mut changed, &mut self.far_end.changed);
        let ghost was = changed@;
        let i = find_on_line(changed.as_slice(), id);
        if i < changed.len() {
            let mut change = changed.remove(i);
            change.after = after;
            changed.insert(i, change);
            proof {
                assert forall|j: int| 0 <= j < was.len() && j != i implies changed@[j] == was[j] by {
                    if j < i {
                        assert(changed@[j] == was.remove(i as int)[j]);
                    } else {
                        assert(changed@[j] == was.remove(i as int)[j - 1]);
                    }
                }
            }
        } else {
            changed.push(RowChange { line: id, before, after });
            proof {
                assert(changed@.take(was.len() as int) =~= was);
            }
        }
        self.far_end.changed = changed;
    }

    /// Watches the rows a pending submission may be echoed on. The text is decided on the
    /// row's accumulated text, never on one append, since a pseudoconsole can split a line
    /// across any number of reads; it is kept within the echo window. Once the row ends in the
    /// echo of a pending line, the block before closes, held text that is this echo is
    /// dropped, what preceded the echo on that row still reaches a block, and the
    /// submission's block opens under its own id and line.
    fn boundary(&mut self, region: Region, id: LineId, text: String, revision: LineRevision, out: &mut Vec<PumpAction>)
        requires
            old(self).wf(),
        ensures
            same_config(*old(self), *final(self)),
            final(self).wf(),
            final(self).far_end == old(self).far_end,
            (region == Region::CommandLine || longest(old(self).submitted@) == 0) ==> {
                &&& *final(self) == (Pump { row: final(self).row, ..*old(self) })
                &&& final(self).row@.len() == 0
                &&& final(out)@ == old(out)@
            },
            watches(region, id, revision, longest(old(self).submitted@), old(self).pending_row)
                && (exists|i: int| first_echoed(old(self).submitted@, echo_row(old(self).row@, text@, revision, old(self).submitted@), i))
                ==> exists|i: int| {
                &&& first_echoed(old(self).submitted@, echo_row(old(self).row@, text@, revision, old(self).submitted@), i)
                &&& final(self).open == Some(old(self).submitted@[i].id)
                &&& final(self).submitted@ == old(self).submitted@.skip(i + 1)
                &&& final(self).row@.len() == 0
                &&& final(out)@.len() >= old(out)@.len() + 2
                &&& final(out)@[final(out)@.len() - 2] matches PumpAction::Send(
                    SessionInput::CommandStarted { command_id, command_line: Some(l) },
                ) && command_id == old(self).submitted@[i].id && l@ == old(self).submitted@[i].line@
            },
            watches(region, id, revision, longest(old(self).submitted@), old(self).pending_row)
                && !(exists|i: int| first_echoed(old(self).submitted@, echo_row(old(self).row@, text@, revision, old(self).submitted@), i))
                ==> {
                &&& *final(self) == (Pump { row: final(self).row, ..*old(self) })
                &&& final(self).row@ == echo_row(old(self).row@, text@, revision, old(self).submitted@)
                &&& final(out)@ == old(out)@
            },
            framed_from(old(out)@, final(out)@, old(self).open is Some, final(self).open is Some),
    {
        if region == Region::CommandLine {
            self.row = String::new();
            proof {
                lemma_framed_still(old(out)@, old(self).open is Some);
            }
            return;
        }
        let widest = self.longest_pending();
        if widest == 0 {
            self.row = String::new();
            proof {
                lemma_framed_still(old(out)@, old(self).open is Some);
            }
            return;
        }
        match revision {
            LineRevision::Appended => self.row.append(text.as_str()),
            _ => {
                if self.pending_row == Some(id) {
                    self.row = copied(text.as_str());
                } else {
                    self.row = String::new();
                    proof {
                        lemma_framed_still(old(out)@, old(self).open is Some);
                    }
                    return;
                }
            },
        }
        self.row = kept_within(self.row.as_str(), widest);
        let ghost kept = self.row@;
        proof {
            assert(kept == echo_row(old(self).row@, text@, revision, old(self).submitted@));
            assert(self.submitted == old(self).submitted);
        }
        let index = match self.echoed(self.row.as_str()) {
            Some(index) => index,
            None => {
                proof {
                    lemma_framed_still(old(out)@, old(self).open is Some);
                    assert forall|i: int| !first_echoed(old(self).submitted@, kept, i) by {
                        if 0 <= i < old(self).submitted@.len() {
                            assert(!echoes(kept, self.submitted@[i].line@));
                        }
                    }
                }
                return;
            },
        };
        let ghost chosen = index as int;
        let submitted = self.adopt(index);
        let ghost taken = submitted;
        proof {
            assert(taken == old(self).submitted@[chosen]);
        }
        let whole: Option<&str> = match revision {
            LineRevision::Appended => None,
            _ => Some(text.as_str()),
        };
        let ghost start = out@;
        let ghost start_open = self.open is Some;
        match self.held.take() {
            Some(held) => {
                let line = held.line;
                let echo = trimmed(submitted.line.as_str());
                match before_echo(held.text.as_str(), whole, echo.as_str()) {
                    Some(before) => {
                        if before.as_str().unicode_len() == 0 {
                            proof {
                                lemma_framed_still(start, start_open);
                            }
                        } else {
                            let mut due = held.due();
                            due.text = before;
                            self.publish(line, due, out);
                        }
                    },
                    None => self.publish(line, held.due(), out),
                }
            },
            None => {
                proof {
                    lemma_framed_still(start, start_open);
                }
            },
        }
        self.close(None, out);
        self.open_block(submitted.id, Some(submitted.line), out);
        let ghost mid = out@;
        self.settle_running(out);
        proof {
            lemma_framed_push(mid, PumpAction::Running(true), true);
            assert(out@[out@.len() - 2] == mid.last());
            assert(mid.last() matches PumpAction::Send(SessionInput::CommandStarted { command_id, command_line: Some(l) })
                && command_id == taken.id && l@ == taken.line@);
        }
        self.row = String::new();
        proof {
            assert(first_echoed(old(self).submitted@, kept, chosen));
            assert(self.open == Some(old(self).submitted@[chosen].id));
            assert(self.submitted@ == old(self).submitted@.skip(chosen + 1));
            assert(out@.len() >= old(out)@.len() + 2);
            assert({
                &&& first_echoed(old(self).submitted@, kept, chosen)
                &&& self.open == Some(old(self).submitted@[chosen].id)
                &&& self.submitted@ == old(self).submitted@.skip(chosen + 1)
                &&& self.row@.len() == 0
                &&& out@.len() >= old(out)@.len() + 2
                &&& out@[out@.len() - 2] matches PumpAction::Send(
                    SessionInput::CommandStarted { command_id, command_line: Some(l) },
                ) && command_id == old(self).submitted@[chosen].id && l@ == old(self).submitted@[chosen].line@
            });
        }
    }

    /// A block started at the far end. It belongs to the submission whose echo the shell
    /// drew, else to the oldest pending one, else to nobody; it is named by that echo, or
    /// by the pump's own line; a block nobody submitted or named is nobody's. A block already
    /// open with nothing pending is this one, which its echo already opened. The echo is
    /// taken either way, so it is never offered to the next block.
    fn block_started(&mut self, out: &mut Vec<PumpAction>)
        requires
            old(self).wf(),
        ensures
            same_config(*old(self), *final(self)),
            final(self).wf(),
            final(self).far_end == old(self).far_end,
            final(self).held == old(self).held,
            (old(self).open is Some && old(self).submitted@.len() == 0) ==> final(out)@ == old(out)@
                && final(self).open == old(self).open,
            !(old(self).open is Some && old(self).submitted@.len() == 0) ==> final(self).open is Some,
            !(old(self).open is Some && old(self).submitted@.len() == 0) ==> exists|taken: Submitted| {
                &&& claimed(old(self).submitted@, echo_taken(old(self).echo.echoed()), final(self).submitted@, taken)
                &&& final(self).open == Some(taken.id)
                &&& final(self).barren == (taken.minted && echo_taken(old(self).echo.echoed()) is None
                    && !(taken.ours && !is_blank(taken.line@)))
            },
            framed_from(old(out)@, final(out)@, old(self).open is Some, final(self).open is Some),
    {
        let echoed = self.echo.take();
        let ghost said = echo_taken(old(self).echo.echoed());
        proof {
            assert(match echoed {
                Some(e) => said == Some(e@),
                None => said is None,
            });
        }
        if self.open.is_some() && self.submitted.len() == 0 {
            proof {
                lemma_framed_still(old(out)@, true);
            }
            return;
        }
        self.close(None, out);
        proof {
            assert(self.submitted == old(self).submitted);
        }
        let owner = match &echoed {
            Some(e) => self.claim(Some(e.as_str())),
            None => self.claim(None),
        };
        let ghost taken = owner;
        let named = match echoed {
            Some(e) => Some(e),
            None => {
                if owner.ours && !crate::text::blank(owner.line.as_str()) {
                    Some(owner.line)
                } else {
                    None
                }
            },
        };
        let nobodys = owner.minted && named.is_none();
        proof {
            crate::text::lemma_trim_blank(taken.line@);
        }
        self.open_block(owner.id, named, out);
        self.barren = nobodys;
        let ghost mid = out@;
        self.settle_running(out);
        proof {
            lemma_framed_push(mid, PumpAction::Running(true), true);
            assert(claimed(old(self).submitted@, said, self.submitted@, taken));
        }
    }

    /// One line of the far end's, in the region the tracker put it in.
    fn line(&mut self, region: Region, id: LineId, text: String, revision: LineRevision, out: &mut Vec<PumpAction>)
        requires
            old(self).wf(),
        ensures
            same_config(*old(self), *final(self)),
            final(self).wf(),
            final(self).far_end.owner == old(self).far_end.owner,
            final(self).far_end.watching == old(self).far_end.watching,
            final(self).far_end.awaiting_prompt == old(self).far_end.awaiting_prompt,
            (revision == LineRevision::Appended && wanted(old(self).integration, old(self).markers, region)
                && old(self).open is Some && !(old(self).pending_row == Some(id) && longest(old(self).submitted@) > 0))
                ==> exists|k: int| old(out)@.len() <= k < final(out)@.len() && outputs(
                    #[trigger] final(out)@[k],
                    id,
                    LineRevision::Appended,
                    text@,
                    !anchored_on(old(self).far_end.owner, old(self).far_end.anchor, id),
                    region == Region::Prompt,
                ),
            (old(self).open is Some && old(self).submitted@.len() == 0) ==> {
                &&& final(self).open == old(self).open
                &&& final(self).submitted == old(self).submitted
                &&& final(self).integration == old(self).integration
            },
            framed_from(old(out)@, final(out)@, old(self).open is Some, final(self).open is Some),
    {
        self.drawn(region, text.as_str(), revision, out);
        let ghost after_drawn = out@;
        let ghost open_drawn = self.open is Some;
        self.echo.observe(region, text.as_str(), revision);
        match revision {
            LineRevision::Settled => {},
            _ => {
                self.cursor = Some(id);
            },
        }
        // Read before `due` writes the row: the far-end rule compares what it said when the
        // key went out.
        let before = self.row_text(id);
        let due = self.due(id, copied(text.as_str()), revision, region == Region::Prompt);
        self.note_change(id, before, text.as_str(), revision);
        let ghost mut witness: int = -1;
        match due {
            Some(due) => {
                if self.wants(region) {
                    // Held with no block open, since the actor drops text while nothing is
                    // active, and on the row a submission is pending on, since what lands
                    // there is its echo.
                    if self.open.is_some() && !self.pending_echo(id) {
                        self.output(id, due, out);
                        proof {
                            witness = after_drawn.len() as int;
                        }
                    } else {
                        self.hold(id, due, out);
                    }
                } else if self.far_end.owner == LineOwner::FarEnd {
                    // Kept until the batch settles, when it is known which row was the
                    // command line.
                    self.far_end.printed.push((id, due));
                    proof {
                        lemma_framed_still(after_drawn, open_drawn);
                    }
                } else {
                    proof {
                        lemma_framed_still(after_drawn, open_drawn);
                    }
                }
            },
            None => {
                proof {
                    lemma_framed_still(after_drawn, open_drawn);
                }
            },
        }
        let ghost placed = out@;
        self.boundary(region, id, text, revision, out);
        if self.longest_pending() == 0 {
            self.spill(out);
        } else {
            proof {
                lemma_framed_still(out@, self.open is Some);
            }
        }
        proof {
            if witness >= 0 {
                assert(out@.take(placed.len() as int)[witness] == placed[witness]);
            }
        }
    }

    /// Throws away what the line editor may have queued in front of a submission: a
    /// cursor-position answer ConPTY writes into `cmd.exe`'s own input would otherwise be read
    /// ahead of the line. Only at a prompt with nothing else pending, since the byte is a
    /// keypress to a program reading raw input, and always as a write of its own, because
    /// ConPTY reads an escape followed by a letter as `Alt` plus that letter.
    fn cancel_pending_input(&self, out: &mut Vec<PumpAction>)
        ensures
            match self.discards_line {
                Some(cancel) if (self.tracker@.region == Region::Prompt || self.tracker@.region == Region::CommandLine)
                    && self.submitted@.len() == 0 => {
                    &&& final(out)@.len() == old(out)@.len() + 1
                    &&& final(out)@.take(old(out)@.len() as int) == old(out)@
                    &&& final(out)@.last() matches PumpAction::Write(bytes) && bytes@ == seq![cancel]
                },
                _ => final(out)@ == old(out)@,
            },
    {
        let cancel = match self.discards_line {
            Some(cancel) => cancel,
            None => return,
        };
        let region = self.tracker.region();
        let reading = region == Region::Prompt || region == Region::CommandLine;
        if reading && self.submitted.len() == 0 {
            let mut bytes: Vec<u8> = Vec::new();
            bytes.push(cancel);
            out.push(PumpAction::Write(bytes));
            proof {
                assert(final(out)@.take(old(out)@.len() as int) =~= old(out)@);
            }
        }
    }

    /// Writes a line and Enter, a carriage return and never a line feed. A line that is not
    /// blank waits for its echo, on the row the cursor is on.
    fn submit_line(&mut self, command_id: CommandId, line: &str, ours: bool, out: &mut Vec<PumpAction>)
        requires
            old(self).wf(),
        ensures
            same_config(*old(self), *final(self)),
            final(self).wf(),
            final(self).open == old(self).open,
            final(self).far_end == old(self).far_end,
            final(self).self_talk == old(self).self_talk,
            final(self).held == old(self).held,
            final(self).setup == old(self).setup,
            final(self).cursor == old(self).cursor,
            final(self).submitted@ == if is_blank(line@) {
                old(self).submitted@
            } else {
                old(self).submitted@.push(Submitted { id: command_id, line: final(self).submitted@.last().line, ours, minted: false })
            },
            !is_blank(line@) ==> final(self).submitted@.last().line@ == line@,
            final(out)@.len() >= old(out)@.len() + 2,
            final(out)@[final(out)@.len() - 2] matches PumpAction::Write(bytes) && bytes@ == encode_utf8(line@).push(13u8),
            final(out)@.last() == PumpAction::Running(final(self).open is Some || final(self).submitted@.len() > 0),
            framed_from(old(out)@, final(out)@, old(self).open is Some, old(self).open is Some),
    {
        // Before the queue is touched, so an empty queue still means nothing else was
        // pending and the discard byte goes out ahead of the line it protects.
        self.cancel_pending_input(out);
        let ghost after_cancel = out@;
        proof {
            if after_cancel != old(out)@ {
                lemma_framed_push(old(out)@, after_cancel.last(), old(self).open is Some);
                assert(after_cancel =~= old(out)@.push(after_cancel.last()));
            } else {
                lemma_framed_still(old(out)@, old(self).open is Some);
            }
        }
        if !crate::text::blank(line) {
            self.submitted.push_back(Submitted { id: command_id, line: copied(line), ours, minted: false });
            self.pending_row = self.cursor;
        }
        let mut bytes = utf8_bytes(line);
        bytes.push(13u8);
        let ghost written = PumpAction::Write(bytes);
        out.push(PumpAction::Write(bytes));
        proof {
            lemma_framed_push(after_cancel, written, old(self).open is Some);
        }
        let ghost mid = out@;
        self.settle_running(out);
        proof {
            lemma_framed_push(mid, PumpAction::Running(self.open is Some || self.submitted@.len() > 0), old(self).open is Some);
        }
    }

    /// Sends the setup line once the far end has drawn a row to put the cursor on: `bash`
    /// under WSL sends a first read that draws no line, and a setup sent then has its echo
    /// held together with the prompt. The session talks to itself from before the write, so
    /// a prompt already drawn and not yet read is quieted too.
    fn set_up(&mut self, out: &mut Vec<PumpAction>)
        requires
            old(self).wf(),
        ensures
            same_config(*old(self), *final(self)),
            final(self).wf(),
            final(self).open == old(self).open,
            final(self).far_end == old(self).far_end,
            final(self).cursor == old(self).cursor,
            old(self).cursor is Some ==> final(self).setup is None,
            (old(self).cursor is None || old(self).setup is None) ==> *final(self) == *old(self) && final(out)@ == old(out)@,
            (old(self).cursor is Some && old(self).setup is Some) ==> {
                &&& final(self).setup is None
                &&& final(self).self_talk is Some
                &&& final(out)@.len() > old(out)@.len()
                &&& final(out)@[old(out)@.len() as int] == PumpAction::Send(SessionInput::SelfTalk(true))
            },
            framed_from(old(out)@, final(out)@, old(self).open is Some, final(self).open is Some),
    {
        if self.cursor.is_none() {
            proof {
                lemma_framed_still(old(out)@, old(self).open is Some);
            }
            return;
        }
        let line = match self.setup.take() {
            Some(line) => line,
            None => {
                proof {
                    lemma_framed_still(old(out)@, old(self).open is Some);
                }
                return;
            },
        };
        let command_id = self.mint();
        self.self_talk = Some(command_id);
        self.send(SessionInput::SelfTalk(true), out);
        let ghost mid = out@;
        proof {
            lemma_framed_push(old(out)@, PumpAction::Send(SessionInput::SelfTalk(true)), old(self).open is Some);
        }
        self.submit_line(command_id, line.as_str(), true, out);
        proof {
            assert(out@.take(mid.len() as int) == mid);
            assert(mid[old(out)@.len() as int] == PumpAction::Send(SessionInput::SelfTalk(true)));
            assert(out@.take(mid.len() as int)[old(out)@.len() as int] == out@[old(out)@.len() as int]);
        }
    }

    /// Interrupts the far end. Closes nothing: the actor drops output arriving with no
    /// command active, and the prompt that comes back is the only answer the user gets.
    fn interrupt(&mut self, out: &mut Vec<PumpAction>)
        ensures
            same_config(*old(self), *final(self)),
            *final(self) == (Pump { interrupted: true, ..*old(self) }),
            final(out)@ == old(out)@.push(PumpAction::Interrupt),
            framed_from(old(out)@, final(out)@, old(self).open is Some, old(self).open is Some),
    {
        self.interrupted = true;
        out.push(PumpAction::Interrupt);
        proof {
            lemma_framed_push(old(out)@, PumpAction::Interrupt, old(self).open is Some);
        }
    }

    /// The grace period passed. A setup whose markers never arrive closes no block, so only
    /// this turns speech back on.
    fn grace_expired(&mut self, out: &mut Vec<PumpAction>)
        ensures
            same_config(*old(self), *final(self)),
            final(self).integration == if old(self).integration == Integration::Pending {
                Integration::Unintegrated
            } else {
                old(self).integration
            },
            final(self).self_talk is None,
            *final(self) == (Pump { integration: final(self).integration, self_talk: None, ..*old(self) }),
            final(out)@ == if old(self).self_talk is Some {
                old(out)@.push(PumpAction::Send(SessionInput::GracePeriodExpired))
                    .push(PumpAction::Send(SessionInput::SelfTalk(false)))
                    .push(PumpAction::Running(old(self).open is Some || old(self).submitted@.len() > 0))
            } else {
                old(out)@.push(PumpAction::Send(SessionInput::GracePeriodExpired))
                    .push(PumpAction::Running(old(self).open is Some || old(self).submitted@.len() > 0))
            },
            framed_from(old(out)@, final(out)@, old(self).open is Some, old(self).open is Some),
    {
        self.integration = self.integration.grace_period_expired();
        self.send(SessionInput::GracePeriodExpired, out);
        proof {
            lemma_framed_push(old(out)@, PumpAction::Send(SessionInput::GracePeriodExpired), self.open is Some);
        }
        let ghost mid = out@;
        if self.self_talk.is_some() {
            self.self_talk = None;
            self.send(SessionInput::SelfTalk(false), out);
            proof {
                lemma_framed_push(mid, PumpAction::Send(SessionInput::SelfTalk(false)), self.open is Some);
            }
        } else {
            proof {
                lemma_framed_still(mid, self.open is Some);
            }
        }
        let ghost mid2 = out@;
        self.settle_running(out);
        proof {
            lemma_framed_push(mid2, PumpAction::Running(self.open is Some || self.submitted@.len() > 0), self.open is Some);
        }
    }

    /// The far end's cursor as a caret, or `None` while it hides it.
    fn caret(engine: EngineState) -> (r: Option<Caret>)
        ensures
            r == caret_of(engine),
    {
        if engine.cursor.visible {
            Some(Caret { column: engine.cursor.column, row: engine.cursor.row })
        } else {
            None
        }
    }

    /// The anchored row from the anchor's column on, or nothing with no anchor.
    fn row_from_anchor(&self) -> (r: String)
        requires
            self.wf(),
        ensures
            r@ == from_anchor(self.lines@, self.far_end.anchor),
    {
        match self.far_end.anchor {
            Some(anchor) => {
                let row = self.row_text(anchor.line);
                text_from_column(row.as_str(), anchor.column)
            },
            None => String::new(),
        }
    }

    /// Hands the listener the far end's command line: the text, when there is new text, and
    /// the caret, in characters.
    fn far_end_line(&mut self, text: Option<String>, caret: usize, anchored: bool, out: &mut Vec<PumpAction>)
        ensures
            same_config(*old(self), *final(self)),
            *final(self) == (Pump { far_end: FarEndLine { held: final(self).far_end.held, ..old(self).far_end }, ..*old(self) }),
            final(self).far_end.held@ == match text {
                Some(t) => t@,
                None => old(self).far_end.held@,
            },
            final(out)@.len() == old(out)@.len() + 1,
            final(out)@.take(old(out)@.len() as int) == old(out)@,
            final(out)@.last() matches PumpAction::Send(SessionInput::FarEndLine { text: t, caret: c, anchored: a })
                && a == anchored
                && c == (if caret > u32::MAX { u32::MAX } else { caret as u32 })
                && match (t, text) {
                    (Some(x), Some(y)) => x@ == y@,
                    (None, None) => true,
                    _ => false,
                },
            framed_from(old(out)@, final(out)@, old(self).open is Some, old(self).open is Some),
    {
        match &text {
            Some(t) => {
                self.far_end.held = copied(t.as_str());
            },
            None => {},
        }
        let caret: u32 = if caret > u32::MAX as usize {
            u32::MAX
        } else {
            caret as u32
        };
        let ghost action = PumpAction::Send(SessionInput::FarEndLine { text, caret, anchored });
        self.send(SessionInput::FarEndLine { text, caret, anchored }, out);
        proof {
            lemma_framed_push(old(out)@, action, old(self).open is Some);
            assert(final(out)@.take(old(out)@.len() as int) =~= old(out)@);
        }
    }

    /// Anchors the command line where the visible cursor is, and hands over what stands
    /// from there. Nothing is taken from a hidden cursor: `gh` hides it for a selection
    /// prompt and parks it on the blank row below the options.
    fn anchor_here(&mut self, engine: EngineState, out: &mut Vec<PumpAction>)
        requires
            old(self).wf(),
        ensures
            same_config(*old(self), *final(self)),
            final(self).wf(),
            *final(self) == (Pump {
                far_end: FarEndLine { anchor: final(self).far_end.anchor, held: final(self).far_end.held, ..old(self).far_end },
                ..*old(self)
            }),
            (!engine.cursor.visible || old(self).cursor is None) ==> *final(self) == *old(self) && final(out)@ == old(out)@,
            (engine.cursor.visible && old(self).cursor is Some) ==> {
                &&& final(self).far_end.anchor == Some(Anchor { line: old(self).cursor.unwrap(), column: engine.cursor.column })
                &&& final(out)@.len() == old(out)@.len() + 1
                &&& final(out)@.last() matches PumpAction::Send(SessionInput::FarEndLine { text: Some(t), caret: 0, anchored: true })
                    && t@ == from_anchor(old(self).lines@, final(self).far_end.anchor)
            },
            framed_from(old(out)@, final(out)@, old(self).open is Some, old(self).open is Some),
    {
        if !engine.cursor.visible {
            proof {
                lemma_framed_still(old(out)@, old(self).open is Some);
            }
            return;
        }
        let line = match self.cursor {
            Some(line) => line,
            None => {
                proof {
                    lemma_framed_still(old(out)@, old(self).open is Some);
                }
                return;
            },
        };
        self.far_end.anchor = Some(Anchor { line, column: engine.cursor.column });
        let text = self.row_from_anchor();
        self.far_end_line(Some(text), 0, true, out);
    }

    /// `readline` in `bash` draws the command line again on a new row after listing
    /// completions; the new anchor is where what the listener already had begins on the
    /// cursor's row.
    fn follow_cursor(&mut self, engine: EngineState)
        requires
            old(self).wf(),
        ensures
            same_config(*old(self), *final(self)),
            *final(self) == (Pump { far_end: FarEndLine { anchor: final(self).far_end.anchor, ..old(self).far_end }, ..*old(self) }),
            final(self).far_end.anchor == followed(old(self).lines@, old(self).far_end.anchor, old(self).far_end.held@, old(self).cursor, engine),
    {
        if !engine.cursor.visible {
            return;
        }
        let line = match self.cursor {
            Some(line) => line,
            None => return,
        };
        match self.far_end.anchor {
            Some(anchor) => {
                if anchor.line == line {
                    return;
                }
            },
            None => {},
        }
        let held = chars_of(trimmed_end(self.far_end.held.as_str()).as_str());
        if held.len() == 0 {
            return;
        }
        let row = chars_of(trimmed_end(self.row_text(line).as_str()).as_str());
        if !crate::text::ends_with_chars(row.as_slice(), held.as_slice()) {
            return;
        }
        let column = row.len() - held.len();
        let column: u16 = if column > u16::MAX as usize {
            u16::MAX
        } else {
            column as u16
        };
        self.far_end.anchor = Some(Anchor { line, column });
    }

    /// Publishes every row the far end printed at its own prompt except the cursor's, which
    /// is the command line and belongs to the field.
    fn printed(&mut self, out: &mut Vec<PumpAction>)
        requires
            old(self).wf(),
        ensures
            same_config(*old(self), *final(self)),
            final(self).wf(),
            final(self).far_end == (FarEndLine { printed: final(self).far_end.printed, ..old(self).far_end }),
            final(self).far_end.printed@.len() == 0,
            final(self).submitted == old(self).submitted,
            final(self).lines == old(self).lines,
            final(self).cursor == old(self).cursor,
            old(self).open is Some ==> final(self).open == old(self).open,
            framed_from(old(out)@, final(out)@, old(self).open is Some, final(self).open is Some),
    {
        let mut printed: Vec<(LineId, Due)> = Vec::new();
        std::mem::swap(&mut printed, &mut self.far_end.printed);
        let ghost start_far_end = self.far_end;
        proof {
            lemma_framed_still(old(out)@, old(self).open is Some);
        }
        for entry in it: printed
            invariant
                self.wf(),
                self.far_end == start_far_end,
                same_config(*old(self), *self),
                self.far_end.printed@.len() == 0,
                self.submitted == old(self).submitted,
                self.lines == old(self).lines,
                self.cursor == old(self).cursor,
                old(self).open is Some ==> self.open == old(self).open,
                framed_from(old(out)@, out@, old(self).open is Some, self.open is Some),
        {
            let (id, due) = entry;
            if self.cursor != Some(id) {
                self.publish(id, due, out);
            }
        }
    }

    /// The far end went quiet after a key: say what the listener needs of it. Rows it
    /// printed are published; with no key out, or after Enter, the command line is anchored
    /// afresh; otherwise the anchor follows the cursor and the row, the detached row or the
    /// caret goes out, as the far-end rule decides.
    fn far_end_settled(&mut self, engine: EngineState, out: &mut Vec<PumpAction>)
        requires
            old(self).wf(),
        ensures
            same_config(*old(self), *final(self)),
            final(self).wf(),
            final(self).far_end.owner == old(self).far_end.owner,
            old(self).far_end.owner != LineOwner::FarEnd ==> *final(self) == *old(self) && final(out)@ == old(out)@,
            old(self).far_end.owner == LineOwner::FarEnd ==> !final(self).far_end.watching,
            (old(self).far_end.owner == LineOwner::FarEnd && old(self).far_end.watching && !old(self).far_end.awaiting_prompt)
                ==> answered(final(out)@, old(out)@.len() as int, settle_answer(*old(self), engine), anchor_after(*old(self), engine)),
            framed_from(old(out)@, final(out)@, old(self).open is Some, final(self).open is Some),
    {
        if self.far_end.owner != LineOwner::FarEnd {
            proof {
                lemma_framed_still(old(out)@, old(self).open is Some);
            }
            return;
        }
        self.printed(out);
        let mut changed: Vec<RowChange> = Vec::new();
        std::mem::swap(&mut changed, &mut self.far_end.changed);
        let watching = self.far_end.watching;
        self.far_end.watching = false;
        if !watching {
            self.anchor_here(engine, out);
            return;
        }
        let awaiting = self.far_end.awaiting_prompt;
        self.far_end.awaiting_prompt = false;
        if awaiting {
            self.anchor_here(engine, out);
            return;
        }
        self.follow_cursor(engine);
        let answer = far_end_row(
            &Keystroke {
                changed: changed.as_slice(),
                anchor: self.far_end.anchor,
                was: self.far_end.was,
                now: Self::caret(engine),
                held: self.far_end.held.as_str(),
            },
        );
        let anchored = self.far_end.anchor.is_some();
        let ghost before_answer = out@.len();
        proof {
            assert(answer@ == settle_answer(*old(self), engine));
        }
        match answer {
            FarEndAnswer::Row { text, caret } => self.far_end_line(Some(text), caret, true, out),
            FarEndAnswer::Detached { text } => self.far_end_line(Some(text), 0, false, out),
            FarEndAnswer::Caret { caret } => self.far_end_line(None, caret, anchored, out),
            FarEndAnswer::Nothing => {
                proof {
                    lemma_framed_still(out@, self.open is Some);
                }
            },
        }
    }

    /// Hands the command line to `owner`. Everything kept about the far end's line starts
    /// over; a far end that takes the line is anchored here, because one sitting at its
    /// prompt sends nothing more to settle on.
    fn line_owner(&mut self, owner: LineOwner, engine: EngineState, out: &mut Vec<PumpAction>)
        requires
            old(self).wf(),
        ensures
            same_config(*old(self), *final(self)),
            final(self).wf(),
            final(self).far_end.owner == owner,
            !final(self).far_end.watching,
            !final(self).far_end.awaiting_prompt,
            final(self).far_end.changed@.len() == 0,
            final(self).far_end.printed@.len() == 0,
            final(self).far_end.was is None,
            owner == LineOwner::Local ==> final(self).far_end.anchor is None && final(out)@ == old(out)@,
            (owner == LineOwner::FarEnd && engine.cursor.visible && old(self).cursor is Some) ==> {
                &&& final(self).far_end.anchor == Some(Anchor { line: old(self).cursor.unwrap(), column: engine.cursor.column })
                &&& final(out)@.len() == old(out)@.len() + 1
                &&& final(out)@.last() matches PumpAction::Send(SessionInput::FarEndLine { text: Some(t), caret: 0, anchored: true })
                    && t@ == crate::policies::from_column(text_of(old(self).lines@, old(self).cursor.unwrap()), engine.cursor.column as nat)
            },
            (owner == LineOwner::FarEnd && !(engine.cursor.visible && old(self).cursor is Some)) ==> final(out)@ == old(out)@,
            final(self).open == old(self).open,
            final(self).submitted == old(self).submitted,
            final(self).cursor == old(self).cursor,
            framed_from(old(out)@, final(out)@, old(self).open is Some, old(self).open is Some),
    {
        self.far_end.owner = owner;
        self.far_end.changed = Vec::new();
        self.far_end.watching = false;
        self.far_end.awaiting_prompt = false;
        self.far_end.was = None;
        self.far_end.held = String::new();
        self.far_end.printed = Vec::new();
        match owner {
            LineOwner::FarEnd => self.anchor_here(engine, out),
            LineOwner::Local => {
                self.far_end.anchor = None;
                proof {
                    lemma_framed_still(old(out)@, old(self).open is Some);
                }
            },
        }
    }

    /// The far end's command line was submitted with Enter: what stood from the anchor is
    /// the command, and its block opens before the key goes out, since the actor drops
    /// output arriving while nothing is active.
    fn far_end_submitted(&mut self, out: &mut Vec<PumpAction>)
        requires
            old(self).wf(),
        ensures
            same_config(*old(self), *final(self)),
            final(self).wf(),
            final(self).far_end == (FarEndLine { anchor: None, awaiting_prompt: true, ..old(self).far_end }),
            is_blank(from_anchor(old(self).lines@, old(self).far_end.anchor)) ==> final(out)@ == old(out)@
                && final(self).open == old(self).open,
            !is_blank(from_anchor(old(self).lines@, old(self).far_end.anchor)) ==> {
                &&& final(self).open is Some
                &&& final(out)@.len() >= old(out)@.len() + 2
                &&& final(out)@[final(out)@.len() - 2] matches PumpAction::Send(
                    SessionInput::CommandStarted { command_line: Some(l), .. },
                ) && l@ == trim(from_anchor(old(self).lines@, old(self).far_end.anchor))
            },
            framed_from(old(out)@, final(out)@, old(self).open is Some, final(self).open is Some),
    {
        let line = trimmed(self.row_from_anchor().as_str());
        self.far_end.anchor = None;
        self.far_end.awaiting_prompt = true;
        proof {
            crate::text::lemma_trim_blank(from_anchor(old(self).lines@, old(self).far_end.anchor));
        }
        if line.as_str().unicode_len() == 0 {
            proof {
                lemma_framed_still(old(out)@, old(self).open is Some);
            }
            return;
        }
        let command_id = self.mint();
        self.close(None, out);
        let ghost heading = line@;
        self.open_block(command_id, Some(line), out);
        let ghost mid = out@;
        self.settle_running(out);
        proof {
            lemma_framed_push(mid, PumpAction::Running(true), true);
            assert(out@[out@.len() - 2] == mid.last());
        }
    }

    /// A key for the far end: its bytes go out as a terminal spells them in the modes the far
    /// end asked for, after Enter has opened the submitted line's block, and the rows it
    /// changes are watched from the cursor it went out at.
    fn far_end_key(&mut self, key: KeyPress, engine: EngineState, out: &mut Vec<PumpAction>)
        requires
            old(self).wf(),
        ensures
            same_config(*old(self), *final(self)),
            final(self).wf(),
            final(self).far_end.owner == old(self).far_end.owner,
            final(self).far_end.watching,
            final(self).far_end.was == caret_of(engine),
            final(self).far_end.changed@.len() == 0,
            final(out)@.len() > old(out)@.len(),
            final(out)@.last() matches PumpAction::Write(bytes) && bytes@ == crate::policies::wire(key, engine.modes),
            key.key != Key::Enter ==> final(out)@.len() == old(out)@.len() + 1 && final(self).open == old(self).open,
            (key.key == Key::Enter && !is_blank(from_anchor(old(self).lines@, old(self).far_end.anchor))) ==> {
                &&& final(self).open is Some
                &&& final(out)@.len() >= old(out)@.len() + 3
                &&& final(out)@[final(out)@.len() - 3] matches PumpAction::Send(
                    SessionInput::CommandStarted { command_line: Some(l), .. },
                ) && l@ == trim(from_anchor(old(self).lines@, old(self).far_end.anchor))
            },
            framed_from(old(out)@, final(out)@, old(self).open is Some, final(self).open is Some),
    {
        let bytes = key_bytes(&key, engine.modes);
        if key.key == Key::Enter {
            self.far_end_submitted(out);
        } else {
            proof {
                lemma_framed_still(old(out)@, old(self).open is Some);
            }
        }
        self.far_end.was = Self::caret(engine);
        self.far_end.changed = Vec::new();
        self.far_end.watching = true;
        let ghost mid = out@;
        let ghost written = PumpAction::Write(bytes);
        out.push(PumpAction::Write(bytes));
        proof {
            lemma_framed_push(mid, written, self.open is Some);
            if mid.len() >= 2 {
                assert(out@[out@.len() - 3] == mid[mid.len() - 2]);
            }
        }
    }

    /// Pastes text into the far end's command line, bracketed when the far end asked for
    /// bracketed paste; only while the far end owns the line.
    fn paste(&self, text: &str, engine: EngineState, out: &mut Vec<PumpAction>)
        ensures
            self.far_end.owner != LineOwner::FarEnd ==> final(out)@ == old(out)@,
            self.far_end.owner == LineOwner::FarEnd ==> {
                &&& final(out)@ == old(out)@.push(final(out)@.last())
                &&& final(out)@.last() matches PumpAction::Write(bytes) && bytes@ == pasted(text@, engine.modes)
            },
            framed_from(old(out)@, final(out)@, self.open is Some, self.open is Some),
    {
        if self.far_end.owner != LineOwner::FarEnd {
            proof {
                lemma_framed_still(old(out)@, self.open is Some);
            }
            return;
        }
        let mut bytes: Vec<u8> = Vec::new();
        let body = utf8_bytes(text);
        if engine.modes.bracketed_paste {
            bytes = bracket_start();
            let mut i: usize = 0;
            let ghost start = bytes@;
            while i < body.len()
                invariant
                    i <= body@.len(),
                    bytes@ == start + body@.take(i as int),
                decreases body.len() - i,
            {
                bytes.push(body[i]);
                proof {
                    assert(body@.take(i + 1) =~= body@.take(i as int).push(body@[i as int]));
                }
                i += 1;
            }
            let end = bracket_end();
            let mut j: usize = 0;
            let ghost middle = bytes@;
            while j < end.len()
                invariant
                    j <= end@.len(),
                    bytes@ == middle + end@.take(j as int),
                decreases end.len() - j,
            {
                bytes.push(end[j]);
                proof {
                    assert(end@.take(j + 1) =~= end@.take(j as int).push(end@[j as int]));
                }
                j += 1;
            }
            proof {
                assert(body@.take(body@.len() as int) =~= body@);
                assert(end@.take(end@.len() as int) =~= end@);
            }
        } else {
            bytes = body;
        }
        let ghost written = PumpAction::Write(bytes);
        out.push(PumpAction::Write(bytes));
        proof {
            lemma_framed_push(old(out)@, written, self.open is Some);
        }
    }

    /// What the engine made of one read, item by item: markers and screens go to the actor,
    /// blocks open and close, lines land where their region says. A prompt is said inside the
    /// loop, so it goes out before output later in the same read, and once more after it,
    /// since a read holding only the marker that ends the prompt produces no event yet
    /// finishes it. The engine's replies to device queries go back last: a program that asked
    /// waits forever unless they are written.
    fn feed(&mut self, items: Vec<TerminalItem>, replies: Vec<u8>, out: &mut Vec<PumpAction>)
        requires
            old(self).wf(),
        ensures
            same_config(Pump { tracker: final(self).tracker, ..*old(self) }, *final(self)),
            final(self).tracker@ == observed(old(self).tracker@, items@).0,
            forall|k: int|
                0 <= k < observed(old(self).tracker@, items@).1.len() && (#[trigger] told_of(
                    observed(old(self).tracker@, items@).1[k],
                )) is Some ==> sent_in(final(out)@, PumpAction::Send(told_of(observed(old(self).tracker@, items@).1[k])->0)),
            (old(self).open is Some && old(self).submitted@.len() == 0 && !has_marker(items@)) ==> forall|k: int|
                0 <= k < observed(old(self).tracker@, items@).1.len() && relayed_line(
                    #[trigger] observed(old(self).tracker@, items@).1[k],
                    old(self).integration,
                    old(self).markers,
                ) ==> line_of_reached(final(out)@, observed(old(self).tracker@, items@).1[k]),
            final(self).wf(),
            final(self).far_end.owner == old(self).far_end.owner,
            final(self).far_end.watching == old(self).far_end.watching,
            final(self).far_end.awaiting_prompt == old(self).far_end.awaiting_prompt,
            replies@.len() > 0 ==> final(out)@.len() > 0 && final(out)@.last() == PumpAction::Write(replies),
            framed_from(old(out)@, final(out)@, old(self).open is Some, final(self).open is Some),
    {
        let ghost all = items@;
        let events = self.tracker.observe(items);
        let ghost evs = events@;
        let ghost observing = *self;
        let ghost calm: bool = old(self).open is Some && old(self).submitted@.len() == 0 && !has_marker(all);
        proof {
            lemma_framed_still(old(out)@, old(self).open is Some);
            if calm {
                lemma_unmarked_batch_tells_no_boundary(old(self).tracker@, all);
            }
        }
        for event in it: events
            invariant
                self.wf(),
                it.seq() == evs,
                evs == observed(old(self).tracker@, all).1,
                observing.tracker@ == observed(old(self).tracker@, all).0,
                same_config(observing, *self),
                same_config(Pump { tracker: observing.tracker, ..*old(self) }, observing),
                forall|k: int|
                    0 <= k < it.index() && (#[trigger] told_of(evs[k])) is Some ==> sent_in(
                        out@,
                        PumpAction::Send(told_of(evs[k])->0),
                    ),
                self.far_end.owner == old(self).far_end.owner,
                self.far_end.watching == old(self).far_end.watching,
                self.far_end.awaiting_prompt == old(self).far_end.awaiting_prompt,
                framed_from(old(out)@, out@, old(self).open is Some, self.open is Some),
                calm ==> old(self).open is Some && old(self).submitted@.len() == 0,
                calm ==> forall|k: int| 0 <= k < evs.len() ==> (#[trigger] evs[k]) is Line || evs[k] is ScreenChanged,
                calm ==> {
                    &&& self.open == old(self).open
                    &&& self.submitted == old(self).submitted
                    &&& self.integration == old(self).integration
                },
                calm ==> forall|k: int|
                    0 <= k < it.index() && relayed_line(#[trigger] evs[k], old(self).integration, old(self).markers)
                        ==> line_of_reached(out@, evs[k]),
        {
            let ghost before = out@;
            let ghost was_open = self.open is Some;
            match event {
                BoundaryEvent::MarkersObserved => {
                    self.integration = self.integration.markers_observed();
                    self.send(SessionInput::MarkersObserved, out);
                    proof {
                        lemma_framed_push(before, PumpAction::Send(SessionInput::MarkersObserved), was_open);
                    }
                },
                BoundaryEvent::BlockStarted => {
                    self.standing = None;
                    self.block_started(out);
                },
                BoundaryEvent::Line { region, id, text, revision } => {
                    self.line(region, id, text, revision, out);
                },
                BoundaryEvent::BlockEnded { exit } => {
                    self.standing = None;
                    self.close(exit, out);
                },
                BoundaryEvent::ScreenChanged(screen) => {
                    let input = match screen {
                        Screen::Alternate => SessionInput::AltScreenEntered,
                        Screen::Normal => SessionInput::AltScreenLeft,
                    };
                    let ghost action = PumpAction::Send(input);
                    self.send(input, out);
                    proof {
                        lemma_framed_push(before, action, was_open);
                    }
                },
            }
            let ghost mid = out@;
            proof {
                if told_of(evs[it.index() as int]) is Some {
                    assert(mid[mid.len() - 1] == PumpAction::Send(told_of(evs[it.index() as int])->0));
                }
                if calm {
                    assert(longest(old(self).submitted@) == 0);
                    assert(evs[it.index() as int] is Line || evs[it.index() as int] is ScreenChanged);
                    assert forall|k: int|
                        0 <= k <= it.index() && relayed_line(#[trigger] evs[k], old(self).integration, old(self).markers)
                            implies line_of_reached(mid, evs[k]) by {
                        if k < it.index() {
                            lemma_still_reached(before, mid, evs[k]);
                        }
                    }
                }
            }
            self.prompt_finished(out);
            proof {
                if calm {
                    assert forall|k: int|
                        0 <= k <= it.index() && relayed_line(#[trigger] evs[k], old(self).integration, old(self).markers)
                            implies line_of_reached(out@, evs[k]) by {
                        lemma_still_reached(mid, out@, evs[k]);
                    }
                }
                assert forall|k: int|
                    0 <= k <= it.index() && (#[trigger] told_of(evs[k])) is Some implies sent_in(
                        out@,
                        PumpAction::Send(told_of(evs[k])->0),
                    ) by {
                    if k < it.index() {
                        lemma_still_sent(before, mid, PumpAction::Send(told_of(evs[k])->0));
                    }
                    lemma_still_sent(mid, out@, PumpAction::Send(told_of(evs[k])->0));
                }
            }
        }
        let ghost looped = out@;
        self.prompt_finished(out);
        if replies.len() > 0 {
            let ghost mid = out@;
            let ghost written = PumpAction::Write(replies);
            out.push(PumpAction::Write(replies));
            proof {
                lemma_framed_push(mid, written, self.open is Some);
            }
        }
        proof {
            assert forall|k: int|
                0 <= k < evs.len() && (#[trigger] told_of(evs[k])) is Some implies sent_in(
                    out@,
                    PumpAction::Send(told_of(evs[k])->0),
                ) by {
                lemma_still_sent(looped, out@, PumpAction::Send(told_of(evs[k])->0));
            }
            if calm {
                assert forall|k: int|
                    0 <= k < evs.len() && relayed_line(#[trigger] evs[k], old(self).integration, old(self).markers)
                        implies line_of_reached(out@, evs[k]) by {
                    lemma_still_reached(looped, out@, evs[k]);
                }
            }
        }
    }

    /// One read from the transport: the items the engine made of it, the replies the engine
    /// queued, and the engine's cursor and modes after it. The first read is the far end
    /// connecting, and starts the grace period for shell integration. A pending setup goes out
    /// once a row is drawn. While the far end owns the line the settle timer is armed again on
    /// every read: shortly after a key the listener is waiting on, longer otherwise, since
    /// after Enter the next prompt may still be drawing.
    pub fn read(&mut self, items: Vec<TerminalItem>, replies: Vec<u8>, engine: EngineState) -> (out: Vec<PumpAction>)
        requires
            old(self).wf(),
        ensures
            final(self).wf(),
            framed(out@, old(self).block_open()) == Some(final(self).block_open()),
            final(self).heard(),
            !old(self).heard() ==> {
                &&& out@.len() >= 2
                &&& out@[0] == PumpAction::Send(SessionInput::Connection { state: ConnectionState::Connected })
                &&& out@[1] == PumpAction::ArmGrace(old(self).grace_period())
            },
            final(self).owner() == old(self).owner(),
            old(self).owner() == LineOwner::FarEnd ==> out@.len() > 0 && out@.last() == PumpAction::ArmSettled(
                if old(self).waiting_on_a_key() {
                    old(self).settle_period()
                } else {
                    old(self).quiet_period()
                },
            ),
            final(self).grace_period() == old(self).grace_period(),
            final(self).settle_period() == old(self).settle_period(),
            final(self).quiet_period() == old(self).quiet_period(),
            final(self).boundaries() == observed(old(self).boundaries(), items@).0,
            forall|k: int|
                0 <= k < observed(old(self).boundaries(), items@).1.len() && (#[trigger] told_of(
                    observed(old(self).boundaries(), items@).1[k],
                )) is Some ==> sent_in(out@, PumpAction::Send(told_of(observed(old(self).boundaries(), items@).1[k])->0)),
            replies@.len() > 0 ==> sent_in(out@, PumpAction::Write(replies)),
            final(self).cursor_row() is Some ==> !final(self).setup_pending(),
            (old(self).block_open() && !old(self).awaiting_echo() && !has_marker(items@)) ==> forall|k: int|
                0 <= k < observed(old(self).boundaries(), items@).1.len() && relayed_line(
                    #[trigger] observed(old(self).boundaries(), items@).1[k],
                    old(self).integration_status(),
                    old(self).shell_markers(),
                ) ==> line_of_reached(out@, observed(old(self).boundaries(), items@).1[k]),
    {
        let mut out: Vec<PumpAction> = Vec::new();
        proof {
            lemma_framed_still(out@, self.open is Some);
        }
        if !self.spoken {
            self.spoken = true;
            self.send(SessionInput::Connection { state: ConnectionState::Connected }, &mut out);
            out.push(PumpAction::ArmGrace(self.grace));
            proof {
                lemma_framed_push(Seq::empty(), PumpAction::Send(SessionInput::Connection { state: ConnectionState::Connected }), self.open is Some);
                lemma_framed_push(seq![PumpAction::Send(SessionInput::Connection { state: ConnectionState::Connected })], PumpAction::ArmGrace(self.grace), self.open is Some);
                assert(out@ =~= seq![PumpAction::Send(SessionInput::Connection { state: ConnectionState::Connected })].push(PumpAction::ArmGrace(self.grace)));
            }
        }
        let ghost start = out@;
        let ghost at_start = *self;
        let ghost tracked_before = self.tracker@;
        let ghost all = items@;
        let ghost answer = replies;
        self.feed(items, replies, &mut out);
        let ghost fed = out@;
        proof {
            if answer@.len() > 0 {
                assert(fed[fed.len() - 1] == PumpAction::Write(answer));
            }
        }
        self.set_up(&mut out);
        if self.far_end.owner == LineOwner::FarEnd {
            let waiting_on_a_key = self.far_end.watching && !self.far_end.awaiting_prompt;
            let wait = if waiting_on_a_key {
                self.far_end_settle
            } else {
                self.quiescence
            };
            let ghost mid = out@;
            out.push(PumpAction::ArmSettled(wait));
            proof {
                lemma_framed_push(mid, PumpAction::ArmSettled(wait), self.open is Some);
            }
        }
        proof {
            if answer@.len() > 0 {
                lemma_still_sent(fed, out@, PumpAction::Write(answer));
            }
            let evs = observed(tracked_before, all).1;
            assert forall|k: int| 0 <= k < evs.len() && (#[trigger] told_of(evs[k])) is Some implies sent_in(
                out@,
                PumpAction::Send(told_of(evs[k])->0),
            ) by {
                lemma_still_sent(fed, out@, PumpAction::Send(told_of(evs[k])->0));
            }
            assert forall|k: int|
                0 <= k < evs.len() && relayed_line(#[trigger] evs[k], at_start.integration, at_start.markers)
                    && at_start.open is Some && at_start.submitted@.len() == 0 && !has_marker(all)
                    implies line_of_reached(out@, evs[k]) by {
                lemma_still_reached(fed, out@, evs[k]);
            }
            let empty = Seq::<PumpAction>::empty();
            assert(out@.skip(0) =~= out@);
            assert(out@.take(start.len() as int) == start);
            assert(start.len() >= 2 ==> out@[0] == start[0] && out@[1] == start[1]) by {
                if start.len() >= 2 {
                    assert(out@.take(start.len() as int)[0] == out@[0]);
                    assert(out@.take(start.len() as int)[1] == out@[1]);
                }
            }
        }
        out
    }

    /// One request from the window, in the order it was asked.
    pub fn request(&mut self, request: Request, engine: EngineState) -> (out: Vec<PumpAction>)
        requires
            old(self).wf(),
        ensures
            final(self).wf(),
            framed(out@, old(self).block_open()) == Some(final(self).block_open()),
            match request {
                Request::Submit { command_id, line } => {
                    &&& out@.len() >= 2
                    &&& out@[out@.len() - 2] matches PumpAction::Write(bytes) && bytes@ == encode_utf8(line@).push(13u8)
                    &&& out@.last() == PumpAction::Running(final(self).busy())
                    &&& !is_blank(line@) ==> final(self).busy()
                },
                Request::Interrupt => out@ == seq![PumpAction::Interrupt],
                Request::Eof { bytes } => out@ == seq![PumpAction::Write(bytes)],
                Request::Key { key } => {
                    &&& out@.len() > 0
                    &&& out@.last() matches PumpAction::Write(bytes) && bytes@ == crate::policies::wire(key, engine.modes)
                    &&& (key.key == Key::Enter && !is_blank(old(self).command_line())) ==> {
                        &&& final(self).block_open()
                        &&& out@.len() >= 3
                        &&& out@[out@.len() - 3] matches PumpAction::Send(
                            SessionInput::CommandStarted { command_line: Some(l), .. },
                        ) && l@ == trim(old(self).command_line())
                    }
                },
                Request::Owner(owner) => {
                    &&& final(self).owner() == owner
                    &&& owner == LineOwner::Local ==> out@.len() == 0
                    &&& (owner == LineOwner::FarEnd && engine.cursor.visible && old(self).cursor_row() is Some) ==> {
                        &&& final(self).anchor() == Some(Anchor { line: old(self).cursor_row().unwrap(), column: engine.cursor.column })
                        &&& out@.len() == 1
                        &&& out@[0] matches PumpAction::Send(SessionInput::FarEndLine { text: Some(t), caret: 0, anchored: true })
                            && t@ == crate::policies::from_column(old(self).row_seen(old(self).cursor_row().unwrap()), engine.cursor.column as nat)
                    }
                    &&& (owner == LineOwner::FarEnd && !(engine.cursor.visible && old(self).cursor_row() is Some)) ==> out@.len() == 0
                },
                Request::Paste { text } => {
                    &&& old(self).owner() != LineOwner::FarEnd ==> out@.len() == 0
                    &&& old(self).owner() == LineOwner::FarEnd ==> out@.len() == 1
                        && (out@[0] matches PumpAction::Write(bytes) && bytes@ == pasted(text@, engine.modes))
                },
            },
            final(self).grace_period() == old(self).grace_period(),
            final(self).settle_period() == old(self).settle_period(),
            final(self).quiet_period() == old(self).quiet_period(),
    {
        let mut out: Vec<PumpAction> = Vec::new();
        let ghost empty = out@;
        match request {
            Request::Submit { command_id, line } => {
                self.submit_line(command_id, line.as_str(), false, &mut out);
            },
            Request::Interrupt => {
                self.interrupt(&mut out);
                proof {
                    assert(out@ =~= seq![PumpAction::Interrupt]);
                }
            },
            Request::Eof { bytes } => {
                let ghost written = PumpAction::Write(bytes);
                out.push(PumpAction::Write(bytes));
                proof {
                    lemma_framed_push(empty, written, self.open is Some);
                    assert(out@ =~= seq![written]);
                }
            },
            Request::Key { key } => {
                self.far_end_key(key, engine, &mut out);
            },
            Request::Owner(owner) => {
                self.line_owner(owner, engine, &mut out);
            },
            Request::Paste { text } => {
                self.paste(text.as_str(), engine, &mut out);
            },
        }
        proof {
            assert(out@.skip(0) =~= out@);
        }
        out
    }

    /// The grace period for shell integration passed.
    pub fn grace_over(&mut self) -> (out: Vec<PumpAction>)
        requires
            old(self).wf(),
        ensures
            final(self).wf(),
            !final(self).talking_to_itself(),
            final(self).block_open() == old(self).block_open(),
            final(self).busy() == old(self).busy(),
            out@[0] == PumpAction::Send(SessionInput::GracePeriodExpired),
            out@ == if old(self).talking_to_itself() {
                seq![
                    PumpAction::Send(SessionInput::GracePeriodExpired),
                    PumpAction::Send(SessionInput::SelfTalk(false)),
                    PumpAction::Running(old(self).busy()),
                ]
            } else {
                seq![PumpAction::Send(SessionInput::GracePeriodExpired), PumpAction::Running(old(self).busy())]
            },
            framed(out@, old(self).block_open()) == Some(final(self).block_open()),
            final(self).grace_period() == old(self).grace_period(),
            final(self).settle_period() == old(self).settle_period(),
            final(self).quiet_period() == old(self).quiet_period(),
    {
        let mut out: Vec<PumpAction> = Vec::new();
        self.grace_expired(&mut out);
        proof {
            assert(out@.skip(0) =~= out@);
            if old(self).self_talk is Some {
                assert(out@ =~= seq![
                    PumpAction::Send(SessionInput::GracePeriodExpired),
                    PumpAction::Send(SessionInput::SelfTalk(false)),
                    PumpAction::Running(old(self).open is Some || old(self).submitted@.len() > 0),
                ]);
            } else {
                assert(out@ =~= seq![
                    PumpAction::Send(SessionInput::GracePeriodExpired),
                    PumpAction::Running(old(self).open is Some || old(self).submitted@.len() > 0),
                ]);
            }
        }
        out
    }

    /// The far end went quiet for the settle period.
    pub fn settled(&mut self, engine: EngineState) -> (out: Vec<PumpAction>)
        requires
            old(self).wf(),
        ensures
            final(self).wf(),
            final(self).owner() == old(self).owner(),
            old(self).owner() != LineOwner::FarEnd ==> out@.len() == 0,
            old(self).owner() == LineOwner::FarEnd ==> !final(self).waiting_on_a_key(),
            (old(self).owner() == LineOwner::FarEnd && old(self).waiting_on_a_key())
                ==> answered(out@, 0, old(self).far_end_answer(engine), old(self).anchor_once_followed(engine)),
            framed(out@, old(self).block_open()) == Some(final(self).block_open()),
            final(self).grace_period() == old(self).grace_period(),
            final(self).settle_period() == old(self).settle_period(),
            final(self).quiet_period() == old(self).quiet_period(),
    {
        let mut out: Vec<PumpAction> = Vec::new();
        self.far_end_settled(engine, &mut out);
        proof {
            assert(out@.skip(0) =~= out@);
        }
        out
    }

    /// The transport's reads ended: that is the end of the session, not an error.
    pub fn hung_up(&self) -> (out: Vec<PumpAction>)
        ensures
            out@ == seq![PumpAction::Send(SessionInput::Connection { state: ConnectionState::Disconnected })],
    {
        let mut out: Vec<PumpAction> = Vec::new();
        out.push(PumpAction::Send(SessionInput::Connection { state: ConnectionState::Disconnected }));
        proof {
            assert(out@ =~= seq![PumpAction::Send(SessionInput::Connection { state: ConnectionState::Disconnected })]);
        }
        out
    }

    proof fn lemma_rows_updated(&self, before: Seq<Row>, i: int)
        requires
            distinct_rows(before),
            0 <= i < before.len(),
            self.lines@ == before.update(i, self.lines@[i]),
            self.lines@[i].line == before[i].line,
        ensures
            distinct_rows(self.lines@),
    {
        assert forall|a: int, b: int| 0 <= a < self.lines@.len() && 0 <= b < self.lines@.len() && a != b
            implies #[trigger] self.lines@[a].line != #[trigger] self.lines@[b].line by {
            assert(before[a].line != before[b].line);
        }
    }

    proof fn lemma_rows_pushed(&self, before: Seq<Row>, id: LineId)
        requires
            distinct_rows(before),
            !has_row(before, id),
            self.lines@.len() == before.len() + 1,
            self.lines@.take(before.len() as int) == before,
            self.lines@.last().line == id,
        ensures
            distinct_rows(self.lines@),
            row_at(self.lines@, id, before.len() as int),
    {
        assert forall|a: int, b: int| 0 <= a < self.lines@.len() && 0 <= b < self.lines@.len() && a != b
            implies #[trigger] self.lines@[a].line != #[trigger] self.lines@[b].line by {
            if a < before.len() && b < before.len() {
                assert(self.lines@.take(before.len() as int)[a] == before[a]);
                assert(self.lines@.take(before.len() as int)[b] == before[b]);
            } else if a < before.len() {
                assert(self.lines@.take(before.len() as int)[a] == before[a]);
                assert(!row_at(before, id, a));
            } else {
                assert(self.lines@.take(before.len() as int)[b] == before[b]);
                assert(!row_at(before, id, b));
            }
        }
    }

    proof fn lemma_rows_removed(&self, before: Seq<Row>, i: int)
        requires
            distinct_rows(before),
            0 <= i < before.len(),
            self.lines@ == before.remove(i),
        ensures
            distinct_rows(self.lines@),
            !has_row(self.lines@, before[i].line),
    {
        assert forall|a: int, b: int| 0 <= a < self.lines@.len() && 0 <= b < self.lines@.len() && a != b
            implies #[trigger] self.lines@[a].line != #[trigger] self.lines@[b].line by {
            let a0 = if a < i { a } else { a + 1 };
            let b0 = if b < i { b } else { b + 1 };
            assert(before[a0].line != before[b0].line);
        }
        if has_row(self.lines@, before[i].line) {
            let k = choose|k: int| row_at(self.lines@, before[i].line, k);
            let k0 = if k < i { k } else { k + 1 };
            assert(before[k0].line == before[i].line);
        }
    }
}


// --- The window's side -------------------------------------------------------------------

/// What a key from the window comes to before anything is queued for the pump.
#[derive(Debug, PartialEq, Eq)]
pub enum KeyRoute {
    /// Answered at once; nothing is queued.
    Answer(KeyAck),
    /// Queued for the pump: `Applied` once it is, `NothingToActOn` when nothing is left
    /// listening to take it.
    Queue(Request),
}

/// Routes a key by what it is bound to: a key for the far end is queued as itself; an
/// interrupt is queued only while a command runs or a submission is pending; the end of
/// input is queued as the shell's own bytes, and is unsupported for a shell that has none;
/// an unbound key is answered as such.
pub fn route_key(key: &KeyPress, owner: LineOwner, running: bool, eof: &Option<Vec<u8>>) -> (r: KeyRoute)
    ensures
        match crate::policies::bound(*key, owner) {
            Binding::Unbound => r == KeyRoute::Answer(KeyAck::Unbound),
            Binding::ToFarEnd => r matches KeyRoute::Queue(Request::Key { key: k }) && k == *key,
            Binding::Intent(SessionIntent::Interrupt) => if running {
                r matches KeyRoute::Queue(Request::Interrupt)
            } else {
                r == KeyRoute::Answer(KeyAck::NothingToActOn)
            },
            Binding::Intent(SessionIntent::Eof) => match eof {
                Some(b) => r matches KeyRoute::Queue(Request::Eof { bytes }) && bytes@ == b@,
                None => r == KeyRoute::Answer(KeyAck::Unsupported),
            },
        },
{
    match binding_for(key, owner) {
        Binding::Unbound => KeyRoute::Answer(KeyAck::Unbound),
        Binding::ToFarEnd => KeyRoute::Queue(Request::Key { key: *key }),
        Binding::Intent(SessionIntent::Interrupt) => {
            if running {
                KeyRoute::Queue(Request::Interrupt)
            } else {
                KeyRoute::Answer(KeyAck::NothingToActOn)
            }
        },
        Binding::Intent(SessionIntent::Eof) => match eof {
            Some(bytes) => KeyRoute::Queue(Request::Eof { bytes: vstd::slice::slice_to_vec(bytes.as_slice()) }),
            None => KeyRoute::Answer(KeyAck::Unsupported),
        },
    }
}

/// How many events a session keeps for a window that has not attached yet.
pub const BACKLOG: usize = 10_000;

/// A session's events before and after its window attaches: held, up to [`BACKLOG`] of
/// them, until it does, then handed over in order, and passed straight on after.
pub struct Backlog {
    attached: bool,
    held: Vec<SessionEvent>,
}

impl Backlog {
    pub closed spec fn is_attached(&self) -> bool {
        self.attached
    }

    pub closed spec fn waiting(&self) -> Seq<SessionEvent> {
        self.held@
    }

    pub fn new() -> (r: Self)
        ensures
            !r.is_attached(),
            r.waiting().len() == 0,
    {
        Backlog { attached: false, held: Vec::new() }
    }

    /// One event: passed on when a window is attached, else held while there is room, else
    /// dropped.
    pub fn offer(&mut self, event: SessionEvent) -> (r: Option<SessionEvent>)
        ensures
            final(self).is_attached() == old(self).is_attached(),
            old(self).is_attached() ==> r == Some(event) && final(self).waiting() == old(self).waiting(),
            !old(self).is_attached() ==> r is None && final(self).waiting() == if old(self).waiting().len() < BACKLOG {
                old(self).waiting().push(event)
            } else {
                old(self).waiting()
            },
    {
        if self.attached {
            return Some(event);
        }
        if self.held.len() < BACKLOG {
            self.held.push(event);
        }
        None
    }

    /// A window attached: everything held goes to it, in the order it came.
    pub fn attach(&mut self) -> (r: Vec<SessionEvent>)
        ensures
            final(self).is_attached(),
            final(self).waiting().len() == 0,
            r@ == old(self).waiting(),
    {
        self.attached = true;
        let mut held: Vec<SessionEvent> = Vec::new();
        std::mem::swap(&mut held, &mut self.held);
        held
    }
}

} // verus!
