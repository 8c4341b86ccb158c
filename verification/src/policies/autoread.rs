//! The auto-read and pacing policy: pure functions over `PacingState` and `PacingConfig`,
//! elapsed milliseconds in (never a clock read), a decision plus the next wake out. Owns the
//! one place output is measured (`measure`) and the one place the size threshold is applied
//! (`verdict`).

use vstd::prelude::*;

use crate::entities::{PacingConfig, PacingState, ReadMode};
use crate::text::{chars_of, is_white, is_whitespace, trim_end};

verus! {

/// The size of a span of extracted grid text, trailing whitespace trimmed per line. `chars`
/// counts the trimmed line content plus one separator between each pair of lines.
#[derive(Debug, Clone, Copy, PartialEq, Eq, Structural)]
pub struct TextSize {
    pub lines: usize,
    pub chars: usize,
}

/// What the pacing policy decided to do about a chunk, or the command's remainder.
#[derive(Debug, Clone, Copy, PartialEq, Eq, Structural)]
pub enum PacingAction {
    /// Nothing to announce: still accumulating, or suppressed by the babble guard.
    Nothing,
    /// Read this chunk aloud under the given verdict.
    Flush(ReadMode),
    /// The patience window elapsed with no quiescent gap: "still running" once.
    StillRunning,
    /// The babble guard tripped: "output continues" once, then quiet for the command.
    OutputContinues,
}

/// What to do now, and how many milliseconds from `at` to be woken next.
#[derive(Debug, Clone, Copy, PartialEq, Eq, Structural)]
pub struct PacingOutcome {
    pub action: PacingAction,
    pub wake_after: Option<u64>,
}

/// `s` cut at every line feed; one more piece than it has line feeds.
pub open spec fn split_lines(s: Seq<char>) -> Seq<Seq<char>>
    decreases s.len(),
{
    if s.len() == 0 {
        seq![seq![]]
    } else {
        let before = split_lines(s.drop_last());
        if s.last() == '\n' {
            before.push(seq![])
        } else {
            before.update(before.len() - 1, before.last().push(s.last()))
        }
    }
}

pub proof fn lemma_split_lines_nonempty(s: Seq<char>)
    ensures
        split_lines(s).len() >= 1,
    decreases s.len(),
{
    if s.len() > 0 {
        lemma_split_lines_nonempty(s.drop_last());
    }
}

/// The lines `str::lines` yields: a final line ending adds no empty line.
pub open spec fn text_lines(s: Seq<char>) -> Seq<Seq<char>> {
    if s.len() == 0 {
        seq![]
    } else if s.last() == '\n' {
        split_lines(s).drop_last()
    } else {
        split_lines(s)
    }
}

pub open spec fn trimmed_total(lines: Seq<Seq<char>>) -> nat
    decreases lines.len(),
{
    if lines.len() == 0 {
        0
    } else {
        trimmed_total(lines.drop_last()) + trim_end(lines.last()).len()
    }
}

pub open spec fn measured_lines(s: Seq<char>) -> nat {
    text_lines(s).len()
}

pub open spec fn measured_chars(s: Seq<char>) -> nat {
    let lines = text_lines(s);
    trimmed_total(lines) + if lines.len() > 0 {
        (lines.len() - 1) as nat
    } else {
        0
    }
}

pub proof fn lemma_trim_end_push(s: Seq<char>, c: char)
    ensures
        trim_end(s.push(c)).len() == if is_white(c) {
            trim_end(s).len()
        } else {
            s.len() + 1
        },
{
    assert(s.push(c).drop_last() =~= s);
    assert(s.push(c).last() == c);
}

pub proof fn lemma_trim_end_len(s: Seq<char>)
    ensures
        trim_end(s).len() <= s.len(),
    decreases s.len(),
{
    if s.len() > 0 && is_white(s.last()) {
        lemma_trim_end_len(s.drop_last());
    }
}

/// Measures extracted grid text: line count and char count with each line's trailing
/// whitespace trimmed. The one place measurement happens.
pub fn measure(text: &str) -> (r: TextSize)
    ensures
        r.lines == measured_lines(text@),
        r.chars == measured_chars(text@),
{
    let v = chars_of(text);
    let ghost s = v@;
    let mut done: usize = 0;
    let mut total: usize = 0;
    let mut seg_len: usize = 0;
    let mut trim_len: usize = 0;
    let mut i: usize = 0;
    let ghost mut completed: Seq<Seq<char>> = seq![];
    assert(s.take(0) =~= seq![]);
    assert(seq![s.subrange(0, 0)] =~= split_lines(s.take(0)));
    assert(completed.push(s.subrange(0, 0)) =~= seq![s.subrange(0, 0)]);
    while i < v.len()
        invariant
            i <= v@.len(),
            s == v@,
            v@ == text@,
            split_lines(s.take(i as int)) == completed.push(s.subrange(i - seg_len, i as int)),
            seg_len <= i,
            completed.len() == done,
            trimmed_total(completed) == total,
            trim_end(s.subrange(i - seg_len, i as int)).len() == trim_len,
            trim_len <= seg_len,
            (i > 0 && s[i - 1] != '\n') ==> seg_len > 0,
            total + done + seg_len <= i,
        decreases v.len() - i,
    {
        let c = v[i];
        let ghost prefix = s.take(i as int);
        assert(s.take(i + 1).drop_last() =~= prefix);
        assert(s.take(i + 1).last() == c);
        let ghost cur = s.subrange(i - seg_len, i as int);
        proof {
            lemma_trim_end_len(cur);
        }
        if c == '\n' {
            proof {
                assert(completed.push(cur).drop_last() =~= completed);
                completed = completed.push(cur);
                assert(s.subrange(i + 1, i + 1) =~= seq![]);
            }
            total = total + trim_len;
            done = done + 1;
            seg_len = 0;
            trim_len = 0;
        } else {
            proof {
                lemma_trim_end_push(cur, c);
                assert(cur.push(c) =~= s.subrange(i - seg_len, i + 1));
                assert(completed.push(cur).update(completed.len() as int, cur.push(c))
                    =~= completed.push(cur.push(c)));
            }
            seg_len = seg_len + 1;
            if !is_whitespace(c) {
                trim_len = seg_len;
            }
        }
        i += 1;
    }
    assert(s.take(i as int) =~= s);
    if v.len() == 0 {
        TextSize { lines: 0, chars: 0 }
    } else if v[v.len() - 1] == '\n' {
        proof {
            assert(completed.push(s.subrange(i - seg_len, i as int)).drop_last() =~= completed);
        }
        let sep = if done > 0 { done - 1 } else { 0 };
        TextSize { lines: done, chars: total + sep }
    } else {
        proof {
            assert(completed.push(s.subrange(i - seg_len, i as int)).drop_last() =~= completed);
        }
        TextSize { lines: done + 1, chars: total + trim_len + done }
    }
}

pub open spec fn read_mode_of(size: TextSize, config: PacingConfig) -> ReadMode {
    if size.lines > config.max_lines || size.chars > config.max_chars {
        ReadMode::TooBig
    } else {
        ReadMode::Auto
    }
}

/// The dual-limit threshold: over `max_lines` or over `max_chars`, whichever is exceeded
/// first.
pub fn verdict(size: TextSize, config: &PacingConfig) -> (r: ReadMode)
    ensures
        r == read_mode_of(size, *config),
{
    if size.lines > config.max_lines || size.chars > config.max_chars {
        ReadMode::TooBig
    } else {
        ReadMode::Auto
    }
}

pub open spec fn is_empty_size(size: TextSize) -> bool {
    size.lines == 0 && size.chars == 0
}

pub open spec fn saturating_sub(a: u64, b: u64) -> u64 {
    if a >= b { (a - b) as u64 } else { 0 }
}

pub open spec fn min_u64(a: u64, b: u64) -> u64 {
    if a <= b { a } else { b }
}

pub open spec fn on_output_spec(
    state: PacingState,
    config: PacingConfig,
    size: TextSize,
    at: u64,
    follow_mode: bool,
) -> (PacingState, PacingOutcome) {
    let next = PacingState { last_output_at: at, ..state };
    if follow_mode {
        (
            next,
            PacingOutcome {
                action: if is_empty_size(size) {
                    PacingAction::Nothing
                } else {
                    PacingAction::Flush(ReadMode::Auto)
                },
                wake_after: None,
            },
        )
    } else if is_empty_size(size) {
        let left = saturating_sub(config.quiescence, saturating_sub(at, state.last_output_at));
        let wake = if state.patience_fired {
            left
        } else {
            min_u64(left, saturating_sub(config.patience, at))
        };
        (state, PacingOutcome { action: PacingAction::Nothing, wake_after: Some(wake) })
    } else {
        let wake = if state.patience_fired {
            config.quiescence
        } else {
            min_u64(config.quiescence, saturating_sub(config.patience, at))
        };
        (next, PacingOutcome { action: PacingAction::Nothing, wake_after: Some(wake) })
    }
}

/// A chunk of output arrived. In follow mode every non-empty chunk flushes `Auto`
/// immediately, bypassing thresholds and the babble guard. Otherwise this only records that
/// output arrived and asks to be woken at the sooner of the quiescence window and the
/// still-pending patience deadline; an empty chunk is no output, so it does not push the
/// deadline out and the wake is what is left of the window already running.
pub fn on_output(
    state: PacingState,
    config: &PacingConfig,
    size: TextSize,
    at: u64,
    follow_mode: bool,
) -> (r: (PacingState, PacingOutcome))
    ensures
        r == on_output_spec(state, *config, size, at, follow_mode),
{
    let next = PacingState { last_output_at: at, ..state };
    if follow_mode {
        let action = if size.lines == 0 && size.chars == 0 {
            PacingAction::Nothing
        } else {
            PacingAction::Flush(ReadMode::Auto)
        };
        return (next, PacingOutcome { action, wake_after: None });
    }
    if size.lines == 0 && size.chars == 0 {
        let left = config.quiescence.saturating_sub(at.saturating_sub(state.last_output_at));
        let wake_after = if state.patience_fired {
            left
        } else {
            let patience = config.patience.saturating_sub(at);
            if left <= patience {
                left
            } else {
                patience
            }
        };
        return (state, PacingOutcome { action: PacingAction::Nothing, wake_after: Some(wake_after) });
    }
    let wake_after = if state.patience_fired {
        config.quiescence
    } else {
        let left = config.patience.saturating_sub(at);
        if config.quiescence <= left {
            config.quiescence
        } else {
            left
        }
    };
    (next, PacingOutcome { action: PacingAction::Nothing, wake_after: Some(wake_after) })
}

pub open spec fn flush_spec(state: PacingState, config: PacingConfig, unspoken: TextSize) -> (
    PacingState,
    PacingAction,
) {
    if is_empty_size(unspoken) {
        (state, PacingAction::Nothing)
    } else if read_mode_of(unspoken, config) == ReadMode::TooBig {
        (
            PacingState { consecutive_auto_reads: 0, ..state },
            PacingAction::Flush(ReadMode::TooBig),
        )
    } else if state.babble_tripped {
        (state, PacingAction::Nothing)
    } else if state.consecutive_auto_reads + 1 >= config.babble_limit {
        (
            PacingState {
                consecutive_auto_reads: (state.consecutive_auto_reads + 1) as u32,
                babble_tripped: true,
                ..state
            },
            PacingAction::OutputContinues,
        )
    } else {
        (
            PacingState {
                consecutive_auto_reads: (state.consecutive_auto_reads + 1) as u32,
                ..state
            },
            PacingAction::Flush(ReadMode::Auto),
        )
    }
}

/// Whether flushing `unspoken` can extend the auto-read streak without it overflowing: the
/// streak only grows on the auto-read path, for a span that is neither empty nor too big
/// while the guard has not tripped.
pub open spec fn streak_can_grow(state: PacingState, config: PacingConfig, unspoken: TextSize) -> bool {
    (!is_empty_size(unspoken) && read_mode_of(unspoken, config) != ReadMode::TooBig && !state.babble_tripped)
        ==> state.consecutive_auto_reads < u32::MAX
}

/// Applies the size verdict and the babble guard to one mid-command chunk. A `TooBig` verdict
/// always flushes and resets the auto-read streak. An `Auto` verdict flushes and extends the
/// streak, unless the guard already tripped (silence) or the streak reaches `babble_limit` on
/// this call (the guard trips: `OutputContinues` once).
pub fn flush_with_babble_guard(state: PacingState, config: &PacingConfig, unspoken: TextSize) -> (r:
    (PacingState, PacingAction))
    requires
        streak_can_grow(state, *config, unspoken),
    ensures
        r == flush_spec(state, *config, unspoken),
{
    if unspoken.lines == 0 && unspoken.chars == 0 {
        return (state, PacingAction::Nothing);
    }
    match verdict(unspoken, config) {
        ReadMode::TooBig => {
            let next = PacingState { consecutive_auto_reads: 0, ..state };
            (next, PacingAction::Flush(ReadMode::TooBig))
        },
        _ => {
            if state.babble_tripped {
                return (state, PacingAction::Nothing);
            }
            let count = state.consecutive_auto_reads + 1;
            if count >= config.babble_limit {
                let next = PacingState {
                    consecutive_auto_reads: count,
                    babble_tripped: true,
                    ..state
                };
                (next, PacingAction::OutputContinues)
            } else {
                let next = PacingState { consecutive_auto_reads: count, ..state };
                (next, PacingAction::Flush(ReadMode::Auto))
            }
        },
    }
}

pub open spec fn on_wake_spec(state: PacingState, config: PacingConfig, unspoken: TextSize, at: u64) -> (
    PacingState,
    PacingOutcome,
) {
    let gap = saturating_sub(at, state.last_output_at);
    if gap >= config.quiescence {
        let (next, action) = flush_spec(state, config, unspoken);
        (next, PacingOutcome { action, wake_after: None })
    } else if !state.patience_fired && at >= config.patience {
        (
            PacingState { patience_fired: true, ..state },
            PacingOutcome {
                action: PacingAction::StillRunning,
                wake_after: Some(saturating_sub(config.quiescence, gap)),
            },
        )
    } else {
        (
            state,
            PacingOutcome {
                action: PacingAction::Nothing,
                wake_after: Some(saturating_sub(config.quiescence, gap)),
            },
        )
    }
}

/// A requested wake fired. A quiescent gap since the last output flushes under the size
/// policy and the babble guard; the patience deadline reached while output is still fresh
/// fires "still running" at most once per command.
pub fn on_wake(state: PacingState, config: &PacingConfig, unspoken: TextSize, at: u64) -> (r: (
    PacingState,
    PacingOutcome,
))
    requires
        saturating_sub(at, state.last_output_at) >= config.quiescence ==> streak_can_grow(state, *config, unspoken),
    ensures
        r == on_wake_spec(state, *config, unspoken, at),
{
    let gap = at.saturating_sub(state.last_output_at);
    if gap >= config.quiescence {
        let (next_state, action) = flush_with_babble_guard(state, config, unspoken);
        return (next_state, PacingOutcome { action, wake_after: None });
    }
    let remaining_quiescence = Some(config.quiescence.saturating_sub(gap));
    if !state.patience_fired && at >= config.patience {
        let next_state = PacingState { patience_fired: true, ..state };
        return (
            next_state,
            PacingOutcome { action: PacingAction::StillRunning, wake_after: remaining_quiescence },
        );
    }
    (state, PacingOutcome { action: PacingAction::Nothing, wake_after: remaining_quiescence })
}

pub open spec fn on_command_end_spec(state: PacingState, config: PacingConfig, unspoken: TextSize) -> (
    PacingState,
    PacingOutcome,
) {
    (
        state,
        PacingOutcome {
            action: if is_empty_size(unspoken) {
                PacingAction::Nothing
            } else {
                PacingAction::Flush(read_mode_of(unspoken, config))
            },
            wake_after: None,
        },
    )
}

/// The command ended: flush whatever remains unspoken under the size policy alone; the
/// babble guard does not apply here. No wake follows.
pub fn on_command_end(state: PacingState, config: &PacingConfig, unspoken: TextSize) -> (r: (
    PacingState,
    PacingOutcome,
))
    ensures
        r == on_command_end_spec(state, *config, unspoken),
{
    let action = if unspoken.lines == 0 && unspoken.chars == 0 {
        PacingAction::Nothing
    } else {
        PacingAction::Flush(verdict(unspoken, config))
    };
    (state, PacingOutcome { action, wake_after: None })
}

/// The streak a command's state may carry: never past the limit, and at the limit only once
/// the guard has tripped.
pub open spec fn streak_kept(state: PacingState, config: PacingConfig) -> bool {
    &&& state.consecutive_auto_reads <= config.babble_limit
    &&& state.consecutive_auto_reads == config.babble_limit ==> state.babble_tripped
}

/// The babble guard's streak never exceeds `babble_limit`, whatever arrives, wakes or ends;
/// the guard, once tripped, stays tripped; and patience, once fired, stays fired.
pub proof fn lemma_pacing_keeps_its_latches(
    state: PacingState,
    config: PacingConfig,
    size: TextSize,
    at: u64,
    follow_mode: bool,
)
    requires
        config.babble_limit >= 1,
        streak_kept(state, config),
    ensures
        streak_kept(on_wake_spec(state, config, size, at).0, config),
        streak_kept(on_output_spec(state, config, size, at, follow_mode).0, config),
        streak_kept(on_command_end_spec(state, config, size).0, config),
        state.babble_tripped ==> on_wake_spec(state, config, size, at).0.babble_tripped,
        state.patience_fired ==> on_wake_spec(state, config, size, at).0.patience_fired,
        on_output_spec(state, config, size, at, follow_mode).0.babble_tripped
            == state.babble_tripped,
        on_output_spec(state, config, size, at, follow_mode).0.patience_fired
            == state.patience_fired,
        on_output_spec(state, config, size, at, follow_mode).0.consecutive_auto_reads
            == state.consecutive_auto_reads,
{
}

/// "Still running" is said at most once per command: it is only ever the answer of a wake
/// whose state had not fired patience yet, and that wake leaves it fired.
pub proof fn lemma_patience_fires_once(
    state: PacingState,
    config: PacingConfig,
    size: TextSize,
    at: u64,
)
    ensures
        on_wake_spec(state, config, size, at).1.action == PacingAction::StillRunning ==> (
        !state.patience_fired && on_wake_spec(state, config, size, at).0.patience_fired),
{
}

/// Once the guard has tripped, a chunk that is not too big is never read aloud again in
/// the same command.
pub proof fn lemma_tripped_guard_stays_quiet(
    state: PacingState,
    config: PacingConfig,
    size: TextSize,
    at: u64,
)
    requires
        state.babble_tripped,
        read_mode_of(size, config) == ReadMode::Auto,
    ensures
        on_wake_spec(state, config, size, at).1.action != PacingAction::Flush(ReadMode::Auto),
        on_wake_spec(state, config, size, at).1.action != PacingAction::OutputContinues,
{
}


proof fn lemma_trimmed_total_push(lines: Seq<Seq<char>>, line: Seq<char>)
    ensures
        trimmed_total(lines.push(line)) == trimmed_total(lines) + trim_end(line).len(),
{
    assert(lines.push(line).drop_last() =~= lines);
}

/// One more character never shrinks a text's measure.
proof fn lemma_measure_push(s: Seq<char>, c: char)
    ensures
        measured_lines(s) <= measured_lines(s.push(c)),
        measured_chars(s) <= measured_chars(s.push(c)),
{
    let t = s.push(c);
    assert(t.drop_last() =~= s);
    assert(t.last() == c);
    let sp = split_lines(s);
    lemma_split_lines_nonempty(s);
    if s.len() > 0 {
        lemma_split_lines_nonempty(s.drop_last());
    }
    let n = sp.len();
    reveal_with_fuel(trim_end, 2);
    if s.len() == 0 {
        assert(sp =~= seq![seq![]]);
        if c == '\n' {
            assert(text_lines(t) =~= seq![seq![]]);
            assert(seq![seq![]].drop_last() =~= Seq::<Seq<char>>::empty());
            lemma_trimmed_total_push(Seq::<Seq<char>>::empty(), seq![]);
            assert(seq![seq![]] =~= Seq::<Seq<char>>::empty().push(Seq::<char>::empty()));
        } else {
            assert(split_lines(t) =~= seq![seq![c]]);
            assert(seq![seq![c]] =~= Seq::<Seq<char>>::empty().push(seq![c]));
            lemma_trimmed_total_push(Seq::<Seq<char>>::empty(), seq![c]);
            assert(seq![c] =~= Seq::<char>::empty().push(c));
            lemma_trim_end_push(Seq::<char>::empty(), c);
        }
    } else if s.last() == '\n' {
        assert(sp == split_lines(s.drop_last()).push(seq![]));
        assert(sp.last() =~= Seq::<char>::empty());
        assert(sp.drop_last().push(sp.last()) =~= sp);
        lemma_trimmed_total_push(sp.drop_last(), sp.last());
        if c == '\n' {
            assert(split_lines(t) == sp.push(seq![]));
            assert(text_lines(t) =~= sp);
            } else {
            let sp2 = sp.update(n - 1, sp.last().push(c));
            assert(split_lines(t) == sp2);
            assert(sp2.drop_last() =~= sp.drop_last());
            assert(sp2.drop_last().push(sp2.last()) =~= sp2);
            lemma_trimmed_total_push(sp.drop_last(), sp2.last());
            assert(sp2.last() =~= Seq::<char>::empty().push(c));
            lemma_trim_end_push(Seq::<char>::empty(), c);
            }
    } else {
        assert(text_lines(s) == sp);
        assert(sp.drop_last().push(sp.last()) =~= sp);
        lemma_trimmed_total_push(sp.drop_last(), sp.last());
        if c == '\n' {
            assert(split_lines(t) == sp.push(seq![]));
            assert(text_lines(t) =~= sp);
        } else {
            let sp2 = sp.update(n - 1, sp.last().push(c));
            assert(split_lines(t) == sp2);
            assert(sp2.drop_last() =~= sp.drop_last());
            assert(sp2.drop_last().push(sp2.last()) =~= sp2);
            lemma_trimmed_total_push(sp.drop_last(), sp2.last());
            lemma_trim_end_push(sp.last(), c);
            lemma_trim_end_len(sp.last());
        }
    }
}

/// A text's measure grows as text is added after it.
pub proof fn lemma_measure_grows(a: Seq<char>, b: Seq<char>)
    ensures
        measured_lines(a) <= measured_lines(a + b),
        measured_chars(a) <= measured_chars(a + b),
    decreases b.len(),
{
    if b.len() == 0 {
        assert(a + b =~= a);
    } else {
        lemma_measure_grows(a, b.drop_last());
        assert(a + b =~= (a + b.drop_last()).push(b.last()));
        lemma_measure_push(a + b.drop_last(), b.last());
    }
}

/// The measure of `s`, as the pacing policy takes it.
pub open spec fn size_of_text(s: Seq<char>) -> TextSize {
    TextSize { lines: measured_lines(s) as usize, chars: measured_chars(s) as usize }
}

/// Once a span is too big to read aloud, more text never makes it small enough again.
pub proof fn lemma_too_big_stays_too_big(a: Seq<char>, b: Seq<char>, config: PacingConfig)
    requires
        measured_lines(a + b) <= usize::MAX,
        measured_chars(a + b) <= usize::MAX,
        read_mode_of(size_of_text(a), config) == ReadMode::TooBig,
    ensures
        read_mode_of(size_of_text(a + b), config) == ReadMode::TooBig,
{
    lemma_measure_grows(a, b);
}


/// The auto-read streak counts only auto-reads in a row: a span too big to read aloud is
/// flushed as too big and starts the streak again from nothing, whatever came before, and a
/// wake after the quiet period does the same.
pub proof fn lemma_too_big_resets_the_streak(state: PacingState, config: PacingConfig, unspoken: TextSize, at: u64)
    requires
        unspoken.lines > 0 || unspoken.chars > 0,
        unspoken.lines > config.max_lines || unspoken.chars > config.max_chars,
    ensures
        flush_spec(state, config, unspoken).1 == PacingAction::Flush(ReadMode::TooBig),
        flush_spec(state, config, unspoken).0.consecutive_auto_reads == 0,
        flush_spec(state, config, unspoken).0 == (PacingState { consecutive_auto_reads: 0, ..state }),
        saturating_sub(at, state.last_output_at) >= config.quiescence ==> {
            &&& on_wake_spec(state, config, unspoken, at).1.action == PacingAction::Flush(ReadMode::TooBig)
            &&& on_wake_spec(state, config, unspoken, at).0.consecutive_auto_reads == 0
        },
{
}


/// A flush moves the auto-read streak by at most one read: back to nothing for a span too
/// big to read, unchanged when nothing is said, one more for an auto-read or the notice
/// that trips the guard; and the guard trips only once the streak reaches `babble_limit`.
pub proof fn lemma_a_flush_moves_the_streak_by_one_read(state: PacingState, config: PacingConfig, unspoken: TextSize)
    requires
        state.babble_tripped || state.consecutive_auto_reads < u32::MAX,
    ensures
        ({
            let (next, action) = flush_spec(state, config, unspoken);
            &&& action == PacingAction::Flush(ReadMode::TooBig) ==> next.consecutive_auto_reads == 0
            &&& action == PacingAction::Nothing ==> next == state
            &&& (action == PacingAction::Flush(ReadMode::Auto) || action == PacingAction::OutputContinues)
                ==> next.consecutive_auto_reads == state.consecutive_auto_reads + 1
            &&& action == PacingAction::OutputContinues ==> next.babble_tripped && !state.babble_tripped
                && next.consecutive_auto_reads >= config.babble_limit
            &&& action == PacingAction::Flush(ReadMode::Auto) ==> next.consecutive_auto_reads < config.babble_limit
                && !next.babble_tripped
        }),
{
}

} // verus!
