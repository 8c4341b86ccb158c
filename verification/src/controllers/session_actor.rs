//! The per-session state machine: each input, and each wake the actor asked for, becomes
//! the events to send and the wakes to ask for next. Every decision it makes belongs to the
//! pacing policy; the loop that feeds it, the clock and the sink belong to the caller.

use vstd::prelude::*;

use crate::entities::{
    Announcement, CommandId, ConnectionState, ExitCode, Integration, LineId, LineRevision, Mode,
    PacingConfig, PacingState, ReadMode, Screen, SessionEvent, SessionState, StyleRun, UnspokenText,
    after_last_newline, joinable, join_runs, utf16_count, utf16_len,
};
use crate::policies::{
    PacingAction, PacingOutcome, TextSize, measure, read_mode_of, measured_chars, measured_lines, on_command_end, on_command_end_spec, on_output, on_output_spec,
    on_wake, on_wake_spec,
};
use crate::text::{chars_of, concat, copied, is_blank, push_char};

verus! {

#[derive(Debug, PartialEq, Eq)]
pub enum SessionInput {
    /// `command_line` is `None` when the shell did not say what it is running.
    CommandStarted { command_id: CommandId, command_line: Option<String> },
    /// `prompt` is true for a row the shell drew as its prompt, which reaches the buffer as
    /// output only in a shell that reports no exit code.
    Output {
        line: LineId,
        revision: LineRevision,
        text: String,
        spoken: bool,
        prompt: bool,
        runs: Vec<StyleRun>,
    },
    FarEndLine { text: Option<String>, caret: u32, anchored: bool },
    PromptDrawn { text: String },
    Connection { state: ConnectionState },
    CommandEnded { command_id: CommandId, exit_code: ExitCode },
    CommandInterrupted { command_id: CommandId },
    NothingRan { command_id: CommandId },
    MarkersObserved,
    GracePeriodExpired,
    FollowMode(bool),
    SelfTalk(bool),
    AltScreenEntered,
    AltScreenLeft,
}

/// What to do about one of the actor's two timers.
#[derive(Debug, Clone, Copy, PartialEq, Eq, Structural)]
pub enum Wake {
    Unchanged,
    Clear,
    /// Fire once, this many milliseconds from now.
    After(u64),
}

impl Default for Wake {
    fn default() -> (r: Self)
        ensures
            r == Wake::Unchanged,
    {
        Wake::Unchanged
    }
}

/// The wakes the actor asked for since they were last taken.
#[derive(Debug, Clone, Copy, PartialEq, Eq, Structural)]
pub struct Requests {
    pub render: Wake,
    pub pacing: Wake,
}

impl Default for Requests {
    fn default() -> (r: Self)
        ensures
            r == (Requests { render: Wake::Unchanged, pacing: Wake::Unchanged }),
    {
        Requests { render: Wake::Unchanged, pacing: Wake::Unchanged }
    }
}

/// A pacing wake for `after`, or none.
pub open spec fn wake_for(after: Option<u64>) -> Wake {
    match after {
        Some(after) => Wake::After(after),
        None => Wake::Clear,
    }
}

pub fn wake_from(wake_after: Option<u64>) -> (r: Wake)
    ensures
        r == wake_for(wake_after),
{
    match wake_after {
        Some(after) => Wake::After(after),
        None => Wake::Clear,
    }
}

/// One line waiting to reach the buffer.
struct Rendered {
    line: LineId,
    revision: LineRevision,
    text: String,
    prompt: bool,
    runs: Vec<StyleRun>,
}

/// The command the far end is running, and what of its output is still to render and to
/// say.
struct ActiveCommand {
    id: CommandId,
    started_at: u64,
    pacing: PacingState,
    unrendered: Vec<Rendered>,
    unspoken: UnspokenText,
    /// How many characters the span has taken in since it was last handed over.
    heard: usize,
    render_armed: bool,
    /// Only spoken text moves it, so a rewrite never puts a line ending into the spoken
    /// span.
    last_line: Option<LineId>,
}

/// Whether the pacing policy may still be asked to flush this command's output.
pub open spec fn pacing_can_flush(pacing: PacingState) -> bool {
    pacing.babble_tripped || pacing.consecutive_auto_reads < u32::MAX
}

fn joins(runs: &Vec<StyleRun>, before: &str, later: &Vec<StyleRun>) -> (r: bool)
    ensures
        r == joinable(runs@, later@, utf16_count(before@) as int),
{
    let mut i: usize = 0;
    while i < runs.len()
        invariant
            i <= runs@.len(),
            forall|k: int| 0 <= k < i ==> crate::entities::fits(#[trigger] runs@[k]),
        decreases runs.len() - i,
    {
        if runs[i].start as u64 + runs[i].len as u64 > u32::MAX as u64 {
            return false;
        }
        i += 1;
    }
    let offset = utf16_len(before) as u64;
    let mut j: usize = 0;
    while j < later.len()
        invariant
            j <= later@.len(),
            offset == utf16_count(before@),
            forall|k: int| 0 <= k < runs@.len() ==> crate::entities::fits(#[trigger] runs@[k]),
            forall|k: int| 0 <= k < j ==> offset + crate::entities::run_end(#[trigger] later@[k]) <= u32::MAX,
        decreases later.len() - j,
    {
        if offset + later[j].start as u64 + later[j].len as u64 > u32::MAX as u64 {
            return false;
        }
        j += 1;
    }
    true
}

impl ActiveCommand {
    fn new(id: CommandId, started_at: u64) -> (r: Self)
        ensures
            r.id == id,
            r.started_at == started_at,
            r.pacing == (PacingState {
                consecutive_auto_reads: 0,
                patience_fired: false,
                babble_tripped: false,
                last_output_at: 0,
                continuous_since: 0,
            }),
            r.unrendered@.len() == 0,
            r.unspoken.heard().len() == 0,
            r.heard == 0,
            !r.render_armed,
            r.last_line is None,
    {
        ActiveCommand {
            id,
            started_at,
            pacing: PacingState::default(),
            unrendered: Vec::new(),
            unspoken: UnspokenText::new(),
            heard: 0,
            render_armed: false,
            last_line: None,
        }
    }

    /// Queues a line for the buffer. An append to the line last queued joins it; a
    /// rewrite replaces whatever of that line is still waiting.
    fn render(&mut self, line: LineId, revision: LineRevision, text: &str, prompt: bool, runs: Vec<StyleRun>)
        ensures
            final(self).id == old(self).id,
            final(self).started_at == old(self).started_at,
            final(self).pacing == old(self).pacing,
            final(self).unspoken == old(self).unspoken,
            final(self).heard == old(self).heard,
            final(self).render_armed == old(self).render_armed,
            final(self).last_line == old(self).last_line,
            final(self).unrendered@.len() > 0,
    {
        let n = self.unrendered.len();
        if revision == LineRevision::Appended && n > 0 && self.unrendered[n - 1].line == line
            && joins(&self.unrendered[n - 1].runs, self.unrendered[n - 1].text.as_str(), &runs) {
            let mut last = self.unrendered.remove(n - 1);
            join_runs(&mut last.runs, last.text.as_str(), runs.as_slice());
            last.text.append(text);
            last.prompt = prompt;
            self.unrendered.push(last);
            return;
        }
        if revision != LineRevision::Appended {
            let mut kept: Vec<Rendered> = Vec::new();
            let mut pending = Vec::new();
            std::mem::swap(&mut pending, &mut self.unrendered);
            while pending.len() > 0
                decreases pending.len(),
            {
                let one = pending.remove(0);
                if one.line != line {
                    kept.push(one);
                }
            }
            self.unrendered = kept;
        }
        self.unrendered.push(Rendered { line, revision, text: copied(text), prompt, runs });
    }
}

/// One session's loop state: its integration, its modes, and the command it is running.
pub struct SessionActor {
    config: PacingConfig,
    session: SessionState,
    follow_mode: bool,
    self_talk: bool,
    active: Option<ActiveCommand>,
    requests: Requests,
}

impl SessionActor {
    /// What the actor keeps true between steps.
    pub closed spec fn wf(self) -> bool {
        self.active matches Some(a) ==> {
            &&& pacing_can_flush(a.pacing)
            &&& a.heard == a.unspoken.heard().len()
        }
    }

    pub closed spec fn state(self) -> SessionState {
        self.session
    }

    /// The command running now, or `None`.
    pub closed spec fn running(self) -> Option<CommandId> {
        match self.active {
            Some(a) => Some(a.id),
            None => None,
        }
    }

    pub closed spec fn following(self) -> bool {
        self.follow_mode
    }

    pub closed spec fn talking_to_itself(self) -> bool {
        self.self_talk
    }

    pub closed spec fn requested(self) -> Requests {
        self.requests
    }

    /// Where the pacing policy stands for the running command, or `None`.
    pub closed spec fn pacing(self) -> Option<PacingState> {
        match self.active {
            Some(a) => Some(a.pacing),
            None => None,
        }
    }

    /// What the running command has yet to say, as heard.
    pub closed spec fn unspoken_heard(self) -> Seq<char> {
        self.active->0.unspoken.heard()
    }

    /// Whether the running command's unspoken span is still kept to be read aloud.
    pub closed spec fn unspoken_kept(self) -> bool {
        self.active->0.unspoken.kept()
    }

    /// The configuration the actor paces by.
    pub closed spec fn config(self) -> PacingConfig {
        self.config
    }

    /// Whether a render wake is already asked for the running command's waiting lines.
    pub closed spec fn render_armed(self) -> bool {
        self.active matches Some(a) && a.render_armed
    }

    /// What the pacing policy answers to a spoken line of output arriving `now`: the line's
    /// text, on a line of its own when the last spoken text was on another row, measured and
    /// handed to `on_output_spec` with the command's pacing state.
    pub closed spec fn output_pacing(self, line: LineId, text: Seq<char>, now: u64) -> (PacingState, PacingOutcome) {
        let a = self.active->0;
        let said = if a.last_line matches Some(last) && last != line {
            "\n"@ + text
        } else {
            text
        };
        on_output_spec(
            a.pacing,
            self.config,
            TextSize { lines: measured_lines(said) as usize, chars: measured_chars(said) as usize },
            (if now >= a.started_at { now - a.started_at } else { 0 }) as u64,
            self.follow_mode,
        )
    }

    /// What the running command has yet to say once a spoken line of output is added, and
    /// whether it is still kept: the line is added on a line of its own when the last spoken
    /// text was on another row, and dropped from what is kept once the span is too big.
    pub closed spec fn output_unspoken(self, line: LineId, text: Seq<char>) -> (Seq<char>, bool) {
        let a = self.active->0;
        let said = if a.last_line matches Some(last) && last != line {
            "\n"@ + text
        } else {
            text
        };
        let heard = a.unspoken.heard() + said;
        if a.heard + said.len() <= usize::MAX {
            (
                heard,
                a.unspoken.kept() && (said.len() == 0 || read_mode_of(
                    TextSize { lines: measured_lines(heard) as usize, chars: measured_chars(heard) as usize },
                    self.config,
                ) != ReadMode::TooBig),
            )
        } else {
            (a.unspoken.heard(), a.unspoken.kept())
        }
    }

    /// What the pacing policy does with the running command's remainder when it ends.
    pub closed spec fn end_action(self) -> PacingAction {
        let a = self.active->0;
        on_command_end_spec(
            a.pacing,
            self.config,
            TextSize { lines: measured_lines(a.unspoken.heard()) as usize, chars: a.unspoken.counted_chars() as usize },
        ).1.action
    }

    /// What the pacing policy answers when its wake fires `now` milliseconds into the
    /// session's clock: the command's pacing state, the size of what it has yet to say, and
    /// how long it has run, handed to `on_wake_spec`.
    pub closed spec fn pacing_wake(self, now: u64) -> (PacingState, PacingOutcome) {
        let a = self.active->0;
        on_wake_spec(
            a.pacing,
            self.config,
            TextSize { lines: measured_lines(a.unspoken.heard()) as usize, chars: a.unspoken.counted_chars() as usize },
            (if now >= a.started_at { now - a.started_at } else { 0 }) as u64,
        )
    }

    pub fn new(config: PacingConfig) -> (r: Self)
        ensures
            r.wf(),
            r.state() == (SessionState {
                mode: Mode::NonInteractive,
                integration: Integration::Pending,
                screen: Screen::Normal,
            }),
            r.running() is None,
            !r.following(),
            !r.talking_to_itself(),
            r.requested() == (Requests { render: Wake::Unchanged, pacing: Wake::Unchanged }),
            r.config() == config,
    {
        SessionActor {
            config,
            session: SessionState::new(Mode::NonInteractive),
            follow_mode: false,
            self_talk: false,
            active: None,
            requests: Requests::default(),
        }
    }

    /// The wakes asked for since the last call, which are forgotten.
    pub fn take_requests(&mut self) -> (r: Requests)
        requires
            old(self).wf(),
        ensures
            final(self).wf(),
            r == old(self).requested(),
            final(self).requested() == (Requests { render: Wake::Unchanged, pacing: Wake::Unchanged }),
            final(self).state() == old(self).state(),
            final(self).running() == old(self).running(),
    {
        let taken = self.requests;
        self.requests = Requests::default();
        taken
    }

    /// How many lines are waiting to reach the buffer.
    pub closed spec fn pending_renders(self) -> nat {
        match self.active {
            Some(a) => a.unrendered@.len(),
            None => 0,
        }
    }

    /// Sends every waiting line to the buffer, in the order they came.
    fn flush_render(&mut self, sent: &mut Vec<SessionEvent>)
        requires
            old(self).wf(),
        ensures
            final(self).wf(),
            final(self).pending_renders() == 0,
            final(sent)@.len() == old(sent)@.len() + old(self).pending_renders(),
            final(sent)@.subrange(0, old(sent)@.len() as int) == old(sent)@,
            only_renders(final(sent)@.subrange(old(sent)@.len() as int, final(sent)@.len() as int)),
            final(self).state() == old(self).state(),
            final(self).running() == old(self).running(),
            final(self).following() == old(self).following(),
            final(self).talking_to_itself() == old(self).talking_to_itself(),
            final(self).requested() == old(self).requested(),
            final(self).pacing() == old(self).pacing(),
            final(self).config() == old(self).config(),
            final(self).unspoken_heard() == old(self).unspoken_heard(),
            final(self).unspoken_kept() == old(self).unspoken_kept(),
    {
        let ghost before = sent@;
        match &mut self.active {
            None => {},
            Some(active) => {
                let command_id = active.id;
                let mut lines = Vec::new();
                std::mem::swap(&mut lines, &mut active.unrendered);
                let ghost n = lines@.len();
                while lines.len() > 0
                    invariant
                        sent@.len() + lines@.len() == before.len() + n,
                        sent@.len() >= before.len(),
                        sent@.subrange(0, before.len() as int) == before,
                        only_renders(sent@.subrange(before.len() as int, sent@.len() as int)),
                    decreases lines.len(),
                {
                    let line = lines.remove(0);
                    let ghost was = sent@;
                    sent.push(SessionEvent::Output {
                        command_id,
                        line: line.line,
                        revision: line.revision,
                        text: line.text,
                        prompt: line.prompt,
                        runs: line.runs,
                    });
                    assert(sent@.subrange(0, before.len() as int) =~= was.subrange(0, before.len() as int));
                    assert(sent@.subrange(before.len() as int, sent@.len() as int) =~= was.subrange(
                        before.len() as int,
                        was.len() as int,
                    ).push(sent@.last()));
                }
            },
        }
    }

    /// Says something about the running command; with none running there is nobody to
    /// say it about.
    fn announce(&self, announcement: Announcement, sent: &mut Vec<SessionEvent>)
        ensures
            match self.running() {
                Some(id) => final(sent)@ == old(sent)@.push(
                    SessionEvent::Announce { command_id: id, announcement },
                ),
                None => final(sent)@ == old(sent)@,
            },
    {
        match &self.active {
            Some(active) => sent.push(SessionEvent::Announce { command_id: active.id, announcement }),
            None => {},
        }
    }

    /// What the pacing policy's action becomes while the window is talking to itself:
    /// nothing spoken, and a flush only moves the span into the buffer.
    fn aside(&self, action: PacingAction) -> (r: PacingAction)
        ensures
            r == aside_of(self.talking_to_itself(), action),
    {
        if !self.self_talk {
            return action;
        }
        match action {
            PacingAction::Flush(_) => PacingAction::Flush(ReadMode::Quiet),
            _ => PacingAction::Nothing,
        }
    }

    /// Carries out the pacing policy's action. Every branch that speaks flushes the
    /// rendering path first, so nothing is announced before the buffer has it.
    fn apply(&mut self, action: PacingAction, sent: &mut Vec<SessionEvent>)
        requires
            old(self).wf(),
        ensures
            final(self).wf(),
            final(sent)@.subrange(0, old(sent)@.len() as int) == old(sent)@,
            final(sent)@.len() >= old(sent)@.len(),
            aside_of(old(self).talking_to_itself(), action) is Flush ==> final(self).pending_renders() == 0,
            aside_of(old(self).talking_to_itself(), action) is Nothing ==> final(sent)@ == old(sent)@,
            old(self).running() is Some ==> {
                let flushed = if aside_of(old(self).talking_to_itself(), action) is Flush {
                    (old(sent)@.len() + old(self).pending_renders()) as int
                } else {
                    old(sent)@.len() as int
                };
                &&& final(sent)@.len() >= flushed
                &&& only_renders(final(sent)@.subrange(old(sent)@.len() as int, flushed))
                &&& announced(
                    aside_of(old(self).talking_to_itself(), action),
                    old(self).running()->0,
                    old(self).unspoken_heard(),
                    old(self).unspoken_kept(),
                    old(self).state().integration == Integration::Unintegrated,
                    final(sent)@.subrange(flushed, final(sent)@.len() as int),
                )
            },
            old(self).talking_to_itself() ==> only_renders(
                final(sent)@.subrange(old(sent)@.len() as int, final(sent)@.len() as int),
            ),
            final(self).state() == old(self).state(),
            final(self).running() == old(self).running(),
            final(self).following() == old(self).following(),
            final(self).talking_to_itself() == old(self).talking_to_itself(),
            final(self).requested() == old(self).requested(),
            final(self).pacing() == old(self).pacing(),
            final(self).config() == old(self).config(),
    {
        let ghost start = sent@;
        let ghost heard = self.unspoken_heard();
        let ghost kept = self.unspoken_kept();
        match self.aside(action) {
            PacingAction::Nothing => {
                assert(sent@.subrange(start.len() as int, sent@.len() as int) =~= Seq::<SessionEvent>::empty());
            },
            PacingAction::Flush(mode) => {
                self.flush_render(sent);
                let ghost at = sent@;
                let unintegrated = self.session.integration == Integration::Unintegrated;
                let (text, size, last_line) = match &mut self.active {
                    None => {
                        return;
                    },
                    Some(active) => {
                        // Read before `take`, which resets the accumulator.
                        let last_line = match active.unspoken.last_line() {
                            Some(row) => Some(copied(row)),
                            None => None,
                        };
                        let (text, size) = active.unspoken.take();
                        active.heard = 0;
                        (text, size, last_line)
                    },
                };
                let ghost command_id = self.running()->0;
                match mode {
                    ReadMode::Quiet => {
                        assert(sent@.subrange(at.len() as int, sent@.len() as int) =~= Seq::<SessionEvent>::empty());
                    },
                    ReadMode::Auto => {
                        match text {
                            Some(text) => {
                                let ghost said = text@;
                                self.announce(Announcement::ReadAloud { text }, sent);
                                assert(sent@.subrange(at.len() as int, sent@.len() as int) =~= seq![sent@.last()]);
                            },
                            None => {
                                assert(sent@.subrange(at.len() as int, sent@.len() as int) =~= Seq::<SessionEvent>::empty());
                            },
                        }
                    },
                    // Only an unintegrated session reads its last row: an integrated or
                    // pending one says its prompt through `PromptDrawn`.
                    ReadMode::TooBig => {
                        let lines: u32 = if size.lines <= u32::MAX as usize {
                            size.lines as u32
                        } else {
                            u32::MAX
                        };
                        self.announce(Announcement::TooBig { lines }, sent);
                        let ghost first = sent@;
                        if unintegrated {
                            match last_line {
                                Some(text) => {
                                    self.announce(Announcement::ReadAloud { text }, sent);
                                    assert(sent@.subrange(at.len() as int, sent@.len() as int) =~= seq![first.last(), sent@.last()]);
                                },
                                None => {
                                    assert(sent@.subrange(at.len() as int, sent@.len() as int) =~= seq![first.last()]);
                                },
                            }
                        } else {
                            assert(sent@.subrange(at.len() as int, sent@.len() as int) =~= seq![first.last()]);
                        }
                    },
                }
                assert(sent@.subrange(start.len() as int, at.len() as int) =~= at.subrange(start.len() as int, at.len() as int));
            },
            PacingAction::StillRunning => {
                self.announce(Announcement::StillRunning, sent);
                proof {
                    if self.running() is Some {
                        assert(sent@.subrange(start.len() as int, sent@.len() as int) =~= seq![sent@.last()]);
                    }
                }
            },
            PacingAction::OutputContinues => {
                self.announce(Announcement::OutputContinues, sent);
                proof {
                    if self.running() is Some {
                        assert(sent@.subrange(start.len() as int, sent@.len() as int) =~= seq![sent@.last()]);
                    }
                }
            },
        }
    }

    fn command_started(&mut self, command_id: CommandId, command_line: Option<String>, now: u64, sent: &mut Vec<SessionEvent>)
        requires
            old(self).wf(),
        ensures
            final(self).wf(),
            final(sent)@ == old(sent)@.push(SessionEvent::CommandStarted { command_id, command_line }),
            final(self).running() == Some(command_id),
            final(self).pending_renders() == 0,
            final(self).state() == old(self).state(),
            final(self).following() == old(self).following(),
            final(self).talking_to_itself() == old(self).talking_to_itself(),
            final(self).requested() == old(self).requested(),
    {
        self.active = Some(ActiveCommand::new(command_id, now));
        sent.push(SessionEvent::CommandStarted { command_id, command_line });
    }

    /// A line of the command's output: queued for the buffer, and, when it is to be
    /// spoken, added to the span the pacing policy decides about.
    #[verifier::rlimit(50)]
    fn output(
        &mut self,
        line: LineId,
        revision: LineRevision,
        text: &str,
        spoken: bool,
        prompt: bool,
        runs: Vec<StyleRun>,
        now: u64,
        sent: &mut Vec<SessionEvent>,
    )
        requires
            old(self).wf(),
        ensures
            final(self).wf(),
            old(self).running() is None ==> final(sent)@ == old(sent)@ && *final(self) == *old(self),
            old(self).running() is Some ==> final(self).requested().render == if (revision != LineRevision::Appended
                || text@.len() > 0) && !old(self).render_armed() {
                Wake::After(old(self).config().render_tick)
            } else {
                old(self).requested().render
            },
            old(self).running() is Some && !spoken ==> {
                &&& final(sent)@ == old(sent)@
                &&& final(self).pacing() == old(self).pacing()
                &&& final(self).requested().pacing == old(self).requested().pacing
            },
            old(self).running() is Some && spoken ==> {
                let (next, outcome) = old(self).output_pacing(line, text@, now);
                &&& final(self).pacing() == Some(next)
                &&& final(self).requested().pacing == wake_for(outcome.wake_after)
                &&& renders_then_announced(
                    aside_of(old(self).talking_to_itself(), outcome.action),
                    old(self).running()->0,
                    old(self).output_unspoken(line, text@).0,
                    old(self).output_unspoken(line, text@).1,
                    old(self).state().integration == Integration::Unintegrated,
                    final(sent)@.skip(old(sent)@.len() as int),
                )
            },
            final(sent)@.subrange(0, old(sent)@.len() as int) == old(sent)@,
            final(sent)@.len() >= old(sent)@.len(),
            old(self).talking_to_itself() ==> only_renders(
                final(sent)@.subrange(old(sent)@.len() as int, final(sent)@.len() as int),
            ),
            final(self).state() == old(self).state(),
            final(self).running() == old(self).running(),
            final(self).following() == old(self).following(),
            final(self).talking_to_itself() == old(self).talking_to_itself(),
            final(self).config() == old(self).config(),
    {
        let render_tick = self.config.render_tick;
        let follow_mode = self.follow_mode;
        let (size, at) = match &mut self.active {
            None => {
                return;
            },
            Some(active) => {
                // The tick is not re-armed per chunk, or continuous output would starve
                // rendering. An empty rewrite is a row the far end erased, so only an empty
                // append is skipped.
                if revision != LineRevision::Appended || text.unicode_len() > 0 {
                    active.render(line, revision, text, prompt, runs);
                    if !active.render_armed {
                        active.render_armed = true;
                        self.requests.render = Wake::After(render_tick);
                    }
                }
                if !spoken {
                    return;
                }
                let separated = match active.last_line {
                    Some(last) => {
                        if last != line {
                            let mut joined = copied("\n");
                            joined.append(text);
                            joined
                        } else {
                            copied(text)
                        }
                    },
                    None => copied(text),
                };
                active.last_line = Some(line);
                let added = chars_of(separated.as_str()).len();
                if active.heard <= usize::MAX - added {
                    active.unspoken.push(separated.as_str(), &self.config);
                    active.heard = active.heard + added;
                }
                assert(active.unspoken.heard() == old(self).output_unspoken(line, text@).0
                    && active.unspoken.kept() == old(self).output_unspoken(line, text@).1);
                let at = now.saturating_sub(active.started_at);
                (measure(separated.as_str()), at)
            },
        };
        let pacing = match &self.active {
            Some(active) => active.pacing,
            None => {
                return;
            },
        };
        let (next, outcome) = on_output(pacing, &self.config, size, at, follow_mode);
        match &mut self.active {
            Some(active) => {
                active.pacing = next;
            },
            None => {},
        }
        let ghost before = sent@;
        let ghost pending = self.pending_renders();
        self.apply(outcome.action, sent);
        proof {
            let action = aside_of(self.talking_to_itself(), outcome.action);
            let flushed = if action is Flush { (before.len() + pending) as int } else { before.len() as int };
            let events = sent@.skip(old(sent)@.len() as int);
            let n = flushed - old(sent)@.len();
            assert(events.take(n) =~= sent@.subrange(old(sent)@.len() as int, flushed));
            assert(events.skip(n) =~= sent@.subrange(flushed, sent@.len() as int));
        }
        self.requests.pacing = wake_from(outcome.wake_after);
    }

    /// The last word is sent before `terminal`: the frontend's completion beep for a
    /// `TooBig` command fires on the ending and must already have seen the verdict.
    ///
    /// `false` when no command was running.
    fn close(&mut self, terminal: SessionEvent, sent: &mut Vec<SessionEvent>) -> (r: bool)
        requires
            old(self).wf(),
        ensures
            final(self).wf(),
            r == old(self).running() is Some,
            !r ==> final(sent)@ == old(sent)@ && *final(self) == *old(self),
            r ==> final(sent)@.len() > old(sent)@.len() && final(sent)@.last() == terminal,
            r ==> renders_then_announced(
                aside_of(old(self).talking_to_itself(), old(self).end_action()),
                old(self).running()->0,
                old(self).unspoken_heard(),
                old(self).unspoken_kept(),
                old(self).state().integration == Integration::Unintegrated,
                final(sent)@.subrange(old(sent)@.len() as int, final(sent)@.len() - 1),
            ),
            final(sent)@.subrange(0, old(sent)@.len() as int) == old(sent)@,
            final(self).state() == old(self).state(),
            final(self).running() == old(self).running(),
            final(self).following() == old(self).following(),
            final(self).talking_to_itself() == old(self).talking_to_itself(),
    {
        let (pacing, size) = match &self.active {
            None => {
                return false;
            },
            Some(active) => (active.pacing, active.unspoken.size()),
        };
        let (next, outcome) = on_command_end(pacing, &self.config, size);
        match &mut self.active {
            Some(active) => {
                active.pacing = next;
            },
            None => {},
        }
        self.flush_render(sent);
        let ghost rendered = sent@;
        self.apply(outcome.action, sent);
        let ghost said = sent@;
        sent.push(terminal);
        proof {
            let events = sent@.subrange(old(sent)@.len() as int, sent@.len() - 1);
            let n = rendered.len() - old(sent)@.len();
            assert(events.take(n) =~= rendered.subrange(old(sent)@.len() as int, rendered.len() as int));
            assert(events.skip(n) =~= said.subrange(rendered.len() as int, said.len() as int));
        }
        true
    }

    /// The command is over: nothing of it is kept, and neither timer is wanted.
    fn retire(&mut self)
        ensures
            final(self).wf(),
            final(self).running() is None,
            final(self).requested() == (Requests { render: Wake::Clear, pacing: Wake::Clear }),
            final(self).state() == old(self).state(),
            final(self).following() == old(self).following(),
            final(self).talking_to_itself() == old(self).talking_to_itself(),
    {
        self.active = None;
        self.requests = Requests { render: Wake::Clear, pacing: Wake::Clear };
    }

    /// One input, and the events it sends, in the order they are to be sent.
    pub fn handle(&mut self, input: SessionInput, now: u64) -> (r: Vec<SessionEvent>)
        requires
            old(self).wf(),
        ensures
            final(self).wf(),
            match input {
                SessionInput::CommandStarted { command_id, command_line } => {
                    &&& r@ == seq![SessionEvent::CommandStarted { command_id, command_line }]
                    &&& final(self).running() == Some(command_id)
                },
                SessionInput::Connection { state } => {
                    &&& r@ == seq![SessionEvent::ConnectionChanged { state }]
                    &&& *final(self) == *old(self)
                },
                SessionInput::PromptDrawn { text } => {
                    &&& r@ == seq![SessionEvent::PromptDrawn { text }]
                    &&& *final(self) == *old(self)
                },
                SessionInput::Output { line, revision, text, spoken, .. } => {
                    &&& old(self).running() is None ==> r@.len() == 0 && *final(self) == *old(self)
                    &&& old(self).running() is Some ==> final(self).requested().render == if (revision
                        != LineRevision::Appended || text@.len() > 0) && !old(self).render_armed() {
                        Wake::After(old(self).config().render_tick)
                    } else {
                        old(self).requested().render
                    }
                    &&& (old(self).running() is Some && !spoken) ==> {
                        &&& r@.len() == 0
                        &&& final(self).pacing() == old(self).pacing()
                        &&& final(self).requested().pacing == old(self).requested().pacing
                    }
                    &&& (old(self).running() is Some && spoken) ==> {
                        &&& final(self).pacing() == Some(old(self).output_pacing(line, text@, now).0)
                        &&& final(self).requested().pacing == wake_for(old(self).output_pacing(line, text@, now).1.wake_after)
                        &&& renders_then_announced(
                            aside_of(old(self).talking_to_itself(), old(self).output_pacing(line, text@, now).1.action),
                            old(self).running()->0,
                            old(self).output_unspoken(line, text@).0,
                            old(self).output_unspoken(line, text@).1,
                            old(self).state().integration == Integration::Unintegrated,
                            r@,
                        )
                    }
                    &&& old(self).talking_to_itself() ==> only_renders(r@)
                    &&& final(self).running() == old(self).running()
                },
                SessionInput::CommandEnded { command_id, exit_code } => {
                    &&& old(self).running() is None ==> r@.len() == 0 && *final(self) == *old(self)
                    &&& old(self).running() is Some ==> {
                        &&& final(self).running() is None
                        &&& final(self).requested() == (Requests { render: Wake::Clear, pacing: Wake::Clear })
                        &&& renders_then_announced(
                            aside_of(old(self).talking_to_itself(), old(self).end_action()),
                            old(self).running()->0,
                            old(self).unspoken_heard(),
                            old(self).unspoken_kept(),
                            old(self).state().integration == Integration::Unintegrated,
                            r@.subrange(0, r@.len() - if exit_code.0 != 0 { 2int } else { 1int }),
                        )
                        &&& if exit_code.0 != 0 {
                            r@.len() >= 2 && r@[r@.len() - 2] == (SessionEvent::CommandFinished { command_id })
                                && r@.last() == (SessionEvent::Announce {
                                    command_id: old(self).running()->0,
                                    announcement: Announcement::Failed { exit_code },
                                })
                        } else {
                            r@.len() >= 1 && r@.last() == (SessionEvent::CommandFinished { command_id })
                        }
                    }
                },
                SessionInput::CommandInterrupted { command_id } => {
                    &&& old(self).running() is None ==> r@.len() == 0 && *final(self) == *old(self)
                    &&& old(self).running() is Some ==> final(self).running() is None && r@.len() >= 1
                        && r@.last() == (SessionEvent::CommandInterrupted { command_id })
                },
                SessionInput::NothingRan { command_id } => {
                    &&& old(self).running() is None ==> r@.len() == 0 && *final(self) == *old(self)
                    &&& old(self).running() is Some ==> final(self).running() is None && r@.len() >= 1
                        && r@.last() == (SessionEvent::CommandFinished { command_id })
                },
                SessionInput::FarEndLine { text, caret, anchored } => {
                    &&& r@.len() >= 1
                    &&& r@.last() == (SessionEvent::FarEndLine { text, caret, anchored })
                    &&& only_renders(r@.drop_last())
                    &&& final(self).pending_renders() == 0
                },
                SessionInput::MarkersObserved => {
                    &&& r@.len() == 0
                    &&& final(self).state() == (SessionState {
                        integration: Integration::Integrated,
                        ..old(self).state()
                    })
                },
                SessionInput::GracePeriodExpired => {
                    &&& final(self).state().integration == (if old(self).state().integration == Integration::Pending {
                        Integration::Unintegrated
                    } else {
                        old(self).state().integration
                    })
                    &&& r@ == if old(self).state().integration == Integration::Pending {
                        seq![SessionEvent::IntegrationUnavailable]
                    } else {
                        seq![]
                    }
                },
                SessionInput::FollowMode(on) => r@.len() == 0 && final(self).following() == on,
                SessionInput::SelfTalk(on) => r@.len() == 0 && final(self).talking_to_itself() == on,
                SessionInput::AltScreenEntered => {
                    &&& final(self).state().screen == crate::entities::Screen::Alternate
                    &&& r@ == if old(self).state().screen != crate::entities::Screen::Alternate {
                        seq![SessionEvent::AltScreenEntered]
                    } else {
                        seq![]
                    }
                },
                SessionInput::AltScreenLeft => {
                    &&& final(self).state().screen == crate::entities::Screen::Normal
                    &&& r@ == if old(self).state().screen != crate::entities::Screen::Normal {
                        seq![SessionEvent::AltScreenLeft]
                    } else {
                        seq![]
                    }
                },
            },
    {
        let mut sent: Vec<SessionEvent> = Vec::new();
        match input {
            SessionInput::CommandStarted { command_id, command_line } => {
                let ghost said = SessionEvent::CommandStarted { command_id, command_line };
                self.command_started(command_id, command_line, now, &mut sent);
                assert(sent@ =~= seq![said]);
                assert(self.running() == Some(command_id));
            },
            SessionInput::Output { line, revision, text, spoken, prompt, runs } => {
                self.output(line, revision, text.as_str(), spoken, prompt, runs, now, &mut sent);
                assert(sent@.subrange(0, sent@.len() as int) =~= sent@);
            },
            SessionInput::CommandEnded { command_id, exit_code } => {
                if self.close(SessionEvent::CommandFinished { command_id }, &mut sent) {
                    let ghost closed = sent@;
                    if exit_code.0 != 0 {
                        self.announce(Announcement::Failed { exit_code }, &mut sent);
                        assert(sent@.subrange(0, sent@.len() - 2) =~= closed.subrange(0, closed.len() - 1));
                    }
                    self.retire();
                }
            },
            SessionInput::CommandInterrupted { command_id } => {
                if self.close(SessionEvent::CommandInterrupted { command_id }, &mut sent) {
                    self.retire();
                }
            },
            SessionInput::NothingRan { command_id } => {
                if self.close(SessionEvent::CommandFinished { command_id }, &mut sent) {
                    self.retire();
                }
            },
            SessionInput::Connection { state } => {
                sent.push(SessionEvent::ConnectionChanged { state });
            },
            SessionInput::PromptDrawn { text } => {
                sent.push(SessionEvent::PromptDrawn { text });
            },
            SessionInput::FarEndLine { text, caret, anchored } => {
                self.flush_render(&mut sent);
                let ghost rendered = sent@;
                assert(rendered.subrange(0, rendered.len() as int) =~= rendered);
                sent.push(SessionEvent::FarEndLine { text, caret, anchored });
                assert(sent@.drop_last() =~= rendered);
            },
            SessionInput::MarkersObserved => {
                self.session = self.session.markers_observed();
            },
            SessionInput::GracePeriodExpired => {
                let next = self.session.grace_period_expired();
                if next != self.session {
                    self.session = next;
                    sent.push(SessionEvent::IntegrationUnavailable);
                }
            },
            SessionInput::FollowMode(on) => {
                self.follow_mode = on;
            },
            SessionInput::SelfTalk(on) => {
                self.self_talk = on;
            },
            SessionInput::AltScreenEntered => {
                let next = self.session.alt_screen_entered();
                if next != self.session {
                    self.session = next;
                    sent.push(SessionEvent::AltScreenEntered);
                }
            },
            SessionInput::AltScreenLeft => {
                let next = self.session.alt_screen_left();
                if next != self.session {
                    self.session = next;
                    sent.push(SessionEvent::AltScreenLeft);
                }
            },
        }
        sent
    }

    /// The render tick fired: everything waiting reaches the buffer.
    pub fn wake_render(&mut self) -> (r: Vec<SessionEvent>)
        requires
            old(self).wf(),
        ensures
            final(self).wf(),
            only_renders(r@),
            final(self).pending_renders() == 0,
            r@.len() == old(self).pending_renders(),
            final(self).running() == old(self).running(),
            final(self).state() == old(self).state(),
    {
        let mut sent: Vec<SessionEvent> = Vec::new();
        match &mut self.active {
            Some(active) => {
                active.render_armed = false;
            },
            None => {},
        }
        self.flush_render(&mut sent);
        assert(sent@.subrange(0, sent@.len() as int) =~= sent@);
        sent
    }

    /// The pacing wake fired, `now` milliseconds into the session's clock.
    pub fn wake_pacing(&mut self, now: u64) -> (r: Vec<SessionEvent>)
        requires
            old(self).wf(),
        ensures
            final(self).wf(),
            old(self).running() is None ==> r@.len() == 0 && *final(self) == *old(self),
            old(self).running() is Some ==> {
                let (next, outcome) = old(self).pacing_wake(now);
                &&& final(self).pacing() == Some(next)
                &&& final(self).requested() == (Requests { pacing: wake_for(outcome.wake_after), ..old(self).requested() })
                &&& aside_of(old(self).talking_to_itself(), outcome.action) is Nothing ==> r@.len() == 0
                &&& aside_of(old(self).talking_to_itself(), outcome.action) is Flush ==> final(self).pending_renders() == 0
            },
            old(self).running() is Some ==> {
                let action = aside_of(old(self).talking_to_itself(), old(self).pacing_wake(now).1.action);
                let flushed = if action is Flush { old(self).pending_renders() as int } else { 0int };
                &&& r@.len() >= flushed
                &&& only_renders(r@.subrange(0, flushed))
                &&& announced(
                    action,
                    old(self).running()->0,
                    old(self).unspoken_heard(),
                    old(self).unspoken_kept(),
                    old(self).state().integration == Integration::Unintegrated,
                    r@.subrange(flushed, r@.len() as int),
                )
            },
            old(self).talking_to_itself() ==> only_renders(r@),
            final(self).running() == old(self).running(),
            final(self).state() == old(self).state(),
            final(self).following() == old(self).following(),
            final(self).talking_to_itself() == old(self).talking_to_itself(),
    {
        let mut sent: Vec<SessionEvent> = Vec::new();
        let (pacing, size, started_at) = match &self.active {
            None => {
                return sent;
            },
            Some(active) => (active.pacing, active.unspoken.size(), active.started_at),
        };
        let at = now.saturating_sub(started_at);
        let (next, outcome) = on_wake(pacing, &self.config, size, at);
        match &mut self.active {
            Some(active) => {
                active.pacing = next;
            },
            None => {},
        }
        self.apply(outcome.action, &mut sent);
        self.requests.pacing = wake_from(outcome.wake_after);
        assert(sent@.subrange(0, sent@.len() as int) =~= sent@);
        sent
    }
}

/// What carrying out `action` says about command `command_id`, once the lines waiting for
/// the buffer have reached it: a span still kept is read aloud, one too big is announced by
/// its line count (with its last row read too on an unintegrated session), and the patience
/// and babble notices are said as they are.
pub open spec fn announced(
    action: PacingAction,
    command_id: CommandId,
    heard: Seq<char>,
    kept: bool,
    unintegrated: bool,
    said: Seq<SessionEvent>,
) -> bool {
    match action {
        PacingAction::Nothing => said.len() == 0,
        PacingAction::StillRunning => said == seq![
            SessionEvent::Announce { command_id, announcement: Announcement::StillRunning },
        ],
        PacingAction::OutputContinues => said == seq![
            SessionEvent::Announce { command_id, announcement: Announcement::OutputContinues },
        ],
        PacingAction::Flush(ReadMode::Quiet) => said.len() == 0,
        PacingAction::Flush(ReadMode::Auto) => if kept {
            &&& said.len() == 1
            &&& said[0] matches SessionEvent::Announce { command_id: c, announcement: Announcement::ReadAloud { text } }
                && c == command_id && text@ == heard
        } else {
            said.len() == 0
        },
        PacingAction::Flush(ReadMode::TooBig) => {
            let lines: u32 = if measured_lines(heard) <= u32::MAX { measured_lines(heard) as u32 } else { u32::MAX };
            let last = after_last_newline(heard);
            &&& said.len() == if unintegrated && !is_blank(last) { 2int } else { 1int }
            &&& said[0] == SessionEvent::Announce { command_id, announcement: Announcement::TooBig { lines } }
            &&& said.len() == 2 ==> (said[1] matches SessionEvent::Announce {
                command_id: c,
                announcement: Announcement::ReadAloud { text },
            } && c == command_id && text@ == last)
        },
    }
}

/// Whether `events` are lines reaching the buffer followed by what carrying out `action`
/// says, as `announced` has it.
pub open spec fn renders_then_announced(
    action: PacingAction,
    command_id: CommandId,
    heard: Seq<char>,
    kept: bool,
    unintegrated: bool,
    events: Seq<SessionEvent>,
) -> bool {
    exists|n: int|
        0 <= n <= events.len() && only_renders(events.take(n)) && #[trigger] announced(
            action,
            command_id,
            heard,
            kept,
            unintegrated,
            events.skip(n),
        )
}

/// Only `Output` events: what reaches the buffer, with nothing said.
pub open spec fn only_renders(events: Seq<SessionEvent>) -> bool {
    forall|i: int| 0 <= i < events.len() ==> (#[trigger] events[i]) is Output
}

/// The pacing action as the actor carries it out: while it talks to itself, a flush only
/// fills the buffer and nothing else happens.
pub open spec fn aside_of(self_talk: bool, action: PacingAction) -> PacingAction {
    if !self_talk {
        action
    } else if action is Flush {
        PacingAction::Flush(ReadMode::Quiet)
    } else {
        PacingAction::Nothing
    }
}

} // verus!
