//! The backend-to-frontend event envelope. Each session has its own channel, so no variant
//! carries a session id.

use vstd::prelude::*;

use crate::entities::{CommandId, ConnectionState, ExitCode, LineId, LineRevision, StyleRun};

verus! {

/// Everything the backend streams to the frontend about one session.
#[derive(Debug, PartialEq, Eq)]
pub enum SessionEvent {
    /// OSC 133 C. `command_line` is what the shell echoed between B and C, and `None` when
    /// there was no echo or it could not be told apart from the prompt.
    CommandStarted { command_id: CommandId, command_line: Option<String> },
    /// What to put in the buffer, never what to say. `prompt` marks a row the shell drew as
    /// its prompt, and `runs` how the far end styled the text.
    Output {
        command_id: CommandId,
        line: LineId,
        revision: LineRevision,
        text: String,
        prompt: bool,
        runs: Vec<StyleRun>,
    },
    /// OSC 133 D. A nonzero exit code follows as `Announce { Failed }`.
    CommandFinished { command_id: CommandId },
    /// Emitted only when the shell reports exit codes.
    PromptDrawn { text: String },
    /// The user stopped the command; no `CommandFinished` follows.
    CommandInterrupted { command_id: CommandId },
    /// The startup grace period passed with no shell-integration marker.
    IntegrationUnavailable,
    AltScreenEntered,
    AltScreenLeft,
    TitleChanged { title: String },
    /// The far end's command line in far-end-line mode; `text` is `None` when only the caret
    /// moved, and `caret` counts characters from the anchor column.
    FarEndLine {
        text: Option<String>,
        caret: u32,
        /// False when `text` is a whole row the far end changed rather than its command line.
        anchored: bool,
    },
    ConnectionChanged { state: ConnectionState },
    /// Always sent after the `Output` it speaks about, so spoken text is already in the
    /// buffer.
    Announce { command_id: CommandId, announcement: Announcement },
}

/// What to say. Only `ReadAloud` carries words; the frontend owns every other sentence.
#[derive(Debug, PartialEq, Eq)]
pub enum Announcement {
    ReadAloud { text: String },
    /// Past the auto-read threshold, announced by line count.
    TooBig { lines: u32 },
    /// The patience window elapsed with output still flowing.
    StillRunning,
    /// The babble guard tripped: output keeps arriving in the buffer, unannounced.
    OutputContinues,
    /// Nonzero exit code.
    Failed { exit_code: ExitCode },
}

impl Clone for Announcement {
    fn clone(&self) -> (r: Self)
        ensures
            r == *self,
    {
        match self {
            Announcement::ReadAloud { text } => Announcement::ReadAloud { text: text.clone() },
            Announcement::TooBig { lines } => Announcement::TooBig { lines: *lines },
            Announcement::StillRunning => Announcement::StillRunning,
            Announcement::OutputContinues => Announcement::OutputContinues,
            Announcement::Failed { exit_code } => Announcement::Failed { exit_code: *exit_code },
        }
    }
}

} // verus!
