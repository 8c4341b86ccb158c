//! Which OSC 133 markers the shell at the far end is able to emit.

use vstd::prelude::*;

verus! {

/// Which markers the far end's prompt can emit; any shell that emits `A` is `Integrated`.
#[derive(Debug, Clone, Copy, PartialEq, Eq, Structural)]
pub enum ShellMarkers {
    /// Also a shell that emits nothing, which then never becomes integrated.
    Full,
    /// `A` and `B` only, as `cmd.exe`, which has no post-execution hook.
    PromptAndCommandLine,
    /// `A`, `B` and `D`, as POSIX `sh`, where `$?` in `PS1` is the last status.
    PromptCommandLineAndExitCode,
}

impl Default for ShellMarkers {
    fn default() -> (r: Self)
        ensures
            r == ShellMarkers::Full,
    {
        ShellMarkers::Full
    }
}

pub open spec fn marks_output_start(m: ShellMarkers) -> bool {
    m == ShellMarkers::Full
}

pub open spec fn reports_exit_code(m: ShellMarkers) -> bool {
    m == ShellMarkers::Full || m == ShellMarkers::PromptCommandLineAndExitCode
}

impl ShellMarkers {
    pub fn marks_output_start(self) -> (r: bool)
        ensures
            r == marks_output_start(self),
    {
        matches!(self, ShellMarkers::Full)
    }

    /// Decides whether the prompt is announced on its own or left in a block's content.
    pub fn reports_exit_code(self) -> (r: bool)
        ensures
            r == reports_exit_code(self),
    {
        matches!(self, ShellMarkers::Full | ShellMarkers::PromptCommandLineAndExitCode)
    }
}

} // verus!
