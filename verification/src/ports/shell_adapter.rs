//! What the domain needs to know about one shell: how to start it, how far its own
//! command-boundary markers reach, and what ends it.

use vstd::prelude::*;

use crate::entities::{SessionSetup, ShellMarkers};

verus! {

#[derive(Debug, Clone, PartialEq, Eq)]
pub struct ShellLaunch {
    pub program: String,
    pub args: Vec<String>,
    pub environment: Vec<(String, String)>,
}

#[derive(Debug, Clone, PartialEq, Eq)]
pub struct ShellFacts {
    pub markers: ShellMarkers,
    /// The bytes that end the shell's input, or `None` for a shell that has none.
    pub eof: Option<Vec<u8>>,
    /// The byte that discards the line being edited, for a shell that has one.
    pub discards_line: Option<u8>,
    /// The line that sets the session up, for a shell Acter can set up.
    pub setup: Option<SessionSetup>,
}

impl ShellFacts {
    /// Everything the adapter says about its shell, asked once.
    pub fn of(shell: &dyn ShellAdapter) -> (r: Self) {
        ShellFacts {
            markers: shell.markers(),
            eof: shell.eof(),
            setup: shell.setup(),
            discards_line: shell.discards_line(),
        }
    }

    /// What is left once the user has declined the setup: nothing to send, and markers
    /// back to what a shell that marks nothing is taken for.
    pub fn declined(self) -> (r: Self)
        ensures
            self.setup is None ==> r == self,
            self.setup is Some ==> r == (ShellFacts {
                markers: ShellMarkers::Full,
                setup: None,
                ..self
            }),
    {
        match self.setup {
            None => self,
            Some(_) => ShellFacts { markers: ShellMarkers::Full, setup: None, ..self },
        }
    }
}

/// Implemented once per shell; `Send + Sync` because the composition root hands one to
/// code running on another task.
pub trait ShellAdapter: Send + Sync {
    fn launch(&self) -> ShellLaunch;

    fn markers(&self) -> ShellMarkers;

    fn eof(&self) -> Option<Vec<u8>>;

    /// `None` for a shell Acter does not set up.
    fn setup(&self) -> (r: Option<SessionSetup>)
        default_ensures
            r is None,
    {
        None
    }

    /// `None` for a shell with no byte that discards the line.
    fn discards_line(&self) -> (r: Option<u8>)
        default_ensures
            r is None,
    {
        None
    }
}

} // verus!
