//! What Acter runs inside a session once that session is established, and whether it is
//! allowed to. Sent after the user's startup files have run, so they cannot override it.

use vstd::prelude::*;

use crate::entities::ShellMarkers;

verus! {

#[derive(Debug, PartialEq, Eq)]
pub struct SessionSetup {
    /// Shown to the user before it runs.
    pub line: String,
    /// What the far end can mark once this line has run.
    pub markers: ShellMarkers,
}

impl Clone for SessionSetup {
    fn clone(&self) -> (r: Self)
        ensures
            r == *self,
    {
        SessionSetup { line: self.line.clone(), markers: self.markers }
    }
}

/// Whether this connection may set its session up.
#[derive(Debug, Clone, Copy, PartialEq, Eq, Structural)]
pub enum SetUp {
    /// Ask, unless told not to about this shell, then send the line.
    Yes,
    No,
}

impl SetUp {
    pub fn wanted(self) -> (r: bool)
        ensures
            r == (self == SetUp::Yes),
    {
        self == SetUp::Yes
    }
}

} // verus!
