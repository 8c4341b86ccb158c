//! A recognized OSC 133 shell-integration marker.

use vstd::prelude::*;

use crate::entities::ExitCode;

verus! {

#[derive(Debug, Clone, Copy, PartialEq, Eq, Structural)]
pub enum Osc133Marker {
    /// OSC 133 A.
    PromptStart,
    /// OSC 133 B.
    CommandStart,
    /// OSC 133 C.
    OutputStart,
    /// OSC 133 D. `None` for a bare `D` or an unparseable code.
    CommandEnd(Option<ExitCode>),
}

} // verus!
