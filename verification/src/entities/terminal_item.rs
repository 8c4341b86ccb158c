//! One element of the ordered stream a terminal engine emits: a line of text with its
//! identity, a shell-integration marker it recognized, or a switch between screens.

use vstd::prelude::*;

use crate::entities::{Osc133Marker, Screen};

verus! {

/// Minted once per line, never reused, unique across the session; not a grid row.
#[derive(Debug, Clone, Copy, PartialEq, Eq, PartialOrd, Ord, Hash, Structural)]
pub struct LineId(pub u64);

/// Speech reads `Appended` and `Settled` and never `Rewritten`, so a spinner is not read
/// mid-spin.
#[derive(Debug, Clone, Copy, PartialEq, Eq, Structural)]
pub enum LineRevision {
    /// The text is only what was added to the end of the line.
    Appended,
    /// The text is the whole line.
    Rewritten,
    /// The text is the whole line, which can no longer change and emits nothing further.
    Settled,
}

#[derive(Debug, PartialEq, Eq)]
pub enum TerminalItem {
    Line { id: LineId, text: String, revision: LineRevision },
    Marker(Osc133Marker),
    /// In the stream, between the lines before and after the switch.
    ScreenChanged(Screen),
}

impl Clone for TerminalItem {
    fn clone(&self) -> (r: Self)
        ensures
            r == *self,
    {
        match self {
            TerminalItem::Line { id, text, revision } => TerminalItem::Line {
                id: *id,
                text: text.clone(),
                revision: *revision,
            },
            TerminalItem::Marker(m) => TerminalItem::Marker(*m),
            TerminalItem::ScreenChanged(s) => TerminalItem::ScreenChanged(*s),
        }
    }
}

} // verus!
