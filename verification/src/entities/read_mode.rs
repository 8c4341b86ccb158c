//! How much of a span the pacing policy lets be read aloud.

use vstd::prelude::*;

verus! {

#[derive(Debug, Clone, Copy, PartialEq, Eq, Structural)]
pub enum ReadMode {
    Auto,
    /// Announced by size, not read aloud.
    TooBig,
    /// Goes to the buffer unannounced.
    Quiet,
}

} // verus!
