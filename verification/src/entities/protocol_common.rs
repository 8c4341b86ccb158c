//! Identity, correlation, and the state enums carried across the frontend wire.

use vstd::prelude::*;

verus! {

/// `u32` so it fits a JavaScript number exactly.
#[derive(Debug, Clone, Copy, PartialEq, Eq, Hash, Structural)]
pub struct SessionId(pub u32);

#[derive(Debug, Clone, Copy, PartialEq, Eq, Hash, Structural)]
pub struct CommandId(pub u32);

#[derive(Debug, Clone, Copy, PartialEq, Eq, Hash, Structural)]
pub struct ExitCode(pub i32);

#[derive(Debug, Clone, Copy, PartialEq, Eq, Structural)]
pub enum Mode {
    /// Local edit field and results buffer.
    NonInteractive,
    /// Full terminal pass-through.
    Interactive,
}

#[derive(Debug, Clone, Copy, PartialEq, Eq, Structural)]
pub enum ConnectionState {
    /// Started, and nothing has arrived from the far end yet.
    Connecting,
    Connected,
    Reconnecting,
    Disconnected,
}

} // verus!
