//! Per-command pacing state and the pacing numbers the autoread policy reads. Every span of
//! time here is whole milliseconds.

use vstd::prelude::*;

verus! {

/// Invariants the autoread policy alone keeps: `consecutive_auto_reads` never exceeds
/// `babble_limit`, `patience_fired` latches once per command, and a tripped guard stays
/// tripped.
#[derive(Debug, Clone, Copy, PartialEq, Eq, Structural)]
pub struct PacingState {
    pub consecutive_auto_reads: u32,
    pub patience_fired: bool,
    pub babble_tripped: bool,
    /// Milliseconds from command start to the last chunk that carried real text.
    pub last_output_at: u64,
    /// Where the current run of unread output began; patience is measured from here.
    pub continuous_since: u64,
}

impl Default for PacingState {
    fn default() -> (r: Self)
        ensures
            r == (PacingState {
                consecutive_auto_reads: 0,
                patience_fired: false,
                babble_tripped: false,
                last_output_at: 0,
                continuous_since: 0,
            }),
    {
        PacingState {
            consecutive_auto_reads: 0,
            patience_fired: false,
            babble_tripped: false,
            last_output_at: 0,
            continuous_since: 0,
        }
    }
}

#[derive(Debug, Clone, Copy, PartialEq, Eq, Structural)]
pub struct PacingConfig {
    /// Milliseconds of silence after which accumulated output becomes a chunk.
    pub quiescence: u64,
    /// Continuous output with no quiescent gap for this many milliseconds announces once.
    pub patience: u64,
    /// Exceeding this or `max_chars` announces "too big".
    pub max_lines: usize,
    pub max_chars: usize,
    /// Consecutive auto-read chunks within one command that trip the babble guard.
    pub babble_limit: u32,
    /// Milliseconds a session waits for its first shell-integration marker.
    pub integration_grace: u64,
    /// Milliseconds added after the far end's own echo while it owns the line.
    pub far_end_settle: u64,
    /// Milliseconds output coalesces before it reaches the buffer.
    pub render_tick: u64,
}

impl Default for PacingConfig {
    fn default() -> (r: Self)
        ensures
            r == (PacingConfig {
                quiescence: 500,
                patience: 10_000,
                max_lines: 25,
                max_chars: 2000,
                babble_limit: 3,
                integration_grace: 5_000,
                far_end_settle: 30,
                render_tick: 50,
            }),
    {
        PacingConfig {
            quiescence: 500,
            patience: 10_000,
            max_lines: 25,
            max_chars: 2000,
            babble_limit: 3,
            integration_grace: 5_000,
            far_end_settle: 30,
            render_tick: 50,
        }
    }
}

} // verus!
