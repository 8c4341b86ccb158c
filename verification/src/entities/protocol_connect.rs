//! What connecting says while it happens, what it asks, and what it is told back.

use vstd::prelude::*;

use crate::entities::Connected;
use crate::ports::Secret;

verus! {

/// Minted per attempt, so an answer to an abandoned dialog never resolves a newer attempt.
#[derive(Debug, Clone, Copy, PartialEq, Eq, Hash, Structural)]
pub struct AttemptId(pub u32);

/// One thing that happens while a connection is being made; `Arrived` or `Failed` ends the
/// sequence.
#[derive(Debug, PartialEq, Eq)]
pub enum ConnectStep {
    /// A complete sentence, spoken as it arrives.
    Progress { said: String },
    Asked { attempt: AttemptId, question: ConnectQuestion },
    Arrived { connected: Connected },
    /// One sentence a listener can act on.
    Failed { why: String },
}

/// What a person is asked, mid-connection.
#[derive(Debug, PartialEq, Eq)]
pub enum ConnectQuestion {
    HostKey {
        host: String,
        port: u16,
        /// As `ssh-keygen -l` prints it.
        fingerprint: String,
        /// The fingerprint on file, and `None` for a host with no record.
        recorded: Option<String>,
        /// Something true that is not the answer, and `None` when there is nothing.
        aside: Option<String>,
    },
    /// The file this machine is about to start did not verify.
    Unverified {
        label: String,
        /// The full path.
        program: String,
        /// Whole sentences ending in what to do next.
        said: String,
        /// Who signed it, and `None` when nothing could be read.
        signer: Option<String>,
    },
    /// What Acter would run inside this shell to integrate it.
    SetUpSession { shell: String, detected: String, offer: String, command: String, refusal: String },
    Password {
        host: String,
        user: String,
        /// Whether a password was already tried and refused.
        again: bool,
    },
}

/// What the person decided.
#[derive(Debug, PartialEq, Eq)]
pub enum ConnectAnswer {
    /// Trust this server and record it.
    Trust,
    Password { secret: Secret },
    /// The only way to reach `ProgramAnswer::Start`.
    StartAnyway,
    /// The only way to reach `SetupAnswer::SetUp`; `remember` is kept per shell.
    SetUpSession { remember: bool },
    /// Refused, cancelled, or closed.
    GiveUp,
}

impl Clone for ConnectAnswer {
    fn clone(&self) -> (r: Self)
        ensures
            r == *self,
    {
        match self {
            ConnectAnswer::Trust => ConnectAnswer::Trust,
            ConnectAnswer::Password { secret } => ConnectAnswer::Password { secret: secret.clone() },
            ConnectAnswer::StartAnyway => ConnectAnswer::StartAnyway,
            ConnectAnswer::SetUpSession { remember } => ConnectAnswer::SetUpSession {
                remember: *remember,
            },
            ConnectAnswer::GiveUp => ConnectAnswer::GiveUp,
        }
    }
}

} // verus!
