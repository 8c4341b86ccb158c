//! One server identity Acter has accepted: which machine, which kind of key, the
//! fingerprint, and the day somebody said yes.

use vstd::prelude::*;

use crate::text::same_text;

verus! {

/// Only `Acter` records are ever written.
#[derive(Debug, Clone, Copy, PartialEq, Eq, Structural)]
pub enum HostKeyOrigin {
    Acter,
    /// Read from `~/.ssh/known_hosts`.
    Native,
}

impl Default for HostKeyOrigin {
    fn default() -> (r: Self)
        ensures
            r == HostKeyOrigin::Acter,
    {
        HostKeyOrigin::Acter
    }
}

#[derive(Debug, PartialEq, Eq)]
pub struct AcceptedHostKey {
    /// As typed into the Connect dialog.
    pub host: String,
    /// Kept even when it is 22: a host on two ports is two identities.
    pub port: u16,
    /// As OpenSSH names it; a key under another algorithm is unknown, not changed.
    pub algorithm: String,
    /// As `ssh-keygen -l` prints it.
    pub fingerprint: String,
    /// `2026-09-12`, and empty for a native record.
    pub accepted: String,
    /// Not written to the document: every record in it is Acter's own.
    pub origin: HostKeyOrigin,
}

impl Clone for AcceptedHostKey {
    fn clone(&self) -> (r: Self)
        ensures
            r == *self,
    {
        AcceptedHostKey {
            host: self.host.clone(),
            port: self.port,
            algorithm: self.algorithm.clone(),
            fingerprint: self.fingerprint.clone(),
            accepted: self.accepted.clone(),
            origin: self.origin,
        }
    }
}

impl AcceptedHostKey {
    /// Exact comparison, correct only for Acter's own records; `known_hosts` has wildcards
    /// and hashed hosts.
    pub fn is_for(&self, host: &str, port: u16) -> (r: bool)
        ensures
            r == (self.host@ == host@ && self.port == port),
    {
        same_text(self.host.as_str(), host) && self.port == port
    }

    pub fn is_acters_own(&self) -> (r: bool)
        ensures
            r == (self.origin == HostKeyOrigin::Acter),
    {
        self.origin == HostKeyOrigin::Acter
    }
}

} // verus!
