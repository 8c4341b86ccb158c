//! The questions an SSH connection has to ask a person, in the window where there is no
//! session to ask them in.

use vstd::prelude::*;

use crate::text::copied;

verus! {

/// Every method blocks until somebody answers, so call it from a task of the connection's
/// own.
pub trait SshQuestions: Send + Sync {
    /// An implementer with nobody to ask answers `Refuse`.
    fn host_key(&self, question: HostKeyQuestion) -> HostKeyAnswer;

    /// `None` is the user declining to give one, which ends the attempt.
    fn password(&self, question: PasswordQuestion) -> Option<Secret>;

    /// The sentence is read aloud exactly as it arrives, so it must be whole and speakable.
    fn tell(&self, sentence: &str);
}

pub struct Unasked;

impl SshQuestions for Unasked {
    fn host_key(&self, _question: HostKeyQuestion) -> (r: HostKeyAnswer)
        ensures
            r == HostKeyAnswer::Refuse,
    {
        HostKeyAnswer::Refuse
    }

    fn password(&self, _question: PasswordQuestion) -> (r: Option<Secret>)
        ensures
            r is None,
    {
        None
    }

    fn tell(&self, _sentence: &str) {
    }
}

#[derive(Debug, PartialEq, Eq)]
pub struct HostKeyQuestion {
    pub host: String,
    pub port: u16,
    /// In `ssh-keygen -l` form.
    pub fingerprint: String,
    pub state: HostKeyState,
    /// A sentence to say beside the question, and `None` when there is nothing to add.
    pub aside: Option<String>,
}

#[derive(Debug, PartialEq, Eq)]
pub enum HostKeyState {
    Unknown,
    Changed { recorded: String },
}

#[derive(Debug, Clone, Copy, PartialEq, Eq, Structural)]
pub enum HostKeyAnswer {
    Accept,
    Refuse,
}

#[derive(Debug, PartialEq, Eq)]
pub struct PasswordQuestion {
    pub host: String,
    pub user: String,
    /// Whether the server already refused a password in this attempt.
    pub again: bool,
}

/// Never give this `Display`, and never let `Debug` print the value, or a password can
/// reach a log; it does not scrub memory.
#[derive(PartialEq, Eq)]
pub struct Secret(String);

impl Clone for Secret {
    fn clone(&self) -> (r: Self)
        ensures
            r == *self,
    {
        Secret(self.0.clone())
    }
}

pub closed spec fn secret_text(secret: Secret) -> Seq<char> {
    secret.0@
}

impl Secret {
    pub fn new(value: &str) -> (r: Self)
        ensures
            secret_text(r) == value@,
    {
        Secret(copied(value))
    }

    pub fn expose(&self) -> (r: &str)
        ensures
            r@ == secret_text(*self),
    {
        self.0.as_str()
    }
}

#[verifier::external_type_specification]
#[verifier::external_body]
pub struct ExFormatter<'a>(std::fmt::Formatter<'a>);

#[verifier::external_type_specification]
#[verifier::external_body]
pub struct ExFmtError(std::fmt::Error);

impl std::fmt::Debug for Secret {
    /// `Formatter::write_str`: prints the words `Secret(not shown)` and never the value.
    #[verifier::external_body]
    fn fmt(&self, formatter: &mut std::fmt::Formatter<'_>) -> std::fmt::Result {
        formatter.write_str("Secret(not shown)")
    }
}

} // verus!
