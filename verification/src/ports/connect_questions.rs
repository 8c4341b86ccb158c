//! Everything one attempt to connect may have to ask the person in front of the window,
//! before there is a session to ask it in.
//!
//! Every method blocks until somebody answers; see ssh_questions.rs for where it may be
//! called.

use vstd::prelude::*;

use crate::entities::{SessionSetup, Verdict, reports_exit_code};
use crate::ports::Unasked;
use crate::text::{concat, push_char};

verus! {

/// Asked by the same window as [`SshQuestions`], whose implementers usually implement both.
pub trait ConnectQuestions: Send + Sync {
    /// An implementer with nobody to ask answers `DoNotStart`.
    fn unverified(&self, question: ProgramQuestion) -> ProgramAnswer;

    fn set_up_session(&self, question: SetupQuestion) -> SetupAnswer;
}

#[derive(Debug, PartialEq, Eq)]
pub struct SetupQuestion {
    pub shell: String,
    pub setup: SessionSetup,
}

impl Clone for SetupQuestion {
    fn clone(&self) -> (r: Self)
        ensures
            r == *self,
    {
        SetupQuestion { shell: self.shell.clone(), setup: self.setup.clone() }
    }
}

pub const DETECTED: &'static str = "Acter has detected that this session runs ";

pub const OFFERED: &'static str = "Acter can set it up so it tells you more about what you run. ";

pub const GAINS_FAILURES: &'static str =
    "You are told when a command fails, and Acter can tell when each command has finished.";

pub const GAINS_ENDINGS: &'static str =
    "Acter can tell when each command has finished. It cannot yet tell you when a command fails in this shell.";

pub open spec fn detected_text(shell: Seq<char>) -> Seq<char> {
    DETECTED@ + shell + seq!['.']
}

/// Every block is headed by the shell's echo with or without setup, so the offer never
/// promises headings.
pub open spec fn offer_text(setup: SessionSetup) -> Seq<char> {
    OFFERED@ + if reports_exit_code(setup.markers) {
        GAINS_FAILURES@
    } else {
        GAINS_ENDINGS@
    }
}

impl SetupQuestion {
    pub fn detected(&self) -> (r: String)
        ensures
            r@ == detected_text(self.shell@),
    {
        let mut said = concat(DETECTED, self.shell.as_str());
        push_char(&mut said, '.');
        said
    }

    pub fn offer(&self) -> (r: String)
        ensures
            r@ == offer_text(self.setup),
    {
        let gained = if self.setup.markers.reports_exit_code() {
            GAINS_FAILURES
        } else {
            GAINS_ENDINGS
        };
        concat(OFFERED, gained)
    }

    pub fn command(&self) -> (r: &str)
        ensures
            r@ == self.setup.line@,
    {
        self.setup.line.as_str()
    }
}

pub const IF_YOU_SKIP: &'static str =
    "If you skip this, the session still works. You will hear what commands print here, but not whether they worked.";

#[derive(Debug, Clone, Copy, PartialEq, Eq, Structural)]
pub enum SetupAnswer {
    SetUp { remember: bool },
    Skip,
}

#[derive(Debug, PartialEq, Eq)]
pub struct ProgramQuestion {
    pub label: String,
    pub program: String,
    pub verdict: Verdict,
}

impl Clone for ProgramQuestion {
    fn clone(&self) -> (r: Self)
        ensures
            r == *self,
    {
        ProgramQuestion {
            label: self.label.clone(),
            program: self.program.clone(),
            verdict: self.verdict.clone(),
        }
    }
}

#[derive(Debug, Clone, Copy, PartialEq, Eq, Structural)]
pub enum ProgramAnswer {
    Start,
    DoNotStart,
}

impl ConnectQuestions for Unasked {
    fn unverified(&self, _question: ProgramQuestion) -> (r: ProgramAnswer)
        ensures
            r == ProgramAnswer::DoNotStart,
    {
        ProgramAnswer::DoNotStart
    }

    fn set_up_session(&self, _question: SetupQuestion) -> (r: SetupAnswer)
        ensures
            r == SetupAnswer::Skip,
    {
        SetupAnswer::Skip
    }
}

} // verus!
