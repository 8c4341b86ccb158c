//! What this computer has: its WSL distributions, the shells an account may log in to, the
//! files a program name resolves to, and the shell a far end's account runs.

use vstd::prelude::*;

use crate::entities::{ShellInstall, file_name, last_segment};
use crate::text::concat;

verus! {

pub trait ThisComputer: Send + Sync {
    /// Every distribution WSL lists, service distributions such as `docker-desktop`
    /// included, in the order WSL lists them.
    fn wsl_distributions(&self) -> Result<Vec<String>, NoDistributions>;

    /// Every shell an account here may log in to, the account's own first.
    fn login_shells(&self) -> Vec<LoginShell>;

    /// Every install of this program, most preferred first; empty means not installed.
    ///
    /// Implementers look files up and never start them: this is asked while a list is
    /// built.
    fn installs(&self, program: &str) -> Vec<ShellInstall>;

    /// The login shell of the named far end's account, or of the default one for `None`.
    ///
    /// `None` means nothing could be learned; implementers answer within a deadline,
    /// because this is asked before the session's first prompt.
    fn login_shell(&self, distribution: Option<&str>) -> Option<String>;
}

#[derive(Debug, PartialEq, Eq)]
pub struct LoginShell {
    pub install: ShellInstall,
    /// Whether this is the shell the account itself logs in to.
    pub default: bool,
}

impl Clone for LoginShell {
    fn clone(&self) -> (r: Self)
        ensures
            r == *self,
    {
        LoginShell { install: self.install.clone(), default: self.default }
    }
}

impl LoginShell {
    /// The file name of the shell, as `zsh` for `/bin/zsh`.
    pub fn name(&self) -> (r: String)
        ensures
            r@ == last_segment(self.install.program@),
    {
        file_name(self.install.program.as_str())
    }

    pub fn program(&self) -> (r: &String)
        ensures
            *r == self.install.program,
    {
        &self.install.program
    }
}

/// Why there is no WSL entry to offer; each message is a whole spoken sentence.
#[derive(Debug, PartialEq, Eq)]
pub enum NoDistributions {
    NotInstalled,
    /// `detail` is WSL's own sentence, spoken after ours.
    NotWorking { detail: String },
    NoneInstalled,
}

impl Clone for NoDistributions {
    fn clone(&self) -> (r: Self)
        ensures
            r == *self,
    {
        match self {
            NoDistributions::NotInstalled => NoDistributions::NotInstalled,
            NoDistributions::NotWorking { detail } => NoDistributions::NotWorking {
                detail: detail.clone(),
            },
            NoDistributions::NoneInstalled => NoDistributions::NoneInstalled,
        }
    }
}

pub const WSL_NOT_INSTALLED: &'static str =
    "Windows Subsystem for Linux is not installed on this computer, so there are no Linux distributions to connect to.";

pub const WSL_NOT_WORKING: &'static str =
    "Windows Subsystem for Linux is installed, but it could not list its distributions. ";

pub const WSL_EMPTY: &'static str =
    "Windows Subsystem for Linux is installed, but no Linux distribution has been added to it yet.";

pub open spec fn no_distributions_said(why: NoDistributions) -> Seq<char> {
    match why {
        NoDistributions::NotInstalled => WSL_NOT_INSTALLED@,
        NoDistributions::NotWorking { detail } => WSL_NOT_WORKING@ + detail@,
        NoDistributions::NoneInstalled => WSL_EMPTY@,
    }
}

impl NoDistributions {
    /// The sentence a listener hears in place of the distributions.
    pub fn to_string(&self) -> (r: String)
        ensures
            r@ == no_distributions_said(*self),
    {
        match self {
            NoDistributions::NotInstalled => WSL_NOT_INSTALLED.to_owned(),
            NoDistributions::NotWorking { detail } => concat(WSL_NOT_WORKING, detail.as_str()),
            NoDistributions::NoneInstalled => WSL_EMPTY.to_owned(),
        }
    }
}

} // verus!
