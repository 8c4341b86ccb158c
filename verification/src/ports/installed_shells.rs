//! What this particular computer actually has, asked before anything is running, by the
//! list of things a user may connect to.

use vstd::prelude::*;

use crate::entities::ShellInstall;
use crate::ports::NoDistributions;

verus! {

/// What this computer can run. `&self` throughout because a caller asks a question rather
/// than driving a machine.
pub trait InstalledShells: Send + Sync {
    /// Which WSL distributions this machine has, in the order WSL reports them, service
    /// distributions included.
    fn wsl_distributions(&self) -> Result<Vec<String>, NoDistributions>;

    /// Every install of this program this machine has, most preferred first; an empty
    /// list is what "not installed" means.
    fn installs(&self, program: &str) -> Vec<ShellInstall>;

    /// Which shell a WSL distribution's own account is configured to run, by name, or
    /// `None` when nothing honest can be said about it.
    fn login_shell(&self, distribution: Option<&str>) -> Option<String>;
}

} // verus!
