//! Which shells this person has had Acter's setup command explained for and has said not
//! to be asked about again.

use vstd::prelude::*;

verus! {

pub trait Explained: Send + Sync {
    /// A store that cannot be read answers `false`, so the person is asked again.
    fn already(&self, shell: &str) -> bool;

    /// A failure to write is silent; the only consequence is that the dialog appears again.
    fn remember(&self, shell: &str);
}

#[derive(Debug, Default, Clone, Copy)]
pub struct NeverExplained;

impl Explained for NeverExplained {
    fn already(&self, _shell: &str) -> (r: bool)
        ensures
            !r,
    {
        false
    }

    fn remember(&self, _shell: &str) {
    }
}

} // verus!
