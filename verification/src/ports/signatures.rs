//! Who signed a file, and whether this computer trusts the answer.

use vstd::prelude::*;

use crate::entities::{Verdict, verdict_settled};

verus! {

pub trait Signatures: Send + Sync {
    /// Can reach the network, so it is asked only when a program is about to start; a file
    /// that cannot be opened, or a revocation check that times out, cannot be verified.
    fn verdict(&self, program: &str) -> Verdict;

    /// What is already known without verifying anything; `None` when this file, as it
    /// stands now, has not been verified.
    fn known(&self, program: &str) -> Option<Verdict>;
}

/// For a build that cannot check signatures: it vouches for nothing.
pub struct Unchecked;

pub const CANNOT_CHECK: &'static str =
    "This build of Acter cannot check signatures on this operating system.";

impl Signatures for Unchecked {
    fn verdict(&self, _program: &str) -> (r: Verdict)
        ensures
            r matches Verdict::Unverifiable { why } && why@ == CANNOT_CHECK@,
            !verdict_settled(r),
    {
        Verdict::Unverifiable { why: CANNOT_CHECK.to_owned() }
    }

    fn known(&self, _program: &str) -> (r: Option<Verdict>)
        ensures
            r is None,
    {
        None
    }
}

} // verus!
