//! The settings document: everything Acter decides on a person's behalf.

use vstd::prelude::*;

use crate::entities::{AcceptedHostKey, SavedConnection};

verus! {

/// A later format may add fields but must not change the meaning of one this format reads.
pub const FORMAT: u32 = 1;

#[derive(Debug, Clone, PartialEq, Eq)]
pub struct StoredSettings {
    pub format: u32,
    /// In the order written; the list is sorted where it is built.
    pub connections: Vec<SavedConnection>,
    /// Acter never writes `~/.ssh/known_hosts`; its accepted keys live here.
    pub host_keys: Vec<AcceptedHostKey>,
    pub offer_to_save: bool,
}

/// What a document that does not say its format is read as.
pub fn format_of_the_first_document() -> (r: u32)
    ensures
        r == FORMAT,
{
    FORMAT
}

/// Whether a document that does not say offers to save.
pub fn offer_by_default() -> (r: bool)
    ensures
        r,
{
    true
}

impl Default for StoredSettings {
    /// Also what a missing document means.
    fn default() -> (r: Self)
        ensures
            r.format == FORMAT,
            r.connections@.len() == 0,
            r.host_keys@.len() == 0,
            r.offer_to_save,
    {
        StoredSettings {
            format: FORMAT,
            connections: Vec::new(),
            host_keys: Vec::new(),
            offer_to_save: true,
        }
    }
}

} // verus!
