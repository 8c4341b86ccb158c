//! Making a session, so the domain never names a shell.

use std::sync::Arc;

use vstd::prelude::*;

use crate::entities::{ProfileId, SetUp};
use crate::ports::{ConnectQuestions, SessionApi};

verus! {

/// What was chosen to start: the profile, and the file it resolved to, once.
#[derive(Debug, PartialEq, Eq)]
pub struct Chosen {
    pub profile: ProfileId,
    /// The file that was verified and is to be started; `None` for a session that starts
    /// no local file.
    pub program: Option<String>,
}

impl Clone for Chosen {
    fn clone(&self) -> (r: Self)
        ensures
            r == *self,
    {
        Chosen { profile: self.profile.clone(), program: self.program.clone() }
    }
}

/// A session that opened, and what to say about it.
pub struct Started {
    pub session: Arc<dyn SessionApi>,
    pub note: Option<String>,
    /// Whether the user was already told this far end's limits while it was opened.
    pub limit_explained: bool,
}

pub trait SessionFactory: Send + Sync {
    /// `Err` is a whole sentence to say instead of connecting.
    fn open(&self, chosen: &Chosen, set_up: SetUp, questions: &Arc<dyn ConnectQuestions>) -> Result<
        Started,
        String,
    >;
}

} // verus!
