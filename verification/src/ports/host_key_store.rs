//! Acter's own record of the server identities somebody accepted.

use vstd::prelude::*;
use vstd::rwlock::RwLock;

use crate::entities::{AcceptedHostKey, HostKeyOrigin};
use crate::text::copied;

verus! {

pub trait HostKeyStore: Send + Sync {
    /// Acter's own records only; `known_hosts` is read by the transport, not kept here.
    fn accepted(&self) -> Vec<AcceptedHostKey>;

    /// Records the identity somebody just accepted, stamped with today. `Err` is a whole
    /// sentence, and nothing was recorded.
    fn accept(&self, host: &str, port: u16, algorithm: &str, fingerprint: &str) -> Result<(), String>;
}

/// The day a [`RememberedHostKeys`] stamps on what it records, so a test can say it.
pub const A_FIXED_DAY: &'static str = "2026-09-12";

/// The record of an identity accepted on `day`.
pub fn record(host: &str, port: u16, algorithm: &str, fingerprint: &str, day: &str) -> (r: AcceptedHostKey)
    ensures
        r.host@ == host@,
        r.port == port,
        r.algorithm@ == algorithm@,
        r.fingerprint@ == fingerprint@,
        r.accepted@ == day@,
        r.origin == HostKeyOrigin::Acter,
{
    AcceptedHostKey {
        host: copied(host),
        port,
        algorithm: copied(algorithm),
        fingerprint: copied(fingerprint),
        accepted: copied(day),
        origin: HostKeyOrigin::Acter,
    }
}

/// What every state of a record holds: what it was made holding, in order, then the
/// identities accepted through it, each stamped with [`A_FIXED_DAY`] and from Acter; a record
/// whose writes are all refused holds only what it was made holding.
pub open spec fn held_then_accepted(held: Seq<AcceptedHostKey>, refusing: bool, kept: Seq<AcceptedHostKey>) -> bool {
    &&& kept.len() >= held.len()
    &&& kept.subrange(0, held.len() as int) == held
    &&& forall|i: int|
        held.len() <= i < kept.len() ==> (#[trigger] kept[i]).origin == HostKeyOrigin::Acter
            && kept[i].accepted@ == A_FIXED_DAY@
    &&& refusing ==> kept == held
}

/// A record kept in memory, for tests and for a build with nowhere to keep a document.
pub struct RememberedHostKeys {
    kept: RwLock<Vec<AcceptedHostKey>, spec_fn(Vec<AcceptedHostKey>) -> bool>,
    refusing: Option<String>,
    /// What it was made holding.
    held: Ghost<Seq<AcceptedHostKey>>,
}

impl Default for RememberedHostKeys {
    fn default() -> (r: Self)
        ensures
            r.refuses() is None,
            r.made_holding() == Seq::<AcceptedHostKey>::empty(),
    {
        RememberedHostKeys::holding(Vec::new())
    }
}

impl RememberedHostKeys {
    #[verifier::type_invariant]
    spec fn kept_since_made(self) -> bool {
        forall|kept: Vec<AcceptedHostKey>|
            #[trigger] self.kept.inv(kept) == held_then_accepted(self.held@, self.refusing is Some, kept@)
    }

    fn keeping(accepted: Vec<AcceptedHostKey>, refusing: Option<String>) -> (r: Self)
        ensures
            r.refusing == refusing,
            r.made_holding() == accepted@,
    {
        let ghost held = accepted@;
        let ghost refuses = refusing is Some;
        assert(accepted@.subrange(0, held.len() as int) =~= held);
        RememberedHostKeys {
            kept: RwLock::new(
                accepted,
                Ghost(|kept: Vec<AcceptedHostKey>| held_then_accepted(held, refuses, kept@)),
            ),
            refusing,
            held: Ghost(held),
        }
    }

    pub fn holding(accepted: Vec<AcceptedHostKey>) -> (r: Self)
        ensures
            r.refuses() is None,
            r.made_holding() == accepted@,
    {
        Self::keeping(accepted, None)
    }

    /// A record every write of which is refused with this sentence.
    pub fn refusing(said: &str) -> (r: Self)
        ensures
            r.refuses() == Some(said@),
            r.made_holding() == Seq::<AcceptedHostKey>::empty(),
    {
        Self::keeping(Vec::new(), Some(copied(said)))
    }

    pub closed spec fn refuses(self) -> Option<Seq<char>> {
        match self.refusing {
            Some(said) => Some(said@),
            None => None,
        }
    }

    /// What the record was made holding.
    pub closed spec fn made_holding(self) -> Seq<AcceptedHostKey> {
        self.held@
    }
}

impl HostKeyStore for RememberedHostKeys {
    fn accepted(&self) -> (r: Vec<AcceptedHostKey>)
        ensures
            held_then_accepted(self.made_holding(), self.refuses() is Some, r@),
    {
        proof {
            use_type_invariant(self);
        }
        let handle = self.kept.acquire_read();
        let kept = handle.borrow().clone();
        proof {
            assert(kept@ =~= handle.view()@);
        }
        handle.release_read();
        kept
    }

    fn accept(&self, host: &str, port: u16, algorithm: &str, fingerprint: &str) -> (r: Result<(), String>)
        ensures
            match self.refuses() {
                Some(said) => r matches Err(e) && e@ == said,
                None => r is Ok,
            },
    {
        proof {
            use_type_invariant(self);
        }
        if let Some(said) = &self.refusing {
            return Err(said.clone());
        }
        let (mut kept, handle) = self.kept.acquire_write();
        let ghost before = kept@;
        kept.push(record(host, port, algorithm, fingerprint, A_FIXED_DAY));
        proof {
            assert(kept@.subrange(0, self.held@.len() as int) =~= before.subrange(0, self.held@.len() as int));
        }
        handle.release_write(kept);
        Ok(())
    }
}

} // verus!
