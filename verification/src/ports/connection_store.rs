//! Where the saved connections are kept, and the preference about offering to save.

use vstd::prelude::*;
use vstd::rwlock::RwLock;

use crate::entities::{SavedConnection, opt_view, same_name, same_names};
use crate::text::{copied, trim, trimmed};

verus! {

/// What the store holds, and the sentence to say if the document could not be read.
#[derive(Debug, PartialEq, Eq)]
pub struct StoredConnections {
    pub connections: Vec<SavedConnection>,
    /// When set, `connections` is empty: a document that will not parse is never
    /// overwritten by an empty list.
    pub unreadable: Option<String>,
}

impl Clone for StoredConnections {
    fn clone(&self) -> (r: Self)
        ensures
            r.connections@ == self.connections@,
            r.unreadable == self.unreadable,
    {
        StoredConnections { connections: self.connections.clone(), unreadable: self.unreadable.clone() }
    }
}

impl Default for StoredConnections {
    fn default() -> (r: Self)
        ensures
            r.connections@ == Seq::<SavedConnection>::empty(),
            r.unreadable is None,
    {
        StoredConnections { connections: Vec::new(), unreadable: None }
    }
}

/// Every method answers at once; an implementer keeps its document in memory and writes
/// it whole.
pub trait ConnectionStore: Send + Sync {
    fn saved(&self) -> StoredConnections;

    /// Replaces a connection of the same name, compared with `same_name`, rather than
    /// adding a second. `Err` is a whole sentence.
    fn save(&self, connection: SavedConnection) -> Result<(), String>;

    /// Renames the connection called `from`, compared with `same_name`; `to` is kept
    /// trimmed.
    fn rename(&self, from: &str, to: &str) -> Result<(), String>;

    /// Forgets every connection called `name`, compared with `same_name`.
    fn forget(&self, name: &str) -> Result<(), String>;

    /// Whether to offer to save a connection nobody named yet.
    fn offer_to_save(&self) -> bool;

    fn stop_offering_to_save(&self) -> Result<(), String>;
}

/// The first of the first `n` connections named `name`, or `-1`.
pub open spec fn first_named_in(rows: Seq<SavedConnection>, name: Seq<char>, n: int) -> int
    decreases n,
{
    if n <= 0 {
        -1
    } else {
        let before = first_named_in(rows, name, n - 1);
        if before >= 0 {
            before
        } else if same_names(rows[n - 1].name@, name) {
            n - 1
        } else {
            -1
        }
    }
}

/// The first connection called `name`, or `-1`.
pub open spec fn first_named(rows: Seq<SavedConnection>, name: Seq<char>) -> int {
    first_named_in(rows, name, rows.len() as int)
}

/// The rows once `connection` is saved: in place of the first of its name, else last.
pub open spec fn saved_over(rows: Seq<SavedConnection>, connection: SavedConnection) -> Seq<SavedConnection> {
    let at = first_named(rows, connection.name@);
    if at >= 0 {
        rows.update(at, connection)
    } else {
        rows.push(connection)
    }
}

/// Whether `rows` are `before` with the first row called `from` now called `to`.
pub open spec fn renamed(before: Seq<SavedConnection>, from: Seq<char>, to: Seq<char>, rows: Seq<SavedConnection>) -> bool {
    let at = first_named(before, from);
    &&& rows.len() == before.len()
    &&& forall|i: int|
        0 <= i < rows.len() && i != at ==> #[trigger] rows[i] == before[i]
    &&& at >= 0 ==> {
        &&& rows[at].name@ == trim(to)
        &&& rows[at].target == before[at].target
        &&& rows[at].set_up == before[at].set_up
        &&& rows[at].line_owner == before[at].line_owner
    }
}

/// The rows without any called `name`, in their order.
pub open spec fn forgotten(rows: Seq<SavedConnection>, name: Seq<char>) -> Seq<SavedConnection> {
    rows.filter(|row: SavedConnection| !same_names(row.name@, name))
}

/// The first connection called `name` is called `name`.
pub proof fn lemma_first_named_names(rows: Seq<SavedConnection>, name: Seq<char>)
    ensures
        first_named(rows, name) >= 0 ==> first_named(rows, name) < rows.len() && same_names(
            rows[first_named(rows, name)].name@,
            name,
        ),
{
    lemma_first_named_in_names(rows, name, rows.len() as int);
}

proof fn lemma_first_named_in_names(rows: Seq<SavedConnection>, name: Seq<char>, n: int)
    requires
        n <= rows.len(),
    ensures
        first_named_in(rows, name, n) >= 0 ==> first_named_in(rows, name, n) < n && same_names(
            rows[first_named_in(rows, name, n)].name@,
            name,
        ),
    decreases n,
{
    if n > 0 {
        lemma_first_named_in_names(rows, name, n - 1);
    }
}

proof fn lemma_first_named_settles(rows: Seq<SavedConnection>, name: Seq<char>, m: int, n: int)
    requires
        0 <= m <= n,
        first_named_in(rows, name, m) >= 0,
    ensures
        first_named_in(rows, name, n) == first_named_in(rows, name, m),
    decreases n - m,
{
    if n > m {
        lemma_first_named_settles(rows, name, m, n - 1);
    }
}

/// Saving over a name replaces that row rather than making a second one: the list keeps its
/// length and the row stands where the old one stood.
pub proof fn lemma_saving_over_a_name_replaces_it(rows: Seq<SavedConnection>, connection: SavedConnection)
    requires
        first_named(rows, connection.name@) >= 0,
    ensures
        saved_over(rows, connection).len() == rows.len(),
        saved_over(rows, connection)[first_named(rows, connection.name@)] == connection,
{
    lemma_first_named_names(rows, connection.name@);
}

/// A new name is added at the end, and nothing else moves.
pub proof fn lemma_a_new_name_is_added_last(rows: Seq<SavedConnection>, connection: SavedConnection)
    requires
        first_named(rows, connection.name@) == -1,
    ensures
        saved_over(rows, connection) == rows.push(connection),
{
}

/// Forgetting a name leaves no connection of that name, whatever its case.
pub proof fn lemma_forgetting_leaves_no_row_of_that_name(rows: Seq<SavedConnection>, name: Seq<char>)
    ensures
        forall|i: int|
            0 <= i < forgotten(rows, name).len() ==> !same_names(
                (#[trigger] forgotten(rows, name)[i]).name@,
                name,
            ),
{
    assert forall|i: int| 0 <= i < forgotten(rows, name).len() implies !same_names(
        (#[trigger] forgotten(rows, name)[i]).name@,
        name,
    ) by {
        rows.lemma_filter_pred(|row: SavedConnection| !same_names(row.name@, name), i);
    }
}

/// Where the first connection called `name` stands, or `rows.len()`.
pub fn position_named(rows: &Vec<SavedConnection>, name: &str) -> (i: usize)
    ensures
        i <= rows@.len(),
        i < rows@.len() ==> i == first_named(rows@, name@),
        i == rows@.len() ==> first_named(rows@, name@) == -1,
{
    let mut i: usize = 0;
    while i < rows.len()
        invariant
            i <= rows@.len(),
            first_named_in(rows@, name@, i as int) == -1,
        decreases rows.len() - i,
    {
        if same_name(rows[i].name.as_str(), name) {
            proof {
                lemma_first_named_settles(rows@, name@, i + 1, rows@.len() as int);
            }
            return i;
        }
        i += 1;
    }
    i
}

pub fn save_into(rows: &mut Vec<SavedConnection>, connection: SavedConnection)
    ensures
        final(rows)@ == saved_over(old(rows)@, connection),
{
    let at = position_named(rows, connection.name.as_str());
    if at < rows.len() {
        rows.set(at, connection);
    } else {
        rows.push(connection);
    }
}

pub fn rename_in(rows: &mut Vec<SavedConnection>, from: &str, to: &str)
    ensures
        renamed(old(rows)@, from@, to@, final(rows)@),
{
    let at = position_named(rows, from);
    if at < rows.len() {
        let was = rows[at].clone();
        rows.set(at, SavedConnection { name: trimmed(to), ..was });
    }
}

pub fn forget_in(rows: &mut Vec<SavedConnection>, name: &str)
    ensures
        final(rows)@ == forgotten(old(rows)@, name@),
{
    let ghost before = rows@;
    let mut kept: Vec<SavedConnection> = Vec::new();
    let mut i: usize = 0;
    while i < rows.len()
        invariant
            i <= rows@.len(),
            rows@ == before,
            kept@ == forgotten(before.take(i as int), name@),
        decreases rows.len() - i,
    {
        proof {
            assert(before.take(i + 1).drop_last() =~= before.take(i as int));
            reveal(Seq::filter);
        }
        if !same_name(rows[i].name.as_str(), name) {
            kept.push(rows[i].clone());
        }
        i += 1;
    }
    assert(before.take(before.len() as int) =~= before);
    *rows = kept;
}


/// What a [`RememberedConnections`] keeps, and writes change.
struct Remembered {
    connections: Vec<SavedConnection>,
    offer: bool,
}

/// What every state of a store's contents has: a store whose writes are all refused keeps
/// the nothing it was made with, and still offers to save.
spec fn keeps(refusing: bool, kept: Remembered) -> bool {
    refusing ==> kept.connections@.len() == 0 && kept.offer
}

/// A store kept in memory, for tests and for a build with nowhere to keep a document.
pub struct RememberedConnections {
    kept: RwLock<Remembered, spec_fn(Remembered) -> bool>,
    /// The sentence every write answers with, for a store that cannot write.
    refusing: Option<String>,
    /// The sentence for a document that would not parse; nothing writes it.
    unreadable: Option<String>,
}

impl Default for RememberedConnections {
    fn default() -> (r: Self)
        ensures
            r.refuses() is None,
            r.unreadable_said() is None,
    {
        RememberedConnections::holding(Vec::new())
    }
}

impl RememberedConnections {
    #[verifier::type_invariant]
    spec fn kept_as_made(self) -> bool {
        forall|kept: Remembered| #[trigger] self.kept.inv(kept) == keeps(self.refusing is Some, kept)
    }

    fn keeping(remembered: Remembered, unreadable: Option<String>, refusing: Option<String>) -> (r: Self)
        requires
            keeps(refusing is Some, remembered),
        ensures
            r.refusing == refusing,
            r.unreadable == unreadable,
    {
        let ghost refuses = refusing is Some;
        RememberedConnections {
            kept: RwLock::new(remembered, Ghost(|kept: Remembered| keeps(refuses, kept))),
            refusing,
            unreadable,
        }
    }

    pub closed spec fn refuses(self) -> Option<Seq<char>> {
        match self.refusing {
            Some(said) => Some(said@),
            None => None,
        }
    }

    /// The sentence said in place of the saved connections, for a store made as a document
    /// that would not parse.
    pub closed spec fn unreadable_said(self) -> Option<Seq<char>> {
        match self.unreadable {
            Some(said) => Some(said@),
            None => None,
        }
    }

    pub fn holding(connections: Vec<SavedConnection>) -> (r: Self)
        ensures
            r.refuses() is None,
            r.unreadable_said() is None,
    {
        Self::keeping(Remembered { connections, offer: true }, None, None)
    }

    /// As a document that would not parse: nothing saved, and this sentence instead.
    pub fn unreadable(said: &str) -> (r: Self)
        ensures
            r.refuses() is None,
            r.unreadable_said() == Some(said@),
    {
        Self::keeping(Remembered { connections: Vec::new(), offer: true }, Some(copied(said)), None)
    }

    /// A store every write of which is refused with this sentence.
    pub fn refusing(said: &str) -> (r: Self)
        ensures
            r.refuses() == Some(said@),
            r.unreadable_said() is None,
    {
        Self::keeping(Remembered { connections: Vec::new(), offer: true }, None, Some(copied(said)))
    }
}

/// The answer to a write: the store's refusal if it has one, else `Ok`.
fn written(refusing: &Option<String>) -> (r: Result<(), String>)
    ensures
        match refusing {
            Some(said) => r matches Err(e) && e@ == said@,
            None => r is Ok,
        },
{
    match refusing {
        Some(said) => Err(said.clone()),
        None => Ok(()),
    }
}

impl ConnectionStore for RememberedConnections {
    fn saved(&self) -> (r: StoredConnections)
        ensures
            opt_view(r.unreadable) == self.unreadable_said(),
            self.refuses() is Some ==> r.connections@.len() == 0,
    {
        proof {
            use_type_invariant(self);
        }
        let handle = self.kept.acquire_read();
        let kept = handle.borrow();
        let answer = StoredConnections {
            connections: kept.connections.clone(),
            unreadable: self.unreadable.clone(),
        };
        handle.release_read();
        answer
    }

    fn save(&self, connection: SavedConnection) -> (r: Result<(), String>)
        ensures
            match self.refuses() {
                Some(said) => r matches Err(e) && e@ == said,
                None => r is Ok,
            },
    {
        proof {
            use_type_invariant(self);
        }
        let (mut kept, handle) = self.kept.acquire_write();
        let answer = written(&self.refusing);
        if answer.is_ok() {
            save_into(&mut kept.connections, connection);
        }
        handle.release_write(kept);
        answer
    }

    fn rename(&self, from: &str, to: &str) -> (r: Result<(), String>)
        ensures
            match self.refuses() {
                Some(said) => r matches Err(e) && e@ == said,
                None => r is Ok,
            },
    {
        proof {
            use_type_invariant(self);
        }
        let (mut kept, handle) = self.kept.acquire_write();
        let answer = written(&self.refusing);
        if answer.is_ok() {
            rename_in(&mut kept.connections, from, to);
        }
        handle.release_write(kept);
        answer
    }

    fn forget(&self, name: &str) -> (r: Result<(), String>)
        ensures
            match self.refuses() {
                Some(said) => r matches Err(e) && e@ == said,
                None => r is Ok,
            },
    {
        proof {
            use_type_invariant(self);
        }
        let (mut kept, handle) = self.kept.acquire_write();
        let answer = written(&self.refusing);
        if answer.is_ok() {
            forget_in(&mut kept.connections, name);
        }
        handle.release_write(kept);
        answer
    }

    fn offer_to_save(&self) -> (r: bool)
        ensures
            self.refuses() is Some ==> r,
    {
        proof {
            use_type_invariant(self);
        }
        let handle = self.kept.acquire_read();
        let offer = handle.borrow().offer;
        handle.release_read();
        offer
    }

    fn stop_offering_to_save(&self) -> (r: Result<(), String>)
        ensures
            match self.refuses() {
                Some(said) => r matches Err(e) && e@ == said,
                None => r is Ok,
            },
    {
        proof {
            use_type_invariant(self);
        }
        let (mut kept, handle) = self.kept.acquire_write();
        let answer = written(&self.refusing);
        if answer.is_ok() {
            kept.offer = false;
        }
        handle.release_write(kept);
        answer
    }
}

} // verus!
