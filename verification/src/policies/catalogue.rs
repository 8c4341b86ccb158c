//! What the connect list shows: which kinds an operating system offers, in what order, and
//! how an entry reads when this machine cannot start it.

use vstd::prelude::*;

use crate::entities::{ConnectionKind, kind_instructions, kind_label};
use crate::text::{concat, copied, same_text};

verus! {

/// One row of the connect list, as the dialog will render it.
#[derive(Debug, PartialEq, Eq)]
pub struct Connection {
    pub kind: ConnectionKind,
    /// Includes the `(not available)` suffix when the row cannot be chosen.
    pub label: String,
    pub available: bool,
}

impl Clone for Connection {
    fn clone(&self) -> (r: Self)
        ensures
            r == *self,
    {
        Connection { kind: self.kind, label: self.label.clone(), available: self.available }
    }
}

impl Connection {
    /// `None` when the row is available.
    pub fn instructions(&self) -> (r: Option<&'static str>)
        ensures
            match r {
                Some(said) => !self.available && said@ == kind_instructions(self.kind),
                None => self.available,
            },
    {
        if self.available {
            None
        } else {
            Some(self.kind.instructions())
        }
    }
}

pub const NOT_AVAILABLE: &'static str = " (not available)";

pub open spec fn offered_kinds(os: Seq<char>) -> Seq<ConnectionKind> {
    if os == "windows"@ {
        seq![
            ConnectionKind::Cmd,
            ConnectionKind::PowerShell,
            ConnectionKind::Wsl,
            ConnectionKind::Ssh,
        ]
    } else if os == "macos"@ {
        seq![ConnectionKind::Terminal, ConnectionKind::Ssh]
    } else {
        seq![]
    }
}

/// `os` is the spelling `std::env::consts::OS` uses ("windows", "macos"). PowerShell's
/// editions, WSL's distributions and this Mac's shells are not entries here; they are chosen
/// in the connect dialog's panel. Windows-only kinds are absent from macOS's list rather than
/// listed as unavailable.
pub fn offered(os: &str) -> (r: &'static [ConnectionKind])
    ensures
        r@ == offered_kinds(os@),
{
    if same_text(os, "windows") {
        let kinds: &'static [ConnectionKind] = &[
            ConnectionKind::Cmd,
            ConnectionKind::PowerShell,
            ConnectionKind::Wsl,
            ConnectionKind::Ssh,
        ];
        assert(kinds@ =~= offered_kinds(os@));
        kinds
    } else if same_text(os, "macos") {
        let kinds: &'static [ConnectionKind] = &[ConnectionKind::Terminal, ConnectionKind::Ssh];
        assert(kinds@ =~= offered_kinds(os@));
        kinds
    } else {
        let kinds: &'static [ConnectionKind] = &[];
        assert(kinds@ =~= offered_kinds(os@));
        kinds
    }
}

/// The kinds whose answer is `want`, in the order given.
pub open spec fn picked(kinds: Seq<ConnectionKind>, answers: Seq<bool>, want: bool) -> Seq<
    ConnectionKind,
>
    decreases kinds.len(),
{
    if kinds.len() == 0 || answers.len() == 0 {
        seq![]
    } else {
        let before = picked(kinds.drop_last(), answers.drop_last(), want);
        if answers.last() == want {
            before.push(kinds.last())
        } else {
            before
        }
    }
}

/// The rows in the order the list shows them: the available kinds, then the missing ones,
/// each group in the order given.
pub open spec fn catalogued(kinds: Seq<ConnectionKind>, answers: Seq<bool>) -> Seq<(ConnectionKind, bool)> {
    picked(kinds, answers, true).map_values(|k: ConnectionKind| (k, true)) + picked(
        kinds,
        answers,
        false,
    ).map_values(|k: ConnectionKind| (k, false))
}

pub open spec fn row_label(kind: ConnectionKind, available: bool) -> Seq<char> {
    if available {
        kind_label(kind)
    } else {
        kind_label(kind) + NOT_AVAILABLE@
    }
}

/// Whether `rows` are exactly the rows `catalogued` names, each labelled.
pub open spec fn lists(rows: Seq<Connection>, kinds: Seq<ConnectionKind>, answers: Seq<bool>) -> bool {
    let expected = catalogued(kinds, answers);
    &&& rows.len() == expected.len()
    &&& forall|i: int|
        0 <= i < rows.len() ==> {
            &&& (#[trigger] rows[i]).kind == expected[i].0
            &&& rows[i].available == expected[i].1
            &&& rows[i].label@ == row_label(expected[i].0, expected[i].1)
        }
}

pub proof fn lemma_picked_len(kinds: Seq<ConnectionKind>, answers: Seq<bool>)
    requires
        kinds.len() == answers.len(),
    ensures
        picked(kinds, answers, true).len() + picked(kinds, answers, false).len() == kinds.len(),
    decreases kinds.len(),
{
    if kinds.len() > 0 {
        lemma_picked_len(kinds.drop_last(), answers.drop_last());
    }
}

fn row(kind: ConnectionKind, available: bool) -> (r: Connection)
    ensures
        r.kind == kind,
        r.available == available,
        r.label@ == row_label(kind, available),
{
    if available {
        Connection { kind, label: copied(kind.label()), available: true }
    } else {
        Connection { kind, label: concat(kind.label(), NOT_AVAILABLE), available: false }
    }
}

/// The connect list: every kind offered, available ones first, each labelled. Each group
/// keeps its relative order; only the availability boundary moves. `has` is asked once per
/// kind, and the list is built from what it answered.
pub fn catalogue<F: Fn(ConnectionKind) -> bool>(kinds: &[ConnectionKind], has: F) -> (r: Vec<
    Connection,
>)
    requires
        forall|i: int| 0 <= i < kinds@.len() ==> call_requires(has, (#[trigger] kinds@[i],)),
    ensures
        exists|answers: Seq<bool>|
            {
                &&& answers.len() == kinds@.len()
                &&& forall|i: int|
                    0 <= i < kinds@.len() ==> call_ensures(
                        has,
                        (#[trigger] kinds@[i],),
                        answers[i],
                    )
                &&& lists(r@, kinds@, answers)
            },
{
    let mut answers: Vec<bool> = Vec::new();
    let mut i: usize = 0;
    while i < kinds.len()
        invariant
            i <= kinds@.len(),
            answers@.len() == i,
            forall|k: int| 0 <= k < kinds@.len() ==> call_requires(has, (#[trigger] kinds@[k],)),
            forall|k: int| 0 <= k < i ==> call_ensures(has, (#[trigger] kinds@[k],), answers@[k]),
        decreases kinds.len() - i,
    {
        let answer = has(kinds[i]);
        answers.push(answer);
        i += 1;
    }
    let ghost all = answers@;
    let mut rows: Vec<Connection> = Vec::new();
    append_picked(&mut rows, kinds, &answers, true);
    let ghost first = rows@;
    append_picked(&mut rows, kinds, &answers, false);
    proof {
        let p1 = picked(kinds@, all, true);
        let p2 = picked(kinds@, all, false);
        let m1 = p1.map_values(|k: ConnectionKind| (k, true));
        let m2 = p2.map_values(|k: ConnectionKind| (k, false));
        let expected = catalogued(kinds@, all);
        assert(expected == m1 + m2);
        assert forall|i: int| 0 <= i < rows@.len() implies {
            &&& (#[trigger] rows@[i]).kind == expected[i].0
            &&& rows@[i].available == expected[i].1
            &&& rows@[i].label@ == row_label(expected[i].0, expected[i].1)
        } by {
            if i < p1.len() {
                assert(rows@.subrange(0, first.len() as int)[i] == rows@[i]);
                assert(first[0 + i] == rows@[i]);
                assert(expected[i] == m1[i]);
            } else {
                let k = i - p1.len();
                assert(rows@[first.len() + k] == rows@[i]);
                assert(expected[i] == m2[k]);
            }
        }
        assert(lists(rows@, kinds@, all));
    }
    rows
}

fn append_picked(rows: &mut Vec<Connection>, kinds: &[ConnectionKind], answers: &Vec<bool>, want: bool)
    requires
        answers@.len() == kinds@.len(),
    ensures
        final(rows)@.len() == old(rows)@.len() + picked(kinds@, answers@, want).len(),
        final(rows)@.subrange(0, old(rows)@.len() as int) == old(rows)@,
        forall|k: int|
            0 <= k < picked(kinds@, answers@, want).len() ==> {
                &&& (#[trigger] final(rows)@[old(rows)@.len() + k]).kind == picked(
                    kinds@,
                    answers@,
                    want,
                )[k]
                &&& final(rows)@[old(rows)@.len() + k].available == want
                &&& final(rows)@[old(rows)@.len() + k].label@ == row_label(
                    picked(kinds@, answers@, want)[k],
                    want,
                )
            },
{
    let ghost base = rows@;
    let ghost all = answers@;
    let mut j: usize = 0;
    while j < kinds.len()
        invariant
            j <= kinds@.len(),
            answers@ == all,
            all.len() == kinds@.len(),
            rows@.len() == base.len() + picked(kinds@.take(j as int), all.take(j as int), want).len(),
            rows@.subrange(0, base.len() as int) == base,
            forall|k: int|
                0 <= k < picked(kinds@.take(j as int), all.take(j as int), want).len() ==> {
                    &&& (#[trigger] rows@[base.len() + k]).kind == picked(
                        kinds@.take(j as int),
                        all.take(j as int),
                        want,
                    )[k]
                    &&& rows@[base.len() + k].available == want
                    &&& rows@[base.len() + k].label@ == row_label(rows@[base.len() + k].kind, want)
                },
        decreases kinds.len() - j,
    {
        assert(kinds@.take(j + 1).drop_last() =~= kinds@.take(j as int));
        assert(all.take(j + 1).drop_last() =~= all.take(j as int));
        if answers[j] == want {
            let made = row(kinds[j], want);
            rows.push(made);
        }
        j += 1;
    }
    assert(kinds@.take(kinds@.len() as int) =~= kinds@);
    assert(all.take(all.len() as int) =~= all);
}

pub open spec fn lists_prefix(rows: Seq<Connection>, kinds: Seq<ConnectionKind>, want: bool) -> bool {
    &&& rows.len() == kinds.len()
    &&& forall|i: int|
        0 <= i < rows.len() ==> {
            &&& (#[trigger] rows[i]).kind == kinds[i]
            &&& rows[i].available == want
            &&& rows[i].label@ == row_label(kinds[i], want)
        }
}

/// The list is the same length however little is installed, and only the availability
/// boundary moves: every kind appears once, available ones first.
pub proof fn lemma_catalogue_keeps_every_kind(kinds: Seq<ConnectionKind>, answers: Seq<bool>)
    requires
        kinds.len() == answers.len(),
    ensures
        catalogued(kinds, answers).len() == kinds.len(),
{
    lemma_picked_len(kinds, answers);
}

} // verus!
