//! The decisions connecting makes from what the machine, the signatures and the person
//! answered: each one a function of those answers alone.

use vstd::multiset::Multiset;
use vstd::prelude::*;

use crate::entities::{
    Connectable, ConnectionKind, LineOwner, ProfileId, no_such_connection, no_such_connection_said, ProfileView, SavedConnection, SavedRow, ShellInstall,
    Variant, Verdict, DEFAULT_SSH_PORT, last_segment, profile_label, target_profile,
    target_summary, directory_of, kind_instructions, kind_label,
    opt_view, qualifier_of, verdict_note, verdict_said, verdict_settled,
};
use crate::policies::Connection;
use crate::ports::{LoginShell, NoDistributions, ProgramAnswer, first_named, position_named};
use crate::text::{blank, chars_of, concat, copied, is_blank, lowercase, lowercased};

verus! {

pub const NOT_AVAILABLE: &'static str = " (not available)";

pub const DEFAULT: &'static str = " (default)";

pub const NOT_VERIFIED: &'static str = " (not verified)";

pub const NOTHING_TO_SAVE: &'static str = "Nothing is connected, so there is nothing to save.";

pub const NEEDS_HOST: &'static str = "Acter needs the name or address of the machine to connect to.";

pub const NEEDS_USER: &'static str = "Acter needs the name of the account to sign in as.";

/// The program of the first install, else what to do to get one.
pub open spec fn found_in(kind: ConnectionKind, installs: Seq<ShellInstall>) -> Result<
    Seq<char>,
    Seq<char>,
> {
    if installs.len() > 0 {
        Ok(installs[0].program@)
    } else {
        Err(kind_instructions(kind))
    }
}

pub fn first_found(kind: ConnectionKind, installs: &Vec<ShellInstall>) -> (r: Result<String, String>)
    ensures
        match (r, found_in(kind, installs@)) {
            (Ok(p), Ok(q)) => p@ == q,
            (Err(e), Err(f)) => e@ == f,
            _ => false,
        },
{
    if installs.len() > 0 {
        Ok(installs[0].program.clone())
    } else {
        Err(copied(kind.instructions()))
    }
}

/// The index of the account's own shell, else of the first, else `-1`.
pub open spec fn default_shell(shells: Seq<LoginShell>) -> int {
    if exists|i: int| 0 <= i < shells.len() && shells[i].default {
        choose|i: int| 0 <= i < shells.len() && shells[i].default && forall|j: int|
            0 <= j < i ==> !(#[trigger] shells[j]).default
    } else if shells.len() > 0 {
        0
    } else {
        -1
    }
}

/// Where the first shell marked as the account's own stands, else the first, else
/// `shells.len()`.
pub fn default_shell_at(shells: &Vec<LoginShell>) -> (i: usize)
    ensures
        i <= shells@.len(),
        i < shells@.len() ==> i == default_shell(shells@),
        i == shells@.len() ==> default_shell(shells@) == -1,
{
    let mut i: usize = 0;
    while i < shells.len()
        invariant
            i <= shells@.len(),
            forall|j: int| 0 <= j < i ==> !(#[trigger] shells@[j]).default,
        decreases shells.len() - i,
    {
        if shells[i].default {
            assert(0 <= i < shells@.len() && shells@[i as int].default && forall|j: int|
                0 <= j < i ==> !(#[trigger] shells@[j]).default);
            proof {
                let c = default_shell(shells@);
                assert(forall|j: int| 0 <= j < c ==> !(#[trigger] shells@[j]).default);
                assert(c == i) by {
                    if c < i {
                        assert(!shells@[c].default);
                    } else if c > i {
                        assert(!shells@[i as int].default);
                    }
                };
            }
            return i;
        }
        i += 1;
    }
    if shells.len() > 0 {
        0
    } else {
        0
    }
}

/// Whether an SSH profile is missing what it needs, and the sentence that says so.
pub open spec fn ssh_refusal(host: Seq<char>, user: Seq<char>) -> Option<Seq<char>> {
    if is_blank(host) {
        Some(NEEDS_HOST@)
    } else if is_blank(user) {
        Some(NEEDS_USER@)
    } else {
        None
    }
}

pub fn refuse_ssh(host: &str, user: &str) -> (r: Option<&'static str>)
    ensures
        match (r, ssh_refusal(host@, user@)) {
            (Some(said), Some(s)) => said@ == s,
            (None, None) => true,
            _ => false,
        },
{
    if blank(host) {
        Some(NEEDS_HOST)
    } else if blank(user) {
        Some(NEEDS_USER)
    } else {
        None
    }
}

/// What a label becomes when the file it names already failed to verify.
pub open spec fn named_label(label: Seq<char>, known: Option<Verdict>) -> Seq<char> {
    match known {
        Some(verdict) => if !verdict_settled(verdict) {
            label + NOT_VERIFIED@
        } else {
            label
        },
        None => label,
    }
}

pub fn name_label(label: String, known: Option<Verdict>) -> (r: String)
    ensures
        r@ == named_label(label@, known),
{
    match known {
        Some(verdict) => {
            if !verdict.settled() {
                concat(label.as_str(), NOT_VERIFIED)
            } else {
                label
            }
        },
        None => label,
    }
}

/// The sentence for a program the person chose not to start.
pub open spec fn not_started(label: Seq<char>, verdict: Verdict) -> Seq<char> {
    "Acter did not start "@ + label + ". "@ + verdict_said(verdict)
}

/// What starting a verified file says: its note, or, for a file that did not verify, the
/// person's answer decides.
pub open spec fn agreed(verdict: Verdict, label: Seq<char>, answer: ProgramAnswer) -> Result<
    Option<Seq<char>>,
    Seq<char>,
> {
    if verdict_settled(verdict) || answer == ProgramAnswer::Start {
        Ok(verdict_note(verdict))
    } else {
        Err(not_started(label, verdict))
    }
}

pub fn agree(verdict: &Verdict, label: &str, answer: ProgramAnswer) -> (r: Result<Option<String>, String>)
    ensures
        match (r, agreed(*verdict, label@, answer)) {
            (Ok(n), Ok(m)) => opt_view(n) == m,
            (Err(e), Err(f)) => e@ == f,
            _ => false,
        },
{
    if verdict.settled() || answer == ProgramAnswer::Start {
        Ok(verdict.note())
    } else {
        let mut said = concat("Acter did not start ", label);
        said.append(". ");
        let why = verdict.said();
        said.append(why.as_str());
        Err(said)
    }
}

/// What a second install of one edition is told apart by: nothing on a machine with one,
/// else what its provenance says.
pub open spec fn said_of(installs: Seq<ShellInstall>, i: int) -> Option<Seq<char>> {
    if installs.len() == 1 {
        None
    } else {
        qualifier_of(installs[i].provenance, installs[i].program@)
    }
}

/// Whether another install says the same about itself as install `i`.
pub open spec fn shares(installs: Seq<ShellInstall>, i: int) -> bool {
    exists|j: int| 0 <= j < installs.len() && j != i && said_of(installs, j) == said_of(installs, i)
}

/// Install `i` as a profile: its provenance where that tells it apart, its directory where
/// another install says the same.
pub open spec fn told_apart(edition: ConnectionKind, installs: Seq<ShellInstall>, i: int) -> ProfileView {
    ProfileView::Install {
        kind: edition,
        program: installs[i].program@,
        provenance: if shares(installs, i) {
            Some(directory_of(installs[i].program@))
        } else {
            said_of(installs, i)
        },
    }
}

fn same_said(a: &Option<String>, b: &Option<String>) -> (r: bool)
    ensures
        r == (opt_view(*a) == opt_view(*b)),
{
    match (a, b) {
        (Some(x), Some(y)) => crate::text::same_text(x.as_str(), y.as_str()),
        (None, None) => true,
        _ => false,
    }
}

/// Two installs of one program never share a directory, so the directory always tells
/// them apart.
pub fn tell_apart(edition: ConnectionKind, installs: &Vec<ShellInstall>) -> (r: Vec<ProfileId>)
    ensures
        r@.len() == installs@.len(),
        forall|i: int| 0 <= i < r@.len() ==> (#[trigger] r@[i])@ == told_apart(edition, installs@, i),
{
    let single = installs.len() == 1;
    let mut said: Vec<Option<String>> = Vec::new();
    let mut i: usize = 0;
    while i < installs.len()
        invariant
            i <= installs@.len(),
            single == (installs@.len() == 1),
            said@.len() == i,
            forall|k: int| 0 <= k < i ==> opt_view(#[trigger] said@[k]) == said_of(installs@, k),
        decreases installs.len() - i,
    {
        let one = if single {
            None
        } else {
            installs[i].qualifier()
        };
        said.push(one);
        i += 1;
    }
    let mut ids: Vec<ProfileId> = Vec::new();
    let mut i: usize = 0;
    while i < installs.len()
        invariant
            i <= installs@.len(),
            said@.len() == installs@.len(),
            forall|k: int| 0 <= k < installs@.len() ==> opt_view(#[trigger] said@[k]) == said_of(installs@, k),
            ids@.len() == i,
            forall|k: int| 0 <= k < i ==> (#[trigger] ids@[k])@ == told_apart(edition, installs@, k),
        decreases installs.len() - i,
    {
        let mut shared = false;
        let mut j: usize = 0;
        while j < said.len()
            invariant
                i < installs@.len(),
                j <= said@.len(),
                said@.len() == installs@.len(),
                forall|k: int| 0 <= k < installs@.len() ==> opt_view(#[trigger] said@[k]) == said_of(installs@, k),
                shared == exists|k: int| 0 <= k < j && k != i && said_of(installs@, k) == said_of(installs@, i as int),
            decreases said.len() - j,
        {
            if j != i && same_said(&said[j], &said[i]) {
                shared = true;
            }
            proof {
                if j != i && said_of(installs@, j as int) == said_of(installs@, i as int) {
                    assert(opt_view(said@[j as int]) == opt_view(said@[i as int]));
                }
            }
            j += 1;
        }
        let provenance = if shared {
            Some(installs[i].directory())
        } else {
            match &said[i] {
                Some(s) => Some(s.clone()),
                None => None,
            }
        };
        ids.push(ProfileId::Install { kind: edition, program: installs[i].program.clone(), provenance });
        i += 1;
    }
    ids
}


/// The instructions a connect-list row carries: none when it is available, its kind's own
/// otherwise.
pub open spec fn row_instructions(row: Connection) -> Option<Seq<char>> {
    if row.available {
        None
    } else {
        Some(kind_instructions(row.kind))
    }
}

/// Whether `r` is the Terminal row for the login shells `shells` the account may use, each
/// marked by what is known of its file: one variant per shell, in order, and the account's
/// own shell (else the first) chosen.
pub open spec fn terminal_row_of(r: Connectable, row: Connection, shells: Seq<LoginShell>, known: Seq<Option<Verdict>>) -> bool {
    &&& r.label@ == row.label@
    &&& opt_view(r.instructions) == row_instructions(row)
    &&& r.variants@.len() == shells.len()
    &&& forall|i: int| 0 <= i < shells.len() ==> shell_variant(#[trigger] r.variants@[i], shells[i], known[i])
    &&& r.available == (shells.len() > 0)
    &&& if shells.len() > 0 {
        r.id == r.variants@[if 0 <= default_shell(shells) < shells.len() { default_shell(shells) } else { 0 }].id
    } else {
        r.id@ == (ProfileView::Shell { kind: ConnectionKind::Terminal })
    }
}

/// The Terminal row for the account's login shells and what is known of each one's file.
pub fn terminal_connectable(row: &Connection, shells: &Vec<LoginShell>, known: &Vec<Option<Verdict>>) -> (r: Connectable)
    requires
        known@.len() == shells@.len(),
    ensures
        terminal_row_of(r, *row, shells@, known@),
{
    let mut variants: Vec<Variant> = Vec::new();
    let mut i: usize = 0;
    while i < shells.len()
        invariant
            i <= shells@.len(),
            known@.len() == shells@.len(),
            variants@.len() == i,
            forall|k: int| 0 <= k < i ==> shell_variant(#[trigger] variants@[k], shells@[k], known@[k]),
        decreases shells.len() - i,
    {
        variants.push(shell_variant_of(&shells[i], known[i].clone()));
        i += 1;
    }
    let at = default_shell_at(shells);
    let available = variants.len() > 0;
    let pick = if at < variants.len() {
        at
    } else {
        0
    };
    let id = if available {
        variants[pick].id.clone()
    } else {
        ProfileId::Shell { kind: ConnectionKind::Terminal }
    };
    Connectable {
        id,
        label: row.label.clone(),
        available,
        instructions: match row.instructions() {
            Some(said) => Some(copied(said)),
            None => None,
        },
        variants,
    }
}

/// How many variants an edition contributes: one per install, or one saying it is missing.
pub open spec fn edition_count(installs: Seq<ShellInstall>) -> int {
    if installs.len() == 0 {
        1
    } else {
        installs.len() as int
    }
}

/// Whether `vs` are the variants one PowerShell edition contributes: each install told apart
/// from the others and marked by what is known of its file, or one unavailable variant
/// saying how to get the edition.
pub open spec fn edition_rows(vs: Seq<Variant>, edition: ConnectionKind, installs: Seq<ShellInstall>, known: Seq<Option<Verdict>>) -> bool {
    if installs.len() == 0 {
        &&& vs.len() == 1
        &&& vs[0].id@ == (ProfileView::Shell { kind: edition })
        &&& vs[0].label@ == kind_label(edition) + NOT_AVAILABLE@
        &&& !vs[0].available
        &&& opt_view(vs[0].instructions) == Some(kind_instructions(edition))
    } else {
        &&& vs.len() == installs.len()
        &&& forall|k: int|
            0 <= k < vs.len() ==> {
                &&& (#[trigger] vs[k]).id@ == told_apart(edition, installs, k)
                &&& vs[k].label@ == named_label(profile_label(told_apart(edition, installs, k)), known[k])
                &&& vs[k].available
                &&& vs[k].instructions is None
            }
    }
}

/// Whether `vs` are the variants of the editions `editions` in order, from what the machine
/// lists of each and what is known of each install's file.
pub open spec fn editions_rows(
    vs: Seq<Variant>,
    editions: Seq<ConnectionKind>,
    lists: Seq<Seq<ShellInstall>>,
    known: Seq<Seq<Option<Verdict>>>,
) -> bool
    decreases editions.len(),
{
    if editions.len() == 0 {
        vs.len() == 0
    } else {
        let n = vs.len() - edition_count(lists[editions.len() - 1]);
        &&& n >= 0
        &&& editions_rows(vs.take(n), editions.drop_last(), lists, known)
        &&& edition_rows(vs.skip(n), editions.last(), lists[editions.len() - 1], known[editions.len() - 1])
    }
}

/// Whether `r` is the PowerShell row: every edition's variants in order, and the first
/// available one chosen, else the kind itself.
pub open spec fn powershell_row_of(
    r: Connectable,
    row: Connection,
    editions: Seq<ConnectionKind>,
    lists: Seq<Seq<ShellInstall>>,
    known: Seq<Seq<Option<Verdict>>>,
) -> bool {
    &&& r.label@ == row.label@
    &&& opt_view(r.instructions) == row_instructions(row)
    &&& editions_rows(r.variants@, editions, lists, known)
    &&& r.available == exists|i: int| 0 <= i < r.variants@.len() && (#[trigger] r.variants@[i]).available
    &&& !r.available ==> r.id@ == (ProfileView::Shell { kind: ConnectionKind::PowerShell })
    &&& r.available ==> exists|i: int|
        0 <= i < r.variants@.len() && (#[trigger] r.variants@[i]).available && r.id == r.variants@[i].id
            && forall|j: int| 0 <= j < i ==> !(#[trigger] r.variants@[j]).available
}

/// The PowerShell row for what the machine lists of each edition, in `editions` order, and
/// what is known of each install's file.
pub fn powershell_connectable(
    row: &Connection,
    editions: &[ConnectionKind],
    lists: &Vec<Vec<ShellInstall>>,
    known: &Vec<Vec<Option<Verdict>>>,
) -> (r: Connectable)
    requires
        lists@.len() == editions@.len(),
        known@.len() == editions@.len(),
        forall|e: int| 0 <= e < editions@.len() ==> (#[trigger] known@[e])@.len() == lists@[e]@.len(),
    ensures
        powershell_row_of(r, *row, editions@, lists@.map_values(|l: Vec<ShellInstall>| l@), known@.map_values(|k: Vec<Option<Verdict>>| k@)),
{
    let ghost ls = lists@.map_values(|l: Vec<ShellInstall>| l@);
    let ghost ks = known@.map_values(|k: Vec<Option<Verdict>>| k@);
    let mut variants: Vec<Variant> = Vec::new();
    let mut e: usize = 0;
    while e < editions.len()
        invariant
            e <= editions@.len(),
            lists@.len() == editions@.len(),
            known@.len() == editions@.len(),
            ls == lists@.map_values(|l: Vec<ShellInstall>| l@),
            ks == known@.map_values(|k: Vec<Option<Verdict>>| k@),
            forall|x: int| 0 <= x < editions@.len() ==> (#[trigger] known@[x])@.len() == lists@[x]@.len(),
            editions_rows(variants@, editions@.take(e as int), ls, ks),
        decreases editions.len() - e,
    {
        let ghost before = variants@;
        let edition = editions[e];
        let installs = &lists[e];
        if installs.len() == 0 {
            variants.push(Variant {
                id: ProfileId::Shell { kind: edition },
                label: concat(edition.label(), NOT_AVAILABLE),
                available: false,
                instructions: Some(copied(edition.instructions())),
            });
        } else {
            let ids = tell_apart(edition, installs);
            let mut k: usize = 0;
            while k < ids.len()
                invariant
                    k <= ids@.len(),
                    e < editions@.len(),
                    known@.len() == editions@.len(),
                    lists@.len() == editions@.len(),
                    installs == &lists@[e as int],
                    ids@.len() == installs@.len(),
                    known@[e as int]@.len() == installs@.len(),
                    forall|j: int| 0 <= j < ids@.len() ==> (#[trigger] ids@[j])@ == told_apart(edition, installs@, j),
                    variants@.len() == before.len() + k,
                    variants@.take(before.len() as int) == before,
                    forall|j: int|
                        0 <= j < k ==> {
                            &&& (#[trigger] variants@[before.len() + j]).id@ == told_apart(edition, installs@, j)
                            &&& variants@[before.len() + j].label@ == named_label(
                                profile_label(told_apart(edition, installs@, j)),
                                known@[e as int]@[j],
                            )
                            &&& variants@[before.len() + j].available
                            &&& variants@[before.len() + j].instructions is None
                        },
                decreases ids.len() - k,
            {
                let label = name_label(ids[k].label(), known[e][k].clone());
                variants.push(Variant { label, id: ids[k].clone(), available: true, instructions: None });
                k += 1;
            }
        }
        proof {
            let now = editions@.take(e + 1);
            assert(now.drop_last() =~= editions@.take(e as int));
            assert(now.last() == editions@[e as int]);
            assert(variants@.take(before.len() as int) =~= before);
            assert(ls[e as int] == lists@[e as int]@);
            assert(ks[e as int] == known@[e as int]@);
            let part = variants@.skip(before.len() as int);
            if installs@.len() > 0 {
                assert forall|j: int| 0 <= j < part.len() implies part[j] == variants@[before.len() + j] by {}
            }
            assert(edition_rows(part, editions@[e as int], ls[e as int], ks[e as int]));
        }
        e += 1;
    }
    assert(editions@.take(editions@.len() as int) =~= editions@);
    let mut first: usize = 0;
    while first < variants.len() && !variants[first].available
        invariant
            first <= variants@.len(),
            forall|j: int| 0 <= j < first ==> !(#[trigger] variants@[j]).available,
        decreases variants.len() - first,
    {
        first += 1;
    }
    let available = first < variants.len();
    let id = if available {
        variants[first].id.clone()
    } else {
        ProfileId::Shell { kind: ConnectionKind::PowerShell }
    };
    Connectable {
        id,
        label: row.label.clone(),
        available,
        instructions: match row.instructions() {
            Some(said) => Some(copied(said)),
            None => None,
        },
        variants,
    }
}


/// The program of the first install of the first edition the machine lists any install of,
/// or `None` when it lists none.
pub open spec fn first_listed(lists: Seq<Seq<ShellInstall>>) -> Option<Seq<char>>
    decreases lists.len(),
{
    if lists.len() == 0 {
        None
    } else if lists[0].len() > 0 {
        Some(lists[0][0].program@)
    } else {
        first_listed(lists.drop_first())
    }
}

/// The program to start for PowerShell, from what the machine listed of each edition in the
/// order asked.
pub fn first_edition_program(lists: &Vec<Vec<ShellInstall>>) -> (r: Option<String>)
    ensures
        opt_view(r) == first_listed(lists@.map_values(|l: Vec<ShellInstall>| l@)),
{
    let ghost all = lists@.map_values(|l: Vec<ShellInstall>| l@);
    assert(all.skip(0) =~= all);
    let mut i: usize = 0;
    while i < lists.len()
        invariant
            i <= lists@.len(),
            all == lists@.map_values(|l: Vec<ShellInstall>| l@),
            first_listed(all) == first_listed(all.skip(i as int)),
        decreases lists.len() - i,
    {
        assert(all.skip(i as int).drop_first() =~= all.skip(i + 1));
        assert(all.skip(i as int)[0] == lists@[i as int]@);
        if lists[i].len() > 0 {
            return Some(lists[i][0].program.clone());
        }
        i += 1;
    }
    assert(all.skip(i as int) =~= Seq::<Seq<ShellInstall>>::empty());
    None
}


/// The saved connection a rename or a forget acts on: the one the store had under `name`,
/// or the sentence that there is none.
pub fn saved_or_missing(found: Option<SavedConnection>, name: &str) -> (r: Result<SavedConnection, String>)
    ensures
        match found {
            Some(saved) => r == Ok::<SavedConnection, String>(saved),
            None => r matches Err(why) && why@ == no_such_connection_said(name@),
        },
{
    match found {
        Some(saved) => Ok(saved),
        None => Err(no_such_connection(name)),
    }
}

/// Whether a name is free for a connection to take: refused with a sentence when another
/// saved connection is already called so.
pub fn name_free(taken: bool, name: &str) -> (r: Result<(), String>)
    ensures
        taken ==> (r matches Err(why) && why@ == already_exists_said(name@)),
        !taken ==> r is Ok,
{
    if taken {
        Err(already_exists(name))
    } else {
        Ok(())
    }
}

/// The line owner a session opened from a saved connection keeps: the one saved with it, or
/// the far end's when nothing is saved under that name.
pub fn owner_from(found: Option<SavedConnection>) -> (r: LineOwner)
    ensures
        r == match found {
            Some(saved) => saved.line_owner,
            None => LineOwner::FarEnd,
        },
{
    match found {
        Some(saved) => saved.line_owner,
        None => LineOwner::FarEnd,
    }
}

/// What is said on connecting: the factory's note when it gave one, else the note the
/// program's signature earned.
pub fn opened_note(factory: &Option<String>, agreed: Option<String>) -> (r: Option<String>)
    ensures
        opt_view(r) == if factory is Some {
            opt_view(*factory)
        } else {
            opt_view(agreed)
        },
{
    match factory {
        Some(said) => Some(said.clone()),
        None => agreed,
    }
}

} // verus!

verus! {

pub open spec fn already_exists_said(name: Seq<char>) -> Seq<char> {
    "A connection named "@ + name
        + " already exists. Choose another name, or forget that one first."@
}

pub fn already_exists(name: &str) -> (r: String)
    ensures
        r@ == already_exists_said(name@),
{
    let mut said = concat("A connection named ", name);
    said.append(" already exists. Choose another name, or forget that one first.");
    said
}

pub open spec fn gone_said(distribution: Seq<char>) -> Seq<char> {
    "The WSL distribution "@ + distribution
        + " is not installed on this computer any more. Install it by running wsl --install -d "@
        + distribution + " from an administrator Command Prompt, or forget this connection."@
}

pub fn gone(distribution: &str) -> (r: String)
    ensures
        r@ == gone_said(distribution@),
{
    let mut said = concat("The WSL distribution ", distribution);
    said.append(
        " is not installed on this computer any more. Install it by running wsl --install -d ",
    );
    said.append(distribution);
    said.append(" from an administrator Command Prompt, or forget this connection.");
    said
}

/// Must match the sentence the factory refuses a scripted session with in a release build.
pub open spec fn only_in_development_said(scenario: Seq<char>) -> Seq<char> {
    "The scripted session "@ + scenario + " is only available in a development build of Acter."@
}

pub fn only_in_development(scenario: &str) -> (r: String)
    ensures
        r@ == only_in_development_said(scenario@),
{
    let mut said = concat("The scripted session ", scenario);
    said.append(" is only available in a development build of Acter.");
    said
}

pub open spec fn saved_as_said(name: Seq<char>) -> Seq<char> {
    "Saved as "@ + name + seq!['.']
}

pub open spec fn renamed_said(was: Seq<char>, to: Seq<char>) -> Seq<char> {
    was + " is now called "@ + to + seq!['.']
}

pub open spec fn forgotten_said(was: Seq<char>) -> Seq<char> {
    was + " is no longer saved."@
}

/// The distribution named, if WSL lists it; else why not.
pub open spec fn distribution_in(listed: Result<Seq<Seq<char>>, Seq<char>>, named: Seq<char>) -> Result<
    ProfileView,
    Seq<char>,
> {
    match listed {
        Err(why) => Err(why),
        Ok(names) => if names.contains(named) {
            Ok(ProfileView::Distribution { name: named })
        } else {
            Err(gone_said(named))
        },
    }
}

pub open spec fn texts(names: Seq<String>) -> Seq<Seq<char>> {
    names.map_values(|name: String| name@)
}

/// What WSL answered, as text.
pub open spec fn listed_view(answer: Result<Vec<String>, crate::ports::NoDistributions>) -> Result<
    Seq<Seq<char>>,
    Seq<char>,
> {
    match answer {
        Ok(names) => Ok(texts(names@)),
        Err(why) => Err(crate::ports::no_distributions_said(why)),
    }
}

pub fn distribution_from(answer: Result<Vec<String>, crate::ports::NoDistributions>, named: &str) -> (r:
    Result<ProfileId, String>)
    ensures
        match (r, distribution_in(listed_view(answer), named@)) {
            (Ok(id), Ok(v)) => id@ == v,
            (Err(e), Err(f)) => e@ == f,
            _ => false,
        },
{
    match answer {
        Err(why) => Err(why.to_string()),
        Ok(names) => {
            let ghost seen = texts(names@);
            let mut i: usize = 0;
            while i < names.len()
                invariant
                    i <= names@.len(),
                    seen == texts(names@),
                    listed_view(answer) == Ok::<Seq<Seq<char>>, Seq<char>>(seen),
                    forall|k: int| 0 <= k < i ==> seen[k] != named@,
                decreases names.len() - i,
            {
                if crate::text::same_text(names[i].as_str(), named) {
                    assert(seen[i as int] == named@);
                    assert(seen.contains(named@));
                    return Ok(ProfileId::Distribution { name: copied(named) });
                }
                i += 1;
            }
            proof {
                if seen.contains(named@) {
                    let k = choose|k: int| 0 <= k < seen.len() && seen[k] == named@;
                    assert(seen[k] != named@);
                }
            }
            Err(gone(named))
        },
    }
}

pub open spec fn has_provenance(id: ProfileView, provenance: Option<Seq<char>>) -> bool {
    match id {
        ProfileView::Install { provenance: had, .. } => had == provenance,
        _ => false,
    }
}

/// The install whose provenance is the one saved, else the first, else what to install.
pub open spec fn edition_in(ids: Seq<ProfileId>, edition: ConnectionKind, provenance: Option<Seq<char>>) -> Result<
    ProfileView,
    Seq<char>,
> {
    if exists|i: int| 0 <= i < ids.len() && has_provenance((#[trigger] ids[i])@, provenance) {
        let i = choose|i: int|
            0 <= i < ids.len() && has_provenance((#[trigger] ids[i])@, provenance) && forall|j: int|
                0 <= j < i ==> !has_provenance((#[trigger] ids[j])@, provenance);
        Ok(ids[i]@)
    } else if ids.len() > 0 {
        Ok(ids[0]@)
    } else {
        Err(kind_instructions(edition))
    }
}

fn provenance_is(id: &ProfileId, provenance: Option<&str>) -> (r: bool)
    ensures
        r == has_provenance(id@, match provenance {
            Some(p) => Some(p@),
            None => None,
        }),
{
    match id {
        ProfileId::Install { provenance: had, .. } => match (had, provenance) {
            (Some(a), Some(b)) => crate::text::same_text(a.as_str(), b),
            (None, None) => true,
            _ => false,
        },
        _ => false,
    }
}

pub fn pick_edition(ids: &Vec<ProfileId>, edition: ConnectionKind, provenance: Option<&str>) -> (r: Result<
    ProfileId,
    String,
>)
    ensures
        match (r, edition_in(ids@, edition, match provenance {
            Some(p) => Some(p@),
            None => None,
        })) {
            (Ok(id), Ok(v)) => id@ == v,
            (Err(e), Err(f)) => e@ == f,
            _ => false,
        },
        r matches Ok(id) ==> exists|i: int| 0 <= i < ids@.len() && id@ == (#[trigger] ids@[i])@,
{
    let ghost wanted = match provenance {
        Some(p) => Some(p@),
        None => None,
    };
    let mut i: usize = 0;
    while i < ids.len()
        invariant
            i <= ids@.len(),
            wanted == match provenance {
                Some(p) => Some(p@),
                None => None::<Seq<char>>,
            },
            forall|j: int| 0 <= j < i ==> !has_provenance((#[trigger] ids@[j])@, wanted),
        decreases ids.len() - i,
    {
        if provenance_is(&ids[i], provenance) {
            proof {
                let c = choose|c: int|
                    0 <= c < ids@.len() && has_provenance((#[trigger] ids@[c])@, wanted) && forall|j: int|
                        0 <= j < c ==> !has_provenance((#[trigger] ids@[j])@, wanted);
                assert(0 <= i < ids@.len() && has_provenance(ids@[i as int]@, wanted) && forall|j: int|
                    0 <= j < i ==> !has_provenance((#[trigger] ids@[j])@, wanted));
                assert(c == i) by {
                    if c < i {
                        assert(!has_provenance(ids@[c]@, wanted));
                    } else if c > i {
                        assert(!has_provenance(ids@[i as int]@, wanted));
                    }
                }
            }
            let picked = ids[i].clone();
            assert(picked@ == ids@[i as int]@);
            return Ok(picked);
        }
        i += 1;
    }
    if ids.len() > 0 {
        let picked = ids[0].clone();
        assert(picked@ == ids@[0]@);
        Ok(picked)
    } else {
        Err(copied(edition.instructions()))
    }
}

} // verus!

verus! {

/// `a` sorts no later than `b`, character by character, as `String`'s own order has it.
pub open spec fn char_le(a: Seq<char>, b: Seq<char>) -> bool
    decreases a.len(),
{
    if a.len() == 0 {
        true
    } else if b.len() == 0 {
        false
    } else if a[0] != b[0] {
        a[0] < b[0]
    } else {
        char_le(a.drop_first(), b.drop_first())
    }
}

/// The order is transitive.
pub proof fn lemma_char_le_transitive(a: Seq<char>, b: Seq<char>, c: Seq<char>)
    requires
        char_le(a, b),
        char_le(b, c),
    ensures
        char_le(a, c),
    decreases a.len(),
{
    if a.len() > 0 && b.len() > 0 && c.len() > 0 && a[0] == b[0] && b[0] == c[0] {
        lemma_char_le_transitive(a.drop_first(), b.drop_first(), c.drop_first());
    }
}

/// Any two texts are in one order or the other.
pub proof fn lemma_char_le_total(a: Seq<char>, b: Seq<char>)
    ensures
        char_le(a, b) || char_le(b, a),
    decreases a.len(),
{
    if a.len() > 0 && b.len() > 0 && a[0] == b[0] {
        lemma_char_le_total(a.drop_first(), b.drop_first());
    }
}

pub fn text_le(a: &Vec<char>, b: &Vec<char>) -> (r: bool)
    ensures
        r == char_le(a@, b@),
{
    let mut i: usize = 0;
    assert(a@.skip(0) =~= a@);
    assert(b@.skip(0) =~= b@);
    while i < a.len() && i < b.len() && a[i] == b[i]
        invariant
            i <= a@.len(),
            i <= b@.len(),
            char_le(a@, b@) == char_le(a@.skip(i as int), b@.skip(i as int)),
        decreases a.len() - i,
    {
        assert(a@.skip(i as int).drop_first() =~= a@.skip(i + 1));
        assert(b@.skip(i as int).drop_first() =~= b@.skip(i + 1));
        i += 1;
    }
    if i == a.len() {
        true
    } else if i == b.len() {
        false
    } else {
        a[i] < b[i]
    }
}

/// How a saved row is ordered: by its name without case.
pub open spec fn name_key(row: SavedRow) -> Seq<char> {
    lowercase(row.name@)
}

pub open spec fn sorted_by_name(rows: Seq<SavedRow>) -> bool {
    forall|i: int, j: int| 0 <= i < j < rows.len() ==> char_le(name_key(#[trigger] rows[i]), name_key(#[trigger] rows[j]))
}

/// The rows in order of their names without case, each row kept as it was.
pub fn sort_by_name(rows: Vec<SavedRow>) -> (r: Vec<SavedRow>)
    ensures
        sorted_by_name(r@),
        r@.to_multiset() == rows@.to_multiset(),
{
    broadcast use vstd::multiset::group_multiset_axioms;

    let ghost all = rows@;
    let mut rows = rows;
    let mut out: Vec<SavedRow> = Vec::new();
    let mut keys: Vec<Vec<char>> = Vec::new();
    proof {
        out@.to_multiset_ensures();
        vstd::multiset::lemma_multiset_empty_len(out@.to_multiset());
        assert(out@.to_multiset() =~= Multiset::empty());
    }
    while rows.len() > 0
        invariant
            out@.len() == keys@.len(),
            forall|k: int| 0 <= k < out@.len() ==> (#[trigger] keys@[k])@ == name_key(out@[k]),
            sorted_by_name(out@),
            out@.to_multiset().add(rows@.to_multiset()) == all.to_multiset(),
        decreases rows.len(),
    {
        let ghost waiting = rows@;
        let row = rows.remove(0);
        proof {
            vstd::seq_lib::to_multiset_remove(waiting, 0);
        }
        let lowered = lowercased(row.name.as_str());
        let key = chars_of(lowered.as_str());
        let mut pos: usize = 0;
        while pos < keys.len() && text_le(&keys[pos], &key)
            invariant
                pos <= keys@.len(),
                out@.len() == keys@.len(),
                key@ == name_key(row),
                forall|k: int| 0 <= k < out@.len() ==> (#[trigger] keys@[k])@ == name_key(out@[k]),
                forall|k: int| 0 <= k < pos ==> char_le(name_key(#[trigger] out@[k]), key@),
            decreases keys.len() - pos,
        {
            pos += 1;
        }
        proof {
            assert forall|k: int| pos <= k < out@.len() implies char_le(key@, name_key(#[trigger] out@[k])) by {
                lemma_char_le_total(keys@[pos as int]@, key@);
                if k > pos {
                    lemma_char_le_transitive(key@, name_key(out@[pos as int]), name_key(out@[k]));
                }
            }
        }
        let ghost before = out@;
        out.insert(pos, row);
        keys.insert(pos, key);
        proof {
            before.insert_ensures(pos as int, row);
            vstd::seq_lib::to_multiset_insert(before, pos as int, row);
            assert(waiting.to_multiset().count(row) > 0) by {
                vstd::seq_lib::to_multiset_contains(waiting, row);
                assert(waiting.contains(row)) by {
                    assert(waiting[0] == row);
                }
            }
            assert(out@.to_multiset().add(rows@.to_multiset()) =~= all.to_multiset());
            assert forall|i: int, j: int| 0 <= i < j < out@.len() implies char_le(name_key(#[trigger] out@[i]), name_key(#[trigger] out@[j])) by {
                if i < pos && j < pos {
                    assert(out@[i] == before[i] && out@[j] == before[j]);
                } else if i < pos && j == pos {
                } else if i < pos {
                    assert(out@[i] == before[i] && out@[j] == before[j - 1]);
                    lemma_char_le_total(name_key(before[i]), key@);
                } else if i == pos {
                    assert(out@[j] == before[j - 1]);
                } else {
                    assert(out@[i] == before[i - 1] && out@[j] == before[j - 1]);
                }
            }
        }
    }
    proof {
        rows@.to_multiset_ensures();
        vstd::multiset::lemma_multiset_empty_len(rows@.to_multiset());
        assert(rows@.to_multiset() =~= Multiset::empty());
        assert(out@.to_multiset() =~= all.to_multiset());
    }
    out
}

} // verus!

verus! {

/// Whether `v` is the panel entry for WSL's distribution `name`.
pub open spec fn distribution_variant(v: Variant, name: Seq<char>) -> bool {
    &&& v.id@ == ProfileView::Distribution { name }
    &&& v.label@ == name
    &&& v.available
    &&& v.instructions is None
}

/// WSL's row: its distributions as the panel's entries, or WSL's own reason in place of
/// them.
pub fn wsl_connectable(label: &String, answer: Result<Vec<String>, NoDistributions>) -> (r: Connectable)
    ensures
        r.id@ == (ProfileView::Shell { kind: ConnectionKind::Wsl }),
        r.label@ == label@,
        match listed_view(answer) {
            Ok(names) => {
                &&& r.available
                &&& r.instructions is None
                &&& r.variants@.len() == names.len()
                &&& forall|i: int| 0 <= i < names.len() ==> distribution_variant(#[trigger] r.variants@[i], names[i])
            },
            Err(why) => {
                &&& !r.available
                &&& opt_view(r.instructions) == Some(why)
                &&& r.variants@.len() == 0
            },
        },
{
    let id = ProfileId::Shell { kind: ConnectionKind::Wsl };
    match answer {
        Ok(names) => {
            let mut variants: Vec<Variant> = Vec::new();
            let mut i: usize = 0;
            while i < names.len()
                invariant
                    i <= names@.len(),
                    listed_view(answer) == Ok::<Seq<Seq<char>>, Seq<char>>(texts(names@)),
                    variants@.len() == i,
                    forall|k: int| 0 <= k < i ==> distribution_variant(#[trigger] variants@[k], texts(names@)[k]),
                decreases names.len() - i,
            {
                let name = names[i].clone();
                variants.push(Variant {
                    label: name.clone(),
                    id: ProfileId::Distribution { name },
                    available: true,
                    instructions: None,
                });
                i += 1;
            }
            Connectable { id, label: label.clone(), available: true, instructions: None, variants }
        },
        Err(why) => Connectable {
            id,
            label: label.clone(),
            available: false,
            instructions: Some(why.to_string()),
            variants: Vec::new(),
        },
    }
}

/// The panel entry for one of this Mac's shells: its name, marked when it is the
/// account's own and when it did not verify last time.
pub open spec fn shell_variant(v: Variant, shell: LoginShell, known: Option<Verdict>) -> bool {
    let name = last_segment(shell.install.program@);
    &&& v.id@ == (ProfileView::Install {
        kind: ConnectionKind::Terminal,
        program: shell.install.program@,
        provenance: Some(name),
    })
    &&& v.label@ == named_label(if shell.default { name + DEFAULT@ } else { name }, known)
    &&& v.available
    &&& v.instructions is None
}

pub fn shell_variant_of(shell: &LoginShell, known: Option<Verdict>) -> (r: Variant)
    ensures
        shell_variant(r, *shell, known),
{
    let mut label = shell.name();
    if shell.default {
        label.append(DEFAULT);
    }
    Variant {
        label: name_label(label, known),
        id: ProfileId::Install {
            kind: ConnectionKind::Terminal,
            program: shell.program().clone(),
            provenance: Some(shell.name()),
        },
        available: true,
        instructions: None,
    }
}

/// The row for a kind with no panel: the install found, labelled by what it is, or the
/// catalogue's row when there is none.
pub open spec fn single_row(r: Connectable, row: Connection, kind: ConnectionKind, found: Option<ShellInstall>, known: Option<Verdict>) -> bool {
    match found {
        Some(install) => {
            let id = ProfileView::Install { kind, program: install.program@, provenance: None };
            &&& r.id@ == id
            &&& r.label@ == named_label(profile_label(id), known)
            &&& r.available
            &&& r.instructions is None
            &&& r.variants@.len() == 0
        },
        None => {
            &&& r.id@ == (ProfileView::Shell { kind })
            &&& r.label@ == row.label@
            &&& r.available == row.available
            &&& (if row.available { r.instructions is None } else { opt_view(r.instructions) == Some(kind_instructions(row.kind)) })
            &&& r.variants@.len() == 0
        },
    }
}

pub fn single_connectable(row: &Connection, kind: ConnectionKind, found: Option<ShellInstall>, known: Option<Verdict>) -> (r: Connectable)
    ensures
        single_row(r, *row, kind, found, known),
{
    match found {
        Some(install) => {
            let id = ProfileId::Install { kind, program: install.program, provenance: None };
            Connectable {
                label: name_label(id.label(), known),
                id,
                available: true,
                instructions: None,
                variants: Vec::new(),
            }
        },
        None => Connectable {
            id: ProfileId::Shell { kind },
            label: row.label.clone(),
            available: row.available,
            instructions: match row.instructions() {
                Some(said) => Some(copied(said)),
                None => None,
            },
            variants: Vec::new(),
        },
    }
}

/// The row the catalogue's scripted names add, in the order given.
pub open spec fn scripted_row(r: Connectable, name: Seq<char>) -> bool {
    let id = ProfileView::Scripted { name };
    &&& r.id@ == id
    &&& r.label@ == profile_label(id)
    &&& r.available
    &&& r.instructions is None
    &&& r.variants@.len() == 0
}

pub fn scripted_connectable(name: &String) -> (r: Connectable)
    ensures
        scripted_row(r, name@),
{
    let id = ProfileId::Scripted { name: name.clone() };
    Connectable { label: id.label(), id, available: true, instructions: None, variants: Vec::new() }
}

/// SSH's row: always offered, naming no machine of its own.
pub open spec fn ssh_row(r: Connectable, label: Seq<char>) -> bool {
    &&& r.id@ == (ProfileView::Ssh { host: seq![], port: DEFAULT_SSH_PORT, user: seq![] })
    &&& r.label@ == label
    &&& r.available
    &&& r.instructions is None
    &&& r.variants@.len() == 0
}

pub fn ssh_connectable(label: &String) -> (r: Connectable)
    ensures
        ssh_row(r, label@),
{
    Connectable {
        id: ProfileId::Ssh { host: String::new(), port: DEFAULT_SSH_PORT, user: String::new() },
        label: label.clone(),
        available: true,
        instructions: None,
        variants: Vec::new(),
    }
}

/// A saved connection as the list shows it, resolved against what this machine has now.
pub open spec fn saved_row(r: SavedRow, saved: SavedConnection, resolved: Result<ProfileView, Seq<char>>) -> bool {
    &&& r.name@ == saved.name@
    &&& r.summary@ == target_summary(saved.target@)
    &&& r.set_up == saved.set_up
    &&& r.line_owner == saved.line_owner
    &&& match resolved {
        Ok(id) => r.id@ == id && r.available && r.instructions is None,
        Err(why) => r.id@ == target_profile(saved.target@) && !r.available && opt_view(r.instructions) == Some(why),
    }
}

pub fn row_of(saved: &SavedConnection, resolved: Result<ProfileId, String>) -> (r: SavedRow)
    ensures
        saved_row(r, *saved, match resolved {
            Ok(id) => Ok(id@),
            Err(why) => Err(why@),
        }),
{
    let available = resolved.is_ok();
    let (id, instructions) = match resolved {
        Ok(id) => (id, None),
        Err(why) => (saved.target.profile(), Some(why)),
    };
    SavedRow {
        name: saved.name.clone(),
        summary: saved.target.summary(),
        set_up: saved.set_up,
        line_owner: saved.line_owner,
        id,
        available,
        instructions,
    }
}

/// The first connection called `name`, compared with `same_name`.
pub fn find_named(rows: &Vec<SavedConnection>, name: &str) -> (r: Option<SavedConnection>)
    ensures
        match r {
            Some(found) => first_named(rows@, name@) >= 0 && found == rows@[first_named(rows@, name@)],
            None => first_named(rows@, name@) == -1,
        },
{
    let at = position_named(rows, name);
    if at < rows.len() {
        Some(rows[at].clone())
    } else {
        None
    }
}

} // verus!
