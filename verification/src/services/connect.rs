//! Which session this window is on, and how it becomes a different one.

use std::sync::Arc;

use vstd::prelude::*;

use crate::entities::{
    KeyAck, KeyPress, SubmitAck, Connectable, Connected, ConnectionKind, LaunchRequest, LineOwner, ProfileId, ProfileView,
    SavedConnection, SavedTarget, SessionId, SetUp, ShellInstall, Variant, Verdict, DEFAULT_SSH_PORT,
    SavedConnections, SavedRow, kind_editions, kind_instructions, no_such_connection, no_such_connection_said,
    opt_view, target_of, target_profile, NO_DISTRIBUTION, profile_label, refusal, refused, same_name, same_names,
};
use crate::policies::{Connection, catalogue};
use crate::ports::{
    Chosen, ConnectQuestions, ConnectionStore, EventSink, LoginShell, ProgramQuestion, SessionApi,
    NoDistributions, SessionFactory, Signatures, Started, StoredConnections, ThisComputer, first_named, no_distributions_said,
};
use crate::services::choices::{
    already_exists, already_exists_said, saved_as_said, distribution_from, find_named, only_in_development, only_in_development_said, pick_edition,
    first_edition_program, first_listed, name_free, opened_note, owner_from, saved_or_missing, powershell_connectable, powershell_row_of, terminal_connectable, terminal_row_of, renamed_said, row_of, saved_row, single_row, ssh_row, sort_by_name, sorted_by_name, NOTHING_TO_SAVE, agree, default_shell_at, first_found,
    refuse_ssh, scripted_connectable, scripted_row, single_connectable,
    ssh_connectable, tell_apart, wsl_connectable,
};
use crate::text::{concat, copied, push_char, trim, trimmed};

verus! {

/// The session behind the window, and what the window was told about it.
struct Live {
    id: SessionId,
    label: String,
    profile: ProfileId,
    set_up: SetUp,
    /// The saved connection this session was started from, or `None` for one nobody has
    /// named yet.
    origin: Option<String>,
    line_owner: LineOwner,
    note: Option<String>,
    limit_explained: bool,
    /// What the factory opened; its `session` is where the window's lines go.
    started: Started,
}

/// What connecting asks of this machine and of the person, and which session is live.
///
/// Generic over the ports so that whoever builds it names their own adapters; each defaults
/// to the port's trait object.
pub struct ConnectService<
    F: SessionFactory + ?Sized = dyn SessionFactory,
    M: ThisComputer + ?Sized = dyn ThisComputer,
    S: Signatures + ?Sized = dyn Signatures,
    C: ConnectionStore + ?Sized = dyn ConnectionStore,
> {
    factory: Arc<F>,
    machine: Arc<M>,
    signatures: Arc<S>,
    scripted: Vec<String>,
    kinds: Vec<ConnectionKind>,
    store: Arc<C>,
    /// The name `acter --connect <name>` asked for, or `None` for an ordinary launch.
    requested: Option<String>,
    /// Which session is live, or `None` for a window connected to nothing.
    current: Option<Live>,
    /// The id the next session is given.
    next: u32,
}

/// What the window knows of the live session, as text.
pub struct LiveView {
    pub id: SessionId,
    pub label: Seq<char>,
    pub profile: ProfileView,
    pub set_up: SetUp,
    pub origin: Option<Seq<char>>,
    pub line_owner: LineOwner,
    pub note: Option<Seq<char>>,
    pub limit_explained: bool,
    /// The note the factory said when it opened it, if any.
    pub opened_note: Option<Seq<char>>,
    /// Whether the factory had already explained the far end's limits.
    pub opened_explained: bool,
}

/// Whether `c` tells the window what `live` is.
pub open spec fn describes(c: Connected, live: LiveView) -> bool {
    &&& c.session == live.id
    &&& c.label@ == live.label
    &&& opt_view(c.note) == live.note
    &&& c.limit_explained == live.limit_explained
    &&& opt_view(c.saved_as) == live.origin
    &&& c.line_owner == live.line_owner
}

/// The first of the installs a machine lists, most preferred first; `None` for none.
pub fn first_install(installs: &Vec<ShellInstall>) -> (r: Option<ShellInstall>)
    ensures
        r == if installs@.len() > 0 {
            Some(installs@[0])
        } else {
            None
        },
{
    if installs.len() > 0 {
        Some(installs[0].clone())
    } else {
        None
    }
}

/// Whether `r` is the connect-list row the catalogue's `row` becomes for its kind: the
/// label it was given, WSL's distributions, PowerShell's editions with the first one found
/// chosen, the account's login shells, SSH's empty form, and for any other kind the install
/// the machine found, marked when its file did not verify.
pub open spec fn kind_row(row: Connection, r: Connectable) -> bool {
    match row.kind {
        ConnectionKind::Wsl => {
            &&& r.id@ == (ProfileView::Shell { kind: ConnectionKind::Wsl })
            &&& r.label@ == row.label@
        },
        ConnectionKind::PowerShell => exists|lists: Seq<Seq<ShellInstall>>, known: Seq<Seq<Option<Verdict>>>|
            powershell_row_of(r, row, kind_editions(ConnectionKind::PowerShell), lists, known),
        ConnectionKind::Terminal => exists|shells: Seq<LoginShell>, known: Seq<Option<Verdict>>|
            known.len() == shells.len() && terminal_row_of(r, row, shells, known),
        ConnectionKind::Ssh => ssh_row(r, row.label@),
        kind => exists|found: Option<ShellInstall>, known: Option<Verdict>| single_row(r, row, kind, found, known),
    }
}

impl<
    F: SessionFactory + ?Sized,
    M: ThisComputer + ?Sized,
    S: Signatures + ?Sized,
    C: ConnectionStore + ?Sized,
> ConnectService<F, M, S, C> {
    /// The live session, or `None` for a window connected to nothing.
    pub closed spec fn live_view(self) -> Option<LiveView> {
        match self.current {
            Some(live) => Some(
                LiveView {
                    id: live.id,
                    label: live.label@,
                    profile: live.profile@,
                    set_up: live.set_up,
                    origin: opt_view(live.origin),
                    line_owner: live.line_owner,
                    note: opt_view(live.note),
                    limit_explained: live.limit_explained,
                    opened_note: opt_view(live.started.note),
                    opened_explained: live.started.limit_explained,
                },
            ),
            None => None,
        }
    }

    /// Whether `handle` is the session the factory opened for the live session, the one the
    /// window's lines reach.
    pub closed spec fn live_session_is(self, handle: &Arc<dyn SessionApi>) -> bool {
        self.current matches Some(live) && &live.started.session == handle
    }

    /// The id the next session will be given.
    pub closed spec fn next_id(self) -> u32 {
        self.next
    }

    /// The name asked for at launch.
    pub closed spec fn requested_name(self) -> Option<Seq<char>> {
        opt_view(self.requested)
    }

    /// The kinds this platform offers, in order.
    pub closed spec fn offered_kinds(self) -> Seq<ConnectionKind> {
        self.kinds@
    }

    /// The scripted scenarios a development build offers.
    pub closed spec fn scripted_names(self) -> Seq<Seq<char>> {
        self.scripted@.map_values(|name: String| name@)
    }

    pub fn new(
        factory: Arc<F>,
        machine: Arc<M>,
        signatures: Arc<S>,
        kinds: Vec<ConnectionKind>,
        scripted: Vec<String>,
        store: Arc<C>,
    ) -> (r: Self)
        ensures
            r.live_view() is None,
            r.next_id() == 1,
            r.requested_name() is None,
            r.offered_kinds() == kinds@,
            r.scripted_names() == scripted@.map_values(|name: String| name@),
    {
        ConnectService {
            factory,
            machine,
            signatures,
            kinds,
            scripted,
            store,
            requested: None,
            current: None,
            next: 1,
        }
    }

    /// The name `acter --connect <name>` asked for.
    pub fn asked_for(self, name: Option<String>) -> (r: Self)
        ensures
            r.requested_name() == opt_view(name),
            r.live_view() == self.live_view(),
            r.next_id() == self.next_id(),
            r.offered_kinds() == self.offered_kinds(),
            r.scripted_names() == self.scripted_names(),
    {
        ConnectService { requested: name, ..self }
    }

    /// `None` also for a stale id, so a line typed for a replaced session never runs in the
    /// new one.
    fn live(&self, session: SessionId) -> (r: Option<&Arc<dyn SessionApi>>)
        ensures
            r is Some <==> (self.live_view() matches Some(live) && live.id == session),
            r matches Some(handle) ==> self.live_session_is(handle),
    {
        match &self.current {
            Some(live) => {
                if live.id == session {
                    Some(&live.started.session)
                } else {
                    None
                }
            },
            None => None,
        }
    }

    /// The first install of this program, or `None` when it is not installed.
    fn install(&self, program: &str) -> (r: Option<ShellInstall>) {
        first_install(&self.machine.installs(program))
    }

    /// The program this machine has for `kind`, or what to do to get one.
    fn found(&self, kind: ConnectionKind) -> (r: Result<String, String>)
        ensures
            r matches Err(why) ==> why@ == kind_instructions(kind),
    {
        let installs = self.machine.installs(kind.program());
        first_found(kind, &installs)
    }

    /// What this machine would start for this profile, resolved once, or the sentence to
    /// say instead.
    fn chosen(&self, id: &ProfileId) -> (r: Result<Chosen, String>)
        ensures
            r matches Ok(chosen) ==> chosen.profile == *id,
            id matches ProfileId::Install { program, .. } ==> (r matches Ok(chosen)
                && chosen.program == Some(*program)),
            id is Scripted ==> (r matches Ok(chosen) && chosen.program is None),
            id is Program ==> r is Ok,
            id matches ProfileId::Shell { kind: ConnectionKind::PowerShell } ==> exists|lists: Seq<Seq<ShellInstall>>|
                lists.len() <= kind_editions(ConnectionKind::PowerShell).len() && match #[trigger] first_listed(lists) {
                    Some(program) => r matches Ok(chosen) && opt_view(chosen.program) == Some(program),
                    None => r matches Err(why) && why@ == kind_instructions(ConnectionKind::PowerShell),
                },
            id matches ProfileId::Shell { kind } ==> match kind {
                ConnectionKind::Wsl => r matches Err(why) ==> (why@ == kind_instructions(ConnectionKind::Wsl)
                    || exists|no: NoDistributions| why@ == no_distributions_said(no)),
                kind => {
                    &&& r matches Err(why) ==> why@ == kind_instructions(*kind)
                    &&& r matches Ok(chosen) ==> chosen.program is Some
                },
            },
            id is Distribution ==> (r matches Err(why) ==> (why@ == kind_instructions(ConnectionKind::Wsl)
                || exists|no: NoDistributions| why@ == no_distributions_said(no))),
            id matches ProfileId::Ssh { host, user, .. } ==> match crate::services::ssh_refusal(
                host@,
                user@,
            ) {
                Some(said) => r matches Err(why) && why@ == said,
                None => r matches Ok(chosen) && chosen.program is None,
            },
    {
        let program: Option<String> = match id {
            ProfileId::Shell { kind: ConnectionKind::Wsl } | ProfileId::Distribution { .. } => {
                match self.machine.wsl_distributions() {
                    Ok(_) => {},
                    Err(why) => {
                        let said = why.to_string();
                        assert(said@ == no_distributions_said(why));
                        return Err(said);
                    },
                }
                match self.found(ConnectionKind::Wsl) {
                    Ok(program) => Some(program),
                    Err(why) => {
                        return Err(why);
                    },
                }
            },
            ProfileId::Shell { kind: ConnectionKind::PowerShell } => {
                let editions = ConnectionKind::PowerShell.editions();
                let mut lists: Vec<Vec<ShellInstall>> = Vec::new();
                let mut i: usize = 0;
                let mut listed_any = false;
                while i < editions.len() && !listed_any
                    invariant
                        i <= editions@.len(),
                        lists@.len() == i,
                    decreases editions.len() - i,
                {
                    let installs = self.machine.installs(editions[i].program());
                    listed_any = installs.len() > 0;
                    lists.push(installs);
                    i += 1;
                }
                let found = first_edition_program(&lists);
                let ghost listed = lists@.map_values(|l: Vec<ShellInstall>| l@);
                assert(listed.len() <= kind_editions(ConnectionKind::PowerShell).len());
                match found {
                    Some(program) => Some(program),
                    None => {
                        return Err(copied(ConnectionKind::PowerShell.instructions()));
                    },
                }
            },
            ProfileId::Shell { kind: ConnectionKind::Terminal } => {
                let offered = self.machine.login_shells();
                let at = default_shell_at(&offered);
                if at < offered.len() {
                    Some(offered[at].install.program.clone())
                } else {
                    return Err(copied(ConnectionKind::Terminal.instructions()));
                }
            },
            ProfileId::Shell { kind } => match self.found(*kind) {
                Ok(program) => Some(program),
                Err(why) => {
                    return Err(why);
                },
            },
            ProfileId::Install { program, .. } => Some(program.clone()),
            ProfileId::Ssh { host, user, .. } => {
                match refuse_ssh(host.as_str(), user.as_str()) {
                    Some(said) => {
                        return Err(copied(said));
                    },
                    None => None,
                }
            },
            // A name nothing resolves has no file to verify, so the spawn's own error is
            // what the user hears.
            ProfileId::Program { program } => {
                let name = trimmed(program.as_str());
                match self.install(name.as_str()) {
                    Some(install) => Some(install.program),
                    None => None,
                }
            },
            ProfileId::Scripted { .. } => None,
        };
        Ok(Chosen { profile: id.clone(), program })
    }

    /// `Ok` carries the clause to say at connection: `None` for a Microsoft or Apple
    /// signature or no file at all. `Err` is the sentence when the user declined to start
    /// it.
    fn verified(&self, chosen: &Chosen, label: &str, questions: &Arc<dyn ConnectQuestions>) -> (r:
        Result<Option<String>, String>)
        ensures
            chosen.program is None ==> r matches Ok(None),
    {
        let program = match &chosen.program {
            Some(program) => program,
            None => {
                return Ok(None);
            },
        };
        let verdict = self.signatures.verdict(program.as_str());
        if verdict.settled() {
            return Ok(verdict.note());
        }
        let asked = ProgramQuestion {
            label: copied(label),
            program: program.clone(),
            verdict: verdict.clone(),
        };
        let answer = questions.unverified(asked);
        agree(&verdict, label, answer)
    }

    /// Whether this machine can start anything of `kind`; asked once per kind while the
    /// list is built.
    fn has(&self, kind: ConnectionKind) -> (r: bool)
        ensures
            kind == ConnectionKind::Ssh ==> r,
    {
        match kind {
            ConnectionKind::Wsl => self.machine.wsl_distributions().is_ok(),
            ConnectionKind::PowerShell => {
                let editions = ConnectionKind::PowerShell.editions();
                let mut any = false;
                let mut i: usize = 0;
                while i < editions.len() && !any
                    decreases editions.len() - i,
                {
                    if self.machine.installs(editions[i].program()).len() > 0 {
                        any = true;
                    }
                    i += 1;
                }
                any
            },
            ConnectionKind::Ssh => true,
            ConnectionKind::Terminal => self.machine.login_shells().len() > 0,
            other => self.machine.installs(other.program()).len() > 0,
        }
    }

    fn wsl_row(&self, row: &Connection) -> (r: Connectable)
        ensures
            r.id@ == (ProfileView::Shell { kind: ConnectionKind::Wsl }),
            r.label@ == row.label@,
    {
        wsl_connectable(&row.label, self.machine.wsl_distributions())
    }

    fn powershell_row(&self, row: &Connection) -> (r: Connectable)
        ensures
            exists|lists: Seq<Seq<ShellInstall>>, known: Seq<Seq<Option<Verdict>>>|
                powershell_row_of(r, *row, kind_editions(ConnectionKind::PowerShell), lists, known),
    {
        let editions = ConnectionKind::PowerShell.editions();
        let mut lists: Vec<Vec<ShellInstall>> = Vec::new();
        let mut known: Vec<Vec<Option<Verdict>>> = Vec::new();
        let mut e: usize = 0;
        while e < editions.len()
            invariant
                e <= editions@.len(),
                lists@.len() == e,
                known@.len() == e,
                forall|x: int| 0 <= x < e ==> (#[trigger] known@[x])@.len() == lists@[x]@.len(),
            decreases editions.len() - e,
        {
            let installs = self.machine.installs(editions[e].program());
            let mut marks: Vec<Option<Verdict>> = Vec::new();
            let mut k: usize = 0;
            while k < installs.len()
                invariant
                    k <= installs@.len(),
                    marks@.len() == k,
                decreases installs.len() - k,
            {
                marks.push(self.signatures.known(installs[k].program.as_str()));
                k += 1;
            }
            lists.push(installs);
            known.push(marks);
            e += 1;
        }
        let made = powershell_connectable(row, editions, &lists, &known);
        let ghost ls = lists@.map_values(|l: Vec<ShellInstall>| l@);
        let ghost ks = known@.map_values(|k: Vec<Option<Verdict>>| k@);
        assert(powershell_row_of(made, *row, kind_editions(ConnectionKind::PowerShell), ls, ks));
        made
    }

    fn terminal_row(&self, row: &Connection) -> (r: Connectable)
        ensures
            exists|shells: Seq<LoginShell>, known: Seq<Option<Verdict>>|
                known.len() == shells.len() && terminal_row_of(r, *row, shells, known),
    {
        let shells = self.machine.login_shells();
        let mut known: Vec<Option<Verdict>> = Vec::new();
        let mut i: usize = 0;
        while i < shells.len()
            invariant
                i <= shells@.len(),
                known@.len() == i,
            decreases shells.len() - i,
        {
            known.push(self.signatures.known(shells[i].program().as_str()));
            i += 1;
        }
        let made = terminal_connectable(row, &shells, &known);
        assert(known@.len() == shells@.len() && terminal_row_of(made, *row, shells@, known@));
        made
    }

    fn shell_row(&self, row: &Connection, kind: ConnectionKind) -> (r: Connectable)
        ensures
            exists|found: Option<ShellInstall>, known: Option<Verdict>| single_row(r, *row, kind, found, known),
    {
        let found = self.install(kind.program());
        let known = match &found {
            Some(install) => self.signatures.known(install.program.as_str()),
            None => None,
        };
        let ghost f = found;
        let ghost k = known;
        let made = single_connectable(row, kind, found, known);
        assert(single_row(made, *row, kind, f, k));
        made
    }

    /// The connect list: every kind this platform offers, available ones first, then the
    /// scripted sessions a development build offers.
    pub fn connectable(&self) -> (r: Vec<Connectable>)
        ensures
            r@.len() == self.offered_kinds().len() + self.scripted_names().len(),
            exists|rows: Seq<Connection>, answers: Seq<bool>| {
                &&& answers.len() == self.offered_kinds().len()
                &&& crate::policies::lists(rows, self.offered_kinds(), answers)
                &&& forall|i: int| 0 <= i < rows.len() ==> kind_row(rows[i], #[trigger] r@[i])
            },
            forall|i: int|
                0 <= i < self.scripted_names().len() ==> scripted_row(
                    #[trigger] r@[self.offered_kinds().len() + i],
                    self.scripted_names()[i],
                ),
    {
        let rows = catalogue(self.kinds.as_slice(), |kind: ConnectionKind| self.has(kind));
        let ghost answers = choose|answers: Seq<bool>| {
            &&& answers.len() == self.kinds@.len()
            &&& crate::policies::lists(rows@, self.kinds@, answers)
        };
        proof {
            crate::policies::lemma_picked_len(self.kinds@, answers);
        }
        let mut listed: Vec<Connectable> = Vec::new();
        let mut i: usize = 0;
        while i < rows.len()
            invariant
                i <= rows@.len(),
                listed@.len() == i,
                forall|k: int| 0 <= k < i ==> kind_row(rows@[k], #[trigger] listed@[k]),
            decreases rows.len() - i,
        {
            let row = &rows[i];
            let made = match row.kind {
                ConnectionKind::Wsl => self.wsl_row(row),
                ConnectionKind::PowerShell => self.powershell_row(row),
                ConnectionKind::Terminal => self.terminal_row(row),
                ConnectionKind::Ssh => ssh_connectable(&row.label),
                kind => self.shell_row(row, kind),
            };
            listed.push(made);
            i += 1;
        }
        let mut j: usize = 0;
        while j < self.scripted.len()
            invariant
                j <= self.scripted@.len(),
                listed@.len() == rows@.len() + j,
                forall|k: int|
                    0 <= k < j ==> scripted_row(#[trigger] listed@[rows@.len() + k], self.scripted@[k]@),
                forall|k: int| 0 <= k < rows@.len() ==> kind_row(rows@[k], #[trigger] listed@[k]),
            decreases self.scripted.len() - j,
        {
            listed.push(scripted_connectable(&self.scripted[j]));
            j += 1;
        }
        assert(answers.len() == self.offered_kinds().len() && crate::policies::lists(rows@, self.offered_kinds(), answers));
        listed
    }

    /// The saved connection called `name`, as the store holds it now.
    fn remembered(&self, name: &str) -> (r: Option<SavedConnection>)
        ensures
            r matches Some(found) ==> same_names(found.name@, name@),
    {
        let stored = self.store.saved();
        let found = find_named(&stored.connections, name);
        proof {
            if found is Some {
                crate::ports::lemma_first_named_names(stored.connections@, name@);
            }
        }
        found
    }

    fn installed(&self, kind: ConnectionKind) -> (r: Result<ProfileId, String>)
        ensures
            r matches Ok(id) ==> id@ matches ProfileView::Install { kind: k, provenance: None, .. } && k == kind,
            r matches Err(why) ==> why@ == kind_instructions(kind),
    {
        match self.install(kind.program()) {
            Some(install) => Ok(ProfileId::Install { kind, program: install.program, provenance: None }),
            None => Err(copied(kind.instructions())),
        }
    }

    fn edition(&self, edition: ConnectionKind, provenance: Option<&str>) -> (r: Result<ProfileId, String>)
        ensures
            r matches Ok(id) ==> id@ matches ProfileView::Install { kind, .. } && kind == edition,
            r matches Err(why) ==> why@ == kind_instructions(edition),
    {
        let installs = self.machine.installs(edition.program());
        let ids = tell_apart(edition, &installs);
        let picked = pick_edition(&ids, edition, provenance);
        proof {
            match &picked {
                Ok(id) => {
                    let i = choose|i: int| 0 <= i < ids@.len() && id@ == (#[trigger] ids@[i])@;
                    assert(ids@[i]@ == crate::services::choices::told_apart(edition, installs@, i));
                },
                Err(_) => {},
            }
        }
        picked
    }

    fn distribution(&self, named: &str) -> (r: Result<ProfileId, String>)
        ensures
            r matches Ok(id) ==> id@ == (ProfileView::Distribution { name: named@ }),
    {
        distribution_from(self.machine.wsl_distributions(), named)
    }

    /// What a saved target resolves to on this machine now, or what to do about it.
    fn reachable(&self, target: &SavedTarget) -> (r: Result<ProfileId, String>)
        ensures
            (target is Program || target is Ssh) ==> (r matches Ok(id) && id@ == target_profile(target@)),
            target matches SavedTarget::Scripted { scenario } ==> if self.scripted_names().contains(scenario@) {
                r matches Ok(id) && id@ == target_profile(target@)
            } else {
                r matches Err(why) && why@ == only_in_development_said(scenario@)
            },
    {
        match target {
            SavedTarget::Cmd => self.installed(ConnectionKind::Cmd),
            SavedTarget::PowerShell { edition, provenance } => {
                let wanted = match provenance {
                    Some(p) => Some(p.as_str()),
                    None => None,
                };
                self.edition(*edition, wanted)
            },
            SavedTarget::Wsl { distribution } => self.distribution(distribution.as_str()),
            SavedTarget::Terminal => {
                if self.machine.login_shells().len() > 0 {
                    Ok(ProfileId::Shell { kind: ConnectionKind::Terminal })
                } else {
                    Err(copied(ConnectionKind::Terminal.instructions()))
                }
            },
            SavedTarget::Program { .. } | SavedTarget::Ssh { .. } => Ok(target.profile()),
            SavedTarget::Scripted { scenario } => {
                if self.is_scripted(scenario.as_str()) {
                    return Ok(target.profile());
                }
                Err(only_in_development(scenario.as_str()))
            },
        }
    }

    fn is_scripted(&self, scenario: &str) -> (r: bool)
        ensures
            r == self.scripted_names().contains(scenario@),
    {
        let mut i: usize = 0;
        while i < self.scripted.len()
            invariant
                i <= self.scripted@.len(),
                forall|k: int| 0 <= k < i ==> self.scripted@[k]@ != scenario@,
            decreases self.scripted.len() - i,
        {
            if crate::text::same_text(self.scripted[i].as_str(), scenario) {
                assert(self.scripted_names()[i as int] == scenario@);
                return true;
            }
            i += 1;
        }
        proof {
            if self.scripted_names().contains(scenario@) {
                let k = choose|k: int| 0 <= k < self.scripted_names().len() && self.scripted_names()[k] == scenario@;
                assert(self.scripted@[k]@ == scenario@);
            }
        }
        false
    }

    /// Whether `r` is the row of `saved` on this machine: its name, summary, setup and owner,
    /// resolved to a profile or to what to do about it; exactly so for a program, an SSH
    /// target and a scripted scenario, which resolve without asking the machine.
    pub open spec fn row_for(self, saved: SavedConnection, r: SavedRow) -> bool {
        &&& exists|resolved: Result<ProfileView, Seq<char>>| saved_row(r, saved, resolved)
        &&& (saved.target is Program || saved.target is Ssh) ==> saved_row(r, saved, Ok(target_profile(saved.target@)))
        &&& saved.target matches SavedTarget::Scripted { scenario } ==> saved_row(
            r,
            saved,
            if self.scripted_names().contains(scenario@) {
                Ok(target_profile(saved.target@))
            } else {
                Err(only_in_development_said(scenario@))
            },
        )
    }

    /// Whether `r` is the list a store's answer `stored` makes: each stored connection's row,
    /// sorted by name without case, and the store's sentence for a document it could not read.
    pub open spec fn listed_from(self, stored: StoredConnections, r: SavedConnections) -> bool {
        &&& sorted_by_name(r.rows@)
        &&& opt_view(r.unreadable) == opt_view(stored.unreadable)
        &&& exists|rows: Seq<SavedRow>|
            #![trigger rows.to_multiset()]
            {
            &&& rows.len() == stored.connections@.len()
            &&& (forall|i: int| 0 <= i < rows.len() ==> self.row_for(stored.connections@[i], #[trigger] rows[i]))
            &&& r.rows@.to_multiset() == rows.to_multiset()
        }
    }

    fn row(&self, saved: &SavedConnection) -> (r: SavedRow)
        ensures
            self.row_for(*saved, r),
    {
        let resolved = self.reachable(&saved.target);
        let ghost viewed = match &resolved {
            Ok(id) => Ok(id@),
            Err(why) => Err(why@),
        };
        let made = row_of(saved, resolved);
        assert(saved_row(made, *saved, viewed));
        made
    }

    /// The saved connections resolved against this machine, sorted by name without case.
    pub fn saved(&self) -> (r: SavedConnections)
        ensures
            exists|stored: StoredConnections| self.listed_from(stored, r),
    {
        let stored = self.store.saved();
        let ghost answered = stored;
        let listed = self.list_of(stored);
        assert(self.listed_from(answered, listed));
        listed
    }

    /// The list a store's answer makes on this machine.
    pub fn list_of(&self, stored: StoredConnections) -> (r: SavedConnections)
        ensures
            self.listed_from(stored, r),
    {
        let mut rows: Vec<SavedRow> = Vec::new();
        let mut i: usize = 0;
        while i < stored.connections.len()
            invariant
                i <= stored.connections@.len(),
                rows@.len() == i,
                forall|k: int| 0 <= k < i ==> self.row_for(stored.connections@[k], #[trigger] rows@[k]),
            decreases stored.connections.len() - i,
        {
            rows.push(self.row(&stored.connections[i]));
            i += 1;
        }
        let ghost made = rows@;
        let sorted = sort_by_name(rows);
        let r = SavedConnections { rows: sorted, unreadable: stored.unreadable };
        assert(r.rows@.to_multiset() == made.to_multiset());
        r
    }

    pub fn offer_to_save(&self) -> (r: bool) {
        self.store.offer_to_save()
    }

    pub fn stop_offering_to_save(&self) -> (r: Result<(), String>) {
        self.store.stop_offering_to_save()
    }

    /// What `acter --connect <name>` asked for: the saved connection as the document spells
    /// it, or the sentence an unconnected window says instead.
    pub fn requested_at_launch(&self) -> (r: Option<LaunchRequest>)
        ensures
            self.requested_name() is None ==> r is None,
            self.requested_name() matches Some(asked) ==> match r {
                Some(LaunchRequest::Connect { name }) => same_names(name@, asked),
                Some(LaunchRequest::Unknown { name, said }) => name@ == asked && said@ == no_such_connection_said(asked),
                None => false,
            },
    {
        match &self.requested {
            None => None,
            Some(asked) => match self.remembered(asked.as_str()) {
                Some(saved) => Some(LaunchRequest::Connect { name: saved.name }),
                None => Some(LaunchRequest::unknown(asked.as_str())),
            },
        }
    }

    /// Which far end this window is on now.
    pub fn connected(&self) -> (r: Option<Connected>)
        ensures
            match (r, self.live_view()) {
                (Some(c), Some(live)) => describes(c, live),
                (None, None) => true,
                _ => false,
            },
    {
        match &self.current {
            Some(live) => Some(Connected {
                session: live.id,
                label: live.label.clone(),
                note: live.note.clone(),
                limit_explained: live.limit_explained,
                saved_as: live.origin.clone(),
                line_owner: live.line_owner,
            }),
            None => None,
        }
    }

    /// Starts `id` in place of whatever was live, which is let go. Nothing changes when it
    /// cannot be started: the running session keeps working.
    pub fn use_profile(
        &mut self,
        id: &ProfileId,
        set_up: SetUp,
        origin: Option<&str>,
        questions: &Arc<dyn ConnectQuestions>,
    ) -> (r: Result<Connected, String>)
        ensures
            r is Err ==> *final(self) == *old(self),
            (id matches ProfileId::Ssh { host, user, .. } && crate::services::ssh_refusal(host@, user@) is Some)
                ==> (r matches Err(why) && Some(why@) == crate::services::ssh_refusal(id->host@, id->user@)),
            r matches Ok(c) ==> {
                &&& c.session == SessionId(old(self).next_id())
                &&& c.label@ == profile_label(id@)
                &&& opt_view(c.saved_as) == match origin {
                    Some(o) => Some(o@),
                    None => None,
                }
                &&& origin is None ==> c.line_owner == LineOwner::FarEnd
                &&& final(self).next_id() == old(self).next_id().wrapping_add(1)
                &&& final(self).live_view() matches Some(live) && describes(c, live) && live.profile == id@
                    && live.set_up == set_up && c.limit_explained == live.opened_explained
                    && (live.opened_note is Some ==> opt_view(c.note) == live.opened_note)
                    && ((id is Ssh || id is Scripted) ==> opt_view(c.note) == live.opened_note)
                &&& final(self).offered_kinds() == old(self).offered_kinds()
                &&& final(self).scripted_names() == old(self).scripted_names()
                &&& final(self).requested_name() == old(self).requested_name()
            },
    {
        let chosen = match self.chosen(id) {
            Ok(chosen) => chosen,
            Err(why) => {
                return Err(why);
            },
        };
        let label = id.label();
        let agreed = match self.verified(&chosen, label.as_str(), questions) {
            Ok(agreed) => agreed,
            Err(why) => {
                return Err(why);
            },
        };
        let started = match self.factory.open(&chosen, set_up, questions) {
            Ok(started) => started,
            Err(why) => {
                return Err(why);
            },
        };
        let note = opened_note(&started.note, agreed);
        let limit_explained = started.limit_explained;
        let line_owner = match origin {
            Some(named) => owner_from(self.remembered(named)),
            None => LineOwner::FarEnd,
        };
        let kept_origin = match origin {
            Some(named) => Some(copied(named)),
            None => None,
        };
        let next = SessionId(self.next);
        self.next = self.next.wrapping_add(1);
        // The previous session is let go here; dropping its last handle ends its shell.
        self.current = Some(Live {
            id: next,
            label: label.clone(),
            profile: id.clone(),
            set_up,
            origin: kept_origin.clone(),
            line_owner,
            note: note.clone(),
            limit_explained,
            started,
        });
        Ok(Connected { session: next, label, note, limit_explained, saved_as: kept_origin, line_owner })
    }

    /// Saves the live session under `name`, trimmed. A name already used by another
    /// connection is refused; the live session's own name may be saved again.
    pub fn save_connection(&mut self, name: &str) -> (r: Result<String, String>)
        ensures
            refusal(trim(name@)) matches Some(why) ==> (r matches Err(said) && said@ == why
                && *final(self) == *old(self)),
            (refusal(trim(name@)) is None && old(self).live_view() is None) ==> (r matches Err(said)
                && said@ == NOTHING_TO_SAVE@ && *final(self) == *old(self)),
            r is Err ==> *final(self) == *old(self),
            refusal(trim(name@)) is None ==> match old(self).live_view() {
                Some(was) => target_of(was.profile) is None ==> {
                    &&& r matches Err(said) && (said@ == NO_DISTRIBUTION@ || said@ == already_exists_said(trim(name@)))
                    &&& (was.origin matches Some(had) && same_names(had, trim(name@))) ==> (r matches Err(said)
                        && said@ == NO_DISTRIBUTION@)
                },
                None => true,
            },
            r matches Ok(said) ==> {
                &&& said@ == saved_as_said(trim(name@))
                &&& old(self).live_view() matches Some(was)
                &&& final(self).live_view() == Some(LiveView { origin: Some(trim(name@)), ..was })
            },
            final(self).next_id() == old(self).next_id(),
            final(self).offered_kinds() == old(self).offered_kinds(),
            final(self).scripted_names() == old(self).scripted_names(),
            final(self).requested_name() == old(self).requested_name(),
    {
        let name = trimmed(name);
        match refused(name.as_str()) {
            Some(why) => {
                return Err(copied(why));
            },
            None => {},
        }
        let (profile, set_up, line_owner, its_own) = match &self.current {
            None => {
                return Err(copied(NOTHING_TO_SAVE));
            },
            Some(live) => {
                let its_own = match &live.origin {
                    Some(had) => same_name(had.as_str(), name.as_str()),
                    None => false,
                };
                (live.profile.clone(), live.set_up, live.line_owner, its_own)
            },
        };
        let taken = !its_own && self.remembered(name.as_str()).is_some();
        match name_free(taken, name.as_str()) {
            Ok(()) => {},
            Err(why) => {
                return Err(why);
            },
        }
        let target = match SavedTarget::of(&profile) {
            Ok(target) => target,
            Err(why) => {
                return Err(why);
            },
        };
        match self.store.save(SavedConnection { name: name.clone(), target, set_up, line_owner }) {
            Ok(()) => {},
            Err(why) => {
                return Err(why);
            },
        }
        self.set_origin(Some(name.clone()));
        let mut said = concat("Saved as ", name.as_str());
        push_char(&mut said, '.');
        Ok(said)
    }

    /// Gives the live session a saved connection's name, or takes it away.
    fn set_origin(&mut self, origin: Option<String>)
        ensures
            match old(self).live_view() {
                Some(was) => final(self).live_view() == Some(LiveView { origin: opt_view(origin), ..was }),
                None => final(self).live_view() is None,
            },
            final(self).next_id() == old(self).next_id(),
            final(self).offered_kinds() == old(self).offered_kinds(),
            final(self).scripted_names() == old(self).scripted_names(),
            final(self).requested_name() == old(self).requested_name(),
    {
        match &mut self.current {
            Some(live) => {
                live.origin = origin;
            },
            None => {},
        }
    }

    /// Whether the live session was started from the connection called `name`.
    fn started_from(&self, name: &str) -> (r: bool)
        ensures
            r == (self.live_view() matches Some(live) && live.origin matches Some(had) && same_names(
                had,
                name@,
            )),
    {
        match &self.current {
            Some(live) => match &live.origin {
                Some(had) => same_name(had.as_str(), name),
                None => false,
            },
            None => false,
        }
    }

    /// Renames the connection called `from` to `to`, trimmed; the live session follows
    /// when it was started from it.
    pub fn rename_connection(&mut self, from: &str, to: &str) -> (r: Result<String, String>)
        ensures
            refusal(trim(to@)) matches Some(why) ==> (r matches Err(said) && said@ == why
                && *final(self) == *old(self)),
            r is Err ==> final(self).live_view() == old(self).live_view(),
            r matches Ok(said) ==> exists|was: Seq<char>| same_names(was, from@) && said@ == renamed_said(was, trim(to@)),
            r is Ok ==> (if old(self).live_view() matches Some(was) && was.origin matches Some(had)
                && same_names(had, from@) {
                final(self).live_view() == Some(LiveView { origin: Some(trim(to@)), ..old(self).live_view()->0 })
            } else {
                final(self).live_view() == old(self).live_view()
            }),
            final(self).next_id() == old(self).next_id(),
            final(self).offered_kinds() == old(self).offered_kinds(),
            final(self).scripted_names() == old(self).scripted_names(),
            final(self).requested_name() == old(self).requested_name(),
    {
        let ghost to_view = to@;
        let to = trimmed(to);
        match refused(to.as_str()) {
            Some(why) => {
                return Err(copied(why));
            },
            None => {},
        }
        let existing = match saved_or_missing(self.remembered(from), from) {
            Ok(existing) => existing,
            Err(why) => {
                return Err(why);
            },
        };
        let taken = !same_name(existing.name.as_str(), to.as_str()) && self.remembered(to.as_str()).is_some();
        match name_free(taken, to.as_str()) {
            Ok(()) => {},
            Err(why) => {
                return Err(why);
            },
        }
        match self.store.rename(from, to.as_str()) {
            Ok(()) => {},
            Err(why) => {
                return Err(why);
            },
        }
        if self.started_from(from) {
            self.set_origin(Some(to.clone()));
        }
        let mut said = copied(existing.name.as_str());
        said.append(" is now called ");
        said.append(to.as_str());
        push_char(&mut said, '.');
        assert(same_names(existing.name@, from@) && said@ == renamed_said(existing.name@, trim(to_view)));
        Ok(said)
    }

    /// Forgets the connection called `name`; the live session keeps running, unnamed.
    pub fn forget_connection(&mut self, name: &str) -> (r: Result<String, String>)
        ensures
            r is Err ==> *final(self) == *old(self),
            r matches Ok(said) ==> exists|called: Seq<char>|
                same_names(called, name@) && said@ == called + " is no longer saved."@,
            r is Ok ==> (if old(self).live_view() matches Some(was) && was.origin matches Some(had)
                && same_names(had, name@) {
                final(self).live_view() == Some(LiveView { origin: None, ..old(self).live_view()->0 })
            } else {
                final(self).live_view() == old(self).live_view()
            }),
            final(self).next_id() == old(self).next_id(),
            final(self).offered_kinds() == old(self).offered_kinds(),
            final(self).scripted_names() == old(self).scripted_names(),
            final(self).requested_name() == old(self).requested_name(),
    {
        let existing = match saved_or_missing(self.remembered(name), name) {
            Ok(existing) => existing,
            Err(why) => {
                return Err(why);
            },
        };
        match self.store.forget(name) {
            Ok(()) => {},
            Err(why) => {
                return Err(why);
            },
        }
        if self.started_from(name) {
            self.set_origin(None);
        }
        let mut said = copied(existing.name.as_str());
        said.append(" is no longer saved.");
        assert(same_names(existing.name@, name@) && said@ == existing.name@ + " is no longer saved."@);
        Ok(said)
    }

    /// The session a line for `session` reaches: `None` for a window connected to nothing,
    /// and for an id that was replaced, so it never runs in the new one.
    pub fn session_for(&self, session: SessionId) -> (r: Option<&Arc<dyn SessionApi>>)
        ensures
            r is Some <==> (self.live_view() matches Some(live) && live.id == session),
            r matches Some(handle) ==> self.live_session_is(handle),
    {
        self.live(session)
    }

    pub fn submit_command(&self, session: SessionId, line: &str) -> (r: SubmitAck)
        ensures
            !(self.live_view() matches Some(live) && live.id == session) ==> r == SubmitAck::NotConnected,
    {
        match self.live(session) {
            Some(live) => live.submit_command(session, line),
            None => SubmitAck::NotConnected,
        }
    }

    pub fn send_key(&self, session: SessionId, key: KeyPress) -> (r: KeyAck)
        ensures
            !(self.live_view() matches Some(live) && live.id == session) ==> r == KeyAck::NothingToActOn,
    {
        match self.live(session) {
            Some(live) => live.send_key(session, key),
            None => KeyAck::NothingToActOn,
        }
    }

    /// Does nothing for a stale id; otherwise records the owner, so a reconnect to this
    /// session's saved name keeps it, and hands it to the session.
    pub fn set_line_owner(&mut self, session: SessionId, owner: LineOwner)
        ensures
            match old(self).live_view() {
                Some(was) => final(self).live_view() == if was.id == session {
                    Some(LiveView { line_owner: owner, ..was })
                } else {
                    Some(was)
                },
                None => final(self).live_view() is None,
            },
            final(self).next_id() == old(self).next_id(),
            final(self).offered_kinds() == old(self).offered_kinds(),
            final(self).scripted_names() == old(self).scripted_names(),
            final(self).requested_name() == old(self).requested_name(),
    {
        match &mut self.current {
            Some(live) => {
                if live.id == session {
                    live.line_owner = owner;
                    live.started.session.set_line_owner(session, owner);
                }
            },
            None => {},
        }
    }

    pub fn paste(&self, session: SessionId, text: &str) {
        match self.live(session) {
            Some(live) => live.paste(session, text),
            None => {},
        }
    }

    /// Does nothing when nothing is live; the sink is not kept, because the frontend
    /// attaches again after each `use_profile`.
    pub fn attach_session(&self, session: SessionId, sink: &Arc<dyn EventSink>) {
        match self.live(session) {
            Some(live) => live.attach_session(session, sink),
            None => {},
        }
    }
}

} // verus!
