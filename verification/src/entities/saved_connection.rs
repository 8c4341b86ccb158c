//! One saved connection (a name, what it connects to, and how it opens) and the rule a
//! name has to keep.

use vstd::prelude::*;

use crate::entities::{
    ConnectionKind, LineOwner, ProfileId, ProfileView, SetUp, kind_label, opt_view,
};
use crate::text::{
    chars_of, copied, decimal, is_blank, lowercase, lowercased, push_decimal, trim, trimmed, blank,
};

verus! {

/// Names the characters in words, because screen readers speak a bare `*` or `?` unreliably.
pub const ILLEGAL: &'static str = "A name cannot contain slash, backslash, colon, star, question mark, quote, less than, greater than or bar.";

pub const EMPTY: &'static str = "A connection needs a name.";

/// Unreachable from the window, whose Connect stays disabled until a distribution is chosen.
pub const NO_DISTRIBUTION: &'static str = "This session did not name a WSL distribution, so saving it would not give you anything to start again. Choose a distribution in New connection and save that.";

pub const DEFAULT_SSH_PORT: u16 = 22;

#[derive(Debug, PartialEq, Eq)]
pub struct SavedConnection {
    /// Kept as typed; compared with `same_name`.
    pub name: String,
    pub target: SavedTarget,
    pub set_up: SetUp,
    pub line_owner: LineOwner,
}

impl Clone for SavedConnection {
    fn clone(&self) -> (r: Self)
        ensures
            r == *self,
    {
        SavedConnection {
            name: self.name.clone(),
            target: self.target.clone(),
            set_up: self.set_up,
            line_owner: self.line_owner,
        }
    }
}

/// What a document that does not say means for `set_up`.
pub fn set_up_by_default() -> (r: SetUp)
    ensures
        r == SetUp::Yes,
{
    SetUp::Yes
}

/// A new session opens with the far end holding the line, unlike `LineOwner::default()`.
pub fn line_owner_by_default() -> (r: LineOwner)
    ensures
        r == LineOwner::FarEnd,
{
    LineOwner::FarEnd
}

#[derive(Debug, PartialEq, Eq)]
pub enum SavedTarget {
    Cmd,
    /// No file path: the install is matched again at connect time.
    PowerShell { edition: ConnectionKind, provenance: Option<String> },
    Wsl { distribution: String },
    Program { program: String },
    /// Never a password or a passphrase.
    Ssh { host: String, port: u16, account: String },
    /// The macOS account's login shell, read at connect time.
    Terminal,
    /// Listed as not available in a release build.
    Scripted { scenario: String },
}

pub enum TargetView {
    Cmd,
    PowerShell { edition: ConnectionKind, provenance: Option<Seq<char>> },
    Wsl { distribution: Seq<char> },
    Program { program: Seq<char> },
    Ssh { host: Seq<char>, port: u16, account: Seq<char> },
    Terminal,
    Scripted { scenario: Seq<char> },
}

impl View for SavedTarget {
    type V = TargetView;

    open spec fn view(&self) -> TargetView {
        match self {
            SavedTarget::Cmd => TargetView::Cmd,
            SavedTarget::PowerShell { edition, provenance } => TargetView::PowerShell {
                edition: *edition,
                provenance: opt_view(*provenance),
            },
            SavedTarget::Wsl { distribution } => TargetView::Wsl { distribution: distribution@ },
            SavedTarget::Program { program } => TargetView::Program { program: program@ },
            SavedTarget::Ssh { host, port, account } => TargetView::Ssh {
                host: host@,
                port: *port,
                account: account@,
            },
            SavedTarget::Terminal => TargetView::Terminal,
            SavedTarget::Scripted { scenario } => TargetView::Scripted { scenario: scenario@ },
        }
    }
}

impl Clone for SavedTarget {
    fn clone(&self) -> (r: Self)
        ensures
            r == *self,
    {
        match self {
            SavedTarget::Cmd => SavedTarget::Cmd,
            SavedTarget::PowerShell { edition, provenance } => SavedTarget::PowerShell {
                edition: *edition,
                provenance: provenance.clone(),
            },
            SavedTarget::Wsl { distribution } => SavedTarget::Wsl {
                distribution: distribution.clone(),
            },
            SavedTarget::Program { program } => SavedTarget::Program { program: program.clone() },
            SavedTarget::Ssh { host, port, account } => SavedTarget::Ssh {
                host: host.clone(),
                port: *port,
                account: account.clone(),
            },
            SavedTarget::Terminal => SavedTarget::Terminal,
            SavedTarget::Scripted { scenario } => SavedTarget::Scripted {
                scenario: scenario.clone(),
            },
        }
    }
}

/// What a profile is written down as, and `None` for WSL with no distribution.
pub open spec fn target_of(id: ProfileView) -> Option<TargetView> {
    match id {
        ProfileView::Shell { kind } => {
            if kind == ConnectionKind::Cmd {
                Some(TargetView::Cmd)
            } else if kind == ConnectionKind::Terminal {
                Some(TargetView::Terminal)
            } else if kind == ConnectionKind::Wsl {
                None
            } else {
                Some(TargetView::PowerShell { edition: kind, provenance: None })
            }
        },
        ProfileView::Install { kind, provenance, .. } => {
            if kind == ConnectionKind::Cmd {
                Some(TargetView::Cmd)
            } else if kind == ConnectionKind::Terminal {
                Some(TargetView::Terminal)
            } else {
                Some(TargetView::PowerShell { edition: kind, provenance })
            }
        },
        ProfileView::Distribution { name } => Some(TargetView::Wsl { distribution: name }),
        ProfileView::Program { program } => Some(TargetView::Program { program }),
        ProfileView::Ssh { host, port, user } => Some(TargetView::Ssh { host, port, account: user }),
        ProfileView::Scripted { name } => Some(TargetView::Scripted { scenario: name }),
    }
}

/// The profile a saved target names, not yet resolved against this machine.
pub open spec fn target_profile(target: TargetView) -> ProfileView {
    match target {
        TargetView::Cmd => ProfileView::Shell { kind: ConnectionKind::Cmd },
        TargetView::Terminal => ProfileView::Shell { kind: ConnectionKind::Terminal },
        TargetView::PowerShell { edition, .. } => ProfileView::Shell { kind: edition },
        TargetView::Wsl { distribution } => ProfileView::Distribution { name: distribution },
        TargetView::Program { program } => ProfileView::Program { program },
        TargetView::Ssh { host, port, account } => ProfileView::Ssh { host, port, user: account },
        TargetView::Scripted { scenario } => ProfileView::Scripted { name: scenario },
    }
}

pub open spec fn target_summary(target: TargetView) -> Seq<char> {
    match target {
        TargetView::Cmd => kind_label(ConnectionKind::Cmd),
        TargetView::Terminal => kind_label(ConnectionKind::Terminal),
        TargetView::PowerShell { edition, provenance } => match provenance {
            None => kind_label(edition),
            Some(which) => kind_label(edition) + ", "@ + which,
        },
        TargetView::Wsl { distribution } => "WSL, "@ + distribution,
        TargetView::Program { program } => "Program, "@ + program,
        TargetView::Ssh { host, port, account } => if port == 22 {
            "SSH, "@ + account + " at "@ + host
        } else {
            "SSH, "@ + account + " at "@ + host + ", port "@ + decimal(port as nat)
        },
        TargetView::Scripted { scenario } => "Scripted, "@ + scenario,
    }
}

impl SavedTarget {
    /// Rejects with a whole spoken sentence for WSL with no distribution, which would
    /// silently follow whatever WSL's default becomes.
    pub fn of(id: &ProfileId) -> (r: Result<Self, String>)
        ensures
            match r {
                Ok(target) => target_of(id@) == Some(target@),
                Err(why) => target_of(id@) is None && why@ == NO_DISTRIBUTION@,
            },
    {
        match id {
            ProfileId::Shell { kind } => match kind {
                ConnectionKind::Cmd => Ok(SavedTarget::Cmd),
                ConnectionKind::Terminal => Ok(SavedTarget::Terminal),
                ConnectionKind::Wsl => Err(copied(NO_DISTRIBUTION)),
                _ => Ok(SavedTarget::PowerShell { edition: *kind, provenance: None }),
            },
            ProfileId::Install { kind, provenance, .. } => match kind {
                ConnectionKind::Cmd => Ok(SavedTarget::Cmd),
                ConnectionKind::Terminal => Ok(SavedTarget::Terminal),
                _ => Ok(SavedTarget::PowerShell { edition: *kind, provenance: provenance.clone() }),
            },
            ProfileId::Distribution { name } => Ok(SavedTarget::Wsl { distribution: name.clone() }),
            ProfileId::Program { program } => Ok(SavedTarget::Program { program: program.clone() }),
            ProfileId::Ssh { host, port, user } => Ok(
                SavedTarget::Ssh { host: host.clone(), port: *port, account: user.clone() },
            ),
            ProfileId::Scripted { name } => Ok(SavedTarget::Scripted { scenario: name.clone() }),
        }
    }

    /// Not yet resolved against this machine's installs.
    pub fn profile(&self) -> (r: ProfileId)
        ensures
            r@ == target_profile(self@),
    {
        match self {
            SavedTarget::Cmd => ProfileId::Shell { kind: ConnectionKind::Cmd },
            SavedTarget::Terminal => ProfileId::Shell { kind: ConnectionKind::Terminal },
            SavedTarget::PowerShell { edition, .. } => ProfileId::Shell { kind: *edition },
            SavedTarget::Wsl { distribution } => ProfileId::Distribution {
                name: distribution.clone(),
            },
            SavedTarget::Program { program } => ProfileId::Program { program: program.clone() },
            SavedTarget::Ssh { host, port, account } => ProfileId::Ssh {
                host: host.clone(),
                port: *port,
                user: account.clone(),
            },
            SavedTarget::Scripted { scenario } => ProfileId::Scripted { name: scenario.clone() },
        }
    }

    /// Commas where `ProfileId::label` has a colon, since a screen reader pauses at a comma.
    pub fn summary(&self) -> (r: String)
        ensures
            r@ == target_summary(self@),
    {
        match self {
            SavedTarget::Cmd => copied(ConnectionKind::Cmd.label()),
            SavedTarget::Terminal => copied(ConnectionKind::Terminal.label()),
            SavedTarget::PowerShell { edition, provenance: None } => copied(edition.label()),
            SavedTarget::PowerShell { edition, provenance: Some(which) } => {
                let mut s = copied(edition.label());
                s.append(", ");
                s.append(which.as_str());
                s
            },
            SavedTarget::Wsl { distribution } => crate::text::concat("WSL, ", distribution.as_str()),
            SavedTarget::Program { program } => crate::text::concat("Program, ", program.as_str()),
            SavedTarget::Ssh { host, port, account } => {
                let mut s = copied("SSH, ");
                s.append(account.as_str());
                s.append(" at ");
                s.append(host.as_str());
                if *port != DEFAULT_SSH_PORT {
                    s.append(", port ");
                    push_decimal(&mut s, *port as u64);
                }
                s
            },
            SavedTarget::Scripted { scenario } => crate::text::concat(
                "Scripted, ",
                scenario.as_str(),
            ),
        }
    }
}

/// A saved target names again the profile it was written down from, for every profile
/// that is not a resolved install and can be saved at all.
pub proof fn lemma_target_names_its_profile_again(id: ProfileView)
    requires
        target_of(id) is Some,
        !(id is Install),
    ensures
        target_profile(target_of(id).unwrap()) == id,
{
}

/// The characters a name cannot hold.
pub open spec fn is_forbidden(c: char) -> bool {
    c == '/' || c == '\\' || c == ':' || c == '*' || c == '?' || c == '"' || c == '<' || c
        == '>' || c == '|'
}

pub open spec fn refusal(name: Seq<char>) -> Option<Seq<char>> {
    if is_blank(name) {
        Some(EMPTY@)
    } else if exists|i: int| 0 <= i < name.len() && is_forbidden(#[trigger] name[i]) {
        Some(ILLEGAL@)
    } else {
        None
    }
}

fn forbidden(c: char) -> (r: bool)
    ensures
        r == is_forbidden(c),
{
    c == '/' || c == '\\' || c == ':' || c == '*' || c == '?' || c == '"' || c == '<' || c == '>'
        || c == '|'
}

/// The spoken sentence saying why this name cannot be used, or `None` when it can.
pub fn refused(name: &str) -> (r: Option<&'static str>)
    ensures
        match r {
            Some(said) => refusal(name@) == Some(said@),
            None => refusal(name@) is None,
        },
{
    if blank(name) {
        return Some(EMPTY);
    }
    let v = chars_of(name);
    let mut i: usize = 0;
    while i < v.len()
        invariant
            i <= v@.len(),
            v@ == name@,
            forall|j: int| 0 <= j < i ==> !is_forbidden(#[trigger] v@[j]),
        decreases v.len() - i,
    {
        if forbidden(v[i]) {
            assert(is_forbidden(name@[i as int]));
            return Some(ILLEGAL);
        }
        i += 1;
    }
    None
}

pub open spec fn same_names(one: Seq<char>, another: Seq<char>) -> bool {
    lowercase(trim(one)) == lowercase(trim(another))
}

/// Case-insensitive, since names differing only in case sound the same.
pub fn same_name(one: &str, another: &str) -> (r: bool)
    ensures
        r == same_names(one@, another@),
{
    let a = trimmed(one);
    let b = trimmed(another);
    lowercased(a.as_str()) == lowercased(b.as_str())
}

} // verus!
