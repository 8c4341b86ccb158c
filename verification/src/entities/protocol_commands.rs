//! The payloads of the frontend-to-backend command surface: what an invoke carries in, and
//! what it answers with.

use vstd::prelude::*;

use crate::entities::{CommandId, ConnectionKind, SessionId, SetUp, kind_label};
use crate::text::{
    concat, copied, decimal, ends_with, is_white, push_char, push_chars, push_decimal, trim,
    trim_end, trim_end_at, trim_start, trim_start_at, chars_of,
};

verus! {

pub open spec fn opt_view(o: Option<String>) -> Option<Seq<char>> {
    match o {
        Some(s) => Some(s@),
        None => None,
    }
}

/// The immediate answer to `submit_command`.
#[derive(Debug, Clone, Copy, PartialEq, Eq, Structural)]
pub enum SubmitAck {
    /// The id every later event of this line carries.
    Accepted { command_id: CommandId },
    /// No session is behind this window and nothing was written.
    NotConnected,
}

/// One thing that can be started: which far end, and which of it.
#[derive(Debug, PartialEq, Eq, Hash)]
pub enum ProfileId {
    /// `Wsl` here means whatever distribution WSL calls the default.
    Shell { kind: ConnectionKind },
    /// One install, carrying the file discovery resolved, so the file verified is the file
    /// started.
    Install { kind: ConnectionKind, program: String, provenance: Option<String> },
    /// Spelled as `wsl.exe -l -q` spelled it.
    Distribution { name: String },
    /// A program named by `ACTER_SHELL`.
    Program { program: String },
    Ssh { host: String, port: u16, user: String },
    /// A built-in scenario name or a transcript path.
    Scripted { name: String },
}

/// A profile as text, the value a contract compares.
pub enum ProfileView {
    Shell { kind: ConnectionKind },
    Install { kind: ConnectionKind, program: Seq<char>, provenance: Option<Seq<char>> },
    Distribution { name: Seq<char> },
    Program { program: Seq<char> },
    Ssh { host: Seq<char>, port: u16, user: Seq<char> },
    Scripted { name: Seq<char> },
}

impl View for ProfileId {
    type V = ProfileView;

    open spec fn view(&self) -> ProfileView {
        match self {
            ProfileId::Shell { kind } => ProfileView::Shell { kind: *kind },
            ProfileId::Install { kind, program, provenance } => ProfileView::Install {
                kind: *kind,
                program: program@,
                provenance: opt_view(*provenance),
            },
            ProfileId::Distribution { name } => ProfileView::Distribution { name: name@ },
            ProfileId::Program { program } => ProfileView::Program { program: program@ },
            ProfileId::Ssh { host, port, user } => ProfileView::Ssh {
                host: host@,
                port: *port,
                user: user@,
            },
            ProfileId::Scripted { name } => ProfileView::Scripted { name: name@ },
        }
    }
}

impl Clone for ProfileId {
    fn clone(&self) -> (r: Self)
        ensures
            r == *self,
    {
        match self {
            ProfileId::Shell { kind } => ProfileId::Shell { kind: *kind },
            ProfileId::Install { kind, program, provenance } => ProfileId::Install {
                kind: *kind,
                program: program.clone(),
                provenance: provenance.clone(),
            },
            ProfileId::Distribution { name } => ProfileId::Distribution { name: name.clone() },
            ProfileId::Program { program } => ProfileId::Program { program: program.clone() },
            ProfileId::Ssh { host, port, user } => ProfileId::Ssh {
                host: host.clone(),
                port: *port,
                user: user.clone(),
            },
            ProfileId::Scripted { name } => ProfileId::Scripted { name: name.clone() },
        }
    }
}

pub open spec fn is_separator(c: char) -> bool {
    c == '/' || c == '\\'
}

/// What follows the last `/` or `\`, or the whole of `s` when it has neither.
pub open spec fn last_segment(s: Seq<char>) -> Seq<char>
    decreases s.len(),
{
    if s.len() == 0 {
        s
    } else if is_separator(s.last()) {
        seq![]
    } else {
        last_segment(s.drop_last()).push(s.last())
    }
}

/// `s` with one `.exe` or `.EXE` taken off its end.
pub open spec fn without_exe(s: Seq<char>) -> Seq<char> {
    if ends_with(s, ".exe"@) || ends_with(s, ".EXE"@) {
        s.take(s.len() - 4)
    } else {
        s
    }
}

/// The program's file name without `.exe`, trimmed.
pub open spec fn program_name(program: Seq<char>) -> Seq<char> {
    without_exe(last_segment(trim(program)))
}

pub open spec fn ssh_label(host: Seq<char>, port: u16, user: Seq<char>) -> Seq<char> {
    if port == 22 {
        "SSH: "@ + user + " at "@ + host
    } else {
        "SSH: "@ + user + " at "@ + host + ", port "@ + decimal(port as nat)
    }
}

pub open spec fn profile_label(id: ProfileView) -> Seq<char> {
    match id {
        ProfileView::Shell { kind } => kind_label(kind),
        ProfileView::Install { kind, provenance, .. } => match provenance {
            None => kind_label(kind),
            Some(which) => kind_label(kind) + " ("@ + which + ")"@,
        },
        ProfileView::Distribution { name } => "WSL: "@ + name,
        ProfileView::Ssh { host, port, user } => ssh_label(host, port, user),
        ProfileView::Program { program } => program_name(program),
        ProfileView::Scripted { name } => "Scripted: "@ + name,
    }
}

/// An SSH profile is labelled by its account and host, and names its port only when it is
/// not the default: any other port is the default's label followed by `, port` and the port
/// in decimal.
pub proof fn lemma_ssh_label_names_a_port_that_is_not_the_default(host: Seq<char>, port: u16, user: Seq<char>)
    ensures
        profile_label(ProfileView::Ssh { host, port: 22, user }) == "SSH: "@ + user + " at "@ + host,
        port != 22 ==> profile_label(ProfileView::Ssh { host, port, user }) == profile_label(
            ProfileView::Ssh { host, port: 22, user },
        ) + ", port "@ + decimal(port as nat),
{
}

/// Where the last segment of `v[..end]` begins.
fn segment_start(v: &[char], end: usize) -> (n: usize)
    requires
        end <= v@.len(),
    ensures
        n <= end,
        last_segment(v@.take(end as int)) == v@.subrange(n as int, end as int),
{
    let mut n = end;
    assert(v@.subrange(end as int, end as int) =~= seq![]);
    while n > 0 && v[n - 1] != '/' && v[n - 1] != '\\'
        invariant
            n <= end <= v@.len(),
            last_segment(v@.take(end as int)) == last_segment(v@.take(n as int)) + v@.subrange(
                n as int,
                end as int,
            ),
        decreases n,
    {
        assert(v@.take(n as int).drop_last() =~= v@.take(n - 1));
        assert(v@.subrange(n - 1, end as int) =~= seq![v@[n - 1]] + v@.subrange(n as int, end as int));
        assert(last_segment(v@.take(n as int)) =~= last_segment(v@.take(n - 1)).push(v@[n - 1]));
        n -= 1;
    }
    assert(last_segment(v@.take(n as int)) =~= seq![]);
    n
}

/// The program's file name without `.exe`, trimmed because `set ACTER_SHELL=x && acter` in
/// `cmd.exe` keeps the space before `&&`.
pub fn named(program: &str) -> (r: String)
    ensures
        r@ == program_name(program@),
{
    let v = chars_of(program);
    let end = trim_end_at(v.as_slice());
    let start = trim_start_at(v.as_slice(), end);
    let t: Vec<char> = slice_of(&v, start, end);
    assert(t@ == trim(program@));
    let n = t.len();
    let from = segment_start(t.as_slice(), n);
    assert(t@.take(n as int) =~= t@);
    let mut stop = n;
    let seg = slice_of(&t, from, n);
    assert(seg@ == last_segment(trim(program@)));
    if has_suffix(&seg, &['.', 'e', 'x', 'e']) || has_suffix(&seg, &['.', 'E', 'X', 'E']) {
        proof {
            reveal_strlit(".exe");
            reveal_strlit(".EXE");
            assert(".exe"@ =~= seq!['.', 'e', 'x', 'e']);
            assert(".EXE"@ =~= seq!['.', 'E', 'X', 'E']);
        }
        stop = seg.len() - 4;
        let mut out = String::new();
        push_chars(&mut out, seg.as_slice(), 0, stop);
        assert(seg@.subrange(0, stop as int) =~= seg@.take(stop as int));
        out
    } else {
        proof {
            reveal_strlit(".exe");
            reveal_strlit(".EXE");
            assert(".exe"@ =~= seq!['.', 'e', 'x', 'e']);
            assert(".EXE"@ =~= seq!['.', 'E', 'X', 'E']);
        }
        let mut out = String::new();
        push_chars(&mut out, seg.as_slice(), 0, seg.len());
        assert(seg@.subrange(0, seg@.len() as int) =~= seg@);
        out
    }
}

pub fn slice_of(v: &Vec<char>, from: usize, to: usize) -> (r: Vec<char>)
    requires
        from <= to <= v@.len(),
    ensures
        r@ == v@.subrange(from as int, to as int),
{
    let mut out: Vec<char> = Vec::new();
    let mut i = from;
    while i < to
        invariant
            from <= i <= to <= v@.len(),
            out@ == v@.subrange(from as int, i as int),
        decreases to - i,
    {
        out.push(v[i]);
        assert(out@ =~= v@.subrange(from as int, i + 1));
        i += 1;
    }
    out
}

fn has_suffix(s: &Vec<char>, t: &[char]) -> (r: bool)
    ensures
        r == ends_with(s@, t@),
{
    crate::text::ends_with_chars(s.as_slice(), t)
}

impl ProfileId {
    /// What a listener is told this is; `(not available)` is added where the list is built.
    pub fn label(&self) -> (r: String)
        ensures
            r@ == profile_label(self@),
    {
        match self {
            ProfileId::Shell { kind } => copied(kind.label()),
            ProfileId::Install { kind, provenance: None, .. } => copied(kind.label()),
            ProfileId::Install { kind, provenance: Some(which), .. } => {
                let mut s = copied(kind.label());
                s.append(" (");
                s.append(which.as_str());
                s.append(")");
                s
            },
            ProfileId::Distribution { name } => concat("WSL: ", name.as_str()),
            ProfileId::Ssh { host, port, user } => {
                let mut s = copied("SSH: ");
                s.append(user.as_str());
                s.append(" at ");
                s.append(host.as_str());
                if *port != 22 {
                    s.append(", port ");
                    push_decimal(&mut s, *port as u64);
                }
                s
            },
            ProfileId::Program { program } => named(program.as_str()),
            ProfileId::Scripted { name } => concat("Scripted: ", name.as_str()),
        }
    }
}

/// One row of the connect list: one per kind, whatever this machine has of it.
#[derive(Debug, PartialEq, Eq)]
pub struct Connectable {
    /// What starts the row when no variant is chosen; for WSL, the default distribution.
    pub id: ProfileId,
    /// Ends in `(not available)` when this machine cannot start it.
    pub label: String,
    pub available: bool,
    /// What to say about a row that cannot be connected to, and `None` when it can.
    pub instructions: Option<String>,
    /// WSL's distributions, or one entry per PowerShell install.
    pub variants: Vec<Variant>,
}

/// One entry in a connect-list row's panel.
#[derive(Debug, PartialEq, Eq)]
pub struct Variant {
    pub id: ProfileId,
    /// Named without its kind: "Ubuntu", not "WSL: Ubuntu".
    pub label: String,
    /// Always true for a WSL distribution, since only installed ones can be enumerated.
    pub available: bool,
    /// What to say about a variant that cannot be started, and `None` when it can.
    pub instructions: Option<String>,
}

impl Clone for Variant {
    fn clone(&self) -> (r: Self)
        ensures
            r == *self,
    {
        Variant {
            id: self.id.clone(),
            label: self.label.clone(),
            available: self.available,
            instructions: self.instructions.clone(),
        }
    }
}

impl Clone for Connectable {
    fn clone(&self) -> (r: Self)
        ensures
            r.id == self.id,
            r.label == self.label,
            r.available == self.available,
            r.instructions == self.instructions,
            r.variants@ == self.variants@,
    {
        Connectable {
            id: self.id.clone(),
            label: self.label.clone(),
            available: self.available,
            instructions: self.instructions.clone(),
            variants: self.variants.clone(),
        }
    }
}

/// Which far end this window is on now; `use_profile` and `connected` both answer it.
#[derive(Debug, PartialEq, Eq)]
pub struct Connected {
    /// Minted per connection, so a line aimed at a replaced session is refused.
    pub session: SessionId,
    pub label: String,
    /// Appended once to the connection announcement, and `None` when there is nothing to add.
    pub note: Option<String>,
    /// Whether `note` already said this session cannot report how a command went.
    pub limit_explained: bool,
    /// The saved connection this session was started from, or `None` for an unsaved one.
    pub saved_as: Option<String>,
    pub line_owner: LineOwner,
}

impl Clone for Connected {
    fn clone(&self) -> (r: Self)
        ensures
            r == *self,
    {
        Connected {
            session: self.session,
            label: self.label.clone(),
            note: self.note.clone(),
            limit_explained: self.limit_explained,
            saved_as: self.saved_as.clone(),
            line_owner: self.line_owner,
        }
    }
}

/// One keystroke the frontend did not consume.
#[derive(Debug, Clone, Copy, PartialEq, Eq, Structural)]
pub struct KeyPress {
    pub key: Key,
    pub ctrl: bool,
    pub shift: bool,
    pub alt: bool,
}

/// Only keys `key_bytes` has a measured spelling for.
#[derive(Debug, Clone, Copy, PartialEq, Eq, Structural)]
pub enum Key {
    Char(char),
    Up,
    Down,
    Left,
    Right,
    Home,
    End,
    Tab,
    Enter,
    Backspace,
    Delete,
    Escape,
}

/// Who owns the line being edited; only the user moves it, never an inference.
#[derive(Debug, Clone, Copy, PartialEq, Eq, Structural)]
pub enum LineOwner {
    /// Acter's history and completion, and nothing reaches the far end until Enter.
    Local,
    /// Every key Acter does not consume goes to the far end as it is typed.
    FarEnd,
}

impl Default for LineOwner {
    fn default() -> (r: Self)
        ensures
            r == LineOwner::Local,
    {
        LineOwner::Local
    }
}

/// What became of a keystroke.
#[derive(Debug, Clone, Copy, PartialEq, Eq, Structural)]
pub enum KeyAck {
    Unbound,
    Applied,
    /// Bound, but no command was running, or nothing was left listening.
    NothingToActOn,
    /// Bound, but this far end has no measured bytes for it.
    Unsupported,
}

/// What the command line asked this launch to connect to.
#[derive(Debug, Clone, PartialEq, Eq)]
pub enum LaunchRequest {
    /// The name as the document spells it, not as the switch did.
    Connect { name: String },
    /// Nothing is saved under this name, and `said` is what the unconnected window announces
    /// instead.
    Unknown { name: String, said: String },
}

pub open spec fn no_such_connection_said(name: Seq<char>) -> Seq<char> {
    "There is no saved connection named "@ + name + "."@
}

impl LaunchRequest {
    pub fn unknown(name: &str) -> (r: Self)
        ensures
            r matches LaunchRequest::Unknown { name: n, said } && n@ == name@ && said@
                == no_such_connection_said(name@),
    {
        LaunchRequest::Unknown { name: copied(name), said: no_such_connection(name) }
    }
}

pub fn no_such_connection(name: &str) -> (r: String)
    ensures
        r@ == no_such_connection_said(name@),
{
    let mut s = copied("There is no saved connection named ");
    s.append(name);
    s.append(".");
    s
}

/// The saved connections resolved against this machine, as the Connect dialog lists them.
#[derive(Debug, Clone, PartialEq, Eq)]
pub struct SavedConnections {
    /// Sorted by name without case, and never reordered by use.
    pub rows: Vec<SavedRow>,
    /// What went wrong with a document that would not parse, and `None` when nothing did.
    pub unreadable: Option<String>,
}

/// One saved connection, as a row in that list.
#[derive(Debug, Clone, PartialEq, Eq)]
pub struct SavedRow {
    pub name: String,
    /// Resolved against this machine's installs, not copied from the document.
    pub id: ProfileId,
    /// Heard on arrowing onto the name: "SSH, marlon at example.org".
    pub summary: String,
    pub set_up: SetUp,
    pub line_owner: LineOwner,
    pub available: bool,
    /// What to do about a row that cannot be started, and `None` when it can.
    pub instructions: Option<String>,
}

} // verus!
