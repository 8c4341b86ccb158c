//! One install of a shell that this machine actually has: the file itself, where it came
//! from, and what `PATH` says about it.

use vstd::prelude::*;

use crate::entities::{is_separator, last_segment, slice_of};
use crate::text::{chars_of, copied, string_of};

verus! {

#[derive(Debug, PartialEq, Eq)]
pub struct ShellInstall {
    /// The file's full path as text. The file verified is the file started; never resolve
    /// the name through `PATH` again.
    pub program: String,
    pub provenance: Provenance,
    pub standing: PathStanding,
}

impl Clone for ShellInstall {
    fn clone(&self) -> (r: Self)
        ensures
            r == *self,
    {
        ShellInstall {
            program: self.program.clone(),
            provenance: self.provenance.clone(),
            standing: self.standing,
        }
    }
}

/// Where an install came from, read off its location and never off the file's version
/// resource.
#[derive(Debug, PartialEq, Eq)]
pub enum Provenance {
    /// `C:\Windows\system32`, `/bin`: shipped with the operating system.
    System,
    Directory {
        /// The directory name as it stands: `7`, `7-preview`.
        version: String,
        preview: bool,
    },
    Store {
        /// `Microsoft.PowerShell_8wekyb3d8bbwe`.
        family: String,
        preview: bool,
    },
    Registry {
        /// `None` when the registry gave no version.
        version: Option<String>,
    },
    /// A dotnet tool, a scoop shim, a directory on `PATH`, a typed path.
    Indeterminable,
}

impl Clone for Provenance {
    fn clone(&self) -> (r: Self)
        ensures
            r == *self,
    {
        match self {
            Provenance::System => Provenance::System,
            Provenance::Directory { version, preview } => Provenance::Directory {
                version: version.clone(),
                preview: *preview,
            },
            Provenance::Store { family, preview } => Provenance::Store {
                family: family.clone(),
                preview: *preview,
            },
            Provenance::Registry { version } => Provenance::Registry { version: version.clone() },
            Provenance::Indeterminable => Provenance::Indeterminable,
        }
    }
}

/// What `PATH` says about an install.
#[derive(Debug, Clone, Copy, PartialEq, Eq, Structural)]
pub enum PathStanding {
    /// Found by a known root, the Store package or the registry instead.
    Absent,
    /// `PATH` names another install first.
    Named,
    /// What typing the name in any other terminal starts.
    First,
}

/// The directory a path names: what precedes its last separator, the root itself when that
/// separator is the first character, and nothing for a bare file name.
pub open spec fn directory_of(path: Seq<char>) -> Seq<char> {
    let file = last_segment(path);
    if file.len() == path.len() {
        seq![]
    } else if path.len() - file.len() == 1 {
        path.take(1)
    } else {
        path.take(path.len() - file.len() - 1)
    }
}

pub proof fn lemma_last_segment_is_suffix(s: Seq<char>)
    ensures
        last_segment(s).len() <= s.len(),
        last_segment(s) == s.subrange(s.len() - last_segment(s).len(), s.len() as int),
        last_segment(s).len() < s.len() ==> is_separator(s[s.len() - last_segment(s).len() - 1]),
    decreases s.len(),
{
    if s.len() > 0 && !is_separator(s.last()) {
        lemma_last_segment_is_suffix(s.drop_last());
        let k = last_segment(s.drop_last()).len();
        assert(s.subrange(s.len() - (k + 1), s.len() as int) =~= s.drop_last().subrange(
            s.len() - 1 - k,
            s.len() - 1,
        ).push(s.last()));
        if k + 1 < s.len() {
            assert(s[s.len() - (k + 1) - 1] == s.drop_last()[s.drop_last().len() - k - 1]);
        }
    } else if s.len() > 0 {
        assert(s.subrange(s.len() as int, s.len() as int) =~= seq![]);
    } else {
        assert(s.subrange(0, 0) =~= s);
    }
}

/// Where the last segment of `v` begins.
fn segment_from(v: &Vec<char>) -> (n: usize)
    ensures
        n <= v@.len(),
        last_segment(v@) == v@.subrange(n as int, v@.len() as int),
{
    let mut n = v.len();
    assert(v@.take(n as int) =~= v@);
    assert(v@.subrange(n as int, n as int) =~= seq![]);
    while n > 0 && v[n - 1] != '/' && v[n - 1] != '\\'
        invariant
            n <= v@.len(),
            last_segment(v@) == last_segment(v@.take(n as int)) + v@.subrange(
                n as int,
                v@.len() as int,
            ),
        decreases n,
    {
        assert(v@.take(n as int).drop_last() =~= v@.take(n - 1));
        assert(v@.subrange(n - 1, v@.len() as int) =~= seq![v@[n - 1]] + v@.subrange(
            n as int,
            v@.len() as int,
        ));
        assert(last_segment(v@.take(n as int)) =~= last_segment(v@.take(n - 1)).push(v@[n - 1]));
        n -= 1;
    }
    assert(last_segment(v@.take(n as int)) =~= seq![]);
    n
}

/// The directory of a path, as `directory_of` states it.
pub fn directory(path: &str) -> (r: String)
    ensures
        r@ == directory_of(path@),
{
    let v = chars_of(path);
    let from = segment_from(&v);
    if from == 0 {
        String::new()
    } else if from == 1 {
        let d = slice_of(&v, 0, 1);
        assert(d@ =~= v@.take(1));
        string_of(d.as_slice())
    } else {
        let d = slice_of(&v, 0, from - 1);
        assert(d@ =~= v@.take(from - 1));
        string_of(d.as_slice())
    }
}

/// The file a path names: what follows its last separator.
pub fn file_name(path: &str) -> (r: String)
    ensures
        r@ == last_segment(path@),
{
    let v = chars_of(path);
    let from = segment_from(&v);
    let f = slice_of(&v, from, v.len());
    string_of(f.as_slice())
}

pub open spec fn qualifier_of(provenance: Provenance, program: Seq<char>) -> Option<Seq<char>> {
    match provenance {
        Provenance::System => None,
        Provenance::Directory { preview, .. } => if preview {
            Some("preview"@)
        } else {
            None
        },
        Provenance::Registry { .. } => None,
        Provenance::Store { preview, .. } => if preview {
            Some("Microsoft Store preview"@)
        } else {
            Some("Microsoft Store"@)
        },
        Provenance::Indeterminable => if directory_of(program).len() == 0 {
            None
        } else {
            Some(directory_of(program))
        },
    }
}

impl Provenance {
    pub fn qualifier(&self, program: &str) -> (r: Option<String>)
        ensures
            crate::entities::opt_view(r) == qualifier_of(*self, program@),
    {
        match self {
            Provenance::System => None,
            Provenance::Directory { preview: true, .. } => Some(copied("preview")),
            Provenance::Directory { .. } | Provenance::Registry { .. } => None,
            Provenance::Store { preview: true, .. } => Some(copied("Microsoft Store preview")),
            Provenance::Store { .. } => Some(copied("Microsoft Store")),
            Provenance::Indeterminable => {
                let at = directory(program);
                if at.as_str().unicode_len() == 0 {
                    None
                } else {
                    Some(at)
                }
            },
        }
    }
}

impl ShellInstall {
    /// `None` when nothing tells this install apart, as on a machine with one install.
    pub fn qualifier(&self) -> (r: Option<String>)
        ensures
            crate::entities::opt_view(r) == qualifier_of(self.provenance, self.program@),
    {
        self.provenance.qualifier(self.program.as_str())
    }

    pub fn directory(&self) -> (r: String)
        ensures
            r@ == directory_of(self.program@),
    {
        directory(self.program.as_str())
    }
}

} // verus!
