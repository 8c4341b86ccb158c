//! The kinds of far end Acter can connect to, what each is called, and what it says when
//! this machine cannot start it.

use vstd::prelude::*;

verus! {

#[derive(Debug, Clone, Copy, PartialEq, Eq, Hash, Structural)]
pub enum ConnectionKind {
    Cmd,
    /// One row; its editions are the two below.
    PowerShell,
    /// 5.1, shipped with Windows.
    WindowsPowerShell,
    /// 7 or later.
    PowerShellSeven,
    Wsl,
    /// A macOS login shell, with `/etc/shells` as its variants.
    Terminal,
    Ssh,
}

pub open spec fn kind_label(kind: ConnectionKind) -> Seq<char> {
    match kind {
        ConnectionKind::Cmd => "Command Prompt"@,
        ConnectionKind::PowerShell => "PowerShell"@,
        ConnectionKind::WindowsPowerShell => "Windows PowerShell"@,
        ConnectionKind::PowerShellSeven => "PowerShell 7"@,
        ConnectionKind::Wsl => "WSL"@,
        ConnectionKind::Terminal => "Terminal"@,
        ConnectionKind::Ssh => "SSH"@,
    }
}

pub open spec fn kind_program(kind: ConnectionKind) -> Seq<char> {
    match kind {
        ConnectionKind::Cmd => "cmd.exe"@,
        ConnectionKind::PowerShell => "powershell.exe"@,
        ConnectionKind::WindowsPowerShell => "powershell.exe"@,
        ConnectionKind::PowerShellSeven => "pwsh.exe"@,
        ConnectionKind::Wsl => "wsl.exe"@,
        ConnectionKind::Terminal => ""@,
        ConnectionKind::Ssh => ""@,
    }
}

pub open spec fn kind_editions(kind: ConnectionKind) -> Seq<ConnectionKind> {
    match kind {
        ConnectionKind::PowerShell => seq![
            ConnectionKind::WindowsPowerShell,
            ConnectionKind::PowerShellSeven,
        ],
        _ => seq![],
    }
}

pub open spec fn kind_instructions(kind: ConnectionKind) -> Seq<char> {
    match kind {
        ConnectionKind::Cmd => "Command Prompt is missing from this Windows installation. It is part of Windows itself, so this usually means the system files are damaged. Run sfc /scannow from an administrator Command Prompt to check them."@,
        ConnectionKind::PowerShell => "No edition of PowerShell is installed on this computer. Windows PowerShell                  ships with Windows, so this usually means it was removed as an optional                  feature. Reinstall it from Settings, under System, Optional features."@,
        ConnectionKind::WindowsPowerShell => "Windows PowerShell is missing from this Windows installation. It ships with Windows, so this usually means it was removed as an optional feature. Reinstall it from Settings, under System, Optional features."@,
        ConnectionKind::PowerShellSeven => "PowerShell 7 is not installed. It is a separate product from the Windows PowerShell that ships with Windows. Install it by running winget install Microsoft.PowerShell from any terminal."@,
        ConnectionKind::Wsl => "No WSL distribution is installed. WSL runs Linux inside Windows, and needs a distribution before there is anything to connect to. Install one by running wsl --install from an administrator Command Prompt, then restart the computer when it asks."@,
        ConnectionKind::Terminal => "This Mac lists no shells an account can log in to. That list is the file /etc/shells, and a macOS install always has one, so this usually means the file has been emptied or replaced. Run cat /etc/shells in any terminal to see what it holds."@,
        ConnectionKind::Ssh => "SSH is built into Acter, so it cannot be missing. If a connection will not start, the reason is with the server or the network rather than with this computer."@,
    }
}

impl ConnectionKind {
    pub fn label(self) -> (r: &'static str)
        ensures
            r@ == kind_label(self),
    {
        match self {
            ConnectionKind::Cmd => "Command Prompt",
            ConnectionKind::PowerShell => "PowerShell",
            ConnectionKind::WindowsPowerShell => "Windows PowerShell",
            ConnectionKind::PowerShellSeven => "PowerShell 7",
            ConnectionKind::Wsl => "WSL",
            ConnectionKind::Terminal => "Terminal",
            ConnectionKind::Ssh => "SSH",
        }
    }

    /// A file name that `ThisComputer::installs` resolves; empty for a kind with no local
    /// executable.
    pub fn program(self) -> (r: &'static str)
        ensures
            r@ == kind_program(self),
    {
        match self {
            ConnectionKind::Cmd => "cmd.exe",
            ConnectionKind::PowerShell => "powershell.exe",
            ConnectionKind::WindowsPowerShell => "powershell.exe",
            ConnectionKind::PowerShellSeven => "pwsh.exe",
            ConnectionKind::Wsl => "wsl.exe",
            ConnectionKind::Terminal => "",
            ConnectionKind::Ssh => "",
        }
    }

    /// Empty for every kind but PowerShell.
    pub fn editions(self) -> (r: &'static [ConnectionKind])
        ensures
            r@ == kind_editions(self),
    {
        match self {
            ConnectionKind::PowerShell => {
                let both: &'static [ConnectionKind] = &[
                    ConnectionKind::WindowsPowerShell,
                    ConnectionKind::PowerShellSeven,
                ];
                assert(both@ =~= kind_editions(self));
                both
            },
            _ => {
                let none: &'static [ConnectionKind] = &[];
                assert(none@ =~= kind_editions(self));
                none
            },
        }
    }

    /// A command to type, never a GUI route described in prose.
    pub fn instructions(self) -> (r: &'static str)
        ensures
            r@ == kind_instructions(self),
    {
        match self {
            ConnectionKind::Cmd => "Command Prompt is missing from this Windows installation. It is part of Windows itself, so this usually means the system files are damaged. Run sfc /scannow from an administrator Command Prompt to check them.",
            ConnectionKind::PowerShell => "No edition of PowerShell is installed on this computer. Windows PowerShell                  ships with Windows, so this usually means it was removed as an optional                  feature. Reinstall it from Settings, under System, Optional features.",
            ConnectionKind::WindowsPowerShell => "Windows PowerShell is missing from this Windows installation. It ships with Windows, so this usually means it was removed as an optional feature. Reinstall it from Settings, under System, Optional features.",
            ConnectionKind::PowerShellSeven => "PowerShell 7 is not installed. It is a separate product from the Windows PowerShell that ships with Windows. Install it by running winget install Microsoft.PowerShell from any terminal.",
            ConnectionKind::Wsl => "No WSL distribution is installed. WSL runs Linux inside Windows, and needs a distribution before there is anything to connect to. Install one by running wsl --install from an administrator Command Prompt, then restart the computer when it asks.",
            ConnectionKind::Terminal => "This Mac lists no shells an account can log in to. That list is the file /etc/shells, and a macOS install always has one, so this usually means the file has been emptied or replaced. Run cat /etc/shells in any terminal to see what it holds.",
            ConnectionKind::Ssh => "SSH is built into Acter, so it cannot be missing. If a connection will not start, the reason is with the server or the network rather than with this computer.",
        }
    }
}

/// No two kinds are called the same thing.
pub proof fn lemma_labels_are_distinct(one: ConnectionKind, another: ConnectionKind)
    requires
        one != another,
    ensures
        kind_label(one) != kind_label(another),
{
    reveal_strlit("Command Prompt");
    reveal_strlit("PowerShell");
    reveal_strlit("Windows PowerShell");
    reveal_strlit("PowerShell 7");
    reveal_strlit("WSL");
    reveal_strlit("Terminal");
    reveal_strlit("SSH");
    if kind_label(one) == kind_label(another) {
        assert(kind_label(one).len() == kind_label(another).len());
        assert(kind_label(one)[0] == kind_label(another)[0]);
    }
}

/// A kind with editions names one of them, and its editions name different programs.
pub proof fn lemma_editions_name_their_programs(kind: ConnectionKind)
    ensures
        kind_editions(kind).len() == 0 || kind_editions(kind).len() == 2,
        kind_editions(kind).len() == 2 ==> kind_program(kind_editions(kind)[0]) == kind_program(
            kind,
        ),
        kind_editions(kind).len() == 2 ==> kind_program(kind_editions(kind)[0]) != kind_program(
            kind_editions(kind)[1],
        ),
{
    reveal_strlit("powershell.exe");
    reveal_strlit("pwsh.exe");
}

} // verus!
