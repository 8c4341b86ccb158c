//! Tests for entities shell_install.

use std::path::PathBuf;

use acter_core::entities::{PathStanding, Provenance, ShellInstall};

fn install(program: &str, provenance: Provenance) -> ShellInstall {
    ShellInstall {
        program: program.to_owned(),
        provenance,
        standing: PathStanding::Absent,
    }
}

fn under(directories: &[&str], file: &str) -> (String, String) {
    let directory: PathBuf = directories.iter().collect();
    (directory.join(file).display().to_string(), directory.display().to_string())
}

#[test]
fn an_install_in_the_place_it_belongs_adds_nothing_to_its_name() {
    let installed = install(
        r"C:\Program Files\PowerShell\7\pwsh.exe",
        Provenance::Directory {
            version: "7".to_owned(),
            preview: false,
        },
    );

    assert_eq!(installed.qualifier(), None);
}

#[test]
fn each_provenance_says_what_tells_it_from_another() {
    let preview = install(
        r"C:\Program Files\PowerShell\7-preview\pwsh.exe",
        Provenance::Directory {
            version: "7-preview".to_owned(),
            preview: true,
        },
    );
    let store = install(
        r"C:\Program Files\WindowsApps\Microsoft.PowerShell_7.6.5.0_x64__8wekyb3d8bbwe\pwsh.exe",
        Provenance::Store {
            family: "Microsoft.PowerShell_8wekyb3d8bbwe".to_owned(),
            preview: false,
        },
    );
    let (somewhere, directory) = under(&["tools", "pwsh"], "pwsh.exe");
    let elsewhere = ShellInstall {
        program: somewhere,
        provenance: Provenance::Indeterminable,
        standing: PathStanding::Absent,
    };

    assert_eq!(preview.qualifier().as_deref(), Some("preview"));
    assert_eq!(store.qualifier().as_deref(), Some("Microsoft Store"));
    assert_eq!(
        elsewhere.qualifier().as_deref(),
        Some(directory.as_str()),
        "a provenance with nothing else to say says where it is"
    );
}

#[test]
fn the_shell_windows_ships_is_not_qualified_at_all() {
    let cmd = install(r"C:\Windows\system32\cmd.exe", Provenance::System);

    assert_eq!(cmd.qualifier(), None);
}

#[test]
fn an_install_can_always_say_which_directory_it_is_in() {
    let (program, directory) = under(&["Program Files", "PowerShell", "7"], "pwsh.exe");
    let installed = ShellInstall {
        program,
        provenance: Provenance::System,
        standing: PathStanding::Absent,
    };

    assert_eq!(installed.directory(), directory);
}
