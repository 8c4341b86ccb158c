//! Tests for the connect-list rows and the decisions made from what a port answered.

use acter_core::entities::{
    ConnectionKind, LineOwner, PathStanding, ProfileId, Provenance, SavedConnection, SavedTarget, SetUp, ShellInstall,
};
use acter_core::policies::Connection;
use acter_core::ports::LoginShell;
use acter_core::services::{
    first_edition_program, name_free, opened_note, owner_from, powershell_connectable, saved_or_missing,
    terminal_connectable,
};

fn install(program: &str) -> ShellInstall {
    ShellInstall {
        program: program.to_owned(),
        provenance: Provenance::System,
        standing: PathStanding::Absent,
    }
}

fn saved(name: &str, line_owner: LineOwner) -> SavedConnection {
    SavedConnection { name: name.to_owned(), target: SavedTarget::Cmd, set_up: SetUp::Yes, line_owner }
}

#[test]
fn the_first_edition_listed_is_the_one_started() {
    let lists = vec![vec![], vec![install("C:\\a\\pwsh.exe"), install("C:\\b\\pwsh.exe")]];
    assert_eq!(first_edition_program(&lists), Some("C:\\a\\pwsh.exe".to_owned()));
    assert_eq!(first_edition_program(&vec![vec![], vec![]]), None);
}

#[test]
fn terminal_rows_list_every_login_shell_and_choose_the_accounts_own() {
    let row = Connection { kind: ConnectionKind::Terminal, label: "Terminal".to_owned(), available: true };
    let shells = vec![
        LoginShell { install: install("/bin/bash"), default: false },
        LoginShell { install: install("/bin/zsh"), default: true },
    ];
    let made = terminal_connectable(&row, &shells, &vec![None, None]);
    assert!(made.available);
    assert_eq!(made.variants.len(), 2);
    assert_eq!(made.id, made.variants[1].id);
    assert_eq!(made.variants[1].label, "zsh (default)");

    let none = terminal_connectable(&row, &vec![], &vec![]);
    assert!(!none.available);
    assert_eq!(none.id, ProfileId::Shell { kind: ConnectionKind::Terminal });
}

#[test]
fn a_missing_powershell_edition_says_how_to_get_it() {
    let row = Connection { kind: ConnectionKind::PowerShell, label: "PowerShell".to_owned(), available: true };
    let editions = ConnectionKind::PowerShell.editions();
    let mut lists = Vec::new();
    let mut known = Vec::new();
    for (i, _) in editions.iter().enumerate() {
        if i + 1 == editions.len() {
            lists.push(vec![install("C:\\ps\\powershell.exe")]);
            known.push(vec![None]);
        } else {
            lists.push(vec![]);
            known.push(vec![]);
        }
    }
    let made = powershell_connectable(&row, editions, &lists, &known);
    assert_eq!(made.variants.len(), editions.len());
    assert!(!made.variants[0].available);
    assert!(made.variants[0].label.ends_with(" (not available)"));
    assert!(made.available);
    assert_eq!(made.id, made.variants[editions.len() - 1].id);
}

#[test]
fn a_name_already_taken_is_refused_in_a_sentence() {
    assert_eq!(
        name_free(true, "Work"),
        Err("A connection named Work already exists. Choose another name, or forget that one first.".to_owned())
    );
    assert_eq!(name_free(false, "Work"), Ok(()));
    assert!(saved_or_missing(None, "Work").is_err());
    assert_eq!(saved_or_missing(Some(saved("Work", LineOwner::Local)), "Work").map(|s| s.name), Ok("Work".to_owned()));
}

#[test]
fn a_saved_connection_keeps_its_line_owner_and_the_factorys_note_comes_first() {
    assert_eq!(owner_from(Some(saved("Work", LineOwner::Local))), LineOwner::Local);
    assert_eq!(owner_from(None), LineOwner::FarEnd);
    assert_eq!(opened_note(&Some("from the factory".to_owned()), Some("verified".to_owned())), Some("from the factory".to_owned()));
    assert_eq!(opened_note(&None, Some("verified".to_owned())), Some("verified".to_owned()));
}
