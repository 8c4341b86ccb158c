//! Tests for entities saved_connection.

use acter_core::entities::{
    ConnectionKind, EMPTY, ILLEGAL, NO_DISTRIBUTION, ProfileId, SavedTarget, refused, same_name,
};

fn ssh(port: u16) -> SavedTarget {
    SavedTarget::Ssh {
        host: "example.org".to_owned(),
        port,
        account: "marlon".to_owned(),
    }
}

#[test]
fn a_wsl_session_with_no_distribution_cannot_be_saved_and_says_what_to_do() {
    let refused = SavedTarget::of(&ProfileId::Shell {
        kind: ConnectionKind::Wsl,
    })
    .expect_err("there is nothing here to start again");

    assert_eq!(refused, NO_DISTRIBUTION);
    assert!(refused.contains("New connection"), "{refused}");
    assert!(refused.ends_with('.'), "it is read aloud: {refused}");
    assert!(!refused.contains("  "), "with no run of spaces: {refused}");
}

#[test]
fn a_named_distribution_is_what_is_written_down_and_what_comes_back() {
    let saved = SavedTarget::of(&ProfileId::Distribution {
        name: "Ubuntu 24.04".to_owned(),
    })
    .expect("a named distribution is saveable");

    assert_eq!(
        saved,
        SavedTarget::Wsl {
            distribution: "Ubuntu 24.04".to_owned()
        }
    );
    assert_eq!(
        saved.profile(),
        ProfileId::Distribution {
            name: "Ubuntu 24.04".to_owned()
        }
    );
    assert_eq!(saved.summary(), "WSL, Ubuntu 24.04");
}

#[test]
fn a_terminal_connection_stores_no_shell_because_the_machine_answers_that() {
    let saved = SavedTarget::of(&ProfileId::Install {
        kind: ConnectionKind::Terminal,
        program: "/bin/zsh".to_owned(),
        provenance: Some("zsh".to_owned()),
    })
    .expect("a Terminal shell is saveable");

    assert_eq!(saved, SavedTarget::Terminal);
    assert_eq!(
        saved.profile(),
        ProfileId::Shell {
            kind: ConnectionKind::Terminal
        }
    );
}

#[test]
fn arrowing_onto_a_name_describes_the_kind_and_what_identifies_it() {
    assert_eq!(ssh(22).summary(), "SSH, marlon at example.org");
    assert_eq!(
        ssh(2222).summary(),
        "SSH, marlon at example.org, port 2222",
        "a port nobody would assume is said"
    );
    assert_eq!(
        SavedTarget::Wsl {
            distribution: "Ubuntu".to_owned()
        }
        .summary(),
        "WSL, Ubuntu"
    );
    assert_eq!(
        SavedTarget::PowerShell {
            edition: ConnectionKind::PowerShellSeven,
            provenance: None
        }
        .summary(),
        "PowerShell 7"
    );
    assert_eq!(SavedTarget::Cmd.summary(), "Command Prompt");
}

#[test]
fn every_summary_is_a_phrase_a_reader_can_speak() {
    let targets = [
        SavedTarget::Cmd,
        SavedTarget::Terminal,
        SavedTarget::PowerShell {
            edition: ConnectionKind::WindowsPowerShell,
            provenance: Some("Microsoft Store".to_owned()),
        },
        SavedTarget::Wsl {
            distribution: "Debian".to_owned(),
        },
        SavedTarget::Program {
            program: "nu.exe".to_owned(),
        },
        ssh(22),
        SavedTarget::Scripted {
            scenario: "builtin".to_owned(),
        },
    ];

    for target in targets {
        let said = target.summary();
        assert!(!said.trim().is_empty(), "{target:?} says nothing");
        assert!(
            !said.contains("  "),
            "a spoken phrase carries no run of spaces: {said}"
        );
        assert!(
            !said.contains(':'),
            "a colon is the list's punctuation, not a description's: {said}"
        );
    }
}

#[test]
fn a_name_full_of_punctuation_is_refused_in_words() {
    for bad in ['/', '\\', ':', '*', '?', '"', '<', '>', '|'] {
        let name = format!("work{bad}laptop");
        assert_eq!(refused(&name), Some(ILLEGAL), "{name} should be refused");
    }
    assert!(
        !ILLEGAL.contains('*') && !ILLEGAL.contains('?') && !ILLEGAL.contains('\\'),
        "the sentence names the characters in words rather than printing them: {ILLEGAL}"
    );
    assert!(!ILLEGAL.contains("  "), "and carries no run of spaces");
}

#[test]
fn a_name_that_is_only_spaces_is_no_name() {
    assert_eq!(refused(""), Some(EMPTY));
    assert_eq!(refused("   "), Some(EMPTY));
    assert_eq!(refused("work laptop"), None, "an ordinary name is fine");
    assert_eq!(
        refused("Ubuntu 24.04 (work)"),
        None,
        "brackets, dots and spaces are all things a reader says"
    );
}

#[test]
fn names_are_compared_without_case_and_without_stray_spaces() {
    assert!(same_name("Work Laptop", "work laptop"));
    assert!(same_name(" work laptop ", "work laptop"));
    assert!(!same_name("work laptop", "work desktop"));
}
