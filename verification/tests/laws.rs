use acter_core::entities::{ConnectionKind, Key, KeyPress, ProfileId, SavedTarget};
use acter_core::policies::{ended, key_bytes};
use acter_core::ports::TerminalModes;

fn modes(application_cursor_keys: bool, bracketed_paste: bool) -> TerminalModes {
    TerminalModes {
        application_cursor_keys,
        bracketed_paste,
    }
}

fn press(key: Key, alt: bool) -> KeyPress {
    KeyPress {
        key,
        ctrl: false,
        shift: false,
        alt,
    }
}

#[test]
fn the_far_ends_modes_change_only_the_cursor_keys() {
    for key in [Key::Char('é'), Key::Tab, Key::Enter, Key::Backspace, Key::Delete, Key::Escape] {
        assert_eq!(
            key_bytes(&press(key, false), modes(false, false)),
            key_bytes(&press(key, false), modes(true, true)),
            "{key:?}"
        );
    }
    assert_ne!(
        key_bytes(&press(Key::Up, false), modes(false, false)),
        key_bytes(&press(Key::Up, false), modes(true, false))
    );
}

#[test]
fn alt_is_an_escape_in_front_of_the_key() {
    let plain = key_bytes(&press(Key::Char('x'), false), modes(false, false));
    let mut with_alt = vec![0x1b];
    with_alt.extend(plain);
    assert_eq!(key_bytes(&press(Key::Char('x'), true), modes(false, false)), with_alt);
}

#[test]
fn a_reason_that_already_ended_a_sentence_is_not_ended_again() {
    for reason in ["the far end hung up", "the far end hung up.", "  done!  ", ""] {
        let once = ended(reason);
        assert_eq!(ended(&once), once, "{reason:?}");
    }
}

#[test]
fn no_two_kinds_of_connection_share_a_label() {
    let kinds = [
        ConnectionKind::Cmd,
        ConnectionKind::PowerShell,
        ConnectionKind::WindowsPowerShell,
        ConnectionKind::PowerShellSeven,
        ConnectionKind::Wsl,
        ConnectionKind::Terminal,
        ConnectionKind::Ssh,
    ];
    for (i, one) in kinds.iter().enumerate() {
        for another in &kinds[i + 1..] {
            assert_ne!(one.label(), another.label());
        }
    }
}

#[test]
fn a_saved_target_names_the_profile_it_was_saved_from() {
    let profiles = [
        ProfileId::Shell {
            kind: ConnectionKind::Cmd,
        },
        ProfileId::Distribution {
            name: "Ubuntu".to_owned(),
        },
        ProfileId::Program {
            program: "C:\\tools\\nu.exe".to_owned(),
        },
        ProfileId::Ssh {
            host: "box".to_owned(),
            port: 2222,
            user: "me".to_owned(),
        },
        ProfileId::Scripted {
            name: "demo".to_owned(),
        },
    ];
    for profile in profiles {
        let target: SavedTarget = SavedTarget::of(&profile).expect("this profile can be saved");
        assert_eq!(target.profile(), profile);
    }
}
