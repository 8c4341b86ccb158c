//! Tests for ports driven ssh_questions.

use acter_core::ports::{HostKeyState, Secret};

#[test]
fn a_password_does_not_print_itself() {
    let secret = Secret::new("hunter2");

    let printed = format!("{secret:?}");

    assert!(
        !printed.contains("hunter2"),
        "a debug print must not carry the password: {printed}"
    );
    assert_eq!(printed, "Secret(not shown)");
}

#[test]
fn the_one_caller_that_has_to_send_it_can_read_it() {
    assert_eq!(Secret::new("hunter2").expose(), "hunter2");
}

#[test]
fn an_unknown_key_and_a_changed_key_are_different_states() {
    let changed = HostKeyState::Changed {
        recorded: "SHA256:something".to_owned(),
    };

    assert_ne!(HostKeyState::Unknown, changed);
}
