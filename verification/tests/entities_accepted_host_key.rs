//! Tests for entities accepted_host_key.

use acter_core::entities::{AcceptedHostKey, HostKeyOrigin};
use acter_core::ports::{HostKeyStore};

fn accepted(port: u16) -> AcceptedHostKey {
    AcceptedHostKey {
        host: "example.org".to_owned(),
        port,
        algorithm: "ssh-ed25519".to_owned(),
        fingerprint: "SHA256:IzJE9oHP7rabiNsCSTceP2l1jW8/4WESW2jkk+JFiOU".to_owned(),
        accepted: "2026-09-12".to_owned(),
        origin: HostKeyOrigin::Acter,
    }
}

#[test]
fn a_record_is_about_one_host_on_one_port() {
    assert!(accepted(2222).is_for("example.org", 2222));
    assert!(!accepted(2222).is_for("example.org", 22));
    assert!(!accepted(2222).is_for("example.com", 2222));
}

#[test]
fn a_native_record_is_not_acters_to_keep() {
    assert!(accepted(22).is_acters_own());
    assert!(
        !AcceptedHostKey {
            origin: HostKeyOrigin::Native,
            ..accepted(22)
        }
        .is_acters_own()
    );
}
