//! Tests for ports driven host_key_store.

use acter_core::ports::{A_FIXED_DAY, HostKeyStore, RememberedHostKeys};

#[test]
fn a_record_that_was_accepted_is_there_the_next_time_it_is_asked_for() {
    let record = RememberedHostKeys::default();

    record
        .accept("example.org", 2222, "ssh-ed25519", "SHA256:abc")
        .expect("it is written down");

    let kept = record.accepted();
    assert_eq!(kept.len(), 1);
    assert!(kept[0].is_for("example.org", 2222));
    assert_eq!(kept[0].fingerprint, "SHA256:abc");
    assert_eq!(kept[0].accepted, A_FIXED_DAY, "the day is stamped for it");
    assert!(kept[0].is_acters_own(), "and it is Acter\'s to keep");
}

#[test]
fn a_record_that_cannot_be_written_answers_a_sentence_and_keeps_nothing() {
    let record = RememberedHostKeys::refusing("The settings folder is not writable.");

    let refused = record.accept("example.org", 22, "ssh-ed25519", "SHA256:abc");

    assert_eq!(
        refused,
        Err("The settings folder is not writable.".to_owned())
    );
    assert!(record.accepted().is_empty());
}

#[test]
fn what_a_record_was_made_holding_stays_first_and_in_order() {
    let first = RememberedHostKeys::default();
    first
        .accept("old.example.org", 22, "ssh-rsa", "SHA256:old")
        .expect("it is written down");
    let held = first.accepted();

    let record = RememberedHostKeys::holding(held.clone());
    record
        .accept("new.example.org", 22, "ssh-ed25519", "SHA256:new")
        .expect("it is written down");

    let kept = record.accepted();
    assert_eq!(kept.len(), 2);
    assert_eq!(kept[0], held[0]);
    assert!(kept[1].is_for("new.example.org", 22));
    assert_eq!(kept[1].accepted, A_FIXED_DAY);
}
