//! Tests for ports driven connection_store.

use acter_core::entities::{LineOwner, SavedConnection, SavedTarget, SetUp};
use acter_core::ports::{ConnectionStore, RememberedConnections, StoredConnections};

fn connection(name: &str) -> SavedConnection {
    SavedConnection {
        name: name.to_owned(),
        target: SavedTarget::Cmd,
        set_up: SetUp::Yes,
        line_owner: LineOwner::FarEnd,
    }
}

#[test]
fn saving_over_a_name_replaces_it_rather_than_making_a_second_row() {
    let store = RememberedConnections::default();

    store.save(connection("work laptop")).expect("it saves");
    store
        .save(SavedConnection {
            target: SavedTarget::Terminal,
            ..connection("Work Laptop")
        })
        .expect("and saves again");

    let saved = store.saved().connections;
    assert_eq!(saved.len(), 1, "two rows a listener could not tell apart");
    assert_eq!(saved[0].target, SavedTarget::Terminal);
    assert_eq!(saved[0].name, "Work Laptop", "the spelling last written");
}

#[test]
fn renaming_and_forgetting_reach_the_row_whatever_its_case() {
    let store = RememberedConnections::holding(vec![connection("Work Laptop")]);

    store.rename("work laptop", "home").expect("it renames");
    assert_eq!(store.saved().connections[0].name, "home");

    store.forget("HOME").expect("it forgets");
    assert!(store.saved().connections.is_empty());
}

#[test]
fn a_store_that_cannot_write_answers_a_sentence_and_changes_nothing() {
    let store = RememberedConnections::refusing(
        "Could not save the connection: the settings folder D:\\acter is not writable.",
    );

    let refused = store.save(connection("work laptop"));

    assert_eq!(
        refused,
        Err(
            "Could not save the connection: the settings folder D:\\acter is not writable."
                .to_owned()
        )
    );
    assert!(store.saved().connections.is_empty());
}

#[test]
fn a_first_run_has_nothing_saved_and_nothing_to_report() {
    let store = RememberedConnections::default();

    assert_eq!(store.saved(), StoredConnections::default());
    assert!(store.offer_to_save(), "the offer is on until somebody says");
}

#[test]
fn a_document_that_would_not_parse_carries_its_sentence_instead() {
    let store = RememberedConnections::unreadable("Acter could not read its settings.");

    let answer = store.saved();

    assert!(answer.connections.is_empty());
    assert_eq!(
        answer.unreadable.as_deref(),
        Some("Acter could not read its settings.")
    );
}

#[test]
fn a_store_that_would_not_parse_keeps_its_sentence_after_a_save() {
    let store = RememberedConnections::unreadable("Acter could not read its settings.");

    store.save(connection("Work Laptop")).expect("the save is taken");

    assert_eq!(
        store.saved().unreadable.as_deref(),
        Some("Acter could not read its settings.")
    );
}

#[test]
fn a_store_that_cannot_write_still_offers_to_save() {
    let store = RememberedConnections::refusing("The settings folder is not writable.");

    assert!(store.stop_offering_to_save().is_err());

    assert!(store.offer_to_save());
    assert!(store.saved().connections.is_empty());
}
