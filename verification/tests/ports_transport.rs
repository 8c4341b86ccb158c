//! Tests for ports driven transport.

use acter_core::ports::{TransportError};

fn every_variant() -> Vec<TransportError> {
    vec![
        TransportError::NotStarted,
        TransportError::Closed,
        TransportError::Failed {
            detail: "The pipe was closed by the far end.".to_owned(),
        },
    ]
}

#[test]
fn every_error_speaks_a_whole_sentence() {
    for error in every_variant() {
        let spoken = error.to_string();
        let first = spoken.chars().next().expect("a message is never empty");
        assert!(
            first.is_uppercase(),
            "a spoken message starts a sentence: {spoken}"
        );
        assert!(
            spoken.ends_with('.'),
            "a spoken message ends in a full stop, so a reader pauses: {spoken}"
        );
        assert!(
            spoken.split_whitespace().count() >= 5,
            "a spoken message says what happened, not a label: {spoken}"
        );
    }
}

#[test]
fn a_failure_carries_the_world_s_own_words_after_the_plain_language_part() {
    let error = TransportError::Failed {
        detail: "The handle is invalid.".to_owned(),
    };
    let spoken = error.to_string();
    assert!(spoken.starts_with("The text could not be sent"));
    assert!(spoken.ends_with("The handle is invalid."));
}
