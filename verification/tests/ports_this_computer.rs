//! Tests for ports driven this_computer.

use acter_core::ports::{NoDistributions};

fn every_variant() -> Vec<NoDistributions> {
    vec![
        NoDistributions::NotInstalled,
        NoDistributions::NotWorking {
            detail: "The Windows Subsystem for Linux optional component is not enabled."
                .to_owned(),
        },
        NoDistributions::NoneInstalled,
    ]
}

#[test]
fn this_computer_every_reason_speaks_a_whole_sentence() {
    for reason in every_variant() {
        let spoken = reason.to_string();
        let first = spoken.chars().next().expect("a message is never empty");
        assert!(
            first.is_uppercase(),
            "a spoken message starts a sentence: {spoken}"
        );
        assert!(
            spoken.ends_with('.'),
            "a spoken message ends in a full stop, so a reader pauses: {spoken}"
        );
        assert!(
            spoken.split_whitespace().count() >= 5,
            "a spoken message says what happened, not a label: {spoken}"
        );
    }
}

#[test]
fn this_computer_the_three_situations_are_three_different_sentences() {
    let spoken: Vec<String> = every_variant().iter().map(|reason| reason.to_string()).collect();

    for (index, one) in spoken.iter().enumerate() {
        for other in &spoken[index + 1..] {
            assert_ne!(one, other, "each situation is said differently");
        }
    }
}

#[test]
fn this_computer_a_broken_wsl_carries_its_own_words_after_the_plain_language_part() {
    let reason = NoDistributions::NotWorking {
        detail: "Please enable the Virtual Machine Platform feature.".to_owned(),
    };
    let spoken = reason.to_string();

    assert!(spoken.starts_with("Windows Subsystem for Linux is installed"));
    assert!(spoken.ends_with("Please enable the Virtual Machine Platform feature."));
}
