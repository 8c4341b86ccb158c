//! Tests for ports driven explained.

use acter_core::ports::{Explained, NeverExplained};

#[test]
fn with_nowhere_to_keep_it_every_shell_is_asked_about_again() {
    let explained = NeverExplained;
    explained.remember("bash");

    assert!(!explained.already("bash"));
}
