//! Tests for entities session_setup.

use acter_core::entities::{SetUp};

#[test]
fn only_a_ticked_box_wants_anything_run() {
    assert!(SetUp::Yes.wanted());
    assert!(!SetUp::No.wanted());
}
