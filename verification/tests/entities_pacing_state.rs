//! Tests for entities pacing_state.

use acter_core::entities::{PacingConfig, PacingState};

#[test]
fn defaults_match_design() {
    let config = PacingConfig::default();
    assert_eq!(config.quiescence, 500);
    assert_eq!(config.patience, 10000);
    assert_eq!(config.max_lines, 25);
    assert_eq!(config.max_chars, 2000);
    assert_eq!(config.babble_limit, 3);
    assert_eq!(config.far_end_settle, 30);
    assert!(
        config.far_end_settle < config.quiescence,
        "a keystroke a listener is waiting on is not paced like a transcript"
    );
    assert_eq!(config.integration_grace, 5000);
    assert_eq!(config.render_tick, 50);
}

#[test]
fn fresh_state_has_no_history() {
    let state = PacingState::default();
    assert_eq!(state.consecutive_auto_reads, 0);
    assert!(!state.patience_fired);
    assert!(!state.babble_tripped);
    assert_eq!(state.last_output_at, 0);
    assert_eq!(state.continuous_since, 0);
}
