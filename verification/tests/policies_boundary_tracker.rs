//! Tests for policies boundary_tracker.

use std::sync::atomic::{AtomicU64, Ordering};

use acter_core::entities::{ExitCode, LineId, LineRevision, Osc133Marker, Screen, TerminalItem};
use acter_core::policies::{BoundaryEvent, BoundaryTracker, Region};

/// A counter for tests that do not care which id they get, only that one is carried.
static NEXT_ID: AtomicU64 = AtomicU64::new(1);

fn text(s: &str) -> TerminalItem {
    line(
        NEXT_ID.fetch_add(1, Ordering::Relaxed),
        s,
        LineRevision::Appended,
    )
}

fn line(id: u64, s: &str, revision: LineRevision) -> TerminalItem {
    TerminalItem::Line {
        id: LineId(id),
        text: s.to_owned(),
        revision,
    }
}

fn a() -> TerminalItem {
    TerminalItem::Marker(Osc133Marker::PromptStart)
}

fn b() -> TerminalItem {
    TerminalItem::Marker(Osc133Marker::CommandStart)
}

fn c() -> TerminalItem {
    TerminalItem::Marker(Osc133Marker::OutputStart)
}

fn d(code: i32) -> TerminalItem {
    TerminalItem::Marker(Osc133Marker::CommandEnd(Some(ExitCode(code))))
}

fn bare_d() -> TerminalItem {
    TerminalItem::Marker(Osc133Marker::CommandEnd(None))
}

fn regions(events: &[BoundaryEvent]) -> Vec<Region> {
    events
        .iter()
        .filter_map(|event| match event {
            BoundaryEvent::Line { region, .. } => Some(*region),
            _ => None,
        })
        .collect()
}

#[test]
fn happy_cycle_brackets_the_block_and_labels_its_line() {
    let mut tracker = BoundaryTracker::new();
    let events =
        tracker.observe(vec![a(), b(), c(), line(7, "hello", LineRevision::Settled), d(0)]);

    assert_eq!(
        events,
        vec![
            BoundaryEvent::MarkersObserved,
            BoundaryEvent::BlockStarted,
            BoundaryEvent::Line {
                region: Region::Output,
                id: LineId(7),
                text: "hello".to_owned(),
                revision: LineRevision::Settled,
            },
            BoundaryEvent::BlockEnded {
                exit: Some(ExitCode(0)),
            },
        ]
    );
}

#[test]
fn echo_exclusion_labels_prompt_and_command_line_apart_from_output() {
    let mut tracker = BoundaryTracker::new();
    let events = tracker.observe(vec![
        a(),
        text("PS C:\\> "),
        b(),
        text("git status"),
        c(),
        text("nothing to commit"),
        d(0),
    ]);

    assert_eq!(
        regions(&events),
        vec![Region::Prompt, Region::CommandLine, Region::Output]
    );
}

#[test]
fn text_before_any_marker_is_unstructured() {
    let mut tracker = BoundaryTracker::new();
    let events = tracker.observe(vec![text("banner from the shell")]);

    assert_eq!(regions(&events), vec![Region::Unstructured]);
    assert!(!events.contains(&BoundaryEvent::MarkersObserved));
}

#[test]
fn text_between_a_command_end_and_the_next_prompt_is_unstructured() {
    let mut tracker = BoundaryTracker::new();
    let events = tracker.observe(vec![c(), d(0), text("stray")]);

    assert_eq!(regions(&events), vec![Region::Unstructured]);
}

#[test]
fn command_end_with_no_open_block_is_ignored() {
    let mut tracker = BoundaryTracker::new();
    let events = tracker.observe(vec![
        a(),
        d(0),
        line(3, "still the prompt", LineRevision::Appended),
    ]);

    assert_eq!(
        events,
        vec![
            BoundaryEvent::MarkersObserved,
            BoundaryEvent::Line {
                region: Region::Prompt,
                id: LineId(3),
                text: "still the prompt".to_owned(),
                revision: LineRevision::Appended,
            },
        ]
    );
}

#[test]
fn a_second_output_start_does_not_split_the_block() {
    let mut tracker = BoundaryTracker::new();
    let events = tracker.observe(vec![c(), text("one"), c(), text("two"), d(0)]);

    let starts = events
        .iter()
        .filter(|event| **event == BoundaryEvent::BlockStarted)
        .count();
    assert_eq!(starts, 1);
    assert_eq!(regions(&events), vec![Region::Output, Region::Output]);
}

#[test]
fn prompt_start_mid_block_closes_it_with_an_unknown_exit_code() {
    let mut tracker = BoundaryTracker::new();
    let events = tracker.observe(vec![
        c(),
        line(1, "output", LineRevision::Appended),
        a(),
        line(2, "prompt", LineRevision::Appended),
    ]);

    assert_eq!(
        events,
        vec![
            BoundaryEvent::MarkersObserved,
            BoundaryEvent::BlockStarted,
            BoundaryEvent::Line {
                region: Region::Output,
                id: LineId(1),
                text: "output".to_owned(),
                revision: LineRevision::Appended,
            },
            BoundaryEvent::BlockEnded { exit: None },
            BoundaryEvent::Line {
                region: Region::Prompt,
                id: LineId(2),
                text: "prompt".to_owned(),
                revision: LineRevision::Appended,
            },
        ]
    );
}

#[test]
fn command_start_mid_block_closes_it_with_an_unknown_exit_code() {
    let mut tracker = BoundaryTracker::new();
    let events = tracker.observe(vec![c(), b()]);

    assert!(events.contains(&BoundaryEvent::BlockEnded { exit: None }));
}

#[test]
fn a_bare_command_end_closes_the_block_with_no_exit_code() {
    let mut tracker = BoundaryTracker::new();
    let events = tracker.observe(vec![c(), bare_d()]);

    assert!(events.contains(&BoundaryEvent::BlockEnded { exit: None }));
}

#[test]
fn command_start_without_a_preceding_prompt_start_is_accepted() {
    let mut tracker = BoundaryTracker::new();
    let events = tracker.observe(vec![b(), text("git status")]);

    assert_eq!(regions(&events), vec![Region::CommandLine]);
}

#[test]
fn markers_observed_fires_once_across_two_commands() {
    let mut tracker = BoundaryTracker::new();
    let events = tracker.observe(vec![a(), b(), c(), d(0), a(), b(), c(), d(1)]);

    let observed = events
        .iter()
        .filter(|event| **event == BoundaryEvent::MarkersObserved)
        .count();
    assert_eq!(observed, 1);
}

#[test]
fn empty_text_passes_through_rather_than_being_swallowed() {
    let mut tracker = BoundaryTracker::new();
    let events = tracker.observe(vec![c(), line(9, "", LineRevision::Appended)]);

    assert!(events.contains(&BoundaryEvent::Line {
        region: Region::Output,
        id: LineId(9),
        text: String::new(),
        revision: LineRevision::Appended,
    }));
}

#[test]
fn every_revision_kind_survives_the_label() {
    let mut tracker = BoundaryTracker::new();
    let events = tracker.observe(vec![
        c(),
        line(4, "downloading", LineRevision::Appended),
        line(4, "done", LineRevision::Rewritten),
        line(4, "done", LineRevision::Settled),
    ]);

    let revisions: Vec<_> = events
        .iter()
        .filter_map(|event| match event {
            BoundaryEvent::Line { revision, .. } => Some(*revision),
            _ => None,
        })
        .collect();
    assert_eq!(
        revisions,
        vec![
            LineRevision::Appended,
            LineRevision::Rewritten,
            LineRevision::Settled,
        ]
    );
}

#[test]
fn a_screen_change_is_relayed_in_place_without_touching_the_region() {
    let mut tracker = BoundaryTracker::new();
    let events = tracker.observe(vec![
        c(),
        line(1, "before", LineRevision::Appended),
        TerminalItem::ScreenChanged(Screen::Alternate),
        line(2, "after", LineRevision::Appended),
    ]);

    assert_eq!(
        events,
        vec![
            BoundaryEvent::MarkersObserved,
            BoundaryEvent::BlockStarted,
            BoundaryEvent::Line {
                region: Region::Output,
                id: LineId(1),
                text: "before".to_owned(),
                revision: LineRevision::Appended,
            },
            BoundaryEvent::ScreenChanged(Screen::Alternate),
            BoundaryEvent::Line {
                region: Region::Output,
                id: LineId(2),
                text: "after".to_owned(),
                revision: LineRevision::Appended,
            },
        ]
    );
}

#[test]
fn state_carries_across_batches() {
    let mut tracker = BoundaryTracker::new();
    let first = tracker.observe(vec![c()]);
    let second = tracker.observe(vec![text("output arriving in the next read")]);

    assert_eq!(
        first,
        vec![BoundaryEvent::MarkersObserved, BoundaryEvent::BlockStarted]
    );
    assert_eq!(regions(&second), vec![Region::Output]);
}

#[test]
fn markers_are_told_of_once_over_several_reads_and_before_any_block() {
    let mut tracker = BoundaryTracker::new();
    let mut events = tracker.observe(vec![line(1, "plain", LineRevision::Appended)]);
    events.extend(tracker.observe(vec![a(), b(), c()]));
    events.extend(tracker.observe(vec![d(0), a()]));

    let told: Vec<usize> = events
        .iter()
        .enumerate()
        .filter(|(_, e)| matches!(e, BoundaryEvent::MarkersObserved))
        .map(|(i, _)| i)
        .collect();
    assert_eq!(told.len(), 1);
    let first_block = events
        .iter()
        .position(|e| matches!(e, BoundaryEvent::BlockStarted | BoundaryEvent::BlockEnded { .. }))
        .expect("a block");
    assert!(told[0] < first_block);
}
