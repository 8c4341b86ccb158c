//! Tests for entities unspoken_text.

use acter_core::entities::{PacingConfig, ReadMode, UnspokenText};
use acter_core::policies::{TextSize, measure, verdict};

fn push_all(chunks: &[&str], config: &PacingConfig) -> UnspokenText {
    let mut unspoken = UnspokenText::default();
    for chunk in chunks {
        unspoken.push(chunk, config);
    }
    unspoken
}

#[test]
fn an_accumulated_span_measures_as_the_whole_text_would() {
    let config = PacingConfig::default();
    for chunks in [
        vec!["one\n", "two\n", "three"],
        vec!["no trailing newline"],
        vec!["a\n", "\n", "b\n"],
        vec!["split ", "across ", "chunks\n"],
    ] {
        let joined: String = chunks.concat();
        assert_eq!(
            push_all(&chunks, &config).size(),
            measure(&joined),
            "chunks {chunks:?}"
        );
    }
}

#[test]
fn empty_chunks_change_nothing() {
    let config = PacingConfig::default();
    let mut unspoken = UnspokenText::default();
    unspoken.push("", &config);
    assert_eq!(unspoken.size(), TextSize { lines: 0, chars: 0 });

    unspoken.push("text\n", &config);
    let before = unspoken.size();
    unspoken.push("", &config);
    assert_eq!(unspoken.size(), before);
}

#[test]
fn text_is_kept_while_it_could_still_be_spoken() {
    let config = PacingConfig::default();
    let unspoken = push_all(&["small\n", "enough\n"], &config);
    let (text, size) = { unspoken }.take();
    assert_eq!(text.as_deref(), Some("small\nenough\n"));
    assert_eq!(size.lines, 2);
}

#[test]
fn text_is_dropped_once_the_verdict_is_settled_but_lines_stay_exact() {
    let config = PacingConfig::default();
    let mut unspoken = UnspokenText::default();
    for _ in 0..200 {
        unspoken.push("a line of output\n", &config);
    }
    let (text, size) = unspoken.take();
    assert_eq!(text, None, "bytes past the threshold are not worth holding");
    assert_eq!(
        size.lines, 200,
        "the announcement still needs an exact count"
    );
    assert!(verdict(size, &config) == ReadMode::TooBig);
}

#[test]
fn a_flood_does_not_grow_without_bound() {
    let config = PacingConfig::default();
    let mut unspoken = UnspokenText::default();
    for _ in 0..10_000 {
        unspoken.push(&"y\n".repeat(100), &config);
    }
    assert_eq!(unspoken.text(), None);
    assert_eq!(unspoken.size().lines, 1_000_000);
}

#[test]
fn the_last_unterminated_row_survives_the_bytes_being_dropped() {
    let config = PacingConfig::default();
    let mut unspoken = UnspokenText::default();
    for _ in 0..200 {
        unspoken.push("a line of output\n", &config);
    }
    unspoken.push("marlon@ubuntu:~$ ", &config);

    assert_eq!(unspoken.last_line(), Some("marlon@ubuntu:~$ "));
    let (text, _) = unspoken.take();
    assert_eq!(text, None, "the span itself is still not worth holding");
}

#[test]
fn a_row_arriving_in_pieces_is_one_row() {
    let config = PacingConfig::default();
    let mut unspoken = UnspokenText::default();
    unspoken.push("done\nmarlon", &config);
    unspoken.push("@ubuntu", &config);
    unspoken.push(":~$ ", &config);

    assert_eq!(unspoken.last_line(), Some("marlon@ubuntu:~$ "));
}

#[test]
fn a_span_that_ends_at_a_line_ending_has_no_last_row() {
    let config = PacingConfig::default();
    let mut unspoken = UnspokenText::default();
    unspoken.push("one\ntwo\n", &config);

    assert_eq!(unspoken.last_line(), None);
}

#[test]
fn a_blank_row_is_not_a_row() {
    let config = PacingConfig::default();
    let mut unspoken = UnspokenText::default();
    unspoken.push("one\n   ", &config);

    assert_eq!(unspoken.last_line(), None);
}

#[test]
fn taking_the_span_takes_the_row_with_it() {
    let config = PacingConfig::default();
    let mut unspoken = UnspokenText::default();
    unspoken.push("one\n$ ", &config);
    let _ = unspoken.take();

    assert_eq!(unspoken.last_line(), None);
}

#[test]
fn taking_resets_everything() {
    let config = PacingConfig::default();
    let mut unspoken = push_all(&["some\n", "text\n"], &config);
    let _ = unspoken.take();
    assert_eq!(unspoken.size(), TextSize { lines: 0, chars: 0 });
    let fresh = UnspokenText::default();
    assert_eq!(unspoken.size(), fresh.size());
    assert_eq!(unspoken.last_line(), fresh.last_line());
    assert_eq!(unspoken.text(), fresh.text());
}
