//! Tests for policies far_end_row.

use acter_core::entities::{LineId};
use acter_core::policies::{Anchor, Caret, FarEndAnswer, Keystroke, RowChange, far_end_row};

fn change(line: u64, before: &str, after: &str) -> RowChange {
    RowChange {
        line: LineId(line),
        before: before.to_owned(),
        after: after.to_owned(),
    }
}

fn at(column: u16, row: u16) -> Option<Caret> {
    Some(Caret { column, row })
}

fn keystroke<'a>(
    changed: &'a [RowChange],
    anchor: Option<Anchor>,
    was: Option<Caret>,
    now: Option<Caret>,
) -> Keystroke<'a> {
    holding("", changed, anchor, was, now)
}

fn holding<'a>(
    held: &'a str,
    changed: &'a [RowChange],
    anchor: Option<Anchor>,
    was: Option<Caret>,
    now: Option<Caret>,
) -> Keystroke<'a> {
    Keystroke {
        changed,
        anchor,
        was,
        now,
        held,
    }
}

fn anchored(line: u64, column: u16) -> Option<Anchor> {
    Some(Anchor {
        line: LineId(line),
        column,
    })
}

#[test]
fn history_recall_speaks_the_line_and_not_the_prompt() {
    let prompt = "marlon@splyt:/mnt/c/Users/marlo$ ";
    let changed = [change(
        7,
        &format!("{prompt}echo acter-history-one"),
        &format!("{prompt}exit"),
    )];
    let answer = far_end_row(&keystroke(
        &changed,
        anchored(7, prompt.chars().count() as u16),
        at(55, 3),
        at(37, 3),
    ));

    assert_eq!(
        answer,
        FarEndAnswer::Row {
            text: "exit".to_owned(),
            caret: 4,
        }
    );
}

#[test]
fn the_first_recall_is_an_append_and_is_still_the_answer() {
    let prompt = "marlon@splyt:/mnt/c/Users/marlo$ ";
    let changed = [change(
        7,
        prompt,
        &format!("{prompt}echo acter-history-one"),
    )];
    let anchor = prompt.chars().count() as u16;
    let answer = far_end_row(&keystroke(
        &changed,
        anchored(7, anchor),
        at(anchor, 3),
        at(anchor + 22, 3),
    ));

    assert_eq!(
        answer,
        FarEndAnswer::Row {
            text: "echo acter-history-one".to_owned(),
            caret: 22,
        }
    );
}

#[test]
fn tab_completion_speaks_the_completed_line_rather_than_what_tab_added() {
    let prompt = "marlon@splyt:~$ ";
    let changed = [change(
        4,
        &format!("{prompt}ech"),
        &format!("{prompt}echo "),
    )];
    let answer = far_end_row(&keystroke(&changed, anchored(4, 16), at(19, 2), at(21, 2)));

    assert_eq!(
        answer,
        FarEndAnswer::Row {
            text: "echo ".to_owned(),
            caret: 5,
        }
    );
}

#[test]
fn a_menu_repaint_answers_with_the_command_line_and_not_the_menu() {
    let prompt = "PS C:\\Users\\marlo> ";
    let mut changed = vec![change(
        2,
        &format!("{prompt}Get-CIPolicyInfo"),
        &format!("{prompt}Get-CertificateAutoEnrollmentPolicy"),
    )];
    for row in 3..13 {
        changed.push(change(row, "Get-Command                    ", ""));
    }
    let answer = far_end_row(&keystroke(&changed, anchored(2, 19), at(35, 0), at(54, 0)));

    assert_eq!(
        answer,
        FarEndAnswer::Row {
            text: "Get-CertificateAutoEnrollmentPolicy".to_owned(),
            caret: 35,
        }
    );
}

#[test]
fn far_end_row_a_selection_prompt_answers_with_the_row_that_gained_content() {
    let changed = [
        change(11, "> marlon-sousa/acter", "  marlon-sousa/acter"),
        change(12, "  Skip pushing the branch", "> Skip pushing the branch"),
    ];
    let answer = far_end_row(&keystroke(&changed, anchored(9, 0), None, None));

    assert_eq!(
        answer,
        FarEndAnswer::Detached {
            text: "> Skip pushing the branch".to_owned(),
        }
    );
}

#[test]
fn the_rule_is_content_and_never_a_marker_character() {
    let changed = [
        change(4, "* Ubuntu", "  Ubuntu"),
        change(5, "  Debian", "* Debian"),
    ];
    assert_eq!(
        far_end_row(&keystroke(&changed, None, None, None)),
        FarEndAnswer::Detached {
            text: "* Debian".to_owned(),
        }
    );
}

#[test]
fn a_cursor_that_moved_along_its_row_moves_the_caret_and_nothing_else() {
    let answer = far_end_row(&holding("exit", &[], anchored(7, 32), at(36, 3), at(35, 3)));
    assert_eq!(answer, FarEndAnswer::Caret { caret: 3 });
}

#[test]
fn the_caret_is_counted_from_the_anchor_column() {
    let answer = far_end_row(&holding("exit", &[], anchored(7, 32), at(32, 3), at(33, 3)));
    assert_eq!(answer, FarEndAnswer::Caret { caret: 1 });
}

#[test]
fn a_cursor_that_changed_rows_is_not_a_caret_move() {
    let answer = far_end_row(&keystroke(&[], anchored(7, 0), at(4, 3), at(4, 4)));
    assert_eq!(answer, FarEndAnswer::Nothing);
}

#[test]
fn a_hidden_cursor_moves_no_caret() {
    assert_eq!(
        far_end_row(&keystroke(&[], anchored(7, 0), at(4, 3), None)),
        FarEndAnswer::Nothing
    );
    assert_eq!(
        far_end_row(&keystroke(&[], anchored(7, 0), None, at(4, 3))),
        FarEndAnswer::Nothing
    );
}

#[test]
fn nothing_changing_says_nothing() {
    let answer = far_end_row(&keystroke(&[], anchored(7, 0), at(4, 3), at(4, 3)));
    assert_eq!(answer, FarEndAnswer::Nothing);
}

#[test]
fn a_row_a_key_emptied_is_reported_empty_and_not_described() {
    let prompt = "$ ";
    let changed = [change(7, &format!("{prompt}some command"), prompt)];
    let answer = far_end_row(&keystroke(&changed, anchored(7, 2), at(14, 3), at(2, 3)));

    assert_eq!(
        answer,
        FarEndAnswer::Row {
            text: String::new(),
            caret: 0,
        }
    );
}

#[test]
fn a_row_that_only_lost_content_is_not_the_answer() {
    let changed = [change(11, "> marlon-sousa/acter", "  marlon-sousa/acter")];
    assert_eq!(
        far_end_row(&keystroke(&changed, None, None, None)),
        FarEndAnswer::Nothing
    );
}

#[test]
fn the_anchored_row_is_asked_before_the_content_rule() {
    let changed = [
        change(9, "$ ", "$ exit"),
        change(11, "", "an entire row of other text"),
    ];
    let answer = far_end_row(&keystroke(&changed, anchored(9, 2), at(2, 1), at(6, 1)));

    assert_eq!(
        answer,
        FarEndAnswer::Row {
            text: "exit".to_owned(),
            caret: 4,
        }
    );
}

#[test]
fn a_caret_past_the_text_pads_the_row_out_to_it() {
    let prompt = "marlon@splyt:~$ ";
    let changed = [change(4, &format!("{prompt}ech"), &format!("{prompt}echo"))];
    let answer = far_end_row(&holding(
        "ech",
        &changed,
        anchored(4, 16),
        at(19, 2),
        at(21, 2),
    ));

    assert_eq!(
        answer,
        FarEndAnswer::Row {
            text: "echo ".to_owned(),
            caret: 5,
        }
    );
}

#[test]
fn a_space_typed_at_the_end_reaches_the_field_as_a_space() {
    let answer = far_end_row(&holding(
        "echo hi",
        &[],
        anchored(7, 16),
        at(23, 3),
        at(24, 3),
    ));

    assert_eq!(
        answer,
        FarEndAnswer::Row {
            text: "echo hi ".to_owned(),
            caret: 8,
        }
    );
}

#[test]
fn deleting_a_trailing_space_shortens_the_line_the_listener_holds() {
    let answer = far_end_row(&holding(
        "echo hi ",
        &[],
        anchored(7, 16),
        at(24, 3),
        at(23, 3),
    ));

    assert_eq!(
        answer,
        FarEndAnswer::Row {
            text: "echo hi".to_owned(),
            caret: 7,
        }
    );
}

#[test]
fn a_caret_moving_inside_a_padded_line_still_rewrites_nothing() {
    let answer = far_end_row(&holding(
        "echo hi ",
        &[],
        anchored(7, 16),
        at(24, 3),
        at(20, 3),
    ));

    assert_eq!(answer, FarEndAnswer::Caret { caret: 4 });
}

#[test]
fn the_same_batch_always_answers_the_same_thing() {
    let changed = [change(7, "$ ", "$ ls")];
    let batch = keystroke(&changed, anchored(7, 2), at(2, 3), at(4, 3));
    assert_eq!(far_end_row(&batch), far_end_row(&batch));
}
