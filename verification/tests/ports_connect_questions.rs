//! Tests for ports driven connect_questions.

use acter_core::entities::{Fault, SessionSetup, ShellMarkers, Verdict};
use acter_core::ports::{ConnectQuestions, IF_YOU_SKIP, ProgramAnswer, ProgramQuestion, SetupAnswer, SetupQuestion, Unasked};

fn bash() -> SetupQuestion {
    SetupQuestion {
        shell: "bash".to_owned(),
        setup: SessionSetup {
            line: "__acter_status=$?".to_owned(),
            markers: ShellMarkers::Full,
        },
    }
}

#[test]
fn with_nobody_to_ask_nothing_unverified_is_started() {
    let answer = Unasked.unverified(ProgramQuestion {
        label: "PowerShell 7".to_owned(),
        program: r"C:\tools\pwsh\pwsh.exe".to_owned(),
        verdict: Verdict::Untrusted {
            fault: Fault::NotSigned,
        },
    });

    assert_eq!(answer, ProgramAnswer::DoNotStart);
}

#[test]
fn with_nobody_to_ask_no_session_is_set_up() {
    assert_eq!(Unasked.set_up_session(bash()), SetupAnswer::Skip);
}

#[test]
fn the_question_names_the_shell_that_was_detected() {
    assert_eq!(
        bash().detected(),
        "Acter has detected that this session runs bash."
    );
}

#[test]
fn a_shell_that_marks_everything_offers_endings_and_failures() {
    let offer = bash().offer();

    assert!(offer.contains("when each command has finished"), "{offer}");
    assert!(offer.contains("told when a command fails"), "{offer}");
    assert!(
        !offer.contains("heading"),
        "a heading is not what setting a session up buys: {offer}"
    );
    assert!(
        !offer.contains("shell integration"),
        "the phrase A13 removed is not said to a listener: {offer}"
    );
}

#[test]
fn a_shell_that_says_how_a_command_went_is_offered_failures_too() {
    let question = SetupQuestion {
        shell: "sh".to_owned(),
        setup: SessionSetup {
            line: "PS1=...".to_owned(),
            markers: ShellMarkers::PromptCommandLineAndExitCode,
        },
    };
    let offer = question.offer();

    assert!(offer.contains("when each command has finished"), "{offer}");
    assert!(offer.contains("told when a command fails"), "{offer}");
}

#[test]
fn a_shell_that_marks_only_its_prompt_says_what_it_cannot_do() {
    let question = SetupQuestion {
        shell: "cmd".to_owned(),
        setup: SessionSetup {
            line: "PS1=...".to_owned(),
            markers: ShellMarkers::PromptAndCommandLine,
        },
    };
    let offer = question.offer();

    assert!(offer.contains("when each command has finished"), "{offer}");
    assert!(
        offer.contains("cannot yet tell you when a command fails"),
        "{offer}"
    );
}

#[test]
fn the_command_is_carried_exactly_as_it_would_run() {
    assert_eq!(bash().command(), "__acter_status=$?");
}

#[test]
fn the_refusal_says_what_still_works_before_what_does_not() {
    assert!(IF_YOU_SKIP.starts_with("If you skip this, the session still works."));
    assert!(
        IF_YOU_SKIP
            .ends_with("You will hear what commands print here, but not whether they worked.")
    );
}
