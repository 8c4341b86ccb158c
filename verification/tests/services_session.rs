use std::sync::Arc;
use std::sync::atomic::AtomicU32;

use acter_core::controllers::SessionInput;
use acter_core::entities::{
    CommandId, ConnectionState, ExitCode, Key, KeyAck, KeyPress, LineId, LineOwner,
    LineRevision, Osc133Marker, PacingConfig, SessionEvent, ShellMarkers, TerminalItem,
};
use acter_core::ports::{Cursor, TerminalModes};
use acter_core::services::{
    BACKLOG, Backlog, EngineState, KeyRoute, Pump, PumpAction, Request, route_key,
};

fn engine_at(column: u16) -> EngineState {
    EngineState {
        cursor: Cursor {
            column,
            row: 0,
            visible: true,
        },
        modes: TerminalModes {
            application_cursor_keys: false,
            bracketed_paste: false,
        },
    }
}

fn pump(markers: ShellMarkers, setup: Option<&str>) -> Pump {
    Pump::new(
        &PacingConfig::default(),
        markers,
        None,
        setup.map(str::to_owned),
        Arc::new(AtomicU32::new(100)),
    )
}

fn line(id: u64, text: &str, revision: LineRevision) -> TerminalItem {
    TerminalItem::Line {
        id: LineId(id),
        text: text.to_owned(),
        revision,
    }
}

fn sent(input: SessionInput) -> PumpAction {
    PumpAction::Send(input)
}

fn key(ch: char, ctrl: bool) -> KeyPress {
    KeyPress {
        key: Key::Char(ch),
        ctrl,
        shift: false,
        alt: false,
    }
}

#[test]
fn the_first_read_connects_and_starts_the_grace_period() {
    let mut pump = pump(ShellMarkers::Full, None);
    let out = pump.read(
        vec![
            TerminalItem::Marker(Osc133Marker::PromptStart),
            line(1, "$ ", LineRevision::Appended),
        ],
        Vec::new(),
        engine_at(2),
    );
    assert_eq!(
        out,
        vec![
            sent(SessionInput::Connection {
                state: ConnectionState::Connected
            }),
            PumpAction::ArmGrace(PacingConfig::default().integration_grace),
            sent(SessionInput::MarkersObserved),
        ]
    );
    let again = pump.read(Vec::new(), Vec::new(), engine_at(2));
    assert!(again.is_empty());
}

#[test]
fn a_submitted_line_is_echoed_into_its_own_block_and_ends_with_its_code() {
    let mut pump = pump(ShellMarkers::Full, None);
    pump.read(
        vec![
            TerminalItem::Marker(Osc133Marker::PromptStart),
            line(1, "$ ", LineRevision::Appended),
        ],
        Vec::new(),
        engine_at(2),
    );
    let prompt = pump.read(
        vec![TerminalItem::Marker(Osc133Marker::CommandStart)],
        Vec::new(),
        engine_at(2),
    );
    assert_eq!(
        prompt,
        vec![sent(SessionInput::PromptDrawn {
            text: "$ ".to_owned()
        })]
    );

    let submitted = pump.request(
        Request::Submit {
            command_id: CommandId(7),
            line: "ls".to_owned(),
        },
        engine_at(2),
    );
    assert_eq!(
        submitted,
        vec![PumpAction::Write(b"ls\r".to_vec()), PumpAction::Running(true)]
    );

    let echo = pump.read(
        vec![line(1, "ls", LineRevision::Appended)],
        Vec::new(),
        engine_at(4),
    );
    assert!(echo.is_empty());

    let output = pump.read(
        vec![
            TerminalItem::Marker(Osc133Marker::OutputStart),
            line(2, "file", LineRevision::Appended),
        ],
        Vec::new(),
        engine_at(4),
    );
    assert_eq!(
        output,
        vec![
            sent(SessionInput::CommandStarted {
                command_id: CommandId(7),
                command_line: Some("ls".to_owned()),
            }),
            PumpAction::Running(true),
            sent(SessionInput::Output {
                line: LineId(2),
                revision: LineRevision::Appended,
                text: "file".to_owned(),
                spoken: true,
                prompt: false,
                runs: Vec::new(),
            }),
        ]
    );

    let ended = pump.read(
        vec![TerminalItem::Marker(Osc133Marker::CommandEnd(Some(ExitCode(2))))],
        Vec::new(),
        engine_at(0),
    );
    assert_eq!(
        ended,
        vec![
            sent(SessionInput::CommandEnded {
                command_id: CommandId(7),
                exit_code: ExitCode(2),
            }),
            PumpAction::Running(false),
        ]
    );
}

#[test]
fn an_interrupted_block_ends_as_interrupted() {
    let mut pump = pump(ShellMarkers::Full, None);
    pump.request(
        Request::Submit {
            command_id: CommandId(3),
            line: "sleep 9".to_owned(),
        },
        engine_at(0),
    );
    let started = pump.read(
        vec![TerminalItem::Marker(Osc133Marker::OutputStart)],
        Vec::new(),
        engine_at(0),
    );
    assert!(started.contains(&sent(SessionInput::CommandStarted {
        command_id: CommandId(3),
        command_line: None,
    })));
    assert_eq!(
        pump.request(Request::Interrupt, engine_at(0)),
        vec![PumpAction::Interrupt]
    );
    let ended = pump.read(
        vec![TerminalItem::Marker(Osc133Marker::PromptStart)],
        Vec::new(),
        engine_at(0),
    );
    assert_eq!(
        ended,
        vec![
            sent(SessionInput::CommandInterrupted {
                command_id: CommandId(3)
            }),
            PumpAction::Running(false),
        ]
    );
}

#[test]
fn output_with_no_block_open_opens_one_nobody_submitted() {
    let mut pump = pump(ShellMarkers::Full, None);
    let out = pump.read(
        vec![line(1, "welcome", LineRevision::Appended)],
        Vec::new(),
        engine_at(0),
    );
    assert_eq!(out.len(), 5);
    assert_eq!(
        out[2],
        sent(SessionInput::CommandStarted {
            command_id: CommandId(100),
            command_line: None,
        })
    );
    assert_eq!(out[3], PumpAction::Running(true));
    assert!(matches!(
        &out[4],
        PumpAction::Send(SessionInput::Output { text, spoken: true, .. }) if text == "welcome"
    ));
    // The tracker never opened a block, so its prompt closes none: the pump's own block
    // stays open for whatever follows.
    let prompt = pump.read(
        vec![TerminalItem::Marker(Osc133Marker::PromptStart)],
        Vec::new(),
        engine_at(0),
    );
    assert_eq!(prompt, vec![sent(SessionInput::MarkersObserved)]);
}

#[test]
fn the_setup_line_goes_out_once_a_row_is_drawn_and_quiets_the_session() {
    let mut pump = pump(ShellMarkers::Full, Some("setup"));
    let out = pump.read(
        vec![line(1, "$ ", LineRevision::Appended)],
        Vec::new(),
        engine_at(2),
    );
    let from = out
        .iter()
        .position(|action| *action == sent(SessionInput::SelfTalk(true)))
        .expect("the session talks to itself before the setup goes out");
    assert_eq!(out[from + 1], PumpAction::Write(b"setup\r".to_vec()));
    assert_eq!(out[from + 2], PumpAction::Running(true));

    let later = pump.read(
        vec![line(1, "x", LineRevision::Appended)],
        Vec::new(),
        engine_at(3),
    );
    assert!(!later.iter().any(|action| matches!(action, PumpAction::Write(_))));

    assert_eq!(
        pump.grace_over(),
        vec![
            sent(SessionInput::GracePeriodExpired),
            sent(SessionInput::SelfTalk(false)),
            PumpAction::Running(true),
        ]
    );
    assert_eq!(
        pump.grace_over(),
        vec![sent(SessionInput::GracePeriodExpired), PumpAction::Running(true)]
    );
}

#[test]
fn a_far_end_line_is_anchored_where_the_cursor_is() {
    let mut pump = pump(ShellMarkers::Full, None);
    pump.read(
        vec![
            TerminalItem::Marker(Osc133Marker::PromptStart),
            line(1, "$ ", LineRevision::Appended),
            TerminalItem::Marker(Osc133Marker::CommandStart),
        ],
        Vec::new(),
        engine_at(2),
    );
    let owned = pump.request(Request::Owner(LineOwner::FarEnd), engine_at(2));
    assert_eq!(
        owned,
        vec![sent(SessionInput::FarEndLine {
            text: Some(String::new()),
            caret: 0,
            anchored: true,
        })]
    );
    let typed = pump.request(
        Request::Key {
            key: key('a', false),
        },
        engine_at(2),
    );
    assert_eq!(typed, vec![PumpAction::Write(b"a".to_vec())]);
    let drawn = pump.read(
        vec![line(1, "a", LineRevision::Appended)],
        Vec::new(),
        engine_at(3),
    );
    assert_eq!(
        drawn.last(),
        Some(&PumpAction::ArmSettled(PacingConfig::default().far_end_settle))
    );
    let settled = pump.settled(engine_at(3));
    assert_eq!(
        settled,
        vec![sent(SessionInput::FarEndLine {
            text: Some("a".to_owned()),
            caret: 1,
            anchored: true,
        })]
    );
}

#[test]
fn a_paste_is_bracketed_only_when_the_far_end_asked_and_only_while_it_owns_the_line() {
    let mut pump = pump(ShellMarkers::Full, None);
    assert!(pump
        .request(
            Request::Paste {
                text: "x".to_owned()
            },
            engine_at(0)
        )
        .is_empty());
    pump.request(Request::Owner(LineOwner::FarEnd), engine_at(0));
    let mut bracketed = engine_at(0);
    bracketed.modes.bracketed_paste = true;
    assert_eq!(
        pump.request(
            Request::Paste {
                text: "é".to_owned()
            },
            bracketed
        ),
        vec![PumpAction::Write(b"\x1b[200~\xc3\xa9\x1b[201~".to_vec())]
    );
    assert_eq!(
        pump.request(
            Request::Paste {
                text: "é".to_owned()
            },
            engine_at(0)
        ),
        vec![PumpAction::Write("é".as_bytes().to_vec())]
    );
}

#[test]
fn the_end_of_the_reads_is_the_session_disconnecting() {
    let pump = pump(ShellMarkers::Full, None);
    assert_eq!(
        pump.hung_up(),
        vec![sent(SessionInput::Connection {
            state: ConnectionState::Disconnected
        })]
    );
}

#[test]
fn keys_are_routed_by_what_they_are_bound_to() {
    let eof = Some(vec![4u8]);
    assert_eq!(
        route_key(&key('c', true), LineOwner::Local, false, &eof),
        KeyRoute::Answer(KeyAck::NothingToActOn)
    );
    assert_eq!(
        route_key(&key('c', true), LineOwner::Local, true, &eof),
        KeyRoute::Queue(Request::Interrupt)
    );
    assert_eq!(
        route_key(&key('d', true), LineOwner::Local, false, &eof),
        KeyRoute::Queue(Request::Eof { bytes: vec![4] })
    );
    assert_eq!(
        route_key(&key('d', true), LineOwner::Local, false, &None),
        KeyRoute::Answer(KeyAck::Unsupported)
    );
    assert_eq!(
        route_key(&key('x', false), LineOwner::Local, true, &eof),
        KeyRoute::Answer(KeyAck::Unbound)
    );
    assert_eq!(
        route_key(&key('c', true), LineOwner::FarEnd, false, &eof),
        KeyRoute::Queue(Request::Key {
            key: key('c', true)
        })
    );
}

#[test]
fn events_wait_for_the_window_and_then_pass_straight_on() {
    let mut backlog = Backlog::new();
    assert_eq!(backlog.offer(SessionEvent::AltScreenEntered), None);
    assert_eq!(backlog.offer(SessionEvent::AltScreenLeft), None);
    assert_eq!(
        backlog.attach(),
        vec![SessionEvent::AltScreenEntered, SessionEvent::AltScreenLeft]
    );
    assert_eq!(
        backlog.offer(SessionEvent::IntegrationUnavailable),
        Some(SessionEvent::IntegrationUnavailable)
    );
    assert!(backlog.attach().is_empty());
}

#[test]
fn a_backlog_keeps_no_more_than_its_limit() {
    let mut backlog = Backlog::new();
    for _ in 0..BACKLOG + 5 {
        assert_eq!(backlog.offer(SessionEvent::AltScreenEntered), None);
    }
    assert_eq!(backlog.attach().len(), BACKLOG);
}

#[test]
fn an_echo_starts_a_word_so_the_tail_of_a_longer_word_is_not_one() {
    let started = |out: &Vec<PumpAction>| {
        out.iter().any(|action| {
            *action
                == sent(SessionInput::CommandStarted {
                    command_id: CommandId(5),
                    command_line: Some("ls".to_owned()),
                })
        })
    };

    let mut glued = pump(ShellMarkers::Full, None);
    glued.request(
        Request::Submit {
            command_id: CommandId(5),
            line: "ls".to_owned(),
        },
        engine_at(0),
    );
    let out = glued.read(vec![line(1, "als", LineRevision::Appended)], Vec::new(), engine_at(0));
    assert!(!started(&out));

    let mut apart = pump(ShellMarkers::Full, None);
    apart.request(
        Request::Submit {
            command_id: CommandId(5),
            line: "ls".to_owned(),
        },
        engine_at(0),
    );
    let out = apart.read(vec![line(1, "a ls", LineRevision::Appended)], Vec::new(), engine_at(0));
    assert!(started(&out));
}
