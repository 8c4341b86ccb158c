//! Tests for policies key_bytes.

use acter_core::entities::{Key, KeyPress};
use acter_core::policies::{key_bytes};
use acter_core::ports::{TerminalModes};

fn press(key: Key) -> KeyPress {
    KeyPress {
        key,
        ctrl: false,
        shift: false,
        alt: false,
    }
}

fn plain() -> TerminalModes {
    TerminalModes {
        application_cursor_keys: false,
        bracketed_paste: false,
    }
}

fn application() -> TerminalModes {
    TerminalModes {
        application_cursor_keys: true,
        bracketed_paste: false,
    }
}

#[test]
fn backspace_is_delete_and_never_the_word_eating_byte() {
    assert_eq!(
        key_bytes(&press(Key::Backspace), plain()),
        vec![0x7f],
        "0x08 deletes the previous word in PSReadLine and cmd.exe"
    );
    assert_eq!(
        key_bytes(&press(Key::Backspace), application()),
        vec![0x7f],
        "and the cursor-key mode has nothing to do with it"
    );
}

#[test]
fn ctrl_backspace_is_the_byte_that_eats_a_word() {
    let press = KeyPress {
        key: Key::Backspace,
        ctrl: true,
        shift: false,
        alt: false,
    };
    assert_eq!(key_bytes(&press, plain()), vec![0x08]);
}

#[test]
fn every_named_key_is_its_measured_spelling() {
    let rows: [(Key, &[u8]); 11] = [
        (Key::Up, b"\x1b[A"),
        (Key::Down, b"\x1b[B"),
        (Key::Right, b"\x1b[C"),
        (Key::Left, b"\x1b[D"),
        (Key::Home, b"\x1b[H"),
        (Key::End, b"\x1b[F"),
        (Key::Delete, b"\x1b[3~"),
        (Key::Tab, b"\t"),
        (Key::Enter, b"\r"),
        (Key::Backspace, b"\x7f"),
        (Key::Escape, b"\x1b"),
    ];
    for (key, expected) in rows {
        assert_eq!(key_bytes(&press(key), plain()), expected, "for {key:?}");
    }
}

#[test]
fn application_cursor_keys_respell_the_six_and_nothing_else() {
    let rows: [(Key, &[u8]); 11] = [
        (Key::Up, b"\x1bOA"),
        (Key::Down, b"\x1bOB"),
        (Key::Right, b"\x1bOC"),
        (Key::Left, b"\x1bOD"),
        (Key::Home, b"\x1bOH"),
        (Key::End, b"\x1bOF"),
        (Key::Delete, b"\x1b[3~"),
        (Key::Tab, b"\t"),
        (Key::Enter, b"\r"),
        (Key::Backspace, b"\x7f"),
        (Key::Escape, b"\x1b"),
    ];
    for (key, expected) in rows {
        assert_eq!(
            key_bytes(&press(key), application()),
            expected,
            "for {key:?}"
        );
    }
}

#[test]
fn ctrl_and_a_letter_is_that_letters_control_byte() {
    for (letter, expected) in [('c', 0x03), ('d', 0x04), ('u', 0x15), ('a', 0x01)] {
        let press = KeyPress {
            key: Key::Char(letter),
            ctrl: true,
            shift: false,
            alt: false,
        };
        assert_eq!(key_bytes(&press, plain()), vec![expected], "for {letter}");
    }
}

#[test]
fn a_capital_letter_is_the_same_control_byte() {
    let upper = KeyPress {
        key: Key::Char('C'),
        ctrl: true,
        shift: true,
        alt: false,
    };
    assert_eq!(key_bytes(&upper, plain()), vec![0x03]);
}

#[test]
fn a_character_is_its_own_bytes() {
    assert_eq!(key_bytes(&press(Key::Char('a')), plain()), b"a");
    assert_eq!(key_bytes(&press(Key::Char('ç')), plain()), "ç".as_bytes());
    assert_eq!(key_bytes(&press(Key::Char(' ')), plain()), b" ");
}

#[test]
fn ctrl_over_a_non_letter_sends_the_character() {
    let press = KeyPress {
        key: Key::Char('1'),
        ctrl: true,
        shift: false,
        alt: false,
    };
    assert_eq!(key_bytes(&press, plain()), b"1");
}

#[test]
fn alt_prefixes_escape_onto_whatever_the_key_was() {
    let rows: [(KeyPress, &[u8]); 3] = [
        (
            KeyPress {
                key: Key::Char('b'),
                ctrl: false,
                shift: false,
                alt: true,
            },
            b"\x1bb",
        ),
        (
            KeyPress {
                key: Key::Left,
                ctrl: false,
                shift: false,
                alt: true,
            },
            b"\x1b\x1b[D",
        ),
        (
            KeyPress {
                key: Key::Char('d'),
                ctrl: true,
                shift: false,
                alt: true,
            },
            b"\x1b\x04",
        ),
    ];
    for (press, expected) in rows {
        assert_eq!(key_bytes(&press, plain()), expected, "for {press:?}");
    }
}

#[test]
fn the_same_keystroke_is_always_the_same_bytes() {
    let press = press(Key::Up);
    assert_eq!(key_bytes(&press, plain()), key_bytes(&press, plain()));
}
