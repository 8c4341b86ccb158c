//! What a keystroke is on the wire: the measured table from a [`KeyPress`] plus the modes
//! the far end turned on to the bytes a terminal sends for it.
//!
//! Every row below was measured against `bash` under WSL, `pwsh` and `cmd.exe`. Function
//! keys are absent because they were not measured.

use vstd::prelude::*;

use crate::entities::{Key, KeyPress};
use crate::ports::TerminalModes;

verus! {

pub const ESC: u8 = 0x1b;

/// The UTF-8 encoding of `c`.
pub open spec fn utf8(c: char) -> Seq<u8> {
    let u = c as u32;
    if u < 0x80 {
        seq![u as u8]
    } else if u < 0x800 {
        seq![(0xc0 + u / 64) as u8, (0x80 + u % 64) as u8]
    } else if u < 0x10000 {
        seq![(0xe0 + u / 4096) as u8, (0x80 + (u / 64) % 64) as u8, (0x80 + u % 64) as u8]
    } else {
        seq![
            (0xf0 + u / 262144) as u8,
            (0x80 + (u / 4096) % 64) as u8,
            (0x80 + (u / 64) % 64) as u8,
            (0x80 + u % 64) as u8,
        ]
    }
}

pub open spec fn is_ascii_letter(c: char) -> bool {
    ('a' <= c && c <= 'z') || ('A' <= c && c <= 'Z')
}

/// The control byte for an ASCII letter: `Ctrl+A` is `0x01`, either case.
pub open spec fn control_byte(c: char) -> u8 {
    if 'a' <= c && c <= 'z' {
        (c as u32 - 0x60) as u8
    } else {
        (c as u32 - 0x40) as u8
    }
}

/// `ESC [ x` normally, `ESC O x` once the far end has turned on application cursor keys.
pub open spec fn cursor_spelling(final_byte: u8, modes: TerminalModes) -> Seq<u8> {
    seq![ESC, if modes.application_cursor_keys { 0x4fu8 } else { 0x5bu8 }, final_byte]
}

/// Ctrl held over anything but an ASCII letter falls through to the character itself.
pub open spec fn character_spelling(c: char, ctrl: bool) -> Seq<u8> {
    if ctrl && is_ascii_letter(c) {
        seq![control_byte(c)]
    } else {
        utf8(c)
    }
}

/// Everything but the `Alt` prefix.
pub open spec fn unmodified_spelling(press: KeyPress, modes: TerminalModes) -> Seq<u8> {
    match press.key {
        Key::Char(c) => character_spelling(c, press.ctrl),
        Key::Up => cursor_spelling(0x41, modes),
        Key::Down => cursor_spelling(0x42, modes),
        Key::Right => cursor_spelling(0x43, modes),
        Key::Left => cursor_spelling(0x44, modes),
        Key::Home => cursor_spelling(0x48, modes),
        Key::End => cursor_spelling(0x46, modes),
        Key::Tab => seq![0x09u8],
        Key::Enter => seq![0x0du8],
        Key::Backspace => seq![if press.ctrl { 0x08u8 } else { 0x7fu8 }],
        Key::Delete => seq![ESC, 0x5bu8, 0x33u8, 0x7eu8],
        Key::Escape => seq![ESC],
    }
}

/// The bytes a terminal sends for `press`: `Alt` puts an escape in front of whatever the
/// key was.
pub open spec fn wire(press: KeyPress, modes: TerminalModes) -> Seq<u8> {
    if press.alt {
        seq![ESC] + unmodified_spelling(press, modes)
    } else {
        unmodified_spelling(press, modes)
    }
}

/// # The table
///
/// - Backspace is `0x7f`; `0x08` is `Ctrl+Backspace`: `0x08` deletes the previous word in
///   PSReadLine and `cmd.exe`, while `0x7f` deletes one character on all three far ends.
/// - Home is `ESC[H`; End is `ESC[F`. `ESC[1~` and `ESC[4~` are also accepted by all three
///   far ends but are not sent.
/// - Delete is `ESC[3~` on all three, unaffected by the cursor-key mode.
/// - Arrows are `ESC[A/B/C/D`, switching to `ESC O A/B/C/D` (shared with Home and End)
///   once application cursor keys are on.
/// - `Ctrl` plus a letter is that letter's control byte (`Ctrl+C` is `0x03`, `Ctrl+D`
///   is `0x04`, `Ctrl+U` is `0x15`). What `Ctrl+U` does is the far end's business:
///   `readline` and PSReadLine clear the line, `cmd.exe` inserts a literal `^U`.
pub fn key_bytes(press: &KeyPress, modes: TerminalModes) -> (r: Vec<u8>)
    ensures
        r@ == wire(*press, modes),
{
    let mut bytes = unmodified(press, modes);
    if press.alt {
        bytes.insert(0, ESC);
        assert(bytes@ =~= seq![ESC] + unmodified_spelling(*press, modes));
    }
    bytes
}

/// Everything but the `Alt` prefix.
fn unmodified(press: &KeyPress, modes: TerminalModes) -> (r: Vec<u8>)
    ensures
        r@ == unmodified_spelling(*press, modes),
{
    match press.key {
        Key::Char(character) => character_bytes(character, press.ctrl),
        // `Shift` is not consulted: the shifted spellings are an unmeasured modifyOtherKeys
        // form.
        Key::Up => cursor_key(0x41, modes),
        Key::Down => cursor_key(0x42, modes),
        Key::Right => cursor_key(0x43, modes),
        Key::Left => cursor_key(0x44, modes),
        Key::Home => cursor_key(0x48, modes),
        Key::End => cursor_key(0x46, modes),
        Key::Tab => vec![0x09],
        // Carriage return, never line feed: a shell on a pseudoconsole waits for the `\r`
        // that never came and the line looks silently accepted.
        Key::Enter => vec![0x0d],
        Key::Backspace => vec![if press.ctrl { 0x08 } else { 0x7f }],
        Key::Delete => vec![ESC, 0x5b, 0x33, 0x7e],
        Key::Escape => vec![ESC],
    }
}

/// `ESC [ x` normally, `ESC O x` once the far end has turned on application cursor keys.
fn cursor_key(final_byte: u8, modes: TerminalModes) -> (r: Vec<u8>)
    ensures
        r@ == cursor_spelling(final_byte, modes),
{
    let introducer = if modes.application_cursor_keys { 0x4f } else { 0x5b };
    vec![ESC, introducer, final_byte]
}

/// Ctrl held over anything but an ASCII letter falls through to the character itself; the
/// control bytes for punctuation (`Ctrl+@`, `Ctrl+[`, ...) are not implemented because they
/// have not been measured.
fn character_bytes(character: char, ctrl: bool) -> (r: Vec<u8>)
    ensures
        r@ == character_spelling(character, ctrl),
{
    if ctrl && ('a' <= character && character <= 'z') {
        return vec![(character as u32 - 0x60) as u8];
    }
    if ctrl && ('A' <= character && character <= 'Z') {
        return vec![(character as u32 - 0x40) as u8];
    }
    encode_utf8(character)
}

fn encode_utf8(c: char) -> (r: Vec<u8>)
    ensures
        r@ == utf8(c),
{
    let u = c as u32;
    if u < 0x80 {
        vec![u as u8]
    } else if u < 0x800 {
        vec![(0xc0 + u / 64) as u8, (0x80 + u % 64) as u8]
    } else if u < 0x10000 {
        vec![(0xe0 + u / 4096) as u8, (0x80 + (u / 64) % 64) as u8, (0x80 + u % 64) as u8]
    } else {
        vec![
            (0xf0 + u / 262144) as u8,
            (0x80 + (u / 4096) % 64) as u8,
            (0x80 + (u / 64) % 64) as u8,
            (0x80 + u % 64) as u8,
        ]
    }
}

/// `Alt` adds one escape in front of whatever the key is without it, and the cursor-key
/// mode changes the spelling of the six cursor keys alone.
pub proof fn lemma_modes_touch_only_the_cursor_keys(press: KeyPress, modes: TerminalModes, other: TerminalModes)
    ensures
        wire(press, modes).len() >= 1,
        press.alt ==> wire(press, modes) == seq![ESC] + wire(KeyPress { alt: false, ..press }, modes),
        !(press.key is Up || press.key is Down || press.key is Left || press.key is Right
            || press.key is Home || press.key is End) ==> wire(press, modes) == wire(press, other),
{
}


/// A character typed without Ctrl or Alt goes out as its own UTF-8 encoding, so the far end
/// decodes exactly that character back, whatever the modes and Shift.
pub proof fn lemma_a_character_is_sent_as_its_utf8(c: char, shift: bool, modes: TerminalModes)
    ensures
        wire(KeyPress { key: Key::Char(c), ctrl: false, shift, alt: false }, modes) == vstd::utf8::encode_utf8(seq![c]),
{
    let u = c as u32;
    assert(seq![c].drop_first() =~= Seq::<char>::empty());
    assert(vstd::utf8::encode_utf8(seq![c]) == vstd::utf8::encode_scalar(u) + vstd::utf8::encode_utf8(Seq::<char>::empty()));
    assert(vstd::utf8::encode_scalar(u) + Seq::<u8>::empty() =~= vstd::utf8::encode_scalar(u));
    if u < 0x80 {
        assert((u as u8) == ((u & 0x7F) as u8)) by (bit_vector)
            requires
                u < 0x80,
        ;
        assert(utf8(c) =~= vstd::utf8::encode_scalar(u));
    } else if u < 0x800 {
        assert(((0xc0 + u / 64) as u8) == (0xC0 | ((u >> 6) & 0x1F) as u8)) by (bit_vector)
            requires
                0x80 <= u < 0x800,
        ;
        assert(((0x80 + u % 64) as u8) == (0x80 | (u & 0x3F) as u8)) by (bit_vector);
        assert(utf8(c) =~= vstd::utf8::encode_scalar(u));
    } else if u < 0x10000 {
        assert(((0xe0 + u / 4096) as u8) == (0xE0 | ((u >> 12) & 0x0F) as u8)) by (bit_vector)
            requires
                0x800 <= u < 0x10000,
        ;
        assert(((0x80 + (u / 64) % 64) as u8) == (0x80 | ((u >> 6) & 0x3F) as u8)) by (bit_vector);
        assert(((0x80 + u % 64) as u8) == (0x80 | (u & 0x3F) as u8)) by (bit_vector);
        assert(utf8(c) =~= vstd::utf8::encode_scalar(u));
    } else {
        assert(((0xf0 + u / 262144) as u8) == (0xF0 | ((u >> 18) & 0x7) as u8)) by (bit_vector)
            requires
                0x10000 <= u <= 0x10FFFF,
        ;
        assert(((0x80 + (u / 4096) % 64) as u8) == (0x80 | ((u >> 12) & 0x3F) as u8)) by (bit_vector);
        assert(((0x80 + (u / 64) % 64) as u8) == (0x80 | ((u >> 6) & 0x3F) as u8)) by (bit_vector);
        assert(((0x80 + u % 64) as u8) == (0x80 | (u & 0x3F) as u8)) by (bit_vector);
        assert(utf8(c) =~= vstd::utf8::encode_scalar(u));
    }
}


/// Ctrl with an ASCII letter sends that letter's control byte, the same for either case:
/// the letter's code with all but its low five bits cleared.
pub proof fn lemma_ctrl_letter_is_its_control_byte(c: char, shift: bool, modes: TerminalModes)
    requires
        ('a' <= c && c <= 'z') || ('A' <= c && c <= 'Z'),
    ensures
        wire(KeyPress { key: Key::Char(c), ctrl: true, shift, alt: false }, modes) == seq![((c as u32) & 0x1F) as u8],
{
    let u = c as u32;
    if 'a' <= c && c <= 'z' {
        assert(((u - 0x60) as u8) == ((u & 0x1F) as u8)) by (bit_vector)
            requires
                0x61 <= u <= 0x7a,
        ;
    } else {
        assert(((u - 0x40) as u8) == ((u & 0x1F) as u8)) by (bit_vector)
            requires
                0x41 <= u <= 0x5a,
        ;
    }
}

} // verus!
