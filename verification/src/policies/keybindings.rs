//! The keybinding table: a pure function from a keystroke and who owns the line to what it
//! means to the session, and nothing else.

use vstd::prelude::*;

use crate::entities::{Key, KeyPress, LineOwner};
use crate::SessionIntent;

verus! {

/// What becomes of one keystroke.
#[derive(Debug, Clone, Copy, PartialEq, Eq, Structural)]
pub enum Binding {
    /// Acter acts on it, and this is what it means.
    Intent(SessionIntent),
    /// The far end gets it, as the bytes a terminal sends for that key.
    ToFarEnd,
    /// Nothing is bound to it. Nothing was attempted.
    Unbound,
}

/// Whether `press` is `ch` with Ctrl held and neither Shift nor Alt.
pub open spec fn is_ctrl(press: KeyPress, ch: char) -> bool {
    press.key == Key::Char(ch) && press.ctrl && !press.shift && !press.alt
}

pub open spec fn bound(press: KeyPress, owner: LineOwner) -> Binding {
    if owner == LineOwner::FarEnd {
        Binding::ToFarEnd
    } else if is_ctrl(press, 'c') {
        Binding::Intent(SessionIntent::Interrupt)
    } else if is_ctrl(press, 'd') {
        Binding::Intent(SessionIntent::Eof)
    } else {
        Binding::Unbound
    }
}

/// What this keystroke means to the session, if anything.
///
/// Ctrl+C with an active selection is consumed by the edit field as a copy and never
/// reaches here; only the without-selection case does.
pub fn binding_for(press: &KeyPress, owner: LineOwner) -> (r: Binding)
    ensures
        r == bound(*press, owner),
{
    if owner == LineOwner::FarEnd {
        return Binding::ToFarEnd;
    }
    match press.key {
        Key::Char(ch) => {
            if press.ctrl && !press.shift && !press.alt {
                if ch == 'c' {
                    Binding::Intent(SessionIntent::Interrupt)
                } else if ch == 'd' {
                    Binding::Intent(SessionIntent::Eof)
                } else {
                    Binding::Unbound
                }
            } else {
                Binding::Unbound
            }
        },
        _ => Binding::Unbound,
    }
}

/// While the far end owns the line, every keystroke is the far end's, the two Acter binds
/// included; while Acter owns it, only Ctrl+C and Ctrl+D mean anything.
pub proof fn lemma_only_two_keystrokes_are_bound(press: KeyPress, owner: LineOwner)
    ensures
        owner == LineOwner::FarEnd ==> bound(press, owner) == Binding::ToFarEnd,
        owner == LineOwner::Local && bound(press, owner) != Binding::Unbound ==> (is_ctrl(
            press,
            'c',
        ) || is_ctrl(press, 'd')),
{
}

} // verus!
