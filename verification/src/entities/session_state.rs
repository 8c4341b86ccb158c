//! Session-scoped state: rendering mode, shell-integration status, and which screen is on
//! display.

use vstd::prelude::*;

use crate::entities::Mode;

verus! {

/// Whether OSC 133 markers have been observed for this session.
#[derive(Debug, Clone, Copy, PartialEq, Eq, Structural)]
pub enum Integration {
    /// Within the startup grace period, no marker seen yet.
    Pending,
    Integrated,
    /// Commands fall back to the patience timer until a marker arrives.
    Unintegrated,
}

impl Integration {
    pub fn markers_observed(self) -> (r: Self)
        ensures
            r == Integration::Integrated,
    {
        match self {
            Integration::Pending | Integration::Unintegrated => Integration::Integrated,
            Integration::Integrated => self,
        }
    }

    pub fn grace_period_expired(self) -> (r: Self)
        ensures
            r == (if self == Integration::Pending { Integration::Unintegrated } else { self }),
    {
        match self {
            Integration::Pending => Integration::Unintegrated,
            Integration::Integrated | Integration::Unintegrated => self,
        }
    }
}

#[derive(Debug, Clone, Copy, PartialEq, Eq, Structural)]
pub enum Screen {
    Normal,
    Alternate,
}

#[derive(Debug, Clone, Copy, PartialEq, Eq, Structural)]
pub struct SessionState {
    pub mode: Mode,
    pub integration: Integration,
    pub screen: Screen,
}

impl SessionState {
    pub fn new(mode: Mode) -> (r: Self)
        ensures
            r == (SessionState { mode, integration: Integration::Pending, screen: Screen::Normal }),
    {
        SessionState { mode, integration: Integration::Pending, screen: Screen::Normal }
    }

    pub fn markers_observed(self) -> (r: Self)
        ensures
            r == (SessionState { integration: Integration::Integrated, ..self }),
    {
        SessionState { integration: self.integration.markers_observed(), ..self }
    }

    pub fn grace_period_expired(self) -> (r: Self)
        ensures
            r.mode == self.mode,
            r.screen == self.screen,
            r.integration == (if self.integration == Integration::Pending {
                Integration::Unintegrated
            } else {
                self.integration
            }),
    {
        SessionState { integration: self.integration.grace_period_expired(), ..self }
    }

    pub fn mode_toggled(self) -> (r: Self)
        ensures
            r.integration == self.integration,
            r.screen == self.screen,
            r.mode == (if self.mode == Mode::NonInteractive {
                Mode::Interactive
            } else {
                Mode::NonInteractive
            }),
    {
        let mode = match self.mode {
            Mode::NonInteractive => Mode::Interactive,
            Mode::Interactive => Mode::NonInteractive,
        };
        SessionState { mode, ..self }
    }

    pub fn alt_screen_entered(self) -> (r: Self)
        ensures
            r == (SessionState { screen: Screen::Alternate, ..self }),
    {
        SessionState { screen: Screen::Alternate, ..self }
    }

    pub fn alt_screen_left(self) -> (r: Self)
        ensures
            r == (SessionState { screen: Screen::Normal, ..self }),
    {
        SessionState { screen: Screen::Normal, ..self }
    }
}

/// Integration only ever moves into `Integrated`: once markers were seen, neither a late
/// grace period nor more markers moves it again.
pub proof fn lemma_integrated_is_final(state: SessionState)
    requires
        state.integration == Integration::Integrated,
    ensures
        (SessionState { integration: Integration::Integrated, ..state }) == state,
        state.integration == (if state.integration == Integration::Pending {
            Integration::Unintegrated
        } else {
            state.integration
        }),
{
}

/// Toggling the mode twice gives the state back.
pub proof fn lemma_mode_toggle_involution(mode: Mode)
    ensures
        (if (if mode == Mode::NonInteractive {
            Mode::Interactive
        } else {
            Mode::NonInteractive
        }) == Mode::NonInteractive {
            Mode::Interactive
        } else {
            Mode::NonInteractive
        }) == mode,
{
}

} // verus!
