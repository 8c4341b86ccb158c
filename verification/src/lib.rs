//! The domain of an accessible terminal: what a far end is, what it said, what of
//! that is spoken, and how a window connects to one.

pub mod controllers;
pub mod entities;
pub mod policies;
pub mod ports;
pub mod services;
pub mod text;

pub use entities::{
    CommandId, ConnectionState, ExitCode, Integration, LineId, LineRevision, MenuAction, Mode,
    Osc133Marker, ReadMode, Screen, SessionId, SessionIntent, SessionState, ShellMarkers,
    TerminalItem,
};
