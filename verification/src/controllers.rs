//! The state machines that turn what happens in a session into what the window is told.

mod session_actor;

pub use session_actor::{
    Requests, SessionActor, SessionInput, Wake, announced, aside_of, only_renders, renders_then_announced, pacing_can_flush, wake_for, wake_from,
};
