//! Where what happens goes: the steps of a connection while it is being made, and a
//! session's events toward the frontend.

use vstd::prelude::*;

use crate::entities::{ConnectStep, SessionEvent};

verus! {

pub trait ConnectSink: Send + Sync {
    fn send(&self, step: ConnectStep);
}

pub trait EventSink: Send + Sync {
    fn send(&self, event: SessionEvent);
}

} // verus!
