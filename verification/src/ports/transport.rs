//! Why the byte transport carrying one session's I/O could not do what it was asked.

use vstd::prelude::*;

use crate::text::concat;

verus! {

/// Each message is a whole spoken sentence.
#[derive(Debug, PartialEq, Eq)]
pub enum TransportError {
    NotStarted,
    Closed,
    Failed { detail: String },
}

pub const NOT_STARTED: &'static str = "The session has not started yet, so there is nothing to send to.";

pub const CLOSED: &'static str = "The session has ended, so the text could not be sent.";

pub const FAILED: &'static str = "The text could not be sent to the session. ";

pub open spec fn transport_said(error: TransportError) -> Seq<char> {
    match error {
        TransportError::NotStarted => NOT_STARTED@,
        TransportError::Closed => CLOSED@,
        TransportError::Failed { detail } => FAILED@ + detail@,
    }
}

impl TransportError {
    pub fn to_string(&self) -> (r: String)
        ensures
            r@ == transport_said(*self),
    {
        match self {
            TransportError::NotStarted => NOT_STARTED.to_owned(),
            TransportError::Closed => CLOSED.to_owned(),
            TransportError::Failed { detail } => concat(FAILED, detail.as_str()),
        }
    }
}

} // verus!
