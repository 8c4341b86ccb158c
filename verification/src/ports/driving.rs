//! What the frontend may ask: of connecting, and of a session.

use std::sync::Arc;

use vstd::prelude::*;

use crate::entities::{
    Connectable, Connected, KeyAck, KeyPress, LaunchRequest, LineOwner, ProfileId,
    SavedConnections, SessionId, SetUp, SubmitAck,
};
use crate::ports::{ConnectQuestions, EventSink};

verus! {

/// What may be asked about connecting: what this machine offers, which far end is behind
/// the window now, and starting one in place of another.
pub trait ConnectApi: Send + Sync {
    fn connectable(&self) -> Vec<Connectable>;

    fn use_profile(
        &self,
        id: &ProfileId,
        set_up: SetUp,
        origin: Option<&str>,
        questions: &Arc<dyn ConnectQuestions>,
    ) -> Result<Connected, String>;

    fn connected(&self) -> Option<Connected>;

    fn saved(&self) -> SavedConnections;

    fn save_connection(&self, name: &str) -> Result<String, String>;

    fn rename_connection(&self, from: &str, to: &str) -> Result<String, String>;

    fn forget_connection(&self, name: &str) -> Result<String, String>;

    fn offer_to_save(&self) -> bool;

    fn stop_offering_to_save(&self) -> Result<(), String>;

    fn requested_at_launch(&self) -> Option<LaunchRequest>;
}

/// What the frontend may ask of a session.
pub trait SessionApi: Send + Sync {
    /// The sink is lent: a session that keeps it keeps a clone.
    fn attach_session(&self, session: SessionId, sink: &Arc<dyn EventSink>);

    fn submit_command(&self, session: SessionId, line: &str) -> SubmitAck;

    fn send_key(&self, session: SessionId, key: KeyPress) -> KeyAck;

    fn set_line_owner(&self, session: SessionId, owner: LineOwner);

    fn paste(&self, session: SessionId, text: &str);
}

} // verus!
