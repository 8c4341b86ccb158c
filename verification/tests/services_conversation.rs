//! Tests for the conversation one attempt to connect holds with the person.

use std::sync::mpsc::{Receiver, Sender, channel};
use std::sync::{Arc, Mutex};
use std::time::Duration;

use acter_core::entities::{
    AttemptId, ConnectAnswer, ConnectStep, Connected, LineOwner, SessionId,
};
use acter_core::ports::{ConnectSink, SshQuestions};
use acter_core::services::Conversation;

const PATIENCE: Duration = Duration::from_secs(5);

struct Watcher(Mutex<Sender<ConnectStep>>);

impl Watcher {
    fn new() -> (Arc<Self>, Receiver<ConnectStep>) {
        let (sender, receiver) = channel();
        (Arc::new(Self(Mutex::new(sender))), receiver)
    }
}

impl ConnectSink for Watcher {
    fn send(&self, step: ConnectStep) {
        let _ = self.0.lock().unwrap().send(step);
    }
}

#[test]
fn an_answer_with_no_question_waiting_changes_nothing() {
    let (watcher, steps) = Watcher::new();
    let conversation = Conversation::new(AttemptId(1), watcher);

    conversation.answer(ConnectAnswer::Trust);

    assert!(
        steps.try_recv().is_err(),
        "nothing was asked, so nothing happened"
    );
}

#[test]
fn what_is_happening_is_said_while_it_happens() {
    let (watcher, steps) = Watcher::new();
    let conversation = Conversation::new(AttemptId(1), watcher);

    conversation.tell("Connecting to acter-ssh.");

    assert_eq!(
        steps.recv_timeout(PATIENCE).expect("it is said"),
        ConnectStep::Progress {
            said: "Connecting to acter-ssh.".to_owned()
        }
    );
}

#[test]
fn an_attempt_ends_as_one_of_two_steps() {
    let (watcher, steps) = Watcher::new();
    let conversation = Conversation::new(AttemptId(1), watcher);

    conversation.finished(Ok(Connected {
        session: SessionId(3),
        label: "SSH: acter at acter-ssh".to_owned(),
        note: None,
        limit_explained: false,
        saved_as: None,
        line_owner: LineOwner::FarEnd,
    }));
    conversation.finished(Err("Acter could not reach acter-ssh.".to_owned()));

    assert!(matches!(
        steps.recv_timeout(PATIENCE).unwrap(),
        ConnectStep::Arrived { .. }
    ));
    assert!(matches!(
        steps.recv_timeout(PATIENCE).unwrap(),
        ConnectStep::Failed { .. }
    ));
}
