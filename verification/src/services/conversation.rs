//! One attempt to connect, as a question asked and an answer waited for.

use std::sync::Arc;
use std::sync::mpsc::{Receiver, Sender};

use vstd::prelude::*;
use vstd::rwlock::RwLock;

use crate::entities::{
    AttemptId, ConnectAnswer, ConnectQuestion, ConnectStep, Connected, opt_view, verdict_said,
    verdict_signer,
};
use crate::ports::{
    ConnectQuestions, ConnectSink, HostKeyAnswer, HostKeyQuestion, HostKeyState, IF_YOU_SKIP,
    PasswordQuestion, ProgramAnswer, ProgramQuestion, Secret, SetupAnswer, SetupQuestion,
    SshQuestions, detected_text, offer_text,
};
use crate::text::copied;

verus! {

#[verifier::external_type_specification]
#[verifier::external_body]
#[verifier::reject_recursive_types(T)]
pub struct ExSender<T>(Sender<T>);

#[verifier::external_type_specification]
#[verifier::external_body]
#[verifier::reject_recursive_types(T)]
pub struct ExReceiver<T>(Receiver<T>);

/// `std::sync::mpsc::channel`: a new channel's two ends. Nothing is stated of them beyond
/// their types.
#[verifier::external_body]
fn answer_channel() -> (r: (Sender<ConnectAnswer>, Receiver<ConnectAnswer>)) {
    std::sync::mpsc::channel()
}

/// `Sender::send`, with its result dropped: an `Err` means the other end stopped waiting,
/// and there is nothing to report.
#[verifier::external_body]
fn deliver(sender: Sender<ConnectAnswer>, answer: ConnectAnswer) {
    let _ = sender.send(answer);
}

/// `Receiver::recv`: blocks until an answer arrives, and `None` once every sender is gone.
/// What arrives is somebody's answer, so nothing is stated of it.
#[verifier::external_body]
fn await_answer(receiver: &Receiver<ConnectAnswer>) -> (r: Option<ConnectAnswer>) {
    receiver.recv().ok()
}

/// The host-key question as the window asks it.
pub fn host_key_asked(question: HostKeyQuestion) -> (r: ConnectQuestion)
    ensures
        r matches ConnectQuestion::HostKey { host, port, fingerprint, recorded, aside } && host
            == question.host && port == question.port && fingerprint == question.fingerprint
            && aside == question.aside && recorded == match question.state {
            HostKeyState::Unknown => None,
            HostKeyState::Changed { recorded } => Some(recorded),
        },
{
    let HostKeyQuestion { host, port, fingerprint, state, aside } = question;
    ConnectQuestion::HostKey {
        host,
        port,
        fingerprint,
        recorded: match state {
            HostKeyState::Unknown => None,
            HostKeyState::Changed { recorded } => Some(recorded),
        },
        aside,
    }
}

/// Only trusting it accepts a server's key.
pub fn host_key_answered(answer: ConnectAnswer) -> (r: HostKeyAnswer)
    ensures
        r == if answer is Trust {
            HostKeyAnswer::Accept
        } else {
            HostKeyAnswer::Refuse
        },
{
    match answer {
        ConnectAnswer::Trust => HostKeyAnswer::Accept,
        _ => HostKeyAnswer::Refuse,
    }
}

pub fn password_asked(question: PasswordQuestion) -> (r: ConnectQuestion)
    ensures
        r == (ConnectQuestion::Password {
            host: question.host,
            user: question.user,
            again: question.again,
        }),
{
    let PasswordQuestion { host, user, again } = question;
    ConnectQuestion::Password { host, user, again }
}

/// Only a password answers a password question.
pub fn password_answered(answer: ConnectAnswer) -> (r: Option<Secret>)
    ensures
        match answer {
            ConnectAnswer::Password { secret } => r == Some(secret),
            _ => r is None,
        },
{
    match answer {
        ConnectAnswer::Password { secret } => Some(secret),
        _ => None,
    }
}

/// A file that did not verify, asked about in the verdict's own words.
pub fn unverified_asked(question: ProgramQuestion) -> (r: ConnectQuestion)
    ensures
        r matches ConnectQuestion::Unverified { label, program, said, signer } && label
            == question.label && program == question.program && said@ == verdict_said(
            question.verdict,
        ) && opt_view(signer) == verdict_signer(question.verdict),
{
    let ProgramQuestion { label, program, verdict } = question;
    ConnectQuestion::Unverified { label, program, said: verdict.said(), signer: verdict.signer() }
}

/// Nothing but saying so starts a file that did not verify.
pub fn program_answered(answer: ConnectAnswer) -> (r: ProgramAnswer)
    ensures
        r == if answer is StartAnyway {
            ProgramAnswer::Start
        } else {
            ProgramAnswer::DoNotStart
        },
{
    match answer {
        ConnectAnswer::StartAnyway => ProgramAnswer::Start,
        _ => ProgramAnswer::DoNotStart,
    }
}

pub fn setup_asked(question: SetupQuestion) -> (r: ConnectQuestion)
    ensures
        r matches ConnectQuestion::SetUpSession { shell, detected, offer, command, refusal } && shell
            == question.shell && detected@ == detected_text(question.shell@) && offer@ == offer_text(
            question.setup,
        ) && command@ == question.setup.line@ && refusal@ == IF_YOU_SKIP@,
{
    let detected = question.detected();
    let offer = question.offer();
    let command = copied(question.command());
    ConnectQuestion::SetUpSession {
        detected,
        offer,
        command,
        refusal: copied(IF_YOU_SKIP),
        shell: question.shell,
    }
}

/// Only setting it up sets a session up.
pub fn setup_answered(answer: ConnectAnswer) -> (r: SetupAnswer)
    ensures
        match answer {
            ConnectAnswer::SetUpSession { remember } => r == SetupAnswer::SetUp { remember },
            _ => r == SetupAnswer::Skip,
        },
{
    match answer {
        ConnectAnswer::SetUpSession { remember } => SetupAnswer::SetUp { remember },
        _ => SetupAnswer::Skip,
    }
}

/// How an attempt ends: arrived, or failed with its sentence.
pub fn finished_step(outcome: Result<Connected, String>) -> (r: ConnectStep)
    ensures
        match outcome {
            Ok(connected) => r == ConnectStep::Arrived { connected },
            Err(why) => r == ConnectStep::Failed { why },
        },
{
    match outcome {
        Ok(connected) => ConnectStep::Arrived { connected },
        Err(why) => ConnectStep::Failed { why },
    }
}

/// Its question methods block until `answer` is called, so they must never run on the
/// thread that delivers answers.
pub struct Conversation<K: ConnectSink + ?Sized = dyn ConnectSink> {
    attempt: AttemptId,
    steps: Arc<K>,
    /// `None` when nothing is being asked.
    waiting: RwLock<Option<Sender<ConnectAnswer>>, spec_fn(Option<Sender<ConnectAnswer>>) -> bool>,
}

impl<K: ConnectSink + ?Sized> Conversation<K> {
    #[verifier::type_invariant]
    spec fn anything_may_wait(self) -> bool {
        forall|waiting: Option<Sender<ConnectAnswer>>| #[trigger] self.waiting.inv(waiting)
    }

    pub closed spec fn attempt_id(self) -> AttemptId {
        self.attempt
    }

    pub fn new(attempt: AttemptId, steps: Arc<K>) -> (r: Self)
        ensures
            r.attempt_id() == attempt,
    {
        Conversation {
            attempt,
            steps,
            waiting: RwLock::new(None, Ghost(|waiting: Option<Sender<ConnectAnswer>>| true)),
        }
    }

    pub fn attempt(&self) -> (r: AttemptId)
        ensures
            r == self.attempt_id(),
    {
        self.attempt
    }

    pub fn finished(&self, outcome: Result<Connected, String>) {
        self.steps.send(finished_step(outcome));
    }

    /// Delivers the answer to the question being asked; with none waiting it changes
    /// nothing.
    pub fn answer(&self, answer: ConnectAnswer) {
        proof {
            use_type_invariant(self);
        }
        let (mut waiting, handle) = self.waiting.acquire_write();
        let sender = waiting.take();
        handle.release_write(waiting);
        match sender {
            Some(sender) => deliver(sender, answer),
            None => {},
        }
    }

    /// Asks, and waits; a question nobody is left to answer is given up.
    fn ask(&self, question: ConnectQuestion) -> (r: ConnectAnswer) {
        proof {
            use_type_invariant(self);
        }
        let (sender, receiver) = answer_channel();
        let (_, handle) = self.waiting.acquire_write();
        handle.release_write(Some(sender));
        self.steps.send(ConnectStep::Asked { attempt: self.attempt, question });
        match await_answer(&receiver) {
            Some(answer) => answer,
            None => ConnectAnswer::GiveUp,
        }
    }
}

impl<K: ConnectSink + ?Sized> SshQuestions for Conversation<K> {
    fn host_key(&self, question: HostKeyQuestion) -> (r: HostKeyAnswer) {
        host_key_answered(self.ask(host_key_asked(question)))
    }

    fn password(&self, question: PasswordQuestion) -> (r: Option<Secret>) {
        password_answered(self.ask(password_asked(question)))
    }

    fn tell(&self, sentence: &str) {
        self.steps.send(ConnectStep::Progress { said: copied(sentence) });
    }
}

impl<K: ConnectSink + ?Sized> ConnectQuestions for Conversation<K> {
    fn unverified(&self, question: ProgramQuestion) -> (r: ProgramAnswer) {
        program_answered(self.ask(unverified_asked(question)))
    }

    fn set_up_session(&self, question: SetupQuestion) -> (r: SetupAnswer) {
        setup_answered(self.ask(setup_asked(question)))
    }
}

} // verus!
