//! Every trait seam in the system, grouped by direction, and the fakes a test or a build
//! with nobody to ask uses in their place.

mod connect_questions;
mod driving;
mod installed_shells;
mod session_factory;
mod shell_adapter;
mod signatures;
mod sinks;
mod this_computer;
mod transport;
mod connection_store;
mod explained;
mod host_key_store;
mod ssh_questions;
mod terminal_engine;

pub use ssh_questions::{
    HostKeyAnswer, HostKeyQuestion, HostKeyState, PasswordQuestion, Secret, SshQuestions, Unasked,
    secret_text,
};
pub use terminal_engine::{Cursor, TerminalEngine, TerminalModes};
pub use connect_questions::{
    ConnectQuestions, DETECTED, GAINS_ENDINGS, GAINS_FAILURES, IF_YOU_SKIP, OFFERED,
    ProgramAnswer, ProgramQuestion, SetupAnswer, SetupQuestion, detected_text, offer_text,
};
pub use connection_store::{
    ConnectionStore, RememberedConnections, StoredConnections, first_named, first_named_in, lemma_a_new_name_is_added_last, lemma_first_named_names,
    lemma_forgetting_leaves_no_row_of_that_name, lemma_saving_over_a_name_replaces_it, forget_in, forgotten,
    position_named, rename_in, renamed, save_into, saved_over,
};
pub use explained::{Explained, NeverExplained};
pub use host_key_store::{A_FIXED_DAY, HostKeyStore, RememberedHostKeys, record};
pub use driving::{ConnectApi, SessionApi};
pub use installed_shells::InstalledShells;
pub use session_factory::{Chosen, SessionFactory, Started};
pub use shell_adapter::{ShellAdapter, ShellFacts, ShellLaunch};
pub use signatures::{CANNOT_CHECK, Signatures, Unchecked};
pub use sinks::{ConnectSink, EventSink};
pub use this_computer::{
    LoginShell, NoDistributions, ThisComputer, WSL_EMPTY, WSL_NOT_INSTALLED, WSL_NOT_WORKING,
    no_distributions_said,
};
pub use transport::{CLOSED, FAILED, NOT_STARTED, TransportError, transport_said};
