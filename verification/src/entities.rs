//! The domain's data types and their invariants, one concept per file.

mod accepted_host_key;
mod connection_kind;
mod menu_action;
mod osc133;
mod protocol_common;
mod pacing_state;
mod protocol_commands;
mod protocol_connect;
mod protocol_events;
mod read_mode;
mod saved_connection;
mod session_setup;
mod session_intent;
mod signature_verdict;
mod session_state;
mod shell_install;
mod shell_markers;
mod stored_settings;
mod style_run;
mod terminal_item;
mod unspoken_text;

pub use accepted_host_key::{AcceptedHostKey, HostKeyOrigin};
pub use connection_kind::{
    ConnectionKind, kind_editions, kind_instructions, kind_label, kind_program,
    lemma_editions_name_their_programs, lemma_labels_are_distinct,
};
pub use menu_action::MenuAction;
pub use osc133::Osc133Marker;
pub use protocol_common::{CommandId, ConnectionState, ExitCode, Mode, SessionId};
pub use pacing_state::{PacingConfig, PacingState};
pub use protocol_commands::{
    Connectable, Connected, Key, KeyAck, KeyPress, LaunchRequest, LineOwner, ProfileId,
    ProfileView, SavedConnections, SavedRow, SubmitAck, Variant, is_separator, last_segment, named,
    no_such_connection, no_such_connection_said, opt_view, profile_label, program_name, slice_of,
    ssh_label, without_exe, lemma_ssh_label_names_a_port_that_is_not_the_default,
};
pub use protocol_connect::{AttemptId, ConnectAnswer, ConnectQuestion, ConnectStep};
pub use protocol_events::{Announcement, SessionEvent};
pub use read_mode::ReadMode;
pub use saved_connection::{
    DEFAULT_SSH_PORT, EMPTY, ILLEGAL, NO_DISTRIBUTION, SavedConnection, SavedTarget, TargetView,
    is_forbidden, lemma_target_names_its_profile_again, line_owner_by_default, refusal, refused,
    same_name, same_names, set_up_by_default, target_of, target_profile, target_summary,
};
pub use session_setup::{SessionSetup, SetUp};
pub use session_intent::SessionIntent;
pub use session_state::{
    Integration, Screen, SessionState, lemma_integrated_is_final, lemma_mode_toggle_involution,
};
pub use shell_install::{
    PathStanding, Provenance, ShellInstall, directory, directory_of, file_name,
    lemma_last_segment_is_suffix, qualifier_of,
};
pub use shell_markers::{ShellMarkers, marks_output_start, reports_exit_code};
pub use signature_verdict::{
    Fault, Signer, Verdict, by_said, by_whom, certificate, certificate_said,
    contains_text, lemma_every_verdict_is_said_in_whole_sentences, lemma_every_verdict_says_what_to_do, lemma_every_verdict_takes_ten_words, word_count, lemma_verdicts_are_said_differently, verdict_ending, verdict_kind, lemma_only_a_vendor_goes_unremarked, says_what_to_do, vendor_of, verdict_note, verdict_said, verdict_settled,
    verdict_signer,
};
pub use stored_settings::{FORMAT, StoredSettings, format_of_the_first_document, offer_by_default};
pub use style_run::{
    Colour, Style, StyleRun, fits, join_one, join_runs, joinable, joined, lemma_joined_fits,
    lemma_utf16_units_grow, run_end, run_slice, slice_runs, sliced, utf16_count, utf16_len,
    utf16_units, covers, lemma_sliced_runs_cover_the_span,
};
pub use terminal_item::{LineId, LineRevision, TerminalItem};
pub use unspoken_text::{
    UnspokenText, after_last_newline, count_newlines, lemma_after_last_newline_concat,
    lemma_count_bounded, lemma_count_newlines_concat, lemma_measured_lines, lemma_split_lines_len,
    kept_after, run_together, lemma_kept_exactly_while_small,
};
