//! What the window asks of the domain: which far end it is on, how it becomes another, and
//! the conversation a connection holds with the person.

mod choices;
mod connect;
mod conversation;
mod echo;
mod framing;
mod session;


pub use choices::{
    DEFAULT, already_exists, already_exists_said, distribution_from, distribution_in, edition_in, has_provenance, pick_edition,
    forgotten_said, gone, gone_said, listed_view, only_in_development, only_in_development_said,
    renamed_said, saved_as_said, texts, char_le, lemma_char_le_total, name_key, sort_by_name,
    sorted_by_name, text_le, distribution_variant, find_named, row_of, saved_row, scripted_connectable,
    scripted_row, shell_variant, shell_variant_of, single_connectable, single_row, ssh_connectable,
    ssh_row, wsl_connectable, NEEDS_HOST, NEEDS_USER, NOTHING_TO_SAVE, NOT_AVAILABLE, NOT_VERIFIED, agree, agreed,
    default_shell, default_shell_at, first_found, found_in, name_label, named_label, not_started,
    refuse_ssh, said_of, shares, ssh_refusal, tell_apart, told_apart, edition_count, edition_rows, editions_rows,
    first_edition_program, first_listed, name_free, opened_note, owner_from, saved_or_missing, powershell_connectable, powershell_row_of, row_instructions, terminal_connectable, terminal_row_of,
};
pub use connect::{ConnectService, LiveView, describes, first_install, kind_row};
pub use conversation::{
    Conversation, finished_step, host_key_answered, host_key_asked, password_answered,
    password_asked, program_answered, setup_answered, setup_asked, unverified_asked,
};
pub use framing::{frame_one, framed, framed_from, lemma_framed_chain, lemma_framed_concat, lemma_framed_push, lemma_framed_still};
pub use session::{BACKLOG, Backlog, KeyRoute, Pump, line_of_reached, line_reached, noted_change, relayed_line, sent_in, told_of, alphanumeric, anchored_on, answered, caret_of, echoes, ending, marked, outputs, pasted, route_key, wanted, EngineState, PumpAction, Request, byte_len, keep_within, utf8_bytes, width};
pub use echo::{
    Due, Echo, Held, before_echo, before_echo_text, found_at, last_found, without_prefix,
    without_suffix,
};
