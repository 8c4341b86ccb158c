//! Pure domain computation: deterministic in, deterministic out, one concept per file.

mod autoread;
mod boundary_tracker;
mod catalogue;
mod far_end_row;
mod key_bytes;
mod keybindings;
mod spoken;
mod system_menu;

pub use autoread::{
    PacingAction, PacingOutcome, TextSize, flush_spec, flush_with_babble_guard, is_empty_size,
    lemma_pacing_keeps_its_latches, lemma_patience_fires_once, lemma_split_lines_nonempty,
    lemma_trim_end_len, lemma_trim_end_push,
    lemma_tripped_guard_stays_quiet, lemma_too_big_resets_the_streak, lemma_a_flush_moves_the_streak_by_one_read, measure, measured_chars, measured_lines, min_u64,
    on_command_end, on_command_end_spec, on_output, on_output_spec, on_wake, on_wake_spec,
    lemma_measure_grows, lemma_too_big_stays_too_big, size_of_text,
    read_mode_of, saturating_sub, split_lines, streak_can_grow, streak_kept, text_lines, trimmed_total, verdict,
};
pub use boundary_tracker::{
    Boundaries, BoundaryEvent, BoundaryTracker, Region, balanced, end_open, has_marker, item_step,
    lemma_balanced_concat, lemma_blocks_are_balanced, lemma_items_pass_through,
    lemma_marker_relays_nothing, lemma_markers_observed_once, lemma_observations_concat,
    lemma_relayed_concat, lemma_step_balanced, lemma_step_observations, marker_step, observations,
    observed, relayed, unmarked, any_marker, blocks_follow_markers, lemma_markers_observed_once_across_reads, lemma_unmarked_batch_tells_no_boundary,
    observed_in_turn, told_markers_before,
};
pub use catalogue::{
    Connection, NOT_AVAILABLE, catalogue, catalogued, lemma_catalogue_keeps_every_kind,
    lemma_picked_len, lists, lists_prefix, offered, offered_kinds, picked, row_label,
};
pub use keybindings::{Binding, binding_for, bound, is_ctrl, lemma_only_two_keystrokes_are_bound};
pub use spoken::{ended, ended_text, is_ending, lemma_ending_twice_changes_nothing};
pub use system_menu::{
    MenuItem, Standard, SystemMenu, acter_item, application_items, bar_for, edit_items, file_items,
    help_items, macos_bar, shows, system_menu, view_items, window_items,
};
pub use far_end_row::{
    Anchor, AnswerView, Caret, FarEndAnswer, Keystroke, RowChange, answer_for, answers, caret_in,
    caret_moved, far_end_row, first_in, first_where, from_column, gains, lemma_the_caret_stays_inside_the_row, lemma_caret_ends_the_row_with_no_cursor,
    on_line, padded, past, spaces, text_from_column, weight,
};
pub(crate) use far_end_row::find_on_line;
pub use key_bytes::{
    ESC, character_spelling, control_byte, cursor_spelling, is_ascii_letter, key_bytes,
    lemma_modes_touch_only_the_cursor_keys, lemma_a_character_is_sent_as_its_utf8, lemma_ctrl_letter_is_its_control_byte, unmodified_spelling, utf8, wire,
};
