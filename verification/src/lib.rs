//! Input-interpretation core of a readline-style line editor.
//!
//! Raw terminal input events are turned into abstract editing events while
//! emulating the modal key grammars of several well-known editors: a flat
//! Emacs-style mode and two modal styles (Vi and Helix). The core consists of
//! a recursive keybinding table with structural merging, a stateful sequence
//! matcher with lossless replay on cancellation, three mode state machines,
//! and an incremental Vi command/motion grammar parser.

mod base;
mod emacs;
mod events;
mod helix;
mod helix_keybindings;
mod keybindings;
mod keys;
mod line_buffer;
mod text;
mod vi;
mod vi_command;
mod vi_parser;

pub use base::EditMode;
pub use emacs::{
    Emacs, default_emacs_keybindings, emacs_default_bindings, flat_advance, flat_dispatch,
    flat_insert_fallback,
};
pub use events::{
    EditCommand, EventV, HelixEvent, HelixNormal, PromptEditMode, PromptHelixMode, PromptViMode,
    ReedlineEvent, ReedlineRawEvent, clone_command, clone_commands, clone_event, clone_events,
    edit_bind, event_view, events_view, lemma_events_view,
};
pub use helix::{
    Helix, HelixMode, MinorMode, PendingCharCapture, apply_multiplier, capture_cmds,
    helix_count, helix_digit_update, helix_event_outcome, helix_key_dispatch, helix_replay,
    helix_step, repeat_event, word_motion_cmds, ws_left1, ws_right,
};
pub use helix_keybindings::{
    default_helix_insert_keybindings, default_helix_normal_keybindings,
    helix_insert_default_bindings, helix_normal_default_bindings,
};
pub use keybindings::{
    KeyNode, KeySequenceResult, KeySequenceResultV, Keybindings, NodeV, PartialKeySequence,
    Sequence, add_common_control_bindings, add_common_edit_bindings,
    add_common_navigation_bindings, add_common_selection_bindings, combo, control_bindings,
    edit_bindings, entries_height, entries_view, entries_wf, is_prefix_of,
    lemma_full_sequence_matches, lemma_register_preserves, lemma_register_resolves,
    lemma_replay_literal_chars, lemma_single_key_binding, merge_v, merged_tables,
    navigation_bindings, node_height, node_of_path, node_view, node_wf, partial_view, replay_keys,
    resolve_node, selection_bindings, table_add, until_found2, until_found3, walk_prefix,
};
pub use keys::{KeyCode, KeyCombination, KeyModifiers, to_lowercase_key_code};
pub use line_buffer::{
    LineBuffer, grapheme_clusters_of, grapheme_left_n, grapheme_left_spec, grapheme_right_n,
    grapheme_right_spec,
};
pub use vi::{
    Vi, ViMode, default_vi_insert_keybindings, default_vi_normal_keybindings, event_of_options,
    finalize_events, grammar_step, repeat_cmd, vi_advance, vi_dispatch,
    vi_insert_default_bindings, vi_normal_default_bindings,
};
pub use vi_command::{
    Command, bracket_for, bracket_pair_options, change_motion_options, cmd_motion_options,
    cmd_options, delete_motion_options, is_valid_change_inside_left,
    is_valid_change_inside_right, lemma_change_inside_pair, parse_command, spec_bracket_for,
    spec_parse_command, spec_valid_change_inside_left, spec_valid_change_inside_right,
};
pub use vi_parser::{
    Motion, MotionResult, ParsedViSequence, ReedlineOption, ReedlineOptionV, ViCharSearch,
    char_search_after, motion_options, options_view, parse, parse_motion, parse_number,
    spec_parse, spec_parse_motion, spec_parse_number,
};
pub use text::{
    all_whitespace, char_is_whitespace, is_whitespace_str, lemma_normalize_idempotent,
    lemma_normalize_no_cr, lemma_normalize_preserves_text, normalize_line_endings,
    normalize_line_endings_chars, normalize_line_endings_str, str_chars, string_from_chars,
    visible_text, whitespace_char,
};
