use edit_modes::EditCommand;
use edit_modes::EditMode;
use edit_modes::Emacs;
use edit_modes::KeyCode;
use edit_modes::KeyCombination;
use edit_modes::KeyModifiers;
use edit_modes::Keybindings;
use edit_modes::LineBuffer;
use edit_modes::ReedlineEvent;
use edit_modes::ReedlineRawEvent;
use edit_modes::default_emacs_keybindings;

fn key(modifier: KeyModifiers, key_code: KeyCode) -> ReedlineRawEvent {
    ReedlineRawEvent::Key(KeyCombination { modifier, key_code })
}

#[test]
fn ctrl_l_leads_to_clear_screen_event() {
    let mut emacs = Emacs::default();
    let line_buffer = LineBuffer::new();
    let ctrl_l = key(KeyModifiers::control(), KeyCode::Char('l'));
    let result = emacs.parse_event(&line_buffer, ctrl_l);

    assert_eq!(result, ReedlineEvent::ClearScreen);
}

#[test]
fn overriding_default_keybindings_works() {
    let mut keybindings = default_emacs_keybindings();
    keybindings.add_binding(
        KeyCombination { modifier: KeyModifiers::control(), key_code: KeyCode::Char('l') },
        vec![],
        ReedlineEvent::HistoryHintComplete,
    );

    let mut emacs = Emacs::new(keybindings);
    let line_buffer = LineBuffer::new();
    let ctrl_l = key(KeyModifiers::control(), KeyCode::Char('l'));
    let result = emacs.parse_event(&line_buffer, ctrl_l);

    assert_eq!(result, ReedlineEvent::HistoryHintComplete);
}

#[test]
fn inserting_character_works() {
    let mut emacs = Emacs::default();
    let line_buffer = LineBuffer::new();
    let l = key(KeyModifiers::none(), KeyCode::Char('l'));
    let result = emacs.parse_event(&line_buffer, l);

    assert_eq!(result, ReedlineEvent::Edit(vec![EditCommand::InsertChar('l')]));
}

#[test]
fn inserting_capital_character_works() {
    let mut emacs = Emacs::default();
    let line_buffer = LineBuffer::new();

    let uppercase_l = key(KeyModifiers::shift(), KeyCode::Char('l'));
    let result = emacs.parse_event(&line_buffer, uppercase_l);

    assert_eq!(result, ReedlineEvent::Edit(vec![EditCommand::InsertChar('L')]));
}

#[test]
fn return_none_reedline_event_when_keybinding_is_not_found() {
    let keybindings = Keybindings::default();

    let mut emacs = Emacs::new(keybindings);
    let line_buffer = LineBuffer::new();
    let ctrl_l = key(KeyModifiers::control(), KeyCode::Char('l'));
    let result = emacs.parse_event(&line_buffer, ctrl_l);

    assert_eq!(result, ReedlineEvent::NoOp);
}

#[test]
fn inserting_capital_character_for_non_ascii_remains_as_is() {
    let mut emacs = Emacs::default();
    let line_buffer = LineBuffer::new();

    let uppercase_l = key(KeyModifiers::shift(), KeyCode::Char('😀'));
    let result = emacs.parse_event(&line_buffer, uppercase_l);

    assert_eq!(result, ReedlineEvent::Edit(vec![EditCommand::InsertChar('😀')]));
}

// A multi-key binding reports no event on the prefix and the bound event on
// the final key.
#[test]
fn multi_key_binding_matches_on_final_key() {
    let mut keybindings = Keybindings::new();
    keybindings.add_binding(
        KeyCombination { modifier: KeyModifiers::none(), key_code: KeyCode::Char('g') },
        vec![KeyCombination { modifier: KeyModifiers::none(), key_code: KeyCode::Char('g') }],
        ReedlineEvent::ClearScreen,
    );
    let mut emacs = Emacs::new(keybindings);
    let line_buffer = LineBuffer::new();

    let pending = emacs.parse_event(&line_buffer, key(KeyModifiers::none(), KeyCode::Char('g')));
    assert_eq!(pending, ReedlineEvent::NoOp);

    let matched = emacs.parse_event(&line_buffer, key(KeyModifiers::none(), KeyCode::Char('g')));
    assert_eq!(matched, ReedlineEvent::ClearScreen);
}

// A cancelled sequence replays its buffered character keys as literal
// inserts: `g` then `x` insert exactly `g` and `x`, not silence.
#[test]
fn cancelled_sequence_replays_literal_characters() {
    let mut keybindings = Keybindings::new();
    keybindings.add_binding(
        KeyCombination { modifier: KeyModifiers::none(), key_code: KeyCode::Char('g') },
        vec![KeyCombination { modifier: KeyModifiers::none(), key_code: KeyCode::Char('g') }],
        ReedlineEvent::ClearScreen,
    );
    let mut emacs = Emacs::new(keybindings);
    let line_buffer = LineBuffer::new();

    let pending = emacs.parse_event(&line_buffer, key(KeyModifiers::none(), KeyCode::Char('g')));
    assert_eq!(pending, ReedlineEvent::NoOp);

    let cancelled = emacs.parse_event(&line_buffer, key(KeyModifiers::none(), KeyCode::Char('x')));
    assert_eq!(
        cancelled,
        ReedlineEvent::Multiple(vec![
            ReedlineEvent::Edit(vec![EditCommand::InsertChar('g')]),
            ReedlineEvent::Edit(vec![EditCommand::InsertChar('x')]),
        ])
    );
}

// Merging two bindings sharing a prefix preserves both leaves.
#[test]
fn merged_bindings_share_a_prefix() {
    let mut keybindings = Keybindings::new();
    let a = KeyCombination { modifier: KeyModifiers::none(), key_code: KeyCode::Char('a') };
    let b = KeyCombination { modifier: KeyModifiers::none(), key_code: KeyCode::Char('b') };
    let c = KeyCombination { modifier: KeyModifiers::none(), key_code: KeyCode::Char('c') };
    keybindings.add_binding(a, vec![b], ReedlineEvent::ClearScreen);
    keybindings.add_binding(a, vec![c], ReedlineEvent::SearchHistory);

    let mut emacs = Emacs::new(keybindings);
    let line_buffer = LineBuffer::new();

    let first = emacs.parse_event(&line_buffer, key(KeyModifiers::none(), KeyCode::Char('a')));
    assert_eq!(first, ReedlineEvent::NoOp);
    let matched = emacs.parse_event(&line_buffer, key(KeyModifiers::none(), KeyCode::Char('b')));
    assert_eq!(matched, ReedlineEvent::ClearScreen);

    let first = emacs.parse_event(&line_buffer, key(KeyModifiers::none(), KeyCode::Char('a')));
    assert_eq!(first, ReedlineEvent::NoOp);
    let matched = emacs.parse_event(&line_buffer, key(KeyModifiers::none(), KeyCode::Char('c')));
    assert_eq!(matched, ReedlineEvent::SearchHistory);
}

// A later registration on the same single key overwrites the earlier leaf.
#[test]
fn single_key_rebinding_wins() {
    let mut keybindings = Keybindings::new();
    let a = KeyCombination { modifier: KeyModifiers::none(), key_code: KeyCode::Char('a') };
    keybindings.add_binding(a, vec![], ReedlineEvent::ClearScreen);
    keybindings.add_binding(a, vec![], ReedlineEvent::SearchHistory);

    let mut emacs = Emacs::new(keybindings);
    let line_buffer = LineBuffer::new();
    let matched = emacs.parse_event(&line_buffer, key(KeyModifiers::none(), KeyCode::Char('a')));
    assert_eq!(matched, ReedlineEvent::SearchHistory);
}

// The up arrow is an ordered try-each chain: menu navigation is attempted
// before plain cursor movement.
#[test]
fn arrow_key_is_an_ordered_alternative_chain() {
    let mut emacs = Emacs::default();
    let line_buffer = LineBuffer::new();
    let result = emacs.parse_event(&line_buffer, key(KeyModifiers::none(), KeyCode::Up));
    assert_eq!(
        result,
        ReedlineEvent::UntilFound(vec![ReedlineEvent::MenuUp, ReedlineEvent::Up])
    );
}

// Unbound non-character keys are swallowed by the flat driver.
#[test]
fn unbound_special_key_is_swallowed() {
    let mut emacs = Emacs::default();
    let line_buffer = LineBuffer::new();
    let result = emacs.parse_event(&line_buffer, key(KeyModifiers::none(), KeyCode::PageUp));
    assert_eq!(result, ReedlineEvent::NoOp);
}

// Pasted text is normalized before being wrapped as a literal insert.
#[test]
fn paste_normalizes_line_endings() {
    let mut emacs = Emacs::default();
    let line_buffer = LineBuffer::new();
    let result = emacs.parse_event(
        &line_buffer,
        ReedlineRawEvent::Paste(String::from("one\r\ntwo\rthree\n")),
    );
    assert_eq!(
        result,
        ReedlineEvent::Edit(vec![EditCommand::InsertString(String::from("one\ntwo\nthree\n"))])
    );
}
