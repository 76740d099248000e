use edit_modes::EditCommand;
use edit_modes::EditMode;
use edit_modes::Helix;
use edit_modes::HelixEvent;
use edit_modes::HelixMode;
use edit_modes::HelixNormal;
use edit_modes::KeyCode;
use edit_modes::KeyCombination;
use edit_modes::KeyModifiers;
use edit_modes::LineBuffer;
use edit_modes::ReedlineEvent;
use edit_modes::ReedlineRawEvent;
use edit_modes::PromptEditMode;
use edit_modes::PromptHelixMode;
use edit_modes::default_helix_insert_keybindings;
use edit_modes::default_helix_normal_keybindings;

fn key(modifier: KeyModifiers, key_code: KeyCode) -> ReedlineRawEvent {
    ReedlineRawEvent::Key(KeyCombination { modifier, key_code })
}

fn normal_mode_helix() -> Helix {
    Helix { mode: HelixMode::Normal(None), ..Default::default() }
}

// `3`,`l` emits char-right exactly three times as one composite event, and
// the count is empty afterwards.
#[test]
fn counted_char_right_repeats_three_times() {
    let mut helix = normal_mode_helix();
    let line_buffer = LineBuffer::new();

    let counting = helix.parse_event(&line_buffer, key(KeyModifiers::none(), KeyCode::Char('3')));
    assert_eq!(counting, ReedlineEvent::NoOp);
    assert_eq!(helix.count, Some(3));

    let result = helix.parse_event(&line_buffer, key(KeyModifiers::none(), KeyCode::Char('l')));
    assert_eq!(
        result,
        ReedlineEvent::Multiple(vec![
            ReedlineEvent::Edit(vec![EditCommand::MoveRight { select: false }]),
            ReedlineEvent::Edit(vec![EditCommand::MoveRight { select: false }]),
            ReedlineEvent::Edit(vec![EditCommand::MoveRight { select: false }]),
        ])
    );
    assert_eq!(helix.count, None);
}

// Digits accumulate; a leading zero does not start a count.
#[test]
fn count_accumulates_digit_by_digit() {
    let mut helix = normal_mode_helix();
    let line_buffer = LineBuffer::new();

    helix.parse_event(&line_buffer, key(KeyModifiers::none(), KeyCode::Char('0')));
    assert_eq!(helix.count, None);

    helix.parse_event(&line_buffer, key(KeyModifiers::none(), KeyCode::Char('1')));
    helix.parse_event(&line_buffer, key(KeyModifiers::none(), KeyCode::Char('0')));
    helix.parse_event(&line_buffer, key(KeyModifiers::none(), KeyCode::Char('2')));
    assert_eq!(helix.count, Some(102));
}

// Escape, at any point and with any pending state, returns to Normal with
// every pending slot cleared.
#[test]
fn escape_clears_count_and_returns_to_normal() {
    let mut helix = normal_mode_helix();
    let line_buffer = LineBuffer::new();

    helix.parse_event(&line_buffer, key(KeyModifiers::none(), KeyCode::Char('4')));
    assert_eq!(helix.count, Some(4));

    let result = helix.parse_event(&line_buffer, key(KeyModifiers::none(), KeyCode::Esc));
    assert_eq!(result, ReedlineEvent::NoOp);
    assert_eq!(helix.mode, HelixMode::Normal(None));
    assert_eq!(helix.count, None);
    assert!(helix.partial_key_sequence.is_none());
    assert!(helix.on_next_char.is_none());
}

// Escape from insert mode repaints so the mode indicator refreshes.
#[test]
fn escape_from_insert_repaints() {
    let mut helix = Helix::default();
    let line_buffer = LineBuffer::new();
    assert_eq!(helix.mode, HelixMode::Insert);

    let result = helix.parse_event(&line_buffer, key(KeyModifiers::none(), KeyCode::Esc));
    assert_eq!(result, ReedlineEvent::Repaint);
    assert_eq!(helix.mode, HelixMode::Normal(None));
}

// `i` enters insert mode; typed characters then insert.
#[test]
fn insert_mode_inserts_typed_characters() {
    let mut helix = normal_mode_helix();
    let line_buffer = LineBuffer::new();

    let entering = helix.parse_event(&line_buffer, key(KeyModifiers::none(), KeyCode::Char('i')));
    assert_eq!(entering, ReedlineEvent::Repaint);
    assert_eq!(helix.mode, HelixMode::Insert);

    let typed = helix.parse_event(&line_buffer, key(KeyModifiers::none(), KeyCode::Char('x')));
    assert_eq!(typed, ReedlineEvent::Edit(vec![EditCommand::InsertChar('x')]));
}

// `v` toggles the Select minor mode.
#[test]
fn select_mode_toggles() {
    let mut helix = normal_mode_helix();
    let line_buffer = LineBuffer::new();

    helix.parse_event(&line_buffer, key(KeyModifiers::none(), KeyCode::Char('v')));
    assert_eq!(helix.mode, HelixMode::Normal(Some(edit_modes::MinorMode::Select)));

    helix.parse_event(&line_buffer, key(KeyModifiers::none(), KeyCode::Char('v')));
    assert_eq!(helix.mode, HelixMode::Normal(None));
}

// A find/till operator holds a pending continuation that unconditionally
// consumes the next key.
#[test]
fn find_till_consumes_the_next_key() {
    let mut normal = default_helix_normal_keybindings();
    normal.add_binding(
        KeyCombination { modifier: KeyModifiers::none(), key_code: KeyCode::Char('t') },
        vec![],
        ReedlineEvent::Helix(HelixEvent::Normal(HelixNormal::FindTillChar)),
    );
    let mut helix = Helix {
        insert_keybindings: default_helix_insert_keybindings(),
        normal_keybindings: normal,
        mode: HelixMode::Normal(None),
        ..Default::default()
    };
    let line_buffer = LineBuffer::new();

    helix.parse_event(&line_buffer, key(KeyModifiers::none(), KeyCode::Char('2')));
    let waiting = helix.parse_event(&line_buffer, key(KeyModifiers::none(), KeyCode::Char('t')));
    assert_eq!(waiting, ReedlineEvent::NoOp);
    assert!(helix.on_next_char.is_some());
    assert_eq!(helix.count, None);

    let result = helix.parse_event(&line_buffer, key(KeyModifiers::none(), KeyCode::Char('z')));
    assert_eq!(
        result,
        ReedlineEvent::Edit(vec![
            EditCommand::MoveRightBefore { c: 'z', select: true },
            EditCommand::MoveRightBefore { c: 'z', select: true },
        ])
    );
    assert!(helix.on_next_char.is_none());
}

// A word motion starting on whitespace takes the extra single-character
// step before the repeated motion's last step.
#[test]
fn word_motion_on_whitespace_takes_extra_step() {
    let mut helix = normal_mode_helix();
    let line_buffer = LineBuffer::from_string(" x", 0);

    let result = helix.parse_event(&line_buffer, key(KeyModifiers::none(), KeyCode::Char('w')));
    assert_eq!(
        result,
        ReedlineEvent::Edit(vec![
            EditCommand::ClearSelection,
            EditCommand::MoveRight { select: false },
            EditCommand::MoveWordRightBeforeStart { select: true },
        ])
    );
}

// The same motion not on whitespace takes no extra step.
#[test]
fn word_motion_on_text_takes_no_extra_step() {
    let mut helix = normal_mode_helix();
    let line_buffer = LineBuffer::from_string("ab cd", 0);

    let result = helix.parse_event(&line_buffer, key(KeyModifiers::none(), KeyCode::Char('w')));
    assert_eq!(
        result,
        ReedlineEvent::Edit(vec![
            EditCommand::ClearSelection,
            EditCommand::MoveWordRightBeforeStart { select: true },
        ])
    );
}

// In Select mode the word motion keeps the selection: no clear is slipped
// in.
#[test]
fn word_motion_in_select_mode_keeps_selection() {
    let mut helix = normal_mode_helix();
    let line_buffer = LineBuffer::from_string("ab cd", 0);

    helix.parse_event(&line_buffer, key(KeyModifiers::none(), KeyCode::Char('v')));
    let result = helix.parse_event(&line_buffer, key(KeyModifiers::none(), KeyCode::Char('w')));
    assert_eq!(
        result,
        ReedlineEvent::Edit(vec![EditCommand::MoveWordRightBeforeStart { select: true }])
    );
}

// Pasted text is normalized before being wrapped as a literal insert.
#[test]
fn helix_paste_normalizes_line_endings() {
    let mut helix = Helix::default();
    let line_buffer = LineBuffer::new();
    let result = helix.parse_event(
        &line_buffer,
        ReedlineRawEvent::Paste(String::from("a\r\nb")),
    );
    assert_eq!(
        result,
        ReedlineEvent::Edit(vec![EditCommand::InsertString(String::from("a\nb"))])
    );
}

// Mouse and resize events pass through opaquely; focus changes are ignored.
#[test]
fn passthrough_events() {
    let mut helix = Helix::default();
    let line_buffer = LineBuffer::new();
    assert_eq!(
        helix.parse_event(&line_buffer, ReedlineRawEvent::Mouse),
        ReedlineEvent::Mouse
    );
    assert_eq!(
        helix.parse_event(&line_buffer, ReedlineRawEvent::Resize(80, 24)),
        ReedlineEvent::Resize(80, 24)
    );
    assert_eq!(
        helix.parse_event(&line_buffer, ReedlineRawEvent::FocusGained),
        ReedlineEvent::NoOp
    );
}

#[test]
fn prompt_mode_follows_the_driver() {
    let mut helix = Helix::default();
    assert_eq!(helix.edit_mode(), PromptEditMode::Helix(PromptHelixMode::Insert));
    let line_buffer = LineBuffer::new();
    helix.parse_event(&line_buffer, key(KeyModifiers::none(), KeyCode::Esc));
    assert_eq!(helix.edit_mode(), PromptEditMode::Helix(PromptHelixMode::Normal));
}
