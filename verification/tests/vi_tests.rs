use edit_modes::Command;
use edit_modes::EditCommand;
use edit_modes::EditMode;
use edit_modes::KeyCode;
use edit_modes::KeyCombination;
use edit_modes::KeyModifiers;
use edit_modes::LineBuffer;
use edit_modes::Motion;
use edit_modes::ReedlineEvent;
use edit_modes::ReedlineRawEvent;
use edit_modes::Vi;
use edit_modes::ViMode;
use edit_modes::bracket_for;
use edit_modes::default_vi_insert_keybindings;
use edit_modes::default_vi_normal_keybindings;
use edit_modes::parse_command;

fn key(modifier: KeyModifiers, key_code: KeyCode) -> ReedlineRawEvent {
    ReedlineRawEvent::Key(KeyCombination { modifier, key_code })
}

#[test]
fn esc_leads_to_normal_mode_test() {
    let mut vi = Vi::default();
    let line_buffer = LineBuffer::new();
    let esc = key(KeyModifiers::none(), KeyCode::Esc);
    let result = vi.parse_event(&line_buffer, esc);

    assert_eq!(
        result,
        ReedlineEvent::Multiple(vec![ReedlineEvent::Esc, ReedlineEvent::Repaint])
    );
    assert!(matches!(vi.mode, ViMode::Normal));
}

#[test]
fn keybinding_without_modifier_test() {
    let mut keybindings = default_vi_normal_keybindings();
    keybindings.add_binding(
        KeyCombination { modifier: KeyModifiers::none(), key_code: KeyCode::Char('e') },
        vec![],
        ReedlineEvent::ClearScreen,
    );

    let mut vi = Vi {
        insert_keybindings: default_vi_insert_keybindings(),
        normal_keybindings: keybindings,
        mode: ViMode::Normal,
        ..Default::default()
    };

    let line_buffer = LineBuffer::new();
    let result = vi.parse_event(&line_buffer, key(KeyModifiers::none(), KeyCode::Char('e')));

    assert_eq!(result, ReedlineEvent::ClearScreen);
}

#[test]
fn keybinding_with_shift_modifier_test() {
    let mut keybindings = default_vi_normal_keybindings();
    keybindings.add_binding(
        KeyCombination { modifier: KeyModifiers::shift(), key_code: KeyCode::Char('$') },
        vec![],
        ReedlineEvent::CtrlD,
    );

    let mut vi = Vi {
        insert_keybindings: default_vi_insert_keybindings(),
        normal_keybindings: keybindings,
        mode: ViMode::Normal,
        ..Default::default()
    };

    let line_buffer = LineBuffer::new();
    let result = vi.parse_event(&line_buffer, key(KeyModifiers::shift(), KeyCode::Char('$')));

    assert_eq!(result, ReedlineEvent::CtrlD);
}

#[test]
fn keybinding_with_super_modifier_test() {
    let mut keybindings = default_vi_normal_keybindings();
    keybindings.add_binding(
        KeyCombination { modifier: KeyModifiers::super_mod(), key_code: KeyCode::Char('$') },
        vec![],
        ReedlineEvent::CtrlD,
    );

    let mut vi = Vi {
        insert_keybindings: default_vi_insert_keybindings(),
        normal_keybindings: keybindings,
        mode: ViMode::Normal,
        ..Default::default()
    };

    let line_buffer = LineBuffer::new();
    let result = vi.parse_event(&line_buffer, key(KeyModifiers::super_mod(), KeyCode::Char('$')));

    assert_eq!(result, ReedlineEvent::CtrlD);
}

#[test]
fn non_register_modifier_test() {
    let keybindings = default_vi_normal_keybindings();
    let mut vi = Vi {
        insert_keybindings: default_vi_insert_keybindings(),
        normal_keybindings: keybindings,
        mode: ViMode::Normal,
        ..Default::default()
    };

    let line_buffer = LineBuffer::new();
    let result = vi.parse_event(&line_buffer, key(KeyModifiers::none(), KeyCode::Char('q')));

    assert_eq!(result, ReedlineEvent::NoOp);
}

fn normal_mode_vi() -> Vi {
    Vi { mode: ViMode::Normal, ..Default::default() }
}

// `d`,`w` emits the cut-next-word operation and leaves the queue empty.
#[test]
fn delete_word_emits_cut_and_clears_queue() {
    let mut vi = normal_mode_vi();
    let line_buffer = LineBuffer::new();

    let pending = vi.parse_event(&line_buffer, key(KeyModifiers::none(), KeyCode::Char('d')));
    assert_eq!(pending, ReedlineEvent::NoOp);
    assert_eq!(vi.cache, vec!['d']);

    let result = vi.parse_event(&line_buffer, key(KeyModifiers::none(), KeyCode::Char('w')));
    assert_eq!(result, ReedlineEvent::Edit(vec![EditCommand::CutWordRightToNext]));
    assert!(vi.cache.is_empty());
}

// `d`,`q` is an invalid continuation: the queue is discarded and no edit is
// emitted.
#[test]
fn delete_invalid_motion_discards_queue() {
    let mut vi = normal_mode_vi();
    let line_buffer = LineBuffer::new();

    let pending = vi.parse_event(&line_buffer, key(KeyModifiers::none(), KeyCode::Char('d')));
    assert_eq!(pending, ReedlineEvent::NoOp);

    let result = vi.parse_event(&line_buffer, key(KeyModifiers::none(), KeyCode::Char('q')));
    assert_eq!(result, ReedlineEvent::NoOp);
    assert!(vi.cache.is_empty());
}

// `ci(` emits exactly the bracket pair cut, whichever side introduced it,
// and enters insert mode with a repaint appended.
#[test]
fn change_inside_open_bracket_emits_pair() {
    let mut vi = normal_mode_vi();
    let line_buffer = LineBuffer::from_string("(abc)", 2);

    vi.parse_event(&line_buffer, key(KeyModifiers::none(), KeyCode::Char('c')));
    vi.parse_event(&line_buffer, key(KeyModifiers::none(), KeyCode::Char('i')));
    let result = vi.parse_event(&line_buffer, key(KeyModifiers::none(), KeyCode::Char('(')));

    assert_eq!(
        result,
        ReedlineEvent::Multiple(vec![
            ReedlineEvent::Edit(vec![EditCommand::CutLeftBefore('(')]),
            ReedlineEvent::Edit(vec![EditCommand::CutRightBefore(')')]),
            ReedlineEvent::Repaint,
        ])
    );
    assert!(matches!(vi.mode, ViMode::Insert));
    assert!(vi.cache.is_empty());
}

#[test]
fn change_inside_close_bracket_emits_same_pair() {
    let mut vi = normal_mode_vi();
    let line_buffer = LineBuffer::from_string("(abc)", 2);

    vi.parse_event(&line_buffer, key(KeyModifiers::none(), KeyCode::Char('c')));
    vi.parse_event(&line_buffer, key(KeyModifiers::none(), KeyCode::Char('i')));
    let result = vi.parse_event(&line_buffer, key(KeyModifiers::none(), KeyCode::Char(')')));

    assert_eq!(
        result,
        ReedlineEvent::Multiple(vec![
            ReedlineEvent::Edit(vec![EditCommand::CutLeftBefore('(')]),
            ReedlineEvent::Edit(vec![EditCommand::CutRightBefore(')')]),
            ReedlineEvent::Repaint,
        ])
    );
}

// A repeat count multiplies a standalone motion.
#[test]
fn counted_motion_repeats_the_move() {
    let mut vi = normal_mode_vi();
    let line_buffer = LineBuffer::new();

    vi.parse_event(&line_buffer, key(KeyModifiers::none(), KeyCode::Char('3')));
    let result = vi.parse_event(&line_buffer, key(KeyModifiers::none(), KeyCode::Char('l')));
    assert_eq!(
        result,
        ReedlineEvent::Edit(vec![
            EditCommand::MoveRight { select: false },
            EditCommand::MoveRight { select: false },
            EditCommand::MoveRight { select: false },
        ])
    );
}

// `x` cuts a character; `.` replays the most recent event verbatim.
#[test]
fn dot_replays_the_previous_event() {
    let mut vi = normal_mode_vi();
    let line_buffer = LineBuffer::new();

    let cut = vi.parse_event(&line_buffer, key(KeyModifiers::none(), KeyCode::Char('x')));
    assert_eq!(cut, ReedlineEvent::Edit(vec![EditCommand::CutChar]));

    let replayed = vi.parse_event(&line_buffer, key(KeyModifiers::none(), KeyCode::Char('.')));
    assert_eq!(replayed, ReedlineEvent::Edit(vec![EditCommand::CutChar]));
}

// `r` waits for its character; `rx` replaces with `x`.
#[test]
fn replace_char_waits_for_its_argument() {
    let mut vi = normal_mode_vi();
    let line_buffer = LineBuffer::new();

    let pending = vi.parse_event(&line_buffer, key(KeyModifiers::none(), KeyCode::Char('r')));
    assert_eq!(pending, ReedlineEvent::NoOp);

    let result = vi.parse_event(&line_buffer, key(KeyModifiers::none(), KeyCode::Char('x')));
    assert_eq!(result, ReedlineEvent::Edit(vec![EditCommand::ReplaceChar('x')]));
}

// `f` remembers its search; `;` replays it and `,` reverses it.
#[test]
fn char_search_replay_and_reverse() {
    let mut vi = normal_mode_vi();
    let line_buffer = LineBuffer::new();

    vi.parse_event(&line_buffer, key(KeyModifiers::none(), KeyCode::Char('f')));
    let find = vi.parse_event(&line_buffer, key(KeyModifiers::none(), KeyCode::Char('z')));
    assert_eq!(
        find,
        ReedlineEvent::Edit(vec![EditCommand::MoveRightUntil { c: 'z', select: false }])
    );

    let replay = vi.parse_event(&line_buffer, key(KeyModifiers::none(), KeyCode::Char(';')));
    assert_eq!(
        replay,
        ReedlineEvent::Edit(vec![EditCommand::MoveRightUntil { c: 'z', select: false }])
    );

    let reversed = vi.parse_event(&line_buffer, key(KeyModifiers::none(), KeyCode::Char(',')));
    assert_eq!(
        reversed,
        ReedlineEvent::Edit(vec![EditCommand::MoveLeftUntil { c: 'z', select: false }])
    );
}

// A replayed search with nothing remembered is a no-op.
#[test]
fn replay_with_no_search_is_a_noop() {
    let mut vi = normal_mode_vi();
    let line_buffer = LineBuffer::new();
    let result = vi.parse_event(&line_buffer, key(KeyModifiers::none(), KeyCode::Char(';')));
    assert_eq!(result, ReedlineEvent::NoOp);
}

// `dd` cuts the whole line.
#[test]
fn doubled_operator_selects_the_line() {
    let mut vi = normal_mode_vi();
    let line_buffer = LineBuffer::new();

    vi.parse_event(&line_buffer, key(KeyModifiers::none(), KeyCode::Char('d')));
    let result = vi.parse_event(&line_buffer, key(KeyModifiers::none(), KeyCode::Char('d')));
    assert_eq!(result, ReedlineEvent::Edit(vec![EditCommand::CutCurrentLine]));
}

// Escape clears a pending operator and the queue.
#[test]
fn escape_clears_pending_operator() {
    let mut vi = normal_mode_vi();
    let line_buffer = LineBuffer::new();

    vi.parse_event(&line_buffer, key(KeyModifiers::none(), KeyCode::Char('d')));
    assert_eq!(vi.cache, vec!['d']);

    let result = vi.parse_event(&line_buffer, key(KeyModifiers::none(), KeyCode::Esc));
    assert_eq!(
        result,
        ReedlineEvent::Multiple(vec![ReedlineEvent::Esc, ReedlineEvent::Repaint])
    );
    assert!(vi.cache.is_empty());
    assert!(matches!(vi.mode, ViMode::Normal));
}

// Enter accepts the line and the next line starts in insert mode.
#[test]
fn enter_accepts_and_enters_insert_mode() {
    let mut vi = normal_mode_vi();
    let line_buffer = LineBuffer::new();
    let result = vi.parse_event(&line_buffer, key(KeyModifiers::none(), KeyCode::Enter));
    assert_eq!(result, ReedlineEvent::Enter);
    assert!(matches!(vi.mode, ViMode::Insert));
}

// `i` enters insert mode with a repaint; typed characters then insert.
#[test]
fn insert_mode_types_characters() {
    let mut vi = normal_mode_vi();
    let line_buffer = LineBuffer::new();

    let enter_insert = vi.parse_event(&line_buffer, key(KeyModifiers::none(), KeyCode::Char('i')));
    assert_eq!(enter_insert, ReedlineEvent::Repaint);
    assert!(matches!(vi.mode, ViMode::Insert));

    let typed = vi.parse_event(&line_buffer, key(KeyModifiers::none(), KeyCode::Char('q')));
    assert_eq!(typed, ReedlineEvent::Edit(vec![EditCommand::InsertChar('q')]));
}

// `v` in normal mode enters visual mode.
#[test]
fn v_enters_visual_mode() {
    let mut vi = normal_mode_vi();
    let line_buffer = LineBuffer::new();
    let result = vi.parse_event(&line_buffer, key(KeyModifiers::none(), KeyCode::Char('v')));
    assert_eq!(
        result,
        ReedlineEvent::Multiple(vec![ReedlineEvent::Esc, ReedlineEvent::Repaint])
    );
    assert!(matches!(vi.mode, ViMode::Visual));
}

// The command parser consumes compound commands exactly.
#[test]
fn parse_command_reads_compound_commands() {
    let queue = vec!['d', 'i', '('];
    assert_eq!(parse_command(&queue, 0), (Some(Command::DeleteInside('(')), 3));

    let queue = vec!['c', 'i', '"'];
    assert_eq!(parse_command(&queue, 0), (Some(Command::ChangeInside('"')), 3));

    let queue = vec!['d'];
    assert_eq!(parse_command(&queue, 0), (Some(Command::Delete), 1));

    let queue = vec!['r'];
    assert_eq!(parse_command(&queue, 0), (Some(Command::Incomplete), 1));

    let queue = vec!['q'];
    assert_eq!(parse_command(&queue, 0), (None, 0));
}

#[test]
fn command_helpers_answer_exactly() {
    assert_eq!(Command::Delete.whole_line_char(), Some('d'));
    assert_eq!(Command::Change.whole_line_char(), Some('c'));
    assert_eq!(Command::Undo.whole_line_char(), None);
    assert!(Command::Delete.requires_motion());
    assert!(Command::Change.requires_motion());
    assert!(!Command::DeleteChar.requires_motion());
}

#[test]
fn bracket_for_pairs_both_ways() {
    assert_eq!(bracket_for(&'('), ')');
    assert_eq!(bracket_for(&']'), '[');
    assert_eq!(bracket_for(&'"'), '"');
}

// An operator plus motion through the public translation.
#[test]
fn to_reedline_with_motion_translates_delete_word() {
    let mut vi = Vi::default();
    let options = Command::Delete.to_reedline_with_motion(&Motion::NextWord, &mut vi);
    assert!(options.is_some());
    let options = options.unwrap();
    assert_eq!(options.len(), 1);
    assert!(matches!(
        options[0],
        edit_modes::ReedlineOption::Edit(EditCommand::CutWordRightToNext)
    ));
}
