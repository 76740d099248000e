use edit_modes::KeySequenceResult;
use edit_modes::KeyCode;
use edit_modes::KeyCombination;
use edit_modes::KeyModifiers;
use edit_modes::Keybindings;
use edit_modes::LineBuffer;
use edit_modes::PartialKeySequence;
use edit_modes::ReedlineEvent;
use edit_modes::Sequence;
use edit_modes::apply_multiplier;
use edit_modes::grapheme_left_n;
use edit_modes::grapheme_right_n;
use edit_modes::is_whitespace_str;
use edit_modes::normalize_line_endings_str;
use edit_modes::to_lowercase_key_code;

#[test]
fn normalization_rewrites_line_endings_only() {
    assert_eq!(normalize_line_endings_str("one\r\ntwo\rthree\n"), "one\ntwo\nthree\n");
    assert_eq!(normalize_line_endings_str("\r\r\n"), "\n\n");
    assert_eq!(normalize_line_endings_str("plain"), "plain");
    assert_eq!(normalize_line_endings_str(""), "");
}

#[test]
fn normalization_is_idempotent_on_examples() {
    let once = normalize_line_endings_str("a\rb\r\nc");
    let twice = normalize_line_endings_str(once.as_str());
    assert_eq!(once, twice);
    assert_eq!(once, "a\nb\nc");
}

#[test]
fn whitespace_query_matches_unicode() {
    assert!(is_whitespace_str(" \t"));
    assert!(is_whitespace_str(""));
    assert!(is_whitespace_str("\u{a0}"));
    assert!(!is_whitespace_str("x"));
    assert!(!is_whitespace_str(" x"));
}

#[test]
fn grapheme_queries_split_clusters() {
    // a combining mark stays glued to its base character
    let buffer = LineBuffer::from_string("a\u{310}ex", 0);
    assert_eq!(grapheme_right_n(&buffer, 0), "a\u{310}");
    assert_eq!(grapheme_right_n(&buffer, 1), "e");

    let buffer = LineBuffer::from_string("ab", 0);
    assert_eq!(grapheme_right_n(&buffer, 0), "a");
    assert_eq!(grapheme_right_n(&buffer, 1), "b");
    // past the end, the whole (empty) suffix comes back
    assert_eq!(grapheme_right_n(&buffer, 5), "ab");

    let buffer = LineBuffer::from_string("ab", 1);
    assert_eq!(grapheme_left_n(&buffer, 0), "b");
    assert_eq!(grapheme_left_n(&buffer, 1), "a");

    // a cursor past the end of the line sees nothing to its left
    let buffer = LineBuffer::from_string("ab", 2);
    assert_eq!(grapheme_left_n(&buffer, 0), "");
}

#[test]
fn lowercasing_touches_only_ascii_characters() {
    assert_eq!(to_lowercase_key_code(KeyCode::Char('A')), KeyCode::Char('a'));
    assert_eq!(to_lowercase_key_code(KeyCode::Char('z')), KeyCode::Char('z'));
    assert_eq!(to_lowercase_key_code(KeyCode::Char('Ω')), KeyCode::Char('Ω'));
    assert_eq!(to_lowercase_key_code(KeyCode::Esc), KeyCode::Esc);
}

#[test]
fn matcher_reports_pending_matched_and_cancelled() {
    let mut kb = Keybindings::new();
    let g = KeyCombination { modifier: KeyModifiers::none(), key_code: KeyCode::Char('g') };
    let h = KeyCombination { modifier: KeyModifiers::none(), key_code: KeyCode::Char('h') };
    kb.add_binding(g, vec![h], ReedlineEvent::ClearScreen);

    // walk the happy path: g is pending, g h matches
    let mut matcher = PartialKeySequence::new(Sequence { entries: kb.bindings.entries });
    assert!(matches!(matcher.advance(g), KeySequenceResult::Pending));
    match matcher.advance(h) {
        KeySequenceResult::Matched(ev) => assert_eq!(ev, ReedlineEvent::ClearScreen),
        _ => panic!("expected a match"),
    }

    // an unbound key cancels with the whole history
    let mut kb = Keybindings::new();
    kb.add_binding(g, vec![h], ReedlineEvent::ClearScreen);
    let mut matcher = PartialKeySequence::new(Sequence { entries: kb.bindings.entries });
    assert!(matches!(matcher.advance(g), KeySequenceResult::Pending));
    match matcher.advance(g) {
        KeySequenceResult::Cancelled(history) => assert_eq!(history, vec![g, g]),
        _ => panic!("expected a cancellation"),
    }
}

#[test]
fn find_binding_reports_bound_keys_only() {
    let mut kb = Keybindings::empty();
    let g = KeyCombination { modifier: KeyModifiers::none(), key_code: KeyCode::Char('g') };
    assert!(kb.find_binding(g.modifier, g.key_code).is_none());
    kb.add_binding(g, vec![], ReedlineEvent::ClearScreen);
    assert!(kb.find_binding(g.modifier, g.key_code).is_some());
}

#[test]
fn apply_multiplier_repeats_the_event() {
    let repeated = apply_multiplier(ReedlineEvent::Up, 3);
    assert_eq!(
        repeated,
        ReedlineEvent::Multiple(vec![ReedlineEvent::Up, ReedlineEvent::Up, ReedlineEvent::Up])
    );
}
