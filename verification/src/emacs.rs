//! The flat (Emacs-style) mode driver: one table, no sub-modes.

use vstd::prelude::*;

verus! {

use crate::base::EditMode;
use crate::events::{
    EditCommand, EventV, PromptEditMode, ReedlineEvent, ReedlineRawEvent, edit_bind, event_view,
    events_view, lemma_events_view, option_event_view,
};
use crate::keybindings::{
    KeyNode, KeySequenceResult, Keybindings, NodeV, PartialKeySequence, Sequence, combo, node_view,
    control_bindings, edit_bindings, navigation_bindings, partial_view, selection_bindings,
    add_common_control_bindings, add_common_edit_bindings, add_common_navigation_bindings,
    add_common_selection_bindings, replay_keys, until_found2, until_found3,
};
use crate::keys::{
    KeyCode, KeyCombination, KeyModifiers, spec_lower_key_code, spec_upper_char,
    to_lowercase_key_code, upper_char,
};
use crate::line_buffer::LineBuffer;
use crate::text::{normalize_line_endings, normalize_line_endings_str};

/// The literal-insert fallback of the flat driver for a key no binding
/// claims: a plain character inserts itself, a shift-modified character
/// inserts its ASCII uppercase form, everything else is swallowed.
pub open spec fn flat_insert_fallback(kc: KeyCombination) -> Option<EventV> {
    match kc.key_code {
        KeyCode::Char(c) => if kc.modifier == KeyModifiers::spec_none() {
            Some(EventV::Edit(seq![EditCommand::InsertChar(c)]))
        } else if kc.modifier == KeyModifiers::spec_shift() {
            Some(EventV::Edit(seq![EditCommand::InsertChar(spec_upper_char(c))]))
        } else {
            None
        },
        _ => None,
    }
}

/// One step of the matcher inside the flat driver: the key is looked up in
/// the cursor table; an event leaf matches, a nested table keeps the matcher
/// pending, and an unbound key cancels and replays the history.
pub open spec fn flat_advance(
    table: Map<KeyCombination, NodeV>,
    cursor: Map<KeyCombination, NodeV>,
    history: Seq<KeyCombination>,
    kc: KeyCombination,
) -> (Option<EventV>, Option<(Map<KeyCombination, NodeV>, Seq<KeyCombination>)>) {
    if cursor.contains_key(kc) {
        match cursor[kc] {
            NodeV::Event(ev) => (Some(ev), None),
            NodeV::Table(m) => (None, Some((m, history.push(kc)))),
        }
    } else {
        (Some(EventV::Multiple(replay_keys(table, history.push(kc), true))), None)
    }
}

/// One key through the flat driver: a pending matcher consumes it;
/// otherwise the key starts a fresh match at the table root (looked up with
/// a lowercased character), and an unbound key falls back to literal
/// insertion. The result is the emitted event and the matcher state left
/// behind.
pub open spec fn flat_dispatch(
    table: Map<KeyCombination, NodeV>,
    partial: Option<(Map<KeyCombination, NodeV>, Seq<KeyCombination>)>,
    kc: KeyCombination,
) -> (Option<EventV>, Option<(Map<KeyCombination, NodeV>, Seq<KeyCombination>)>) {
    match partial {
        Some((cursor, history)) => flat_advance(table, cursor, history, kc),
        None => {
            let lk = combo(kc.modifier, spec_lower_key_code(kc.key_code));
            if table.contains_key(lk) {
                flat_advance(table, Map::empty().insert(kc, table[lk]), Seq::empty(), kc)
            } else {
                (flat_insert_fallback(kc), None)
            }
        },
    }
}

/// The default Emacs-style table: the four common binding sets plus the
/// Emacs-specific control and alt bindings.
pub open spec fn emacs_default_bindings() -> Map<KeyCombination, NodeV> {
    selection_bindings(edit_bindings(navigation_bindings(control_bindings(Map::empty())))).insert(
        combo(KeyModifiers::spec_none(), KeyCode::Enter),
        NodeV::Event(EventV::Enter),
    ).insert(
        combo(KeyModifiers::spec_control(), KeyCode::Char('b')),
        NodeV::Event(EventV::UntilFound(seq![EventV::MenuLeft, EventV::Left])),
    ).insert(
        combo(KeyModifiers::spec_control(), KeyCode::Char('f')),
        NodeV::Event(
            EventV::UntilFound(seq![EventV::HistoryHintComplete, EventV::MenuRight, EventV::Right]),
        ),
    ).insert(
        combo(KeyModifiers::spec_control(), KeyCode::Char('g')),
        NodeV::Event(EventV::Edit(seq![EditCommand::Redo])),
    ).insert(
        combo(KeyModifiers::spec_control(), KeyCode::Char('z')),
        NodeV::Event(EventV::Edit(seq![EditCommand::Undo])),
    ).insert(
        combo(KeyModifiers::spec_control(), KeyCode::Char('y')),
        NodeV::Event(EventV::Edit(seq![EditCommand::PasteCutBufferBefore])),
    ).insert(
        combo(KeyModifiers::spec_control(), KeyCode::Char('w')),
        NodeV::Event(EventV::Edit(seq![EditCommand::CutWordLeft])),
    ).insert(
        combo(KeyModifiers::spec_control(), KeyCode::Char('k')),
        NodeV::Event(EventV::Edit(seq![EditCommand::CutToLineEnd])),
    ).insert(
        combo(KeyModifiers::spec_control(), KeyCode::Char('u')),
        NodeV::Event(EventV::Edit(seq![EditCommand::CutFromStart])),
    ).insert(
        combo(KeyModifiers::spec_alt(), KeyCode::Char('d')),
        NodeV::Event(EventV::Edit(seq![EditCommand::CutWordRight])),
    ).insert(
        combo(KeyModifiers::spec_control(), KeyCode::Char('t')),
        NodeV::Event(EventV::Edit(seq![EditCommand::SwapGraphemes])),
    ).insert(
        combo(KeyModifiers::spec_alt(), KeyCode::Left),
        NodeV::Event(EventV::Edit(seq![EditCommand::MoveWordLeft { select: false }])),
    ).insert(
        combo(KeyModifiers::spec_alt(), KeyCode::Right),
        NodeV::Event(
            EventV::UntilFound(
                seq![
                    EventV::HistoryHintWordComplete,
                    EventV::Edit(seq![EditCommand::MoveWordRight { select: false }]),
                ],
            ),
        ),
    ).insert(
        combo(KeyModifiers::spec_alt(), KeyCode::Char('b')),
        NodeV::Event(EventV::Edit(seq![EditCommand::MoveWordLeft { select: false }])),
    ).insert(
        combo(KeyModifiers::spec_alt(), KeyCode::Char('f')),
        NodeV::Event(
            EventV::UntilFound(
                seq![
                    EventV::HistoryHintWordComplete,
                    EventV::Edit(seq![EditCommand::MoveWordRight { select: false }]),
                ],
            ),
        ),
    ).insert(
        combo(KeyModifiers::spec_alt(), KeyCode::Delete),
        NodeV::Event(EventV::Edit(seq![EditCommand::DeleteWord])),
    ).insert(
        combo(KeyModifiers::spec_alt(), KeyCode::Backspace),
        NodeV::Event(EventV::Edit(seq![EditCommand::BackspaceWord])),
    ).insert(
        combo(KeyModifiers::spec_alt(), KeyCode::Char('m')),
        NodeV::Event(EventV::Edit(seq![EditCommand::BackspaceWord])),
    ).insert(
        combo(KeyModifiers::spec_alt(), KeyCode::Char('u')),
        NodeV::Event(EventV::Edit(seq![EditCommand::UppercaseWord])),
    ).insert(
        combo(KeyModifiers::spec_alt(), KeyCode::Char('l')),
        NodeV::Event(EventV::Edit(seq![EditCommand::LowercaseWord])),
    ).insert(
        combo(KeyModifiers::spec_alt(), KeyCode::Char('c')),
        NodeV::Event(EventV::Edit(seq![EditCommand::CapitalizeChar])),
    )
}

/// Returns the current default emacs keybindings
pub fn default_emacs_keybindings() -> (r: Keybindings)
    ensures
        r.wf(),
        r@ == emacs_default_bindings(),
{
    let mut kb = Keybindings::new();
    add_common_control_bindings(&mut kb);
    add_common_navigation_bindings(&mut kb);
    add_common_edit_bindings(&mut kb);
    add_common_selection_bindings(&mut kb);

    // This could be in common, but in Vi it also changes the mode
    kb.bind_single(KeyModifiers::none(), KeyCode::Enter, ReedlineEvent::Enter);

    // Moves
    kb.bind_single(
        KeyModifiers::control(),
        KeyCode::Char('b'),
        until_found2(ReedlineEvent::MenuLeft, ReedlineEvent::Left),
    );
    kb.bind_single(
        KeyModifiers::control(),
        KeyCode::Char('f'),
        until_found3(
            ReedlineEvent::HistoryHintComplete,
            ReedlineEvent::MenuRight,
            ReedlineEvent::Right,
        ),
    );
    // Undo/Redo
    kb.bind_single(KeyModifiers::control(), KeyCode::Char('g'), edit_bind(EditCommand::Redo));
    kb.bind_single(KeyModifiers::control(), KeyCode::Char('z'), edit_bind(EditCommand::Undo));
    // Cutting
    kb.bind_single(
        KeyModifiers::control(),
        KeyCode::Char('y'),
        edit_bind(EditCommand::PasteCutBufferBefore),
    );
    kb.bind_single(
        KeyModifiers::control(),
        KeyCode::Char('w'),
        edit_bind(EditCommand::CutWordLeft),
    );
    kb.bind_single(
        KeyModifiers::control(),
        KeyCode::Char('k'),
        edit_bind(EditCommand::CutToLineEnd),
    );
    kb.bind_single(
        KeyModifiers::control(),
        KeyCode::Char('u'),
        edit_bind(EditCommand::CutFromStart),
    );
    kb.bind_single(KeyModifiers::alt(), KeyCode::Char('d'), edit_bind(EditCommand::CutWordRight));
    // Edits
    kb.bind_single(
        KeyModifiers::control(),
        KeyCode::Char('t'),
        edit_bind(EditCommand::SwapGraphemes),
    );
    // Alt moves
    kb.bind_single(
        KeyModifiers::alt(),
        KeyCode::Left,
        edit_bind(EditCommand::MoveWordLeft { select: false }),
    );
    kb.bind_single(
        KeyModifiers::alt(),
        KeyCode::Right,
        until_found2(
            ReedlineEvent::HistoryHintWordComplete,
            edit_bind(EditCommand::MoveWordRight { select: false }),
        ),
    );
    kb.bind_single(
        KeyModifiers::alt(),
        KeyCode::Char('b'),
        edit_bind(EditCommand::MoveWordLeft { select: false }),
    );
    kb.bind_single(
        KeyModifiers::alt(),
        KeyCode::Char('f'),
        until_found2(
            ReedlineEvent::HistoryHintWordComplete,
            edit_bind(EditCommand::MoveWordRight { select: false }),
        ),
    );
    // Alt edits
    kb.bind_single(KeyModifiers::alt(), KeyCode::Delete, edit_bind(EditCommand::DeleteWord));
    kb.bind_single(KeyModifiers::alt(), KeyCode::Backspace, edit_bind(EditCommand::BackspaceWord));
    kb.bind_single(KeyModifiers::alt(), KeyCode::Char('m'), edit_bind(EditCommand::BackspaceWord));
    // Case changes
    kb.bind_single(KeyModifiers::alt(), KeyCode::Char('u'), edit_bind(EditCommand::UppercaseWord));
    kb.bind_single(KeyModifiers::alt(), KeyCode::Char('l'), edit_bind(EditCommand::LowercaseWord));
    kb.bind_single(KeyModifiers::alt(), KeyCode::Char('c'), edit_bind(EditCommand::CapitalizeChar));

    kb
}

/// This parses the incoming events like an emacs-style editor: one table,
/// the sequence matcher per key, literal insertion as the fallback.
#[derive(Debug)]
pub struct Emacs {
    pub keybindings: Keybindings,
    pub partial_key_sequence: Option<PartialKeySequence>,
}

impl Default for Emacs {
    fn default() -> (r: Self)
        ensures
            r.inv(),
            r.keybindings@ == emacs_default_bindings(),
            r.partial_key_sequence is None,
    {
        Emacs { keybindings: default_emacs_keybindings(), partial_key_sequence: None }
    }
}

impl Emacs {
    /// Emacs style input parsing constructor if you want to use custom
    /// keybindings.
    pub fn new(keybindings: Keybindings) -> (r: Self)
        ensures
            r.keybindings@ == keybindings@,
            r.partial_key_sequence is None,
            keybindings.wf() ==> r.inv(),
    {
        Emacs { keybindings, partial_key_sequence: None }
    }

    /// Reinterpret a cancelled key history: literal characters insert, other
    /// keys are looked up once more as single top-level bindings.
    #[verifier::loop_isolation(false)]
    fn cancel_key_sequence(&self, keycombinations: Vec<KeyCombination>) -> (r: ReedlineEvent)
        requires
            self.inv(),
        ensures
            r@ == EventV::Multiple(replay_keys(self.keybindings@, keycombinations@, true)),
    {
        let ghost table = self.keybindings@;
        let ghost keys = keycombinations@;
        let mut events: Vec<ReedlineEvent> = Vec::new();
        let mut i: usize = 0;
        proof {
            assert(keys.subrange(0, keys.len() as int) =~= keys);
            assert(events_view(events@) + replay_keys(table, keys, true) =~= replay_keys(
                table,
                keys,
                true,
            ));
        }
        while i < keycombinations.len()
            invariant
                i <= keys.len(),
                replay_keys(table, keys, true) == events_view(events@) + replay_keys(
                    table,
                    keys.subrange(i as int, keys.len() as int),
                    true,
                ),
            decreases keys.len() - i,
        {
            let kc = keycombinations[i];
            let ghost rest = keys.subrange(i as int, keys.len() as int);
            proof {
                assert(rest[0] == kc);
                assert(rest.drop_first() =~= keys.subrange(i + 1, keys.len() as int));
            }
            let is_literal_char = match kc.key_code {
                KeyCode::Char(_) => true,
                _ => false,
            };
            if is_literal_char && (kc.modifier == KeyModifiers::none() || kc.modifier
                == KeyModifiers::shift()) {
                let c = match kc.key_code {
                    KeyCode::Char(c) => c,
                    _ => ' ',
                };
                let ev = edit_bind(EditCommand::InsertChar(c));
                proof {
                    lemma_events_view(events@.push(ev));
                    lemma_events_view(events@);
                    assert(events_view(events@.push(ev)) =~= events_view(events@) + seq![ev@]);
                }
                events.push(ev);
            } else {
                match self.keybindings.find_binding(kc.modifier, to_lowercase_key_code(kc.key_code))
                {
                    Some(KeyNode::Event(event)) => {
                        proof {
                            lemma_events_view(events@.push(event));
                            lemma_events_view(events@);
                            assert(events_view(events@.push(event)) =~= events_view(events@)
                                + seq![event_view(event)]);
                        }
                        events.push(event);
                    },
                    // a nested table reappearing here is a configuration
                    // bug; the key is swallowed rather than misread
                    Some(KeyNode::Sequence(_)) => {},
                    None => {},
                }
            }
            i = i + 1;
        }
        proof {
            assert(keys.subrange(keys.len() as int, keys.len() as int) =~= Seq::<
                KeyCombination,
            >::empty());
            assert(events_view(events@) + Seq::<EventV>::empty() =~= events_view(events@));
        }
        ReedlineEvent::Multiple(events)
    }

    /// One key through the driver: a pending matcher consumes it, otherwise
    /// a fresh match starts at the root, and an unbound key inserts its
    /// literal character (respecting shift case) or is swallowed.
    fn handle_binding(&mut self, kc: KeyCombination) -> (r: Option<ReedlineEvent>)
        requires
            old(self).inv(),
        ensures
            final(self).inv(),
            final(self).keybindings@ == old(self).keybindings@,
            ({
                let (ev_out, partial_out) = flat_dispatch(
                    old(self).keybindings@,
                    partial_view(old(self).partial_key_sequence),
                    kc,
                );
                &&& option_event_view(r) == ev_out
                &&& partial_view(final(self).partial_key_sequence) == partial_out
            }),
    {
        let mut partial_opt: Option<PartialKeySequence> = None;
        core::mem::swap(&mut partial_opt, &mut self.partial_key_sequence);
        let mut partial = match partial_opt {
            Some(p) => p,
            None => {
                match self.keybindings.find_binding(
                    kc.modifier,
                    to_lowercase_key_code(kc.key_code),
                ) {
                    Some(key_node) => {
                        let mut entries: Vec<(KeyCombination, KeyNode)> = Vec::new();
                        entries.push((kc, key_node));
                        proof {
                            assert(entries@.drop_last() =~= Seq::<
                                (KeyCombination, KeyNode),
                            >::empty());
                            assert(entries@.last() == (kc, key_node));
                            assert(crate::keybindings::entries_view(
                                Seq::<(KeyCombination, KeyNode)>::empty(),
                            ) == Map::<KeyCombination, NodeV>::empty());
                            assert(node_view(key_node) == old(self).keybindings@[combo(
                                kc.modifier,
                                spec_lower_key_code(kc.key_code),
                            )]);
                            assert(crate::keybindings::entries_view(entries@)
                                == Map::<KeyCombination, NodeV>::empty().insert(
                                kc,
                                old(self).keybindings@[combo(
                                    kc.modifier,
                                    spec_lower_key_code(kc.key_code),
                                )],
                            ));
                        }
                        PartialKeySequence::new(Sequence { entries })
                    },
                    None => {
                        return match kc.key_code {
                            KeyCode::Char(c) => {
                                if kc.modifier == KeyModifiers::none() {
                                    Some(edit_bind(EditCommand::InsertChar(c)))
                                } else if kc.modifier == KeyModifiers::shift() {
                                    Some(edit_bind(EditCommand::InsertChar(upper_char(c))))
                                } else {
                                    None
                                }
                            },
                            _ => None,
                        };
                    },
                }
            },
        };
        match partial.advance(kc) {
            KeySequenceResult::Pending => {
                self.partial_key_sequence = Some(partial);
                None
            },
            KeySequenceResult::Matched(reedline_event) => Some(reedline_event),
            KeySequenceResult::Cancelled(keycombinations) => {
                Some(self.cancel_key_sequence(keycombinations))
            },
        }
    }
}

impl EditMode for Emacs {
    open spec fn inv(&self) -> bool {
        &&& self.keybindings.wf()
        &&& (self.partial_key_sequence matches Some(p) ==> p.wf())
    }

    fn parse_event(&mut self, _line_buffer: &LineBuffer, event: ReedlineRawEvent) -> (r:
        ReedlineEvent)
        ensures
            final(self).keybindings@ == old(self).keybindings@,
            event matches ReedlineRawEvent::Key(kc) ==> {
                let (ev_out, partial_out) = flat_dispatch(
                    old(self).keybindings@,
                    partial_view(old(self).partial_key_sequence),
                    kc,
                );
                &&& r@ == (match ev_out {
                    Some(v) => v,
                    None => EventV::NoOp,
                })
                &&& partial_view(final(self).partial_key_sequence) == partial_out
            },
            event is Mouse ==> r@ == EventV::Mouse,
            event matches ReedlineRawEvent::Resize(w, h) ==> r@ == EventV::Resize(w, h),
            event is FocusGained || event is FocusLost ==> r@ == EventV::NoOp,
            event matches ReedlineRawEvent::Paste(body) ==> (r@ matches EventV::Edit(cs) && {
                &&& cs.len() == 1
                &&& cs[0] matches EditCommand::InsertString(out) && out@ == normalize_line_endings(
                    body@,
                )
            }),
    {
        match event {
            ReedlineRawEvent::Key(kc) => match self.handle_binding(kc) {
                Some(ev) => ev,
                None => ReedlineEvent::NoOp,
            },
            ReedlineRawEvent::Mouse => ReedlineEvent::Mouse,
            ReedlineRawEvent::Resize(width, height) => ReedlineEvent::Resize(width, height),
            ReedlineRawEvent::FocusGained => ReedlineEvent::NoOp,
            ReedlineRawEvent::FocusLost => ReedlineEvent::NoOp,
            ReedlineRawEvent::Paste(body) => {
                let normalized = normalize_line_endings_str(body.as_str());
                let r = ReedlineEvent::Edit(vec![EditCommand::InsertString(normalized)]);
                proof {
                    assert(r@ matches EventV::Edit(cs) && cs =~= seq![
                        EditCommand::InsertString(normalized),
                    ]);
                }
                r
            },
        }
    }

    fn edit_mode(&self) -> (r: PromptEditMode)
        ensures
            r == PromptEditMode::Emacs,
    {
        PromptEditMode::Emacs
    }
}

} // verus!
