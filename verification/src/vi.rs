//! The Vi-style mode driver: Normal/Insert/Visual sub-modes, the sequence
//! matcher for bound keys, and the character queue feeding the grammar
//! parser.

use vstd::prelude::*;

verus! {

use crate::base::EditMode;
use crate::events::{
    EditCommand, EventV, PromptEditMode, PromptViMode, ReedlineEvent, ReedlineRawEvent,
    clone_command, clone_event, edit_bind, event_view, events_view, lemma_events_view,
    option_event_view,
};
use crate::keybindings::{
    KeyNode, KeySequenceResult, Keybindings, NodeV, PartialKeySequence, Sequence, combo,
    control_bindings, edit_bindings, navigation_bindings, node_view, partial_view, replay_keys,
    selection_bindings, add_common_control_bindings, add_common_edit_bindings,
    add_common_navigation_bindings, add_common_selection_bindings,
};
use crate::keys::{KeyCode, KeyCombination, KeyModifiers, lower_char, spec_lower_key_code,
    spec_lower_char, spec_upper_char, to_lowercase_key_code, upper_char};
use crate::line_buffer::LineBuffer;
use crate::text::{normalize_line_endings, normalize_line_endings_str};
use crate::vi_command::{Command, cmd_motion_options, cmd_options};
use crate::vi_parser::{
    Motion, MotionResult, ParsedViSequence, ReedlineOption, ReedlineOptionV, ViCharSearch,
    char_search_after, lemma_options_view, motion_options, options_view, parse, spec_parse,
};

/// The Vi sub-mode.
#[derive(Clone, Copy, Debug, PartialEq, Eq, Structural)]
pub enum ViMode {
    Normal,
    Insert,
    Visual,
}

/// This parses incoming input events like a Vi-style editor.
#[derive(Debug)]
pub struct Vi {
    /// The raw character queue handed to the grammar parser.
    pub cache: Vec<char>,
    pub insert_keybindings: Keybindings,
    pub normal_keybindings: Keybindings,
    pub mode: ViMode,
    /// The most recently emitted grammar event, replayed by `.`.
    pub previous: Option<ReedlineEvent>,
    /// The last `f`/`F`/`t`/`T` search, replayed by `;` and `,`.
    pub last_char_search: Option<ViCharSearch>,
    pub partial_key_sequence: Option<PartialKeySequence>,
}

/// The default Vi Normal/Visual-mode table.
pub open spec fn vi_normal_default_bindings() -> Map<KeyCombination, NodeV> {
    selection_bindings(navigation_bindings(control_bindings(Map::empty())))
}

/// The default Vi Insert-mode table.
pub open spec fn vi_insert_default_bindings() -> Map<KeyCombination, NodeV> {
    selection_bindings(edit_bindings(navigation_bindings(control_bindings(Map::empty()))))
}

/// Default Vi normal keybindings: the common control, navigation and
/// selection bindings.
pub fn default_vi_normal_keybindings() -> (r: Keybindings)
    ensures
        r.wf(),
        r@ == vi_normal_default_bindings(),
{
    let mut kb = Keybindings::new();
    add_common_control_bindings(&mut kb);
    add_common_navigation_bindings(&mut kb);
    add_common_selection_bindings(&mut kb);
    kb
}

/// Default Vi insert keybindings: the common control, navigation, edit and
/// selection bindings.
pub fn default_vi_insert_keybindings() -> (r: Keybindings)
    ensures
        r.wf(),
        r@ == vi_insert_default_bindings(),
{
    let mut kb = Keybindings::new();
    add_common_control_bindings(&mut kb);
    add_common_navigation_bindings(&mut kb);
    add_common_edit_bindings(&mut kb);
    add_common_selection_bindings(&mut kb);
    kb
}

/// One step of the matcher inside a modal driver: an event leaf matches, a
/// nested table keeps the matcher pending, and an unbound key cancels and
/// replays the history (literal characters insert only in insert mode).
pub open spec fn vi_advance(
    table: Map<KeyCombination, NodeV>,
    cursor: Map<KeyCombination, NodeV>,
    history: Seq<KeyCombination>,
    kc: KeyCombination,
    insert_literals: bool,
) -> (Option<EventV>, Option<(Map<KeyCombination, NodeV>, Seq<KeyCombination>)>) {
    if cursor.contains_key(kc) {
        match cursor[kc] {
            NodeV::Event(ev) => (Some(ev), None),
            NodeV::Table(m) => (None, Some((m, history.push(kc)))),
        }
    } else {
        (Some(EventV::Multiple(replay_keys(table, history.push(kc), insert_literals))), None)
    }
}

/// One key through the Vi matcher: a pending matcher consumes it; otherwise
/// the key starts a fresh match at the table root (looked up with a
/// lowercased character). In insert mode an unbound character key types
/// itself; in the other modes an unbound key is left to the grammar.
pub open spec fn vi_dispatch(
    table: Map<KeyCombination, NodeV>,
    partial: Option<(Map<KeyCombination, NodeV>, Seq<KeyCombination>)>,
    kc: KeyCombination,
    insert_mode: bool,
) -> (Option<EventV>, Option<(Map<KeyCombination, NodeV>, Seq<KeyCombination>)>) {
    match partial {
        Some((cursor, history)) => vi_advance(table, cursor, history, kc, insert_mode),
        None => {
            let lk = combo(kc.modifier, spec_lower_key_code(kc.key_code));
            if table.contains_key(lk) {
                vi_advance(table, Map::empty().insert(kc, table[lk]), Seq::empty(), kc, insert_mode)
            } else if insert_mode && kc.key_code is Char {
                (Some(EventV::Edit(seq![EditCommand::InsertChar(kc.key_code->Char_0)])), None)
            } else {
                (None, None)
            }
        },
    }
}

/// The given edit command repeated `n` times.
pub open spec fn repeat_cmd(e: EditCommand, n: nat) -> Seq<EditCommand> {
    Seq::new(n, |i: int| e)
}

/// The events a list of options becomes: each edit command is repeated by
/// the combined count inside a single edit event; plain events pass
/// through; incomplete markers vanish.
pub open spec fn event_of_options(opts: Seq<ReedlineOptionV>, total: nat) -> Seq<EventV>
    decreases opts,
{
    if opts.len() == 0 {
        Seq::empty()
    } else {
        let rest = event_of_options(opts.drop_first(), total);
        match opts[0] {
            ReedlineOptionV::Edit(e) => seq![EventV::Edit(repeat_cmd(e, total))] + rest,
            ReedlineOptionV::Event(ev) => seq![ev] + rest,
            ReedlineOptionV::Incomplete => rest,
        }
    }
}

/// The single event a list of events collapses to: none is a no-op, one
/// stands alone, several make a composite; entering insert mode appends a
/// repaint so the mode indicator refreshes.
pub open spec fn finalize_events(events: Seq<EventV>, append_repaint: bool) -> EventV {
    let all = if append_repaint {
        events.push(EventV::Repaint)
    } else {
        events
    };
    if all.len() == 0 {
        EventV::NoOp
    } else if all.len() == 1 {
        all[0]
    } else {
        EventV::Multiple(all)
    }
}

impl ParsedViSequence {
    /// Whether the parse forms a whole command that can be executed now.
    pub open spec fn spec_is_complete(self, mode: ViMode) -> bool {
        match (self.command, self.motion) {
            (None, MotionResult::Valid(_)) => true,
            (Some(Command::Incomplete), _) => false,
            (Some(cmd), MotionResult::Valid(_)) => cmd.spec_requires_motion(),
            (Some(cmd), MotionResult::Incomplete) => if cmd.spec_requires_motion() {
                mode == ViMode::Visual
            } else {
                true
            },
            _ => false,
        }
    }

    pub fn is_complete(&self, mode: ViMode) -> (r: bool)
        ensures
            r == self.spec_is_complete(mode),
    {
        match (self.command, self.motion) {
            (None, MotionResult::Valid(_)) => true,
            (Some(Command::Incomplete), _) => false,
            (Some(cmd), MotionResult::Valid(_)) => cmd.requires_motion(),
            (Some(cmd), MotionResult::Incomplete) => {
                if cmd.requires_motion() {
                    matches!(mode, ViMode::Visual)
                } else {
                    true
                }
            },
            _ => false,
        }
    }

    /// The sub-mode the command switches to, if any: the insert-entering
    /// commands and the change operator move to insert mode.
    pub open spec fn spec_changes_mode(self) -> Option<ViMode> {
        match self.command {
            Some(Command::EnterViInsert) => Some(ViMode::Insert),
            Some(Command::EnterViAppend) => Some(ViMode::Insert),
            Some(Command::AppendToEnd) => Some(ViMode::Insert),
            Some(Command::PrependToStart) => Some(ViMode::Insert),
            Some(Command::RewriteCurrentLine) => Some(ViMode::Insert),
            Some(Command::SubstituteCharWithInsert) => Some(ViMode::Insert),
            Some(Command::ChangeToLineEnd) => Some(ViMode::Insert),
            Some(Command::Change) => Some(ViMode::Insert),
            Some(Command::ChangeInside(c)) => if crate::vi_command::spec_valid_change_inside_left(c)
                || crate::vi_command::spec_valid_change_inside_right(c) {
                Some(ViMode::Insert)
            } else {
                None
            },
            _ => None,
        }
    }

    pub fn changes_mode(&self) -> (r: Option<ViMode>)
        ensures
            r == self.spec_changes_mode(),
    {
        match self.command {
            Some(Command::EnterViInsert)
            | Some(Command::EnterViAppend)
            | Some(Command::AppendToEnd)
            | Some(Command::PrependToStart)
            | Some(Command::RewriteCurrentLine)
            | Some(Command::SubstituteCharWithInsert)
            | Some(Command::ChangeToLineEnd)
            | Some(Command::Change) => Some(ViMode::Insert),
            Some(Command::ChangeInside(c)) => {
                if crate::vi_command::is_valid_change_inside_left(&c)
                    || crate::vi_command::is_valid_change_inside_right(&c) {
                    Some(ViMode::Insert)
                } else {
                    None
                }
            },
            _ => None,
        }
    }

    /// Whether the translation appends its own repaint: it does whenever
    /// the command enters insert mode, except where the options already end
    /// in one (plain `i`, and the change operator with a motion).
    pub open spec fn spec_appends_repaint(self) -> bool {
        &&& self.spec_changes_mode() == Some(ViMode::Insert)
        &&& self.command != Some(Command::EnterViInsert)
        &&& !(self.command matches Some(cmd) && cmd.spec_requires_motion() && self.motion is Valid)
    }

    /// The options of the whole parsed sequence, if the combination means
    /// anything.
    pub open spec fn seq_options(
        self,
        previous: Option<EventV>,
        last: Option<ViCharSearch>,
    ) -> Option<Seq<ReedlineOptionV>> {
        match (self.command, self.motion) {
            (Some(cmd), MotionResult::Incomplete) => Some(cmd_options(cmd, previous)),
            (Some(cmd), MotionResult::Valid(m)) => if cmd.spec_requires_motion() {
                cmd_motion_options(cmd, m, last)
            } else {
                None
            },
            (None, MotionResult::Valid(m)) => Some(motion_options(m, last)),
            _ => None,
        }
    }

    /// The remembered character search after this sequence runs.
    pub open spec fn search_update(self, last: Option<ViCharSearch>) -> Option<ViCharSearch> {
        match (self.command, self.motion) {
            (Some(cmd), MotionResult::Valid(m)) => if cmd.spec_requires_motion() {
                char_search_after(m, last)
            } else {
                last
            },
            (None, MotionResult::Valid(m)) => char_search_after(m, last),
            _ => last,
        }
    }

    /// The event a complete sequence emits.
    pub open spec fn spec_event(
        self,
        previous: Option<EventV>,
        last: Option<ViCharSearch>,
    ) -> EventV {
        match self.seq_options(previous, last) {
            Some(opts) => finalize_events(
                event_of_options(opts, self.spec_total_multiplier()),
                self.spec_appends_repaint(),
            ),
            None => EventV::NoOp,
        }
    }

    /// Translate the parsed sequence into the event to emit, recording any
    /// character search in the driver. Everything else in the driver is
    /// left untouched.
    pub fn to_reedline_event(&self, vi_state: &mut Vi) -> (r: ReedlineEvent)
        requires
            self.wf_counts(),
        ensures
            r@ == self.spec_event(
                option_event_view(old(vi_state).previous),
                old(vi_state).last_char_search,
            ),
            *final(vi_state) == (Vi {
                last_char_search: self.search_update(old(vi_state).last_char_search),
                ..*old(vi_state)
            }),
    {
        let total = self.total_multiplier();
        let options_opt: Option<Vec<ReedlineOption>> = match (self.command, self.motion) {
            (Some(cmd), MotionResult::Incomplete) => Some(cmd.to_reedline(vi_state)),
            (Some(cmd), MotionResult::Valid(m)) => {
                if cmd.requires_motion() {
                    cmd.to_reedline_with_motion(&m, vi_state)
                } else {
                    None
                }
            },
            (None, MotionResult::Valid(m)) => Some(m.to_reedline(vi_state)),
            _ => None,
        };
        let ghost prevv = option_event_view(old(vi_state).previous);
        let ghost lastv = old(vi_state).last_char_search;
        match options_opt {
            Some(options) => {
                proof {
                    assert(self.seq_options(prevv, lastv) == Some(options_view(options@)));
                }
                let mut events = options_to_events(&options, total);
                let ghost base = events_view(events@);
                proof {
                    assert(base == event_of_options(
                        options_view(options@),
                        self.spec_total_multiplier(),
                    ));
                }
                let append = self.changes_mode().is_some() && !matches!(
                    self.command,
                    Some(Command::EnterViInsert),
                ) && !(match (self.command, self.motion) {
                    (Some(cmd), MotionResult::Valid(_)) => cmd.requires_motion(),
                    _ => false,
                });
                proof {
                    assert(self.spec_changes_mode() is Some ==> self.spec_changes_mode() == Some(
                        ViMode::Insert,
                    ));
                    assert(append == self.spec_appends_repaint());
                }
                if append {
                    let ghost pre = events@;
                    events.push(ReedlineEvent::Repaint);
                    proof {
                        assert(events@ =~= pre.push(ReedlineEvent::Repaint));
                        lemma_events_view(events@);
                        lemma_events_view(pre);
                        assert(events_view(events@) =~= events_view(pre).push(EventV::Repaint));
                        assert(events_view(events@) == base.push(EventV::Repaint));
                    }
                }
                proof {
                    lemma_events_view(events@);
                    assert(events_view(events@) == (if self.spec_appends_repaint() {
                        base.push(EventV::Repaint)
                    } else {
                        base
                    }));
                    assert(self.spec_event(prevv, lastv) == finalize_events(
                        base,
                        self.spec_appends_repaint(),
                    ));
                }
                if events.len() == 0 {
                    proof {
                        assert(events_view(events@).len() == 0);
                    }
                    ReedlineEvent::NoOp
                } else if events.len() == 1 {
                    let ghost evs = events@;
                    let single = events.remove(0);
                    proof {
                        assert(single == evs[0]);
                        assert(event_view(single) == events_view(evs)[0]);
                    }
                    single
                } else {
                    ReedlineEvent::Multiple(events)
                }
            },
            None => ReedlineEvent::NoOp,
        }
    }
}

/// The edit command repeated `total` times, as a vector.
pub(crate) fn repeat_command_vec(e: &EditCommand, total: u64) -> (r: Vec<EditCommand>)
    ensures
        r@ == repeat_cmd(*e, total as nat),
{
    let mut r: Vec<EditCommand> = Vec::new();
    let mut j: u64 = 0;
    while j < total
        invariant
            j <= total,
            r@ =~= repeat_cmd(*e, j as nat),
        decreases total - j,
    {
        r.push(clone_command(e));
        proof {
            assert(r@ =~= repeat_cmd(*e, (j + 1) as nat));
        }
        j = j + 1;
    }
    r
}

/// Turn the options of a parsed sequence into events, applying the repeat
/// count to every edit command.
#[verifier::loop_isolation(false)]
fn options_to_events(options: &Vec<ReedlineOption>, total: u64) -> (r: Vec<ReedlineEvent>)
    ensures
        events_view(r@) == event_of_options(options_view(options@), total as nat),
{
    let ghost all = options_view(options@);
    let mut events: Vec<ReedlineEvent> = Vec::new();
    let mut i: usize = 0;
    proof {
        lemma_options_view(options@);
        assert(all.subrange(0, all.len() as int) =~= all);
        assert(events_view(events@) + event_of_options(all, total as nat) =~= event_of_options(
            all,
            total as nat,
        ));
    }
    while i < options.len()
        invariant
            i <= options@.len(),
            event_of_options(all, total as nat) == events_view(events@) + event_of_options(
                all.subrange(i as int, all.len() as int),
                total as nat,
            ),
        decreases options@.len() - i,
    {
        let ghost rest = all.subrange(i as int, all.len() as int);
        proof {
            assert(rest[0] == all[i as int]);
            assert(all[i as int] == options@[i as int]@);
            assert(rest.drop_first() =~= all.subrange(i + 1, all.len() as int));
        }
        match &options[i] {
            ReedlineOption::Edit(e) => {
                let ev = ReedlineEvent::Edit(repeat_command_vec(e, total));
                proof {
                    lemma_events_view(events@.push(ev));
                    lemma_events_view(events@);
                    assert(events_view(events@.push(ev)) =~= events_view(events@) + seq![ev@]);
                }
                events.push(ev);
            },
            ReedlineOption::Event(ev) => {
                let c = clone_event(ev);
                proof {
                    lemma_events_view(events@.push(c));
                    lemma_events_view(events@);
                    assert(events_view(events@.push(c)) =~= events_view(events@) + seq![c@]);
                }
                events.push(c);
            },
            ReedlineOption::Incomplete => {},
        }
        i = i + 1;
    }
    proof {
        assert(all.subrange(all.len() as int, all.len() as int) =~= Seq::<ReedlineOptionV>::empty());
        assert(events_view(events@) + Seq::<EventV>::empty() =~= events_view(events@));
    }
    events
}

impl Vi {
    /// The table the active sub-mode consults: Normal and Visual share one,
    /// Insert has its own.
    pub open spec fn active_table(self) -> Map<KeyCombination, NodeV> {
        match self.mode {
            ViMode::Normal => self.normal_keybindings@,
            ViMode::Visual => self.normal_keybindings@,
            ViMode::Insert => self.insert_keybindings@,
        }
    }

    /// Creates a Vi editor using the given keybindings.
    pub fn new(insert_keybindings: Keybindings, normal_keybindings: Keybindings) -> (r: Self)
        ensures
            r.insert_keybindings@ == insert_keybindings@,
            r.normal_keybindings@ == normal_keybindings@,
            r.cache@ == Seq::<char>::empty(),
            r.mode == ViMode::Insert,
            r.previous is None,
            r.last_char_search is None,
            r.partial_key_sequence is None,
            insert_keybindings.wf() && normal_keybindings.wf() ==> r.inv(),
    {
        Self {
            cache: Vec::new(),
            insert_keybindings,
            normal_keybindings,
            mode: ViMode::Insert,
            previous: None,
            last_char_search: None,
            partial_key_sequence: None,
        }
    }

    fn active_bindings(&self) -> (r: &Keybindings)
        ensures
            r@ == self.active_table(),
            self.inv() ==> r.wf(),
    {
        match self.mode {
            ViMode::Normal => &self.normal_keybindings,
            ViMode::Visual => &self.normal_keybindings,
            ViMode::Insert => &self.insert_keybindings,
        }
    }

    /// Reinterpret a cancelled key history: literal characters insert (in
    /// insert mode only), other keys are looked up once more as single
    /// top-level bindings.
    #[verifier::loop_isolation(false)]
    fn cancel_key_sequence(&self, keycombinations: Vec<KeyCombination>) -> (r: ReedlineEvent)
        requires
            self.inv(),
        ensures
            r@ == EventV::Multiple(
                replay_keys(self.active_table(), keycombinations@, self.mode is Insert),
            ),
    {
        let ghost table = self.active_table();
        let ghost keys = keycombinations@;
        let ghost ins = self.mode is Insert;
        let insert_mode = matches!(self.mode, ViMode::Insert);
        let mut events: Vec<ReedlineEvent> = Vec::new();
        let mut i: usize = 0;
        proof {
            assert(keys.subrange(0, keys.len() as int) =~= keys);
            assert(events_view(events@) + replay_keys(table, keys, ins) =~= replay_keys(
                table,
                keys,
                ins,
            ));
        }
        while i < keycombinations.len()
            invariant
                i <= keys.len(),
                replay_keys(table, keys, ins) == events_view(events@) + replay_keys(
                    table,
                    keys.subrange(i as int, keys.len() as int),
                    ins,
                ),
            decreases keys.len() - i,
        {
            let kc = keycombinations[i];
            let ghost rest = keys.subrange(i as int, keys.len() as int);
            proof {
                assert(rest[0] == kc);
                assert(rest.drop_first() =~= keys.subrange(i + 1, keys.len() as int));
            }
            let is_literal_char = matches!(kc.key_code, KeyCode::Char(_)) && (kc.modifier
                == KeyModifiers::none() || kc.modifier == KeyModifiers::shift());
            if is_literal_char {
                if insert_mode {
                    let c = match kc.key_code {
                        KeyCode::Char(c) => c,
                        _ => ' ',
                    };
                    let ev = edit_bind(EditCommand::InsertChar(c));
                    proof {
                        lemma_events_view(events@.push(ev));
                        lemma_events_view(events@);
                        assert(events_view(events@.push(ev)) =~= events_view(events@) + seq![ev@]);
                    }
                    events.push(ev);
                }
            } else {
                match self.active_bindings().find_binding(
                    kc.modifier,
                    to_lowercase_key_code(kc.key_code),
                ) {
                    Some(KeyNode::Event(event)) => {
                        proof {
                            lemma_events_view(events@.push(event));
                            lemma_events_view(events@);
                            assert(events_view(events@.push(event)) =~= events_view(events@)
                                + seq![event_view(event)]);
                        }
                        events.push(event);
                    },
                    // a nested table reappearing here is a configuration
                    // bug; the key is swallowed rather than misread
                    Some(KeyNode::Sequence(_)) => {},
                    None => {},
                }
            }
            i = i + 1;
        }
        proof {
            assert(keys.subrange(keys.len() as int, keys.len() as int) =~= Seq::<
                KeyCombination,
            >::empty());
            assert(events_view(events@) + Seq::<EventV>::empty() =~= events_view(events@));
        }
        ReedlineEvent::Multiple(events)
    }

    /// One key through the matcher of the active table.
    fn handle_binding(&mut self, kc: KeyCombination) -> (r: Option<ReedlineEvent>)
        requires
            old(self).inv(),
        ensures
            final(self).inv(),
            ({
                let (ev_out, partial_out) = vi_dispatch(
                    old(self).active_table(),
                    partial_view(old(self).partial_key_sequence),
                    kc,
                    old(self).mode is Insert,
                );
                &&& option_event_view(r) == ev_out
                &&& partial_view(final(self).partial_key_sequence) == partial_out
            }),
            final(self).cache == old(self).cache,
            final(self).mode == old(self).mode,
            final(self).previous == old(self).previous,
            final(self).last_char_search == old(self).last_char_search,
            final(self).insert_keybindings == old(self).insert_keybindings,
            final(self).normal_keybindings == old(self).normal_keybindings,
    {
        let mut partial_opt: Option<PartialKeySequence> = None;
        core::mem::swap(&mut partial_opt, &mut self.partial_key_sequence);
        let mut partial = match partial_opt {
            Some(p) => p,
            None => {
                match self.active_bindings().find_binding(
                    kc.modifier,
                    to_lowercase_key_code(kc.key_code),
                ) {
                    Some(key_node) => {
                        let mut entries: Vec<(KeyCombination, KeyNode)> = Vec::new();
                        entries.push((kc, key_node));
                        proof {
                            assert(entries@.drop_last() =~= Seq::<
                                (KeyCombination, KeyNode),
                            >::empty());
                            assert(entries@.last() == (kc, key_node));
                            assert(crate::keybindings::entries_view(
                                Seq::<(KeyCombination, KeyNode)>::empty(),
                            ) == Map::<KeyCombination, NodeV>::empty());
                            assert(node_view(key_node) == old(self).active_table()[combo(
                                kc.modifier,
                                spec_lower_key_code(kc.key_code),
                            )]);
                            assert(crate::keybindings::entries_view(entries@)
                                == Map::<KeyCombination, NodeV>::empty().insert(
                                kc,
                                old(self).active_table()[combo(
                                    kc.modifier,
                                    spec_lower_key_code(kc.key_code),
                                )],
                            ));
                        }
                        PartialKeySequence::new(Sequence { entries })
                    },
                    None => {
                        return if matches!(self.mode, ViMode::Insert) {
                            match kc.key_code {
                                KeyCode::Char(c) => Some(edit_bind(EditCommand::InsertChar(c))),
                                _ => None,
                            }
                        } else {
                            None
                        };
                    },
                }
            },
        };
        match partial.advance(kc) {
            KeySequenceResult::Pending => {
                self.partial_key_sequence = Some(partial);
                None
            },
            KeySequenceResult::Matched(reedline_event) => Some(reedline_event),
            KeySequenceResult::Cancelled(keycombinations) => {
                Some(self.cancel_key_sequence(keycombinations))
            },
        }
    }
}

/// Whether an unbound character key switches the driver into visual mode:
/// a plain `v` in normal mode.
pub open spec fn vi_enters_visual(vi: Vi, kc: KeyCombination, c: char) -> bool {
    vi.mode == ViMode::Normal && kc.modifier == KeyModifiers::spec_none() && c == 'v'
}

/// The outcome of pushing one character onto the grammar queue and parsing
/// it afresh: the emitted event and the new queue, sub-mode, repeat slot
/// and character search. An invalid queue is discarded silently; a complete
/// parse runs, clears the queue, records itself for `.`, and may switch to
/// insert mode; anything else keeps buffering.
pub open spec fn grammar_step(
    cache: Seq<char>,
    mode: ViMode,
    previous: Option<EventV>,
    last: Option<ViCharSearch>,
) -> (EventV, Seq<char>, ViMode, Option<EventV>, Option<ViCharSearch>) {
    let p = spec_parse(cache);
    if !p.spec_is_valid() {
        (EventV::NoOp, Seq::empty(), mode, previous, last)
    } else if p.spec_is_complete(mode) {
        let new_mode = match p.spec_changes_mode() {
            Some(m) => m,
            None => mode,
        };
        let ev = p.spec_event(previous, last);
        (ev, Seq::empty(), new_mode, Some(ev), p.search_update(last))
    } else {
        (EventV::NoOp, cache, mode, previous, last)
    }
}

impl EditMode for Vi {
    open spec fn inv(&self) -> bool {
        &&& self.insert_keybindings.wf()
        &&& self.normal_keybindings.wf()
        &&& (self.partial_key_sequence matches Some(p) ==> p.wf())
    }

    fn parse_event(&mut self, _line_buffer: &LineBuffer, event: ReedlineRawEvent) -> (r:
        ReedlineEvent)
        ensures
            // escape wins over everything: all pending state is cleared and
            // the driver is back in normal mode
            event matches ReedlineRawEvent::Key(kc) && kc.modifier == KeyModifiers::spec_none()
                && kc.key_code is Esc ==> {
                &&& r@ == EventV::Multiple(seq![EventV::Esc, EventV::Repaint])
                &&& final(self).mode == ViMode::Normal
                &&& final(self).cache@ == Seq::<char>::empty()
                &&& final(self).partial_key_sequence is None
            },
            // enter accepts the line and starts the next one in insert mode
            event matches ReedlineRawEvent::Key(kc) && kc.modifier == KeyModifiers::spec_none()
                && kc.key_code is Enter ==> {
                &&& r@ == EventV::Enter
                &&& final(self).mode == ViMode::Insert
                &&& final(self).cache@ == Seq::<char>::empty()
                &&& final(self).partial_key_sequence is None
            },
            // a character key in normal or visual mode: the matcher first,
            // then entering visual mode, then the grammar queue
            event is Key && event->Key_0.key_code is Char && !(old(self).mode is Insert) ==> {
                let kc = event->Key_0;
                let c = kc.key_code->Char_0;
                let kc2 = combo(kc.modifier, KeyCode::Char(spec_lower_char(c)));
                let (ev_out, partial_out) = vi_dispatch(
                    old(self).active_table(),
                    partial_view(old(self).partial_key_sequence),
                    kc2,
                    false,
                );
                &&& (ev_out matches Some(v) ==> {
                    &&& r@ == v
                    &&& partial_view(final(self).partial_key_sequence) == partial_out
                    &&& final(self).cache == old(self).cache
                    &&& final(self).mode == old(self).mode
                    &&& final(self).previous == old(self).previous
                    &&& final(self).last_char_search == old(self).last_char_search
                })
                &&& (ev_out is None && partial_out is Some ==> {
                    &&& r@ == EventV::NoOp
                    &&& partial_view(final(self).partial_key_sequence) == partial_out
                    &&& final(self).cache == old(self).cache
                    &&& final(self).mode == old(self).mode
                    &&& final(self).previous == old(self).previous
                    &&& final(self).last_char_search == old(self).last_char_search
                })
                &&& (ev_out is None && partial_out is None && vi_enters_visual(*old(self), kc, c)
                    ==> {
                    &&& r@ == EventV::Multiple(seq![EventV::Esc, EventV::Repaint])
                    &&& final(self).mode == ViMode::Visual
                    &&& final(self).cache@ == Seq::<char>::empty()
                    &&& final(self).partial_key_sequence is None
                })
                &&& (ev_out is None && partial_out is None && !vi_enters_visual(*old(self), kc, c)
                    && (kc.modifier == KeyModifiers::spec_none() || kc.modifier
                    == KeyModifiers::spec_shift()) ==> {
                    let pushed = if kc.modifier == KeyModifiers::spec_shift() {
                        spec_upper_char(spec_lower_char(c))
                    } else {
                        spec_lower_char(c)
                    };
                    let step = grammar_step(
                        old(self).cache@.push(pushed),
                        old(self).mode,
                        option_event_view(old(self).previous),
                        old(self).last_char_search,
                    );
                    &&& r@ == step.0
                    &&& final(self).cache@ == step.1
                    &&& final(self).mode == step.2
                    &&& option_event_view(final(self).previous) == step.3
                    &&& final(self).last_char_search == step.4
                    &&& final(self).partial_key_sequence is None
                })
                &&& (ev_out is None && partial_out is None && !vi_enters_visual(*old(self), kc, c)
                    && !(kc.modifier == KeyModifiers::spec_none() || kc.modifier
                    == KeyModifiers::spec_shift()) ==> {
                    &&& r@ == EventV::NoOp
                    &&& final(self).cache == old(self).cache
                    &&& final(self).mode == old(self).mode
                    &&& final(self).partial_key_sequence is None
                })
            },
            // an insert-mode key or a non-character key goes straight to
            // the matcher; unbound keys type themselves in insert mode and
            // are swallowed otherwise
            event is Key && (old(self).mode is Insert || !(event->Key_0.key_code is Char)) && !(
            event->Key_0.modifier == KeyModifiers::spec_none() && (event->Key_0.key_code is Esc
                || event->Key_0.key_code is Enter)) ==> {
                let kc = event->Key_0;
                let (ev_out, partial_out) = vi_dispatch(
                    old(self).active_table(),
                    partial_view(old(self).partial_key_sequence),
                    kc,
                    old(self).mode is Insert,
                );
                &&& r@ == (match ev_out {
                    Some(v) => v,
                    None => EventV::NoOp,
                })
                &&& partial_view(final(self).partial_key_sequence) == partial_out
                &&& final(self).cache == old(self).cache
                &&& final(self).mode == old(self).mode
            },
            event is Mouse ==> r@ == EventV::Mouse,
            event matches ReedlineRawEvent::Resize(w, h) ==> r@ == EventV::Resize(w, h),
            event is FocusGained || event is FocusLost ==> r@ == EventV::NoOp,
            event matches ReedlineRawEvent::Paste(body) ==> (r@ matches EventV::Edit(cs) && {
                &&& cs.len() == 1
                &&& cs[0] matches EditCommand::InsertString(out) && out@ == normalize_line_endings(
                    body@,
                )
            }),
    {
        match event {
            ReedlineRawEvent::Key(kc) => {
                if matches!(kc.key_code, KeyCode::Esc) && kc.modifier == KeyModifiers::none() {
                    self.cache = Vec::new();
                    self.partial_key_sequence = None;
                    self.mode = ViMode::Normal;
                    let r = ReedlineEvent::Multiple(vec![ReedlineEvent::Esc, ReedlineEvent::Repaint]);
                    proof {
                        lemma_events_view(r->Multiple_0@);
                        assert(events_view(r->Multiple_0@) =~= seq![EventV::Esc, EventV::Repaint]);
                    }
                    r
                } else if matches!(kc.key_code, KeyCode::Enter) && kc.modifier
                    == KeyModifiers::none() {
                    self.mode = ViMode::Insert;
                    self.cache = Vec::new();
                    self.partial_key_sequence = None;
                    ReedlineEvent::Enter
                } else if matches!(kc.key_code, KeyCode::Char(_)) && !matches!(
                    self.mode,
                    ViMode::Insert,
                ) {
                    let c = match kc.key_code {
                        KeyCode::Char(c) => c,
                        _ => ' ',
                    };
                    let lc = lower_char(c);
                    let kc2 = KeyCombination { modifier: kc.modifier, key_code: KeyCode::Char(lc) };
                    match self.handle_binding(kc2) {
                        Some(ev) => ev,
                        None => {
                            if self.partial_key_sequence.is_some() {
                                ReedlineEvent::NoOp
                            } else if matches!(self.mode, ViMode::Normal) && kc.modifier
                                == KeyModifiers::none() && c == 'v' {
                                self.cache = Vec::new();
                                self.mode = ViMode::Visual;
                                let r = ReedlineEvent::Multiple(
                                    vec![ReedlineEvent::Esc, ReedlineEvent::Repaint],
                                );
                                proof {
                                    lemma_events_view(r->Multiple_0@);
                                    assert(events_view(r->Multiple_0@) =~= seq![
                                        EventV::Esc,
                                        EventV::Repaint,
                                    ]);
                                }
                                r
                            } else if kc.modifier == KeyModifiers::none() || kc.modifier
                                == KeyModifiers::shift() {
                                let pushed = if kc.modifier == KeyModifiers::shift() {
                                    upper_char(lc)
                                } else {
                                    lc
                                };
                                self.cache.push(pushed);
                                let res = parse(&self.cache);
                                if !res.is_valid() {
                                    self.cache = Vec::new();
                                    ReedlineEvent::NoOp
                                } else if res.is_complete(self.mode) {
                                    match res.changes_mode() {
                                        Some(m) => {
                                            self.mode = m;
                                        },
                                        None => {},
                                    }
                                    let ev = res.to_reedline_event(self);
                                    self.cache = Vec::new();
                                    self.previous = Some(clone_event(&ev));
                                    ev
                                } else {
                                    ReedlineEvent::NoOp
                                }
                            } else {
                                ReedlineEvent::NoOp
                            }
                        },
                    }
                } else {
                    match self.handle_binding(kc) {
                        Some(ev) => ev,
                        None => ReedlineEvent::NoOp,
                    }
                }
            },
            ReedlineRawEvent::Mouse => ReedlineEvent::Mouse,
            ReedlineRawEvent::Resize(width, height) => ReedlineEvent::Resize(width, height),
            ReedlineRawEvent::FocusGained => ReedlineEvent::NoOp,
            ReedlineRawEvent::FocusLost => ReedlineEvent::NoOp,
            ReedlineRawEvent::Paste(body) => {
                let normalized = normalize_line_endings_str(body.as_str());
                let r = ReedlineEvent::Edit(vec![EditCommand::InsertString(normalized)]);
                proof {
                    assert(r@ matches EventV::Edit(cs) && cs =~= seq![
                        EditCommand::InsertString(normalized),
                    ]);
                }
                r
            },
        }
    }

    fn edit_mode(&self) -> (r: PromptEditMode)
        ensures
            r == (match self.mode {
                ViMode::Normal => PromptEditMode::Vi(PromptViMode::Normal),
                ViMode::Visual => PromptEditMode::Vi(PromptViMode::Normal),
                ViMode::Insert => PromptEditMode::Vi(PromptViMode::Insert),
            }),
    {
        match self.mode {
            ViMode::Normal | ViMode::Visual => PromptEditMode::Vi(PromptViMode::Normal),
            ViMode::Insert => PromptEditMode::Vi(PromptViMode::Insert),
        }
    }
}

/// Translate a standalone motion into cursor movement, recording a
/// find/till search for later replay by `;` and `,`.
impl Motion {
    pub fn to_reedline(&self, vi_state: &mut Vi) -> (r: Vec<ReedlineOption>)
        ensures
            options_view(r@) == motion_options(*self, old(vi_state).last_char_search),
            *final(vi_state) == (Vi {
                last_char_search: char_search_after(*self, old(vi_state).last_char_search),
                ..*old(vi_state)
            }),
    {
        match self {
            Motion::RightUntil(c) => {
                vi_state.last_char_search = Some(ViCharSearch::ToRight(*c));
            },
            Motion::RightBefore(c) => {
                vi_state.last_char_search = Some(ViCharSearch::TillRight(*c));
            },
            Motion::LeftUntil(c) => {
                vi_state.last_char_search = Some(ViCharSearch::ToLeft(*c));
            },
            Motion::LeftBefore(c) => {
                vi_state.last_char_search = Some(ViCharSearch::TillLeft(*c));
            },
            _ => {},
        }
        let r: Vec<ReedlineOption> = match self {
            Motion::Left => vec![ReedlineOption::Edit(EditCommand::MoveLeft { select: false })],
            Motion::Right => vec![ReedlineOption::Edit(EditCommand::MoveRight { select: false })],
            Motion::Up => vec![ReedlineOption::Event(ReedlineEvent::Up)],
            Motion::Down => vec![ReedlineOption::Event(ReedlineEvent::Down)],
            Motion::NextWord => vec![
                ReedlineOption::Edit(EditCommand::MoveWordRight { select: false }),
            ],
            Motion::NextBigWord => vec![
                ReedlineOption::Edit(EditCommand::MoveBigWordRightBeforeStart { select: false }),
            ],
            Motion::NextWordEnd => vec![
                ReedlineOption::Edit(EditCommand::MoveWordRightEnd { select: false }),
            ],
            Motion::NextBigWordEnd => vec![
                ReedlineOption::Edit(EditCommand::MoveBigWordRightEnd { select: false }),
            ],
            Motion::PreviousWord => vec![
                ReedlineOption::Edit(EditCommand::MoveWordLeft { select: false }),
            ],
            Motion::PreviousBigWord => vec![
                ReedlineOption::Edit(EditCommand::MoveBigWordLeft { select: false }),
            ],
            Motion::Start => vec![
                ReedlineOption::Edit(EditCommand::MoveToLineStart { select: false }),
            ],
            Motion::End => vec![ReedlineOption::Edit(EditCommand::MoveToLineEnd { select: false })],
            Motion::Line => Vec::new(),
            Motion::RightUntil(c) => vec![
                ReedlineOption::Edit(EditCommand::MoveRightUntil { c: *c, select: false }),
            ],
            Motion::RightBefore(c) => vec![
                ReedlineOption::Edit(EditCommand::MoveRightBefore { c: *c, select: false }),
            ],
            Motion::LeftUntil(c) => vec![
                ReedlineOption::Edit(EditCommand::MoveLeftUntil { c: *c, select: false }),
            ],
            Motion::LeftBefore(c) => vec![
                ReedlineOption::Edit(EditCommand::MoveLeftBefore { c: *c, select: false }),
            ],
            Motion::ReplayCharSearch => match vi_state.last_char_search {
                Some(search) => vec![ReedlineOption::Edit(search.to_move())],
                None => Vec::new(),
            },
            Motion::ReverseCharSearch => match vi_state.last_char_search {
                Some(search) => vec![ReedlineOption::Edit(search.reverse().to_move())],
                None => Vec::new(),
            },
        };
        proof {
            lemma_options_view(r@);
            assert(options_view(r@) =~= motion_options(*self, old(vi_state).last_char_search));
        }
        r
    }
}

impl Default for Vi {
    fn default() -> (r: Self)
        ensures
            r.inv(),
            r.insert_keybindings@ == vi_insert_default_bindings(),
            r.normal_keybindings@ == vi_normal_default_bindings(),
            r.cache@ == Seq::<char>::empty(),
            r.mode == ViMode::Insert,
            r.previous is None,
            r.last_char_search is None,
            r.partial_key_sequence is None,
    {
        Vi {
            insert_keybindings: default_vi_insert_keybindings(),
            normal_keybindings: default_vi_normal_keybindings(),
            cache: Vec::new(),
            mode: ViMode::Insert,
            previous: None,
            last_char_search: None,
            partial_key_sequence: None,
        }
    }
}

} // verus!
