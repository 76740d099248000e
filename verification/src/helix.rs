//! The Helix-style mode driver: Normal (with an optional Select minor
//! mode) and Insert, a pending repeat count, and a pending
//! single-character continuation for the find/till operator.

use vstd::prelude::*;

verus! {

use crate::base::EditMode;
use crate::events::{
    EditCommand, EventV, HelixEvent, HelixNormal, PromptEditMode, PromptHelixMode, ReedlineEvent,
    ReedlineRawEvent, clone_event, edit_bind, event_view, events_view, lemma_event_view_helix,
    lemma_events_view, option_event_view,
};
use crate::helix_keybindings::{
    default_helix_insert_keybindings, default_helix_normal_keybindings,
    helix_insert_default_bindings, helix_normal_default_bindings,
};
use crate::keybindings::{
    KeyNode, KeySequenceResult, Keybindings, NodeV, PartialKeySequence, Sequence, combo,
    node_view, partial_view,
};
use crate::keys::{KeyCode, KeyCombination, KeyModifiers, spec_lower_key_code,
    to_lowercase_key_code};
use crate::line_buffer::{LineBuffer, grapheme_left_n, grapheme_left_spec, grapheme_right_n,
    grapheme_right_spec};
use crate::text::{all_whitespace, is_whitespace_str, normalize_line_endings,
    normalize_line_endings_str};
use crate::vi::{repeat_cmd, repeat_command_vec};

/// The Helix sub-mode: Normal (with an optional minor mode) or Insert.
#[derive(Clone, Copy, Debug, PartialEq, Eq, Structural)]
pub enum HelixMode {
    Normal(Option<MinorMode>),
    Insert,
}

/// A minor mode layered over Normal.
#[derive(Clone, Copy, Debug, PartialEq, Eq, Structural)]
pub enum MinorMode {
    Select,
    Match,
}

/// The pending single-character continuation: a find/till operator waits
/// for exactly one following character, which it consumes unconditionally.
/// An explicit state rather than a callback, so the machine stays
/// enumerable.
#[derive(Clone, Copy, Debug, PartialEq, Eq, Structural)]
pub struct PendingCharCapture {
    /// The repeat count consumed when the operator was pressed.
    pub count: u32,
    /// Whether the Select minor mode was active.
    pub select: bool,
}

/// This parses incoming input events like a Helix-style editor.
#[derive(Debug)]
pub struct Helix {
    pub insert_keybindings: Keybindings,
    pub normal_keybindings: Keybindings,
    pub mode: HelixMode,
    /// The pending repeat count, accumulated digit by digit.
    pub count: Option<u32>,
    pub partial_key_sequence: Option<PartialKeySequence>,
    pub on_next_char: Option<PendingCharCapture>,
}

/// The effective repeat count: a missing count means one.
pub open spec fn helix_count(count: Option<u32>) -> nat {
    match count {
        Some(n) => n as nat,
        None => 1,
    }
}

/// The given event repeated `n` times.
pub open spec fn repeat_event(ev: EventV, n: nat) -> Seq<EventV> {
    Seq::new(n, |i: int| ev)
}

/// Whether the grapheme cluster `n` steps right of the cursor is whitespace
/// (an empty remainder counts as whitespace).
pub open spec fn ws_right(lb: LineBuffer, n: int) -> bool {
    all_whitespace(grapheme_right_spec(lb.buffer@, lb.insertion_point as int, n))
}

/// Whether the grapheme cluster one step left of the cursor is whitespace.
pub open spec fn ws_left1(lb: LineBuffer) -> bool {
    all_whitespace(grapheme_left_spec(lb.buffer@, lb.insertion_point as int, 1))
}

/// The command list of a repeated word motion: the motion repeated, with a
/// selection clear slipped in before the last step outside Select mode, and
/// an optional extra single-character step (whitespace-aware boundary
/// refinement) also before the last step.
pub open spec fn word_motion_cmds(
    cmd: EditCommand,
    n: nat,
    clear: bool,
    extra: Option<EditCommand>,
) -> Seq<EditCommand>
    recommends
        n >= 1,
{
    let base = repeat_cmd(cmd, n);
    let with_clear = if clear {
        base.insert(base.len() - 1, EditCommand::ClearSelection)
    } else {
        base
    };
    match extra {
        Some(e) => with_clear.insert(with_clear.len() - 1, e),
        None => with_clear,
    }
}

/// The commands a consumed find/till continuation produces: the move
/// repeated by the operator's count, preceded by a clear in Select mode.
pub open spec fn capture_cmds(c: char, capture: PendingCharCapture) -> Seq<EditCommand> {
    let base = repeat_cmd(EditCommand::MoveRightBefore { c, select: true }, capture.count as nat);
    if capture.select {
        seq![EditCommand::Clear] + base
    } else {
        base
    }
}

/// What one Helix event does to the driver, given the whitespace context at
/// the cursor: the emitted event, the mode afterwards, the continuation
/// left behind, and whether a pending key sequence is discarded (a mode
/// change clears all pending state). The repeat count is always consumed.
pub open spec fn helix_event_outcome(
    mode: HelixMode,
    count: Option<u32>,
    pending: Option<PendingCharCapture>,
    ws0: bool,
    ws1: bool,
    wl1: bool,
    event: HelixEvent,
) -> (EventV, HelixMode, Option<PendingCharCapture>, bool) {
    let cnt = helix_count(count);
    let select = mode == HelixMode::Normal(Some(MinorMode::Select));
    match event {
        HelixEvent::NormalMode => (
            if mode is Insert {
                EventV::Repaint
            } else {
                EventV::NoOp
            },
            HelixMode::Normal(None),
            None,
            true,
        ),
        HelixEvent::Normal(normal) => if !(mode is Normal) {
            (EventV::NoOp, mode, pending, false)
        } else {
            match normal {
                HelixNormal::InsertMode => (EventV::Repaint, HelixMode::Insert, None, true),
                HelixNormal::SelectMode => (
                    EventV::NoOp,
                    if select {
                        HelixMode::Normal(None)
                    } else {
                        HelixMode::Normal(Some(MinorMode::Select))
                    },
                    None,
                    true,
                ),
                HelixNormal::MoveCharLeft => (
                    EventV::Multiple(
                        repeat_event(EventV::Edit(seq![EditCommand::MoveLeft { select }]), cnt),
                    ),
                    mode,
                    pending,
                    false,
                ),
                HelixNormal::MoveVisualLineDown => (
                    EventV::Multiple(repeat_event(EventV::Down, cnt)),
                    mode,
                    pending,
                    false,
                ),
                HelixNormal::MoveVisualLineUp => (
                    EventV::Multiple(repeat_event(EventV::Up, cnt)),
                    mode,
                    pending,
                    false,
                ),
                HelixNormal::MoveCharRight => (
                    EventV::Multiple(
                        repeat_event(EventV::Edit(seq![EditCommand::MoveRight { select }]), cnt),
                    ),
                    mode,
                    pending,
                    false,
                ),
                HelixNormal::MoveNextWordStart => (
                    EventV::Edit(
                        word_motion_cmds(
                            EditCommand::MoveWordRightBeforeStart { select: true },
                            cnt,
                            !select,
                            if (ws0 && !ws1) || cnt > 1 {
                                Some(EditCommand::MoveRight { select })
                            } else {
                                None
                            },
                        ),
                    ),
                    mode,
                    pending,
                    false,
                ),
                HelixNormal::MovePrevWordStart => (
                    EventV::Edit(
                        word_motion_cmds(
                            EditCommand::MoveWordLeft { select: true },
                            cnt,
                            !select,
                            if wl1 {
                                Some(EditCommand::MoveLeft { select })
                            } else {
                                None
                            },
                        ),
                    ),
                    mode,
                    pending,
                    false,
                ),
                HelixNormal::MoveNextWordEnd => (
                    EventV::Edit(
                        word_motion_cmds(
                            EditCommand::MoveWordRightEnd { select: true },
                            cnt,
                            !select,
                            if ws1 {
                                Some(EditCommand::MoveRight { select })
                            } else {
                                None
                            },
                        ),
                    ),
                    mode,
                    pending,
                    false,
                ),
                HelixNormal::MoveNextLongWordStart => (
                    EventV::Edit(
                        word_motion_cmds(
                            EditCommand::MoveBigWordRightBeforeStart { select: true },
                            cnt,
                            !select,
                            if (ws0 && !ws1) || cnt > 1 {
                                Some(EditCommand::MoveRight { select })
                            } else {
                                None
                            },
                        ),
                    ),
                    mode,
                    pending,
                    false,
                ),
                HelixNormal::MovePrevLongWordStart => (
                    EventV::Edit(
                        word_motion_cmds(
                            EditCommand::MoveBigWordLeft { select: true },
                            cnt,
                            !select,
                            if wl1 {
                                Some(EditCommand::MoveLeft { select })
                            } else {
                                None
                            },
                        ),
                    ),
                    mode,
                    pending,
                    false,
                ),
                HelixNormal::MoveNextLongWordEnd => (
                    EventV::Edit(
                        word_motion_cmds(
                            EditCommand::MoveBigWordRightEnd { select: true },
                            cnt,
                            !select,
                            if ws1 {
                                Some(EditCommand::MoveRight { select })
                            } else {
                                None
                            },
                        ),
                    ),
                    mode,
                    pending,
                    false,
                ),
                HelixNormal::FindTillChar => (
                    EventV::NoOp,
                    mode,
                    Some(
                        PendingCharCapture {
                            count: match count {
                                Some(n) => n,
                                None => 1,
                            },
                            select,
                        },
                    ),
                    false,
                ),
            }
        },
    }
}

/// The events and state a cancelled key history replays to: literal
/// characters insert only in insert mode; other keys are looked up again in
/// the table of the mode current at that point of the replay, and a
/// replayed Helix event runs, possibly changing the mode or leaving a
/// continuation. The repeat count stays consumed throughout.
pub open spec fn helix_replay(
    normal_table: Map<KeyCombination, NodeV>,
    insert_table: Map<KeyCombination, NodeV>,
    ws0: bool,
    ws1: bool,
    wl1: bool,
    mode: HelixMode,
    pending: Option<PendingCharCapture>,
    keys: Seq<KeyCombination>,
) -> (Seq<EventV>, HelixMode, Option<PendingCharCapture>)
    decreases keys.len(),
{
    if keys.len() == 0 {
        (Seq::empty(), mode, pending)
    } else {
        let kc = keys[0];
        let table = if mode is Insert {
            insert_table
        } else {
            normal_table
        };
        if kc.key_code is Char && (kc.modifier == KeyModifiers::spec_none() || kc.modifier
            == KeyModifiers::spec_shift()) {
            let rest = helix_replay(
                normal_table,
                insert_table,
                ws0,
                ws1,
                wl1,
                mode,
                pending,
                keys.drop_first(),
            );
            if mode is Insert {
                (
                    seq![EventV::Edit(seq![EditCommand::InsertChar(kc.key_code->Char_0)])] + rest.0,
                    rest.1,
                    rest.2,
                )
            } else {
                rest
            }
        } else {
            let lk = combo(kc.modifier, spec_lower_key_code(kc.key_code));
            if table.contains_key(lk) && table[lk] is Event {
                let ev = table[lk]->Event_0;
                if ev is Helix {
                    let (e, m2, p2, _) = helix_event_outcome(
                        mode,
                        None,
                        pending,
                        ws0,
                        ws1,
                        wl1,
                        ev->Helix_0,
                    );
                    let rest = helix_replay(
                        normal_table,
                        insert_table,
                        ws0,
                        ws1,
                        wl1,
                        m2,
                        p2,
                        keys.drop_first(),
                    );
                    (seq![e] + rest.0, rest.1, rest.2)
                } else {
                    let rest = helix_replay(
                        normal_table,
                        insert_table,
                        ws0,
                        ws1,
                        wl1,
                        mode,
                        pending,
                        keys.drop_first(),
                    );
                    (seq![ev] + rest.0, rest.1, rest.2)
                }
            } else {
                helix_replay(
                    normal_table,
                    insert_table,
                    ws0,
                    ws1,
                    wl1,
                    mode,
                    pending,
                    keys.drop_first(),
                )
            }
        }
    }
}

/// Repeat a whole event `count` times as a single composite event.
pub fn apply_multiplier(event: ReedlineEvent, count: usize) -> (r: ReedlineEvent)
    ensures
        r@ == EventV::Multiple(repeat_event(event@, count as nat)),
{
    let ghost ev = event@;
    let mut events: Vec<ReedlineEvent> = Vec::new();
    let mut i: usize = 0;
    while i < count
        invariant
            i <= count,
            events_view(events@) =~= repeat_event(ev, i as nat),
            event@ == ev,
        decreases count - i,
    {
        let c = clone_event(&event);
        proof {
            lemma_events_view(events@.push(c));
            lemma_events_view(events@);
            assert(events_view(events@.push(c)) =~= events_view(events@) + seq![c@]);
            assert(events_view(events@) + seq![c@] =~= repeat_event(ev, (i + 1) as nat));
        }
        events.push(c);
        i = i + 1;
    }
    ReedlineEvent::Multiple(events)
}

/// The executable form of [`word_motion_cmds`].
fn word_motion_vec(cmd: EditCommand, count: u32, clear: bool, extra: Option<EditCommand>) -> (r:
    Vec<EditCommand>)
    requires
        1 <= count,
    ensures
        r@ == word_motion_cmds(cmd, count as nat, clear, extra),
{
    let mut base = repeat_command_vec(&cmd, count as u64);
    proof {
        assert(base@.len() == count);
    }
    if clear {
        let idx = base.len() - 1;
        base.insert(idx, EditCommand::ClearSelection);
    }
    match extra {
        Some(e) => {
            let idx = base.len() - 1;
            base.insert(idx, e);
        },
        None => {},
    }
    base
}

impl Helix {
    /// The table the active sub-mode consults.
    pub open spec fn normal_table(self) -> Map<KeyCombination, NodeV> {
        self.normal_keybindings@
    }

    pub open spec fn insert_table(self) -> Map<KeyCombination, NodeV> {
        self.insert_keybindings@
    }

    pub open spec fn active_table(self) -> Map<KeyCombination, NodeV> {
        if self.mode is Insert {
            self.insert_table()
        } else {
            self.normal_table()
        }
    }

    /// Creates a Helix editor using the given keybindings.
    pub fn new(insert_keybindings: Keybindings, normal_keybindings: Keybindings) -> (r: Self)
        ensures
            r.insert_keybindings@ == insert_keybindings@,
            r.normal_keybindings@ == normal_keybindings@,
            r.mode == HelixMode::Insert,
            r.count is None,
            r.partial_key_sequence is None,
            r.on_next_char is None,
            insert_keybindings.wf() && normal_keybindings.wf() ==> r.inv(),
    {
        Self {
            insert_keybindings,
            normal_keybindings,
            mode: HelixMode::Insert,
            count: None,
            partial_key_sequence: None,
            on_next_char: None,
        }
    }

    /// Switch sub-mode; any mode transition clears the pending count, the
    /// pending key sequence, and the pending continuation.
    fn set_mode(&mut self, mode: HelixMode)
        ensures
            *final(self) == (Helix {
                mode,
                count: None,
                partial_key_sequence: None,
                on_next_char: None,
                ..*old(self)
            }),
    {
        self.mode = mode;
        self.count = None;
        self.partial_key_sequence = None;
        self.on_next_char = None;
    }

    fn active_bindings(&self) -> (r: &Keybindings)
        ensures
            r@ == self.active_table(),
            self.inv() ==> r.wf(),
    {
        match self.mode {
            HelixMode::Normal(_) => &self.normal_keybindings,
            HelixMode::Insert => &self.insert_keybindings,
        }
    }

    /// Run one Helix event against the driver, consuming the pending count
    /// and consulting the whitespace context at the cursor for the
    /// word-motion boundary refinement.
    fn handle_helix_event(&mut self, line_buffer: &LineBuffer, event: HelixEvent) -> (r: Option<
        ReedlineEvent,
    >)
        requires
            old(self).inv(),
            line_buffer.wf(),
        ensures
            final(self).inv(),
            ({
                let (ev, mode2, pending2, resets) = helix_event_outcome(
                    old(self).mode,
                    old(self).count,
                    old(self).on_next_char,
                    ws_right(*line_buffer, 0),
                    ws_right(*line_buffer, 1),
                    ws_left1(*line_buffer),
                    event,
                );
                &&& r matches Some(e) && e@ == ev
                &&& final(self).mode == mode2
                &&& final(self).count is None
                &&& final(self).on_next_char == pending2
                &&& final(self).partial_key_sequence == (if resets {
                    Option::<PartialKeySequence>::None
                } else {
                    old(self).partial_key_sequence
                })
                &&& final(self).insert_keybindings == old(self).insert_keybindings
                &&& final(self).normal_keybindings == old(self).normal_keybindings
            }),
    {
        let count: u32 = match self.count {
            Some(n) => n,
            None => 1,
        };
        self.count = None;
        let select = matches!(self.mode, HelixMode::Normal(Some(MinorMode::Select)));
        match event {
            HelixEvent::NormalMode => {
                let from_insert = matches!(self.mode, HelixMode::Insert);
                self.set_mode(HelixMode::Normal(None));
                if from_insert {
                    Some(ReedlineEvent::Repaint)
                } else {
                    Some(ReedlineEvent::NoOp)
                }
            },
            HelixEvent::Normal(helix_normal) => {
                if !matches!(self.mode, HelixMode::Normal(_)) {
                    return Some(ReedlineEvent::NoOp);
                }
                match helix_normal {
                    HelixNormal::InsertMode => {
                        self.set_mode(HelixMode::Insert);
                        Some(ReedlineEvent::Repaint)
                    },
                    HelixNormal::SelectMode => {
                        if select {
                            self.set_mode(HelixMode::Normal(None));
                        } else {
                            self.set_mode(HelixMode::Normal(Some(MinorMode::Select)));
                        }
                        Some(ReedlineEvent::NoOp)
                    },
                    HelixNormal::MoveCharLeft => Some(
                        apply_multiplier(edit_bind(EditCommand::MoveLeft { select }), count as usize),
                    ),
                    HelixNormal::MoveVisualLineDown => Some(
                        apply_multiplier(ReedlineEvent::Down, count as usize),
                    ),
                    HelixNormal::MoveVisualLineUp => Some(
                        apply_multiplier(ReedlineEvent::Up, count as usize),
                    ),
                    HelixNormal::MoveCharRight => Some(
                        apply_multiplier(edit_bind(EditCommand::MoveRight { select }), count as usize),
                    ),
                    HelixNormal::MoveNextWordStart => {
                        let g0 = grapheme_right_n(line_buffer, 0);
                        let g1 = grapheme_right_n(line_buffer, 1);
                        let ws0 = is_whitespace_str(g0.as_str());
                        let ws1 = is_whitespace_str(g1.as_str());
                        let extra = if (ws0 && !ws1) || count > 1 {
                            Some(EditCommand::MoveRight { select })
                        } else {
                            None
                        };
                        Some(
                            ReedlineEvent::Edit(
                                word_motion_vec(
                                    EditCommand::MoveWordRightBeforeStart { select: true },
                                    count,
                                    !select,
                                    extra,
                                ),
                            ),
                        )
                    },
                    HelixNormal::MovePrevWordStart => {
                        let gl = grapheme_left_n(line_buffer, 1);
                        let wl = is_whitespace_str(gl.as_str());
                        let extra = if wl {
                            Some(EditCommand::MoveLeft { select })
                        } else {
                            None
                        };
                        Some(
                            ReedlineEvent::Edit(
                                word_motion_vec(
                                    EditCommand::MoveWordLeft { select: true },
                                    count,
                                    !select,
                                    extra,
                                ),
                            ),
                        )
                    },
                    HelixNormal::MoveNextWordEnd => {
                        let g1 = grapheme_right_n(line_buffer, 1);
                        let ws1 = is_whitespace_str(g1.as_str());
                        let extra = if ws1 {
                            Some(EditCommand::MoveRight { select })
                        } else {
                            None
                        };
                        Some(
                            ReedlineEvent::Edit(
                                word_motion_vec(
                                    EditCommand::MoveWordRightEnd { select: true },
                                    count,
                                    !select,
                                    extra,
                                ),
                            ),
                        )
                    },
                    HelixNormal::MoveNextLongWordStart => {
                        let g0 = grapheme_right_n(line_buffer, 0);
                        let g1 = grapheme_right_n(line_buffer, 1);
                        let ws0 = is_whitespace_str(g0.as_str());
                        let ws1 = is_whitespace_str(g1.as_str());
                        let extra = if (ws0 && !ws1) || count > 1 {
                            Some(EditCommand::MoveRight { select })
                        } else {
                            None
                        };
                        Some(
                            ReedlineEvent::Edit(
                                word_motion_vec(
                                    EditCommand::MoveBigWordRightBeforeStart { select: true },
                                    count,
                                    !select,
                                    extra,
                                ),
                            ),
                        )
                    },
                    HelixNormal::MovePrevLongWordStart => {
                        let gl = grapheme_left_n(line_buffer, 1);
                        let wl = is_whitespace_str(gl.as_str());
                        let extra = if wl {
                            Some(EditCommand::MoveLeft { select })
                        } else {
                            None
                        };
                        Some(
                            ReedlineEvent::Edit(
                                word_motion_vec(
                                    EditCommand::MoveBigWordLeft { select: true },
                                    count,
                                    !select,
                                    extra,
                                ),
                            ),
                        )
                    },
                    HelixNormal::MoveNextLongWordEnd => {
                        let g1 = grapheme_right_n(line_buffer, 1);
                        let ws1 = is_whitespace_str(g1.as_str());
                        let extra = if ws1 {
                            Some(EditCommand::MoveRight { select })
                        } else {
                            None
                        };
                        Some(
                            ReedlineEvent::Edit(
                                word_motion_vec(
                                    EditCommand::MoveBigWordRightEnd { select: true },
                                    count,
                                    !select,
                                    extra,
                                ),
                            ),
                        )
                    },
                    HelixNormal::FindTillChar => {
                        self.on_next_char = Some(PendingCharCapture { count, select });
                        Some(ReedlineEvent::NoOp)
                    },
                }
            },
        }
    }

    /// Reinterpret a cancelled key history. Literal characters insert only
    /// in insert mode; other keys are looked up once more as single
    /// top-level bindings, and a replayed Helix event runs against the
    /// driver, so the mode and continuation may move during the replay.
    #[verifier::loop_isolation(false)]
    #[verifier::rlimit(60)]
    fn cancel_key_sequence(&mut self, line_buffer: &LineBuffer, keycombinations: Vec<
        KeyCombination,
    >) -> (r: Option<ReedlineEvent>)
        requires
            old(self).inv(),
            old(self).on_next_char is None,
            old(self).partial_key_sequence is None,
            line_buffer.wf(),
        ensures
            final(self).inv(),
            ({
                let (evs, mode2, pending2) = helix_replay(
                    old(self).normal_table(),
                    old(self).insert_table(),
                    ws_right(*line_buffer, 0),
                    ws_right(*line_buffer, 1),
                    ws_left1(*line_buffer),
                    old(self).mode,
                    None,
                    keycombinations@,
                );
                &&& option_event_view(r) == (if evs.len() == 0 {
                    Option::<EventV>::None
                } else {
                    Some(EventV::Multiple(evs))
                })
                &&& final(self).mode == mode2
                &&& final(self).count is None
                &&& final(self).on_next_char == pending2
                &&& final(self).partial_key_sequence is None
                &&& final(self).insert_keybindings == old(self).insert_keybindings
                &&& final(self).normal_keybindings == old(self).normal_keybindings
            }),
    {
        let ghost nt = old(self).normal_table();
        let ghost it = old(self).insert_table();
        let ghost w0 = ws_right(*line_buffer, 0);
        let ghost w1 = ws_right(*line_buffer, 1);
        let ghost wl = ws_left1(*line_buffer);
        let ghost keys = keycombinations@;
        let ghost full = helix_replay(nt, it, w0, w1, wl, old(self).mode, None, keys);
        self.count = None;
        let mut events: Vec<ReedlineEvent> = Vec::new();
        let mut i: usize = 0;
        proof {
            assert(keys.subrange(0, keys.len() as int) =~= keys);
            assert(events_view(events@) + full.0 =~= full.0);
        }
        while i < keycombinations.len()
            invariant
                i <= keys.len(),
                self.inv(),
                self.count is None,
                self.partial_key_sequence is None,
                self.insert_keybindings == old(self).insert_keybindings,
                self.normal_keybindings == old(self).normal_keybindings,
                ({
                    let rest = helix_replay(
                        nt,
                        it,
                        w0,
                        w1,
                        wl,
                        self.mode,
                        self.on_next_char,
                        keys.subrange(i as int, keys.len() as int),
                    );
                    &&& full.0 == events_view(events@) + rest.0
                    &&& full.1 == rest.1
                    &&& full.2 == rest.2
                }),
            decreases keys.len() - i,
        {
            let kc = keycombinations[i];
            let ghost rest_keys = keys.subrange(i as int, keys.len() as int);
            proof {
                assert(rest_keys[0] == kc);
                assert(rest_keys.drop_first() =~= keys.subrange(i + 1, keys.len() as int));
            }
            let is_literal_char = matches!(kc.key_code, KeyCode::Char(_)) && (kc.modifier
                == KeyModifiers::none() || kc.modifier == KeyModifiers::shift());
            if is_literal_char {
                if matches!(self.mode, HelixMode::Insert) {
                    let c = match kc.key_code {
                        KeyCode::Char(c) => c,
                        _ => ' ',
                    };
                    let ev = edit_bind(EditCommand::InsertChar(c));
                    proof {
                        lemma_events_view(events@.push(ev));
                        lemma_events_view(events@);
                        assert(events_view(events@.push(ev)) =~= events_view(events@) + seq![ev@]);
                    }
                    events.push(ev);
                }
            } else {
                match self.active_bindings().find_binding(
                    kc.modifier,
                    to_lowercase_key_code(kc.key_code),
                ) {
                    Some(KeyNode::Event(event)) => {
                        proof {
                            lemma_event_view_helix(event);
                        }
                        match event {
                            ReedlineEvent::Helix(helix_event) => {
                                let out = self.handle_helix_event(line_buffer, helix_event);
                                match out {
                                    Some(e) => {
                                        proof {
                                            lemma_events_view(events@.push(e));
                                            lemma_events_view(events@);
                                            assert(events_view(events@.push(e)) =~= events_view(
                                                events@,
                                            ) + seq![e@]);
                                        }
                                        events.push(e);
                                    },
                                    None => {},
                                }
                            },
                            other => {
                                proof {
                                    lemma_events_view(events@.push(other));
                                    lemma_events_view(events@);
                                    assert(events_view(events@.push(other)) =~= events_view(
                                        events@,
                                    ) + seq![event_view(other)]);
                                }
                                events.push(other);
                            },
                        }
                    },
                    // a nested table reappearing here is a configuration
                    // bug; the key is swallowed rather than misread
                    Some(KeyNode::Sequence(_)) => {},
                    None => {},
                }
            }
            i = i + 1;
        }
        proof {
            assert(keys.subrange(keys.len() as int, keys.len() as int) =~= Seq::<
                KeyCombination,
            >::empty());
            assert(events_view(events@) + Seq::<EventV>::empty() =~= events_view(events@));
            lemma_events_view(events@);
        }
        if events.len() == 0 {
            None
        } else {
            Some(ReedlineEvent::Multiple(events))
        }
    }
}

/// The pending repeat count after an unbound digit key in Normal mode: a
/// digit extends a count in progress (up to the growth limit, beyond which
/// further digits change nothing), and a nonzero digit starts a fresh
/// count; a plain `0` with no count in progress is not a count.
pub open spec fn helix_digit_update(count: Option<u32>, c: char) -> Option<u32> {
    match count {
        Some(n) => if '0' <= c && c <= '9' && n < 100000000 {
            Some((n * 10 + (c as u32 - 48)) as u32)
        } else {
            count
        },
        None => if '1' <= c && c <= '9' {
            Some((c as u32 - 48) as u32)
        } else {
            None
        },
    }
}

/// One step of the matcher inside the Helix driver, with replayed Helix
/// events running against the driver state.
pub open spec fn helix_step(
    normal_table: Map<KeyCombination, NodeV>,
    insert_table: Map<KeyCombination, NodeV>,
    cursor: Map<KeyCombination, NodeV>,
    history: Seq<KeyCombination>,
    kc: KeyCombination,
    mode: HelixMode,
    count: Option<u32>,
    ws0: bool,
    ws1: bool,
    wl1: bool,
) -> (
    Option<EventV>,
    HelixMode,
    Option<u32>,
    Option<PendingCharCapture>,
    Option<(Map<KeyCombination, NodeV>, Seq<KeyCombination>)>,
) {
    if cursor.contains_key(kc) {
        match cursor[kc] {
            NodeV::Event(ev) => if ev is Helix {
                let (e, mode2, pending2, _) = helix_event_outcome(
                    mode,
                    count,
                    None,
                    ws0,
                    ws1,
                    wl1,
                    ev->Helix_0,
                );
                (Some(e), mode2, None, pending2, None)
            } else {
                (Some(ev), mode, count, None, None)
            },
            NodeV::Table(m) => (None, mode, count, None, Some((m, history.push(kc)))),
        }
    } else {
        let (evs, mode2, pending2) = helix_replay(
            normal_table,
            insert_table,
            ws0,
            ws1,
            wl1,
            mode,
            None,
            history.push(kc),
        );
        (
            if evs.len() == 0 {
                None
            } else {
                Some(EventV::Multiple(evs))
            },
            mode2,
            None,
            pending2,
            None,
        )
    }
}

/// One non-escape key through the Helix matcher, when no continuation is
/// pending: a pending matcher consumes it; otherwise the key starts a
/// fresh match at the table root. An unbound character key types itself in
/// insert mode and feeds the repeat count in Normal mode.
pub open spec fn helix_key_dispatch(
    normal_table: Map<KeyCombination, NodeV>,
    insert_table: Map<KeyCombination, NodeV>,
    mode: HelixMode,
    count: Option<u32>,
    partial: Option<(Map<KeyCombination, NodeV>, Seq<KeyCombination>)>,
    kc: KeyCombination,
    ws0: bool,
    ws1: bool,
    wl1: bool,
) -> (
    Option<EventV>,
    HelixMode,
    Option<u32>,
    Option<PendingCharCapture>,
    Option<(Map<KeyCombination, NodeV>, Seq<KeyCombination>)>,
) {
    let table = if mode is Insert {
        insert_table
    } else {
        normal_table
    };
    match partial {
        Some((cursor, history)) => helix_step(
            normal_table,
            insert_table,
            cursor,
            history,
            kc,
            mode,
            count,
            ws0,
            ws1,
            wl1,
        ),
        None => {
            let lk = combo(kc.modifier, spec_lower_key_code(kc.key_code));
            if table.contains_key(lk) {
                helix_step(
                    normal_table,
                    insert_table,
                    Map::empty().insert(kc, table[lk]),
                    Seq::empty(),
                    kc,
                    mode,
                    count,
                    ws0,
                    ws1,
                    wl1,
                )
            } else if kc.key_code is Char {
                if mode is Insert {
                    (
                        Some(EventV::Edit(seq![EditCommand::InsertChar(kc.key_code->Char_0)])),
                        mode,
                        count,
                        None,
                        None,
                    )
                } else {
                    (None, mode, helix_digit_update(count, kc.key_code->Char_0), None, None)
                }
            } else {
                (None, mode, count, None, None)
            }
        },
    }
}

impl Helix {
    /// One key through the driver: Escape always clears all pending state
    /// and returns to Normal mode (replaying any pending sequence first); a
    /// pending continuation consumes the key unconditionally; everything
    /// else goes to the matcher.
    fn handle_binding(&mut self, line_buffer: &LineBuffer, kc: KeyCombination) -> (r: Option<
        ReedlineEvent,
    >)
        requires
            old(self).inv(),
            line_buffer.wf(),
        ensures
            final(self).inv(),
            final(self).insert_keybindings == old(self).insert_keybindings,
            final(self).normal_keybindings == old(self).normal_keybindings,
            kc.key_code is Esc ==> {
                &&& final(self).mode == HelixMode::Normal(None)
                &&& final(self).count is None
                &&& final(self).partial_key_sequence is None
                &&& final(self).on_next_char is None
                &&& option_event_view(r) == (match partial_view(old(self).partial_key_sequence) {
                    Some((cursor, history)) => {
                        let (evs, m2, p2) = helix_replay(
                            old(self).normal_table(),
                            old(self).insert_table(),
                            ws_right(*line_buffer, 0),
                            ws_right(*line_buffer, 1),
                            ws_left1(*line_buffer),
                            old(self).mode,
                            None,
                            history,
                        );
                        if evs.len() == 0 {
                            Option::<EventV>::None
                        } else {
                            Some(EventV::Multiple(evs))
                        }
                    },
                    None => Some(
                        if old(self).mode is Insert {
                            EventV::Repaint
                        } else {
                            EventV::NoOp
                        },
                    ),
                })
            },
            old(self).on_next_char is Some && !(kc.key_code is Esc) ==> {
                &&& final(self).mode == old(self).mode
                &&& final(self).count == old(self).count
                &&& final(self).partial_key_sequence == old(self).partial_key_sequence
                &&& final(self).on_next_char is None
                &&& option_event_view(r) == (if kc.key_code is Char {
                    Some(
                        EventV::Edit(
                            capture_cmds(kc.key_code->Char_0, old(self).on_next_char->0),
                        ),
                    )
                } else {
                    Option::<EventV>::None
                })
            },
            !(kc.key_code is Esc) && old(self).on_next_char is None ==> {
                let (ev_out, mode2, count2, pending2, partial2) = helix_key_dispatch(
                    old(self).normal_table(),
                    old(self).insert_table(),
                    old(self).mode,
                    old(self).count,
                    partial_view(old(self).partial_key_sequence),
                    kc,
                    ws_right(*line_buffer, 0),
                    ws_right(*line_buffer, 1),
                    ws_left1(*line_buffer),
                );
                &&& option_event_view(r) == ev_out
                &&& final(self).mode == mode2
                &&& final(self).count == count2
                &&& final(self).on_next_char == pending2
                &&& partial_view(final(self).partial_key_sequence) == partial2
            },
    {
        if matches!(kc.key_code, KeyCode::Esc) {
            self.on_next_char = None;
            let mut partial_opt: Option<PartialKeySequence> = None;
            core::mem::swap(&mut partial_opt, &mut self.partial_key_sequence);
            match partial_opt {
                Some(partial) => {
                    let keys = partial.cancel();
                    let result = self.cancel_key_sequence(line_buffer, keys);
                    self.set_mode(HelixMode::Normal(None));
                    result
                },
                None => self.handle_helix_event(line_buffer, HelixEvent::NormalMode),
            }
        } else {
            let capture_opt = self.on_next_char;
            match capture_opt {
                Some(capture) => {
                    self.on_next_char = None;
                    match kc.key_code {
                        KeyCode::Char(c) => {
                            let mut base = repeat_command_vec(
                                &EditCommand::MoveRightBefore { c, select: true },
                                capture.count as u64,
                            );
                            let cmds = if capture.select {
                                let mut v = vec![EditCommand::Clear];
                                v.append(&mut base);
                                v
                            } else {
                                base
                            };
                            proof {
                                assert(cmds@ =~= capture_cmds(c, capture));
                            }
                            Some(ReedlineEvent::Edit(cmds))
                        },
                        _ => None,
                    }
                },
                None => {
                    let mut partial_opt: Option<PartialKeySequence> = None;
                    core::mem::swap(&mut partial_opt, &mut self.partial_key_sequence);
                    let mut partial = match partial_opt {
                        Some(p) => p,
                        None => {
                            match self.active_bindings().find_binding(
                                kc.modifier,
                                to_lowercase_key_code(kc.key_code),
                            ) {
                                Some(key_node) => {
                                    let mut entries: Vec<(KeyCombination, KeyNode)> = Vec::new();
                                    entries.push((kc, key_node));
                                    proof {
                                        assert(entries@.drop_last() =~= Seq::<
                                            (KeyCombination, KeyNode),
                                        >::empty());
                                        assert(entries@.last() == (kc, key_node));
                                        assert(crate::keybindings::entries_view(
                                            Seq::<(KeyCombination, KeyNode)>::empty(),
                                        ) == Map::<KeyCombination, NodeV>::empty());
                                        assert(crate::keybindings::entries_view(entries@)
                                            == Map::<KeyCombination, NodeV>::empty().insert(
                                            kc,
                                            old(self).active_table()[combo(
                                                kc.modifier,
                                                spec_lower_key_code(kc.key_code),
                                            )],
                                        ));
                                    }
                                    PartialKeySequence::new(Sequence { entries })
                                },
                                None => {
                                    return match kc.key_code {
                                        KeyCode::Char(c) => {
                                            if matches!(self.mode, HelixMode::Insert) {
                                                Some(edit_bind(EditCommand::InsertChar(c)))
                                            } else {
                                                if '0' <= c && c <= '9' {
                                                    match self.count {
                                                        Some(n) => {
                                                            if n < 100000000 {
                                                                let d = (c as u32) - 48;
                                                                self.count = Some(n * 10 + d);
                                                            }
                                                        },
                                                        None => {
                                                            if '1' <= c {
                                                                let d = (c as u32) - 48;
                                                                self.count = Some(d);
                                                            }
                                                        },
                                                    }
                                                }
                                                None
                                            }
                                        },
                                        _ => None,
                                    };
                                },
                            }
                        },
                    };
                    match partial.advance(kc) {
                        KeySequenceResult::Pending => {
                            self.partial_key_sequence = Some(partial);
                            None
                        },
                        KeySequenceResult::Matched(reedline_event) => {
                            proof {
                                lemma_event_view_helix(reedline_event);
                            }
                            match reedline_event {
                                ReedlineEvent::Helix(helix_event) => {
                                    self.handle_helix_event(line_buffer, helix_event)
                                },
                                other => Some(other),
                            }
                        },
                        KeySequenceResult::Cancelled(keycombinations) => {
                            self.cancel_key_sequence(line_buffer, keycombinations)
                        },
                    }
                },
            }
        }
    }
}

impl EditMode for Helix {
    open spec fn inv(&self) -> bool {
        &&& self.insert_keybindings.wf()
        &&& self.normal_keybindings.wf()
        &&& (self.partial_key_sequence matches Some(p) ==> p.wf())
        &&& (self.count matches Some(n) ==> 1 <= n <= 999999999)
    }

    fn parse_event(&mut self, line_buffer: &LineBuffer, event: ReedlineRawEvent) -> (r:
        ReedlineEvent)
        ensures
            // escape at any point, with any pending state, lands in Normal
            // mode with every pending slot cleared
            event is Key && event->Key_0.key_code is Esc ==> {
                &&& final(self).mode == HelixMode::Normal(None)
                &&& final(self).count is None
                &&& final(self).partial_key_sequence is None
                &&& final(self).on_next_char is None
            },
            // a pending continuation consumes the next key unconditionally
            old(self).on_next_char is Some && event is Key && !(event->Key_0.key_code is Esc)
                ==> {
                &&& final(self).on_next_char is None
                &&& final(self).mode == old(self).mode
                &&& r@ == (if event->Key_0.key_code is Char {
                    EventV::Edit(
                        capture_cmds(event->Key_0.key_code->Char_0, old(self).on_next_char->0),
                    )
                } else {
                    EventV::NoOp
                })
            },
            // otherwise the key goes through the matcher, the literal
            // fallback, or the repeat count
            event is Key && !(event->Key_0.key_code is Esc) && old(self).on_next_char is None
                ==> {
                let (ev_out, mode2, count2, pending2, partial2) = helix_key_dispatch(
                    old(self).normal_table(),
                    old(self).insert_table(),
                    old(self).mode,
                    old(self).count,
                    partial_view(old(self).partial_key_sequence),
                    event->Key_0,
                    ws_right(*line_buffer, 0),
                    ws_right(*line_buffer, 1),
                    ws_left1(*line_buffer),
                );
                &&& r@ == (match ev_out {
                    Some(v) => v,
                    None => EventV::NoOp,
                })
                &&& final(self).mode == mode2
                &&& final(self).count == count2
                &&& final(self).on_next_char == pending2
                &&& partial_view(final(self).partial_key_sequence) == partial2
            },
            event is Mouse ==> r@ == EventV::Mouse,
            event matches ReedlineRawEvent::Resize(w, h) ==> r@ == EventV::Resize(w, h),
            event is FocusGained || event is FocusLost ==> r@ == EventV::NoOp,
            event matches ReedlineRawEvent::Paste(body) ==> (r@ matches EventV::Edit(cs) && {
                &&& cs.len() == 1
                &&& cs[0] matches EditCommand::InsertString(out) && out@ == normalize_line_endings(
                    body@,
                )
            }),
    {
        match event {
            ReedlineRawEvent::Key(kc) => match self.handle_binding(line_buffer, kc) {
                Some(ev) => ev,
                None => ReedlineEvent::NoOp,
            },
            ReedlineRawEvent::Mouse => ReedlineEvent::Mouse,
            ReedlineRawEvent::Resize(width, height) => ReedlineEvent::Resize(width, height),
            ReedlineRawEvent::FocusGained => ReedlineEvent::NoOp,
            ReedlineRawEvent::FocusLost => ReedlineEvent::NoOp,
            ReedlineRawEvent::Paste(body) => {
                let normalized = normalize_line_endings_str(body.as_str());
                let r = ReedlineEvent::Edit(vec![EditCommand::InsertString(normalized)]);
                proof {
                    assert(r@ matches EventV::Edit(cs) && cs =~= seq![
                        EditCommand::InsertString(normalized),
                    ]);
                }
                r
            },
        }
    }

    fn edit_mode(&self) -> (r: PromptEditMode)
        ensures
            r == (match self.mode {
                HelixMode::Normal(_) => PromptEditMode::Helix(PromptHelixMode::Normal),
                HelixMode::Insert => PromptEditMode::Helix(PromptHelixMode::Insert),
            }),
    {
        match self.mode {
            HelixMode::Normal(_) => PromptEditMode::Helix(PromptHelixMode::Normal),
            HelixMode::Insert => PromptEditMode::Helix(PromptHelixMode::Insert),
        }
    }
}

impl Default for Helix {
    fn default() -> (r: Self)
        ensures
            r.inv(),
            r.insert_keybindings@ == helix_insert_default_bindings(),
            r.normal_keybindings@ == helix_normal_default_bindings(),
            r.mode == HelixMode::Insert,
            r.count is None,
            r.partial_key_sequence is None,
            r.on_next_char is None,
    {
        Self {
            insert_keybindings: default_helix_insert_keybindings(),
            normal_keybindings: default_helix_normal_keybindings(),
            mode: HelixMode::Insert,
            count: None,
            partial_key_sequence: None,
            on_next_char: None,
        }
    }
}

} // verus!
