//! Abstract editor events and concrete edit commands.
//!
//! These are the values the mode drivers emit; the surrounding line editor
//! owns the text buffer, selection, cut buffer, undo history and renderer and
//! consumes them. `ReedlineEvent` is recursive (`Multiple`, `UntilFound`), so
//! it carries a mathematical view, [`EventV`], whose list payloads are `Seq`s.

use vstd::prelude::*;

verus! {

use crate::keys::KeyCombination;

/// A concrete buffer operation. The `select` flag distinguishes a plain
/// cursor move from extending the selection.
#[derive(Clone, Debug, PartialEq, Eq)]
pub enum EditCommand {
    InsertChar(char),
    InsertString(String),
    InsertNewline,
    Backspace,
    Delete,
    BackspaceWord,
    DeleteWord,
    Clear,
    ClearSelection,
    ClearToLineEnd,
    SelectAll,
    MoveToStart { select: bool },
    MoveToEnd { select: bool },
    MoveToLineStart { select: bool },
    MoveToLineEnd { select: bool },
    MoveLeft { select: bool },
    MoveRight { select: bool },
    MoveWordLeft { select: bool },
    MoveWordRight { select: bool },
    MoveWordRightBeforeStart { select: bool },
    MoveWordRightEnd { select: bool },
    MoveBigWordLeft { select: bool },
    MoveBigWordRightBeforeStart { select: bool },
    MoveBigWordRightEnd { select: bool },
    MoveRightUntil { c: char, select: bool },
    MoveRightBefore { c: char, select: bool },
    MoveLeftUntil { c: char, select: bool },
    MoveLeftBefore { c: char, select: bool },
    CutChar,
    CutSelection,
    CutWordLeft,
    CutBigWordLeft,
    CutWordRight,
    CutBigWordRight,
    CutWordRightToNext,
    CutBigWordRightToNext,
    CutToLineEnd,
    CutFromLineStart,
    CutFromStart,
    CutCurrentLine,
    CutRightUntil(char),
    CutRightBefore(char),
    CutLeftUntil(char),
    CutLeftBefore(char),
    PasteCutBufferBefore,
    PasteCutBufferAfter,
    Undo,
    Redo,
    ReplaceChar(char),
    SwitchcaseChar,
    SwapGraphemes,
    UppercaseWord,
    LowercaseWord,
    CapitalizeChar,
}

/// Events specific to the Helix-style driver.
#[derive(Clone, Copy, Debug, PartialEq, Eq, Structural)]
pub enum HelixEvent {
    /// Return to Normal mode, clearing all pending state.
    NormalMode,
    /// A Normal-mode command.
    Normal(HelixNormal),
}

/// Normal-mode commands of the Helix-style driver.
#[derive(Clone, Copy, Debug, PartialEq, Eq, Structural)]
pub enum HelixNormal {
    InsertMode,
    SelectMode,
    MoveCharLeft,
    MoveVisualLineDown,
    MoveVisualLineUp,
    MoveCharRight,
    MoveNextWordStart,
    MovePrevWordStart,
    MoveNextWordEnd,
    MoveNextLongWordStart,
    MovePrevLongWordStart,
    MoveNextLongWordEnd,
    FindTillChar,
}

/// An abstract editor event handed to the surrounding line editor.
#[derive(Debug, PartialEq, Eq)]
pub enum ReedlineEvent {
    /// No op event.
    NoOp,
    /// Complete a history hint.
    HistoryHintComplete,
    /// Complete a single token of a history hint.
    HistoryHintWordComplete,
    /// Handle EndOfLine event.
    CtrlD,
    /// Handle SIGTERM key input.
    CtrlC,
    /// Clears the screen and sets prompt to first line.
    ClearScreen,
    /// Handle enter event.
    Enter,
    /// Esc event.
    Esc,
    /// Mouse event, passed through opaquely.
    Mouse,
    /// Terminal resize to (width, height).
    Resize(u16, u16),
    /// Run a single edit command on the buffer.
    Edit(Vec<EditCommand>),
    /// Trigger a full repaint.
    Repaint,
    /// Move up one line (or to the previous history entry).
    Up,
    /// Move down one line (or to the next history entry).
    Down,
    /// Move right one character.
    Right,
    /// Move left one character.
    Left,
    /// Search the history for a string.
    SearchHistory,
    /// Open the external editor.
    OpenEditor,
    /// Navigate up inside a menu.
    MenuUp,
    /// Navigate down inside a menu.
    MenuDown,
    /// Navigate left inside a menu.
    MenuLeft,
    /// Navigate right inside a menu.
    MenuRight,
    /// Composite event: all of these, in order.
    Multiple(Vec<ReedlineEvent>),
    /// Ordered alternatives: the consumer tries each until one has effect.
    UntilFound(Vec<ReedlineEvent>),
    /// An event of the Helix-style driver.
    Helix(HelixEvent),
}

/// Mathematical view of [`ReedlineEvent`]: the same tree with `Seq` payloads.
pub enum EventV {
    NoOp,
    HistoryHintComplete,
    HistoryHintWordComplete,
    CtrlD,
    CtrlC,
    ClearScreen,
    Enter,
    Esc,
    Mouse,
    Resize(u16, u16),
    Edit(Seq<EditCommand>),
    Repaint,
    Up,
    Down,
    Right,
    Left,
    SearchHistory,
    OpenEditor,
    MenuUp,
    MenuDown,
    MenuLeft,
    MenuRight,
    Multiple(Seq<EventV>),
    UntilFound(Seq<EventV>),
    Helix(HelixEvent),
}

pub open spec fn event_view(e: ReedlineEvent) -> EventV
    decreases e,
{
    match e {
        ReedlineEvent::NoOp => EventV::NoOp,
        ReedlineEvent::HistoryHintComplete => EventV::HistoryHintComplete,
        ReedlineEvent::HistoryHintWordComplete => EventV::HistoryHintWordComplete,
        ReedlineEvent::CtrlD => EventV::CtrlD,
        ReedlineEvent::CtrlC => EventV::CtrlC,
        ReedlineEvent::ClearScreen => EventV::ClearScreen,
        ReedlineEvent::Enter => EventV::Enter,
        ReedlineEvent::Esc => EventV::Esc,
        ReedlineEvent::Mouse => EventV::Mouse,
        ReedlineEvent::Resize(w, h) => EventV::Resize(w, h),
        ReedlineEvent::Edit(commands) => EventV::Edit(commands@),
        ReedlineEvent::Repaint => EventV::Repaint,
        ReedlineEvent::Up => EventV::Up,
        ReedlineEvent::Down => EventV::Down,
        ReedlineEvent::Right => EventV::Right,
        ReedlineEvent::Left => EventV::Left,
        ReedlineEvent::SearchHistory => EventV::SearchHistory,
        ReedlineEvent::OpenEditor => EventV::OpenEditor,
        ReedlineEvent::MenuUp => EventV::MenuUp,
        ReedlineEvent::MenuDown => EventV::MenuDown,
        ReedlineEvent::MenuLeft => EventV::MenuLeft,
        ReedlineEvent::MenuRight => EventV::MenuRight,
        ReedlineEvent::Multiple(events) => EventV::Multiple(events_view(events@)),
        ReedlineEvent::UntilFound(events) => EventV::UntilFound(events_view(events@)),
        ReedlineEvent::Helix(h) => EventV::Helix(h),
    }
}

pub open spec fn events_view(s: Seq<ReedlineEvent>) -> Seq<EventV>
    decreases s,
{
    if s.len() == 0 {
        Seq::empty()
    } else {
        seq![event_view(s[0])] + events_view(s.drop_first())
    }
}

/// Pointwise characterization of [`events_view`].
pub broadcast proof fn lemma_events_view(s: Seq<ReedlineEvent>)
    ensures
        #[trigger] events_view(s).len() == s.len(),
        forall|i: int| 0 <= i < s.len() ==> events_view(s)[i] == event_view(s[i]),
    decreases s.len(),
{
    if s.len() > 0 {
        lemma_events_view(s.drop_first());
    }
}

impl View for ReedlineEvent {
    type V = EventV;

    open spec fn view(&self) -> EventV {
        event_view(*self)
    }
}

/// Copy of a single edit command, equal to its input.
pub fn clone_command(c: &EditCommand) -> (r: EditCommand)
    ensures
        r == *c,
{
    match c {
        EditCommand::InsertChar(x) => EditCommand::InsertChar(*x),
        EditCommand::InsertString(s) => EditCommand::InsertString(s.clone()),
        EditCommand::InsertNewline => EditCommand::InsertNewline,
        EditCommand::Backspace => EditCommand::Backspace,
        EditCommand::Delete => EditCommand::Delete,
        EditCommand::BackspaceWord => EditCommand::BackspaceWord,
        EditCommand::DeleteWord => EditCommand::DeleteWord,
        EditCommand::Clear => EditCommand::Clear,
        EditCommand::ClearSelection => EditCommand::ClearSelection,
        EditCommand::ClearToLineEnd => EditCommand::ClearToLineEnd,
        EditCommand::SelectAll => EditCommand::SelectAll,
        EditCommand::MoveToStart { select } => EditCommand::MoveToStart { select: *select },
        EditCommand::MoveToEnd { select } => EditCommand::MoveToEnd { select: *select },
        EditCommand::MoveToLineStart { select } => EditCommand::MoveToLineStart {
            select: *select,
        },
        EditCommand::MoveToLineEnd { select } => EditCommand::MoveToLineEnd { select: *select },
        EditCommand::MoveLeft { select } => EditCommand::MoveLeft { select: *select },
        EditCommand::MoveRight { select } => EditCommand::MoveRight { select: *select },
        EditCommand::MoveWordLeft { select } => EditCommand::MoveWordLeft { select: *select },
        EditCommand::MoveWordRight { select } => EditCommand::MoveWordRight { select: *select },
        EditCommand::MoveWordRightBeforeStart { select } => {
            EditCommand::MoveWordRightBeforeStart { select: *select }
        },
        EditCommand::MoveWordRightEnd { select } => EditCommand::MoveWordRightEnd {
            select: *select,
        },
        EditCommand::MoveBigWordLeft { select } => EditCommand::MoveBigWordLeft {
            select: *select,
        },
        EditCommand::MoveBigWordRightBeforeStart { select } => {
            EditCommand::MoveBigWordRightBeforeStart { select: *select }
        },
        EditCommand::MoveBigWordRightEnd { select } => EditCommand::MoveBigWordRightEnd {
            select: *select,
        },
        EditCommand::MoveRightUntil { c, select } => EditCommand::MoveRightUntil {
            c: *c,
            select: *select,
        },
        EditCommand::MoveRightBefore { c, select } => EditCommand::MoveRightBefore {
            c: *c,
            select: *select,
        },
        EditCommand::MoveLeftUntil { c, select } => EditCommand::MoveLeftUntil {
            c: *c,
            select: *select,
        },
        EditCommand::MoveLeftBefore { c, select } => EditCommand::MoveLeftBefore {
            c: *c,
            select: *select,
        },
        EditCommand::CutChar => EditCommand::CutChar,
        EditCommand::CutSelection => EditCommand::CutSelection,
        EditCommand::CutWordLeft => EditCommand::CutWordLeft,
        EditCommand::CutBigWordLeft => EditCommand::CutBigWordLeft,
        EditCommand::CutWordRight => EditCommand::CutWordRight,
        EditCommand::CutBigWordRight => EditCommand::CutBigWordRight,
        EditCommand::CutWordRightToNext => EditCommand::CutWordRightToNext,
        EditCommand::CutBigWordRightToNext => EditCommand::CutBigWordRightToNext,
        EditCommand::CutToLineEnd => EditCommand::CutToLineEnd,
        EditCommand::CutFromLineStart => EditCommand::CutFromLineStart,
        EditCommand::CutFromStart => EditCommand::CutFromStart,
        EditCommand::CutCurrentLine => EditCommand::CutCurrentLine,
        EditCommand::CutRightUntil(x) => EditCommand::CutRightUntil(*x),
        EditCommand::CutRightBefore(x) => EditCommand::CutRightBefore(*x),
        EditCommand::CutLeftUntil(x) => EditCommand::CutLeftUntil(*x),
        EditCommand::CutLeftBefore(x) => EditCommand::CutLeftBefore(*x),
        EditCommand::PasteCutBufferBefore => EditCommand::PasteCutBufferBefore,
        EditCommand::PasteCutBufferAfter => EditCommand::PasteCutBufferAfter,
        EditCommand::Undo => EditCommand::Undo,
        EditCommand::Redo => EditCommand::Redo,
        EditCommand::ReplaceChar(x) => EditCommand::ReplaceChar(*x),
        EditCommand::SwitchcaseChar => EditCommand::SwitchcaseChar,
        EditCommand::SwapGraphemes => EditCommand::SwapGraphemes,
        EditCommand::UppercaseWord => EditCommand::UppercaseWord,
        EditCommand::LowercaseWord => EditCommand::LowercaseWord,
        EditCommand::CapitalizeChar => EditCommand::CapitalizeChar,
    }
}

/// Copy of a list of edit commands, equal (as a sequence) to its input.
pub fn clone_commands(v: &Vec<EditCommand>) -> (r: Vec<EditCommand>)
    ensures
        r@ == v@,
{
    let mut r: Vec<EditCommand> = Vec::new();
    let mut i: usize = 0;
    while i < v.len()
        invariant
            i <= v.len(),
            r@ == v@.subrange(0, i as int),
        decreases v.len() - i,
    {
        r.push(clone_command(&v[i]));
        proof {
            assert(r@ =~= v@.subrange(0, i + 1));
        }
        i = i + 1;
    }
    proof {
        assert(r@ =~= v@);
    }
    r
}

/// Copy of an event, with the same view as its input.
pub fn clone_event(e: &ReedlineEvent) -> (r: ReedlineEvent)
    ensures
        r@ == e@,
    decreases *e,
{
    match e {
        ReedlineEvent::NoOp => ReedlineEvent::NoOp,
        ReedlineEvent::HistoryHintComplete => ReedlineEvent::HistoryHintComplete,
        ReedlineEvent::HistoryHintWordComplete => ReedlineEvent::HistoryHintWordComplete,
        ReedlineEvent::CtrlD => ReedlineEvent::CtrlD,
        ReedlineEvent::CtrlC => ReedlineEvent::CtrlC,
        ReedlineEvent::ClearScreen => ReedlineEvent::ClearScreen,
        ReedlineEvent::Enter => ReedlineEvent::Enter,
        ReedlineEvent::Esc => ReedlineEvent::Esc,
        ReedlineEvent::Mouse => ReedlineEvent::Mouse,
        ReedlineEvent::Resize(w, h) => ReedlineEvent::Resize(*w, *h),
        ReedlineEvent::Edit(commands) => ReedlineEvent::Edit(clone_commands(commands)),
        ReedlineEvent::Repaint => ReedlineEvent::Repaint,
        ReedlineEvent::Up => ReedlineEvent::Up,
        ReedlineEvent::Down => ReedlineEvent::Down,
        ReedlineEvent::Right => ReedlineEvent::Right,
        ReedlineEvent::Left => ReedlineEvent::Left,
        ReedlineEvent::SearchHistory => ReedlineEvent::SearchHistory,
        ReedlineEvent::OpenEditor => ReedlineEvent::OpenEditor,
        ReedlineEvent::MenuUp => ReedlineEvent::MenuUp,
        ReedlineEvent::MenuDown => ReedlineEvent::MenuDown,
        ReedlineEvent::MenuLeft => ReedlineEvent::MenuLeft,
        ReedlineEvent::MenuRight => ReedlineEvent::MenuRight,
        ReedlineEvent::Multiple(events) => ReedlineEvent::Multiple(clone_events(events)),
        ReedlineEvent::UntilFound(events) => ReedlineEvent::UntilFound(clone_events(events)),
        ReedlineEvent::Helix(h) => ReedlineEvent::Helix(*h),
    }
}

/// Copy of a list of events, with the same views as its input.
pub fn clone_events(v: &Vec<ReedlineEvent>) -> (r: Vec<ReedlineEvent>)
    ensures
        events_view(r@) == events_view(v@),
        r@.len() == v@.len(),
    decreases *v,
{
    let mut r: Vec<ReedlineEvent> = Vec::new();
    let mut i: usize = 0;
    while i < v.len()
        invariant
            i <= v.len(),
            r@.len() == i,
            forall|j: int| 0 <= j < i ==> event_view(r@[j]) == event_view(v@[j]),
        decreases v.len() - i,
    {
        proof {
            assert(decreases_to!(*v => v@[i as int]));
        }
        let c = clone_event(&v[i]);
        r.push(c);
        i = i + 1;
    }
    proof {
        lemma_events_view(r@);
        lemma_events_view(v@);
        assert(events_view(r@) =~= events_view(v@));
    }
    r
}

/// Wraps a single edit command as an editor event.
pub fn edit_bind(command: EditCommand) -> (r: ReedlineEvent)
    ensures
        r@ == EventV::Edit(seq![command]),
{
    let r = ReedlineEvent::Edit(vec![command]);
    proof {
        assert(r@ matches EventV::Edit(s) && s =~= seq![command]);
    }
    r
}

/// An event's view is a Helix event exactly when the event itself is.
pub proof fn lemma_event_view_helix(e: ReedlineEvent)
    ensures
        (event_view(e) is Helix) <==> (e is Helix),
        e is Helix ==> event_view(e) == EventV::Helix(e->Helix_0),
{
    match e {
        ReedlineEvent::NoOp => {},
        ReedlineEvent::HistoryHintComplete => {},
        ReedlineEvent::HistoryHintWordComplete => {},
        ReedlineEvent::CtrlD => {},
        ReedlineEvent::CtrlC => {},
        ReedlineEvent::ClearScreen => {},
        ReedlineEvent::Enter => {},
        ReedlineEvent::Esc => {},
        ReedlineEvent::Mouse => {},
        ReedlineEvent::Resize(_, _) => {},
        ReedlineEvent::Edit(_) => {},
        ReedlineEvent::Repaint => {},
        ReedlineEvent::Up => {},
        ReedlineEvent::Down => {},
        ReedlineEvent::Right => {},
        ReedlineEvent::Left => {},
        ReedlineEvent::SearchHistory => {},
        ReedlineEvent::OpenEditor => {},
        ReedlineEvent::MenuUp => {},
        ReedlineEvent::MenuDown => {},
        ReedlineEvent::MenuLeft => {},
        ReedlineEvent::MenuRight => {},
        ReedlineEvent::Multiple(_) => {},
        ReedlineEvent::UntilFound(_) => {},
        ReedlineEvent::Helix(_) => {},
    }
}

/// The view of an optional event.
pub open spec fn option_event_view(r: Option<ReedlineEvent>) -> Option<EventV> {
    match r {
        Some(e) => Some(event_view(e)),
        None => None,
    }
}

/// What the prompt indicator displays for the active mode.
#[derive(Clone, Copy, Debug, PartialEq, Eq, Structural)]
pub enum PromptEditMode {
    Emacs,
    Vi(PromptViMode),
    Helix(PromptHelixMode),
}

/// Vi sub-mode shown in the prompt.
#[derive(Clone, Copy, Debug, PartialEq, Eq, Structural)]
pub enum PromptViMode {
    Normal,
    Insert,
}

/// Helix sub-mode shown in the prompt.
#[derive(Clone, Copy, Debug, PartialEq, Eq, Structural)]
pub enum PromptHelixMode {
    Normal,
    Insert,
}

/// A raw terminal input event, already brought to canonical form by the
/// surrounding program: a key press with its modifier set, or one of the
/// pass-through events.
#[derive(Clone, Debug, PartialEq, Eq)]
pub enum ReedlineRawEvent {
    Key(KeyCombination),
    Mouse,
    Resize(u16, u16),
    FocusGained,
    FocusLost,
    Paste(String),
}

} // verus!
