//! The command half of the Vi grammar: self-contained commands,
//! two-character compound commands, and the operators that require a motion.

use vstd::prelude::*;

verus! {

use crate::events::{EditCommand, EventV, ReedlineEvent, clone_event, option_event_view};
use crate::vi::Vi;
use crate::vi_parser::{Motion, ReedlineOption, ReedlineOptionV, lemma_options_view, options_view};

/// A Normal-mode command token.
#[derive(Clone, Copy, Debug, PartialEq, Eq, Structural)]
pub enum Command {
    /// A valid command prefix that still needs its final character.
    Incomplete,
    Delete,
    DeleteChar,
    ReplaceChar(char),
    SubstituteCharWithInsert,
    PasteAfter,
    PasteBefore,
    EnterViAppend,
    EnterViInsert,
    Undo,
    ChangeToLineEnd,
    DeleteToEnd,
    AppendToEnd,
    PrependToStart,
    RewriteCurrentLine,
    Change,
    HistorySearch,
    Switchcase,
    RepeatLastAction,
    ChangeInside(char),
    DeleteInside(char),
}

/// Whether `c` opens a bracket text-object (quote characters pair with
/// themselves).
pub open spec fn spec_valid_change_inside_left(c: char) -> bool {
    c == '(' || c == '[' || c == '{' || c == '"' || c == '\'' || c == '`' || c == '<'
}

/// Whether `c` closes a bracket text-object.
pub open spec fn spec_valid_change_inside_right(c: char) -> bool {
    c == ')' || c == ']' || c == '}' || c == '"' || c == '\'' || c == '`' || c == '>'
}

pub fn is_valid_change_inside_left(c: &char) -> (r: bool)
    ensures
        r == spec_valid_change_inside_left(*c),
{
    match *c {
        '(' | '[' | '{' | '"' | '\'' | '`' | '<' => true,
        _ => false,
    }
}

pub fn is_valid_change_inside_right(c: &char) -> (r: bool)
    ensures
        r == spec_valid_change_inside_right(*c),
{
    match *c {
        ')' | ']' | '}' | '"' | '\'' | '`' | '>' => true,
        _ => false,
    }
}

/// The counterpart of a bracket character; a character outside the bracket
/// pairs maps to itself (quotes pair with themselves).
pub open spec fn spec_bracket_for(c: char) -> char {
    if c == '(' {
        ')'
    } else if c == '[' {
        ']'
    } else if c == '{' {
        '}'
    } else if c == '<' {
        '>'
    } else if c == ')' {
        '('
    } else if c == ']' {
        '['
    } else if c == '}' {
        '{'
    } else if c == '>' {
        '<'
    } else {
        c
    }
}

pub fn bracket_for(c: &char) -> (r: char)
    ensures
        r == spec_bracket_for(*c),
{
    match *c {
        '(' => ')',
        '[' => ']',
        '{' => '}',
        '<' => '>',
        ')' => '(',
        ']' => '[',
        '}' => '{',
        '>' => '<',
        _ => *c,
    }
}

/// One step of command parsing over the character queue, starting at index
/// `i`: the parsed command (if the prefix is one) and the index just past
/// what was consumed. A two-character compound whose final character is
/// missing parses as `Incomplete`; one with an invalid final character
/// consumes it and yields no command.
pub open spec fn spec_parse_command(s: Seq<char>, i: int) -> (Option<Command>, int) {
    if !(0 <= i < s.len()) {
        (None, i)
    } else if s[i] == 'd' || s[i] == 'c' {
        if i + 1 < s.len() && s[i + 1] == 'i' {
            if i + 2 < s.len() {
                if spec_valid_change_inside_left(s[i + 2]) || spec_valid_change_inside_right(
                    s[i + 2],
                ) {
                    (
                        Some(
                            if s[i] == 'd' {
                                Command::DeleteInside(s[i + 2])
                            } else {
                                Command::ChangeInside(s[i + 2])
                            },
                        ),
                        i + 3,
                    )
                } else {
                    (None, i + 3)
                }
            } else {
                (Some(Command::Incomplete), i + 2)
            }
        } else {
            (
                Some(
                    if s[i] == 'd' {
                        Command::Delete
                    } else {
                        Command::Change
                    },
                ),
                i + 1,
            )
        }
    } else if s[i] == 'r' {
        if i + 1 < s.len() {
            (Some(Command::ReplaceChar(s[i + 1])), i + 2)
        } else {
            (Some(Command::Incomplete), i + 1)
        }
    } else if s[i] == 'p' {
        (Some(Command::PasteAfter), i + 1)
    } else if s[i] == 'P' {
        (Some(Command::PasteBefore), i + 1)
    } else if s[i] == 'i' {
        (Some(Command::EnterViInsert), i + 1)
    } else if s[i] == 'a' {
        (Some(Command::EnterViAppend), i + 1)
    } else if s[i] == 'u' {
        (Some(Command::Undo), i + 1)
    } else if s[i] == 'x' {
        (Some(Command::DeleteChar), i + 1)
    } else if s[i] == 's' {
        (Some(Command::SubstituteCharWithInsert), i + 1)
    } else if s[i] == '?' {
        (Some(Command::HistorySearch), i + 1)
    } else if s[i] == 'C' {
        (Some(Command::ChangeToLineEnd), i + 1)
    } else if s[i] == 'D' {
        (Some(Command::DeleteToEnd), i + 1)
    } else if s[i] == 'I' {
        (Some(Command::PrependToStart), i + 1)
    } else if s[i] == 'A' {
        (Some(Command::AppendToEnd), i + 1)
    } else if s[i] == 'S' {
        (Some(Command::RewriteCurrentLine), i + 1)
    } else if s[i] == '~' {
        (Some(Command::Switchcase), i + 1)
    } else if s[i] == '.' {
        (Some(Command::RepeatLastAction), i + 1)
    } else {
        (None, i)
    }
}

/// Parse one command token from the character queue at index `start`.
pub fn parse_command(input: &Vec<char>, start: usize) -> (r: (Option<Command>, usize))
    requires
        start <= input@.len(),
    ensures
        (r.0, r.1 as int) == spec_parse_command(input@, start as int),
        start <= r.1 <= input@.len(),
{
    if start >= input.len() {
        return (None, start);
    }
    let c = input[start];
    match c {
        'd' | 'c' => {
            if start + 1 < input.len() && input[start + 1] == 'i' {
                if start + 2 < input.len() {
                    let b = input[start + 2];
                    if is_valid_change_inside_left(&b) || is_valid_change_inside_right(&b) {
                        if c == 'd' {
                            (Some(Command::DeleteInside(b)), start + 3)
                        } else {
                            (Some(Command::ChangeInside(b)), start + 3)
                        }
                    } else {
                        (None, start + 3)
                    }
                } else {
                    (Some(Command::Incomplete), start + 2)
                }
            } else {
                if c == 'd' {
                    (Some(Command::Delete), start + 1)
                } else {
                    (Some(Command::Change), start + 1)
                }
            }
        },
        'r' => {
            if start + 1 < input.len() {
                (Some(Command::ReplaceChar(input[start + 1])), start + 2)
            } else {
                (Some(Command::Incomplete), start + 1)
            }
        },
        'p' => (Some(Command::PasteAfter), start + 1),
        'P' => (Some(Command::PasteBefore), start + 1),
        'i' => (Some(Command::EnterViInsert), start + 1),
        'a' => (Some(Command::EnterViAppend), start + 1),
        'u' => (Some(Command::Undo), start + 1),
        'x' => (Some(Command::DeleteChar), start + 1),
        's' => (Some(Command::SubstituteCharWithInsert), start + 1),
        '?' => (Some(Command::HistorySearch), start + 1),
        'C' => (Some(Command::ChangeToLineEnd), start + 1),
        'D' => (Some(Command::DeleteToEnd), start + 1),
        'I' => (Some(Command::PrependToStart), start + 1),
        'A' => (Some(Command::AppendToEnd), start + 1),
        'S' => (Some(Command::RewriteCurrentLine), start + 1),
        '~' => (Some(Command::Switchcase), start + 1),
        '.' => (Some(Command::RepeatLastAction), start + 1),
        _ => (None, start),
    }
}

/// The options a self-contained command translates to, given the most
/// recently emitted event (consumed by the repeat command).
pub open spec fn cmd_options(cmd: Command, previous: Option<EventV>) -> Seq<ReedlineOptionV> {
    match cmd {
        Command::EnterViInsert => seq![ReedlineOptionV::Event(EventV::Repaint)],
        Command::EnterViAppend => seq![
            ReedlineOptionV::Edit(EditCommand::MoveRight { select: false }),
        ],
        Command::PasteAfter => seq![ReedlineOptionV::Edit(EditCommand::PasteCutBufferAfter)],
        Command::PasteBefore => seq![ReedlineOptionV::Edit(EditCommand::PasteCutBufferBefore)],
        Command::Undo => seq![ReedlineOptionV::Edit(EditCommand::Undo)],
        Command::ChangeToLineEnd => seq![ReedlineOptionV::Edit(EditCommand::ClearToLineEnd)],
        Command::DeleteToEnd => seq![ReedlineOptionV::Edit(EditCommand::CutToLineEnd)],
        Command::AppendToEnd => seq![
            ReedlineOptionV::Edit(EditCommand::MoveToLineEnd { select: false }),
        ],
        Command::PrependToStart => seq![
            ReedlineOptionV::Edit(EditCommand::MoveToLineStart { select: false }),
        ],
        Command::RewriteCurrentLine => seq![ReedlineOptionV::Edit(EditCommand::CutCurrentLine)],
        Command::DeleteChar => seq![ReedlineOptionV::Edit(EditCommand::CutChar)],
        Command::ReplaceChar(c) => seq![ReedlineOptionV::Edit(EditCommand::ReplaceChar(c))],
        Command::SubstituteCharWithInsert => seq![ReedlineOptionV::Edit(EditCommand::CutChar)],
        Command::HistorySearch => seq![ReedlineOptionV::Event(EventV::SearchHistory)],
        Command::Switchcase => seq![ReedlineOptionV::Edit(EditCommand::SwitchcaseChar)],
        // whenever a motion is required to finish the command, the driver is
        // in visual mode and the selection is cut
        Command::Delete => seq![ReedlineOptionV::Edit(EditCommand::CutSelection)],
        Command::Change => seq![ReedlineOptionV::Edit(EditCommand::CutSelection)],
        Command::Incomplete => seq![ReedlineOptionV::Incomplete],
        Command::RepeatLastAction => match previous {
            Some(ev) => seq![ReedlineOptionV::Event(ev)],
            None => Seq::empty(),
        },
        Command::ChangeInside(c) => bracket_pair_options(c),
        Command::DeleteInside(c) => bracket_pair_options(c),
    }
}

/// The cut pair of a bracket text-object: cut leftwards to just after the
/// opening delimiter and rightwards to just before the closing one.
pub open spec fn bracket_pair_options(c: char) -> Seq<ReedlineOptionV> {
    if spec_valid_change_inside_left(c) {
        seq![
            ReedlineOptionV::Edit(EditCommand::CutLeftBefore(c)),
            ReedlineOptionV::Edit(EditCommand::CutRightBefore(spec_bracket_for(c))),
        ]
    } else if spec_valid_change_inside_right(c) {
        seq![
            ReedlineOptionV::Edit(EditCommand::CutLeftBefore(spec_bracket_for(c))),
            ReedlineOptionV::Edit(EditCommand::CutRightBefore(c)),
        ]
    } else {
        Seq::empty()
    }
}

/// Law: a bracket text-object always cuts the same pair, whichever side of
/// the pair introduced the command: everything strictly between the opening
/// delimiter and the closing delimiter is cut.
pub proof fn lemma_change_inside_pair(c: char, previous: Option<EventV>)
    requires
        spec_valid_change_inside_left(c) || spec_valid_change_inside_right(c),
    ensures
        ({
            let left = if spec_valid_change_inside_left(c) {
                c
            } else {
                spec_bracket_for(c)
            };
            let right = if spec_valid_change_inside_left(c) {
                spec_bracket_for(c)
            } else {
                c
            };
            &&& cmd_options(Command::ChangeInside(c), previous) == seq![
                ReedlineOptionV::Edit(EditCommand::CutLeftBefore(left)),
                ReedlineOptionV::Edit(EditCommand::CutRightBefore(right)),
            ]
            &&& cmd_options(Command::DeleteInside(c), previous) == cmd_options(
                Command::ChangeInside(c),
                previous,
            )
        }),
{
}

impl Command {
    /// The character that, repeated after this operator, selects the whole
    /// line (`dd`, `cc`).
    pub open spec fn spec_whole_line_char(self) -> Option<char> {
        match self {
            Command::Delete => Some('d'),
            Command::Change => Some('c'),
            _ => None,
        }
    }

    pub fn whole_line_char(&self) -> (r: Option<char>)
        ensures
            r == self.spec_whole_line_char(),
    {
        match self {
            Command::Delete => Some('d'),
            Command::Change => Some('c'),
            _ => None,
        }
    }

    /// Whether the command is an operator that requires a following motion.
    pub open spec fn spec_requires_motion(self) -> bool {
        self == Command::Delete || self == Command::Change
    }

    pub fn requires_motion(&self) -> (r: bool)
        ensures
            r == self.spec_requires_motion(),
    {
        match self {
            Command::Delete | Command::Change => true,
            _ => false,
        }
    }

    /// Translate a self-contained command into its options. Only the repeat
    /// command reads the driver state (the most recently emitted event).
    pub fn to_reedline(&self, vi_state: &Vi) -> (r: Vec<ReedlineOption>)
        ensures
            options_view(r@) == cmd_options(*self, option_event_view(vi_state.previous)),
    {
        let r: Vec<ReedlineOption> = match self {
            Command::EnterViInsert => vec![ReedlineOption::Event(ReedlineEvent::Repaint)],
            Command::EnterViAppend => vec![
                ReedlineOption::Edit(EditCommand::MoveRight { select: false }),
            ],
            Command::PasteAfter => vec![ReedlineOption::Edit(EditCommand::PasteCutBufferAfter)],
            Command::PasteBefore => vec![ReedlineOption::Edit(EditCommand::PasteCutBufferBefore)],
            Command::Undo => vec![ReedlineOption::Edit(EditCommand::Undo)],
            Command::ChangeToLineEnd => vec![ReedlineOption::Edit(EditCommand::ClearToLineEnd)],
            Command::DeleteToEnd => vec![ReedlineOption::Edit(EditCommand::CutToLineEnd)],
            Command::AppendToEnd => vec![
                ReedlineOption::Edit(EditCommand::MoveToLineEnd { select: false }),
            ],
            Command::PrependToStart => vec![
                ReedlineOption::Edit(EditCommand::MoveToLineStart { select: false }),
            ],
            Command::RewriteCurrentLine => vec![ReedlineOption::Edit(EditCommand::CutCurrentLine)],
            Command::DeleteChar => vec![ReedlineOption::Edit(EditCommand::CutChar)],
            Command::ReplaceChar(c) => vec![ReedlineOption::Edit(EditCommand::ReplaceChar(*c))],
            Command::SubstituteCharWithInsert => vec![ReedlineOption::Edit(EditCommand::CutChar)],
            Command::HistorySearch => vec![ReedlineOption::Event(ReedlineEvent::SearchHistory)],
            Command::Switchcase => vec![ReedlineOption::Edit(EditCommand::SwitchcaseChar)],
            Command::Delete => vec![ReedlineOption::Edit(EditCommand::CutSelection)],
            Command::Change => vec![ReedlineOption::Edit(EditCommand::CutSelection)],
            Command::Incomplete => vec![ReedlineOption::Incomplete],
            Command::RepeatLastAction => {
                match &vi_state.previous {
                    Some(event) => vec![ReedlineOption::Event(clone_event(event))],
                    None => Vec::new(),
                }
            },
            Command::ChangeInside(c) => bracket_pair_vec(*c),
            Command::DeleteInside(c) => bracket_pair_vec(*c),
        };
        proof {
            crate::vi_parser::lemma_options_view(r@);
            assert(options_view(r@) =~= cmd_options(*self, option_event_view(vi_state.previous)));
        }
        r
    }
}

/// The options an operator plus motion translate to, or nothing when the
/// pair has no meaning (vertical motions, or a replay with no remembered
/// search). The change operator appends a repaint, since it also enters
/// insert mode.
pub open spec fn cmd_motion_options(
    cmd: Command,
    m: Motion,
    last: Option<crate::vi_parser::ViCharSearch>,
) -> Option<Seq<ReedlineOptionV>> {
    if cmd == Command::Delete {
        delete_motion_options(m, last)
    } else if cmd == Command::Change {
        match change_motion_options(m, last) {
            Some(opts) => Some(opts.push(ReedlineOptionV::Event(EventV::Repaint))),
            None => None,
        }
    } else {
        None
    }
}

/// What the delete operator cuts for each motion.
pub open spec fn delete_motion_options(
    m: Motion,
    last: Option<crate::vi_parser::ViCharSearch>,
) -> Option<Seq<ReedlineOptionV>> {
    match m {
        Motion::End => Some(seq![ReedlineOptionV::Edit(EditCommand::CutToLineEnd)]),
        Motion::Line => Some(seq![ReedlineOptionV::Edit(EditCommand::CutCurrentLine)]),
        Motion::NextWord => Some(seq![ReedlineOptionV::Edit(EditCommand::CutWordRightToNext)]),
        Motion::NextBigWord => Some(
            seq![ReedlineOptionV::Edit(EditCommand::CutBigWordRightToNext)],
        ),
        Motion::NextWordEnd => Some(seq![ReedlineOptionV::Edit(EditCommand::CutWordRight)]),
        Motion::NextBigWordEnd => Some(seq![ReedlineOptionV::Edit(EditCommand::CutBigWordRight)]),
        Motion::PreviousWord => Some(seq![ReedlineOptionV::Edit(EditCommand::CutWordLeft)]),
        Motion::PreviousBigWord => Some(seq![ReedlineOptionV::Edit(EditCommand::CutBigWordLeft)]),
        Motion::RightUntil(c) => Some(seq![ReedlineOptionV::Edit(EditCommand::CutRightUntil(c))]),
        Motion::RightBefore(c) => Some(seq![ReedlineOptionV::Edit(EditCommand::CutRightBefore(c))]),
        Motion::LeftUntil(c) => Some(seq![ReedlineOptionV::Edit(EditCommand::CutLeftUntil(c))]),
        Motion::LeftBefore(c) => Some(seq![ReedlineOptionV::Edit(EditCommand::CutLeftBefore(c))]),
        Motion::Start => Some(seq![ReedlineOptionV::Edit(EditCommand::CutFromLineStart)]),
        Motion::Left => Some(seq![ReedlineOptionV::Edit(EditCommand::Backspace)]),
        Motion::Right => Some(seq![ReedlineOptionV::Edit(EditCommand::Delete)]),
        Motion::Up => None,
        Motion::Down => None,
        Motion::ReplayCharSearch => match last {
            Some(search) => Some(seq![ReedlineOptionV::Edit(search.spec_to_cut())]),
            None => None,
        },
        Motion::ReverseCharSearch => match last {
            Some(search) => Some(seq![ReedlineOptionV::Edit(search.spec_reverse().spec_to_cut())]),
            None => None,
        },
    }
}

/// What the change operator cuts for each motion (before its repaint).
pub open spec fn change_motion_options(
    m: Motion,
    last: Option<crate::vi_parser::ViCharSearch>,
) -> Option<Seq<ReedlineOptionV>> {
    match m {
        Motion::End => Some(seq![ReedlineOptionV::Edit(EditCommand::CutToLineEnd)]),
        Motion::Line => Some(
            seq![
                ReedlineOptionV::Edit(EditCommand::MoveToLineStart { select: false }),
                ReedlineOptionV::Edit(EditCommand::CutToLineEnd),
            ],
        ),
        Motion::NextWord => Some(seq![ReedlineOptionV::Edit(EditCommand::CutWordRight)]),
        Motion::NextBigWord => Some(seq![ReedlineOptionV::Edit(EditCommand::CutBigWordRight)]),
        Motion::NextWordEnd => Some(seq![ReedlineOptionV::Edit(EditCommand::CutWordRight)]),
        Motion::NextBigWordEnd => Some(seq![ReedlineOptionV::Edit(EditCommand::CutBigWordRight)]),
        Motion::PreviousWord => Some(seq![ReedlineOptionV::Edit(EditCommand::CutWordLeft)]),
        Motion::PreviousBigWord => Some(seq![ReedlineOptionV::Edit(EditCommand::CutBigWordLeft)]),
        Motion::RightUntil(c) => Some(seq![ReedlineOptionV::Edit(EditCommand::CutRightUntil(c))]),
        Motion::RightBefore(c) => Some(seq![ReedlineOptionV::Edit(EditCommand::CutRightBefore(c))]),
        Motion::LeftUntil(c) => Some(seq![ReedlineOptionV::Edit(EditCommand::CutLeftUntil(c))]),
        Motion::LeftBefore(c) => Some(seq![ReedlineOptionV::Edit(EditCommand::CutLeftBefore(c))]),
        Motion::Start => Some(seq![ReedlineOptionV::Edit(EditCommand::CutFromLineStart)]),
        Motion::Left => Some(seq![ReedlineOptionV::Edit(EditCommand::Backspace)]),
        Motion::Right => Some(seq![ReedlineOptionV::Edit(EditCommand::Delete)]),
        Motion::Up => None,
        Motion::Down => None,
        Motion::ReplayCharSearch => match last {
            Some(search) => Some(seq![ReedlineOptionV::Edit(search.spec_to_cut())]),
            None => None,
        },
        Motion::ReverseCharSearch => match last {
            Some(search) => Some(seq![ReedlineOptionV::Edit(search.spec_reverse().spec_to_cut())]),
            None => None,
        },
    }
}

impl Command {
    /// Translate an operator plus its motion. A find/till motion records
    /// itself as the last character search; everything else leaves the
    /// remembered search alone, and the rest of the driver state is
    /// untouched.
    pub fn to_reedline_with_motion(&self, motion: &Motion, vi_state: &mut Vi) -> (r: Option<
        Vec<ReedlineOption>,
    >)
        ensures
            *final(vi_state) == (Vi {
                last_char_search: if self.spec_requires_motion() {
                    crate::vi_parser::char_search_after(*motion, old(vi_state).last_char_search)
                } else {
                    old(vi_state).last_char_search
                },
                ..*old(vi_state)
            }),
            match r {
                Some(options) => cmd_motion_options(
                    *self,
                    *motion,
                    old(vi_state).last_char_search,
                ) matches Some(o) && options_view(options@) == o,
                None => cmd_motion_options(
                    *self,
                    *motion,
                    old(vi_state).last_char_search,
                ) is None,
            },
    {
        let is_delete = matches!(self, Command::Delete);
        let is_change = matches!(self, Command::Change);
        if !is_delete && !is_change {
            return None;
        }
        // a find/till motion is remembered for `;` and `,`
        match motion {
            Motion::RightUntil(c) => {
                vi_state.last_char_search = Some(crate::vi_parser::ViCharSearch::ToRight(*c));
            },
            Motion::RightBefore(c) => {
                vi_state.last_char_search = Some(crate::vi_parser::ViCharSearch::TillRight(*c));
            },
            Motion::LeftUntil(c) => {
                vi_state.last_char_search = Some(crate::vi_parser::ViCharSearch::ToLeft(*c));
            },
            Motion::LeftBefore(c) => {
                vi_state.last_char_search = Some(crate::vi_parser::ViCharSearch::TillLeft(*c));
            },
            _ => {},
        }
        let base: Option<Vec<ReedlineOption>> = match motion {
            Motion::End => Some(vec![ReedlineOption::Edit(EditCommand::CutToLineEnd)]),
            Motion::Line => {
                if is_delete {
                    Some(vec![ReedlineOption::Edit(EditCommand::CutCurrentLine)])
                } else {
                    Some(
                        vec![
                            ReedlineOption::Edit(EditCommand::MoveToLineStart { select: false }),
                            ReedlineOption::Edit(EditCommand::CutToLineEnd),
                        ],
                    )
                }
            },
            Motion::NextWord => {
                if is_delete {
                    Some(vec![ReedlineOption::Edit(EditCommand::CutWordRightToNext)])
                } else {
                    Some(vec![ReedlineOption::Edit(EditCommand::CutWordRight)])
                }
            },
            Motion::NextBigWord => {
                if is_delete {
                    Some(vec![ReedlineOption::Edit(EditCommand::CutBigWordRightToNext)])
                } else {
                    Some(vec![ReedlineOption::Edit(EditCommand::CutBigWordRight)])
                }
            },
            Motion::NextWordEnd => Some(vec![ReedlineOption::Edit(EditCommand::CutWordRight)]),
            Motion::NextBigWordEnd => Some(
                vec![ReedlineOption::Edit(EditCommand::CutBigWordRight)],
            ),
            Motion::PreviousWord => Some(vec![ReedlineOption::Edit(EditCommand::CutWordLeft)]),
            Motion::PreviousBigWord => Some(
                vec![ReedlineOption::Edit(EditCommand::CutBigWordLeft)],
            ),
            Motion::RightUntil(c) => Some(
                vec![ReedlineOption::Edit(EditCommand::CutRightUntil(*c))],
            ),
            Motion::RightBefore(c) => Some(
                vec![ReedlineOption::Edit(EditCommand::CutRightBefore(*c))],
            ),
            Motion::LeftUntil(c) => Some(vec![ReedlineOption::Edit(EditCommand::CutLeftUntil(*c))]),
            Motion::LeftBefore(c) => Some(
                vec![ReedlineOption::Edit(EditCommand::CutLeftBefore(*c))],
            ),
            Motion::Start => Some(vec![ReedlineOption::Edit(EditCommand::CutFromLineStart)]),
            Motion::Left => Some(vec![ReedlineOption::Edit(EditCommand::Backspace)]),
            Motion::Right => Some(vec![ReedlineOption::Edit(EditCommand::Delete)]),
            Motion::Up => None,
            Motion::Down => None,
            Motion::ReplayCharSearch => match vi_state.last_char_search {
                Some(search) => Some(vec![ReedlineOption::Edit(search.to_cut())]),
                None => None,
            },
            Motion::ReverseCharSearch => match vi_state.last_char_search {
                Some(search) => Some(vec![ReedlineOption::Edit(search.reverse().to_cut())]),
                None => None,
            },
        };
        match base {
            Some(mut options) => {
                if is_change {
                    options.push(ReedlineOption::Event(ReedlineEvent::Repaint));
                }
                proof {
                    lemma_options_view(options@);
                    assert(cmd_motion_options(*self, *motion, old(vi_state).last_char_search)
                        matches Some(o) && options_view(options@) =~= o);
                }
                Some(options)
            },
            None => None,
        }
    }
}

/// The executable form of [`bracket_pair_options`].
fn bracket_pair_vec(c: char) -> (r: Vec<ReedlineOption>)
    ensures
        options_view(r@) == bracket_pair_options(c),
{
    let r: Vec<ReedlineOption> = if is_valid_change_inside_left(&c) {
        vec![
            ReedlineOption::Edit(EditCommand::CutLeftBefore(c)),
            ReedlineOption::Edit(EditCommand::CutRightBefore(bracket_for(&c))),
        ]
    } else if is_valid_change_inside_right(&c) {
        vec![
            ReedlineOption::Edit(EditCommand::CutLeftBefore(bracket_for(&c))),
            ReedlineOption::Edit(EditCommand::CutRightBefore(c)),
        ]
    } else {
        Vec::new()
    };
    proof {
        crate::vi_parser::lemma_options_view(r@);
        assert(options_view(r@) =~= bracket_pair_options(c));
    }
    r
}

} // verus!
