//! The motion half of the Vi grammar, the repeat-count parser, and the
//! incremental parse of the buffered character queue.
//!
//! The grammar is `count? command (count? motion)?`, parsed afresh over the
//! whole queue after every keystroke. An invalid prefix discards the queue,
//! a valid but incomplete prefix keeps buffering, and a complete sequence is
//! translated into editor events.

use vstd::prelude::*;

verus! {

use crate::events::{EditCommand, EventV, ReedlineEvent, event_view};
use crate::vi_command::{Command, parse_command, spec_parse_command};

/// A motion token.
#[derive(Clone, Copy, Debug, PartialEq, Eq, Structural)]
pub enum Motion {
    Left,
    Right,
    Up,
    Down,
    NextWord,
    NextBigWord,
    NextWordEnd,
    NextBigWordEnd,
    PreviousWord,
    PreviousBigWord,
    Start,
    End,
    /// The whole line, selected by doubling the operator (`dd`, `cc`).
    Line,
    RightUntil(char),
    RightBefore(char),
    LeftUntil(char),
    LeftBefore(char),
    ReplayCharSearch,
    ReverseCharSearch,
}

/// Outcome of parsing a motion from the queue.
#[derive(Clone, Copy, Debug, PartialEq, Eq, Structural)]
pub enum MotionResult {
    Valid(Motion),
    /// More characters are needed (or none were offered yet).
    Incomplete,
    /// No motion can start with what follows.
    Invalid,
}

/// The most recent find/till character search, remembered so that `;` can
/// replay it and `,` can replay it in the opposite direction.
#[derive(Clone, Copy, Debug, PartialEq, Eq, Structural)]
pub enum ViCharSearch {
    /// `f`: move onto the next occurrence to the right.
    ToRight(char),
    /// `t`: move to just before the next occurrence to the right.
    TillRight(char),
    /// `F`: move onto the previous occurrence to the left.
    ToLeft(char),
    /// `T`: move to just after the previous occurrence to the left.
    TillLeft(char),
}

impl ViCharSearch {
    /// The same search in the opposite direction.
    pub open spec fn spec_reverse(self) -> ViCharSearch {
        match self {
            ViCharSearch::ToRight(c) => ViCharSearch::ToLeft(c),
            ViCharSearch::TillRight(c) => ViCharSearch::TillLeft(c),
            ViCharSearch::ToLeft(c) => ViCharSearch::ToRight(c),
            ViCharSearch::TillLeft(c) => ViCharSearch::TillRight(c),
        }
    }

    pub fn reverse(&self) -> (r: ViCharSearch)
        ensures
            r == self.spec_reverse(),
    {
        match self {
            ViCharSearch::ToRight(c) => ViCharSearch::ToLeft(*c),
            ViCharSearch::TillRight(c) => ViCharSearch::TillLeft(*c),
            ViCharSearch::ToLeft(c) => ViCharSearch::ToRight(*c),
            ViCharSearch::TillLeft(c) => ViCharSearch::TillRight(*c),
        }
    }

    /// The cut command this search drives when combined with an operator.
    pub open spec fn spec_to_cut(self) -> EditCommand {
        match self {
            ViCharSearch::ToRight(c) => EditCommand::CutRightUntil(c),
            ViCharSearch::TillRight(c) => EditCommand::CutRightBefore(c),
            ViCharSearch::ToLeft(c) => EditCommand::CutLeftUntil(c),
            ViCharSearch::TillLeft(c) => EditCommand::CutLeftBefore(c),
        }
    }

    pub fn to_cut(&self) -> (r: EditCommand)
        ensures
            r == self.spec_to_cut(),
    {
        match self {
            ViCharSearch::ToRight(c) => EditCommand::CutRightUntil(*c),
            ViCharSearch::TillRight(c) => EditCommand::CutRightBefore(*c),
            ViCharSearch::ToLeft(c) => EditCommand::CutLeftUntil(*c),
            ViCharSearch::TillLeft(c) => EditCommand::CutLeftBefore(*c),
        }
    }

    /// The cursor move this search drives when replayed on its own.
    pub open spec fn spec_to_move(self) -> EditCommand {
        match self {
            ViCharSearch::ToRight(c) => EditCommand::MoveRightUntil { c, select: false },
            ViCharSearch::TillRight(c) => EditCommand::MoveRightBefore { c, select: false },
            ViCharSearch::ToLeft(c) => EditCommand::MoveLeftUntil { c, select: false },
            ViCharSearch::TillLeft(c) => EditCommand::MoveLeftBefore { c, select: false },
        }
    }

    pub fn to_move(&self) -> (r: EditCommand)
        ensures
            r == self.spec_to_move(),
    {
        match self {
            ViCharSearch::ToRight(c) => EditCommand::MoveRightUntil { c: *c, select: false },
            ViCharSearch::TillRight(c) => EditCommand::MoveRightBefore { c: *c, select: false },
            ViCharSearch::ToLeft(c) => EditCommand::MoveLeftUntil { c: *c, select: false },
            ViCharSearch::TillLeft(c) => EditCommand::MoveLeftBefore { c: *c, select: false },
        }
    }
}

/// One translated piece of a parsed sequence: an editor event, an edit
/// command still to be multiplied by the repeat count, or a marker for a
/// command that is not finished yet.
#[derive(Debug)]
pub enum ReedlineOption {
    Event(ReedlineEvent),
    Edit(EditCommand),
    Incomplete,
}

/// Mathematical view of [`ReedlineOption`].
pub enum ReedlineOptionV {
    Event(EventV),
    Edit(EditCommand),
    Incomplete,
}

impl View for ReedlineOption {
    type V = ReedlineOptionV;

    open spec fn view(&self) -> ReedlineOptionV {
        match self {
            ReedlineOption::Event(e) => ReedlineOptionV::Event(event_view(*e)),
            ReedlineOption::Edit(e) => ReedlineOptionV::Edit(*e),
            ReedlineOption::Incomplete => ReedlineOptionV::Incomplete,
        }
    }
}

pub open spec fn options_view(s: Seq<ReedlineOption>) -> Seq<ReedlineOptionV>
    decreases s,
{
    if s.len() == 0 {
        Seq::empty()
    } else {
        seq![s[0]@] + options_view(s.drop_first())
    }
}

/// Pointwise characterization of [`options_view`].
pub proof fn lemma_options_view(s: Seq<ReedlineOption>)
    ensures
        options_view(s).len() == s.len(),
        forall|i: int| 0 <= i < s.len() ==> options_view(s)[i] == s[i]@,
    decreases s.len(),
{
    if s.len() > 0 {
        lemma_options_view(s.drop_first());
    }
}

/// Digit accumulation for a repeat count: digits extend the count as long
/// as it is still below the growth limit; beyond it, further digits are
/// consumed without changing the count, so the count never overflows.
pub open spec fn spec_accumulate_count(s: Seq<char>, i: int, acc: u32) -> (u32, int)
    decreases s.len() - i,
{
    if 0 <= i < s.len() && '0' <= s[i] && s[i] <= '9' {
        let next = if acc < 100000000 {
            (acc * 10 + (s[i] as u32 - 48)) as u32
        } else {
            acc
        };
        spec_accumulate_count(s, i + 1, next)
    } else {
        (acc, i)
    }
}

/// A repeat count starts with a nonzero digit; a leading `0` is not a count
/// but the line-start motion.
pub open spec fn spec_parse_number(s: Seq<char>, i: int) -> (Option<u32>, int) {
    if 0 <= i < s.len() && '1' <= s[i] && s[i] <= '9' {
        let (n, j) = spec_accumulate_count(s, i, 0);
        (Some(n), j)
    } else {
        (None, i)
    }
}

/// The accumulated count stays within its cap.
pub proof fn lemma_accumulate_count_bounds(s: Seq<char>, i: int, acc: u32)
    requires
        acc <= 999999999,
    ensures
        spec_accumulate_count(s, i, acc).0 <= 999999999,
        acc <= spec_accumulate_count(s, i, acc).0 || spec_accumulate_count(s, i, acc).0
            >= 100000000,
        i <= spec_accumulate_count(s, i, acc).1,
    decreases s.len() - i,
{
    if 0 <= i < s.len() && '0' <= s[i] && s[i] <= '9' {
        let next = if acc < 100000000 {
            (acc * 10 + (s[i] as u32 - 48)) as u32
        } else {
            acc
        };
        lemma_accumulate_count_bounds(s, i + 1, next);
    }
}

/// Parse a repeat count from the queue at index `start`.
#[verifier::loop_isolation(false)]
pub fn parse_number(input: &Vec<char>, start: usize) -> (r: (Option<u32>, usize))
    requires
        start <= input@.len(),
    ensures
        (r.0, r.1 as int) == spec_parse_number(input@, start as int),
        start <= r.1 <= input@.len(),
        r.0 matches Some(n) ==> 1 <= n <= 999999999,
{
    if start >= input.len() {
        return (None, start);
    }
    let first = input[start];
    if !('1' <= first && first <= '9') {
        return (None, start);
    }
    let mut acc: u32 = 0;
    let mut j: usize = start;
    while j < input.len() && '0' <= input[j] && input[j] <= '9'
        invariant
            start <= j <= input@.len(),
            acc <= 999999999,
            j > start ==> acc >= 1,
            j == start ==> acc == 0,
            spec_accumulate_count(input@, start as int, 0) == spec_accumulate_count(
                input@,
                j as int,
                acc,
            ),
        decreases input@.len() - j,
    {
        let d = (input[j] as u32) - 48;
        proof {
            assert(d <= 9);
        }
        if acc < 100000000 {
            acc = acc * 10 + d;
        }
        j = j + 1;
    }
    proof {
        assert(spec_accumulate_count(input@, j as int, acc) == (acc, j as int));
        if j == start {
            assert('0' <= input@[start as int] && input@[start as int] <= '9');
            assert(false);
        }
    }
    (Some(acc), j)
}

/// One step of motion parsing over the queue at index `i`. A find/till
/// motion whose target character is missing is incomplete; an empty rest of
/// the queue is incomplete; a character no motion starts with is invalid.
/// Doubling the pending operator's own character selects the whole line.
pub open spec fn spec_parse_motion(s: Seq<char>, i: int, command: Option<Command>) -> (
    MotionResult,
    int,
) {
    if !(0 <= i < s.len()) {
        (MotionResult::Incomplete, i)
    } else if s[i] == 'h' {
        (MotionResult::Valid(Motion::Left), i + 1)
    } else if s[i] == 'l' {
        (MotionResult::Valid(Motion::Right), i + 1)
    } else if s[i] == 'j' {
        (MotionResult::Valid(Motion::Down), i + 1)
    } else if s[i] == 'k' {
        (MotionResult::Valid(Motion::Up), i + 1)
    } else if s[i] == 'b' {
        (MotionResult::Valid(Motion::PreviousWord), i + 1)
    } else if s[i] == 'B' {
        (MotionResult::Valid(Motion::PreviousBigWord), i + 1)
    } else if s[i] == 'w' {
        (MotionResult::Valid(Motion::NextWord), i + 1)
    } else if s[i] == 'W' {
        (MotionResult::Valid(Motion::NextBigWord), i + 1)
    } else if s[i] == 'e' {
        (MotionResult::Valid(Motion::NextWordEnd), i + 1)
    } else if s[i] == 'E' {
        (MotionResult::Valid(Motion::NextBigWordEnd), i + 1)
    } else if s[i] == '0' || s[i] == '^' {
        (MotionResult::Valid(Motion::Start), i + 1)
    } else if s[i] == '$' {
        (MotionResult::Valid(Motion::End), i + 1)
    } else if s[i] == 'f' {
        if i + 1 < s.len() {
            (MotionResult::Valid(Motion::RightUntil(s[i + 1])), i + 2)
        } else {
            (MotionResult::Incomplete, i + 1)
        }
    } else if s[i] == 't' {
        if i + 1 < s.len() {
            (MotionResult::Valid(Motion::RightBefore(s[i + 1])), i + 2)
        } else {
            (MotionResult::Incomplete, i + 1)
        }
    } else if s[i] == 'F' {
        if i + 1 < s.len() {
            (MotionResult::Valid(Motion::LeftUntil(s[i + 1])), i + 2)
        } else {
            (MotionResult::Incomplete, i + 1)
        }
    } else if s[i] == 'T' {
        if i + 1 < s.len() {
            (MotionResult::Valid(Motion::LeftBefore(s[i + 1])), i + 2)
        } else {
            (MotionResult::Incomplete, i + 1)
        }
    } else if s[i] == ';' {
        (MotionResult::Valid(Motion::ReplayCharSearch), i + 1)
    } else if s[i] == ',' {
        (MotionResult::Valid(Motion::ReverseCharSearch), i + 1)
    } else if (match command {
        Some(cmd) => cmd.spec_whole_line_char() == Some(s[i]),
        None => false,
    }) {
        (MotionResult::Valid(Motion::Line), i + 1)
    } else {
        (MotionResult::Invalid, i)
    }
}

/// Parse one motion token from the queue at index `start`.
pub fn parse_motion(input: &Vec<char>, start: usize, command: Option<Command>) -> (r: (
    MotionResult,
    usize,
))
    requires
        start <= input@.len(),
    ensures
        (r.0, r.1 as int) == spec_parse_motion(input@, start as int, command),
        start <= r.1 <= input@.len(),
{
    if start >= input.len() {
        return (MotionResult::Incomplete, start);
    }
    let c = input[start];
    match c {
        'h' => (MotionResult::Valid(Motion::Left), start + 1),
        'l' => (MotionResult::Valid(Motion::Right), start + 1),
        'j' => (MotionResult::Valid(Motion::Down), start + 1),
        'k' => (MotionResult::Valid(Motion::Up), start + 1),
        'b' => (MotionResult::Valid(Motion::PreviousWord), start + 1),
        'B' => (MotionResult::Valid(Motion::PreviousBigWord), start + 1),
        'w' => (MotionResult::Valid(Motion::NextWord), start + 1),
        'W' => (MotionResult::Valid(Motion::NextBigWord), start + 1),
        'e' => (MotionResult::Valid(Motion::NextWordEnd), start + 1),
        'E' => (MotionResult::Valid(Motion::NextBigWordEnd), start + 1),
        '0' | '^' => (MotionResult::Valid(Motion::Start), start + 1),
        '$' => (MotionResult::Valid(Motion::End), start + 1),
        'f' => {
            if start + 1 < input.len() {
                (MotionResult::Valid(Motion::RightUntil(input[start + 1])), start + 2)
            } else {
                (MotionResult::Incomplete, start + 1)
            }
        },
        't' => {
            if start + 1 < input.len() {
                (MotionResult::Valid(Motion::RightBefore(input[start + 1])), start + 2)
            } else {
                (MotionResult::Incomplete, start + 1)
            }
        },
        'F' => {
            if start + 1 < input.len() {
                (MotionResult::Valid(Motion::LeftUntil(input[start + 1])), start + 2)
            } else {
                (MotionResult::Incomplete, start + 1)
            }
        },
        'T' => {
            if start + 1 < input.len() {
                (MotionResult::Valid(Motion::LeftBefore(input[start + 1])), start + 2)
            } else {
                (MotionResult::Incomplete, start + 1)
            }
        },
        ';' => (MotionResult::Valid(Motion::ReplayCharSearch), start + 1),
        ',' => (MotionResult::Valid(Motion::ReverseCharSearch), start + 1),
        _ => {
            let whole_line = match command {
                Some(cmd) => cmd.whole_line_char() == Some(c),
                None => false,
            };
            if whole_line {
                (MotionResult::Valid(Motion::Line), start + 1)
            } else {
                (MotionResult::Invalid, start)
            }
        },
    }
}

/// The incremental parse of the whole buffered queue: an optional repeat
/// count, an optional command, an optional second count, and an optional
/// motion. A command prefix that consumed characters without forming a
/// command marks the whole parse invalid.
#[derive(Clone, Copy, Debug, PartialEq, Eq, Structural)]
pub struct ParsedViSequence {
    pub multiplier: Option<u32>,
    pub command: Option<Command>,
    pub count: Option<u32>,
    pub motion: MotionResult,
}

impl ParsedViSequence {
    /// Both counts are positive and capped, so their product cannot
    /// overflow.
    pub open spec fn wf_counts(self) -> bool {
        &&& (self.multiplier matches Some(n) ==> 1 <= n <= 999999999)
        &&& (self.count matches Some(n) ==> 1 <= n <= 999999999)
    }

    /// Whether the queue is still a (possibly incomplete) form of the
    /// grammar; an invalid queue is discarded.
    pub open spec fn spec_is_valid(self) -> bool {
        !(self.motion is Invalid)
    }

    pub fn is_valid(&self) -> (r: bool)
        ensures
            r == self.spec_is_valid(),
    {
        !matches!(self.motion, MotionResult::Invalid)
    }

    /// The combined repeat count: the product of the two counts, each
    /// defaulting to one.
    pub open spec fn spec_total_multiplier(self) -> nat {
        (match self.multiplier {
            Some(n) => n as nat,
            None => 1 as nat,
        }) * (match self.count {
            Some(n) => n as nat,
            None => 1 as nat,
        })
    }

    pub fn total_multiplier(&self) -> (r: u64)
        requires
            self.wf_counts(),
        ensures
            r == self.spec_total_multiplier(),
    {
        let m: u64 = match self.multiplier {
            Some(n) => n as u64,
            None => 1,
        };
        let c: u64 = match self.count {
            Some(n) => n as u64,
            None => 1,
        };
        proof {
            assert(m * c <= 999999999u64 * 999999999u64) by (nonlinear_arith)
                requires
                    1 <= m <= 999999999 && 1 <= c <= 999999999,
            ;
        }
        m * c
    }
}

/// Parse of the whole queue: `count? command (count? motion)?`.
pub open spec fn spec_parse(s: Seq<char>) -> ParsedViSequence {
    let (multiplier, i1) = spec_parse_number(s, 0);
    let (command, i2) = spec_parse_command(s, i1);
    if command is None && i2 > i1 {
        ParsedViSequence { multiplier, command: None, count: None, motion: MotionResult::Invalid }
    } else {
        let (count, i3) = spec_parse_number(s, i2);
        let (motion, i4) = spec_parse_motion(s, i3, command);
        ParsedViSequence { multiplier, command, count, motion }
    }
}

/// Parse the buffered character queue afresh.
pub fn parse(input: &Vec<char>) -> (r: ParsedViSequence)
    ensures
        r == spec_parse(input@),
        r.wf_counts(),
{
    let (multiplier, i1) = parse_number(input, 0);
    let (command, i2) = parse_command(input, i1);
    if command.is_none() && i2 > i1 {
        ParsedViSequence { multiplier, command: None, count: None, motion: MotionResult::Invalid }
    } else {
        let (count, i3) = parse_number(input, i2);
        let (motion, _) = parse_motion(input, i3, command);
        ParsedViSequence { multiplier, command, count, motion }
    }
}

/// The cursor movement a standalone motion translates to; a replayed
/// character search with no remembered search does nothing.
pub open spec fn motion_options(m: Motion, last: Option<ViCharSearch>) -> Seq<ReedlineOptionV> {
    match m {
        Motion::Left => seq![ReedlineOptionV::Edit(EditCommand::MoveLeft { select: false })],
        Motion::Right => seq![ReedlineOptionV::Edit(EditCommand::MoveRight { select: false })],
        Motion::Up => seq![ReedlineOptionV::Event(EventV::Up)],
        Motion::Down => seq![ReedlineOptionV::Event(EventV::Down)],
        Motion::NextWord => seq![
            ReedlineOptionV::Edit(EditCommand::MoveWordRight { select: false }),
        ],
        Motion::NextBigWord => seq![
            ReedlineOptionV::Edit(EditCommand::MoveBigWordRightBeforeStart { select: false }),
        ],
        Motion::NextWordEnd => seq![
            ReedlineOptionV::Edit(EditCommand::MoveWordRightEnd { select: false }),
        ],
        Motion::NextBigWordEnd => seq![
            ReedlineOptionV::Edit(EditCommand::MoveBigWordRightEnd { select: false }),
        ],
        Motion::PreviousWord => seq![
            ReedlineOptionV::Edit(EditCommand::MoveWordLeft { select: false }),
        ],
        Motion::PreviousBigWord => seq![
            ReedlineOptionV::Edit(EditCommand::MoveBigWordLeft { select: false }),
        ],
        Motion::Start => seq![
            ReedlineOptionV::Edit(EditCommand::MoveToLineStart { select: false }),
        ],
        Motion::End => seq![ReedlineOptionV::Edit(EditCommand::MoveToLineEnd { select: false })],
        Motion::Line => Seq::empty(),
        Motion::RightUntil(c) => seq![
            ReedlineOptionV::Edit(EditCommand::MoveRightUntil { c, select: false }),
        ],
        Motion::RightBefore(c) => seq![
            ReedlineOptionV::Edit(EditCommand::MoveRightBefore { c, select: false }),
        ],
        Motion::LeftUntil(c) => seq![
            ReedlineOptionV::Edit(EditCommand::MoveLeftUntil { c, select: false }),
        ],
        Motion::LeftBefore(c) => seq![
            ReedlineOptionV::Edit(EditCommand::MoveLeftBefore { c, select: false }),
        ],
        Motion::ReplayCharSearch => match last {
            Some(search) => seq![ReedlineOptionV::Edit(search.spec_to_move())],
            None => Seq::empty(),
        },
        Motion::ReverseCharSearch => match last {
            Some(search) => seq![ReedlineOptionV::Edit(search.spec_reverse().spec_to_move())],
            None => Seq::empty(),
        },
    }
}

/// The remembered character search after a motion: a find/till motion
/// records itself, everything else leaves the slot alone.
pub open spec fn char_search_after(m: Motion, last: Option<ViCharSearch>) -> Option<ViCharSearch> {
    match m {
        Motion::RightUntil(c) => Some(ViCharSearch::ToRight(c)),
        Motion::RightBefore(c) => Some(ViCharSearch::TillRight(c)),
        Motion::LeftUntil(c) => Some(ViCharSearch::ToLeft(c)),
        Motion::LeftBefore(c) => Some(ViCharSearch::TillLeft(c)),
        _ => last,
    }
}

} // verus!
