//! The interface every mode driver offers to the surrounding line editor.

use vstd::prelude::*;

verus! {

use crate::events::{PromptEditMode, ReedlineEvent, ReedlineRawEvent};
use crate::line_buffer::LineBuffer;

/// Define the style of parsing for the edit events
/// Available default options:
/// - Emacs
/// - Vi
/// - Helix
pub trait EditMode {
    /// The driver's internal invariant: its keybinding tables and pending
    /// state are well formed.
    spec fn inv(&self) -> bool;

    /// Translate the given user input event into what the line editor
    /// understands.
    fn parse_event(&mut self, line_buffer: &LineBuffer, event: ReedlineRawEvent) -> (r:
        ReedlineEvent)
        requires
            old(self).inv(),
            line_buffer.wf(),
        ensures
            final(self).inv(),
    ;

    /// What to display in the prompt indicator.
    fn edit_mode(&self) -> PromptEditMode;
}

} // verus!
