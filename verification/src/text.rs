//! Text-editing commands and input-method composition events.

use vstd::prelude::*;

verus! {

/// A control input to a text field: a cursor movement, a selection change,
/// a clipboard command or a content edit.
#[derive(Debug, Copy, Clone, PartialEq, Eq, Structural)]
pub enum TextControlCode {
    MoveLeft,
    MoveLeftWord,
    MoveLeftLine,
    MoveLeftDocument,
    MoveRight,
    MoveRightWord,
    MoveRightLine,
    MoveRightDocument,
    SelectLeft,
    SelectLeftWord,
    SelectLeftLine,
    SelectLeftDocument,
    SelectRight,
    SelectRightWord,
    SelectRightLine,
    SelectRightDocument,
    SelectAll,
    Copy,
    Paste,
    Cut,
    Backspace,
    BackspaceWord,
    Enter,
    Delete,
    DeleteWord,
}

impl TextControlCode {
    /// The fixed content-mutating subset: paste, cut, enter, both backspace
    /// forms and both delete forms. Cursor movement and selection commands
    /// are not in it.
    pub open spec fn spec_is_edit_input(self) -> bool {
        self matches TextControlCode::Paste || self matches TextControlCode::Cut
            || self matches TextControlCode::Enter || self matches TextControlCode::Backspace
            || self matches TextControlCode::BackspaceWord || self matches TextControlCode::Delete
            || self matches TextControlCode::DeleteWord
    }

    /// True exactly when this command edits the text content.
    pub fn is_edit_input(self) -> (r: bool)
        ensures
            r == self.spec_is_edit_input(),
    {
        match self {
            TextControlCode::Paste
            | TextControlCode::Cut
            | TextControlCode::Enter
            | TextControlCode::Backspace
            | TextControlCode::BackspaceWord
            | TextControlCode::Delete
            | TextControlCode::DeleteWord => true,
            _ => false,
        }
    }
}

/// An input-method composition update. While composition is active the host
/// sends these in place of key events, changing the inputted text
/// dynamically and committing it at the end.
#[derive(Debug, Clone, PartialEq, Eq)]
pub enum ImeEvent {
    /// A new composing text should be shown. The second field is the cursor
    /// span within it; when absent, the caret should be hidden. An empty
    /// text signals that the preedit was cleared.
    Preedit(String, Option<(usize, usize)>),
    /// Composition is finished and the text should be inserted.
    Commit(String),
}

/// What kind of text an input method is asked to produce: ordinary text, or
/// a password whose composition the host should mask.
#[derive(Debug, Clone, Copy, PartialEq, Eq, Structural)]
pub enum ImePurpose {
    Standard,
    Password,
}

} // verus!
