//! The normalized command vocabulary consumed by a typing behaviour. An
//! upstream input translator turns raw platform key events into these; the
//! engine never parses key codes itself.

use vstd::prelude::*;

verus! {

/// One user action on an editable text field.
#[derive(Clone, Copy, Debug, PartialEq, Eq, Structural)]
pub enum UserAction {
    ToggleInsert,
    Typing(char),
    Remove,
    Delete,
    Cut,
    Paste,
    Copy,
    CursorLeft,
    CursorRight,
    CursorLeftSelect,
    CursorRightSelect,
    ToStart,
    ToStartSelect,
    ToEnd,
    ToEndSelect,
    SelectAll,
    Null,
}

} // verus!
