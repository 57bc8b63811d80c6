//! The backend-independent input vocabulary: what a platform event becomes
//! after the backend-specific translation (which lives outside this
//! library) has normalized it.

use vstd::prelude::*;

verus! {

/// A normalized input event.
#[derive(Debug, Copy, Clone, PartialEq, Eq, Structural)]
pub enum GenericEvent {
    KeyPress { ctrl: bool, shift: bool, alt: bool, key: Key, kind: GenericKeyEventKind },
    Null,
}

/// Whether a key event is a press or a release.
#[derive(Debug, Copy, Clone, PartialEq, Eq, Structural)]
pub enum GenericKeyEventKind {
    Press,
    Release,
}

/// A normalized key.
#[derive(Debug, Copy, Clone, PartialEq, Eq, Structural)]
pub enum Key {
    Character(char),
    Esc,
    F(u8),
    Backspace,
    Enter,
    ArrowUp,
    ArrowDown,
    ArrowLeft,
    ArrowRight,
    Home,
    End,
    PageUp,
    PageDown,
    Delete,
    Insert,
    Tab,
    BackTab,
    CapsLock,
    NumLock,
    ScrollLock,
    Pause,
    PrintScreen,
    Menu,
}

} // verus!
