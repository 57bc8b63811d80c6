//! A single-line text field: a typing behaviour wrapped as a widget state,
//! and the default reading of normalized key events as user actions.

use vstd::prelude::*;

use crate::actions::UserAction;
use crate::widget_core::{RemyWidgetCommandConverter, RemyWidgetState};
use crate::error::ClipboardError;
use crate::events::{GenericEvent, Key};
use crate::typing::{action_transition, TypingBehaviour};

verus! {

/// The user action a normalized event means for a text field: editing keys
/// act directly, shift turns movement into selection, and ctrl-c/v/x/a are
/// the clipboard and select-all chords.
pub open spec fn text_field_action_of(event: GenericEvent) -> Option<UserAction> {
    match event {
        GenericEvent::KeyPress { shift, ctrl, key, .. } => match key {
            Key::Backspace => Some(UserAction::Remove),
            Key::Delete => Some(UserAction::Delete),
            Key::Insert => Some(UserAction::ToggleInsert),
            Key::ArrowLeft => if shift {
                Some(UserAction::CursorLeftSelect)
            } else {
                Some(UserAction::CursorLeft)
            },
            Key::ArrowRight => if shift {
                Some(UserAction::CursorRightSelect)
            } else {
                Some(UserAction::CursorRight)
            },
            Key::Character(c) => if ctrl && c == 'c' {
                Some(UserAction::Copy)
            } else if ctrl && c == 'v' {
                Some(UserAction::Paste)
            } else if ctrl && c == 'x' {
                Some(UserAction::Cut)
            } else if ctrl && c == 'a' {
                Some(UserAction::SelectAll)
            } else {
                Some(UserAction::Typing(c))
            },
            Key::Home => if shift {
                Some(UserAction::ToStartSelect)
            } else {
                Some(UserAction::ToStart)
            },
            Key::End => if shift {
                Some(UserAction::ToEndSelect)
            } else {
                Some(UserAction::ToEnd)
            },
            _ => None,
        },
        GenericEvent::Null => None,
    }
}

/// The default event-to-action translation for text fields.
pub struct DefaultTextFieldInputConverter;

impl<T: TypingBehaviour> RemyWidgetCommandConverter<TextFieldState<T>>
    for DefaultTextFieldInputConverter {
    type Event = UserAction;

    fn convert(event: GenericEvent, _state: &TextFieldState<T>) -> (r: Option<UserAction>)
        ensures
            r == text_field_action_of(event),
    {
        match event {
            GenericEvent::KeyPress { shift, ctrl, key, .. } => {
                match key {
                    Key::Backspace => Some(UserAction::Remove),
                    Key::Delete => Some(UserAction::Delete),
                    Key::Insert => Some(UserAction::ToggleInsert),
                    Key::ArrowLeft => if shift {
                        Some(UserAction::CursorLeftSelect)
                    } else {
                        Some(UserAction::CursorLeft)
                    },
                    Key::ArrowRight => if shift {
                        Some(UserAction::CursorRightSelect)
                    } else {
                        Some(UserAction::CursorRight)
                    },
                    Key::Character(c) => if ctrl && c == 'c' {
                        Some(UserAction::Copy)
                    } else if ctrl && c == 'v' {
                        Some(UserAction::Paste)
                    } else if ctrl && c == 'x' {
                        Some(UserAction::Cut)
                    } else if ctrl && c == 'a' {
                        Some(UserAction::SelectAll)
                    } else {
                        Some(UserAction::Typing(c))
                    },
                    Key::Home => if shift {
                        Some(UserAction::ToStartSelect)
                    } else {
                        Some(UserAction::ToStart)
                    },
                    Key::End => if shift {
                        Some(UserAction::ToEndSelect)
                    } else {
                        Some(UserAction::ToEnd)
                    },
                    _ => None,
                }
            },
            GenericEvent::Null => None,
        }
    }
}

/// A text field's state: exactly one typing behaviour.
pub struct TextFieldState<T: TypingBehaviour>(pub(crate) T);

impl<T: TypingBehaviour> TextFieldState<T> {
    /// The wrapped behaviour.
    pub closed spec fn behaviour(&self) -> T {
        self.0
    }

    /// The behaviour's invariants hold.
    pub open spec fn wf(&self) -> bool {
        self.behaviour().wf()
    }

    /// The buffer's characters.
    pub open spec fn text_model(&self) -> Seq<char> {
        self.behaviour().text_model()
    }

    /// Wraps `behaviour`.
    pub fn new(behaviour: T) -> (r: Self)
        ensures
            r.behaviour() == behaviour,
    {
        TextFieldState(behaviour)
    }

    /// The cursor's mapped offset within the visible substring.
    pub fn get_cursor_location(&mut self, width: usize) -> (r: usize)
        requires
            old(self).wf(),
        ensures
            final(self).wf(),
            final(self).text_model() == old(self).text_model(),
    {
        self.0.get_cursor_position(width)
    }

    /// The visible substring for `width` columns and the selection span
    /// within it.
    pub fn get_visible_text(&mut self, width: usize) -> (r: (String, Option<(usize, usize)>))
        requires
            old(self).wf(),
        ensures
            final(self).wf(),
            final(self).text_model() == old(self).text_model(),
    {
        self.0.get_visible_text(width)
    }

    /// The whole buffer.
    pub fn text(&self) -> (r: String)
        ensures
            r@ == self.text_model(),
    {
        self.0.get_text()
    }
}

impl<T: TypingBehaviour> RemyWidgetState for TextFieldState<T> {
    type Command = UserAction;

    type EventOutput = Result<(), ClipboardError>;

    open spec fn wf_state(&self) -> bool {
        self.wf()
    }

    /// Feeds the action, if any, to the behaviour; a failed clipboard
    /// action is surfaced and leaves the state unchanged.
    fn handle_native_event(&mut self, event: Option<UserAction>) -> (r: Result<(), ClipboardError>)
        ensures
            match event {
                None => r is Ok && final(self).behaviour() == old(self).behaviour(),
                Some(action) => {
                    &&& r is Err ==> final(self).behaviour().text_model() == old(
                        self,
                    ).behaviour().text_model() && final(self).behaviour().pos() == old(
                        self,
                    ).behaviour().pos() && final(self).behaviour().sel() == old(
                        self,
                    ).behaviour().sel() && final(self).behaviour().insert_mode() == old(
                        self,
                    ).behaviour().insert_mode()
                    &&& action_transition(
                        (
                            old(self).behaviour().text_model(),
                            old(self).behaviour().pos(),
                            old(self).behaviour().sel(),
                            old(self).behaviour().insert_mode(),
                        ),
                        (
                            final(self).behaviour().text_model(),
                            final(self).behaviour().pos(),
                            final(self).behaviour().sel(),
                            final(self).behaviour().insert_mode(),
                        ),
                        action,
                        r is Ok,
                    )
                },
            },
    {
        match event {
            None => Ok(()),
            Some(action) => self.0.handle_user_action(action),
        }
    }
}

} // verus!
