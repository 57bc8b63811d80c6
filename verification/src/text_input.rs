//! A submit-cancel text input: a text field that additionally understands
//! Enter (submit the buffer) and Esc (cancel).

use vstd::prelude::*;

use crate::actions::UserAction;
use crate::events::{GenericEvent, Key};
use crate::text_field::{text_field_action_of, DefaultTextFieldInputConverter, TextFieldState};
use crate::typing::{action_transition, TypingBehaviour};
use crate::widget_core::{RemyWidgetCommandConverter, RemyWidgetState};

verus! {

/// A text input command: submit, cancel, or a plain text-field action.
#[derive(Clone, Copy, Debug, PartialEq, Eq, Structural)]
pub enum TextInputAction {
    Esc,
    Enter,
    Other(UserAction),
    Null,
}

impl From<TextInputAction> for UserAction {
    /// The plain user action inside, with submit and cancel acting as
    /// no-ops on the buffer.
    fn from(value: TextInputAction) -> (r: UserAction) {
        match value {
            TextInputAction::Esc => UserAction::Null,
            TextInputAction::Enter => UserAction::Null,
            TextInputAction::Other(inner) => inner,
            TextInputAction::Null => UserAction::Null,
        }
    }
}

impl vstd::std_specs::convert::FromSpecImpl<TextInputAction> for UserAction {
    open spec fn obeys_from_spec() -> bool {
        true
    }

    open spec fn from_spec(value: TextInputAction) -> UserAction {
        match value {
            TextInputAction::Esc => UserAction::Null,
            TextInputAction::Enter => UserAction::Null,
            TextInputAction::Other(inner) => inner,
            TextInputAction::Null => UserAction::Null,
        }
    }
}

/// The command a normalized event means for a text input: Esc and Enter
/// first, any other key as the text field reads it.
pub open spec fn text_input_action_of(event: GenericEvent) -> Option<TextInputAction> {
    match event {
        GenericEvent::KeyPress { key, .. } => match key {
            Key::Esc => Some(TextInputAction::Esc),
            Key::Enter => Some(TextInputAction::Enter),
            _ => match text_field_action_of(event) {
                None => None,
                Some(a) => Some(TextInputAction::Other(a)),
            },
        },
        GenericEvent::Null => None,
    }
}

/// The default event-to-command translation for text inputs.
pub struct DefaultTextInputInputConverter;

impl<T: TypingBehaviour> RemyWidgetCommandConverter<TextInputState<T>>
    for DefaultTextInputInputConverter {
    type Event = TextInputAction;

    fn convert(event: GenericEvent, state: &TextInputState<T>) -> (r: Option<TextInputAction>)
        ensures
            r == text_input_action_of(event),
    {
        match event {
            GenericEvent::KeyPress { key, .. } => {
                match key {
                    Key::Esc => Some(TextInputAction::Esc),
                    Key::Enter => Some(TextInputAction::Enter),
                    _ => {
                        let inner = <DefaultTextFieldInputConverter as RemyWidgetCommandConverter<
                            TextFieldState<T>,
                        >>::convert(event, &state.0);
                        match inner {
                            None => None,
                            Some(a) => Some(TextInputAction::Other(a)),
                        }
                    },
                }
            },
            GenericEvent::Null => None,
        }
    }
}

/// What handling one command tells the owner of the input.
pub enum TextInputEvent {
    Submitted(String),
    Cancelled,
    Typing,
}

/// A text input's state: exactly one text field.
pub struct TextInputState<T: TypingBehaviour>(pub(crate) TextFieldState<T>);

impl<T: TypingBehaviour> TextInputState<T> {
    /// The wrapped behaviour.
    pub closed spec fn behaviour(&self) -> T {
        self.0.behaviour()
    }

    /// The behaviour's invariants hold.
    pub open spec fn wf(&self) -> bool {
        self.behaviour().wf()
    }

    /// The buffer's characters.
    pub open spec fn text_model(&self) -> Seq<char> {
        self.behaviour().text_model()
    }

    /// Wraps `behaviour`.
    pub fn new(behaviour: T) -> (r: Self)
        ensures
            r.behaviour() == behaviour,
    {
        TextInputState(TextFieldState::new(behaviour))
    }

    /// The cursor's mapped offset within the visible substring.
    pub fn get_cursor_location(&mut self, width: usize) -> (r: usize)
        requires
            old(self).wf(),
        ensures
            final(self).wf(),
            final(self).text_model() == old(self).text_model(),
    {
        self.0.get_cursor_location(width)
    }

    /// The visible substring for `width` columns and the selection span
    /// within it.
    pub fn get_visible_text(&mut self, width: usize) -> (r: (String, Option<(usize, usize)>))
        requires
            old(self).wf(),
        ensures
            final(self).wf(),
            final(self).text_model() == old(self).text_model(),
    {
        self.0.get_visible_text(width)
    }

    /// The whole buffer.
    pub fn text(&self) -> (r: String)
        ensures
            r@ == self.text_model(),
    {
        self.0.text()
    }
}

impl<T: TypingBehaviour> Default for TextInputState<T> {
    /// An input over an empty buffer.
    fn default() -> (r: TextInputState<T>)
        ensures
            r.wf(),
            r.text_model() == Seq::<char>::empty(),
    {
        TextInputState(TextFieldState::new(T::empty()))
    }
}

impl<T: TypingBehaviour> RemyWidgetState for TextInputState<T> {
    type Command = TextInputAction;

    type EventOutput = TextInputEvent;

    open spec fn wf_state(&self) -> bool {
        self.wf()
    }

    /// Enter submits the buffer's text, Esc cancels, anything else is fed
    /// to the text field and reported as plain typing.
    fn handle_native_event(&mut self, event: Option<TextInputAction>) -> (r: TextInputEvent)
        ensures
            match event {
                Some(TextInputAction::Esc) => r is Cancelled && final(self).behaviour() == old(self).behaviour(),
                Some(TextInputAction::Enter) => (r matches TextInputEvent::Submitted(s) && s@
                    == old(self).text_model()) && final(self).behaviour() == old(self).behaviour(),
                Some(TextInputAction::Other(a)) => r is Typing && (action_transition(
                    (
                        old(self).behaviour().text_model(),
                        old(self).behaviour().pos(),
                        old(self).behaviour().sel(),
                        old(self).behaviour().insert_mode(),
                    ),
                    (
                        final(self).behaviour().text_model(),
                        final(self).behaviour().pos(),
                        final(self).behaviour().sel(),
                        final(self).behaviour().insert_mode(),
                    ),
                    a,
                    true,
                ) || (final(self).behaviour().text_model() == old(self).behaviour().text_model()
                    && final(self).behaviour().pos() == old(self).behaviour().pos() && final(self).behaviour().sel() == old(self).behaviour().sel() && final(self).behaviour().insert_mode() == old(self).behaviour().insert_mode())),
                Some(TextInputAction::Null) => r is Typing && final(self).behaviour() == old(self).behaviour(),
                None => r is Typing && final(self).behaviour() == old(self).behaviour(),
            },
    {
        match event {
            Some(inner) => match inner {
                TextInputAction::Esc => TextInputEvent::Cancelled,
                TextInputAction::Enter => TextInputEvent::Submitted(self.0.text()),
                TextInputAction::Other(a) => {
                    let _handled = self.0.handle_native_event(Some(a));
                    TextInputEvent::Typing
                },
                TextInputAction::Null => TextInputEvent::Typing,
            },
            None => TextInputEvent::Typing,
        }
    }
}

} // verus!
