//! The widget-state plumbing: a converter turns a normalized input event
//! into a widget-specific command, and a widget state consumes such
//! commands.

use vstd::prelude::*;

use crate::events::GenericEvent;

verus! {

/// Translates normalized input events into a widget's command vocabulary,
/// possibly consulting the widget's state.
pub trait RemyWidgetCommandConverter<T> {
    type Event;

    /// The command the event means for this widget, if any.
    fn convert(event: GenericEvent, state: &T) -> Option<Self::Event>;
}

/// A widget state: consumes its own commands, preserving its invariants.
pub trait RemyWidgetState: Sized {
    type Command;

    type EventOutput;

    /// The state's invariants; event handling preserves them.
    spec fn wf_state(&self) -> bool;

    /// Translates `event` through the converter `T` and handles the result.
    fn handle_events<T>(&mut self, event: GenericEvent) -> (r: Self::EventOutput) where
        T: RemyWidgetCommandConverter<Self, Event = Self::Command>
        requires
            old(self).wf_state(),
        ensures
            final(self).wf_state(),
    {
        let converted = T::convert(event, self);
        self.handle_native_event(converted)
    }

    /// Handles one already-translated command, or `None` for an event that
    /// meant nothing to this widget.
    fn handle_native_event(&mut self, event: Option<Self::Command>) -> (r: Self::EventOutput)
        requires
            old(self).wf_state(),
        ensures
            final(self).wf_state(),
    ;
}

} // verus!
