use vstd::prelude::*;
use vstd::std_specs::convert::FromSpecImpl;

verus! {

/// The key that a key event is about.
#[derive(Debug, Copy, Clone, PartialEq, Eq, Structural)]
pub enum KeyCode {
    /// A key that produces a character.
    Char(char),
    /// Any other key.
    Other,
}

/// What happened to the key.
#[derive(Debug, Copy, Clone, PartialEq, Eq, Structural)]
pub enum KeyEventKind {
    Press,
    Repeat,
    Release,
}

/// The modifier keys held during an event, one bit each.
#[derive(Debug, Copy, Clone, PartialEq, Eq, Structural)]
pub struct KeyModifiers {
    pub bits: u8,
}

/// The bits of [`KeyModifiers`] when no modifier key is held.
pub const MODIFIERS_NONE: u8 = 0;

/// The bit of the shift key.
pub const MODIFIERS_SHIFT: u8 = 1;

/// The bit of the control key.
pub const MODIFIERS_CONTROL: u8 = 2;

/// The bit of the alt key.
pub const MODIFIERS_ALT: u8 = 4;

/// A key event.
#[derive(Debug, Copy, Clone, PartialEq, Eq, Structural)]
pub struct KeyEvent {
    pub code: KeyCode,
    pub modifiers: KeyModifiers,
    pub kind: KeyEventKind,
}

/// What the mouse did.
#[derive(Debug, Copy, Clone, PartialEq, Eq, Structural)]
pub enum MouseEventKind {
    /// The wheel was turned towards the user.
    ScrollDown,
    /// The wheel was turned away from the user.
    ScrollUp,
    /// A button was pressed or released, or the pointer moved, or the wheel
    /// was turned sideways.
    Other,
}

/// A mouse event, with the cell of the screen it happened on.
#[derive(Debug, Copy, Clone, PartialEq, Eq, Structural)]
pub struct MouseEvent {
    pub kind: MouseEventKind,
    pub column: u16,
    pub row: u16,
}

/// A raw input event of the terminal.
#[derive(Debug, Copy, Clone, PartialEq, Eq, Structural)]
pub enum Event {
    FocusGained,
    FocusLost,
    Key(KeyEvent),
    Mouse(MouseEvent),
    /// Text was pasted into the terminal.
    Paste,
    /// The terminal was resized to this many columns and rows.
    Resize(u16, u16),
}

/// An input event on its way through the chain of handlers. A handler that
/// consumes the event stops its propagation, and no later handler sees it.
#[derive(Debug, Copy, Clone, PartialEq, Eq)]
pub struct ParallelyEvent {
    inner: Event,
    propagate: bool,
}

/// What a [`ParallelyEvent`] holds.
pub struct ParallelyEventView {
    pub inner: Event,
    pub propagate: bool,
}

impl View for ParallelyEvent {
    type V = ParallelyEventView;

    closed spec fn view(&self) -> ParallelyEventView {
        ParallelyEventView { inner: self.inner, propagate: self.propagate }
    }
}

impl ParallelyEvent {
    /// Wraps a raw event, which propagates until a handler consumes it.
    pub fn new(inner: Event) -> (event: Self)
        ensures
            event@ == (ParallelyEventView { inner, propagate: true }),
    {
        Self { inner, propagate: true }
    }

    /// Whether later handlers still see the event.
    pub fn propagate(&self) -> (propagate: bool)
        ensures
            propagate == self@.propagate,
    {
        self.propagate
    }

    /// Marks the event as consumed.
    pub fn stop_propagation(&mut self)
        ensures
            final(self)@ == (ParallelyEventView { inner: old(self)@.inner, propagate: false }),
    {
        self.propagate = false;
    }

    /// The raw event.
    pub fn as_ref(&self) -> (inner: &Event)
        ensures
            *inner == self@.inner,
    {
        &self.inner
    }
}

impl From<Event> for ParallelyEvent {
    fn from(event: Event) -> (wrapped: Self)
        ensures
            wrapped@ == (ParallelyEventView { inner: event, propagate: true }),
    {
        Self::new(event)
    }
}

impl FromSpecImpl<Event> for ParallelyEvent {
    open spec fn obeys_from_spec() -> bool {
        true
    }

    closed spec fn from_spec(event: Event) -> Self {
        ParallelyEvent { inner: event, propagate: true }
    }
}

/// What each event of `events` holds.
pub open spec fn event_views(events: Seq<ParallelyEvent>) -> Seq<ParallelyEventView> {
    Seq::new(events.len(), |i: int| events[i]@)
}

} // verus!
