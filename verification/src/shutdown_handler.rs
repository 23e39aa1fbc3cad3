use crate::event::Event;
use crate::event::KeyCode;
use crate::event::KeyEventKind;
use crate::event::ParallelyEvent;
use crate::event::ParallelyEventView;
use crate::event::MODIFIERS_CONTROL;
use crate::event::MODIFIERS_NONE;
use crate::message::BusClosed;
use crate::message::MessageSender;
use vstd::prelude::*;

verus! {

/// Why the supervisor is shutting down.
#[derive(Debug, Copy, Clone, PartialEq, Eq, Structural)]
pub enum ShutdownReason {
    /// The supervisor received the interrupt signal.
    Sigint,
    /// The supervisor received the terminate signal.
    Sigterm,
    /// The supervisor received the quit signal, or its key chord was pressed.
    Sigquit,
    /// Control-c was pressed in the terminal.
    CtrlC,
    /// The quit key was pressed in the terminal.
    Quit,
    /// Every task has completed.
    End,
}

/// The shutdown that `event` asks for, if it is one of the quit chords: the
/// press of `q` alone, of control-c, or of control-backslash.
pub open spec fn quit_chord(event: Event) -> Option<ShutdownReason> {
    match event {
        Event::Key(key) => {
            if key.kind != KeyEventKind::Press {
                None
            } else if key.code == KeyCode::Char('q') && key.modifiers.bits == MODIFIERS_NONE {
                Some(ShutdownReason::Quit)
            } else if key.code == KeyCode::Char('c') && key.modifiers.bits == MODIFIERS_CONTROL {
                Some(ShutdownReason::CtrlC)
            } else if key.code == KeyCode::Char('\\') && key.modifiers.bits == MODIFIERS_CONTROL {
                Some(ShutdownReason::Sigquit)
            } else {
                None
            }
        },
        _ => None,
    }
}

/// The event after the shutdown handler has seen it: consumed if it is a quit
/// chord, untouched if not.
pub open spec fn after_shutdown_handler(event: ParallelyEventView) -> ParallelyEventView {
    if quit_chord(event.inner) is Some {
        ParallelyEventView { inner: event.inner, propagate: false }
    } else {
        event
    }
}

/// Recognizes the quit chords.
pub fn recognize(event: &Event) -> (reason: Option<ShutdownReason>)
    ensures
        reason == quit_chord(*event),
{
    match event {
        Event::Key(key) => {
            if key.kind != KeyEventKind::Press {
                None
            } else {
                match key.code {
                    KeyCode::Char(c) => {
                        if c == 'q' && key.modifiers.bits == MODIFIERS_NONE {
                            Some(ShutdownReason::Quit)
                        } else if c == 'c' && key.modifiers.bits == MODIFIERS_CONTROL {
                            Some(ShutdownReason::CtrlC)
                        } else if c == '\\' && key.modifiers.bits == MODIFIERS_CONTROL {
                            Some(ShutdownReason::Sigquit)
                        } else {
                            None
                        }
                    },
                    KeyCode::Other => None,
                }
            }
        },
        _ => None,
    }
}

/// Turns the triggers of a shutdown into requests on the message bus.
#[derive(Clone)]
pub struct ShutdownHandler {
    message_sender: MessageSender,
}

impl ShutdownHandler {
    /// The end of the bus that this handler publishes on.
    pub closed spec fn bus(&self) -> MessageSender {
        self.message_sender
    }

    /// The handler that publishes on `message_sender`.
    pub fn new(message_sender: MessageSender) -> (handler: Self)
        ensures
            handler.bus() == message_sender,
    {
        Self { message_sender }
    }

    /// The end of the bus that this handler publishes on.
    pub fn message_sender(&self) -> (sender: &MessageSender)
        ensures
            *sender == self.bus(),
    {
        &self.message_sender
    }

    /// Publishes the shutdown that an operating-system signal asks for.
    pub fn signal_received(&self, reason: ShutdownReason) -> Result<(), BusClosed> {
        self.message_sender.send_shutdown(reason)
    }

    /// Offers `event` to the handler. A quit chord is consumed, and the
    /// shutdown it asks for is published once; any other event is left as it
    /// is, nothing is published, and the call succeeds. The result names what
    /// was published, or says that the bus is closed, which it can only say
    /// of a quit chord.
    pub fn handle_event(&mut self, event: &mut ParallelyEvent) -> (published: Result<
        Option<ShutdownReason>,
        BusClosed,
    >)
        ensures
            *final(self) == *old(self),
            final(event)@ == after_shutdown_handler(old(event)@),
            quit_chord(old(event)@.inner) is None ==> published == Ok::<
                Option<ShutdownReason>,
                BusClosed,
            >(None),
            published matches Ok(reason) ==> reason == quit_chord(old(event)@.inner),
    {
        match recognize(event.as_ref()) {
            None => Ok(None),
            Some(reason) => {
                event.stop_propagation();
                match self.message_sender.send_shutdown(reason) {
                    Ok(()) => Ok(Some(reason)),
                    Err(closed) => Err(closed),
                }
            },
        }
    }
}

} // verus!
