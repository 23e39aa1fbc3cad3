use parallely::event::Event;
use parallely::event::KeyCode;
use parallely::event::KeyEvent;
use parallely::event::KeyEventKind;
use parallely::event::KeyModifiers;
use parallely::event::MouseEvent;
use parallely::event::MouseEventKind;
use parallely::event::ParallelyEvent;
use parallely::event::MODIFIERS_ALT;
use parallely::event::MODIFIERS_CONTROL;
use parallely::event::MODIFIERS_NONE;
use parallely::event::MODIFIERS_SHIFT;
use parallely::message::message_queue;
use parallely::message::BusClosed;
use parallely::message::Message;
use parallely::shutdown_handler::recognize;
use parallely::shutdown_handler::ShutdownHandler;
use parallely::shutdown_handler::ShutdownReason;

fn key(c: char, bits: u8, kind: KeyEventKind) -> Event {
    Event::Key(KeyEvent { code: KeyCode::Char(c), modifiers: KeyModifiers { bits }, kind })
}

#[test]
fn wrapped_event_propagates_at_first() {
    let event = ParallelyEvent::new(Event::FocusLost);
    assert!(event.propagate());
    assert_eq!(*event.as_ref(), Event::FocusLost);
    let converted = ParallelyEvent::from(Event::Resize(1, 2));
    assert!(converted.propagate());
    assert_eq!(*converted.as_ref(), Event::Resize(1, 2));
}

#[test]
fn stopped_event_stays_stopped() {
    let mut event = ParallelyEvent::new(Event::Paste);
    event.stop_propagation();
    assert!(!event.propagate());
    event.stop_propagation();
    assert!(!event.propagate());
    assert_eq!(*event.as_ref(), Event::Paste);
}

#[test]
fn q_alone_asks_to_quit() {
    assert_eq!(
        recognize(&key('q', MODIFIERS_NONE, KeyEventKind::Press)),
        Some(ShutdownReason::Quit)
    );
}

#[test]
fn control_c_asks_to_interrupt() {
    assert_eq!(
        recognize(&key('c', MODIFIERS_CONTROL, KeyEventKind::Press)),
        Some(ShutdownReason::CtrlC)
    );
}

#[test]
fn control_backslash_asks_for_the_quit_signal() {
    assert_eq!(
        recognize(&key('\\', MODIFIERS_CONTROL, KeyEventKind::Press)),
        Some(ShutdownReason::Sigquit)
    );
}

#[test]
fn release_and_repeat_are_ignored() {
    assert_eq!(recognize(&key('q', MODIFIERS_NONE, KeyEventKind::Release)), None);
    assert_eq!(recognize(&key('q', MODIFIERS_NONE, KeyEventKind::Repeat)), None);
    assert_eq!(recognize(&key('c', MODIFIERS_CONTROL, KeyEventKind::Release)), None);
}

#[test]
fn other_chords_are_ignored() {
    assert_eq!(recognize(&key('c', MODIFIERS_NONE, KeyEventKind::Press)), None);
    assert_eq!(recognize(&key('\\', MODIFIERS_NONE, KeyEventKind::Press)), None);
    assert_eq!(recognize(&key('x', MODIFIERS_NONE, KeyEventKind::Press)), None);
    assert_eq!(recognize(&key('Q', MODIFIERS_SHIFT, KeyEventKind::Press)), None);
    assert_eq!(recognize(&key('q', MODIFIERS_CONTROL, KeyEventKind::Press)), None);
    assert_eq!(
        recognize(&key('c', MODIFIERS_CONTROL | MODIFIERS_ALT, KeyEventKind::Press)),
        None
    );
    assert_eq!(
        recognize(&Event::Key(KeyEvent {
            code: KeyCode::Other,
            modifiers: KeyModifiers { bits: MODIFIERS_CONTROL },
            kind: KeyEventKind::Press
        })),
        None
    );
}

#[test]
fn events_that_are_no_keys_are_ignored() {
    assert_eq!(recognize(&Event::FocusGained), None);
    assert_eq!(recognize(&Event::Resize(80, 24)), None);
    assert_eq!(
        recognize(&Event::Mouse(MouseEvent {
            kind: MouseEventKind::ScrollDown,
            column: 1,
            row: 1
        })),
        None
    );
}

#[test]
fn quit_key_publishes_one_shutdown_and_is_consumed() {
    let (sender, mut stream) = message_queue();
    let mut handler = ShutdownHandler::new(sender);
    let mut event = ParallelyEvent::new(key('q', MODIFIERS_NONE, KeyEventKind::Press));
    assert_eq!(handler.handle_event(&mut event), Ok(Some(ShutdownReason::Quit)));
    assert!(!event.propagate());
    assert_eq!(stream.try_next(), Some(Message::Shutdown(ShutdownReason::Quit)));
    assert_eq!(stream.try_next(), None);
}

#[test]
fn other_key_publishes_nothing_and_goes_on() {
    let (sender, mut stream) = message_queue();
    let mut handler = ShutdownHandler::new(sender);
    let mut event = ParallelyEvent::new(key('a', MODIFIERS_NONE, KeyEventKind::Press));
    assert_eq!(handler.handle_event(&mut event), Ok(None));
    assert!(event.propagate());
    assert_eq!(stream.try_next(), None);
}

#[test]
fn quit_key_on_a_closed_bus_is_fatal() {
    let (sender, stream) = message_queue();
    drop(stream);
    let mut handler = ShutdownHandler::new(sender);
    let mut event = ParallelyEvent::new(key('c', MODIFIERS_CONTROL, KeyEventKind::Press));
    assert_eq!(handler.handle_event(&mut event), Err(BusClosed));
    assert!(!event.propagate());
}

#[test]
fn signal_is_published_as_its_shutdown() {
    let (sender, mut stream) = message_queue();
    let handler = ShutdownHandler::new(sender);
    assert_eq!(handler.signal_received(ShutdownReason::Sigterm), Ok(()));
    assert_eq!(stream.try_next(), Some(Message::Shutdown(ShutdownReason::Sigterm)));
    assert_eq!(stream.try_next(), None);
}

#[test]
fn handler_hands_out_the_end_it_publishes_on() {
    let (sender, mut stream) = message_queue();
    let (other, mut other_stream) = message_queue();
    let handler = ShutdownHandler::new(sender);
    assert_eq!(handler.message_sender().send(Message::Update), Ok(()));
    assert_eq!(stream.try_next(), Some(Message::Update));
    assert_eq!(other_stream.try_next(), None);
    drop(other);
}

#[test]
fn event_that_is_no_quit_chord_succeeds_on_a_closed_bus() {
    let (sender, stream) = message_queue();
    drop(stream);
    let mut handler = ShutdownHandler::new(sender);
    let mut event = ParallelyEvent::new(key('a', MODIFIERS_NONE, KeyEventKind::Press));
    assert_eq!(handler.handle_event(&mut event), Ok(None));
    assert!(event.propagate());
    let mut event = ParallelyEvent::new(Event::Mouse(MouseEvent {
        kind: MouseEventKind::ScrollDown,
        column: 0,
        row: 0,
    }));
    assert_eq!(handler.handle_event(&mut event), Ok(None));
    assert!(event.propagate());
}
