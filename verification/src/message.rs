use crate::event::ParallelyEvent;
use crate::shutdown_handler::ShutdownReason;
use tokio::sync::mpsc::UnboundedReceiver;
use tokio::sync::mpsc::UnboundedSender;
use vstd::prelude::*;
use vstd::std_specs::convert::FromSpecImpl;
use vstd::string::*;

verus! {

/// The sending half of tokio's unbounded channel.
#[verifier::external_type_specification]
#[verifier::external_body]
#[verifier::reject_recursive_types(T)]
pub struct ExUnboundedSender<T>(UnboundedSender<T>);

/// The receiving half of tokio's unbounded channel.
#[verifier::external_type_specification]
#[verifier::external_body]
#[verifier::reject_recursive_types(T)]
pub struct ExUnboundedReceiver<T>(UnboundedReceiver<T>);

/// `UnboundedSender::clone`: one more handle on the same channel.
pub assume_specification<T>[ <UnboundedSender<T> as Clone>::clone ](
    sender: &UnboundedSender<T>,
) -> UnboundedSender<T>;

/// `tokio::sync::mpsc::unbounded_channel`: a new channel, as its two halves.
#[verifier::external_body]
pub(crate) fn unbounded_channel<T>() -> (halves: (UnboundedSender<T>, UnboundedReceiver<T>)) {
    tokio::sync::mpsc::unbounded_channel()
}

/// `UnboundedSender::send`: queues `message` without waiting. When the
/// receiving half is closed or gone the channel refuses the message and hands
/// it back, which is all that is claimed here: whether it is refused depends
/// on the other half. Tokio ends the process should the count of queued
/// messages ever overflow.
#[verifier::external_body]
pub(crate) fn channel_send<T>(sender: &UnboundedSender<T>, message: T) -> (refused: Result<(), T>)
    ensures
        refused matches Err(returned) ==> returned == message,
{
    match sender.send(message) {
        Ok(()) => Ok(()),
        Err(error) => Err(error.0),
    }
}

/// `UnboundedReceiver::try_recv`: takes the oldest queued value without
/// waiting, if there is one. Nothing is claimed of it: what is queued depends
/// on the senders.
#[verifier::external_body]
pub(crate) fn channel_try_recv<T>(receiver: &mut UnboundedReceiver<T>) -> (value: Option<T>) {
    match receiver.try_recv() {
        Ok(value) => Some(value),
        Err(_) => None,
    }
}

/// A control message on the bus.
#[derive(Debug, PartialEq, Eq)]
pub enum Message {
    /// Something failed; the text says what.
    Error(String),
    /// The supervisor is asked to shut down.
    Shutdown(ShutdownReason),
    /// A batch of input events.
    EventChunk(Vec<ParallelyEvent>),
    /// New output has arrived and the screen should be drawn again.
    Update,
}

impl From<ShutdownReason> for Message {
    fn from(value: ShutdownReason) -> (message: Self) {
        Self::Shutdown(value)
    }
}

impl FromSpecImpl<ShutdownReason> for Message {
    open spec fn obeys_from_spec() -> bool {
        true
    }

    open spec fn from_spec(value: ShutdownReason) -> Self {
        Message::Shutdown(value)
    }
}

impl From<String> for Message {
    fn from(value: String) -> (message: Self) {
        Self::Error(value)
    }
}

impl FromSpecImpl<String> for Message {
    open spec fn obeys_from_spec() -> bool {
        true
    }

    open spec fn from_spec(value: String) -> Self {
        Message::Error(value)
    }
}

impl From<Vec<ParallelyEvent>> for Message {
    fn from(value: Vec<ParallelyEvent>) -> (message: Self) {
        Self::EventChunk(value)
    }
}

impl FromSpecImpl<Vec<ParallelyEvent>> for Message {
    open spec fn obeys_from_spec() -> bool {
        true
    }

    open spec fn from_spec(value: Vec<ParallelyEvent>) -> Self {
        Message::EventChunk(value)
    }
}

/// The bus refused a message: its consumer has closed it or is gone.
#[derive(Debug, PartialEq, Eq)]
pub struct SendError {
    /// The message that was refused.
    pub message: Message,
}

/// The bus refused a message and then the report of that refusal. Nothing can
/// reach the consumer any more, so the producer must not go on.
#[derive(Debug, Copy, Clone, PartialEq, Eq, Structural)]
pub struct BusClosed;

/// What a producer does after an attempt to publish: nothing when the bus took
/// the message, else it reports the refusal on the bus.
pub open spec fn report_of(attempt: Result<(), SendError>) -> Option<Seq<char>> {
    match attempt {
        Ok(()) => None,
        Err(_) => Some("channel closed"@),
    }
}

/// The text that reports the failed `attempt`, if it failed.
pub fn refusal_report(attempt: &Result<(), SendError>) -> (report: Option<String>)
    ensures
        report matches Some(text) ==> report_of(*attempt) == Some(text@),
        report is None ==> report_of(*attempt) is None,
{
    match attempt {
        Ok(()) => None,
        Err(_) => Some(String::from_str("channel closed")),
    }
}

/// What a producer makes of the attempt to publish an error: a bus that
/// refuses even that is closed.
pub open spec fn closed_if_refused(attempt: Result<(), SendError>) -> Result<(), BusClosed> {
    match attempt {
        Ok(()) => Ok(()),
        Err(_) => Err(BusClosed),
    }
}

/// Tells whether the bus is closed, from the attempt to publish an error.
pub fn verdict(attempt: Result<(), SendError>) -> (verdict: Result<(), BusClosed>)
    ensures
        verdict == closed_if_refused(attempt),
{
    match attempt {
        Ok(()) => Ok(()),
        Err(_) => Err(BusClosed),
    }
}

/// The producing end of the message bus. Every listener holds a clone.
#[derive(Clone)]
pub struct MessageSender {
    inner: UnboundedSender<Message>,
}

impl MessageSender {
    /// The channel half that this end publishes on.
    pub closed spec fn channel(&self) -> UnboundedSender<Message> {
        self.inner
    }

    /// The producing end that publishes on `inner`.
    fn new(inner: UnboundedSender<Message>) -> (sender: Self)
        ensures
            sender.channel() == inner,
    {
        Self { inner }
    }

    /// Publishes `message` without waiting. The bus refuses it only when its
    /// consumer is closed or gone, and then hands it back.
    pub fn send(&self, message: Message) -> (sent: Result<(), SendError>)
        ensures
            sent matches Err(error) ==> error.message == message,
    {
        match channel_send(&self.inner, message) {
            Ok(()) => Ok(()),
            Err(message) => Err(SendError { message }),
        }
    }

    /// Publishes an error. A bus that refuses even this is closed for good.
    pub fn send_error(&self, error: String) -> Result<(), BusClosed> {
        verdict(self.send(Message::from(error)))
    }

    /// Publishes `message`, or else the report that it was refused.
    fn send_or_report(&self, message: Message) -> Result<(), BusClosed> {
        let attempt = self.send(message);
        match refusal_report(&attempt) {
            None => Ok(()),
            Some(report) => self.send_error(report),
        }
    }

    /// Publishes a request to shut down.
    pub fn send_shutdown(&self, reason: ShutdownReason) -> Result<(), BusClosed> {
        self.send_or_report(Message::from(reason))
    }

    /// Publishes a batch of input events.
    pub fn send_event_chunk(&self, events: Vec<ParallelyEvent>) -> Result<(), BusClosed> {
        self.send_or_report(Message::from(events))
    }

    /// Publishes that the screen needs to be drawn again.
    pub fn need_update(&self) -> Result<(), BusClosed> {
        self.send_or_report(Message::Update)
    }
}

/// The consuming end of the message bus.
pub struct MessageStream {
    message_stream: UnboundedReceiver<Message>,
}

impl MessageStream {
    /// The channel half that this end reads from.
    pub closed spec fn channel(&self) -> UnboundedReceiver<Message> {
        self.message_stream
    }

    /// The consuming end that reads from `message_stream`.
    pub fn new(message_stream: UnboundedReceiver<Message>) -> (stream: Self)
        ensures
            stream.channel() == message_stream,
    {
        Self { message_stream }
    }

    /// The oldest message that is waiting on the bus, if there is one.
    pub fn try_next(&mut self) -> Option<Message> {
        channel_try_recv(&mut self.message_stream)
    }

    /// Gives up the stream for the channel half it reads from.
    pub fn into_inner(self) -> (receiver: UnboundedReceiver<Message>)
        ensures
            receiver == self.channel(),
    {
        self.message_stream
    }
}

/// Opens the message bus.
pub fn message_queue() -> (MessageSender, MessageStream) {
    let (message_sender, message_receiver) = unbounded_channel();
    let message_sender = MessageSender::new(message_sender);
    let message_stream = MessageStream::new(message_receiver);
    (message_sender, message_stream)
}

} // verus!
