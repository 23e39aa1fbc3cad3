use vstd::prelude::*;

verus! {

/// One of the two streams on which a process prints.
#[derive(Debug, Copy, Clone, PartialEq, Eq, Structural)]
pub enum Stream {
    Stdout,
    Stderr,
}

/// Which of the two streams of a process have not ended yet.
#[derive(Debug, Copy, Clone, PartialEq, Eq, Structural)]
pub struct Streams {
    pub stdout_open: bool,
    pub stderr_open: bool,
}

/// What the routine that forwards the output of a task has met.
#[derive(Debug, Clone, PartialEq, Eq)]
pub enum Forwarded {
    /// The task is being stopped, and the routine was told to stop.
    Stop,
    /// One of the two streams gave a line.
    Line(String),
    /// This stream has ended.
    End(Stream),
    /// One of the two streams could not be read.
    Failed,
    /// The pane took the line that was sent to it.
    Sent,
    /// The pane takes no lines any more.
    Refused,
}

/// What the routine that forwards the output of a task does next.
#[derive(Debug, Clone, PartialEq, Eq)]
pub enum Forward {
    /// Send the line to the pane.
    Send(String),
    /// Publish that there is news, and read on.
    Notify,
    /// Read on from the streams that are still open. There is no news.
    Read,
    /// Forward no more.
    Finish,
}

impl Streams {
    /// The streams of a process that was just started: both are open.
    pub open spec fn both() -> Streams {
        Streams { stdout_open: true, stderr_open: true }
    }

    /// Whether a stream is still open.
    pub open spec fn any_open(self) -> bool {
        self.stdout_open || self.stderr_open
    }

    /// The streams once `stream` has ended.
    pub open spec fn closed(self, stream: Stream) -> Streams {
        match stream {
            Stream::Stdout => Streams { stdout_open: false, ..self },
            Stream::Stderr => Streams { stderr_open: false, ..self },
        }
    }

    /// The streams of a process that was just started.
    pub fn new() -> (open: Streams)
        ensures
            open == Streams::both(),
    {
        Streams { stdout_open: true, stderr_open: true }
    }
}

/// Whether `event` ends the forwarding whatever the streams are: the request
/// to stop, a stream that cannot be read, and a pane that takes no lines any
/// more.
pub open spec fn cuts_short(event: Forwarded) -> bool {
    event is Stop || event is Failed || event is Refused
}

/// The streams after `event`, and what follows it. A line is sent on as it
/// is, and a line that was taken is news. The end of one stream closes that
/// stream; the other is read on, and only the end of both ends the
/// forwarding. So do the request to stop, a stream that cannot be read, and
/// a pane that takes no lines any more.
pub open spec fn forward_next(open: Streams, event: Forwarded) -> (Streams, Forward) {
    match event {
        Forwarded::Line(line) => (open, Forward::Send(line)),
        Forwarded::Sent => (open, Forward::Notify),
        Forwarded::End(stream) => (
            open.closed(stream),
            if open.closed(stream).any_open() {
                Forward::Read
            } else {
                Forward::Finish
            },
        ),
        Forwarded::Stop => (open, Forward::Finish),
        Forwarded::Failed => (open, Forward::Finish),
        Forwarded::Refused => (open, Forward::Finish),
    }
}

/// Decides what the forwarding routine does after `event`, and which streams
/// it still reads.
pub fn forward_step(open: Streams, event: Forwarded) -> (next: (Streams, Forward))
    ensures
        next == forward_next(open, event),
{
    match event {
        Forwarded::Line(line) => (open, Forward::Send(line)),
        Forwarded::Sent => (open, Forward::Notify),
        Forwarded::End(stream) => {
            let left = match stream {
                Stream::Stdout => Streams { stdout_open: false, stderr_open: open.stderr_open },
                Stream::Stderr => Streams { stdout_open: open.stdout_open, stderr_open: false },
            };
            if left.stdout_open || left.stderr_open {
                (left, Forward::Read)
            } else {
                (left, Forward::Finish)
            }
        },
        Forwarded::Stop => (open, Forward::Finish),
        Forwarded::Failed => (open, Forward::Finish),
        Forwarded::Refused => (open, Forward::Finish),
    }
}

/// The lines among `events`, in their order.
pub open spec fn lines_met(events: Seq<Forwarded>) -> Seq<String>
    decreases events.len(),
{
    if events.len() == 0 {
        Seq::empty()
    } else {
        match events.last() {
            Forwarded::Line(line) => lines_met(events.drop_last()).push(line),
            _ => lines_met(events.drop_last()),
        }
    }
}

/// What forwarding has come to after `events`, one after the other: the
/// streams that are still open, the lines that were handed on to be sent, and
/// whether the forwarding has finished. Once it has finished no event counts
/// any more.
pub open spec fn forwarded_all(open: Streams, events: Seq<Forwarded>) -> (Streams, Seq<String>, bool)
    decreases events.len(),
{
    if events.len() == 0 {
        (open, Seq::empty(), false)
    } else {
        let (before, sent, finished) = forwarded_all(open, events.drop_last());
        if finished {
            (before, sent, true)
        } else {
            let (after, next) = forward_next(before, events.last());
            (
                after,
                match next {
                    Forward::Send(line) => sent.push(line),
                    _ => sent,
                },
                next is Finish,
            )
        }
    }
}

/// The forwarding ends when it must, and not before: on the request to stop,
/// on a stream that cannot be read, on a pane that takes no lines any more,
/// and on the end of the last stream that was open. The end of one stream
/// while the other is open only closes that stream.
pub proof fn lemma_forwarding_ends_when_it_must(open: Streams, event: Forwarded)
    ensures
        forward_next(open, event).1 is Finish <==> cuts_short(event) || (event matches Forwarded::End(
            stream,
        ) && !open.closed(stream).any_open()),
        event matches Forwarded::End(stream) ==> forward_next(open, event).0 == open.closed(stream),
        !(event is End) ==> forward_next(open, event).0 == open,
        event matches Forwarded::Line(line) ==> forward_next(open, event).1 == Forward::Send(line),
{
}

/// Every line is forwarded. As long as nothing cuts the forwarding short,
/// each line that the streams give is handed on to be sent, once and in the
/// order in which it came, whichever stream has ended meanwhile; and the
/// forwarding has finished only when both streams have ended.
pub proof fn lemma_every_line_is_forwarded(open: Streams, events: Seq<Forwarded>)
    requires
        forall|i: int| 0 <= i < events.len() ==> !cuts_short(#[trigger] events[i]),
    ensures
        !forwarded_all(open, events).2 ==> forwarded_all(open, events).1 == lines_met(events),
        forwarded_all(open, events).2 ==> !forwarded_all(open, events).0.any_open(),
    decreases events.len(),
{
    if events.len() > 0 {
        let earlier = events.drop_last();
        assert forall|i: int| 0 <= i < earlier.len() implies !cuts_short(#[trigger] earlier[i]) by {
            assert(earlier[i] == events[i]);
        }
        lemma_every_line_is_forwarded(open, earlier);
        assert(!cuts_short(events[events.len() - 1]));
    }
}

} // verus!
