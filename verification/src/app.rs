use crate::console::after_console;
use crate::console::Console;
use crate::console::ConsoleHandles;
use crate::console::ConsoleView;
use crate::event::event_views;
use crate::event::ParallelyEvent;
use crate::event::ParallelyEventView;
use crate::message::message_queue;
use crate::message::BusClosed;
use crate::message::Message;
use crate::message::MessageSender;
use crate::message::MessageStream;
use crate::parallely::Parallely;
use crate::shutdown_handler::after_shutdown_handler;
use crate::shutdown_handler::quit_chord;
use crate::shutdown_handler::ShutdownHandler;
use crate::shutdown_handler::ShutdownReason;
use crate::console::Rect;
use crate::console::TaskOutputReceiver;
use crate::task_executor::child_ext::ChildSignal;
use crate::task_executor::copy_exit_status;
use crate::task_executor::copy_result;
use crate::task_executor::Executable;
use crate::task_executor::ExitStatus;
use crate::task_executor::Outcome;
use crate::task_executor::Step;
use crate::task_executor::TaskError;
use crate::task_executor::TaskStatus;
use tokio::sync::oneshot::Sender;
use vstd::prelude::*;

verus! {

/// The first pane at `from` or after it that takes `event` for itself, or the
/// number of panes where none does.
pub open spec fn consumer_from(consoles: Seq<ConsoleView>, event: ParallelyEventView, from: int) -> int
    decreases consoles.len() - from,
{
    if from < 0 || from >= consoles.len() {
        consoles.len() as int
    } else if consoles[from].consumes(event.inner) {
        from
    } else {
        consumer_from(consoles, event, from + 1)
    }
}

/// The panes after `event` was offered to them in their order: the first
/// pane that takes it is the last one to see it, and the only one to change.
/// An event that does not propagate is offered to none.
pub open spec fn offered(consoles: Seq<ConsoleView>, event: ParallelyEventView) -> Seq<ConsoleView> {
    let first = consumer_from(consoles, event, 0);
    if event.propagate && 0 <= first < consoles.len() {
        consoles.update(first, consoles[first].handled(event.inner))
    } else {
        consoles
    }
}

/// The shutdown that the shutdown handler publishes for `event`, which it
/// sees only while the event propagates.
pub open spec fn trigger(event: ParallelyEventView) -> Option<ShutdownReason> {
    if event.propagate {
        quit_chord(event.inner)
    } else {
        None
    }
}

/// The panes after `event` went through the chain of handlers: the shutdown
/// handler first, then the panes.
pub open spec fn routed_one(consoles: Seq<ConsoleView>, event: ParallelyEventView) -> Seq<ConsoleView> {
    if event.propagate {
        offered(consoles, after_shutdown_handler(event))
    } else {
        consoles
    }
}

/// The panes after each of `events` went through the chain of handlers, one
/// event after the other.
pub open spec fn routed(consoles: Seq<ConsoleView>, events: Seq<ParallelyEventView>) -> Seq<ConsoleView>
    decreases events.len(),
{
    if events.len() == 0 {
        consoles
    } else {
        routed_one(routed(consoles, events.drop_last()), events.last())
    }
}

/// The shutdowns that the shutdown handler publishes for `events`, in their
/// order.
pub open spec fn triggers(events: Seq<ParallelyEventView>) -> Seq<ShutdownReason>
    decreases events.len(),
{
    if events.len() == 0 {
        Seq::empty()
    } else {
        match trigger(events.last()) {
            Some(reason) => triggers(events.drop_last()).push(reason),
            None => triggers(events.drop_last()),
        }
    }
}

/// The two phases of the supervisor.
#[derive(Debug, Copy, Clone, PartialEq, Eq, Structural)]
pub enum Phase {
    /// The tasks run and messages are dispatched.
    Running,
    /// The tasks are being stopped, or the supervisor has exited. This phase
    /// is never left.
    ShuttingDown(ShutdownReason),
}

/// What became of one task: its last status, or the error that kept the
/// supervisor from learning it.
pub type TaskResult = Result<TaskStatus, TaskError>;

/// What a poll of one process has shown: its exit status if it has ended,
/// nothing if it still runs, or the error that the poll ran into.
pub type Polled = Result<Option<ExitStatus>, TaskError>;

/// What the main loop does after a message was dispatched.
#[derive(Debug, PartialEq, Eq)]
pub enum Directive {
    /// Draw, poll the tasks and wait for the next message.
    Continue,
    /// Stop the tasks. There is one first request for each task, in the order
    /// of the panes.
    Stop(Vec<Step>),
}

/// What the supervisor reports when it exits.
#[derive(Debug, PartialEq, Eq)]
pub struct AppResult {
    /// One entry for each task, in the order of the commands.
    pub tasks_status: Vec<TaskResult>,
    pub shutdown_reason: ShutdownReason,
}

impl AppResult {
    pub fn new(tasks_status: Vec<TaskResult>, shutdown_reason: ShutdownReason) -> (result: Self)
        ensures
            result.tasks_status == tasks_status,
            result.shutdown_reason == shutdown_reason,
    {
        Self { tasks_status, shutdown_reason }
    }
}

/// Whether one of `statuses` is that of a process that runs.
pub open spec fn any_executing(statuses: Seq<TaskResult>) -> bool {
    exists|i: int| 0 <= i < statuses.len() && (#[trigger] statuses[i] matches Ok(s) && s is Executing)
}

/// What an [`App`] holds.
pub struct AppView {
    /// The panes, in the order of the commands.
    pub consoles: Seq<ConsoleView>,
    /// For each task, why its process could not be started, if it could not.
    pub failures: Seq<Option<TaskError>>,
    /// For each task, what became of it, once that is settled.
    pub results: Seq<Option<TaskResult>>,
    pub exit_on_complete: bool,
    pub phase: Phase,
}

impl AppView {
    /// The command of each task, in the order of the tasks.
    pub open spec fn commands(self) -> Seq<String> {
        Seq::new(self.consoles.len(), |i: int| self.consoles[i].executor.command)
    }

    /// What holds of every supervisor. Each task has a place for its failure
    /// to start and one for its result. Only a task that is ready has failed
    /// to start. While the tasks run no result is settled. Once they are
    /// being stopped each task has a settled result or a request under way.
    /// A settled status carries the command of its task, and is that of a
    /// task that has come to its end, or of one that nobody tried to start.
    pub open spec fn wf(self) -> bool {
        &&& self.results.len() == self.consoles.len()
        &&& self.failures.len() == self.consoles.len()
        &&& forall|i: int| 0 <= i < self.consoles.len() ==> (#[trigger] self.consoles[i]).executor.wf()
        &&& forall|i: int|
            0 <= i < self.consoles.len() ==> ((#[trigger] self.failures[i]) is Some
                ==> self.consoles[i].executor.lifecycle is Ready)
        &&& self.phase is Running ==> forall|i: int|
            0 <= i < self.results.len() ==> (#[trigger] self.results[i]) is None
        &&& self.phase is ShuttingDown ==> forall|i: int|
            0 <= i < self.consoles.len() ==> (#[trigger] self.results[i]) is Some
                || !(self.consoles[i].executor.stage is Idle)
        &&& forall|i: int|
            0 <= i < self.consoles.len() ==> ((#[trigger] self.results[i]) matches Some(Ok(status))
                ==> status.is_terminal() || (status is Ready
                && self.consoles[i].executor.lifecycle is Ready && self.failures[i] is None))
        &&& forall|i: int|
            0 <= i < self.consoles.len() ==> ((#[trigger] self.results[i]) matches Some(Ok(status))
                ==> status.command() == self.consoles[i].executor.command)
    }

    /// Whether every task was launched: its process was started, or the
    /// attempt to start it has failed.
    pub open spec fn launched_all(self) -> bool {
        forall|i: int|
            0 <= i < self.consoles.len() ==> !((#[trigger] self.consoles[i]).executor.lifecycle is Ready)
                || self.failures[i] is Some
    }

    /// The supervisor that was made for `commands`.
    pub open spec fn launched(commands: Seq<String>, exit_on_complete: bool) -> AppView {
        AppView {
            consoles: Seq::new(commands.len(), |i: int| ConsoleView::fresh(commands[i])),
            failures: Seq::new(commands.len(), |i: int| None),
            results: Seq::new(commands.len(), |i: int| None),
            exit_on_complete,
            phase: Phase::Running,
        }
    }

    /// The supervisor with `console` for its pane number `index`.
    pub open spec fn with_console(self, index: int, console: ConsoleView) -> AppView {
        AppView { consoles: self.consoles.update(index, console), ..self }
    }

    /// Whether task `index` can still be launched: the supervisor runs, the
    /// task is ready, and no attempt to start it has failed.
    pub open spec fn can_launch(self, index: int) -> bool {
        &&& self.phase is Running
        &&& self.consoles[index].executor.lifecycle is Ready
        &&& self.failures[index] is None
    }

    /// The supervisor after the process of task `index` was started. A task
    /// is launched once, and none is once the tasks are being stopped.
    pub open spec fn started(self, index: int, pid: Option<u32>) -> AppView {
        if self.can_launch(index) {
            self.with_console(index, self.consoles[index].started(pid))
        } else {
            self
        }
    }

    /// The supervisor after the attempt to start the process of task `index`
    /// has failed with `error`. The task stays ready for good, and the error
    /// is what will be reported of it.
    pub open spec fn failed_to_start(self, index: int, error: TaskError) -> AppView {
        if self.can_launch(index) {
            AppView { failures: self.failures.update(index, Some(error)), ..self }
        } else {
            self
        }
    }

    /// The panes after each has taken in what the poll of its process has
    /// shown. A poll that failed changes nothing, and a task that could not
    /// be started has no process to poll.
    pub open spec fn polled_consoles(self, seen: Seq<Polled>) -> Seq<ConsoleView> {
        Seq::new(
            self.consoles.len(),
            |i: int|
                match (self.failures[i], seen[i]) {
                    (None, Ok(exit)) => self.consoles[i].with_executor(
                        self.consoles[i].executor.polled(exit),
                    ),
                    _ => self.consoles[i],
                },
        )
    }

    /// What is known of each task after the polls: the error that kept it
    /// from starting, or the error of its poll, or its status.
    pub open spec fn polled_statuses(self, seen: Seq<Polled>) -> Seq<TaskResult> {
        Seq::new(
            self.consoles.len(),
            |i: int|
                match (self.failures[i], seen[i]) {
                    (Some(error), _) => Err(error),
                    (None, Err(error)) => Err(error),
                    (None, Ok(exit)) => Ok(self.consoles[i].executor.polled(exit).status()),
                },
        )
    }

    /// Whether the supervisor exits after the polls: it is running, it was
    /// asked to exit once every task has completed, and no process runs.
    pub open spec fn completes(self, seen: Seq<Polled>) -> bool {
        &&& self.phase is Running
        &&& self.exit_on_complete
        &&& !any_executing(self.polled_statuses(seen))
    }

    /// The supervisor after the polls. Once it is shutting down, polls change
    /// nothing: each task is then followed through the requests that stop it.
    pub open spec fn polled(self, seen: Seq<Polled>) -> AppView {
        if self.phase is ShuttingDown {
            self
        } else if self.completes(seen) {
            AppView {
                consoles: self.polled_consoles(seen),
                results: Seq::new(
                    self.consoles.len(),
                    |i: int| Some(self.polled_statuses(seen)[i]),
                ),
                phase: Phase::ShuttingDown(ShutdownReason::End),
                ..self
            }
        } else {
            AppView { consoles: self.polled_consoles(seen), ..self }
        }
    }

    /// The first request for each task when the tasks are stopped for
    /// `reason`. A task that could not be started is done, with the error
    /// that kept it from starting.
    pub open spec fn first_steps(self, reason: ShutdownReason) -> Seq<Step> {
        Seq::new(
            self.consoles.len(),
            |i: int|
                match self.failures[i] {
                    Some(error) => Step::Done(Err(error)),
                    None => self.consoles[i].executor.begin(
                        Some(ChildSignal::for_reason(reason)),
                    ).1,
                },
        )
    }

    /// The supervisor once it has begun to stop every task for `reason`. The
    /// result of a task whose process does not run is settled at once.
    pub open spec fn stopping(self, reason: ShutdownReason) -> AppView {
        AppView {
            consoles: Seq::new(
                self.consoles.len(),
                |i: int|
                    match self.failures[i] {
                        Some(_) => self.consoles[i],
                        None => self.consoles[i].with_executor(
                            self.consoles[i].executor.begin(
                                Some(ChildSignal::for_reason(reason)),
                            ).0,
                        ),
                    },
            ),
            results: Seq::new(
                self.consoles.len(),
                |i: int|
                    match self.first_steps(reason)[i] {
                        Step::Done(result) => Some(result),
                        _ => None,
                    },
            ),
            phase: Phase::ShuttingDown(reason),
            ..self
        }
    }

    /// The supervisor after `message` was dispatched. While it runs, a batch
    /// of events goes through the chain of handlers and a shutdown begins to
    /// stop the tasks; an error and a request to draw change nothing. Once
    /// it is shutting down, no message changes anything.
    pub open spec fn dispatched(self, message: Message) -> AppView {
        if self.phase is ShuttingDown {
            self
        } else {
            match message {
                Message::Error(_) => self,
                Message::Update => self,
                Message::EventChunk(events) => AppView {
                    consoles: routed(self.consoles, event_views(events@)),
                    ..self
                },
                Message::Shutdown(reason) => self.stopping(reason),
            }
        }
    }

    /// Whether dispatching `message` has a shutdown published on the bus:
    /// the supervisor runs, and the message is a batch of events with a quit
    /// chord that still propagates.
    pub open spec fn publishes(self, message: Message) -> bool {
        match (self.phase, message) {
            (Phase::Running, Message::EventChunk(events)) => triggers(event_views(events@)).len()
                > 0,
            _ => false,
        }
    }

    /// Whether dispatching `message` makes the main loop stop the tasks, and
    /// for which reason.
    pub open spec fn stops_for(self, message: Message) -> Option<ShutdownReason> {
        match (self.phase, message) {
            (Phase::Running, Message::Shutdown(reason)) => Some(reason),
            _ => None,
        }
    }

    /// The supervisor after the outcome of the last request for task `index`
    /// came in. The first result that a task comes to is the one that
    /// settles it.
    pub open spec fn advanced(self, index: int, outcome: Outcome) -> AppView {
        let next = self.consoles[index].executor.advance(outcome);
        AppView {
            consoles: self.consoles.update(index, self.consoles[index].with_executor(next.0)),
            results: match next.1 {
                Step::Done(result) => if self.phase is ShuttingDown && self.results[index] is None {
                    self.results.update(index, Some(result))
                } else {
                    self.results
                },
                _ => self.results,
            },
            ..self
        }
    }

    /// Whether the result of every task is settled.
    pub open spec fn settled(self) -> bool {
        forall|i: int| 0 <= i < self.results.len() ==> (#[trigger] self.results[i]) is Some
    }

    /// What the supervisor reports, once it is shutting down and the result
    /// of every task is settled: the results in the order of the tasks.
    pub open spec fn report(self) -> Option<Seq<TaskResult>> {
        if self.phase is ShuttingDown && self.settled() {
            Some(Seq::new(self.results.len(), |i: int| self.results[i]->Some_0))
        } else {
            None
        }
    }
}

/// The ends of the message bus that an [`App`] holds.
pub struct AppHandles {
    /// The producing end.
    pub message_sender: MessageSender,
    /// The handler that turns signals and quit chords into shutdowns.
    pub shutdown_handler: ShutdownHandler,
    /// The consuming end, until it is handed out.
    pub message_stream: Option<MessageStream>,
}

/// One task of the supervisor: its pane, and what became of it.
struct Slot {
    console: Console,
    failure: Option<TaskError>,
    result: Option<TaskResult>,
}

/// The supervisor: the panes with their tasks, the message bus, and the
/// phase it is in.
pub struct App {
    message_sender: MessageSender,
    message_stream: Option<MessageStream>,
    shutdown_handler: ShutdownHandler,
    slots: Vec<Slot>,
    exit_on_complete: bool,
    phase: Phase,
}

impl View for App {
    type V = AppView;

    closed spec fn view(&self) -> AppView {
        AppView {
            consoles: Seq::new(self.slots@.len(), |i: int| self.slots@[i].console@),
            failures: Seq::new(self.slots@.len(), |i: int| self.slots@[i].failure),
            results: Seq::new(self.slots@.len(), |i: int| self.slots@[i].result),
            exit_on_complete: self.exit_on_complete,
            phase: self.phase,
        }
    }
}

impl App {
    /// The ends of the message bus that the supervisor holds.
    pub closed spec fn handles(&self) -> AppHandles {
        AppHandles {
            message_sender: self.message_sender,
            shutdown_handler: self.shutdown_handler,
            message_stream: self.message_stream,
        }
    }

    /// The handles that the pane of task `index` holds.
    pub closed spec fn console_handles(&self, index: int) -> ConsoleHandles {
        self.slots@[index].console.handles()
    }

    /// The supervisor for the commands of `parallely`, with a pane for each
    /// and a message bus of its own, whose consuming end it still holds.
    pub fn new(parallely: Parallely) -> (app: Self)
        ensures
            app@ == AppView::launched(parallely.commands@, parallely.exit_on_complete),
            app.handles().message_stream is Some,
    {
        let (message_sender, message_stream) = message_queue();
        let shutdown_handler = ShutdownHandler::new(message_sender.clone());
        let exit_on_complete = parallely.exit_on_complete;
        let commands = parallely.commands;
        let mut slots: Vec<Slot> = Vec::new();
        let mut i: usize = 0;
        while i < commands.len()
            invariant
                i <= commands@.len(),
                slots@.len() == i,
                forall|j: int|
                    0 <= j < i ==> (#[trigger] slots@[j]).console@ == ConsoleView::fresh(
                        commands@[j],
                    ) && slots@[j].result is None && slots@[j].failure is None,
            decreases commands@.len() - i,
        {
            let console = Console::new(commands[i].clone(), message_sender.clone());
            slots.push(Slot { console, failure: None, result: None });
            i += 1;
        }
        let app = App {
            message_sender,
            message_stream: Some(message_stream),
            shutdown_handler,
            slots,
            exit_on_complete,
            phase: Phase::Running,
        };
        assert(app@.consoles =~= AppView::launched(commands@, exit_on_complete).consoles);
        assert(app@.results =~= AppView::launched(commands@, exit_on_complete).results);
        assert(app@.failures =~= AppView::launched(commands@, exit_on_complete).failures);
        app
    }

    /// The producing end of the message bus that the supervisor holds.
    pub fn message_sender(&self) -> (sender: &MessageSender)
        ensures
            *sender == self.handles().message_sender,
    {
        &self.message_sender
    }

    /// The handler that turns signals and quit chords into shutdowns.
    pub fn shutdown_handler(&self) -> (handler: &ShutdownHandler)
        ensures
            *handler == self.handles().shutdown_handler,
    {
        &self.shutdown_handler
    }

    /// Hands out the consuming end of the message bus, once: the first call
    /// gives the end that the supervisor held, every later call gives none.
    pub fn take_message_stream(&mut self) -> (stream: Option<MessageStream>)
        ensures
            stream == old(self).handles().message_stream,
            final(self).handles() == (AppHandles { message_stream: None, ..old(self).handles() }),
            final(self)@ == old(self)@,
    {
        self.message_stream.take()
    }

    /// The number of tasks.
    pub fn len(&self) -> (len: usize)
        ensures
            len == self@.consoles.len(),
    {
        self.slots.len()
    }

    /// The pane of task `index`.
    pub fn console(&self, index: usize) -> (console: &Console)
        requires
            index < self@.consoles.len(),
        ensures
            console@ == self@.consoles[index as int],
            console.handles() == self.console_handles(index as int),
    {
        &self.slots[index].console
    }

    /// Whether the tasks are being stopped, and why.
    pub fn phase(&self) -> (phase: Phase)
        ensures
            phase == self@.phase,
    {
        self.phase
    }

    /// Whether the supervisor exits once every task has completed.
    pub fn exit_on_complete(&self) -> (exit: bool)
        ensures
            exit == self@.exit_on_complete,
    {
        self.exit_on_complete
    }

    /// Records that the process of task `index` was started with id `pid`,
    /// and connects its output: the pane of the task then holds `output`, and
    /// the task holds `shutdown_sender`. A task is launched once; a later
    /// call changes nothing.
    pub fn execute(
        &mut self,
        index: usize,
        pid: Option<u32>,
        shutdown_sender: Sender<()>,
        output: TaskOutputReceiver,
    )
        requires
            index < old(self)@.consoles.len(),
        ensures
            final(self).handles() == old(self).handles(),
            final(self)@ == old(self)@.started(index as int, pid),
            final(self).console_handles(index as int) == (if old(self)@.can_launch(index as int) {
                ConsoleHandles {
                    stop_handle: Some(shutdown_sender),
                    output: Some(output),
                    ..old(self).console_handles(index as int)
                }
            } else {
                old(self).console_handles(index as int)
            }),
            forall|other: int|
                0 <= other < old(self)@.consoles.len() && other != index
                    ==> #[trigger] final(self).console_handles(other) == old(self).console_handles(
                    other,
                ),
    {
        if self.can_launch(index) {
            self.slots[index].console.execute(pid, shutdown_sender, output);
            proof {
                assert(self@.consoles =~= old(self)@.started(index as int, pid).consoles);
                assert(self@.results =~= old(self)@.results);
                assert(self@.failures =~= old(self)@.failures);
            }
        }
    }

    /// Whether task `index` can still be launched.
    fn can_launch(&self, index: usize) -> (can: bool)
        requires
            index < self@.consoles.len(),
        ensures
            can == self@.can_launch(index as int),
    {
        let running = match self.phase {
            Phase::Running => true,
            Phase::ShuttingDown(_) => false,
        };
        let ready = match self.slots[index].console.status() {
            TaskStatus::Ready(_) => true,
            _ => false,
        };
        running && ready && self.slots[index].failure.is_none()
    }

    /// Records that the process of task `index` could not be started, and
    /// publishes the error. The task stays ready, the other tasks are not
    /// touched, and the error is reported in place of a status in the end.
    /// The result is an error where the bus is closed.
    pub fn spawn_failed(&mut self, index: usize, error: String) -> (published: Result<(), BusClosed>)
        requires
            index < old(self)@.consoles.len(),
        ensures
            final(self).handles() == old(self).handles(),
            final(self)@ == old(self)@.failed_to_start(index as int, TaskError { message: error }),
    {
        if self.can_launch(index) {
            self.slots[index].failure = Some(TaskError { message: error.clone() });
            proof {
                assert(self@.consoles =~= old(self)@.consoles);
                assert(self@.results =~= old(self)@.results);
                assert(self@.failures =~= old(self)@.failures.update(
                    index as int,
                    Some(TaskError { message: error }),
                ));
            }
        }
        self.message_sender.send_error(error)
    }

    /// Takes the lines that have arrived from task `index` into its pane,
    /// wrapped to `width_limit` columns, and hands them back as they arrived.
    /// A task whose output is not connected has none.
    pub fn receive(&mut self, index: usize, width_limit: usize) -> (taken: Vec<String>)
        requires
            index < old(self)@.consoles.len(),
        ensures
            final(self).handles() == old(self).handles(),
            final(self)@ == old(self)@.with_console(
                index as int,
                old(self)@.consoles[index as int].received(taken@, width_limit),
            ),
            !old(self)@.consoles[index as int].attached ==> taken@.len() == 0,
    {
        let taken = self.slots[index].console.receive(width_limit);
        assert(self@.consoles =~= old(self)@.consoles.update(
            index as int,
            old(self)@.consoles[index as int].received(taken@, width_limit),
        ));
        assert(self@.results =~= old(self)@.results);
        assert(self@.failures =~= old(self)@.failures);
        taken
    }

    /// Records where the output of task `index` was drawn and how many lines
    /// fit there.
    pub fn rendered(&mut self, index: usize, output_rect: Rect, height: u16)
        requires
            index < old(self)@.consoles.len(),
        ensures
            final(self).handles() == old(self).handles(),
            final(self)@ == old(self)@.with_console(
                index as int,
                old(self)@.consoles[index as int].drawn(output_rect, height),
            ),
    {
        self.slots[index].console.rendered(output_rect, height);
        assert(self@.consoles =~= old(self)@.consoles.update(
            index as int,
            old(self)@.consoles[index as int].drawn(output_rect, height),
        ));
        assert(self@.results =~= old(self)@.results);
        assert(self@.failures =~= old(self)@.failures);
    }

    /// Offers `event` to the panes in their order, until one takes it.
    fn offer(&mut self, event: &mut ParallelyEvent)
        ensures
            final(self).handles() == old(self).handles(),
            final(self)@ == (AppView { consoles: offered(old(self)@.consoles, old(event)@), ..old(self)@ }),
    {
        let ghost before = self@.consoles;
        let ghost given = event@;
        let mut i: usize = 0;
        while i < self.slots.len() && event.propagate()
            invariant
                self.handles() == old(self).handles(),
                i <= self.slots@.len(),
                before.len() == self.slots@.len(),
                self@.exit_on_complete == old(self)@.exit_on_complete,
                self@.phase == old(self)@.phase,
                self@.results == old(self)@.results,
                self@.failures == old(self)@.failures,
                before == old(self)@.consoles,
                given == old(event)@,
                event@.propagate ==> event@ == given && self@.consoles == before && consumer_from(
                    before,
                    given,
                    0,
                ) == consumer_from(before, given, i as int),
                !event@.propagate ==> self@.consoles == offered(before, given),
            decreases self.slots@.len() - i,
        {
            let ghost pane = self.slots@[i as int].console@;
            assert(pane == before[i as int]);
            self.slots[i].console.handle_event(event);
            proof {
                assert(self@.results =~= old(self)@.results);
                assert(self@.failures =~= old(self)@.failures);
                assert(self@.consoles =~= before.update(i as int, pane.handled(given.inner)));
                if !pane.consumes(given.inner) {
                    assert(self@.consoles =~= before);
                }
            }
            i += 1;
        }
    }

    /// Sends each of `events` through the chain of handlers: the shutdown
    /// handler first, then the panes in their order, as long as the event
    /// propagates. The result lists the shutdowns that were published, or
    /// says that the bus is closed. A batch without a quit chord publishes
    /// nothing, and so succeeds.
    pub fn handle_events(&mut self, events: Vec<ParallelyEvent>) -> (published: Result<
        Vec<ShutdownReason>,
        BusClosed,
    >)
        ensures
            final(self).handles() == old(self).handles(),
            final(self)@ == (AppView {
                consoles: routed(old(self)@.consoles, event_views(events@)),
                ..old(self)@
            }),
            published matches Ok(reasons) ==> reasons@ == triggers(event_views(events@)),
            triggers(event_views(events@)).len() == 0 ==> published is Ok,
    {
        let ghost all = event_views(events@);
        let mut reasons: Vec<ShutdownReason> = Vec::new();
        let mut closed = false;
        let mut i: usize = 0;
        assert(all.take(0) =~= Seq::empty());
        while i < events.len()
            invariant
                self.handles() == old(self).handles(),
                i <= events@.len(),
                all == event_views(events@),
                self@ == (AppView {
                    consoles: routed(old(self)@.consoles, all.take(i as int)),
                    ..old(self)@
                }),
                !closed ==> reasons@ == triggers(all.take(i as int)),
                closed ==> triggers(all.take(i as int)).len() > 0,
            decreases events@.len() - i,
        {
            let mut event = events[i];
            proof {
                assert(all.take(i + 1).drop_last() =~= all.take(i as int));
                assert(all.take(i + 1).last() == event@);
            }
            if event.propagate() {
                match self.shutdown_handler.handle_event(&mut event) {
                    Ok(Some(reason)) => {
                        reasons.push(reason);
                    },
                    Ok(None) => {},
                    Err(_) => {
                        closed = true;
                    },
                }
            }
            self.offer(&mut event);
            i += 1;
        }
        assert(all.take(i as int) =~= all);
        if closed {
            Err(BusClosed)
        } else {
            Ok(reasons)
        }
    }

    /// Takes in what a poll of each process has shown, in the order of the
    /// tasks. When the supervisor was asked to exit once every task has
    /// completed, and no process runs any more, it shuts down and reports the
    /// status of each task.
    pub fn try_wait(&mut self, seen: Vec<Polled>) -> (result: Option<AppResult>)
        requires
            seen@.len() == old(self)@.consoles.len(),
        ensures
            final(self).handles() == old(self).handles(),
            final(self)@ == old(self)@.polled(seen@),
            result is Some <==> old(self)@.completes(seen@),
            result matches Some(report) ==> report.tasks_status@ == old(self)@.polled_statuses(seen@)
                && report.shutdown_reason == ShutdownReason::End,
    {
        match self.phase {
            Phase::ShuttingDown(_) => {
                return None;
            },
            Phase::Running => {},
        }
        let ghost before = self@;
        let ghost target = before.polled_statuses(seen@);
        let mut statuses: Vec<TaskResult> = Vec::new();
        let mut executing = false;
        let mut i: usize = 0;
        while i < self.slots.len()
            invariant
                self.handles() == old(self).handles(),
                i <= self.slots@.len(),
                self.slots@.len() == seen@.len(),
                before == old(self)@,
                before.consoles.len() == seen@.len(),
                target == before.polled_statuses(seen@),
                self@.results == before.results,
                self@.failures == before.failures,
                self@.exit_on_complete == before.exit_on_complete,
                self@.phase == before.phase,
                self@.consoles.len() == before.consoles.len(),
                forall|j: int|
                    0 <= j < i ==> (#[trigger] self@.consoles[j]) == before.polled_consoles(seen@)[j],
                forall|j: int| i <= j < seen@.len() ==> (#[trigger] self@.consoles[j]) == before.consoles[j],
                statuses@ == target.take(i as int),
                executing == any_executing(statuses@),
            decreases self.slots@.len() - i,
        {
            let ghost so_far = statuses@;
            let ghost panes = self@.consoles;
            assert(panes[i as int] == before.consoles[i as int]);
            assert(self@.failures[i as int] == before.failures[i as int]);
            let failure = match &self.slots[i].failure {
                Some(error) => Some(TaskError { message: error.message.clone() }),
                None => None,
            };
            let status: TaskResult = match (failure, &seen[i]) {
                (Some(error), _) => Err(error),
                (None, Ok(exit)) => {
                    let seen_exit = match exit {
                        Some(exit) => Some(copy_exit_status(exit)),
                        None => None,
                    };
                    Ok(self.slots[i].console.try_wait(seen_exit))
                },
                (None, Err(error)) => Err(TaskError { message: error.message.clone() }),
            };
            proof {
                assert(self@.results =~= before.results);
                assert(self@.failures =~= before.failures);
                assert(self@.consoles.len() == before.consoles.len());
                assert forall|j: int| 0 <= j < self@.consoles.len() && j != i implies (
                #[trigger] self@.consoles[j]) == panes[j] by {}
                assert(status == target[i as int]);
            }
            match &status {
                Ok(TaskStatus::Executing { .. }) => {
                    executing = true;
                },
                _ => {},
            }
            statuses.push(status);
            proof {
                assert(statuses@ =~= target.take(i + 1));
                if any_executing(so_far) {
                    let k = choose|k: int|
                        0 <= k < so_far.len() && (#[trigger] so_far[k] matches Ok(s) && s is Executing);
                    assert(statuses@[k] == so_far[k]);
                }
                if any_executing(statuses@) && !executing {
                    let k = choose|k: int|
                        0 <= k < statuses@.len() && (#[trigger] statuses@[k] matches Ok(s)
                            && s is Executing);
                    assert(so_far[k] == statuses@[k]);
                }
                if executing && !any_executing(so_far) {
                    assert(statuses@[i as int] matches Ok(s) && s is Executing);
                }
            }
            i += 1;
        }
        proof {
            assert(statuses@ =~= target);
            assert(self@.consoles =~= before.polled_consoles(seen@));
        }
        if self.exit_on_complete && !executing {
            let mut k: usize = 0;
            while k < self.slots.len()
                invariant
                    self.handles() == old(self).handles(),
                    k <= self.slots@.len(),
                    self.slots@.len() == statuses@.len(),
                    statuses@ == target,
                    self@.consoles == before.polled_consoles(seen@),
                    self@.failures == before.failures,
                    self@.exit_on_complete == before.exit_on_complete,
                    self@.phase == before.phase,
                    self@.results.len() == statuses@.len(),
                    forall|j: int| 0 <= j < k ==> (#[trigger] self@.results[j]) == Some(target[j]),
                decreases self.slots@.len() - k,
            {
                let ghost panes = self@.consoles;
                let ghost results = self@.results;
                self.slots[k].result = Some(copy_result(&statuses[k]));
                proof {
                    assert(self@.consoles =~= panes);
                    assert(self@.failures =~= before.failures);
                    assert forall|j: int| 0 <= j < k implies (#[trigger] self@.results[j]) == Some(
                        target[j],
                    ) by {
                        assert(self@.results[j] == results[j]);
                    }
                }
                k += 1;
            }
            self.phase = Phase::ShuttingDown(ShutdownReason::End);
            proof {
                assert(self@.results =~= before.polled(seen@).results);
            }
            Some(AppResult::new(statuses, ShutdownReason::End))
        } else {
            None
        }
    }

    /// Begins to stop every task for `reason`, and hands back the first
    /// request for each.
    fn stop(&mut self, reason: ShutdownReason) -> (steps: Vec<Step>)
        ensures
            final(self).handles() == old(self).handles(),
            final(self)@ == old(self)@.stopping(reason),
            steps@ == old(self)@.first_steps(reason),
    {
        let ghost before = self@;
        let ghost target = before.stopping(reason);
        let signal = ChildSignal::from(reason);
        let mut steps: Vec<Step> = Vec::new();
        let mut i: usize = 0;
        while i < self.slots.len()
            invariant
                self.handles() == old(self).handles(),
                i <= self.slots@.len(),
                before == old(self)@,
                target == before.stopping(reason),
                signal == ChildSignal::for_reason(reason),
                self@.consoles.len() == before.consoles.len(),
                self@.failures == before.failures,
                self@.exit_on_complete == before.exit_on_complete,
                self@.phase == before.phase,
                self@.results.len() == before.consoles.len(),
                forall|j: int| 0 <= j < i ==> (#[trigger] self@.consoles[j]) == target.consoles[j],
                forall|j: int| 0 <= j < i ==> (#[trigger] self@.results[j]) == target.results[j],
                forall|j: int|
                    i <= j < before.consoles.len() ==> (#[trigger] self@.consoles[j])
                        == before.consoles[j],
                steps@ == before.first_steps(reason).take(i as int),
            decreases self.slots@.len() - i,
        {
            let ghost panes = self@.consoles;
            let ghost results = self@.results;
            assert(panes[i as int] == before.consoles[i as int]);
            assert(self@.failures[i as int] == before.failures[i as int]);
            let step = match &self.slots[i].failure {
                Some(error) => Step::Done(Err(TaskError { message: error.message.clone() })),
                None => self.slots[i].console.signal_or_wait(signal),
            };
            let settled = match &step {
                Step::Done(result) => Some(copy_result(result)),
                _ => None,
            };
            self.slots[i].result = settled;
            proof {
                assert(self@.failures =~= before.failures);
                assert forall|j: int| 0 <= j < self@.consoles.len() && j != i implies (
                #[trigger] self@.consoles[j]) == panes[j] by {}
                assert forall|j: int| 0 <= j < self@.results.len() && j != i implies (
                #[trigger] self@.results[j]) == results[j] by {}
                assert(step == before.first_steps(reason)[i as int]);
            }
            steps.push(step);
            proof {
                assert(steps@ =~= before.first_steps(reason).take(i + 1));
            }
            i += 1;
        }
        self.phase = Phase::ShuttingDown(reason);
        proof {
            assert(steps@ =~= before.first_steps(reason));
            assert(self@.consoles =~= target.consoles);
            assert(self@.results =~= target.results);
            assert(self@.failures =~= target.failures);
        }
        steps
    }

    /// Dispatches one message of the bus, and says how the main loop goes
    /// on. A shutdown that arrives while the supervisor runs makes it stop
    /// the tasks; after every other message the loop goes on. Only a batch
    /// of events with a quit chord in it, which has a shutdown published,
    /// can run into a closed bus, and only then is the result an error.
    pub fn dispatch(&mut self, message: Message) -> (directive: Result<Directive, BusClosed>)
        ensures
            final(self).handles() == old(self).handles(),
            final(self)@ == old(self)@.dispatched(message),
            old(self)@.stops_for(message) matches Some(reason) ==> (directive matches Ok(
                Directive::Stop(steps),
            ) && steps@ == old(self)@.first_steps(reason)),
            old(self)@.stops_for(message) is None ==> (directive matches Ok(next) ==> next is Continue),
            !old(self)@.publishes(message) ==> directive is Ok,
    {
        match self.phase {
            Phase::ShuttingDown(_) => Ok(Directive::Continue),
            Phase::Running => match message {
                Message::Error(_) => Ok(Directive::Continue),
                Message::Update => Ok(Directive::Continue),
                Message::EventChunk(events) => match self.handle_events(events) {
                    Ok(_) => Ok(Directive::Continue),
                    Err(closed) => Err(closed),
                },
                Message::Shutdown(reason) => Ok(Directive::Stop(self.stop(reason))),
            },
        }
    }

    /// Takes in the outcome of the last request for task `index`, and says
    /// what to do next. When the task has been stopped, or stopping it has
    /// failed, its result is settled.
    pub fn advance(&mut self, index: usize, outcome: Outcome) -> (step: Step)
        requires
            index < old(self)@.consoles.len(),
        ensures
            final(self).handles() == old(self).handles(),
            final(self)@ == old(self)@.advanced(index as int, outcome),
            step == old(self)@.consoles[index as int].executor.advance(outcome).1,
    {
        let step = self.slots[index].console.advance(outcome);
        let shutting_down = match self.phase {
            Phase::Running => false,
            Phase::ShuttingDown(_) => true,
        };
        if shutting_down && self.slots[index].result.is_none() {
            match &step {
                Step::Done(result) => {
                    self.slots[index].result = Some(copy_result(result));
                },
                _ => {},
            }
        }
        proof {
            assert(self@.consoles =~= old(self)@.advanced(index as int, outcome).consoles);
            assert(self@.results =~= old(self)@.advanced(index as int, outcome).results);
            assert(self@.failures =~= old(self)@.failures);
        }
        step
    }

    /// The report of the supervisor, once it is shutting down and the result
    /// of every task is settled.
    pub fn finish(&self) -> (result: Option<AppResult>)
        ensures
            result is Some <==> self@.report() is Some,
            result matches Some(report) ==> Some(report.tasks_status@) == self@.report()
                && self@.phase == Phase::ShuttingDown(report.shutdown_reason),
    {
        match self.phase {
            Phase::Running => None,
            Phase::ShuttingDown(reason) => {
                let mut statuses: Vec<TaskResult> = Vec::new();
                let mut i: usize = 0;
                while i < self.slots.len()
                    invariant
                        i <= self.slots@.len(),
                        statuses@.len() == i,
                        forall|j: int|
                            0 <= j < i ==> self@.results[j] == Some(#[trigger] statuses@[j]),
                    decreases self.slots@.len() - i,
                {
                    match &self.slots[i].result {
                        None => {
                            assert(self@.results[i as int] is None);
                            return None;
                        },
                        Some(result) => {
                            statuses.push(copy_result(result));
                        },
                    }
                    i += 1;
                }
                proof {
                    assert forall|j: int| 0 <= j < self@.results.len() implies (
                    #[trigger] self@.results[j]) is Some by {
                        assert(self@.results[j] == Some(statuses@[j]));
                    }
                    assert(statuses@ =~= self@.report()->Some_0);
                }
                Some(AppResult::new(statuses, reason))
            },
        }
    }
}

/// The first pane that takes an event is found by going through the panes
/// in their order.
proof fn lemma_consumer_from(consoles: Seq<ConsoleView>, event: ParallelyEventView, from: int, first: int)
    requires
        0 <= from <= first <= consoles.len(),
        forall|j: int| from <= j < first ==> !(#[trigger] consoles[j]).consumes(event.inner),
        first < consoles.len() ==> consoles[first].consumes(event.inner),
    ensures
        consumer_from(consoles, event, from) == first,
    decreases first - from,
{
    if from < first {
        lemma_consumer_from(consoles, event, from + 1, first);
    }
}

/// An event that belongs to one pane reaches that pane and no other. When
/// `first` is the first pane in order that takes the event for itself, as a
/// pane does with a turn of the mouse wheel over its output, then routing
/// the event changes that pane as the event says, leaves every other pane as
/// it was, and the event has stopped propagating when it leaves that pane.
/// Nothing is published for it, so a batch of this one event is routed
/// without touching the bus.
pub proof fn lemma_event_reaches_one_pane(
    consoles: Seq<ConsoleView>,
    event: ParallelyEventView,
    first: int,
)
    requires
        event.propagate,
        0 <= first < consoles.len(),
        consoles[first].consumes(event.inner),
        forall|j: int| 0 <= j < first ==> !(#[trigger] consoles[j]).consumes(event.inner),
    ensures
        routed_one(consoles, event) == consoles.update(first, consoles[first].handled(event.inner)),
        forall|j: int|
            0 <= j < consoles.len() && j != first ==> (#[trigger] routed_one(consoles, event)[j])
                == consoles[j],
        routed_one(consoles, event)[first].scroll == (if event.inner->Mouse_0.kind is ScrollUp {
            consoles[first].scroll.saturating_sub(1)
        } else {
            consoles[first].offset_down(consoles[first].scroll_max->Some_0)
        }),
        !after_console(consoles[first], event).propagate,
        trigger(event) is None,
        routed(consoles, seq![event]) == routed_one(consoles, event),
        triggers(seq![event]).len() == 0,
{
    lemma_consumer_from(consoles, event, 0, first);
    let events = seq![event];
    assert(events.drop_last() =~= Seq::<ParallelyEventView>::empty());
    assert(events.last() == event);
    assert(routed(consoles, events.drop_last()) == consoles);
    assert(triggers(events.drop_last()).len() == 0);
}

/// An event that no pane takes for itself, such as a resize or a change of
/// focus, changes no pane.
pub proof fn lemma_unclaimed_event_changes_nothing(
    consoles: Seq<ConsoleView>,
    event: ParallelyEventView,
)
    requires
        forall|j: int| 0 <= j < consoles.len() ==> !(#[trigger] consoles[j]).consumes(event.inner),
    ensures
        routed_one(consoles, event) == consoles,
        event.inner is Resize || event.inner is FocusGained || event.inner is FocusLost
            ==> trigger(event) is None,
{
    lemma_consumer_from(consoles, event, 0, consoles.len() as int);
    lemma_consumer_from(consoles, after_shutdown_handler(event), 0, consoles.len() as int);
}

/// A quit chord stops at the shutdown handler. The handler publishes the
/// shutdown that the chord asks for exactly once, and the keystroke reaches
/// no pane: every pane stays as it was. The press of `q` alone asks for the
/// shutdown on the user's request to quit.
pub proof fn lemma_quit_chord_stops_at_handler(consoles: Seq<ConsoleView>, event: ParallelyEventView)
    requires
        event.propagate,
        quit_chord(event.inner) is Some,
    ensures
        triggers(seq![event]) == seq![quit_chord(event.inner)->Some_0],
        !after_shutdown_handler(event).propagate,
        routed(consoles, seq![event]) == consoles,
        event.inner matches crate::event::Event::Key(key) && key.kind is Press && key.code
            == crate::event::KeyCode::Char('q') && key.modifiers.bits == 0 ==> quit_chord(
            event.inner,
        ) == Some(ShutdownReason::Quit),
{
    let events = seq![event];
    assert(events.drop_last() =~= Seq::<ParallelyEventView>::empty());
    assert(events.last() == event);
    assert(routed(consoles, events.drop_last()) == consoles);
    assert(triggers(events.drop_last()) =~= Seq::<ShutdownReason>::empty());
    assert(triggers(events) =~= seq![quit_chord(event.inner)->Some_0]);
}

/// Routing changes how far panes are scrolled, and nothing else: each pane
/// keeps its task, its output and its place on the screen.
pub proof fn lemma_routing_keeps_tasks(consoles: Seq<ConsoleView>, events: Seq<ParallelyEventView>)
    ensures
        routed(consoles, events).len() == consoles.len(),
        forall|i: int|
            0 <= i < consoles.len() ==> {
                &&& (#[trigger] routed(consoles, events)[i]).executor == consoles[i].executor
                &&& routed(consoles, events)[i].lines == consoles[i].lines
                &&& routed(consoles, events)[i].rect == consoles[i].rect
                &&& routed(consoles, events)[i].attached == consoles[i].attached
            },
    decreases events.len(),
{
    if events.len() > 0 {
        lemma_routing_keeps_tasks(consoles, events.drop_last());
    }
}

/// A supervisor that was just made is well formed, and every transition
/// keeps it well formed.
pub proof fn lemma_transitions_keep_wf(
    app: AppView,
    commands: Seq<String>,
    exit_on_complete: bool,
    index: int,
    pid: Option<u32>,
    error: TaskError,
    seen: Seq<Polled>,
    message: Message,
    outcome: Outcome,
)
    requires
        app.wf(),
        0 <= index < app.consoles.len(),
        seen.len() == app.consoles.len(),
    ensures
        AppView::launched(commands, exit_on_complete).wf(),
        app.started(index, pid).wf(),
        app.failed_to_start(index, error).wf(),
        app.polled(seen).wf(),
        app.dispatched(message).wf(),
        app.advanced(index, outcome).wf(),
{
    assert(app.started(index, pid).wf());
    assert(app.polled(seen).wf()) by {
        let next = app.polled(seen);
        let statuses = app.polled_statuses(seen);
        if app.completes(seen) {
            assert forall|i: int| 0 <= i < next.consoles.len() implies ((
            #[trigger] next.results[i]) matches Some(Ok(status)) ==> status.is_terminal() || (
            status is Ready && next.consoles[i].executor.lifecycle is Ready
                && next.failures[i] is None)) by {
                assert(next.results[i] == Some(statuses[i]));
                if statuses[i] is Ok && statuses[i]->Ok_0 is Executing {
                    assert(any_executing(statuses));
                }
            }
        }
    }
    assert(app.dispatched(message).wf()) by {
        if app.phase is Running {
            match message {
                Message::EventChunk(events) => {
                    lemma_routing_keeps_tasks(app.consoles, event_views(events@));
                },
                _ => {},
            }
        }
    }
    assert(app.advanced(index, outcome).wf());
}

/// Every task is reported, and reported at its end. Once the supervisor has
/// a report, the report has exactly one entry for each task, in the order of
/// the tasks: an entry that is a status carries the command of the task at
/// its place. Such an entry is never the status of a process that runs: it
/// is the status of a task that has exited or was killed, or of a task that
/// nobody tried to start. Where every task was launched, each status in the
/// report is terminal.
pub proof fn lemma_report_is_complete(app: AppView)
    requires
        app.wf(),
        app.report() is Some,
    ensures
        app.report()->Some_0.len() == app.commands().len(),
        app.report()->Some_0.len() == app.consoles.len(),
        forall|i: int|
            0 <= i < app.consoles.len() ==> ((#[trigger] app.report()->Some_0[i]) matches Ok(status)
                ==> status.command() == app.commands()[i]),
        forall|i: int|
            0 <= i < app.consoles.len() ==> ((#[trigger] app.report()->Some_0[i]) matches Ok(status)
                ==> !(status is Executing) && (status.is_terminal() || (
            app.consoles[i].executor.lifecycle is Ready && app.failures[i] is None))),
        app.launched_all() ==> forall|i: int|
            0 <= i < app.consoles.len() ==> ((#[trigger] app.report()->Some_0[i]) matches Ok(status)
                ==> status.is_terminal()),
{
    let report = app.report()->Some_0;
    assert forall|i: int| 0 <= i < app.consoles.len() implies ((#[trigger] report[i]) matches Ok(
        status,
    ) ==> status.command() == app.commands()[i]) by {
        assert(app.results[i] == Some(report[i]));
    }
    assert forall|i: int| 0 <= i < app.consoles.len() implies ((#[trigger] report[i]) matches Ok(
        status,
    ) ==> !(status is Executing) && (status.is_terminal() || (
    app.consoles[i].executor.lifecycle is Ready && app.failures[i] is None))) by {
        assert(app.results[i] == Some(report[i]));
    }
    if app.launched_all() {
        assert forall|i: int| 0 <= i < app.consoles.len() implies ((#[trigger] report[i]) matches Ok(
            status,
        ) ==> status.is_terminal()) by {
            assert(app.results[i] == Some(report[i]));
            assert(!(app.consoles[i].executor.lifecycle is Ready) || app.failures[i] is Some);
        }
    }
}

/// The tasks keep their commands. A supervisor that was made for some
/// commands has these for the commands of its tasks, in their order, and no
/// transition changes the command of a task. So the entry at a place in the
/// report belongs to the command that was configured at that place.
pub proof fn lemma_commands_are_kept(
    app: AppView,
    commands: Seq<String>,
    exit_on_complete: bool,
    index: int,
    console: ConsoleView,
    pid: Option<u32>,
    error: TaskError,
    seen: Seq<Polled>,
    message: Message,
    outcome: Outcome,
)
    requires
        0 <= index < app.consoles.len(),
        seen.len() == app.consoles.len(),
        console.executor.command == app.consoles[index].executor.command,
    ensures
        AppView::launched(commands, exit_on_complete).commands() == commands,
        app.with_console(index, console).commands() == app.commands(),
        app.started(index, pid).commands() == app.commands(),
        app.failed_to_start(index, error).commands() == app.commands(),
        app.polled(seen).commands() == app.commands(),
        app.dispatched(message).commands() == app.commands(),
        app.advanced(index, outcome).commands() == app.commands(),
{
    assert(AppView::launched(commands, exit_on_complete).commands() =~= commands);
    assert(app.with_console(index, console).commands() =~= app.commands());
    assert(app.started(index, pid).commands() =~= app.commands());
    assert(app.failed_to_start(index, error).commands() =~= app.commands());
    assert(app.polled(seen).commands() =~= app.commands());
    assert(app.dispatched(message).commands() =~= app.commands()) by {
        if app.phase is Running {
            match message {
                Message::EventChunk(events) => {
                    lemma_routing_keeps_tasks(app.consoles, event_views(events@));
                },
                _ => {},
            }
        }
    }
    assert(app.advanced(index, outcome).commands() =~= app.commands());
}

/// A task that was launched stays launched: once every task was launched,
/// no transition takes that back. So the report that comes in the end holds
/// a terminal status, or an error, for each of them.
pub proof fn lemma_launched_stays_launched(
    app: AppView,
    index: int,
    console: ConsoleView,
    seen: Seq<Polled>,
    message: Message,
    outcome: Outcome,
)
    requires
        app.wf(),
        app.launched_all(),
        0 <= index < app.consoles.len(),
        seen.len() == app.consoles.len(),
        console.executor == app.consoles[index].executor,
    ensures
        app.with_console(index, console).wf(),
        app.with_console(index, console).launched_all(),
        app.polled(seen).launched_all(),
        app.dispatched(message).launched_all(),
        app.advanced(index, outcome).launched_all(),
{
    assert(app.with_console(index, console).launched_all()) by {
        let next = app.with_console(index, console);
        assert forall|i: int| 0 <= i < next.consoles.len() implies !((
        #[trigger] next.consoles[i]).executor.lifecycle is Ready) || next.failures[i] is Some by {
            assert(!(app.consoles[i].executor.lifecycle is Ready) || app.failures[i] is Some);
        }
    }
    assert(app.polled(seen).launched_all()) by {
        let next = app.polled(seen);
        assert forall|i: int| 0 <= i < next.consoles.len() implies !((
        #[trigger] next.consoles[i]).executor.lifecycle is Ready) || next.failures[i] is Some by {
            assert(!(app.consoles[i].executor.lifecycle is Ready) || app.failures[i] is Some);
        }
    }
    assert(app.dispatched(message).launched_all()) by {
        let next = app.dispatched(message);
        if app.phase is Running {
            match message {
                Message::EventChunk(events) => {
                    lemma_routing_keeps_tasks(app.consoles, event_views(events@));
                },
                _ => {},
            }
        }
        assert forall|i: int| 0 <= i < next.consoles.len() implies !((
        #[trigger] next.consoles[i]).executor.lifecycle is Ready) || next.failures[i] is Some by {
            assert(!(app.consoles[i].executor.lifecycle is Ready) || app.failures[i] is Some);
        }
    }
    assert(app.advanced(index, outcome).launched_all()) by {
        let next = app.advanced(index, outcome);
        assert forall|i: int| 0 <= i < next.consoles.len() implies !((
        #[trigger] next.consoles[i]).executor.lifecycle is Ready) || next.failures[i] is Some by {
            assert(!(app.consoles[i].executor.lifecycle is Ready) || app.failures[i] is Some);
        }
    }
}

/// Shutting down happens once. After a shutdown was dispatched, no message
/// changes the supervisor or makes the main loop stop the tasks again, a
/// second shutdown included, and no poll makes it collect the statuses a
/// second time.
pub proof fn lemma_shutdown_is_idempotent(
    app: AppView,
    reason: ShutdownReason,
    message: Message,
    seen: Seq<Polled>,
)
    requires
        app.phase is Running,
    ensures
        app.stops_for(Message::Shutdown(reason)) == Some(reason),
        app.dispatched(Message::Shutdown(reason)).phase == Phase::ShuttingDown(reason),
        app.dispatched(Message::Shutdown(reason)).dispatched(message) == app.dispatched(
            Message::Shutdown(reason),
        ),
        app.dispatched(Message::Shutdown(reason)).stops_for(message) is None,
        !app.dispatched(Message::Shutdown(reason)).completes(seen),
{
}

/// When every task is done, there is a report: a supervisor that is shutting
/// down and has no request under way has settled the result of every task.
pub proof fn lemma_done_tasks_are_reported(app: AppView)
    requires
        app.wf(),
        app.phase is ShuttingDown,
        forall|i: int| 0 <= i < app.consoles.len() ==> (#[trigger] app.consoles[i]).executor.stage is Idle,
    ensures
        app.report() is Some,
{
    assert forall|i: int| 0 <= i < app.results.len() implies (#[trigger] app.results[i]) is Some by {
        assert(app.consoles[i].executor.stage is Idle);
    }
}

} // verus!
