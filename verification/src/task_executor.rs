pub mod child_ext;
pub mod forward;

use crate::message::MessageSender;
use crate::task_executor::child_ext::delivery_outcome;
use crate::task_executor::child_ext::outcome_of;
use crate::task_executor::child_ext::signal_target;
use crate::task_executor::child_ext::target_of;
use crate::task_executor::child_ext::ChildSignal;
use crate::text::decimal;
use crate::text::decimal_string;
use crate::text::split_words;
use crate::text::views;
use crate::text::words;
use tokio::sync::oneshot::Sender;
use vstd::prelude::*;
use vstd::string::*;

verus! {

/// The sending half of tokio's one-shot channel.
#[verifier::external_type_specification]
#[verifier::external_body]
#[verifier::reject_recursive_types(T)]
pub struct ExSender<T>(Sender<T>);

/// `oneshot::Sender::send`: hands the one value of the channel to its
/// receiver, and uses up the sender. Whether a receiver is still there to
/// take it is not reported.
#[verifier::external_body]
fn fire(sender: Sender<()>) {
    let _ = sender.send(());
}

/// How a process ended, as the operating system reported it.
#[derive(Debug, Clone, PartialEq, Eq)]
pub struct ExitStatus {
    /// The exit code, if the process exited by itself.
    pub code: Option<i32>,
    /// The operating system's description of the status.
    pub text: String,
}

impl ExitStatus {
    /// Whether the process exited by itself with code zero.
    pub open spec fn is_success(self) -> bool {
        self.code == Some(0i32)
    }

    /// Whether the process exited by itself with code zero.
    pub fn success(&self) -> (success: bool)
        ensures
            success == self.is_success(),
    {
        match self.code {
            Some(code) => code == 0,
            None => false,
        }
    }
}

/// An operation on a child process failed.
#[derive(Debug, Clone, PartialEq, Eq)]
pub struct TaskError {
    /// What the operating system said.
    pub message: String,
}

/// The state of a task, as it is reported.
#[derive(Debug, Clone, PartialEq, Eq)]
pub enum TaskStatus {
    /// The task has not been started.
    Ready(String),
    /// The process is running.
    Executing { command: String, pid: Option<u32> },
    /// The process was terminated by force.
    Killed { command: String, pid: Option<u32> },
    /// The process has ended by itself, or on a signal it was sent.
    Exited { command: String, pid: Option<u32>, status: ExitStatus },
}

/// The process id as it is shown: zero where there is none.
pub open spec fn shown_pid(pid: Option<u32>) -> nat {
    match pid {
        Some(id) => id as nat,
        None => 0,
    }
}

impl TaskStatus {
    /// Whether the task has come to its end.
    pub open spec fn is_terminal(self) -> bool {
        self is Exited || self is Killed
    }

    /// The command of the task.
    pub open spec fn command(self) -> String {
        match self {
            TaskStatus::Ready(command) => command,
            TaskStatus::Executing { command, .. } => command,
            TaskStatus::Killed { command, .. } => command,
            TaskStatus::Exited { command, .. } => command,
        }
    }

    /// The line that reports the status: its kind, the command, the process
    /// id where the task was started, and the exit status where it has one.
    pub open spec fn line(self) -> Seq<char> {
        match self {
            TaskStatus::Ready(command) => "Ready: "@ + command@,
            TaskStatus::Executing { command, pid } => "Executing: "@ + command@ + " (PID: "@
                + decimal(shown_pid(pid)) + ")"@,
            TaskStatus::Killed { command, pid } => "Killed: "@ + command@ + " (PID: "@ + decimal(
                shown_pid(pid),
            ) + ")"@,
            TaskStatus::Exited { command, pid, status } => "Exited: "@ + command@ + " (PID: "@
                + decimal(shown_pid(pid)) + ")"@ + " with status: "@ + status.text@,
        }
    }

    /// Whether the task has come to its end.
    pub fn terminal(&self) -> (terminal: bool)
        ensures
            terminal == self.is_terminal(),
    {
        match self {
            TaskStatus::Ready(_) => false,
            TaskStatus::Executing { .. } => false,
            TaskStatus::Killed { .. } => true,
            TaskStatus::Exited { .. } => true,
        }
    }

    /// Writes the line that reports the status.
    pub fn to_string(&self) -> (line: String)
        ensures
            line@ == self.line(),
    {
        match self {
            TaskStatus::Ready(command) => {
                let mut line = String::from_str("Ready: ");
                line.append(command.as_str());
                line
            },
            TaskStatus::Executing { command, pid } => {
                let mut line = String::from_str("Executing: ");
                append_command_and_pid(&mut line, command, *pid);
                line
            },
            TaskStatus::Killed { command, pid } => {
                let mut line = String::from_str("Killed: ");
                append_command_and_pid(&mut line, command, *pid);
                line
            },
            TaskStatus::Exited { command, pid, status } => {
                let mut line = String::from_str("Exited: ");
                append_command_and_pid(&mut line, command, *pid);
                line.append(" with status: ");
                line.append(status.text.as_str());
                line
            },
        }
    }
}

/// Appends the command and, in brackets, the process id.
fn append_command_and_pid(line: &mut String, command: &String, pid: Option<u32>)
    ensures
        final(line)@ == old(line)@ + command@ + " (PID: "@ + decimal(shown_pid(pid)) + ")"@,
{
    let shown: u32 = match pid {
        Some(id) => id,
        None => 0,
    };
    let number = decimal_string(shown);
    line.append(command.as_str());
    line.append(" (PID: ");
    line.append(number.as_str());
    line.append(")");
}

/// Where a task is in its life.
#[derive(Debug, Clone, PartialEq, Eq)]
pub enum Lifecycle {
    /// Not started yet.
    Ready,
    /// The process runs.
    Executing,
    /// The process has ended.
    Exited(ExitStatus),
    /// The process was terminated by force.
    Killed,
}

/// How far the stopping of a task has come. Each stage but `Idle` waits for
/// the answer to one request.
#[derive(Debug, Copy, Clone, PartialEq, Eq, Structural)]
pub enum Stage {
    /// The task is not being stopped.
    Idle,
    /// The status of the process was asked for. With a signal the process is
    /// then asked to stop; without one it is terminated by force.
    Polling(Option<ChildSignal>),
    /// The signal numbered `signal` was sent to the process `pid`.
    Signalling { pid: i32, signal: i32 },
    /// The process is being terminated by force.
    Killing,
    /// The end of the process is awaited.
    Waiting,
}

/// What the driver of a task is asked to do next to its process.
#[derive(Debug, PartialEq, Eq)]
pub enum Step {
    /// Ask, without waiting, whether the process has ended.
    Poll,
    /// Send the signal numbered `signal` to the process `pid`.
    Signal { pid: i32, signal: i32 },
    /// Terminate the process by force.
    Kill,
    /// Wait until the process has ended.
    Wait,
    /// Nothing: the task has been stopped, or stopping it has failed.
    Done(Result<TaskStatus, TaskError>),
}

/// What came of a request.
#[derive(Debug, Clone, PartialEq, Eq)]
pub enum Outcome {
    /// The process has ended with this status, or it still runs.
    Polled(Option<ExitStatus>),
    /// The signal was sent, and the operating system reported this error
    /// number, zero for none.
    Signalled(i32),
    /// The process was terminated by force.
    Killed,
    /// The process has ended with this status.
    Waited(ExitStatus),
    /// The operating system refused the request.
    Failed(String),
}

impl Stage {
    /// The number of requests that are still to be answered, at most, until
    /// the task has been stopped.
    pub open spec fn remaining(self) -> nat {
        match self {
            Stage::Idle => 0,
            Stage::Waiting => 1,
            Stage::Killing => 2,
            Stage::Signalling { .. } => 3,
            Stage::Polling(_) => 4,
        }
    }

    /// The request that this stage waits for.
    pub open spec fn pending(self) -> Option<Step> {
        match self {
            Stage::Idle => None,
            Stage::Polling(_) => Some(Step::Poll),
            Stage::Signalling { pid, signal } => Some(Step::Signal { pid, signal }),
            Stage::Killing => Some(Step::Kill),
            Stage::Waiting => Some(Step::Wait),
        }
    }

    /// Whether `outcome` answers the request that this stage waits for. A
    /// failure answers any request.
    pub open spec fn answered_by(self, outcome: Outcome) -> bool {
        match self {
            Stage::Idle => false,
            Stage::Polling(_) => outcome is Polled || outcome is Failed,
            Stage::Signalling { .. } => outcome is Signalled || outcome is Failed,
            Stage::Killing => outcome is Killed || outcome is Failed,
            Stage::Waiting => outcome is Waited || outcome is Failed,
        }
    }
}

/// What a [`TaskExecutor`] holds.
pub struct TaskExecutorView {
    /// The command line as it was given.
    pub command: String,
    /// The id of the process, once it was started.
    pub pid: Option<u32>,
    pub lifecycle: Lifecycle,
    /// Whether the process has been terminated by force.
    pub forced: bool,
    /// Whether the routine that forwards the output of the process can still
    /// be told to stop.
    pub forwarding: bool,
    pub stage: Stage,
}

impl TaskExecutorView {
    /// What holds of every executor: a task that was never started has no
    /// process, and only a process that runs is being stopped.
    pub open spec fn wf(self) -> bool {
        &&& self.lifecycle is Ready ==> self.pid is None && !self.forced && !self.forwarding
        &&& !(self.lifecycle is Executing) ==> self.stage is Idle
        &&& self.lifecycle is Killed ==> self.forced
        &&& self.lifecycle is Exited ==> !self.forced
    }

    /// The task that is ready to run `command`.
    pub open spec fn ready(command: String) -> TaskExecutorView {
        TaskExecutorView {
            command,
            pid: None,
            lifecycle: Lifecycle::Ready,
            forced: false,
            forwarding: false,
            stage: Stage::Idle,
        }
    }

    /// The status that is reported of the task.
    pub open spec fn status(self) -> TaskStatus {
        match self.lifecycle {
            Lifecycle::Ready => TaskStatus::Ready(self.command),
            Lifecycle::Executing => TaskStatus::Executing { command: self.command, pid: self.pid },
            Lifecycle::Exited(status) => TaskStatus::Exited {
                command: self.command,
                pid: self.pid,
                status,
            },
            Lifecycle::Killed => TaskStatus::Killed { command: self.command, pid: self.pid },
        }
    }

    /// The task once its process was started with id `pid`. Only a task that
    /// is ready starts.
    pub open spec fn started(self, pid: Option<u32>) -> TaskExecutorView {
        if self.lifecycle is Ready {
            TaskExecutorView { pid, lifecycle: Lifecycle::Executing, forwarding: true, ..self }
        } else {
            self
        }
    }

    /// The task once the end of its process was seen: killed if the process
    /// was terminated by force, exited if not. A task without a running
    /// process stays as it is.
    pub open spec fn ended(self, status: ExitStatus) -> TaskExecutorView {
        if self.lifecycle is Executing {
            TaskExecutorView {
                lifecycle: if self.forced {
                    Lifecycle::Killed
                } else {
                    Lifecycle::Exited(status)
                },
                stage: Stage::Idle,
                ..self
            }
        } else {
            self
        }
    }

    /// The task after a poll of its process.
    pub open spec fn polled(self, seen: Option<ExitStatus>) -> TaskExecutorView {
        match seen {
            Some(status) => self.ended(status),
            None => self,
        }
    }

    /// The task once stopping it has begun, and the first request. A task
    /// whose process does not run is done at once.
    pub open spec fn begin(self, goal: Option<ChildSignal>) -> (TaskExecutorView, Step) {
        if self.lifecycle is Executing {
            (TaskExecutorView { stage: Stage::Polling(goal), ..self }, Step::Poll)
        } else {
            (self, Step::Done(Ok(self.status())))
        }
    }

    /// The task once its process is to be terminated by force.
    pub open spec fn escalate(self) -> (TaskExecutorView, Step) {
        (TaskExecutorView { forwarding: false, stage: Stage::Killing, ..self }, Step::Kill)
    }

    /// What follows when the process was found running. Towards a signal the
    /// signal is sent, unless one was sent before, and then the end is only
    /// awaited. A process that cannot be addressed, or no signal to send,
    /// leads to termination by force.
    pub open spec fn stop(self, goal: Option<ChildSignal>) -> (TaskExecutorView, Step) {
        match goal {
            None => self.escalate(),
            Some(signal) => {
                if !self.forwarding {
                    (TaskExecutorView { stage: Stage::Waiting, ..self }, Step::Wait)
                } else {
                    match signal_target(self.pid) {
                        Err(_) => self.escalate(),
                        Ok(pid) => (
                            TaskExecutorView {
                                stage: Stage::Signalling { pid, signal: signal.number() },
                                ..self
                            },
                            Step::Signal { pid, signal: signal.number() },
                        ),
                    }
                }
            },
        }
    }

    /// What follows when the signal was sent with error number `code`: the
    /// forwarding of output is told to stop; a delivery that failed leads to
    /// termination by force, one that did not to awaiting the end.
    pub open spec fn signalled(self, code: i32) -> (TaskExecutorView, Step) {
        if delivery_outcome(code) is Err {
            self.escalate()
        } else {
            (TaskExecutorView { forwarding: false, stage: Stage::Waiting, ..self }, Step::Wait)
        }
    }

    /// The task after `outcome` has come in, and the next request. An outcome
    /// that does not answer the pending request changes nothing, and the
    /// request is made again. A failure ends the stopping with that error.
    pub open spec fn advance(self, outcome: Outcome) -> (TaskExecutorView, Step) {
        if self.stage is Idle {
            (self, Step::Done(Ok(self.status())))
        } else if !self.stage.answered_by(outcome) {
            (self, self.stage.pending()->Some_0)
        } else {
            match outcome {
                Outcome::Failed(message) => (
                    TaskExecutorView { stage: Stage::Idle, ..self },
                    Step::Done(Err(TaskError { message })),
                ),
                Outcome::Polled(Some(status)) => (
                    self.ended(status),
                    Step::Done(Ok(self.ended(status).status())),
                ),
                Outcome::Polled(None) => self.stop(self.stage->Polling_0),
                Outcome::Signalled(code) => self.signalled(code),
                Outcome::Killed => (
                    TaskExecutorView { forced: true, stage: Stage::Waiting, ..self },
                    Step::Wait,
                ),
                Outcome::Waited(status) => (
                    self.ended(status),
                    Step::Done(Ok(self.ended(status).status())),
                ),
            }
        }
    }
}

/// What can be done with a task: it can be named, polled and stopped. To
/// stop it is a matter of several requests to the operating system, which
/// the driver of the task carries out one at a time: the task says what to do
/// next, and takes in what came of it.
pub trait Executable {
    /// The task as a plain value.
    spec fn task(&self) -> TaskExecutorView;

    /// The command line as it was given.
    fn raw_command(&self) -> (command: &str)
        ensures
            command@ == self.task().command@,
    ;

    /// The id of the process, once it was started.
    fn pid(&self) -> (pid: Option<u32>)
        ensures
            pid == self.task().pid,
    ;

    /// Takes in what a poll of the process has shown, `None` where it still
    /// runs, and reports the status. This never waits.
    fn try_wait(&mut self, seen: Option<ExitStatus>) -> (status: TaskStatus)
        ensures
            final(self).task() == old(self).task().polled(seen),
            status == final(self).task().status(),
    ;

    /// Begins to stop the task with `signal`, and says what to do first.
    fn signal_or_wait(&mut self, signal: ChildSignal) -> (step: Step)
        ensures
            (final(self).task(), step) == old(self).task().begin(Some(signal)),
    ;

    /// Begins to terminate the task by force, and says what to do first.
    fn kill_and_wait(&mut self) -> (step: Step)
        ensures
            (final(self).task(), step) == old(self).task().begin(None),
    ;

    /// Takes in the outcome of the last request, and says what to do next.
    fn advance(&mut self, outcome: Outcome) -> (step: Step)
        ensures
            (final(self).task(), step) == old(self).task().advance(outcome),
    ;
}

/// The lifecycle of one child process: ready, executing, and then exited or
/// killed. The executor decides; its driver owns the process, carries out
/// each [`Step`] and brings back the [`Outcome`].
pub struct TaskExecutor {
    raw_command: String,
    pid: Option<u32>,
    lifecycle: Lifecycle,
    forced: bool,
    stage: Stage,
    shutdown_sender: Option<Sender<()>>,
    message_sender: MessageSender,
}

impl View for TaskExecutor {
    type V = TaskExecutorView;

    closed spec fn view(&self) -> TaskExecutorView {
        TaskExecutorView {
            command: self.raw_command,
            pid: self.pid,
            lifecycle: self.lifecycle,
            forced: self.forced,
            forwarding: self.shutdown_sender is Some,
            stage: self.stage,
        }
    }
}

/// A second copy of the exit status.
pub(crate) fn copy_exit_status(status: &ExitStatus) -> (copy: ExitStatus)
    ensures
        copy == *status,
{
    ExitStatus { code: status.code, text: status.text.clone() }
}

/// A second copy of the status.
pub(crate) fn copy_status(status: &TaskStatus) -> (copy: TaskStatus)
    ensures
        copy == *status,
{
    match status {
        TaskStatus::Ready(command) => TaskStatus::Ready(command.clone()),
        TaskStatus::Executing { command, pid } => TaskStatus::Executing {
            command: command.clone(),
            pid: *pid,
        },
        TaskStatus::Killed { command, pid } => TaskStatus::Killed {
            command: command.clone(),
            pid: *pid,
        },
        TaskStatus::Exited { command, pid, status } => TaskStatus::Exited {
            command: command.clone(),
            pid: *pid,
            status: copy_exit_status(status),
        },
    }
}

/// A second copy of the result.
pub(crate) fn copy_result(result: &Result<TaskStatus, TaskError>) -> (copy: Result<
    TaskStatus,
    TaskError,
>)
    ensures
        copy == *result,
{
    match result {
        Ok(status) => Ok(copy_status(status)),
        Err(error) => Err(TaskError { message: error.message.clone() }),
    }
}

impl TaskExecutor {
    /// The end of the bus on which the forwarding of output says that there
    /// is news.
    pub closed spec fn bus(&self) -> MessageSender {
        self.message_sender
    }

    /// The handle that tells the forwarding of output to stop, for as long
    /// as the executor holds it.
    pub closed spec fn stop_handle(&self) -> Option<Sender<()>> {
        self.shutdown_sender
    }

    /// The forwarding of output can be told to stop exactly while the task
    /// holds the handle for it.
    pub proof fn lemma_forwarding_holds_the_handle(&self)
        ensures
            self@.forwarding <==> self.stop_handle() is Some,
    {
    }

    /// A task for the command line `raw_command`, ready to be started, whose
    /// news go to `message_sender`.
    pub fn new(raw_command: String, message_sender: MessageSender) -> (executor: Self)
        ensures
            executor@ == TaskExecutorView::ready(raw_command),
            executor.bus() == message_sender,
            executor.stop_handle() is None,
    {
        Self {
            raw_command,
            pid: None,
            lifecycle: Lifecycle::Ready,
            forced: false,
            stage: Stage::Idle,
            shutdown_sender: None,
            message_sender,
        }
    }

    /// The end of the bus on which the forwarding of output says that there
    /// is news: the one that the task was made with.
    pub fn message_sender(&self) -> (sender: &MessageSender)
        ensures
            *sender == self.bus(),
    {
        &self.message_sender
    }

    /// The words of the command line: the program to start, and then its
    /// arguments. A blank command line has none.
    pub fn command_words(&self) -> (parts: Vec<String>)
        ensures
            views(parts@) == words(self@.command@),
    {
        split_words(self.raw_command.as_str())
    }

    /// The program to start and its arguments: the first word of the command
    /// line, and the words after it in their order. A blank command line
    /// names no program, and cannot be started.
    pub fn program_and_arguments(&self) -> (parts: Option<(String, Vec<String>)>)
        ensures
            parts is None <==> words(self@.command@).len() == 0,
            parts matches Some((program, arguments)) ==> program@ == words(self@.command@)[0]
                && views(arguments@) == words(self@.command@).skip(1),
    {
        let mut parts = self.command_words();
        if parts.len() == 0 {
            None
        } else {
            let ghost all = parts@;
            let program = parts.remove(0);
            proof {
                assert(views(all)[0] == program@);
                assert(views(parts@) =~= views(all).skip(1));
            }
            Some((program, parts))
        }
    }

    /// The status of the task as it is known now.
    pub fn status(&self) -> (status: TaskStatus)
        ensures
            status == self@.status(),
    {
        match &self.lifecycle {
            Lifecycle::Ready => TaskStatus::Ready(self.raw_command.clone()),
            Lifecycle::Executing => TaskStatus::Executing {
                command: self.raw_command.clone(),
                pid: self.pid,
            },
            Lifecycle::Exited(status) => TaskStatus::Exited {
                command: self.raw_command.clone(),
                pid: self.pid,
                status: copy_exit_status(status),
            },
            Lifecycle::Killed => TaskStatus::Killed {
                command: self.raw_command.clone(),
                pid: self.pid,
            },
        }
    }

    /// Records that the process was started with id `pid`. `shutdown_sender`
    /// is the handle that tells the forwarding of its output to stop, which
    /// the task holds from now on. A task that was started before keeps what
    /// it has.
    pub fn execute(&mut self, pid: Option<u32>, shutdown_sender: Sender<()>)
        ensures
            final(self).stop_handle() == (if old(self)@.lifecycle is Ready {
                Some(shutdown_sender)
            } else {
                old(self).stop_handle()
            }),
            final(self).bus() == old(self).bus(),
            final(self)@ == old(self)@.started(pid),
    {
        match &self.lifecycle {
            Lifecycle::Ready => {
                self.pid = pid;
                self.lifecycle = Lifecycle::Executing;
                self.shutdown_sender = Some(shutdown_sender);
            },
            _ => {},
        }
    }

    /// Tells the forwarding of output to stop, if that is still to do.
    fn stop_forwarding(&mut self)
        ensures
            final(self).stop_handle() == (if final(self)@.forwarding {
                old(self).stop_handle()
            } else {
                None
            }),
            final(self).bus() == old(self).bus(),
            final(self)@ == (TaskExecutorView { forwarding: false, ..old(self)@ }),
    {
        match self.shutdown_sender.take() {
            Some(sender) => fire(sender),
            None => {},
        }
    }

    /// Records the end of the process.
    fn end(&mut self, status: ExitStatus)
        ensures
            final(self).stop_handle() == (if final(self)@.forwarding {
                old(self).stop_handle()
            } else {
                None
            }),
            final(self).bus() == old(self).bus(),
            final(self)@ == old(self)@.ended(status),
    {
        match &self.lifecycle {
            Lifecycle::Executing => {
                self.stage = Stage::Idle;
                if self.forced {
                    self.lifecycle = Lifecycle::Killed;
                } else {
                    self.lifecycle = Lifecycle::Exited(status);
                }
            },
            _ => {},
        }
    }

    fn begin(&mut self, goal: Option<ChildSignal>) -> (step: Step)
        ensures
            final(self).stop_handle() == (if final(self)@.forwarding {
                old(self).stop_handle()
            } else {
                None
            }),
            final(self).bus() == old(self).bus(),
            (final(self)@, step) == old(self)@.begin(goal),
    {
        match &self.lifecycle {
            Lifecycle::Executing => {
                self.stage = Stage::Polling(goal);
                Step::Poll
            },
            _ => Step::Done(Ok(self.status())),
        }
    }

    fn escalate(&mut self) -> (step: Step)
        ensures
            final(self).stop_handle() == (if final(self)@.forwarding {
                old(self).stop_handle()
            } else {
                None
            }),
            final(self).bus() == old(self).bus(),
            (final(self)@, step) == old(self)@.escalate(),
    {
        self.stop_forwarding();
        self.stage = Stage::Killing;
        Step::Kill
    }

    fn stop(&mut self, goal: Option<ChildSignal>) -> (step: Step)
        ensures
            final(self).stop_handle() == (if final(self)@.forwarding {
                old(self).stop_handle()
            } else {
                None
            }),
            final(self).bus() == old(self).bus(),
            (final(self)@, step) == old(self)@.stop(goal),
    {
        match goal {
            None => self.escalate(),
            Some(signal) => {
                if self.shutdown_sender.is_none() {
                    self.stage = Stage::Waiting;
                    Step::Wait
                } else {
                    match target_of(self.pid) {
                        Err(_) => self.escalate(),
                        Ok(pid) => {
                            let number: i32 = signal.into();
                            self.stage = Stage::Signalling { pid, signal: number };
                            Step::Signal { pid, signal: number }
                        },
                    }
                }
            },
        }
    }

    fn signalled(&mut self, code: i32) -> (step: Step)
        ensures
            final(self).stop_handle() == (if final(self)@.forwarding {
                old(self).stop_handle()
            } else {
                None
            }),
            final(self).bus() == old(self).bus(),
            (final(self)@, step) == old(self)@.signalled(code),
    {
        match outcome_of(code) {
            Err(_) => self.escalate(),
            Ok(()) => {
                self.stop_forwarding();
                self.stage = Stage::Waiting;
                Step::Wait
            },
        }
    }

    /// The request that is pending, once more.
    fn pending(&self) -> (step: Step)
        requires
            !(self@.stage is Idle),
        ensures
            Some(step) == self@.stage.pending(),
    {
        match self.stage {
            Stage::Idle => Step::Poll,
            Stage::Polling(_) => Step::Poll,
            Stage::Signalling { pid, signal } => Step::Signal { pid, signal },
            Stage::Killing => Step::Kill,
            Stage::Waiting => Step::Wait,
        }
    }

    /// Gives up stopping the task, with the error that came in.
    fn fail(&mut self, message: String) -> (step: Step)
        ensures
            final(self).stop_handle() == (if final(self)@.forwarding {
                old(self).stop_handle()
            } else {
                None
            }),
            final(self).bus() == old(self).bus(),
            final(self)@ == (TaskExecutorView { stage: Stage::Idle, ..old(self)@ }),
            step == Step::Done(Err(TaskError { message })),
    {
        self.stage = Stage::Idle;
        Step::Done(Err(TaskError { message }))
    }
}

impl Executable for TaskExecutor {
    open spec fn task(&self) -> TaskExecutorView {
        self@
    }

    fn raw_command(&self) -> (command: &str) {
        self.raw_command.as_str()
    }

    fn pid(&self) -> (pid: Option<u32>) {
        self.pid
    }

    fn try_wait(&mut self, seen: Option<ExitStatus>) -> (status: TaskStatus)
        ensures
            final(self).bus() == old(self).bus(),
            final(self).stop_handle() == (if final(self)@.forwarding {
                old(self).stop_handle()
            } else {
                None
            }),
    {
        match seen {
            Some(exit) => self.end(exit),
            None => {},
        }
        self.status()
    }

    fn signal_or_wait(&mut self, signal: ChildSignal) -> (step: Step)
        ensures
            final(self).bus() == old(self).bus(),
            final(self).stop_handle() == (if final(self)@.forwarding {
                old(self).stop_handle()
            } else {
                None
            }),
    {
        self.begin(Some(signal))
    }

    fn kill_and_wait(&mut self) -> (step: Step)
        ensures
            final(self).bus() == old(self).bus(),
            final(self).stop_handle() == (if final(self)@.forwarding {
                old(self).stop_handle()
            } else {
                None
            }),
    {
        self.begin(None)
    }

    fn advance(&mut self, outcome: Outcome) -> (step: Step)
        ensures
            final(self).bus() == old(self).bus(),
            final(self).stop_handle() == (if final(self)@.forwarding {
                old(self).stop_handle()
            } else {
                None
            }),
    {
        match self.stage {
            Stage::Idle => Step::Done(Ok(self.status())),
            Stage::Polling(goal) => match outcome {
                Outcome::Polled(Some(status)) => {
                    self.end(status);
                    Step::Done(Ok(self.status()))
                },
                Outcome::Polled(None) => self.stop(goal),
                Outcome::Failed(message) => self.fail(message),
                _ => self.pending(),
            },
            Stage::Signalling { .. } => match outcome {
                Outcome::Signalled(code) => self.signalled(code),
                Outcome::Failed(message) => self.fail(message),
                _ => self.pending(),
            },
            Stage::Killing => match outcome {
                Outcome::Killed => {
                    self.forced = true;
                    self.stage = Stage::Waiting;
                    Step::Wait
                },
                Outcome::Failed(message) => self.fail(message),
                _ => self.pending(),
            },
            Stage::Waiting => match outcome {
                Outcome::Waited(status) => {
                    self.end(status);
                    Step::Done(Ok(self.status()))
                },
                Outcome::Failed(message) => self.fail(message),
                _ => self.pending(),
            },
        }
    }
}

/// A task that is ready is well formed, and every transition keeps a task
/// well formed.
pub proof fn lemma_transitions_keep_wf(
    task: TaskExecutorView,
    command: String,
    pid: Option<u32>,
    seen: Option<ExitStatus>,
    goal: Option<ChildSignal>,
    outcome: Outcome,
)
    requires
        task.wf(),
    ensures
        TaskExecutorView::ready(command).wf(),
        task.started(pid).wf(),
        task.polled(seen).wf(),
        task.begin(goal).0.wf(),
        task.advance(outcome).0.wf(),
{
}

/// No transition leaves a terminal state: a task that has exited or was
/// killed stays as it is whatever comes in, and asked to stop it reports its
/// status at once.
pub proof fn lemma_terminal_is_final(
    task: TaskExecutorView,
    pid: Option<u32>,
    seen: Option<ExitStatus>,
    goal: Option<ChildSignal>,
    outcome: Outcome,
)
    requires
        task.wf(),
        task.status().is_terminal(),
    ensures
        task.started(pid) == task,
        task.polled(seen) == task,
        task.begin(goal) == (task, Step::Done(Ok(task.status()))),
        task.advance(outcome) == (task, Step::Done(Ok(task.status()))),
{
}

/// Stopping a task takes a bounded number of requests: there are never more
/// than four to go, each answer leaves fewer to go than before, and none is
/// left exactly when the task is done. An outcome that answers nothing
/// changes nothing.
pub proof fn lemma_stopping_is_bounded(task: TaskExecutorView, outcome: Outcome)
    requires
        task.wf(),
        !(task.stage is Idle),
    ensures
        task.stage.remaining() <= 4,
        task.stage.answered_by(outcome) ==> task.advance(outcome).0.stage.remaining()
            < task.stage.remaining(),
        task.stage.answered_by(outcome) ==> (task.advance(outcome).1 is Done <==> task.advance(
            outcome,
        ).0.stage is Idle),
        !task.stage.answered_by(outcome) ==> task.advance(outcome).0 == task && Some(
            task.advance(outcome).1,
        ) == task.stage.pending(),
{
}

/// A task that was being stopped and is done is a task that has come to its
/// end: the status it reports is exited or killed. A task whose process does
/// not run reports the status it has.
pub proof fn lemma_stopped_is_terminal(
    task: TaskExecutorView,
    goal: Option<ChildSignal>,
    outcome: Outcome,
)
    requires
        task.wf(),
    ensures
        !(task.stage is Idle) ==> (task.advance(outcome).1 matches Step::Done(Ok(status))
            ==> status.is_terminal() && status == task.advance(outcome).0.status()),
        task.begin(goal).1 matches Step::Done(Ok(status)) ==> status == task.status() && !(status is Executing),
        task.begin(goal).1 is Done || task.begin(goal).1 is Poll,
{
}

/// The fallback of the escalation. A process runs and is asked to stop with
/// `signal`. If the signal cannot be delivered, because the process cannot be
/// addressed or because the operating system reports a failure, the process
/// is terminated by force, and once its end is seen the task is killed, not
/// exited.
pub proof fn lemma_failed_delivery_ends_killed(
    task: TaskExecutorView,
    signal: ChildSignal,
    code: i32,
    exit: ExitStatus,
)
    requires
        task.wf(),
        task.lifecycle is Executing,
        task.forwarding,
        delivery_outcome(code) is Err,
    ensures
        ({
            let (polling, first) = task.begin(Some(signal));
            let (found, second) = polling.advance(Outcome::Polled(None));
            let (refused, third) = if signal_target(task.pid) is Ok {
                found.advance(Outcome::Signalled(code))
            } else {
                (found, second)
            };
            let (killed, fourth) = refused.advance(Outcome::Killed);
            let (ended, last) = killed.advance(Outcome::Waited(exit));
            &&& first is Poll
            &&& signal_target(task.pid) matches Ok(pid) ==> second == (Step::Signal {
                pid,
                signal: signal.number(),
            })
            &&& third is Kill
            &&& !refused.forwarding
            &&& fourth is Wait
            &&& last == Step::Done(Ok(TaskStatus::Killed { command: task.command, pid: task.pid }))
            &&& ended.status() == (TaskStatus::Killed { command: task.command, pid: task.pid })
        }),
{
}

/// The graceful path of the escalation. A process runs and is asked to stop
/// with `signal`. If the signal is delivered, the end of the process is
/// awaited, and the task has then exited with the status that was seen.
pub proof fn lemma_delivery_ends_exited(
    task: TaskExecutorView,
    signal: ChildSignal,
    code: i32,
    exit: ExitStatus,
)
    requires
        task.wf(),
        task.lifecycle is Executing,
        task.forwarding,
        !task.forced,
        signal_target(task.pid) is Ok,
        delivery_outcome(code) is Ok,
    ensures
        ({
            let (polling, first) = task.begin(Some(signal));
            let (found, second) = polling.advance(Outcome::Polled(None));
            let (waiting, third) = found.advance(Outcome::Signalled(code));
            let (ended, last) = waiting.advance(Outcome::Waited(exit));
            &&& first is Poll
            &&& second is Signal
            &&& third is Wait
            &&& !waiting.forwarding
            &&& last == Step::Done(
                Ok(TaskStatus::Exited { command: task.command, pid: task.pid, status: exit }),
            )
        }),
{
}

} // verus!
