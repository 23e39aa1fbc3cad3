use crate::event::Event;
use crate::event::MouseEventKind;
use crate::event::ParallelyEvent;
use crate::event::ParallelyEventView;
use crate::message::channel_try_recv;
use crate::message::MessageSender;
use crate::task_executor::child_ext::ChildSignal;
use crate::task_executor::Executable;
use crate::task_executor::ExitStatus;
use crate::task_executor::Outcome;
use crate::task_executor::Step;
use crate::task_executor::TaskExecutor;
use crate::task_executor::TaskExecutorView;
use crate::task_executor::TaskStatus;
use crate::task_executor::shown_pid;
use crate::text::decimal;
use crate::text::decimal_string;
use crate::text::views;
use tokio::sync::mpsc::UnboundedReceiver;
use tokio::sync::oneshot::Sender;
use vstd::prelude::*;
use vstd::string::*;

verus! {

/// The channel on which the lines that a task prints arrive.
pub type TaskOutputReceiver = UnboundedReceiver<String>;

/// The lines that `textwrap::wrap` makes of `text` for a width of `width`
/// columns.
pub uninterp spec fn wrapped(text: Seq<char>, width: usize) -> Seq<Seq<char>>;

/// `textwrap::wrap` with a plain width: wraps `text` into lines for a width
/// of `width_limit` columns. The lines depend on the text and the width
/// alone; they are named here, not described.
#[verifier::external_body]
fn wrap_text(text: &str, width_limit: usize) -> (lines: Vec<String>)
    ensures
        views(lines@) == wrapped(text@, width_limit),
{
    textwrap::wrap(text, width_limit).into_iter().map(|part| part.into_owned()).collect()
}

/// What wrapping each of `texts` in turn gives, one after the other.
pub open spec fn wrapped_all(texts: Seq<String>, width: usize) -> Seq<Seq<char>>
    decreases texts.len(),
{
    if texts.len() == 0 {
        Seq::empty()
    } else {
        wrapped_all(texts.drop_last(), width) + wrapped(texts.last()@, width)
    }
}

/// A rectangle of cells on the screen.
#[derive(Debug, Copy, Clone, PartialEq, Eq, Structural)]
pub struct Rect {
    /// The column of the top left corner.
    pub x: u16,
    /// The row of the top left corner.
    pub y: u16,
    pub width: u16,
    pub height: u16,
}

impl Rect {
    /// The first column to the right of the rectangle, or the last column
    /// there is where the rectangle reaches it.
    pub open spec fn right(self) -> u16 {
        self.x.saturating_add(self.width)
    }

    /// The first row below the rectangle, or the last row there is where the
    /// rectangle reaches it.
    pub open spec fn bottom(self) -> u16 {
        self.y.saturating_add(self.height)
    }

    /// Whether the cell at `column` and `row` lies in the rectangle.
    pub open spec fn holds(self, column: u16, row: u16) -> bool {
        &&& self.x <= column < self.right()
        &&& self.y <= row < self.bottom()
    }

    /// Whether the cell at `column` and `row` lies in the rectangle.
    pub fn contains(&self, column: u16, row: u16) -> (inside: bool)
        ensures
            inside == self.holds(column, row),
    {
        column >= self.x && column < self.x.saturating_add(self.width) && row >= self.y && row
            < self.y.saturating_add(self.height)
    }
}

/// What a [`Console`] holds.
pub struct ConsoleView {
    pub executor: TaskExecutorView,
    /// Whether the output of the task is connected.
    pub attached: bool,
    /// The output so far, wrapped into lines.
    pub lines: Seq<Seq<char>>,
    /// Where the output was drawn last, once it was drawn.
    pub rect: Option<Rect>,
    /// The number of lines that are scrolled out at the top.
    pub scroll: usize,
    /// The largest scroll offset that the last drawing allowed.
    pub scroll_max: Option<usize>,
    /// Whether the view follows the end of the output.
    pub scroll_bottom: bool,
}

impl ConsoleView {
    /// The pane of a task that is ready to run `command`: it has no output
    /// yet, was never drawn, and follows the end of the output.
    pub open spec fn fresh(command: String) -> ConsoleView {
        ConsoleView {
            executor: TaskExecutorView::ready(command),
            attached: false,
            lines: Seq::empty(),
            rect: None,
            scroll: 0,
            scroll_max: None,
            scroll_bottom: true,
        }
    }

    /// The pane with `executor` for its task.
    pub open spec fn with_executor(self, executor: TaskExecutorView) -> ConsoleView {
        ConsoleView { executor, ..self }
    }

    /// The pane once the process of its task was started with id `pid` and
    /// its output was connected. Only a task that is ready starts.
    pub open spec fn started(self, pid: Option<u32>) -> ConsoleView {
        if self.executor.lifecycle is Ready {
            ConsoleView { executor: self.executor.started(pid), attached: true, ..self }
        } else {
            self
        }
    }

    /// The pane after `texts` arrived and were wrapped to `width` columns.
    pub open spec fn received(self, texts: Seq<String>, width: usize) -> ConsoleView {
        ConsoleView { lines: self.lines + wrapped_all(texts, width), ..self }
    }

    /// The pane after the mouse wheel was turned up over it.
    pub open spec fn scrolled_up(self) -> ConsoleView {
        ConsoleView { scroll: self.scroll.saturating_sub(1), scroll_bottom: false, ..self }
    }

    /// The scroll offset after the mouse wheel was turned down: one more, but
    /// not beyond `max`.
    pub open spec fn offset_down(self, max: usize) -> usize {
        if self.scroll.saturating_add(1) < max {
            self.scroll.saturating_add(1)
        } else {
            max
        }
    }

    /// The pane after the mouse wheel was turned down over it.
    pub open spec fn scrolled_down(self, max: usize) -> ConsoleView {
        ConsoleView {
            scroll: self.offset_down(max),
            scroll_bottom: self.offset_down(max) == max,
            ..self
        }
    }

    /// Whether the pane takes `event` for itself: a turn of the mouse wheel,
    /// up or down, over the place where its output was drawn.
    pub open spec fn consumes(self, event: Event) -> bool {
        match (event, self.rect, self.scroll_max) {
            (Event::Mouse(mouse), Some(rect), Some(_)) => {
                &&& rect.holds(mouse.column, mouse.row)
                &&& (mouse.kind is ScrollUp || mouse.kind is ScrollDown)
            },
            _ => false,
        }
    }

    /// The pane after it was offered `event`.
    pub open spec fn handled(self, event: Event) -> ConsoleView {
        if self.consumes(event) {
            if event->Mouse_0.kind is ScrollUp {
                self.scrolled_up()
            } else {
                self.scrolled_down(self.scroll_max->Some_0)
            }
        } else {
            self
        }
    }

    /// The pane after its output was drawn at `rect` with room for `height`
    /// lines: a view that follows the end of the output moves there.
    pub open spec fn drawn(self, rect: Rect, height: u16) -> ConsoleView {
        let max = if self.lines.len() <= height {
            0usize
        } else {
            (self.lines.len() - height) as usize
        };
        ConsoleView {
            rect: Some(rect),
            scroll_max: Some(max),
            scroll: if self.scroll_bottom {
                max
            } else {
                self.scroll
            },
            ..self
        }
    }

    /// The title of the pane: the command in square brackets and the process
    /// id in round ones.
    pub open spec fn title(self) -> Seq<char> {
        "["@ + self.executor.command@ + "] - ("@ + decimal(shown_pid(self.executor.pid)) + ")"@
    }
}

/// The event after a pane was offered it: consumed if the pane took it.
pub open spec fn after_console(console: ConsoleView, event: ParallelyEventView) -> ParallelyEventView {
    if console.consumes(event.inner) {
        ParallelyEventView { inner: event.inner, propagate: false }
    } else {
        event
    }
}

/// The pane of one task: the task itself, its output so far and the place
/// in it that is shown.
pub struct Console {
    executor: TaskExecutor,
    output: Option<TaskOutputReceiver>,
    output_text: Vec<String>,
    output_rect: Option<Rect>,
    output_vertical_scroll: usize,
    output_vertical_scroll_max: Option<usize>,
    message_sender: MessageSender,
    scroll_bottom: bool,
}

impl View for Console {
    type V = ConsoleView;

    closed spec fn view(&self) -> ConsoleView {
        ConsoleView {
            executor: self.executor@,
            attached: self.output is Some,
            lines: views(self.output_text@),
            rect: self.output_rect,
            scroll: self.output_vertical_scroll,
            scroll_max: self.output_vertical_scroll_max,
            scroll_bottom: self.scroll_bottom,
        }
    }
}

/// The handles that a [`Console`] holds.
pub struct ConsoleHandles {
    /// The end of the bus on which the pane reports.
    pub message_sender: MessageSender,
    /// The handle that tells the forwarding of output to stop, while the task
    /// holds it.
    pub stop_handle: Option<Sender<()>>,
    /// The channel on which the output of the task arrives, once it is
    /// connected.
    pub output: Option<TaskOutputReceiver>,
}

impl Console {
    /// The handles that the pane holds.
    pub closed spec fn handles(&self) -> ConsoleHandles {
        ConsoleHandles {
            message_sender: self.message_sender,
            stop_handle: self.executor.stop_handle(),
            output: self.output,
        }
    }

    /// The view says of each handle whether it is held: the output is
    /// connected exactly while the pane holds its channel, and the
    /// forwarding can be told to stop exactly while the task holds the handle
    /// for it.
    pub proof fn lemma_view_agrees_with_handles(&self)
        ensures
            self@.attached <==> self.handles().output is Some,
            self@.executor.forwarding <==> self.handles().stop_handle is Some,
    {
        self.executor.lemma_forwarding_holds_the_handle();
    }

    /// The pane of a task that is ready to run `command`, which reports on
    /// `message_sender`.
    pub fn new(command: String, message_sender: MessageSender) -> (console: Self)
        ensures
            console@ == ConsoleView::fresh(command),
            console.handles() == (ConsoleHandles {
                message_sender,
                stop_handle: None,
                output: None,
            }),
    {
        let executor = TaskExecutor::new(command, message_sender.clone());
        let console = Self {
            executor,
            output: None,
            output_rect: None,
            output_text: Vec::new(),
            output_vertical_scroll: 0,
            output_vertical_scroll_max: None,
            message_sender,
            scroll_bottom: true,
        };
        assert(console@.lines =~= Seq::empty());
        console
    }

    /// The task of this pane.
    pub fn executor(&self) -> (executor: &TaskExecutor)
        ensures
            executor@ == self@.executor,
            executor.stop_handle() == self.handles().stop_handle,
    {
        &self.executor
    }

    /// The end of the bus on which the pane reports: the one that it was
    /// made with.
    pub fn message_sender(&self) -> (sender: &MessageSender)
        ensures
            *sender == self.handles().message_sender,
    {
        &self.message_sender
    }

    /// The status of the task as it is known now.
    pub fn status(&self) -> (status: TaskStatus)
        ensures
            status == self@.executor.status(),
    {
        self.executor.status()
    }

    /// The number of lines that are scrolled out at the top.
    pub fn scroll(&self) -> (offset: usize)
        ensures
            offset == self@.scroll,
    {
        self.output_vertical_scroll
    }

    /// The largest scroll offset that the last drawing allowed, once the
    /// output was drawn.
    pub fn scroll_max(&self) -> (max: Option<usize>)
        ensures
            max == self@.scroll_max,
    {
        self.output_vertical_scroll_max
    }

    /// Where the output was drawn last, once it was drawn.
    pub fn output_rect(&self) -> (rect: Option<Rect>)
        ensures
            rect == self@.rect,
    {
        self.output_rect
    }

    /// Whether the view follows the end of the output.
    pub fn follows_bottom(&self) -> (follows: bool)
        ensures
            follows == self@.scroll_bottom,
    {
        self.scroll_bottom
    }

    /// The output so far, wrapped into lines.
    pub fn lines(&self) -> (lines: &Vec<String>)
        ensures
            views(lines@) == self@.lines,
    {
        &self.output_text
    }

    /// Writes the title of the pane.
    pub fn title(&self) -> (title: String)
        ensures
            title@ == self@.title(),
    {
        let shown: u32 = match self.executor.pid() {
            Some(id) => id,
            None => 0,
        };
        let number = decimal_string(shown);
        let mut title = String::from_str("[");
        title.append(self.executor.raw_command());
        title.append("] - (");
        title.append(number.as_str());
        title.append(")");
        title
    }

    /// Records that the process of the task was started with id `pid`, and
    /// connects its output: from now on the pane holds `output`, and its task
    /// holds `shutdown_sender`. A task that was started before keeps its
    /// process, its handle and its output.
    pub fn execute(&mut self, pid: Option<u32>, shutdown_sender: Sender<()>, output: TaskOutputReceiver)
        ensures
            final(self)@ == old(self)@.started(pid),
            final(self).handles() == (if old(self)@.executor.lifecycle is Ready {
                ConsoleHandles {
                    stop_handle: Some(shutdown_sender),
                    output: Some(output),
                    ..old(self).handles()
                }
            } else {
                old(self).handles()
            }),
    {
        match self.executor.status() {
            TaskStatus::Ready(_) => {
                self.executor.execute(pid, shutdown_sender);
                self.output = Some(output);
            },
            _ => {},
        }
    }

    /// Offers `event` to the pane. A turn of the mouse wheel over the output
    /// scrolls it by a line and is consumed; any other event changes nothing.
    pub fn handle_event(&mut self, event: &mut ParallelyEvent)
        ensures
            final(self).handles() == old(self).handles(),
            final(self)@ == old(self)@.handled(old(event)@.inner),
            final(event)@ == after_console(old(self)@, old(event)@),
    {
        let raw = *event.as_ref();
        match (raw, self.output_rect, self.output_vertical_scroll_max) {
            (Event::Mouse(mouse), Some(rect), Some(max)) => {
                if rect.contains(mouse.column, mouse.row) {
                    match mouse.kind {
                        MouseEventKind::ScrollUp => {
                            event.stop_propagation();
                            self.scroll_bottom = false;
                            self.output_vertical_scroll = self.output_vertical_scroll.saturating_sub(
                                1,
                            );
                        },
                        MouseEventKind::ScrollDown => {
                            event.stop_propagation();
                            let next = self.output_vertical_scroll.saturating_add(1);
                            let offset = if next < max {
                                next
                            } else {
                                max
                            };
                            self.scroll_bottom = offset == max;
                            self.output_vertical_scroll = offset;
                        },
                        MouseEventKind::Other => {},
                    }
                }
            },
            _ => {},
        }
    }

    /// Wraps `line` to `width_limit` columns and appends it to the output.
    pub fn append_line(&mut self, line: &str, width_limit: usize)
        ensures
            final(self).handles() == old(self).handles(),
            final(self)@ == (ConsoleView {
                lines: old(self)@.lines + wrapped(line@, width_limit),
                ..old(self)@
            }),
    {
        let ghost before = self.output_text@;
        let mut fresh = wrap_text(line, width_limit);
        let ghost added = fresh@;
        self.output_text.append(&mut fresh);
        assert(views(before + added) =~= views(before) + views(added));
    }

    /// Takes the lines that have arrived from the task, wraps each to
    /// `width_limit` columns and appends it to the output. The lines that
    /// were taken are handed back as they arrived.
    pub fn receive(&mut self, width_limit: usize) -> (taken: Vec<String>)
        ensures
            final(self)@ == old(self)@.received(taken@, width_limit),
            !old(self)@.attached ==> taken@.len() == 0,
            final(self).handles().message_sender == old(self).handles().message_sender,
            final(self).handles().stop_handle == old(self).handles().stop_handle,
            final(self).handles().output is Some <==> old(self).handles().output is Some,
    {
        let mut taken: Vec<String> = Vec::new();
        assert(old(self)@.lines + wrapped_all(taken@, width_limit) =~= old(self)@.lines);
        match self.output.take() {
            None => {},
            Some(mut output) => {
                while taken.len() < usize::MAX
                    invariant
                        self.handles() == (ConsoleHandles { output: None, ..old(self).handles() }),
                        self@ == (ConsoleView {
                            attached: false,
                            lines: old(self)@.lines + wrapped_all(taken@, width_limit),
                            ..old(self)@
                        }),
                    decreases usize::MAX - taken.len(),
                {
                    match channel_try_recv(&mut output) {
                        None => {
                            break ;
                        },
                        Some(line) => {
                            let ghost before = taken@;
                            self.append_line(line.as_str(), width_limit);
                            taken.push(line);
                            assert(taken@.drop_last() =~= before);
                            assert(old(self)@.lines + wrapped_all(before, width_limit) + wrapped(
                                line@,
                                width_limit,
                            ) =~= old(self)@.lines + wrapped_all(taken@, width_limit));
                        },
                    }
                }
                self.output = Some(output);
            },
        }
        taken
    }

    /// Records where the output was drawn and how many lines fit there. A
    /// view that follows the end of the output moves to the end.
    pub fn rendered(&mut self, output_rect: Rect, height: u16)
        ensures
            final(self).handles() == old(self).handles(),
            final(self)@ == old(self)@.drawn(output_rect, height),
    {
        let count = self.output_text.len();
        let max = count.saturating_sub(height as usize);
        if self.scroll_bottom {
            self.output_vertical_scroll = max;
        }
        self.output_rect = Some(output_rect);
        self.output_vertical_scroll_max = Some(max);
    }
}

impl Executable for Console {
    open spec fn task(&self) -> TaskExecutorView {
        self@.executor
    }

    fn raw_command(&self) -> (command: &str) {
        self.executor.raw_command()
    }

    fn pid(&self) -> (pid: Option<u32>) {
        self.executor.pid()
    }

    fn try_wait(&mut self, seen: Option<ExitStatus>) -> (status: TaskStatus)
        ensures
            final(self).handles() == (ConsoleHandles {
                stop_handle: if final(self)@.executor.forwarding {
                    old(self).handles().stop_handle
                } else {
                    None
                },
                ..old(self).handles()
            }),
            final(self)@ == old(self)@.with_executor(old(self)@.executor.polled(seen)),
    {
        self.executor.try_wait(seen)
    }

    fn signal_or_wait(&mut self, signal: ChildSignal) -> (step: Step)
        ensures
            final(self).handles() == (ConsoleHandles {
                stop_handle: if final(self)@.executor.forwarding {
                    old(self).handles().stop_handle
                } else {
                    None
                },
                ..old(self).handles()
            }),
            final(self)@ == old(self)@.with_executor(old(self)@.executor.begin(Some(signal)).0),
    {
        self.executor.signal_or_wait(signal)
    }

    fn kill_and_wait(&mut self) -> (step: Step)
        ensures
            final(self).handles() == (ConsoleHandles {
                stop_handle: if final(self)@.executor.forwarding {
                    old(self).handles().stop_handle
                } else {
                    None
                },
                ..old(self).handles()
            }),
            final(self)@ == old(self)@.with_executor(old(self)@.executor.begin(None).0),
    {
        self.executor.kill_and_wait()
    }

    fn advance(&mut self, outcome: Outcome) -> (step: Step)
        ensures
            final(self).handles() == (ConsoleHandles {
                stop_handle: if final(self)@.executor.forwarding {
                    old(self).handles().stop_handle
                } else {
                    None
                },
                ..old(self).handles()
            }),
            final(self)@ == old(self)@.with_executor(old(self)@.executor.advance(outcome).0),
    {
        self.executor.advance(outcome)
    }
}

} // verus!
