use parallely::app::App;
use parallely::app::AppResult;
use parallely::app::Directive;
use parallely::app::Phase;
use parallely::console::Rect;
use parallely::event::Event;
use parallely::event::KeyCode;
use parallely::event::KeyEvent;
use parallely::event::KeyEventKind;
use parallely::event::KeyModifiers;
use parallely::event::MouseEvent;
use parallely::event::MouseEventKind;
use parallely::event::ParallelyEvent;
use parallely::message::BusClosed;
use parallely::message::Message;
use parallely::message::MessageStream;
use parallely::parallely::Parallely;
use parallely::shutdown_handler::ShutdownReason;
use parallely::task_executor::Executable;
use parallely::task_executor::ExitStatus;
use parallely::task_executor::Outcome;
use parallely::task_executor::Step;
use parallely::task_executor::TaskError;
use parallely::task_executor::TaskStatus;

fn exit_of(code: i32) -> ExitStatus {
    ExitStatus { code: Some(code), text: format!("exit status: {}", code) }
}

fn supervisor(commands: &[&str], exit_on_complete: bool) -> (App, MessageStream) {
    let mut app = App::new(Parallely {
        commands: commands.iter().map(|c| c.to_string()).collect(),
        exit_on_complete,
        debug: false,
    });
    let stream = app.take_message_stream().unwrap();
    (app, stream)
}

fn start(app: &mut App, index: usize, pid: u32) -> tokio::sync::mpsc::UnboundedSender<String> {
    let (stop, _stopped) = tokio::sync::oneshot::channel::<()>();
    let (output, receiver) = tokio::sync::mpsc::unbounded_channel::<String>();
    app.execute(index, Some(pid), stop, receiver);
    output
}

fn drawn_pane(app: &mut App, index: usize, rect: Rect, lines: usize) {
    let output = start(app, index, 100 + index as u32);
    for n in 0..lines {
        output.send(format!("line {}", n)).unwrap();
    }
    app.receive(index, 80);
    app.rendered(index, rect, 4);
}

fn wheel(kind: MouseEventKind, column: u16, row: u16) -> ParallelyEvent {
    ParallelyEvent::new(Event::Mouse(MouseEvent { kind, column, row }))
}

fn press(c: char, bits: u8) -> ParallelyEvent {
    ParallelyEvent::new(Event::Key(KeyEvent {
        code: KeyCode::Char(c),
        modifiers: KeyModifiers { bits },
        kind: KeyEventKind::Press,
    }))
}

#[test]
fn supervisor_has_a_pane_for_each_command() {
    let (app, _stream) = supervisor(&["sleep 5", "echo hi", "true"], true);
    assert_eq!(app.len(), 3);
    assert_eq!(app.phase(), Phase::Running);
    assert!(app.exit_on_complete());
    assert_eq!(app.console(0).status(), TaskStatus::Ready("sleep 5".to_string()));
    assert_eq!(app.console(1).status(), TaskStatus::Ready("echo hi".to_string()));
    assert_eq!(app.console(2).raw_command(), "true");
    assert_eq!(app.finish(), None);
}

#[test]
fn message_stream_is_handed_out_once() {
    let mut app = App::new(Parallely::default());
    assert!(app.take_message_stream().is_some());
    assert!(app.take_message_stream().is_none());
    assert_eq!(app.len(), 0);
}

#[test]
fn default_configuration_is_empty() {
    let parallely = Parallely::default();
    assert!(parallely.commands.is_empty());
    assert!(!parallely.exit_on_complete);
    assert!(!parallely.debug);
}

#[test]
fn scroll_inside_one_pane_affects_only_that_pane() {
    let (mut app, _stream) = supervisor(&["a", "b", "c"], false);
    drawn_pane(&mut app, 0, Rect { x: 0, y: 0, width: 10, height: 6 }, 10);
    drawn_pane(&mut app, 1, Rect { x: 10, y: 0, width: 10, height: 6 }, 10);
    drawn_pane(&mut app, 2, Rect { x: 20, y: 0, width: 10, height: 6 }, 10);
    assert_eq!(app.console(0).scroll(), 6);
    assert_eq!(app.console(1).scroll(), 6);
    assert_eq!(app.console(2).scroll(), 6);
    let published = app.handle_events(vec![wheel(MouseEventKind::ScrollUp, 12, 3)]);
    assert_eq!(published, Ok(Vec::new()));
    assert_eq!(app.console(0).scroll(), 6);
    assert_eq!(app.console(1).scroll(), 5);
    assert_eq!(app.console(2).scroll(), 6);
    assert!(app.console(0).follows_bottom());
    assert!(!app.console(1).follows_bottom());
    assert!(app.console(2).follows_bottom());
}

#[test]
fn batch_of_scrolls_is_routed_event_by_event() {
    let (mut app, _stream) = supervisor(&["a", "b"], false);
    drawn_pane(&mut app, 0, Rect { x: 0, y: 0, width: 10, height: 6 }, 10);
    drawn_pane(&mut app, 1, Rect { x: 10, y: 0, width: 10, height: 6 }, 10);
    let events = vec![
        wheel(MouseEventKind::ScrollUp, 1, 1),
        wheel(MouseEventKind::ScrollUp, 1, 1),
        wheel(MouseEventKind::ScrollUp, 11, 1),
        wheel(MouseEventKind::ScrollDown, 1, 1),
        wheel(MouseEventKind::ScrollUp, 40, 40),
    ];
    assert_eq!(app.handle_events(events), Ok(Vec::new()));
    assert_eq!(app.console(0).scroll(), 5);
    assert_eq!(app.console(1).scroll(), 5);
}

#[test]
fn overlapping_panes_give_the_scroll_to_the_first() {
    let (mut app, _stream) = supervisor(&["a", "b"], false);
    drawn_pane(&mut app, 0, Rect { x: 0, y: 0, width: 10, height: 6 }, 10);
    drawn_pane(&mut app, 1, Rect { x: 5, y: 0, width: 10, height: 6 }, 10);
    assert_eq!(app.handle_events(vec![wheel(MouseEventKind::ScrollUp, 7, 2)]), Ok(Vec::new()));
    assert_eq!(app.console(0).scroll(), 5);
    assert_eq!(app.console(1).scroll(), 6);
}

#[test]
fn event_that_was_consumed_before_reaches_nobody() {
    let (mut app, mut stream) = supervisor(&["a"], false);
    drawn_pane(&mut app, 0, Rect { x: 0, y: 0, width: 10, height: 6 }, 10);
    let mut consumed = wheel(MouseEventKind::ScrollUp, 1, 1);
    consumed.stop_propagation();
    let mut quit = press('q', 0);
    quit.stop_propagation();
    assert_eq!(app.handle_events(vec![consumed, quit]), Ok(Vec::new()));
    assert_eq!(app.console(0).scroll(), 6);
    assert_eq!(stream.try_next(), None);
}

#[test]
fn resize_and_focus_change_no_pane() {
    let (mut app, mut stream) = supervisor(&["a", "b"], false);
    drawn_pane(&mut app, 0, Rect { x: 0, y: 0, width: 10, height: 6 }, 10);
    drawn_pane(&mut app, 1, Rect { x: 10, y: 0, width: 10, height: 6 }, 10);
    let events = vec![
        ParallelyEvent::new(Event::Resize(120, 50)),
        ParallelyEvent::new(Event::FocusLost),
        ParallelyEvent::new(Event::FocusGained),
    ];
    assert_eq!(app.handle_events(events), Ok(Vec::new()));
    assert_eq!(app.console(0).scroll(), 6);
    assert_eq!(app.console(1).scroll(), 6);
    assert!(app.console(0).follows_bottom());
    assert_eq!(stream.try_next(), None);
}

#[test]
fn quit_key_publishes_exactly_one_shutdown_and_reaches_no_pane() {
    let (mut app, mut stream) = supervisor(&["a", "b"], false);
    drawn_pane(&mut app, 0, Rect { x: 0, y: 0, width: 10, height: 6 }, 10);
    drawn_pane(&mut app, 1, Rect { x: 10, y: 0, width: 10, height: 6 }, 10);
    let directive = app.dispatch(Message::EventChunk(vec![press('q', 0)]));
    assert_eq!(directive, Ok(Directive::Continue));
    assert_eq!(stream.try_next(), Some(Message::Shutdown(ShutdownReason::Quit)));
    assert_eq!(stream.try_next(), None);
    assert_eq!(app.console(0).scroll(), 6);
    assert_eq!(app.console(1).scroll(), 6);
    assert_eq!(app.phase(), Phase::Running);
}

#[test]
fn each_quit_chord_in_a_batch_is_published_in_order() {
    let (mut app, mut stream) = supervisor(&["a"], false);
    let events = vec![press('x', 0), press('c', 2), press('q', 0), press('\\', 2)];
    assert_eq!(
        app.handle_events(events),
        Ok(vec![ShutdownReason::CtrlC, ShutdownReason::Quit, ShutdownReason::Sigquit])
    );
    assert_eq!(stream.try_next(), Some(Message::Shutdown(ShutdownReason::CtrlC)));
    assert_eq!(stream.try_next(), Some(Message::Shutdown(ShutdownReason::Quit)));
    assert_eq!(stream.try_next(), Some(Message::Shutdown(ShutdownReason::Sigquit)));
    assert_eq!(stream.try_next(), None);
}

#[test]
fn dispatch_of_a_quit_key_on_a_closed_bus_is_fatal() {
    let (mut app, stream) = supervisor(&["a"], false);
    drop(stream);
    assert_eq!(app.dispatch(Message::EventChunk(vec![press('q', 0)])), Err(BusClosed));
}

#[test]
fn error_and_update_change_nothing() {
    let (mut app, _stream) = supervisor(&["a"], true);
    assert_eq!(app.dispatch(Message::Error("oops".to_string())), Ok(Directive::Continue));
    assert_eq!(app.dispatch(Message::Update), Ok(Directive::Continue));
    assert_eq!(app.phase(), Phase::Running);
    assert_eq!(app.console(0).status(), TaskStatus::Ready("a".to_string()));
}

#[test]
fn exit_on_complete_waits_for_the_last_task() {
    let (mut app, _stream) = supervisor(&["sleep 5", "echo hi"], true);
    start(&mut app, 0, 500);
    start(&mut app, 1, 501);
    assert_eq!(app.try_wait(vec![Ok(None), Ok(None)]), None);
    assert_eq!(app.try_wait(vec![Ok(None), Ok(Some(exit_of(0)))]), None);
    assert_eq!(
        app.console(0).status(),
        TaskStatus::Executing { command: "sleep 5".to_string(), pid: Some(500) }
    );
    assert_eq!(
        app.console(1).status(),
        TaskStatus::Exited { command: "echo hi".to_string(), pid: Some(501), status: exit_of(0) }
    );
    assert_eq!(app.phase(), Phase::Running);
    let result = app.try_wait(vec![Ok(Some(exit_of(0))), Ok(None)]).unwrap();
    assert_eq!(result.shutdown_reason, ShutdownReason::End);
    assert_eq!(result.tasks_status.len(), 2);
    let lines: Vec<String> =
        result.tasks_status.iter().map(|status| status.as_ref().unwrap().to_string()).collect();
    assert_eq!(
        lines,
        vec![
            "Exited: sleep 5 (PID: 500) with status: exit status: 0".to_string(),
            "Exited: echo hi (PID: 501) with status: exit status: 0".to_string(),
        ]
    );
    assert_eq!(app.phase(), Phase::ShuttingDown(ShutdownReason::End));
    assert_eq!(app.finish(), Some(result));
}

#[test]
fn without_exit_on_complete_the_supervisor_stays() {
    let (mut app, _stream) = supervisor(&["echo hi"], false);
    start(&mut app, 0, 9);
    assert_eq!(app.try_wait(vec![Ok(Some(exit_of(0)))]), None);
    assert_eq!(app.phase(), Phase::Running);
    assert_eq!(app.finish(), None);
    assert!(app.console(0).status().terminal());
}

#[test]
fn failed_poll_is_reported_in_place_of_the_status() {
    let (mut app, _stream) = supervisor(&["a", "b"], true);
    start(&mut app, 0, 1);
    start(&mut app, 1, 2);
    let result = app
        .try_wait(vec![Err(TaskError { message: "no child".to_string() }), Ok(Some(exit_of(1)))])
        .unwrap();
    assert_eq!(
        result.tasks_status,
        vec![
            Err(TaskError { message: "no child".to_string() }),
            Ok(TaskStatus::Exited { command: "b".to_string(), pid: Some(2), status: exit_of(1) }),
        ]
    );
}

#[test]
fn shutdown_begins_to_stop_every_task() {
    let (mut app, _stream) = supervisor(&["a", "b", "c"], false);
    start(&mut app, 0, 1);
    start(&mut app, 1, 2);
    start(&mut app, 2, 3);
    app.try_wait(vec![Ok(None), Ok(Some(exit_of(0))), Ok(None)]);
    let directive = app.dispatch(Message::Shutdown(ShutdownReason::Sigterm)).unwrap();
    assert_eq!(
        directive,
        Directive::Stop(vec![
            Step::Poll,
            Step::Done(Ok(TaskStatus::Exited {
                command: "b".to_string(),
                pid: Some(2),
                status: exit_of(0)
            })),
            Step::Poll,
        ])
    );
    assert_eq!(app.phase(), Phase::ShuttingDown(ShutdownReason::Sigterm));
    assert_eq!(app.finish(), None);
    assert_eq!(app.advance(0, Outcome::Polled(None)), Step::Signal { pid: 1, signal: 15 });
}

#[test]
fn second_shutdown_is_inert() {
    let (mut app, mut stream) = supervisor(&["a", "b"], false);
    start(&mut app, 0, 1);
    start(&mut app, 1, 2);
    let first = app.dispatch(Message::Shutdown(ShutdownReason::Sigint)).unwrap();
    assert_eq!(first, Directive::Stop(vec![Step::Poll, Step::Poll]));
    assert_eq!(app.advance(0, Outcome::Polled(None)), Step::Signal { pid: 1, signal: 2 });
    let second = app.dispatch(Message::Shutdown(ShutdownReason::Sigterm)).unwrap();
    assert_eq!(second, Directive::Continue);
    assert_eq!(app.phase(), Phase::ShuttingDown(ShutdownReason::Sigint));
    assert_eq!(app.advance(0, Outcome::Signalled(0)), Step::Wait);
    assert_eq!(app.dispatch(Message::EventChunk(vec![press('q', 0)])), Ok(Directive::Continue));
    assert_eq!(stream.try_next(), None);
    assert_eq!(app.try_wait(vec![Ok(Some(exit_of(0))), Ok(Some(exit_of(0)))]), None);
    assert_eq!(
        app.console(1).status(),
        TaskStatus::Executing { command: "b".to_string(), pid: Some(2) }
    );
}

#[test]
fn interrupt_ends_with_one_exited_and_one_killed() {
    let (mut app, _stream) = supervisor(&["server", "stubborn"], false);
    start(&mut app, 0, 10);
    start(&mut app, 1, 11);
    let directive = app.dispatch(Message::Shutdown(ShutdownReason::Sigint)).unwrap();
    assert_eq!(directive, Directive::Stop(vec![Step::Poll, Step::Poll]));
    assert_eq!(app.advance(0, Outcome::Polled(None)), Step::Signal { pid: 10, signal: 2 });
    assert_eq!(app.advance(1, Outcome::Polled(None)), Step::Signal { pid: 11, signal: 2 });
    assert_eq!(app.advance(0, Outcome::Signalled(0)), Step::Wait);
    assert_eq!(app.advance(1, Outcome::Signalled(3)), Step::Kill);
    assert_eq!(app.finish(), None);
    assert_eq!(app.advance(1, Outcome::Killed), Step::Wait);
    let exited =
        TaskStatus::Exited { command: "server".to_string(), pid: Some(10), status: exit_of(130) };
    let killed = TaskStatus::Killed { command: "stubborn".to_string(), pid: Some(11) };
    assert_eq!(app.advance(0, Outcome::Waited(exit_of(130))), Step::Done(Ok(exited.clone())));
    assert_eq!(app.finish(), None);
    assert_eq!(
        app.advance(
            1,
            Outcome::Waited(ExitStatus { code: None, text: "signal: 9 (SIGKILL)".to_string() })
        ),
        Step::Done(Ok(killed.clone()))
    );
    let result = app.finish().unwrap();
    assert_eq!(
        result,
        AppResult::new(vec![Ok(exited), Ok(killed)], ShutdownReason::Sigint)
    );
    let lines: Vec<String> =
        result.tasks_status.iter().map(|status| status.as_ref().unwrap().to_string()).collect();
    assert_eq!(
        lines,
        vec![
            "Exited: server (PID: 10) with status: exit status: 130".to_string(),
            "Killed: stubborn (PID: 11)".to_string(),
        ]
    );
}

#[test]
fn failure_while_stopping_settles_the_task_with_its_error() {
    let (mut app, _stream) = supervisor(&["a"], false);
    start(&mut app, 0, 10);
    app.dispatch(Message::Shutdown(ShutdownReason::Quit)).unwrap();
    assert_eq!(app.advance(0, Outcome::Polled(None)), Step::Signal { pid: 10, signal: 3 });
    assert_eq!(
        app.advance(0, Outcome::Failed("wait failed".to_string())),
        Step::Done(Err(TaskError { message: "wait failed".to_string() }))
    );
    assert_eq!(
        app.finish(),
        Some(AppResult::new(
            vec![Err(TaskError { message: "wait failed".to_string() })],
            ShutdownReason::Quit
        ))
    );
    app.advance(0, Outcome::Polled(None));
    assert_eq!(
        app.finish(),
        Some(AppResult::new(
            vec![Err(TaskError { message: "wait failed".to_string() })],
            ShutdownReason::Quit
        ))
    );
}

#[test]
fn shutdown_with_every_task_done_reports_at_once() {
    let (mut app, _stream) = supervisor(&["a", "b"], false);
    start(&mut app, 0, 10);
    start(&mut app, 1, 11);
    app.try_wait(vec![Ok(Some(exit_of(0))), Ok(Some(exit_of(2)))]);
    app.dispatch(Message::Shutdown(ShutdownReason::CtrlC)).unwrap();
    let result = app.finish().unwrap();
    assert_eq!(result.shutdown_reason, ShutdownReason::CtrlC);
    assert_eq!(result.tasks_status.len(), 2);
    assert!(result.tasks_status.iter().all(|status| status.as_ref().unwrap().terminal()));
}

#[test]
fn nothing_is_started_once_the_supervisor_shuts_down() {
    let (mut app, _stream) = supervisor(&["a"], false);
    app.dispatch(Message::Shutdown(ShutdownReason::Sigterm)).unwrap();
    start(&mut app, 0, 10);
    assert_eq!(app.console(0).status(), TaskStatus::Ready("a".to_string()));
    assert_eq!(
        app.finish(),
        Some(AppResult::new(vec![Ok(TaskStatus::Ready("a".to_string()))], ShutdownReason::Sigterm))
    );
}

#[test]
fn output_is_taken_into_the_pane_of_its_task() {
    let (mut app, _stream) = supervisor(&["a", "b"], false);
    let first = start(&mut app, 0, 1);
    let second = start(&mut app, 1, 2);
    first.send("from a".to_string()).unwrap();
    second.send("from b".to_string()).unwrap();
    assert_eq!(app.receive(1, 80), vec!["from b".to_string()]);
    assert!(app.console(0).lines().is_empty());
    assert_eq!(app.console(1).lines(), &vec!["from b".to_string()]);
    assert_eq!(app.receive(0, 80), vec!["from a".to_string()]);
    assert_eq!(app.console(0).lines(), &vec!["from a".to_string()]);
}

#[test]
fn failed_start_is_contained_to_its_task() {
    let (mut app, mut stream) = supervisor(&["nonesuch", "echo hi"], true);
    assert_eq!(app.spawn_failed(0, "No such file or directory".to_string()), Ok(()));
    start(&mut app, 1, 20);
    assert_eq!(stream.try_next(), Some(Message::Error("No such file or directory".to_string())));
    assert_eq!(stream.try_next(), None);
    assert_eq!(app.console(0).status(), TaskStatus::Ready("nonesuch".to_string()));
    assert_eq!(
        app.console(1).status(),
        TaskStatus::Executing { command: "echo hi".to_string(), pid: Some(20) }
    );
    assert_eq!(app.phase(), Phase::Running);
    assert_eq!(app.try_wait(vec![Ok(None), Ok(None)]), None);
    let result = app.try_wait(vec![Ok(None), Ok(Some(exit_of(0)))]).unwrap();
    assert_eq!(
        result.tasks_status,
        vec![
            Err(TaskError { message: "No such file or directory".to_string() }),
            Ok(TaskStatus::Exited {
                command: "echo hi".to_string(),
                pid: Some(20),
                status: exit_of(0)
            }),
        ]
    );
}

#[test]
fn task_that_failed_to_start_is_done_when_the_tasks_are_stopped() {
    let (mut app, _stream) = supervisor(&["nonesuch", "sleep 5"], false);
    app.spawn_failed(0, "not found".to_string()).unwrap();
    start(&mut app, 1, 21);
    let directive = app.dispatch(Message::Shutdown(ShutdownReason::Sigint)).unwrap();
    assert_eq!(
        directive,
        Directive::Stop(vec![
            Step::Done(Err(TaskError { message: "not found".to_string() })),
            Step::Poll,
        ])
    );
    assert_eq!(app.finish(), None);
    app.advance(1, Outcome::Polled(None));
    app.advance(1, Outcome::Signalled(0));
    app.advance(1, Outcome::Waited(exit_of(0)));
    assert_eq!(
        app.finish(),
        Some(AppResult::new(
            vec![
                Err(TaskError { message: "not found".to_string() }),
                Ok(TaskStatus::Exited {
                    command: "sleep 5".to_string(),
                    pid: Some(21),
                    status: exit_of(0)
                }),
            ],
            ShutdownReason::Sigint
        ))
    );
}

#[test]
fn task_is_launched_once() {
    let (mut app, mut stream) = supervisor(&["a", "b"], false);
    app.spawn_failed(0, "first".to_string()).unwrap();
    start(&mut app, 0, 5);
    assert_eq!(app.console(0).status(), TaskStatus::Ready("a".to_string()));
    start(&mut app, 1, 6);
    app.spawn_failed(1, "late".to_string()).unwrap();
    assert_eq!(stream.try_next(), Some(Message::Error("first".to_string())));
    assert_eq!(stream.try_next(), Some(Message::Error("late".to_string())));
    let directive = app.dispatch(Message::Shutdown(ShutdownReason::Sigterm)).unwrap();
    assert_eq!(
        directive,
        Directive::Stop(vec![
            Step::Done(Err(TaskError { message: "first".to_string() })),
            Step::Poll,
        ])
    );
}

#[test]
fn failed_start_on_a_closed_bus_is_fatal() {
    let (mut app, stream) = supervisor(&["a"], false);
    drop(stream);
    assert_eq!(app.spawn_failed(0, "x".to_string()), Err(BusClosed));
}

#[test]
fn supervisor_hands_out_the_ends_of_its_own_bus() {
    let (mut app, mut stream) = supervisor(&["a"], false);
    assert_eq!(app.message_sender().need_update(), Ok(()));
    assert_eq!(stream.try_next(), Some(Message::Update));
    assert_eq!(app.shutdown_handler().signal_received(ShutdownReason::Sigquit), Ok(()));
    assert_eq!(stream.try_next(), Some(Message::Shutdown(ShutdownReason::Sigquit)));
    start(&mut app, 0, 1);
    app.try_wait(vec![Ok(None)]);
    app.dispatch(Message::Shutdown(ShutdownReason::Sigquit)).unwrap();
    assert_eq!(app.message_sender().send_error("still open".to_string()), Ok(()));
    assert_eq!(stream.try_next(), Some(Message::Error("still open".to_string())));
    assert!(app.take_message_stream().is_none());
}

#[test]
fn batch_without_a_quit_chord_succeeds_on_a_closed_bus() {
    let (mut app, stream) = supervisor(&["a", "b"], false);
    drawn_pane(&mut app, 0, Rect { x: 0, y: 0, width: 10, height: 6 }, 10);
    drawn_pane(&mut app, 1, Rect { x: 10, y: 0, width: 10, height: 6 }, 10);
    drop(stream);
    let events = vec![
        wheel(MouseEventKind::ScrollUp, 11, 1),
        press('x', 0),
        ParallelyEvent::new(Event::Resize(10, 10)),
    ];
    assert_eq!(app.handle_events(events), Ok(Vec::new()));
    assert_eq!(app.console(0).scroll(), 6);
    assert_eq!(app.console(1).scroll(), 5);
    assert_eq!(
        app.dispatch(Message::EventChunk(vec![wheel(MouseEventKind::ScrollDown, 11, 1)])),
        Ok(Directive::Continue)
    );
    assert_eq!(app.console(1).scroll(), 6);
    assert_eq!(app.dispatch(Message::Update), Ok(Directive::Continue));
    assert_eq!(app.dispatch(Message::Error("x".to_string())), Ok(Directive::Continue));
}

#[test]
fn scroll_down_inside_a_pane_moves_that_pane_by_one_line() {
    let (mut app, mut stream) = supervisor(&["a", "b", "c"], false);
    drawn_pane(&mut app, 0, Rect { x: 0, y: 0, width: 10, height: 6 }, 10);
    drawn_pane(&mut app, 1, Rect { x: 10, y: 0, width: 10, height: 6 }, 10);
    drawn_pane(&mut app, 2, Rect { x: 20, y: 0, width: 10, height: 6 }, 10);
    app.handle_events(vec![
        wheel(MouseEventKind::ScrollUp, 25, 2),
        wheel(MouseEventKind::ScrollUp, 25, 2),
        wheel(MouseEventKind::ScrollUp, 25, 2),
    ])
    .unwrap();
    assert_eq!(app.console(2).scroll(), 3);
    assert_eq!(app.handle_events(vec![wheel(MouseEventKind::ScrollDown, 25, 2)]), Ok(Vec::new()));
    assert_eq!(app.console(2).scroll(), 4);
    assert!(!app.console(2).follows_bottom());
    assert_eq!(app.console(0).scroll(), 6);
    assert_eq!(app.console(1).scroll(), 6);
    assert!(app.console(0).follows_bottom());
    assert!(app.console(1).follows_bottom());
    assert_eq!(
        app.console(0).output_rect(),
        Some(Rect { x: 0, y: 0, width: 10, height: 6 })
    );
    assert_eq!(stream.try_next(), None);
}

#[test]
fn task_without_output_has_no_lines_to_take() {
    let (mut app, _stream) = supervisor(&["a"], false);
    assert_eq!(app.receive(0, 80), Vec::<String>::new());
    assert!(app.console(0).lines().is_empty());
}

#[test]
fn each_entry_of_the_report_carries_the_command_at_its_place() {
    let (mut app, _stream) = supervisor(&["first", "second", "third"], false);
    start(&mut app, 0, 1);
    start(&mut app, 1, 2);
    start(&mut app, 2, 3);
    app.try_wait(vec![Ok(None), Ok(Some(exit_of(0))), Ok(None)]);
    app.dispatch(Message::Shutdown(ShutdownReason::Sigterm)).unwrap();
    app.advance(2, Outcome::Polled(None));
    app.advance(2, Outcome::Signalled(0));
    app.advance(2, Outcome::Waited(exit_of(0)));
    app.advance(0, Outcome::Polled(None));
    app.advance(0, Outcome::Signalled(3));
    app.advance(0, Outcome::Killed);
    app.advance(0, Outcome::Waited(exit_of(137)));
    let result = app.finish().unwrap();
    let lines: Vec<String> =
        result.tasks_status.iter().map(|status| status.as_ref().unwrap().to_string()).collect();
    assert_eq!(
        lines,
        vec![
            "Killed: first (PID: 1)".to_string(),
            "Exited: second (PID: 2) with status: exit status: 0".to_string(),
            "Exited: third (PID: 3) with status: exit status: 0".to_string(),
        ]
    );
}
