use parallely::task_executor::ExitStatus;
use parallely::task_executor::TaskStatus;

fn exit_zero() -> ExitStatus {
    ExitStatus { code: Some(0), text: "exit status: 0".to_string() }
}

#[test]
fn ready_line_names_the_command_only() {
    let status = TaskStatus::Ready("echo hi".to_string());
    assert_eq!(status.to_string(), "Ready: echo hi");
}

#[test]
fn executing_line_shows_the_pid() {
    let status = TaskStatus::Executing { command: "sleep 5".to_string(), pid: Some(4242) };
    assert_eq!(status.to_string(), "Executing: sleep 5 (PID: 4242)");
}

#[test]
fn killed_line_shows_the_pid() {
    let status = TaskStatus::Killed { command: "sleep 5".to_string(), pid: Some(17) };
    assert_eq!(status.to_string(), "Killed: sleep 5 (PID: 17)");
}

#[test]
fn exited_line_shows_the_exit_status() {
    let status =
        TaskStatus::Exited { command: "echo hi".to_string(), pid: Some(7), status: exit_zero() };
    assert_eq!(status.to_string(), "Exited: echo hi (PID: 7) with status: exit status: 0");
}

#[test]
fn absent_pid_is_shown_as_zero() {
    let status = TaskStatus::Executing { command: "true".to_string(), pid: None };
    assert_eq!(status.to_string(), "Executing: true (PID: 0)");
    let status = TaskStatus::Killed { command: "true".to_string(), pid: None };
    assert_eq!(status.to_string(), "Killed: true (PID: 0)");
}

#[test]
fn exited_line_carries_a_signal_description() {
    let status = TaskStatus::Exited {
        command: "sleep 60".to_string(),
        pid: Some(300),
        status: ExitStatus { code: None, text: "signal: 2 (SIGINT)".to_string() },
    };
    assert_eq!(status.to_string(), "Exited: sleep 60 (PID: 300) with status: signal: 2 (SIGINT)");
}

#[test]
fn only_exited_and_killed_are_terminal() {
    assert!(!TaskStatus::Ready("a".to_string()).terminal());
    assert!(!TaskStatus::Executing { command: "a".to_string(), pid: Some(1) }.terminal());
    assert!(TaskStatus::Killed { command: "a".to_string(), pid: Some(1) }.terminal());
    assert!(TaskStatus::Exited { command: "a".to_string(), pid: Some(1), status: exit_zero() }
        .terminal());
}

#[test]
fn only_exit_code_zero_is_success() {
    assert!(exit_zero().success());
    assert!(!ExitStatus { code: Some(1), text: "exit status: 1".to_string() }.success());
    assert!(!ExitStatus { code: Some(-1), text: "exit status: -1".to_string() }.success());
    assert!(!ExitStatus { code: None, text: "signal: 15 (SIGTERM)".to_string() }.success());
}
