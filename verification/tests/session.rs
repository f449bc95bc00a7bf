use remote_console::protocol::{SessionError, SessionState, UiMessage, WorkerConfig, WorkerMessage};
use remote_console::session::{Action, Outcome, Phase, SessionManager, Step};
use std::time::{Duration, Instant};

fn lines(items: &[&str]) -> Vec<String> {
    items.iter().map(|s| s.to_string()).collect()
}

fn drive(manager: &mut SessionManager, outcome: Outcome) -> Step {
    match manager.step(outcome) {
        Ok(step) => step,
        Err(back) => panic!("outcome not awaited: {:?}", back),
    }
}

fn attached(pid: u32) -> SessionManager {
    let mut manager = SessionManager::new(WorkerConfig::default());
    let step = drive(&mut manager, Outcome::Command(UiMessage::Attach(pid)));
    assert!(matches!(step.action, Action::Attach(p) if p == pid));
    let step = drive(&mut manager, Outcome::Attached(Ok(())));
    assert!(matches!(step.action, Action::NextCommand));
    manager
}

fn is_console_call(action: &Action) -> bool {
    matches!(
        action,
        Action::Detach
            | Action::Attach(_)
            | Action::ReadLines(_)
            | Action::SendText(_)
            | Action::SendControl(_)
    )
}

#[test]
fn new_session_is_detached_and_awaits_the_queue() {
    let manager = SessionManager::new(WorkerConfig { interval: Duration::from_millis(20), lines: 7 });
    assert_eq!(manager.state(), SessionState::Detached);
    assert_eq!(manager.phase(), Phase::Draining);
    assert_eq!(manager.interval(), Duration::from_millis(20));
    assert_eq!(manager.line_count(), 7);
    assert!(!manager.is_stopped());
}

#[test]
fn default_config_is_half_a_second_and_a_hundred_lines() {
    let config = WorkerConfig::default();
    assert_eq!(config.interval, Duration::from_millis(500));
    assert_eq!(config.lines, 100);
}

#[test]
fn attach_success_reports_status() {
    let mut manager = SessionManager::new(WorkerConfig::default());
    let step = drive(&mut manager, Outcome::Command(UiMessage::Attach(4321)));
    assert!(step.events.is_empty());
    assert!(matches!(step.action, Action::Attach(4321)));
    assert_eq!(manager.state(), SessionState::Detached);
    assert_eq!(manager.phase(), Phase::Attaching { pid: 4321 });
    let step = drive(&mut manager, Outcome::Attached(Ok(())));
    assert_eq!(manager.state(), SessionState::Attached { pid: 4321 });
    assert_eq!(manager.phase(), Phase::Draining);
    assert_eq!(step.events.len(), 1);
    match &step.events[0] {
        WorkerMessage::Status(message) => assert_eq!(message, "attached to 4321"),
        other => panic!("unexpected event {:?}", other),
    }
    assert!(matches!(step.action, Action::NextCommand));
}

#[test]
fn attach_failure_stays_detached() {
    let mut manager = SessionManager::new(WorkerConfig::default());
    drive(&mut manager, Outcome::Command(UiMessage::Attach(77)));
    let step = drive(&mut manager, Outcome::Attached(Err("access denied".to_string())));
    assert_eq!(manager.state(), SessionState::Detached);
    assert_eq!(manager.phase(), Phase::Draining);
    assert_eq!(step.events.len(), 1);
    match &step.events[0] {
        WorkerMessage::Error(SessionError::AttachFailed { pid, reason }) => {
            assert_eq!(*pid, 77);
            assert_eq!(reason, "access denied");
        }
        other => panic!("unexpected event {:?}", other),
    }
    assert!(matches!(step.action, Action::NextCommand));
}

#[test]
fn first_poll_publishes_and_identical_poll_does_not() {
    let mut manager = attached(4321);
    let step = drive(&mut manager, Outcome::QueueEmpty);
    assert!(matches!(step.action, Action::ReadLines(100)));
    assert_eq!(manager.phase(), Phase::Reading);
    let at = Instant::now();
    let step = drive(
        &mut manager,
        Outcome::Lines { result: Ok(lines(&["C:\\>"])), observed_at: at },
    );
    assert_eq!(step.events.len(), 1);
    match &step.events[0] {
        WorkerMessage::Output { lines: published, timestamp } => {
            assert_eq!(published, &lines(&["C:\\>"]));
            assert_eq!(*timestamp, at);
        }
        other => panic!("unexpected event {:?}", other),
    }
    assert!(matches!(step.action, Action::Sleep(d) if d == Duration::from_millis(500)));
    let step = drive(&mut manager, Outcome::Slept);
    assert!(matches!(step.action, Action::NextCommand));
    let step = drive(&mut manager, Outcome::QueueEmpty);
    assert!(matches!(step.action, Action::ReadLines(100)));
    let step = drive(
        &mut manager,
        Outcome::Lines { result: Ok(lines(&["C:\\>"])), observed_at: Instant::now() },
    );
    assert!(step.events.is_empty());
    assert!(matches!(step.action, Action::Sleep(_)));
    assert_eq!(manager.state(), SessionState::Attached { pid: 4321 });
}

#[test]
fn changed_poll_publishes_again() {
    let mut manager = attached(5);
    drive(&mut manager, Outcome::QueueEmpty);
    drive(&mut manager, Outcome::Lines { result: Ok(lines(&["a", ""])), observed_at: Instant::now() });
    drive(&mut manager, Outcome::Slept);
    drive(&mut manager, Outcome::QueueEmpty);
    let step = drive(
        &mut manager,
        Outcome::Lines { result: Ok(lines(&["a"])), observed_at: Instant::now() },
    );
    assert_eq!(step.events.len(), 1);
    assert!(matches!(&step.events[0], WorkerMessage::Output { lines: l, .. } if l == &lines(&["a"])));
}

#[test]
fn send_text_while_detached_is_refused_without_console_calls() {
    let mut manager = SessionManager::new(WorkerConfig::default());
    let step = drive(&mut manager, Outcome::Command(UiMessage::SendText("dir".to_string())));
    assert_eq!(step.events.len(), 1);
    assert!(matches!(&step.events[0], WorkerMessage::Error(SessionError::NotAttached)));
    assert!(matches!(step.action, Action::NextCommand));
    assert!(!is_console_call(&step.action));
    assert_eq!(manager.state(), SessionState::Detached);
    assert_eq!(manager.phase(), Phase::Draining);
}

#[test]
fn send_control_while_detached_is_refused_without_console_calls() {
    let mut manager = SessionManager::new(WorkerConfig::default());
    let step = drive(&mut manager, Outcome::Command(UiMessage::SendControl(0x0d)));
    assert_eq!(step.events.len(), 1);
    assert!(matches!(&step.events[0], WorkerMessage::Error(SessionError::NotAttached)));
    assert!(matches!(step.action, Action::NextCommand));
    assert_eq!(manager.state(), SessionState::Detached);
}

#[test]
fn send_text_while_attached_reaches_the_console() {
    let mut manager = attached(9);
    let step = drive(&mut manager, Outcome::Command(UiMessage::SendText("dir".to_string())));
    assert!(step.events.is_empty());
    assert!(matches!(&step.action, Action::SendText(text) if text == "dir"));
    assert_eq!(manager.phase(), Phase::Writing);
    let step = drive(&mut manager, Outcome::Written(Ok(())));
    assert!(step.events.is_empty());
    assert!(matches!(step.action, Action::NextCommand));
    assert_eq!(manager.state(), SessionState::Attached { pid: 9 });
}

#[test]
fn send_control_failure_is_reported_and_keeps_the_binding() {
    let mut manager = attached(9);
    let step = drive(&mut manager, Outcome::Command(UiMessage::SendControl(3)));
    assert!(matches!(step.action, Action::SendControl(3)));
    let step = drive(&mut manager, Outcome::Written(Err("pipe closed".to_string())));
    assert_eq!(step.events.len(), 1);
    match &step.events[0] {
        WorkerMessage::Error(SessionError::WriteFailed { reason }) => assert_eq!(reason, "pipe closed"),
        other => panic!("unexpected event {:?}", other),
    }
    assert_eq!(manager.state(), SessionState::Attached { pid: 9 });
    assert_eq!(manager.phase(), Phase::Draining);
}

#[test]
fn read_failure_disconnects_once() {
    let mut manager = attached(4321);
    drive(&mut manager, Outcome::QueueEmpty);
    let step = drive(
        &mut manager,
        Outcome::Lines { result: Err("handle invalid".to_string()), observed_at: Instant::now() },
    );
    assert_eq!(step.events.len(), 1);
    assert!(matches!(&step.events[0], WorkerMessage::Disconnected));
    assert!(matches!(step.action, Action::Sleep(_)));
    assert_eq!(manager.state(), SessionState::Detached);
    drive(&mut manager, Outcome::Slept);
    let step = drive(&mut manager, Outcome::QueueEmpty);
    assert!(step.events.is_empty());
    assert!(matches!(step.action, Action::Sleep(_)));
}

#[test]
fn attach_then_attach_is_resolved_in_order() {
    let mut manager = SessionManager::new(WorkerConfig::default());
    let mut calls: Vec<String> = Vec::new();
    let step = drive(&mut manager, Outcome::Command(UiMessage::Attach(111)));
    calls.push(format!("{:?}", step.action));
    let step = drive(&mut manager, Outcome::Attached(Ok(())));
    assert!(matches!(step.action, Action::NextCommand));
    assert_eq!(manager.state(), SessionState::Attached { pid: 111 });
    let step = drive(&mut manager, Outcome::Command(UiMessage::Attach(222)));
    calls.push(format!("{:?}", step.action));
    assert_eq!(manager.phase(), Phase::Replacing { pid: 222 });
    let step = drive(&mut manager, Outcome::Detached(Ok(())));
    calls.push(format!("{:?}", step.action));
    assert!(step.events.is_empty());
    assert_eq!(manager.state(), SessionState::Detached);
    let step = drive(&mut manager, Outcome::Attached(Ok(())));
    assert!(matches!(&step.events[0], WorkerMessage::Status(m) if m == "attached to 222"));
    assert_eq!(manager.state(), SessionState::Attached { pid: 222 });
    assert_eq!(calls, vec!["Attach(111)", "Detach", "Attach(222)"]);
}

#[test]
fn command_is_handed_back_while_an_operation_is_outstanding() {
    let mut manager = SessionManager::new(WorkerConfig::default());
    drive(&mut manager, Outcome::Command(UiMessage::Attach(111)));
    match manager.step(Outcome::Command(UiMessage::Attach(222))) {
        Err(Outcome::Command(UiMessage::Attach(222))) => {}
        other => panic!("unexpected answer {:?}", other),
    }
    assert_eq!(manager.phase(), Phase::Attaching { pid: 111 });
    assert_eq!(manager.state(), SessionState::Detached);
}

#[test]
fn failed_stale_detach_does_not_block_the_attach() {
    let mut manager = attached(1);
    drive(&mut manager, Outcome::Command(UiMessage::Attach(2)));
    let step = drive(&mut manager, Outcome::Detached(Err("busy".to_string())));
    assert_eq!(step.events.len(), 1);
    match &step.events[0] {
        WorkerMessage::Error(SessionError::DetachFailed { reason }) => assert_eq!(reason, "busy"),
        other => panic!("unexpected event {:?}", other),
    }
    assert!(matches!(step.action, Action::Attach(2)));
    let step = drive(&mut manager, Outcome::Attached(Ok(())));
    assert_eq!(step.events.len(), 1);
    assert_eq!(manager.state(), SessionState::Attached { pid: 2 });
}

#[test]
fn detach_releases_and_reports() {
    let mut manager = attached(8);
    let step = drive(&mut manager, Outcome::Command(UiMessage::Detach));
    assert!(matches!(step.action, Action::Detach));
    assert_eq!(manager.phase(), Phase::Releasing);
    let step = drive(&mut manager, Outcome::Detached(Ok(())));
    assert_eq!(step.events.len(), 1);
    assert!(matches!(&step.events[0], WorkerMessage::Status(m) if m == "detached"));
    assert_eq!(manager.state(), SessionState::Detached);
    assert!(matches!(step.action, Action::NextCommand));
}

#[test]
fn failed_detach_is_logged_and_still_detaches() {
    let mut manager = attached(8);
    drive(&mut manager, Outcome::Command(UiMessage::Detach));
    let step = drive(&mut manager, Outcome::Detached(Err("gone".to_string())));
    assert_eq!(step.events.len(), 2);
    assert!(matches!(&step.events[0], WorkerMessage::Error(SessionError::DetachFailed { reason }) if reason == "gone"));
    assert!(matches!(&step.events[1], WorkerMessage::Status(m) if m == "detached"));
    assert_eq!(manager.state(), SessionState::Detached);
}

#[test]
fn detach_while_detached_only_confirms() {
    let mut manager = SessionManager::new(WorkerConfig::default());
    let step = drive(&mut manager, Outcome::Command(UiMessage::Detach));
    assert!(matches!(step.action, Action::NextCommand));
    assert_eq!(step.events.len(), 1);
    assert!(matches!(&step.events[0], WorkerMessage::Status(m) if m == "detached"));
    assert_eq!(manager.state(), SessionState::Detached);
    assert_eq!(manager.phase(), Phase::Draining);
}

#[test]
fn reattach_publishes_the_same_content_again() {
    let mut manager = attached(4);
    drive(&mut manager, Outcome::QueueEmpty);
    let step = drive(&mut manager, Outcome::Lines { result: Ok(lines(&["x", "y"])), observed_at: Instant::now() });
    assert_eq!(step.events.len(), 1);
    drive(&mut manager, Outcome::Slept);
    drive(&mut manager, Outcome::Command(UiMessage::Detach));
    drive(&mut manager, Outcome::Detached(Ok(())));
    drive(&mut manager, Outcome::Command(UiMessage::Attach(4)));
    drive(&mut manager, Outcome::Attached(Ok(())));
    drive(&mut manager, Outcome::QueueEmpty);
    let step = drive(&mut manager, Outcome::Lines { result: Ok(lines(&["x", "y"])), observed_at: Instant::now() });
    assert_eq!(step.events.len(), 1);
    assert!(matches!(&step.events[0], WorkerMessage::Output { lines: l, .. } if l == &lines(&["x", "y"])));
}

#[test]
fn reattach_after_disconnect_publishes_again() {
    let mut manager = attached(4);
    drive(&mut manager, Outcome::QueueEmpty);
    drive(&mut manager, Outcome::Lines { result: Ok(lines(&["x"])), observed_at: Instant::now() });
    drive(&mut manager, Outcome::Slept);
    drive(&mut manager, Outcome::QueueEmpty);
    drive(&mut manager, Outcome::Lines { result: Err("lost".to_string()), observed_at: Instant::now() });
    drive(&mut manager, Outcome::Slept);
    drive(&mut manager, Outcome::Command(UiMessage::Attach(4)));
    drive(&mut manager, Outcome::Attached(Ok(())));
    drive(&mut manager, Outcome::QueueEmpty);
    let step = drive(&mut manager, Outcome::Lines { result: Ok(lines(&["x"])), observed_at: Instant::now() });
    assert_eq!(step.events.len(), 1);
}

#[test]
fn empty_first_read_publishes_nothing() {
    let mut manager = attached(4);
    drive(&mut manager, Outcome::QueueEmpty);
    let step = drive(&mut manager, Outcome::Lines { result: Ok(Vec::new()), observed_at: Instant::now() });
    assert!(step.events.is_empty());
}

#[test]
fn cadence_changes_take_effect_on_the_next_poll() {
    let mut manager = attached(4);
    let step = drive(&mut manager, Outcome::Command(UiMessage::SetLines(25)));
    assert!(step.events.is_empty());
    assert!(matches!(step.action, Action::NextCommand));
    let step = drive(&mut manager, Outcome::Command(UiMessage::SetInterval(Duration::from_millis(40))));
    assert!(step.events.is_empty());
    assert_eq!(manager.line_count(), 25);
    assert_eq!(manager.interval(), Duration::from_millis(40));
    let step = drive(&mut manager, Outcome::QueueEmpty);
    assert!(matches!(step.action, Action::ReadLines(25)));
    let step = drive(&mut manager, Outcome::Lines { result: Ok(lines(&["z"])), observed_at: Instant::now() });
    assert!(matches!(step.action, Action::Sleep(d) if d == Duration::from_millis(40)));
}

#[test]
fn detached_round_only_sleeps() {
    let mut manager = SessionManager::new(WorkerConfig::default());
    let step = drive(&mut manager, Outcome::QueueEmpty);
    assert!(step.events.is_empty());
    assert!(matches!(step.action, Action::Sleep(d) if d == Duration::from_millis(500)));
    assert_eq!(manager.phase(), Phase::Sleeping);
}

#[test]
fn stop_while_attached_detaches_then_exits() {
    let mut manager = attached(4);
    let step = drive(&mut manager, Outcome::Command(UiMessage::Stop));
    assert!(matches!(step.action, Action::Detach));
    assert_eq!(manager.phase(), Phase::Finishing);
    let step = drive(&mut manager, Outcome::Detached(Err("late".to_string())));
    assert_eq!(step.events.len(), 1);
    assert!(matches!(&step.events[0], WorkerMessage::Error(SessionError::DetachFailed { .. })));
    assert!(matches!(step.action, Action::Exit));
    assert!(manager.is_stopped());
    assert_eq!(manager.state(), SessionState::Detached);
}

#[test]
fn stop_while_detached_exits_at_once() {
    let mut manager = SessionManager::new(WorkerConfig::default());
    let step = drive(&mut manager, Outcome::Command(UiMessage::Stop));
    assert!(step.events.is_empty());
    assert!(matches!(step.action, Action::Exit));
    assert!(manager.is_stopped());
}

#[test]
fn closed_queue_ends_the_session_like_stop() {
    let mut manager = attached(4);
    let step = drive(&mut manager, Outcome::QueueClosed);
    assert!(matches!(step.action, Action::Detach));
    let step = drive(&mut manager, Outcome::Detached(Ok(())));
    assert!(step.events.is_empty());
    assert!(matches!(step.action, Action::Exit));
    assert!(manager.is_stopped());
}

#[test]
fn stopped_session_awaits_nothing() {
    let mut manager = SessionManager::new(WorkerConfig::default());
    drive(&mut manager, Outcome::Command(UiMessage::Stop));
    assert!(matches!(manager.step(Outcome::Slept), Err(Outcome::Slept)));
    assert!(matches!(manager.step(Outcome::QueueEmpty), Err(Outcome::QueueEmpty)));
    assert!(manager.is_stopped());
}

#[test]
fn at_most_one_binding_over_a_mixed_run() {
    let mut manager = SessionManager::new(WorkerConfig::default());
    let mut ledger: Vec<u32> = Vec::new();
    let commands = vec![
        UiMessage::Attach(1),
        UiMessage::SendText("a".to_string()),
        UiMessage::Attach(2),
        UiMessage::Detach,
        UiMessage::Attach(3),
        UiMessage::Attach(4),
        UiMessage::Stop,
    ];
    for command in commands {
        let mut step = drive(&mut manager, Outcome::Command(command));
        loop {
            let outcome = match step.action {
                Action::Attach(pid) => {
                    ledger.push(pid);
                    Outcome::Attached(Ok(()))
                }
                Action::Detach => {
                    ledger.clear();
                    Outcome::Detached(Ok(()))
                }
                Action::SendText(_) | Action::SendControl(_) => Outcome::Written(Ok(())),
                _ => break,
            };
            assert!(ledger.len() <= 1);
            step = drive(&mut manager, outcome);
        }
        match manager.state() {
            SessionState::Attached { pid } => assert_eq!(ledger, vec![pid]),
            SessionState::Detached => assert!(ledger.is_empty()),
        }
    }
    assert!(manager.is_stopped());
}
