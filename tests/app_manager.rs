use github_monitor::app_manager::{
    AppManager, StopAction, StopReport, StopSequence, KILL_SETTLE_MS, RESTART_SETTLE_MS, START_GRACE_MS,
    STOP_POLL_MS, STOP_TIMEOUT_MS,
};
use github_monitor::error::ErrorKind;

fn supervisor(command: &[&str]) -> AppManager {
    AppManager::new("/srv/app".to_string(), command.iter().map(|c| c.to_string()).collect())
}

/// Drives a stop sequence to its end; `exits_at_poll` is the poll (counting from 1)
/// at which the process is found gone, if ever. Returns the actions and the sleep ordered.
fn drive_stop(mut seq: StopSequence, exits_at_poll: Option<usize>) -> (Vec<StopAction>, u64) {
    let mut actions = Vec::new();
    let mut slept = 0;
    let mut polls = 0;
    loop {
        let action = seq.action();
        actions.push(action);
        let report = match action {
            StopAction::Release => return (actions, slept),
            StopAction::Sleep(ms) => {
                slept += ms;
                StopReport::Done
            }
            StopAction::CheckExited => {
                polls += 1;
                if Some(polls) == exits_at_poll {
                    StopReport::Exited
                } else {
                    StopReport::StillRunning
                }
            }
            _ => StopReport::Done,
        };
        seq.advance(report);
    }
}

#[test]
fn start_while_running_is_refused() {
    let mut m = supervisor(&["python", "app.py"]);
    assert!(m.start(false).is_ok());
    m.record_launch(4242);
    let e = m.start(true).unwrap_err();
    assert_eq!(e.kind(), ErrorKind::AppManager);
    assert_eq!(e.message(), "Application is already running");
    assert_eq!(m.tracked_pid(), Some(4242));
    assert_eq!(m.get_pid(true), Some(4242));
}

#[test]
fn start_with_empty_command_is_refused() {
    let m = supervisor(&[]);
    let e = m.start(false).unwrap_err();
    assert_eq!(e.message(), "Start command is empty");
}

#[test]
fn start_plans_the_launch() {
    let m = supervisor(&["sleep", "5"]);
    let cmd = m.start(false).unwrap();
    assert_eq!(cmd.program, "sleep");
    assert_eq!(cmd.args, vec!["5".to_string()]);
    assert_eq!(cmd.dir, "/srv/app");
    assert_eq!(START_GRACE_MS, 500);
}

#[test]
fn running_after_grace_is_healthy() {
    let mut m = supervisor(&["sleep", "5"]);
    assert!(!m.is_running(true));
    m.start(false).unwrap();
    m.record_launch(1000);
    assert!(m.confirm_start(true));
    assert!(m.is_running(true));
    assert_eq!(m.health_check(true).unwrap(), true);
    assert_eq!(m.health_check(false).unwrap(), false);
    assert_eq!(m.get_pid(false), None);
}

#[test]
fn crash_within_grace_reports_both_streams() {
    let mut m = supervisor(&["sh", "-c", "echo out; echo err >&2; exit 3"]);
    m.start(false).unwrap();
    m.record_launch(77);
    assert!(!m.confirm_start(false));
    assert_eq!(m.tracked_pid(), None);
    let e = AppManager::crash_error(Some(("out\n".to_string(), "err\n".to_string())));
    assert!(e.message().contains("out\n"));
    assert!(e.message().contains("err\n"));
    assert_eq!(
        e.message(),
        "Application crashed immediately after start. stdout: out\n, stderr: err\n"
    );
    let e = AppManager::crash_error(None);
    assert_eq!(e.message(), "Application crashed immediately after start. ");
}

#[test]
fn spawn_failure_message() {
    let e = AppManager::spawn_error("No such file or directory (os error 2)");
    assert_eq!(e.message(), "Failed to start application: No such file or directory (os error 2)");
}

#[test]
fn stop_is_idempotent() {
    let mut m = supervisor(&["sleep", "5"]);
    assert!(m.stop(true).is_none());
    m.record_launch(55);
    let seq = m.stop(true).expect("a running process is stopped");
    let (actions, _) = drive_stop(seq, Some(1));
    assert_eq!(actions.last(), Some(&StopAction::Release));
    m.finish_stop();
    assert!(m.stop(true).is_none());
    assert!(m.stop(false).is_none());
    assert!(m.restart(true).is_none());
    assert_eq!(RESTART_SETTLE_MS, 500);
}

#[test]
fn stop_escalates_when_ignored() {
    let (actions, slept) = drive_stop(StopSequence::new(9), None);
    assert_eq!(actions[0], StopAction::SendTerm(9));
    let kill_at = actions.iter().position(|a| *a == StopAction::SendKill(9)).unwrap();
    let polls = actions[..kill_at].iter().filter(|a| **a == StopAction::CheckExited).count();
    assert_eq!(polls, 100);
    assert_eq!(actions[kill_at + 1], StopAction::Sleep(KILL_SETTLE_MS));
    assert_eq!(actions[kill_at + 2], StopAction::Reap);
    assert_eq!(actions[kill_at + 3], StopAction::Release);
    assert_eq!(actions.len(), 205);
    assert_eq!(slept, 10_500);
    assert!(slept >= 10_000 && slept <= 11_000);
    assert_eq!(STOP_TIMEOUT_MS / STOP_POLL_MS, 100);
}

#[test]
fn stop_after_graceful_exit_does_not_kill() {
    let (actions, slept) = drive_stop(StopSequence::new(3), Some(4));
    assert!(!actions.contains(&StopAction::SendKill(3)));
    assert_eq!(slept, 300);
    assert_eq!(actions.last(), Some(&StopAction::Release));
}

#[test]
fn failed_check_counts_as_running() {
    let mut seq = StopSequence::new(8);
    seq.advance(StopReport::Done);
    assert_eq!(seq.action(), StopAction::CheckExited);
    seq.advance(StopReport::CheckFailed);
    assert_eq!(seq.action(), StopAction::Sleep(STOP_POLL_MS));
}
