use focus::session::{
    BlockSession, FailureKind, SessionAction, SessionOutcome, SessionPhase, WaitStatus,
};
use focus::timer::{CancellableTimer, KeyInput, PollEvent, TimerState};

const MARKER: &str = "\n# ========== Temp Hosts =========";

// The tests below play the caller's part: the "files" are local strings,
// and every event the session would receive from real file operations is
// reported by hand.

#[test]
fn session_completes_and_restores() {
    let original = "127.0.0.1 localhost\n".to_string();
    let mut hosts_file = original.clone();

    let list = "example.com\nexample.com\n \ntest.org".to_string();
    let mut session = BlockSession::new(list, 300_000);
    assert_eq!(session.phase(), SessionPhase::Start);

    // Capture: the backup takes the current hosts content.
    let backup_file = hosts_file.clone();
    let action = session.on_capture_ok(hosts_file.clone());
    assert_eq!(action, SessionAction::WriteHosts);

    // Write: the staged content holds the original line plus exactly one
    // entry each for example.com and test.org, inside the markers.
    hosts_file = session.staged_content().clone();
    let expected = format!(
        "{}{}\n127.0.0.1\texample.com\n127.0.0.1\ttest.org{}",
        original, MARKER, MARKER
    );
    assert_eq!(hosts_file, expected);
    let action = session.on_write_ok();
    assert_eq!(action, SessionAction::RunTimer);

    // Wait: the configured duration elapses with no cancel key pressed.
    let mut timer = CancellableTimer::new(session.duration_ms());
    let mut elapsed: u64 = 0;
    let mut state = TimerState::Waiting;
    while state == TimerState::Waiting {
        elapsed += 1_000;
        state = timer.step(PollEvent::TimedOut, elapsed);
    }
    assert_eq!(state, TimerState::Completed);
    let action = session.on_wait_finished(WaitStatus::Completed);
    assert_eq!(action, SessionAction::RestoreHosts);

    // Restore: the hosts file gets back exactly the captured content.
    hosts_file = session.restore_content().clone();
    assert_eq!(hosts_file, backup_file);
    session.on_restore_ok();
    assert_eq!(session.outcome(), SessionOutcome::Completed);
    assert_eq!(hosts_file, original);
}

#[test]
fn session_cancelled_early_still_restores() {
    let original = "127.0.0.1 localhost\n".to_string();
    let mut hosts_file = original.clone();

    let list = "example.com\nexample.com\n \ntest.org".to_string();
    let mut session = BlockSession::new(list, 300_000);

    session.on_capture_ok(hosts_file.clone());
    hosts_file = session.staged_content().clone();
    assert_ne!(hosts_file, original);
    session.on_write_ok();

    // The cancel key is observed 2 seconds into the 300-second duration.
    let mut timer = CancellableTimer::new(session.duration_ms());
    assert_eq!(timer.step(PollEvent::TimedOut, 1_000), TimerState::Waiting);
    let state = timer.step(PollEvent::Key(KeyInput::Char('e')), 2_000);
    assert_eq!(state, TimerState::CancelledEarly);

    // The restore still occurs immediately.
    let action = session.on_wait_finished(WaitStatus::CancelledEarly);
    assert_eq!(action, SessionAction::RestoreHosts);
    hosts_file = session.restore_content().clone();
    session.on_restore_ok();

    assert_eq!(session.outcome(), SessionOutcome::CancelledEarly);
    assert_eq!(hosts_file, original);
}

#[test]
fn capture_failure_fails_without_restore() {
    let mut session = BlockSession::new("example.com\n".to_string(), 10_000);
    let action = session.on_capture_failed();
    assert_eq!(action, SessionAction::Finish);
    assert_eq!(session.outcome(), SessionOutcome::Failed(FailureKind::IoError));
}

#[test]
fn write_failure_restores_then_fails() {
    let original = "127.0.0.1 localhost\n".to_string();
    let mut session = BlockSession::new("example.com\n".to_string(), 10_000);
    session.on_capture_ok(original.clone());
    let action = session.on_write_failed();
    assert_eq!(action, SessionAction::RestoreHosts);
    assert_eq!(session.restore_content().clone(), original);
    session.on_restore_ok();
    assert_eq!(session.outcome(), SessionOutcome::Failed(FailureKind::IoError));
}

#[test]
fn restore_failure_overrides_a_completed_wait() {
    let original = "127.0.0.1 localhost\n".to_string();
    let mut session = BlockSession::new("example.com\n".to_string(), 10_000);
    session.on_capture_ok(original.clone());
    session.on_write_ok();
    session.on_wait_finished(WaitStatus::Completed);
    session.on_restore_failed();
    assert_eq!(
        session.outcome(),
        SessionOutcome::Failed(FailureKind::SnapshotMissingAtRestore)
    );
}

#[test]
fn empty_list_session_round_trips() {
    let original = "127.0.0.1 localhost\n".to_string();
    let mut hosts_file = original.clone();

    let mut session = BlockSession::new(String::new(), 1_000);
    session.on_capture_ok(hosts_file.clone());
    hosts_file = session.staged_content().clone();
    assert_eq!(hosts_file, format!("{}{}{}", original, MARKER, MARKER));
    session.on_write_ok();
    session.on_wait_finished(WaitStatus::Completed);
    hosts_file = session.restore_content().clone();
    session.on_restore_ok();
    assert_eq!(session.outcome(), SessionOutcome::Completed);
    assert_eq!(hosts_file, original);
}
