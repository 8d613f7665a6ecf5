use focus::timer::{CancellableTimer, KeyInput, PollEvent, TimerState};

#[test]
fn cancel_key_ends_wait_early() {
    let mut timer = CancellableTimer::new(300_000);
    assert_eq!(timer.state(), TimerState::Waiting);
    let s = timer.step(PollEvent::Key(KeyInput::Char('e')), 2_000);
    assert_eq!(s, TimerState::CancelledEarly);
}

#[test]
fn escape_key_ends_wait_early() {
    let mut timer = CancellableTimer::new(300_000);
    let s = timer.step(PollEvent::Key(KeyInput::Escape), 500);
    assert_eq!(s, TimerState::CancelledEarly);
}

#[test]
fn other_keys_are_ignored() {
    let mut timer = CancellableTimer::new(10_000);
    assert_eq!(timer.step(PollEvent::Key(KeyInput::Char('q')), 1_000), TimerState::Waiting);
    assert_eq!(timer.step(PollEvent::Key(KeyInput::Other), 2_000), TimerState::Waiting);
}

#[test]
fn quiet_interval_completes_only_after_duration() {
    let mut timer = CancellableTimer::new(3_000);
    assert_eq!(timer.step(PollEvent::TimedOut, 1_000), TimerState::Waiting);
    assert_eq!(timer.step(PollEvent::TimedOut, 2_999), TimerState::Waiting);
    assert_eq!(timer.step(PollEvent::TimedOut, 3_000), TimerState::Completed);
}

#[test]
fn terminal_states_do_not_resume() {
    let mut timer = CancellableTimer::new(1_000);
    assert_eq!(timer.step(PollEvent::TimedOut, 1_000), TimerState::Completed);
    assert_eq!(timer.step(PollEvent::Key(KeyInput::Char('e')), 1_500), TimerState::Completed);

    let mut cancelled = CancellableTimer::new(1_000);
    cancelled.step(PollEvent::Key(KeyInput::Escape), 100);
    assert_eq!(cancelled.step(PollEvent::TimedOut, 5_000), TimerState::CancelledEarly);
}
