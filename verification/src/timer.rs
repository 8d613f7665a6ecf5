//! The cancellable timer: a cooperative wait modelled as a state machine.
//!
//! The wait loop polls at a short interval instead of blocking for the full
//! duration. Each poll either delivers a key or reports that the interval
//! passed quietly; the step function decides whether the wait goes on, has
//! completed, or was cancelled early. The surrounding loop — raw terminal
//! mode, the actual polling — performs no decision of its own.

use vstd::prelude::*;

verus! {

/// A single key observed while waiting.
#[derive(Clone, Copy, PartialEq, Eq, Structural, Debug)]
pub enum KeyInput {
    /// A printable character key.
    Char(char),
    /// The escape key.
    Escape,
    /// Any other key.
    Other,
}

/// What one poll of the wait loop observed.
#[derive(Clone, Copy, PartialEq, Eq, Structural, Debug)]
pub enum PollEvent {
    /// A key arrived within the polling interval.
    Key(KeyInput),
    /// The polling interval elapsed with no input.
    TimedOut,
}

/// The timer's state: waiting, or one of the two terminal outcomes.
#[derive(Clone, Copy, PartialEq, Eq, Structural, Debug)]
pub enum TimerState {
    Waiting,
    Completed,
    CancelledEarly,
}

/// The keys that cancel the wait: `'e'` or the escape key.
pub open spec fn is_cancel_key(k: KeyInput) -> bool {
    k == KeyInput::Char('e') || k == KeyInput::Escape
}

/// One step of the wait loop: a cancel key ends the wait early; a quiet
/// interval completes it once the configured duration has elapsed; any
/// other observation leaves the timer waiting. Terminal states never
/// change.
pub open spec fn timer_step(
    state: TimerState,
    event: PollEvent,
    elapsed_ms: u64,
    duration_ms: u64,
) -> TimerState {
    match state {
        TimerState::Waiting => match event {
            PollEvent::Key(k) => if is_cancel_key(k) {
                TimerState::CancelledEarly
            } else {
                TimerState::Waiting
            },
            PollEvent::TimedOut => if elapsed_ms >= duration_ms {
                TimerState::Completed
            } else {
                TimerState::Waiting
            },
        },
        _ => state,
    }
}

/// Once terminal, the timer does not resume: `Completed` and
/// `CancelledEarly` are fixed points of the step relation, whatever
/// arrives and however much time passes.
pub proof fn lemma_terminal_states_are_final(
    state: TimerState,
    event: PollEvent,
    elapsed_ms: u64,
    duration_ms: u64,
)
    requires
        state != TimerState::Waiting,
    ensures
        timer_step(state, event, elapsed_ms, duration_ms) == state,
{
}

/// A timer for one bounded, cancellable wait.
pub struct CancellableTimer {
    duration_ms: u64,
    state: TimerState,
}

impl CancellableTimer {
    /// The configured duration, in milliseconds.
    pub closed spec fn spec_duration_ms(&self) -> u64 {
        self.duration_ms
    }

    /// The current state.
    pub closed spec fn spec_state(&self) -> TimerState {
        self.state
    }

    /// A fresh timer waits.
    pub fn new(duration_ms: u64) -> (t: Self)
        ensures
            t.spec_duration_ms() == duration_ms,
            t.spec_state() == TimerState::Waiting,
    {
        CancellableTimer { duration_ms, state: TimerState::Waiting }
    }

    /// The configured duration, in milliseconds.
    pub fn duration_ms(&self) -> (d: u64)
        ensures
            d == self.spec_duration_ms(),
    {
        self.duration_ms
    }

    /// The current state.
    pub fn state(&self) -> (s: TimerState)
        ensures
            s == self.spec_state(),
    {
        self.state
    }

    /// Feeds one poll observation to the timer, exactly as [`timer_step`]
    /// describes, and reports the state the timer is then in.
    pub fn step(&mut self, event: PollEvent, elapsed_ms: u64) -> (s: TimerState)
        ensures
            final(self).spec_state() == timer_step(
                old(self).spec_state(),
                event,
                elapsed_ms,
                old(self).spec_duration_ms(),
            ),
            final(self).spec_duration_ms() == old(self).spec_duration_ms(),
            s == final(self).spec_state(),
    {
        match self.state {
            TimerState::Waiting => {
                match event {
                    PollEvent::Key(k) => {
                        if k == KeyInput::Char('e') || k == KeyInput::Escape {
                            self.state = TimerState::CancelledEarly;
                        }
                    },
                    PollEvent::TimedOut => {
                        if elapsed_ms >= self.duration_ms {
                            self.state = TimerState::Completed;
                        }
                    },
                }
            },
            _ => {},
        }
        self.state
    }
}

} // verus!
