//! The block session: one run of snapshot → rewrite → write → wait →
//! restore, driven as a state machine.
//!
//! The session decides; the caller performs. Every file operation is an
//! event reported back to the machine, which answers with the next action
//! to take. The machine holds the captured snapshot verbatim and hands it
//! back for the restore, and the step relation makes the central guarantee
//! provable: once the hosts file may have been touched, no sequence of
//! events reaches the finished phase without the restore step reporting
//! back first.

use vstd::prelude::*;

use crate::hosts::{rewrite_hosts_contents_to_block_websites, rewrite_spec};

verus! {

/// Why a session failed.
#[derive(Clone, Copy, PartialEq, Eq, Structural, Debug)]
pub enum FailureKind {
    /// No prior setup: the configuration that locates the list is missing.
    ConfigurationMissing,
    /// The hosts file or the backup file could not be read or written.
    IoError,
    /// The gravest condition: the hosts file was altered but the backup
    /// could not be read back, so the machine is left blocked.
    SnapshotMissingAtRestore,
}

/// How a session ended.
#[derive(Clone, Copy, PartialEq, Eq, Structural, Debug)]
pub enum SessionOutcome {
    /// The configured duration elapsed.
    Completed,
    /// The user cancelled the wait early.
    CancelledEarly,
    /// The session failed; the kind says where.
    Failed(FailureKind),
}

/// How the timed wait ended, as reported back to the session.
#[derive(Clone, Copy, PartialEq, Eq, Structural, Debug)]
pub enum WaitStatus {
    /// The wait ran its full duration.
    Completed,
    /// A cancel key ended the wait early.
    CancelledEarly,
    /// The wait itself failed; the session still restores.
    Failed,
}

/// The phase a session is in.
#[derive(Clone, Copy, PartialEq, Eq, Structural, Debug)]
pub enum SessionPhase {
    /// Created; the snapshot has not been captured yet.
    Start,
    /// Snapshot captured and new content staged; the hosts file is about
    /// to be overwritten.
    Writing,
    /// The hosts file holds the blocking content; the timed wait runs.
    Waiting,
    /// The wait is over (or a write failed); the restore is pending.
    Restoring,
    /// Terminal: the outcome is available.
    Done,
}

/// What the caller must do next.
#[derive(Clone, Copy, PartialEq, Eq, Structural, Debug)]
pub enum SessionAction {
    /// Overwrite the hosts file with the staged content.
    WriteHosts,
    /// Run the cancellable timed wait.
    RunTimer,
    /// Write the snapshot content back over the hosts file.
    RestoreHosts,
    /// Nothing remains; read the outcome.
    Finish,
}

/// An event reported back to the session, at the specification level.
pub enum SessionEvent {
    /// The hosts file was read and its content persisted as the backup.
    CaptureOk(Seq<char>),
    /// The hosts file or the backup could not be captured.
    CaptureFailed,
    /// The staged content was written to the hosts file.
    WriteOk,
    /// The staged content could not be written.
    WriteFailed,
    /// The timed wait ended.
    WaitFinished(WaitStatus),
    /// The snapshot was written back over the hosts file.
    RestoreOk,
    /// The snapshot could not be written back.
    RestoreFailed,
}

/// The session state, at the specification level.
pub struct SessionModel {
    pub phase: SessionPhase,
    /// The raw domain-list text the session was created with.
    pub websites_list: Seq<char>,
    /// The configured wait, in milliseconds.
    pub duration_ms: u64,
    /// The captured pre-session hosts content, once known.
    pub snapshot: Option<Seq<char>>,
    /// The rewritten hosts content to write, once computed.
    pub staged: Option<Seq<char>>,
    /// The outcome to report unless the restore itself fails.
    pub pending: Option<SessionOutcome>,
    /// The final outcome, once the session is done.
    pub outcome: Option<SessionOutcome>,
}

/// The state of a freshly created session.
pub open spec fn initial_session(websites_list: Seq<char>, duration_ms: u64) -> SessionModel {
    SessionModel {
        phase: SessionPhase::Start,
        websites_list: websites_list,
        duration_ms: duration_ms,
        snapshot: None,
        staged: None,
        pending: None,
        outcome: None,
    }
}

/// The outcome a finished wait stands for.
pub open spec fn outcome_of_wait(w: WaitStatus) -> SessionOutcome {
    match w {
        WaitStatus::Completed => SessionOutcome::Completed,
        WaitStatus::CancelledEarly => SessionOutcome::CancelledEarly,
        WaitStatus::Failed => SessionOutcome::Failed(FailureKind::IoError),
    }
}

/// The session's step relation. An event that does not belong to the
/// current phase changes nothing.
pub open spec fn session_step(s: SessionModel, e: SessionEvent) -> SessionModel {
    match (s.phase, e) {
        (SessionPhase::Start, SessionEvent::CaptureOk(content)) => SessionModel {
            phase: SessionPhase::Writing,
            snapshot: Some(content),
            staged: Some(rewrite_spec(content, s.websites_list)),
            ..s
        },
        (SessionPhase::Start, SessionEvent::CaptureFailed) => SessionModel {
            phase: SessionPhase::Done,
            outcome: Some(SessionOutcome::Failed(FailureKind::IoError)),
            ..s
        },
        (SessionPhase::Writing, SessionEvent::WriteOk) => SessionModel {
            phase: SessionPhase::Waiting,
            ..s
        },
        (SessionPhase::Writing, SessionEvent::WriteFailed) => SessionModel {
            phase: SessionPhase::Restoring,
            pending: Some(SessionOutcome::Failed(FailureKind::IoError)),
            ..s
        },
        (SessionPhase::Waiting, SessionEvent::WaitFinished(w)) => SessionModel {
            phase: SessionPhase::Restoring,
            pending: Some(outcome_of_wait(w)),
            ..s
        },
        (SessionPhase::Restoring, SessionEvent::RestoreOk) => SessionModel {
            phase: SessionPhase::Done,
            outcome: s.pending,
            ..s
        },
        (SessionPhase::Restoring, SessionEvent::RestoreFailed) => SessionModel {
            phase: SessionPhase::Done,
            outcome: Some(SessionOutcome::Failed(FailureKind::SnapshotMissingAtRestore)),
            ..s
        },
        _ => s,
    }
}

/// The action the caller must take after an event, mirroring
/// [`session_step`].
pub open spec fn session_action(s: SessionModel, e: SessionEvent) -> SessionAction {
    match (s.phase, e) {
        (SessionPhase::Start, SessionEvent::CaptureOk(_)) => SessionAction::WriteHosts,
        (SessionPhase::Start, SessionEvent::CaptureFailed) => SessionAction::Finish,
        (SessionPhase::Writing, SessionEvent::WriteOk) => SessionAction::RunTimer,
        (SessionPhase::Writing, SessionEvent::WriteFailed) => SessionAction::RestoreHosts,
        (SessionPhase::Waiting, SessionEvent::WaitFinished(_)) => SessionAction::RestoreHosts,
        (SessionPhase::Restoring, SessionEvent::RestoreOk) => SessionAction::Finish,
        (SessionPhase::Restoring, SessionEvent::RestoreFailed) => SessionAction::Finish,
        _ => SessionAction::Finish,
    }
}

/// Well-formedness: each phase has the data it needs in hand.
pub open spec fn session_wf(s: SessionModel) -> bool {
    &&& (s.phase == SessionPhase::Writing || s.phase == SessionPhase::Waiting || s.phase
        == SessionPhase::Restoring) ==> (s.snapshot is Some && s.staged is Some)
    &&& s.phase == SessionPhase::Restoring ==> s.pending is Some
    &&& s.phase == SessionPhase::Done ==> s.outcome is Some
}

/// A sequence of events applied in order.
pub open spec fn run_session(s: SessionModel, events: Seq<SessionEvent>) -> SessionModel
    decreases events.len(),
{
    if events.len() == 0 {
        s
    } else {
        run_session(session_step(s, events[0]), events.drop_first())
    }
}

/// The events that report the restore step back, successful or not.
pub open spec fn is_restore_event(e: SessionEvent) -> bool {
    match e {
        SessionEvent::RestoreOk => true,
        SessionEvent::RestoreFailed => true,
        _ => false,
    }
}

/// Guaranteed restore: once the session has captured a snapshot and moved
/// on to mutating the hosts file — whether the wait then completes, is
/// cancelled early, or fails — no sequence of events reaches the finished
/// phase without a restore event among them.
pub proof fn lemma_restore_runs_before_finish(s: SessionModel, events: Seq<SessionEvent>)
    requires
        s.phase == SessionPhase::Writing || s.phase == SessionPhase::Waiting || s.phase
            == SessionPhase::Restoring,
        run_session(s, events).phase == SessionPhase::Done,
    ensures
        exists|i: int| 0 <= i < events.len() && is_restore_event(#[trigger] events[i]),
    decreases events.len(),
{
    let e0 = events[0];
    let next = session_step(s, e0);
    if is_restore_event(e0) {
        assert(is_restore_event(events[0]));
    } else {
        assert(next.phase == SessionPhase::Writing || next.phase == SessionPhase::Waiting
            || next.phase == SessionPhase::Restoring);
        lemma_restore_runs_before_finish(next, events.drop_first());
        let j = choose|j: int|
            0 <= j < events.drop_first().len() && is_restore_event(
                #[trigger] events.drop_first()[j],
            );
        assert(is_restore_event(events[j + 1]));
    }
}

/// The captured snapshot is never altered by later events: whatever
/// happens after the capture, a restore always hands back exactly the
/// captured content.
pub proof fn lemma_snapshot_preserved(s: SessionModel, events: Seq<SessionEvent>)
    requires
        s.phase != SessionPhase::Start,
    ensures
        run_session(s, events).snapshot == s.snapshot,
    decreases events.len(),
{
    if events.len() > 0 {
        lemma_snapshot_preserved(session_step(s, events[0]), events.drop_first());
    }
}

/// One block session, from creation to its reported outcome.
pub struct BlockSession {
    phase: SessionPhase,
    websites_list: String,
    duration_ms: u64,
    snapshot: Option<String>,
    staged: Option<String>,
    pending: Option<SessionOutcome>,
    outcome: Option<SessionOutcome>,
}

impl View for BlockSession {
    type V = SessionModel;

    closed spec fn view(&self) -> SessionModel {
        SessionModel {
            phase: self.phase,
            websites_list: self.websites_list@,
            duration_ms: self.duration_ms,
            snapshot: match self.snapshot {
                Some(ref s) => Some(s@),
                None => None,
            },
            staged: match self.staged {
                Some(ref s) => Some(s@),
                None => None,
            },
            pending: self.pending,
            outcome: self.outcome,
        }
    }
}

impl BlockSession {
    /// Creates a session for the given raw domain-list text and wait
    /// duration. The first action is to capture the hosts file.
    pub fn new(websites_list: String, duration_ms: u64) -> (s: Self)
        ensures
            s@ == initial_session(websites_list@, duration_ms),
            session_wf(s@),
    {
        BlockSession {
            phase: SessionPhase::Start,
            websites_list,
            duration_ms,
            snapshot: None,
            staged: None,
            pending: None,
            outcome: None,
        }
    }

    /// The configured wait, in milliseconds.
    pub fn duration_ms(&self) -> (d: u64)
        ensures
            d == self@.duration_ms,
    {
        self.duration_ms
    }

    /// The phase the session is in.
    pub fn phase(&self) -> (p: SessionPhase)
        ensures
            p == self@.phase,
    {
        self.phase
    }

    /// The hosts file was read and persisted as the backup: the session
    /// stores the snapshot verbatim and stages the rewritten content.
    pub fn on_capture_ok(&mut self, hosts_content: String) -> (a: SessionAction)
        requires
            old(self)@.phase == SessionPhase::Start,
            session_wf(old(self)@),
        ensures
            final(self)@ == session_step(old(self)@, SessionEvent::CaptureOk(hosts_content@)),
            a == session_action(old(self)@, SessionEvent::CaptureOk(hosts_content@)),
            session_wf(final(self)@),
    {
        let staged = rewrite_hosts_contents_to_block_websites(
            hosts_content.as_str(),
            self.websites_list.as_str(),
        );
        self.snapshot = Some(hosts_content);
        self.staged = Some(staged);
        self.phase = SessionPhase::Writing;
        SessionAction::WriteHosts
    }

    /// The hosts file could not be captured: nothing was mutated, so the
    /// session fails immediately and no restore is needed.
    pub fn on_capture_failed(&mut self) -> (a: SessionAction)
        requires
            old(self)@.phase == SessionPhase::Start,
            session_wf(old(self)@),
        ensures
            final(self)@ == session_step(old(self)@, SessionEvent::CaptureFailed),
            a == session_action(old(self)@, SessionEvent::CaptureFailed),
            session_wf(final(self)@),
    {
        self.outcome = Some(SessionOutcome::Failed(FailureKind::IoError));
        self.phase = SessionPhase::Done;
        SessionAction::Finish
    }

    /// The staged content to write over the hosts file.
    pub fn staged_content(&self) -> (r: &String)
        requires
            self@.phase == SessionPhase::Writing,
            session_wf(self@),
        ensures
            Some(r@) == self@.staged,
    {
        match &self.staged {
            Some(s) => s,
            None => unreached(),
        }
    }

    /// The staged content was written: the block is in place, the timed
    /// wait begins.
    pub fn on_write_ok(&mut self) -> (a: SessionAction)
        requires
            old(self)@.phase == SessionPhase::Writing,
            session_wf(old(self)@),
        ensures
            final(self)@ == session_step(old(self)@, SessionEvent::WriteOk),
            a == session_action(old(self)@, SessionEvent::WriteOk),
            session_wf(final(self)@),
    {
        self.phase = SessionPhase::Waiting;
        SessionAction::RunTimer
    }

    /// The write failed: the session still restores, as a best effort, and
    /// will report the failure.
    pub fn on_write_failed(&mut self) -> (a: SessionAction)
        requires
            old(self)@.phase == SessionPhase::Writing,
            session_wf(old(self)@),
        ensures
            final(self)@ == session_step(old(self)@, SessionEvent::WriteFailed),
            a == session_action(old(self)@, SessionEvent::WriteFailed),
            session_wf(final(self)@),
    {
        self.pending = Some(SessionOutcome::Failed(FailureKind::IoError));
        self.phase = SessionPhase::Restoring;
        SessionAction::RestoreHosts
    }

    /// The timed wait ended — completed, cancelled early, or failed. In
    /// every case the next action is the restore.
    pub fn on_wait_finished(&mut self, status: WaitStatus) -> (a: SessionAction)
        requires
            old(self)@.phase == SessionPhase::Waiting,
            session_wf(old(self)@),
        ensures
            final(self)@ == session_step(old(self)@, SessionEvent::WaitFinished(status)),
            a == session_action(old(self)@, SessionEvent::WaitFinished(status)),
            a == SessionAction::RestoreHosts,
            session_wf(final(self)@),
    {
        self.pending = Some(
            match status {
                WaitStatus::Completed => SessionOutcome::Completed,
                WaitStatus::CancelledEarly => SessionOutcome::CancelledEarly,
                WaitStatus::Failed => SessionOutcome::Failed(FailureKind::IoError),
            },
        );
        self.phase = SessionPhase::Restoring;
        SessionAction::RestoreHosts
    }

    /// The content to write back over the hosts file: exactly the captured
    /// snapshot.
    pub fn restore_content(&self) -> (r: &String)
        requires
            self@.phase == SessionPhase::Restoring,
            session_wf(self@),
        ensures
            Some(r@) == self@.snapshot,
    {
        match &self.snapshot {
            Some(s) => s,
            None => unreached(),
        }
    }

    /// The snapshot was written back: the session is done and reports the
    /// pending outcome.
    pub fn on_restore_ok(&mut self) -> (a: SessionAction)
        requires
            old(self)@.phase == SessionPhase::Restoring,
            session_wf(old(self)@),
        ensures
            final(self)@ == session_step(old(self)@, SessionEvent::RestoreOk),
            a == session_action(old(self)@, SessionEvent::RestoreOk),
            session_wf(final(self)@),
    {
        self.outcome = self.pending;
        self.phase = SessionPhase::Done;
        SessionAction::Finish
    }

    /// The snapshot could not be written back: the machine is left
    /// blocked, the gravest failure, and it overrides whatever outcome the
    /// wait produced.
    pub fn on_restore_failed(&mut self) -> (a: SessionAction)
        requires
            old(self)@.phase == SessionPhase::Restoring,
            session_wf(old(self)@),
        ensures
            final(self)@ == session_step(old(self)@, SessionEvent::RestoreFailed),
            a == session_action(old(self)@, SessionEvent::RestoreFailed),
            session_wf(final(self)@),
    {
        self.outcome = Some(SessionOutcome::Failed(FailureKind::SnapshotMissingAtRestore));
        self.phase = SessionPhase::Done;
        SessionAction::Finish
    }

    /// The outcome of a finished session.
    pub fn outcome(&self) -> (o: SessionOutcome)
        requires
            self@.phase == SessionPhase::Done,
            session_wf(self@),
        ensures
            Some(o) == self@.outcome,
    {
        match self.outcome {
            Some(o) => o,
            None => unreached(),
        }
    }
}

} // verus!
