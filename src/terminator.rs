//! Escalating termination of one process, as a state machine: ask the
//! process to stop, give it a grace window, check whether it is still alive,
//! and force it only then. The caller performs each action that the machine
//! returns and hands back what came of it.
use vstd::prelude::*;

verus! {

/// How long a process is given between the graceful and the forced signal.
pub const GRACE_PERIOD_MS: u64 = 500;

#[derive(Debug, Clone, Copy, PartialEq, Eq, Structural)]
pub enum TerminationError {
    /// Whether the process still runs could not be found out.
    LivenessUnknown,
}

/// What the caller is to do next.
#[derive(Debug, Clone, Copy, PartialEq, Eq)]
pub enum TerminationAction {
    /// Send the graceful termination signal to the process.
    SendGraceful(i32),
    /// Suspend the calling thread for this many milliseconds.
    Sleep(u64),
    /// Find out whether the process still runs.
    CheckLiveness(i32),
    /// Send the forceful termination signal (or, where there are no signals,
    /// use the platform's forced termination by id).
    SendForced(i32),
    /// The sequence is over, with this result.
    Finish(Result<(), TerminationError>),
}

/// What came of the last action.
#[derive(Debug, Clone, Copy, PartialEq, Eq, Structural)]
pub enum TerminationEvent {
    /// A signal was sent; `true` when it was delivered.
    SignalSent(bool),
    /// The grace window has passed.
    Slept,
    /// Whether the process still runs, or `None` when that could not be found out.
    Liveness(Option<bool>),
}

#[derive(Debug, Clone, Copy, PartialEq, Eq)]
pub enum TerminationStage {
    AwaitingGraceful,
    InGraceWindow,
    AwaitingLiveness,
    AwaitingForced,
    Finished(Result<(), TerminationError>),
}

/// One termination sequence for the process `pid`.
#[derive(Debug, Clone, Copy, PartialEq, Eq)]
pub struct Terminator {
    pub pid: i32,
    pub stage: TerminationStage,
}

/// The machine, and its first action, for the process `pid`. With
/// `signals`, the sequence starts with the graceful signal; without, the
/// forced termination is the only step.
pub open spec fn start_spec(pid: i32, signals: bool) -> (Terminator, TerminationAction) {
    if signals {
        (
            Terminator { pid, stage: TerminationStage::AwaitingGraceful },
            TerminationAction::SendGraceful(pid),
        )
    } else {
        (
            Terminator { pid, stage: TerminationStage::AwaitingForced },
            TerminationAction::SendForced(pid),
        )
    }
}

/// The action that a stage waits on the outcome of.
pub open spec fn pending_action(t: Terminator) -> TerminationAction {
    match t.stage {
        TerminationStage::AwaitingGraceful => TerminationAction::SendGraceful(t.pid),
        TerminationStage::InGraceWindow => TerminationAction::Sleep(GRACE_PERIOD_MS),
        TerminationStage::AwaitingLiveness => TerminationAction::CheckLiveness(t.pid),
        TerminationStage::AwaitingForced => TerminationAction::SendForced(t.pid),
        TerminationStage::Finished(r) => TerminationAction::Finish(r),
    }
}

/// One transition. The outcome of a signal, graceful or forced, never stops
/// the sequence; only a liveness check that cannot be made fails it. An event
/// that the stage does not wait for changes nothing and repeats the pending
/// action.
pub open spec fn next_spec(t: Terminator, e: TerminationEvent) -> (Terminator, TerminationAction) {
    let to = |stage: TerminationStage| Terminator { pid: t.pid, stage };
    match (t.stage, e) {
        (TerminationStage::AwaitingGraceful, TerminationEvent::SignalSent(_)) => (
            to(TerminationStage::InGraceWindow),
            TerminationAction::Sleep(GRACE_PERIOD_MS),
        ),
        (TerminationStage::InGraceWindow, TerminationEvent::Slept) => (
            to(TerminationStage::AwaitingLiveness),
            TerminationAction::CheckLiveness(t.pid),
        ),
        (TerminationStage::AwaitingLiveness, TerminationEvent::Liveness(Some(true))) => (
            to(TerminationStage::AwaitingForced),
            TerminationAction::SendForced(t.pid),
        ),
        (TerminationStage::AwaitingLiveness, TerminationEvent::Liveness(Some(false))) => (
            to(TerminationStage::Finished(Ok(()))),
            TerminationAction::Finish(Ok(())),
        ),
        (TerminationStage::AwaitingLiveness, TerminationEvent::Liveness(None)) => (
            to(TerminationStage::Finished(Err(TerminationError::LivenessUnknown))),
            TerminationAction::Finish(Err(TerminationError::LivenessUnknown)),
        ),
        (TerminationStage::AwaitingForced, TerminationEvent::SignalSent(_)) => (
            to(TerminationStage::Finished(Ok(()))),
            TerminationAction::Finish(Ok(())),
        ),
        _ => (t, pending_action(t)),
    }
}

impl Terminator {
    /// Starts a sequence for `pid`; `signals` tells whether the platform has
    /// a graceful signal.
    pub fn start(pid: i32, signals: bool) -> (r: (Terminator, TerminationAction))
        ensures
            r == start_spec(pid, signals),
    {
        if signals {
            (
                Terminator { pid, stage: TerminationStage::AwaitingGraceful },
                TerminationAction::SendGraceful(pid),
            )
        } else {
            (
                Terminator { pid, stage: TerminationStage::AwaitingForced },
                TerminationAction::SendForced(pid),
            )
        }
    }

    /// Takes what came of the last action and returns the next one.
    pub fn step(&mut self, e: TerminationEvent) -> (r: TerminationAction)
        ensures
            (*final(self), r) == next_spec(*old(self), e),
    {
        let pid = self.pid;
        match (self.stage, e) {
            (TerminationStage::AwaitingGraceful, TerminationEvent::SignalSent(_)) => {
                self.stage = TerminationStage::InGraceWindow;
                TerminationAction::Sleep(GRACE_PERIOD_MS)
            },
            (TerminationStage::InGraceWindow, TerminationEvent::Slept) => {
                self.stage = TerminationStage::AwaitingLiveness;
                TerminationAction::CheckLiveness(pid)
            },
            (TerminationStage::AwaitingLiveness, TerminationEvent::Liveness(Some(true))) => {
                self.stage = TerminationStage::AwaitingForced;
                TerminationAction::SendForced(pid)
            },
            (TerminationStage::AwaitingLiveness, TerminationEvent::Liveness(Some(false))) => {
                self.stage = TerminationStage::Finished(Ok(()));
                TerminationAction::Finish(Ok(()))
            },
            (TerminationStage::AwaitingLiveness, TerminationEvent::Liveness(None)) => {
                self.stage = TerminationStage::Finished(Err(TerminationError::LivenessUnknown));
                TerminationAction::Finish(Err(TerminationError::LivenessUnknown))
            },
            (TerminationStage::AwaitingForced, TerminationEvent::SignalSent(_)) => {
                self.stage = TerminationStage::Finished(Ok(()));
                TerminationAction::Finish(Ok(()))
            },
            _ => self.pending(),
        }
    }

    /// The action this sequence waits on.
    pub fn pending(&self) -> (r: TerminationAction)
        ensures
            r == pending_action(*self),
    {
        match self.stage {
            TerminationStage::AwaitingGraceful => TerminationAction::SendGraceful(self.pid),
            TerminationStage::InGraceWindow => TerminationAction::Sleep(GRACE_PERIOD_MS),
            TerminationStage::AwaitingLiveness => TerminationAction::CheckLiveness(self.pid),
            TerminationStage::AwaitingForced => TerminationAction::SendForced(self.pid),
            TerminationStage::Finished(r) => TerminationAction::Finish(r),
        }
    }
}

/// How the system answers each action: whether the graceful signal is
/// delivered, whether the process is still alive after the grace window
/// (`None`: this cannot be found out), whether the forced signal is delivered.
pub struct SystemResponses {
    pub graceful_delivered: bool,
    pub alive_after_grace: Option<bool>,
    pub forced_delivered: bool,
}

pub open spec fn respond(a: TerminationAction, sys: SystemResponses) -> TerminationEvent {
    match a {
        TerminationAction::SendGraceful(_) => TerminationEvent::SignalSent(sys.graceful_delivered),
        TerminationAction::Sleep(_) => TerminationEvent::Slept,
        TerminationAction::CheckLiveness(_) => TerminationEvent::Liveness(sys.alive_after_grace),
        TerminationAction::SendForced(_) => TerminationEvent::SignalSent(sys.forced_delivered),
        TerminationAction::Finish(_) => TerminationEvent::Slept,
    }
}

/// The actions of a sequence that starts in `t` with the action `a`, each
/// answered as `sys` answers it, up to `Finish` or `steps` more actions.
pub open spec fn actions_from(
    t: Terminator,
    a: TerminationAction,
    sys: SystemResponses,
    steps: nat,
) -> Seq<TerminationAction>
    decreases steps,
{
    if steps == 0 || a is Finish {
        seq![a]
    } else {
        let (t2, a2) = next_spec(t, respond(a, sys));
        seq![a] + actions_from(t2, a2, sys, (steps - 1) as nat)
    }
}

/// Every action of a whole termination of `pid` on a platform with signals.
pub open spec fn termination_run(pid: i32, sys: SystemResponses) -> Seq<TerminationAction> {
    let (t, a) = start_spec(pid, true);
    actions_from(t, a, sys, 8)
}

/// A process that has exited by the end of the grace window, or had exited
/// before the call, is never sent the forced signal, and its termination
/// succeeds whether or not the graceful signal was delivered.
pub proof fn lemma_exited_process_terminates_cleanly(pid: i32, sys: SystemResponses)
    requires
        sys.alive_after_grace == Some(false),
    ensures
        termination_run(pid, sys) == seq![
            TerminationAction::SendGraceful(pid),
            TerminationAction::Sleep(GRACE_PERIOD_MS),
            TerminationAction::CheckLiveness(pid),
            TerminationAction::Finish(Ok(())),
        ],
        !termination_run(pid, sys).contains(TerminationAction::SendForced(pid)),
{
    reveal_with_fuel(actions_from, 5);
    let run = termination_run(pid, sys);
    assert(run =~= seq![
        TerminationAction::SendGraceful(pid),
        TerminationAction::Sleep(GRACE_PERIOD_MS),
        TerminationAction::CheckLiveness(pid),
        TerminationAction::Finish(Ok(())),
    ]);
    assert forall|i: int| 0 <= i < run.len() implies run[i] != TerminationAction::SendForced(pid) by {}
}

/// A process still alive after the grace window is sent the forced signal,
/// and the termination succeeds whatever became of either signal.
pub proof fn lemma_surviving_process_is_forced(pid: i32, sys: SystemResponses)
    requires
        sys.alive_after_grace == Some(true),
    ensures
        termination_run(pid, sys) == seq![
            TerminationAction::SendGraceful(pid),
            TerminationAction::Sleep(GRACE_PERIOD_MS),
            TerminationAction::CheckLiveness(pid),
            TerminationAction::SendForced(pid),
            TerminationAction::Finish(Ok(())),
        ],
{
    reveal_with_fuel(actions_from, 6);
    assert(termination_run(pid, sys) =~= seq![
        TerminationAction::SendGraceful(pid),
        TerminationAction::Sleep(GRACE_PERIOD_MS),
        TerminationAction::CheckLiveness(pid),
        TerminationAction::SendForced(pid),
        TerminationAction::Finish(Ok(())),
    ]);
}

/// When whether the process still runs cannot be found out, the termination
/// fails, and nothing is forced.
pub proof fn lemma_unknown_liveness_fails(pid: i32, sys: SystemResponses)
    requires
        sys.alive_after_grace is None,
    ensures
        termination_run(pid, sys) == seq![
            TerminationAction::SendGraceful(pid),
            TerminationAction::Sleep(GRACE_PERIOD_MS),
            TerminationAction::CheckLiveness(pid),
            TerminationAction::Finish(Err(TerminationError::LivenessUnknown)),
        ],
{
    reveal_with_fuel(actions_from, 5);
    assert(termination_run(pid, sys) =~= seq![
        TerminationAction::SendGraceful(pid),
        TerminationAction::Sleep(GRACE_PERIOD_MS),
        TerminationAction::CheckLiveness(pid),
        TerminationAction::Finish(Err(TerminationError::LivenessUnknown)),
    ]);
}

} // verus!
