//! The Kill Coordinator: at most one termination sequence at a time, and
//! what each resolved menu action sets in motion.
use vstd::prelude::*;
use std::collections::HashMap;
use crate::process::{ProcessInfo, ProcessView};
use crate::discovery::map_view;
use crate::resolver::MenuAction;

verus! {

/// How often the monitored ports are looked at again.
pub const REFRESH_INTERVAL_MS: u64 = 5000;

/// How long a finished sequence keeps the coordinator busy, so that a refresh
/// does not race processes that are still exiting. It outlasts one refresh
/// interval.
pub const SETTLE_DELAY_MS: u64 = 6000;

/// Whether a termination sequence is in flight.
#[derive(Debug, Clone, Copy, PartialEq, Eq, Structural)]
pub struct KillState {
    pub in_progress: bool,
}

/// A request for a sequence, made in the state `busy`: the state after it,
/// and whether it was taken.
pub open spec fn request_outcome(busy: bool) -> (bool, bool) {
    (true, !busy)
}

impl KillState {
    pub fn new() -> (r: KillState)
        ensures
            !r.in_progress,
    {
        KillState { in_progress: false }
    }

    /// Takes a request for a sequence when none is in flight; a request made
    /// while one is in flight is dropped, never queued.
    pub fn try_begin(&mut self) -> (accepted: bool)
        ensures
            (final(self).in_progress, accepted) == request_outcome(old(self).in_progress),
    {
        let accepted = !self.in_progress;
        self.in_progress = true;
        accepted
    }

    /// Ends the sequence in flight, once its settle delay has passed.
    pub fn finish(&mut self)
        ensures
            !final(self).in_progress,
    {
        self.in_progress = false;
    }
}

/// `n` requests in a row from the state `busy`: the state after them, and
/// how many were taken.
pub open spec fn requests_outcome(busy: bool, n: nat) -> (bool, nat)
    decreases n,
{
    if n == 0 {
        (busy, 0)
    } else {
        let (b, k) = requests_outcome(busy, (n - 1) as nat);
        let (b2, taken) = request_outcome(b);
        (b2, if taken {
            k + 1
        } else {
            k
        })
    }
}

/// While a sequence is in flight, any number of further requests start none:
/// every one of them is dropped.
pub proof fn lemma_requests_while_busy_are_dropped(n: nat)
    ensures
        requests_outcome(true, n) == (true, 0nat),
    decreases n,
{
    if n > 0 {
        lemma_requests_while_busy_are_dropped((n - 1) as nat);
    }
}

/// Of `n >= 1` requests made in a row from an idle coordinator, exactly one
/// starts a sequence and the other `n - 1` are dropped.
pub proof fn lemma_one_of_many_requests_runs(n: nat)
    requires
        n >= 1,
    ensures
        requests_outcome(false, n) == (true, 1nat),
    decreases n,
{
    if n > 1 {
        lemma_one_of_many_requests_runs((n - 1) as nat);
    } else {
        assert(requests_outcome(false, 0) == (false, 0nat));
    }
}

/// The work a resolved action sets in motion.
#[derive(Debug, Clone, Copy, PartialEq, Eq, Structural)]
pub enum KillJob {
    /// Discover again and terminate every process that the ignore policy keeps.
    KillAll,
    /// Re-check this process against the ignore policy, then terminate it.
    KillPid(i32),
    /// End the whole program.
    Exit,
    /// Nothing to do.
    Nothing,
}

/// The job for `action` given the current snapshot. An unrecognised event
/// is taken as "kill all": the visible action rather than silently nothing.
pub open spec fn job_for(action: MenuAction, snapshot: Map<u16, ProcessView>) -> KillJob {
    match action {
        MenuAction::KillAll => KillJob::KillAll,
        MenuAction::Unknown => KillJob::KillAll,
        MenuAction::Quit => KillJob::Exit,
        MenuAction::KillProcess(port) => if snapshot.contains_key(port) {
            KillJob::KillPid(snapshot[port].pid)
        } else {
            KillJob::Nothing
        },
    }
}

pub fn job_for_action(action: MenuAction, snapshot: &HashMap<u16, ProcessInfo>) -> (r: KillJob)
    ensures
        r == job_for(action, map_view(snapshot@)),
{
    match action {
        MenuAction::KillAll => KillJob::KillAll,
        MenuAction::Unknown => KillJob::KillAll,
        MenuAction::Quit => KillJob::Exit,
        MenuAction::KillProcess(port) => {
            match snapshot.get(&port) {
                Some(p) => KillJob::KillPid(p.pid),
                None => KillJob::Nothing,
            }
        },
    }
}

/// When the status display may be rebuilt: only when the number of
/// processes changed since the last rebuild, the cooldown since that rebuild
/// has passed, and no termination sequence is in flight.
#[derive(Debug, Clone, Copy, PartialEq, Eq, Structural)]
pub struct RefreshPolicy {
    pub last_count: usize,
    pub last_update_ms: u64,
    pub cooldown_ms: u64,
}

pub open spec fn may_rebuild(p: RefreshPolicy, count: usize, now_ms: u64, killing: bool) -> bool {
    &&& !killing
    &&& count != p.last_count
    &&& now_ms >= p.last_update_ms
    &&& now_ms - p.last_update_ms >= p.cooldown_ms
}

impl RefreshPolicy {
    /// A policy that has seen no process yet, as of `now_ms`.
    pub fn new(cooldown_ms: u64, now_ms: u64) -> (r: RefreshPolicy)
        ensures
            r == (RefreshPolicy { last_count: 0, last_update_ms: now_ms, cooldown_ms }),
    {
        RefreshPolicy { last_count: 0, last_update_ms: now_ms, cooldown_ms }
    }

    /// Whether a refresh that found `count` processes at `now_ms` rebuilds
    /// the display; when it does, the policy records it.
    pub fn observe(&mut self, count: usize, now_ms: u64, killing: bool) -> (r: bool)
        ensures
            r == may_rebuild(*old(self), count, now_ms, killing),
            *final(self) == (if r {
                RefreshPolicy { last_count: count, last_update_ms: now_ms, ..*old(self) }
            } else {
                *old(self)
            }),
    {
        let r = !killing && count != self.last_count && now_ms >= self.last_update_ms && now_ms
            - self.last_update_ms >= self.cooldown_ms;
        if r {
            self.last_count = count;
            self.last_update_ms = now_ms;
        }
        r
    }
}

} // verus!
