use vstd::prelude::*;

verus! {

/// A UTC instant: whole seconds since the unix epoch, and nanoseconds into that second.
#[derive(Debug, Clone, Copy, PartialEq, Eq)]
pub struct UtcTimestamp {
    pub secs: i64,
    pub nanos: u32,
}

impl UtcTimestamp {
    /// The nanoseconds are a fraction of a second.
    pub open spec fn wf(&self) -> bool {
        self.nanos < 1_000_000_000
    }

    /// The instant in nanoseconds since the epoch.
    pub open spec fn total_ns(&self) -> int {
        self.secs * 1_000_000_000 + self.nanos
    }
}

/// The time from `from` to `to`, in nanoseconds (negative when `to` is earlier).
pub fn nanos_between(from: UtcTimestamp, to: UtcTimestamp) -> (ns: i128)
    ensures
        ns == to.total_ns() - from.total_ns(),
{
    let secs: i128 = (to.secs as i128) - (from.secs as i128);
    let nanos: i128 = (to.nanos as i128) - (from.nanos as i128);
    assert(-0x1_0000_0000_0000_0000 <= secs <= 0x1_0000_0000_0000_0000);
    assert(secs * 1_000_000_000 <= 0x1_0000_0000_0000_0000 * 1_000_000_000) by (nonlinear_arith)
        requires
            secs <= 0x1_0000_0000_0000_0000,
    ;
    assert(secs * 1_000_000_000 >= -0x1_0000_0000_0000_0000 * 1_000_000_000) by (nonlinear_arith)
        requires
            secs >= -0x1_0000_0000_0000_0000,
    ;
    secs * 1_000_000_000 + nanos
}

/// Useful for phase tracking, depending on the logger.
#[derive(Debug, Clone, Copy, PartialEq, Eq)]
pub enum FlexiLogPhase {
    /// The flow is pending, not started yet.
    Pending,
    /// The flow is running.
    Running {
        /// When the flow actually started running.
        started_at: UtcTimestamp,
    },
    /// The flow is completed.
    Completed {
        /// When the flow actually started running.
        started_at: UtcTimestamp,
        /// When the flow succeeded.
        finished_at: UtcTimestamp,
    },
    /// The flow failed.
    Failed {
        /// When the flow actually started running.
        started_at: UtcTimestamp,
        /// When the flow failed.
        finished_at: UtcTimestamp,
    },
    /// The flow failed, but is pending a retry.
    FailedPendingRetry {
        /// When the flow actually started running.
        started_at: UtcTimestamp,
        /// When the flow failed.
        finished_at: UtcTimestamp,
        /// E.g. if the run failed, this will be 1.
        num_tries_done: usize,
        /// When the flow is scheduled to re-run at.
        scheduled_for: UtcTimestamp,
    },
}

/// When the phase's run started; `now` for a flow not started yet.
pub open spec fn spec_started_at(phase: FlexiLogPhase, now: UtcTimestamp) -> UtcTimestamp {
    match phase {
        FlexiLogPhase::Pending => now,
        FlexiLogPhase::Running { started_at } => started_at,
        FlexiLogPhase::Completed { started_at, .. } => started_at,
        FlexiLogPhase::Failed { started_at, .. } => started_at,
        FlexiLogPhase::FailedPendingRetry { started_at, .. } => started_at,
    }
}

impl FlexiLogPhase {
    /// True when completed or failed, so safe to delete. (failed pending retry isn't safe)
    pub fn is_finished(&self) -> (b: bool)
        ensures
            b <==> (*self is Completed || *self is Failed),
    {
        match self {
            FlexiLogPhase::Completed { .. } | FlexiLogPhase::Failed { .. } => true,
            FlexiLogPhase::FailedPendingRetry { .. }
            | FlexiLogPhase::Pending
            | FlexiLogPhase::Running { .. } => false,
        }
    }

    /// Get the elapsed time of the flow in nanoseconds, `None` if not started yet: up to
    /// `now` while running, else up to when it finished (for a failure pending retry, how
    /// long the failed run took).
    pub fn elapsed(&self, now: UtcTimestamp) -> (ns: Option<i128>)
        ensures
            ns == match *self {
                FlexiLogPhase::Pending => None,
                FlexiLogPhase::Running { started_at } => Some(
                    (now.total_ns() - started_at.total_ns()) as i128,
                ),
                FlexiLogPhase::Completed { started_at, finished_at } => Some(
                    (finished_at.total_ns() - started_at.total_ns()) as i128,
                ),
                FlexiLogPhase::Failed { started_at, finished_at } => Some(
                    (finished_at.total_ns() - started_at.total_ns()) as i128,
                ),
                FlexiLogPhase::FailedPendingRetry { started_at, finished_at, .. } => Some(
                    (finished_at.total_ns() - started_at.total_ns()) as i128,
                ),
            },
    {
        match self {
            FlexiLogPhase::Pending => None,
            FlexiLogPhase::Running { started_at } => Some(nanos_between(*started_at, now)),
            FlexiLogPhase::Completed { started_at, finished_at }
            | FlexiLogPhase::Failed { started_at, finished_at }
            | FlexiLogPhase::FailedPendingRetry { started_at, finished_at, .. } => Some(
                nanos_between(*started_at, *finished_at),
            ),
        }
    }

    /// Useful internally for transitioning phase.
    pub fn started_at(&self, now: UtcTimestamp) -> (t: UtcTimestamp)
        ensures
            t == spec_started_at(*self, now),
    {
        match self {
            FlexiLogPhase::Pending => now,
            FlexiLogPhase::Running { started_at } => *started_at,
            FlexiLogPhase::Completed { started_at, .. }
            | FlexiLogPhase::Failed { started_at, .. } => *started_at,
            FlexiLogPhase::FailedPendingRetry { started_at, .. } => *started_at,
        }
    }

    /// The phase after the flow failed at `now`, keeping when its run started.
    pub fn to_failed(&self, now: UtcTimestamp) -> (next: FlexiLogPhase)
        ensures
            next == (FlexiLogPhase::Failed {
                started_at: spec_started_at(*self, now),
                finished_at: now,
            }),
    {
        FlexiLogPhase::Failed { started_at: self.started_at(now), finished_at: now }
    }

    /// The phase after the flow completed at `now`, keeping when its run started.
    pub fn to_completed(&self, now: UtcTimestamp) -> (next: FlexiLogPhase)
        ensures
            next == (FlexiLogPhase::Completed {
                started_at: spec_started_at(*self, now),
                finished_at: now,
            }),
    {
        FlexiLogPhase::Completed { started_at: self.started_at(now), finished_at: now }
    }

    /// The phase once the flow (re)starts running at `now`: earlier failed attempts are
    /// forgotten, the run starts now.
    pub fn to_running(now: UtcTimestamp) -> (next: FlexiLogPhase)
        ensures
            next == (FlexiLogPhase::Running { started_at: now }),
    {
        FlexiLogPhase::Running { started_at: now }
    }

    /// The phase after the flow failed at `now` with a retry scheduled: one more try done
    /// than a failure pending retry counted, else the first.
    pub fn to_failed_pending_retry(&self, now: UtcTimestamp, scheduled_for: UtcTimestamp) -> (next:
        FlexiLogPhase)
        requires
            self matches FlexiLogPhase::FailedPendingRetry { num_tries_done, .. } ==> num_tries_done
                < usize::MAX,
        ensures
            next == (FlexiLogPhase::FailedPendingRetry {
                started_at: spec_started_at(*self, now),
                finished_at: now,
                num_tries_done: match *self {
                    FlexiLogPhase::FailedPendingRetry { num_tries_done, .. } => (num_tries_done
                        + 1) as usize,
                    _ => 1,
                },
                scheduled_for,
            }),
    {
        let num_tries_done = match self {
            FlexiLogPhase::FailedPendingRetry { num_tries_done, .. } => *num_tries_done + 1,
            _ => 1,
        };
        FlexiLogPhase::FailedPendingRetry {
            started_at: self.started_at(now),
            finished_at: now,
            num_tries_done,
            scheduled_for,
        }
    }
}

} // verus!
