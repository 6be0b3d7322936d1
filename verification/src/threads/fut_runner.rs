use vstd::prelude::*;

verus! {

#[verifier::external_type_specification]
#[verifier::external_body]
pub struct ExTimeDelta(chrono::TimeDelta);

/// The default priority of shared runners.
/// By default everything has the highest priority.
pub const FUT_RUNNER_PRIORITY_DEFAULT: u8 = 0;

/// A builder to configure either a standalone or shared fut_runner.
#[derive(Clone, Debug, Default)]
pub struct FutRunnerBuilder {
    order_output: bool,
    max_concurrent: Option<usize>,
    max_throughput: Option<chrono::TimeDelta>,
}

impl FutRunnerBuilder {
    /// Whether outputs come back in the order the futures were pushed.
    pub closed spec fn ordered(&self) -> bool {
        self.order_output
    }

    /// The concurrency limit, if any.
    pub closed spec fn concurrency_limit(&self) -> Option<usize> {
        self.max_concurrent
    }

    /// The least time between starting two futures, if any.
    pub closed spec fn throughput_limit(&self) -> Option<chrono::TimeDelta> {
        self.max_throughput
    }

    /// A builder with no limits, outputs in the order they finish.
    pub fn new() -> (b: FutRunnerBuilder)
        ensures
            !b.ordered(),
            b.concurrency_limit() is None,
            b.throughput_limit() is None,
    {
        FutRunnerBuilder { order_output: false, max_concurrent: None, max_throughput: None }
    }

    /// Limit the fut_runner to never concurrently process
    /// more than the specified amount of futures at once.
    pub fn max_concurrent(self, max_concurrent: usize) -> (b: FutRunnerBuilder)
        ensures
            b.concurrency_limit() == Some(max_concurrent),
            b.ordered() == self.ordered(),
            b.throughput_limit() == self.throughput_limit(),
    {
        FutRunnerBuilder { max_concurrent: Some(max_concurrent), ..self }
    }

    /// Limit the fut_runner to never start a new future before the last
    /// was started more than the specified amount of time ago.
    pub fn max_throughput(self, max_throughput: chrono::TimeDelta) -> (b: FutRunnerBuilder)
        ensures
            b.throughput_limit() == Some(max_throughput),
            b.ordered() == self.ordered(),
            b.concurrency_limit() == self.concurrency_limit(),
    {
        FutRunnerBuilder { max_throughput: Some(max_throughput), ..self }
    }

    /// By default outputs arrive in the order they finish for performance.
    /// To only return in order, call this method.
    pub fn order_output(self) -> (b: FutRunnerBuilder)
        ensures
            b.ordered(),
            b.concurrency_limit() == self.concurrency_limit(),
            b.throughput_limit() == self.throughput_limit(),
    {
        FutRunnerBuilder { order_output: true, ..self }
    }

    /// Whether outputs come back in the order the futures were pushed.
    pub fn is_ordered(&self) -> (b: bool)
        ensures
            b == self.ordered(),
    {
        self.order_output
    }

    /// The concurrency limit, if any.
    pub fn get_max_concurrent(&self) -> (m: Option<usize>)
        ensures
            m == self.concurrency_limit(),
    {
        self.max_concurrent
    }

    /// The least time between starting two futures, if any.
    pub fn get_max_throughput(&self) -> (m: Option<chrono::TimeDelta>)
        ensures
            m == self.throughput_limit(),
    {
        self.max_throughput
    }
}

/// Create a new builder for a standalone or shared fut_runner.
pub fn new_fut_runner() -> (b: FutRunnerBuilder)
    ensures
        !b.ordered(),
        b.concurrency_limit() is None,
        b.throughput_limit() is None,
{
    FutRunnerBuilder::new()
}

/// A standalone runner at its concurrency limit must wait for a running future to finish
/// before starting another.
pub fn must_wait_for_slot(in_flight: usize, limit: usize) -> (wait: bool)
    ensures
        wait <==> in_flight >= limit,
{
    in_flight >= limit
}

/// How long to hold back the next future so starts are at least `min_gap_ns` apart, given
/// the time since the last start (none before the first start; elapsed time is never negative).
pub fn throughput_wait_ns(since_last_ns: Option<i64>, min_gap_ns: i64) -> (wait: i64)
    requires
        since_last_ns matches Some(since) ==> since >= 0,
    ensures
        wait == match since_last_ns {
            Some(since) => if since < min_gap_ns {
                min_gap_ns - since
            } else {
                0
            },
            None => 0,
        },
{
    match since_last_ns {
        Some(since) => if since < min_gap_ns {
            min_gap_ns - since
        } else {
            0
        },
        None => 0,
    }
}

/// Where a runner stands while waiting to start its next future.
#[derive(Debug, Clone, Copy, PartialEq, Eq)]
pub enum RunnerWaitStage {
    /// About to check its priority.
    Start,
    /// Outranked: waiting to be woken by the runner ahead of it.
    Woken,
    /// Taking a concurrency slot.
    Slot,
    /// Holding a slot, checking its priority again.
    Recheck,
    /// Spacing starts out to the throughput limit.
    Throughput,
    /// Ready to start the future.
    Done,
}

/// What the runner learned since the last step.
#[derive(Debug, Clone, Copy, PartialEq, Eq)]
pub enum RunnerWaitEvent {
    /// Its priority was checked: whether it is the highest waiting.
    Priority { highest: bool },
    /// It was woken.
    Woke,
    /// It holds a concurrency slot (or none is needed).
    SlotTaken,
    /// It waited out the throughput gap: whether another start was recorded before it
    /// (shared runners only), and whether it is still the highest waiting.
    ThroughputWaited { had_last: bool, highest: bool },
}

/// What the runner does next.
#[derive(Debug, Clone, Copy, PartialEq, Eq)]
pub enum RunnerWaitAction {
    /// Check its priority.
    CheckPriority,
    /// Wait to be woken, driving finished futures meanwhile.
    WaitForWake,
    /// Take a concurrency slot.
    TakeSlot,
    /// Wait out the throughput gap and record this start.
    HoldThroughput,
    /// Let go of any slot held and start over.
    Restart,
    /// Start the future.
    Begin,
}

/// Whether `event` is one that can come at `stage`.
pub open spec fn runner_wait_expects(stage: RunnerWaitStage, event: RunnerWaitEvent) -> bool {
    match stage {
        RunnerWaitStage::Start | RunnerWaitStage::Recheck => event is Priority,
        RunnerWaitStage::Woken => event is Woke,
        RunnerWaitStage::Slot => event is SlotTaken,
        RunnerWaitStage::Throughput => event is ThroughputWaited,
        RunnerWaitStage::Done => false,
    }
}

/// Where a runner goes once it may proceed past a priority check: to take a slot when it
/// has a concurrency limit, else to space out starts when it has a throughput limit, else
/// straight to starting.
pub open spec fn runner_wait_proceed(has_limit: bool, has_throughput: bool) -> (RunnerWaitStage, RunnerWaitAction) {
    if has_limit {
        (RunnerWaitStage::Slot, RunnerWaitAction::TakeSlot)
    } else if has_throughput {
        (RunnerWaitStage::Throughput, RunnerWaitAction::HoldThroughput)
    } else {
        (RunnerWaitStage::Done, RunnerWaitAction::Begin)
    }
}

/// The decisions of waiting to start a future: an outranked runner waits to be woken;
/// with a concurrency limit it then takes a slot and, holding it, checks its priority
/// again, starting over when outranked; with a throughput limit it then waits out the
/// gap, starting over if another start came first and it has since been outranked.
pub open spec fn runner_wait_next(
    stage: RunnerWaitStage,
    event: RunnerWaitEvent,
    has_limit: bool,
    has_throughput: bool,
) -> (RunnerWaitStage, RunnerWaitAction) {
    match event {
        RunnerWaitEvent::Priority { highest } => if stage == RunnerWaitStage::Start {
            if highest {
                runner_wait_proceed(has_limit, has_throughput)
            } else {
                (RunnerWaitStage::Woken, RunnerWaitAction::WaitForWake)
            }
        } else if !highest {
            (RunnerWaitStage::Start, RunnerWaitAction::Restart)
        } else {
            runner_wait_proceed(false, has_throughput)
        },
        RunnerWaitEvent::Woke => runner_wait_proceed(has_limit, has_throughput),
        RunnerWaitEvent::SlotTaken => (RunnerWaitStage::Recheck, RunnerWaitAction::CheckPriority),
        RunnerWaitEvent::ThroughputWaited { had_last, highest } => if had_last && !highest {
            (RunnerWaitStage::Start, RunnerWaitAction::Restart)
        } else {
            (RunnerWaitStage::Done, RunnerWaitAction::Begin)
        },
    }
}

/// See [`runner_wait_proceed`].
fn proceed(has_limit: bool, has_throughput: bool) -> (next: (RunnerWaitStage, RunnerWaitAction))
    ensures
        next == runner_wait_proceed(has_limit, has_throughput),
{
    if has_limit {
        (RunnerWaitStage::Slot, RunnerWaitAction::TakeSlot)
    } else if has_throughput {
        (RunnerWaitStage::Throughput, RunnerWaitAction::HoldThroughput)
    } else {
        (RunnerWaitStage::Done, RunnerWaitAction::Begin)
    }
}

/// One step of waiting to start a future, for a runner with or without a concurrency
/// limit (`has_limit`) and a throughput limit (`has_throughput`).
pub fn runner_wait_step(
    stage: RunnerWaitStage,
    event: RunnerWaitEvent,
    has_limit: bool,
    has_throughput: bool,
) -> (next: (RunnerWaitStage, RunnerWaitAction))
    requires
        runner_wait_expects(stage, event),
    ensures
        next == runner_wait_next(stage, event, has_limit, has_throughput),
{
    match event {
        RunnerWaitEvent::Priority { highest } => {
            if matches!(stage, RunnerWaitStage::Start) {
                if highest {
                    proceed(has_limit, has_throughput)
                } else {
                    (RunnerWaitStage::Woken, RunnerWaitAction::WaitForWake)
                }
            } else if !highest {
                (RunnerWaitStage::Start, RunnerWaitAction::Restart)
            } else {
                proceed(false, has_throughput)
            }
        },
        RunnerWaitEvent::Woke => proceed(has_limit, has_throughput),
        RunnerWaitEvent::SlotTaken => (RunnerWaitStage::Recheck, RunnerWaitAction::CheckPriority),
        RunnerWaitEvent::ThroughputWaited { had_last, highest } => {
            if had_last && !highest {
                (RunnerWaitStage::Start, RunnerWaitAction::Restart)
            } else {
                (RunnerWaitStage::Done, RunnerWaitAction::Begin)
            }
        },
    }
}

/// Law (for the stages a runner with these limits can reach): a runner with a
/// concurrency limit starts a future only after a priority check,
/// made while holding its slot, found it highest; with a throughput limit, only after
/// waiting out the gap without having been outranked since another start came first.
pub proof fn lemma_begin_only_when_highest(
    stage: RunnerWaitStage,
    event: RunnerWaitEvent,
    has_limit: bool,
    has_throughput: bool,
)
    requires
        runner_wait_expects(stage, event),
        !has_throughput ==> stage != RunnerWaitStage::Throughput,
        runner_wait_next(stage, event, has_limit, has_throughput).1 == RunnerWaitAction::Begin,
    ensures
        has_throughput ==> stage == RunnerWaitStage::Throughput && (event matches RunnerWaitEvent::ThroughputWaited {
            had_last,
            highest,
        } && (!had_last || highest)),
        has_limit && !has_throughput ==> stage == RunnerWaitStage::Recheck && event == (RunnerWaitEvent::Priority {
            highest: true,
        }),
{
}

/// The futures still running once a standalone runner has its slot: when it had to wait
/// (see [`must_wait_for_slot`]), one running future finished and moved to the results.
pub open spec fn in_flight_after_slot(in_flight: nat, limit: nat) -> nat {
    if in_flight >= limit {
        (in_flight - 1) as nat
    } else {
        in_flight
    }
}

/// Law: a standalone runner with a concurrency limit of at least one, never past its limit,
/// stays at or under it after starting the next future, having waited for at most one
/// running future to finish.
pub proof fn lemma_in_flight_bound(in_flight: nat, limit: nat)
    requires
        limit >= 1,
        in_flight <= limit,
    ensures
        in_flight_after_slot(in_flight, limit) + 1 <= limit,
        in_flight_after_slot(in_flight, limit) + 1 >= in_flight,
{
}

} // verus!
