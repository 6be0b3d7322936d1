use std::time::Duration;
use vstd::prelude::*;

verus! {

/// The largest span a `chrono::TimeDelta` can hold, in nanoseconds
/// (`i64::MAX` milliseconds).
pub const TIME_DELTA_MAX_NS: i128 = 9_223_372_036_854_775_807_000_000i128;

/// When a retry loop stops retrying. Durations are in nanoseconds.
#[derive(Debug, Clone, Copy, PartialEq, Eq, Structural)]
pub enum RetryUntil {
    /// Stop once this many attempts have been made.
    TotalAttempts(usize),
    /// Stop once the delays so far add up to more than this.
    TotalDelay(i128),
    /// Stop once the next delay would be longer than this.
    Delay(i128),
}

impl RetryUntil {
    /// Whether the limit is on delays rather than on attempts.
    pub fn is_delay_length_based(&self) -> (b: bool)
        ensures
            b == !(self is TotalAttempts),
    {
        match self {
            RetryUntil::TotalAttempts(_) => false,
            RetryUntil::TotalDelay(_) | RetryUntil::Delay(_) => true,
        }
    }

    /// Whether the loop must stop before another attempt, given the number of the
    /// attempt that just failed, the delays waited so far and the next delay.
    pub open spec fn spec_has_end_reached(
        &self,
        current_try: usize,
        total_delay_ns: i128,
        next_delay_ns: i128,
    ) -> bool {
        match *self {
            RetryUntil::TotalAttempts(max_attempts) => current_try >= max_attempts,
            RetryUntil::TotalDelay(max_total_delay) => total_delay_ns > max_total_delay,
            RetryUntil::Delay(max_delay) => next_delay_ns > max_delay,
        }
    }

    /// See [`RetryUntil::spec_has_end_reached`].
    pub fn has_end_reached(&self, current_try: usize, total_delay_ns: i128, next_delay_ns: i128) -> (b:
        bool)
        ensures
            b == self.spec_has_end_reached(current_try, total_delay_ns, next_delay_ns),
    {
        match self {
            RetryUntil::TotalAttempts(max_attempts) => current_try >= *max_attempts,
            RetryUntil::TotalDelay(max_total_delay) => total_delay_ns > *max_total_delay,
            RetryUntil::Delay(max_delay) => next_delay_ns > *max_delay,
        }
    }
}

/// What a retry loop does after an attempt fails.
#[derive(Debug, Clone, Copy, PartialEq, Eq, Structural)]
pub enum RetryStep {
    /// Give up, returning the last error.
    GiveUp,
    /// Wait the next delay and try again; the delays then add up to `total_delay_ns`.
    Retry { total_delay_ns: i128 },
    /// The delays add up to zero under a delay based limit: the loop would never end.
    EndlessZeroDelays,
    /// The delays add up to more than a `chrono::TimeDelta` can hold.
    DelayOverflow,
}

/// See [`retry_after_failure`].
pub open spec fn spec_retry_after_failure(
    until: RetryUntil,
    current_try: usize,
    total_delay_ns: i128,
    next_delay_ns: Option<i128>,
) -> RetryStep {
    match next_delay_ns {
        None => RetryStep::GiveUp,
        Some(next) => if until.spec_has_end_reached(current_try, total_delay_ns, next) {
            RetryStep::GiveUp
        } else if total_delay_ns + next > TIME_DELTA_MAX_NS || total_delay_ns + next
            < -TIME_DELTA_MAX_NS {
            RetryStep::DelayOverflow
        } else if total_delay_ns + next == 0 && !(until is TotalAttempts) {
            RetryStep::EndlessZeroDelays
        } else {
            RetryStep::Retry { total_delay_ns: (total_delay_ns + next) as i128 }
        },
    }
}

/// What each limit means for the decision after attempt `current_try` failed, with
/// `total` waited so far and `d` the next delay: the attempts limit counts attempts
/// made, the total delay limit looks at the delays already waited (before the next one),
/// and the delay limit looks at the next delay alone. Within the limit, and when the
/// new total stays in range and is not zero under a delay based limit, the loop retries
/// with the total grown by the next delay.
pub open spec fn retry_limit_respected(
    until: RetryUntil,
    current_try: usize,
    total: i128,
    d: i128,
    step: RetryStep,
) -> bool {
    let within = match until {
        RetryUntil::TotalAttempts(max) => current_try < max,
        RetryUntil::TotalDelay(max) => total <= max,
        RetryUntil::Delay(max) => d <= max,
    };
    let grows_ok = -TIME_DELTA_MAX_NS <= total + d <= TIME_DELTA_MAX_NS && (until is TotalAttempts
        || total + d != 0);
    &&& !within ==> step == RetryStep::GiveUp
    &&& within && grows_ok ==> step == (RetryStep::Retry { total_delay_ns: (total + d) as i128 })
    &&& step is Retry ==> within
}

/// Law: the decision after a failure respects the limit as described in
/// [`retry_limit_respected`]; no next delay means giving up.
pub proof fn lemma_retry_respects_limit(until: RetryUntil, current_try: usize, total: i128, next: Option<i128>)
    ensures
        next is None ==> spec_retry_after_failure(until, current_try, total, next) == RetryStep::GiveUp,
        next matches Some(d) ==> retry_limit_respected(
            until,
            current_try,
            total,
            d,
            spec_retry_after_failure(until, current_try, total, next),
        ),
{
}

/// The decision a retry loop makes when attempt number `current_try` fails, given the
/// delays waited so far and the backoff's next delay (`None` when the backoff is spent):
/// give up when there is no next delay or the limit is reached; otherwise add the next
/// delay to the total and retry, unless that sum overflows or is zero under a delay
/// based limit.
pub fn retry_after_failure(
    until: &RetryUntil,
    current_try: usize,
    total_delay_ns: i128,
    next_delay_ns: Option<i128>,
) -> (step: RetryStep)
    requires
        -TIME_DELTA_MAX_NS <= total_delay_ns <= TIME_DELTA_MAX_NS,
        next_delay_ns matches Some(n) ==> -TIME_DELTA_MAX_NS <= n <= TIME_DELTA_MAX_NS,
    ensures
        step == spec_retry_after_failure(*until, current_try, total_delay_ns, next_delay_ns),
        next_delay_ns is None ==> step == RetryStep::GiveUp,
        next_delay_ns matches Some(d) ==> retry_limit_respected(*until, current_try, total_delay_ns, d, step),
{
    match next_delay_ns {
        None => RetryStep::GiveUp,
        Some(next) => {
            if until.has_end_reached(current_try, total_delay_ns, next) {
                RetryStep::GiveUp
            } else {
                let total = total_delay_ns + next;
                if total > TIME_DELTA_MAX_NS || total < -TIME_DELTA_MAX_NS {
                    RetryStep::DelayOverflow
                } else if total == 0 && until.is_delay_length_based() {
                    RetryStep::EndlessZeroDelays
                } else {
                    RetryStep::Retry { total_delay_ns: total }
                }
            }
        },
    }
}

/// One step of a fibonacci backoff: the delay handed out is `curr`; the pair moves on to
/// `(next, curr + next)`, the sum held at `i64::MAX` when it would overflow.
pub open spec fn spec_fibonacci_step(curr: i64, next: i64) -> (i64, i64, i64) {
    if curr + next <= i64::MAX && curr + next >= i64::MIN {
        (curr, next, (curr + next) as i64)
    } else {
        (curr, next, i64::MAX)
    }
}

/// See [`spec_fibonacci_step`]: returns `(delay, new_curr, new_next)`, in milliseconds.
pub fn fibonacci_step(curr: i64, next: i64) -> (step: (i64, i64, i64))
    ensures
        step == spec_fibonacci_step(curr, next),
{
    match curr.checked_add(next) {
        Some(next_next) => (curr, next, next_next),
        None => (curr, next, i64::MAX),
    }
}

/// Information about the last retry attempt.
pub struct RetryBackoffInfo<E> {
    /// The error that caused the last attempt to fail.
    pub last_error: E,
    /// The number of the last attempt. E.g. first attempt failing would be 1.
    pub last_attempt_no: usize,
    /// The delay until the next attempt.
    pub delay_till_next_attempt: Duration,
}

/// How many attempts a backoff schedule makes: the first, one per listed delay, and the
/// repeats of the last delay.
pub open spec fn spec_backoff_total_attempts(
    num_delays: usize,
    last_delay_repeat_times: Option<usize>,
) -> int {
    num_delays + 1 + match last_delay_repeat_times {
        Some(r) => r as int,
        None => 0int,
    }
}

/// See [`spec_backoff_total_attempts`].
pub fn backoff_total_attempts(num_delays: usize, last_delay_repeat_times: Option<usize>) -> (n: usize)
    requires
        spec_backoff_total_attempts(num_delays, last_delay_repeat_times) <= usize::MAX,
    ensures
        n == spec_backoff_total_attempts(num_delays, last_delay_repeat_times),
{
    let repeats = match last_delay_repeat_times {
        Some(r) => r,
        None => 0,
    };
    num_delays + 1 + repeats
}

/// The position in `retry_delays` of the delay waited before attempt `attempt_index`
/// (counting from 0), or `None` for the first attempt, which is not delayed:
/// attempt `i` waits delay `i - 1`, and the attempts past the list wait its last delay.
pub open spec fn spec_backoff_delay_position(num_delays: usize, attempt_index: usize) -> Option<int> {
    if attempt_index == 0 {
        None
    } else if attempt_index <= num_delays {
        Some(attempt_index - 1)
    } else {
        Some(num_delays - 1)
    }
}

/// The delay waited before attempt `attempt_index` of a backoff schedule, see
/// [`spec_backoff_delay_position`]; the first attempt waits nothing.
pub fn backoff_delay_before(retry_delays: &[Duration], attempt_index: usize) -> (delay: Option<Duration>)
    requires
        attempt_index > retry_delays@.len() ==> retry_delays@.len() > 0,
    ensures
        match spec_backoff_delay_position(retry_delays@.len() as usize, attempt_index) {
            None => delay is None,
            Some(p) => delay == Some(retry_delays@[p]),
        },
{
    if attempt_index == 0 {
        None
    } else if attempt_index <= retry_delays.len() {
        Some(retry_delays[attempt_index - 1])
    } else {
        Some(retry_delays[retry_delays.len() - 1])
    }
}

} // verus!
