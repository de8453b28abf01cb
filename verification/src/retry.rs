//! The decisions of a fetch that is retried with a growing pause.
//!
//! The caller attempts the fetch. After each failed attempt it reports the
//! failure with [`RetryState::on_failure`] and does what the answer says:
//! pause and attempt again, or give up with the failure it has. A success ends
//! the run without a report. With `max_retries` retries the run makes at most
//! `max_retries + 1` attempts.
//!
//! The pause grows by the factor 13/10 after each failed attempt, rounded down
//! to whole seconds. It has no jitter and no cap below the largest `u64`.

use vstd::prelude::*;

verus! {

/// Numerator of the factor by which the pause grows.
pub const BACKOFF_NUMERATOR: u64 = 13;

/// Denominator of the factor by which the pause grows.
pub const BACKOFF_DENOMINATOR: u64 = 10;

/// The pause that follows a pause of `wait` seconds.
pub open spec fn grown(wait: int) -> int {
    let scaled = wait * BACKOFF_NUMERATOR / (BACKOFF_DENOMINATOR as int);
    if scaled > u64::MAX {
        u64::MAX as int
    } else {
        scaled
    }
}

/// The pause after the failed attempt number `failures + 1`, where the first
/// pause is `initial` seconds.
pub open spec fn backoff(initial: int, failures: nat) -> int
    decreases failures,
{
    if failures == 0 {
        initial
    } else {
        grown(backoff(initial, (failures - 1) as nat))
    }
}

/// What to do after a failed attempt.
#[derive(Clone, Copy, Debug, PartialEq, Eq, Structural)]
pub enum RetryAction {
    /// Pause for this many seconds, then attempt again.
    Wait { seconds: u64 },
    /// Make no further attempt: the last failure is the outcome.
    GiveUp,
}

/// Where a run of attempts stands.
#[derive(Clone, Copy, Debug, PartialEq, Eq, Structural)]
pub struct RetryState {
    /// Failed attempts that were answered with a pause.
    pub retries: u32,
    /// How many retries the run may make.
    pub max_retries: u32,
    /// The next pause, in seconds.
    pub wait_interval: u64,
}

impl RetryState {
    /// The state before the first attempt.
    pub open spec fn start(max_retries: u32, retry_interval: u64) -> RetryState {
        RetryState { retries: 0, max_retries, wait_interval: retry_interval }
    }

    /// The answer to a failure that is reported in this state.
    pub open spec fn answer(self) -> RetryAction {
        if self.retries >= self.max_retries {
            RetryAction::GiveUp
        } else {
            RetryAction::Wait { seconds: self.wait_interval }
        }
    }

    /// The state after a failure was reported in this state.
    pub open spec fn next(self) -> RetryState {
        if self.retries >= self.max_retries {
            self
        } else {
            RetryState {
                retries: (self.retries + 1) as u32,
                max_retries: self.max_retries,
                wait_interval: grown(self.wait_interval as int) as u64,
            }
        }
    }

    /// The state after `failures` failures were reported, one after the other.
    pub open spec fn after(self, failures: nat) -> RetryState
        decreases failures,
    {
        if failures == 0 {
            self
        } else {
            self.after((failures - 1) as nat).next()
        }
    }

    /// A run that may retry `max_retries` times and pauses `retry_interval`
    /// seconds after its first failure.
    pub fn new(max_retries: u32, retry_interval: u64) -> (state: Self)
        ensures
            state == Self::start(max_retries, retry_interval),
    {
        RetryState { retries: 0, max_retries, wait_interval: retry_interval }
    }

    /// Reports a failed attempt. The answer is to give up where the retries
    /// are used up; else to pause for the current interval, which then grows.
    pub fn on_failure(&mut self) -> (action: RetryAction)
        ensures
            action == old(self).answer(),
            *final(self) == old(self).next(),
    {
        if self.retries >= self.max_retries {
            RetryAction::GiveUp
        } else {
            let seconds: u64 = self.wait_interval;
            self.retries = self.retries + 1;
            self.wait_interval = grow(seconds);
            RetryAction::Wait { seconds }
        }
    }
}

/// The pause that follows a pause of `wait` seconds.
pub fn grow(wait: u64) -> (next: u64)
    ensures
        next == grown(wait as int),
        next >= wait,
{
    let scaled: u128 = (wait as u128) * (BACKOFF_NUMERATOR as u128) / (BACKOFF_DENOMINATOR as u128);
    if scaled > u64::MAX as u128 {
        u64::MAX
    } else {
        scaled as u64
    }
}

/// The pause after the failed attempt number `failures + 1` of a run whose
/// first pause is `initial` seconds.
pub fn wait_after(initial: u64, failures: u32) -> (wait: u64)
    ensures
        wait == backoff(initial as int, failures as nat),
{
    let mut wait: u64 = initial;
    let mut done: u32 = 0;
    while done < failures
        invariant
            done <= failures,
            wait == backoff(initial as int, done as nat),
        decreases failures - done,
    {
        wait = grow(wait);
        done = done + 1;
    }
    wait
}

/// A pause is never shorter than the one before it.
pub proof fn lemma_grown_is_no_shorter(wait: int)
    requires
        0 <= wait <= u64::MAX,
    ensures
        wait <= grown(wait) <= u64::MAX,
{
}

/// Every pause of a run fits in a `u64` and is at least the first one.
pub proof fn lemma_backoff_bounds(initial: int, failures: nat)
    requires
        0 <= initial <= u64::MAX,
    ensures
        initial <= backoff(initial, failures) <= u64::MAX,
    decreases failures,
{
    if failures > 0 {
        lemma_backoff_bounds(initial, (failures - 1) as nat);
        lemma_grown_is_no_shorter(backoff(initial, (failures - 1) as nat));
    }
}

/// The pauses of a run do not decrease from one failed attempt to a later one.
pub proof fn lemma_backoff_non_decreasing(initial: int, earlier: nat, later: nat)
    requires
        0 <= initial <= u64::MAX,
        earlier <= later,
    ensures
        backoff(initial, earlier) <= backoff(initial, later),
    decreases later,
{
    if earlier < later {
        lemma_backoff_non_decreasing(initial, earlier, (later - 1) as nat);
        lemma_backoff_bounds(initial, (later - 1) as nat);
        lemma_grown_is_no_shorter(backoff(initial, (later - 1) as nat));
    }
}

/// While retries are left, the state after `failures` reported failures has
/// counted them and holds the pause that is due next.
pub proof fn lemma_state_after_failures(max_retries: u32, retry_interval: u64, failures: nat)
    requires
        failures <= max_retries,
    ensures
        RetryState::start(max_retries, retry_interval).after(failures) == (RetryState {
            retries: failures as u32,
            max_retries,
            wait_interval: backoff(retry_interval as int, failures) as u64,
        }),
    decreases failures,
{
    if failures > 0 {
        let before = (failures - 1) as nat;
        lemma_state_after_failures(max_retries, retry_interval, before);
        lemma_backoff_bounds(retry_interval as int, before);
        lemma_backoff_bounds(retry_interval as int, failures);
    }
}

/// A run in which every attempt fails makes exactly `max_retries + 1`
/// attempts: each of the first `max_retries` failures is answered with a
/// pause, the one after them with giving up. The pause after the failed
/// attempt number `n + 1` is `backoff(retry_interval, n)`.
pub proof fn lemma_attempts_before_giving_up(max_retries: u32, retry_interval: u64, failures: nat)
    requires
        failures <= max_retries,
    ensures
        failures < max_retries ==> RetryState::start(max_retries, retry_interval).after(
            failures,
        ).answer() == (RetryAction::Wait {
            seconds: backoff(retry_interval as int, failures) as u64,
        }),
        failures == max_retries ==> RetryState::start(max_retries, retry_interval).after(
            failures,
        ).answer() == RetryAction::GiveUp,
{
    lemma_state_after_failures(max_retries, retry_interval, failures);
}

/// Giving up is final: once the retries are used up, every further failure is
/// answered with giving up, and the state no longer changes.
pub proof fn lemma_giving_up_is_final(max_retries: u32, retry_interval: u64, failures: nat)
    requires
        failures >= max_retries,
    ensures
        RetryState::start(max_retries, retry_interval).after(failures)
            == RetryState::start(max_retries, retry_interval).after(max_retries as nat),
        RetryState::start(max_retries, retry_interval).after(failures).answer()
            == RetryAction::GiveUp,
    decreases failures,
{
    lemma_state_after_failures(max_retries, retry_interval, max_retries as nat);
    if failures > max_retries {
        lemma_giving_up_is_final(max_retries, retry_interval, (failures - 1) as nat);
    }
}

} // verus!
