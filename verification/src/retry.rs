//! The retry policy for work whose downstream service limits its rate: up
//! to five attempts, with a pause that starts at one second, doubles after
//! each failure and never exceeds thirty seconds.

use vstd::prelude::*;
use vstd::arithmetic::power2::{pow2, lemma2_to64};
use crate::text::{contains, str_contains};

verus! {

/// The most attempts that one piece of work gets.
pub const MAX_RETRY_ATTEMPTS: u32 = 5;

/// The pause before the second attempt, in milliseconds.
pub const INITIAL_DELAY_MS: u64 = 1000;

/// The longest pause, in milliseconds.
pub const MAX_DELAY_MS: u64 = 30000;

/// A failure message that tells of a rate limit.
pub open spec fn rate_limited(message: Seq<char>) -> bool {
    contains(message, "rate limit"@) || contains(message, "Too Many Requests"@)
}

/// The pause that follows a pause of `delay` milliseconds: twice as long,
/// but no longer than the maximum.
pub open spec fn doubled(delay: u64) -> u64 {
    if delay > 15000 {
        30000
    } else {
        (2 * delay) as u64
    }
}

/// The pause after the `failures`-th failed attempt in a row, counted from
/// zero, in milliseconds.
pub open spec fn delay_after(failures: nat) -> u64
    decreases failures,
{
    if failures == 0 {
        1000
    } else {
        doubled(delay_after((failures - 1) as nat))
    }
}

/// What to do after a failed attempt.
#[derive(Debug, Clone, Copy, PartialEq, Eq, Structural)]
pub enum RetryDecision {
    /// Wait this many milliseconds, then try again.
    RetryAfter(u64),
    /// The failure stands.
    GiveUp,
}

/// How far a piece of work has come with its attempts.
#[derive(Debug, Clone, Copy, PartialEq, Eq, Structural)]
pub struct Backoff {
    /// The attempts made so far.
    pub attempts: u32,
    /// The pause before the next attempt, should the last one fail.
    pub delay_ms: u64,
}

/// The decision after a failure with this message, in state `b`.
pub open spec fn decide(b: Backoff, message: Seq<char>) -> RetryDecision {
    if rate_limited(message) && b.attempts < MAX_RETRY_ATTEMPTS {
        RetryDecision::RetryAfter(b.delay_ms)
    } else {
        RetryDecision::GiveUp
    }
}

/// The state after a failure with this message, in state `b`.
pub open spec fn after_failure(b: Backoff, message: Seq<char>) -> Backoff {
    if rate_limited(message) && b.attempts < MAX_RETRY_ATTEMPTS {
        Backoff { attempts: b.attempts, delay_ms: doubled(b.delay_ms) }
    } else {
        b
    }
}

/// The state in which an attempt has just been started.
pub open spec fn after_attempt(b: Backoff) -> Backoff {
    Backoff {
        attempts: if b.attempts < u32::MAX {
            (b.attempts + 1) as u32
        } else {
            b.attempts
        },
        delay_ms: b.delay_ms,
    }
}

/// Whether a failure message tells of a rate limit.
pub fn is_rate_limited(message: &str) -> (r: bool)
    ensures
        r == rate_limited(message@),
{
    str_contains(message, "rate limit") || str_contains(message, "Too Many Requests")
}

impl Backoff {
    /// The state before the first attempt.
    pub fn new() -> (r: Backoff)
        ensures
            r == (Backoff { attempts: 0, delay_ms: 1000 }),
    {
        Backoff { attempts: 0, delay_ms: INITIAL_DELAY_MS }
    }

    /// Counts an attempt that is about to be made.
    pub fn begin_attempt(&mut self)
        ensures
            *final(self) == after_attempt(*old(self)),
    {
        if self.attempts < u32::MAX {
            self.attempts = self.attempts + 1;
        }
    }

    /// Decides what follows a failed attempt: a failure that tells of a
    /// rate limit is retried after the present pause, as long as attempts
    /// are left; the pause then doubles. Any other failure stands.
    pub fn on_failure(&mut self, message: &str) -> (r: RetryDecision)
        ensures
            r == decide(*old(self), message@),
            *final(self) == after_failure(*old(self), message@),
    {
        if is_rate_limited(message) && self.attempts < MAX_RETRY_ATTEMPTS {
            let delay = self.delay_ms;
            self.delay_ms = if delay > 15000 {
                MAX_DELAY_MS
            } else {
                2 * delay
            };
            RetryDecision::RetryAfter(delay)
        } else {
            RetryDecision::GiveUp
        }
    }
}

/// The state after `failures` attempts that each failed on a rate limit.
pub open spec fn after_failures(failures: nat, message: Seq<char>) -> Backoff
    decreases failures,
{
    if failures == 0 {
        Backoff { attempts: 0, delay_ms: 1000 }
    } else {
        after_failure(after_attempt(after_failures((failures - 1) as nat, message)), message)
    }
}

/// The pause after the `failures`-th failure is a second doubled
/// `failures` times, capped at thirty seconds: 1, 2, 4, 8 and 16 seconds,
/// then 30.
pub proof fn lemma_delay_closed_form(failures: nat)
    ensures
        delay_after(failures) == if failures <= 4 {
            1000 * pow2(failures)
        } else {
            30000
        },
        delay_after(failures) <= MAX_DELAY_MS,
    decreases failures,
{
    lemma2_to64();
    if failures > 0 {
        lemma_delay_closed_form((failures - 1) as nat);
    }
    if failures == 5 {
        assert(delay_after(4) == 16000);
    }
}

/// Work that keeps failing on a rate limit is tried five times and no
/// more: the first four failures are each followed by a retry, after 1, 2,
/// 4 and 8 seconds, and the fifth stands.
pub proof fn lemma_five_attempts(message: Seq<char>, failures: nat)
    requires
        rate_limited(message),
        failures <= 5,
    ensures
        after_failures(failures, message).attempts == failures,
        failures < 5 ==> after_failures(failures, message).delay_ms == delay_after(failures),
        failures < 4 ==> decide(
            after_attempt(after_failures(failures, message)),
            message,
        ) == RetryDecision::RetryAfter(delay_after(failures)),
        failures == 4 ==> decide(
            after_attempt(after_failures(failures, message)),
            message,
        ) == RetryDecision::GiveUp,
    decreases failures,
{
    if failures > 0 {
        lemma_five_attempts(message, (failures - 1) as nat);
    }
}

/// A failure that tells of no rate limit is never retried.
pub proof fn lemma_other_failures_stand(b: Backoff, message: Seq<char>)
    requires
        !rate_limited(message),
    ensures
        decide(b, message) == RetryDecision::GiveUp,
        after_failure(b, message) == b,
{
}

} // verus!
