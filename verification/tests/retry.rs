use anchoring::retry::{
    is_rate_limited, Backoff, RetryDecision, INITIAL_DELAY_MS, MAX_DELAY_MS, MAX_RETRY_ATTEMPTS,
};

#[test]
fn rate_limits_are_told_by_their_message() {
    assert!(is_rate_limited("OpenAI API error: rate limit reached"));
    assert!(is_rate_limited("429 Too Many Requests"));
    assert!(!is_rate_limited("Rate Limit"));
    assert!(!is_rate_limited("connection reset"));
    assert!(!is_rate_limited(""));
}

#[test]
fn policy_constants() {
    assert_eq!(MAX_RETRY_ATTEMPTS, 5);
    assert_eq!(INITIAL_DELAY_MS, 1000);
    assert_eq!(MAX_DELAY_MS, 30000);
}

#[test]
fn rate_limited_work_is_tried_five_times_with_doubling_pauses() {
    let mut backoff = Backoff::new();
    let mut pauses = Vec::new();
    loop {
        backoff.begin_attempt();
        match backoff.on_failure("rate limit") {
            RetryDecision::RetryAfter(ms) => pauses.push(ms),
            RetryDecision::GiveUp => break,
        }
    }
    assert_eq!(pauses, vec![1000, 2000, 4000, 8000]);
    assert_eq!(backoff.attempts, 5);
}

#[test]
fn other_failures_are_not_retried() {
    let mut backoff = Backoff::new();
    backoff.begin_attempt();
    assert_eq!(backoff.on_failure("parse error"), RetryDecision::GiveUp);
    assert_eq!(backoff, Backoff { attempts: 1, delay_ms: 1000 });
}

#[test]
fn pause_never_exceeds_thirty_seconds() {
    let mut backoff = Backoff { attempts: 0, delay_ms: 16000 };
    assert_eq!(backoff.on_failure("rate limit"), RetryDecision::RetryAfter(16000));
    assert_eq!(backoff.delay_ms, 30000);
    assert_eq!(backoff.on_failure("rate limit"), RetryDecision::RetryAfter(30000));
    assert_eq!(backoff.delay_ms, 30000);
    let mut huge = Backoff { attempts: 0, delay_ms: u64::MAX };
    assert_eq!(huge.on_failure("rate limit"), RetryDecision::RetryAfter(u64::MAX));
    assert_eq!(huge.delay_ms, 30000);
}

#[test]
fn attempts_are_counted_without_overflow() {
    let mut backoff = Backoff { attempts: u32::MAX, delay_ms: 1000 };
    backoff.begin_attempt();
    assert_eq!(backoff.attempts, u32::MAX);
    assert_eq!(backoff.on_failure("rate limit"), RetryDecision::GiveUp);
}
