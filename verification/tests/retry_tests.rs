use adventure_dl::retry::{after_failure, backoff, FetchFailure, RetryDecision, RetryPolicy};

#[test]
fn the_unbounded_policy_retries_at_once_and_for_ever() {
    for failures in [0, 1, 2, 1000, u32::MAX] {
        assert_eq!(
            after_failure(RetryPolicy::Unbounded, failures, false),
            RetryDecision::Retry { delay_ms: 0 }
        );
    }
}

#[test]
fn a_withdrawn_request_is_given_up() {
    assert_eq!(
        after_failure(RetryPolicy::Unbounded, 1, true),
        RetryDecision::GiveUp { reason: FetchFailure::Cancelled }
    );
    let bounded = RetryPolicy::Bounded { max_attempts: 3, base_delay_ms: 100, max_delay_ms: 1000 };
    assert_eq!(
        after_failure(bounded, 1, true),
        RetryDecision::GiveUp { reason: FetchFailure::Cancelled }
    );
    assert_eq!(
        after_failure(bounded, 3, true),
        RetryDecision::GiveUp { reason: FetchFailure::Cancelled }
    );
}

#[test]
fn the_wait_doubles_up_to_the_cap() {
    assert_eq!(backoff(100, 1000, 1), 100);
    assert_eq!(backoff(100, 1000, 2), 200);
    assert_eq!(backoff(100, 1000, 3), 400);
    assert_eq!(backoff(100, 1000, 4), 800);
    assert_eq!(backoff(100, 1000, 5), 1000);
    assert_eq!(backoff(100, 1000, 6), 1000);
    assert_eq!(backoff(100, 1000, u32::MAX), 1000);
}

#[test]
fn before_any_failure_the_wait_is_the_base() {
    assert_eq!(backoff(100, 1000, 0), 100);
}

#[test]
fn a_base_above_the_cap_is_capped() {
    assert_eq!(backoff(5000, 1000, 1), 1000);
    assert_eq!(backoff(1000, 1000, 7), 1000);
    assert_eq!(backoff(1, 0, 3), 0);
}

#[test]
fn a_base_of_zero_never_waits() {
    assert_eq!(backoff(0, 1000, 1), 0);
    assert_eq!(backoff(0, 1000, u32::MAX), 0);
}

#[test]
fn doubling_does_not_overflow() {
    assert_eq!(backoff(1, u64::MAX, 64), 1u64 << 63);
    assert_eq!(backoff(1, u64::MAX, 65), u64::MAX);
    assert_eq!(backoff(3, u64::MAX, 63), 3u64 << 62);
    assert_eq!(backoff(3, u64::MAX, 64), u64::MAX);
    assert_eq!(backoff(u64::MAX - 1, u64::MAX, 2), u64::MAX);
}

#[test]
fn the_bounded_policy_waits_then_gives_up() {
    let policy = RetryPolicy::Bounded { max_attempts: 3, base_delay_ms: 250, max_delay_ms: 400 };
    assert_eq!(after_failure(policy, 1, false), RetryDecision::Retry { delay_ms: 250 });
    assert_eq!(after_failure(policy, 2, false), RetryDecision::Retry { delay_ms: 400 });
    assert_eq!(
        after_failure(policy, 3, false),
        RetryDecision::GiveUp { reason: FetchFailure::RetriesExhausted }
    );
    assert_eq!(
        after_failure(policy, 4, false),
        RetryDecision::GiveUp { reason: FetchFailure::RetriesExhausted }
    );
}

#[test]
fn a_policy_without_attempts_gives_up_at_once() {
    let policy = RetryPolicy::Bounded { max_attempts: 0, base_delay_ms: 1, max_delay_ms: 1 };
    assert_eq!(
        after_failure(policy, 0, false),
        RetryDecision::GiveUp { reason: FetchFailure::RetriesExhausted }
    );
}
