//! What follows a failed request to the server: another attempt, at once or
//! after a wait that doubles from failure to failure, or the end of trying.

use vstd::arithmetic::power2::{lemma_pow2_pos, lemma_pow2_unfold, pow2};
use vstd::math::min;
use vstd::prelude::*;

verus! {

/// How patiently a request is repeated.
#[derive(Clone, Copy, Debug, PartialEq, Eq)]
pub enum RetryPolicy {
    /// Every failure is followed by another attempt, at once and without end.
    Unbounded,
    /// There are at most `max_attempts` attempts. The wait after the first
    /// failure is `base_delay_ms`; it doubles with each further failure and
    /// never exceeds `max_delay_ms`.
    Bounded { max_attempts: u32, base_delay_ms: u64, max_delay_ms: u64 },
}

/// Why a request was given up.
#[derive(Clone, Copy, Debug, PartialEq, Eq)]
pub enum FetchFailure {
    /// Every attempt that the policy allows has failed.
    RetriesExhausted,
    /// The caller withdrew the request.
    Cancelled,
}

/// What to do after a failed attempt.
#[derive(Clone, Copy, Debug, PartialEq, Eq)]
pub enum RetryDecision {
    /// Wait so many milliseconds, then make the same request again.
    Retry { delay_ms: u64 },
    /// Make no further attempt.
    GiveUp { reason: FetchFailure },
}

/// How often the base delay has doubled once `failures` attempts have failed.
pub open spec fn doublings(failures: u32) -> nat {
    if failures == 0 {
        0
    } else {
        (failures - 1) as nat
    }
}

/// The wait after the `failures`-th failure in a row.
pub open spec fn backoff_delay(base_delay_ms: u64, max_delay_ms: u64, failures: u32) -> int {
    min(base_delay_ms * pow2(doublings(failures)), max_delay_ms as int)
}

/// What follows the `failures`-th failure in a row. A withdrawn request is
/// given up under either policy.
pub open spec fn retry_decision(policy: RetryPolicy, failures: u32, cancelled: bool)
    -> RetryDecision {
    if cancelled {
        RetryDecision::GiveUp { reason: FetchFailure::Cancelled }
    } else {
        match policy {
            RetryPolicy::Unbounded => RetryDecision::Retry { delay_ms: 0 },
            RetryPolicy::Bounded { max_attempts, base_delay_ms, max_delay_ms } => if failures
                >= max_attempts {
                RetryDecision::GiveUp { reason: FetchFailure::RetriesExhausted }
            } else {
                RetryDecision::Retry {
                    delay_ms: backoff_delay(base_delay_ms, max_delay_ms, failures) as u64,
                }
            },
        }
    }
}

/// One more doubling doubles the product.
proof fn lemma_double(base: int, e: nat)
    ensures
        base * pow2(e + 1) == 2 * (base * pow2(e)),
{
    lemma_pow2_unfold(e + 1);
    assert(base * (2 * pow2(e)) == 2 * (base * pow2(e))) by (nonlinear_arith);
}

/// Once the product has reached a bound, further doublings keep it there.
proof fn lemma_stays_above(base: int, bound: int, e1: nat, e2: nat)
    requires
        0 <= base,
        e1 <= e2,
        base * pow2(e1) >= bound,
    ensures
        base * pow2(e2) >= bound,
    decreases e2 - e1,
{
    if e1 < e2 {
        lemma_double(base, e1);
        lemma_pow2_pos(e1);
        assert(base * pow2(e1) >= 0) by (nonlinear_arith)
            requires
                0 <= base,
                pow2(e1) > 0,
        ;
        lemma_stays_above(base, bound, e1 + 1, e2);
    }
}

/// The wait after the `failures`-th failure in a row under a bounded policy.
pub fn backoff(base_delay_ms: u64, max_delay_ms: u64, failures: u32) -> (delay: u64)
    ensures
        delay == backoff_delay(base_delay_ms, max_delay_ms, failures),
        delay <= max_delay_ms,
{
    let target: u32 = if failures == 0 {
        0
    } else {
        failures - 1
    };
    proof {
        vstd::arithmetic::power2::lemma2_to64();
        assert(base_delay_ms * 1 == base_delay_ms);
    }
    if base_delay_ms == 0 {
        assert(0 * pow2(doublings(failures)) == 0);
        return 0;
    }
    if base_delay_ms >= max_delay_ms {
        proof {
            lemma_stays_above(base_delay_ms as int, max_delay_ms as int, 0, doublings(failures));
        }
        return max_delay_ms;
    }
    let mut delay: u64 = base_delay_ms;
    let mut done: u32 = 0;
    while done < target && delay < max_delay_ms
        invariant
            done <= target,
            target == doublings(failures),
            0 < delay <= max_delay_ms,
            delay == min(base_delay_ms * pow2(done as nat), max_delay_ms as int),
        decreases target - done,
    {
        proof {
            lemma_double(base_delay_ms as int, done as nat);
        }
        if delay > max_delay_ms / 2 {
            delay = max_delay_ms;
        } else {
            delay = delay * 2;
        }
        done += 1;
    }
    proof {
        if done < target {
            lemma_stays_above(
                base_delay_ms as int,
                max_delay_ms as int,
                done as nat,
                doublings(failures),
            );
        }
    }
    delay
}

/// Decides what follows the `failures`-th failure in a row of one request.
/// `cancelled` says whether the caller has withdrawn the request meanwhile.
pub fn after_failure(policy: RetryPolicy, failures: u32, cancelled: bool) -> (decision:
    RetryDecision)
    ensures
        decision == retry_decision(policy, failures, cancelled),
{
    if cancelled {
        return RetryDecision::GiveUp { reason: FetchFailure::Cancelled };
    }
    match policy {
        RetryPolicy::Unbounded => RetryDecision::Retry { delay_ms: 0 },
        RetryPolicy::Bounded { max_attempts, base_delay_ms, max_delay_ms } => {
            if failures >= max_attempts {
                RetryDecision::GiveUp { reason: FetchFailure::RetriesExhausted }
            } else {
                RetryDecision::Retry { delay_ms: backoff(base_delay_ms, max_delay_ms, failures) }
            }
        },
    }
}

/// Under the unbounded policy a request that nobody withdraws is never given
/// up and never waits; under a bounded one the `max_attempts`-th failure is
/// the last, and no wait exceeds the cap.
pub proof fn lemma_retry_policies(policy: RetryPolicy, failures: u32)
    ensures
        policy is Unbounded ==> retry_decision(policy, failures, false) == (RetryDecision::Retry {
            delay_ms: 0,
        }),
        policy matches RetryPolicy::Bounded { max_attempts, base_delay_ms, max_delay_ms } ==> {
            &&& failures >= max_attempts ==> retry_decision(policy, failures, false)
                == (RetryDecision::GiveUp { reason: FetchFailure::RetriesExhausted })
            &&& failures < max_attempts ==> (retry_decision(policy, failures, false)
                matches RetryDecision::Retry { delay_ms } && delay_ms <= max_delay_ms)
        },
        retry_decision(policy, failures, true) == (RetryDecision::GiveUp {
            reason: FetchFailure::Cancelled,
        }),
{
    if let RetryPolicy::Bounded { max_attempts, base_delay_ms, max_delay_ms } = policy {
        lemma_pow2_pos(doublings(failures));
        assert(base_delay_ms * pow2(doublings(failures)) >= 0) by (nonlinear_arith)
            requires
                base_delay_ms >= 0,
                pow2(doublings(failures)) > 0,
        ;
    }
}

} // verus!
