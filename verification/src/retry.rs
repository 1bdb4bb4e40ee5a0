//! Retry policy with exponential backoff.
//!
//! The policy decides; whoever runs the operation performs the attempts and
//! the waits. After each failed attempt the caller asks
//! [`Backoff::after_failure`] whether to try again and how long to wait
//! first; a success ends the run at once.

use vstd::arithmetic::mul::lemma_mul_inequality;
use vstd::arithmetic::power2::*;
use vstd::prelude::*;

verus! {

/// Retry policy: at most `attempts` attempts in all (the first one
/// included), waiting `base_delay × 2^(n−1)` milliseconds, at most
/// `max_delay`, before retry number `n`.
#[derive(Debug, Clone, Copy)]
pub struct Backoff {
    /// Maximum number of attempts, the first one included.
    pub attempts: u32,
    /// Delay before the first retry, in milliseconds.
    pub base_delay: u64,
    /// Ceiling of any delay, in milliseconds.
    pub max_delay: u64,
}

impl Default for Backoff {
    /// Three attempts, half a second before the first retry, eight seconds
    /// at most.
    fn default() -> (b: Self)
        ensures
            b.attempts == 3,
            b.base_delay == 500,
            b.max_delay == 8000,
    {
        Backoff { attempts: 3, base_delay: 500, max_delay: 8000 }
    }
}

/// `2^n`, saturated at `u32::MAX` (what `2_u32.saturating_pow(n)` gives).
pub open spec fn saturating_pow2(n: nat) -> nat {
    if pow2(n) <= u32::MAX {
        pow2(n)
    } else {
        u32::MAX as nat
    }
}

/// `x`, saturated at `u64::MAX`.
pub open spec fn saturate_u64(x: int) -> int {
    if x <= u64::MAX {
        x
    } else {
        u64::MAX as int
    }
}

/// The delay, in milliseconds, before retry number `retry_no` (counted from
/// 1): `base × 2^(retry_no − 1)` with saturating arithmetic, capped at `max`.
pub open spec fn spec_delay(base: u64, max: u64, retry_no: nat) -> int
    recommends
        retry_no >= 1,
{
    let raw = saturate_u64(base * saturating_pow2((retry_no - 1) as nat));
    if raw <= max {
        raw
    } else {
        max as int
    }
}

/// What the policy says after a failed attempt.
#[derive(Debug, Clone, Copy, PartialEq, Eq)]
pub enum RetryDecision {
    /// Hand the failure to the caller.
    GiveUp,
    /// Wait `delay` milliseconds, then make attempt `retries + 1` (so that
    /// `retries` retries have been made).
    RetryAfter { retries: u32, delay: u64 },
}

/// The decision after a failure, when `retries` retries had been made
/// before it and the failure is `retryable` or not.
pub open spec fn spec_after_failure(policy: Backoff, retries: nat, retryable: bool) -> RetryDecision {
    if retries + 1 < policy.attempts && retryable {
        RetryDecision::RetryAfter {
            retries: (retries + 1) as u32,
            delay: spec_delay(policy.base_delay, policy.max_delay, retries + 1) as u64,
        }
    } else {
        RetryDecision::GiveUp
    }
}

/// `2_u32.saturating_pow(n)`.
fn saturating_pow2_u32(n: u32) -> (p: u32)
    ensures
        p == saturating_pow2(n as nat),
{
    let mut p: u32 = 1;
    let mut i: u32 = 0;
    proof {
        reveal(vstd::arithmetic::power::pow);
    }
    while i < n
        invariant
            i <= n,
            p == saturating_pow2(i as nat),
        decreases n - i,
    {
        proof {
            lemma_pow2_unfold((i + 1) as nat);
            lemma_pow2_pos(i as nat);
        }
        if p > u32::MAX / 2 {
            // Saturated from here on: 2^(i+1) > u32::MAX, and so every later power.
            proof {
                assert(pow2((i + 1) as nat) > u32::MAX);
                assert forall|k: nat| i < k <= n implies #[trigger] pow2(k) > u32::MAX by {
                    if k > i + 1 {
                        lemma_pow2_strictly_increases((i + 1) as nat, k);
                    }
                }
                assert(pow2(n as nat) > u32::MAX);
            }
            return u32::MAX;
        }
        p = p * 2;
        i = i + 1;
    }
    p
}

impl Backoff {
    /// Delay, in milliseconds, before retry number `retry_no` (counted from
    /// 1): `base_delay × 2^(retry_no − 1)`, capped at `max_delay`.
    pub fn delay_before(&self, retry_no: u32) -> (d: u64)
        requires
            retry_no >= 1,
        ensures
            d == spec_delay(self.base_delay, self.max_delay, retry_no as nat),
    {
        let factor = saturating_pow2_u32(retry_no - 1);
        let raw: u64 = match self.base_delay.checked_mul(factor as u64) {
            Some(v) => v,
            None => u64::MAX,
        };
        if raw <= self.max_delay {
            raw
        } else {
            self.max_delay
        }
    }

    /// Whether a failure after `retries` retries may be retried at all,
    /// i.e. whether the attempt budget has one more attempt left.
    pub fn may_retry(&self, retries: u32) -> (b: bool)
        ensures
            b == (retries + 1 < self.attempts),
    {
        retries < self.attempts && retries + 1 < self.attempts
    }

    /// Decision after a failed attempt: retry only when the failure is
    /// `retryable` and the attempt budget is not spent; then wait
    /// `delay_before(retries + 1)`.
    pub fn after_failure(&self, retries: u32, retryable: bool) -> (d: RetryDecision)
        ensures
            d == spec_after_failure(*self, retries as nat, retryable),
    {
        if self.may_retry(retries) && retryable {
            let next = retries + 1;
            RetryDecision::RetryAfter { retries: next, delay: self.delay_before(next) }
        } else {
            RetryDecision::GiveUp
        }
    }
}

/// Outcome of one attempt of the retried operation.
pub enum AttemptOutcome {
    Succeeded,
    Failed { retryable: bool },
}

/// Number of attempts that a run makes when the policy is followed from a
/// state with `retries` retries made, where `outcome(i)` is the outcome of
/// attempt `i` (counted from 0): a success ends the run, and a failure ends
/// it unless [`spec_after_failure`] says to retry.
pub open spec fn attempts_made(
    policy: Backoff,
    retries: nat,
    outcome: spec_fn(nat) -> AttemptOutcome,
) -> nat
    decreases policy.attempts - retries,
{
    match outcome(retries) {
        AttemptOutcome::Succeeded => 1,
        AttemptOutcome::Failed { retryable } => match spec_after_failure(
            policy,
            retries,
            retryable,
        ) {
            RetryDecision::GiveUp => 1,
            RetryDecision::RetryAfter { retries: next, .. } => 1 + attempts_made(
                policy,
                next as nat,
                outcome,
            ),
        },
    }
}

/// A retryable failure.
pub open spec fn retryable_failure(o: AttemptOutcome) -> bool {
    o matches AttemptOutcome::Failed { retryable } && retryable
}

/// A failure that is not retryable.
pub open spec fn permanent_failure(o: AttemptOutcome) -> bool {
    o matches AttemptOutcome::Failed { retryable } && !retryable
}

/// The shape of a run of `n` attempts from a state with `retries` retries
/// made: every attempt but the last failed retryably, and the last one
/// succeeded, failed permanently, or spent the budget.
pub open spec fn run_shape(
    policy: Backoff,
    retries: nat,
    outcome: spec_fn(nat) -> AttemptOutcome,
    n: nat,
) -> bool {
    &&& 1 <= n
    &&& retries + n <= policy.attempts || n == 1
    &&& forall|i: nat| retries <= i < retries + n - 1 ==> retryable_failure(#[trigger] outcome(i))
    &&& {
        let last = outcome((retries + n - 1) as nat);
        ||| last is Succeeded
        ||| permanent_failure(last)
        ||| retries + n >= policy.attempts
    }
}

proof fn lemma_attempts_made_from(
    policy: Backoff,
    retries: nat,
    outcome: spec_fn(nat) -> AttemptOutcome,
)
    requires
        retries < policy.attempts || retries == 0,
    ensures
        run_shape(policy, retries, outcome, attempts_made(policy, retries, outcome)),
    decreases policy.attempts - retries,
{
    match outcome(retries) {
        AttemptOutcome::Succeeded => {},
        AttemptOutcome::Failed { retryable } => {
            if retries + 1 < policy.attempts && retryable {
                lemma_attempts_made_from(policy, retries + 1, outcome);
            }
        },
    }
}

/// A run of the retry loop makes at least one attempt and at most
/// `attempts` attempts, the first one included (exactly one where
/// `attempts` is 0); every attempt but the last failed with a retryable
/// error; and the run stops at the first success, at the first failure that
/// is not retryable, or when the attempt budget is spent.
pub proof fn lemma_retry_run(policy: Backoff, outcome: spec_fn(nat) -> AttemptOutcome)
    ensures
        run_shape(policy, 0, outcome, attempts_made(policy, 0, outcome)),
{
    lemma_attempts_made_from(policy, 0, outcome);
}

/// The size of the attempt budget: `attempts`, or one attempt where
/// `attempts` is 0.
pub open spec fn budget(policy: Backoff) -> nat {
    if policy.attempts == 0 {
        1
    } else {
        policy.attempts as nat
    }
}

/// Every retryable failure is retried until the budget is spent: when every
/// attempt fails retryably, a run makes exactly `budget(policy)` attempts.
pub proof fn lemma_retry_exhausts_budget(policy: Backoff, outcome: spec_fn(nat) -> AttemptOutcome)
    requires
        forall|i: nat| retryable_failure(#[trigger] outcome(i)),
    ensures
        attempts_made(policy, 0, outcome) == budget(policy),
{
    lemma_attempts_made_from(policy, 0, outcome);
    let n = attempts_made(policy, 0, outcome);
    assert(retryable_failure(outcome((n - 1) as nat)));
}

/// A failure that is not retryable is never retried: when the first attempt
/// fails so, the run makes that one attempt.
pub proof fn lemma_permanent_failure_not_retried(
    policy: Backoff,
    outcome: spec_fn(nat) -> AttemptOutcome,
)
    requires
        permanent_failure(outcome(0)),
    ensures
        attempts_made(policy, 0, outcome) == 1,
{
}

/// A run whose first `k` attempts fail retryably and whose next attempt
/// succeeds makes `k + 1` attempts, provided the budget allows them.
pub proof fn lemma_success_after_transient_failures(
    policy: Backoff,
    outcome: spec_fn(nat) -> AttemptOutcome,
    k: nat,
)
    requires
        k < policy.attempts,
        forall|i: nat| i < k ==> retryable_failure(#[trigger] outcome(i)),
        outcome(k) is Succeeded,
    ensures
        attempts_made(policy, 0, outcome) == k + 1,
{
    lemma_attempts_made_from(policy, 0, outcome);
    let n = attempts_made(policy, 0, outcome);
    if n < k + 1 {
        assert(retryable_failure(outcome((n - 1) as nat)));
    } else if n > k + 1 {
        assert(retryable_failure(outcome(k)));
    }
}

/// The factor of retry number `n`: `2^(n−1)`, saturated at `u32::MAX`, as
/// `2_u32.saturating_pow(n − 1)` gives it.
pub open spec fn backoff_factor(n: nat) -> int {
    let p = pow2((n - 1) as nat);
    if p <= u32::MAX {
        p as int
    } else {
        u32::MAX as int
    }
}

/// What the policy says after a failure: it retries exactly when the failure
/// is retryable and an attempt is left (`retries + 1 < attempts`); then it
/// counts one more retry and waits `base_delay × 2^retries` milliseconds,
/// never more than `max_delay`: the wait is
/// `min(base_delay × min(2^retries, u32::MAX), max_delay)`.
pub proof fn lemma_after_failure_waits_capped(policy: Backoff, retries: u32, retryable: bool)
    ensures
        (spec_after_failure(policy, retries as nat, retryable) is RetryAfter) <==> (retries + 1
            < policy.attempts && retryable),
        spec_after_failure(policy, retries as nat, retryable) matches RetryDecision::RetryAfter {
            retries: n,
            delay,
        } ==> n == retries + 1 && delay <= policy.max_delay && delay as int == if policy.base_delay
            * backoff_factor(n as nat) <= policy.max_delay {
            policy.base_delay * backoff_factor(n as nat)
        } else {
            policy.max_delay as int
        },
{
    if retries + 1 < policy.attempts && retryable {
        let n = (retries + 1) as nat;
        let f = saturating_pow2((n - 1) as nat);
        assert(f == backoff_factor(n));
        assert(policy.base_delay * f >= 0) by (nonlinear_arith)
            requires
                f >= 0,
        ;
    }
}

/// Delays never exceed `max_delay` and never shrink from one retry to the
/// next.
pub proof fn lemma_delay_monotone_and_capped(policy: Backoff, a: nat, b: nat)
    requires
        1 <= a <= b,
    ensures
        spec_delay(policy.base_delay, policy.max_delay, a) <= spec_delay(
            policy.base_delay,
            policy.max_delay,
            b,
        ),
        spec_delay(policy.base_delay, policy.max_delay, b) <= policy.max_delay,
        0 <= spec_delay(policy.base_delay, policy.max_delay, a),
{
    let ea = (a - 1) as nat;
    let eb = (b - 1) as nat;
    if ea < eb {
        lemma_pow2_strictly_increases(ea, eb);
    }
    assert(saturating_pow2(ea) <= saturating_pow2(eb));
    lemma_mul_inequality(
        saturating_pow2(ea) as int,
        saturating_pow2(eb) as int,
        policy.base_delay as int,
    );
    assert(saturating_pow2(ea) * policy.base_delay == policy.base_delay * saturating_pow2(ea))
        by (nonlinear_arith);
    assert(saturating_pow2(eb) * policy.base_delay == policy.base_delay * saturating_pow2(eb))
        by (nonlinear_arith);
    assert(policy.base_delay * saturating_pow2(ea) >= 0) by (nonlinear_arith);
}

} // verus!
