use fortochka::retry::{Backoff, RetryDecision};

fn fast() -> Backoff {
    Backoff { attempts: 3, base_delay: 1, max_delay: 2 }
}

/// Runs `op` under `policy` as a caller of the policy does, recording the
/// waits instead of sleeping.
fn run<T, E>(
    policy: &Backoff,
    mut should_retry: impl FnMut(&E) -> bool,
    mut op: impl FnMut() -> Result<T, E>,
    waits: &mut Vec<u64>,
) -> Result<T, E> {
    let mut retries = 0;
    loop {
        match op() {
            Ok(value) => return Ok(value),
            Err(err) => {
                let retryable = policy.may_retry(retries) && should_retry(&err);
                match policy.after_failure(retries, retryable) {
                    RetryDecision::RetryAfter { retries: next, delay } => {
                        retries = next;
                        waits.push(delay);
                    }
                    RetryDecision::GiveUp => return Err(err),
                }
            }
        }
    }
}

#[test]
fn succeeds_after_transient_failures() {
    let mut calls = 0;
    let mut waits = Vec::new();
    let result = run(
        &fast(),
        |_: &&str| true,
        || {
            calls += 1;
            if calls < 3 {
                Err("временная")
            } else {
                Ok(calls)
            }
        },
        &mut waits,
    );
    assert_eq!(result, Ok(3));
    assert_eq!(waits, vec![1, 2]);
}

#[test]
fn gives_up_after_all_attempts() {
    let mut calls = 0;
    let mut waits = Vec::new();
    let result: Result<(), _> = run(
        &fast(),
        |_| true,
        || {
            calls += 1;
            Err("всегда падаю")
        },
        &mut waits,
    );
    assert_eq!(result, Err("всегда падаю"));
    assert_eq!(calls, 3);
}

#[test]
fn does_not_retry_permanent_errors() {
    let mut calls = 0;
    let mut waits = Vec::new();
    let result: Result<(), _> = run(
        &fast(),
        |_| false,
        || {
            calls += 1;
            Err("постоянная")
        },
        &mut waits,
    );
    assert!(result.is_err());
    assert_eq!(calls, 1);
    assert!(waits.is_empty());
}

#[test]
fn default_policy() {
    let b = Backoff::default();
    assert_eq!((b.attempts, b.base_delay, b.max_delay), (3, 500, 8000));
}

#[test]
fn delays_double_then_cap() {
    let b = Backoff::default();
    assert_eq!(b.delay_before(1), 500);
    assert_eq!(b.delay_before(2), 1000);
    assert_eq!(b.delay_before(3), 2000);
    assert_eq!(b.delay_before(4), 4000);
    assert_eq!(b.delay_before(5), 8000);
    assert_eq!(b.delay_before(6), 8000);
    assert_eq!(b.delay_before(40), 8000);
    assert_eq!(b.delay_before(u32::MAX), 8000);
}

#[test]
fn delay_saturates_instead_of_overflowing() {
    let b = Backoff { attempts: 10, base_delay: u64::MAX / 2, max_delay: u64::MAX };
    assert_eq!(b.delay_before(1), u64::MAX / 2);
    assert_eq!(b.delay_before(3), u64::MAX);
    assert_eq!(b.delay_before(33), u64::MAX);
}

#[test]
fn decision_after_failure() {
    let b = Backoff::default();
    assert_eq!(b.after_failure(0, true), RetryDecision::RetryAfter { retries: 1, delay: 500 });
    assert_eq!(b.after_failure(1, true), RetryDecision::RetryAfter { retries: 2, delay: 1000 });
    assert_eq!(b.after_failure(2, true), RetryDecision::GiveUp);
    assert_eq!(b.after_failure(0, false), RetryDecision::GiveUp);
    assert!(b.may_retry(1));
    assert!(!b.may_retry(2));
}

#[test]
fn zero_attempts_still_make_one() {
    let b = Backoff { attempts: 0, base_delay: 1, max_delay: 1 };
    assert_eq!(b.after_failure(0, true), RetryDecision::GiveUp);
    let mut calls = 0;
    let mut waits = Vec::new();
    let result: Result<(), _> = run(&b, |_| true, || {
        calls += 1;
        Err(())
    }, &mut waits);
    assert!(result.is_err());
    assert_eq!(calls, 1);
}
