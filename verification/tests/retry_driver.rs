use futures_retry::{ErrorHandler, FutureRetry, RetryPolicy};
use rand::rngs::StdRng;
use rand::SeedableRng;
use s3multiframesink::put_object_handler::{PutObjectHandler, RetryDecision};
use std::cell::Cell;
use std::rc::Rc;
use std::time::{Duration, Instant};

struct Adapter(PutObjectHandler);

impl ErrorHandler<String> for Adapter {
    type OutError = String;

    fn handle(&mut self, attempt: usize, error: String) -> RetryPolicy<String> {
        match self.0.handle(attempt, error) {
            RetryDecision::WaitRetry(nanos) => RetryPolicy::WaitRetry(Duration::from_nanos(nanos)),
            RetryDecision::ForwardError(error) => RetryPolicy::ForwardError(error),
        }
    }
}

fn drive(max_attempts: usize, failures: usize) -> (Result<u32, String>, usize, usize) {
    let invocations = Rc::new(Cell::new(0usize));
    let counter = invocations.clone();
    let operation = move || {
        counter.set(counter.get() + 1);
        let outcome: Result<u32, String> = if counter.get() > failures {
            Ok(7)
        } else {
            Err(format!("failure {}", counter.get()))
        };
        std::future::ready(outcome)
    };
    let handler = Adapter(PutObjectHandler::with_rng(
        max_attempts,
        1,
        StdRng::seed_from_u64(2024),
    ));
    let mut runtime = tokio::runtime::Builder::new()
        .basic_scheduler()
        .enable_all()
        .build()
        .unwrap();
    let done = runtime.block_on(FutureRetry::new(operation, handler));
    match done {
        Ok((value, attempt)) => (Ok(value), attempt, invocations.get()),
        Err((error, attempt)) => (Err(error), attempt, invocations.get()),
    }
}

#[test]
fn driver_gives_up_after_budget_plus_one_invocations() {
    for max_attempts in [0usize, 1, 3] {
        let (outcome, attempt, invocations) = drive(max_attempts, usize::MAX);
        assert_eq!(outcome, Err(format!("failure {}", max_attempts + 1)));
        assert_eq!(attempt, max_attempts + 1);
        assert_eq!(invocations, max_attempts + 1);
    }
}

#[test]
fn driver_returns_success_after_failures_plus_one_invocations() {
    for (max_attempts, failures) in [(3usize, 0usize), (3, 2), (3, 3), (5, 1)] {
        let (outcome, attempt, invocations) = drive(max_attempts, failures);
        assert_eq!(outcome, Ok(7));
        assert_eq!(attempt, failures + 1);
        assert_eq!(invocations, failures + 1);
    }
}

#[test]
fn driver_does_not_wait_before_the_first_invocation_or_after_success() {
    let started = Instant::now();
    let (outcome, _, invocations) = drive(5, 0);
    assert_eq!(outcome, Ok(7));
    assert_eq!(invocations, 1);
    assert!(started.elapsed() < Duration::from_millis(2_500));
}

#[test]
fn driver_waits_at_least_half_the_capped_waits() {
    let started = Instant::now();
    let (outcome, _, invocations) = drive(3, usize::MAX);
    assert!(outcome.is_err());
    assert_eq!(invocations, 4);
    assert!(started.elapsed() >= Duration::from_millis(5 + 10 + 20));
}
