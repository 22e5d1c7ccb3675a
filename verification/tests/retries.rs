use std::time::Duration;
use tower_request::concurrency::Concurrency;
use tower_request::config::TowerRequestConfig;
use tower_request::retries::{Attempt, FixedRetryPolicy, RetryAction, RetryLogic};
use tower_request::time::add_capped;

#[derive(Clone, Copy, Debug)]
struct RetryAlways;

impl RetryLogic for RetryAlways {
    type Error = std::io::Error;
    type Response = ();

    fn is_retriable_error(&self, _: &Self::Error) -> bool {
        true
    }

    fn should_retry_response(&self, _response: &Self::Response) -> RetryAction {
        // Treat the default as the request is successful
        RetryAction::Successful
    }
}

/// Retries what is even.
#[derive(Clone, Copy, Debug)]
struct RetryEven;

impl RetryLogic for RetryEven {
    type Error = u32;
    type Response = u32;

    fn is_retriable_error(&self, error: &u32) -> bool {
        *error % 2 == 0
    }

    fn should_retry_response(&self, response: &u32) -> RetryAction {
        if *response % 2 == 0 {
            RetryAction::Retry("even".to_string())
        } else {
            RetryAction::DontRetry("odd".to_string())
        }
    }
}

fn policy(attempts: usize, initial: u64, max: u64) -> FixedRetryPolicy<RetryAlways> {
    TowerRequestConfig::default()
        .retry_attempts(attempts)
        .retry_initial_backoff_secs(initial)
        .retry_max_duration_secs(max)
        .unwrap_with(&TowerRequestConfig::default())
        .retry_policy(RetryAlways)
}

fn waits(attempts: usize, initial: u64, max: u64) -> Vec<u64> {
    let mut policy = policy(attempts, initial, max);
    let mut waits = Vec::new();
    while let Some((wait, next)) = policy.after_attempt(&Attempt::TimedOut) {
        assert_eq!(wait, policy.backoff());
        assert_eq!(next.remaining_attempts, policy.remaining_attempts - 1);
        waits.push(wait.as_secs());
        policy = next;
    }
    assert_eq!(policy.remaining_attempts, 0);
    waits
}

#[test]
fn waits_grow_as_the_fibonacci_sequence() {
    assert_eq!(waits(8, 1, 3_600), vec![1, 1, 2, 3, 5, 8, 13, 21]);
    assert_eq!(waits(6, 5, 3_600), vec![5, 5, 10, 15, 25, 40]);
}

#[test]
fn waits_between_retries_are_capped() {
    assert_eq!(waits(7, 1, 4), vec![1, 1, 2, 3, 4, 4, 4]);
    assert_eq!(waits(4, 10, 4), vec![10, 4, 4, 4]);
    assert_eq!(waits(4, u64::MAX, u64::MAX), vec![u64::MAX; 4]);
    assert_eq!(waits(3, 0, 4), vec![0, 0, 0]);
}

#[test]
fn no_retries_without_attempts() {
    assert_eq!(waits(0, 1, 4), Vec::<u64>::new());
}

#[test]
fn policy_holds_the_settings() {
    let policy = policy(3, 2, 9);
    assert_eq!(policy.remaining_attempts, 3);
    assert_eq!(policy.previous_duration, Duration::from_secs(0));
    assert_eq!(policy.current_duration, Duration::from_secs(2));
    assert_eq!(policy.max_duration, Duration::from_secs(9));
    let next = policy.advance();
    assert_eq!(next.remaining_attempts, 2);
    assert_eq!(next.previous_duration, Duration::from_secs(2));
    assert_eq!(next.current_duration, Duration::from_secs(2));
    assert_eq!(next.advance().current_duration, Duration::from_secs(4));
    let copy = next.clone();
    assert_eq!(copy.remaining_attempts, 2);
    assert_eq!(copy.max_duration, Duration::from_secs(9));
}

#[test]
fn errors_are_retried_and_successes_are_not() {
    let policy = policy(2, 1, 4);
    let error = std::io::Error::new(std::io::ErrorKind::Other, "");
    let (wait, next) = policy.after_error(&error).unwrap();
    assert_eq!(wait, Duration::from_secs(1));
    assert!(next.after_response(&()).is_none());
    assert!(policy.after_attempt(&Attempt::FailedUnexpectedly).is_none());
    assert!(policy.after_attempt(&Attempt::Responded(RetryAction::Successful)).is_none());
    assert!(policy.after_attempt(&Attempt::Failed { retriable: false }).is_none());
    assert!(policy.after_attempt(&Attempt::Failed { retriable: true }).is_some());
}

#[test]
fn the_logic_decides() {
    let settings = TowerRequestConfig::new(Concurrency::Fixed(1))
        .unwrap_with(&TowerRequestConfig::default());
    let policy = settings.retry_policy(RetryEven);
    assert!(policy.after_error(&2).is_some());
    assert!(policy.after_error(&3).is_none());
    assert!(policy.after_response(&2).is_some());
    assert!(policy.after_response(&3).is_none());
}

#[test]
fn sums_of_durations_are_capped() {
    let secs = Duration::from_secs;
    assert_eq!(add_capped(secs(1), secs(2), secs(4)), secs(3));
    assert_eq!(add_capped(secs(1), secs(2), secs(3)), secs(3));
    assert_eq!(add_capped(secs(1), secs(2), secs(2)), secs(2));
    assert_eq!(add_capped(Duration::MAX, secs(2), Duration::MAX), Duration::MAX);
    assert_eq!(
        add_capped(Duration::new(1, 900_000_000), Duration::new(0, 200_000_000), secs(9)),
        Duration::new(2, 100_000_000)
    );
}

#[test]
fn retries_come_from_the_defaults_where_they_are_left_open() {
    let own = TowerRequestConfig {
        retry_attempts: None,
        retry_initial_backoff_secs: None,
        retry_max_duration_secs: None,
        ..TowerRequestConfig::default()
    };
    let defaults = TowerRequestConfig {
        retry_max_duration_secs: None,
        ..TowerRequestConfig::default().retry_attempts(4).retry_initial_backoff_secs(2_000)
    };
    let mut policy = own.unwrap_with(&defaults).retry_policy(RetryAlways);
    let mut waits = Vec::new();
    while let Some((wait, next)) = policy.after_attempt(&Attempt::TimedOut) {
        waits.push(wait.as_secs());
        policy = next;
    }
    assert_eq!(waits, vec![2_000, 2_000, 3_600, 3_600]);
}
