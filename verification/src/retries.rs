//! Whether a request is tried again, and how long to wait before that.

use crate::time::{add_capped, capped, duration_nanos};
use std::time::Duration;
use vstd::prelude::*;

verus! {

/// What a service's response asks for.
#[derive(Debug)]
pub enum RetryAction {
    /// The request should be tried again, for this reason.
    Retry(String),
    /// The request failed and should not be tried again, for this reason.
    DontRetry(String),
    /// The request went through.
    Successful,
}

/// How the users of a service tell apart the failures that are worth another attempt.
pub trait RetryLogic: Clone + Send + Sync + 'static {
    type Error;

    type Response;

    /// Whether a request that failed with this error should be tried again.
    fn is_retriable_error(&self, error: &Self::Error) -> bool;

    /// What to do about a request that got this response.
    fn should_retry_response(&self, response: &Self::Response) -> RetryAction;
}

/// What became of one attempt at a request.
#[derive(Debug)]
pub enum Attempt {
    /// The service responded, and the response asks for this.
    Responded(RetryAction),
    /// The service failed with an error that the retry logic has judged.
    Failed { retriable: bool },
    /// The attempt took longer than the timeout.
    TimedOut,
    /// The service failed with an error that the retry logic does not know.
    FailedUnexpectedly,
}

/// Whether an attempt ended in a way that is worth another one.
pub open spec fn asks_for_retry(attempt: Attempt) -> bool {
    match attempt {
        Attempt::Responded(action) => action is Retry,
        Attempt::Failed { retriable } => retriable,
        Attempt::TimedOut => true,
        Attempt::FailedUnexpectedly => false,
    }
}

/// What a retry policy counts: attempts, and waits in nanoseconds.
pub struct RetryState {
    pub remaining_attempts: nat,
    pub previous: nat,
    pub current: nat,
    pub max: nat,
}

impl RetryState {
    /// The state before the first attempt.
    pub open spec fn initial(attempts: nat, initial_backoff: nat, max: nat) -> RetryState {
        RetryState { remaining_attempts: attempts, previous: 0, current: initial_backoff, max }
    }

    /// The state once one more attempt is used up: the next wait is the sum of the last two, up to
    /// the maximum.
    pub open spec fn next(self) -> RetryState {
        RetryState {
            remaining_attempts: (self.remaining_attempts - 1) as nat,
            previous: self.current,
            current: capped(self.previous + self.current, self.max),
            max: self.max,
        }
    }

    /// The state once this many more attempts are used up.
    pub open spec fn after(self, retries: nat) -> RetryState
        decreases retries,
    {
        if retries == 0 {
            self
        } else {
            self.after((retries - 1) as nat).next()
        }
    }
}

/// A retry policy with a fixed number of attempts, whose waits grow as the Fibonacci sequence.
#[derive(Debug)]
pub struct FixedRetryPolicy<L> {
    pub remaining_attempts: usize,
    pub previous_duration: Duration,
    pub current_duration: Duration,
    pub max_duration: Duration,
    pub logic: L,
}

impl<L> View for FixedRetryPolicy<L> {
    type V = RetryState;

    open spec fn view(&self) -> RetryState {
        RetryState {
            remaining_attempts: self.remaining_attempts as nat,
            previous: duration_nanos(self.previous_duration),
            current: duration_nanos(self.current_duration),
            max: duration_nanos(self.max_duration),
        }
    }
}

impl<L: Clone> Clone for FixedRetryPolicy<L> {
    fn clone(&self) -> (copy: Self)
        ensures
            copy.remaining_attempts == self.remaining_attempts,
            copy.previous_duration == self.previous_duration,
            copy.current_duration == self.current_duration,
            copy.max_duration == self.max_duration,
            cloned(self.logic, copy.logic),
    {
        FixedRetryPolicy {
            remaining_attempts: self.remaining_attempts,
            previous_duration: self.previous_duration,
            current_duration: self.current_duration,
            max_duration: self.max_duration,
            logic: self.logic.clone(),
        }
    }
}

impl<L: RetryLogic> FixedRetryPolicy<L> {
    /// A policy that retries this often, waits this long before the first retry, and no longer
    /// than the maximum between retries.
    pub fn new(
        remaining_attempts: usize,
        initial_backoff: Duration,
        max_duration: Duration,
        logic: L,
    ) -> (policy: Self)
        ensures
            policy@ == RetryState::initial(
                remaining_attempts as nat,
                duration_nanos(initial_backoff),
                duration_nanos(max_duration),
            ),
            policy.current_duration == initial_backoff,
            policy.max_duration == max_duration,
            policy.logic == logic,
    {
        FixedRetryPolicy {
            remaining_attempts,
            previous_duration: Duration::from_secs(0),
            current_duration: initial_backoff,
            max_duration,
            logic,
        }
    }

    /// How long to wait before the next attempt.
    pub fn backoff(&self) -> (wait: Duration)
        ensures
            wait == self.current_duration,
    {
        self.current_duration
    }

    /// The policy once one more attempt is used up.
    pub fn advance(&self) -> (next: Self)
        requires
            self.remaining_attempts > 0,
        ensures
            next@ == self@.next(),
            next.max_duration == self.max_duration,
            cloned(self.logic, next.logic),
    {
        FixedRetryPolicy {
            remaining_attempts: self.remaining_attempts - 1,
            previous_duration: self.current_duration,
            current_duration: add_capped(
                self.previous_duration,
                self.current_duration,
                self.max_duration,
            ),
            max_duration: self.max_duration,
            logic: self.logic.clone(),
        }
    }

    /// Whether this is the answer to an attempt that ended so: the wait before the next attempt
    /// and the policy for it, where the attempt asks for one and attempts remain.
    pub open spec fn answers(self, attempt: Attempt, answer: Option<(Duration, Self)>) -> bool {
        match answer {
            Some((wait, next)) => {
                &&& asks_for_retry(attempt)
                &&& self.remaining_attempts > 0
                &&& wait == self.current_duration
                &&& next@ == self@.next()
                &&& next.max_duration == self.max_duration
                &&& cloned(self.logic, next.logic)
            },
            None => !asks_for_retry(attempt) || self.remaining_attempts == 0,
        }
    }

    /// What follows an attempt: the wait and the policy for the next one, or `None` where the
    /// request is done with, for better or worse.
    pub fn after_attempt(&self, attempt: &Attempt) -> (answer: Option<(Duration, Self)>)
        ensures
            self.answers(*attempt, answer),
    {
        let retriable = match attempt {
            Attempt::Responded(RetryAction::Retry(_)) => true,
            Attempt::Responded(_) => false,
            Attempt::Failed { retriable } => *retriable,
            Attempt::TimedOut => true,
            Attempt::FailedUnexpectedly => false,
        };
        if retriable && self.remaining_attempts > 0 {
            Some((self.backoff(), self.advance()))
        } else {
            None
        }
    }

    /// What follows a response, as the retry logic judges it.
    pub fn after_response(&self, response: &L::Response) -> (answer: Option<(Duration, Self)>)
        ensures
            exists|action: RetryAction|
                #[trigger] call_ensures(L::should_retry_response, (&self.logic, response), action)
                    && self.answers(Attempt::Responded(action), answer),
    {
        let action = self.logic.should_retry_response(response);
        self.after_attempt(&Attempt::Responded(action))
    }

    /// What follows an error of the service, as the retry logic judges it.
    pub fn after_error(&self, error: &L::Error) -> (answer: Option<(Duration, Self)>)
        ensures
            exists|retriable: bool|
                #[trigger] call_ensures(L::is_retriable_error, (&self.logic, error), retriable)
                    && self.answers(Attempt::Failed { retriable }, answer),
    {
        let retriable = self.logic.is_retriable_error(error);
        self.after_attempt(&Attempt::Failed { retriable })
    }
}

} // verus!
