//! How often a request is tried again and after what waits, attempt by attempt.

use crate::laws::fibonacci;
use crate::retries::{Attempt, FixedRetryPolicy, RetryAction, RetryLogic};
use crate::settings::TowerRequestSettings;
use crate::time::{add_capped, duration_nanos};
use std::time::Duration;
use vstd::prelude::*;

verus! {

/// A capped sum is the sum wherever that is no longer than the cap, and the cap otherwise.
pub proof fn law_sums_are_capped(first: Duration, second: Duration, cap: Duration, sum: Duration)
    requires
        call_ensures(add_capped, (first, second, cap), sum),
    ensures
        duration_nanos(first) + duration_nanos(second) <= duration_nanos(cap) ==> duration_nanos(
            sum,
        ) == duration_nanos(first) + duration_nanos(second),
        duration_nanos(first) + duration_nanos(second) > duration_nanos(cap) ==> duration_nanos(sum)
            == duration_nanos(cap),
{
}

/// The policy of settings retries as often as they say, waits as long as they say before the first
/// retry and never longer than they say between retries, and asks the logic that it is given.
pub proof fn law_policy_follows_settings<L: RetryLogic>(
    settings: TowerRequestSettings,
    logic: L,
    policy: FixedRetryPolicy<L>,
)
    requires
        call_ensures(TowerRequestSettings::retry_policy::<L>, (&settings, logic), policy),
    ensures
        policy.remaining_attempts == settings.retry_attempts,
        duration_nanos(policy.previous_duration) == 0,
        policy.current_duration == settings.retry_initial_backoff_secs,
        policy.max_duration == settings.retry_max_duration_secs,
        policy.logic == logic,
{
}

/// A new policy holds what it is made of, with no wait behind it.
pub proof fn law_new_policy_holds_its_parts<L: RetryLogic>(
    attempts: usize,
    initial_backoff: Duration,
    max_duration: Duration,
    logic: L,
    policy: FixedRetryPolicy<L>,
)
    requires
        call_ensures(
            FixedRetryPolicy::<L>::new,
            (attempts, initial_backoff, max_duration, logic),
            policy,
        ),
    ensures
        policy.remaining_attempts == attempts,
        duration_nanos(policy.previous_duration) == 0,
        policy.current_duration == initial_backoff,
        policy.max_duration == max_duration,
        policy.logic == logic,
{
}

/// A clone of a policy is at the same point, with a clone of its logic.
pub proof fn law_cloned_policies_are_at_the_same_point<L: RetryLogic>(
    policy: FixedRetryPolicy<L>,
    copy: FixedRetryPolicy<L>,
)
    requires
        call_ensures(<FixedRetryPolicy<L> as Clone>::clone, (&policy,), copy),
    ensures
        cloned(policy.logic, copy.logic),
        policy == (FixedRetryPolicy { logic: policy.logic, ..copy }),
{
}

/// The wait of a policy is the one that it is at.
pub proof fn law_wait_is_the_current_one<L: RetryLogic>(
    policy: FixedRetryPolicy<L>,
    wait: Duration,
)
    requires
        call_ensures(FixedRetryPolicy::<L>::backoff, (&policy,), wait),
    ensures
        wait == policy.current_duration,
{
}

/// Each step of a policy uses up one attempt, and its wait is the sum of the last two waits
/// wherever that is no longer than the longest wait, and the longest wait otherwise.
pub proof fn law_each_step_adds_the_last_two_waits<L: RetryLogic>(
    policy: FixedRetryPolicy<L>,
    next: FixedRetryPolicy<L>,
)
    requires
        policy.remaining_attempts > 0,
        call_ensures(FixedRetryPolicy::<L>::advance, (&policy,), next),
    ensures
        next.remaining_attempts == policy.remaining_attempts - 1,
        duration_nanos(next.previous_duration) == duration_nanos(policy.current_duration),
        next.max_duration == policy.max_duration,
        cloned(policy.logic, next.logic),
        ({
            let sum = duration_nanos(policy.previous_duration) + duration_nanos(
                policy.current_duration,
            );
            let max = duration_nanos(policy.max_duration);
            &&& sum <= max ==> duration_nanos(next.current_duration) == sum
            &&& sum > max ==> duration_nanos(next.current_duration) == max
        }),
{
}

/// The Fibonacci sequence starts with zero and one, and each later number is the sum of the two
/// before it.
pub proof fn law_fibonacci(n: nat)
    ensures
        fibonacci(0) == 0,
        fibonacci(1) == 1,
        fibonacci(n + 2) == fibonacci(n) + fibonacci(n + 1),
{
}

/// The retries of settings, one policy stepping to the next: the first wait is the initial backoff.
/// Each later one is the initial backoff times the next Fibonacci number wherever that is no
/// longer than the longest wait, and the longest wait otherwise. Each retry uses up one of the
/// attempts.
pub proof fn law_settings_wait_by_fibonacci<L: RetryLogic>(
    settings: TowerRequestSettings,
    logic: L,
    policies: Seq<FixedRetryPolicy<L>>,
    retry: int,
)
    requires
        0 <= retry < policies.len() <= settings.retry_attempts + 1,
        call_ensures(TowerRequestSettings::retry_policy::<L>, (&settings, logic), policies[0]),
        forall|i: int, j: int|
            #![trigger policies[i], policies[j]]
            0 <= i < j < policies.len() && j == i + 1 ==> call_ensures(
                FixedRetryPolicy::<L>::advance,
                (&policies[i],),
                policies[j],
            ),
    ensures
        ({
            let initial = duration_nanos(settings.retry_initial_backoff_secs);
            let max = duration_nanos(settings.retry_max_duration_secs);
            let wait = duration_nanos(policies[retry].current_duration);
            let uncapped = initial * fibonacci((retry + 1) as nat);
            &&& retry == 0 ==> wait == initial
            &&& retry > 0 && uncapped <= max ==> wait == uncapped
            &&& retry > 0 && uncapped > max ==> wait == max
            &&& policies[retry].remaining_attempts == settings.retry_attempts - retry
            &&& policies[retry].max_duration == settings.retry_max_duration_secs
            &&& retry == 0 ==> duration_nanos(policies[retry].previous_duration) == 0
            &&& retry > 0 ==> duration_nanos(policies[retry].previous_duration) == duration_nanos(
                policies[retry - 1].current_duration,
            )
        }),
    decreases retry,
{
    if retry > 0 {
        law_settings_wait_by_fibonacci(settings, logic, policies, retry - 1);
        let initial: nat = duration_nanos(settings.retry_initial_backoff_secs);
        let max: nat = duration_nanos(settings.retry_max_duration_secs);
        let policy = policies[retry - 1];
        let older: nat = initial * fibonacci((retry - 1) as nat);
        let newer: nat = initial * fibonacci(retry as nat);
        law_each_step_adds_the_last_two_waits(policy, policies[retry]);
        law_fibonacci((retry - 1) as nat);
        assert(initial * fibonacci((retry + 1) as nat) == older + newer) by (nonlinear_arith)
            requires
                fibonacci((retry + 1) as nat) == fibonacci((retry - 1) as nat) + fibonacci(
                    retry as nat,
                ),
                older == initial * fibonacci((retry - 1) as nat),
                newer == initial * fibonacci(retry as nat),
        ;
        if retry == 1 {
            assert(older == 0 && newer == initial) by (nonlinear_arith)
                requires
                    fibonacci((retry - 1) as nat) == 0,
                    fibonacci(retry as nat) == 1,
                    older == initial * fibonacci((retry - 1) as nat),
                    newer == initial * fibonacci(retry as nat),
            ;
        } else {
            law_settings_wait_by_fibonacci(settings, logic, policies, retry - 2);
            if retry == 2 {
                assert(older == initial) by (nonlinear_arith)
                    requires
                        fibonacci((retry - 1) as nat) == 1,
                        older == initial * fibonacci((retry - 1) as nat),
                ;
            }
        }
    }
}

/// With attempts left, a request is tried again after a response that asks for it, an error that
/// is worth it and a timeout, and after nothing else. The wait is the one that the policy is at,
/// and the next policy is one step further.
pub proof fn law_attempts_that_ask_are_retried<L: RetryLogic>(
    policy: FixedRetryPolicy<L>,
    attempt: Attempt,
    answer: Option<(Duration, FixedRetryPolicy<L>)>,
)
    requires
        policy.remaining_attempts > 0,
        call_ensures(FixedRetryPolicy::<L>::after_attempt, (&policy, &attempt), answer),
    ensures
        attempt matches Attempt::Responded(RetryAction::Retry(_)) ==> answer is Some,
        attempt matches Attempt::Responded(RetryAction::DontRetry(_)) ==> answer is None,
        attempt matches Attempt::Responded(RetryAction::Successful) ==> answer is None,
        attempt matches Attempt::Failed { retriable } ==> (answer is Some <==> retriable),
        attempt matches Attempt::TimedOut ==> answer is Some,
        attempt matches Attempt::FailedUnexpectedly ==> answer is None,
        answer matches Some((wait, next)) ==> {
            let sum = duration_nanos(policy.previous_duration) + duration_nanos(wait);
            let max = duration_nanos(policy.max_duration);
            &&& wait == policy.current_duration
            &&& next.remaining_attempts == policy.remaining_attempts - 1
            &&& duration_nanos(next.previous_duration) == duration_nanos(wait)
            &&& next.max_duration == policy.max_duration
            &&& sum <= max ==> duration_nanos(next.current_duration) == sum
            &&& sum > max ==> duration_nanos(next.current_duration) == max
            &&& cloned(policy.logic, next.logic)
        },
{
}

/// Without attempts left, a request is never tried again, whatever became of it.
pub proof fn law_nothing_is_retried_without_attempts<L: RetryLogic>(
    policy: FixedRetryPolicy<L>,
    attempt: Attempt,
    answer: Option<(Duration, FixedRetryPolicy<L>)>,
)
    requires
        policy.remaining_attempts == 0,
        call_ensures(FixedRetryPolicy::<L>::after_attempt, (&policy, &attempt), answer),
    ensures
        answer == None::<(Duration, FixedRetryPolicy<L>)>,
{
}

/// A response is followed by a retry just where the logic can have asked for one and attempts are
/// left, and the wait is the one that the policy is at.
pub proof fn law_the_logic_judges_responses<L: RetryLogic>(
    policy: FixedRetryPolicy<L>,
    response: L::Response,
    answer: Option<(Duration, FixedRetryPolicy<L>)>,
)
    requires
        call_ensures(FixedRetryPolicy::<L>::after_response, (&policy, &response), answer),
    ensures
        exists|action: RetryAction|
            {
                &&& #[trigger] call_ensures(
                    L::should_retry_response,
                    (&policy.logic, &response),
                    action,
                )
                &&& answer is Some <==> action is Retry && policy.remaining_attempts > 0
            },
        answer matches Some((wait, next)) ==> {
            let sum = duration_nanos(policy.previous_duration) + duration_nanos(wait);
            let max = duration_nanos(policy.max_duration);
            &&& wait == policy.current_duration
            &&& next.remaining_attempts == policy.remaining_attempts - 1
            &&& duration_nanos(next.previous_duration) == duration_nanos(wait)
            &&& next.max_duration == policy.max_duration
            &&& sum <= max ==> duration_nanos(next.current_duration) == sum
            &&& sum > max ==> duration_nanos(next.current_duration) == max
            &&& cloned(policy.logic, next.logic)
        },
{
}

/// An error is followed by a retry just where the logic can have called it worth one and attempts
/// are left, and the wait is the one that the policy is at.
pub proof fn law_the_logic_judges_errors<L: RetryLogic>(
    policy: FixedRetryPolicy<L>,
    error: L::Error,
    answer: Option<(Duration, FixedRetryPolicy<L>)>,
)
    requires
        call_ensures(FixedRetryPolicy::<L>::after_error, (&policy, &error), answer),
    ensures
        exists|retriable: bool|
            {
                &&& #[trigger] call_ensures(
                    L::is_retriable_error,
                    (&policy.logic, &error),
                    retriable,
                )
                &&& answer is Some <==> retriable && policy.remaining_attempts > 0
            },
        answer matches Some((wait, next)) ==> {
            let sum = duration_nanos(policy.previous_duration) + duration_nanos(wait);
            let max = duration_nanos(policy.max_duration);
            &&& wait == policy.current_duration
            &&& next.remaining_attempts == policy.remaining_attempts - 1
            &&& duration_nanos(next.previous_duration) == duration_nanos(wait)
            &&& next.max_duration == policy.max_duration
            &&& sum <= max ==> duration_nanos(next.current_duration) == sum
            &&& sum > max ==> duration_nanos(next.current_duration) == max
            &&& cloned(policy.logic, next.logic)
        },
{
}

} // verus!
