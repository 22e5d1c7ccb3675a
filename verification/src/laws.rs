//! What holds of the library as a whole.

pub mod concurrency;
pub mod config;
pub mod retries;
pub mod stack;

use crate::concurrency::{is_written_as, meaning, Concurrency, ConcurrencyValue};
use crate::config::{
    first_set, resolved, TowerRequestConfig, CONCURRENCY_DEFAULT, RATE_LIMIT_DURATION_SECONDS_DEFAULT,
    RATE_LIMIT_NUM_DEFAULT, RETRY_ATTEMPTS_DEFAULT, RETRY_INITIAL_BACKOFF_SECONDS_DEFAULT,
    RETRY_MAX_DURATION_SECONDS_DEFAULT, TIMEOUT_SECONDS_DEFAULT,
};
use crate::retries::{asks_for_retry, Attempt, FixedRetryPolicy, RetryLogic, RetryState};
use crate::settings::{keyed_in_order, stacked, SettingsView, TowerRequestSettings};
use crate::stack::{SingleDistributedService, Svc};
use crate::time::{capped, duration_nanos, secs_to_nanos};
use std::time::Duration;
use vstd::prelude::*;

verus! {

/// A value that a configuration sets is what its settings hold, whatever the defaults are.
pub proof fn law_own_values_win(own: TowerRequestConfig, defaults: TowerRequestConfig)
    ensures
        own.concurrency matches Concurrency::Fixed(limit) ==> resolved(own, defaults).concurrency
            == Some(limit),
        own.concurrency is Adaptive ==> resolved(own, defaults).concurrency is None,
        own.timeout_secs matches Some(secs) ==> resolved(own, defaults).timeout == secs_to_nanos(
            secs,
        ),
        own.rate_limit_duration_secs matches Some(secs) ==> resolved(
            own,
            defaults,
        ).rate_limit_duration == secs_to_nanos(secs),
        own.rate_limit_num matches Some(num) ==> resolved(own, defaults).rate_limit_num == num,
        own.retry_attempts matches Some(attempts) ==> resolved(own, defaults).retry_attempts
            == attempts,
        own.retry_max_duration_secs matches Some(secs) ==> resolved(
            own,
            defaults,
        ).retry_max_duration == secs_to_nanos(secs),
        own.retry_initial_backoff_secs matches Some(secs) ==> resolved(
            own,
            defaults,
        ).retry_initial_backoff == secs_to_nanos(secs),
{
}

/// A value that a configuration leaves open is what the settings of the defaults hold.
pub proof fn law_open_values_come_from_defaults(
    own: TowerRequestConfig,
    defaults: TowerRequestConfig,
)
    ensures
        ({
            let settings = resolved(own, defaults);
            let fallback = resolved(defaults, TowerRequestConfig::unset());
            &&& own.concurrency is Unset ==> settings.concurrency == fallback.concurrency
            &&& own.timeout_secs is None ==> settings.timeout == fallback.timeout
            &&& own.rate_limit_duration_secs is None ==> settings.rate_limit_duration
                == fallback.rate_limit_duration
            &&& own.rate_limit_num is None ==> settings.rate_limit_num == fallback.rate_limit_num
            &&& own.retry_attempts is None ==> settings.retry_attempts == fallback.retry_attempts
            &&& own.retry_max_duration_secs is None ==> settings.retry_max_duration
                == fallback.retry_max_duration
            &&& own.retry_initial_backoff_secs is None ==> settings.retry_initial_backoff
                == fallback.retry_initial_backoff
        }),
{
}

/// Where neither a configuration nor its defaults set a value, the settings hold its constant, and
/// no fixed concurrency.
pub proof fn law_constants_are_the_last_resort(
    own: TowerRequestConfig,
    defaults: TowerRequestConfig,
)
    ensures
        own.concurrency is Unset && defaults.concurrency is Unset ==> resolved(
            own,
            defaults,
        ).concurrency is None,
        own.timeout_secs is None && defaults.timeout_secs is None ==> resolved(
            own,
            defaults,
        ).timeout == secs_to_nanos(TIMEOUT_SECONDS_DEFAULT),
        own.rate_limit_duration_secs is None && defaults.rate_limit_duration_secs is None
            ==> resolved(own, defaults).rate_limit_duration == secs_to_nanos(
            RATE_LIMIT_DURATION_SECONDS_DEFAULT,
        ),
        own.rate_limit_num is None && defaults.rate_limit_num is None ==> resolved(
            own,
            defaults,
        ).rate_limit_num == RATE_LIMIT_NUM_DEFAULT,
        own.retry_attempts is None && defaults.retry_attempts is None ==> resolved(
            own,
            defaults,
        ).retry_attempts == RETRY_ATTEMPTS_DEFAULT,
        own.retry_max_duration_secs is None && defaults.retry_max_duration_secs is None
            ==> resolved(own, defaults).retry_max_duration == secs_to_nanos(
            RETRY_MAX_DURATION_SECONDS_DEFAULT,
        ),
        own.retry_initial_backoff_secs is None && defaults.retry_initial_backoff_secs is None
            ==> resolved(own, defaults).retry_initial_backoff == secs_to_nanos(
            RETRY_INITIAL_BACKOFF_SECONDS_DEFAULT,
        ),
{
}

/// The default configuration, taken for the defaults, makes no difference: every configuration
/// comes to the same settings as with defaults that set nothing.
pub proof fn law_default_config_is_neutral(own: TowerRequestConfig)
    ensures
        resolved(own, TowerRequestConfig::spec_new(CONCURRENCY_DEFAULT)) == resolved(
            own,
            TowerRequestConfig::unset(),
        ),
{
}

/// The tuning of adaptive concurrency is never taken from the defaults.
pub proof fn law_tuning_is_never_merged(own: TowerRequestConfig, defaults: TowerRequestConfig)
    ensures
        resolved(own, defaults).adaptive_concurrency == own.adaptive_concurrency,
{
}

/// Setting one value of a configuration changes that value of its settings, and no other.
pub proof fn law_setters_change_one_value(
    config: TowerRequestConfig,
    defaults: TowerRequestConfig,
    number: u64,
    attempts: usize,
)
    ensures
        resolved(TowerRequestConfig { timeout_secs: Some(number), ..config }, defaults) == (
        SettingsView { timeout: secs_to_nanos(number), ..resolved(config, defaults) }),
        resolved(
            TowerRequestConfig { rate_limit_duration_secs: Some(number), ..config },
            defaults,
        ) == (SettingsView {
            rate_limit_duration: secs_to_nanos(number),
            ..resolved(config, defaults)
        }),
        resolved(TowerRequestConfig { rate_limit_num: Some(number), ..config }, defaults) == (
        SettingsView { rate_limit_num: number, ..resolved(config, defaults) }),
        resolved(TowerRequestConfig { retry_attempts: Some(attempts), ..config }, defaults) == (
        SettingsView { retry_attempts: attempts, ..resolved(config, defaults) }),
        resolved(
            TowerRequestConfig { retry_max_duration_secs: Some(number), ..config },
            defaults,
        ) == (SettingsView {
            retry_max_duration: secs_to_nanos(number),
            ..resolved(config, defaults)
        }),
        resolved(
            TowerRequestConfig { retry_initial_backoff_secs: Some(number), ..config },
            defaults,
        ) == (SettingsView {
            retry_initial_backoff: secs_to_nanos(number),
            ..resolved(config, defaults)
        }),
{
}

/// A rate limit can be made of the settings of a configuration exactly where the number of requests
/// and the time window that it comes to are not zero, wherever each of them is taken from.
pub proof fn law_rate_limit_is_valid_without_zeros(
    own: TowerRequestConfig,
    defaults: TowerRequestConfig,
)
    ensures
        resolved(own, defaults).rate_limit_wf() <==> {
            &&& first_set(own.rate_limit_num, defaults.rate_limit_num, RATE_LIMIT_NUM_DEFAULT) > 0
            &&& first_set(
                own.rate_limit_duration_secs,
                defaults.rate_limit_duration_secs,
                RATE_LIMIT_DURATION_SECONDS_DEFAULT,
            ) > 0
        },
{
}

/// Every number that a configuration starts out with is one that a TOML document can hold.
pub proof fn law_initial_numbers_fit_toml(concurrency: Concurrency)
    ensures
        ({
            let config = TowerRequestConfig::spec_new(concurrency);
            &&& config.timeout_secs->0 <= i64::MAX
            &&& config.rate_limit_duration_secs->0 <= i64::MAX
            &&& config.rate_limit_num->0 <= i64::MAX
            &&& config.retry_attempts->0 <= i64::MAX
            &&& config.retry_attempts->0 == isize::MAX
            &&& config.retry_max_duration_secs->0 <= i64::MAX
            &&& config.retry_initial_backoff_secs->0 <= i64::MAX
        }),
{
}

/// A concurrency that is written to a configuration document is read back from it. The one that
/// is not, a fixed concurrency of zero, is left out.
pub proof fn law_concurrency_is_read_back(
    concurrency: Concurrency,
    value: Option<ConcurrencyValue>,
)
    requires
        is_written_as(concurrency, value),
        concurrency != Concurrency::Fixed(0),
    ensures
        meaning(value) == Some(concurrency),
{
}

/// A concurrency that is read from a configuration document is written to it as it was.
pub proof fn law_concurrency_is_written_back(
    concurrency: Concurrency,
    value: Option<ConcurrencyValue>,
)
    requires
        meaning(value) == Some(concurrency),
    ensures
        is_written_as(concurrency, value),
{
}

/// The Fibonacci sequence.
pub open spec fn fibonacci(n: nat) -> nat
    decreases n,
{
    if n < 2 {
        n
    } else {
        fibonacci((n - 2) as nat) + fibonacci((n - 1) as nat)
    }
}

/// The wait before a retry, in nanoseconds, where the first retry has number zero.
pub open spec fn wait_before(initial_backoff: nat, max: nat, retry: nat) -> nat {
    if retry == 0 {
        initial_backoff
    } else {
        capped(initial_backoff * fibonacci(retry + 1), max)
    }
}

/// The first retry comes after the initial backoff. Each later one comes after the initial
/// backoff times a Fibonacci number, up to the maximum. Every retry uses up one attempt.
pub proof fn law_backoff_is_fibonacci(
    attempts: nat,
    initial_backoff: nat,
    max: nat,
    retries: nat,
)
    requires
        retries <= attempts,
    ensures
        ({
            let state = RetryState::initial(attempts, initial_backoff, max).after(retries);
            &&& state.current == wait_before(initial_backoff, max, retries)
            &&& state.remaining_attempts == attempts - retries
            &&& state.max == max
            &&& state.previous == if retries == 0 {
                0
            } else {
                wait_before(initial_backoff, max, (retries - 1) as nat)
            }
        }),
    decreases retries,
{
    if retries > 0 {
        let start = RetryState::initial(attempts, initial_backoff, max);
        let previous = start.after((retries - 1) as nat);
        law_backoff_is_fibonacci(attempts, initial_backoff, max, (retries - 1) as nat);
        assert(start.after(retries) == previous.next());
        if retries == 1 {
            assert(fibonacci(2) == 1) by {
                reveal_with_fuel(fibonacci, 3);
            }
            assert(initial_backoff * fibonacci(2) == initial_backoff) by (nonlinear_arith)
                requires
                    fibonacci(2) == 1,
            ;
        } else {
            let older: nat = initial_backoff * fibonacci((retries - 1) as nat);
            let newer: nat = initial_backoff * fibonacci(retries);
            assert(fibonacci(retries + 1) == fibonacci((retries - 1) as nat) + fibonacci(retries));
            assert(initial_backoff * fibonacci(retries + 1) == older + newer) by (nonlinear_arith)
                requires
                    fibonacci(retries + 1) == fibonacci((retries - 1) as nat) + fibonacci(retries),
                    older == initial_backoff * fibonacci((retries - 1) as nat),
                    newer == initial_backoff * fibonacci(retries),
            ;
            assert(previous.current == capped(newer, max));
            if retries == 2 {
                assert(older == initial_backoff) by (nonlinear_arith)
                    requires
                        older == initial_backoff * fibonacci((retries - 1) as nat),
                        fibonacci((retries - 1) as nat) == 1,
                ;
                assert(previous.previous == older);
            } else {
                assert(previous.previous == capped(older, max));
            }
        }
    }
}

/// No wait between retries is longer than the maximum.
pub proof fn law_waits_between_retries_are_capped(
    attempts: nat,
    initial_backoff: nat,
    max: nat,
    retries: nat,
)
    requires
        0 < retries <= attempts,
    ensures
        RetryState::initial(attempts, initial_backoff, max).after(retries).current <= max,
{
    law_backoff_is_fibonacci(attempts, initial_backoff, max, retries);
}

/// A request is tried again after every attempt that asks for it until the retries are used up,
/// and not once more.
pub proof fn law_retries_end<L: RetryLogic>(
    policy: FixedRetryPolicy<L>,
    attempts: nat,
    initial_backoff: nat,
    max: nat,
    retries: nat,
    attempt: Attempt,
    answer: Option<(Duration, FixedRetryPolicy<L>)>,
)
    requires
        retries <= attempts,
        policy@ == RetryState::initial(attempts, initial_backoff, max).after(retries),
        policy.answers(attempt, answer),
    ensures
        answer is Some <==> asks_for_retry(attempt) && retries < attempts,
        answer matches Some((wait, next)) ==> {
            &&& duration_nanos(wait) == wait_before(initial_backoff, max, retries)
            &&& next@ == RetryState::initial(attempts, initial_backoff, max).after(retries + 1)
        },
{
    law_backoff_is_fibonacci(attempts, initial_backoff, max, retries);
}

/// The retries that a configuration comes to: as many as it says, the first after the backoff that
/// it says, the later ones after the Fibonacci multiples of that, up to the maximum that it says.
/// Each of the three is its own value, else that of the defaults, else the constant.
pub proof fn law_configured_retries<L: RetryLogic>(
    own: TowerRequestConfig,
    defaults: TowerRequestConfig,
    settings: TowerRequestSettings,
    policy: FixedRetryPolicy<L>,
    retries: nat,
)
    requires
        settings@ == resolved(own, defaults),
        policy@ == settings@.retry_state(),
        retries <= first_set(own.retry_attempts, defaults.retry_attempts, RETRY_ATTEMPTS_DEFAULT),
    ensures
        policy@.after(retries).current == wait_before(
            secs_to_nanos(
                first_set(
                    own.retry_initial_backoff_secs,
                    defaults.retry_initial_backoff_secs,
                    RETRY_INITIAL_BACKOFF_SECONDS_DEFAULT,
                ),
            ),
            secs_to_nanos(
                first_set(
                    own.retry_max_duration_secs,
                    defaults.retry_max_duration_secs,
                    RETRY_MAX_DURATION_SECONDS_DEFAULT,
                ),
            ),
            retries,
        ),
        policy@.after(retries).remaining_attempts == first_set(
            own.retry_attempts,
            defaults.retry_attempts,
            RETRY_ATTEMPTS_DEFAULT,
        ) - retries,
{
    law_backoff_is_fibonacci(
        settings@.retry_attempts as nat,
        settings@.retry_initial_backoff,
        settings@.retry_max_duration,
        retries,
    );
}

/// A layer and both kinds of sink put a service in the same middleware: what they make of the same
/// settings differs at most in the clones of the retry logic.
pub proof fn law_sinks_and_layer_agree<S, L: RetryLogic>(
    settings: TowerRequestSettings,
    logic: L,
    inner: S,
    one: Svc<S, L>,
    other: Svc<S, L>,
)
    requires
        stacked(settings, logic, inner, one),
        stacked(settings, logic, inner, other),
    ensures
        one.num == other.num,
        one.per == other.per,
        one.inner.concurrency == other.inner.concurrency,
        one.inner.settings == other.inner.settings,
        one.inner.inner.policy@ == other.inner.inner.policy@,
        one.inner.inner.inner == other.inner.inner.inner,
{
}

/// All services that requests are distributed over have clones of one health logic, and are counted
/// in clones of one gauge of open endpoints.
pub proof fn law_distributed_services_share_one_gauge<
    S,
    RL: Clone,
    HC: Clone,
    HL: Clone,
    G: Clone,
>(
    settings: TowerRequestSettings,
    retry_logic: RL,
    health_config: HC,
    health_logic: HL,
    open: G,
    services: Seq<(String, S)>,
    keyed: Seq<(usize, SingleDistributedService<S, RL, HC, HL, G>)>,
)
    requires
        keyed_in_order(
            settings,
            retry_logic,
            health_config,
            health_logic,
            open,
            services,
            keyed,
        ),
    ensures
        keyed.len() == services.len(),
        forall|i: int|
            #![trigger keyed[i]]
            0 <= i < keyed.len() ==> {
                &&& cloned(health_logic, keyed[i].1.inner.logic)
                &&& cloned(open, keyed[i].1.inner.open)
                &&& keyed[i].1.inner.endpoint == services[i].0
            },
{
}

/// No two of the services that requests are distributed over have the same key.
pub proof fn law_distributed_keys_are_distinct<S, RL: Clone, HC: Clone, HL: Clone, G: Clone>(
    settings: TowerRequestSettings,
    retry_logic: RL,
    health_config: HC,
    health_logic: HL,
    open: G,
    services: Seq<(String, S)>,
    keyed: Seq<(usize, SingleDistributedService<S, RL, HC, HL, G>)>,
    i: int,
    j: int,
)
    requires
        keyed_in_order(settings, retry_logic, health_config, health_logic, open, services, keyed),
        0 <= i < keyed.len(),
        0 <= j < keyed.len(),
        keyed[i].0 == keyed[j].0,
    ensures
        i == j,
{
}

} // verus!
