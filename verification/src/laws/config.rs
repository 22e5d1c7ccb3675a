//! What making, changing and resolving a configuration come to, value by value.

use crate::concurrency::Concurrency;
use crate::config::TowerRequestConfig;
use crate::settings::TowerRequestSettings;
use crate::time::duration_nanos;
use vstd::prelude::*;

verus! {

/// Every new configuration has the concurrency that it is given, and, whatever that is, a timeout
/// of a minute, no rate limit to speak of, retries without end to speak of, a first wait of a
/// second and waits of up to an hour.
pub proof fn law_new_sets_every_value(concurrency: Concurrency, config: TowerRequestConfig)
    requires
        call_ensures(TowerRequestConfig::new, (concurrency,), config),
    ensures
        config.concurrency == concurrency,
        config.timeout_secs == Some(60u64),
        config.rate_limit_duration_secs == Some(1u64),
        config.rate_limit_num matches Some(num) && num == i64::MAX,
        config.retry_attempts matches Some(attempts) && attempts == isize::MAX,
        config.retry_max_duration_secs == Some(3_600u64),
        config.retry_initial_backoff_secs == Some(1u64),
        config.adaptive_concurrency.decrease_ratio_bits == 0x3FEC_CCCC_CCCC_CCCDu64,
        config.adaptive_concurrency.ewma_alpha_bits == 0x3FD9_9999_9999_999Au64,
        config.adaptive_concurrency.rtt_deviation_scale_bits == 0x4004_0000_0000_0000u64,
{
}

/// Two new configurations differ in nothing but the concurrency.
pub proof fn law_new_configs_differ_in_concurrency_only(
    first: Concurrency,
    second: Concurrency,
    one: TowerRequestConfig,
    other: TowerRequestConfig,
)
    requires
        call_ensures(TowerRequestConfig::new, (first,), one),
        call_ensures(TowerRequestConfig::new, (second,), other),
    ensures
        other == (TowerRequestConfig { concurrency: second, ..one }),
        one == other <==> first == second,
{
}

/// The default configuration is the new one with the concurrency left open.
pub proof fn law_default_is_new_without_concurrency(
    new: TowerRequestConfig,
    const_default: TowerRequestConfig,
    default: TowerRequestConfig,
)
    requires
        call_ensures(TowerRequestConfig::new, (Concurrency::Unset,), new),
        call_ensures(TowerRequestConfig::const_default, (), const_default),
        call_ensures(<TowerRequestConfig as Default>::default, (), default),
    ensures
        const_default == new,
        default == new,
{
}

/// Setting the timeout sets it, and leaves every other value as it was.
pub proof fn law_timeout_setter(config: TowerRequestConfig, secs: u64, set: TowerRequestConfig)
    requires
        call_ensures(TowerRequestConfig::timeout_secs, (config, secs), set),
    ensures
        set.timeout_secs == Some(secs),
        set == (TowerRequestConfig { timeout_secs: set.timeout_secs, ..config }),
{
}

/// Setting the time window of the rate limit sets it, and leaves every other value as it was.
pub proof fn law_rate_limit_duration_setter(
    config: TowerRequestConfig,
    secs: u64,
    set: TowerRequestConfig,
)
    requires
        call_ensures(TowerRequestConfig::rate_limit_duration_secs, (config, secs), set),
    ensures
        set.rate_limit_duration_secs == Some(secs),
        set == (TowerRequestConfig {
            rate_limit_duration_secs: set.rate_limit_duration_secs,
            ..config
        }),
{
}

/// Setting the number of requests in the rate limit sets it, and leaves every other value as it
/// was.
pub proof fn law_rate_limit_num_setter(
    config: TowerRequestConfig,
    num: u64,
    set: TowerRequestConfig,
)
    requires
        call_ensures(TowerRequestConfig::rate_limit_num, (config, num), set),
    ensures
        set.rate_limit_num == Some(num),
        set == (TowerRequestConfig { rate_limit_num: set.rate_limit_num, ..config }),
{
}

/// Setting the number of retries sets it, and leaves every other value as it was.
pub proof fn law_retry_attempts_setter(
    config: TowerRequestConfig,
    attempts: usize,
    set: TowerRequestConfig,
)
    requires
        call_ensures(TowerRequestConfig::retry_attempts, (config, attempts), set),
    ensures
        set.retry_attempts == Some(attempts),
        set == (TowerRequestConfig { retry_attempts: set.retry_attempts, ..config }),
{
}

/// Setting the longest wait between retries sets it, and leaves every other value as it was.
pub proof fn law_retry_max_duration_setter(
    config: TowerRequestConfig,
    secs: u64,
    set: TowerRequestConfig,
)
    requires
        call_ensures(TowerRequestConfig::retry_max_duration_secs, (config, secs), set),
    ensures
        set.retry_max_duration_secs == Some(secs),
        set == (TowerRequestConfig {
            retry_max_duration_secs: set.retry_max_duration_secs,
            ..config
        }),
{
}

/// Setting the wait before the first retry sets it, and leaves every other value as it was.
pub proof fn law_retry_initial_backoff_setter(
    config: TowerRequestConfig,
    secs: u64,
    set: TowerRequestConfig,
)
    requires
        call_ensures(TowerRequestConfig::retry_initial_backoff_secs, (config, secs), set),
    ensures
        set.retry_initial_backoff_secs == Some(secs),
        set == (TowerRequestConfig {
            retry_initial_backoff_secs: set.retry_initial_backoff_secs,
            ..config
        }),
{
}

/// The concurrency that a configuration comes to: its own where it has one, else that of the
/// defaults, and none where it adapts or is left open.
pub proof fn law_resolved_concurrency(
    own: TowerRequestConfig,
    defaults: TowerRequestConfig,
    settings: TowerRequestSettings,
)
    requires
        call_ensures(TowerRequestConfig::unwrap_with, (&own, &defaults), settings),
    ensures
        own.concurrency matches Concurrency::Fixed(limit) ==> settings.concurrency == Some(limit),
        own.concurrency == Concurrency::Adaptive ==> settings.concurrency == None::<usize>,
        own.concurrency == Concurrency::Unset ==> (defaults.concurrency matches Concurrency::Fixed(
            limit,
        ) ==> settings.concurrency == Some(limit)),
        own.concurrency == Concurrency::Unset && defaults.concurrency == Concurrency::Adaptive
            ==> settings.concurrency == None::<usize>,
        own.concurrency == Concurrency::Unset && defaults.concurrency == Concurrency::Unset
            ==> settings.concurrency == None::<usize>,
{
}

/// The times that a configuration sets are those of its settings, to the nanosecond, whatever the
/// defaults and the other values are.
pub proof fn law_resolved_own_times(
    own: TowerRequestConfig,
    defaults: TowerRequestConfig,
    settings: TowerRequestSettings,
)
    requires
        call_ensures(TowerRequestConfig::unwrap_with, (&own, &defaults), settings),
    ensures
        own.timeout_secs matches Some(secs) ==> duration_nanos(settings.timeout) == secs
            * 1_000_000_000,
        own.rate_limit_duration_secs matches Some(secs) ==> duration_nanos(
            settings.rate_limit_duration,
        ) == secs * 1_000_000_000,
        own.retry_max_duration_secs matches Some(secs) ==> duration_nanos(
            settings.retry_max_duration_secs,
        ) == secs * 1_000_000_000,
        own.retry_initial_backoff_secs matches Some(secs) ==> duration_nanos(
            settings.retry_initial_backoff_secs,
        ) == secs * 1_000_000_000,
{
}

/// The times that a configuration leaves open are those that the defaults set, to the nanosecond,
/// whatever the other values are.
pub proof fn law_resolved_default_times(
    own: TowerRequestConfig,
    defaults: TowerRequestConfig,
    settings: TowerRequestSettings,
)
    requires
        call_ensures(TowerRequestConfig::unwrap_with, (&own, &defaults), settings),
    ensures
        own.timeout_secs is None ==> (defaults.timeout_secs matches Some(secs) ==> duration_nanos(
            settings.timeout,
        ) == secs * 1_000_000_000),
        own.rate_limit_duration_secs is None ==> (defaults.rate_limit_duration_secs matches Some(
            secs,
        ) ==> duration_nanos(settings.rate_limit_duration) == secs * 1_000_000_000),
        own.retry_max_duration_secs is None ==> (defaults.retry_max_duration_secs matches Some(secs)
            ==> duration_nanos(settings.retry_max_duration_secs) == secs * 1_000_000_000),
        own.retry_initial_backoff_secs is None ==> (
        defaults.retry_initial_backoff_secs matches Some(secs) ==> duration_nanos(
            settings.retry_initial_backoff_secs,
        ) == secs * 1_000_000_000),
{
}

/// The times that a configuration and its defaults leave open are a minute for the timeout, a
/// second for the time window of the rate limit and for the first wait, and an hour for the
/// longest wait.
pub proof fn law_resolved_open_times(
    own: TowerRequestConfig,
    defaults: TowerRequestConfig,
    settings: TowerRequestSettings,
)
    requires
        call_ensures(TowerRequestConfig::unwrap_with, (&own, &defaults), settings),
    ensures
        own.timeout_secs is None && defaults.timeout_secs is None ==> duration_nanos(
            settings.timeout,
        ) == 60 * 1_000_000_000,
        own.rate_limit_duration_secs is None && defaults.rate_limit_duration_secs is None
            ==> duration_nanos(settings.rate_limit_duration) == 1_000_000_000,
        own.retry_max_duration_secs is None && defaults.retry_max_duration_secs is None
            ==> duration_nanos(settings.retry_max_duration_secs) == 3_600 * 1_000_000_000,
        own.retry_initial_backoff_secs is None && defaults.retry_initial_backoff_secs is None
            ==> duration_nanos(settings.retry_initial_backoff_secs) == 1_000_000_000,
{
}

/// The numbers that a configuration comes to: its own where it sets them, else those of the
/// defaults, else the largest that a document can hold. The tuning is its own.
pub proof fn law_resolved_numbers(
    own: TowerRequestConfig,
    defaults: TowerRequestConfig,
    settings: TowerRequestSettings,
)
    requires
        call_ensures(TowerRequestConfig::unwrap_with, (&own, &defaults), settings),
    ensures
        own.rate_limit_num matches Some(num) ==> settings.rate_limit_num == num,
        own.rate_limit_num is None ==> (defaults.rate_limit_num matches Some(num)
            ==> settings.rate_limit_num == num),
        own.rate_limit_num is None && defaults.rate_limit_num is None ==> settings.rate_limit_num
            == i64::MAX,
        own.retry_attempts matches Some(attempts) ==> settings.retry_attempts == attempts,
        own.retry_attempts is None ==> (defaults.retry_attempts matches Some(attempts)
            ==> settings.retry_attempts == attempts),
        own.retry_attempts is None && defaults.retry_attempts is None ==> settings.retry_attempts
            == isize::MAX,
        settings.adaptive_concurrency == own.adaptive_concurrency,
{
}

/// The rate limit of settings is valid just where neither the number of requests nor the length of
/// the time window is zero.
pub proof fn law_rate_limit_test(settings: TowerRequestSettings, valid: bool)
    requires
        call_ensures(TowerRequestSettings::has_valid_rate_limit, (&settings,), valid),
    ensures
        valid <==> settings.rate_limit_num != 0 && duration_nanos(settings.rate_limit_duration)
            != 0,
{
}

/// A clone of settings is the settings.
pub proof fn law_cloned_settings_are_the_same(
    settings: TowerRequestSettings,
    copy: TowerRequestSettings,
)
    requires
        call_ensures(<TowerRequestSettings as Clone>::clone, (&settings,), copy),
    ensures
        copy == settings,
{
}

} // verus!
