//! Middleware settings as they are configured, with values left open.

use crate::adaptive_concurrency::AdaptiveConcurrencySettings;
use crate::concurrency::Concurrency;
use crate::settings::{SettingsView, TowerRequestSettings};
use crate::time::secs_to_nanos;
use std::time::Duration;
use vstd::prelude::*;

verus! {

pub const CONCURRENCY_DEFAULT: Concurrency = Concurrency::Unset;

pub const RATE_LIMIT_DURATION_SECONDS_DEFAULT: u64 = 1;

/// The largest integer of a TOML document.
pub const RATE_LIMIT_NUM_DEFAULT: u64 = 9_223_372_036_854_775_807;

/// The largest `isize`, which a TOML document can hold.
pub const RETRY_ATTEMPTS_DEFAULT: usize = usize::MAX / 2;

pub const RETRY_MAX_DURATION_SECONDS_DEFAULT: u64 = 3_600;

pub const RETRY_INITIAL_BACKOFF_SECONDS_DEFAULT: u64 = 1;

pub const TIMEOUT_SECONDS_DEFAULT: u64 = 60;

/// Middleware settings for outbound requests.
///
/// Various settings can be configured, such as concurrency and rate limits, timeouts, etc.
#[derive(Clone, Copy, Debug)]
pub struct TowerRequestConfig {
    pub concurrency: Concurrency,
    /// The maximum time a request can take before being aborted.
    ///
    /// It is highly recommended that you do not lower this value below the service's internal
    /// timeout, as this could create orphaned requests, pile on retries, and result in duplicate
    /// data downstream.
    pub timeout_secs: Option<u64>,
    /// The time window, in seconds, used for the `rate_limit_num` option.
    pub rate_limit_duration_secs: Option<u64>,
    /// The maximum number of requests allowed within the `rate_limit_duration_secs` time window.
    pub rate_limit_num: Option<u64>,
    /// The maximum number of retries to make for failed requests.
    ///
    /// The default, for all intents and purposes, represents an infinite number of retries.
    pub retry_attempts: Option<usize>,
    /// The maximum amount of time, in seconds, to wait between retries.
    pub retry_max_duration_secs: Option<u64>,
    /// The amount of time to wait before attempting the first retry for a failed request.
    ///
    /// After the first retry has failed, the fibonacci sequence will be used to select future
    /// backoffs.
    pub retry_initial_backoff_secs: Option<u64>,
    pub adaptive_concurrency: AdaptiveConcurrencySettings,
}

/// The value that is set, else the one that the defaults set, else the last resort.
pub open spec fn first_set<T>(own: Option<T>, defaults: Option<T>, last_resort: T) -> T {
    match (own, defaults) {
        (Some(value), _) => value,
        (None, Some(value)) => value,
        (None, None) => last_resort,
    }
}

/// The value that is set, else the one that the defaults set, else the last resort.
fn choose_set<T: Copy>(own: Option<T>, defaults: Option<T>, last_resort: T) -> (value: T)
    ensures
        value == first_set(own, defaults, last_resort),
{
    match own {
        Some(value) => value,
        None => match defaults {
            Some(value) => value,
            None => last_resort,
        },
    }
}

/// The settings that a configuration comes to, where each value that it leaves open is taken from
/// the defaults, and each that these leave open too from the constants.
pub open spec fn resolved(own: TowerRequestConfig, defaults: TowerRequestConfig) -> SettingsView {
    SettingsView {
        concurrency: own.concurrency.limit(defaults.concurrency),
        timeout: secs_to_nanos(
            first_set(own.timeout_secs, defaults.timeout_secs, TIMEOUT_SECONDS_DEFAULT),
        ),
        rate_limit_duration: secs_to_nanos(
            first_set(
                own.rate_limit_duration_secs,
                defaults.rate_limit_duration_secs,
                RATE_LIMIT_DURATION_SECONDS_DEFAULT,
            ),
        ),
        rate_limit_num: first_set(
            own.rate_limit_num,
            defaults.rate_limit_num,
            RATE_LIMIT_NUM_DEFAULT,
        ),
        retry_attempts: first_set(
            own.retry_attempts,
            defaults.retry_attempts,
            RETRY_ATTEMPTS_DEFAULT,
        ),
        retry_max_duration: secs_to_nanos(
            first_set(
                own.retry_max_duration_secs,
                defaults.retry_max_duration_secs,
                RETRY_MAX_DURATION_SECONDS_DEFAULT,
            ),
        ),
        retry_initial_backoff: secs_to_nanos(
            first_set(
                own.retry_initial_backoff_secs,
                defaults.retry_initial_backoff_secs,
                RETRY_INITIAL_BACKOFF_SECONDS_DEFAULT,
            ),
        ),
        adaptive_concurrency: own.adaptive_concurrency,
    }
}

impl TowerRequestConfig {
    /// The configuration that sets this concurrency, and every other value to its constant.
    pub open spec fn spec_new(concurrency: Concurrency) -> TowerRequestConfig {
        TowerRequestConfig {
            concurrency,
            timeout_secs: Some(TIMEOUT_SECONDS_DEFAULT),
            rate_limit_duration_secs: Some(RATE_LIMIT_DURATION_SECONDS_DEFAULT),
            rate_limit_num: Some(RATE_LIMIT_NUM_DEFAULT),
            retry_attempts: Some(RETRY_ATTEMPTS_DEFAULT),
            retry_max_duration_secs: Some(RETRY_MAX_DURATION_SECONDS_DEFAULT),
            retry_initial_backoff_secs: Some(RETRY_INITIAL_BACKOFF_SECONDS_DEFAULT),
            adaptive_concurrency: AdaptiveConcurrencySettings::spec_default(),
        }
    }

    /// The configuration that leaves every value open.
    pub open spec fn unset() -> TowerRequestConfig {
        TowerRequestConfig {
            concurrency: Concurrency::Unset,
            timeout_secs: None,
            rate_limit_duration_secs: None,
            rate_limit_num: None,
            retry_attempts: None,
            retry_max_duration_secs: None,
            retry_initial_backoff_secs: None,
            adaptive_concurrency: AdaptiveConcurrencySettings::spec_default(),
        }
    }

    /// The configuration that sets this concurrency, and every other value to its constant.
    pub fn new(concurrency: Concurrency) -> (config: Self)
        ensures
            config == Self::spec_new(concurrency),
    {
        TowerRequestConfig {
            concurrency,
            timeout_secs: Some(TIMEOUT_SECONDS_DEFAULT),
            rate_limit_duration_secs: Some(RATE_LIMIT_DURATION_SECONDS_DEFAULT),
            rate_limit_num: Some(RATE_LIMIT_NUM_DEFAULT),
            retry_attempts: Some(RETRY_ATTEMPTS_DEFAULT),
            retry_max_duration_secs: Some(RETRY_MAX_DURATION_SECONDS_DEFAULT),
            retry_initial_backoff_secs: Some(RETRY_INITIAL_BACKOFF_SECONDS_DEFAULT),
            adaptive_concurrency: AdaptiveConcurrencySettings::const_default(),
        }
    }

    /// The configuration with the default concurrency, and every other value at its constant.
    pub fn const_default() -> (config: Self)
        ensures
            config == Self::spec_new(CONCURRENCY_DEFAULT),
    {
        Self::new(CONCURRENCY_DEFAULT)
    }

    /// The configuration with this timeout.
    pub fn timeout_secs(self, timeout_secs: u64) -> (config: Self)
        ensures
            config == (TowerRequestConfig { timeout_secs: Some(timeout_secs), ..self }),
    {
        TowerRequestConfig { timeout_secs: Some(timeout_secs), ..self }
    }

    /// The configuration with this time window of the rate limit.
    pub fn rate_limit_duration_secs(self, rate_limit_duration_secs: u64) -> (config: Self)
        ensures
            config == (TowerRequestConfig {
                rate_limit_duration_secs: Some(rate_limit_duration_secs),
                ..self
            }),
    {
        TowerRequestConfig { rate_limit_duration_secs: Some(rate_limit_duration_secs), ..self }
    }

    /// The configuration with this number of requests in the rate limit.
    pub fn rate_limit_num(self, rate_limit_num: u64) -> (config: Self)
        ensures
            config == (TowerRequestConfig { rate_limit_num: Some(rate_limit_num), ..self }),
    {
        TowerRequestConfig { rate_limit_num: Some(rate_limit_num), ..self }
    }

    /// The configuration with this number of retries.
    pub fn retry_attempts(self, retry_attempts: usize) -> (config: Self)
        ensures
            config == (TowerRequestConfig { retry_attempts: Some(retry_attempts), ..self }),
    {
        TowerRequestConfig { retry_attempts: Some(retry_attempts), ..self }
    }

    /// The configuration with this maximum wait between retries.
    pub fn retry_max_duration_secs(self, retry_max_duration_secs: u64) -> (config: Self)
        ensures
            config == (TowerRequestConfig {
                retry_max_duration_secs: Some(retry_max_duration_secs),
                ..self
            }),
    {
        TowerRequestConfig { retry_max_duration_secs: Some(retry_max_duration_secs), ..self }
    }

    /// The configuration with this wait before the first retry.
    pub fn retry_initial_backoff_secs(self, retry_initial_backoff_secs: u64) -> (config: Self)
        ensures
            config == (TowerRequestConfig {
                retry_initial_backoff_secs: Some(retry_initial_backoff_secs),
                ..self
            }),
    {
        TowerRequestConfig { retry_initial_backoff_secs: Some(retry_initial_backoff_secs), ..self }
    }

    /// The settings that this configuration comes to, where each value that it leaves open is
    /// taken from the defaults, and each that these leave open too from the constants. The tuning
    /// of adaptive concurrency is always its own.
    pub fn unwrap_with(&self, defaults: &Self) -> (settings: TowerRequestSettings)
        ensures
            settings@ == resolved(*self, *defaults),
    {
        TowerRequestSettings {
            concurrency: self.concurrency.parse_concurrency(defaults.concurrency),
            timeout: Duration::from_secs(
                choose_set(self.timeout_secs, defaults.timeout_secs, TIMEOUT_SECONDS_DEFAULT),
            ),
            rate_limit_duration: Duration::from_secs(
                choose_set(
                    self.rate_limit_duration_secs,
                    defaults.rate_limit_duration_secs,
                    RATE_LIMIT_DURATION_SECONDS_DEFAULT,
                ),
            ),
            rate_limit_num: choose_set(
                self.rate_limit_num,
                defaults.rate_limit_num,
                RATE_LIMIT_NUM_DEFAULT,
            ),
            retry_attempts: choose_set(
                self.retry_attempts,
                defaults.retry_attempts,
                RETRY_ATTEMPTS_DEFAULT,
            ),
            retry_max_duration_secs: Duration::from_secs(
                choose_set(
                    self.retry_max_duration_secs,
                    defaults.retry_max_duration_secs,
                    RETRY_MAX_DURATION_SECONDS_DEFAULT,
                ),
            ),
            retry_initial_backoff_secs: Duration::from_secs(
                choose_set(
                    self.retry_initial_backoff_secs,
                    defaults.retry_initial_backoff_secs,
                    RETRY_INITIAL_BACKOFF_SECONDS_DEFAULT,
                ),
            ),
            adaptive_concurrency: self.adaptive_concurrency,
        }
    }
}

impl Default for TowerRequestConfig {
    fn default() -> (config: Self)
        ensures
            config == Self::spec_new(CONCURRENCY_DEFAULT),
    {
        Self::new(CONCURRENCY_DEFAULT)
    }
}

} // verus!
