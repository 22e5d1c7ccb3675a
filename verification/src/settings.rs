//! Middleware settings with nothing left open.

use crate::adaptive_concurrency::{AdaptiveConcurrencySettings, MAX_CONCURRENCY};
use crate::layer::TowerRequestLayer;
use crate::retries::{FixedRetryPolicy, RetryLogic, RetryState};
use crate::stack::{
    AdaptiveConcurrencyLimit, Balance, BatchSink, Buffer, DistributedService, HealthService,
    PartitionBatchSink, RateLimit, Retry, SingleDistributedService, Svc, Timeout,
    TowerBatchedSink, TowerPartitionSink,
};
use crate::time::duration_nanos;
use std::marker::PhantomData;
use std::time::Duration;
use vstd::prelude::*;

verus! {

/// Middleware settings for outbound requests.
#[derive(Debug)]
pub struct TowerRequestSettings {
    pub concurrency: Option<usize>,
    pub timeout: Duration,
    pub rate_limit_duration: Duration,
    pub rate_limit_num: u64,
    pub retry_attempts: usize,
    pub retry_max_duration_secs: Duration,
    pub retry_initial_backoff_secs: Duration,
    pub adaptive_concurrency: AdaptiveConcurrencySettings,
}

/// What the settings hold, with times in nanoseconds.
pub struct SettingsView {
    pub concurrency: Option<usize>,
    pub timeout: nat,
    pub rate_limit_duration: nat,
    pub rate_limit_num: u64,
    pub retry_attempts: usize,
    pub retry_max_duration: nat,
    pub retry_initial_backoff: nat,
    pub adaptive_concurrency: AdaptiveConcurrencySettings,
}

impl SettingsView {
    /// Whether a rate limit can be made of the settings: it lets something through, and its time
    /// window has a length.
    pub open spec fn rate_limit_wf(self) -> bool {
        &&& self.rate_limit_num > 0
        &&& self.rate_limit_duration > 0
    }

    /// The state of the retry policy of these settings before the first attempt.
    pub open spec fn retry_state(self) -> RetryState {
        RetryState::initial(
            self.retry_attempts as nat,
            self.retry_initial_backoff,
            self.retry_max_duration,
        )
    }
}

impl View for TowerRequestSettings {
    type V = SettingsView;

    open spec fn view(&self) -> SettingsView {
        SettingsView {
            concurrency: self.concurrency,
            timeout: duration_nanos(self.timeout),
            rate_limit_duration: duration_nanos(self.rate_limit_duration),
            rate_limit_num: self.rate_limit_num,
            retry_attempts: self.retry_attempts,
            retry_max_duration: duration_nanos(self.retry_max_duration_secs),
            retry_initial_backoff: duration_nanos(self.retry_initial_backoff_secs),
            adaptive_concurrency: self.adaptive_concurrency,
        }
    }
}

impl Clone for TowerRequestSettings {
    fn clone(&self) -> (copy: Self)
        ensures
            copy == *self,
    {
        TowerRequestSettings {
            concurrency: self.concurrency,
            timeout: self.timeout,
            rate_limit_duration: self.rate_limit_duration,
            rate_limit_num: self.rate_limit_num,
            retry_attempts: self.retry_attempts,
            retry_max_duration_secs: self.retry_max_duration_secs,
            retry_initial_backoff_secs: self.retry_initial_backoff_secs,
            adaptive_concurrency: self.adaptive_concurrency,
        }
    }
}

/// Whether this is the retry policy of the settings before the first attempt, with a clone of the
/// logic.
pub open spec fn retries_as<L: Clone>(
    settings: TowerRequestSettings,
    logic: L,
    policy: FixedRetryPolicy<L>,
) -> bool {
    &&& policy@ == settings@.retry_state()
    &&& policy.current_duration == settings.retry_initial_backoff_secs
    &&& policy.max_duration == settings.retry_max_duration_secs
    &&& cloned(logic, policy.logic)
}

/// Whether this is the service in the middleware of the settings. From the outside inwards: the
/// rate limit, the concurrency limit, the retries, the timeout of a single attempt, the service.
pub open spec fn stacked<S, L: Clone>(
    settings: TowerRequestSettings,
    logic: L,
    inner: S,
    svc: Svc<S, L>,
) -> bool {
    let limited = svc.inner;
    let retried = limited.inner;
    let timed = retried.inner;
    &&& svc.num == settings.rate_limit_num
    &&& svc.per == settings.rate_limit_duration
    &&& limited.concurrency == settings.concurrency
    &&& limited.settings == settings.adaptive_concurrency
    &&& cloned(logic, limited.logic)
    &&& retries_as(settings, logic, retried.policy)
    &&& timed.timeout == settings.timeout
    &&& timed.inner == inner
}

/// Whether this is the service at one endpoint in the middleware of its own. From the outside
/// inwards: the concurrency limit, the health of the endpoint, the timeout of a single attempt,
/// the service.
pub open spec fn single<S, RL: Clone, HC: Clone, HL: Clone, G: Clone>(
    settings: TowerRequestSettings,
    retry_logic: RL,
    health_config: HC,
    health_logic: HL,
    open: G,
    endpoint: String,
    inner: S,
    service: SingleDistributedService<S, RL, HC, HL, G>,
) -> bool {
    let watched = service.inner;
    let timed = watched.inner;
    &&& service.concurrency == settings.concurrency
    &&& service.settings == settings.adaptive_concurrency
    &&& cloned(retry_logic, service.logic)
    &&& cloned(health_config, watched.config)
    &&& cloned(health_logic, watched.logic)
    &&& cloned(open, watched.open)
    &&& watched.endpoint == endpoint
    &&& timed.timeout == settings.timeout
    &&& timed.inner == inner
}

/// Whether these are the services, each in the middleware of its own, and each under the key that
/// is its place in the list. They have the health logic and the gauge of open endpoints in common.
pub open spec fn keyed_in_order<S, RL: Clone, HC: Clone, HL: Clone, G: Clone>(
    settings: TowerRequestSettings,
    retry_logic: RL,
    health_config: HC,
    health_logic: HL,
    open: G,
    services: Seq<(String, S)>,
    keyed: Seq<(usize, SingleDistributedService<S, RL, HC, HL, G>)>,
) -> bool {
    &&& keyed.len() == services.len()
    &&& forall|i: int|
        #![trigger keyed[i]]
        0 <= i < keyed.len() ==> keyed[i].0 == i && single(
            settings,
            retry_logic,
            health_config,
            health_logic,
            open,
            services[i].0,
            services[i].1,
            keyed[i].1,
        )
}

impl TowerRequestSettings {
    /// Whether a rate limit can be made of the settings: it lets something through, and its time
    /// window has a length.
    pub fn has_valid_rate_limit(&self) -> (valid: bool)
        ensures
            valid == self@.rate_limit_wf(),
    {
        self.rate_limit_num > 0 && self.rate_limit_duration.as_nanos() > 0
    }

    /// The retry policy of the settings.
    pub fn retry_policy<L: RetryLogic>(&self, logic: L) -> (policy: FixedRetryPolicy<L>)
        ensures
            policy@ == self@.retry_state(),
            policy.current_duration == self.retry_initial_backoff_secs,
            policy.max_duration == self.retry_max_duration_secs,
            policy.logic == logic,
    {
        FixedRetryPolicy::new(
            self.retry_attempts,
            self.retry_initial_backoff_secs,
            self.retry_max_duration_secs,
            logic,
        )
    }

    /// A partitioned sink on the service, in the middleware of the settings.
    ///
    /// Note: this has been deprecated, please do not use when creating new sinks.
    pub fn partition_sink<B, RL: RetryLogic, S, K>(
        &self,
        retry_logic: RL,
        service: S,
        batch: B,
        batch_timeout: Duration,
    ) -> (sink: TowerPartitionSink<S, B, RL, K>)
        requires
            self@.rate_limit_wf(),
        ensures
            stacked(*self, retry_logic, service, sink.service),
            sink.service.wf(),
            sink.batch == batch,
            sink.timeout == batch_timeout,
    {
        let layer: TowerRequestLayer<RL, B> = TowerRequestLayer::new(self.clone(), retry_logic);
        PartitionBatchSink {
            service: layer.layer(service),
            batch,
            timeout: batch_timeout,
            partition: PhantomData,
        }
    }

    /// A sink on the service, in the middleware of the settings.
    ///
    /// Note: this has been deprecated, please do not use when creating new sinks.
    pub fn batch_sink<B, RL: RetryLogic, S>(
        &self,
        retry_logic: RL,
        service: S,
        batch: B,
        batch_timeout: Duration,
    ) -> (sink: TowerBatchedSink<S, B, RL>)
        requires
            self@.rate_limit_wf(),
        ensures
            stacked(*self, retry_logic, service, sink.service),
            sink.service.wf(),
            sink.batch == batch,
            sink.timeout == batch_timeout,
    {
        let layer: TowerRequestLayer<RL, B> = TowerRequestLayer::new(self.clone(), retry_logic);
        BatchSink { service: layer.layer(service), batch, timeout: batch_timeout }
    }

    /// Distributes requests to services, each given with its endpoint. All endpoints are counted in
    /// clones of one gauge of open ones.
    pub fn distributed_service<RL: RetryLogic, HC: Clone, HL: Clone, G: Clone, S>(
        self,
        retry_logic: RL,
        services: Vec<(String, S)>,
        health_config: HC,
        health_logic: HL,
        open: G,
    ) -> (distributed: DistributedService<S, RL, HC, HL, G, usize>)
        requires
            self@.rate_limit_wf(),
            services@.len() * MAX_CONCURRENCY <= usize::MAX,
        ensures
            distributed.num == self.rate_limit_num,
            distributed.per == self.rate_limit_duration,
            distributed.wf(),
            retries_as(self, retry_logic, distributed.inner.policy),
            distributed.inner.inner.bound == services@.len() * MAX_CONCURRENCY,
            keyed_in_order(
                self,
                retry_logic,
                health_config,
                health_logic,
                open,
                services@,
                distributed.inner.inner.inner.services@,
            ),
    {
        let policy = self.retry_policy(retry_logic.clone());
        let max_concurrency: usize = services.len()
            * AdaptiveConcurrencySettings::max_concurrency();
        let ghost all = services@;
        let mut keyed: Vec<(usize, SingleDistributedService<S, RL, HC, HL, G>)> = Vec::new();
        for pair in iter: services
            invariant
                iter.seq() == all,
                keyed@.len() == iter.index(),
                keyed_in_order(
                    self,
                    retry_logic,
                    health_config,
                    health_logic,
                    open,
                    all.take(iter.index() as int),
                    keyed@,
                ),
        {
            let (endpoint, inner) = pair;
            let key: usize = keyed.len();
            let timed = Timeout { timeout: self.timeout, inner };
            let watched = HealthService {
                config: health_config.clone(),
                logic: health_logic.clone(),
                open: open.clone(),
                endpoint,
                inner: timed,
            };
            let limited = AdaptiveConcurrencyLimit {
                concurrency: self.concurrency,
                settings: self.adaptive_concurrency,
                logic: retry_logic.clone(),
                inner: watched,
            };
            keyed.push((key, limited));
        }
        RateLimit {
            num: self.rate_limit_num,
            per: self.rate_limit_duration,
            inner: Retry {
                policy,
                inner: Buffer { bound: max_concurrency, inner: Balance { services: keyed } },
            },
        }
    }
}

} // verus!
