//! Where each setting ends up in the middleware of a service, setting by setting.

use crate::layer::TowerRequestLayer;
use crate::middleware::{rate_limit_layer_of, timeout_layer_of};
use crate::retries::{FixedRetryPolicy, RetryLogic};
use crate::settings::TowerRequestSettings;
use crate::stack::{
    AdaptiveConcurrencyLimit, DistributedService, RateLimit, Retry, Svc, Timeout,
    TowerBatchedSink, TowerPartitionSink,
};
use crate::time::duration_nanos;
use std::time::Duration;
use tower::limit::RateLimitLayer;
use tower::timeout::TimeoutLayer;
use vstd::prelude::*;

verus! {

/// A layer keeps the settings and the logic that it is made of.
pub proof fn law_layer_keeps_its_parts<L: RetryLogic, Request>(
    settings: TowerRequestSettings,
    logic: L,
    layer: TowerRequestLayer<L, Request>,
    copy: TowerRequestLayer<L, Request>,
)
    requires
        call_ensures(TowerRequestLayer::<L, Request>::new, (settings, logic), layer),
        call_ensures(<TowerRequestLayer<L, Request> as Clone>::clone, (&layer,), copy),
    ensures
        layer.settings == settings,
        layer.retry_logic == logic,
        copy.settings == settings,
        cloned(logic, copy.retry_logic),
{
}

/// A layer limits the rate as its settings say, and keeps the requests under way at the
/// concurrency of its settings, which may be none, with their tuning and a clone of its logic.
pub proof fn law_layer_limits_as_set<L: RetryLogic, Request, S>(
    layer: TowerRequestLayer<L, Request>,
    inner: S,
    svc: Svc<S, L>,
)
    requires
        call_ensures(TowerRequestLayer::<L, Request>::layer::<S>, (&layer, inner), svc),
    ensures
        svc.num == layer.settings.rate_limit_num,
        svc.per == layer.settings.rate_limit_duration,
        svc.inner.concurrency == layer.settings.concurrency,
        svc.inner.settings == layer.settings.adaptive_concurrency,
        cloned(layer.retry_logic, svc.inner.logic),
{
}

/// A layer retries as its settings say: as often, with that first wait and that longest wait, and
/// with a clone of its logic. Each attempt has the timeout of the settings, and goes to the
/// service itself.
pub proof fn law_layer_retries_and_times_out_as_set<L: RetryLogic, Request, S>(
    layer: TowerRequestLayer<L, Request>,
    inner: S,
    svc: Svc<S, L>,
)
    requires
        call_ensures(TowerRequestLayer::<L, Request>::layer::<S>, (&layer, inner), svc),
    ensures
        svc.inner.inner.policy.remaining_attempts == layer.settings.retry_attempts,
        duration_nanos(svc.inner.inner.policy.previous_duration) == 0,
        svc.inner.inner.policy.current_duration == layer.settings.retry_initial_backoff_secs,
        svc.inner.inner.policy.max_duration == layer.settings.retry_max_duration_secs,
        cloned(layer.retry_logic, svc.inner.inner.policy.logic),
        svc.inner.inner.inner.timeout == layer.settings.timeout,
        svc.inner.inner.inner.inner == inner,
{
}

/// A sink keeps the batch and its timeout, and has the service in the middleware of the settings.
pub proof fn law_batch_sink_follows_settings<B, RL: RetryLogic, S>(
    settings: TowerRequestSettings,
    logic: RL,
    service: S,
    batch: B,
    batch_timeout: Duration,
    sink: TowerBatchedSink<S, B, RL>,
)
    requires
        call_ensures(
            TowerRequestSettings::batch_sink::<B, RL, S>,
            (&settings, logic, service, batch, batch_timeout),
            sink,
        ),
    ensures
        sink.batch == batch,
        sink.timeout == batch_timeout,
        sink.service.num == settings.rate_limit_num,
        sink.service.per == settings.rate_limit_duration,
        sink.service.inner.concurrency == settings.concurrency,
        sink.service.inner.settings == settings.adaptive_concurrency,
        cloned(logic, sink.service.inner.logic),
        sink.service.inner.inner.policy.remaining_attempts == settings.retry_attempts,
        duration_nanos(sink.service.inner.inner.policy.previous_duration) == 0,
        sink.service.inner.inner.policy.current_duration == settings.retry_initial_backoff_secs,
        sink.service.inner.inner.policy.max_duration == settings.retry_max_duration_secs,
        cloned(logic, sink.service.inner.inner.policy.logic),
        sink.service.inner.inner.inner.timeout == settings.timeout,
        sink.service.inner.inner.inner.inner == service,
{
}

/// A partitioned sink keeps the batch and its timeout, and has the service in the middleware of
/// the settings.
pub proof fn law_partition_sink_follows_settings<B, RL: RetryLogic, S, K>(
    settings: TowerRequestSettings,
    logic: RL,
    service: S,
    batch: B,
    batch_timeout: Duration,
    sink: TowerPartitionSink<S, B, RL, K>,
)
    requires
        call_ensures(
            TowerRequestSettings::partition_sink::<B, RL, S, K>,
            (&settings, logic, service, batch, batch_timeout),
            sink,
        ),
    ensures
        sink.batch == batch,
        sink.timeout == batch_timeout,
        sink.service.num == settings.rate_limit_num,
        sink.service.per == settings.rate_limit_duration,
        sink.service.inner.concurrency == settings.concurrency,
        sink.service.inner.settings == settings.adaptive_concurrency,
        cloned(logic, sink.service.inner.logic),
        sink.service.inner.inner.policy.remaining_attempts == settings.retry_attempts,
        duration_nanos(sink.service.inner.inner.policy.previous_duration) == 0,
        sink.service.inner.inner.policy.current_duration == settings.retry_initial_backoff_secs,
        sink.service.inner.inner.policy.max_duration == settings.retry_max_duration_secs,
        cloned(logic, sink.service.inner.inner.policy.logic),
        sink.service.inner.inner.inner.timeout == settings.timeout,
        sink.service.inner.inner.inner.inner == service,
{
}

/// What distributed services share follows the settings: the rate limit, the retries, and a buffer
/// with room for two hundred requests to each service.
pub proof fn law_distributed_services_share_what_is_set<
    RL: RetryLogic,
    HC: Clone,
    HL: Clone,
    G: Clone,
    S,
>(
    settings: TowerRequestSettings,
    logic: RL,
    services: Vec<(String, S)>,
    health_config: HC,
    health_logic: HL,
    open: G,
    distributed: DistributedService<S, RL, HC, HL, G, usize>,
)
    requires
        call_ensures(
            TowerRequestSettings::distributed_service::<RL, HC, HL, G, S>,
            (settings, logic, services, health_config, health_logic, open),
            distributed,
        ),
    ensures
        distributed.num == settings.rate_limit_num,
        distributed.per == settings.rate_limit_duration,
        distributed.inner.policy.remaining_attempts == settings.retry_attempts,
        duration_nanos(distributed.inner.policy.previous_duration) == 0,
        distributed.inner.policy.current_duration == settings.retry_initial_backoff_secs,
        distributed.inner.policy.max_duration == settings.retry_max_duration_secs,
        cloned(logic, distributed.inner.policy.logic),
        distributed.inner.inner.bound == 200 * services@.len(),
        distributed.inner.inner.inner.services@.len() == services@.len(),
{
}

/// Each distributed service follows the settings and its own place in the list: its key is that
/// place, its endpoint and the service itself are those at that place, and its concurrency, tuning
/// and timeout are those of the settings. Health configuration, health logic, retry logic and
/// gauge are clones of the ones given.
pub proof fn law_each_distributed_service_follows_settings<
    RL: RetryLogic,
    HC: Clone,
    HL: Clone,
    G: Clone,
    S,
>(
    settings: TowerRequestSettings,
    logic: RL,
    services: Vec<(String, S)>,
    health_config: HC,
    health_logic: HL,
    open: G,
    distributed: DistributedService<S, RL, HC, HL, G, usize>,
    place: int,
)
    requires
        call_ensures(
            TowerRequestSettings::distributed_service::<RL, HC, HL, G, S>,
            (settings, logic, services, health_config, health_logic, open),
            distributed,
        ),
        0 <= place < services@.len(),
    ensures
        ({
            let (key, limited) = distributed.inner.inner.inner.services@[place];
            &&& key == place
            &&& limited.concurrency == settings.concurrency
            &&& limited.settings == settings.adaptive_concurrency
            &&& cloned(logic, limited.logic)
            &&& cloned(health_config, limited.inner.config)
            &&& cloned(health_logic, limited.inner.logic)
            &&& cloned(open, limited.inner.open)
            &&& limited.inner.endpoint == services@[place].0
            &&& limited.inner.inner.timeout == settings.timeout
            &&& limited.inner.inner.inner == services@[place].1
        }),
{
}

/// Every rate limit that lets something through in a time window with a length can be made use of:
/// a layer and both kinds of sink take its settings.
pub proof fn law_valid_rate_limits_are_accepted<L: RetryLogic, Request, S, B, K>(
    layer: TowerRequestLayer<L, Request>,
    logic: L,
    inner: S,
    batch: B,
    batch_timeout: Duration,
)
    requires
        layer.settings.rate_limit_num != 0,
        duration_nanos(layer.settings.rate_limit_duration) != 0,
    ensures
        call_requires(TowerRequestLayer::<L, Request>::layer::<S>, (&layer, inner)),
        call_requires(
            TowerRequestSettings::batch_sink::<B, L, S>,
            (&layer.settings, logic, inner, batch, batch_timeout),
        ),
        call_requires(
            TowerRequestSettings::partition_sink::<B, L, S, K>,
            (&layer.settings, logic, inner, batch, batch_timeout),
        ),
{
}

/// Services can be distributed over wherever the rate limit lets something through in a time
/// window with a length and the room for their requests can be counted.
pub proof fn law_countable_services_are_accepted<
    RL: RetryLogic,
    HC: Clone,
    HL: Clone,
    G: Clone,
    S,
>(
    settings: TowerRequestSettings,
    logic: RL,
    services: Vec<(String, S)>,
    health_config: HC,
    health_logic: HL,
    open: G,
)
    requires
        settings.rate_limit_num != 0,
        duration_nanos(settings.rate_limit_duration) != 0,
        200 * services@.len() <= usize::MAX,
    ensures
        call_requires(
            TowerRequestSettings::distributed_service::<RL, HC, HL, G, S>,
            (settings, logic, services, health_config, health_logic, open),
        ),
{
}

/// A layer can be made of the rate limit of every service that a layer has stacked.
pub proof fn law_stacked_rate_limits_have_layers<L: RetryLogic, Request, S>(
    layer: TowerRequestLayer<L, Request>,
    inner: S,
    svc: Svc<S, L>,
)
    requires
        layer.settings.rate_limit_num != 0,
        duration_nanos(layer.settings.rate_limit_duration) != 0,
        call_ensures(TowerRequestLayer::<L, Request>::layer::<S>, (&layer, inner), svc),
    ensures
        call_requires(
            RateLimit::<
                AdaptiveConcurrencyLimit<Retry<FixedRetryPolicy<L>, Timeout<S>>, L>,
            >::rate_limit_layer,
            (&svc,),
        ),
{
}

/// The layers of a rate limit and of a timeout are made of just the values that they describe.
pub proof fn law_tower_layers_hold_what_is_described<T, U>(
    limit: RateLimit<T>,
    rate_limit_layer: RateLimitLayer,
    timeout: Timeout<U>,
    timeout_layer: TimeoutLayer,
)
    requires
        call_ensures(RateLimit::<T>::rate_limit_layer, (&limit,), rate_limit_layer),
        call_ensures(Timeout::<U>::timeout_layer, (&timeout,), timeout_layer),
    ensures
        rate_limit_layer == rate_limit_layer_of(limit.num, duration_nanos(limit.per)),
        timeout_layer == timeout_layer_of(duration_nanos(timeout.timeout)),
{
}

} // verus!
