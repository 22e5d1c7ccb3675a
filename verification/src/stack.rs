//! Descriptions of services in stacks of middleware, from the outermost middleware inwards.

use crate::adaptive_concurrency::AdaptiveConcurrencySettings;
use crate::middleware::{rate_limit_layer_of, timeout_layer_of};
use crate::retries::FixedRetryPolicy;
use crate::time::duration_nanos;
use std::marker::PhantomData;
use std::time::Duration;
use tower::limit::RateLimitLayer;
use tower::timeout::TimeoutLayer;
use vstd::prelude::*;

verus! {

/// Lets through at most `num` requests in every time window of length `per`.
pub struct RateLimit<T> {
    pub num: u64,
    pub per: Duration,
    pub inner: T,
}

impl<T> RateLimit<T> {
    /// A rate limit lets something through, and its time window has a length.
    pub open spec fn wf(self) -> bool {
        &&& self.num > 0
        &&& duration_nanos(self.per) > 0
    }

    /// The layer that puts this rate limit around a service.
    pub fn rate_limit_layer(&self) -> (layer: RateLimitLayer)
        requires
            self.wf(),
        ensures
            layer == rate_limit_layer_of(self.num, duration_nanos(self.per)),
    {
        RateLimitLayer::new(self.num, self.per)
    }
}

/// Keeps the number of requests under way at the fixed concurrency, or, without one, lets it adapt
/// to how the service responds.
pub struct AdaptiveConcurrencyLimit<T, L> {
    pub concurrency: Option<usize>,
    pub settings: AdaptiveConcurrencySettings,
    pub logic: L,
    pub inner: T,
}

/// Tries failed requests again, as the policy says.
pub struct Retry<P, T> {
    pub policy: P,
    pub inner: T,
}

/// Gives up on a request after this time.
pub struct Timeout<T> {
    pub timeout: Duration,
    pub inner: T,
}

impl<T> Timeout<T> {
    /// The layer that puts this timeout around a service.
    pub fn timeout_layer(&self) -> (layer: TimeoutLayer)
        ensures
            layer == timeout_layer_of(duration_nanos(self.timeout)),
    {
        TimeoutLayer::new(self.timeout)
    }
}

/// Watches the health of the service at an endpoint, and counts the endpoint in the gauge of open
/// ones while it is healthy.
pub struct HealthService<T, HC, HL, G> {
    pub config: HC,
    pub logic: HL,
    pub open: G,
    pub endpoint: String,
    pub inner: T,
}

/// Queues up to `bound` requests in front of a service.
pub struct Buffer<T> {
    pub bound: usize,
    pub inner: T,
}

/// Spreads requests over services, each known by its key.
pub struct Balance<K, T> {
    pub services: Vec<(K, T)>,
}

/// Collects events into batches, each of which becomes a request to the service once it is full or
/// the timeout has passed.
pub struct BatchSink<T, B> {
    pub service: T,
    pub batch: B,
    pub timeout: Duration,
}

/// Collects events into batches, one for each partition key, each of which becomes a request to
/// the service once it is full or the timeout has passed.
pub struct PartitionBatchSink<T, B, K> {
    pub service: T,
    pub batch: B,
    pub timeout: Duration,
    pub partition: PhantomData<K>,
}

/// One service in its middleware.
pub type Svc<S, L> = RateLimit<
    AdaptiveConcurrencyLimit<Retry<FixedRetryPolicy<L>, Timeout<S>>, L>,
>;

/// A sink on one service in its middleware.
pub type TowerBatchedSink<S, B, RL> = BatchSink<Svc<S, RL>, B>;

/// A partitioned sink on one service in its middleware.
pub type TowerPartitionSink<S, B, RL, K> = PartitionBatchSink<Svc<S, RL>, B, K>;

/// One of the services that requests are distributed over, in its own middleware.
pub type SingleDistributedService<S, RL, HC, HL, G> = AdaptiveConcurrencyLimit<
    HealthService<Timeout<S>, HC, HL, G>,
    RL,
>;

/// Services that requests are distributed over, in the middleware that they share.
pub type DistributedService<S, RL, HC, HL, G, K> = RateLimit<
    Retry<FixedRetryPolicy<RL>, Buffer<Balance<K, SingleDistributedService<S, RL, HC, HL, G>>>>,
>;

} // verus!
