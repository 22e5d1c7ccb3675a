//! What the library relies on of the `tower` crate.

use crate::time::duration_nanos;
use std::time::Duration;
use tower::limit::RateLimitLayer;
use tower::timeout::TimeoutLayer;
use vstd::prelude::*;

verus! {

/// `RateLimitLayer`, which keeps what it holds to itself.
#[verifier::external_type_specification]
#[verifier::external_body]
pub struct ExRateLimitLayer(tower::limit::RateLimitLayer);

/// `TimeoutLayer`, which keeps what it holds to itself.
#[verifier::external_type_specification]
#[verifier::external_body]
pub struct ExTimeoutLayer(tower::timeout::TimeoutLayer);

/// The layer that `RateLimitLayer::new` makes for a number of requests and a time window, the
/// window in nanoseconds.
pub uninterp spec fn rate_limit_layer_of(num: u64, per_nanos: nat) -> RateLimitLayer;

/// The layer that `TimeoutLayer::new` makes for a timeout in nanoseconds.
pub uninterp spec fn timeout_layer_of(timeout_nanos: nat) -> TimeoutLayer;

/// `RateLimitLayer::new` keeps the number of requests and the time window, and panics where either
/// is zero.
pub assume_specification[ RateLimitLayer::new ](num: u64, per: Duration) -> (layer: RateLimitLayer)
    requires
        num > 0,
        duration_nanos(per) > 0,
    ensures
        layer == rate_limit_layer_of(num, duration_nanos(per)),
;

/// `TimeoutLayer::new` keeps the timeout.
pub assume_specification[ TimeoutLayer::new ](timeout: Duration) -> (layer: TimeoutLayer)
    ensures
        layer == timeout_layer_of(duration_nanos(timeout)),
;

} // verus!
