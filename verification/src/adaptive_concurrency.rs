//! How the number of concurrent requests adapts to a service.

use vstd::prelude::*;

verus! {

/// The most requests that adaptive concurrency lets run at once.
pub const MAX_CONCURRENCY: usize = 200;

/// The bits of `0.9`.
pub const DECREASE_RATIO_DEFAULT: u64 = 0x3FEC_CCCC_CCCC_CCCD;

/// The bits of `0.4`.
pub const EWMA_ALPHA_DEFAULT: u64 = 0x3FD9_9999_9999_999A;

/// The bits of `2.5`.
pub const RTT_DEVIATION_SCALE_DEFAULT: u64 = 0x4004_0000_0000_0000;

/// Tuning of the adaptive concurrency algorithm.
///
/// Nothing here computes with these numbers: each is carried as the bits of a double-precision
/// float, which `f64::from_bits` turns back into the number.
#[derive(Clone, Copy, Debug, PartialEq, Eq, Structural)]
pub struct AdaptiveConcurrencySettings {
    /// The fraction of the current limit to set it to when the service slows down.
    pub decrease_ratio_bits: u64,
    /// The weight of new measurements against older ones.
    pub ewma_alpha_bits: u64,
    /// How many deviations a response time may lie above the average before it counts as slow.
    pub rtt_deviation_scale_bits: u64,
}

impl AdaptiveConcurrencySettings {
    /// The settings of a configuration that sets none.
    pub open spec fn spec_default() -> AdaptiveConcurrencySettings {
        AdaptiveConcurrencySettings {
            decrease_ratio_bits: DECREASE_RATIO_DEFAULT,
            ewma_alpha_bits: EWMA_ALPHA_DEFAULT,
            rtt_deviation_scale_bits: RTT_DEVIATION_SCALE_DEFAULT,
        }
    }

    /// The settings of a configuration that sets none.
    pub fn const_default() -> (settings: Self)
        ensures
            settings == Self::spec_default(),
    {
        AdaptiveConcurrencySettings {
            decrease_ratio_bits: DECREASE_RATIO_DEFAULT,
            ewma_alpha_bits: EWMA_ALPHA_DEFAULT,
            rtt_deviation_scale_bits: RTT_DEVIATION_SCALE_DEFAULT,
        }
    }

    /// The most requests that adaptive concurrency lets run at once.
    pub fn max_concurrency() -> (limit: usize)
        ensures
            limit == MAX_CONCURRENCY,
    {
        MAX_CONCURRENCY
    }
}

impl Default for AdaptiveConcurrencySettings {
    fn default() -> (settings: Self)
        ensures
            settings == Self::spec_default(),
    {
        Self::const_default()
    }
}

} // verus!
