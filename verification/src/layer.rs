//! The layer that puts a service in the middleware of its settings.

use crate::retries::RetryLogic;
use crate::settings::{stacked, TowerRequestSettings};
use crate::stack::{AdaptiveConcurrencyLimit, RateLimit, Retry, Svc, Timeout};
use std::marker::PhantomData;
use vstd::prelude::*;

verus! {

/// Puts services that take a kind of request in the middleware of the settings.
#[derive(Debug)]
pub struct TowerRequestLayer<L, Request> {
    pub settings: TowerRequestSettings,
    pub retry_logic: L,
    pub request: PhantomData<Request>,
}

impl<L: Clone, Request> Clone for TowerRequestLayer<L, Request> {
    fn clone(&self) -> (copy: Self)
        ensures
            copy.settings == self.settings,
            cloned(self.retry_logic, copy.retry_logic),
    {
        TowerRequestLayer {
            settings: self.settings.clone(),
            retry_logic: self.retry_logic.clone(),
            request: PhantomData,
        }
    }
}

impl<L: RetryLogic, Request> TowerRequestLayer<L, Request> {
    /// The layer of these settings, whose services are retried by this logic.
    pub fn new(settings: TowerRequestSettings, retry_logic: L) -> (layer: Self)
        ensures
            layer.settings == settings,
            layer.retry_logic == retry_logic,
    {
        TowerRequestLayer { settings, retry_logic, request: PhantomData }
    }

    /// The service in the middleware of the settings.
    pub fn layer<S>(&self, inner: S) -> (svc: Svc<S, L>)
        requires
            self.settings@.rate_limit_wf(),
        ensures
            stacked(self.settings, self.retry_logic, inner, svc),
            svc.wf(),
    {
        let policy = self.settings.retry_policy(self.retry_logic.clone());
        RateLimit {
            num: self.settings.rate_limit_num,
            per: self.settings.rate_limit_duration,
            inner: AdaptiveConcurrencyLimit {
                concurrency: self.settings.concurrency,
                settings: self.settings.adaptive_concurrency,
                logic: self.retry_logic.clone(),
                inner: Retry {
                    policy,
                    inner: Timeout { timeout: self.settings.timeout, inner },
                },
            },
        }
    }
}

} // verus!
