//! The admission gate: a per-client rate limiter that smooths bursts by making
//! callers wait, and a global cap on concurrent requests that turns callers
//! away.

use vstd::prelude::*;
use crate::config::Config;

verus! {

/// The per-client rate limiter: one token bucket for each client address,
/// created on first use. The buckets belong to the `governor` crate; waiting
/// on one is left to the caller, who reaches the limiter through `inner`.
#[verifier::external_body]
pub struct UserLimits {
    pub inner: std::sync::Arc<governor::DefaultKeyedRateLimiter<String>>,
}

/// The number of requests per minute that a limiter grants each client, the
/// quota that it was made with.
pub uninterp spec fn quota_per_minute(limits: UserLimits) -> nat;

/// Builds a keyed limiter with `governor::RateLimiter::keyed` from
/// `governor::Quota::per_minute`: each client may make `per_minute` requests
/// in a burst, refilled evenly over one minute.
#[verifier::external_body]
fn keyed_per_minute(per_minute: u32) -> (limits: UserLimits)
    requires
        per_minute >= 1,
    ensures
        quota_per_minute(limits) == per_minute,
{
    let burst = std::num::NonZeroU32::new(per_minute).unwrap();
    let limiter = governor::RateLimiter::keyed(governor::Quota::per_minute(burst));
    UserLimits { inner: std::sync::Arc::new(limiter) }
}

/// The state that all requests share: the configuration, the per-client
/// limiter and the count of requests that hold a slot.
pub struct ProxyContext {
    config: Config,
    user_limits: UserLimits,
    requests_being_processed: usize,
}

/// Proof of one occupied slot. It is handed out by [`RequestGuard::new`] and
/// given back, once, to [`RequestGuard::release`].
pub struct RequestGuard {
    slot: (),
}

impl ProxyContext {
    #[verifier::type_invariant]
    spec fn inv(&self) -> bool {
        &&& self.config.wf()
        &&& self.requests_being_processed <= self.config.max_concurrent_requests
    }

    /// The number of requests that hold a slot.
    pub closed spec fn in_flight(&self) -> nat {
        self.requests_being_processed as nat
    }

    /// The configuration that the context was made with.
    pub closed spec fn settings(&self) -> Config {
        self.config
    }

    /// The per-client limiter.
    pub closed spec fn limits(&self) -> UserLimits {
        self.user_limits
    }

    /// The largest number of requests that may hold a slot at once.
    pub open spec fn capacity(&self) -> nat {
        self.settings().max_concurrent_requests as nat
    }

    /// A context with no request in flight and a limiter for the configured
    /// per-client quota.
    pub fn new(config: Config) -> (ctx: Self)
        requires
            config.wf(),
        ensures
            ctx.settings() == config,
            ctx.in_flight() == 0,
            quota_per_minute(ctx.limits()) == config.request_limit_per_minute_per_ip,
    {
        let user_limits = keyed_per_minute(config.request_limit_per_minute_per_ip);
        ProxyContext { config, user_limits, requests_being_processed: 0 }
    }

    /// The configuration.
    pub fn config(&self) -> (config: &Config)
        ensures
            *config == self.settings(),
            config.wf(),
    {
        proof {
            use_type_invariant(self);
        }
        &self.config
    }

    /// The per-client limiter, for the caller to wait on.
    pub fn user_limits(&self) -> (limits: &UserLimits)
        ensures
            *limits == self.limits(),
    {
        &self.user_limits
    }

    /// The number of requests in flight, which never exceeds the capacity.
    pub fn requests_being_processed(&self) -> (count: usize)
        ensures
            count == self.in_flight(),
            count <= self.capacity(),
    {
        proof {
            use_type_invariant(self);
        }
        self.requests_being_processed
    }

    /// Takes a slot if one is free. The test and the increment are one step:
    /// the count goes up by one exactly when it was below the capacity, and
    /// is left alone otherwise.
    pub fn can_accommodate_request(&mut self) -> (admitted: bool)
        ensures
            admitted == (old(self).in_flight() < old(self).capacity()),
            final(self).in_flight() == old(self).in_flight() + if admitted { 1nat } else { 0nat },
            final(self).in_flight() <= final(self).capacity(),
            final(self).settings() == old(self).settings(),
            final(self).limits() == old(self).limits(),
    {
        proof {
            use_type_invariant(&*self);
        }
        if self.requests_being_processed >= self.config.max_concurrent_requests {
            false
        } else {
            self.requests_being_processed = self.requests_being_processed + 1;
            true
        }
    }

    /// Gives one slot back.
    pub fn decrease_request_count(&mut self)
        requires
            old(self).in_flight() > 0,
        ensures
            final(self).in_flight() == old(self).in_flight() - 1,
            final(self).in_flight() < final(self).capacity(),
            final(self).settings() == old(self).settings(),
            final(self).limits() == old(self).limits(),
    {
        proof {
            use_type_invariant(&*self);
        }
        self.requests_being_processed = self.requests_being_processed - 1;
    }
}

impl RequestGuard {
    /// Tries to take a slot: a guard when the count was below the capacity,
    /// nothing when the proxy is full.
    pub fn new(ctx: &mut ProxyContext) -> (guard: Option<Self>)
        ensures
            guard is Some == (old(ctx).in_flight() < old(ctx).capacity()),
            final(ctx).in_flight() == old(ctx).in_flight() + if guard is Some { 1nat } else { 0nat },
            final(ctx).in_flight() <= final(ctx).capacity(),
            final(ctx).settings() == old(ctx).settings(),
            final(ctx).limits() == old(ctx).limits(),
    {
        if ctx.can_accommodate_request() {
            Some(RequestGuard { slot: () })
        } else {
            None
        }
    }

    /// Gives the slot back. The guard is used up, so one admission is
    /// released once.
    pub fn release(self, ctx: &mut ProxyContext)
        requires
            old(ctx).in_flight() > 0,
        ensures
            final(ctx).in_flight() == old(ctx).in_flight() - 1,
            final(ctx).in_flight() < final(ctx).capacity(),
            final(ctx).settings() == old(ctx).settings(),
            final(ctx).limits() == old(ctx).limits(),
    {
        ctx.decrease_request_count();
    }
}

} // verus!
