//! The proxy as a whole: the requests that are under way, each with its
//! pipeline, and the context that they share.
//!
//! The caller gives every request a number of its own and reports each event
//! under that number. Nothing is asked of the caller beyond that: the count
//! of requests in flight is kept right here, whatever is reported.

use std::collections::HashMap;
use vstd::prelude::*;
use crate::config::Config;
use crate::context::{quota_per_minute, ProxyContext, UserLimits};
use crate::speak::{Action, Event, Pipeline, Stage};
use crate::speakers::SpeakerTable;
use crate::traces::{
    bidden, filed, holding, lemma_told_keeps_count, settled, stage_of, told, Floor,
};

verus! {

broadcast use vstd::std_specs::hash::group_hash_axioms;

/// The proxy: the shared context, the speaker table and the pipelines of the
/// requests under way.
pub struct Proxy {
    ctx: ProxyContext,
    speakers: SpeakerTable,
    requests: HashMap<u64, Pipeline>,
}

/// The stages of a set of pipelines.
pub open spec fn stages_of(requests: Map<u64, Pipeline>) -> Map<u64, Stage> {
    requests.map_values(|pipeline: Pipeline| pipeline@)
}

impl View for Proxy {
    type V = Floor;

    closed spec fn view(&self) -> Floor {
        Floor { in_flight: self.ctx.in_flight(), stages: stages_of(self.requests@) }
    }
}

impl Proxy {
    /// The count of requests in flight is the number of requests under way
    /// that hold a slot. Every proxy made by [`Proxy::new`] and changed by
    /// [`Proxy::tell`] is well formed.
    pub closed spec fn wf(&self) -> bool {
        settled(self@)
    }

    /// The configuration.
    pub closed spec fn settings(&self) -> Config {
        self.ctx.settings()
    }

    /// The speaker table.
    pub closed spec fn voices(&self) -> Map<Seq<char>, Seq<char>> {
        self.speakers@
    }

    /// The per-client limiter.
    pub closed spec fn limits(&self) -> UserLimits {
        self.ctx.limits()
    }

    /// A proxy with no request under way, and a limiter for the configured
    /// per-client quota.
    pub fn new(config: Config, speakers: SpeakerTable) -> (proxy: Self)
        requires
            config.wf(),
        ensures
            proxy.wf(),
            proxy@ == (Floor { in_flight: 0, stages: Map::empty() }),
            proxy.settings() == config,
            proxy.voices() == speakers@,
            quota_per_minute(proxy.limits()) == config.request_limit_per_minute_per_ip,
    {
        let requests: HashMap<u64, Pipeline> = HashMap::new();
        proof {
            assert(stages_of(requests@) =~= Map::<u64, Stage>::empty());
            assert(holding(Map::<u64, Stage>::empty()) =~= Set::<u64>::empty());
        }
        Proxy { ctx: ProxyContext::new(config), speakers, requests }
    }

    /// The shared context, for its configuration and its limiter.
    pub fn context(&self) -> (ctx: &ProxyContext)
        ensures
            ctx.settings() == self.settings(),
            ctx.limits() == self.limits(),
            ctx.in_flight() == self@.in_flight,
    {
        &self.ctx
    }

    /// The number of requests in flight: the number of requests under way
    /// that hold a slot, never more than the configured maximum.
    pub fn in_flight(&self) -> (count: usize)
        requires
            self.wf(),
        ensures
            count == self@.in_flight,
            count == holding(self@.stages).len(),
            count <= self.settings().max_concurrent_requests,
    {
        self.ctx.requests_being_processed()
    }

    /// Reports `event` for request `id` and returns what the caller is to do
    /// next: the request's pipeline takes one step. A number that is not
    /// under way starts a new request; a request that finishes is no longer
    /// under way.
    pub fn tell(&mut self, id: u64, event: Event) -> (action: Action)
        requires
            old(self).wf(),
        ensures
            final(self).wf(),
            final(self)@ == told(old(self)@, old(self).settings(), old(self).voices(), id, event@),
            action@ == bidden(old(self)@, old(self).settings(), old(self).voices(), id, event@),
            final(self)@.in_flight <= final(self).settings().max_concurrent_requests,
            final(self)@.in_flight == holding(final(self)@.stages).len(),
            final(self).settings() == old(self).settings(),
            final(self).voices() == old(self).voices(),
            final(self).limits() == old(self).limits(),
    {
        // Reading the count brings along that it is within the capacity.
        let _in_flight = self.ctx.requests_being_processed();
        proof {
            lemma_told_keeps_count(self@, self.settings(), self.voices(), id, event@);
        }
        let ghost before = self.requests@;
        let pipeline = match self.requests.remove(&id) {
            Some(pipeline) => pipeline,
            None => Pipeline::new(),
        };
        assert(pipeline@ == stage_of(stages_of(before), id));
        let (next, action) = pipeline.step(&mut self.ctx, &self.speakers, event);
        if !next.is_finished() {
            self.requests.insert(id, next);
        }
        assert(stages_of(self.requests@) =~= filed(stages_of(before), id, next@));
        action
    }
}

} // verus!
