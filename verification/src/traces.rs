//! What holds of every run of the pipeline, whatever the events and however
//! the runs of different requests interleave.
//!
//! A run is a request's pipeline fed a sequence of events. The ledger of a
//! run counts the slots it took, the slots it gave back and the upstream
//! calls it asked for.

use vstd::prelude::*;
use crate::config::Config;
use crate::forward::is_server_error;
use crate::speak::{
    holds_slot, overloaded_reply, released, step, ActionView, EventView, Outcome, Stage,
};

verus! {

/// Where a run stands, and what it has done so far.
pub struct Ledger {
    /// The stage that the request has reached.
    pub stage: Stage,
    /// The number of requests in flight.
    pub in_flight: nat,
    /// How many times the request took a slot.
    pub admissions: nat,
    /// How many times the request gave a slot back.
    pub releases: nat,
    /// How many upstream calls the request asked for.
    pub calls: nat,
}

/// 1 for a stage that holds a slot, 0 for one that does not.
pub open spec fn slots_held(stage: Stage) -> nat {
    if holds_slot(stage) {
        1
    } else {
        0
    }
}

/// The ledger after one more event.
pub open spec fn record(
    before: Ledger,
    config: Config,
    speakers: Map<Seq<char>, Seq<char>>,
    event: EventView,
) -> Ledger {
    let next = step(before.stage, before.in_flight, config, speakers, event);
    Ledger {
        stage: next.stage,
        in_flight: next.in_flight,
        admissions: before.admissions + if !holds_slot(before.stage) && holds_slot(next.stage) {
            1nat
        } else {
            0nat
        },
        releases: before.releases + if holds_slot(before.stage) && !holds_slot(next.stage) {
            1nat
        } else {
            0nat
        },
        calls: before.calls + if next.action is CallUpstream {
            1nat
        } else {
            0nat
        },
    }
}

/// The ledger of the run that starts at `stage` with `in_flight` requests in
/// flight and is fed `events` in order.
pub open spec fn run(
    stage: Stage,
    in_flight: nat,
    config: Config,
    speakers: Map<Seq<char>, Seq<char>>,
    events: Seq<EventView>,
) -> Ledger
    decreases events.len(),
{
    if events.len() == 0 {
        Ledger { stage, in_flight, admissions: 0, releases: 0, calls: 0 }
    } else {
        record(
            run(stage, in_flight, config, speakers, events.drop_last()),
            config,
            speakers,
            events.last(),
        )
    }
}

/// How far a request has come: stages are only ever left for later ones.
pub open spec fn progress(stage: Stage) -> nat {
    match stage {
        Stage::Idle => 0,
        Stage::AwaitingQuota { .. } => 1,
        Stage::Calling { .. } => 2,
        Stage::Draining { .. } => 2,
        Stage::Relaying => 2,
        Stage::Finished => 3,
    }
}

/// A forwarding stage is sound when its attempts are counted against the
/// configured number: at least one was made, and no more than allowed.
pub open spec fn attempts_sound(stage: Stage, config: Config) -> bool {
    match stage {
        Stage::Calling { forwarder, .. } => 1 <= forwarder.made <= forwarder.limit
            == config.retry_attempts,
        Stage::Draining { forwarder, .. } => 1 <= forwarder.made <= forwarder.limit
            == config.retry_attempts,
        _ => true,
    }
}

/// The number of upstream calls that a request may still ask for.
pub open spec fn calls_left(stage: Stage, config: Config) -> nat {
    match stage {
        Stage::Idle => config.retry_attempts as nat,
        Stage::AwaitingQuota { .. } => config.retry_attempts as nat,
        Stage::Calling { forwarder, .. } => (forwarder.limit - forwarder.made) as nat,
        Stage::Draining { forwarder, .. } => (forwarder.limit - forwarder.made) as nat,
        Stage::Relaying => 0,
        Stage::Finished => 0,
    }
}

/// One step changes the number of requests in flight by exactly the slot
/// that the request takes or gives back, and by nothing else.
pub proof fn lemma_step_accounts(
    stage: Stage,
    in_flight: nat,
    config: Config,
    speakers: Map<Seq<char>, Seq<char>>,
    event: EventView,
)
    requires
        holds_slot(stage) ==> in_flight > 0,
    ensures
        ({
            let next = step(stage, in_flight, config, speakers, event);
            &&& next.in_flight + slots_held(stage) == in_flight + slots_held(next.stage)
            &&& holds_slot(next.stage) ==> next.in_flight > 0
        }),
{
}

/// The number of requests in flight never exceeds the configured maximum: a
/// step that starts within it ends within it.
pub proof fn lemma_step_within_capacity(
    stage: Stage,
    in_flight: nat,
    config: Config,
    speakers: Map<Seq<char>, Seq<char>>,
    event: EventView,
)
    requires
        in_flight <= config.max_concurrent_requests,
    ensures
        step(stage, in_flight, config, speakers, event).in_flight
            <= config.max_concurrent_requests,
{
}

/// A slot is taken in one place only: when the quota wait of a valid request
/// ends while fewer requests are in flight than the maximum. A request that
/// fails validation never takes one.
pub proof fn lemma_admission_only_after_quota(
    stage: Stage,
    in_flight: nat,
    config: Config,
    speakers: Map<Seq<char>, Seq<char>>,
    event: EventView,
)
    ensures
        ({
            let next = step(stage, in_flight, config, speakers, event);
            !holds_slot(stage) && holds_slot(next.stage) <==> stage is AwaitingQuota
                && event is QuotaGranted && in_flight < config.max_concurrent_requests
        }),
{
}

/// A client that goes away ends the request at once, whatever its stage, and
/// its slot is given back.
pub proof fn lemma_disconnect_releases(
    stage: Stage,
    in_flight: nat,
    config: Config,
    speakers: Map<Seq<char>, Seq<char>>,
)
    ensures
        ({
            let next = step(stage, in_flight, config, speakers, EventView::Disconnected);
            &&& next.stage is Finished
            &&& next.action is Done
            &&& next.in_flight == released(stage, in_flight)
        }),
{
}

/// The wait for a client's quota only delays. A valid request is never
/// answered with a refusal on account of its client's rate: while it waits,
/// the one answer it can get is that every slot is taken, and it gets that
/// only once its wait is over.
pub proof fn lemma_quota_wait_never_rejects(
    stage: Stage,
    in_flight: nat,
    config: Config,
    speakers: Map<Seq<char>, Seq<char>>,
    event: EventView,
)
    requires
        stage is AwaitingQuota,
    ensures
        ({
            let next = step(stage, in_flight, config, speakers, event);
            next.action matches ActionView::Respond(reply) ==> event is QuotaGranted && in_flight
                >= config.max_concurrent_requests && reply == overloaded_reply()
        }),
{
}

/// A response is relayed exactly when an upstream attempt was answered with
/// a status that is no server error, and it is relayed under that status.
/// A server error is never relayed: its body is read and the attempt counts
/// as failed.
pub proof fn lemma_relay_passes_status(
    stage: Stage,
    in_flight: nat,
    config: Config,
    speakers: Map<Seq<char>, Seq<char>>,
    event: EventView,
)
    ensures
        ({
            let next = step(stage, in_flight, config, speakers, event);
            &&& next.action matches ActionView::Relay { status } ==> stage is Calling
                && event == (EventView::Status { status }) && !is_server_error(status)
                && next.stage is Relaying
            &&& event matches EventView::Status { status } ==> (stage is Calling ==> if is_server_error(
                status,
            ) {
                next.action is ReadFailureBody && next.stage is Draining
            } else {
                next.action == (ActionView::Relay { status })
            })
        }),
{
}

/// A request never goes back to an earlier stage, and a finished request
/// stays finished.
pub proof fn lemma_step_progresses(
    stage: Stage,
    in_flight: nat,
    config: Config,
    speakers: Map<Seq<char>, Seq<char>>,
    event: EventView,
)
    ensures
        progress(stage) <= progress(step(stage, in_flight, config, speakers, event).stage),
        stage is Finished ==> step(stage, in_flight, config, speakers, event) == (Outcome {
            stage: Stage::Finished,
            in_flight,
            action: ActionView::Done,
        }),
{
}

/// Attempts stay within the configured number, every further upstream call
/// uses one up, and the answer that reports exhaustion carries exactly the
/// configured number.
pub proof fn lemma_step_attempts(
    stage: Stage,
    in_flight: nat,
    config: Config,
    speakers: Map<Seq<char>, Seq<char>>,
    event: EventView,
)
    requires
        config.wf(),
        attempts_sound(stage, config),
    ensures
        ({
            let next = step(stage, in_flight, config, speakers, event);
            &&& attempts_sound(next.stage, config)
            &&& next.action is CallUpstream ==> calls_left(next.stage, config) + 1 <= calls_left(
                stage,
                config,
            )
            &&& calls_left(next.stage, config) <= calls_left(stage, config)
            &&& next.action matches ActionView::Respond(reply) ==> (reply.retries matches Some(n)
                ==> n == config.retry_attempts && reply.status == 500)
        }),
{
}

/// The ledger of a run balances. The requests in flight change by the
/// admissions less the releases; a run holds a slot at its end exactly when
/// it took one more than it gave back; and a slot that is held is counted.
pub proof fn lemma_run_balances(
    stage: Stage,
    in_flight: nat,
    config: Config,
    speakers: Map<Seq<char>, Seq<char>>,
    events: Seq<EventView>,
)
    requires
        holds_slot(stage) ==> in_flight > 0,
    ensures
        ({
            let end = run(stage, in_flight, config, speakers, events);
            &&& end.in_flight + end.releases == in_flight + end.admissions
            &&& slots_held(stage) + end.admissions == end.releases + slots_held(end.stage)
            &&& holds_slot(end.stage) ==> end.in_flight > 0
            &&& progress(stage) <= progress(end.stage)
        }),
    decreases events.len(),
{
    if events.len() > 0 {
        lemma_run_balances(stage, in_flight, config, speakers, events.drop_last());
        let before = run(stage, in_flight, config, speakers, events.drop_last());
        lemma_step_accounts(before.stage, before.in_flight, config, speakers, events.last());
        lemma_step_progresses(before.stage, before.in_flight, config, speakers, events.last());
    }
}

/// A request is admitted at most once, and only if it had not been admitted
/// before the run.
pub proof fn lemma_run_admits_once(
    stage: Stage,
    in_flight: nat,
    config: Config,
    speakers: Map<Seq<char>, Seq<char>>,
    events: Seq<EventView>,
)
    ensures
        ({
            let end = run(stage, in_flight, config, speakers, events);
            &&& progress(stage) <= progress(end.stage)
            &&& end.admissions <= 1
            &&& progress(stage) >= 2 ==> end.admissions == 0
            &&& end.admissions == 1 ==> progress(end.stage) >= 2
        }),
    decreases events.len(),
{
    if events.len() > 0 {
        lemma_run_admits_once(stage, in_flight, config, speakers, events.drop_last());
        let before = run(stage, in_flight, config, speakers, events.drop_last());
        lemma_step_progresses(before.stage, before.in_flight, config, speakers, events.last());
        lemma_admission_only_after_quota(
            before.stage,
            before.in_flight,
            config,
            speakers,
            events.last(),
        );
    }
}

/// Exactly one release per admission. A request that starts from nothing
/// takes at most one slot, never gives back more than it took, and once it
/// is finished, however it got there, has given back what it took, so that
/// the number of requests in flight is what it was before the request came.
pub proof fn lemma_one_release_per_admission(
    in_flight: nat,
    config: Config,
    speakers: Map<Seq<char>, Seq<char>>,
    events: Seq<EventView>,
)
    ensures
        ({
            let end = run(Stage::Idle, in_flight, config, speakers, events);
            &&& end.releases <= end.admissions <= 1
            &&& holds_slot(end.stage) <==> end.admissions == end.releases + 1
            &&& end.stage is Finished ==> end.releases == end.admissions && end.in_flight
                == in_flight
        }),
{
    lemma_run_balances(Stage::Idle, in_flight, config, speakers, events);
    lemma_run_admits_once(Stage::Idle, in_flight, config, speakers, events);
}

/// A run whose last event is the client going away is finished, whatever
/// came before.
pub proof fn lemma_run_ends_on_disconnect(
    stage: Stage,
    in_flight: nat,
    config: Config,
    speakers: Map<Seq<char>, Seq<char>>,
    events: Seq<EventView>,
)
    requires
        events.len() > 0,
        events.last() is Disconnected,
    ensures
        run(stage, in_flight, config, speakers, events).stage is Finished,
{
    let before = run(stage, in_flight, config, speakers, events.drop_last());
    lemma_disconnect_releases(before.stage, before.in_flight, config, speakers);
}

/// At most the configured number of upstream calls is asked for in the
/// whole of a run, and the requests in flight stay within the maximum.
pub proof fn lemma_run_bounded(
    stage: Stage,
    in_flight: nat,
    config: Config,
    speakers: Map<Seq<char>, Seq<char>>,
    events: Seq<EventView>,
)
    requires
        config.wf(),
        attempts_sound(stage, config),
        in_flight <= config.max_concurrent_requests,
    ensures
        ({
            let end = run(stage, in_flight, config, speakers, events);
            &&& attempts_sound(end.stage, config)
            &&& end.calls + calls_left(end.stage, config) <= calls_left(stage, config)
            &&& end.calls <= config.retry_attempts
            &&& end.in_flight <= config.max_concurrent_requests
        }),
    decreases events.len(),
{
    if events.len() > 0 {
        lemma_run_bounded(stage, in_flight, config, speakers, events.drop_last());
        let before = run(stage, in_flight, config, speakers, events.drop_last());
        lemma_step_attempts(before.stage, before.in_flight, config, speakers, events.last());
        lemma_step_within_capacity(before.stage, before.in_flight, config, speakers, events.last());
    }
}

/// Any number of requests in the proxy at once: the stage of each request
/// that is under way, by its number, and the count of those in flight that
/// they share.
pub struct Floor {
    pub in_flight: nat,
    pub stages: Map<u64, Stage>,
}

/// The stage of the request numbered `id`. A number that is not under way
/// stands for a request that has not arrived yet.
pub open spec fn stage_of(stages: Map<u64, Stage>, id: u64) -> Stage {
    if stages.contains_key(id) {
        stages[id]
    } else {
        Stage::Idle
    }
}

/// The numbers of the requests that hold a slot.
pub open spec fn holding(stages: Map<u64, Stage>) -> Set<u64> {
    Set::new(|id: u64| stages.contains_key(id) && holds_slot(stages[id]))
}

/// The count is right when it is the number of requests that hold a slot.
pub open spec fn settled(floor: Floor) -> bool {
    &&& floor.stages.dom().finite()
    &&& floor.in_flight == holding(floor.stages).len()
}

/// The stages once request `id` has reached `stage`: a finished request is
/// no longer under way.
pub open spec fn filed(stages: Map<u64, Stage>, id: u64, stage: Stage) -> Map<u64, Stage> {
    if stage is Finished {
        stages.remove(id)
    } else {
        stages.insert(id, stage)
    }
}

/// The proxy after request `id` was told of `event`.
pub open spec fn told(
    floor: Floor,
    config: Config,
    speakers: Map<Seq<char>, Seq<char>>,
    id: u64,
    event: EventView,
) -> Floor {
    let next = step(stage_of(floor.stages, id), floor.in_flight, config, speakers, event);
    Floor { in_flight: next.in_flight, stages: filed(floor.stages, id, next.stage) }
}

/// What the caller is to do after request `id` was told of `event`.
pub open spec fn bidden(
    floor: Floor,
    config: Config,
    speakers: Map<Seq<char>, Seq<char>>,
    id: u64,
    event: EventView,
) -> ActionView {
    step(stage_of(floor.stages, id), floor.in_flight, config, speakers, event).action
}

/// The proxy after a sequence of events, each for some request, starting
/// with no request under way. The events of different requests may come in
/// any order.
pub open spec fn played(
    config: Config,
    speakers: Map<Seq<char>, Seq<char>>,
    moves: Seq<(u64, EventView)>,
) -> Floor
    decreases moves.len(),
{
    if moves.len() == 0 {
        Floor { in_flight: 0, stages: Map::empty() }
    } else {
        told(
            played(config, speakers, moves.drop_last()),
            config,
            speakers,
            moves.last().0,
            moves.last().1,
        )
    }
}

/// Filing a request's new stage changes the set of holders by that request
/// alone.
pub proof fn lemma_holding_filed(stages: Map<u64, Stage>, id: u64, stage: Stage)
    ensures
        holding(filed(stages, id, stage)) == if holds_slot(stage) {
            holding(stages).insert(id)
        } else {
            holding(stages).remove(id)
        },
        holding(stages).contains(id) == holds_slot(stage_of(stages, id)),
        holding(stages).subset_of(stages.dom()),
{
    let after = holding(filed(stages, id, stage));
    if holds_slot(stage) {
        assert(after =~= holding(stages).insert(id));
    } else {
        assert(after =~= holding(stages).remove(id));
    }
}

/// One event keeps the count right and within the maximum. In particular a
/// request that holds a slot always finds itself counted, which is what a
/// step asks of its caller.
pub proof fn lemma_told_keeps_count(
    floor: Floor,
    config: Config,
    speakers: Map<Seq<char>, Seq<char>>,
    id: u64,
    event: EventView,
)
    requires
        settled(floor),
        floor.in_flight <= config.max_concurrent_requests,
    ensures
        settled(told(floor, config, speakers, id, event)),
        told(floor, config, speakers, id, event).in_flight <= config.max_concurrent_requests,
        holds_slot(stage_of(floor.stages, id)) ==> floor.in_flight > 0,
{
    let stage = stage_of(floor.stages, id);
    let next = step(stage, floor.in_flight, config, speakers, event);
    let held = holding(floor.stages);
    lemma_holding_filed(floor.stages, id, next.stage);
    vstd::set_lib::lemma_len_subset(held, floor.stages.dom());
    if holds_slot(stage) {
        assert(held.contains(id));
        if held.len() == 0 {
            assert(held =~= Set::<u64>::empty());
        }
    }
    lemma_step_accounts(stage, floor.in_flight, config, speakers, event);
    lemma_step_within_capacity(stage, floor.in_flight, config, speakers, event);
}

/// However many requests there are and however their events interleave, the
/// count of requests in flight is the number of requests that hold a slot,
/// and it never exceeds the configured maximum.
pub proof fn lemma_never_over_capacity(
    config: Config,
    speakers: Map<Seq<char>, Seq<char>>,
    moves: Seq<(u64, EventView)>,
)
    ensures
        settled(played(config, speakers, moves)),
        played(config, speakers, moves).in_flight <= config.max_concurrent_requests,
    decreases moves.len(),
{
    if moves.len() > 0 {
        lemma_never_over_capacity(config, speakers, moves.drop_last());
        lemma_told_keeps_count(
            played(config, speakers, moves.drop_last()),
            config,
            speakers,
            moves.last().0,
            moves.last().1,
        );
    } else {
        assert(holding(Map::<u64, Stage>::empty()) =~= Set::<u64>::empty());
    }
}

} // verus!
