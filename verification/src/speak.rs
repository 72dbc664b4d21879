//! The request pipeline: validate, admit, forward, release.
//!
//! Waiting for a client's quota and talking to the upstream service take
//! time, so the pipeline is written as a state machine. The caller performs
//! each [`Action`] and reports what happened as the next [`Event`]; every
//! decision, and every change to the number of requests in flight, is made
//! by [`Pipeline::step`].

use vstd::prelude::*;
use vstd::string::StringExecFns;
use crate::config::Config;
use crate::context::{ProxyContext, RequestGuard};
use crate::forward::{
    after_failure, describe, disposition, is_server_error, Disposition, ForwardError,
    ForwardErrorView, Forwarder, ForwarderView, Transient, TransientView,
};
use crate::speakers::SpeakerTable;
use crate::text::text_of;
use crate::validate::{
    error_status, error_text, validate, validated, SanitizedRequest, SanitizedRequestView,
    TtsRequest, TtsRequestView, ValidationError, ValidationErrorView,
};

verus! {

/// The JSON body of an answer that the proxy makes up itself.
#[derive(Debug, Clone)]
pub struct ErrorResponse {
    /// What went wrong.
    pub error: String,
    /// The number of upstream attempts, where the answer reports a failure
    /// to forward.
    pub retries: Option<u8>,
}

/// An answer that the proxy makes up itself, as opposed to one that it
/// relays.
#[derive(Debug, Clone)]
pub struct Reply {
    /// The HTTP status.
    pub status: u16,
    /// The value of the `Retry-After` header, in seconds, if there is one.
    pub retry_after: Option<u8>,
    /// The body.
    pub body: ErrorResponse,
}

/// The contents of a [`Reply`].
pub struct ReplyView {
    pub status: u16,
    pub retry_after: Option<u8>,
    pub error: Seq<char>,
    pub retries: Option<u8>,
}

/// What the caller reports to the pipeline.
#[derive(Debug)]
pub enum Event {
    /// A request came in. `key` is the client's address, if the server could
    /// tell it.
    Arrived { key: Option<String>, request: TtsRequest },
    /// The client's rate limiter let the request through.
    QuotaGranted,
    /// The upstream call did not get through.
    ConnectionFailed { error: String },
    /// The upstream service did not answer in time.
    TimedOut,
    /// The upstream service answered with this status.
    Status { status: u16 },
    /// The text of a server error's body, if it could be read.
    FailureBody { text: Option<String> },
    /// The relayed response was passed on in full.
    RelayFinished,
    /// The client went away.
    Disconnected,
}

/// The contents of an [`Event`].
pub enum EventView {
    Arrived { key: Option<Seq<char>>, request: TtsRequestView },
    QuotaGranted,
    ConnectionFailed { error: Seq<char> },
    TimedOut,
    Status { status: u16 },
    FailureBody { text: Option<Seq<char>> },
    RelayFinished,
    Disconnected,
}

/// What the pipeline asks the caller to do next.
#[derive(Debug)]
pub enum Action {
    /// Answer the client with this reply; the request is over.
    Respond(Reply),
    /// Wait until the rate limiter has a token for this client, however long
    /// that takes, then report [`Event::QuotaGranted`].
    AwaitQuota { key: String },
    /// Send this request to the upstream service at `url`, giving it at most
    /// `timeout_seconds` to answer.
    CallUpstream { url: String, timeout_seconds: u8, text: String, speaker: String },
    /// Read the body of the response just reported as text.
    ReadFailureBody,
    /// Pass the response just reported to the client: status, headers and
    /// body, the body in chunks as they arrive.
    Relay { status: u16 },
    /// Nothing is left to do.
    Done,
}

/// The contents of an [`Action`].
pub enum ActionView {
    Respond(ReplyView),
    AwaitQuota { key: Seq<char> },
    CallUpstream { url: Seq<char>, timeout_seconds: u8, text: Seq<char>, speaker: Seq<char> },
    ReadFailureBody,
    Relay { status: u16 },
    Done,
}

/// One request on its way through the proxy. The stages that forward hold
/// the guard of the slot that the request occupies.
pub enum Pipeline {
    /// Nothing has happened yet.
    Idle,
    /// The request is valid and waits for its client's quota.
    AwaitingQuota { request: SanitizedRequest },
    /// An upstream attempt is under way.
    Calling { request: SanitizedRequest, forwarder: Forwarder, guard: RequestGuard },
    /// The upstream service answered with a server error whose body is being
    /// read.
    Draining { request: SanitizedRequest, forwarder: Forwarder, guard: RequestGuard, status: u16 },
    /// The upstream response is being passed to the client.
    Relaying { guard: RequestGuard },
    /// The request is over.
    Finished,
}

/// The contents of a [`Pipeline`].
pub enum Stage {
    Idle,
    AwaitingQuota { request: SanitizedRequestView },
    Calling { request: SanitizedRequestView, forwarder: ForwarderView },
    Draining { request: SanitizedRequestView, forwarder: ForwarderView, status: u16 },
    Relaying,
    Finished,
}

/// The result of one step: the next stage, the number of requests in flight
/// and what the caller is to do.
pub struct Outcome {
    pub stage: Stage,
    pub in_flight: nat,
    pub action: ActionView,
}

impl View for Reply {
    type V = ReplyView;

    open spec fn view(&self) -> ReplyView {
        ReplyView {
            status: self.status,
            retry_after: self.retry_after,
            error: self.body.error@,
            retries: self.body.retries,
        }
    }
}

impl View for Event {
    type V = EventView;

    open spec fn view(&self) -> EventView {
        match self {
            Event::Arrived { key, request } => EventView::Arrived {
                key: text_of(*key),
                request: request@,
            },
            Event::QuotaGranted => EventView::QuotaGranted,
            Event::ConnectionFailed { error } => EventView::ConnectionFailed { error: error@ },
            Event::TimedOut => EventView::TimedOut,
            Event::Status { status } => EventView::Status { status: *status },
            Event::FailureBody { text } => EventView::FailureBody { text: text_of(*text) },
            Event::RelayFinished => EventView::RelayFinished,
            Event::Disconnected => EventView::Disconnected,
        }
    }
}

impl View for Action {
    type V = ActionView;

    open spec fn view(&self) -> ActionView {
        match self {
            Action::Respond(reply) => ActionView::Respond(reply@),
            Action::AwaitQuota { key } => ActionView::AwaitQuota { key: key@ },
            Action::CallUpstream { url, timeout_seconds, text, speaker } => ActionView::CallUpstream {
                url: url@,
                timeout_seconds: *timeout_seconds,
                text: text@,
                speaker: speaker@,
            },
            Action::ReadFailureBody => ActionView::ReadFailureBody,
            Action::Relay { status } => ActionView::Relay { status: *status },
            Action::Done => ActionView::Done,
        }
    }
}

impl View for Pipeline {
    type V = Stage;

    open spec fn view(&self) -> Stage {
        match self {
            Pipeline::Idle => Stage::Idle,
            Pipeline::AwaitingQuota { request } => Stage::AwaitingQuota { request: request@ },
            Pipeline::Calling { request, forwarder, guard } => Stage::Calling {
                request: request@,
                forwarder: forwarder@,
            },
            Pipeline::Draining { request, forwarder, guard, status } => Stage::Draining {
                request: request@,
                forwarder: forwarder@,
                status: *status,
            },
            Pipeline::Relaying { guard } => Stage::Relaying,
            Pipeline::Finished => Stage::Finished,
        }
    }
}

/// The stages in which a request occupies a slot: while it is forwarded and
/// while its response is relayed.
pub open spec fn holds_slot(stage: Stage) -> bool {
    stage is Calling || stage is Draining || stage is Relaying
}

/// The answer to a request whose sender's address is unknown.
pub open spec fn no_address_reply() -> ReplyView {
    ReplyView {
        status: 400,
        retry_after: None,
        error: "Couldn't determine remote IP"@,
        retries: None,
    }
}

/// The answer to a request that failed validation.
pub open spec fn invalid_reply(error: ValidationErrorView) -> ReplyView {
    ReplyView {
        status: error_status(error),
        retry_after: None,
        error: error_text(error),
        retries: None,
    }
}

/// The answer to a request that found every slot taken: come back in a
/// second.
pub open spec fn overloaded_reply() -> ReplyView {
    ReplyView {
        status: 503,
        retry_after: Some(1u8),
        error: "The service is currently overloaded. Please re-submit your request after Retry-After seconds."@,
        retries: None,
    }
}

/// The answer to a request whose attempts are used up.
pub open spec fn exhausted_reply(error: ForwardErrorView) -> ReplyView {
    match error {
        ForwardErrorView::Exhausted { last_error, attempts } => ReplyView {
            status: 500,
            retry_after: None,
            error: "Failed to receive or parse the response from the API: "@ + last_error,
            retries: Some(attempts),
        },
    }
}

/// The upstream call for a request.
pub open spec fn call_for(request: SanitizedRequestView, config: Config) -> ActionView {
    ActionView::CallUpstream {
        url: config.api_url@,
        timeout_seconds: config.api_timeout_seconds,
        text: request.text,
        speaker: request.speaker_id,
    }
}

/// One request fewer in flight.
pub open spec fn one_less(in_flight: nat) -> nat {
    if in_flight > 0 {
        (in_flight - 1) as nat
    } else {
        0
    }
}

/// The number of requests in flight once `stage` has let go of its slot, if
/// it held one.
pub open spec fn released(stage: Stage, in_flight: nat) -> nat {
    if holds_slot(stage) {
        one_less(in_flight)
    } else {
        in_flight
    }
}

/// Giving a request up: its slot is released and nothing more is done.
pub open spec fn abandoned(stage: Stage, in_flight: nat) -> Outcome {
    Outcome { stage: Stage::Finished, in_flight: released(stage, in_flight), action: ActionView::Done }
}

/// A request arrives: it is answered at once unless its sender is known and
/// it is valid, in which case it goes on to wait for the sender's quota. No
/// slot is involved.
pub open spec fn arrived(
    key: Option<Seq<char>>,
    request: TtsRequestView,
    in_flight: nat,
    speakers: Map<Seq<char>, Seq<char>>,
) -> Outcome {
    match key {
        None => Outcome {
            stage: Stage::Finished,
            in_flight,
            action: ActionView::Respond(no_address_reply()),
        },
        Some(key) => match validated(request, speakers) {
            Err(error) => Outcome {
                stage: Stage::Finished,
                in_flight,
                action: ActionView::Respond(invalid_reply(error)),
            },
            Ok(request) => Outcome {
                stage: Stage::AwaitingQuota { request },
                in_flight,
                action: ActionView::AwaitQuota { key },
            },
        },
    }
}

/// The quota wait is over: the request takes a slot and its first attempt
/// starts, or every slot is taken and it is turned away at once.
pub open spec fn admitted(request: SanitizedRequestView, in_flight: nat, config: Config) -> Outcome {
    if in_flight < config.max_concurrent_requests {
        Outcome {
            stage: Stage::Calling {
                request,
                forwarder: ForwarderView { limit: config.retry_attempts, made: 1 },
            },
            in_flight: in_flight + 1,
            action: call_for(request, config),
        }
    } else {
        Outcome {
            stage: Stage::Finished,
            in_flight,
            action: ActionView::Respond(overloaded_reply()),
        }
    }
}

/// An attempt failed: the next one starts, or the slot is released and the
/// client is told that forwarding failed.
pub open spec fn failed(
    request: SanitizedRequestView,
    forwarder: ForwarderView,
    in_flight: nat,
    config: Config,
    failure: TransientView,
) -> Outcome {
    match after_failure(forwarder, failure) {
        Ok(forwarder) => Outcome {
            stage: Stage::Calling { request, forwarder },
            in_flight,
            action: call_for(request, config),
        },
        Err(error) => Outcome {
            stage: Stage::Finished,
            in_flight: one_less(in_flight),
            action: ActionView::Respond(exhausted_reply(error)),
        },
    }
}

/// One step of the pipeline. An event that the stage does not expect, and a
/// client that went away, end the request and release its slot.
pub open spec fn step(
    stage: Stage,
    in_flight: nat,
    config: Config,
    speakers: Map<Seq<char>, Seq<char>>,
    event: EventView,
) -> Outcome {
    match (stage, event) {
        (Stage::Idle, EventView::Arrived { key, request }) => arrived(
            key,
            request,
            in_flight,
            speakers,
        ),
        (Stage::AwaitingQuota { request }, EventView::QuotaGranted) => admitted(
            request,
            in_flight,
            config,
        ),
        (Stage::Calling { request, forwarder }, EventView::ConnectionFailed { error }) => failed(
            request,
            forwarder,
            in_flight,
            config,
            TransientView::Connection(error),
        ),
        (Stage::Calling { request, forwarder }, EventView::TimedOut) => failed(
            request,
            forwarder,
            in_flight,
            config,
            TransientView::Timeout,
        ),
        (Stage::Calling { request, forwarder }, EventView::Status { status }) => {
            if is_server_error(status) {
                Outcome {
                    stage: Stage::Draining { request, forwarder, status },
                    in_flight,
                    action: ActionView::ReadFailureBody,
                }
            } else {
                Outcome { stage: Stage::Relaying, in_flight, action: ActionView::Relay { status } }
            }
        },
        (Stage::Draining { request, forwarder, status }, EventView::FailureBody { text }) => failed(
            request,
            forwarder,
            in_flight,
            config,
            TransientView::ServerError { status, body: text },
        ),
        _ => abandoned(stage, in_flight),
    }
}

impl Reply {
    /// The answer to a request whose sender's address is unknown.
    pub fn no_address() -> (reply: Self)
        ensures
            reply@ == no_address_reply(),
    {
        Reply {
            status: 400,
            retry_after: None,
            body: ErrorResponse {
                error: String::from_str("Couldn't determine remote IP"),
                retries: None,
            },
        }
    }

    /// The answer to a request that failed validation.
    pub fn invalid(error: &ValidationError) -> (reply: Self)
        ensures
            reply@ == invalid_reply(error@),
            400 <= reply.status < 500,
    {
        Reply {
            status: error.status(),
            retry_after: None,
            body: ErrorResponse { error: error.message(), retries: None },
        }
    }

    /// The answer to a request that found every slot taken.
    pub fn overloaded() -> (reply: Self)
        ensures
            reply@ == overloaded_reply(),
    {
        Reply {
            status: 503,
            retry_after: Some(1),
            body: ErrorResponse {
                error: String::from_str(
                    "The service is currently overloaded. Please re-submit your request after Retry-After seconds.",
                ),
                retries: None,
            },
        }
    }

    /// The answer to a request whose attempts are used up.
    pub fn exhausted(error: &ForwardError) -> (reply: Self)
        ensures
            reply@ == exhausted_reply(error@),
    {
        match error {
            ForwardError::Exhausted { last_error, attempts } => {
                let mut text = String::from_str(
                    "Failed to receive or parse the response from the API: ",
                );
                text.append(last_error.as_str());
                Reply {
                    status: 500,
                    retry_after: None,
                    body: ErrorResponse { error: text, retries: Some(*attempts) },
                }
            },
        }
    }
}

/// The upstream call for a request.
fn upstream_call(request: &SanitizedRequest, config: &Config) -> (action: Action)
    ensures
        action@ == call_for(request@, *config),
{
    Action::CallUpstream {
        url: config.api_url.clone(),
        timeout_seconds: config.api_timeout_seconds,
        text: request.text().clone(),
        speaker: request.speaker_id().clone(),
    }
}

impl Pipeline {
    /// A pipeline for a request that has not arrived yet.
    pub fn new() -> (pipeline: Self)
        ensures
            pipeline@ == Stage::Idle,
    {
        Pipeline::Idle
    }

    /// Whether the request is over.
    pub fn is_finished(&self) -> (finished: bool)
        ensures
            finished == (self@ is Finished),
    {
        match self {
            Pipeline::Finished => true,
            _ => false,
        }
    }

    /// Whether the request occupies a slot.
    pub fn holds_guard(&self) -> (held: bool)
        ensures
            held == holds_slot(self@),
    {
        match self {
            Pipeline::Calling { .. } => true,
            Pipeline::Draining { .. } => true,
            Pipeline::Relaying { .. } => true,
            _ => false,
        }
    }

    /// Gives the request up: releases its slot, if it holds one.
    fn abandon(self, ctx: &mut ProxyContext) -> (next: (Pipeline, Action))
        requires
            holds_slot(self@) ==> old(ctx).in_flight() > 0,
        ensures
            abandoned(self@, old(ctx).in_flight()) == (Outcome {
                stage: next.0@,
                in_flight: final(ctx).in_flight(),
                action: next.1@,
            }),
            final(ctx).settings() == old(ctx).settings(),
            final(ctx).limits() == old(ctx).limits(),
    {
        match self {
            Pipeline::Calling { request, forwarder, guard } => {
                guard.release(ctx);
            },
            Pipeline::Draining { request, forwarder, guard, status } => {
                guard.release(ctx);
            },
            Pipeline::Relaying { guard } => {
                guard.release(ctx);
            },
            _ => {},
        }
        (Pipeline::Finished, Action::Done)
    }

    /// Counts the current attempt as failed.
    fn fail(
        request: SanitizedRequest,
        forwarder: Forwarder,
        guard: RequestGuard,
        ctx: &mut ProxyContext,
        failure: Transient,
    ) -> (next: (Pipeline, Action))
        requires
            old(ctx).in_flight() > 0,
        ensures
            failed(request@, forwarder@, old(ctx).in_flight(), old(ctx).settings(), failure@) == (
            Outcome { stage: next.0@, in_flight: final(ctx).in_flight(), action: next.1@ }),
            final(ctx).settings() == old(ctx).settings(),
            final(ctx).limits() == old(ctx).limits(),
    {
        match forwarder.on_failure(&failure) {
            Ok(forwarder) => {
                let action = upstream_call(&request, ctx.config());
                (Pipeline::Calling { request, forwarder, guard }, action)
            },
            Err(error) => {
                guard.release(ctx);
                (Pipeline::Finished, Action::Respond(Reply::exhausted(&error)))
            },
        }
    }

    /// Takes the pipeline one step further: see [`step`]. The number of
    /// requests in flight changes only here, and never exceeds the capacity.
    pub fn step(self, ctx: &mut ProxyContext, speakers: &SpeakerTable, event: Event) -> (next: (
        Pipeline,
        Action,
    ))
        requires
            holds_slot(self@) ==> old(ctx).in_flight() > 0,
        ensures
            step(self@, old(ctx).in_flight(), old(ctx).settings(), speakers@, event@) == (Outcome {
                stage: next.0@,
                in_flight: final(ctx).in_flight(),
                action: next.1@,
            }),
            final(ctx).in_flight() <= final(ctx).capacity(),
            final(ctx).settings() == old(ctx).settings(),
            final(ctx).limits() == old(ctx).limits(),
    {
        // Reading the count brings along that it is within the capacity.
        let _in_flight = ctx.requests_being_processed();
        match (self, event) {
            (Pipeline::Idle, Event::Arrived { key, request }) => {
                match key {
                    None => (Pipeline::Finished, Action::Respond(Reply::no_address())),
                    Some(key) => match validate(&request, speakers) {
                        Err(error) => (Pipeline::Finished, Action::Respond(Reply::invalid(&error))),
                        Ok(request) => (
                            Pipeline::AwaitingQuota { request },
                            Action::AwaitQuota { key },
                        ),
                    },
                }
            },
            (Pipeline::AwaitingQuota { request }, Event::QuotaGranted) => {
                match RequestGuard::new(ctx) {
                    Some(guard) => {
                        let forwarder = Forwarder::new(ctx.config().retry_attempts);
                        let action = upstream_call(&request, ctx.config());
                        (Pipeline::Calling { request, forwarder, guard }, action)
                    },
                    None => (Pipeline::Finished, Action::Respond(Reply::overloaded())),
                }
            },
            (Pipeline::Calling { request, forwarder, guard }, Event::ConnectionFailed { error }) => {
                Pipeline::fail(request, forwarder, guard, ctx, Transient::Connection(error))
            },
            (Pipeline::Calling { request, forwarder, guard }, Event::TimedOut) => {
                Pipeline::fail(request, forwarder, guard, ctx, Transient::Timeout)
            },
            (Pipeline::Calling { request, forwarder, guard }, Event::Status { status }) => {
                match disposition(status) {
                    Disposition::Retry => (
                        Pipeline::Draining { request, forwarder, guard, status },
                        Action::ReadFailureBody,
                    ),
                    Disposition::Relay => (Pipeline::Relaying { guard }, Action::Relay { status }),
                }
            },
            (Pipeline::Draining { request, forwarder, guard, status }, Event::FailureBody { text }) => {
                Pipeline::fail(
                    request,
                    forwarder,
                    guard,
                    ctx,
                    Transient::ServerError { status, body: text },
                )
            },
            (stage, _) => stage.abandon(ctx),
        }
    }
}

} // verus!
