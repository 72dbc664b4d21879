//! The forwarder's bookkeeping: how many upstream attempts a request has
//! had, which failures are retried, and what is reported once the attempts
//! are used up.

use vstd::prelude::*;
use vstd::string::StringExecFns;
use crate::text::{decimal, push_decimal};

verus! {

/// A failure of one upstream attempt that is worth another try. The client
/// never sees one unless it was the last.
#[derive(Debug)]
pub enum Transient {
    /// The call did not get through; the text says why.
    Connection(String),
    /// The upstream service did not answer in time.
    Timeout,
    /// The upstream service answered with a server error. `body` is the text
    /// of its answer, if it could be read.
    ServerError { status: u16, body: Option<String> },
}

/// The contents of a [`Transient`].
pub enum TransientView {
    Connection(Seq<char>),
    Timeout,
    ServerError { status: u16, body: Option<Seq<char>> },
}

/// Why forwarding ended without a response to relay.
#[derive(Debug)]
pub enum ForwardError {
    /// Every attempt failed. `last_error` describes the last failure and
    /// `attempts` is the number of attempts that were made.
    Exhausted { last_error: String, attempts: u8 },
}

/// The contents of a [`ForwardError`].
pub enum ForwardErrorView {
    Exhausted { last_error: Seq<char>, attempts: u8 },
}

/// What to do with an upstream response, by its status.
#[derive(Debug, Clone, Copy, PartialEq, Eq, Structural)]
pub enum Disposition {
    /// A server error: read what the service says and count the attempt as
    /// failed.
    Retry,
    /// Anything else: pass status, headers and body through as they are.
    Relay,
}

/// The attempts of one request: `made` of at most `limit`, the last of them
/// still under way.
pub struct Forwarder {
    limit: u8,
    made: u8,
}

/// The contents of a [`Forwarder`].
pub struct ForwarderView {
    pub limit: u8,
    pub made: u8,
}

impl View for Transient {
    type V = TransientView;

    open spec fn view(&self) -> TransientView {
        match self {
            Transient::Connection(text) => TransientView::Connection(text@),
            Transient::Timeout => TransientView::Timeout,
            Transient::ServerError { status, body } => TransientView::ServerError {
                status: *status,
                body: match body {
                    Some(text) => Some(text@),
                    None => None,
                },
            },
        }
    }
}

impl View for ForwardError {
    type V = ForwardErrorView;

    open spec fn view(&self) -> ForwardErrorView {
        match self {
            ForwardError::Exhausted { last_error, attempts } => ForwardErrorView::Exhausted {
                last_error: last_error@,
                attempts: *attempts,
            },
        }
    }
}

impl View for Forwarder {
    type V = ForwarderView;

    closed spec fn view(&self) -> ForwarderView {
        ForwarderView { limit: self.limit, made: self.made }
    }
}

/// Server errors are the statuses from 500 to 599.
pub open spec fn is_server_error(status: u16) -> bool {
    500 <= status <= 599
}

/// The description of a failure, as it is reported once the attempts are
/// used up.
pub open spec fn describe(failure: TransientView) -> Seq<char> {
    match failure {
        TransientView::Connection(text) => text,
        TransientView::Timeout => "Timeout while waiting for response"@,
        TransientView::ServerError { status, body } => "HTTP "@ + decimal(status as nat) + " - "@
            + match body {
            Some(text) => text,
            None => "<no response body>"@,
        },
    }
}

/// What a failed attempt leads to: another attempt while fewer than `limit`
/// were made, else the error that reports the failure and the number of
/// attempts.
pub open spec fn after_failure(state: ForwarderView, failure: TransientView) -> Result<
    ForwarderView,
    ForwardErrorView,
> {
    if state.made < state.limit {
        Ok(ForwarderView { limit: state.limit, made: (state.made + 1) as u8 })
    } else {
        Err(ForwardErrorView::Exhausted { last_error: describe(failure), attempts: state.made })
    }
}

/// Tells a server error from every other status.
pub fn disposition(status: u16) -> (d: Disposition)
    ensures
        d == if is_server_error(status) {
            Disposition::Retry
        } else {
            Disposition::Relay
        },
{
    if status >= 500 && status <= 599 {
        Disposition::Retry
    } else {
        Disposition::Relay
    }
}

impl Transient {
    /// The description of the failure: see [`describe`].
    pub fn description(&self) -> (text: String)
        ensures
            text@ == describe(self@),
    {
        match self {
            Transient::Connection(text) => text.clone(),
            Transient::Timeout => String::from_str("Timeout while waiting for response"),
            Transient::ServerError { status, body } => {
                let mut out = String::from_str("HTTP ");
                push_decimal(&mut out, *status as usize);
                out.append(" - ");
                match body {
                    Some(text) => out.append(text.as_str()),
                    None => out.append("<no response body>"),
                }
                out
            },
        }
    }
}

impl Forwarder {
    #[verifier::type_invariant]
    spec fn inv(&self) -> bool {
        1 <= self.made <= self.limit
    }

    /// Starts forwarding with the first of `attempts` attempts.
    pub fn new(attempts: u8) -> (forwarder: Self)
        requires
            attempts >= 1,
        ensures
            forwarder@ == (ForwarderView { limit: attempts, made: 1 }),
    {
        Forwarder { limit: attempts, made: 1 }
    }

    /// The number of attempts made so far, the current one included. It is
    /// at least 1 and never more than the limit.
    pub fn attempts_made(&self) -> (made: u8)
        ensures
            made == self@.made,
            1 <= made <= self@.limit,
    {
        proof {
            use_type_invariant(self);
        }
        self.made
    }

    /// The number of attempts allowed.
    pub fn attempts_allowed(&self) -> (limit: u8)
        ensures
            limit == self@.limit,
            limit >= 1,
    {
        proof {
            use_type_invariant(self);
        }
        self.limit
    }

    /// Records that the current attempt failed. While attempts are left the
    /// next one starts; after the last one the result is
    /// [`ForwardError::Exhausted`] with the description of this failure and
    /// the number of attempts made, which is then the number allowed.
    pub fn on_failure(self, failure: &Transient) -> (next: Result<Forwarder, ForwardError>)
        ensures
            match next {
                Ok(forwarder) => after_failure(self@, failure@) == Ok::<
                    ForwarderView,
                    ForwardErrorView,
                >(forwarder@),
                Err(error) => after_failure(self@, failure@) == Err::<
                    ForwarderView,
                    ForwardErrorView,
                >(error@),
            },
            next matches Err(ForwardError::Exhausted { attempts, .. }) ==> attempts == self@.limit,
    {
        proof {
            use_type_invariant(&self);
        }
        if self.made < self.limit {
            Ok(Forwarder { limit: self.limit, made: self.made + 1 })
        } else {
            Err(ForwardError::Exhausted { last_error: failure.description(), attempts: self.made })
        }
    }
}

} // verus!
