//! What the sign-in callback server tells the user interface.

use vstd::prelude::*;

verus! {

/// The outcome of a sign-in.
pub enum Message {
    /// The user signed in; `token` is the access token.
    Auth { token: String },
    /// The sign-in failed; `what` says why.
    Error { what: String },
}

/// The contents of a [`Message`].
pub enum MessageView {
    Auth { token: Seq<char> },
    Error { what: Seq<char> },
}

impl View for Message {
    type V = MessageView;

    open spec fn view(&self) -> MessageView {
        match self {
            Message::Auth { token } => MessageView::Auth { token: token@ },
            Message::Error { what } => MessageView::Error { what: what@ },
        }
    }
}

} // verus!
