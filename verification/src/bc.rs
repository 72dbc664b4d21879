//! Broadcasting to the pages that show the settings: the register of
//! connected pages and the texts that they are sent.

use std::collections::HashMap;
use vstd::prelude::*;
use vstd::string::StringExecFns;

verus! {

broadcast use vstd::std_specs::hash::group_hash_axioms;

/// What the pages are told.
pub enum Message {
    /// The settings changed; the text is their JSON.
    Config(String),
    /// The page should load itself again.
    Reload,
}

/// The contents of a [`Message`].
pub enum MessageView {
    Config(Seq<char>),
    Reload,
}

impl View for Message {
    type V = MessageView;

    open spec fn view(&self) -> MessageView {
        match self {
            Message::Config(data) => MessageView::Config(data@),
            Message::Reload => MessageView::Reload,
        }
    }
}

/// The text that a message is sent as.
pub open spec fn encoded(message: MessageView) -> Seq<char> {
    match message {
        MessageView::Config(data) => "{\"type\":\"config\",\"data\":"@ + data + "}"@,
        MessageView::Reload => "{{\"type\":\"reload\"}}"@,
    }
}

impl Message {
    /// The text that the message is sent as.
    pub fn encode(&self) -> (text: String)
        ensures
            text@ == encoded(self@),
    {
        match self {
            Message::Config(data) => {
                let mut text = String::from_str("{\"type\":\"config\",\"data\":");
                text.append(data.as_str());
                text.append("}");
                text
            },
            Message::Reload => String::from_str("{{\"type\":\"reload\"}}"),
        }
    }
}

impl From<Message> for String {
    /// The text that the message is sent as.
    fn from(msg: Message) -> (text: String)
        ensures
            text@ == encoded(msg@),
    {
        msg.encode()
    }
}

/// What `from` returns is stated on `from` itself, over the text. A
/// specification cannot name a `String` by its text, so the conversion has
/// no specification function to obey.
impl vstd::std_specs::convert::FromSpecImpl<Message> for String {
    open spec fn obeys_from_spec() -> bool {
        false
    }

    open spec fn from_spec(msg: Message) -> String {
        arbitrary()
    }
}

/// The register of connected pages: each sender is kept under the number
/// that it was given when it was added.
pub struct Broadcaster<S> {
    /// The senders by number.
    pub senders: HashMap<u32, S>,
    /// The number that the next sender gets.
    pub next_id: u32,
}

/// The number after `id`, starting over after the largest.
pub open spec fn following(id: u32) -> u32 {
    if id == u32::MAX {
        0
    } else {
        (id + 1) as u32
    }
}

impl<S> Broadcaster<S> {
    /// A register without senders, whose first number is 0.
    pub fn new() -> (register: Self)
        ensures
            register.senders@ == Map::<u32, S>::empty(),
            register.next_id == 0,
    {
        Broadcaster { senders: HashMap::new(), next_id: 0 }
    }

    /// Registers a sender and returns its number: the next number of the
    /// register, which then moves on by one.
    pub fn add(&mut self, sender: S) -> (id: u32)
        ensures
            id == old(self).next_id,
            final(self).senders@ == old(self).senders@.insert(id, sender),
            final(self).next_id == following(id),
    {
        let id = self.next_id;
        self.next_id = if id == u32::MAX {
            0
        } else {
            id + 1
        };
        self.senders.insert(id, sender);
        id
    }

    /// Takes the sender of this number out of the register and returns it,
    /// if there is one.
    pub fn remove(&mut self, id: u32) -> (sender: Option<S>)
        ensures
            final(self).senders@ == old(self).senders@.remove(id),
            final(self).next_id == old(self).next_id,
            match sender {
                Some(s) => old(self).senders@.contains_key(id) && s == old(self).senders@[id],
                None => !old(self).senders@.contains_key(id),
            },
    {
        self.senders.remove(&id)
    }
}

} // verus!
