//! The companion's settings and the file that they are saved in.
//!
//! The file is a script that a browser page can load: a comment, a line that
//! opens a call, the settings as one line of JSON between backticks, and a
//! line that closes the call. Turning settings into JSON and back is the
//! caller's part; this module frames and unframes the JSON.

use vstd::prelude::*;
use vstd::string::StringExecFns;
use crate::msg::{Message, MessageView};
use crate::text::{find_char, from_chars, lemma_position_at, position, to_chars};

verus! {

/// The settings.
#[derive(Clone)]
pub struct State {
    /// The access token, once the user has signed in.
    pub token: Option<String>,
    /// The chat channel to listen to.
    pub channel: String,
    /// The word that starts a chat command, without the exclamation mark.
    pub command_name: String,
    /// The time between two commands, as the user typed it.
    pub command_cooldown: String,
    /// Whether chat commands are acted on.
    pub enable_tts: bool,
}

/// The contents of a [`State`].
pub struct StateView {
    pub token: Option<Seq<char>>,
    pub channel: Seq<char>,
    pub command_name: Seq<char>,
    pub command_cooldown: Seq<char>,
    pub enable_tts: bool,
}

impl View for State {
    type V = StateView;

    open spec fn view(&self) -> StateView {
        StateView {
            token: match self.token {
                Some(token) => Some(token@),
                None => None,
            },
            channel: self.channel@,
            command_name: self.command_name@,
            command_cooldown: self.command_cooldown@,
            enable_tts: self.enable_tts,
        }
    }
}

/// The settings of a fresh installation: not signed in, no channel, the
/// command `tts`, no cooldown, commands enabled.
pub open spec fn default_state() -> StateView {
    StateView {
        token: None,
        channel: Seq::empty(),
        command_name: "tts"@,
        command_cooldown: "0"@,
        enable_tts: true,
    }
}

/// What comes before the JSON in the settings file.
pub open spec fn file_head() -> Seq<char> {
    "// Do not modify this file.\nexport const Config = JSON.parse(\n`"@
}

/// What comes after the JSON in the settings file.
pub open spec fn file_tail() -> Seq<char> {
    "`\n);"@
}

/// The settings file for the JSON `data`.
pub open spec fn saved(data: Seq<char>) -> Seq<char> {
    file_head() + data + file_tail()
}

/// What follows the first line break of `s`, if there is one.
pub open spec fn after_line_break(s: Seq<char>) -> Option<Seq<char>> {
    let at = position(s, '\n');
    if at < s.len() {
        Some(s.subrange(at + 1, s.len() as int))
    } else {
        None
    }
}

/// The third line of `s`, without its line break, if `s` has three lines.
pub open spec fn third_line(s: Seq<char>) -> Option<Seq<char>> {
    match after_line_break(s) {
        None => None,
        Some(rest) => match after_line_break(rest) {
            None => None,
            Some(rest) => Some(rest.subrange(0, position(rest, '\n'))),
        },
    }
}

/// `line` without the backticks around it, if it starts and ends with one.
pub open spec fn unquoted(line: Seq<char>) -> Option<Seq<char>> {
    if line.len() >= 2 && line[0] == '`' && line.last() == '`' {
        Some(line.subrange(1, line.len() - 1))
    } else {
        None
    }
}

/// The JSON that a settings file holds: its third line, which must stand
/// between backticks.
pub open spec fn stored(file: Seq<char>) -> Option<Seq<char>> {
    match third_line(file) {
        None => None,
        Some(line) => unquoted(line),
    }
}

/// The settings after a message from the sign-in server: a token signs the
/// user in.
pub open spec fn signed_in(state: StateView, token: Seq<char>) -> StateView {
    StateView { token: Some(token), ..state }
}

/// The channels to leave and to join when the settings change: a switch is
/// due when the channel is new and not empty.
pub open spec fn channel_switch(old: StateView, new: StateView) -> Option<(Seq<char>, Seq<char>)> {
    if new.channel != old.channel && new.channel.len() > 0 {
        Some((old.channel, new.channel))
    } else {
        None
    }
}

impl Default for State {
    fn default() -> (state: Self)
        ensures
            state@ == default_state(),
    {
        State {
            token: None,
            channel: String::new(),
            command_name: String::from_str("tts"),
            command_cooldown: String::from_str("0"),
            enable_tts: true,
        }
    }
}

impl State {
    /// The settings file for the JSON `data`.
    pub fn save(data: &str) -> (file: String)
        ensures
            file@ == saved(data@),
    {
        let mut file = String::from_str(
            "// Do not modify this file.\nexport const Config = JSON.parse(\n`",
        );
        file.append(data);
        file.append("`\n);");
        file
    }

    /// The JSON inside a settings file, or nothing if the file does not
    /// have the shape that [`State::save`] gives it.
    pub fn payload(file: &str) -> (json: Option<String>)
        ensures
            match json {
                Some(text) => stored(file@) == Some(text@),
                None => stored(file@) is None,
            },
    {
        let chars = to_chars(file);
        let n = chars.len();
        let first = find_char(&chars, 0, n, '\n');
        assert(chars@.subrange(0, n as int) =~= chars@);
        if first >= n {
            return None;
        }
        let second = find_char(&chars, first + 1, n, '\n');
        if second >= n {
            return None;
        }
        let end = find_char(&chars, second + 1, n, '\n');
        proof {
            let rest1 = chars@.subrange(first + 1, n as int);
            let rest2 = chars@.subrange(second + 1, n as int);
            assert(after_line_break(chars@) == Some(rest1));
            assert(rest1.subrange(second - first, rest1.len() as int) =~= rest2);
            assert(after_line_break(rest1) == Some(rest2));
            assert(rest2.subrange(0, end - second - 1) =~= chars@.subrange(
                second + 1,
                end as int,
            ));
        }
        if end - second >= 3 && chars[second + 1] == '`' && chars[end - 1] == '`' {
            assert(chars@.subrange(second + 1, end as int).subrange(1, end - second - 2)
                =~= chars@.subrange(second + 2, end - 1));
            Some(from_chars(&chars, second + 2, end - 1))
        } else {
            None
        }
    }

    /// Takes in a message from the sign-in server. A failed sign-in is not
    /// handled here: the caller stops on one.
    pub fn receive(&mut self, message: Message)
        requires
            message is Auth,
        ensures
            message@ matches MessageView::Auth { token } && final(self)@ == signed_in(
                old(self)@,
                token,
            ),
    {
        match message {
            Message::Auth { token } => {
                self.token = Some(token);
            },
            Message::Error { what } => {},
        }
    }

    /// Signs the user out.
    pub fn reset(&mut self)
        ensures
            final(self)@ == (StateView { token: None, ..old(self)@ }),
    {
        self.token = None;
    }

    /// The channel to leave and the channel to join when `self` is replaced
    /// by `new`, if the chat connection has to switch.
    pub fn switch_to(&self, new: &State) -> (switch: Option<(String, String)>)
        ensures
            match switch {
                Some((leave, join)) => channel_switch(self@, new@) == Some((leave@, join@)),
                None => channel_switch(self@, new@) is None,
            },
    {
        if new.channel != self.channel && new.channel.as_str().is_empty() == false {
            Some((self.channel.clone(), new.channel.clone()))
        } else {
            None
        }
    }
}

/// A file written by [`State::save`] gives back the JSON that it was written
/// with, as long as the JSON is one line.
pub proof fn lemma_saved_then_stored(data: Seq<char>)
    requires
        forall|i: int| 0 <= i < data.len() ==> data[i] != '\n',
    ensures
        stored(saved(data)) == Some(data),
{
    reveal_strlit("// Do not modify this file.\nexport const Config = JSON.parse(\n`");
    reveal_strlit("`\n);");
    let head = file_head();
    let file = saved(data);
    assert(head.len() == 63);
    assert(head[27] == '\n' && head[61] == '\n' && head[62] == '`');
    assert forall|i: int| 0 <= i < 27 implies #[trigger] file[i] != '\n' by {
        assert(file[i] == head[i]);
    }
    assert(file[27] == head[27]);
    lemma_position_at(file, '\n', 27);
    let rest1 = file.subrange(28, file.len() as int);
    assert forall|i: int| 0 <= i < 33 implies #[trigger] rest1[i] != '\n' by {
        assert(rest1[i] == head[i + 28]);
    }
    assert(rest1[33] == head[61]);
    lemma_position_at(rest1, '\n', 33);
    let rest2 = rest1.subrange(34, rest1.len() as int);
    let k = data.len() + 2;
    assert(rest2[0] == head[62]);
    assert forall|i: int| 0 <= i < k implies #[trigger] rest2[i] != '\n' by {
        if i == 0 {
        } else if i <= data.len() {
            assert(rest2[i] == data[i - 1]);
        } else {
            assert(rest2[i] == file_tail()[0]);
        }
    }
    assert(rest2[k as int] == file_tail()[1]);
    lemma_position_at(rest2, '\n', k as int);
    let line = rest2.subrange(0, k as int);
    assert(line.last() == file_tail()[0]);
    assert(line.subrange(1, line.len() - 1) =~= data);
}

} // verus!
