//! The companion's chat commands: how a chat line becomes a request, which
//! requests the profanity filter lets through, and how often a request is
//! tried.
//!
//! A command has the form `!<command> <speaker>: <text>`.

use vstd::prelude::*;
use censor::Censor;
use crate::forward::{describe, Transient, TransientView};
use crate::speakers::SpeakerTable;
use crate::text::{
    clean, clean_tts_message, find_char, from_chars, position, text_of, to_chars, trim,
    trim_bounds,
};
use crate::ui::{State, StateView};
use crate::validate::TtsRequestView;

verus! {

/// How many requests the companion sends per minute at most.
pub const TTS_REQUESTS_PER_MINUTE: u32 = 5;

/// How often a request is tried.
pub const RETRY_ATTEMPTS: u8 = 3;

/// The longest that one call may take, in seconds.
pub const API_TIMEOUT_SECONDS: u64 = 180;

/// The address that requests are sent to.
pub const API_URL: &'static str = "https://mumble.stream/speak";

/// A request as it is sent: the cleaned text and the speaker's identifier.
#[derive(Debug, Clone)]
pub struct TtsRequest {
    /// The text to say.
    pub text: String,
    /// The identifier of the speaker to use.
    pub speaker: String,
}

impl View for TtsRequest {
    type V = TtsRequestView;

    open spec fn view(&self) -> TtsRequestView {
        TtsRequestView { text: self.text@, speaker: self.speaker@ }
    }
}

/// The `censor` crate's word filter, a set of words to look for.
#[verifier::external_type_specification]
#[verifier::external_body]
pub struct ExCensor(Censor);

/// The words that a filter looks for.
pub uninterp spec fn censored_words(filter: Censor) -> Set<Seq<char>>;

/// Whether a filter that looks for `words` finds one of them in `text`,
/// spelled out or disguised.
pub uninterp spec fn profane(words: Set<Seq<char>>, text: Seq<char>) -> bool;

/// The filter `censor::Censor::Standard`, the crate's list of common swear
/// words.
#[verifier::external_body]
fn standard_filter() -> Censor {
    Censor::Standard
}

/// Takes one word out of a filter with the crate's `-` operator
/// (`Sub<S> for Censor`): the result looks for the same words but `word`.
#[verifier::external_body]
fn without_word(filter: Censor, word: &str) -> (rest: Censor)
    ensures
        censored_words(rest) == censored_words(filter).remove(word@),
{
    filter - word
}

/// Asks a filter about a text with `censor::Censor::check`.
#[verifier::external_body]
fn check_text(filter: &Censor, text: &str) -> (found: bool)
    ensures
        found == profane(censored_words(*filter), text@),
{
    filter.check(text)
}

/// The words that chat may use although the standard filter has them.
pub open spec fn mild_words() -> Set<Seq<char>> {
    set!["ass"@, "cock"@, "pussy"@, "fuck"@, "piss"@, "shit"@]
}

/// The request that a command's argument stands for: the speaker's name
/// before the first colon, the text after it, both trimmed, the text
/// cleaned, and the speaker resolved by the table. Nothing if there is no
/// colon or the table does not know the speaker.
pub open spec fn parsed(message: Seq<char>, speakers: Map<Seq<char>, Seq<char>>) -> Option<
    TtsRequestView,
> {
    let message = trim(message);
    let colon = position(message, ':');
    if colon >= message.len() {
        None
    } else {
        let speaker = trim(message.subrange(0, colon));
        let text = clean(trim(message.subrange(colon + 1, message.len() as int)));
        if speakers.contains_key(speaker) {
            Some(TtsRequestView { text, speaker: speakers[speaker] })
        } else {
            None
        }
    }
}

/// What a command line starts with: an exclamation mark, the command's name
/// and a space.
pub open spec fn command_prefix(command_name: Seq<char>) -> Seq<char> {
    seq!['!'] + command_name + seq![' ']
}

/// The argument of the command in a chat line, if the line starts with the
/// command.
pub open spec fn command_argument(command_name: Seq<char>, line: Seq<char>) -> Option<Seq<char>> {
    let prefix = command_prefix(command_name);
    if line.len() >= prefix.len() && line.subrange(0, prefix.len() as int) == prefix {
        Some(line.subrange(prefix.len() as int, line.len() as int))
    } else {
        None
    }
}

/// The request that a chat line asks for under the current settings, before
/// the profanity filter has its say.
pub open spec fn requested(
    state: StateView,
    speakers: Map<Seq<char>, Seq<char>>,
    line: Seq<char>,
) -> Option<TtsRequestView> {
    if !state.enable_tts {
        None
    } else {
        match command_argument(state.command_name, line) {
            None => None,
            Some(argument) => parsed(argument, speakers),
        }
    }
}

/// A request goes on unless the filter found something in its text.
pub open spec fn screened(request: Option<TtsRequestView>, found: bool) -> Option<TtsRequestView> {
    if found {
        None
    } else {
        request
    }
}

/// The view of an optional request.
pub open spec fn request_view(request: Option<TtsRequest>) -> Option<TtsRequestView> {
    match request {
        Some(r) => Some(r@),
        None => None,
    }
}

/// Takes the six mild words out of a filter.
pub fn allow_mild_words(filter: Censor) -> (rest: Censor)
    ensures
        censored_words(rest) == censored_words(filter).difference(mild_words()),
{
    let rest = without_word(filter, "ass");
    let rest = without_word(rest, "cock");
    let rest = without_word(rest, "pussy");
    let rest = without_word(rest, "fuck");
    let rest = without_word(rest, "piss");
    let rest = without_word(rest, "shit");
    assert(censored_words(rest) =~= censored_words(filter).difference(mild_words()));
    rest
}

/// The filter for chat: the standard one without the mild words.
pub fn banned_words() -> (filter: Censor)
    ensures
        censored_words(filter).disjoint(mild_words()),
{
    allow_mild_words(standard_filter())
}

/// Reads a command's argument, `<speaker>: <text>`: see [`parsed`].
pub fn parse_tts_request(message: &str, speakers: &SpeakerTable) -> (request: Option<TtsRequest>)
    ensures
        request_view(request) == parsed(message@, speakers@),
{
    let chars = to_chars(message);
    let (lo, hi) = trim_bounds(&chars, 0, chars.len());
    assert(chars@.subrange(0, chars.len() as int) =~= chars@);
    let ghost trimmed = chars@.subrange(lo as int, hi as int);
    let colon = find_char(&chars, lo, hi, ':');
    if colon >= hi {
        return None;
    }
    let (name_lo, name_hi) = trim_bounds(&chars, lo, colon);
    let (text_lo, text_hi) = trim_bounds(&chars, colon + 1, hi);
    proof {
        assert(trimmed.subrange(0, colon - lo) =~= chars@.subrange(lo as int, colon as int));
        assert(trimmed.subrange(colon - lo + 1, trimmed.len() as int) =~= chars@.subrange(
            colon + 1,
            hi as int,
        ));
    }
    let name = from_chars(&chars, name_lo, name_hi);
    let raw_text = from_chars(&chars, text_lo, text_hi);
    let text = clean_tts_message(raw_text.as_str());
    match speakers.get_speaker_id(name.as_str()) {
        Some(speaker) => Some(TtsRequest { text, speaker }),
        None => None,
    }
}

/// The argument of the command in a chat line: see [`command_argument`].
pub fn command_text(command_name: &str, line: &str) -> (argument: Option<String>)
    ensures
        text_of(argument) == command_argument(command_name@, line@),
{
    let name = to_chars(command_name);
    let chars = to_chars(line);
    let ghost prefix = command_prefix(command_name@);
    if chars.len() < 2 || chars.len() - 2 < name.len() {
        return None;
    }
    if chars[0] != '!' || chars[name.len() + 1] != ' ' {
        assert(prefix[0] == '!' && prefix[name.len() + 1] == ' ');
        assert(chars@.subrange(0, prefix.len() as int)[0] == chars@[0]);
        assert(chars@.subrange(0, prefix.len() as int)[name.len() + 1] == chars@[name.len() + 1]);
        return None;
    }
    let mut i: usize = 0;
    while i < name.len()
        invariant
            i <= name.len(),
            chars.len() >= name.len() + 2,
            name@ == command_name@,
            chars@ == line@,
            prefix == command_prefix(name@),
            forall|j: int| 0 <= j < i ==> chars@[j + 1] == name@[j],
        decreases name.len() - i,
    {
        if chars[i + 1] != name[i] {
            assert(prefix[i + 1] == name@[i as int]);
            assert(chars@.subrange(0, prefix.len() as int)[i + 1] == chars@[i + 1]);
            return None;
        }
        i = i + 1;
    }
    assert(chars@.subrange(0, prefix.len() as int) =~= prefix);
    Some(from_chars(&chars, name.len() + 2, chars.len()))
}

/// The request that a chat line asks for: see [`requested`].
pub fn chat_command(state: &State, speakers: &SpeakerTable, line: &str) -> (request: Option<
    TtsRequest,
>)
    ensures
        request_view(request) == requested(state@, speakers@, line@),
{
    if !state.enable_tts {
        return None;
    }
    match command_text(state.command_name.as_str(), line) {
        None => None,
        Some(argument) => parse_tts_request(argument.as_str(), speakers),
    }
}

/// Drops a request in whose text the filter found something.
pub fn screen(request: Option<TtsRequest>, found: bool) -> (passed: Option<TtsRequest>)
    ensures
        request_view(passed) == screened(request_view(request), found),
        !found ==> passed == request,
{
    if found {
        None
    } else {
        request
    }
}

/// The request to make for a chat line, if any: the line must be a command
/// that parses, and the filter must find nothing in the cleaned text.
pub fn chat_request(state: &State, speakers: &SpeakerTable, banned: &Censor, line: &str) -> (request:
    Option<TtsRequest>)
    ensures
        request_view(request) == match requested(state@, speakers@, line@) {
            None => None,
            Some(wanted) => screened(Some(wanted), profane(censored_words(*banned), wanted.text)),
        },
{
    match chat_command(state, speakers, line) {
        None => None,
        Some(wanted) => {
            let found = check_text(banned, wanted.text.as_str());
            screen(Some(wanted), found)
        },
    }
}

/// How one attempt to deliver a request ended.
#[derive(Debug)]
pub enum Attempt {
    /// The call failed or was answered without success.
    Failed(Transient),
    /// The answer's body could not be read.
    Unreadable,
    /// The answer's body is not audio.
    Undecodable,
    /// The audio was put in the queue.
    Queued,
}

/// The contents of an [`Attempt`].
pub enum AttemptView {
    Failed(TransientView),
    Unreadable,
    Undecodable,
    Queued,
}

impl View for Attempt {
    type V = AttemptView;

    open spec fn view(&self) -> AttemptView {
        match self {
            Attempt::Failed(failure) => AttemptView::Failed(failure@),
            Attempt::Unreadable => AttemptView::Unreadable,
            Attempt::Undecodable => AttemptView::Undecodable,
            Attempt::Queued => AttemptView::Queued,
        }
    }
}

/// The attempts of one request so far.
pub struct Delivery {
    made: u8,
    last_error: Option<String>,
}

/// The contents of a [`Delivery`]: the attempts that ended and the
/// description of the last failure that had one.
pub struct DeliveryView {
    pub made: u8,
    pub last_error: Option<Seq<char>>,
}

/// Where a request stands after an attempt.
pub enum Progress {
    /// Another attempt is due.
    Again(Delivery),
    /// The audio is queued.
    Done,
    /// Every attempt failed.
    GaveUp { last_error: Option<String> },
}

/// The contents of a [`Progress`].
pub enum ProgressView {
    Again(DeliveryView),
    Done,
    GaveUp { last_error: Option<Seq<char>> },
}

impl View for Delivery {
    type V = DeliveryView;

    closed spec fn view(&self) -> DeliveryView {
        DeliveryView { made: self.made, last_error: text_of(self.last_error) }
    }
}

impl View for Progress {
    type V = ProgressView;

    open spec fn view(&self) -> ProgressView {
        match self {
            Progress::Again(delivery) => ProgressView::Again(delivery@),
            Progress::Done => ProgressView::Done,
            Progress::GaveUp { last_error } => ProgressView::GaveUp {
                last_error: text_of(*last_error),
            },
        }
    }
}

/// Statuses from 200 to 299 are a success.
pub open spec fn is_success(status: u16) -> bool {
    200 <= status <= 299
}

/// Where a request stands after an attempt: queued audio ends it; a
/// failure is followed by another attempt until [`RETRY_ATTEMPTS`] were made;
/// only a failed call or answer changes the last error.
pub open spec fn progressed(delivery: DeliveryView, attempt: AttemptView) -> ProgressView {
    let last_error = match attempt {
        AttemptView::Failed(failure) => Some(describe(failure)),
        _ => delivery.last_error,
    };
    if attempt is Queued {
        ProgressView::Done
    } else if delivery.made + 1 < RETRY_ATTEMPTS {
        ProgressView::Again(DeliveryView { made: (delivery.made + 1) as u8, last_error })
    } else {
        ProgressView::GaveUp { last_error }
    }
}

/// Tells whether a status is a success.
pub fn status_is_success(status: u16) -> (success: bool)
    ensures
        success == is_success(status),
{
    status >= 200 && status <= 299
}

impl Delivery {
    #[verifier::type_invariant]
    spec fn inv(&self) -> bool {
        self.made < RETRY_ATTEMPTS
    }

    /// A request whose first attempt is due.
    pub fn new() -> (delivery: Self)
        ensures
            delivery@ == (DeliveryView { made: 0, last_error: None }),
    {
        Delivery { made: 0, last_error: None }
    }

    /// The number of attempts that ended, always less than
    /// [`RETRY_ATTEMPTS`].
    pub fn attempts_made(&self) -> (made: u8)
        ensures
            made == self@.made,
            made < RETRY_ATTEMPTS,
    {
        proof {
            use_type_invariant(self);
        }
        self.made
    }

    /// Records how the current attempt ended: see [`progressed`].
    pub fn after(self, attempt: Attempt) -> (progress: Progress)
        ensures
            progress@ == progressed(self@, attempt@),
    {
        proof {
            use_type_invariant(&self);
        }
        let made = self.made;
        let last_error = match &attempt {
            Attempt::Failed(failure) => Some(failure.description()),
            _ => self.last_error,
        };
        match attempt {
            Attempt::Queued => Progress::Done,
            _ => {
                if made + 1 < RETRY_ATTEMPTS {
                    Progress::Again(Delivery { made: made + 1, last_error })
                } else {
                    Progress::GaveUp { last_error }
                }
            },
        }
    }
}

} // verus!
