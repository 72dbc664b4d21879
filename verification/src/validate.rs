//! The validator: cleans a request's text, checks its length and resolves the
//! speaker. It has no side effects.

use vstd::prelude::*;
use vstd::string::StringExecFns;
use vstd::string::StrSliceExecFns;
use crate::config::MAX_TTS_MESSAGE_LENGTH;
use crate::speakers::SpeakerTable;
use crate::text::{clean, clean_tts_message, decimal, push_decimal, lemma_clean_idempotent};

verus! {

/// A request as a client sends it, in the shape of the upstream service's own
/// requests.
#[derive(Debug, Clone)]
pub struct TtsRequest {
    /// The text to say.
    pub text: String,
    /// The name of the speaker to use.
    pub speaker: String,
}

/// A request that passed validation: its text is clean and between 1 and 500
/// characters long, and its speaker is an identifier taken from the table.
pub struct SanitizedRequest {
    text: String,
    speaker_id: String,
}

/// Why a request was turned down before admission.
#[derive(Debug)]
pub enum ValidationError {
    /// The cleaned text is empty or longer than 500 characters; the number is
    /// its length.
    BadLength(usize),
    /// The table does not know the speaker of this name.
    UnknownSpeaker(String),
}

/// The contents of a [`TtsRequest`].
pub struct TtsRequestView {
    pub text: Seq<char>,
    pub speaker: Seq<char>,
}

/// The contents of a [`SanitizedRequest`].
pub struct SanitizedRequestView {
    pub text: Seq<char>,
    pub speaker_id: Seq<char>,
}

/// The contents of a [`ValidationError`].
pub enum ValidationErrorView {
    BadLength(nat),
    UnknownSpeaker(Seq<char>),
}

impl View for TtsRequest {
    type V = TtsRequestView;

    open spec fn view(&self) -> TtsRequestView {
        TtsRequestView { text: self.text@, speaker: self.speaker@ }
    }
}

impl View for SanitizedRequest {
    type V = SanitizedRequestView;

    closed spec fn view(&self) -> SanitizedRequestView {
        SanitizedRequestView { text: self.text@, speaker_id: self.speaker_id@ }
    }
}

impl View for ValidationError {
    type V = ValidationErrorView;

    open spec fn view(&self) -> ValidationErrorView {
        match self {
            ValidationError::BadLength(n) => ValidationErrorView::BadLength(*n as nat),
            ValidationError::UnknownSpeaker(name) => ValidationErrorView::UnknownSpeaker(name@),
        }
    }
}

/// Whether a cleaned text has an acceptable length.
pub open spec fn length_ok(cleaned: Seq<char>) -> bool {
    1 <= cleaned.len() <= MAX_TTS_MESSAGE_LENGTH
}

/// What validation makes of a request, given the speaker table: the length of
/// the cleaned text is checked first, the speaker second.
pub open spec fn validated(request: TtsRequestView, speakers: Map<Seq<char>, Seq<char>>) -> Result<
    SanitizedRequestView,
    ValidationErrorView,
> {
    let cleaned = clean(request.text);
    if !length_ok(cleaned) {
        Err(ValidationErrorView::BadLength(cleaned.len()))
    } else if !speakers.contains_key(request.speaker) {
        Err(ValidationErrorView::UnknownSpeaker(request.speaker))
    } else {
        Ok(SanitizedRequestView { text: cleaned, speaker_id: speakers[request.speaker] })
    }
}

/// The text that tells a client why its request was turned down.
pub open spec fn error_text(error: ValidationErrorView) -> Seq<char> {
    match error {
        ValidationErrorView::BadLength(n) => {
            "The tts message must be between 1 and 500 characters, but was "@ + decimal(n)
        },
        ValidationErrorView::UnknownSpeaker(name) => "Unknown speaker: `"@ + name + "`"@,
    }
}

/// The HTTP status that a validation error is answered with.
pub open spec fn error_status(error: ValidationErrorView) -> u16 {
    match error {
        ValidationErrorView::BadLength(_) => 400,
        ValidationErrorView::UnknownSpeaker(_) => 404,
    }
}

impl SanitizedRequest {
    #[verifier::type_invariant]
    spec fn inv(&self) -> bool {
        &&& length_ok(self.text@)
        &&& clean(self.text@) == self.text@
    }

    /// The cleaned text, between 1 and 500 spoken characters.
    pub fn text(&self) -> (text: &String)
        ensures
            text@ == self@.text,
            length_ok(text@),
            clean(text@) == text@,
    {
        proof {
            use_type_invariant(self);
        }
        &self.text
    }

    /// The upstream identifier of the speaker.
    pub fn speaker_id(&self) -> (id: &String)
        ensures
            id@ == self@.speaker_id,
    {
        &self.speaker_id
    }
}

impl ValidationError {
    /// The text that tells the client what was wrong.
    pub fn message(&self) -> (text: String)
        ensures
            text@ == error_text(self@),
    {
        match self {
            ValidationError::BadLength(n) => {
                let mut out = String::from_str(
                    "The tts message must be between 1 and 500 characters, but was ",
                );
                push_decimal(&mut out, *n);
                out
            },
            ValidationError::UnknownSpeaker(name) => {
                let mut out = String::from_str("Unknown speaker: `");
                out.append(name.as_str());
                out.append("`");
                out
            },
        }
    }

    /// The HTTP status to answer with: 400 for a bad length, 404 for an
    /// unknown speaker.
    pub fn status(&self) -> (status: u16)
        ensures
            status == error_status(self@),
            400 <= status < 500,
    {
        match self {
            ValidationError::BadLength(_) => 400,
            ValidationError::UnknownSpeaker(_) => 404,
        }
    }
}

/// Validates a request: the result is exactly what [`validated`] says of the
/// request and the table.
pub fn validate(raw: &TtsRequest, speakers: &SpeakerTable) -> (result: Result<
    SanitizedRequest,
    ValidationError,
>)
    ensures
        match result {
            Ok(request) => validated(raw@, speakers@) == Ok::<
                SanitizedRequestView,
                ValidationErrorView,
            >(request@),
            Err(error) => validated(raw@, speakers@) == Err::<
                SanitizedRequestView,
                ValidationErrorView,
            >(error@),
        },
{
    let text = clean_tts_message(raw.text.as_str());
    let length = text.as_str().unicode_len();
    if length < 1 || length > MAX_TTS_MESSAGE_LENGTH {
        return Err(ValidationError::BadLength(length));
    }
    match speakers.get_speaker_id(raw.speaker.as_str()) {
        None => Err(ValidationError::UnknownSpeaker(raw.speaker.clone())),
        Some(speaker_id) => {
            proof {
                lemma_clean_idempotent(raw.text@);
            }
            Ok(SanitizedRequest { text, speaker_id })
        },
    }
}

/// Validation is a function of the request and the table, and what it accepts
/// is left unchanged by cleaning it again.
pub proof fn lemma_validated_is_clean(request: TtsRequestView, speakers: Map<Seq<char>, Seq<char>>)
    ensures
        validated(request, speakers) matches Ok(accepted) ==> {
            &&& length_ok(accepted.text)
            &&& clean(accepted.text) == accepted.text
            &&& speakers.contains_key(request.speaker)
            &&& accepted.speaker_id == speakers[request.speaker]
        },
{
    lemma_clean_idempotent(request.text);
}

} // verus!
