use tts_proxy::speakers::SpeakerTable;
use tts_proxy::text::{clean_tts_message, decimal_string, from_chars, to_chars, trim_bounds};
use tts_proxy::validate::{validate, TtsRequest, ValidationError};

fn table() -> SpeakerTable {
    let mut table = SpeakerTable::new();
    table.insert("sonic", "TM:one");
    table.insert("david-attenborough", "TM:two");
    table
}

fn request(speaker: &str, text: &str) -> TtsRequest {
    TtsRequest { speaker: speaker.into(), text: text.into() }
}

#[test]
fn cleaning_keeps_spoken_characters() {
    assert_eq!(clean_tts_message("Hello,\tworld! <3 #1"), "Hello, world! 3 1");
    assert_eq!(clean_tts_message("it's $5.00, ok?"), "it's $5.00, ok?");
    assert_eq!(clean_tts_message("caf\u{e9} \u{1f600}-_()"), "caf ");
    assert_eq!(clean_tts_message(""), "");
}

#[test]
fn cleaning_blanks_whitespace_without_merging_it() {
    assert_eq!(clean_tts_message("a \t\n\u{c}\rb"), "a     b");
    // a vertical tab is not ASCII whitespace, and a no-break space is not ASCII
    assert_eq!(clean_tts_message("a\u{b}b\u{a0}c"), "abc");
}

#[test]
fn cleaning_is_idempotent() {
    for text in ["Hello,\tworld! <3 #1", "  a\nb  ", "\u{1f600}", "plain", "x\r\ny"] {
        let once = clean_tts_message(text);
        assert_eq!(clean_tts_message(&once), once);
    }
}

#[test]
fn validation_gives_the_same_answer_every_time() {
    let table = table();
    let first = validate(&request("sonic", "same\tinput"), &table).unwrap();
    let second = validate(&request("sonic", "same\tinput"), &table).unwrap();
    assert_eq!(first.text(), second.text());
    assert_eq!(first.speaker_id(), second.speaker_id());
    assert_eq!(first.text(), "same input");
    assert_eq!(first.speaker_id(), "TM:one");
}

#[test]
fn validation_checks_the_length_of_the_cleaned_text() {
    let table = table();
    // 500 characters pass, 501 do not
    assert!(validate(&request("sonic", &"a".repeat(500)), &table).is_ok());
    match validate(&request("sonic", &"a".repeat(501)), &table) {
        Err(ValidationError::BadLength(501)) => {}
        other => panic!("unexpected: {:?}", other.err()),
    }
    // one character passes, none does not
    assert!(validate(&request("sonic", "a"), &table).is_ok());
    match validate(&request("sonic", ""), &table) {
        Err(ValidationError::BadLength(0)) => {}
        other => panic!("unexpected: {:?}", other.err()),
    }
    // what counts is the cleaned text: 600 characters of which 100 are dropped
    let padded = format!("{}{}", "#".repeat(100), "b".repeat(500));
    assert!(validate(&request("sonic", &padded), &table).is_ok());
    // and a text that cleaning empties is too short
    match validate(&request("sonic", "###"), &table) {
        Err(ValidationError::BadLength(0)) => {}
        other => panic!("unexpected: {:?}", other.err()),
    }
}

#[test]
fn the_length_is_checked_before_the_speaker() {
    match validate(&request("nobody", ""), &table()) {
        Err(ValidationError::BadLength(0)) => {}
        other => panic!("unexpected: {:?}", other.err()),
    }
}

#[test]
fn validation_errors_have_their_status_and_text() {
    let error = ValidationError::BadLength(501);
    assert_eq!(error.status(), 400);
    assert_eq!(
        error.message(),
        "The tts message must be between 1 and 500 characters, but was 501"
    );
    let error = validate(&request("this speaker doesn't exist", "test"), &table()).err().unwrap();
    assert_eq!(error.status(), 404);
    assert_eq!(error.message(), "Unknown speaker: `this speaker doesn't exist`");
}

#[test]
fn the_speaker_is_looked_up_as_it_was_sent() {
    let table = table();
    let accepted = validate(&request("david-attenborough", "hello"), &table).unwrap();
    assert_eq!(accepted.speaker_id(), "TM:two");
    assert!(validate(&request(" sonic", "hello"), &table).is_err());
    assert!(validate(&request("Sonic", "hello"), &table).is_err());
}

#[test]
fn a_later_entry_replaces_an_earlier_one() {
    let mut table = table();
    assert_eq!(table.get_speaker_id("sonic"), Some("TM:one".to_string()));
    table.insert("sonic", "TM:new");
    assert_eq!(table.get_speaker_id("sonic"), Some("TM:new".to_string()));
    assert_eq!(table.get_speaker_id("david-attenborough"), Some("TM:two".to_string()));
    assert_eq!(table.get_speaker_id("tails"), None);
    assert_eq!(SpeakerTable::new().get_speaker_id("sonic"), None);
}

#[test]
fn numbers_are_written_in_decimal() {
    assert_eq!(decimal_string(0), "0");
    assert_eq!(decimal_string(7), "7");
    assert_eq!(decimal_string(10), "10");
    assert_eq!(decimal_string(501), "501");
    assert_eq!(decimal_string(65535), "65535");
    assert_eq!(decimal_string(usize::MAX), usize::MAX.to_string());
}

#[test]
fn characters_go_in_and_out_of_strings() {
    let chars = to_chars("h\u{e9}llo w\u{f6}rld");
    assert_eq!(chars.len(), 11);
    assert_eq!(from_chars(&chars, 0, chars.len()), "h\u{e9}llo w\u{f6}rld");
    assert_eq!(from_chars(&chars, 6, 11), "w\u{f6}rld");
    assert_eq!(from_chars(&chars, 3, 3), "");
}

#[test]
fn trimming_removes_unicode_whitespace_at_both_ends() {
    for text in ["  a b \t", "\u{a0}\u{2003}x\u{3000}\n", "", "   ", "none", "\u{b}v\u{85}", "\u{200b}z"] {
        let chars = to_chars(text);
        let (lo, hi) = trim_bounds(&chars, 0, chars.len());
        assert_eq!(from_chars(&chars, lo, hi), text.trim());
    }
}
