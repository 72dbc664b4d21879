use tts_proxy::bc::{Broadcaster, Message as Broadcast};
use tts_proxy::forward::Transient;
use tts_proxy::msg::Message as SignIn;
use tts_proxy::paths::{get_config_dir_path, get_config_file_path, get_log_file_path};
use tts_proxy::proxy::{
    health_check_url, needs_probe, needs_start, respond, shutdown_url, start_proxy_daemon,
    Message as Control, Response,
};
use tts_proxy::speakers::SpeakerTable;
use tts_proxy::tts::{
    allow_mild_words, banned_words, chat_command, chat_request, command_text, parse_tts_request,
    screen, status_is_success, Attempt, Delivery, Progress, TtsRequest, RETRY_ATTEMPTS,
};
use tts_proxy::ui::State;

fn table() -> SpeakerTable {
    let mut table = SpeakerTable::new();
    table.insert("sonic", "TM:one");
    table.insert("david-attenborough", "TM:two");
    table
}

#[test]
fn a_command_argument_is_split_at_the_first_colon() {
    let request = parse_tts_request("  sonic :  gotta go fast: now!  ", &table()).unwrap();
    assert_eq!(request.speaker, "TM:one");
    assert_eq!(request.text, "gotta go fast now!");
    let request = parse_tts_request("david-attenborough:the\tlion <sleeps>", &table()).unwrap();
    assert_eq!(request.speaker, "TM:two");
    assert_eq!(request.text, "the lion sleeps");
}

#[test]
fn a_command_argument_without_colon_or_known_speaker_is_nothing() {
    assert!(parse_tts_request("sonic says hi", &table()).is_none());
    assert!(parse_tts_request("tails: hi", &table()).is_none());
    assert!(parse_tts_request("", &table()).is_none());
    assert!(parse_tts_request(": hi", &table()).is_none());
    // the text may be empty
    let request = parse_tts_request("sonic:", &table()).unwrap();
    assert_eq!(request.text, "");
}

#[test]
fn a_chat_line_is_a_command_when_it_starts_with_the_prefix() {
    assert_eq!(command_text("tts", "!tts sonic: hi"), Some("sonic: hi".to_string()));
    assert_eq!(command_text("tts", "!tts "), Some(String::new()));
    assert_eq!(command_text("tts", "!tts"), None);
    assert_eq!(command_text("tts", "!ttsx sonic: hi"), None);
    assert_eq!(command_text("tts", "tts sonic: hi"), None);
    assert_eq!(command_text("tts", " !tts sonic: hi"), None);
    assert_eq!(command_text("", "! x"), Some("x".to_string()));
    assert_eq!(command_text("s\u{e4}g", "!s\u{e4}g sonic: hi"), Some("sonic: hi".to_string()));
}

#[test]
fn commands_are_ignored_while_disabled() {
    let mut state = State::default();
    assert!(chat_command(&state, &table(), "!tts sonic: hi").is_some());
    state.enable_tts = false;
    assert!(chat_command(&state, &table(), "!tts sonic: hi").is_none());
    state.enable_tts = true;
    state.command_name = "say".to_string();
    assert!(chat_command(&state, &table(), "!tts sonic: hi").is_none());
    assert_eq!(chat_command(&state, &table(), "!say sonic: hi").unwrap().text, "hi");
}

#[test]
fn the_filter_drops_profanity_but_lets_mild_words_through() {
    let state = State::default();
    let banned = banned_words();
    let passed = chat_request(&state, &table(), &banned, "!tts sonic: what a nice day");
    assert_eq!(passed.unwrap().text, "what a nice day");
    // on the standard list and not among the mild words
    assert!(chat_request(&state, &table(), &banned, "!tts sonic: you bitch").is_none());
    // mild words were taken off the list
    for text in ["kick ass", "holy shit", "piss off"] {
        let line = format!("!tts sonic: {}", text);
        assert_eq!(chat_request(&state, &table(), &banned, &line).unwrap().text, text);
    }
    // the standard list by itself has them
    let strict = censor::Censor::Standard;
    assert!(chat_request(&state, &table(), &strict, "!tts sonic: holy shit").is_none());
    // and what is no command never reaches the filter
    assert!(chat_request(&state, &table(), &banned, "holy shit").is_none());
}

#[test]
fn taking_out_the_mild_words_leaves_the_other_words_in() {
    let rest = allow_mild_words(censor::Censor::Standard);
    for word in ["ass", "cock", "pussy", "fuck", "piss", "shit"] {
        assert!(!rest.set().contains(word));
        assert!(censor::Censor::Standard.set().contains(word));
    }
    assert_eq!(rest.set().len() + 6, censor::Censor::Standard.set().len());
    assert!(rest.set().contains("bitch"));
}

#[test]
fn a_screened_request_passes_only_if_nothing_was_found() {
    let request = TtsRequest { text: "hi".into(), speaker: "TM:one".into() };
    assert_eq!(screen(Some(request.clone()), false).unwrap().text, "hi");
    assert!(screen(Some(request), true).is_none());
    assert!(screen(None, false).is_none());
}

#[test]
fn delivery_gives_up_after_three_attempts() {
    assert_eq!(RETRY_ATTEMPTS, 3);
    let delivery = Delivery::new();
    assert_eq!(delivery.attempts_made(), 0);
    let delivery = match delivery.after(Attempt::Failed(Transient::Connection("refused".into()))) {
        Progress::Again(next) => next,
        _ => panic!("expected another attempt"),
    };
    assert_eq!(delivery.attempts_made(), 1);
    // an unreadable body is retried and leaves the last error as it was
    let delivery = match delivery.after(Attempt::Unreadable) {
        Progress::Again(next) => next,
        _ => panic!("expected another attempt"),
    };
    assert_eq!(delivery.attempts_made(), 2);
    match delivery.after(Attempt::Undecodable) {
        Progress::GaveUp { last_error } => assert_eq!(last_error, Some("refused".to_string())),
        _ => panic!("expected the end"),
    }
}

#[test]
fn delivery_ends_when_the_audio_is_queued() {
    assert!(matches!(Delivery::new().after(Attempt::Queued), Progress::Done));
    let failure = Transient::ServerError { status: 429, body: Some("slow down".into()) };
    assert_eq!(failure.description(), "HTTP 429 - slow down");
    let delivery = match Delivery::new().after(Attempt::Failed(failure)) {
        Progress::Again(next) => next,
        _ => panic!("expected another attempt"),
    };
    assert!(matches!(delivery.after(Attempt::Queued), Progress::Done));
    // three failures without a description leave no last error
    let mut delivery = Delivery::new();
    for _ in 0..2 {
        delivery = match delivery.after(Attempt::Undecodable) {
            Progress::Again(next) => next,
            _ => panic!("expected another attempt"),
        };
    }
    assert!(matches!(delivery.after(Attempt::Unreadable), Progress::GaveUp { last_error: None }));
}

#[test]
fn only_statuses_in_the_two_hundreds_are_a_success() {
    assert!(status_is_success(200));
    assert!(status_is_success(299));
    assert!(!status_is_success(199));
    assert!(!status_is_success(300));
    assert!(!status_is_success(500));
}

#[test]
fn the_settings_file_wraps_the_json_in_a_script() {
    assert_eq!(
        State::save("{\"a\":1}"),
        "// Do not modify this file.\nexport const Config = JSON.parse(\n`{\"a\":1}`\n);"
    );
}

#[test]
fn the_json_comes_back_out_of_the_settings_file() {
    for data in ["{\"a\":1}", "", "`", "{\"channel\":\"caf\u{e9}\"}"] {
        assert_eq!(State::payload(&State::save(data)), Some(data.to_string()));
    }
    assert_eq!(State::payload(""), None);
    assert_eq!(State::payload("one\ntwo"), None);
    assert_eq!(State::payload("one\ntwo\nthree"), None);
    assert_eq!(State::payload("one\ntwo\n`"), None);
    assert_eq!(State::payload("one\ntwo\n``"), Some(String::new()));
    assert_eq!(State::payload("one\ntwo\n`x`\nfour\nfive"), Some("x".to_string()));
    assert_eq!(State::payload("one\ntwo\n`x` \nfour"), None);
    assert_eq!(State::payload("\n\n`{}`"), Some("{}".to_string()));
}

#[test]
fn fresh_settings_have_the_tts_command_enabled() {
    let state = State::default();
    assert_eq!(state.token, None);
    assert_eq!(state.channel, "");
    assert_eq!(state.command_name, "tts");
    assert_eq!(state.command_cooldown, "0");
    assert!(state.enable_tts);
}

#[test]
fn signing_in_and_out_changes_the_token_only() {
    let mut state = State::default();
    state.channel = "somewhere".to_string();
    state.receive(SignIn::Auth { token: "abc".to_string() });
    assert_eq!(state.token, Some("abc".to_string()));
    assert_eq!(state.channel, "somewhere");
    state.reset();
    assert_eq!(state.token, None);
    assert_eq!(state.channel, "somewhere");
}

#[test]
fn the_chat_connection_switches_to_a_new_channel_that_is_not_empty() {
    let mut old = State::default();
    old.channel = "first".to_string();
    let mut new = old.clone();
    assert_eq!(old.switch_to(&new), None);
    new.channel = "second".to_string();
    assert_eq!(old.switch_to(&new), Some(("first".to_string(), "second".to_string())));
    new.channel = String::new();
    assert_eq!(old.switch_to(&new), None);
}

#[test]
fn the_files_live_in_the_configuration_directory() {
    assert_eq!(get_config_dir_path(true), vec![".config", "obs_tts_config"]);
    assert_eq!(get_config_dir_path(false), vec![".obs_tts_config"]);
    assert_eq!(get_config_file_path(true), vec![".config", "obs_tts_config", "config.js"]);
    assert_eq!(get_config_file_path(false), vec![".obs_tts_config", "config.js"]);
    assert_eq!(get_log_file_path(true), vec![".config", "obs_tts_config", "tts.log"]);
    assert_eq!(get_log_file_path(false), vec![".obs_tts_config", "tts.log"]);
}

#[test]
fn broadcast_messages_are_encoded_as_they_are_sent() {
    assert_eq!(
        String::from(Broadcast::Config("{\"a\":1}".to_string())),
        "{\"type\":\"config\",\"data\":{\"a\":1}}"
    );
    assert_eq!(String::from(Broadcast::Reload), "{{\"type\":\"reload\"}}");
    assert_eq!(Broadcast::Reload.encode(), "{{\"type\":\"reload\"}}");
}

#[test]
fn senders_are_numbered_in_the_order_they_are_added() {
    let mut register: Broadcaster<&str> = Broadcaster::new();
    assert_eq!(register.add("a"), 0);
    assert_eq!(register.add("b"), 1);
    assert_eq!(register.remove(0), Some("a"));
    assert_eq!(register.remove(0), None);
    assert_eq!(register.add("c"), 2);
    assert_eq!(register.senders.len(), 2);
    register.next_id = u32::MAX;
    assert_eq!(register.add("d"), u32::MAX);
    assert_eq!(register.add("e"), 0);
    assert_eq!(register.senders.len(), 4);
}

#[test]
fn control_requests_are_answered_by_what_was_found() {
    assert!(needs_probe(Control::Refresh));
    assert!(needs_probe(Control::Startup));
    assert!(!needs_probe(Control::Shutdown));
    assert!(needs_start(Control::Startup, false));
    assert!(!needs_start(Control::Startup, true));
    assert!(!needs_start(Control::Refresh, false));

    let up = Response { is_proxy_running: true, is_autostart_enabled: false };
    let down = Response { is_proxy_running: false, is_autostart_enabled: false };
    assert_eq!(respond(Control::Refresh, true, None), Ok(up));
    assert_eq!(respond(Control::Refresh, false, None), Ok(down));
    assert_eq!(respond(Control::Startup, true, None), Ok(up));
    assert_eq!(respond(Control::Startup, false, None), Ok(down));
    assert_eq!(
        respond(Control::Startup, false, Some("no such file".to_string())),
        Err("no such file".to_string())
    );
    assert_eq!(respond(Control::Shutdown, true, None), Ok(down));
}

#[test]
fn a_report_replaces_what_was_known_and_an_error_does_not() {
    let mut known = Response { is_proxy_running: false, is_autostart_enabled: false };
    let up = Response { is_proxy_running: true, is_autostart_enabled: false };
    assert_eq!(known.update(None), Ok(()));
    assert!(!known.is_proxy_running);
    assert_eq!(known.update(Some(Ok(up))), Ok(()));
    assert!(known.is_proxy_running);
    assert_eq!(known.update(Some(Err("gone".to_string()))), Err("gone".to_string()));
    assert!(known.is_proxy_running);
}

#[test]
fn the_proxy_is_reached_and_started_by_its_port() {
    assert_eq!(health_check_url(3031), "http://localhost:3031/health_check");
    assert_eq!(shutdown_url(80), "http://localhost:80/shutdown");
    assert_eq!(
        start_proxy_daemon(3031, "/home/me/.obs_tts_config"),
        vec![
            "--retry-attempts",
            "3",
            "--port",
            "3031",
            "--log-directory",
            "/home/me/.obs_tts_config",
            "--daemonize"
        ]
    );
}
