use tts_proxy::config::Config;
use tts_proxy::service::Proxy;
use tts_proxy::speak::{Action, Event, Reply};
use tts_proxy::speakers::SpeakerTable;
use tts_proxy::validate::TtsRequest;

fn speakers() -> SpeakerTable {
    let mut table = SpeakerTable::new();
    table.insert("david-attenborough", "TM:8wt47zsj1qmx");
    table.insert("sonic", "TM:fgacfb9g4m4g");
    table
}

fn test_config() -> Config {
    Config {
        port: 0,
        api_url: "http://localhost:9/speak".to_string(),
        request_limit_per_minute_per_ip: 1,
        max_concurrent_requests: 3,
        retry_attempts: 3,
        api_timeout_seconds: 1,
        log_directory: None,
    }
}

fn spawn_app() -> Proxy {
    Proxy::new(test_config(), speakers())
}

fn arrive(proxy: &mut Proxy, id: u64, speaker: &str, text: &str) -> Action {
    proxy.tell(
        id,
        Event::Arrived {
            key: Some("127.0.0.1".to_string()),
            request: TtsRequest { speaker: speaker.into(), text: text.into() },
        },
    )
}

fn reply_of(action: Action) -> Reply {
    match action {
        Action::Respond(reply) => reply,
        other => panic!("expected a reply, got {:?}", other),
    }
}

/// What the stand-in for the upstream service sends back: the words of the
/// text without the whitespace between them.
fn mock_speak(text: &str) -> Vec<u8> {
    text.split_whitespace().flat_map(|s| s.bytes()).collect()
}

#[test]
fn test_normal_length_messages_are_processed() {
    let mut proxy = spawn_app();

    let action = arrive(
        &mut proxy,
        1,
        "david-attenborough",
        "This is a short text that shouldn't be rejected by the server",
    );
    assert!(matches!(action, Action::AwaitQuota { ref key } if key == "127.0.0.1"));

    let body = match proxy.tell(1, Event::QuotaGranted) {
        Action::CallUpstream { url, timeout_seconds, text, speaker } => {
            assert_eq!(url, "http://localhost:9/speak");
            assert_eq!(timeout_seconds, 1);
            assert_eq!(speaker, "TM:8wt47zsj1qmx");
            mock_speak(&text)
        }
        other => panic!("expected an upstream call, got {:?}", other),
    };
    assert_eq!(proxy.in_flight(), 1);

    let action = proxy.tell(1, Event::Status { status: 200 });
    assert!(matches!(action, Action::Relay { status: 200 }));
    assert_eq!(
        body,
        "This is a short text that shouldn't be rejected by the server"
            .replace(" ", "")
            .into_bytes()
    );

    assert!(matches!(proxy.tell(1, Event::RelayFinished), Action::Done));
    assert_eq!(proxy.in_flight(), 0);
}

#[test]
fn test_short_and_long_messages_are_rejected() {
    let mut proxy = spawn_app();

    // Too long
    let response = reply_of(arrive(&mut proxy, 1, "sonic", &"a".repeat(501 /* max length is 500 */)));

    assert!((400..500).contains(&response.status));
    assert_eq!(
        response.body.error,
        "The tts message must be between 1 and 500 characters, but was 501"
    );

    // Too short
    let response = reply_of(arrive(&mut proxy, 2, "sonic", "" /* min length is 1 */));
    assert!((400..500).contains(&response.status));
    assert_eq!(
        response.body.error,
        "The tts message must be between 1 and 500 characters, but was 0"
    );
    assert_eq!(proxy.in_flight(), 0);
}

#[test]
fn test_unknown_speakers_are_rejected() {
    let mut proxy = spawn_app();

    let response = reply_of(arrive(&mut proxy, 1, "this speaker doesn't exist", "test"));

    assert!((400..500).contains(&response.status));
    assert_eq!(
        response.body.error,
        "Unknown speaker: `this speaker doesn't exist`"
    );
}

#[test]
fn test_vocodes_api_errors_are_handled() {
    let mut proxy = spawn_app();

    arrive(&mut proxy, 1, "sonic", "500, please");
    let mut action = proxy.tell(1, Event::QuotaGranted);
    let mut calls = 0;
    while let Action::CallUpstream { ref text, .. } = action {
        assert_eq!(text, "500, please");
        calls += 1;
        assert!(matches!(proxy.tell(1, Event::Status { status: 500 }), Action::ReadFailureBody));
        action = proxy.tell(1, Event::FailureBody { text: Some(String::new()) });
    }
    let response = reply_of(action);
    assert!((500..600).contains(&response.status));
    assert_eq!(calls, 3);
    assert_eq!(response.body.retries, Some(3));
    assert!(response.body.error.contains("HTTP 500"));
    assert_eq!(proxy.in_flight(), 0);
}

#[test]
fn test_timeouts_are_handled() {
    let mut proxy = spawn_app();

    arrive(&mut proxy, 1, "sonic", "timeout, please");
    let mut action = proxy.tell(1, Event::QuotaGranted);
    while let Action::CallUpstream { timeout_seconds, .. } = action {
        assert_eq!(timeout_seconds, 1);
        action = proxy.tell(1, Event::TimedOut);
    }
    let response = reply_of(action);
    assert!((500..600).contains(&response.status));
    assert_eq!(
        response.body.error,
        "Failed to receive or parse the response from the API: Timeout while waiting for response"
    );
    assert_eq!(response.body.retries, Some(3));
    assert_eq!(proxy.in_flight(), 0);
}

#[test]
fn fourth_concurrent_request_is_turned_away_until_a_slot_is_free() {
    let mut proxy = spawn_app();
    for id in 1..=4 {
        let action = arrive(&mut proxy, id, "sonic", "hello there");
        assert!(matches!(action, Action::AwaitQuota { .. }));
    }
    for id in 1..=3 {
        assert!(matches!(proxy.tell(id, Event::QuotaGranted), Action::CallUpstream { .. }));
    }
    assert_eq!(proxy.in_flight(), 3);

    let response = reply_of(proxy.tell(4, Event::QuotaGranted));
    assert_eq!(response.status, 503);
    assert_eq!(response.retry_after, Some(1));
    assert_eq!(
        response.body.error,
        "The service is currently overloaded. Please re-submit your request after Retry-After seconds."
    );
    assert_eq!(response.body.retries, None);
    assert_eq!(proxy.in_flight(), 3);

    assert!(matches!(proxy.tell(2, Event::Status { status: 200 }), Action::Relay { status: 200 }));
    assert_eq!(proxy.in_flight(), 3);
    assert!(matches!(proxy.tell(2, Event::RelayFinished), Action::Done));
    assert_eq!(proxy.in_flight(), 2);

    arrive(&mut proxy, 5, "sonic", "hello again");
    assert!(matches!(proxy.tell(5, Event::QuotaGranted), Action::CallUpstream { .. }));
    assert_eq!(proxy.in_flight(), 3);
}

#[test]
fn second_rapid_request_of_a_client_waits_for_its_quota() {
    let mut proxy = spawn_app();
    let key = match arrive(&mut proxy, 1, "sonic", "first") {
        Action::AwaitQuota { key } => key,
        other => panic!("expected a quota wait, got {:?}", other),
    };
    let limiter = proxy.context().user_limits().inner.clone();
    assert!(limiter.check_key(&key).is_ok());
    assert!(matches!(proxy.tell(1, Event::QuotaGranted), Action::CallUpstream { .. }));

    // The second request is valid and is asked to wait; nothing rejects it.
    let key = match arrive(&mut proxy, 2, "sonic", "second") {
        Action::AwaitQuota { key } => key,
        other => panic!("expected a quota wait, got {:?}", other),
    };
    assert!(limiter.check_key(&key).is_err());
    assert_eq!(proxy.in_flight(), 1);

    // Another client has a bucket of its own.
    assert!(limiter.check_key(&"10.0.0.7".to_string()).is_ok());
}

#[test]
fn a_request_without_an_address_is_answered_at_once() {
    let mut proxy = spawn_app();
    let action = proxy.tell(
        9,
        Event::Arrived {
            key: None,
            request: TtsRequest { speaker: "sonic".into(), text: "hi".into() },
        },
    );
    let response = reply_of(action);
    assert_eq!(response.status, 400);
    assert_eq!(response.body.error, "Couldn't determine remote IP");
    assert_eq!(proxy.in_flight(), 0);
}

#[test]
fn a_client_error_of_the_upstream_service_is_relayed_not_retried() {
    let mut proxy = spawn_app();
    arrive(&mut proxy, 1, "sonic", "hello");
    proxy.tell(1, Event::QuotaGranted);
    assert!(matches!(proxy.tell(1, Event::Status { status: 404 }), Action::Relay { status: 404 }));
    assert!(matches!(proxy.tell(1, Event::RelayFinished), Action::Done));
    assert_eq!(proxy.in_flight(), 0);
}

#[test]
fn a_connection_failure_is_retried_and_then_reported() {
    let mut proxy = spawn_app();
    arrive(&mut proxy, 1, "sonic", "hello");
    proxy.tell(1, Event::QuotaGranted);
    let again = proxy.tell(1, Event::ConnectionFailed { error: "connection refused".into() });
    assert!(matches!(again, Action::CallUpstream { .. }));
    assert!(matches!(proxy.tell(1, Event::Status { status: 503 }), Action::ReadFailureBody));
    let again = proxy.tell(1, Event::FailureBody { text: None });
    assert!(matches!(again, Action::CallUpstream { .. }));
    let response = reply_of(proxy.tell(1, Event::ConnectionFailed { error: "reset".into() }));
    assert_eq!(response.status, 500);
    assert_eq!(
        response.body.error,
        "Failed to receive or parse the response from the API: reset"
    );
    assert_eq!(response.body.retries, Some(3));
    assert_eq!(proxy.in_flight(), 0);
}

#[test]
fn a_server_error_is_described_with_its_status_and_body() {
    let mut config = test_config();
    config.retry_attempts = 1;
    let mut proxy = Proxy::new(config, speakers());
    arrive(&mut proxy, 1, "sonic", "hello");
    proxy.tell(1, Event::QuotaGranted);
    proxy.tell(1, Event::Status { status: 502 });
    let response = reply_of(proxy.tell(1, Event::FailureBody { text: Some("bad gateway".into()) }));
    assert_eq!(
        response.body.error,
        "Failed to receive or parse the response from the API: HTTP 502 - bad gateway"
    );
    assert_eq!(response.body.retries, Some(1));

    arrive(&mut proxy, 2, "sonic", "hello");
    proxy.tell(2, Event::QuotaGranted);
    proxy.tell(2, Event::Status { status: 599 });
    let response = reply_of(proxy.tell(2, Event::FailureBody { text: None }));
    assert_eq!(
        response.body.error,
        "Failed to receive or parse the response from the API: HTTP 599 - <no response body>"
    );
}

#[test]
fn a_client_that_goes_away_gives_its_slot_back() {
    let mut proxy = spawn_app();
    // while waiting for the quota: no slot was taken
    arrive(&mut proxy, 1, "sonic", "hello");
    assert!(matches!(proxy.tell(1, Event::Disconnected), Action::Done));
    assert_eq!(proxy.in_flight(), 0);
    // during an upstream call
    arrive(&mut proxy, 2, "sonic", "hello");
    proxy.tell(2, Event::QuotaGranted);
    assert_eq!(proxy.in_flight(), 1);
    assert!(matches!(proxy.tell(2, Event::Disconnected), Action::Done));
    assert_eq!(proxy.in_flight(), 0);
    // while the body of a server error is read
    arrive(&mut proxy, 3, "sonic", "hello");
    proxy.tell(3, Event::QuotaGranted);
    proxy.tell(3, Event::Status { status: 500 });
    assert!(matches!(proxy.tell(3, Event::Disconnected), Action::Done));
    assert_eq!(proxy.in_flight(), 0);
    // in the middle of the relay
    arrive(&mut proxy, 4, "sonic", "hello");
    proxy.tell(4, Event::QuotaGranted);
    proxy.tell(4, Event::Status { status: 200 });
    assert_eq!(proxy.in_flight(), 1);
    assert!(matches!(proxy.tell(4, Event::Disconnected), Action::Done));
    assert_eq!(proxy.in_flight(), 0);
    // a second report of the same end changes nothing
    assert!(matches!(proxy.tell(4, Event::Disconnected), Action::Done));
    assert_eq!(proxy.in_flight(), 0);
}

#[test]
fn an_event_out_of_turn_ends_the_request_and_frees_its_slot() {
    let mut proxy = spawn_app();
    arrive(&mut proxy, 1, "sonic", "hello");
    proxy.tell(1, Event::QuotaGranted);
    assert_eq!(proxy.in_flight(), 1);
    assert!(matches!(proxy.tell(1, Event::QuotaGranted), Action::Done));
    assert_eq!(proxy.in_flight(), 0);
    // a number that is not under way and an event that is no arrival
    assert!(matches!(proxy.tell(77, Event::Status { status: 200 }), Action::Done));
    assert_eq!(proxy.in_flight(), 0);
}
