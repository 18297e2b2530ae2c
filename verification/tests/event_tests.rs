use twitch::event::ChatEvent;
use twitch::event::EventKind;
use twitch::event::Identity;

fn chat_event(prefix: Option<Identity>, params: &[&str]) -> ChatEvent {
    ChatEvent {
        kind: EventKind::ChatMessage,
        prefix,
        params: params.iter().map(|s| s.to_string()).collect(),
    }
}

#[test]
fn full_identity_prefers_account_name() {
    let e = chat_event(
        Some(Identity::Full {
            nick: "bob".to_string(),
            user: Some("robert".to_string()),
            host: "h".to_string(),
        }),
        &["#chan", "hi", "there"],
    );
    assert_eq!(twitch::event::format(&e), Some("robert: hi there".to_string()));
}

#[test]
fn full_identity_falls_back_to_nick() {
    let e = chat_event(
        Some(Identity::Full {
            nick: "bob".to_string(),
            user: None,
            host: "h".to_string(),
        }),
        &["#chan", "hi"],
    );
    assert_eq!(twitch::event::format(&e), Some("bob: hi".to_string()));
}

#[test]
fn host_only_identity_uses_host() {
    let e = chat_event(
        Some(Identity::HostOnly {
            host: "example.com".to_string(),
        }),
        &["#chan", "ping"],
    );
    assert_eq!(twitch::event::format(&e), Some("example.com: ping".to_string()));
}

#[test]
fn missing_identity_uses_unknown_sentinel() {
    let e = chat_event(None, &["#chan", "yo"]);
    assert_eq!(twitch::event::format(&e), Some("unknown: yo".to_string()));
}

#[test]
fn missing_channel_parameter_uses_unknown_sentinel() {
    let e = chat_event(
        Some(Identity::Full {
            nick: "bob".to_string(),
            user: Some("robert".to_string()),
            host: "h".to_string(),
        }),
        &[],
    );
    assert_eq!(twitch::event::format(&e), Some("robert: ".to_string()));
}

#[test]
fn name_equal_to_channel_is_suppressed() {
    let e = chat_event(
        Some(Identity::HostOnly {
            host: "#chan".to_string(),
        }),
        &["#chan", "announcement"],
    );
    assert_eq!(twitch::event::format(&e), None);
}

#[test]
fn non_chat_event_yields_no_line() {
    let e = ChatEvent {
        kind: EventKind::Other,
        prefix: Some(Identity::Full {
            nick: "bob".to_string(),
            user: Some("robert".to_string()),
            host: "h".to_string(),
        }),
        params: vec!["#chan".to_string(), "hello".to_string()],
    };
    assert_eq!(twitch::event::format(&e), None);
}

#[test]
fn body_joins_parameters_with_single_spaces() {
    let e = chat_event(
        Some(Identity::HostOnly {
            host: "alice".to_string(),
        }),
        &["#chan", "a", "b", "c"],
    );
    assert_eq!(twitch::event::format(&e), Some("alice: a b c".to_string()));
}

#[test]
fn single_parameter_gives_empty_body() {
    let e = chat_event(
        Some(Identity::HostOnly {
            host: "alice".to_string(),
        }),
        &["#chan"],
    );
    assert_eq!(twitch::event::format(&e), Some("alice: ".to_string()));
}
