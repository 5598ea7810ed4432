use tracing_layer::filters::{EventFilters, Filter, Rejected};
use tracing_layer::layer::{
    FormatRejection, RawEvent, SpanContext, WebhookConfig, WebhookLayer,
};
use tracing_layer::level::Level;
use tracing_layer::message::WebhookMessageInputs;
use tracing_layer::slack::{SlackConfig, SlackLayer, SlackPayload, SlackRejection};

fn filter(pattern: &str) -> Filter {
    Filter::new(pattern).unwrap()
}

fn event(target: &str, message: Option<&str>, fields: Vec<(&str, &str)>) -> RawEvent {
    RawEvent {
        target: target.to_string(),
        level: Level::Info,
        message: message.map(|m| m.to_string()),
        error: None,
        fields: fields
            .into_iter()
            .map(|(k, v)| (k.to_string(), v.to_string()))
            .collect(),
        file: None,
        line: None,
    }
}

fn p9_layer() -> WebhookLayer {
    WebhookLayer::builder(
        "app".to_string(),
        EventFilters::new(Some(filter("svc\\.")), None),
    )
    .field_exclusion_filters(vec![filter("password")])
    .config(WebhookConfig {
        webhook_url: "http://example.test/hook".to_string(),
    })
    .build()
    .unwrap()
}

#[test]
fn matching_event_keeps_user_and_omits_password() {
    let layer = p9_layer();
    let ev = event(
        "svc.auth",
        Some("login ok"),
        vec![
            ("message", "\"login ok\""),
            ("user", "\"a\""),
            ("password", "\"x\""),
        ],
    );
    let out = layer.format_event(&ev, None).unwrap();
    assert_eq!(out.message, "login ok");
    assert_eq!(out.metadata, "{\"user\":\"a\"}");
    assert_eq!(out.target, "svc.auth");
    assert_eq!(out.source_file, "Unknown");
    assert_eq!(out.source_line, 0);
    assert_eq!(out.webhook_url, "http://example.test/hook");
}

#[test]
fn non_matching_target_emits_no_payload() {
    let layer = p9_layer();
    let ev = event("other.mod", Some("login ok"), vec![("user", "\"a\"")]);
    assert_eq!(
        layer.format_event(&ev, None).err(),
        Some(FormatRejection::Target(Rejected::MissedInclusion))
    );
}

#[test]
fn level_below_threshold_is_dropped_and_equal_level_is_kept() {
    let layer = WebhookLayer::builder("app".to_string(), EventFilters::new(None, None))
        .level_filters(Level::Warn)
        .config(WebhookConfig {
            webhook_url: "u".to_string(),
        })
        .build()
        .unwrap();
    let mut ev = event("t", Some("m"), vec![]);
    ev.level = Level::Info;
    assert_eq!(layer.format_event(&ev, None).err(), Some(FormatRejection::Level));
    ev.level = Level::Warn;
    assert!(layer.format_event(&ev, None).is_ok());
    ev.level = Level::Error;
    assert!(layer.format_event(&ev, None).is_ok());
}

#[test]
fn field_key_filter_drops_the_field_but_keeps_the_event() {
    let layer = WebhookLayer::builder("app".to_string(), EventFilters::new(None, None))
        .event_by_field_filters(EventFilters::new(None, Some(filter("^secret$"))))
        .config(WebhookConfig {
            webhook_url: "u".to_string(),
        })
        .build()
        .unwrap();
    let ev = event("t", Some("m"), vec![("secret", "\"s\""), ("kept", "1")]);
    let out = layer.format_event(&ev, None).unwrap();
    assert_eq!(out.metadata, "{\"kept\":1}");
}

#[test]
fn message_filter_rejects_the_selected_message() {
    let layer = WebhookLayer::builder("app".to_string(), EventFilters::new(None, None))
        .message_filters(EventFilters::new(None, Some(filter("noisy"))))
        .config(WebhookConfig {
            webhook_url: "u".to_string(),
        })
        .build()
        .unwrap();
    let ev = event("t", Some("a noisy line"), vec![]);
    assert_eq!(
        layer.format_event(&ev, None).err(),
        Some(FormatRejection::Message(Rejected::MatchedExclusion))
    );
}

#[test]
fn message_falls_back_to_error_field_then_placeholder() {
    let layer = p9_layer();
    let mut ev = event("svc.a", None, vec![]);
    ev.error = Some("boom".to_string());
    assert_eq!(layer.format_event(&ev, None).unwrap().message, "boom");
    ev.error = None;
    assert_eq!(layer.format_event(&ev, None).unwrap().message, "No message");
}

#[test]
fn span_fields_are_merged_unfiltered_after_event_fields() {
    let layer = p9_layer();
    let ev = event("svc.a", Some("m"), vec![("user", "\"a\"")]);
    let span = SpanContext {
        name: "req".to_string(),
        fields: vec![("password".to_string(), "\"spanpw\"".to_string())],
    };
    let out = layer.format_event(&ev, Some(&span)).unwrap();
    assert_eq!(out.span, "req");
    assert_eq!(out.metadata, "{\"user\":\"a\",\"password\":\"spanpw\"}");
}

#[test]
fn span_field_overwrites_a_same_named_event_field() {
    let layer = p9_layer();
    let ev = event("svc.a", Some("m"), vec![("k", "1"), ("other", "0")]);
    let span = SpanContext {
        name: "req".to_string(),
        fields: vec![("k".to_string(), "2".to_string())],
    };
    let out = layer.format_event(&ev, Some(&span)).unwrap();
    assert_eq!(out.metadata, "{\"k\":2,\"other\":0}");
}

#[test]
fn generic_payload_body_is_the_exact_json_object() {
    let inputs = WebhookMessageInputs {
        app_name: "app".to_string(),
        message: "m".to_string(),
        event_level: Level::Info,
        source_file: "f.rs".to_string(),
        source_line: 7,
        target: "t".to_string(),
        span: "s".to_string(),
        metadata: "{}".to_string(),
        webhook_url: "http://example.test/hook".to_string(),
    };
    let payload = inputs.into_payload();
    assert_eq!(payload.destination_url, "http://example.test/hook");
    assert_eq!(
        payload.body,
        "{\"message\":\"m\",\"target\":\"t\",\"span\":\"s\",\"file\":\"f.rs\",\
         \"line\":7,\"level\":\"INFO\",\"app_name\":\"app\",\"metadata\":{}}"
    );
}

fn slack_layer() -> SlackLayer {
    SlackLayer::builder(EventFilters::new(None, None))
        .field_exclusion_filters(vec![filter("password")])
        .slack_config(SlackConfig {
            webhook_url: "http://example.test/slack".to_string(),
            channel_name: "c".to_string(),
            username: "n".to_string(),
            icon_emoji: ":i:".to_string(),
        })
        .build()
        .unwrap()
}

#[test]
fn slack_text_annotates_the_message_with_the_upper_case_span_name() {
    let layer = slack_layer();
    let ev = event("svc", Some("hi"), vec![]);
    let span = SpanContext {
        name: "my_span".to_string(),
        fields: vec![("sf".to_string(), "1".to_string())],
    };
    let payload = layer.format_event(&ev, Some(&span)).unwrap();
    assert_eq!(
        payload.text,
        "{\"message\":\"[MY_SPAN - EVENT] hi\",\"target\":\"svc\",\
         \"line\":null,\"file\":null,\"sf\":1}"
    );
    assert_eq!(payload.channel, "c");
    assert_eq!(payload.username, "n");
    assert_eq!(payload.webhook_url, "http://example.test/slack");
}

#[test]
fn slack_message_falls_back_to_the_target() {
    let layer = slack_layer();
    let ev = event("svc", None, vec![]);
    let payload = layer.format_event(&ev, None).unwrap();
    assert_eq!(
        payload.text,
        "{\"message\":\"svc\",\"target\":\"svc\",\"line\":null,\"file\":null}"
    );
}

#[test]
fn slack_line_and_file_appear_when_present() {
    let layer = slack_layer();
    let mut ev = event("svc", Some("m"), vec![]);
    ev.file = Some("lib.rs".to_string());
    ev.line = Some(42);
    let payload = layer.format_event(&ev, None).unwrap();
    assert_eq!(
        payload.text,
        "{\"message\":\"m\",\"target\":\"svc\",\"line\":42,\"file\":\"lib.rs\"}"
    );
}

#[test]
fn slack_span_message_field_overwrites_the_formatted_message() {
    let layer = slack_layer();
    let ev = event("svc", Some("hi"), vec![]);
    let span = SpanContext {
        name: "req".to_string(),
        fields: vec![("message".to_string(), "\"sp\"".to_string())],
    };
    let payload = layer.format_event(&ev, Some(&span)).unwrap();
    assert_eq!(
        payload.text,
        "{\"message\":\"sp\",\"target\":\"svc\",\"line\":null,\"file\":null}"
    );
}

#[test]
fn slack_message_filter_rejects_before_annotation() {
    let layer = SlackLayer::builder(EventFilters::new(None, None))
        .message_filters(EventFilters::new(Some(filter("^keep")), None))
        .slack_config(SlackConfig {
            webhook_url: "u".to_string(),
            channel_name: "c".to_string(),
            username: "n".to_string(),
            icon_emoji: "i".to_string(),
        })
        .build()
        .unwrap();
    let ev = event("svc", Some("drop me"), vec![]);
    assert_eq!(
        layer.format_event(&ev, None).err(),
        Some(SlackRejection::Message(Rejected::MissedInclusion))
    );
}

#[test]
fn building_without_config_fails_fast() {
    let r = WebhookLayer::builder("app".to_string(), EventFilters::new(None, None)).build();
    assert_eq!(
        r.err(),
        Some(tracing_layer::filters::ConfigurationError::MissingConfig)
    );
    let r = SlackLayer::builder(EventFilters::new(None, None)).build();
    assert_eq!(
        r.err(),
        Some(tracing_layer::filters::ConfigurationError::MissingConfig)
    );
}

#[test]
fn slack_target_filter_rejects_the_event() {
    let layer = SlackLayer::builder(EventFilters::new(Some(filter("^svc")), None))
        .slack_config(SlackConfig {
            webhook_url: "u".to_string(),
            channel_name: "c".to_string(),
            username: "n".to_string(),
            icon_emoji: "i".to_string(),
        })
        .build()
        .unwrap();
    let ev = event("web.auth", Some("m"), vec![]);
    assert_eq!(
        layer.format_event(&ev, None).err(),
        Some(SlackRejection::Target(Rejected::MissedInclusion))
    );
}

#[test]
fn slack_payload_serializes_to_the_exact_body() {
    let payload = SlackPayload::new(
        "c".to_string(),
        "n".to_string(),
        "t\"x".to_string(),
        "http://example.test/slack".to_string(),
        ":i:".to_string(),
    );
    let out = payload.to_outbound();
    assert_eq!(out.destination_url, "http://example.test/slack");
    assert_eq!(
        out.body,
        "{\"channel\":\"c\",\"username\":\"n\",\"text\":\"t\\\"x\",\"icon_emoji\":\":i:\"}"
    );
}
