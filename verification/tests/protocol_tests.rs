use heart_mirror::protocol::{frame_response, DeviceMessage, ServerResponse, GREETING, RESPONSE_TYPE};

#[test]
fn initial_connection_is_calm() {
    let r = ServerResponse::initial_connection();
    assert_eq!(r.msg_type, "llm");
    assert_eq!(r.emotion, "calm");
    assert_eq!(r.text.as_deref(), Some("Connected & Ready"));
    assert_eq!(RESPONSE_TYPE, "llm");
    assert_eq!(GREETING, "Connected & Ready");
}

#[test]
fn initial_connection_as_json() {
    assert_eq!(
        ServerResponse::initial_connection().to_json(),
        Some("{\"type\":\"llm\",\"emotion\":\"calm\",\"text\":\"Connected & Ready\"}".to_string())
    );
}

#[test]
fn speech_result_holds_text_and_label() {
    let r = ServerResponse::speech_result("hello".to_string(), "joy".to_string());
    assert_eq!(r.msg_type, "llm");
    assert_eq!(r.emotion, "joy");
    assert_eq!(r.text.as_deref(), Some("hello"));
    assert_eq!(
        r.to_json(),
        Some("{\"type\":\"llm\",\"emotion\":\"joy\",\"text\":\"hello\"}".to_string())
    );
}

#[test]
fn text_is_left_out_where_there_is_none() {
    let r = ServerResponse { msg_type: "llm".to_string(), emotion: "sleep".to_string(), text: None };
    assert_eq!(r.to_json(), Some("{\"type\":\"llm\",\"emotion\":\"sleep\"}".to_string()));
}

#[test]
fn json_escapes_what_must_be_escaped() {
    let r = ServerResponse::speech_result(
        "say \"hi\"\\now\n\ttab\r\u{8}\u{c}\u{1f}\u{7f}/".to_string(),
        "calm".to_string(),
    );
    assert_eq!(
        r.to_json(),
        Some(
            "{\"type\":\"llm\",\"emotion\":\"calm\",\"text\":\"say \\\"hi\\\"\\\\now\\n\\ttab\\r\\b\\f\\u001f\u{7f}/\"}"
                .to_string()
        )
    );
}

#[test]
fn json_keeps_text_beyond_ascii() {
    let r = ServerResponse::speech_result("\u{4f60}\u{597d} \u{1f600}".to_string(), "joy".to_string());
    assert_eq!(
        r.to_json(),
        Some("{\"type\":\"llm\",\"emotion\":\"joy\",\"text\":\"\u{4f60}\u{597d} \u{1f600}\"}".to_string())
    );
}

#[test]
fn response_json_reads_back() {
    let text = "a \"quoted\" \\ line\nnext \u{4f60}\u{0}";
    let r = ServerResponse::speech_result(text.to_string(), "fear".to_string());
    let json = r.to_json().expect("json");
    let v = serde_json::from_str::<serde_json::Value>(&json).expect("valid json");
    assert_eq!(v.get("type").and_then(|x| x.as_str()), Some("llm"));
    assert_eq!(v.get("emotion").and_then(|x| x.as_str()), Some("fear"));
    assert_eq!(v.get("text").and_then(|x| x.as_str()), Some(text));
    assert_eq!(v.as_object().map(|o| o.len()), Some(3));
}

#[test]
fn frame_response_puts_the_literals_together() {
    assert_eq!(
        frame_response("\"llm\"", "\"joy\"", Some("\"t\"")),
        "{\"type\":\"llm\",\"emotion\":\"joy\",\"text\":\"t\"}"
    );
    assert_eq!(frame_response("A", "B", None), "{\"type\":A,\"emotion\":B}");
    assert_eq!(frame_response("", "", Some("")), "{\"type\":,\"emotion\":,\"text\":}");
}

fn hello_version(m: Option<DeviceMessage>) -> Option<String> {
    match m {
        Some(DeviceMessage::Hello { version }) => Some(version),
        _ => None,
    }
}

fn event_pair(m: Option<DeviceMessage>) -> Option<(String, String)> {
    match m {
        Some(DeviceMessage::Event { key, value }) => Some((key, value)),
        _ => None,
    }
}

#[test]
fn decode_hello() {
    assert_eq!(
        hello_version(DeviceMessage::decode("{\"type\":\"hello\",\"version\":\"1.2.3\"}")),
        Some("1.2.3".to_string())
    );
    assert_eq!(
        hello_version(DeviceMessage::decode(" {\"version\": \"v\\n2\", \"type\": \"hello\", \"extra\": 1} ")),
        Some("v\n2".to_string())
    );
}

#[test]
fn decode_event() {
    assert_eq!(
        event_pair(DeviceMessage::decode("{\"type\":\"event\",\"key\":\"button\",\"value\":\"down\"}")),
        Some(("button".to_string(), "down".to_string()))
    );
    assert_eq!(
        event_pair(DeviceMessage::decode("{\"type\":\"event\",\"key\":\"\",\"value\":\"\"}")),
        Some(("".to_string(), "".to_string()))
    );
}

#[test]
fn decode_refuses_other_texts() {
    for text in [
        "",
        "ping",
        "hello",
        "{}",
        "[]",
        "null",
        "{\"type\":\"hello\"}",
        "{\"type\":\"hello\",\"version\":1}",
        "{\"type\":\"Hello\",\"version\":\"1\"}",
        "{\"type\":\"event\",\"key\":\"k\"}",
        "{\"type\":\"event\",\"value\":\"v\"}",
        "{\"type\":\"event\",\"key\":1,\"value\":\"v\"}",
        "{\"type\":\"bye\",\"version\":\"1\"}",
        "{\"type\":7,\"version\":\"1\"}",
        "{\"version\":\"1\"}",
        "{\"type\":\"hello\",\"version\":\"1\"",
    ] {
        assert!(DeviceMessage::decode(text).is_none(), "text {:?}", text);
    }
}

#[test]
fn from_fields_follows_the_tag() {
    let s = |t: &str| Some(t.to_string());
    assert_eq!(hello_version(DeviceMessage::from_fields(s("hello"), s("9"), None, None)), s("9"));
    assert_eq!(
        hello_version(DeviceMessage::from_fields(s("hello"), s("9"), s("k"), s("v"))),
        s("9")
    );
    assert!(DeviceMessage::from_fields(s("hello"), None, s("k"), s("v")).is_none());
    assert_eq!(
        event_pair(DeviceMessage::from_fields(s("event"), s("9"), s("k"), s("v"))),
        Some(("k".to_string(), "v".to_string()))
    );
    assert!(DeviceMessage::from_fields(s("event"), s("9"), None, s("v")).is_none());
    assert!(DeviceMessage::from_fields(s("event"), s("9"), s("k"), None).is_none());
    assert!(DeviceMessage::from_fields(None, s("9"), s("k"), s("v")).is_none());
    assert!(DeviceMessage::from_fields(s("other"), s("9"), s("k"), s("v")).is_none());
}
