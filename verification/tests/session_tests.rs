use heart_mirror::emotion::EmotionAnalyzer;
use heart_mirror::session::{
    handle_connection, handle_text_message, process_complete_speech, ConnectionAction, ConnectionEvent,
    ConnectionSession, Stage, PING, PONG,
};
use heart_mirror::speech::DEGENERATE_TEXT;

fn opened() -> (ConnectionSession, EmotionAnalyzer) {
    let analyzer = EmotionAnalyzer::new();
    let mut session = ConnectionSession::new();
    let action = handle_connection(&mut session, &analyzer, ConnectionEvent::Opened);
    assert!(matches!(action, ConnectionAction::Greet(_)));
    (session, analyzer)
}

fn audio(value: i16, len: usize) -> ConnectionEvent {
    ConnectionEvent::Audio(Some(vec![value; len]))
}

/// Feeds an utterance of 30 loud and 12 quiet blocks and returns the action
/// of the last block.
fn speak(session: &mut ConnectionSession, analyzer: &EmotionAnalyzer) -> ConnectionAction {
    for _ in 0..30 {
        let a = handle_connection(session, analyzer, audio(5000, 320));
        assert!(matches!(a, ConnectionAction::Nothing));
    }
    for _ in 0..11 {
        let a = handle_connection(session, analyzer, audio(3, 320));
        assert!(matches!(a, ConnectionAction::Nothing));
    }
    handle_connection(session, analyzer, audio(3, 320))
}

#[test]
fn ping_and_pong_texts() {
    assert_eq!(PING, "ping");
    assert_eq!(PONG, "pong");
}

#[test]
fn new_connection_is_greeted_once() {
    let analyzer = EmotionAnalyzer::new();
    let mut session = ConnectionSession::new();
    assert!(matches!(session.stage(), Stage::Opening));
    match handle_connection(&mut session, &analyzer, ConnectionEvent::Opened) {
        ConnectionAction::Greet(r) => {
            assert_eq!(
                r.to_json(),
                Some("{\"type\":\"llm\",\"emotion\":\"calm\",\"text\":\"Connected & Ready\"}".to_string())
            );
        }
        other => panic!("unexpected action {:?}", other),
    }
    assert!(matches!(session.stage(), Stage::Listening));
    let again = handle_connection(&mut session, &analyzer, ConnectionEvent::Opened);
    assert!(matches!(again, ConnectionAction::Nothing));
    assert!(matches!(session.stage(), Stage::Listening));
}

#[test]
fn nothing_is_handled_before_the_greeting() {
    let analyzer = EmotionAnalyzer::new();
    let mut session = ConnectionSession::new();
    let a = handle_connection(&mut session, &analyzer, ConnectionEvent::Text("ping".to_string()));
    assert!(matches!(a, ConnectionAction::Nothing));
    let a = handle_connection(&mut session, &analyzer, audio(5000, 320));
    assert!(matches!(a, ConnectionAction::Nothing));
    assert!(matches!(session.stage(), Stage::Opening));
}

#[test]
fn text_with_ping_is_answered_with_pong() {
    let (mut session, analyzer) = opened();
    for text in ["ping", "{\"type\":\"ping\"}", "xxpingxx", "{\"type\":\"event\",\"key\":\"ping\",\"value\":\"1\"}"] {
        let a = handle_connection(&mut session, &analyzer, ConnectionEvent::Text(text.to_string()));
        assert!(matches!(a, ConnectionAction::Pong), "text {:?}", text);
        assert!(matches!(session.stage(), Stage::Listening));
    }
}

#[test]
fn other_text_is_answered_with_nothing() {
    let (mut session, analyzer) = opened();
    for text in ["", "pong", "PING", "p ing", "{\"type\":\"hello\",\"version\":\"1\"}", "raw text"] {
        let a = handle_connection(&mut session, &analyzer, ConnectionEvent::Text(text.to_string()));
        assert!(matches!(a, ConnectionAction::Nothing), "text {:?}", text);
        assert!(matches!(session.stage(), Stage::Listening));
    }
}

#[test]
fn handle_text_message_decides_on_ping() {
    assert!(matches!(handle_text_message("ping"), ConnectionAction::Pong));
    assert!(matches!(handle_text_message("a ping b"), ConnectionAction::Pong));
    assert!(matches!(handle_text_message("pin"), ConnectionAction::Nothing));
    assert!(matches!(handle_text_message(""), ConnectionAction::Nothing));
}

#[test]
fn frames_that_complete_nothing_send_nothing() {
    let (mut session, analyzer) = opened();
    for _ in 0..50 {
        let a = handle_connection(&mut session, &analyzer, audio(100, 320));
        assert!(matches!(a, ConnectionAction::Nothing));
    }
    let a = handle_connection(&mut session, &analyzer, ConnectionEvent::Audio(None));
    assert!(matches!(a, ConnectionAction::Nothing));
    let a = handle_connection(&mut session, &analyzer, ConnectionEvent::Other);
    assert!(matches!(a, ConnectionAction::Nothing));
    assert!(matches!(session.stage(), Stage::Listening));
}

#[test]
fn completed_utterance_goes_to_the_recognizer() {
    let (mut session, analyzer) = opened();
    match speak(&mut session, &analyzer) {
        ConnectionAction::Recognize(u) => {
            assert_eq!(u.samples.len(), 42 * 320);
            assert_eq!(u.peak_energy, 5000);
            assert_eq!(&u.samples[..30 * 320], &vec![5000i16; 30 * 320][..]);
            assert_eq!(&u.samples[30 * 320..], &vec![3i16; 12 * 320][..]);
        }
        other => panic!("unexpected action {:?}", other),
    }
    assert!(matches!(session.stage(), Stage::Recognizing));
}

#[test]
fn whole_round_of_one_utterance() {
    let (mut session, analyzer) = opened();
    assert!(matches!(speak(&mut session, &analyzer), ConnectionAction::Recognize(_)));
    let a = handle_connection(&mut session, &analyzer,
        ConnectionEvent::Recognized("  I am so happy today \n".to_string()),
    );
    match a {
        ConnectionAction::Classify(request) => {
            assert_eq!(request.model, "qwen2.5:1.5b");
            assert_eq!(request.prompt, analyzer.build_emotion_prompt("I am so happy today"));
            assert!(!request.stream);
        }
        other => panic!("unexpected action {:?}", other),
    }
    match session.stage() {
        Stage::Classifying { text } => assert_eq!(text, "I am so happy today"),
        other => panic!("unexpected stage {:?}", other),
    }
    let a = handle_connection(&mut session, &analyzer,
        ConnectionEvent::Classified(Some("{\"response\":\"Joy\"}".to_string())),
    );
    match a {
        ConnectionAction::Publish(r) => {
            assert_eq!(r.msg_type, "llm");
            assert_eq!(r.emotion, "joy");
            assert_eq!(r.text.as_deref(), Some("I am so happy today"));
            assert_eq!(
                r.to_json(),
                Some("{\"type\":\"llm\",\"emotion\":\"joy\",\"text\":\"I am so happy today\"}".to_string())
            );
        }
        other => panic!("unexpected action {:?}", other),
    }
    assert!(matches!(session.stage(), Stage::Listening));
    // and the next utterance is taken like the first
    assert!(matches!(speak(&mut session, &analyzer), ConnectionAction::Recognize(_)));
}

#[test]
fn failed_classification_publishes_neutral() {
    let (mut session, analyzer) = opened();
    assert!(matches!(speak(&mut session, &analyzer), ConnectionAction::Recognize(_)));
    let a = handle_connection(&mut session, &analyzer, ConnectionEvent::Recognized("hello".to_string()));
    assert!(matches!(a, ConnectionAction::Classify(_)));
    match handle_connection(&mut session, &analyzer, ConnectionEvent::Classified(None)) {
        ConnectionAction::Publish(r) => {
            assert_eq!(r.emotion, "neutral");
            assert_eq!(r.text.as_deref(), Some("hello"));
        }
        other => panic!("unexpected action {:?}", other),
    }
}

#[test]
fn malformed_classification_publishes_neutral() {
    let (mut session, analyzer) = opened();
    assert!(matches!(speak(&mut session, &analyzer), ConnectionAction::Recognize(_)));
    let a = handle_connection(&mut session, &analyzer, ConnectionEvent::Recognized("hello".to_string()));
    assert!(matches!(a, ConnectionAction::Classify(_)));
    let body = "<html>502 Bad Gateway</html>".to_string();
    match handle_connection(&mut session, &analyzer, ConnectionEvent::Classified(Some(body))) {
        ConnectionAction::Publish(r) => assert_eq!(r.emotion, "neutral"),
        other => panic!("unexpected action {:?}", other),
    }
}

#[test]
fn degenerate_text_is_suppressed() {
    let (mut session, analyzer) = opened();
    // a very loud utterance
    for _ in 0..30 {
        let a = handle_connection(&mut session, &analyzer, audio(i16::MIN, 320));
        assert!(matches!(a, ConnectionAction::Nothing));
    }
    let mut last = ConnectionAction::Nothing;
    for _ in 0..12 {
        last = handle_connection(&mut session, &analyzer, audio(0, 320));
    }
    match last {
        ConnectionAction::Recognize(u) => assert_eq!(u.peak_energy, 32768),
        other => panic!("unexpected action {:?}", other),
    }
    let recognized = format!("  {}\n", DEGENERATE_TEXT);
    let a = handle_connection(&mut session, &analyzer, ConnectionEvent::Recognized(recognized));
    assert!(matches!(a, ConnectionAction::Nothing));
    assert!(matches!(session.stage(), Stage::Listening));
}

#[test]
fn empty_text_is_suppressed() {
    for recognized in ["", "   ", "\n"] {
        let (mut session, analyzer) = opened();
        assert!(matches!(speak(&mut session, &analyzer), ConnectionAction::Recognize(_)));
        let a = handle_connection(&mut session, &analyzer, ConnectionEvent::Recognized(recognized.to_string()));
        assert!(matches!(a, ConnectionAction::Nothing));
        assert!(matches!(session.stage(), Stage::Listening));
    }
}

#[test]
fn process_complete_speech_decides_on_the_text() {
    let analyzer = EmotionAnalyzer::with_model("m");
    let (stage, action) = process_complete_speech(&analyzer, " hi ");
    assert!(matches!(stage, Stage::Classifying { ref text } if text == "hi"));
    match action {
        ConnectionAction::Classify(r) => {
            assert_eq!(r.model, "m");
            assert_eq!(r.prompt, analyzer.build_emotion_prompt("hi"));
        }
        other => panic!("unexpected action {:?}", other),
    }
    let (stage, action) = process_complete_speech(&analyzer, DEGENERATE_TEXT);
    assert!(matches!(stage, Stage::Listening));
    assert!(matches!(action, ConnectionAction::Nothing));
}

#[test]
fn events_out_of_turn_change_nothing() {
    let (mut session, analyzer) = opened();
    let a = handle_connection(&mut session, &analyzer, ConnectionEvent::Recognized("hello".to_string()));
    assert!(matches!(a, ConnectionAction::Nothing));
    let a = handle_connection(&mut session, &analyzer, ConnectionEvent::Classified(None));
    assert!(matches!(a, ConnectionAction::Nothing));
    assert!(matches!(session.stage(), Stage::Listening));
    assert!(matches!(speak(&mut session, &analyzer), ConnectionAction::Recognize(_)));
    let a = handle_connection(&mut session, &analyzer, ConnectionEvent::Text("ping".to_string()));
    assert!(matches!(a, ConnectionAction::Nothing));
    let a = handle_connection(&mut session, &analyzer, ConnectionEvent::Classified(None));
    assert!(matches!(a, ConnectionAction::Nothing));
    assert!(matches!(session.stage(), Stage::Recognizing));
}

#[test]
fn close_ends_the_session_in_any_stage() {
    let analyzer = EmotionAnalyzer::new();
    let mut fresh = ConnectionSession::new();
    assert!(!fresh.is_closed());
    assert!(matches!(handle_connection(&mut fresh, &analyzer, ConnectionEvent::Closed), ConnectionAction::Finish));
    assert!(fresh.is_closed());

    let (mut listening, analyzer) = opened();
    let a = handle_connection(&mut listening, &analyzer, audio(5000, 320));
    assert!(matches!(a, ConnectionAction::Nothing));
    assert!(matches!(handle_connection(&mut listening, &analyzer, ConnectionEvent::Closed), ConnectionAction::Finish));
    assert!(listening.is_closed());

    let (mut busy, analyzer) = opened();
    assert!(matches!(speak(&mut busy, &analyzer), ConnectionAction::Recognize(_)));
    assert!(matches!(handle_connection(&mut busy, &analyzer, ConnectionEvent::Closed), ConnectionAction::Finish));
    assert!(busy.is_closed());
    // nothing happens after the end
    for event in [
        ConnectionEvent::Opened,
        ConnectionEvent::Text("ping".to_string()),
        ConnectionEvent::Recognized("x".to_string()),
        ConnectionEvent::Closed,
    ] {
        assert!(matches!(handle_connection(&mut busy, &analyzer, event), ConnectionAction::Nothing));
        assert!(busy.is_closed());
    }
}
