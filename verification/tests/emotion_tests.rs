use heart_mirror::emotion::{
    frame_request, Emotion, EmotionAnalyzer, OllamaRequest, ANALYZE_TIMEOUT_SECS, DEFAULT_MODEL,
    ENDPOINT, PROMPT_HEAD, PROMPT_TAIL, TEST_PROMPT, TEST_TIMEOUT_SECS,
};

#[test]
fn labels_of_the_enumeration() {
    assert_eq!(Emotion::Joy.label(), "joy");
    assert_eq!(Emotion::Anger.label(), "anger");
    assert_eq!(Emotion::Sadness.label(), "sadness");
    assert_eq!(Emotion::Fear.label(), "fear");
    assert_eq!(Emotion::Calm.label(), "calm");
    assert_eq!(Emotion::Neutral.label(), "neutral");
    assert_eq!(Emotion::Sleep.label(), "sleep");
}

#[test]
fn detect_finds_each_label() {
    assert_eq!(Emotion::detect("joy"), Emotion::Joy);
    assert_eq!(Emotion::detect("anger"), Emotion::Anger);
    assert_eq!(Emotion::detect("sadness"), Emotion::Sadness);
    assert_eq!(Emotion::detect("fear"), Emotion::Fear);
    assert_eq!(Emotion::detect("calm"), Emotion::Calm);
    assert_eq!(Emotion::detect("neutral"), Emotion::Neutral);
    assert_eq!(Emotion::detect("sleep"), Emotion::Sleep);
}

#[test]
fn detect_takes_the_first_label_of_the_enumeration() {
    // the order of the enumeration decides, not the place in the text
    assert_eq!(Emotion::detect("sleep, or joy"), Emotion::Joy);
    assert_eq!(Emotion::detect("calm fear"), Emotion::Fear);
    assert_eq!(Emotion::detect("neutral sleep"), Emotion::Neutral);
    assert_eq!(Emotion::detect("sleep sadness anger"), Emotion::Anger);
}

#[test]
fn detect_finds_a_label_inside_other_text() {
    assert_eq!(Emotion::detect("the sentiment is: sadness."), Emotion::Sadness);
    assert_eq!(Emotion::detect("enjoyment"), Emotion::Joy);
    assert_eq!(Emotion::detect("asleep"), Emotion::Sleep);
}

#[test]
fn detect_falls_back_to_neutral() {
    assert_eq!(Emotion::detect(""), Emotion::Neutral);
    assert_eq!(Emotion::detect("happy"), Emotion::Neutral);
    assert_eq!(Emotion::detect("JOY"), Emotion::Neutral);
    assert_eq!(Emotion::detect("jo y"), Emotion::Neutral);
}

#[test]
fn reply_is_trimmed_and_lowercased() {
    let a = EmotionAnalyzer::new();
    assert_eq!(a.validate_emotion_response("joy"), "joy");
    assert_eq!(a.validate_emotion_response("  Joy\n"), "joy");
    assert_eq!(a.validate_emotion_response("ANGER"), "anger");
    assert_eq!(a.validate_emotion_response("Sentiment: SadNess!"), "sadness");
    assert_eq!(a.validate_emotion_response("I think FEAR or calm"), "fear");
    assert_eq!(a.validate_emotion_response("Sleep"), "sleep");
}

#[test]
fn reply_without_a_label_is_neutral() {
    let a = EmotionAnalyzer::new();
    assert_eq!(a.validate_emotion_response(""), "neutral");
    assert_eq!(a.validate_emotion_response("   "), "neutral");
    assert_eq!(a.validate_emotion_response("happy"), "neutral");
    assert_eq!(a.validate_emotion_response("\u{5f00}\u{5fc3}"), "neutral");
}

#[test]
fn failed_call_is_neutral() {
    let a = EmotionAnalyzer::new();
    assert_eq!(a.analyze(None), "neutral");
}

#[test]
fn malformed_body_is_neutral() {
    let a = EmotionAnalyzer::new();
    for body in [
        "",
        "joy",
        "not json at all",
        "{",
        "{\"response\":",
        "[]",
        "[\"joy\"]",
        "\"joy\"",
        "42",
        "null",
        "{}",
        "{\"reply\":\"joy\"}",
        "{\"response\":42}",
        "{\"response\":null}",
        "{\"response\":[\"joy\"]}",
        "{\"response\":{\"label\":\"joy\"}}",
        "{\"response\":\"joy\"} trailing",
        "{\"error\":\"model not found\"}",
    ] {
        assert_eq!(a.analyze(Some(body)), "neutral", "body {:?}", body);
    }
}

#[test]
fn body_with_a_reply_gives_its_label() {
    let a = EmotionAnalyzer::new();
    assert_eq!(a.analyze(Some("{\"response\":\"joy\"}")), "joy");
    assert_eq!(a.analyze(Some("{\"response\":\" Anger\\n\"}")), "anger");
    assert_eq!(
        a.analyze(Some(
            "{\"model\":\"qwen2.5:1.5b\",\"response\":\"Sadness\",\"done\":true,\"eval_count\":3}"
        )),
        "sadness"
    );
    assert_eq!(a.analyze(Some(" { \"response\" : \"calm\" } ")), "calm");
    assert_eq!(a.analyze(Some("{\"response\":\"\\u0073leep\"}")), "sleep");
    assert_eq!(a.analyze(Some("{\"response\":\"bored\"}")), "neutral");
    assert_eq!(a.analyze(Some("{\"response\":\"\"}")), "neutral");
}

#[test]
fn label_is_always_of_the_enumeration() {
    let a = EmotionAnalyzer::new();
    let labels = ["joy", "anger", "sadness", "fear", "calm", "neutral", "sleep"];
    for body in [
        None,
        Some(""),
        Some("{\"response\":\"JOYFUL and angry\"}"),
        Some("{\"response\":\"???\"}"),
        Some("{\"response\":\"fearsome\"}"),
        Some("\u{0}"),
    ] {
        let label = a.analyze(body);
        assert!(labels.contains(&label.as_str()));
    }
}

#[test]
fn analyzer_knows_its_model() {
    assert_eq!(DEFAULT_MODEL, "qwen2.5:1.5b");
    assert_eq!(EmotionAnalyzer::new().model_name(), "qwen2.5:1.5b");
    assert_eq!(EmotionAnalyzer::with_model("llama3").model_name(), "llama3");
    assert_eq!(ENDPOINT, "http://127.0.0.1:11434/api/generate");
    assert_eq!(ANALYZE_TIMEOUT_SECS, 5);
    assert_eq!(TEST_TIMEOUT_SECS, 10);
}

#[test]
fn prompt_embeds_the_text_and_the_enumeration() {
    let a = EmotionAnalyzer::new();
    let expected = "Analyze the sentiment of the following text. ONLY output ONE word, strictly from this list: [\"joy\", \"anger\", \"sadness\", \"fear\", \"calm\", \"neutral\", \"sleep\"]. Do NOT output anything else.\n\nText: I am fine\n\nSentiment:";
    assert_eq!(a.build_emotion_prompt("I am fine"), expected);
    assert_eq!(a.build_emotion_prompt(""), format!("{}{}", PROMPT_HEAD, PROMPT_TAIL));
    let labels = ["joy", "anger", "sadness", "fear", "calm", "neutral", "sleep"];
    assert_eq!(
        a.build_emotion_prompt("x"),
        format!(
            "Analyze the sentiment of the following text. ONLY output ONE word, strictly from this list: {:?}. Do NOT output anything else.\n\nText: {}\n\nSentiment:",
            labels, "x"
        )
    );
}

#[test]
fn requests_name_model_and_prompt() {
    let a = EmotionAnalyzer::with_model("m1");
    let r = a.analyze_request("hello");
    assert_eq!(r.model, "m1");
    assert_eq!(r.prompt, a.build_emotion_prompt("hello"));
    assert!(!r.stream);
    let t = a.test_request();
    assert_eq!(t.model, "m1");
    assert_eq!(t.prompt, "\u{6d4b}\u{8bd5}");
    assert_eq!(t.prompt, TEST_PROMPT);
    assert!(!t.stream);
}

#[test]
fn request_as_json() {
    let r = OllamaRequest { model: "qwen2.5:1.5b".to_string(), prompt: "hi".to_string(), stream: false };
    assert_eq!(
        r.to_json(),
        Some("{\"model\":\"qwen2.5:1.5b\",\"prompt\":\"hi\",\"stream\":false}".to_string())
    );
    let r = OllamaRequest { model: "m".to_string(), prompt: "a \"b\"\n\\c\t\u{1}".to_string(), stream: true };
    assert_eq!(
        r.to_json(),
        Some("{\"model\":\"m\",\"prompt\":\"a \\\"b\\\"\\n\\\\c\\t\\u0001\",\"stream\":true}".to_string())
    );
}

#[test]
fn request_json_reads_back() {
    let a = EmotionAnalyzer::new();
    let r = a.analyze_request("He said \"no\"\nand left \u{4f60}");
    let json = r.to_json().expect("json");
    let v = serde_json::from_str::<serde_json::Value>(&json).expect("valid json");
    assert_eq!(v.get("model").and_then(|m| m.as_str()), Some("qwen2.5:1.5b"));
    assert_eq!(v.get("prompt").and_then(|m| m.as_str()), Some(r.prompt.as_str()));
    assert_eq!(v.get("stream").and_then(|m| m.as_bool()), Some(false));
}

#[test]
fn frame_request_puts_the_literals_together() {
    assert_eq!(
        frame_request("\"m\"", "\"p\"", false),
        "{\"model\":\"m\",\"prompt\":\"p\",\"stream\":false}"
    );
    assert_eq!(frame_request("A", "B", true), "{\"model\":A,\"prompt\":B,\"stream\":true}");
}

#[test]
fn connectivity_check_takes_the_success_statuses() {
    assert!(!EmotionAnalyzer::test_succeeded(0));
    assert!(!EmotionAnalyzer::test_succeeded(199));
    assert!(EmotionAnalyzer::test_succeeded(200));
    assert!(EmotionAnalyzer::test_succeeded(204));
    assert!(EmotionAnalyzer::test_succeeded(299));
    assert!(!EmotionAnalyzer::test_succeeded(300));
    assert!(!EmotionAnalyzer::test_succeeded(404));
    assert!(!EmotionAnalyzer::test_succeeded(500));
}
