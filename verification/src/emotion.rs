//! Sentiment classification: the fixed set of labels, the request put to
//! the language model, and the rule that turns its reply into a label.
//!
//! The call to the model is made by the caller. The library says what to
//! send and what the reply, or the failure of the call, means.

use crate::json::{json_quote, json_string, json_text_field, text_field};
use crate::text::{contains, is_substring, to_lowercase, trim, trimmed, unicode_lowercase};
use vstd::prelude::*;
use vstd::string::StringExecFns;

verus! {

/// The labels a text can be given, in the order in which a reply is
/// searched for them.
#[derive(Clone, Copy, Debug, PartialEq, Eq, Structural)]
pub enum Emotion {
    Joy,
    Anger,
    Sadness,
    Fear,
    Calm,
    Neutral,
    Sleep,
}

/// The model asked when no other is named.
pub const DEFAULT_MODEL: &'static str = "qwen2.5:1.5b";

/// Where the language model is asked.
pub const ENDPOINT: &'static str = "http://127.0.0.1:11434/api/generate";

/// Seconds after which a classification call is given up.
pub const ANALYZE_TIMEOUT_SECS: u64 = 5;

/// Seconds after which the connectivity check is given up.
pub const TEST_TIMEOUT_SECS: u64 = 10;

/// What stands in a prompt before the text.
pub const PROMPT_HEAD: &'static str =
    "Analyze the sentiment of the following text. ONLY output ONE word, strictly from this list: [\"joy\", \"anger\", \"sadness\", \"fear\", \"calm\", \"neutral\", \"sleep\"]. Do NOT output anything else.\n\nText: ";

/// What stands in a prompt after the text.
pub const PROMPT_TAIL: &'static str = "\n\nSentiment:";

/// The prompt of the connectivity check.
pub const TEST_PROMPT: &'static str = "\u{6d4b}\u{8bd5}";

impl Emotion {
    /// The label as it is written on the wire.
    pub open spec fn label_spec(self) -> Seq<char> {
        match self {
            Emotion::Joy => "joy"@,
            Emotion::Anger => "anger"@,
            Emotion::Sadness => "sadness"@,
            Emotion::Fear => "fear"@,
            Emotion::Calm => "calm"@,
            Emotion::Neutral => "neutral"@,
            Emotion::Sleep => "sleep"@,
        }
    }

    /// The first label, in the order of the enumeration, that stands
    /// somewhere in `text`; `Neutral` if none does.
    pub open spec fn detect_spec(text: Seq<char>) -> Emotion {
        if is_substring("joy"@, text) {
            Emotion::Joy
        } else if is_substring("anger"@, text) {
            Emotion::Anger
        } else if is_substring("sadness"@, text) {
            Emotion::Sadness
        } else if is_substring("fear"@, text) {
            Emotion::Fear
        } else if is_substring("calm"@, text) {
            Emotion::Calm
        } else if is_substring("neutral"@, text) {
            Emotion::Neutral
        } else if is_substring("sleep"@, text) {
            Emotion::Sleep
        } else {
            Emotion::Neutral
        }
    }

    /// The label that a reply of the model stands for: the reply is trimmed
    /// and put in lower case, then searched for the labels.
    pub open spec fn of_reply(reply: Seq<char>) -> Emotion {
        Emotion::detect_spec(unicode_lowercase(trimmed(reply)))
    }

    /// The label as it is written on the wire.
    pub fn label(&self) -> (s: &'static str)
        ensures
            s@ == self.label_spec(),
    {
        match self {
            Emotion::Joy => "joy",
            Emotion::Anger => "anger",
            Emotion::Sadness => "sadness",
            Emotion::Fear => "fear",
            Emotion::Calm => "calm",
            Emotion::Neutral => "neutral",
            Emotion::Sleep => "sleep",
        }
    }

    /// Searches a text, already in lower case, for the labels.
    pub fn detect(text: &str) -> (e: Emotion)
        ensures
            e == Emotion::detect_spec(text@),
    {
        if contains(text, "joy") {
            Emotion::Joy
        } else if contains(text, "anger") {
            Emotion::Anger
        } else if contains(text, "sadness") {
            Emotion::Sadness
        } else if contains(text, "fear") {
            Emotion::Fear
        } else if contains(text, "calm") {
            Emotion::Calm
        } else if contains(text, "neutral") {
            Emotion::Neutral
        } else if contains(text, "sleep") {
            Emotion::Sleep
        } else {
            Emotion::Neutral
        }
    }
}

/// The body of a request to the language model.
#[derive(Debug)]
pub struct OllamaRequest {
    pub model: String,
    pub prompt: String,
    pub stream: bool,
}

/// A request as a mathematical value.
pub struct RequestView {
    pub model: Seq<char>,
    pub prompt: Seq<char>,
    pub stream: bool,
}

impl View for OllamaRequest {
    type V = RequestView;

    open spec fn view(&self) -> RequestView {
        RequestView { model: self.model@, prompt: self.prompt@, stream: self.stream }
    }
}

/// The JSON object of a request, given the string literals of its text
/// fields: `model`, `prompt` and `stream`, in this order and without spaces.
pub open spec fn request_json(model: Seq<char>, prompt: Seq<char>, stream: bool) -> Seq<char> {
    "{\"model\":"@ + model + ",\"prompt\":"@ + prompt + ",\"stream\":"@ + if stream {
        "true"@
    } else {
        "false"@
    } + "}"@
}

/// A request as JSON: its text fields as string literals, put together
/// with `stream` as an object. There is none where one of the literals
/// cannot be written.
pub open spec fn encoded_request(r: RequestView) -> Option<Seq<char>> {
    match (json_string(r.model), json_string(r.prompt)) {
        (Some(model), Some(prompt)) => Some(request_json(model, prompt, r.stream)),
        _ => None,
    }
}

/// Puts the JSON object of a request together from the string literals of
/// its text fields.
pub fn frame_request(model: &str, prompt: &str, stream: bool) -> (json: String)
    ensures
        json@ == request_json(model@, prompt@, stream),
{
    let mut json = String::from_str("{\"model\":");
    json.append(model);
    json.append(",\"prompt\":");
    json.append(prompt);
    json.append(",\"stream\":");
    if stream {
        json.append("true");
    } else {
        json.append("false");
    }
    json.append("}");
    json
}

impl OllamaRequest {
    /// The request as JSON, the body of the call to the language model:
    /// the object of [`encoded_request`].
    ///
    /// The string literals are written by `serde_json`; `None` comes back
    /// exactly where it fails to write one of them.
    pub fn to_json(&self) -> (json: Option<String>)
        ensures
            match json {
                Some(j) => encoded_request(self@) == Some(j@),
                None => encoded_request(self@) is None,
            },
    {
        let model = match json_quote(self.model.as_str()) {
            Some(q) => q,
            None => { return None; },
        };
        let prompt = match json_quote(self.prompt.as_str()) {
            Some(q) => q,
            None => { return None; },
        };
        Some(frame_request(model.as_str(), prompt.as_str(), self.stream))
    }
}

/// The prompt that asks for the sentiment of `text`.
pub open spec fn prompt_for(text: Seq<char>) -> Seq<char> {
    PROMPT_HEAD@ + text + PROMPT_TAIL@
}

/// The classifier of one server: it knows which model to ask.
#[derive(Debug)]
pub struct EmotionAnalyzer {
    model_name: String,
}

impl EmotionAnalyzer {
    /// The model this classifier asks.
    pub closed spec fn model(&self) -> Seq<char> {
        self.model_name@
    }

    /// A classifier that asks the default model.
    pub fn new() -> (analyzer: EmotionAnalyzer)
        ensures
            analyzer.model() == DEFAULT_MODEL@,
    {
        EmotionAnalyzer { model_name: String::from_str(DEFAULT_MODEL) }
    }

    /// A classifier that asks the model of the given name.
    pub fn with_model(model_name: &str) -> (analyzer: EmotionAnalyzer)
        ensures
            analyzer.model() == model_name@,
    {
        EmotionAnalyzer { model_name: String::from_str(model_name) }
    }

    /// The name of the model this classifier asks.
    pub fn model_name(&self) -> (name: &str)
        ensures
            name@ == self.model(),
    {
        self.model_name.as_str()
    }

    /// The prompt that asks for the sentiment of `text`.
    pub fn build_emotion_prompt(&self, text: &str) -> (prompt: String)
        ensures
            prompt@ == prompt_for(text@),
    {
        let mut prompt = String::from_str(PROMPT_HEAD);
        prompt.append(text);
        prompt.append(PROMPT_TAIL);
        prompt
    }

    /// The request that asks this classifier's model for the sentiment of
    /// `text`.
    pub fn analyze_request(&self, text: &str) -> (request: OllamaRequest)
        ensures
            request@ == (RequestView {
                model: self.model(),
                prompt: prompt_for(text@),
                stream: false,
            }),
    {
        OllamaRequest {
            model: self.model_name.clone(),
            prompt: self.build_emotion_prompt(text),
            stream: false,
        }
    }

    /// The request of the connectivity check.
    pub fn test_request(&self) -> (request: OllamaRequest)
        ensures
            request@ == (RequestView { model: self.model(), prompt: TEST_PROMPT@, stream: false }),
    {
        OllamaRequest {
            model: self.model_name.clone(),
            prompt: String::from_str(TEST_PROMPT),
            stream: false,
        }
    }

    /// Tells whether an HTTP status answers the connectivity check: the
    /// statuses from 200 to 299 do.
    pub fn test_succeeded(status: u16) -> (ok: bool)
        ensures
            ok == (200 <= status < 300),
    {
        200 <= status && status < 300
    }

    /// Turns the reply of the model into a label: the first label, in the
    /// order of the enumeration, that the reply holds once trimmed and put
    /// in lower case; `neutral` if it holds none.
    pub fn validate_emotion_response(&self, response: &str) -> (label: String)
        ensures
            label@ == Emotion::of_reply(response@).label_spec(),
    {
        let emotion = to_lowercase(trim(response));
        String::from_str(Emotion::detect(emotion.as_str()).label())
    }

    /// The label for the outcome of a classification call. `outcome` is the
    /// body of the model's answer, `None` where the call failed or timed
    /// out. The label is that of the string which the body, a JSON object,
    /// holds under `response`; it is `neutral` where the call failed and
    /// where the body holds no such string. This never fails, and the label
    /// is always one of the enumeration.
    pub fn analyze(&self, outcome: Option<&str>) -> (label: String)
        ensures
            label@ == analyze_spec(
                match outcome {
                    Some(body) => Some(body@),
                    None => None,
                },
            ),
    {
        match outcome {
            Some(body) => match text_field(body, "response") {
                Some(reply) => self.validate_emotion_response(reply.as_str()),
                None => String::from_str(Emotion::Neutral.label()),
            },
            None => String::from_str(Emotion::Neutral.label()),
        }
    }
}

/// The reply of the model in the outcome of a classification call: the
/// string that the body holds under `response`.
pub open spec fn reply_of(outcome: Option<Seq<char>>) -> Option<Seq<char>> {
    match outcome {
        Some(body) => json_text_field(body, "response"@),
        None => None,
    }
}

/// The label for the outcome of a classification call.
pub open spec fn analyze_spec(outcome: Option<Seq<char>>) -> Seq<char> {
    match reply_of(outcome) {
        Some(reply) => Emotion::of_reply(reply).label_spec(),
        None => Emotion::Neutral.label_spec(),
    }
}

/// Tells whether `label` is one of the seven labels.
pub open spec fn is_label(label: Seq<char>) -> bool {
    exists|e: Emotion| label == e.label_spec()
}

/// Fallback: whatever the outcome of the classification call, the label is
/// one of the enumeration. It is `neutral` where the call failed, where the
/// body of the answer holds no reply, and where the reply, trimmed and in
/// lower case, holds none of the labels.
pub proof fn lemma_sentiment_fallback(outcome: Option<Seq<char>>)
    ensures
        is_label(analyze_spec(outcome)),
        outcome is None ==> analyze_spec(outcome) == "neutral"@,
        reply_of(outcome) is None ==> analyze_spec(outcome) == "neutral"@,
        reply_of(outcome) matches Some(reply) && (forall|e: Emotion|
            !is_substring(#[trigger] e.label_spec(), unicode_lowercase(trimmed(reply))))
            ==> analyze_spec(outcome) == "neutral"@,
{
    match reply_of(outcome) {
        Some(reply) => {
            let lowered = unicode_lowercase(trimmed(reply));
            assert(analyze_spec(outcome) == Emotion::of_reply(reply).label_spec());
            if forall|e: Emotion| !is_substring(#[trigger] e.label_spec(), lowered) {
                assert(!is_substring(Emotion::Joy.label_spec(), lowered));
                assert(!is_substring(Emotion::Anger.label_spec(), lowered));
                assert(!is_substring(Emotion::Sadness.label_spec(), lowered));
                assert(!is_substring(Emotion::Fear.label_spec(), lowered));
                assert(!is_substring(Emotion::Calm.label_spec(), lowered));
                assert(!is_substring(Emotion::Sleep.label_spec(), lowered));
            }
        },
        None => {
            assert(analyze_spec(outcome) == Emotion::Neutral.label_spec());
        },
    }
}

} // verus!
