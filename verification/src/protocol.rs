//! The wire protocol: the messages a device sends, the responses the server
//! sends back, and how a response is written as JSON.

use crate::json::{json_quote, json_string, json_text_field, text_field};
use crate::text::same_text;
use vstd::prelude::*;
use vstd::string::StringExecFns;

verus! {

/// A control message of a device, as its JSON object tagged by `type`
/// says it.
#[derive(Debug)]
pub enum DeviceMessage {
    Hello { version: String },
    Event { key: String, value: String },
}

/// A device message as a mathematical value.
pub enum DeviceMessageView {
    Hello { version: Seq<char> },
    Event { key: Seq<char>, value: Seq<char> },
}

impl View for DeviceMessage {
    type V = DeviceMessageView;

    open spec fn view(&self) -> DeviceMessageView {
        match self {
            DeviceMessage::Hello { version } => DeviceMessageView::Hello { version: version@ },
            DeviceMessage::Event { key, value } => DeviceMessageView::Event {
                key: key@,
                value: value@,
            },
        }
    }
}

/// A response of the server.
#[derive(Debug)]
pub struct ServerResponse {
    pub msg_type: String,
    pub emotion: String,
    pub text: Option<String>,
}

/// A response as a mathematical value.
pub struct ResponseView {
    pub msg_type: Seq<char>,
    pub emotion: Seq<char>,
    pub text: Option<Seq<char>>,
}

impl View for ServerResponse {
    type V = ResponseView;

    open spec fn view(&self) -> ResponseView {
        ResponseView {
            msg_type: self.msg_type@,
            emotion: self.emotion@,
            text: match self.text {
                Some(t) => Some(t@),
                None => None,
            },
        }
    }
}

/// The `type` of every response.
pub const RESPONSE_TYPE: &'static str = "llm";

/// The text of the response that greets a new connection.
pub const GREETING: &'static str = "Connected & Ready";

/// The response that greets a new connection.
pub open spec fn initial_response() -> ResponseView {
    ResponseView { msg_type: "llm"@, emotion: "calm"@, text: Some("Connected & Ready"@) }
}

/// The response that reports `text`, recognized and given the label
/// `emotion`.
pub open spec fn result_response(text: Seq<char>, emotion: Seq<char>) -> ResponseView {
    ResponseView { msg_type: "llm"@, emotion, text: Some(text) }
}

/// The device message that the fields of a JSON object stand for: tagged
/// `hello` with a `version`, or tagged `event` with a `key` and a `value`.
pub open spec fn device_message_of(
    kind: Option<Seq<char>>,
    version: Option<Seq<char>>,
    key: Option<Seq<char>>,
    value: Option<Seq<char>>,
) -> Option<DeviceMessageView> {
    if kind == Some("hello"@) {
        match version {
            Some(version) => Some(DeviceMessageView::Hello { version }),
            None => None,
        }
    } else if kind == Some("event"@) {
        match (key, value) {
            (Some(key), Some(value)) => Some(DeviceMessageView::Event { key, value }),
            _ => None,
        }
    } else {
        None
    }
}

/// The view of an optional text.
pub open spec fn text_view(t: Option<String>) -> Option<Seq<char>> {
    match t {
        Some(t) => Some(t@),
        None => None,
    }
}

/// The view of an optional device message.
pub open spec fn message_view(m: Option<DeviceMessage>) -> Option<DeviceMessageView> {
    match m {
        Some(m) => Some(m@),
        None => None,
    }
}

impl DeviceMessage {
    /// The device message that the string fields of a JSON object stand
    /// for, if they stand for one.
    pub fn from_fields(
        kind: Option<String>,
        version: Option<String>,
        key: Option<String>,
        value: Option<String>,
    ) -> (message: Option<DeviceMessage>)
        ensures
            message_view(message) == device_message_of(
                text_view(kind),
                text_view(version),
                text_view(key),
                text_view(value),
            ),
    {
        let kind = match kind {
            Some(kind) => kind,
            None => { return None; },
        };
        if same_text(kind.as_str(), "hello") {
            match version {
                Some(version) => Some(DeviceMessage::Hello { version }),
                None => None,
            }
        } else if same_text(kind.as_str(), "event") {
            match (key, value) {
                (Some(key), Some(value)) => Some(DeviceMessage::Event { key, value }),
                _ => None,
            }
        } else {
            None
        }
    }

    /// Reads a text frame as a device message: a JSON object whose `type`
    /// is `hello` and which holds a string `version`, or whose `type` is
    /// `event` and which holds strings `key` and `value`. `None` for any
    /// other text.
    pub fn decode(text: &str) -> (message: Option<DeviceMessage>)
        ensures
            message_view(message) == device_message_of(
                json_text_field(text@, "type"@),
                json_text_field(text@, "version"@),
                json_text_field(text@, "key"@),
                json_text_field(text@, "value"@),
            ),
    {
        DeviceMessage::from_fields(
            text_field(text, "type"),
            text_field(text, "version"),
            text_field(text, "key"),
            text_field(text, "value"),
        )
    }
}

/// The JSON object of a response, given the string literals of its fields:
/// `type`, `emotion` and, where there is a text, `text`, in this order and
/// without spaces.
pub open spec fn response_json(
    msg_type: Seq<char>,
    emotion: Seq<char>,
    text: Option<Seq<char>>,
) -> Seq<char> {
    "{\"type\":"@ + msg_type + ",\"emotion\":"@ + emotion + match text {
        Some(t) => ",\"text\":"@ + t,
        None => Seq::<char>::empty(),
    } + "}"@
}

/// A response as JSON: its fields as string literals, put together as an
/// object. There is none where one of the literals cannot be written.
pub open spec fn encoded_response(r: ResponseView) -> Option<Seq<char>> {
    match (json_string(r.msg_type), json_string(r.emotion)) {
        (Some(msg_type), Some(emotion)) => match r.text {
            Some(text) => match json_string(text) {
                Some(text) => Some(response_json(msg_type, emotion, Some(text))),
                None => None,
            },
            None => Some(response_json(msg_type, emotion, None)),
        },
        _ => None,
    }
}

/// Puts the JSON object of a response together from the string literals of
/// its fields.
pub fn frame_response(msg_type: &str, emotion: &str, text: Option<&str>) -> (json: String)
    ensures
        json@ == response_json(
            msg_type@,
            emotion@,
            match text {
                Some(t) => Some(t@),
                None => None,
            },
        ),
{
    let mut json = String::from_str("{\"type\":");
    json.append(msg_type);
    json.append(",\"emotion\":");
    json.append(emotion);
    match text {
        Some(t) => {
            json.append(",\"text\":");
            json.append(t);
        },
        None => {
            assert(json@ + Seq::<char>::empty() =~= json@);
        },
    }
    json.append("}");
    json
}

impl ServerResponse {
    /// The response that greets a new connection: label `calm` and a
    /// placeholder text.
    pub fn initial_connection() -> (response: ServerResponse)
        ensures
            response@ == initial_response(),
    {
        ServerResponse {
            msg_type: String::from_str(RESPONSE_TYPE),
            emotion: String::from_str("calm"),
            text: Some(String::from_str(GREETING)),
        }
    }

    /// The response that reports a recognized text and its label.
    pub fn speech_result(text: String, emotion: String) -> (response: ServerResponse)
        ensures
            response@ == result_response(text@, emotion@),
    {
        ServerResponse { msg_type: String::from_str(RESPONSE_TYPE), emotion, text: Some(text) }
    }

    /// The response as JSON: the object of [`encoded_response`]. The text
    /// is left out where there is none.
    ///
    /// The string literals are written by `serde_json`; `None` comes back
    /// exactly where it fails to write one of them.
    pub fn to_json(&self) -> (json: Option<String>)
        ensures
            match json {
                Some(j) => encoded_response(self@) == Some(j@),
                None => encoded_response(self@) is None,
            },
    {
        let msg_type = match json_quote(self.msg_type.as_str()) {
            Some(q) => q,
            None => { return None; },
        };
        let emotion = match json_quote(self.emotion.as_str()) {
            Some(q) => q,
            None => { return None; },
        };
        match &self.text {
            Some(t) => {
                let text = match json_quote(t.as_str()) {
                    Some(q) => q,
                    None => { return None; },
                };
                Some(frame_response(msg_type.as_str(), emotion.as_str(), Some(text.as_str())))
            },
            None => Some(frame_response(msg_type.as_str(), emotion.as_str(), None)),
        }
    }
}

} // verus!
