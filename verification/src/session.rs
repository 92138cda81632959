//! The decisions of one connection.
//!
//! A connection alternates between waiting for the outside world (the next
//! message of the device, the recognizer, the classifier) and deciding what
//! to do next. The waiting is the caller's; the deciding is here. The caller
//! hands in each event as it happens, carries out the action it gets back,
//! and hands in the outcome of that action as the next event, before any
//! further message of the device.

use crate::audio::{process_spec, AudioProcessor};
use crate::emotion::{analyze_spec, prompt_for, EmotionAnalyzer, OllamaRequest, RequestView};
use crate::protocol::{initial_response, result_response, ResponseView, ServerResponse};
use crate::segmenter::{idle_state, state_wf, Emission, Utterance, VadConfig, VadState};
use crate::speech::{accepted_text, clean_speech, valid_speech, DEGENERATE_TEXT};
use crate::text::{contains, is_substring, trimmed};
use vstd::prelude::*;
use vstd::string::StringExecFns;

verus! {

/// The text that a frame must hold to be answered with [`PONG`].
pub const PING: &'static str = "ping";

/// The text sent in answer to a ping, as it is, without any JSON around it.
pub const PONG: &'static str = "pong";

/// Where a connection stands.
#[derive(Debug)]
pub enum Stage {
    /// Accepted, not yet greeted.
    Opening,
    /// Waiting for the next message of the device.
    Listening,
    /// An utterance is with the recognizer.
    Recognizing,
    /// This text is with the classifier.
    Classifying { text: String },
    /// Over.
    Closed,
}

/// What happened on a connection.
#[derive(Debug)]
pub enum ConnectionEvent {
    /// The connection was accepted.
    Opened,
    /// The device sent a text frame.
    Text(String),
    /// The device sent an audio frame, and this is what the decoder made of
    /// it: the decoded block, or `None` where it could not be decoded.
    Audio(Option<Vec<i16>>),
    /// The recognizer gave this text for the utterance handed to it; the
    /// empty text where it failed.
    Recognized(String),
    /// The classifier answered with this body; `None` where the call failed
    /// or timed out.
    Classified(Option<String>),
    /// The device closed the connection, or the socket failed.
    Closed,
    /// Any other frame.
    Other,
}

/// What the caller is to do next.
#[derive(Debug)]
pub enum ConnectionAction {
    /// Nothing: wait for the next message.
    Nothing,
    /// Send this response to the device.
    Greet(ServerResponse),
    /// Send the text [`PONG`] to the device.
    Pong,
    /// Hand this utterance to the recognizer.
    Recognize(Utterance),
    /// Put this request to the classifier.
    Classify(OllamaRequest),
    /// Send this response to the device, and keep a record of it.
    Publish(ServerResponse),
    /// Leave the connection.
    Finish,
}

/// A stage as a mathematical value.
pub enum StageView {
    Opening,
    Listening,
    Recognizing,
    Classifying { text: Seq<char> },
    Closed,
}

/// An event as a mathematical value.
pub enum EventView {
    Opened,
    Text(Seq<char>),
    Audio(Option<Seq<i16>>),
    Recognized(Seq<char>),
    Classified(Option<Seq<char>>),
    Closed,
    Other,
}

/// An action as a mathematical value.
pub enum ActionView {
    Nothing,
    Greet(ResponseView),
    Pong,
    Recognize(Emission),
    Classify(RequestView),
    Publish(ResponseView),
    Finish,
}

/// A connection as a mathematical value.
pub struct SessionView {
    pub stage: StageView,
    pub vad: VadState,
}

impl View for Stage {
    type V = StageView;

    open spec fn view(&self) -> StageView {
        match self {
            Stage::Opening => StageView::Opening,
            Stage::Listening => StageView::Listening,
            Stage::Recognizing => StageView::Recognizing,
            Stage::Classifying { text } => StageView::Classifying { text: text@ },
            Stage::Closed => StageView::Closed,
        }
    }
}

impl View for ConnectionEvent {
    type V = EventView;

    open spec fn view(&self) -> EventView {
        match self {
            ConnectionEvent::Opened => EventView::Opened,
            ConnectionEvent::Text(t) => EventView::Text(t@),
            ConnectionEvent::Audio(Some(block)) => EventView::Audio(Some(block@)),
            ConnectionEvent::Audio(None) => EventView::Audio(None),
            ConnectionEvent::Recognized(t) => EventView::Recognized(t@),
            ConnectionEvent::Classified(Some(body)) => EventView::Classified(Some(body@)),
            ConnectionEvent::Classified(None) => EventView::Classified(None),
            ConnectionEvent::Closed => EventView::Closed,
            ConnectionEvent::Other => EventView::Other,
        }
    }
}

impl View for ConnectionAction {
    type V = ActionView;

    open spec fn view(&self) -> ActionView {
        match self {
            ConnectionAction::Nothing => ActionView::Nothing,
            ConnectionAction::Greet(r) => ActionView::Greet(r@),
            ConnectionAction::Pong => ActionView::Pong,
            ConnectionAction::Recognize(u) => ActionView::Recognize(u@),
            ConnectionAction::Classify(r) => ActionView::Classify(r@),
            ConnectionAction::Publish(r) => ActionView::Publish(r@),
            ConnectionAction::Finish => ActionView::Finish,
        }
    }
}

/// What a text frame is answered with: a pong where it holds `ping`
/// anywhere, nothing otherwise.
pub open spec fn text_action(text: Seq<char>) -> ActionView {
    if is_substring(PING@, text) {
        ActionView::Pong
    } else {
        ActionView::Nothing
    }
}

/// What follows from the recognizer's text: the trimmed text goes to the
/// classifier where it counts as speech; otherwise nothing is sent and the
/// connection listens again.
pub open spec fn speech_action(model: Seq<char>, recognized: Seq<char>) -> (StageView, ActionView) {
    match accepted_text(recognized) {
        Some(text) => (
            StageView::Classifying { text },
            ActionView::Classify(
                RequestView { model, prompt: prompt_for(text), stream: false },
            ),
        ),
        None => (StageView::Listening, ActionView::Nothing),
    }
}

/// The decision function of a connection: the state after an event, and the
/// action to carry out.
///
/// An event that does not belong to the stage the connection is in changes
/// nothing and leads to no action.
pub open spec fn decide(cfg: VadConfig, model: Seq<char>, s: SessionView, e: EventView) -> (
    SessionView,
    ActionView,
) {
    match (s.stage, e) {
        (StageView::Closed, _) => (s, ActionView::Nothing),
        (_, EventView::Closed) => (
            SessionView { stage: StageView::Closed, vad: idle_state() },
            ActionView::Finish,
        ),
        (StageView::Opening, EventView::Opened) => (
            SessionView { stage: StageView::Listening, vad: s.vad },
            ActionView::Greet(initial_response()),
        ),
        (StageView::Listening, EventView::Text(text)) => (s, text_action(text)),
        (StageView::Listening, EventView::Audio(decoded)) => {
            let (vad, complete) = process_spec(cfg, s.vad, decoded);
            match complete {
                Some(utterance) => (
                    SessionView { stage: StageView::Recognizing, vad },
                    ActionView::Recognize(utterance),
                ),
                None => (SessionView { stage: StageView::Listening, vad }, ActionView::Nothing),
            }
        },
        (StageView::Recognizing, EventView::Recognized(recognized)) => {
            let (stage, action) = speech_action(model, recognized);
            (SessionView { stage, vad: s.vad }, action)
        },
        (StageView::Classifying { text }, EventView::Classified(outcome)) => (
            SessionView { stage: StageView::Listening, vad: s.vad },
            ActionView::Publish(result_response(text, analyze_spec(outcome))),
        ),
        _ => (s, ActionView::Nothing),
    }
}

/// What a text frame is answered with.
pub fn handle_text_message(text: &str) -> (action: ConnectionAction)
    ensures
        action@ == text_action(text@),
{
    if contains(text, PING) {
        ConnectionAction::Pong
    } else {
        ConnectionAction::Nothing
    }
}

/// What follows from the recognizer's text for an utterance.
pub fn process_complete_speech(analyzer: &EmotionAnalyzer, recognized: &str) -> (next: (
    Stage,
    ConnectionAction,
))
    ensures
        (next.0@, next.1@) == speech_action(analyzer.model(), recognized@),
{
    match clean_speech(recognized) {
        Some(clean_text) => (
            Stage::Classifying { text: String::from_str(clean_text) },
            ConnectionAction::Classify(analyzer.analyze_request(clean_text)),
        ),
        None => (Stage::Listening, ConnectionAction::Nothing),
    }
}

/// The state of one connection.
#[derive(Debug)]
pub struct ConnectionSession {
    audio: AudioProcessor,
    stage: Stage,
}

impl View for ConnectionSession {
    type V = SessionView;

    closed spec fn view(&self) -> SessionView {
        SessionView { stage: self.stage@, vad: self.audio@ }
    }
}

impl ConnectionSession {
    /// The constants of the segmenter.
    pub closed spec fn config(&self) -> VadConfig {
        self.audio.config()
    }

    /// The invariant of the type.
    pub closed spec fn wf(&self) -> bool {
        self.audio.wf()
    }

    /// What the invariant says of the state.
    pub proof fn lemma_wf(&self)
        requires
            self.wf(),
        ensures
            self.config().wf(),
            state_wf(self.config(), self@.vad),
    {
        self.audio.lemma_wf();
    }

    /// The session of a connection that was just accepted, with an idle
    /// segmenter and the default constants.
    pub fn new() -> (session: ConnectionSession)
        ensures
            session.wf(),
            session.config() == VadConfig::standard(),
            session@ == (SessionView { stage: StageView::Opening, vad: idle_state() }),
    {
        ConnectionSession { audio: AudioProcessor::new(), stage: Stage::Opening }
    }

    /// The session of a connection that was just accepted, around the given
    /// audio processor.
    pub fn with_audio(audio: AudioProcessor) -> (session: ConnectionSession)
        requires
            audio.wf(),
        ensures
            session.wf(),
            session.config() == audio.config(),
            session@ == (SessionView { stage: StageView::Opening, vad: audio@ }),
    {
        ConnectionSession { audio, stage: Stage::Opening }
    }

    /// The stage the connection is in.
    pub fn stage(&self) -> (stage: &Stage)
        ensures
            stage@ == self@.stage,
    {
        &self.stage
    }

    /// Tells whether the connection is over.
    pub fn is_closed(&self) -> (closed: bool)
        ensures
            closed == (self@.stage is Closed),
    {
        match self.stage {
            Stage::Closed => true,
            _ => false,
        }
    }
}

/// Takes in one event of a connection and says what to do next. The new
/// state of the session and the action are exactly those of [`decide`].
pub fn handle_connection(
    session: &mut ConnectionSession,
    analyzer: &EmotionAnalyzer,
    event: ConnectionEvent,
) -> (action: ConnectionAction)
    requires
        old(session).wf(),
    ensures
        final(session).wf(),
        final(session).config() == old(session).config(),
        (final(session)@, action@) == decide(
            old(session).config(),
            analyzer.model(),
            old(session)@,
            event@,
        ),
{
    let mut stage = Stage::Closed;
    std::mem::swap(&mut session.stage, &mut stage);
    match (stage, event) {
        (Stage::Closed, _) => ConnectionAction::Nothing,
        (_, ConnectionEvent::Closed) => {
            session.audio.reset();
            ConnectionAction::Finish
        },
        (Stage::Opening, ConnectionEvent::Opened) => {
            session.stage = Stage::Listening;
            ConnectionAction::Greet(ServerResponse::initial_connection())
        },
        (Stage::Listening, ConnectionEvent::Text(text)) => {
            session.stage = Stage::Listening;
            handle_text_message(text.as_str())
        },
        (Stage::Listening, ConnectionEvent::Audio(decoded)) => {
            let complete = match &decoded {
                Some(block) => session.audio.process_audio(Some(block.as_slice())),
                None => session.audio.process_audio(None),
            };
            match complete {
                Some(utterance) => {
                    session.stage = Stage::Recognizing;
                    ConnectionAction::Recognize(utterance)
                },
                None => {
                    session.stage = Stage::Listening;
                    ConnectionAction::Nothing
                },
            }
        },
        (Stage::Recognizing, ConnectionEvent::Recognized(recognized)) => {
            let (next, action) = process_complete_speech(analyzer, recognized.as_str());
            session.stage = next;
            action
        },
        (Stage::Classifying { text }, ConnectionEvent::Classified(outcome)) => {
            let emotion = match &outcome {
                Some(body) => analyzer.analyze(Some(body.as_str())),
                None => analyzer.analyze(None),
            };
            session.stage = Stage::Listening;
            ConnectionAction::Publish(ServerResponse::speech_result(text, emotion))
        },
        (stage, _) => {
            session.stage = stage;
            ConnectionAction::Nothing
        },
    }
}

/// The degenerate text is filtered: when what the recognizer gave is, once
/// trimmed, empty or the degenerate text, nothing is sent and the
/// connection listens again, whatever the utterance was like.
pub proof fn lemma_degenerate_filtered(
    cfg: VadConfig,
    model: Seq<char>,
    vad: VadState,
    recognized: Seq<char>,
)
    requires
        trimmed(recognized) == DEGENERATE_TEXT@ || trimmed(recognized).len() == 0,
    ensures
        decide(
            cfg,
            model,
            SessionView { stage: StageView::Recognizing, vad },
            EventView::Recognized(recognized),
        ) == (SessionView { stage: StageView::Listening, vad }, ActionView::Nothing),
{
    assert(!valid_speech(trimmed(recognized)));
}

/// Only a completed utterance leads to a response with a recognized text,
/// and only a text frame to a pong: every other event in every other stage
/// sends nothing to the device.
pub proof fn lemma_responses(cfg: VadConfig, model: Seq<char>, s: SessionView, e: EventView)
    ensures
        decide(cfg, model, s, e).1 is Publish ==> s.stage is Classifying && e is Classified,
        decide(cfg, model, s, e).1 is Pong ==> s.stage is Listening && e is Text,
        decide(cfg, model, s, e).1 is Greet ==> s.stage is Opening && e is Opened,
        decide(cfg, model, s, e).1 is Recognize ==> s.stage is Listening && e is Audio,
        decide(cfg, model, s, e).1 is Classify ==> s.stage is Recognizing && e is Recognized,
{
}

} // verus!
