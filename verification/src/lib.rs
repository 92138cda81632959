//! Server-side core of a voice-driven device: loudness metering, utterance
//! segmentation, the sentiment and wire-protocol rules, and the
//! per-connection decisions that tie them together.

pub mod energy;
pub mod segmenter;
pub mod segmenter_laws;
pub mod text;
pub mod emotion;
pub mod json;
pub mod protocol;
pub mod speech;
pub mod audio;
pub mod session;
