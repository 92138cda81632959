//! The audio pipeline of one connection: every decoded block is measured
//! and handed to the segmenter.

use crate::energy::{calculate_rms, rms_floor};
use crate::segmenter::{
    idle_state, state_wf, step, Emission, Frame, SegmenterOutcome, Utterance, VadConfig,
    VadState, VoiceActivitySegmenter,
};
use vstd::prelude::*;
use vstd::slice::slice_subrange;

verus! {

/// Samples per second of the stream; there is one channel.
pub const SAMPLE_RATE: u32 = 16000;

/// The most samples one compressed frame decodes to: 360 ms of audio. A
/// buffer of this size takes any frame.
pub const MAX_FRAME_SAMPLES: usize = 5760;

/// What one frame leads to, as a mathematical value: a frame that could not
/// be decoded changes nothing; a decoded block moves the segmenter one step,
/// with the loudness of the block.
pub open spec fn process_spec(cfg: VadConfig, s: VadState, decoded: Option<Seq<i16>>) -> (
    VadState,
    Option<Emission>,
) {
    match decoded {
        Some(block) => step(cfg, s, Frame { samples: block, energy: rms_floor(block) }),
        None => (s, None),
    }
}

/// The block that a decoder left in `pcm`, given what it reported: the
/// number of samples it wrote from the start of `pcm`, or `None` where it
/// could not decode the frame. A count that `pcm` cannot hold is taken for a
/// failure.
pub open spec fn decoded_spec(pcm: Seq<i16>, count: Option<usize>) -> Option<Seq<i16>> {
    match count {
        Some(n) => if n <= pcm.len() {
            Some(pcm.subrange(0, n as int))
        } else {
            None
        },
        None => None,
    }
}

/// The block that a decoder left in `pcm`, given what it reported.
pub fn decoded_block<'a>(pcm: &'a [i16], count: Option<usize>) -> (block: Option<&'a [i16]>)
    ensures
        match block {
            Some(b) => decoded_spec(pcm@, count) == Some(b@),
            None => decoded_spec(pcm@, count) is None,
        },
{
    match count {
        Some(n) => {
            if n <= pcm.len() {
                Some(slice_subrange(pcm, 0, n))
            } else {
                None
            }
        },
        None => None,
    }
}

/// The audio state of one connection.
#[derive(Debug)]
pub struct AudioProcessor {
    segmenter: VoiceActivitySegmenter,
}

impl View for AudioProcessor {
    type V = VadState;

    closed spec fn view(&self) -> VadState {
        self.segmenter@
    }
}

impl AudioProcessor {
    /// The constants of the segmenter.
    pub closed spec fn config(&self) -> VadConfig {
        self.segmenter.config()
    }

    /// The invariant of the type.
    pub closed spec fn wf(&self) -> bool {
        self.segmenter.wf()
    }

    /// What the invariant says of the state.
    pub proof fn lemma_wf(&self)
        requires
            self.wf(),
        ensures
            self.config().wf(),
            state_wf(self.config(), self@),
    {
    }

    /// A processor with an idle segmenter and the default constants.
    pub fn new() -> (processor: AudioProcessor)
        ensures
            processor.wf(),
            processor.config() == VadConfig::standard(),
            processor@ == idle_state(),
    {
        AudioProcessor { segmenter: VoiceActivitySegmenter::new() }
    }

    /// A processor around the given segmenter.
    pub fn with_segmenter(segmenter: VoiceActivitySegmenter) -> (processor: AudioProcessor)
        requires
            segmenter.wf(),
        ensures
            processor.wf(),
            processor.config() == segmenter.config(),
            processor@ == segmenter@,
    {
        AudioProcessor { segmenter }
    }

    /// The segmenter, to look at.
    pub fn segmenter(&self) -> (seg: &VoiceActivitySegmenter)
        ensures
            seg@ == self@,
            seg.config() == self.config(),
            seg.wf() == self.wf(),
    {
        &self.segmenter
    }

    /// Gives up whatever is being recorded and returns to the idle state.
    pub fn reset(&mut self)
        requires
            old(self).wf(),
        ensures
            final(self).wf(),
            final(self)@ == idle_state(),
            final(self).config() == old(self).config(),
    {
        self.segmenter.reset();
    }

    /// Takes in what the decoder made of one frame: the decoded block, or
    /// `None` where the frame could not be decoded. Returns the utterance
    /// that the block completes, if any. A frame that could not be decoded
    /// is dropped and leaves the state as it was.
    pub fn process_audio(&mut self, decoded: Option<&[i16]>) -> (complete: Option<Utterance>)
        requires
            old(self).wf(),
        ensures
            final(self).wf(),
            final(self).config() == old(self).config(),
            (
                final(self)@,
                match complete {
                    Some(u) => Some(u@),
                    None => None,
                },
            ) == process_spec(
                old(self).config(),
                old(self)@,
                match decoded {
                    Some(block) => Some(block@),
                    None => None,
                },
            ),
    {
        match decoded {
            Some(samples) => {
                let energy = calculate_rms(samples);
                match self.segmenter.ingest(samples, energy) {
                    SegmenterOutcome::Emitted(utterance) => Some(utterance),
                    SegmenterOutcome::Nothing => None,
                }
            },
            None => None,
        }
    }
}

} // verus!
