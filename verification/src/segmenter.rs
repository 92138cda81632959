//! Voice-activity segmentation: cutting a stream of sample blocks into
//! utterances.
//!
//! The segmenter is a two-phase machine. While idle it waits for a block
//! loud enough to start an utterance and keeps nothing. While recording it
//! keeps every block, and ends the utterance after a run of quiet blocks, or
//! gives it up when it has grown past the cap.
//!
//! Samples are kept as the 16-bit values they arrived as; a kept sample `x`
//! stands for the normalized value `x / 32768`.

use vstd::prelude::*;

verus! {

/// The tuned constants of the segmenter.
#[derive(Clone, Copy, Debug)]
pub struct VadConfig {
    /// Loudness at or above which an idle segmenter starts recording.
    pub start_threshold: u32,
    /// Loudness below which a block counts as quiet while recording.
    pub end_threshold: u32,
    /// Number of consecutive quiet blocks that ends an utterance.
    pub max_silence_frames: usize,
    /// An utterance is handed on only if it holds more samples than this.
    pub min_utterance_samples: usize,
    /// A recording that holds more samples than this is given up.
    pub max_buffer_samples: usize,
}

/// Default loudness at or above which recording starts.
pub const VAD_THRESHOLD_START: u32 = 800;

/// Default loudness below which a block is quiet.
pub const VAD_THRESHOLD_END: u32 = 500;

/// Default number of consecutive quiet blocks that ends an utterance.
pub const MAX_SILENCE_FRAMES: usize = 12;

/// Default floor on the length of an utterance: half a second at 16 kHz.
pub const MIN_UTTERANCE_SAMPLES: usize = 8000;

/// Default cap on the length of a recording: thirty seconds at 16 kHz.
pub const MAX_BUFFER_SIZE: usize = 480000;

impl VadConfig {
    /// A configuration makes sense when the two thresholds form a
    /// hysteresis band, at least one quiet block is needed to end an
    /// utterance, and the shortest accepted utterance fits under the cap.
    pub open spec fn wf(&self) -> bool {
        &&& self.end_threshold <= self.start_threshold
        &&& self.max_silence_frames >= 1
        &&& self.min_utterance_samples <= self.max_buffer_samples
    }

    /// The configuration with the default constants.
    pub open spec fn standard() -> VadConfig {
        VadConfig {
            start_threshold: 800,
            end_threshold: 500,
            max_silence_frames: 12,
            min_utterance_samples: 8000,
            max_buffer_samples: 480000,
        }
    }

    /// Tells whether the configuration makes sense.
    pub fn is_valid(&self) -> (ok: bool)
        ensures
            ok == self.wf(),
    {
        self.end_threshold <= self.start_threshold && self.max_silence_frames >= 1
            && self.min_utterance_samples <= self.max_buffer_samples
    }
}

impl Default for VadConfig {
    fn default() -> (cfg: VadConfig)
        ensures
            cfg == VadConfig::standard(),
            cfg.wf(),
    {
        VadConfig {
            start_threshold: VAD_THRESHOLD_START,
            end_threshold: VAD_THRESHOLD_END,
            max_silence_frames: MAX_SILENCE_FRAMES,
            min_utterance_samples: MIN_UTTERANCE_SAMPLES,
            max_buffer_samples: MAX_BUFFER_SIZE,
        }
    }
}

/// The two phases of segmentation.
#[derive(Clone, Copy, Debug, PartialEq, Eq, Structural)]
pub enum Phase {
    Idle,
    Recording,
}

/// The state of a segmenter as a mathematical value.
pub struct VadState {
    pub phase: Phase,
    /// Consecutive quiet blocks seen while recording.
    pub silence_run: nat,
    /// Loudest block seen since recording started.
    pub peak: nat,
    /// Samples kept since recording started.
    pub buffer: Seq<i16>,
}

/// An utterance as a mathematical value.
pub struct Emission {
    pub samples: Seq<i16>,
    pub peak: nat,
}

/// One block as the segmenter sees it: its samples and its loudness.
pub struct Frame {
    pub samples: Seq<i16>,
    pub energy: nat,
}

/// The state every segmenter starts in and returns to after each reset.
pub open spec fn idle_state() -> VadState {
    VadState { phase: Phase::Idle, silence_run: 0, peak: 0, buffer: Seq::empty() }
}

/// What holds of every state a segmenter can be in: an idle segmenter keeps
/// nothing, and a recording one has not yet seen a full run of quiet blocks.
pub open spec fn state_wf(cfg: VadConfig, s: VadState) -> bool {
    match s.phase {
        Phase::Idle => s == idle_state(),
        Phase::Recording => s.silence_run < cfg.max_silence_frames,
    }
}

/// The larger of two numbers.
pub open spec fn max_nat(a: nat, b: nat) -> nat {
    if a >= b {
        a
    } else {
        b
    }
}

/// The transition function: the state after one block, and the utterance
/// that the block completes, if any.
pub open spec fn step(cfg: VadConfig, s: VadState, f: Frame) -> (VadState, Option<Emission>) {
    match s.phase {
        Phase::Idle => {
            if f.energy >= cfg.start_threshold {
                (
                    VadState {
                        phase: Phase::Recording,
                        silence_run: 0,
                        peak: f.energy,
                        buffer: f.samples,
                    },
                    None,
                )
            } else {
                (s, None)
            }
        },
        Phase::Recording => {
            let buffer = s.buffer + f.samples;
            let peak = max_nat(s.peak, f.energy);
            let silence_run = if f.energy < cfg.end_threshold {
                s.silence_run + 1
            } else {
                0
            };
            if silence_run >= cfg.max_silence_frames {
                if buffer.len() > cfg.min_utterance_samples {
                    (idle_state(), Some(Emission { samples: buffer, peak }))
                } else {
                    (idle_state(), None)
                }
            } else if buffer.len() > cfg.max_buffer_samples {
                (idle_state(), None)
            } else {
                (VadState { phase: Phase::Recording, silence_run, peak, buffer }, None)
            }
        },
    }
}

/// A completed utterance: its samples in arrival order and the loudness of
/// its loudest block.
#[derive(Debug)]
pub struct Utterance {
    pub samples: Vec<i16>,
    pub peak_energy: u32,
}

impl View for Utterance {
    type V = Emission;

    open spec fn view(&self) -> Emission {
        Emission { samples: self.samples@, peak: self.peak_energy as nat }
    }
}

/// What one block led to.
#[derive(Debug)]
pub enum SegmenterOutcome {
    /// The block completed no utterance.
    Nothing,
    /// The block completed this utterance.
    Emitted(Utterance),
}

impl View for SegmenterOutcome {
    type V = Option<Emission>;

    open spec fn view(&self) -> Option<Emission> {
        match self {
            SegmenterOutcome::Nothing => None,
            SegmenterOutcome::Emitted(u) => Some(u@),
        }
    }
}

/// The segmentation state of one connection.
#[derive(Debug)]
pub struct VoiceActivitySegmenter {
    config: VadConfig,
    is_recording: bool,
    silence_frames: usize,
    max_energy: u32,
    audio_buffer: Vec<i16>,
}

impl View for VoiceActivitySegmenter {
    type V = VadState;

    closed spec fn view(&self) -> VadState {
        VadState {
            phase: if self.is_recording {
                Phase::Recording
            } else {
                Phase::Idle
            },
            silence_run: self.silence_frames as nat,
            peak: self.max_energy as nat,
            buffer: self.audio_buffer@,
        }
    }
}

impl VoiceActivitySegmenter {
    /// The constants this segmenter was made with.
    pub closed spec fn config(&self) -> VadConfig {
        self.config
    }

    /// The invariant of the type.
    pub open spec fn wf(&self) -> bool {
        &&& self.config().wf()
        &&& state_wf(self.config(), self@)
    }

    /// An idle segmenter with the default constants.
    pub fn new() -> (seg: VoiceActivitySegmenter)
        ensures
            seg.wf(),
            seg.config() == VadConfig::standard(),
            seg@ == idle_state(),
    {
        VoiceActivitySegmenter {
            config: VadConfig::default(),
            is_recording: false,
            silence_frames: 0,
            max_energy: 0,
            audio_buffer: Vec::new(),
        }
    }

    /// An idle segmenter with the given constants, if they make sense.
    pub fn with_config(config: VadConfig) -> (made: Option<VoiceActivitySegmenter>)
        ensures
            made is Some <==> config.wf(),
            made matches Some(seg) ==> seg.wf() && seg.config() == config && seg@ == idle_state(),
    {
        if config.is_valid() {
            Some(
                VoiceActivitySegmenter {
                    config,
                    is_recording: false,
                    silence_frames: 0,
                    max_energy: 0,
                    audio_buffer: Vec::new(),
                },
            )
        } else {
            None
        }
    }

    /// The current phase.
    pub fn phase(&self) -> (p: Phase)
        ensures
            p == self@.phase,
    {
        if self.is_recording {
            Phase::Recording
        } else {
            Phase::Idle
        }
    }

    /// Number of samples kept so far.
    pub fn buffered_samples(&self) -> (n: usize)
        ensures
            n == self@.buffer.len(),
    {
        self.audio_buffer.len()
    }

    /// Length of the current run of quiet blocks.
    pub fn silence_run(&self) -> (n: usize)
        ensures
            n == self@.silence_run,
    {
        self.silence_frames
    }

    /// Loudest block seen since recording started.
    pub fn peak_energy(&self) -> (e: u32)
        ensures
            e == self@.peak,
    {
        self.max_energy
    }

    /// Appends the samples of one block to the kept samples.
    fn add_samples_to_buffer(&mut self, samples: &[i16])
        ensures
            final(self)@.buffer == old(self)@.buffer + samples@,
            final(self)@.phase == old(self)@.phase,
            final(self)@.silence_run == old(self)@.silence_run,
            final(self)@.peak == old(self)@.peak,
            final(self).config() == old(self).config(),
    {
        let mut i: usize = 0;
        while i < samples.len()
            invariant
                i <= samples.len(),
                self.audio_buffer@ == old(self).audio_buffer@ + samples@.subrange(0, i as int),
                self.config == old(self).config,
                self.is_recording == old(self).is_recording,
                self.silence_frames == old(self).silence_frames,
                self.max_energy == old(self).max_energy,
            decreases samples.len() - i,
        {
            self.audio_buffer.push(samples[i]);
            i = i + 1;
        }
        assert(samples@.subrange(0, samples.len() as int) =~= samples@);
    }

    /// Returns to the idle state and hands out what was kept.
    fn reset_state(&mut self) -> (kept: Vec<i16>)
        ensures
            kept@ == old(self)@.buffer,
            final(self)@ == idle_state(),
            final(self).config() == old(self).config(),
    {
        let mut kept: Vec<i16> = Vec::new();
        std::mem::swap(&mut self.audio_buffer, &mut kept);
        self.silence_frames = 0;
        self.is_recording = false;
        self.max_energy = 0;
        kept
    }

    /// Gives up whatever is being recorded and returns to the idle state.
    pub fn reset(&mut self)
        ensures
            final(self)@ == idle_state(),
            final(self).config() == old(self).config(),
            old(self).wf() ==> final(self).wf(),
    {
        let _ = self.reset_state();
    }

    /// Takes in one block with its loudness and moves the machine one step.
    ///
    /// The result and the new state are exactly those of [`step`].
    pub fn ingest(&mut self, samples: &[i16], energy: u32) -> (outcome: SegmenterOutcome)
        requires
            old(self).wf(),
        ensures
            final(self).wf(),
            final(self).config() == old(self).config(),
            (final(self)@, outcome@) == step(
                old(self).config(),
                old(self)@,
                Frame { samples: samples@, energy: energy as nat },
            ),
    {
        if !self.is_recording {
            if energy >= self.config.start_threshold {
                self.is_recording = true;
                self.silence_frames = 0;
                self.max_energy = energy;
                self.add_samples_to_buffer(samples);
                assert(self@.buffer =~= samples@);
            }
            return SegmenterOutcome::Nothing;
        }
        self.add_samples_to_buffer(samples);
        if energy > self.max_energy {
            self.max_energy = energy;
        }
        if energy < self.config.end_threshold {
            self.silence_frames = self.silence_frames + 1;
        } else {
            self.silence_frames = 0;
        }
        if self.silence_frames >= self.config.max_silence_frames {
            let peak_energy = self.max_energy;
            let samples = self.reset_state();
            if samples.len() > self.config.min_utterance_samples {
                return SegmenterOutcome::Emitted(Utterance { samples, peak_energy });
            } else {
                return SegmenterOutcome::Nothing;
            }
        }
        if self.audio_buffer.len() > self.config.max_buffer_samples {
            let _ = self.reset_state();
        }
        SegmenterOutcome::Nothing
    }
}

} // verus!
