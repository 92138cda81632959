//! What holds of the segmenter over whole streams of blocks.
//!
//! The laws are stated over [`run`] and [`emissions`], the state and the
//! utterances that a sequence of blocks leads to, which are the transition
//! function of the segmenter applied block by block.

use crate::segmenter::{
    idle_state, max_nat, state_wf, step, Emission, Frame, Phase, VadConfig, VadState,
};
use vstd::prelude::*;

verus! {

/// The state after taking in `frames`, one after the other, from state `s`.
pub open spec fn run(cfg: VadConfig, s: VadState, frames: Seq<Frame>) -> VadState
    decreases frames.len(),
{
    if frames.len() == 0 {
        s
    } else {
        step(cfg, run(cfg, s, frames.drop_last()), frames.last()).0
    }
}

/// The utterances completed while taking in `frames` from state `s`, in the
/// order in which they were completed.
pub open spec fn emissions(cfg: VadConfig, s: VadState, frames: Seq<Frame>) -> Seq<Emission>
    decreases frames.len(),
{
    if frames.len() == 0 {
        Seq::empty()
    } else {
        let before = emissions(cfg, s, frames.drop_last());
        match step(cfg, run(cfg, s, frames.drop_last()), frames.last()).1 {
            Some(e) => before.push(e),
            None => before,
        }
    }
}

/// All samples of `frames`, in order.
pub open spec fn concat(frames: Seq<Frame>) -> Seq<i16>
    decreases frames.len(),
{
    if frames.len() == 0 {
        Seq::empty()
    } else {
        concat(frames.drop_last()) + frames.last().samples
    }
}

/// The loudness of the loudest of `frames`, 0 if there is none.
pub open spec fn peak_of(frames: Seq<Frame>) -> nat
    decreases frames.len(),
{
    if frames.len() == 0 {
        0
    } else {
        max_nat(peak_of(frames.drop_last()), frames.last().energy)
    }
}

/// Every block of `frames` is quieter than `bound`.
pub open spec fn all_below(frames: Seq<Frame>, bound: nat) -> bool {
    forall|i: int| 0 <= i < frames.len() ==> (#[trigger] frames[i]).energy < bound
}

/// Every block of `frames` is at least as loud as `bound`.
pub open spec fn all_at_least(frames: Seq<Frame>, bound: nat) -> bool {
    forall|i: int| 0 <= i < frames.len() ==> (#[trigger] frames[i]).energy >= bound
}

/// Taking in `a` and then `b` is taking in `a + b`.
pub proof fn lemma_run_concat(cfg: VadConfig, s: VadState, a: Seq<Frame>, b: Seq<Frame>)
    ensures
        run(cfg, s, a + b) == run(cfg, run(cfg, s, a), b),
        emissions(cfg, s, a + b) == emissions(cfg, s, a) + emissions(cfg, run(cfg, s, a), b),
    decreases b.len(),
{
    if b.len() == 0 {
        assert(a + b =~= a);
        assert(emissions(cfg, s, a) + Seq::<Emission>::empty() =~= emissions(cfg, s, a));
    } else {
        lemma_run_concat(cfg, s, a, b.drop_last());
        assert((a + b).drop_last() =~= a + b.drop_last());
        assert((a + b).last() == b.last());
        let mid = run(cfg, s, a);
        let before = emissions(cfg, mid, b.drop_last());
        match step(cfg, run(cfg, mid, b.drop_last()), b.last()).1 {
            Some(e) => {
                assert((emissions(cfg, s, a) + before).push(e) =~= emissions(cfg, s, a)
                    + before.push(e));
            },
            None => {},
        }
    }
}

/// The samples of `a + b` are those of `a` followed by those of `b`, and its
/// loudest block is the louder of the loudest of each.
pub proof fn lemma_concat_add(a: Seq<Frame>, b: Seq<Frame>)
    ensures
        concat(a + b) == concat(a) + concat(b),
        peak_of(a + b) == max_nat(peak_of(a), peak_of(b)),
    decreases b.len(),
{
    if b.len() == 0 {
        assert(a + b =~= a);
        assert(concat(a) + Seq::<i16>::empty() =~= concat(a));
    } else {
        lemma_concat_add(a, b.drop_last());
        assert((a + b).drop_last() =~= a + b.drop_last());
        assert((a + b).last() == b.last());
        assert((concat(a) + concat(b.drop_last())) + b.last().samples =~= concat(a) + (concat(
            b.drop_last(),
        ) + b.last().samples));
    }
}

/// One block alone: its samples and its loudness.
pub proof fn lemma_single(cfg: VadConfig, s: VadState, f: Frame)
    ensures
        run(cfg, s, seq![f]) == step(cfg, s, f).0,
        emissions(cfg, s, seq![f]) == match step(cfg, s, f).1 {
            Some(e) => seq![e],
            None => Seq::<Emission>::empty(),
        },
        concat(seq![f]) == f.samples,
        peak_of(seq![f]) == f.energy,
{
    let one = seq![f];
    assert(one.drop_last() =~= Seq::<Frame>::empty());
    assert(one.last() == f);
    assert(run(cfg, s, one.drop_last()) == s);
    assert(emissions(cfg, s, one.drop_last()) =~= Seq::<Emission>::empty());
    assert(concat(one.drop_last()) =~= Seq::<i16>::empty());
    assert(Seq::<i16>::empty() + f.samples =~= f.samples);
    assert(peak_of(one.drop_last()) == 0);
    match step(cfg, s, f).1 {
        Some(e) => {
            assert(Seq::<Emission>::empty().push(e) =~= seq![e]);
        },
        None => {},
    }
}

/// A prefix of a stream holds no more samples than the stream.
pub proof fn lemma_concat_prefix_len(frames: Seq<Frame>, k: int)
    requires
        0 <= k <= frames.len(),
    ensures
        concat(frames.take(k)).len() <= concat(frames).len(),
    decreases frames.len(),
{
    if k == frames.len() {
        assert(frames.take(k) =~= frames);
    } else {
        lemma_concat_prefix_len(frames.drop_last(), k);
        assert(frames.drop_last().take(k) =~= frames.take(k));
    }
}

/// Every step keeps the invariant of the state, and whichever way a
/// recording ends (utterance handed on, utterance too short, or recording
/// grown past the cap), the state afterwards is the same: idle, no quiet
/// blocks counted, peak loudness 0, nothing kept.
pub proof fn lemma_step_resets(cfg: VadConfig, s: VadState, f: Frame)
    requires
        cfg.wf(),
        state_wf(cfg, s),
    ensures
        state_wf(cfg, step(cfg, s, f).0),
        step(cfg, s, f).0.phase == Phase::Idle ==> {
            &&& step(cfg, s, f).0.silence_run == 0
            &&& step(cfg, s, f).0.peak == 0
            &&& step(cfg, s, f).0.buffer.len() == 0
            &&& step(cfg, s, f).0 == idle_state()
        },
        step(cfg, s, f).1 is Some ==> step(cfg, s, f).0 == idle_state(),
        step(cfg, s, f).1 matches Some(e) ==> {
            &&& s.phase == Phase::Recording
            &&& e.samples == s.buffer + f.samples
            &&& e.samples.len() > cfg.min_utterance_samples
            &&& e.peak == max_nat(s.peak, f.energy)
        },
{
}

/// The invariant of the state holds after any stream of blocks.
pub proof fn lemma_run_wf(cfg: VadConfig, s: VadState, frames: Seq<Frame>)
    requires
        cfg.wf(),
        state_wf(cfg, s),
    ensures
        state_wf(cfg, run(cfg, s, frames)),
    decreases frames.len(),
{
    if frames.len() > 0 {
        lemma_run_wf(cfg, s, frames.drop_last());
        lemma_step_resets(cfg, run(cfg, s, frames.drop_last()), frames.last());
    }
}

/// While every block stays below the start threshold, an idle segmenter
/// stays as it is and completes no utterance.
pub proof fn lemma_idle_stays(cfg: VadConfig, s: VadState, frames: Seq<Frame>)
    requires
        s.phase == Phase::Idle,
        all_below(frames, cfg.start_threshold as nat),
    ensures
        run(cfg, s, frames) == s,
        emissions(cfg, s, frames) == Seq::<Emission>::empty(),
    decreases frames.len(),
{
    if frames.len() > 0 {
        let init = frames.drop_last();
        assert forall|i: int| 0 <= i < init.len() implies (#[trigger] init[i]).energy
            < cfg.start_threshold by {
            assert(init[i] == frames[i]);
        }
        lemma_idle_stays(cfg, s, init);
        assert(frames.last() == frames[frames.len() - 1]);
    }
}

/// Hysteresis: loudness that stays strictly between the end threshold and
/// the start threshold never takes an idle segmenter into recording, at any
/// point of the stream.
pub proof fn lemma_hysteresis(cfg: VadConfig, s: VadState, frames: Seq<Frame>, k: int)
    requires
        s.phase == Phase::Idle,
        forall|i: int|
            0 <= i < frames.len() ==> cfg.end_threshold < (#[trigger] frames[i]).energy
                < cfg.start_threshold,
        0 <= k <= frames.len(),
    ensures
        run(cfg, s, frames.take(k)).phase == Phase::Idle,
{
    let prefix = frames.take(k);
    assert forall|i: int| 0 <= i < prefix.len() implies (#[trigger] prefix[i]).energy
        < cfg.start_threshold by {
        assert(prefix[i] == frames[i]);
    }
    lemma_idle_stays(cfg, s, prefix);
}

/// No leakage of what came before an utterance: a stream whose loudness
/// never reaches the start threshold completes no utterance, and at every
/// point of it the segmenter is idle and keeps no sample.
pub proof fn lemma_no_preroll(cfg: VadConfig, frames: Seq<Frame>, k: int)
    requires
        all_below(frames, cfg.start_threshold as nat),
        0 <= k <= frames.len(),
    ensures
        emissions(cfg, idle_state(), frames.take(k)) == Seq::<Emission>::empty(),
        run(cfg, idle_state(), frames.take(k)) == idle_state(),
        run(cfg, idle_state(), frames.take(k)).buffer.len() == 0,
{
    let prefix = frames.take(k);
    assert forall|i: int| 0 <= i < prefix.len() implies (#[trigger] prefix[i]).energy
        < cfg.start_threshold by {
        assert(prefix[i] == frames[i]);
    }
    lemma_idle_stays(cfg, idle_state(), prefix);
}

/// While recording, blocks that are not quiet are all kept, and reset the
/// count of quiet blocks, as long as the cap is not passed.
pub proof fn lemma_recording_loud(cfg: VadConfig, s: VadState, frames: Seq<Frame>)
    requires
        cfg.wf(),
        s.phase == Phase::Recording,
        all_at_least(frames, cfg.end_threshold as nat),
        s.buffer.len() + concat(frames).len() <= cfg.max_buffer_samples,
    ensures
        run(cfg, s, frames) == (VadState {
            phase: Phase::Recording,
            silence_run: if frames.len() == 0 {
                s.silence_run
            } else {
                0
            },
            peak: max_nat(s.peak, peak_of(frames)),
            buffer: s.buffer + concat(frames),
        }),
        emissions(cfg, s, frames) == Seq::<Emission>::empty(),
    decreases frames.len(),
{
    if frames.len() == 0 {
        assert(s.buffer + concat(frames) =~= s.buffer);
    } else {
        let init = frames.drop_last();
        let f = frames.last();
        assert forall|i: int| 0 <= i < init.len() implies (#[trigger] init[i]).energy
            >= cfg.end_threshold by {
            assert(init[i] == frames[i]);
        }
        lemma_recording_loud(cfg, s, init);
        assert(f == frames[frames.len() - 1]);
        assert((s.buffer + concat(init)) + f.samples =~= s.buffer + concat(frames));
    }
}

/// While recording, quiet blocks are all kept and counted, as long as the
/// run of quiet blocks stays short of the limit and the cap is not passed.
pub proof fn lemma_recording_quiet(cfg: VadConfig, s: VadState, frames: Seq<Frame>)
    requires
        cfg.wf(),
        s.phase == Phase::Recording,
        all_below(frames, cfg.end_threshold as nat),
        s.silence_run + frames.len() < cfg.max_silence_frames,
        s.buffer.len() + concat(frames).len() <= cfg.max_buffer_samples,
    ensures
        run(cfg, s, frames) == (VadState {
            phase: Phase::Recording,
            silence_run: s.silence_run + frames.len(),
            peak: max_nat(s.peak, peak_of(frames)),
            buffer: s.buffer + concat(frames),
        }),
        emissions(cfg, s, frames) == Seq::<Emission>::empty(),
    decreases frames.len(),
{
    if frames.len() == 0 {
        assert(s.buffer + concat(frames) =~= s.buffer);
    } else {
        let init = frames.drop_last();
        let f = frames.last();
        assert forall|i: int| 0 <= i < init.len() implies (#[trigger] init[i]).energy
            < cfg.end_threshold by {
            assert(init[i] == frames[i]);
        }
        lemma_recording_quiet(cfg, s, init);
        assert(f == frames[frames.len() - 1]);
        assert((s.buffer + concat(init)) + f.samples =~= s.buffer + concat(frames));
    }
}

/// A full run of quiet blocks ends the recording: the state after it is the
/// idle state, and the one utterance handed on, if the recording is long
/// enough, holds every sample kept, the quiet blocks included.
pub proof fn lemma_quiet_run_finalizes(cfg: VadConfig, s: VadState, quiet: Seq<Frame>)
    requires
        cfg.wf(),
        s.phase == Phase::Recording,
        s.silence_run == 0,
        quiet.len() == cfg.max_silence_frames,
        all_below(quiet, cfg.end_threshold as nat),
        s.buffer.len() + concat(quiet.drop_last()).len() <= cfg.max_buffer_samples,
    ensures
        run(cfg, s, quiet) == idle_state(),
        emissions(cfg, s, quiet) == if s.buffer.len() + concat(quiet).len()
            > cfg.min_utterance_samples {
            seq![
                Emission {
                    samples: s.buffer + concat(quiet),
                    peak: max_nat(s.peak, peak_of(quiet)),
                },
            ]
        } else {
            Seq::<Emission>::empty()
        },
{
    let init = quiet.drop_last();
    let f = quiet.last();
    assert forall|i: int| 0 <= i < init.len() implies (#[trigger] init[i]).energy
        < cfg.end_threshold by {
        assert(init[i] == quiet[i]);
    }
    lemma_recording_quiet(cfg, s, init);
    assert(f == quiet[quiet.len() - 1]);
    assert((s.buffer + concat(init)) + f.samples =~= s.buffer + concat(quiet));
    let mid = run(cfg, s, init);
    match step(cfg, mid, f).1 {
        Some(e) => {
            assert(Seq::<Emission>::empty().push(e) =~= seq![e]);
        },
        None => {},
    }
}

/// Floor on the length of an utterance: one block that starts a recording,
/// followed by a full run of quiet blocks, with no more samples in all than
/// the shortest accepted utterance must exceed, completes nothing and leaves
/// the segmenter idle.
pub proof fn lemma_short_utterance_discarded(cfg: VadConfig, trigger: Frame, quiet: Seq<Frame>)
    requires
        cfg.wf(),
        trigger.energy >= cfg.start_threshold,
        quiet.len() == cfg.max_silence_frames,
        all_below(quiet, cfg.end_threshold as nat),
        trigger.samples.len() + concat(quiet).len() <= cfg.min_utterance_samples,
    ensures
        emissions(cfg, idle_state(), seq![trigger] + quiet) == Seq::<Emission>::empty(),
        run(cfg, idle_state(), seq![trigger] + quiet) == idle_state(),
{
    let s0 = idle_state();
    lemma_single(cfg, s0, trigger);
    lemma_run_concat(cfg, s0, seq![trigger], quiet);
    let s1 = run(cfg, s0, seq![trigger]);
    lemma_concat_prefix_len(quiet, quiet.len() - 1);
    assert(quiet.take(quiet.len() - 1) =~= quiet.drop_last());
    lemma_quiet_run_finalizes(cfg, s1, quiet);
    assert(Seq::<Emission>::empty() + Seq::<Emission>::empty() =~= Seq::<Emission>::empty());
}

/// Completion: blocks at or above the start threshold that hold more
/// samples than the shortest accepted utterance must exceed, followed by a
/// full run of quiet blocks, complete exactly one utterance. It holds the
/// samples of all these blocks in order, the quiet ones included, and the
/// segmenter is idle again afterwards with nothing kept.
///
/// The recording must not have grown past the cap before the last quiet
/// block arrives: a recording that has is given up instead.
pub proof fn lemma_completion(cfg: VadConfig, loud: Seq<Frame>, quiet: Seq<Frame>)
    requires
        cfg.wf(),
        loud.len() >= 1,
        all_at_least(loud, cfg.start_threshold as nat),
        concat(loud).len() > cfg.min_utterance_samples,
        quiet.len() == cfg.max_silence_frames,
        all_below(quiet, cfg.end_threshold as nat),
        concat(loud + quiet.drop_last()).len() <= cfg.max_buffer_samples,
    ensures
        emissions(cfg, idle_state(), loud + quiet) == seq![
            Emission { samples: concat(loud + quiet), peak: peak_of(loud + quiet) },
        ],
        run(cfg, idle_state(), loud + quiet) == idle_state(),
        run(cfg, idle_state(), loud + quiet).buffer.len() == 0,
{
    let s0 = idle_state();
    let first = loud[0];
    let rest = loud.drop_first();
    assert(loud =~= seq![first] + rest);
    lemma_concat_add(seq![first], rest);
    lemma_concat_add(loud, quiet.drop_last());
    lemma_concat_add(loud, quiet);
    lemma_single(cfg, s0, first);
    let s1 = run(cfg, s0, seq![first]);
    assert(s1 == VadState {
        phase: Phase::Recording,
        silence_run: 0,
        peak: first.energy,
        buffer: first.samples,
    });
    assert forall|i: int| 0 <= i < rest.len() implies (#[trigger] rest[i]).energy
        >= cfg.end_threshold by {
        assert(rest[i] == loud[i + 1]);
    }
    lemma_recording_loud(cfg, s1, rest);
    lemma_run_concat(cfg, s0, seq![first], rest);
    let s2 = run(cfg, s0, loud);
    assert(s2.buffer =~= concat(loud));
    assert(s2.peak == peak_of(loud));
    assert(emissions(cfg, s0, loud) =~= Seq::<Emission>::empty());
    lemma_quiet_run_finalizes(cfg, s2, quiet);
    lemma_run_concat(cfg, s0, loud, quiet);
    assert(Seq::<Emission>::empty() + emissions(cfg, s2, quiet) =~= emissions(cfg, s2, quiet));
}

/// Overflow, one step: a recording that a block which is not quiet takes
/// past the cap is given up. Nothing is handed on, the segmenter is idle
/// with nothing kept, and the next block at or above the start threshold
/// starts a new recording that holds that block alone.
pub proof fn lemma_overflow_step(cfg: VadConfig, s: VadState, f: Frame, next: Frame)
    requires
        cfg.wf(),
        state_wf(cfg, s),
        s.phase == Phase::Recording,
        f.energy >= cfg.end_threshold,
        s.buffer.len() + f.samples.len() > cfg.max_buffer_samples,
        next.energy >= cfg.start_threshold,
    ensures
        step(cfg, s, f) == (idle_state(), None::<Emission>),
        step(cfg, step(cfg, s, f).0, next) == (
            VadState {
                phase: Phase::Recording,
                silence_run: 0,
                peak: next.energy,
                buffer: next.samples,
            },
            None::<Emission>,
        ),
{
}

/// Overflow, whole stream: a segmenter fed without pause with blocks at or
/// above the start threshold gives the recording up with the block that
/// takes it past the cap. No utterance is completed, the segmenter is idle
/// with nothing kept, and a further such block starts a new recording.
pub proof fn lemma_overflow_safety(cfg: VadConfig, loud: Seq<Frame>, next: Frame)
    requires
        cfg.wf(),
        loud.len() >= 2,
        all_at_least(loud, cfg.start_threshold as nat),
        concat(loud.drop_last()).len() <= cfg.max_buffer_samples,
        concat(loud).len() > cfg.max_buffer_samples,
        next.energy >= cfg.start_threshold,
    ensures
        emissions(cfg, idle_state(), loud) == Seq::<Emission>::empty(),
        run(cfg, idle_state(), loud) == idle_state(),
        run(cfg, idle_state(), loud.push(next)) == (VadState {
            phase: Phase::Recording,
            silence_run: 0,
            peak: next.energy,
            buffer: next.samples,
        }),
        emissions(cfg, idle_state(), loud.push(next)) == Seq::<Emission>::empty(),
{
    let s0 = idle_state();
    let body = loud.drop_last();
    let first = body[0];
    let rest = body.drop_first();
    assert(body =~= seq![first] + rest);
    assert(first == loud[0]);
    lemma_concat_add(seq![first], rest);
    lemma_single(cfg, s0, first);
    let s1 = run(cfg, s0, seq![first]);
    assert forall|i: int| 0 <= i < rest.len() implies (#[trigger] rest[i]).energy
        >= cfg.end_threshold by {
        assert(rest[i] == loud[i + 1]);
    }
    lemma_recording_loud(cfg, s1, rest);
    lemma_run_concat(cfg, s0, seq![first], rest);
    let s2 = run(cfg, s0, body);
    assert(s2.buffer =~= concat(body));
    assert(emissions(cfg, s0, body) =~= Seq::<Emission>::empty());
    assert(loud.last() == loud[loud.len() - 1]);
    assert(loud.push(next).drop_last() =~= loud);
    assert(loud.push(next).last() == next);
}

} // verus!
