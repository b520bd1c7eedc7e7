//! The real-time render path.
//!
//! The renderer owns the published current-note snapshot for the duration
//! of a callback and fills a caller-owned interleaved buffer of frames by
//! channels, without blocking, allocating per frame, or rescanning the
//! note table: per frame it advances the snapshot's phase accumulator one
//! sample and writes the square-wave level — or zero for silence —
//! identically to every channel. Levels are unit amplitudes (`-1`, `0` or
//! `+1`); a host scales them by its output gain when converting to its
//! sample format.

use vstd::arithmetic::div_mod::lemma_fundamental_div_mod;
use vstd::arithmetic::div_mod::lemma_fundamental_div_mod_converse;
use vstd::arithmetic::div_mod::lemma_mod_bound;
use vstd::arithmetic::div_mod::lemma_small_mod;
use vstd::arithmetic::mul::lemma_mul_inequality;
use vstd::arithmetic::mul::lemma_mul_is_commutative;
use vstd::arithmetic::mul::lemma_mul_is_distributive_add_other_way;
use vstd::arithmetic::mul::lemma_mul_nonnegative;
use vstd::prelude::*;

use crate::notes::CurrentNoteSnapshot;
use crate::pitch::lemma_frequency_range;
use crate::tone::next_square_sample;
use crate::tone::square_wave_level;

verus! {

/// The state the render callback owns: the latest published snapshot and
/// the stream's sample rate.
pub struct RenderState {
    pub snapshot: CurrentNoteSnapshot,
    pub sample_rate: u32,
}

/// A snapshot after `n` rendered samples: silence stays silence; a playing
/// note keeps its key and pitch while its phase accumulator advances `n`
/// samples, wrapped modulo the sample rate.
pub open spec fn spec_advance(
    snap: CurrentNoteSnapshot,
    n: int,
    sample_rate: int,
) -> CurrentNoteSnapshot {
    match snap {
        CurrentNoteSnapshot::Silence => CurrentNoteSnapshot::Silence,
        CurrentNoteSnapshot::Playing { key, freq_millihz, phase } => CurrentNoteSnapshot::Playing {
            key,
            freq_millihz,
            phase: ((phase + n) % sample_rate) as u32,
        },
    }
}

/// The level every channel of the `n`-th rendered frame carries (frames
/// counted from zero): zero for silence, else the square wave at the
/// note's phase advanced by `n + 1` samples (the generator steps the phase
/// before it sounds).
pub open spec fn spec_frame_level(snap: CurrentNoteSnapshot, sample_rate: int, n: int) -> int {
    match snap {
        CurrentNoteSnapshot::Silence => 0,
        CurrentNoteSnapshot::Playing { key, freq_millihz, phase } => square_wave_level(
            freq_millihz as int,
            (phase + n + 1) % sample_rate,
            sample_rate,
        ),
    }
}

/// The sample an interleaved buffer holds for channel `c` of frame `n`.
pub open spec fn frame_sample(s: Seq<i8>, channels: int, n: int, c: int) -> i8 {
    s[n * channels + c]
}

/// Wrapping one more sample into an already-wrapped phase accumulator
/// lands where wrapping all the samples at once lands.
proof fn lemma_wrap_step(a: int, sr: int)
    requires
        0 <= a,
        0 < sr,
    ensures
        ((a % sr) + 1) % sr == (a + 1) % sr,
{
    lemma_fundamental_div_mod(a, sr);
    lemma_mod_bound(a, sr);
    let q = a / sr;
    let r = a % sr;
    if r + 1 < sr {
        assert(a + 1 == q * sr + (r + 1)) by {
            lemma_mul_is_commutative(q, sr);
        }
        lemma_fundamental_div_mod_converse(a + 1, sr, q, r + 1);
        lemma_small_mod((r + 1) as nat, sr as nat);
    } else {
        assert(a + 1 == (q + 1) * sr + 0) by {
            lemma_mul_is_distributive_add_other_way(sr, q, 1);
            lemma_mul_is_commutative(q, sr);
        }
        lemma_fundamental_div_mod_converse(a + 1, sr, q + 1, 0);
        vstd::arithmetic::div_mod::lemma_mod_self_0(sr);
    }
}

/// A frame index decomposed as `m * channels + c` stays below the block of
/// `n` full frames whenever `m < n`.
proof fn lemma_frame_index_bound(m: int, c: int, n: int, channels: int)
    requires
        0 <= m < n,
        0 <= c < channels,
    ensures
        0 <= m * channels + c < n * channels,
{
    lemma_mul_nonnegative(m, channels);
    lemma_mul_is_distributive_add_other_way(channels, m, 1);
    lemma_mul_inequality(m + 1, n, channels);
}

impl RenderState {
    /// A well-formed renderer has a positive sample rate, a coherent
    /// snapshot, and a phase accumulator wrapped into range.
    pub open spec fn wf(self) -> bool {
        &&& 0 < self.sample_rate
        &&& self.snapshot.wf()
        &&& self.snapshot matches CurrentNoteSnapshot::Playing { key, freq_millihz, phase }
            ==> phase < self.sample_rate
    }

    /// Bind a renderer to a published snapshot and the stream's sample
    /// rate, wrapping the snapshot's phase accumulator into range.
    pub fn new(snapshot: CurrentNoteSnapshot, sample_rate: u32) -> (st: RenderState)
        requires
            0 < sample_rate,
            snapshot.wf(),
        ensures
            st.wf(),
            st.sample_rate == sample_rate,
            st.snapshot == spec_advance(snapshot, 0, sample_rate as int),
    {
        let wrapped = match snapshot {
            CurrentNoteSnapshot::Silence => CurrentNoteSnapshot::Silence,
            CurrentNoteSnapshot::Playing { key, freq_millihz, phase } => {
                proof {
                    lemma_mod_bound(phase as int, sample_rate as int);
                }
                CurrentNoteSnapshot::Playing { key, freq_millihz, phase: phase % sample_rate }
            },
        };
        RenderState { snapshot: wrapped, sample_rate }
    }

    /// Replace the snapshot the renderer reads with a freshly published
    /// one, keeping the sample rate.
    pub fn publish(&mut self, snapshot: CurrentNoteSnapshot)
        requires
            old(self).wf(),
            snapshot.wf(),
        ensures
            final (self).wf(),
            final (self).sample_rate == old(self).sample_rate,
            final (self).snapshot == spec_advance(snapshot, 0, old(self).sample_rate as int),
    {
        let next = RenderState::new(snapshot, self.sample_rate);
        self.snapshot = next.snapshot;
    }
}

/// One render callback: fill an interleaved buffer of `frames` frames by
/// `channels` channels. Every channel of a frame carries the same level;
/// silence renders zeros; a playing note sounds the square wave, its phase
/// advancing one sample per frame, wrapped modulo the sample rate.
pub fn render_block(state: &mut RenderState, frames: usize, channels: usize) -> (out: Vec<i8>)
    requires
        old(state).wf(),
        0 < channels,
        frames * channels <= usize::MAX,
    ensures
        final (state).wf(),
        final (state).sample_rate == old(state).sample_rate,
        final (state).snapshot == spec_advance(
            old(state).snapshot,
            frames as int,
            old(state).sample_rate as int,
        ),
        out@.len() == frames * channels,
        forall|n: int, c: int|
            0 <= n < frames && 0 <= c < channels ==> #[trigger] frame_sample(out@, channels as int, n, c)
                == spec_frame_level(old(state).snapshot, old(state).sample_rate as int, n),
        forall|i: int| 0 <= i < out@.len() ==> -1 <= #[trigger] out@[i] <= 1,
{
    let ghost snap0 = state.snapshot;
    let ghost sr = state.sample_rate as int;
    let mut out: Vec<i8> = Vec::new();
    let mut n: usize = 0;
    proof {
        lemma_mul_nonnegative(frames as int, channels as int);
        if snap0 is Playing {
            lemma_small_mod(snap0->Playing_phase as nat, state.sample_rate as nat);
        }
    }
    while n < frames
        invariant
            n <= frames,
            0 < channels,
            frames * channels <= usize::MAX,
            state.wf(),
            state.sample_rate == sr,
            state.snapshot == spec_advance(snap0, n as int, sr),
            snap0.wf(),
            out@.len() == n * channels,
            forall|m: int, c: int|
                0 <= m < n && 0 <= c < channels ==> #[trigger] frame_sample(out@, channels as int, m, c)
                    == spec_frame_level(snap0, sr, m),
            forall|i: int| 0 <= i < out@.len() ==> -1 <= #[trigger] out@[i] <= 1,
        decreases frames - n,
    {
        let value: i8 = match state.snapshot {
            CurrentNoteSnapshot::Silence => 0,
            CurrentNoteSnapshot::Playing { key, freq_millihz, phase } => {
                proof {
                    lemma_frequency_range(key as int);
                }
                let (level, new_phase) = next_square_sample(
                    freq_millihz,
                    phase,
                    state.sample_rate,
                );
                state.snapshot = CurrentNoteSnapshot::Playing {
                    key,
                    freq_millihz,
                    phase: new_phase,
                };
                proof {
                    let ghost p0 = snap0->Playing_phase as int;
                    lemma_wrap_step(p0 + n as int, sr);
                }
                level
            },
        };
        assert(value == spec_frame_level(snap0, sr, n as int));
        assert(state.snapshot == spec_advance(snap0, n as int + 1, sr));
        let ghost out_before = out@;
        let ghost nch = n as int * channels as int;
        let mut c: usize = 0;
        proof {
            lemma_mul_nonnegative(n as int, channels as int);
            lemma_mul_is_distributive_add_other_way(channels as int, n as int, 1);
            lemma_mul_inequality(n as int + 1, frames as int, channels as int);
        }
        while c < channels
            invariant
                c <= channels,
                0 < channels,
                0 <= nch,
                nch + channels <= frames * channels <= usize::MAX,
                out_before.len() == nch,
                out@.len() == nch + c,
                forall|i: int| 0 <= i < nch ==> out@[i] == out_before[i],
                forall|j: int| nch <= j < nch + c ==> out@[j] == value,
                -1 <= value <= 1,
            decreases channels - c,
        {
            out.push(value);
            c = c + 1;
        }
        proof {
            assert forall|m: int, cc: int|
                0 <= m < n + 1 && 0 <= cc < channels implies #[trigger] frame_sample(
                out@,
                channels as int,
                m,
                cc,
            ) == spec_frame_level(snap0, sr, m) by {
                if m < n {
                    lemma_frame_index_bound(m, cc, n as int, channels as int);
                    assert(out@[m * channels + cc] == out_before[m * channels + cc]);
                    assert(frame_sample(out_before, channels as int, m, cc) == spec_frame_level(
                        snap0,
                        sr,
                        m,
                    ));
                } else {
                    assert(m * channels == nch);
                    assert(out@[nch + cc] == value);
                }
            }
            assert forall|i: int| 0 <= i < out@.len() implies -1 <= #[trigger] out@[i] <= 1 by {
                if i < nch {
                    assert(out@[i] == out_before[i]);
                    assert(-1 <= out_before[i] <= 1);
                } else {
                    assert(out@[i] == value);
                }
            }
        }
        n = n + 1;
    }
    out
}

} // verus!
