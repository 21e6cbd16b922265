use std::sync::Arc;
use std::sync::Mutex;
use vstd::prelude::*;

use crate::audio::oscillator::{cycle_position, phase_modulus, SineWaveform};
use crate::audio::shared::try_read_volume;
use crate::audio::volume::{Volume, MAX_LEVEL};

verus! {

/// Number of interleaved channels in the stream.
pub const CHANNELS: u16 = 2;

/// Volume snapshot a fresh generator starts with, in hundredths (1.0).
pub const INITIAL_SNAPSHOT: u8 = 100;

/// One output sample, described exactly: the sample is
/// `sin(2π · cycle_pos / sample_rate) · level / 100`.
#[derive(Debug, Clone, Copy, PartialEq, Eq, Structural)]
pub struct SamplePoint {
    /// Whether the sample comes from the high tone (else the low one).
    pub high: bool,
    /// Position within the tone's cycle, in `1 / sample_rate` of a cycle.
    pub cycle_pos: u32,
    /// The stream's sample rate.
    pub sample_rate: u32,
    /// Volume applied to the sample, in hundredths.
    pub level: u8,
}

/// The high tone of a binaural pair: `center + beat / 2`.
pub open spec fn high_freq(center: nat, beat: nat) -> nat {
    center + beat / 2
}

/// The low tone of a binaural pair: `center - beat / 2`.
pub open spec fn low_freq(center: nat, beat: nat) -> int {
    center - beat / 2
}

/// Whether the `k`-th sample of the stream (counting from 0) is taken from
/// the high tone: the stream alternates low, high, low, high, ...
pub open spec fn is_high_sample(k: nat) -> bool {
    k % 2 == 1
}

/// The phase at which the `k`-th sample of the stream reads its tone: each
/// tone advances once per pair of samples, wrapping like its counter.
pub open spec fn sample_phase(k: nat) -> nat {
    (k / 2) % phase_modulus()
}

/// A binaural-beat stream: two sine tones, `beat` Hz apart around a center
/// frequency, alternated sample by sample into interleaved stereo and scaled
/// by a volume shared with a control surface.
pub struct BinauralGenerator {
    center_freq: u32,
    binaural_freq: u32,
    sample_rate: u32,
    sine_high: SineWaveform,
    sine_low: SineWaveform,
    cur_high: bool,
    vol: u8,
    /// The volume shared with the control surface. The generator only ever
    /// tries to read it without blocking.
    pub next_vol: Arc<Mutex<Volume>>,
    emitted: Ghost<nat>,
}

impl BinauralGenerator {
    /// The center frequency, in Hz.
    pub closed spec fn center(&self) -> nat {
        self.center_freq as nat
    }

    /// The beat frequency, in Hz.
    pub closed spec fn beat(&self) -> nat {
        self.binaural_freq as nat
    }

    /// The sample rate, in Hz.
    pub closed spec fn rate(&self) -> nat {
        self.sample_rate as nat
    }

    /// How many samples the stream has produced so far.
    pub closed spec fn emitted(&self) -> nat {
        self.emitted@
    }

    /// The last volume read, in hundredths.
    pub closed spec fn snapshot(&self) -> nat {
        self.vol as nat
    }

    /// The state is consistent: each tone sits at the phase that the number
    /// of samples produced so far gives it, and the next sample comes from
    /// the tone that alternation calls for.
    pub closed spec fn wf(&self) -> bool {
        &&& self.sample_rate > 0
        &&& self.sine_high@.freq == high_freq(self.center_freq as nat, self.binaural_freq as nat)
        &&& self.sine_low@.freq == low_freq(self.center_freq as nat, self.binaural_freq as nat)
        &&& self.sine_high@.rate == self.sample_rate
        &&& self.sine_low@.rate == self.sample_rate
        &&& self.cur_high == is_high_sample(self.emitted@)
        &&& self.sine_low@.phase == sample_phase(self.emitted@ + 1)
        &&& self.sine_high@.phase == sample_phase(self.emitted@)
        &&& self.vol <= MAX_LEVEL
    }

    /// The sample the stream produces next, given the volume `level` that
    /// applies to it.
    pub open spec fn next_point(&self, level: nat) -> SamplePoint {
        let k = self.emitted();
        let high = is_high_sample(k);
        let freq = if high {
            high_freq(self.center(), self.beat())
        } else {
            low_freq(self.center(), self.beat()) as nat
        };
        SamplePoint {
            high,
            cycle_pos: cycle_position(freq, sample_phase(k), self.rate()) as u32,
            sample_rate: self.rate() as u32,
            level: level as u8,
        }
    }

    /// A generator for tones `center ± beat / 2`, with the low tone first,
    /// a volume snapshot of 1.0 and a fresh shared volume of 0.5.
    pub fn new(center_freq: u32, binaural_freq: u32, sample_rate: u32) -> (g: Self)
        requires
            sample_rate > 0,
            binaural_freq / 2 <= center_freq,
            center_freq + binaural_freq / 2 <= u32::MAX,
        ensures
            g.wf(),
            g.center() == center_freq,
            g.beat() == binaural_freq,
            g.rate() == sample_rate,
            g.emitted() == 0,
            g.snapshot() == INITIAL_SNAPSHOT,
    {
        let f_high = center_freq + binaural_freq / 2;
        let f_low = center_freq - binaural_freq / 2;
        BinauralGenerator {
            center_freq,
            binaural_freq,
            sample_rate,
            sine_high: SineWaveform::new(f_high, sample_rate),
            sine_low: SineWaveform::new(f_low, sample_rate),
            cur_high: false,
            vol: INITIAL_SNAPSHOT,
            next_vol: Arc::new(Mutex::new(Volume::new())),
            emitted: Ghost(0),
        }
    }

    /// Produces the next sample, given what a non-blocking read of the
    /// shared volume gave: `Some` replaces the snapshot, `None` (the lock was
    /// busy) keeps the previous one. Alternates low and high tone.
    pub fn next_with(&mut self, fresh: Option<Volume>) -> (r: SamplePoint)
        requires
            old(self).wf(),
        ensures
            final(self).wf(),
            final(self).center() == old(self).center(),
            final(self).beat() == old(self).beat(),
            final(self).rate() == old(self).rate(),
            final(self).emitted() == old(self).emitted() + 1,
            final(self).snapshot() == match fresh {
                Some(v) => v@,
                None => old(self).snapshot(),
            },
            r == old(self).next_point(final(self).snapshot()),
    {
        if let Some(v) = fresh {
            self.vol = v.volume();
        }
        let k = Ghost(self.emitted@);
        let cycle_pos = if self.cur_high {
            self.sine_high.next()
        } else {
            self.sine_low.next()
        };
        self.cur_high = !self.cur_high;
        self.emitted = Ghost(self.emitted@ + 1);
        proof {
            lemma_phase_step(k@ as int, phase_modulus() as int);
        }
        SamplePoint { high: !self.cur_high, cycle_pos, sample_rate: self.sample_rate, level: self.vol }
    }

    /// Produces the next sample, reading the shared volume without blocking;
    /// when the lock is busy the previous snapshot is used.
    pub fn next(&mut self) -> (r: SamplePoint)
        requires
            old(self).wf(),
        ensures
            final(self).wf(),
            final(self).center() == old(self).center(),
            final(self).beat() == old(self).beat(),
            final(self).rate() == old(self).rate(),
            final(self).emitted() == old(self).emitted() + 1,
            final(self).snapshot() <= MAX_LEVEL,
            r == old(self).next_point(final(self).snapshot()),
    {
        let fresh = try_read_volume(&self.next_vol);
        self.next_with(fresh)
    }

    /// The stream's channel count: two, interleaved.
    pub fn channels(&self) -> (r: u16)
        ensures
            r == CHANNELS,
    {
        CHANNELS
    }

    /// The stream's sample rate.
    pub fn sample_rate(&self) -> (r: u32)
        ensures
            r == self.rate(),
    {
        self.sample_rate
    }

    /// The frame length: unknown, the stream has no frames.
    pub fn current_frame_len(&self) -> (r: Option<usize>)
        ensures
            r is None,
    {
        None
    }

    /// The total duration: unknown, the stream never ends on its own.
    pub fn total_duration(&self) -> (r: Option<std::time::Duration>)
        ensures
            r is None,
    {
        None
    }
}

/// Channel alternation: of every pair of samples `2k`, `2k + 1`, the first
/// comes from the low tone and the second from the high tone, and both read
/// their tone at the same phase, `k` (wrapped like the phase counter).
pub proof fn lemma_alternation(k: nat)
    ensures
        !is_high_sample(2 * k),
        is_high_sample(2 * k + 1),
        sample_phase(2 * k) == k % phase_modulus(),
        sample_phase(2 * k + 1) == k % phase_modulus(),
{
}

/// Every sample is in range: its volume is at most 1.0 and its position lies
/// within one cycle, so `sin(2π · cycle_pos / sample_rate) · level / 100`
/// lies in `[-1.0, 1.0]`.
pub proof fn lemma_sample_in_range(g: &BinauralGenerator, level: nat)
    requires
        g.wf(),
        level <= MAX_LEVEL,
    ensures
        g.next_point(level).level <= MAX_LEVEL,
        g.next_point(level).cycle_pos < g.next_point(level).sample_rate,
        g.next_point(level).sample_rate == g.rate(),
{
    let k = g.emitted();
    let freq = if is_high_sample(k) {
        high_freq(g.center(), g.beat())
    } else {
        low_freq(g.center(), g.beat()) as nat
    };
    assert(cycle_position(freq, sample_phase(k), g.rate()) < g.rate());
}

/// Advancing a wrapped phase by one agrees with the phase of the next pair.
proof fn lemma_phase_step(k: int, m: int)
    requires
        k >= 0,
        m == phase_modulus(),
    ensures
        k % 2 == 0 ==> ((k + 1) / 2 % m + 1) % m == (k + 2) / 2 % m,
        k % 2 == 1 ==> (k / 2 % m + 1) % m == (k + 1) / 2 % m,
        k % 2 == 0 ==> (k + 1) / 2 == k / 2,
        k % 2 == 1 ==> (k + 2) / 2 == (k + 1) / 2,
{
    vstd::arithmetic::div_mod::lemma_add_mod_noop((k + 1) / 2, 1, m);
    vstd::arithmetic::div_mod::lemma_add_mod_noop(k / 2, 1, m);
    vstd::arithmetic::div_mod::lemma_small_mod(1, m as nat);
}

} // verus!
