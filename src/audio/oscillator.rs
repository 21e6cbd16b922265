use vstd::prelude::*;

verus! {

/// Number of distinct phase values: the phase counter is a `u32` that wraps.
pub open spec fn phase_modulus() -> nat {
    0x1_0000_0000
}

/// Where sample number `phase` of a tone of `freq` Hz falls within one
/// period, in units of `1 / rate` of a cycle: sample `phase` of the tone is
/// `sin(2π · position / rate)`, which equals `sin(2π · freq · phase / rate)`
/// since the sine is periodic.
pub open spec fn cycle_position(freq: nat, phase: nat, rate: nat) -> nat
    recommends
        rate > 0,
{
    (freq * phase) % rate
}

/// What a tone oscillator is, mathematically.
pub struct ToneView {
    pub freq: nat,
    pub rate: nat,
    pub phase: nat,
}

/// A pure sine tone of a fixed frequency at a fixed sample rate, evaluated
/// directly from a sample counter.
///
/// The counter wraps after `2^32` samples. Since the sine is periodic this
/// only re-enters the wave at another point, a phase error too small to hear
/// at audio rates; it is accepted rather than treated as a fault.
pub struct SineWaveform {
    freq: u32,
    sample_rate: u32,
    phase: u32,
}

impl View for SineWaveform {
    type V = ToneView;

    closed spec fn view(&self) -> ToneView {
        ToneView { freq: self.freq as nat, rate: self.sample_rate as nat, phase: self.phase as nat }
    }
}

impl SineWaveform {
    /// A tone at phase 0. `sample_rate` must be positive.
    pub fn new(freq: u32, sample_rate: u32) -> (s: Self)
        requires
            sample_rate > 0,
        ensures
            s@ == (ToneView { freq: freq as nat, rate: sample_rate as nat, phase: 0 }),
    {
        SineWaveform { freq, sample_rate, phase: 0 }
    }

    /// Position of the current sample within its cycle (see
    /// `cycle_position`); then advances the phase by one, wrapping.
    pub fn next(&mut self) -> (r: u32)
        requires
            old(self)@.rate > 0,
        ensures
            r as nat == cycle_position(old(self)@.freq, old(self)@.phase, old(self)@.rate),
            r < old(self)@.rate,
            final(self)@ == (ToneView { phase: (old(self)@.phase + 1) % phase_modulus(), ..old(self)@ }),
    {
        let f: u64 = self.freq as u64;
        let p: u64 = self.phase as u64;
        assert(f * p <= 0xffff_ffff * 0xffff_ffff) by (nonlinear_arith)
            requires
                f <= 0xffff_ffff,
                p <= 0xffff_ffff,
        ;
        let product: u64 = f * p;
        let r = (product % self.sample_rate as u64) as u32;
        self.phase = self.phase.wrapping_add(1);
        r
    }
}

} // verus!
