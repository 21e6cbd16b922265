use vstd::prelude::*;

verus! {

/// Largest volume level, in hundredths (a level of 1.0).
pub const MAX_LEVEL: u8 = 100;

/// Smallest volume level, in hundredths (a level of 0.0).
pub const MIN_LEVEL: u8 = 0;

/// Level a fresh `Volume` starts at, in hundredths (a level of 0.5).
pub const DEFAULT_LEVEL: u8 = 50;

/// The level, in hundredths, after one increase from `l`.
pub open spec fn up_step(l: nat) -> nat {
    if l < MAX_LEVEL { l + 1 } else { l }
}

/// The level, in hundredths, after one decrease from `l`.
pub open spec fn down_step(l: nat) -> nat {
    if l > MIN_LEVEL { (l - 1) as nat } else { l }
}

/// The level after `n` increases in a row from `l`.
pub open spec fn level_after_ups(l: nat, n: nat) -> nat
    decreases n,
{
    if n == 0 { l } else { up_step(level_after_ups(l, (n - 1) as nat)) }
}

/// The level after `n` decreases in a row from `l`.
pub open spec fn level_after_downs(l: nat, n: nat) -> nat
    decreases n,
{
    if n == 0 { l } else { down_step(level_after_downs(l, (n - 1) as nat)) }
}

/// Increases are bounded: `n` increases from a level `l` give
/// `min(l + n, 1.0)`; once at 1.0 the level stays there.
pub proof fn lemma_ups_clamp(l: nat, n: nat)
    requires
        l <= MAX_LEVEL,
    ensures
        level_after_ups(l, n) == if l + n <= MAX_LEVEL { l + n } else { MAX_LEVEL as nat },
    decreases n,
{
    if n > 0 {
        lemma_ups_clamp(l, (n - 1) as nat);
    }
}

/// Decreases are bounded: `n` decreases from a level `l` give
/// `max(l - n, 0.0)`; once at 0.0 the level stays there.
pub proof fn lemma_downs_clamp(l: nat, n: nat)
    requires
        l <= MAX_LEVEL,
    ensures
        level_after_downs(l, n) == if l >= n { (l - n) as nat } else { MIN_LEVEL as nat },
    decreases n,
{
    if n > 0 {
        lemma_downs_clamp(l, (n - 1) as nat);
    }
}

/// The boundary a volume step ran into.
#[derive(Debug, Clone, Copy, PartialEq, Eq, Structural)]
pub enum VolumeBound {
    /// The level is already 1.0.
    AtMax,
    /// The level is already 0.0.
    AtMin,
}

/// A volume level in `[0.0, 1.0]`, held exactly as a whole number of
/// hundredths so that each step of 0.01 is exact.
#[derive(Debug, Clone, Copy)]
pub struct Volume {
    level: u8,
}

impl View for Volume {
    type V = nat;

    /// The level in hundredths: `self@ == 100` stands for 1.0.
    closed spec fn view(&self) -> nat {
        self.level as nat
    }
}

impl Volume {
    #[verifier::type_invariant]
    spec fn bounded(self) -> bool {
        self.level <= MAX_LEVEL
    }

    /// A volume at the default level of 0.5.
    pub fn new() -> (v: Self)
        ensures
            v@ == DEFAULT_LEVEL as nat,
    {
        Volume { level: DEFAULT_LEVEL }
    }

    /// The current level, in hundredths.
    pub fn volume(&self) -> (r: u8)
        ensures
            r as nat == self@,
            r <= MAX_LEVEL,
    {
        proof { use_type_invariant(self); }
        self.level
    }

    /// The level as a percentage, `round(level * 100)`; exact here since the
    /// level is held in hundredths.
    pub fn vol_percent(&self) -> (r: u16)
        ensures
            r as nat == self@,
            r <= 100,
    {
        proof { use_type_invariant(self); }
        self.level as u16
    }

    /// Raises the level by one step of 0.01. At 1.0 it fails with
    /// `AtMax` and leaves the level as it was.
    pub fn vol_up(&mut self) -> (r: Result<(), VolumeBound>)
        ensures
            final(self)@ == up_step(old(self)@),
            old(self)@ < MAX_LEVEL as nat ==> r is Ok && final(self)@ == old(self)@ + 1,
            old(self)@ >= MAX_LEVEL as nat ==> r == Err::<(), VolumeBound>(VolumeBound::AtMax)
                && final(self)@ == old(self)@,
    {
        proof { use_type_invariant(&*self); }
        if self.level < MAX_LEVEL {
            self.level = self.level + 1;
            Ok(())
        } else {
            Err(VolumeBound::AtMax)
        }
    }

    /// Lowers the level by one step of 0.01. At 0.0 it fails with
    /// `AtMin` and leaves the level as it was.
    pub fn vol_down(&mut self) -> (r: Result<(), VolumeBound>)
        ensures
            final(self)@ == down_step(old(self)@),
            old(self)@ > MIN_LEVEL as nat ==> r is Ok && final(self)@ + 1 == old(self)@,
            old(self)@ == MIN_LEVEL as nat ==> r == Err::<(), VolumeBound>(VolumeBound::AtMin)
                && final(self)@ == old(self)@,
    {
        proof { use_type_invariant(&*self); }
        if self.level > MIN_LEVEL {
            self.level = self.level - 1;
            Ok(())
        } else {
            Err(VolumeBound::AtMin)
        }
    }
}

} // verus!
