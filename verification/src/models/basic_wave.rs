//! A band-limited reference oscillator.

use crate::models;
use crate::single::Single;
use vstd::prelude::*;

verus! {

/// The wave shapes of the reference oscillator.
#[derive(Clone, Copy, Debug, PartialEq, Eq, Structural)]
pub enum Waveform {
    /// Odd harmonics, falling fast.
    Triangle,
    /// Every harmonic.
    Saw,
}

/// A band-limited reference oscillator.
#[derive(Clone, Copy, Debug, PartialEq, Eq, Structural)]
pub struct BasicWave {
    /// Which wave shape it plays.
    pub waveform: Waveform,
    /// Harmonics summed.
    pub harmonics: usize,
    /// Seconds to fall by 60 dB.
    pub decay_time: Single,
}

/// The settings a fresh BasicWave starts with.
pub open spec fn basic_wave_defaults() -> BasicWave {
    BasicWave {
        waveform: Waveform::Triangle,
        harmonics: 24,
        decay_time: Single { bits: 0x4000_0000 },  // 2.0
    }
}

impl Default for BasicWave {
    fn default() -> (r: Self)
        ensures
            r == basic_wave_defaults(),
    {
        BasicWave {
            waveform: Waveform::Triangle,
            harmonics: 24,
            decay_time: Single { bits: 0x4000_0000 },  // 2.0
        }
    }
}

impl BasicWave {
    /// Partial `k` of the series, counted from zero: its number, and whether it is added
    /// (or taken away). A triangle has the odd partials, a saw all of them.
    pub open spec fn partial_of(self, k: int) -> (int, bool) {
        match self.waveform {
            Waveform::Triangle => (2 * k + 1, k % 2 == 0),
            Waveform::Saw => (k + 1, k % 2 == 0),
        }
    }

    /// The partials to sum: the number of each, and whether it is added.
    pub fn partials(&self) -> (r: Vec<(usize, bool)>)
        ensures
            r@.len() == models::modes_summed(self.harmonics),
            forall|k: int|
                0 <= k < r@.len() ==> ((#[trigger] r@[k]).0 as int, r@[k].1) == self.partial_of(k),
    {
        let n: usize = models::mode_count(self.harmonics);
        let mut r: Vec<(usize, bool)> = Vec::new();
        let mut k: usize = 0;
        while k < n
            invariant
                n <= models::MAX_MODES,
                k <= n,
                r@.len() == k,
                forall|j: int|
                    0 <= j < k ==> ((#[trigger] r@[j]).0 as int, r@[j].1) == self.partial_of(j),
            decreases n - k,
        {
            let number: usize = match self.waveform {
                Waveform::Triangle => 2 * k + 1,
                Waveform::Saw => k + 1,
            };
            r.push((number, k % 2 == 0));
            k += 1;
        }
        r
    }
}

/// No partial of a wave is summed twice, and they come from the lowest up.
pub proof fn partials_rise(w: BasicWave, j: int, k: int)
    requires
        0 <= j < k,
    ensures
        0 < w.partial_of(j).0 < w.partial_of(k).0,
{
}

/// The settings to start with are these decimals.
pub proof fn basic_wave_starts_at()
    ensures
        basic_wave_defaults().decay_time == crate::decimal::decimal(2_0000),
        basic_wave_defaults().waveform == Waveform::Triangle,
        basic_wave_defaults().harmonics == 24,
{
    vstd::arithmetic::power2::lemma2_to64();
    vstd::arithmetic::power2::lemma2_to64_rest();
    crate::decimal::decimal_is(2_0000, 22, 0x400000, 0x800000);
}

} // verus!
