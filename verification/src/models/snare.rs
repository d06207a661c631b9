//! A drum head with snare-wire noise.

use crate::single::Single;
use vstd::prelude::*;

verus! {

/// A drum head with snare-wire noise.
#[derive(Clone, Copy, Debug, PartialEq, Eq, Structural)]
pub struct Snare {
    /// Head tension.
    pub tension: Single,
    /// Head damping.
    pub damping: Single,
    /// Strike point, centre to rim.
    pub strike_pos: Single,
    /// Modes summed.
    pub depth: usize,
    /// Level of the wires.
    pub snares: Single,
    /// Decay rate of the wires.
    pub snare_decay: Single,
    /// Brightness of the wires.
    pub tone: Single,
    /// Whether the key sets the pitch.
    pub key_tracks_pitch: bool,
}

/// The settings a fresh Snare starts with.
pub open spec fn snare_defaults() -> Snare {
    Snare {
        tension: Single { bits: 0x442F_0000 },  // 700.0
        damping: Single { bits: 0x4140_0000 },  // 12.0
        strike_pos: Single { bits: 0x3ECC_CCCD },  // 0.4
        depth: 24,
        snares: Single { bits: 0x3F19_999A },  // 0.6
        snare_decay: Single { bits: 0x4170_0000 },  // 15.0
        tone: Single { bits: 0x3F19_999A },  // 0.6
        key_tracks_pitch: true,
    }
}

impl Default for Snare {
    fn default() -> (r: Self)
        ensures
            r == snare_defaults(),
    {
        Snare {
            tension: Single { bits: 0x442F_0000 },  // 700.0
            damping: Single { bits: 0x4140_0000 },  // 12.0
            strike_pos: Single { bits: 0x3ECC_CCCD },  // 0.4
            depth: 24,
            snares: Single { bits: 0x3F19_999A },  // 0.6
            snare_decay: Single { bits: 0x4170_0000 },  // 15.0
            tone: Single { bits: 0x3F19_999A },  // 0.6
            key_tracks_pitch: true,
        }
    }
}

/// The settings to start with are these decimals.
pub proof fn snare_starts_at()
    ensures
        snare_defaults().tension == crate::decimal::decimal(700_0000),
        snare_defaults().damping == crate::decimal::decimal(12_0000),
        snare_defaults().strike_pos == crate::decimal::decimal(0_4000),
        snare_defaults().snares == crate::decimal::decimal(0_6000),
        snare_defaults().snare_decay == crate::decimal::decimal(15_0000),
        snare_defaults().tone == crate::decimal::decimal(0_6000),
        snare_defaults().depth == 24,
        snare_defaults().key_tracks_pitch,
{
    vstd::arithmetic::power2::lemma2_to64();
    vstd::arithmetic::power2::lemma2_to64_rest();
    crate::decimal::decimal_is(700_0000, 14, 0x4000, 0xAF0000);
    crate::decimal::decimal_is(12_0000, 20, 0x100000, 0xC00000);
    crate::decimal::decimal_is(0_4000, 25, 0x2000000, 0xCCCCCD);
    crate::decimal::decimal_is(0_6000, 24, 0x1000000, 0x99999A);
    crate::decimal::decimal_is(15_0000, 20, 0x100000, 0xF00000);
}

} // verus!
