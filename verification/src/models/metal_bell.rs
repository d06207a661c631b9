//! A struck idiophone: a few inharmonic partials and a click.

use crate::single::Single;
use vstd::prelude::*;

verus! {

/// A struck idiophone: a few inharmonic partials and a click.
#[derive(Clone, Copy, Debug, PartialEq, Eq, Structural)]
pub struct MetalBell {
    /// Partials summed.
    pub partials: usize,
    /// Spacing of the partials.
    pub spread: Single,
    /// Stretch of the partials.
    pub inharmonicity: Single,
    /// Level of the upper partials.
    pub brightness: Single,
    /// Seconds to fall by 60 dB.
    pub decay_time: Single,
    /// Level of the click.
    pub strike_noise: Single,
    /// Whether the key sets the pitch.
    pub key_tracks_pitch: bool,
}

/// The settings a fresh MetalBell starts with.
pub open spec fn metal_bell_defaults() -> MetalBell {
    MetalBell {
        partials: 3,
        spread: Single { bits: 0x3EF5_C28F },  // 0.48
        inharmonicity: Single { bits: 0x3D4C_CCCD },  // 0.05
        brightness: Single { bits: 0x3F19_999A },  // 0.6
        decay_time: Single { bits: 0x3F00_0000 },  // 0.5
        strike_noise: Single { bits: 0x3E80_0000 },  // 0.25
        key_tracks_pitch: true,
    }
}

impl Default for MetalBell {
    fn default() -> (r: Self)
        ensures
            r == metal_bell_defaults(),
    {
        MetalBell {
            partials: 3,
            spread: Single { bits: 0x3EF5_C28F },  // 0.48
            inharmonicity: Single { bits: 0x3D4C_CCCD },  // 0.05
            brightness: Single { bits: 0x3F19_999A },  // 0.6
            decay_time: Single { bits: 0x3F00_0000 },  // 0.5
            strike_noise: Single { bits: 0x3E80_0000 },  // 0.25
            key_tracks_pitch: true,
        }
    }
}

/// The settings to start with are these decimals.
pub proof fn metal_bell_starts_at()
    ensures
        metal_bell_defaults().spread == crate::decimal::decimal(0_4800),
        metal_bell_defaults().inharmonicity == crate::decimal::decimal(0_0500),
        metal_bell_defaults().brightness == crate::decimal::decimal(0_6000),
        metal_bell_defaults().decay_time == crate::decimal::decimal(0_5000),
        metal_bell_defaults().strike_noise == crate::decimal::decimal(0_2500),
        metal_bell_defaults().partials == 3,
        metal_bell_defaults().key_tracks_pitch,
{
    vstd::arithmetic::power2::lemma2_to64();
    vstd::arithmetic::power2::lemma2_to64_rest();
    crate::decimal::decimal_is(0_4800, 25, 0x2000000, 0xF5C28F);
    crate::decimal::decimal_is(0_0500, 28, 0x10000000, 0xCCCCCD);
    crate::decimal::decimal_is(0_6000, 24, 0x1000000, 0x99999A);
    crate::decimal::decimal_is(0_5000, 24, 0x1000000, 0x800000);
    crate::decimal::decimal_is(0_2500, 25, 0x2000000, 0x800000);
}

} // verus!
