//! A plucked string with music-friendly controls.

use crate::single::Single;
use vstd::prelude::*;

verus! {

/// A plucked string with music-friendly controls.
#[derive(Clone, Copy, Debug, PartialEq, Eq, Structural)]
pub struct MusicalString {
    /// Pluck point along the string.
    pub pluck_pos: Single,
    /// Stretch of the partials.
    pub inharmonicity: Single,
    /// Seconds to fall by 60 dB.
    pub decay_time: Single,
    /// Extra damping of high modes.
    pub hf_damping: Single,
    /// Modes summed.
    pub num_modes: usize,
}

/// The settings a fresh MusicalString starts with.
pub open spec fn musical_string_defaults() -> MusicalString {
    MusicalString {
        pluck_pos: Single { bits: 0x3F00_0000 },  // 0.5
        inharmonicity: Single { bits: 0x3A51_B717 },  // 0.0008
        decay_time: Single { bits: 0x4020_0000 },  // 2.5
        hf_damping: Single { bits: 0x3EB3_3333 },  // 0.35
        num_modes: 32,
    }
}

impl Default for MusicalString {
    fn default() -> (r: Self)
        ensures
            r == musical_string_defaults(),
    {
        MusicalString {
            pluck_pos: Single { bits: 0x3F00_0000 },  // 0.5
            inharmonicity: Single { bits: 0x3A51_B717 },  // 0.0008
            decay_time: Single { bits: 0x4020_0000 },  // 2.5
            hf_damping: Single { bits: 0x3EB3_3333 },  // 0.35
            num_modes: 32,
        }
    }
}

/// The settings to start with are these decimals.
pub proof fn musical_string_starts_at()
    ensures
        musical_string_defaults().pluck_pos == crate::decimal::decimal(0_5000),
        musical_string_defaults().inharmonicity == crate::decimal::decimal(0_0008),
        musical_string_defaults().decay_time == crate::decimal::decimal(2_5000),
        musical_string_defaults().hf_damping == crate::decimal::decimal(0_3500),
        musical_string_defaults().num_modes == 32,
{
    vstd::arithmetic::power2::lemma2_to64();
    vstd::arithmetic::power2::lemma2_to64_rest();
    crate::decimal::decimal_is(0_5000, 24, 0x1000000, 0x800000);
    crate::decimal::decimal_is(0_0008, 34, 0x400000000, 0xD1B717);
    crate::decimal::decimal_is(2_5000, 22, 0x400000, 0xA00000);
    crate::decimal::decimal_is(0_3500, 25, 0x2000000, 0xB33333);
}

} // verus!
