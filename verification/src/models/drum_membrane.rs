//! A circular drum head.

use crate::models::Excitation;
use crate::single::Single;
use vstd::prelude::*;

verus! {

/// A circular drum head.
#[derive(Clone, Copy, Debug, PartialEq, Eq, Structural)]
pub struct DrumMembrane {
    /// Radius, metres.
    pub radius_m: Single,
    /// Tension, newtons per metre.
    pub tension_nm: Single,
    /// Mass per area.
    pub areal_density_kgm2: Single,
    /// Bending stiffness.
    pub bending_nm: Single,
    /// Strike point, centre to rim.
    pub strike_pos: Single,
    /// Seconds to fall by 60 dB.
    pub decay_time: Single,
    /// Extra damping of high modes.
    pub hf_damping: Single,
    /// Modes summed.
    pub num_modes: usize,
    /// How it is excited.
    pub excitation: Excitation,
    /// Strike magnitude below which nothing sounds.
    pub play_magnitude: Single,
    /// Strike magnitude at full level.
    pub max_magnitude: Single,
}

/// The settings a fresh DrumMembrane starts with.
pub open spec fn drum_membrane_defaults() -> DrumMembrane {
    DrumMembrane {
        radius_m: Single { bits: 0x3E28_F5C3 },  // 0.165
        tension_nm: Single { bits: 0x44BB_8000 },  // 1500.0
        areal_density_kgm2: Single { bits: 0x3E85_1EB8 },  // 0.26
        bending_nm: Single { bits: 0x0000_0000 },  // 0.0
        strike_pos: Single { bits: 0x3F00_0000 },  // 0.5
        decay_time: Single { bits: 0x3ECC_CCCD },  // 0.4
        hf_damping: Single { bits: 0x4040_0000 },  // 3.0
        num_modes: 32,
        excitation: Excitation::Struck,
        play_magnitude: Single { bits: 0x0000_0000 },  // 0.0
        max_magnitude: Single { bits: 0x451C_4000 },  // 2500.0
    }
}

impl Default for DrumMembrane {
    fn default() -> (r: Self)
        ensures
            r == drum_membrane_defaults(),
    {
        DrumMembrane {
            radius_m: Single { bits: 0x3E28_F5C3 },  // 0.165
            tension_nm: Single { bits: 0x44BB_8000 },  // 1500.0
            areal_density_kgm2: Single { bits: 0x3E85_1EB8 },  // 0.26
            bending_nm: Single { bits: 0x0000_0000 },  // 0.0
            strike_pos: Single { bits: 0x3F00_0000 },  // 0.5
            decay_time: Single { bits: 0x3ECC_CCCD },  // 0.4
            hf_damping: Single { bits: 0x4040_0000 },  // 3.0
            num_modes: 32,
            excitation: Excitation::Struck,
            play_magnitude: Single { bits: 0x0000_0000 },  // 0.0
            max_magnitude: Single { bits: 0x451C_4000 },  // 2500.0
        }
    }
}

/// The settings to start with are these decimals.
pub proof fn drum_membrane_starts_at()
    ensures
        drum_membrane_defaults().radius_m == crate::decimal::decimal(0_1650),
        drum_membrane_defaults().tension_nm == crate::decimal::decimal(1500_0000),
        drum_membrane_defaults().areal_density_kgm2 == crate::decimal::decimal(0_2600),
        drum_membrane_defaults().bending_nm.bits == 0,
        drum_membrane_defaults().strike_pos == crate::decimal::decimal(0_5000),
        drum_membrane_defaults().decay_time == crate::decimal::decimal(0_4000),
        drum_membrane_defaults().hf_damping == crate::decimal::decimal(3_0000),
        drum_membrane_defaults().play_magnitude.bits == 0,
        drum_membrane_defaults().max_magnitude == crate::decimal::decimal(2500_0000),
        drum_membrane_defaults().num_modes == 32,
        drum_membrane_defaults().excitation == Excitation::Struck,
{
    vstd::arithmetic::power2::lemma2_to64();
    vstd::arithmetic::power2::lemma2_to64_rest();
    crate::decimal::decimal_is(0_1650, 26, 0x4000000, 0xA8F5C3);
    crate::decimal::decimal_is(1500_0000, 13, 0x2000, 0xBB8000);
    crate::decimal::decimal_is(0_2600, 25, 0x2000000, 0x851EB8);
    crate::decimal::decimal_is(0_5000, 24, 0x1000000, 0x800000);
    crate::decimal::decimal_is(0_4000, 25, 0x2000000, 0xCCCCCD);
    crate::decimal::decimal_is(3_0000, 22, 0x400000, 0xC00000);
    crate::decimal::decimal_is(2500_0000, 12, 0x1000, 0x9C4000);
}

} // verus!
