//! A stiff string given by its physical dimensions.

use crate::models::Excitation;
use crate::single::Single;
use vstd::prelude::*;

verus! {

/// A stiff string given by its physical dimensions.
#[derive(Clone, Copy, Debug, PartialEq, Eq, Structural)]
pub struct PureString {
    /// Speaking length, metres.
    pub length_m: Single,
    /// Tension, newtons.
    pub tension_n: Single,
    /// Gauge, millimetres.
    pub diameter_mm: Single,
    /// Material density.
    pub density_kgm3: Single,
    /// Young's modulus, GPa.
    pub youngs_gpa: Single,
    /// Pluck point along the string.
    pub pluck_pos: Single,
    /// Seconds to fall by 60 dB.
    pub decay_time: Single,
    /// Extra damping of high modes.
    pub hf_damping: Single,
    /// Modes summed.
    pub num_modes: usize,
    /// How it is excited.
    pub excitation: Excitation,
    /// Strike magnitude below which nothing sounds.
    pub play_magnitude: Single,
    /// Strike magnitude at full level.
    pub max_magnitude: Single,
}

/// The settings a fresh PureString starts with.
pub open spec fn pure_string_defaults() -> PureString {
    PureString {
        length_m: Single { bits: 0x3F26_6666 },  // 0.65
        tension_n: Single { bits: 0x428C_0000 },  // 70.0
        diameter_mm: Single { bits: 0x3F00_0000 },  // 0.5
        density_kgm3: Single { bits: 0x45F5_5000 },  // 7850.0
        youngs_gpa: Single { bits: 0x4348_0000 },  // 200.0
        pluck_pos: Single { bits: 0x3E0F_5C29 },  // 0.14
        decay_time: Single { bits: 0x3FCC_CCCD },  // 1.6
        hf_damping: Single { bits: 0x3F00_0000 },  // 0.5
        num_modes: 40,
        excitation: Excitation::Struck,
        play_magnitude: Single { bits: 0x0000_0000 },  // 0.0
        max_magnitude: Single { bits: 0x451C_4000 },  // 2500.0
    }
}

impl Default for PureString {
    fn default() -> (r: Self)
        ensures
            r == pure_string_defaults(),
    {
        PureString {
            length_m: Single { bits: 0x3F26_6666 },  // 0.65
            tension_n: Single { bits: 0x428C_0000 },  // 70.0
            diameter_mm: Single { bits: 0x3F00_0000 },  // 0.5
            density_kgm3: Single { bits: 0x45F5_5000 },  // 7850.0
            youngs_gpa: Single { bits: 0x4348_0000 },  // 200.0
            pluck_pos: Single { bits: 0x3E0F_5C29 },  // 0.14
            decay_time: Single { bits: 0x3FCC_CCCD },  // 1.6
            hf_damping: Single { bits: 0x3F00_0000 },  // 0.5
            num_modes: 40,
            excitation: Excitation::Struck,
            play_magnitude: Single { bits: 0x0000_0000 },  // 0.0
            max_magnitude: Single { bits: 0x451C_4000 },  // 2500.0
        }
    }
}

/// The settings to start with are these decimals.
pub proof fn pure_string_starts_at()
    ensures
        pure_string_defaults().length_m == crate::decimal::decimal(0_6500),
        pure_string_defaults().tension_n == crate::decimal::decimal(70_0000),
        pure_string_defaults().diameter_mm == crate::decimal::decimal(0_5000),
        pure_string_defaults().density_kgm3 == crate::decimal::decimal(7850_0000),
        pure_string_defaults().youngs_gpa == crate::decimal::decimal(200_0000),
        pure_string_defaults().pluck_pos == crate::decimal::decimal(0_1400),
        pure_string_defaults().decay_time == crate::decimal::decimal(1_6000),
        pure_string_defaults().hf_damping == crate::decimal::decimal(0_5000),
        pure_string_defaults().play_magnitude.bits == 0,
        pure_string_defaults().max_magnitude == crate::decimal::decimal(2500_0000),
        pure_string_defaults().num_modes == 40,
        pure_string_defaults().excitation == Excitation::Struck,
{
    vstd::arithmetic::power2::lemma2_to64();
    vstd::arithmetic::power2::lemma2_to64_rest();
    crate::decimal::decimal_is(0_6500, 24, 0x1000000, 0xA66666);
    crate::decimal::decimal_is(70_0000, 17, 0x20000, 0x8C0000);
    crate::decimal::decimal_is(0_5000, 24, 0x1000000, 0x800000);
    crate::decimal::decimal_is(7850_0000, 11, 0x800, 0xF55000);
    crate::decimal::decimal_is(200_0000, 16, 0x10000, 0xC80000);
    crate::decimal::decimal_is(0_1400, 26, 0x4000000, 0x8F5C29);
    crate::decimal::decimal_is(1_6000, 23, 0x800000, 0xCCCCCD);
    crate::decimal::decimal_is(2500_0000, 12, 0x1000, 0x9C4000);
}

} // verus!
