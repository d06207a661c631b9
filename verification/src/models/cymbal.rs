//! A stiff metal plate with dense inharmonic modes and a noise wash.

use crate::single::Single;
use vstd::prelude::*;

verus! {

/// A stiff metal plate with dense inharmonic modes and a noise wash.
#[derive(Clone, Copy, Debug, PartialEq, Eq, Structural)]
pub struct Cymbal {
    /// Diameter, inches.
    pub size: Single,
    /// Plate stiffness.
    pub stiffness: Single,
    /// Uniform damping.
    pub damping: Single,
    /// Tilt of the spectrum.
    pub brightness: Single,
    /// Strike point, centre to rim.
    pub strike_pos: Single,
    /// Modes summed.
    pub modes: usize,
    /// Level of the noise wash.
    pub shimmer: Single,
    /// Whether the key sets the pitch.
    pub key_tracks_pitch: bool,
}

/// The settings a fresh Cymbal starts with.
pub open spec fn cymbal_defaults() -> Cymbal {
    Cymbal {
        size: Single { bits: 0x4180_0000 },  // 16.0
        stiffness: Single { bits: 0x4100_0000 },  // 8.0
        damping: Single { bits: 0x3F99_999A },  // 1.2
        brightness: Single { bits: 0xBECC_CCCD },  // -0.4
        strike_pos: Single { bits: 0x3F40_0000 },  // 0.75
        modes: 140,
        shimmer: Single { bits: 0x3EB3_3333 },  // 0.35
        key_tracks_pitch: true,
    }
}

impl Default for Cymbal {
    fn default() -> (r: Self)
        ensures
            r == cymbal_defaults(),
    {
        Cymbal {
            size: Single { bits: 0x4180_0000 },  // 16.0
            stiffness: Single { bits: 0x4100_0000 },  // 8.0
            damping: Single { bits: 0x3F99_999A },  // 1.2
            brightness: Single { bits: 0xBECC_CCCD },  // -0.4
            strike_pos: Single { bits: 0x3F40_0000 },  // 0.75
            modes: 140,
            shimmer: Single { bits: 0x3EB3_3333 },  // 0.35
            key_tracks_pitch: true,
        }
    }
}

/// The settings to start with are these decimals.
pub proof fn cymbal_starts_at()
    ensures
        cymbal_defaults().size == crate::decimal::decimal(16_0000),
        cymbal_defaults().stiffness == crate::decimal::decimal(8_0000),
        cymbal_defaults().damping == crate::decimal::decimal(1_2000),
        cymbal_defaults().brightness == crate::decimal::minus(0_4000),
        cymbal_defaults().strike_pos == crate::decimal::decimal(0_7500),
        cymbal_defaults().shimmer == crate::decimal::decimal(0_3500),
        cymbal_defaults().modes == 140,
        cymbal_defaults().key_tracks_pitch,
{
    vstd::arithmetic::power2::lemma2_to64();
    vstd::arithmetic::power2::lemma2_to64_rest();
    crate::decimal::decimal_is(16_0000, 19, 0x80000, 0x800000);
    crate::decimal::decimal_is(8_0000, 20, 0x100000, 0x800000);
    crate::decimal::decimal_is(1_2000, 23, 0x800000, 0x99999A);
    crate::decimal::decimal_is(0_4000, 25, 0x2000000, 0xCCCCCD);
    crate::decimal::decimal_is(0_7500, 24, 0x1000000, 0xC00000);
    crate::decimal::decimal_is(0_3500, 25, 0x2000000, 0xB33333);
}

} // verus!
