//! A free circular plate.

use crate::single::Single;
use vstd::prelude::*;

verus! {

/// A free circular plate.
#[derive(Clone, Copy, Debug, PartialEq, Eq, Structural)]
pub struct PurePlate {
    /// Poisson's ratio.
    pub poisson: Single,
    /// Seconds to fall by 60 dB.
    pub decay_time: Single,
    /// Extra damping of high modes.
    pub hf_damp: Single,
    /// Strike point, centre to rim.
    pub strike_pos: Single,
    /// Modes summed.
    pub modes: usize,
    /// Whether the key sets the pitch.
    pub key_tracks_pitch: bool,
}

/// The settings a fresh PurePlate starts with.
pub open spec fn pure_plate_defaults() -> PurePlate {
    PurePlate {
        poisson: Single { bits: 0x3EA8_F5C3 },  // 0.33
        decay_time: Single { bits: 0x4080_0000 },  // 4.0
        hf_damp: Single { bits: 0x3ECC_CCCD },  // 0.4
        strike_pos: Single { bits: 0x3F33_3333 },  // 0.7
        modes: 90,
        key_tracks_pitch: true,
    }
}

impl Default for PurePlate {
    fn default() -> (r: Self)
        ensures
            r == pure_plate_defaults(),
    {
        PurePlate {
            poisson: Single { bits: 0x3EA8_F5C3 },  // 0.33
            decay_time: Single { bits: 0x4080_0000 },  // 4.0
            hf_damp: Single { bits: 0x3ECC_CCCD },  // 0.4
            strike_pos: Single { bits: 0x3F33_3333 },  // 0.7
            modes: 90,
            key_tracks_pitch: true,
        }
    }
}

/// The settings to start with are these decimals.
pub proof fn pure_plate_starts_at()
    ensures
        pure_plate_defaults().poisson == crate::decimal::decimal(0_3300),
        pure_plate_defaults().decay_time == crate::decimal::decimal(4_0000),
        pure_plate_defaults().hf_damp == crate::decimal::decimal(0_4000),
        pure_plate_defaults().strike_pos == crate::decimal::decimal(0_7000),
        pure_plate_defaults().modes == 90,
        pure_plate_defaults().key_tracks_pitch,
{
    vstd::arithmetic::power2::lemma2_to64();
    vstd::arithmetic::power2::lemma2_to64_rest();
    crate::decimal::decimal_is(0_3300, 25, 0x2000000, 0xA8F5C3);
    crate::decimal::decimal_is(4_0000, 21, 0x200000, 0x800000);
    crate::decimal::decimal_is(0_4000, 25, 0x2000000, 0xCCCCCD);
    crate::decimal::decimal_is(0_7000, 24, 0x1000000, 0xB33333);
}

} // verus!
