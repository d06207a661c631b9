//! The parts that the built-in instruments are put together from. Numbers are given
//! in ten-thousandths, so that `0_6480` reads as 0.648.

use crate::decimal::{decimal, minus};
use crate::instrument::EngineParams;
use crate::models::basic_wave::{BasicWave, Waveform};
use crate::models::comp::Comp;
use crate::models::cymbal::Cymbal;
use crate::models::drum_membrane::DrumMembrane;
use crate::models::instrument_graph::{Edge, GraphView, InstrumentGraph};
use crate::models::key_map::{KeyBinding, KeyBindingView, KeyMapKind, KeyMapView};
use crate::models::metal_bell::MetalBell;
use crate::models::musical_string::MusicalString;
use crate::models::pure_plate::PurePlate;
use crate::models::pure_string::PureString;
use crate::models::snare::Snare;
use crate::models::webster_horn::{Boundary, PlayMode, Wavefront, WebsterHorn};
use crate::models::Excitation;
use crate::single::{Single, ZERO};
use vstd::prelude::*;

verus! {

/// What a string is made of.
#[derive(Clone, Copy, Debug, PartialEq, Eq, Structural)]
pub enum Material {
    /// Plain steel.
    Steel,
    /// Nickel winding.
    Nickel,
    /// Bronze winding.
    Bronze,
    /// Nylon.
    Nylon,
    /// Brass wire.
    Brass,
}

impl Material {
    /// Density, in kilograms per cubic metre.
    pub open spec fn density_value(self) -> Single {
        match self {
            Material::Steel => decimal(7850_0000),
            Material::Nickel => decimal(8900_0000),
            Material::Bronze => decimal(8740_0000),
            Material::Nylon => decimal(1150_0000),
            Material::Brass => decimal(8500_0000),
        }
    }

    /// Density, in kilograms per cubic metre.
    #[verifier::when_used_as_spec(density_value)]
    pub fn density(self) -> (r: Single)
        ensures
            r == self.density_value(),
    {
        match self {
            Material::Steel => decimal(7850_0000),
            Material::Nickel => decimal(8900_0000),
            Material::Bronze => decimal(8740_0000),
            Material::Nylon => decimal(1150_0000),
            Material::Brass => decimal(8500_0000),
        }
    }

    /// Young's modulus, in gigapascals.
    pub open spec fn stiffness_value(self) -> Single {
        match self {
            Material::Steel => decimal(200_0000),
            Material::Nickel => decimal(200_0000),
            Material::Bronze => decimal(105_0000),
            Material::Nylon => decimal(4_0000),
            Material::Brass => decimal(110_0000),
        }
    }

    /// Young's modulus, in gigapascals.
    #[verifier::when_used_as_spec(stiffness_value)]
    pub fn stiffness(self) -> (r: Single)
        ensures
            r == self.stiffness_value(),
    {
        match self {
            Material::Steel => decimal(200_0000),
            Material::Nickel => decimal(200_0000),
            Material::Bronze => decimal(105_0000),
            Material::Nylon => decimal(4_0000),
            Material::Brass => decimal(110_0000),
        }
    }
}

/// How a preset is played; strikes are never held back.
pub open spec fn engine_value(gain: u32, attack_ms: u32, release_ms: u32) -> EngineParams {
    EngineParams {
        gain: decimal(gain),
        attack_ms: decimal(attack_ms),
        release_ms: decimal(release_ms),
        retrigger_ms: Single { bits: ZERO },
    }
}

/// How a preset is played; strikes are never held back.
#[verifier::when_used_as_spec(engine_value)]
pub fn engine(gain: u32, attack_ms: u32, release_ms: u32) -> (r: EngineParams)
    ensures
        r == engine_value(gain, attack_ms, release_ms),
{
    EngineParams {
        gain: decimal(gain),
        attack_ms: decimal(attack_ms),
        release_ms: decimal(release_ms),
        retrigger_ms: Single { bits: ZERO },
    }
}

/// A string by its length, tension, gauge and material, its decay and damping, and
/// where it is plucked.
pub open spec fn string_value(
    length_m: u32,
    tension_n: u32,
    diameter_mm: u32,
    material: Material,
    decay_time: u32,
    hf_damping: u32,
    pluck_pos: u32,
) -> PureString {
    PureString {
        length_m: decimal(length_m),
        tension_n: decimal(tension_n),
        diameter_mm: decimal(diameter_mm),
        density_kgm3: material.density(),
        youngs_gpa: material.stiffness(),
        pluck_pos: decimal(pluck_pos),
        decay_time: decimal(decay_time),
        hf_damping: decimal(hf_damping),
        num_modes: 40,
        excitation: Excitation::Struck,
        play_magnitude: Single { bits: ZERO },
        max_magnitude: decimal(2500_0000),
    }
}

/// A string by its length, tension, gauge and material, its decay and damping, and
/// where it is plucked.
#[verifier::when_used_as_spec(string_value)]
pub fn string(
    length_m: u32,
    tension_n: u32,
    diameter_mm: u32,
    material: Material,
    decay_time: u32,
    hf_damping: u32,
    pluck_pos: u32,
) -> (r: PureString)
    ensures
        r == string_value(
            length_m,
            tension_n,
            diameter_mm,
            material,
            decay_time,
            hf_damping,
            pluck_pos,
        ),
{
    PureString {
        length_m: decimal(length_m),
        tension_n: decimal(tension_n),
        diameter_mm: decimal(diameter_mm),
        density_kgm3: material.density(),
        youngs_gpa: material.stiffness(),
        pluck_pos: decimal(pluck_pos),
        decay_time: decimal(decay_time),
        hf_damping: decimal(hf_damping),
        num_modes: 40,
        excitation: Excitation::Struck,
        play_magnitude: Single { bits: ZERO },
        max_magnitude: decimal(2500_0000),
    }
}

/// A drumhead.
pub open spec fn membrane_value(
    radius_m: u32,
    tension_nm: u32,
    areal_density_kgm2: u32,
    bending_nm: u32,
    strike_pos: u32,
    decay_time: u32,
    hf_damping: u32,
    num_modes: usize,
) -> DrumMembrane {
    DrumMembrane {
        radius_m: decimal(radius_m),
        tension_nm: decimal(tension_nm),
        areal_density_kgm2: decimal(areal_density_kgm2),
        bending_nm: decimal(bending_nm),
        strike_pos: decimal(strike_pos),
        decay_time: decimal(decay_time),
        hf_damping: decimal(hf_damping),
        num_modes,
        excitation: Excitation::Struck,
        play_magnitude: Single { bits: ZERO },
        max_magnitude: decimal(2500_0000),
    }
}

/// A drumhead.
#[verifier::when_used_as_spec(membrane_value)]
pub fn membrane(
    radius_m: u32,
    tension_nm: u32,
    areal_density_kgm2: u32,
    bending_nm: u32,
    strike_pos: u32,
    decay_time: u32,
    hf_damping: u32,
    num_modes: usize,
) -> (r: DrumMembrane)
    ensures
        r == membrane_value(
            radius_m,
            tension_nm,
            areal_density_kgm2,
            bending_nm,
            strike_pos,
            decay_time,
            hf_damping,
            num_modes,
        ),
{
    DrumMembrane {
        radius_m: decimal(radius_m),
        tension_nm: decimal(tension_nm),
        areal_density_kgm2: decimal(areal_density_kgm2),
        bending_nm: decimal(bending_nm),
        strike_pos: decimal(strike_pos),
        decay_time: decimal(decay_time),
        hf_damping: decimal(hf_damping),
        num_modes,
        excitation: Excitation::Struck,
        play_magnitude: Single { bits: ZERO },
        max_magnitude: decimal(2500_0000),
    }
}

/// A music-friendly string.
pub open spec fn musical_value(
    pluck_pos: u32,
    inharmonicity: u32,
    decay_time: u32,
    hf_damping: u32,
    num_modes: usize,
) -> MusicalString {
    MusicalString {
        pluck_pos: decimal(pluck_pos),
        inharmonicity: decimal(inharmonicity),
        decay_time: decimal(decay_time),
        hf_damping: decimal(hf_damping),
        num_modes,
    }
}

/// A music-friendly string.
#[verifier::when_used_as_spec(musical_value)]
pub fn musical(
    pluck_pos: u32,
    inharmonicity: u32,
    decay_time: u32,
    hf_damping: u32,
    num_modes: usize,
) -> (r: MusicalString)
    ensures
        r == musical_value(pluck_pos, inharmonicity, decay_time, hf_damping, num_modes),
{
    MusicalString {
        pluck_pos: decimal(pluck_pos),
        inharmonicity: decimal(inharmonicity),
        decay_time: decimal(decay_time),
        hf_damping: decimal(hf_damping),
        num_modes,
    }
}

/// A bell that follows the key.
pub open spec fn bell_value(
    partials: usize,
    spread: u32,
    inharmonicity: u32,
    brightness: u32,
    decay_time: u32,
    strike_noise: u32,
) -> MetalBell {
    MetalBell {
        partials,
        spread: decimal(spread),
        inharmonicity: decimal(inharmonicity),
        brightness: decimal(brightness),
        decay_time: decimal(decay_time),
        strike_noise: decimal(strike_noise),
        key_tracks_pitch: true,
    }
}

/// A bell that follows the key.
#[verifier::when_used_as_spec(bell_value)]
pub fn bell(
    partials: usize,
    spread: u32,
    inharmonicity: u32,
    brightness: u32,
    decay_time: u32,
    strike_noise: u32,
) -> (r: MetalBell)
    ensures
        r == bell_value(partials, spread, inharmonicity, brightness, decay_time, strike_noise),
{
    MetalBell {
        partials,
        spread: decimal(spread),
        inharmonicity: decimal(inharmonicity),
        brightness: decimal(brightness),
        decay_time: decimal(decay_time),
        strike_noise: decimal(strike_noise),
        key_tracks_pitch: true,
    }
}

/// A cymbal that follows the key; `darkness` is its brightness below zero.
pub open spec fn cymbal_value(
    size: u32,
    stiffness: u32,
    damping: u32,
    darkness: u32,
    strike_pos: u32,
    modes: usize,
    shimmer: u32,
) -> Cymbal {
    Cymbal {
        size: decimal(size),
        stiffness: decimal(stiffness),
        damping: decimal(damping),
        brightness: minus(darkness),
        strike_pos: decimal(strike_pos),
        modes,
        shimmer: decimal(shimmer),
        key_tracks_pitch: true,
    }
}

/// A cymbal that follows the key; `darkness` is its brightness below zero.
#[verifier::when_used_as_spec(cymbal_value)]
pub fn cymbal(
    size: u32,
    stiffness: u32,
    damping: u32,
    darkness: u32,
    strike_pos: u32,
    modes: usize,
    shimmer: u32,
) -> (r: Cymbal)
    ensures
        r == cymbal_value(size, stiffness, damping, darkness, strike_pos, modes, shimmer),
{
    Cymbal {
        size: decimal(size),
        stiffness: decimal(stiffness),
        damping: decimal(damping),
        brightness: minus(darkness),
        strike_pos: decimal(strike_pos),
        modes,
        shimmer: decimal(shimmer),
        key_tracks_pitch: true,
    }
}

/// A free plate that follows the key.
pub open spec fn plate_value(
    poisson: u32,
    decay_time: u32,
    hf_damp: u32,
    strike_pos: u32,
    modes: usize,
) -> PurePlate {
    PurePlate {
        poisson: decimal(poisson),
        decay_time: decimal(decay_time),
        hf_damp: decimal(hf_damp),
        strike_pos: decimal(strike_pos),
        modes,
        key_tracks_pitch: true,
    }
}

/// A free plate that follows the key.
#[verifier::when_used_as_spec(plate_value)]
pub fn plate(
    poisson: u32,
    decay_time: u32,
    hf_damp: u32,
    strike_pos: u32,
    modes: usize,
) -> (r: PurePlate)
    ensures
        r == plate_value(poisson, decay_time, hf_damp, strike_pos, modes),
{
    PurePlate {
        poisson: decimal(poisson),
        decay_time: decimal(decay_time),
        hf_damp: decimal(hf_damp),
        strike_pos: decimal(strike_pos),
        modes,
        key_tracks_pitch: true,
    }
}

/// A snare drum that follows the key.
pub open spec fn snare_value(
    tension: u32,
    damping: u32,
    strike_pos: u32,
    depth: usize,
    snares: u32,
    snare_decay: u32,
    tone: u32,
) -> Snare {
    Snare {
        tension: decimal(tension),
        damping: decimal(damping),
        strike_pos: decimal(strike_pos),
        depth,
        snares: decimal(snares),
        snare_decay: decimal(snare_decay),
        tone: decimal(tone),
        key_tracks_pitch: true,
    }
}

/// A snare drum that follows the key.
#[verifier::when_used_as_spec(snare_value)]
pub fn snare(
    tension: u32,
    damping: u32,
    strike_pos: u32,
    depth: usize,
    snares: u32,
    snare_decay: u32,
    tone: u32,
) -> (r: Snare)
    ensures
        r == snare_value(tension, damping, strike_pos, depth, snares, snare_decay, tone),
{
    Snare {
        tension: decimal(tension),
        damping: decimal(damping),
        strike_pos: decimal(strike_pos),
        depth,
        snares: decimal(snares),
        snare_decay: decimal(snare_decay),
        tone: decimal(tone),
        key_tracks_pitch: true,
    }
}

/// A reference oscillator.
pub open spec fn wave_value(waveform: Waveform, harmonics: usize, decay_time: u32) -> BasicWave {
    BasicWave { waveform, harmonics, decay_time: decimal(decay_time) }
}

/// A reference oscillator.
#[verifier::when_used_as_spec(wave_value)]
pub fn wave(waveform: Waveform, harmonics: usize, decay_time: u32) -> (r: BasicWave)
    ensures
        r == wave_value(waveform, harmonics, decay_time),
{
    BasicWave { waveform, harmonics, decay_time: decimal(decay_time) }
}

/// A resonant body.
pub open spec fn body_value(cavity_litres: u32, soundhole_cm: u32, top_hz: u32, decay_s: u32) -> Comp {
    Comp::Body {
        cavity_litres: decimal(cavity_litres),
        soundhole_cm: decimal(soundhole_cm),
        top_hz: decimal(top_hz),
        decay_s: decimal(decay_s),
    }
}

/// A resonant body.
#[verifier::when_used_as_spec(body_value)]
pub fn body(cavity_litres: u32, soundhole_cm: u32, top_hz: u32, decay_s: u32) -> (r: Comp)
    ensures
        r == body_value(cavity_litres, soundhole_cm, top_hz, decay_s),
{
    Comp::Body {
        cavity_litres: decimal(cavity_litres),
        soundhole_cm: decimal(soundhole_cm),
        top_hz: decimal(top_hz),
        decay_s: decimal(decay_s),
    }
}

/// Snare wires.
pub open spec fn wires_value(level: u32, tone: u32) -> Comp {
    Comp::Wires { level: decimal(level), tone: decimal(tone) }
}

/// Snare wires.
#[verifier::when_used_as_spec(wires_value)]
pub fn wires(level: u32, tone: u32) -> (r: Comp)
    ensures
        r == wires_value(level, tone),
{
    Comp::Wires { level: decimal(level), tone: decimal(tone) }
}

/// A felt hammer.
pub open spec fn hammer_value(hardness: u32, felt: u32) -> Comp {
    Comp::Hammer { hardness: decimal(hardness), felt: decimal(felt) }
}

/// A felt hammer.
#[verifier::when_used_as_spec(hammer_value)]
pub fn hammer(hardness: u32, felt: u32) -> (r: Comp)
    ensures
        r == hammer_value(hardness, felt),
{
    Comp::Hammer { hardness: decimal(hardness), felt: decimal(felt) }
}

/// A vocal-fold source.
pub open spec fn voice_value(open_quotient: u32, level: u32) -> Comp {
    Comp::Voice { open_quotient: decimal(open_quotient), level: decimal(level) }
}

/// A vocal-fold source.
#[verifier::when_used_as_spec(voice_value)]
pub fn voice(open_quotient: u32, level: u32) -> (r: Comp)
    ensures
        r == voice_value(open_quotient, level),
{
    Comp::Voice { open_quotient: decimal(open_quotient), level: decimal(level) }
}

/// A bowed string, bowed at the usual place.
pub open spec fn bowed_string_value(speed: u32, force: u32) -> Comp {
    Comp::BowedString {
        bow_pos: decimal(0_0900),
        brightness: decimal(0_6000),
        speed: decimal(speed),
        force: decimal(force),
    }
}

/// A bowed string, bowed at the usual place.
#[verifier::when_used_as_spec(bowed_string_value)]
pub fn bowed_string(speed: u32, force: u32) -> (r: Comp)
    ensures
        r == bowed_string_value(speed, force),
{
    Comp::BowedString {
        bow_pos: decimal(0_0900),
        brightness: decimal(0_6000),
        speed: decimal(speed),
        force: decimal(force),
    }
}

/// A plucked string of a guitar's dimensions.
pub open spec fn plucked_string_value(pos: u32, decay: u32, damping: u32) -> Comp {
    Comp::PluckedString {
        length_m: decimal(0_6480),
        tension_n: decimal(90_0000),
        core_mm: decimal(0_4000),
        youngs_gpa: decimal(200_0000),
        open_hz: decimal(82_4000),
        pos: decimal(pos),
        decay: decimal(decay),
        damping: decimal(damping),
    }
}

/// A plucked string of a guitar's dimensions.
#[verifier::when_used_as_spec(plucked_string_value)]
pub fn plucked_string(pos: u32, decay: u32, damping: u32) -> (r: Comp)
    ensures
        r == plucked_string_value(pos, decay, damping),
{
    Comp::PluckedString {
        length_m: decimal(0_6480),
        tension_n: decimal(90_0000),
        core_mm: decimal(0_4000),
        youngs_gpa: decimal(200_0000),
        open_hz: decimal(82_4000),
        pos: decimal(pos),
        decay: decimal(decay),
        damping: decimal(damping),
    }
}

/// An edge.
pub open spec fn edge_value(from: usize, to: usize, gain: u32) -> Edge {
    Edge { from, to, gain: decimal(gain) }
}

/// An edge.
#[verifier::when_used_as_spec(edge_value)]
pub fn edge(from: usize, to: usize, gain: u32) -> (r: Edge)
    ensures
        r == edge_value(from, to, gain),
{
    Edge { from, to, gain: decimal(gain) }
}

/// A vocal tract.
pub open spec fn vocal_tract_value() -> WebsterHorn {
    WebsterHorn {
        r1: decimal(0_0120),
        r2: decimal(0_0200),
        r3: decimal(0_0150),
        length: decimal(0_1700),
        wave_speed: decimal(343_0000),
        blow_pos: Single { bits: ZERO },
        depth: 18,
        resolution: 200,
        damping: decimal(6_0000),
        freq_dep_damping: minus(0_0800),
        visco_loss: decimal(1_5000),
        radiation: decimal(0_4000),
        damp_period: decimal(100_0000),
        play_magnitude: Single { bits: ZERO },
        max_magnitude: decimal(2500_0000),
        key_tracks_pitch: true,
        boundary: Boundary::Open,
        wavefront: Wavefront::Planar,
        play_mode: PlayMode::Chromatic,
        valve_steps: 6,
        overblow_anchor_hz: decimal(82_4100),
        overblow_microtune: true,
    }
}

/// A vocal tract.
#[verifier::when_used_as_spec(vocal_tract_value)]
pub fn vocal_tract() -> (r: WebsterHorn)
    ensures
        r == vocal_tract_value(),
{
    WebsterHorn {
        r1: decimal(0_0120),
        r2: decimal(0_0200),
        r3: decimal(0_0150),
        length: decimal(0_1700),
        wave_speed: decimal(343_0000),
        blow_pos: Single { bits: ZERO },
        depth: 18,
        resolution: 200,
        damping: decimal(6_0000),
        freq_dep_damping: minus(0_0800),
        visco_loss: decimal(1_5000),
        radiation: decimal(0_4000),
        damp_period: decimal(100_0000),
        play_magnitude: Single { bits: ZERO },
        max_magnitude: decimal(2500_0000),
        key_tracks_pitch: true,
        boundary: Boundary::Open,
        wavefront: Wavefront::Planar,
        play_mode: PlayMode::Chromatic,
        valve_steps: 6,
        overblow_anchor_hz: decimal(82_4100),
        overblow_microtune: true,
    }
}

/// A woodwind air column, whose length the key sets: open or conical with all
/// harmonics, or a closed cylinder with the odd ones.
pub open spec fn wood_horn_value(all_harmonics: bool) -> WebsterHorn {
    WebsterHorn {
        r1: decimal(0_0073),
        r2: if all_harmonics {
            decimal(0_0150)
        } else {
            Single { bits: ZERO }
        },
        r3: decimal(0_0020),
        length: if all_harmonics {
            decimal(0_6555)
        } else {
            decimal(0_3280)
        },
        wave_speed: decimal(343_0000),
        blow_pos: Single { bits: ZERO },
        depth: 16,
        resolution: 220,
        damping: decimal(20_0000),
        freq_dep_damping: Single { bits: ZERO },
        visco_loss: decimal(4_0000),
        radiation: decimal(1_0000),
        damp_period: decimal(100_0000),
        play_magnitude: Single { bits: ZERO },
        max_magnitude: decimal(2500_0000),
        key_tracks_pitch: false,
        boundary: if all_harmonics {
            Boundary::Open
        } else {
            Boundary::Brass
        },
        wavefront: Wavefront::Planar,
        play_mode: PlayMode::Chromatic,
        valve_steps: 6,
        overblow_anchor_hz: decimal(82_4100),
        overblow_microtune: true,
    }
}

/// A woodwind air column, whose length the key sets: open or conical with all
/// harmonics, or a closed cylinder with the odd ones.
#[verifier::when_used_as_spec(wood_horn_value)]
pub fn wood_horn(all_harmonics: bool) -> (r: WebsterHorn)
    ensures
        r == wood_horn_value(all_harmonics),
{
    WebsterHorn {
        r1: decimal(0_0073),
        r2: if all_harmonics {
            decimal(0_0150)
        } else {
            Single { bits: ZERO }
        },
        r3: decimal(0_0020),
        length: if all_harmonics {
            decimal(0_6555)
        } else {
            decimal(0_3280)
        },
        wave_speed: decimal(343_0000),
        blow_pos: Single { bits: ZERO },
        depth: 16,
        resolution: 220,
        damping: decimal(20_0000),
        freq_dep_damping: Single { bits: ZERO },
        visco_loss: decimal(4_0000),
        radiation: decimal(1_0000),
        damp_period: decimal(100_0000),
        play_magnitude: Single { bits: ZERO },
        max_magnitude: decimal(2500_0000),
        key_tracks_pitch: false,
        boundary: if all_harmonics {
            Boundary::Open
        } else {
            Boundary::Brass
        },
        wavefront: Wavefront::Planar,
        play_mode: PlayMode::Chromatic,
        valve_steps: 6,
        overblow_anchor_hz: decimal(82_4100),
        overblow_microtune: true,
    }
}

/// A flaring brass air column with six valve steps, overblown from its longest tube.
pub open spec fn brass_horn_value(anchor: u32) -> WebsterHorn {
    WebsterHorn {
        r1: decimal(0_0060),
        r2: decimal(0_0150),
        r3: decimal(0_0700),
        length: decimal(0_6000),
        wave_speed: decimal(343_0000),
        blow_pos: Single { bits: ZERO },
        depth: 24,
        resolution: 400,
        damping: decimal(40_0000),
        freq_dep_damping: minus(0_0800),
        visco_loss: decimal(6_0000),
        radiation: decimal(4_0000),
        damp_period: decimal(100_0000),
        play_magnitude: Single { bits: ZERO },
        max_magnitude: decimal(2500_0000),
        key_tracks_pitch: true,
        boundary: Boundary::Brass,
        wavefront: Wavefront::Spherical,
        play_mode: PlayMode::OverblowTracked,
        valve_steps: 6,
        overblow_anchor_hz: decimal(anchor),
        overblow_microtune: true,
    }
}

/// A flaring brass air column with six valve steps, overblown from its longest tube.
#[verifier::when_used_as_spec(brass_horn_value)]
pub fn brass_horn(anchor: u32) -> (r: WebsterHorn)
    ensures
        r == brass_horn_value(anchor),
{
    WebsterHorn {
        r1: decimal(0_0060),
        r2: decimal(0_0150),
        r3: decimal(0_0700),
        length: decimal(0_6000),
        wave_speed: decimal(343_0000),
        blow_pos: Single { bits: ZERO },
        depth: 24,
        resolution: 400,
        damping: decimal(40_0000),
        freq_dep_damping: minus(0_0800),
        visco_loss: decimal(6_0000),
        radiation: decimal(4_0000),
        damp_period: decimal(100_0000),
        play_magnitude: Single { bits: ZERO },
        max_magnitude: decimal(2500_0000),
        key_tracks_pitch: true,
        boundary: Boundary::Brass,
        wavefront: Wavefront::Spherical,
        play_mode: PlayMode::OverblowTracked,
        valve_steps: 6,
        overblow_anchor_hz: decimal(anchor),
        overblow_microtune: true,
    }
}

/// A binding that makes a parameter follow a power of the pitch.
pub open spec fn power_view(component: usize, param: Seq<char>, amount: Single) -> KeyBindingView {
    KeyBindingView { component, map: KeyMapView::Power { param, amount } }
}

/// A binding that makes a parameter follow a power of the pitch.
pub fn power(component: usize, param: &str, amount: Single) -> (r: KeyBinding)
    ensures
        r@ == power_view(component, param@, amount),
{
    KeyBinding { component, map: KeyMapKind::Power { param: param.to_owned(), amount } }
}

/// A plucked string lightly coloured by a body. Treble strings ring shorter than the
/// bass.
pub open spec fn plucked_view(
    pos: u32,
    decay: u32,
    damping: u32,
    body_litres: u32,
    body_hz: u32,
    dry: u32,
    body_gain: u32,
) -> GraphView {
    GraphView {
        components: seq![
            plucked_string(pos, decay, damping),
            body(body_litres, 3_0000, body_hz, 0_2000),
            Comp::Mix,
        ],
        edges: seq![edge(0, 2, dry), edge(0, 1, 1_0000), edge(1, 2, body_gain)],
        output: 2,
        key_map: seq![power_view(0, "decay"@, minus(0_7000))],
    }
}

/// A plucked string lightly coloured by a body.
pub fn plucked(
    pos: u32,
    decay: u32,
    damping: u32,
    body_litres: u32,
    body_hz: u32,
    dry: u32,
    body_gain: u32,
) -> (r: InstrumentGraph)
    ensures
        r@ == plucked_view(pos, decay, damping, body_litres, body_hz, dry, body_gain),
{
    let r = InstrumentGraph {
        components: vec![
            plucked_string(pos, decay, damping),
            body(body_litres, 3_0000, body_hz, 0_2000),
            Comp::Mix,
        ],
        edges: vec![edge(0, 2, dry), edge(0, 1, 1_0000), edge(1, 2, body_gain)],
        output: 2,
        key_map: vec![power(0, "decay", minus(0_7000))],
    };
    assert(r@ =~= plucked_view(pos, decay, damping, body_litres, body_hz, dry, body_gain));
    r
}

/// An engine has the gain, attack and release that it is asked for, and no time after which a key
/// strikes again.
pub proof fn engine_parts_fit(gain: u32, attack_ms: u32, release_ms: u32) -> (r: EngineParams)
    ensures
        r == engine_value(gain, attack_ms, release_ms),
        r.gain == decimal(gain),
        r.attack_ms == decimal(attack_ms),
        r.release_ms == decimal(release_ms),
        r.retrigger_ms.bits == 0,
{
    engine_value(gain, attack_ms, release_ms)
}

/// A string has the sizes, the damping and the material that it is asked for, and is struck.
pub proof fn string_parts_fit(
    length_m: u32,
    tension_n: u32,
    diameter_mm: u32,
    material: Material,
    decay_time: u32,
    hf_damping: u32,
    pluck_pos: u32,
) -> (r: PureString)
    ensures
        r == string_value(
            length_m,
            tension_n,
            diameter_mm,
            material,
            decay_time,
            hf_damping,
            pluck_pos,
        ),
        r.length_m == decimal(length_m),
        r.tension_n == decimal(tension_n),
        r.diameter_mm == decimal(diameter_mm),
        r.density_kgm3 == material.density(),
        r.youngs_gpa == material.stiffness(),
        r.pluck_pos == decimal(pluck_pos),
        r.decay_time == decimal(decay_time),
        r.hf_damping == decimal(hf_damping),
        r.num_modes == 40,
        r.excitation == Excitation::Struck,
        r.play_magnitude.bits == 0,
        r.max_magnitude == decimal(2500_0000),
{
    string_value(length_m, tension_n, diameter_mm, material, decay_time, hf_damping, pluck_pos)
}

/// A membrane has the sizes and the damping that it is asked for, and is struck.
pub proof fn membrane_parts_fit(
    radius_m: u32,
    tension_nm: u32,
    areal_density_kgm2: u32,
    bending_nm: u32,
    strike_pos: u32,
    decay_time: u32,
    hf_damping: u32,
    num_modes: usize,
) -> (r: DrumMembrane)
    ensures
        r == membrane_value(
            radius_m,
            tension_nm,
            areal_density_kgm2,
            bending_nm,
            strike_pos,
            decay_time,
            hf_damping,
            num_modes,
        ),
        r.radius_m == decimal(radius_m),
        r.tension_nm == decimal(tension_nm),
        r.areal_density_kgm2 == decimal(areal_density_kgm2),
        r.bending_nm == decimal(bending_nm),
        r.strike_pos == decimal(strike_pos),
        r.decay_time == decimal(decay_time),
        r.hf_damping == decimal(hf_damping),
        r.num_modes == num_modes,
        r.excitation == Excitation::Struck,
        r.play_magnitude.bits == 0,
        r.max_magnitude == decimal(2500_0000),
{
    membrane_value(
        radius_m,
        tension_nm,
        areal_density_kgm2,
        bending_nm,
        strike_pos,
        decay_time,
        hf_damping,
        num_modes,
    )
}

/// A musical string has what it is asked for.
pub proof fn musical_parts_fit(
    pluck_pos: u32,
    inharmonicity: u32,
    decay_time: u32,
    hf_damping: u32,
    num_modes: usize,
) -> (r: MusicalString)
    ensures
        r == musical_value(pluck_pos, inharmonicity, decay_time, hf_damping, num_modes),
        r.pluck_pos == decimal(pluck_pos),
        r.inharmonicity == decimal(inharmonicity),
        r.decay_time == decimal(decay_time),
        r.hf_damping == decimal(hf_damping),
        r.num_modes == num_modes,
{
    musical_value(pluck_pos, inharmonicity, decay_time, hf_damping, num_modes)
}

/// A bell has what it is asked for, and follows the keys.
pub proof fn bell_parts_fit(
    partials: usize,
    spread: u32,
    inharmonicity: u32,
    brightness: u32,
    decay_time: u32,
    strike_noise: u32,
) -> (r: MetalBell)
    ensures
        r == bell_value(partials, spread, inharmonicity, brightness, decay_time, strike_noise),
        r.partials == partials,
        r.spread == decimal(spread),
        r.inharmonicity == decimal(inharmonicity),
        r.brightness == decimal(brightness),
        r.decay_time == decimal(decay_time),
        r.strike_noise == decimal(strike_noise),
        r.key_tracks_pitch,
{
    bell_value(partials, spread, inharmonicity, brightness, decay_time, strike_noise)
}

/// A cymbal has what it is asked for, with its darkness as negative brightness, and follows the
/// keys.
pub proof fn cymbal_parts_fit(
    size: u32,
    stiffness: u32,
    damping: u32,
    darkness: u32,
    strike_pos: u32,
    modes: usize,
    shimmer: u32,
) -> (r: Cymbal)
    ensures
        r == cymbal_value(size, stiffness, damping, darkness, strike_pos, modes, shimmer),
        r.size == decimal(size),
        r.stiffness == decimal(stiffness),
        r.damping == decimal(damping),
        r.brightness == minus(darkness),
        r.strike_pos == decimal(strike_pos),
        r.modes == modes,
        r.shimmer == decimal(shimmer),
        r.key_tracks_pitch,
{
    cymbal_value(size, stiffness, damping, darkness, strike_pos, modes, shimmer)
}

/// A plate has what it is asked for, and follows the keys.
pub proof fn plate_parts_fit(
    poisson: u32,
    decay_time: u32,
    hf_damp: u32,
    strike_pos: u32,
    modes: usize,
) -> (r: PurePlate)
    ensures
        r == plate_value(poisson, decay_time, hf_damp, strike_pos, modes),
        r.poisson == decimal(poisson),
        r.decay_time == decimal(decay_time),
        r.hf_damp == decimal(hf_damp),
        r.strike_pos == decimal(strike_pos),
        r.modes == modes,
        r.key_tracks_pitch,
{
    plate_value(poisson, decay_time, hf_damp, strike_pos, modes)
}

/// A snare drum has what it is asked for, and follows the keys.
pub proof fn snare_parts_fit(
    tension: u32,
    damping: u32,
    strike_pos: u32,
    depth: usize,
    snares: u32,
    snare_decay: u32,
    tone: u32,
) -> (r: Snare)
    ensures
        r == snare_value(tension, damping, strike_pos, depth, snares, snare_decay, tone),
        r.tension == decimal(tension),
        r.damping == decimal(damping),
        r.strike_pos == decimal(strike_pos),
        r.depth == depth,
        r.snares == decimal(snares),
        r.snare_decay == decimal(snare_decay),
        r.tone == decimal(tone),
        r.key_tracks_pitch,
{
    snare_value(tension, damping, strike_pos, depth, snares, snare_decay, tone)
}

/// A plucked string is plucked and damped as asked, on the same string each time.
pub proof fn plucked_string_parts_fit(pos: u32, decay: u32, damping: u32) -> (r: Comp)
    ensures
        r == plucked_string_value(pos, decay, damping),
        r is PluckedString,
        r->PluckedString_length_m == decimal(0_6480),
        r->PluckedString_tension_n == decimal(90_0000),
        r->PluckedString_core_mm == decimal(0_4000),
        r->PluckedString_youngs_gpa == decimal(200_0000),
        r->PluckedString_open_hz == decimal(82_4000),
        r->PluckedString_pos == decimal(pos),
        r->PluckedString_decay == decimal(decay),
        r->PluckedString_damping == decimal(damping),
{
    plucked_string_value(pos, decay, damping)
}

/// A wood horn with all harmonics flares and is open; one with the odd ones alone is half as long
/// and closed at one end.
pub proof fn wood_horn_parts_fit(all_harmonics: bool) -> (r: WebsterHorn)
    ensures
        r == wood_horn_value(all_harmonics),
        r.r1 == decimal(0_0073),
        all_harmonics ==> r.r2 == decimal(0_0150) && r.length == decimal(0_6555) && r.boundary
            == Boundary::Open,
        !all_harmonics ==> r.r2.bits == 0 && r.length == decimal(0_3280) && r.boundary
            == Boundary::Brass,
        r.r3 == decimal(0_0020),
        r.wave_speed == decimal(343_0000),
        r.blow_pos.bits == 0,
        r.depth == 16,
        r.resolution == 220,
        r.damping == decimal(20_0000),
        r.freq_dep_damping.bits == 0,
        r.visco_loss == decimal(4_0000),
        r.radiation == decimal(1_0000),
        r.damp_period == decimal(100_0000),
        r.play_magnitude.bits == 0,
        r.max_magnitude == decimal(2500_0000),
        !r.key_tracks_pitch,
        r.wavefront == Wavefront::Planar,
        r.play_mode == PlayMode::Chromatic,
        r.valve_steps == 6,
        r.overblow_anchor_hz == decimal(82_4100),
        r.overblow_microtune,
{
    wood_horn_value(all_harmonics)
}

/// A brass horn is overblown from the anchor that it is given.
pub proof fn brass_horn_parts_fit(anchor: u32) -> (r: WebsterHorn)
    ensures
        r == brass_horn_value(anchor),
        r.r1 == decimal(0_0060),
        r.r2 == decimal(0_0150),
        r.r3 == decimal(0_0700),
        r.length == decimal(0_6000),
        r.wave_speed == decimal(343_0000),
        r.blow_pos.bits == 0,
        r.depth == 24,
        r.resolution == 400,
        r.damping == decimal(40_0000),
        r.freq_dep_damping == minus(0_0800),
        r.visco_loss == decimal(6_0000),
        r.radiation == decimal(4_0000),
        r.damp_period == decimal(100_0000),
        r.play_magnitude.bits == 0,
        r.max_magnitude == decimal(2500_0000),
        r.key_tracks_pitch,
        r.boundary == Boundary::Brass,
        r.wavefront == Wavefront::Spherical,
        r.play_mode == PlayMode::OverblowTracked,
        r.valve_steps == 6,
        r.overblow_anchor_hz == decimal(anchor),
        r.overblow_microtune,
{
    brass_horn_value(anchor)
}

/// What the materials weigh and how stiff they are; nickel differs from steel in weight alone.
pub proof fn materials_differ()
    ensures
        Material::Steel.density_value() == decimal(7850_0000),
        Material::Nickel.density_value() == decimal(8900_0000),
        Material::Bronze.density_value() == decimal(8740_0000),
        Material::Nylon.density_value() == decimal(1150_0000),
        Material::Brass.density_value() == decimal(8500_0000),
        Material::Steel.stiffness_value() == Material::Nickel.stiffness_value(),
        Material::Steel.stiffness_value() == decimal(200_0000),
        Material::Bronze.stiffness_value() == decimal(105_0000),
        Material::Nylon.stiffness_value() == decimal(4_0000),
        Material::Brass.stiffness_value() == decimal(110_0000),
{
}

/// The components have what they are asked for, and an edge runs as asked.
pub proof fn components_are_as_asked(a: u32, b: u32, c: u32, d: u32, from: usize, to: usize)
    ensures
        body_value(a, b, c, d) matches Comp::Body { cavity_litres, soundhole_cm, top_hz, decay_s }
            && cavity_litres == decimal(a) && soundhole_cm == decimal(b) && top_hz == decimal(c)
            && decay_s == decimal(d),
        wires_value(a, b) matches Comp::Wires { level, tone } && level == decimal(a) && tone
            == decimal(b),
        hammer_value(a, b) matches Comp::Hammer { hardness, felt } && hardness == decimal(a)
            && felt == decimal(b),
        voice_value(a, b) matches Comp::Voice { open_quotient, level } && open_quotient == decimal(
            a,
        ) && level == decimal(b),
        bowed_string_value(a, b) matches Comp::BowedString { speed, force, bow_pos, brightness }
            && speed == decimal(a) && force == decimal(b) && bow_pos == decimal(0_0900)
            && brightness == decimal(0_6000),
        edge_value(from, to, a).from == from,
        edge_value(from, to, a).to == to,
        edge_value(from, to, a).gain == decimal(a),
{
}

/// An oscillator has the wave, the harmonics and the decay that it is asked for.
pub proof fn waves_are_as_asked(waveform: Waveform, harmonics: usize, decay_time: u32)
    ensures
        wave_value(waveform, harmonics, decay_time).waveform == waveform,
        wave_value(waveform, harmonics, decay_time).harmonics == harmonics,
        wave_value(waveform, harmonics, decay_time).decay_time == decimal(decay_time),
{
}

/// A plucked instrument sounds its string directly and through its body, and its highest keys
/// die away soonest.
pub proof fn plucked_strings_sound_through_their_body(
    pos: u32,
    decay: u32,
    damping: u32,
    body_litres: u32,
    body_hz: u32,
    dry: u32,
    body_gain: u32,
) -> (g: GraphView)
    ensures
        g == plucked_view(pos, decay, damping, body_litres, body_hz, dry, body_gain),
        g.components.len() == 3,
        g.components[0] is PluckedString,
        g.components[0]->PluckedString_pos == decimal(pos),
        g.components[0]->PluckedString_decay == decimal(decay),
        g.components[0]->PluckedString_damping == decimal(damping),
        g.components[1] is Body,
        g.components[1]->Body_cavity_litres == decimal(body_litres),
        g.components[1]->Body_top_hz == decimal(body_hz),
        g.components[g.output] is Mix,
        g.edges.len() == 3,
        g.edges[0].from == 0 && g.edges[0].to == g.output && g.edges[0].gain == decimal(dry),
        g.edges[1].from == 0 && g.edges[1].to == 1 && g.edges[1].gain == decimal(1_0000),
        g.edges[2].from == 1 && g.edges[2].to == g.output && g.edges[2].gain == decimal(body_gain),
        g.key_map.len() == 1,
        g.key_map[0].component == 0,
        g.key_map[0].map == (KeyMapView::Power { param: "decay"@, amount: minus(0_7000) }),
{
    plucked_view(pos, decay, damping, body_litres, body_hz, dry, body_gain)
}

} // verus!
