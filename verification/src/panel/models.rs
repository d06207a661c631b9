//! The panels of the single models: what they show, and what moving a control does.

use crate::decimal::{decimal, minus};
use crate::models::basic_wave::{BasicWave, Waveform};
use crate::models::cymbal::Cymbal;
use crate::models::drum_membrane::DrumMembrane;
use crate::models::metal_bell::MetalBell;
use crate::models::musical_string::MusicalString;
use crate::models::pure_plate::PurePlate;
use crate::models::pure_string::PureString;
use crate::models::snare::Snare;
use crate::models::webster_horn::{Boundary, PlayMode, Wavefront, WebsterHorn};
use crate::models::Excitation;
use crate::panel::{choice, counter, pick, pitch, slider, toggle};
use crate::panel::{Amount, Control, Field, Reading};
use crate::single::{Single, ZERO};
use vstd::prelude::*;

verus! {

impl BasicWave {
    /// What its panel shows, from the top.
    pub open spec fn control_list(self) -> Seq<Control> {
        seq![
            choice(Field::Waveform, "Waveform", pick("Triangle", ""), pick("Saw", ""), None, ""),
            counter(Field::Harmonics, "Harmonics", 1, 64, "")
                .with_hint("More harmonics = sharper waveform."),
            slider(Field::DecayTime, "Decay time (s)", decimal(0_0500), decimal(30_0000), ""),
        ]
    }

    /// What its panel shows, from the top.
    pub fn controls(&self) -> (r: Vec<Control>)
        ensures
            r@ == self.control_list(),
    {
        let r: Vec<Control> = vec![
            choice(Field::Waveform, "Waveform", pick("Triangle", ""), pick("Saw", ""), None, ""),
            counter(Field::Harmonics, "Harmonics", 1, 64, "")
                .with_hint("More harmonics = sharper waveform."),
            slider(Field::DecayTime, "Decay time (s)", decimal(0_0500), decimal(30_0000), ""),
        ];
        assert(r@ =~= self.control_list());
        r
    }

    /// The value of a setting.
    pub open spec fn setting(self, f: Field) -> Option<Amount> {
        match f {
            Field::Waveform => Some(
                Amount::Choice(
                    match self.waveform { Waveform::Triangle => 0, Waveform::Saw => 1, },
                ),
            ),
            Field::Harmonics => Some(Amount::Count(self.harmonics)),
            Field::DecayTime => Some(Amount::Number(self.decay_time)),
            _ => None,
        }
    }

    /// The value of a setting.
    pub fn get_setting(&self, f: Field) -> (r: Option<Amount>)
        ensures
            r == self.setting(f),
    {
        match f {
            Field::Waveform => Some(
                Amount::Choice(
                    match self.waveform { Waveform::Triangle => 0, Waveform::Saw => 1, },
                ),
            ),
            Field::Harmonics => Some(Amount::Count(self.harmonics)),
            Field::DecayTime => Some(Amount::Number(self.decay_time)),
            _ => None,
        }
    }

    /// This with a setting changed; unchanged where the setting takes no such value.
    pub open spec fn with_setting(self, f: Field, v: Amount) -> Self {
        match (f, v) {
            (Field::Waveform, Amount::Choice(0)) => BasicWave {
                waveform: Waveform::Triangle,
                ..self
            },
            (Field::Waveform, Amount::Choice(1)) => BasicWave { waveform: Waveform::Saw, ..self },
            (Field::Harmonics, Amount::Count(x)) => BasicWave { harmonics: x, ..self },
            (Field::DecayTime, Amount::Number(x)) => BasicWave { decay_time: x, ..self },
            _ => self,
        }
    }

    /// Changes a setting; does nothing where the setting takes no such value.
    pub fn set_setting(&mut self, f: Field, v: Amount)
        ensures
            *final(self) == old(self).with_setting(f, v),
    {
        match (f, v) {
            (Field::Waveform, Amount::Choice(0)) => self.waveform = Waveform::Triangle,
            (Field::Waveform, Amount::Choice(1)) => self.waveform = Waveform::Saw,
            (Field::Harmonics, Amount::Count(x)) => self.harmonics = x,
            (Field::DecayTime, Amount::Number(x)) => self.decay_time = x,
            _ => {},
        }
    }
}

/// A panel shows settings that are there, as what they are.
pub proof fn basic_wave_panel_fits(m: BasicWave, i: int)
    requires
        0 <= i < m.control_list().len(),
    ensures
        ({
            let c = m.control_list()[i];
            m.setting(c.field) matches Some(v) && c.scale.shows(v)
        }),
{
}

/// Changing a setting changes that one, to the value given, and no other.
pub proof fn basic_wave_settings_are_apart(m: BasicWave, f: Field, g: Field, v: Amount)
    ensures
        m.setting(f) matches Some(w) ==> w.takes(v, f) ==> m.with_setting(
            f,
            v,
        ).setting(f) == Some(v),
        f != g ==> m.with_setting(f, v).setting(g) == m.setting(g),
{
}

impl Cymbal {
    /// What its panel shows, from the top.
    pub open spec fn control_list(self) -> Seq<Control> {
        seq![
            slider(Field::Size, "Size", decimal(1_0000), decimal(60_0000), "Plate"),
            slider(
                Field::Stiffness,
                "Stiffness (inharmonicity)",
                decimal(0_5000),
                decimal(30_0000),
                "Plate",
            ),
            slider(Field::Damping, "Damping (decay)", decimal(0_1000), decimal(20_0000), "Plate")
                .with_hint("Low = long crash, high = short splash."),
            slider(Field::Brightness, "HF sustain", minus(5_0000), decimal(2_0000), "Plate")
                .with_hint("Negative = highs ring on (shimmery)."),
            slider(
                Field::StrikePos,
                "Strike (bell → edge)",
                Single { bits: ZERO },
                decimal(1_0000),
                "Plate",
            ),
            counter(Field::Modes, "Mode density", 1, 512, "Plate"),
            slider(
                Field::Shimmer,
                "Shimmer (noise)",
                Single { bits: ZERO },
                decimal(1_5000),
                "Plate",
            ),
            toggle(Field::KeyTracksPitch, "Key tracks pitch", "Plate"),
        ]
    }

    /// What its panel shows, from the top.
    pub fn controls(&self) -> (r: Vec<Control>)
        ensures
            r@ == self.control_list(),
    {
        let r: Vec<Control> = vec![
            slider(Field::Size, "Size", decimal(1_0000), decimal(60_0000), "Plate"),
            slider(
                Field::Stiffness,
                "Stiffness (inharmonicity)",
                decimal(0_5000),
                decimal(30_0000),
                "Plate",
            ),
            slider(Field::Damping, "Damping (decay)", decimal(0_1000), decimal(20_0000), "Plate")
                .with_hint("Low = long crash, high = short splash."),
            slider(Field::Brightness, "HF sustain", minus(5_0000), decimal(2_0000), "Plate")
                .with_hint("Negative = highs ring on (shimmery)."),
            slider(
                Field::StrikePos,
                "Strike (bell → edge)",
                Single { bits: ZERO },
                decimal(1_0000),
                "Plate",
            ),
            counter(Field::Modes, "Mode density", 1, 512, "Plate"),
            slider(
                Field::Shimmer,
                "Shimmer (noise)",
                Single { bits: ZERO },
                decimal(1_5000),
                "Plate",
            ),
            toggle(Field::KeyTracksPitch, "Key tracks pitch", "Plate"),
        ];
        assert(r@ =~= self.control_list());
        r
    }

    /// The value of a setting.
    pub open spec fn setting(self, f: Field) -> Option<Amount> {
        match f {
            Field::Size => Some(Amount::Number(self.size)),
            Field::Stiffness => Some(Amount::Number(self.stiffness)),
            Field::Damping => Some(Amount::Number(self.damping)),
            Field::Brightness => Some(Amount::Number(self.brightness)),
            Field::StrikePos => Some(Amount::Number(self.strike_pos)),
            Field::Modes => Some(Amount::Count(self.modes)),
            Field::Shimmer => Some(Amount::Number(self.shimmer)),
            Field::KeyTracksPitch => Some(Amount::Flag(self.key_tracks_pitch)),
            _ => None,
        }
    }

    /// The value of a setting.
    pub fn get_setting(&self, f: Field) -> (r: Option<Amount>)
        ensures
            r == self.setting(f),
    {
        match f {
            Field::Size => Some(Amount::Number(self.size)),
            Field::Stiffness => Some(Amount::Number(self.stiffness)),
            Field::Damping => Some(Amount::Number(self.damping)),
            Field::Brightness => Some(Amount::Number(self.brightness)),
            Field::StrikePos => Some(Amount::Number(self.strike_pos)),
            Field::Modes => Some(Amount::Count(self.modes)),
            Field::Shimmer => Some(Amount::Number(self.shimmer)),
            Field::KeyTracksPitch => Some(Amount::Flag(self.key_tracks_pitch)),
            _ => None,
        }
    }

    /// This with a setting changed; unchanged where the setting takes no such value.
    pub open spec fn with_setting(self, f: Field, v: Amount) -> Self {
        match (f, v) {
            (Field::Size, Amount::Number(x)) => Cymbal { size: x, ..self },
            (Field::Stiffness, Amount::Number(x)) => Cymbal { stiffness: x, ..self },
            (Field::Damping, Amount::Number(x)) => Cymbal { damping: x, ..self },
            (Field::Brightness, Amount::Number(x)) => Cymbal { brightness: x, ..self },
            (Field::StrikePos, Amount::Number(x)) => Cymbal { strike_pos: x, ..self },
            (Field::Modes, Amount::Count(x)) => Cymbal { modes: x, ..self },
            (Field::Shimmer, Amount::Number(x)) => Cymbal { shimmer: x, ..self },
            (Field::KeyTracksPitch, Amount::Flag(x)) => Cymbal { key_tracks_pitch: x, ..self },
            _ => self,
        }
    }

    /// Changes a setting; does nothing where the setting takes no such value.
    pub fn set_setting(&mut self, f: Field, v: Amount)
        ensures
            *final(self) == old(self).with_setting(f, v),
    {
        match (f, v) {
            (Field::Size, Amount::Number(x)) => self.size = x,
            (Field::Stiffness, Amount::Number(x)) => self.stiffness = x,
            (Field::Damping, Amount::Number(x)) => self.damping = x,
            (Field::Brightness, Amount::Number(x)) => self.brightness = x,
            (Field::StrikePos, Amount::Number(x)) => self.strike_pos = x,
            (Field::Modes, Amount::Count(x)) => self.modes = x,
            (Field::Shimmer, Amount::Number(x)) => self.shimmer = x,
            (Field::KeyTracksPitch, Amount::Flag(x)) => self.key_tracks_pitch = x,
            _ => {},
        }
    }
}

/// A panel shows settings that are there, as what they are.
pub proof fn cymbal_panel_fits(m: Cymbal, i: int)
    requires
        0 <= i < m.control_list().len(),
    ensures
        ({
            let c = m.control_list()[i];
            m.setting(c.field) matches Some(v) && c.scale.shows(v)
        }),
{
}

/// Changing a setting changes that one, to the value given, and no other.
pub proof fn cymbal_settings_are_apart(m: Cymbal, f: Field, g: Field, v: Amount)
    ensures
        m.setting(f) matches Some(w) ==> w.takes(v, f) ==> m.with_setting(
            f,
            v,
        ).setting(f) == Some(v),
        f != g ==> m.with_setting(f, v).setting(g) == m.setting(g),
{
}

impl DrumMembrane {
    /// What its panel shows, from the top.
    pub open spec fn control_list(self) -> Seq<Control> {
        seq![
            slider(
                Field::StrikePos,
                "Strike position",
                Single { bits: ZERO },
                decimal(1_0000),
                "Membrane (physical)",
            )
                .reads(Reading::Strike)
                .with_hint(
                    "0 = centre (only axisymmetric modes), toward the rim = more modes / brighter.",
                ),
            slider(
                Field::RadiusM,
                "Radius",
                decimal(0_0300),
                decimal(0_5000),
                "Membrane (physical)",
            )
                .unit(" m")
                .with_hint("Head radius. 13\" tom ≈ 0.165 m, 22\" kick ≈ 0.28 m."),
            slider(
                Field::TensionNm,
                "Tension",
                decimal(100_0000),
                decimal(6000_0000),
                "Membrane (physical)",
            )
                .unit(" N/m")
                .with_hint("Head tension: higher = tighter = higher pitch."),
            slider(
                Field::ArealDensityKgm2,
                "Areal density",
                decimal(0_0500),
                decimal(2_0000),
                "Membrane (physical)",
            )
                .unit(" kg/m²")
                .with_hint("Head mass per area (Mylar ≈ 0.26). Heavier = lower and darker."),
            slider(
                Field::BendingNm,
                "Bending rigidity",
                Single { bits: ZERO },
                decimal(50_0000),
                "Membrane (physical)",
            )
                .unit(" N·m")
                .stretched()
                .with_hint(
                    "0 = an ideal membrane; large = a stiff, gong-like/plate head (more inharmonic).",
                ),
            slider(
                Field::DecayTime,
                "Decay time",
                decimal(0_0200),
                decimal(4_0000),
                "Membrane (physical)",
            )
                .unit(" s")
                .with_hint("Fundamental −60 dB ring time, seconds."),
            slider(
                Field::HfDamping,
                "HF damping",
                Single { bits: ZERO },
                decimal(40_0000),
                "Membrane (physical)",
            )
                .with_hint("How much faster the high modes die (1/s per freq-ratio²)."),
            counter(Field::NumModes, "Modes", 1, 512, "Membrane (physical)"),
            slider(
                Field::PlayMagnitude,
                "Play threshold",
                Single { bits: ZERO },
                decimal(2500_0000),
                "Velocity",
            ),
            slider(
                Field::MaxMagnitude,
                "Full-velocity level",
                decimal(1_0000),
                decimal(5000_0000),
                "Velocity",
            ),
            choice(
                Field::Excitation,
                "Excitation",
                pick("Struck", ""),
                pick(
                    "Bowed (sustained)",
                    "Driven — sustains while played (bowed cymbal / singing bowl).",
                ),
                None,
                "",
            ),
        ]
    }

    /// What its panel shows, from the top.
    pub fn controls(&self) -> (r: Vec<Control>)
        ensures
            r@ == self.control_list(),
    {
        let r: Vec<Control> = vec![
            slider(
                Field::StrikePos,
                "Strike position",
                Single { bits: ZERO },
                decimal(1_0000),
                "Membrane (physical)",
            )
                .reads(Reading::Strike)
                .with_hint(
                    "0 = centre (only axisymmetric modes), toward the rim = more modes / brighter.",
                ),
            slider(
                Field::RadiusM,
                "Radius",
                decimal(0_0300),
                decimal(0_5000),
                "Membrane (physical)",
            )
                .unit(" m")
                .with_hint("Head radius. 13\" tom ≈ 0.165 m, 22\" kick ≈ 0.28 m."),
            slider(
                Field::TensionNm,
                "Tension",
                decimal(100_0000),
                decimal(6000_0000),
                "Membrane (physical)",
            )
                .unit(" N/m")
                .with_hint("Head tension: higher = tighter = higher pitch."),
            slider(
                Field::ArealDensityKgm2,
                "Areal density",
                decimal(0_0500),
                decimal(2_0000),
                "Membrane (physical)",
            )
                .unit(" kg/m²")
                .with_hint("Head mass per area (Mylar ≈ 0.26). Heavier = lower and darker."),
            slider(
                Field::BendingNm,
                "Bending rigidity",
                Single { bits: ZERO },
                decimal(50_0000),
                "Membrane (physical)",
            )
                .unit(" N·m")
                .stretched()
                .with_hint(
                    "0 = an ideal membrane; large = a stiff, gong-like/plate head (more inharmonic).",
                ),
            slider(
                Field::DecayTime,
                "Decay time",
                decimal(0_0200),
                decimal(4_0000),
                "Membrane (physical)",
            )
                .unit(" s")
                .with_hint("Fundamental −60 dB ring time, seconds."),
            slider(
                Field::HfDamping,
                "HF damping",
                Single { bits: ZERO },
                decimal(40_0000),
                "Membrane (physical)",
            )
                .with_hint("How much faster the high modes die (1/s per freq-ratio²)."),
            counter(Field::NumModes, "Modes", 1, 512, "Membrane (physical)"),
            slider(
                Field::PlayMagnitude,
                "Play threshold",
                Single { bits: ZERO },
                decimal(2500_0000),
                "Velocity",
            ),
            slider(
                Field::MaxMagnitude,
                "Full-velocity level",
                decimal(1_0000),
                decimal(5000_0000),
                "Velocity",
            ),
            choice(
                Field::Excitation,
                "Excitation",
                pick("Struck", ""),
                pick(
                    "Bowed (sustained)",
                    "Driven — sustains while played (bowed cymbal / singing bowl).",
                ),
                None,
                "",
            ),
        ];
        assert(r@ =~= self.control_list());
        r
    }

    /// The value of a setting.
    pub open spec fn setting(self, f: Field) -> Option<Amount> {
        match f {
            Field::StrikePos => Some(Amount::Number(self.strike_pos)),
            Field::RadiusM => Some(Amount::Number(self.radius_m)),
            Field::TensionNm => Some(Amount::Number(self.tension_nm)),
            Field::ArealDensityKgm2 => Some(Amount::Number(self.areal_density_kgm2)),
            Field::BendingNm => Some(Amount::Number(self.bending_nm)),
            Field::DecayTime => Some(Amount::Number(self.decay_time)),
            Field::HfDamping => Some(Amount::Number(self.hf_damping)),
            Field::NumModes => Some(Amount::Count(self.num_modes)),
            Field::PlayMagnitude => Some(Amount::Number(self.play_magnitude)),
            Field::MaxMagnitude => Some(Amount::Number(self.max_magnitude)),
            Field::Excitation => Some(
                Amount::Choice(
                    match self.excitation { Excitation::Struck => 0, Excitation::Bowed => 1, },
                ),
            ),
            _ => None,
        }
    }

    /// The value of a setting.
    pub fn get_setting(&self, f: Field) -> (r: Option<Amount>)
        ensures
            r == self.setting(f),
    {
        match f {
            Field::StrikePos => Some(Amount::Number(self.strike_pos)),
            Field::RadiusM => Some(Amount::Number(self.radius_m)),
            Field::TensionNm => Some(Amount::Number(self.tension_nm)),
            Field::ArealDensityKgm2 => Some(Amount::Number(self.areal_density_kgm2)),
            Field::BendingNm => Some(Amount::Number(self.bending_nm)),
            Field::DecayTime => Some(Amount::Number(self.decay_time)),
            Field::HfDamping => Some(Amount::Number(self.hf_damping)),
            Field::NumModes => Some(Amount::Count(self.num_modes)),
            Field::PlayMagnitude => Some(Amount::Number(self.play_magnitude)),
            Field::MaxMagnitude => Some(Amount::Number(self.max_magnitude)),
            Field::Excitation => Some(
                Amount::Choice(
                    match self.excitation { Excitation::Struck => 0, Excitation::Bowed => 1, },
                ),
            ),
            _ => None,
        }
    }

    /// This with a setting changed; unchanged where the setting takes no such value.
    pub open spec fn with_setting(self, f: Field, v: Amount) -> Self {
        match (f, v) {
            (Field::StrikePos, Amount::Number(x)) => DrumMembrane { strike_pos: x, ..self },
            (Field::RadiusM, Amount::Number(x)) => DrumMembrane { radius_m: x, ..self },
            (Field::TensionNm, Amount::Number(x)) => DrumMembrane { tension_nm: x, ..self },
            (
                Field::ArealDensityKgm2,
                Amount::Number(x),
            ) => DrumMembrane { areal_density_kgm2: x, ..self },
            (Field::BendingNm, Amount::Number(x)) => DrumMembrane { bending_nm: x, ..self },
            (Field::DecayTime, Amount::Number(x)) => DrumMembrane { decay_time: x, ..self },
            (Field::HfDamping, Amount::Number(x)) => DrumMembrane { hf_damping: x, ..self },
            (Field::NumModes, Amount::Count(x)) => DrumMembrane { num_modes: x, ..self },
            (Field::PlayMagnitude, Amount::Number(x)) => DrumMembrane { play_magnitude: x, ..self },
            (Field::MaxMagnitude, Amount::Number(x)) => DrumMembrane { max_magnitude: x, ..self },
            (Field::Excitation, Amount::Choice(0)) => DrumMembrane {
                excitation: Excitation::Struck,
                ..self
            },
            (Field::Excitation, Amount::Choice(1)) => DrumMembrane {
                excitation: Excitation::Bowed,
                ..self
            },
            _ => self,
        }
    }

    /// Changes a setting; does nothing where the setting takes no such value.
    pub fn set_setting(&mut self, f: Field, v: Amount)
        ensures
            *final(self) == old(self).with_setting(f, v),
    {
        match (f, v) {
            (Field::StrikePos, Amount::Number(x)) => self.strike_pos = x,
            (Field::RadiusM, Amount::Number(x)) => self.radius_m = x,
            (Field::TensionNm, Amount::Number(x)) => self.tension_nm = x,
            (Field::ArealDensityKgm2, Amount::Number(x)) => self.areal_density_kgm2 = x,
            (Field::BendingNm, Amount::Number(x)) => self.bending_nm = x,
            (Field::DecayTime, Amount::Number(x)) => self.decay_time = x,
            (Field::HfDamping, Amount::Number(x)) => self.hf_damping = x,
            (Field::NumModes, Amount::Count(x)) => self.num_modes = x,
            (Field::PlayMagnitude, Amount::Number(x)) => self.play_magnitude = x,
            (Field::MaxMagnitude, Amount::Number(x)) => self.max_magnitude = x,
            (Field::Excitation, Amount::Choice(0)) => self.excitation = Excitation::Struck,
            (Field::Excitation, Amount::Choice(1)) => self.excitation = Excitation::Bowed,
            _ => {},
        }
    }
}

/// A panel shows settings that are there, as what they are.
pub proof fn drum_membrane_panel_fits(m: DrumMembrane, i: int)
    requires
        0 <= i < m.control_list().len(),
    ensures
        ({
            let c = m.control_list()[i];
            m.setting(c.field) matches Some(v) && c.scale.shows(v)
        }),
{
}

/// Changing a setting changes that one, to the value given, and no other.
pub proof fn drum_membrane_settings_are_apart(m: DrumMembrane, f: Field, g: Field, v: Amount)
    ensures
        m.setting(f) matches Some(w) ==> w.takes(v, f) ==> m.with_setting(
            f,
            v,
        ).setting(f) == Some(v),
        f != g ==> m.with_setting(f, v).setting(g) == m.setting(g),
{
}

impl MetalBell {
    /// What its panel shows, from the top.
    pub open spec fn control_list(self) -> Seq<Control> {
        seq![
            counter(Field::Partials, "Partials", 1, 12, "Bell"),
            slider(Field::Spread, "Spread", decimal(0_1000), decimal(2_0000), "Bell")
                .with_hint("Spacing of the partials (0.48 ≈ the 808 cowbell)."),
            slider(
                Field::Inharmonicity,
                "Inharmonicity",
                Single { bits: ZERO },
                decimal(1_0000),
                "Bell",
            )
                .with_hint("Extra stretch on the upper partials — clangier."),
            slider(
                Field::Brightness,
                "Brightness rolloff",
                Single { bits: ZERO },
                decimal(3_0000),
                "Bell",
            ),
            slider(Field::DecayTime, "Decay time (s)", decimal(0_0500), decimal(5_0000), "Bell"),
            slider(
                Field::StrikeNoise,
                "Stick click",
                Single { bits: ZERO },
                decimal(1_0000),
                "Bell",
            )
                .with_hint("Noise transient on the attack."),
            toggle(Field::KeyTracksPitch, "Key tracks pitch", "Bell"),
        ]
    }

    /// What its panel shows, from the top.
    pub fn controls(&self) -> (r: Vec<Control>)
        ensures
            r@ == self.control_list(),
    {
        let r: Vec<Control> = vec![
            counter(Field::Partials, "Partials", 1, 12, "Bell"),
            slider(Field::Spread, "Spread", decimal(0_1000), decimal(2_0000), "Bell")
                .with_hint("Spacing of the partials (0.48 ≈ the 808 cowbell)."),
            slider(
                Field::Inharmonicity,
                "Inharmonicity",
                Single { bits: ZERO },
                decimal(1_0000),
                "Bell",
            )
                .with_hint("Extra stretch on the upper partials — clangier."),
            slider(
                Field::Brightness,
                "Brightness rolloff",
                Single { bits: ZERO },
                decimal(3_0000),
                "Bell",
            ),
            slider(Field::DecayTime, "Decay time (s)", decimal(0_0500), decimal(5_0000), "Bell"),
            slider(
                Field::StrikeNoise,
                "Stick click",
                Single { bits: ZERO },
                decimal(1_0000),
                "Bell",
            )
                .with_hint("Noise transient on the attack."),
            toggle(Field::KeyTracksPitch, "Key tracks pitch", "Bell"),
        ];
        assert(r@ =~= self.control_list());
        r
    }

    /// The value of a setting.
    pub open spec fn setting(self, f: Field) -> Option<Amount> {
        match f {
            Field::Partials => Some(Amount::Count(self.partials)),
            Field::Spread => Some(Amount::Number(self.spread)),
            Field::Inharmonicity => Some(Amount::Number(self.inharmonicity)),
            Field::Brightness => Some(Amount::Number(self.brightness)),
            Field::DecayTime => Some(Amount::Number(self.decay_time)),
            Field::StrikeNoise => Some(Amount::Number(self.strike_noise)),
            Field::KeyTracksPitch => Some(Amount::Flag(self.key_tracks_pitch)),
            _ => None,
        }
    }

    /// The value of a setting.
    pub fn get_setting(&self, f: Field) -> (r: Option<Amount>)
        ensures
            r == self.setting(f),
    {
        match f {
            Field::Partials => Some(Amount::Count(self.partials)),
            Field::Spread => Some(Amount::Number(self.spread)),
            Field::Inharmonicity => Some(Amount::Number(self.inharmonicity)),
            Field::Brightness => Some(Amount::Number(self.brightness)),
            Field::DecayTime => Some(Amount::Number(self.decay_time)),
            Field::StrikeNoise => Some(Amount::Number(self.strike_noise)),
            Field::KeyTracksPitch => Some(Amount::Flag(self.key_tracks_pitch)),
            _ => None,
        }
    }

    /// This with a setting changed; unchanged where the setting takes no such value.
    pub open spec fn with_setting(self, f: Field, v: Amount) -> Self {
        match (f, v) {
            (Field::Partials, Amount::Count(x)) => MetalBell { partials: x, ..self },
            (Field::Spread, Amount::Number(x)) => MetalBell { spread: x, ..self },
            (Field::Inharmonicity, Amount::Number(x)) => MetalBell { inharmonicity: x, ..self },
            (Field::Brightness, Amount::Number(x)) => MetalBell { brightness: x, ..self },
            (Field::DecayTime, Amount::Number(x)) => MetalBell { decay_time: x, ..self },
            (Field::StrikeNoise, Amount::Number(x)) => MetalBell { strike_noise: x, ..self },
            (Field::KeyTracksPitch, Amount::Flag(x)) => MetalBell { key_tracks_pitch: x, ..self },
            _ => self,
        }
    }

    /// Changes a setting; does nothing where the setting takes no such value.
    pub fn set_setting(&mut self, f: Field, v: Amount)
        ensures
            *final(self) == old(self).with_setting(f, v),
    {
        match (f, v) {
            (Field::Partials, Amount::Count(x)) => self.partials = x,
            (Field::Spread, Amount::Number(x)) => self.spread = x,
            (Field::Inharmonicity, Amount::Number(x)) => self.inharmonicity = x,
            (Field::Brightness, Amount::Number(x)) => self.brightness = x,
            (Field::DecayTime, Amount::Number(x)) => self.decay_time = x,
            (Field::StrikeNoise, Amount::Number(x)) => self.strike_noise = x,
            (Field::KeyTracksPitch, Amount::Flag(x)) => self.key_tracks_pitch = x,
            _ => {},
        }
    }
}

/// A panel shows settings that are there, as what they are.
pub proof fn metal_bell_panel_fits(m: MetalBell, i: int)
    requires
        0 <= i < m.control_list().len(),
    ensures
        ({
            let c = m.control_list()[i];
            m.setting(c.field) matches Some(v) && c.scale.shows(v)
        }),
{
}

/// Changing a setting changes that one, to the value given, and no other.
pub proof fn metal_bell_settings_are_apart(m: MetalBell, f: Field, g: Field, v: Amount)
    ensures
        m.setting(f) matches Some(w) ==> w.takes(v, f) ==> m.with_setting(
            f,
            v,
        ).setting(f) == Some(v),
        f != g ==> m.with_setting(f, v).setting(g) == m.setting(g),
{
}

impl MusicalString {
    /// What its panel shows, from the top.
    pub open spec fn control_list(self) -> Seq<Control> {
        seq![
            slider(Field::PluckPos, "Pluck position", Single { bits: ZERO }, decimal(1_0000), "")
                .reads(Reading::Pluck)
                .with_hint("Center = odd harmonics (triangle); near an end = fuller, saw-like."),
            slider(
                Field::Inharmonicity,
                "Stiffness (inharmonicity)",
                minus(0_0200),
                decimal(0_0500),
                "",
            )
                .with_hint(
                    "Positive stretches partials sharp (piano-like); negative compresses them.",
                ),
            slider(Field::DecayTime, "Decay time (s)", decimal(0_0100), decimal(60_0000), ""),
            slider(Field::HfDamping, "HF damping", minus(1_0000), decimal(10_0000), "")
                .with_hint("Higher = fast high-partial decay; negative = high partials swell in."),
            counter(Field::NumModes, "Modes", 1, 512, ""),
        ]
    }

    /// What its panel shows, from the top.
    pub fn controls(&self) -> (r: Vec<Control>)
        ensures
            r@ == self.control_list(),
    {
        let r: Vec<Control> = vec![
            slider(Field::PluckPos, "Pluck position", Single { bits: ZERO }, decimal(1_0000), "")
                .reads(Reading::Pluck)
                .with_hint("Center = odd harmonics (triangle); near an end = fuller, saw-like."),
            slider(
                Field::Inharmonicity,
                "Stiffness (inharmonicity)",
                minus(0_0200),
                decimal(0_0500),
                "",
            )
                .with_hint(
                    "Positive stretches partials sharp (piano-like); negative compresses them.",
                ),
            slider(Field::DecayTime, "Decay time (s)", decimal(0_0100), decimal(60_0000), ""),
            slider(Field::HfDamping, "HF damping", minus(1_0000), decimal(10_0000), "")
                .with_hint("Higher = fast high-partial decay; negative = high partials swell in."),
            counter(Field::NumModes, "Modes", 1, 512, ""),
        ];
        assert(r@ =~= self.control_list());
        r
    }

    /// The value of a setting.
    pub open spec fn setting(self, f: Field) -> Option<Amount> {
        match f {
            Field::PluckPos => Some(Amount::Number(self.pluck_pos)),
            Field::Inharmonicity => Some(Amount::Number(self.inharmonicity)),
            Field::DecayTime => Some(Amount::Number(self.decay_time)),
            Field::HfDamping => Some(Amount::Number(self.hf_damping)),
            Field::NumModes => Some(Amount::Count(self.num_modes)),
            _ => None,
        }
    }

    /// The value of a setting.
    pub fn get_setting(&self, f: Field) -> (r: Option<Amount>)
        ensures
            r == self.setting(f),
    {
        match f {
            Field::PluckPos => Some(Amount::Number(self.pluck_pos)),
            Field::Inharmonicity => Some(Amount::Number(self.inharmonicity)),
            Field::DecayTime => Some(Amount::Number(self.decay_time)),
            Field::HfDamping => Some(Amount::Number(self.hf_damping)),
            Field::NumModes => Some(Amount::Count(self.num_modes)),
            _ => None,
        }
    }

    /// This with a setting changed; unchanged where the setting takes no such value.
    pub open spec fn with_setting(self, f: Field, v: Amount) -> Self {
        match (f, v) {
            (Field::PluckPos, Amount::Number(x)) => MusicalString { pluck_pos: x, ..self },
            (Field::Inharmonicity, Amount::Number(x)) => MusicalString { inharmonicity: x, ..self },
            (Field::DecayTime, Amount::Number(x)) => MusicalString { decay_time: x, ..self },
            (Field::HfDamping, Amount::Number(x)) => MusicalString { hf_damping: x, ..self },
            (Field::NumModes, Amount::Count(x)) => MusicalString { num_modes: x, ..self },
            _ => self,
        }
    }

    /// Changes a setting; does nothing where the setting takes no such value.
    pub fn set_setting(&mut self, f: Field, v: Amount)
        ensures
            *final(self) == old(self).with_setting(f, v),
    {
        match (f, v) {
            (Field::PluckPos, Amount::Number(x)) => self.pluck_pos = x,
            (Field::Inharmonicity, Amount::Number(x)) => self.inharmonicity = x,
            (Field::DecayTime, Amount::Number(x)) => self.decay_time = x,
            (Field::HfDamping, Amount::Number(x)) => self.hf_damping = x,
            (Field::NumModes, Amount::Count(x)) => self.num_modes = x,
            _ => {},
        }
    }
}

/// A panel shows settings that are there, as what they are.
pub proof fn musical_string_panel_fits(m: MusicalString, i: int)
    requires
        0 <= i < m.control_list().len(),
    ensures
        ({
            let c = m.control_list()[i];
            m.setting(c.field) matches Some(v) && c.scale.shows(v)
        }),
{
}

/// Changing a setting changes that one, to the value given, and no other.
pub proof fn musical_string_settings_are_apart(m: MusicalString, f: Field, g: Field, v: Amount)
    ensures
        m.setting(f) matches Some(w) ==> w.takes(v, f) ==> m.with_setting(
            f,
            v,
        ).setting(f) == Some(v),
        f != g ==> m.with_setting(f, v).setting(g) == m.setting(g),
{
}

impl PurePlate {
    /// What its panel shows, from the top.
    pub open spec fn control_list(self) -> Seq<Control> {
        seq![
            slider(
                Field::Poisson,
                "Poisson ratio (timbre)",
                minus(0_5000),
                decimal(0_4900),
                "Plate (free circular, Kirchhoff)",
            )
                .with_hint("Sets the inharmonic mode ratios. ~0.3 for metal."),
            slider(
                Field::DecayTime,
                "Ring time (s)",
                decimal(0_1000),
                decimal(12_0000),
                "Plate (free circular, Kirchhoff)",
            ),
            slider(
                Field::HfDamp,
                "HF damping",
                Single { bits: ZERO },
                decimal(3_0000),
                "Plate (free circular, Kirchhoff)",
            )
                .with_hint("How much faster the highs die (brightness fade)."),
            slider(
                Field::StrikePos,
                "Strike (centre → edge)",
                Single { bits: ZERO },
                decimal(1_0000),
                "Plate (free circular, Kirchhoff)",
            )
                .with_hint("Centre excites only the breathing modes; the edge excites all."),
            counter(Field::Modes, "Modes", 1, 512, "Plate (free circular, Kirchhoff)"),
            toggle(Field::KeyTracksPitch, "Key tracks pitch", "Plate (free circular, Kirchhoff)"),
        ]
    }

    /// What its panel shows, from the top.
    pub fn controls(&self) -> (r: Vec<Control>)
        ensures
            r@ == self.control_list(),
    {
        let r: Vec<Control> = vec![
            slider(
                Field::Poisson,
                "Poisson ratio (timbre)",
                minus(0_5000),
                decimal(0_4900),
                "Plate (free circular, Kirchhoff)",
            )
                .with_hint("Sets the inharmonic mode ratios. ~0.3 for metal."),
            slider(
                Field::DecayTime,
                "Ring time (s)",
                decimal(0_1000),
                decimal(12_0000),
                "Plate (free circular, Kirchhoff)",
            ),
            slider(
                Field::HfDamp,
                "HF damping",
                Single { bits: ZERO },
                decimal(3_0000),
                "Plate (free circular, Kirchhoff)",
            )
                .with_hint("How much faster the highs die (brightness fade)."),
            slider(
                Field::StrikePos,
                "Strike (centre → edge)",
                Single { bits: ZERO },
                decimal(1_0000),
                "Plate (free circular, Kirchhoff)",
            )
                .with_hint("Centre excites only the breathing modes; the edge excites all."),
            counter(Field::Modes, "Modes", 1, 512, "Plate (free circular, Kirchhoff)"),
            toggle(Field::KeyTracksPitch, "Key tracks pitch", "Plate (free circular, Kirchhoff)"),
        ];
        assert(r@ =~= self.control_list());
        r
    }

    /// The value of a setting.
    pub open spec fn setting(self, f: Field) -> Option<Amount> {
        match f {
            Field::Poisson => Some(Amount::Number(self.poisson)),
            Field::DecayTime => Some(Amount::Number(self.decay_time)),
            Field::HfDamp => Some(Amount::Number(self.hf_damp)),
            Field::StrikePos => Some(Amount::Number(self.strike_pos)),
            Field::Modes => Some(Amount::Count(self.modes)),
            Field::KeyTracksPitch => Some(Amount::Flag(self.key_tracks_pitch)),
            _ => None,
        }
    }

    /// The value of a setting.
    pub fn get_setting(&self, f: Field) -> (r: Option<Amount>)
        ensures
            r == self.setting(f),
    {
        match f {
            Field::Poisson => Some(Amount::Number(self.poisson)),
            Field::DecayTime => Some(Amount::Number(self.decay_time)),
            Field::HfDamp => Some(Amount::Number(self.hf_damp)),
            Field::StrikePos => Some(Amount::Number(self.strike_pos)),
            Field::Modes => Some(Amount::Count(self.modes)),
            Field::KeyTracksPitch => Some(Amount::Flag(self.key_tracks_pitch)),
            _ => None,
        }
    }

    /// This with a setting changed; unchanged where the setting takes no such value.
    pub open spec fn with_setting(self, f: Field, v: Amount) -> Self {
        match (f, v) {
            (Field::Poisson, Amount::Number(x)) => PurePlate { poisson: x, ..self },
            (Field::DecayTime, Amount::Number(x)) => PurePlate { decay_time: x, ..self },
            (Field::HfDamp, Amount::Number(x)) => PurePlate { hf_damp: x, ..self },
            (Field::StrikePos, Amount::Number(x)) => PurePlate { strike_pos: x, ..self },
            (Field::Modes, Amount::Count(x)) => PurePlate { modes: x, ..self },
            (Field::KeyTracksPitch, Amount::Flag(x)) => PurePlate { key_tracks_pitch: x, ..self },
            _ => self,
        }
    }

    /// Changes a setting; does nothing where the setting takes no such value.
    pub fn set_setting(&mut self, f: Field, v: Amount)
        ensures
            *final(self) == old(self).with_setting(f, v),
    {
        match (f, v) {
            (Field::Poisson, Amount::Number(x)) => self.poisson = x,
            (Field::DecayTime, Amount::Number(x)) => self.decay_time = x,
            (Field::HfDamp, Amount::Number(x)) => self.hf_damp = x,
            (Field::StrikePos, Amount::Number(x)) => self.strike_pos = x,
            (Field::Modes, Amount::Count(x)) => self.modes = x,
            (Field::KeyTracksPitch, Amount::Flag(x)) => self.key_tracks_pitch = x,
            _ => {},
        }
    }
}

/// A panel shows settings that are there, as what they are.
pub proof fn pure_plate_panel_fits(m: PurePlate, i: int)
    requires
        0 <= i < m.control_list().len(),
    ensures
        ({
            let c = m.control_list()[i];
            m.setting(c.field) matches Some(v) && c.scale.shows(v)
        }),
{
}

/// Changing a setting changes that one, to the value given, and no other.
pub proof fn pure_plate_settings_are_apart(m: PurePlate, f: Field, g: Field, v: Amount)
    ensures
        m.setting(f) matches Some(w) ==> w.takes(v, f) ==> m.with_setting(
            f,
            v,
        ).setting(f) == Some(v),
        f != g ==> m.with_setting(f, v).setting(g) == m.setting(g),
{
}

impl PureString {
    /// What its panel shows, from the top.
    pub open spec fn control_list(self) -> Seq<Control> {
        seq![
            slider(Field::LengthM, "Length", decimal(0_1000), decimal(2_0000), "String (physical)")
                .unit(" m")
                .with_hint(
                    "Open speaking length. Sets the open pitch; the note frets up from there.",
                ),
            slider(
                Field::TensionN,
                "Tension",
                decimal(1_0000),
                decimal(1000_0000),
                "String (physical)",
            )
                .unit(" N")
                .with_hint(
                    "String tension. Higher = brighter/less inharmonic at a given pitch (pianos run ~700 N).",
                ),
            slider(
                Field::DiameterMm,
                "Gauge",
                decimal(0_0500),
                decimal(3_0000),
                "String (physical)",
            )
                .unit(" mm")
                .with_hint("String diameter. Thicker = more inharmonic (the m⁴ bending term)."),
            slider(
                Field::DensityKgm3,
                "Density",
                decimal(500_0000),
                decimal(20000_0000),
                "String (physical)",
            )
                .unit(" kg/m³")
                .with_hint(
                    "Material density: steel ≈ 7850, nylon ≈ 1150, bronze ≈ 8740, gut ≈ 1300.",
                ),
            slider(
                Field::YoungsGpa,
                "Young's modulus",
                decimal(0_5000),
                decimal(250_0000),
                "String (physical)",
            )
                .unit(" GPa")
                .with_hint(
                    "Stiffness of the material: steel ≈ 200, bronze ≈ 105, nylon ≈ 4, gut ≈ 6.",
                ),
            slider(
                Field::PluckPos,
                "Pluck position",
                Single { bits: ZERO },
                decimal(1_0000),
                "String (physical)",
            )
                .reads(Reading::Pluck)
                .with_hint(
                    "Where the string is plucked. Center = odd harmonics (triangle); near an end = fuller, saw-like.",
                ),
            slider(
                Field::DecayTime,
                "Decay time",
                decimal(0_0500),
                decimal(12_0000),
                "String (physical)",
            )
                .unit(" s")
                .with_hint("Fundamental −60 dB ring time, in seconds."),
            slider(
                Field::HfDamping,
                "HF damping",
                minus(2_0000),
                decimal(8_0000),
                "String (physical)",
            )
                .with_hint(
                    "How much faster the high partials die (1/s per mode²). Negative = they swell in.",
                ),
            counter(Field::NumModes, "Modes", 1, 512, "String (physical)"),
            slider(
                Field::PlayMagnitude,
                "Play threshold",
                Single { bits: ZERO },
                decimal(2500_0000),
                "Velocity",
            )
                .with_hint("Velocity below this is silent."),
            slider(
                Field::MaxMagnitude,
                "Full-velocity level",
                decimal(1_0000),
                decimal(5000_0000),
                "Velocity",
            ),
            choice(
                Field::Excitation,
                "Excitation",
                pick("Plucked / struck", "A one-shot pluck — rings and decays."),
                pick(
                    "Bowed (sustained)",
                    "Continuously driven — holds while played, fades on release.",
                ),
                None,
                "",
            ),
        ]
    }

    /// What its panel shows, from the top.
    pub fn controls(&self) -> (r: Vec<Control>)
        ensures
            r@ == self.control_list(),
    {
        let r: Vec<Control> = vec![
            slider(Field::LengthM, "Length", decimal(0_1000), decimal(2_0000), "String (physical)")
                .unit(" m")
                .with_hint(
                    "Open speaking length. Sets the open pitch; the note frets up from there.",
                ),
            slider(
                Field::TensionN,
                "Tension",
                decimal(1_0000),
                decimal(1000_0000),
                "String (physical)",
            )
                .unit(" N")
                .with_hint(
                    "String tension. Higher = brighter/less inharmonic at a given pitch (pianos run ~700 N).",
                ),
            slider(
                Field::DiameterMm,
                "Gauge",
                decimal(0_0500),
                decimal(3_0000),
                "String (physical)",
            )
                .unit(" mm")
                .with_hint("String diameter. Thicker = more inharmonic (the m⁴ bending term)."),
            slider(
                Field::DensityKgm3,
                "Density",
                decimal(500_0000),
                decimal(20000_0000),
                "String (physical)",
            )
                .unit(" kg/m³")
                .with_hint(
                    "Material density: steel ≈ 7850, nylon ≈ 1150, bronze ≈ 8740, gut ≈ 1300.",
                ),
            slider(
                Field::YoungsGpa,
                "Young's modulus",
                decimal(0_5000),
                decimal(250_0000),
                "String (physical)",
            )
                .unit(" GPa")
                .with_hint(
                    "Stiffness of the material: steel ≈ 200, bronze ≈ 105, nylon ≈ 4, gut ≈ 6.",
                ),
            slider(
                Field::PluckPos,
                "Pluck position",
                Single { bits: ZERO },
                decimal(1_0000),
                "String (physical)",
            )
                .reads(Reading::Pluck)
                .with_hint(
                    "Where the string is plucked. Center = odd harmonics (triangle); near an end = fuller, saw-like.",
                ),
            slider(
                Field::DecayTime,
                "Decay time",
                decimal(0_0500),
                decimal(12_0000),
                "String (physical)",
            )
                .unit(" s")
                .with_hint("Fundamental −60 dB ring time, in seconds."),
            slider(
                Field::HfDamping,
                "HF damping",
                minus(2_0000),
                decimal(8_0000),
                "String (physical)",
            )
                .with_hint(
                    "How much faster the high partials die (1/s per mode²). Negative = they swell in.",
                ),
            counter(Field::NumModes, "Modes", 1, 512, "String (physical)"),
            slider(
                Field::PlayMagnitude,
                "Play threshold",
                Single { bits: ZERO },
                decimal(2500_0000),
                "Velocity",
            )
                .with_hint("Velocity below this is silent."),
            slider(
                Field::MaxMagnitude,
                "Full-velocity level",
                decimal(1_0000),
                decimal(5000_0000),
                "Velocity",
            ),
            choice(
                Field::Excitation,
                "Excitation",
                pick("Plucked / struck", "A one-shot pluck — rings and decays."),
                pick(
                    "Bowed (sustained)",
                    "Continuously driven — holds while played, fades on release.",
                ),
                None,
                "",
            ),
        ];
        assert(r@ =~= self.control_list());
        r
    }

    /// The value of a setting.
    pub open spec fn setting(self, f: Field) -> Option<Amount> {
        match f {
            Field::LengthM => Some(Amount::Number(self.length_m)),
            Field::TensionN => Some(Amount::Number(self.tension_n)),
            Field::DiameterMm => Some(Amount::Number(self.diameter_mm)),
            Field::DensityKgm3 => Some(Amount::Number(self.density_kgm3)),
            Field::YoungsGpa => Some(Amount::Number(self.youngs_gpa)),
            Field::PluckPos => Some(Amount::Number(self.pluck_pos)),
            Field::DecayTime => Some(Amount::Number(self.decay_time)),
            Field::HfDamping => Some(Amount::Number(self.hf_damping)),
            Field::NumModes => Some(Amount::Count(self.num_modes)),
            Field::PlayMagnitude => Some(Amount::Number(self.play_magnitude)),
            Field::MaxMagnitude => Some(Amount::Number(self.max_magnitude)),
            Field::Excitation => Some(
                Amount::Choice(
                    match self.excitation { Excitation::Struck => 0, Excitation::Bowed => 1, },
                ),
            ),
            _ => None,
        }
    }

    /// The value of a setting.
    pub fn get_setting(&self, f: Field) -> (r: Option<Amount>)
        ensures
            r == self.setting(f),
    {
        match f {
            Field::LengthM => Some(Amount::Number(self.length_m)),
            Field::TensionN => Some(Amount::Number(self.tension_n)),
            Field::DiameterMm => Some(Amount::Number(self.diameter_mm)),
            Field::DensityKgm3 => Some(Amount::Number(self.density_kgm3)),
            Field::YoungsGpa => Some(Amount::Number(self.youngs_gpa)),
            Field::PluckPos => Some(Amount::Number(self.pluck_pos)),
            Field::DecayTime => Some(Amount::Number(self.decay_time)),
            Field::HfDamping => Some(Amount::Number(self.hf_damping)),
            Field::NumModes => Some(Amount::Count(self.num_modes)),
            Field::PlayMagnitude => Some(Amount::Number(self.play_magnitude)),
            Field::MaxMagnitude => Some(Amount::Number(self.max_magnitude)),
            Field::Excitation => Some(
                Amount::Choice(
                    match self.excitation { Excitation::Struck => 0, Excitation::Bowed => 1, },
                ),
            ),
            _ => None,
        }
    }

    /// This with a setting changed; unchanged where the setting takes no such value.
    pub open spec fn with_setting(self, f: Field, v: Amount) -> Self {
        match (f, v) {
            (Field::LengthM, Amount::Number(x)) => PureString { length_m: x, ..self },
            (Field::TensionN, Amount::Number(x)) => PureString { tension_n: x, ..self },
            (Field::DiameterMm, Amount::Number(x)) => PureString { diameter_mm: x, ..self },
            (Field::DensityKgm3, Amount::Number(x)) => PureString { density_kgm3: x, ..self },
            (Field::YoungsGpa, Amount::Number(x)) => PureString { youngs_gpa: x, ..self },
            (Field::PluckPos, Amount::Number(x)) => PureString { pluck_pos: x, ..self },
            (Field::DecayTime, Amount::Number(x)) => PureString { decay_time: x, ..self },
            (Field::HfDamping, Amount::Number(x)) => PureString { hf_damping: x, ..self },
            (Field::NumModes, Amount::Count(x)) => PureString { num_modes: x, ..self },
            (Field::PlayMagnitude, Amount::Number(x)) => PureString { play_magnitude: x, ..self },
            (Field::MaxMagnitude, Amount::Number(x)) => PureString { max_magnitude: x, ..self },
            (Field::Excitation, Amount::Choice(0)) => PureString {
                excitation: Excitation::Struck,
                ..self
            },
            (Field::Excitation, Amount::Choice(1)) => PureString {
                excitation: Excitation::Bowed,
                ..self
            },
            _ => self,
        }
    }

    /// Changes a setting; does nothing where the setting takes no such value.
    pub fn set_setting(&mut self, f: Field, v: Amount)
        ensures
            *final(self) == old(self).with_setting(f, v),
    {
        match (f, v) {
            (Field::LengthM, Amount::Number(x)) => self.length_m = x,
            (Field::TensionN, Amount::Number(x)) => self.tension_n = x,
            (Field::DiameterMm, Amount::Number(x)) => self.diameter_mm = x,
            (Field::DensityKgm3, Amount::Number(x)) => self.density_kgm3 = x,
            (Field::YoungsGpa, Amount::Number(x)) => self.youngs_gpa = x,
            (Field::PluckPos, Amount::Number(x)) => self.pluck_pos = x,
            (Field::DecayTime, Amount::Number(x)) => self.decay_time = x,
            (Field::HfDamping, Amount::Number(x)) => self.hf_damping = x,
            (Field::NumModes, Amount::Count(x)) => self.num_modes = x,
            (Field::PlayMagnitude, Amount::Number(x)) => self.play_magnitude = x,
            (Field::MaxMagnitude, Amount::Number(x)) => self.max_magnitude = x,
            (Field::Excitation, Amount::Choice(0)) => self.excitation = Excitation::Struck,
            (Field::Excitation, Amount::Choice(1)) => self.excitation = Excitation::Bowed,
            _ => {},
        }
    }
}

/// A panel shows settings that are there, as what they are.
pub proof fn pure_string_panel_fits(m: PureString, i: int)
    requires
        0 <= i < m.control_list().len(),
    ensures
        ({
            let c = m.control_list()[i];
            m.setting(c.field) matches Some(v) && c.scale.shows(v)
        }),
{
}

/// Changing a setting changes that one, to the value given, and no other.
pub proof fn pure_string_settings_are_apart(m: PureString, f: Field, g: Field, v: Amount)
    ensures
        m.setting(f) matches Some(w) ==> w.takes(v, f) ==> m.with_setting(
            f,
            v,
        ).setting(f) == Some(v),
        f != g ==> m.with_setting(f, v).setting(g) == m.setting(g),
{
}

impl Snare {
    /// What its panel shows, from the top.
    pub open spec fn control_list(self) -> Seq<Control> {
        seq![
            slider(Field::Tension, "Tension", decimal(100_0000), decimal(2000_0000), "Head"),
            slider(Field::Damping, "Head damping", Single { bits: ZERO }, decimal(60_0000), "Head"),
            slider(
                Field::StrikePos,
                "Strike position",
                Single { bits: ZERO },
                decimal(1_0000),
                "Head",
            ),
            counter(Field::Depth, "Modes", 1, 64, "Head"),
            slider(Field::Snares, "Snares (buzz)", Single { bits: ZERO }, decimal(1_5000), "Wires"),
            slider(Field::SnareDecay, "Rattle decay", decimal(2_0000), decimal(60_0000), "Wires")
                .with_hint("Higher = shorter rattle."),
            slider(
                Field::Tone,
                "Wire tone (brightness)",
                Single { bits: ZERO },
                decimal(1_0000),
                "Wires",
            ),
            toggle(Field::KeyTracksPitch, "Key tracks pitch", "Wires"),
        ]
    }

    /// What its panel shows, from the top.
    pub fn controls(&self) -> (r: Vec<Control>)
        ensures
            r@ == self.control_list(),
    {
        let r: Vec<Control> = vec![
            slider(Field::Tension, "Tension", decimal(100_0000), decimal(2000_0000), "Head"),
            slider(Field::Damping, "Head damping", Single { bits: ZERO }, decimal(60_0000), "Head"),
            slider(
                Field::StrikePos,
                "Strike position",
                Single { bits: ZERO },
                decimal(1_0000),
                "Head",
            ),
            counter(Field::Depth, "Modes", 1, 64, "Head"),
            slider(Field::Snares, "Snares (buzz)", Single { bits: ZERO }, decimal(1_5000), "Wires"),
            slider(Field::SnareDecay, "Rattle decay", decimal(2_0000), decimal(60_0000), "Wires")
                .with_hint("Higher = shorter rattle."),
            slider(
                Field::Tone,
                "Wire tone (brightness)",
                Single { bits: ZERO },
                decimal(1_0000),
                "Wires",
            ),
            toggle(Field::KeyTracksPitch, "Key tracks pitch", "Wires"),
        ];
        assert(r@ =~= self.control_list());
        r
    }

    /// The value of a setting.
    pub open spec fn setting(self, f: Field) -> Option<Amount> {
        match f {
            Field::Tension => Some(Amount::Number(self.tension)),
            Field::Damping => Some(Amount::Number(self.damping)),
            Field::StrikePos => Some(Amount::Number(self.strike_pos)),
            Field::Depth => Some(Amount::Count(self.depth)),
            Field::Snares => Some(Amount::Number(self.snares)),
            Field::SnareDecay => Some(Amount::Number(self.snare_decay)),
            Field::Tone => Some(Amount::Number(self.tone)),
            Field::KeyTracksPitch => Some(Amount::Flag(self.key_tracks_pitch)),
            _ => None,
        }
    }

    /// The value of a setting.
    pub fn get_setting(&self, f: Field) -> (r: Option<Amount>)
        ensures
            r == self.setting(f),
    {
        match f {
            Field::Tension => Some(Amount::Number(self.tension)),
            Field::Damping => Some(Amount::Number(self.damping)),
            Field::StrikePos => Some(Amount::Number(self.strike_pos)),
            Field::Depth => Some(Amount::Count(self.depth)),
            Field::Snares => Some(Amount::Number(self.snares)),
            Field::SnareDecay => Some(Amount::Number(self.snare_decay)),
            Field::Tone => Some(Amount::Number(self.tone)),
            Field::KeyTracksPitch => Some(Amount::Flag(self.key_tracks_pitch)),
            _ => None,
        }
    }

    /// This with a setting changed; unchanged where the setting takes no such value.
    pub open spec fn with_setting(self, f: Field, v: Amount) -> Self {
        match (f, v) {
            (Field::Tension, Amount::Number(x)) => Snare { tension: x, ..self },
            (Field::Damping, Amount::Number(x)) => Snare { damping: x, ..self },
            (Field::StrikePos, Amount::Number(x)) => Snare { strike_pos: x, ..self },
            (Field::Depth, Amount::Count(x)) => Snare { depth: x, ..self },
            (Field::Snares, Amount::Number(x)) => Snare { snares: x, ..self },
            (Field::SnareDecay, Amount::Number(x)) => Snare { snare_decay: x, ..self },
            (Field::Tone, Amount::Number(x)) => Snare { tone: x, ..self },
            (Field::KeyTracksPitch, Amount::Flag(x)) => Snare { key_tracks_pitch: x, ..self },
            _ => self,
        }
    }

    /// Changes a setting; does nothing where the setting takes no such value.
    pub fn set_setting(&mut self, f: Field, v: Amount)
        ensures
            *final(self) == old(self).with_setting(f, v),
    {
        match (f, v) {
            (Field::Tension, Amount::Number(x)) => self.tension = x,
            (Field::Damping, Amount::Number(x)) => self.damping = x,
            (Field::StrikePos, Amount::Number(x)) => self.strike_pos = x,
            (Field::Depth, Amount::Count(x)) => self.depth = x,
            (Field::Snares, Amount::Number(x)) => self.snares = x,
            (Field::SnareDecay, Amount::Number(x)) => self.snare_decay = x,
            (Field::Tone, Amount::Number(x)) => self.tone = x,
            (Field::KeyTracksPitch, Amount::Flag(x)) => self.key_tracks_pitch = x,
            _ => {},
        }
    }
}

/// A panel shows settings that are there, as what they are.
pub proof fn snare_panel_fits(m: Snare, i: int)
    requires
        0 <= i < m.control_list().len(),
    ensures
        ({
            let c = m.control_list()[i];
            m.setting(c.field) matches Some(v) && c.scale.shows(v)
        }),
{
}

/// Changing a setting changes that one, to the value given, and no other.
pub proof fn snare_settings_are_apart(m: Snare, f: Field, g: Field, v: Amount)
    ensures
        m.setting(f) matches Some(w) ==> w.takes(v, f) ==> m.with_setting(
            f,
            v,
        ).setting(f) == Some(v),
        f != g ==> m.with_setting(f, v).setting(g) == m.setting(g),
{
}

impl WebsterHorn {
    /// What its panel shows, from the top.
    pub open spec fn control_list(self) -> Seq<Control> {
        let brass: Seq<Control> = if self.play_mode == PlayMode::OverblowTracked {
            seq![
                counter(Field::ValveSteps, "Valve steps", 0, 12, "")
                    .unit(" st")
                    .with_hint(
                        "Semitones of valve/slide tubing available → this many bore lengths beyond the open tube (a Bb trumpet = 6).",
                    ),
                pitch(Field::OverblowAnchorHz, "Anchor", ""),
                toggle(Field::OverblowMicrotune, "Micro-tune to key (in-tune)", "")
                    .with_hint(
                        "On: nudge the bore so each note is exactly in tune. Off: play the natural harmonic pitch — authentic brass intonation (5th/7th harmonics sit flat).",
                    ),
            ]
        } else {
            Seq::empty()
        };
        seq![
            choice(
                Field::Boundary,
                "Ends",
                pick("Open (both ends)", ""),
                pick("Brass (closed throat)", ""),
                None,
                "",
            ),
            choice(
                Field::Wavefront,
                "Wavefront",
                pick("Planar (flat discs)", "Classic Webster: flat cross-sectional discs."),
                pick(
                    "Spherical (curved)",
                    "Curved spherical-cap wavefronts — more accurate high partials where the flare is steep.",
                ),
                None,
                "",
            ),
            choice(
                Field::PlayMode,
                "Play",
                pick("Chromatic (resize)", "Instrument resizes per note — plays any pitch."),
                pick(
                    "Overblow (fixed tube)",
                    "Fixed tube: the key selects the nearest natural resonance (a bugle). Pitch snaps to the resonance ladder.",
                ),
                Some(
                    pick(
                        "Overblow (key-tracked)",
                        "Overblow to the harmonic above the key, then tune the bore length onto it — chromatic pitch with the overblown, fixed-formant tone.",
                    ),
                ),
                "",
            ),
        ] + brass + seq![
            slider(
                Field::R1,
                "r1  (throat)",
                decimal(0_0100),
                decimal(10_0000),
                "Bore  r(x) = r1 + r2·x + r3·x²",
            )
                .with_hint("Throat radius (constant term)."),
            slider(
                Field::R2,
                "r2  (taper)",
                minus(10_0000),
                decimal(10_0000),
                "Bore  r(x) = r1 + r2·x + r3·x²",
            )
                .with_hint("Linear taper."),
            slider(
                Field::R3,
                "r3  (flare)",
                minus(5_0000),
                decimal(20_0000),
                "Bore  r(x) = r1 + r2·x + r3·x²",
            )
                .with_hint("Quadratic flare — the horn's cutoff comes from this."),
            slider(
                Field::Length,
                "Length (L)",
                decimal(0_1000),
                decimal(8_0000),
                "Bore  r(x) = r1 + r2·x + r3·x²",
            ),
            slider(
                Field::BlowPos,
                "Blow position",
                Single { bits: ZERO },
                decimal(1_0000),
                "Bore  r(x) = r1 + r2·x + r3·x²",
            )
                .with_hint("Excitation point along the bore (throat → bell); shapes the spectrum."),
            counter(Field::Depth, "Modes (DEPTH)", 1, 512, "Modes / damping"),
            counter(Field::Resolution, "Resolution", 16, 512, "Modes / damping")
                .with_hint("Eigensolve grid size (accuracy vs. cost at note-on)."),
            slider(
                Field::Damping,
                "Damping (d1)",
                minus(50_0000),
                decimal(200_0000),
                "Modes / damping",
            ),
            slider(
                Field::FreqDepDamping,
                "Freq-dep damping (d3)",
                minus(5_0000),
                decimal(2_0000),
                "Modes / damping",
            ),
            slider(
                Field::ViscoLoss,
                "Wall loss (Keefe)",
                Single { bits: ZERO },
                decimal(5_0000),
                "Modes / damping",
            )
                .with_hint(
                    "Viscothermal boundary-layer loss ∝ √f, stronger in narrow bores — warm/stuffed tone.",
                ),
            slider(
                Field::Radiation,
                "Radiation (bell)",
                Single { bits: ZERO },
                decimal(5_0000),
                "Modes / damping",
            )
                .with_hint(
                    "Loss ∝ f² at the bell: highs radiate out (open, brilliant), lows reflect and sustain.",
                ),
            slider(
                Field::WaveSpeed,
                "Wave speed c (m/s)",
                decimal(100_0000),
                decimal(1000_0000),
                "Timing / velocity",
            )
                .with_hint("Sets absolute pitch when the key doesn't track."),
            slider(
                Field::DampPeriod,
                "DAMP_PERIOD",
                decimal(1_0000),
                decimal(1000_0000),
                "Timing / velocity",
            ),
            slider(
                Field::PlayMagnitude,
                "PLAY_MAGNITUDE",
                Single { bits: ZERO },
                decimal(2500_0000),
                "Timing / velocity",
            ),
            slider(
                Field::MaxMagnitude,
                "MAX_MAGNITUDE",
                decimal(1_0000),
                decimal(5000_0000),
                "Timing / velocity",
            ),
            toggle(Field::KeyTracksPitch, "Key tracks pitch", "Timing / velocity"),
        ]
    }

    /// What its panel shows, from the top.
    pub fn controls(&self) -> (r: Vec<Control>)
        ensures
            r@ == self.control_list(),
    {
        let mut r: Vec<Control> = vec![
            choice(
                Field::Boundary,
                "Ends",
                pick("Open (both ends)", ""),
                pick("Brass (closed throat)", ""),
                None,
                "",
            ),
            choice(
                Field::Wavefront,
                "Wavefront",
                pick("Planar (flat discs)", "Classic Webster: flat cross-sectional discs."),
                pick(
                    "Spherical (curved)",
                    "Curved spherical-cap wavefronts — more accurate high partials where the flare is steep.",
                ),
                None,
                "",
            ),
            choice(
                Field::PlayMode,
                "Play",
                pick("Chromatic (resize)", "Instrument resizes per note — plays any pitch."),
                pick(
                    "Overblow (fixed tube)",
                    "Fixed tube: the key selects the nearest natural resonance (a bugle). Pitch snaps to the resonance ladder.",
                ),
                Some(
                    pick(
                        "Overblow (key-tracked)",
                        "Overblow to the harmonic above the key, then tune the bore length onto it — chromatic pitch with the overblown, fixed-formant tone.",
                    ),
                ),
                "",
            ),
        ];
        if self.play_mode == PlayMode::OverblowTracked {
            let mut brass: Vec<Control> = vec![
                counter(Field::ValveSteps, "Valve steps", 0, 12, "")
                    .unit(" st")
                    .with_hint(
                        "Semitones of valve/slide tubing available → this many bore lengths beyond the open tube (a Bb trumpet = 6).",
                    ),
                pitch(Field::OverblowAnchorHz, "Anchor", ""),
                toggle(Field::OverblowMicrotune, "Micro-tune to key (in-tune)", "")
                    .with_hint(
                        "On: nudge the bore so each note is exactly in tune. Off: play the natural harmonic pitch — authentic brass intonation (5th/7th harmonics sit flat).",
                    ),
            ];
            r.append(&mut brass);
        }
        let mut rest: Vec<Control> = vec![
            slider(
                Field::R1,
                "r1  (throat)",
                decimal(0_0100),
                decimal(10_0000),
                "Bore  r(x) = r1 + r2·x + r3·x²",
            )
                .with_hint("Throat radius (constant term)."),
            slider(
                Field::R2,
                "r2  (taper)",
                minus(10_0000),
                decimal(10_0000),
                "Bore  r(x) = r1 + r2·x + r3·x²",
            )
                .with_hint("Linear taper."),
            slider(
                Field::R3,
                "r3  (flare)",
                minus(5_0000),
                decimal(20_0000),
                "Bore  r(x) = r1 + r2·x + r3·x²",
            )
                .with_hint("Quadratic flare — the horn's cutoff comes from this."),
            slider(
                Field::Length,
                "Length (L)",
                decimal(0_1000),
                decimal(8_0000),
                "Bore  r(x) = r1 + r2·x + r3·x²",
            ),
            slider(
                Field::BlowPos,
                "Blow position",
                Single { bits: ZERO },
                decimal(1_0000),
                "Bore  r(x) = r1 + r2·x + r3·x²",
            )
                .with_hint("Excitation point along the bore (throat → bell); shapes the spectrum."),
            counter(Field::Depth, "Modes (DEPTH)", 1, 512, "Modes / damping"),
            counter(Field::Resolution, "Resolution", 16, 512, "Modes / damping")
                .with_hint("Eigensolve grid size (accuracy vs. cost at note-on)."),
            slider(
                Field::Damping,
                "Damping (d1)",
                minus(50_0000),
                decimal(200_0000),
                "Modes / damping",
            ),
            slider(
                Field::FreqDepDamping,
                "Freq-dep damping (d3)",
                minus(5_0000),
                decimal(2_0000),
                "Modes / damping",
            ),
            slider(
                Field::ViscoLoss,
                "Wall loss (Keefe)",
                Single { bits: ZERO },
                decimal(5_0000),
                "Modes / damping",
            )
                .with_hint(
                    "Viscothermal boundary-layer loss ∝ √f, stronger in narrow bores — warm/stuffed tone.",
                ),
            slider(
                Field::Radiation,
                "Radiation (bell)",
                Single { bits: ZERO },
                decimal(5_0000),
                "Modes / damping",
            )
                .with_hint(
                    "Loss ∝ f² at the bell: highs radiate out (open, brilliant), lows reflect and sustain.",
                ),
            slider(
                Field::WaveSpeed,
                "Wave speed c (m/s)",
                decimal(100_0000),
                decimal(1000_0000),
                "Timing / velocity",
            )
                .with_hint("Sets absolute pitch when the key doesn't track."),
            slider(
                Field::DampPeriod,
                "DAMP_PERIOD",
                decimal(1_0000),
                decimal(1000_0000),
                "Timing / velocity",
            ),
            slider(
                Field::PlayMagnitude,
                "PLAY_MAGNITUDE",
                Single { bits: ZERO },
                decimal(2500_0000),
                "Timing / velocity",
            ),
            slider(
                Field::MaxMagnitude,
                "MAX_MAGNITUDE",
                decimal(1_0000),
                decimal(5000_0000),
                "Timing / velocity",
            ),
            toggle(Field::KeyTracksPitch, "Key tracks pitch", "Timing / velocity"),
        ];
        r.append(&mut rest);
        assert(r@ =~= self.control_list());
        r
    }

    /// The value of a setting.
    pub open spec fn setting(self, f: Field) -> Option<Amount> {
        match f {
            Field::Boundary => Some(
                Amount::Choice(match self.boundary { Boundary::Open => 0, Boundary::Brass => 1, }),
            ),
            Field::Wavefront => Some(
                Amount::Choice(
                    match self.wavefront { Wavefront::Planar => 0, Wavefront::Spherical => 1, },
                ),
            ),
            Field::PlayMode => Some(
                Amount::Choice(
                    match self.play_mode {
                        PlayMode::Chromatic => 0,
                        PlayMode::Overblow => 1,
                        PlayMode::OverblowTracked => 2,
                    },
                ),
            ),
            Field::ValveSteps => Some(Amount::Count(self.valve_steps as usize)),
            Field::OverblowAnchorHz => Some(Amount::Number(self.overblow_anchor_hz)),
            Field::OverblowMicrotune => Some(Amount::Flag(self.overblow_microtune)),
            Field::R1 => Some(Amount::Number(self.r1)),
            Field::R2 => Some(Amount::Number(self.r2)),
            Field::R3 => Some(Amount::Number(self.r3)),
            Field::Length => Some(Amount::Number(self.length)),
            Field::BlowPos => Some(Amount::Number(self.blow_pos)),
            Field::Depth => Some(Amount::Count(self.depth)),
            Field::Resolution => Some(Amount::Count(self.resolution)),
            Field::Damping => Some(Amount::Number(self.damping)),
            Field::FreqDepDamping => Some(Amount::Number(self.freq_dep_damping)),
            Field::ViscoLoss => Some(Amount::Number(self.visco_loss)),
            Field::Radiation => Some(Amount::Number(self.radiation)),
            Field::WaveSpeed => Some(Amount::Number(self.wave_speed)),
            Field::DampPeriod => Some(Amount::Number(self.damp_period)),
            Field::PlayMagnitude => Some(Amount::Number(self.play_magnitude)),
            Field::MaxMagnitude => Some(Amount::Number(self.max_magnitude)),
            Field::KeyTracksPitch => Some(Amount::Flag(self.key_tracks_pitch)),
            _ => None,
        }
    }

    /// The value of a setting.
    pub fn get_setting(&self, f: Field) -> (r: Option<Amount>)
        ensures
            r == self.setting(f),
    {
        match f {
            Field::Boundary => Some(
                Amount::Choice(match self.boundary { Boundary::Open => 0, Boundary::Brass => 1, }),
            ),
            Field::Wavefront => Some(
                Amount::Choice(
                    match self.wavefront { Wavefront::Planar => 0, Wavefront::Spherical => 1, },
                ),
            ),
            Field::PlayMode => Some(
                Amount::Choice(
                    match self.play_mode {
                        PlayMode::Chromatic => 0,
                        PlayMode::Overblow => 1,
                        PlayMode::OverblowTracked => 2,
                    },
                ),
            ),
            Field::ValveSteps => Some(Amount::Count(self.valve_steps as usize)),
            Field::OverblowAnchorHz => Some(Amount::Number(self.overblow_anchor_hz)),
            Field::OverblowMicrotune => Some(Amount::Flag(self.overblow_microtune)),
            Field::R1 => Some(Amount::Number(self.r1)),
            Field::R2 => Some(Amount::Number(self.r2)),
            Field::R3 => Some(Amount::Number(self.r3)),
            Field::Length => Some(Amount::Number(self.length)),
            Field::BlowPos => Some(Amount::Number(self.blow_pos)),
            Field::Depth => Some(Amount::Count(self.depth)),
            Field::Resolution => Some(Amount::Count(self.resolution)),
            Field::Damping => Some(Amount::Number(self.damping)),
            Field::FreqDepDamping => Some(Amount::Number(self.freq_dep_damping)),
            Field::ViscoLoss => Some(Amount::Number(self.visco_loss)),
            Field::Radiation => Some(Amount::Number(self.radiation)),
            Field::WaveSpeed => Some(Amount::Number(self.wave_speed)),
            Field::DampPeriod => Some(Amount::Number(self.damp_period)),
            Field::PlayMagnitude => Some(Amount::Number(self.play_magnitude)),
            Field::MaxMagnitude => Some(Amount::Number(self.max_magnitude)),
            Field::KeyTracksPitch => Some(Amount::Flag(self.key_tracks_pitch)),
            _ => None,
        }
    }

    /// This with a setting changed; unchanged where the setting takes no such value.
    pub open spec fn with_setting(self, f: Field, v: Amount) -> Self {
        match (f, v) {
            (Field::Boundary, Amount::Choice(0)) => WebsterHorn {
                boundary: Boundary::Open,
                ..self
            },
            (Field::Boundary, Amount::Choice(1)) => WebsterHorn {
                boundary: Boundary::Brass,
                ..self
            },
            (Field::Wavefront, Amount::Choice(0)) => WebsterHorn {
                wavefront: Wavefront::Planar,
                ..self
            },
            (Field::Wavefront, Amount::Choice(1)) => WebsterHorn {
                wavefront: Wavefront::Spherical,
                ..self
            },
            (Field::PlayMode, Amount::Choice(0)) => WebsterHorn {
                play_mode: PlayMode::Chromatic,
                ..self
            },
            (Field::PlayMode, Amount::Choice(1)) => WebsterHorn {
                play_mode: PlayMode::Overblow,
                ..self
            },
            (Field::PlayMode, Amount::Choice(2)) => WebsterHorn {
                play_mode: PlayMode::OverblowTracked,
                ..self
            },
            (Field::ValveSteps, Amount::Count(x)) => WebsterHorn {
                valve_steps: if x > 12 {
                    12
                } else {
                    x as u32
                },
                ..self
            },
            (
                Field::OverblowAnchorHz,
                Amount::Number(x),
            ) => WebsterHorn { overblow_anchor_hz: x, ..self },
            (
                Field::OverblowMicrotune,
                Amount::Flag(x),
            ) => WebsterHorn { overblow_microtune: x, ..self },
            (Field::R1, Amount::Number(x)) => WebsterHorn { r1: x, ..self },
            (Field::R2, Amount::Number(x)) => WebsterHorn { r2: x, ..self },
            (Field::R3, Amount::Number(x)) => WebsterHorn { r3: x, ..self },
            (Field::Length, Amount::Number(x)) => WebsterHorn { length: x, ..self },
            (Field::BlowPos, Amount::Number(x)) => WebsterHorn { blow_pos: x, ..self },
            (Field::Depth, Amount::Count(x)) => WebsterHorn { depth: x, ..self },
            (Field::Resolution, Amount::Count(x)) => WebsterHorn { resolution: x, ..self },
            (Field::Damping, Amount::Number(x)) => WebsterHorn { damping: x, ..self },
            (
                Field::FreqDepDamping,
                Amount::Number(x),
            ) => WebsterHorn { freq_dep_damping: x, ..self },
            (Field::ViscoLoss, Amount::Number(x)) => WebsterHorn { visco_loss: x, ..self },
            (Field::Radiation, Amount::Number(x)) => WebsterHorn { radiation: x, ..self },
            (Field::WaveSpeed, Amount::Number(x)) => WebsterHorn { wave_speed: x, ..self },
            (Field::DampPeriod, Amount::Number(x)) => WebsterHorn { damp_period: x, ..self },
            (Field::PlayMagnitude, Amount::Number(x)) => WebsterHorn { play_magnitude: x, ..self },
            (Field::MaxMagnitude, Amount::Number(x)) => WebsterHorn { max_magnitude: x, ..self },
            (Field::KeyTracksPitch, Amount::Flag(x)) => WebsterHorn { key_tracks_pitch: x, ..self },
            _ => self,
        }
    }

    /// Changes a setting; does nothing where the setting takes no such value.
    pub fn set_setting(&mut self, f: Field, v: Amount)
        ensures
            *final(self) == old(self).with_setting(f, v),
    {
        match (f, v) {
            (Field::Boundary, Amount::Choice(0)) => self.boundary = Boundary::Open,
            (Field::Boundary, Amount::Choice(1)) => self.boundary = Boundary::Brass,
            (Field::Wavefront, Amount::Choice(0)) => self.wavefront = Wavefront::Planar,
            (Field::Wavefront, Amount::Choice(1)) => self.wavefront = Wavefront::Spherical,
            (Field::PlayMode, Amount::Choice(0)) => self.play_mode = PlayMode::Chromatic,
            (Field::PlayMode, Amount::Choice(1)) => self.play_mode = PlayMode::Overblow,
            (Field::PlayMode, Amount::Choice(2)) => self.play_mode = PlayMode::OverblowTracked,
            (Field::ValveSteps, Amount::Count(x)) => {
                self.valve_steps = if x > 12 {
                    12
                } else {
                    x as u32
                };
            },
            (Field::OverblowAnchorHz, Amount::Number(x)) => self.overblow_anchor_hz = x,
            (Field::OverblowMicrotune, Amount::Flag(x)) => self.overblow_microtune = x,
            (Field::R1, Amount::Number(x)) => self.r1 = x,
            (Field::R2, Amount::Number(x)) => self.r2 = x,
            (Field::R3, Amount::Number(x)) => self.r3 = x,
            (Field::Length, Amount::Number(x)) => self.length = x,
            (Field::BlowPos, Amount::Number(x)) => self.blow_pos = x,
            (Field::Depth, Amount::Count(x)) => self.depth = x,
            (Field::Resolution, Amount::Count(x)) => self.resolution = x,
            (Field::Damping, Amount::Number(x)) => self.damping = x,
            (Field::FreqDepDamping, Amount::Number(x)) => self.freq_dep_damping = x,
            (Field::ViscoLoss, Amount::Number(x)) => self.visco_loss = x,
            (Field::Radiation, Amount::Number(x)) => self.radiation = x,
            (Field::WaveSpeed, Amount::Number(x)) => self.wave_speed = x,
            (Field::DampPeriod, Amount::Number(x)) => self.damp_period = x,
            (Field::PlayMagnitude, Amount::Number(x)) => self.play_magnitude = x,
            (Field::MaxMagnitude, Amount::Number(x)) => self.max_magnitude = x,
            (Field::KeyTracksPitch, Amount::Flag(x)) => self.key_tracks_pitch = x,
            _ => {},
        }
    }
}

/// A panel shows settings that are there, as what they are.
pub proof fn webster_horn_panel_fits(m: WebsterHorn, i: int)
    requires
        0 <= i < m.control_list().len(),
    ensures
        ({
            let c = m.control_list()[i];
            m.setting(c.field) matches Some(v) && c.scale.shows(v)
        }),
{
}

/// Changing a setting changes that one, to the value given, and no other.
pub proof fn webster_horn_settings_are_apart(m: WebsterHorn, f: Field, g: Field, v: Amount)
    ensures
        m.setting(f) matches Some(w) ==> w.takes(v, f) ==> m.with_setting(
            f,
            v,
        ).setting(f) == Some(v),
        f != g ==> m.with_setting(f, v).setting(g) == m.setting(g),
{
}

/// A setting is the field of its name.
pub proof fn basic_wave_settings_are_fields(m: BasicWave)
    ensures
        m.setting(Field::Harmonics) == Some(Amount::Count(m.harmonics)),
        m.setting(Field::DecayTime) == Some(Amount::Number(m.decay_time)),
{
}

/// Changing a setting and changing it back changes nothing.
pub proof fn basic_wave_settings_change_back(m: BasicWave, f: Field, v: Amount)
    ensures
        m.setting(f) matches Some(w) ==> w.takes(w, f) ==> m.with_setting(f, v).with_setting(f, w)
            == m,
        m.setting(f) is None ==> m.with_setting(f, v) == m,
        m.setting(f) matches Some(w) ==> m.with_setting(f, v).setting(f) == Some(w)
            ==> m.with_setting(f, v) == m,
{
}

/// A setting is the field of its name.
pub proof fn cymbal_settings_are_fields(m: Cymbal)
    ensures
        m.setting(Field::Size) == Some(Amount::Number(m.size)),
        m.setting(Field::Stiffness) == Some(Amount::Number(m.stiffness)),
        m.setting(Field::Damping) == Some(Amount::Number(m.damping)),
        m.setting(Field::Brightness) == Some(Amount::Number(m.brightness)),
        m.setting(Field::StrikePos) == Some(Amount::Number(m.strike_pos)),
        m.setting(Field::Modes) == Some(Amount::Count(m.modes)),
        m.setting(Field::Shimmer) == Some(Amount::Number(m.shimmer)),
        m.setting(Field::KeyTracksPitch) == Some(Amount::Flag(m.key_tracks_pitch)),
{
}

/// Changing a setting and changing it back changes nothing.
pub proof fn cymbal_settings_change_back(m: Cymbal, f: Field, v: Amount)
    ensures
        m.setting(f) matches Some(w) ==> w.takes(w, f) ==> m.with_setting(f, v).with_setting(f, w)
            == m,
        m.setting(f) is None ==> m.with_setting(f, v) == m,
        m.setting(f) matches Some(w) ==> m.with_setting(f, v).setting(f) == Some(w)
            ==> m.with_setting(f, v) == m,
{
}

/// A setting is the field of its name.
pub proof fn drum_membrane_settings_are_fields(m: DrumMembrane)
    ensures
        m.setting(Field::StrikePos) == Some(Amount::Number(m.strike_pos)),
        m.setting(Field::RadiusM) == Some(Amount::Number(m.radius_m)),
        m.setting(Field::TensionNm) == Some(Amount::Number(m.tension_nm)),
        m.setting(Field::ArealDensityKgm2) == Some(Amount::Number(m.areal_density_kgm2)),
        m.setting(Field::BendingNm) == Some(Amount::Number(m.bending_nm)),
        m.setting(Field::DecayTime) == Some(Amount::Number(m.decay_time)),
        m.setting(Field::HfDamping) == Some(Amount::Number(m.hf_damping)),
        m.setting(Field::NumModes) == Some(Amount::Count(m.num_modes)),
        m.setting(Field::PlayMagnitude) == Some(Amount::Number(m.play_magnitude)),
        m.setting(Field::MaxMagnitude) == Some(Amount::Number(m.max_magnitude)),
{
}

/// Changing a setting and changing it back changes nothing.
pub proof fn drum_membrane_settings_change_back(m: DrumMembrane, f: Field, v: Amount)
    ensures
        m.setting(f) matches Some(w) ==> w.takes(w, f) ==> m.with_setting(f, v).with_setting(f, w)
            == m,
        m.setting(f) is None ==> m.with_setting(f, v) == m,
        m.setting(f) matches Some(w) ==> m.with_setting(f, v).setting(f) == Some(w)
            ==> m.with_setting(f, v) == m,
{
}

/// A setting is the field of its name.
pub proof fn metal_bell_settings_are_fields(m: MetalBell)
    ensures
        m.setting(Field::Partials) == Some(Amount::Count(m.partials)),
        m.setting(Field::Spread) == Some(Amount::Number(m.spread)),
        m.setting(Field::Inharmonicity) == Some(Amount::Number(m.inharmonicity)),
        m.setting(Field::Brightness) == Some(Amount::Number(m.brightness)),
        m.setting(Field::DecayTime) == Some(Amount::Number(m.decay_time)),
        m.setting(Field::StrikeNoise) == Some(Amount::Number(m.strike_noise)),
        m.setting(Field::KeyTracksPitch) == Some(Amount::Flag(m.key_tracks_pitch)),
{
}

/// Changing a setting and changing it back changes nothing.
pub proof fn metal_bell_settings_change_back(m: MetalBell, f: Field, v: Amount)
    ensures
        m.setting(f) matches Some(w) ==> w.takes(w, f) ==> m.with_setting(f, v).with_setting(f, w)
            == m,
        m.setting(f) is None ==> m.with_setting(f, v) == m,
        m.setting(f) matches Some(w) ==> m.with_setting(f, v).setting(f) == Some(w)
            ==> m.with_setting(f, v) == m,
{
}

/// A setting is the field of its name.
pub proof fn musical_string_settings_are_fields(m: MusicalString)
    ensures
        m.setting(Field::PluckPos) == Some(Amount::Number(m.pluck_pos)),
        m.setting(Field::Inharmonicity) == Some(Amount::Number(m.inharmonicity)),
        m.setting(Field::DecayTime) == Some(Amount::Number(m.decay_time)),
        m.setting(Field::HfDamping) == Some(Amount::Number(m.hf_damping)),
        m.setting(Field::NumModes) == Some(Amount::Count(m.num_modes)),
{
}

/// Changing a setting and changing it back changes nothing.
pub proof fn musical_string_settings_change_back(m: MusicalString, f: Field, v: Amount)
    ensures
        m.setting(f) matches Some(w) ==> w.takes(w, f) ==> m.with_setting(f, v).with_setting(f, w)
            == m,
        m.setting(f) is None ==> m.with_setting(f, v) == m,
        m.setting(f) matches Some(w) ==> m.with_setting(f, v).setting(f) == Some(w)
            ==> m.with_setting(f, v) == m,
{
}

/// A setting is the field of its name.
pub proof fn pure_plate_settings_are_fields(m: PurePlate)
    ensures
        m.setting(Field::Poisson) == Some(Amount::Number(m.poisson)),
        m.setting(Field::DecayTime) == Some(Amount::Number(m.decay_time)),
        m.setting(Field::HfDamp) == Some(Amount::Number(m.hf_damp)),
        m.setting(Field::StrikePos) == Some(Amount::Number(m.strike_pos)),
        m.setting(Field::Modes) == Some(Amount::Count(m.modes)),
        m.setting(Field::KeyTracksPitch) == Some(Amount::Flag(m.key_tracks_pitch)),
{
}

/// Changing a setting and changing it back changes nothing.
pub proof fn pure_plate_settings_change_back(m: PurePlate, f: Field, v: Amount)
    ensures
        m.setting(f) matches Some(w) ==> w.takes(w, f) ==> m.with_setting(f, v).with_setting(f, w)
            == m,
        m.setting(f) is None ==> m.with_setting(f, v) == m,
        m.setting(f) matches Some(w) ==> m.with_setting(f, v).setting(f) == Some(w)
            ==> m.with_setting(f, v) == m,
{
}

/// A setting is the field of its name.
pub proof fn pure_string_settings_are_fields(m: PureString)
    ensures
        m.setting(Field::LengthM) == Some(Amount::Number(m.length_m)),
        m.setting(Field::TensionN) == Some(Amount::Number(m.tension_n)),
        m.setting(Field::DiameterMm) == Some(Amount::Number(m.diameter_mm)),
        m.setting(Field::DensityKgm3) == Some(Amount::Number(m.density_kgm3)),
        m.setting(Field::YoungsGpa) == Some(Amount::Number(m.youngs_gpa)),
        m.setting(Field::PluckPos) == Some(Amount::Number(m.pluck_pos)),
        m.setting(Field::DecayTime) == Some(Amount::Number(m.decay_time)),
        m.setting(Field::HfDamping) == Some(Amount::Number(m.hf_damping)),
        m.setting(Field::NumModes) == Some(Amount::Count(m.num_modes)),
        m.setting(Field::PlayMagnitude) == Some(Amount::Number(m.play_magnitude)),
        m.setting(Field::MaxMagnitude) == Some(Amount::Number(m.max_magnitude)),
{
}

/// Changing a setting and changing it back changes nothing.
pub proof fn pure_string_settings_change_back(m: PureString, f: Field, v: Amount)
    ensures
        m.setting(f) matches Some(w) ==> w.takes(w, f) ==> m.with_setting(f, v).with_setting(f, w)
            == m,
        m.setting(f) is None ==> m.with_setting(f, v) == m,
        m.setting(f) matches Some(w) ==> m.with_setting(f, v).setting(f) == Some(w)
            ==> m.with_setting(f, v) == m,
{
}

/// A setting is the field of its name.
pub proof fn snare_settings_are_fields(m: Snare)
    ensures
        m.setting(Field::Tension) == Some(Amount::Number(m.tension)),
        m.setting(Field::Damping) == Some(Amount::Number(m.damping)),
        m.setting(Field::StrikePos) == Some(Amount::Number(m.strike_pos)),
        m.setting(Field::Depth) == Some(Amount::Count(m.depth)),
        m.setting(Field::Snares) == Some(Amount::Number(m.snares)),
        m.setting(Field::SnareDecay) == Some(Amount::Number(m.snare_decay)),
        m.setting(Field::Tone) == Some(Amount::Number(m.tone)),
        m.setting(Field::KeyTracksPitch) == Some(Amount::Flag(m.key_tracks_pitch)),
{
}

/// Changing a setting and changing it back changes nothing.
pub proof fn snare_settings_change_back(m: Snare, f: Field, v: Amount)
    ensures
        m.setting(f) matches Some(w) ==> w.takes(w, f) ==> m.with_setting(f, v).with_setting(f, w)
            == m,
        m.setting(f) is None ==> m.with_setting(f, v) == m,
        m.setting(f) matches Some(w) ==> m.with_setting(f, v).setting(f) == Some(w)
            ==> m.with_setting(f, v) == m,
{
}

/// A setting is the field of its name.
pub proof fn webster_horn_settings_are_fields(m: WebsterHorn)
    ensures
        m.setting(Field::OverblowAnchorHz) == Some(Amount::Number(m.overblow_anchor_hz)),
        m.setting(Field::OverblowMicrotune) == Some(Amount::Flag(m.overblow_microtune)),
        m.setting(Field::R1) == Some(Amount::Number(m.r1)),
        m.setting(Field::R2) == Some(Amount::Number(m.r2)),
        m.setting(Field::R3) == Some(Amount::Number(m.r3)),
        m.setting(Field::Length) == Some(Amount::Number(m.length)),
        m.setting(Field::BlowPos) == Some(Amount::Number(m.blow_pos)),
        m.setting(Field::Depth) == Some(Amount::Count(m.depth)),
        m.setting(Field::Resolution) == Some(Amount::Count(m.resolution)),
        m.setting(Field::Damping) == Some(Amount::Number(m.damping)),
        m.setting(Field::FreqDepDamping) == Some(Amount::Number(m.freq_dep_damping)),
        m.setting(Field::ViscoLoss) == Some(Amount::Number(m.visco_loss)),
        m.setting(Field::Radiation) == Some(Amount::Number(m.radiation)),
        m.setting(Field::WaveSpeed) == Some(Amount::Number(m.wave_speed)),
        m.setting(Field::DampPeriod) == Some(Amount::Number(m.damp_period)),
        m.setting(Field::PlayMagnitude) == Some(Amount::Number(m.play_magnitude)),
        m.setting(Field::MaxMagnitude) == Some(Amount::Number(m.max_magnitude)),
        m.setting(Field::KeyTracksPitch) == Some(Amount::Flag(m.key_tracks_pitch)),
{
}

/// Changing a setting and changing it back changes nothing.
pub proof fn webster_horn_settings_change_back(m: WebsterHorn, f: Field, v: Amount)
    ensures
        m.setting(f) matches Some(w) ==> w.takes(w, f) ==> m.with_setting(f, v).with_setting(f, w)
            == m,
        m.setting(f) is None ==> m.with_setting(f, v) == m,
        m.setting(f) matches Some(w) ==> m.with_setting(f, v).setting(f) == Some(w)
            ==> m.with_setting(f, v) == m,
{
}

/// A choice stands for what it is called: the first of the list is choice 0, and so on.
pub proof fn choices_count_from_zero(
    w: BasicWave,
    d: DrumMembrane,
    s: PureString,
    h: WebsterHorn,
    k: usize,
)
    ensures
        w.setting(Field::Waveform) == Some(Amount::Choice(0)) <==> w.waveform
            == Waveform::Triangle,
        w.setting(Field::Waveform) == Some(Amount::Choice(1)) <==> w.waveform == Waveform::Saw,
        d.setting(Field::Excitation) == Some(Amount::Choice(0)) <==> d.excitation
            == Excitation::Struck,
        d.setting(Field::Excitation) == Some(Amount::Choice(1)) <==> d.excitation
            == Excitation::Bowed,
        s.setting(Field::Excitation) == Some(Amount::Choice(0)) <==> s.excitation
            == Excitation::Struck,
        s.setting(Field::Excitation) == Some(Amount::Choice(1)) <==> s.excitation
            == Excitation::Bowed,
        h.setting(Field::Boundary) == Some(Amount::Choice(0)) <==> h.boundary == Boundary::Open,
        h.setting(Field::Boundary) == Some(Amount::Choice(1)) <==> h.boundary == Boundary::Brass,
        h.setting(Field::Wavefront) == Some(Amount::Choice(0)) <==> h.wavefront
            == Wavefront::Planar,
        h.setting(Field::Wavefront) == Some(Amount::Choice(1)) <==> h.wavefront
            == Wavefront::Spherical,
        h.setting(Field::PlayMode) == Some(Amount::Choice(0)) <==> h.play_mode
            == PlayMode::Chromatic,
        h.setting(Field::PlayMode) == Some(Amount::Choice(1)) <==> h.play_mode
            == PlayMode::Overblow,
        h.setting(Field::PlayMode) == Some(Amount::Choice(2)) <==> h.play_mode
            == PlayMode::OverblowTracked,
        h.setting(Field::ValveSteps) matches Some(Amount::Count(n)) && n == h.valve_steps,
        k <= 12 ==> h.with_setting(Field::ValveSteps, Amount::Count(k)).valve_steps == k,
{
}

/// Every setting of a basic wave has one control on its panel.
pub proof fn basic_wave_settings_have_their_control(m: BasicWave, f: Field) -> (i: int)
    requires
        m.setting(f) is Some,
    ensures
        0 <= i < m.control_list().len(),
        m.control_list()[i].field == f,
        forall|j: int|
            0 <= j < m.control_list().len() && (#[trigger] m.control_list()[j]).field == f ==> j
                == i,
{
    match f {
        Field::Waveform => 0,
        Field::Harmonics => 1,
        Field::DecayTime => 2,
        _ => 0,
    }
}

/// Every setting of a cymbal has one control on its panel.
pub proof fn cymbal_settings_have_their_control(m: Cymbal, f: Field) -> (i: int)
    requires
        m.setting(f) is Some,
    ensures
        0 <= i < m.control_list().len(),
        m.control_list()[i].field == f,
        forall|j: int|
            0 <= j < m.control_list().len() && (#[trigger] m.control_list()[j]).field == f ==> j
                == i,
{
    match f {
        Field::Size => 0,
        Field::Stiffness => 1,
        Field::Damping => 2,
        Field::Brightness => 3,
        Field::StrikePos => 4,
        Field::Modes => 5,
        Field::Shimmer => 6,
        Field::KeyTracksPitch => 7,
        _ => 0,
    }
}

/// Every setting of a drum membrane has one control on its panel.
pub proof fn drum_membrane_settings_have_their_control(m: DrumMembrane, f: Field) -> (i: int)
    requires
        m.setting(f) is Some,
    ensures
        0 <= i < m.control_list().len(),
        m.control_list()[i].field == f,
        forall|j: int|
            0 <= j < m.control_list().len() && (#[trigger] m.control_list()[j]).field == f ==> j
                == i,
{
    match f {
        Field::StrikePos => 0,
        Field::RadiusM => 1,
        Field::TensionNm => 2,
        Field::ArealDensityKgm2 => 3,
        Field::BendingNm => 4,
        Field::DecayTime => 5,
        Field::HfDamping => 6,
        Field::NumModes => 7,
        Field::PlayMagnitude => 8,
        Field::MaxMagnitude => 9,
        Field::Excitation => 10,
        _ => 0,
    }
}

/// Every setting of a metal bell has one control on its panel.
pub proof fn metal_bell_settings_have_their_control(m: MetalBell, f: Field) -> (i: int)
    requires
        m.setting(f) is Some,
    ensures
        0 <= i < m.control_list().len(),
        m.control_list()[i].field == f,
        forall|j: int|
            0 <= j < m.control_list().len() && (#[trigger] m.control_list()[j]).field == f ==> j
                == i,
{
    match f {
        Field::Partials => 0,
        Field::Spread => 1,
        Field::Inharmonicity => 2,
        Field::Brightness => 3,
        Field::DecayTime => 4,
        Field::StrikeNoise => 5,
        Field::KeyTracksPitch => 6,
        _ => 0,
    }
}

/// Every setting of a musical string has one control on its panel.
pub proof fn musical_string_settings_have_their_control(m: MusicalString, f: Field) -> (i: int)
    requires
        m.setting(f) is Some,
    ensures
        0 <= i < m.control_list().len(),
        m.control_list()[i].field == f,
        forall|j: int|
            0 <= j < m.control_list().len() && (#[trigger] m.control_list()[j]).field == f ==> j
                == i,
{
    match f {
        Field::PluckPos => 0,
        Field::Inharmonicity => 1,
        Field::DecayTime => 2,
        Field::HfDamping => 3,
        Field::NumModes => 4,
        _ => 0,
    }
}

/// Every setting of a pure plate has one control on its panel.
pub proof fn pure_plate_settings_have_their_control(m: PurePlate, f: Field) -> (i: int)
    requires
        m.setting(f) is Some,
    ensures
        0 <= i < m.control_list().len(),
        m.control_list()[i].field == f,
        forall|j: int|
            0 <= j < m.control_list().len() && (#[trigger] m.control_list()[j]).field == f ==> j
                == i,
{
    match f {
        Field::Poisson => 0,
        Field::DecayTime => 1,
        Field::HfDamp => 2,
        Field::StrikePos => 3,
        Field::Modes => 4,
        Field::KeyTracksPitch => 5,
        _ => 0,
    }
}

/// Every setting of a pure string has one control on its panel.
pub proof fn pure_string_settings_have_their_control(m: PureString, f: Field) -> (i: int)
    requires
        m.setting(f) is Some,
    ensures
        0 <= i < m.control_list().len(),
        m.control_list()[i].field == f,
        forall|j: int|
            0 <= j < m.control_list().len() && (#[trigger] m.control_list()[j]).field == f ==> j
                == i,
{
    match f {
        Field::LengthM => 0,
        Field::TensionN => 1,
        Field::DiameterMm => 2,
        Field::DensityKgm3 => 3,
        Field::YoungsGpa => 4,
        Field::PluckPos => 5,
        Field::DecayTime => 6,
        Field::HfDamping => 7,
        Field::NumModes => 8,
        Field::PlayMagnitude => 9,
        Field::MaxMagnitude => 10,
        Field::Excitation => 11,
        _ => 0,
    }
}

/// Every setting of a snare has one control on its panel.
pub proof fn snare_settings_have_their_control(m: Snare, f: Field) -> (i: int)
    requires
        m.setting(f) is Some,
    ensures
        0 <= i < m.control_list().len(),
        m.control_list()[i].field == f,
        forall|j: int|
            0 <= j < m.control_list().len() && (#[trigger] m.control_list()[j]).field == f ==> j
                == i,
{
    match f {
        Field::Tension => 0,
        Field::Damping => 1,
        Field::StrikePos => 2,
        Field::Depth => 3,
        Field::Snares => 4,
        Field::SnareDecay => 5,
        Field::Tone => 6,
        Field::KeyTracksPitch => 7,
        _ => 0,
    }
}

} // verus!
