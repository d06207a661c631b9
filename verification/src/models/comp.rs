//! The components of an instrument graph: exciters and resonators, each with its
//! own parameters.

use crate::models::cymbal::Cymbal;
use crate::models::drum_membrane::DrumMembrane;
use crate::models::metal_bell::MetalBell;
use crate::models::musical_string::MusicalString;
use crate::models::pure_plate::PurePlate;
use crate::models::pure_string::PureString;
use crate::models::webster_horn::WebsterHorn;
use crate::single::{Single, ONE, ZERO};
use crate::text;
use vstd::prelude::*;

verus! {

/// The bit pattern of 0.05: the shortest decay time, in seconds, that a key can give
/// a waveguide string.
pub const SHORTEST_DECAY: u32 = 0x3D4C_CCCD;

/// One node of an instrument graph.
#[derive(Clone, Copy, Debug, PartialEq, Eq, Structural)]
pub enum Comp {
    /// A percussive impulse; velocity comes from the key.
    Strike,
    /// A plucked or struck string resonator.
    String(PureString),
    /// A membrane resonator.
    Membrane(DrumMembrane),
    /// A free-plate resonator.
    Plate(PurePlate),
    /// A music-friendly plucked string.
    MusicalString(MusicalString),
    /// A struck bell or cowbell.
    Bell(MetalBell),
    /// A struck cymbal or gong.
    Cymbal(Cymbal),
    /// A resonant body: an air cavity and a top plate.
    Body { cavity_litres: Single, soundhole_cm: Single, top_hz: Single, decay_s: Single },
    /// Snare wires resting on a head.
    Wires { level: Single, tone: Single },
    /// A continuous breath drive.
    Breath { level: Single, tone: Single },
    /// A reed mouthpiece; a positive `freq_hz` fixes its pitch.
    Reed { pressure: Single, stiffness: Single, freq_hz: Single },
    /// A single reed coupled to its bore.
    ReedBore {
        pressure: Single,
        stiffness: Single,
        length: Single,
        tone: Single,
        register: Single,
        overblow: Single,
        conical: bool,
        tract_gain: Single,
        tract_q: Single,
    },
    /// A double reed coupled to its bore.
    DoubleReed {
        pressure: Single,
        stiffness: Single,
        length: Single,
        tone: Single,
        register: Single,
        overblow: Single,
        conical: bool,
        tract_gain: Single,
        tract_q: Single,
    },
    /// Brass lips coupled to a flaring bore.
    Lips { pressure: Single, tension: Single, length: Single, tone: Single },
    /// A self-contained reed pipe.
    ReedPipe { pressure: Single, stiffness: Single, tone: Single },
    /// An air jet blown across an open pipe.
    AirJet { pressure: Single, jet_ratio: Single, tone: Single, length: Single },
    /// A felt hammer.
    Hammer { hardness: Single, felt: Single },
    /// A bow: stick-slip friction.
    Bow { speed: Single, force: Single },
    /// A self-contained bowed string.
    BowedString { bow_pos: Single, brightness: Single, speed: Single, force: Single },
    /// A self-contained plucked string.
    PluckedString {
        length_m: Single,
        tension_n: Single,
        core_mm: Single,
        youngs_gpa: Single,
        open_hz: Single,
        pos: Single,
        decay: Single,
        damping: Single,
    },
    /// A self-contained hammered string.
    HammeredString {
        length_m: Single,
        tension_n: Single,
        core_mm: Single,
        youngs_gpa: Single,
        open_hz: Single,
        hardness: Single,
        felt: Single,
        pos: Single,
        decay: Single,
        damping: Single,
    },
    /// A vocal-fold source.
    Voice { open_quotient: Single, level: Single },
    /// A flaring air column.
    Horn(WebsterHorn),
    /// A waveguide air column.
    Bore { tone: Single, length: Single },
    /// A segmented flaring horn.
    WaveguideHorn {
        r1: Single,
        r2: Single,
        r3: Single,
        length: Single,
        segments: usize,
        tone: Single,
    },
    /// A pure tone at the played pitch.
    Sine { level: Single },
    /// The sum of its inputs.
    Mix,
}

/// A numeric parameter that a key can drive.
#[derive(Clone, Copy, Debug, PartialEq, Eq, Structural)]
pub enum Param {
    /// Length of a string or bore.
    Length,
    /// Tension of a string, head or lip.
    Tension,
    /// Decay time.
    Decay,
    /// Radius of a head.
    Radius,
    /// Ring time of a plate.
    Ring,
    /// Top resonance of a body.
    TopHz,
    /// Register vent of a reed.
    Register,
    /// Breath pressure.
    Pressure,
    /// Fixed pitch of a reed.
    Freq,
    /// Hardness of a hammer.
    Hardness,
    /// Felt nonlinearity of a hammer.
    Felt,
}

impl Param {
    /// The parameter with the given name.
    pub open spec fn named(name: Seq<char>) -> Option<Param> {
        if name == "length"@ {
            Some(Param::Length)
        } else if name == "tension"@ {
            Some(Param::Tension)
        } else if name == "decay"@ {
            Some(Param::Decay)
        } else if name == "radius"@ {
            Some(Param::Radius)
        } else if name == "ring"@ {
            Some(Param::Ring)
        } else if name == "top_hz"@ {
            Some(Param::TopHz)
        } else if name == "register"@ {
            Some(Param::Register)
        } else if name == "pressure"@ {
            Some(Param::Pressure)
        } else if name == "freq"@ {
            Some(Param::Freq)
        } else if name == "hardness"@ {
            Some(Param::Hardness)
        } else if name == "felt"@ {
            Some(Param::Felt)
        } else {
            None
        }
    }

    /// The name of the parameter.
    pub open spec fn text(self) -> Seq<char> {
        match self {
            Param::Length => "length"@,
            Param::Tension => "tension"@,
            Param::Decay => "decay"@,
            Param::Radius => "radius"@,
            Param::Ring => "ring"@,
            Param::TopHz => "top_hz"@,
            Param::Register => "register"@,
            Param::Pressure => "pressure"@,
            Param::Freq => "freq"@,
            Param::Hardness => "hardness"@,
            Param::Felt => "felt"@,
        }
    }

    /// The name of the parameter.
    pub fn name(self) -> (r: &'static str)
        ensures
            r@ == self.text(),
    {
        match self {
            Param::Length => "length",
            Param::Tension => "tension",
            Param::Decay => "decay",
            Param::Radius => "radius",
            Param::Ring => "ring",
            Param::TopHz => "top_hz",
            Param::Register => "register",
            Param::Pressure => "pressure",
            Param::Freq => "freq",
            Param::Hardness => "hardness",
            Param::Felt => "felt",
        }
    }

    /// The parameter with the given name.
    pub fn parse(name: &str) -> (r: Option<Param>)
        ensures
            r == Param::named(name@),
    {
        if text::same_text(name, "length") {
            Some(Param::Length)
        } else if text::same_text(name, "tension") {
            Some(Param::Tension)
        } else if text::same_text(name, "decay") {
            Some(Param::Decay)
        } else if text::same_text(name, "radius") {
            Some(Param::Radius)
        } else if text::same_text(name, "ring") {
            Some(Param::Ring)
        } else if text::same_text(name, "top_hz") {
            Some(Param::TopHz)
        } else if text::same_text(name, "register") {
            Some(Param::Register)
        } else if text::same_text(name, "pressure") {
            Some(Param::Pressure)
        } else if text::same_text(name, "freq") {
            Some(Param::Freq)
        } else if text::same_text(name, "hardness") {
            Some(Param::Hardness)
        } else if text::same_text(name, "felt") {
            Some(Param::Felt)
        } else {
            None
        }
    }
}

impl Comp {
    /// What the editors call this component.
    pub open spec fn label_text(self) -> Seq<char> {
        match self {
            Comp::Strike => "Strike (exciter)"@,
            Comp::String(_) => "String (resonator)"@,
            Comp::Membrane(_) => "Membrane (resonator)"@,
            Comp::Plate(_) => "Plate (resonator)"@,
            Comp::MusicalString(_) => "Musical string (resonator)"@,
            Comp::Bell(_) => "Bell / cowbell (resonator)"@,
            Comp::Cymbal(_) => "Cymbal / gong (resonator)"@,
            Comp::Body { .. } => "Body / cavity (resonator)"@,
            Comp::Wires { .. } => "Snare wires"@,
            Comp::Breath { .. } => "Breath (exciter)"@,
            Comp::Reed { .. } => "Reed / lip (exciter)"@,
            Comp::ReedBore { .. } => "Reed + bore (coupled)"@,
            Comp::DoubleReed { .. } => "Double reed + bore (coupled)"@,
            Comp::Lips { .. } => "Lips / brass (coupled)"@,
            Comp::ReedPipe { .. } => "Reed pipe (waveguide)"@,
            Comp::AirJet { .. } => "Air jet / flute (flue)"@,
            Comp::Hammer { .. } => "Hammer (exciter)"@,
            Comp::Bow { .. } => "Bow (exciter)"@,
            Comp::BowedString { .. } => "Bowed string (waveguide)"@,
            Comp::PluckedString { .. } => "Plucked string (waveguide)"@,
            Comp::HammeredString { .. } => "Hammered string (piano)"@,
            Comp::Voice { .. } => "Voice / glottis (exciter)"@,
            Comp::Horn(_) => "Air column (resonator)"@,
            Comp::Bore { .. } => "Air column (waveguide)"@,
            Comp::WaveguideHorn { .. } => "Waveguide horn (bore)"@,
            Comp::Sine { .. } => "Sine (tone exciter)"@,
            Comp::Mix => "Mix / output"@,
        }
    }

    /// What the editors call this component.
    pub fn label(&self) -> (r: &'static str)
        ensures
            r@ == self.label_text(),
    {
        match self {
            Comp::Strike => "Strike (exciter)",
            Comp::String(_) => "String (resonator)",
            Comp::Membrane(_) => "Membrane (resonator)",
            Comp::Plate(_) => "Plate (resonator)",
            Comp::MusicalString(_) => "Musical string (resonator)",
            Comp::Bell(_) => "Bell / cowbell (resonator)",
            Comp::Cymbal(_) => "Cymbal / gong (resonator)",
            Comp::Body { .. } => "Body / cavity (resonator)",
            Comp::Wires { .. } => "Snare wires",
            Comp::Breath { .. } => "Breath (exciter)",
            Comp::Reed { .. } => "Reed / lip (exciter)",
            Comp::ReedBore { .. } => "Reed + bore (coupled)",
            Comp::DoubleReed { .. } => "Double reed + bore (coupled)",
            Comp::Lips { .. } => "Lips / brass (coupled)",
            Comp::ReedPipe { .. } => "Reed pipe (waveguide)",
            Comp::AirJet { .. } => "Air jet / flute (flue)",
            Comp::Hammer { .. } => "Hammer (exciter)",
            Comp::Bow { .. } => "Bow (exciter)",
            Comp::BowedString { .. } => "Bowed string (waveguide)",
            Comp::PluckedString { .. } => "Plucked string (waveguide)",
            Comp::HammeredString { .. } => "Hammered string (piano)",
            Comp::Voice { .. } => "Voice / glottis (exciter)",
            Comp::Horn(_) => "Air column (resonator)",
            Comp::Bore { .. } => "Air column (waveguide)",
            Comp::WaveguideHorn { .. } => "Waveguide horn (bore)",
            Comp::Sine { .. } => "Sine (tone exciter)",
            Comp::Mix => "Mix / output",
        }
    }

    /// An energy source.
    pub open spec fn excites(self) -> bool {
        match self {
            Comp::Strike => true,
            Comp::Hammer { .. } => true,
            Comp::Breath { .. } => true,
            Comp::Reed { .. } => true,
            Comp::ReedBore { .. } => true,
            Comp::Lips { .. } => true,
            Comp::DoubleReed { .. } => true,
            Comp::Bow { .. } => true,
            Comp::Voice { .. } => true,
            Comp::ReedPipe { .. } => true,
            Comp::AirJet { .. } => true,
            Comp::BowedString { .. } => true,
            Comp::PluckedString { .. } => true,
            Comp::HammeredString { .. } => true,
            Comp::Sine { .. } => true,
            _ => false,
        }
    }

    /// Whether this is an exciter, that is, an energy source.
    pub fn is_exciter(&self) -> (r: bool)
        ensures
            r == self.excites(),
    {
        match self {
            Comp::Strike => true,
            Comp::Hammer { .. } => true,
            Comp::Breath { .. } => true,
            Comp::Reed { .. } => true,
            Comp::ReedBore { .. } => true,
            Comp::Lips { .. } => true,
            Comp::DoubleReed { .. } => true,
            Comp::Bow { .. } => true,
            Comp::Voice { .. } => true,
            Comp::ReedPipe { .. } => true,
            Comp::AirJet { .. } => true,
            Comp::BowedString { .. } => true,
            Comp::PluckedString { .. } => true,
            Comp::HammeredString { .. } => true,
            Comp::Sine { .. } => true,
            _ => false,
        }
    }

    /// The parameters of this component that a key can drive.
    pub open spec fn drivable(self) -> Seq<Param> {
        match self {
            Comp::String(_) => seq![Param::Length, Param::Tension, Param::Decay],
            Comp::Membrane(_) => seq![Param::Tension, Param::Radius, Param::Decay],
            Comp::Plate(_) => seq![Param::Ring],
            Comp::Body { .. } => seq![Param::TopHz, Param::Decay],
            Comp::Reed { .. } => seq![Param::Freq],
            Comp::ReedBore { .. } => seq![Param::Length, Param::Register, Param::Pressure],
            Comp::DoubleReed { .. } => seq![Param::Length, Param::Register, Param::Pressure],
            Comp::Lips { .. } => seq![Param::Length, Param::Tension],
            Comp::AirJet { .. } => seq![Param::Length],
            Comp::Hammer { .. } => seq![Param::Hardness, Param::Felt],
            Comp::PluckedString { .. } => seq![Param::Decay],
            Comp::HammeredString { .. } => seq![Param::Hardness, Param::Decay],
            Comp::Horn(_) => seq![Param::Length],
            Comp::Bore { .. } => seq![Param::Length],
            Comp::WaveguideHorn { .. } => seq![Param::Length],
            _ => Seq::empty(),
        }
    }

    /// The parameters of this component that a key can drive.
    pub fn mappable(&self) -> (r: Vec<Param>)
        ensures
            r@ == self.drivable(),
    {
        let r: Vec<Param> = match self {
            Comp::String(_) => vec![Param::Length, Param::Tension, Param::Decay],
            Comp::Membrane(_) => vec![Param::Tension, Param::Radius, Param::Decay],
            Comp::Plate(_) => vec![Param::Ring],
            Comp::Body { .. } => vec![Param::TopHz, Param::Decay],
            Comp::Reed { .. } => vec![Param::Freq],
            Comp::ReedBore { .. } => vec![Param::Length, Param::Register, Param::Pressure],
            Comp::DoubleReed { .. } => vec![Param::Length, Param::Register, Param::Pressure],
            Comp::Lips { .. } => vec![Param::Length, Param::Tension],
            Comp::AirJet { .. } => vec![Param::Length],
            Comp::Hammer { .. } => vec![Param::Hardness, Param::Felt],
            Comp::PluckedString { .. } => vec![Param::Decay],
            Comp::HammeredString { .. } => vec![Param::Hardness, Param::Decay],
            Comp::Horn(_) => vec![Param::Length],
            Comp::Bore { .. } => vec![Param::Length],
            Comp::WaveguideHorn { .. } => vec![Param::Length],
            _ => Vec::new(),
        };
        assert(r@ =~= self.drivable());
        r
    }

    /// The value of a drivable parameter.
    pub open spec fn param(self, p: Param) -> Option<Single> {
        match (self, p) {
            (Comp::String(m), Param::Length) => Some(m.length_m),
            (Comp::String(m), Param::Tension) => Some(m.tension_n),
            (Comp::String(m), Param::Decay) => Some(m.decay_time),
            (Comp::Membrane(m), Param::Tension) => Some(m.tension_nm),
            (Comp::Membrane(m), Param::Radius) => Some(m.radius_m),
            (Comp::Membrane(m), Param::Decay) => Some(m.decay_time),
            (Comp::Plate(m), Param::Ring) => Some(m.decay_time),
            (Comp::Body { top_hz, .. }, Param::TopHz) => Some(top_hz),
            (Comp::Body { decay_s, .. }, Param::Decay) => Some(decay_s),
            (Comp::Horn(m), Param::Length) => Some(m.length),
            (Comp::WaveguideHorn { length, .. }, Param::Length) => Some(length),
            (Comp::Bore { length, .. }, Param::Length) => Some(length),
            (Comp::ReedBore { length, .. }, Param::Length) => Some(length),
            (Comp::ReedBore { register, .. }, Param::Register) => Some(register),
            (Comp::ReedBore { pressure, .. }, Param::Pressure) => Some(pressure),
            (Comp::DoubleReed { length, .. }, Param::Length) => Some(length),
            (Comp::DoubleReed { register, .. }, Param::Register) => Some(register),
            (Comp::DoubleReed { pressure, .. }, Param::Pressure) => Some(pressure),
            (Comp::Lips { length, .. }, Param::Length) => Some(length),
            (Comp::Lips { tension, .. }, Param::Tension) => Some(tension),
            (Comp::AirJet { length, .. }, Param::Length) => Some(length),
            (Comp::Reed { freq_hz, .. }, Param::Freq) => Some(freq_hz),
            (Comp::Hammer { hardness, .. }, Param::Hardness) => Some(hardness),
            (Comp::Hammer { felt, .. }, Param::Felt) => Some(felt),
            (Comp::PluckedString { decay, .. }, Param::Decay) => Some(decay),
            (Comp::HammeredString { hardness, .. }, Param::Hardness) => Some(hardness),
            (Comp::HammeredString { decay, .. }, Param::Decay) => Some(decay),
            _ => None,
        }
    }

    /// The value of a drivable parameter.
    pub fn read(&self, p: Param) -> (r: Option<Single>)
        ensures
            r == self.param(p),
    {
        match (self, p) {
            (Comp::String(m), Param::Length) => Some(m.length_m),
            (Comp::String(m), Param::Tension) => Some(m.tension_n),
            (Comp::String(m), Param::Decay) => Some(m.decay_time),
            (Comp::Membrane(m), Param::Tension) => Some(m.tension_nm),
            (Comp::Membrane(m), Param::Radius) => Some(m.radius_m),
            (Comp::Membrane(m), Param::Decay) => Some(m.decay_time),
            (Comp::Plate(m), Param::Ring) => Some(m.decay_time),
            (Comp::Body { top_hz, .. }, Param::TopHz) => Some(*top_hz),
            (Comp::Body { decay_s, .. }, Param::Decay) => Some(*decay_s),
            (Comp::Horn(m), Param::Length) => Some(m.length),
            (Comp::WaveguideHorn { length, .. }, Param::Length) => Some(*length),
            (Comp::Bore { length, .. }, Param::Length) => Some(*length),
            (Comp::ReedBore { length, .. }, Param::Length) => Some(*length),
            (Comp::ReedBore { register, .. }, Param::Register) => Some(*register),
            (Comp::ReedBore { pressure, .. }, Param::Pressure) => Some(*pressure),
            (Comp::DoubleReed { length, .. }, Param::Length) => Some(*length),
            (Comp::DoubleReed { register, .. }, Param::Register) => Some(*register),
            (Comp::DoubleReed { pressure, .. }, Param::Pressure) => Some(*pressure),
            (Comp::Lips { length, .. }, Param::Length) => Some(*length),
            (Comp::Lips { tension, .. }, Param::Tension) => Some(*tension),
            (Comp::AirJet { length, .. }, Param::Length) => Some(*length),
            (Comp::Reed { freq_hz, .. }, Param::Freq) => Some(*freq_hz),
            (Comp::Hammer { hardness, .. }, Param::Hardness) => Some(*hardness),
            (Comp::Hammer { felt, .. }, Param::Felt) => Some(*felt),
            (Comp::PluckedString { decay, .. }, Param::Decay) => Some(*decay),
            (Comp::HammeredString { hardness, .. }, Param::Hardness) => Some(*hardness),
            (Comp::HammeredString { decay, .. }, Param::Decay) => Some(*decay),
            _ => None,
        }
    }

    /// This component with a drivable parameter set (a hammer's hardness stays in
    /// 0 to 1, a waveguide string rings for at least a moment); anything else is
    /// left as it is.
    pub open spec fn with_param(self, p: Param, v: Single) -> Comp {
        match (self, p) {
            (Comp::String(m), Param::Length) => Comp::String(PureString { length_m: v, ..m }),
            (Comp::String(m), Param::Tension) => Comp::String(PureString { tension_n: v, ..m }),
            (Comp::String(m), Param::Decay) => Comp::String(PureString { decay_time: v, ..m }),
            (Comp::Membrane(m), Param::Tension) => Comp::Membrane(
                DrumMembrane { tension_nm: v, ..m },
            ),
            (Comp::Membrane(m), Param::Radius) => Comp::Membrane(DrumMembrane { radius_m: v, ..m }),
            (Comp::Membrane(m), Param::Decay) => Comp::Membrane(
                DrumMembrane { decay_time: v, ..m },
            ),
            (Comp::Plate(m), Param::Ring) => Comp::Plate(PurePlate { decay_time: v, ..m }),
            (
                Comp::Body { cavity_litres, soundhole_cm, decay_s, .. },
                Param::TopHz,
            ) => Comp::Body { cavity_litres, soundhole_cm, top_hz: v, decay_s },
            (
                Comp::Body { cavity_litres, soundhole_cm, top_hz, .. },
                Param::Decay,
            ) => Comp::Body { cavity_litres, soundhole_cm, top_hz, decay_s: v },
            (Comp::Horn(m), Param::Length) => Comp::Horn(WebsterHorn { length: v, ..m }),
            (
                Comp::WaveguideHorn { r1, r2, r3, segments, tone, .. },
                Param::Length,
            ) => Comp::WaveguideHorn { r1, r2, r3, length: v, segments, tone },
            (Comp::Bore { tone, .. }, Param::Length) => Comp::Bore { tone, length: v },
            (
                Comp::ReedBore {
                    pressure,
                    stiffness,
                    tone,
                    register,
                    overblow,
                    conical,
                    tract_gain,
                    tract_q,
                    ..
                },
                Param::Length,
            ) => Comp::ReedBore {
                pressure,
                stiffness,
                length: v,
                tone,
                register,
                overblow,
                conical,
                tract_gain,
                tract_q,
            },
            (
                Comp::ReedBore {
                    pressure,
                    stiffness,
                    length,
                    tone,
                    overblow,
                    conical,
                    tract_gain,
                    tract_q,
                    ..
                },
                Param::Register,
            ) => Comp::ReedBore {
                pressure,
                stiffness,
                length,
                tone,
                register: v,
                overblow,
                conical,
                tract_gain,
                tract_q,
            },
            (
                Comp::ReedBore {
                    stiffness,
                    length,
                    tone,
                    register,
                    overblow,
                    conical,
                    tract_gain,
                    tract_q,
                    ..
                },
                Param::Pressure,
            ) => Comp::ReedBore {
                pressure: v,
                stiffness,
                length,
                tone,
                register,
                overblow,
                conical,
                tract_gain,
                tract_q,
            },
            (
                Comp::DoubleReed {
                    pressure,
                    stiffness,
                    tone,
                    register,
                    overblow,
                    conical,
                    tract_gain,
                    tract_q,
                    ..
                },
                Param::Length,
            ) => Comp::DoubleReed {
                pressure,
                stiffness,
                length: v,
                tone,
                register,
                overblow,
                conical,
                tract_gain,
                tract_q,
            },
            (
                Comp::DoubleReed {
                    pressure,
                    stiffness,
                    length,
                    tone,
                    overblow,
                    conical,
                    tract_gain,
                    tract_q,
                    ..
                },
                Param::Register,
            ) => Comp::DoubleReed {
                pressure,
                stiffness,
                length,
                tone,
                register: v,
                overblow,
                conical,
                tract_gain,
                tract_q,
            },
            (
                Comp::DoubleReed {
                    stiffness,
                    length,
                    tone,
                    register,
                    overblow,
                    conical,
                    tract_gain,
                    tract_q,
                    ..
                },
                Param::Pressure,
            ) => Comp::DoubleReed {
                pressure: v,
                stiffness,
                length,
                tone,
                register,
                overblow,
                conical,
                tract_gain,
                tract_q,
            },
            (
                Comp::Lips { pressure, tension, tone, .. },
                Param::Length,
            ) => Comp::Lips { pressure, tension, length: v, tone },
            (
                Comp::Lips { pressure, length, tone, .. },
                Param::Tension,
            ) => Comp::Lips { pressure, tension: v, length, tone },
            (
                Comp::AirJet { pressure, jet_ratio, tone, .. },
                Param::Length,
            ) => Comp::AirJet { pressure, jet_ratio, tone, length: v },
            (
                Comp::Reed { pressure, stiffness, .. },
                Param::Freq,
            ) => Comp::Reed { pressure, stiffness, freq_hz: v },
            (Comp::Hammer { felt, .. }, Param::Hardness) => Comp::Hammer {
                hardness: v.clamped(Single { bits: ZERO }, Single { bits: ONE }),
                felt,
            },
            (Comp::Hammer { hardness, .. }, Param::Felt) => Comp::Hammer { hardness, felt: v },
            (
                Comp::PluckedString {
                    length_m,
                    tension_n,
                    core_mm,
                    youngs_gpa,
                    open_hz,
                    pos,
                    damping,
                    ..
                },
                Param::Decay,
            ) => Comp::PluckedString {
                length_m,
                tension_n,
                core_mm,
                youngs_gpa,
                open_hz,
                pos,
                decay: v.larger(Single { bits: SHORTEST_DECAY }),
                damping,
            },
            (
                Comp::HammeredString {
                    length_m,
                    tension_n,
                    core_mm,
                    youngs_gpa,
                    open_hz,
                    felt,
                    pos,
                    decay,
                    damping,
                    ..
                },
                Param::Hardness,
            ) => Comp::HammeredString {
                length_m,
                tension_n,
                core_mm,
                youngs_gpa,
                open_hz,
                hardness: v.clamped(Single { bits: ZERO }, Single { bits: ONE }),
                felt,
                pos,
                decay,
                damping,
            },
            (
                Comp::HammeredString {
                    length_m,
                    tension_n,
                    core_mm,
                    youngs_gpa,
                    open_hz,
                    hardness,
                    felt,
                    pos,
                    damping,
                    ..
                },
                Param::Decay,
            ) => Comp::HammeredString {
                length_m,
                tension_n,
                core_mm,
                youngs_gpa,
                open_hz,
                hardness,
                felt,
                pos,
                decay: v.larger(Single { bits: SHORTEST_DECAY }),
                damping,
            },
            _ => self,
        }
    }

    /// Sets a drivable parameter; see [`Comp::with_param`].
    pub fn write(&mut self, p: Param, v: Single)
        ensures
            *final(self) == old(self).with_param(p, v),
    {
        match (*self, p) {
            (Comp::String(m), Param::Length) => {
                *self = Comp::String(PureString { length_m: v, ..m });
            },
            (Comp::String(m), Param::Tension) => {
                *self = Comp::String(PureString { tension_n: v, ..m });
            },
            (Comp::String(m), Param::Decay) => {
                *self = Comp::String(PureString { decay_time: v, ..m });
            },
            (Comp::Membrane(m), Param::Tension) => {
                *self = Comp::Membrane(DrumMembrane { tension_nm: v, ..m });
            },
            (Comp::Membrane(m), Param::Radius) => {
                *self = Comp::Membrane(DrumMembrane { radius_m: v, ..m });
            },
            (Comp::Membrane(m), Param::Decay) => {
                *self = Comp::Membrane(DrumMembrane { decay_time: v, ..m });
            },
            (Comp::Plate(m), Param::Ring) => {
                *self = Comp::Plate(PurePlate { decay_time: v, ..m });
            },
            (Comp::Body { cavity_litres, soundhole_cm, decay_s, .. }, Param::TopHz) => {
                *self = Comp::Body { cavity_litres, soundhole_cm, top_hz: v, decay_s };
            },
            (Comp::Body { cavity_litres, soundhole_cm, top_hz, .. }, Param::Decay) => {
                *self = Comp::Body { cavity_litres, soundhole_cm, top_hz, decay_s: v };
            },
            (Comp::Horn(m), Param::Length) => {
                *self = Comp::Horn(WebsterHorn { length: v, ..m });
            },
            (Comp::WaveguideHorn { r1, r2, r3, segments, tone, .. }, Param::Length) => {
                *self = Comp::WaveguideHorn { r1, r2, r3, length: v, segments, tone };
            },
            (Comp::Bore { tone, .. }, Param::Length) => {
                *self = Comp::Bore { tone, length: v };
            },
            (
                Comp::ReedBore {
                    pressure,
                    stiffness,
                    tone,
                    register,
                    overblow,
                    conical,
                    tract_gain,
                    tract_q,
                    ..
                },
                Param::Length,
            ) => {
                *self = Comp::ReedBore {
                    pressure,
                    stiffness,
                    length: v,
                    tone,
                    register,
                    overblow,
                    conical,
                    tract_gain,
                    tract_q,
                };
            },
            (
                Comp::ReedBore {
                    pressure,
                    stiffness,
                    length,
                    tone,
                    overblow,
                    conical,
                    tract_gain,
                    tract_q,
                    ..
                },
                Param::Register,
            ) => {
                *self = Comp::ReedBore {
                    pressure,
                    stiffness,
                    length,
                    tone,
                    register: v,
                    overblow,
                    conical,
                    tract_gain,
                    tract_q,
                };
            },
            (
                Comp::ReedBore {
                    stiffness,
                    length,
                    tone,
                    register,
                    overblow,
                    conical,
                    tract_gain,
                    tract_q,
                    ..
                },
                Param::Pressure,
            ) => {
                *self = Comp::ReedBore {
                    pressure: v,
                    stiffness,
                    length,
                    tone,
                    register,
                    overblow,
                    conical,
                    tract_gain,
                    tract_q,
                };
            },
            (
                Comp::DoubleReed {
                    pressure,
                    stiffness,
                    tone,
                    register,
                    overblow,
                    conical,
                    tract_gain,
                    tract_q,
                    ..
                },
                Param::Length,
            ) => {
                *self = Comp::DoubleReed {
                    pressure,
                    stiffness,
                    length: v,
                    tone,
                    register,
                    overblow,
                    conical,
                    tract_gain,
                    tract_q,
                };
            },
            (
                Comp::DoubleReed {
                    pressure,
                    stiffness,
                    length,
                    tone,
                    overblow,
                    conical,
                    tract_gain,
                    tract_q,
                    ..
                },
                Param::Register,
            ) => {
                *self = Comp::DoubleReed {
                    pressure,
                    stiffness,
                    length,
                    tone,
                    register: v,
                    overblow,
                    conical,
                    tract_gain,
                    tract_q,
                };
            },
            (
                Comp::DoubleReed {
                    stiffness,
                    length,
                    tone,
                    register,
                    overblow,
                    conical,
                    tract_gain,
                    tract_q,
                    ..
                },
                Param::Pressure,
            ) => {
                *self = Comp::DoubleReed {
                    pressure: v,
                    stiffness,
                    length,
                    tone,
                    register,
                    overblow,
                    conical,
                    tract_gain,
                    tract_q,
                };
            },
            (Comp::Lips { pressure, tension, tone, .. }, Param::Length) => {
                *self = Comp::Lips { pressure, tension, length: v, tone };
            },
            (Comp::Lips { pressure, length, tone, .. }, Param::Tension) => {
                *self = Comp::Lips { pressure, tension: v, length, tone };
            },
            (Comp::AirJet { pressure, jet_ratio, tone, .. }, Param::Length) => {
                *self = Comp::AirJet { pressure, jet_ratio, tone, length: v };
            },
            (Comp::Reed { pressure, stiffness, .. }, Param::Freq) => {
                *self = Comp::Reed { pressure, stiffness, freq_hz: v };
            },
            (Comp::Hammer { felt, .. }, Param::Hardness) => {
                *self = Comp::Hammer {
                    hardness: v.clamp(Single { bits: ZERO }, Single { bits: ONE }),
                    felt,
                };
            },
            (Comp::Hammer { hardness, .. }, Param::Felt) => {
                *self = Comp::Hammer { hardness, felt: v };
            },
            (
                Comp::PluckedString {
                    length_m,
                    tension_n,
                    core_mm,
                    youngs_gpa,
                    open_hz,
                    pos,
                    damping,
                    ..
                },
                Param::Decay,
            ) => {
                *self = Comp::PluckedString {
                    length_m,
                    tension_n,
                    core_mm,
                    youngs_gpa,
                    open_hz,
                    pos,
                    decay: v.max(Single { bits: SHORTEST_DECAY }),
                    damping,
                };
            },
            (
                Comp::HammeredString {
                    length_m,
                    tension_n,
                    core_mm,
                    youngs_gpa,
                    open_hz,
                    felt,
                    pos,
                    decay,
                    damping,
                    ..
                },
                Param::Hardness,
            ) => {
                *self = Comp::HammeredString {
                    length_m,
                    tension_n,
                    core_mm,
                    youngs_gpa,
                    open_hz,
                    hardness: v.clamp(Single { bits: ZERO }, Single { bits: ONE }),
                    felt,
                    pos,
                    decay,
                    damping,
                };
            },
            (
                Comp::HammeredString {
                    length_m,
                    tension_n,
                    core_mm,
                    youngs_gpa,
                    open_hz,
                    hardness,
                    felt,
                    pos,
                    damping,
                    ..
                },
                Param::Decay,
            ) => {
                *self = Comp::HammeredString {
                    length_m,
                    tension_n,
                    core_mm,
                    youngs_gpa,
                    open_hz,
                    hardness,
                    felt,
                    pos,
                    decay: v.max(Single { bits: SHORTEST_DECAY }),
                    damping,
                };
            },
            _ => {},
        }
    }
}

/// The constants are the bit patterns of these decimals.
pub proof fn comp_constants_are()
    ensures
        (Single { bits: SHORTEST_DECAY }) == crate::decimal::decimal(0_0500),
{
    vstd::arithmetic::power2::lemma2_to64();
    vstd::arithmetic::power2::lemma2_to64_rest();
    crate::decimal::decimal_is(0_0500, 28, 0x10000000, 0xCCCCCD);
}

} // verus!
