//! The panels of graph components: what they show, and what moving a control does.

use crate::decimal::decimal;
use crate::models::comp::Comp;
use crate::panel::models;
use crate::panel::{counter, slider, toggle, Amount, Control, Field};
use crate::single::{Single, ZERO};
use vstd::prelude::*;

verus! {

impl Comp {
    /// What its panel shows, from the top.
    pub open spec fn control_list(self) -> Seq<Control> {
        match self {
            Comp::Strike => Seq::empty(),
            Comp::Mix => Seq::empty(),
            Comp::String(m) => m.control_list(),
            Comp::Membrane(m) => m.control_list(),
            Comp::Plate(m) => m.control_list(),
            Comp::MusicalString(m) => m.control_list(),
            Comp::Bell(m) => m.control_list(),
            Comp::Cymbal(m) => m.control_list(),
            Comp::Horn(m) => m.control_list(),
            Comp::Body { .. } => seq![
                slider(
                    Field::CavityLitres,
                    "Cavity volume",
                    Single { bits: ZERO },
                    decimal(60_0000),
                    "",
                )
                    .unit(" L")
                    .with_hint(
                        "Enclosed air volume. With the soundhole it sets the Helmholtz 'boom'. 0 = no cavity (a soundboard).",
                    ),
                slider(Field::SoundholeCm, "Soundhole", Single { bits: ZERO }, decimal(15_0000), "")
                    .unit(" cm")
                    .with_hint("Soundhole diameter — bigger raises the air resonance."),
                slider(Field::TopHz, "Top resonance", decimal(40_0000), decimal(1500_0000), "")
                    .unit(" Hz")
                    .with_hint("Main top/soundboard plate resonance (a guitar top ≈ 195 Hz)."),
                slider(Field::DecayS, "Body decay", decimal(0_0200), decimal(1_0000), "")
                    .unit(" s")
                    .with_hint("How long the body rings — bodies are well damped (~0.15 s)."),
            ],
            Comp::Wires { .. } => seq![
                slider(Field::Level, "Rattle level", Single { bits: ZERO }, decimal(2_0000), ""),
                slider(Field::Tone, "Rattle tone", decimal(0_3000), decimal(3_0000), ""),
            ],
            Comp::Breath { .. } => seq![
                slider(Field::Level, "Breath level", Single { bits: ZERO }, decimal(1_0000), ""),
                slider(Field::Tone, "Breath tone", decimal(0_3000), decimal(3_0000), ""),
            ],
            Comp::Bore { .. } => seq![
                slider(Field::Tone, "Bell brightness", Single { bits: ZERO }, decimal(1_5000), ""),
                slider(
                    Field::Length,
                    "Bore length (m, 0 = track key)",
                    Single { bits: ZERO },
                    decimal(2_0000),
                    "",
                )
                    .with_hint("f = c/2L. Usually key-mapped so the reed follows the bore."),
            ],
            Comp::WaveguideHorn { .. } => seq![
                slider(Field::Length, "Bore length (m)", decimal(0_0500), decimal(2_0000), "")
                    .with_hint(
                        "Sets the pitch (usually key-mapped): cylinder f≈c/4L, cone f≈c/2L.",
                    ),
                slider(Field::R1, "Throat radius (m)", decimal(0_0020), decimal(0_0300), ""),
                slider(
                    Field::R2,
                    "Taper (cone → all harmonics)",
                    Single { bits: ZERO },
                    decimal(0_1000),
                    "",
                ),
                slider(Field::R3, "Flare (bell)", Single { bits: ZERO }, decimal(0_0500), ""),
                slider(Field::Tone, "Bell brightness", Single { bits: ZERO }, decimal(1_5000), ""),
                counter(Field::Segments, "Segments (flare detail)", 2, 32, ""),
            ],
            Comp::Reed { .. } => seq![
                slider(
                    Field::Pressure,
                    "Mouth pressure",
                    Single { bits: ZERO },
                    decimal(2_0000),
                    "",
                ),
                slider(
                    Field::Stiffness,
                    "Reed stiffness",
                    Single { bits: ZERO },
                    decimal(3_0000),
                    "",
                ),
                slider(
                    Field::FreqHz,
                    "Fixed pitch (Hz)",
                    Single { bits: ZERO },
                    decimal(600_0000),
                    "",
                )
                    .with_hint(
                        "0 = a bare valve driven by a feedback edge (pitch from the bore it drives). >0 = a self-contained mouthpiece buzzing at this one fixed pitch, to drive a resonator forward.",
                    ),
            ],
            Comp::ReedBore { .. } => seq![
                slider(Field::Pressure, "Mouth pressure", decimal(0_1000), decimal(2_0000), ""),
                slider(
                    Field::Stiffness,
                    "Reed stiffness",
                    Single { bits: ZERO },
                    decimal(3_0000),
                    "",
                ),
                slider(Field::Length, "Bore length (m)", decimal(0_0500), decimal(2_0000), "")
                    .with_hint("Sets the pitch (usually key-mapped): f ≈ c/2L."),
                slider(Field::Register, "Register key", Single { bits: ZERO }, decimal(0_6000), "")
                    .with_hint(
                        "0 = closed (low register); open lifts the register vent → overblows.",
                    ),
                slider(Field::Overblow, "Overblow ratio", decimal(2_0000), decimal(3_0000), "")
                    .with_hint(
                        "Register break: 3 = a cylinder's twelfth (clarinet), 2 = a cone's octave (sax).",
                    ),
                toggle(Field::Conical, "Conical bore", "")
                    .with_hint(
                        "Cone: full harmonic series, octave overblow (sax/oboe). Off = cylinder: odd harmonics, twelfth (clarinet).",
                    ),
                slider(Field::Tone, "Bell brightness", Single { bits: ZERO }, decimal(1_5000), ""),
                slider(
                    Field::TractGain,
                    "Vocal-tract voicing",
                    Single { bits: ZERO },
                    decimal(8_0000),
                    "",
                )
                    .with_hint(
                        "Airway resonance tuned to the played note, inside the reed loop. 0 = off; raise it to voice the altissimo (upper) registers — biases the reed onto higher bore harmonics. Finicky: a narrow sweet spot.",
                    ),
                slider(Field::TractQ, "Tract Q", Single { bits: ZERO }, decimal(40_0000), "")
                    .with_hint(
                        "Sharpness of the tract resonance. 0 = default (~12). Higher = a tighter, more selective altissimo lock.",
                    ),
            ],
            Comp::DoubleReed { .. } => seq![
                slider(Field::Pressure, "Mouth pressure", decimal(0_1000), decimal(2_0000), ""),
                slider(
                    Field::Stiffness,
                    "Reed stiffness",
                    Single { bits: ZERO },
                    decimal(3_0000),
                    "",
                )
                    .with_hint("Stiff double-reed blades resonate high (bright, buzzy)."),
                slider(Field::Length, "Bore length (m)", decimal(0_0500), decimal(2_0000), "")
                    .with_hint("Sets the pitch (usually key-mapped): f ≈ c/2L."),
                slider(Field::Register, "Register key", Single { bits: ZERO }, decimal(0_6000), "")
                    .with_hint(
                        "0 = closed (low register); open lifts the vent → overblows the octave.",
                    ),
                slider(Field::Overblow, "Overblow ratio", decimal(2_0000), decimal(3_0000), "")
                    .with_hint(
                        "A cone overblows the octave (2). Kept for parity with the single reed.",
                    ),
                toggle(Field::Conical, "Conical bore", "")
                    .with_hint("Double reeds are conical: full harmonic series, octave overblow."),
                slider(Field::Tone, "Bell brightness", Single { bits: ZERO }, decimal(1_5000), ""),
                slider(
                    Field::TractGain,
                    "Vocal-tract voicing",
                    Single { bits: ZERO },
                    decimal(8_0000),
                    "",
                )
                    .with_hint(
                        "Airway resonance inside the reed loop. 0 = off; raise to voice the altissimo registers.",
                    ),
                slider(Field::TractQ, "Tract Q", Single { bits: ZERO }, decimal(40_0000), "")
                    .with_hint("Sharpness of the tract resonance. 0 = default (~12)."),
            ],
            Comp::Lips { .. } => seq![
                slider(Field::Pressure, "Mouth pressure", decimal(0_3000), decimal(2_0000), ""),
                slider(
                    Field::Tension,
                    "Lip tension (partial)",
                    decimal(0_5000),
                    decimal(6_0000),
                    "",
                )
                    .with_hint(
                        "Embouchure: the lip resonance as a multiple of the bore fundamental. ≈1 plays the fundamental, ≈2 the octave, ≈3 the twelfth — brass overblow up the harmonic series on one tube.",
                    ),
                slider(Field::Length, "Bore length (m)", decimal(0_0500), decimal(2_0000), "")
                    .with_hint("Sets the pitch (usually key-mapped): f ≈ c/2L."),
                slider(Field::Tone, "Bell brightness", Single { bits: ZERO }, decimal(1_5000), ""),
            ],
            Comp::ReedPipe { .. } => seq![
                slider(Field::Pressure, "Breath pressure", decimal(0_1000), decimal(1_5000), ""),
                slider(Field::Stiffness, "Reed stiffness", decimal(0_2000), decimal(3_0000), ""),
                slider(Field::Tone, "Bell brightness", Single { bits: ZERO }, decimal(1_5000), ""),
            ],
            Comp::AirJet { .. } => seq![
                slider(Field::Pressure, "Blowing pressure", decimal(0_2000), decimal(1_5000), "")
                    .with_hint("Jet velocity. Blow harder to overblow the octave (a faster jet)."),
                slider(Field::JetRatio, "Jet ratio", decimal(0_2000), decimal(0_8000), "")
                    .with_hint(
                        "Jet convection delay ÷ acoustic period. ~0.5 = fundamental; smaller biases higher registers.",
                    ),
                slider(Field::Tone, "Edge brightness", Single { bits: ZERO }, decimal(1_5000), ""),
                slider(Field::Length, "Bore length (m)", decimal(0_0500), decimal(2_0000), "")
                    .with_hint("Sets the pitch (usually key-mapped): f ≈ c/2L."),
            ],
            Comp::BowedString { .. } => seq![
                slider(
                    Field::BowPos,
                    "Bow position (bridge -> tasto)",
                    decimal(0_0400),
                    decimal(0_2500),
                    "",
                )
                    .with_hint(
                        "Bow-to-bridge distance as a fraction of the string. ~0.08 normal; smaller = near the bridge (brighter/ponticello).",
                    ),
                slider(Field::Brightness, "Brightness", Single { bits: ZERO }, decimal(1_0000), ""),
                slider(Field::Speed, "Bow speed", decimal(0_2000), decimal(3_0000), ""),
                slider(Field::Force, "Bow force", decimal(0_1000), decimal(2_0000), ""),
            ],
            Comp::PluckedString { .. } => seq![
                slider(Field::LengthM, "Length (m)", decimal(0_1000), decimal(2_0000), ""),
                slider(Field::TensionN, "Tension (N)", decimal(20_0000), decimal(1000_0000), ""),
                slider(
                    Field::CoreMm,
                    "Core / stiffness gauge (mm)",
                    decimal(0_1000),
                    decimal(2_0000),
                    "",
                )
                    .with_hint(
                        "The bending-resisting core — a wound string's thin steel core, not its overall diameter.",
                    ),
                slider(
                    Field::YoungsGpa,
                    "Young's modulus (GPa)",
                    decimal(4_0000),
                    decimal(220_0000),
                    "",
                ),
                slider(
                    Field::OpenHz,
                    "Open-string pitch (Hz)",
                    decimal(20_0000),
                    decimal(440_0000),
                    "",
                ),
                slider(Field::Pos, "Pluck position", decimal(0_0200), decimal(0_5000), ""),
                slider(Field::Decay, "Decay time (s)", decimal(0_2000), decimal(12_0000), ""),
                slider(Field::Damping, "HF damping", Single { bits: ZERO }, decimal(0_9000), ""),
            ],
            Comp::HammeredString { .. } => seq![
                slider(Field::LengthM, "Length (m)", decimal(0_1000), decimal(2_0000), ""),
                slider(Field::TensionN, "Tension (N)", decimal(20_0000), decimal(1200_0000), ""),
                slider(
                    Field::CoreMm,
                    "Core / stiffness gauge (mm)",
                    decimal(0_1000),
                    decimal(2_0000),
                    "",
                ),
                slider(
                    Field::YoungsGpa,
                    "Young's modulus (GPa)",
                    decimal(4_0000),
                    decimal(220_0000),
                    "",
                ),
                slider(
                    Field::OpenHz,
                    "Open-string pitch (Hz)",
                    decimal(20_0000),
                    decimal(440_0000),
                    "",
                ),
                slider(
                    Field::Hardness,
                    "Felt hardness",
                    Single { bits: ZERO },
                    decimal(1_0000),
                    "",
                ),
                slider(Field::Felt, "Felt nonlinearity", decimal(1_0000), decimal(4_0000), ""),
                slider(Field::Pos, "Strike position", decimal(0_0200), decimal(0_5000), ""),
                slider(Field::Decay, "Decay time (s)", decimal(0_2000), decimal(12_0000), ""),
                slider(Field::Damping, "HF damping", Single { bits: ZERO }, decimal(0_9000), ""),
            ],
            Comp::Hammer { .. } => seq![
                slider(Field::Hardness, "Felt hardness", Single { bits: ZERO }, decimal(1_0000), "")
                    .with_hint("Soft (0) = dark, long contact; hard (1) = bright, ~1 ms contact."),
                slider(Field::Felt, "Felt nonlinearity", decimal(1_8000), decimal(3_5000), "")
                    .with_hint(
                        "Compression exponent p (piano felt ≈ 2.2–3.5). Higher = more velocity-dependent brightness.",
                    ),
            ],
            Comp::Bow { .. } => seq![
                slider(Field::Speed, "Bow speed", Single { bits: ZERO }, decimal(2_0000), "")
                    .with_hint("How fast the bow travels — louder/brighter with more."),
                slider(Field::Force, "Bow force", Single { bits: ZERO }, decimal(3_0000), "")
                    .with_hint("Bow pressure. Too little slips (whistle), too much chokes."),
            ],
            Comp::Voice { .. } => seq![
                slider(Field::OpenQuotient, "Open quotient", decimal(0_1000), decimal(0_9500), "")
                    .with_hint(
                        "How long the vocal folds stay open — low = pressed/buzzy, high = breathy.",
                    ),
                slider(Field::Level, "Voice level", Single { bits: ZERO }, decimal(1_0000), ""),
            ],
            Comp::Sine { .. } => seq![
                slider(Field::Level, "Sine level", Single { bits: ZERO }, decimal(1_0000), ""),
            ],
        }
    }

    /// What its panel shows, from the top.
    pub fn controls(&self) -> (r: Vec<Control>)
        ensures
            r@ == self.control_list(),
    {
        let r: Vec<Control> = match self {
            Comp::Strike => vec![],
            Comp::Mix => vec![],
            Comp::String(m) => m.controls(),
            Comp::Membrane(m) => m.controls(),
            Comp::Plate(m) => m.controls(),
            Comp::MusicalString(m) => m.controls(),
            Comp::Bell(m) => m.controls(),
            Comp::Cymbal(m) => m.controls(),
            Comp::Horn(m) => m.controls(),
            Comp::Body { .. } => vec![
                slider(
                    Field::CavityLitres,
                    "Cavity volume",
                    Single { bits: ZERO },
                    decimal(60_0000),
                    "",
                )
                    .unit(" L")
                    .with_hint(
                        "Enclosed air volume. With the soundhole it sets the Helmholtz 'boom'. 0 = no cavity (a soundboard).",
                    ),
                slider(Field::SoundholeCm, "Soundhole", Single { bits: ZERO }, decimal(15_0000), "")
                    .unit(" cm")
                    .with_hint("Soundhole diameter — bigger raises the air resonance."),
                slider(Field::TopHz, "Top resonance", decimal(40_0000), decimal(1500_0000), "")
                    .unit(" Hz")
                    .with_hint("Main top/soundboard plate resonance (a guitar top ≈ 195 Hz)."),
                slider(Field::DecayS, "Body decay", decimal(0_0200), decimal(1_0000), "")
                    .unit(" s")
                    .with_hint("How long the body rings — bodies are well damped (~0.15 s)."),
            ],
            Comp::Wires { .. } => vec![
                slider(Field::Level, "Rattle level", Single { bits: ZERO }, decimal(2_0000), ""),
                slider(Field::Tone, "Rattle tone", decimal(0_3000), decimal(3_0000), ""),
            ],
            Comp::Breath { .. } => vec![
                slider(Field::Level, "Breath level", Single { bits: ZERO }, decimal(1_0000), ""),
                slider(Field::Tone, "Breath tone", decimal(0_3000), decimal(3_0000), ""),
            ],
            Comp::Bore { .. } => vec![
                slider(Field::Tone, "Bell brightness", Single { bits: ZERO }, decimal(1_5000), ""),
                slider(
                    Field::Length,
                    "Bore length (m, 0 = track key)",
                    Single { bits: ZERO },
                    decimal(2_0000),
                    "",
                )
                    .with_hint("f = c/2L. Usually key-mapped so the reed follows the bore."),
            ],
            Comp::WaveguideHorn { .. } => vec![
                slider(Field::Length, "Bore length (m)", decimal(0_0500), decimal(2_0000), "")
                    .with_hint(
                        "Sets the pitch (usually key-mapped): cylinder f≈c/4L, cone f≈c/2L.",
                    ),
                slider(Field::R1, "Throat radius (m)", decimal(0_0020), decimal(0_0300), ""),
                slider(
                    Field::R2,
                    "Taper (cone → all harmonics)",
                    Single { bits: ZERO },
                    decimal(0_1000),
                    "",
                ),
                slider(Field::R3, "Flare (bell)", Single { bits: ZERO }, decimal(0_0500), ""),
                slider(Field::Tone, "Bell brightness", Single { bits: ZERO }, decimal(1_5000), ""),
                counter(Field::Segments, "Segments (flare detail)", 2, 32, ""),
            ],
            Comp::Reed { .. } => vec![
                slider(
                    Field::Pressure,
                    "Mouth pressure",
                    Single { bits: ZERO },
                    decimal(2_0000),
                    "",
                ),
                slider(
                    Field::Stiffness,
                    "Reed stiffness",
                    Single { bits: ZERO },
                    decimal(3_0000),
                    "",
                ),
                slider(
                    Field::FreqHz,
                    "Fixed pitch (Hz)",
                    Single { bits: ZERO },
                    decimal(600_0000),
                    "",
                )
                    .with_hint(
                        "0 = a bare valve driven by a feedback edge (pitch from the bore it drives). >0 = a self-contained mouthpiece buzzing at this one fixed pitch, to drive a resonator forward.",
                    ),
            ],
            Comp::ReedBore { .. } => vec![
                slider(Field::Pressure, "Mouth pressure", decimal(0_1000), decimal(2_0000), ""),
                slider(
                    Field::Stiffness,
                    "Reed stiffness",
                    Single { bits: ZERO },
                    decimal(3_0000),
                    "",
                ),
                slider(Field::Length, "Bore length (m)", decimal(0_0500), decimal(2_0000), "")
                    .with_hint("Sets the pitch (usually key-mapped): f ≈ c/2L."),
                slider(Field::Register, "Register key", Single { bits: ZERO }, decimal(0_6000), "")
                    .with_hint(
                        "0 = closed (low register); open lifts the register vent → overblows.",
                    ),
                slider(Field::Overblow, "Overblow ratio", decimal(2_0000), decimal(3_0000), "")
                    .with_hint(
                        "Register break: 3 = a cylinder's twelfth (clarinet), 2 = a cone's octave (sax).",
                    ),
                toggle(Field::Conical, "Conical bore", "")
                    .with_hint(
                        "Cone: full harmonic series, octave overblow (sax/oboe). Off = cylinder: odd harmonics, twelfth (clarinet).",
                    ),
                slider(Field::Tone, "Bell brightness", Single { bits: ZERO }, decimal(1_5000), ""),
                slider(
                    Field::TractGain,
                    "Vocal-tract voicing",
                    Single { bits: ZERO },
                    decimal(8_0000),
                    "",
                )
                    .with_hint(
                        "Airway resonance tuned to the played note, inside the reed loop. 0 = off; raise it to voice the altissimo (upper) registers — biases the reed onto higher bore harmonics. Finicky: a narrow sweet spot.",
                    ),
                slider(Field::TractQ, "Tract Q", Single { bits: ZERO }, decimal(40_0000), "")
                    .with_hint(
                        "Sharpness of the tract resonance. 0 = default (~12). Higher = a tighter, more selective altissimo lock.",
                    ),
            ],
            Comp::DoubleReed { .. } => vec![
                slider(Field::Pressure, "Mouth pressure", decimal(0_1000), decimal(2_0000), ""),
                slider(
                    Field::Stiffness,
                    "Reed stiffness",
                    Single { bits: ZERO },
                    decimal(3_0000),
                    "",
                )
                    .with_hint("Stiff double-reed blades resonate high (bright, buzzy)."),
                slider(Field::Length, "Bore length (m)", decimal(0_0500), decimal(2_0000), "")
                    .with_hint("Sets the pitch (usually key-mapped): f ≈ c/2L."),
                slider(Field::Register, "Register key", Single { bits: ZERO }, decimal(0_6000), "")
                    .with_hint(
                        "0 = closed (low register); open lifts the vent → overblows the octave.",
                    ),
                slider(Field::Overblow, "Overblow ratio", decimal(2_0000), decimal(3_0000), "")
                    .with_hint(
                        "A cone overblows the octave (2). Kept for parity with the single reed.",
                    ),
                toggle(Field::Conical, "Conical bore", "")
                    .with_hint("Double reeds are conical: full harmonic series, octave overblow."),
                slider(Field::Tone, "Bell brightness", Single { bits: ZERO }, decimal(1_5000), ""),
                slider(
                    Field::TractGain,
                    "Vocal-tract voicing",
                    Single { bits: ZERO },
                    decimal(8_0000),
                    "",
                )
                    .with_hint(
                        "Airway resonance inside the reed loop. 0 = off; raise to voice the altissimo registers.",
                    ),
                slider(Field::TractQ, "Tract Q", Single { bits: ZERO }, decimal(40_0000), "")
                    .with_hint("Sharpness of the tract resonance. 0 = default (~12)."),
            ],
            Comp::Lips { .. } => vec![
                slider(Field::Pressure, "Mouth pressure", decimal(0_3000), decimal(2_0000), ""),
                slider(
                    Field::Tension,
                    "Lip tension (partial)",
                    decimal(0_5000),
                    decimal(6_0000),
                    "",
                )
                    .with_hint(
                        "Embouchure: the lip resonance as a multiple of the bore fundamental. ≈1 plays the fundamental, ≈2 the octave, ≈3 the twelfth — brass overblow up the harmonic series on one tube.",
                    ),
                slider(Field::Length, "Bore length (m)", decimal(0_0500), decimal(2_0000), "")
                    .with_hint("Sets the pitch (usually key-mapped): f ≈ c/2L."),
                slider(Field::Tone, "Bell brightness", Single { bits: ZERO }, decimal(1_5000), ""),
            ],
            Comp::ReedPipe { .. } => vec![
                slider(Field::Pressure, "Breath pressure", decimal(0_1000), decimal(1_5000), ""),
                slider(Field::Stiffness, "Reed stiffness", decimal(0_2000), decimal(3_0000), ""),
                slider(Field::Tone, "Bell brightness", Single { bits: ZERO }, decimal(1_5000), ""),
            ],
            Comp::AirJet { .. } => vec![
                slider(Field::Pressure, "Blowing pressure", decimal(0_2000), decimal(1_5000), "")
                    .with_hint("Jet velocity. Blow harder to overblow the octave (a faster jet)."),
                slider(Field::JetRatio, "Jet ratio", decimal(0_2000), decimal(0_8000), "")
                    .with_hint(
                        "Jet convection delay ÷ acoustic period. ~0.5 = fundamental; smaller biases higher registers.",
                    ),
                slider(Field::Tone, "Edge brightness", Single { bits: ZERO }, decimal(1_5000), ""),
                slider(Field::Length, "Bore length (m)", decimal(0_0500), decimal(2_0000), "")
                    .with_hint("Sets the pitch (usually key-mapped): f ≈ c/2L."),
            ],
            Comp::BowedString { .. } => vec![
                slider(
                    Field::BowPos,
                    "Bow position (bridge -> tasto)",
                    decimal(0_0400),
                    decimal(0_2500),
                    "",
                )
                    .with_hint(
                        "Bow-to-bridge distance as a fraction of the string. ~0.08 normal; smaller = near the bridge (brighter/ponticello).",
                    ),
                slider(Field::Brightness, "Brightness", Single { bits: ZERO }, decimal(1_0000), ""),
                slider(Field::Speed, "Bow speed", decimal(0_2000), decimal(3_0000), ""),
                slider(Field::Force, "Bow force", decimal(0_1000), decimal(2_0000), ""),
            ],
            Comp::PluckedString { .. } => vec![
                slider(Field::LengthM, "Length (m)", decimal(0_1000), decimal(2_0000), ""),
                slider(Field::TensionN, "Tension (N)", decimal(20_0000), decimal(1000_0000), ""),
                slider(
                    Field::CoreMm,
                    "Core / stiffness gauge (mm)",
                    decimal(0_1000),
                    decimal(2_0000),
                    "",
                )
                    .with_hint(
                        "The bending-resisting core — a wound string's thin steel core, not its overall diameter.",
                    ),
                slider(
                    Field::YoungsGpa,
                    "Young's modulus (GPa)",
                    decimal(4_0000),
                    decimal(220_0000),
                    "",
                ),
                slider(
                    Field::OpenHz,
                    "Open-string pitch (Hz)",
                    decimal(20_0000),
                    decimal(440_0000),
                    "",
                ),
                slider(Field::Pos, "Pluck position", decimal(0_0200), decimal(0_5000), ""),
                slider(Field::Decay, "Decay time (s)", decimal(0_2000), decimal(12_0000), ""),
                slider(Field::Damping, "HF damping", Single { bits: ZERO }, decimal(0_9000), ""),
            ],
            Comp::HammeredString { .. } => vec![
                slider(Field::LengthM, "Length (m)", decimal(0_1000), decimal(2_0000), ""),
                slider(Field::TensionN, "Tension (N)", decimal(20_0000), decimal(1200_0000), ""),
                slider(
                    Field::CoreMm,
                    "Core / stiffness gauge (mm)",
                    decimal(0_1000),
                    decimal(2_0000),
                    "",
                ),
                slider(
                    Field::YoungsGpa,
                    "Young's modulus (GPa)",
                    decimal(4_0000),
                    decimal(220_0000),
                    "",
                ),
                slider(
                    Field::OpenHz,
                    "Open-string pitch (Hz)",
                    decimal(20_0000),
                    decimal(440_0000),
                    "",
                ),
                slider(
                    Field::Hardness,
                    "Felt hardness",
                    Single { bits: ZERO },
                    decimal(1_0000),
                    "",
                ),
                slider(Field::Felt, "Felt nonlinearity", decimal(1_0000), decimal(4_0000), ""),
                slider(Field::Pos, "Strike position", decimal(0_0200), decimal(0_5000), ""),
                slider(Field::Decay, "Decay time (s)", decimal(0_2000), decimal(12_0000), ""),
                slider(Field::Damping, "HF damping", Single { bits: ZERO }, decimal(0_9000), ""),
            ],
            Comp::Hammer { .. } => vec![
                slider(Field::Hardness, "Felt hardness", Single { bits: ZERO }, decimal(1_0000), "")
                    .with_hint("Soft (0) = dark, long contact; hard (1) = bright, ~1 ms contact."),
                slider(Field::Felt, "Felt nonlinearity", decimal(1_8000), decimal(3_5000), "")
                    .with_hint(
                        "Compression exponent p (piano felt ≈ 2.2–3.5). Higher = more velocity-dependent brightness.",
                    ),
            ],
            Comp::Bow { .. } => vec![
                slider(Field::Speed, "Bow speed", Single { bits: ZERO }, decimal(2_0000), "")
                    .with_hint("How fast the bow travels — louder/brighter with more."),
                slider(Field::Force, "Bow force", Single { bits: ZERO }, decimal(3_0000), "")
                    .with_hint("Bow pressure. Too little slips (whistle), too much chokes."),
            ],
            Comp::Voice { .. } => vec![
                slider(Field::OpenQuotient, "Open quotient", decimal(0_1000), decimal(0_9500), "")
                    .with_hint(
                        "How long the vocal folds stay open — low = pressed/buzzy, high = breathy.",
                    ),
                slider(Field::Level, "Voice level", Single { bits: ZERO }, decimal(1_0000), ""),
            ],
            Comp::Sine { .. } => vec![
                slider(Field::Level, "Sine level", Single { bits: ZERO }, decimal(1_0000), ""),
            ],
        };
        assert(r@ =~= self.control_list());
        r
    }

    /// The value of a setting.
    pub open spec fn setting(self, f: Field) -> Option<Amount> {
        match self {
            Comp::Strike => None,
            Comp::Mix => None,
            Comp::String(m) => m.setting(f),
            Comp::Membrane(m) => m.setting(f),
            Comp::Plate(m) => m.setting(f),
            Comp::MusicalString(m) => m.setting(f),
            Comp::Bell(m) => m.setting(f),
            Comp::Cymbal(m) => m.setting(f),
            Comp::Horn(m) => m.setting(f),
            Comp::Body { cavity_litres, soundhole_cm, top_hz, decay_s } => match f {
                Field::CavityLitres => Some(Amount::Number(cavity_litres)),
                Field::SoundholeCm => Some(Amount::Number(soundhole_cm)),
                Field::TopHz => Some(Amount::Number(top_hz)),
                Field::DecayS => Some(Amount::Number(decay_s)),
                _ => None,
            },
            Comp::Wires { level, tone } => match f {
                Field::Level => Some(Amount::Number(level)),
                Field::Tone => Some(Amount::Number(tone)),
                _ => None,
            },
            Comp::Breath { level, tone } => match f {
                Field::Level => Some(Amount::Number(level)),
                Field::Tone => Some(Amount::Number(tone)),
                _ => None,
            },
            Comp::Bore { tone, length } => match f {
                Field::Tone => Some(Amount::Number(tone)),
                Field::Length => Some(Amount::Number(length)),
                _ => None,
            },
            Comp::WaveguideHorn { r1, r2, r3, length, segments, tone } => match f {
                Field::Length => Some(Amount::Number(length)),
                Field::R1 => Some(Amount::Number(r1)),
                Field::R2 => Some(Amount::Number(r2)),
                Field::R3 => Some(Amount::Number(r3)),
                Field::Tone => Some(Amount::Number(tone)),
                Field::Segments => Some(Amount::Count(segments)),
                _ => None,
            },
            Comp::Reed { pressure, stiffness, freq_hz } => match f {
                Field::Pressure => Some(Amount::Number(pressure)),
                Field::Stiffness => Some(Amount::Number(stiffness)),
                Field::FreqHz => Some(Amount::Number(freq_hz)),
                _ => None,
            },
            Comp::ReedBore {
                pressure,
                stiffness,
                length,
                tone,
                register,
                overblow,
                conical,
                tract_gain,
                tract_q,
            } => match f {
                Field::Pressure => Some(Amount::Number(pressure)),
                Field::Stiffness => Some(Amount::Number(stiffness)),
                Field::Length => Some(Amount::Number(length)),
                Field::Register => Some(Amount::Number(register)),
                Field::Overblow => Some(Amount::Number(overblow)),
                Field::Conical => Some(Amount::Flag(conical)),
                Field::Tone => Some(Amount::Number(tone)),
                Field::TractGain => Some(Amount::Number(tract_gain)),
                Field::TractQ => Some(Amount::Number(tract_q)),
                _ => None,
            },
            Comp::DoubleReed {
                pressure,
                stiffness,
                length,
                tone,
                register,
                overblow,
                conical,
                tract_gain,
                tract_q,
            } => match f {
                Field::Pressure => Some(Amount::Number(pressure)),
                Field::Stiffness => Some(Amount::Number(stiffness)),
                Field::Length => Some(Amount::Number(length)),
                Field::Register => Some(Amount::Number(register)),
                Field::Overblow => Some(Amount::Number(overblow)),
                Field::Conical => Some(Amount::Flag(conical)),
                Field::Tone => Some(Amount::Number(tone)),
                Field::TractGain => Some(Amount::Number(tract_gain)),
                Field::TractQ => Some(Amount::Number(tract_q)),
                _ => None,
            },
            Comp::Lips { pressure, tension, length, tone } => match f {
                Field::Pressure => Some(Amount::Number(pressure)),
                Field::Tension => Some(Amount::Number(tension)),
                Field::Length => Some(Amount::Number(length)),
                Field::Tone => Some(Amount::Number(tone)),
                _ => None,
            },
            Comp::ReedPipe { pressure, stiffness, tone } => match f {
                Field::Pressure => Some(Amount::Number(pressure)),
                Field::Stiffness => Some(Amount::Number(stiffness)),
                Field::Tone => Some(Amount::Number(tone)),
                _ => None,
            },
            Comp::AirJet { pressure, jet_ratio, tone, length } => match f {
                Field::Pressure => Some(Amount::Number(pressure)),
                Field::JetRatio => Some(Amount::Number(jet_ratio)),
                Field::Tone => Some(Amount::Number(tone)),
                Field::Length => Some(Amount::Number(length)),
                _ => None,
            },
            Comp::BowedString { bow_pos, brightness, speed, force } => match f {
                Field::BowPos => Some(Amount::Number(bow_pos)),
                Field::Brightness => Some(Amount::Number(brightness)),
                Field::Speed => Some(Amount::Number(speed)),
                Field::Force => Some(Amount::Number(force)),
                _ => None,
            },
            Comp::PluckedString {
                length_m,
                tension_n,
                core_mm,
                youngs_gpa,
                open_hz,
                pos,
                decay,
                damping,
            } => match f {
                Field::LengthM => Some(Amount::Number(length_m)),
                Field::TensionN => Some(Amount::Number(tension_n)),
                Field::CoreMm => Some(Amount::Number(core_mm)),
                Field::YoungsGpa => Some(Amount::Number(youngs_gpa)),
                Field::OpenHz => Some(Amount::Number(open_hz)),
                Field::Pos => Some(Amount::Number(pos)),
                Field::Decay => Some(Amount::Number(decay)),
                Field::Damping => Some(Amount::Number(damping)),
                _ => None,
            },
            Comp::HammeredString {
                length_m,
                tension_n,
                core_mm,
                youngs_gpa,
                open_hz,
                hardness,
                felt,
                pos,
                decay,
                damping,
            } => match f {
                Field::LengthM => Some(Amount::Number(length_m)),
                Field::TensionN => Some(Amount::Number(tension_n)),
                Field::CoreMm => Some(Amount::Number(core_mm)),
                Field::YoungsGpa => Some(Amount::Number(youngs_gpa)),
                Field::OpenHz => Some(Amount::Number(open_hz)),
                Field::Hardness => Some(Amount::Number(hardness)),
                Field::Felt => Some(Amount::Number(felt)),
                Field::Pos => Some(Amount::Number(pos)),
                Field::Decay => Some(Amount::Number(decay)),
                Field::Damping => Some(Amount::Number(damping)),
                _ => None,
            },
            Comp::Hammer { hardness, felt } => match f {
                Field::Hardness => Some(Amount::Number(hardness)),
                Field::Felt => Some(Amount::Number(felt)),
                _ => None,
            },
            Comp::Bow { speed, force } => match f {
                Field::Speed => Some(Amount::Number(speed)),
                Field::Force => Some(Amount::Number(force)),
                _ => None,
            },
            Comp::Voice { open_quotient, level } => match f {
                Field::OpenQuotient => Some(Amount::Number(open_quotient)),
                Field::Level => Some(Amount::Number(level)),
                _ => None,
            },
            Comp::Sine { level } => match f {
                Field::Level => Some(Amount::Number(level)),
                _ => None,
            },
        }
    }

    /// The value of a setting.
    pub fn get_setting(&self, f: Field) -> (r: Option<Amount>)
        ensures
            r == self.setting(f),
    {
        match self {
            Comp::Strike => None,
            Comp::Mix => None,
            Comp::String(m) => m.get_setting(f),
            Comp::Membrane(m) => m.get_setting(f),
            Comp::Plate(m) => m.get_setting(f),
            Comp::MusicalString(m) => m.get_setting(f),
            Comp::Bell(m) => m.get_setting(f),
            Comp::Cymbal(m) => m.get_setting(f),
            Comp::Horn(m) => m.get_setting(f),
            Comp::Body { cavity_litres, soundhole_cm, top_hz, decay_s } => match f {
                Field::CavityLitres => Some(Amount::Number(*cavity_litres)),
                Field::SoundholeCm => Some(Amount::Number(*soundhole_cm)),
                Field::TopHz => Some(Amount::Number(*top_hz)),
                Field::DecayS => Some(Amount::Number(*decay_s)),
                _ => None,
            },
            Comp::Wires { level, tone } => match f {
                Field::Level => Some(Amount::Number(*level)),
                Field::Tone => Some(Amount::Number(*tone)),
                _ => None,
            },
            Comp::Breath { level, tone } => match f {
                Field::Level => Some(Amount::Number(*level)),
                Field::Tone => Some(Amount::Number(*tone)),
                _ => None,
            },
            Comp::Bore { tone, length } => match f {
                Field::Tone => Some(Amount::Number(*tone)),
                Field::Length => Some(Amount::Number(*length)),
                _ => None,
            },
            Comp::WaveguideHorn { r1, r2, r3, length, segments, tone } => match f {
                Field::Length => Some(Amount::Number(*length)),
                Field::R1 => Some(Amount::Number(*r1)),
                Field::R2 => Some(Amount::Number(*r2)),
                Field::R3 => Some(Amount::Number(*r3)),
                Field::Tone => Some(Amount::Number(*tone)),
                Field::Segments => Some(Amount::Count(*segments)),
                _ => None,
            },
            Comp::Reed { pressure, stiffness, freq_hz } => match f {
                Field::Pressure => Some(Amount::Number(*pressure)),
                Field::Stiffness => Some(Amount::Number(*stiffness)),
                Field::FreqHz => Some(Amount::Number(*freq_hz)),
                _ => None,
            },
            Comp::ReedBore {
                pressure,
                stiffness,
                length,
                tone,
                register,
                overblow,
                conical,
                tract_gain,
                tract_q,
            } => match f {
                Field::Pressure => Some(Amount::Number(*pressure)),
                Field::Stiffness => Some(Amount::Number(*stiffness)),
                Field::Length => Some(Amount::Number(*length)),
                Field::Register => Some(Amount::Number(*register)),
                Field::Overblow => Some(Amount::Number(*overblow)),
                Field::Conical => Some(Amount::Flag(*conical)),
                Field::Tone => Some(Amount::Number(*tone)),
                Field::TractGain => Some(Amount::Number(*tract_gain)),
                Field::TractQ => Some(Amount::Number(*tract_q)),
                _ => None,
            },
            Comp::DoubleReed {
                pressure,
                stiffness,
                length,
                tone,
                register,
                overblow,
                conical,
                tract_gain,
                tract_q,
            } => match f {
                Field::Pressure => Some(Amount::Number(*pressure)),
                Field::Stiffness => Some(Amount::Number(*stiffness)),
                Field::Length => Some(Amount::Number(*length)),
                Field::Register => Some(Amount::Number(*register)),
                Field::Overblow => Some(Amount::Number(*overblow)),
                Field::Conical => Some(Amount::Flag(*conical)),
                Field::Tone => Some(Amount::Number(*tone)),
                Field::TractGain => Some(Amount::Number(*tract_gain)),
                Field::TractQ => Some(Amount::Number(*tract_q)),
                _ => None,
            },
            Comp::Lips { pressure, tension, length, tone } => match f {
                Field::Pressure => Some(Amount::Number(*pressure)),
                Field::Tension => Some(Amount::Number(*tension)),
                Field::Length => Some(Amount::Number(*length)),
                Field::Tone => Some(Amount::Number(*tone)),
                _ => None,
            },
            Comp::ReedPipe { pressure, stiffness, tone } => match f {
                Field::Pressure => Some(Amount::Number(*pressure)),
                Field::Stiffness => Some(Amount::Number(*stiffness)),
                Field::Tone => Some(Amount::Number(*tone)),
                _ => None,
            },
            Comp::AirJet { pressure, jet_ratio, tone, length } => match f {
                Field::Pressure => Some(Amount::Number(*pressure)),
                Field::JetRatio => Some(Amount::Number(*jet_ratio)),
                Field::Tone => Some(Amount::Number(*tone)),
                Field::Length => Some(Amount::Number(*length)),
                _ => None,
            },
            Comp::BowedString { bow_pos, brightness, speed, force } => match f {
                Field::BowPos => Some(Amount::Number(*bow_pos)),
                Field::Brightness => Some(Amount::Number(*brightness)),
                Field::Speed => Some(Amount::Number(*speed)),
                Field::Force => Some(Amount::Number(*force)),
                _ => None,
            },
            Comp::PluckedString {
                length_m,
                tension_n,
                core_mm,
                youngs_gpa,
                open_hz,
                pos,
                decay,
                damping,
            } => match f {
                Field::LengthM => Some(Amount::Number(*length_m)),
                Field::TensionN => Some(Amount::Number(*tension_n)),
                Field::CoreMm => Some(Amount::Number(*core_mm)),
                Field::YoungsGpa => Some(Amount::Number(*youngs_gpa)),
                Field::OpenHz => Some(Amount::Number(*open_hz)),
                Field::Pos => Some(Amount::Number(*pos)),
                Field::Decay => Some(Amount::Number(*decay)),
                Field::Damping => Some(Amount::Number(*damping)),
                _ => None,
            },
            Comp::HammeredString {
                length_m,
                tension_n,
                core_mm,
                youngs_gpa,
                open_hz,
                hardness,
                felt,
                pos,
                decay,
                damping,
            } => match f {
                Field::LengthM => Some(Amount::Number(*length_m)),
                Field::TensionN => Some(Amount::Number(*tension_n)),
                Field::CoreMm => Some(Amount::Number(*core_mm)),
                Field::YoungsGpa => Some(Amount::Number(*youngs_gpa)),
                Field::OpenHz => Some(Amount::Number(*open_hz)),
                Field::Hardness => Some(Amount::Number(*hardness)),
                Field::Felt => Some(Amount::Number(*felt)),
                Field::Pos => Some(Amount::Number(*pos)),
                Field::Decay => Some(Amount::Number(*decay)),
                Field::Damping => Some(Amount::Number(*damping)),
                _ => None,
            },
            Comp::Hammer { hardness, felt } => match f {
                Field::Hardness => Some(Amount::Number(*hardness)),
                Field::Felt => Some(Amount::Number(*felt)),
                _ => None,
            },
            Comp::Bow { speed, force } => match f {
                Field::Speed => Some(Amount::Number(*speed)),
                Field::Force => Some(Amount::Number(*force)),
                _ => None,
            },
            Comp::Voice { open_quotient, level } => match f {
                Field::OpenQuotient => Some(Amount::Number(*open_quotient)),
                Field::Level => Some(Amount::Number(*level)),
                _ => None,
            },
            Comp::Sine { level } => match f {
                Field::Level => Some(Amount::Number(*level)),
                _ => None,
            },
        }
    }

    /// This with a setting changed; unchanged where the setting takes no such value.
    pub open spec fn with_setting(self, f: Field, v: Amount) -> Comp {
        match self {
            Comp::Strike => self,
            Comp::Mix => self,
            Comp::String(m) => Comp::String(m.with_setting(f, v)),
            Comp::Membrane(m) => Comp::Membrane(m.with_setting(f, v)),
            Comp::Plate(m) => Comp::Plate(m.with_setting(f, v)),
            Comp::MusicalString(m) => Comp::MusicalString(m.with_setting(f, v)),
            Comp::Bell(m) => Comp::Bell(m.with_setting(f, v)),
            Comp::Cymbal(m) => Comp::Cymbal(m.with_setting(f, v)),
            Comp::Horn(m) => Comp::Horn(m.with_setting(f, v)),
            Comp::Body { cavity_litres, soundhole_cm, top_hz, decay_s } => match (f, v) {
                (Field::CavityLitres, Amount::Number(x)) => Comp::Body {
                    cavity_litres: x,
                    soundhole_cm,
                    top_hz,
                    decay_s,
                },
                (Field::SoundholeCm, Amount::Number(x)) => Comp::Body {
                    cavity_litres,
                    soundhole_cm: x,
                    top_hz,
                    decay_s,
                },
                (Field::TopHz, Amount::Number(x)) => Comp::Body {
                    cavity_litres,
                    soundhole_cm,
                    top_hz: x,
                    decay_s,
                },
                (Field::DecayS, Amount::Number(x)) => Comp::Body {
                    cavity_litres,
                    soundhole_cm,
                    top_hz,
                    decay_s: x,
                },
                _ => self,
            },
            Comp::Wires { level, tone } => match (f, v) {
                (Field::Level, Amount::Number(x)) => Comp::Wires { level: x, tone },
                (Field::Tone, Amount::Number(x)) => Comp::Wires { level, tone: x },
                _ => self,
            },
            Comp::Breath { level, tone } => match (f, v) {
                (Field::Level, Amount::Number(x)) => Comp::Breath { level: x, tone },
                (Field::Tone, Amount::Number(x)) => Comp::Breath { level, tone: x },
                _ => self,
            },
            Comp::Bore { tone, length } => match (f, v) {
                (Field::Tone, Amount::Number(x)) => Comp::Bore { tone: x, length },
                (Field::Length, Amount::Number(x)) => Comp::Bore { tone, length: x },
                _ => self,
            },
            Comp::WaveguideHorn { r1, r2, r3, length, segments, tone } => match (f, v) {
                (Field::Length, Amount::Number(x)) => Comp::WaveguideHorn {
                    r1,
                    r2,
                    r3,
                    length: x,
                    segments,
                    tone,
                },
                (Field::R1, Amount::Number(x)) => Comp::WaveguideHorn {
                    r1: x,
                    r2,
                    r3,
                    length,
                    segments,
                    tone,
                },
                (Field::R2, Amount::Number(x)) => Comp::WaveguideHorn {
                    r1,
                    r2: x,
                    r3,
                    length,
                    segments,
                    tone,
                },
                (Field::R3, Amount::Number(x)) => Comp::WaveguideHorn {
                    r1,
                    r2,
                    r3: x,
                    length,
                    segments,
                    tone,
                },
                (Field::Tone, Amount::Number(x)) => Comp::WaveguideHorn {
                    r1,
                    r2,
                    r3,
                    length,
                    segments,
                    tone: x,
                },
                (
                    Field::Segments,
                    Amount::Count(x),
                ) => Comp::WaveguideHorn { r1, r2, r3, length, segments: if x < 2 {
                        2
                    } else if x > 64 {
                        64
                    } else {
                        x
                    }, tone },
                _ => self,
            },
            Comp::Reed { pressure, stiffness, freq_hz } => match (f, v) {
                (
                    Field::Pressure,
                    Amount::Number(x),
                ) => Comp::Reed { pressure: x, stiffness, freq_hz },
                (
                    Field::Stiffness,
                    Amount::Number(x),
                ) => Comp::Reed { pressure, stiffness: x, freq_hz },
                (Field::FreqHz, Amount::Number(x)) => Comp::Reed {
                    pressure,
                    stiffness,
                    freq_hz: x,
                },
                _ => self,
            },
            Comp::ReedBore {
                pressure,
                stiffness,
                length,
                tone,
                register,
                overblow,
                conical,
                tract_gain,
                tract_q,
            } => match (f, v) {
                (Field::Pressure, Amount::Number(x)) => Comp::ReedBore {
                    pressure: x,
                    stiffness,
                    length,
                    tone,
                    register,
                    overblow,
                    conical,
                    tract_gain,
                    tract_q,
                },
                (Field::Stiffness, Amount::Number(x)) => Comp::ReedBore {
                    pressure,
                    stiffness: x,
                    length,
                    tone,
                    register,
                    overblow,
                    conical,
                    tract_gain,
                    tract_q,
                },
                (Field::Length, Amount::Number(x)) => Comp::ReedBore {
                    pressure,
                    stiffness,
                    length: x,
                    tone,
                    register,
                    overblow,
                    conical,
                    tract_gain,
                    tract_q,
                },
                (Field::Register, Amount::Number(x)) => Comp::ReedBore {
                    pressure,
                    stiffness,
                    length,
                    tone,
                    register: x,
                    overblow,
                    conical,
                    tract_gain,
                    tract_q,
                },
                (Field::Overblow, Amount::Number(x)) => Comp::ReedBore {
                    pressure,
                    stiffness,
                    length,
                    tone,
                    register,
                    overblow: x,
                    conical,
                    tract_gain,
                    tract_q,
                },
                (Field::Conical, Amount::Flag(x)) => Comp::ReedBore {
                    pressure,
                    stiffness,
                    length,
                    tone,
                    register,
                    overblow,
                    conical: x,
                    tract_gain,
                    tract_q,
                },
                (Field::Tone, Amount::Number(x)) => Comp::ReedBore {
                    pressure,
                    stiffness,
                    length,
                    tone: x,
                    register,
                    overblow,
                    conical,
                    tract_gain,
                    tract_q,
                },
                (Field::TractGain, Amount::Number(x)) => Comp::ReedBore {
                    pressure,
                    stiffness,
                    length,
                    tone,
                    register,
                    overblow,
                    conical,
                    tract_gain: x,
                    tract_q,
                },
                (Field::TractQ, Amount::Number(x)) => Comp::ReedBore {
                    pressure,
                    stiffness,
                    length,
                    tone,
                    register,
                    overblow,
                    conical,
                    tract_gain,
                    tract_q: x,
                },
                _ => self,
            },
            Comp::DoubleReed {
                pressure,
                stiffness,
                length,
                tone,
                register,
                overblow,
                conical,
                tract_gain,
                tract_q,
            } => match (f, v) {
                (Field::Pressure, Amount::Number(x)) => Comp::DoubleReed {
                    pressure: x,
                    stiffness,
                    length,
                    tone,
                    register,
                    overblow,
                    conical,
                    tract_gain,
                    tract_q,
                },
                (Field::Stiffness, Amount::Number(x)) => Comp::DoubleReed {
                    pressure,
                    stiffness: x,
                    length,
                    tone,
                    register,
                    overblow,
                    conical,
                    tract_gain,
                    tract_q,
                },
                (Field::Length, Amount::Number(x)) => Comp::DoubleReed {
                    pressure,
                    stiffness,
                    length: x,
                    tone,
                    register,
                    overblow,
                    conical,
                    tract_gain,
                    tract_q,
                },
                (Field::Register, Amount::Number(x)) => Comp::DoubleReed {
                    pressure,
                    stiffness,
                    length,
                    tone,
                    register: x,
                    overblow,
                    conical,
                    tract_gain,
                    tract_q,
                },
                (Field::Overblow, Amount::Number(x)) => Comp::DoubleReed {
                    pressure,
                    stiffness,
                    length,
                    tone,
                    register,
                    overblow: x,
                    conical,
                    tract_gain,
                    tract_q,
                },
                (Field::Conical, Amount::Flag(x)) => Comp::DoubleReed {
                    pressure,
                    stiffness,
                    length,
                    tone,
                    register,
                    overblow,
                    conical: x,
                    tract_gain,
                    tract_q,
                },
                (Field::Tone, Amount::Number(x)) => Comp::DoubleReed {
                    pressure,
                    stiffness,
                    length,
                    tone: x,
                    register,
                    overblow,
                    conical,
                    tract_gain,
                    tract_q,
                },
                (Field::TractGain, Amount::Number(x)) => Comp::DoubleReed {
                    pressure,
                    stiffness,
                    length,
                    tone,
                    register,
                    overblow,
                    conical,
                    tract_gain: x,
                    tract_q,
                },
                (Field::TractQ, Amount::Number(x)) => Comp::DoubleReed {
                    pressure,
                    stiffness,
                    length,
                    tone,
                    register,
                    overblow,
                    conical,
                    tract_gain,
                    tract_q: x,
                },
                _ => self,
            },
            Comp::Lips { pressure, tension, length, tone } => match (f, v) {
                (Field::Pressure, Amount::Number(x)) => Comp::Lips {
                    pressure: x,
                    tension,
                    length,
                    tone,
                },
                (Field::Tension, Amount::Number(x)) => Comp::Lips {
                    pressure,
                    tension: x,
                    length,
                    tone,
                },
                (Field::Length, Amount::Number(x)) => Comp::Lips {
                    pressure,
                    tension,
                    length: x,
                    tone,
                },
                (Field::Tone, Amount::Number(x)) => Comp::Lips {
                    pressure,
                    tension,
                    length,
                    tone: x,
                },
                _ => self,
            },
            Comp::ReedPipe { pressure, stiffness, tone } => match (f, v) {
                (
                    Field::Pressure,
                    Amount::Number(x),
                ) => Comp::ReedPipe { pressure: x, stiffness, tone },
                (
                    Field::Stiffness,
                    Amount::Number(x),
                ) => Comp::ReedPipe { pressure, stiffness: x, tone },
                (Field::Tone, Amount::Number(x)) => Comp::ReedPipe { pressure, stiffness, tone: x },
                _ => self,
            },
            Comp::AirJet { pressure, jet_ratio, tone, length } => match (f, v) {
                (Field::Pressure, Amount::Number(x)) => Comp::AirJet {
                    pressure: x,
                    jet_ratio,
                    tone,
                    length,
                },
                (Field::JetRatio, Amount::Number(x)) => Comp::AirJet {
                    pressure,
                    jet_ratio: x,
                    tone,
                    length,
                },
                (Field::Tone, Amount::Number(x)) => Comp::AirJet {
                    pressure,
                    jet_ratio,
                    tone: x,
                    length,
                },
                (Field::Length, Amount::Number(x)) => Comp::AirJet {
                    pressure,
                    jet_ratio,
                    tone,
                    length: x,
                },
                _ => self,
            },
            Comp::BowedString { bow_pos, brightness, speed, force } => match (f, v) {
                (Field::BowPos, Amount::Number(x)) => Comp::BowedString {
                    bow_pos: x,
                    brightness,
                    speed,
                    force,
                },
                (Field::Brightness, Amount::Number(x)) => Comp::BowedString {
                    bow_pos,
                    brightness: x,
                    speed,
                    force,
                },
                (Field::Speed, Amount::Number(x)) => Comp::BowedString {
                    bow_pos,
                    brightness,
                    speed: x,
                    force,
                },
                (Field::Force, Amount::Number(x)) => Comp::BowedString {
                    bow_pos,
                    brightness,
                    speed,
                    force: x,
                },
                _ => self,
            },
            Comp::PluckedString {
                length_m,
                tension_n,
                core_mm,
                youngs_gpa,
                open_hz,
                pos,
                decay,
                damping,
            } => match (f, v) {
                (Field::LengthM, Amount::Number(x)) => Comp::PluckedString {
                    length_m: x,
                    tension_n,
                    core_mm,
                    youngs_gpa,
                    open_hz,
                    pos,
                    decay,
                    damping,
                },
                (Field::TensionN, Amount::Number(x)) => Comp::PluckedString {
                    length_m,
                    tension_n: x,
                    core_mm,
                    youngs_gpa,
                    open_hz,
                    pos,
                    decay,
                    damping,
                },
                (Field::CoreMm, Amount::Number(x)) => Comp::PluckedString {
                    length_m,
                    tension_n,
                    core_mm: x,
                    youngs_gpa,
                    open_hz,
                    pos,
                    decay,
                    damping,
                },
                (Field::YoungsGpa, Amount::Number(x)) => Comp::PluckedString {
                    length_m,
                    tension_n,
                    core_mm,
                    youngs_gpa: x,
                    open_hz,
                    pos,
                    decay,
                    damping,
                },
                (Field::OpenHz, Amount::Number(x)) => Comp::PluckedString {
                    length_m,
                    tension_n,
                    core_mm,
                    youngs_gpa,
                    open_hz: x,
                    pos,
                    decay,
                    damping,
                },
                (Field::Pos, Amount::Number(x)) => Comp::PluckedString {
                    length_m,
                    tension_n,
                    core_mm,
                    youngs_gpa,
                    open_hz,
                    pos: x,
                    decay,
                    damping,
                },
                (Field::Decay, Amount::Number(x)) => Comp::PluckedString {
                    length_m,
                    tension_n,
                    core_mm,
                    youngs_gpa,
                    open_hz,
                    pos,
                    decay: x,
                    damping,
                },
                (Field::Damping, Amount::Number(x)) => Comp::PluckedString {
                    length_m,
                    tension_n,
                    core_mm,
                    youngs_gpa,
                    open_hz,
                    pos,
                    decay,
                    damping: x,
                },
                _ => self,
            },
            Comp::HammeredString {
                length_m,
                tension_n,
                core_mm,
                youngs_gpa,
                open_hz,
                hardness,
                felt,
                pos,
                decay,
                damping,
            } => match (f, v) {
                (Field::LengthM, Amount::Number(x)) => Comp::HammeredString {
                    length_m: x,
                    tension_n,
                    core_mm,
                    youngs_gpa,
                    open_hz,
                    hardness,
                    felt,
                    pos,
                    decay,
                    damping,
                },
                (Field::TensionN, Amount::Number(x)) => Comp::HammeredString {
                    length_m,
                    tension_n: x,
                    core_mm,
                    youngs_gpa,
                    open_hz,
                    hardness,
                    felt,
                    pos,
                    decay,
                    damping,
                },
                (Field::CoreMm, Amount::Number(x)) => Comp::HammeredString {
                    length_m,
                    tension_n,
                    core_mm: x,
                    youngs_gpa,
                    open_hz,
                    hardness,
                    felt,
                    pos,
                    decay,
                    damping,
                },
                (Field::YoungsGpa, Amount::Number(x)) => Comp::HammeredString {
                    length_m,
                    tension_n,
                    core_mm,
                    youngs_gpa: x,
                    open_hz,
                    hardness,
                    felt,
                    pos,
                    decay,
                    damping,
                },
                (Field::OpenHz, Amount::Number(x)) => Comp::HammeredString {
                    length_m,
                    tension_n,
                    core_mm,
                    youngs_gpa,
                    open_hz: x,
                    hardness,
                    felt,
                    pos,
                    decay,
                    damping,
                },
                (Field::Hardness, Amount::Number(x)) => Comp::HammeredString {
                    length_m,
                    tension_n,
                    core_mm,
                    youngs_gpa,
                    open_hz,
                    hardness: x,
                    felt,
                    pos,
                    decay,
                    damping,
                },
                (Field::Felt, Amount::Number(x)) => Comp::HammeredString {
                    length_m,
                    tension_n,
                    core_mm,
                    youngs_gpa,
                    open_hz,
                    hardness,
                    felt: x,
                    pos,
                    decay,
                    damping,
                },
                (Field::Pos, Amount::Number(x)) => Comp::HammeredString {
                    length_m,
                    tension_n,
                    core_mm,
                    youngs_gpa,
                    open_hz,
                    hardness,
                    felt,
                    pos: x,
                    decay,
                    damping,
                },
                (Field::Decay, Amount::Number(x)) => Comp::HammeredString {
                    length_m,
                    tension_n,
                    core_mm,
                    youngs_gpa,
                    open_hz,
                    hardness,
                    felt,
                    pos,
                    decay: x,
                    damping,
                },
                (Field::Damping, Amount::Number(x)) => Comp::HammeredString {
                    length_m,
                    tension_n,
                    core_mm,
                    youngs_gpa,
                    open_hz,
                    hardness,
                    felt,
                    pos,
                    decay,
                    damping: x,
                },
                _ => self,
            },
            Comp::Hammer { hardness, felt } => match (f, v) {
                (Field::Hardness, Amount::Number(x)) => Comp::Hammer { hardness: x, felt },
                (Field::Felt, Amount::Number(x)) => Comp::Hammer { hardness, felt: x },
                _ => self,
            },
            Comp::Bow { speed, force } => match (f, v) {
                (Field::Speed, Amount::Number(x)) => Comp::Bow { speed: x, force },
                (Field::Force, Amount::Number(x)) => Comp::Bow { speed, force: x },
                _ => self,
            },
            Comp::Voice { open_quotient, level } => match (f, v) {
                (Field::OpenQuotient, Amount::Number(x)) => Comp::Voice { open_quotient: x, level },
                (Field::Level, Amount::Number(x)) => Comp::Voice { open_quotient, level: x },
                _ => self,
            },
            Comp::Sine { level } => match (f, v) {
                (Field::Level, Amount::Number(x)) => Comp::Sine { level: x },
                _ => self,
            },
        }
    }

    /// Changes a setting; does nothing where the setting takes no such value.
    pub fn set_setting(&mut self, f: Field, v: Amount)
        ensures
            *final(self) == old(self).with_setting(f, v),
    {
        match self {
            Comp::Strike => {},
            Comp::Mix => {},
            Comp::String(m) => m.set_setting(f, v),
            Comp::Membrane(m) => m.set_setting(f, v),
            Comp::Plate(m) => m.set_setting(f, v),
            Comp::MusicalString(m) => m.set_setting(f, v),
            Comp::Bell(m) => m.set_setting(f, v),
            Comp::Cymbal(m) => m.set_setting(f, v),
            Comp::Horn(m) => m.set_setting(f, v),
            Comp::Body { cavity_litres, soundhole_cm, top_hz, decay_s } => match (f, v) {
                (Field::CavityLitres, Amount::Number(x)) => *cavity_litres = x,
                (Field::SoundholeCm, Amount::Number(x)) => *soundhole_cm = x,
                (Field::TopHz, Amount::Number(x)) => *top_hz = x,
                (Field::DecayS, Amount::Number(x)) => *decay_s = x,
                _ => {},
            },
            Comp::Wires { level, tone } => match (f, v) {
                (Field::Level, Amount::Number(x)) => *level = x,
                (Field::Tone, Amount::Number(x)) => *tone = x,
                _ => {},
            },
            Comp::Breath { level, tone } => match (f, v) {
                (Field::Level, Amount::Number(x)) => *level = x,
                (Field::Tone, Amount::Number(x)) => *tone = x,
                _ => {},
            },
            Comp::Bore { tone, length } => match (f, v) {
                (Field::Tone, Amount::Number(x)) => *tone = x,
                (Field::Length, Amount::Number(x)) => *length = x,
                _ => {},
            },
            Comp::WaveguideHorn { r1, r2, r3, length, segments, tone } => match (f, v) {
                (Field::Length, Amount::Number(x)) => *length = x,
                (Field::R1, Amount::Number(x)) => *r1 = x,
                (Field::R2, Amount::Number(x)) => *r2 = x,
                (Field::R3, Amount::Number(x)) => *r3 = x,
                (Field::Tone, Amount::Number(x)) => *tone = x,
                (Field::Segments, Amount::Count(x)) => {
                    *segments = if x < 2 {
                        2
                    } else if x > 64 {
                        64
                    } else {
                        x
                    };
                },
                _ => {},
            },
            Comp::Reed { pressure, stiffness, freq_hz } => match (f, v) {
                (Field::Pressure, Amount::Number(x)) => *pressure = x,
                (Field::Stiffness, Amount::Number(x)) => *stiffness = x,
                (Field::FreqHz, Amount::Number(x)) => *freq_hz = x,
                _ => {},
            },
            Comp::ReedBore {
                pressure,
                stiffness,
                length,
                tone,
                register,
                overblow,
                conical,
                tract_gain,
                tract_q,
            } => match (f, v) {
                (Field::Pressure, Amount::Number(x)) => *pressure = x,
                (Field::Stiffness, Amount::Number(x)) => *stiffness = x,
                (Field::Length, Amount::Number(x)) => *length = x,
                (Field::Register, Amount::Number(x)) => *register = x,
                (Field::Overblow, Amount::Number(x)) => *overblow = x,
                (Field::Conical, Amount::Flag(x)) => *conical = x,
                (Field::Tone, Amount::Number(x)) => *tone = x,
                (Field::TractGain, Amount::Number(x)) => *tract_gain = x,
                (Field::TractQ, Amount::Number(x)) => *tract_q = x,
                _ => {},
            },
            Comp::DoubleReed {
                pressure,
                stiffness,
                length,
                tone,
                register,
                overblow,
                conical,
                tract_gain,
                tract_q,
            } => match (f, v) {
                (Field::Pressure, Amount::Number(x)) => *pressure = x,
                (Field::Stiffness, Amount::Number(x)) => *stiffness = x,
                (Field::Length, Amount::Number(x)) => *length = x,
                (Field::Register, Amount::Number(x)) => *register = x,
                (Field::Overblow, Amount::Number(x)) => *overblow = x,
                (Field::Conical, Amount::Flag(x)) => *conical = x,
                (Field::Tone, Amount::Number(x)) => *tone = x,
                (Field::TractGain, Amount::Number(x)) => *tract_gain = x,
                (Field::TractQ, Amount::Number(x)) => *tract_q = x,
                _ => {},
            },
            Comp::Lips { pressure, tension, length, tone } => match (f, v) {
                (Field::Pressure, Amount::Number(x)) => *pressure = x,
                (Field::Tension, Amount::Number(x)) => *tension = x,
                (Field::Length, Amount::Number(x)) => *length = x,
                (Field::Tone, Amount::Number(x)) => *tone = x,
                _ => {},
            },
            Comp::ReedPipe { pressure, stiffness, tone } => match (f, v) {
                (Field::Pressure, Amount::Number(x)) => *pressure = x,
                (Field::Stiffness, Amount::Number(x)) => *stiffness = x,
                (Field::Tone, Amount::Number(x)) => *tone = x,
                _ => {},
            },
            Comp::AirJet { pressure, jet_ratio, tone, length } => match (f, v) {
                (Field::Pressure, Amount::Number(x)) => *pressure = x,
                (Field::JetRatio, Amount::Number(x)) => *jet_ratio = x,
                (Field::Tone, Amount::Number(x)) => *tone = x,
                (Field::Length, Amount::Number(x)) => *length = x,
                _ => {},
            },
            Comp::BowedString { bow_pos, brightness, speed, force } => match (f, v) {
                (Field::BowPos, Amount::Number(x)) => *bow_pos = x,
                (Field::Brightness, Amount::Number(x)) => *brightness = x,
                (Field::Speed, Amount::Number(x)) => *speed = x,
                (Field::Force, Amount::Number(x)) => *force = x,
                _ => {},
            },
            Comp::PluckedString {
                length_m,
                tension_n,
                core_mm,
                youngs_gpa,
                open_hz,
                pos,
                decay,
                damping,
            } => match (f, v) {
                (Field::LengthM, Amount::Number(x)) => *length_m = x,
                (Field::TensionN, Amount::Number(x)) => *tension_n = x,
                (Field::CoreMm, Amount::Number(x)) => *core_mm = x,
                (Field::YoungsGpa, Amount::Number(x)) => *youngs_gpa = x,
                (Field::OpenHz, Amount::Number(x)) => *open_hz = x,
                (Field::Pos, Amount::Number(x)) => *pos = x,
                (Field::Decay, Amount::Number(x)) => *decay = x,
                (Field::Damping, Amount::Number(x)) => *damping = x,
                _ => {},
            },
            Comp::HammeredString {
                length_m,
                tension_n,
                core_mm,
                youngs_gpa,
                open_hz,
                hardness,
                felt,
                pos,
                decay,
                damping,
            } => match (f, v) {
                (Field::LengthM, Amount::Number(x)) => *length_m = x,
                (Field::TensionN, Amount::Number(x)) => *tension_n = x,
                (Field::CoreMm, Amount::Number(x)) => *core_mm = x,
                (Field::YoungsGpa, Amount::Number(x)) => *youngs_gpa = x,
                (Field::OpenHz, Amount::Number(x)) => *open_hz = x,
                (Field::Hardness, Amount::Number(x)) => *hardness = x,
                (Field::Felt, Amount::Number(x)) => *felt = x,
                (Field::Pos, Amount::Number(x)) => *pos = x,
                (Field::Decay, Amount::Number(x)) => *decay = x,
                (Field::Damping, Amount::Number(x)) => *damping = x,
                _ => {},
            },
            Comp::Hammer { hardness, felt } => match (f, v) {
                (Field::Hardness, Amount::Number(x)) => *hardness = x,
                (Field::Felt, Amount::Number(x)) => *felt = x,
                _ => {},
            },
            Comp::Bow { speed, force } => match (f, v) {
                (Field::Speed, Amount::Number(x)) => *speed = x,
                (Field::Force, Amount::Number(x)) => *force = x,
                _ => {},
            },
            Comp::Voice { open_quotient, level } => match (f, v) {
                (Field::OpenQuotient, Amount::Number(x)) => *open_quotient = x,
                (Field::Level, Amount::Number(x)) => *level = x,
                _ => {},
            },
            Comp::Sine { level } => match (f, v) {
                (Field::Level, Amount::Number(x)) => *level = x,
                _ => {},
            },
        }
    }
}

/// A panel shows settings that are there, as what they are.
pub proof fn panel_fits(m: Comp, i: int)
    requires
        0 <= i < m.control_list().len(),
    ensures
        ({
            let c = m.control_list()[i];
            m.setting(c.field) matches Some(v) && c.scale.shows(v)
        }),
{
    match m {
        Comp::String(x) => models::pure_string_panel_fits(x, i),
        Comp::Membrane(x) => models::drum_membrane_panel_fits(x, i),
        Comp::Plate(x) => models::pure_plate_panel_fits(x, i),
        Comp::MusicalString(x) => models::musical_string_panel_fits(x, i),
        Comp::Bell(x) => models::metal_bell_panel_fits(x, i),
        Comp::Cymbal(x) => models::cymbal_panel_fits(x, i),
        Comp::Horn(x) => models::webster_horn_panel_fits(x, i),
        _ => {},
    }
}

/// Changing a setting changes that one, to the value given, and no other; and the
/// component stays what it is.
pub proof fn settings_are_apart(m: Comp, f: Field, g: Field, v: Amount)
    ensures
        m.setting(f) matches Some(w) ==> w.takes(v, f) ==> m.with_setting(
            f,
            v,
        ).setting(f) == Some(v),
        f != g ==> m.with_setting(f, v).setting(g) == m.setting(g),
        m.with_setting(f, v).label_text() == m.label_text(),
{
    match m {
        Comp::String(x) => models::pure_string_settings_are_apart(x, f, g, v),
        Comp::Membrane(x) => models::drum_membrane_settings_are_apart(x, f, g, v),
        Comp::Plate(x) => models::pure_plate_settings_are_apart(x, f, g, v),
        Comp::MusicalString(x) => models::musical_string_settings_are_apart(x, f, g, v),
        Comp::Bell(x) => models::metal_bell_settings_are_apart(x, f, g, v),
        Comp::Cymbal(x) => models::cymbal_settings_are_apart(x, f, g, v),
        Comp::Horn(x) => models::webster_horn_settings_are_apart(x, f, g, v),
        _ => {},
    }
}

/// A setting of a component is the field of its name, and a component that is a model by
/// itself has the settings of that model.
pub proof fn settings_are_fields(c: Comp, f: Field)
    ensures
        c matches Comp::Body { cavity_litres, soundhole_cm, top_hz, decay_s } ==> {
            &&& c.setting(Field::CavityLitres) == Some(Amount::Number(cavity_litres))
            &&& c.setting(Field::SoundholeCm) == Some(Amount::Number(soundhole_cm))
            &&& c.setting(Field::TopHz) == Some(Amount::Number(top_hz))
            &&& c.setting(Field::DecayS) == Some(Amount::Number(decay_s))
        },
        c matches Comp::Wires { level, tone } ==> {
            &&& c.setting(Field::Level) == Some(Amount::Number(level))
            &&& c.setting(Field::Tone) == Some(Amount::Number(tone))
        },
        c matches Comp::Breath { level, tone } ==> {
            &&& c.setting(Field::Level) == Some(Amount::Number(level))
            &&& c.setting(Field::Tone) == Some(Amount::Number(tone))
        },
        c matches Comp::Bore { tone, length } ==> {
            &&& c.setting(Field::Tone) == Some(Amount::Number(tone))
            &&& c.setting(Field::Length) == Some(Amount::Number(length))
        },
        c matches Comp::WaveguideHorn { r1, r2, r3, length, segments, tone } ==> {
            &&& c.setting(Field::Length) == Some(Amount::Number(length))
            &&& c.setting(Field::R1) == Some(Amount::Number(r1))
            &&& c.setting(Field::R2) == Some(Amount::Number(r2))
            &&& c.setting(Field::R3) == Some(Amount::Number(r3))
            &&& c.setting(Field::Tone) == Some(Amount::Number(tone))
            &&& c.setting(Field::Segments) == Some(Amount::Count(segments))
        },
        c matches Comp::Reed { pressure, stiffness, freq_hz } ==> {
            &&& c.setting(Field::Pressure) == Some(Amount::Number(pressure))
            &&& c.setting(Field::Stiffness) == Some(Amount::Number(stiffness))
            &&& c.setting(Field::FreqHz) == Some(Amount::Number(freq_hz))
        },
        c matches Comp::ReedBore {
            pressure,
            stiffness,
            length,
            tone,
            register,
            overblow,
            conical,
            tract_gain,
            tract_q,
        } ==> {
            &&& c.setting(Field::Pressure) == Some(Amount::Number(pressure))
            &&& c.setting(Field::Stiffness) == Some(Amount::Number(stiffness))
            &&& c.setting(Field::Length) == Some(Amount::Number(length))
            &&& c.setting(Field::Register) == Some(Amount::Number(register))
            &&& c.setting(Field::Overblow) == Some(Amount::Number(overblow))
            &&& c.setting(Field::Conical) == Some(Amount::Flag(conical))
            &&& c.setting(Field::Tone) == Some(Amount::Number(tone))
            &&& c.setting(Field::TractGain) == Some(Amount::Number(tract_gain))
            &&& c.setting(Field::TractQ) == Some(Amount::Number(tract_q))
        },
        c matches Comp::DoubleReed {
            pressure,
            stiffness,
            length,
            tone,
            register,
            overblow,
            conical,
            tract_gain,
            tract_q,
        } ==> {
            &&& c.setting(Field::Pressure) == Some(Amount::Number(pressure))
            &&& c.setting(Field::Stiffness) == Some(Amount::Number(stiffness))
            &&& c.setting(Field::Length) == Some(Amount::Number(length))
            &&& c.setting(Field::Register) == Some(Amount::Number(register))
            &&& c.setting(Field::Overblow) == Some(Amount::Number(overblow))
            &&& c.setting(Field::Conical) == Some(Amount::Flag(conical))
            &&& c.setting(Field::Tone) == Some(Amount::Number(tone))
            &&& c.setting(Field::TractGain) == Some(Amount::Number(tract_gain))
            &&& c.setting(Field::TractQ) == Some(Amount::Number(tract_q))
        },
        c matches Comp::Lips { pressure, tension, length, tone } ==> {
            &&& c.setting(Field::Pressure) == Some(Amount::Number(pressure))
            &&& c.setting(Field::Tension) == Some(Amount::Number(tension))
            &&& c.setting(Field::Length) == Some(Amount::Number(length))
            &&& c.setting(Field::Tone) == Some(Amount::Number(tone))
        },
        c matches Comp::ReedPipe { pressure, stiffness, tone } ==> {
            &&& c.setting(Field::Pressure) == Some(Amount::Number(pressure))
            &&& c.setting(Field::Stiffness) == Some(Amount::Number(stiffness))
            &&& c.setting(Field::Tone) == Some(Amount::Number(tone))
        },
        c matches Comp::AirJet { pressure, jet_ratio, tone, length } ==> {
            &&& c.setting(Field::Pressure) == Some(Amount::Number(pressure))
            &&& c.setting(Field::JetRatio) == Some(Amount::Number(jet_ratio))
            &&& c.setting(Field::Tone) == Some(Amount::Number(tone))
            &&& c.setting(Field::Length) == Some(Amount::Number(length))
        },
        c matches Comp::BowedString { bow_pos, brightness, speed, force } ==> {
            &&& c.setting(Field::BowPos) == Some(Amount::Number(bow_pos))
            &&& c.setting(Field::Brightness) == Some(Amount::Number(brightness))
            &&& c.setting(Field::Speed) == Some(Amount::Number(speed))
            &&& c.setting(Field::Force) == Some(Amount::Number(force))
        },
        c matches Comp::PluckedString {
            length_m,
            tension_n,
            core_mm,
            youngs_gpa,
            open_hz,
            pos,
            decay,
            damping,
        } ==> {
            &&& c.setting(Field::LengthM) == Some(Amount::Number(length_m))
            &&& c.setting(Field::TensionN) == Some(Amount::Number(tension_n))
            &&& c.setting(Field::CoreMm) == Some(Amount::Number(core_mm))
            &&& c.setting(Field::YoungsGpa) == Some(Amount::Number(youngs_gpa))
            &&& c.setting(Field::OpenHz) == Some(Amount::Number(open_hz))
            &&& c.setting(Field::Pos) == Some(Amount::Number(pos))
            &&& c.setting(Field::Decay) == Some(Amount::Number(decay))
            &&& c.setting(Field::Damping) == Some(Amount::Number(damping))
        },
        c matches Comp::HammeredString {
            length_m,
            tension_n,
            core_mm,
            youngs_gpa,
            open_hz,
            hardness,
            felt,
            pos,
            decay,
            damping,
        } ==> {
            &&& c.setting(Field::LengthM) == Some(Amount::Number(length_m))
            &&& c.setting(Field::TensionN) == Some(Amount::Number(tension_n))
            &&& c.setting(Field::CoreMm) == Some(Amount::Number(core_mm))
            &&& c.setting(Field::YoungsGpa) == Some(Amount::Number(youngs_gpa))
            &&& c.setting(Field::OpenHz) == Some(Amount::Number(open_hz))
            &&& c.setting(Field::Hardness) == Some(Amount::Number(hardness))
            &&& c.setting(Field::Felt) == Some(Amount::Number(felt))
            &&& c.setting(Field::Pos) == Some(Amount::Number(pos))
            &&& c.setting(Field::Decay) == Some(Amount::Number(decay))
            &&& c.setting(Field::Damping) == Some(Amount::Number(damping))
        },
        c matches Comp::Hammer { hardness, felt } ==> {
            &&& c.setting(Field::Hardness) == Some(Amount::Number(hardness))
            &&& c.setting(Field::Felt) == Some(Amount::Number(felt))
        },
        c matches Comp::Bow { speed, force } ==> {
            &&& c.setting(Field::Speed) == Some(Amount::Number(speed))
            &&& c.setting(Field::Force) == Some(Amount::Number(force))
        },
        c matches Comp::Voice { open_quotient, level } ==> {
            &&& c.setting(Field::OpenQuotient) == Some(Amount::Number(open_quotient))
            &&& c.setting(Field::Level) == Some(Amount::Number(level))
        },
        c matches Comp::Sine { level } ==> c.setting(Field::Level) == Some(Amount::Number(level)),
        c matches Comp::String(m) ==> c.setting(f) == m.setting(f),
        c matches Comp::Membrane(m) ==> c.setting(f) == m.setting(f),
        c matches Comp::Plate(m) ==> c.setting(f) == m.setting(f),
        c matches Comp::MusicalString(m) ==> c.setting(f) == m.setting(f),
        c matches Comp::Bell(m) ==> c.setting(f) == m.setting(f),
        c matches Comp::Cymbal(m) ==> c.setting(f) == m.setting(f),
        c matches Comp::Horn(m) ==> c.setting(f) == m.setting(f),
{
}

/// Changing a setting and changing it back changes nothing.
#[verifier::rlimit(80)]
#[verifier::spinoff_prover]
pub proof fn settings_change_back(m: Comp, f: Field, v: Amount)
    ensures
        m.setting(f) matches Some(w) ==> w.takes(w, f) ==> m.with_setting(f, v).with_setting(f, w)
            == m,
        m.setting(f) is None ==> m.with_setting(f, v) == m,
{
    match m {
        Comp::String(x) => models::pure_string_settings_change_back(x, f, v),
        Comp::Membrane(x) => models::drum_membrane_settings_change_back(x, f, v),
        Comp::Plate(x) => models::pure_plate_settings_change_back(x, f, v),
        Comp::MusicalString(x) => models::musical_string_settings_change_back(x, f, v),
        Comp::Bell(x) => models::metal_bell_settings_change_back(x, f, v),
        Comp::Cymbal(x) => models::cymbal_settings_change_back(x, f, v),
        Comp::Horn(x) => models::webster_horn_settings_change_back(x, f, v),
        _ => {},
    }
}

} // verus!
