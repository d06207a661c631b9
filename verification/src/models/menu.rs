//! The components that the editors offer to add, each at a sane starting point.

use crate::models::cymbal;
use crate::models::drum_membrane;
use crate::models::metal_bell;
use crate::models::musical_string;
use crate::models::pure_plate;
use crate::models::pure_string;
use crate::models::webster_horn;
use crate::models::comp::Comp;
use crate::models::cymbal::Cymbal;
use crate::models::drum_membrane::DrumMembrane;
use crate::models::metal_bell::MetalBell;
use crate::models::musical_string::MusicalString;
use crate::models::pure_plate::PurePlate;
use crate::models::pure_string::PureString;
use crate::models::webster_horn::WebsterHorn;
use crate::single::Single;
use vstd::prelude::*;

verus! {

/// Something that an editor offers to add.
#[derive(Clone, Copy, Debug, PartialEq, Eq, Structural)]
pub enum Addable {
    /// See [`Comp::Strike`].
    Strike,
    /// See [`Comp::Hammer`].
    Hammer,
    /// A reed that buzzes at a fixed pitch.
    BuzzingReed,
    /// See [`Comp::ReedBore`].
    ReedBore,
    /// See [`Comp::Breath`].
    Breath,
    /// A bow drawn fast.
    FastBow,
    /// A louder voice.
    LoudVoice,
    /// See [`Comp::Sine`].
    Sine,
    /// See [`Comp::String`].
    String,
    /// See [`Comp::MusicalString`].
    MusicalString,
    /// See [`Comp::Membrane`].
    Membrane,
    /// See [`Comp::Plate`].
    Plate,
    /// See [`Comp::Bell`].
    Bell,
    /// See [`Comp::Cymbal`].
    Cymbal,
    /// See [`Comp::Horn`].
    Horn,
    /// See [`Comp::Body`].
    Body,
    /// See [`Comp::Wires`].
    Wires,
    /// See [`Comp::ReedPipe`].
    ReedPipe,
    /// A bowed string, bowed fast.
    FastBowedString,
    /// See [`Comp::Bore`].
    Bore,
    /// See [`Comp::WaveguideHorn`].
    WaveguideHorn,
    /// See [`Comp::Mix`].
    Mix,
    /// A bare reed that follows the bore it drives.
    OpenReed,
    /// See [`Comp::Lips`].
    Lips,
    /// See [`Comp::AirJet`].
    AirJet,
    /// A bowed string, bowed gently.
    BowedString,
    /// See [`Comp::PluckedString`].
    PluckedString,
    /// See [`Comp::HammeredString`].
    HammeredString,
    /// A bow pressed hard.
    Bow,
    /// A softer voice.
    Voice,
}

impl Addable {
    /// The component that is added.
    pub open spec fn comp(self) -> Comp {
        match self {
            Addable::Strike => Comp::Strike,
            Addable::Hammer => Comp::Hammer {
                hardness: Single { bits: 0x3F19_999A },  // 0.6
                felt: Single { bits: 0x4020_0000 },  // 2.5
            },
            Addable::BuzzingReed => Comp::Reed {
                pressure: Single { bits: 0x3F66_6666 },  // 0.9
                stiffness: Single { bits: 0x3F80_0000 },  // 1.0
                freq_hz: Single { bits: 0x4316_0000 },  // 150.0
            },
            Addable::ReedBore => Comp::ReedBore {
                pressure: Single { bits: 0x3F66_6666 },  // 0.9
                stiffness: Single { bits: 0x3F80_0000 },  // 1.0
                length: Single { bits: 0x3F27_CED9 },  // 0.6555
                tone: Single { bits: 0x3F80_0000 },  // 1.0
                register: Single { bits: 0x0000_0000 },  // 0.0
                overblow: Single { bits: 0x4040_0000 },  // 3.0
                conical: false,
                tract_gain: Single { bits: 0x0000_0000 },  // 0.0
                tract_q: Single { bits: 0x0000_0000 },  // 0.0
            },
            Addable::Breath => Comp::Breath {
                level: Single { bits: 0x3E19_999A },  // 0.15
                tone: Single { bits: 0x3F80_0000 },  // 1.0
            },
            Addable::FastBow => Comp::Bow {
                speed: Single { bits: 0x3F99_999A },  // 1.2
                force: Single { bits: 0x3F19_999A },  // 0.6
            },
            Addable::LoudVoice => Comp::Voice {
                open_quotient: Single { bits: 0x3F19_999A },  // 0.6
                level: Single { bits: 0x3F00_0000 },  // 0.5
            },
            Addable::Sine => Comp::Sine {
                level: Single { bits: 0x3F80_0000 },  // 1.0
            },
            Addable::String => Comp::String(pure_string::pure_string_defaults()),
            Addable::MusicalString => Comp::MusicalString(
                musical_string::musical_string_defaults(),
            ),
            Addable::Membrane => Comp::Membrane(drum_membrane::drum_membrane_defaults()),
            Addable::Plate => Comp::Plate(pure_plate::pure_plate_defaults()),
            Addable::Bell => Comp::Bell(metal_bell::metal_bell_defaults()),
            Addable::Cymbal => Comp::Cymbal(cymbal::cymbal_defaults()),
            Addable::Horn => Comp::Horn(webster_horn::webster_horn_defaults()),
            Addable::Body => Comp::Body {
                cavity_litres: Single { bits: 0x4170_0000 },  // 15.0
                soundhole_cm: Single { bits: 0x4110_0000 },  // 9.0
                top_hz: Single { bits: 0x4343_0000 },  // 195.0
                decay_s: Single { bits: 0x3E38_51EC },  // 0.18
            },
            Addable::Wires => Comp::Wires {
                level: Single { bits: 0x3F19_999A },  // 0.6
                tone: Single { bits: 0x3F80_0000 },  // 1.0
            },
            Addable::ReedPipe => Comp::ReedPipe {
                pressure: Single { bits: 0x3F66_6666 },  // 0.9
                stiffness: Single { bits: 0x3F80_0000 },  // 1.0
                tone: Single { bits: 0x3F80_0000 },  // 1.0
            },
            Addable::FastBowedString => Comp::BowedString {
                bow_pos: Single { bits: 0x3DB8_51EC },  // 0.09
                brightness: Single { bits: 0x3F19_999A },  // 0.6
                speed: Single { bits: 0x3F99_999A },  // 1.2
                force: Single { bits: 0x3F19_999A },  // 0.6
            },
            Addable::Bore => Comp::Bore {
                tone: Single { bits: 0x3F80_0000 },  // 1.0
                length: Single { bits: 0x0000_0000 },  // 0.0
            },
            Addable::WaveguideHorn => Comp::WaveguideHorn {
                r1: Single { bits: 0x3BEF_34D7 },  // 0.0073
                r2: Single { bits: 0x0000_0000 },  // 0.0
                r3: Single { bits: 0x3B03_126F },  // 0.002
                length: Single { bits: 0x3EAB_020C },  // 0.334
                segments: 18,
                tone: Single { bits: 0x3F80_0000 },  // 1.0
            },
            Addable::Mix => Comp::Mix,
            Addable::OpenReed => Comp::Reed {
                pressure: Single { bits: 0x3F19_999A },  // 0.6
                stiffness: Single { bits: 0x3FC0_0000 },  // 1.5
                freq_hz: Single { bits: 0x0000_0000 },  // 0.0
            },
            Addable::Lips => Comp::Lips {
                pressure: Single { bits: 0x3F80_0000 },  // 1.0
                tension: Single { bits: 0x3F80_0000 },  // 1.0
                length: Single { bits: 0x3F27_CED9 },  // 0.6555
                tone: Single { bits: 0x3F80_0000 },  // 1.0
            },
            Addable::AirJet => Comp::AirJet {
                pressure: Single { bits: 0x3F0C_CCCD },  // 0.55
                jet_ratio: Single { bits: 0x3F00_0000 },  // 0.5
                tone: Single { bits: 0x3F80_0000 },  // 1.0
                length: Single { bits: 0x3F28_F5C3 },  // 0.66
            },
            Addable::BowedString => Comp::BowedString {
                bow_pos: Single { bits: 0x3DB8_51EC },  // 0.09
                brightness: Single { bits: 0x3F19_999A },  // 0.6
                speed: Single { bits: 0x3F19_999A },  // 0.6
                force: Single { bits: 0x3ECC_CCCD },  // 0.4
            },
            Addable::PluckedString => Comp::PluckedString {
                length_m: Single { bits: 0x3F25_E354 },  // 0.648
                tension_n: Single { bits: 0x42B4_0000 },  // 90.0
                core_mm: Single { bits: 0x3ECC_CCCD },  // 0.4
                youngs_gpa: Single { bits: 0x4348_0000 },  // 200.0
                open_hz: Single { bits: 0x42A4_CCCD },  // 82.4
                pos: Single { bits: 0x3E05_1EB8 },  // 0.13
                decay: Single { bits: 0x4080_0000 },  // 4.0
                damping: Single { bits: 0x3E19_999A },  // 0.15
            },
            Addable::HammeredString => Comp::HammeredString {
                length_m: Single { bits: 0x3F80_0000 },  // 1.0
                tension_n: Single { bits: 0x442F_0000 },  // 700.0
                core_mm: Single { bits: 0x3F80_0000 },  // 1.0
                youngs_gpa: Single { bits: 0x4348_0000 },  // 200.0
                open_hz: Single { bits: 0x41DC_0000 },  // 27.5
                hardness: Single { bits: 0x3F00_0000 },  // 0.5
                felt: Single { bits: 0x4000_0000 },  // 2.0
                pos: Single { bits: 0x3E05_1EB8 },  // 0.13
                decay: Single { bits: 0x40A0_0000 },  // 5.0
                damping: Single { bits: 0x3DF5_C28F },  // 0.12
            },
            Addable::Bow => Comp::Bow {
                speed: Single { bits: 0x3F19_999A },  // 0.6
                force: Single { bits: 0x3F80_0000 },  // 1.0
            },
            Addable::Voice => Comp::Voice {
                open_quotient: Single { bits: 0x3F19_999A },  // 0.6
                level: Single { bits: 0x3ECC_CCCD },  // 0.4
            },
        }
    }

    /// The component that is added.
    pub fn make(self) -> (r: Comp)
        ensures
            r == self.comp(),
    {
        match self {
            Addable::Strike => Comp::Strike,
            Addable::Hammer => Comp::Hammer {
                hardness: Single { bits: 0x3F19_999A },  // 0.6
                felt: Single { bits: 0x4020_0000 },  // 2.5
            },
            Addable::BuzzingReed => Comp::Reed {
                pressure: Single { bits: 0x3F66_6666 },  // 0.9
                stiffness: Single { bits: 0x3F80_0000 },  // 1.0
                freq_hz: Single { bits: 0x4316_0000 },  // 150.0
            },
            Addable::ReedBore => Comp::ReedBore {
                pressure: Single { bits: 0x3F66_6666 },  // 0.9
                stiffness: Single { bits: 0x3F80_0000 },  // 1.0
                length: Single { bits: 0x3F27_CED9 },  // 0.6555
                tone: Single { bits: 0x3F80_0000 },  // 1.0
                register: Single { bits: 0x0000_0000 },  // 0.0
                overblow: Single { bits: 0x4040_0000 },  // 3.0
                conical: false,
                tract_gain: Single { bits: 0x0000_0000 },  // 0.0
                tract_q: Single { bits: 0x0000_0000 },  // 0.0
            },
            Addable::Breath => Comp::Breath {
                level: Single { bits: 0x3E19_999A },  // 0.15
                tone: Single { bits: 0x3F80_0000 },  // 1.0
            },
            Addable::FastBow => Comp::Bow {
                speed: Single { bits: 0x3F99_999A },  // 1.2
                force: Single { bits: 0x3F19_999A },  // 0.6
            },
            Addable::LoudVoice => Comp::Voice {
                open_quotient: Single { bits: 0x3F19_999A },  // 0.6
                level: Single { bits: 0x3F00_0000 },  // 0.5
            },
            Addable::Sine => Comp::Sine {
                level: Single { bits: 0x3F80_0000 },  // 1.0
            },
            Addable::String => Comp::String(PureString::default()),
            Addable::MusicalString => Comp::MusicalString(MusicalString::default()),
            Addable::Membrane => Comp::Membrane(DrumMembrane::default()),
            Addable::Plate => Comp::Plate(PurePlate::default()),
            Addable::Bell => Comp::Bell(MetalBell::default()),
            Addable::Cymbal => Comp::Cymbal(Cymbal::default()),
            Addable::Horn => Comp::Horn(WebsterHorn::default()),
            Addable::Body => Comp::Body {
                cavity_litres: Single { bits: 0x4170_0000 },  // 15.0
                soundhole_cm: Single { bits: 0x4110_0000 },  // 9.0
                top_hz: Single { bits: 0x4343_0000 },  // 195.0
                decay_s: Single { bits: 0x3E38_51EC },  // 0.18
            },
            Addable::Wires => Comp::Wires {
                level: Single { bits: 0x3F19_999A },  // 0.6
                tone: Single { bits: 0x3F80_0000 },  // 1.0
            },
            Addable::ReedPipe => Comp::ReedPipe {
                pressure: Single { bits: 0x3F66_6666 },  // 0.9
                stiffness: Single { bits: 0x3F80_0000 },  // 1.0
                tone: Single { bits: 0x3F80_0000 },  // 1.0
            },
            Addable::FastBowedString => Comp::BowedString {
                bow_pos: Single { bits: 0x3DB8_51EC },  // 0.09
                brightness: Single { bits: 0x3F19_999A },  // 0.6
                speed: Single { bits: 0x3F99_999A },  // 1.2
                force: Single { bits: 0x3F19_999A },  // 0.6
            },
            Addable::Bore => Comp::Bore {
                tone: Single { bits: 0x3F80_0000 },  // 1.0
                length: Single { bits: 0x0000_0000 },  // 0.0
            },
            Addable::WaveguideHorn => Comp::WaveguideHorn {
                r1: Single { bits: 0x3BEF_34D7 },  // 0.0073
                r2: Single { bits: 0x0000_0000 },  // 0.0
                r3: Single { bits: 0x3B03_126F },  // 0.002
                length: Single { bits: 0x3EAB_020C },  // 0.334
                segments: 18,
                tone: Single { bits: 0x3F80_0000 },  // 1.0
            },
            Addable::Mix => Comp::Mix,
            Addable::OpenReed => Comp::Reed {
                pressure: Single { bits: 0x3F19_999A },  // 0.6
                stiffness: Single { bits: 0x3FC0_0000 },  // 1.5
                freq_hz: Single { bits: 0x0000_0000 },  // 0.0
            },
            Addable::Lips => Comp::Lips {
                pressure: Single { bits: 0x3F80_0000 },  // 1.0
                tension: Single { bits: 0x3F80_0000 },  // 1.0
                length: Single { bits: 0x3F27_CED9 },  // 0.6555
                tone: Single { bits: 0x3F80_0000 },  // 1.0
            },
            Addable::AirJet => Comp::AirJet {
                pressure: Single { bits: 0x3F0C_CCCD },  // 0.55
                jet_ratio: Single { bits: 0x3F00_0000 },  // 0.5
                tone: Single { bits: 0x3F80_0000 },  // 1.0
                length: Single { bits: 0x3F28_F5C3 },  // 0.66
            },
            Addable::BowedString => Comp::BowedString {
                bow_pos: Single { bits: 0x3DB8_51EC },  // 0.09
                brightness: Single { bits: 0x3F19_999A },  // 0.6
                speed: Single { bits: 0x3F19_999A },  // 0.6
                force: Single { bits: 0x3ECC_CCCD },  // 0.4
            },
            Addable::PluckedString => Comp::PluckedString {
                length_m: Single { bits: 0x3F25_E354 },  // 0.648
                tension_n: Single { bits: 0x42B4_0000 },  // 90.0
                core_mm: Single { bits: 0x3ECC_CCCD },  // 0.4
                youngs_gpa: Single { bits: 0x4348_0000 },  // 200.0
                open_hz: Single { bits: 0x42A4_CCCD },  // 82.4
                pos: Single { bits: 0x3E05_1EB8 },  // 0.13
                decay: Single { bits: 0x4080_0000 },  // 4.0
                damping: Single { bits: 0x3E19_999A },  // 0.15
            },
            Addable::HammeredString => Comp::HammeredString {
                length_m: Single { bits: 0x3F80_0000 },  // 1.0
                tension_n: Single { bits: 0x442F_0000 },  // 700.0
                core_mm: Single { bits: 0x3F80_0000 },  // 1.0
                youngs_gpa: Single { bits: 0x4348_0000 },  // 200.0
                open_hz: Single { bits: 0x41DC_0000 },  // 27.5
                hardness: Single { bits: 0x3F00_0000 },  // 0.5
                felt: Single { bits: 0x4000_0000 },  // 2.0
                pos: Single { bits: 0x3E05_1EB8 },  // 0.13
                decay: Single { bits: 0x40A0_0000 },  // 5.0
                damping: Single { bits: 0x3DF5_C28F },  // 0.12
            },
            Addable::Bow => Comp::Bow {
                speed: Single { bits: 0x3F19_999A },  // 0.6
                force: Single { bits: 0x3F80_0000 },  // 1.0
            },
            Addable::Voice => Comp::Voice {
                open_quotient: Single { bits: 0x3F19_999A },  // 0.6
                level: Single { bits: 0x3ECC_CCCD },  // 0.4
            },
        }
    }
}

/// A group of the node editor's menu.
#[derive(Clone, Copy, Debug, PartialEq, Eq, Structural)]
pub enum Group {
    /// What puts energy in.
    Exciter,
    /// What rings from it.
    Resonator,
    /// Voices and bores made of delay lines.
    Waveguide,
    /// What is heard.
    Output,
}

impl Group {
    /// What the menu calls this group.
    pub open spec fn label_text(self) -> Seq<char> {
        match self {
            Group::Exciter => "Exciter"@,
            Group::Resonator => "Resonator"@,
            Group::Waveguide => "Waveguide"@,
            Group::Output => "Output"@,
        }
    }

    /// What the menu calls this group.
    pub fn label(self) -> (r: &'static str)
        ensures
            r@ == self.label_text(),
    {
        match self {
            Group::Exciter => "Exciter",
            Group::Resonator => "Resonator",
            Group::Waveguide => "Waveguide",
            Group::Output => "Output",
        }
    }
}

/// Menu entries, as values.
pub open spec fn entries_of(v: Seq<(&'static str, Addable)>) -> Seq<(Seq<char>, Addable)> {
    v.map_values(|e: (&'static str, Addable)| (e.0@, e.1))
}

/// What the node editor offers in a group.
pub open spec fn group_entries(g: Group) -> Seq<(Seq<char>, Addable)> {
    match g {
        Group::Exciter => seq![
            ("Strike"@, Addable::Strike),
            ("Hammer"@, Addable::Hammer),
            ("Reed / lip"@, Addable::BuzzingReed),
            ("Reed + bore (coupled)"@, Addable::ReedBore),
            ("Breath"@, Addable::Breath),
            ("Bow"@, Addable::FastBow),
            ("Voice"@, Addable::LoudVoice),
            ("Sine (tone)"@, Addable::Sine),
        ],
        Group::Resonator => seq![
            ("String"@, Addable::String),
            ("Musical string"@, Addable::MusicalString),
            ("Membrane"@, Addable::Membrane),
            ("Plate"@, Addable::Plate),
            ("Bell / cowbell"@, Addable::Bell),
            ("Cymbal / gong"@, Addable::Cymbal),
            ("Air column (horn)"@, Addable::Horn),
            ("Body / cavity"@, Addable::Body),
            ("Snare wires"@, Addable::Wires),
        ],
        Group::Waveguide => seq![
            ("Reed pipe"@, Addable::ReedPipe),
            ("Bowed string"@, Addable::FastBowedString),
            ("Air column (bore)"@, Addable::Bore),
            ("Waveguide horn"@, Addable::WaveguideHorn),
        ],
        Group::Output => seq![("Mix"@, Addable::Mix)],
    }
}

/// What the node editor offers in a group.
pub fn add_menu(g: Group) -> (r: Vec<(&'static str, Addable)>)
    ensures
        entries_of(r@) == group_entries(g),
{
    let r: Vec<(&'static str, Addable)> = match g {
        Group::Exciter => vec![
            ("Strike", Addable::Strike),
            ("Hammer", Addable::Hammer),
            ("Reed / lip", Addable::BuzzingReed),
            ("Reed + bore (coupled)", Addable::ReedBore),
            ("Breath", Addable::Breath),
            ("Bow", Addable::FastBow),
            ("Voice", Addable::LoudVoice),
            ("Sine (tone)", Addable::Sine),
        ],
        Group::Resonator => vec![
            ("String", Addable::String),
            ("Musical string", Addable::MusicalString),
            ("Membrane", Addable::Membrane),
            ("Plate", Addable::Plate),
            ("Bell / cowbell", Addable::Bell),
            ("Cymbal / gong", Addable::Cymbal),
            ("Air column (horn)", Addable::Horn),
            ("Body / cavity", Addable::Body),
            ("Snare wires", Addable::Wires),
        ],
        Group::Waveguide => vec![
            ("Reed pipe", Addable::ReedPipe),
            ("Bowed string", Addable::FastBowedString),
            ("Air column (bore)", Addable::Bore),
            ("Waveguide horn", Addable::WaveguideHorn),
        ],
        Group::Output => vec![("Mix", Addable::Mix)],
    };
    assert(entries_of(r@) =~= group_entries(g));
    r
}

/// What the parameter panel offers.
pub open spec fn panel_entries() -> Seq<(Seq<char>, Addable)> {
    seq![
        ("Strike"@, Addable::Strike),
        ("String"@, Addable::String),
        ("Membrane"@, Addable::Membrane),
        ("Plate"@, Addable::Plate),
        ("Musical string"@, Addable::MusicalString),
        ("Bell"@, Addable::Bell),
        ("Cymbal"@, Addable::Cymbal),
        ("Body"@, Addable::Body),
        ("Wires"@, Addable::Wires),
        ("Breath"@, Addable::Breath),
        ("Reed / lip"@, Addable::OpenReed),
        ("Reed pipe"@, Addable::ReedPipe),
        ("Lips / brass"@, Addable::Lips),
        ("Air jet / flute"@, Addable::AirJet),
        ("Bowed string"@, Addable::BowedString),
        ("Plucked string"@, Addable::PluckedString),
        ("Hammered string"@, Addable::HammeredString),
        ("Hammer"@, Addable::Hammer),
        ("Bow"@, Addable::Bow),
        ("Voice"@, Addable::Voice),
        ("Air column"@, Addable::Horn),
        ("Bore (waveguide)"@, Addable::Bore),
        ("Mix"@, Addable::Mix),
    ]
}

/// What the parameter panel offers.
pub fn panel_menu() -> (r: Vec<(&'static str, Addable)>)
    ensures
        entries_of(r@) == panel_entries(),
{
    let r: Vec<(&'static str, Addable)> = vec![
        ("Strike", Addable::Strike),
        ("String", Addable::String),
        ("Membrane", Addable::Membrane),
        ("Plate", Addable::Plate),
        ("Musical string", Addable::MusicalString),
        ("Bell", Addable::Bell),
        ("Cymbal", Addable::Cymbal),
        ("Body", Addable::Body),
        ("Wires", Addable::Wires),
        ("Breath", Addable::Breath),
        ("Reed / lip", Addable::OpenReed),
        ("Reed pipe", Addable::ReedPipe),
        ("Lips / brass", Addable::Lips),
        ("Air jet / flute", Addable::AirJet),
        ("Bowed string", Addable::BowedString),
        ("Plucked string", Addable::PluckedString),
        ("Hammered string", Addable::HammeredString),
        ("Hammer", Addable::Hammer),
        ("Bow", Addable::Bow),
        ("Voice", Addable::Voice),
        ("Air column", Addable::Horn),
        ("Bore (waveguide)", Addable::Bore),
        ("Mix", Addable::Mix),
    ];
    assert(entries_of(r@) =~= panel_entries());
    r
}

/// What is added is of the kind that was chosen.
pub proof fn what_is_chosen_is_added(a: Addable)
    ensures
        a is Strike <==> a.comp() is Strike,
        a is Hammer <==> a.comp() is Hammer,
        a is BuzzingReed || a is OpenReed <==> a.comp() is Reed,
        a is ReedBore <==> a.comp() is ReedBore,
        a is Breath <==> a.comp() is Breath,
        a is FastBow || a is Bow <==> a.comp() is Bow,
        a is LoudVoice || a is Voice <==> a.comp() is Voice,
        a is Sine <==> a.comp() is Sine,
        a is String <==> a.comp() is String,
        a is MusicalString <==> a.comp() is MusicalString,
        a is Membrane <==> a.comp() is Membrane,
        a is Plate <==> a.comp() is Plate,
        a is Bell <==> a.comp() is Bell,
        a is Cymbal <==> a.comp() is Cymbal,
        a is Horn <==> a.comp() is Horn,
        a is Body <==> a.comp() is Body,
        a is Wires <==> a.comp() is Wires,
        a is ReedPipe <==> a.comp() is ReedPipe,
        a is FastBowedString || a is BowedString <==> a.comp() is BowedString,
        a is Bore <==> a.comp() is Bore,
        a is WaveguideHorn <==> a.comp() is WaveguideHorn,
        a is Mix <==> a.comp() is Mix,
        a is Lips <==> a.comp() is Lips,
        a is AirJet <==> a.comp() is AirJet,
        a is PluckedString <==> a.comp() is PluckedString,
        a is HammeredString <==> a.comp() is HammeredString,
{
}

/// The groups hold what they are called after: exciters excite, resonators do not, and
/// nothing is offered twice.
pub proof fn groups_hold_their_kind(g: Group, i: int, j: int)
    requires
        0 <= i < group_entries(g).len(),
        0 <= j < group_entries(g).len(),
        i != j,
    ensures
        group_entries(g)[i].1 != group_entries(g)[j].1,
        g is Exciter ==> group_entries(g)[i].1.comp().excites(),
        g is Resonator ==> !group_entries(g)[i].1.comp().excites(),
{
}

/// Nothing is offered twice on the panel.
pub proof fn the_panel_offers_nothing_twice(i: int, j: int)
    requires
        0 <= i < j < panel_entries().len(),
    ensures
        panel_entries()[i].1 != panel_entries()[j].1,
{
}

/// The ways of bowing, blowing and singing differ as their names say: fast bows move faster,
/// loud voices are louder, an open reed has no pitch of its own.
pub proof fn the_variants_differ_as_they_say()
    ensures
        Addable::Bow.comp()->Bow_speed.lt(Addable::FastBow.comp()->Bow_speed),
        Addable::BowedString.comp()->BowedString_speed.lt(
            Addable::FastBowedString.comp()->BowedString_speed,
        ),
        Addable::Voice.comp()->Voice_level.lt(Addable::LoudVoice.comp()->Voice_level),
        Addable::OpenReed.comp()->Reed_freq_hz.bits == 0,
        (Single { bits: 0 }).lt(Addable::BuzzingReed.comp()->Reed_freq_hz),
{
    crate::single::patterns_keep_their_order(
        Single { bits: 0x3F19_999A },
        Single { bits: 0x3F99_999A },
    );
    crate::single::patterns_keep_their_order(
        Single { bits: 0x3ECC_CCCD },
        Single { bits: 0x3F00_0000 },
    );
    crate::single::patterns_keep_their_order(Single { bits: 0 }, Single { bits: 0x4316_0000 });
}

} // verus!
