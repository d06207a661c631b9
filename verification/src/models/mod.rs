//! Synthesis models: what each one is, which ones there are, and the bank of
//! modes that a model fills for a played note.

use crate::single::{Single, ZERO};
use crate::text;
use vstd::prelude::*;

pub mod basic_wave;
pub mod blueprint;
pub mod comp;
pub mod cymbal;
pub mod drum_membrane;
pub mod edits;
pub mod instrument_graph;
pub mod key_map;
pub mod menu;
pub mod metal_bell;
pub mod musical_string;
pub mod pure_plate;
pub mod pure_string;
pub mod snare;
pub mod tuning;
pub mod voice;
pub mod webster_horn;

verus! {

/// How pitch is realized for a played note.
#[derive(Clone, Copy, Debug, PartialEq, Eq, Structural)]
pub enum PitchMode {
    /// Transpose a fixed modal template to the note.
    Transpose,
    /// Change the geometry with pitch.
    Physical,
}

impl Default for PitchMode {
    /// Size tracks pitch: the standard for the geometric models.
    fn default() -> (r: Self)
        ensures
            r == PitchMode::Physical,
    {
        PitchMode::Physical
    }
}

/// How a resonator is excited.
#[derive(Clone, Copy, Debug, PartialEq, Eq, Structural)]
pub enum Excitation {
    /// A one-shot pluck or strike.
    Struck,
    /// Driven for as long as the note is played.
    Bowed,
}

impl Default for Excitation {
    fn default() -> (r: Self)
        ensures
            r == Excitation::Struck,
    {
        Excitation::Struck
    }
}

/// The most modes that one voice holds.
pub const MAX_MODES: usize = 512;

/// How many modes are summed where `asked` are asked for: at least one, and no more than
/// a voice holds.
pub open spec fn modes_summed(asked: usize) -> usize {
    if asked < 1 {
        1
    } else if asked > MAX_MODES {
        MAX_MODES
    } else {
        asked
    }
}

/// How many modes are summed where `asked` are asked for.
pub fn mode_count(asked: usize) -> (r: usize)
    ensures
        r == modes_summed(asked),
{
    if asked < 1 {
        1
    } else if asked > MAX_MODES {
        MAX_MODES
    } else {
        asked
    }
}

/// The bit pattern of 20.0: the lower edge of the noise band, Hz.
pub const NOISE_LOW_HZ: u32 = 0x41A0_0000;

/// The bit pattern of 20000.0: the upper edge of the noise band, Hz.
pub const NOISE_HIGH_HZ: u32 = 0x469C_4000;

/// One partial: frequency (Hz), linear amplitude, and decay rate per second.
#[derive(Clone, Copy, Debug, PartialEq, Eq, Structural)]
pub struct Mode {
    /// Frequency, Hz.
    pub freq: Single,
    /// Linear amplitude.
    pub amp: Single,
    /// Decay rate per second.
    pub decay: Single,
}

/// The bank of modes of one played note, at most [`MAX_MODES`] of them, and an
/// optional band of noise.
pub struct ModeBuffer {
    /// The partials.
    pub modes: Vec<Mode>,
    /// Whether the modes hold while the note is played.
    pub sustain: bool,
    /// Amplitude of the noise; zero is none.
    pub noise_level: Single,
    /// Decay rate of the noise per second.
    pub noise_decay: Single,
    /// Lower edge of the noise band, Hz.
    pub noise_hp: Single,
    /// Upper edge of the noise band, Hz.
    pub noise_lp: Single,
}

impl ModeBuffer {
    /// No more modes than a voice holds.
    pub open spec fn fits(self) -> bool {
        self.modes@.len() <= MAX_MODES
    }

    /// No modes, and no noise.
    pub open spec fn is_clear(self) -> bool {
        &&& self.modes@.len() == 0
        &&& !self.sustain
        &&& self.noise_level == (Single { bits: ZERO })
        &&& self.noise_decay == (Single { bits: ZERO })
        &&& self.noise_hp == (Single { bits: NOISE_LOW_HZ })
        &&& self.noise_lp == (Single { bits: NOISE_HIGH_HZ })
    }

    /// Drops every mode and the noise.
    pub fn clear(&mut self)
        ensures
            final(self).is_clear(),
    {
        self.modes.clear();
        self.sustain = false;
        self.noise_level = Single { bits: ZERO };
        self.noise_decay = Single { bits: ZERO };
        self.noise_hp = Single { bits: NOISE_LOW_HZ };
        self.noise_lp = Single { bits: NOISE_HIGH_HZ };
    }

    /// Appends one mode; a full bank silently stays as it is.
    pub fn push(&mut self, freq: Single, amp: Single, decay: Single)
        ensures
            final(self).modes@ == if old(self).modes@.len() < MAX_MODES {
                old(self).modes@.push(Mode { freq, amp, decay })
            } else {
                old(self).modes@
            },
            old(self).fits() ==> final(self).fits(),
            final(self).sustain == old(self).sustain,
            final(self).noise_level == old(self).noise_level,
            final(self).noise_decay == old(self).noise_decay,
            final(self).noise_hp == old(self).noise_hp,
            final(self).noise_lp == old(self).noise_lp,
    {
        if self.modes.len() < MAX_MODES {
            self.modes.push(Mode { freq, amp, decay });
        }
    }

    /// The number of modes.
    pub fn len(&self) -> (n: usize)
        ensures
            n == self.modes@.len(),
    {
        self.modes.len()
    }
}

impl Default for ModeBuffer {
    /// An empty bank.
    fn default() -> (r: Self)
        ensures
            r.is_clear(),
            r.fits(),
    {
        ModeBuffer {
            modes: Vec::new(),
            sustain: false,
            noise_level: Single { bits: ZERO },
            noise_decay: Single { bits: ZERO },
            noise_hp: Single { bits: NOISE_LOW_HZ },
            noise_lp: Single { bits: NOISE_HIGH_HZ },
        }
    }
}

/// A synthesis model.
#[derive(Clone, Copy, Debug, PartialEq, Eq, Structural)]
pub enum ModelKind {
    /// Musical String.
    MusicalString,
    /// Pure String.
    PureString,
    /// Drum (2D membrane).
    DrumMembrane,
    /// Quadratic Webster Horn.
    WebsterHorn,
    /// Metal Bell / Cowbell.
    MetalBell,
    /// Snare.
    Snare,
    /// Cymbal / Plate.
    Cymbal,
    /// Pure Plate.
    PurePlate,
    /// Basic Wave.
    BasicWave,
    /// Instrument Graph.
    InstrumentGraph,
    /// String (graph).
    GraphString,
    /// Plate (graph).
    GraphPlate,
    /// Drum (graph).
    GraphDrum,
    /// Musical String (graph).
    GraphMusicalString,
    /// String + Body (graph).
    BodiedString,
}

impl ModelKind {
    /// The stable identifier under which a model is stored.
    pub open spec fn id_text(self) -> Seq<char> {
        match self {
            ModelKind::MusicalString => "musical_string"@,
            ModelKind::PureString => "pure_string"@,
            ModelKind::DrumMembrane => "drum_membrane"@,
            ModelKind::WebsterHorn => "webster_horn"@,
            ModelKind::MetalBell => "metal_bell"@,
            ModelKind::Snare => "snare"@,
            ModelKind::Cymbal => "cymbal"@,
            ModelKind::PurePlate => "pure_plate"@,
            ModelKind::BasicWave => "basic_wave"@,
            ModelKind::InstrumentGraph => "instrument_graph"@,
            ModelKind::GraphString => "graph_string"@,
            ModelKind::GraphPlate => "graph_plate"@,
            ModelKind::GraphDrum => "graph_drum"@,
            ModelKind::GraphMusicalString => "graph_musical_string"@,
            ModelKind::BodiedString => "bodied_string"@,
        }
    }

    /// The stable identifier under which a model is stored.
    pub fn id(&self) -> (r: &'static str)
        ensures
            r@ == self.id_text(),
    {
        match self {
            ModelKind::MusicalString => "musical_string",
            ModelKind::PureString => "pure_string",
            ModelKind::DrumMembrane => "drum_membrane",
            ModelKind::WebsterHorn => "webster_horn",
            ModelKind::MetalBell => "metal_bell",
            ModelKind::Snare => "snare",
            ModelKind::Cymbal => "cymbal",
            ModelKind::PurePlate => "pure_plate",
            ModelKind::BasicWave => "basic_wave",
            ModelKind::InstrumentGraph => "instrument_graph",
            ModelKind::GraphString => "graph_string",
            ModelKind::GraphPlate => "graph_plate",
            ModelKind::GraphDrum => "graph_drum",
            ModelKind::GraphMusicalString => "graph_musical_string",
            ModelKind::BodiedString => "bodied_string",
        }
    }

    /// The name shown in the model picker.
    pub open spec fn name_text(self) -> Seq<char> {
        match self {
            ModelKind::MusicalString => "Musical String"@,
            ModelKind::PureString => "Pure String"@,
            ModelKind::DrumMembrane => "Drum (2D membrane)"@,
            ModelKind::WebsterHorn => "Quadratic Webster Horn"@,
            ModelKind::MetalBell => "Metal Bell / Cowbell"@,
            ModelKind::Snare => "Snare"@,
            ModelKind::Cymbal => "Cymbal / Plate"@,
            ModelKind::PurePlate => "Pure Plate"@,
            ModelKind::BasicWave => "Basic Wave"@,
            ModelKind::InstrumentGraph => "Instrument Graph"@,
            ModelKind::GraphString => "String (graph)"@,
            ModelKind::GraphPlate => "Plate (graph)"@,
            ModelKind::GraphDrum => "Drum (graph)"@,
            ModelKind::GraphMusicalString => "Musical String (graph)"@,
            ModelKind::BodiedString => "String + Body (graph)"@,
        }
    }

    /// The name shown in the model picker.
    pub fn display_name(&self) -> (r: &'static str)
        ensures
            r@ == self.name_text(),
    {
        match self {
            ModelKind::MusicalString => "Musical String",
            ModelKind::PureString => "Pure String",
            ModelKind::DrumMembrane => "Drum (2D membrane)",
            ModelKind::WebsterHorn => "Quadratic Webster Horn",
            ModelKind::MetalBell => "Metal Bell / Cowbell",
            ModelKind::Snare => "Snare",
            ModelKind::Cymbal => "Cymbal / Plate",
            ModelKind::PurePlate => "Pure Plate",
            ModelKind::BasicWave => "Basic Wave",
            ModelKind::InstrumentGraph => "Instrument Graph",
            ModelKind::GraphString => "String (graph)",
            ModelKind::GraphPlate => "Plate (graph)",
            ModelKind::GraphDrum => "Drum (graph)",
            ModelKind::GraphMusicalString => "Musical String (graph)",
            ModelKind::BodiedString => "String + Body (graph)",
        }
    }

    /// The line shown under the picker.
    pub open spec fn description_text(self) -> Seq<char> {
        match self {
            ModelKind::MusicalString => "Plucked string with music-friendly controls (inharmonicity, decay time, pluck sweep)."@,
            ModelKind::PureString => "A physically-grounded stiff string: length, tension, gauge and material set the pitch and inharmonicity."@,
            ModelKind::DrumMembrane => "A physically-grounded circular drumhead: radius, tension, density and bending set the inharmonic Bessel modes."@,
            ModelKind::WebsterHorn => "A flaring air column (Webster's horn equation); r1/r2/r3 shape the bore."@,
            ModelKind::MetalBell => "A struck idiophone: a few inharmonic partials plus a stick-click of noise."@,
            ModelKind::Snare => "A drum head plus snare-wire noise — a membrane thwack with a buzzing rattle."@,
            ModelKind::Cymbal => "A stiff metal plate: dense inharmonic modes plus a bright noise wash."@,
            ModelKind::PurePlate => "Free circular plate solved from the Kirchhoff biharmonic — real cymbal/gong modes."@,
            ModelKind::BasicWave => "Band-limited triangle / sawtooth — the framework's reference oscillator."@,
            ModelKind::InstrumentGraph => "A configurable graph of exciter/resonator components wired by coupling edges."@,
            ModelKind::GraphString => "The Pure String rendered through the per-sample voice graph — A/B vs Pure String."@,
            ModelKind::GraphPlate => "The Pure Plate rendered through the per-sample voice graph — A/B vs Pure Plate."@,
            ModelKind::GraphDrum => "The drum membrane rendered through the per-sample voice graph — A/B vs Drum."@,
            ModelKind::GraphMusicalString => "The Musical String rendered through the per-sample voice graph — A/B vs Musical String."@,
            ModelKind::BodiedString => "A plucked string fed into a fixed body resonator — a two-resonator voice graph."@,
        }
    }

    /// The line shown under the picker.
    pub fn description(&self) -> (r: &'static str)
        ensures
            r@ == self.description_text(),
    {
        match self {
            ModelKind::MusicalString => "Plucked string with music-friendly controls (inharmonicity, decay time, pluck sweep).",
            ModelKind::PureString => "A physically-grounded stiff string: length, tension, gauge and material set the pitch and inharmonicity.",
            ModelKind::DrumMembrane => "A physically-grounded circular drumhead: radius, tension, density and bending set the inharmonic Bessel modes.",
            ModelKind::WebsterHorn => "A flaring air column (Webster's horn equation); r1/r2/r3 shape the bore.",
            ModelKind::MetalBell => "A struck idiophone: a few inharmonic partials plus a stick-click of noise.",
            ModelKind::Snare => "A drum head plus snare-wire noise — a membrane thwack with a buzzing rattle.",
            ModelKind::Cymbal => "A stiff metal plate: dense inharmonic modes plus a bright noise wash.",
            ModelKind::PurePlate => "Free circular plate solved from the Kirchhoff biharmonic — real cymbal/gong modes.",
            ModelKind::BasicWave => "Band-limited triangle / sawtooth — the framework's reference oscillator.",
            ModelKind::InstrumentGraph => "A configurable graph of exciter/resonator components wired by coupling edges.",
            ModelKind::GraphString => "The Pure String rendered through the per-sample voice graph — A/B vs Pure String.",
            ModelKind::GraphPlate => "The Pure Plate rendered through the per-sample voice graph — A/B vs Pure Plate.",
            ModelKind::GraphDrum => "The drum membrane rendered through the per-sample voice graph — A/B vs Drum.",
            ModelKind::GraphMusicalString => "The Musical String rendered through the per-sample voice graph — A/B vs Musical String.",
            ModelKind::BodiedString => "A plucked string fed into a fixed body resonator — a two-resonator voice graph.",
        }
    }
}

/// The model stored under `id`.
pub open spec fn model_with_id(id: Seq<char>) -> Option<ModelKind> {
    if id == "musical_string"@ {
        Some(ModelKind::MusicalString)
    } else if id == "pure_string"@ {
        Some(ModelKind::PureString)
    } else if id == "drum_membrane"@ {
        Some(ModelKind::DrumMembrane)
    } else if id == "webster_horn"@ {
        Some(ModelKind::WebsterHorn)
    } else if id == "metal_bell"@ {
        Some(ModelKind::MetalBell)
    } else if id == "snare"@ {
        Some(ModelKind::Snare)
    } else if id == "cymbal"@ {
        Some(ModelKind::Cymbal)
    } else if id == "pure_plate"@ {
        Some(ModelKind::PurePlate)
    } else if id == "basic_wave"@ {
        Some(ModelKind::BasicWave)
    } else if id == "instrument_graph"@ {
        Some(ModelKind::InstrumentGraph)
    } else if id == "graph_string"@ {
        Some(ModelKind::GraphString)
    } else if id == "graph_plate"@ {
        Some(ModelKind::GraphPlate)
    } else if id == "graph_drum"@ {
        Some(ModelKind::GraphDrum)
    } else if id == "graph_musical_string"@ {
        Some(ModelKind::GraphMusicalString)
    } else if id == "bodied_string"@ {
        Some(ModelKind::BodiedString)
    } else {
        None
    }
}

/// The model stored under `id`, if there is one.
pub fn model_from_id(id: &str) -> (r: Option<ModelKind>)
    ensures
        r == model_with_id(id@),
{
    if text::same_text(id, "musical_string") {
        Some(ModelKind::MusicalString)
    } else if text::same_text(id, "pure_string") {
        Some(ModelKind::PureString)
    } else if text::same_text(id, "drum_membrane") {
        Some(ModelKind::DrumMembrane)
    } else if text::same_text(id, "webster_horn") {
        Some(ModelKind::WebsterHorn)
    } else if text::same_text(id, "metal_bell") {
        Some(ModelKind::MetalBell)
    } else if text::same_text(id, "snare") {
        Some(ModelKind::Snare)
    } else if text::same_text(id, "cymbal") {
        Some(ModelKind::Cymbal)
    } else if text::same_text(id, "pure_plate") {
        Some(ModelKind::PurePlate)
    } else if text::same_text(id, "basic_wave") {
        Some(ModelKind::BasicWave)
    } else if text::same_text(id, "instrument_graph") {
        Some(ModelKind::InstrumentGraph)
    } else if text::same_text(id, "graph_string") {
        Some(ModelKind::GraphString)
    } else if text::same_text(id, "graph_plate") {
        Some(ModelKind::GraphPlate)
    } else if text::same_text(id, "graph_drum") {
        Some(ModelKind::GraphDrum)
    } else if text::same_text(id, "graph_musical_string") {
        Some(ModelKind::GraphMusicalString)
    } else if text::same_text(id, "bodied_string") {
        Some(ModelKind::BodiedString)
    } else {
        None
    }
}

/// The models that the picker offers, in its order.
pub open spec fn registered() -> Seq<ModelKind> {
    seq![
        ModelKind::MusicalString,
        ModelKind::PureString,
        ModelKind::DrumMembrane,
        ModelKind::WebsterHorn,
        ModelKind::MetalBell,
        ModelKind::Snare,
        ModelKind::Cymbal,
        ModelKind::PurePlate,
        ModelKind::BasicWave,
    ]
}

/// The models that the picker offers, in its order.
pub fn registry() -> (r: Vec<ModelKind>)
    ensures
        r@ == registered(),
{
    let r: Vec<ModelKind> = vec![
        ModelKind::MusicalString,
        ModelKind::PureString,
        ModelKind::DrumMembrane,
        ModelKind::WebsterHorn,
        ModelKind::MetalBell,
        ModelKind::Snare,
        ModelKind::Cymbal,
        ModelKind::PurePlate,
        ModelKind::BasicWave,
    ];
    assert(r@ =~= registered());
    r
}

/// The model selected on startup: the first that the picker offers.
pub fn default_model() -> (r: ModelKind)
    ensures
        r == registered()[0],
{
    let all = registry();
    all[0]
}

/// What is found under an identifier is the model that has it.
pub proof fn only_known_ids_are_found(id: Seq<char>)
    requires
        model_with_id(id) is Some,
    ensures
        model_with_id(id).unwrap().id_text() == id,
{
}

/// Every model is found again under its identifier, so no two share one.
pub proof fn models_are_found_by_their_id(k: ModelKind)
    ensures
        model_with_id(k.id_text()) == Some(k),
{
    reveal_strlit("musical_string");
    reveal_strlit("pure_string");
    reveal_strlit("drum_membrane");
    reveal_strlit("webster_horn");
    reveal_strlit("metal_bell");
    reveal_strlit("snare");
    reveal_strlit("cymbal");
    reveal_strlit("pure_plate");
    reveal_strlit("basic_wave");
    reveal_strlit("instrument_graph");
    reveal_strlit("graph_string");
    reveal_strlit("graph_plate");
    reveal_strlit("graph_drum");
    reveal_strlit("graph_musical_string");
    reveal_strlit("bodied_string");
    assert("musical_string"@.len() == 14 && "musical_string"@[0] == 'm');
    assert("pure_string"@.len() == 11 && "pure_string"@[0] == 'p');
    assert("drum_membrane"@.len() == 13 && "drum_membrane"@[0] == 'd');
    assert("webster_horn"@.len() == 12 && "webster_horn"@[0] == 'w');
    assert("metal_bell"@.len() == 10 && "metal_bell"@[0] == 'm');
    assert("snare"@.len() == 5 && "snare"@[0] == 's');
    assert("cymbal"@.len() == 6 && "cymbal"@[0] == 'c');
    assert("pure_plate"@.len() == 10 && "pure_plate"@[0] == 'p');
    assert("basic_wave"@.len() == 10 && "basic_wave"@[0] == 'b');
    assert("instrument_graph"@.len() == 16 && "instrument_graph"@[0] == 'i');
    assert("graph_string"@.len() == 12 && "graph_string"@[0] == 'g');
    assert("graph_plate"@.len() == 11 && "graph_plate"@[0] == 'g');
    assert("graph_drum"@.len() == 10 && "graph_drum"@[0] == 'g');
    assert("graph_musical_string"@.len() == 20 && "graph_musical_string"@[0] == 'g');
    assert("bodied_string"@.len() == 13 && "bodied_string"@[0] == 'b');
}

/// A voice sums as many modes as it is asked for, from one to as many as it holds.
pub proof fn voices_sum_what_they_are_asked(asked: usize)
    ensures
        1 <= asked <= 512 ==> modes_summed(asked) == asked,
        asked == 0 ==> modes_summed(asked) == 1,
        asked > 512 ==> modes_summed(asked) == 512,
{
}

/// A voice that is clear has no modes and no noise, and dies away by itself.
pub proof fn clear_voices_are_silent(m: ModeBuffer)
    ensures
        m.is_clear() ==> m.modes@.len() == 0 && !m.sustain && m.noise_level.bits == 0
            && m.noise_decay.bits == 0 && m.fits(),
        m.fits() <==> m.modes@.len() <= 512,
{
}

} // verus!
