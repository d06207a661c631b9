//! Parameter panels: the controls that an editor shows for a model or component, and
//! what moving one does. Values are not held to a slider's range, which only says how
//! far it can be dragged.

pub mod comps;
pub mod models;

use crate::decimal::decimal;
use crate::instrument::EngineParams;
use crate::single::{Single, ZERO};
use vstd::prelude::*;

verus! {

/// A setting of a model or component.
#[derive(Clone, Copy, Debug, PartialEq, Eq, Structural)]
pub enum Field {
    /// The setting `waveform`.
    Waveform,
    /// The setting `harmonics`.
    Harmonics,
    /// The setting `decay_time`.
    DecayTime,
    /// The setting `size`.
    Size,
    /// The setting `stiffness`.
    Stiffness,
    /// The setting `damping`.
    Damping,
    /// The setting `brightness`.
    Brightness,
    /// The setting `strike_pos`.
    StrikePos,
    /// The setting `modes`.
    Modes,
    /// The setting `shimmer`.
    Shimmer,
    /// The setting `key_tracks_pitch`.
    KeyTracksPitch,
    /// The setting `radius_m`.
    RadiusM,
    /// The setting `tension_nm`.
    TensionNm,
    /// The setting `areal_density_kgm2`.
    ArealDensityKgm2,
    /// The setting `bending_nm`.
    BendingNm,
    /// The setting `hf_damping`.
    HfDamping,
    /// The setting `num_modes`.
    NumModes,
    /// The setting `play_magnitude`.
    PlayMagnitude,
    /// The setting `max_magnitude`.
    MaxMagnitude,
    /// The setting `excitation`.
    Excitation,
    /// The setting `partials`.
    Partials,
    /// The setting `spread`.
    Spread,
    /// The setting `inharmonicity`.
    Inharmonicity,
    /// The setting `strike_noise`.
    StrikeNoise,
    /// The setting `pluck_pos`.
    PluckPos,
    /// The setting `poisson`.
    Poisson,
    /// The setting `hf_damp`.
    HfDamp,
    /// The setting `length_m`.
    LengthM,
    /// The setting `tension_n`.
    TensionN,
    /// The setting `diameter_mm`.
    DiameterMm,
    /// The setting `density_kgm3`.
    DensityKgm3,
    /// The setting `youngs_gpa`.
    YoungsGpa,
    /// The setting `tension`.
    Tension,
    /// The setting `depth`.
    Depth,
    /// The setting `snares`.
    Snares,
    /// The setting `snare_decay`.
    SnareDecay,
    /// The setting `tone`.
    Tone,
    /// The setting `boundary`.
    Boundary,
    /// The setting `wavefront`.
    Wavefront,
    /// The setting `play_mode`.
    PlayMode,
    /// The setting `valve_steps`.
    ValveSteps,
    /// The setting `overblow_anchor_hz`.
    OverblowAnchorHz,
    /// The setting `overblow_microtune`.
    OverblowMicrotune,
    /// The setting `r1`.
    R1,
    /// The setting `r2`.
    R2,
    /// The setting `r3`.
    R3,
    /// The setting `length`.
    Length,
    /// The setting `blow_pos`.
    BlowPos,
    /// The setting `resolution`.
    Resolution,
    /// The setting `freq_dep_damping`.
    FreqDepDamping,
    /// The setting `visco_loss`.
    ViscoLoss,
    /// The setting `radiation`.
    Radiation,
    /// The setting `wave_speed`.
    WaveSpeed,
    /// The setting `damp_period`.
    DampPeriod,
    /// The setting `cavity_litres`.
    CavityLitres,
    /// The setting `soundhole_cm`.
    SoundholeCm,
    /// The setting `top_hz`.
    TopHz,
    /// The setting `decay_s`.
    DecayS,
    /// The setting `level`.
    Level,
    /// The setting `segments`.
    Segments,
    /// The setting `pressure`.
    Pressure,
    /// The setting `freq_hz`.
    FreqHz,
    /// The setting `register`.
    Register,
    /// The setting `overblow`.
    Overblow,
    /// The setting `conical`.
    Conical,
    /// The setting `tract_gain`.
    TractGain,
    /// The setting `tract_q`.
    TractQ,
    /// The setting `jet_ratio`.
    JetRatio,
    /// The setting `bow_pos`.
    BowPos,
    /// The setting `speed`.
    Speed,
    /// The setting `force`.
    Force,
    /// The setting `core_mm`.
    CoreMm,
    /// The setting `open_hz`.
    OpenHz,
    /// The setting `pos`.
    Pos,
    /// The setting `decay`.
    Decay,
    /// The setting `hardness`.
    Hardness,
    /// The setting `felt`.
    Felt,
    /// The setting `open_quotient`.
    OpenQuotient,
    /// The setting `gain`.
    Gain,
    /// The setting `attack_ms`.
    AttackMs,
    /// The setting `release_ms`.
    ReleaseMs,
    /// The setting `retrigger_ms`.
    RetriggerMs,
}

/// The value of a setting.
#[derive(Clone, Copy, Debug, PartialEq, Eq, Structural)]
pub enum Amount {
    /// A number.
    Number(Single),
    /// A whole number.
    Count(usize),
    /// On or off.
    Flag(bool),
    /// One of a few, counted from zero.
    Choice(usize),
}

impl Amount {
    /// Setting `f`, now at this value, can be set to `v`: it is of the same sort, and
    /// within the limits of the few settings that have some.
    pub open spec fn takes(self, v: Amount, f: Field) -> bool {
        match (self, v) {
            (Amount::Number(_), Amount::Number(_)) => true,
            (Amount::Count(_), Amount::Count(n)) => {
                &&& f == Field::ValveSteps ==> n <= 12
                &&& f == Field::Segments ==> 2 <= n <= 64
            },
            (Amount::Flag(_), Amount::Flag(_)) => true,
            (Amount::Choice(_), Amount::Choice(n)) => n < 2 || (f == Field::PlayMode && n == 2),
            _ => false,
        }
    }
}

/// One of a few choices.
#[derive(Clone, Copy, Debug)]
pub struct Pick {
    /// What it is called.
    pub name: &'static str,
    /// What is said about it.
    pub hint: &'static str,
}

/// How a setting is shown.
#[derive(Clone, Copy, Debug)]
pub enum Scale {
    /// A slider.
    Slider { lo: Single, hi: Single, log: bool },
    /// A slider over whole numbers.
    Count { lo: usize, hi: usize },
    /// A box to tick.
    Toggle,
    /// A pitch, entered as a note.
    Pitch,
    /// A list to choose from.
    Choice { first: Pick, second: Pick, third: Option<Pick> },
}

impl Scale {
    /// Whether a value can be shown so.
    pub open spec fn shows(self, v: Amount) -> bool {
        match self {
            Scale::Slider { .. } => v is Number,
            Scale::Count { .. } => v is Count,
            Scale::Toggle => v is Flag,
            Scale::Pitch => v is Number,
            Scale::Choice { third, .. } => v matches Amount::Choice(n) && (n < 2 || (n == 2
                && third is Some)),
        }
    }
}

/// How a slider's number is written.
#[derive(Clone, Copy, Debug, PartialEq, Eq, Structural)]
pub enum Reading {
    /// As a number.
    Plain,
    /// As a place along a string: see [`pluck_reading`].
    Pluck,
    /// As a place on a head: see [`strike_reading`].
    Strike,
}

/// One control of a panel.
#[derive(Clone, Copy, Debug)]
pub struct Control {
    /// The setting it moves.
    pub field: Field,
    /// What it is called.
    pub label: &'static str,
    /// The unit behind the number.
    pub suffix: &'static str,
    /// What is said about it; empty where nothing is.
    pub hint: &'static str,
    /// How it is shown.
    pub scale: Scale,
    /// How its number is written.
    pub reading: Reading,
    /// The heading that it stands under; empty where it has none.
    pub section: &'static str,
}

/// One of a few choices.
pub open spec fn pick_value(name: &'static str, hint: &'static str) -> Pick {
    Pick { name, hint }
}

/// One of a few choices.
#[verifier::when_used_as_spec(pick_value)]
pub fn pick(name: &'static str, hint: &'static str) -> (r: Pick)
    ensures
        r == pick_value(name, hint),
{
    Pick { name, hint }
}

/// A slider.
pub open spec fn slider_value(
    field: Field,
    label: &'static str,
    lo: Single,
    hi: Single,
    section: &'static str,
) -> Control {
    Control {
        field,
        label,
        suffix: "",
        hint: "",
        scale: Scale::Slider { lo, hi, log: false },
        reading: Reading::Plain,
        section,
    }
}

/// A slider.
#[verifier::when_used_as_spec(slider_value)]
pub fn slider(
    field: Field,
    label: &'static str,
    lo: Single,
    hi: Single,
    section: &'static str,
) -> (r: Control)
    ensures
        r == slider_value(field, label, lo, hi, section),
{
    Control {
        field,
        label,
        suffix: "",
        hint: "",
        scale: Scale::Slider { lo, hi, log: false },
        reading: Reading::Plain,
        section,
    }
}

/// A slider over whole numbers.
pub open spec fn counter_value(
    field: Field,
    label: &'static str,
    lo: usize,
    hi: usize,
    section: &'static str,
) -> Control {
    Control {
        field,
        label,
        suffix: "",
        hint: "",
        scale: Scale::Count { lo, hi },
        reading: Reading::Plain,
        section,
    }
}

/// A slider over whole numbers.
#[verifier::when_used_as_spec(counter_value)]
pub fn counter(
    field: Field,
    label: &'static str,
    lo: usize,
    hi: usize,
    section: &'static str,
) -> (r: Control)
    ensures
        r == counter_value(field, label, lo, hi, section),
{
    Control {
        field,
        label,
        suffix: "",
        hint: "",
        scale: Scale::Count { lo, hi },
        reading: Reading::Plain,
        section,
    }
}

/// A box to tick.
pub open spec fn toggle_value(field: Field, label: &'static str, section: &'static str) -> Control {
    Control {
        field,
        label,
        suffix: "",
        hint: "",
        scale: Scale::Toggle,
        reading: Reading::Plain,
        section,
    }
}

/// A box to tick.
#[verifier::when_used_as_spec(toggle_value)]
pub fn toggle(field: Field, label: &'static str, section: &'static str) -> (r: Control)
    ensures
        r == toggle_value(field, label, section),
{
    Control {
        field,
        label,
        suffix: "",
        hint: "",
        scale: Scale::Toggle,
        reading: Reading::Plain,
        section,
    }
}

/// A pitch, entered as a note.
pub open spec fn pitch_value(field: Field, label: &'static str, section: &'static str) -> Control {
    Control {
        field,
        label,
        suffix: "",
        hint: "",
        scale: Scale::Pitch,
        reading: Reading::Plain,
        section,
    }
}

/// A pitch, entered as a note.
#[verifier::when_used_as_spec(pitch_value)]
pub fn pitch(field: Field, label: &'static str, section: &'static str) -> (r: Control)
    ensures
        r == pitch_value(field, label, section),
{
    Control {
        field,
        label,
        suffix: "",
        hint: "",
        scale: Scale::Pitch,
        reading: Reading::Plain,
        section,
    }
}

/// A list to choose from.
pub open spec fn choice_value(
    field: Field,
    label: &'static str,
    first: Pick,
    second: Pick,
    third: Option<Pick>,
    section: &'static str,
) -> Control {
    Control {
        field,
        label,
        suffix: "",
        hint: "",
        scale: Scale::Choice { first, second, third },
        reading: Reading::Plain,
        section,
    }
}

/// A list to choose from.
#[verifier::when_used_as_spec(choice_value)]
pub fn choice(
    field: Field,
    label: &'static str,
    first: Pick,
    second: Pick,
    third: Option<Pick>,
    section: &'static str,
) -> (r: Control)
    ensures
        r == choice_value(field, label, first, second, third, section),
{
    Control {
        field,
        label,
        suffix: "",
        hint: "",
        scale: Scale::Choice { first, second, third },
        reading: Reading::Plain,
        section,
    }
}

impl Control {
    /// This with a unit behind the number.
    pub open spec fn unit_value(self, suffix: &'static str) -> Control {
        Control { suffix, ..self }
    }

    /// This with a unit behind the number.
    #[verifier::when_used_as_spec(unit_value)]
    pub fn unit(self, suffix: &'static str) -> (r: Control)
        ensures
            r == self.unit_value(suffix),
    {
        Control { suffix, ..self }
    }

    /// This with something said about it.
    pub open spec fn with_hint_value(self, hint: &'static str) -> Control {
        Control { hint, ..self }
    }

    /// This with something said about it.
    #[verifier::when_used_as_spec(with_hint_value)]
    pub fn with_hint(self, hint: &'static str) -> (r: Control)
        ensures
            r == self.with_hint_value(hint),
    {
        Control { hint, ..self }
    }

    /// This with its number written another way.
    pub open spec fn reads_value(self, reading: Reading) -> Control {
        Control { reading, ..self }
    }

    /// This with its number written another way.
    #[verifier::when_used_as_spec(reads_value)]
    pub fn reads(self, reading: Reading) -> (r: Control)
        ensures
            r == self.reads_value(reading),
    {
        Control { reading, ..self }
    }

    /// This slider on a logarithmic scale.
    pub open spec fn stretched_value(self) -> Control {
        match self.scale {
            Scale::Slider { lo, hi, .. } => Control {
                scale: Scale::Slider { lo, hi, log: true },
                ..self
            },
            _ => self,
        }
    }

    /// This slider on a logarithmic scale.
    #[verifier::when_used_as_spec(stretched_value)]
    pub fn stretched(self) -> (r: Control)
        ensures
            r == self.stretched_value(),
    {
        match self.scale {
            Scale::Slider { lo, hi, .. } => Control {
                scale: Scale::Slider { lo, hi, log: true },
                ..self
            },
            _ => self,
        }
    }
}

/// The bit pattern of 0.05, where the words for a place change; so too with the next ones.
pub const PLACE_0_05: u32 = 0x3D4C_CCCD;

/// The bit pattern of 0.08.
pub const PLACE_0_08: u32 = 0x3DA3_D70A;

/// The bit pattern of 0.48.
pub const PLACE_0_48: u32 = 0x3EF5_C28F;

/// The bit pattern of 0.52.
pub const PLACE_0_52: u32 = 0x3F05_1EB8;

/// The bit pattern of 0.9.
pub const PLACE_0_90: u32 = 0x3F66_6666;

/// The bit pattern of 0.92.
pub const PLACE_0_92: u32 = 0x3F6B_851F;

/// What a place along a string is called; none if it is just a number.
pub open spec fn pluck_words(at: Single) -> Option<&'static str> {
    if (Single { bits: PLACE_0_48 }).lt(at) && at.le(Single { bits: PLACE_0_52 }) {
        Some("center (triangle)")
    } else if at.le(Single { bits: PLACE_0_08 }) || (Single { bits: PLACE_0_92 }).le(at) {
        Some("near end (saw)")
    } else {
        None
    }
}

/// What a place along a string is called; none if it is just a number.
pub fn pluck_reading(at: Single) -> (r: Option<&'static str>)
    ensures
        r == pluck_words(at),
{
    if (Single { bits: PLACE_0_48 }).less(at) && at.less_eq(Single { bits: PLACE_0_52 }) {
        Some("center (triangle)")
    } else if at.less_eq(Single { bits: PLACE_0_08 }) || (Single { bits: PLACE_0_92 }).less_eq(at) {
        Some("near end (saw)")
    } else {
        None
    }
}

/// What a place on a head is called; none if it is just a number.
pub open spec fn strike_words(at: Single) -> Option<&'static str> {
    if at.lt(Single { bits: PLACE_0_05 }) {
        Some("centre")
    } else if (Single { bits: PLACE_0_90 }).lt(at) {
        Some("rim")
    } else {
        None
    }
}

/// What a place on a head is called; none if it is just a number.
pub fn strike_reading(at: Single) -> (r: Option<&'static str>)
    ensures
        r == strike_words(at),
{
    if at.less(Single { bits: PLACE_0_05 }) {
        Some("centre")
    } else if (Single { bits: PLACE_0_90 }).less(at) {
        Some("rim")
    } else {
        None
    }
}

impl EngineParams {
    /// What its panel shows, from the top.
    pub open spec fn control_list(self) -> Seq<Control> {
        seq![
            slider(Field::Gain, "Gain", Single { bits: ZERO }, decimal(4_0000), ""),
            slider(Field::AttackMs, "Attack (ms)", Single { bits: ZERO }, decimal(2000_0000), ""),
            slider(Field::ReleaseMs, "Release (ms)", decimal(1_0000), decimal(5000_0000), ""),
            slider(
                Field::RetriggerMs,
                "Retrigger (ms)",
                Single { bits: ZERO },
                decimal(2000_0000),
                "",
            )
                .with_hint("Minimum time between strikes; 0 = off."),
        ]
    }

    /// What its panel shows, from the top.
    pub fn controls(&self) -> (r: Vec<Control>)
        ensures
            r@ == self.control_list(),
    {
        let r: Vec<Control> = vec![
            slider(Field::Gain, "Gain", Single { bits: ZERO }, decimal(4_0000), ""),
            slider(Field::AttackMs, "Attack (ms)", Single { bits: ZERO }, decimal(2000_0000), ""),
            slider(Field::ReleaseMs, "Release (ms)", decimal(1_0000), decimal(5000_0000), ""),
            slider(
                Field::RetriggerMs,
                "Retrigger (ms)",
                Single { bits: ZERO },
                decimal(2000_0000),
                "",
            )
                .with_hint("Minimum time between strikes; 0 = off."),
        ];
        assert(r@ =~= self.control_list());
        r
    }

    /// The value of a setting.
    pub open spec fn setting(self, f: Field) -> Option<Amount> {
        match f {
            Field::Gain => Some(Amount::Number(self.gain)),
            Field::AttackMs => Some(Amount::Number(self.attack_ms)),
            Field::ReleaseMs => Some(Amount::Number(self.release_ms)),
            Field::RetriggerMs => Some(Amount::Number(self.retrigger_ms)),
            _ => None,
        }
    }

    /// The value of a setting.
    pub fn get_setting(&self, f: Field) -> (r: Option<Amount>)
        ensures
            r == self.setting(f),
    {
        match f {
            Field::Gain => Some(Amount::Number(self.gain)),
            Field::AttackMs => Some(Amount::Number(self.attack_ms)),
            Field::ReleaseMs => Some(Amount::Number(self.release_ms)),
            Field::RetriggerMs => Some(Amount::Number(self.retrigger_ms)),
            _ => None,
        }
    }

    /// This with a setting changed; unchanged where the setting takes no such value.
    pub open spec fn with_setting(self, f: Field, v: Amount) -> Self {
        match (f, v) {
            (Field::Gain, Amount::Number(x)) => EngineParams { gain: x, ..self },
            (Field::AttackMs, Amount::Number(x)) => EngineParams { attack_ms: x, ..self },
            (Field::ReleaseMs, Amount::Number(x)) => EngineParams { release_ms: x, ..self },
            (Field::RetriggerMs, Amount::Number(x)) => EngineParams { retrigger_ms: x, ..self },
            _ => self,
        }
    }

    /// Changes a setting; does nothing where the setting takes no such value.
    pub fn set_setting(&mut self, f: Field, v: Amount)
        ensures
            *final(self) == old(self).with_setting(f, v),
    {
        match (f, v) {
            (Field::Gain, Amount::Number(x)) => self.gain = x,
            (Field::AttackMs, Amount::Number(x)) => self.attack_ms = x,
            (Field::ReleaseMs, Amount::Number(x)) => self.release_ms = x,
            (Field::RetriggerMs, Amount::Number(x)) => self.retrigger_ms = x,
            _ => {},
        }
    }
}

/// A setting of the engine is the field of its name.
pub proof fn engine_settings_are_fields(m: EngineParams)
    ensures
        m.setting(Field::Gain) == Some(Amount::Number(m.gain)),
        m.setting(Field::AttackMs) == Some(Amount::Number(m.attack_ms)),
        m.setting(Field::ReleaseMs) == Some(Amount::Number(m.release_ms)),
        m.setting(Field::RetriggerMs) == Some(Amount::Number(m.retrigger_ms)),
{
}

/// Changing a setting of the engine changes that one, to the value given, and no other; and
/// changing it back changes nothing.
pub proof fn engine_settings_are_apart(m: EngineParams, f: Field, g: Field, v: Amount)
    ensures
        m.setting(f) matches Some(w) ==> w.takes(v, f) ==> m.with_setting(f, v).setting(f)
            == Some(v),
        f != g ==> m.with_setting(f, v).setting(g) == m.setting(g),
        m.setting(f) matches Some(w) ==> m.with_setting(f, v).with_setting(f, w) == m,
        m.setting(f) is None ==> m.with_setting(f, v) == m,
{
}

/// Places are put into words where they have a name: the middle and the ends of a string,
/// the centre and the rim of a head.
pub proof fn places_have_names(at: Single)
    requires
        !at.is_nan(),
    ensures
        pluck_words(at) == Some("center (triangle)") <==> decimal(0_4800).lt(at) && at.le(
            decimal(0_5200),
        ),
        at.le(decimal(0_0800)) || decimal(0_9200).le(at) ==> pluck_words(at) is Some,
        decimal(0_0800).lt(at) && at.le(decimal(0_4800)) ==> pluck_words(at) is None,
        decimal(0_5200).lt(at) && at.lt(decimal(0_9200)) ==> pluck_words(at) is None,
        strike_words(at) is Some <==> at.lt(decimal(0_0500)) || decimal(0_9000).lt(at),
        strike_words(at) == Some("centre") <==> at.lt(decimal(0_0500)),
{
    vstd::arithmetic::power2::lemma2_to64();
    vstd::arithmetic::power2::lemma2_to64_rest();
    crate::decimal::decimal_is(0_0500, 28, 0x10000000, 0xCCCCCD);
    crate::decimal::decimal_is(0_0800, 27, 0x8000000, 0xA3D70A);
    crate::decimal::decimal_is(0_4800, 25, 0x2000000, 0xF5C28F);
    crate::decimal::decimal_is(0_5200, 24, 0x1000000, 0x851EB8);
    crate::decimal::decimal_is(0_9000, 24, 0x1000000, 0xE66666);
    crate::decimal::decimal_is(0_9200, 24, 0x1000000, 0xEB851F);
    reveal_strlit("center (triangle)");
    reveal_strlit("near end (saw)");
    reveal_strlit("centre");
    reveal_strlit("rim");
    assert("center (triangle)"@.len() != "near end (saw)"@.len());
    assert("centre"@.len() != "rim"@.len());
    crate::single::patterns_keep_their_order(
        Single { bits: PLACE_0_08 },
        Single { bits: PLACE_0_48 },
    );
    crate::single::patterns_keep_their_order(
        Single { bits: PLACE_0_48 },
        Single { bits: PLACE_0_52 },
    );
    crate::single::patterns_keep_their_order(
        Single { bits: PLACE_0_52 },
        Single { bits: PLACE_0_92 },
    );
    crate::single::patterns_keep_their_order(
        Single { bits: PLACE_0_05 },
        Single { bits: PLACE_0_90 },
    );
}

/// A slider shows the setting that it is made for between the ends that it is given, and so
/// on for the other kinds of controls; what is added to a control leaves the rest.
pub proof fn controls_show_what_they_are_made_for(
    field: Field,
    label: &'static str,
    lo: Single,
    hi: Single,
    least: usize,
    most: usize,
    section: &'static str,
    c: Control,
    words: &'static str,
    reading: Reading,
)
    ensures
        ({
            let s = slider_value(field, label, lo, hi, section);
            s.field == field && s.label == label && s.section == section && s.scale
                == (Scale::Slider { lo, hi, log: false }) && s.reading == Reading::Plain
        }),
        ({
            let s = counter_value(field, label, least, most, section);
            s.field == field && s.label == label && s.section == section && s.scale
                == (Scale::Count { lo: least, hi: most })
        }),
        toggle_value(field, label, section).field == field && toggle_value(
            field,
            label,
            section,
        ).scale == Scale::Toggle,
        pitch_value(field, label, section).field == field && pitch_value(
            field,
            label,
            section,
        ).scale == Scale::Pitch,
        c.unit_value(words).suffix == words && c.unit_value(words) == (Control {
            suffix: words,
            ..c
        }),
        c.with_hint_value(words).hint == words && c.with_hint_value(words) == (Control {
            hint: words,
            ..c
        }),
        c.reads_value(reading).reading == reading && c.reads_value(reading).field == c.field
            && c.reads_value(reading).scale == c.scale,
        c.scale matches Scale::Slider { lo: a, hi: b, .. } ==> (
        c.stretched_value().scale matches Scale::Slider { lo: x, hi: y, log } && x == a && y == b
            && log),
        c.stretched_value().field == c.field,
        c.stretched_value().label == c.label,
{
}

/// A choice offers what it is given, in order.
pub proof fn choices_offer_what_they_are_given(
    field: Field,
    label: &'static str,
    first: Pick,
    second: Pick,
    third: Option<Pick>,
    section: &'static str,
    name: &'static str,
    hint: &'static str,
)
    ensures
        choice_value(field, label, first, second, third, section).field == field,
        choice_value(field, label, first, second, third, section).label == label,
        choice_value(field, label, first, second, third, section).section == section,
        choice_value(field, label, first, second, third, section).scale matches Scale::Choice {
            first: a,
            second: b,
            third: c,
        } && a == first && b == second && c == third,
        pick_value(name, hint).name == name,
        pick_value(name, hint).hint == hint,
{
}

/// A setting takes any number, any flag and any count, except that valves and segments are
/// limited, and one of two choices, or of three for the way of playing; never a value of
/// another sort.
pub proof fn settings_take_their_own_sort(f: Field, v: Amount, x: Single, n: usize, t: bool, c: usize)
    ensures
        Amount::Number(x).takes(v, f) <==> v is Number,
        Amount::Flag(t).takes(v, f) <==> v is Flag,
        Amount::Count(n).takes(v, f) <==> (v matches Amount::Count(m) && (f != Field::ValveSteps || m
            <= 12) && (f != Field::Segments || 2 <= m <= 64)),
        Amount::Choice(c).takes(v, f) <==> (v matches Amount::Choice(m) && (m == 0 || m == 1 || m
            == 2 && f == Field::PlayMode)),
{
}

} // verus!
