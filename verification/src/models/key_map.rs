//! How a played key drives the components of an instrument graph.
//!
//! Frequencies and lengths are worked out by the caller and handed in as
//! [`KeyNumbers`]; which of them go where is decided here.

use crate::models::comp::{Comp, Param};
use crate::models::pure_string::PureString;
use crate::models::webster_horn::{PlayMode, WebsterHorn};
use crate::single;
use crate::single::{Single, ONE, ZERO};
use vstd::prelude::*;

verus! {

/// The bit pattern of 0.3: how far the register vent opens when overblown.
pub const VENT_OPEN: u32 = 0x3E99_999A;

/// How the played key drives one component.
#[allow(inconsistent_fields)]
pub enum KeyMapKind {
    /// A parameter follows a power of the pitch.
    Power {
        /// The name of the parameter.
        param: String,
        /// The exponent.
        amount: Single,
    },
    /// An overblown bore length puts a harmonic on the key.
    Overblow {
        /// Fundamental of the longest bore, Hz.
        anchor_hz: Single,
        /// Tube-length steps.
        steps: u32,
        /// Whether notes are nudged into tune.
        microtune: bool,
    },
    /// Like `Overblow`, with a calibrated length correction for each note.
    OverblowTuned {
        /// The lowest note, Hz.
        anchor_hz: Single,
        /// Semitones in a register; 0 is the natural interval of the bore.
        steps: Single,
        /// The length correction for each MIDI note.
        table: Vec<Single>,
    },
}

/// A key map, as a value.
#[allow(inconsistent_fields)]
pub ghost enum KeyMapView {
    Power { param: Seq<char>, amount: Single },
    Overblow { anchor_hz: Single, steps: u32, microtune: bool },
    OverblowTuned { anchor_hz: Single, steps: Single, table: Seq<Single> },
}

impl View for KeyMapKind {
    type V = KeyMapView;

    open spec fn view(&self) -> KeyMapView {
        match *self {
            KeyMapKind::Power { param, amount } => KeyMapView::Power { param: param@, amount },
            KeyMapKind::Overblow { anchor_hz, steps, microtune } => KeyMapView::Overblow {
                anchor_hz,
                steps,
                microtune,
            },
            KeyMapKind::OverblowTuned { anchor_hz, steps, table } => KeyMapView::OverblowTuned {
                anchor_hz,
                steps,
                table: table@,
            },
        }
    }
}

impl KeyMapKind {
    /// What the editor calls this strategy.
    pub open spec fn label_text(self) -> Seq<char> {
        match self {
            KeyMapKind::Power { .. } => "Chromatic / power"@,
            KeyMapKind::Overblow { .. } => "Overblow + steps"@,
            KeyMapKind::OverblowTuned { .. } => "Overblow + calibrated tuning"@,
        }
    }

    /// What the editor calls this strategy.
    pub fn label(&self) -> (r: &'static str)
        ensures
            r@ == self.label_text(),
    {
        match self {
            KeyMapKind::Power { .. } => "Chromatic / power",
            KeyMapKind::Overblow { .. } => "Overblow + steps",
            KeyMapKind::OverblowTuned { .. } => "Overblow + calibrated tuning",
        }
    }
}

impl Clone for KeyMapKind {
    fn clone(&self) -> (r: Self)
        ensures
            r@ == self@,
    {
        match self {
            KeyMapKind::Power { param, amount } => KeyMapKind::Power {
                param: param.clone(),
                amount: *amount,
            },
            KeyMapKind::Overblow { anchor_hz, steps, microtune } => KeyMapKind::Overblow {
                anchor_hz: *anchor_hz,
                steps: *steps,
                microtune: *microtune,
            },
            KeyMapKind::OverblowTuned { anchor_hz, steps, table } => {
                let copy = table.clone();
                assert(copy@ =~= table@);
                KeyMapKind::OverblowTuned { anchor_hz: *anchor_hz, steps: *steps, table: copy }
            },
        }
    }
}

/// One key-to-component binding.
pub struct KeyBinding {
    /// The component that the key drives.
    pub component: usize,
    /// How it drives it.
    pub map: KeyMapKind,
}

/// A binding, as a value.
pub ghost struct KeyBindingView {
    pub component: usize,
    pub map: KeyMapView,
}

impl View for KeyBinding {
    type V = KeyBindingView;

    open spec fn view(&self) -> KeyBindingView {
        KeyBindingView { component: self.component, map: self.map@ }
    }
}

/// What the caller worked out for one binding, one component and one played note.
#[derive(Clone, Copy, Debug, PartialEq, Eq, Structural)]
pub struct KeyNumbers {
    /// The driven parameter's value, scaled by the power of the pitch.
    pub scaled: Single,
    /// Whether the note lies below the register break.
    pub low_register: bool,
    /// Whether the note lies below the range of a reed.
    pub below_range: bool,
    /// The register that the note falls in, 0 being the fundamental.
    pub register: u32,
    /// The bore length for the note.
    pub length: Single,
    /// The blowing pressure, nudged into tune.
    pub pressure: Single,
    /// The MIDI note nearest to the played pitch.
    pub note: usize,
    /// The bore length, corrected by that note's entry of the calibration table.
    pub tuned_length: Single,
}

/// The harmonic that a coupled reed plays in register `r`: a cone climbs
/// 1, 2, 3 and on, a cylinder the odd harmonics; without a voiced vocal tract it
/// stays at its first overblow.
pub open spec fn reed_harmonic(conical: bool, voiced: bool, r: int) -> int {
    if r < 1 {
        1
    } else if !voiced {
        if conical {
            2
        } else {
            3
        }
    } else if conical {
        r + 1
    } else {
        2 * r + 1
    }
}

impl Comp {
    /// A reed coupled to its bore.
    pub open spec fn coupled_reed(self) -> bool {
        self is ReedBore || self is DoubleReed
    }

    /// Whether this is a reed coupled to its bore.
    pub fn is_coupled_reed(&self) -> (r: bool)
        ensures
            r == self.coupled_reed(),
    {
        match self {
            Comp::ReedBore { .. } => true,
            Comp::DoubleReed { .. } => true,
            _ => false,
        }
    }

    /// The harmonic that this component plays in register `r`.
    pub open spec fn harmonic_in(self, r: int) -> int {
        match self {
            Comp::ReedBore { conical, tract_gain, .. } => reed_harmonic(
                conical,
                (Single { bits: ZERO }).lt(tract_gain),
                r,
            ),
            Comp::DoubleReed { conical, tract_gain, .. } => reed_harmonic(
                conical,
                (Single { bits: ZERO }).lt(tract_gain),
                r,
            ),
            _ => 1,
        }
    }

    /// The harmonic that this component plays in register `r`: the bore sounds its
    /// fundamental at the played pitch divided by this.
    pub fn harmonic(&self, r: u32) -> (h: u32)
        requires
            r < 0x40_0000,
        ensures
            h == self.harmonic_in(r as int),
            0 < h < 0x100_0000,
    {
        let zero = Single { bits: ZERO };
        let (conical, voiced) = match self {
            Comp::ReedBore { conical, tract_gain, .. } => (*conical, zero.less(*tract_gain)),
            Comp::DoubleReed { conical, tract_gain, .. } => (*conical, zero.less(*tract_gain)),
            _ => {
                return 1;
            },
        };
        if r < 1 {
            1
        } else if !voiced {
            if conical {
                2
            } else {
                3
            }
        } else if conical {
            r + 1
        } else {
            2 * r + 1
        }
    }

    /// A coupled reed set to register `r` with the bore length `len`: the vent is
    /// closed in the fundamental register and open above it. Other components stay.
    pub open spec fn in_register(self, r: int, len: Single) -> Comp {
        let vent = Single {
            bits: if r < 1 {
                ZERO
            } else {
                VENT_OPEN
            },
        };
        let ratio = if r < 1 {
            Single { bits: ONE }
        } else {
            single::whole_of(self.harmonic_in(r))
        };
        match self {
            Comp::ReedBore { pressure, stiffness, tone, conical, tract_gain, tract_q, .. } => {
                Comp::ReedBore {
                    pressure,
                    stiffness,
                    length: len,
                    tone,
                    register: vent,
                    overblow: ratio,
                    conical,
                    tract_gain,
                    tract_q,
                }
            },
            Comp::DoubleReed { pressure, stiffness, tone, conical, tract_gain, tract_q, .. } => {
                Comp::DoubleReed {
                    pressure,
                    stiffness,
                    length: len,
                    tone,
                    register: vent,
                    overblow: ratio,
                    conical,
                    tract_gain,
                    tract_q,
                }
            },
            _ => self,
        }
    }

    /// Sets a coupled reed to register `r` with the bore length `len`.
    pub fn set_reed_register(&mut self, r: u32, len: Single)
        requires
            r < 0x40_0000,
        ensures
            *final(self) == old(self).in_register(r as int, len),
    {
        let vent = if r < 1 {
            Single { bits: ZERO }
        } else {
            Single { bits: VENT_OPEN }
        };
        let h: u32 = self.harmonic(r);
        let ratio = if r < 1 {
            Single { bits: ONE }
        } else {
            single::whole(h)
        };
        match *self {
            Comp::ReedBore { pressure, stiffness, tone, conical, tract_gain, tract_q, .. } => {
                *self = Comp::ReedBore {
                    pressure,
                    stiffness,
                    length: len,
                    tone,
                    register: vent,
                    overblow: ratio,
                    conical,
                    tract_gain,
                    tract_q,
                };
            },
            Comp::DoubleReed { pressure, stiffness, tone, conical, tract_gain, tract_q, .. } => {
                *self = Comp::DoubleReed {
                    pressure,
                    stiffness,
                    length: len,
                    tone,
                    register: vent,
                    overblow: ratio,
                    conical,
                    tract_gain,
                    tract_q,
                };
            },
            _ => {},
        }
    }

    /// This component set to the pitch of a note: a coupled reed by its register,
    /// any other component that has a length by that length.
    pub open spec fn at_pitch(self, r: int, len: Single) -> Comp {
        if self.coupled_reed() {
            self.in_register(r, len)
        } else {
            self.with_param(Param::Length, len)
        }
    }

    /// Sets this component to the pitch of a note.
    pub fn set_pitch_geometry(&mut self, r: u32, len: Single)
        requires
            r < 0x40_0000,
        ensures
            *final(self) == old(self).at_pitch(r as int, len),
    {
        if self.is_coupled_reed() {
            self.set_reed_register(r, len);
        } else {
            self.write(Param::Length, len);
        }
    }

    /// This component set to overblow: a horn tracks the key from its anchor, a
    /// single reed lifts its vent above the register break and, if it is to be
    /// nudged into tune, takes the nudged pressure. Other components stay.
    pub open spec fn overblown(
        self,
        anchor: Single,
        steps: u32,
        microtune: bool,
        x: KeyNumbers,
    ) -> Comp {
        match self {
            Comp::Horn(m) => Comp::Horn(
                WebsterHorn {
                    play_mode: PlayMode::OverblowTracked,
                    key_tracks_pitch: true,
                    overblow_anchor_hz: anchor,
                    valve_steps: steps,
                    overblow_microtune: microtune,
                    ..m
                },
            ),
            Comp::ReedBore { pressure, stiffness, tone, overblow, conical, tract_gain, tract_q, .. } => {
                Comp::ReedBore {
                    pressure: if microtune {
                        x.pressure
                    } else {
                        pressure
                    },
                    stiffness,
                    length: x.length,
                    tone,
                    register: Single {
                        bits: if x.low_register {
                            ZERO
                        } else {
                            VENT_OPEN
                        },
                    },
                    overblow,
                    conical,
                    tract_gain,
                    tract_q,
                }
            },
            _ => self,
        }
    }

    /// Sets this component to overblow; see [`Comp::overblown`].
    pub fn set_overblow(&mut self, anchor: Single, steps: u32, microtune: bool, x: KeyNumbers)
        ensures
            *final(self) == old(self).overblown(anchor, steps, microtune, x),
    {
        match *self {
            Comp::Horn(m) => {
                *self = Comp::Horn(
                    WebsterHorn {
                        play_mode: PlayMode::OverblowTracked,
                        key_tracks_pitch: true,
                        overblow_anchor_hz: anchor,
                        valve_steps: steps,
                        overblow_microtune: microtune,
                        ..m
                    },
                );
            },
            Comp::ReedBore { pressure, stiffness, tone, overblow, conical, tract_gain, tract_q, .. } => {
                let register = if x.low_register {
                    Single { bits: ZERO }
                } else {
                    Single { bits: VENT_OPEN }
                };
                let blown = if microtune {
                    x.pressure
                } else {
                    pressure
                };
                *self = Comp::ReedBore {
                    pressure: blown,
                    stiffness,
                    length: x.length,
                    tone,
                    register,
                    overblow,
                    conical,
                    tract_gain,
                    tract_q,
                };
            },
            _ => {},
        }
    }

    /// A horn that no longer tracks the key by itself. Other components stay.
    pub open spec fn untracked(self) -> Comp {
        match self {
            Comp::Horn(m) => Comp::Horn(WebsterHorn { key_tracks_pitch: false, ..m }),
            _ => self,
        }
    }

    /// What this component becomes when a key drives it.
    pub open spec fn driven(self, map: KeyMapView, x: KeyNumbers) -> Comp {
        match map {
            KeyMapView::Power { param, .. } => match Param::named(param) {
                Some(p) => self.with_param(p, x.scaled).untracked(),
                None => self.untracked(),
            },
            KeyMapView::Overblow { anchor_hz, steps, microtune } => self.overblown(
                anchor_hz,
                steps,
                microtune,
                x,
            ),
            KeyMapView::OverblowTuned { table, .. } => {
                if self.coupled_reed() && x.below_range {
                    self.with_param(Param::Pressure, Single { bits: ZERO })
                } else if x.note < table.len() {
                    self.at_pitch(x.register as int, x.length).with_param(
                        Param::Length,
                        x.tuned_length,
                    )
                } else {
                    self.at_pitch(x.register as int, x.length)
                }
            },
        }
    }

    /// Lets a key drive this component.
    pub fn drive(&mut self, map: &KeyMapKind, x: KeyNumbers)
        requires
            x.register < 0x40_0000,
        ensures
            *final(self) == old(self).driven(map@, x),
    {
        match map {
            KeyMapKind::Power { param, .. } => {
                if let Some(p) = Param::parse(param.as_str()) {
                    self.write(p, x.scaled);
                }
                if let Comp::Horn(m) = *self {
                    *self = Comp::Horn(WebsterHorn { key_tracks_pitch: false, ..m });
                }
            },
            KeyMapKind::Overblow { anchor_hz, steps, microtune } => {
                self.set_overblow(*anchor_hz, *steps, *microtune, x);
            },
            KeyMapKind::OverblowTuned { table, .. } => {
                if self.is_coupled_reed() && x.below_range {
                    self.write(Param::Pressure, Single { bits: ZERO });
                } else {
                    self.set_pitch_geometry(x.register, x.length);
                    if x.note < table.len() {
                        self.write(Param::Length, x.tuned_length);
                    }
                }
            },
        }
    }
}

/// The components after one binding has driven its component; a binding to a
/// component that is not there does nothing.
pub open spec fn after_binding(
    comps: Seq<Comp>,
    kb: KeyBindingView,
    x: KeyNumbers,
) -> Seq<Comp> {
    if kb.component < comps.len() {
        comps.update(kb.component as int, comps[kb.component as int].driven(kb.map, x))
    } else {
        comps
    }
}

/// Lets one binding drive its component.
pub fn drive_binding(comps: &mut Vec<Comp>, kb: &KeyBinding, x: KeyNumbers)
    requires
        x.register < 0x40_0000,
    ensures
        final(comps)@ == after_binding(old(comps)@, kb@, x),
{
    if kb.component < comps.len() {
        let mut c: Comp = comps[kb.component];
        c.drive(&kb.map, x);
        comps.set(kb.component, c);
    }
}

/// The harmonics that a reed can reach: the fundamental in register 0, and from there a
/// cone one harmonic, a cylinder two harmonics further with each register if its vocal
/// tract is voiced, and only with the first if not.
pub proof fn registers_climb_the_harmonics(conical: bool, voiced: bool, r: int)
    requires
        r >= 0,
    ensures
        reed_harmonic(conical, voiced, 0) == 1,
        voiced || r == 0 ==> reed_harmonic(conical, voiced, r + 1) - reed_harmonic(
            conical,
            voiced,
            r,
        ) == if conical {
            1int
        } else {
            2
        },
        !voiced && r >= 1 ==> reed_harmonic(conical, voiced, r) == if conical {
            2int
        } else {
            3
        },
{
}

/// The fields of a single reed coupled to a bore of `length`, whose vent is open above
/// the fundamental register alone and which sounds harmonic `h`; the rest is as in `c`.
pub open spec fn single_reed_sounds(c: Comp, d: Comp, open: bool, h: int, length: Single) -> bool {
    &&& c is ReedBore && d is ReedBore
    &&& d->ReedBore_length == length
    &&& d->ReedBore_register.bits == if open {
        0x3E99_999Au32
    } else {
        0u32
    }
    &&& d->ReedBore_overblow.value() == h * single::one_value()
    &&& !d->ReedBore_overblow.is_nan()
    &&& d->ReedBore_pressure == c->ReedBore_pressure
    &&& d->ReedBore_stiffness == c->ReedBore_stiffness
    &&& d->ReedBore_tone == c->ReedBore_tone
    &&& d->ReedBore_conical == c->ReedBore_conical
    &&& d->ReedBore_tract_gain == c->ReedBore_tract_gain
    &&& d->ReedBore_tract_q == c->ReedBore_tract_q
}

/// The same of a double reed.
pub open spec fn double_reed_sounds(c: Comp, d: Comp, open: bool, h: int, length: Single) -> bool {
    &&& c is DoubleReed && d is DoubleReed
    &&& d->DoubleReed_length == length
    &&& d->DoubleReed_register.bits == if open {
        0x3E99_999Au32
    } else {
        0u32
    }
    &&& d->DoubleReed_overblow.value() == h * single::one_value()
    &&& !d->DoubleReed_overblow.is_nan()
    &&& d->DoubleReed_pressure == c->DoubleReed_pressure
    &&& d->DoubleReed_stiffness == c->DoubleReed_stiffness
    &&& d->DoubleReed_tone == c->DoubleReed_tone
    &&& d->DoubleReed_conical == c->DoubleReed_conical
    &&& d->DoubleReed_tract_gain == c->DoubleReed_tract_gain
    &&& d->DoubleReed_tract_q == c->DoubleReed_tract_q
}

/// A tuned key sets a single reed to the register that the note falls in: in the
/// fundamental one the vent is shut and it sounds its first harmonic; above it the vent
/// is open, and it sounds the third if it is a cylinder, the second if it is a cone, or
/// climbs with the register if its tract is voiced. Its length is the one corrected for
/// the note if the table has the note, and the plain one if not. Below its range it is
/// not blown at all.
pub proof fn tuned_keys_set_the_register_of_a_single_reed(
    c: Comp,
    anchor: Single,
    steps: Single,
    table: Seq<Single>,
    x: KeyNumbers,
)
    requires
        c is ReedBore,
        x.register < 0x40_0000,
    ensures
        ({
            let d = c.driven(KeyMapView::OverblowTuned { anchor_hz: anchor, steps, table }, x);
            let length = if x.note < table.len() {
                x.tuned_length
            } else {
                x.length
            };
            let voiced = (Single { bits: 0 }).lt(c->ReedBore_tract_gain);
            let r = x.register as int;
            if x.below_range {
                &&& d is ReedBore
                &&& d->ReedBore_pressure.bits == 0
                &&& d->ReedBore_length == c->ReedBore_length
                &&& d->ReedBore_register == c->ReedBore_register
                &&& d->ReedBore_overblow == c->ReedBore_overblow
                &&& d->ReedBore_stiffness == c->ReedBore_stiffness
                &&& d->ReedBore_tone == c->ReedBore_tone
                &&& d->ReedBore_conical == c->ReedBore_conical
                &&& d->ReedBore_tract_gain == c->ReedBore_tract_gain
                &&& d->ReedBore_tract_q == c->ReedBore_tract_q
            } else if r == 0 {
                single_reed_sounds(c, d, false, 1, length) && d->ReedBore_overblow.bits
                    == 0x3F80_0000
            } else if !voiced && c->ReedBore_conical {
                single_reed_sounds(c, d, true, 2, length) && d->ReedBore_overblow.bits
                    == 0x4000_0000
            } else if !voiced {
                single_reed_sounds(c, d, true, 3, length) && d->ReedBore_overblow.bits
                    == 0x4040_0000
            } else if c->ReedBore_conical {
                single_reed_sounds(c, d, true, 1 + r, length)
            } else {
                single_reed_sounds(c, d, true, 1 + r + r, length)
            }
        }),
{
    let h = c.harmonic_in(x.register as int);
    single::wholes_are_exact(1);
    single::wholes_are_exact(h);
    single::small_wholes();
}

/// A tuned key sets a double reed to the register that the note falls in, as it does a
/// single reed.
pub proof fn tuned_keys_set_the_register_of_a_double_reed(
    c: Comp,
    anchor: Single,
    steps: Single,
    table: Seq<Single>,
    x: KeyNumbers,
)
    requires
        c is DoubleReed,
        x.register < 0x40_0000,
    ensures
        ({
            let d = c.driven(KeyMapView::OverblowTuned { anchor_hz: anchor, steps, table }, x);
            let length = if x.note < table.len() {
                x.tuned_length
            } else {
                x.length
            };
            let voiced = (Single { bits: 0 }).lt(c->DoubleReed_tract_gain);
            let r = x.register as int;
            if x.below_range {
                &&& d is DoubleReed
                &&& d->DoubleReed_pressure.bits == 0
                &&& d->DoubleReed_length == c->DoubleReed_length
                &&& d->DoubleReed_register == c->DoubleReed_register
                &&& d->DoubleReed_overblow == c->DoubleReed_overblow
                &&& d->DoubleReed_stiffness == c->DoubleReed_stiffness
                &&& d->DoubleReed_tone == c->DoubleReed_tone
                &&& d->DoubleReed_conical == c->DoubleReed_conical
                &&& d->DoubleReed_tract_gain == c->DoubleReed_tract_gain
                &&& d->DoubleReed_tract_q == c->DoubleReed_tract_q
            } else if r == 0 {
                double_reed_sounds(c, d, false, 1, length) && d->DoubleReed_overblow.bits
                    == 0x3F80_0000
            } else if !voiced && c->DoubleReed_conical {
                double_reed_sounds(c, d, true, 2, length) && d->DoubleReed_overblow.bits
                    == 0x4000_0000
            } else if !voiced {
                double_reed_sounds(c, d, true, 3, length) && d->DoubleReed_overblow.bits
                    == 0x4040_0000
            } else if c->DoubleReed_conical {
                double_reed_sounds(c, d, true, 1 + r, length)
            } else {
                double_reed_sounds(c, d, true, 1 + r + r, length)
            }
        }),
{
    let h = c.harmonic_in(x.register as int);
    single::wholes_are_exact(1);
    single::wholes_are_exact(h);
    single::small_wholes();
}

/// A tuned key sets the length of every other component that has one, to the corrected
/// length if the table has the note and to the plain one if not, and leaves those without
/// a length as they are.
pub proof fn tuned_keys_set_the_length_of_the_rest(
    c: Comp,
    anchor: Single,
    steps: Single,
    table: Seq<Single>,
    x: KeyNumbers,
)
    requires
        !(c is ReedBore),
        !(c is DoubleReed),
    ensures
        ({
            let d = c.driven(KeyMapView::OverblowTuned { anchor_hz: anchor, steps, table }, x);
            let length = if x.note < table.len() {
                x.tuned_length
            } else {
                x.length
            };
            match c {
                Comp::String(m) => d matches Comp::String(n) && n == (PureString {
                    length_m: length,
                    ..m
                }),
                Comp::Horn(m) => d matches Comp::Horn(n) && n == (WebsterHorn { length, ..m }),
                Comp::Lips { pressure, tension, tone, .. } => d == (Comp::Lips {
                    pressure,
                    tension,
                    length,
                    tone,
                }),
                Comp::AirJet { pressure, jet_ratio, tone, .. } => d == (Comp::AirJet {
                    pressure,
                    jet_ratio,
                    tone,
                    length,
                }),
                Comp::Bore { tone, .. } => d == (Comp::Bore { tone, length }),
                Comp::WaveguideHorn { r1, r2, r3, segments, tone, .. } => d
                    == (Comp::WaveguideHorn { r1, r2, r3, length, segments, tone }),
                _ => d == c,
            }
        }),
{
}

/// An untuned overblown key lifts the vent of a single reed above the register break and
/// shuts it below, sets its length, and blows it with the nudged pressure if it is nudged
/// into tune; the harmonic stays. A horn is told to track the key from its anchor. Nothing
/// else changes.
pub proof fn overblown_keys_lift_the_vent(
    c: Comp,
    anchor: Single,
    steps: u32,
    microtune: bool,
    x: KeyNumbers,
)
    ensures
        ({
            let d = c.driven(KeyMapView::Overblow { anchor_hz: anchor, steps, microtune }, x);
            match c {
                Comp::ReedBore { .. } => {
                    &&& d is ReedBore
                    &&& d->ReedBore_length == x.length
                    &&& x.low_register ==> d->ReedBore_register.bits == 0
                    &&& !x.low_register ==> d->ReedBore_register.bits == 0x3E99_999A
                    &&& microtune ==> d->ReedBore_pressure == x.pressure
                    &&& !microtune ==> d->ReedBore_pressure == c->ReedBore_pressure
                    &&& d->ReedBore_overblow == c->ReedBore_overblow
                    &&& d->ReedBore_stiffness == c->ReedBore_stiffness
                    &&& d->ReedBore_tone == c->ReedBore_tone
                    &&& d->ReedBore_conical == c->ReedBore_conical
                    &&& d->ReedBore_tract_gain == c->ReedBore_tract_gain
                    &&& d->ReedBore_tract_q == c->ReedBore_tract_q
                },
                Comp::Horn(m) => d matches Comp::Horn(n) && n.play_mode
                    == PlayMode::OverblowTracked && n.key_tracks_pitch && n.overblow_anchor_hz
                    == anchor && n.valve_steps == steps && n.overblow_microtune == microtune && n
                    == (WebsterHorn {
                    play_mode: n.play_mode,
                    key_tracks_pitch: n.key_tracks_pitch,
                    overblow_anchor_hz: n.overblow_anchor_hz,
                    valve_steps: n.valve_steps,
                    overblow_microtune: n.overblow_microtune,
                    ..m
                }),
                _ => d == c,
            }
        }),
{
}

/// A key that drives a parameter by a power of the pitch puts the scaled value there, as
/// far as the component has that parameter, and leaves its other parameters; a horn no
/// longer tracks the key besides. A name that is no parameter's drives nothing.
pub proof fn power_keys_set_their_parameter(c: Comp, p: Param, amount: Single, x: KeyNumbers)
    ensures
        ({
            let d = c.driven(KeyMapView::Power { param: p.text(), amount }, x);
            &&& c.param(p) is Some && p != Param::Hardness && p != Param::Decay ==> d.param(p)
                == Some(x.scaled)
            &&& c.param(p) is Some && p == Param::Decay && !(c is PluckedString)
                && !(c is HammeredString) ==> d.param(p) == Some(x.scaled)
            &&& forall|q: Param| q != p ==> #[trigger] d.param(q) == c.param(q)
            &&& c.param(p) is None && !(c is Horn) ==> d == c
            &&& d matches Comp::Horn(m) ==> !m.key_tracks_pitch
        }),
{
    names_are_found(p);
}

/// Every parameter is found again under its name, so no two share one.
pub proof fn names_are_found(p: Param)
    ensures
        Param::named(p.text()) == Some(p),
{
    reveal_strlit("length");
    reveal_strlit("tension");
    reveal_strlit("decay");
    reveal_strlit("radius");
    reveal_strlit("ring");
    reveal_strlit("top_hz");
    reveal_strlit("register");
    reveal_strlit("pressure");
    reveal_strlit("freq");
    reveal_strlit("hardness");
    reveal_strlit("felt");
    assert("length"@.len() == 6 && "length"@[0] == 'l');
    assert("tension"@.len() == 7);
    assert("decay"@.len() == 5);
    assert("radius"@.len() == 6 && "radius"@[0] == 'r');
    assert("ring"@.len() == 4 && "ring"@[0] == 'r');
    assert("top_hz"@.len() == 6 && "top_hz"@[0] == 't');
    assert("register"@.len() == 8 && "register"@[0] == 'r');
    assert("pressure"@.len() == 8 && "pressure"@[0] == 'p');
    assert("freq"@.len() == 4 && "freq"@[0] == 'f' && "freq"@[1] == 'r');
    assert("hardness"@.len() == 8 && "hardness"@[0] == 'h');
    assert("felt"@.len() == 4 && "felt"@[0] == 'f' && "felt"@[1] == 'e');
}

/// A binding changes the component that it names and no other.
pub proof fn bindings_drive_their_component_alone(
    comps: Seq<Comp>,
    kb: KeyBindingView,
    x: KeyNumbers,
    i: int,
)
    requires
        0 <= i < comps.len(),
    ensures
        after_binding(comps, kb, x).len() == comps.len(),
        i != kb.component ==> after_binding(comps, kb, x)[i] == comps[i],
        i == kb.component ==> after_binding(comps, kb, x)[i] == comps[i].driven(kb.map, x),
{
}

/// A key can drive exactly the parameters that a component lists.
pub proof fn drivable_parameters_are_readable(c: Comp, p: Param)
    ensures
        c.drivable().contains(p) <==> c.param(p) is Some,
{
    let d = c.drivable();
    if d.len() > 0 && d[0] == p {
        assert(d.contains(p));
    }
    if d.len() > 1 && d[1] == p {
        assert(d.contains(p));
    }
    if d.len() > 2 && d[2] == p {
        assert(d.contains(p));
    }
}

/// What was set is read back; only a hammer's hardness and a waveguide string's
/// decay are first moved into their range.
pub proof fn set_parameter_reads_back(c: Comp, p: Param, v: Single)
    requires
        c.param(p) is Some,
    ensures
        p != Param::Hardness && !(p == Param::Decay && (c is PluckedString || c is HammeredString))
            ==> c.with_param(p, v).param(p) == Some(v),
        p == Param::Hardness ==> c.with_param(p, v).param(p) == Some(
            v.clamped(Single { bits: ZERO }, Single { bits: ONE }),
        ),
        p == Param::Decay && (c is PluckedString || c is HammeredString) ==> c.with_param(
            p,
            v,
        ).param(p) == Some(v.larger(Single { bits: crate::models::comp::SHORTEST_DECAY })),
{
}

/// Setting one parameter leaves the others.
pub proof fn setting_a_parameter_leaves_the_others(c: Comp, p: Param, q: Param, v: Single)
    requires
        p != q,
    ensures
        c.with_param(p, v).param(q) == c.param(q),
{
}

/// Driving a component never turns it into another kind, nor an exciter into a
/// resonator.
pub proof fn driving_keeps_the_kind(c: Comp, map: KeyMapView, x: KeyNumbers)
    ensures
        c.driven(map, x).excites() == c.excites(),
        c.driven(map, x).label_text() == c.label_text(),
        c.driven(map, x).drivable() == c.drivable(),
{
}

/// Setting a parameter and setting it back changes nothing: no other part of the component
/// is touched. (A hammer's hardness has to lie in its range to begin with, and a waveguide
/// string's decay above the shortest.)
pub proof fn setting_back_undoes(c: Comp, p: Param, v: Single)
    requires
        c.param(p) is Some,
        p == Param::Hardness ==> (Single { bits: ZERO }).le(c.param(p).unwrap())
            && c.param(p).unwrap().le(Single { bits: ONE }),
        p == Param::Decay && (c is PluckedString || c is HammeredString) ==> (Single {
            bits: crate::models::comp::SHORTEST_DECAY,
        }).le(c.param(p).unwrap()),
    ensures
        c.with_param(p, v).with_param(p, c.param(p).unwrap()) == c,
        c.with_param(p, v).param(p) == c.param(p) ==> c.with_param(p, v) == c,
{
}

/// A parameter that a component does not have cannot be set.
pub proof fn missing_parameters_are_not_set(c: Comp, p: Param, v: Single)
    requires
        c.param(p) is None,
    ensures
        c.with_param(p, v) == c,
{
}

/// A parameter is the field of its name: the length of what has a length, the tension of
/// what is tensioned, and so on; a plate's ring is its decay time.
pub proof fn parameters_are_fields(c: Comp)
    ensures
        c matches Comp::String(m) ==> c.param(Param::Length) == Some(m.length_m) && c.param(
            Param::Tension,
        ) == Some(m.tension_n) && c.param(Param::Decay) == Some(m.decay_time),
        c matches Comp::Membrane(m) ==> c.param(Param::Tension) == Some(m.tension_nm) && c.param(
            Param::Radius,
        ) == Some(m.radius_m) && c.param(Param::Decay) == Some(m.decay_time),
        c matches Comp::Plate(m) ==> c.param(Param::Ring) == Some(m.decay_time),
        c matches Comp::Body { top_hz, decay_s, .. } ==> c.param(Param::TopHz) == Some(top_hz)
            && c.param(Param::Decay) == Some(decay_s),
        c matches Comp::Horn(m) ==> c.param(Param::Length) == Some(m.length),
        c matches Comp::WaveguideHorn { length, .. } ==> c.param(Param::Length) == Some(length),
        c matches Comp::Bore { length, .. } ==> c.param(Param::Length) == Some(length),
        c matches Comp::ReedBore { length, register, pressure, .. } ==> c.param(Param::Length)
            == Some(length) && c.param(Param::Register) == Some(register) && c.param(
            Param::Pressure,
        ) == Some(pressure),
        c matches Comp::DoubleReed { length, register, pressure, .. } ==> c.param(Param::Length)
            == Some(length) && c.param(Param::Register) == Some(register) && c.param(
            Param::Pressure,
        ) == Some(pressure),
        c matches Comp::Lips { length, tension, .. } ==> c.param(Param::Length) == Some(length)
            && c.param(Param::Tension) == Some(tension),
        c matches Comp::AirJet { length, .. } ==> c.param(Param::Length) == Some(length),
        c matches Comp::Reed { freq_hz, .. } ==> c.param(Param::Freq) == Some(freq_hz),
        c matches Comp::Hammer { hardness, felt } ==> c.param(Param::Hardness) == Some(hardness)
            && c.param(Param::Felt) == Some(felt),
        c matches Comp::PluckedString { decay, .. } ==> c.param(Param::Decay) == Some(decay),
        c matches Comp::HammeredString { hardness, decay, .. } ==> c.param(Param::Hardness)
            == Some(hardness) && c.param(Param::Decay) == Some(decay),
{
}

/// Every component is a source of energy or one of those that only pass it on: strings,
/// heads, plates, bells and cymbals by their modes, bodies, wires, air columns and the
/// mixer. What has modes, or a resting pitch, is never a source.
pub proof fn what_resonates_does_not_excite(c: Comp)
    ensures
        c.excites() <==> !(c is String || c is Membrane || c is Plate || c is MusicalString
            || c is Bell || c is Cymbal || c is Body || c is Wires || c is Horn || c is Bore
            || c is WaveguideHorn || c is Mix),
        c.modal() ==> !c.excites(),
        c.modal() <==> !c.excites() && !(c is Body || c is Wires || c is Bore || c is WaveguideHorn
            || c is Mix),
        c.has_resting_pitch() <==> c is String || c is Membrane,
        c.has_resting_pitch() ==> c.modal(),
        c.coupled_reed() <==> c.param(Param::Register) is Some,
{
}

/// The constants are the bit patterns of these decimals.
pub proof fn key_map_constants_are()
    ensures
        (Single { bits: VENT_OPEN }) == crate::decimal::decimal(0_3000),
{
    vstd::arithmetic::power2::lemma2_to64();
    vstd::arithmetic::power2::lemma2_to64_rest();
    crate::decimal::decimal_is(0_3000, 25, 0x2000000, 0x99999A);
}

/// A key that drives by a power of the pitch touches nothing but the parameter that it is
/// bound to: putting the old value back gives the component back. Of a horn it sets the
/// length, if bound to that, and stops its own tracking.
pub proof fn power_keys_touch_nothing_else(c: Comp, p: Param, amount: Single, x: KeyNumbers)
    ensures
        ({
            let d = c.driven(KeyMapView::Power { param: p.text(), amount }, x);
            &&& !(c is Horn) && c.param(p) is Some && p != Param::Hardness && p != Param::Decay
                ==> d.with_param(p, c.param(p).unwrap()) == c
            &&& !(c is Horn) && c.param(p) is Some && p == Param::Decay && !(c is PluckedString)
                && !(c is HammeredString) ==> d.with_param(p, c.param(p).unwrap()) == c
            &&& c matches Comp::Horn(m) ==> (d matches Comp::Horn(n) && n == (WebsterHorn {
                length: if p == Param::Length {
                    x.scaled
                } else {
                    m.length
                },
                key_tracks_pitch: false,
                ..m
            }))
            &&& c matches Comp::Hammer { felt, .. } ==> p == Param::Hardness ==> (
            d matches Comp::Hammer { hardness, felt: f } && f == felt && ((Single { bits: 0 }).le(
                x.scaled,
            ) && x.scaled.le(Single { bits: 0x3F80_0000 }) ==> hardness == x.scaled))
            &&& c is PluckedString && p == Param::Decay ==> d is PluckedString && (
            (Single { bits: 0x3D4C_CCCD }).le(x.scaled) ==> d->PluckedString_decay == x.scaled)
        }),
{
    names_are_found(p);
}

/// A name that belongs to no parameter drives nothing; a horn still stops tracking.
pub proof fn unknown_names_drive_nothing(c: Comp, name: Seq<char>, amount: Single, x: KeyNumbers)
    requires
        forall|p: Param| #[trigger] p.text() != name,
    ensures
        !(c is Horn) ==> c.driven(KeyMapView::Power { param: name, amount }, x) == c,
        c matches Comp::Horn(m) ==> c.driven(KeyMapView::Power { param: name, amount }, x)
            == Comp::Horn(WebsterHorn { key_tracks_pitch: false, ..m }),
{
    if let Some(p) = Param::named(name) {
        assert(p.text() == name);
    }
}

} // verus!
