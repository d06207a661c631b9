//! How the sounding part of a component is made for a note: which of its parameters
//! the maker takes as they stand, and which are settled first.

use crate::models::comp::Comp;
use crate::single;
use crate::single::{Single, ONE, ZERO};
use vstd::prelude::*;

verus! {

/// The bit pattern of 0.3: the darkest tone of a noise source.
pub const DARKEST: u32 = 0x3E99_999A;

/// The bit pattern of 3.0: the brightest tone of a noise source.
pub const BRIGHTEST: u32 = 0x4040_0000;

/// The bit pattern of 2.5: half a harmonic above the first that a cone overblows to.
pub const ABOVE_AN_OCTAVE: u32 = 0x4020_0000;

/// The bit pattern of 3.5: half a harmonic above the first that a cylinder overblows to.
pub const ABOVE_A_TWELFTH: u32 = 0x4060_0000;

/// The bit pattern of 12.0: how sharply a vocal tract resonates unless it says so.
pub const TRACT_Q: u32 = 0x4140_0000;

/// What is settled about a component before it can sound.
#[derive(Clone, Copy, Debug, PartialEq, Eq, Structural)]
pub enum Blueprint {
    /// Its parameters are taken as they stand.
    Plain,
    /// It sounds a bank of modes. As a filter they colour what they are fed; otherwise
    /// they ring on from it.
    Modes {
        /// Whether the modes only filter.
        filter: bool,
    },
    /// A noise source whose tone was moved into its range.
    Noise {
        /// The tone.
        tone: Single,
    },
    /// A pipe with a length of its own; without one it takes the length of the note.
    Pipe {
        /// The length.
        length: Option<Single>,
    },
    /// A reed in whose loop the vocal tract resonates at the note.
    Tract {
        /// How sharply it resonates.
        q: Single,
        /// How strongly it acts; nothing below the altissimo.
        gain: Single,
    },
}

/// A length that was set, as opposed to one left at zero.
pub open spec fn own_length(length: Single) -> Option<Single> {
    if (Single { bits: ZERO }).lt(length) {
        Some(length)
    } else {
        None
    }
}

/// A reed is voiced by the tract in the altissimo alone: above the first harmonic that
/// its bore overblows to. Lower down the tract would only put it out of tune.
pub open spec fn is_altissimo(overblow: Single, conical: bool) -> bool {
    if conical {
        (Single { bits: ABOVE_AN_OCTAVE }).lt(overblow)
    } else {
        (Single { bits: ABOVE_A_TWELFTH }).lt(overblow)
    }
}

/// The tract of a reed.
pub open spec fn tract(overblow: Single, conical: bool, gain: Single, q: Single) -> Blueprint {
    Blueprint::Tract {
        q: if (Single { bits: ZERO }).lt(q) {
            q
        } else {
            Single { bits: TRACT_Q }
        },
        gain: if (Single { bits: ZERO }).lt(gain) && is_altissimo(overblow, conical) {
            gain
        } else {
            Single { bits: ZERO }
        },
    }
}

impl Comp {
    /// What is settled about this component, `driven` by a resonator or not.
    pub open spec fn blueprint(self, driven: bool) -> Blueprint {
        match self {
            Comp::Wires { tone, .. } => Blueprint::Noise {
                tone: tone.clamped(Single { bits: DARKEST }, Single { bits: BRIGHTEST }),
            },
            Comp::Breath { tone, .. } => Blueprint::Noise {
                tone: tone.clamped(Single { bits: DARKEST }, Single { bits: BRIGHTEST }),
            },
            Comp::Bore { length, .. } => Blueprint::Pipe { length: own_length(length) },
            Comp::AirJet { length, .. } => Blueprint::Pipe { length: own_length(length) },
            Comp::ReedBore { overblow, conical, tract_gain, tract_q, .. } => tract(
                overblow,
                conical,
                tract_gain,
                tract_q,
            ),
            Comp::DoubleReed { overblow, conical, tract_gain, tract_q, .. } => tract(
                overblow,
                conical,
                tract_gain,
                tract_q,
            ),
            _ => if self.modal() {
                Blueprint::Modes { filter: driven }
            } else {
                Blueprint::Plain
            },
        }
    }

    /// Settles how this component is made for a note. `driven` says whether another
    /// resonator feeds it: then its modes filter, so that their sharpness colours the
    /// drive and does not amplify it.
    pub fn instantiate(&self, driven: bool) -> (r: Blueprint)
        ensures
            r == self.blueprint(driven),
    {
        match self {
            Comp::Wires { tone, .. } => Blueprint::Noise { tone: settled_tone(*tone) },
            Comp::Breath { tone, .. } => Blueprint::Noise { tone: settled_tone(*tone) },
            Comp::Bore { length, .. } => Blueprint::Pipe { length: set_length(*length) },
            Comp::AirJet { length, .. } => Blueprint::Pipe { length: set_length(*length) },
            Comp::ReedBore { overblow, conical, tract_gain, tract_q, .. } => settled_tract(
                *overblow,
                *conical,
                *tract_gain,
                *tract_q,
            ),
            Comp::DoubleReed { overblow, conical, tract_gain, tract_q, .. } => settled_tract(
                *overblow,
                *conical,
                *tract_gain,
                *tract_q,
            ),
            _ => if self.is_modal() {
                Blueprint::Modes { filter: driven }
            } else {
                Blueprint::Plain
            },
        }
    }
}

/// A tone moved into the range of a noise source.
fn settled_tone(tone: Single) -> (r: Single)
    ensures
        r == tone.clamped(Single { bits: DARKEST }, Single { bits: BRIGHTEST }),
{
    let darkest = Single { bits: DARKEST };
    let brightest = Single { bits: BRIGHTEST };
    proof {
        single::patterns_keep_their_order(darkest, brightest);
    }
    tone.clamp(darkest, brightest)
}

/// A length, if it was set.
fn set_length(length: Single) -> (r: Option<Single>)
    ensures
        r == own_length(length),
{
    if (Single { bits: ZERO }).less(length) {
        Some(length)
    } else {
        None
    }
}

/// The tract of a reed.
fn settled_tract(overblow: Single, conical: bool, gain: Single, q: Single) -> (r: Blueprint)
    ensures
        r == tract(overblow, conical, gain, q),
{
    let high = if conical {
        (Single { bits: ABOVE_AN_OCTAVE }).less(overblow)
    } else {
        (Single { bits: ABOVE_A_TWELFTH }).less(overblow)
    };
    Blueprint::Tract {
        q: if (Single { bits: ZERO }).less(q) {
            q
        } else {
            Single { bits: TRACT_Q }
        },
        gain: if (Single { bits: ZERO }).less(gain) && high {
            gain
        } else {
            Single { bits: ZERO }
        },
    }
}

/// Only a bank of modes is made differently when a resonator feeds it; every exciter is
/// made as it stands whatever feeds it.
pub proof fn only_modes_depend_on_the_drive(c: Comp)
    ensures
        c.blueprint(true) == c.blueprint(false) <==> !c.modal(),
        c.excites() ==> c.blueprint(true) == c.blueprint(false),
{
}

/// A reed that plays its fundamental is never voiced by the tract.
pub proof fn the_tract_is_silent_on_the_fundamental(c: Comp, driven: bool)
    requires
        c matches Comp::ReedBore { overblow, .. } ==> overblow == (Single { bits: ONE }),
        c matches Comp::DoubleReed { overblow, .. } ==> overblow == (Single { bits: ONE }),
    ensures
        c.blueprint(driven) matches Blueprint::Tract { gain, .. } ==> gain
            == (Single { bits: ZERO }),
{
    let one = Single { bits: ONE };
    single::patterns_keep_their_order(one, Single { bits: ABOVE_AN_OCTAVE });
    single::patterns_keep_their_order(one, Single { bits: ABOVE_A_TWELFTH });
}

/// The tone of a noise source ends up in its range, and stays as it is if it lies there.
pub proof fn noise_tones_stay_in_range(c: Comp, driven: bool, tone: Single)
    requires
        match c {
            Comp::Wires { tone: t, .. } => t == tone,
            Comp::Breath { tone: t, .. } => t == tone,
            _ => false,
        },
        !tone.is_nan(),
    ensures
        c.blueprint(driven) matches Blueprint::Noise { tone: t } && (Single {
            bits: 0x3E99_999A,
        }).le(t) && t.le(Single { bits: 0x4040_0000 }) && ((Single { bits: 0x3E99_999A }).le(tone)
            && tone.le(Single { bits: 0x4040_0000 }) ==> t == tone),
{
    let lo = Single { bits: 0x3E99_999A };
    let hi = Single { bits: 0x4040_0000 };
    single::patterns_keep_their_order(lo, hi);
    single::clamping_lands_in_range(tone, lo, hi);
}

/// A pipe keeps the length that was set for it, and takes that of the note if none was.
pub proof fn pipes_keep_their_length(c: Comp, driven: bool, length: Single)
    requires
        match c {
            Comp::Bore { length: l, .. } => l == length,
            Comp::AirJet { length: l, .. } => l == length,
            _ => false,
        },
    ensures
        (Single { bits: 0 }).lt(length) ==> c.blueprint(driven) == (Blueprint::Pipe {
            length: Some(length),
        }),
        !(Single { bits: 0 }).lt(length) ==> c.blueprint(driven) == (Blueprint::Pipe {
            length: None,
        }),
{
}

/// The tract of a reed acts with its own gain from the first harmonic above those that the
/// bore overblows to by itself: the third of a cone, the fifth of a cylinder. Below that it
/// is silent, whatever its gain.
pub proof fn the_tract_voices_the_altissimo(c: Comp, driven: bool)
    requires
        c is ReedBore || c is DoubleReed,
    ensures
        ({
            let (overblow, conical, gain, q) = match c {
                Comp::ReedBore { overblow, conical, tract_gain, tract_q, .. } => (
                    overblow,
                    conical,
                    tract_gain,
                    tract_q,
                ),
                Comp::DoubleReed { overblow, conical, tract_gain, tract_q, .. } => (
                    overblow,
                    conical,
                    tract_gain,
                    tract_q,
                ),
                _ => arbitrary(),
            };
            let zero = Single { bits: 0 };
            c.blueprint(driven) matches Blueprint::Tract { q: sharp, gain: strength } && (zero.lt(
                q,
            ) ==> sharp == q) && (!zero.lt(q) ==> sharp.bits == 0x4140_0000) && (zero.lt(gain)
                && (single::whole_of(5) == overblow || conical && single::whole_of(3) == overblow)
                ==> strength == gain) && (single::whole_of(1) == overblow || single::whole_of(2)
                == overblow || !conical && single::whole_of(3) == overblow || !zero.lt(gain)
                ==> strength.bits == 0)
        }),
{
    single::small_wholes();
    let (one, two, three, five) = (
        Single { bits: 0x3F80_0000 },
        Single { bits: 0x4000_0000 },
        Single { bits: 0x4040_0000 },
        Single { bits: 0x40A0_0000 },
    );
    let (octave, twelfth) = (Single { bits: ABOVE_AN_OCTAVE }, Single { bits: ABOVE_A_TWELFTH });
    single::patterns_keep_their_order(one, octave);
    single::patterns_keep_their_order(one, twelfth);
    single::patterns_keep_their_order(two, octave);
    single::patterns_keep_their_order(two, twelfth);
    single::patterns_keep_their_order(octave, three);
    single::patterns_keep_their_order(three, twelfth);
    single::patterns_keep_their_order(octave, five);
    single::patterns_keep_their_order(twelfth, five);
}

/// Modes filter exactly if a resonator feeds them; sources other than reeds, noise and jets
/// are taken as they stand.
pub proof fn modes_filter_what_they_are_fed(c: Comp, driven: bool)
    ensures
        c.modal() ==> c.blueprint(driven) == (Blueprint::Modes { filter: driven }),
        c.blueprint(driven) is Modes ==> c.modal(),
        c.blueprint(driven) is Tract <==> c is ReedBore || c is DoubleReed,
        c.blueprint(driven) is Noise <==> c is Wires || c is Breath,
        c.blueprint(driven) is Pipe <==> c is Bore || c is AirJet,
{
}

/// The constants are the bit patterns of these decimals.
pub proof fn blueprint_constants_are()
    ensures
        (Single { bits: DARKEST }) == crate::decimal::decimal(0_3000),
        (Single { bits: BRIGHTEST }) == crate::decimal::decimal(3_0000),
        (Single { bits: ABOVE_AN_OCTAVE }) == crate::decimal::decimal(2_5000),
        (Single { bits: ABOVE_A_TWELFTH }) == crate::decimal::decimal(3_5000),
        (Single { bits: TRACT_Q }) == crate::decimal::decimal(12_0000),
{
    vstd::arithmetic::power2::lemma2_to64();
    vstd::arithmetic::power2::lemma2_to64_rest();
    crate::decimal::decimal_is(0_3000, 25, 0x2000000, 0x99999A);
    crate::decimal::decimal_is(3_0000, 22, 0x400000, 0xC00000);
    crate::decimal::decimal_is(2_5000, 22, 0x400000, 0xA00000);
    crate::decimal::decimal_is(3_5000, 22, 0x400000, 0xE00000);
    crate::decimal::decimal_is(12_0000, 20, 0x100000, 0xC00000);
}

} // verus!
