//! How a resonator is driven: what an exciter hands to it for a played note.

use crate::single::{Single, ONE, ZERO};
use vstd::prelude::*;

verus! {

/// How a resonator is being driven.
#[derive(Clone, Copy, Debug, PartialEq, Eq, Structural)]
pub enum ExcitationKind {
    /// A one-shot impulse: the modes ring and decay.
    Struck,
    /// A released initial displacement.
    Plucked,
    /// Driven on and on: the modes are held while the note sounds.
    Bowed,
}

/// The wave that an exciter hands to a resonator.
#[derive(Clone, Copy, Debug, PartialEq, Eq, Structural)]
pub struct Excitation {
    /// How the resonator is driven.
    pub kind: ExcitationKind,
    /// Where it is driven, from 0 to 1.
    pub position: Single,
    /// How hard.
    pub strength: Single,
}

/// A position held between the two ends.
pub open spec fn on_the_resonator(position: Single) -> Single {
    position.clamped(Single { bits: ZERO }, Single { bits: ONE })
}

fn held_between_ends(position: Single) -> (r: Single)
    ensures
        r == on_the_resonator(position),
{
    proof {
        let one = Single { bits: ONE };
        assert(one.exponent() == 127 && one.fraction() == 0);
        vstd::arithmetic::power2::lemma_pow2_pos(126);
    }
    position.clamp(Single { bits: ZERO }, Single { bits: ONE })
}

/// A percussive strike: an impulse at a fixed place.
#[derive(Clone, Copy, Debug, PartialEq, Eq, Structural)]
pub struct StrikeExciter {
    /// Where it strikes, from the centre to the edge.
    pub position: Single,
}

impl StrikeExciter {
    /// The excitation of a note struck with velocity `vel`.
    pub fn excite(&self, vel: Single) -> (r: Excitation)
        ensures
            r == (Excitation {
                kind: ExcitationKind::Struck,
                position: on_the_resonator(self.position),
                strength: vel,
            }),
    {
        Excitation {
            kind: ExcitationKind::Struck,
            position: held_between_ends(self.position),
            strength: vel,
        }
    }
}

/// A pluck or bow at a fixed place.
#[derive(Clone, Copy, Debug, PartialEq, Eq, Structural)]
pub struct PluckExciter {
    /// Where it plucks, along the string.
    pub position: Single,
    /// Strike magnitude below which nothing sounds.
    pub play_magnitude: Single,
    /// Strike magnitude at full level.
    pub max_magnitude: Single,
    /// Whether it bows instead.
    pub bowed: bool,
}

impl PluckExciter {
    /// The excitation of a note whose velocity gives a strike of this strength.
    pub fn excite(&self, strength: Single) -> (r: Excitation)
        ensures
            r == (Excitation {
                kind: if self.bowed {
                    ExcitationKind::Bowed
                } else {
                    ExcitationKind::Plucked
                },
                position: on_the_resonator(self.position),
                strength,
            }),
    {
        Excitation {
            kind: if self.bowed {
                ExcitationKind::Bowed
            } else {
                ExcitationKind::Plucked
            },
            position: held_between_ends(self.position),
            strength,
        }
    }
}

/// A place on the resonator stays, one past its ends becomes the end.
pub proof fn places_stay_on_the_resonator(position: Single)
    requires
        !position.is_nan(),
    ensures
        (Single { bits: 0 }).le(position) && position.le(Single { bits: 0x3F80_0000 })
            ==> on_the_resonator(position) == position,
        position.lt(Single { bits: 0 }) ==> on_the_resonator(position).bits == 0,
        (Single { bits: 0x3F80_0000 }).lt(position) ==> on_the_resonator(position).bits
            == 0x3F80_0000,
{
    crate::single::patterns_keep_their_order(Single { bits: ZERO }, Single { bits: ONE });
}

} // verus!
