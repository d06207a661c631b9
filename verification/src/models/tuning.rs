//! The search for the bore lengths that put every note of a wind in tune.
//!
//! A wind is played note by note, first at its plain length, then at lengths between
//! two bounds that close in on the right one, and once more at the length found. What
//! was heard is measured by the caller; which length is tried next, and whether a
//! correction is kept, is decided here.

use crate::models::comp::Comp;
use crate::models::instrument_graph::{GraphView, InstrumentGraph};
use crate::models::key_map::KeyBindingView;
use crate::single;
use crate::single::{Single, ONE};
use vstd::prelude::*;

verus! {

/// The lowest note that is tuned.
pub const LOWEST: u8 = 24;

/// The highest note that is tuned.
pub const HIGHEST: u8 = 108;

/// How often the bounds close in on a length.
pub const ROUNDS: u32 = 9;

/// The bit pattern of 0.82: the shortest length tried, relative to the plain one.
pub const SHORTEST: u32 = 0x3F51_EB85;

/// The bit pattern of 1.18: the longest.
pub const LONGEST: u32 = 0x3F97_0A3D;

/// Where the search for one note stands.
#[derive(Clone, Copy, Debug, PartialEq, Eq, Structural)]
pub enum Stage {
    /// The plain length is still to be heard.
    Plain,
    /// Lengths between two bounds are tried, `left` more times.
    Narrow {
        /// Too short, or not yet tried.
        lo: Single,
        /// Too long, or not yet tried.
        hi: Single,
        /// How many trials are left.
        left: u32,
    },
    /// The length found is heard once more.
    Confirm {
        /// Bounds of the length found.
        lo: Single,
        /// Bounds of the length found.
        hi: Single,
    },
}

/// What to play next.
#[derive(Clone, Copy, Debug, PartialEq, Eq, Structural)]
pub enum Trial {
    /// A note at its plain length.
    Plain(u8),
    /// A note at the length halfway between two multiples of the plain one.
    Between(u8, Single, Single),
}

/// What was heard of a trial.
#[derive(Clone, Copy, Debug, PartialEq, Eq, Structural)]
pub struct Heard {
    /// The length that was played, as a multiple of the plain one.
    pub length: Single,
    /// Whether there was a tone.
    pub sounds: bool,
    /// Whether it was below the note.
    pub flat: bool,
    /// Whether it was nearer to the note than the plain length, and not much quieter.
    pub better: bool,
}

/// The search over all notes.
pub struct Tuner {
    /// The length correction found for each MIDI note.
    pub table: Vec<Single>,
    /// The note being tuned.
    pub note: u8,
    /// Where its search stands.
    pub stage: Stage,
}

/// A search, as a value.
pub ghost struct TunerView {
    pub table: Seq<Single>,
    pub note: int,
    pub stage: Stage,
}

impl View for Tuner {
    type V = TunerView;

    open spec fn view(&self) -> TunerView {
        TunerView { table: self.table@, note: self.note as int, stage: self.stage }
    }
}

/// No correction, or a length strictly between the shortest and the longest.
pub open spec fn is_correction(x: Single) -> bool {
    x == (Single { bits: ONE }) || (Single { bits: SHORTEST }).lt(x) && x.lt(
        Single { bits: LONGEST },
    )
}

/// Bounds that lie within the shortest and the longest length.
pub open spec fn is_range(lo: Single, hi: Single) -> bool {
    (Single { bits: SHORTEST }).le(lo) && hi.le(Single { bits: LONGEST })
}

/// What was heard is of a length strictly between the bounds of the trial, where it has
/// any.
pub open spec fn is_of_trial(h: Heard, t: Option<Trial>) -> bool {
    t matches Some(Trial::Between(_, lo, hi)) ==> lo.lt(h.length) && h.length.lt(hi)
}

impl TunerView {
    /// Nothing was heard yet.
    pub open spec fn fresh() -> TunerView {
        TunerView {
            table: Seq::new(128, |i: int| Single { bits: ONE }),
            note: LOWEST as int,
            stage: Stage::Plain,
        }
    }

    /// There is a correction for each MIDI note, and the note being tuned is one of
    /// those that are tuned, or the next.
    pub open spec fn is_sound(self) -> bool {
        &&& self.table.len() == 128
        &&& LOWEST <= self.note <= HIGHEST + 1
        &&& self.stage matches Stage::Narrow { left, .. } ==> 0 < left <= ROUNDS
    }

    /// What to play next; nothing once all notes are tuned.
    pub open spec fn trial(self) -> Option<Trial> {
        if self.note > HIGHEST {
            None
        } else {
            match self.stage {
                Stage::Plain => Some(Trial::Plain(self.note as u8)),
                Stage::Narrow { lo, hi, .. } => Some(Trial::Between(self.note as u8, lo, hi)),
                Stage::Confirm { lo, hi } => Some(Trial::Between(self.note as u8, lo, hi)),
            }
        }
    }

    /// The search goes on to the next note.
    pub open spec fn next_note(self) -> TunerView {
        TunerView { note: self.note + 1, stage: Stage::Plain, ..self }
    }

    /// The search after something was heard.
    pub open spec fn after(self, h: Heard) -> TunerView {
        if self.note > HIGHEST {
            self
        } else {
            match self.stage {
                Stage::Plain => if h.sounds {
                    TunerView {
                        stage: Stage::Narrow {
                            lo: Single { bits: SHORTEST },
                            hi: Single { bits: LONGEST },
                            left: ROUNDS,
                        },
                        ..self
                    }
                } else {
                    self.next_note()
                },
                Stage::Narrow { lo, hi, left } => {
                    let near = if h.flat {
                        (lo, h.length)
                    } else {
                        (h.length, hi)
                    };
                    if !h.sounds {
                        TunerView { stage: Stage::Confirm { lo, hi }, ..self }
                    } else if left <= 1 {
                        TunerView { stage: Stage::Confirm { lo: near.0, hi: near.1 }, ..self }
                    } else {
                        TunerView {
                            stage: Stage::Narrow {
                                lo: near.0,
                                hi: near.1,
                                left: (left - 1) as u32,
                            },
                            ..self
                        }
                    }
                },
                Stage::Confirm { .. } => if h.sounds && h.better {
                    TunerView { table: self.table.update(self.note, h.length), ..self }.next_note()
                } else {
                    self.next_note()
                },
            }
        }
    }

    /// The search after several things were heard, one after the other.
    pub open spec fn after_all(self, heard: Seq<Heard>) -> TunerView
        decreases heard.len(),
    {
        if heard.len() == 0 {
            self
        } else {
            self.after_all(heard.drop_last()).after(heard.last())
        }
    }

    /// Every correction is none or lies strictly between the shortest and the longest
    /// length, and bounds to try between lie within these.
    pub open spec fn is_bounded(self) -> bool {
        &&& forall|i: int| 0 <= i < self.table.len() ==> is_correction(#[trigger] self.table[i])
        &&& match self.stage {
            Stage::Plain => true,
            Stage::Narrow { lo, hi, .. } => is_range(lo, hi),
            Stage::Confirm { lo, hi } => is_range(lo, hi),
        }
    }

    /// How many trials there can still be.
    pub open spec fn trials_left(self) -> int {
        if self.note > HIGHEST {
            0
        } else {
            (HIGHEST - self.note) * (ROUNDS + 2) + match self.stage {
                Stage::Plain => ROUNDS + 2,
                Stage::Narrow { left, .. } => left + 1,
                Stage::Confirm { .. } => 1int,
            }
        }
    }
}

impl Tuner {
    /// A search that has heard nothing yet.
    pub fn new() -> (r: Tuner)
        ensures
            r@ == TunerView::fresh(),
            r@.is_sound(),
    {
        let mut table: Vec<Single> = Vec::new();
        let mut i: usize = 0;
        while i < 128
            invariant
                i <= 128,
                table@.len() == i,
                forall|j: int| 0 <= j < i ==> (#[trigger] table@[j]).bits == ONE,
            decreases 128 - i,
        {
            table.push(Single { bits: ONE });
            i += 1;
        }
        assert(table@ =~= TunerView::fresh().table);
        Tuner { table, note: LOWEST, stage: Stage::Plain }
    }

    /// What to play next; nothing once all notes are tuned.
    pub fn next(&self) -> (r: Option<Trial>)
        ensures
            r == self@.trial(),
    {
        if self.note > HIGHEST {
            return None;
        }
        match self.stage {
            Stage::Plain => Some(Trial::Plain(self.note)),
            Stage::Narrow { lo, hi, .. } => Some(Trial::Between(self.note, lo, hi)),
            Stage::Confirm { lo, hi } => Some(Trial::Between(self.note, lo, hi)),
        }
    }

    /// Takes in what was heard of the last trial.
    pub fn heard(&mut self, h: Heard)
        requires
            old(self)@.is_sound(),
        ensures
            final(self)@ == old(self)@.after(h),
            final(self)@.is_sound(),
    {
        if self.note > HIGHEST {
            return ;
        }
        match self.stage {
            Stage::Plain => {
                if h.sounds {
                    self.stage =
                    Stage::Narrow {
                        lo: Single { bits: SHORTEST },
                        hi: Single { bits: LONGEST },
                        left: ROUNDS,
                    };
                } else {
                    self.note = self.note + 1;
                }
            },
            Stage::Narrow { lo, hi, left } => {
                let (a, b) = if h.flat {
                    (lo, h.length)
                } else {
                    (h.length, hi)
                };
                if !h.sounds {
                    self.stage = Stage::Confirm { lo, hi };
                } else if left <= 1 {
                    self.stage = Stage::Confirm { lo: a, hi: b };
                } else {
                    self.stage = Stage::Narrow { lo: a, hi: b, left: left - 1 };
                }
            },
            Stage::Confirm { .. } => {
                if h.sounds && h.better {
                    self.table.set(self.note as usize, h.length);
                }
                self.note = self.note + 1;
                self.stage = Stage::Plain;
            },
        }
    }
}

/// A component by itself, as a graph: what is played while it is tuned.
pub fn alone(c: Comp) -> (r: InstrumentGraph)
    ensures
        r@ == (GraphView {
            components: seq![c],
            edges: Seq::empty(),
            output: 0,
            key_map: Seq::<KeyBindingView>::empty(),
        }),
        r@.is_valid(),
{
    let g = InstrumentGraph {
        components: vec![c],
        edges: Vec::new(),
        output: 0,
        key_map: Vec::new(),
    };
    assert(g@.components =~= seq![c]);
    assert(g@.edges =~= Seq::empty());
    assert(g@.key_map =~= Seq::<KeyBindingView>::empty());
    g
}

/// The search comes to an end: each trial leaves fewer to make, and there is something
/// to play exactly while any are left.
pub proof fn tuning_ends(t: TunerView, h: Heard)
    requires
        t.is_sound(),
    ensures
        t.after(h).is_sound(),
        t.trial() is Some <==> t.trials_left() > 0,
        t.trial() is Some ==> 0 <= t.after(h).trials_left() < t.trials_left(),
{
    assert((HIGHEST - t.note) * (ROUNDS + 2) == (HIGHEST - t.note) * 11) by (nonlinear_arith)
        requires
            ROUNDS == 9,
    ;
    let n = t.after(h).note;
    assert((HIGHEST - n) * (ROUNDS + 2) == (HIGHEST - n) * 11) by (nonlinear_arith)
        requires
            ROUNDS == 9,
    ;
}

/// A correction is written for the note being tuned alone, only when it was confirmed to
/// sound better, and it is the length that was played.
pub proof fn only_confirmed_corrections_are_kept(t: TunerView, h: Heard, i: int)
    requires
        t.is_sound(),
        0 <= i < 128,
        t.after(h).table[i] != t.table[i],
    ensures
        i == t.note,
        LOWEST <= i <= HIGHEST,
        t.stage is Confirm && h.sounds && h.better,
        t.after(h).table[i] == h.length,
{
}

/// As long as each length played lies strictly between the bounds of its trial, every
/// correction is none or lies strictly between the shortest and the longest length tried.
pub proof fn corrections_stay_in_range(heard: Seq<Heard>)
    requires
        forall|k: int|
            0 <= k < heard.len() ==> is_of_trial(
                #[trigger] heard[k],
                TunerView::fresh().after_all(heard.take(k)).trial(),
            ),
    ensures
        TunerView::fresh().after_all(heard).is_sound(),
        TunerView::fresh().after_all(heard).is_bounded(),
        forall|i: int|
            0 <= i < 128 ==> is_correction(
                #[trigger] TunerView::fresh().after_all(heard).table[i],
            ),
    decreases heard.len(),
{
    if heard.len() > 0 {
        let before = heard.drop_last();
        assert forall|k: int| 0 <= k < before.len() implies is_of_trial(
            #[trigger] before[k],
            TunerView::fresh().after_all(before.take(k)).trial(),
        ) by {
            assert(before.take(k) =~= heard.take(k));
            assert(before[k] == heard[k]);
        }
        corrections_stay_in_range(before);
        assert(heard.take(heard.len() - 1) =~= before);
        assert(heard[heard.len() - 1] == heard.last());
        bounds_are_kept(TunerView::fresh().after_all(before), heard.last());
    }
}

/// A trial whose length lies strictly between its bounds keeps corrections and bounds in
/// range.
pub proof fn bounds_are_kept(t: TunerView, h: Heard)
    requires
        t.is_sound(),
        t.is_bounded(),
        is_of_trial(h, t.trial()),
    ensures
        t.after(h).is_sound(),
        t.after(h).is_bounded(),
{
    single::patterns_keep_their_order(
        Single { bits: SHORTEST },
        Single { bits: LONGEST },
    );
}

/// Trials always lie between the bounds: the length that proved flat bounds the next
/// ones from above, the one that did not from below.
pub proof fn bounds_close_in(t: TunerView, h: Heard)
    requires
        t.stage is Narrow,
        t.note <= HIGHEST,
        h.sounds,
        t.trial() is Some,
    ensures
        t.after(h).trial() matches Some(Trial::Between(n, lo, hi)) && n == t.note as u8 && (
        h.flat ==> hi == h.length && lo == t.stage->Narrow_lo) && (!h.flat ==> lo == h.length && hi
            == t.stage->Narrow_hi),
{
}

/// What is heard moves the search on as it should: a plain note that sounds is searched for
/// between the widest bounds, one that does not is passed over; a search that falls silent,
/// or has had its rounds, is confirmed; and after that the next note comes.
pub proof fn the_search_moves_on(t: TunerView, h: Heard)
    requires
        t.is_sound(),
        t.note <= HIGHEST,
    ensures
        t.stage is Plain && h.sounds ==> t.after(h).note == t.note && (
        t.after(h).stage matches Stage::Narrow { lo, hi, left } && lo.bits == SHORTEST && hi.bits
            == LONGEST && left == ROUNDS),
        t.stage is Plain && !h.sounds ==> t.after(h).note == t.note + 1 && t.after(h).stage
            is Plain && t.after(h).table == t.table,
        t.stage matches Stage::Narrow { lo, hi, left } ==> t.after(h).note == t.note
            && t.after(h).table == t.table && (!h.sounds ==> (
        t.after(h).stage matches Stage::Confirm { lo: a, hi: b } && a == lo && b == hi)) && (
        h.sounds && left == 1 ==> t.after(h).stage is Confirm) && (h.sounds && left > 1 ==> (
        t.after(h).stage matches Stage::Narrow { left: l, .. } && l == left - 1)),
        t.stage is Confirm ==> t.after(h).note == t.note + 1 && t.after(h).stage is Plain,
        t.trial() matches Some(Trial::Plain(n)) ==> n == t.note && t.stage is Plain,
        t.trial() matches Some(Trial::Between(n, lo, hi)) ==> n == t.note && match t.stage {
            Stage::Plain => false,
            Stage::Narrow { lo: a, hi: b, .. } => a == lo && b == hi,
            Stage::Confirm { lo: a, hi: b } => a == lo && b == hi,
        },
{
}

/// A correction that was confirmed to be better is kept: the table holds the length that
/// was played for the note, and its other entries stay.
pub proof fn confirmed_corrections_are_kept(t: TunerView, h: Heard, i: int)
    requires
        t.is_sound(),
        t.note <= HIGHEST,
        0 <= i < 128,
    ensures
        t.stage is Confirm && h.sounds && h.better ==> t.after(h).table[t.note] == h.length,
        i != t.note ==> t.after(h).table[i] == t.table[i],
        !(t.stage is Confirm && h.sounds && h.better) ==> t.after(h).table == t.table,
        t.after(h).table.len() == 128,
{
}

/// The constants are the bit patterns of these decimals.
pub proof fn tuning_constants_are()
    ensures
        (Single { bits: SHORTEST }) == crate::decimal::decimal(0_8200),
        (Single { bits: LONGEST }) == crate::decimal::decimal(1_1800),
{
    vstd::arithmetic::power2::lemma2_to64();
    vstd::arithmetic::power2::lemma2_to64_rest();
    crate::decimal::decimal_is(0_8200, 24, 0x1000000, 0xD1EB85);
    crate::decimal::decimal_is(1_1800, 23, 0x800000, 0x970A3D);
}

} // verus!
