//! One polyphonic instrument: a fixed pool of voices played by a model.
//!
//! The pool decides which voice a note takes, which voices a key-up releases and
//! when a voice falls silent. The sound of each voice is made by the caller, who
//! keeps the waveforms under the same voice numbers.

use crate::json;
use crate::models;
use crate::models::ModelKind;
use crate::single::{Single, ONE, ZERO};
use vstd::prelude::*;

verus! {

/// How many notes an instrument sounds at once.
pub const MAX_VOICES: usize = 16;

/// Parameters that do not depend on the model.
#[derive(Clone, Copy, Debug, PartialEq, Eq, Structural)]
pub struct EngineParams {
    /// Output gain.
    pub gain: Single,
    /// Attack ramp, ms.
    pub attack_ms: Single,
    /// Release ramp on key-up, ms.
    pub release_ms: Single,
    /// Least time between strikes, ms; 0 is off.
    pub retrigger_ms: Single,
}

/// The parameters a fresh instrument starts with.
pub open spec fn engine_defaults() -> EngineParams {
    EngineParams {
        gain: Single { bits: 0x3F19_999A },  // 0.6
        attack_ms: Single { bits: 0x4040_0000 },  // 3.0
        release_ms: Single { bits: 0x4316_0000 },  // 150.0
        retrigger_ms: Single { bits: ZERO },
    }
}

impl Default for EngineParams {
    fn default() -> (r: Self)
        ensures
            r == engine_defaults(),
    {
        EngineParams {
            gain: Single { bits: 0x3F19_999A },  // 0.6
            attack_ms: Single { bits: 0x4040_0000 },  // 3.0
            release_ms: Single { bits: 0x4316_0000 },  // 150.0
            retrigger_ms: Single { bits: ZERO },
        }
    }
}

/// A model with its stored parameters.
pub struct Model {
    /// Which model it is.
    pub kind: ModelKind,
    /// Its parameters.
    pub params: serde_json::Value,
}

impl Clone for Model {
    fn clone(&self) -> (r: Self)
        ensures
            r == *self,
    {
        Model { kind: self.kind, params: json::copy_json(&self.params) }
    }
}

/// One voice of the pool.
#[derive(Clone, Copy, Debug, PartialEq, Eq, Structural)]
pub struct Voice {
    /// Whether it sounds.
    pub active: bool,
    /// The note it was struck with.
    pub note: u8,
    /// When it was struck: higher is later.
    pub age: u64,
    /// Whether its key is up.
    pub releasing: bool,
    /// The velocity it was struck with.
    pub vel: Single,
}

/// A voice that has never sounded.
pub open spec fn silent_voice() -> Voice {
    Voice { active: false, note: 0, age: 0, releasing: false, vel: Single { bits: ZERO } }
}

impl Voice {
    /// A voice that has never sounded.
    pub fn silent() -> (r: Self)
        ensures
            r == silent_voice(),
    {
        Voice { active: false, note: 0, age: 0, releasing: false, vel: Single { bits: ZERO } }
    }
}

/// A polyphonic instrument.
pub struct Instrument {
    /// What it plays.
    pub model: Model,
    /// How it plays.
    pub engine: EngineParams,
    /// Pitch bend as a frequency ratio; 1 is none.
    pub bend: Single,
    /// The voices.
    pub voices: Vec<Voice>,
    /// How many notes have been struck.
    pub age_counter: u64,
    /// How many frames have passed.
    pub now: u64,
    /// The frame of the last strike; it means nothing before the first.
    pub last_play: u64,
}

/// How many of the voices sound.
pub open spec fn sounding(v: Seq<Voice>) -> nat
    decreases v.len(),
{
    if v.len() == 0 {
        0
    } else if v.last().active {
        sounding(v.drop_last()) + 1
    } else {
        sounding(v.drop_last())
    }
}

/// The voice that the next note takes: the first silent one, or else the first of
/// those struck longest ago.
pub open spec fn is_next_voice(v: Seq<Voice>, i: int) -> bool {
    &&& 0 <= i < v.len()
    &&& v[i].active ==> (forall|j: int| 0 <= j < v.len() ==> (#[trigger] v[j]).active && v[i].age
        <= v[j].age) && (forall|j: int| 0 <= j < i ==> v[i].age < (#[trigger] v[j]).age)
    &&& !v[i].active ==> forall|j: int| 0 <= j < i ==> (#[trigger] v[j]).active
}

/// The voices with the keys of `note` up.
pub open spec fn released(v: Seq<Voice>, note: u8) -> Seq<Voice> {
    v.map_values(
        |x: Voice|
            if x.active && x.note == note {
                Voice { releasing: true, ..x }
            } else {
                x
            },
    )
}

/// The voices with every key up.
pub open spec fn all_released(v: Seq<Voice>) -> Seq<Voice> {
    v.map_values(
        |x: Voice|
            if x.active {
                Voice { releasing: true, ..x }
            } else {
                x
            },
    )
}

/// The voices, all of them silent.
pub open spec fn silenced(v: Seq<Voice>) -> Seq<Voice> {
    v.map_values(|x: Voice| Voice { active: false, ..x })
}

/// A strike of `note` turned `a` into `b`, and `r` is the voice that plays it: the next
/// voice, or none and no change if the last strike was less than `lockout` frames ago.
pub open spec fn struck(
    a: Instrument,
    b: Instrument,
    note: u8,
    vel: Single,
    lockout: u64,
    r: Option<usize>,
) -> bool {
    &&& b.same_setup(a)
    &&& b.now == a.now
    &&& r is None <==> a.locked_out(lockout)
    &&& match r {
        Some(i) => {
            &&& is_next_voice(a.voices@, i as int)
            &&& b.last_play == a.now
            &&& b.age_counter == a.age_counter + 1
            &&& b.voices@ == a.voices@.update(
                i as int,
                Voice { active: true, note, age: b.age_counter, releasing: false, vel },
            )
        },
        None => b.voices@ == a.voices@ && b.same_clock(a),
    }
}

impl Instrument {
    /// The pool has its full size, and no voice is younger than the last strike.
    pub open spec fn is_valid(self) -> bool {
        &&& self.voices@.len() == MAX_VOICES
        &&& forall|i: int|
            0 <= i < self.voices@.len() ==> (#[trigger] self.voices@[i]).age <= self.age_counter
        &&& forall|i: int, j: int|
            0 <= i < j < self.voices@.len() && (#[trigger] self.voices@[i]).active && (
            #[trigger] self.voices@[j]).active ==> self.voices@[i].age != self.voices@[j].age
        &&& self.last_play <= self.now
    }

    /// Nothing has been played yet.
    pub open spec fn is_fresh(self) -> bool {
        &&& self.voices@ == Seq::new(MAX_VOICES as nat, |i: int| silent_voice())
        &&& self.bend == (Single { bits: ONE })
        &&& self.age_counter == 0
        &&& self.now == 0
        &&& self.last_play == 0
    }

    /// A strike comes too soon after the last one. The first never does.
    pub open spec fn locked_out(self, lockout: u64) -> bool {
        self.age_counter > 0 && self.now - self.last_play < lockout
    }

    /// A fresh instrument with the startup model, whose parameters are `params`.
    pub fn new(params: serde_json::Value) -> (r: Self)
        ensures
            r.is_valid(),
            r.is_fresh(),
            r.engine == engine_defaults(),
            r.model == (Model { kind: models::registered()[0], params }),
    {
        Instrument::with_config(
            Model { kind: models::default_model(), params },
            EngineParams::default(),
        )
    }

    /// A fresh instrument with the given model and parameters.
    pub fn with_config(model: Model, engine: EngineParams) -> (r: Self)
        ensures
            r.is_valid(),
            r.is_fresh(),
            r.model == model,
            r.engine == engine,
    {
        let mut voices: Vec<Voice> = Vec::new();
        let mut i: usize = 0;
        while i < MAX_VOICES
            invariant
                i <= MAX_VOICES,
                voices@ == Seq::new(i as nat, |j: int| silent_voice()),
            decreases MAX_VOICES - i,
        {
            voices.push(Voice::silent());
            i += 1;
            assert(voices@ =~= Seq::new(i as nat, |j: int| silent_voice()));
        }
        Instrument {
            model,
            engine,
            bend: Single { bits: ONE },
            voices,
            age_counter: 0,
            now: 0,
            last_play: 0,
        }
    }

    /// A fresh instrument with the same model and parameters, and voices of its own.
    pub fn snapshot(&self) -> (r: Self)
        ensures
            r.is_valid(),
            r.is_fresh(),
            r.model == self.model,
            r.engine == self.engine,
    {
        Instrument::with_config(self.model.clone(), self.engine)
    }

    /// The name of the model.
    pub fn model_name(&self) -> (r: &'static str)
        ensures
            r@ == self.model.kind.name_text(),
    {
        self.model.kind.display_name()
    }

    /// The identifier of the model.
    pub fn model_id(&self) -> (r: &'static str)
        ensures
            r@ == self.model.kind.id_text(),
    {
        self.model.kind.id()
    }

    /// The parameters of the model.
    pub fn model_json(&self) -> (r: serde_json::Value)
        ensures
            r == self.model.params,
    {
        json::copy_json(&self.model.params)
    }

    /// The engine parameters.
    pub fn engine_params(&self) -> (r: EngineParams)
        ensures
            r == self.engine,
    {
        self.engine
    }

    /// The numbers of the voices that sound: those whose sound changes with the model
    /// or the engine parameters.
    pub fn sounding_voices(&self) -> (r: Vec<usize>)
        ensures
            forall|k: int| 0 <= k < r@.len() ==> (#[trigger] r@[k]) < self.voices@.len()
                && self.voices@[r@[k] as int].active,
            forall|i: int|
                0 <= i < self.voices@.len() && (#[trigger] self.voices@[i]).active ==> r@.contains(
                    i as usize,
                ),
            forall|k: int, l: int| 0 <= k < l < r@.len() ==> r@[k] < r@[l],
    {
        let mut r: Vec<usize> = Vec::new();
        let mut i: usize = 0;
        while i < self.voices.len()
            invariant
                i <= self.voices@.len(),
                forall|k: int| 0 <= k < r@.len() ==> (#[trigger] r@[k]) < i
                    && self.voices@[r@[k] as int].active,
                forall|j: int|
                    0 <= j < i && (#[trigger] self.voices@[j]).active ==> r@.contains(j as usize),
                forall|k: int, l: int| 0 <= k < l < r@.len() ==> r@[k] < r@[l],
            decreases self.voices@.len() - i,
        {
            let ghost before = r@;
            if self.voices[i].active {
                r.push(i);
                proof {
                    assert(r@[r@.len() - 1] == i);
                    assert forall|j: int|
                        0 <= j < i + 1 && (#[trigger] self.voices@[j]).active implies r@.contains(
                        j as usize,
                    ) by {
                        if j < i {
                            let k = choose|k: int| 0 <= k < before.len() && before[k] == j as usize;
                            assert(r@[k] == j as usize);
                        }
                    }
                }
            }
            i += 1;
        }
        r
    }

    /// Changes the model; the voices go on.
    pub fn set_model(&mut self, model: Model)
        ensures
            final(self).model == model,
            final(self).engine == old(self).engine,
            final(self).same_voices(*old(self)),
    {
        self.model = model;
    }

    /// Changes the engine parameters; the voices go on.
    pub fn set_engine(&mut self, engine: EngineParams)
        ensures
            final(self).engine == engine,
            final(self).model == old(self).model,
            final(self).same_voices(*old(self)),
    {
        self.engine = engine;
    }

    /// The voices, their clock and their bend are those of `other`.
    pub open spec fn same_voices(self, other: Instrument) -> bool {
        &&& self.voices@ == other.voices@
        &&& self.age_counter == other.age_counter
        &&& self.now == other.now
        &&& self.last_play == other.last_play
        &&& self.bend == other.bend
    }

    /// The sound is set up as that of `other`.
    pub open spec fn same_setup(self, other: Instrument) -> bool {
        self.model == other.model && self.engine == other.engine && self.bend == other.bend
    }

    /// The clocks are those of `other`.
    pub open spec fn same_clock(self, other: Instrument) -> bool {
        self.age_counter == other.age_counter && self.now == other.now && self.last_play
            == other.last_play
    }

    /// Sets the pitch bend; a ratio below zero counts as zero.
    pub fn set_bend(&mut self, ratio: Single)
        ensures
            final(self).bend == ratio.larger(Single { bits: ZERO }),
            final(self).model == old(self).model,
            final(self).engine == old(self).engine,
            final(self).voices@ == old(self).voices@,
            final(self).same_clock(*old(self)),
    {
        self.bend = ratio.max(Single { bits: ZERO });
    }

    /// The voice that the next note takes.
    pub fn alloc_voice(&self) -> (r: usize)
        requires
            self.is_valid(),
        ensures
            is_next_voice(self.voices@, r as int),
    {
        let n: usize = self.voices.len();
        let mut i: usize = 0;
        while i < n
            invariant
                i <= n == self.voices@.len(),
                forall|j: int| 0 <= j < i ==> (#[trigger] self.voices@[j]).active,
            decreases n - i,
        {
            if !self.voices[i].active {
                return i;
            }
            i += 1;
        }
        let mut best: usize = 0;
        let mut k: usize = 1;
        while k < n
            invariant
                1 <= k <= n == self.voices@.len(),
                best < k,
                forall|j: int|
                    0 <= j < k ==> self.voices@[best as int].age <= (#[trigger] self.voices@[j]).age,
                forall|j: int|
                    0 <= j < best ==> self.voices@[best as int].age < (
                    #[trigger] self.voices@[j]).age,
            decreases n - k,
        {
            if self.voices[k].age < self.voices[best].age {
                best = k;
            }
            k += 1;
        }
        best
    }

    /// Strikes a note, unless the last strike was less than `lockout` frames ago.
    /// Returns the voice that plays it.
    pub fn note_on(&mut self, note: u8, vel: Single, lockout: u64) -> (r: Option<usize>)
        requires
            old(self).is_valid(),
            old(self).age_counter < u64::MAX,
        ensures
            struck(*old(self), *final(self), note, vel, lockout, r),
            final(self).is_valid(),
            r is None <==> old(self).age_counter > 0 && old(self).now - old(self).last_play
                < lockout,
            r matches Some(i) ==> {
                let voice = final(self).voices@[i as int];
                &&& i < MAX_VOICES
                &&& voice.vel == vel
                &&& voice.note == note
                &&& voice.active
                &&& !voice.releasing
                &&& forall|j: int|
                    0 <= j < MAX_VOICES && j != i ==> #[trigger] final(self).voices@[j] == old(
                        self,
                    ).voices@[j] && final(self).voices@[j].age < voice.age
            },
            r is None ==> final(self).voices@ == old(self).voices@,
    {
        if lockout > 0 && self.age_counter > 0 && self.now - self.last_play < lockout {
            return None;
        }
        self.last_play = self.now;
        let i: usize = self.alloc_voice();
        self.age_counter = self.age_counter + 1;
        let age: u64 = self.age_counter;
        self.voices.set(i, Voice { active: true, note, age, releasing: false, vel });
        Some(i)
    }

    /// Takes note of how many modes the model gave a struck voice: with none it is
    /// silent again.
    pub fn voice_built(&mut self, i: usize, modes: usize)
        requires
            old(self).is_valid(),
            i < MAX_VOICES,
        ensures
            final(self).is_valid(),
            final(self).same_setup(*old(self)),
            final(self).same_clock(*old(self)),
            final(self).voices@ == if modes == 0 {
                old(self).voices@.update(
                    i as int,
                    Voice { active: false, ..old(self).voices@[i as int] },
                )
            } else {
                old(self).voices@
            },
    {
        if modes == 0 {
            self.silence(i);
        }
    }

    fn silence(&mut self, i: usize)
        requires
            old(self).is_valid(),
            i < MAX_VOICES,
        ensures
            final(self).is_valid(),
            final(self).same_setup(*old(self)),
            final(self).same_clock(*old(self)),
            final(self).voices@ == old(self).voices@.update(
                i as int,
                Voice { active: false, ..old(self).voices@[i as int] },
            ),
    {
        let v: Voice = self.voices[i];
        self.voices.set(i, Voice { active: false, ..v });
    }

    /// Takes note of a frame rendered by voice `i`: a released voice falls silent
    /// once its gate has closed, another one once none of its modes rings.
    pub fn voice_rendered(&mut self, i: usize, gate_closed: bool, ringing: bool)
        requires
            old(self).is_valid(),
            i < MAX_VOICES,
        ensures
            final(self).is_valid(),
            final(self).same_setup(*old(self)),
            final(self).same_clock(*old(self)),
            final(self).voices@ == if (if old(self).voices@[i as int].releasing {
                gate_closed
            } else {
                !ringing
            }) {
                old(self).voices@.update(
                    i as int,
                    Voice { active: false, ..old(self).voices@[i as int] },
                )
            } else {
                old(self).voices@
            },
    {
        let over: bool = if self.voices[i].releasing {
            gate_closed
        } else {
            !ringing
        };
        if over {
            self.silence(i);
        }
    }

    /// One frame passes.
    pub fn frame_done(&mut self)
        requires
            old(self).is_valid(),
            old(self).now < u64::MAX,
        ensures
            final(self).is_valid(),
            final(self).same_setup(*old(self)),
            final(self).voices@ == old(self).voices@,
            final(self).now == old(self).now + 1,
            final(self).age_counter == old(self).age_counter,
            final(self).last_play == old(self).last_play,
    {
        self.now = self.now + 1;
    }

    /// The key of `note` goes up: every voice that it sounds is released.
    pub fn note_off(&mut self, note: u8)
        ensures
            final(self).voices@ == released(old(self).voices@, note),
            final(self).voices@.len() == old(self).voices@.len(),
            forall|i: int|
                0 <= i < old(self).voices@.len() ==> {
                    let (a, b) = (old(self).voices@[i], #[trigger] final(self).voices@[i]);
                    &&& b.releasing <==> a.releasing || (a.active && a.note == note)
                    &&& b.active == a.active && b.note == a.note
                    &&& b.age == a.age && b.vel == a.vel
                },
            final(self).same_setup(*old(self)),
            final(self).same_clock(*old(self)),
            old(self).is_valid() ==> final(self).is_valid(),
    {
        let mut i: usize = 0;
        let ghost first = self.voices@;
        while i < self.voices.len()
            invariant
                i <= self.voices@.len() == first.len(),
                first == old(self).voices@,
                self.same_setup(*old(self)),
                self.same_clock(*old(self)),
                forall|j: int| 0 <= j < i ==> self.voices@[j] == released(first, note)[j],
                forall|j: int| i <= j < first.len() ==> self.voices@[j] == first[j],
            decreases self.voices@.len() - i,
        {
            let v: Voice = self.voices[i];
            if v.active && v.note == note && !v.releasing {
                self.voices.set(i, Voice { releasing: true, ..v });
            }
            i += 1;
        }
        assert(self.voices@ =~= released(first, note));
    }

    /// Every key goes up.
    pub fn release_all(&mut self)
        ensures
            final(self).voices@ == all_released(old(self).voices@),
            final(self).voices@.len() == old(self).voices@.len(),
            forall|i: int|
                0 <= i < old(self).voices@.len() ==> {
                    let (a, b) = (old(self).voices@[i], #[trigger] final(self).voices@[i]);
                    &&& b.releasing <==> a.releasing || a.active
                    &&& b.active == a.active && b.note == a.note
                    &&& b.age == a.age && b.vel == a.vel
                },
            final(self).same_setup(*old(self)),
            final(self).same_clock(*old(self)),
            old(self).is_valid() ==> final(self).is_valid(),
    {
        let mut i: usize = 0;
        let ghost first = self.voices@;
        while i < self.voices.len()
            invariant
                i <= self.voices@.len() == first.len(),
                first == old(self).voices@,
                self.same_setup(*old(self)),
                self.same_clock(*old(self)),
                forall|j: int| 0 <= j < i ==> self.voices@[j] == all_released(first)[j],
                forall|j: int| i <= j < first.len() ==> self.voices@[j] == first[j],
            decreases self.voices@.len() - i,
        {
            let v: Voice = self.voices[i];
            if v.active {
                self.voices.set(i, Voice { releasing: true, ..v });
            }
            i += 1;
        }
        assert(self.voices@ =~= all_released(first));
    }

    /// Every voice falls silent at once.
    pub fn all_notes_off(&mut self)
        ensures
            final(self).voices@ == silenced(old(self).voices@),
            final(self).voices@.len() == old(self).voices@.len(),
            forall|i: int|
                0 <= i < old(self).voices@.len() ==> {
                    let (a, b) = (old(self).voices@[i], #[trigger] final(self).voices@[i]);
                    &&& !b.active
                    &&& b.note == a.note && b.releasing == a.releasing
                    &&& b.age == a.age && b.vel == a.vel
                },
            final(self).same_setup(*old(self)),
            final(self).same_clock(*old(self)),
            old(self).is_valid() ==> final(self).is_valid(),
    {
        let mut i: usize = 0;
        let ghost first = self.voices@;
        while i < self.voices.len()
            invariant
                i <= self.voices@.len() == first.len(),
                first == old(self).voices@,
                self.same_setup(*old(self)),
                self.same_clock(*old(self)),
                forall|j: int| 0 <= j < i ==> self.voices@[j] == silenced(first)[j],
                forall|j: int| i <= j < first.len() ==> self.voices@[j] == first[j],
            decreases self.voices@.len() - i,
        {
            let v: Voice = self.voices[i];
            self.voices.set(i, Voice { active: false, ..v });
            i += 1;
        }
        assert(self.voices@ =~= silenced(first));
    }

    /// How many voices sound.
    pub fn active_voices(&self) -> (r: usize)
        ensures
            r == sounding(self.voices@),
            r <= self.voices@.len(),
    {
        let mut n: usize = 0;
        let mut i: usize = 0;
        while i < self.voices.len()
            invariant
                i <= self.voices@.len(),
                n <= i,
                n == sounding(self.voices@.take(i as int)),
            decreases self.voices@.len() - i,
        {
            proof {
                assert(self.voices@.take(i + 1).drop_last() =~= self.voices@.take(i as int));
            }
            if self.voices[i].active {
                n += 1;
            }
            i += 1;
        }
        proof {
            assert(self.voices@.take(i as int) =~= self.voices@);
        }
        n
    }
}

/// Changing one voice changes the count of sounding voices by that voice alone.
proof fn lemma_sounding_update(v: Seq<Voice>, i: int, x: Voice)
    requires
        0 <= i < v.len(),
    ensures
        sounding(v.update(i, x)) == sounding(v) + (if x.active {
            1int
        } else {
            0
        }) - (if v[i].active {
            1int
        } else {
            0
        }),
    decreases v.len(),
{
    let w = v.update(i, x);
    if i == v.len() - 1 {
        assert(w.drop_last() =~= v.drop_last());
    } else {
        assert(w.drop_last() =~= v.drop_last().update(i, x));
        assert(w.last() == v.last());
        lemma_sounding_update(v.drop_last(), i, x);
    }
}

proof fn lemma_sounding_all(v: Seq<Voice>)
    ensures
        (forall|j: int| 0 <= j < v.len() ==> (#[trigger] v[j]).active) ==> sounding(v) == v.len(),
        (forall|j: int| 0 <= j < v.len() ==> !(#[trigger] v[j]).active) ==> sounding(v) == 0,
        sounding(v) <= v.len(),
    decreases v.len(),
{
    if v.len() > 0 {
        let h = v.drop_last();
        lemma_sounding_all(h);
        assert(forall|j: int| 0 <= j < h.len() ==> h[j] == v[j]);
        assert(v[v.len() - 1] == v.last());
    }
}

/// The first strike always sounds: nothing came before it that could lock it out.
pub proof fn first_strikes_sound(
    a: Instrument,
    b: Instrument,
    note: u8,
    vel: Single,
    lockout: u64,
    r: Option<usize>,
)
    requires
        a.age_counter == 0,
        struck(a, b, note, vel, lockout, r),
    ensures
        r is Some,
{
}

/// A voice carries what it was struck with: the note and the velocity of the strike, and
/// the key down. It is the latest of all voices, and the others go on as they were.
pub proof fn voices_carry_their_strike(
    a: Instrument,
    b: Instrument,
    note: u8,
    vel: Single,
    lockout: u64,
    r: Option<usize>,
    j: int,
)
    requires
        a.is_valid(),
        struck(a, b, note, vel, lockout, r),
        r is Some,
        0 <= j < MAX_VOICES,
    ensures
        r.unwrap() < MAX_VOICES,
        b.voices@[r.unwrap() as int].vel == vel,
        b.voices@[r.unwrap() as int].note == note,
        b.voices@[r.unwrap() as int].active,
        !b.voices@[r.unwrap() as int].releasing,
        j != r.unwrap() ==> b.voices@[j] == a.voices@[j],
        j != r.unwrap() ==> b.voices@[j].age < b.voices@[r.unwrap() as int].age,
        b.voices@.len() == a.voices@.len(),
{
}

/// Strikes that differ in velocity or note leave different voices behind.
pub proof fn different_strikes_sound_different(
    a: Instrument,
    b: Instrument,
    c: Instrument,
    notes: (u8, u8),
    vels: (Single, Single),
    lockout: u64,
    r: Option<usize>,
)
    requires
        a.is_valid(),
        struck(a, b, notes.0, vels.0, lockout, r),
        struck(a, c, notes.1, vels.1, lockout, r),
        r is Some,
        notes.0 != notes.1 || vels.0 != vels.1,
    ensures
        b.voices@ != c.voices@,
        b.voices@[r.unwrap() as int] != c.voices@[r.unwrap() as int],
{
}

/// After a strike, the next one is refused exactly for the frames of the lockout.
pub proof fn lockouts_last_as_long_as_they_say(
    a: Instrument,
    b: Instrument,
    c: Instrument,
    note: u8,
    vel: Single,
    before: u64,
    r: Option<usize>,
    lockout: u64,
    frames: u64,
)
    requires
        struck(a, b, note, vel, before, r),
        r is Some,
        c.now == a.now + frames,
        c.last_play == b.last_play,
        c.age_counter == b.age_counter,
    ensures
        c.locked_out(lockout) <==> frames < lockout,
{
}

/// A strike that is refused changes nothing that sounds, and refusals depend on time
/// alone: neither the note nor the velocity matters.
pub proof fn refused_strikes_change_nothing(
    a: Instrument,
    b: Instrument,
    note: u8,
    vel: Single,
    lockout: u64,
)
    requires
        struck(a, b, note, vel, lockout, None),
    ensures
        b.voices@ == a.voices@,
        b.now == a.now && b.last_play == a.last_play && b.age_counter == a.age_counter,
        a.age_counter > 0,
        a.now < a.last_play + lockout,
{
}

/// A strike adds one sounding voice; only when every voice sounds does it take one
/// over, so that all of them still sound.
pub proof fn strike_adds_a_voice_until_all_sound(v: Seq<Voice>, i: int, x: Voice)
    requires
        is_next_voice(v, i),
        x.active,
    ensures
        !v[i].active ==> sounding(v.update(i, x)) == sounding(v) + 1,
        v[i].active ==> sounding(v) == v.len() && sounding(v.update(i, x)) == v.len(),
{
    lemma_sounding_update(v, i, x);
    lemma_sounding_all(v);
}

/// The voice taken over is the one struck longest ago.
pub proof fn oldest_voice_is_taken_over(inst: Instrument, i: int, j: int)
    requires
        inst.is_valid(),
        is_next_voice(inst.voices@, i),
        inst.voices@[i].active,
        0 <= j < inst.voices@.len(),
        j != i,
    ensures
        inst.voices@[i].age < inst.voices@[j].age,
{
    assert(inst.voices@[j].active);
    if i < j {
        assert(inst.voices@[i].age != inst.voices@[j].age);
    } else {
        assert(inst.voices@[j].age != inst.voices@[i].age);
    }
}

/// After a key-up no voice still holds that note.
pub proof fn key_up_reaches_every_voice(v: Seq<Voice>, note: u8, i: int)
    requires
        0 <= i < v.len(),
    ensures
        released(v, note)[i].active == v[i].active,
        released(v, note)[i].active && released(v, note)[i].note == note ==> released(
            v,
            note,
        )[i].releasing,
        v[i].note != note ==> released(v, note)[i] == v[i],
        !v[i].active ==> released(v, note)[i] == v[i],
        released(v, note)[i].note == v[i].note,
        released(v, note)[i].vel == v[i].vel,
        released(v, note)[i].age == v[i].age,
        v[i].releasing ==> released(v, note)[i].releasing,
        released(v, note).len() == v.len(),
{
}

/// Letting every key go releases each note that sounds, and does so once for all.
pub proof fn letting_all_go_is_letting_each_go(v: Seq<Voice>, note: u8)
    ensures
        all_released(v).len() == v.len(),
        forall|i: int|
            0 <= i < v.len() && v[i].active ==> (#[trigger] all_released(v)[i]).releasing,
        forall|i: int| 0 <= i < v.len() && !v[i].active ==> #[trigger] all_released(v)[i] == v[i],
        released(all_released(v), note) == all_released(v),
        all_released(released(v, note)) == all_released(v),
        sounding(all_released(v)) == sounding(v),
{
    assert(released(all_released(v), note) =~= all_released(v));
    assert(all_released(released(v, note)) =~= all_released(v));
    lemma_sounding_same(v, all_released(v));
}

proof fn lemma_sounding_same(v: Seq<Voice>, w: Seq<Voice>)
    requires
        v.len() == w.len(),
        forall|i: int| 0 <= i < v.len() ==> (#[trigger] v[i]).active == w[i].active,
    ensures
        sounding(v) == sounding(w),
    decreases v.len(),
{
    if v.len() > 0 {
        let (a, b) = (v.drop_last(), w.drop_last());
        assert forall|i: int| 0 <= i < a.len() implies (#[trigger] a[i]).active == b[i].active by {
            assert(a[i] == v[i] && b[i] == w[i]);
        }
        assert(v[v.len() - 1].active == w[v.len() - 1].active);
        lemma_sounding_same(a, b);
    }
}

/// The count of sounding voices is that of the voices that are active: one more or less
/// as a voice starts or falls silent.
pub proof fn each_active_voice_counts_once(v: Seq<Voice>, i: int, x: Voice)
    requires
        0 <= i < v.len(),
    ensures
        x.active && !v[i].active ==> sounding(v.update(i, x)) == sounding(v) + 1,
        !x.active && v[i].active ==> sounding(v.update(i, x)) == sounding(v) - 1,
        x.active == v[i].active ==> sounding(v.update(i, x)) == sounding(v),
        (forall|j: int| 0 <= j < v.len() ==> !(#[trigger] v[j]).active) ==> sounding(v) == 0,
        sounding(v) <= v.len(),
{
    lemma_sounding_update(v, i, x);
    lemma_sounding_all(v);
}

/// After all notes are off nothing sounds.
pub proof fn all_notes_off_is_silence(v: Seq<Voice>)
    ensures
        sounding(silenced(v)) == 0,
        silenced(v).len() == v.len(),
        forall|i: int| 0 <= i < v.len() ==> !(#[trigger] silenced(v)[i]).active,
        forall|i: int|
            0 <= i < v.len() ==> (#[trigger] silenced(v)[i]) == (Voice { active: false, ..v[i] }),
{
    lemma_sounding_all(silenced(v));
}

/// A fresh instrument, and so a snapshot, is silent.
pub proof fn fresh_instruments_are_silent(inst: Instrument)
    requires
        inst.is_fresh(),
    ensures
        sounding(inst.voices@) == 0,
        inst.voices@.len() == 16,
        forall|i: int|
            0 <= i < 16 ==> !(#[trigger] inst.voices@[i]).active && !inst.voices@[i].releasing
                && inst.voices@[i].note == 0 && inst.voices@[i].age == 0 && inst.voices@[i].vel.bits
                == 0,
        inst.bend.bits == 0x3F80_0000,
        inst.age_counter == 0 && inst.now == 0,
{
    lemma_sounding_all(inst.voices@);
}

/// The settings to start with are these decimals.
pub proof fn engines_start_at()
    ensures
        engine_defaults().gain == crate::decimal::decimal(0_6000),
        engine_defaults().attack_ms == crate::decimal::decimal(3_0000),
        engine_defaults().release_ms == crate::decimal::decimal(150_0000),
        engine_defaults().retrigger_ms.bits == 0,
{
    vstd::arithmetic::power2::lemma2_to64();
    vstd::arithmetic::power2::lemma2_to64_rest();
    crate::decimal::decimal_is(0_6000, 24, 0x1000000, 0x99999A);
    crate::decimal::decimal_is(3_0000, 22, 0x400000, 0xC00000);
    crate::decimal::decimal_is(150_0000, 16, 0x10000, 0x960000);
}

/// What it means that two instruments are set up alike, run by the same clock, or have the
/// same voices: nothing of that part differs.
pub proof fn what_alike_means(a: Instrument, b: Instrument)
    ensures
        a.same_setup(b) <==> a.model == b.model && a.engine == b.engine && a.bend == b.bend,
        a.same_clock(b) <==> a.age_counter == b.age_counter && a.now == b.now && a.last_play
            == b.last_play,
        a.same_voices(b) <==> a.voices@ == b.voices@ && a.same_clock(b) && a.bend == b.bend,
{
}

/// The first silent voice is taken while there is one, and the first of the oldest when all
/// sound; which one that is leaves no choice.
pub proof fn the_first_free_voice_is_taken(v: Seq<Voice>, i: int, j: int)
    requires
        is_next_voice(v, i),
        0 <= j < v.len(),
    ensures
        0 <= i < v.len(),
        !v[j].active ==> !v[i].active && i <= j,
        v[i].active ==> v[i].age <= v[j].age,
        v[i].active && v[j].age == v[i].age ==> i <= j,
        is_next_voice(v, j) ==> i == j,
{
}

} // verus!
