//! Instruments and their performance map: which sources sound for a key, and at what
//! pitch. A single instrument has one source that every key plays; a kit binds key
//! ranges to sources. Overlapping ranges layer, disjoint ranges split the keyboard.

use crate::instrument;
use crate::instrument::{EngineParams, Instrument, Model};
use crate::json;
use crate::models;
use crate::project::{ZoneData, ZoneView};
use crate::single::{Single, ZERO};
use crate::text;
use vstd::prelude::*;

verus! {

/// One key range of a kit: the keys it answers to, how they map to a pitch, and the
/// source it plays.
pub struct ZoneMap {
    /// What the zone is called.
    pub name: String,
    /// The lowest key it answers to.
    pub lo: u8,
    /// The highest key it answers to.
    pub hi: u8,
    /// The one note that a pad plays, whatever the key.
    pub fixed_note: Option<u8>,
    /// Semitones that a zone without a fixed note shifts its keys by.
    pub transpose: i8,
    /// The source that it plays.
    pub source: usize,
}

/// A zone map, as a value.
pub ghost struct ZoneMapView {
    pub name: Seq<char>,
    pub lo: u8,
    pub hi: u8,
    pub fixed_note: Option<u8>,
    pub transpose: i8,
    pub source: usize,
}

impl View for ZoneMap {
    type V = ZoneMapView;

    open spec fn view(&self) -> ZoneMapView {
        ZoneMapView {
            name: self.name@,
            lo: self.lo,
            hi: self.hi,
            fixed_note: self.fixed_note,
            transpose: self.transpose,
            source: self.source,
        }
    }
}

impl ZoneMapView {
    /// The zone answers to this key.
    pub open spec fn answers(self, key: u8) -> bool {
        self.lo <= key <= self.hi
    }

    /// The note that this key plays: a pad's own, else the key shifted and kept on the
    /// keyboard.
    pub open spec fn note_for(self, key: u8) -> u8 {
        match self.fixed_note {
            Some(n) => n,
            None => {
                let k = key + self.transpose;
                if k < 0 {
                    0
                } else if k > 127 {
                    127
                } else {
                    k as u8
                }
            },
        }
    }
}

impl ZoneMap {
    /// The note that this key plays.
    pub fn mapped(&self, key: u8) -> (r: u8)
        ensures
            r == self@.note_for(key),
            self.fixed_note matches Some(n) ==> r == n,
            self.fixed_note is None && 0 <= key + self.transpose <= 127 ==> r - key
                == self.transpose,
            self.fixed_note is None && key + self.transpose < 0 ==> r == 0,
            self.fixed_note is None && key + self.transpose > 127 ==> r == 127,
    {
        match self.fixed_note {
            Some(n) => n,
            None => {
                let k: i16 = key as i16 + self.transpose as i16;
                if k < 0 {
                    0
                } else if k > 127 {
                    127
                } else {
                    k as u8
                }
            },
        }
    }

    /// Whether the zone answers to this key.
    pub fn in_range(&self, key: u8) -> (r: bool)
        ensures
            r == self@.answers(key),
            r <==> self.lo <= key && key <= self.hi,
    {
        key >= self.lo && key <= self.hi
    }
}

impl Clone for ZoneMap {
    fn clone(&self) -> (r: Self)
        ensures
            r@ == self@,
    {
        ZoneMap {
            name: self.name.clone(),
            lo: self.lo,
            hi: self.hi,
            fixed_note: self.fixed_note,
            transpose: self.transpose,
            source: self.source,
        }
    }
}

/// How keys find an instrument's sources.
pub enum PerformanceMap {
    /// One source; the key sets the pitch.
    Direct,
    /// A kit.
    Zones(Vec<ZoneMap>),
}

impl View for PerformanceMap {
    type V = Option<Seq<ZoneMapView>>;

    /// The zones of a kit; none for a single instrument.
    open spec fn view(&self) -> Option<Seq<ZoneMapView>> {
        match *self {
            PerformanceMap::Direct => None,
            PerformanceMap::Zones(z) => Some(z@.map_values(|m: ZoneMap| m@)),
        }
    }
}

/// Something to play: sources, and the map from keys to them.
pub struct Playable {
    /// The sources.
    pub sources: Vec<Instrument>,
    /// The map.
    pub map: PerformanceMap,
}

/// What is stored of a playable: model id, parameters, engine parameters, and the
/// zones, of which a single instrument has none.
pub type PlayableParts = (String, serde_json::Value, EngineParams, Vec<ZoneData>);

/// The model that a zone plays: the one its id names, if its parameters could be read
/// as that model's, else the startup model.
pub open spec fn zone_model(
    id: Seq<char>,
    loaded: Option<serde_json::Value>,
    fallback: serde_json::Value,
) -> Model {
    match (models::model_with_id(id), loaded) {
        (Some(kind), Some(params)) => Model { kind, params },
        _ => Model { kind: models::registered()[0], params: fallback },
    }
}

/// What a zone of a kit is stored as.
pub open spec fn stored_zone(z: ZoneMapView, inst: Instrument) -> ZoneView {
    ZoneView {
        name: z.name,
        lo: z.lo,
        hi: z.hi,
        fixed_note: z.fixed_note,
        transpose: z.transpose,
        model_id: inst.model.kind.id_text(),
        params: inst.model.params,
        engine: inst.engine,
    }
}

/// How many voices sound in all.
pub open spec fn total_sounding(s: Seq<Instrument>) -> nat
    decreases s.len(),
{
    if s.len() == 0 {
        0
    } else {
        total_sounding(s.drop_last()) + instrument::sounding(s.last().voices@)
    }
}

impl Playable {
    /// A single instrument has its one source; each zone of a kit has its own, in
    /// order; and every source is valid.
    pub open spec fn is_valid(self) -> bool {
        &&& forall|i: int| 0 <= i < self.sources@.len() ==> (#[trigger] self.sources@[i]).is_valid()
        &&& match self.map@ {
            None => self.sources@.len() == 1,
            Some(z) => z.len() == self.sources@.len() && forall|i: int|
                0 <= i < z.len() ==> (#[trigger] z[i]).source == i,
        }
    }

    /// Source `i` answers to this key.
    pub open spec fn answers(self, i: int, key: u8) -> bool {
        match self.map@ {
            None => i == 0,
            Some(z) => z[i].answers(key),
        }
    }

    /// The note that source `i` plays for this key.
    pub open spec fn note_for(self, i: int, key: u8) -> u8 {
        match self.map@ {
            None => key,
            Some(z) => z[i].note_for(key),
        }
    }

    /// A single instrument.
    pub fn single(inst: Instrument) -> (r: Playable)
        ensures
            r.map@ is None,
            r.sources@ == seq![inst],
            inst.is_valid() ==> r.is_valid(),
    {
        let r = Playable { sources: vec![inst], map: PerformanceMap::Direct };
        assert(r.sources@ =~= seq![inst]);
        r
    }

    /// A kit from stored zones. `loaded` holds, for each zone, its parameters as read
    /// by the model that the zone names, if they could be read; a zone whose model is
    /// unknown or whose parameters do not fit gets the startup model, with the
    /// parameters `fallback`.
    pub fn from_zones(
        zones: &Vec<ZoneData>,
        loaded: &Vec<Option<serde_json::Value>>,
        fallback: &serde_json::Value,
    ) -> (r: Playable)
        requires
            loaded@.len() == zones@.len(),
        ensures
            r.is_valid(),
            r.sources@.len() == zones@.len(),
            forall|i: int|
                0 <= i < zones@.len() ==> {
                    &&& (#[trigger] r.sources@[i]).is_fresh()
                    &&& r.sources@[i].engine == zones@[i].engine
                    &&& r.sources@[i].model == zone_model(
                        zones@[i].model_id@,
                        loaded@[i],
                        *fallback,
                    )
                },
            r.map@ == Some(
                Seq::new(
                    zones@.len(),
                    |i: int|
                        ZoneMapView {
                            name: zones@[i].name@,
                            lo: zones@[i].lo,
                            hi: zones@[i].hi,
                            fixed_note: zones@[i].fixed_note,
                            transpose: zones@[i].transpose,
                            source: i as usize,
                        },
                ),
            ),
    {
        let mut sources: Vec<Instrument> = Vec::new();
        let mut maps: Vec<ZoneMap> = Vec::new();
        let mut i: usize = 0;
        while i < zones.len()
            invariant
                i <= zones@.len() == loaded@.len(),
                sources@.len() == i,
                maps@.len() == i,
                forall|j: int|
                    0 <= j < i ==> {
                        &&& (#[trigger] sources@[j]).is_valid()
                        &&& sources@[j].is_fresh()
                        &&& sources@[j].engine == zones@[j].engine
                        &&& sources@[j].model == zone_model(
                            zones@[j].model_id@,
                            loaded@[j],
                            *fallback,
                        )
                    },
                forall|j: int|
                    0 <= j < i ==> (#[trigger] maps@[j])@ == (ZoneMapView {
                        name: zones@[j].name@,
                        lo: zones@[j].lo,
                        hi: zones@[j].hi,
                        fixed_note: zones@[j].fixed_note,
                        transpose: zones@[j].transpose,
                        source: j as usize,
                    }),
            decreases zones@.len() - i,
        {
            let z = &zones[i];
            let model: Model = match (models::model_from_id(z.model_id.as_str()), &loaded[i]) {
                (Some(kind), Some(params)) => Model { kind, params: json::copy_json(params) },
                _ => Model { kind: models::default_model(), params: json::copy_json(fallback) },
            };
            sources.push(Instrument::with_config(model, z.engine));
            maps.push(
                ZoneMap {
                    name: z.name.clone(),
                    lo: z.lo,
                    hi: z.hi,
                    fixed_note: z.fixed_note,
                    transpose: z.transpose,
                    source: i,
                },
            );
            i += 1;
        }
        let r = Playable { sources, map: PerformanceMap::Zones(maps) };
        assert(r.map@.unwrap() =~= Seq::new(
            zones@.len(),
            |i: int|
                ZoneMapView {
                    name: zones@[i].name@,
                    lo: zones@[i].lo,
                    hi: zones@[i].hi,
                    fixed_note: zones@[i].fixed_note,
                    transpose: zones@[i].transpose,
                    source: i as usize,
                },
        ));
        r
    }

    /// Whether this is a single instrument.
    pub fn is_single(&self) -> (r: bool)
        ensures
            r == self.map@ is None,
    {
        match self.map {
            PerformanceMap::Direct => true,
            PerformanceMap::Zones(_) => false,
        }
    }
}

/// A key struck at `a` gave `b`, and `built` says which voice of each source plays it:
/// every source that answers to the key is struck with its note, the others stay.
pub open spec fn key_struck(
    a: Playable,
    b: Playable,
    key: u8,
    vel: Single,
    lockouts: Seq<u64>,
    built: Seq<Option<usize>>,
) -> bool {
    &&& b.map@ == a.map@
    &&& b.sources@.len() == a.sources@.len()
    &&& built.len() == a.sources@.len()
    &&& forall|i: int|
        0 <= i < a.sources@.len() ==> if a.answers(i, key) {
            instrument::struck(
                a.sources@[i],
                #[trigger] b.sources@[i],
                a.note_for(i, key),
                vel,
                lockouts[i],
                built[i],
            )
        } else {
            b.sources@[i] == a.sources@[i] && built[i] is None
        }
}

impl Playable {
    /// A key goes down. Every source that answers to it is struck; `lockouts` holds
    /// the retrigger lockout of each source, in frames. Returns, for each source, the
    /// voice that now plays the note.
    pub fn note_on(&mut self, key: u8, vel: Single, lockouts: &Vec<u64>) -> (built: Vec<
        Option<usize>,
    >)
        requires
            old(self).is_valid(),
            lockouts@.len() == old(self).sources@.len(),
            forall|i: int|
                0 <= i < old(self).sources@.len() ==> (#[trigger] old(
                    self,
                ).sources@[i]).age_counter < u64::MAX,
        ensures
            final(self).is_valid(),
            key_struck(*old(self), *final(self), key, vel, lockouts@, built@),
            forall|i: int|
                0 <= i < built@.len() && (#[trigger] built@[i]) is Some ==> {
                    let voice = final(self).sources@[i].voices@[built@[i].unwrap() as int];
                    &&& voice.vel == vel
                    &&& voice.active && !voice.releasing
                    &&& match old(self).map@ {
                        None => voice.note == key,
                        Some(z) => z[i].lo <= key <= z[i].hi && plays(z[i], key, voice.note),
                    }
                },
    {
        let mut built: Vec<Option<usize>> = Vec::new();
        let n: usize = self.sources.len();
        let mut i: usize = 0;
        while i < n
            invariant
                i <= n == self.sources@.len(),
                n == old(self).sources@.len(),
                n == lockouts@.len(),
                built@.len() == i,
                self.map == old(self).map,
                self.is_valid(),
                old(self).is_valid(),
                forall|j: int|
                    0 <= j < n ==> (#[trigger] old(self).sources@[j]).age_counter < u64::MAX,
                forall|j: int|
                    i <= j < n ==> #[trigger] self.sources@[j] == old(self).sources@[j],
                forall|j: int|
                    0 <= j < i ==> if old(self).answers(j, key) {
                        instrument::struck(
                            old(self).sources@[j],
                            #[trigger] self.sources@[j],
                            old(self).note_for(j, key),
                            vel,
                            lockouts@[j],
                            built@[j],
                        )
                    } else {
                        self.sources@[j] == old(self).sources@[j] && built@[j] is None
                    },
            decreases n - i,
        {
            let hit: Option<u8> = match &self.map {
                PerformanceMap::Direct => Some(key),
                PerformanceMap::Zones(z) => if z[i].in_range(key) {
                    Some(z[i].mapped(key))
                } else {
                    None
                },
            };
            assert(self.sources@[i as int] == old(self).sources@[i as int]);
            let r: Option<usize> = match hit {
                Some(note) => self.sources[i].note_on(note, vel, lockouts[i]),
                None => None,
            };
            built.push(r);
            i += 1;
        }
        proof {
            assert(key_struck(*old(self), *self, key, vel, lockouts@, built@));
            assert forall|i: int| 0 <= i < built@.len() && (#[trigger] built@[i]) is Some implies {
                let voice = self.sources@[i].voices@[built@[i].unwrap() as int];
                &&& voice.vel == vel
                &&& voice.active && !voice.releasing
                &&& match old(self).map@ {
                    None => voice.note == key,
                    Some(z) => z[i].lo <= key <= z[i].hi && plays(z[i], key, voice.note),
                }
            } by {
                struck_voices_fit_the_key(*old(self), *self, key, vel, lockouts@, built@, i);
            }
        }
        built
    }

    /// A key goes up: every source that answers to it releases the note that the key
    /// plays there.
    pub fn note_off(&mut self, key: u8)
        requires
            old(self).is_valid(),
        ensures
            final(self).is_valid(),
            final(self).map@ == old(self).map@,
            final(self).sources@.len() == old(self).sources@.len(),
            forall|i: int|
                0 <= i < old(self).sources@.len() ==> {
                    let (a, b) = (old(self).sources@[i], #[trigger] final(self).sources@[i]);
                    if old(self).answers(i, key) {
                        &&& b.voices@ == instrument::released(
                            a.voices@,
                            old(self).note_for(i, key),
                        )
                        &&& b.same_setup(a)
                        &&& b.same_clock(a)
                    } else {
                        b == a
                    }
                },
            forall|i: int, j: int|
                0 <= i < old(self).sources@.len() && 0 <= j < instrument::MAX_VOICES ==> {
                    let a = old(self).sources@[i].voices@[j];
                    let b = #[trigger] final(self).sources@[i].voices@[j];
                    &&& b.active == a.active && b.note == a.note
                    &&& b.vel == a.vel && b.age == a.age
                    &&& b.releasing <==> a.releasing || a.active && match old(self).map@ {
                        None => a.note == key,
                        Some(z) => z[i].lo <= key <= z[i].hi && plays(z[i], key, a.note),
                    }
                },
    {
        let n: usize = self.sources.len();
        let mut i: usize = 0;
        while i < n
            invariant
                i <= n == self.sources@.len(),
                n == old(self).sources@.len(),
                self.map == old(self).map,
                self.is_valid(),
                forall|j: int|
                    i <= j < n ==> #[trigger] self.sources@[j] == old(self).sources@[j],
                forall|j: int|
                    0 <= j < i ==> {
                        let (a, b) = (old(self).sources@[j], #[trigger] self.sources@[j]);
                        if old(self).answers(j, key) {
                            &&& b.voices@ == instrument::released(
                                a.voices@,
                                old(self).note_for(j, key),
                            )
                            &&& b.same_setup(a)
                            &&& b.same_clock(a)
                        } else {
                            b == a
                        }
                    },
            decreases n - i,
        {
            let hit: Option<u8> = match &self.map {
                PerformanceMap::Direct => Some(key),
                PerformanceMap::Zones(z) => if z[i].in_range(key) {
                    Some(z[i].mapped(key))
                } else {
                    None
                },
            };
            assert(self.sources@[i as int] == old(self).sources@[i as int]);
            if let Some(note) = hit {
                self.sources[i].note_off(note);
            }
            i += 1;
        }
        proof {
            assert forall|i: int, j: int|
                0 <= i < old(self).sources@.len() && 0 <= j < instrument::MAX_VOICES implies {
                let a = old(self).sources@[i].voices@[j];
                let b = #[trigger] self.sources@[i].voices@[j];
                &&& b.active == a.active && b.note == a.note
                &&& b.vel == a.vel && b.age == a.age
                &&& b.releasing <==> a.releasing || a.active && match old(self).map@ {
                    None => a.note == key,
                    Some(z) => z[i].lo <= key <= z[i].hi && plays(z[i], key, a.note),
                }
            } by {
                let v = old(self).sources@[i].voices@;
                assert(old(self).sources@[i].is_valid());
                assert(self.sources@[i].is_valid());
                instrument::key_up_reaches_every_voice(v, old(self).note_for(i, key), j);
                if let Some(z) = old(self).map@ {
                    zones_shift_by_their_transposition(z[i], key);
                }
            }
        }
    }

    /// Every voice of every source falls silent.
    pub fn all_notes_off(&mut self)
        requires
            old(self).is_valid(),
        ensures
            final(self).is_valid(),
            final(self).map@ == old(self).map@,
            final(self).sources@.len() == old(self).sources@.len(),
            forall|i: int|
                0 <= i < old(self).sources@.len() ==> {
                    let (a, b) = (old(self).sources@[i], #[trigger] final(self).sources@[i]);
                    &&& b.voices@ == instrument::silenced(a.voices@)
                    &&& b.same_setup(a)
                    &&& b.same_clock(a)
                },
    {
        let n: usize = self.sources.len();
        let mut i: usize = 0;
        while i < n
            invariant
                i <= n == self.sources@.len(),
                n == old(self).sources@.len(),
                self.map == old(self).map,
                self.is_valid(),
                forall|j: int|
                    i <= j < n ==> #[trigger] self.sources@[j] == old(self).sources@[j],
                forall|j: int|
                    0 <= j < i ==> {
                        let (a, b) = (old(self).sources@[j], #[trigger] self.sources@[j]);
                        &&& b.voices@ == instrument::silenced(a.voices@)
                        &&& b.same_setup(a)
                        &&& b.same_clock(a)
                    },
            decreases n - i,
        {
            assert(self.sources@[i as int] == old(self).sources@[i as int]);
            self.sources[i].all_notes_off();
            i += 1;
        }
    }

    /// Every key of every source goes up.
    pub fn release_all(&mut self)
        requires
            old(self).is_valid(),
        ensures
            final(self).is_valid(),
            final(self).map@ == old(self).map@,
            final(self).sources@.len() == old(self).sources@.len(),
            forall|i: int|
                0 <= i < old(self).sources@.len() ==> {
                    let (a, b) = (old(self).sources@[i], #[trigger] final(self).sources@[i]);
                    &&& b.voices@ == instrument::all_released(a.voices@)
                    &&& b.same_setup(a)
                    &&& b.same_clock(a)
                },
    {
        let n: usize = self.sources.len();
        let mut i: usize = 0;
        while i < n
            invariant
                i <= n == self.sources@.len(),
                n == old(self).sources@.len(),
                self.map == old(self).map,
                self.is_valid(),
                forall|j: int|
                    i <= j < n ==> #[trigger] self.sources@[j] == old(self).sources@[j],
                forall|j: int|
                    0 <= j < i ==> {
                        let (a, b) = (old(self).sources@[j], #[trigger] self.sources@[j]);
                        &&& b.voices@ == instrument::all_released(a.voices@)
                        &&& b.same_setup(a)
                        &&& b.same_clock(a)
                    },
            decreases n - i,
        {
            assert(self.sources@[i as int] == old(self).sources@[i as int]);
            self.sources[i].release_all();
            i += 1;
        }
    }

    /// Bends every source.
    pub fn set_bend(&mut self, ratio: Single)
        requires
            old(self).is_valid(),
        ensures
            final(self).is_valid(),
            final(self).map@ == old(self).map@,
            final(self).sources@.len() == old(self).sources@.len(),
            forall|i: int|
                0 <= i < old(self).sources@.len() ==> {
                    let (a, b) = (old(self).sources@[i], #[trigger] final(self).sources@[i]);
                    &&& b.bend == ratio.larger(Single { bits: ZERO })
                    &&& b.model == a.model
                    &&& b.engine == a.engine
                    &&& b.voices@ == a.voices@
                    &&& b.same_clock(a)
                },
    {
        let n: usize = self.sources.len();
        let mut i: usize = 0;
        while i < n
            invariant
                i <= n == self.sources@.len(),
                n == old(self).sources@.len(),
                self.map == old(self).map,
                self.is_valid(),
                forall|j: int|
                    i <= j < n ==> #[trigger] self.sources@[j] == old(self).sources@[j],
                forall|j: int|
                    0 <= j < i ==> {
                        let (a, b) = (old(self).sources@[j], #[trigger] self.sources@[j]);
                        &&& b.bend == ratio.larger(Single { bits: ZERO })
                        &&& b.model == a.model
                        &&& b.engine == a.engine
                        &&& b.voices@ == a.voices@
                        &&& b.same_clock(a)
                    },
            decreases n - i,
        {
            assert(self.sources@[i as int] == old(self).sources@[i as int]);
            self.sources[i].set_bend(ratio);
            i += 1;
        }
    }

    /// A fresh copy with the same sources and map, and voices of its own.
    pub fn snapshot(&self) -> (r: Playable)
        requires
            self.is_valid(),
        ensures
            r.is_valid(),
            r.map@ == self.map@,
            r.sources@.len() == self.sources@.len(),
            forall|i: int|
                0 <= i < r.sources@.len() ==> {
                    &&& (#[trigger] r.sources@[i]).is_fresh()
                    &&& r.sources@[i].model == self.sources@[i].model
                    &&& r.sources@[i].engine == self.sources@[i].engine
                },
    {
        let mut sources: Vec<Instrument> = Vec::new();
        let mut i: usize = 0;
        while i < self.sources.len()
            invariant
                i <= self.sources@.len(),
                sources@.len() == i,
                forall|j: int|
                    0 <= j < i ==> {
                        &&& (#[trigger] sources@[j]).is_fresh()
                        &&& sources@[j].is_valid()
                        &&& sources@[j].model == self.sources@[j].model
                        &&& sources@[j].engine == self.sources@[j].engine
                    },
            decreases self.sources@.len() - i,
        {
            sources.push(self.sources[i].snapshot());
            i += 1;
        }
        let map: PerformanceMap = match &self.map {
            PerformanceMap::Direct => PerformanceMap::Direct,
            PerformanceMap::Zones(zones) => {
                let mut copy: Vec<ZoneMap> = Vec::new();
                let mut k: usize = 0;
                while k < zones.len()
                    invariant
                        k <= zones@.len(),
                        copy@.len() == k,
                        forall|j: int| 0 <= j < k ==> (#[trigger] copy@[j])@ == zones@[j]@,
                    decreases zones@.len() - k,
                {
                    copy.push(zones[k].clone());
                    k += 1;
                }
                assert(copy@.map_values(|m: ZoneMap| m@) =~= zones@.map_values(|m: ZoneMap| m@));
                PerformanceMap::Zones(copy)
            },
        };
        Playable { sources, map }
    }

    /// How many voices sound in all.
    pub fn active_voices(&self) -> (r: usize)
        requires
            total_sounding(self.sources@) <= usize::MAX,
        ensures
            r == total_sounding(self.sources@),
    {
        let mut n: usize = 0;
        let mut i: usize = 0;
        while i < self.sources.len()
            invariant
                i <= self.sources@.len(),
                n == total_sounding(self.sources@.take(i as int)),
                total_sounding(self.sources@) <= usize::MAX,
            decreases self.sources@.len() - i,
        {
            proof {
                assert(self.sources@.take(i + 1).drop_last() =~= self.sources@.take(i as int));
                lemma_total_grows(self.sources@, i + 1);
            }
            n = n + self.sources[i].active_voices();
            i += 1;
        }
        proof {
            assert(self.sources@.take(i as int) =~= self.sources@);
        }
        n
    }

    /// How many voices of source `i` sound.
    pub fn source_voices(&self, i: usize) -> (r: usize)
        requires
            i < self.sources@.len(),
        ensures
            r == instrument::sounding(self.sources@[i as int].voices@),
    {
        self.sources[i].active_voices()
    }

    /// Changes the model of a single instrument; a kit stays as it is.
    pub fn set_model(&mut self, model: Model)
        requires
            old(self).is_valid(),
        ensures
            final(self).is_valid(),
            final(self).map@ == old(self).map@,
            final(self).sources@.len() == old(self).sources@.len(),
            old(self).map@ is None ==> {
                let (a, b) = (old(self).sources@[0], final(self).sources@[0]);
                b.model == model && b.engine == a.engine && b.same_voices(a)
            },
            old(self).map@ is Some ==> final(self).sources@ == old(self).sources@,
    {
        if self.is_single() {
            self.sources[0].set_model(model);
        }
    }

    /// Changes the engine parameters of a single instrument; a kit stays as it is.
    pub fn set_engine(&mut self, engine: EngineParams)
        requires
            old(self).is_valid(),
        ensures
            final(self).is_valid(),
            final(self).map@ == old(self).map@,
            final(self).sources@.len() == old(self).sources@.len(),
            old(self).map@ is None ==> {
                let (a, b) = (old(self).sources@[0], final(self).sources@[0]);
                b.engine == engine && b.model == a.model && b.same_voices(a)
            },
            old(self).map@ is Some ==> final(self).sources@ == old(self).sources@,
    {
        if self.is_single() {
            self.sources[0].set_engine(engine);
        }
    }

    /// What the track list shows: the model's name, or `Kit (N)`.
    pub fn label(&self) -> (r: String)
        requires
            self.is_valid(),
        ensures
            r@ == match self.map@ {
                None => self.sources@[0].model.kind.name_text(),
                Some(z) => "Kit ("@ + text::decimal(z.len()) + ")"@,
            },
    {
        match &self.map {
            PerformanceMap::Direct => self.sources[0].model_name().to_owned(),
            PerformanceMap::Zones(zones) => {
                let mut r: String = "Kit (".to_owned();
                let n = text::decimal_text(zones.len() as u64);
                r.append(n.as_str());
                r.append(")");
                r
            },
        }
    }

    /// The id of the model of a single instrument, `kit` for a kit.
    pub fn model_id(&self) -> (r: String)
        requires
            self.is_valid(),
        ensures
            r@ == match self.map@ {
                None => self.sources@[0].model.kind.id_text(),
                Some(_) => "kit"@,
            },
    {
        match &self.map {
            PerformanceMap::Direct => self.sources[0].model_id().to_owned(),
            PerformanceMap::Zones(_) => "kit".to_owned(),
        }
    }

    /// What is stored of this playable: a single instrument without zones, a kit with
    /// its zones, each with the model and engine parameters of its source.
    pub fn parts(&self) -> (r: PlayableParts)
        requires
            self.is_valid(),
        ensures
            self.map@ is None ==> {
                let inst = self.sources@[0];
                &&& r.0@ == inst.model.kind.id_text()
                &&& r.1 == inst.model.params
                &&& r.2 == inst.engine
                &&& r.3@.len() == 0
            },
            self.map@ matches Some(z) ==> {
                &&& r.0@ == "kit"@
                &&& json::json_is_null(r.1)
                &&& r.2 == instrument::engine_defaults()
                &&& r.3@.len() == z.len()
                &&& forall|i: int|
                    0 <= i < z.len() ==> (#[trigger] r.3@[i])@ == stored_zone(
                        z[i],
                        self.sources@[i],
                    )
            },
    {
        match &self.map {
            PerformanceMap::Direct => {
                let inst = &self.sources[0];
                (inst.model_id().to_owned(), inst.model_json(), inst.engine_params(), Vec::new())
            },
            PerformanceMap::Zones(zones) => {
                let mut data: Vec<ZoneData> = Vec::new();
                let mut i: usize = 0;
                while i < zones.len()
                    invariant
                        i <= zones@.len() == self.sources@.len(),
                        self.is_valid(),
                        self.map@ == Some(zones@.map_values(|m: ZoneMap| m@)),
                        data@.len() == i,
                        forall|j: int|
                            0 <= j < i ==> (#[trigger] data@[j])@ == stored_zone(
                                zones@[j]@,
                                self.sources@[j],
                            ),
                    decreases zones@.len() - i,
                {
                    let z = &zones[i];
                    assert(self.map@.unwrap()[i as int] == z@);
                    assert(z.source == i);
                    let inst = &self.sources[z.source];
                    data.push(
                        ZoneData {
                            name: z.name.clone(),
                            lo: z.lo,
                            hi: z.hi,
                            fixed_note: z.fixed_note,
                            transpose: z.transpose,
                            model_id: inst.model_id().to_owned(),
                            params: inst.model_json(),
                            engine: inst.engine_params(),
                        },
                    );
                    i += 1;
                }
                ("kit".to_owned(), json::null_json(), EngineParams::default(), data)
            },
        }
    }
}

proof fn lemma_total_grows(s: Seq<Instrument>, i: int)
    requires
        0 <= i <= s.len(),
    ensures
        total_sounding(s.take(i)) <= total_sounding(s),
    decreases s.len(),
{
    if i == s.len() {
        assert(s.take(i) =~= s);
    } else {
        assert(s.take(i) =~= s.drop_last().take(i));
        lemma_total_grows(s.drop_last(), i);
    }
}

/// The zone plays `note` for `key`: a pad its own note; any other zone the note that lies
/// as far from the key as the zone is transposed, or the end of the keyboard if that is
/// past it.
pub open spec fn plays(z: ZoneMapView, key: u8, note: u8) -> bool {
    match z.fixed_note {
        Some(n) => note == n,
        None => {
            &&& 0 <= key + z.transpose <= 127 ==> note - key == z.transpose
            &&& key + z.transpose < 0 ==> note == 0
            &&& key + z.transpose > 127 ==> note == 127
        },
    }
}

/// Whatever the key and the transposition, up or down, the note is as far from the key as
/// the zone is transposed, as long as that is on the keyboard; past it, it is the nearest
/// end. Pads play their own note.
pub proof fn zones_shift_by_their_transposition(z: ZoneMapView, key: u8)
    ensures
        plays(z, key, z.note_for(key)),
        z.fixed_note is None && 0 <= key + z.transpose <= 127 ==> z.note_for(key) - key
            == z.transpose,
        z.fixed_note is None && key + z.transpose < 0 ==> z.note_for(key) == 0,
        z.fixed_note is None && key + z.transpose > 127 ==> z.note_for(key) == 127,
        z.fixed_note matches Some(n) ==> z.note_for(key) == n,
        z.answers(key) <==> z.lo <= key && key <= z.hi,
{
}

/// Neighbouring keys of a zone play neighbouring notes, and opposite transpositions undo
/// each other, as long as all of it is on the keyboard.
pub proof fn zones_keep_intervals(z: ZoneMapView, y: ZoneMapView, key: u8)
    requires
        z.fixed_note is None,
        y.fixed_note is None,
        0 <= key + z.transpose <= 127,
    ensures
        key < 127 && key + z.transpose < 127 ==> z.note_for((key + 1) as u8) == z.note_for(key) + 1,
        key <= 127 && y.transpose == -z.transpose ==> y.note_for(z.note_for(key)) == key,
        z.transpose == 0 ==> z.note_for(key) == key,
        y.transpose == z.transpose + 1 && key + y.transpose <= 127 ==> y.note_for(key)
            == z.note_for(key) + 1,
{
}

/// The voice that a key starts has the velocity of the key and the note that the zone
/// plays for it: its own if it is a pad, else the key shifted by the transposition and kept
/// on the keyboard. A single instrument plays the key itself.
pub proof fn struck_voices_fit_the_key(
    a: Playable,
    b: Playable,
    key: u8,
    vel: Single,
    lockouts: Seq<u64>,
    built: Seq<Option<usize>>,
    i: int,
)
    requires
        a.is_valid(),
        key_struck(a, b, key, vel, lockouts, built),
        0 <= i < a.sources@.len(),
        built[i] is Some,
    ensures
        ({
            let voice = b.sources@[i].voices@[built[i].unwrap() as int];
            &&& voice.vel == vel
            &&& voice.active && !voice.releasing
            &&& match a.map@ {
                None => voice.note == key,
                Some(z) => z[i].lo <= key <= z[i].hi && plays(z[i], key, voice.note),
            }
        }),
{
    if a.answers(i, key) {
        assert(instrument::struck(
            a.sources@[i],
            b.sources@[i],
            a.note_for(i, key),
            vel,
            lockouts[i],
            built[i],
        ));
        instrument::voices_carry_their_strike(
            a.sources@[i],
            b.sources@[i],
            a.note_for(i, key),
            vel,
            lockouts[i],
            built[i],
            0,
        );
        if let Some(z) = a.map@ {
            zones_shift_by_their_transposition(z[i], key);
        }
    }
}

/// A key starts a voice in every source whose range holds it, unless that is locked out,
/// and in no other; what does not answer goes on as it was.
pub proof fn keys_reach_their_zones_alone(
    a: Playable,
    b: Playable,
    key: u8,
    vel: Single,
    lockouts: Seq<u64>,
    built: Seq<Option<usize>>,
    i: int,
)
    requires
        a.is_valid(),
        key_struck(a, b, key, vel, lockouts, built),
        0 <= i < a.sources@.len(),
    ensures
        a.map@ is None ==> (built[i] is None <==> a.sources@[i].locked_out(lockouts[i])),
        a.map@ matches Some(z) ==> {
            &&& !(z[i].lo <= key <= z[i].hi) ==> built[i] is None && b.sources@[i] == a.sources@[i]
            &&& z[i].lo <= key <= z[i].hi ==> (built[i] is None <==> a.sources@[i].locked_out(
                lockouts[i],
            ))
        },
{
    if a.answers(i, key) {
        assert(instrument::struck(
            a.sources@[i],
            b.sources@[i],
            a.note_for(i, key),
            vel,
            lockouts[i],
            built[i],
        ));
    } else {
        assert(b.sources@[i] == a.sources@[i]);
    }
}

/// A zone without a fixed note stays on the keyboard, however it is transposed.
pub proof fn transposed_notes_stay_on_the_keyboard(z: ZoneMapView, key: u8)
    requires
        z.fixed_note is None,
    ensures
        z.note_for(key) <= 127,
{
}

/// A key that no source answers to plays nothing.
pub proof fn unanswered_keys_play_nothing(
    a: Playable,
    b: Playable,
    key: u8,
    vel: Single,
    lockouts: Seq<u64>,
    built: Seq<Option<usize>>,
)
    requires
        key_struck(a, b, key, vel, lockouts, built),
        forall|i: int| 0 <= i < a.sources@.len() ==> !#[trigger] a.answers(i, key),
    ensures
        b.sources@ == a.sources@,
{
    assert forall|i: int| 0 <= i < a.sources@.len() implies b.sources@[i] == a.sources@[i] by {
        assert(!a.answers(i, key));
    }
    assert(b.sources@ =~= a.sources@);
}

/// Every source that answers to a key sounds it, so overlapping zones layer: unless it
/// is locked out, each of them has a voice with the zone's note.
pub proof fn answering_sources_all_sound(
    a: Playable,
    b: Playable,
    key: u8,
    vel: Single,
    lockouts: Seq<u64>,
    built: Seq<Option<usize>>,
    i: int,
)
    requires
        a.is_valid(),
        key_struck(a, b, key, vel, lockouts, built),
        0 <= i < a.sources@.len(),
        a.answers(i, key),
        !a.sources@[i].locked_out(lockouts[i]),
    ensures
        built[i] matches Some(v) && {
            let voice = b.sources@[i].voices@[v as int];
            voice.active && voice.note == a.note_for(i, key) && !voice.releasing && voice.vel == vel
        },
{
    assert(instrument::struck(
        a.sources@[i],
        b.sources@[i],
        a.note_for(i, key),
        vel,
        lockouts[i],
        built[i],
    ));
}

/// Letting a key go releases the very voice that striking it started, also where the
/// zone plays another note than the key.
pub proof fn key_up_releases_what_key_down_struck(
    a: Playable,
    b: Playable,
    key: u8,
    vel: Single,
    lockouts: Seq<u64>,
    built: Seq<Option<usize>>,
    i: int,
)
    requires
        a.is_valid(),
        key_struck(a, b, key, vel, lockouts, built),
        0 <= i < a.sources@.len(),
        a.answers(i, key),
        built[i] is Some,
    ensures
        b.answers(i, key),
        instrument::released(
            b.sources@[i].voices@,
            b.note_for(i, key),
        )[built[i].unwrap() as int].releasing,
{
    assert(instrument::struck(
        a.sources@[i],
        b.sources@[i],
        a.note_for(i, key),
        vel,
        lockouts[i],
        built[i],
    ));
}

/// A zone plays the model that it names, with the parameters as read, and the startup
/// model with the fallback parameters exactly where that is not possible.
pub proof fn zones_play_the_model_they_name(
    kind: models::ModelKind,
    id: Seq<char>,
    params: serde_json::Value,
    fallback: serde_json::Value,
)
    ensures
        zone_model(kind.id_text(), Some(params), fallback) == (Model { kind, params }),
        zone_model(id, None, fallback).params == fallback,
        zone_model(id, None, fallback).kind == models::registered()[0],
        (forall|k: models::ModelKind| #[trigger] k.id_text() != id) ==> zone_model(
            id,
            Some(params),
            fallback,
        ) == (Model { kind: models::registered()[0], params: fallback }),
{
    models::models_are_found_by_their_id(kind);
    if models::model_with_id(id) is Some {
        models::only_known_ids_are_found(id);
    }
}

/// A stored zone survives a trip through a kit: with a model that is known and
/// parameters that its model reads, what is stored again is the zone with the
/// parameters as read.
pub proof fn zones_survive_a_round_trip(
    zone: ZoneView,
    loaded: serde_json::Value,
    fallback: serde_json::Value,
    map: ZoneMapView,
    inst: Instrument,
)
    requires
        models::model_with_id(zone.model_id) is Some,
        inst.model == zone_model(zone.model_id, Some(loaded), fallback),
        inst.engine == zone.engine,
        map.name == zone.name,
        map.lo == zone.lo,
        map.hi == zone.hi,
        map.fixed_note == zone.fixed_note,
        map.transpose == zone.transpose,
    ensures
        stored_zone(map, inst) == (ZoneView { params: loaded, ..zone }),
{
}

/// The voices of all sources count.
pub proof fn every_source_counts(s: Seq<Instrument>, x: Instrument)
    ensures
        total_sounding(s.push(x)) == total_sounding(s) + instrument::sounding(x.voices@),
        total_sounding(Seq::<Instrument>::empty()) == 0,
{
    assert(s.push(x).drop_last() =~= s);
}

} // verus!
