//! Projects: songs of tracks and clips, their names on disk, and what is saved.
//! Positions and lengths are in seconds.

use crate::files;
use crate::instrument::EngineParams;
use crate::json;
use crate::single::{Single, ONE, ZERO};
use crate::text;
use vstd::prelude::*;

verus! {

/// One recorded note event, timed from the song start.
#[derive(Clone, Copy, Debug, PartialEq, Eq, Structural)]
pub struct NoteEvent {
    /// When it happens.
    pub t: Single,
    /// Whether the key goes down.
    pub on: bool,
    /// The key.
    pub note: u8,
    /// How hard it is struck.
    pub vel: Single,
}

/// One zone of a kit: an instrument mapped to a key range.
pub struct ZoneData {
    /// What the zone is called.
    pub name: String,
    /// The lowest key it answers to.
    pub lo: u8,
    /// The highest key it answers to.
    pub hi: u8,
    /// The one note that a pad plays, whatever the key.
    pub fixed_note: Option<u8>,
    /// Semitones that a zone without a fixed note shifts its keys by.
    pub transpose: i8,
    /// The identifier of its model.
    pub model_id: String,
    /// The parameters of its model.
    pub params: serde_json::Value,
    /// Its engine parameters.
    pub engine: EngineParams,
}

/// A zone, as a value.
pub ghost struct ZoneView {
    pub name: Seq<char>,
    pub lo: u8,
    pub hi: u8,
    pub fixed_note: Option<u8>,
    pub transpose: i8,
    pub model_id: Seq<char>,
    pub params: serde_json::Value,
    pub engine: EngineParams,
}

impl View for ZoneData {
    type V = ZoneView;

    open spec fn view(&self) -> ZoneView {
        ZoneView {
            name: self.name@,
            lo: self.lo,
            hi: self.hi,
            fixed_note: self.fixed_note,
            transpose: self.transpose,
            model_id: self.model_id@,
            params: self.params,
            engine: self.engine,
        }
    }
}

impl Clone for ZoneData {
    fn clone(&self) -> (r: Self)
        ensures
            r@ == self@,
    {
        ZoneData {
            name: self.name.clone(),
            lo: self.lo,
            hi: self.hi,
            fixed_note: self.fixed_note,
            transpose: self.transpose,
            model_id: self.model_id.clone(),
            params: json::copy_json(&self.params),
            engine: self.engine,
        }
    }
}

/// A list of zones, as values.
pub open spec fn zone_views(z: Seq<ZoneData>) -> Seq<ZoneView> {
    z.map_values(|d: ZoneData| d@)
}

/// A copy of a list of zones.
pub fn copy_zones(z: &Vec<ZoneData>) -> (r: Vec<ZoneData>)
    ensures
        zone_views(r@) == zone_views(z@),
{
    let mut r: Vec<ZoneData> = Vec::new();
    let mut i: usize = 0;
    while i < z.len()
        invariant
            i <= z@.len(),
            r@.len() == i,
            forall|j: int| 0 <= j < i ==> (#[trigger] r@[j])@ == z@[j]@,
        decreases z@.len() - i,
    {
        r.push(z[i].clone());
        i += 1;
    }
    assert(zone_views(r@) =~= zone_views(z@));
    r
}

/// One recorded parameter move: at time `t`, `target` was set to `value`.
pub struct AutoPoint {
    /// When it happened.
    pub t: Single,
    /// The parameter.
    pub target: String,
    /// Its new value.
    pub value: Single,
}

/// The level of a track that stores none: unity.
pub fn default_volume() -> (r: Single)
    ensures
        r == (Single { bits: ONE }),
{
    Single { bits: ONE }
}

/// One track of a song: its instrument and the notes it plays. With zones it is a
/// kit, without it is a single instrument.
pub struct TrackData {
    /// What the track is called.
    pub name: String,
    /// The identifier of its model.
    pub model_id: String,
    /// The parameters of its model.
    pub params: serde_json::Value,
    /// Its engine parameters.
    pub engine: EngineParams,
    /// Whether it is muted.
    pub muted: bool,
    /// Its level.
    pub volume: Single,
    /// Its place, left to right.
    pub pan: Single,
    /// Its fade-in.
    pub fade_in: Single,
    /// Its fade-out.
    pub fade_out: Single,
    /// Its own repeat period; none is the whole song.
    pub period: Option<Single>,
    /// Where it starts on the timeline.
    pub start: Option<Single>,
    /// How long it plays.
    pub span: Option<Single>,
    /// The zones of a kit.
    pub zones: Vec<ZoneData>,
    /// Recorded parameter moves.
    pub automation: Vec<AutoPoint>,
    /// Recorded notes.
    pub events: Vec<NoteEvent>,
}

/// Whether a clip that does not say so repeats: it does.
pub fn yes() -> (r: bool)
    ensures
        r,
{
    true
}

/// One placement of a track on the timeline.
pub struct ClipData {
    /// The track it plays.
    pub track: usize,
    /// Where it starts.
    pub start: Single,
    /// How long it plays; 0 is to the end of the song.
    pub length: Single,
    /// Where in its content playback begins.
    pub offset: Single,
    /// How long its content is; 0 is the track period.
    pub content_len: Single,
    /// The unit that it repeats; 0 is its content.
    pub loop_len: Single,
    /// Whether it repeats.
    pub looping: bool,
    /// Its own notes; none means those of its track.
    pub own_events: Option<Vec<NoteEvent>>,
}

/// A complete song.
pub struct SongData {
    /// How long it is; 0 is empty.
    pub length: Single,
    /// Its tracks.
    pub tracks: Vec<TrackData>,
    /// Its clips.
    pub arrangement: Vec<ClipData>,
}

/// How many of the events are key-downs.
pub open spec fn strikes(e: Seq<NoteEvent>) -> nat
    decreases e.len(),
{
    if e.len() == 0 {
        0
    } else if e.last().on {
        strikes(e.drop_last()) + 1
    } else {
        strikes(e.drop_last())
    }
}

/// How many key-downs the tracks hold in all.
pub open spec fn total_strikes(t: Seq<TrackData>) -> nat
    decreases t.len(),
{
    if t.len() == 0 {
        0
    } else {
        total_strikes(t.drop_last()) + strikes(t.last().events@)
    }
}

proof fn lemma_total_grows(t: Seq<TrackData>, i: int)
    requires
        0 <= i <= t.len(),
    ensures
        total_strikes(t.take(i)) <= total_strikes(t),
    decreases t.len(),
{
    if i == t.len() {
        assert(t.take(i) =~= t);
    } else {
        assert(t.take(i) =~= t.drop_last().take(i));
        lemma_total_grows(t.drop_last(), i);
    }
}

fn count_strikes(e: &Vec<NoteEvent>) -> (n: usize)
    ensures
        n == strikes(e@),
{
    let mut n: usize = 0;
    let mut i: usize = 0;
    while i < e.len()
        invariant
            i <= e@.len(),
            n <= i,
            n == strikes(e@.take(i as int)),
        decreases e@.len() - i,
    {
        proof {
            assert(e@.take(i + 1).drop_last() =~= e@.take(i as int));
        }
        if e[i].on {
            n += 1;
        }
        i += 1;
    }
    proof {
        assert(e@.take(i as int) =~= e@);
    }
    n
}

impl SongData {
    /// No length, or no tracks.
    pub open spec fn nothing(self) -> bool {
        self.length.le(Single { bits: ZERO }) || self.tracks@.len() == 0
    }

    /// Whether there is nothing to play.
    pub fn is_empty(&self) -> (r: bool)
        ensures
            r == self.nothing(),
    {
        self.length.less_eq(Single { bits: ZERO }) || self.tracks.len() == 0
    }

    /// How many notes the song holds.
    pub fn note_count(&self) -> (n: usize)
        requires
            total_strikes(self.tracks@) <= usize::MAX,
        ensures
            n == total_strikes(self.tracks@),
    {
        let mut n: usize = 0;
        let mut i: usize = 0;
        while i < self.tracks.len()
            invariant
                i <= self.tracks@.len(),
                n == total_strikes(self.tracks@.take(i as int)),
                total_strikes(self.tracks@) <= usize::MAX,
            decreases self.tracks@.len() - i,
        {
            proof {
                assert(self.tracks@.take(i + 1).drop_last() =~= self.tracks@.take(i as int));
                lemma_total_grows(self.tracks@, i + 1);
            }
            n = n + count_strikes(&self.tracks[i].events);
            i += 1;
        }
        proof {
            assert(self.tracks@.take(i as int) =~= self.tracks@);
        }
        n
    }
}

impl Default for SongData {
    /// An empty song.
    fn default() -> (r: Self)
        ensures
            r.length == (Single { bits: ZERO }),
            r.tracks@.len() == 0,
            r.arrangement@.len() == 0,
            r.nothing(),
    {
        SongData { length: Single { bits: ZERO }, tracks: Vec::new(), arrangement: Vec::new() }
    }
}

/// A named song within a project.
pub struct NamedSong {
    /// What the song is called.
    pub name: String,
    /// The song.
    pub data: SongData,
}

/// Tempo and grid settings.
#[derive(Clone, Copy, Debug, PartialEq, Eq, Structural)]
pub struct TempoGrid {
    /// Beats per minute.
    pub bpm: Single,
    /// Beats in a bar.
    pub beats_per_bar: u32,
    /// Bars that a take runs; 0 is free.
    pub bars: u32,
    /// Quantize steps per beat; 0 is off.
    pub quantize: u32,
    /// Whether clicks are heard.
    pub metronome: bool,
    /// Whether one bar of clicks precedes a take.
    pub count_in: bool,
}

/// The grid that a fresh project starts with.
pub open spec fn tempo_defaults() -> TempoGrid {
    TempoGrid {
        bpm: Single { bits: 0x42F0_0000 },  // 120.0
        beats_per_bar: 4,
        bars: 0,
        quantize: 0,
        metronome: false,
        count_in: false,
    }
}

impl Default for TempoGrid {
    fn default() -> (r: Self)
        ensures
            r == tempo_defaults(),
    {
        TempoGrid {
            bpm: Single { bits: 0x42F0_0000 },  // 120.0
            beats_per_bar: 4,
            bars: 0,
            quantize: 0,
            metronome: false,
            count_in: false,
        }
    }
}

/// What a quantize setting is called.
pub open spec fn quantize_text(q: u32) -> Seq<char> {
    if q == 0 {
        "Off"@
    } else if q == 1 {
        "1/4"@
    } else if q == 2 {
        "1/8"@
    } else if q == 3 {
        "1/8T"@
    } else if q == 4 {
        "1/16"@
    } else {
        "?"@
    }
}

/// What a quantize setting is called.
pub fn quantize_name(q: u32) -> (r: &'static str)
    ensures
        r@ == quantize_text(q),
{
    match q {
        0 => "Off",
        1 => "1/4",
        2 => "1/8",
        3 => "1/8T",
        4 => "1/16",
        _ => "?",
    }
}

/// A project: a named collection of songs.
pub struct Project {
    /// What the project is called.
    pub name: String,
    /// Its songs.
    pub loops: Vec<NamedSong>,
    /// Its tempo and grid.
    pub tempo: TempoGrid,
}

/// The name that a project without one gets.
pub open spec fn project_name(typed: Seq<char>) -> Seq<char> {
    if text::trimmed(typed).len() == 0 {
        "Untitled"@
    } else {
        text::trimmed(typed)
    }
}

impl Project {
    /// A new project: no name, no songs, the given grid.
    pub fn untitled(tempo: TempoGrid) -> (r: Project)
        ensures
            r.name@ == "Untitled"@,
            r.loops@.len() == 0,
            r.tempo == tempo,
    {
        Project { name: "Untitled".to_owned(), loops: Vec::new(), tempo }
    }

    /// Takes the typed name and what is in the studio: an empty studio leaves the
    /// project without songs, else the project holds that one song under its own name.
    /// Without a studio the songs stay.
    pub fn capture(&mut self, typed: &str, studio: Option<SongData>)
        ensures
            final(self).name@ == project_name(typed@),
            final(self).tempo == old(self).tempo,
            studio is None ==> final(self).loops == old(self).loops,
            studio matches Some(d) ==> if d.nothing() {
                final(self).loops@.len() == 0
            } else {
                &&& final(self).loops@.len() == 1
                &&& final(self).loops@[0].data == d
                &&& final(self).loops@[0].name@ == project_name(typed@)
            },
    {
        let name = text::trim(typed);
        let name: String = if text::chars_of(name.as_str()).len() == 0 {
            "Untitled".to_owned()
        } else {
            name
        };
        if let Some(data) = studio {
            let mut loops: Vec<NamedSong> = Vec::new();
            if !data.is_empty() {
                loops.push(NamedSong { name: name.clone(), data });
            }
            self.loops = loops;
        }
        self.name = name;
    }
}

/// The stem of the file that a project is stored in.
pub fn file_stem(name: &str) -> (r: String)
    ensures
        r@ == files::stem(name@, "project"@),
{
    files::stem_text(name, "project")
}

/// The name of the file that a project is stored in.
pub fn file_name(name: &str) -> (r: String)
    ensures
        r@ == files::stem(name@, "project"@) + ".json"@,
{
    let s = file_stem(name);
    files::file_name(s.as_str(), ".json")
}

/// A file found in a folder: its name, and the name of the project that it holds, if
/// it could be read as one.
pub struct Listing {
    /// The name of the file.
    pub file: String,
    /// The name of the project in it.
    pub project: Option<String>,
}

/// The names of the projects among the files, in the order found.
pub open spec fn found_projects(l: Seq<Listing>) -> Seq<Seq<char>>
    decreases l.len(),
{
    if l.len() == 0 {
        Seq::empty()
    } else {
        let rest = found_projects(l.drop_last());
        match l.last().project {
            Some(p) => if files::is_json_name(l.last().file@) {
                rest.push(p@)
            } else {
                rest
            },
            None => rest,
        }
    }
}

/// The names of the projects in a folder, in dictionary order of their lower-case
/// forms. Files without the extension, and files that do not hold a project, are
/// passed over.
pub fn list(found: &Vec<Listing>) -> (r: Vec<String>)
    ensures
        files::is_sorted_listing(found_projects(found@), r@.map_values(|s: String| s@)),
{
    let mut names: Vec<String> = Vec::new();
    let mut i: usize = 0;
    while i < found.len()
        invariant
            i <= found@.len(),
            names@.map_values(|s: String| s@) == found_projects(found@.take(i as int)),
        decreases found@.len() - i,
    {
        let ghost before = names@;
        proof {
            assert(found@.take(i + 1).drop_last() =~= found@.take(i as int));
        }
        if let Some(p) = &found[i].project {
            if files::is_json_file(found[i].file.as_str()) {
                let p: String = p.clone();
                names.push(p);
                proof {
                    assert(names@.map_values(|s: String| s@) =~= before.map_values(
                        |s: String| s@,
                    ).push(p@));
                }
            }
        }
        i += 1;
    }
    proof {
        assert(found@.take(i as int) =~= found@);
    }
    files::sorted_names(&names)
}

/// Whatever a project is called, its file has a safe stem.
pub proof fn project_files_are_safe(name: Seq<char>)
    ensures
        files::is_safe(files::stem(name, "project"@)),
{
    reveal_strlit("project");
    files::stem_is_safe(name, "project"@);
}

/// Only key-downs count as notes, each once.
pub proof fn every_strike_counts_once(e: Seq<NoteEvent>, x: NoteEvent)
    ensures
        x.on ==> strikes(e.push(x)) == strikes(e) + 1,
        !x.on ==> strikes(e.push(x)) == strikes(e),
        strikes(Seq::<NoteEvent>::empty()) == 0,
        strikes(e) <= e.len(),
    decreases e.len(),
{
    assert(e.push(x).drop_last() =~= e);
    if e.len() > 0 {
        every_strike_counts_once(e.drop_last(), x);
    }
}

/// A song holds the notes of all its tracks.
pub proof fn songs_count_all_tracks(t: Seq<TrackData>, x: TrackData)
    ensures
        total_strikes(t.push(x)) == total_strikes(t) + strikes(x.events@),
        total_strikes(Seq::<TrackData>::empty()) == 0,
{
    assert(t.push(x).drop_last() =~= t);
}

/// A song can be played exactly if it has both a length and tracks.
pub proof fn songs_need_length_and_tracks(s: SongData)
    ensures
        s.tracks@.len() == 0 ==> s.nothing(),
        s.length.le(Single { bits: 0 }) ==> s.nothing(),
        (Single { bits: 0 }).lt(s.length) && s.tracks@.len() > 0 ==> !s.nothing(),
{
}

/// A project is never without a name: it has the typed one without the space around it, or
/// is untitled.
pub proof fn projects_are_named(typed: Seq<char>)
    ensures
        project_name(typed).len() > 0,
        text::trimmed(typed).len() > 0 ==> project_name(typed) == text::trimmed(typed),
        text::trimmed(typed).len() == 0 ==> project_name(typed) == "Untitled"@,
{
    reveal_strlit("Untitled");
}

/// The settings to start with are these decimals.
pub proof fn tempo_starts_at()
    ensures
        tempo_defaults().bpm == crate::decimal::decimal(120_0000),
        tempo_defaults().beats_per_bar == 4,
        tempo_defaults().bars == 0,
        tempo_defaults().quantize == 0,
        !tempo_defaults().metronome,
        !tempo_defaults().count_in,
{
    vstd::arithmetic::power2::lemma2_to64();
    vstd::arithmetic::power2::lemma2_to64_rest();
    crate::decimal::decimal_is(120_0000, 17, 0x20000, 0xF00000);
}

/// The projects found in a folder are those that the JSON files hold, in the order found.
/// `order` says which file each of them came from.
pub proof fn json_files_are_listed(l: Seq<Listing>) -> (order: Seq<int>)
    ensures
        order.len() == found_projects(l).len(),
        forall|j: int, k: int| 0 <= j < k < order.len() ==> order[j] < order[k],
        forall|j: int|
            0 <= j < order.len() ==> {
                &&& 0 <= (#[trigger] order[j]) < l.len()
                &&& files::is_json_name(l[order[j]].file@)
                &&& l[order[j]].project matches Some(p) && found_projects(l)[j] == p@
            },
        forall|k: int|
            0 <= k < l.len() && (#[trigger] l[k]).project is Some && files::is_json_name(
                l[k].file@,
            ) ==> order.contains(k),
    decreases l.len(),
{
    if l.len() == 0 {
        Seq::empty()
    } else {
        let head = l.drop_last();
        let rest = json_files_are_listed(head);
        let last = l.len() - 1;
        let order = if l.last().project is Some && files::is_json_name(l.last().file@) {
            rest.push(last)
        } else {
            rest
        };
        assert forall|k: int| 0 <= k < head.len() implies head[k] == l[k] by {}
        assert forall|k: int|
            0 <= k < l.len() && (#[trigger] l[k]).project is Some && files::is_json_name(
                l[k].file@,
            ) implies order.contains(k) by {
            if k < last {
                assert(head[k].project is Some);
                let j = choose|j: int| 0 <= j < rest.len() && rest[j] == k;
                assert(order[j] == k);
            } else {
                assert(order[rest.len() as int] == k);
            }
        }
        assert forall|j: int| 0 <= j < order.len() implies {
            &&& 0 <= (#[trigger] order[j]) < l.len()
            &&& files::is_json_name(l[order[j]].file@)
            &&& l[order[j]].project matches Some(p) && found_projects(l)[j] == p@
        } by {
            if j < rest.len() {
                assert(order[j] == rest[j]);
                assert(head[rest[j]] == l[rest[j]]);
                assert(found_projects(l)[j] == found_projects(head)[j]);
            }
        }
        order
    }
}

/// Quantize settings are called by the fraction of a bar that they round to, triplets by
/// that of the notes they replace.
pub proof fn settings_are_called_by_their_fraction(q: u32)
    ensures
        quantize_text(0) == "Off"@,
        q == 1 || q == 2 || q == 4 ==> quantize_text(q) == "1/"@ + crate::text::decimal(
            (4 * q) as nat,
        ),
        quantize_text(3) == quantize_text(2) + "T"@,
        q > 4 ==> quantize_text(q) == "?"@,
{
    reveal_strlit("1/");
    reveal_strlit("1/4");
    reveal_strlit("1/8");
    reveal_strlit("1/8T");
    reveal_strlit("T");
    reveal_strlit("1/16");
    reveal_with_fuel(crate::text::decimal, 3);
    assert("1/4"@ =~= "1/"@ + crate::text::decimal(4));
    assert("1/8"@ =~= "1/"@ + crate::text::decimal(8));
    assert("1/16"@ =~= "1/"@ + crate::text::decimal(16));
    assert("1/8T"@ =~= "1/8"@ + "T"@);
}

} // verus!
