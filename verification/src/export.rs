//! Offline export: file names, render length, and render-only quality settings.

use crate::files;
use crate::json;
use crate::project::{SongData, TrackData, ZoneData};
use crate::text;
use vstd::prelude::*;

verus! {

/// The eigensolve resolution of a horn in a high-quality render.
pub const HI_RES: u64 = 512;

/// The name of the file that an export is written to.
pub fn export_path(name: &str) -> (r: String)
    ensures
        r@ == files::stem(name@, "export"@) + ".wav"@,
{
    let s = files::stem_text(name, "export");
    files::file_name(s.as_str(), ".wav")
}

/// `b` holds the parameters `a` of a model as a high-quality render wants them: a horn
/// gets the highest resolution, anything else stays.
pub open spec fn is_hi_res(id: Seq<char>, a: serde_json::Value, b: serde_json::Value) -> bool {
    if id == "webster_horn"@ && json::json_is_object(a) {
        json::json_is_object(b) && json::json_members(b) == json::json_members(a).insert(
            "resolution"@,
            json::json_number(HI_RES),
        )
    } else {
        b == a
    }
}

/// A zone in high quality.
pub open spec fn zone_hi_res(a: ZoneData, b: ZoneData) -> bool {
    b == (ZoneData { params: b.params, ..a }) && is_hi_res(a.model_id@, a.params, b.params)
}

/// A track in high quality: its own parameters and those of its zones.
pub open spec fn track_hi_res(a: TrackData, b: TrackData) -> bool {
    &&& b == (TrackData { params: b.params, zones: b.zones, ..a })
    &&& is_hi_res(a.model_id@, a.params, b.params)
    &&& b.zones@.len() == a.zones@.len()
    &&& forall|i: int| 0 <= i < a.zones@.len() ==> zone_hi_res(a.zones@[i], #[trigger] b.zones@[i])
}

fn bump(model_id: &str, params: &mut serde_json::Value)
    ensures
        is_hi_res(model_id@, *old(params), *final(params)),
{
    if text::same_text(model_id, "webster_horn") {
        if json::is_object(params) {
            json::set_member(params, "resolution", json::number_json(HI_RES));
        }
    }
}

fn bump_zones(zones: &mut Vec<ZoneData>)
    ensures
        final(zones)@.len() == old(zones)@.len(),
        forall|i: int|
            0 <= i < old(zones)@.len() ==> zone_hi_res(
                old(zones)@[i],
                #[trigger] final(zones)@[i],
            ),
{
    let mut i: usize = 0;
    while i < zones.len()
        invariant
            i <= zones@.len() == old(zones)@.len(),
            forall|j: int| i <= j < zones@.len() ==> #[trigger] zones@[j] == old(zones)@[j],
            forall|j: int|
                0 <= j < i ==> zone_hi_res(old(zones)@[j], #[trigger] zones@[j]),
        decreases zones@.len() - i,
    {
        let id: String = zones[i].model_id.clone();
        bump(id.as_str(), &mut zones[i].params);
        i += 1;
    }
}

/// A song in high quality: the same song, with each track in high quality.
pub open spec fn song_hi_res(a: SongData, b: SongData) -> bool {
    &&& b.length == a.length
    &&& b.arrangement == a.arrangement
    &&& b.tracks@.len() == a.tracks@.len()
    &&& forall|i: int|
        0 <= i < a.tracks@.len() ==> track_hi_res(a.tracks@[i], #[trigger] b.tracks@[i])
}

/// Raises the render-only quality settings of a song's instruments.
pub fn apply_hi_res(data: &mut SongData)
    ensures
        song_hi_res(*old(data), *final(data)),
{
    let mut i: usize = 0;
    while i < data.tracks.len()
        invariant
            data.length == old(data).length,
            data.arrangement == old(data).arrangement,
            i <= data.tracks@.len() == old(data).tracks@.len(),
            forall|j: int|
                i <= j < data.tracks@.len() ==> #[trigger] data.tracks@[j] == old(data).tracks@[j],
            forall|j: int|
                0 <= j < i ==> track_hi_res(old(data).tracks@[j], #[trigger] data.tracks@[j]),
        decreases data.tracks@.len() - i,
    {
        let id: String = data.tracks[i].model_id.clone();
        bump(id.as_str(), &mut data.tracks[i].params);
        bump_zones(&mut data.tracks[i].zones);
        i += 1;
    }
}

/// Raising the quality twice is raising it once.
pub proof fn hi_res_is_idempotent(
    id: Seq<char>,
    a: serde_json::Value,
    b: serde_json::Value,
    c: serde_json::Value,
)
    requires
        is_hi_res(id, a, b),
        is_hi_res(id, b, c),
    ensures
        json::json_is_object(c) == json::json_is_object(b),
        json::json_members(c) == json::json_members(b),
{
    assert(json::json_members(c) =~= json::json_members(b));
}

/// Why nothing was rendered.
#[derive(Clone, Copy, Debug, PartialEq, Eq, Structural)]
pub enum ExportError {
    /// The song has no length or no tracks.
    NothingToExport,
    /// There are no sections.
    EmptyArrangement,
}

impl ExportError {
    /// What the error says.
    pub open spec fn message_text(self) -> Seq<char> {
        match self {
            ExportError::NothingToExport => "nothing to export"@,
            ExportError::EmptyArrangement => "empty arrangement"@,
        }
    }

    /// What the error says.
    pub fn message(&self) -> (r: &'static str)
        ensures
            r@ == self.message_text(),
    {
        match self {
            ExportError::NothingToExport => "nothing to export",
            ExportError::EmptyArrangement => "empty arrangement",
        }
    }
}

/// `x`, or the largest number that fits.
pub open spec fn saturated(x: int) -> int {
    if x <= usize::MAX {
        x
    } else {
        usize::MAX as int
    }
}

/// How often a section plays: at least once.
pub open spec fn times(repeats: u32) -> int {
    if repeats == 0 {
        1
    } else {
        repeats as int
    }
}

/// Gets a song ready for rendering: in high quality if asked for. `loop_frames` is its
/// length in frames. Returns how many frames to render before the tail.
pub fn render_loop_to_wav(
    data: &mut SongData,
    loop_frames: usize,
    repeats: u32,
    hi_res: bool,
) -> (r: Result<usize, ExportError>)
    ensures
        r == if old(data).nothing() {
            Err::<usize, ExportError>(ExportError::NothingToExport)
        } else {
            Ok::<usize, ExportError>(saturated(loop_frames * times(repeats)) as usize)
        },
        !hi_res || old(data).nothing() ==> *final(data) == *old(data),
        hi_res && !old(data).nothing() ==> song_hi_res(*old(data), *final(data)),
{
    if data.is_empty() {
        return Err(ExportError::NothingToExport);
    }
    if hi_res {
        apply_hi_res(data);
    }
    let n: usize = if repeats == 0 {
        1
    } else {
        repeats as usize
    };
    match loop_frames.checked_mul(n) {
        Some(t) => Ok(t),
        None => Ok(usize::MAX),
    }
}

/// A section of a song: what it plays, how long that is in frames, and how often.
pub struct Section {
    /// What it plays.
    pub data: SongData,
    /// Length in frames.
    pub frames: usize,
    /// How often it plays; none counts as once.
    pub repeats: u32,
}

/// A section got ready for rendering: what it plays is in high quality if asked for, and
/// unchanged if not; how long and how often it plays is unchanged.
pub open spec fn section_ready(a: Section, b: Section, hi_res: bool) -> bool {
    &&& b == (Section { data: b.data, ..a })
    &&& if hi_res {
        song_hi_res(a.data, b.data)
    } else {
        b.data == a.data
    }
}

/// The frames of the sections, added up and kept from overflowing.
pub open spec fn song_frames(s: Seq<Section>) -> int
    decreases s.len(),
{
    if s.len() == 0 {
        0
    } else {
        saturated(song_frames(s.drop_last()) + s.last().frames * times(s.last().repeats))
    }
}

/// Gets a whole arrangement ready for rendering: each section in high quality if asked
/// for. Returns how many frames to render before the tail.
pub fn render_song_to_wav(sections: &mut Vec<Section>, hi_res: bool) -> (r: Result<
    usize,
    ExportError,
>)
    requires
        forall|i: int|
            0 <= i < old(sections)@.len() ==> (#[trigger] old(sections)@[i]).frames * times(
                old(sections)@[i].repeats,
            ) <= usize::MAX,
    ensures
        r == if old(sections)@.len() == 0 {
            Err::<usize, ExportError>(ExportError::EmptyArrangement)
        } else {
            Ok::<usize, ExportError>(song_frames(old(sections)@) as usize)
        },
        final(sections)@.len() == old(sections)@.len(),
        forall|i: int|
            0 <= i < old(sections)@.len() ==> section_ready(
                old(sections)@[i],
                #[trigger] final(sections)@[i],
                hi_res,
            ),
{
    if sections.len() == 0 {
        return Err(ExportError::EmptyArrangement);
    }
    let ghost before = sections@;
    let mut total: usize = 0;
    let mut i: usize = 0;
    while i < sections.len()
        invariant
            i <= sections@.len() == before.len(),
            total == song_frames(before.take(i as int)),
            forall|j: int|
                0 <= j < before.len() ==> (#[trigger] before[j]).frames * times(before[j].repeats)
                    <= usize::MAX,
            forall|j: int| i <= j < before.len() ==> #[trigger] sections@[j] == before[j],
            forall|j: int|
                0 <= j < i ==> section_ready(before[j], #[trigger] sections@[j], hi_res),
        decreases sections@.len() - i,
    {
        proof {
            assert(before.take(i + 1).drop_last() =~= before.take(i as int));
            assert(sections@[i as int] == before[i as int]);
        }
        if hi_res {
            apply_hi_res(&mut sections[i].data);
        }
        let repeats: u32 = sections[i].repeats;
        let n: usize = if repeats == 0 {
            1
        } else {
            repeats as usize
        };
        let frames: usize = sections[i].frames * n;
        total = match total.checked_add(frames) {
            Some(t) => t,
            None => usize::MAX,
        };
        i += 1;
    }
    proof {
        assert(before.take(i as int) =~= before);
    }
    Ok(total)
}

/// A high-quality render raises the resolution of a horn and nothing else of it, and leaves
/// every other model as it is.
pub proof fn only_horns_are_refined(
    id: Seq<char>,
    a: serde_json::Value,
    b: serde_json::Value,
    key: Seq<char>,
)
    requires
        is_hi_res(id, a, b),
    ensures
        id != "webster_horn"@ ==> b == a,
        !json::json_is_object(a) ==> b == a,
        id == "webster_horn"@ && json::json_is_object(a) ==> {
            &&& json::json_is_object(b)
            &&& json::json_members(b).contains_key("resolution"@)
            &&& json::json_members(b)["resolution"@] == json::json_number(512)
            &&& key != "resolution"@ ==> (json::json_members(b).contains_key(key)
                <==> json::json_members(a).contains_key(key)) && json::json_members(b)[key]
                == json::json_members(a)[key]
        },
{
}

/// A song in high quality is the same song: nothing but the parameters of its tracks and
/// their zones can differ, and those are refined.
pub proof fn refined_songs_are_the_same_songs(a: SongData, b: SongData, i: int)
    requires
        song_hi_res(a, b),
        0 <= i < a.tracks@.len(),
    ensures
        b.length == a.length,
        b.arrangement == a.arrangement,
        b.tracks@.len() == a.tracks@.len(),
        b.tracks@[i].name == a.tracks@[i].name,
        b.tracks@[i].events == a.tracks@[i].events,
        b.tracks@[i].model_id == a.tracks@[i].model_id,
        b.tracks@[i].engine == a.tracks@[i].engine,
        is_hi_res(a.tracks@[i].model_id@, a.tracks@[i].params, b.tracks@[i].params),
        b.tracks@[i].zones@.len() == a.tracks@[i].zones@.len(),
{
    assert(track_hi_res(a.tracks@[i], b.tracks@[i]));
}

/// Every section counts as often as it plays, at least once, one after the other.
pub proof fn sections_play_one_after_the_other(s: Seq<Section>, x: Section)
    requires
        song_frames(s) + x.frames * times(x.repeats) <= usize::MAX,
    ensures
        song_frames(s.push(x)) == song_frames(s) + x.frames * times(x.repeats),
        times(0) == 1,
        x.repeats > 0 ==> times(x.repeats) == x.repeats,
        song_frames(Seq::<Section>::empty()) == 0,
{
    assert(s.push(x).drop_last() =~= s);
}

/// Lengths never overflow: past the largest number they stay there.
pub proof fn lengths_never_overflow(x: int)
    ensures
        x <= usize::MAX ==> saturated(x) == x,
        x > usize::MAX ==> saturated(x) == usize::MAX,
{
}

/// A section that is ready plays as long and as often as before, and its song is refined or
/// the same.
pub proof fn ready_sections_play_as_before(a: Section, b: Section, hi_res: bool)
    requires
        section_ready(a, b, hi_res),
    ensures
        b.frames == a.frames,
        b.repeats == a.repeats,
        !hi_res ==> b.data == a.data,
        hi_res ==> song_hi_res(a.data, b.data),
        b.data.length == a.data.length,
        b.data.tracks@.len() == a.data.tracks@.len(),
{
}

/// A zone in high quality is the same zone, with the parameters of its model refined.
pub proof fn refined_zones_are_the_same_zones(a: ZoneData, b: ZoneData)
    requires
        zone_hi_res(a, b),
    ensures
        b.name == a.name && b.lo == a.lo && b.hi == a.hi && b.fixed_note == a.fixed_note
            && b.transpose == a.transpose && b.model_id == a.model_id && b.engine == a.engine,
        is_hi_res(a.model_id@, a.params, b.params),
{
}

} // verus!
