//! The session around the instruments: what is edited, what a preset is loaded onto, how
//! the live kit is put together, and what is said about it all.

use crate::instrument::{EngineParams, Model};
use crate::json;
use crate::keyboard;
use crate::models;
use crate::models::ModelKind;
use crate::presets::{Preset, PresetView};
use crate::project;
use crate::project::{ZoneData, ZoneView};
use crate::text;
use vstd::prelude::*;

verus! {

/// What the parameter panel edits.
#[derive(Clone, Copy, Debug, PartialEq, Eq, Structural)]
pub enum Target {
    /// The instrument played from the keyboard.
    Live,
    /// The instrument of a track.
    Track(usize),
}

/// The grid that clip drags snap to.
#[derive(Clone, Copy, Debug, PartialEq, Eq, Structural)]
pub enum Snap {
    /// Whole bars.
    Bar,
    /// Beats.
    Quarter,
    /// Half beats.
    Eighth,
    /// Quarter beats.
    Sixteenth,
    /// No grid.
    Free,
}

/// A length of time on the grid.
#[derive(Clone, Copy, Debug, PartialEq, Eq, Structural)]
pub enum GridUnit {
    /// A whole bar.
    Bar,
    /// A beat, divided by this.
    BeatOver(u32),
}

impl Snap {
    /// What the grid is called.
    pub open spec fn label_text(self) -> Seq<char> {
        match self {
            Snap::Bar => "Bar"@,
            Snap::Quarter => "1/4"@,
            Snap::Eighth => "1/8"@,
            Snap::Sixteenth => "1/16"@,
            Snap::Free => "Free"@,
        }
    }

    /// What the grid is called.
    pub fn label(self) -> (r: &'static str)
        ensures
            r@ == self.label_text(),
    {
        match self {
            Snap::Bar => "Bar",
            Snap::Quarter => "1/4",
            Snap::Eighth => "1/8",
            Snap::Sixteenth => "1/16",
            Snap::Free => "Free",
        }
    }

    /// The length that the grid repeats, if there is one.
    pub fn secs(self) -> (r: Option<GridUnit>)
        ensures
            r == match self {
                Snap::Bar => Some(GridUnit::Bar),
                Snap::Quarter => Some(GridUnit::BeatOver(1)),
                Snap::Eighth => Some(GridUnit::BeatOver(2)),
                Snap::Sixteenth => Some(GridUnit::BeatOver(4)),
                Snap::Free => None,
            },
    {
        match self {
            Snap::Bar => Some(GridUnit::Bar),
            Snap::Quarter => Some(GridUnit::BeatOver(1)),
            Snap::Eighth => Some(GridUnit::BeatOver(2)),
            Snap::Sixteenth => Some(GridUnit::BeatOver(4)),
            Snap::Free => None,
        }
    }
}

/// The target after the number of tracks became `n`: a track that is gone is no longer
/// edited.
pub open spec fn still_there(t: Target, n: int) -> Target {
    match t {
        Target::Track(i) => if i < n {
            t
        } else {
            Target::Live
        },
        Target::Live => t,
    }
}

/// The target after the number of tracks became `n`.
pub fn keep_target(t: Target, n: usize) -> (r: Target)
    ensures
        r == still_there(t, n as int),
{
    match t {
        Target::Track(i) => if i < n {
            t
        } else {
            Target::Live
        },
        Target::Live => t,
    }
}

/// The target after track `gone` was deleted: if that was edited, the live sound is edited
/// instead.
pub fn target_without(now: Target, gone: usize) -> (r: Target)
    ensures
        r == if now == Target::Track(gone) {
            Target::Live
        } else {
            now
        },
{
    match now {
        Target::Track(i) => if i == gone {
            Target::Live
        } else {
            now
        },
        Target::Live => now,
    }
}

/// The target after `wanted` is chosen with `n` tracks: a track that is not there is not
/// chosen.
pub fn set_target(now: Target, wanted: Target, n: usize) -> (r: Target)
    ensures
        r == match wanted {
            Target::Track(i) => if i < n {
                wanted
            } else {
                now
            },
            Target::Live => wanted,
        },
{
    match wanted {
        Target::Track(i) => if i < n {
            wanted
        } else {
            now
        },
        Target::Live => wanted,
    }
}

/// What is saved as a preset.
#[derive(Clone, Copy, Debug, PartialEq, Eq, Structural)]
pub enum SaveSource {
    /// The live kit.
    Kit,
    /// The instrument of the edited track.
    Track,
    /// The live instrument.
    Live,
}

/// What is saved: the live kit, the instrument of the edited track if it is the one
/// being edited, or the live instrument.
pub open spec fn saved(t: Target, live_is_kit: bool, editing: Option<usize>) -> SaveSource {
    match t {
        Target::Live => if live_is_kit {
            SaveSource::Kit
        } else {
            SaveSource::Live
        },
        Target::Track(i) => if editing == Some(i) {
            SaveSource::Track
        } else {
            SaveSource::Live
        },
    }
}

/// Under what name, and what, to save as a preset; nothing without a name.
pub fn save_choice(
    typed: &str,
    t: Target,
    live_is_kit: bool,
    editing: Option<usize>,
) -> (r: Option<(String, SaveSource)>)
    ensures
        r is None <==> text::trimmed(typed@).len() == 0,
        r matches Some(c) ==> c.0@ == text::trimmed(typed@) && c.1 == saved(
            t,
            live_is_kit,
            editing,
        ),
{
    let name = text::trim(typed);
    if text::chars_of(name.as_str()).len() == 0 {
        return None;
    }
    let source: SaveSource = match t {
        Target::Live => if live_is_kit {
            SaveSource::Kit
        } else {
            SaveSource::Live
        },
        Target::Track(i) => match editing {
            Some(e) => if e == i {
                SaveSource::Track
            } else {
                SaveSource::Live
            },
            None => SaveSource::Live,
        },
    };
    Some((name, source))
}

/// What a preset is loaded onto.
#[derive(Clone, Copy, Debug, PartialEq, Eq, Structural)]
pub enum LoadOnto {
    /// The keyboard, as a kit.
    Keyboard,
    /// Nothing: the model is unknown, or its parameters do not fit.
    Nothing,
    /// A track.
    Track(usize),
    /// The slot of its model in the picker.
    Slot(usize),
    /// A new slot.
    NewSlot,
}

/// The first slot that holds the model `k`.
pub open spec fn is_slot(slots: Seq<ModelKind>, k: ModelKind, r: Option<usize>) -> bool {
    match r {
        Some(i) => i < slots.len() && slots[i as int] == k && forall|j: int|
            0 <= j < i ==> #[trigger] slots[j] != k,
        None => forall|j: int| 0 <= j < slots.len() ==> #[trigger] slots[j] != k,
    }
}

/// The first slot that holds the model `k`.
pub fn slot_of(slots: &Vec<ModelKind>, k: ModelKind) -> (r: Option<usize>)
    ensures
        is_slot(slots@, k, r),
{
    let mut i: usize = 0;
    while i < slots.len()
        invariant
            i <= slots@.len(),
            forall|j: int| 0 <= j < i ==> #[trigger] slots@[j] != k,
        decreases slots@.len() - i,
    {
        if slots[i] == k {
            return Some(i);
        }
        i += 1;
    }
    None
}

/// What a preset is loaded onto, its model being `model`: a kit onto the keyboard;
/// otherwise onto the edited track, or into the slot of its model.
pub open spec fn is_load(
    p: PresetView,
    model: Option<Model>,
    t: Target,
    slots: Seq<ModelKind>,
    r: LoadOnto,
) -> bool {
    if p.zones.len() > 0 {
        r == LoadOnto::Keyboard
    } else {
        match model {
            None => r == LoadOnto::Nothing,
            Some(m) => match t {
                Target::Track(i) => r == LoadOnto::Track(i),
                Target::Live => match r {
                    LoadOnto::Slot(i) => is_slot(slots, m.kind, Some(i)),
                    LoadOnto::NewSlot => is_slot(slots, m.kind, None),
                    _ => false,
                },
            },
        }
    }
}

/// What is said when a preset is loaded.
pub open spec fn load_text(p: PresetView, r: LoadOnto) -> Seq<char> {
    match r {
        LoadOnto::Keyboard => "Loaded kit “"@ + p.name + "” ("@ + text::decimal(p.zones.len())
            + " zones) onto the keyboard."@,
        LoadOnto::Nothing => "Can't load “"@ + p.name + "”: unknown model “"@ + p.model_id
            + "”."@,
        LoadOnto::Track(i) => "Loaded “"@ + p.name + "” onto track "@ + text::decimal(
            (i + 1) as nat,
        ) + "."@,
        _ => "Loaded “"@ + p.name + "”."@,
    }
}

/// What a preset is loaded onto, and what is said about it.
pub fn apply_preset(
    p: &Preset,
    model: &Option<Model>,
    t: Target,
    slots: &Vec<ModelKind>,
) -> (r: (LoadOnto, String))
    requires
        t matches Target::Track(i) ==> i < usize::MAX,
    ensures
        is_load(p@, *model, t, slots@, r.0),
        r.1@ == load_text(p@, r.0),
{
    if p.is_kit() {
        let mut s: String = "Loaded kit “".to_owned();
        s.append(p.name.as_str());
        s.append("” (");
        s.append(text::decimal_text(p.zones.len() as u64).as_str());
        s.append(" zones) onto the keyboard.");
        return (LoadOnto::Keyboard, s);
    }
    let kind: ModelKind = match model {
        Some(m) => m.kind,
        None => {
            let mut s: String = "Can't load “".to_owned();
            s.append(p.name.as_str());
            s.append("”: unknown model “");
            s.append(p.model_id.as_str());
            s.append("”.");
            return (LoadOnto::Nothing, s);
        },
    };
    let mut s: String = "Loaded “".to_owned();
    s.append(p.name.as_str());
    match t {
        Target::Track(i) => {
            s.append("” onto track ");
            s.append(text::decimal_text((i + 1) as u64).as_str());
            s.append(".");
            (LoadOnto::Track(i), s)
        },
        Target::Live => {
            s.append("”.");
            match slot_of(slots, kind) {
                Some(i) => (LoadOnto::Slot(i), s),
                None => (LoadOnto::NewSlot, s),
            }
        },
    }
}

/// What is said when a preset is deleted.
pub open spec fn delete_text(name: Seq<char>, outcome: Result<bool, String>) -> Seq<char> {
    match outcome {
        Ok(true) => "Deleted “"@ + name + "”."@,
        Ok(false) => "“"@ + name + "” not found."@,
        Err(e) => "Delete failed: "@ + e@,
    }
}

/// What is said when a preset is deleted.
pub fn delete_status(name: &str, outcome: &Result<bool, String>) -> (r: String)
    ensures
        r@ == delete_text(name@, *outcome),
{
    match outcome {
        Ok(done) => if *done {
            let mut s: String = "Deleted “".to_owned();
            s.append(name);
            s.append("”.");
            s
        } else {
            let mut s: String = "“".to_owned();
            s.append(name);
            s.append("” not found.");
            s
        },
        Err(e) => {
            let mut s: String = "Delete failed: ".to_owned();
            s.append(e.as_str());
            s
        },
    }
}

/// Text with its ASCII letters in lower case.
pub open spec fn ascii_lower(s: Seq<char>) -> Seq<char> {
    s.map_values(|c: char| lower_char(c))
}

/// A character, an ASCII letter in lower case.
pub open spec fn lower_char(c: char) -> char {
    if 0x41 <= c as int <= 0x5A {
        (c as int + 0x20) as char
    } else {
        c
    }
}

fn to_lower_char(c: char) -> (r: char)
    ensures
        r == lower_char(c),
{
    let u: u32 = text::code_point(c);
    if 0x41 <= u && u <= 0x5A {
        (u as u8 + 0x20) as char
    } else {
        c
    }
}

/// Whether two texts are the same but for the case of ASCII letters.
pub fn same_ignoring_case(a: &str, b: &str) -> (r: bool)
    ensures
        r == (ascii_lower(a@) == ascii_lower(b@)),
{
    let x = text::chars_of(a);
    let y = text::chars_of(b);
    if x.len() != y.len() {
        assert(ascii_lower(a@).len() != ascii_lower(b@).len());
        return false;
    }
    let mut i: usize = 0;
    while i < x.len()
        invariant
            x@ == a@,
            y@ == b@,
            x@.len() == y@.len(),
            i <= x@.len(),
            forall|j: int| 0 <= j < i ==> lower_char(#[trigger] x@[j]) == lower_char(y@[j]),
        decreases x@.len() - i,
    {
        if to_lower_char(x[i]) != to_lower_char(y[i]) {
            assert(ascii_lower(a@)[i as int] != ascii_lower(b@)[i as int]);
            return false;
        }
        i += 1;
    }
    assert(ascii_lower(a@) =~= ascii_lower(b@));
    true
}

/// Whether there is a preset of the typed name, but for the case of ASCII letters.
pub fn can_delete(list: &Vec<Preset>, typed: &str) -> (r: bool)
    ensures
        r == exists|i: int|
            0 <= i < list@.len() && ascii_lower((#[trigger] list@[i])@.name) == ascii_lower(
                text::trimmed(typed@),
            ),
{
    let name = text::trim(typed);
    let mut i: usize = 0;
    while i < list.len()
        invariant
            name@ == text::trimmed(typed@),
            i <= list@.len(),
            forall|j: int|
                0 <= j < i ==> ascii_lower((#[trigger] list@[j])@.name) != ascii_lower(name@),
        decreases list@.len() - i,
    {
        if same_ignoring_case(list[i].name.as_str(), name.as_str()) {
            assert(list@[i as int]@.name == list@[i as int].name@);
            return true;
        }
        i += 1;
    }
    false
}

/// What kind of preset the list says it is: a kit and its size, its model's name, or
/// the identifier of a model that no slot holds.
pub open spec fn kind_text(p: PresetView, slots: Seq<ModelKind>) -> Seq<char> {
    if p.zones.len() > 0 {
        "🥁 Kit ("@ + text::decimal(p.zones.len()) + ")"@
    } else {
        match models::model_with_id(p.model_id) {
            Some(k) => if slots.contains(k) {
                k.name_text()
            } else {
                p.model_id
            },
            None => p.model_id,
        }
    }
}

/// What kind of preset the list says it is.
pub fn kind_label(p: &Preset, slots: &Vec<ModelKind>) -> (r: String)
    ensures
        r@ == kind_text(p@, slots@),
{
    if p.is_kit() {
        let mut s: String = "🥁 Kit (".to_owned();
        s.append(text::decimal_text(p.zones.len() as u64).as_str());
        s.append(")");
        return s;
    }
    match models::model_from_id(p.model_id.as_str()) {
        Some(k) => match slot_of(slots, k) {
            Some(i) => {
                assert(slots@[i as int] == k);
                k.display_name().to_owned()
            },
            None => {
                assert(!slots@.contains(k));
                p.model_id.clone()
            },
        },
        None => p.model_id.clone(),
    }
}

/// A zone that spans the keyboard, from the live instrument.
pub fn default_zone(model: &Model, engine: EngineParams) -> (r: ZoneData)
    ensures
        r@ == whole_keyboard(*model, engine),
{
    ZoneData {
        name: model.kind.display_name().to_owned(),
        lo: 0,
        hi: 127,
        fixed_note: None,
        transpose: 0,
        model_id: model.kind.id().to_owned(),
        params: json::copy_json(&model.params),
        engine,
    }
}

/// A zone that spans the keyboard.
pub open spec fn whole_keyboard(model: Model, engine: EngineParams) -> ZoneView {
    ZoneView {
        name: model.kind.name_text(),
        lo: 0,
        hi: 127,
        fixed_note: None,
        transpose: 0,
        model_id: model.kind.id_text(),
        params: model.params,
        engine,
    }
}

/// Switches the keyboard to a kit: one without zones gets a zone that spans it.
pub fn enter_kit_mode(zones: &mut Vec<ZoneData>, model: &Model, engine: EngineParams)
    ensures
        project::zone_views(final(zones)@) == if old(zones)@.len() == 0 {
            seq![whole_keyboard(*model, engine)]
        } else {
            project::zone_views(old(zones)@)
        },
{
    if zones.len() == 0 {
        zones.push(default_zone(model, engine));
        assert(project::zone_views(zones@) =~= seq![whole_keyboard(*model, engine)]);
    }
}

/// Adds a zone that spans the keyboard.
pub fn add_zone(zones: &mut Vec<ZoneData>, model: &Model, engine: EngineParams)
    ensures
        project::zone_views(final(zones)@) == project::zone_views(old(zones)@).push(
            whole_keyboard(*model, engine),
        ),
{
    let ghost before = zones@;
    zones.push(default_zone(model, engine));
    assert(project::zone_views(zones@) =~= project::zone_views(before).push(
        whole_keyboard(*model, engine),
    ));
}

/// Removes all zones.
pub fn clear_zones(zones: &mut Vec<ZoneData>)
    ensures
        final(zones)@ == Seq::<ZoneData>::empty(),
{
    zones.clear();
}

/// Removes zone `r` if it is there. Returns whether it was.
pub fn remove_zone(zones: &mut Vec<ZoneData>, r: usize) -> (changed: bool)
    ensures
        changed == (r < old(zones)@.len()),
        final(zones)@ == if changed {
            old(zones)@.remove(r as int)
        } else {
            old(zones)@
        },
{
    if r < zones.len() {
        let _ = zones.remove(r);
        true
    } else {
        false
    }
}

impl ZoneData {
    /// Sets the lowest key, kept on the keyboard.
    pub fn set_lo(&mut self, lo: i32)
        ensures
            final(self)@ == (ZoneView { lo: keyboard::on_keyboard(lo as int), ..old(self)@ }),
    {
        self.lo = keyboard::clamp_note(lo);
    }

    /// Sets the highest key, kept on the keyboard.
    pub fn set_hi(&mut self, hi: i32)
        ensures
            final(self)@ == (ZoneView { hi: keyboard::on_keyboard(hi as int), ..old(self)@ }),
    {
        self.hi = keyboard::clamp_note(hi);
    }

    /// Makes the zone a pad, which plays its lowest key, or no pad.
    pub fn set_pad(&mut self, pad: bool)
        ensures
            final(self)@ == (ZoneView {
                fixed_note: if pad {
                    Some(old(self).lo)
                } else {
                    None
                },
                ..old(self)@
            }),
    {
        self.fixed_note = if pad {
            Some(self.lo)
        } else {
            None
        };
    }

    /// Sets the note of a pad, kept on the keyboard; does nothing to another zone.
    pub fn set_pad_note(&mut self, n: i32)
        ensures
            final(self)@ == (ZoneView {
                fixed_note: if old(self).fixed_note is Some {
                    Some(keyboard::on_keyboard(n as int))
                } else {
                    None
                },
                ..old(self)@
            }),
    {
        if self.fixed_note.is_some() {
            self.fixed_note = Some(keyboard::clamp_note(n));
        }
    }

    /// Takes over the sound and the name of a preset.
    pub fn take_preset(&mut self, p: &Preset)
        ensures
            final(self)@ == (ZoneView {
                name: p@.name,
                model_id: p@.model_id,
                params: p@.params,
                engine: p@.engine,
                ..old(self)@
            }),
    {
        self.model_id = p.model_id.clone();
        self.params = json::copy_json(&p.params);
        self.engine = p.engine;
        self.name = p.name.clone();
    }

    /// Switches to another model, at the parameters `params`; the model it has stays as
    /// it is. Returns whether anything changed.
    pub fn set_model(&mut self, k: ModelKind, params: &serde_json::Value) -> (changed: bool)
        ensures
            changed == (old(self)@.model_id != k.id_text()),
            final(self)@ == if changed {
                ZoneView { model_id: k.id_text(), params: *params, ..old(self)@ }
            } else {
                old(self)@
            },
    {
        if text::same_text(self.model_id.as_str(), k.id()) {
            return false;
        }
        self.model_id = k.id().to_owned();
        self.params = json::copy_json(params);
        true
    }
}

/// A shift in semitones, with its sign.
pub open spec fn shift_text(t: i8) -> Seq<char> {
    if t < 0 {
        keyboard::signed_decimal(t as int) + " st"@
    } else {
        "+"@ + keyboard::signed_decimal(t as int) + " st"@
    }
}

/// How a zone sounds: `pad` and its note, a shift, or chromatic.
pub open spec fn sound_text(pad: Seq<char>, z: ZoneView) -> Seq<char> {
    match z.fixed_note {
        Some(n) => pad + keyboard::note_text(n),
        None => if z.transpose != 0 {
            shift_text(z.transpose)
        } else {
            "chromatic"@
        },
    }
}

fn sound_of(pad: &str, z: &ZoneData) -> (r: String)
    ensures
        r@ == sound_text(pad@, z@),
{
    match z.fixed_note {
        Some(n) => {
            let mut s: String = pad.to_owned();
            s.append(keyboard::note_name(n).as_str());
            s
        },
        None => if z.transpose != 0 {
            let mut s: String = if z.transpose < 0 {
                String::new()
            } else {
                "+".to_owned()
            };
            s.append(keyboard::signed_text(z.transpose as i64).as_str());
            s.append(" st");
            assert(s@ =~= shift_text(z.transpose));
            s
        } else {
            "chromatic".to_owned()
        },
    }
}

/// The heading of a zone in the kit editor: name, range, model and sound.
pub open spec fn zone_heading(z: ZoneView) -> Seq<char> {
    z.name + "  ·  "@ + keyboard::note_text(z.lo) + "–"@ + keyboard::note_text(z.hi)
        + "  ·  "@ + (match models::model_with_id(z.model_id) {
        Some(k) => if models::registered().contains(k) {
            k.name_text()
        } else {
            "?"@
        },
        None => "?"@,
    }) + " ("@ + sound_text("pad "@, z) + ")"@
}

/// The heading of a zone in the kit editor.
pub fn zone_title(z: &ZoneData) -> (r: String)
    ensures
        r@ == zone_heading(z@),
{
    let offered = models::registry();
    let model: &str = match models::model_from_id(z.model_id.as_str()) {
        Some(k) => match slot_of(&offered, k) {
            Some(i) => {
                assert(offered@[i as int] == k);
                k.display_name()
            },
            None => {
                assert(!offered@.contains(k));
                "?"
            },
        },
        None => "?",
    };
    let mut s: String = z.name.clone();
    s.append("  ·  ");
    s.append(keyboard::note_name(z.lo).as_str());
    s.append("–");
    s.append(keyboard::note_name(z.hi).as_str());
    s.append("  ·  ");
    s.append(model);
    s.append(" (");
    s.append(sound_of("pad ", z).as_str());
    s.append(")");
    s
}

/// A zone of a kit track, as its read-only list shows it.
pub open spec fn zone_row(z: ZoneView) -> Seq<char> {
    z.name + "  ·  "@ + keyboard::note_text(z.lo) + "–"@ + keyboard::note_text(z.hi)
        + "  ·  "@ + z.model_id + "  ·  "@ + sound_text("pad → "@, z)
}

/// A zone of a kit track, as its read-only list shows it.
pub fn zone_line(z: &ZoneData) -> (r: String)
    ensures
        r@ == zone_row(z@),
{
    let mut s: String = z.name.clone();
    s.append("  ·  ");
    s.append(keyboard::note_name(z.lo).as_str());
    s.append("–");
    s.append(keyboard::note_name(z.hi).as_str());
    s.append("  ·  ");
    s.append(z.model_id.as_str());
    s.append("  ·  ");
    s.append(sound_of("pad → ", z).as_str());
    s
}

/// The parameter that an encoder of the control surface turns.
#[derive(Clone, Copy, Debug, PartialEq, Eq, Structural)]
pub enum Knob {
    /// Output gain.
    Gain,
    /// Attack.
    Attack,
    /// Release.
    Release,
    /// Retrigger time.
    Retrigger,
}

/// The parameter that encoder `i` turns; the later ones turn none.
pub fn encoder_knob(i: usize) -> (r: Option<Knob>)
    ensures
        r == if i == 0 {
            Some(Knob::Gain)
        } else if i == 1 {
            Some(Knob::Attack)
        } else if i == 2 {
            Some(Knob::Release)
        } else if i == 3 {
            Some(Knob::Retrigger)
        } else {
            None
        },
{
    match i {
        0 => Some(Knob::Gain),
        1 => Some(Knob::Attack),
        2 => Some(Knob::Release),
        3 => Some(Knob::Retrigger),
        _ => None,
    }
}

/// What the transport is doing.
#[derive(Clone, Copy, Debug, PartialEq, Eq, Structural)]
pub enum TransportState {
    /// Nothing yet.
    Idle,
    /// Recording.
    Recording,
    /// Playing.
    Playing,
    /// Stopped.
    Stopped,
}

impl TransportState {
    /// The lights of the control surface: play and record.
    pub fn lights(self) -> (r: (u8, u8))
        ensures
            r == match self {
                TransportState::Playing => (21u8, 0u8),
                TransportState::Recording => (21u8, 5u8),
                _ => (0u8, 0u8),
            },
    {
        match self {
            TransportState::Playing => (21, 0),
            TransportState::Recording => (21, 5),
            _ => (0, 0),
        }
    }

    /// Whether time moves.
    pub fn is_rolling(self) -> (r: bool)
        ensures
            r == (self == TransportState::Playing || self == TransportState::Recording),
    {
        match self {
            TransportState::Playing => true,
            TransportState::Recording => true,
            _ => false,
        }
    }
}

/// Letters are compared without regard to case, and nothing but the letters of ASCII: upper
/// case becomes lower case, everything else stays.
pub proof fn case_is_a_matter_of_ascii_letters(c: char)
    ensures
        'A' <= c <= 'Z' ==> lower_char(c) as int - c as int == 'a' as int - 'A' as int,
        !('A' <= c <= 'Z') ==> lower_char(c) == c,
        lower_char(lower_char(c)) == lower_char(c),
{
}

/// A track that is still there stays the target; one that is gone gives way to the live
/// sound.
pub proof fn targets_are_there(t: Target, n: int)
    requires
        n >= 0,
    ensures
        still_there(t, n) matches Target::Track(i) ==> i < n && t == Target::Track(i),
        t matches Target::Track(i) ==> i < n ==> still_there(t, n) == t,
        t == Target::Live ==> still_there(t, n) == Target::Live,
{
}

/// What is saved is what is heard: the kit or the instrument on the keyboard, or the
/// instrument of the track that is being edited.
pub proof fn what_is_heard_is_saved(live_is_kit: bool, editing: Option<usize>, i: usize)
    ensures
        saved(Target::Live, true, editing) == SaveSource::Kit,
        saved(Target::Live, false, editing) == SaveSource::Live,
        editing == Some(i) ==> saved(Target::Track(i), live_is_kit, editing) == SaveSource::Track,
        editing != Some(i) ==> saved(Target::Track(i), live_is_kit, editing) == SaveSource::Live,
{
}

/// A new zone spans the keyboard, plays each key at its pitch, and has the sound that it is
/// made from.
pub proof fn new_zones_play_the_whole_keyboard(model: Model, engine: EngineParams)
    ensures
        whole_keyboard(model, engine).lo == 0,
        whole_keyboard(model, engine).hi == 127,
        whole_keyboard(model, engine).fixed_note is None,
        whole_keyboard(model, engine).transpose == 0,
        whole_keyboard(model, engine).model_id == model.kind.id_text(),
        whole_keyboard(model, engine).params == model.params,
        whole_keyboard(model, engine).engine == engine,
        whole_keyboard(model, engine).name == model.kind.name_text(),
{
}

/// A kit goes onto the keyboard, a preset without a usable model nowhere, and any other onto
/// the edited track or, for the live sound, into the first slot of its model, or into a new
/// one if there is none.
pub proof fn presets_go_where_they_are_wanted(
    p: PresetView,
    model: Option<Model>,
    t: Target,
    slots: Seq<ModelKind>,
    r: LoadOnto,
)
    requires
        is_load(p, model, t, slots, r),
    ensures
        p.zones.len() > 0 <==> r == LoadOnto::Keyboard,
        p.zones.len() == 0 ==> (model is None <==> r == LoadOnto::Nothing),
        r matches LoadOnto::Track(i) ==> t == Target::Track(i),
        p.zones.len() == 0 && model is Some && t is Track ==> r is Track,
        r matches LoadOnto::Slot(i) ==> t == Target::Live && i < slots.len() && (
        model matches Some(m) && slots[i as int] == m.kind && forall|j: int|
            0 <= j < i ==> #[trigger] slots[j] != m.kind),
        r == LoadOnto::NewSlot ==> t == Target::Live && (model matches Some(m) && !slots.contains(
            m.kind,
        )),
{
}

/// Names are compared letter by letter: two that differ in length differ, and two of the same
/// length are the same name exactly if each pair of their letters is.
pub proof fn names_are_compared_letter_by_letter(a: Seq<char>, b: Seq<char>)
    ensures
        ascii_lower(a) == ascii_lower(b) <==> a.len() == b.len() && forall|i: int|
            0 <= i < a.len() ==> lower_char(#[trigger] a[i]) == lower_char(b[i]),
        ascii_lower(a).len() == a.len(),
{
    if ascii_lower(a) == ascii_lower(b) {
        assert(ascii_lower(a).len() == ascii_lower(b).len());
        assert forall|i: int| 0 <= i < a.len() implies lower_char(#[trigger] a[i]) == lower_char(
            b[i],
        ) by {
            assert(ascii_lower(a)[i] == ascii_lower(b)[i]);
        }
    } else if a.len() == b.len() && forall|i: int|
        0 <= i < a.len() ==> lower_char(#[trigger] a[i]) == lower_char(b[i]) {
        assert(ascii_lower(a) =~= ascii_lower(b));
    }
}

/// The slot of a model is the first that holds it; only a model without one has none.
pub proof fn the_first_slot_is_taken(slots: Seq<ModelKind>, k: ModelKind, r: Option<usize>, j: int)
    requires
        is_slot(slots, k, r),
        0 <= j < slots.len(),
        slots[j] == k,
    ensures
        r matches Some(i) && i <= j && slots[i as int] == k,
{
}

/// How a zone sounds is told by what it does to the key: a pad by its note, a shift by its
/// sign and size in semitones, and a zone that does neither as chromatic.
pub proof fn zones_tell_what_they_do(pad: Seq<char>, z: ZoneView, n: u8)
    ensures
        z.fixed_note == Some(n) ==> sound_text(pad, z) == pad + keyboard::note_text(n),
        z.fixed_note is None && z.transpose == 0 ==> sound_text(pad, z) == "chromatic"@,
        z.fixed_note is None && z.transpose > 0 ==> sound_text(pad, z) == "+"@ + text::decimal(
            z.transpose as nat,
        ) + " st"@,
        z.fixed_note is None && z.transpose < 0 ==> sound_text(pad, z) == "-"@ + text::decimal(
            (-z.transpose) as nat,
        ) + " st"@,
{
    reveal_strlit("-");
    assert("-"@ =~= seq!['-']);
}

/// Grids are called by the fraction of a bar of four beats that they repeat.
pub proof fn grids_are_called_by_their_fraction()
    ensures
        Snap::Quarter.label_text() == "1/"@ + text::decimal(4),
        Snap::Eighth.label_text() == "1/"@ + text::decimal(8),
        Snap::Sixteenth.label_text() == "1/"@ + text::decimal(16),
{
    reveal_strlit("1/");
    reveal_strlit("1/4");
    reveal_strlit("1/8");
    reveal_strlit("1/16");
    reveal_with_fuel(text::decimal, 3);
    assert("1/4"@ =~= "1/"@ + text::decimal(4));
    assert("1/8"@ =~= "1/"@ + text::decimal(8));
    assert("1/16"@ =~= "1/"@ + text::decimal(16));
}

/// What is said about loading names the preset, and tells how many zones a kit has, which
/// track it went onto, counted from one, or which model is not known.
pub proof fn loading_names_the_preset(p: PresetView, r: LoadOnto)
    ensures
        text::occurs(load_text(p, r), p.name),
        r is Keyboard ==> text::occurs(load_text(p, r), text::decimal(p.zones.len())),
        r is Nothing ==> text::occurs(load_text(p, r), p.model_id),
        r matches LoadOnto::Track(i) ==> text::occurs(load_text(p, r), text::decimal(
            (i + 1) as nat,
        )),
{
    match r {
        LoadOnto::Keyboard => {
            let (a, b, c) = ("Loaded kit “"@, "” ("@, " zones) onto the keyboard."@);
            let n = text::decimal(p.zones.len());
            text::what_is_put_in_occurs(a, p.name, b + n + c);
            assert(a + p.name + (b + n + c) =~= load_text(p, r));
            text::what_is_put_in_occurs(a + p.name + b, n, c);
        },
        LoadOnto::Nothing => {
            let (a, b, c) = ("Can't load “"@, "”: unknown model “"@, "”."@);
            text::what_is_put_in_occurs(a, p.name, b + p.model_id + c);
            assert(a + p.name + (b + p.model_id + c) =~= load_text(p, r));
            text::what_is_put_in_occurs(a + p.name + b, p.model_id, c);
        },
        LoadOnto::Track(i) => {
            let (a, b, c) = ("Loaded “"@, "” onto track "@, "."@);
            let n = text::decimal((i + 1) as nat);
            text::what_is_put_in_occurs(a, p.name, b + n + c);
            assert(a + p.name + (b + n + c) =~= load_text(p, r));
            text::what_is_put_in_occurs(a + p.name + b, n, c);
        },
        _ => {
            text::what_is_put_in_occurs("Loaded “"@, p.name, "”."@);
        },
    }
}

/// What is said about deleting names the preset, whether it was there or not, or the reason
/// for which it failed.
pub proof fn deleting_names_the_preset(name: Seq<char>, outcome: Result<bool, String>)
    ensures
        outcome is Ok ==> text::occurs(delete_text(name, outcome), name),
        outcome matches Err(e) ==> text::occurs(delete_text(name, outcome), e@),
        delete_text(name, Ok(true)) != delete_text(name, Ok(false)),
{
    text::what_is_put_in_occurs("Deleted “"@, name, "”."@);
    text::what_is_put_in_occurs("“"@, name, "” not found."@);
    if let Err(e) = outcome {
        text::what_is_put_in_occurs("Delete failed: "@, e@, Seq::empty());
        assert("Delete failed: "@ + e@ + Seq::empty() =~= "Delete failed: "@ + e@);
    }
    reveal_strlit("Deleted “");
    reveal_strlit("“");
    assert(delete_text(name, Ok(true))[0] == 'D');
    assert(delete_text(name, Ok(false))[0] == '“');
}

/// The kind of a preset: a kit by the number of its zones, anything else by the model it
/// plays, under its name if the picker holds it and under its identifier if not.
pub proof fn kinds_tell_the_model(p: PresetView, slots: Seq<ModelKind>, k: ModelKind)
    ensures
        p.zones.len() > 0 ==> text::occurs(kind_text(p, slots), text::decimal(p.zones.len())),
        p.zones.len() == 0 && slots.contains(k) && p.model_id == k.id_text() ==> kind_text(p, slots)
            == k.name_text(),
        p.zones.len() == 0 && slots.len() == 0 ==> kind_text(p, slots) == p.model_id,
{
    models::models_are_found_by_their_id(k);
    text::what_is_put_in_occurs("🥁 Kit ("@, text::decimal(p.zones.len()), ")"@);
}

/// A slot that is found holds the model.
pub proof fn only_slots_of_the_model_are_found(
    slots: Seq<ModelKind>,
    k: ModelKind,
    r: Option<usize>,
)
    requires
        is_slot(slots, k, r),
    ensures
        r is Some <==> slots.contains(k),
        r matches Some(i) ==> i < slots.len() && slots[i as int] == k,
{
    if slots.contains(k) {
        let j = choose|j: int| 0 <= j < slots.len() && slots[j] == k;
        assert(slots[j] == k);
    }
}

/// The heading and the row of a zone tell its name, its keys from the lowest to the highest,
/// and how it sounds; the row also tells the identifier of its model.
pub proof fn zones_tell_their_keys(z: ZoneView)
    ensures
        z.name.is_prefix_of(zone_heading(z)),
        z.name.is_prefix_of(zone_row(z)),
        text::occurs(
            zone_heading(z),
            keyboard::note_text(z.lo) + "–"@ + keyboard::note_text(z.hi),
        ),
        text::occurs(zone_row(z), keyboard::note_text(z.lo) + "–"@ + keyboard::note_text(z.hi)),
        text::occurs(zone_heading(z), sound_text("pad "@, z)),
        text::occurs(zone_row(z), sound_text("pad → "@, z)),
        text::occurs(zone_row(z), z.model_id),
{
    let (dot, empty) = ("  ·  "@, Seq::<char>::empty());
    let keys = keyboard::note_text(z.lo) + "–"@ + keyboard::note_text(z.hi);
    let name = match models::model_with_id(z.model_id) {
        Some(k) => if models::registered().contains(k) {
            k.name_text()
        } else {
            "?"@
        },
        None => "?"@,
    };
    let (a, b) = (sound_text("pad "@, z), sound_text("pad → "@, z));
    let (heading, row) = (zone_heading(z), zone_row(z));
    text::what_is_put_in_occurs(z.name + dot, keys, dot + name + " ("@ + a + ")"@);
    assert(z.name + dot + keys + (dot + name + " ("@ + a + ")"@) =~= heading);
    text::what_is_put_in_occurs(z.name + dot + keys + dot + name + " ("@, a, ")"@);
    assert(z.name + dot + keys + dot + name + " ("@ + a + ")"@ =~= heading);
    text::what_is_put_in_occurs(z.name + dot, keys, dot + z.model_id + dot + b);
    assert(z.name + dot + keys + (dot + z.model_id + dot + b) =~= row);
    text::what_is_put_in_occurs(z.name + dot + keys + dot, z.model_id, dot + b);
    assert(z.name + dot + keys + dot + z.model_id + (dot + b) =~= row);
    text::what_is_put_in_occurs(z.name + dot + keys + dot + z.model_id + dot, b, empty);
    assert(z.name + dot + keys + dot + z.model_id + dot + b + empty =~= row);
    assert(heading.take(z.name.len() as int) =~= z.name);
    assert(row.take(z.name.len() as int) =~= z.name);
}

} // verus!
