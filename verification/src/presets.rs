//! Instrument presets: a named model with its parameters, or a kit of zones, and the
//! library of them that is kept in a folder.

use crate::factory::names;
use crate::factory::RecipeView;
use crate::files;
use crate::instrument;
use crate::instrument::{EngineParams, Model};
use crate::json;
use crate::models;
use crate::project;
use crate::project::{ZoneData, ZoneView};
use crate::single::Single;
use crate::text;
use vstd::prelude::*;

verus! {

/// A saved instrument: a single one, or, with zones, a kit.
pub struct Preset {
    /// What the preset is called.
    pub name: String,
    /// The identifier of its model.
    pub model_id: String,
    /// The parameters of its model.
    pub params: serde_json::Value,
    /// Its engine parameters.
    pub engine: EngineParams,
    /// The zones of a kit.
    pub zones: Vec<ZoneData>,
    /// Whether it is built in (and so kept up to date) or saved by the user (and so
    /// never overwritten); unknown for files from before this was stored.
    pub builtin: Option<bool>,
}

/// A preset, as a value.
pub ghost struct PresetView {
    pub name: Seq<char>,
    pub model_id: Seq<char>,
    pub params: serde_json::Value,
    pub engine: EngineParams,
    pub zones: Seq<ZoneView>,
    pub builtin: Option<bool>,
}

impl View for Preset {
    type V = PresetView;

    open spec fn view(&self) -> PresetView {
        PresetView {
            name: self.name@,
            model_id: self.model_id@,
            params: self.params,
            engine: self.engine,
            zones: project::zone_views(self.zones@),
            builtin: self.builtin,
        }
    }
}

impl Clone for Preset {
    fn clone(&self) -> (r: Self)
        ensures
            r@ == self@,
    {
        Preset {
            name: self.name.clone(),
            model_id: self.model_id.clone(),
            params: json::copy_json(&self.params),
            engine: self.engine,
            zones: project::copy_zones(&self.zones),
            builtin: self.builtin,
        }
    }
}

/// A list of presets, as values.
pub open spec fn preset_views(p: Seq<Preset>) -> Seq<PresetView> {
    p.map_values(|x: Preset| x@)
}

impl Preset {
    /// A model and its engine parameters, as a user's preset under the trimmed name.
    pub fn capture(name: &str, model: &Model, engine: EngineParams) -> (r: Preset)
        ensures
            r@ == (PresetView {
                name: text::trimmed(name@),
                model_id: model.kind.id_text(),
                params: model.params,
                engine,
                zones: Seq::empty(),
                builtin: Some(false),
            }),
    {
        let r = Preset {
            name: text::trim(name),
            model_id: model.kind.id().to_owned(),
            params: json::copy_json(&model.params),
            engine,
            zones: Vec::new(),
            builtin: Some(false),
        };
        assert(r@.zones =~= Seq::empty());
        r
    }

    /// A kit, as a user's preset under the trimmed name.
    pub fn capture_kit(name: &str, zones: Vec<ZoneData>) -> (r: Preset)
        ensures
            r@.name == text::trimmed(name@),
            r@.model_id == "kit"@,
            json::json_is_null(r@.params),
            !json::json_is_object(r@.params),
            r@.engine == instrument::engine_defaults(),
            r@.zones == project::zone_views(zones@),
            r@.builtin == Some(false),
    {
        Preset {
            name: text::trim(name),
            model_id: "kit".to_owned(),
            params: json::null_json(),
            engine: EngineParams::default(),
            zones,
            builtin: Some(false),
        }
    }

    /// Whether this is a kit: it has zones.
    pub fn is_kit(&self) -> (r: bool)
        ensures
            r == (self@.zones.len() > 0),
    {
        self.zones.len() > 0
    }

    /// The model that this preset describes. `loaded` holds its parameters as read by
    /// the model that the preset names, if they could be read. None for a kit, for an
    /// unknown model, and for parameters that do not fit.
    pub fn build_model(&self, loaded: Option<serde_json::Value>) -> (r: Option<Model>)
        ensures
            r == rebuilt(self@, loaded),
    {
        if self.is_kit() {
            return None;
        }
        match (models::model_from_id(self.model_id.as_str()), loaded) {
            (Some(kind), Some(params)) => Some(Model { kind, params }),
            _ => None,
        }
    }
}

/// The model that a preset describes, with its parameters as read.
pub open spec fn rebuilt(p: PresetView, loaded: Option<serde_json::Value>) -> Option<Model> {
    if p.zones.len() > 0 {
        None
    } else {
        match (models::model_with_id(p.model_id), loaded) {
            (Some(kind), Some(params)) => Some(Model { kind, params }),
            _ => None,
        }
    }
}

/// The stem of the file that a preset is stored in.
pub fn file_stem(name: &str) -> (r: String)
    ensures
        r@ == files::stem(name@, "preset"@),
{
    files::stem_text(name, "preset")
}

/// The name of the file that a preset is stored in.
pub fn file_name(name: &str) -> (r: String)
    ensures
        r@ == files::stem(name@, "preset"@) + ".json"@,
{
    let s = file_stem(name);
    files::file_name(s.as_str(), ".json")
}

/// What came of an attempt to remove a file.
pub enum Removal {
    /// It is gone.
    Done,
    /// It was not there.
    Missing,
    /// It could not be removed, for this reason.
    Failed(String),
}

/// Whether a preset was deleted, given what came of removing its file: a file that was
/// not there is no error.
pub fn delete(removal: Removal) -> (r: Result<bool, String>)
    ensures
        r == match removal {
            Removal::Done => Ok::<bool, String>(true),
            Removal::Missing => Ok::<bool, String>(false),
            Removal::Failed(e) => Err::<bool, String>(e),
        },
{
    match removal {
        Removal::Done => Ok(true),
        Removal::Missing => Ok(false),
        Removal::Failed(e) => Err(e),
    }
}

/// A file found in a folder: its name, and the preset that it holds, if it could be read
/// as one.
pub struct Listing {
    /// The name of the file.
    pub file: String,
    /// The preset in it.
    pub preset: Option<Preset>,
}

/// The presets among the files, in the order found.
pub open spec fn found_presets(l: Seq<Listing>) -> Seq<PresetView>
    decreases l.len(),
{
    if l.len() == 0 {
        Seq::empty()
    } else {
        let rest = found_presets(l.drop_last());
        match l.last().preset {
            Some(p) => if files::is_json_name(l.last().file@) {
                rest.push(p@)
            } else {
                rest
            },
            None => rest,
        }
    }
}

/// The names of the presets.
pub open spec fn names_of(p: Seq<PresetView>) -> Seq<Seq<char>> {
    p.map_values(|x: PresetView| x.name)
}

/// `out` lists `all` in dictionary order of their names' lower-case forms.
pub open spec fn is_listing(all: Seq<PresetView>, out: Seq<PresetView>) -> bool {
    exists|order: Seq<usize>|
        #[trigger] files::is_stable_order(files::lower_keys(names_of(all)), order) && out.len()
            == all.len() && forall|i: int|
            0 <= i < out.len() ==> #[trigger] out[i] == all[order[i] as int]
}

/// The presets in a folder, in dictionary order of their names' lower-case forms. Files
/// without the extension, and files that do not hold a preset, are passed over.
pub fn list(found: &Vec<Listing>) -> (r: Vec<Preset>)
    ensures
        is_listing(found_presets(found@), preset_views(r@)),
{
    let mut all: Vec<Preset> = Vec::new();
    let mut i: usize = 0;
    while i < found.len()
        invariant
            i <= found@.len(),
            preset_views(all@) == found_presets(found@.take(i as int)),
        decreases found@.len() - i,
    {
        let ghost before = all@;
        proof {
            assert(found@.take(i + 1).drop_last() =~= found@.take(i as int));
        }
        if let Some(p) = &found[i].preset {
            if files::is_json_file(found[i].file.as_str()) {
                let p: Preset = p.clone();
                all.push(p);
                proof {
                    assert(preset_views(all@) =~= preset_views(before).push(p@));
                }
            }
        }
        i += 1;
    }
    proof {
        assert(found@.take(i as int) =~= found@);
    }
    let mut names: Vec<String> = Vec::new();
    let mut k: usize = 0;
    while k < all.len()
        invariant
            k <= all@.len(),
            names@.len() == k,
            forall|j: int| 0 <= j < k ==> (#[trigger] names@[j])@ == all@[j]@.name,
        decreases all@.len() - k,
    {
        names.push(all[k].name.clone());
        k += 1;
    }
    assert(names@.map_values(|s: String| s@) =~= names_of(preset_views(all@)));
    let order = files::name_order(&names);
    let mut out: Vec<Preset> = Vec::new();
    let mut m: usize = 0;
    while m < order.len()
        invariant
            files::is_stable_order(
                files::lower_keys(names_of(preset_views(all@))),
                order@,
            ),
            m <= order@.len(),
            out@.len() == m,
            forall|j: int|
                0 <= j < m ==> (#[trigger] out@[j])@ == preset_views(all@)[order@[j] as int],
        decreases order@.len() - m,
    {
        out.push(all[order[m]].clone());
        m += 1;
    }
    let ghost shown = preset_views(out@);
    assert forall|j: int| 0 <= j < shown.len() implies #[trigger] shown[j] == preset_views(
        all@,
    )[order@[j] as int] by {
        assert(shown[j] == out@[j]@);
    }
    out
}

/// The first preset called `name`.
pub open spec fn first_named(p: Seq<PresetView>, name: Seq<char>) -> Option<PresetView>
    decreases p.len(),
{
    if p.len() == 0 {
        None
    } else if p[0].name == name {
        Some(p[0])
    } else {
        first_named(p.drop_first(), name)
    }
}

/// A preset that the library owns: built in, or from before that was stored.
pub open spec fn owned(p: PresetView) -> bool {
    p.builtin != Some(false)
}

/// A preset called `name` shares its file with something that the user saved.
pub open spec fn is_users_file(existing: Seq<PresetView>, name: Seq<char>) -> bool {
    exists|i: int|
        0 <= i < existing.len() && (#[trigger] existing[i]).builtin == Some(false) && files::stem(
            existing[i].name,
            "preset"@,
        ) == files::stem(name, "preset"@)
}

/// A built-in preset is to be written: there is none of its name, or one that the
/// library owns, and its file is not the user's.
pub open spec fn to_write(existing: Seq<PresetView>, p: PresetView) -> bool {
    &&& match first_named(existing, p.name) {
        None => true,
        Some(e) => owned(e),
    }
    &&& !is_users_file(existing, p.name)
}

/// A stored preset is to be removed: the library owns it, nothing of its name is built
/// in any more, and its file is not the user's.
pub open spec fn to_remove(
    existing: Seq<PresetView>,
    fresh: Seq<PresetView>,
    e: PresetView,
) -> bool {
    &&& owned(e)
    &&& first_named(fresh, e.name) is None
    &&& !is_users_file(existing, e.name)
}

/// Which built-in presets to write and which stored ones to remove.
pub struct LibraryPlan {
    /// Numbers of built-in presets.
    pub write: Vec<usize>,
    /// Numbers of stored presets.
    pub remove: Vec<usize>,
}

/// `picked` lists, in order, the numbers below `n` at which `test` holds.
pub open spec fn picks(picked: Seq<usize>, n: int, test: spec_fn(int) -> bool) -> bool {
    &&& forall|k: int| 0 <= k < picked.len() ==> (#[trigger] picked[k]) < n && test(
        picked[k] as int,
    )
    &&& forall|k: int, l: int| 0 <= k < l < picked.len() ==> picked[k] < picked[l]
    &&& forall|i: int| 0 <= i < n && #[trigger] test(i) ==> picked.contains(i as usize)
}

proof fn lemma_first_named_skip(p: Seq<PresetView>, name: Seq<char>, k: int)
    requires
        0 <= k <= p.len(),
        forall|i: int| 0 <= i < k ==> (#[trigger] p[i]).name != name,
    ensures
        first_named(p, name) == first_named(p.skip(k), name),
    decreases k,
{
    if k == 0 {
        assert(p.skip(0) =~= p);
    } else {
        let q = p.drop_first();
        assert forall|i: int| 0 <= i < k - 1 implies (#[trigger] q[i]).name != name by {
            assert(p[i + 1].name != name);
        }
        assert(p[0].name != name);
        lemma_first_named_skip(q, name, k - 1);
        assert(q.skip(k - 1) =~= p.skip(k));
    }
}

/// The number of the first preset called `name`.
pub fn find_named(p: &Vec<Preset>, name: &str) -> (r: Option<usize>)
    ensures
        match r {
            Some(i) => i < p@.len() && first_named(preset_views(p@), name@) == Some(p@[i as int]@),
            None => first_named(preset_views(p@), name@) is None,
        },
{
    let ghost v = preset_views(p@);
    let mut i: usize = 0;
    while i < p.len()
        invariant
            v == preset_views(p@),
            i <= p@.len(),
            forall|j: int| 0 <= j < i ==> (#[trigger] v[j]).name != name@,
        decreases p@.len() - i,
    {
        if text::same_text(p[i].name.as_str(), name) {
            proof {
                lemma_first_named_skip(v, name@, i as int);
                assert(v.skip(i as int)[0] == v[i as int]);
            }
            return Some(i);
        }
        assert(v[i as int].name == p@[i as int]@.name);
        i += 1;
    }
    proof {
        lemma_first_named_skip(v, name@, i as int);
    }
    None
}

fn shares_users_file(existing: &Vec<Preset>, name: &str) -> (r: bool)
    ensures
        r == is_users_file(preset_views(existing@), name@),
{
    let ghost v = preset_views(existing@);
    let stem: String = file_stem(name);
    let mut i: usize = 0;
    while i < existing.len()
        invariant
            v == preset_views(existing@),
            stem@ == files::stem(name@, "preset"@),
            i <= existing@.len(),
            forall|j: int|
                0 <= j < i && (#[trigger] v[j]).builtin == Some(false) ==> files::stem(
                    v[j].name,
                    "preset"@,
                ) != stem@,
        decreases existing@.len() - i,
    {
        let saved: bool = match existing[i].builtin {
            Some(b) => !b,
            None => false,
        };
        assert(v[i as int] == existing@[i as int]@);
        let theirs: String = file_stem(existing[i].name.as_str());
        if saved && text::same_text(theirs.as_str(), stem.as_str()) {
            return true;
        }
        i += 1;
    }
    false
}

/// What to do on launch so that the built-in presets are current: write those that are
/// new or owned by the library, remove owned ones that are no longer built in. What the
/// user saved stays, and so does its file, whichever preset shares it.
pub fn load_library(existing: &Vec<Preset>, fresh: &Vec<Preset>) -> (r: LibraryPlan)
    ensures
        picks(
            r.write@,
            fresh@.len() as int,
            |i: int| to_write(preset_views(existing@), fresh@[i]@),
        ),
        picks(
            r.remove@,
            existing@.len() as int,
            |i: int| to_remove(preset_views(existing@), preset_views(fresh@), existing@[i]@),
        ),
{
    let mut write: Vec<usize> = Vec::new();
    let ghost test = |i: int| to_write(preset_views(existing@), fresh@[i]@);
    let mut i: usize = 0;
    while i < fresh.len()
        invariant
            test == (|i: int| to_write(preset_views(existing@), fresh@[i]@)),
            i <= fresh@.len(),
            picks(write@, i as int, test),
        decreases fresh@.len() - i,
    {
        let ours: bool = match find_named(existing, fresh[i].name.as_str()) {
            None => true,
            Some(k) => match existing[k].builtin {
                Some(b) => b,
                None => true,
            },
        };
        let refresh: bool = ours && !shares_users_file(existing, fresh[i].name.as_str());
        assert(refresh == test(i as int));
        let ghost before = write@;
        if refresh {
            write.push(i);
        }
        proof {
            lemma_picks_next(before, write@, i as int, test);
        }
        i += 1;
    }
    let mut remove: Vec<usize> = Vec::new();
    let ghost gone = |i: int|
        to_remove(preset_views(existing@), preset_views(fresh@), existing@[i]@);
    let mut k: usize = 0;
    while k < existing.len()
        invariant
            gone == (|i: int|
                to_remove(preset_views(existing@), preset_views(fresh@), existing@[i]@)),
            k <= existing@.len(),
            picks(remove@, k as int, gone),
        decreases existing@.len() - k,
    {
        let ours: bool = match existing[k].builtin {
            Some(b) => b,
            None => true,
        };
        let stale: bool = ours && find_named(fresh, existing[k].name.as_str()).is_none()
            && !shares_users_file(existing, existing[k].name.as_str());
        assert(stale == gone(k as int));
        let ghost before = remove@;
        if stale {
            remove.push(k);
        }
        proof {
            lemma_picks_next(before, remove@, k as int, gone);
        }
        k += 1;
    }
    LibraryPlan { write, remove }
}

proof fn lemma_picks_next(
    before: Seq<usize>,
    after: Seq<usize>,
    i: int,
    test: spec_fn(int) -> bool,
)
    requires
        0 <= i <= usize::MAX,
        picks(before, i, test),
        after == if test(i) {
            before.push(i as usize)
        } else {
            before
        },
    ensures
        picks(after, i + 1, test),
{
    assert forall|j: int| 0 <= j < i + 1 && #[trigger] test(j) implies after.contains(
        j as usize,
    ) by {
        if j < i {
            assert(before.contains(j as usize));
            let k = choose|k: int| 0 <= k < before.len() && before[k] == j as usize;
            assert(after[k] == j as usize);
        } else {
            assert(after[after.len() - 1] == i as usize);
        }
    }
}

/// What the user saved is picked neither to be written over nor to be removed on launch.
pub proof fn user_presets_are_left_alone(
    existing: Seq<PresetView>,
    fresh: Seq<PresetView>,
    i: int,
)
    requires
        0 <= i < existing.len(),
        existing[i].builtin == Some(false),
    ensures
        forall|p: PresetView| p.name == existing[i].name ==> !#[trigger] to_write(existing, p),
        forall|e: PresetView|
            e.name == existing[i].name ==> !#[trigger] to_remove(existing, fresh, e),
{
}

/// On launch no file is written or removed under the file name of what the user saved,
/// whatever the presets are called that share it.
pub proof fn user_files_are_left_alone(
    existing: Seq<PresetView>,
    fresh: Seq<PresetView>,
    i: int,
)
    requires
        0 <= i < existing.len(),
        existing[i].builtin == Some(false),
    ensures
        forall|p: PresetView| #[trigger]
            to_write(existing, p) ==> files::stem(p.name, "preset"@) != files::stem(
                existing[i].name,
                "preset"@,
            ),
        forall|e: PresetView| #[trigger]
            to_remove(existing, fresh, e) ==> files::stem(e.name, "preset"@) != files::stem(
                existing[i].name,
                "preset"@,
            ),
{
}

/// A preset that is still built in is not removed, and one whose name is new is written
/// unless its file is the user's.
pub proof fn current_presets_are_kept(
    existing: Seq<PresetView>,
    fresh: Seq<PresetView>,
    p: PresetView,
)
    requires
        fresh.contains(p),
    ensures
        first_named(existing, p.name) is None && !is_users_file(existing, p.name) ==> to_write(
            existing,
            p,
        ),
        forall|e: PresetView| e.name == p.name ==> !#[trigger] to_remove(existing, fresh, e),
{
    let i = choose|i: int| 0 <= i < fresh.len() && fresh[i] == p;
    lemma_named_is_found(fresh, i);
}

proof fn lemma_named_is_found(p: Seq<PresetView>, i: int)
    requires
        0 <= i < p.len(),
    ensures
        first_named(p, p[i].name) is Some,
    decreases p.len(),
{
    if i > 0 && p[0].name != p[i].name {
        lemma_named_is_found(p.drop_first(), i - 1);
    }
}

/// A bowed string, by its parameters.
pub open spec fn is_bowed(params: serde_json::Value) -> bool {
    json::json_is_object(params) && json::json_members(params).contains_key("excitation"@)
        && json::json_text(json::json_members(params)["excitation"@]) == Some("Bowed"@)
}

/// The model that renders a struck model's preset through the voice graph; none for
/// bowed strings and for models that have no such rendering.
pub open spec fn twin_model(p: PresetView) -> Option<Seq<char>> {
    if p.model_id == "pure_string"@ {
        if is_bowed(p.params) {
            None
        } else {
            Some("graph_string"@)
        }
    } else if p.model_id == "drum_membrane"@ {
        Some("graph_drum"@)
    } else if p.model_id == "musical_string"@ {
        Some("graph_musical_string"@)
    } else if p.model_id == "pure_plate"@ {
        Some("graph_plate"@)
    } else {
        None
    }
}

/// `t` is the twin of `p`: the same parameters, as those of the graph model's inner
/// model.
pub open spec fn is_twin(p: PresetView, t: PresetView) -> bool {
    &&& twin_model(p) == Some(t.model_id)
    &&& t.name == p.name + " (graph)"@
    &&& json::json_is_object(t.params)
    &&& json::json_members(t.params) == map!["inner"@ => p.params]
    &&& t.engine == p.engine
    &&& t.zones == Seq::<ZoneView>::empty()
    &&& t.builtin == Some(true)
}

/// The presets of `p` that have a twin, in order.
pub open spec fn twinned(p: Seq<PresetView>) -> Seq<PresetView>
    decreases p.len(),
{
    if p.len() == 0 {
        Seq::empty()
    } else {
        let rest = twinned(p.drop_last());
        if twin_model(p.last()) is Some {
            rest.push(p.last())
        } else {
            rest
        }
    }
}

/// `f` is the factory set made from the base presets `base`: each of them, and after them
/// the twins, all marked as built in.
pub open spec fn is_factory_set(base: Seq<PresetView>, f: Seq<PresetView>) -> bool {
    &&& f.len() == base.len() + twinned(base).len()
    &&& forall|i: int|
        0 <= i < base.len() ==> #[trigger] f[i] == (PresetView { builtin: Some(true), ..base[i] })
    &&& forall|k: int|
        0 <= k < twinned(base).len() ==> is_twin(
            #[trigger] twinned(base)[k],
            f[base.len() + k],
        )
}

/// The base presets are settings of the built-in instruments `r`, in order.
pub open spec fn are_settings_of(base: Seq<PresetView>, r: Seq<RecipeView>) -> bool {
    &&& base.len() == r.len()
    &&& forall|i: int|
        0 <= i < r.len() ==> (#[trigger] base[i]).name == r[i].name && base[i].model_id
            == r[i].patch.kind().id_text()
}

/// The identifier of a model that renders another one through the voice graph.
pub open spec fn is_graph_id(id: Seq<char>) -> bool {
    id == "graph_string"@ || id == "graph_drum"@ || id == "graph_musical_string"@ || id
        == "graph_plate"@
}

fn is_bowed_string(params: &serde_json::Value) -> (r: bool)
    ensures
        r == is_bowed(*params),
{
    match json::member(params, "excitation".to_owned()) {
        Some(v) => match json::text_of_json(v) {
            Some(s) => text::same_text(s, "Bowed"),
            None => false,
        },
        None => false,
    }
}

/// The twin of a preset, if it has one.
pub fn graph_twin(p: &Preset) -> (r: Option<Preset>)
    ensures
        r is None <==> twin_model(p@) is None,
        r matches Some(t) ==> is_twin(p@, t@),
{
    let id: &str = p.model_id.as_str();
    let graph_id: &str = if text::same_text(id, "pure_string") {
        if is_bowed_string(&p.params) {
            return None;
        }
        "graph_string"
    } else if text::same_text(id, "drum_membrane") {
        "graph_drum"
    } else if text::same_text(id, "musical_string") {
        "graph_musical_string"
    } else if text::same_text(id, "pure_plate") {
        "graph_plate"
    } else {
        return None;
    };
    let mut name: String = p.name.clone();
    name.append(" (graph)");
    let t = Preset {
        name,
        model_id: graph_id.to_owned(),
        params: json::object_of("inner", json::copy_json(&p.params)),
        engine: p.engine,
        zones: Vec::new(),
        builtin: Some(true),
    };
    assert(t@.zones =~= Seq::<ZoneView>::empty());
    Some(t)
}

/// The factory set made from its base presets: each of them, and after them the twins,
/// all marked as built in.
pub fn factory(base: Vec<Preset>) -> (r: Vec<Preset>)
    ensures
        is_factory_set(preset_views(base@), preset_views(r@)),
{
    let n: usize = base.len();
    let ghost v = preset_views(base@);
    let mut r: Vec<Preset> = Vec::new();
    let mut i: usize = 0;
    while i < n
        invariant
            n == base@.len(),
            i <= n,
            r@.len() == i,
            forall|j: int|
                0 <= j < i ==> (#[trigger] r@[j])@ == (PresetView {
                    builtin: Some(true),
                    ..base@[j]@
                }),
        decreases n - i,
    {
        let mut p: Preset = base[i].clone();
        p.builtin = Some(true);
        r.push(p);
        i += 1;
    }
    let mut k: usize = 0;
    while k < n
        invariant
            v == preset_views(base@),
            n == base@.len(),
            k <= n,
            r@.len() == n + twinned(v.take(k as int)).len(),
            forall|j: int|
                0 <= j < n ==> (#[trigger] r@[j])@ == (PresetView {
                    builtin: Some(true),
                    ..base@[j]@
                }),
            forall|j: int|
                0 <= j < twinned(v.take(k as int)).len() ==> is_twin(
                    twinned(v.take(k as int))[j],
                    (#[trigger] r@[n + j])@,
                ),
        decreases n - k,
    {
        proof {
            assert(v.take(k + 1).drop_last() =~= v.take(k as int));
            assert(v.take(k + 1).last() == base@[k as int]@);
        }
        if let Some(t) = graph_twin(&base[k]) {
            r.push(t);
        }
        k += 1;
    }
    proof {
        assert(v.take(k as int) =~= v);
        let f = preset_views(r@);
        assert forall|i: int| 0 <= i < v.len() implies #[trigger] f[i] == (PresetView {
            builtin: Some(true),
            ..v[i]
        }) by {
            assert(r@[i]@ == f[i]);
        }
        assert forall|i: int| 0 <= i < twinned(v).len() implies is_twin(
            #[trigger] twinned(v)[i],
            f[v.len() + i],
        ) by {
            assert(is_twin(twinned(v)[i], r@[n + i]@));
        }
    }
    r
}

/// Everything in the factory set is built in, so the launch refresh owns all of it.
pub proof fn twins_are_owned(p: PresetView, t: PresetView)
    requires
        is_twin(p, t),
    ensures
        owned(t),
        models::model_with_id(t.model_id) is Some,
{
    models::models_are_found_by_their_id(models::ModelKind::GraphString);
    models::models_are_found_by_their_id(models::ModelKind::GraphDrum);
    models::models_are_found_by_their_id(models::ModelKind::GraphMusicalString);
    models::models_are_found_by_their_id(models::ModelKind::GraphPlate);
}

proof fn lemma_twinned(p: Seq<PresetView>)
    ensures
        forall|k: int|
            0 <= k < twinned(p).len() ==> p.contains(#[trigger] twinned(p)[k]) && twin_model(
                twinned(p)[k],
            ) is Some,
        forall|i: int|
            0 <= i < p.len() && twin_model(#[trigger] p[i]) is Some ==> twinned(p).contains(p[i]),
    decreases p.len(),
{
    if p.len() > 0 {
        let q = p.drop_last();
        lemma_twinned(q);
        assert(p.last() == p[p.len() - 1]);
        assert forall|k: int| 0 <= k < twinned(p).len() implies p.contains(
            #[trigger] twinned(p)[k],
        ) && twin_model(twinned(p)[k]) is Some by {
            if k < twinned(q).len() {
                assert(twinned(p)[k] == twinned(q)[k]);
                let i = choose|i: int| 0 <= i < q.len() && q[i] == twinned(q)[k];
                assert(p[i] == q[i]);
            }
        }
        assert forall|i: int| 0 <= i < p.len() && twin_model(#[trigger] p[i]) is Some implies twinned(
            p,
        ).contains(p[i]) by {
            if i < q.len() {
                assert(p[i] == q[i]);
                let k = choose|k: int| 0 <= k < twinned(q).len() && twinned(q)[k] == q[i];
                assert(twinned(p)[k] == p[i]);
            } else {
                assert(twinned(p)[twinned(q).len() as int] == p[i]);
            }
        }
    }
}

/// No two of these presets share a name.
pub open spec fn names_differ(p: Seq<PresetView>) -> bool {
    forall|i: int, j: int|
        0 <= i < j < p.len() ==> (#[trigger] p[i]).name != (#[trigger] p[j]).name
}

proof fn lemma_twinned_names_differ(p: Seq<PresetView>)
    requires
        names_differ(p),
    ensures
        names_differ(twinned(p)),
    decreases p.len(),
{
    if p.len() > 0 {
        let q = p.drop_last();
        assert forall|i: int, j: int| 0 <= i < j < q.len() implies (#[trigger] q[i]).name != (
        #[trigger] q[j]).name by {
            assert(p[i].name != p[j].name);
        }
        lemma_twinned_names_differ(q);
        lemma_twinned(q);
        assert forall|k: int| 0 <= k < twinned(q).len() implies (#[trigger] twinned(q)[k]).name
            != p.last().name by {
            let i = choose|i: int| 0 <= i < q.len() && q[i] == twinned(q)[k];
            assert(p[i] == q[i]);
            assert(p[i].name != p[p.len() - 1].name);
        }
    }
}

proof fn lemma_same_start(a: Seq<char>, b: Seq<char>, end: Seq<char>)
    requires
        a + end == b + end,
    ensures
        a == b,
{
    assert((a + end).len() == (b + end).len());
    assert(a =~= (a + end).take(a.len() as int));
    assert(b =~= (b + end).take(b.len() as int));
}

/// Only settings of the models that get a twin have one, and no built-in instrument is a
/// setting of a graph model.
proof fn lemma_twins_by_kind(base: Seq<PresetView>, r: Seq<RecipeView>, i: int)
    requires
        are_settings_of(base, r),
        0 <= i < r.len(),
    ensures
        twin_model(base[i]) is Some ==> names::gets_twin(r[i].patch.kind()),
        !is_graph_id(base[i].model_id),
{
    models::models_are_found_by_their_id(r[i].patch.kind());
    models::models_are_found_by_their_id(models::ModelKind::PureString);
    models::models_are_found_by_their_id(models::ModelKind::DrumMembrane);
    models::models_are_found_by_their_id(models::ModelKind::MusicalString);
    models::models_are_found_by_their_id(models::ModelKind::PurePlate);
    models::models_are_found_by_their_id(models::ModelKind::GraphString);
    models::models_are_found_by_their_id(models::ModelKind::GraphDrum);
    models::models_are_found_by_their_id(models::ModelKind::GraphMusicalString);
    models::models_are_found_by_their_id(models::ModelKind::GraphPlate);
}

proof fn lemma_twins_have_no_twins(t: PresetView)
    requires
        is_graph_id(t.model_id),
    ensures
        twin_model(t) is None,
{
    models::models_are_found_by_their_id(models::ModelKind::PureString);
    models::models_are_found_by_their_id(models::ModelKind::DrumMembrane);
    models::models_are_found_by_their_id(models::ModelKind::MusicalString);
    models::models_are_found_by_their_id(models::ModelKind::PurePlate);
    models::models_are_found_by_their_id(models::ModelKind::GraphString);
    models::models_are_found_by_their_id(models::ModelKind::GraphDrum);
    models::models_are_found_by_their_id(models::ModelKind::GraphMusicalString);
    models::models_are_found_by_their_id(models::ModelKind::GraphPlate);
}

/// Each of these presets that has a twin has exactly one among them (and no other preset
/// of its twin's name), and every preset of a graph model is such a twin.
pub open spec fn twins_pair_up(f: Seq<PresetView>) -> bool {
    &&& forall|i: int|
        0 <= i < f.len() && twin_model(#[trigger] f[i]) is Some ==> exists|q: int|
            0 <= q < f.len() && is_twin(f[i], #[trigger] f[q])
    &&& forall|i: int, q: int, s: int|
        0 <= i < f.len() && 0 <= q < f.len() && 0 <= s < f.len() && #[trigger] is_twin(f[i], f[q])
            && (#[trigger] f[s]).name == f[q].name ==> s == q
    &&& forall|q: int|
        0 <= q < f.len() && is_graph_id((#[trigger] f[q]).model_id) ==> exists|i: int|
            0 <= i < f.len() && is_twin(#[trigger] f[i], f[q])
}

proof fn lemma_names_differ(r: Seq<RecipeView>, base: Seq<PresetView>, f: Seq<PresetView>)
    requires
        names::are_distinct(r),
        names::leave_twins_free(r),
        are_settings_of(base, r),
        is_factory_set(base, f),
    ensures
        names_differ(f),
{
    let n = base.len() as int;
    assert forall|i: int, j: int| 0 <= i < j < n implies (#[trigger] base[i]).name != (
    #[trigger] base[j]).name by {
        assert(r[i].name != r[j].name);
    }
    lemma_twinned(base);
    lemma_twinned_names_differ(base);
    assert forall|a: int, b: int| 0 <= a < b < f.len() implies (#[trigger] f[a]).name != (
    #[trigger] f[b]).name by {
        if b >= n {
            let p = twinned(base)[b - n];
            assert(is_twin(p, f[n + (b - n)]));
            let j = choose|j: int| 0 <= j < base.len() && base[j] == p;
            lemma_twins_by_kind(base, r, j);
            if a < n {
                assert(f[a].name == base[a].name);
                assert(r[a].name != r[j].name + " (graph)"@);
            } else {
                let o = twinned(base)[a - n];
                assert(is_twin(o, f[n + (a - n)]));
                assert(o.name != p.name);
                if f[a].name == f[b].name {
                    lemma_same_start(o.name, p.name, " (graph)"@);
                }
            }
        } else {
            assert(base[a].name != base[b].name);
        }
    }
}

proof fn lemma_one_twin(r: Seq<RecipeView>, base: Seq<PresetView>, f: Seq<PresetView>)
    requires
        are_settings_of(base, r),
        is_factory_set(base, f),
        names_differ(f),
    ensures
        twins_pair_up(f),
{
    let n = base.len() as int;
    lemma_twinned(base);
    assert forall|i: int| 0 <= i < f.len() && twin_model(#[trigger] f[i]) is Some implies exists|
        q: int,
    |
        0 <= q < f.len() && is_twin(f[i], #[trigger] f[q]) by {
        if i >= n {
            assert(is_twin(twinned(base)[i - n], f[n + (i - n)]));
            lemma_twins_have_no_twins(f[i]);
        } else {
            assert(twin_model(base[i]) is Some);
            let k = choose|k: int| 0 <= k < twinned(base).len() && twinned(base)[k] == base[i];
            assert(is_twin(twinned(base)[k], f[n + k]));
            assert(is_twin(f[i], f[n + k]));
        }
    }
    assert forall|q: int| 0 <= q < f.len() && is_graph_id(
        (#[trigger] f[q]).model_id,
    ) implies exists|i: int| 0 <= i < f.len() && is_twin(#[trigger] f[i], f[q]) by {
        if q < n {
            lemma_twins_by_kind(base, r, q);
        } else {
            let p = twinned(base)[q - n];
            assert(is_twin(p, f[n + (q - n)]));
            let i = choose|i: int| 0 <= i < base.len() && base[i] == p;
            assert(f[i].params == p.params);
            assert(is_twin(f[i], f[q]));
        }
    }
}

/// No two presets of the factory set share a name, whatever the tuning tables.
pub proof fn factory_names_differ(
    tables: Seq<Seq<Single>>,
    base: Seq<PresetView>,
    f: Seq<PresetView>,
)
    requires
        are_settings_of(base, crate::factory::recipes(tables)),
        is_factory_set(base, f),
    ensures
        names_differ(f),
{
    names::names_are_distinct(tables);
    names::names_of_twins_are_free(tables);
    lemma_names_differ(crate::factory::recipes(tables), base, f);
}

/// In the factory set, whatever the tuning tables, each preset that has a twin has
/// exactly one there, and every preset of a graph model is such a twin.
pub proof fn each_preset_has_one_twin(
    tables: Seq<Seq<Single>>,
    base: Seq<PresetView>,
    f: Seq<PresetView>,
)
    requires
        are_settings_of(base, crate::factory::recipes(tables)),
        is_factory_set(base, f),
    ensures
        twins_pair_up(f),
{
    factory_names_differ(tables, base, f);
    lemma_one_twin(crate::factory::recipes(tables), base, f);
}

/// Whatever a preset is called, its file has a safe stem.
pub proof fn preset_files_are_safe(name: Seq<char>)
    ensures
        files::is_safe(files::stem(name, "preset"@)),
{
    reveal_strlit("preset");
    files::stem_is_safe(name, "preset"@);
}

/// What the library owns follows it: a built-in preset, or one from before that was stored,
/// is refreshed while it is built in and removed once it is not, unless its file is the
/// user's.
pub proof fn owned_presets_follow_the_library(
    existing: Seq<PresetView>,
    fresh: Seq<PresetView>,
    p: PresetView,
    e: PresetView,
)
    requires
        !is_users_file(existing, p.name),
        !is_users_file(existing, e.name),
        e.builtin is None || e.builtin == Some(true),
    ensures
        first_named(existing, p.name) == Some(e) ==> to_write(existing, p),
        (forall|i: int| 0 <= i < fresh.len() ==> (#[trigger] fresh[i]).name != e.name)
            ==> to_remove(existing, fresh, e),
{
    if forall|i: int| 0 <= i < fresh.len() ==> (#[trigger] fresh[i]).name != e.name {
        lemma_first_named_skip(fresh, e.name, fresh.len() as int);
    }
}

/// The first preset of a name is one of that name, and none before it has it.
pub proof fn the_first_of_a_name_is_found(p: Seq<PresetView>, name: Seq<char>, i: int)
    requires
        0 <= i < p.len(),
        p[i].name == name,
        forall|j: int| 0 <= j < i ==> (#[trigger] p[j]).name != name,
    ensures
        first_named(p, name) == Some(p[i]),
{
    lemma_first_named_skip(p, name, i);
    assert(p.skip(i)[0] == p[i]);
}

/// The twin of a struck preset plays the graph model that belongs to its model: string to
/// string, drum to drum, musical string to musical string and plate to plate. A bowed
/// string has none, and nothing else has.
pub proof fn twins_match_their_model(p: PresetView)
    ensures
        p.model_id == "pure_string"@ && !is_bowed(p.params) ==> twin_model(p) == Some(
            "graph_string"@,
        ),
        p.model_id == "pure_string"@ && is_bowed(p.params) ==> twin_model(p) is None,
        p.model_id == models::ModelKind::DrumMembrane.id_text() ==> twin_model(p) == Some(
            models::ModelKind::GraphDrum.id_text(),
        ),
        p.model_id == models::ModelKind::MusicalString.id_text() ==> twin_model(p) == Some(
            models::ModelKind::GraphMusicalString.id_text(),
        ),
        p.model_id == models::ModelKind::PurePlate.id_text() ==> twin_model(p) == Some(
            models::ModelKind::GraphPlate.id_text(),
        ),
        twin_model(p) is Some ==> is_graph_id(twin_model(p).unwrap()),
        twin_model(p) is Some ==> models::model_with_id(p.model_id) is Some,
{
    models::models_are_found_by_their_id(models::ModelKind::PureString);
    models::models_are_found_by_their_id(models::ModelKind::DrumMembrane);
    models::models_are_found_by_their_id(models::ModelKind::MusicalString);
    models::models_are_found_by_their_id(models::ModelKind::PurePlate);
}

/// A twin holds its preset: the parameters whole, as those of the inner model, the engine
/// parameters, and the name with a mark.
pub proof fn twins_hold_their_preset(p: PresetView, t: PresetView)
    requires
        is_twin(p, t),
    ensures
        json::json_is_object(t.params),
        json::json_members(t.params).dom() == set!["inner"@],
        json::json_members(t.params)["inner"@] == p.params,
        t.engine == p.engine,
        t.name == p.name + " (graph)"@,
        t.zones.len() == 0,
        t.builtin == Some(true),
        p.model_id != t.model_id,
{
    assert(json::json_members(t.params).dom() =~= set!["inner"@]);
    if p.model_id == t.model_id {
        lemma_twins_have_no_twins(p);
    }
}

/// A preset gives back the model that it names with the parameters as read; kits, unknown
/// models and parameters that do not fit give none.
pub proof fn presets_give_back_their_model(
    p: PresetView,
    k: models::ModelKind,
    params: serde_json::Value,
)
    ensures
        p.zones.len() == 0 && p.model_id == k.id_text() ==> rebuilt(p, Some(params)) == Some(
            Model { kind: k, params },
        ),
        p.zones.len() > 0 ==> rebuilt(p, Some(params)) is None,
        rebuilt(p, None) is None,
        (forall|m: models::ModelKind| #[trigger] m.id_text() != p.model_id) ==> rebuilt(
            p,
            Some(params),
        ) is None,
{
    models::models_are_found_by_their_id(k);
    if models::model_with_id(p.model_id) is Some {
        models::only_known_ids_are_found(p.model_id);
    }
}

/// The presets found in a folder are those that the JSON files hold, in the order found.
/// `order` says which file each of them came from.
pub proof fn json_files_are_listed(l: Seq<Listing>) -> (order: Seq<int>)
    ensures
        order.len() == found_presets(l).len(),
        forall|j: int, k: int| 0 <= j < k < order.len() ==> order[j] < order[k],
        forall|j: int|
            0 <= j < order.len() ==> {
                &&& 0 <= (#[trigger] order[j]) < l.len()
                &&& files::is_json_name(l[order[j]].file@)
                &&& l[order[j]].preset matches Some(p) && found_presets(l)[j] == p@
            },
        forall|k: int|
            0 <= k < l.len() && (#[trigger] l[k]).preset is Some && files::is_json_name(l[k].file@)
                ==> order.contains(k),
    decreases l.len(),
{
    if l.len() == 0 {
        Seq::empty()
    } else {
        let head = l.drop_last();
        let rest = json_files_are_listed(head);
        let last = l.len() - 1;
        let order = if l.last().preset is Some && files::is_json_name(l.last().file@) {
            rest.push(last)
        } else {
            rest
        };
        assert forall|k: int| 0 <= k < head.len() implies head[k] == l[k] by {}
        assert forall|k: int|
            0 <= k < l.len() && (#[trigger] l[k]).preset is Some && files::is_json_name(
                l[k].file@,
            ) implies order.contains(k) by {
            if k < last {
                assert(head[k].preset is Some);
                let j = choose|j: int| 0 <= j < rest.len() && rest[j] == k;
                assert(order[j] == k);
            } else {
                assert(order[rest.len() as int] == k);
            }
        }
        assert forall|j: int| 0 <= j < order.len() implies {
            &&& 0 <= (#[trigger] order[j]) < l.len()
            &&& files::is_json_name(l[order[j]].file@)
            &&& l[order[j]].preset matches Some(p) && found_presets(l)[j] == p@
        } by {
            if j < rest.len() {
                assert(order[j] == rest[j]);
                assert(head[rest[j]] == l[rest[j]]);
                assert(found_presets(l)[j] == found_presets(head)[j]);
            }
        }
        order
    }
}

/// A listing holds every preset that was found, and their names ascend in lower case.
pub proof fn listings_hold_every_preset(all: Seq<PresetView>, out: Seq<PresetView>, i: int)
    requires
        is_listing(all, out),
        all.len() <= usize::MAX,
        0 <= i < all.len(),
    ensures
        out.len() == all.len(),
        out.contains(all[i]),
        all.contains(out[i]),
        i + 1 < out.len() ==> !text::text_lt(
            text::lower_cased(out[i + 1].name),
            text::lower_cased(out[i].name),
        ),
{
    let keys = files::lower_keys(names_of(all));
    let order = choose|order: Seq<usize>|
        #[trigger] files::is_stable_order(keys, order) && out.len() == all.len() && forall|j: int|
            0 <= j < out.len() ==> #[trigger] out[j] == all[order[j] as int];
    files::stable_order_is_a_permutation(keys, order);
    assert(order.contains(i as usize));
    let j = choose|j: int| 0 <= j < order.len() && order[j] == i as usize;
    assert(out[j] == all[i]);
    assert(order[i] < all.len());
    assert(all[order[i] as int] == out[i]);
    if i + 1 < out.len() {
        assert(files::in_order(keys, order[i], order[i + 1]));
        text::text_order_is_asymmetric(keys[order[i] as int], keys[order[i + 1] as int]);
        text::text_order_is_asymmetric(keys[order[i + 1] as int], keys[order[i + 1] as int]);
        assert(keys[order[i] as int] == text::lower_cased(out[i].name));
        assert(keys[order[i + 1] as int] == text::lower_cased(out[i + 1].name));
    }
}

/// A list of picks holds exactly the numbers that pass, each once and in order.
pub proof fn picks_are_exact(picked: Seq<usize>, n: int, test: spec_fn(int) -> bool, i: int)
    requires
        picks(picked, n, test),
        0 <= i < n <= usize::MAX,
    ensures
        picked.contains(i as usize) <==> test(i),
        picked.no_duplicates(),
        forall|k: int, l: int| 0 <= k < l < picked.len() ==> picked[k] < picked[l],
{
    if picked.contains(i as usize) {
        let k = choose|k: int| 0 <= k < picked.len() && picked[k] == i as usize;
        assert(test(picked[k] as int));
    }
    assert forall|k: int, l: int| 0 <= k < picked.len() && 0 <= l < picked.len() && k != l implies
        picked[k] != picked[l] by {
        if k < l {
            assert(picked[k] < picked[l]);
        } else {
            assert(picked[l] < picked[k]);
        }
    }
}

/// The presets that have a twin are those whose model has a graph rendering, in order.
pub proof fn the_twinned_are_those_with_a_twin(p: Seq<PresetView>, x: PresetView)
    ensures
        twin_model(x) is Some ==> twinned(p.push(x)) == twinned(p).push(x),
        twin_model(x) is None ==> twinned(p.push(x)) == twinned(p),
        twinned(Seq::<PresetView>::empty()).len() == 0,
{
    assert(p.push(x).drop_last() =~= p);
}

/// The library keeps away from the user's files alone: where nothing that the user saved
/// shares the file of a preset, the preset is written if there is none of its name or one
/// that the library owns, and removed if the library owns it and it is no longer built in.
pub proof fn the_library_keeps_away_from_the_users_files_alone(
    existing: Seq<PresetView>,
    fresh: Seq<PresetView>,
    p: PresetView,
)
    requires
        forall|i: int|
            0 <= i < existing.len() && (#[trigger] existing[i]).builtin == Some(false)
                ==> files::stem(existing[i].name, "preset"@) != files::stem(p.name, "preset"@),
    ensures
        (forall|i: int| 0 <= i < existing.len() ==> (#[trigger] existing[i]).name != p.name)
            ==> to_write(existing, p),
        existing.contains(p) ==> to_write(existing, p),
        p.builtin != Some(false) && (forall|i: int|
            0 <= i < fresh.len() ==> (#[trigger] fresh[i]).name != p.name) ==> to_remove(
            existing,
            fresh,
            p,
        ),
{
    if forall|i: int| 0 <= i < existing.len() ==> (#[trigger] existing[i]).name != p.name {
        lemma_first_named_skip(existing, p.name, existing.len() as int);
    }
    if forall|i: int| 0 <= i < fresh.len() ==> (#[trigger] fresh[i]).name != p.name {
        lemma_first_named_skip(fresh, p.name, fresh.len() as int);
    }
    if first_named(existing, p.name) is Some {
        let j = what_is_found_is_there(existing, p.name);
        assert(existing[j].builtin != Some(false));
    }
}

/// What is found under a name is one of the presets and has that name.
pub proof fn what_is_found_is_there(p: Seq<PresetView>, name: Seq<char>) -> (i: int)
    requires
        first_named(p, name) is Some,
    ensures
        0 <= i < p.len(),
        first_named(p, name) == Some(p[i]),
        p[i].name == name,
    decreases p.len(),
{
    if p[0].name == name {
        0
    } else {
        let i = what_is_found_is_there(p.drop_first(), name);
        assert(p.drop_first()[i] == p[i + 1]);
        i + 1
    }
}

/// The factory set holds every base preset as it is, in order, and all of it is built in.
pub proof fn the_factory_set_is_built_in(base: Seq<PresetView>, f: Seq<PresetView>, i: int)
    requires
        is_factory_set(base, f),
        0 <= i < f.len(),
    ensures
        f[i].builtin == Some(true),
        base.len() <= f.len(),
        i < base.len() ==> f[i].name == base[i].name && f[i].model_id == base[i].model_id
            && f[i].params == base[i].params && f[i].engine == base[i].engine && f[i].zones
            == base[i].zones,
{
    if i >= base.len() {
        let k = i - base.len();
        assert(is_twin(twinned(base)[k], f[base.len() + k]));
    }
}

} // verus!
