//! The built-in instruments: starting points to tune by ear.

pub mod classic;
pub mod names;
pub mod parts;
pub mod percussion;
pub mod plucked_set;
pub mod showcase;
pub mod strings;
pub mod winds;

use crate::instrument::EngineParams;
use crate::models::basic_wave::BasicWave;
use crate::models::cymbal::Cymbal;
use crate::models::drum_membrane::DrumMembrane;
use crate::models::instrument_graph::{GraphView, InstrumentGraph};
use crate::models::metal_bell::MetalBell;
use crate::models::musical_string::MusicalString;
use crate::models::pure_plate::PurePlate;
use crate::models::pure_string::PureString;
use crate::models::snare::Snare;
use crate::models::ModelKind;
use crate::single::Single;
use vstd::prelude::*;

verus! {

/// A model with its parameters.
pub enum Patch {
    /// A stiff string.
    PureString(PureString),
    /// A music-friendly string.
    MusicalString(MusicalString),
    /// A drumhead.
    DrumMembrane(DrumMembrane),
    /// A bell.
    MetalBell(MetalBell),
    /// A snare drum.
    Snare(Snare),
    /// A cymbal.
    Cymbal(Cymbal),
    /// A free plate.
    PurePlate(PurePlate),
    /// A reference oscillator.
    BasicWave(BasicWave),
    /// An instrument graph.
    Graph(InstrumentGraph),
}

/// A model with its parameters, as a value.
#[verifier::ext_equal]
pub ghost enum PatchView {
    PureString(PureString),
    MusicalString(MusicalString),
    DrumMembrane(DrumMembrane),
    MetalBell(MetalBell),
    Snare(Snare),
    Cymbal(Cymbal),
    PurePlate(PurePlate),
    BasicWave(BasicWave),
    Graph(GraphView),
}

impl View for Patch {
    type V = PatchView;

    open spec fn view(&self) -> PatchView {
        match *self {
            Patch::PureString(m) => PatchView::PureString(m),
            Patch::MusicalString(m) => PatchView::MusicalString(m),
            Patch::DrumMembrane(m) => PatchView::DrumMembrane(m),
            Patch::MetalBell(m) => PatchView::MetalBell(m),
            Patch::Snare(m) => PatchView::Snare(m),
            Patch::Cymbal(m) => PatchView::Cymbal(m),
            Patch::PurePlate(m) => PatchView::PurePlate(m),
            Patch::BasicWave(m) => PatchView::BasicWave(m),
            Patch::Graph(g) => PatchView::Graph(g@),
        }
    }
}

impl PatchView {
    /// The model that this is a setting of.
    pub open spec fn kind(self) -> ModelKind {
        match self {
            PatchView::PureString(_) => ModelKind::PureString,
            PatchView::MusicalString(_) => ModelKind::MusicalString,
            PatchView::DrumMembrane(_) => ModelKind::DrumMembrane,
            PatchView::MetalBell(_) => ModelKind::MetalBell,
            PatchView::Snare(_) => ModelKind::Snare,
            PatchView::Cymbal(_) => ModelKind::Cymbal,
            PatchView::PurePlate(_) => ModelKind::PurePlate,
            PatchView::BasicWave(_) => ModelKind::BasicWave,
            PatchView::Graph(_) => ModelKind::InstrumentGraph,
        }
    }
}

impl Patch {
    /// The model that this is a setting of.
    pub fn kind(&self) -> (r: ModelKind)
        ensures
            r == self@.kind(),
    {
        match self {
            Patch::PureString(_) => ModelKind::PureString,
            Patch::MusicalString(_) => ModelKind::MusicalString,
            Patch::DrumMembrane(_) => ModelKind::DrumMembrane,
            Patch::MetalBell(_) => ModelKind::MetalBell,
            Patch::Snare(_) => ModelKind::Snare,
            Patch::Cymbal(_) => ModelKind::Cymbal,
            Patch::PurePlate(_) => ModelKind::PurePlate,
            Patch::BasicWave(_) => ModelKind::BasicWave,
            Patch::Graph(_) => ModelKind::InstrumentGraph,
        }
    }
}

/// A built-in instrument.
pub struct Recipe {
    /// What it is called.
    pub name: String,
    /// What it plays.
    pub patch: Patch,
    /// How it plays.
    pub engine: EngineParams,
}

/// A built-in instrument, as a value.
#[verifier::ext_equal]
pub ghost struct RecipeView {
    pub name: Seq<char>,
    pub patch: PatchView,
    pub engine: EngineParams,
}

impl View for Recipe {
    type V = RecipeView;

    open spec fn view(&self) -> RecipeView {
        RecipeView { name: self.name@, patch: self.patch@, engine: self.engine }
    }
}

/// Built-in instruments, as values.
pub open spec fn recipe_views(r: Seq<Recipe>) -> Seq<RecipeView> {
    r.map_values(|x: Recipe| x@)
}

/// A recipe.
pub open spec fn recipe_view(name: Seq<char>, patch: PatchView, engine: EngineParams) -> RecipeView {
    RecipeView { name, patch, engine }
}

/// A recipe.
pub fn recipe(name: &str, patch: Patch, engine: EngineParams) -> (r: Recipe)
    ensures
        r@ == recipe_view(name@, patch@, engine),
{
    Recipe { name: name.to_owned(), patch, engine }
}

/// Moves recipes to the end of others.
pub fn join(r: &mut Vec<Recipe>, more: Vec<Recipe>)
    ensures
        recipe_views(final(r)@) == recipe_views(old(r)@) + recipe_views(more@),
{
    let ghost added = more@;
    let mut more = more;
    r.append(&mut more);
    assert(recipe_views(r@) =~= recipe_views(old(r)@) + recipe_views(added));
}

/// The graph of a recipe, if it has one, is wired properly.
pub open spec fn is_sound(r: RecipeView) -> bool {
    match r.patch {
        PatchView::Graph(g) => g.is_valid(),
        _ => true,
    }
}

/// All graphs of these recipes are wired properly.
pub open spec fn all_sound(r: Seq<RecipeView>) -> bool {
    forall|i: int| 0 <= i < r.len() ==> is_sound(#[trigger] r[i])
}

/// The built-in instruments, before any twins. `tables` holds the tuning tables of the
/// single reeds.
pub open spec fn recipes(tables: Seq<Seq<Single>>) -> Seq<RecipeView> {
    plucked_set::plucked_set_view() + showcase::showcase_view() + classic::classic_view()
        + strings::strings_view() + percussion::percussion_view() + winds::winds_view(tables)
}

/// The built-in instruments, before any twins: [`crate::presets::factory`] adds those.
/// `tables` holds the tuning tables of the single reeds; a reed without one is left
/// untuned.
pub fn base_recipes(tables: &Vec<Vec<Single>>) -> (r: Vec<Recipe>)
    ensures
        recipe_views(r@) == recipes(winds::table_views(tables@)),
{
    let mut r = plucked_set::plucked_set_recipes();
    join(&mut r, showcase::showcase_recipes());
    join(&mut r, classic::classic_recipes());
    join(&mut r, strings::strings_recipes());
    join(&mut r, percussion::percussion_recipes());
    join(&mut r, winds::wind_recipes(tables));
    r
}

/// Every built-in graph is wired properly, whatever the tuning tables: no edge, binding
/// or output refers to a component that is not there.
pub proof fn built_in_graphs_are_wired(tables: Seq<Seq<Single>>)
    ensures
        all_sound(recipes(tables)),
{
    plucked_set::plucked_set_is_sound();
    showcase::showcase_is_sound();
    classic::classic_is_sound();
    strings::strings_is_sound();
    percussion::percussion_is_sound();
    winds::winds_are_sound(tables);
}

proof fn lemma_contained(a: Seq<RecipeView>, b: Seq<RecipeView>)
    ensures
        forall|r: RecipeView| a.contains(r) || b.contains(r) <==> #[trigger] (a + b).contains(r),
{
    assert forall|r: RecipeView| a.contains(r) || b.contains(r) <==> #[trigger] (a + b).contains(
        r,
    ) by {
        if a.contains(r) {
            let i = choose|i: int| 0 <= i < a.len() && a[i] == r;
            assert((a + b)[i] == r);
        }
        if b.contains(r) {
            let i = choose|i: int| 0 <= i < b.len() && b[i] == r;
            assert((a + b)[a.len() + i] == r);
        }
        if (a + b).contains(r) {
            let i = choose|i: int| 0 <= i < (a + b).len() && (a + b)[i] == r;
            if i < a.len() {
                assert(a[i] == r);
            } else {
                assert(b[i - a.len()] == r);
            }
        }
    }
}

/// Every set of instruments is built in, in order and without anything between or besides.
pub proof fn every_set_is_built_in(tables: Seq<Seq<Single>>)
    ensures
        ({
            let (a, b, c, d, e, f) = (
                plucked_set::plucked_set_view(),
                showcase::showcase_view(),
                classic::classic_view(),
                strings::strings_view(),
                percussion::percussion_view(),
                winds::winds_view(tables),
            );
            let all = recipes(tables);
            &&& all.len() == a.len() + b.len() + c.len() + d.len() + e.len() + f.len()
            &&& forall|r: RecipeView|
                a.contains(r) || b.contains(r) || c.contains(r) || d.contains(r) || e.contains(r)
                    || f.contains(r) <==> #[trigger] all.contains(r)
            &&& all.take(a.len() as int) == a
            &&& all.skip(all.len() - f.len()) == f
        }),
{
    let (a, b, c, d, e, f) = (
        plucked_set::plucked_set_view(),
        showcase::showcase_view(),
        classic::classic_view(),
        strings::strings_view(),
        percussion::percussion_view(),
        winds::winds_view(tables),
    );
    let all = recipes(tables);
    lemma_contained(a, b);
    lemma_contained(a + b, c);
    lemma_contained(a + b + c, d);
    lemma_contained(a + b + c + d, e);
    lemma_contained(a + b + c + d + e, f);
    assert(all.take(a.len() as int) =~= a);
    assert(all.skip(all.len() - f.len()) =~= f);
}

/// A recipe has the name, the sound and the engine that it is made from, and its model is
/// that of its sound.
pub proof fn recipes_are_as_written(name: Seq<char>, patch: PatchView, engine: EngineParams)
    ensures
        recipe_view(name, patch, engine).name == name,
        recipe_view(name, patch, engine).patch == patch,
        recipe_view(name, patch, engine).engine == engine,
        patch is PureString <==> patch.kind() == ModelKind::PureString,
        patch is MusicalString <==> patch.kind() == ModelKind::MusicalString,
        patch is DrumMembrane <==> patch.kind() == ModelKind::DrumMembrane,
        patch is MetalBell <==> patch.kind() == ModelKind::MetalBell,
        patch is Snare <==> patch.kind() == ModelKind::Snare,
        patch is Cymbal <==> patch.kind() == ModelKind::Cymbal,
        patch is PurePlate <==> patch.kind() == ModelKind::PurePlate,
        patch is BasicWave <==> patch.kind() == ModelKind::BasicWave,
        patch is Graph <==> patch.kind() == ModelKind::InstrumentGraph,
{
}

} // verus!
