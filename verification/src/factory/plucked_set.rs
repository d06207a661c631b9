//! The plucked and struck strings.

use crate::decimal::minus;
use crate::factory;
use crate::factory::parts;
use crate::factory::{join, recipe, Patch, PatchView, Recipe, RecipeView};
use crate::factory::parts::{
    edge, engine, membrane, plucked, plucked_string, power, string, Material,
};
use crate::models::comp::Comp;
use crate::models::instrument_graph::{GraphView, InstrumentGraph};
use vstd::prelude::*;

verus! {

/// From Acoustic Bass to Harp.
pub open spec fn plucked_set_first_view() -> Seq<RecipeView> {
    seq![
        factory::recipe_view(
            "Acoustic Bass"@,
            PatchView::Graph(
                parts::plucked_view(0_1500, 2_0000, 0_4000, 30_0000, 90_0000, 0_8000, 0_3000),
            ),
            engine(0_7500, 4_0000, 120_0000),
        ),
        factory::recipe_view(
            "Electric Bass"@,
            PatchView::Graph(
                parts::plucked_view(0_1200, 2_6000, 0_3200, 8_0000, 100_0000, 0_8500, 0_2000),
            ),
            engine(0_7500, 4_0000, 140_0000),
        ),
        factory::recipe_view(
            "Acoustic Guitar"@,
            PatchView::Graph(
                parts::plucked_view(0_1200, 2_5000, 0_2800, 3_5000, 200_0000, 0_8000, 0_3500),
            ),
            engine(0_6000, 3_0000, 120_0000),
        ),
        factory::recipe_view(
            "Electric Guitar"@,
            PatchView::Graph(
                parts::plucked_view(0_1000, 3_0000, 0_2000, 2_0000, 250_0000, 0_9000, 0_1500),
            ),
            engine(0_6000, 3_0000, 200_0000),
        ),
        factory::recipe_view(
            "Piano"@,
            PatchView::PureString(
                string(0_6000, 700_0000, 1_1000, Material::Steel, 3_5000, 0_3000, 0_1200),
            ),
            engine(0_6000, 2_0000, 150_0000),
        ),
        factory::recipe_view(
            "Banjo"@,
            PatchView::Graph(
                GraphView {
                    components: seq![
                        plucked_string(0_0800, 0_8000, 0_1200),
                        Comp::Membrane(
                            membrane(
                                0_1400,
                                3400_0000,
                                0_2200,
                                0_0200,
                                0_5000,
                                0_1000,
                                14_0000,
                                20,
                            ),
                        ),
                        Comp::Mix,
                    ],
                    edges: seq![
                        edge(0, 2, 0_5000),
                        edge(0, 1, 0_2000),
                        edge(1, 2, 0_3000),
                    ],
                    output: 2,
                    key_map: seq![parts::power_view(0, "decay"@, minus(0_7000))],
                },
            ),
            engine(0_6000, 2_0000, 80_0000),
        ),
        factory::recipe_view(
            "Harp"@,
            PatchView::Graph(
                parts::plucked_view(0_1600, 2_5000, 0_2500, 20_0000, 150_0000, 0_8000, 0_3000),
            ),
            engine(0_6000, 3_0000, 180_0000),
        ),
    ]
}

fn plucked_set_first() -> (r: Vec<Recipe>)
    ensures
        factory::recipe_views(r@) == plucked_set_first_view(),
{
    let r = vec![
        recipe(
            "Acoustic Bass",
            Patch::Graph(plucked(0_1500, 2_0000, 0_4000, 30_0000, 90_0000, 0_8000, 0_3000)),
            engine(0_7500, 4_0000, 120_0000),
        ),
        recipe(
            "Electric Bass",
            Patch::Graph(plucked(0_1200, 2_6000, 0_3200, 8_0000, 100_0000, 0_8500, 0_2000)),
            engine(0_7500, 4_0000, 140_0000),
        ),
        recipe(
            "Acoustic Guitar",
            Patch::Graph(plucked(0_1200, 2_5000, 0_2800, 3_5000, 200_0000, 0_8000, 0_3500)),
            engine(0_6000, 3_0000, 120_0000),
        ),
        recipe(
            "Electric Guitar",
            Patch::Graph(plucked(0_1000, 3_0000, 0_2000, 2_0000, 250_0000, 0_9000, 0_1500)),
            engine(0_6000, 3_0000, 200_0000),
        ),
        recipe(
            "Piano",
            Patch::PureString(
                string(0_6000, 700_0000, 1_1000, Material::Steel, 3_5000, 0_3000, 0_1200),
            ),
            engine(0_6000, 2_0000, 150_0000),
        ),
        recipe(
            "Banjo",
            Patch::Graph(
                InstrumentGraph {
                    components: vec![
                        plucked_string(0_0800, 0_8000, 0_1200),
                        Comp::Membrane(
                            membrane(
                                0_1400,
                                3400_0000,
                                0_2200,
                                0_0200,
                                0_5000,
                                0_1000,
                                14_0000,
                                20,
                            ),
                        ),
                        Comp::Mix,
                    ],
                    edges: vec![
                        edge(0, 2, 0_5000),
                        edge(0, 1, 0_2000),
                        edge(1, 2, 0_3000),
                    ],
                    output: 2,
                    key_map: vec![power(0, "decay", minus(0_7000))],
                },
            ),
            engine(0_6000, 2_0000, 80_0000),
        ),
        recipe(
            "Harp",
            Patch::Graph(plucked(0_1600, 2_5000, 0_2500, 20_0000, 150_0000, 0_8000, 0_3000)),
            engine(0_6000, 3_0000, 180_0000),
        ),
    ];
    assert(factory::recipe_views(r@) =~~= plucked_set_first_view());
    r
}

proof fn lemma_plucked_set_first()
    ensures
        factory::all_sound(plucked_set_first_view()),
{
}

/// From Acoustic Bass (FTM) to Harp (FTM).
pub open spec fn plucked_set_second_view() -> Seq<RecipeView> {
    seq![
        factory::recipe_view(
            "Acoustic Bass (FTM)"@,
            PatchView::PureString(
                string(0_8640, 60_0000, 1_3000, Material::Nickel, 2_0000, 0_5000, 0_1500),
            ),
            engine(0_7500, 4_0000, 120_0000),
        ),
        factory::recipe_view(
            "Electric Bass (FTM)"@,
            PatchView::PureString(
                string(0_8640, 55_0000, 1_2500, Material::Nickel, 2_6000, 0_4000, 0_1200),
            ),
            engine(0_7500, 4_0000, 140_0000),
        ),
        factory::recipe_view(
            "Acoustic Guitar (FTM)"@,
            PatchView::PureString(
                string(0_6480, 90_0000, 1_1000, Material::Bronze, 2_5000, 0_6000, 0_1200),
            ),
            engine(0_6000, 3_0000, 120_0000),
        ),
        factory::recipe_view(
            "Electric Guitar (FTM)"@,
            PatchView::PureString(
                string(0_6480, 78_0000, 1_0000, Material::Nickel, 3_0000, 0_4000, 0_1000),
            ),
            engine(0_6000, 3_0000, 200_0000),
        ),
        factory::recipe_view(
            "Banjo (FTM)"@,
            PatchView::PureString(
                string(0_6700, 55_0000, 0_4000, Material::Steel, 0_8000, 1_2000, 0_0800),
            ),
            engine(0_6000, 2_0000, 80_0000),
        ),
        factory::recipe_view(
            "Harp (FTM)"@,
            PatchView::PureString(
                string(0_9000, 55_0000, 0_8000, Material::Nylon, 2_5000, 0_5000, 0_1600),
            ),
            engine(0_6000, 3_0000, 180_0000),
        ),
    ]
}

fn plucked_set_second() -> (r: Vec<Recipe>)
    ensures
        factory::recipe_views(r@) == plucked_set_second_view(),
{
    let r = vec![
        recipe(
            "Acoustic Bass (FTM)",
            Patch::PureString(
                string(0_8640, 60_0000, 1_3000, Material::Nickel, 2_0000, 0_5000, 0_1500),
            ),
            engine(0_7500, 4_0000, 120_0000),
        ),
        recipe(
            "Electric Bass (FTM)",
            Patch::PureString(
                string(0_8640, 55_0000, 1_2500, Material::Nickel, 2_6000, 0_4000, 0_1200),
            ),
            engine(0_7500, 4_0000, 140_0000),
        ),
        recipe(
            "Acoustic Guitar (FTM)",
            Patch::PureString(
                string(0_6480, 90_0000, 1_1000, Material::Bronze, 2_5000, 0_6000, 0_1200),
            ),
            engine(0_6000, 3_0000, 120_0000),
        ),
        recipe(
            "Electric Guitar (FTM)",
            Patch::PureString(
                string(0_6480, 78_0000, 1_0000, Material::Nickel, 3_0000, 0_4000, 0_1000),
            ),
            engine(0_6000, 3_0000, 200_0000),
        ),
        recipe(
            "Banjo (FTM)",
            Patch::PureString(
                string(0_6700, 55_0000, 0_4000, Material::Steel, 0_8000, 1_2000, 0_0800),
            ),
            engine(0_6000, 2_0000, 80_0000),
        ),
        recipe(
            "Harp (FTM)",
            Patch::PureString(
                string(0_9000, 55_0000, 0_8000, Material::Nylon, 2_5000, 0_5000, 0_1600),
            ),
            engine(0_6000, 3_0000, 180_0000),
        ),
    ];
    assert(factory::recipe_views(r@) =~~= plucked_set_second_view());
    r
}

proof fn lemma_plucked_set_second()
    ensures
        factory::all_sound(plucked_set_second_view()),
{
}

/// The plucked and struck strings.
pub open spec fn plucked_set_view() -> Seq<RecipeView> {
    plucked_set_first_view() + plucked_set_second_view()
}

/// The plucked and struck strings.
pub fn plucked_set_recipes() -> (r: Vec<Recipe>)
    ensures
        factory::recipe_views(r@) == plucked_set_view(),
{
    let mut r = plucked_set_first();
    join(&mut r, plucked_set_second());
    r
}

/// The graphs of this section are wired properly.
pub proof fn plucked_set_is_sound()
    ensures
        factory::all_sound(plucked_set_view()),
{
    lemma_plucked_set_first();
    lemma_plucked_set_second();
}

} // verus!
