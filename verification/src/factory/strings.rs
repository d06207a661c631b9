//! The base set: strings, keyboards and bowed instruments.

use crate::decimal::decimal;
use crate::factory;
use crate::factory::parts;
use crate::factory::{join, recipe, Patch, PatchView, Recipe, RecipeView};
use crate::factory::parts::{
    body, bowed_string, edge, engine, hammer, membrane, musical, power, string, Material,
};
use crate::models::comp::Comp;
use crate::models::instrument_graph::{GraphView, InstrumentGraph};
use vstd::prelude::*;

verus! {

/// From Base: Acoustic Guitar to Base: Acoustic Bass.
pub open spec fn strings_first_view() -> Seq<RecipeView> {
    seq![
        factory::recipe_view(
            "Base: Acoustic Guitar"@,
            PatchView::Graph(
                GraphView {
                    components: seq![
                        Comp::Strike,
                        Comp::String(
                            string(
                                0_6480,
                                90_0000,
                                1_1000,
                                Material::Bronze,
                                2_5000,
                                0_6000,
                                0_1200,
                            ),
                        ),
                        body(15_0000, 9_0000, 195_0000, 0_1800),
                        Comp::Mix,
                    ],
                    edges: seq![
                        edge(0, 1, 1_0000),
                        edge(1, 3, 1_0000),
                        edge(1, 2, 1_0000),
                        edge(2, 3, 0_1200),
                    ],
                    output: 3,
                    key_map: Seq::empty(),
                },
            ),
            engine(0_6000, 3_0000, 150_0000),
        ),
        factory::recipe_view(
            "Base: Electric Guitar"@,
            PatchView::Graph(
                GraphView {
                    components: seq![
                        Comp::Strike,
                        Comp::String(
                            string(
                                0_6480,
                                78_0000,
                                1_0000,
                                Material::Nickel,
                                3_5000,
                                0_3500,
                                0_1000,
                            ),
                        ),
                        Comp::Mix,
                    ],
                    edges: seq![
                        edge(0, 1, 1_0000),
                        edge(1, 2, 1_0000),
                    ],
                    output: 2,
                    key_map: Seq::empty(),
                },
            ),
            engine(0_6000, 3_0000, 220_0000),
        ),
        factory::recipe_view(
            "Base: Nylon Guitar"@,
            PatchView::Graph(
                GraphView {
                    components: seq![
                        Comp::Strike,
                        Comp::String(
                            string(
                                0_6500,
                                60_0000,
                                0_9000,
                                Material::Nylon,
                                2_2000,
                                1_0000,
                                0_1400,
                            ),
                        ),
                        body(14_0000, 8_5000, 175_0000, 0_2000),
                        Comp::Mix,
                    ],
                    edges: seq![
                        edge(0, 1, 1_0000),
                        edge(1, 3, 1_0000),
                        edge(1, 2, 1_0000),
                        edge(2, 3, 0_1500),
                    ],
                    output: 3,
                    key_map: Seq::empty(),
                },
            ),
            engine(0_6000, 3_0000, 150_0000),
        ),
        factory::recipe_view(
            "Base: Acoustic Bass"@,
            PatchView::Graph(
                GraphView {
                    components: seq![
                        Comp::Strike,
                        Comp::String(
                            string(
                                0_8600,
                                80_0000,
                                1_3000,
                                Material::Nickel,
                                2_0000,
                                0_5000,
                                0_1500,
                            ),
                        ),
                        body(40_0000, 10_0000, 90_0000, 0_2500),
                        Comp::Mix,
                    ],
                    edges: seq![
                        edge(0, 1, 1_0000),
                        edge(1, 3, 1_0000),
                        edge(1, 2, 1_0000),
                        edge(2, 3, 0_1200),
                    ],
                    output: 3,
                    key_map: Seq::empty(),
                },
            ),
            engine(0_7000, 4_0000, 140_0000),
        ),
    ]
}

fn strings_first() -> (r: Vec<Recipe>)
    ensures
        factory::recipe_views(r@) == strings_first_view(),
{
    let r = vec![
        recipe(
            "Base: Acoustic Guitar",
            Patch::Graph(
                InstrumentGraph {
                    components: vec![
                        Comp::Strike,
                        Comp::String(
                            string(
                                0_6480,
                                90_0000,
                                1_1000,
                                Material::Bronze,
                                2_5000,
                                0_6000,
                                0_1200,
                            ),
                        ),
                        body(15_0000, 9_0000, 195_0000, 0_1800),
                        Comp::Mix,
                    ],
                    edges: vec![
                        edge(0, 1, 1_0000),
                        edge(1, 3, 1_0000),
                        edge(1, 2, 1_0000),
                        edge(2, 3, 0_1200),
                    ],
                    output: 3,
                    key_map: vec![],
                },
            ),
            engine(0_6000, 3_0000, 150_0000),
        ),
        recipe(
            "Base: Electric Guitar",
            Patch::Graph(
                InstrumentGraph {
                    components: vec![
                        Comp::Strike,
                        Comp::String(
                            string(
                                0_6480,
                                78_0000,
                                1_0000,
                                Material::Nickel,
                                3_5000,
                                0_3500,
                                0_1000,
                            ),
                        ),
                        Comp::Mix,
                    ],
                    edges: vec![
                        edge(0, 1, 1_0000),
                        edge(1, 2, 1_0000),
                    ],
                    output: 2,
                    key_map: vec![],
                },
            ),
            engine(0_6000, 3_0000, 220_0000),
        ),
        recipe(
            "Base: Nylon Guitar",
            Patch::Graph(
                InstrumentGraph {
                    components: vec![
                        Comp::Strike,
                        Comp::String(
                            string(
                                0_6500,
                                60_0000,
                                0_9000,
                                Material::Nylon,
                                2_2000,
                                1_0000,
                                0_1400,
                            ),
                        ),
                        body(14_0000, 8_5000, 175_0000, 0_2000),
                        Comp::Mix,
                    ],
                    edges: vec![
                        edge(0, 1, 1_0000),
                        edge(1, 3, 1_0000),
                        edge(1, 2, 1_0000),
                        edge(2, 3, 0_1500),
                    ],
                    output: 3,
                    key_map: vec![],
                },
            ),
            engine(0_6000, 3_0000, 150_0000),
        ),
        recipe(
            "Base: Acoustic Bass",
            Patch::Graph(
                InstrumentGraph {
                    components: vec![
                        Comp::Strike,
                        Comp::String(
                            string(
                                0_8600,
                                80_0000,
                                1_3000,
                                Material::Nickel,
                                2_0000,
                                0_5000,
                                0_1500,
                            ),
                        ),
                        body(40_0000, 10_0000, 90_0000, 0_2500),
                        Comp::Mix,
                    ],
                    edges: vec![
                        edge(0, 1, 1_0000),
                        edge(1, 3, 1_0000),
                        edge(1, 2, 1_0000),
                        edge(2, 3, 0_1200),
                    ],
                    output: 3,
                    key_map: vec![],
                },
            ),
            engine(0_7000, 4_0000, 140_0000),
        ),
    ];
    assert(factory::recipe_views(r@) =~~= strings_first_view());
    r
}

proof fn lemma_strings_first()
    ensures
        factory::all_sound(strings_first_view()),
{
}

/// From Base: Electric Bass to Base: Piano.
pub open spec fn strings_second_view() -> Seq<RecipeView> {
    seq![
        factory::recipe_view(
            "Base: Electric Bass"@,
            PatchView::Graph(
                GraphView {
                    components: seq![
                        Comp::Strike,
                        Comp::String(
                            string(
                                0_8640,
                                70_0000,
                                1_2500,
                                Material::Nickel,
                                3_5000,
                                0_3500,
                                0_1200,
                            ),
                        ),
                        Comp::Mix,
                    ],
                    edges: seq![
                        edge(0, 1, 1_0000),
                        edge(1, 2, 1_0000),
                    ],
                    output: 2,
                    key_map: Seq::empty(),
                },
            ),
            engine(0_7000, 4_0000, 160_0000),
        ),
        factory::recipe_view(
            "Base: Harp"@,
            PatchView::Graph(
                GraphView {
                    components: seq![
                        Comp::Strike,
                        Comp::String(
                            string(
                                0_9000,
                                55_0000,
                                0_8000,
                                Material::Nylon,
                                3_0000,
                                0_5000,
                                0_1600,
                            ),
                        ),
                        body(30_0000, 0_0000, 140_0000, 0_3500),
                        Comp::Mix,
                    ],
                    edges: seq![
                        edge(0, 1, 1_0000),
                        edge(1, 3, 1_0000),
                        edge(1, 2, 1_0000),
                        edge(2, 3, 0_2000),
                    ],
                    output: 3,
                    key_map: Seq::empty(),
                },
            ),
            engine(0_6000, 3_0000, 220_0000),
        ),
        factory::recipe_view(
            "Base: Banjo"@,
            PatchView::Graph(
                GraphView {
                    components: seq![
                        Comp::Strike,
                        Comp::String(
                            string(
                                0_6700,
                                55_0000,
                                0_4000,
                                Material::Steel,
                                0_9000,
                                1_2000,
                                0_0800,
                            ),
                        ),
                        Comp::Membrane(
                            membrane(0_1400, 3200_0000, 0_2200, 0_0200, 0_5000, 0_1500, 8_0000, 20),
                        ),
                        Comp::Mix,
                    ],
                    edges: seq![
                        edge(0, 1, 1_0000),
                        edge(1, 3, 0_5000),
                        edge(1, 2, 1_0000),
                        edge(2, 3, 0_8000),
                    ],
                    output: 3,
                    key_map: Seq::empty(),
                },
            ),
            engine(0_6000, 2_0000, 100_0000),
        ),
        factory::recipe_view(
            "Base: Piano"@,
            PatchView::Graph(
                GraphView {
                    components: seq![
                        hammer(0_5000, 2_6000),
                        Comp::MusicalString(musical(0_1400, 0_0004, 6_0000, 0_0200, 70)),
                        body(0_0000, 0_0000, 110_0000, 0_6000),
                        Comp::Mix,
                    ],
                    edges: seq![
                        edge(0, 1, 1_0000),
                        edge(1, 0, 1_0000),
                        edge(1, 3, 1_0000),
                        edge(1, 2, 1_0000),
                        edge(2, 3, 0_2000),
                    ],
                    output: 3,
                    key_map: seq![parts::power_view(0, "hardness"@, decimal(0_4000))],
                },
            ),
            engine(0_6000, 2_0000, 250_0000),
        ),
    ]
}

fn strings_second() -> (r: Vec<Recipe>)
    ensures
        factory::recipe_views(r@) == strings_second_view(),
{
    let r = vec![
        recipe(
            "Base: Electric Bass",
            Patch::Graph(
                InstrumentGraph {
                    components: vec![
                        Comp::Strike,
                        Comp::String(
                            string(
                                0_8640,
                                70_0000,
                                1_2500,
                                Material::Nickel,
                                3_5000,
                                0_3500,
                                0_1200,
                            ),
                        ),
                        Comp::Mix,
                    ],
                    edges: vec![
                        edge(0, 1, 1_0000),
                        edge(1, 2, 1_0000),
                    ],
                    output: 2,
                    key_map: vec![],
                },
            ),
            engine(0_7000, 4_0000, 160_0000),
        ),
        recipe(
            "Base: Harp",
            Patch::Graph(
                InstrumentGraph {
                    components: vec![
                        Comp::Strike,
                        Comp::String(
                            string(
                                0_9000,
                                55_0000,
                                0_8000,
                                Material::Nylon,
                                3_0000,
                                0_5000,
                                0_1600,
                            ),
                        ),
                        body(30_0000, 0_0000, 140_0000, 0_3500),
                        Comp::Mix,
                    ],
                    edges: vec![
                        edge(0, 1, 1_0000),
                        edge(1, 3, 1_0000),
                        edge(1, 2, 1_0000),
                        edge(2, 3, 0_2000),
                    ],
                    output: 3,
                    key_map: vec![],
                },
            ),
            engine(0_6000, 3_0000, 220_0000),
        ),
        recipe(
            "Base: Banjo",
            Patch::Graph(
                InstrumentGraph {
                    components: vec![
                        Comp::Strike,
                        Comp::String(
                            string(
                                0_6700,
                                55_0000,
                                0_4000,
                                Material::Steel,
                                0_9000,
                                1_2000,
                                0_0800,
                            ),
                        ),
                        Comp::Membrane(
                            membrane(0_1400, 3200_0000, 0_2200, 0_0200, 0_5000, 0_1500, 8_0000, 20),
                        ),
                        Comp::Mix,
                    ],
                    edges: vec![
                        edge(0, 1, 1_0000),
                        edge(1, 3, 0_5000),
                        edge(1, 2, 1_0000),
                        edge(2, 3, 0_8000),
                    ],
                    output: 3,
                    key_map: vec![],
                },
            ),
            engine(0_6000, 2_0000, 100_0000),
        ),
        recipe(
            "Base: Piano",
            Patch::Graph(
                InstrumentGraph {
                    components: vec![
                        hammer(0_5000, 2_6000),
                        Comp::MusicalString(musical(0_1400, 0_0004, 6_0000, 0_0200, 70)),
                        body(0_0000, 0_0000, 110_0000, 0_6000),
                        Comp::Mix,
                    ],
                    edges: vec![
                        edge(0, 1, 1_0000),
                        edge(1, 0, 1_0000),
                        edge(1, 3, 1_0000),
                        edge(1, 2, 1_0000),
                        edge(2, 3, 0_2000),
                    ],
                    output: 3,
                    key_map: vec![power(0, "hardness", decimal(0_4000))],
                },
            ),
            engine(0_6000, 2_0000, 250_0000),
        ),
    ];
    assert(factory::recipe_views(r@) =~~= strings_second_view());
    r
}

proof fn lemma_strings_second()
    ensures
        factory::all_sound(strings_second_view()),
{
}

/// From Base: Harpsichord to Base: Grand Piano.
pub open spec fn strings_third_view() -> Seq<RecipeView> {
    seq![
        factory::recipe_view(
            "Base: Harpsichord"@,
            PatchView::Graph(
                GraphView {
                    components: seq![
                        Comp::Strike,
                        Comp::String(
                            string(
                                0_7000,
                                42_0000,
                                0_1800,
                                Material::Brass,
                                1_8000,
                                0_0200,
                                0_0600,
                            ),
                        ),
                        body(30_0000, 7_0000, 210_0000, 0_2500),
                        Comp::Mix,
                    ],
                    edges: seq![
                        edge(0, 1, 1_0000),
                        edge(1, 0, 0_0000),
                        edge(1, 3, 1_0000),
                        edge(1, 2, 1_0000),
                        edge(2, 3, 0_2500),
                    ],
                    output: 3,
                    key_map: Seq::empty(),
                },
            ),
            engine(0_5500, 2_0000, 120_0000),
        ),
        factory::recipe_view(
            "Base: Clavichord"@,
            PatchView::Graph(
                GraphView {
                    components: seq![
                        hammer(0_9000, 1_2000),
                        Comp::String(
                            string(
                                0_6200,
                                38_0000,
                                0_2200,
                                Material::Brass,
                                1_2000,
                                0_0500,
                                0_0300,
                            ),
                        ),
                        body(18_0000, 5_0000, 190_0000, 0_2000),
                        Comp::Mix,
                    ],
                    edges: seq![
                        edge(0, 1, 1_0000),
                        edge(1, 0, 1_0000),
                        edge(1, 3, 1_0000),
                        edge(1, 2, 1_0000),
                        edge(2, 3, 0_2000),
                    ],
                    output: 3,
                    key_map: seq![parts::power_view(0, "hardness"@, decimal(0_4000))],
                },
            ),
            engine(0_5500, 2_0000, 120_0000),
        ),
        factory::recipe_view(
            "Base: Cimbalom"@,
            PatchView::Graph(
                GraphView {
                    components: seq![
                        hammer(0_8000, 1_8000),
                        Comp::String(
                            string(
                                0_6800,
                                160_0000,
                                0_4500,
                                Material::Steel,
                                5_0000,
                                0_0100,
                                0_2000,
                            ),
                        ),
                        body(65_0000, 0_0000, 130_0000, 0_5000),
                        Comp::Mix,
                    ],
                    edges: seq![
                        edge(0, 1, 1_0000),
                        edge(1, 0, 0_5000),
                        edge(1, 3, 1_0000),
                        edge(1, 2, 1_0000),
                        edge(2, 3, 0_2000),
                    ],
                    output: 3,
                    key_map: seq![parts::power_view(0, "hardness"@, decimal(0_4000))],
                },
            ),
            engine(0_6000, 1_0000, 200_0000),
        ),
        factory::recipe_view(
            "Base: Grand Piano"@,
            PatchView::Graph(
                GraphView {
                    components: seq![
                        hammer(0_5000, 2_6000),
                        Comp::MusicalString(musical(0_1400, 0_0004, 6_0000, 0_0200, 60)),
                        Comp::MusicalString(musical(0_1400, 0_0004, 6_0000, 0_0200, 60)),
                        Comp::MusicalString(musical(0_1400, 0_0004, 6_0000, 0_0200, 60)),
                        body(0_0000, 0_0000, 110_0000, 0_6000),
                        Comp::Mix,
                    ],
                    edges: seq![
                        edge(0, 1, 1_0000),
                        edge(0, 2, 1_0000),
                        edge(0, 3, 1_0000),
                        edge(1, 0, 0_3000),
                        edge(2, 0, 0_3000),
                        edge(3, 0, 0_3000),
                        edge(1, 5, 0_6000),
                        edge(2, 5, 0_6000),
                        edge(3, 5, 0_6000),
                        edge(1, 4, 1_0000),
                        edge(2, 4, 1_0000),
                        edge(3, 4, 1_0000),
                        edge(4, 5, 0_2000),
                    ],
                    output: 5,
                    key_map: seq![parts::power_view(0, "hardness"@, decimal(0_4000))],
                },
            ),
            engine(0_5500, 2_0000, 300_0000),
        ),
    ]
}

fn strings_third() -> (r: Vec<Recipe>)
    ensures
        factory::recipe_views(r@) == strings_third_view(),
{
    let r = vec![
        recipe(
            "Base: Harpsichord",
            Patch::Graph(
                InstrumentGraph {
                    components: vec![
                        Comp::Strike,
                        Comp::String(
                            string(
                                0_7000,
                                42_0000,
                                0_1800,
                                Material::Brass,
                                1_8000,
                                0_0200,
                                0_0600,
                            ),
                        ),
                        body(30_0000, 7_0000, 210_0000, 0_2500),
                        Comp::Mix,
                    ],
                    edges: vec![
                        edge(0, 1, 1_0000),
                        edge(1, 0, 0_0000),
                        edge(1, 3, 1_0000),
                        edge(1, 2, 1_0000),
                        edge(2, 3, 0_2500),
                    ],
                    output: 3,
                    key_map: vec![],
                },
            ),
            engine(0_5500, 2_0000, 120_0000),
        ),
        recipe(
            "Base: Clavichord",
            Patch::Graph(
                InstrumentGraph {
                    components: vec![
                        hammer(0_9000, 1_2000),
                        Comp::String(
                            string(
                                0_6200,
                                38_0000,
                                0_2200,
                                Material::Brass,
                                1_2000,
                                0_0500,
                                0_0300,
                            ),
                        ),
                        body(18_0000, 5_0000, 190_0000, 0_2000),
                        Comp::Mix,
                    ],
                    edges: vec![
                        edge(0, 1, 1_0000),
                        edge(1, 0, 1_0000),
                        edge(1, 3, 1_0000),
                        edge(1, 2, 1_0000),
                        edge(2, 3, 0_2000),
                    ],
                    output: 3,
                    key_map: vec![power(0, "hardness", decimal(0_4000))],
                },
            ),
            engine(0_5500, 2_0000, 120_0000),
        ),
        recipe(
            "Base: Cimbalom",
            Patch::Graph(
                InstrumentGraph {
                    components: vec![
                        hammer(0_8000, 1_8000),
                        Comp::String(
                            string(
                                0_6800,
                                160_0000,
                                0_4500,
                                Material::Steel,
                                5_0000,
                                0_0100,
                                0_2000,
                            ),
                        ),
                        body(65_0000, 0_0000, 130_0000, 0_5000),
                        Comp::Mix,
                    ],
                    edges: vec![
                        edge(0, 1, 1_0000),
                        edge(1, 0, 0_5000),
                        edge(1, 3, 1_0000),
                        edge(1, 2, 1_0000),
                        edge(2, 3, 0_2000),
                    ],
                    output: 3,
                    key_map: vec![power(0, "hardness", decimal(0_4000))],
                },
            ),
            engine(0_6000, 1_0000, 200_0000),
        ),
        recipe(
            "Base: Grand Piano",
            Patch::Graph(
                InstrumentGraph {
                    components: vec![
                        hammer(0_5000, 2_6000),
                        Comp::MusicalString(musical(0_1400, 0_0004, 6_0000, 0_0200, 60)),
                        Comp::MusicalString(musical(0_1400, 0_0004, 6_0000, 0_0200, 60)),
                        Comp::MusicalString(musical(0_1400, 0_0004, 6_0000, 0_0200, 60)),
                        body(0_0000, 0_0000, 110_0000, 0_6000),
                        Comp::Mix,
                    ],
                    edges: vec![
                        edge(0, 1, 1_0000),
                        edge(0, 2, 1_0000),
                        edge(0, 3, 1_0000),
                        edge(1, 0, 0_3000),
                        edge(2, 0, 0_3000),
                        edge(3, 0, 0_3000),
                        edge(1, 5, 0_6000),
                        edge(2, 5, 0_6000),
                        edge(3, 5, 0_6000),
                        edge(1, 4, 1_0000),
                        edge(2, 4, 1_0000),
                        edge(3, 4, 1_0000),
                        edge(4, 5, 0_2000),
                    ],
                    output: 5,
                    key_map: vec![power(0, "hardness", decimal(0_4000))],
                },
            ),
            engine(0_5500, 2_0000, 300_0000),
        ),
    ];
    assert(factory::recipe_views(r@) =~~= strings_third_view());
    r
}

proof fn lemma_strings_third()
    ensures
        factory::all_sound(strings_third_view()),
{
}

/// From Violin to Double Bass.
pub open spec fn strings_fourth_view() -> Seq<RecipeView> {
    seq![
        factory::recipe_view(
            "Violin"@,
            PatchView::Graph(
                GraphView {
                    components: seq![
                        bowed_string(0_6000, 0_4000),
                        body(2_2000, 3_2000, 280_0000, 0_3500),
                        Comp::Mix,
                    ],
                    edges: seq![
                        edge(0, 2, 0_8000),
                        edge(0, 1, 1_0000),
                        edge(1, 2, 0_3000),
                    ],
                    output: 2,
                    key_map: Seq::empty(),
                },
            ),
            engine(0_5000, 45_0000, 200_0000),
        ),
        factory::recipe_view(
            "Viola"@,
            PatchView::Graph(
                GraphView {
                    components: seq![
                        bowed_string(0_6000, 0_4500),
                        body(4_5000, 3_8000, 210_0000, 0_3800),
                        Comp::Mix,
                    ],
                    edges: seq![
                        edge(0, 2, 0_8000),
                        edge(0, 1, 1_0000),
                        edge(1, 2, 0_3000),
                    ],
                    output: 2,
                    key_map: Seq::empty(),
                },
            ),
            engine(0_5000, 45_0000, 200_0000),
        ),
        factory::recipe_view(
            "Cello"@,
            PatchView::Graph(
                GraphView {
                    components: seq![
                        bowed_string(0_6000, 0_4500),
                        body(28_0000, 6_5000, 105_0000, 0_5000),
                        Comp::Mix,
                    ],
                    edges: seq![
                        edge(0, 2, 0_8000),
                        edge(0, 1, 1_0000),
                        edge(1, 2, 0_3000),
                    ],
                    output: 2,
                    key_map: Seq::empty(),
                },
            ),
            engine(0_5000, 50_0000, 220_0000),
        ),
        factory::recipe_view(
            "Double Bass"@,
            PatchView::Graph(
                GraphView {
                    components: seq![
                        bowed_string(0_6000, 0_5000),
                        body(120_0000, 11_5000, 60_0000, 0_6000),
                        Comp::Mix,
                    ],
                    edges: seq![
                        edge(0, 2, 0_8000),
                        edge(0, 1, 1_0000),
                        edge(1, 2, 0_3000),
                    ],
                    output: 2,
                    key_map: Seq::empty(),
                },
            ),
            engine(0_5000, 50_0000, 250_0000),
        ),
    ]
}

fn strings_fourth() -> (r: Vec<Recipe>)
    ensures
        factory::recipe_views(r@) == strings_fourth_view(),
{
    let r = vec![
        recipe(
            "Violin",
            Patch::Graph(
                InstrumentGraph {
                    components: vec![
                        bowed_string(0_6000, 0_4000),
                        body(2_2000, 3_2000, 280_0000, 0_3500),
                        Comp::Mix,
                    ],
                    edges: vec![
                        edge(0, 2, 0_8000),
                        edge(0, 1, 1_0000),
                        edge(1, 2, 0_3000),
                    ],
                    output: 2,
                    key_map: vec![],
                },
            ),
            engine(0_5000, 45_0000, 200_0000),
        ),
        recipe(
            "Viola",
            Patch::Graph(
                InstrumentGraph {
                    components: vec![
                        bowed_string(0_6000, 0_4500),
                        body(4_5000, 3_8000, 210_0000, 0_3800),
                        Comp::Mix,
                    ],
                    edges: vec![
                        edge(0, 2, 0_8000),
                        edge(0, 1, 1_0000),
                        edge(1, 2, 0_3000),
                    ],
                    output: 2,
                    key_map: vec![],
                },
            ),
            engine(0_5000, 45_0000, 200_0000),
        ),
        recipe(
            "Cello",
            Patch::Graph(
                InstrumentGraph {
                    components: vec![
                        bowed_string(0_6000, 0_4500),
                        body(28_0000, 6_5000, 105_0000, 0_5000),
                        Comp::Mix,
                    ],
                    edges: vec![
                        edge(0, 2, 0_8000),
                        edge(0, 1, 1_0000),
                        edge(1, 2, 0_3000),
                    ],
                    output: 2,
                    key_map: vec![],
                },
            ),
            engine(0_5000, 50_0000, 220_0000),
        ),
        recipe(
            "Double Bass",
            Patch::Graph(
                InstrumentGraph {
                    components: vec![
                        bowed_string(0_6000, 0_5000),
                        body(120_0000, 11_5000, 60_0000, 0_6000),
                        Comp::Mix,
                    ],
                    edges: vec![
                        edge(0, 2, 0_8000),
                        edge(0, 1, 1_0000),
                        edge(1, 2, 0_3000),
                    ],
                    output: 2,
                    key_map: vec![],
                },
            ),
            engine(0_5000, 50_0000, 250_0000),
        ),
    ];
    assert(factory::recipe_views(r@) =~~= strings_fourth_view());
    r
}

proof fn lemma_strings_fourth()
    ensures
        factory::all_sound(strings_fourth_view()),
{
}

/// From Hurdy-Gurdy to Hurdy-Gurdy.
pub open spec fn strings_fifth_view() -> Seq<RecipeView> {
    seq![
        factory::recipe_view(
            "Hurdy-Gurdy"@,
            PatchView::Graph(
                GraphView {
                    components: seq![
                        bowed_string(0_6000, 0_4500),
                        body(12_0000, 0_0000, 160_0000, 0_4000),
                        Comp::Mix,
                    ],
                    edges: seq![
                        edge(0, 2, 0_8000),
                        edge(0, 1, 1_0000),
                        edge(1, 2, 0_3000),
                    ],
                    output: 2,
                    key_map: Seq::empty(),
                },
            ),
            engine(0_5000, 40_0000, 250_0000),
        ),
    ]
}

fn strings_fifth() -> (r: Vec<Recipe>)
    ensures
        factory::recipe_views(r@) == strings_fifth_view(),
{
    let r = vec![
        recipe(
            "Hurdy-Gurdy",
            Patch::Graph(
                InstrumentGraph {
                    components: vec![
                        bowed_string(0_6000, 0_4500),
                        body(12_0000, 0_0000, 160_0000, 0_4000),
                        Comp::Mix,
                    ],
                    edges: vec![
                        edge(0, 2, 0_8000),
                        edge(0, 1, 1_0000),
                        edge(1, 2, 0_3000),
                    ],
                    output: 2,
                    key_map: vec![],
                },
            ),
            engine(0_5000, 40_0000, 250_0000),
        ),
    ];
    assert(factory::recipe_views(r@) =~~= strings_fifth_view());
    r
}

proof fn lemma_strings_fifth()
    ensures
        factory::all_sound(strings_fifth_view()),
{
}

/// The base set: strings, keyboards and bowed instruments.
pub open spec fn strings_view() -> Seq<RecipeView> {
    strings_first_view() + strings_second_view() + strings_third_view() + strings_fourth_view()
        + strings_fifth_view()
}

/// The base set: strings, keyboards and bowed instruments.
pub fn strings_recipes() -> (r: Vec<Recipe>)
    ensures
        factory::recipe_views(r@) == strings_view(),
{
    let mut r = strings_first();
    join(&mut r, strings_second());
    join(&mut r, strings_third());
    join(&mut r, strings_fourth());
    join(&mut r, strings_fifth());
    r
}

/// The graphs of this section are wired properly.
pub proof fn strings_is_sound()
    ensures
        factory::all_sound(strings_view()),
{
    lemma_strings_first();
    lemma_strings_second();
    lemma_strings_third();
    lemma_strings_fourth();
    lemma_strings_fifth();
}

} // verus!
