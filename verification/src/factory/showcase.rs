//! Instruments built purely as graphs of exciters and resonators.

use crate::factory;
use crate::factory::{join, recipe, Patch, PatchView, Recipe, RecipeView};
use crate::factory::parts::{
    bell, body, cymbal, edge, engine, membrane, musical, string, wires, Material,
};
use crate::models::comp::Comp;
use crate::models::instrument_graph::{GraphView, InstrumentGraph};
use vstd::prelude::*;

verus! {

/// From Guitar + Body (graph) to Piano + Board (graph).
pub open spec fn showcase_first_view() -> Seq<RecipeView> {
    seq![
        factory::recipe_view(
            "Guitar + Body (graph)"@,
            PatchView::Graph(
                GraphView {
                    components: seq![
                        Comp::Strike,
                        Comp::String(
                            string(
                                0_6480,
                                90_0000,
                                1_1000,
                                Material::Bronze,
                                2_5000,
                                0_6000,
                                0_1200,
                            ),
                        ),
                        body(15_0000, 9_0000, 195_0000, 0_1800),
                        Comp::Mix,
                    ],
                    edges: seq![
                        edge(0, 1, 1_0000),
                        edge(1, 2, 1_0000),
                        edge(1, 3, 1_0000),
                        edge(2, 3, 0_0500),
                    ],
                    output: 3,
                    key_map: Seq::empty(),
                },
            ),
            engine(0_6000, 3_0000, 120_0000),
        ),
        factory::recipe_view(
            "Snare (coupled graph)"@,
            PatchView::Graph(
                GraphView {
                    components: seq![
                        Comp::Strike,
                        Comp::Membrane(
                            membrane(0_1650, 2000_0000, 0_2600, 0_0200, 0_4000, 0_1800, 6_0000, 24),
                        ),
                        Comp::Membrane(
                            membrane(0_1650, 2600_0000, 0_2400, 0_0200, 0_5000, 0_1200, 7_0000, 20),
                        ),
                        wires(0_6000, 1_0000),
                        Comp::Mix,
                    ],
                    edges: seq![
                        edge(0, 1, 1_0000),
                        edge(1, 2, 0_5000),
                        edge(2, 3, 1_0000),
                        edge(3, 2, 0_3000),
                        edge(1, 4, 1_0000),
                        edge(2, 4, 0_5000),
                        edge(3, 4, 0_6000),
                    ],
                    output: 4,
                    key_map: Seq::empty(),
                },
            ),
            engine(0_7000, 1_0000, 200_0000),
        ),
        factory::recipe_view(
            "Acoustic Bass + Body (graph)"@,
            PatchView::Graph(
                GraphView {
                    components: seq![
                        Comp::Strike,
                        Comp::String(
                            string(
                                0_8640,
                                60_0000,
                                1_3000,
                                Material::Nickel,
                                2_0000,
                                0_5000,
                                0_1500,
                            ),
                        ),
                        body(30_0000, 10_0000, 90_0000, 0_2500),
                        Comp::Mix,
                    ],
                    edges: seq![
                        edge(0, 1, 1_0000),
                        edge(1, 2, 1_0000),
                        edge(1, 3, 1_0000),
                        edge(2, 3, 0_0600),
                    ],
                    output: 3,
                    key_map: Seq::empty(),
                },
            ),
            engine(0_7500, 4_0000, 120_0000),
        ),
        factory::recipe_view(
            "Piano + Board (graph)"@,
            PatchView::Graph(
                GraphView {
                    components: seq![
                        Comp::Strike,
                        Comp::String(
                            string(
                                0_6000,
                                700_0000,
                                1_1000,
                                Material::Steel,
                                3_5000,
                                0_3000,
                                0_1200,
                            ),
                        ),
                        body(0_0000, 0_0000, 110_0000, 0_4500),
                        Comp::Mix,
                    ],
                    edges: seq![
                        edge(0, 1, 1_0000),
                        edge(1, 2, 1_0000),
                        edge(1, 3, 1_0000),
                        edge(2, 3, 0_0500),
                    ],
                    output: 3,
                    key_map: Seq::empty(),
                },
            ),
            engine(0_6000, 2_0000, 150_0000),
        ),
    ]
}

fn showcase_first() -> (r: Vec<Recipe>)
    ensures
        factory::recipe_views(r@) == showcase_first_view(),
{
    let r = vec![
        recipe(
            "Guitar + Body (graph)",
            Patch::Graph(
                InstrumentGraph {
                    components: vec![
                        Comp::Strike,
                        Comp::String(
                            string(
                                0_6480,
                                90_0000,
                                1_1000,
                                Material::Bronze,
                                2_5000,
                                0_6000,
                                0_1200,
                            ),
                        ),
                        body(15_0000, 9_0000, 195_0000, 0_1800),
                        Comp::Mix,
                    ],
                    edges: vec![
                        edge(0, 1, 1_0000),
                        edge(1, 2, 1_0000),
                        edge(1, 3, 1_0000),
                        edge(2, 3, 0_0500),
                    ],
                    output: 3,
                    key_map: vec![],
                },
            ),
            engine(0_6000, 3_0000, 120_0000),
        ),
        recipe(
            "Snare (coupled graph)",
            Patch::Graph(
                InstrumentGraph {
                    components: vec![
                        Comp::Strike,
                        Comp::Membrane(
                            membrane(0_1650, 2000_0000, 0_2600, 0_0200, 0_4000, 0_1800, 6_0000, 24),
                        ),
                        Comp::Membrane(
                            membrane(0_1650, 2600_0000, 0_2400, 0_0200, 0_5000, 0_1200, 7_0000, 20),
                        ),
                        wires(0_6000, 1_0000),
                        Comp::Mix,
                    ],
                    edges: vec![
                        edge(0, 1, 1_0000),
                        edge(1, 2, 0_5000),
                        edge(2, 3, 1_0000),
                        edge(3, 2, 0_3000),
                        edge(1, 4, 1_0000),
                        edge(2, 4, 0_5000),
                        edge(3, 4, 0_6000),
                    ],
                    output: 4,
                    key_map: vec![],
                },
            ),
            engine(0_7000, 1_0000, 200_0000),
        ),
        recipe(
            "Acoustic Bass + Body (graph)",
            Patch::Graph(
                InstrumentGraph {
                    components: vec![
                        Comp::Strike,
                        Comp::String(
                            string(
                                0_8640,
                                60_0000,
                                1_3000,
                                Material::Nickel,
                                2_0000,
                                0_5000,
                                0_1500,
                            ),
                        ),
                        body(30_0000, 10_0000, 90_0000, 0_2500),
                        Comp::Mix,
                    ],
                    edges: vec![
                        edge(0, 1, 1_0000),
                        edge(1, 2, 1_0000),
                        edge(1, 3, 1_0000),
                        edge(2, 3, 0_0600),
                    ],
                    output: 3,
                    key_map: vec![],
                },
            ),
            engine(0_7500, 4_0000, 120_0000),
        ),
        recipe(
            "Piano + Board (graph)",
            Patch::Graph(
                InstrumentGraph {
                    components: vec![
                        Comp::Strike,
                        Comp::String(
                            string(
                                0_6000,
                                700_0000,
                                1_1000,
                                Material::Steel,
                                3_5000,
                                0_3000,
                                0_1200,
                            ),
                        ),
                        body(0_0000, 0_0000, 110_0000, 0_4500),
                        Comp::Mix,
                    ],
                    edges: vec![
                        edge(0, 1, 1_0000),
                        edge(1, 2, 1_0000),
                        edge(1, 3, 1_0000),
                        edge(2, 3, 0_0500),
                    ],
                    output: 3,
                    key_map: vec![],
                },
            ),
            engine(0_6000, 2_0000, 150_0000),
        ),
    ];
    assert(factory::recipe_views(r@) =~~= showcase_first_view());
    r
}

proof fn lemma_showcase_first()
    ensures
        factory::all_sound(showcase_first_view()),
{
}

/// From Banjo + Head (graph) to Cowbell (graph).
pub open spec fn showcase_second_view() -> Seq<RecipeView> {
    seq![
        factory::recipe_view(
            "Banjo + Head (graph)"@,
            PatchView::Graph(
                GraphView {
                    components: seq![
                        Comp::Strike,
                        Comp::String(
                            string(
                                0_6700,
                                55_0000,
                                0_4000,
                                Material::Steel,
                                0_8000,
                                1_2000,
                                0_0800,
                            ),
                        ),
                        Comp::Membrane(
                            membrane(0_1400, 3200_0000, 0_2200, 0_0200, 0_5000, 0_1500, 8_0000, 20),
                        ),
                        Comp::Mix,
                    ],
                    edges: seq![
                        edge(0, 1, 1_0000),
                        edge(1, 2, 1_0000),
                        edge(1, 3, 1_0000),
                        edge(2, 3, 0_1200),
                    ],
                    output: 3,
                    key_map: Seq::empty(),
                },
            ),
            engine(0_6000, 2_0000, 80_0000),
        ),
        factory::recipe_view(
            "Nylon + Body (graph)"@,
            PatchView::Graph(
                GraphView {
                    components: seq![
                        Comp::Strike,
                        Comp::MusicalString(musical(0_1400, 0_0004, 1_6000, 1_4000, 32)),
                        body(17_0000, 8_5000, 190_0000, 0_2000),
                        Comp::Mix,
                    ],
                    edges: seq![
                        edge(0, 1, 1_0000),
                        edge(1, 2, 1_0000),
                        edge(1, 3, 1_0000),
                        edge(2, 3, 0_0600),
                    ],
                    output: 3,
                    key_map: Seq::empty(),
                },
            ),
            engine(0_6000, 3_0000, 130_0000),
        ),
        factory::recipe_view(
            "Tom + Shell (graph)"@,
            PatchView::Graph(
                GraphView {
                    components: seq![
                        Comp::Strike,
                        Comp::Membrane(
                            membrane(0_1650, 1500_0000, 0_2600, 0_0000, 0_5000, 0_4000, 4_0000, 32),
                        ),
                        body(6_0000, 12_0000, 90_0000, 0_1000),
                        Comp::Mix,
                    ],
                    edges: seq![
                        edge(0, 1, 1_0000),
                        edge(1, 2, 1_0000),
                        edge(1, 3, 1_0000),
                        edge(2, 3, 0_0800),
                    ],
                    output: 3,
                    key_map: Seq::empty(),
                },
            ),
            engine(0_7000, 1_0000, 90_0000),
        ),
        factory::recipe_view(
            "Cowbell (graph)"@,
            PatchView::Graph(
                GraphView {
                    components: seq![
                        Comp::Strike,
                        Comp::Bell(bell(3, 0_4800, 0_0600, 0_4000, 0_3500, 0_3000)),
                        Comp::Mix,
                    ],
                    edges: seq![
                        edge(0, 1, 1_0000),
                        edge(1, 2, 1_0000),
                    ],
                    output: 2,
                    key_map: Seq::empty(),
                },
            ),
            engine(0_6000, 1_0000, 40_0000),
        ),
    ]
}

fn showcase_second() -> (r: Vec<Recipe>)
    ensures
        factory::recipe_views(r@) == showcase_second_view(),
{
    let r = vec![
        recipe(
            "Banjo + Head (graph)",
            Patch::Graph(
                InstrumentGraph {
                    components: vec![
                        Comp::Strike,
                        Comp::String(
                            string(
                                0_6700,
                                55_0000,
                                0_4000,
                                Material::Steel,
                                0_8000,
                                1_2000,
                                0_0800,
                            ),
                        ),
                        Comp::Membrane(
                            membrane(0_1400, 3200_0000, 0_2200, 0_0200, 0_5000, 0_1500, 8_0000, 20),
                        ),
                        Comp::Mix,
                    ],
                    edges: vec![
                        edge(0, 1, 1_0000),
                        edge(1, 2, 1_0000),
                        edge(1, 3, 1_0000),
                        edge(2, 3, 0_1200),
                    ],
                    output: 3,
                    key_map: vec![],
                },
            ),
            engine(0_6000, 2_0000, 80_0000),
        ),
        recipe(
            "Nylon + Body (graph)",
            Patch::Graph(
                InstrumentGraph {
                    components: vec![
                        Comp::Strike,
                        Comp::MusicalString(musical(0_1400, 0_0004, 1_6000, 1_4000, 32)),
                        body(17_0000, 8_5000, 190_0000, 0_2000),
                        Comp::Mix,
                    ],
                    edges: vec![
                        edge(0, 1, 1_0000),
                        edge(1, 2, 1_0000),
                        edge(1, 3, 1_0000),
                        edge(2, 3, 0_0600),
                    ],
                    output: 3,
                    key_map: vec![],
                },
            ),
            engine(0_6000, 3_0000, 130_0000),
        ),
        recipe(
            "Tom + Shell (graph)",
            Patch::Graph(
                InstrumentGraph {
                    components: vec![
                        Comp::Strike,
                        Comp::Membrane(
                            membrane(0_1650, 1500_0000, 0_2600, 0_0000, 0_5000, 0_4000, 4_0000, 32),
                        ),
                        body(6_0000, 12_0000, 90_0000, 0_1000),
                        Comp::Mix,
                    ],
                    edges: vec![
                        edge(0, 1, 1_0000),
                        edge(1, 2, 1_0000),
                        edge(1, 3, 1_0000),
                        edge(2, 3, 0_0800),
                    ],
                    output: 3,
                    key_map: vec![],
                },
            ),
            engine(0_7000, 1_0000, 90_0000),
        ),
        recipe(
            "Cowbell (graph)",
            Patch::Graph(
                InstrumentGraph {
                    components: vec![
                        Comp::Strike,
                        Comp::Bell(bell(3, 0_4800, 0_0600, 0_4000, 0_3500, 0_3000)),
                        Comp::Mix,
                    ],
                    edges: vec![
                        edge(0, 1, 1_0000),
                        edge(1, 2, 1_0000),
                    ],
                    output: 2,
                    key_map: vec![],
                },
            ),
            engine(0_6000, 1_0000, 40_0000),
        ),
    ];
    assert(factory::recipe_views(r@) =~~= showcase_second_view());
    r
}

proof fn lemma_showcase_second()
    ensures
        factory::all_sound(showcase_second_view()),
{
}

/// From Crash (graph) to Crash (graph).
pub open spec fn showcase_third_view() -> Seq<RecipeView> {
    seq![
        factory::recipe_view(
            "Crash (graph)"@,
            PatchView::Graph(
                GraphView {
                    components: seq![
                        Comp::Strike,
                        Comp::Cymbal(cymbal(17_0000, 9_0000, 1_0000, 0_5000, 0_8000, 160, 0_4000)),
                        Comp::Mix,
                    ],
                    edges: seq![
                        edge(0, 1, 1_0000),
                        edge(1, 2, 1_0000),
                    ],
                    output: 2,
                    key_map: Seq::empty(),
                },
            ),
            engine(0_5000, 1_0000, 300_0000),
        ),
    ]
}

fn showcase_third() -> (r: Vec<Recipe>)
    ensures
        factory::recipe_views(r@) == showcase_third_view(),
{
    let r = vec![
        recipe(
            "Crash (graph)",
            Patch::Graph(
                InstrumentGraph {
                    components: vec![
                        Comp::Strike,
                        Comp::Cymbal(cymbal(17_0000, 9_0000, 1_0000, 0_5000, 0_8000, 160, 0_4000)),
                        Comp::Mix,
                    ],
                    edges: vec![
                        edge(0, 1, 1_0000),
                        edge(1, 2, 1_0000),
                    ],
                    output: 2,
                    key_map: vec![],
                },
            ),
            engine(0_5000, 1_0000, 300_0000),
        ),
    ];
    assert(factory::recipe_views(r@) =~~= showcase_third_view());
    r
}

proof fn lemma_showcase_third()
    ensures
        factory::all_sound(showcase_third_view()),
{
}

/// Instruments built purely as graphs of exciters and resonators.
pub open spec fn showcase_view() -> Seq<RecipeView> {
    showcase_first_view() + showcase_second_view() + showcase_third_view()
}

/// Instruments built purely as graphs of exciters and resonators.
pub fn showcase_recipes() -> (r: Vec<Recipe>)
    ensures
        factory::recipe_views(r@) == showcase_view(),
{
    let mut r = showcase_first();
    join(&mut r, showcase_second());
    join(&mut r, showcase_third());
    r
}

/// The graphs of this section are wired properly.
pub proof fn showcase_is_sound()
    ensures
        factory::all_sound(showcase_view()),
{
    lemma_showcase_first();
    lemma_showcase_second();
    lemma_showcase_third();
}

} // verus!
