//! The base set: a voice, drums and metal.

use crate::factory;
use crate::factory::{join, recipe, Patch, PatchView, Recipe, RecipeView};
use crate::factory::parts::{
    bell, body, cymbal, edge, engine, hammer, membrane, plate, vocal_tract, voice, wires,
};
use crate::models::comp::Comp;
use crate::models::instrument_graph::{GraphView, InstrumentGraph};
use vstd::prelude::*;

verus! {

/// From Base: Vocal Synth to Base: Timpani.
pub open spec fn percussion_first_view() -> Seq<RecipeView> {
    seq![
        factory::recipe_view(
            "Base: Vocal Synth"@,
            PatchView::Graph(
                GraphView {
                    components: seq![
                        voice(0_6500, 0_1500),
                        Comp::Horn(vocal_tract()),
                        Comp::Mix,
                    ],
                    edges: seq![
                        edge(0, 1, 1_0000),
                        edge(1, 2, 1_0000),
                    ],
                    output: 2,
                    key_map: Seq::empty(),
                },
            ),
            engine(0_5000, 30_0000, 200_0000),
        ),
        factory::recipe_view(
            "Base: Kick"@,
            PatchView::Graph(
                GraphView {
                    components: seq![
                        hammer(0_2000, 3_2000),
                        Comp::Membrane(
                            membrane(0_2800, 800_0000, 0_4200, 0_0000, 0_3500, 0_1800, 5_0000, 24),
                        ),
                        body(140_0000, 12_0000, 52_0000, 0_1800),
                        Comp::Mix,
                    ],
                    edges: seq![
                        edge(0, 1, 1_0000),
                        edge(1, 3, 1_0000),
                        edge(1, 2, 1_0000),
                        edge(2, 3, 0_4000),
                        edge(1, 0, 0_2000),
                    ],
                    output: 3,
                    key_map: Seq::empty(),
                },
            ),
            engine(0_8500, 1_0000, 80_0000),
        ),
        factory::recipe_view(
            "Base: Tom"@,
            PatchView::Graph(
                GraphView {
                    components: seq![
                        Comp::Strike,
                        Comp::Membrane(
                            membrane(0_1650, 1500_0000, 0_2600, 0_0000, 0_5000, 0_4000, 4_0000, 32),
                        ),
                        body(22_0000, 0_0000, 110_0000, 0_3500),
                        Comp::Mix,
                    ],
                    edges: seq![
                        edge(0, 1, 1_0000),
                        edge(1, 3, 1_0000),
                        edge(1, 2, 1_0000),
                        edge(2, 3, 0_3000),
                    ],
                    output: 3,
                    key_map: Seq::empty(),
                },
            ),
            engine(0_7000, 1_0000, 120_0000),
        ),
        factory::recipe_view(
            "Base: Timpani"@,
            PatchView::Graph(
                GraphView {
                    components: seq![
                        hammer(0_2500, 2_8000),
                        Comp::Membrane(
                            membrane(0_3200, 2500_0000, 0_3000, 0_0000, 0_2500, 1_4000, 1_5000, 48),
                        ),
                        body(240_0000, 0_0000, 98_0000, 1_4000),
                        Comp::Mix,
                    ],
                    edges: seq![
                        edge(0, 1, 1_0000),
                        edge(1, 3, 1_0000),
                        edge(1, 2, 1_0000),
                        edge(2, 3, 0_4000),
                    ],
                    output: 3,
                    key_map: Seq::empty(),
                },
            ),
            engine(0_6000, 2_0000, 250_0000),
        ),
    ]
}

fn percussion_first() -> (r: Vec<Recipe>)
    ensures
        factory::recipe_views(r@) == percussion_first_view(),
{
    let r = vec![
        recipe(
            "Base: Vocal Synth",
            Patch::Graph(
                InstrumentGraph {
                    components: vec![
                        voice(0_6500, 0_1500),
                        Comp::Horn(vocal_tract()),
                        Comp::Mix,
                    ],
                    edges: vec![
                        edge(0, 1, 1_0000),
                        edge(1, 2, 1_0000),
                    ],
                    output: 2,
                    key_map: vec![],
                },
            ),
            engine(0_5000, 30_0000, 200_0000),
        ),
        recipe(
            "Base: Kick",
            Patch::Graph(
                InstrumentGraph {
                    components: vec![
                        hammer(0_2000, 3_2000),
                        Comp::Membrane(
                            membrane(0_2800, 800_0000, 0_4200, 0_0000, 0_3500, 0_1800, 5_0000, 24),
                        ),
                        body(140_0000, 12_0000, 52_0000, 0_1800),
                        Comp::Mix,
                    ],
                    edges: vec![
                        edge(0, 1, 1_0000),
                        edge(1, 3, 1_0000),
                        edge(1, 2, 1_0000),
                        edge(2, 3, 0_4000),
                        edge(1, 0, 0_2000),
                    ],
                    output: 3,
                    key_map: vec![],
                },
            ),
            engine(0_8500, 1_0000, 80_0000),
        ),
        recipe(
            "Base: Tom",
            Patch::Graph(
                InstrumentGraph {
                    components: vec![
                        Comp::Strike,
                        Comp::Membrane(
                            membrane(0_1650, 1500_0000, 0_2600, 0_0000, 0_5000, 0_4000, 4_0000, 32),
                        ),
                        body(22_0000, 0_0000, 110_0000, 0_3500),
                        Comp::Mix,
                    ],
                    edges: vec![
                        edge(0, 1, 1_0000),
                        edge(1, 3, 1_0000),
                        edge(1, 2, 1_0000),
                        edge(2, 3, 0_3000),
                    ],
                    output: 3,
                    key_map: vec![],
                },
            ),
            engine(0_7000, 1_0000, 120_0000),
        ),
        recipe(
            "Base: Timpani",
            Patch::Graph(
                InstrumentGraph {
                    components: vec![
                        hammer(0_2500, 2_8000),
                        Comp::Membrane(
                            membrane(0_3200, 2500_0000, 0_3000, 0_0000, 0_2500, 1_4000, 1_5000, 48),
                        ),
                        body(240_0000, 0_0000, 98_0000, 1_4000),
                        Comp::Mix,
                    ],
                    edges: vec![
                        edge(0, 1, 1_0000),
                        edge(1, 3, 1_0000),
                        edge(1, 2, 1_0000),
                        edge(2, 3, 0_4000),
                    ],
                    output: 3,
                    key_map: vec![],
                },
            ),
            engine(0_6000, 2_0000, 250_0000),
        ),
    ];
    assert(factory::recipe_views(r@) =~~= percussion_first_view());
    r
}

proof fn lemma_percussion_first()
    ensures
        factory::all_sound(percussion_first_view()),
{
}

/// From Base: Snare to Base: Ride Cymbal.
pub open spec fn percussion_second_view() -> Seq<RecipeView> {
    seq![
        factory::recipe_view(
            "Base: Snare"@,
            PatchView::Graph(
                GraphView {
                    components: seq![
                        Comp::Strike,
                        Comp::Membrane(
                            membrane(0_1650, 2000_0000, 0_2600, 0_0200, 0_3000, 0_1800, 6_0000, 24),
                        ),
                        body(6_0000, 0_0000, 180_0000, 0_0800),
                        Comp::Membrane(
                            membrane(0_1650, 2600_0000, 0_2400, 0_0200, 0_5000, 0_1200, 7_0000, 20),
                        ),
                        wires(0_8500, 1_2000),
                        Comp::Mix,
                    ],
                    edges: seq![
                        edge(0, 1, 1_0000),
                        edge(1, 2, 1_0000),
                        edge(2, 3, 1_0000),
                        edge(3, 4, 1_0000),
                        edge(4, 3, 0_4000),
                        edge(1, 5, 0_8000),
                        edge(3, 5, 0_5000),
                        edge(4, 5, 0_7000),
                    ],
                    output: 5,
                    key_map: Seq::empty(),
                },
            ),
            engine(0_7000, 1_0000, 120_0000),
        ),
        factory::recipe_view(
            "Base: Cowbell"@,
            PatchView::Graph(
                GraphView {
                    components: seq![
                        Comp::Strike,
                        Comp::Bell(bell(12, 1_4200, 0_1800, 0_8500, 0_4500, 0_3000)),
                        Comp::Mix,
                    ],
                    edges: seq![
                        edge(0, 1, 1_0000),
                        edge(1, 2, 1_0000),
                    ],
                    output: 2,
                    key_map: Seq::empty(),
                },
            ),
            engine(0_6000, 1_0000, 60_0000),
        ),
        factory::recipe_view(
            "Base: Crash Cymbal"@,
            PatchView::Graph(
                GraphView {
                    components: seq![
                        Comp::Strike,
                        Comp::Cymbal(cymbal(17_0000, 9_0000, 1_0000, 0_5000, 0_8000, 160, 0_4000)),
                        Comp::Mix,
                    ],
                    edges: seq![
                        edge(0, 1, 1_0000),
                        edge(1, 2, 1_0000),
                    ],
                    output: 2,
                    key_map: Seq::empty(),
                },
            ),
            engine(0_5000, 1_0000, 400_0000),
        ),
        factory::recipe_view(
            "Base: Ride Cymbal"@,
            PatchView::Graph(
                GraphView {
                    components: seq![
                        Comp::Strike,
                        Comp::Cymbal(cymbal(15_0000, 7_0000, 2_2000, 0_2500, 0_3500, 100, 0_1500)),
                        Comp::Mix,
                    ],
                    edges: seq![
                        edge(0, 1, 1_0000),
                        edge(1, 2, 1_0000),
                    ],
                    output: 2,
                    key_map: Seq::empty(),
                },
            ),
            engine(0_5500, 1_0000, 300_0000),
        ),
    ]
}

fn percussion_second() -> (r: Vec<Recipe>)
    ensures
        factory::recipe_views(r@) == percussion_second_view(),
{
    let r = vec![
        recipe(
            "Base: Snare",
            Patch::Graph(
                InstrumentGraph {
                    components: vec![
                        Comp::Strike,
                        Comp::Membrane(
                            membrane(0_1650, 2000_0000, 0_2600, 0_0200, 0_3000, 0_1800, 6_0000, 24),
                        ),
                        body(6_0000, 0_0000, 180_0000, 0_0800),
                        Comp::Membrane(
                            membrane(0_1650, 2600_0000, 0_2400, 0_0200, 0_5000, 0_1200, 7_0000, 20),
                        ),
                        wires(0_8500, 1_2000),
                        Comp::Mix,
                    ],
                    edges: vec![
                        edge(0, 1, 1_0000),
                        edge(1, 2, 1_0000),
                        edge(2, 3, 1_0000),
                        edge(3, 4, 1_0000),
                        edge(4, 3, 0_4000),
                        edge(1, 5, 0_8000),
                        edge(3, 5, 0_5000),
                        edge(4, 5, 0_7000),
                    ],
                    output: 5,
                    key_map: vec![],
                },
            ),
            engine(0_7000, 1_0000, 120_0000),
        ),
        recipe(
            "Base: Cowbell",
            Patch::Graph(
                InstrumentGraph {
                    components: vec![
                        Comp::Strike,
                        Comp::Bell(bell(12, 1_4200, 0_1800, 0_8500, 0_4500, 0_3000)),
                        Comp::Mix,
                    ],
                    edges: vec![
                        edge(0, 1, 1_0000),
                        edge(1, 2, 1_0000),
                    ],
                    output: 2,
                    key_map: vec![],
                },
            ),
            engine(0_6000, 1_0000, 60_0000),
        ),
        recipe(
            "Base: Crash Cymbal",
            Patch::Graph(
                InstrumentGraph {
                    components: vec![
                        Comp::Strike,
                        Comp::Cymbal(cymbal(17_0000, 9_0000, 1_0000, 0_5000, 0_8000, 160, 0_4000)),
                        Comp::Mix,
                    ],
                    edges: vec![
                        edge(0, 1, 1_0000),
                        edge(1, 2, 1_0000),
                    ],
                    output: 2,
                    key_map: vec![],
                },
            ),
            engine(0_5000, 1_0000, 400_0000),
        ),
        recipe(
            "Base: Ride Cymbal",
            Patch::Graph(
                InstrumentGraph {
                    components: vec![
                        Comp::Strike,
                        Comp::Cymbal(cymbal(15_0000, 7_0000, 2_2000, 0_2500, 0_3500, 100, 0_1500)),
                        Comp::Mix,
                    ],
                    edges: vec![
                        edge(0, 1, 1_0000),
                        edge(1, 2, 1_0000),
                    ],
                    output: 2,
                    key_map: vec![],
                },
            ),
            engine(0_5500, 1_0000, 300_0000),
        ),
    ];
    assert(factory::recipe_views(r@) =~~= percussion_second_view());
    r
}

proof fn lemma_percussion_second()
    ensures
        factory::all_sound(percussion_second_view()),
{
}

/// From Base: Gong to Base: Gong.
pub open spec fn percussion_third_view() -> Seq<RecipeView> {
    seq![
        factory::recipe_view(
            "Base: Gong"@,
            PatchView::Graph(
                GraphView {
                    components: seq![
                        hammer(0_1500, 2_4000),
                        Comp::Plate(plate(0_3400, 6_5000, 1_8000, 0_5000, 70)),
                        Comp::Mix,
                    ],
                    edges: seq![
                        edge(0, 1, 1_0000),
                        edge(1, 2, 1_0000),
                    ],
                    output: 2,
                    key_map: Seq::empty(),
                },
            ),
            engine(0_5000, 1_0000, 500_0000),
        ),
    ]
}

fn percussion_third() -> (r: Vec<Recipe>)
    ensures
        factory::recipe_views(r@) == percussion_third_view(),
{
    let r = vec![
        recipe(
            "Base: Gong",
            Patch::Graph(
                InstrumentGraph {
                    components: vec![
                        hammer(0_1500, 2_4000),
                        Comp::Plate(plate(0_3400, 6_5000, 1_8000, 0_5000, 70)),
                        Comp::Mix,
                    ],
                    edges: vec![
                        edge(0, 1, 1_0000),
                        edge(1, 2, 1_0000),
                    ],
                    output: 2,
                    key_map: vec![],
                },
            ),
            engine(0_5000, 1_0000, 500_0000),
        ),
    ];
    assert(factory::recipe_views(r@) =~~= percussion_third_view());
    r
}

proof fn lemma_percussion_third()
    ensures
        factory::all_sound(percussion_third_view()),
{
}

/// The base set: a voice, drums and metal.
pub open spec fn percussion_view() -> Seq<RecipeView> {
    percussion_first_view() + percussion_second_view() + percussion_third_view()
}

/// The base set: a voice, drums and metal.
pub fn percussion_recipes() -> (r: Vec<Recipe>)
    ensures
        factory::recipe_views(r@) == percussion_view(),
{
    let mut r = percussion_first();
    join(&mut r, percussion_second());
    join(&mut r, percussion_third());
    r
}

/// The graphs of this section are wired properly.
pub proof fn percussion_is_sound()
    ensures
        factory::all_sound(percussion_view()),
{
    lemma_percussion_first();
    lemma_percussion_second();
    lemma_percussion_third();
}

} // verus!
