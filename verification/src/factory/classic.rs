//! Single models: strings, drums, metal and reference oscillators.

use crate::factory;
use crate::factory::{join, recipe, Patch, PatchView, Recipe, RecipeView};
use crate::factory::parts::{bell, cymbal, engine, membrane, musical, plate, snare, wave};
use crate::models::basic_wave::Waveform;
use vstd::prelude::*;

verus! {

/// From Soft Nylon to Crash Cymbal.
pub open spec fn classic_first_view() -> Seq<RecipeView> {
    seq![
        factory::recipe_view(
            "Soft Nylon"@,
            PatchView::MusicalString(musical(0_1400, 0_0004, 1_6000, 1_4000, 32)),
            engine(0_6000, 3_0000, 130_0000),
        ),
        factory::recipe_view(
            "Glass Pluck"@,
            PatchView::MusicalString(musical(0_1000, 0_0018, 2_4000, 0_7000, 44)),
            engine(0_6000, 3_0000, 160_0000),
        ),
        factory::recipe_view(
            "Tom"@,
            PatchView::DrumMembrane(
                membrane(0_1650, 1500_0000, 0_2600, 0_0000, 0_5000, 0_4000, 4_0000, 32),
            ),
            engine(0_7000, 1_0000, 90_0000),
        ),
        factory::recipe_view(
            "Kick"@,
            PatchView::DrumMembrane(
                membrane(0_2800, 800_0000, 0_4200, 0_0000, 0_3500, 0_1800, 5_0000, 24),
            ),
            engine(0_8500, 1_0000, 60_0000),
        ),
        factory::recipe_view(
            "Timpani"@,
            PatchView::DrumMembrane(
                membrane(0_3200, 2500_0000, 0_3000, 0_0000, 0_2500, 1_4000, 1_5000, 48),
            ),
            engine(0_6000, 2_0000, 200_0000),
        ),
        factory::recipe_view(
            "Cowbell"@,
            PatchView::MetalBell(bell(3, 0_4800, 0_0600, 0_4000, 0_3500, 0_3000)),
            engine(0_6000, 1_0000, 40_0000),
        ),
        factory::recipe_view(
            "Snare"@,
            PatchView::Snare(snare(750_0000, 14_0000, 0_4000, 24, 0_7000, 16_0000, 0_6500)),
            engine(0_7000, 1_0000, 50_0000),
        ),
        factory::recipe_view(
            "Crash Cymbal"@,
            PatchView::Cymbal(cymbal(17_0000, 9_0000, 1_0000, 0_5000, 0_8000, 160, 0_4000)),
            engine(0_5000, 1_0000, 300_0000),
        ),
    ]
}

fn classic_first() -> (r: Vec<Recipe>)
    ensures
        factory::recipe_views(r@) == classic_first_view(),
{
    let r = vec![
        recipe(
            "Soft Nylon",
            Patch::MusicalString(musical(0_1400, 0_0004, 1_6000, 1_4000, 32)),
            engine(0_6000, 3_0000, 130_0000),
        ),
        recipe(
            "Glass Pluck",
            Patch::MusicalString(musical(0_1000, 0_0018, 2_4000, 0_7000, 44)),
            engine(0_6000, 3_0000, 160_0000),
        ),
        recipe(
            "Tom",
            Patch::DrumMembrane(
                membrane(0_1650, 1500_0000, 0_2600, 0_0000, 0_5000, 0_4000, 4_0000, 32),
            ),
            engine(0_7000, 1_0000, 90_0000),
        ),
        recipe(
            "Kick",
            Patch::DrumMembrane(
                membrane(0_2800, 800_0000, 0_4200, 0_0000, 0_3500, 0_1800, 5_0000, 24),
            ),
            engine(0_8500, 1_0000, 60_0000),
        ),
        recipe(
            "Timpani",
            Patch::DrumMembrane(
                membrane(0_3200, 2500_0000, 0_3000, 0_0000, 0_2500, 1_4000, 1_5000, 48),
            ),
            engine(0_6000, 2_0000, 200_0000),
        ),
        recipe(
            "Cowbell",
            Patch::MetalBell(bell(3, 0_4800, 0_0600, 0_4000, 0_3500, 0_3000)),
            engine(0_6000, 1_0000, 40_0000),
        ),
        recipe(
            "Snare",
            Patch::Snare(snare(750_0000, 14_0000, 0_4000, 24, 0_7000, 16_0000, 0_6500)),
            engine(0_7000, 1_0000, 50_0000),
        ),
        recipe(
            "Crash Cymbal",
            Patch::Cymbal(cymbal(17_0000, 9_0000, 1_0000, 0_5000, 0_8000, 160, 0_4000)),
            engine(0_5000, 1_0000, 300_0000),
        ),
    ];
    assert(factory::recipe_views(r@) =~~= classic_first_view());
    r
}

proof fn lemma_classic_first()
    ensures
        factory::all_sound(classic_first_view()),
{
}

/// From Ride Cymbal to Saw Lead.
pub open spec fn classic_second_view() -> Seq<RecipeView> {
    seq![
        factory::recipe_view(
            "Ride Cymbal"@,
            PatchView::Cymbal(cymbal(15_0000, 7_0000, 2_2000, 0_2500, 0_3500, 100, 0_1500)),
            engine(0_5500, 1_0000, 200_0000),
        ),
        factory::recipe_view(
            "Pure Plate"@,
            PatchView::PurePlate(plate(0_3300, 4_0000, 0_5000, 0_7500, 90)),
            engine(0_5000, 1_0000, 250_0000),
        ),
        factory::recipe_view(
            "Plate Gong"@,
            PatchView::PurePlate(plate(0_3000, 8_0000, 0_2000, 0_4500, 120)),
            engine(0_5000, 1_0000, 400_0000),
        ),
        factory::recipe_view(
            "Triangle Lead"@,
            PatchView::BasicWave(wave(Waveform::Triangle, 16, 1_5000)),
            engine(0_5000, 3_0000, 120_0000),
        ),
        factory::recipe_view(
            "Saw Lead"@,
            PatchView::BasicWave(wave(Waveform::Saw, 40, 1_2000)),
            engine(0_4500, 3_0000, 120_0000),
        ),
    ]
}

fn classic_second() -> (r: Vec<Recipe>)
    ensures
        factory::recipe_views(r@) == classic_second_view(),
{
    let r = vec![
        recipe(
            "Ride Cymbal",
            Patch::Cymbal(cymbal(15_0000, 7_0000, 2_2000, 0_2500, 0_3500, 100, 0_1500)),
            engine(0_5500, 1_0000, 200_0000),
        ),
        recipe(
            "Pure Plate",
            Patch::PurePlate(plate(0_3300, 4_0000, 0_5000, 0_7500, 90)),
            engine(0_5000, 1_0000, 250_0000),
        ),
        recipe(
            "Plate Gong",
            Patch::PurePlate(plate(0_3000, 8_0000, 0_2000, 0_4500, 120)),
            engine(0_5000, 1_0000, 400_0000),
        ),
        recipe(
            "Triangle Lead",
            Patch::BasicWave(wave(Waveform::Triangle, 16, 1_5000)),
            engine(0_5000, 3_0000, 120_0000),
        ),
        recipe(
            "Saw Lead",
            Patch::BasicWave(wave(Waveform::Saw, 40, 1_2000)),
            engine(0_4500, 3_0000, 120_0000),
        ),
    ];
    assert(factory::recipe_views(r@) =~~= classic_second_view());
    r
}

proof fn lemma_classic_second()
    ensures
        factory::all_sound(classic_second_view()),
{
}

/// Single models: strings, drums, metal and reference oscillators.
pub open spec fn classic_view() -> Seq<RecipeView> {
    classic_first_view() + classic_second_view()
}

/// Single models: strings, drums, metal and reference oscillators.
pub fn classic_recipes() -> (r: Vec<Recipe>)
    ensures
        factory::recipe_views(r@) == classic_view(),
{
    let mut r = classic_first();
    join(&mut r, classic_second());
    r
}

/// The graphs of this section are wired properly.
pub proof fn classic_is_sound()
    ensures
        factory::all_sound(classic_view()),
{
    lemma_classic_first();
    lemma_classic_second();
}

} // verus!
