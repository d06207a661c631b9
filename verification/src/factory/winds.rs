//! The winds. Each is built alike: a quiet exciter (the buzz of a reed or lip, or an air
//! jet) drives an air column that carries most of the sound, and a cavity voices it.

use crate::decimal;
use crate::decimal::{decimal, half_wave, minus};
use crate::factory;
use crate::factory::parts;
use crate::factory::parts::{body, brass_horn, edge, engine, wood_horn};
use crate::factory::{join, recipe, Patch, PatchView, Recipe, RecipeView};
use crate::models::comp::Comp;
use crate::models::instrument_graph::{GraphView, InstrumentGraph};
use crate::models::key_map::{KeyBinding, KeyBindingView, KeyMapKind, KeyMapView};
use crate::models::webster_horn::WebsterHorn;
use crate::single::{Single, ZERO};
use vstd::prelude::*;

verus! {

/// Tuning tables, as values.
pub open spec fn table_views(tables: Seq<Vec<Single>>) -> Seq<Seq<Single>> {
    tables.map_values(|t: Vec<Single>| t@)
}

/// Table `i`; an empty one where there is none.
pub open spec fn table_at(tables: Seq<Seq<Single>>, i: int) -> Seq<Single> {
    if 0 <= i < tables.len() {
        tables[i]
    } else {
        Seq::empty()
    }
}

fn copy_table(tables: &Vec<Vec<Single>>, i: usize) -> (r: Vec<Single>)
    ensures
        r@ == table_at(table_views(tables@), i as int),
{
    if i < tables.len() {
        let r = tables[i].clone();
        assert(r@ =~= tables@[i as int]@);
        r
    } else {
        Vec::new()
    }
}

/// An exciter and an air column, wired up as a wind: the exciter is heard quietly, drives
/// the column and the oral cavity, and both are heard. The cavity follows the key.
#[verifier::opaque]
pub open spec fn wind_graph_view(
    exciter: Comp,
    horn: WebsterHorn,
    exciter_map: KeyMapView,
    horn_map: KeyMapView,
    drive: u32,
    res_gain: u32,
) -> GraphView {
    GraphView {
        components: seq![
            exciter,
            Comp::Horn(horn),
            body(0_1000, 3_0000, 261_6300, 0_0300),
            Comp::Mix,
        ],
        edges: seq![
            edge(0, 3, 0_1500),
            edge(0, 1, drive),
            edge(1, 3, res_gain),
            edge(0, 2, 0_6000),
            edge(2, 3, 0_4500),
        ],
        output: 3,
        key_map: seq![
            KeyBindingView { component: 0, map: exciter_map },
            KeyBindingView { component: 1, map: horn_map },
            parts::power_view(2, "top_hz"@, decimal(1_0000)),
        ],
    }
}

/// An exciter and an air column, wired up as a wind.
pub fn wind_graph(
    exciter: Comp,
    horn: WebsterHorn,
    exciter_map: KeyMapKind,
    horn_map: KeyMapKind,
    drive: u32,
    res_gain: u32,
) -> (r: InstrumentGraph)
    ensures
        r@ == wind_graph_view(exciter, horn, exciter_map@, horn_map@, drive, res_gain),
{
    proof {
        reveal(wind_graph_view);
    }
    let r = InstrumentGraph {
        components: vec![
            exciter,
            Comp::Horn(horn),
            body(0_1000, 3_0000, 261_6300, 0_0300),
            Comp::Mix,
        ],
        edges: vec![
            edge(0, 3, 0_1500),
            edge(0, 1, drive),
            edge(1, 3, res_gain),
            edge(0, 2, 0_6000),
            edge(2, 3, 0_4500),
        ],
        output: 3,
        key_map: vec![
            KeyBinding { component: 0, map: exciter_map },
            KeyBinding { component: 1, map: horn_map },
            parts::power(2, "top_hz", decimal(1_0000)),
        ],
    };
    assert(r@ =~= wind_graph_view(exciter, horn, exciter_map@, horn_map@, drive, res_gain));
    r
}

/// The length that halves as the pitch doubles.
pub open spec fn by_length_view() -> KeyMapView {
    KeyMapView::Power { param: "length"@, amount: minus(1_0000) }
}

fn by_length() -> (r: KeyMapKind)
    ensures
        r@ == by_length_view(),
{
    KeyMapKind::Power { param: "length".to_owned(), amount: minus(1_0000) }
}

/// A single reed on a cylinder (clarinets) or a cone (saxophones), tuned by a table.
pub open spec fn reed_wind_view(
    name: Seq<char>,
    anchor: u32,
    conical: bool,
    overblow: u32,
    pressure: u32,
    stiffness: u32,
    tone: u32,
    table: Seq<Single>,
) -> RecipeView {
    factory::recipe_view(
        name,
        PatchView::Graph(
            wind_graph_view(
                Comp::ReedBore {
                    pressure: decimal(pressure),
                    stiffness: decimal(stiffness),
                    length: half_wave(decimal(anchor)),
                    tone: decimal(tone),
                    register: Single { bits: ZERO },
                    overblow: decimal(overblow),
                    conical,
                    tract_gain: Single { bits: ZERO },
                    tract_q: Single { bits: ZERO },
                },
                wood_horn(conical),
                KeyMapView::OverblowTuned {
                    anchor_hz: decimal(anchor),
                    steps: Single { bits: ZERO },
                    table,
                },
                by_length_view(),
                0_4000,
                if conical {
                    0_9000
                } else {
                    0_2000
                },
            ),
        ),
        engine(1_1000, 25_0000, 90_0000),
    )
}

fn reed_wind(
    name: &str,
    anchor: u32,
    conical: bool,
    overblow: u32,
    pressure: u32,
    stiffness: u32,
    tone: u32,
    table: Vec<Single>,
) -> (r: Recipe)
    requires
        1_0000 <= anchor < 4_096_0000,
    ensures
        r@ == reed_wind_view(name@, anchor, conical, overblow, pressure, stiffness, tone, table@),
{
    proof {
        decimal::decimals_are_moderate(anchor);
    }
    let reed = Comp::ReedBore {
        pressure: decimal(pressure),
        stiffness: decimal(stiffness),
        length: half_wave(decimal(anchor)),
        tone: decimal(tone),
        register: Single { bits: ZERO },
        overblow: decimal(overblow),
        conical,
        tract_gain: Single { bits: ZERO },
        tract_q: Single { bits: ZERO },
    };
    let res_gain: u32 = if conical {
        0_9000
    } else {
        0_2000
    };
    let map = KeyMapKind::OverblowTuned {
        anchor_hz: decimal(anchor),
        steps: Single { bits: ZERO },
        table,
    };
    let g = wind_graph(reed, wood_horn(conical), map, by_length(), 0_4000, res_gain);
    recipe(name, Patch::Graph(g), engine(1_1000, 25_0000, 90_0000))
}

/// A double reed on a cone.
pub open spec fn double_reed_wind_view(
    name: Seq<char>,
    pressure: u32,
    stiffness: u32,
    tone: u32,
) -> RecipeView {
    factory::recipe_view(
        name,
        PatchView::Graph(
            wind_graph_view(
                Comp::DoubleReed {
                    pressure: decimal(pressure),
                    stiffness: decimal(stiffness),
                    length: decimal(0_6555),
                    tone: decimal(tone),
                    register: Single { bits: ZERO },
                    overblow: decimal(2_0000),
                    conical: true,
                    tract_gain: Single { bits: ZERO },
                    tract_q: Single { bits: ZERO },
                },
                wood_horn(true),
                by_length_view(),
                by_length_view(),
                0_4000,
                0_3500,
            ),
        ),
        engine(1_0000, 25_0000, 90_0000),
    )
}

fn double_reed_wind(name: &str, pressure: u32, stiffness: u32, tone: u32) -> (r: Recipe)
    ensures
        r@ == double_reed_wind_view(name@, pressure, stiffness, tone),
{
    let reed = Comp::DoubleReed {
        pressure: decimal(pressure),
        stiffness: decimal(stiffness),
        length: decimal(0_6555),
        tone: decimal(tone),
        register: Single { bits: ZERO },
        overblow: decimal(2_0000),
        conical: true,
        tract_gain: Single { bits: ZERO },
        tract_q: Single { bits: ZERO },
    };
    let g = wind_graph(reed, wood_horn(true), by_length(), by_length(), 0_4000, 0_3500);
    recipe(name, Patch::Graph(g), engine(1_0000, 25_0000, 90_0000))
}

/// Lips on a brass air column that is overblown from its longest tube.
pub open spec fn brass_wind_view(
    name: Seq<char>,
    anchor: u32,
    pressure: u32,
    tension: u32,
    tone: u32,
) -> RecipeView {
    factory::recipe_view(
        name,
        PatchView::Graph(
            wind_graph_view(
                Comp::Lips {
                    pressure: decimal(pressure),
                    tension: decimal(tension),
                    length: decimal(0_6555),
                    tone: decimal(tone),
                },
                brass_horn(anchor),
                by_length_view(),
                KeyMapView::Overblow { anchor_hz: decimal(anchor), steps: 6, microtune: true },
                0_1000,
                0_4000,
            ),
        ),
        engine(0_5000, 30_0000, 90_0000),
    )
}

fn brass_wind(name: &str, anchor: u32, pressure: u32, tension: u32, tone: u32) -> (r: Recipe)
    ensures
        r@ == brass_wind_view(name@, anchor, pressure, tension, tone),
{
    let lips = Comp::Lips {
        pressure: decimal(pressure),
        tension: decimal(tension),
        length: decimal(0_6555),
        tone: decimal(tone),
    };
    let map = KeyMapKind::Overblow { anchor_hz: decimal(anchor), steps: 6, microtune: true };
    let g = wind_graph(lips, brass_horn(anchor), by_length(), map, 0_1000, 0_4000);
    recipe(name, Patch::Graph(g), engine(0_5000, 30_0000, 90_0000))
}

/// An air jet on an open air column.
pub open spec fn flue_wind_view(
    name: Seq<char>,
    pressure: u32,
    jet_ratio: u32,
    tone: u32,
) -> RecipeView {
    factory::recipe_view(
        name,
        PatchView::Graph(
            wind_graph_view(
                Comp::AirJet {
                    pressure: decimal(pressure),
                    jet_ratio: decimal(jet_ratio),
                    tone: decimal(tone),
                    length: decimal(0_6555),
                },
                wood_horn(true),
                by_length_view(),
                by_length_view(),
                0_4000,
                0_4000,
            ),
        ),
        engine(1_8000, 20_0000, 80_0000),
    )
}

fn flue_wind(name: &str, pressure: u32, jet_ratio: u32, tone: u32) -> (r: Recipe)
    ensures
        r@ == flue_wind_view(name@, pressure, jet_ratio, tone),
{
    let jet = Comp::AirJet {
        pressure: decimal(pressure),
        jet_ratio: decimal(jet_ratio),
        tone: decimal(tone),
        length: decimal(0_6555),
    };
    let g = wind_graph(jet, wood_horn(true), by_length(), by_length(), 0_4000, 0_4000);
    recipe(name, Patch::Graph(g), engine(1_8000, 20_0000, 80_0000))
}

/// Clarinets and saxophones.
pub open spec fn reeds_view(tables: Seq<Seq<Single>>) -> Seq<RecipeView> {
    seq![
        reed_wind_view(
            "Wind: Eb Clarinet"@,
            196_0000,
            false,
            3_0000,
            0_9000,
            1_1000,
            1_0000,
            table_at(tables, 0),
        ),
        reed_wind_view(
            "Wind: Clarinet"@,
            146_8300,
            false,
            3_0000,
            0_9000,
            1_0000,
            1_0000,
            table_at(tables, 1),
        ),
        reed_wind_view(
            "Wind: Basset Horn"@,
            87_3100,
            false,
            3_0000,
            0_9000,
            1_0000,
            0_9000,
            table_at(tables, 2),
        ),
        reed_wind_view(
            "Wind: Bass Clarinet"@,
            73_4200,
            false,
            3_0000,
            0_9500,
            0_9000,
            0_9000,
            table_at(tables, 3),
        ),
        reed_wind_view(
            "Wind: Contrabass Clarinet"@,
            36_7100,
            false,
            3_0000,
            1_0000,
            0_8000,
            0_8000,
            table_at(tables, 4),
        ),
        reed_wind_view(
            "Wind: Soprano Sax"@,
            207_6500,
            true,
            2_0000,
            1_0000,
            0_9000,
            1_2000,
            table_at(tables, 5),
        ),
        reed_wind_view(
            "Wind: Alto Sax"@,
            138_5900,
            true,
            2_0000,
            1_0000,
            0_8500,
            1_2000,
            table_at(tables, 6),
        ),
        reed_wind_view(
            "Wind: Tenor Sax"@,
            103_8300,
            true,
            2_0000,
            0_9500,
            0_8000,
            1_2000,
            table_at(tables, 7),
        ),
        reed_wind_view(
            "Wind: Baritone Sax"@,
            69_3000,
            true,
            2_0000,
            0_9500,
            0_7500,
            1_1000,
            table_at(tables, 8),
        ),
        reed_wind_view(
            "Wind: Bass Sax"@,
            51_9100,
            true,
            2_0000,
            1_0000,
            0_7000,
            1_0000,
            table_at(tables, 9),
        ),
    ]
}

fn reeds(tables: &Vec<Vec<Single>>) -> (r: Vec<Recipe>)
    ensures
        factory::recipe_views(r@) == reeds_view(table_views(tables@)),
{
    let r = vec![
        reed_wind(
            "Wind: Eb Clarinet",
            196_0000,
            false,
            3_0000,
            0_9000,
            1_1000,
            1_0000,
            copy_table(tables, 0),
        ),
        reed_wind(
            "Wind: Clarinet",
            146_8300,
            false,
            3_0000,
            0_9000,
            1_0000,
            1_0000,
            copy_table(tables, 1),
        ),
        reed_wind(
            "Wind: Basset Horn",
            87_3100,
            false,
            3_0000,
            0_9000,
            1_0000,
            0_9000,
            copy_table(tables, 2),
        ),
        reed_wind(
            "Wind: Bass Clarinet",
            73_4200,
            false,
            3_0000,
            0_9500,
            0_9000,
            0_9000,
            copy_table(tables, 3),
        ),
        reed_wind(
            "Wind: Contrabass Clarinet",
            36_7100,
            false,
            3_0000,
            1_0000,
            0_8000,
            0_8000,
            copy_table(tables, 4),
        ),
        reed_wind(
            "Wind: Soprano Sax",
            207_6500,
            true,
            2_0000,
            1_0000,
            0_9000,
            1_2000,
            copy_table(tables, 5),
        ),
        reed_wind(
            "Wind: Alto Sax",
            138_5900,
            true,
            2_0000,
            1_0000,
            0_8500,
            1_2000,
            copy_table(tables, 6),
        ),
        reed_wind(
            "Wind: Tenor Sax",
            103_8300,
            true,
            2_0000,
            0_9500,
            0_8000,
            1_2000,
            copy_table(tables, 7),
        ),
        reed_wind(
            "Wind: Baritone Sax",
            69_3000,
            true,
            2_0000,
            0_9500,
            0_7500,
            1_1000,
            copy_table(tables, 8),
        ),
        reed_wind(
            "Wind: Bass Sax",
            51_9100,
            true,
            2_0000,
            1_0000,
            0_7000,
            1_0000,
            copy_table(tables, 9),
        ),
    ];
    assert(factory::recipe_views(r@) =~= reeds_view(table_views(tables@)));
    r
}

/// Oboes and bassoons.
pub open spec fn double_reeds_view() -> Seq<RecipeView> {
    seq![
        double_reed_wind_view("Wind: Oboe"@, 1_0000, 1_1000, 1_2000),
        double_reed_wind_view("Wind: Cor Anglais"@, 1_0000, 1_0500, 1_1000),
        double_reed_wind_view("Wind: Bassoon"@, 0_9500, 1_0000, 1_0000),
        double_reed_wind_view("Wind: Contrabassoon"@, 0_9500, 0_9000, 0_9000),
    ]
}

fn double_reeds() -> (r: Vec<Recipe>)
    ensures
        factory::recipe_views(r@) == double_reeds_view(),
{
    let r = vec![
        double_reed_wind("Wind: Oboe", 1_0000, 1_1000, 1_2000),
        double_reed_wind("Wind: Cor Anglais", 1_0000, 1_0500, 1_1000),
        double_reed_wind("Wind: Bassoon", 0_9500, 1_0000, 1_0000),
        double_reed_wind("Wind: Contrabassoon", 0_9500, 0_9000, 0_9000),
    ];
    assert(factory::recipe_views(r@) =~= double_reeds_view());
    r
}

/// Brass.
pub open spec fn brass_view() -> Seq<RecipeView> {
    seq![
        brass_wind_view("Wind: Trumpet"@, 82_4100, 1_0000, 1_0000, 1_2000),
        brass_wind_view("Wind: Flugelhorn"@, 82_4100, 0_9500, 1_0000, 0_9000),
        brass_wind_view("Wind: Trombone"@, 58_2700, 1_0000, 1_0000, 1_1000),
        brass_wind_view("Wind: French Horn"@, 65_4100, 0_9000, 1_0000, 1_0000),
        brass_wind_view("Wind: Tuba"@, 36_7100, 1_0000, 1_0000, 0_9000),
    ]
}

fn brass() -> (r: Vec<Recipe>)
    ensures
        factory::recipe_views(r@) == brass_view(),
{
    let r = vec![
        brass_wind("Wind: Trumpet", 82_4100, 1_0000, 1_0000, 1_2000),
        brass_wind("Wind: Flugelhorn", 82_4100, 0_9500, 1_0000, 0_9000),
        brass_wind("Wind: Trombone", 58_2700, 1_0000, 1_0000, 1_1000),
        brass_wind("Wind: French Horn", 65_4100, 0_9000, 1_0000, 1_0000),
        brass_wind("Wind: Tuba", 36_7100, 1_0000, 1_0000, 0_9000),
    ];
    assert(factory::recipe_views(r@) =~= brass_view());
    r
}

/// Flutes.
pub open spec fn flues_view() -> Seq<RecipeView> {
    seq![
        flue_wind_view("Wind: Piccolo"@, 0_5000, 0_5000, 1_2000),
        flue_wind_view("Wind: Flute"@, 0_5500, 0_5000, 1_1000),
        flue_wind_view("Wind: Alto Flute"@, 0_5500, 0_5000, 1_0000),
        flue_wind_view("Wind: Bass Flute"@, 0_6000, 0_5000, 0_9000),
    ]
}

fn flues() -> (r: Vec<Recipe>)
    ensures
        factory::recipe_views(r@) == flues_view(),
{
    let r = vec![
        flue_wind("Wind: Piccolo", 0_5000, 0_5000, 1_2000),
        flue_wind("Wind: Flute", 0_5500, 0_5000, 1_1000),
        flue_wind("Wind: Alto Flute", 0_5500, 0_5000, 1_0000),
        flue_wind("Wind: Bass Flute", 0_6000, 0_5000, 0_9000),
    ];
    assert(factory::recipe_views(r@) =~= flues_view());
    r
}

/// All the winds.
pub open spec fn winds_view(tables: Seq<Seq<Single>>) -> Seq<RecipeView> {
    reeds_view(tables) + double_reeds_view() + brass_view() + flues_view()
}

/// All the winds.
pub fn wind_recipes(tables: &Vec<Vec<Single>>) -> (r: Vec<Recipe>)
    ensures
        factory::recipe_views(r@) == winds_view(table_views(tables@)),
{
    let mut r = reeds(tables);
    join(&mut r, double_reeds());
    join(&mut r, brass());
    join(&mut r, flues());
    r
}

/// Any wind is wired properly, whatever its exciter, air column and key maps.
pub proof fn winds_are_wired(
    exciter: Comp,
    horn: WebsterHorn,
    exciter_map: KeyMapView,
    horn_map: KeyMapView,
    drive: u32,
    res_gain: u32,
)
    ensures
        wind_graph_view(exciter, horn, exciter_map, horn_map, drive, res_gain).is_valid(),
{
    reveal(wind_graph_view);
}

/// The graphs of this section are wired properly.
pub proof fn winds_are_sound(tables: Seq<Seq<Single>>)
    ensures
        factory::all_sound(winds_view(tables)),
{
    assert forall|e: Comp, h: WebsterHorn, em: KeyMapView, hm: KeyMapView, d: u32, g: u32|
        (#[trigger] wind_graph_view(e, h, em, hm, d, g)).is_valid() by {
        winds_are_wired(e, h, em, hm, d, g);
    }
    assert(factory::all_sound(reeds_view(tables)));
    assert(factory::all_sound(double_reeds_view()));
    assert(factory::all_sound(brass_view()));
    assert(factory::all_sound(flues_view()));
}

/// A wind sounds its exciter through its air column: the exciter drives the column and the
/// cavity, all three are heard together, and the key moves the exciter, the column and the
/// cavity, each by its own map.
pub proof fn winds_sound_through_their_column(
    exciter: Comp,
    horn: WebsterHorn,
    exciter_map: KeyMapView,
    horn_map: KeyMapView,
    drive: u32,
    res_gain: u32,
) -> (g: GraphView)
    ensures
        g == wind_graph_view(exciter, horn, exciter_map, horn_map, drive, res_gain),
        g.components.len() == 4,
        g.components[0] == exciter,
        g.components[1] == Comp::Horn(horn),
        g.components[2] is Body,
        g.components[g.output] is Mix,
        g.edges.len() == 5,
        g.edges[0] == edge(0, 3, 0_1500),
        g.edges[1] == edge(0, 1, drive),
        g.edges[2] == edge(1, 3, res_gain),
        g.edges[3] == edge(0, 2, 0_6000),
        g.edges[4] == edge(2, 3, 0_4500),
        g.key_map.len() == 3,
        forall|i: int| 0 <= i < 3 ==> (#[trigger] g.key_map[i]).component == i,
        g.key_map[0].map == exciter_map,
        g.key_map[1].map == horn_map,
        g.key_map[2].map == (KeyMapView::Power { param: "top_hz"@, amount: decimal(1_0000) }),
{
    reveal(wind_graph_view);
    wind_graph_view(exciter, horn, exciter_map, horn_map, drive, res_gain)
}

/// A single reed has the pressure, stiffness and tone that it is asked for, is as long as its
/// lowest note needs, starts in its lowest register without help from the tract, and is tuned
/// from that note by the table that it is given.
pub proof fn reeds_are_tuned_by_their_table(
    name: Seq<char>,
    anchor: u32,
    conical: bool,
    overblow: u32,
    pressure: u32,
    stiffness: u32,
    tone: u32,
    table: Seq<Single>,
) -> (g: GraphView)
    ensures
        reed_wind_view(name, anchor, conical, overblow, pressure, stiffness, tone, table).name
            == name,
        reed_wind_view(name, anchor, conical, overblow, pressure, stiffness, tone, table).patch
            == PatchView::Graph(g),
        g.components[0] is ReedBore,
        g.components[0]->ReedBore_pressure == decimal(pressure),
        g.components[0]->ReedBore_stiffness == decimal(stiffness),
        g.components[0]->ReedBore_length == half_wave(decimal(anchor)),
        g.components[0]->ReedBore_tone == decimal(tone),
        g.components[0]->ReedBore_register.bits == 0,
        g.components[0]->ReedBore_overblow == decimal(overblow),
        g.components[0]->ReedBore_conical == conical,
        g.components[0]->ReedBore_tract_gain.bits == 0,
        g.components[1] == Comp::Horn(wood_horn(conical)),
        g.key_map[0].component == 0,
        g.key_map[0].map matches KeyMapView::OverblowTuned { anchor_hz, steps, table: t }
            && anchor_hz == decimal(anchor) && steps.bits == 0 && t == table,
        g.key_map[1].component == 1,
        g.key_map[1].map == (KeyMapView::Power { param: "length"@, amount: minus(1_0000) }),
{
    reveal(wind_graph_view);
    reed_wind_view(name, anchor, conical, overblow, pressure, stiffness, tone, table).patch->Graph_0
}

/// Each single reed is tuned by its own table, the one at its place in the list, and is left
/// untuned if there is none.
pub proof fn each_reed_has_its_own_table(tables: Seq<Seq<Single>>, i: int)
    requires
        0 <= i < reeds_view(tables).len(),
    ensures
        reeds_view(tables)[i].patch matches PatchView::Graph(g) && g.key_map.len() == 3 && (
        g.key_map[0].map matches KeyMapView::OverblowTuned { table, .. } && (i < tables.len()
            ==> table == tables[i]) && (i >= tables.len() ==> table.len() == 0)),
{
    reveal(wind_graph_view);
}

/// A double reed, lips and a jet blow as asked.
pub proof fn the_other_winds_blow_as_asked(
    name: Seq<char>,
    anchor: u32,
    pressure: u32,
    second: u32,
    tone: u32,
)
    ensures
        double_reed_wind_view(name, pressure, second, tone).name == name,
        double_reed_wind_view(name, pressure, second, tone).patch matches PatchView::Graph(g) && (
        g.components[0] matches Comp::DoubleReed { pressure: p, stiffness, tone: t, conical, .. }
            && p == decimal(pressure) && stiffness == decimal(second) && t == decimal(tone)
            && conical),
        brass_wind_view(name, anchor, pressure, second, tone).name == name,
        brass_wind_view(name, anchor, pressure, second, tone).patch matches PatchView::Graph(g) && (
        g.components[0] matches Comp::Lips { pressure: p, tension, tone: t, .. } && p == decimal(
            pressure,
        ) && tension == decimal(second) && t == decimal(tone)) && g.components[1] == Comp::Horn(
            brass_horn(anchor),
        ) && (g.key_map[1].map matches KeyMapView::Overblow { anchor_hz, steps, microtune }
            && anchor_hz == decimal(anchor) && steps == 6 && microtune),
        flue_wind_view(name, pressure, second, tone).name == name,
        flue_wind_view(name, pressure, second, tone).patch matches PatchView::Graph(g) && (
        g.components[0] matches Comp::AirJet { pressure: p, jet_ratio, tone: t, .. } && p == decimal(
            pressure,
        ) && jet_ratio == decimal(second) && t == decimal(tone)),
{
    reveal(wind_graph_view);
}

} // verus!
