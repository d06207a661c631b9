//! The built-in instruments.

use std::collections::HashSet;
use synth_rs::factory::{base_recipes, Patch, Recipe};
use synth_rs::instrument::Model;
use synth_rs::models;
use synth_rs::models::comp::Comp;
use synth_rs::models::key_map::KeyMapKind;
use synth_rs::models::pure_string::PureString;
use synth_rs::models::ModelKind;
use synth_rs::presets;
use synth_rs::presets::Preset;
use synth_rs::single::Single;

fn f(x: Single) -> f32 {
    f32::from_bits(x.bits)
}

/// Each recipe as a preset, with stand-ins for the parameters.
fn as_presets(recipes: &[Recipe]) -> Vec<Preset> {
    recipes
        .iter()
        .map(|r| {
            let params = match &r.patch {
                Patch::PureString(_) => r#"{"excitation":"Struck"}"#,
                _ => "{}",
            };
            let m = Model { kind: r.patch.kind(), params: serde_json::from_str(params).unwrap() };
            Preset::capture(&r.name, &m, r.engine)
        })
        .collect()
}

fn named<'a>(recipes: &'a [Recipe], name: &str) -> &'a Recipe {
    recipes.iter().find(|r| r.name == name).unwrap()
}

#[test]
fn struck_string_membrane_plate_presets_get_graph_twins() {
    let all = presets::factory(as_presets(&base_recipes(&Vec::new())));
    let has = |n: &str| all.iter().any(|p| p.name == n);
    assert!(has("Piano (graph)"), "struck string twinned");
    assert!(has("Tom (graph)"), "membrane twinned");
    assert!(has("Pure Plate (graph)"), "plate twinned");
    assert!(!has("Violin (graph)"), "bowed strings excluded");
    assert!(has("Soft Nylon (graph)"), "musical_string twinned");
    let g = all.iter().find(|p| p.name == "Piano (graph)").unwrap();
    assert_eq!(g.model_id, "graph_string");
    assert!(g.params.get("inner").is_some(), "params re-homed under inner");
    assert!(g.build_model(Some(g.params.clone())).is_some(), "twin rebuilds via model_from_id");
}

#[test]
fn each_preset_has_one_twin() {
    let kit = presets::factory(as_presets(&base_recipes(&Vec::new())));
    let graph = |id: &str| match id {
        "pure_string" => Some("graph_string"),
        "drum_membrane" => Some("graph_drum"),
        "musical_string" => Some("graph_musical_string"),
        "pure_plate" => Some("graph_plate"),
        _ => None,
    };
    let mut twins = 0;
    for p in &kit {
        if let Some(id) = graph(&p.model_id) {
            let name = format!("{} (graph)", p.name);
            let found: Vec<_> = kit.iter().filter(|q| q.name == name).collect();
            assert_eq!(found.len(), 1, "{name}");
            assert_eq!(found[0].model_id, id);
            assert_eq!(found[0].params.get("inner"), Some(&p.params));
            assert_eq!(found[0].engine, p.engine);
            twins += 1;
        }
    }
    assert_eq!(twins, 14);
    let graphs = ["graph_string", "graph_drum", "graph_musical_string", "graph_plate"];
    assert_eq!(kit.iter().filter(|q| graphs.contains(&q.model_id.as_str())).count(), twins);
    assert_eq!(kit.len(), 84 + twins);
    assert!(kit.iter().any(|p| p.name == "Cowbell (graph)" && p.model_id == "instrument_graph"));
}

#[test]
fn factory_kit_is_valid() {
    let kit = presets::factory(as_presets(&base_recipes(&Vec::new())));
    assert!(!kit.is_empty(), "at least one factory preset");
    let mut names: Vec<_> = kit.iter().map(|p| p.name.clone()).collect();
    let before = names.len();
    names.sort();
    names.dedup();
    assert_eq!(names.len(), before, "factory preset names must be unique");
    let ids: HashSet<_> = kit.iter().map(|p| p.model_id.clone()).collect();
    for m in models::registry() {
        if m.id() == "webster_horn" {
            continue;
        }
        assert!(ids.contains(m.id()), "kit should include a {} preset", m.id());
    }
    for p in &kit {
        assert!(p.build_model(Some(p.params.clone())).is_some(), "{} rebuilds", p.name);
        assert_eq!(p.builtin, Some(true), "{}", p.name);
    }
}

#[test]
fn the_set_is_complete_and_in_order() {
    let r = base_recipes(&Vec::new());
    assert_eq!(r.len(), 84);
    assert_eq!(r[0].name, "Acoustic Bass");
    assert_eq!(r[13].name, "Guitar + Body (graph)");
    assert_eq!(r[61].name, "Wind: Eb Clarinet");
    assert_eq!(r[83].name, "Wind: Bass Flute");
    let graphs = r.iter().filter(|x| x.patch.kind() == ModelKind::InstrumentGraph).count();
    assert_eq!(graphs, 64);
}

#[test]
fn numbers_are_those_of_single_precision() {
    let r = base_recipes(&Vec::new());
    let piano = named(&r, "Piano");
    match &piano.patch {
        Patch::PureString(s) => {
            assert_eq!(f(s.length_m), 0.600);
            assert_eq!(f(s.tension_n), 700.0);
            assert_eq!(f(s.diameter_mm), 1.10);
            assert_eq!(f(s.density_kgm3), 7850.0);
            assert_eq!(f(s.youngs_gpa), 200.0);
            assert_eq!(f(s.decay_time), 3.5);
            assert_eq!(f(s.hf_damping), 0.3);
            assert_eq!(f(s.pluck_pos), 0.12);
            assert_eq!(s.num_modes, 40);
        }
        _ => panic!("the piano is a string"),
    }
    assert_eq!((f(piano.engine.gain), f(piano.engine.attack_ms)), (0.6, 2.0));
    assert_eq!((f(piano.engine.release_ms), f(piano.engine.retrigger_ms)), (150.0, 0.0));
    match &named(&r, "Crash Cymbal").patch {
        Patch::Cymbal(c) => assert_eq!((f(c.brightness), c.modes), (-0.5, 160)),
        _ => panic!("a cymbal"),
    }
}

#[test]
fn reeds_get_their_bore_and_their_table() {
    let table: Vec<Single> = vec![Single { bits: 1.25f32.to_bits() }];
    let r = base_recipes(&vec![Vec::new(), table.clone()]);
    let g = match &named(&r, "Wind: Clarinet").patch {
        Patch::Graph(g) => g,
        _ => panic!("a graph"),
    };
    match &g.components[0] {
        Comp::ReedBore { length, conical, overblow, .. } => {
            assert_eq!(f(*length), 343.0f32 / (2.0 * 146.83f32));
            assert!(!conical);
            assert_eq!(f(*overblow), 3.0);
        }
        _ => panic!("a reed"),
    }
    match &g.key_map[0].map {
        KeyMapKind::OverblowTuned { anchor_hz, table: t, .. } => {
            assert_eq!(f(*anchor_hz), 146.83);
            assert_eq!(*t, table);
        }
        _ => panic!("tuned"),
    }
    for (name, anchor) in [
        ("Wind: Eb Clarinet", 196.0f32),
        ("Wind: Basset Horn", 87.31),
        ("Wind: Contrabass Clarinet", 36.71),
        ("Wind: Soprano Sax", 207.65),
        ("Wind: Bass Sax", 51.91),
    ] {
        match &named(&r, name).patch {
            Patch::Graph(g) => match &g.components[0] {
                Comp::ReedBore { length, .. } => assert_eq!(f(*length), 343.0 / (2.0 * anchor)),
                _ => panic!("a reed"),
            },
            _ => panic!("a graph"),
        }
    }
    match &named(&r, "Wind: Alto Sax").patch {
        Patch::Graph(g) => match &g.key_map[0].map {
            KeyMapKind::OverblowTuned { table, .. } => assert!(table.is_empty()),
            _ => panic!("tuned"),
        },
        _ => panic!("a graph"),
    }
}

#[test]
fn every_graph_is_wired() {
    let mut checked = 0;
    for r in base_recipes(&Vec::new()) {
        if let Patch::Graph(g) = &r.patch {
            let n = g.components.len();
            assert!(g.output < n, "{}", r.name);
            assert!(g.edges.iter().all(|e| e.from < n && e.to < n), "{}", r.name);
            assert!(g.key_map.iter().all(|b| b.component < n), "{}", r.name);
            assert!(g.build_graph(&g.components).is_some(), "{} builds", r.name);
            checked += 1;
        }
    }
    assert!(checked >= 15);
}

/// The pitch that a stretched wire of this length, tension, gauge and density sounds.
fn open_pitch_hz(m: &PureString) -> f32 {
    let r = 0.5 * (f(m.diameter_mm) as f64 * 1e-3).max(1e-6);
    let mass = (f(m.density_kgm3) as f64 * std::f64::consts::PI * r * r).max(1e-12);
    let speed = ((f(m.tension_n) as f64).max(1e-6) / mass).sqrt() as f32;
    speed / (2.0 * f(m.length_m).max(1e-4))
}

#[test]
fn string_presets_have_realistic_open_pitches() {
    let mut strings = 0;
    for r in base_recipes(&Vec::new()) {
        if let Patch::PureString(m) = &r.patch {
            let hz = open_pitch_hz(m);
            assert!(
                hz.is_finite() && (20.0..=4200.0).contains(&hz),
                "{} open pitch {hz} Hz is out of the instrument range",
                r.name
            );
            strings += 1;
        }
    }
    assert!(strings > 0);
}
