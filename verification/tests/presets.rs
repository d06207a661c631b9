//! Presets: names, files, kits, twins and the launch refresh.

use synth_rs::files;
use synth_rs::instrument::{EngineParams, Model};
use synth_rs::models::ModelKind;
use synth_rs::presets;
use synth_rs::presets::{file_stem, Listing, Preset, Removal};
use synth_rs::project::ZoneData;
use synth_rs::single::Single;

fn single(x: f32) -> Single {
    Single { bits: x.to_bits() }
}

fn json(text: &str) -> serde_json::Value {
    serde_json::from_str(text).unwrap()
}

fn model(kind: ModelKind, params: &str) -> Model {
    Model { kind, params: json(params) }
}

fn named(name: &str, builtin: Option<bool>) -> Preset {
    Preset {
        name: name.to_string(),
        model_id: "basic_wave".to_string(),
        params: json("{}"),
        engine: EngineParams::default(),
        zones: Vec::new(),
        builtin,
    }
}

#[test]
fn file_stem_is_safe() {
    assert_eq!(file_stem("Warm Pluck"), "Warm_Pluck");
    assert_eq!(file_stem("bass/lead:1"), "bass_lead_1");
    assert_eq!(file_stem("   "), "preset");
    assert!(!file_stem("a/b\\c").contains(['/', '\\']));
}

#[test]
fn stems_are_trimmed_and_kept_once_safe() {
    assert_eq!(file_stem("  Soft  Nylon\t"), "Soft__Nylon");
    assert_eq!(file_stem(&file_stem("a b/c")), file_stem("a b/c"));
    assert_eq!(file_stem("Größe"), "Gr__e");
    assert_eq!(presets::file_name("Warm Pluck"), "Warm_Pluck.json");
    assert_eq!(files::stem_text("", "project"), "project");
}

#[test]
fn roundtrip_preserves_params() {
    let m = model(ModelKind::BasicWave, r#"{"waveform":"Triangle","harmonics":41,"decay_time":2.5}"#);
    let engine = EngineParams { gain: single(1.234), ..EngineParams::default() };
    let back = Preset::capture("Test Lead", &m, engine);
    assert_eq!(back.name, "Test Lead");
    assert_eq!(back.model_id, "basic_wave");
    assert!((f32::from_bits(back.engine.gain.bits) - 1.234).abs() < 1e-6);
    assert_eq!(back.builtin, Some(false));

    let rebuilt = back.build_model(Some(back.params.clone())).expect("rebuilds model");
    assert_eq!(rebuilt.kind.id(), "basic_wave");
    assert_eq!(rebuilt.params, m.params);
    assert!(back.build_model(None).is_none(), "parameters that do not fit give no model");
}

#[test]
fn captured_names_are_trimmed() {
    let m = model(ModelKind::Snare, "{}");
    assert_eq!(Preset::capture("  Tight  ", &m, EngineParams::default()).name, "Tight");
}

fn kit_zones() -> Vec<ZoneData> {
    vec![
        ZoneData {
            name: "Kick".into(),
            lo: 36,
            hi: 47,
            fixed_note: Some(38),
            transpose: 0,
            model_id: "drum_membrane".into(),
            params: json("{}"),
            engine: EngineParams::default(),
        },
        ZoneData {
            name: "Lead".into(),
            lo: 48,
            hi: 72,
            fixed_note: None,
            transpose: 0,
            model_id: "pure_string".into(),
            params: json("{}"),
            engine: EngineParams::default(),
        },
    ]
}

#[test]
fn kit_preset_roundtrips_with_its_zones() {
    let preset = Preset::capture_kit("My Kit", kit_zones());
    assert!(preset.is_kit());
    assert!(preset.build_model(Some(json("{}"))).is_none(), "a kit has no single model");

    let back = preset.clone();
    assert_eq!(back.name, "My Kit");
    assert!(back.is_kit());
    assert_eq!(back.zones.len(), 2);
    assert_eq!(back.zones[0].model_id, "drum_membrane");
    assert_eq!(back.zones[0].fixed_note, Some(38));
    assert_eq!(back.zones[1].lo, 48);
    assert_eq!(back.model_id, "kit");
    assert!(back.params.is_null());
}

#[test]
fn single_preset_loads_as_non_kit() {
    let p = Preset {
        name: "Old".into(),
        model_id: "basic_wave".into(),
        params: json("{}"),
        engine: EngineParams {
            gain: single(1.0),
            attack_ms: single(3.0),
            release_ms: single(120.0),
            retrigger_ms: single(0.0),
        },
        zones: Vec::new(),
        builtin: None,
    };
    assert!(!p.is_kit());
    assert!(p.build_model(Some(p.params.clone())).is_some());
}

#[test]
fn unknown_models_are_not_built() {
    let mut p = named("X", None);
    p.model_id = "theremin".into();
    assert!(p.build_model(Some(json("{}"))).is_none());
}

#[test]
fn removals_are_told_apart() {
    assert_eq!(presets::delete(Removal::Done), Ok(true));
    assert_eq!(presets::delete(Removal::Missing), Ok(false));
    assert_eq!(presets::delete(Removal::Failed("locked".into())), Err("locked".to_string()));
}

#[test]
fn listing_sorts_without_case_and_skips_other_files() {
    let found = vec![
        Listing { file: "b.json".into(), preset: Some(named("banjo", None)) },
        Listing { file: "notes.txt".into(), preset: Some(named("Ghost", None)) },
        Listing { file: "broken.json".into(), preset: None },
        Listing { file: "a.json".into(), preset: Some(named("Alto", None)) },
        Listing { file: "c.json".into(), preset: Some(named("Cello", None)) },
    ];
    let names: Vec<String> = presets::list(&found).iter().map(|p| p.name.clone()).collect();
    assert_eq!(names, vec!["Alto", "banjo", "Cello"]);
}

#[test]
fn launch_refresh_keeps_what_the_user_saved() {
    let existing = vec![
        named("Piano", Some(true)),
        named("Harp", Some(false)),
        named("Tom", None),
        named("Retired", Some(true)),
        named("Old Legacy", None),
        named("Mine", Some(false)),
    ];
    let fresh = vec![
        named("Piano", Some(true)),
        named("Harp", Some(true)),
        named("Tom", Some(true)),
        named("New One", Some(true)),
    ];
    let plan = presets::load_library(&existing, &fresh);
    assert_eq!(plan.write, vec![0, 2, 3]);
    assert_eq!(plan.remove, vec![3, 4]);
    assert_eq!(presets::find_named(&existing, "Tom"), Some(2));
    assert_eq!(presets::find_named(&existing, "tom"), None);
}

#[test]
fn launch_refresh_stays_off_the_users_files() {
    let existing = vec![named("My Harp", Some(false)), named("Retired", Some(true))];
    let fresh = vec![named("My Harp", Some(true)), named("Piano", Some(true))];
    let plan = presets::load_library(&existing, &fresh);
    let touched: Vec<String> = plan
        .write
        .iter()
        .map(|i| presets::file_name(&fresh[*i].name))
        .chain(plan.remove.iter().map(|i| presets::file_name(&existing[*i].name)))
        .collect();
    assert_eq!(touched, vec!["Piano.json", "Retired.json"]);
    assert_eq!(presets::file_name("My Harp"), presets::file_name("My_Harp"), "one file for two names");
}

#[test]
fn presets_that_share_the_users_file_are_left_out() {
    let existing = vec![
        named("My_Harp", Some(false)),
        named("My?Harp", None),
        named("My/Harp", Some(true)),
        named("Old", None),
    ];
    let fresh = vec![named("My Harp", Some(true)), named("Harp", Some(true))];
    let plan = presets::load_library(&existing, &fresh);
    assert_eq!(plan.write, vec![1], "My_Harp.json is the user's");
    assert_eq!(plan.remove, vec![3], "whoever owns the other names");
}

#[test]
fn twins_wrap_the_parameters() {
    let m = model(ModelKind::PureString, r#"{"excitation":"Struck","num_modes":40}"#);
    let p = Preset::capture("Piano", &m, EngineParams::default());
    let t = presets::graph_twin(&p).expect("a struck string has a twin");
    assert_eq!(t.name, "Piano (graph)");
    assert_eq!(t.model_id, "graph_string");
    assert_eq!(t.params.get("inner"), Some(&m.params));
    assert_eq!(t.params.as_object().unwrap().len(), 1);
    assert_eq!(t.builtin, Some(true));

    let bowed = model(ModelKind::PureString, r#"{"excitation":"Bowed"}"#);
    assert!(presets::graph_twin(&Preset::capture("Viol", &bowed, EngineParams::default())).is_none());
    let plate = Preset::capture("P", &model(ModelKind::PurePlate, "{}"), EngineParams::default());
    assert_eq!(presets::graph_twin(&plate).unwrap().model_id, "graph_plate");
    let bell = Preset::capture("B", &model(ModelKind::MetalBell, "{}"), EngineParams::default());
    assert!(presets::graph_twin(&bell).is_none());
}
