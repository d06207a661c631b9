//! Kits: routing keys to sources, and storing zones.

use synth_rs::instrument::{EngineParams, Instrument};
use synth_rs::kit::{PerformanceMap, Playable, ZoneMap};
use synth_rs::project::ZoneData;
use synth_rs::single::Single;

fn json(text: &str) -> serde_json::Value {
    serde_json::from_str(text).unwrap()
}

fn one() -> Single {
    Single { bits: 1.0f32.to_bits() }
}

fn zone(model_id: &str, lo: u8, hi: u8, fixed: Option<u8>) -> ZoneData {
    ZoneData {
        name: model_id.into(),
        lo,
        hi,
        fixed_note: fixed,
        transpose: 0,
        model_id: model_id.into(),
        params: json("{}"),
        engine: EngineParams::default(),
    }
}

fn kit(data: &Vec<ZoneData>) -> Playable {
    let loaded = data.iter().map(|z| Some(z.params.clone())).collect();
    Playable::from_zones(data, &loaded, &json("{}"))
}

fn strike(p: &mut Playable, key: u8) -> Vec<Option<usize>> {
    let lockouts = vec![0; p.sources.len()];
    p.note_on(key, one(), &lockouts)
}

#[test]
fn split_routes_by_range() {
    let data = vec![zone("drum_membrane", 0, 59, None), zone("pure_string", 60, 127, None)];
    let mut kit = kit(&data);
    strike(&mut kit, 40);
    strike(&mut kit, 72);
    assert_eq!(kit.source_voices(0), 1, "drum zone");
    assert_eq!(kit.source_voices(1), 1, "string zone");
}

#[test]
fn out_of_range_key_plays_nothing() {
    let data = vec![zone("pure_string", 60, 72, None)];
    let mut kit = kit(&data);
    assert_eq!(strike(&mut kit, 40), vec![None]);
    assert_eq!(kit.source_voices(0), 0);
}

#[test]
fn overlapping_zones_layer() {
    let data = vec![zone("pure_string", 60, 72, None), zone("basic_wave", 60, 72, None)];
    let mut kit = kit(&data);
    strike(&mut kit, 64);
    assert_eq!(kit.source_voices(0), 1);
    assert_eq!(kit.source_voices(1), 1, "both layers sound");
    assert_eq!(kit.active_voices(), 2);
}

#[test]
fn note_off_stops_the_mapped_pad_pitch() {
    let data = vec![zone("drum_membrane", 36, 40, Some(38))];
    let mut kit = kit(&data);
    strike(&mut kit, 36);
    assert_eq!(kit.source_voices(0), 1);
    assert_eq!(kit.sources[0].voices[0].note, 38);
    kit.note_off(36);
    assert!(kit.source_voices(0) <= 1);
    assert!(kit.sources[0].voices[0].releasing);
}

#[test]
fn roundtrips_through_zone_data() {
    let data = vec![zone("basic_wave", 0, 59, Some(45)), zone("basic_wave", 60, 127, None)];
    let kit = kit(&data);
    let (id, _params, _engine, back) = kit.parts();
    assert_eq!(id, "kit");
    assert_eq!(back.len(), 2);
    assert_eq!(back[0].model_id, "basic_wave");
    assert_eq!(back[0].fixed_note, Some(45));
    assert_eq!(back[1].lo, 60);
    assert_eq!(kit.model_id(), "kit");
}

#[test]
fn single_serializes_without_zones() {
    let p = Playable::single(Instrument::new(json("{}")));
    let (_id, _params, _engine, zones) = p.parts();
    assert!(zones.is_empty(), "a single instrument has no zones");
    assert!(p.model_id() != "kit");
    assert!(p.is_single());
}

#[test]
fn a_zone_that_cannot_be_read_gets_the_startup_model() {
    let data = vec![zone("theremin", 0, 127, None), zone("snare", 0, 127, None)];
    let k = Playable::from_zones(&data, &vec![Some(json("{}")), None], &json(r#"{"a":1}"#));
    assert_eq!(k.sources[0].model_id(), "musical_string");
    assert_eq!(k.sources[0].model_json(), json(r#"{"a":1}"#));
    assert_eq!(k.sources[1].model_id(), "musical_string");
}

#[test]
fn transposed_notes_stay_on_the_keyboard() {
    let map = |transpose: i8, fixed_note: Option<u8>| ZoneMap {
        name: "z".into(),
        lo: 10,
        hi: 20,
        fixed_note,
        transpose,
        source: 0,
    };
    assert_eq!(map(12, None).mapped(60), 72);
    assert_eq!(map(-128, None).mapped(60), 0);
    assert_eq!(map(127, None).mapped(60), 127);
    assert_eq!(map(12, Some(38)).mapped(60), 38);
    assert!(map(0, None).in_range(10) && map(0, None).in_range(20));
    assert!(!map(0, None).in_range(9) && !map(0, None).in_range(21));
}

#[test]
fn keys_up_and_panic_reach_every_source() {
    let data = vec![zone("pure_string", 60, 72, None), zone("basic_wave", 60, 72, None)];
    let mut k = kit(&data);
    strike(&mut k, 61);
    strike(&mut k, 65);
    k.note_off(61);
    for i in 0..2 {
        assert!(k.sources[i].voices[0].releasing);
        assert!(!k.sources[i].voices[1].releasing);
    }
    let twin = k.snapshot();
    assert_eq!(twin.active_voices(), 0);
    assert!(matches!(twin.map, PerformanceMap::Zones(_)));
    k.release_all();
    assert!(k.sources.iter().all(|x| x.voices[1].releasing));
    k.all_notes_off();
    assert_eq!(k.active_voices(), 0);
}
