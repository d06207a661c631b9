//! The voice pool of one instrument.

use synth_rs::instrument::{EngineParams, Instrument, Model, MAX_VOICES};
use synth_rs::models::ModelKind;
use synth_rs::single::Single;

fn json(text: &str) -> serde_json::Value {
    serde_json::from_str(text).unwrap()
}

fn single(x: f32) -> Single {
    Single { bits: x.to_bits() }
}

fn instrument() -> Instrument {
    Instrument::new(json("{}"))
}

#[test]
fn note_off_frees_the_voice() {
    let mut inst = instrument();
    let i = inst.note_on(60, single(1.0), 0).unwrap();
    assert_eq!(inst.active_voices(), 1);
    inst.note_off(60);
    assert_eq!(inst.active_voices(), 1, "it rings until its gate closes");
    inst.voice_rendered(i, false, true);
    assert_eq!(inst.active_voices(), 1);
    inst.voice_rendered(i, true, true);
    assert_eq!(inst.active_voices(), 0, "voice should free after release");
}

#[test]
fn snapshot_is_independent() {
    let mut a = instrument();
    a.note_on(60, single(1.0), 0);
    let mut b = a.snapshot();
    assert_eq!(b.active_voices(), 0, "snapshot starts silent");
    b.note_on(64, single(1.0), 0);
    assert_eq!(a.active_voices(), 1);
    assert_eq!(b.active_voices(), 1);
}

#[test]
fn the_oldest_voice_is_taken_over() {
    let mut inst = instrument();
    for k in 0..MAX_VOICES {
        assert_eq!(inst.note_on(40 + k as u8, single(0.5), 0), Some(k));
    }
    assert_eq!(inst.active_voices(), 16);
    assert_eq!(inst.note_on(100, single(0.5), 0), Some(0));
    assert_eq!(inst.voices[0].note, 100);
    assert_eq!(inst.note_on(101, single(0.5), 0), Some(1));
    assert_eq!(inst.active_voices(), 16);
}

#[test]
fn strikes_too_close_together_are_dropped() {
    let mut inst = instrument();
    assert!(inst.note_on(60, single(1.0), 100).is_some(), "nothing was struck before");
    for _ in 0..50 {
        inst.frame_done();
    }
    assert!(inst.note_on(62, single(1.0), 100).is_none());
    for _ in 0..50 {
        inst.frame_done();
    }
    assert!(inst.note_on(64, single(1.0), 100).is_some());
    assert_eq!(inst.active_voices(), 2);
}

#[test]
fn a_voice_that_stops_ringing_falls_silent() {
    let mut inst = instrument();
    let i = inst.note_on(60, single(1.0), 0).unwrap();
    inst.voice_rendered(i, false, false);
    assert_eq!(inst.active_voices(), 0);
    let i = inst.note_on(60, single(1.0), 0).unwrap();
    inst.voice_built(i, 0);
    assert_eq!(inst.active_voices(), 0, "a note without modes makes no sound");
}

#[test]
fn keys_up_reach_every_voice_of_the_note() {
    let mut inst = instrument();
    inst.note_on(60, single(1.0), 0);
    inst.note_on(60, single(0.5), 0);
    inst.note_on(64, single(0.5), 0);
    inst.note_off(60);
    assert_eq!(inst.voices.iter().filter(|v| v.releasing).count(), 2);
    inst.release_all();
    assert_eq!(inst.voices.iter().filter(|v| v.releasing).count(), 3);
    assert_eq!(inst.sounding_voices(), vec![0, 1, 2]);
    inst.all_notes_off();
    assert_eq!(inst.active_voices(), 0);
}

#[test]
fn models_and_settings_are_carried() {
    let m = Model { kind: ModelKind::Snare, params: json(r#"{"depth":24}"#) };
    let engine = EngineParams { gain: single(0.25), ..EngineParams::default() };
    let mut inst = Instrument::with_config(m, engine);
    assert_eq!(inst.model_name(), "Snare");
    assert_eq!(inst.model_id(), "snare");
    assert_eq!(inst.model_json(), json(r#"{"depth":24}"#));
    assert_eq!(inst.engine_params().gain, single(0.25));
    inst.set_bend(single(1.5));
    assert_eq!(inst.bend, single(1.5));
    inst.set_engine(EngineParams::default());
    assert_eq!(inst.engine_params(), EngineParams::default());
    inst.set_model(Model { kind: ModelKind::Cymbal, params: json("{}") });
    assert_eq!(inst.model_id(), "cymbal");
    assert_eq!(instrument().model_id(), "musical_string");
}
