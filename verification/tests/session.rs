//! The session: targets, presets onto them, the live kit, and the models' panels.

use synth_rs::instrument::{EngineParams, Model};
use synth_rs::models;
use synth_rs::models::basic_wave::{BasicWave, Waveform};
use synth_rs::models::comp::Comp;
use synth_rs::models::cymbal::Cymbal;
use synth_rs::models::drum_membrane::DrumMembrane;
use synth_rs::models::menu::Addable;
use synth_rs::models::pure_string::PureString;
use synth_rs::models::voice::{Excitation, ExcitationKind, PluckExciter, StrikeExciter};
use synth_rs::models::webster_horn;
use synth_rs::models::webster_horn::{Boundary, Grid, PlayMode, Wavefront, WebsterHorn};
use synth_rs::models::{ModeBuffer, ModelKind, PitchMode, MAX_MODES};
use synth_rs::panel::{pluck_reading, strike_reading, Amount, Field, Reading, Scale};
use synth_rs::presets::Preset;
use synth_rs::session;
use synth_rs::session::{GridUnit, Knob, LoadOnto, SaveSource, Snap, Target, TransportState};
use synth_rs::single::Single;

fn s(x: f32) -> Single {
    Single { bits: x.to_bits() }
}

fn json(text: &str) -> serde_json::Value {
    serde_json::from_str(text).unwrap()
}

fn model(kind: ModelKind) -> Model {
    Model { kind, params: json("{}") }
}

fn preset(name: &str, kind: ModelKind) -> Preset {
    Preset::capture(name, &model(kind), EngineParams::default())
}

#[test]
fn targets_follow_the_tracks() {
    assert_eq!(session::keep_target(Target::Track(2), 3), Target::Track(2));
    assert_eq!(session::keep_target(Target::Track(3), 3), Target::Live);
    assert_eq!(session::target_without(Target::Track(1), 1), Target::Live);
    assert_eq!(session::target_without(Target::Track(1), 2), Target::Track(1));
    assert_eq!(session::target_without(Target::Live, 0), Target::Live);
    assert_eq!(session::set_target(Target::Live, Target::Track(1), 2), Target::Track(1));
    assert_eq!(session::set_target(Target::Track(0), Target::Track(5), 2), Target::Track(0));
    assert_eq!(session::set_target(Target::Track(0), Target::Live, 2), Target::Live);
}

#[test]
fn grids_have_labels_and_lengths() {
    let all = [Snap::Bar, Snap::Quarter, Snap::Eighth, Snap::Sixteenth, Snap::Free];
    assert_eq!(all.map(|x| x.label()), ["Bar", "1/4", "1/8", "1/16", "Free"]);
    assert_eq!(Snap::Sixteenth.secs(), Some(GridUnit::BeatOver(4)));
    assert_eq!(Snap::Bar.secs(), Some(GridUnit::Bar));
    assert_eq!(Snap::Free.secs(), None);
}

#[test]
fn saving_picks_what_is_edited() {
    assert_eq!(session::save_choice("  ", Target::Live, false, None), None);
    assert_eq!(session::save_choice(" A ", Target::Live, true, None), Some(("A".into(), SaveSource::Kit)));
    assert_eq!(session::save_choice("A", Target::Live, false, None), Some(("A".into(), SaveSource::Live)));
    assert_eq!(session::save_choice("A", Target::Track(1), true, Some(1)), Some(("A".into(), SaveSource::Track)));
    assert_eq!(session::save_choice("A", Target::Track(1), false, Some(2)), Some(("A".into(), SaveSource::Live)));
}

#[test]
fn presets_load_onto_the_target() {
    let slots = models::registry();
    let p = preset("Tight", ModelKind::Snare);
    let m = Some(model(ModelKind::Snare));
    let at = session::slot_of(&slots, ModelKind::Snare).unwrap();
    assert_eq!(session::apply_preset(&p, &m, Target::Live, &slots), (LoadOnto::Slot(at), "Loaded “Tight”.".into()));
    assert_eq!(
        session::apply_preset(&p, &m, Target::Track(1), &slots),
        (LoadOnto::Track(1), "Loaded “Tight” onto track 2.".into())
    );
    assert_eq!(
        session::apply_preset(&p, &None, Target::Live, &slots),
        (LoadOnto::Nothing, "Can't load “Tight”: unknown model “snare”.".into())
    );
    let g = preset("G", ModelKind::InstrumentGraph);
    assert_eq!(session::apply_preset(&g, &Some(model(ModelKind::InstrumentGraph)), Target::Live, &slots).0, LoadOnto::NewSlot);
    let mut kit = Preset::capture_kit("K", Vec::new());
    session::add_zone(&mut kit.zones, &model(ModelKind::Snare), EngineParams::default());
    assert_eq!(
        session::apply_preset(&kit, &None, Target::Track(0), &slots),
        (LoadOnto::Keyboard, "Loaded kit “K” (1 zones) onto the keyboard.".into())
    );
    assert_eq!(session::kind_label(&kit, &slots), "🥁 Kit (1)");
    assert_eq!(session::kind_label(&p, &slots), "Snare");
    assert_eq!(session::kind_label(&g, &slots), "instrument_graph");
}

#[test]
fn deletions_are_reported() {
    assert_eq!(session::delete_status("X", &Ok(true)), "Deleted “X”.");
    assert_eq!(session::delete_status("X", &Ok(false)), "“X” not found.");
    assert_eq!(session::delete_status("X", &Err("locked".into())), "Delete failed: locked");
    let list = vec![preset("Warm Pluck", ModelKind::Snare)];
    assert!(session::can_delete(&list, " warm PLUCK "));
    assert!(!session::can_delete(&list, "warm"));
    assert!(session::same_ignoring_case("aZ1", "Az1"));
    assert!(!session::same_ignoring_case("ä", "Ä"));
}

#[test]
fn kits_are_put_together() {
    let mut zones = Vec::new();
    session::enter_kit_mode(&mut zones, &model(ModelKind::Snare), EngineParams::default());
    session::enter_kit_mode(&mut zones, &model(ModelKind::Cymbal), EngineParams::default());
    assert_eq!(zones.len(), 1);
    let z = &mut zones[0];
    assert_eq!((z.lo, z.hi, z.model_id.as_str(), z.name.as_str()), (0, 127, "snare", "Snare"));
    z.set_lo(36);
    z.set_hi(200);
    assert_eq!((z.lo, z.hi), (36, 127));
    z.set_pad(true);
    assert_eq!(z.fixed_note, Some(36));
    z.set_pad_note(-4);
    assert_eq!(z.fixed_note, Some(0));
    assert_eq!(session::zone_title(z), "Snare  ·  C2–G9  ·  Snare (pad C-1)");
    assert_eq!(session::zone_line(z), "Snare  ·  C2–G9  ·  snare  ·  pad → C-1");
    z.set_pad(false);
    z.transpose = -12;
    assert_eq!(session::zone_line(z), "Snare  ·  C2–G9  ·  snare  ·  -12 st");
    z.transpose = 7;
    assert_eq!(session::zone_title(z), "Snare  ·  C2–G9  ·  Snare (+7 st)");
    z.transpose = 0;
    assert_eq!(session::zone_line(z), "Snare  ·  C2–G9  ·  snare  ·  chromatic");
    assert!(!z.set_model(ModelKind::Snare, &json("{}")));
    assert!(z.set_model(ModelKind::Cymbal, &json(r#"{"size":1}"#)));
    assert_eq!(z.params, json(r#"{"size":1}"#));
    z.take_preset(&preset("Bell", ModelKind::MetalBell));
    assert_eq!((z.name.as_str(), z.model_id.as_str()), ("Bell", "metal_bell"));
    assert!(session::remove_zone(&mut zones, 0));
    assert!(!session::remove_zone(&mut zones, 0));
    session::add_zone(&mut zones, &model(ModelKind::Snare), EngineParams::default());
    session::clear_zones(&mut zones);
    assert!(zones.is_empty());
}

#[test]
fn the_surface_shows_the_transport() {
    assert_eq!(TransportState::Playing.lights(), (21, 0));
    assert_eq!(TransportState::Recording.lights(), (21, 5));
    assert_eq!(TransportState::Idle.lights(), (0, 0));
    assert!(TransportState::Recording.is_rolling() && !TransportState::Stopped.is_rolling());
    assert_eq!((0..5).map(session::encoder_knob).collect::<Vec<_>>(), vec![
        Some(Knob::Gain),
        Some(Knob::Attack),
        Some(Knob::Release),
        Some(Knob::Retrigger),
        None
    ]);
}

#[test]
fn models_are_found_by_their_id() {
    let all = models::registry();
    assert_eq!(all.len(), 9);
    assert_eq!(models::default_model().id(), "musical_string");
    for k in all {
        assert_eq!(models::model_from_id(k.id()), Some(k));
        assert!(!k.display_name().is_empty() && !k.description().is_empty());
    }
    for id in ["instrument_graph", "graph_string", "graph_plate", "graph_drum", "graph_musical_string", "bodied_string"] {
        assert_eq!(models::model_from_id(id).unwrap().id(), id);
    }
    assert_eq!(models::model_from_id("kit"), None);
    assert_eq!(PitchMode::default(), PitchMode::Physical);
}

#[test]
fn banks_hold_no_more_than_a_voice_does() {
    let mut b = ModeBuffer::default();
    for _ in 0..MAX_MODES + 5 {
        b.push(s(440.0), s(1.0), s(4.0));
    }
    assert_eq!(b.len(), 512);
    b.sustain = true;
    b.clear();
    assert_eq!((b.len(), b.sustain, b.noise_level), (0, false, s(0.0)));
    assert_eq!((b.noise_hp, b.noise_lp), (s(20.0), s(20_000.0)));
    assert_eq!([0, 1, 512, 600].map(models::mode_count), [1, 1, 512, 512]);
}

#[test]
fn waves_sum_their_partials() {
    let t = BasicWave { waveform: Waveform::Triangle, harmonics: 3, decay_time: s(1.0) };
    assert_eq!(t.partials(), vec![(1, true), (3, false), (5, true)]);
    let w = BasicWave { waveform: Waveform::Saw, ..t };
    assert_eq!(w.partials(), vec![(1, true), (2, false), (3, true)]);
    assert_eq!(BasicWave { harmonics: 0, ..t }.partials().len(), 1);
}

#[test]
fn horns_are_solved_on_their_grid() {
    let h = WebsterHorn::default();
    assert_eq!(h.grid(), Grid { steps: 80, unknowns: 79, first: 1 });
    let b = WebsterHorn { boundary: Boundary::Brass, resolution: 9000, ..h };
    assert_eq!(b.grid(), Grid { steps: 512, unknowns: 512, first: 0 });
    assert_eq!(WebsterHorn { resolution: 0, ..h }.grid().steps, 16);
    assert_eq!([0, 1, 40, 80].map(|p| h.blown_at(p)), [0, 0, 39, 78]);
    assert_eq!([0, 511, 512].map(|p| b.blown_at(p)), [0, 511, 511]);
    assert_eq!(h.kept_modes(60), 24);
    assert_eq!(h.kept_modes(5), 5);
    assert_eq!(WebsterHorn { depth: 400, ..h }.kept_modes(79), 26);
    assert_eq!(webster_horn::default_wavefront(), Wavefront::Planar);
    assert_eq!(webster_horn::default_playmode(), PlayMode::Chromatic);
}

#[test]
fn exciters_say_how_and_where() {
    let e = StrikeExciter { position: s(1.5) }.excite(s(0.8));
    assert_eq!(e, Excitation { kind: ExcitationKind::Struck, position: s(1.0), strength: s(0.8) });
    let p = PluckExciter { position: s(-0.5), play_magnitude: s(0.0), max_magnitude: s(2500.0), bowed: false };
    assert_eq!(p.excite(s(0.3)), Excitation { kind: ExcitationKind::Plucked, position: s(0.0), strength: s(0.3) });
    assert_eq!(PluckExciter { bowed: true, ..p }.excite(s(0.3)).kind, ExcitationKind::Bowed);
}

#[test]
fn panels_show_and_set_what_is_there() {
    let mut m = PureString::default();
    let c = m.controls();
    assert_eq!(c.len(), 12);
    assert_eq!((c[0].label, c[0].suffix, c[0].section), ("Length", " m", "String (physical)"));
    match c[0].scale {
        Scale::Slider { lo, hi, log } => assert_eq!((lo, hi, log), (s(0.1), s(2.0), false)),
        _ => panic!("a slider"),
    }
    assert_eq!(c[5].reading, Reading::Pluck);
    m.set_setting(Field::LengthM, Amount::Number(s(0.9)));
    assert_eq!(m.get_setting(Field::LengthM), Some(Amount::Number(s(0.9))));
    m.set_setting(Field::LengthM, Amount::Flag(true));
    assert_eq!(m.length_m, s(0.9));
    m.set_setting(Field::Excitation, Amount::Choice(1));
    assert_eq!(m.get_setting(Field::Excitation), Some(Amount::Choice(1)));
    assert_eq!(m.get_setting(Field::Shimmer), None);

    let mut h = WebsterHorn::default();
    let n = h.controls().len();
    h.set_setting(Field::PlayMode, Amount::Choice(2));
    assert_eq!(h.controls().len(), n + 3);
    h.set_setting(Field::ValveSteps, Amount::Count(40));
    assert_eq!(h.valve_steps, 12);

    let drum = DrumMembrane::default().controls();
    assert!(drum.iter().any(|c| matches!(c.scale, Scale::Slider { log: true, .. })));
    assert_eq!(Cymbal::default().controls().len(), 8);
    assert_eq!(EngineParams::default().controls().len(), 4);
    let mut e = EngineParams::default();
    e.set_setting(Field::Gain, Amount::Number(s(2.0)));
    assert_eq!(e.gain, s(2.0));
}

#[test]
fn every_component_has_a_panel_that_fits() {
    for (_, a) in synth_rs::models::menu::panel_menu() {
        let c = a.make();
        for k in c.controls() {
            let v = c.get_setting(k.field).unwrap();
            let ok = match (k.scale, v) {
                (Scale::Slider { .. } | Scale::Pitch, Amount::Number(_)) => true,
                (Scale::Count { .. }, Amount::Count(_)) => true,
                (Scale::Toggle, Amount::Flag(_)) => true,
                (Scale::Choice { .. }, Amount::Choice(_)) => true,
                _ => false,
            };
            assert!(ok, "{} of {}", k.label, c.label());
        }
    }
    let mut horn = Addable::WaveguideHorn.make();
    horn.set_setting(Field::Segments, Amount::Count(1000));
    assert!(matches!(horn, Comp::WaveguideHorn { segments: 64, .. }));
    assert!(Comp::Mix.controls().is_empty());
}

#[test]
fn places_are_put_into_words() {
    for v in [0.0f32, 0.05, 0.08, 0.0801, 0.2, 0.4799, 0.48, 0.4801, 0.5, 0.52, 0.5201, 0.7, 0.9, 0.9001, 0.92, 0.95, 1.0] {
        let x = v as f64;
        let want = if (x - 0.5).abs() < 0.02 {
            Some("center (triangle)")
        } else if x < 0.08 || x > 0.92 {
            Some("near end (saw)")
        } else {
            None
        };
        assert_eq!(pluck_reading(s(v)), want, "{v}");
        let want = if x < 0.05 {
            Some("centre")
        } else if x > 0.9 {
            Some("rim")
        } else {
            None
        };
        assert_eq!(strike_reading(s(v)), want, "{v}");
    }
}
