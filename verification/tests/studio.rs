//! The studio: arrangement, transport, MIDI, keyboard, projects and export.

use synth_rs::arrangement::{
    double_click, hit_clip, left_limit, move_limits, right_limit, Arrangement, ClipHit, ClipSpan, Command, Drag,
    DragKind, Pointer, Press, RangeAction, Shown,
};
use synth_rs::export;
use synth_rs::export::{ExportError, Section};
use synth_rs::instrument::EngineParams;
use synth_rs::keyboard::{
    black_after, black_key, clamp_note, key_to_semitone, note_name, signed_text, white_key, KeyAction, KeyEvent,
    Keyboard,
};
use synth_rs::midi;
use synth_rs::midi::{DawMonitor, MidiAction, NoteMonitor, Transport};
use synth_rs::project;
use synth_rs::project::{NoteEvent, Project, SongData, TempoGrid, TrackData, ZoneData};
use synth_rs::single::Single;
use synth_rs::wav;

fn s(x: f32) -> Single {
    Single { bits: x.to_bits() }
}

fn json(text: &str) -> serde_json::Value {
    serde_json::from_str(text).unwrap()
}

fn track(name: &str, model_id: &str, params: &str, events: Vec<NoteEvent>) -> TrackData {
    TrackData {
        name: name.into(),
        model_id: model_id.into(),
        params: json(params),
        engine: EngineParams::default(),
        muted: false,
        volume: s(1.0),
        pan: s(0.0),
        fade_in: s(0.0),
        fade_out: s(0.0),
        period: None,
        start: None,
        span: None,
        zones: Vec::new(),
        automation: Vec::new(),
        events,
    }
}

fn song(length: f32, tracks: Vec<TrackData>) -> SongData {
    SongData { length: s(length), arrangement: Vec::new(), tracks }
}

fn note(t: f32, on: bool, note: u8, vel: f32) -> NoteEvent {
    NoteEvent { t: s(t), on, note, vel: s(vel) }
}

#[test]
fn renders_a_loop_with_the_expected_length() {
    let mut data = song(0.1, vec![track("T", "musical_string", "{}", vec![note(0.0, true, 60, 1.0)])]);
    let loop_frames = (0.1 * 48_000.0) as usize;
    let total = export::render_loop_to_wav(&mut data, loop_frames, 3, false).unwrap();
    let tail = (0.2 * 48_000.0) as usize;
    let bytes = wav::pcm16_mono(48_000, &vec![0i16; total + tail]);
    let expected_samples = ((0.1 * 3.0 + 0.2) * 48_000.0) as usize;
    assert_eq!(bytes.len(), 44 + expected_samples * 2);
    assert!(&bytes[0..4] == b"RIFF");
}

#[test]
fn hi_res_maxes_horn_resolution() {
    let mut data = song(0.1, vec![track("H", "webster_horn", r#"{ "resolution": 64 }"#, Vec::new())]);
    export::apply_hi_res(&mut data);
    assert_eq!(data.tracks[0].params["resolution"], json("512"));
}

#[test]
fn hi_res_reaches_zones_and_spares_the_rest() {
    let mut t = track("K", "kit", "null", Vec::new());
    t.zones.push(ZoneData {
        name: "h".into(),
        lo: 0,
        hi: 127,
        fixed_note: None,
        transpose: 0,
        model_id: "webster_horn".into(),
        params: json(r#"{"depth":9}"#),
        engine: EngineParams::default(),
    });
    let mut data = song(1.0, vec![t, track("S", "snare", r#"{"resolution":3}"#, Vec::new()), track("N", "webster_horn", "null", Vec::new())]);
    export::apply_hi_res(&mut data);
    assert_eq!(data.tracks[0].zones[0].params, json(r#"{"depth":9,"resolution":512}"#));
    assert_eq!(data.tracks[1].params, json(r#"{"resolution":3}"#));
    assert!(data.tracks[2].params.is_null());
}

#[test]
fn empty_songs_are_not_rendered() {
    let mut none = song(1.0, Vec::new());
    assert_eq!(export::render_loop_to_wav(&mut none, 10, 1, false), Err(ExportError::NothingToExport));
    assert_eq!(ExportError::NothingToExport.message(), "nothing to export");
    assert_eq!(export::render_song_to_wav(&mut Vec::new(), true), Err(ExportError::EmptyArrangement));
    assert_eq!(ExportError::EmptyArrangement.message(), "empty arrangement");
    assert_eq!(export::export_path("my take!"), "my_take_.wav");
    assert_eq!(export::export_path("  "), "export.wav");
}

#[test]
fn every_section_of_a_song_is_rendered_in_high_quality() {
    let horn = |resolution: &str| song(1.0, vec![track("H", "webster_horn", resolution, Vec::new())]);
    let parts = || {
        vec![
            Section { data: horn(r#"{"resolution":64}"#), frames: 100, repeats: 0 },
            Section { data: song(1.0, Vec::new()), frames: usize::MAX, repeats: 1 },
            Section { data: horn("{}"), frames: 50, repeats: 4 },
        ]
    };
    let mut plain = parts();
    plain.remove(1);
    assert_eq!(export::render_song_to_wav(&mut plain, false), Ok(300));
    assert_eq!(plain[0].data.tracks[0].params, json(r#"{"resolution":64}"#));
    assert_eq!(plain[1].data.tracks[0].params, json("{}"));

    let mut fine = parts();
    assert_eq!(export::render_song_to_wav(&mut fine, true), Ok(usize::MAX), "kept from overflowing");
    assert_eq!(fine[0].data.tracks[0].params, json(r#"{"resolution":512}"#));
    assert!(fine[1].data.tracks.is_empty());
    assert_eq!(fine[2].data.tracks[0].params, json(r#"{"resolution":512}"#));
    assert_eq!((fine[2].frames, fine[2].repeats), (50, 4));
}

#[test]
fn projects_capture_the_studio() {
    let mut p = Project::untitled(TempoGrid::default());
    assert_eq!(p.name, "Untitled");
    let groove = song(2.0, vec![track("Track 1", "musical_string", "{}", vec![note(0.0, true, 60, 0.9), note(0.5, false, 60, 0.0)])]);
    assert_eq!(groove.note_count(), 1);
    p.capture("  My Song ", Some(groove));
    assert_eq!(p.name, "My Song");
    assert_eq!(p.loops.len(), 1);
    assert_eq!(p.loops[0].name, "My Song");
    assert_eq!(p.loops[0].data.note_count(), 1);
    p.capture(" ", None);
    assert_eq!((p.name.as_str(), p.loops.len()), ("Untitled", 1));
    p.capture("x", Some(SongData::default()));
    assert!(p.loops.is_empty());
    assert_eq!(project::file_name("My Song"), "My_Song.json");
    assert_eq!(project::file_stem("///"), "___");
    assert_eq!(project::file_stem(""), "project");
    assert_eq!([0, 1, 2, 3, 4, 9].map(project::quantize_name), ["Off", "1/4", "1/8", "1/8T", "1/16", "?"]);
    let t = TempoGrid::default();
    assert_eq!((t.bpm, t.beats_per_bar, t.bars, t.quantize), (s(120.0), 4, 0, 0));
}

#[test]
fn project_names_are_listed_in_order() {
    let found = vec![
        project::Listing { file: "z.json".into(), project: Some("Zed".into()) },
        project::Listing { file: "a.json".into(), project: Some("alpha".into()) },
        project::Listing { file: "b.txt".into(), project: Some("Beta".into()) },
        project::Listing { file: "c.json".into(), project: None },
        project::Listing { file: "d.json".into(), project: Some("Delta".into()) },
    ];
    assert_eq!(project::list(&found), vec!["alpha", "Delta", "Zed"]);
}

#[test]
fn midi_messages_are_decoded() {
    let mut m = NoteMonitor::default();
    let mut handle = |b: [u8; 3]| midi::handle_message(&b.to_vec(), &mut m);
    assert_eq!(handle([0x90, 60, 100]), Some(MidiAction::NoteOn { note: 60, vel: 100 }));
    assert_eq!(handle([0x93, 61, 0]), Some(MidiAction::NoteOff { note: 61 }));
    assert_eq!(handle([0x80, 60, 64]), Some(MidiAction::NoteOff { note: 60 }));
    assert_eq!(handle([0xB0, 123, 0]), Some(MidiAction::AllNotesOff));
    for cc in [1, 2, 11] {
        assert_eq!(handle([0xB0, cc, 77]), Some(MidiAction::SetBreath { amount: 77 }));
    }
    assert_eq!(handle([0xB0, 7, 77]), None);
    assert_eq!(handle([0xD0, 33, 0]), Some(MidiAction::SetBreath { amount: 33 }));
    assert_eq!(handle([0xE0, 0, 64]), Some(MidiAction::SetBend { offset: 0 }));
    assert_eq!(handle([0xE0, 127, 127]), Some(MidiAction::SetBend { offset: 8191 }));
    assert_eq!(handle([0xE0, 0, 0]), Some(MidiAction::SetBend { offset: -8192 }));
    assert_eq!(handle([0xF8, 0, 0]), None);
    assert_eq!(m.latest(), (1, 60));
    assert_eq!(midi::handle_message(&vec![0x90, 60], &mut m), None);
}

#[test]
fn the_monitor_counts_notes() {
    let mut m = NoteMonitor::default();
    assert_eq!(m.latest(), (0, 0));
    m.record(64);
    m.record(64);
    assert_eq!(m.latest(), (2, 64));
    let mut late = NoteMonitor { word: 0xFFFF_FF3C };
    late.record(61);
    assert_eq!(late.latest(), (0, 61));
}

#[test]
fn surface_messages_drive_the_transport_and_are_logged() {
    let mut log = DawMonitor::new();
    assert_eq!(midi::handle_daw_message(&vec![0xBF, 0x73, 127], &mut log), Some(Transport::Stop));
    assert_eq!(midi::handle_daw_message(&vec![0xBF, 0x74, 1], &mut log), Some(Transport::Play));
    assert_eq!(midi::handle_daw_message(&vec![0xBF, 0x75, 127], &mut log), Some(Transport::Record));
    assert_eq!(midi::handle_daw_message(&vec![0xBF, 0x75, 0], &mut log), None);
    assert_eq!(midi::handle_daw_message(&vec![0x90, 0x24, 9], &mut log), None);
    assert_eq!(midi::handle_daw_message(&vec![0x90], &mut log), None);
    let lines = log.lines();
    assert_eq!(lines.len(), 5);
    assert_eq!(lines[0], "ch16 CC        num=115 (0x73)  val=127");
    assert_eq!(lines[4], "ch1  note-on   num= 36 (0x24)  val=  9");
    for _ in 0..60 {
        log.push("x".into());
    }
    assert_eq!(log.lines().len(), 40);
    log.clear();
    assert!(log.lines().is_empty());
}

#[test]
fn encoders_report_their_position() {
    assert_eq!(midi::encoder_moved(&vec![0xBF, 0x15, 64]), Some((0, 64)));
    assert_eq!(midi::encoder_moved(&vec![0xBF, 0x1C, 0]), Some((7, 0)));
    assert_eq!(midi::encoder_moved(&vec![0xBF, 0x1D, 64]), None);
    assert_eq!(midi::encoder_moved(&vec![0xBF, 0x14, 64]), None);
    assert_eq!(midi::encoder_moved(&vec![0xB0, 0x15, 64]), None);
    assert_eq!(midi::encoder_moved(&vec![0xBF, 0x15]), None);
}

#[test]
fn the_surface_ports_are_found() {
    let names = |v: &[&str]| v.iter().map(|x| x.to_string()).collect::<Vec<String>>();
    let ports = names(&["Piano", "Launchkey MK4 49 MIDI", "LAUNCHKEY MK4 49 DAW"]);
    assert_eq!(
        midi::find_launchkey_ports(&ports),
        Some(("Launchkey MK4 49 MIDI".into(), "LAUNCHKEY MK4 49 DAW".into()))
    );
    let lone = names(&["Launch Key daw"]);
    assert_eq!(midi::find_launchkey_ports(&lone), Some(("Launch Key daw".into(), "Launch Key daw".into())));
    assert_eq!(midi::find_launchkey_ports(&names(&["Launchkey MIDI"])), None);
    assert!(midi::is_launchkey_daw("Launchkey DAW"));
    assert!(!midi::is_launchkey_daw("Other DAW"));
    assert_eq!(midi::port_by_name(&ports, "Piano"), Some(0));
    assert_eq!(midi::port_by_name(&ports, "piano"), None);
}

fn key(key: char, down: bool) -> KeyEvent {
    KeyEvent { key, down, repeat: false, command: false, shift: false }
}

#[test]
fn keys_play_and_let_go() {
    let mut k = Keyboard::new();
    assert_eq!(k.base, 60);
    assert_eq!(k.key_event(key('A', true)), KeyAction::NoteOn(60));
    assert_eq!(k.key_event(key('A', true)), KeyAction::Nothing);
    assert_eq!(k.key_event(KeyEvent { repeat: true, ..key('S', true) }), KeyAction::Nothing);
    assert_eq!(k.key_event(key('X', true)), KeyAction::Nothing);
    assert_eq!(k.base, 72);
    assert_eq!(k.key_event(key('K', true)), KeyAction::NoteOn(84));
    assert_eq!(k.key_event(key('A', false)), KeyAction::NoteOff(60), "the note struck, not the key's new one");
    assert!(k.is_down(84) && !k.is_down(60));
    assert_eq!(k.key_event(KeyEvent { command: true, ..key('Z', true) }), KeyAction::Undo);
    assert_eq!(k.key_event(KeyEvent { command: true, shift: true, ..key('Z', true) }), KeyAction::Redo);
    assert_eq!(k.let_go(), vec![84]);
    assert!(!k.is_down(84));
    for _ in 0..20 {
        k.octave_down();
    }
    assert_eq!(k.base, 0);
    for _ in 0..20 {
        k.octave_up();
    }
    assert_eq!(k.base, 108);
    assert_eq!(k.key_event(key('L', true)), KeyAction::NoteOn(122));
    assert_eq!(k.key_event(key('Q', true)), KeyAction::Nothing);
}

#[test]
fn the_mouse_plays_one_note_at_a_time() {
    let mut k = Keyboard::new();
    assert_eq!(k.mouse_event(Some(60), true), (None, Some(60)));
    assert_eq!(k.mouse_event(Some(60), true), (None, None));
    assert_eq!(k.mouse_event(Some(62), true), (Some(60), Some(62)));
    assert_eq!(k.mouse_event(None, true), (Some(62), None));
    assert_eq!(k.mouse_event(Some(64), true), (None, Some(64)));
    assert_eq!(k.mouse_event(Some(64), false), (Some(64), None));
}

#[test]
fn notes_have_names_and_places() {
    assert_eq!([0u8, 21, 60, 61, 127].map(note_name), ["C-1", "A0", "C4", "C#4", "G9"]);
    assert_eq!(signed_text(-12), "-12");
    assert_eq!([-5, 60, 200].map(clamp_note), [0, 60, 127]);
    assert_eq!(key_to_semitone('A'), Some(0));
    assert_eq!(key_to_semitone('L'), Some(14));
    assert_eq!(key_to_semitone('P'), None);
    let whites: Vec<u8> = (0..7).map(|w| white_key(60, w).unwrap()).collect();
    assert_eq!(whites, vec![60, 62, 64, 65, 67, 69, 71]);
    let blacks: Vec<u8> = (0..5).map(|k| black_key(60, 0, k)).collect();
    assert_eq!(blacks, vec![61, 63, 66, 68, 70]);
    assert_eq!((0..5).map(black_after).collect::<Vec<_>>(), vec![0, 1, 3, 4, 5]);
    assert_eq!(white_key(60, -1), None);
    assert_eq!(white_key(60, 14), None);
}

fn span(track: usize, start: f32, end: f32) -> ClipSpan {
    ClipSpan { track, start: s(start), end: s(end), length: s(end - start) }
}

fn press_at(time: f32) -> Press {
    Press { time: s(time), anchor: s(time), grab: s(0.5), len: s(2.0) }
}

#[test]
fn clips_are_gripped_by_edge_handle_or_body() {
    let c = ClipHit { track: 0, start: s(0.0), end: s(4.0), right_from: s(3.75), left_to: s(0.25), from_centre: s(0.1) };
    let at = |t: f32, upper: bool| Pointer { lane: Some(0), time: s(t), upper, handle: s(0.3) };
    assert_eq!(hit_clip(&vec![c], at(3.9, false)), Some((0, DragKind::ResizeR)));
    assert_eq!(hit_clip(&vec![c], at(0.1, false)), Some((0, DragKind::ResizeL)));
    assert_eq!(hit_clip(&vec![c], at(2.0, true)), Some((0, DragKind::Move)));
    assert_eq!(hit_clip(&vec![c], at(2.0, false)), Some((0, DragKind::Select)));
    assert_eq!(hit_clip(&vec![c, c], at(2.0, false)), Some((1, DragKind::Select)), "the topmost");
    assert_eq!(hit_clip(&vec![c], at(5.0, false)), None);
    assert_eq!(hit_clip(&vec![c], Pointer { lane: None, ..at(2.0, false) }), None);
}

#[test]
fn drags_place_clips() {
    let clips = vec![span(0, 0.0, 2.0), span(0, 4.0, 6.0), span(1, 1.0, 3.0)];
    let mut a = Arrangement::new();
    assert_eq!(a.press(Some((0, DragKind::Move)), &clips, false, false, press_at(0.5)), None);
    assert_eq!(a.drag, Some(Drag { clip: 0, kind: DragKind::Move, a: s(0.0), b: s(2.0) }));
    assert_eq!((a.clips.clone(), a.track, a.grab), (vec![0], Some(0), s(0.5)));
    a.drag_to(s(1.0), s(2.0), (s(0.0), s(0.0)));
    assert_eq!(a.shown(0), Shown::Dragged { start: s(1.0), length: s(2.0), trimmed: false });
    assert_eq!(a.shown(1), Shown::InPlace);
    let told = a.release(&clips, &vec![s(1.0), s(5.0), s(2.0)], s(0.0));
    assert_eq!(told, vec![Command::SetClip { index: 0, start: s(1.0), length: s(2.0) }]);
    a.press(Some((1, DragKind::ResizeL)), &clips, false, true, press_at(4.0));
    assert_eq!(a.clips, vec![0, 1]);
    a.drag_to(s(4.5), s(1.5), (s(0.0), s(0.0)));
    assert_eq!(a.shown(1), Shown::Dragged { start: s(4.5), length: s(1.5), trimmed: true });
    let told = a.release(&clips, &vec![s(0.0); 3], s(0.5));
    assert_eq!(told, vec![Command::SetClipTrim { index: 1, start: s(4.5), length: s(1.5), offset: s(0.5) }]);
    a.press(Some((0, DragKind::Move)), &clips, false, false, press_at(0.5));
    assert_eq!(a.shown(1), Shown::Following { leader: 0, start: s(0.0) });
    assert_eq!(a.press(None, &clips, true, false, press_at(7.0)), Some(Command::Seek { t: s(7.0) }));
    assert!(a.seeking && a.drag.is_none());
}

#[test]
fn ranges_are_acted_on() {
    let clips = vec![span(0, 0.0, 2.0), span(0, 4.0, 6.0)];
    let mut a = Arrangement::new();
    a.press(Some((1, DragKind::Select)), &clips, false, false, press_at(4.5));
    assert_eq!(a.act_on_range(RangeAction::Crop), None, "an empty range");
    a.drag_to(s(0.0), s(5.5), (s(4.5), s(5.5)));
    assert_eq!(a.range, Some((1, s(4.5), s(5.5))));
    assert!(a.release(&clips, &vec![s(0.0); 2], s(0.0)).is_empty());
    let mut b = Arrangement { clips: a.clips.clone(), range: a.range, track: a.track, drag: None, grab: a.grab, seeking: false };
    assert_eq!(a.act_on_range(RangeAction::Loop), Some(Command::LoopClipRange { index: 1, a: s(4.5), b: s(5.5) }));
    assert_eq!((a.range, a.clips.clone()), (None, vec![1]));
    assert_eq!(b.act_on_range(RangeAction::Delete), Some(Command::SplitDeleteClip { index: 1, a: s(4.5), b: s(5.5) }));
    assert!(b.clips.is_empty());
    assert_eq!(a.delete_clip(), Some(Command::RemoveClip { index: 1 }));
    assert_eq!(a.delete_clip(), None);
}

#[test]
fn clips_do_not_pass_their_neighbours() {
    let clips = vec![span(0, 0.0, 2.0), span(0, 4.0, 6.0), span(1, 2.5, 3.0)];
    assert_eq!(right_limit(&clips, 0), s(4.0));
    assert_eq!(right_limit(&clips, 1), s(f32::INFINITY));
    assert_eq!(left_limit(&clips, 1, s(6.0)), s(2.0));
    let latest: Vec<Single> = clips.iter().map(|c| s(f32::from_bits(c.start.bits) - 2.0)).collect();
    assert_eq!(move_limits(&clips, &latest, &vec![1], 1, s(6.0)), (s(2.0), s(f32::INFINITY)));
    assert_eq!(move_limits(&clips, &latest, &vec![0], 0, s(2.0)), (s(0.0), s(2.0)));
}

#[test]
fn limits_are_those_of_the_nearest_clip() {
    let clips = vec![
        span(0, 9.0, 10.0),
        span(0, 1.0, 2.0),
        span(0, 4.0, 5.0),
        span(0, 6.0, 7.0),
        span(0, 0.0, 0.5),
        span(1, 5.0, 6.0),
    ];
    assert_eq!(right_limit(&clips, 2), s(6.0), "not 9, and not the other track's 5");
    assert_eq!(left_limit(&clips, 2, s(5.0)), s(2.0), "not 0.5");
    assert_eq!(left_limit(&clips, 4, s(0.5)), s(0.0));
    let mut latest: Vec<Single> = clips.iter().map(|c| s(f32::from_bits(c.start.bits) - 1.0)).collect();
    assert_eq!(move_limits(&clips, &latest, &Vec::new(), 2, s(5.0)), (s(2.0), s(5.0)));
    assert_eq!(move_limits(&clips, &latest, &vec![2, 3], 2, s(5.0)), (s(2.0), s(8.0)), "3 moves along");
    latest[3] = s(f32::NAN);
    assert_eq!(move_limits(&clips, &latest, &Vec::new(), 2, s(5.0)), (s(2.0), s(8.0)));
}

#[test]
fn clicks_select_and_double_clicks_add() {
    let clips = vec![span(0, 0.0, 2.0), span(1, 4.0, 6.0)];
    let mut a = Arrangement::new();
    assert_eq!(a.click(Some((1, DragKind::Select)), &clips, Some(1), false, false, s(5.0)), None);
    assert_eq!((a.clips.clone(), a.track), (vec![1], Some(1)));
    a.click(Some((0, DragKind::Select)), &clips, Some(0), false, true, s(1.0));
    assert_eq!(a.clips, vec![1, 0]);
    a.click(Some((1, DragKind::Select)), &clips, Some(1), false, true, s(5.0));
    assert_eq!(a.clips, vec![0]);
    assert_eq!(a.click(None, &clips, None, true, false, s(3.0)), Some(Command::Seek { t: s(3.0) }));
    a.click(None, &clips, Some(1), false, false, s(3.0));
    assert_eq!((a.clips.len(), a.track), (0, Some(1)));
    let periods = vec![s(1.5)];
    assert_eq!(double_click(None, Some(0), s(-0.5), &periods), Some(Command::AddClip { track: 0, start: s(0.0), length: s(1.5) }));
    assert_eq!(double_click(None, Some(3), s(2.0), &periods), Some(Command::AddClip { track: 3, start: s(2.0), length: s(0.0) }));
    assert_eq!(double_click(Some((0, DragKind::Move)), Some(0), s(2.0), &periods), None);
    assert_eq!(double_click(None, None, s(2.0), &periods), None);
}

#[test]
fn selected_clips_go_from_the_last() {
    let mut a = Arrangement::new();
    a.clips = vec![2, 5, 0];
    a.forget_missing(5);
    assert_eq!(a.clips, vec![2, 0]);
    a.clips = vec![1, 4, 2];
    let told = a.delete_clips();
    assert_eq!(told, [4, 2, 1].map(|index| Command::RemoveClip { index }).to_vec());
    assert!(a.clips.is_empty());
    assert_eq!(a.panel_track(0), None);
    assert_eq!(a.panel_track(3), Some(0));
    a.track = Some(2);
    assert_eq!(a.panel_track(3), Some(2));
    assert_eq!(a.panel_track(2), Some(0));
    a.track_deleted();
    assert_eq!(a.track, None);
}
