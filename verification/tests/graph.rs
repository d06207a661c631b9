//! Instrument graphs: wiring, layout, key maps, voices and the node editor.

use synth_rs::graph::{DelayLine, Graph, ImpulseExciter};
use synth_rs::graph_editor::{isolate, node_color, GeSel, GeState, Ship, Tint};
use synth_rs::layering;
use synth_rs::models::blueprint::Blueprint;
use synth_rs::models::comp::{Comp, Param};
use synth_rs::models::edits::{BindingEdit, Edit, Strategy};
use synth_rs::models::instrument_graph::{Edge, InstrumentGraph};
use synth_rs::models::key_map::{drive_binding, KeyBinding, KeyMapKind, KeyNumbers};
use synth_rs::models::menu::{add_menu, panel_menu, Addable, Group};
use synth_rs::models::pure_string::PureString;
use synth_rs::models::tuning::{alone, Heard, Trial, Tuner};
use synth_rs::panel::{Amount, Field};
use synth_rs::single::Single;

fn s(x: f32) -> Single {
    Single { bits: x.to_bits() }
}

fn edge(from: usize, to: usize, gain: f32) -> Edge {
    Edge { from, to, gain: s(gain) }
}

fn power(component: usize, param: &str, amount: f32) -> KeyBinding {
    KeyBinding { component, map: KeyMapKind::Power { param: param.into(), amount: s(amount) } }
}

fn reed_loop() -> InstrumentGraph {
    InstrumentGraph {
        components: vec![
            Comp::Reed { pressure: s(0.9), stiffness: s(1.0), freq_hz: s(0.0) },
            Comp::Bore { tone: s(1.0), length: s(0.0) },
            Comp::Mix,
        ],
        edges: vec![edge(0, 1, 1.0), edge(1, 0, 1.0), edge(1, 2, 1.0)],
        output: 2,
        key_map: Vec::new(),
    }
}

#[test]
fn remove_component_reindexes_everything() {
    let mut g = InstrumentGraph::default();
    g.key_map.push(power(2, "top_hz", 1.0));
    g.remove_component(1);
    assert_eq!(g.components.len(), 3, "one fewer component");
    assert!(g.edges.iter().all(|e| e.from < 3 && e.to < 3), "no dangling indices");
    assert!(g.edges.iter().any(|e| e.from == 1 && e.to == 2), "(2→3) became (1→2)");
    assert_eq!(g.output, 2, "output 3 shifted to 2");
    assert_eq!(g.key_map[0].component, 1, "key target 2 shifted to 1");
    assert!(g.build_graph(&g.components).is_some(), "still builds");
}

#[test]
fn auto_layout_stays_on_canvas_with_feedback_loops() {
    let g = reed_loop();
    let cells = g.auto_layout();
    let layout: Vec<[f32; 2]> =
        cells.iter().map(|c| [40.0 + c.col as f32 * 175.0, 40.0 + c.row as f32 * 95.0]).collect();
    assert_eq!(layout.len(), 3);
    let max_x = 40.0 + g.components.len() as f32 * 175.0;
    for (i, p) in layout.iter().enumerate() {
        assert!(p[0] >= 0.0 && p[0] < max_x, "node {i} x={} off canvas", p[0]);
    }
    assert!(layout[0][0] < layout[1][0], "reed is left of the bore");
}

#[test]
fn layouts_flow_to_the_right() {
    let cells = layering::lay_out(4, &vec![(0, 1), (1, 2), (1, 3), (2, 3)]);
    let cols: Vec<usize> = cells.iter().map(|c| c.col).collect();
    assert_eq!(cols, vec![0, 1, 2, 3]);
    let cells = layering::lay_out(4, &vec![(3, 3), (0, 2), (1, 2), (9, 1)]);
    assert_eq!(cells.iter().map(|c| (c.col, c.row)).collect::<Vec<_>>(), vec![(0, 0), (0, 1), (1, 0), (0, 2)]);
    assert!(layering::lay_out(0, &vec![]).is_empty());
}

#[test]
fn voices_are_planned_from_the_wiring() {
    let g = InstrumentGraph::default();
    let p = g.build_graph(&g.components).unwrap();
    let driven: Vec<bool> = p.nodes.iter().map(|n| n.driven).collect();
    assert_eq!(driven, vec![false, false, true, true]);
    assert!(p.nodes.iter().all(|n| !n.own_pitch));
    assert_eq!(p.inputs[0], vec![]);
    assert_eq!(p.inputs[3].iter().map(|x| x.0).collect::<Vec<_>>(), vec![1, 2]);
    assert_eq!(p.output, 3);

    let mut broken = reed_loop();
    broken.output = 7;
    assert!(broken.build_graph(&broken.components).is_none());
    let mut banjo = reed_loop();
    banjo.components[2] = Comp::String(PureString::default());
    let p = banjo.build_graph(&banjo.components).unwrap();
    assert!(p.nodes[2].driven && p.nodes[2].own_pitch);
}

#[test]
fn repointing_output_auditions_that_component() {
    let mut g = InstrumentGraph::default();
    for out in 0..4 {
        g.output = out;
        assert_eq!(g.build_graph(&g.components).unwrap().output, out);
    }
}

#[test]
fn sine_probe_isolates_a_component() {
    let mut g = InstrumentGraph::default();
    g.key_map.push(power(1, "decay", -0.7));
    g.key_map.push(power(2, "top_hz", 1.0));
    let p = isolate(&g, 1);
    assert_eq!(p.components, vec![Comp::Sine { level: s(1.0) }, g.components[1], Comp::Mix]);
    assert_eq!(p.edges, vec![edge(0, 1, 1.0), edge(1, 2, 1.0)]);
    assert_eq!(p.output, 2);
    assert_eq!(p.key_map.len(), 1);
    assert_eq!(p.key_map[0].component, 1);
}

#[test]
fn key_map_drives_a_param() {
    let mut comps = vec![
        Comp::Strike,
        Comp::String(PureString { decay_time: s(3.0), hf_damping: s(0.0), ..PureString::default() }),
        Comp::Mix,
    ];
    assert_eq!(comps[1].read(Param::Decay), Some(s(3.0)));
    let x = KeyNumbers {
        scaled: s(0.75),
        low_register: true,
        below_range: false,
        register: 0,
        length: s(1.0),
        pressure: s(1.0),
        note: 60,
        tuned_length: s(1.0),
    };
    drive_binding(&mut comps, &power(1, "decay", -2.0), x);
    assert_eq!(comps[1].read(Param::Decay), Some(s(0.75)));
    let before = comps[1];
    drive_binding(&mut comps, &power(1, "colour", -2.0), x);
    drive_binding(&mut comps, &power(9, "decay", -2.0), x);
    assert_eq!(comps[1], before);
}

#[test]
fn parameters_read_back_what_is_written() {
    let mut c = Comp::String(PureString::default());
    assert_eq!(c.mappable(), vec![Param::Length, Param::Tension, Param::Decay]);
    c.write(Param::Tension, s(70.5));
    assert_eq!(c.read(Param::Tension), Some(s(70.5)));
    assert_eq!(c.read(Param::Radius), None);
    let mut p = Addable::PluckedString.make();
    p.write(Param::Decay, s(0.001));
    assert_eq!(p.read(Param::Decay), Some(s(0.05)), "no string decays faster");
    assert_eq!(Param::parse("top_hz"), Some(Param::TopHz));
    assert_eq!(Param::parse("Top"), None);
    assert_eq!(Param::TopHz.name(), "top_hz");
}

#[test]
fn reeds_overblow_by_their_bore() {
    let reed = |conical: bool, tract: f32| Comp::ReedBore {
        pressure: s(0.9),
        stiffness: s(1.0),
        length: s(1.0),
        tone: s(1.0),
        register: s(0.0),
        overblow: s(3.0),
        conical,
        tract_gain: s(tract),
        tract_q: s(0.0),
    };
    assert_eq!([0, 1, 2].map(|r| reed(false, 0.0).harmonic(r)), [1, 3, 3]);
    assert_eq!([0, 1, 2].map(|r| reed(true, 0.0).harmonic(r)), [1, 2, 2]);
    assert_eq!([0, 1, 2].map(|r| reed(false, 2.0).harmonic(r)), [1, 3, 5]);
    assert_eq!([0, 1, 2].map(|r| reed(true, 2.0).harmonic(r)), [1, 2, 3]);
    let mut c = reed(true, 0.0);
    c.set_reed_register(1, s(0.5));
    match c {
        Comp::ReedBore { length, register, overblow, .. } => {
            assert_eq!((length, register, overblow), (s(0.5), s(0.3), s(2.0)));
        }
        _ => panic!("still a reed"),
    }
}

#[test]
fn samples_travel_one_step_at_a_time() {
    let ig = reed_loop();
    let (mut g, nodes) = Graph::new(ig.build_graph(&ig.components).unwrap());
    assert_eq!(nodes.len(), 3);
    let mut heard = Vec::new();
    for step in 0..4 {
        let seen: Vec<f32> = (0..3)
            .map(|i| g.taps(i).iter().map(|(x, w)| f32::from_bits(x.bits) * f32::from_bits(w.bits)).sum())
            .collect();
        for i in 0..3 {
            let out = if i == 0 && step == 0 { 1.0 } else if i == 0 { 0.0 } else { seen[i] };
            g.give(i, s(out));
        }
        heard.push(f32::from_bits(g.finish().bits));
    }
    assert_eq!(heard, vec![0.0, 0.0, 1.0, 0.0]);
}

#[test]
fn impulses_strike_once() {
    let mut e = ImpulseExciter::new(s(0.8));
    assert_eq!(e.tick(), s(0.8));
    assert_eq!(e.tick(), s(0.0));
    assert_eq!(e.tick(), s(0.0));
}

#[test]
fn delay_lines_give_samples_back() {
    let mut d = DelayLine::new(4);
    for k in 1..=6 {
        d.write(s(k as f32));
    }
    assert_eq!(d.read(1), (s(6.0), s(3.0)));
    assert_eq!(d.read(2), (s(5.0), s(6.0)));
    assert_eq!(d.read(4), (s(3.0), s(4.0)));
    assert_eq!(DelayLine::new(2).read(2), (s(0.0), s(0.0)));
}

#[test]
fn the_editor_wires_selects_and_deletes() {
    let mut ig = reed_loop();
    let mut ge = GeState::default();
    let at = vec![(s(0.0), s(0.0)), (s(1.0), s(0.0)), (s(2.0), s(0.0))];
    ge.sync(&ig, at);
    assert_eq!(ge.layout.len(), 3);
    ge.press(&vec![true, false, false], &vec![false, false, false]);
    assert_eq!(ge.wire_from, Some(0));
    assert!(ge.release(&mut ig, &vec![false, false, true]));
    assert_eq!(ig.edges.last(), Some(&edge(0, 2, 1.0)));
    assert_eq!(ge.wire_from, None);

    ge.click(&ig, &vec![false, true, false], &vec![false; 4]);
    assert_eq!(ge.sel, Some(GeSel::Node(1)));
    ge.click(&ig, &vec![false; 3], &vec![false, false, true, false]);
    assert_eq!(ge.sel, Some(GeSel::Edge(2)));
    ge.delete_edge(&mut ig, 2);
    assert_eq!(ig.edges.len(), 3);
    assert!(ge.delete_node(&mut ig, 0));
    assert_eq!(ig.components.len(), 2);
    assert_eq!(ge.layout.len(), 2);
    ge.add_component(&mut ig, Comp::Mix);
    assert_eq!(ge.layout.len(), 3);
    assert_eq!(ge.layout[2], (s(20.0), s(20.0)));
}

#[test]
fn auditions_ship_one_component() {
    let ig = reed_loop();
    let mut ge = GeState::default();
    assert_eq!(ge.audition_step(&ig, false), Ship::Nothing);
    assert_eq!(ge.audition_step(&ig, true), Ship::Whole);
    assert_eq!(node_color(&ig.components[0]), Tint::Exciter);
    assert_eq!(node_color(&ig.components[1]), Tint::Resonator);
    assert_eq!(node_color(&Comp::Mix), Tint::Output);
    assert_eq!(node_color(&Addable::Wires.make()), Tint::Coupling);
}

#[test]
fn panel_edits_change_the_graph() {
    let mut g = reed_loop();
    assert!(g.edit(Edit::Insert(Addable::Sine)));
    assert_eq!(g.components.len(), 4);
    assert!(g.edit(Edit::AddEdge));
    assert_eq!(g.edges[3], edge(0, 3, 0.5));
    assert!(g.edit(Edit::EdgeFrom(3, 1)));
    assert!(g.edit(Edit::EdgeTo(3, 2)));
    assert!(g.edit(Edit::EdgeGain(3, s(0.25))));
    assert_eq!(g.edges[3], edge(1, 2, 0.25));
    assert!(!g.edit(Edit::EdgeTo(3, 4)));
    assert!(!g.edit(Edit::EdgeGain(4, s(1.0))));
    assert!(g.edit(Edit::RemoveEdge(0)));
    assert_eq!(g.edges.len(), 3);
    assert!(g.edit(Edit::Output(3)));
    assert!(!g.edit(Edit::Output(4)));
    assert!(g.edit(Edit::Adjust(3, Field::Level, Amount::Number(s(0.5)))));
    assert_eq!(g.components[3], Comp::Sine { level: s(0.5) });
    assert!(g.edit(Edit::Remove(0)));
    assert_eq!((g.components.len(), g.output), (3, 2));
    assert!(g.edit(Edit::Remove(0)) && g.edit(Edit::Remove(0)));
    assert!(!g.edit(Edit::Remove(0)), "the last component stays");
}

#[test]
fn additions_are_taken_back() {
    let mut g = reed_loop();
    let (components, edges) = (g.components.clone(), g.edges.clone());
    assert!(g.edit(Edit::Insert(Addable::Horn)) && g.edit(Edit::Remove(3)));
    assert!(g.edit(Edit::AddEdge) && g.edit(Edit::RemoveEdge(3)));
    assert!(g.edit(Edit::AddBinding) && g.edit(Edit::RemoveBinding(0)));
    assert_eq!((g.components, g.edges, g.output), (components, edges, 2));
    assert!(g.key_map.is_empty());
}

#[test]
fn bindings_are_edited_by_their_strategy() {
    let mut g = reed_loop();
    assert!(g.edit(Edit::AddBinding));
    assert!(g.edit(Edit::Bind(0, BindingEdit::Component(1))));
    assert!(!g.edit(Edit::Bind(0, BindingEdit::Component(3))));
    assert!(g.edit(Edit::Bind(0, BindingEdit::Param(Param::Length))));
    assert!(g.edit(Edit::Bind(0, BindingEdit::Amount(s(-0.5)))));
    match &g.key_map[0].map {
        KeyMapKind::Power { param, amount } => assert_eq!((param.as_str(), *amount), ("length", s(-0.5))),
        _ => panic!("a power"),
    }
    assert!(!g.edit(Edit::Bind(0, BindingEdit::Steps(4))));
    assert!(!g.edit(Edit::Bind(0, BindingEdit::Strategy(Strategy::Power))));
    assert!(g.edit(Edit::Bind(0, BindingEdit::Strategy(Strategy::Overblow))));
    assert!(g.edit(Edit::Bind(0, BindingEdit::Steps(4))));
    match &g.key_map[0].map {
        KeyMapKind::Overblow { anchor_hz, steps, microtune } => {
            assert_eq!((*anchor_hz, *steps, *microtune), (s(82.41), 4, true));
        }
        _ => panic!("overblown"),
    }
    g.set_table(0, vec![s(1.0)]);
    assert!(matches!(g.key_map[0].map, KeyMapKind::Overblow { .. }));
    assert!(g.edit(Edit::Bind(0, BindingEdit::Strategy(Strategy::OverblowTuned))));
    g.set_table(0, vec![s(1.5)]);
    match &g.key_map[0].map {
        KeyMapKind::OverblowTuned { anchor_hz, steps, table } => {
            assert_eq!((*anchor_hz, *steps, table.clone()), (s(146.83), s(0.0), vec![s(1.5)]));
        }
        _ => panic!("tuned"),
    }
    assert!(g.edit(Edit::RemoveBinding(0)));
    assert!(!g.edit(Edit::RemoveBinding(0)));
}

#[test]
fn menus_offer_components() {
    assert_eq!(add_menu(Group::Output).len(), 1);
    let n: usize = [Group::Exciter, Group::Resonator, Group::Waveguide].map(|g| add_menu(g).len()).iter().sum();
    assert_eq!(n, 21);
    assert_eq!(panel_menu().len(), 23);
    assert_eq!(Addable::OpenReed.make(), Comp::Reed { pressure: s(0.6), stiffness: s(1.5), freq_hz: s(0.0) });
    assert_eq!(InstrumentGraph::default().labels()[0], "Strike (exciter)");
    assert!(reed_loop().is_exciter_at(0) && !reed_loop().is_exciter_at(1) && !reed_loop().is_exciter_at(9));
    assert_eq!(reed_loop().primary(), None);
    assert_eq!(InstrumentGraph::default().primary(), Some(1));
}

fn reed_bore(overblow: f32, conical: bool, gain: f32, q: f32) -> Comp {
    Comp::ReedBore {
        pressure: s(0.9),
        stiffness: s(1.0),
        length: s(0.6),
        tone: s(1.0),
        register: s(0.0),
        overblow: s(overblow),
        conical,
        tract_gain: s(gain),
        tract_q: s(q),
    }
}

#[test]
fn resonators_filter_only_when_driven() {
    let string = Comp::String(PureString::default());
    assert_eq!(string.instantiate(false), Blueprint::Modes { filter: false });
    assert_eq!(string.instantiate(true), Blueprint::Modes { filter: true });
    assert_eq!(Comp::Strike.instantiate(true), Blueprint::Plain);
    assert_eq!(Comp::Mix.instantiate(true), Blueprint::Plain);
}

#[test]
fn noise_tones_and_pipe_lengths_are_settled() {
    let wires = |tone: f32| Comp::Wires { level: s(0.6), tone: s(tone) }.instantiate(false);
    assert_eq!(wires(0.1), Blueprint::Noise { tone: s(0.3) });
    assert_eq!(wires(1.5), Blueprint::Noise { tone: s(1.5) });
    let breath = Comp::Breath { level: s(0.1), tone: s(9.0) };
    assert_eq!(breath.instantiate(false), Blueprint::Noise { tone: s(3.0) });
    let bore = |length: f32| Comp::Bore { tone: s(1.0), length: s(length) }.instantiate(true);
    assert_eq!(bore(0.0), Blueprint::Pipe { length: None });
    assert_eq!(bore(0.66), Blueprint::Pipe { length: Some(s(0.66)) });
}

#[test]
fn the_tract_voices_the_altissimo_alone() {
    let made = |c: Comp| c.instantiate(false);
    let silent = Blueprint::Tract { q: s(12.0), gain: s(0.0) };
    assert_eq!(made(reed_bore(1.0, false, 0.8, 0.0)), silent);
    assert_eq!(made(reed_bore(3.0, false, 0.8, 0.0)), silent);
    assert_eq!(made(reed_bore(2.0, true, 0.8, 0.0)), silent);
    assert_eq!(made(reed_bore(5.0, false, 0.0, 0.0)), silent);
    assert_eq!(made(reed_bore(5.0, false, 0.8, 7.0)), Blueprint::Tract { q: s(7.0), gain: s(0.8) });
    assert_eq!(made(reed_bore(3.0, true, 0.8, 0.0)), Blueprint::Tract { q: s(12.0), gain: s(0.8) });
}

/// Answers a trial as a wind would that is in tune at 0.95 of its plain length.
fn answer(trial: Trial) -> Heard {
    let f = |x: Single| f32::from_bits(x.bits);
    let length = match trial {
        Trial::Plain(_) => 1.0,
        Trial::Between(_, lo, hi) => (f(lo) + f(hi)) * 0.5,
    };
    Heard {
        length: s(length),
        sounds: true,
        flat: length > 0.95,
        better: (length - 0.95).abs() < 0.05,
    }
}

#[test]
fn tuning_finds_the_length_of_every_note() {
    let mut tuner = Tuner::new();
    let mut trials = 0;
    while let Some(trial) = tuner.next() {
        tuner.heard(answer(trial));
        trials += 1;
    }
    assert_eq!(trials, 85 * 11);
    assert_eq!(tuner.table.len(), 128);
    for (note, length) in tuner.table.iter().enumerate() {
        let length = f32::from_bits(length.bits);
        if (24..=108).contains(&note) {
            assert!((length - 0.95).abs() < 0.001, "note {note}: {length}");
            assert!(0.82 < length && length < 1.18, "within what was tried");
        } else {
            assert_eq!(length, 1.0, "note {note} is out of range");
        }
    }
}

#[test]
fn corrections_stay_within_what_was_tried() {
    for flat in [true, false] {
        let mut tuner = Tuner::new();
        while let Some(trial) = tuner.next() {
            let length = match trial {
                Trial::Plain(_) => 1.0,
                Trial::Between(_, lo, hi) => {
                    let (lo, hi) = (f32::from_bits(lo.bits), f32::from_bits(hi.bits));
                    let mid = 0.5 * (lo + hi);
                    assert!(lo < mid && mid < hi);
                    mid
                }
            };
            tuner.heard(Heard { length: s(length), sounds: true, flat, better: true });
        }
        let kept = f32::from_bits(tuner.table[60].bits);
        assert!(0.82 < kept && kept < 1.18, "{kept}");
        assert!((kept - if flat { 0.82 } else { 1.18 }).abs() < 0.001, "{kept}");
        assert_eq!(tuner.table[23], s(1.0));
    }
}

#[test]
fn tuning_passes_over_silent_notes_and_bad_corrections() {
    let mut tuner = Tuner::new();
    let silent = Heard { length: s(1.0), sounds: false, flat: true, better: false };
    assert_eq!(tuner.next(), Some(Trial::Plain(24)));
    tuner.heard(silent);
    assert_eq!(tuner.next(), Some(Trial::Plain(25)));
    tuner.heard(Heard { sounds: true, ..silent });
    assert_eq!(tuner.next(), Some(Trial::Between(25, s(0.82), s(1.18))));
    tuner.heard(Heard { length: s(1.0), sounds: true, flat: true, better: true });
    assert_eq!(tuner.next(), Some(Trial::Between(25, s(0.82), s(1.0))));
    tuner.heard(silent);
    assert_eq!(tuner.next(), Some(Trial::Between(25, s(0.82), s(1.0))));
    tuner.heard(Heard { length: s(0.91), sounds: true, flat: false, better: false });
    assert_eq!(tuner.next(), Some(Trial::Plain(26)));
    assert_eq!(tuner.table[25], s(1.0));
}

#[test]
fn a_component_is_tuned_alone() {
    let g = alone(reed_bore(1.0, true, 0.0, 0.0));
    assert_eq!(g.components.len(), 1);
    assert!(g.edges.is_empty() && g.key_map.is_empty());
    assert!(g.build_graph(&g.components).is_some());
}
