//! What the parameter panel of an instrument graph does to the graph.

use crate::decimal::{decimal, minus};
use crate::models::comp::Param;
use crate::models::instrument_graph;
use crate::models::instrument_graph::{Edge, GraphView, InstrumentGraph};
use crate::models::key_map::{KeyBinding, KeyBindingView, KeyMapKind, KeyMapView};
use crate::models::menu::Addable;
use crate::panel::{Amount, Field};
use crate::single::{Single, ZERO};
use vstd::prelude::*;

verus! {

/// A way in which a key drives a component.
#[derive(Clone, Copy, Debug, PartialEq, Eq, Structural)]
pub enum Strategy {
    /// See [`KeyMapKind::Power`].
    Power,
    /// See [`KeyMapKind::Overblow`].
    Overblow,
    /// See [`KeyMapKind::OverblowTuned`].
    OverblowTuned,
}

/// A change of one binding.
#[derive(Clone, Copy, Debug, PartialEq, Eq, Structural)]
pub enum BindingEdit {
    /// The component that it drives.
    Component(usize),
    /// The way in which it does.
    Strategy(Strategy),
    /// The parameter that follows a power of the pitch.
    Param(Param),
    /// The power.
    Amount(Single),
    /// The pitch of the longest bore.
    Anchor(Single),
    /// The tube-length steps.
    Steps(u32),
    /// Whether notes are nudged into tune.
    Microtune(bool),
    /// The span of a register, in semitones.
    Span(Single),
}

/// A change of a graph.
#[derive(Clone, Copy, Debug, PartialEq, Eq, Structural)]
pub enum Edit {
    /// A component goes.
    Remove(usize),
    /// A component comes.
    Insert(Addable),
    /// A setting of a component.
    Adjust(usize, Field, Amount),
    /// The component that an edge comes from.
    EdgeFrom(usize, usize),
    /// The component that an edge goes to.
    EdgeTo(usize, usize),
    /// The gain of an edge.
    EdgeGain(usize, Single),
    /// An edge goes.
    RemoveEdge(usize),
    /// An edge comes, from the first component to the last.
    AddEdge,
    /// The component that is heard.
    Output(usize),
    /// A change of a binding.
    Bind(usize, BindingEdit),
    /// A binding goes.
    RemoveBinding(usize),
    /// A binding comes.
    AddBinding,
}

impl KeyMapView {
    /// The way in which this drives a component.
    pub open spec fn strategy(self) -> Strategy {
        match self {
            KeyMapView::Power { .. } => Strategy::Power,
            KeyMapView::Overblow { .. } => Strategy::Overblow,
            KeyMapView::OverblowTuned { .. } => Strategy::OverblowTuned,
        }
    }
}

impl Strategy {
    /// What a binding starts with when it is switched to this.
    pub open spec fn fresh_view(self) -> KeyMapView {
        match self {
            Strategy::Power => KeyMapView::Power { param: Seq::empty(), amount: minus(1_0000) },
            Strategy::Overblow => KeyMapView::Overblow {
                anchor_hz: decimal(82_4100),
                steps: 6,
                microtune: true,
            },
            Strategy::OverblowTuned => KeyMapView::OverblowTuned {
                anchor_hz: decimal(146_8300),
                steps: Single { bits: ZERO },
                table: Seq::empty(),
            },
        }
    }

    /// What a binding starts with when it is switched to this.
    pub fn fresh(self) -> (r: KeyMapKind)
        ensures
            r@ == self.fresh_view(),
    {
        match self {
            Strategy::Power => {
                let param = String::new();
                assert(param@ =~= Seq::empty());
                KeyMapKind::Power { param, amount: minus(1_0000) }
            },
            Strategy::Overblow => KeyMapKind::Overblow {
                anchor_hz: decimal(82_4100),
                steps: 6,
                microtune: true,
            },
            Strategy::OverblowTuned => KeyMapKind::OverblowTuned {
                anchor_hz: decimal(146_8300),
                steps: Single { bits: ZERO },
                table: Vec::new(),
            },
        }
    }
}

impl BindingEdit {
    /// A binding with a change, in a graph of `n` components; none if the change does not
    /// concern it.
    pub open spec fn edited(self, b: KeyBindingView, n: int) -> Option<KeyBindingView> {
        match (self, b.map) {
            (BindingEdit::Component(c), _) => if c < n {
                Some(KeyBindingView { component: c, ..b })
            } else {
                None
            },
            (BindingEdit::Strategy(s), m) => if s != m.strategy() {
                Some(KeyBindingView { map: s.fresh_view(), ..b })
            } else {
                None
            },
            (BindingEdit::Param(p), KeyMapView::Power { amount, .. }) => Some(
                KeyBindingView { map: KeyMapView::Power { param: p.text(), amount }, ..b },
            ),
            (BindingEdit::Amount(amount), KeyMapView::Power { param, .. }) => Some(
                KeyBindingView { map: KeyMapView::Power { param, amount }, ..b },
            ),
            (BindingEdit::Anchor(anchor_hz), KeyMapView::Overblow { steps, microtune, .. }) => Some(
                KeyBindingView {
                    map: KeyMapView::Overblow { anchor_hz, steps, microtune },
                    ..b
                },
            ),
            (BindingEdit::Steps(steps), KeyMapView::Overblow { anchor_hz, microtune, .. }) => Some(
                KeyBindingView {
                    map: KeyMapView::Overblow { anchor_hz, steps, microtune },
                    ..b
                },
            ),
            (BindingEdit::Microtune(microtune), KeyMapView::Overblow { anchor_hz, steps, .. }) => Some(
                KeyBindingView {
                    map: KeyMapView::Overblow { anchor_hz, steps, microtune },
                    ..b
                },
            ),
            (BindingEdit::Anchor(anchor_hz), KeyMapView::OverblowTuned { steps, table, .. }) => Some(
                KeyBindingView {
                    map: KeyMapView::OverblowTuned { anchor_hz, steps, table },
                    ..b
                },
            ),
            (BindingEdit::Span(steps), KeyMapView::OverblowTuned { anchor_hz, table, .. }) => Some(
                KeyBindingView {
                    map: KeyMapView::OverblowTuned { anchor_hz, steps, table },
                    ..b
                },
            ),
            _ => None,
        }
    }
}

/// Changes a binding in a graph of `n` components. Says whether the change concerned it.
fn edit_binding(b: &mut KeyBinding, e: BindingEdit, n: usize) -> (r: bool)
    ensures
        r == (e.edited(old(b)@, n as int) is Some),
        final(b)@ == if r {
            e.edited(old(b)@, n as int)->0
        } else {
            old(b)@
        },
{
    match e {
        BindingEdit::Component(c) => {
            if c < n {
                b.component = c;
                true
            } else {
                false
            }
        },
        BindingEdit::Strategy(s) => {
            let now: Strategy = match &b.map {
                KeyMapKind::Power { .. } => Strategy::Power,
                KeyMapKind::Overblow { .. } => Strategy::Overblow,
                KeyMapKind::OverblowTuned { .. } => Strategy::OverblowTuned,
            };
            if s == now {
                return false;
            }
            b.map = s.fresh();
            true
        },
        BindingEdit::Param(p) => match &mut b.map {
            KeyMapKind::Power { param, .. } => {
                *param = p.name().to_owned();
                true
            },
            _ => false,
        },
        BindingEdit::Amount(x) => match &mut b.map {
            KeyMapKind::Power { amount, .. } => {
                *amount = x;
                true
            },
            _ => false,
        },
        BindingEdit::Anchor(x) => match &mut b.map {
            KeyMapKind::Overblow { anchor_hz, .. } => {
                *anchor_hz = x;
                true
            },
            KeyMapKind::OverblowTuned { anchor_hz, .. } => {
                *anchor_hz = x;
                true
            },
            _ => false,
        },
        BindingEdit::Steps(x) => match &mut b.map {
            KeyMapKind::Overblow { steps, .. } => {
                *steps = x;
                true
            },
            _ => false,
        },
        BindingEdit::Microtune(x) => match &mut b.map {
            KeyMapKind::Overblow { microtune, .. } => {
                *microtune = x;
                true
            },
            _ => false,
        },
        BindingEdit::Span(x) => match &mut b.map {
            KeyMapKind::OverblowTuned { steps, .. } => {
                *steps = x;
                true
            },
            _ => false,
        },
    }
}

impl GraphView {
    /// The graph with an edge changed.
    pub open spec fn with_edge(self, i: int, e: Edge) -> GraphView {
        GraphView { edges: self.edges.update(i, e), ..self }
    }

    /// The graph with a change; none if the change concerns nothing that is there. The
    /// last component cannot be removed.
    pub open spec fn edited(self, e: Edit) -> Option<GraphView> {
        let n = self.components.len();
        match e {
            Edit::Remove(i) => if n > 1 && i < n {
                Some(self.without(i as int))
            } else {
                None
            },
            Edit::Insert(a) => Some(
                GraphView { components: self.components.push(a.comp()), ..self },
            ),
            Edit::Adjust(i, f, v) => if i < n {
                Some(
                    GraphView {
                        components: self.components.update(
                            i as int,
                            self.components[i as int].with_setting(f, v),
                        ),
                        ..self
                    },
                )
            } else {
                None
            },
            Edit::EdgeFrom(i, c) => if i < self.edges.len() && c < n {
                Some(self.with_edge(i as int, Edge { from: c, ..self.edges[i as int] }))
            } else {
                None
            },
            Edit::EdgeTo(i, c) => if i < self.edges.len() && c < n {
                Some(self.with_edge(i as int, Edge { to: c, ..self.edges[i as int] }))
            } else {
                None
            },
            Edit::EdgeGain(i, gain) => if i < self.edges.len() {
                Some(self.with_edge(i as int, Edge { gain, ..self.edges[i as int] }))
            } else {
                None
            },
            Edit::RemoveEdge(i) => if i < self.edges.len() {
                Some(GraphView { edges: self.edges.remove(i as int), ..self })
            } else {
                None
            },
            Edit::AddEdge => Some(
                GraphView {
                    edges: self.edges.push(
                        Edge {
                            from: 0,
                            to: if n > 0 {
                                (n - 1) as usize
                            } else {
                                0
                            },
                            gain: decimal(0_5000),
                        },
                    ),
                    ..self
                },
            ),
            Edit::Output(c) => if c < n {
                Some(GraphView { output: c as int, ..self })
            } else {
                None
            },
            Edit::Bind(i, b) => if i < self.key_map.len() {
                match b.edited(self.key_map[i as int], n as int) {
                    Some(x) => Some(
                        GraphView { key_map: self.key_map.update(i as int, x), ..self },
                    ),
                    None => None,
                }
            } else {
                None
            },
            Edit::RemoveBinding(i) => if i < self.key_map.len() {
                Some(GraphView { key_map: self.key_map.remove(i as int), ..self })
            } else {
                None
            },
            Edit::AddBinding => Some(
                GraphView {
                    key_map: self.key_map.push(
                        KeyBindingView { component: 0, map: Strategy::Power.fresh_view() },
                    ),
                    ..self
                },
            ),
        }
    }

    /// The graph with the tuning table of a binding replaced, if the binding has one.
    pub open spec fn tuned(self, i: int, table: Seq<Single>) -> GraphView {
        if 0 <= i < self.key_map.len() {
            match self.key_map[i].map {
                KeyMapView::OverblowTuned { anchor_hz, steps, .. } => GraphView {
                    key_map: self.key_map.update(
                        i,
                        KeyBindingView {
                            map: KeyMapView::OverblowTuned { anchor_hz, steps, table },
                            ..self.key_map[i]
                        },
                    ),
                    ..self
                },
                _ => self,
            }
        } else {
            self
        }
    }
}

impl InstrumentGraph {
    /// Changes the graph. Says whether the change concerned anything that is there.
    pub fn edit(&mut self, e: Edit) -> (r: bool)
        ensures
            r == (old(self)@.edited(e) is Some),
            final(self)@ == if r {
                old(self)@.edited(e)->0
            } else {
                old(self)@
            },
    {
        let ghost before = self@;
        let n: usize = self.components.len();
        match e {
            Edit::Remove(i) => {
                if n > 1 && i < n {
                    self.remove_component(i);
                } else {
                    return false;
                }
            },
            Edit::Insert(a) => {
                self.components.push(a.make());
            },
            Edit::Adjust(i, f, v) => {
                if i >= n {
                    return false;
                }
                let mut c = self.components[i];
                c.set_setting(f, v);
                self.components.set(i, c);
            },
            Edit::EdgeFrom(i, c) => {
                if i >= self.edges.len() || c >= n {
                    return false;
                }
                let x: Edge = self.edges[i];
                self.edges.set(i, Edge { from: c, to: x.to, gain: x.gain });
            },
            Edit::EdgeTo(i, c) => {
                if i >= self.edges.len() || c >= n {
                    return false;
                }
                let x: Edge = self.edges[i];
                self.edges.set(i, Edge { from: x.from, to: c, gain: x.gain });
            },
            Edit::EdgeGain(i, gain) => {
                if i >= self.edges.len() {
                    return false;
                }
                let x: Edge = self.edges[i];
                self.edges.set(i, Edge { from: x.from, to: x.to, gain });
            },
            Edit::RemoveEdge(i) => {
                if i >= self.edges.len() {
                    return false;
                }
                let _ = self.edges.remove(i);
            },
            Edit::AddEdge => {
                let to: usize = if n > 0 {
                    n - 1
                } else {
                    0
                };
                self.edges.push(Edge { from: 0, to, gain: decimal(0_5000) });
            },
            Edit::Output(c) => {
                if c >= n {
                    return false;
                }
                self.output = c;
            },
            Edit::Bind(i, b) => {
                if i >= self.key_map.len() {
                    return false;
                }
                let mut x = KeyBinding {
                    component: self.key_map[i].component,
                    map: self.key_map[i].map.clone(),
                };
                if !edit_binding(&mut x, b, n) {
                    return false;
                }
                let ghost was = self.key_map@;
                self.key_map.set(i, x);
                proof {
                    assert(instrument_graph::bindings(self.key_map@)
                        =~= instrument_graph::bindings(was).update(i as int, x@));
                }
            },
            Edit::RemoveBinding(i) => {
                if i >= self.key_map.len() {
                    return false;
                }
                let ghost was = self.key_map@;
                let _ = self.key_map.remove(i);
                proof {
                    assert(instrument_graph::bindings(self.key_map@)
                        =~= instrument_graph::bindings(was).remove(i as int));
                }
            },
            Edit::AddBinding => {
                let ghost was = self.key_map@;
                let x = KeyBinding { component: 0, map: Strategy::Power.fresh() };
                self.key_map.push(x);
                proof {
                    assert(instrument_graph::bindings(self.key_map@)
                        =~= instrument_graph::bindings(was).push(x@));
                }
            },
        }
        assert(self@ =~= before.edited(e)->0);
        true
    }

    /// Replaces the tuning table of a binding, if the binding has one.
    pub fn set_table(&mut self, i: usize, table: Vec<Single>)
        ensures
            final(self)@ == old(self)@.tuned(i as int, table@),
    {
        let ghost before = self@;
        if i < self.key_map.len() {
            let x = match &self.key_map[i].map {
                KeyMapKind::OverblowTuned { anchor_hz, steps, .. } => KeyBinding {
                    component: self.key_map[i].component,
                    map: KeyMapKind::OverblowTuned { anchor_hz: *anchor_hz, steps: *steps, table },
                },
                _ => return,
            };
            let ghost was = self.key_map@;
            self.key_map.set(i, x);
            proof {
                assert(instrument_graph::bindings(self.key_map@)
                    =~= instrument_graph::bindings(was).update(i as int, x@));
                assert(self@ =~= before.tuned(i as int, table@));
            }
        }
    }
}

/// Whatever is done in the panel, a properly wired graph stays one.
pub proof fn edits_keep_a_graph_valid(g: GraphView, e: Edit)
    requires
        g.is_valid(),
        g.components.len() <= usize::MAX,
    ensures
        g.edited(e) matches Some(h) ==> h.is_valid(),
{
    match e {
        Edit::Remove(i) => {
            if g.components.len() > 1 && i < g.components.len() {
                instrument_graph::removal_keeps_a_graph_valid(g, i as int);
            }
        },
        _ => {},
    }
}

/// What was just added in the panel of a valid graph can be taken back: the graph is then
/// what it was.
pub proof fn additions_can_be_taken_back(g: GraphView, a: Addable)
    requires
        g.is_valid(),
        g.components.len() < usize::MAX,
        g.edges.len() < usize::MAX,
        g.key_map.len() < usize::MAX,
    ensures
        g.edited(Edit::Insert(a)) matches Some(h) && h.edited(
            Edit::Remove(g.components.len() as usize),
        ) == Some(g),
        g.edited(Edit::AddEdge) matches Some(h) && h.edited(
            Edit::RemoveEdge(g.edges.len() as usize),
        ) == Some(g),
        g.edited(Edit::AddBinding) matches Some(h) && h.edited(
            Edit::RemoveBinding(g.key_map.len() as usize),
        ) == Some(g),
{
    instrument_graph::a_new_component_can_be_taken_back(g, a.comp());
    let edges = g.edited(Edit::AddEdge)->0.edges;
    assert(edges.remove(g.edges.len() as int) =~= g.edges);
    let key_map = g.edited(Edit::AddBinding)->0.key_map;
    assert(key_map.remove(g.key_map.len() as int) =~= g.key_map);
}

/// A change of an edge changes what it says of that edge alone: its gain, where it comes
/// from, or where it goes to. It concerns exactly the edges that are there, and leads to
/// components that are there.
pub proof fn edge_edits_change_one_edge(g: GraphView, i: usize, c: usize, gain: Single, j: int)
    requires
        0 <= j < g.edges.len(),
    ensures
        g.edited(Edit::EdgeGain(i, gain)) is Some <==> i < g.edges.len(),
        g.edited(Edit::EdgeFrom(i, c)) is Some <==> i < g.edges.len() && c < g.components.len(),
        g.edited(Edit::EdgeTo(i, c)) is Some <==> i < g.edges.len() && c < g.components.len(),
        g.edited(Edit::EdgeGain(i, gain)) matches Some(h) ==> {
            &&& h.edges[i as int].gain == gain
            &&& h.edges[i as int].from == g.edges[i as int].from
            &&& h.edges[i as int].to == g.edges[i as int].to
            &&& j != i ==> h.edges[j] == g.edges[j]
            &&& h.edges.len() == g.edges.len()
            &&& h.components == g.components && h.output == g.output && h.key_map == g.key_map
        },
        g.edited(Edit::EdgeFrom(i, c)) matches Some(h) ==> {
            &&& h.edges[i as int].from == c
            &&& h.edges[i as int].to == g.edges[i as int].to
            &&& h.edges[i as int].gain == g.edges[i as int].gain
            &&& j != i ==> h.edges[j] == g.edges[j]
            &&& h.edges.len() == g.edges.len()
            &&& h.components == g.components && h.output == g.output && h.key_map == g.key_map
        },
        g.edited(Edit::EdgeTo(i, c)) matches Some(h) ==> {
            &&& h.edges[i as int].to == c
            &&& h.edges[i as int].from == g.edges[i as int].from
            &&& h.edges[i as int].gain == g.edges[i as int].gain
            &&& j != i ==> h.edges[j] == g.edges[j]
            &&& h.edges.len() == g.edges.len()
            &&& h.components == g.components && h.output == g.output && h.key_map == g.key_map
        },
{
}

/// Removing an edge or a binding removes that one, those after it moving up; adding one
/// puts it last. A new edge runs from the first component to the last at half gain. Neither
/// touches the components or what is heard.
pub proof fn lists_grow_and_shrink_by_one(g: GraphView, i: usize, j: int)
    requires
        g.components.len() <= usize::MAX,
    ensures
        g.edited(Edit::RemoveEdge(i)) is Some <==> i < g.edges.len(),
        g.edited(Edit::RemoveEdge(i)) matches Some(h) ==> {
            &&& h.edges.len() == g.edges.len() - 1
            &&& 0 <= j < i ==> h.edges[j] == g.edges[j]
            &&& i < j < g.edges.len() ==> h.edges[j - 1] == g.edges[j]
            &&& h.components == g.components && h.output == g.output && h.key_map == g.key_map
        },
        g.edited(Edit::RemoveBinding(i)) is Some <==> i < g.key_map.len(),
        g.edited(Edit::RemoveBinding(i)) matches Some(h) ==> {
            &&& h.key_map.len() == g.key_map.len() - 1
            &&& 0 <= j < i ==> h.key_map[j] == g.key_map[j]
            &&& i < j < g.key_map.len() ==> h.key_map[j - 1] == g.key_map[j]
            &&& h.components == g.components && h.output == g.output && h.edges == g.edges
        },
        g.edited(Edit::AddEdge) matches Some(h) && h.edges.len() == g.edges.len() + 1 && (0 <= j
            < g.edges.len() ==> h.edges[j] == g.edges[j]) && h.edges.last().from == 0 && (
        g.components.len() > 0 ==> h.edges.last().to == g.components.len() - 1)
            && h.edges.last().gain == decimal(0_5000) && h.components == g.components && h.output
            == g.output && h.key_map == g.key_map,
        g.edited(Edit::AddBinding) matches Some(h) && h.key_map.len() == g.key_map.len() + 1 && (0
            <= j < g.key_map.len() ==> h.key_map[j] == g.key_map[j]) && h.key_map.last().component
            == 0 && h.key_map.last().map is Power && h.components == g.components && h.output
            == g.output && h.edges == g.edges,
{
}

/// Choosing what is heard, adding a component and adjusting one change nothing else: the
/// new component comes last, and the adjusted one alone differs.
pub proof fn component_edits_change_one_component(
    g: GraphView,
    a: Addable,
    i: usize,
    f: Field,
    v: Amount,
    j: int,
)
    requires
        0 <= j < g.components.len(),
    ensures
        g.edited(Edit::Output(i)) is Some <==> i < g.components.len(),
        g.edited(Edit::Output(i)) matches Some(h) ==> h.output == i && h.components == g.components
            && h.edges == g.edges && h.key_map == g.key_map,
        g.edited(Edit::Insert(a)) matches Some(h) && h.components.len() == g.components.len() + 1
            && h.components[j] == g.components[j] && h.components.last() == a.comp() && h.edges
            == g.edges && h.key_map == g.key_map && h.output == g.output,
        g.edited(Edit::Adjust(i, f, v)) is Some <==> i < g.components.len(),
        g.edited(Edit::Adjust(i, f, v)) matches Some(h) ==> {
            &&& h.components.len() == g.components.len()
            &&& j != i ==> h.components[j] == g.components[j]
            &&& h.components[i as int] == g.components[i as int].with_setting(f, v)
            &&& h.edges == g.edges && h.key_map == g.key_map && h.output == g.output
        },
        g.edited(Edit::Remove(i)) is Some <==> g.components.len() > 1 && i < g.components.len(),
        g.edited(Edit::Remove(i)) matches Some(h) ==> h.components.len() == g.components.len() - 1
            && (j < i ==> h.components[j] == g.components[j]) && (j > i ==> h.components[j - 1]
            == g.components[j]),
{
}

/// A change of a binding changes that one alone, and what it says of it.
pub proof fn binding_edits_change_one_binding(g: GraphView, i: usize, b: BindingEdit, j: int)
    requires
        0 <= j < g.key_map.len(),
    ensures
        g.edited(Edit::Bind(i, b)) matches Some(h) ==> {
            &&& i < g.key_map.len()
            &&& h.key_map.len() == g.key_map.len()
            &&& j != i ==> h.key_map[j] == g.key_map[j]
            &&& b.edited(g.key_map[i as int], g.components.len() as int) == Some(
                h.key_map[i as int],
            )
            &&& h.components == g.components && h.edges == g.edges && h.output == g.output
        },
        i < g.key_map.len() && b.edited(g.key_map[i as int], g.components.len() as int) is Some
            ==> g.edited(Edit::Bind(i, b)) is Some,
{
}

/// What each change sets in a binding, and that it sets nothing else.
pub proof fn binding_edits_set_what_they_say(
    b: KeyBindingView,
    n: int,
    c: usize,
    s: Strategy,
    p: Param,
    x: Single,
    steps: u32,
    nudge: bool,
)
    ensures
        BindingEdit::Component(c).edited(b, n) is Some <==> c < n,
        BindingEdit::Component(c).edited(b, n) matches Some(d) ==> d.component == c && d.map
            == b.map,
        BindingEdit::Strategy(s).edited(b, n) is Some <==> s != b.map.strategy(),
        BindingEdit::Strategy(s).edited(b, n) matches Some(d) ==> d.component == b.component
            && d.map.strategy() == s,
        BindingEdit::Param(p).edited(b, n) is Some <==> b.map is Power,
        BindingEdit::Param(p).edited(b, n) matches Some(d) ==> d.component == b.component
            && d.map->Power_param == p.text() && d.map is Power && d.map->Power_amount
            == b.map->Power_amount,
        BindingEdit::Amount(x).edited(b, n) is Some <==> b.map is Power,
        BindingEdit::Amount(x).edited(b, n) matches Some(d) ==> d.component == b.component
            && d.map is Power && d.map->Power_amount == x && d.map->Power_param
            == b.map->Power_param,
        BindingEdit::Steps(steps).edited(b, n) is Some <==> b.map is Overblow,
        BindingEdit::Steps(steps).edited(b, n) matches Some(d) ==> d.component == b.component
            && d.map is Overblow && d.map->Overblow_steps == steps && d.map->Overblow_anchor_hz
            == b.map->Overblow_anchor_hz && d.map->Overblow_microtune
            == b.map->Overblow_microtune,
        BindingEdit::Microtune(nudge).edited(b, n) is Some <==> b.map is Overblow,
        BindingEdit::Microtune(nudge).edited(b, n) matches Some(d) ==> d.component == b.component
            && d.map is Overblow && d.map->Overblow_microtune == nudge
            && d.map->Overblow_anchor_hz == b.map->Overblow_anchor_hz && d.map->Overblow_steps
            == b.map->Overblow_steps,
        BindingEdit::Anchor(x).edited(b, n) is Some <==> !(b.map is Power),
        BindingEdit::Anchor(x).edited(b, n) matches Some(d) ==> d.component == b.component && (
        b.map is Overblow ==> d.map is Overblow && d.map->Overblow_anchor_hz == x
            && d.map->Overblow_steps == b.map->Overblow_steps && d.map->Overblow_microtune
            == b.map->Overblow_microtune) && (b.map is OverblowTuned ==> d.map is OverblowTuned
            && d.map->OverblowTuned_anchor_hz == x && d.map->OverblowTuned_steps
            == b.map->OverblowTuned_steps && d.map->OverblowTuned_table
            == b.map->OverblowTuned_table),
        BindingEdit::Span(x).edited(b, n) is Some <==> b.map is OverblowTuned,
        BindingEdit::Span(x).edited(b, n) matches Some(d) ==> d.component == b.component
            && d.map is OverblowTuned && d.map->OverblowTuned_steps == x
            && d.map->OverblowTuned_anchor_hz == b.map->OverblowTuned_anchor_hz
            && d.map->OverblowTuned_table == b.map->OverblowTuned_table,
        b.map.strategy() == Strategy::Power <==> b.map is Power,
        b.map.strategy() == Strategy::Overblow <==> b.map is Overblow,
{
}

/// A new tuning table goes into the binding that it was made for, if that is tuned by one,
/// and nowhere else.
pub proof fn tables_go_where_they_belong(g: GraphView, i: int, table: Seq<Single>, j: int)
    requires
        0 <= j < g.key_map.len(),
    ensures
        g.tuned(i, table).key_map.len() == g.key_map.len(),
        j != i ==> g.tuned(i, table).key_map[j] == g.key_map[j],
        j == i && g.key_map[j].map is OverblowTuned ==> {
            let b = g.tuned(i, table).key_map[j];
            &&& b.map is OverblowTuned
            &&& b.map->OverblowTuned_table == table
            &&& b.map->OverblowTuned_anchor_hz == g.key_map[j].map->OverblowTuned_anchor_hz
            &&& b.map->OverblowTuned_steps == g.key_map[j].map->OverblowTuned_steps
            &&& b.component == g.key_map[j].component
        },
        !(g.key_map[j].map is OverblowTuned) ==> g.tuned(i, table).key_map[j] == g.key_map[j],
        g.tuned(i, table).components == g.components,
        g.tuned(i, table).edges == g.edges,
        g.tuned(i, table).output == g.output,
{
}

/// What a binding starts with when it is switched: a power of minus one of a parameter still
/// to be named; overblowing from low E in six steps, nudged into tune; or overblowing from
/// the lowest note of a clarinet, over the natural interval, with no corrections yet.
pub proof fn bindings_start_afresh()
    ensures
        Strategy::Power.fresh_view() matches KeyMapView::Power { param, amount } && param.len() == 0
            && amount == minus(1_0000),
        Strategy::Overblow.fresh_view() matches KeyMapView::Overblow { anchor_hz, steps, microtune }
            && anchor_hz == decimal(82_4100) && steps == 6 && microtune,
        Strategy::OverblowTuned.fresh_view() matches KeyMapView::OverblowTuned {
            anchor_hz,
            steps,
            table,
        } && anchor_hz == decimal(146_8300) && steps.bits == 0 && table.len() == 0,
{
}

} // verus!
