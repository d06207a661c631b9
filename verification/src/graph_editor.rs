//! The node-graph editor: what is selected, dragged and wired, and which component
//! is auditioned. Where the pointer is over a node, port or edge is worked out by
//! the caller and handed in as flags.

use crate::models::comp::Comp;
use crate::models::instrument_graph;
use crate::models::instrument_graph::{Edge, GraphView, InstrumentGraph};
use crate::models::key_map::{KeyBinding, KeyBindingView};
use crate::single::{Single, ONE};
use vstd::prelude::*;

verus! {

/// The bit pattern of 20.0: where a new node is put, on both axes.
pub const NEW_NODE_AT: u32 = 0x41A0_0000;

/// What is selected in the editor.
#[derive(Clone, Copy, Debug, PartialEq, Eq, Structural)]
pub enum GeSel {
    /// A component.
    Node(usize),
    /// An edge.
    Edge(usize),
}

/// The editor's state.
pub struct GeState {
    /// Whether the editor is shown.
    pub open: bool,
    /// Where each component is drawn.
    pub layout: Vec<(Single, Single)>,
    /// What is selected.
    pub sel: Option<GeSel>,
    /// The component being moved.
    pub drag: Option<usize>,
    /// The component from which a wire is being drawn.
    pub wire_from: Option<usize>,
    /// The component that is auditioned.
    pub audition: Option<usize>,
}

impl Default for GeState {
    /// Closed, with nothing selected.
    fn default() -> (r: Self)
        ensures
            !r.open,
            r.layout@.len() == 0,
            r.sel is None,
            r.drag is None,
            r.wire_from is None,
            r.audition is None,
    {
        GeState {
            open: false,
            layout: Vec::new(),
            sel: None,
            drag: None,
            wire_from: None,
            audition: None,
        }
    }
}

/// What to send to the audio side.
#[derive(Clone, Copy, Debug, PartialEq, Eq, Structural)]
pub enum Ship {
    /// Nothing has changed.
    Nothing,
    /// The instrument as it is.
    Whole,
    /// One component on its own; see [`isolate`].
    Isolated(usize),
}

/// How a component is coloured.
#[derive(Clone, Copy, Debug, PartialEq, Eq, Structural)]
pub enum Tint {
    /// An energy source.
    Exciter,
    /// The mixer.
    Output,
    /// A coupling.
    Coupling,
    /// Anything else.
    Resonator,
}

/// The colour class of a component.
pub open spec fn tint_of(c: Comp) -> Tint {
    if c.excites() {
        Tint::Exciter
    } else if c is Mix {
        Tint::Output
    } else if c is Wires {
        Tint::Coupling
    } else {
        Tint::Resonator
    }
}

/// The colour class of a component.
pub fn node_color(c: &Comp) -> (r: Tint)
    ensures
        r == tint_of(*c),
{
    if c.is_exciter() {
        Tint::Exciter
    } else {
        match c {
            Comp::Mix => Tint::Output,
            Comp::Wires { .. } => Tint::Coupling,
            _ => Tint::Resonator,
        }
    }
}

/// The bindings of component `i`, moved to component 1.
pub open spec fn isolated_bindings(k: Seq<KeyBindingView>, i: int) -> Seq<KeyBindingView>
    decreases k.len(),
{
    if k.len() == 0 {
        Seq::empty()
    } else {
        let rest = isolated_bindings(k.drop_last(), i);
        if k.last().component == i {
            rest.push(KeyBindingView { component: 1, map: k.last().map })
        } else {
            rest
        }
    }
}

/// The graph that auditions component `i` alone: a pure tone at full level feeds it,
/// it feeds a mixer, and it keeps its own key mapping.
pub open spec fn isolated(g: GraphView, i: int) -> GraphView {
    let one = Single { bits: ONE };
    GraphView {
        components: seq![Comp::Sine { level: one }, g.components[i], Comp::Mix],
        edges: seq![Edge { from: 0, to: 1, gain: one }, Edge { from: 1, to: 2, gain: one }],
        output: 2,
        key_map: isolated_bindings(g.key_map, i),
    }
}

/// The graph that auditions component `i` alone.
pub fn isolate(ig: &InstrumentGraph, i: usize) -> (r: InstrumentGraph)
    requires
        i < ig@.components.len(),
    ensures
        r@ == isolated(ig@, i as int),
{
    let one = Single { bits: ONE };
    let mut kept: Vec<KeyBinding> = Vec::new();
    let mut k: usize = 0;
    while k < ig.key_map.len()
        invariant
            k <= ig.key_map@.len(),
            instrument_graph::bindings(kept@) == isolated_bindings(
                ig@.key_map.take(k as int),
                i as int,
            ),
        decreases ig.key_map@.len() - k,
    {
        proof {
            let now = ig@.key_map.take(k + 1);
            assert(now.drop_last() =~= ig@.key_map.take(k as int));
            assert(now.last() == ig.key_map@[k as int]@);
        }
        if ig.key_map[k].component == i {
            let ghost before = kept@;
            let b = KeyBinding { component: 1, map: ig.key_map[k].map.clone() };
            kept.push(b);
            proof {
                assert(instrument_graph::bindings(kept@) =~= instrument_graph::bindings(
                    before,
                ).push(b@));
            }
        }
        k += 1;
    }
    proof {
        assert(ig@.key_map.take(k as int) =~= ig@.key_map);
    }
    let r = InstrumentGraph {
        components: vec![Comp::Sine { level: one }, ig.components[i], Comp::Mix],
        edges: vec![Edge { from: 0, to: 1, gain: one }, Edge { from: 1, to: 2, gain: one }],
        output: 2,
        key_map: kept,
    };
    assert(r@ =~= isolated(ig@, i as int));
    r
}

/// An audition can always be built and heard: every index in it is in range.
pub proof fn auditions_are_valid(g: GraphView, i: int)
    requires
        0 <= i < g.components.len(),
    ensures
        isolated(g, i).is_valid(),
        !isolated(g, i).is_driven(1),
{
    lemma_isolated_bindings(g.key_map, i);
}

proof fn lemma_isolated_bindings(k: Seq<KeyBindingView>, i: int)
    ensures
        forall|j: int|
            0 <= j < isolated_bindings(k, i).len() ==> (#[trigger] isolated_bindings(
                k,
                i,
            )[j]).component == 1,
    decreases k.len(),
{
    if k.len() > 0 {
        lemma_isolated_bindings(k.drop_last(), i);
    }
}

/// The first index at which `flags` holds.
pub open spec fn is_first(flags: Seq<bool>, r: Option<usize>) -> bool {
    match r {
        Some(i) => i < flags.len() && flags[i as int] && forall|j: int|
            0 <= j < i ==> !#[trigger] flags[j],
        None => forall|j: int| 0 <= j < flags.len() ==> !#[trigger] flags[j],
    }
}

/// The last index at which `flags` holds.
pub open spec fn is_last(flags: Seq<bool>, r: Option<usize>) -> bool {
    match r {
        Some(i) => i < flags.len() && flags[i as int] && forall|j: int|
            i < j < flags.len() ==> !#[trigger] flags[j],
        None => forall|j: int| 0 <= j < flags.len() ==> !#[trigger] flags[j],
    }
}

fn first_of(flags: &Vec<bool>) -> (r: Option<usize>)
    ensures
        is_first(flags@, r),
{
    let mut i: usize = 0;
    while i < flags.len()
        invariant
            i <= flags@.len(),
            forall|j: int| 0 <= j < i ==> !#[trigger] flags@[j],
        decreases flags@.len() - i,
    {
        if flags[i] {
            return Some(i);
        }
        i += 1;
    }
    None
}

fn last_of(flags: &Vec<bool>) -> (r: Option<usize>)
    ensures
        is_last(flags@, r),
{
    let mut i: usize = flags.len();
    while i > 0
        invariant
            i <= flags@.len(),
            forall|j: int| i <= j < flags@.len() ==> !#[trigger] flags@[j],
        decreases i,
    {
        i -= 1;
        if flags[i] {
            return Some(i);
        }
    }
    None
}

/// Component `j` can take a wire from `f` that is let go near it.
pub open spec fn takes_wire(g: GraphView, near: Seq<bool>, f: int, j: int) -> bool {
    j != f && !g.components[j].excites() && near[j]
}

/// An edge from `f` to `j` is there.
pub open spec fn wired(edges: Seq<Edge>, f: usize, j: usize) -> bool {
    exists|k: int| 0 <= k < edges.len() && (#[trigger] edges[k]).from == f && edges[k].to == j
}

fn is_wired(edges: &Vec<Edge>, f: usize, j: usize) -> (r: bool)
    ensures
        r == wired(edges@, f, j),
{
    let mut k: usize = 0;
    while k < edges.len()
        invariant
            k <= edges@.len(),
            forall|i: int| 0 <= i < k ==> !((#[trigger] edges@[i]).from == f && edges@[i].to == j),
        decreases edges@.len() - k,
    {
        if edges[k].from == f && edges[k].to == j {
            return true;
        }
        k += 1;
    }
    false
}

/// The component whose sound the selection asks for: the selected one, or the one
/// that feeds the selected edge.
pub open spec fn asked_for(open: bool, sel: Option<GeSel>, g: GraphView) -> Option<usize> {
    if !open {
        None
    } else {
        match sel {
            Some(GeSel::Node(i)) => Some(i),
            Some(GeSel::Edge(e)) => if e < g.edges.len() {
                Some(g.edges[e as int].from)
            } else {
                None
            },
            None => None,
        }
    }
}

/// What to send for an audition of `i`.
pub open spec fn shipment(asked: Option<usize>, g: GraphView) -> Ship {
    match asked {
        Some(i) => if i < g.components.len() {
            Ship::Isolated(i)
        } else {
            Ship::Whole
        },
        None => Ship::Whole,
    }
}

/// A wire drawn from `f` and let go makes this connection, if any.
pub open spec fn is_connection(
    g: GraphView,
    near: Seq<bool>,
    f: usize,
    r: Option<usize>,
) -> bool {
    match r {
        Some(j) => j < g.components.len() && takes_wire(g, near, f as int, j as int) && (forall|i: int|
            0 <= i < j ==> !#[trigger] takes_wire(g, near, f as int, i)) && !wired(g.edges, f, j),
        None => forall|j: usize|
            j < g.components.len() && #[trigger] takes_wire(g, near, f as int, j as int) && (forall|
                i: int,
            |
                0 <= i < j ==> !#[trigger] takes_wire(g, near, f as int, i)) ==> wired(
                g.edges,
                f,
                j,
            ),
    }
}

impl GeState {
    /// Brings the drawing positions in step with the components: if their number
    /// changed, `fresh` is taken over, and a selected component that is gone is no
    /// longer selected.
    pub fn sync(&mut self, ig: &InstrumentGraph, fresh: Vec<(Single, Single)>)
        requires
            fresh@.len() == ig@.components.len(),
        ensures
            final(self).layout@.len() == ig@.components.len(),
            old(self).layout@.len() == ig@.components.len() ==> final(self).layout@ == old(
                self,
            ).layout@ && final(self).sel == old(self).sel,
            old(self).layout@.len() != ig@.components.len() ==> {
                &&& final(self).layout@ == fresh@
                &&& final(self).sel == match old(self).sel {
                    Some(GeSel::Node(i)) => if i >= ig@.components.len() {
                        None
                    } else {
                        old(self).sel
                    },
                    _ => old(self).sel,
                }
            },
            final(self).open == old(self).open,
            final(self).drag == old(self).drag,
            final(self).wire_from == old(self).wire_from,
            final(self).audition == old(self).audition,
    {
        let n: usize = ig.components.len();
        if self.layout.len() != n {
            self.layout = fresh;
            if let Some(GeSel::Node(i)) = self.sel {
                if i >= n {
                    self.sel = None;
                }
            }
        }
    }

    /// Adds a component, drawn in the corner, and selects it.
    pub fn add_component(&mut self, ig: &mut InstrumentGraph, c: Comp)
        ensures
            final(ig)@ == (GraphView { components: old(ig)@.components.push(c), ..old(ig)@ }),
            final(self).layout@ == old(self).layout@.push(
                (Single { bits: NEW_NODE_AT }, Single { bits: NEW_NODE_AT }),
            ),
            final(self).sel == Some(GeSel::Node(old(ig)@.components.len() as usize)),
            final(self).open == old(self).open,
            final(self).drag == old(self).drag,
            final(self).wire_from == old(self).wire_from,
            final(self).audition == old(self).audition,
    {
        let at: usize = ig.components.len();
        ig.components.push(c);
        self.layout.push((Single { bits: NEW_NODE_AT }, Single { bits: NEW_NODE_AT }));
        self.sel = Some(GeSel::Node(at));
        assert(ig@ =~= (GraphView { components: old(ig)@.components.push(c), ..old(ig)@ }));
    }

    /// A drag starts: on an output port it draws a wire, else on a body it moves the
    /// topmost component there and selects it.
    pub fn press(&mut self, ports: &Vec<bool>, bodies: &Vec<bool>)
        ensures
            is_first(ports@, final(self).wire_from),
            final(self).wire_from is Some ==> final(self).drag is None && final(self).sel == old(
                self,
            ).sel,
            final(self).wire_from is None ==> {
                &&& is_last(bodies@, final(self).drag)
                &&& final(self).sel == match final(self).drag {
                    Some(i) => Some(GeSel::Node(i)),
                    None => old(self).sel,
                }
            },
            final(self).open == old(self).open,
            final(self).layout@ == old(self).layout@,
            final(self).audition == old(self).audition,
    {
        self.drag = None;
        self.wire_from = first_of(ports);
        if self.wire_from.is_none() {
            self.drag = last_of(bodies);
            if let Some(i) = self.drag {
                self.sel = Some(GeSel::Node(i));
            }
        }
    }

    /// A drag ends. A wire let go near the input ports flagged in `near` connects to
    /// the first component that can take it, unless that connection is there
    /// already; the new edge is selected. Returns whether the graph changed.
    pub fn release(&mut self, ig: &mut InstrumentGraph, near: &Vec<bool>) -> (changed: bool)
        requires
            near@.len() == old(ig)@.components.len(),
        ensures
            final(self).wire_from is None,
            final(self).drag is None,
            final(self).open == old(self).open,
            final(self).layout@ == old(self).layout@,
            final(self).audition == old(self).audition,
            !changed ==> final(ig)@ == old(ig)@ && final(self).sel == old(self).sel,
            !changed ==> (old(self).wire_from matches Some(f) ==> is_connection(
                old(ig)@,
                near@,
                f,
                None,
            )),
            changed ==> {
                &&& old(self).wire_from is Some
                &&& final(self).sel == Some(GeSel::Edge(old(ig)@.edges.len() as usize))
                &&& final(ig)@.edges.len() == old(ig)@.edges.len() + 1
                &&& final(ig)@ == (GraphView {
                    edges: old(ig)@.edges.push(final(ig)@.edges.last()),
                    ..old(ig)@
                })
                &&& final(ig)@.edges.last().from == old(self).wire_from.unwrap()
                &&& final(ig)@.edges.last().gain == (Single { bits: ONE })
                &&& is_connection(
                    old(ig)@,
                    near@,
                    old(self).wire_from.unwrap(),
                    Some(final(ig)@.edges.last().to),
                )
            },
    {
        let from = self.wire_from;
        self.wire_from = None;
        self.drag = None;
        let f: usize = match from {
            Some(f) => f,
            None => {
                return false;
            },
        };
        let n: usize = ig.components.len();
        let mut j: usize = 0;
        while j < n
            invariant
                j <= n == ig@.components.len(),
                near@.len() == n,
                ig@ == old(ig)@,
                forall|i: int| 0 <= i < j ==> !#[trigger] takes_wire(ig@, near@, f as int, i),
                self.sel == old(self).sel,
                self.wire_from is None,
                self.drag is None,
                self.open == old(self).open,
                self.layout@ == old(self).layout@,
                self.audition == old(self).audition,
                old(self).wire_from == Some(f),
            decreases n - j,
        {
            if j != f && !ig.is_exciter_at(j) && near[j] {
                assert(takes_wire(ig@, near@, f as int, j as int));
                if !is_wired(&ig.edges, f, j) {
                    let e = Edge { from: f, to: j, gain: Single { bits: ONE } };
                    let at: usize = ig.edges.len();
                    ig.edges.push(e);
                    self.sel = Some(GeSel::Edge(at));
                    assert(ig@ =~= (GraphView { edges: old(ig)@.edges.push(e), ..old(ig)@ }));
                    return true;
                }
                return false;
            }
            j += 1;
        }
        false
    }

    /// A click without a drag selects the topmost component under the pointer, else
    /// the first drawn edge under it, else nothing.
    pub fn click(&mut self, ig: &InstrumentGraph, bodies: &Vec<bool>, lines: &Vec<bool>)
        requires
            lines@.len() == ig@.edges.len(),
        ensures
            exists|b: Option<usize>|
                #![trigger is_last(bodies@, b)]
                is_last(bodies@, b) && match b {
                    Some(i) => final(self).sel == Some(GeSel::Node(i)),
                    None => exists|l: Option<usize>|
                        #![trigger is_first(drawn_hits(ig@, lines@), l)]
                        is_first(drawn_hits(ig@, lines@), l) && final(self).sel == match l {
                            Some(e) => Some(GeSel::Edge(e)),
                            None => None::<GeSel>,
                        },
                },
            final(self).open == old(self).open,
            final(self).layout@ == old(self).layout@,
            final(self).drag == old(self).drag,
            final(self).wire_from == old(self).wire_from,
            final(self).audition == old(self).audition,
    {
        let b = last_of(bodies);
        assert(is_last(bodies@, b));
        if let Some(i) = b {
            self.sel = Some(GeSel::Node(i));
            return;
        }
        let n: usize = ig.components.len();
        let mut hits: Vec<bool> = Vec::new();
        let mut e: usize = 0;
        while e < ig.edges.len()
            invariant
                n == ig@.components.len(),
                e <= ig@.edges.len() == lines@.len(),
                hits@ =~= drawn_hits(ig@, lines@).take(e as int),
            decreases ig@.edges.len() - e,
        {
            hits.push(ig.edges[e].from < n && ig.edges[e].to < n && lines[e]);
            e += 1;
        }
        assert(hits@ =~= drawn_hits(ig@, lines@));
        let l = first_of(&hits);
        assert(is_first(drawn_hits(ig@, lines@), l));
        self.sel = match l {
            Some(e) => Some(GeSel::Edge(e)),
            None => None,
        };
    }

    /// Takes note of what is to be auditioned, and says what to send: nothing unless
    /// the graph changed or the audition did.
    pub fn audition_step(&mut self, ig: &InstrumentGraph, changed: bool) -> (r: Ship)
        ensures
            final(self).audition == asked_for(old(self).open, old(self).sel, ig@),
            r == if changed || final(self).audition != old(self).audition {
                shipment(final(self).audition, ig@)
            } else {
                Ship::Nothing
            },
            final(self).open == old(self).open,
            final(self).layout@ == old(self).layout@,
            final(self).sel == old(self).sel,
            final(self).drag == old(self).drag,
            final(self).wire_from == old(self).wire_from,
    {
        let asked: Option<usize> = if self.open {
            match self.sel {
                Some(GeSel::Node(i)) => Some(i),
                Some(GeSel::Edge(e)) => if e < ig.edges.len() {
                    Some(ig.edges[e].from)
                } else {
                    None
                },
                None => None,
            }
        } else {
            None
        };
        let moved: bool = match (asked, self.audition) {
            (Some(a), Some(b)) => a != b,
            (None, None) => false,
            _ => true,
        };
        if !changed && !moved {
            return Ship::Nothing;
        }
        self.audition = asked;
        match asked {
            Some(i) => if i < ig.components.len() {
                Ship::Isolated(i)
            } else {
                Ship::Whole
            },
            None => Ship::Whole,
        }
    }

    /// Deletes component `i`, unless it is the only one. Returns whether the graph
    /// changed.
    pub fn delete_node(&mut self, ig: &mut InstrumentGraph, i: usize) -> (changed: bool)
        requires
            i < old(ig)@.components.len(),
            old(self).layout@.len() == old(ig)@.components.len(),
        ensures
            changed == (old(ig)@.components.len() > 1),
            changed ==> {
                &&& final(ig)@ == old(ig)@.without(i as int)
                &&& final(self).layout@ == old(self).layout@.remove(i as int)
                &&& final(self).sel is None
            },
            !changed ==> {
                &&& final(ig)@ == old(ig)@
                &&& final(self).layout@ == old(self).layout@
                &&& final(self).sel == old(self).sel
            },
            final(self).layout@.len() == final(ig)@.components.len(),
            final(self).open == old(self).open,
            final(self).drag == old(self).drag,
            final(self).wire_from == old(self).wire_from,
            final(self).audition == old(self).audition,
    {
        if ig.components.len() <= 1 {
            return false;
        }
        ig.remove_component(i);
        let _ = self.layout.remove(i);
        self.sel = None;
        true
    }

    /// Deletes edge `e` and selects nothing.
    pub fn delete_edge(&mut self, ig: &mut InstrumentGraph, e: usize)
        requires
            e < old(ig)@.edges.len(),
        ensures
            final(ig)@ == (GraphView { edges: old(ig)@.edges.remove(e as int), ..old(ig)@ }),
            final(self).sel is None,
            final(self).open == old(self).open,
            final(self).layout@ == old(self).layout@,
            final(self).drag == old(self).drag,
            final(self).wire_from == old(self).wire_from,
            final(self).audition == old(self).audition,
    {
        let _ = ig.edges.remove(e);
        self.sel = None;
        assert(ig@ =~= (GraphView { edges: old(ig)@.edges.remove(e as int), ..old(ig)@ }));
    }
}

/// Which edges the pointer is over, counting only those that are drawn: those with
/// both ends in range.
pub open spec fn drawn_hits(g: GraphView, lines: Seq<bool>) -> Seq<bool> {
    Seq::new(
        g.edges.len(),
        |e: int|
            g.edges[e].from < g.components.len() && g.edges[e].to < g.components.len() && lines[e],
    )
}

/// An audition is the component alone between a full tone and the mixer: three components,
/// a wire of full gain from the tone to it and from it to the mixer, which is heard.
pub proof fn auditions_hold_one_component(g: GraphView, i: int)
    requires
        0 <= i < g.components.len(),
    ensures
        isolated(g, i).components.len() == 3,
        isolated(g, i).components[1] == g.components[i],
        isolated(g, i).components[2] is Mix,
        isolated(g, i).components[0] matches Comp::Sine { level } && level.bits == 0x3F80_0000,
        isolated(g, i).output == 2,
        isolated(g, i).edges.len() == 2,
        isolated(g, i).edges[0].from == 0 && isolated(g, i).edges[0].to == 1,
        isolated(g, i).edges[1].from == 1 && isolated(g, i).edges[1].to == 2,
        isolated(g, i).edges[0].gain.bits == 0x3F80_0000,
        isolated(g, i).edges[1].gain.bits == 0x3F80_0000,
{
}

/// An audition keeps the bindings of the component, in order and as they drove, and no
/// others. `order` says which binding each of them was.
pub proof fn auditions_keep_the_key_map(k: Seq<KeyBindingView>, i: int) -> (order: Seq<int>)
    ensures
        order.len() == isolated_bindings(k, i).len(),
        forall|a: int, b: int| 0 <= a < b < order.len() ==> order[a] < order[b],
        forall|j: int|
            0 <= j < order.len() ==> {
                &&& 0 <= (#[trigger] order[j]) < k.len()
                &&& k[order[j]].component == i
                &&& isolated_bindings(k, i)[j].component == 1
                &&& isolated_bindings(k, i)[j].map == k[order[j]].map
            },
        forall|j: int|
            0 <= j < k.len() && (#[trigger] k[j]).component == i ==> order.contains(j),
    decreases k.len(),
{
    if k.len() == 0 {
        Seq::empty()
    } else {
        let head = k.drop_last();
        let rest = auditions_keep_the_key_map(head, i);
        let last = k.len() - 1;
        let order = if k.last().component == i {
            rest.push(last)
        } else {
            rest
        };
        assert forall|j: int| 0 <= j < head.len() implies head[j] == k[j] by {}
        assert forall|j: int| 0 <= j < k.len() && (#[trigger] k[j]).component == i implies
            order.contains(j) by {
            if j < last {
                assert(head[j].component == i);
                let m = choose|m: int| 0 <= m < rest.len() && rest[m] == j;
                assert(order[m] == j);
            } else {
                assert(order[rest.len() as int] == j);
            }
        }
        assert forall|j: int| 0 <= j < order.len() implies {
            &&& 0 <= (#[trigger] order[j]) < k.len()
            &&& k[order[j]].component == i
            &&& isolated_bindings(k, i)[j].component == 1
            &&& isolated_bindings(k, i)[j].map == k[order[j]].map
        } by {
            if j < rest.len() {
                assert(order[j] == rest[j]);
                assert(head[rest[j]] == k[rest[j]]);
                assert(isolated_bindings(k, i)[j] == isolated_bindings(head, i)[j]);
            }
        }
        order
    }
}

/// What is heard while editing: the selected component, or the one that feeds the selected
/// edge, as long as the editor is open and it is there; else the whole instrument.
pub proof fn the_selection_is_heard(open: bool, g: GraphView, i: usize)
    ensures
        open && i < g.components.len() ==> shipment(asked_for(open, Some(GeSel::Node(i)), g), g)
            == Ship::Isolated(i),
        open && i < g.edges.len() && g.edges[i as int].from < g.components.len() ==> shipment(
            asked_for(open, Some(GeSel::Edge(i)), g),
            g,
        ) == Ship::Isolated(g.edges[i as int].from),
        open && i >= g.components.len() ==> shipment(asked_for(open, Some(GeSel::Node(i)), g), g)
            == Ship::Whole,
        shipment(asked_for(open, None, g), g) == Ship::Whole,
        shipment(asked_for(false, Some(GeSel::Node(i)), g), g) == Ship::Whole,
        shipment(asked_for(false, Some(GeSel::Edge(i)), g), g) == Ship::Whole,
{
}

/// A wire can be let go on any component near by that is no source and not the one it comes
/// from.
pub proof fn wires_lead_to_what_resonates(g: GraphView, near: Seq<bool>, f: int, j: int)
    ensures
        takes_wire(g, near, f, j) ==> near[j] && j != f && !g.components[j].excites(),
        near[j] && j != f && !g.components[j].excites() ==> takes_wire(g, near, f, j),
        tint_of(g.components[j]) == Tint::Exciter <==> g.components[j].excites(),
        tint_of(g.components[j]) == Tint::Output <==> g.components[j] is Mix,
        tint_of(g.components[j]) == Tint::Coupling <==> g.components[j] is Wires,
{
}

/// Only edges that are drawn, those with both ends, can be hit.
pub proof fn only_drawn_edges_are_hit(g: GraphView, lines: Seq<bool>, e: int)
    requires
        0 <= e < g.edges.len(),
    ensures
        drawn_hits(g, lines).len() == g.edges.len(),
        drawn_hits(g, lines)[e] <==> lines[e] && g.edges[e].from < g.components.len()
            && g.edges[e].to < g.components.len(),
{
}

/// A wire that is let go is connected to the first component near by that can take it, and
/// only if it is not connected to that already.
pub proof fn wires_connect_to_the_first(
    g: GraphView,
    near: Seq<bool>,
    f: usize,
    r: Option<usize>,
    j: usize,
)
    requires
        is_connection(g, near, f, r),
        j < g.components.len(),
        takes_wire(g, near, f as int, j as int),
        forall|i: int| 0 <= i < j ==> !#[trigger] takes_wire(g, near, f as int, i),
    ensures
        r is None <==> exists|k: int|
            0 <= k < g.edges.len() && (#[trigger] g.edges[k]).from == f && g.edges[k].to == j,
        r is Some ==> r == Some(j),
{
    if let Some(i) = r {
        if i < j {
            assert(!takes_wire(g, near, f as int, i as int));
        } else if j < i {
            assert(!takes_wire(g, near, f as int, j as int));
        }
    }
}

/// A wire that is let go away from everything that can take it is dropped.
pub proof fn loose_wires_are_dropped(g: GraphView, near: Seq<bool>, f: usize, r: Option<usize>)
    requires
        is_connection(g, near, f, r),
        forall|j: int|
            0 <= j < g.components.len() && near[j] && j != f ==> (#[trigger] g.components[j]).excites(),
    ensures
        r is None,
{
    if let Some(j) = r {
        assert(takes_wire(g, near, f as int, j as int));
        assert(g.components[j as int].excites());
    }
}

/// The first and the last of the flags that are up; none if all are down.
pub proof fn the_first_and_last_are_up(
    flags: Seq<bool>,
    first: Option<usize>,
    last: Option<usize>,
    j: int,
)
    requires
        is_first(flags, first),
        is_last(flags, last),
        0 <= j < flags.len(),
    ensures
        flags[j] ==> (first matches Some(i) && i <= j && flags[i as int]) && (
        last matches Some(k) && j <= k && flags[k as int]),
        first matches Some(i) ==> i < flags.len() && flags[i as int],
        last matches Some(k) ==> k < flags.len() && flags[k as int],
        first is Some <==> last is Some,
{
}

} // verus!
