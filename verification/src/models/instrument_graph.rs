//! An instrument as a graph: components wired by edges that carry a signal scaled
//! by a coupling gain.

use crate::layering;
use crate::layering::Cell;
use crate::models::comp::Comp;
use crate::models::key_map::{KeyBinding, KeyBindingView};
use crate::models::pure_string;
use crate::models::pure_string::PureString;
use crate::single::{Single, ONE};
use vstd::prelude::*;

verus! {

/// A directed edge: `from`'s output feeds `to`, scaled by `gain`.
#[derive(Clone, Copy, Debug, PartialEq, Eq, Structural)]
pub struct Edge {
    /// The component that feeds.
    pub from: usize,
    /// The component that is fed.
    pub to: usize,
    /// The coupling strength.
    pub gain: Single,
}

/// An instrument as a graph: components, edges, the output component, and how
/// the played key drives component parameters.
pub struct InstrumentGraph {
    /// The components, referred to by index.
    pub components: Vec<Comp>,
    /// The edges between them.
    pub edges: Vec<Edge>,
    /// The component that is heard.
    pub output: usize,
    /// What the played key drives.
    pub key_map: Vec<KeyBinding>,
}

/// An instrument graph, as a value.
#[verifier::ext_equal]
pub ghost struct GraphView {
    pub components: Seq<Comp>,
    pub edges: Seq<Edge>,
    pub output: int,
    pub key_map: Seq<KeyBindingView>,
}

/// A list of bindings, as values.
pub open spec fn bindings(k: Seq<KeyBinding>) -> Seq<KeyBindingView> {
    k.map_values(|b: KeyBinding| b@)
}

impl View for InstrumentGraph {
    type V = GraphView;

    open spec fn view(&self) -> GraphView {
        GraphView {
            components: self.components@,
            edges: self.edges@,
            output: self.output as int,
            key_map: bindings(self.key_map@),
        }
    }
}

impl GraphView {
    /// Every edge, binding and the output refer to components that are there.
    pub open spec fn is_valid(self) -> bool {
        &&& 0 <= self.output < self.components.len()
        &&& forall|i: int|
            0 <= i < self.edges.len() ==> (#[trigger] self.edges[i]).from < self.components.len()
                && self.edges[i].to < self.components.len()
        &&& forall|i: int|
            0 <= i < self.key_map.len() ==> (#[trigger] self.key_map[i]).component
                < self.components.len()
    }

    /// The graph without component `r`: what refers to it is dropped, and indices
    /// above it move down. If the output was lost, the last component is heard.
    pub open spec fn without(self, r: int) -> GraphView {
        if 0 <= r < self.components.len() {
            GraphView {
                components: self.components.remove(r),
                edges: edges_without(self.edges, r),
                output: output_without(self.output, r, self.components.len() - 1),
                key_map: bindings_without(self.key_map, r),
            }
        } else {
            self
        }
    }

    /// Component `i` is fed by something that is no exciter.
    pub open spec fn is_driven(self, i: int) -> bool {
        fed_by_resonator(self.edges, self.components, i)
    }
}

/// An index after component `r` is gone.
pub open spec fn index_without(i: usize, r: int) -> usize {
    if i > r {
        (i - 1) as usize
    } else {
        i
    }
}

/// The edges that do not touch `r`, with their indices moved down.
pub open spec fn edges_without(edges: Seq<Edge>, r: int) -> Seq<Edge>
    decreases edges.len(),
{
    if edges.len() == 0 {
        Seq::empty()
    } else {
        let rest = edges_without(edges.drop_last(), r);
        let e = edges.last();
        if e.from == r || e.to == r {
            rest
        } else {
            rest.push(
                Edge { from: index_without(e.from, r), to: index_without(e.to, r), gain: e.gain },
            )
        }
    }
}

/// The bindings that do not drive `r`, with their indices moved down.
pub open spec fn bindings_without(k: Seq<KeyBindingView>, r: int) -> Seq<KeyBindingView>
    decreases k.len(),
{
    if k.len() == 0 {
        Seq::empty()
    } else {
        let rest = bindings_without(k.drop_last(), r);
        let b = k.last();
        if b.component == r {
            rest
        } else {
            rest.push(KeyBindingView { component: index_without(b.component, r), map: b.map })
        }
    }
}

/// The output after component `r` is gone and `left` components remain.
pub open spec fn output_without(output: int, r: int, left: int) -> int {
    if output == r || output >= left {
        if left > 0 {
            left - 1
        } else {
            0
        }
    } else if output > r {
        output - 1
    } else {
        output
    }
}

/// Some edge from a component that is no exciter feeds `i`.
pub open spec fn fed_by_resonator(edges: Seq<Edge>, comps: Seq<Comp>, i: int) -> bool {
    exists|k: int|
        0 <= k < edges.len() && (#[trigger] edges[k]).to == i && edges[k].from < comps.len()
            && !comps[edges[k].from as int].excites()
}

/// What feeds component `i`, with its gain, in edge order. Edges with an end that
/// is not below `n` are ignored.
pub open spec fn inputs_of(edges: Seq<Edge>, n: int, i: int) -> Seq<(usize, Single)>
    decreases edges.len(),
{
    if edges.len() == 0 {
        Seq::empty()
    } else {
        let rest = inputs_of(edges.drop_last(), n, i);
        let e = edges.last();
        if e.to == i && e.from < n && e.to < n {
            rest.push((e.from, e.gain))
        } else {
            rest
        }
    }
}

/// The edges without their gains.
pub open spec fn wires(edges: Seq<Edge>) -> Seq<(usize, usize)> {
    edges.map_values(|e: Edge| (e.from, e.to))
}

/// One component of a voice about to be built.
#[derive(Clone, Copy, Debug, PartialEq, Eq, Structural)]
pub struct NodePlan {
    /// The component, driven by the key.
    pub comp: Comp,
    /// Whether it colours what another resonator feeds it, instead of sounding
    /// itself.
    pub driven: bool,
    /// Whether it keeps its own resting pitch instead of the played one.
    pub own_pitch: bool,
}

/// A voice about to be built: its nodes, what feeds each, and which one is heard.
pub struct GraphPlan {
    /// The nodes, in component order.
    pub nodes: Vec<NodePlan>,
    /// For each node, the nodes that feed it and their gains.
    pub inputs: Vec<Vec<(usize, Single)>>,
    /// The node that is heard.
    pub output: usize,
}

impl Comp {
    /// A resonator whose resting pitch follows from its geometry.
    pub open spec fn has_resting_pitch(self) -> bool {
        self is String || self is Membrane
    }

    /// Whether this is a resonator whose resting pitch follows from its geometry.
    pub fn rests_at_a_pitch(&self) -> (r: bool)
        ensures
            r == self.has_resting_pitch(),
    {
        match self {
            Comp::String(_) => true,
            Comp::Membrane(_) => true,
            _ => false,
        }
    }

    /// A resonator with a bank of modes.
    pub open spec fn modal(self) -> bool {
        self is String || self is Membrane || self is Plate || self is MusicalString || self is Bell
            || self is Cymbal || self is Horn
    }

    /// Whether this is a resonator with a bank of modes.
    pub fn is_modal(&self) -> (r: bool)
        ensures
            r == self.modal(),
    {
        match self {
            Comp::String(_) => true,
            Comp::Membrane(_) => true,
            Comp::Plate(_) => true,
            Comp::MusicalString(_) => true,
            Comp::Bell(_) => true,
            Comp::Cymbal(_) => true,
            Comp::Horn(_) => true,
            _ => false,
        }
    }
}

impl InstrumentGraph {
    /// The label of each component.
    pub fn labels(&self) -> (r: Vec<&'static str>)
        ensures
            r@.len() == self@.components.len(),
            forall|i: int|
                0 <= i < r@.len() ==> (#[trigger] r@[i])@ == self@.components[i].label_text(),
    {
        let mut r: Vec<&'static str> = Vec::new();
        let mut i: usize = 0;
        while i < self.components.len()
            invariant
                i <= self.components@.len(),
                r@.len() == i,
                forall|j: int|
                    0 <= j < i ==> (#[trigger] r@[j])@ == self.components@[j].label_text(),
            decreases self.components@.len() - i,
        {
            r.push(self.components[i].label());
            i += 1;
        }
        r
    }

    /// Whether component `i` is there and is an exciter.
    pub fn is_exciter_at(&self, i: usize) -> (r: bool)
        ensures
            r == (i < self@.components.len() && self@.components[i as int].excites()),
    {
        i < self.components.len() && self.components[i].is_exciter()
    }

    /// Where to draw the components, so that signal flows left to right whatever
    /// feedback there is.
    pub fn auto_layout(&self) -> (cells: Vec<Cell>)
        ensures
            layering::is_layout(
                layering::adjacency(self@.components.len(), wires(self@.edges)),
                cells@,
            ),
    {
        let mut pairs: Vec<(usize, usize)> = Vec::new();
        let mut i: usize = 0;
        while i < self.edges.len()
            invariant
                i <= self.edges@.len(),
                pairs@ == wires(self.edges@.take(i as int)),
            decreases self.edges@.len() - i,
        {
            let e: Edge = self.edges[i];
            pairs.push((e.from, e.to));
            proof {
                assert(wires(self.edges@.take(i + 1)) =~= wires(self.edges@.take(i as int)).push(
                    (e.from, e.to),
                ));
            }
            i += 1;
        }
        proof {
            assert(self.edges@.take(i as int) =~= self.edges@);
        }
        layering::lay_out(self.components.len(), &pairs)
    }

    /// The first component with a bank of modes: the one that stands for the
    /// instrument where only a bank can be played.
    pub fn primary(&self) -> (r: Option<usize>)
        ensures
            match r {
                Some(i) => i < self@.components.len() && self@.components[i as int].modal()
                    && forall|j: int| 0 <= j < i ==> !(#[trigger] self@.components[j]).modal(),
                None => forall|j: int|
                    0 <= j < self@.components.len() ==> !(#[trigger] self@.components[j]).modal(),
            },
    {
        let mut i: usize = 0;
        while i < self.components.len()
            invariant
                i <= self.components@.len(),
                forall|j: int| 0 <= j < i ==> !(#[trigger] self.components@[j]).modal(),
            decreases self.components@.len() - i,
        {
            if self.components[i].is_modal() {
                return Some(i);
            }
            i += 1;
        }
        None
    }

    /// Removes component `r`, fixing every index that referred to it or past it.
    pub fn remove_component(&mut self, r: usize)
        ensures
            final(self)@ == old(self)@.without(r as int),
    {
        if r >= self.components.len() {
            return;
        }
        let ghost before = self@;
        let _ = self.components.remove(r);
        drop_edges(&mut self.edges, r);
        drop_bindings(&mut self.key_map, r);
        let left: usize = self.components.len();
        if self.output == r || self.output >= left {
            self.output = if left > 0 {
                left - 1
            } else {
                0
            };
        } else if self.output > r {
            self.output = self.output - 1;
        }
        assert(self@ =~= before.without(r as int));
    }
}

impl InstrumentGraph {
    /// The voice to build for a played note, given the components as the key has
    /// driven them; none if there is nothing to hear.
    ///
    /// A component fed by an exciter, or by nothing, sounds at the played pitch. One
    /// fed by another resonator colours what it is fed, at its own resting pitch if
    /// its geometry gives one.
    pub fn build_graph(&self, comps: &Vec<Comp>) -> (r: Option<GraphPlan>)
        requires
            comps@.len() == self@.components.len(),
        ensures
            r is Some <==> self@.output < self@.components.len(),
            r matches Some(p) ==> {
                &&& p.output == self@.output
                &&& is_plan(p.nodes@, self@.edges, comps@)
                &&& p.inputs@.len() == comps@.len()
                &&& forall|i: int|
                    0 <= i < comps@.len() ==> (#[trigger] p.inputs@[i])@ == inputs_of(
                        self@.edges,
                        comps@.len() as int,
                        i,
                    )
                &&& carries_every_edge(p.inputs@, self@.edges)
                &&& carries_nothing_else(p.inputs@, self@.edges)
                &&& forall|i: int|
                    0 <= i < comps@.len() ==> {
                        let node = #[trigger] p.nodes@[i];
                        &&& node.comp == comps@[i]
                        &&& node.driven <==> exists|k: int|
                            0 <= k < self@.edges.len() && (#[trigger] self@.edges[k]).to == i
                                && self@.edges[k].from < comps@.len()
                                && !comps@[self@.edges[k].from as int].excites()
                        &&& node.own_pitch <==> node.driven && (comps@[i] is String
                            || comps@[i] is Membrane)
                    }
            },
    {
        let n: usize = self.components.len();
        if n == 0 || self.output >= n {
            return None;
        }
        let mut nodes: Vec<NodePlan> = Vec::new();
        let mut i: usize = 0;
        while i < n
            invariant
                i <= n == comps@.len(),
                nodes@.len() == i,
                forall|j: int|
                    0 <= j < i ==> #[trigger] nodes@[j] == planned(self.edges@, comps@, j),
            decreases n - i,
        {
            let comp: Comp = comps[i];
            let driven: bool = is_fed_by_resonator(&self.edges, comps, i);
            nodes.push(NodePlan { comp, driven, own_pitch: driven && comp.rests_at_a_pitch() });
            i += 1;
        }
        let inputs = input_lists(&self.edges, n);
        proof {
            lemma_inputs_carry_the_edges(inputs@, self.edges@);
            assert forall|i: int| 0 <= i < comps@.len() implies #[trigger] nodes@[i] == planned(
                self.edges@,
                comps@,
                i,
            ) by {}
        }
        Some(GraphPlan { nodes, inputs, output: self.output })
    }
}

/// Every edge between nodes that are there is among the inputs of the node that it leads
/// to: where it comes from, and with its own gain.
pub open spec fn carries_every_edge(
    inputs: Seq<Vec<(usize, Single)>>,
    edges: Seq<Edge>,
) -> bool {
    forall|k: int|
        0 <= k < edges.len() && (#[trigger] edges[k]).from < inputs.len() && edges[k].to
            < inputs.len() ==> inputs[edges[k].to as int]@.contains((edges[k].from, edges[k].gain))
}

/// Some edge leads from `from` to `to` with this gain.
pub open spec fn is_edge(edges: Seq<Edge>, from: int, to: int, gain: Single) -> bool {
    exists|k: int|
        0 <= k < edges.len() && (#[trigger] edges[k]).from == from && edges[k].to == to
            && edges[k].gain == gain
}

/// Every input of a node is an edge that leads there, with the gain of that edge.
pub open spec fn carries_nothing_else(
    inputs: Seq<Vec<(usize, Single)>>,
    edges: Seq<Edge>,
) -> bool {
    forall|i: int, j: int|
        0 <= i < inputs.len() && 0 <= j < inputs[i]@.len() ==> (#[trigger] inputs[i]@[j]).0
            < inputs.len() && is_edge(edges, inputs[i]@[j].0 as int, i, inputs[i]@[j].1)
}

/// What feeds a node are the edges that lead to it from nodes that are there, each once and
/// in edge order, each with the node that it comes from and with its own gain. `order` says
/// which edge each input is.
pub proof fn inputs_are_the_edges_in_order(edges: Seq<Edge>, n: int, i: int) -> (order: Seq<int>)
    requires
        0 <= i < n,
    ensures
        order.len() == inputs_of(edges, n, i).len(),
        forall|j: int, k: int| 0 <= j < k < order.len() ==> order[j] < order[k],
        forall|j: int|
            0 <= j < order.len() ==> {
                let k = #[trigger] order[j];
                &&& 0 <= k < edges.len()
                &&& edges[k].to == i && edges[k].from < n
                &&& inputs_of(edges, n, i)[j].0 == edges[k].from
                &&& inputs_of(edges, n, i)[j].1 == edges[k].gain
            },
        forall|k: int|
            0 <= k < edges.len() && (#[trigger] edges[k]).to == i && edges[k].from < n
                ==> order.contains(k),
    decreases edges.len(),
{
    if edges.len() == 0 {
        Seq::empty()
    } else {
        let head = edges.drop_last();
        let rest = inputs_are_the_edges_in_order(head, n, i);
        let e = edges.last();
        let last = edges.len() - 1;
        assert forall|k: int| 0 <= k < head.len() implies head[k] == edges[k] by {}
        let order = if e.to == i && e.from < n {
            rest.push(last)
        } else {
            rest
        };
        assert forall|k: int|
            0 <= k < edges.len() && (#[trigger] edges[k]).to == i && edges[k].from < n implies
            order.contains(k) by {
            if k < last {
                assert(head[k].to == i);
                let j = choose|j: int| 0 <= j < rest.len() && rest[j] == k;
                assert(order[j] == k);
            } else {
                assert(order[rest.len() as int] == k);
            }
        }
        assert forall|j: int| 0 <= j < order.len() implies {
            let k = #[trigger] order[j];
            &&& 0 <= k < edges.len()
            &&& edges[k].to == i && edges[k].from < n
            &&& inputs_of(edges, n, i)[j].0 == edges[k].from
            &&& inputs_of(edges, n, i)[j].1 == edges[k].gain
        } by {
            if j < rest.len() {
                assert(order[j] == rest[j]);
                assert(head[rest[j]] == edges[rest[j]]);
            }
        }
        order
    }
}

/// Turning the gain of one edge between nodes that are there changes what its end is fed.
pub proof fn every_gain_is_heard(edges: Seq<Edge>, n: int, k: int, gain: Single)
    requires
        0 <= k < edges.len(),
        edges[k].from < n,
        edges[k].to < n,
        gain != edges[k].gain,
    ensures
        inputs_of(edges, n, edges[k].to as int) != inputs_of(
            edges.update(k, Edge { gain, ..edges[k] }),
            n,
            edges[k].to as int,
        ),
    decreases edges.len(),
{
    let i = edges[k].to as int;
    let other = edges.update(k, Edge { gain, ..edges[k] });
    let (a, b) = (inputs_of(edges.drop_last(), n, i), inputs_of(other.drop_last(), n, i));
    if k < edges.len() - 1 {
        assert(other.drop_last() =~= edges.drop_last().update(k, Edge { gain, ..edges[k] }));
        every_gain_is_heard(edges.drop_last(), n, k, gain);
        assert(other.last() == edges.last());
        let e = edges.last();
        if e.to == i && e.from < n && inputs_of(edges, n, i) == inputs_of(other, n, i) {
            assert(a =~= inputs_of(edges, n, i).drop_last());
            assert(b =~= inputs_of(other, n, i).drop_last());
        }
    } else {
        assert(other.drop_last() =~= edges.drop_last());
        assert(inputs_of(edges, n, i).last().1 == edges[k].gain);
        assert(inputs_of(other, n, i).last().1 == gain);
    }
}

proof fn lemma_inputs_carry_the_edges(inputs: Seq<Vec<(usize, Single)>>, edges: Seq<Edge>)
    requires
        forall|i: int|
            0 <= i < inputs.len() ==> (#[trigger] inputs[i])@ == inputs_of(
                edges,
                inputs.len() as int,
                i,
            ),
    ensures
        carries_every_edge(inputs, edges),
        carries_nothing_else(inputs, edges),
{
    let n = inputs.len() as int;
    assert forall|k: int|
        0 <= k < edges.len() && (#[trigger] edges[k]).from < n && edges[k].to < n implies
        inputs[edges[k].to as int]@.contains((edges[k].from, edges[k].gain)) by {
        let i = edges[k].to as int;
        let order = inputs_are_the_edges_in_order(edges, n, i);
        let j = choose|j: int| 0 <= j < order.len() && order[j] == k;
        assert(inputs[i]@[j] == (edges[k].from, edges[k].gain));
    }
    assert forall|i: int, j: int| 0 <= i < n && 0 <= j < inputs[i]@.len() implies (
    #[trigger] inputs[i]@[j]).0 < n && is_edge(
        edges,
        inputs[i]@[j].0 as int,
        i,
        inputs[i]@[j].1,
    ) by {
        let order = inputs_are_the_edges_in_order(edges, n, i);
        let k = order[j];
        assert(edges[k].to == i);
    }
}

/// How component `i` takes part in a voice.
pub open spec fn planned(edges: Seq<Edge>, comps: Seq<Comp>, i: int) -> NodePlan {
    let driven = fed_by_resonator(edges, comps, i);
    NodePlan { comp: comps[i], driven, own_pitch: driven && comps[i].has_resting_pitch() }
}

/// `nodes` says of each component how it takes part in a voice.
pub open spec fn is_plan(nodes: Seq<NodePlan>, edges: Seq<Edge>, comps: Seq<Comp>) -> bool {
    nodes.len() == comps.len() && forall|i: int|
        0 <= i < nodes.len() ==> #[trigger] nodes[i] == planned(edges, comps, i)
}

fn is_fed_by_resonator(edges: &Vec<Edge>, comps: &Vec<Comp>, i: usize) -> (r: bool)
    ensures
        r == fed_by_resonator(edges@, comps@, i as int),
{
    let mut k: usize = 0;
    while k < edges.len()
        invariant
            k <= edges@.len(),
            forall|j: int|
                0 <= j < k ==> !((#[trigger] edges@[j]).to == i && edges@[j].from < comps@.len()
                    && !comps@[edges@[j].from as int].excites()),
        decreases edges@.len() - k,
    {
        let e: Edge = edges[k];
        if e.to == i && e.from < comps.len() && !comps[e.from].is_exciter() {
            return true;
        }
        k += 1;
    }
    false
}

/// For each of `n` components, what feeds it and with what gain.
fn input_lists(edges: &Vec<Edge>, n: usize) -> (r: Vec<Vec<(usize, Single)>>)
    ensures
        r@.len() == n,
        forall|i: int| 0 <= i < n ==> (#[trigger] r@[i])@ == inputs_of(edges@, n as int, i),
{
    let mut r: Vec<Vec<(usize, Single)>> = Vec::new();
    let mut i: usize = 0;
    while i < n
        invariant
            i <= n,
            r@.len() == i,
            forall|j: int| 0 <= j < i ==> (#[trigger] r@[j])@.len() == 0,
        decreases n - i,
    {
        r.push(Vec::new());
        i += 1;
    }
    let mut k: usize = 0;
    while k < edges.len()
        invariant
            k <= edges@.len(),
            r@.len() == n,
            forall|j: int|
                0 <= j < n ==> (#[trigger] r@[j])@ == inputs_of(edges@.take(k as int), n as int, j),
        decreases edges@.len() - k,
    {
        let e: Edge = edges[k];
        let ghost before = r@;
        proof {
            assert(edges@.take(k + 1).drop_last() =~= edges@.take(k as int));
        }
        if e.from < n && e.to < n {
            r[e.to].push((e.from, e.gain));
        }
        proof {
            assert forall|j: int| 0 <= j < n implies (#[trigger] r@[j])@ == inputs_of(
                edges@.take(k + 1),
                n as int,
                j,
            ) by {
                assert(before[j]@ == inputs_of(edges@.take(k as int), n as int, j));
            }
        }
        k += 1;
    }
    proof {
        assert(edges@.take(k as int) =~= edges@);
    }
    r
}

/// The body of a fresh instrument.
pub open spec fn fresh_body() -> Comp {
    Comp::Body {
        cavity_litres: Single { bits: 0x4170_0000 },  // 15.0
        soundhole_cm: Single { bits: 0x4110_0000 },  // 9.0
        top_hz: Single { bits: 0x4343_0000 },  // 195.0
        decay_s: Single { bits: 0x3E38_51EC },  // 0.18
    }
}

/// A fresh instrument: a struck string, heard directly and, lightly, through a body.
pub open spec fn fresh_graph() -> GraphView {
    let one = Single { bits: ONE };
    let light = Single { bits: 0x3D4C_CCCD };  // 0.05
    GraphView {
        components: seq![
            Comp::Strike,
            Comp::String(pure_string::pure_string_defaults()),
            fresh_body(),
            Comp::Mix,
        ],
        edges: seq![
            Edge { from: 0, to: 1, gain: one },
            Edge { from: 1, to: 2, gain: one },
            Edge { from: 1, to: 3, gain: one },
            Edge { from: 2, to: 3, gain: light },
        ],
        output: 3,
        key_map: Seq::empty(),
    }
}

impl Default for InstrumentGraph {
    /// A struck string, heard directly and, lightly, through a body.
    fn default() -> (r: Self)
        ensures
            r@ == fresh_graph(),
    {
        let one = Single { bits: ONE };
        let body = Comp::Body {
            cavity_litres: Single { bits: 0x4170_0000 },  // 15.0
            soundhole_cm: Single { bits: 0x4110_0000 },  // 9.0
            top_hz: Single { bits: 0x4343_0000 },  // 195.0
            decay_s: Single { bits: 0x3E38_51EC },  // 0.18
        };
        let string: PureString = PureString::default();
        let r = InstrumentGraph {
            components: vec![Comp::Strike, Comp::String(string), body, Comp::Mix],
            edges: vec![
                Edge { from: 0, to: 1, gain: one },
                Edge { from: 1, to: 2, gain: one },
                Edge { from: 1, to: 3, gain: one },
                Edge { from: 2, to: 3, gain: Single { bits: 0x3D4C_CCCD } },  // 0.05
            ],
            output: 3,
            key_map: Vec::new(),
        };
        assert(r@ =~= fresh_graph());
        r
    }
}

proof fn lemma_edges_without_in_range(edges: Seq<Edge>, r: int, n: int)
    requires
        0 <= r < n,
        forall|i: int|
            0 <= i < edges.len() ==> (#[trigger] edges[i]).from < n && edges[i].to < n,
    ensures
        forall|i: int|
            0 <= i < edges_without(edges, r).len() ==> (#[trigger] edges_without(edges, r)[i]).from
                < n - 1 && edges_without(edges, r)[i].to < n - 1,
    decreases edges.len(),
{
    if edges.len() > 0 {
        let head = edges.drop_last();
        assert forall|i: int| 0 <= i < head.len() implies (#[trigger] head[i]).from < n
            && head[i].to < n by {
            assert(head[i] == edges[i]);
        }
        lemma_edges_without_in_range(head, r, n);
        assert(edges[edges.len() - 1].from < n);
        let rest = edges_without(head, r);
        let all = edges_without(edges, r);
        let (from, to): (usize, usize) = (edges.last().from, edges.last().to);
        assert(index_without(from, r) == if from > r { from - 1 } else { from as int });
        assert(index_without(to, r) == if to > r { to - 1 } else { to as int });
        assert forall|i: int| 0 <= i < all.len() implies (#[trigger] all[i]).from < n - 1
            && all[i].to < n - 1 by {
            if i < rest.len() {
                assert(all[i] == rest[i]);
            }
        }
    }
}

proof fn lemma_bindings_without_in_range(k: Seq<KeyBindingView>, r: int, n: int)
    requires
        0 <= r < n,
        forall|i: int| 0 <= i < k.len() ==> (#[trigger] k[i]).component < n,
    ensures
        forall|i: int|
            0 <= i < bindings_without(k, r).len() ==> (#[trigger] bindings_without(
                k,
                r,
            )[i]).component < n - 1,
    decreases k.len(),
{
    if k.len() > 0 {
        let head = k.drop_last();
        assert forall|i: int| 0 <= i < head.len() implies (#[trigger] head[i]).component < n by {
            assert(head[i] == k[i]);
        }
        lemma_bindings_without_in_range(head, r, n);
        assert(k[k.len() - 1].component < n);
    }
}

/// Removing a component of a valid graph, other than its last one, leaves a valid
/// graph: no index dangles.
pub proof fn removal_keeps_a_graph_valid(g: GraphView, r: int)
    requires
        g.is_valid(),
        0 <= r < g.components.len(),
        g.components.len() > 1,
    ensures
        g.without(r).is_valid(),
{
    lemma_edges_without_in_range(g.edges, r, g.components.len() as int);
    lemma_bindings_without_in_range(g.key_map, r, g.components.len() as int);
}

/// Removing component `r` keeps the edges that do not touch it, in order and with their
/// gains, between the same components as before, which have moved down by one where they
/// came after `r`. `order` says which edge each of them was.
pub proof fn removal_keeps_the_other_edges(edges: Seq<Edge>, r: int) -> (order: Seq<int>)
    requires
        0 <= r,
    ensures
        order.len() == edges_without(edges, r).len(),
        forall|j: int, k: int| 0 <= j < k < order.len() ==> order[j] < order[k],
        forall|j: int|
            0 <= j < order.len() ==> {
                let k = #[trigger] order[j];
                let f = edges_without(edges, r)[j];
                &&& 0 <= k < edges.len()
                &&& edges[k].from != r && edges[k].to != r
                &&& f.gain == edges[k].gain
                &&& edges[k].from < r ==> f.from == edges[k].from
                &&& edges[k].from > r ==> f.from == edges[k].from - 1
                &&& edges[k].to < r ==> f.to == edges[k].to
                &&& edges[k].to > r ==> f.to == edges[k].to - 1
            },
        forall|k: int|
            0 <= k < edges.len() && (#[trigger] edges[k]).from != r && edges[k].to != r
                ==> order.contains(k),
    decreases edges.len(),
{
    if edges.len() == 0 {
        Seq::empty()
    } else {
        let head = edges.drop_last();
        let rest = removal_keeps_the_other_edges(head, r);
        let e = edges.last();
        let last = edges.len() - 1;
        let order = if e.from == r || e.to == r {
            rest
        } else {
            rest.push(last)
        };
        assert forall|k: int| 0 <= k < head.len() implies head[k] == edges[k] by {}
        assert forall|k: int|
            0 <= k < edges.len() && (#[trigger] edges[k]).from != r && edges[k].to != r implies
            order.contains(k) by {
            if k < last {
                assert(head[k].from != r);
                let j = choose|j: int| 0 <= j < rest.len() && rest[j] == k;
                assert(order[j] == k);
            } else {
                assert(order[rest.len() as int] == k);
            }
        }
        assert forall|j: int| 0 <= j < order.len() implies {
            let k = #[trigger] order[j];
            let f = edges_without(edges, r)[j];
            &&& 0 <= k < edges.len()
            &&& edges[k].from != r && edges[k].to != r
            &&& f.gain == edges[k].gain
            &&& edges[k].from < r ==> f.from == edges[k].from
            &&& edges[k].from > r ==> f.from == edges[k].from - 1
            &&& edges[k].to < r ==> f.to == edges[k].to
            &&& edges[k].to > r ==> f.to == edges[k].to - 1
        } by {
            if j < rest.len() {
                assert(order[j] == rest[j]);
                assert(head[rest[j]] == edges[rest[j]]);
                assert(edges_without(edges, r)[j] == edges_without(head, r)[j]);
            }
        }
        order
    }
}

/// Removing component `r` keeps the bindings of the other components, in order and as they
/// drove, to the same components as before. `order` says which binding each of them was.
pub proof fn removal_keeps_the_other_bindings(k: Seq<KeyBindingView>, r: int) -> (order: Seq<int>)
    requires
        0 <= r,
    ensures
        order.len() == bindings_without(k, r).len(),
        forall|i: int, j: int| 0 <= i < j < order.len() ==> order[i] < order[j],
        forall|j: int|
            0 <= j < order.len() ==> {
                let b = k[#[trigger] order[j]];
                let c = bindings_without(k, r)[j];
                &&& 0 <= order[j] < k.len()
                &&& b.component != r
                &&& c.map == b.map
                &&& b.component < r ==> c.component == b.component
                &&& b.component > r ==> c.component == b.component - 1
            },
        forall|i: int|
            0 <= i < k.len() && (#[trigger] k[i]).component != r ==> order.contains(i),
    decreases k.len(),
{
    if k.len() == 0 {
        Seq::empty()
    } else {
        let head = k.drop_last();
        let rest = removal_keeps_the_other_bindings(head, r);
        let last = k.len() - 1;
        let order = if k.last().component == r {
            rest
        } else {
            rest.push(last)
        };
        assert forall|i: int| 0 <= i < head.len() implies head[i] == k[i] by {}
        assert forall|i: int| 0 <= i < k.len() && (#[trigger] k[i]).component != r implies
            order.contains(i) by {
            if i < last {
                assert(head[i].component != r);
                let j = choose|j: int| 0 <= j < rest.len() && rest[j] == i;
                assert(order[j] == i);
            } else {
                assert(order[rest.len() as int] == i);
            }
        }
        assert forall|j: int| 0 <= j < order.len() implies {
            let b = k[#[trigger] order[j]];
            let c = bindings_without(k, r)[j];
            &&& 0 <= order[j] < k.len()
            &&& b.component != r
            &&& c.map == b.map
            &&& b.component < r ==> c.component == b.component
            &&& b.component > r ==> c.component == b.component - 1
        } by {
            if j < rest.len() {
                assert(order[j] == rest[j]);
                assert(head[rest[j]] == k[rest[j]]);
                assert(bindings_without(k, r)[j] == bindings_without(head, r)[j]);
            }
        }
        order
    }
}

/// Removing component `r` keeps the other components, those after it one place further
/// down, and removing one that is not there changes nothing.
pub proof fn removal_keeps_the_other_components(g: GraphView, r: int, i: int)
    requires
        0 <= i < g.components.len(),
    ensures
        0 <= r < g.components.len() ==> g.without(r).components.len() == g.components.len() - 1,
        0 <= i < r < g.components.len() ==> g.without(r).components[i] == g.components[i],
        0 <= r < i ==> g.without(r).components[i - 1] == g.components[i],
        !(0 <= r < g.components.len()) ==> g.without(r) == g,
{
}

/// What does not refer to `r` or beyond is kept as it is.
proof fn lemma_without_the_unused(edges: Seq<Edge>, k: Seq<KeyBindingView>, r: int)
    requires
        forall|i: int|
            0 <= i < edges.len() ==> (#[trigger] edges[i]).from < r && edges[i].to < r,
        forall|i: int| 0 <= i < k.len() ==> (#[trigger] k[i]).component < r,
    ensures
        edges_without(edges, r) == edges,
        bindings_without(k, r) == k,
    decreases edges.len() + k.len(),
{
    if edges.len() > 0 {
        let head = edges.drop_last();
        assert(forall|i: int| 0 <= i < head.len() ==> head[i] == edges[i]);
        lemma_without_the_unused(head, Seq::empty(), r);
        assert(edges[edges.len() - 1] == edges.last());
        assert(head.push(edges.last()) =~= edges);
    }
    if k.len() > 0 {
        let head = k.drop_last();
        assert(forall|i: int| 0 <= i < head.len() ==> head[i] == k[i]);
        lemma_without_the_unused(Seq::empty(), head, r);
        assert(k[k.len() - 1] == k.last());
        assert(head.push(k.last()) =~= k);
    }
}

/// Adding a component to a valid graph and removing it again changes nothing.
pub proof fn a_new_component_can_be_taken_back(g: GraphView, c: Comp)
    requires
        g.is_valid(),
    ensures
        (GraphView { components: g.components.push(c), ..g }).without(g.components.len() as int)
            == g,
{
    lemma_without_the_unused(g.edges, g.key_map, g.components.len() as int);
    assert(g.components.push(c).remove(g.components.len() as int) =~= g.components);
}

/// The component that was heard is still heard, unless it was the one removed.
pub proof fn removal_keeps_the_output(g: GraphView, r: int)
    requires
        0 <= g.output < g.components.len(),
        0 <= r < g.components.len(),
        r != g.output,
    ensures
        g.without(r).components[g.without(r).output] == g.components[g.output],
{
}

proof fn lemma_inputs_in_range(edges: Seq<Edge>, n: int, i: int)
    ensures
        forall|k: int|
            0 <= k < inputs_of(edges, n, i).len() ==> (#[trigger] inputs_of(edges, n, i)[k]).0 < n,
    decreases edges.len(),
{
    if edges.len() > 0 {
        lemma_inputs_in_range(edges.drop_last(), n, i);
        let rest = inputs_of(edges.drop_last(), n, i);
        let all = inputs_of(edges, n, i);
        assert forall|k: int| 0 <= k < all.len() implies (#[trigger] all[k]).0 < n by {
            if k < rest.len() {
                assert(all[k] == rest[k]);
            }
        }
    }
}

/// A node colours what it is fed exactly if some resonator feeds it, and only then can it
/// keep a pitch of its own, which strings and membranes do; the component is the one at
/// that place.
pub proof fn only_fed_resonators_colour(edges: Seq<Edge>, comps: Seq<Comp>, i: int)
    requires
        0 <= i < comps.len(),
    ensures
        planned(edges, comps, i).comp == comps[i],
        planned(edges, comps, i).driven <==> exists|k: int|
            0 <= k < edges.len() && (#[trigger] edges[k]).to == i && edges[k].from < comps.len()
                && !comps[edges[k].from as int].excites(),
        planned(edges, comps, i).own_pitch <==> planned(edges, comps, i).driven && (
        comps[i] is String || comps[i] is Membrane),
        (forall|k: int|
            0 <= k < edges.len() && (#[trigger] edges[k]).to == i && edges[k].from < comps.len()
                ==> comps[edges[k].from as int].excites()) ==> !planned(edges, comps, i).driven,
{
}

/// A voice never reads a node that is not there, however broken the wiring.
pub proof fn inputs_are_nodes(edges: Seq<Edge>, n: int, i: int, k: int)
    requires
        0 <= k < inputs_of(edges, n, i).len(),
    ensures
        inputs_of(edges, n, i)[k].0 < n,
{
    lemma_inputs_in_range(edges, n, i);
}

fn moved_down(i: usize, r: usize) -> (x: usize)
    ensures
        x == index_without(i, r as int),
{
    if i > r {
        i - 1
    } else {
        i
    }
}

/// Keeps the edges that do not touch `r`, with their indices moved down.
fn drop_edges(edges: &mut Vec<Edge>, r: usize)
    ensures
        final(edges)@ == edges_without(old(edges)@, r as int),
{
    let mut kept: Vec<Edge> = Vec::new();
    let mut i: usize = 0;
    while i < edges.len()
        invariant
            edges@ == old(edges)@,
            i <= edges@.len(),
            kept@ == edges_without(edges@.take(i as int), r as int),
        decreases edges@.len() - i,
    {
        let e: Edge = edges[i];
        proof {
            assert(edges@.take(i + 1).drop_last() =~= edges@.take(i as int));
        }
        if e.from != r && e.to != r {
            kept.push(Edge { from: moved_down(e.from, r), to: moved_down(e.to, r), gain: e.gain });
        }
        i += 1;
    }
    proof {
        assert(edges@.take(i as int) =~= edges@);
    }
    *edges = kept;
}

/// Keeps the bindings that do not drive `r`, with their indices moved down.
fn drop_bindings(key_map: &mut Vec<KeyBinding>, r: usize)
    ensures
        bindings(final(key_map)@) == bindings_without(bindings(old(key_map)@), r as int),
{
    let mut kept: Vec<KeyBinding> = Vec::new();
    let mut i: usize = 0;
    while i < key_map.len()
        invariant
            key_map@ == old(key_map)@,
            i <= key_map@.len(),
            bindings(kept@) == bindings_without(bindings(key_map@).take(i as int), r as int),
        decreases key_map@.len() - i,
    {
        let component: usize = key_map[i].component;
        proof {
            let now = bindings(key_map@).take(i + 1);
            assert(now.drop_last() =~= bindings(key_map@).take(i as int));
            assert(now.last() == key_map@[i as int]@);
        }
        if component != r {
            let ghost before = kept@;
            let b = KeyBinding {
                component: moved_down(component, r),
                map: key_map[i].map.clone(),
            };
            kept.push(b);
            proof {
                assert(bindings(kept@) =~= bindings(before).push(b@));
            }
        }
        i += 1;
    }
    proof {
        assert(bindings(key_map@).take(i as int) =~= bindings(key_map@));
    }
    *key_map = kept;
}

/// A fresh instrument strikes a string that is heard at full level, and with it a body that
/// is mixed in at a twentieth of that.
pub proof fn fresh_instruments_are_strings_with_a_body()
    ensures
        fresh_graph().is_valid(),
        fresh_graph().components.len() == 4,
        fresh_graph().components[0] is Strike,
        fresh_graph().components[1] is String,
        fresh_graph().components[2] is Body,
        fresh_graph().components[3] is Mix,
        fresh_graph().output == 3,
        fresh_graph().key_map.len() == 0,
        is_edge(fresh_graph().edges, 0, 1, crate::decimal::decimal(1_0000)),
        is_edge(fresh_graph().edges, 1, 2, crate::decimal::decimal(1_0000)),
        is_edge(fresh_graph().edges, 1, 3, crate::decimal::decimal(1_0000)),
        is_edge(fresh_graph().edges, 2, 3, crate::decimal::decimal(0_0500)),
        fresh_graph().edges.len() == 4,
        fresh_body() == (Comp::Body {
            cavity_litres: crate::decimal::decimal(15_0000),
            soundhole_cm: crate::decimal::decimal(9_0000),
            top_hz: crate::decimal::decimal(195_0000),
            decay_s: crate::decimal::decimal(0_1800),
        }),
{
    vstd::arithmetic::power2::lemma2_to64();
    vstd::arithmetic::power2::lemma2_to64_rest();
    crate::decimal::decimal_is(1_0000, 23, 0x800000, 0x800000);
    crate::decimal::decimal_is(0_0500, 28, 0x10000000, 0xCCCCCD);
    crate::decimal::decimal_is(15_0000, 20, 0x100000, 0xF00000);
    crate::decimal::decimal_is(9_0000, 20, 0x100000, 0x900000);
    crate::decimal::decimal_is(195_0000, 16, 0x10000, 0xC30000);
    crate::decimal::decimal_is(0_1800, 26, 0x4000000, 0xB851EC);
    let e = fresh_graph().edges;
    assert(e[0].from == 0 && e[1].from == 1 && e[2].from == 1 && e[3].from == 2);
}

/// The wires of a layout run as the edges do, and if what was heard is removed, the last
/// component is heard.
pub proof fn wires_run_as_the_edges_do(g: GraphView, i: int)
    ensures
        wires(g.edges).len() == g.edges.len(),
        0 <= i < g.edges.len() ==> wires(g.edges)[i].0 == g.edges[i].from && wires(g.edges)[i].1
            == g.edges[i].to,
        g.components.len() > 1 && 0 <= g.output < g.components.len() ==> g.without(
            g.output,
        ).output == g.components.len() - 2,
{
}

} // verus!
