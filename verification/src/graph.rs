//! The per-sample voice graph: how its nodes read one another, and the parts of them
//! that only store and repeat samples.
//!
//! Every node reads what the others gave in the sample before, so the order in which
//! nodes run does not matter and feedback loops need no special care. What a node
//! computes is up to the caller.

use crate::models::instrument_graph;
use crate::models::instrument_graph::{GraphPlan, NodePlan};
use crate::single::{Single, ZERO};
use vstd::prelude::*;

verus! {

/// A control message for every node of a voice.
#[derive(Clone, Copy, Debug, PartialEq, Eq, Structural)]
pub enum Control {
    /// Pitch-bend ratio.
    Bend(Single),
    /// Whether the key is down.
    Gate(bool),
    /// Mouth-pressure multiplier.
    Breath(Single),
}

/// A mixer: the sum of its inputs, which the edges have already scaled.
#[derive(Clone, Copy, Debug, PartialEq, Eq, Structural)]
pub struct Sum;

/// The wiring of a voice and the samples that travel along it.
pub struct Graph {
    /// For each node, the nodes that feed it and their gains.
    pub inputs: Vec<Vec<(usize, Single)>>,
    /// The node that is heard.
    pub output: usize,
    /// What each node gave in the last sample.
    pub last: Vec<Single>,
    /// What each node has given in this one.
    pub cur: Vec<Single>,
}

/// `n` silent samples.
pub open spec fn silence(n: nat) -> Seq<Single> {
    Seq::new(n, |i: int| Single { bits: ZERO })
}

fn silent_samples(n: usize) -> (r: Vec<Single>)
    ensures
        r@ == silence(n as nat),
{
    let mut r: Vec<Single> = Vec::new();
    let mut i: usize = 0;
    while i < n
        invariant
            i <= n,
            r@ == silence(i as nat),
        decreases n - i,
    {
        r.push(Single { bits: ZERO });
        i += 1;
        assert(r@ =~= silence(i as nat));
    }
    r
}

impl Graph {
    /// There is a sample for each node, and no edge leads to a node that is not there.
    pub open spec fn is_valid(self) -> bool {
        &&& self.last@.len() == self.inputs@.len()
        &&& self.cur@.len() == self.inputs@.len()
        &&& self.output < self.inputs@.len()
        &&& forall|i: int, k: int|
            0 <= i < self.inputs@.len() && 0 <= k < self.inputs@[i]@.len() ==> (
            #[trigger] self.inputs@[i]@[k]).0 < self.inputs@.len()
    }

    /// The wiring of a planned voice, silent; and the nodes to build for it.
    pub fn new(plan: GraphPlan) -> (r: (Graph, Vec<NodePlan>))
        requires
            plan.output < plan.inputs@.len(),
            forall|i: int, k: int|
                0 <= i < plan.inputs@.len() && 0 <= k < plan.inputs@[i]@.len() ==> (
                #[trigger] plan.inputs@[i]@[k]).0 < plan.inputs@.len(),
        ensures
            r.0.is_valid(),
            r.0.inputs == plan.inputs,
            r.0.output == plan.output,
            r.0.last@ == silence(plan.inputs@.len()),
            r.0.cur@ == silence(plan.inputs@.len()),
            r.1 == plan.nodes,
    {
        let n: usize = plan.inputs.len();
        (
            Graph {
                inputs: plan.inputs,
                output: plan.output,
                last: silent_samples(n),
                cur: silent_samples(n),
            },
            plan.nodes,
        )
    }

    /// What node `i` reads: for each of its edges, the sample before and the gain.
    pub fn taps(&self, i: usize) -> (r: Vec<(Single, Single)>)
        requires
            self.is_valid(),
            i < self.inputs@.len(),
        ensures
            r@ == Seq::new(
                self.inputs@[i as int]@.len(),
                |k: int|
                    (
                        self.last@[self.inputs@[i as int]@[k].0 as int],
                        self.inputs@[i as int]@[k].1,
                    ),
            ),
    {
        let mut r: Vec<(Single, Single)> = Vec::new();
        let edges = &self.inputs[i];
        let mut k: usize = 0;
        while k < edges.len()
            invariant
                self.is_valid(),
                i < self.inputs@.len(),
                *edges == self.inputs@[i as int],
                k <= edges@.len(),
                r@ == Seq::new(k as nat, |j: int| (self.last@[edges@[j].0 as int], edges@[j].1)),
            decreases edges@.len() - k,
        {
            let (from, gain) = edges[k];
            assert(self.inputs@[i as int]@[k as int].0 < self.inputs@.len());
            r.push((self.last[from], gain));
            k += 1;
            assert(r@ =~= Seq::new(
                k as nat,
                |j: int| (self.last@[edges@[j].0 as int], edges@[j].1),
            ));
        }
        r
    }

    /// Node `i` gives a sample.
    pub fn give(&mut self, i: usize, x: Single)
        requires
            old(self).is_valid(),
            i < old(self).inputs@.len(),
        ensures
            final(self).is_valid(),
            final(self).inputs == old(self).inputs,
            final(self).output == old(self).output,
            final(self).last@ == old(self).last@,
            final(self).cur@ == old(self).cur@.update(i as int, x),
    {
        self.cur.set(i, x);
    }

    /// The sample is over: what the nodes gave is what they read next. Returns what is
    /// heard.
    pub fn finish(&mut self) -> (r: Single)
        requires
            old(self).is_valid(),
        ensures
            final(self).is_valid(),
            final(self).inputs == old(self).inputs,
            final(self).output == old(self).output,
            final(self).last@ == old(self).cur@,
            final(self).cur@ == old(self).last@,
            r == old(self).cur@[old(self).output as int],
    {
        std::mem::swap(&mut self.last, &mut self.cur);
        self.last[self.output]
    }
}

/// Any plan that an instrument graph gives can be wired up.
pub proof fn plans_can_be_wired(
    edges: Seq<instrument_graph::Edge>,
    inputs: Seq<Vec<(usize, Single)>>,
    n: int,
    i: int,
    k: int,
)
    requires
        inputs.len() == n,
        forall|j: int|
            0 <= j < n ==> (#[trigger] inputs[j])@ == instrument_graph::inputs_of(edges, n, j),
        0 <= i < n,
        0 <= k < inputs[i]@.len(),
    ensures
        inputs[i]@[k].0 < n,
{
    instrument_graph::inputs_are_nodes(edges, n, i, k);
}

/// A one-shot strike.
#[derive(Clone, Copy, Debug, PartialEq, Eq, Structural)]
pub struct ImpulseExciter {
    /// How strong it is.
    pub amp: Single,
    /// Whether it has struck.
    pub fired: bool,
}

impl ImpulseExciter {
    /// A strike to come.
    pub fn new(amp: Single) -> (r: Self)
        ensures
            r == (ImpulseExciter { amp, fired: false }),
    {
        ImpulseExciter { amp, fired: false }
    }

    /// The next sample: the strike itself at first, silence ever after.
    pub fn tick(&mut self) -> (r: Single)
        ensures
            r == if old(self).fired {
                Single { bits: ZERO }
            } else {
                old(self).amp
            },
            *final(self) == (ImpulseExciter { amp: old(self).amp, fired: true }),
    {
        if self.fired {
            Single { bits: ZERO }
        } else {
            self.fired = true;
            self.amp
        }
    }
}

/// A delay line: the last samples written, in a ring.
pub struct DelayLine {
    /// The ring.
    pub ring: Vec<Single>,
    /// Where the next sample goes, over the oldest one.
    pub pos: usize,
}

impl DelayLine {
    /// The ring is not empty, and the next sample goes into it.
    pub open spec fn is_valid(self) -> bool {
        self.pos < self.ring@.len()
    }

    /// The samples held, the oldest first.
    pub open spec fn history(self) -> Seq<Single> {
        Seq::new(
            self.ring@.len(),
            |j: int| self.ring@[(self.pos + j) % (self.ring@.len() as int)],
        )
    }

    /// A line of `n` silent samples.
    pub fn new(n: usize) -> (r: Self)
        requires
            n > 0,
        ensures
            r.is_valid(),
            r.history() == silence(n as nat),
    {
        let r = DelayLine { ring: silent_samples(n), pos: 0 };
        assert(r.history() =~= silence(n as nat));
        r
    }

    /// Writes a sample over the oldest one.
    pub fn write(&mut self, x: Single)
        requires
            old(self).is_valid(),
        ensures
            final(self).is_valid(),
            final(self).history() == old(self).history().drop_first().push(x),
    {
        let ghost before = self.ring@;
        let ghost p = self.pos as int;
        let n: usize = self.ring.len();
        self.ring.set(self.pos, x);
        self.pos = if self.pos + 1 == n {
            0
        } else {
            self.pos + 1
        };
        proof {
            let m = n as int;
            let q = self.pos as int;
            let want = old(self).history().drop_first().push(x);
            assert forall|j: int| 0 <= j < m implies self.history()[j] == want[j] by {
                vstd::arithmetic::div_mod::lemma_small_mod(0, m as nat);
                lemma_wrap(q + j, m);
                lemma_wrap(p + j + 1, m);
                if j < m - 1 {
                    assert(want[j] == old(self).history()[j + 1]);
                }
            }
            assert(self.history() =~= want);
        }
    }

    /// The sample written `back` writes ago, and the one written after it (for a line
    /// that is read between two samples). The one after the newest is the oldest.
    pub fn read(&self, back: usize) -> (r: (Single, Single))
        requires
            self.is_valid(),
            1 <= back <= self.ring@.len(),
        ensures
            r.0 == self.history()[self.ring@.len() - back],
            r.1 == if back > 1 {
                self.history()[self.ring@.len() - back + 1]
            } else {
                self.history()[0]
            },
    {
        let n: usize = self.ring.len();
        let i: usize = if self.pos >= back {
            self.pos - back
        } else {
            n - (back - self.pos)
        };
        let k: usize = if i + 1 == n {
            0
        } else {
            i + 1
        };
        proof {
            let m = n as int;
            lemma_wrap(self.pos + (m - back), m);
            lemma_wrap(self.pos + (m - back + 1), m);
            lemma_wrap(self.pos as int, m);
        }
        (self.ring[i], self.ring[k])
    }
}

proof fn lemma_wrap(x: int, m: int)
    requires
        0 <= x < 2 * m,
    ensures
        x % m == if x < m {
            x
        } else {
            x - m
        },
{
    if x < m {
        vstd::arithmetic::div_mod::lemma_small_mod(x as nat, m as nat);
    } else {
        vstd::arithmetic::div_mod::lemma_mod_add_multiples_vanish(x - m, m);
        vstd::arithmetic::div_mod::lemma_small_mod((x - m) as nat, m as nat);
    }
}

/// The samples held after writing `xs` to a line that held `h`.
pub open spec fn written(h: Seq<Single>, xs: Seq<Single>) -> Seq<Single>
    decreases xs.len(),
{
    if xs.len() == 0 {
        h
    } else {
        written(h.drop_first().push(xs[0]), xs.drop_first())
    }
}

/// A sample comes back from a delay line after as many writes as it is asked to wait:
/// after `xs`, the sample written `back` writes ago is the one so far from their end.
pub proof fn delay_gives_samples_back(h: Seq<Single>, xs: Seq<Single>, back: int)
    requires
        h.len() > 0,
        1 <= back <= h.len(),
        back <= xs.len(),
    ensures
        written(h, xs).len() == h.len(),
        written(h, xs)[h.len() - back] == xs[xs.len() - back],
    decreases xs.len(),
{
    let g = h.drop_first().push(xs[0]);
    if back < xs.len() {
        delay_gives_samples_back(g, xs.drop_first(), back);
    } else {
        lemma_written_shift(h, xs);
    }
}

proof fn lemma_written_shift(h: Seq<Single>, xs: Seq<Single>)
    requires
        xs.len() <= h.len(),
    ensures
        written(h, xs) == (h + xs).skip(xs.len() as int),
    decreases xs.len(),
{
    if xs.len() == 0 {
        assert((h + xs).skip(0) =~= h);
    } else {
        let g = h.drop_first().push(xs[0]);
        lemma_written_shift(g, xs.drop_first());
        assert((g + xs.drop_first()).skip(xs.len() - 1) =~= (h + xs).skip(xs.len() as int));
    }
}

/// What a delay line holds, read backwards: the newest sample lies just before the place of
/// the next one, going round the ring.
pub proof fn the_newest_sample_is_behind_the_next(d: DelayLine, back: int)
    requires
        d.is_valid(),
        1 <= back <= d.ring@.len(),
    ensures
        d.history().len() == d.ring@.len(),
        back <= d.pos ==> d.history()[d.ring@.len() - back] == d.ring@[d.pos - back],
        back > d.pos ==> d.history()[d.ring@.len() - back] == d.ring@[d.pos + d.ring@.len()
            - back],
        forall|n: nat, i: int| 0 <= i < n ==> (#[trigger] silence(n)[i]).bits == 0,
{
    lemma_wrap(d.pos + d.ring@.len() - back, d.ring@.len() as int);
}

} // verus!
