//! Left-to-right layering of a directed graph that may hold feedback loops.
//!
//! A depth-first search marks the edges that close a loop. The others, the
//! forward edges, form no loop: a node's column is the length of the longest
//! chain of forward edges that ends in it, and its row counts the nodes already
//! placed in that column.

use vstd::prelude::*;

verus! {

/// A place on the layout grid.
#[derive(Clone, Copy, Debug, PartialEq, Eq, Structural)]
pub struct Cell {
    /// Column, from the left.
    pub col: usize,
    /// Row, from the top.
    pub row: usize,
}

/// The nodes that the edges out of `u` lead to, in edge order. Edges with an end
/// that is not below `n` are ignored.
pub open spec fn targets(n: int, edges: Seq<(usize, usize)>, u: int) -> Seq<int>
    decreases edges.len(),
{
    if edges.len() == 0 {
        Seq::empty()
    } else {
        let rest = targets(n, edges.drop_last(), u);
        let e = edges.last();
        if e.0 == u && e.0 < n && e.1 < n {
            rest.push(e.1 as int)
        } else {
            rest
        }
    }
}

/// For each of `n` nodes, the nodes that its outgoing edges lead to.
pub open spec fn adjacency(n: nat, edges: Seq<(usize, usize)>) -> Seq<Seq<int>> {
    Seq::new(n, |u: int| targets(n as int, edges, u))
}

/// Every edge of `g` leads to one of its nodes.
pub open spec fn is_graph(g: Seq<Seq<int>>) -> bool {
    forall|u: int, k: int| 0 <= u < g.len() && 0 <= k < g[u].len() ==> 0 <= #[trigger] g[u][k] < g.len()
}

/// A depth-first search under way.
pub ghost struct Search {
    /// The path being explored: each node, and how many of its edges are done.
    pub stack: Seq<(int, int)>,
    /// The nodes that are finished, in the order in which they were finished.
    pub done: Seq<int>,
    /// The edges found to lead back onto the path, as (node, edge number).
    pub back: Set<(int, int)>,
}

impl Search {
    /// `v` is on the path being explored.
    pub open spec fn on_stack(self, v: int) -> bool {
        exists|i: int| 0 <= i < self.stack.len() && (#[trigger] self.stack[i]).0 == v
    }

    /// `v` has been reached.
    pub open spec fn seen(self, v: int) -> bool {
        self.on_stack(v) || self.done.contains(v)
    }

    /// The first node at or after `v` that has not been reached.
    pub open spec fn first_new(self, n: int, v: int) -> int
        decreases n - v,
    {
        if v < n && self.seen(v) {
            self.first_new(n, v + 1)
        } else {
            v
        }
    }

    /// One step: follow the next edge of the last node on the path, or finish
    /// that node; with no path, start at the first node not reached yet.
    pub open spec fn step(self, g: Seq<Seq<int>>) -> Search {
        if self.stack.len() == 0 {
            let s = self.first_new(g.len() as int, 0);
            if s < g.len() {
                Search { stack: seq![(s, 0int)], ..self }
            } else {
                self
            }
        } else {
            let (u, k) = self.stack.last();
            let rest = self.stack.drop_last();
            if k < g[u].len() {
                let v = g[u][k];
                let stack = rest.push((u, k + 1));
                if self.on_stack(v) {
                    Search { stack, back: self.back.insert((u, k)), ..self }
                } else if self.done.contains(v) {
                    Search { stack, ..self }
                } else {
                    Search { stack: stack.push((v, 0int)), ..self }
                }
            } else {
                Search { stack: rest, done: self.done.push(u), ..self }
            }
        }
    }

    /// Nothing is left to explore.
    pub open spec fn at_rest(self, g: Seq<Seq<int>>) -> bool {
        self.stack.len() == 0 && self.first_new(g.len() as int, 0) >= g.len()
    }
}

/// The search of `g` after `k` steps.
pub open spec fn search(g: Seq<Seq<int>>, k: nat) -> Search
    decreases k,
{
    if k == 0 {
        Search { stack: Seq::empty(), done: Seq::empty(), back: Set::empty() }
    } else {
        search(g, (k - 1) as nat).step(g)
    }
}

/// The edges of `g`, as (node, edge number), that the finished search marked as
/// leading back.
pub open spec fn back_edges(g: Seq<Seq<int>>) -> Set<(int, int)> {
    search(g, choose|k: nat| (#[trigger] search(g, k)).at_rest(g)).back
}

/// Edge `k` out of node `u` exists and does not lead back.
pub open spec fn forward(g: Seq<Seq<int>>, u: int, k: int) -> bool {
    0 <= u < g.len() && 0 <= k < g[u].len() && !back_edges(g).contains((u, k))
}

/// A chain of `l` forward edges ends in `v`.
pub open spec fn chain(g: Seq<Seq<int>>, v: int, l: nat) -> bool
    decreases l,
{
    l == 0 || exists|u: int, k: int|
        #[trigger] forward(g, u, k) && g[u][k] == v && chain(g, u, (l - 1) as nat)
}

/// A path of `l` edges leads from `a` to `b`.
pub open spec fn path(g: Seq<Seq<int>>, a: int, b: int, l: nat) -> bool
    decreases l,
{
    if l == 0 {
        a == b
    } else {
        exists|u: int, k: int|
            0 <= u < g.len() && 0 <= k < g[u].len() && #[trigger] g[u][k] == b && path(
                g,
                a,
                u,
                (l - 1) as nat,
            )
    }
}

/// `b` can be reached from `a`.
pub open spec fn reaches(g: Seq<Seq<int>>, a: int, b: int) -> bool {
    exists|l: nat| #[trigger] path(g, a, b, l)
}

/// How many of the first `i` entries of `col` are `c`.
pub open spec fn count_of(col: Seq<usize>, i: int, c: usize) -> nat
    decreases i,
{
    if i <= 0 {
        0
    } else if col[i - 1] == c {
        count_of(col, i - 1, c) + 1
    } else {
        count_of(col, i - 1, c)
    }
}

/// `col` gives each node of `g` the length of the longest chain of forward edges
/// that ends in it.
pub open spec fn is_columns(g: Seq<Seq<int>>, col: Seq<usize>) -> bool {
    &&& col.len() == g.len()
    &&& forall|v: int| 0 <= v < g.len() ==> chain(g, v, (#[trigger] col[v]) as nat)
    &&& forall|v: int, l: nat| 0 <= v < g.len() && #[trigger] chain(g, v, l) ==> l <= col[v]
}

/// The cells of a layout, read as columns.
pub open spec fn columns(cells: Seq<Cell>) -> Seq<usize> {
    cells.map_values(|c: Cell| c.col)
}

/// `cells` places each node of `g`: in the column of its longest chain of forward
/// edges, below the earlier nodes of that column.
pub open spec fn is_layout(g: Seq<Seq<int>>, cells: Seq<Cell>) -> bool {
    &&& is_columns(g, columns(cells))
    &&& forall|i: int|
        0 <= i < cells.len() ==> (#[trigger] cells[i]).row == count_of(
            columns(cells),
            i,
            cells[i].col,
        )
}

impl Search {
    /// What holds at every moment of a search of `g`.
    spec fn inv(self, g: Seq<Seq<int>>) -> bool {
        &&& self.well_placed(g)
        &&& self.settled(g)
        &&& self.pending(g)
        &&& self.linked(g)
    }

    /// The path and the finished nodes are nodes of `g`, none of them twice.
    spec fn well_placed(self, g: Seq<Seq<int>>) -> bool {
        &&& forall|i: int|
            0 <= i < self.stack.len() ==> 0 <= (#[trigger] self.stack[i]).0 < g.len() && 0
                <= self.stack[i].1 <= g[self.stack[i].0].len()
        &&& forall|i: int, j: int|
            0 <= i < j < self.stack.len() ==> (#[trigger] self.stack[i]).0 != (
            #[trigger] self.stack[j]).0
        &&& forall|i: int| 0 <= i < self.done.len() ==> 0 <= #[trigger] self.done[i] < g.len()
        &&& self.done.no_duplicates()
        &&& forall|i: int, j: int|
            0 <= i < self.stack.len() && 0 <= j < self.done.len() ==> (#[trigger] self.stack[i]).0
                != #[trigger] self.done[j]
    }

    /// Every edge of a finished node leads back or to a node finished earlier.
    spec fn settled(self, g: Seq<Seq<int>>) -> bool {
        forall|d: int, k: int|
            0 <= d < self.done.len() && 0 <= k < g[self.done[d]].len() ==> self.back.contains(
                (self.done[d], k),
            ) || self.done.take(d).contains(#[trigger] g[self.done[d]][k])
    }

    /// Every edge followed so far from the path leads back, to a finished node, or
    /// to the next node of the path.
    spec fn pending(self, g: Seq<Seq<int>>) -> bool {
        forall|i: int, k: int|
            0 <= i < self.stack.len() && 0 <= k < self.stack[i].1 ==> self.back.contains(
                (self.stack[i].0, k),
            ) || self.done.contains(#[trigger] g[self.stack[i].0][k]) || (i + 1 < self.stack.len()
                && k == self.stack[i].1 - 1 && self.stack[i + 1].0 == g[self.stack[i].0][k])
    }

    /// The path is a path of `g`, and each marked edge closes a loop.
    spec fn linked(self, g: Seq<Seq<int>>) -> bool {
        &&& forall|i: int, j: int|
            0 <= i <= j < self.stack.len() ==> reaches(
                g,
                (#[trigger] self.stack[i]).0,
                (#[trigger] self.stack[j]).0,
            )
        &&& forall|u: int, k: int| #[trigger]
            self.back.contains((u, k)) ==> 0 <= u < g.len() && 0 <= k < g[u].len() && reaches(
                g,
                g[u][k],
                u,
            )
    }

    proof fn lemma_step_new_root(self, g: Seq<Seq<int>>)
        requires
            is_graph(g),
            self.inv(g),
            self.stack.len() == 0,
        ensures
            self.step(g).inv(g),
    {
        let s = self.first_new(g.len() as int, 0);
        self.lemma_first_new(g.len() as int, 0);
        if s < g.len() {
            let t = self.step(g);
            assert(t.stack[0] == (s, 0int));
            assert forall|j: int| 0 <= j < t.done.len() implies t.stack[0].0
                != #[trigger] t.done[j] by {
                if t.done[j] == s {
                    assert(self.done.contains(s));
                }
            }
            assert(path(g, s, s, 0));
        }
    }

    proof fn lemma_first_new(self, n: int, v: int)
        requires
            0 <= v <= n,
        ensures
            v <= self.first_new(n, v) <= n,
            self.first_new(n, v) < n ==> !self.seen(self.first_new(n, v)),
            forall|w: int| v <= w < self.first_new(n, v) ==> self.seen(w),
        decreases n - v,
    {
        if v < n && self.seen(v) {
            self.lemma_first_new(n, v + 1);
        }
    }

    proof fn lemma_step_follow(self, g: Seq<Seq<int>>)
        requires
            is_graph(g),
            self.inv(g),
            self.stack.len() > 0,
            self.stack.last().1 < g[self.stack.last().0].len(),
        ensures
            self.step(g).inv(g),
    {
        let top = self.stack.len() - 1;
        let (u, k) = self.stack[top];
        let v = g[u][k];
        let t = self.step(g);
        assert(t.done == self.done);
        assert forall|i: int| 0 <= i < top implies t.stack[i] == self.stack[i] by {}
        assert(t.stack[top] == (u, k + 1));
        assert forall|x: (int, int)| self.back.contains(x) implies t.back.contains(x) by {}
        if self.on_stack(v) {
            let i = choose|i: int| 0 <= i < self.stack.len() && (#[trigger] self.stack[i]).0 == v;
            assert(reaches(g, self.stack[i].0, self.stack[top].0));
        } else if !self.done.contains(v) {
            assert(t.stack[top + 1] == (v, 0int));
            assert forall|i: int| 0 <= i <= top implies reaches(
                g,
                (#[trigger] t.stack[i]).0,
                v,
            ) by {
                assert(reaches(g, self.stack[i].0, self.stack[top].0));
                let l = choose|l: nat| #[trigger] path(g, self.stack[i].0, u, l);
                assert(g[u][k] == v);
                assert(path(g, t.stack[i].0, v, (l + 1) as nat));
            }
            assert(path(g, v, v, 0));
            assert forall|j: int| 0 <= j < t.done.len() implies v != #[trigger] t.done[j] by {
                if t.done[j] == v {
                    assert(self.done.contains(v));
                }
            }
            assert forall|i: int| 0 <= i <= top implies (#[trigger] t.stack[i]).0 != v by {
                if t.stack[i].0 == v {
                    assert(self.stack[i].0 == v);
                    assert(self.on_stack(v));
                }
            }
        }
        assert(t.well_placed(g));
        assert forall|i: int, j: int| 0 <= i < t.stack.len() && 0 <= j < t.stack[i].1 implies (
        t.back.contains((t.stack[i].0, j)) || t.done.contains(#[trigger] g[t.stack[i].0][j]) || (i
            + 1 < t.stack.len() && j == t.stack[i].1 - 1 && t.stack[i + 1].0
            == g[t.stack[i].0][j])) by {
            if i < top {
                assert(self.stack[i].0 == t.stack[i].0);
                assert(self.stack[i + 1].0 == t.stack[i + 1].0);
            } else if i == top {
                if j < k {
                    assert(self.stack[top].0 == t.stack[top].0);
                    assert(self.back.contains((u, j)) || self.done.contains(g[u][j]));
                }
            }
        }
        assert forall|i: int, j: int| 0 <= i <= j < t.stack.len() implies reaches(
            g,
            (#[trigger] t.stack[i]).0,
            (#[trigger] t.stack[j]).0,
        ) by {
            if j <= top {
                assert(reaches(g, self.stack[i].0, self.stack[j].0));
            }
        }
    }

    proof fn lemma_step_finish(self, g: Seq<Seq<int>>)
        requires
            is_graph(g),
            self.inv(g),
            self.stack.len() > 0,
            self.stack.last().1 >= g[self.stack.last().0].len(),
        ensures
            self.step(g).inv(g),
    {
        let top = self.stack.len() - 1;
        let (u, k) = self.stack[top];
        let t = self.step(g);
        assert(t.done == self.done.push(u));
        assert forall|i: int| 0 <= i < top implies t.stack[i] == self.stack[i] by {}
        assert(t.done.no_duplicates()) by {
            assert forall|i: int, j: int|
                0 <= i < t.done.len() && 0 <= j < t.done.len() && i != j implies t.done[i]
                != t.done[j] by {
                assert(self.stack[top].0 == u);
            }
        }
        assert forall|x: int| self.done.contains(x) implies t.done.contains(x) by {
            let i = choose|i: int| 0 <= i < self.done.len() && self.done[i] == x;
            assert(t.done[i] == x);
        }
        assert forall|d: int, j: int|
            0 <= d < t.done.len() && 0 <= j < g[t.done[d]].len() implies t.back.contains(
            (t.done[d], j),
        ) || t.done.take(d).contains(#[trigger] g[t.done[d]][j]) by {
            if d < self.done.len() {
                assert(t.done.take(d) =~= self.done.take(d));
                assert(t.done[d] == self.done[d]);
            } else {
                assert(t.done.take(d) =~= self.done);
                assert(self.stack[top].0 == u);
                assert(self.back.contains((u, j)) || self.done.contains(g[u][j]));
            }
        }
        assert forall|i: int, j: int| 0 <= i < t.stack.len() && 0 <= j < t.stack[i].1 implies (
        t.back.contains((t.stack[i].0, j)) || t.done.contains(#[trigger] g[t.stack[i].0][j]) || (i
            + 1 < t.stack.len() && j == t.stack[i].1 - 1 && t.stack[i + 1].0
            == g[t.stack[i].0][j])) by {
            assert(self.stack[i].0 == t.stack[i].0);
            if i + 1 == top {
                assert(t.done[t.done.len() - 1] == u);
            }
        }
        assert forall|i: int, j: int| 0 <= i <= j < t.stack.len() implies reaches(
            g,
            (#[trigger] t.stack[i]).0,
            (#[trigger] t.stack[j]).0,
        ) by {
            assert(reaches(g, self.stack[i].0, self.stack[j].0));
        }
    }
}

proof fn lemma_search_inv(g: Seq<Seq<int>>, k: nat)
    requires
        is_graph(g),
    ensures
        search(g, k).inv(g),
    decreases k,
{
    if k > 0 {
        lemma_search_inv(g, (k - 1) as nat);
        let s = search(g, (k - 1) as nat);
        if s.stack.len() == 0 {
            s.lemma_step_new_root(g);
        } else if s.stack.last().1 < g[s.stack.last().0].len() {
            s.lemma_step_follow(g);
        } else {
            s.lemma_step_finish(g);
        }
    }
}

proof fn lemma_rest_stays(g: Seq<Seq<int>>, k: nat, m: nat)
    requires
        search(g, k).at_rest(g),
        k <= m,
    ensures
        search(g, m) == search(g, k),
    decreases m - k,
{
    if k < m {
        lemma_rest_stays(g, k, (m - 1) as nat);
    }
}

/// Whenever the search is at rest it has marked the same edges.
proof fn lemma_back_edges(g: Seq<Seq<int>>, k: nat)
    requires
        search(g, k).at_rest(g),
    ensures
        back_edges(g) == search(g, k).back,
{
    let c = choose|c: nat| (#[trigger] search(g, c)).at_rest(g);
    if c <= k {
        lemma_rest_stays(g, c, k);
    } else {
        lemma_rest_stays(g, k, c);
    }
}

/// A finished search has finished every node.
proof fn lemma_rest_is_complete(g: Seq<Seq<int>>, k: nat, v: int)
    requires
        is_graph(g),
        search(g, k).at_rest(g),
        0 <= v < g.len(),
    ensures
        search(g, k).done.contains(v),
{
    let s = search(g, k);
    s.lemma_first_new(g.len() as int, 0);
    assert(s.seen(v));
}

/// A chain of forward edges runs against the order in which nodes were finished.
proof fn lemma_chain_bound(g: Seq<Seq<int>>, s: nat, p: int, l: nat)
    requires
        is_graph(g),
        search(g, s).at_rest(g),
        0 <= p < search(g, s).done.len(),
        chain(g, search(g, s).done[p], l),
    ensures
        l + p < search(g, s).done.len(),
    decreases l,
{
    let d = search(g, s).done;
    if l > 0 {
        lemma_search_inv(g, s);
        lemma_back_edges(g, s);
        let (u, k) = choose|u: int, k: int|
            #[trigger] forward(g, u, k) && g[u][k] == d[p] && chain(g, u, (l - 1) as nat);
        lemma_rest_is_complete(g, s, u);
        let q = choose|q: int| 0 <= q < d.len() && d[q] == u;
        assert(d.take(q).contains(g[d[q]][k]));
        let e = choose|e: int| 0 <= e < q && d.take(q)[e] == g[u][k];
        assert(d[e] == d[p]);
        assert(e == p);
        lemma_chain_bound(g, s, q, (l - 1) as nat);
    }
}

/// Different numbers below `n` are at most `n` numbers.
proof fn lemma_pigeonhole(x: Seq<int>, n: nat)
    requires
        x.no_duplicates(),
        forall|i: int| 0 <= i < x.len() ==> 0 <= #[trigger] x[i] < n,
    ensures
        x.len() <= n,
{
    let all = vstd::set_lib::set_int_range(0, n as int);
    vstd::set_lib::lemma_int_range(0, n as int);
    x.unique_seq_to_set();
    assert(x.to_set().subset_of(all));
    vstd::set_lib::lemma_len_subset(x.to_set(), all);
}

/// A chain of forward edges is shorter than the number of nodes.
proof fn lemma_chain_short(g: Seq<Seq<int>>, s: nat, v: int, l: nat)
    requires
        is_graph(g),
        search(g, s).at_rest(g),
        0 <= v < g.len(),
        chain(g, v, l),
    ensures
        l < g.len(),
{
    lemma_search_inv(g, s);
    lemma_rest_is_complete(g, s, v);
    let d = search(g, s).done;
    let p = choose|p: int| 0 <= p < d.len() && d[p] == v;
    lemma_chain_bound(g, s, p, l);
    lemma_pigeonhole(d, g.len());
}

impl Search {
    /// The nodes on the path.
    spec fn path_nodes(self) -> Seq<int> {
        self.stack.map_values(|e: (int, int)| e.0)
    }

    /// The steps left on the path, if nothing new is reached.
    spec fn slots(self, g: Seq<Seq<int>>) -> int
        decreases self.stack.len(),
    {
        if self.stack.len() == 0 {
            0
        } else {
            let rest = Search { stack: self.stack.drop_last(), ..self };
            rest.slots(g) + (g[self.stack.last().0].len() - self.stack.last().1) + 1
        }
    }

    proof fn lemma_slots_stack(self, other: Search, g: Seq<Seq<int>>)
        requires
            self.stack == other.stack,
        ensures
            self.slots(g) == other.slots(g),
        decreases self.stack.len(),
    {
        if self.stack.len() > 0 {
            let a = Search { stack: self.stack.drop_last(), ..self };
            let b = Search { stack: other.stack.drop_last(), ..other };
            a.lemma_slots_stack(b, g);
        }
    }

    proof fn lemma_slots_nonneg(self, g: Seq<Seq<int>>)
        requires
            self.well_placed(g),
        ensures
            self.slots(g) >= 0,
        decreases self.stack.len(),
    {
        if self.stack.len() > 0 {
            let rest = Search { stack: self.stack.drop_last(), ..self };
            assert forall|i: int| 0 <= i < rest.stack.len() implies rest.stack[i]
                == self.stack[i] by {}
            rest.lemma_slots_nonneg(g);
            let top = self.stack.len() - 1;
            assert(0 <= self.stack[top].1 <= g[self.stack[top].0].len());
        }
    }

    /// The nodes reached are different nodes of `g`.
    proof fn lemma_seen_count(self, g: Seq<Seq<int>>)
        requires
            self.well_placed(g),
        ensures
            self.stack.len() + self.done.len() <= g.len(),
    {
        let x = self.path_nodes() + self.done;
        assert forall|i: int, j: int| 0 <= i < x.len() && 0 <= j < x.len() && i != j implies x[i]
            != x[j] by {
            let m = self.stack.len() as int;
            if i < m && j < m {
                if i < j {
                    assert(self.stack[i].0 != self.stack[j].0);
                } else {
                    assert(self.stack[j].0 != self.stack[i].0);
                }
            } else if i < m {
                assert(self.stack[i].0 != self.done[j - m]);
            } else if j < m {
                assert(self.stack[j].0 != self.done[i - m]);
            } else {
                assert(self.done[i - m] != self.done[j - m]);
            }
        }
        assert forall|i: int| 0 <= i < x.len() implies 0 <= #[trigger] x[i] < g.len() by {
            if i < self.stack.len() {
                assert(self.stack[i].0 == x[i]);
            } else {
                assert(self.done[i - self.stack.len()] == x[i]);
            }
        }
        lemma_pigeonhole(x, g.len());
    }

    /// A step along the path leaves fewer nodes to reach, or fewer steps.
    proof fn lemma_progress(self, g: Seq<Seq<int>>)
        requires
            is_graph(g),
            self.inv(g),
            self.stack.len() > 0,
        ensures
            ({
                let t = self.step(g);
                let (a, b) = (
                    g.len() - self.stack.len() - self.done.len(),
                    g.len() - t.stack.len() - t.done.len(),
                );
                0 <= b && 0 <= t.slots(g) && (b < a || (b == a && t.slots(g) < self.slots(g)))
            }),
    {
        let t = self.step(g);
        let (u, k) = self.stack.last();
        let rest = Search { stack: self.stack.drop_last(), ..self };
        if k < g[u].len() {
            self.lemma_step_follow(g);
            let up = rest.stack.push((u, k + 1));
            assert(up.drop_last() =~= rest.stack);
            if t.stack == up {
                let low = Search { stack: t.stack.drop_last(), ..t };
                low.lemma_slots_stack(rest, g);
            }
        } else {
            self.lemma_step_finish(g);
            t.lemma_slots_stack(rest, g);
        }
        t.lemma_seen_count(g);
        t.lemma_slots_nonneg(g);
    }
}

/// From any moment on, the search comes to rest.
proof fn lemma_comes_to_rest(g: Seq<Seq<int>>, k: nat)
    requires
        is_graph(g),
    ensures
        exists|m: nat| (#[trigger] search(g, m)).at_rest(g),
    decreases
            g.len() - search(g, k).stack.len() - search(g, k).done.len(),
            search(g, k).slots(g),
{
    let s = search(g, k);
    lemma_search_inv(g, k);
    s.lemma_seen_count(g);
    s.lemma_slots_nonneg(g);
    if !s.at_rest(g) {
        let next = (k + 1) as nat;
        let t = search(g, next);
        assert(t == s.step(g));
        lemma_search_inv(g, next);
        t.lemma_seen_count(g);
        t.lemma_slots_nonneg(g);
        if s.stack.len() > 0 {
            s.lemma_progress(g);
        }
        lemma_comes_to_rest(g, next);
    }
}

/// An edge marked as leading back closes a loop: its target leads to its source.
pub proof fn back_edges_close_loops(g: Seq<Seq<int>>, u: int, k: int)
    requires
        is_graph(g),
        back_edges(g).contains((u, k)),
    ensures
        0 <= u < g.len(),
        0 <= k < g[u].len(),
        reaches(g, g[u][k], u),
{
    lemma_comes_to_rest(g, 0);
    let m = choose|m: nat| (#[trigger] search(g, m)).at_rest(g);
    lemma_search_inv(g, m);
}

/// The forward edges form no loop: a chain of them is shorter than the number of
/// nodes.
pub proof fn forward_chains_are_short(g: Seq<Seq<int>>, v: int, l: nat)
    requires
        is_graph(g),
        0 <= v < g.len(),
        chain(g, v, l),
    ensures
        l < g.len(),
{
    lemma_comes_to_rest(g, 0);
    let m = choose|m: nat| (#[trigger] search(g, m)).at_rest(g);
    lemma_chain_short(g, m, v, l);
}

/// Adjacency lists, read as a graph.
pub open spec fn graph_of(adj: Seq<Vec<usize>>) -> Seq<Seq<int>> {
    Seq::new(adj.len(), |u: int| Seq::new(adj[u]@.len(), |k: int| adj[u]@[k] as int))
}

proof fn lemma_targets_in_range(n: int, edges: Seq<(usize, usize)>, u: int)
    ensures
        forall|k: int|
            0 <= k < targets(n, edges, u).len() ==> 0 <= #[trigger] targets(n, edges, u)[k] < n,
    decreases edges.len(),
{
    if edges.len() > 0 {
        let rest = targets(n, edges.drop_last(), u);
        let to: usize = edges.last().1;
        lemma_targets_in_range(n, edges.drop_last(), u);
        assert(0 <= to);
        assert forall|k: int| 0 <= k < targets(n, edges, u).len() implies 0 <= #[trigger] targets(
            n,
            edges,
            u,
        )[k] < n by {
            if k < rest.len() {
                assert(targets(n, edges, u)[k] == rest[k]);
            }
        }
    }
}

/// The adjacency of any list of edges is a graph.
pub proof fn adjacency_is_graph(n: nat, edges: Seq<(usize, usize)>)
    ensures
        is_graph(adjacency(n, edges)),
{
    let g = adjacency(n, edges);
    assert forall|u: int, k: int| 0 <= u < g.len() && 0 <= k < g[u].len() implies 0
        <= #[trigger] g[u][k] < g.len() by {
        lemma_targets_in_range(n as int, edges, u);
    }
}

/// For each of `n` nodes, the nodes that its outgoing edges lead to.
fn adjacency_lists(n: usize, edges: &Vec<(usize, usize)>) -> (adj: Vec<Vec<usize>>)
    ensures
        graph_of(adj@) == adjacency(n as nat, edges@),
{
    let mut adj: Vec<Vec<usize>> = Vec::new();
    let mut i: usize = 0;
    while i < n
        invariant
            i <= n,
            adj@.len() == i,
            forall|u: int| 0 <= u < i ==> (#[trigger] adj@[u])@.len() == 0,
        decreases n - i,
    {
        adj.push(Vec::new());
        i += 1;
    }
    let mut j: usize = 0;
    proof {
        assert(graph_of(adj@) =~~= adjacency(n as nat, edges@.take(0)));
    }
    while j < edges.len()
        invariant
            j <= edges@.len(),
            adj@.len() == n,
            graph_of(adj@) == adjacency(n as nat, edges@.take(j as int)),
        decreases edges@.len() - j,
    {
        let (from, to) = edges[j];
        let ghost before = adj@;
        if from < n && to < n {
            adj[from].push(to);
        }
        proof {
            let now = edges@.take(j + 1);
            assert(now.drop_last() =~= edges@.take(j as int));
            assert forall|u: int| 0 <= u < n implies #[trigger] graph_of(adj@)[u] =~= adjacency(
                n as nat,
                now,
            )[u] by {
                assert(graph_of(before)[u] == adjacency(n as nat, edges@.take(j as int))[u]);
                assert(graph_of(before)[u] =~= targets(n as int, now.drop_last(), u));
                if from < n && to < n && u == from {
                    assert(adj@[u]@ == before[u]@.push(to));
                    assert(graph_of(adj@)[u] =~= graph_of(before)[u].push(to as int));
                } else {
                    assert(adj@[u]@ == before[u]@);
                    assert(graph_of(adj@)[u] =~= graph_of(before)[u]);
                }
            }
            assert(graph_of(adj@) =~= adjacency(n as nat, now));
        }
        j += 1;
    }
    proof {
        assert(edges@.take(j as int) =~= edges@);
    }
    adj
}

/// `state` tells of each node whether it is new (0), on the path (1) or done (2).
spec fn tracks(s: Search, state: Seq<u8>) -> bool {
    forall|v: int|
        0 <= v < state.len() ==> {
            &&& (#[trigger] state[v]) <= 2
            &&& (state[v] == 1 <==> s.on_stack(v))
            &&& (state[v] == 2 <==> s.done.contains(v))
        }
}

/// `marks` holds a flag for each edge of `g`: whether `back` holds the edge.
spec fn flags(g: Seq<Seq<int>>, back: Set<(int, int)>, marks: Seq<Vec<bool>>) -> bool {
    &&& marks.len() == g.len()
    &&& forall|u: int| 0 <= u < g.len() ==> (#[trigger] marks[u])@.len() == g[u].len()
    &&& forall|u: int, k: int|
        0 <= u < g.len() && 0 <= k < g[u].len() ==> (#[trigger] marks[u]@[k]) == back.contains(
            (u, k),
        )
}

/// The executable path `stack` is the path of the search.
spec fn same_path(s: Search, stack: Seq<(usize, usize)>) -> bool {
    &&& stack.len() == s.stack.len()
    &&& forall|i: int|
        0 <= i < stack.len() ==> s.stack[i] == ((#[trigger] stack[i]).0 as int, stack[i].1 as int)
}

/// For each edge, whether it leads back onto the depth-first path to its node.
fn mark_back(adj: &Vec<Vec<usize>>) -> (marks: Vec<Vec<bool>>)
    requires
        is_graph(graph_of(adj@)),
    ensures
        flags(graph_of(adj@), back_edges(graph_of(adj@)), marks@),
{
    let ghost g = graph_of(adj@);
    let n: usize = adj.len();
    let mut state: Vec<u8> = Vec::new();
    let mut marks: Vec<Vec<bool>> = Vec::new();
    let mut i: usize = 0;
    while i < n
        invariant
            n == adj@.len(),
            g == graph_of(adj@),
            i <= n,
            state@.len() == i,
            marks@.len() == i,
            forall|v: int| 0 <= v < i ==> state@[v] == 0,
            forall|u: int| 0 <= u < i ==> (#[trigger] marks@[u])@.len() == g[u].len(),
            forall|u: int, k: int| 0 <= u < i && 0 <= k < g[u].len() ==> !#[trigger] marks@[u]@[k],
        decreases n - i,
    {
        let d: usize = adj[i].len();
        let mut row: Vec<bool> = Vec::new();
        let mut k: usize = 0;
        while k < d
            invariant
                k <= d,
                row@.len() == k,
                forall|j: int| 0 <= j < k ==> !#[trigger] row@[j],
            decreases d - k,
        {
            row.push(false);
            k += 1;
        }
        state.push(0);
        marks.push(row);
        i += 1;
    }
    let mut stack: Vec<(usize, usize)> = Vec::new();
    let ghost mut at: nat = 0;
    let ghost mut s = search(g, 0);
    let mut root: usize = 0;
    while root < n
        invariant
            n == adj@.len(),
            g == graph_of(adj@),
            is_graph(g),
            root <= n,
            state@.len() == n,
            s == search(g, at),
            s.stack.len() == 0,
            stack@.len() == 0,
            tracks(s, state@),
            flags(g, s.back, marks@),
            forall|v: int| 0 <= v < root ==> s.seen(v),
        decreases n - root,
    {
        if state[root] == 0 {
            proof {
                lemma_search_inv(g, at);
                s.lemma_first_new(n as int, 0);
                assert(!s.seen(root as int));
                assert(s.first_new(n as int, 0) == root);
                let t = s.step(g);
                assert(t.stack[0] == (root as int, 0int));
                assert forall|v: int| 0 <= v < n implies (t.on_stack(v) <==> v == root) by {
                    assert(t.stack[0].0 == root);
                }
                assert forall|v: int| 0 <= v <= root implies t.seen(v) by {
                    if v < root {
                        assert(s.seen(v));
                    }
                }
                at = at + 1;
                s = t;
            }
            state[root] = 1;
            stack.push((root, 0));
            while stack.len() > 0
                invariant
                    n == adj@.len(),
                    g == graph_of(adj@),
                    is_graph(g),
                    root < n,
                    state@.len() == n,
                    s == search(g, at),
                    same_path(s, stack@),
                    tracks(s, state@),
                    flags(g, s.back, marks@),
                    forall|v: int| 0 <= v <= root ==> s.seen(v),
                decreases g.len() - s.stack.len() - s.done.len(), s.slots(g),
            {
                proof {
                    lemma_search_inv(g, at);
                    s.lemma_progress(g);
                }
                let top: usize = stack.len() - 1;
                let (u, k) = stack[top];
                let ghost old_s = s;
                let ghost old_state = state@;
                let ghost old_stack = stack@;
                assert(s.stack[top as int] == (u as int, k as int));
                assert(s.stack.last() == (u as int, k as int));
                proof {
                    at = at + 1;
                    s = s.step(g);
                    lemma_search_inv(g, at);
                }
                if k < adj[u].len() {
                    let v: usize = adj[u][k];
                    assert(g[u as int][k as int] == v as int);
                    stack.set(top, (u, k + 1));
                    let seen: u8 = state[v];
                    if seen == 1 {
                        marks[u].set(k, true);
                        proof {
                            assert forall|w: int| s.on_stack(w) <==> old_s.on_stack(w) by {
                                lemma_same_nodes(old_s, s, w);
                            }
                        }
                    } else if seen == 0 {
                        state.set(v, 1);
                        stack.push((v, 0));
                        proof {
                            let up = Search { stack: s.stack.drop_last(), ..s };
                            assert forall|w: int| s.on_stack(w) <==> (old_s.on_stack(w) || w == v)
                                by {
                                lemma_same_nodes(old_s, up, w);
                                lemma_pushed_node(up, s, w);
                            }
                        }
                    } else {
                        proof {
                            assert forall|w: int| s.on_stack(w) <==> old_s.on_stack(w) by {
                                lemma_same_nodes(old_s, s, w);
                            }
                        }
                    }
                } else {
                    let _ = stack.pop();
                    state.set(u, 2);
                    proof {
                        assert forall|w: int|
                            old_s.on_stack(w) <==> (s.on_stack(w) || w == u) by {
                            lemma_pushed_node(s, old_s, w);
                        }
                        assert(!s.on_stack(u as int)) by {
                            if s.on_stack(u as int) {
                                let j = choose|j: int|
                                    0 <= j < s.stack.len() && (#[trigger] s.stack[j]).0 == u;
                                assert(old_s.stack[j].0 == u);
                                assert(old_s.stack[top as int].0 == u);
                            }
                        }
                        assert forall|w: int|
                            s.done.contains(w) <==> (old_s.done.contains(w) || w == u) by {
                            lemma_push_contains(old_s.done, u as int, w);
                        }
                    }
                }
                proof {
                    assert forall|w: int| 0 <= w <= root implies s.seen(w) by {
                        assert(old_s.seen(w));
                    }
                }
            }
        }
        root += 1;
    }
    proof {
        s.lemma_first_new(n as int, 0);
        if s.first_new(n as int, 0) < n {
            assert(s.seen(s.first_new(n as int, 0)));
        }
        assert(s.at_rest(g));
        lemma_back_edges(g, at);
    }
    marks
}

proof fn lemma_push_contains(x: Seq<int>, u: int, w: int)
    ensures
        x.push(u).contains(w) <==> (x.contains(w) || w == u),
{
    if x.contains(w) {
        let i = choose|i: int| 0 <= i < x.len() && x[i] == w;
        assert(x.push(u)[i] == w);
    }
    if w == u {
        assert(x.push(u)[x.len() as int] == w);
    }
}

proof fn lemma_same_nodes(a: Search, b: Search, w: int)
    requires
        a.stack.len() == b.stack.len(),
        forall|i: int| 0 <= i < a.stack.len() ==> (#[trigger] a.stack[i]).0 == b.stack[i].0,
    ensures
        a.on_stack(w) <==> b.on_stack(w),
{
    if a.on_stack(w) {
        let i = choose|i: int| 0 <= i < a.stack.len() && (#[trigger] a.stack[i]).0 == w;
        assert(b.stack[i].0 == w);
    }
    if b.on_stack(w) {
        let i = choose|i: int| 0 <= i < b.stack.len() && (#[trigger] b.stack[i]).0 == w;
        assert(a.stack[i].0 == w);
    }
}

proof fn lemma_pushed_node(a: Search, b: Search, w: int)
    requires
        b.stack.len() > 0,
        a.stack == b.stack.drop_last(),
    ensures
        b.on_stack(w) <==> (a.on_stack(w) || w == b.stack.last().0),
{
    if a.on_stack(w) {
        let i = choose|i: int| 0 <= i < a.stack.len() && (#[trigger] a.stack[i]).0 == w;
        assert(b.stack[i].0 == w);
    }
    if w == b.stack.last().0 {
        assert(b.stack[b.stack.len() - 1].0 == w);
    }
    if b.on_stack(w) && w != b.stack.last().0 {
        let i = choose|i: int| 0 <= i < b.stack.len() && (#[trigger] b.stack[i]).0 == w;
        assert(a.stack[i].0 == w);
    }
}

/// Every chain of at most `p` forward edges is accounted for in `col`.
spec fn covers(g: Seq<Seq<int>>, col: Seq<usize>, p: int) -> bool {
    forall|v: int, l: nat|
        0 <= v < g.len() && l <= p && #[trigger] chain(g, v, l) ==> l <= col[v]
}

/// The edge (u, k), if it is forward, carries the chains of at most `p` edges that
/// end in `u` on to its target.
spec fn carried(g: Seq<Seq<int>>, col: Seq<usize>, p: int, u: int, k: int) -> bool {
    forward(g, u, k) ==> forall|l: nat| l <= p && #[trigger] chain(g, u, l) ==> l + 1 <= col[g[u][k]]
}

/// Raises the columns of the targets of `u`'s forward edges past that of `u`.
fn relax(
    adj: &Vec<Vec<usize>>,
    marks: &Vec<Vec<bool>>,
    u: usize,
    col: &mut Vec<usize>,
    Ghost(p): Ghost<int>,
    Ghost(s): Ghost<nat>,
)
    requires
        is_graph(graph_of(adj@)),
        search(graph_of(adj@), s).at_rest(graph_of(adj@)),
        flags(graph_of(adj@), back_edges(graph_of(adj@)), marks@),
        u < adj@.len(),
        old(col)@.len() == adj@.len(),
        forall|v: int|
            0 <= v < adj@.len() ==> chain(graph_of(adj@), v, (#[trigger] old(col)@[v]) as nat),
        covers(graph_of(adj@), old(col)@, p),
    ensures
        final(col)@.len() == adj@.len(),
        forall|v: int|
            0 <= v < adj@.len() ==> chain(graph_of(adj@), v, (#[trigger] final(col)@[v]) as nat),
        forall|v: int| 0 <= v < adj@.len() ==> old(col)@[v] <= #[trigger] final(col)@[v],
        forall|k: int|
            0 <= k < adj@[u as int]@.len() ==> #[trigger] carried(
                graph_of(adj@),
                final(col)@,
                p,
                u as int,
                k,
            ),
{
    let ghost g = graph_of(adj@);
    let ghost first = col@;
    let n: usize = adj.len();
    let mut k: usize = 0;
    while k < adj[u].len()
        invariant
            n == adj@.len(),
            g == graph_of(adj@),
            is_graph(g),
            search(g, s).at_rest(g),
            flags(g, back_edges(g), marks@),
            u < adj@.len(),
            k <= adj@[u as int]@.len(),
            col@.len() == adj@.len(),
            first.len() == adj@.len(),
            covers(g, first, p),
            forall|v: int| 0 <= v < adj@.len() ==> chain(g, v, (#[trigger] col@[v]) as nat),
            forall|v: int| 0 <= v < adj@.len() ==> first[v] <= #[trigger] col@[v],
            forall|j: int| 0 <= j < k ==> #[trigger] carried(g, col@, p, u as int, j),
        decreases adj@[u as int]@.len() - k,
    {
        let v: usize = adj[u][k];
        let ghost before = col@;
        assert(g[u as int][k as int] == v as int);
        if !marks[u][k] {
            assert(forward(g, u as int, k as int));
            proof {
                lemma_chain_short(g, s, u as int, col@[u as int] as nat);
            }
            let next: usize = col[u] + 1;
            assert(chain(g, v as int, next as nat));
            if col[v] < next {
                col.set(v, next);
            }
        }
        proof {
            assert forall|j: int| 0 <= j < k + 1 implies #[trigger] carried(
                g,
                col@,
                p,
                u as int,
                j,
            ) by {
                if j < k {
                    assert(carried(g, before, p, u as int, j));
                    if forward(g, u as int, j) {
                        assert(before[g[u as int][j]] <= col@[g[u as int][j]]);
                    }
                } else if forward(g, u as int, k as int) {
                    assert forall|l: nat| l <= p && #[trigger] chain(g, u as int, l) implies l + 1
                        <= col@[v as int] by {
                        assert(l <= first[u as int]);
                        assert(first[u as int] <= before[u as int]);
                    }
                }
            }
        }
        k += 1;
    }
}

/// For each node, the length of the longest chain of forward edges ending in it.
fn column_numbers(adj: &Vec<Vec<usize>>, marks: &Vec<Vec<bool>>) -> (col: Vec<usize>)
    requires
        is_graph(graph_of(adj@)),
        flags(graph_of(adj@), back_edges(graph_of(adj@)), marks@),
    ensures
        is_columns(graph_of(adj@), col@),
        forall|v: int| 0 <= v < col@.len() ==> (#[trigger] col@[v]) < col@.len(),
{
    let ghost g = graph_of(adj@);
    let ghost s = choose|k: nat| (#[trigger] search(g, k)).at_rest(g);
    proof {
        lemma_comes_to_rest(g, 0);
    }
    let n: usize = adj.len();
    let mut col: Vec<usize> = Vec::new();
    let mut i: usize = 0;
    while i < n
        invariant
            i <= n,
            col@.len() == i,
            forall|v: int| 0 <= v < i ==> col@[v] == 0,
        decreases n - i,
    {
        col.push(0);
        i += 1;
    }
    let mut pass: usize = 0;
    while pass < n
        invariant
            g == graph_of(adj@),
            n == adj@.len(),
            is_graph(g),
            search(g, s).at_rest(g),
            flags(g, back_edges(g), marks@),
            pass <= n,
            col@.len() == n,
            forall|v: int| 0 <= v < n ==> chain(g, v, (#[trigger] col@[v]) as nat),
            covers(g, col@, pass as int),
        decreases n - pass,
    {
        let mut u: usize = 0;
        while u < n
            invariant
                g == graph_of(adj@),
                n == adj@.len(),
                is_graph(g),
                search(g, s).at_rest(g),
                flags(g, back_edges(g), marks@),
                u <= n,
                col@.len() == n,
                forall|v: int| 0 <= v < n ==> chain(g, v, (#[trigger] col@[v]) as nat),
                covers(g, col@, pass as int),
                forall|w: int, k: int|
                    0 <= w < u && 0 <= k < g[w].len() ==> #[trigger] carried(
                        g,
                        col@,
                        pass as int,
                        w,
                        k,
                    ),
            decreases n - u,
        {
            let ghost before = col@;
            relax(adj, marks, u, &mut col, Ghost(pass as int), Ghost(s));
            proof {
                assert forall|v: int, l: nat|
                    0 <= v < g.len() && l <= pass && #[trigger] chain(g, v, l) implies l
                    <= col@[v] by {
                    assert(l <= before[v]);
                }
                assert forall|w: int, k: int|
                    0 <= w < u + 1 && 0 <= k < g[w].len() implies #[trigger] carried(
                    g,
                    col@,
                    pass as int,
                    w,
                    k,
                ) by {
                    if w < u {
                        assert(carried(g, before, pass as int, w, k));
                        if forward(g, w, k) {
                            assert(before[g[w][k]] <= col@[g[w][k]]);
                        }
                    }
                }
            }
            u += 1;
        }
        proof {
            assert forall|v: int, l: nat|
                0 <= v < g.len() && l <= pass + 1 && #[trigger] chain(g, v, l) implies l
                <= col@[v] by {
                if l > 0 {
                    let (w, k) = choose|w: int, k: int|
                        #[trigger] forward(g, w, k) && g[w][k] == v && chain(g, w, (l - 1) as nat);
                    assert(carried(g, col@, pass as int, w, k));
                }
            }
        }
        pass += 1;
    }
    proof {
        assert forall|v: int, l: nat| 0 <= v < g.len() && #[trigger] chain(g, v, l) implies l
            <= col@[v] by {
            lemma_chain_short(g, s, v, l);
        }
        assert forall|v: int| 0 <= v < n implies (#[trigger] col@[v]) < n by {
            lemma_chain_short(g, s, v, col@[v] as nat);
        }
    }
    col
}

/// Lays out `n` nodes wired by `edges` (edges with an end that is not below `n`
/// are ignored).
pub fn lay_out(n: usize, edges: &Vec<(usize, usize)>) -> (cells: Vec<Cell>)
    ensures
        is_layout(adjacency(n as nat, edges@), cells@),
{
    proof {
        adjacency_is_graph(n as nat, edges@);
    }
    let adj = adjacency_lists(n, edges);
    let marks = mark_back(&adj);
    let col = column_numbers(&adj, &marks);
    let mut used: Vec<usize> = Vec::new();
    let mut i: usize = 0;
    while i < n
        invariant
            i <= n,
            used@.len() == i,
            forall|c: int| 0 <= c < i ==> used@[c] == 0,
        decreases n - i,
    {
        used.push(0);
        i += 1;
    }
    let mut cells: Vec<Cell> = Vec::new();
    let mut j: usize = 0;
    while j < n
        invariant
            j <= n,
            col@.len() == n,
            used@.len() == n,
            cells@.len() == j,
            forall|v: int| 0 <= v < n ==> (#[trigger] col@[v]) < n,
            forall|c: int|
                0 <= c < n ==> (#[trigger] used@[c]) == count_of(col@, j as int, c as usize)
                    && used@[c] <= j,
            forall|v: int|
                0 <= v < j ==> (#[trigger] cells@[v]).col == col@[v] && cells@[v].row == count_of(
                    col@,
                    v,
                    col@[v],
                ),
        decreases n - j,
    {
        let c: usize = col[j];
        let row: usize = used[c];
        cells.push(Cell { col: c, row });
        used.set(c, row + 1);
        j += 1;
    }
    proof {
        assert(columns(cells@) =~= col@);
    }
    cells
}

/// Signal flows left to right: a forward edge leads to a later column.
pub proof fn forward_edges_go_right(g: Seq<Seq<int>>, cells: Seq<Cell>, u: int, k: int)
    requires
        is_graph(g),
        is_layout(g, cells),
        forward(g, u, k),
    ensures
        cells[u].col < cells[g[u][k]].col,
{
    let col = columns(cells);
    assert(chain(g, u, col[u] as nat));
    assert(chain(g, g[u][k], (col[u] + 1) as nat));
}

/// Whatever loops there are, the layout has no more columns, and no more rows,
/// than nodes.
pub proof fn layout_stays_within_bounds(g: Seq<Seq<int>>, cells: Seq<Cell>, i: int)
    requires
        is_graph(g),
        is_layout(g, cells),
        0 <= i < cells.len(),
    ensures
        cells.len() == g.len(),
        cells[i].col < g.len(),
        cells[i].row < g.len(),
{
    let col = columns(cells);
    assert(chain(g, i, col[i] as nat));
    forward_chains_are_short(g, i, col[i] as nat);
    lemma_count_bound(col, i, cells[i].col);
}

proof fn lemma_count_bound(col: Seq<usize>, i: int, c: usize)
    requires
        0 <= i,
    ensures
        count_of(col, i, c) <= i,
    decreases i,
{
    if i > 0 {
        lemma_count_bound(col, i - 1, c);
    }
}

/// No two nodes share a cell.
pub proof fn cells_are_distinct(g: Seq<Seq<int>>, cells: Seq<Cell>, i: int, j: int)
    requires
        is_layout(g, cells),
        0 <= i < j < cells.len(),
    ensures
        cells[i] != cells[j],
{
    if cells[i].col == cells[j].col {
        lemma_count_grows(columns(cells), i, j, cells[i].col);
        assert(columns(cells)[i] == cells[i].col);
    }
}

proof fn lemma_count_grows(col: Seq<usize>, i: int, j: int, c: usize)
    requires
        0 <= i < j <= col.len(),
        col[i] == c,
    ensures
        count_of(col, i, c) < count_of(col, j, c),
    decreases j,
{
    if j > i + 1 {
        lemma_count_grows(col, i, j - 1, c);
    }
}

/// There is only one layout of a graph.
pub proof fn layout_is_unique(g: Seq<Seq<int>>, a: Seq<Cell>, b: Seq<Cell>)
    requires
        is_layout(g, a),
        is_layout(g, b),
    ensures
        a == b,
{
    assert forall|v: int| 0 <= v < g.len() implies columns(a)[v] == columns(b)[v] by {
        assert(chain(g, v, columns(a)[v] as nat));
        assert(chain(g, v, columns(b)[v] as nat));
    }
    assert(columns(a) =~= columns(b));
    assert forall|v: int| 0 <= v < g.len() implies a[v] == b[v] by {
        assert(columns(a)[v] == a[v].col);
        assert(columns(b)[v] == b[v].col);
    }
    assert(a =~= b);
}

/// The nodes that a node leads to are the ends of the edges that start there and whose ends
/// are nodes, each once and in edge order. `order` says which edge each of them is.
pub proof fn targets_are_the_edges_in_order(n: int, edges: Seq<(usize, usize)>, u: int) -> (order:
    Seq<int>)
    requires
        0 <= u < n,
    ensures
        order.len() == targets(n, edges, u).len(),
        forall|j: int, k: int| 0 <= j < k < order.len() ==> order[j] < order[k],
        forall|j: int|
            0 <= j < order.len() ==> {
                let k = #[trigger] order[j];
                &&& 0 <= k < edges.len()
                &&& edges[k].0 == u && edges[k].1 < n
                &&& targets(n, edges, u)[j] == edges[k].1
            },
        forall|k: int|
            0 <= k < edges.len() && (#[trigger] edges[k]).0 == u && edges[k].1 < n
                ==> order.contains(k),
    decreases edges.len(),
{
    if edges.len() == 0 {
        Seq::empty()
    } else {
        let head = edges.drop_last();
        let rest = targets_are_the_edges_in_order(n, head, u);
        let e = edges.last();
        let last = edges.len() - 1;
        let order = if e.0 == u && e.1 < n {
            rest.push(last)
        } else {
            rest
        };
        assert forall|k: int| 0 <= k < head.len() implies head[k] == edges[k] by {}
        assert forall|k: int|
            0 <= k < edges.len() && (#[trigger] edges[k]).0 == u && edges[k].1 < n implies
            order.contains(k) by {
            if k < last {
                assert(head[k].0 == u);
                let j = choose|j: int| 0 <= j < rest.len() && rest[j] == k;
                assert(order[j] == k);
            } else {
                assert(order[rest.len() as int] == k);
            }
        }
        assert forall|j: int| 0 <= j < order.len() implies {
            let k = #[trigger] order[j];
            &&& 0 <= k < edges.len()
            &&& edges[k].0 == u && edges[k].1 < n
            &&& targets(n, edges, u)[j] == edges[k].1
        } by {
            if j < rest.len() {
                assert(order[j] == rest[j]);
                assert(head[rest[j]] == edges[rest[j]]);
            }
        }
        order
    }
}

/// The rows of a column are filled from the top: a node's row is the number of nodes before
/// it in its column, so that the first is in row 0 and each later one a row further down.
pub proof fn rows_fill_from_the_top(g: Seq<Seq<int>>, cells: Seq<Cell>, i: int, j: int)
    requires
        is_layout(g, cells),
        0 <= i < j < cells.len(),
        cells[i].col == cells[j].col,
        forall|k: int| i < k < j ==> (#[trigger] cells[k]).col != cells[i].col,
    ensures
        cells[j].row == cells[i].row + 1,
{
    let col = columns(cells);
    let c = cells[i].col;
    assert(col[i] == c && col[j] == c);
    assert(count_of(col, i + 1, c) == count_of(col, i, c) + 1);
    lemma_count_stays(cells, i + 1, j, c);
}

proof fn lemma_count_stays(cells: Seq<Cell>, a: int, b: int, c: usize)
    requires
        0 <= a <= b <= cells.len(),
        forall|k: int| a <= k < b ==> (#[trigger] cells[k]).col != c,
    ensures
        count_of(columns(cells), b, c) == count_of(columns(cells), a, c),
    decreases b - a,
{
    if a < b {
        lemma_count_stays(cells, a, b - 1, c);
        assert(cells[b - 1].col != c);
        assert(columns(cells)[b - 1] == cells[b - 1].col);
    }
}

/// Columns are no further right than they have to be: the first one holds exactly the nodes
/// that no forward edge leads to, and any other node has a forward edge from the column just
/// before its own.
pub proof fn columns_are_filled_from_the_left(g: Seq<Seq<int>>, cells: Seq<Cell>, v: int)
    requires
        is_graph(g),
        is_layout(g, cells),
        0 <= v < g.len(),
    ensures
        cells[v].col == 0 <==> forall|u: int, k: int| #[trigger] forward(g, u, k) ==> g[u][k] != v,
        cells[v].col > 0 ==> exists|u: int, k: int|
            #[trigger] forward(g, u, k) && g[u][k] == v && cells[u].col + 1 == cells[v].col,
{
    let col = columns(cells);
    assert(col[v] == cells[v].col);
    assert(chain(g, v, col[v] as nat));
    if cells[v].col == 0 {
        assert forall|u: int, k: int| #[trigger] forward(g, u, k) implies g[u][k] != v by {
            if g[u][k] == v {
                forward_edges_go_right(g, cells, u, k);
            }
        }
    } else {
        let l = (col[v] - 1) as nat;
        let (u, k) = choose|u: int, k: int|
            #[trigger] forward(g, u, k) && g[u][k] == v && chain(g, u, l);
        forward_edges_go_right(g, cells, u, k);
        assert(chain(g, u, l));
        assert(col[u] == cells[u].col);
        assert(l <= col[u]);
        assert(cells[u].col + 1 == cells[v].col);
    }
}

/// The search goes depth first. From nowhere it starts at the lowest node it has not seen,
/// if there is one. From a node it takes the next edge in order: an edge to a node on the
/// path is noted as leading back, one to a finished node is passed over, and one to a new
/// node makes that the end of the path. A node without further edges is finished.
pub proof fn searches_go_depth_first(s: Search, g: Seq<Seq<int>>)
    ensures
        s.stack.len() == 0 ==> s.step(g).done == s.done && s.step(g).back == s.back,
        s.stack.len() == 0 && (exists|v: int| 0 <= v < g.len() && !#[trigger] s.seen(v)) ==> (
        s.step(g).stack.len() == 1 && s.step(g).stack[0].1 == 0 && ({
            let v = s.step(g).stack[0].0;
            0 <= v < g.len() && !s.seen(v) && forall|w: int| 0 <= w < v ==> #[trigger] s.seen(w)
        })),
        s.stack.len() == 0 && (forall|v: int| 0 <= v < g.len() ==> #[trigger] s.seen(v))
            ==> s.step(g) == s,
        s.stack.len() > 0 ==> ({
            let n = s.stack.len() as int;
            let (u, k) = s.stack[n - 1];
            let t = s.step(g);
            let more = k < g[u].len();
            let v = g[u][k];
            let on_path = exists|i: int| 0 <= i < n && (#[trigger] s.stack[i]).0 == v;
            &&& forall|i: int| 0 <= i < n - 1 ==> #[trigger] t.stack[i] == s.stack[i]
            &&& !more ==> t.stack.len() == n - 1 && t.done == s.done.push(u) && t.back == s.back
            &&& more ==> t.stack[n - 1] == (u, k + 1) && t.done == s.done
            &&& more && on_path ==> t.stack.len() == n && t.back == s.back.insert((u, k))
            &&& more && !on_path ==> t.back == s.back
            &&& more && !on_path && s.done.contains(v) ==> t.stack.len() == n
            &&& more && !on_path && !s.done.contains(v) ==> t.stack.len() == n + 1 && t.stack[n]
                == (v, 0int)
        }),
{
    s.lemma_first_new(g.len() as int, 0);
    if s.stack.len() == 0 {
        if exists|v: int| 0 <= v < g.len() && !#[trigger] s.seen(v) {
            let v = choose|v: int| 0 <= v < g.len() && !#[trigger] s.seen(v);
            assert(s.first_new(g.len() as int, 0) <= v);
        } else {
            assert(s.first_new(g.len() as int, 0) == g.len());
        }
    }
}

/// A node is laid out by its own edges: the lists of numbers and the graph they describe
/// agree entry by entry.
pub proof fn lists_are_the_graph(adj: Seq<Vec<usize>>, u: int, k: int)
    requires
        0 <= u < adj.len(),
        0 <= k < adj[u]@.len(),
    ensures
        graph_of(adj).len() == adj.len(),
        graph_of(adj)[u].len() == adj[u]@.len(),
        graph_of(adj)[u][k] == adj[u]@[k],
{
}

} // verus!
