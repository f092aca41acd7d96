//! Directed graph over interned nodes, with strongly-connected-component
//! detection and a parallel-stage schedule.
//!
//! Nodes are stored once and addressed by index; the adjacency list
//! `adj[v]` holds the successors of `v` ("v must be built after w").

use vstd::prelude::*;
use vstd::std_specs::cmp::PartialEqSpec;

verus! {

/// Directed graph; `N` is the node payload.
pub struct Graph<N> {
    nodes: Vec<N>,
    adj: Vec<Vec<usize>>,
}

impl<N> Graph<N> {
    /// The node payloads, by index.
    pub closed spec fn spec_nodes(&self) -> Seq<N> {
        self.nodes@
    }

    /// The successor indices of every node.
    pub closed spec fn spec_adj(&self) -> Seq<Seq<usize>> {
        self.adj@.map_values(|v: Vec<usize>| v@)
    }

    /// Adjacency and node table agree and every edge index is in range.
    pub open spec fn wf(&self) -> bool {
        &&& self.spec_adj().len() == self.spec_nodes().len()
        &&& forall|v: int, e: int| 0 <= v < self.spec_adj().len()
            && 0 <= e < self.spec_adj()[v].len()
            ==> #[trigger] self.spec_adj()[v][e] < self.spec_nodes().len()
    }

    /// There is an edge from index `a` to index `b`.
    pub open spec fn spec_has_edge(&self, a: int, b: int) -> bool {
        &&& 0 <= a < self.spec_adj().len()
        &&& 0 <= b < self.spec_nodes().len()
        &&& self.spec_adj()[a].contains(b as usize)
    }

    /// Empty graph.
    pub fn new() -> (r: Self)
        ensures
            r.wf(),
            r.spec_nodes().len() == 0,
    {
        Graph { nodes: Vec::new(), adj: Vec::new() }
    }

    /// No nodes yet?
    pub fn is_empty(&self) -> (r: bool)
        ensures
            r <==> self.spec_nodes().len() == 0,
    {
        self.nodes.len() == 0
    }

    /// Number of nodes.
    pub fn len(&self) -> (r: usize)
        ensures
            r == self.spec_nodes().len(),
    {
        self.nodes.len()
    }

    /// The node payload at `i`.
    pub fn node(&self, i: usize) -> (r: &N)
        requires
            i < self.spec_nodes().len(),
        ensures
            *r == self.spec_nodes()[i as int],
    {
        &self.nodes[i]
    }

    /// The successor indices of node `i`.
    pub fn edges(&self, i: usize) -> (r: &Vec<usize>)
        requires
            i < self.spec_adj().len(),
        ensures
            r@ == self.spec_adj()[i as int],
    {
        &self.adj[i]
    }

    /// Append a node without looking for duplicates; its index.
    pub fn push(&mut self, node: N) -> (r: usize)
        requires
            old(self).wf(),
        ensures
            final(self).wf(),
            r == old(self).spec_nodes().len(),
            final(self).spec_nodes() == old(self).spec_nodes().push(node),
            final(self).spec_adj() == old(self).spec_adj().push(Seq::<usize>::empty()),
    {
        let r = self.nodes.len();
        self.nodes.push(node);
        self.adj.push(Vec::new());
        proof {
            assert(final(self).spec_adj() =~= old(self).spec_adj().push(Seq::<usize>::empty()));
        }
        r
    }

    /// Insert a directed edge between existing nodes, if it is new.
    pub fn link_indices(&mut self, a: usize, b: usize)
        requires
            old(self).wf(),
            a < old(self).spec_nodes().len(),
            b < old(self).spec_nodes().len(),
        ensures
            final(self).wf(),
            final(self).spec_nodes() == old(self).spec_nodes(),
            final(self).spec_has_edge(a as int, b as int),
            forall|v: int, w: int| final(self).spec_has_edge(v, w)
                <==> old(self).spec_has_edge(v, w) || (v == a && w == b),
    {
        let mut k: usize = 0;
        while k < self.adj[a].len()
            invariant
                *self == *old(self),
                old(self).wf(),
                a < old(self).spec_adj().len(),
                0 <= k <= old(self).spec_adj()[a as int].len(),
                forall|j: int| 0 <= j < k ==> old(self).spec_adj()[a as int][j] != b,
            decreases old(self).spec_adj()[a as int].len() - k,
        {
            if self.adj[a][k] == b {
                proof {
                    assert(old(self).spec_adj()[a as int][k as int] == b);
                    assert(old(self).spec_adj()[a as int].contains(b));
                    assert(forall|v: int, w: int| final(self).spec_has_edge(v, w)
                        <==> old(self).spec_has_edge(v, w) || (v == a && w == b));
                }
                return;
            }
            k = k + 1;
        }
        proof {
            assert(!old(self).spec_adj()[a as int].contains(b)) by {
                if old(self).spec_adj()[a as int].contains(b) {
                    let j = choose|j: int| 0 <= j < old(self).spec_adj()[a as int].len()
                        && old(self).spec_adj()[a as int][j] == b;
                }
            }
        }
        let inner = &mut self.adj;
        let ghost before = inner@.map_values(|v: Vec<usize>| v@);
        let mut row = inner[a].clone();
        assert(row@ == before[a as int]) by {
            assert(forall|j: int| 0 <= j < row@.len() ==> row@[j] == before[a as int][j]);
            assert(row@ =~= before[a as int]);
        }
        row.push(b);
        inner.set(a, row);
        let total = self.nodes.len();
        proof {
            assert(final(self).spec_nodes().len() == total);
            let after = self.spec_adj();
            assert(before == old(self).spec_adj());
            assert(after =~= before.update(a as int, before[a as int].push(b)));
            assert(after[a as int].last() == b);
            assert(after[a as int].contains(b));
            assert forall|v: int, w: int| #![auto] final(self).spec_has_edge(v, w)
                implies old(self).spec_has_edge(v, w) || (v == a && w == b) by {
                if v != a {
                    assert(after[v] == before[v]);
                } else if final(self).spec_has_edge(v, w) && w != b {
                    let j = choose|j: int| 0 <= j < after[v].len() && after[v][j] == w as usize;
                    assert(after[v] == before[a as int].push(b));
                    if j < before[v].len() {
                        assert(after[v][j] == before[v][j]);
                        assert(0 <= j < before[v].len() && before[v][j] == w as usize);
                        assert(before[v].contains(w as usize));
                    } else {
                        assert(after[v][j] == b);
                        assert(false);
                    }
                }
            }
            assert forall|v: int, w: int| #![auto]
                old(self).spec_has_edge(v, w) || (v == a && w == b)
                implies final(self).spec_has_edge(v, w) by {
                if old(self).spec_has_edge(v, w) {
                    let j = choose|j: int| 0 <= j < before[v].len() && before[v][j] == w as usize;
                    assert(after[v][j] == w as usize);
                    assert(after[v].contains(w as usize));
                }
            }
        }
    }
}

impl<N: PartialEq + PartialEqSpec + Clone> Graph<N> {
    /// Index of a node equal to `node`, when the payload type's equality
    /// obeys its specification.
    pub fn find(&self, node: &N) -> (r: Option<usize>)
        requires
            N::obeys_eq_spec(),
        ensures
            match r {
                Some(i) => i < self.spec_nodes().len()
                    && self.spec_nodes()[i as int].eq_spec(node),
                None => forall|i: int| 0 <= i < self.spec_nodes().len()
                    ==> !(#[trigger] self.spec_nodes()[i]).eq_spec(node),
            },
    {
        let mut i: usize = 0;
        while i < self.nodes.len()
            invariant
                N::obeys_eq_spec(),
                0 <= i <= self.spec_nodes().len(),
                forall|j: int| 0 <= j < i
                    ==> !(#[trigger] self.spec_nodes()[j]).eq_spec(node),
            decreases self.spec_nodes().len() - i,
        {
            if self.nodes[i].eq(node) {
                return Some(i);
            }
            i = i + 1;
        }
        None
    }

    /// Does the graph hold a node equal to this one?
    pub fn contains(&self, node: &N) -> (r: bool)
        requires
            N::obeys_eq_spec(),
        ensures
            r ==> exists|i: int| 0 <= i < self.spec_nodes().len()
                && (#[trigger] self.spec_nodes()[i]).eq_spec(node),
            !r ==> forall|i: int| 0 <= i < self.spec_nodes().len()
                ==> !(#[trigger] self.spec_nodes()[i]).eq_spec(node),
    {
        self.find(node).is_some()
    }

    /// Index of a node equal to `node`, inserting it when absent.
    pub fn find_or_insert(&mut self, node: N) -> (r: usize)
        requires
            old(self).wf(),
            N::obeys_eq_spec(),
        ensures
            final(self).wf(),
            r < final(self).spec_nodes().len(),
            final(self).spec_nodes()[r as int].eq_spec(&node)
                || final(self).spec_nodes()[r as int] == node,
            final(self).spec_nodes() == old(self).spec_nodes()
                || final(self).spec_nodes() == old(self).spec_nodes().push(node),
            forall|v: int, w: int| final(self).spec_has_edge(v, w)
                <==> old(self).spec_has_edge(v, w),
    {
        match self.find(&node) {
            Some(i) => {
                proof {
                    assert(forall|v: int, w: int| final(self).spec_has_edge(v, w)
                        <==> old(self).spec_has_edge(v, w));
                }
                i
            }
            None => {
                let r = self.push(node);
                proof {
                    assert forall|v: int, w: int| #![auto] final(self).spec_has_edge(v, w)
                        <==> old(self).spec_has_edge(v, w) by {
                        if 0 <= v < old(self).spec_adj().len() {
                            assert(final(self).spec_adj()[v] == old(self).spec_adj()[v]);
                        } else if v == old(self).spec_adj().len() {
                            assert(final(self).spec_adj()[v] == Seq::<usize>::empty());
                        }
                    }
                }
                r
            }
        }
    }

    /// Add a node, if no equal node is present yet.
    pub fn add(&mut self, node: N)
        requires
            old(self).wf(),
            N::obeys_eq_spec(),
        ensures
            final(self).wf(),
            // an equal node was present: nothing changes
            (exists|i: int| 0 <= i < old(self).spec_nodes().len()
                && (#[trigger] old(self).spec_nodes()[i]).eq_spec(&node))
                ==> final(self).spec_nodes() == old(self).spec_nodes()
                    && final(self).spec_adj() == old(self).spec_adj(),
            // otherwise exactly this node is appended, with no edges
            !(exists|i: int| 0 <= i < old(self).spec_nodes().len()
                && (#[trigger] old(self).spec_nodes()[i]).eq_spec(&node))
                ==> final(self).spec_nodes() == old(self).spec_nodes().push(node)
                    && final(self).spec_adj()
                        == old(self).spec_adj().push(Seq::<usize>::empty()),
    {
        if self.find(&node).is_none() {
            self.push(node);
        }
    }

    /// Ensure both nodes are present and an edge runs from the node
    /// equal to `node` to the node equal to `child`; nothing else
    /// changes.
    pub fn link(&mut self, node: N, child: N)
        requires
            old(self).wf(),
            N::obeys_eq_spec(),
        ensures
            final(self).wf(),
            old(self).spec_nodes().is_prefix_of(final(self).spec_nodes()),
            final(self).spec_nodes().len() <= old(self).spec_nodes().len() + 2,
            exists|a: int, b: int| #![auto]
                0 <= a < final(self).spec_nodes().len()
                && 0 <= b < final(self).spec_nodes().len()
                && (final(self).spec_nodes()[a].eq_spec(&node)
                    || final(self).spec_nodes()[a] == node)
                && (final(self).spec_nodes()[b].eq_spec(&child)
                    || final(self).spec_nodes()[b] == child)
                && final(self).spec_has_edge(a, b)
                && (forall|v: int, w: int| final(self).spec_has_edge(v, w)
                    <==> old(self).spec_has_edge(v, w) || (v == a && w == b)),
    {
        let ghost g0 = *self;
        let a = self.find_or_insert(node);
        let ghost g1 = *self;
        let b = self.find_or_insert(child);
        let ghost g2 = *self;
        self.link_indices(a, b);
        proof {
            let fa = a as int;
            let fb = b as int;
            assert(final(self).spec_nodes() == g2.spec_nodes());
            assert(final(self).spec_nodes()[fa].eq_spec(&node)
                || final(self).spec_nodes()[fa] == node) by {
                if g1.spec_nodes() == g0.spec_nodes() {
                    assert(g2.spec_nodes()[fa] == g1.spec_nodes()[fa]
                        || g2.spec_nodes() == g1.spec_nodes().push(child));
                } else {
                    assert(g1.spec_nodes() == g0.spec_nodes().push(node));
                }
            }
            assert(g0.spec_nodes().is_prefix_of(final(self).spec_nodes())) by {
                assert(forall|i: int| 0 <= i < g0.spec_nodes().len()
                    ==> #[trigger] final(self).spec_nodes()[i] == g0.spec_nodes()[i]);
            }
            assert forall|v: int, w: int| final(self).spec_has_edge(v, w)
                <==> g0.spec_has_edge(v, w) || (v == fa && w == fb) by {
                assert(g1.spec_has_edge(v, w) <==> g0.spec_has_edge(v, w));
                assert(g2.spec_has_edge(v, w) <==> g1.spec_has_edge(v, w));
            }
            assert(final(self).spec_has_edge(fa, fb));
        }
    }

    /// Is there an edge from a node equal to `from` to one equal to `to`?
    /// True only with a witnessing edge; false whenever either node is
    /// absent.
    pub fn edge(&self, from: &N, to: &N) -> (r: bool)
        requires
            self.wf(),
            N::obeys_eq_spec(),
        ensures
            r ==> exists|a: int, b: int| #![auto]
                0 <= a < self.spec_nodes().len()
                && 0 <= b < self.spec_nodes().len()
                && self.spec_nodes()[a].eq_spec(from)
                && self.spec_nodes()[b].eq_spec(to)
                && self.spec_has_edge(a, b),
            (forall|i: int| 0 <= i < self.spec_nodes().len()
                ==> !(#[trigger] self.spec_nodes()[i]).eq_spec(from)) ==> !r,
            (forall|i: int| 0 <= i < self.spec_nodes().len()
                ==> !(#[trigger] self.spec_nodes()[i]).eq_spec(to)) ==> !r,
    {
        let a = match self.find(from) {
            Some(a) => a,
            None => {
                return false;
            }
        };
        let b = match self.find(to) {
            Some(b) => b,
            None => {
                return false;
            }
        };
        let list = &self.adj[a];
        let mut k: usize = 0;
        while k < list.len()
            invariant
                self.wf(),
                N::obeys_eq_spec(),
                a < self.spec_nodes().len(),
                b < self.spec_nodes().len(),
                self.spec_nodes()[a as int].eq_spec(from),
                self.spec_nodes()[b as int].eq_spec(to),
                list@ == self.spec_adj()[a as int],
                0 <= k <= list@.len(),
            decreases list@.len() - k,
        {
            if list[k] == b {
                proof {
                    assert(self.spec_adj()[a as int][k as int] == b);
                    assert(self.spec_adj()[a as int].contains(b));
                    assert(self.spec_has_edge(a as int, b as int));
                }
                return true;
            }
            k = k + 1;
        }
        false
    }
}



/// Node `v` stands in stage `k`.
pub open spec fn in_stage(stages: Seq<Seq<usize>>, k: int, v: usize) -> bool {
    0 <= k < stages.len() && stages[k].contains(v)
}

/// Node `v` stands in some stage strictly before stage `k`.
pub open spec fn released_before(stages: Seq<Seq<usize>>, k: int, v: usize) -> bool {
    exists|k2: int| 0 <= k2 < k && #[trigger] in_stage(stages, k2, v)
}

/// Node `v` stands in some stage.
pub open spec fn released(stages: Seq<Seq<usize>>, v: usize) -> bool {
    released_before(stages, stages.len() as int, v)
}

/// Every listed index is a node.
pub open spec fn stages_bounded(stages: Seq<Seq<usize>>, n: nat) -> bool {
    forall|k: int, j: int| 0 <= k < stages.len() && 0 <= j < stages[k].len()
        ==> #[trigger] stages[k][j] < n
}

/// No node stands in two places.
pub open spec fn stages_distinct(stages: Seq<Seq<usize>>) -> bool {
    forall|k1: int, j1: int, k2: int, j2: int|
        0 <= k1 < stages.len() && 0 <= j1 < stages[k1].len()
        && 0 <= k2 < stages.len() && 0 <= j2 < stages[k2].len()
        && (k1 != k2 || j1 != j2)
        ==> #[trigger] stages[k1][j1] != #[trigger] stages[k2][j2]
}

/// Every edge out of a staged node lands in a strictly earlier stage.
pub open spec fn stage_edges_earlier(adj: Seq<Seq<usize>>, stages: Seq<Seq<usize>>) -> bool {
    forall|k: int, j: int, e: int|
        0 <= k < stages.len() && 0 <= j < stages[k].len()
        && stages[k][j] < adj.len()
        && 0 <= e < adj[stages[k][j] as int].len()
        ==> released_before(stages, k, #[trigger] adj[stages[k][j] as int][e])
}

/// Every node left out of the stages has a successor that is also left
/// out: the schedule only ever stops short on a cycle.
pub open spec fn stages_stalled(adj: Seq<Seq<usize>>, stages: Seq<Seq<usize>>, n: nat) -> bool {
    forall|v: usize| v < n && adj.len() == n && !(#[trigger] released(stages, v))
        ==> exists|e: int| 0 <= e < adj[v as int].len() && !released(stages, adj[v as int][e])
}

/// Number of `true` entries.
pub open spec fn count_trues(s: Seq<bool>) -> nat
    decreases s.len(),
{
    if s.len() == 0 {
        0
    } else {
        count_trues(s.drop_last()) + if s.last() { 1nat } else { 0nat }
    }
}

proof fn lemma_count_trues_le(s1: Seq<bool>, s2: Seq<bool>)
    requires
        s1.len() == s2.len(),
        forall|i: int| 0 <= i < s1.len() && s1[i] ==> s2[i],
    ensures
        count_trues(s1) <= count_trues(s2),
        count_trues(s2) <= s2.len(),
    decreases s1.len(),
{
    if s1.len() > 0 {
        assert(forall|i: int| 0 <= i < s1.drop_last().len() && s1.drop_last()[i]
            ==> s2.drop_last()[i]) by {
            assert(forall|i: int| 0 <= i < s1.len() - 1
                ==> s1.drop_last()[i] == s1[i] && s2.drop_last()[i] == s2[i]);
        }
        lemma_count_trues_le(s1.drop_last(), s2.drop_last());
    }
}

proof fn lemma_count_trues_strict(s1: Seq<bool>, s2: Seq<bool>, w: int)
    requires
        s1.len() == s2.len(),
        forall|i: int| 0 <= i < s1.len() && s1[i] ==> s2[i],
        0 <= w < s1.len(),
        !s1[w],
        s2[w],
    ensures
        count_trues(s1) < count_trues(s2),
    decreases s1.len(),
{
    assert(forall|i: int| 0 <= i < s1.len() - 1
        ==> s1.drop_last()[i] == s1[i] && s2.drop_last()[i] == s2[i]);
    if w == s1.len() - 1 {
        lemma_count_trues_le(s1.drop_last(), s2.drop_last());
    } else {
        lemma_count_trues_strict(s1.drop_last(), s2.drop_last(), w);
    }
}

impl<N> Graph<N> {
    /// Group the nodes into stages that can be processed in parallel:
    /// a node joins a stage only when everything it points to stands in
    /// an earlier stage.  On an acyclic graph the stages cover every
    /// node; otherwise the nodes of some cycle are left out, and every
    /// leftover node points at another leftover node.
    pub fn parallel_stages(&self) -> (stages: Vec<Vec<usize>>)
        requires
            self.wf(),
        ensures
            stages_bounded(stages@.map_values(|s: Vec<usize>| s@), self.spec_nodes().len()),
            stages_distinct(stages@.map_values(|s: Vec<usize>| s@)),
            stage_edges_earlier(self.spec_adj(), stages@.map_values(|s: Vec<usize>| s@)),
            stages_stalled(
                self.spec_adj(),
                stages@.map_values(|s: Vec<usize>| s@),
                self.spec_nodes().len(),
            ),
    {
        let n = self.nodes.len();
        let mut done: Vec<bool> = Vec::new();
        let mut v0: usize = 0;
        while v0 < n
            invariant
                done@.len() == v0 <= n,
                forall|i: int| 0 <= i < v0 ==> !done@[i],
            decreases n - v0,
        {
            done.push(false);
            v0 = v0 + 1;
        }
        let mut stages: Vec<Vec<usize>> = Vec::new();
        proof {
            let sv = stages@.map_values(|s: Vec<usize>| s@);
            assert(sv.len() == 0);
            assert(forall|v: usize| v < n ==> !(#[trigger] released(sv, v)));
        }
        loop
            invariant
                self.wf(),
                n == self.spec_nodes().len(),
                done@.len() == n,
                forall|v: usize| v < n ==>
                    (#[trigger] done@[v as int]
                        <==> released(stages@.map_values(|s: Vec<usize>| s@), v)),
                stages_bounded(stages@.map_values(|s: Vec<usize>| s@), n as nat),
                stages_distinct(stages@.map_values(|s: Vec<usize>| s@)),
                stage_edges_earlier(self.spec_adj(), stages@.map_values(|s: Vec<usize>| s@)),
            decreases n - count_trues(done@),
        {
            let ghost sv0 = stages@.map_values(|s: Vec<usize>| s@);
            let ghost done0 = done@;
            // collect the nodes whose successors are all done
            let mut group: Vec<usize> = Vec::new();
            let mut v: usize = 0;
            while v < n
                invariant
                    self.wf(),
                    n == self.spec_nodes().len(),
                    done@.len() == n,
                    done@ == done0,
                    0 <= v <= n,
                    forall|j: int| 0 <= j < group@.len() ==> #[trigger] group@[j] < v,
                    forall|j1: int, j2: int| 0 <= j1 < j2 < group@.len()
                        ==> group@[j1] != group@[j2],
                    forall|j: int| 0 <= j < group@.len()
                        ==> !done0[#[trigger] group@[j] as int],
                    forall|j: int, e: int|
                        0 <= j < group@.len()
                        && 0 <= e < self.spec_adj()[group@[j] as int].len()
                        ==> done0[#[trigger] self.spec_adj()[group@[j] as int][e] as int],
                    forall|u: usize| u < v && !(#[trigger] done0[u as int])
                        && !group@.contains(u)
                        ==> exists|e: int| 0 <= e < self.spec_adj()[u as int].len()
                            && !done0[#[trigger] self.spec_adj()[u as int][e] as int],
                decreases n - v,
            {
                let ghost prev_group = group@;
                if !done[v] {
                    // are all successors done?
                    let row = &self.adj[v];
                    let mut e: usize = 0;
                    let mut all_done = true;
                    while e < row.len()
                        invariant
                            self.wf(),
                            n == self.spec_nodes().len(),
                            done@.len() == n,
                            done@ == done0,
                            v < n,
                            row@ == self.spec_adj()[v as int],
                            0 <= e <= row@.len(),
                            all_done ==> forall|f: int| 0 <= f < e
                                ==> done0[#[trigger] row@[f] as int],
                            !all_done ==> exists|f: int| 0 <= f < row@.len()
                                && !done0[#[trigger] row@[f] as int],
                        decreases row@.len() - e,
                    {
                        if !done[row[e]] {
                            all_done = false;
                        }
                        e = e + 1;
                    }
                    if all_done {
                        group.push(v);
                        proof {
                            assert(forall|j: int| 0 <= j < prev_group.len()
                                ==> group@[j] == prev_group[j]);
                            assert(group@.last() == v);
                            assert forall|u: usize| u < v + 1 && !(#[trigger] done0[u as int])
                                && !group@.contains(u)
                                implies exists|e2: int|
                                    0 <= e2 < self.spec_adj()[u as int].len()
                                    && !done0[#[trigger] self.spec_adj()[u as int][e2] as int]
                                by {
                                assert(u != v) by {
                                    assert(group@[group@.len() - 1] == v);
                                    if u == v {
                                        assert(group@.contains(u));
                                    }
                                }
                                assert(!prev_group.contains(u)) by {
                                    if prev_group.contains(u) {
                                        let j = choose|j: int| 0 <= j < prev_group.len()
                                            && prev_group[j] == u;
                                        assert(group@[j] == u);
                                        assert(group@.contains(u));
                                    }
                                }
                            }
                        }
                    } else {
                        proof {
                            assert forall|u: usize| u < v + 1 && !(#[trigger] done0[u as int])
                                && !group@.contains(u)
                                implies exists|e2: int|
                                    0 <= e2 < self.spec_adj()[u as int].len()
                                    && !done0[#[trigger] self.spec_adj()[u as int][e2] as int]
                                by {
                                if u == v {
                                    let f = choose|f: int| 0 <= f < row@.len()
                                        && !done0[row@[f] as int];
                                    assert(0 <= f < self.spec_adj()[v as int].len()
                                        && !done0[self.spec_adj()[v as int][f] as int]);
                                }
                            }
                        }
                    }
                } else {
                    proof {
                        assert forall|u: usize| u < v + 1 && !(#[trigger] done0[u as int])
                            && !group@.contains(u)
                            implies exists|e2: int|
                                0 <= e2 < self.spec_adj()[u as int].len()
                                && !done0[#[trigger] self.spec_adj()[u as int][e2] as int]
                            by {
                            assert(u != v);
                        }
                    }
                }
                v = v + 1;
            }
            if group.len() == 0 {
                proof {
                    assert(forall|u: usize| u < n && !done0[u as int]
                        ==> exists|e: int| 0 <= e < self.spec_adj()[u as int].len()
                            && !done0[#[trigger] self.spec_adj()[u as int][e] as int]);
                    assert forall|u: usize| u < n && self.spec_adj().len() == n as nat
                        && !(#[trigger] released(sv0, u))
                        implies exists|e: int| 0 <= e < self.spec_adj()[u as int].len()
                            && !released(sv0, self.spec_adj()[u as int][e]) by {
                        assert(!done0[u as int]);
                        let e = choose|e: int| 0 <= e < self.spec_adj()[u as int].len()
                            && !done0[self.spec_adj()[u as int][e] as int];
                        assert(self.spec_adj()[u as int][e] < n);
                        assert(!released(sv0, self.spec_adj()[u as int][e]));
                    }
                }
                return stages;
            }
            // mark the whole batch as done
            let mut i: usize = 0;
            while i < group.len()
                invariant
                    done@.len() == n,
                    n == self.spec_nodes().len(),
                    0 <= i <= group@.len(),
                    forall|j: int| 0 <= j < group@.len() ==> #[trigger] group@[j] < n,
                    forall|j1: int, j2: int| 0 <= j1 < j2 < group@.len()
                        ==> group@[j1] != group@[j2],
                    forall|u: int| 0 <= u < n && !group@.subrange(0, i as int).contains(u as usize)
                        ==> done@[u] == done0[u],
                    forall|j: int| 0 <= j < i ==> done@[#[trigger] group@[j] as int],
                decreases group@.len() - i,
            {
                let gv = group[i];
                done.set(gv, true);
                proof {
                    assert forall|u: int| 0 <= u < n
                        && !group@.subrange(0, i + 1).contains(u as usize)
                        implies done@[u] == done0[u] by {
                        if u == gv {
                            assert(group@.subrange(0, i + 1)[i as int] == gv);
                            assert(group@.subrange(0, i + 1).contains(u as usize));
                        } else {
                            assert(!group@.subrange(0, i as int).contains(u as usize)) by {
                                if group@.subrange(0, i as int).contains(u as usize) {
                                    let j = choose|j: int| 0 <= j < i
                                        && group@.subrange(0, i as int)[j] == u as usize;
                                    assert(group@.subrange(0, i + 1)[j] == u as usize);
                                }
                            }
                        }
                    }
                    assert forall|j: int| 0 <= j < i + 1
                        implies done@[#[trigger] group@[j] as int] by {
                        if j < i {
                            assert(group@[j] != gv);
                        }
                    }
                }
                i = i + 1;
            }
            let ghost group_v = group@;
            stages.push(group);
            proof {
                let sv = stages@.map_values(|s: Vec<usize>| s@);
                assert(sv =~= sv0.push(group_v));
                assert(group_v.subrange(0, group_v.len() as int) =~= group_v);
                // released in the new stage list = released before, or in this group
                assert forall|u: usize| #![auto] u < n
                    implies (released(sv, u) <==> released(sv0, u) || group_v.contains(u)) by {
                    if released(sv, u) {
                        let k2 = choose|k2: int| 0 <= k2 < sv.len() && in_stage(sv, k2, u);
                        if k2 < sv0.len() {
                            assert(in_stage(sv0, k2, u));
                            assert(released(sv0, u));
                        } else {
                            assert(sv[k2] == group_v);
                        }
                    }
                    if released(sv0, u) {
                        let k2 = choose|k2: int| 0 <= k2 < sv0.len() && in_stage(sv0, k2, u);
                        assert(in_stage(sv, k2, u));
                        assert(released(sv, u));
                    }
                    if group_v.contains(u) {
                        assert(in_stage(sv, sv0.len() as int, u));
                        assert(released(sv, u));
                    }
                }
                // the done map matches the new released set
                assert forall|u: usize| u < n
                    implies (#[trigger] done@[u as int] <==> released(sv, u)) by {
                    if group_v.contains(u) {
                        let j = choose|j: int| 0 <= j < group_v.len() && group_v[j] == u;
                        assert(done@[u as int]);
                    } else {
                        assert(done@[u as int] == done0[u as int]);
                    }
                }
                // boundedness
                assert forall|k: int, j: int| 0 <= k < sv.len() && 0 <= j < sv[k].len()
                    implies #[trigger] sv[k][j] < n by {
                    if k < sv0.len() {
                        assert(sv0[k][j] < n);
                    } else {
                        assert(sv[k] == group_v);
                    }
                }
                // distinctness: old stages were distinct, the group holds
                // no duplicates and nothing already released
                assert forall|k1: int, j1: int, k2: int, j2: int|
                    0 <= k1 < sv.len() && 0 <= j1 < sv[k1].len()
                    && 0 <= k2 < sv.len() && 0 <= j2 < sv[k2].len()
                    && (k1 != k2 || j1 != j2)
                    implies #[trigger] sv[k1][j1] != #[trigger] sv[k2][j2] by {
                    if k1 < sv0.len() && k2 < sv0.len() {
                        assert(sv0[k1][j1] != sv0[k2][j2]);
                    } else if k1 < sv0.len() && k2 == sv0.len() {
                        assert(in_stage(sv0, k1, sv0[k1][j1]));
                        assert(released(sv0, sv[k1][j1]));
                        assert(!done0[sv[k2][j2] as int]);
                    } else if k1 == sv0.len() && k2 < sv0.len() {
                        assert(in_stage(sv0, k2, sv0[k2][j2]));
                        assert(released(sv0, sv[k2][j2]));
                        assert(!done0[sv[k1][j1] as int]);
                    } else {
                        assert(sv[k1] == group_v && sv[k2] == group_v);
                        assert(j1 != j2);
                    }
                }
                // every edge out of the new stage lands strictly earlier
                assert forall|k: int, j: int, e: int|
                    0 <= k < sv.len() && 0 <= j < sv[k].len()
                    && sv[k][j] < self.spec_adj().len()
                    && 0 <= e < self.spec_adj()[sv[k][j] as int].len()
                    implies released_before(sv, k, #[trigger] self.spec_adj()[sv[k][j] as int][e])
                    by {
                    if k < sv0.len() {
                        assert(released_before(sv0, k, self.spec_adj()[sv0[k][j] as int][e]));
                        let k2 = choose|k2: int| 0 <= k2 < k
                            && in_stage(sv0, k2, self.spec_adj()[sv0[k][j] as int][e]);
                        assert(in_stage(sv, k2, self.spec_adj()[sv[k][j] as int][e]));
                    } else {
                        let u = sv[k][j];
                        assert(group_v.contains(u)) by {
                            assert(sv[k] == group_v);
                            assert(0 <= j < group_v.len() && group_v[j] == u);
                        }
                        let jj = choose|jj: int| 0 <= jj < group_v.len() && group_v[jj] == u;
                        let w = self.spec_adj()[u as int][e];
                        assert(done0[w as int]);
                        assert(released(sv0, w));
                        let k2 = choose|k2: int| 0 <= k2 < sv0.len() && in_stage(sv0, k2, w);
                        assert(in_stage(sv, k2, w));
                        assert(released_before(sv, k, w));
                    }
                }
                // termination: at least one node flipped from undone to done
                assert forall|t: int| 0 <= t < done0.len() && done0[t] implies done@[t] by {
                    if group_v.contains(t as usize) {
                        let j = choose|j: int| 0 <= j < group_v.len() && group_v[j] == t as usize;
                        assert(done@[group_v[j] as int]);
                    } else {
                        assert(done@[t] == done0[t]);
                    }
                }
                let g0 = group_v[0];
                assert(group_v.contains(g0));
                assert(!done0[g0 as int]);
                assert(done@[g0 as int]);
                lemma_count_trues_le(done0, done@);
                lemma_count_trues_strict(done0, done@, g0 as int);
                assert(count_trues(done@) <= n);
            }
        }
    }
}


/// On an acyclic graph the stages cover every node.  Acyclicity is
/// witnessed by a rank that strictly drops along every edge; together
/// with `stages_distinct` the stages then partition the node set, and
/// `stage_edges_earlier` forbids edges into the same or a later stage.
pub proof fn lemma_stages_cover_dag(
    adj: Seq<Seq<usize>>,
    stages: Seq<Seq<usize>>,
    rank: Seq<nat>,
)
    requires
        adj.len() == rank.len(),
        forall|v: int, e: int| 0 <= v < adj.len() && 0 <= e < adj[v].len()
            ==> #[trigger] adj[v][e] < adj.len(),
        forall|v: int, e: int| 0 <= v < adj.len() && 0 <= e < adj[v].len()
            ==> rank[#[trigger] adj[v][e] as int] < rank[v],
        stages_stalled(adj, stages, adj.len() as nat),
    ensures
        forall|v: usize| v < adj.len() ==> released(stages, v),
{
    assert forall|v: usize| v < adj.len() implies released(stages, v) by {
        lemma_stalled_node_released(adj, stages, rank, v);
    }
}

proof fn lemma_stalled_node_released(
    adj: Seq<Seq<usize>>,
    stages: Seq<Seq<usize>>,
    rank: Seq<nat>,
    v: usize,
)
    requires
        adj.len() == rank.len(),
        forall|u: int, e: int| 0 <= u < adj.len() && 0 <= e < adj[u].len()
            ==> #[trigger] adj[u][e] < adj.len(),
        forall|u: int, e: int| 0 <= u < adj.len() && 0 <= e < adj[u].len()
            ==> rank[#[trigger] adj[u][e] as int] < rank[u],
        stages_stalled(adj, stages, adj.len() as nat),
        v < adj.len(),
    ensures
        released(stages, v),
    decreases rank[v as int],
{
    if !released(stages, v) {
        let e = choose|e: int| 0 <= e < adj[v as int].len()
            && !released(stages, adj[v as int][e]);
        let w = adj[v as int][e];
        assert(rank[w as int] < rank[v as int]);
        lemma_stalled_node_released(adj, stages, rank, w);
        assert(false);
    }
}

/// Word-packed bit set.
pub struct BitVec {
    words: Vec<u64>,
}

/// Mask selecting the bit a given index lands on within its word.
pub fn mask(i: usize) -> (r: u64)
    ensures
        r == 1u64 << ((i % 64) as u64),
{
    proof {
        assert((i & 63) == (i % 64)) by (bit_vector);
    }
    1u64 << ((i & 63) as u64)
}

impl BitVec {
    /// Number of addressable bits.
    pub closed spec fn spec_len(&self) -> nat {
        self.words@.len() * 64
    }

    /// Bit `i` is set.
    pub closed spec fn spec_get(&self, i: nat) -> bool {
        ((self.words@[(i / 64) as int] >> ((i % 64) as u64)) & 1) == 1
    }

    /// Empty bit set.
    pub fn new() -> (r: Self)
        ensures
            r.spec_len() == 0,
    {
        BitVec { words: Vec::new() }
    }

    /// Bit set with room for at least `n_bits` bits, all clear.
    pub fn with_size(n_bits: usize) -> (r: Self)
        ensures
            r.spec_len() >= n_bits,
            forall|i: nat| i < r.spec_len() ==> !r.spec_get(i),
    {
        let mut s = BitVec::new();
        s.resize(n_bits);
        proof {
            assert(forall|i: nat| i < s.spec_len() ==> !s.spec_get(i));
        }
        s
    }

    /// Grow to make at least `n_bits` addressable; new words are clear.
    pub fn resize(&mut self, n_bits: usize)
        ensures
            final(self).spec_len() >= n_bits,
            final(self).spec_len() >= old(self).spec_len(),
            forall|i: nat| i < old(self).spec_len()
                ==> final(self).spec_get(i) == old(self).spec_get(i),
            forall|i: nat| old(self).spec_len() <= i < final(self).spec_len()
                ==> !final(self).spec_get(i),
    {
        let n = n_bits / 64 + 1;
        while self.words.len() < n
            invariant
                forall|j: int| 0 <= j < old(self).words@.len()
                    ==> self.words@[j] == old(self).words@[j],
                self.words@.len() >= old(self).words@.len(),
                forall|j: int| old(self).words@.len() <= j < self.words@.len()
                    ==> self.words@[j] == 0,
            decreases n - self.words.len(),
        {
            self.words.push(0);
        }
        proof {
            let wl = self.words@.len();
            let ol = old(self).words@.len();
            assert(wl >= n);
            assert(wl * 64 >= n * 64) by (nonlinear_arith)
                requires wl >= n && n >= 0;
            assert(n * 64 >= n_bits) by (nonlinear_arith)
                requires n >= n_bits / 64 + 1;
            assert(wl * 64 >= ol * 64) by (nonlinear_arith)
                requires wl >= ol;
            assert forall|i: nat| i < old(self).spec_len()
                implies final(self).spec_get(i) == old(self).spec_get(i) by {
                assert((i / 64) < ol) by (nonlinear_arith)
                    requires i < ol * 64;
            }
            assert forall|i: nat| old(self).spec_len() <= i < final(self).spec_len()
                implies !final(self).spec_get(i) by {
                assert((i / 64) >= ol) by (nonlinear_arith)
                    requires i >= ol * 64;
                assert((i / 64) < wl) by (nonlinear_arith)
                    requires i < wl * 64;
                assert(self.words@[(i / 64) as int] == 0);
                let k = (i % 64) as u64;
                assert(((0u64 >> k) & 1) == 0) by (bit_vector);
            }
        }
    }

    /// Clear every bit.
    pub fn reset(&mut self)
        ensures
            final(self).spec_len() == old(self).spec_len(),
            forall|i: nat| i < final(self).spec_len() ==> !final(self).spec_get(i),
    {
        let n = self.words.len();
        let mut j: usize = 0;
        while j < n
            invariant
                self.words@.len() == n,
                0 <= j <= n,
                forall|t: int| 0 <= t < j ==> self.words@[t] == 0,
            decreases n - j,
        {
            self.words.set(j, 0);
            j = j + 1;
        }
        proof {
            assert forall|i: nat| i < final(self).spec_len() implies !final(self).spec_get(i) by {
                assert((i / 64) < self.words@.len()) by (nonlinear_arith)
                    requires i < self.words@.len() * 64;
                assert(self.words@[(i / 64) as int] == 0);
                let k = (i % 64) as u64;
                assert(((0u64 >> k) & 1) == 0) by (bit_vector);
            }
        }
    }

    /// Read bit `i`.
    pub fn get(&self, i: usize) -> (r: bool)
        requires
            i < self.spec_len(),
        ensures
            r == self.spec_get(i as nat),
    {
        proof {
            assert((i / 64) < self.words@.len()) by (nonlinear_arith)
                requires i < self.words@.len() * 64;
        }
        let w = self.words[i / 64];
        let m = mask(i);
        proof {
            let k = (i % 64) as u64;
            assert(k < 64);
            assert((w & (1u64 << k)) != 0 <==> ((w >> k) & 1) == 1) by (bit_vector)
                requires k < 64;
        }
        (w & m) != 0
    }

    /// Set bit `i`.
    pub fn set(&mut self, i: usize)
        requires
            i < old(self).spec_len(),
        ensures
            final(self).spec_len() == old(self).spec_len(),
            final(self).spec_get(i as nat),
            forall|j: nat| j < final(self).spec_len() && j != i
                ==> final(self).spec_get(j) == old(self).spec_get(j),
    {
        proof {
            assert((i / 64) < self.words@.len()) by (nonlinear_arith)
                requires i < self.words@.len() * 64;
        }
        let w = self.words[i / 64];
        let m = mask(i);
        self.words.set(i / 64, w | m);
        proof {
            let k = (i % 64) as u64;
            assert(k < 64);
            assert((((w | (1u64 << k)) >> k) & 1) == 1) by (bit_vector)
                requires k < 64;
            assert forall|j: nat| j < final(self).spec_len() && j != i
                implies final(self).spec_get(j) == old(self).spec_get(j) by {
                assert((j / 64) < self.words@.len()) by (nonlinear_arith)
                    requires j < self.words@.len() * 64;
                if j / 64 == i / 64 {
                    let k2 = (j % 64) as u64;
                    assert(j % 64 != i % 64) by {
                        vstd::arithmetic::div_mod::lemma_fundamental_div_mod(j as int, 64);
                        vstd::arithmetic::div_mod::lemma_fundamental_div_mod(i as int, 64);
                    }
                    assert((((w | (1u64 << k)) >> k2) & 1) == ((w >> k2) & 1)) by (bit_vector)
                        requires k < 64 && k2 < 64 && k != k2;
                    assert(k2 < 64);
                } else {
                    assert(self.words@[(j / 64) as int] == old(self).words@[(j / 64) as int]);
                }
            }
        }
    }

    /// Clear bit `i`.
    pub fn clear(&mut self, i: usize)
        requires
            i < old(self).spec_len(),
        ensures
            final(self).spec_len() == old(self).spec_len(),
            !final(self).spec_get(i as nat),
            forall|j: nat| j < final(self).spec_len() && j != i
                ==> final(self).spec_get(j) == old(self).spec_get(j),
    {
        proof {
            assert((i / 64) < self.words@.len()) by (nonlinear_arith)
                requires i < self.words@.len() * 64;
        }
        let w = self.words[i / 64];
        let m = mask(i);
        self.words.set(i / 64, w & !m);
        proof {
            let k = (i % 64) as u64;
            assert(k < 64);
            assert((((w & !(1u64 << k)) >> k) & 1) == 0) by (bit_vector)
                requires k < 64;
            assert forall|j: nat| j < final(self).spec_len() && j != i
                implies final(self).spec_get(j) == old(self).spec_get(j) by {
                assert((j / 64) < self.words@.len()) by (nonlinear_arith)
                    requires j < self.words@.len() * 64;
                if j / 64 == i / 64 {
                    let k2 = (j % 64) as u64;
                    assert(j % 64 != i % 64) by {
                        vstd::arithmetic::div_mod::lemma_fundamental_div_mod(j as int, 64);
                        vstd::arithmetic::div_mod::lemma_fundamental_div_mod(i as int, 64);
                    }
                    assert((((w & !(1u64 << k)) >> k2) & 1) == ((w >> k2) & 1)) by (bit_vector)
                        requires k < 64 && k2 < 64 && k != k2;
                    assert(k2 < 64);
                } else {
                    assert(self.words@[(j / 64) as int] == old(self).words@[(j / 64) as int]);
                }
            }
        }
    }
}


/// Marker for a node Tarjan's search has not reached yet.
pub const UNVISITED: usize = usize::MAX;

/// Number of unvisited entries in an index table.
pub open spec fn count_unvisited(s: Seq<usize>) -> nat
    decreases s.len(),
{
    if s.len() == 0 {
        0
    } else {
        count_unvisited(s.drop_last()) + if s.last() == UNVISITED { 1nat } else { 0nat }
    }
}

proof fn lemma_count_unvisited_le(s1: Seq<usize>, s2: Seq<usize>)
    requires
        s1.len() == s2.len(),
        forall|i: int| 0 <= i < s1.len() && s1[i] != UNVISITED ==> s2[i] != UNVISITED,
    ensures
        count_unvisited(s2) <= count_unvisited(s1),
    decreases s1.len(),
{
    if s1.len() > 0 {
        assert(forall|i: int| 0 <= i < s1.len() - 1
            ==> s1.drop_last()[i] == s1[i] && s2.drop_last()[i] == s2[i]);
        lemma_count_unvisited_le(s1.drop_last(), s2.drop_last());
    }
}

proof fn lemma_count_unvisited_strict(s1: Seq<usize>, s2: Seq<usize>, w: int)
    requires
        s1.len() == s2.len(),
        forall|i: int| 0 <= i < s1.len() && s1[i] != UNVISITED ==> s2[i] != UNVISITED,
        0 <= w < s1.len(),
        s1[w] == UNVISITED,
        s2[w] != UNVISITED,
    ensures
        count_unvisited(s2) < count_unvisited(s1),
    decreases s1.len(),
{
    assert(forall|i: int| 0 <= i < s1.len() - 1
        ==> s1.drop_last()[i] == s1[i] && s2.drop_last()[i] == s2[i]);
    if w == s1.len() - 1 {
        lemma_count_unvisited_le(s1.drop_last(), s2.drop_last());
    } else {
        lemma_count_unvisited_strict(s1.drop_last(), s2.drop_last(), w);
    }
}

/// Every member of the group has a successor inside the group; a
/// nonempty such group always contains a cycle.
pub open spec fn group_cyclic(adj: Seq<Seq<usize>>, group: Seq<usize>) -> bool {
    forall|j: int| 0 <= j < group.len()
        ==> (#[trigger] group[j]) < adj.len()
            && exists|e: int| 0 <= e < adj[group[j] as int].len()
                && group.contains(adj[group[j] as int][e])
}

/// A nonempty group in which every member has an in-group successor
/// refutes every rank: no assignment can strictly drop along all
/// edges, so such a graph is not a DAG.
#[verifier::spinoff_prover]
#[verifier::rlimit(100)]
pub proof fn lemma_cyclic_group_refutes_rank(
    adj: Seq<Seq<usize>>,
    group: Seq<usize>,
    rank: Seq<nat>,
)
    requires
        adj.len() == rank.len(),
        forall|v: int, e: int| 0 <= v < adj.len() && 0 <= e < adj[v].len()
            ==> #[trigger] adj[v][e] < adj.len(),
        group_cyclic(adj, group),
        group.len() >= 1,
    ensures
        exists|v: int, e: int| #![auto] 0 <= v < adj.len() && 0 <= e < adj[v].len()
            && rank[adj[v][e] as int] >= rank[v],
{
    if !(exists|v: int, e: int| #![auto] 0 <= v < adj.len() && 0 <= e < adj[v].len()
        && rank[adj[v][e] as int] >= rank[v]) {
        assert(forall|v: int, e: int| 0 <= v < adj.len() && 0 <= e < adj[v].len()
            ==> rank[#[trigger] adj[v][e] as int] < rank[v]);
        let v0 = group[0];
        assert(group.contains(v0));
        lemma_cyclic_group_descend(adj, group, rank, v0, rank[v0 as int]);
    }
}

proof fn lemma_cyclic_group_descend(
    adj: Seq<Seq<usize>>,
    group: Seq<usize>,
    rank: Seq<nat>,
    v: usize,
    bound: nat,
)
    requires
        adj.len() == rank.len(),
        forall|u: int, e: int| 0 <= u < adj.len() && 0 <= e < adj[u].len()
            ==> #[trigger] adj[u][e] < adj.len(),
        forall|u: int, e: int| 0 <= u < adj.len() && 0 <= e < adj[u].len()
            ==> rank[#[trigger] adj[u][e] as int] < rank[u],
        group_cyclic(adj, group),
        rank[v as int] <= bound,
    ensures
        !group.contains(v),
    decreases bound,
{
    if group.contains(v) {
        let j = choose|j: int| 0 <= j < group.len() && group[j] == v;
        assert(v < adj.len());
        let e = choose|e: int| 0 <= e < adj[v as int].len()
            && group.contains(adj[v as int][e]);
        let w = adj[v as int][e];
        assert(rank[w as int] < rank[v as int]);
        lemma_cyclic_group_descend(adj, group, rank, w, rank[w as int]);
        assert(!group.contains(w));
        assert(false);
    }
}

/// Does every member of the group have a successor inside it?
fn check_group_cyclic<N>(g: &Graph<N>, group: &Vec<usize>) -> (r: bool)
    requires
        g.wf(),
    ensures
        r == group_cyclic(g.spec_adj(), group@),
{
    let n = group.len();
    let mut j: usize = 0;
    while j < n
        invariant
            g.wf(),
            0 <= j <= n,
            n == group@.len(),
            forall|t: int| 0 <= t < j
                ==> (#[trigger] group@[t]) < g.spec_adj().len()
                    && exists|e: int| 0 <= e < g.spec_adj()[group@[t] as int].len()
                        && group@.contains(g.spec_adj()[group@[t] as int][e]),
        decreases n - j,
    {
        let v = group[j];
        if v >= g.len() {
            proof {
                assert(!group_cyclic(g.spec_adj(), group@));
            }
            return false;
        }
        let row = g.edges(v);
        let ne = row.len();
        let mut e: usize = 0;
        let mut hit = false;
        while e < ne && !hit
            invariant
                g.wf(),
                v < g.spec_adj().len(),
                row@ == g.spec_adj()[v as int],
                n == group@.len(),
                0 <= e <= ne,
                ne == row@.len(),
                hit ==> exists|e2: int| 0 <= e2 < g.spec_adj()[v as int].len()
                    && group@.contains(g.spec_adj()[v as int][e2]),
                !hit ==> forall|e2: int| 0 <= e2 < e
                    ==> !group@.contains(#[trigger] row@[e2]),
            decreases ne - e,
        {
            let w = row[e];
            let mut t: usize = 0;
            let mut found = false;
            while t < n && !found
                invariant
                    n == group@.len(),
                    0 <= t <= n,
                    found ==> group@.contains(w),
                    !found ==> forall|q: int| 0 <= q < t ==> group@[q] != w,
                decreases n - t,
            {
                if group[t] == w {
                    found = true;
                    proof {
                        assert(group@[t as int] == w);
                    }
                }
                t = t + 1;
            }
            if found {
                hit = true;
                proof {
                    assert(g.spec_adj()[v as int][e as int] == w);
                }
            } else {
                proof {
                    if group@.contains(w) {
                        let q = choose|q: int| 0 <= q < group@.len() && group@[q] == w;
                    }
                }
            }
            e = e + 1;
        }
        if !hit {
            proof {
                assert(forall|e2: int| 0 <= e2 < g.spec_adj()[v as int].len()
                    ==> !group@.contains(#[trigger] g.spec_adj()[v as int][e2]));
                assert(group@[j as int] == v);
                assert(!group_cyclic(g.spec_adj(), group@));
            }
            return false;
        }
        j = j + 1;
    }
    true
}

/// Working state of Tarjan's strongly-connected-component search.
struct SccState {
    current: usize,
    stack: Vec<usize>,
    index: Vec<usize>,
    lowlink: Vec<usize>,
    on_stack: BitVec,
    comps: Vec<Vec<usize>>,
}

impl SccState {
    /// All the pieces agree: the stack holds distinct visited nodes,
    /// the bit set mirrors stack membership, and the components found
    /// so far are disjoint groups of at least two settled nodes.
    spec fn wf(&self, n: nat) -> bool {
        &&& self.index@.len() == n
        &&& self.lowlink@.len() == n
        &&& self.on_stack.spec_len() >= n
        &&& self.current < UNVISITED
        &&& forall|p: int| 0 <= p < self.stack@.len() ==> #[trigger] self.stack@[p] < n
        &&& forall|p1: int, p2: int| 0 <= p1 < p2 < self.stack@.len()
            ==> self.stack@[p1] != self.stack@[p2]
        &&& forall|p: int| 0 <= p < self.stack@.len()
            ==> self.index@[#[trigger] self.stack@[p] as int] != UNVISITED
        &&& forall|u: usize| u < n
            ==> (#[trigger] self.on_stack.spec_get(u as nat) <==> self.stack@.contains(u))
        &&& stages_bounded(self.comps@.map_values(|c: Vec<usize>| c@), n)
        &&& stages_distinct(self.comps@.map_values(|c: Vec<usize>| c@))
        &&& forall|c: int| 0 <= c < self.comps@.len()
            ==> (#[trigger] self.comps@[c]@).len() >= 2
        &&& forall|c: int, j: int| 0 <= c < self.comps@.len()
            && 0 <= j < self.comps@[c]@.len()
            ==> !self.on_stack.spec_get(#[trigger] self.comps@[c]@[j] as nat)
                && self.index@[self.comps@[c]@[j] as int] != UNVISITED
    }
}

impl<N> Graph<N> {
    /// All non-trivial strongly connected components: disjoint groups
    /// of at least two nodes in which every node can reach every other.
    pub fn cycles(&self) -> (comps: Vec<Vec<usize>>)
        requires
            self.wf(),
        ensures
            stages_bounded(comps@.map_values(|c: Vec<usize>| c@), self.spec_nodes().len()),
            stages_distinct(comps@.map_values(|c: Vec<usize>| c@)),
            forall|c: int| 0 <= c < comps@.len() ==> (#[trigger] comps@[c]@).len() >= 2,
            // every returned group really witnesses a cycle: each member
            // has a successor inside the group
            forall|c: int| 0 <= c < comps@.len()
                ==> group_cyclic(self.spec_adj(), (#[trigger] comps@[c])@),
    {
        let n = self.nodes.len();
        let mut index: Vec<usize> = Vec::new();
        let mut lowlink: Vec<usize> = Vec::new();
        let mut t: usize = 0;
        while t < n
            invariant
                index@.len() == t <= n,
                lowlink@.len() == t,
                forall|i: int| 0 <= i < t ==> #[trigger] index@[i] == UNVISITED,
            decreases n - t,
        {
            index.push(UNVISITED);
            lowlink.push(0);
            t = t + 1;
        }
        let mut s = SccState {
            current: 0,
            stack: Vec::new(),
            index,
            lowlink,
            on_stack: BitVec::with_size(n),
            comps: Vec::new(),
        };
        proof {
            let cv = s.comps@.map_values(|c: Vec<usize>| c@);
            assert(cv.len() == 0);
            assert(s.wf(n as nat));
        }
        let mut v: usize = 0;
        while v < n
            invariant
                self.wf(),
                n == self.spec_nodes().len(),
                s.wf(n as nat),
                0 <= v <= n,
            decreases n - v,
        {
            if s.index[v] == UNVISITED {
                self.strong_connect(&mut s, v);
            }
            v = v + 1;
        }
        // keep only groups in which every member has an in-group
        // successor; the components the search emits always do, so
        // this check is a proof device, not a behaviour change
        let mut comps: Vec<Vec<usize>> = Vec::new();
        let raw = s.comps;
        let nr = raw.len();
        let ghost rawv = raw@.map_values(|c: Vec<usize>| c@);
        let ghost mut origins: Seq<int> = Seq::<int>::empty();
        let mut c: usize = 0;
        while c < nr
            invariant
                self.wf(),
                n == self.spec_nodes().len(),
                0 <= c <= nr,
                nr == raw@.len(),
                rawv == raw@.map_values(|x: Vec<usize>| x@),
                stages_bounded(rawv, n as nat),
                stages_distinct(rawv),
                forall|t: int| 0 <= t < nr ==> (#[trigger] rawv[t]).len() >= 2,
                forall|t: int| 0 <= t < comps@.len()
                    ==> group_cyclic(self.spec_adj(), (#[trigger] comps@[t])@),
                origins.len() == comps@.len(),
                forall|t: int| 0 <= t < origins.len()
                    ==> 0 <= #[trigger] origins[t] < c,
                forall|t1: int, t2: int| 0 <= t1 < t2 < origins.len()
                    ==> origins[t1] < origins[t2],
                forall|t: int| 0 <= t < comps@.len()
                    ==> (#[trigger] comps@[t])@ == rawv[origins[t]],
            decreases nr - c,
        {
            proof {
                assert(rawv[c as int] == raw@[c as int]@);
            }
            if check_group_cyclic(self, &raw[c]) {
                let ghost pre = comps@;
                let copy = crate::bytes::sub_vec_usize(raw[c].as_slice());
                proof {
                    assert(copy@ =~= rawv[c as int]);
                }
                comps.push(copy);
                proof {
                    origins = origins.push(c as int);
                    assert(forall|t: int| 0 <= t < pre.len()
                        ==> #[trigger] comps@[t] == pre[t]);
                }
            }
            c = c + 1;
        }
        proof {
            let cv = comps@.map_values(|x: Vec<usize>| x@);
            assert forall|c1: int, j1: int, c2: int, j2: int|
                0 <= c1 < cv.len() && 0 <= j1 < cv[c1].len()
                && 0 <= c2 < cv.len() && 0 <= j2 < cv[c2].len()
                && (c1 != c2 || j1 != j2)
                implies #[trigger] cv[c1][j1] != #[trigger] cv[c2][j2] by {
                let u1 = origins[c1];
                let u2 = origins[c2];
                assert(cv[c1] == rawv[u1] && cv[c2] == rawv[u2]);
                if c1 < c2 {
                    assert(u1 < u2);
                } else if c2 < c1 {
                    assert(u2 < u1);
                }
                assert(rawv[u1][j1] != rawv[u2][j2]);
            }
            assert forall|c1: int, j1: int| 0 <= c1 < cv.len() && 0 <= j1 < cv[c1].len()
                implies #[trigger] cv[c1][j1] < n by {
                let u1 = origins[c1];
                assert(rawv[u1][j1] < n);
            }
        }
        comps
    }

    /// One depth-first visit of Tarjan's search, rooted at `v`.
    fn strong_connect(&self, s: &mut SccState, v: usize)
        requires
            self.wf(),
            old(s).wf(self.spec_nodes().len()),
            v < self.spec_nodes().len(),
            old(s).index@[v as int] == UNVISITED,
        ensures
            final(s).wf(self.spec_nodes().len()),
            old(s).stack@.is_prefix_of(final(s).stack@),
            forall|u: int| 0 <= u < final(s).index@.len()
                && old(s).index@[u] != UNVISITED ==> final(s).index@[u] != UNVISITED,
            final(s).index@[v as int] != UNVISITED,
            count_unvisited(final(s).index@) < count_unvisited(old(s).index@),
        decreases count_unvisited(old(s).index@),
    {
        let ghost n = self.spec_nodes().len();
        let base = s.stack.len();
        s.index.set(v, s.current);
        s.lowlink.set(v, s.current);
        s.on_stack.set(v);
        s.stack.push(v);
        if s.current < UNVISITED - 1 {
            s.current = s.current + 1;
        }
        proof {
            assert(!old(s).stack@.contains(v)) by {
                if old(s).stack@.contains(v) {
                    let p = choose|p: int| 0 <= p < old(s).stack@.len()
                        && old(s).stack@[p] == v;
                    assert(old(s).index@[old(s).stack@[p] as int] != UNVISITED);
                }
            }
            assert forall|u: usize| u < n
                implies (#[trigger] s.on_stack.spec_get(u as nat)
                    <==> s.stack@.contains(u)) by {
                if u == v {
                    assert(s.stack@.last() == v);
                    assert(s.stack@.contains(v));
                } else {
                    assert(s.on_stack.spec_get(u as nat)
                        == old(s).on_stack.spec_get(u as nat));
                    if s.stack@.contains(u) {
                        let p = choose|p: int| 0 <= p < s.stack@.len() && s.stack@[p] == u;
                        assert(p != s.stack@.len() - 1);
                        assert(old(s).stack@[p] == u);
                        assert(old(s).stack@.contains(u));
                    }
                    if old(s).stack@.contains(u) {
                        let p = choose|p: int| 0 <= p < old(s).stack@.len()
                            && old(s).stack@[p] == u;
                        assert(s.stack@[p] == u);
                        assert(s.stack@.contains(u));
                    }
                }
            }
            // the new stack is still distinct and still holds only
            // visited nodes
            assert forall|p1: int, p2: int| 0 <= p1 < p2 < s.stack@.len()
                implies s.stack@[p1] != s.stack@[p2] by {
                if p2 == s.stack@.len() - 1 {
                    assert(s.stack@[p1] == old(s).stack@[p1]);
                    assert(s.stack@[p2] == v);
                    if s.stack@[p1] == v {
                        assert(old(s).stack@.contains(v));
                    }
                } else {
                    assert(s.stack@[p1] == old(s).stack@[p1]);
                    assert(s.stack@[p2] == old(s).stack@[p2]);
                }
            }
            assert forall|p: int| 0 <= p < s.stack@.len()
                implies s.index@[#[trigger] s.stack@[p] as int] != UNVISITED by {
                if p == s.stack@.len() - 1 {
                    assert(s.stack@[p] == v);
                    assert(s.index@[v as int] == old(s).current);
                } else {
                    assert(s.stack@[p] == old(s).stack@[p]);
                    if s.stack@[p] == v {
                        assert(old(s).stack@.contains(v));
                    }
                    assert(s.index@[s.stack@[p] as int]
                        == old(s).index@[s.stack@[p] as int]);
                }
            }
            // the components found so far never held `v`
            assert forall|c: int, j: int| 0 <= c < s.comps@.len()
                && 0 <= j < s.comps@[c]@.len()
                implies !s.on_stack.spec_get(#[trigger] s.comps@[c]@[j] as nat)
                    && s.index@[s.comps@[c]@[j] as int] != UNVISITED by {
                let cv = old(s).comps@.map_values(|x: Vec<usize>| x@);
                assert(cv[c] == old(s).comps@[c]@);
                assert(cv[c][j] < n);
                assert(s.comps@[c]@[j] < n);
                assert(s.comps@[c]@[j] != v) by {
                    if s.comps@[c]@[j] == v {
                        assert(old(s).index@[v as int] != UNVISITED);
                    }
                }
            }
            assert(s.wf(n));
            lemma_count_unvisited_strict(old(s).index@, s.index@, v as int);
        }
        let ghost entry_index = s.index@;
        let ghost entry_stack = s.stack@;
        let row_len = self.adj[v].len();
        let mut e: usize = 0;
        while e < row_len
            invariant
                self.wf(),
                n == self.spec_nodes().len(),
                s.wf(n),
                v < n,
                row_len == self.spec_adj()[v as int].len(),
                entry_stack.is_prefix_of(s.stack@),
                entry_stack.len() >= 1,
                entry_stack.last() == v,
                forall|u: int| 0 <= u < s.index@.len()
                    && entry_index[u] != UNVISITED ==> #[trigger] s.index@[u] != UNVISITED,
                count_unvisited(s.index@) <= count_unvisited(entry_index),
                count_unvisited(entry_index) < count_unvisited(old(s).index@),
                0 <= e <= row_len,
            decreases row_len - e,
        {
            let w = *{
                let row = &self.adj[v];
                &row[e]
            };
            proof {
                assert(self.spec_adj()[v as int][e as int] == w);
                assert(w < n);
            }
            if s.index[w] == UNVISITED {
                let ghost pre = *s;
                self.strong_connect(s, w);
                proof {
                    assert(entry_stack.is_prefix_of(s.stack@)) by {
                        assert(pre.stack@.is_prefix_of(s.stack@));
                        assert(forall|p: int| 0 <= p < entry_stack.len()
                            ==> entry_stack[p] == pre.stack@[p] && pre.stack@[p] == s.stack@[p]);
                    }
                }
                let lv = s.lowlink[v];
                let lw = s.lowlink[w];
                if lw < lv {
                    s.lowlink.set(v, lw);
                }
            } else {
                let os = s.on_stack.get(w);
                if os {
                    let lv = s.lowlink[v];
                    let iw = s.index[w];
                    if iw < lv {
                        s.lowlink.set(v, iw);
                    }
                }
            }
            e = e + 1;
        }
        // if v is a root, pop the stack down to v and emit a component
        if s.lowlink[v] == s.index[v] {
            let mut cycle: Vec<usize> = Vec::new();
            let ghost stack0 = s.stack@;
            let mut finished = false;
            while !finished
                invariant
                    n == self.spec_nodes().len(),
                    s.wf(n),
                    v < n,
                    entry_stack.len() == base + 1,
                    entry_stack.last() == v,
                    !finished ==> entry_stack.is_prefix_of(s.stack@),
                    !finished ==> s.stack@.len() >= base + 1,
                    finished ==> s.stack@ =~= entry_stack.drop_last(),
                    finished ==> !s.stack@.contains(v),
                    s.index@ == final(s).index@ || s.index@.len() == n,
                    forall|u: int| 0 <= u < s.index@.len()
                        && entry_index[u] != UNVISITED ==> #[trigger] s.index@[u] != UNVISITED,
                    count_unvisited(s.index@) <= count_unvisited(entry_index),
                    count_unvisited(entry_index) < count_unvisited(old(s).index@),
                    forall|j: int| 0 <= j < cycle@.len() ==> #[trigger] cycle@[j] < n,
                    forall|j1: int, j2: int| 0 <= j1 < j2 < cycle@.len()
                        ==> cycle@[j1] != cycle@[j2],
                    forall|j: int| 0 <= j < cycle@.len()
                        ==> !s.on_stack.spec_get(#[trigger] cycle@[j] as nat)
                            && s.index@[cycle@[j] as int] != UNVISITED,
                    forall|j: int| 0 <= j < cycle@.len()
                        ==> !s.stack@.contains(#[trigger] cycle@[j]),
                    forall|c: int, j: int| 0 <= c < s.comps@.len()
                        && 0 <= j < s.comps@[c]@.len()
                        ==> !cycle@.contains(#[trigger] s.comps@[c]@[j]),
                decreases s.stack@.len(),
            {
                proof {
                    assert(s.stack@.len() > 0);
                }
                let ghost pre = *s;
                let w = match s.stack.pop() {
                    Some(w) => w,
                    None => {
                        proof {
                            assert(false);
                        }
                        break;
                    }
                };
                let ghost popped_stack = s.stack@;
                proof {
                    assert(pre.stack@ =~= popped_stack.push(w));
                    assert(pre.stack@.last() == w);
                    assert(w < n);
                    // popping a distinct stack removes the only occurrence
                    assert(!s.stack@.contains(w)) by {
                        if s.stack@.contains(w) {
                            let p = choose|p: int| 0 <= p < s.stack@.len()
                                && s.stack@[p] == w;
                            assert(pre.stack@[p] == w);
                            assert(pre.stack@[pre.stack@.len() - 1] == w);
                        }
                    }
                    // the popped node was on the stack, so it stands in no
                    // component found so far
                    assert(pre.on_stack.spec_get(w as nat)) by {
                        assert(pre.stack@.contains(w));
                    }
                    assert forall|c: int, j: int| 0 <= c < s.comps@.len()
                        && 0 <= j < s.comps@[c]@.len()
                        implies #[trigger] s.comps@[c]@[j] != w by {
                        if s.comps@[c]@[j] == w {
                            assert(!pre.on_stack.spec_get(pre.comps@[c]@[j] as nat));
                        }
                    }
                }
                s.on_stack.clear(w);
                proof {
                    assert forall|u: usize| u < n
                        implies (#[trigger] s.on_stack.spec_get(u as nat)
                            <==> s.stack@.contains(u)) by {
                        if u != w {
                            if s.stack@.contains(u) {
                                let p = choose|p: int| 0 <= p < s.stack@.len()
                                    && s.stack@[p] == u;
                                assert(popped_stack.push(w)[p] == u);
                                assert(popped_stack.push(w).contains(u));
                            }
                            if popped_stack.push(w).contains(u) {
                                let p = choose|p: int| 0 <= p < popped_stack.push(w).len()
                                    && popped_stack.push(w)[p] == u;
                                assert(p != popped_stack.len());
                                assert(s.stack@[p] == u);
                                assert(s.stack@.contains(u));
                            }
                        }
                    }
                    assert forall|c: int, j: int| 0 <= c < s.comps@.len()
                        && 0 <= j < s.comps@[c]@.len()
                        implies !s.on_stack.spec_get(#[trigger] s.comps@[c]@[j] as nat)
                            && s.index@[s.comps@[c]@[j] as int] != UNVISITED by {
                        let x = s.comps@[c]@[j];
                        assert(pre.comps@[c]@[j] == x);
                        let cv = pre.comps@.map_values(|y: Vec<usize>| y@);
                        assert(cv[c] == pre.comps@[c]@);
                        assert(cv[c][j] < n);
                        assert(x < n);
                        assert(x != w);
                        assert(s.on_stack.spec_get(x as nat)
                            == pre.on_stack.spec_get(x as nat));
                        assert(!pre.on_stack.spec_get(x as nat));
                    }
                }
                let ghost pre_cycle = cycle@;
                cycle.push(w);
                proof {
                    assert(forall|j: int| 0 <= j < pre_cycle.len()
                        ==> cycle@[j] == pre_cycle[j]);
                    assert(cycle@.last() == w);
                    assert forall|j: int| 0 <= j < cycle@.len()
                        implies !s.stack@.contains(#[trigger] cycle@[j]) by {
                        if j < pre_cycle.len() {
                            if s.stack@.contains(cycle@[j]) {
                                let p = choose|p: int| 0 <= p < s.stack@.len()
                                    && s.stack@[p] == cycle@[j];
                                assert(popped_stack.push(w)[p] == cycle@[j]);
                                assert(popped_stack.push(w).contains(cycle@[j]));
                            }
                        }
                    }
                    assert forall|c: int, j: int| 0 <= c < s.comps@.len()
                        && 0 <= j < s.comps@[c]@.len()
                        implies !cycle@.contains(#[trigger] s.comps@[c]@[j]) by {
                        let x = s.comps@[c]@[j];
                        if cycle@.contains(x) {
                            let t2 = choose|t2: int| 0 <= t2 < cycle@.len()
                                && cycle@[t2] == x;
                            if t2 < pre_cycle.len() {
                                assert(pre_cycle[t2] == x);
                                assert(pre_cycle.contains(x));
                            } else {
                                assert(x == w);
                            }
                        }
                    }
                }
                if w == v {
                    finished = true;
                    proof {
                        assert(entry_stack.is_prefix_of(popped_stack.push(w)));
                        assert(popped_stack.push(w).len() >= base + 1);
                        assert(popped_stack.push(w)[base as int] == v) by {
                            assert(entry_stack[base as int] == v);
                        }
                        assert(popped_stack.len() >= base);
                        assert(popped_stack.push(v).len() == popped_stack.len() + 1);
                        // v sits at position base, and the stack is distinct,
                        // so the pop that returned v emptied everything above
                        // the original stack
                        assert(s.stack@.len() == base) by {
                            if popped_stack.len() > base {
                                assert(popped_stack.push(w)[popped_stack.len() as int] == w);
                                assert(popped_stack.push(w)[base as int] == v);
                            }
                        }
                        assert(s.stack@ =~= entry_stack.drop_last()) by {
                            assert(forall|p: int| 0 <= p < base
                                ==> popped_stack.push(w)[p] == entry_stack[p]);
                            assert(forall|p: int| 0 <= p < base
                                ==> s.stack@[p] == popped_stack.push(w)[p]);
                        }
                        assert(!s.stack@.contains(v)) by {
                            if s.stack@.contains(v) {
                                let p = choose|p: int| 0 <= p < s.stack@.len()
                                    && s.stack@[p] == v;
                                assert(popped_stack.push(w)[p] == v);
                            }
                        }
                    }
                }
            }
            if cycle.len() > 1 {
                let ghost pre_comps = s.comps@.map_values(|c: Vec<usize>| c@);
                let ghost cycle_v = cycle@;
                s.comps.push(cycle);
                proof {
                    let cv = s.comps@.map_values(|c: Vec<usize>| c@);
                    assert(cv =~= pre_comps.push(cycle_v));
                    assert forall|c: int, j: int| 0 <= c < cv.len() && 0 <= j < cv[c].len()
                        implies #[trigger] cv[c][j] < n by {
                        if c < pre_comps.len() {
                            assert(pre_comps[c][j] < n);
                        } else {
                            assert(cv[c] == cycle_v);
                        }
                    }
                    assert forall|c1: int, j1: int, c2: int, j2: int|
                        0 <= c1 < cv.len() && 0 <= j1 < cv[c1].len()
                        && 0 <= c2 < cv.len() && 0 <= j2 < cv[c2].len()
                        && (c1 != c2 || j1 != j2)
                        implies #[trigger] cv[c1][j1] != #[trigger] cv[c2][j2] by {
                        if c1 < pre_comps.len() && c2 < pre_comps.len() {
                            assert(pre_comps[c1][j1] != pre_comps[c2][j2]);
                        } else if c1 < pre_comps.len() && c2 == pre_comps.len() {
                            assert(cv[c2] == cycle_v);
                            assert(!cycle_v.contains(pre_comps[c1][j1]));
                            if cv[c1][j1] == cv[c2][j2] {
                                assert(cycle_v[j2] == pre_comps[c1][j1]);
                                assert(cycle_v.contains(pre_comps[c1][j1]));
                            }
                        } else if c1 == pre_comps.len() && c2 < pre_comps.len() {
                            assert(cv[c1] == cycle_v);
                            assert(!cycle_v.contains(pre_comps[c2][j2]));
                            if cv[c1][j1] == cv[c2][j2] {
                                assert(cycle_v[j1] == pre_comps[c2][j2]);
                                assert(cycle_v.contains(pre_comps[c2][j2]));
                            }
                        } else {
                            assert(cv[c1] == cycle_v && cv[c2] == cycle_v);
                            assert(j1 != j2);
                        }
                    }
                    assert forall|c: int, j: int| 0 <= c < s.comps@.len()
                        && 0 <= j < s.comps@[c]@.len()
                        implies !s.on_stack.spec_get(#[trigger] s.comps@[c]@[j] as nat)
                            && s.index@[s.comps@[c]@[j] as int] != UNVISITED by {
                        if c < pre_comps.len() {
                            assert(pre_comps[c][j] == s.comps@[c]@[j]);
                        } else {
                            assert(s.comps@[c]@ == cycle_v);
                        }
                    }
                    assert(s.wf(n));
                }
            }
            proof {
                assert(old(s).stack@ =~= entry_stack.drop_last());
            }
        }
    }
}


/// Every removed pair lies inside one of the reported groups.
pub open spec fn removed_within_groups(
    groups: Seq<Seq<usize>>,
    removed: Seq<(usize, usize)>,
) -> bool {
    forall|t: int| #![trigger removed[t]] 0 <= t < removed.len()
        ==> exists|c: int| #![auto] 0 <= c < groups.len()
            && groups[c].contains(removed[t].0)
            && groups[c].contains(removed[t].1)
}

/// Every one of the first `k` groups with an internal edge loses one
/// within it.
pub open spec fn groups_lose_upto(
    adj: Seq<Seq<usize>>,
    groups: Seq<Seq<usize>>,
    removed: Seq<(usize, usize)>,
    k: int,
) -> bool {
    forall|c: int| #![auto] 0 <= c < k && c < groups.len()
        && group_has_internal_edge(adj, groups[c])
        ==> exists|t: int| #![auto] 0 <= t < removed.len()
            && groups[c].contains(removed[t].0)
            && groups[c].contains(removed[t].1)
}

/// Every group with an internal edge loses one within it.
pub open spec fn groups_lose_internal_edge(
    adj: Seq<Seq<usize>>,
    groups: Seq<Seq<usize>>,
    removed: Seq<(usize, usize)>,
) -> bool {
    groups_lose_upto(adj, groups, removed, groups.len() as int)
}

/// Appending a removal inside group `k` keeps every earlier group's
/// removal and settles group `k`.
proof fn lemma_lose_upto_extend_hit(
    adj: Seq<Seq<usize>>,
    groups: Seq<Seq<usize>>,
    removed: Seq<(usize, usize)>,
    pair: (usize, usize),
    k: int,
)
    requires
        groups_lose_upto(adj, groups, removed, k),
        0 <= k < groups.len(),
        groups[k].contains(pair.0),
        groups[k].contains(pair.1),
    ensures
        groups_lose_upto(adj, groups, removed.push(pair), k + 1),
{
    let r2 = removed.push(pair);
    assert forall|c: int| #![auto] 0 <= c < k + 1 && c < groups.len()
        && group_has_internal_edge(adj, groups[c])
        implies exists|t: int| #![auto] 0 <= t < r2.len()
            && groups[c].contains(r2[t].0) && groups[c].contains(r2[t].1) by {
        if c < k {
            let t0 = choose|t0: int| #![auto] 0 <= t0 < removed.len()
                && groups[c].contains(removed[t0].0)
                && groups[c].contains(removed[t0].1);
            assert(r2[t0] == removed[t0]);
            assert(0 <= t0 < r2.len()
                && groups[c].contains(r2[t0].0) && groups[c].contains(r2[t0].1));
        } else {
            let tl = r2.len() - 1;
            assert(r2[tl] == pair);
            assert(0 <= tl < r2.len()
                && groups[c].contains(r2[tl].0) && groups[c].contains(r2[tl].1));
        }
    }
}

/// A group with no internal edge needs no removal.
proof fn lemma_lose_upto_extend_skip(
    adj: Seq<Seq<usize>>,
    groups: Seq<Seq<usize>>,
    removed: Seq<(usize, usize)>,
    k: int,
)
    requires
        groups_lose_upto(adj, groups, removed, k),
        0 <= k,
        k < groups.len() ==> !group_has_internal_edge(adj, groups[k]),
    ensures
        groups_lose_upto(adj, groups, removed, k + 1),
{
    assert forall|c: int| #![auto] 0 <= c < k + 1 && c < groups.len()
        && group_has_internal_edge(adj, groups[c])
        implies exists|t: int| #![auto] 0 <= t < removed.len()
            && groups[c].contains(removed[t].0) && groups[c].contains(removed[t].1) by {
        assert(c < k);
        assert(0 <= c < k && c < groups.len() && group_has_internal_edge(adj, groups[c]));
    }
}

/// Appending a removal that lies inside some group preserves the
/// within-groups property.
proof fn lemma_within_push(
    groups: Seq<Seq<usize>>,
    removed: Seq<(usize, usize)>,
    pair: (usize, usize),
    k: int,
)
    requires
        removed_within_groups(groups, removed),
        0 <= k < groups.len(),
        groups[k].contains(pair.0),
        groups[k].contains(pair.1),
    ensures
        removed_within_groups(groups, removed.push(pair)),
{
    let r2 = removed.push(pair);
    assert forall|t: int| #![trigger r2[t]] 0 <= t < r2.len()
        implies exists|c: int| #![auto] 0 <= c < groups.len()
            && groups[c].contains(r2[t].0) && groups[c].contains(r2[t].1) by {
        if t < removed.len() {
            assert(r2[t] == removed[t]);
            let c0 = choose|c0: int| #![auto] 0 <= c0 < groups.len()
                && groups[c0].contains(removed[t].0)
                && groups[c0].contains(removed[t].1);
            assert(0 <= c0 < groups.len()
                && groups[c0].contains(r2[t].0) && groups[c0].contains(r2[t].1));
        } else {
            assert(r2[t] == pair);
            assert(0 <= k < groups.len()
                && groups[k].contains(r2[t].0) && groups[k].contains(r2[t].1));
        }
    }
}

/// The group has an edge that stays inside it.
pub open spec fn group_has_internal_edge(adj: Seq<Seq<usize>>, group: Seq<usize>) -> bool {
    exists|j: int, e: int| #![auto] 0 <= j < group.len()
        && group[j] < adj.len()
        && 0 <= e < adj[group[j] as int].len()
        && group.contains(adj[group[j] as int][e])
}

/// Is `v` a member of the group?
fn contains_idx(group: &Vec<usize>, v: usize) -> (r: bool)
    ensures
        r == group@.contains(v),
{
    let n = group.len();
    let mut t: usize = 0;
    while t < n
        invariant
            0 <= t <= n,
            n == group@.len(),
            forall|q: int| 0 <= q < t ==> group@[q] != v,
        decreases n - t,
    {
        if group[t] == v {
            proof {
                assert(group@[t as int] == v);
            }
            return true;
        }
        t = t + 1;
    }
    proof {
        if group@.contains(v) {
            let q = choose|q: int| 0 <= q < group@.len() && group@[q] == v;
        }
    }
    false
}

impl<N> Graph<N> {
    /// The first in-group successor of node `m`, as an edge position.
    fn first_internal_edge(&self, m: usize, group: &Vec<usize>) -> (r: Option<usize>)
        requires
            self.wf(),
            m < self.spec_adj().len(),
        ensures
            match r {
                Some(e) => e < self.spec_adj()[m as int].len()
                    && group@.contains(self.spec_adj()[m as int][e as int]),
                None => forall|e: int| 0 <= e < self.spec_adj()[m as int].len()
                    ==> !group@.contains(#[trigger] self.spec_adj()[m as int][e]),
            },
    {
        let row = self.edges(m);
        let ne = row.len();
        let mut e: usize = 0;
        while e < ne
            invariant
                self.wf(),
                m < self.spec_adj().len(),
                row@ == self.spec_adj()[m as int],
                0 <= e <= ne,
                ne == row@.len(),
                forall|q: int| 0 <= q < e
                    ==> !group@.contains(#[trigger] row@[q]),
            decreases ne - e,
        {
            if contains_idx(group, row[e]) {
                proof {
                    assert(self.spec_adj()[m as int][e as int] == row@[e as int]);
                }
                return Some(e);
            }
            e = e + 1;
        }
        None
    }

    /// Remove one in-group edge per reported cycle, taken from the
    /// member with the fewest edges that leave its cycle (falling back
    /// to any member with an in-group edge).  Every removed pair was an
    /// edge inside its cycle; every cycle that has an internal edge
    /// loses exactly one; no edge is ever added.
    pub fn remove_cycles(&mut self, cycles: &Vec<Vec<usize>>) -> (removed: Vec<(usize, usize)>)
        requires
            old(self).wf(),
            stages_bounded(cycles@.map_values(|c: Vec<usize>| c@), old(self).spec_nodes().len()),
            stages_distinct(cycles@.map_values(|c: Vec<usize>| c@)),
        ensures
            final(self).wf(),
            final(self).spec_nodes() == old(self).spec_nodes(),
            forall|v: int, w: int| final(self).spec_has_edge(v, w)
                ==> old(self).spec_has_edge(v, w),
            forall|t: int| 0 <= t < removed@.len()
                ==> old(self).spec_has_edge(removed@[t].0 as int, removed@[t].1 as int),
            // each removed edge lies inside one reported cycle
            removed_within_groups(cycles@.map_values(|x: Vec<usize>| x@), removed@),
            // a cycle with an internal edge loses one within it
            groups_lose_internal_edge(
                old(self).spec_adj(),
                cycles@.map_values(|x: Vec<usize>| x@),
                removed@,
            ),
    {
        let n = self.nodes.len();
        let mut removed: Vec<(usize, usize)> = Vec::new();
        let nc = cycles.len();
        let ghost cyv = cycles@.map_values(|x: Vec<usize>| x@);
        proof {
            assert forall|t: int| #![trigger removed@[t]] 0 <= t < removed@.len()
                implies exists|c: int| #![auto] 0 <= c < cyv.len()
                    && cyv[c].contains(removed@[t].0)
                    && cyv[c].contains(removed@[t].1) by {}
            assert forall|c: int| #![auto] 0 <= c < 0 && c < cyv.len()
                && group_has_internal_edge(old(self).spec_adj(), cyv[c])
                implies exists|t: int| #![auto] 0 <= t < removed@.len()
                    && cyv[c].contains(removed@[t].0)
                    && cyv[c].contains(removed@[t].1) by {}
        }
        let mut c: usize = 0;
        while c < nc
            invariant
                self.wf(),
                n == self.spec_nodes().len(),
                self.spec_nodes() == old(self).spec_nodes(),
                0 <= c <= nc,
                nc == cycles@.len(),
                cyv == cycles@.map_values(|x: Vec<usize>| x@),
                stages_bounded(cyv, n as nat),
                stages_distinct(cyv),
                forall|v: int, w: int| self.spec_has_edge(v, w)
                    ==> old(self).spec_has_edge(v, w),
                forall|t: int| 0 <= t < removed@.len()
                    ==> old(self).spec_has_edge(
                        removed@[t].0 as int, removed@[t].1 as int),
                removed_within_groups(cyv, removed@),
                groups_lose_upto(old(self).spec_adj(), cyv, removed@, c as int),
                // rows of nodes in cycles not yet processed are untouched
                forall|c2: int, j: int| #![auto] c <= c2 < nc && 0 <= j < cyv[c2].len()
                    ==> self.spec_adj()[cyv[c2][j] as int]
                        == old(self).spec_adj()[cyv[c2][j] as int],
            decreases nc - c,
        {
            let cycle = &cycles[c];
            proof {
                assert(cyv[c as int] == cycles@[c as int]@);
            }
            let nm = cycle.len();
            // the member with the fewest edges leaving the cycle
            let mut best: Option<usize> = None;
            let mut best_leaving: usize = 0;
            let mut j: usize = 0;
            while j < nm
                invariant
                    self.wf(),
                    n == self.spec_nodes().len(),
                    0 <= c < nc,
                    nc == cycles@.len(),
                    cyv == cycles@.map_values(|x: Vec<usize>| x@),
                    cycle@ == cyv[c as int],
                    stages_bounded(cyv, n as nat),
                    nm == cycle@.len(),
                    0 <= j <= nm,
                    match best {
                        Some(m) => m < self.spec_adj().len() && cycle@.contains(m),
                        None => true,
                    },
                decreases nm - j,
            {
                let m = cycle[j];
                proof {
                    assert(cycle@[j as int] == m);
                    assert(0 <= c < cyv.len() && 0 <= j < cyv[c as int].len());
                    assert(cyv[c as int][j as int] == m);
                    assert(m < n);
                    assert(cycle@.contains(m));
                }
                let row = self.edges(m);
                let ne = row.len();
                let mut leaving: usize = 0;
                let mut e: usize = 0;
                while e < ne
                    invariant
                        0 <= e <= ne,
                        ne == row@.len(),
                        leaving <= e,
                        nm == cycle@.len(),
                    decreases ne - e,
                {
                    if !contains_idx(cycle, row[e]) {
                        leaving = leaving + 1;
                    }
                    e = e + 1;
                }
                let better = match best {
                    None => true,
                    Some(_) => leaving < best_leaving,
                };
                if better {
                    best = Some(m);
                    best_leaving = leaving;
                }
                j = j + 1;
            }
            // find an in-cycle edge: the chosen member first, then any
            let mut pick: Option<(usize, usize)> = None;
            match best {
                Some(m) => {
                    match self.first_internal_edge(m, cycle) {
                        Some(e) => {
                            pick = Some((m, e));
                        }
                        None => {}
                    }
                }
                None => {}
            }
            if pick.is_none() {
                let mut j2: usize = 0;
                while j2 < nm && pick.is_none()
                    invariant
                        self.wf(),
                        n == self.spec_nodes().len(),
                        0 <= c < nc,
                        nc == cycles@.len(),
                        cyv == cycles@.map_values(|x: Vec<usize>| x@),
                        cycle@ == cyv[c as int],
                        stages_bounded(cyv, n as nat),
                        nm == cycle@.len(),
                        0 <= j2 <= nm,
                        match pick {
                            Some(p) => p.0 < self.spec_adj().len()
                                && cycle@.contains(p.0)
                                && p.1 < self.spec_adj()[p.0 as int].len()
                                && cycle@.contains(
                                    self.spec_adj()[p.0 as int][p.1 as int]),
                            None => forall|q: int, e: int| #![auto] 0 <= q < j2
                                && 0 <= e < self.spec_adj()[cycle@[q] as int].len()
                                ==> !cycle@.contains(self.spec_adj()[cycle@[q] as int][e]),
                        },
                    decreases nm - j2,
                {
                    let m2 = cycle[j2];
                    proof {
                        assert(cycle@[j2 as int] == m2);
                        assert(0 <= c < cyv.len() && 0 <= j2 < cyv[c as int].len());
                        assert(cyv[c as int][j2 as int] == m2);
                        assert(m2 < n);
                    }
                    match self.first_internal_edge(m2, cycle) {
                        Some(e) => {
                            pick = Some((m2, e));
                            proof {
                                assert(cycle@.contains(m2));
                            }
                        }
                        None => {
                            proof {
                                assert forall|q: int, e: int| #![auto] 0 <= q < j2 + 1
                                    && 0 <= e < self.spec_adj()[cycle@[q] as int].len()
                                    implies !cycle@.contains(
                                        self.spec_adj()[cycle@[q] as int][e]) by {
                                    if q == j2 {
                                        assert(cycle@[q] == m2);
                                    }
                                }
                            }
                        }
                    }
                    j2 = j2 + 1;
                }
            }
            match pick {
                Some((m, e)) => {
                    proof {
                        assert(cycle@.contains(m));
                        assert(m < n);
                        assert(e < self.spec_adj()[m as int].len());
                    }
                    let ghost before = self.spec_adj();
                    let target = self.adj[m][e];
                    let mut row = self.adj[m].clone();
                    assert(row@ == before[m as int]) by {
                        assert(forall|q: int| 0 <= q < row@.len()
                            ==> row@[q] == before[m as int][q]);
                        assert(row@ =~= before[m as int]);
                    }
                    row.swap_remove(e);
                    let ghost new_row = row@;
                    self.adj.set(m, row);
                    let ghost prev_removed = removed@;
                    removed.push((m, target));
                    proof {
                        let after = self.spec_adj();
                        assert(after =~= before.update(m as int, new_row));
                        assert forall|q: int| 0 <= q < new_row.len()
                            implies before[m as int].contains(#[trigger] new_row[q]) by {
                            let old_row = before[m as int];
                            if q == e {
                                assert(new_row[q] == old_row[old_row.len() - 1]);
                            } else {
                                assert(new_row[q] == old_row[q]);
                            }
                        }
                        assert forall|v: int, w: int| self.spec_has_edge(v, w)
                            implies old(self).spec_has_edge(v, w) by {
                            if v == m {
                                let q = choose|q: int| 0 <= q < after[v].len()
                                    && after[v][q] == w as usize;
                                assert(before[v].contains(w as usize));
                            } else {
                                assert(after[v] == before[v]);
                            }
                        }
                        assert(before[m as int][e as int] == target);
                        assert(before[m as int].contains(target));
                        assert(cycle@.contains(target));
                        // the new removal record
                        assert(removed@.last() == (m, target));
                        assert(forall|t: int| 0 <= t < prev_removed.len()
                            ==> #[trigger] removed@[t] == prev_removed[t]);
                        assert(removed@ == prev_removed.push((m, target)));
                        assert(cyv[c as int].contains(m) && cyv[c as int].contains(target));
                        lemma_within_push(cyv, prev_removed, (m, target), c as int);
                        lemma_lose_upto_extend_hit(
                            old(self).spec_adj(), cyv, prev_removed, (m, target), c as int);
                        // rows of members of later cycles stay untouched:
                        // distinctness keeps `m` out of them
                        assert forall|c2: int, q: int| #![auto] c + 1 <= c2 < nc
                            && 0 <= q < cyv[c2].len()
                            implies self.spec_adj()[cyv[c2][q] as int]
                                == old(self).spec_adj()[cyv[c2][q] as int] by {
                            assert(cycle@.contains(m));
                            let jm = choose|jm: int| 0 <= jm < cyv[c as int].len()
                                && cyv[c as int][jm] == m;
                            assert(cyv[c2][q] != cyv[c as int][jm]);
                            assert(after[cyv[c2][q] as int] == before[cyv[c2][q] as int]);
                        }
                    }
                }
                None => {
                    proof {
                        // no member has an in-cycle successor, so the
                        // cycle has no internal edge to lose
                        assert(!group_has_internal_edge(old(self).spec_adj(), cyv[c as int]))
                            by {
                            if group_has_internal_edge(old(self).spec_adj(), cyv[c as int]) {
                                let (j3, e3) = choose|j3: int, e3: int| #![auto]
                                    0 <= j3 < cyv[c as int].len()
                                    && cyv[c as int][j3] < old(self).spec_adj().len()
                                    && 0 <= e3
                                        < old(self).spec_adj()[cyv[c as int][j3] as int].len()
                                    && cyv[c as int].contains(
                                        old(self).spec_adj()[cyv[c as int][j3] as int][e3]);
                                assert(self.spec_adj()[cyv[c as int][j3] as int]
                                    == old(self).spec_adj()[cyv[c as int][j3] as int]);
                                assert(cycle@[j3] == cyv[c as int][j3]);
                            }
                        }
                        lemma_lose_upto_extend_skip(
                            old(self).spec_adj(), cyv, removed@, c as int);
                    }
                }
            }
            c = c + 1;
        }
        proof {
            assert(cyv.len() == nc);
            assert(groups_lose_internal_edge(old(self).spec_adj(), cyv, removed@));
        }
        removed
    }
}

} // verus!
