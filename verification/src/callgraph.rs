//! The call graph: a directed graph of caller/callee relationships between procedures, with
//! topological sorting and cycle detection.

use vstd::prelude::*;

use crate::id::{gid_less, gid_lt, GlobalProcedureIndex, ModuleIndex};

verus! {

/// The mathematical model of a call graph: each node (procedure) maps to the sequence of its
/// callees, in the order they were added.
pub type Graph = Map<GlobalProcedureIndex, Seq<GlobalProcedureIndex>>;

/// There is an edge from `u` to `v`: `u` is a node of `g` and calls `v`.
pub open spec fn has_edge(g: Graph, u: GlobalProcedureIndex, v: GlobalProcedureIndex) -> bool {
    g.dom().contains(u) && g[u].contains(v)
}

/// The callees of `k` in `g`; empty when `k` is not a node of `g`.
pub open spec fn out_of(g: Graph, k: GlobalProcedureIndex) -> Seq<GlobalProcedureIndex> {
    if g.dom().contains(k) {
        g[k]
    } else {
        Seq::empty()
    }
}

/// `s` lists every node of `g` exactly once, and every edge of `g` goes from an earlier to a
/// later position of `s`.
pub open spec fn is_topological_order(g: Graph, s: Seq<GlobalProcedureIndex>) -> bool {
    &&& s.no_duplicates()
    &&& forall|k: GlobalProcedureIndex| s.contains(k) <==> g.dom().contains(k)
    &&& forall|i: int, j: int|
        0 <= i < s.len() && 0 <= j < s.len() && #[trigger] has_edge(g, s[i], s[j]) ==> i < j
}

/// `w` is a non-empty set of nodes of `g` in which every node is called by a node of `w`:
/// following callers backwards inside `w` never ends, so `g` contains a cycle.
pub open spec fn is_cycle_witness(g: Graph, w: Set<GlobalProcedureIndex>) -> bool {
    &&& exists|v: GlobalProcedureIndex| w.contains(v)
    &&& forall|v: GlobalProcedureIndex| #[trigger]
        cycle_member(w, v) ==> g.dom().contains(v) && exists|u: GlobalProcedureIndex|
            w.contains(u) && #[trigger] has_edge(g, u, v)
}

/// `v` belongs to `w` (named apart so that the callers found for the members of a cycle witness
/// are not themselves taken as new members to look at).
pub open spec fn cycle_member(w: Set<GlobalProcedureIndex>, v: GlobalProcedureIndex) -> bool {
    w.contains(v)
}

/// `p` is a non-empty path of `g`: each element calls the next one.
pub open spec fn is_path(g: Graph, p: Seq<GlobalProcedureIndex>) -> bool {
    &&& p.len() >= 1
    &&& forall|i: int| 0 <= i < p.len() - 1 ==> #[trigger] has_edge(g, p[i], p[i + 1])
}

/// `b` can be reached from `a` by following zero or more edges of `g`.
pub open spec fn reachable(g: Graph, a: GlobalProcedureIndex, b: GlobalProcedureIndex) -> bool {
    exists|p: Seq<GlobalProcedureIndex>| #[trigger] is_path(g, p) && p[0] == a && p.last() == b
}

/// The part of `g` reachable from `root`: every node that `root` reaches (`root` included, even if
/// it is not a node of `g`), each with its callees in `g`.
pub open spec fn reachable_subgraph(g: Graph, root: GlobalProcedureIndex) -> Graph {
    Map::new(|k: GlobalProcedureIndex| reachable(g, root, k), |k: GlobalProcedureIndex| out_of(g, k))
}

/// Following an edge extends reachability.
pub proof fn lemma_reachable_step(
    g: Graph,
    a: GlobalProcedureIndex,
    u: GlobalProcedureIndex,
    v: GlobalProcedureIndex,
)
    requires
        reachable(g, a, u),
        has_edge(g, u, v),
    ensures
        reachable(g, a, v),
{
    let p = choose|p: Seq<GlobalProcedureIndex>| #[trigger] is_path(g, p) && p[0] == a && p.last() == u;
    let q = p.push(v);
    assert forall|i: int| 0 <= i < q.len() - 1 implies #[trigger] has_edge(g, q[i], q[i + 1]) by {
        if i < p.len() - 1 {
            assert(q[i] == p[i] && q[i + 1] == p[i + 1]);
        }
    }
    assert(is_path(g, q));
}

/// Every node is reachable from itself.
pub proof fn lemma_reachable_refl(g: Graph, a: GlobalProcedureIndex)
    ensures
        reachable(g, a, a),
{
    let p = seq![a];
    assert(is_path(g, p));
}

/// A set that contains `root` and is closed under the edges of `g` contains every node that
/// `root` reaches.
pub proof fn lemma_closed_contains_reachable(
    g: Graph,
    w: Set<GlobalProcedureIndex>,
    root: GlobalProcedureIndex,
    k: GlobalProcedureIndex,
)
    requires
        w.contains(root),
        forall|u: GlobalProcedureIndex, v: GlobalProcedureIndex|
            w.contains(u) && #[trigger] has_edge(g, u, v) ==> w.contains(v),
        reachable(g, root, k),
    ensures
        w.contains(k),
{
    let p = choose|p: Seq<GlobalProcedureIndex>| #[trigger] is_path(g, p) && p[0] == root && p.last() == k;
    lemma_closed_path(g, w, p, p.len() - 1);
}

/// Every element of a path that starts in a set closed under the edges of `g` is in that set.
proof fn lemma_closed_path(
    g: Graph,
    w: Set<GlobalProcedureIndex>,
    p: Seq<GlobalProcedureIndex>,
    i: int,
)
    requires
        is_path(g, p),
        0 <= i < p.len(),
        w.contains(p[0]),
        forall|u: GlobalProcedureIndex, v: GlobalProcedureIndex|
            w.contains(u) && #[trigger] has_edge(g, u, v) ==> w.contains(v),
    ensures
        w.contains(p[i]),
    decreases i,
{
    if i > 0 {
        lemma_closed_path(g, w, p, i - 1);
        let j = i - 1;
        assert(has_edge(g, p[j], p[j + 1]));
    }
}

/// Every node of a cycle witness sits at position at least `depth` of a topological order.
proof fn lemma_witness_depth(
    g: Graph,
    w: Set<GlobalProcedureIndex>,
    s: Seq<GlobalProcedureIndex>,
    depth: nat,
)
    requires
        is_cycle_witness(g, w),
        is_topological_order(g, s),
    ensures
        forall|v: GlobalProcedureIndex| #[trigger] cycle_member(w, v) ==> s.index_of(v) >= depth,
    decreases depth,
{
    assert forall|v: GlobalProcedureIndex| #[trigger] cycle_member(w, v) implies s.contains(v) && 0 <= s.index_of(v) < s.len() && s[s.index_of(v)] == v by {
        assert(g.dom().contains(v));
    }
    if depth > 0 {
        lemma_witness_depth(g, w, s, (depth - 1) as nat);
        assert forall|v: GlobalProcedureIndex| #[trigger] cycle_member(w, v) implies s.index_of(v) >= depth by {
            let u = choose|u: GlobalProcedureIndex| w.contains(u) && #[trigger] has_edge(g, u, v);
            assert(cycle_member(w, u));
            assert(s.contains(u) && s.contains(v));
            assert(s.index_of(u) >= depth - 1);
            let a = s.index_of(u);
            let b = s.index_of(v);
            assert(has_edge(g, s[a], s[b]));
        }
    }
}

/// A graph with a cycle has no topological order: no sequence can list every node so that every
/// edge goes forward when some set of nodes is closed under taking a caller.
pub proof fn lemma_cycle_excludes_topological_order(
    g: Graph,
    w: Set<GlobalProcedureIndex>,
    s: Seq<GlobalProcedureIndex>,
)
    requires
        is_cycle_witness(g, w),
    ensures
        !is_topological_order(g, s),
{
    if is_topological_order(g, s) {
        lemma_witness_depth(g, w, s, s.len());
        let v = choose|v: GlobalProcedureIndex| w.contains(v);
        assert(cycle_member(w, v));
        assert(s.contains(v));
        assert(s.index_of(v) >= s.len());
    }
}

/// Along a path from `root`, positions in a topological order of the part reachable from `root`
/// never decrease, and every node of the path is reachable.
proof fn lemma_path_order(
    g: Graph,
    root: GlobalProcedureIndex,
    s: Seq<GlobalProcedureIndex>,
    p: Seq<GlobalProcedureIndex>,
    i: int,
)
    requires
        is_topological_order(reachable_subgraph(g, root), s),
        is_path(g, p),
        p[0] == root,
        0 <= i < p.len(),
    ensures
        reachable(g, root, p[i]),
        s.contains(p[i]),
        s.index_of(root) <= s.index_of(p[i]),
    decreases i,
{
    let rg = reachable_subgraph(g, root);
    if i == 0 {
        lemma_reachable_refl(g, root);
        assert(rg.dom().contains(root));
    } else {
        lemma_path_order(g, root, s, p, i - 1);
        let j = i - 1;
        assert(has_edge(g, p[j], p[j + 1]));
        lemma_reachable_step(g, root, p[j], p[j + 1]);
        assert(rg.dom().contains(p[j]));
        assert(rg.dom().contains(p[i]));
        assert(rg[p[j]] == g[p[j]]);
        assert(s.contains(p[j]));
        assert(s.contains(p[i]));
        let a = s.index_of(p[j]);
        let b = s.index_of(p[i]);
        assert(has_edge(rg, s[a], s[b]));
    }
}

/// In a topological order of the part of `g` reachable from `root`, `root` comes first.
pub proof fn lemma_root_first(g: Graph, root: GlobalProcedureIndex, s: Seq<GlobalProcedureIndex>)
    requires
        is_topological_order(reachable_subgraph(g, root), s),
    ensures
        s.len() >= 1,
        s[0] == root,
{
    let rg = reachable_subgraph(g, root);
    lemma_reachable_refl(g, root);
    assert(rg.dom().contains(root));
    assert(s.contains(root));
    let v = s[0];
    assert(s.contains(v));
    assert(reachable(g, root, v));
    let p = choose|p: Seq<GlobalProcedureIndex>| #[trigger] is_path(g, p) && p[0] == root && p.last() == v;
    lemma_path_order(g, root, s, p, p.len() - 1);
    let z = s.index_of(v);
    if z != 0 {
        assert(s[z] == s[0]);
    }
    let r = s.index_of(root);
    assert(s[r] == root);
}

/// The graph `g`, with a node for `k` added (with no callees) if it is not already present.
pub open spec fn with_node(g: Graph, k: GlobalProcedureIndex) -> Graph {
    if g.dom().contains(k) {
        g
    } else {
        g.insert(k, Seq::empty())
    }
}

/// The graph `g` with nodes for `caller` and `callee`, and with `callee` appended to the callees
/// of `caller` unless it is already one of them.
pub open spec fn with_edge(
    g: Graph,
    caller: GlobalProcedureIndex,
    callee: GlobalProcedureIndex,
) -> Graph {
    let g2 = with_node(with_node(g, callee), caller);
    if g2[caller].contains(callee) {
        g2
    } else {
        g2.insert(caller, g2[caller].push(callee))
    }
}

/// The predicate that holds of every node other than `x`.
pub open spec fn other_than(x: GlobalProcedureIndex) -> spec_fn(GlobalProcedureIndex) -> bool {
    |n: GlobalProcedureIndex| n != x
}

/// The predicate that holds of every node outside module `m`.
pub open spec fn outside_module(m: ModuleIndex) -> spec_fn(GlobalProcedureIndex) -> bool {
    |n: GlobalProcedureIndex| n.module != m
}

/// The graph `g` without the edge from `caller` to `callee`.
pub open spec fn without_edge(
    g: Graph,
    caller: GlobalProcedureIndex,
    callee: GlobalProcedureIndex,
) -> Graph {
    if g.dom().contains(caller) {
        g.insert(caller, g[caller].filter(other_than(callee)))
    } else {
        g
    }
}

/// The graph `g` without the nodes of module `m`, and without every edge to such a node.
pub open spec fn without_module(g: Graph, m: ModuleIndex) -> Graph {
    Map::new(
        |k: GlobalProcedureIndex| g.dom().contains(k) && k.module != m,
        |k: GlobalProcedureIndex| g[k].filter(outside_module(m)),
    )
}

/// Represents the inability to construct a topological ordering of the nodes in a [CallGraph]
/// due to a cycle in the graph, which can happen due to recursion.
///
/// It holds, in increasing order, the nodes that could not be ordered.
#[derive(Debug)]
pub struct CycleError(Vec<GlobalProcedureIndex>);

impl View for CycleError {
    type V = Seq<GlobalProcedureIndex>;

    closed spec fn view(&self) -> Seq<GlobalProcedureIndex> {
        self.0@
    }
}

impl CycleError {
    /// Returns the nodes involved in the cycle, in increasing order.
    pub fn into_node_ids(self) -> (r: Vec<GlobalProcedureIndex>)
        ensures
            r@ == self@,
    {
        self.0
    }
}

/// A [CallGraph] is a directed graph which represents all of the edges between procedures formed
/// by a caller/callee relationship.
///
/// Its nodes are kept in increasing order of their identifiers.
#[derive(Clone)]
pub struct CallGraph {
    ids: Vec<GlobalProcedureIndex>,
    edges: Vec<Vec<GlobalProcedureIndex>>,
}

impl View for CallGraph {
    type V = Graph;

    closed spec fn view(&self) -> Graph {
        Map::new(
            |k: GlobalProcedureIndex| self.ids@.contains(k),
            |k: GlobalProcedureIndex| self.edges@[self.ids@.index_of(k)]@,
        )
    }
}


impl Default for CallGraph {
    /// The empty call graph.
    fn default() -> (r: Self)
        ensures
            r.wf(),
            r@ == Graph::empty(),
    {
        CallGraph::new()
    }
}

/// Filtering a sequence without duplicates keeps as many elements as filtering its set.
proof fn lemma_filter_len_set(s: Seq<GlobalProcedureIndex>, p: spec_fn(GlobalProcedureIndex) -> bool)
    requires
        s.no_duplicates(),
    ensures
        s.to_set().filter(p).finite(),
        s.filter(p).len() == s.to_set().filter(p).len(),
    decreases s.len(),
{
    reveal(Seq::filter);
    if s.len() == 0 {
        assert(s.to_set().filter(p) =~= Set::<GlobalProcedureIndex>::empty());
    } else {
        let t = s.drop_last();
        let x = s.last();
        assert(t.no_duplicates()) by {
            assert forall|i: int, j: int| 0 <= i < t.len() && 0 <= j < t.len() && i != j implies t[i] != t[j] by {
                assert(t[i] == s[i] && t[j] == s[j]);
            }
        }
        lemma_filter_len_set(t, p);
        assert(s.to_set() =~= t.to_set().insert(x)) by {
            assert forall|y: GlobalProcedureIndex| s.to_set().contains(y) <==> t.to_set().insert(x).contains(y) by {
                if s.contains(y) {
                    let j = choose|j: int| 0 <= j < s.len() && s[j] == y;
                    if j < s.len() - 1 {
                        assert(t[j] == y);
                    }
                }
                if t.contains(y) {
                    let j = choose|j: int| 0 <= j < t.len() && t[j] == y;
                    assert(s[j] == y);
                }
                assert(s[s.len() - 1] == x);
            }
        }
        assert(!t.to_set().contains(x)) by {
            if t.contains(x) {
                let j = choose|j: int| 0 <= j < t.len() && t[j] == x;
                assert(s[j] == s[s.len() - 1]);
            }
        }
        if p(x) {
            assert(s.to_set().filter(p) =~= t.to_set().filter(p).insert(x));
        } else {
            assert(s.to_set().filter(p) =~= t.to_set().filter(p));
        }
    }
}

/// `s` is strictly increasing in the order of procedure identifiers.
pub open spec fn strictly_sorted(s: Seq<GlobalProcedureIndex>) -> bool {
    forall|i: int, j: int| 0 <= i < j < s.len() ==> gid_lt(#[trigger] s[i], #[trigger] s[j])
}

impl CallGraph {
    /// The nodes of the graph, in increasing order.
    pub closed spec fn node_seq(&self) -> Seq<GlobalProcedureIndex> {
        self.ids@
    }

    /// The internal invariant: nodes are kept sorted, every node has one list of callees, no
    /// callee list repeats a node, and every callee is itself a node of the graph.
    pub closed spec fn wf(&self) -> bool {
        &&& self.ids@.len() == self.edges@.len()
        &&& strictly_sorted(self.ids@)
        &&& forall|i: int| 0 <= i < self.edges@.len() ==> (#[trigger] self.edges@[i])@.no_duplicates()
        &&& forall|i: int, x: GlobalProcedureIndex|
            0 <= i < self.edges@.len() && #[trigger] self.edges@[i]@.contains(x)
                ==> self.ids@.contains(x)
    }

    proof fn lemma_sorted_unique(&self, i: int, j: int)
        requires
            strictly_sorted(self.ids@),
            0 <= i < self.ids@.len(),
            0 <= j < self.ids@.len(),
            self.ids@[i] == self.ids@[j],
        ensures
            i == j,
    {
        if i < j {
            assert(gid_lt(self.ids@[i], self.ids@[j]));
        } else if j < i {
            assert(gid_lt(self.ids@[j], self.ids@[i]));
        }
    }

    /// The model of the graph, read position by position.
    proof fn lemma_view(&self)
        requires
            self.wf(),
        ensures
            forall|k: GlobalProcedureIndex| self@.dom().contains(k) <==> self.ids@.contains(k),
            forall|i: int|
                0 <= i < self.ids@.len() ==> self@.dom().contains(self.ids@[i]) && #[trigger] self@[self.ids@[i]]
                    == self.edges@[i]@,
            self.node_seq().no_duplicates(),
            forall|k: GlobalProcedureIndex| self@.dom().contains(k) <==> self.node_seq().contains(k),
    {
        assert forall|i: int| 0 <= i < self.ids@.len() implies self@.dom().contains(self.ids@[i])
            && #[trigger] self@[self.ids@[i]] == self.edges@[i]@ by {
            let k = self.ids@[i];
            assert(self.ids@.contains(k));
            let j = self.ids@.index_of(k);
            self.lemma_sorted_unique(i, j);
        }
        assert forall|a: int, b: int| 0 <= a < self.ids@.len() && 0 <= b < self.ids@.len() && a != b
            implies self.ids@[a] != self.ids@[b] by {
            if self.ids@[a] == self.ids@[b] {
                self.lemma_sorted_unique(a, b);
            }
        }
    }

    /// Creates an empty call graph.
    pub fn new() -> (r: Self)
        ensures
            r.wf(),
            r@ == Graph::empty(),
            r.node_seq() == Seq::<GlobalProcedureIndex>::empty(),
    {
        let r = CallGraph { ids: Vec::new(), edges: Vec::new() };
        assert(r@ =~= Graph::empty());
        r
    }

    /// Returns the position of node `k`, if it is a node of the graph.
    fn find(&self, k: GlobalProcedureIndex) -> (r: Option<usize>)
        requires
            self.wf(),
        ensures
            match r {
                Some(i) => i < self.ids@.len() && self.ids@[i as int] == k,
                None => !self.ids@.contains(k),
            },
    {
        let n = self.ids.len();
        let mut i: usize = 0;
        while i < n
            invariant
                n == self.ids@.len(),
                i <= n,
                forall|j: int| 0 <= j < i ==> self.ids@[j] != k,
            decreases n - i,
        {
            if self.ids[i] == k {
                return Some(i);
            }
            i = i + 1;
        }
        None
    }

    /// Get the set of edges from the given caller to its callees in the graph
    pub fn out_edges(&self, gid: GlobalProcedureIndex) -> (r: &[GlobalProcedureIndex])
        requires
            self.wf(),
        ensures
            r@ == out_of(self@, gid),
    {
        proof {
            self.lemma_view();
        }
        match self.find(gid) {
            Some(i) => self.edges[i].as_slice(),
            None => &[],
        }
    }

    /// Inserts a node in the graph for `id`, if not already present.
    pub fn get_or_insert_node(&mut self, id: GlobalProcedureIndex) -> (r: usize)
        requires
            old(self).wf(),
        ensures
            final(self).wf(),
            final(self)@ == with_node(old(self)@, id),
            r < final(self).node_seq().len(),
            final(self).node_seq()[r as int] == id,
    {
        proof {
            self.lemma_view();
        }
        match self.find(id) {
            Some(i) => i,
            None => {
                let n = self.ids.len();
                let mut p: usize = 0;
                while p < n && !gid_less(id, self.ids[p])
                    invariant
                        n == self.ids@.len(),
                        p <= n,
                        forall|j: int| 0 <= j < p ==> gid_lt(#[trigger] self.ids@[j], id),
                        !self.ids@.contains(id),
                    decreases n - p,
                {
                    assert(self.ids@[p as int] != id);
                    p = p + 1;
                }
                let ghost old_ids = self.ids@;
                let ghost old_edges = self.edges@;
                let ghost old_view = self@;
                self.ids.insert(p, id);
                self.edges.insert(p, Vec::new());
                proof {
                    assert forall|i: int, j: int| 0 <= i < j < self.ids@.len() implies gid_lt(
                        #[trigger] self.ids@[i],
                        #[trigger] self.ids@[j],
                    ) by {
                        if j < p {
                        } else if i < p && j == p {
                        } else if i < p {
                            assert(self.ids@[j] == old_ids[j - 1]);
                            if p < n {
                                assert(gid_lt(id, old_ids[p as int]));
                                if j - 1 > p {
                                    assert(gid_lt(old_ids[p as int], old_ids[j - 1]));
                                }
                            }
                        } else if i == p {
                            assert(gid_lt(id, old_ids[p as int]));
                            if j - 1 > p {
                                assert(gid_lt(old_ids[p as int], old_ids[j - 1]));
                            }
                        } else {
                            assert(gid_lt(old_ids[i - 1], old_ids[j - 1]));
                        }
                    }
                    assert forall|i: int| 0 <= i < self.edges@.len() implies (
                    #[trigger] self.edges@[i])@.no_duplicates() by {
                        if i < p {
                            assert(self.edges@[i] == old_edges[i]);
                        } else if i > p {
                            assert(self.edges@[i] == old_edges[i - 1]);
                        }
                    }
                    assert forall|i: int, x: GlobalProcedureIndex|
                        0 <= i < self.edges@.len() && #[trigger] self.edges@[i]@.contains(x) implies self.ids@.contains(x) by {
                        let k = if i < p {
                            i
                        } else {
                            i - 1
                        };
                        assert(self.edges@[i] == old_edges[k]);
                        assert(old_ids.contains(x));
                        let j = choose|j: int| 0 <= j < old_ids.len() && old_ids[j] == x;
                        if j < p {
                            assert(self.ids@[j] == x);
                        } else {
                            assert(self.ids@[j + 1] == x);
                        }
                    }
                    self.lemma_view();
                    let expected = old_view.insert(id, Seq::empty());
                    assert forall|x: GlobalProcedureIndex| #[trigger]
                        self@.dom().contains(x) <==> expected.dom().contains(x) by {
                        if self.ids@.contains(x) && x != id {
                            let j = choose|j: int| 0 <= j < self.ids@.len() && self.ids@[j] == x;
                            if j < p {
                                assert(old_ids[j] == x);
                            } else {
                                assert(old_ids[j - 1] == x);
                            }
                        }
                        if old_ids.contains(x) {
                            let j = choose|j: int| 0 <= j < old_ids.len() && old_ids[j] == x;
                            if j < p {
                                assert(self.ids@[j] == x);
                            } else {
                                assert(self.ids@[j + 1] == x);
                            }
                        }
                        if x == id {
                            assert(self.ids@[p as int] == id);
                        }
                    }
                    assert forall|x: GlobalProcedureIndex| #[trigger]
                        self@.dom().contains(x) implies self@[x] == expected[x] by {
                        let j = choose|j: int| 0 <= j < self.ids@.len() && self.ids@[j] == x;
                        assert(self@[self.ids@[j]] == self.edges@[j]@);
                        if j < p {
                            old(self).lemma_view();
                            assert(old_view[old_ids[j]] == old_edges[j]@);
                        } else if j > p {
                            old(self).lemma_view();
                            assert(old_view[old_ids[j - 1]] == old_edges[j - 1]@);
                        } else {
                            assert(self.edges@[j]@ == Seq::<GlobalProcedureIndex>::empty());
                        }
                    }
                    assert(self@ =~= expected);
                }
                p
            },
        }
    }

    /// Updating the callees of the node at position `i` updates that node in the model.
    proof fn lemma_view_update(old_g: &Self, new_g: &Self, i: int)
        requires
            old_g.wf(),
            new_g.wf(),
            0 <= i < old_g.ids@.len(),
            new_g.ids@ == old_g.ids@,
            forall|j: int| 0 <= j < old_g.edges@.len() && j != i ==> new_g.edges@[j] == old_g.edges@[j],
        ensures
            new_g@ == old_g@.insert(old_g.ids@[i], new_g.edges@[i]@),
    {
        old_g.lemma_view();
        new_g.lemma_view();
        let expected = old_g@.insert(old_g.ids@[i], new_g.edges@[i]@);
        assert forall|x: GlobalProcedureIndex| #[trigger]
            new_g@.dom().contains(x) implies new_g@[x] == expected[x] by {
            let j = choose|j: int| 0 <= j < new_g.ids@.len() && new_g.ids@[j] == x;
            assert(new_g@[new_g.ids@[j]] == new_g.edges@[j]@);
            assert(old_g@[old_g.ids@[j]] == old_g.edges@[j]@);
            if j != i && x == old_g.ids@[i] {
                old_g.lemma_sorted_unique(i, j);
            }
        }
        assert(new_g@ =~= expected);
    }

    /// Add an edge in the call graph from `caller` to `callee`.
    ///
    /// No cycle check is performed, which is useful when constructing the graph in bulk; the graph
    /// must then be validated with [CallGraph::toposort] before it is relied upon.
    ///
    /// A procedure cannot call itself: `caller` and `callee` must differ.
    pub fn add_edge_unchecked(&mut self, caller: GlobalProcedureIndex, callee: GlobalProcedureIndex)
        requires
            old(self).wf(),
            caller != callee,
        ensures
            final(self).wf(),
            final(self)@ == with_edge(old(self)@, caller, callee),
    {
        self.get_or_insert_node(callee);
        let ghost g2_pre = self@;
        let i = self.get_or_insert_node(caller);
        proof {
            self.lemma_view();
            assert(self@[self.ids@[i as int]] == self.edges@[i as int]@);
        }
        if vec_contains(&self.edges[i], callee) {
            return;
        }
        let ghost before = *self;
        self.edges[i].push(callee);
        proof {
            assert(before.ids@.contains(callee)) by {
                before.lemma_view();
            }
            assert forall|j: int| 0 <= j < self.edges@.len() implies (
            #[trigger] self.edges@[j])@.no_duplicates() by {
                if j == i {
                    assert(before.edges@[j]@.no_duplicates());
                }
            }
            assert forall|j: int, x: GlobalProcedureIndex|
                0 <= j < self.edges@.len() && #[trigger] self.edges@[j]@.contains(x) implies self.ids@.contains(x) by {
                if j == i && x != callee {
                    assert(before.edges@[j]@.contains(x));
                }
            }
            Self::lemma_view_update(&before, self, i as int);
        }
    }

    /// Removes the edge between `caller` and `callee` from the graph
    pub fn remove_edge(&mut self, caller: GlobalProcedureIndex, callee: GlobalProcedureIndex)
        requires
            old(self).wf(),
        ensures
            final(self).wf(),
            final(self)@ == without_edge(old(self)@, caller, callee),
    {
        proof {
            self.lemma_view();
        }
        match self.find(caller) {
            None => {},
            Some(i) => {
                let ghost before = *self;
                let filtered = filter_ne(&self.edges[i], callee);
                self.edges.set(i, filtered);
                proof {
                    assert forall|j: int, x: GlobalProcedureIndex|
                        0 <= j < self.edges@.len() && #[trigger] self.edges@[j]@.contains(x) implies self.ids@.contains(x) by {
                        if j == i {
                            before.edges@[j]@.lemma_filter_contains_rev(other_than(callee), x);
                        }
                    }
                    Self::lemma_view_update(&before, self, i as int);
                    before.lemma_view();
                    assert(before@[before.ids@[i as int]] == before.edges@[i as int]@);

                }
            },
        }
    }

    /// Removes all edges to/from a procedure in `module`, and the nodes of `module` themselves.
    pub fn remove_edges_for_module(&mut self, module: ModuleIndex)
        requires
            old(self).wf(),
        ensures
            final(self).wf(),
            final(self)@ == without_module(old(self)@, module),
    {
        let n = self.ids.len();
        let mut ids: Vec<GlobalProcedureIndex> = Vec::new();
        let mut edges: Vec<Vec<GlobalProcedureIndex>> = Vec::new();
        let ghost mut pos: Seq<int> = Seq::empty();
        let mut i: usize = 0;
        while i < n
            invariant
                n == self.ids@.len(),
                self.wf(),
                i <= n,
                ids@.len() == edges@.len(),
                pos.len() == ids@.len(),
                forall|t: int| 0 <= t < pos.len() ==> 0 <= #[trigger] pos[t] < i,
                forall|t: int, u: int| 0 <= t < u < pos.len() ==> #[trigger] pos[t] < #[trigger] pos[u],
                forall|t: int|
                    0 <= t < pos.len() ==> ids@[t] == self.ids@[#[trigger] pos[t]] && ids@[t].module
                        != module,
                forall|t: int|
                    0 <= t < pos.len() ==> (#[trigger] edges@[t])@ == self.edges@[pos[t]]@.filter(outside_module(module)),
                forall|t: int| 0 <= t < pos.len() ==> (#[trigger] edges@[t])@.no_duplicates(),
                forall|j: int|
                    0 <= j < i && (#[trigger] self.ids@[j]).module != module ==> exists|t: int|
                        0 <= t < pos.len() && pos[t] == j,
            decreases n - i,
        {
            if self.ids[i].module != module {
                let f = filter_module(&self.edges[i], module);
                ids.push(self.ids[i]);
                edges.push(f);
                let ghost pos0 = pos;
                proof {
                    pos = pos.push(i as int);
                    assert(pos[pos.len() - 1] == i);
                    assert forall|j: int|
                        0 <= j < i + 1 && (#[trigger] self.ids@[j]).module != module implies exists|t: int|
                        0 <= t < pos.len() && pos[t] == j by {
                        if j < i {
                            let t = choose|t: int| 0 <= t < pos0.len() && pos0[t] == j;
                            assert(pos[t] == j);
                        } else {
                            assert(pos[pos.len() - 1] == j);
                        }
                    }
                }
            }
            i = i + 1;
        }
        let ghost old_g = *self;
        self.ids = ids;
        self.edges = edges;
        proof {
            old_g.lemma_view();
            assert forall|a: int, b: int| 0 <= a < b < self.ids@.len() implies gid_lt(
                #[trigger] self.ids@[a],
                #[trigger] self.ids@[b],
            ) by {
                assert(pos[a] < pos[b]);
            }
            assert forall|t: int, x: GlobalProcedureIndex|
                0 <= t < self.edges@.len() && #[trigger] self.edges@[t]@.contains(x) implies self.ids@.contains(x) by {
                old_g.edges@[pos[t]]@.lemma_filter_contains_rev(outside_module(module), x);
                assert(old_g.ids@.contains(x));
                let j = choose|j: int| 0 <= j < old_g.ids@.len() && old_g.ids@[j] == x;
                let u = choose|u: int| 0 <= u < pos.len() && pos[u] == j;
                assert(self.ids@[u] == x);
            }
            self.lemma_view();
            let expected = without_module(old_g@, module);
            assert forall|x: GlobalProcedureIndex| #[trigger]
                self@.dom().contains(x) <==> expected.dom().contains(x) by {
                if self.ids@.contains(x) {
                    let t = choose|t: int| 0 <= t < self.ids@.len() && self.ids@[t] == x;
                    assert(old_g.ids@[pos[t]] == x);
                }
                if old_g.ids@.contains(x) && x.module != module {
                    let j = choose|j: int| 0 <= j < old_g.ids@.len() && old_g.ids@[j] == x;
                    let u = choose|u: int| 0 <= u < pos.len() && pos[u] == j;
                    assert(self.ids@[u] == x);
                }
            }
            assert forall|x: GlobalProcedureIndex| #[trigger]
                self@.dom().contains(x) implies self@[x] == expected[x] by {
                let t = choose|t: int| 0 <= t < self.ids@.len() && self.ids@[t] == x;
                assert(self@[self.ids@[t]] == self.edges@[t]@);
                assert(old_g@[old_g.ids@[pos[t]]] == old_g.edges@[pos[t]]@);
            }
            assert(self@ =~= expected);
        }
    }

    /// Returns the number of predecessors of `id` in the graph, i.e. the number of procedures
    /// which call `id`.
    pub fn num_predecessors(&self, id: GlobalProcedureIndex) -> (r: usize)
        requires
            self.wf(),
        ensures
            r == self@.dom().filter(|k: GlobalProcedureIndex| self@[k].contains(id)).len(),
    {
        proof {
            self.lemma_view();
        }
        let ghost pred = |k: GlobalProcedureIndex| self@[k].contains(id);
        let n = self.ids.len();
        let mut count: usize = 0;
        let mut i: usize = 0;
        while i < n
            invariant
                n == self.ids@.len(),
                self.wf(),
                i <= n,
                count <= i,
                pred == (|k: GlobalProcedureIndex| self@[k].contains(id)),
                count == self.ids@.take(i as int).filter(pred).len(),
                forall|j: int|
                    0 <= j < self.ids@.len() ==> #[trigger] self@[self.ids@[j]] == self.edges@[j]@,
            decreases n - i,
        {
            proof {
                assert(self.ids@.take(i + 1) == self.ids@.take(i as int).push(self.ids@[i as int]));
                self.ids@.take(i as int).lemma_filter_push(self.ids@[i as int], pred);
                assert(self@[self.ids@[i as int]] == self.edges@[i as int]@);
            }
            if vec_contains(&self.edges[i], id) {
                count = count + 1;
            }
            i = i + 1;
        }
        proof {
            assert(self.ids@.take(n as int) == self.ids@);
            lemma_filter_len_set(self.ids@, pred);
            assert(self.ids@.to_set() =~= self@.dom());
        }
        count
    }

    /// The node at position `a` calls the node at position `b`.
    spec fn iedge(&self, a: int, b: int) -> bool {
        self.edges@[a]@.contains(self.ids@[b])
    }

    /// The node at position `b` has a caller that is not yet marked in `done`.
    spec fn live_pred(&self, done: Seq<bool>, b: int) -> bool {
        exists|a: int| 0 <= a < self.ids@.len() && !done[a] && #[trigger] self.iedge(a, b)
    }

    /// Whether the node at position `b` has a caller not yet marked in `done`.
    fn has_live_pred(&self, done: &Vec<bool>, b: usize) -> (r: bool)
        requires
            self.wf(),
            done@.len() == self.ids@.len(),
            b < self.ids@.len(),
        ensures
            r == self.live_pred(done@, b as int),
    {
        let n = self.ids.len();
        let v = self.ids[b];
        let mut a: usize = 0;
        while a < n
            invariant
                n == self.ids@.len(),
                self.wf(),
                done@.len() == n,
                b < n,
                v == self.ids@[b as int],
                a <= n,
                forall|c: int| 0 <= c < a ==> !(!done@[c] && #[trigger] self.iedge(c, b as int)),
            decreases n - a,
        {
            if !done[a] && vec_contains(&self.edges[a], v) {
                assert(self.iedge(a as int, b as int));
                return true;
            }
            a = a + 1;
        }
        false
    }

    /// Construct the topological ordering of all nodes in the call graph.
    ///
    /// Returns `Err` if a cycle is detected in the graph. The nodes are taken in order of
    /// readiness: first the nodes without callers, in increasing order, then each node as soon as
    /// its last caller has been placed.
    #[verifier::rlimit(60)]
    pub fn toposort(&self) -> (res: Result<Vec<GlobalProcedureIndex>, CycleError>)
        requires
            self.wf(),
        ensures
            match res {
                Ok(order) => is_topological_order(self@, order@),
                Err(e) => is_cycle_witness(self@, e@.to_set()) && strictly_sorted(e@),
            },
            res is Ok <==> exists|s: Seq<GlobalProcedureIndex>| is_topological_order(self@, s),
    {
        let n = self.ids.len();
        let mut done: Vec<bool> = Vec::new();
        let mut i: usize = 0;
        while i < n
            invariant
                i <= n,
                done@.len() == i,
                forall|c: int| 0 <= c < i ==> !done@[c],
            decreases n - i,
        {
            done.push(false);
            i = i + 1;
        }
        // the roots: nodes without callers, in increasing order
        let mut queue: Vec<usize> = Vec::new();
        let mut b: usize = 0;
        while b < n
            invariant
                n == self.ids@.len(),
                self.wf(),
                b <= n,
                done@.len() == n,
                forall|c: int| 0 <= c < n ==> !done@[c],
                forall|t: int| 0 <= t < queue@.len() ==> #[trigger] queue@[t] < b,
                forall|s: int, t: int| 0 <= s < t < queue@.len() ==> #[trigger] queue@[s] < #[trigger] queue@[t],
                forall|t: int| 0 <= t < queue@.len() ==> !self.live_pred(done@, #[trigger] queue@[t] as int),
                forall|c: int|
                    0 <= c < b && !(exists|t: int| 0 <= t < queue@.len() && queue@[t] == c)
                        ==> #[trigger] self.live_pred(done@, c),
            decreases n - b,
        {
            if !self.has_live_pred(&done, b) {
                let ghost q0 = queue@;
                queue.push(b);
                proof {
                    assert forall|c: int|
                        0 <= c < b + 1 && !(exists|t: int| 0 <= t < queue@.len() && queue@[t] == c)
                            implies #[trigger] self.live_pred(done@, c) by {
                        if c == b {
                            assert(queue@[queue@.len() - 1] == c);
                        } else {
                            assert forall|t: int| 0 <= t < q0.len() implies q0[t] != c by {
                                assert(queue@[t] == q0[t]);
                            }
                        }
                    }
                }
            }
            b = b + 1;
        }
        proof {
            assert forall|s: int, t: int| 0 <= s < queue@.len() && 0 <= t < queue@.len() && s != t
                implies queue@[s] != queue@[t] by {
                if s < t {
                    assert(queue@[s] < queue@[t]);
                } else {
                    assert(queue@[t] < queue@[s]);
                }
            }
            lemma_distinct_bounded(queue@, n);
        }
        let mut output: Vec<GlobalProcedureIndex> = Vec::new();
        let mut head: usize = 0;
        while head < queue.len()
            invariant
                n == self.ids@.len(),
                self.wf(),
                done@.len() == n,
                head <= queue@.len() <= n,
                queue@.no_duplicates(),
                forall|t: int| 0 <= t < queue@.len() ==> #[trigger] queue@[t] < n,
                forall|t: int| 0 <= t < head ==> done@[#[trigger] queue@[t] as int],
                forall|t: int| head <= t < queue@.len() ==> !done@[#[trigger] queue@[t] as int],
                forall|c: int| 0 <= c < n && #[trigger] done@[c] ==> exists|t: int| 0 <= t < head && queue@[t] == c,
                output@.len() == head,
                forall|t: int| 0 <= t < head ==> #[trigger] output@[t] == self.ids@[queue@[t] as int],
                forall|t: int| head <= t < queue@.len() ==> !self.live_pred(done@, #[trigger] queue@[t] as int),
                forall|c: int, a: int|
                    0 <= c < n && 0 <= a < n && done@[c] && #[trigger] self.iedge(a, c) ==> done@[a],
                forall|s: int, t: int|
                    0 <= s < head && 0 <= t < head && #[trigger] self.iedge(queue@[s] as int, queue@[t] as int)
                        ==> s < t,
                forall|c: int|
                    0 <= c < n && !done@[c] && !(exists|t: int| head <= t < queue@.len() && queue@[t] == c)
                        ==> #[trigger] self.live_pred(done@, c),
            decreases n - head,
        {
            let k = queue[head];
            let ghost done0 = done@;
            let ghost q0 = queue@;
            let ghost head0 = head as int;
            proof {
                // the callees of `k` are neither placed nor waiting
                assert forall|j: int| 0 <= j < self.edges@[k as int]@.len() implies ({
                    let x = #[trigger] self.edges@[k as int]@[j];
                    forall|c: int| 0 <= c < n && self.ids@[c] == x ==> !done0[c] && !(exists|t: int|
                        head0 <= t < q0.len() && q0[t] == c)
                }) by {
                    let x = self.edges@[k as int]@[j];
                    assert forall|c: int| 0 <= c < n && self.ids@[c] == x implies !done0[c] && !(exists|t: int|
                        head0 <= t < q0.len() && q0[t] == c) by {
                        assert(self.iedge(k as int, c));
                        if exists|t: int| head0 <= t < q0.len() && q0[t] == c {
                            let t = choose|t: int| head0 <= t < q0.len() && q0[t] == c;
                            assert(!self.live_pred(done0, q0[t] as int));
                            assert(self.live_pred(done0, c));
                        }
                    }
                }
            }
            done.set(k, true);
            output.push(self.ids[k]);
            head = head + 1;
            proof {
                assert forall|c: int| 0 <= c < n && #[trigger] done@[c] implies exists|t: int|
                    0 <= t < head && queue@[t] == c by {
                    if c != k {
                        let t = choose|t: int| 0 <= t < head0 && queue@[t] == c;
                    } else {
                        assert(queue@[head0] == c);
                    }
                }
                assert forall|t: int| head <= t < queue@.len() implies !self.live_pred(
                    done@,
                    #[trigger] queue@[t] as int,
                ) by {
                    assert(!self.live_pred(done0, queue@[t] as int));
                    if self.live_pred(done@, queue@[t] as int) {
                        let a = choose|a: int| 0 <= a < n && !done@[a] && #[trigger] self.iedge(a, queue@[t] as int);
                        assert(!done0[a]);
                    }
                }
                assert forall|c: int, a: int|
                    0 <= c < n && 0 <= a < n && done@[c] && #[trigger] self.iedge(a, c) implies done@[a] by {
                    if c == k {
                        assert(!self.live_pred(done0, k as int));
                        assert(!(!done0[a] && self.iedge(a, k as int)));
                    } else {
                        assert(done0[c]);
                    }
                }
                assert forall|s: int, t: int|
                    0 <= s < head && 0 <= t < head && #[trigger] self.iedge(queue@[s] as int, queue@[t] as int)
                        implies s < t by {
                    if s == head0 && t < head0 {
                        assert(done0[queue@[t] as int]);
                        assert(done0[queue@[s] as int]);
                    }
                }
            }
            let m = self.edges[k].len();
            proof {
                assert forall|c: int|
                    0 <= c < n && !done@[c] && !(exists|t: int| head <= t < queue@.len() && queue@[t] == c)
                        && !(exists|jj: int| 0 <= jj < m && self.edges@[k as int]@[jj] == self.ids@[c])
                        implies #[trigger] self.live_pred(done@, c) by {
                    assert(c != k);
                    assert(!done0[c]);
                    if exists|t: int| head0 <= t < q0.len() && q0[t] == c {
                        let t = choose|t: int| head0 <= t < q0.len() && q0[t] == c;
                        assert(t != head0);
                        assert(queue@[t] == c);
                    }
                    assert(self.live_pred(done0, c));
                    let a = choose|a: int| 0 <= a < n && !done0[a] && #[trigger] self.iedge(a, c);
                    if a == k {
                        let jj = choose|jj: int| 0 <= jj < self.edges@[k as int]@.len() && self.edges@[k as int]@[jj] == self.ids@[c];
                        assert(self.edges@[k as int]@[jj] == self.ids@[c]);
                    }
                    assert(!done@[a]);
                }
            }
            let mut j: usize = 0;
            while j < m
                invariant
                    n == self.ids@.len(),
                    self.wf(),
                    k < n,
                    m == self.edges@[k as int]@.len(),
                    j <= m,
                    done@.len() == n,
                    done@[k as int],
                    done0.len() == n,
                    done@ == done0.update(k as int, true),
                    queue@.len() <= n,
                    head == head0 + 1,
                    head0 < q0.len(),
                    q0[head0] == k,
                    head <= queue@.len(),
                    q0.len() <= queue@.len(),
                    forall|t: int| 0 <= t < q0.len() ==> queue@[t] == q0[t],
                    queue@.no_duplicates(),
                    forall|t: int| 0 <= t < queue@.len() ==> #[trigger] queue@[t] < n,
                    forall|t: int| 0 <= t < head ==> done@[#[trigger] queue@[t] as int],
                    forall|t: int| head <= t < queue@.len() ==> !done@[#[trigger] queue@[t] as int],
                    forall|t: int| head <= t < queue@.len() ==> !self.live_pred(done@, #[trigger] queue@[t] as int),
                    forall|jj: int| j <= jj < m ==> ({
                        let x = #[trigger] self.edges@[k as int]@[jj];
                        forall|c: int| 0 <= c < n && self.ids@[c] == x ==> !done@[c] && !(exists|t: int|
                            head <= t < queue@.len() && queue@[t] == c)
                    }),
                    forall|c: int|
                        0 <= c < n && !done@[c] && !(exists|t: int| head <= t < queue@.len() && queue@[t] == c)
                            && !(exists|jj: int| j <= jj < m && self.edges@[k as int]@[jj] == self.ids@[c])
                            ==> #[trigger] self.live_pred(done@, c),
                decreases m - j,
            {
                let x = self.edges[k][j];
                let ghost q1 = queue@;
                proof {
                    assert(self.edges@[k as int]@.contains(x));
                }
                let c = match self.find(x) {
                    Some(c) => c,
                    None => {
                        proof {
                            assert(false);
                        }
                        0
                    },
                };
                let lp = self.has_live_pred(&done, c);
                if !lp {
                    queue.push(c);
                    proof {
                        assert(!done@[c as int]);
                        assert forall|t: int| 0 <= t < q1.len() implies q1[t] != c by {
                            if t < head {
                                assert(done@[q1[t] as int]);
                            }
                        }
                        assert forall|s: int, t: int| 0 <= s < t < queue@.len() implies queue@[s] != queue@[t] by {
                            if t == queue@.len() - 1 {
                                assert(q1[s] != c);
                            } else {
                                assert(q1[s] != q1[t]);
                            }
                        }
                        lemma_distinct_bounded(queue@, n);
                    }
                }
                proof {
                    assert(queue@.len() >= q1.len());
                    assert(forall|t: int| 0 <= t < q1.len() ==> queue@[t] == q1[t]);
                    assert forall|jj: int| j + 1 <= jj < m implies ({
                        let y = #[trigger] self.edges@[k as int]@[jj];
                        forall|c2: int| 0 <= c2 < n && self.ids@[c2] == y ==> !done@[c2] && !(exists|t: int|
                            head <= t < queue@.len() && queue@[t] == c2)
                    }) by {
                        let y = self.edges@[k as int]@[jj];
                        assert(self.edges@[k as int]@[j as int] != y);
                        assert forall|c2: int| 0 <= c2 < n && self.ids@[c2] == y implies !done@[c2] && !(exists|t: int|
                            head <= t < queue@.len() && queue@[t] == c2) by {
                            assert(!done@[c2]);
                            if exists|t: int| head <= t < queue@.len() && queue@[t] == c2 {
                                let t = choose|t: int| head <= t < queue@.len() && queue@[t] == c2;
                                if t < q1.len() {
                                    assert(q1[t] == c2);
                                } else {
                                    assert(c2 == c);
                                }
                            }
                        }
                    }
                    assert forall|c2: int|
                        0 <= c2 < n && !done@[c2] && !(exists|t: int| head <= t < queue@.len() && queue@[t] == c2)
                            && !(exists|jj: int| j + 1 <= jj < m && self.edges@[k as int]@[jj] == self.ids@[c2])
                            implies #[trigger] self.live_pred(done@, c2) by {
                        if c2 == c {
                            if !lp {
                                assert(queue@[queue@.len() - 1] == c2);
                            }
                        } else {
                            if exists|t: int| head <= t < q1.len() && q1[t] == c2 {
                                let t = choose|t: int| head <= t < q1.len() && q1[t] == c2;
                                assert(queue@[t] == c2);
                            }
                            if self.edges@[k as int]@[j as int] == self.ids@[c2] {
                                self.lemma_sorted_unique(c as int, c2);
                            }
                        }
                    }
                }
                j = j + 1;
            }
            proof {
                assert forall|c: int| 0 <= c < n && #[trigger] done@[c] implies exists|t: int|
                    0 <= t < head && queue@[t] == c by {
                    if c != k {
                        assert(done0[c]);
                        let t = choose|t: int| 0 <= t < head0 && q0[t] == c;
                        assert(queue@[t] == c);
                    } else {
                        assert(queue@[head0] == c);
                    }
                }
                assert forall|t: int| 0 <= t < head implies #[trigger] output@[t] == self.ids@[queue@[t] as int] by {
                    assert(queue@[t] == q0[t]);
                }
                assert forall|c: int, a: int|
                    0 <= c < n && 0 <= a < n && done@[c] && #[trigger] self.iedge(a, c) implies done@[a] by {
                    if c == k {
                        assert(!self.live_pred(done0, k as int));
                        assert(!(!done0[a] && self.iedge(a, k as int)));
                    } else {
                        assert(done0[c]);
                    }
                }
                assert forall|s: int, t: int|
                    0 <= s < head && 0 <= t < head && #[trigger] self.iedge(queue@[s] as int, queue@[t] as int)
                        implies s < t by {
                    assert(queue@[s] == q0[s]);
                    assert(queue@[t] == q0[t]);
                    if s == head0 && t < head0 {
                        assert(done0[q0[t] as int]);
                        assert(!done0[q0[s] as int]);
                    } else if s < head0 && t < head0 {
                        assert(self.iedge(q0[s] as int, q0[t] as int));
                    }
                }
            }
        }
        // every node placed?
        let mut all_done = true;
        let mut missing: Vec<GlobalProcedureIndex> = Vec::new();
        let mut c: usize = 0;
        while c < n
            invariant
                n == self.ids@.len(),
                self.wf(),
                done@.len() == n,
                c <= n,
                all_done == (forall|d: int| 0 <= d < c ==> done@[d]),
                forall|t: int| 0 <= t < missing@.len() ==> exists|d: int| 0 <= d < c && !done@[d] && self.ids@[d] == #[trigger] missing@[t],
                forall|d: int| 0 <= d < c && !done@[d] ==> missing@.contains(#[trigger] self.ids@[d]),
                strictly_sorted(missing@),
            decreases n - c,
        {
            if !done[c] {
                let ghost m0 = missing@;
                all_done = false;
                missing.push(self.ids[c]);
                proof {
                    assert forall|a: int, bb: int| 0 <= a < bb < missing@.len() implies gid_lt(
                        #[trigger] missing@[a],
                        #[trigger] missing@[bb],
                    ) by {
                        if bb == missing@.len() - 1 {
                            let d = choose|d: int| 0 <= d < c && !done@[d] && self.ids@[d] == #[trigger] m0[a];
                            assert(gid_lt(self.ids@[d], self.ids@[c as int]));
                        } else {
                            assert(gid_lt(m0[a], m0[bb]));
                        }
                    }
                    assert forall|t: int| 0 <= t < missing@.len() implies exists|d: int|
                        0 <= d < c + 1 && !done@[d] && self.ids@[d] == #[trigger] missing@[t] by {
                        if t == missing@.len() - 1 {
                            assert(self.ids@[c as int] == missing@[t]);
                        } else {
                            assert(missing@[t] == m0[t]);
                            let d = choose|d: int| 0 <= d < c && !done@[d] && self.ids@[d] == #[trigger] m0[t];
                        }
                    }
                    assert forall|d: int| 0 <= d < c + 1 && !done@[d] implies missing@.contains(
                        #[trigger] self.ids@[d],
                    ) by {
                        if d == c {
                            assert(missing@[missing@.len() - 1] == self.ids@[d]);
                        } else {
                            let t = choose|t: int| 0 <= t < m0.len() && m0[t] == self.ids@[d];
                            assert(missing@[t] == self.ids@[d]);
                        }
                    }
                }
            }
            c = c + 1;
        }
        proof {
            self.lemma_view();
        }
        if all_done {
            proof {
                let g = self@;
                let o = output@;
                assert(head == queue@.len());
                assert forall|s: int, t: int| 0 <= s < o.len() && 0 <= t < o.len() && s != t implies o[s] != o[t] by {
                    assert(queue@[s] != queue@[t]);
                    if o[s] == o[t] {
                        self.lemma_sorted_unique(queue@[s] as int, queue@[t] as int);
                    }
                }
                assert forall|x: GlobalProcedureIndex| o.contains(x) <==> g.dom().contains(x) by {
                    if g.dom().contains(x) {
                        let d = choose|d: int| 0 <= d < n && self.ids@[d] == x;
                        assert(done@[d]);
                        let t = choose|t: int| 0 <= t < head && queue@[t] == d;
                        assert(o[t] == x);
                    }
                    if o.contains(x) {
                        let t = choose|t: int| 0 <= t < o.len() && o[t] == x;
                        assert(self.ids@.contains(self.ids@[queue@[t] as int]));
                    }
                }
                assert forall|s: int, t: int|
                    0 <= s < o.len() && 0 <= t < o.len() && #[trigger] has_edge(g, o[s], o[t]) implies s < t by {
                    assert(g[self.ids@[queue@[s] as int]] == self.edges@[queue@[s] as int]@);
                    assert(self.iedge(queue@[s] as int, queue@[t] as int));
                }
                assert(is_topological_order(g, o));
            }
            Ok(output)
        } else {
            proof {
                let g = self@;
                let w = missing@.to_set();
                assert(head == queue@.len());
                let d0 = choose|d: int| 0 <= d < n && !done@[d];
                assert(w.contains(self.ids@[d0]));
                assert forall|v: GlobalProcedureIndex| #[trigger] cycle_member(w, v) implies g.dom().contains(v) && exists|u: GlobalProcedureIndex|
                    w.contains(u) && #[trigger] has_edge(g, u, v) by {
                    let t = choose|t: int| 0 <= t < missing@.len() && missing@[t] == v;
                    let d = choose|d: int| 0 <= d < n && !done@[d] && self.ids@[d] == #[trigger] missing@[t];
                    assert(self.live_pred(done@, d));
                    let a = choose|a: int| 0 <= a < n && !done@[a] && #[trigger] self.iedge(a, d);
                    let u = self.ids@[a];
                    assert(g[self.ids@[a]] == self.edges@[a]@);
                    assert(has_edge(g, u, v));
                    assert(w.contains(u));
                }
                assert forall|s: Seq<GlobalProcedureIndex>| !is_topological_order(g, s) by {
                    lemma_cycle_excludes_topological_order(g, w, s);
                }
            }
            Err(CycleError(missing))
        }
    }

    /// Get a new graph which is a subgraph of `self` containing all of the nodes reachable from
    /// `root`, and nothing else.
    pub fn subgraph(&self, root: GlobalProcedureIndex) -> (r: Self)
        requires
            self.wf(),
        ensures
            r.wf(),
            r@ == reachable_subgraph(self@, root),
    {
        proof {
            self.lemma_view();
        }
        let n = self.ids.len();
        let r0 = match self.find(root) {
            Some(r0) => r0,
            None => {
                let mut g = CallGraph::new();
                g.get_or_insert_node(root);
                proof {
                    let expected = reachable_subgraph(self@, root);
                    lemma_reachable_refl(self@, root);
                    assert forall|k: GlobalProcedureIndex| expected.dom().contains(k) implies k == root by {
                        let p = choose|p: Seq<GlobalProcedureIndex>| #[trigger] is_path(self@, p) && p[0] == root && p.last() == k;
                        if p.len() > 1 {
                            let z: int = 0;
                            assert(has_edge(self@, p[z], p[z + 1]));
                        }
                    }
                    assert(g@ =~= expected);
                }
                return g;
            },
        };
        let mut marked: Vec<bool> = Vec::new();
        let mut i: usize = 0;
        while i < n
            invariant
                i <= n,
                marked@.len() == i,
                forall|c: int| 0 <= c < i ==> !marked@[c],
            decreases n - i,
        {
            marked.push(false);
            i = i + 1;
        }
        marked.set(r0, true);
        let mut wl: Vec<usize> = Vec::new();
        wl.push(r0);
        proof {
            lemma_reachable_refl(self@, root);
            assert(wl@[0] == r0);
            assert forall|c: int| 0 <= c < n implies (#[trigger] marked@[c] <==> wl@.contains(c as usize)) by {
                if c == r0 {
                    assert(wl@[0] == c as usize);
                }
            }
        }
        let mut head: usize = 0;
        while head < wl.len()
            invariant
                n == self.ids@.len(),
                self.wf(),
                r0 < n,
                self.ids@[r0 as int] == root,
                marked@.len() == n,
                head <= wl@.len() <= n,
                wl@.no_duplicates(),
                forall|t: int| 0 <= t < wl@.len() ==> #[trigger] wl@[t] < n,
                forall|c: int| 0 <= c < n ==> (#[trigger] marked@[c] <==> wl@.contains(c as usize)),
                forall|c: int| 0 <= c < n && #[trigger] marked@[c] ==> reachable(self@, root, self.ids@[c]),
                marked@[r0 as int],
                forall|t: int, c: int|
                    0 <= t < head && 0 <= c < n && #[trigger] self.iedge(wl@[t] as int, c) ==> marked@[c],
                forall|c: int| 0 <= c < self.ids@.len() ==> #[trigger] self@[self.ids@[c]] == self.edges@[c]@,
                forall|k: GlobalProcedureIndex| self@.dom().contains(k) <==> self.ids@.contains(k),
            decreases n - head,
        {
            let a = wl[head];
            let ghost head0 = head as int;
            head = head + 1;
            let m = self.edges[a].len();
            let mut j: usize = 0;
            while j < m
                invariant
                    n == self.ids@.len(),
                    self.wf(),
                    a < n,
                    m == self.edges@[a as int]@.len(),
                    j <= m,
                    self.ids@[r0 as int] == root,
                    marked@.len() == n,
                    head <= wl@.len() <= n,
                    head == head0 + 1,
                    0 <= head0,
                    r0 < n,
                    wl@[head0] == a,
                    wl@.no_duplicates(),
                    forall|t: int| 0 <= t < wl@.len() ==> #[trigger] wl@[t] < n,
                    forall|c: int| 0 <= c < n ==> (#[trigger] marked@[c] <==> wl@.contains(c as usize)),
                    forall|c: int| 0 <= c < n && #[trigger] marked@[c] ==> reachable(self@, root, self.ids@[c]),
                    marked@[a as int],
                    marked@[r0 as int],
                    forall|t: int, c: int|
                        0 <= t < head0 && 0 <= c < n && #[trigger] self.iedge(wl@[t] as int, c) ==> marked@[c],
                    forall|c: int|
                        0 <= c < n && #[trigger] self.edges@[a as int]@.take(j as int).contains(self.ids@[c]) ==> marked@[c],
                    forall|c: int| 0 <= c < self.ids@.len() ==> #[trigger] self@[self.ids@[c]] == self.edges@[c]@,
                    forall|k: GlobalProcedureIndex| self@.dom().contains(k) <==> self.ids@.contains(k),
                decreases m - j,
            {
                let x = self.edges[a][j];
                proof {
                    assert(self.edges@[a as int]@.contains(x));
                }
                let c = match self.find(x) {
                    Some(c) => c,
                    None => {
                        proof {
                            assert(false);
                        }
                        0
                    },
                };
                if !marked[c] {
                    let ghost w0 = wl@;
                    marked.set(c, true);
                    wl.push(c);
                    proof {
                        assert(!w0.contains(c));
                        assert forall|s1: int, s2: int| 0 <= s1 < s2 < wl@.len() implies wl@[s1] != wl@[s2] by {
                            if s2 == wl@.len() - 1 {
                                assert(w0.contains(w0[s1]));
                            } else {
                                assert(w0[s1] != w0[s2]);
                            }
                        }
                        lemma_distinct_bounded(wl@, n);
                        assert(wl@[head0] == w0[head0]);
                        assert forall|d: int| 0 <= d < n implies (#[trigger] marked@[d] <==> wl@.contains(d as usize)) by {
                            if d != c && w0.contains(d as usize) {
                                let t = choose|t: int| 0 <= t < w0.len() && w0[t] == d as usize;
                                assert(wl@[t] == d as usize);
                            }
                            if d != c && wl@.contains(d as usize) {
                                let t = choose|t: int| 0 <= t < wl@.len() && wl@[t] == d as usize;
                                assert(t < w0.len());
                                assert(w0[t] == d as usize);
                            }
                            if d == c {
                                assert(wl@[wl@.len() - 1] == d as usize);
                            }
                        }
                        assert(has_edge(self@, self.ids@[a as int], self.ids@[c as int]));
                        lemma_reachable_step(self@, root, self.ids@[a as int], self.ids@[c as int]);
                    }
                }
                proof {
                    assert forall|d: int|
                        0 <= d < n && #[trigger] self.edges@[a as int]@.take(j + 1).contains(self.ids@[d]) implies marked@[d] by {
                        let jj = choose|jj: int| 0 <= jj < j + 1 && #[trigger] self.edges@[a as int]@.take(j + 1)[jj] == self.ids@[d];
                        if jj == j {
                            self.lemma_sorted_unique(c as int, d);
                        } else {
                            assert(self.edges@[a as int]@.take(j as int)[jj] == self.ids@[d]);
                            assert(self.edges@[a as int]@.take(j as int).contains(self.ids@[d]));
                        }
                    }
                }
                j = j + 1;
            }
            proof {
                assert forall|t: int, c: int|
                    0 <= t < head && 0 <= c < n && #[trigger] self.iedge(wl@[t] as int, c) implies marked@[c] by {
                    if t == head0 {
                        assert(self.edges@[a as int]@.take(m as int) =~= self.edges@[a as int]@);
                    }
                }
            }
        }
        // collect the marked nodes, in order
        let mut ids: Vec<GlobalProcedureIndex> = Vec::new();
        let mut edges: Vec<Vec<GlobalProcedureIndex>> = Vec::new();
        let ghost mut pos: Seq<int> = Seq::empty();
        let mut i: usize = 0;
        while i < n
            invariant
                n == self.ids@.len(),
                self.wf(),
                marked@.len() == n,
                i <= n,
                ids@.len() == edges@.len(),
                pos.len() == ids@.len(),
                forall|t: int| 0 <= t < pos.len() ==> 0 <= #[trigger] pos[t] < i,
                forall|t: int, u: int| 0 <= t < u < pos.len() ==> #[trigger] pos[t] < #[trigger] pos[u],
                forall|t: int| 0 <= t < pos.len() ==> ids@[t] == self.ids@[#[trigger] pos[t]] && marked@[pos[t]],
                forall|t: int| 0 <= t < pos.len() ==> (#[trigger] edges@[t])@ == self.edges@[pos[t]]@,
                forall|j: int| 0 <= j < i && #[trigger] marked@[j] ==> exists|t: int| 0 <= t < pos.len() && pos[t] == j,
            decreases n - i,
        {
            if marked[i] {
                let e = copy_ids(&self.edges[i]);
                ids.push(self.ids[i]);
                edges.push(e);
                let ghost pos0 = pos;
                proof {
                    pos = pos.push(i as int);
                    assert(pos[pos.len() - 1] == i);
                    assert forall|j: int| 0 <= j < i + 1 && #[trigger] marked@[j] implies exists|t: int|
                        0 <= t < pos.len() && pos[t] == j by {
                        if j < i {
                            let t = choose|t: int| 0 <= t < pos0.len() && pos0[t] == j;
                            assert(pos[t] == j);
                        } else {
                            assert(pos[pos.len() - 1] == j);
                        }
                    }
                }
            }
            i = i + 1;
        }
        let r = CallGraph { ids, edges };
        proof {
            let g = self@;
            let wset = Set::new(|k: GlobalProcedureIndex| exists|c: int| 0 <= c < n && marked@[c] && self.ids@[c] == k);
            assert forall|a: int, b: int| 0 <= a < b < r.ids@.len() implies gid_lt(
                #[trigger] r.ids@[a],
                #[trigger] r.ids@[b],
            ) by {
                assert(pos[a] < pos[b]);
            }
            assert forall|t: int, x: GlobalProcedureIndex|
                0 <= t < r.edges@.len() && #[trigger] r.edges@[t]@.contains(x) implies r.ids@.contains(x) by {
                let c = choose|c: int| 0 <= c < n && self.ids@[c] == x;
                let jj = choose|jj: int| 0 <= jj < self.edges@[pos[t]]@.len() && self.edges@[pos[t]]@[jj] == x;
                assert(self.iedge(pos[t], c));
                let t0 = choose|t0: int| 0 <= t0 < wl@.len() && wl@[t0] == pos[t] as usize;
                assert(marked@[c]);
                let u = choose|u: int| 0 <= u < pos.len() && pos[u] == c;
                assert(r.ids@[u] == x);
            }
            assert forall|t: int| 0 <= t < r.edges@.len() implies (#[trigger] r.edges@[t])@.no_duplicates() by {
                assert(self.edges@[pos[t]]@.no_duplicates());
            }
            r.lemma_view();
            let expected = reachable_subgraph(g, root);
            // the marked nodes are closed under the edges of the graph
            assert forall|u: GlobalProcedureIndex, v: GlobalProcedureIndex|
                wset.contains(u) && #[trigger] has_edge(g, u, v) implies wset.contains(v) by {
                let c = choose|c: int| 0 <= c < n && marked@[c] && self.ids@[c] == u;
                let d = choose|d: int| 0 <= d < n && self.ids@[d] == v;
                assert(g[self.ids@[c]] == self.edges@[c]@);
                assert(self.iedge(c, d));
                let t0 = choose|t0: int| 0 <= t0 < wl@.len() && wl@[t0] == c as usize;
                assert(marked@[d]);
            }
            assert(wset.contains(root)) by {
                assert(marked@[r0 as int]);
            }
            assert forall|k: GlobalProcedureIndex| #[trigger] r@.dom().contains(k) <==> expected.dom().contains(k) by {
                if r.ids@.contains(k) {
                    let t = choose|t: int| 0 <= t < r.ids@.len() && r.ids@[t] == k;
                    assert(marked@[pos[t]]);
                }
                if expected.dom().contains(k) {
                    lemma_closed_contains_reachable(g, wset, root, k);
                    let c = choose|c: int| 0 <= c < n && marked@[c] && self.ids@[c] == k;
                    let u = choose|u: int| 0 <= u < pos.len() && pos[u] == c;
                    assert(r.ids@[u] == k);
                }
            }
            assert forall|k: GlobalProcedureIndex| #[trigger] r@.dom().contains(k) implies r@[k] == expected[k] by {
                let t = choose|t: int| 0 <= t < r.ids@.len() && r.ids@[t] == k;
                assert(r@[r.ids@[t]] == r.edges@[t]@);
                assert(g[self.ids@[pos[t]]] == self.edges@[pos[t]]@);
            }
            assert(r@ =~= expected);
        }
        r
    }

    /// Construct the topological ordering of the nodes reachable from `caller` (`caller` first).
    ///
    /// Returns `Err` if a cycle is reachable from `caller`, including one that runs through
    /// `caller` itself.
    pub fn toposort_caller(&self, caller: GlobalProcedureIndex) -> (res: Result<Vec<GlobalProcedureIndex>, CycleError>)
        requires
            self.wf(),
        ensures
            match res {
                Ok(order) => is_topological_order(reachable_subgraph(self@, caller), order@)
                    && order@.len() >= 1 && order@[0] == caller,
                Err(e) => is_cycle_witness(reachable_subgraph(self@, caller), e@.to_set())
                    && strictly_sorted(e@),
            },
            res is Ok <==> exists|s: Seq<GlobalProcedureIndex>|
                is_topological_order(reachable_subgraph(self@, caller), s),
    {
        let graph = self.subgraph(caller);
        let res = graph.toposort();
        proof {
            if res is Ok {
                lemma_root_first(self@, caller, res->Ok_0@);
            }
        }
        res
    }

    /// Removes the last callee of the node at position `i`.
    fn pop_callee(&mut self, i: usize)
        requires
            old(self).wf(),
            i < old(self).node_seq().len(),
            old(self)@[old(self).node_seq()[i as int]].len() > 0,
        ensures
            final(self).wf(),
            final(self)@ == old(self)@.insert(
                old(self).node_seq()[i as int],
                old(self)@[old(self).node_seq()[i as int]].drop_last(),
            ),
    {
        proof {
            self.lemma_view();
        }
        let ghost before = *self;
        self.edges[i].pop();
        proof {
            assert forall|j: int| 0 <= j < self.edges@.len() implies (#[trigger] self.edges@[j])@.no_duplicates() by {
                if j == i {
                    assert(before.edges@[j]@.no_duplicates());
                }
            }
            assert forall|j: int, x: GlobalProcedureIndex|
                0 <= j < self.edges@.len() && #[trigger] self.edges@[j]@.contains(x) implies self.ids@.contains(x) by {
                assert(self.ids@ == before.ids@);
                if j == i {
                    let t = choose|t: int| 0 <= t < self.edges@[j]@.len() && self.edges@[j]@[t] == x;
                    assert(before.edges@[j]@[t] == x);
                    assert(before.edges@[j]@.contains(x));
                } else {
                    assert(before.edges@[j]@.contains(x));
                }
            }
            assert(before@[before.ids@[i as int]] == before.edges@[i as int]@);
            assert(self.edges@[i as int]@ == before.edges@[i as int]@.drop_last());
            Self::lemma_view_update(&before, self, i as int);
        }
    }

    /// Add an edge in the call graph from `caller` to `callee`.
    ///
    /// If introducing this edge causes a cycle reachable from `caller`, then `Err` is returned,
    /// and the edge is not added (the nodes for `caller` and `callee` are still added).
    ///
    /// This performs a topological sort of the graph reachable from `caller` to perform the cycle
    /// check, which can be expensive. To add many edges at once, use
    /// [CallGraph::add_edge_unchecked], and then call [CallGraph::toposort].
    pub fn add_edge(&mut self, caller: GlobalProcedureIndex, callee: GlobalProcedureIndex) -> (r: Result<(), CycleError>)
        requires
            old(self).wf(),
        ensures
            final(self).wf(),
            caller == callee ==> r is Err && final(self)@ == old(self)@ && r->Err_0@ == seq![caller],
            caller != callee ==> match r {
                Ok(()) => final(self)@ == with_edge(old(self)@, caller, callee)
                    && exists|s: Seq<GlobalProcedureIndex>|
                        is_topological_order(reachable_subgraph(final(self)@, caller), s),
                Err(e) => final(self)@ == with_node(with_node(old(self)@, callee), caller)
                    && is_cycle_witness(reachable_subgraph(with_edge(old(self)@, caller, callee), caller), e@.to_set()),
            },
            r matches Err(e) ==> strictly_sorted(e@),
    {
        if caller == callee {
            let mut v: Vec<GlobalProcedureIndex> = Vec::new();
            v.push(caller);
            proof {
                assert(v@ =~= seq![caller]);
            }
            return Err(CycleError(v));
        }
        proof {
            self.lemma_view();
        }
        let had = match self.find(caller) {
            Some(i) => vec_contains(&self.edges[i], callee),
            None => false,
        };
        proof {
            if had {
                let i = choose|i: int| 0 <= i < self.ids@.len() && self.ids@[i] == caller;
                assert(self@[self.ids@[i]] == self.edges@[i]@);
                assert(self.ids@.contains(callee));
                assert(with_node(with_node(self@, callee), caller) == self@);
            }
        }
        self.add_edge_unchecked(caller, callee);
        match self.toposort_caller(caller) {
            Ok(_) => Ok(()),
            Err(e) => {
                if !had {
                    let ghost g2 = with_node(with_node(old(self)@, callee), caller);
                    let i = self.get_or_insert_node(caller);
                    proof {
                        assert(!g2[caller].contains(callee)) by {
                            if old(self)@.dom().contains(caller) {
                                old(self).lemma_view();
                                let i0 = choose|i0: int| 0 <= i0 < old(self).ids@.len() && old(self).ids@[i0] == caller;
                                assert(old(self)@[old(self).ids@[i0]] == old(self).edges@[i0]@);
                            }
                        }
                        assert(self@[caller] == g2[caller].push(callee));
                    }
                    self.pop_callee(i);
                    proof {
                        assert(g2[caller].push(callee).drop_last() =~= g2[caller]);
                        assert(self@ =~= g2);
                    }
                }
                Err(e)
            },
        }
    }
}

/// A copy of `v`.
fn copy_ids(v: &Vec<GlobalProcedureIndex>) -> (r: Vec<GlobalProcedureIndex>)
    ensures
        r@ == v@,
{
    let n = v.len();
    let mut r: Vec<GlobalProcedureIndex> = Vec::new();
    let mut i: usize = 0;
    while i < n
        invariant
            n == v@.len(),
            i <= n,
            r@ == v@.take(i as int),
        decreases n - i,
    {
        r.push(v[i]);
        i = i + 1;
        proof {
            assert(r@ =~= v@.take(i as int));
        }
    }
    proof {
        assert(r@ =~= v@);
    }
    r
}

/// The set of naturals below `n` has `n` elements.
proof fn lemma_range_set(n: usize)
    ensures
        Set::new(|x: usize| x < n).finite(),
        Set::new(|x: usize| x < n).len() == n,
    decreases n,
{
    if n == 0 {
        assert(Set::new(|x: usize| x < n) =~= Set::<usize>::empty());
    } else {
        lemma_range_set((n - 1) as usize);
        assert(Set::new(|x: usize| x < n) =~= Set::new(|x: usize| x < (n - 1) as usize).insert(
            (n - 1) as usize,
        ));
    }
}

/// A sequence of distinct naturals below `n` has at most `n` elements.
proof fn lemma_distinct_bounded(q: Seq<usize>, n: usize)
    requires
        q.no_duplicates(),
        forall|t: int| 0 <= t < q.len() ==> #[trigger] q[t] < n,
    ensures
        q.len() <= n,
{
    q.unique_seq_to_set();
    lemma_range_set(n);
    assert(q.to_set().subset_of(Set::new(|x: usize| x < n)));
    vstd::set_lib::lemma_len_subset(q.to_set(), Set::new(|x: usize| x < n));
}

/// Whether `v` contains `x`.
fn vec_contains(v: &Vec<GlobalProcedureIndex>, x: GlobalProcedureIndex) -> (r: bool)
    ensures
        r == v@.contains(x),
{
    let n = v.len();
    let mut i: usize = 0;
    while i < n
        invariant
            n == v@.len(),
            i <= n,
            forall|j: int| 0 <= j < i ==> v@[j] != x,
        decreases n - i,
    {
        if v[i] == x {
            return true;
        }
        i = i + 1;
    }
    false
}

/// The elements of `v` other than `x`, in order.
fn filter_ne(v: &Vec<GlobalProcedureIndex>, x: GlobalProcedureIndex) -> (r: Vec<GlobalProcedureIndex>)
    requires
        v@.no_duplicates(),
    ensures
        r@ == v@.filter(other_than(x)),
        r@.no_duplicates(),
{
    let ghost f = other_than(x);
    let n = v.len();
    let mut r: Vec<GlobalProcedureIndex> = Vec::new();
    let mut i: usize = 0;
    while i < n
        invariant
            n == v@.len(),
            i <= n,
            v@.no_duplicates(),
            f == other_than(x),
            r@ == v@.take(i as int).filter(f),
            r@.no_duplicates(),
            forall|a: int| 0 <= a < r@.len() ==> exists|j: int| 0 <= j < i && v@[j] == #[trigger] r@[a],
        decreases n - i,
    {
        proof {
            assert(v@.take(i + 1) == v@.take(i as int).push(v@[i as int]));
            v@.take(i as int).lemma_filter_push(v@[i as int], f);
        }
        if v[i] != x {
            let ghost r0 = r@;
            r.push(v[i]);
            proof {
                assert forall|a: int, b: int| 0 <= a < b < r@.len() implies r@[a] != r@[b] by {
                    if b == r@.len() - 1 {
                        assert(r@[a] == r0[a]);
                        let j = choose|j: int| 0 <= j < i && v@[j] == #[trigger] r0[a];
                        assert(v@[j] != v@[i as int]);
                    } else {
                        assert(r0[a] != r0[b]);
                    }
                }
                assert forall|a: int| 0 <= a < r@.len() implies exists|j: int| 0 <= j < i + 1 && v@[j] == #[trigger] r@[a] by {
                    if a == r@.len() - 1 {
                        assert(v@[i as int] == r@[a]);
                    } else {
                        assert(r@[a] == r0[a]);
                        let j = choose|j: int| 0 <= j < i && v@[j] == #[trigger] r0[a];
                        assert(v@[j] == r@[a]);
                    }
                }
            }
        }
        i = i + 1;
    }
    proof {
        assert(v@.take(n as int) == v@);
    }
    r
}

/// The elements of `v` that do not belong to module `m`, in order.
fn filter_module(v: &Vec<GlobalProcedureIndex>, m: ModuleIndex) -> (r: Vec<GlobalProcedureIndex>)
    requires
        v@.no_duplicates(),
    ensures
        r@ == v@.filter(outside_module(m)),
        r@.no_duplicates(),
{
    let ghost f = outside_module(m);
    let n = v.len();
    let mut r: Vec<GlobalProcedureIndex> = Vec::new();
    let mut i: usize = 0;
    while i < n
        invariant
            n == v@.len(),
            i <= n,
            v@.no_duplicates(),
            f == outside_module(m),
            r@ == v@.take(i as int).filter(f),
            r@.no_duplicates(),
            forall|a: int| 0 <= a < r@.len() ==> exists|j: int| 0 <= j < i && v@[j] == #[trigger] r@[a],
        decreases n - i,
    {
        proof {
            assert(v@.take(i + 1) == v@.take(i as int).push(v@[i as int]));
            v@.take(i as int).lemma_filter_push(v@[i as int], f);
        }
        if v[i].module != m {
            let ghost r0 = r@;
            r.push(v[i]);
            proof {
                assert forall|a: int, b: int| 0 <= a < b < r@.len() implies r@[a] != r@[b] by {
                    if b == r@.len() - 1 {
                        assert(r@[a] == r0[a]);
                        let j = choose|j: int| 0 <= j < i && v@[j] == #[trigger] r0[a];
                        assert(v@[j] != v@[i as int]);
                    } else {
                        assert(r0[a] != r0[b]);
                    }
                }
                assert forall|a: int| 0 <= a < r@.len() implies exists|j: int| 0 <= j < i + 1 && v@[j] == #[trigger] r@[a] by {
                    if a == r@.len() - 1 {
                        assert(v@[i as int] == r@[a]);
                    } else {
                        assert(r@[a] == r0[a]);
                        let j = choose|j: int| 0 <= j < i && v@[j] == #[trigger] r0[a];
                        assert(v@[j] == r@[a]);
                    }
                }
            }
        }
        i = i + 1;
    }
    proof {
        assert(v@.take(n as int) == v@);
    }
    r
}

} // verus!
