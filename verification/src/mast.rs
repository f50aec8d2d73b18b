//! The structure of a MAST forest, and the removal of the nodes that no procedure reaches.

use vstd::prelude::*;

use crate::procedure::{MastNodeId, RpoDigest};
use crate::span_builder::SpanBlock;

verus! {

/// A node of a MAST forest, with the identifiers of its children.
#[derive(Debug)]
pub enum MastNode {
    /// A basic block of operations.
    Block(SpanBlock),
    /// Executes `first` then `second`.
    Join(MastNodeId, MastNodeId),
    /// Executes `on_true` or `on_false`, depending on the top of the stack.
    Split(MastNodeId, MastNodeId),
    /// Executes `body` while the top of the stack is one.
    Loop(MastNodeId),
    /// Calls the procedure rooted at `callee`, with `syscall` or `call`.
    Call { callee: MastNodeId, is_syscall: bool },
    /// Executes the procedure whose root is on the stack.
    Dyn,
    /// A procedure known only by its digest, provided at runtime.
    External(RpoDigest),
}

/// The identifiers of the children of `node`.
pub open spec fn children(node: MastNode) -> Seq<u32> {
    match node {
        MastNode::Join(a, b) => seq![a.0, b.0],
        MastNode::Split(a, b) => seq![a.0, b.0],
        MastNode::Loop(b) => seq![b.0],
        MastNode::Call { callee, .. } => seq![callee.0],
        _ => Seq::empty(),
    }
}

/// A MAST forest: its nodes, each identified by its position, and the roots of its procedures.
#[derive(Debug)]
pub struct MastForest {
    pub nodes: Vec<MastNode>,
    pub roots: Vec<MastNodeId>,
}

impl MastForest {
    /// Every child and every root names a node of the forest, and the identifier of every node
    /// fits in 32 bits.
    pub open spec fn wf(&self) -> bool {
        &&& self.nodes@.len() < u32::MAX
        &&& forall|i: int, j: int|
            0 <= i < self.nodes@.len() && 0 <= j < children(self.nodes@[i]).len()
                ==> (#[trigger] children(self.nodes@[i])[j]) < self.nodes@.len()
        &&& forall|k: int| 0 <= k < self.roots@.len() ==> (#[trigger] self.roots@[k]).0 < self.nodes@.len()
    }

    /// The number of nodes of the forest.
    pub fn num_nodes(&self) -> (r: usize)
        ensures
            r == self.nodes@.len(),
    {
        self.nodes.len()
    }
}

/// Node `b` is a child of node `a` in `f`.
pub open spec fn edge(f: &MastForest, a: int, b: int) -> bool {
    &&& 0 <= a < f.nodes@.len()
    &&& exists|c: int| 0 <= c < children(f.nodes@[a]).len() && children(f.nodes@[a])[c] as int == b
}

/// `id` is the root of a procedure of `f`.
pub open spec fn is_root(f: &MastForest, id: int) -> bool {
    exists|k: int| 0 <= k < f.roots@.len() && f.roots@[k].0 == id
}

/// `p` is a path of `f` from the root of a procedure.
pub open spec fn rooted_path(f: &MastForest, p: Seq<int>) -> bool {
    &&& p.len() > 0
    &&& is_root(f, p[0])
    &&& forall|k: int| 0 <= k < p.len() - 1 ==> edge(f, #[trigger] p[k], p[k + 1])
}

/// Node `id` of `f` is reachable from the root of a procedure.
pub open spec fn live(f: &MastForest, id: int) -> bool {
    exists|p: Seq<int>| rooted_path(f, p) && p.last() == id
}

/// The number of `false` values in `s`.
pub open spec fn count_false(s: Seq<bool>) -> nat
    decreases s.len(),
{
    if s.len() == 0 {
        0
    } else {
        count_false(s.drop_last()) + if s.last() {
            0nat
        } else {
            1nat
        }
    }
}

/// The number of `true` values in `s`.
pub open spec fn count_true(s: Seq<bool>) -> nat
    decreases s.len(),
{
    if s.len() == 0 {
        0
    } else {
        count_true(s.drop_last()) + if s.last() {
            1nat
        } else {
            0nat
        }
    }
}

/// Setting a `false` value of `s` to `true` removes one `false` value.
proof fn lemma_count_false_update(s: Seq<bool>, i: int)
    requires
        0 <= i < s.len(),
        !s[i],
    ensures
        count_false(s.update(i, true)) + 1 == count_false(s),
    decreases s.len(),
{
    if i < s.len() - 1 {
        assert(s.update(i, true).drop_last() =~= s.drop_last().update(i, true));
        lemma_count_false_update(s.drop_last(), i);
    } else {
        assert(s.update(i, true).drop_last() =~= s.drop_last());
    }
}

/// There are at most as many `false` values as values.
proof fn lemma_count_false_bound(s: Seq<bool>)
    ensures
        count_false(s) <= s.len(),
    decreases s.len(),
{
    if s.len() > 0 {
        lemma_count_false_bound(s.drop_last());
    }
}

/// A child of a live node is live.
proof fn lemma_live_step(f: &MastForest, a: int, b: int)
    requires
        live(f, a),
        edge(f, a, b),
    ensures
        live(f, b),
{
    let p = choose|p: Seq<int>| rooted_path(f, p) && p.last() == a;
    let q = p.push(b);
    assert forall|k: int| 0 <= k < q.len() - 1 implies edge(f, #[trigger] q[k], q[k + 1]) by {
        if k < p.len() - 1 {
            assert(q[k] == p[k] && q[k + 1] == p[k + 1]);
        }
    }
    assert(rooted_path(f, q) && q.last() == b);
}

/// A root is live.
proof fn lemma_root_live(f: &MastForest, k: int)
    requires
        0 <= k < f.roots@.len(),
    ensures
        live(f, f.roots@[k].0 as int),
{
    let p = seq![f.roots@[k].0 as int];
    assert(rooted_path(f, p) && p.last() == f.roots@[k].0 as int);
}

/// A set of nodes that holds every root and the children of each of its nodes holds every live
/// node.
proof fn lemma_closed_holds_live(f: &MastForest, marked: Seq<bool>, p: Seq<int>)
    requires
        f.wf(),
        marked.len() == f.nodes@.len(),
        forall|k: int| 0 <= k < f.roots@.len() ==> marked[(#[trigger] f.roots@[k]).0 as int],
        forall|a: int, b: int| 0 <= a < marked.len() && marked[a] && #[trigger] edge(f, a, b) ==> 0 <= b < marked.len() && marked[b],
        rooted_path(f, p),
    ensures
        0 <= p.last() < marked.len(),
        marked[p.last()],
    decreases p.len(),
{
    if p.len() == 1 {
        let k = choose|k: int| 0 <= k < f.roots@.len() && f.roots@[k].0 == p[0];
        assert(marked[f.roots@[k].0 as int]);
    } else {
        let q = p.drop_last();
        assert forall|k: int| 0 <= k < q.len() - 1 implies edge(f, #[trigger] q[k], q[k + 1]) by {
            assert(edge(f, p[k], p[k + 1]));
        }
        lemma_closed_holds_live(f, marked, q);
        assert(edge(f, p[p.len() - 2], p[p.len() - 1]));
    }
}

/// Returns, for each node of the forest, whether it is reachable from the root of a procedure.
pub fn compute_live_ids(mast_forest: &MastForest) -> (r: Vec<bool>)
    requires
        mast_forest.wf(),
    ensures
        r@.len() == mast_forest.nodes@.len(),
        forall|i: int| 0 <= i < r@.len() ==> (r@[i] <==> live(mast_forest, i)),
{
    let n = mast_forest.nodes.len();
    let mut marked: Vec<bool> = Vec::new();
    let mut i: usize = 0;
    while i < n
        invariant
            i <= n,
            marked@.len() == i,
            forall|k: int| 0 <= k < i ==> !marked@[k],
        decreases n - i,
    {
        marked.push(false);
        i = i + 1;
    }
    let mut worklist: Vec<u32> = Vec::new();
    // mark the roots of the procedures
    let mut k: usize = 0;
    while k < mast_forest.roots.len()
        invariant
            mast_forest.wf(),
            n == mast_forest.nodes@.len(),
            k <= mast_forest.roots@.len(),
            marked@.len() == n,
            forall|j: int| 0 <= j < k ==> marked@[(#[trigger] mast_forest.roots@[j]).0 as int],
            forall|j: int| 0 <= j < n && marked@[j] ==> live(mast_forest, j),
            forall|j: int| 0 <= j < worklist@.len() ==> (#[trigger] worklist@[j]) < n && marked@[worklist@[j] as int],
            forall|j: int| 0 <= j < n && marked@[j] ==> worklist@.contains(j as u32),
        decreases mast_forest.roots.len() - k,
    {
        let root = mast_forest.roots[k].0;
        if !marked[root as usize] {
            proof {
                lemma_root_live(mast_forest, k as int);
            }
            marked.set(root as usize, true);
            worklist.push(root);
            proof {
                broadcast use vstd::seq_lib::lemma_seq_contains_after_push;
            }
        }
        k = k + 1;
    }
    proof {
        lemma_count_false_bound(marked@);
    }
    // visit the children of each marked node
    while worklist.len() > 0
        invariant
            mast_forest.wf(),
            n == mast_forest.nodes@.len(),
            marked@.len() == n,
            forall|j: int| 0 <= j < mast_forest.roots@.len() ==> marked@[(#[trigger] mast_forest.roots@[j]).0 as int],
            forall|j: int| 0 <= j < n && marked@[j] ==> live(mast_forest, j),
            forall|j: int| 0 <= j < worklist@.len() ==> (#[trigger] worklist@[j]) < n && marked@[worklist@[j] as int],
            forall|a: int, b: int|
                0 <= a < n && marked@[a] && !worklist@.contains(a as u32) && #[trigger] edge(mast_forest, a, b)
                    ==> 0 <= b < n && marked@[b],
        decreases 2 * count_false(marked@) + worklist@.len(),
    {
        let ghost before = marked@;
        let ghost wl0 = worklist@;
        let id = worklist.pop().unwrap();
        let ghost popped = worklist@;
        proof {
            assert(wl0 =~= popped.push(id));
            assert(wl0[wl0.len() - 1] == id);
        }
        let node = &mast_forest.nodes[id as usize];
        let ghost cs = children(*node);
        let targets: Vec<u32> = match node {
            MastNode::Join(a, b) => vec![a.0, b.0],
            MastNode::Split(a, b) => vec![a.0, b.0],
            MastNode::Loop(b) => vec![b.0],
            MastNode::Call { callee, .. } => vec![callee.0],
            _ => Vec::new(),
        };
        proof {
            assert(targets@ =~= cs);
        }
        let mut t: usize = 0;
        while t < targets.len()
            invariant
                mast_forest.wf(),
                n == mast_forest.nodes@.len(),
                (id as int) < n,
                cs == children(mast_forest.nodes@[id as int]),
                targets@ == cs,
                t <= targets@.len(),
                marked@.len() == n,
                forall|j: int| 0 <= j < n && before[j] ==> marked@[j],
                forall|j: int| 0 <= j < n && marked@[j] ==> live(mast_forest, j),
                forall|j: int| 0 <= j < worklist@.len() ==> (#[trigger] worklist@[j]) < n && marked@[worklist@[j] as int],
                forall|j: int| 0 <= j < n && marked@[j] && !before[j] ==> worklist@.contains(j as u32),
                forall|j: int| 0 <= j < popped.len() ==> worklist@.contains(#[trigger] popped[j]),
                forall|c: int| 0 <= c < t ==> marked@[(#[trigger] cs[c]) as int],
                2 * count_false(marked@) + worklist@.len() <= 2 * count_false(before) + popped.len(),
                live(mast_forest, id as int),
            decreases targets.len() - t,
        {
            let c = targets[t];
            if !marked[c as usize] {
                proof {
                    assert(cs[t as int] == c);
                    assert(edge(mast_forest, id as int, c as int));
                    lemma_live_step(mast_forest, id as int, c as int);
                    lemma_count_false_update(marked@, c as int);
                }
                marked.set(c as usize, true);
                worklist.push(c);
                proof {
                    broadcast use vstd::seq_lib::lemma_seq_contains_after_push;
                }
            }
            t = t + 1;
        }
        proof {
            assert forall|a: int, b: int|
                0 <= a < n && marked@[a] && !worklist@.contains(a as u32) && #[trigger] edge(mast_forest, a, b)
                    implies 0 <= b < n && marked@[b] by {
                if a == id as int {
                    let c = choose|c: int| 0 <= c < cs.len() && cs[c] as int == b;
                    assert(marked@[cs[c] as int]);
                } else {
                    assert(before[a]);
                    if wl0.contains(a as u32) {
                        let w = choose|w: int| 0 <= w < wl0.len() && wl0[w] == a as u32;
                        if w < wl0.len() - 1 {
                            assert(popped[w] == a as u32);
                            assert(worklist@.contains(popped[w]));
                        }
                    }
                    assert(!wl0.contains(a as u32));
                }
            }
        }
    }
    proof {
        assert forall|i: int| 0 <= i < marked@.len() implies (marked@[i] <==> live(mast_forest, i)) by {
            if live(mast_forest, i) {
                let p = choose|p: Seq<int>| rooted_path(mast_forest, p) && p.last() == i;
                lemma_closed_holds_live(mast_forest, marked@, p);
            }
        }
    }
    marked
}

/// The nodes of `nodes` that are marked in `live`, in their order.
pub open spec fn kept(nodes: Seq<MastNode>, live: Seq<bool>) -> Seq<MastNode>
    decreases nodes.len(),
{
    if nodes.len() == 0 {
        Seq::empty()
    } else {
        kept(nodes.drop_last(), live.drop_last()) + if live[nodes.len() - 1] {
            seq![nodes.last()]
        } else {
            Seq::empty()
        }
    }
}

/// The new identifier of node `i`, if it is kept: the number of kept nodes before it.
pub open spec fn new_id(live: Seq<bool>, i: int) -> Option<MastNodeId> {
    if live[i] {
        Some(MastNodeId(count_true(live.take(i)) as u32))
    } else {
        None
    }
}

/// The kept nodes number as many as the `true` values of `live`.
proof fn lemma_kept_len(nodes: Seq<MastNode>, live: Seq<bool>)
    requires
        nodes.len() == live.len(),
    ensures
        kept(nodes, live).len() == count_true(live),
    decreases nodes.len(),
{
    if nodes.len() > 0 {
        lemma_kept_len(nodes.drop_last(), live.drop_last());
    }
}

/// Each kept node stands at its new identifier among the kept nodes.
pub proof fn lemma_kept_at_new_id(nodes: Seq<MastNode>, live: Seq<bool>, i: int)
    requires
        nodes.len() == live.len(),
        0 <= i < nodes.len(),
        live[i],
    ensures
        count_true(live.take(i)) < kept(nodes, live).len(),
        kept(nodes, live)[count_true(live.take(i)) as int] == nodes[i],
    decreases nodes.len(),
{
    lemma_kept_len(nodes, live);
    let n = nodes.len() - 1;
    if i == n {
        assert(live.take(i) =~= live.drop_last());
        lemma_kept_len(nodes.drop_last(), live.drop_last());
    } else {
        assert(live.drop_last().take(i) =~= live.take(i));
        lemma_kept_at_new_id(nodes.drop_last(), live.drop_last(), i);
    }
}

/// Counting a prefix one value longer adds that value.
proof fn lemma_count_true_take(s: Seq<bool>, k: int)
    requires
        0 <= k < s.len(),
    ensures
        count_true(s.take(k + 1)) == count_true(s.take(k)) + if s[k] {
            1nat
        } else {
            0nat
        },
{
    assert(s.take(k + 1).drop_last() =~= s.take(k));
}

/// There are at most as many `true` values as values.
proof fn lemma_count_true_bound(s: Seq<bool>)
    ensures
        count_true(s) <= s.len(),
    decreases s.len(),
{
    if s.len() > 0 {
        lemma_count_true_bound(s.drop_last());
    }
}

/// Returns the nodes marked in `live_ids`, in their order, and for each node its new identifier,
/// if it is kept.
pub fn prune_nodes(mast_nodes: Vec<MastNode>, live_ids: &Vec<bool>) -> (r: (Vec<MastNode>, Vec<Option<MastNodeId>>))
    requires
        live_ids@.len() == mast_nodes@.len(),
        mast_nodes@.len() < u32::MAX,
    ensures
        r.0@ == kept(mast_nodes@, live_ids@),
        r.0@.len() == count_true(live_ids@),
        r.1@.len() == mast_nodes@.len(),
        forall|i: int| 0 <= i < r.1@.len() ==> r.1@[i] == new_id(live_ids@, i),
{
    let ghost nodes = mast_nodes@;
    let mut pruned_nodes: Vec<MastNode> = Vec::new();
    let mut id_remappings: Vec<Option<MastNodeId>> = Vec::new();
    let mut k: usize = 0;
    for old_node in it: mast_nodes.into_iter()
        invariant
            it.seq() == nodes,
            k == it.index(),
            live_ids@.len() == nodes.len(),
            nodes.len() < u32::MAX,
            pruned_nodes@ == kept(nodes.take(k as int), live_ids@.take(k as int)),
            pruned_nodes@.len() == count_true(live_ids@.take(k as int)),
            id_remappings@.len() == k,
            forall|i: int| 0 <= i < k ==> id_remappings@[i] == new_id(live_ids@, i),
    {
        proof {
            lemma_count_true_take(live_ids@, k as int);
            lemma_count_true_bound(live_ids@.take(k as int));
            assert(nodes.take(k + 1).drop_last() =~= nodes.take(k as int));
            assert(live_ids@.take(k + 1).drop_last() =~= live_ids@.take(k as int));
        }
        if live_ids[k] {
            let new_node_id = MastNodeId(pruned_nodes.len() as u32);
            id_remappings.push(Some(new_node_id));
            pruned_nodes.push(old_node);
        } else {
            id_remappings.push(None);
        }
        k = k + 1;
    }
    proof {
        assert(nodes.take(k as int) =~= nodes);
        assert(live_ids@.take(k as int) =~= live_ids@);
    }
    (pruned_nodes, id_remappings)
}

/// Each kept node is a live node of `nodes`, at its new identifier.
proof fn lemma_kept_origin(nodes: Seq<MastNode>, live: Seq<bool>, k: int)
    requires
        nodes.len() == live.len(),
        0 <= k < kept(nodes, live).len(),
    ensures
        exists|i: int| 0 <= i < nodes.len() && live[i] && count_true(live.take(i)) == k && kept(nodes, live)[k] == nodes[i],
    decreases nodes.len(),
{
    let n = nodes.len() - 1;
    lemma_kept_len(nodes.drop_last(), live.drop_last());
    if k < kept(nodes.drop_last(), live.drop_last()).len() {
        lemma_kept_origin(nodes.drop_last(), live.drop_last(), k);
        let i = choose|i: int| 0 <= i < nodes.drop_last().len() && live.drop_last()[i]
            && count_true(live.drop_last().take(i)) == k && kept(nodes.drop_last(), live.drop_last())[k] == nodes.drop_last()[i];
        assert(live.drop_last().take(i) =~= live.take(i));
        assert(live[i] && count_true(live.take(i)) == k && kept(nodes, live)[k] == nodes[i]);
    } else {
        assert(live.take(n) =~= live.drop_last());
        assert(live[n] && count_true(live.take(n)) == k && kept(nodes, live)[k] == nodes[n]);
    }
}

/// The identifier that `id` becomes: its new identifier if it has one, itself otherwise.
pub open spec fn remap_id(remap: Seq<Option<MastNodeId>>, id: MastNodeId) -> MastNodeId {
    if (id.0 as int) < remap.len() && remap[id.0 as int] is Some {
        remap[id.0 as int]->Some_0
    } else {
        id
    }
}

/// `node` with the identifiers of its children rewritten by `remap`.
pub open spec fn remap_node(node: MastNode, remap: Seq<Option<MastNodeId>>) -> MastNode {
    match node {
        MastNode::Join(a, b) => MastNode::Join(remap_id(remap, a), remap_id(remap, b)),
        MastNode::Split(a, b) => MastNode::Split(remap_id(remap, a), remap_id(remap, b)),
        MastNode::Loop(b) => MastNode::Loop(remap_id(remap, b)),
        MastNode::Call { callee, is_syscall } => MastNode::Call { callee: remap_id(remap, callee), is_syscall },
        other => other,
    }
}

/// The roots `roots`, each added in turn unless it is already a root.
pub open spec fn added_roots(roots: Seq<MastNodeId>) -> Seq<MastNodeId>
    decreases roots.len(),
{
    if roots.len() == 0 {
        Seq::empty()
    } else {
        let prev = added_roots(roots.drop_last());
        if prev.contains(roots.last()) {
            prev
        } else {
            prev.push(roots.last())
        }
    }
}

/// The identifier that `id` becomes.
fn remap_node_id(remap: &Vec<Option<MastNodeId>>, id: MastNodeId) -> (r: MastNodeId)
    ensures
        r == remap_id(remap@, id),
{
    if (id.0 as usize) < remap.len() {
        match remap[id.0 as usize] {
            Some(new) => new,
            None => id,
        }
    } else {
        id
    }
}

/// Returns true if `roots` holds `id`.
fn roots_contain(roots: &Vec<MastNodeId>, id: MastNodeId) -> (r: bool)
    ensures
        r == roots@.contains(id),
{
    let mut i: usize = 0;
    while i < roots.len()
        invariant
            i <= roots.len(),
            forall|k: int| 0 <= k < i ==> roots@[k] != id,
        decreases roots.len() - i,
    {
        if roots[i] == id {
            return true;
        }
        i = i + 1;
    }
    false
}

/// The forest made of `live_nodes`, with the identifiers of their children and of the roots
/// `old_root_ids` rewritten by `id_remappings`; a root is added only once.
pub fn build_pruned_mast_forest(
    live_nodes: Vec<MastNode>,
    old_root_ids: Vec<MastNodeId>,
    id_remappings: &Vec<Option<MastNodeId>>,
) -> (r: MastForest)
    requires
        forall|k: int| 0 <= k < old_root_ids@.len() ==> (remap_id(id_remappings@, #[trigger] old_root_ids@[k]).0 as int) < live_nodes@.len(),
    ensures
        r.nodes@ == live_nodes@.map_values(|n: MastNode| remap_node(n, id_remappings@)),
        r.roots@ == added_roots(old_root_ids@.map_values(|id: MastNodeId| remap_id(id_remappings@, id))),
{
    let ghost nodes = live_nodes@;
    let ghost remap = id_remappings@;
    let n = live_nodes.len();
    let mut pruned: Vec<MastNode> = Vec::new();
    for live_node in it: live_nodes.into_iter()
        invariant
            it.seq() == nodes,
            remap == id_remappings@,
            pruned@ == nodes.take(it.index() as int).map_values(|n: MastNode| remap_node(n, remap)),
    {
        let ghost before = pruned@;
        let ghost k = it.index();
        let new_node = match live_node {
            MastNode::Join(a, b) => MastNode::Join(remap_node_id(id_remappings, a), remap_node_id(id_remappings, b)),
            MastNode::Split(a, b) => MastNode::Split(remap_node_id(id_remappings, a), remap_node_id(id_remappings, b)),
            MastNode::Loop(b) => MastNode::Loop(remap_node_id(id_remappings, b)),
            MastNode::Call { callee, is_syscall } => MastNode::Call {
                callee: remap_node_id(id_remappings, callee),
                is_syscall,
            },
            other => other,
        };
        pruned.push(new_node);
        proof {
            assert(pruned@ =~= nodes.take(k + 1).map_values(|n: MastNode| remap_node(n, remap)));
        }
    }
    proof {
        assert(nodes.take(nodes.len() as int) =~= nodes);
    }
    let ghost mapped = old_root_ids@.map_values(|id: MastNodeId| remap_id(remap, id));
    let mut roots: Vec<MastNodeId> = Vec::new();
    let mut k: usize = 0;
    while k < old_root_ids.len()
        invariant
            k <= old_root_ids@.len(),
            remap == id_remappings@,
            mapped == old_root_ids@.map_values(|id: MastNodeId| remap_id(remap, id)),
            roots@ == added_roots(mapped.take(k as int)),
        decreases old_root_ids.len() - k,
    {
        let new_root_id = remap_node_id(id_remappings, old_root_ids[k]);
        proof {
            assert(mapped.take(k + 1).drop_last() =~= mapped.take(k as int));
            assert(mapped.take(k + 1).last() == new_root_id);
        }
        if !roots_contain(&roots, new_root_id) {
            roots.push(new_root_id);
        }
        k = k + 1;
    }
    proof {
        assert(mapped.take(k as int) =~= mapped);
    }
    MastForest { nodes: pruned, roots }
}

/// Each added root is one of the roots given.
proof fn lemma_added_roots_from(roots: Seq<MastNodeId>, k: int)
    requires
        0 <= k < added_roots(roots).len(),
    ensures
        roots.contains(added_roots(roots)[k]),
    decreases roots.len(),
{
    let prev = added_roots(roots.drop_last());
    if k < prev.len() {
        lemma_added_roots_from(roots.drop_last(), k);
        let j = choose|j: int| 0 <= j < roots.drop_last().len() && roots.drop_last()[j] == prev[k];
        assert(roots[j] == prev[k]);
    } else {
        assert(roots[roots.len() - 1] == roots.last());
    }
}

/// For each node of `f`, whether it is reachable from the root of a procedure.
pub open spec fn live_flags(f: &MastForest) -> Seq<bool> {
    Seq::new(f.nodes@.len(), |i: int| live(f, i))
}

/// The identifier of a live node becomes the identifier of a node of the pruned forest.
proof fn lemma_live_remapped(f: &MastForest, remap: Seq<Option<MastNodeId>>, id: MastNodeId)
    requires
        f.wf(),
        (id.0 as int) < f.nodes@.len(),
        live(f, id.0 as int),
        remap.len() == f.nodes@.len(),
        forall|i: int| 0 <= i < remap.len() ==> remap[i] == new_id(live_flags(f), i),
    ensures
        (remap_id(remap, id).0 as int) < count_true(live_flags(f)),
{
    let flags = live_flags(f);
    lemma_kept_at_new_id(f.nodes@, flags, id.0 as int);
    lemma_kept_len(f.nodes@, flags);
    lemma_count_true_bound(flags);
    lemma_count_true_bound(flags.take(id.0 as int));
}

/// Every node on a path from a root is live.
proof fn lemma_path_nodes_live(f: &MastForest, p: Seq<int>, k: int)
    requires
        rooted_path(f, p),
        0 <= k < p.len(),
    ensures
        live(f, p[k]),
{
    let q = p.take(k + 1);
    assert forall|j: int| 0 <= j < q.len() - 1 implies edge(f, #[trigger] q[j], q[j + 1]) by {
        assert(edge(f, p[j], p[j + 1]));
    }
    assert(rooted_path(f, q) && q.last() == p[k]);
}

/// Each root given is among the roots added.
proof fn lemma_added_roots_contains(roots: Seq<MastNodeId>, x: MastNodeId)
    requires
        roots.contains(x),
    ensures
        added_roots(roots).contains(x),
    decreases roots.len(),
{
    broadcast use vstd::seq_lib::lemma_seq_contains_after_push;
    if roots.last() != x {
        let j = choose|j: int| 0 <= j < roots.len() && roots[j] == x;
        assert(roots.drop_last()[j] == x);
        lemma_added_roots_contains(roots.drop_last(), x);
    }
}

/// The new identifier of a live node.
pub open spec fn new_index(flags: Seq<bool>, i: int) -> int {
    count_true(flags.take(i)) as int
}

/// Kept nodes keep their order: the new identifiers of live nodes grow with the old ones.
pub proof fn lemma_new_id_monotonic(live: Seq<bool>, i: int, j: int)
    requires
        0 <= i < j <= live.len(),
        live[i],
    ensures
        count_true(live.take(i)) < count_true(live.take(j)),
    decreases j - i,
{
    lemma_count_true_take(live, i);
    if j > i + 1 {
        lemma_count_true_take(live, j - 1);
        lemma_new_id_monotonic(live, i, j - 1);
    }
}

/// The identifier of a live node of `f` becomes its new identifier.
proof fn lemma_remap_live(f: &MastForest, remap: Seq<Option<MastNodeId>>, x: int)
    requires
        f.wf(),
        remap.len() == f.nodes@.len(),
        forall|i: int| 0 <= i < remap.len() ==> remap[i] == new_id(live_flags(f), i),
        0 <= x < f.nodes@.len(),
        live(f, x),
    ensures
        remap_id(remap, MastNodeId(x as u32)).0 as int == new_index(live_flags(f), x),
        new_index(live_flags(f), x) < count_true(live_flags(f)),
{
    let flags = live_flags(f);
    lemma_count_true_bound(flags.take(x));
    lemma_kept_at_new_id(f.nodes@, flags, x);
    lemma_kept_len(f.nodes@, flags);
}

/// A child of a live node of `f` is, under their new identifiers, a child in the pruned forest.
proof fn lemma_edge_kept(f: &MastForest, r: &MastForest, remap: Seq<Option<MastNodeId>>, x: int, y: int)
    requires
        f.wf(),
        remap.len() == f.nodes@.len(),
        forall|i: int| 0 <= i < remap.len() ==> remap[i] == new_id(live_flags(f), i),
        r.nodes@ == kept(f.nodes@, live_flags(f)).map_values(|n: MastNode| remap_node(n, remap)),
        live(f, x),
        0 <= x < f.nodes@.len(),
        edge(f, x, y),
    ensures
        edge(r, new_index(live_flags(f), x), new_index(live_flags(f), y)),
{
    let flags = live_flags(f);
    lemma_kept_at_new_id(f.nodes@, flags, x);
    lemma_kept_len(f.nodes@, flags);
    let cs = children(f.nodes@[x]);
    let c = choose|c: int| 0 <= c < cs.len() && cs[c] as int == y;
    assert(cs[c] < f.nodes@.len());
    lemma_live_step(f, x, y);
    lemma_remap_live(f, remap, y);
    lemma_remap_live(f, remap, x);
    let rn = r.nodes@[new_index(flags, x)];
    assert(rn == remap_node(f.nodes@[x], remap));
    assert(children(rn)[c] == remap_id(remap, MastNodeId(cs[c])).0);
}

/// The root of a procedure of `f` is, under its new identifier, a root of the pruned forest.
proof fn lemma_root_kept(f: &MastForest, r: &MastForest, remap: Seq<Option<MastNodeId>>, t: int)
    requires
        f.wf(),
        remap.len() == f.nodes@.len(),
        forall|i: int| 0 <= i < remap.len() ==> remap[i] == new_id(live_flags(f), i),
        r.roots@ == added_roots(f.roots@.map_values(|id: MastNodeId| remap_id(remap, id))),
        0 <= t < f.roots@.len(),
    ensures
        is_root(r, new_index(live_flags(f), f.roots@[t].0 as int)),
{
    let x = f.roots@[t].0 as int;
    lemma_root_live(f, t);
    lemma_remap_live(f, remap, x);
    let mapped = f.roots@.map_values(|id: MastNodeId| remap_id(remap, id));
    assert(mapped[t] == remap_id(remap, f.roots@[t]));
    assert(mapped.contains(mapped[t]));
    lemma_added_roots_contains(mapped, mapped[t]);
    let u = choose|u: int| 0 <= u < r.roots@.len() && r.roots@[u] == mapped[t];
    assert(r.roots@[u].0 == new_index(live_flags(f), x));
}

/// A forest obtained by removing the dead nodes of `f` has no dead node: every node of `r` is
/// reachable from the root of a procedure.
proof fn lemma_pruned_all_live(f: &MastForest, r: &MastForest, remap: Seq<Option<MastNodeId>>)
    requires
        f.wf(),
        remap.len() == f.nodes@.len(),
        forall|i: int| 0 <= i < remap.len() ==> remap[i] == new_id(live_flags(f), i),
        r.nodes@ == kept(f.nodes@, live_flags(f)).map_values(|n: MastNode| remap_node(n, remap)),
        r.roots@ == added_roots(f.roots@.map_values(|id: MastNodeId| remap_id(remap, id))),
    ensures
        forall|a: int| 0 <= a < r.nodes@.len() ==> live(r, a),
{
    let flags = live_flags(f);
    lemma_kept_len(f.nodes@, flags);
    assert forall|a: int| 0 <= a < r.nodes@.len() implies live(r, a) by {
        lemma_kept_origin(f.nodes@, flags, a);
        let i = choose|i: int| 0 <= i < f.nodes@.len() && flags[i] && count_true(flags.take(i)) == a
            && kept(f.nodes@, flags)[a] == f.nodes@[i];
        let p = choose|p: Seq<int>| rooted_path(f, p) && p.last() == i;
        let q = Seq::new(p.len(), |k: int| new_index(flags, p[k]));
        let t = choose|t: int| 0 <= t < f.roots@.len() && f.roots@[t].0 == p[0];
        lemma_root_kept(f, r, remap, t);
        assert forall|k: int| 0 <= k < q.len() - 1 implies edge(r, #[trigger] q[k], q[k + 1]) by {
            lemma_path_nodes_live(f, p, k);
            assert(edge(f, p[k], p[k + 1]));
            lemma_edge_kept(f, r, remap, p[k], p[k + 1]);
        }
        assert(rooted_path(r, q) && q.last() == a);
    }
}

/// Returns the forest without the nodes that are unreachable from all procedures, and the
/// identifier that each node of `mast_forest` gets in it if it is kept; or `mast_forest` itself,
/// and `None`, if every node is reachable.
///
/// Any identifier of a node of the old forest must be rewritten with the returned map.
pub fn dead_code_elimination(mast_forest: MastForest) -> (r: (MastForest, Option<Vec<Option<MastNodeId>>>))
    requires
        mast_forest.wf(),
    ensures
        r.0.wf(),
        forall|i: int| 0 <= i < r.0.nodes@.len() ==> live(&r.0, i),
        r.1 is None <==> (forall|i: int| 0 <= i < mast_forest.nodes@.len() ==> live(&mast_forest, i)),
        r.1 is None ==> r.0 == mast_forest,
        r.1 matches Some(remap) ==> {
            &&& remap@.len() == mast_forest.nodes@.len()
            &&& forall|i: int| 0 <= i < remap@.len() ==> remap@[i] == new_id(live_flags(&mast_forest), i)
            &&& r.0.nodes@ == kept(mast_forest.nodes@, live_flags(&mast_forest)).map_values(
                |n: MastNode| remap_node(n, remap@),
            )
            &&& r.0.roots@ == added_roots(mast_forest.roots@.map_values(|id: MastNodeId| remap_id(remap@, id)))
        },
{
    let live_ids = compute_live_ids(&mast_forest);
    let ghost f = mast_forest;
    let ghost flags = live_flags(&f);
    proof {
        assert(live_ids@ =~= flags);
    }
    let n = mast_forest.nodes.len();
    let mut num_live: usize = 0;
    let mut i: usize = 0;
    while i < n
        invariant
            i <= n,
            n == live_ids@.len(),
            num_live == count_true(live_ids@.take(i as int)),
            num_live <= i,
        decreases n - i,
    {
        proof {
            lemma_count_true_take(live_ids@, i as int);
        }
        if live_ids[i] {
            num_live = num_live + 1;
        }
        i = i + 1;
    }
    proof {
        assert(live_ids@.take(n as int) =~= live_ids@);
    }
    if num_live == n {
        proof {
            assert forall|j: int| 0 <= j < n implies live(&f, j) by {
                if !flags[j] {
                    lemma_kept_len(f.nodes@, flags);
                    assert(count_true(flags) < n) by {
                        lemma_count_true_missing(flags, j);
                    }
                }
            }
        }
        return (mast_forest, None);
    }
    proof {
        if forall|j: int| 0 <= j < n ==> live(&f, j) {
            lemma_count_true_all(flags);
        }
    }
    let MastForest { nodes: old_nodes, roots: old_roots } = mast_forest;
    let (live_nodes, id_remappings) = prune_nodes(old_nodes, &live_ids);
    proof {
        assert forall|k: int| 0 <= k < old_roots@.len() implies (remap_id(id_remappings@, #[trigger] old_roots@[k]).0 as int)
            < live_nodes@.len() by {
            lemma_root_live(&f, k);
            lemma_live_remapped(&f, id_remappings@, old_roots@[k]);
        }
    }
    let ghost remap = id_remappings@;
    let pruned = build_pruned_mast_forest(live_nodes, old_roots, &id_remappings);
    proof {
        let kn = kept(f.nodes@, flags);
        lemma_kept_len(f.nodes@, flags);
        assert forall|a: int, j: int|
            0 <= a < pruned.nodes@.len() && 0 <= j < children(pruned.nodes@[a]).len()
                implies (#[trigger] children(pruned.nodes@[a])[j]) < pruned.nodes@.len() by {
            lemma_kept_origin(f.nodes@, flags, a);
            let i = choose|i: int| 0 <= i < f.nodes@.len() && flags[i] && count_true(flags.take(i)) == a && kn[a] == f.nodes@[i];
            let c = children(f.nodes@[i])[j];
            assert(children(f.nodes@[i]).len() == children(pruned.nodes@[a]).len());
            assert(children(pruned.nodes@[a])[j] == remap_id(remap, MastNodeId(c)).0);
            assert(edge(&f, i, c as int));
            lemma_live_step(&f, i, c as int);
            lemma_live_remapped(&f, remap, MastNodeId(c));
        }
        assert forall|k: int| 0 <= k < pruned.roots@.len() implies (#[trigger] pruned.roots@[k]).0 < pruned.nodes@.len() by {
            let mapped = f.roots@.map_values(|id: MastNodeId| remap_id(remap, id));
            lemma_added_roots_from(mapped, k);
            let j = choose|j: int| 0 <= j < mapped.len() && mapped[j] == pruned.roots@[k];
            lemma_root_live(&f, j);
            lemma_live_remapped(&f, remap, f.roots@[j]);
        }
        lemma_count_true_bound(flags);
        lemma_pruned_all_live(&f, &pruned, remap);
    }
    (pruned, Some(id_remappings))
}

/// A sequence with a `false` value has fewer `true` values than values.
proof fn lemma_count_true_missing(s: Seq<bool>, j: int)
    requires
        0 <= j < s.len(),
        !s[j],
    ensures
        count_true(s) < s.len(),
    decreases s.len(),
{
    if j < s.len() - 1 {
        lemma_count_true_missing(s.drop_last(), j);
    } else {
        lemma_count_true_bound(s.drop_last());
    }
}

/// A sequence of `true` values has as many `true` values as values.
proof fn lemma_count_true_all(s: Seq<bool>)
    requires
        forall|j: int| 0 <= j < s.len() ==> s[j],
    ensures
        count_true(s) == s.len(),
    decreases s.len(),
{
    if s.len() > 0 {
        lemma_count_true_all(s.drop_last());
    }
}

/// Node `id` of `f` is the child of some node.
pub open spec fn has_parent(f: &MastForest, id: int) -> bool {
    exists|a: int| #[trigger] edge(f, a, id)
}

/// Returns true if `id` is the root of a procedure of the forest.
pub fn is_procedure_root(mast_forest: &MastForest, id: MastNodeId) -> (r: bool)
    ensures
        r == is_root(mast_forest, id.0 as int),
{
    let b = roots_contain(&mast_forest.roots, id);
    proof {
        if b {
            let k = choose|k: int| 0 <= k < mast_forest.roots@.len() && mast_forest.roots@[k] == id;
            assert(mast_forest.roots@[k].0 == id.0);
        }
        if is_root(mast_forest, id.0 as int) {
            let k = choose|k: int| 0 <= k < mast_forest.roots@.len() && mast_forest.roots@[k].0 == id.0 as int;
            assert(mast_forest.roots@[k] == id);
        }
    }
    b
}

/// Node `x` is one of the first `k` of `ids`.
pub open spec fn listed(ids: Seq<MastNodeId>, k: int, x: int) -> bool {
    exists|j: int| 0 <= j < k && (#[trigger] ids[j]).0 == x
}

/// Node `x` is a child of one of the first `a` nodes of `f`.
pub open spec fn referenced(f: &MastForest, a: int, x: int) -> bool {
    exists|p: int| 0 <= p < a && #[trigger] edge(f, p, x)
}

/// Node `x` is one of the first `t` identifiers of `cs`.
pub open spec fn among(cs: Seq<u32>, t: int, x: int) -> bool {
    exists|c: int| 0 <= c < t && (#[trigger] cs[c]) as int == x
}

/// Listing one more identifier adds exactly that identifier.
proof fn lemma_listed_step(ids: Seq<MastNodeId>, k: int, x: int)
    requires
        0 <= k < ids.len(),
    ensures
        listed(ids, k + 1, x) <==> (listed(ids, k, x) || ids[k].0 == x),
{
    if listed(ids, k + 1, x) {
        let j = choose|j: int| 0 <= j < k + 1 && (#[trigger] ids[j]).0 == x;
        if j < k {
            assert(listed(ids, k, x));
        }
    }
    if ids[k].0 == x {
        assert(ids[k].0 == x);
    }
    if listed(ids, k, x) {
        let j = choose|j: int| 0 <= j < k && (#[trigger] ids[j]).0 == x;
        assert(0 <= j < k + 1 && ids[j].0 == x);
    }
}

/// Taking one more identifier of `cs` adds exactly that identifier.
proof fn lemma_among_step(cs: Seq<u32>, t: int, x: int)
    requires
        0 <= t < cs.len(),
    ensures
        among(cs, t + 1, x) <==> (among(cs, t, x) || cs[t] as int == x),
{
    if among(cs, t + 1, x) {
        let c = choose|c: int| 0 <= c < t + 1 && (#[trigger] cs[c]) as int == x;
        if c < t {
            assert(among(cs, t, x));
        }
    }
    if cs[t] as int == x {
        assert(cs[t] as int == x);
    }
    if among(cs, t, x) {
        let c = choose|c: int| 0 <= c < t && (#[trigger] cs[c]) as int == x;
        assert(0 <= c < t + 1 && cs[c] as int == x);
    }
}

/// Looking at one more node adds exactly its children to the referenced nodes.
proof fn lemma_referenced_step(f: &MastForest, a: int, x: int)
    requires
        0 <= a < f.nodes@.len(),
    ensures
        referenced(f, a + 1, x) <==> (referenced(f, a, x) || among(children(f.nodes@[a]), children(f.nodes@[a]).len() as int, x)),
{
    let cs = children(f.nodes@[a]);
    if referenced(f, a + 1, x) {
        let p = choose|p: int| 0 <= p < a + 1 && #[trigger] edge(f, p, x);
        if p < a {
            assert(referenced(f, a, x));
        } else {
            let c = choose|c: int| 0 <= c < cs.len() && cs[c] as int == x;
            assert(among(cs, cs.len() as int, x));
        }
    }
    if referenced(f, a, x) {
        let p = choose|p: int| 0 <= p < a && #[trigger] edge(f, p, x);
        assert(0 <= p < a + 1 && edge(f, p, x));
    }
    if among(cs, cs.len() as int, x) {
        let c = choose|c: int| 0 <= c < cs.len() && (#[trigger] cs[c]) as int == x;
        assert(edge(f, a, x));
    }
}

/// Takes the basic blocks that were merged into others during assembly, and returns, for each
/// node of the forest, whether it can be removed: a merged block is removed only if it is neither
/// the root of a procedure nor referenced by any node, as node identifiers can be reused.
pub fn get_nodes_to_remove(merged_node_ids: &Vec<MastNodeId>, mast_forest: &MastForest) -> (r: Vec<bool>)
    requires
        mast_forest.wf(),
        forall|k: int| 0 <= k < merged_node_ids@.len() ==> ((#[trigger] merged_node_ids@[k]).0 as int) < mast_forest.nodes@.len(),
    ensures
        r@.len() == mast_forest.nodes@.len(),
        forall|i: int| 0 <= i < r@.len() ==> (r@[i] <==> {
            &&& listed(merged_node_ids@, merged_node_ids@.len() as int, i)
            &&& !is_root(mast_forest, i)
            &&& !has_parent(mast_forest, i)
        }),
{
    let n = mast_forest.nodes.len();
    let ghost ids = merged_node_ids@;
    let mut remove: Vec<bool> = Vec::new();
    let mut i: usize = 0;
    while i < n
        invariant
            i <= n,
            remove@.len() == i,
            forall|k: int| 0 <= k < i ==> !remove@[k],
        decreases n - i,
    {
        remove.push(false);
        i = i + 1;
    }
    // make sure not to remove procedure roots
    let mut k: usize = 0;
    while k < merged_node_ids.len()
        invariant
            n == mast_forest.nodes@.len(),
            ids == merged_node_ids@,
            k <= ids.len(),
            remove@.len() == n,
            forall|j: int| 0 <= j < ids.len() ==> ((#[trigger] ids[j]).0 as int) < n,
            forall|x: int| #![trigger remove@[x]] 0 <= x < n ==> (remove@[x] <==> (listed(ids, k as int, x) && !is_root(mast_forest, x))),
        decreases ids.len() - k,
    {
        let id = merged_node_ids[k];
        let ghost old_remove = remove@;
        if !is_procedure_root(mast_forest, id) {
            remove.set(id.0 as usize, true);
        }
        proof {
            assert forall|x: int| 0 <= x < n implies (remove@[x] <==> (listed(ids, k + 1, x) && !is_root(mast_forest, x))) by {
                lemma_listed_step(ids, k as int, x);
                assert(old_remove[x] <==> (listed(ids, k as int, x) && !is_root(mast_forest, x)));
                if x != id.0 as int {
                    assert(remove@[x] == old_remove[x]);
                }
            }
        }
        k = k + 1;
    }
    // keep every node that is referenced by another one
    let mut a: usize = 0;
    while a < n
        invariant
            mast_forest.wf(),
            n == mast_forest.nodes@.len(),
            ids == merged_node_ids@,
            a <= n,
            remove@.len() == n,
            forall|x: int| #![trigger remove@[x]] 0 <= x < n ==> (remove@[x] <==> (listed(ids, ids.len() as int, x) && !is_root(mast_forest, x)
                && !referenced(mast_forest, a as int, x))),
        decreases n - a,
    {
        let ghost before = remove@;
        let node = &mast_forest.nodes[a];
        let ghost cs = children(*node);
        let targets: Vec<u32> = match node {
            MastNode::Join(x, y) => vec![x.0, y.0],
            MastNode::Split(x, y) => vec![x.0, y.0],
            MastNode::Loop(b) => vec![b.0],
            MastNode::Call { callee, .. } => vec![callee.0],
            _ => Vec::new(),
        };
        proof {
            assert(targets@ =~= cs);
        }
        let mut t: usize = 0;
        while t < targets.len()
            invariant
                mast_forest.wf(),
                n == mast_forest.nodes@.len(),
                a < n,
                cs == children(mast_forest.nodes@[a as int]),
                targets@ == cs,
                t <= targets@.len(),
                remove@.len() == n,
                before.len() == n,
                forall|x: int| #![trigger remove@[x]] 0 <= x < n ==> (remove@[x] <==> (before[x] && !among(cs, t as int, x))),
            decreases targets.len() - t,
        {
            let c = targets[t];
            proof {
                assert(cs[t as int] == c);
                assert(children(mast_forest.nodes@[a as int])[t as int] < n);
            }
            remove.set(c as usize, false);
            proof {
                assert forall|x: int| 0 <= x < n implies (remove@[x] <==> (before[x] && !among(cs, t + 1, x))) by {
                    lemma_among_step(cs, t as int, x);
                }
            }
            t = t + 1;
        }
        proof {
            assert forall|x: int| 0 <= x < n implies (remove@[x] <==> (listed(ids, ids.len() as int, x) && !is_root(mast_forest, x)
                && !referenced(mast_forest, a + 1, x))) by {
                lemma_referenced_step(mast_forest, a as int, x);
            }
        }
        a = a + 1;
    }
    proof {
        assert forall|i: int| 0 <= i < n implies (remove@[i] <==> {
            &&& listed(ids, ids.len() as int, i)
            &&& !is_root(mast_forest, i)
            &&& !has_parent(mast_forest, i)
        }) by {
            if has_parent(mast_forest, i) {
                let p = choose|p: int| #[trigger] edge(mast_forest, p, i);
                assert(referenced(mast_forest, n as int, i));
            }
            if referenced(mast_forest, n as int, i) {
                let p = choose|p: int| 0 <= p < n && #[trigger] edge(mast_forest, p, i);
                assert(has_parent(mast_forest, i));
            }
        }
    }
    remove
}

} // verus!
