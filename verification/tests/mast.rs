use miden_assembly::mast::{compute_live_ids, dead_code_elimination, get_nodes_to_remove, MastForest, MastNode};
use miden_assembly::ops::Operation;
use miden_assembly::procedure::{MastNodeId, RpoDigest};
use miden_assembly::span_builder::SpanBlock;

fn block(op: Operation) -> MastNode {
    MastNode::Block(SpanBlock { ops: vec![op], decorators: Vec::new() })
}

fn id(n: u32) -> MastNodeId {
    MastNodeId(n)
}

/// 0: block, 1: block (dead), 2: join(0, 3), 3: block, 4: loop(1) (dead), 5: call(0) root
fn forest() -> MastForest {
    MastForest {
        nodes: vec![
            block(Operation::Add),
            block(Operation::Mul),
            MastNode::Join(id(0), id(3)),
            block(Operation::Neg),
            MastNode::Loop(id(1)),
            MastNode::Call { callee: id(0), is_syscall: false },
        ],
        roots: vec![id(2), id(5)],
    }
}

#[test]
fn live_nodes_are_those_reachable_from_roots() {
    let f = forest();
    assert_eq!(compute_live_ids(&f), vec![true, false, true, true, false, true]);
}

#[test]
fn dead_code_elimination_removes_unreachable_nodes() {
    let (pruned, remap) = dead_code_elimination(forest());
    let remap = remap.expect("the forest had dead nodes");
    assert_eq!(remap, vec![Some(id(0)), None, Some(id(1)), Some(id(2)), None, Some(id(3))]);
    assert_eq!(pruned.nodes.len(), 4);
    assert!(matches!(pruned.nodes[1], MastNode::Join(a, b) if a == id(0) && b == id(2)));
    assert!(matches!(pruned.nodes[3], MastNode::Call { callee, is_syscall: false } if callee == id(0)));
    assert_eq!(pruned.roots, vec![id(1), id(3)]);
    // nothing is left to remove
    let (again, remap) = dead_code_elimination(pruned);
    assert!(remap.is_none());
    assert_eq!(again.nodes.len(), 4);
}

#[test]
fn forest_without_dead_nodes_is_unchanged() {
    let f = MastForest {
        nodes: vec![block(Operation::Add), MastNode::External(RpoDigest { e0: 1, e1: 2, e2: 3, e3: 4 }), MastNode::Split(id(0), id(1))],
        roots: vec![id(2)],
    };
    let (same, remap) = dead_code_elimination(f);
    assert!(remap.is_none());
    assert_eq!(same.roots, vec![id(2)]);
    assert_eq!(same.nodes.len(), 3);
}

#[test]
fn empty_forest() {
    let (f, remap) = dead_code_elimination(MastForest { nodes: Vec::new(), roots: Vec::new() });
    assert!(remap.is_none());
    assert!(f.nodes.is_empty());
}

#[test]
fn merged_blocks_are_removed_unless_referenced_or_roots() {
    let f = forest();
    // block 0 is referenced, block 1 is referenced by the loop, node 5 is a root; block 3 is referenced
    let remove = get_nodes_to_remove(&vec![id(0), id(1), id(5), id(4)], &f);
    assert_eq!(remove, vec![false, false, false, false, true, false]);
}
