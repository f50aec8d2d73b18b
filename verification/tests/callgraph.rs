use miden_assembly::callgraph::CallGraph;
use miden_assembly::id::{GlobalProcedureIndex, ModuleIndex, ProcedureIndex};

fn gid(module: u16, index: u16) -> GlobalProcedureIndex {
    GlobalProcedureIndex { module: ModuleIndex(module), index: ProcedureIndex(index) }
}

fn position(order: &[GlobalProcedureIndex], id: GlobalProcedureIndex) -> usize {
    order.iter().position(|x| *x == id).expect("node missing from order")
}

#[test]
fn empty_graph_sorts_to_nothing() {
    let graph = CallGraph::default();
    assert_eq!(graph.toposort().unwrap(), Vec::<GlobalProcedureIndex>::new());
}

#[test]
fn toposort_places_callers_before_callees() {
    let mut graph = CallGraph::new();
    let (a, b, c, d) = (gid(0, 0), gid(0, 1), gid(1, 0), gid(1, 1));
    graph.add_edge_unchecked(a, b);
    graph.add_edge_unchecked(a, c);
    graph.add_edge_unchecked(b, d);
    graph.add_edge_unchecked(c, d);
    let order = graph.toposort().unwrap();
    assert_eq!(order.len(), 4);
    assert!(position(&order, a) < position(&order, b));
    assert!(position(&order, a) < position(&order, c));
    assert!(position(&order, b) < position(&order, d));
    assert!(position(&order, c) < position(&order, d));
}

#[test]
fn toposort_reports_cycle() {
    let mut graph = CallGraph::new();
    let (a, b, c, d) = (gid(0, 0), gid(0, 1), gid(0, 2), gid(0, 3));
    graph.add_edge_unchecked(d, a);
    graph.add_edge_unchecked(a, b);
    graph.add_edge_unchecked(b, c);
    graph.add_edge_unchecked(c, a);
    let err = graph.toposort().unwrap_err();
    let nodes = err.into_node_ids();
    // the nodes of the cycle, in increasing order; `d` is outside it
    assert_eq!(nodes, vec![a, b, c]);
}

#[test]
fn add_edge_rejects_self_call() {
    let mut graph = CallGraph::new();
    let a = gid(2, 5);
    let err = graph.add_edge(a, a).unwrap_err();
    assert_eq!(err.into_node_ids(), vec![a]);
    assert_eq!(graph.toposort().unwrap(), Vec::<GlobalProcedureIndex>::new());
}

#[test]
fn add_edge_rejects_cycle_and_keeps_graph_acyclic() {
    let mut graph = CallGraph::new();
    let (a, b, c) = (gid(0, 0), gid(0, 1), gid(0, 2));
    graph.add_edge(a, b).unwrap();
    graph.add_edge(b, c).unwrap();
    assert!(graph.add_edge(c, a).is_err());
    // the rejected edge was not kept
    assert_eq!(graph.out_edges(c), &[] as &[GlobalProcedureIndex]);
    assert_eq!(graph.toposort().unwrap(), vec![a, b, c]);
}

#[test]
fn out_edges_and_predecessors() {
    let mut graph = CallGraph::new();
    let (a, b, c) = (gid(0, 0), gid(0, 1), gid(0, 2));
    graph.add_edge_unchecked(a, c);
    graph.add_edge_unchecked(b, c);
    graph.add_edge_unchecked(a, c);
    assert_eq!(graph.out_edges(a), &[c]);
    assert_eq!(graph.out_edges(gid(9, 9)), &[] as &[GlobalProcedureIndex]);
    assert_eq!(graph.num_predecessors(c), 2);
    assert_eq!(graph.num_predecessors(a), 0);
    graph.remove_edge(a, c);
    assert_eq!(graph.num_predecessors(c), 1);
}

#[test]
fn get_or_insert_node_keeps_nodes_sorted() {
    let mut graph = CallGraph::new();
    graph.get_or_insert_node(gid(1, 0));
    graph.get_or_insert_node(gid(0, 3));
    let again = graph.get_or_insert_node(gid(1, 0));
    assert_eq!(again, 1);
    assert_eq!(graph.toposort().unwrap(), vec![gid(0, 3), gid(1, 0)]);
}

#[test]
fn remove_edges_for_module_drops_its_nodes() {
    let mut graph = CallGraph::new();
    let (a, b, c) = (gid(0, 0), gid(1, 0), gid(0, 1));
    graph.add_edge_unchecked(a, b);
    graph.add_edge_unchecked(b, c);
    graph.add_edge_unchecked(a, c);
    graph.remove_edges_for_module(ModuleIndex(1));
    assert_eq!(graph.out_edges(a), &[c]);
    assert_eq!(graph.out_edges(b), &[] as &[GlobalProcedureIndex]);
    assert_eq!(graph.toposort().unwrap(), vec![a, c]);
}

#[test]
fn subgraph_keeps_reachable_nodes() {
    let mut graph = CallGraph::new();
    let (a, b, c, d) = (gid(0, 0), gid(0, 1), gid(0, 2), gid(0, 3));
    graph.add_edge_unchecked(a, b);
    graph.add_edge_unchecked(b, c);
    graph.add_edge_unchecked(d, a);
    let sub = graph.subgraph(b);
    assert_eq!(sub.toposort().unwrap(), vec![b, c]);
    assert_eq!(sub.out_edges(b), &[c]);
}

#[test]
fn toposort_caller_starts_with_caller() {
    let mut graph = CallGraph::new();
    let (a, b, c, d) = (gid(0, 0), gid(0, 1), gid(0, 2), gid(0, 3));
    graph.add_edge_unchecked(c, a);
    graph.add_edge_unchecked(c, b);
    graph.add_edge_unchecked(a, b);
    graph.add_edge_unchecked(d, c);
    let order = graph.toposort_caller(c).unwrap();
    assert_eq!(order, vec![c, a, b]);
}

#[test]
fn toposort_caller_detects_cycle_through_caller() {
    let mut graph = CallGraph::new();
    let (a, b) = (gid(0, 0), gid(0, 1));
    graph.add_edge_unchecked(a, b);
    graph.add_edge_unchecked(b, a);
    assert!(graph.toposort_caller(a).is_err());
}
