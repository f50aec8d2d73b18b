use std::sync::Arc;

use miden_assembly::errors::AssemblyError;
use miden_assembly::id::{GlobalProcedureIndex, ModuleIndex, ProcedureIndex};
use miden_assembly::procedure::{
    round_up_to_multiple_of_4, MastNodeId, Procedure, ProcedureContext, QualifiedProcedureName, RpoDigest,
    SourceFile, SourceSpan, Visibility,
};
use miden_assembly::procedure_cache::ProcedureCache;

fn gid(module: u16, index: u16) -> GlobalProcedureIndex {
    GlobalProcedureIndex { module: ModuleIndex(module), index: ProcedureIndex(index) }
}

fn name(module: &str, name: &str) -> QualifiedProcedureName {
    QualifiedProcedureName { span: SourceSpan::default(), module: String::from(module), name: String::from(name) }
}

fn digest(n: u64) -> RpoDigest {
    RpoDigest { e0: n, e1: 0, e2: 0, e3: 0 }
}

fn procedure(module: &str, proc_name: &str, root: u64, num_locals: u32) -> Arc<Procedure> {
    Arc::new(Procedure {
        span: SourceSpan::default(),
        source_file: None,
        path: name(module, proc_name),
        visibility: Visibility::Public,
        num_locals,
        mast_root: digest(root),
        body_node_id: MastNodeId(0),
        callset: Vec::new(),
    })
}

#[test]
fn locals_are_rounded_up_to_words() {
    assert_eq!(round_up_to_multiple_of_4(0), 0);
    assert_eq!(round_up_to_multiple_of_4(1), 4);
    assert_eq!(round_up_to_multiple_of_4(4), 4);
    assert_eq!(round_up_to_multiple_of_4(7), 8);
    assert_eq!(round_up_to_multiple_of_4(u16::MAX - 3), u16::MAX - 3);
}

#[test]
fn procedure_context_accessors() {
    let ctx = ProcedureContext::new(gid(1, 2), name("a::b", "foo"), Visibility::Syscall, true)
        .with_num_locals(5)
        .with_span(SourceSpan { start: 3, end: 9 });
    assert_eq!(ctx.num_locals(), 8);
    assert_eq!(ctx.id(), gid(1, 2));
    assert_eq!(ctx.name().name, "foo");
    assert_eq!(ctx.module(), "a::b");
    assert!(ctx.is_kernel());
    assert_eq!(ctx.span(), SourceSpan { start: 3, end: 9 });
    assert!(ctx.source_file().is_none());
    let file = Arc::new(SourceFile { name: String::from("a.masm"), content: String::from("begin end") });
    let ctx = ctx.with_source_file(Some(file));
    assert_eq!(ctx.source_file().unwrap().name, "a.masm");
}

#[test]
fn callset_accumulates_callees() {
    let mut ctx = ProcedureContext::new(gid(0, 0), name("m", "p"), Visibility::Private, false);
    ctx.insert_callee(digest(1));
    ctx.insert_callee(digest(1));
    ctx.extend_callset(&[digest(2), digest(1), digest(3)]);
    let callee = Procedure {
        span: SourceSpan::default(),
        source_file: None,
        path: name("m", "q"),
        visibility: Visibility::Public,
        num_locals: 0,
        mast_root: digest(9),
        body_node_id: MastNodeId(1),
        callset: vec![digest(4), digest(2)],
    };
    ctx.register_external_call(&callee, false).unwrap();
    ctx.register_external_call(&callee, true).unwrap();
    let proc = ctx.into_procedure(digest(100), MastNodeId(7));
    let mut callset: Vec<u64> = proc.callset().iter().map(|d| d.e0).collect();
    callset.sort();
    assert_eq!(callset, vec![1, 2, 3, 4, 9]);
    assert_eq!(proc.mast_root(), digest(100));
    assert_eq!(proc.body_node_id(), MastNodeId(7));
}

#[test]
fn cache_insert_and_lookup() {
    let mut cache = ProcedureCache::new();
    assert!(cache.is_empty());
    cache.insert(gid(1, 3), procedure("m1", "foo", 10, 4)).unwrap();
    assert_eq!(cache.len(), 1);
    assert!(cache.contains_key(gid(1, 3)));
    assert!(!cache.contains_key(gid(1, 2)));
    assert!(!cache.contains_key(gid(0, 0)));
    assert_eq!(cache.get(gid(1, 3)).unwrap().mast_root, digest(10));
    assert!(cache.get(gid(4, 0)).is_none());
    assert!(cache.contains_mast_root(&digest(10)));
    assert_eq!(cache.get_by_mast_root(&digest(10)).unwrap().path.name, "foo");
    // the same procedure again changes nothing
    cache.insert(gid(1, 3), procedure("m1", "foo", 10, 4)).unwrap();
    assert_eq!(cache.len(), 1);
    // an equivalent procedure under another identifier is cached too
    cache.insert(gid(2, 0), procedure("m2", "bar", 10, 4)).unwrap();
    assert_eq!(cache.len(), 2);
    assert_eq!(cache.get_by_mast_root(&digest(10)).unwrap().path.name, "foo");
}

#[test]
fn cache_rejects_conflicting_definitions() {
    let mut cache = ProcedureCache::new();
    cache.insert(gid(0, 0), procedure("m", "foo", 10, 4)).unwrap();
    match cache.insert(gid(0, 0), procedure("m", "other", 11, 4)) {
        Err(AssemblyError::ConflictingDefinitions { first, second }) => {
            assert_eq!(first.name, "foo");
            assert_eq!(second.name, "other");
        },
        other => panic!("unexpected {other:?}"),
    }
    assert!(matches!(
        cache.insert(gid(0, 1), procedure("m", "twin", 10, 8)),
        Err(AssemblyError::ConflictingDefinitions { .. })
    ));
    assert_eq!(cache.len(), 1);
    assert!(cache.get(gid(0, 1)).is_none());
}

#[test]
fn cache_remove_module() {
    let mut cache = ProcedureCache::new();
    cache.insert(gid(0, 0), procedure("a", "x", 1, 0)).unwrap();
    cache.insert(gid(1, 0), procedure("b", "y", 2, 0)).unwrap();
    cache.insert(gid(1, 1), procedure("b", "z", 3, 0)).unwrap();
    cache.remove_module(ModuleIndex(1));
    assert_eq!(cache.len(), 1);
    assert!(cache.get(gid(1, 0)).is_none());
    assert!(!cache.contains_mast_root(&digest(2)));
    assert!(cache.contains_mast_root(&digest(1)));
    // the slots can be reused
    cache.insert(gid(1, 0), procedure("b2", "y", 2, 0)).unwrap();
    assert!(cache.contains_mast_root(&digest(2)));
}

#[test]
fn cache_lookup_by_name_prefers_highest_module() {
    let mut cache = ProcedureCache::new();
    cache.insert(gid(0, 0), procedure("m", "foo", 1, 0)).unwrap();
    cache.insert(gid(3, 0), procedure("m", "foo", 2, 0)).unwrap();
    cache.insert(gid(1, 0), procedure("m", "bar", 3, 0)).unwrap();
    assert_eq!(cache.get_by_name(&name("m", "foo")).unwrap().mast_root, digest(2));
    assert!(cache.get_by_name(&name("n", "foo")).is_none());
}

#[test]
fn cache_iterates_in_index_order() {
    let mut cache = ProcedureCache::new();
    cache.insert(gid(2, 1), procedure("c", "y", 3, 0)).unwrap();
    cache.insert(gid(0, 2), procedure("a", "x", 1, 0)).unwrap();
    cache.insert(gid(2, 0), procedure("c", "x", 2, 0)).unwrap();
    let mut iter = cache.into_iter();
    let mut seen = Vec::new();
    while let Some((id, proc)) = iter.next() {
        seen.push((id, proc.mast_root.e0));
    }
    assert_eq!(seen, vec![(gid(0, 2), 1), (gid(2, 0), 2), (gid(2, 1), 3)]);
    assert!(iter.next().is_none());
}
