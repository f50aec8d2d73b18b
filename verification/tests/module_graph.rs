use std::sync::Arc;

use miden_assembly::ast::{InvocationTarget, InvokeKind};
use miden_assembly::errors::AssemblyError;
use miden_assembly::id::{GlobalProcedureIndex, ModuleIndex, ProcedureIndex};
use miden_assembly::linker::CallerInfo;
use miden_assembly::module_graph::{
    Invoke, ModuleGraph, ModuleImport, ModuleProcedure, NameResolver, ResolvedProcedure, ResolvedTarget, ThinModule,
};
use miden_assembly::procedure::{QualifiedProcedureName, RpoDigest, SourceFile, SourceSpan};

fn span(start: u32) -> SourceSpan {
    SourceSpan { start, end: start + 1 }
}

fn name(module: &str, proc: &str) -> QualifiedProcedureName {
    QualifiedProcedureName { span: span(0), module: String::from(module), name: String::from(proc) }
}

fn local(proc: &str) -> ModuleProcedure {
    ModuleProcedure { name: String::from(proc), span: span(0), num_locals: 0, alias_of: None, invoked: vec![] }
}

fn alias(proc: &str, module: &str, target: &str) -> ModuleProcedure {
    ModuleProcedure {
        name: String::from(proc),
        span: span(0),
        num_locals: 0,
        alias_of: Some(name(module, target)),
        invoked: vec![],
    }
}

fn import(alias: &str, path: &str) -> ModuleImport {
    ModuleImport { name: String::from(alias), path: String::from(path) }
}

fn source(file: &str) -> Option<Arc<SourceFile>> {
    Some(Arc::new(SourceFile { name: String::from(file), content: String::new() }))
}

fn module(path: &str, procedures: Vec<ModuleProcedure>, imports: Vec<ModuleImport>) -> ThinModule {
    ThinModule { path: String::from(path), source_file: source(path), procedures, imports }
}

fn gid(module: u16, index: u16) -> GlobalProcedureIndex {
    GlobalProcedureIndex { module: ModuleIndex(module), index: ProcedureIndex(index) }
}

fn caller(module: u16, kind: InvokeKind) -> CallerInfo {
    CallerInfo { span: span(7), source_file: source("caller"), module: ModuleIndex(module), kind }
}

/// `foo::bar` defines `bar`; `foo::baz` imports it, re-exports it as `bar` and defines `baz`; a
/// program imports `foo::baz`.
fn re_export_modules() -> Vec<ThinModule> {
    vec![
        module("foo::bar", vec![local("bar")], vec![]),
        module("foo::baz", vec![alias("bar", "foo::bar", "bar"), local("baz")], vec![import("bar", "foo::bar")]),
        module("program", vec![local("main")], vec![import("baz", "foo::baz")]),
    ]
}

fn resolver_over(graph: &ModuleGraph, modules: Vec<ThinModule>) -> NameResolver<'_> {
    let mut resolver = NameResolver::new(graph);
    for m in modules {
        resolver.push_pending(m);
    }
    resolver
}

#[test]
fn local_resolution_takes_the_first_procedure_of_the_name() {
    let m = module("m", vec![local("a"), alias("b", "x", "y"), local("b")], vec![import("x", "lib::x")]);
    assert!(matches!(m.resolve(&String::from("a")), Some(ResolvedProcedure::Local(ProcedureIndex(0)))));
    match m.resolve(&String::from("b")) {
        Some(ResolvedProcedure::External(q)) => assert_eq!(q, name("x", "y")),
        other => panic!("unexpected resolution {:?}", other),
    }
    assert!(m.resolve(&String::from("c")).is_none());
    assert_eq!(m.resolve_import(&String::from("x")), Some(&String::from("lib::x")));
    assert_eq!(m.resolve_import(&String::from("lib")), None);
    assert_eq!(m.get_name(ProcedureIndex(2)), "b");
}

#[test]
fn re_export_resolves_to_its_definition() {
    let graph = ModuleGraph::default();
    let resolver = resolver_over(&graph, re_export_modules());
    let from_program = caller(2, InvokeKind::Exec);

    let target = InvocationTarget::ProcedurePath { name: String::from("bar"), module: String::from("baz") };
    match resolver.resolve_target(&from_program, &target) {
        Ok(ResolvedTarget::Resolved { gid: g, target: InvocationTarget::AbsoluteProcedurePath { name, path } }) => {
            assert_eq!(g, gid(0, 0));
            assert_eq!(name, "bar");
            assert_eq!(path, "foo::bar");
        },
        other => panic!("unexpected resolution {:?}", other),
    }

    let target = InvocationTarget::ProcedurePath { name: String::from("baz"), module: String::from("baz") };
    match resolver.resolve_target(&from_program, &target) {
        Ok(ResolvedTarget::Resolved { gid: g, target: InvocationTarget::AbsoluteProcedurePath { name, path } }) => {
            assert_eq!(g, gid(1, 1));
            assert_eq!(name, "baz");
            assert_eq!(path, "foo::baz");
        },
        other => panic!("unexpected resolution {:?}", other),
    }
}

#[test]
fn fully_qualified_reference_resolves_exactly() {
    let graph = ModuleGraph::default();
    let resolver = resolver_over(&graph, re_export_modules());
    let target = InvocationTarget::AbsoluteProcedurePath { name: String::from("bar"), path: String::from("foo::baz") };
    match resolver.resolve_target(&caller(2, InvokeKind::Exec), &target) {
        Ok(ResolvedTarget::Exact { gid: g }) => assert_eq!(g, gid(0, 0)),
        other => panic!("unexpected resolution {:?}", other),
    }
    assert_eq!(resolver.find(&caller(2, InvokeKind::Call), &name("foo::baz", "baz")), Ok(gid(1, 1)));
}

#[test]
fn local_names_resolve_in_the_callers_module() {
    let graph = ModuleGraph::default();
    let resolver = resolver_over(&graph, re_export_modules());
    match resolver.resolve(&caller(1, InvokeKind::Exec), &String::from("baz")) {
        Ok(ResolvedTarget::Exact { gid: g }) => assert_eq!(g, gid(1, 1)),
        other => panic!("unexpected resolution {:?}", other),
    }
    match resolver.resolve(&caller(1, InvokeKind::Exec), &String::from("bar")) {
        Ok(ResolvedTarget::Resolved { gid: g, .. }) => assert_eq!(g, gid(0, 0)),
        other => panic!("unexpected resolution {:?}", other),
    }
    assert_eq!(
        resolver.resolve(&caller(2, InvokeKind::Exec), &String::from("baz")).err(),
        Some(AssemblyError::UndefinedProcedure { span: span(7), source_file: source("caller") })
    );
}

#[test]
fn unknown_modules_are_reported() {
    let graph = ModuleGraph::default();
    let resolver = resolver_over(&graph, re_export_modules());
    let target = InvocationTarget::ProcedurePath { name: String::from("f"), module: String::from("nope") };
    assert_eq!(
        resolver.resolve_target(&caller(2, InvokeKind::Exec), &target).err(),
        Some(AssemblyError::UndefinedModule { span: span(7), source_file: source("caller"), path: String::from("nope") })
    );
    let target = InvocationTarget::AbsoluteProcedurePath { name: String::from("f"), path: String::from("std::x") };
    assert_eq!(
        resolver.resolve_target(&caller(2, InvokeKind::Exec), &target).err(),
        Some(AssemblyError::UndefinedModule { span: span(7), source_file: source("caller"), path: String::from("std::x") })
    );
    assert_eq!(resolver.find_module_index(&String::from("foo::baz")), Some(ModuleIndex(1)));
    assert_eq!(resolver.find_module_index(&String::from("std::x")), None);
}

#[test]
fn undefined_procedure_in_a_known_module() {
    let graph = ModuleGraph::default();
    let resolver = resolver_over(&graph, re_export_modules());
    assert_eq!(
        resolver.find(&caller(2, InvokeKind::Exec), &name("foo::bar", "missing")),
        Err(AssemblyError::UndefinedProcedure { span: span(7), source_file: source("caller") })
    );
}

#[test]
fn recursive_aliases_are_detected() {
    let graph = ModuleGraph::default();
    let modules = vec![
        module("a", vec![alias("x", "b", "y")], vec![]),
        module("b", vec![alias("y", "a", "x")], vec![]),
    ];
    let resolver = resolver_over(&graph, modules);
    assert_eq!(
        resolver.find(&caller(0, InvokeKind::Exec), &name("a", "x")),
        Err(AssemblyError::RecursiveAlias { source_file: source("a"), name: name("b", "y") })
    );
}

#[test]
fn alias_chains_are_followed() {
    let graph = ModuleGraph::default();
    let modules = vec![
        module("a", vec![local("f"), alias("g", "b", "h")], vec![]),
        module("b", vec![alias("h", "c", "k")], vec![]),
        module("c", vec![local("j"), alias("k", "a", "f")], vec![]),
    ];
    let resolver = resolver_over(&graph, modules);
    assert_eq!(resolver.find(&caller(1, InvokeKind::Exec), &name("a", "g")), Ok(gid(0, 0)));
    assert_eq!(resolver.module_source(ModuleIndex(2)), source("c"));
    assert_eq!(resolver.path_of(ModuleIndex(1)), "b");
}

#[test]
fn syscalls_resolve_local_names_in_the_kernel() {
    let mut graph = ModuleGraph::default();
    graph.set_kernel(Some(ModuleIndex(0)), vec![]);
    assert!(graph.has_nonempty_kernel());
    let modules = vec![
        module("#sys", vec![local("foo")], vec![]),
        module("program", vec![local("main")], vec![]),
    ];
    let resolver = resolver_over(&graph, modules);
    match resolver.resolve(&caller(1, InvokeKind::SysCall), &String::from("foo")) {
        Ok(ResolvedTarget::Exact { gid: g }) => assert_eq!(g, gid(0, 0)),
        other => panic!("unexpected resolution {:?}", other),
    }
    assert!(resolver.resolve(&caller(1, InvokeKind::Exec), &String::from("foo")).is_err());
}

#[test]
fn syscalls_without_a_kernel_resolve_nothing() {
    let graph = ModuleGraph::default();
    assert!(!graph.has_nonempty_kernel());
    let resolver = resolver_over(&graph, vec![module("program", vec![local("foo")], vec![])]);
    assert!(resolver.resolve_local(&caller(0, InvokeKind::SysCall), &String::from("foo")).is_none());
    assert_eq!(
        resolver.resolve(&caller(0, InvokeKind::SysCall), &String::from("foo")).err(),
        Some(AssemblyError::UndefinedProcedure { span: span(7), source_file: source("caller") })
    );
}

#[test]
fn unknown_mast_roots_are_phantoms() {
    let graph = ModuleGraph::default();
    let resolver = resolver_over(&graph, vec![module("program", vec![local("foo")], vec![])]);
    let root = RpoDigest { e0: 1, e1: 2, e2: 3, e3: 4 };
    match resolver.resolve_target(&caller(0, InvokeKind::Call), &InvocationTarget::MastRoot(root)) {
        Ok(ResolvedTarget::Phantom(d)) => assert_eq!(d, root),
        other => panic!("unexpected resolution {:?}", other),
    }
    assert_eq!(graph.get_procedure_index_by_digest(&root), None);
    assert_eq!(graph.get_mast_root(gid(0, 0)), None);
}

#[test]
fn resolved_targets_name_their_procedure() {
    assert_eq!(ResolvedTarget::Exact { gid: gid(1, 2) }.into_global_id(), Some(gid(1, 2)));
    let digest = RpoDigest { e0: 9, e1: 9, e2: 9, e3: 9 };
    assert_eq!(ResolvedTarget::Cached { digest, gid: None }.into_global_id(), None);
    assert_eq!(ResolvedTarget::Cached { digest, gid: Some(gid(0, 1)) }.into_global_id(), Some(gid(0, 1)));
    assert_eq!(ResolvedTarget::Phantom(digest).into_global_id(), None);
    let target = InvocationTarget::AbsoluteProcedurePath { name: String::from("f"), path: String::from("m") };
    assert_eq!(ResolvedTarget::Resolved { gid: gid(3, 0), target }.into_global_id(), Some(gid(3, 0)));
}

#[test]
fn modules_are_added_once_by_path() {
    let mut graph = ModuleGraph::default();
    assert_eq!(graph.add_module(module("a", vec![local("f")], vec![])), Ok(ModuleIndex(0)));
    assert_eq!(graph.add_module(module("b", vec![], vec![])), Ok(ModuleIndex(1)));
    assert_eq!(
        graph.add_module(module("a", vec![], vec![])),
        Err(AssemblyError::DuplicateModule { path: String::from("a") })
    );
    assert_eq!(graph.add_module(module("c", vec![], vec![])), Ok(ModuleIndex(2)));
    assert!(!graph.contains_module(ModuleIndex(0)));
    assert_eq!(graph.find_module_index(&String::from("a")), None);
    assert!(graph.topological_sort().is_empty());
}

#[test]
fn kernel_queries() {
    let mut graph = ModuleGraph::default();
    let root = RpoDigest { e0: 5, e1: 6, e2: 7, e3: 8 };
    graph.set_kernel(None, vec![root]);
    assert!(graph.has_nonempty_kernel());
    assert_eq!(graph.kernel_index(), None);
    assert_eq!(graph.kernel(), &vec![root]);
    assert!(graph.is_kernel_procedure_root(&root));
    assert!(!graph.is_kernel_procedure_root(&RpoDigest { e0: 0, e1: 0, e2: 0, e3: 0 }));
    assert!(!graph.is_kernel_procedure(&String::from("foo")));
    assert!(!graph.is_kernel_procedure_fully_qualified(&name("#sys", "foo")));
}

#[test]
fn removing_a_pending_module_frees_its_path() {
    let mut graph = ModuleGraph::default();
    assert_eq!(graph.add_module(module("a", vec![], vec![])), Ok(ModuleIndex(0)));
    assert_eq!(graph.add_module(module("b", vec![], vec![])), Ok(ModuleIndex(1)));
    assert_eq!(graph.add_module(module("c", vec![], vec![])), Ok(ModuleIndex(2)));
    graph.remove_module(ModuleIndex(1));
    assert_eq!(graph.add_module(module("b", vec![], vec![])), Ok(ModuleIndex(2)));
    assert_eq!(
        graph.add_module(module("c", vec![], vec![])),
        Err(AssemblyError::DuplicateModule { path: String::from("c") })
    );
}

#[test]
fn syscalls_must_reach_kernel_procedures() {
    let mut graph = ModuleGraph::default();
    graph.set_kernel(Some(ModuleIndex(0)), vec![]);
    let modules = vec![
        module("#sys", vec![local("foo"), alias("helper", "lib", "get")], vec![]),
        module("lib", vec![local("get")], vec![]),
        module("program", vec![local("main")], vec![]),
    ];
    let resolver = resolver_over(&graph, modules);
    assert_eq!(resolver.find(&caller(2, InvokeKind::SysCall), &name("#sys", "foo")), Ok(gid(0, 0)));
    assert_eq!(
        resolver.find(&caller(2, InvokeKind::SysCall), &name("lib", "get")),
        Err(AssemblyError::InvalidSysCallTarget { span: span(0), source_file: source("caller"), callee: name("lib", "get") })
    );
    assert_eq!(resolver.find(&caller(2, InvokeKind::Exec), &name("lib", "get")), Ok(gid(1, 0)));
    assert_eq!(
        resolver.resolve(&caller(2, InvokeKind::SysCall), &String::from("helper")).err(),
        Some(AssemblyError::InvalidSysCallTarget { span: span(0), source_file: source("caller"), callee: name("lib", "get") })
    );
    assert_eq!(
        resolver.find(&caller(2, InvokeKind::SysCall), &name("#sys", "missing")),
        Err(AssemblyError::UndefinedKernelProcedure { span: span(7), source_file: source("caller"), nonempty_kernel: true })
    );
}

#[test]
fn mast_roots_resolve_whatever_the_caller() {
    let graph = ModuleGraph::default();
    let root = RpoDigest { e0: 3, e1: 3, e2: 3, e3: 3 };
    match graph.resolve_target(&caller(40, InvokeKind::Exec), &InvocationTarget::MastRoot(root)) {
        Ok(ResolvedTarget::Phantom(d)) => assert_eq!(d, root),
        other => panic!("unexpected resolution {:?}", other),
    }
}

fn calling(proc: &str, targets: Vec<(&str, &str)>) -> ModuleProcedure {
    let invoked = targets
        .into_iter()
        .map(|(path, name)| Invoke {
            kind: InvokeKind::Exec,
            target: InvocationTarget::AbsoluteProcedurePath { name: String::from(name), path: String::from(path) },
            span: span(3),
        })
        .collect();
    ModuleProcedure { name: String::from(proc), span: span(0), num_locals: 0, alias_of: None, invoked }
}

#[test]
fn recompute_of_an_empty_graph_fails() {
    let mut graph = ModuleGraph::default();
    assert_eq!(graph.recompute(), Err(AssemblyError::Empty));
}

#[test]
fn recompute_adds_pending_modules_in_topological_order() {
    let mut graph = ModuleGraph::default();
    assert_eq!(graph.add_module(module("a", vec![calling("f", vec![("b", "g")])], vec![])), Ok(ModuleIndex(0)));
    assert_eq!(graph.add_module(module("b", vec![local("g")], vec![])), Ok(ModuleIndex(1)));
    assert_eq!(graph.recompute(), Ok(()));
    assert!(graph.contains_module(ModuleIndex(0)));
    assert!(graph.contains_module(ModuleIndex(1)));
    assert_eq!(graph.find_module_index(&String::from("b")), Some(ModuleIndex(1)));
    assert_eq!(graph.topological_sort(), &[gid(0, 0), gid(1, 0)]);
    assert_eq!(graph.callees(gid(0, 0)), &[gid(1, 0)]);
    // nothing pending: nothing to do
    assert_eq!(graph.recompute(), Ok(()));
    // references now resolve over the graph's own modules
    let target = InvocationTarget::ProcedureName(String::from("f"));
    match graph.resolve_target(&caller(0, InvokeKind::Exec), &target) {
        Ok(ResolvedTarget::Exact { gid: g }) => assert_eq!(g, gid(0, 0)),
        other => panic!("unexpected resolution {:?}", other),
    }
    assert!(graph.is_kernel_procedure_fully_qualified(&name("b", "g")) == false);
}

#[test]
fn recompute_rejects_cycles() {
    let mut graph = ModuleGraph::default();
    graph.add_module(module("a", vec![calling("f", vec![("b", "g")])], vec![])).unwrap();
    graph.add_module(module("b", vec![calling("g", vec![("a", "f")])], vec![])).unwrap();
    assert_eq!(graph.recompute(), Err(AssemblyError::Cycle { nodes: vec![gid(0, 0), gid(1, 0)] }));
    assert!(graph.topological_sort().is_empty());
}

#[test]
fn recompute_rejects_a_procedure_calling_itself() {
    let mut graph = ModuleGraph::default();
    graph.add_module(module("a", vec![calling("f", vec![("a", "f")])], vec![])).unwrap();
    assert_eq!(graph.recompute(), Err(AssemblyError::Cycle { nodes: vec![gid(0, 0)] }));
}

#[test]
fn recompute_reports_unresolved_invocations() {
    let mut graph = ModuleGraph::default();
    graph.add_module(module("a", vec![calling("f", vec![("nowhere", "g")])], vec![])).unwrap();
    assert_eq!(
        graph.recompute(),
        Err(AssemblyError::UndefinedModule { span: span(3), source_file: source("a"), path: String::from("nowhere") })
    );
    assert!(!graph.contains_module(ModuleIndex(0)));
}

#[test]
fn mast_roots_of_graph_procedures() {
    let mut graph = ModuleGraph::default();
    graph.add_module(module("a", vec![local("f"), local("h")], vec![])).unwrap();
    graph.recompute().unwrap();
    let root = RpoDigest { e0: 11, e1: 12, e2: 13, e3: 14 };
    assert_eq!(graph.register_mast_root(gid(0, 0), root), Ok(()));
    assert_eq!(graph.get_mast_root(gid(0, 0)), Some(&root));
    assert_eq!(graph.get_procedure_index_by_digest(&root), Some(gid(0, 0)));
    assert_eq!(graph.register_mast_root(gid(0, 1), root), Ok(()));
    assert_eq!(graph.get_procedure_index_by_digest(&root), Some(gid(0, 0)));
    match graph.resolve_target(&caller(0, InvokeKind::Exec), &InvocationTarget::ProcedureName(String::from("f"))) {
        Ok(ResolvedTarget::Cached { digest, gid: g }) => {
            assert_eq!(digest, root);
            assert_eq!(g, Some(gid(0, 0)));
        },
        other => panic!("unexpected resolution {:?}", other),
    }
    graph.remove_module(ModuleIndex(0));
    assert!(!graph.contains_module(ModuleIndex(0)));
    assert_eq!(graph.get_mast_root(gid(0, 0)), None);
    assert_eq!(graph.get_procedure_index_by_digest(&root), None);
}

#[test]
fn conflicting_roots_need_equal_locals() {
    let mut graph = ModuleGraph::default();
    let mut busy = local("h");
    busy.num_locals = 2;
    graph.add_module(module("a", vec![local("f"), busy], vec![])).unwrap();
    graph.recompute().unwrap();
    let root = RpoDigest { e0: 1, e1: 1, e2: 1, e3: 2 };
    graph.register_mast_root(gid(0, 0), root).unwrap();
    assert_eq!(
        graph.register_mast_root(gid(0, 1), root),
        Err(AssemblyError::ConflictingDefinitions { first: name("a", "f"), second: QualifiedProcedureName { span: span(0), module: String::from("a"), name: String::from("h") } })
    );
}
