use std::sync::Arc;

use miden_assembly::linker::{
    should_merge, Export, Library, LinkLibrary, LinkLibraryKind, PhantomCall, ProcedureInfo, ProcedureLink,
    ProcedureWrapper,
};
use miden_assembly::procedure::{RpoDigest, SourceSpan, Visibility};

fn digest(n: u64) -> RpoDigest {
    RpoDigest { e0: n, e1: n, e2: n, e3: n }
}

#[test]
fn procedure_links() {
    let export = Export { name: String::from("foo"), visibility: Visibility::Public, num_locals: 0, body: Vec::new() };
    let info = ProcedureInfo { name: String::from("bar"), digest: digest(1) };
    let ast = ProcedureLink::Ast(&export);
    let compiled = ProcedureLink::Info(&info);
    assert!(ast.is_ast());
    assert!(!compiled.is_ast());
    assert_eq!(ast.name(), "foo");
    assert_eq!(compiled.name(), "bar");
    assert_eq!(ast.unwrap_ast().name, "foo");
    let wrapped = ProcedureWrapper::Info(&info);
    assert!(!wrapped.is_ast());
    assert_eq!(wrapped.name(), "bar");
    assert_eq!(ProcedureWrapper::Ast(&export).unwrap_ast().num_locals, 0);
}

#[test]
fn link_libraries() {
    let library = Arc::new(Library { digest: digest(7), exports: Vec::new() });
    assert_eq!(LinkLibrary::dynamic(library.clone()).kind, LinkLibraryKind::Dynamic);
    assert_eq!(LinkLibrary::static_(library).kind, LinkLibraryKind::Static);
    assert_eq!(LinkLibraryKind::default(), LinkLibraryKind::Dynamic);
}

#[test]
fn phantom_calls_compare_by_callee() {
    let a = PhantomCall { span: SourceSpan { start: 0, end: 1 }, source_file: None, callee: digest(3) };
    let b = PhantomCall { span: SourceSpan { start: 5, end: 9 }, source_file: None, callee: digest(3) };
    let c = PhantomCall { span: SourceSpan { start: 0, end: 1 }, source_file: None, callee: digest(4) };
    assert!(a == b);
    assert!(a != c);
}

#[test]
fn block_merging_threshold() {
    assert!(should_merge(false, 1000));
    assert!(should_merge(true, 31));
    assert!(!should_merge(true, 32));
}
