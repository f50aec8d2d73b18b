use miden_assembly::format::{
    append_decimal, display_hex_bytes, display_push_vec, AstFormatterContext, FormattableProcedureAst, ProcedureAst,
};

#[test]
fn hex_bytes() {
    assert_eq!(display_hex_bytes(&[]), "0x");
    assert_eq!(display_hex_bytes(&[0x07; 20]), "0x0707070707070707070707070707070707070707");
    assert_eq!(display_hex_bytes(&[0x00, 0xab, 0x10, 0xff]), "0x00ab10ff");
}

#[test]
fn push_values() {
    assert_eq!(display_push_vec(&[3, 4, 8, 9]), "push.3.4.8.9");
    assert_eq!(display_push_vec(&[]), "push");
    assert_eq!(display_push_vec(&[0, u64::MAX]), "push.0.18446744073709551615");
}

#[test]
fn decimal_text() {
    let mut s = String::from("n=");
    append_decimal(&mut s, 1024);
    assert_eq!(s, "n=1024");
}

fn procs() -> Vec<ProcedureAst> {
    vec![
        ProcedureAst { name: String::from("foo"), docs: None, num_locals: 0, is_export: true },
        ProcedureAst { name: String::from("bar"), docs: Some(String::from("does bar")), num_locals: 12, is_export: false },
    ]
}

#[test]
fn formatter_context() {
    let locals = procs();
    let imported = vec![
        ([1u8; 24], (String::from("add"), String::from("std::math::u64"))),
        ([2u8; 24], (String::from("sub"), String::from("std::math::u64"))),
    ];
    let ctx = AstFormatterContext::new(&locals, &imported);
    assert_eq!(ctx.indent(), "");
    let inner = ctx.inner_scope_context();
    let inner2 = inner.inner_scope_context();
    assert_eq!(inner2.indent(), "        ");
    assert_eq!(inner.local_proc(1), "bar");
    let (name, path) = inner.imported_proc(&[2u8; 24]);
    assert_eq!(name, "sub");
    assert_eq!(path, "std::math::u64");
}

#[test]
fn procedure_headers() {
    let locals = procs();
    let imported = Vec::new();
    let ctx = AstFormatterContext::new(&locals, &imported);
    assert_eq!(FormattableProcedureAst::new(&locals[0], &ctx).header(), "export.foo.0\n");
    let inner = ctx.inner_scope_context();
    assert_eq!(
        FormattableProcedureAst::new(&locals[1], &inner).header(),
        "    #! does bar\n    proc.bar.12\n"
    );
}
