use miden_assembly::ast::encoding::{parse_num_push_params, DeserializationError, OpCode, SliceReader, MAX_PUSH_INPUTS};
use miden_assembly::ast::{validate_ident, IdentError, ModuleImportInfo, ModuleKind, SystemEventNode};

#[test]
fn module_kind_predicates() {
    assert!(ModuleKind::Executable.is_executable());
    assert!(!ModuleKind::Executable.is_library());
    assert!(ModuleKind::Kernel.is_kernel());
    assert!(ModuleKind::Library.is_library());
    assert_eq!(ModuleKind::default(), ModuleKind::Library);
    assert_eq!(ModuleKind::Kernel.as_str(), "kernel");
}

#[test]
fn module_kind_roundtrip() {
    for kind in [ModuleKind::Library, ModuleKind::Executable, ModuleKind::Kernel] {
        assert_eq!(ModuleKind::from_u8(kind.to_u8()), Ok(kind));
    }
    assert_eq!(ModuleKind::Executable.to_u8(), 1);
    assert_eq!(ModuleKind::from_u8(3), Err(3));
}

#[test]
fn opcode_roundtrip_over_all_bytes() {
    let mut valid = 0;
    for tag in 0..=255u8 {
        match OpCode::from_u8(tag) {
            Some(op) => {
                valid += 1;
                assert_eq!(op.to_u8(), tag);
            },
            None => assert!(tag > 228 && tag < 253),
        }
    }
    assert_eq!(valid, 232);
    assert_eq!(OpCode::from_u8(0), Some(OpCode::Assert));
    assert_eq!(OpCode::from_u8(255), Some(OpCode::While));
}

#[test]
fn opcode_read_and_write() {
    let mut bytes = Vec::new();
    OpCode::Trace.write_into(&mut bytes);
    OpCode::IfElse.write_into(&mut bytes);
    bytes.push(240);
    let mut reader = SliceReader::new(&bytes);
    assert_eq!(OpCode::read_from(&mut reader), Ok(OpCode::Trace));
    assert_eq!(OpCode::read_from(&mut reader), Ok(OpCode::IfElse));
    assert!(matches!(OpCode::read_from(&mut reader), Err(DeserializationError::InvalidValue(_))));
    assert_eq!(OpCode::read_from(&mut reader), Err(DeserializationError::UnexpectedEOF));
}

#[test]
fn push_params_count() {
    let bytes = [1u8, 16, 0, 17];
    let mut reader = SliceReader::new(&bytes);
    assert_eq!(parse_num_push_params(&mut reader), Ok(1));
    assert_eq!(parse_num_push_params(&mut reader), Ok(MAX_PUSH_INPUTS));
    assert!(matches!(parse_num_push_params(&mut reader), Err(DeserializationError::InvalidValue(_))));
    assert!(matches!(parse_num_push_params(&mut reader), Err(DeserializationError::InvalidValue(_))));
    assert_eq!(parse_num_push_params(&mut reader), Err(DeserializationError::UnexpectedEOF));
    assert_eq!(reader.position(), 4);
}

#[test]
fn identifiers() {
    assert!(validate_ident("foo_bar").is_ok());
    assert!(validate_ident("foo::bar!").is_ok());
    assert!(validate_ident("añb").is_ok());
    assert!(matches!(validate_ident(""), Err(IdentError::Empty)));
    match validate_ident("foo bar") {
        Err(IdentError::InvalidChars { ident }) => assert_eq!(ident, "foo bar"),
        other => panic!("unexpected {other:?}"),
    }
    assert!(matches!(validate_ident("tab\there"), Err(IdentError::InvalidChars { .. })));
}

#[test]
fn module_imports_record_valid_names() {
    let mut info = ModuleImportInfo::new(String::from("std::math::u64"));
    info.add_procedure("add");
    info.add_procedure("not valid");
    info.add_procedure("");
    info.add_procedure("mul");
    assert_eq!(info.path, "std::math::u64");
    assert_eq!(info.imported_procs(), &vec![String::from("add"), String::from("mul")]);
}

#[test]
fn system_event_text() {
    assert_eq!(SystemEventNode::PushMapValN.as_str(), "push_mapvaln");
    assert_eq!(SystemEventNode::InsertHdwordWithDomain.as_str(), "insert_hdword_d");
}
