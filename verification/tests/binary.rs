use miden_assembly::ast::binary::{read_digest, read_felt, read_instruction, write_instruction};
use miden_assembly::ast::encoding::{DeserializationError, OpCode, SliceReader};
use miden_assembly::ast::{Instruction, InvocationTarget};
use miden_assembly::felt::{Felt, MODULUS};
use miden_assembly::instruction::compile::procref_mast_root;
use miden_assembly::ops::Operation as O;
use miden_assembly::procedure::RpoDigest;
use miden_assembly::span_builder::SpanBuilder;

fn felt(v: u64) -> Felt {
    Felt { value: v }
}

fn bytes_of(inst: &Instruction) -> Vec<u8> {
    let mut out = Vec::new();
    assert!(write_instruction(inst, &mut out));
    out
}

fn read_back(bytes: &[u8]) -> Result<Instruction, DeserializationError> {
    let mut reader = SliceReader::new(bytes);
    let r = read_instruction(&mut reader);
    if r.is_ok() {
        assert_eq!(reader.position(), bytes.len());
    }
    r
}

#[test]
fn instruction_without_immediates() {
    let bytes = bytes_of(&Instruction::Add);
    assert_eq!(bytes, vec![OpCode::Add.to_u8()]);
    assert!(matches!(read_back(&bytes), Ok(Instruction::Add)));
}

#[test]
fn error_code_is_four_bytes_least_significant_first() {
    let bytes = bytes_of(&Instruction::AssertWithError(0x0102_0304));
    assert_eq!(bytes, vec![OpCode::AssertWithError.to_u8(), 4, 3, 2, 1]);
    assert!(matches!(read_back(&bytes), Ok(Instruction::AssertWithError(0x0102_0304))));
}

#[test]
fn field_element_is_eight_bytes() {
    let bytes = bytes_of(&Instruction::AddImm(felt(258)));
    assert_eq!(bytes, vec![OpCode::AddImm.to_u8(), 2, 1, 0, 0, 0, 0, 0, 0]);
    match read_back(&bytes) {
        Ok(Instruction::AddImm(f)) => assert_eq!(f.value, 258),
        other => panic!("unexpected {:?}", other),
    }
}

#[test]
fn push_is_written_as_push_felt() {
    let bytes = bytes_of(&Instruction::Push(felt(7)));
    assert_eq!(bytes[0], OpCode::PushFelt.to_u8());
    match read_back(&bytes) {
        Ok(Instruction::PushFelt(f)) => assert_eq!(f.value, 7),
        other => panic!("unexpected {:?}", other),
    }
}

#[test]
fn lists_hold_their_count() {
    let bytes = bytes_of(&Instruction::PushU16List(vec![1, 0x0203]));
    assert_eq!(bytes, vec![OpCode::PushU16List.to_u8(), 2, 1, 0, 3, 2]);
    match read_back(&bytes) {
        Ok(Instruction::PushU16List(v)) => assert_eq!(v, vec![1, 0x0203]),
        other => panic!("unexpected {:?}", other),
    }
    let bytes = bytes_of(&Instruction::PushFeltList(vec![felt(1), felt(2), felt(3)]));
    assert_eq!(bytes.len(), 2 + 3 * 8);
    match read_back(&bytes) {
        Ok(Instruction::PushFeltList(v)) => assert_eq!(v, vec![felt(1), felt(2), felt(3)]),
        other => panic!("unexpected {:?}", other),
    }
    let bytes = bytes_of(&Instruction::PushU8List(vec![9, 8]));
    assert_eq!(bytes, vec![OpCode::PushU8List.to_u8(), 2, 9, 8]);
}

#[test]
fn word_and_mast_root_roundtrip() {
    let bytes = bytes_of(&Instruction::PushWord([felt(1), felt(2), felt(3), felt(4)]));
    assert_eq!(bytes.len(), 33);
    match read_back(&bytes) {
        Ok(Instruction::PushWord(w)) => assert_eq!(w, [felt(1), felt(2), felt(3), felt(4)]),
        other => panic!("unexpected {:?}", other),
    }
    let root = RpoDigest { e0: 5, e1: 6, e2: 7, e3: 8 };
    let bytes = bytes_of(&Instruction::Call(InvocationTarget::MastRoot(root)));
    assert_eq!(bytes[0], OpCode::CallMastRoot.to_u8());
    assert_eq!(bytes.len(), 33);
    match read_back(&bytes) {
        Ok(Instruction::Call(InvocationTarget::MastRoot(d))) => assert_eq!(d, root),
        other => panic!("unexpected {:?}", other),
    }
}

#[test]
fn instructions_without_binary_form_write_nothing() {
    let mut out = vec![1u8];
    assert!(!write_instruction(&Instruction::Breakpoint, &mut out));
    assert!(!write_instruction(&Instruction::Exec(InvocationTarget::ProcedureName(String::from("foo"))), &mut out));
    assert_eq!(out, vec![1u8]);
}

#[test]
fn reading_past_the_end() {
    assert_eq!(read_back(&[]).unwrap_err(), DeserializationError::UnexpectedEOF);
    let bytes = bytes_of(&Instruction::AssertWithError(1));
    assert!(read_back(&bytes[..3]).is_err());
}

#[test]
fn reading_an_unknown_operation_code() {
    assert!(matches!(read_back(&[250]), Err(DeserializationError::InvalidValue(_))));
}

#[test]
fn reading_an_invalid_list_count() {
    let bytes = vec![OpCode::PushU8List.to_u8(), 0];
    assert_eq!(
        read_back(&bytes).unwrap_err(),
        DeserializationError::InvalidValue(String::from("invalid push values argument"))
    );
    let bytes = vec![OpCode::PushU8List.to_u8(), 17];
    assert!(read_back(&bytes).is_err());
}

#[test]
fn reading_a_field_element_out_of_range() {
    let mut bytes = vec![OpCode::AddImm.to_u8()];
    bytes.extend_from_slice(&MODULUS.to_le_bytes());
    let msg = format!("invalid field element: value {} is greater than or equal to the field modulus", MODULUS);
    assert_eq!(read_back(&bytes).unwrap_err(), DeserializationError::InvalidValue(msg));
    let raw = MODULUS.to_le_bytes();
    let mut reader = SliceReader::new(&raw);
    assert!(read_felt(&mut reader).is_err());
    let mut root = Vec::new();
    for v in [1u64, 2, MODULUS, 4] {
        root.extend_from_slice(&v.to_le_bytes());
    }
    let mut reader = SliceReader::new(&root);
    assert!(read_digest(&mut reader).is_err());
}

#[test]
fn instructions_read_in_sequence() {
    let mut bytes = bytes_of(&Instruction::Add);
    bytes.extend(bytes_of(&Instruction::U32WrappingAddImm(5)));
    let mut reader = SliceReader::new(&bytes);
    assert!(matches!(read_instruction(&mut reader), Ok(Instruction::Add)));
    assert!(matches!(read_instruction(&mut reader), Ok(Instruction::U32WrappingAddImm(5))));
    assert!(!reader.has_more_bytes());
}

#[test]
fn procref_pushes_the_root_elements() {
    let mut span = SpanBuilder::new(None);
    procref_mast_root(RpoDigest { e0: 1, e1: 2, e2: 3, e3: 4 }, &mut span);
    let mut blocks = Vec::new();
    span.extract_final_span_into(&mut blocks);
    let ops = blocks.pop().unwrap().ops;
    assert_eq!(ops, vec![O::Push(felt(1)), O::Push(felt(2)), O::Push(felt(3)), O::Push(felt(4))]);
}
