use miden_assembly::ast::text::instruction_text;
use miden_assembly::ast::{Instruction, InvocationTarget};
use miden_assembly::felt::Felt;
use miden_assembly::ops::{AdviceInjector, DebugOptions};
use miden_assembly::procedure::RpoDigest;

fn felt(v: u64) -> Felt {
    Felt { value: v }
}

#[test]
fn print_test_instruction_display() {
    assert_eq!("assert", instruction_text(&Instruction::Assert));
    assert_eq!("add", instruction_text(&Instruction::Add));
    assert_eq!("add.5", instruction_text(&Instruction::AddImm(Felt::new(5))));
    assert_eq!("exp.u32", instruction_text(&Instruction::ExpBitLength(32)));
    assert_eq!(
        "push.3.4.8.9",
        instruction_text(&Instruction::PushFeltList(vec![Felt::new(3), Felt::new(4), Felt::new(8), Felt::new(9)]))
    );
    // The MAST root of `std::math::u64::add`, by its four elements.
    let root = RpoDigest { e0: 0x281b06416992b390, e1: 0xcb3bdbbbc06c8b63, e2: 0x4480abc94d835e33, e3: 0xfed2025205750825 };
    let target = InvocationTarget::MastRoot(root);
    assert_eq!(
        "exec.0x90b3926941061b28638b6cc0bbdb3bcb335e834dc9ab8044250875055202d2fe",
        instruction_text(&Instruction::Exec(target))
    );
}

#[test]
fn error_codes_and_immediates() {
    assert_eq!("assert.err=17", instruction_text(&Instruction::AssertWithError(17)));
    assert_eq!("u32wrapping_add.4294967295", instruction_text(&Instruction::U32WrappingAddImm(u32::MAX)));
    assert_eq!("add.1", instruction_text(&Instruction::Incr));
    assert_eq!("push.0", instruction_text(&Instruction::Push(felt(0))));
    assert_eq!("push.12", instruction_text(&Instruction::PushFelt(felt(12))));
    assert_eq!("loc_store.3", instruction_text(&Instruction::LocStore(3)));
    assert_eq!("push.1.2.3.4", instruction_text(&Instruction::PushWord([felt(1), felt(2), felt(3), felt(4)])));
    assert_eq!("push.255.0", instruction_text(&Instruction::PushU8List(vec![255, 0])));
    assert_eq!("emit.7", instruction_text(&Instruction::Emit(7)));
    assert_eq!("nop", instruction_text(&Instruction::Nop));
}

#[test]
fn invocation_targets() {
    let local = InvocationTarget::ProcedureName(String::from("foo"));
    assert_eq!("call.foo", instruction_text(&Instruction::Call(local)));
    let imported = InvocationTarget::ProcedurePath { name: String::from("add"), module: String::from("u64") };
    assert_eq!("exec.u64::add", instruction_text(&Instruction::Exec(imported)));
    let absolute =
        InvocationTarget::AbsoluteProcedurePath { name: String::from("add"), path: String::from("std::math::u64") };
    assert_eq!("syscall.::std::math::u64::add", instruction_text(&Instruction::SysCall(absolute)));
    let root = RpoDigest { e0: 1, e1: 0, e2: 0, e3: 0x0102 };
    assert_eq!(
        "call.0x0100000000000000000000000000000000000000000000000201000000000000",
        instruction_text(&Instruction::Call(InvocationTarget::MastRoot(root)))
    );
    let named = InvocationTarget::ProcedureName(String::from("bar"));
    assert_eq!("procref.bar", instruction_text(&Instruction::ProcRef(named)));
}

#[test]
fn decorator_options() {
    assert_eq!("debug.stack", instruction_text(&Instruction::Debug(DebugOptions::StackAll)));
    assert_eq!("debug.mem.1.5", instruction_text(&Instruction::Debug(DebugOptions::MemInterval(1, 5))));
    assert_eq!("debug.local.0.3", instruction_text(&Instruction::Debug(DebugOptions::LocalInterval(0, 3, 4))));
    let inj = AdviceInjector::MapValueToStack { include_len: true, key_offset: 2 };
    assert_eq!("adv.push_mapvaln.2", instruction_text(&Instruction::AdvInject(inj)));
    assert_eq!("adv.push_u64div", instruction_text(&Instruction::AdvInject(AdviceInjector::U64Div)));
}

#[test]
fn mod_test_instruction_display() {
    assert_eq!("assert", instruction_text(&Instruction::Assert));
    assert_eq!("add", instruction_text(&Instruction::Add));
    assert_eq!("add.5", instruction_text(&Instruction::AddImm(Felt::new(5))));
    assert_eq!("exp.u32", instruction_text(&Instruction::ExpBitLength(32)));
    assert_eq!(
        "push.3.4.8.9",
        instruction_text(&Instruction::PushFeltList(vec![Felt::new(3), Felt::new(4), Felt::new(8), Felt::new(9)]))
    );
}
