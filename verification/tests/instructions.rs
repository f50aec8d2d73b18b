use miden_assembly::ast::{Instruction, InvocationTarget, InvokeKind};
use miden_assembly::errors::AssemblyError;
use miden_assembly::felt::{Felt, MODULUS};
use miden_assembly::id::{GlobalProcedureIndex, ModuleIndex, ProcedureIndex};
use miden_assembly::instruction::compile::{compile_instruction, compile_instruction_impl, CompiledInstruction};
use miden_assembly::ops::{AdviceInjector, Decorator, Operation as O};
use miden_assembly::procedure::{ProcedureContext, QualifiedProcedureName, RpoDigest, SourceSpan, Visibility};
use miden_assembly::span_builder::{SpanBlock, SpanBuilder};

fn context(num_locals: u16, is_kernel: bool) -> ProcedureContext {
    let gid = GlobalProcedureIndex { module: ModuleIndex(0), index: ProcedureIndex(0) };
    let name = QualifiedProcedureName {
        span: SourceSpan::default(),
        module: String::from("test"),
        name: String::from("proc"),
    };
    let ctx = ProcedureContext::new(gid, name, Visibility::Public, is_kernel);
    if num_locals > 0 {
        ctx.with_num_locals(num_locals)
    } else {
        ctx
    }
}

fn felt(v: u64) -> Felt {
    Felt { value: v }
}

/// Compiles one instruction into a fresh block, and returns the result and the block.
fn compile_with(
    inst: Instruction,
    ctx: &ProcedureContext,
    debug: bool,
) -> (Result<CompiledInstruction, AssemblyError>, Option<SpanBlock>) {
    let mut span = SpanBuilder::new(None);
    let text = String::from("inst");
    let r = compile_instruction(&mut span, ctx, &inst, debug, &text);
    let mut blocks = Vec::new();
    span.extract_final_span_into(&mut blocks);
    (r, blocks.pop())
}

fn ops_of(inst: Instruction) -> Vec<O> {
    let ctx = context(4, false);
    let (r, block) = compile_with(inst, &ctx, false);
    assert!(matches!(r, Ok(CompiledInstruction::Inline)));
    block.map(|b| b.ops).unwrap_or_default()
}

fn error_of(inst: Instruction, ctx: &ProcedureContext) -> AssemblyError {
    let mut span = SpanBuilder::new(None);
    let text = String::from("inst");
    let r = compile_instruction_impl(&mut span, ctx, &inst, false, &text);
    let mut blocks = Vec::new();
    span.extract_final_span_into(&mut blocks);
    assert!(blocks.is_empty(), "a failed instruction leaves the block unchanged");
    r.unwrap_err()
}

#[test]
fn simple_instructions() {
    assert_eq!(ops_of(Instruction::Nop), vec![O::Noop]);
    assert_eq!(ops_of(Instruction::Assert), vec![O::Assert(0)]);
    assert_eq!(ops_of(Instruction::AssertEqWithError(7)), vec![O::Eq, O::Assert(7)]);
    assert_eq!(ops_of(Instruction::Sub), vec![O::Neg, O::Add]);
    assert_eq!(ops_of(Instruction::Xor), vec![O::Dup0, O::Dup2, O::Or, O::MovDn2, O::And, O::Not, O::And]);
    assert_eq!(ops_of(Instruction::U32Or), vec![O::Dup1, O::Dup1, O::U32and, O::Neg, O::Add, O::Add]);
    assert_eq!(ops_of(Instruction::Dup8), vec![O::Pad, O::Dup9, O::Add]);
    assert_eq!(ops_of(Instruction::Swap9), vec![O::MovDn8, O::SwapDW, O::Swap, O::SwapDW, O::MovUp8]);
    assert_eq!(ops_of(Instruction::MovDnW3), vec![O::SwapW3, O::SwapW2, O::SwapW]);
    assert_eq!(ops_of(Instruction::CDropW), vec![O::CSwapW, O::Drop, O::Drop, O::Drop, O::Drop]);
    assert_eq!(ops_of(Instruction::MemStore), vec![O::MStore, O::Drop]);
    assert_eq!(ops_of(Instruction::IsOdd), vec![O::U32split, O::Drop, O::Pad, O::Incr, O::U32and]);
}

#[test]
fn immediate_arithmetic() {
    assert_eq!(ops_of(Instruction::AddImm(felt(0))), vec![O::Noop]);
    assert_eq!(ops_of(Instruction::AddImm(felt(2))), vec![O::Incr, O::Incr]);
    assert_eq!(ops_of(Instruction::AddImm(felt(5))), vec![O::Push(felt(5)), O::Add]);
    assert_eq!(ops_of(Instruction::EqImm(felt(0))), vec![O::Eqz]);
    assert_eq!(ops_of(Instruction::EqImm(felt(3))), vec![O::Push(felt(3)), O::Eq]);
    assert_eq!(ops_of(Instruction::U32WrappingAddImm(1)), vec![O::Pad, O::Incr, O::U32add, O::Drop]);
    assert_eq!(ops_of(Instruction::U32OverflowingSubImm(9)), vec![O::Push(felt(9)), O::U32sub]);
    assert_eq!(ops_of(Instruction::U32DivImm(5)), vec![O::Push(felt(5)), O::U32div, O::Drop]);
    assert_eq!(ops_of(Instruction::U32ModImm(1)), vec![O::Pad, O::Incr, O::U32div, O::Swap, O::Drop]);
    assert_eq!(ops_of(Instruction::U32DivMod), vec![O::U32div]);
}

#[test]
fn div_by_immediate_multiplies_by_inverse() {
    assert_eq!(ops_of(Instruction::DivImm(felt(1))), vec![O::Noop]);
    for v in [2u64, 3, 7, 1 << 40, MODULUS - 1] {
        let ops = ops_of(Instruction::DivImm(felt(v)));
        assert_eq!(ops.len(), 2);
        assert_eq!(ops[1], O::Mul);
        match ops[0] {
            O::Push(inv) => {
                assert!(inv.value < MODULUS);
                let product = (v as u128 * inv.value as u128) % MODULUS as u128;
                assert_eq!(product, 1, "the pushed value is the inverse of {v}");
            },
            other => panic!("expected a push, got {other:?}"),
        }
    }
}

#[test]
fn exponentiation() {
    assert_eq!(ops_of(Instruction::ExpImm(felt(0))), vec![O::Drop, O::Pad, O::Incr]);
    assert_eq!(ops_of(Instruction::ExpImm(felt(1))), vec![O::Noop]);
    assert_eq!(ops_of(Instruction::ExpImm(felt(3))), vec![O::Dup0, O::Dup0, O::Mul, O::Mul]);
    // 2 * (pow - 1) cycles up to 7
    assert_eq!(ops_of(Instruction::ExpImm(felt(7))).len(), 12);
    // beyond 7: a push, then 9 cycles plus one per bit of the exponent
    let ops = ops_of(Instruction::ExpImm(felt(8)));
    assert_eq!(ops.len(), 10 + 4);
    assert_eq!(ops[0], O::Push(felt(8)));
    assert_eq!(ops_of(Instruction::ExpBitLength(32)).len(), 9 + 32);
    assert_eq!(ops_of(Instruction::Exp).len(), 9 + 64);
}

#[test]
fn u32_bitwise() {
    assert_eq!(ops_of(Instruction::U32ShlImm(0)), vec![O::Noop]);
    assert_eq!(ops_of(Instruction::U32ShlImm(3)), vec![O::Push(felt(8)), O::U32mul, O::Drop]);
    assert_eq!(ops_of(Instruction::U32ShrImm(31)), vec![O::Push(felt(1 << 31)), O::U32div, O::Drop]);
    assert_eq!(ops_of(Instruction::U32Shl).len(), 18);
    assert_eq!(ops_of(Instruction::U32RotlImm(4)), vec![O::Push(felt(16)), O::U32mul, O::Add]);
    assert_eq!(ops_of(Instruction::U32Rotr).len(), 22);
    assert_eq!(ops_of(Instruction::U32Popcnt).len(), 33);
    assert_eq!(ops_of(Instruction::U32Not).len(), 5);
    assert_eq!(ops_of(Instruction::U32Min).len(), 8);
    assert_eq!(ops_of(Instruction::U32Max).len(), 9);
}

#[test]
fn advice_decorated_instructions() {
    let ctx = context(0, false);
    let (r, block) = compile_with(Instruction::U32Clz, &ctx, false);
    assert!(r.is_ok());
    let block = block.unwrap();
    assert_eq!(block.ops.len(), 37);
    assert_eq!(block.ops[0], O::AdvPop);
    assert!(matches!(block.decorators[0], (0, Decorator::Advice(AdviceInjector::U32Clz))));
    let (_, block) = compile_with(Instruction::ILog2, &ctx, false);
    assert_eq!(block.unwrap().ops.len(), 44);
    let (_, block) = compile_with(Instruction::MTreeSet, &ctx, false);
    assert_eq!(block.unwrap().ops.len(), 29);
    let (_, block) = compile_with(Instruction::Ext2Div, &ctx, false);
    assert_eq!(block.unwrap().ops.len(), 11);
}

#[test]
fn pushes() {
    assert_eq!(ops_of(Instruction::PushU8(0)), vec![O::Pad]);
    assert_eq!(ops_of(Instruction::PushU16(1)), vec![O::Pad, O::Incr]);
    assert_eq!(ops_of(Instruction::PushU32(70000)), vec![O::Push(felt(70000))]);
    assert_eq!(
        ops_of(Instruction::PushU8List(vec![0, 1, 2])),
        vec![O::Pad, O::Pad, O::Incr, O::Push(felt(2))]
    );
    assert_eq!(
        ops_of(Instruction::PushWord([felt(3), felt(4), felt(0), felt(9)])),
        vec![O::Push(felt(3)), O::Push(felt(4)), O::Pad, O::Push(felt(9))]
    );
}

#[test]
fn memory_access() {
    assert_eq!(ops_of(Instruction::MemLoad), vec![O::MLoad]);
    // mem_load.b and mem_store.b take 2 cycles, for every address
    assert_eq!(ops_of(Instruction::MemLoadImm(1)), vec![O::Push(felt(1)), O::MLoad]);
    assert_eq!(ops_of(Instruction::MemStoreImm(0)), vec![O::Pad, O::MStore]);
    assert_eq!(ops_of(Instruction::MemStoreWImm(100)), vec![O::Push(felt(100)), O::MStoreW]);
    // the procedure has 4 locals: local 3 is at offset 0, local 0 at offset -3
    assert_eq!(ops_of(Instruction::LocLoad(3)), vec![O::Pad, O::FmpAdd, O::MLoad]);
    assert_eq!(ops_of(Instruction::LocStore(0)), vec![O::Push(felt(MODULUS - 3)), O::FmpAdd, O::MStore]);
    assert_eq!(ops_of(Instruction::Locaddr(2)), vec![O::Push(felt(MODULUS - 1)), O::FmpAdd]);
    // index 1 takes 3 cycles: the offset of local 0, incremented
    assert_eq!(ops_of(Instruction::Locaddr(1)), vec![O::Push(felt(MODULUS - 3)), O::Incr, O::FmpAdd]);
    assert_eq!(ops_of(Instruction::LocLoadW(1)), vec![O::Push(felt(MODULUS - 3)), O::Incr, O::FmpAdd, O::MLoadW]);
}

#[test]
fn instruction_errors() {
    let ctx = context(4, false);
    assert_eq!(error_of(Instruction::DivImm(felt(0)), &ctx), AssemblyError::DivisionByZero);
    assert_eq!(error_of(Instruction::U32DivModImm(0), &ctx), AssemblyError::DivisionByZero);
    assert_eq!(
        error_of(Instruction::ExpBitLength(65), &ctx),
        AssemblyError::InvalidParameter { value: 65, min: 0, max: 64 }
    );
    assert_eq!(
        error_of(Instruction::U32ShlImm(32), &ctx),
        AssemblyError::InvalidParameter { value: 32, min: 1, max: 31 }
    );
    assert_eq!(
        error_of(Instruction::U32RotrImm(40), &ctx),
        AssemblyError::InvalidParameter { value: 40, min: 1, max: 31 }
    );
    assert_eq!(
        error_of(Instruction::AdvPush(0), &ctx),
        AssemblyError::InvalidParameter { value: 0, min: 1, max: 16 }
    );
    assert_eq!(
        error_of(Instruction::AdvPush(17), &ctx),
        AssemblyError::InvalidParameter { value: 17, min: 1, max: 16 }
    );
    assert_eq!(
        error_of(Instruction::LocLoadW(4), &ctx),
        AssemblyError::InvalidParameter { value: 4, min: 0, max: 3 }
    );
    assert_eq!(error_of(Instruction::Caller, &ctx), AssemblyError::CallerOutsideOfKernel);
}

#[test]
fn caller_in_kernel() {
    let ctx = context(0, true);
    let (r, block) = compile_with(Instruction::Caller, &ctx, false);
    assert!(r.is_ok());
    assert_eq!(block.unwrap().ops, vec![O::Caller]);
}

#[test]
fn invocations_are_left_to_the_assembler() {
    let ctx = context(0, false);
    let target = InvocationTarget::ProcedureName(String::from("foo"));
    let (r, block) = compile_with(Instruction::Exec(target), &ctx, false);
    match r.unwrap() {
        CompiledInstruction::Invoke(InvokeKind::Exec, InvocationTarget::ProcedureName(name)) => assert_eq!(name, "foo"),
        other => panic!("unexpected {other:?}"),
    }
    assert!(block.is_none());
    let root = RpoDigest { e0: 1, e1: 2, e2: 3, e3: 4 };
    let (r, _) = compile_with(Instruction::SysCall(InvocationTarget::MastRoot(root)), &ctx, false);
    assert!(matches!(r.unwrap(), CompiledInstruction::Invoke(InvokeKind::SysCall, InvocationTarget::MastRoot(r)) if r == root));
    let (r, _) = compile_with(Instruction::DynCall, &ctx, false);
    assert!(matches!(r.unwrap(), CompiledInstruction::DynCall));
}

#[test]
fn debug_mode_tracks_cycle_counts() {
    let ctx = context(0, false);
    let (r, block) = compile_with(Instruction::U32Popcnt, &ctx, true);
    assert!(r.is_ok());
    let block = block.unwrap();
    assert_eq!(block.ops.len(), 33);
    match &block.decorators[0] {
        (0, Decorator::AsmOp(op)) => {
            assert_eq!(op.op, "inst");
            assert_eq!(op.num_cycles, 33);
        },
        other => panic!("unexpected {other:?}"),
    }
    // without debug mode, no decorator is added
    let (_, block) = compile_with(Instruction::U32Popcnt, &ctx, false);
    assert!(block.unwrap().decorators.is_empty());
}

#[test]
fn debug_instructions() {
    let ctx = context(0, false);
    let (_, block) = compile_with(Instruction::Breakpoint, &ctx, false);
    assert!(block.is_none());
    let (_, block) = compile_with(Instruction::Breakpoint, &ctx, true);
    assert_eq!(block.unwrap().ops, vec![O::Noop]);
    let mut span = SpanBuilder::new(None);
    compile_instruction_impl(&mut span, &ctx, &Instruction::Trace(5), false, &String::new()).unwrap();
    span.push_op(O::Add);
    let mut blocks = Vec::new();
    span.extract_final_span_into(&mut blocks);
    assert!(matches!(blocks[0].decorators[0], (0, Decorator::Trace(5))));
}
