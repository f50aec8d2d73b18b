//! Compilation of a single instruction into the operations and decorators of a basic block.

use vstd::prelude::*;

use crate::ast::{Instruction, InvocationTarget, InvokeKind};
use crate::ast::Instruction as I;
use crate::errors::AssemblyError;
use crate::felt::{Felt, MODULUS};
use crate::instruction::crypto_ops::{self, hash_ops, hmerge_ops, mtree_get_ops, update_mtree_ops};
use crate::instruction::env_ops::{self, push_many_ops, ADVICE_READ_LIMIT};
use crate::instruction::ext2_ops::{
    self, ext2_add_ops, ext2_div_ops, ext2_inv_ops, ext2_mul_ops, ext2_neg_ops, ext2_sub_ops,
};
use crate::instruction::field_ops::{
    self, add_imm_ops, assertw_ops, check_gt_high_bits_ops, check_lt_high_bits_ops, check_lt_ops,
    check_lte_ops, eq_imm_ops, eqw_ops, exp_imm_ops, exp_ops, ilog2_ops, mul_imm_ops,
    neq_imm_ops, pow2_ops, set_result_ops, split_elements_ops, sub_imm_ops, MAX_EXP_BITS,
};
use crate::instruction::mem_ops::{self, address_ops, local_addr_ops};
use crate::instruction::u32_ops::{
    self, arithmetic_ops, bitwise_ops, clo_ops, clz_ops, compute_lt_ops, cto_ops, ctz_ops,
    division_ops, max_and_min_ops, u32assertw_ops, u32not_ops, u32popcnt_ops, u32rotr_ops,
    u32testw_ops, U32OpMode, MAX_U32_ROTATE_VALUE, MAX_U32_SHIFT_VALUE,
};
use crate::instruction::{appends, appends_decorated, push_felt_ops};
use crate::ops::{AdviceInjector, Decorator, Operation as O};
use crate::procedure::{ProcedureContext, RpoDigest};
use crate::span_builder::SpanBuilder;

verus! {

/// What remains to be done for an instruction once its operations are in the block: nothing for
/// an inline instruction, or the invocation that the assembler resolves against the procedures
/// it knows.
#[derive(Debug, Clone)]
pub enum CompiledInstruction {
    /// The instruction was entirely lowered into operations and decorators.
    Inline,
    /// An `exec`, `call` or `syscall` of the target.
    Invoke(InvokeKind, InvocationTarget),
    /// A dynamic `exec` of the procedure whose root is on the stack.
    DynExec,
    /// A dynamic `call` of the procedure whose root is on the stack.
    DynCall,
    /// Pushes the MAST root of the target onto the stack.
    ProcRef(InvocationTarget),
}

/// What remains to be done for `inst` once its operations are in the block.
pub open spec fn compiled_kind(inst: Instruction) -> CompiledInstruction {
    match inst {
        Instruction::Exec(t) => CompiledInstruction::Invoke(InvokeKind::Exec, t),
        Instruction::Call(t) => CompiledInstruction::Invoke(InvokeKind::Call, t),
        Instruction::SysCall(t) => CompiledInstruction::Invoke(InvokeKind::SysCall, t),
        Instruction::DynExec => CompiledInstruction::DynExec,
        Instruction::DynCall => CompiledInstruction::DynCall,
        Instruction::ProcRef(t) => CompiledInstruction::ProcRef(t),
        _ => CompiledInstruction::Inline,
    }
}

/// The error raised for an immediate outside the range `min..=max`.
pub open spec fn out_of_range(value: u64, min: u64, max: u64) -> AssemblyError {
    AssemblyError::InvalidParameter { value, min, max }
}

/// The error that compiling `inst` raises in a procedure with `num_locals` locals, kernel or
/// not, if any.
pub open spec fn instruction_error(inst: Instruction, num_locals: u16, is_kernel: bool) -> Option<AssemblyError> {
    match inst {
        Instruction::DivImm(imm) => if imm.value == 0 {
            Some(AssemblyError::DivisionByZero)
        } else {
            None
        },
        Instruction::ExpBitLength(n) => if n > MAX_EXP_BITS {
            Some(out_of_range(n as u64, 0, MAX_EXP_BITS as u64))
        } else {
            None
        },
        Instruction::U32DivImm(v) | Instruction::U32ModImm(v) | Instruction::U32DivModImm(v) =>
            if v == 0 {
            Some(AssemblyError::DivisionByZero)
        } else {
            None
        },
        Instruction::U32ShrImm(v) | Instruction::U32ShlImm(v) => if v > MAX_U32_SHIFT_VALUE {
            Some(out_of_range(v as u64, 1, MAX_U32_SHIFT_VALUE as u64))
        } else {
            None
        },
        Instruction::U32RotrImm(v) | Instruction::U32RotlImm(v) => if v > MAX_U32_ROTATE_VALUE {
            Some(out_of_range(v as u64, 1, MAX_U32_ROTATE_VALUE as u64))
        } else {
            None
        },
        Instruction::Caller => if is_kernel {
            None
        } else {
            Some(AssemblyError::CallerOutsideOfKernel)
        },
        Instruction::AdvPush(n) => if 1 <= n <= ADVICE_READ_LIMIT {
            None
        } else {
            Some(out_of_range(n as u64, 1, ADVICE_READ_LIMIT as u64))
        },
        Instruction::Locaddr(i) | Instruction::LocLoad(i) | Instruction::LocLoadW(i)
        | Instruction::LocStore(i) | Instruction::LocStoreW(i) => if i < num_locals {
            None
        } else {
            Some(out_of_range(i as u64, 0, (num_locals - 1) as u64))
        },
        _ => None,
    }
}

/// The field elements with the values of `s`.
pub open spec fn felts_of_u8(s: Seq<u8>) -> Seq<Felt> {
    s.map_values(|x: u8| Felt { value: x as u64 })
}

/// The field elements with the values of `s`.
pub open spec fn felts_of_u16(s: Seq<u16>) -> Seq<Felt> {
    s.map_values(|x: u16| Felt { value: x as u64 })
}

/// The field elements with the values of `s`.
pub open spec fn felts_of_u32(s: Seq<u32>) -> Seq<Felt> {
    s.map_values(|x: u32| Felt { value: x as u64 })
}

/// The decorator, if any, attached at the current position by `inst`.
pub open spec fn instruction_decorator(inst: Instruction) -> Option<Decorator> {
    match inst {
        Instruction::ILog2 => Some(Decorator::Advice(AdviceInjector::ILog2)),
        Instruction::Ext2Div | Instruction::Ext2Inv => Some(Decorator::Advice(AdviceInjector::Ext2Inv)),
        Instruction::U32Clz => Some(Decorator::Advice(AdviceInjector::U32Clz)),
        Instruction::U32Ctz => Some(Decorator::Advice(AdviceInjector::U32Ctz)),
        Instruction::U32Clo => Some(Decorator::Advice(AdviceInjector::U32Clo)),
        Instruction::U32Cto => Some(Decorator::Advice(AdviceInjector::U32Cto)),
        Instruction::MTreeGet | Instruction::MTreeSet => Some(Decorator::Advice(AdviceInjector::MerkleNodeToStack)),
        Instruction::MTreeMerge => Some(Decorator::Advice(AdviceInjector::MerkleNodeMerge)),
        Instruction::AdvInject(injector) => Some(Decorator::Advice(injector)),
        Instruction::Emit(id) => Some(Decorator::Event(id)),
        Instruction::Trace(id) => Some(Decorator::Trace(id)),
        _ => None,
    }
}

/// The operations that `inst` appends in a procedure with `num_locals` locals, for every
/// instruction but `div.imm` (whose operations hold the inverse of its immediate) and the debug
/// instructions (whose effect depends on the debug mode).
pub open spec fn instruction_ops(inst: Instruction, num_locals: u16) -> Seq<O> {
    match inst {
        Instruction::Nop => seq![O::Noop],
        I::Assert => seq![O::Assert(0)],
        I::AssertWithError(e) => seq![O::Assert(e)],
        I::AssertEq => seq![O::Eq, O::Assert(0)],
        I::AssertEqWithError(e) => seq![O::Eq, O::Assert(e)],
        I::Assertz => seq![O::Eqz, O::Assert(0)],
        I::AssertzWithError(e) => seq![O::Eqz, O::Assert(e)],
        I::Add => seq![O::Add],
        I::Sub => seq![O::Neg, O::Add],
        I::Mul => seq![O::Mul],
        I::Div => seq![O::Inv, O::Mul],
        I::Neg => seq![O::Neg],
        I::Inv => seq![O::Inv],
        I::Incr => seq![O::Incr],
        I::Not => seq![O::Not],
        I::And => seq![O::And],
        I::Or => seq![O::Or],
        I::Xor => seq![O::Dup0, O::Dup2, O::Or, O::MovDn2, O::And, O::Not, O::And],
        I::Eq => seq![O::Eq],
        I::Neq => seq![O::Eq, O::Not],
        I::U32Test => seq![O::Dup0, O::U32split, O::Swap, O::Drop, O::Eqz],
        I::U32Assert => seq![O::Pad, O::U32assert2(0), O::Drop],
        I::U32AssertWithError(e) => seq![O::Pad, O::U32assert2(e), O::Drop],
        I::U32Assert2 => seq![O::U32assert2(0)],
        I::U32Assert2WithError(e) => seq![O::U32assert2(e)],
        I::U32Cast => seq![O::U32split, O::Drop],
        I::U32Split => seq![O::U32split],
        I::U32OverflowingAdd3 => seq![O::U32add3],
        I::U32WrappingAdd3 => seq![O::U32add3, O::Drop],
        I::U32OverflowingMadd => seq![O::U32madd],
        I::U32WrappingMadd => seq![O::U32madd, O::Drop],
        I::U32And => seq![O::U32and],
        I::U32Or => seq![O::Dup1, O::Dup1, O::U32and, O::Neg, O::Add, O::Add],
        I::U32Xor => seq![O::U32xor],
        I::Sdepth => seq![O::SDepth],
        I::Clk => seq![O::Clk],
        I::AdvPipe => seq![O::Pipe],
        I::AdvLoadW => seq![O::AdvPopW],
        I::MemStream => seq![O::MStream],
        I::MemStore => seq![O::MStore, O::Drop],
        I::MemStoreW => seq![O::MStoreW],
        I::HPerm => seq![O::HPerm],
        I::MTreeVerify => seq![O::MpVerify(0)],
        I::MTreeVerifyWithError(e) => seq![O::MpVerify(e)],
        I::FriExt2Fold4 => seq![O::FriE2F4],
        I::RCombBase => seq![O::RCombBase],
        I::AssertEqw => assertw_ops(0),
        I::AssertEqwWithError(e) => assertw_ops(e),
        I::AddImm(imm) => add_imm_ops(imm),
        I::SubImm(imm) => sub_imm_ops(imm),
        I::MulImm(imm) => mul_imm_ops(imm),
        I::Pow2 => pow2_ops(),
        I::Exp => exp_ops(64),
        I::ExpImm(pow) => exp_imm_ops(pow),
        I::ExpBitLength(n) => exp_ops(n),
        I::ILog2 => ilog2_ops(),
        I::EqImm(imm) => eq_imm_ops(imm),
        I::NeqImm(imm) => neq_imm_ops(imm),
        I::Eqw => eqw_ops(),
        I::Lt => split_elements_ops() + check_lt_high_bits_ops() + check_lt_ops() + set_result_ops(),
        I::Lte => split_elements_ops() + check_lt_high_bits_ops() + check_lte_ops() + set_result_ops(),
        I::Gt => split_elements_ops() + check_gt_high_bits_ops() + check_lt_ops() + set_result_ops(),
        I::Gte => split_elements_ops() + check_gt_high_bits_ops() + check_lte_ops() + set_result_ops(),
        I::IsOdd => seq![O::U32split, O::Drop, O::Pad, O::Incr, O::U32and],
        I::Ext2Add => ext2_add_ops(),
        I::Ext2Sub => ext2_sub_ops(),
        I::Ext2Mul => ext2_mul_ops(),
        I::Ext2Div => ext2_div_ops(),
        I::Ext2Neg => ext2_neg_ops(),
        I::Ext2Inv => ext2_inv_ops(),
        I::U32TestW => u32testw_ops(),
        I::U32AssertW => u32assertw_ops(0),
        I::U32AssertWWithError(e) => u32assertw_ops(e),
        I::U32WrappingAdd => arithmetic_ops(O::U32add, U32OpMode::Wrapping, None),
        I::U32WrappingAddImm(v) => arithmetic_ops(O::U32add, U32OpMode::Wrapping, Some(v)),
        I::U32OverflowingAdd => arithmetic_ops(O::U32add, U32OpMode::Overflowing, None),
        I::U32OverflowingAddImm(v) => arithmetic_ops(O::U32add, U32OpMode::Overflowing, Some(v)),
        I::U32WrappingSub => arithmetic_ops(O::U32sub, U32OpMode::Wrapping, None),
        I::U32WrappingSubImm(v) => arithmetic_ops(O::U32sub, U32OpMode::Wrapping, Some(v)),
        I::U32OverflowingSub => arithmetic_ops(O::U32sub, U32OpMode::Overflowing, None),
        I::U32OverflowingSubImm(v) => arithmetic_ops(O::U32sub, U32OpMode::Overflowing, Some(v)),
        I::U32WrappingMul => arithmetic_ops(O::U32mul, U32OpMode::Wrapping, None),
        I::U32WrappingMulImm(v) => arithmetic_ops(O::U32mul, U32OpMode::Wrapping, Some(v)),
        I::U32OverflowingMul => arithmetic_ops(O::U32mul, U32OpMode::Overflowing, None),
        I::U32OverflowingMulImm(v) => arithmetic_ops(O::U32mul, U32OpMode::Overflowing, Some(v)),
        I::U32Div => division_ops(None) + seq![O::Drop],
        I::U32DivImm(v) => division_ops(Some(v)) + seq![O::Drop],
        I::U32Mod => division_ops(None) + seq![O::Swap, O::Drop],
        I::U32ModImm(v) => division_ops(Some(v)) + seq![O::Swap, O::Drop],
        I::U32DivMod => division_ops(None),
        I::U32DivModImm(v) => division_ops(Some(v)),
        I::U32Not => u32not_ops(),
        I::U32Shl => bitwise_ops(None, seq![O::U32mul, O::Drop]),
        I::U32ShlImm(v) => bitwise_ops(Some(v), seq![O::U32mul, O::Drop]),
        I::U32Shr => bitwise_ops(None, seq![O::U32div, O::Drop]),
        I::U32ShrImm(v) => bitwise_ops(Some(v), seq![O::U32div, O::Drop]),
        I::U32Rotl => bitwise_ops(None, seq![O::U32mul, O::Add]),
        I::U32RotlImm(v) => bitwise_ops(Some(v), seq![O::U32mul, O::Add]),
        I::U32Rotr => u32rotr_ops(None),
        I::U32RotrImm(v) => u32rotr_ops(Some(v)),
        I::U32Popcnt => u32popcnt_ops(),
        I::U32Clz => seq![O::AdvPop] + clz_ops(),
        I::U32Ctz => seq![O::AdvPop] + ctz_ops(),
        I::U32Clo => seq![O::AdvPop] + clo_ops(),
        I::U32Cto => seq![O::AdvPop] + cto_ops(),
        I::U32Lt => compute_lt_ops(),
        I::U32Lte => seq![O::Swap] + compute_lt_ops() + seq![O::Not],
        I::U32Gt => seq![O::Swap] + compute_lt_ops(),
        I::U32Gte => compute_lt_ops() + seq![O::Not],
        I::U32Min => max_and_min_ops() + seq![O::Drop],
        I::U32Max => max_and_min_ops() + seq![O::Swap, O::Drop],
        I::Drop => seq![O::Drop],
        I::DropW => seq![O::Drop, O::Drop, O::Drop, O::Drop],
        I::PadW => seq![O::Pad, O::Pad, O::Pad, O::Pad],
        I::Dup0 => seq![O::Dup0],
        I::Dup1 => seq![O::Dup1],
        I::Dup2 => seq![O::Dup2],
        I::Dup3 => seq![O::Dup3],
        I::Dup4 => seq![O::Dup4],
        I::Dup5 => seq![O::Dup5],
        I::Dup6 => seq![O::Dup6],
        I::Dup7 => seq![O::Dup7],
        I::Dup8 => seq![O::Pad, O::Dup9, O::Add],
        I::Dup9 => seq![O::Dup9],
        I::Dup10 => seq![O::Pad, O::Dup11, O::Add],
        I::Dup11 => seq![O::Dup11],
        I::Dup12 => seq![O::Pad, O::Dup13, O::Add],
        I::Dup13 => seq![O::Dup13],
        I::Dup14 => seq![O::Pad, O::Dup15, O::Add],
        I::Dup15 => seq![O::Dup15],
        I::DupW0 => seq![O::Dup3, O::Dup3, O::Dup3, O::Dup3],
        I::DupW1 => seq![O::Dup7, O::Dup7, O::Dup7, O::Dup7],
        I::DupW2 => seq![O::Dup11, O::Dup11, O::Dup11, O::Dup11],
        I::DupW3 => seq![O::Dup15, O::Dup15, O::Dup15, O::Dup15],
        I::Swap1 => seq![O::Swap],
        I::Swap2 => seq![O::Swap, O::MovUp2],
        I::Swap3 => seq![O::MovDn2, O::MovUp3],
        I::Swap4 => seq![O::MovDn3, O::MovUp4],
        I::Swap5 => seq![O::MovDn4, O::MovUp5],
        I::Swap6 => seq![O::MovDn5, O::MovUp6],
        I::Swap7 => seq![O::MovDn6, O::MovUp7],
        I::Swap8 => seq![O::MovDn7, O::MovUp8],
        I::Swap9 => seq![O::MovDn8, O::SwapDW, O::Swap, O::SwapDW, O::MovUp8],
        I::Swap10 => seq![O::MovDn8, O::SwapDW, O::Swap, O::MovUp2, O::SwapDW, O::MovUp8],
        I::Swap11 => seq![O::MovDn8, O::SwapDW, O::MovDn2, O::MovUp3, O::SwapDW, O::MovUp8],
        I::Swap12 => seq![O::MovDn8, O::SwapDW, O::MovDn3, O::MovUp4, O::SwapDW, O::MovUp8],
        I::Swap13 => seq![O::MovDn8, O::SwapDW, O::MovDn4, O::MovUp5, O::SwapDW, O::MovUp8],
        I::Swap14 => seq![O::MovDn8, O::SwapDW, O::MovDn5, O::MovUp6, O::SwapDW, O::MovUp8],
        I::Swap15 => seq![O::MovDn8, O::SwapDW, O::MovDn6, O::MovUp7, O::SwapDW, O::MovUp8],
        I::SwapW1 => seq![O::SwapW],
        I::SwapW2 => seq![O::SwapW2],
        I::SwapW3 => seq![O::SwapW3],
        I::SwapDw => seq![O::SwapDW],
        I::MovUp2 => seq![O::MovUp2],
        I::MovUp3 => seq![O::MovUp3],
        I::MovUp4 => seq![O::MovUp4],
        I::MovUp5 => seq![O::MovUp5],
        I::MovUp6 => seq![O::MovUp6],
        I::MovUp7 => seq![O::MovUp7],
        I::MovUp8 => seq![O::MovUp8],
        I::MovUp9 => seq![O::SwapDW, O::Swap, O::SwapDW, O::MovUp8],
        I::MovUp10 => seq![O::SwapDW, O::MovUp2, O::SwapDW, O::MovUp8],
        I::MovUp11 => seq![O::SwapDW, O::MovUp3, O::SwapDW, O::MovUp8],
        I::MovUp12 => seq![O::SwapDW, O::MovUp4, O::SwapDW, O::MovUp8],
        I::MovUp13 => seq![O::SwapDW, O::MovUp5, O::SwapDW, O::MovUp8],
        I::MovUp14 => seq![O::SwapDW, O::MovUp6, O::SwapDW, O::MovUp8],
        I::MovUp15 => seq![O::SwapDW, O::MovUp7, O::SwapDW, O::MovUp8],
        I::MovUpW2 => seq![O::SwapW, O::SwapW2],
        I::MovUpW3 => seq![O::SwapW, O::SwapW2, O::SwapW3],
        I::MovDn2 => seq![O::MovDn2],
        I::MovDn3 => seq![O::MovDn3],
        I::MovDn4 => seq![O::MovDn4],
        I::MovDn5 => seq![O::MovDn5],
        I::MovDn6 => seq![O::MovDn6],
        I::MovDn7 => seq![O::MovDn7],
        I::MovDn8 => seq![O::MovDn8],
        I::MovDn9 => seq![O::MovDn8, O::SwapDW, O::Swap, O::SwapDW],
        I::MovDn10 => seq![O::MovDn8, O::SwapDW, O::MovDn2, O::SwapDW],
        I::MovDn11 => seq![O::MovDn8, O::SwapDW, O::MovDn3, O::SwapDW],
        I::MovDn12 => seq![O::MovDn8, O::SwapDW, O::MovDn4, O::SwapDW],
        I::MovDn13 => seq![O::MovDn8, O::SwapDW, O::MovDn5, O::SwapDW],
        I::MovDn14 => seq![O::MovDn8, O::SwapDW, O::MovDn6, O::SwapDW],
        I::MovDn15 => seq![O::MovDn8, O::SwapDW, O::MovDn7, O::SwapDW],
        I::MovDnW2 => seq![O::SwapW2, O::SwapW],
        I::MovDnW3 => seq![O::SwapW3, O::SwapW2, O::SwapW],
        I::CSwap => seq![O::CSwap],
        I::CSwapW => seq![O::CSwapW],
        I::CDrop => seq![O::CSwap, O::Drop],
        I::CDropW => seq![O::CSwapW, O::Drop, O::Drop, O::Drop, O::Drop],
        I::Push(imm) | I::PushFelt(imm) => push_felt_ops(imm),
        I::PushU8(v) => push_felt_ops(Felt { value: v as u64 }),
        I::PushU16(v) => push_felt_ops(Felt { value: v as u64 }),
        I::PushU32(v) => push_felt_ops(Felt { value: v as u64 }),
        I::PushWord(w) => push_many_ops(w@),
        I::PushU8List(l) => push_many_ops(felts_of_u8(l@)),
        I::PushU16List(l) => push_many_ops(felts_of_u16(l@)),
        I::PushU32List(l) => push_many_ops(felts_of_u32(l@)),
        I::PushFeltList(l) => push_many_ops(l@),
        I::Locaddr(i) => local_addr_ops(i, num_locals),
        I::Caller => seq![O::Caller],
        I::MemLoad => seq![O::MLoad],
        I::MemLoadW => seq![O::MLoadW],
        I::MemLoadImm(v) => address_ops(Some(v), false, num_locals) + seq![O::MLoad],
        I::MemLoadWImm(v) => address_ops(Some(v), false, num_locals) + seq![O::MLoadW],
        I::LocLoad(i) => address_ops(Some(i as u32), true, num_locals) + seq![O::MLoad],
        I::LocLoadW(i) => address_ops(Some(i as u32), true, num_locals) + seq![O::MLoadW],
        I::MemStoreImm(v) => address_ops(Some(v), false, num_locals) + seq![O::MStore],
        I::MemStoreWImm(v) => address_ops(Some(v), false, num_locals) + seq![O::MStoreW],
        I::LocStore(i) => address_ops(Some(i as u32), true, num_locals) + seq![O::MStore],
        I::LocStoreW(i) => address_ops(Some(i as u32), true, num_locals) + seq![O::MStoreW],
        I::AdvPush(n) => Seq::new(n as nat, |k: int| O::AdvPop),
        I::Hash => hash_ops(),
        I::HMerge => hmerge_ops(),
        I::MTreeGet => mtree_get_ops(),
        I::MTreeSet => update_mtree_ops(),
        I::MTreeMerge => hmerge_ops(),
        _ => Seq::empty(),
    }
}

/// `new` is `old` with the decorator `d`, if any, attached at the current position, then `ops`
/// appended, and nothing else changed.
pub open spec fn lowered(old: SpanBuilder, new: SpanBuilder, d: Option<Decorator>, ops: Seq<O>) -> bool {
    match d {
        Some(d) => appends_decorated(old, new, d, ops),
        None => appends(old, new, ops),
    }
}

/// `new` is `old` with a NOOP appended and the instruction `text` tracked at the position of the
/// operation that follows it.
pub open spec fn tracked_breakpoint(old: SpanBuilder, new: SpanBuilder, text: Seq<char>) -> bool {
    &&& new.ops() =~= old.ops().push(O::Noop)
    &&& new.decorators().len() == old.decorators().len() + 1
    &&& new.decorators().drop_last() == old.decorators()
    &&& new.decorators().last().0 == old.ops().len() + 1
    &&& new.decorators().last().1 matches Decorator::AsmOp(a) && a.op@ == text && a.num_cycles == 0
    &&& new.epilogue() == old.epilogue()
    &&& new.last_asmop_pos() == old.decorators().len()
}

/// The block `new` is the block `old` after `inst` is compiled successfully in a procedure with
/// `num_locals` locals, in debug mode or not, `text` being the text of the instruction.
pub open spec fn compiles_to(
    old: SpanBuilder,
    new: SpanBuilder,
    inst: Instruction,
    num_locals: u16,
    in_debug_mode: bool,
    text: Seq<char>,
) -> bool {
    match inst {
        Instruction::DivImm(imm) => if imm.value == 1 {
            appends(old, new, seq![O::Noop])
        } else {
            exists|inv: Felt|
                {
                    &&& inv.canonical()
                    &&& (imm.value as int * inv.value as int) % (MODULUS as int) == 1
                    &&& appends(old, new, seq![O::Push(inv), O::Mul])
                }
        },
        Instruction::Breakpoint => if in_debug_mode {
            tracked_breakpoint(old, new, text)
        } else {
            new == old
        },
        Instruction::Debug(options) => if in_debug_mode {
            appends_decorated(old, new, Decorator::Debug(options), Seq::empty())
        } else {
            new == old
        },
        _ => lowered(old, new, instruction_decorator(inst), instruction_ops(inst, num_locals)),
    }
}

/// The field elements with the values of `v`.
fn felts_from_u8s(v: &Vec<u8>) -> (r: Vec<Felt>)
    ensures
        r@ == felts_of_u8(v@),
{
    let mut r: Vec<Felt> = Vec::new();
    let mut i: usize = 0;
    while i < v.len()
        invariant
            i <= v.len(),
            r@ == felts_of_u8(v@.take(i as int)),
        decreases v.len() - i,
    {
        r.push(Felt { value: v[i] as u64 });
        i = i + 1;
        proof {
            assert(v@.take(i as int) =~= v@.take(i - 1).push(v@[i - 1]));
            assert(r@ =~= felts_of_u8(v@.take(i as int)));
        }
    }
    proof {
        assert(v@.take(i as int) =~= v@);
    }
    r
}

/// The field elements with the values of `v`.
fn felts_from_u16s(v: &Vec<u16>) -> (r: Vec<Felt>)
    ensures
        r@ == felts_of_u16(v@),
{
    let mut r: Vec<Felt> = Vec::new();
    let mut i: usize = 0;
    while i < v.len()
        invariant
            i <= v.len(),
            r@ == felts_of_u16(v@.take(i as int)),
        decreases v.len() - i,
    {
        r.push(Felt { value: v[i] as u64 });
        i = i + 1;
        proof {
            assert(v@.take(i as int) =~= v@.take(i - 1).push(v@[i - 1]));
            assert(r@ =~= felts_of_u16(v@.take(i as int)));
        }
    }
    proof {
        assert(v@.take(i as int) =~= v@);
    }
    r
}

/// The field elements with the values of `v`.
fn felts_from_u32s(v: &Vec<u32>) -> (r: Vec<Felt>)
    ensures
        r@ == felts_of_u32(v@),
{
    let mut r: Vec<Felt> = Vec::new();
    let mut i: usize = 0;
    while i < v.len()
        invariant
            i <= v.len(),
            r@ == felts_of_u32(v@.take(i as int)),
        decreases v.len() - i,
    {
        r.push(Felt { value: v[i] as u64 });
        i = i + 1;
        proof {
            assert(v@.take(i as int) =~= v@.take(i - 1).push(v@[i - 1]));
            assert(r@ =~= felts_of_u32(v@.take(i as int)));
        }
    }
    proof {
        assert(v@.take(i as int) =~= v@);
    }
    r
}

/// Lowers `instruction` into operations and decorators appended to `span`, and returns what
/// remains to be done for it: nothing, or the invocation that the assembler resolves.
///
/// `text` is the text of the instruction, recorded when a breakpoint is tracked in debug mode.
///
/// # Errors
/// Returns the error raised while lowering the instruction: an immediate out of its range, a division
/// by an immediate zero, a local index beyond the procedure's locals, or `caller` outside of a
/// kernel procedure.
pub fn compile_instruction_impl(
    span: &mut SpanBuilder,
    proc_ctx: &ProcedureContext,
    instruction: &Instruction,
    in_debug_mode: bool,
    text: &String,
) -> (r: Result<CompiledInstruction, AssemblyError>)
    requires
        instruction.well_formed(),
        instruction.uses_locals() ==> proc_ctx.spec_num_locals() > 0,
        instruction is Breakpoint && in_debug_mode ==> old(span).decorators().len() < usize::MAX,
    ensures
        r is Err <==> instruction_error(*instruction, proc_ctx.spec_num_locals(), proc_ctx.spec_is_kernel()) is Some,
        r is Err ==> r->Err_0 == instruction_error(*instruction, proc_ctx.spec_num_locals(), proc_ctx.spec_is_kernel())->Some_0
            && *final(span) == *old(span),
        r is Ok ==> r->Ok_0 == compiled_kind(*instruction),
        r is Ok ==> compiles_to(*old(span), *final(span), *instruction, proc_ctx.spec_num_locals(), in_debug_mode, text@),
{

    match instruction {
        I::Nop => span.push_ops(&[O::Noop]),
        I::Assert => span.push_ops(&[O::Assert(0)]),
        I::AssertWithError(e) => span.push_ops(&[O::Assert(*e)]),
        I::AssertEq => span.push_ops(&[O::Eq, O::Assert(0)]),
        I::AssertEqWithError(e) => span.push_ops(&[O::Eq, O::Assert(*e)]),
        I::Assertz => span.push_ops(&[O::Eqz, O::Assert(0)]),
        I::AssertzWithError(e) => span.push_ops(&[O::Eqz, O::Assert(*e)]),
        I::Add => span.push_ops(&[O::Add]),
        I::Sub => span.push_ops(&[O::Neg, O::Add]),
        I::Mul => span.push_ops(&[O::Mul]),
        I::Div => span.push_ops(&[O::Inv, O::Mul]),
        I::Neg => span.push_ops(&[O::Neg]),
        I::Inv => span.push_ops(&[O::Inv]),
        I::Incr => span.push_ops(&[O::Incr]),
        I::Not => span.push_ops(&[O::Not]),
        I::And => span.push_ops(&[O::And]),
        I::Or => span.push_ops(&[O::Or]),
        I::Xor => span.push_ops(&[O::Dup0, O::Dup2, O::Or, O::MovDn2, O::And, O::Not, O::And]),
        I::Eq => span.push_ops(&[O::Eq]),
        I::Neq => span.push_ops(&[O::Eq, O::Not]),
        I::U32Test => span.push_ops(&[O::Dup0, O::U32split, O::Swap, O::Drop, O::Eqz]),
        I::U32Assert => span.push_ops(&[O::Pad, O::U32assert2(0), O::Drop]),
        I::U32AssertWithError(e) => span.push_ops(&[O::Pad, O::U32assert2(*e), O::Drop]),
        I::U32Assert2 => span.push_ops(&[O::U32assert2(0)]),
        I::U32Assert2WithError(e) => span.push_ops(&[O::U32assert2(*e)]),
        I::U32Cast => span.push_ops(&[O::U32split, O::Drop]),
        I::U32Split => span.push_ops(&[O::U32split]),
        I::U32OverflowingAdd3 => span.push_ops(&[O::U32add3]),
        I::U32WrappingAdd3 => span.push_ops(&[O::U32add3, O::Drop]),
        I::U32OverflowingMadd => span.push_ops(&[O::U32madd]),
        I::U32WrappingMadd => span.push_ops(&[O::U32madd, O::Drop]),
        I::U32And => span.push_ops(&[O::U32and]),
        I::U32Or => span.push_ops(&[O::Dup1, O::Dup1, O::U32and, O::Neg, O::Add, O::Add]),
        I::U32Xor => span.push_ops(&[O::U32xor]),
        I::Sdepth => span.push_ops(&[O::SDepth]),
        I::Clk => span.push_ops(&[O::Clk]),
        I::AdvPipe => span.push_ops(&[O::Pipe]),
        I::AdvLoadW => span.push_ops(&[O::AdvPopW]),
        I::MemStream => span.push_ops(&[O::MStream]),
        I::MemStore => span.push_ops(&[O::MStore, O::Drop]),
        I::MemStoreW => span.push_ops(&[O::MStoreW]),
        I::HPerm => span.push_ops(&[O::HPerm]),
        I::MTreeVerify => span.push_ops(&[O::MpVerify(0)]),
        I::MTreeVerifyWithError(e) => span.push_ops(&[O::MpVerify(*e)]),
        I::FriExt2Fold4 => span.push_ops(&[O::FriE2F4]),
        I::RCombBase => span.push_ops(&[O::RCombBase]),
        I::AssertEqw => field_ops::assertw(span, 0),
        I::AssertEqwWithError(e) => field_ops::assertw(span, *e),
        I::AddImm(imm) => field_ops::add_imm(span, *imm),
        I::SubImm(imm) => field_ops::sub_imm(span, *imm),
        I::MulImm(imm) => field_ops::mul_imm(span, *imm),
        I::DivImm(imm) => field_ops::div_imm(span, *imm)?,
        I::Pow2 => field_ops::pow2(span),
        I::Exp => field_ops::exp(span, 64)?,
        I::ExpImm(pow) => field_ops::exp_imm(span, *pow)?,
        I::ExpBitLength(n) => field_ops::exp(span, *n)?,
        I::ILog2 => field_ops::ilog2(span)?,
        I::EqImm(imm) => field_ops::eq_imm(span, *imm),
        I::NeqImm(imm) => field_ops::neq_imm(span, *imm),
        I::Eqw => field_ops::eqw(span),
        I::Lt => field_ops::lt(span),
        I::Lte => field_ops::lte(span),
        I::Gt => field_ops::gt(span),
        I::Gte => field_ops::gte(span),
        I::IsOdd => field_ops::is_odd(span),
        // ----- ext2 instructions ---------------------------------------------------------------
        I::Ext2Add => {
            let _ = ext2_ops::ext2_add(span);
        },
        I::Ext2Sub => {
            let _ = ext2_ops::ext2_sub(span);
        },
        I::Ext2Mul => {
            let _ = ext2_ops::ext2_mul(span);
        },
        I::Ext2Div => {
            let _ = ext2_ops::ext2_div(span);
        },
        I::Ext2Neg => {
            let _ = ext2_ops::ext2_neg(span);
        },
        I::Ext2Inv => {
            let _ = ext2_ops::ext2_inv(span);
        },
        // ----- u32 manipulation ----------------------------------------------------------------
        I::U32TestW => u32_ops::u32testw(span),
        I::U32AssertW => u32_ops::u32assertw(span, 0),
        I::U32AssertWWithError(e) => u32_ops::u32assertw(span, *e),
        I::U32OverflowingAdd => u32_ops::u32add(span, U32OpMode::Overflowing, None),
        I::U32OverflowingAddImm(v) => u32_ops::u32add(span, U32OpMode::Overflowing, Some(*v)),
        I::U32WrappingAdd => u32_ops::u32add(span, U32OpMode::Wrapping, None),
        I::U32WrappingAddImm(v) => u32_ops::u32add(span, U32OpMode::Wrapping, Some(*v)),
        I::U32OverflowingSub => u32_ops::u32sub(span, U32OpMode::Overflowing, None),
        I::U32OverflowingSubImm(v) => u32_ops::u32sub(span, U32OpMode::Overflowing, Some(*v)),
        I::U32WrappingSub => u32_ops::u32sub(span, U32OpMode::Wrapping, None),
        I::U32WrappingSubImm(v) => u32_ops::u32sub(span, U32OpMode::Wrapping, Some(*v)),
        I::U32OverflowingMul => u32_ops::u32mul(span, U32OpMode::Overflowing, None),
        I::U32OverflowingMulImm(v) => u32_ops::u32mul(span, U32OpMode::Overflowing, Some(*v)),
        I::U32WrappingMul => u32_ops::u32mul(span, U32OpMode::Wrapping, None),
        I::U32WrappingMulImm(v) => u32_ops::u32mul(span, U32OpMode::Wrapping, Some(*v)),
        I::U32Div => u32_ops::u32div(span, None)?,
        I::U32DivImm(v) => u32_ops::u32div(span, Some(*v))?,
        I::U32Mod => u32_ops::u32mod(span, None)?,
        I::U32ModImm(v) => u32_ops::u32mod(span, Some(*v))?,
        I::U32DivMod => u32_ops::u32divmod(span, None)?,
        I::U32DivModImm(v) => u32_ops::u32divmod(span, Some(*v))?,
        I::U32Not => u32_ops::u32not(span),
        I::U32Shl => u32_ops::u32shl(span, None)?,
        I::U32ShlImm(v) => u32_ops::u32shl(span, Some(*v))?,
        I::U32Shr => u32_ops::u32shr(span, None)?,
        I::U32ShrImm(v) => u32_ops::u32shr(span, Some(*v))?,
        I::U32Rotl => u32_ops::u32rotl(span, None)?,
        I::U32RotlImm(v) => u32_ops::u32rotl(span, Some(*v))?,
        I::U32Rotr => u32_ops::u32rotr(span, None)?,
        I::U32RotrImm(v) => u32_ops::u32rotr(span, Some(*v))?,
        I::U32Popcnt => u32_ops::u32popcnt(span),
        I::U32Clz => u32_ops::u32clz(span),
        I::U32Ctz => u32_ops::u32ctz(span),
        I::U32Clo => u32_ops::u32clo(span),
        I::U32Cto => u32_ops::u32cto(span),
        I::U32Lt => u32_ops::u32lt(span),
        I::U32Lte => u32_ops::u32lte(span),
        I::U32Gt => u32_ops::u32gt(span),
        I::U32Gte => u32_ops::u32gte(span),
        I::U32Min => u32_ops::u32min(span),
        I::U32Max => u32_ops::u32max(span),
        // ----- stack manipulation --------------------------------------------------------------
        I::Drop => span.push_ops(&[O::Drop]),
        I::DropW => span.push_ops(&[O::Drop, O::Drop, O::Drop, O::Drop]),
        I::PadW => span.push_ops(&[O::Pad, O::Pad, O::Pad, O::Pad]),
        I::Dup0 => span.push_ops(&[O::Dup0]),
        I::Dup1 => span.push_ops(&[O::Dup1]),
        I::Dup2 => span.push_ops(&[O::Dup2]),
        I::Dup3 => span.push_ops(&[O::Dup3]),
        I::Dup4 => span.push_ops(&[O::Dup4]),
        I::Dup5 => span.push_ops(&[O::Dup5]),
        I::Dup6 => span.push_ops(&[O::Dup6]),
        I::Dup7 => span.push_ops(&[O::Dup7]),
        I::Dup8 => span.push_ops(&[O::Pad, O::Dup9, O::Add]),
        I::Dup9 => span.push_ops(&[O::Dup9]),
        I::Dup10 => span.push_ops(&[O::Pad, O::Dup11, O::Add]),
        I::Dup11 => span.push_ops(&[O::Dup11]),
        I::Dup12 => span.push_ops(&[O::Pad, O::Dup13, O::Add]),
        I::Dup13 => span.push_ops(&[O::Dup13]),
        I::Dup14 => span.push_ops(&[O::Pad, O::Dup15, O::Add]),
        I::Dup15 => span.push_ops(&[O::Dup15]),
        I::DupW0 => span.push_ops(&[O::Dup3, O::Dup3, O::Dup3, O::Dup3]),
        I::DupW1 => span.push_ops(&[O::Dup7, O::Dup7, O::Dup7, O::Dup7]),
        I::DupW2 => span.push_ops(&[O::Dup11, O::Dup11, O::Dup11, O::Dup11]),
        I::DupW3 => span.push_ops(&[O::Dup15, O::Dup15, O::Dup15, O::Dup15]),
        I::Swap1 => span.push_ops(&[O::Swap]),
        I::Swap2 => span.push_ops(&[O::Swap, O::MovUp2]),
        I::Swap3 => span.push_ops(&[O::MovDn2, O::MovUp3]),
        I::Swap4 => span.push_ops(&[O::MovDn3, O::MovUp4]),
        I::Swap5 => span.push_ops(&[O::MovDn4, O::MovUp5]),
        I::Swap6 => span.push_ops(&[O::MovDn5, O::MovUp6]),
        I::Swap7 => span.push_ops(&[O::MovDn6, O::MovUp7]),
        I::Swap8 => span.push_ops(&[O::MovDn7, O::MovUp8]),
        I::Swap9 => span.push_ops(&[O::MovDn8, O::SwapDW, O::Swap, O::SwapDW, O::MovUp8]),
        I::Swap10 => span.push_ops(&[O::MovDn8, O::SwapDW, O::Swap, O::MovUp2, O::SwapDW, O::MovUp8]),
        I::Swap11 => span.push_ops(&[O::MovDn8, O::SwapDW, O::MovDn2, O::MovUp3, O::SwapDW, O::MovUp8]),
        I::Swap12 => span.push_ops(&[O::MovDn8, O::SwapDW, O::MovDn3, O::MovUp4, O::SwapDW, O::MovUp8]),
        I::Swap13 => span.push_ops(&[O::MovDn8, O::SwapDW, O::MovDn4, O::MovUp5, O::SwapDW, O::MovUp8]),
        I::Swap14 => span.push_ops(&[O::MovDn8, O::SwapDW, O::MovDn5, O::MovUp6, O::SwapDW, O::MovUp8]),
        I::Swap15 => span.push_ops(&[O::MovDn8, O::SwapDW, O::MovDn6, O::MovUp7, O::SwapDW, O::MovUp8]),
        I::SwapW1 => span.push_ops(&[O::SwapW]),
        I::SwapW2 => span.push_ops(&[O::SwapW2]),
        I::SwapW3 => span.push_ops(&[O::SwapW3]),
        I::SwapDw => span.push_ops(&[O::SwapDW]),
        I::MovUp2 => span.push_ops(&[O::MovUp2]),
        I::MovUp3 => span.push_ops(&[O::MovUp3]),
        I::MovUp4 => span.push_ops(&[O::MovUp4]),
        I::MovUp5 => span.push_ops(&[O::MovUp5]),
        I::MovUp6 => span.push_ops(&[O::MovUp6]),
        I::MovUp7 => span.push_ops(&[O::MovUp7]),
        I::MovUp8 => span.push_ops(&[O::MovUp8]),
        I::MovUp9 => span.push_ops(&[O::SwapDW, O::Swap, O::SwapDW, O::MovUp8]),
        I::MovUp10 => span.push_ops(&[O::SwapDW, O::MovUp2, O::SwapDW, O::MovUp8]),
        I::MovUp11 => span.push_ops(&[O::SwapDW, O::MovUp3, O::SwapDW, O::MovUp8]),
        I::MovUp12 => span.push_ops(&[O::SwapDW, O::MovUp4, O::SwapDW, O::MovUp8]),
        I::MovUp13 => span.push_ops(&[O::SwapDW, O::MovUp5, O::SwapDW, O::MovUp8]),
        I::MovUp14 => span.push_ops(&[O::SwapDW, O::MovUp6, O::SwapDW, O::MovUp8]),
        I::MovUp15 => span.push_ops(&[O::SwapDW, O::MovUp7, O::SwapDW, O::MovUp8]),
        I::MovUpW2 => span.push_ops(&[O::SwapW, O::SwapW2]),
        I::MovUpW3 => span.push_ops(&[O::SwapW, O::SwapW2, O::SwapW3]),
        I::MovDn2 => span.push_ops(&[O::MovDn2]),
        I::MovDn3 => span.push_ops(&[O::MovDn3]),
        I::MovDn4 => span.push_ops(&[O::MovDn4]),
        I::MovDn5 => span.push_ops(&[O::MovDn5]),
        I::MovDn6 => span.push_ops(&[O::MovDn6]),
        I::MovDn7 => span.push_ops(&[O::MovDn7]),
        I::MovDn8 => span.push_ops(&[O::MovDn8]),
        I::MovDn9 => span.push_ops(&[O::MovDn8, O::SwapDW, O::Swap, O::SwapDW]),
        I::MovDn10 => span.push_ops(&[O::MovDn8, O::SwapDW, O::MovDn2, O::SwapDW]),
        I::MovDn11 => span.push_ops(&[O::MovDn8, O::SwapDW, O::MovDn3, O::SwapDW]),
        I::MovDn12 => span.push_ops(&[O::MovDn8, O::SwapDW, O::MovDn4, O::SwapDW]),
        I::MovDn13 => span.push_ops(&[O::MovDn8, O::SwapDW, O::MovDn5, O::SwapDW]),
        I::MovDn14 => span.push_ops(&[O::MovDn8, O::SwapDW, O::MovDn6, O::SwapDW]),
        I::MovDn15 => span.push_ops(&[O::MovDn8, O::SwapDW, O::MovDn7, O::SwapDW]),
        I::MovDnW2 => span.push_ops(&[O::SwapW2, O::SwapW]),
        I::MovDnW3 => span.push_ops(&[O::SwapW3, O::SwapW2, O::SwapW]),
        I::CSwap => span.push_ops(&[O::CSwap]),
        I::CSwapW => span.push_ops(&[O::CSwapW]),
        I::CDrop => span.push_ops(&[O::CSwap, O::Drop]),
        I::CDropW => span.push_ops(&[O::CSwapW, O::Drop, O::Drop, O::Drop, O::Drop]),
        // ----- input / output instructions -----------------------------------------------------
        I::Push(imm) | I::PushFelt(imm) => env_ops::push_one(*imm, span),
        I::PushU8(v) => env_ops::push_one(Felt { value: *v as u64 }, span),
        I::PushU16(v) => env_ops::push_one(Felt { value: *v as u64 }, span),
        I::PushU32(v) => env_ops::push_one(Felt { value: *v as u64 }, span),
        I::PushWord(w) => env_ops::push_many(w.as_slice(), span),
        I::PushU8List(l) => {
            let felts = felts_from_u8s(l);
            env_ops::push_many(felts.as_slice(), span);
        },
        I::PushU16List(l) => {
            let felts = felts_from_u16s(l);
            env_ops::push_many(felts.as_slice(), span);
        },
        I::PushU32List(l) => {
            let felts = felts_from_u32s(l);
            env_ops::push_many(felts.as_slice(), span);
        },
        I::PushFeltList(l) => env_ops::push_many(l.as_slice(), span),
        I::Caller => env_ops::caller(span, proc_ctx)?,
        I::AdvPush(n) => env_ops::adv_push(span, *n)?,
        I::AdvInject(injector) => span.push_decorator(Decorator::Advice(*injector)),
        I::Locaddr(i) => env_ops::locaddr(span, *i, proc_ctx)?,
        I::MemLoad => {
            mem_ops::mem_read(span, proc_ctx, None, false, true)?;
        },
        I::MemLoadImm(v) => {
            mem_ops::mem_read(span, proc_ctx, Some(*v), false, true)?;
        },
        I::MemLoadW => {
            mem_ops::mem_read(span, proc_ctx, None, false, false)?;
        },
        I::MemLoadWImm(v) => {
            mem_ops::mem_read(span, proc_ctx, Some(*v), false, false)?;
        },
        I::LocLoad(i) => {
            mem_ops::mem_read(span, proc_ctx, Some(*i as u32), true, true)?;
        },
        I::LocLoadW(i) => {
            mem_ops::mem_read(span, proc_ctx, Some(*i as u32), true, false)?;
        },
        I::MemStoreImm(v) => {
            mem_ops::mem_write(span, proc_ctx, Some(*v), false, true)?;
        },
        I::MemStoreWImm(v) => {
            mem_ops::mem_write(span, proc_ctx, Some(*v), false, false)?;
        },
        I::LocStore(i) => {
            mem_ops::mem_write(span, proc_ctx, Some(*i as u32), true, true)?;
        },
        I::LocStoreW(i) => {
            mem_ops::mem_write(span, proc_ctx, Some(*i as u32), true, false)?;
        },
        // ----- cryptographic instructions ------------------------------------------------------
        I::Hash => {
            let _ = crypto_ops::hash(span);
        },
        I::HMerge => {
            let _ = crypto_ops::hmerge(span);
        },
        I::MTreeGet => {
            let _ = crypto_ops::mtree_get(span);
        },
        I::MTreeSet => {
            let _ = crypto_ops::mtree_set(span);
        },
        I::MTreeMerge => {
            let _ = crypto_ops::mtree_merge(span);
        },
        // ----- exec/call instructions ----------------------------------------------------------
        I::Exec(callee) => {
            return Ok(CompiledInstruction::Invoke(InvokeKind::Exec, callee.clone()));
        },
        I::Call(callee) => {
            return Ok(CompiledInstruction::Invoke(InvokeKind::Call, callee.clone()));
        },
        I::SysCall(callee) => {
            return Ok(CompiledInstruction::Invoke(InvokeKind::SysCall, callee.clone()));
        },
        I::DynExec => {
            return Ok(CompiledInstruction::DynExec);
        },
        I::DynCall => {
            return Ok(CompiledInstruction::DynCall);
        },
        I::ProcRef(callee) => {
            return Ok(CompiledInstruction::ProcRef(callee.clone()));
        },
        // ----- debug decorators ----------------------------------------------------------------
        I::Breakpoint => {
            if in_debug_mode {
                span.push_op(O::Noop);
                span.track_instruction(text.clone());
            }
        },
        I::Debug(options) => {
            if in_debug_mode {
                span.push_decorator(Decorator::Debug(*options));
            }
        },
        // ----- event decorators ----------------------------------------------------------------
        I::Emit(event_id) => span.push_decorator(Decorator::Event(*event_id)),
        I::Trace(trace_id) => span.push_decorator(Decorator::Trace(*trace_id)),
    }
    Ok(CompiledInstruction::Inline)
}

/// The operations that put the four elements of MAST root `root` on the stack.
pub open spec fn procref_ops(root: RpoDigest) -> Seq<O> {
    seq![
        O::Push(Felt { value: root.e0 }),
        O::Push(Felt { value: root.e1 }),
        O::Push(Felt { value: root.e2 }),
        O::Push(Felt { value: root.e3 }),
    ]
}

/// Appends the operations of a `procref` to a procedure whose MAST root is `mast_root`: a push of
/// each of the four elements of the root.
pub fn procref_mast_root(mast_root: RpoDigest, span: &mut SpanBuilder)
    ensures
        appends(*old(span), *final(span), procref_ops(mast_root)),
{
    span.push_op(O::Push(Felt { value: mast_root.e0 }));
    span.push_op(O::Push(Felt { value: mast_root.e1 }));
    span.push_op(O::Push(Felt { value: mast_root.e2 }));
    span.push_op(O::Push(Felt { value: mast_root.e3 }));
}

/// `new` is `old` with the instruction `text` tracked at the current position, with a cycle count
/// of zero.
pub open spec fn instruction_tracked(old: SpanBuilder, new: SpanBuilder, text: Seq<char>) -> bool {
    &&& new.ops() == old.ops()
    &&& new.decorators().len() == old.decorators().len() + 1
    &&& new.decorators().drop_last() == old.decorators()
    &&& new.decorators().last().0 == old.ops().len()
    &&& new.decorators().last().1 matches Decorator::AsmOp(a) && a.op@ == text && a.num_cycles == 0
    &&& new.epilogue() == old.epilogue()
    &&& new.last_asmop_pos() == old.decorators().len()
}

/// `new` is `old` with the cycle count of its tracked instruction set to the number of operations
/// that follow the instruction's position, modulo 256.
pub open spec fn cycle_count_set(old: SpanBuilder, new: SpanBuilder) -> bool {
    let pos = old.last_asmop_pos() as int;
    &&& new.ops() == old.ops()
    &&& new.epilogue() == old.epilogue()
    &&& new.last_asmop_pos() == old.last_asmop_pos()
    &&& new.decorators().len() == old.decorators().len()
    &&& forall|i: int| 0 <= i < old.decorators().len() && i != pos ==> new.decorators()[i] == old.decorators()[i]
    &&& new.decorators()[pos].0 == old.decorators()[pos].0
    &&& new.decorators()[pos].1 matches Decorator::AsmOp(a) && a.op@ == old.decorators()[pos].1->AsmOp_0.op@
        && a.num_cycles == (old.ops().len() - old.decorators()[pos].0) as u8
}

/// Compiles `instruction` into `span`, as [compile_instruction_impl] does. In debug mode the
/// instruction is tracked first, with its text `text`, and once it is compiled, the number of
/// operations it added becomes its cycle count.
pub fn compile_instruction(
    span: &mut SpanBuilder,
    proc_ctx: &ProcedureContext,
    instruction: &Instruction,
    in_debug_mode: bool,
    text: &String,
) -> (r: Result<CompiledInstruction, AssemblyError>)
    requires
        instruction.well_formed(),
        instruction.uses_locals() ==> proc_ctx.spec_num_locals() > 0,
        old(span).decorators().len() < usize::MAX - 1,
    ensures
        r is Err <==> instruction_error(*instruction, proc_ctx.spec_num_locals(), proc_ctx.spec_is_kernel()) is Some,
        r is Err ==> r->Err_0 == instruction_error(*instruction, proc_ctx.spec_num_locals(), proc_ctx.spec_is_kernel())->Some_0,
        r is Err && !in_debug_mode ==> *final(span) == *old(span),
        r is Ok ==> r->Ok_0 == compiled_kind(*instruction),
        r is Ok && !in_debug_mode ==> compiles_to(*old(span), *final(span), *instruction, proc_ctx.spec_num_locals(), false, text@),
        r is Err && in_debug_mode ==> instruction_tracked(*old(span), *final(span), text@),
        r is Ok && in_debug_mode && *instruction is Breakpoint ==> exists|t: SpanBuilder|
            {
                &&& instruction_tracked(*old(span), t, text@)
                &&& compiles_to(t, *final(span), *instruction, proc_ctx.spec_num_locals(), true, text@)
            },
        r is Ok && in_debug_mode && !(*instruction is Breakpoint) ==> exists|t: SpanBuilder, m: SpanBuilder|
            {
                &&& instruction_tracked(*old(span), t, text@)
                &&& compiles_to(t, m, *instruction, proc_ctx.spec_num_locals(), true, text@)
                &&& cycle_count_set(m, *final(span))
            },
{
    if in_debug_mode {
        span.track_instruction(text.clone());
    }
    let ghost t = *span;
    proof {
        if in_debug_mode {
            assert(instruction_tracked(*old(span), t, text@));
        }
    }
    let result = compile_instruction_impl(span, proc_ctx, instruction, in_debug_mode, text)?;
    let ghost m = *span;
    if in_debug_mode && !instruction.should_break() {
        proof {
            let pos = m.last_asmop_pos() as int;
            assert(t.decorators().len() <= m.decorators().len());
            assert(m.decorators()[pos] == t.decorators()[pos]);
        }
        span.set_instruction_cycle_count();
        proof {
            assert(instruction_tracked(*old(span), t, text@));
        }
    }
    Ok(result)
}

} // verus!
