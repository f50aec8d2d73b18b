//! The primitive instructions of Miden Assembly.

use vstd::prelude::*;

use crate::ast::InvocationTarget;
use crate::felt::Felt;
use crate::ops::{AdviceInjector, DebugOptions};

verus! {

/// The set of primitive instructions in Miden Assembly syntax, with their immediate values
/// resolved.
#[derive(Debug, Clone)]
pub enum Instruction {
    Nop,
    Assert,
    AssertWithError(u32),
    AssertEq,
    AssertEqWithError(u32),
    AssertEqw,
    AssertEqwWithError(u32),
    Assertz,
    AssertzWithError(u32),
    Add,
    AddImm(Felt),
    Sub,
    SubImm(Felt),
    Mul,
    MulImm(Felt),
    Div,
    DivImm(Felt),
    Neg,
    ILog2,
    Inv,
    Incr,
    Pow2,
    Exp,
    ExpImm(Felt),
    ExpBitLength(u8),
    Not,
    And,
    Or,
    Xor,
    Eq,
    EqImm(Felt),
    Neq,
    NeqImm(Felt),
    Eqw,
    Lt,
    Lte,
    Gt,
    Gte,
    IsOdd,
    // ----- ext2 operations ---------------------------------------------------------------------
    Ext2Add,
    Ext2Sub,
    Ext2Mul,
    Ext2Div,
    Ext2Neg,
    Ext2Inv,
    // ----- u32 manipulation --------------------------------------------------------------------
    U32Test,
    U32TestW,
    U32Assert,
    U32AssertWithError(u32),
    U32Assert2,
    U32Assert2WithError(u32),
    U32AssertW,
    U32AssertWWithError(u32),
    U32Split,
    U32Cast,
    U32WrappingAdd,
    U32WrappingAddImm(u32),
    U32OverflowingAdd,
    U32OverflowingAddImm(u32),
    U32OverflowingAdd3,
    U32WrappingAdd3,
    U32WrappingSub,
    U32WrappingSubImm(u32),
    U32OverflowingSub,
    U32OverflowingSubImm(u32),
    U32WrappingMul,
    U32WrappingMulImm(u32),
    U32OverflowingMul,
    U32OverflowingMulImm(u32),
    U32OverflowingMadd,
    U32WrappingMadd,
    U32Div,
    U32DivImm(u32),
    U32Mod,
    U32ModImm(u32),
    U32DivMod,
    U32DivModImm(u32),
    U32And,
    U32Or,
    U32Xor,
    U32Not,
    U32Shr,
    U32ShrImm(u8),
    U32Shl,
    U32ShlImm(u8),
    U32Rotr,
    U32RotrImm(u8),
    U32Rotl,
    U32RotlImm(u8),
    U32Popcnt,
    U32Ctz,
    U32Clz,
    U32Clo,
    U32Cto,
    U32Lt,
    U32Lte,
    U32Gt,
    U32Gte,
    U32Min,
    U32Max,
    // ----- stack manipulation ------------------------------------------------------------------
    Drop,
    DropW,
    PadW,
    Dup0,
    Dup1,
    Dup2,
    Dup3,
    Dup4,
    Dup5,
    Dup6,
    Dup7,
    Dup8,
    Dup9,
    Dup10,
    Dup11,
    Dup12,
    Dup13,
    Dup14,
    Dup15,
    DupW0,
    DupW1,
    DupW2,
    DupW3,
    Swap1,
    Swap2,
    Swap3,
    Swap4,
    Swap5,
    Swap6,
    Swap7,
    Swap8,
    Swap9,
    Swap10,
    Swap11,
    Swap12,
    Swap13,
    Swap14,
    Swap15,
    SwapW1,
    SwapW2,
    SwapW3,
    SwapDw,
    MovUp2,
    MovUp3,
    MovUp4,
    MovUp5,
    MovUp6,
    MovUp7,
    MovUp8,
    MovUp9,
    MovUp10,
    MovUp11,
    MovUp12,
    MovUp13,
    MovUp14,
    MovUp15,
    MovUpW2,
    MovUpW3,
    MovDn2,
    MovDn3,
    MovDn4,
    MovDn5,
    MovDn6,
    MovDn7,
    MovDn8,
    MovDn9,
    MovDn10,
    MovDn11,
    MovDn12,
    MovDn13,
    MovDn14,
    MovDn15,
    MovDnW2,
    MovDnW3,
    CSwap,
    CSwapW,
    CDrop,
    CDropW,
    // ----- input / output operations -----------------------------------------------------------
    Push(Felt),
    PushU8(u8),
    PushU16(u16),
    PushU32(u32),
    PushFelt(Felt),
    PushWord([Felt; 4]),
    PushU8List(Vec<u8>),
    PushU16List(Vec<u16>),
    PushU32List(Vec<u32>),
    PushFeltList(Vec<Felt>),
    Locaddr(u16),
    Sdepth,
    Caller,
    Clk,
    MemLoad,
    MemLoadImm(u32),
    MemLoadW,
    MemLoadWImm(u32),
    LocLoad(u16),
    LocLoadW(u16),
    MemStore,
    MemStoreImm(u32),
    LocStore(u16),
    MemStoreW,
    MemStoreWImm(u32),
    LocStoreW(u16),
    MemStream,
    AdvPipe,
    AdvPush(u8),
    AdvLoadW,
    AdvInject(AdviceInjector),
    // ----- cryptographic operations ------------------------------------------------------------
    Hash,
    HMerge,
    HPerm,
    MTreeGet,
    MTreeSet,
    MTreeMerge,
    MTreeVerify,
    MTreeVerifyWithError(u32),
    // ----- STARK proof verification ------------------------------------------------------------
    FriExt2Fold4,
    RCombBase,
    // ----- exec / call -------------------------------------------------------------------------
    Exec(InvocationTarget),
    Call(InvocationTarget),
    SysCall(InvocationTarget),
    DynExec,
    DynCall,
    ProcRef(InvocationTarget),
    // ----- debug decorators --------------------------------------------------------------------
    Breakpoint,
    Debug(DebugOptions),
    // ----- event decorators --------------------------------------------------------------------
    Emit(u32),
    Trace(u32),
}

impl Instruction {
    /// Every field element held by the instruction is in canonical form.
    pub open spec fn well_formed(self) -> bool {
        match self {
            Instruction::AddImm(f) | Instruction::SubImm(f) | Instruction::MulImm(f)
            | Instruction::DivImm(f) | Instruction::ExpImm(f) | Instruction::EqImm(f)
            | Instruction::NeqImm(f) | Instruction::Push(f) | Instruction::PushFelt(f) => f.canonical(),
            Instruction::PushWord(w) => forall|i: int| 0 <= i < 4 ==> (#[trigger] w[i]).canonical(),
            Instruction::PushFeltList(l) => forall|i: int| 0 <= i < l.len() ==> (#[trigger] l[i]).canonical(),
            _ => true,
        }
    }

    /// The instruction names a local of the procedure being compiled.
    pub open spec fn uses_locals(self) -> bool {
        match self {
            Instruction::Locaddr(_) | Instruction::LocLoad(_) | Instruction::LocLoadW(_)
            | Instruction::LocStore(_) | Instruction::LocStoreW(_) => true,
            _ => false,
        }
    }

    /// Returns true if the instruction should yield a breakpoint.
    pub fn should_break(&self) -> (r: bool)
        ensures
            r == (*self is Breakpoint),
    {
        matches!(self, Instruction::Breakpoint)
    }
}

} // verus!
