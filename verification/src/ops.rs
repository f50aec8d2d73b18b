//! Operations and decorators of the VM, as emitted by the assembler.

use vstd::prelude::*;

use crate::felt::Felt;

verus! {

/// A VM operation. Each operation takes one VM cycle.
#[derive(Debug, Copy, Clone, PartialEq, Eq, Structural)]
pub enum Operation {
    Noop,
    Assert(u32),
    FmpAdd,
    FmpUpdate,
    SDepth,
    Caller,
    Clk,
    Join,
    Split,
    Loop,
    Call,
    Dyn,
    SysCall,
    Span,
    End,
    Repeat,
    Respan,
    Halt,
    Add,
    Neg,
    Mul,
    Inv,
    Incr,
    And,
    Or,
    Not,
    Eq,
    Eqz,
    Expacc,
    Ext2Mul,
    U32split,
    U32add,
    U32assert2(u32),
    U32add3,
    U32sub,
    U32mul,
    U32madd,
    U32div,
    U32and,
    U32xor,
    Pad,
    Drop,
    Dup0,
    Dup1,
    Dup2,
    Dup3,
    Dup4,
    Dup5,
    Dup6,
    Dup7,
    Dup9,
    Dup11,
    Dup13,
    Dup15,
    Swap,
    SwapW,
    SwapW2,
    SwapW3,
    SwapDW,
    MovUp2,
    MovUp3,
    MovUp4,
    MovUp5,
    MovUp6,
    MovUp7,
    MovUp8,
    MovDn2,
    MovDn3,
    MovDn4,
    MovDn5,
    MovDn6,
    MovDn7,
    MovDn8,
    CSwap,
    CSwapW,
    Push(Felt),
    AdvPop,
    AdvPopW,
    MLoadW,
    MStoreW,
    MLoad,
    MStore,
    MStream,
    Pipe,
    HPerm,
    MpVerify(u32),
    MrUpdate,
    FriE2F4,
    RCombBase,
}

/// An action, initiated from the VM, that injects data into the advice provider.
#[derive(Debug, Copy, Clone, PartialEq, Eq, Structural)]
pub enum AdviceInjector {
    MerkleNodeMerge,
    MerkleNodeToStack,
    UpdateMerkleNode,
    MapValueToStack { include_len: bool, key_offset: usize },
    U64Div,
    Ext2Inv,
    Ext2Intt,
    SmtGet,
    SmtSet,
    SmtPeek,
    U32Clz,
    U32Ctz,
    U32Clo,
    U32Cto,
    ILog2,
    MemToMap,
    HdwordToMap { domain: Felt },
    HpermToMap,
    SigToStack { kind: SignatureKind },
}

/// The kind of a digital signature.
#[derive(Debug, Copy, Clone, PartialEq, Eq, Structural)]
pub enum SignatureKind {
    RpoFalcon512,
}

/// Options of the debug decorator: which part of the VM state to print.
#[derive(Debug, Copy, Clone, PartialEq, Eq, Structural)]
pub enum DebugOptions {
    StackAll,
    StackTop(u8),
    MemAll,
    MemInterval(u32, u32),
    LocalInterval(u16, u16, u16),
}

/// Information about an assembly instruction and the number of VM cycles it took.
#[derive(Debug, Clone)]
pub struct AssemblyOp {
    /// The text of the assembly instruction.
    pub op: String,
    /// The number of VM cycles taken by the instruction.
    pub num_cycles: u8,
}

impl AssemblyOp {
    /// Creates the record of instruction `op` taking `num_cycles` cycles.
    pub fn new(op: String, num_cycles: u8) -> (r: Self)
        ensures
            r.op@ == op@,
            r.num_cycles == num_cycles,
    {
        AssemblyOp { op, num_cycles }
    }

    /// Sets the number of cycles taken by the instruction.
    pub fn set_num_cycles(&mut self, num_cycles: u8)
        ensures
            final(self).num_cycles == num_cycles,
            final(self).op@ == old(self).op@,
    {
        self.num_cycles = num_cycles;
    }
}

/// A decorator: executed by the VM without advancing its clock.
#[derive(Debug, Clone)]
pub enum Decorator {
    /// Injects data into the advice provider.
    Advice(AdviceInjector),
    /// Records the assembly instruction at a position (debug mode only).
    AsmOp(AssemblyOp),
    /// Prints part of the VM state (debug mode only).
    Debug(DebugOptions),
    /// Emits an event to the host.
    Event(u32),
    /// Emits a trace to the host.
    Trace(u32),
}

} // verus!
