//! The binary form of instructions: operation codes, and reading bytes back.

use vstd::prelude::*;

verus! {

/// The largest number of values that a single `push` instruction takes.
pub const MAX_PUSH_INPUTS: u8 = 16;

/// An error raised while reading a value back from bytes.
#[derive(Debug, Clone, PartialEq, Eq)]
pub enum DeserializationError {
    /// The bytes do not encode a valid value.
    InvalidValue(String),
    /// The bytes end before the value does.
    UnexpectedEOF,
    /// Bytes are left after the value.
    UnconsumedBytes,
    /// Another error.
    UnknownError(String),
}

/// Reads bytes from a slice, in order.
pub struct SliceReader<'a> {
    source: &'a [u8],
    pos: usize,
}

impl<'a> SliceReader<'a> {
    /// The bytes being read.
    pub closed spec fn spec_source(&self) -> Seq<u8> {
        self.source@
    }

    /// The position of the next byte to read.
    pub closed spec fn spec_pos(&self) -> nat {
        self.pos as nat
    }

    /// The position is within the bytes.
    pub open spec fn wf(&self) -> bool {
        self.spec_pos() <= self.spec_source().len()
    }

    /// A reader at the start of `source`.
    pub fn new(source: &'a [u8]) -> (r: Self)
        ensures
            r.wf(),
            r.spec_source() == source@,
            r.spec_pos() == 0,
    {
        SliceReader { source, pos: 0 }
    }

    /// The position of the next byte to read.
    pub fn position(&self) -> (r: usize)
        ensures
            r == self.spec_pos(),
    {
        self.pos
    }

    /// Returns true if bytes are left to read.
    pub fn has_more_bytes(&self) -> (r: bool)
        requires
            self.wf(),
        ensures
            r == (self.spec_pos() < self.spec_source().len()),
    {
        self.pos < self.source.len()
    }

    /// Reads the next byte.
    ///
    /// # Errors
    /// Returns [DeserializationError::UnexpectedEOF], and reads nothing, if no byte is left.
    pub fn read_u8(&mut self) -> (r: Result<u8, DeserializationError>)
        requires
            old(self).wf(),
        ensures
            final(self).wf(),
            final(self).spec_source() == old(self).spec_source(),
            old(self).spec_pos() < old(self).spec_source().len() ==> r == Ok::<u8, DeserializationError>(
                old(self).spec_source()[old(self).spec_pos() as int],
            ) && final(self).spec_pos() == old(self).spec_pos() + 1,
            old(self).spec_pos() >= old(self).spec_source().len() ==> r == Err::<u8, DeserializationError>(
                DeserializationError::UnexpectedEOF,
            ) && final(self).spec_pos() == old(self).spec_pos(),
    {
        if self.pos < self.source.len() {
            let b = self.source[self.pos];
            self.pos = self.pos + 1;
            Ok(b)
        } else {
            Err(DeserializationError::UnexpectedEOF)
        }
    }
}

/// Reads the number of values of a `push` instruction.
///
/// # Errors
/// Returns an error if no byte is left, or if the number is not between 1 and
/// [MAX_PUSH_INPUTS].
pub fn parse_num_push_params(source: &mut SliceReader) -> (r: Result<u8, DeserializationError>)
    requires
        old(source).wf(),
    ensures
        final(source).wf(),
        final(source).spec_source() == old(source).spec_source(),
        old(source).spec_pos() >= old(source).spec_source().len() ==> r == Err::<u8, DeserializationError>(
            DeserializationError::UnexpectedEOF,
        ),
        old(source).spec_pos() < old(source).spec_source().len() ==> {
            let n = old(source).spec_source()[old(source).spec_pos() as int];
            &&& final(source).spec_pos() == old(source).spec_pos() + 1
            &&& 1 <= n <= MAX_PUSH_INPUTS ==> r == Ok::<u8, DeserializationError>(n)
            &&& !(1 <= n <= MAX_PUSH_INPUTS) ==> (r matches Err(DeserializationError::InvalidValue(m))
                && m@ == "invalid push values argument"@)
        },
{
    let length = source.read_u8()?;
    if length < 1 || length > MAX_PUSH_INPUTS {
        Err(DeserializationError::InvalidValue(String::from_str("invalid push values argument")))
    } else {
        Ok(length)
    }
}

/// The operation codes of the binary form of instructions and control flow.
#[derive(Debug, Copy, Clone, PartialEq, Eq, Structural)]
pub enum OpCode {
    Assert,
    AssertWithError,
    AssertEq,
    AssertEqWithError,
    AssertEqw,
    AssertEqwWithError,
    Assertz,
    AssertzWithError,
    Add,
    AddImm,
    Sub,
    SubImm,
    Mul,
    MulImm,
    Div,
    DivImm,
    Neg,
    Inv,
    Incr,
    Pow2,
    Exp,
    ExpImm,
    ExpBitLength,
    ILog2,
    Not,
    And,
    Or,
    Xor,
    Eq,
    EqImm,
    Neq,
    NeqImm,
    Eqw,
    Lt,
    Lte,
    Gt,
    Gte,
    IsOdd,
    Ext2Add,
    Ext2Sub,
    Ext2Mul,
    Ext2Div,
    Ext2Neg,
    Ext2Inv,
    U32Test,
    U32TestW,
    U32Assert,
    U32AssertWithError,
    U32Assert2,
    U32Assert2WithError,
    U32AssertW,
    U32AssertWWithError,
    U32Split,
    U32Cast,
    U32WrappingAdd,
    U32WrappingAddImm,
    U32OverflowingAdd,
    U32OverflowingAddImm,
    U32OverflowingAdd3,
    U32WrappingAdd3,
    U32WrappingSub,
    U32WrappingSubImm,
    U32OverflowingSub,
    U32OverflowingSubImm,
    U32WrappingMul,
    U32WrappingMulImm,
    U32OverflowingMul,
    U32OverflowingMulImm,
    U32OverflowingMadd,
    U32WrappingMadd,
    U32Div,
    U32DivImm,
    U32Mod,
    U32ModImm,
    U32DivMod,
    U32DivModImm,
    U32And,
    U32Or,
    U32Xor,
    U32Not,
    U32Shr,
    U32ShrImm,
    U32Shl,
    U32ShlImm,
    U32Rotr,
    U32RotrImm,
    U32Rotl,
    U32RotlImm,
    U32Popcnt,
    U32Clz,
    U32Ctz,
    U32Clo,
    U32Cto,
    U32Lt,
    U32Lte,
    U32Gt,
    U32Gte,
    U32Min,
    U32Max,
    Drop,
    DropW,
    PadW,
    Dup0,
    Dup1,
    Dup2,
    Dup3,
    Dup4,
    Dup5,
    Dup6,
    Dup7,
    Dup8,
    Dup9,
    Dup10,
    Dup11,
    Dup12,
    Dup13,
    Dup14,
    Dup15,
    DupW0,
    DupW1,
    DupW2,
    DupW3,
    Swap1,
    Swap2,
    Swap3,
    Swap4,
    Swap5,
    Swap6,
    Swap7,
    Swap8,
    Swap9,
    Swap10,
    Swap11,
    Swap12,
    Swap13,
    Swap14,
    Swap15,
    SwapW1,
    SwapW2,
    SwapW3,
    SwapDW,
    MovUp2,
    MovUp3,
    MovUp4,
    MovUp5,
    MovUp6,
    MovUp7,
    MovUp8,
    MovUp9,
    MovUp10,
    MovUp11,
    MovUp12,
    MovUp13,
    MovUp14,
    MovUp15,
    MovUpW2,
    MovUpW3,
    MovDn2,
    MovDn3,
    MovDn4,
    MovDn5,
    MovDn6,
    MovDn7,
    MovDn8,
    MovDn9,
    MovDn10,
    MovDn11,
    MovDn12,
    MovDn13,
    MovDn14,
    MovDn15,
    MovDnW2,
    MovDnW3,
    CSwap,
    CSwapW,
    CDrop,
    CDropW,
    PushU8,
    PushU16,
    PushU32,
    PushFelt,
    PushWord,
    PushU8List,
    PushU16List,
    PushU32List,
    PushFeltList,
    Locaddr,
    Sdepth,
    Caller,
    Clk,
    MemLoad,
    MemLoadImm,
    MemLoadW,
    MemLoadWImm,
    LocLoad,
    LocLoadW,
    MemStore,
    MemStoreImm,
    LocStore,
    MemStoreW,
    MemStoreWImm,
    LocStoreW,
    MemStream,
    AdvPipe,
    AdvPush,
    AdvLoadW,
    AdvInject,
    Hash,
    HMerge,
    HPerm,
    MTreeGet,
    MTreeSet,
    MTreeMerge,
    MTreeVerify,
    FriExt2Fold4,
    RCombBase,
    ExecLocal,
    ExecImported,
    CallLocal,
    CallMastRoot,
    CallImported,
    SysCall,
    DynExec,
    DynCall,
    ProcRefLocal,
    ProcRefImported,
    Debug,
    Emit,
    Trace,
    IfElse,
    Repeat,
    While,
}

/// The byte that stands for `op`.
pub open spec fn opcode_tag(op: OpCode) -> u8 {
    match op {
        OpCode::Assert => 0,
        OpCode::AssertWithError => 1,
        OpCode::AssertEq => 2,
        OpCode::AssertEqWithError => 3,
        OpCode::AssertEqw => 4,
        OpCode::AssertEqwWithError => 5,
        OpCode::Assertz => 6,
        OpCode::AssertzWithError => 7,
        OpCode::Add => 8,
        OpCode::AddImm => 9,
        OpCode::Sub => 10,
        OpCode::SubImm => 11,
        OpCode::Mul => 12,
        OpCode::MulImm => 13,
        OpCode::Div => 14,
        OpCode::DivImm => 15,
        OpCode::Neg => 16,
        OpCode::Inv => 17,
        OpCode::Incr => 18,
        OpCode::Pow2 => 19,
        OpCode::Exp => 20,
        OpCode::ExpImm => 21,
        OpCode::ExpBitLength => 22,
        OpCode::ILog2 => 23,
        OpCode::Not => 24,
        OpCode::And => 25,
        OpCode::Or => 26,
        OpCode::Xor => 27,
        OpCode::Eq => 28,
        OpCode::EqImm => 29,
        OpCode::Neq => 30,
        OpCode::NeqImm => 31,
        OpCode::Eqw => 32,
        OpCode::Lt => 33,
        OpCode::Lte => 34,
        OpCode::Gt => 35,
        OpCode::Gte => 36,
        OpCode::IsOdd => 37,
        OpCode::Ext2Add => 38,
        OpCode::Ext2Sub => 39,
        OpCode::Ext2Mul => 40,
        OpCode::Ext2Div => 41,
        OpCode::Ext2Neg => 42,
        OpCode::Ext2Inv => 43,
        OpCode::U32Test => 44,
        OpCode::U32TestW => 45,
        OpCode::U32Assert => 46,
        OpCode::U32AssertWithError => 47,
        OpCode::U32Assert2 => 48,
        OpCode::U32Assert2WithError => 49,
        OpCode::U32AssertW => 50,
        OpCode::U32AssertWWithError => 51,
        OpCode::U32Split => 52,
        OpCode::U32Cast => 53,
        OpCode::U32WrappingAdd => 54,
        OpCode::U32WrappingAddImm => 55,
        OpCode::U32OverflowingAdd => 56,
        OpCode::U32OverflowingAddImm => 57,
        OpCode::U32OverflowingAdd3 => 58,
        OpCode::U32WrappingAdd3 => 59,
        OpCode::U32WrappingSub => 60,
        OpCode::U32WrappingSubImm => 61,
        OpCode::U32OverflowingSub => 62,
        OpCode::U32OverflowingSubImm => 63,
        OpCode::U32WrappingMul => 64,
        OpCode::U32WrappingMulImm => 65,
        OpCode::U32OverflowingMul => 66,
        OpCode::U32OverflowingMulImm => 67,
        OpCode::U32OverflowingMadd => 68,
        OpCode::U32WrappingMadd => 69,
        OpCode::U32Div => 70,
        OpCode::U32DivImm => 71,
        OpCode::U32Mod => 72,
        OpCode::U32ModImm => 73,
        OpCode::U32DivMod => 74,
        OpCode::U32DivModImm => 75,
        OpCode::U32And => 76,
        OpCode::U32Or => 77,
        OpCode::U32Xor => 78,
        OpCode::U32Not => 79,
        OpCode::U32Shr => 80,
        OpCode::U32ShrImm => 81,
        OpCode::U32Shl => 82,
        OpCode::U32ShlImm => 83,
        OpCode::U32Rotr => 84,
        OpCode::U32RotrImm => 85,
        OpCode::U32Rotl => 86,
        OpCode::U32RotlImm => 87,
        OpCode::U32Popcnt => 88,
        OpCode::U32Clz => 89,
        OpCode::U32Ctz => 90,
        OpCode::U32Clo => 91,
        OpCode::U32Cto => 92,
        OpCode::U32Lt => 93,
        OpCode::U32Lte => 94,
        OpCode::U32Gt => 95,
        OpCode::U32Gte => 96,
        OpCode::U32Min => 97,
        OpCode::U32Max => 98,
        OpCode::Drop => 99,
        OpCode::DropW => 100,
        OpCode::PadW => 101,
        OpCode::Dup0 => 102,
        OpCode::Dup1 => 103,
        OpCode::Dup2 => 104,
        OpCode::Dup3 => 105,
        OpCode::Dup4 => 106,
        OpCode::Dup5 => 107,
        OpCode::Dup6 => 108,
        OpCode::Dup7 => 109,
        OpCode::Dup8 => 110,
        OpCode::Dup9 => 111,
        OpCode::Dup10 => 112,
        OpCode::Dup11 => 113,
        OpCode::Dup12 => 114,
        OpCode::Dup13 => 115,
        OpCode::Dup14 => 116,
        OpCode::Dup15 => 117,
        OpCode::DupW0 => 118,
        OpCode::DupW1 => 119,
        OpCode::DupW2 => 120,
        OpCode::DupW3 => 121,
        OpCode::Swap1 => 122,
        OpCode::Swap2 => 123,
        OpCode::Swap3 => 124,
        OpCode::Swap4 => 125,
        OpCode::Swap5 => 126,
        OpCode::Swap6 => 127,
        OpCode::Swap7 => 128,
        OpCode::Swap8 => 129,
        OpCode::Swap9 => 130,
        OpCode::Swap10 => 131,
        OpCode::Swap11 => 132,
        OpCode::Swap12 => 133,
        OpCode::Swap13 => 134,
        OpCode::Swap14 => 135,
        OpCode::Swap15 => 136,
        OpCode::SwapW1 => 137,
        OpCode::SwapW2 => 138,
        OpCode::SwapW3 => 139,
        OpCode::SwapDW => 140,
        OpCode::MovUp2 => 141,
        OpCode::MovUp3 => 142,
        OpCode::MovUp4 => 143,
        OpCode::MovUp5 => 144,
        OpCode::MovUp6 => 145,
        OpCode::MovUp7 => 146,
        OpCode::MovUp8 => 147,
        OpCode::MovUp9 => 148,
        OpCode::MovUp10 => 149,
        OpCode::MovUp11 => 150,
        OpCode::MovUp12 => 151,
        OpCode::MovUp13 => 152,
        OpCode::MovUp14 => 153,
        OpCode::MovUp15 => 154,
        OpCode::MovUpW2 => 155,
        OpCode::MovUpW3 => 156,
        OpCode::MovDn2 => 157,
        OpCode::MovDn3 => 158,
        OpCode::MovDn4 => 159,
        OpCode::MovDn5 => 160,
        OpCode::MovDn6 => 161,
        OpCode::MovDn7 => 162,
        OpCode::MovDn8 => 163,
        OpCode::MovDn9 => 164,
        OpCode::MovDn10 => 165,
        OpCode::MovDn11 => 166,
        OpCode::MovDn12 => 167,
        OpCode::MovDn13 => 168,
        OpCode::MovDn14 => 169,
        OpCode::MovDn15 => 170,
        OpCode::MovDnW2 => 171,
        OpCode::MovDnW3 => 172,
        OpCode::CSwap => 173,
        OpCode::CSwapW => 174,
        OpCode::CDrop => 175,
        OpCode::CDropW => 176,
        OpCode::PushU8 => 177,
        OpCode::PushU16 => 178,
        OpCode::PushU32 => 179,
        OpCode::PushFelt => 180,
        OpCode::PushWord => 181,
        OpCode::PushU8List => 182,
        OpCode::PushU16List => 183,
        OpCode::PushU32List => 184,
        OpCode::PushFeltList => 185,
        OpCode::Locaddr => 186,
        OpCode::Sdepth => 187,
        OpCode::Caller => 188,
        OpCode::Clk => 189,
        OpCode::MemLoad => 190,
        OpCode::MemLoadImm => 191,
        OpCode::MemLoadW => 192,
        OpCode::MemLoadWImm => 193,
        OpCode::LocLoad => 194,
        OpCode::LocLoadW => 195,
        OpCode::MemStore => 196,
        OpCode::MemStoreImm => 197,
        OpCode::LocStore => 198,
        OpCode::MemStoreW => 199,
        OpCode::MemStoreWImm => 200,
        OpCode::LocStoreW => 201,
        OpCode::MemStream => 202,
        OpCode::AdvPipe => 203,
        OpCode::AdvPush => 204,
        OpCode::AdvLoadW => 205,
        OpCode::AdvInject => 206,
        OpCode::Hash => 207,
        OpCode::HMerge => 208,
        OpCode::HPerm => 209,
        OpCode::MTreeGet => 210,
        OpCode::MTreeSet => 211,
        OpCode::MTreeMerge => 212,
        OpCode::MTreeVerify => 213,
        OpCode::FriExt2Fold4 => 214,
        OpCode::RCombBase => 215,
        OpCode::ExecLocal => 216,
        OpCode::ExecImported => 217,
        OpCode::CallLocal => 218,
        OpCode::CallMastRoot => 219,
        OpCode::CallImported => 220,
        OpCode::SysCall => 221,
        OpCode::DynExec => 222,
        OpCode::DynCall => 223,
        OpCode::ProcRefLocal => 224,
        OpCode::ProcRefImported => 225,
        OpCode::Debug => 226,
        OpCode::Emit => 227,
        OpCode::Trace => 228,
        OpCode::IfElse => 253,
        OpCode::Repeat => 254,
        OpCode::While => 255,
    }
}

/// The operation code that the byte `tag` stands for, if any.
pub open spec fn opcode_of_tag(tag: u8) -> Option<OpCode> {
    match tag {
        0 => Some(OpCode::Assert),
        1 => Some(OpCode::AssertWithError),
        2 => Some(OpCode::AssertEq),
        3 => Some(OpCode::AssertEqWithError),
        4 => Some(OpCode::AssertEqw),
        5 => Some(OpCode::AssertEqwWithError),
        6 => Some(OpCode::Assertz),
        7 => Some(OpCode::AssertzWithError),
        8 => Some(OpCode::Add),
        9 => Some(OpCode::AddImm),
        10 => Some(OpCode::Sub),
        11 => Some(OpCode::SubImm),
        12 => Some(OpCode::Mul),
        13 => Some(OpCode::MulImm),
        14 => Some(OpCode::Div),
        15 => Some(OpCode::DivImm),
        16 => Some(OpCode::Neg),
        17 => Some(OpCode::Inv),
        18 => Some(OpCode::Incr),
        19 => Some(OpCode::Pow2),
        20 => Some(OpCode::Exp),
        21 => Some(OpCode::ExpImm),
        22 => Some(OpCode::ExpBitLength),
        23 => Some(OpCode::ILog2),
        24 => Some(OpCode::Not),
        25 => Some(OpCode::And),
        26 => Some(OpCode::Or),
        27 => Some(OpCode::Xor),
        28 => Some(OpCode::Eq),
        29 => Some(OpCode::EqImm),
        30 => Some(OpCode::Neq),
        31 => Some(OpCode::NeqImm),
        32 => Some(OpCode::Eqw),
        33 => Some(OpCode::Lt),
        34 => Some(OpCode::Lte),
        35 => Some(OpCode::Gt),
        36 => Some(OpCode::Gte),
        37 => Some(OpCode::IsOdd),
        38 => Some(OpCode::Ext2Add),
        39 => Some(OpCode::Ext2Sub),
        40 => Some(OpCode::Ext2Mul),
        41 => Some(OpCode::Ext2Div),
        42 => Some(OpCode::Ext2Neg),
        43 => Some(OpCode::Ext2Inv),
        44 => Some(OpCode::U32Test),
        45 => Some(OpCode::U32TestW),
        46 => Some(OpCode::U32Assert),
        47 => Some(OpCode::U32AssertWithError),
        48 => Some(OpCode::U32Assert2),
        49 => Some(OpCode::U32Assert2WithError),
        50 => Some(OpCode::U32AssertW),
        51 => Some(OpCode::U32AssertWWithError),
        52 => Some(OpCode::U32Split),
        53 => Some(OpCode::U32Cast),
        54 => Some(OpCode::U32WrappingAdd),
        55 => Some(OpCode::U32WrappingAddImm),
        56 => Some(OpCode::U32OverflowingAdd),
        57 => Some(OpCode::U32OverflowingAddImm),
        58 => Some(OpCode::U32OverflowingAdd3),
        59 => Some(OpCode::U32WrappingAdd3),
        60 => Some(OpCode::U32WrappingSub),
        61 => Some(OpCode::U32WrappingSubImm),
        62 => Some(OpCode::U32OverflowingSub),
        63 => Some(OpCode::U32OverflowingSubImm),
        64 => Some(OpCode::U32WrappingMul),
        65 => Some(OpCode::U32WrappingMulImm),
        66 => Some(OpCode::U32OverflowingMul),
        67 => Some(OpCode::U32OverflowingMulImm),
        68 => Some(OpCode::U32OverflowingMadd),
        69 => Some(OpCode::U32WrappingMadd),
        70 => Some(OpCode::U32Div),
        71 => Some(OpCode::U32DivImm),
        72 => Some(OpCode::U32Mod),
        73 => Some(OpCode::U32ModImm),
        74 => Some(OpCode::U32DivMod),
        75 => Some(OpCode::U32DivModImm),
        76 => Some(OpCode::U32And),
        77 => Some(OpCode::U32Or),
        78 => Some(OpCode::U32Xor),
        79 => Some(OpCode::U32Not),
        80 => Some(OpCode::U32Shr),
        81 => Some(OpCode::U32ShrImm),
        82 => Some(OpCode::U32Shl),
        83 => Some(OpCode::U32ShlImm),
        84 => Some(OpCode::U32Rotr),
        85 => Some(OpCode::U32RotrImm),
        86 => Some(OpCode::U32Rotl),
        87 => Some(OpCode::U32RotlImm),
        88 => Some(OpCode::U32Popcnt),
        89 => Some(OpCode::U32Clz),
        90 => Some(OpCode::U32Ctz),
        91 => Some(OpCode::U32Clo),
        92 => Some(OpCode::U32Cto),
        93 => Some(OpCode::U32Lt),
        94 => Some(OpCode::U32Lte),
        95 => Some(OpCode::U32Gt),
        96 => Some(OpCode::U32Gte),
        97 => Some(OpCode::U32Min),
        98 => Some(OpCode::U32Max),
        99 => Some(OpCode::Drop),
        100 => Some(OpCode::DropW),
        101 => Some(OpCode::PadW),
        102 => Some(OpCode::Dup0),
        103 => Some(OpCode::Dup1),
        104 => Some(OpCode::Dup2),
        105 => Some(OpCode::Dup3),
        106 => Some(OpCode::Dup4),
        107 => Some(OpCode::Dup5),
        108 => Some(OpCode::Dup6),
        109 => Some(OpCode::Dup7),
        110 => Some(OpCode::Dup8),
        111 => Some(OpCode::Dup9),
        112 => Some(OpCode::Dup10),
        113 => Some(OpCode::Dup11),
        114 => Some(OpCode::Dup12),
        115 => Some(OpCode::Dup13),
        116 => Some(OpCode::Dup14),
        117 => Some(OpCode::Dup15),
        118 => Some(OpCode::DupW0),
        119 => Some(OpCode::DupW1),
        120 => Some(OpCode::DupW2),
        121 => Some(OpCode::DupW3),
        122 => Some(OpCode::Swap1),
        123 => Some(OpCode::Swap2),
        124 => Some(OpCode::Swap3),
        125 => Some(OpCode::Swap4),
        126 => Some(OpCode::Swap5),
        127 => Some(OpCode::Swap6),
        128 => Some(OpCode::Swap7),
        129 => Some(OpCode::Swap8),
        130 => Some(OpCode::Swap9),
        131 => Some(OpCode::Swap10),
        132 => Some(OpCode::Swap11),
        133 => Some(OpCode::Swap12),
        134 => Some(OpCode::Swap13),
        135 => Some(OpCode::Swap14),
        136 => Some(OpCode::Swap15),
        137 => Some(OpCode::SwapW1),
        138 => Some(OpCode::SwapW2),
        139 => Some(OpCode::SwapW3),
        140 => Some(OpCode::SwapDW),
        141 => Some(OpCode::MovUp2),
        142 => Some(OpCode::MovUp3),
        143 => Some(OpCode::MovUp4),
        144 => Some(OpCode::MovUp5),
        145 => Some(OpCode::MovUp6),
        146 => Some(OpCode::MovUp7),
        147 => Some(OpCode::MovUp8),
        148 => Some(OpCode::MovUp9),
        149 => Some(OpCode::MovUp10),
        150 => Some(OpCode::MovUp11),
        151 => Some(OpCode::MovUp12),
        152 => Some(OpCode::MovUp13),
        153 => Some(OpCode::MovUp14),
        154 => Some(OpCode::MovUp15),
        155 => Some(OpCode::MovUpW2),
        156 => Some(OpCode::MovUpW3),
        157 => Some(OpCode::MovDn2),
        158 => Some(OpCode::MovDn3),
        159 => Some(OpCode::MovDn4),
        160 => Some(OpCode::MovDn5),
        161 => Some(OpCode::MovDn6),
        162 => Some(OpCode::MovDn7),
        163 => Some(OpCode::MovDn8),
        164 => Some(OpCode::MovDn9),
        165 => Some(OpCode::MovDn10),
        166 => Some(OpCode::MovDn11),
        167 => Some(OpCode::MovDn12),
        168 => Some(OpCode::MovDn13),
        169 => Some(OpCode::MovDn14),
        170 => Some(OpCode::MovDn15),
        171 => Some(OpCode::MovDnW2),
        172 => Some(OpCode::MovDnW3),
        173 => Some(OpCode::CSwap),
        174 => Some(OpCode::CSwapW),
        175 => Some(OpCode::CDrop),
        176 => Some(OpCode::CDropW),
        177 => Some(OpCode::PushU8),
        178 => Some(OpCode::PushU16),
        179 => Some(OpCode::PushU32),
        180 => Some(OpCode::PushFelt),
        181 => Some(OpCode::PushWord),
        182 => Some(OpCode::PushU8List),
        183 => Some(OpCode::PushU16List),
        184 => Some(OpCode::PushU32List),
        185 => Some(OpCode::PushFeltList),
        186 => Some(OpCode::Locaddr),
        187 => Some(OpCode::Sdepth),
        188 => Some(OpCode::Caller),
        189 => Some(OpCode::Clk),
        190 => Some(OpCode::MemLoad),
        191 => Some(OpCode::MemLoadImm),
        192 => Some(OpCode::MemLoadW),
        193 => Some(OpCode::MemLoadWImm),
        194 => Some(OpCode::LocLoad),
        195 => Some(OpCode::LocLoadW),
        196 => Some(OpCode::MemStore),
        197 => Some(OpCode::MemStoreImm),
        198 => Some(OpCode::LocStore),
        199 => Some(OpCode::MemStoreW),
        200 => Some(OpCode::MemStoreWImm),
        201 => Some(OpCode::LocStoreW),
        202 => Some(OpCode::MemStream),
        203 => Some(OpCode::AdvPipe),
        204 => Some(OpCode::AdvPush),
        205 => Some(OpCode::AdvLoadW),
        206 => Some(OpCode::AdvInject),
        207 => Some(OpCode::Hash),
        208 => Some(OpCode::HMerge),
        209 => Some(OpCode::HPerm),
        210 => Some(OpCode::MTreeGet),
        211 => Some(OpCode::MTreeSet),
        212 => Some(OpCode::MTreeMerge),
        213 => Some(OpCode::MTreeVerify),
        214 => Some(OpCode::FriExt2Fold4),
        215 => Some(OpCode::RCombBase),
        216 => Some(OpCode::ExecLocal),
        217 => Some(OpCode::ExecImported),
        218 => Some(OpCode::CallLocal),
        219 => Some(OpCode::CallMastRoot),
        220 => Some(OpCode::CallImported),
        221 => Some(OpCode::SysCall),
        222 => Some(OpCode::DynExec),
        223 => Some(OpCode::DynCall),
        224 => Some(OpCode::ProcRefLocal),
        225 => Some(OpCode::ProcRefImported),
        226 => Some(OpCode::Debug),
        227 => Some(OpCode::Emit),
        228 => Some(OpCode::Trace),
        253 => Some(OpCode::IfElse),
        254 => Some(OpCode::Repeat),
        255 => Some(OpCode::While),
        _ => None,
    }
}

impl OpCode {
    /// The byte written for the operation code.
    pub fn to_u8(&self) -> (r: u8)
        ensures
            r == opcode_tag(*self),
    {
        match self {
            OpCode::Assert => 0,
            OpCode::AssertWithError => 1,
            OpCode::AssertEq => 2,
            OpCode::AssertEqWithError => 3,
            OpCode::AssertEqw => 4,
            OpCode::AssertEqwWithError => 5,
            OpCode::Assertz => 6,
            OpCode::AssertzWithError => 7,
            OpCode::Add => 8,
            OpCode::AddImm => 9,
            OpCode::Sub => 10,
            OpCode::SubImm => 11,
            OpCode::Mul => 12,
            OpCode::MulImm => 13,
            OpCode::Div => 14,
            OpCode::DivImm => 15,
            OpCode::Neg => 16,
            OpCode::Inv => 17,
            OpCode::Incr => 18,
            OpCode::Pow2 => 19,
            OpCode::Exp => 20,
            OpCode::ExpImm => 21,
            OpCode::ExpBitLength => 22,
            OpCode::ILog2 => 23,
            OpCode::Not => 24,
            OpCode::And => 25,
            OpCode::Or => 26,
            OpCode::Xor => 27,
            OpCode::Eq => 28,
            OpCode::EqImm => 29,
            OpCode::Neq => 30,
            OpCode::NeqImm => 31,
            OpCode::Eqw => 32,
            OpCode::Lt => 33,
            OpCode::Lte => 34,
            OpCode::Gt => 35,
            OpCode::Gte => 36,
            OpCode::IsOdd => 37,
            OpCode::Ext2Add => 38,
            OpCode::Ext2Sub => 39,
            OpCode::Ext2Mul => 40,
            OpCode::Ext2Div => 41,
            OpCode::Ext2Neg => 42,
            OpCode::Ext2Inv => 43,
            OpCode::U32Test => 44,
            OpCode::U32TestW => 45,
            OpCode::U32Assert => 46,
            OpCode::U32AssertWithError => 47,
            OpCode::U32Assert2 => 48,
            OpCode::U32Assert2WithError => 49,
            OpCode::U32AssertW => 50,
            OpCode::U32AssertWWithError => 51,
            OpCode::U32Split => 52,
            OpCode::U32Cast => 53,
            OpCode::U32WrappingAdd => 54,
            OpCode::U32WrappingAddImm => 55,
            OpCode::U32OverflowingAdd => 56,
            OpCode::U32OverflowingAddImm => 57,
            OpCode::U32OverflowingAdd3 => 58,
            OpCode::U32WrappingAdd3 => 59,
            OpCode::U32WrappingSub => 60,
            OpCode::U32WrappingSubImm => 61,
            OpCode::U32OverflowingSub => 62,
            OpCode::U32OverflowingSubImm => 63,
            OpCode::U32WrappingMul => 64,
            OpCode::U32WrappingMulImm => 65,
            OpCode::U32OverflowingMul => 66,
            OpCode::U32OverflowingMulImm => 67,
            OpCode::U32OverflowingMadd => 68,
            OpCode::U32WrappingMadd => 69,
            OpCode::U32Div => 70,
            OpCode::U32DivImm => 71,
            OpCode::U32Mod => 72,
            OpCode::U32ModImm => 73,
            OpCode::U32DivMod => 74,
            OpCode::U32DivModImm => 75,
            OpCode::U32And => 76,
            OpCode::U32Or => 77,
            OpCode::U32Xor => 78,
            OpCode::U32Not => 79,
            OpCode::U32Shr => 80,
            OpCode::U32ShrImm => 81,
            OpCode::U32Shl => 82,
            OpCode::U32ShlImm => 83,
            OpCode::U32Rotr => 84,
            OpCode::U32RotrImm => 85,
            OpCode::U32Rotl => 86,
            OpCode::U32RotlImm => 87,
            OpCode::U32Popcnt => 88,
            OpCode::U32Clz => 89,
            OpCode::U32Ctz => 90,
            OpCode::U32Clo => 91,
            OpCode::U32Cto => 92,
            OpCode::U32Lt => 93,
            OpCode::U32Lte => 94,
            OpCode::U32Gt => 95,
            OpCode::U32Gte => 96,
            OpCode::U32Min => 97,
            OpCode::U32Max => 98,
            OpCode::Drop => 99,
            OpCode::DropW => 100,
            OpCode::PadW => 101,
            OpCode::Dup0 => 102,
            OpCode::Dup1 => 103,
            OpCode::Dup2 => 104,
            OpCode::Dup3 => 105,
            OpCode::Dup4 => 106,
            OpCode::Dup5 => 107,
            OpCode::Dup6 => 108,
            OpCode::Dup7 => 109,
            OpCode::Dup8 => 110,
            OpCode::Dup9 => 111,
            OpCode::Dup10 => 112,
            OpCode::Dup11 => 113,
            OpCode::Dup12 => 114,
            OpCode::Dup13 => 115,
            OpCode::Dup14 => 116,
            OpCode::Dup15 => 117,
            OpCode::DupW0 => 118,
            OpCode::DupW1 => 119,
            OpCode::DupW2 => 120,
            OpCode::DupW3 => 121,
            OpCode::Swap1 => 122,
            OpCode::Swap2 => 123,
            OpCode::Swap3 => 124,
            OpCode::Swap4 => 125,
            OpCode::Swap5 => 126,
            OpCode::Swap6 => 127,
            OpCode::Swap7 => 128,
            OpCode::Swap8 => 129,
            OpCode::Swap9 => 130,
            OpCode::Swap10 => 131,
            OpCode::Swap11 => 132,
            OpCode::Swap12 => 133,
            OpCode::Swap13 => 134,
            OpCode::Swap14 => 135,
            OpCode::Swap15 => 136,
            OpCode::SwapW1 => 137,
            OpCode::SwapW2 => 138,
            OpCode::SwapW3 => 139,
            OpCode::SwapDW => 140,
            OpCode::MovUp2 => 141,
            OpCode::MovUp3 => 142,
            OpCode::MovUp4 => 143,
            OpCode::MovUp5 => 144,
            OpCode::MovUp6 => 145,
            OpCode::MovUp7 => 146,
            OpCode::MovUp8 => 147,
            OpCode::MovUp9 => 148,
            OpCode::MovUp10 => 149,
            OpCode::MovUp11 => 150,
            OpCode::MovUp12 => 151,
            OpCode::MovUp13 => 152,
            OpCode::MovUp14 => 153,
            OpCode::MovUp15 => 154,
            OpCode::MovUpW2 => 155,
            OpCode::MovUpW3 => 156,
            OpCode::MovDn2 => 157,
            OpCode::MovDn3 => 158,
            OpCode::MovDn4 => 159,
            OpCode::MovDn5 => 160,
            OpCode::MovDn6 => 161,
            OpCode::MovDn7 => 162,
            OpCode::MovDn8 => 163,
            OpCode::MovDn9 => 164,
            OpCode::MovDn10 => 165,
            OpCode::MovDn11 => 166,
            OpCode::MovDn12 => 167,
            OpCode::MovDn13 => 168,
            OpCode::MovDn14 => 169,
            OpCode::MovDn15 => 170,
            OpCode::MovDnW2 => 171,
            OpCode::MovDnW3 => 172,
            OpCode::CSwap => 173,
            OpCode::CSwapW => 174,
            OpCode::CDrop => 175,
            OpCode::CDropW => 176,
            OpCode::PushU8 => 177,
            OpCode::PushU16 => 178,
            OpCode::PushU32 => 179,
            OpCode::PushFelt => 180,
            OpCode::PushWord => 181,
            OpCode::PushU8List => 182,
            OpCode::PushU16List => 183,
            OpCode::PushU32List => 184,
            OpCode::PushFeltList => 185,
            OpCode::Locaddr => 186,
            OpCode::Sdepth => 187,
            OpCode::Caller => 188,
            OpCode::Clk => 189,
            OpCode::MemLoad => 190,
            OpCode::MemLoadImm => 191,
            OpCode::MemLoadW => 192,
            OpCode::MemLoadWImm => 193,
            OpCode::LocLoad => 194,
            OpCode::LocLoadW => 195,
            OpCode::MemStore => 196,
            OpCode::MemStoreImm => 197,
            OpCode::LocStore => 198,
            OpCode::MemStoreW => 199,
            OpCode::MemStoreWImm => 200,
            OpCode::LocStoreW => 201,
            OpCode::MemStream => 202,
            OpCode::AdvPipe => 203,
            OpCode::AdvPush => 204,
            OpCode::AdvLoadW => 205,
            OpCode::AdvInject => 206,
            OpCode::Hash => 207,
            OpCode::HMerge => 208,
            OpCode::HPerm => 209,
            OpCode::MTreeGet => 210,
            OpCode::MTreeSet => 211,
            OpCode::MTreeMerge => 212,
            OpCode::MTreeVerify => 213,
            OpCode::FriExt2Fold4 => 214,
            OpCode::RCombBase => 215,
            OpCode::ExecLocal => 216,
            OpCode::ExecImported => 217,
            OpCode::CallLocal => 218,
            OpCode::CallMastRoot => 219,
            OpCode::CallImported => 220,
            OpCode::SysCall => 221,
            OpCode::DynExec => 222,
            OpCode::DynCall => 223,
            OpCode::ProcRefLocal => 224,
            OpCode::ProcRefImported => 225,
            OpCode::Debug => 226,
            OpCode::Emit => 227,
            OpCode::Trace => 228,
            OpCode::IfElse => 253,
            OpCode::Repeat => 254,
            OpCode::While => 255,
        }
    }

    /// The operation code that `tag` stands for, if any.
    pub fn from_u8(tag: u8) -> (r: Option<OpCode>)
        ensures
            r == opcode_of_tag(tag),
    {
        match tag {
            0 => Some(OpCode::Assert),
            1 => Some(OpCode::AssertWithError),
            2 => Some(OpCode::AssertEq),
            3 => Some(OpCode::AssertEqWithError),
            4 => Some(OpCode::AssertEqw),
            5 => Some(OpCode::AssertEqwWithError),
            6 => Some(OpCode::Assertz),
            7 => Some(OpCode::AssertzWithError),
            8 => Some(OpCode::Add),
            9 => Some(OpCode::AddImm),
            10 => Some(OpCode::Sub),
            11 => Some(OpCode::SubImm),
            12 => Some(OpCode::Mul),
            13 => Some(OpCode::MulImm),
            14 => Some(OpCode::Div),
            15 => Some(OpCode::DivImm),
            16 => Some(OpCode::Neg),
            17 => Some(OpCode::Inv),
            18 => Some(OpCode::Incr),
            19 => Some(OpCode::Pow2),
            20 => Some(OpCode::Exp),
            21 => Some(OpCode::ExpImm),
            22 => Some(OpCode::ExpBitLength),
            23 => Some(OpCode::ILog2),
            24 => Some(OpCode::Not),
            25 => Some(OpCode::And),
            26 => Some(OpCode::Or),
            27 => Some(OpCode::Xor),
            28 => Some(OpCode::Eq),
            29 => Some(OpCode::EqImm),
            30 => Some(OpCode::Neq),
            31 => Some(OpCode::NeqImm),
            32 => Some(OpCode::Eqw),
            33 => Some(OpCode::Lt),
            34 => Some(OpCode::Lte),
            35 => Some(OpCode::Gt),
            36 => Some(OpCode::Gte),
            37 => Some(OpCode::IsOdd),
            38 => Some(OpCode::Ext2Add),
            39 => Some(OpCode::Ext2Sub),
            40 => Some(OpCode::Ext2Mul),
            41 => Some(OpCode::Ext2Div),
            42 => Some(OpCode::Ext2Neg),
            43 => Some(OpCode::Ext2Inv),
            44 => Some(OpCode::U32Test),
            45 => Some(OpCode::U32TestW),
            46 => Some(OpCode::U32Assert),
            47 => Some(OpCode::U32AssertWithError),
            48 => Some(OpCode::U32Assert2),
            49 => Some(OpCode::U32Assert2WithError),
            50 => Some(OpCode::U32AssertW),
            51 => Some(OpCode::U32AssertWWithError),
            52 => Some(OpCode::U32Split),
            53 => Some(OpCode::U32Cast),
            54 => Some(OpCode::U32WrappingAdd),
            55 => Some(OpCode::U32WrappingAddImm),
            56 => Some(OpCode::U32OverflowingAdd),
            57 => Some(OpCode::U32OverflowingAddImm),
            58 => Some(OpCode::U32OverflowingAdd3),
            59 => Some(OpCode::U32WrappingAdd3),
            60 => Some(OpCode::U32WrappingSub),
            61 => Some(OpCode::U32WrappingSubImm),
            62 => Some(OpCode::U32OverflowingSub),
            63 => Some(OpCode::U32OverflowingSubImm),
            64 => Some(OpCode::U32WrappingMul),
            65 => Some(OpCode::U32WrappingMulImm),
            66 => Some(OpCode::U32OverflowingMul),
            67 => Some(OpCode::U32OverflowingMulImm),
            68 => Some(OpCode::U32OverflowingMadd),
            69 => Some(OpCode::U32WrappingMadd),
            70 => Some(OpCode::U32Div),
            71 => Some(OpCode::U32DivImm),
            72 => Some(OpCode::U32Mod),
            73 => Some(OpCode::U32ModImm),
            74 => Some(OpCode::U32DivMod),
            75 => Some(OpCode::U32DivModImm),
            76 => Some(OpCode::U32And),
            77 => Some(OpCode::U32Or),
            78 => Some(OpCode::U32Xor),
            79 => Some(OpCode::U32Not),
            80 => Some(OpCode::U32Shr),
            81 => Some(OpCode::U32ShrImm),
            82 => Some(OpCode::U32Shl),
            83 => Some(OpCode::U32ShlImm),
            84 => Some(OpCode::U32Rotr),
            85 => Some(OpCode::U32RotrImm),
            86 => Some(OpCode::U32Rotl),
            87 => Some(OpCode::U32RotlImm),
            88 => Some(OpCode::U32Popcnt),
            89 => Some(OpCode::U32Clz),
            90 => Some(OpCode::U32Ctz),
            91 => Some(OpCode::U32Clo),
            92 => Some(OpCode::U32Cto),
            93 => Some(OpCode::U32Lt),
            94 => Some(OpCode::U32Lte),
            95 => Some(OpCode::U32Gt),
            96 => Some(OpCode::U32Gte),
            97 => Some(OpCode::U32Min),
            98 => Some(OpCode::U32Max),
            99 => Some(OpCode::Drop),
            100 => Some(OpCode::DropW),
            101 => Some(OpCode::PadW),
            102 => Some(OpCode::Dup0),
            103 => Some(OpCode::Dup1),
            104 => Some(OpCode::Dup2),
            105 => Some(OpCode::Dup3),
            106 => Some(OpCode::Dup4),
            107 => Some(OpCode::Dup5),
            108 => Some(OpCode::Dup6),
            109 => Some(OpCode::Dup7),
            110 => Some(OpCode::Dup8),
            111 => Some(OpCode::Dup9),
            112 => Some(OpCode::Dup10),
            113 => Some(OpCode::Dup11),
            114 => Some(OpCode::Dup12),
            115 => Some(OpCode::Dup13),
            116 => Some(OpCode::Dup14),
            117 => Some(OpCode::Dup15),
            118 => Some(OpCode::DupW0),
            119 => Some(OpCode::DupW1),
            120 => Some(OpCode::DupW2),
            121 => Some(OpCode::DupW3),
            122 => Some(OpCode::Swap1),
            123 => Some(OpCode::Swap2),
            124 => Some(OpCode::Swap3),
            125 => Some(OpCode::Swap4),
            126 => Some(OpCode::Swap5),
            127 => Some(OpCode::Swap6),
            128 => Some(OpCode::Swap7),
            129 => Some(OpCode::Swap8),
            130 => Some(OpCode::Swap9),
            131 => Some(OpCode::Swap10),
            132 => Some(OpCode::Swap11),
            133 => Some(OpCode::Swap12),
            134 => Some(OpCode::Swap13),
            135 => Some(OpCode::Swap14),
            136 => Some(OpCode::Swap15),
            137 => Some(OpCode::SwapW1),
            138 => Some(OpCode::SwapW2),
            139 => Some(OpCode::SwapW3),
            140 => Some(OpCode::SwapDW),
            141 => Some(OpCode::MovUp2),
            142 => Some(OpCode::MovUp3),
            143 => Some(OpCode::MovUp4),
            144 => Some(OpCode::MovUp5),
            145 => Some(OpCode::MovUp6),
            146 => Some(OpCode::MovUp7),
            147 => Some(OpCode::MovUp8),
            148 => Some(OpCode::MovUp9),
            149 => Some(OpCode::MovUp10),
            150 => Some(OpCode::MovUp11),
            151 => Some(OpCode::MovUp12),
            152 => Some(OpCode::MovUp13),
            153 => Some(OpCode::MovUp14),
            154 => Some(OpCode::MovUp15),
            155 => Some(OpCode::MovUpW2),
            156 => Some(OpCode::MovUpW3),
            157 => Some(OpCode::MovDn2),
            158 => Some(OpCode::MovDn3),
            159 => Some(OpCode::MovDn4),
            160 => Some(OpCode::MovDn5),
            161 => Some(OpCode::MovDn6),
            162 => Some(OpCode::MovDn7),
            163 => Some(OpCode::MovDn8),
            164 => Some(OpCode::MovDn9),
            165 => Some(OpCode::MovDn10),
            166 => Some(OpCode::MovDn11),
            167 => Some(OpCode::MovDn12),
            168 => Some(OpCode::MovDn13),
            169 => Some(OpCode::MovDn14),
            170 => Some(OpCode::MovDn15),
            171 => Some(OpCode::MovDnW2),
            172 => Some(OpCode::MovDnW3),
            173 => Some(OpCode::CSwap),
            174 => Some(OpCode::CSwapW),
            175 => Some(OpCode::CDrop),
            176 => Some(OpCode::CDropW),
            177 => Some(OpCode::PushU8),
            178 => Some(OpCode::PushU16),
            179 => Some(OpCode::PushU32),
            180 => Some(OpCode::PushFelt),
            181 => Some(OpCode::PushWord),
            182 => Some(OpCode::PushU8List),
            183 => Some(OpCode::PushU16List),
            184 => Some(OpCode::PushU32List),
            185 => Some(OpCode::PushFeltList),
            186 => Some(OpCode::Locaddr),
            187 => Some(OpCode::Sdepth),
            188 => Some(OpCode::Caller),
            189 => Some(OpCode::Clk),
            190 => Some(OpCode::MemLoad),
            191 => Some(OpCode::MemLoadImm),
            192 => Some(OpCode::MemLoadW),
            193 => Some(OpCode::MemLoadWImm),
            194 => Some(OpCode::LocLoad),
            195 => Some(OpCode::LocLoadW),
            196 => Some(OpCode::MemStore),
            197 => Some(OpCode::MemStoreImm),
            198 => Some(OpCode::LocStore),
            199 => Some(OpCode::MemStoreW),
            200 => Some(OpCode::MemStoreWImm),
            201 => Some(OpCode::LocStoreW),
            202 => Some(OpCode::MemStream),
            203 => Some(OpCode::AdvPipe),
            204 => Some(OpCode::AdvPush),
            205 => Some(OpCode::AdvLoadW),
            206 => Some(OpCode::AdvInject),
            207 => Some(OpCode::Hash),
            208 => Some(OpCode::HMerge),
            209 => Some(OpCode::HPerm),
            210 => Some(OpCode::MTreeGet),
            211 => Some(OpCode::MTreeSet),
            212 => Some(OpCode::MTreeMerge),
            213 => Some(OpCode::MTreeVerify),
            214 => Some(OpCode::FriExt2Fold4),
            215 => Some(OpCode::RCombBase),
            216 => Some(OpCode::ExecLocal),
            217 => Some(OpCode::ExecImported),
            218 => Some(OpCode::CallLocal),
            219 => Some(OpCode::CallMastRoot),
            220 => Some(OpCode::CallImported),
            221 => Some(OpCode::SysCall),
            222 => Some(OpCode::DynExec),
            223 => Some(OpCode::DynCall),
            224 => Some(OpCode::ProcRefLocal),
            225 => Some(OpCode::ProcRefImported),
            226 => Some(OpCode::Debug),
            227 => Some(OpCode::Emit),
            228 => Some(OpCode::Trace),
            253 => Some(OpCode::IfElse),
            254 => Some(OpCode::Repeat),
            255 => Some(OpCode::While),
            _ => None,
        }
    }

    /// Appends the byte of the operation code to `target`.
    pub fn write_into(&self, target: &mut Vec<u8>)
        ensures
            final(target)@ == old(target)@.push(opcode_tag(*self)),
    {
        target.push(self.to_u8());
    }

    /// Reads an operation code.
    ///
    /// # Errors
    /// Returns an error if no byte is left, or if the byte stands for no operation code.
    pub fn read_from(source: &mut SliceReader) -> (r: Result<OpCode, DeserializationError>)
        requires
            old(source).wf(),
        ensures
            final(source).wf(),
            final(source).spec_source() == old(source).spec_source(),
            old(source).spec_pos() >= old(source).spec_source().len() ==> r == Err::<OpCode, DeserializationError>(
                DeserializationError::UnexpectedEOF,
            ),
            old(source).spec_pos() < old(source).spec_source().len() ==> {
                let tag = old(source).spec_source()[old(source).spec_pos() as int];
                &&& final(source).spec_pos() == old(source).spec_pos() + 1
                &&& opcode_of_tag(tag) matches Some(op) ==> r == Ok::<OpCode, DeserializationError>(op)
                &&& opcode_of_tag(tag) is None ==> r matches Err(DeserializationError::InvalidValue(_))
            },
    {
        let value = source.read_u8()?;
        match OpCode::from_u8(value) {
            Some(op) => Ok(op),
            None => Err(DeserializationError::InvalidValue(String::from_str("could not read a valid opcode"))),
        }
    }
}

/// Reading back the byte written for an operation code gives that code, and a byte that is read
/// as a code is the byte written for it.
pub proof fn lemma_opcode_roundtrip(op: OpCode, tag: u8)
    ensures
        opcode_of_tag(opcode_tag(op)) == Some(op),
        opcode_of_tag(tag) matches Some(o) ==> opcode_tag(o) == tag,
{
}

/// The two bytes of `v`, least significant first.
pub open spec fn u16_le(v: u16) -> Seq<u8> {
    seq![(v & 0xff) as u8, ((v >> 8u16) & 0xff) as u8]
}

/// The four bytes of `v`, least significant first.
pub open spec fn u32_le(v: u32) -> Seq<u8> {
    seq![(v & 0xff) as u8, ((v >> 8u32) & 0xff) as u8, ((v >> 16u32) & 0xff) as u8, ((v >> 24u32) & 0xff) as u8]
}

/// The eight bytes of `v`, least significant first.
pub open spec fn u64_le(v: u64) -> Seq<u8> {
    seq![
        (v & 0xff) as u8,
        ((v >> 8u64) & 0xff) as u8,
        ((v >> 16u64) & 0xff) as u8,
        ((v >> 24u64) & 0xff) as u8,
        ((v >> 32u64) & 0xff) as u8,
        ((v >> 40u64) & 0xff) as u8,
        ((v >> 48u64) & 0xff) as u8,
        ((v >> 56u64) & 0xff) as u8,
    ]
}

proof fn lemma_u16_bytes(b0: u16, b1: u16)
    by (bit_vector)
    requires
        b0 < 256,
        b1 < 256,
    ensures
        ((b0 | (b1 << 8u16)) & 0xff) as u8 == b0 as u8,
        (((b0 | (b1 << 8u16)) >> 8u16) & 0xff) as u8 == b1 as u8,
{
}

proof fn lemma_u32_bytes(b0: u32, b1: u32, b2: u32, b3: u32)
    by (bit_vector)
    requires
        b0 < 256,
        b1 < 256,
        b2 < 256,
        b3 < 256,
    ensures
        ((b0 | (b1 << 8u32) | (b2 << 16u32) | (b3 << 24u32)) & 0xff) as u8 == b0 as u8,
        (((b0 | (b1 << 8u32) | (b2 << 16u32) | (b3 << 24u32)) >> 8u32) & 0xff) as u8 == b1 as u8,
        (((b0 | (b1 << 8u32) | (b2 << 16u32) | (b3 << 24u32)) >> 16u32) & 0xff) as u8 == b2 as u8,
        (((b0 | (b1 << 8u32) | (b2 << 16u32) | (b3 << 24u32)) >> 24u32) & 0xff) as u8 == b3 as u8,
{
}

proof fn lemma_u64_bytes(b0: u64, b1: u64, b2: u64, b3: u64, b4: u64, b5: u64, b6: u64, b7: u64)
    by (bit_vector)
    requires
        b0 < 256,
        b1 < 256,
        b2 < 256,
        b3 < 256,
        b4 < 256,
        b5 < 256,
        b6 < 256,
        b7 < 256,
    ensures
        ((b0 | (b1 << 8u64) | (b2 << 16u64) | (b3 << 24u64) | (b4 << 32u64) | (b5 << 40u64) | (b6 << 48u64) | (b7 << 56u64)) & 0xff) as u8 == b0 as u8,
        (((b0 | (b1 << 8u64) | (b2 << 16u64) | (b3 << 24u64) | (b4 << 32u64) | (b5 << 40u64) | (b6 << 48u64) | (b7 << 56u64)) >> 8u64) & 0xff) as u8 == b1 as u8,
        (((b0 | (b1 << 8u64) | (b2 << 16u64) | (b3 << 24u64) | (b4 << 32u64) | (b5 << 40u64) | (b6 << 48u64) | (b7 << 56u64)) >> 16u64) & 0xff) as u8 == b2 as u8,
        (((b0 | (b1 << 8u64) | (b2 << 16u64) | (b3 << 24u64) | (b4 << 32u64) | (b5 << 40u64) | (b6 << 48u64) | (b7 << 56u64)) >> 24u64) & 0xff) as u8 == b3 as u8,
        (((b0 | (b1 << 8u64) | (b2 << 16u64) | (b3 << 24u64) | (b4 << 32u64) | (b5 << 40u64) | (b6 << 48u64) | (b7 << 56u64)) >> 32u64) & 0xff) as u8 == b4 as u8,
        (((b0 | (b1 << 8u64) | (b2 << 16u64) | (b3 << 24u64) | (b4 << 32u64) | (b5 << 40u64) | (b6 << 48u64) | (b7 << 56u64)) >> 40u64) & 0xff) as u8 == b5 as u8,
        (((b0 | (b1 << 8u64) | (b2 << 16u64) | (b3 << 24u64) | (b4 << 32u64) | (b5 << 40u64) | (b6 << 48u64) | (b7 << 56u64)) >> 48u64) & 0xff) as u8 == b6 as u8,
        (((b0 | (b1 << 8u64) | (b2 << 16u64) | (b3 << 24u64) | (b4 << 32u64) | (b5 << 40u64) | (b6 << 48u64) | (b7 << 56u64)) >> 56u64) & 0xff) as u8 == b7 as u8,
{
}

/// Two values with the same bytes are equal.
pub proof fn lemma_le_injective(a: u64, b: u64, c: u32, d: u32, e: u16, f: u16)
    ensures
        u64_le(a) == u64_le(b) ==> a == b,
        u32_le(c) == u32_le(d) ==> c == d,
        u16_le(e) == u16_le(f) ==> e == f,
{
    if u64_le(a) == u64_le(b) {
        assert(u64_le(a)[0] == u64_le(b)[0] && u64_le(a)[1] == u64_le(b)[1] && u64_le(a)[2] == u64_le(b)[2]
            && u64_le(a)[3] == u64_le(b)[3] && u64_le(a)[4] == u64_le(b)[4] && u64_le(a)[5] == u64_le(b)[5]
            && u64_le(a)[6] == u64_le(b)[6] && u64_le(a)[7] == u64_le(b)[7]);
        lemma_u64_eq(a, b);
    }
    if u32_le(c) == u32_le(d) {
        assert(u32_le(c)[0] == u32_le(d)[0] && u32_le(c)[1] == u32_le(d)[1] && u32_le(c)[2] == u32_le(d)[2] && u32_le(c)[3] == u32_le(d)[3]);
        lemma_u32_eq(c, d);
    }
    if u16_le(e) == u16_le(f) {
        assert(u16_le(e)[0] == u16_le(f)[0] && u16_le(e)[1] == u16_le(f)[1]);
        lemma_u16_eq(e, f);
    }
}

proof fn lemma_u64_eq(a: u64, b: u64)
    by (bit_vector)
    requires
        (a & 0xff) as u8 == (b & 0xff) as u8,
        ((a >> 8u64) & 0xff) as u8 == ((b >> 8u64) & 0xff) as u8,
        ((a >> 16u64) & 0xff) as u8 == ((b >> 16u64) & 0xff) as u8,
        ((a >> 24u64) & 0xff) as u8 == ((b >> 24u64) & 0xff) as u8,
        ((a >> 32u64) & 0xff) as u8 == ((b >> 32u64) & 0xff) as u8,
        ((a >> 40u64) & 0xff) as u8 == ((b >> 40u64) & 0xff) as u8,
        ((a >> 48u64) & 0xff) as u8 == ((b >> 48u64) & 0xff) as u8,
        ((a >> 56u64) & 0xff) as u8 == ((b >> 56u64) & 0xff) as u8,
    ensures
        a == b,
{
}

proof fn lemma_u32_eq(a: u32, b: u32)
    by (bit_vector)
    requires
        (a & 0xff) as u8 == (b & 0xff) as u8,
        ((a >> 8u32) & 0xff) as u8 == ((b >> 8u32) & 0xff) as u8,
        ((a >> 16u32) & 0xff) as u8 == ((b >> 16u32) & 0xff) as u8,
        ((a >> 24u32) & 0xff) as u8 == ((b >> 24u32) & 0xff) as u8,
    ensures
        a == b,
{
}

proof fn lemma_u16_eq(a: u16, b: u16)
    by (bit_vector)
    requires
        (a & 0xff) as u8 == (b & 0xff) as u8,
        ((a >> 8u16) & 0xff) as u8 == ((b >> 8u16) & 0xff) as u8,
    ensures
        a == b,
{
}

/// Appends the two bytes of `v`, least significant first.
pub fn write_u16(target: &mut Vec<u8>, v: u16)
    ensures
        final(target)@ == old(target)@ + u16_le(v),
{
    target.push((v & 0xff) as u8);
    target.push(((v >> 8) & 0xff) as u8);
    proof {
        assert(final(target)@ =~= old(target)@ + u16_le(v));
    }
}

/// Appends the four bytes of `v`, least significant first.
pub fn write_u32(target: &mut Vec<u8>, v: u32)
    ensures
        final(target)@ == old(target)@ + u32_le(v),
{
    target.push((v & 0xff) as u8);
    target.push(((v >> 8) & 0xff) as u8);
    target.push(((v >> 16) & 0xff) as u8);
    target.push(((v >> 24) & 0xff) as u8);
    proof {
        assert(final(target)@ =~= old(target)@ + u32_le(v));
    }
}

/// Appends the eight bytes of `v`, least significant first.
pub fn write_u64(target: &mut Vec<u8>, v: u64)
    ensures
        final(target)@ == old(target)@ + u64_le(v),
{
    target.push((v & 0xff) as u8);
    target.push(((v >> 8) & 0xff) as u8);
    target.push(((v >> 16) & 0xff) as u8);
    target.push(((v >> 24) & 0xff) as u8);
    target.push(((v >> 32) & 0xff) as u8);
    target.push(((v >> 40) & 0xff) as u8);
    target.push(((v >> 48) & 0xff) as u8);
    target.push(((v >> 56) & 0xff) as u8);
    proof {
        assert(final(target)@ =~= old(target)@ + u64_le(v));
    }
}

impl<'a> SliceReader<'a> {
    /// Reads a 16-bit value, least significant byte first.
    ///
    /// # Errors
    /// Returns [DeserializationError::UnexpectedEOF], and reads nothing, if fewer than 2 bytes
    /// are left.
    pub fn read_u16(&mut self) -> (r: Result<u16, DeserializationError>)
        requires
            old(self).wf(),
        ensures
            final(self).wf(),
            final(self).spec_source() == old(self).spec_source(),
            old(self).spec_pos() + 2 <= old(self).spec_source().len() ==> (r matches Ok(v)
                && u16_le(v) == old(self).spec_source().subrange(old(self).spec_pos() as int, old(self).spec_pos() + 2int)
                && final(self).spec_pos() == old(self).spec_pos() + 2int),
            old(self).spec_pos() + 2 > old(self).spec_source().len() ==> r == Err::<u16, DeserializationError>(
                DeserializationError::UnexpectedEOF,
            ) && final(self).spec_pos() == old(self).spec_pos(),
    {
        if self.source.len() - self.pos < 2 {
            return Err(DeserializationError::UnexpectedEOF);
        }
        let b0 = self.source[self.pos] as u16;
        let b1 = self.source[self.pos + 1] as u16;
        self.pos = self.pos + 2;
        let v = b0 | (b1 << 8);
        proof {
            lemma_u16_bytes(b0, b1);
            assert(u16_le(v) =~= old(self).spec_source().subrange(old(self).spec_pos() as int, old(self).spec_pos() + 2int));
        }
        Ok(v)
    }

    /// Reads a 32-bit value, least significant byte first.
    ///
    /// # Errors
    /// Returns [DeserializationError::UnexpectedEOF], and reads nothing, if fewer than 4 bytes
    /// are left.
    pub fn read_u32(&mut self) -> (r: Result<u32, DeserializationError>)
        requires
            old(self).wf(),
        ensures
            final(self).wf(),
            final(self).spec_source() == old(self).spec_source(),
            old(self).spec_pos() + 4 <= old(self).spec_source().len() ==> (r matches Ok(v)
                && u32_le(v) == old(self).spec_source().subrange(old(self).spec_pos() as int, old(self).spec_pos() + 4int)
                && final(self).spec_pos() == old(self).spec_pos() + 4int),
            old(self).spec_pos() + 4 > old(self).spec_source().len() ==> r == Err::<u32, DeserializationError>(
                DeserializationError::UnexpectedEOF,
            ) && final(self).spec_pos() == old(self).spec_pos(),
    {
        if self.source.len() - self.pos < 4 {
            return Err(DeserializationError::UnexpectedEOF);
        }
        let b0 = self.source[self.pos] as u32;
        let b1 = self.source[self.pos + 1] as u32;
        let b2 = self.source[self.pos + 2] as u32;
        let b3 = self.source[self.pos + 3] as u32;
        self.pos = self.pos + 4;
        let v = b0 | (b1 << 8) | (b2 << 16) | (b3 << 24);
        proof {
            lemma_u32_bytes(b0, b1, b2, b3);
            assert(u32_le(v) =~= old(self).spec_source().subrange(old(self).spec_pos() as int, old(self).spec_pos() + 4int));
        }
        Ok(v)
    }

    /// Reads a 64-bit value, least significant byte first.
    ///
    /// # Errors
    /// Returns [DeserializationError::UnexpectedEOF], and reads nothing, if fewer than 8 bytes
    /// are left.
    pub fn read_u64(&mut self) -> (r: Result<u64, DeserializationError>)
        requires
            old(self).wf(),
        ensures
            final(self).wf(),
            final(self).spec_source() == old(self).spec_source(),
            old(self).spec_pos() + 8 <= old(self).spec_source().len() ==> (r matches Ok(v)
                && u64_le(v) == old(self).spec_source().subrange(old(self).spec_pos() as int, old(self).spec_pos() + 8int)
                && final(self).spec_pos() == old(self).spec_pos() + 8int),
            old(self).spec_pos() + 8 > old(self).spec_source().len() ==> r == Err::<u64, DeserializationError>(
                DeserializationError::UnexpectedEOF,
            ) && final(self).spec_pos() == old(self).spec_pos(),
    {
        if self.source.len() - self.pos < 8 {
            return Err(DeserializationError::UnexpectedEOF);
        }
        let p = self.pos;
        let b0 = self.source[p] as u64;
        let b1 = self.source[p + 1] as u64;
        let b2 = self.source[p + 2] as u64;
        let b3 = self.source[p + 3] as u64;
        let b4 = self.source[p + 4] as u64;
        let b5 = self.source[p + 5] as u64;
        let b6 = self.source[p + 6] as u64;
        let b7 = self.source[p + 7] as u64;
        self.pos = p + 8;
        let v = b0 | (b1 << 8) | (b2 << 16) | (b3 << 24) | (b4 << 32) | (b5 << 40) | (b6 << 48) | (b7 << 56);
        proof {
            lemma_u64_bytes(b0, b1, b2, b3, b4, b5, b6, b7);
            assert(u64_le(v) =~= old(self).spec_source().subrange(p as int, p + 8));
        }
        Ok(v)
    }
}

} // verus!
