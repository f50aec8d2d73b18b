//! The text of instructions, as they are displayed.

use vstd::prelude::*;

use crate::ast::binary::{digest_le, instruction_immediate, instruction_opcode};
use crate::ast::encoding::write_u64;
use crate::ast::instruction::Instruction;
use crate::ast::instruction::Instruction as I;
use crate::ast::InvocationTarget;
use crate::felt::Felt;
use crate::format::{append_decimal, decimal, display_hex_bytes, display_push_vec, hex_bytes, push_text};
use crate::ops::{AdviceInjector, DebugOptions, SignatureKind};
use crate::procedure::RpoDigest;

verus! {

/// `prefix` followed by the decimal text of `n`.
fn with_decimal(prefix: &str, n: u64) -> (r: String)
    ensures
        r@ == prefix@ + decimal(n as nat),
{
    let mut out = String::from_str(prefix);
    append_decimal(&mut out, n);
    out
}

/// `prefix` followed by `text`.
fn with_text(prefix: &str, text: String) -> (r: String)
    ensures
        r@ == prefix@ + text@,
{
    let mut out = String::from_str(prefix);
    out.append(text.as_str());
    out
}

/// The text of a MAST root: `0x` and two lower-case hex digits for each of its bytes.
pub open spec fn root_text(d: RpoDigest) -> Seq<char> {
    "0x"@ + hex_bytes(digest_le(d))
}

/// Builds the text of a MAST root.
fn root_string(d: RpoDigest) -> (r: String)
    ensures
        r@ == root_text(d),
{
    let mut bytes: Vec<u8> = Vec::new();
    write_u64(&mut bytes, d.e0);
    write_u64(&mut bytes, d.e1);
    write_u64(&mut bytes, d.e2);
    write_u64(&mut bytes, d.e3);
    proof {
        assert(bytes@ =~= digest_le(d));
    }
    display_hex_bytes(bytes.as_slice())
}

/// The text of the target of an invocation: a MAST root in hex, a local name, `module::name` for
/// a procedure of an imported module, and `::path::name` for a fully-qualified one.
pub open spec fn target_text(t: InvocationTarget) -> Seq<char> {
    match t {
        InvocationTarget::MastRoot(d) => root_text(d),
        InvocationTarget::ProcedureName(name) => name@,
        InvocationTarget::ProcedurePath { name, module } => module@ + "::"@ + name@,
        InvocationTarget::AbsoluteProcedurePath { name, path } => "::"@ + path@ + "::"@ + name@,
    }
}

/// Builds the text of the target of an invocation.
fn target_string(t: &InvocationTarget) -> (r: String)
    ensures
        r@ == target_text(*t),
{
    match t {
        InvocationTarget::MastRoot(d) => root_string(*d),
        InvocationTarget::ProcedureName(name) => name.clone(),
        InvocationTarget::ProcedurePath { name, module } => {
            let mut out = module.clone();
            out.append("::");
            out.append(name.as_str());
            out
        },
        InvocationTarget::AbsoluteProcedurePath { name, path } => {
            let mut out = String::from_str("::");
            out.append(path.as_str());
            out.append("::");
            out.append(name.as_str());
            out
        },
    }
}

/// The text of the options of a `debug` instruction.
pub open spec fn debug_text(d: DebugOptions) -> Seq<char> {
    match d {
        DebugOptions::StackAll => "stack"@,
        DebugOptions::StackTop(n) => "stack."@ + decimal(n as nat),
        DebugOptions::MemAll => "mem"@,
        DebugOptions::MemInterval(a, b) => "mem."@ + decimal(a as nat) + "."@ + decimal(b as nat),
        DebugOptions::LocalInterval(a, b, _) => "local."@ + decimal(a as nat) + "."@ + decimal(b as nat),
    }
}

/// Builds the text of the options of a `debug` instruction.
fn debug_string(d: DebugOptions) -> (r: String)
    ensures
        r@ == debug_text(d),
{
    match d {
        DebugOptions::StackAll => String::from_str("stack"),
        DebugOptions::StackTop(n) => with_decimal("stack.", n as u64),
        DebugOptions::MemAll => String::from_str("mem"),
        DebugOptions::MemInterval(a, b) => {
            let mut out = with_decimal("mem.", a as u64);
            out.append(".");
            append_decimal(&mut out, b as u64);
            out
        },
        DebugOptions::LocalInterval(a, b, _) => {
            let mut out = with_decimal("local.", a as u64);
            out.append(".");
            append_decimal(&mut out, b as u64);
            out
        },
    }
}

/// The text of an advice injector, as the `adv.` instruction that requests it names it; an
/// injector that no such instruction requests is named by what it does.
pub open spec fn advice_text(a: AdviceInjector) -> Seq<char> {
    match a {
        AdviceInjector::MerkleNodeMerge => "merkle_node_merge"@,
        AdviceInjector::MerkleNodeToStack => "push_mtnode"@,
        AdviceInjector::UpdateMerkleNode => "update_merkle_node"@,
        AdviceInjector::MapValueToStack { include_len, key_offset } => {
            let name = if include_len { "push_mapvaln"@ } else { "push_mapval"@ };
            if key_offset == 0 { name } else { name + "."@ + decimal(key_offset as nat) }
        },
        AdviceInjector::U64Div => "push_u64div"@,
        AdviceInjector::Ext2Inv => "ext2_inv"@,
        AdviceInjector::Ext2Intt => "push_ext2intt"@,
        AdviceInjector::SmtGet => "push_smtget"@,
        AdviceInjector::SmtSet => "push_smtinsert"@,
        AdviceInjector::SmtPeek => "push_smtpeek"@,
        AdviceInjector::U32Clz => "u32clz"@,
        AdviceInjector::U32Ctz => "u32ctz"@,
        AdviceInjector::U32Clo => "u32clo"@,
        AdviceInjector::U32Cto => "u32cto"@,
        AdviceInjector::ILog2 => "ilog2"@,
        AdviceInjector::MemToMap => "insert_mem"@,
        AdviceInjector::HdwordToMap { domain } => if domain.value == 0 {
            "insert_hdword"@
        } else {
            "insert_hdword."@ + decimal(domain.value as nat)
        },
        AdviceInjector::HpermToMap => "insert_hperm"@,
        AdviceInjector::SigToStack { kind } => match kind {
            SignatureKind::RpoFalcon512 => "push_sig.rpo_falcon512"@,
        },
    }
}

/// Builds the text of an advice injector.
fn advice_string(a: AdviceInjector) -> (r: String)
    ensures
        r@ == advice_text(a),
{
    match a {
        AdviceInjector::MerkleNodeMerge => String::from_str("merkle_node_merge"),
        AdviceInjector::MerkleNodeToStack => String::from_str("push_mtnode"),
        AdviceInjector::UpdateMerkleNode => String::from_str("update_merkle_node"),
        AdviceInjector::MapValueToStack { include_len, key_offset } => {
            let mut out = if include_len { String::from_str("push_mapvaln") } else { String::from_str("push_mapval") };
            if key_offset != 0 {
                out.append(".");
                append_decimal(&mut out, key_offset as u64);
            }
            out
        },
        AdviceInjector::U64Div => String::from_str("push_u64div"),
        AdviceInjector::Ext2Inv => String::from_str("ext2_inv"),
        AdviceInjector::Ext2Intt => String::from_str("push_ext2intt"),
        AdviceInjector::SmtGet => String::from_str("push_smtget"),
        AdviceInjector::SmtSet => String::from_str("push_smtinsert"),
        AdviceInjector::SmtPeek => String::from_str("push_smtpeek"),
        AdviceInjector::U32Clz => String::from_str("u32clz"),
        AdviceInjector::U32Ctz => String::from_str("u32ctz"),
        AdviceInjector::U32Clo => String::from_str("u32clo"),
        AdviceInjector::U32Cto => String::from_str("u32cto"),
        AdviceInjector::ILog2 => String::from_str("ilog2"),
        AdviceInjector::MemToMap => String::from_str("insert_mem"),
        AdviceInjector::HdwordToMap { domain } => if domain.value == 0 {
            String::from_str("insert_hdword")
        } else {
            with_decimal("insert_hdword.", domain.value)
        },
        AdviceInjector::HpermToMap => String::from_str("insert_hperm"),
        AdviceInjector::SigToStack { kind } => match kind {
            SignatureKind::RpoFalcon512 => String::from_str("push_sig.rpo_falcon512"),
        },
    }
}

/// The values of a list of bytes, widened.
fn widen_u8s(x: &Vec<u8>) -> (r: Vec<u64>)
    ensures
        r@ == x@.map_values(|v: u8| v as u64),
{
    let mut out: Vec<u64> = Vec::new();
    let mut k: usize = 0;
    while k < x.len()
        invariant
            k <= x@.len(),
            out@ == x@.subrange(0, k as int).map_values(|v: u8| v as u64),
        decreases x@.len() - k,
    {
        out.push(x[k] as u64);
        proof {
            assert(out@ =~= x@.subrange(0, k + 1).map_values(|v: u8| v as u64));
        }
        k = k + 1;
    }
    proof {
        assert(x@.subrange(0, x@.len() as int) =~= x@);
    }
    out
}

/// The values of a list of 16-bit values, widened.
fn widen_u16s(x: &Vec<u16>) -> (r: Vec<u64>)
    ensures
        r@ == x@.map_values(|v: u16| v as u64),
{
    let mut out: Vec<u64> = Vec::new();
    let mut k: usize = 0;
    while k < x.len()
        invariant
            k <= x@.len(),
            out@ == x@.subrange(0, k as int).map_values(|v: u16| v as u64),
        decreases x@.len() - k,
    {
        out.push(x[k] as u64);
        proof {
            assert(out@ =~= x@.subrange(0, k + 1).map_values(|v: u16| v as u64));
        }
        k = k + 1;
    }
    proof {
        assert(x@.subrange(0, x@.len() as int) =~= x@);
    }
    out
}

/// The values of a list of 32-bit values, widened.
fn widen_u32s(x: &Vec<u32>) -> (r: Vec<u64>)
    ensures
        r@ == x@.map_values(|v: u32| v as u64),
{
    let mut out: Vec<u64> = Vec::new();
    let mut k: usize = 0;
    while k < x.len()
        invariant
            k <= x@.len(),
            out@ == x@.subrange(0, k as int).map_values(|v: u32| v as u64),
        decreases x@.len() - k,
    {
        out.push(x[k] as u64);
        proof {
            assert(out@ =~= x@.subrange(0, k + 1).map_values(|v: u32| v as u64));
        }
        k = k + 1;
    }
    proof {
        assert(x@.subrange(0, x@.len() as int) =~= x@);
    }
    out
}

/// The values of a list of field elements.
fn felt_values(x: &[Felt]) -> (r: Vec<u64>)
    ensures
        r@ == x@.map_values(|v: Felt| v.value),
{
    let mut out: Vec<u64> = Vec::new();
    let mut k: usize = 0;
    while k < x.len()
        invariant
            k <= x@.len(),
            out@ == x@.subrange(0, k as int).map_values(|v: Felt| v.value),
        decreases x@.len() - k,
    {
        out.push(x[k].value);
        proof {
            assert(out@ =~= x@.subrange(0, k + 1).map_values(|v: Felt| v.value));
        }
        k = k + 1;
    }
    proof {
        assert(x@.subrange(0, x@.len() as int) =~= x@);
    }
    out
}


/// The text of `i`, as it is displayed: its name, then `.` and each immediate value in decimal, an
/// error code after `.err=`, and the target of an invocation.
pub open spec fn instruction_display(i: Instruction) -> Seq<char> {
    match i {
        Instruction::Nop => "nop"@,
        Instruction::Assert => "assert"@,
        Instruction::AssertWithError(x) => "assert.err="@ + decimal(x as nat),
        Instruction::AssertEq => "assert_eq"@,
        Instruction::AssertEqWithError(x) => "assert_eq.err="@ + decimal(x as nat),
        Instruction::AssertEqw => "assert_eqw"@,
        Instruction::AssertEqwWithError(x) => "assert_eqw.err="@ + decimal(x as nat),
        Instruction::Assertz => "assertz"@,
        Instruction::AssertzWithError(x) => "assertz.err="@ + decimal(x as nat),
        Instruction::Add => "add"@,
        Instruction::AddImm(x) => "add."@ + decimal(x.value as nat),
        Instruction::Sub => "sub"@,
        Instruction::SubImm(x) => "sub."@ + decimal(x.value as nat),
        Instruction::Mul => "mul"@,
        Instruction::MulImm(x) => "mul."@ + decimal(x.value as nat),
        Instruction::Div => "div"@,
        Instruction::DivImm(x) => "div."@ + decimal(x.value as nat),
        Instruction::Neg => "neg"@,
        Instruction::ILog2 => "ilog2"@,
        Instruction::Inv => "inv"@,
        Instruction::Incr => "add.1"@,
        Instruction::Pow2 => "pow2"@,
        Instruction::Exp => "exp"@,
        Instruction::ExpImm(x) => "exp."@ + decimal(x.value as nat),
        Instruction::ExpBitLength(x) => "exp.u"@ + decimal(x as nat),
        Instruction::Not => "not"@,
        Instruction::And => "and"@,
        Instruction::Or => "or"@,
        Instruction::Xor => "xor"@,
        Instruction::Eq => "eq"@,
        Instruction::EqImm(x) => "eq."@ + decimal(x.value as nat),
        Instruction::Neq => "neq"@,
        Instruction::NeqImm(x) => "neq."@ + decimal(x.value as nat),
        Instruction::Eqw => "eqw"@,
        Instruction::Lt => "lt"@,
        Instruction::Lte => "lte"@,
        Instruction::Gt => "gt"@,
        Instruction::Gte => "gte"@,
        Instruction::IsOdd => "is_odd"@,
        Instruction::Ext2Add => "ext2add"@,
        Instruction::Ext2Sub => "ext2sub"@,
        Instruction::Ext2Mul => "ext2mul"@,
        Instruction::Ext2Div => "ext2div"@,
        Instruction::Ext2Neg => "ext2neg"@,
        Instruction::Ext2Inv => "ext2inv"@,
        Instruction::U32Test => "u32test"@,
        Instruction::U32TestW => "u32testw"@,
        Instruction::U32Assert => "u32assert"@,
        Instruction::U32AssertWithError(x) => "u32assert.err="@ + decimal(x as nat),
        Instruction::U32Assert2 => "u32assert2"@,
        Instruction::U32Assert2WithError(x) => "u32assert2.err="@ + decimal(x as nat),
        Instruction::U32AssertW => "u32assertw"@,
        Instruction::U32AssertWWithError(x) => "u32assertw.err="@ + decimal(x as nat),
        Instruction::U32Split => "u32split"@,
        Instruction::U32Cast => "u32cast"@,
        Instruction::U32WrappingAdd => "u32wrapping_add"@,
        Instruction::U32WrappingAddImm(x) => "u32wrapping_add."@ + decimal(x as nat),
        Instruction::U32OverflowingAdd => "u32overflowing_add"@,
        Instruction::U32OverflowingAddImm(x) => "u32overflowing_add."@ + decimal(x as nat),
        Instruction::U32OverflowingAdd3 => "u32overflowing_add3"@,
        Instruction::U32WrappingAdd3 => "u32wrapping_add3"@,
        Instruction::U32WrappingSub => "u32wrapping_sub"@,
        Instruction::U32WrappingSubImm(x) => "u32wrapping_sub."@ + decimal(x as nat),
        Instruction::U32OverflowingSub => "u32overflowing_sub"@,
        Instruction::U32OverflowingSubImm(x) => "u32overflowing_sub."@ + decimal(x as nat),
        Instruction::U32WrappingMul => "u32wrapping_mul"@,
        Instruction::U32WrappingMulImm(x) => "u32wrapping_mul."@ + decimal(x as nat),
        Instruction::U32OverflowingMul => "u32overflowing_mul"@,
        Instruction::U32OverflowingMulImm(x) => "u32overflowing_mul."@ + decimal(x as nat),
        Instruction::U32OverflowingMadd => "u32overflowing_madd"@,
        Instruction::U32WrappingMadd => "u32wrapping_madd"@,
        Instruction::U32Div => "u32div"@,
        Instruction::U32DivImm(x) => "u32div."@ + decimal(x as nat),
        Instruction::U32Mod => "u32mod"@,
        Instruction::U32ModImm(x) => "u32mod."@ + decimal(x as nat),
        Instruction::U32DivMod => "u32divmod"@,
        Instruction::U32DivModImm(x) => "u32divmod."@ + decimal(x as nat),
        Instruction::U32And => "u32and"@,
        Instruction::U32Or => "u32or"@,
        Instruction::U32Xor => "u32xor"@,
        Instruction::U32Not => "u32not"@,
        Instruction::U32Shr => "u32shr"@,
        Instruction::U32ShrImm(x) => "u32shr."@ + decimal(x as nat),
        Instruction::U32Shl => "u32shl"@,
        Instruction::U32ShlImm(x) => "u32shl."@ + decimal(x as nat),
        Instruction::U32Rotr => "u32rotr"@,
        Instruction::U32RotrImm(x) => "u32rotr."@ + decimal(x as nat),
        Instruction::U32Rotl => "u32rotl"@,
        Instruction::U32RotlImm(x) => "u32rotl."@ + decimal(x as nat),
        Instruction::U32Popcnt => "u32popcnt"@,
        Instruction::U32Ctz => "u32ctz"@,
        Instruction::U32Clz => "u32clz"@,
        Instruction::U32Clo => "u32clo"@,
        Instruction::U32Cto => "u32cto"@,
        Instruction::U32Lt => "u32lt"@,
        Instruction::U32Lte => "u32lte"@,
        Instruction::U32Gt => "u32gt"@,
        Instruction::U32Gte => "u32gte"@,
        Instruction::U32Min => "u32min"@,
        Instruction::U32Max => "u32max"@,
        Instruction::Drop => "drop"@,
        Instruction::DropW => "dropw"@,
        Instruction::PadW => "padw"@,
        Instruction::Dup0 => "dup.0"@,
        Instruction::Dup1 => "dup.1"@,
        Instruction::Dup2 => "dup.2"@,
        Instruction::Dup3 => "dup.3"@,
        Instruction::Dup4 => "dup.4"@,
        Instruction::Dup5 => "dup.5"@,
        Instruction::Dup6 => "dup.6"@,
        Instruction::Dup7 => "dup.7"@,
        Instruction::Dup8 => "dup.8"@,
        Instruction::Dup9 => "dup.9"@,
        Instruction::Dup10 => "dup.10"@,
        Instruction::Dup11 => "dup.11"@,
        Instruction::Dup12 => "dup.12"@,
        Instruction::Dup13 => "dup.13"@,
        Instruction::Dup14 => "dup.14"@,
        Instruction::Dup15 => "dup.15"@,
        Instruction::DupW0 => "dupw.0"@,
        Instruction::DupW1 => "dupw.1"@,
        Instruction::DupW2 => "dupw.2"@,
        Instruction::DupW3 => "dupw.3"@,
        Instruction::Swap1 => "swap.1"@,
        Instruction::Swap2 => "swap.2"@,
        Instruction::Swap3 => "swap.3"@,
        Instruction::Swap4 => "swap.4"@,
        Instruction::Swap5 => "swap.5"@,
        Instruction::Swap6 => "swap.6"@,
        Instruction::Swap7 => "swap.7"@,
        Instruction::Swap8 => "swap.8"@,
        Instruction::Swap9 => "swap.9"@,
        Instruction::Swap10 => "swap.10"@,
        Instruction::Swap11 => "swap.11"@,
        Instruction::Swap12 => "swap.12"@,
        Instruction::Swap13 => "swap.13"@,
        Instruction::Swap14 => "swap.14"@,
        Instruction::Swap15 => "swap.15"@,
        Instruction::SwapW1 => "swapw.1"@,
        Instruction::SwapW2 => "swapw.2"@,
        Instruction::SwapW3 => "swapw.3"@,
        Instruction::SwapDw => "swapdw"@,
        Instruction::MovUp2 => "movup.2"@,
        Instruction::MovUp3 => "movup.3"@,
        Instruction::MovUp4 => "movup.4"@,
        Instruction::MovUp5 => "movup.5"@,
        Instruction::MovUp6 => "movup.6"@,
        Instruction::MovUp7 => "movup.7"@,
        Instruction::MovUp8 => "movup.8"@,
        Instruction::MovUp9 => "movup.9"@,
        Instruction::MovUp10 => "movup.10"@,
        Instruction::MovUp11 => "movup.11"@,
        Instruction::MovUp12 => "movup.12"@,
        Instruction::MovUp13 => "movup.13"@,
        Instruction::MovUp14 => "movup.14"@,
        Instruction::MovUp15 => "movup.15"@,
        Instruction::MovUpW2 => "movupw.2"@,
        Instruction::MovUpW3 => "movupw.3"@,
        Instruction::MovDn2 => "movdn.2"@,
        Instruction::MovDn3 => "movdn.3"@,
        Instruction::MovDn4 => "movdn.4"@,
        Instruction::MovDn5 => "movdn.5"@,
        Instruction::MovDn6 => "movdn.6"@,
        Instruction::MovDn7 => "movdn.7"@,
        Instruction::MovDn8 => "movdn.8"@,
        Instruction::MovDn9 => "movdn.9"@,
        Instruction::MovDn10 => "movdn.10"@,
        Instruction::MovDn11 => "movdn.11"@,
        Instruction::MovDn12 => "movdn.12"@,
        Instruction::MovDn13 => "movdn.13"@,
        Instruction::MovDn14 => "movdn.14"@,
        Instruction::MovDn15 => "movdn.15"@,
        Instruction::MovDnW2 => "movdnw.2"@,
        Instruction::MovDnW3 => "movdnw.3"@,
        Instruction::CSwap => "cswap"@,
        Instruction::CSwapW => "cswapw"@,
        Instruction::CDrop => "cdrop"@,
        Instruction::CDropW => "cdropw"@,
        Instruction::Push(x) => "push."@ + decimal(x.value as nat),
        Instruction::PushU8(x) => "push."@ + decimal(x as nat),
        Instruction::PushU16(x) => "push."@ + decimal(x as nat),
        Instruction::PushU32(x) => "push."@ + decimal(x as nat),
        Instruction::PushFelt(x) => "push."@ + decimal(x.value as nat),
        Instruction::PushWord(x) => push_text(x@.map_values(|v: Felt| v.value)),
        Instruction::PushU8List(x) => push_text(x@.map_values(|v: u8| v as u64)),
        Instruction::PushU16List(x) => push_text(x@.map_values(|v: u16| v as u64)),
        Instruction::PushU32List(x) => push_text(x@.map_values(|v: u32| v as u64)),
        Instruction::PushFeltList(x) => push_text(x@.map_values(|v: Felt| v.value)),
        Instruction::Locaddr(x) => "locaddr."@ + decimal(x as nat),
        Instruction::Sdepth => "sdepth"@,
        Instruction::Caller => "caller"@,
        Instruction::Clk => "clk"@,
        Instruction::MemLoad => "mem_load"@,
        Instruction::MemLoadImm(x) => "mem_load."@ + decimal(x as nat),
        Instruction::MemLoadW => "mem_loadw"@,
        Instruction::MemLoadWImm(x) => "mem_loadw."@ + decimal(x as nat),
        Instruction::LocLoad(x) => "loc_load."@ + decimal(x as nat),
        Instruction::LocLoadW(x) => "loc_loadw."@ + decimal(x as nat),
        Instruction::MemStore => "mem_store"@,
        Instruction::MemStoreImm(x) => "mem_store."@ + decimal(x as nat),
        Instruction::LocStore(x) => "loc_store."@ + decimal(x as nat),
        Instruction::MemStoreW => "mem_storew"@,
        Instruction::MemStoreWImm(x) => "mem_storew."@ + decimal(x as nat),
        Instruction::LocStoreW(x) => "loc_storew."@ + decimal(x as nat),
        Instruction::MemStream => "mem_stream"@,
        Instruction::AdvPipe => "adv_pipe"@,
        Instruction::AdvPush(x) => "adv_push."@ + decimal(x as nat),
        Instruction::AdvLoadW => "adv_loadw"@,
        Instruction::AdvInject(x) => "adv."@ + advice_text(x),
        Instruction::Hash => "hash"@,
        Instruction::HMerge => "hmerge"@,
        Instruction::HPerm => "hperm"@,
        Instruction::MTreeGet => "mtree_get"@,
        Instruction::MTreeSet => "mtree_set"@,
        Instruction::MTreeMerge => "mtree_merge"@,
        Instruction::MTreeVerify => "mtree_verify"@,
        Instruction::MTreeVerifyWithError(x) => "mtree_verify.err="@ + decimal(x as nat),
        Instruction::FriExt2Fold4 => "fri_ext2fold4"@,
        Instruction::RCombBase => "rcomb_base"@,
        Instruction::Exec(x) => "exec."@ + target_text(x),
        Instruction::Call(x) => "call."@ + target_text(x),
        Instruction::SysCall(x) => "syscall."@ + target_text(x),
        Instruction::DynExec => "dynexec"@,
        Instruction::DynCall => "dyncall"@,
        Instruction::ProcRef(x) => "procref."@ + target_text(x),
        Instruction::Breakpoint => "breakpoint"@,
        Instruction::Debug(x) => "debug."@ + debug_text(x),
        Instruction::Emit(x) => "emit."@ + decimal(x as nat),
        Instruction::Trace(x) => "trace."@ + decimal(x as nat),
    }
}

/// Builds the text of `inst`, as it is displayed. A `procref` names its procedure, never a MAST
/// root.
pub fn instruction_text(inst: &Instruction) -> (r: String)
    requires
        !(*inst matches Instruction::ProcRef(InvocationTarget::MastRoot(_))),
    ensures
        r@ == instruction_display(*inst),
{
    match inst {
        Instruction::Nop => String::from_str("nop"),
        Instruction::Assert => String::from_str("assert"),
        Instruction::AssertWithError(x) => with_decimal("assert.err=", *x as u64),
        Instruction::AssertEq => String::from_str("assert_eq"),
        Instruction::AssertEqWithError(x) => with_decimal("assert_eq.err=", *x as u64),
        Instruction::AssertEqw => String::from_str("assert_eqw"),
        Instruction::AssertEqwWithError(x) => with_decimal("assert_eqw.err=", *x as u64),
        Instruction::Assertz => String::from_str("assertz"),
        Instruction::AssertzWithError(x) => with_decimal("assertz.err=", *x as u64),
        Instruction::Add => String::from_str("add"),
        Instruction::AddImm(x) => with_decimal("add.", x.value),
        Instruction::Sub => String::from_str("sub"),
        Instruction::SubImm(x) => with_decimal("sub.", x.value),
        Instruction::Mul => String::from_str("mul"),
        Instruction::MulImm(x) => with_decimal("mul.", x.value),
        Instruction::Div => String::from_str("div"),
        Instruction::DivImm(x) => with_decimal("div.", x.value),
        Instruction::Neg => String::from_str("neg"),
        Instruction::ILog2 => String::from_str("ilog2"),
        Instruction::Inv => String::from_str("inv"),
        Instruction::Incr => String::from_str("add.1"),
        Instruction::Pow2 => String::from_str("pow2"),
        Instruction::Exp => String::from_str("exp"),
        Instruction::ExpImm(x) => with_decimal("exp.", x.value),
        Instruction::ExpBitLength(x) => with_decimal("exp.u", *x as u64),
        Instruction::Not => String::from_str("not"),
        Instruction::And => String::from_str("and"),
        Instruction::Or => String::from_str("or"),
        Instruction::Xor => String::from_str("xor"),
        Instruction::Eq => String::from_str("eq"),
        Instruction::EqImm(x) => with_decimal("eq.", x.value),
        Instruction::Neq => String::from_str("neq"),
        Instruction::NeqImm(x) => with_decimal("neq.", x.value),
        Instruction::Eqw => String::from_str("eqw"),
        Instruction::Lt => String::from_str("lt"),
        Instruction::Lte => String::from_str("lte"),
        Instruction::Gt => String::from_str("gt"),
        Instruction::Gte => String::from_str("gte"),
        Instruction::IsOdd => String::from_str("is_odd"),
        Instruction::Ext2Add => String::from_str("ext2add"),
        Instruction::Ext2Sub => String::from_str("ext2sub"),
        Instruction::Ext2Mul => String::from_str("ext2mul"),
        Instruction::Ext2Div => String::from_str("ext2div"),
        Instruction::Ext2Neg => String::from_str("ext2neg"),
        Instruction::Ext2Inv => String::from_str("ext2inv"),
        Instruction::U32Test => String::from_str("u32test"),
        Instruction::U32TestW => String::from_str("u32testw"),
        Instruction::U32Assert => String::from_str("u32assert"),
        Instruction::U32AssertWithError(x) => with_decimal("u32assert.err=", *x as u64),
        Instruction::U32Assert2 => String::from_str("u32assert2"),
        Instruction::U32Assert2WithError(x) => with_decimal("u32assert2.err=", *x as u64),
        Instruction::U32AssertW => String::from_str("u32assertw"),
        Instruction::U32AssertWWithError(x) => with_decimal("u32assertw.err=", *x as u64),
        Instruction::U32Split => String::from_str("u32split"),
        Instruction::U32Cast => String::from_str("u32cast"),
        Instruction::U32WrappingAdd => String::from_str("u32wrapping_add"),
        Instruction::U32WrappingAddImm(x) => with_decimal("u32wrapping_add.", *x as u64),
        Instruction::U32OverflowingAdd => String::from_str("u32overflowing_add"),
        Instruction::U32OverflowingAddImm(x) => with_decimal("u32overflowing_add.", *x as u64),
        Instruction::U32OverflowingAdd3 => String::from_str("u32overflowing_add3"),
        Instruction::U32WrappingAdd3 => String::from_str("u32wrapping_add3"),
        Instruction::U32WrappingSub => String::from_str("u32wrapping_sub"),
        Instruction::U32WrappingSubImm(x) => with_decimal("u32wrapping_sub.", *x as u64),
        Instruction::U32OverflowingSub => String::from_str("u32overflowing_sub"),
        Instruction::U32OverflowingSubImm(x) => with_decimal("u32overflowing_sub.", *x as u64),
        Instruction::U32WrappingMul => String::from_str("u32wrapping_mul"),
        Instruction::U32WrappingMulImm(x) => with_decimal("u32wrapping_mul.", *x as u64),
        Instruction::U32OverflowingMul => String::from_str("u32overflowing_mul"),
        Instruction::U32OverflowingMulImm(x) => with_decimal("u32overflowing_mul.", *x as u64),
        Instruction::U32OverflowingMadd => String::from_str("u32overflowing_madd"),
        Instruction::U32WrappingMadd => String::from_str("u32wrapping_madd"),
        Instruction::U32Div => String::from_str("u32div"),
        Instruction::U32DivImm(x) => with_decimal("u32div.", *x as u64),
        Instruction::U32Mod => String::from_str("u32mod"),
        Instruction::U32ModImm(x) => with_decimal("u32mod.", *x as u64),
        Instruction::U32DivMod => String::from_str("u32divmod"),
        Instruction::U32DivModImm(x) => with_decimal("u32divmod.", *x as u64),
        Instruction::U32And => String::from_str("u32and"),
        Instruction::U32Or => String::from_str("u32or"),
        Instruction::U32Xor => String::from_str("u32xor"),
        Instruction::U32Not => String::from_str("u32not"),
        Instruction::U32Shr => String::from_str("u32shr"),
        Instruction::U32ShrImm(x) => with_decimal("u32shr.", *x as u64),
        Instruction::U32Shl => String::from_str("u32shl"),
        Instruction::U32ShlImm(x) => with_decimal("u32shl.", *x as u64),
        Instruction::U32Rotr => String::from_str("u32rotr"),
        Instruction::U32RotrImm(x) => with_decimal("u32rotr.", *x as u64),
        Instruction::U32Rotl => String::from_str("u32rotl"),
        Instruction::U32RotlImm(x) => with_decimal("u32rotl.", *x as u64),
        Instruction::U32Popcnt => String::from_str("u32popcnt"),
        Instruction::U32Ctz => String::from_str("u32ctz"),
        Instruction::U32Clz => String::from_str("u32clz"),
        Instruction::U32Clo => String::from_str("u32clo"),
        Instruction::U32Cto => String::from_str("u32cto"),
        Instruction::U32Lt => String::from_str("u32lt"),
        Instruction::U32Lte => String::from_str("u32lte"),
        Instruction::U32Gt => String::from_str("u32gt"),
        Instruction::U32Gte => String::from_str("u32gte"),
        Instruction::U32Min => String::from_str("u32min"),
        Instruction::U32Max => String::from_str("u32max"),
        Instruction::Drop => String::from_str("drop"),
        Instruction::DropW => String::from_str("dropw"),
        Instruction::PadW => String::from_str("padw"),
        Instruction::Dup0 => String::from_str("dup.0"),
        Instruction::Dup1 => String::from_str("dup.1"),
        Instruction::Dup2 => String::from_str("dup.2"),
        Instruction::Dup3 => String::from_str("dup.3"),
        Instruction::Dup4 => String::from_str("dup.4"),
        Instruction::Dup5 => String::from_str("dup.5"),
        Instruction::Dup6 => String::from_str("dup.6"),
        Instruction::Dup7 => String::from_str("dup.7"),
        Instruction::Dup8 => String::from_str("dup.8"),
        Instruction::Dup9 => String::from_str("dup.9"),
        Instruction::Dup10 => String::from_str("dup.10"),
        Instruction::Dup11 => String::from_str("dup.11"),
        Instruction::Dup12 => String::from_str("dup.12"),
        Instruction::Dup13 => String::from_str("dup.13"),
        Instruction::Dup14 => String::from_str("dup.14"),
        Instruction::Dup15 => String::from_str("dup.15"),
        Instruction::DupW0 => String::from_str("dupw.0"),
        Instruction::DupW1 => String::from_str("dupw.1"),
        Instruction::DupW2 => String::from_str("dupw.2"),
        Instruction::DupW3 => String::from_str("dupw.3"),
        Instruction::Swap1 => String::from_str("swap.1"),
        Instruction::Swap2 => String::from_str("swap.2"),
        Instruction::Swap3 => String::from_str("swap.3"),
        Instruction::Swap4 => String::from_str("swap.4"),
        Instruction::Swap5 => String::from_str("swap.5"),
        Instruction::Swap6 => String::from_str("swap.6"),
        Instruction::Swap7 => String::from_str("swap.7"),
        Instruction::Swap8 => String::from_str("swap.8"),
        Instruction::Swap9 => String::from_str("swap.9"),
        Instruction::Swap10 => String::from_str("swap.10"),
        Instruction::Swap11 => String::from_str("swap.11"),
        Instruction::Swap12 => String::from_str("swap.12"),
        Instruction::Swap13 => String::from_str("swap.13"),
        Instruction::Swap14 => String::from_str("swap.14"),
        Instruction::Swap15 => String::from_str("swap.15"),
        Instruction::SwapW1 => String::from_str("swapw.1"),
        Instruction::SwapW2 => String::from_str("swapw.2"),
        Instruction::SwapW3 => String::from_str("swapw.3"),
        Instruction::SwapDw => String::from_str("swapdw"),
        Instruction::MovUp2 => String::from_str("movup.2"),
        Instruction::MovUp3 => String::from_str("movup.3"),
        Instruction::MovUp4 => String::from_str("movup.4"),
        Instruction::MovUp5 => String::from_str("movup.5"),
        Instruction::MovUp6 => String::from_str("movup.6"),
        Instruction::MovUp7 => String::from_str("movup.7"),
        Instruction::MovUp8 => String::from_str("movup.8"),
        Instruction::MovUp9 => String::from_str("movup.9"),
        Instruction::MovUp10 => String::from_str("movup.10"),
        Instruction::MovUp11 => String::from_str("movup.11"),
        Instruction::MovUp12 => String::from_str("movup.12"),
        Instruction::MovUp13 => String::from_str("movup.13"),
        Instruction::MovUp14 => String::from_str("movup.14"),
        Instruction::MovUp15 => String::from_str("movup.15"),
        Instruction::MovUpW2 => String::from_str("movupw.2"),
        Instruction::MovUpW3 => String::from_str("movupw.3"),
        Instruction::MovDn2 => String::from_str("movdn.2"),
        Instruction::MovDn3 => String::from_str("movdn.3"),
        Instruction::MovDn4 => String::from_str("movdn.4"),
        Instruction::MovDn5 => String::from_str("movdn.5"),
        Instruction::MovDn6 => String::from_str("movdn.6"),
        Instruction::MovDn7 => String::from_str("movdn.7"),
        Instruction::MovDn8 => String::from_str("movdn.8"),
        Instruction::MovDn9 => String::from_str("movdn.9"),
        Instruction::MovDn10 => String::from_str("movdn.10"),
        Instruction::MovDn11 => String::from_str("movdn.11"),
        Instruction::MovDn12 => String::from_str("movdn.12"),
        Instruction::MovDn13 => String::from_str("movdn.13"),
        Instruction::MovDn14 => String::from_str("movdn.14"),
        Instruction::MovDn15 => String::from_str("movdn.15"),
        Instruction::MovDnW2 => String::from_str("movdnw.2"),
        Instruction::MovDnW3 => String::from_str("movdnw.3"),
        Instruction::CSwap => String::from_str("cswap"),
        Instruction::CSwapW => String::from_str("cswapw"),
        Instruction::CDrop => String::from_str("cdrop"),
        Instruction::CDropW => String::from_str("cdropw"),
        Instruction::Push(x) => with_decimal("push.", x.value),
        Instruction::PushU8(x) => with_decimal("push.", *x as u64),
        Instruction::PushU16(x) => with_decimal("push.", *x as u64),
        Instruction::PushU32(x) => with_decimal("push.", *x as u64),
        Instruction::PushFelt(x) => with_decimal("push.", x.value),
        Instruction::PushWord(x) => display_push_vec(felt_values(x.as_slice()).as_slice()),
        Instruction::PushU8List(x) => display_push_vec(widen_u8s(x).as_slice()),
        Instruction::PushU16List(x) => display_push_vec(widen_u16s(x).as_slice()),
        Instruction::PushU32List(x) => display_push_vec(widen_u32s(x).as_slice()),
        Instruction::PushFeltList(x) => display_push_vec(felt_values(x.as_slice()).as_slice()),
        Instruction::Locaddr(x) => with_decimal("locaddr.", *x as u64),
        Instruction::Sdepth => String::from_str("sdepth"),
        Instruction::Caller => String::from_str("caller"),
        Instruction::Clk => String::from_str("clk"),
        Instruction::MemLoad => String::from_str("mem_load"),
        Instruction::MemLoadImm(x) => with_decimal("mem_load.", *x as u64),
        Instruction::MemLoadW => String::from_str("mem_loadw"),
        Instruction::MemLoadWImm(x) => with_decimal("mem_loadw.", *x as u64),
        Instruction::LocLoad(x) => with_decimal("loc_load.", *x as u64),
        Instruction::LocLoadW(x) => with_decimal("loc_loadw.", *x as u64),
        Instruction::MemStore => String::from_str("mem_store"),
        Instruction::MemStoreImm(x) => with_decimal("mem_store.", *x as u64),
        Instruction::LocStore(x) => with_decimal("loc_store.", *x as u64),
        Instruction::MemStoreW => String::from_str("mem_storew"),
        Instruction::MemStoreWImm(x) => with_decimal("mem_storew.", *x as u64),
        Instruction::LocStoreW(x) => with_decimal("loc_storew.", *x as u64),
        Instruction::MemStream => String::from_str("mem_stream"),
        Instruction::AdvPipe => String::from_str("adv_pipe"),
        Instruction::AdvPush(x) => with_decimal("adv_push.", *x as u64),
        Instruction::AdvLoadW => String::from_str("adv_loadw"),
        Instruction::AdvInject(x) => with_text("adv.", advice_string(*x)),
        Instruction::Hash => String::from_str("hash"),
        Instruction::HMerge => String::from_str("hmerge"),
        Instruction::HPerm => String::from_str("hperm"),
        Instruction::MTreeGet => String::from_str("mtree_get"),
        Instruction::MTreeSet => String::from_str("mtree_set"),
        Instruction::MTreeMerge => String::from_str("mtree_merge"),
        Instruction::MTreeVerify => String::from_str("mtree_verify"),
        Instruction::MTreeVerifyWithError(x) => with_decimal("mtree_verify.err=", *x as u64),
        Instruction::FriExt2Fold4 => String::from_str("fri_ext2fold4"),
        Instruction::RCombBase => String::from_str("rcomb_base"),
        Instruction::Exec(x) => with_text("exec.", target_string(x)),
        Instruction::Call(x) => with_text("call.", target_string(x)),
        Instruction::SysCall(x) => with_text("syscall.", target_string(x)),
        Instruction::DynExec => String::from_str("dynexec"),
        Instruction::DynCall => String::from_str("dyncall"),
        Instruction::ProcRef(x) => with_text("procref.", target_string(x)),
        Instruction::Breakpoint => String::from_str("breakpoint"),
        Instruction::Debug(x) => with_text("debug.", debug_string(*x)),
        Instruction::Emit(x) => with_decimal("emit.", *x as u64),
        Instruction::Trace(x) => with_decimal("trace.", *x as u64),
    }
}

/// The instruction without operands that the mnemonic `t` names, if any: the names the assembly
/// language gives them, as a decision on the length of the text and then on each character.
pub open spec fn mnemonic_instruction(t: Seq<char>) -> Option<Instruction> {
    if t.len() == 2 {
        if t[0] == 'o' {
            if t[1] == 'r' {
                Some(I::Or)
            } else {
                None
            }
        } else if t[0] == 'e' {
            if t[1] == 'q' {
                Some(I::Eq)
            } else {
                None
            }
        } else if t[0] == 'l' {
            if t[1] == 't' {
                Some(I::Lt)
            } else {
                None
            }
        } else if t[0] == 'g' {
            if t[1] == 't' {
                Some(I::Gt)
            } else {
                None
            }
        } else {
            None
        }
    } else if t.len() == 3 {
        if t[0] == 'n' {
            if t[1] == 'o' {
                if t[2] == 'p' {
                    Some(I::Nop)
                } else if t[2] == 't' {
                    Some(I::Not)
                } else {
                    None
                }
            } else if t[1] == 'e' {
                if t[2] == 'g' {
                    Some(I::Neg)
                } else if t[2] == 'q' {
                    Some(I::Neq)
                } else {
                    None
                }
            } else {
                None
            }
        } else if t[0] == 'a' {
            if t[1] == 'd' {
                if t[2] == 'd' {
                    Some(I::Add)
                } else {
                    None
                }
            } else if t[1] == 'n' {
                if t[2] == 'd' {
                    Some(I::And)
                } else {
                    None
                }
            } else {
                None
            }
        } else if t[0] == 's' {
            if t[1] == 'u' {
                if t[2] == 'b' {
                    Some(I::Sub)
                } else {
                    None
                }
            } else {
                None
            }
        } else if t[0] == 'm' {
            if t[1] == 'u' {
                if t[2] == 'l' {
                    Some(I::Mul)
                } else {
                    None
                }
            } else {
                None
            }
        } else if t[0] == 'd' {
            if t[1] == 'i' {
                if t[2] == 'v' {
                    Some(I::Div)
                } else {
                    None
                }
            } else {
                None
            }
        } else if t[0] == 'i' {
            if t[1] == 'n' {
                if t[2] == 'v' {
                    Some(I::Inv)
                } else {
                    None
                }
            } else {
                None
            }
        } else if t[0] == 'e' {
            if t[1] == 'x' {
                if t[2] == 'p' {
                    Some(I::Exp)
                } else {
                    None
                }
            } else if t[1] == 'q' {
                if t[2] == 'w' {
                    Some(I::Eqw)
                } else {
                    None
                }
            } else {
                None
            }
        } else if t[0] == 'x' {
            if t[1] == 'o' {
                if t[2] == 'r' {
                    Some(I::Xor)
                } else {
                    None
                }
            } else {
                None
            }
        } else if t[0] == 'l' {
            if t[1] == 't' {
                if t[2] == 'e' {
                    Some(I::Lte)
                } else {
                    None
                }
            } else {
                None
            }
        } else if t[0] == 'g' {
            if t[1] == 't' {
                if t[2] == 'e' {
                    Some(I::Gte)
                } else {
                    None
                }
            } else {
                None
            }
        } else if t[0] == 'c' {
            if t[1] == 'l' {
                if t[2] == 'k' {
                    Some(I::Clk)
                } else {
                    None
                }
            } else {
                None
            }
        } else {
            None
        }
    } else if t.len() == 4 {
        if t[0] == 'p' {
            if t[1] == 'o' {
                if t[2] == 'w' {
                    if t[3] == '2' {
                        Some(I::Pow2)
                    } else {
                        None
                    }
                } else {
                    None
                }
            } else if t[1] == 'a' {
                if t[2] == 'd' {
                    if t[3] == 'w' {
                        Some(I::PadW)
                    } else {
                        None
                    }
                } else {
                    None
                }
            } else {
                None
            }
        } else if t[0] == 'd' {
            if t[1] == 'r' {
                if t[2] == 'o' {
                    if t[3] == 'p' {
                        Some(I::Drop)
                    } else {
                        None
                    }
                } else {
                    None
                }
            } else {
                None
            }
        } else if t[0] == 'h' {
            if t[1] == 'a' {
                if t[2] == 's' {
                    if t[3] == 'h' {
                        Some(I::Hash)
                    } else {
                        None
                    }
                } else {
                    None
                }
            } else {
                None
            }
        } else {
            None
        }
    } else if t.len() == 5 {
        if t[0] == 'i' {
            if t[1] == 'l' {
                if t[2] == 'o' {
                    if t[3] == 'g' {
                        if t[4] == '2' {
                            Some(I::ILog2)
                        } else {
                            None
                        }
                    } else {
                        None
                    }
                } else {
                    None
                }
            } else {
                None
            }
        } else if t[0] == 'a' {
            if t[1] == 'd' {
                if t[2] == 'd' {
                    if t[3] == '.' {
                        if t[4] == '1' {
                            Some(I::Incr)
                        } else {
                            None
                        }
                    } else {
                        None
                    }
                } else {
                    None
                }
            } else {
                None
            }
        } else if t[0] == 'u' {
            if t[1] == '3' {
                if t[2] == '2' {
                    if t[3] == 'o' {
                        if t[4] == 'r' {
                            Some(I::U32Or)
                        } else {
                            None
                        }
                    } else if t[3] == 'l' {
                        if t[4] == 't' {
                            Some(I::U32Lt)
                        } else {
                            None
                        }
                    } else if t[3] == 'g' {
                        if t[4] == 't' {
                            Some(I::U32Gt)
                        } else {
                            None
                        }
                    } else {
                        None
                    }
                } else {
                    None
                }
            } else {
                None
            }
        } else if t[0] == 'd' {
            if t[1] == 'r' {
                if t[2] == 'o' {
                    if t[3] == 'p' {
                        if t[4] == 'w' {
                            Some(I::DropW)
                        } else {
                            None
                        }
                    } else {
                        None
                    }
                } else {
                    None
                }
            } else if t[1] == 'u' {
                if t[2] == 'p' {
                    if t[3] == '.' {
                        if t[4] == '0' {
                            Some(I::Dup0)
                        } else if t[4] == '1' {
                            Some(I::Dup1)
                        } else if t[4] == '2' {
                            Some(I::Dup2)
                        } else if t[4] == '3' {
                            Some(I::Dup3)
                        } else if t[4] == '4' {
                            Some(I::Dup4)
                        } else if t[4] == '5' {
                            Some(I::Dup5)
                        } else if t[4] == '6' {
                            Some(I::Dup6)
                        } else if t[4] == '7' {
                            Some(I::Dup7)
                        } else if t[4] == '8' {
                            Some(I::Dup8)
                        } else if t[4] == '9' {
                            Some(I::Dup9)
                        } else {
                            None
                        }
                    } else {
                        None
                    }
                } else {
                    None
                }
            } else {
                None
            }
        } else if t[0] == 'c' {
            if t[1] == 's' {
                if t[2] == 'w' {
                    if t[3] == 'a' {
                        if t[4] == 'p' {
                            Some(I::CSwap)
                        } else {
                            None
                        }
                    } else {
                        None
                    }
                } else {
                    None
                }
            } else if t[1] == 'd' {
                if t[2] == 'r' {
                    if t[3] == 'o' {
                        if t[4] == 'p' {
                            Some(I::CDrop)
                        } else {
                            None
                        }
                    } else {
                        None
                    }
                } else {
                    None
                }
            } else {
                None
            }
        } else if t[0] == 'h' {
            if t[1] == 'p' {
                if t[2] == 'e' {
                    if t[3] == 'r' {
                        if t[4] == 'm' {
                            Some(I::HPerm)
                        } else {
                            None
                        }
                    } else {
                        None
                    }
                } else {
                    None
                }
            } else {
                None
            }
        } else {
            None
        }
    } else if t.len() == 6 {
        if t[0] == 'a' {
            if t[1] == 's' {
                if t[2] == 's' {
                    if t[3] == 'e' {
                        if t[4] == 'r' {
                            if t[5] == 't' {
                                Some(I::Assert)
                            } else {
                                None
                            }
                        } else {
                            None
                        }
                    } else {
                        None
                    }
                } else {
                    None
                }
            } else {
                None
            }
        } else if t[0] == 'i' {
            if t[1] == 's' {
                if t[2] == '_' {
                    if t[3] == 'o' {
                        if t[4] == 'd' {
                            if t[5] == 'd' {
                                Some(I::IsOdd)
                            } else {
                                None
                            }
                        } else {
                            None
                        }
                    } else {
                        None
                    }
                } else {
                    None
                }
            } else {
                None
            }
        } else if t[0] == 'u' {
            if t[1] == '3' {
                if t[2] == '2' {
                    if t[3] == 'd' {
                        if t[4] == 'i' {
                            if t[5] == 'v' {
                                Some(I::U32Div)
                            } else {
                                None
                            }
                        } else {
                            None
                        }
                    } else if t[3] == 'm' {
                        if t[4] == 'o' {
                            if t[5] == 'd' {
                                Some(I::U32Mod)
                            } else {
                                None
                            }
                        } else if t[4] == 'i' {
                            if t[5] == 'n' {
                                Some(I::U32Min)
                            } else {
                                None
                            }
                        } else if t[4] == 'a' {
                            if t[5] == 'x' {
                                Some(I::U32Max)
                            } else {
                                None
                            }
                        } else {
                            None
                        }
                    } else if t[3] == 'a' {
                        if t[4] == 'n' {
                            if t[5] == 'd' {
                                Some(I::U32And)
                            } else {
                                None
                            }
                        } else {
                            None
                        }
                    } else if t[3] == 'x' {
                        if t[4] == 'o' {
                            if t[5] == 'r' {
                                Some(I::U32Xor)
                            } else {
                                None
                            }
                        } else {
                            None
                        }
                    } else if t[3] == 'n' {
                        if t[4] == 'o' {
                            if t[5] == 't' {
                                Some(I::U32Not)
                            } else {
                                None
                            }
                        } else {
                            None
                        }
                    } else if t[3] == 's' {
                        if t[4] == 'h' {
                            if t[5] == 'r' {
                                Some(I::U32Shr)
                            } else if t[5] == 'l' {
                                Some(I::U32Shl)
                            } else {
                                None
                            }
                        } else {
                            None
                        }
                    } else if t[3] == 'c' {
                        if t[4] == 't' {
                            if t[5] == 'z' {
                                Some(I::U32Ctz)
                            } else if t[5] == 'o' {
                                Some(I::U32Cto)
                            } else {
                                None
                            }
                        } else if t[4] == 'l' {
                            if t[5] == 'z' {
                                Some(I::U32Clz)
                            } else if t[5] == 'o' {
                                Some(I::U32Clo)
                            } else {
                                None
                            }
                        } else {
                            None
                        }
                    } else if t[3] == 'l' {
                        if t[4] == 't' {
                            if t[5] == 'e' {
                                Some(I::U32Lte)
                            } else {
                                None
                            }
                        } else {
                            None
                        }
                    } else if t[3] == 'g' {
                        if t[4] == 't' {
                            if t[5] == 'e' {
                                Some(I::U32Gte)
                            } else {
                                None
                            }
                        } else {
                            None
                        }
                    } else {
                        None
                    }
                } else {
                    None
                }
            } else {
                None
            }
        } else if t[0] == 'd' {
            if t[1] == 'u' {
                if t[2] == 'p' {
                    if t[3] == '.' {
                        if t[4] == '1' {
                            if t[5] == '0' {
                                Some(I::Dup10)
                            } else if t[5] == '1' {
                                Some(I::Dup11)
                            } else if t[5] == '2' {
                                Some(I::Dup12)
                            } else if t[5] == '3' {
                                Some(I::Dup13)
                            } else if t[5] == '4' {
                                Some(I::Dup14)
                            } else if t[5] == '5' {
                                Some(I::Dup15)
                            } else {
                                None
                            }
                        } else {
                            None
                        }
                    } else if t[3] == 'w' {
                        if t[4] == '.' {
                            if t[5] == '0' {
                                Some(I::DupW0)
                            } else if t[5] == '1' {
                                Some(I::DupW1)
                            } else if t[5] == '2' {
                                Some(I::DupW2)
                            } else if t[5] == '3' {
                                Some(I::DupW3)
                            } else {
                                None
                            }
                        } else {
                            None
                        }
                    } else {
                        None
                    }
                } else {
                    None
                }
            } else {
                None
            }
        } else if t[0] == 's' {
            if t[1] == 'w' {
                if t[2] == 'a' {
                    if t[3] == 'p' {
                        if t[4] == '.' {
                            if t[5] == '1' {
                                Some(I::Swap1)
                            } else if t[5] == '2' {
                                Some(I::Swap2)
                            } else if t[5] == '3' {
                                Some(I::Swap3)
                            } else if t[5] == '4' {
                                Some(I::Swap4)
                            } else if t[5] == '5' {
                                Some(I::Swap5)
                            } else if t[5] == '6' {
                                Some(I::Swap6)
                            } else if t[5] == '7' {
                                Some(I::Swap7)
                            } else if t[5] == '8' {
                                Some(I::Swap8)
                            } else if t[5] == '9' {
                                Some(I::Swap9)
                            } else {
                                None
                            }
                        } else if t[4] == 'd' {
                            if t[5] == 'w' {
                                Some(I::SwapDw)
                            } else {
                                None
                            }
                        } else {
                            None
                        }
                    } else {
                        None
                    }
                } else {
                    None
                }
            } else if t[1] == 'd' {
                if t[2] == 'e' {
                    if t[3] == 'p' {
                        if t[4] == 't' {
                            if t[5] == 'h' {
                                Some(I::Sdepth)
                            } else {
                                None
                            }
                        } else {
                            None
                        }
                    } else {
                        None
                    }
                } else {
                    None
                }
            } else {
                None
            }
        } else if t[0] == 'c' {
            if t[1] == 's' {
                if t[2] == 'w' {
                    if t[3] == 'a' {
                        if t[4] == 'p' {
                            if t[5] == 'w' {
                                Some(I::CSwapW)
                            } else {
                                None
                            }
                        } else {
                            None
                        }
                    } else {
                        None
                    }
                } else {
                    None
                }
            } else if t[1] == 'd' {
                if t[2] == 'r' {
                    if t[3] == 'o' {
                        if t[4] == 'p' {
                            if t[5] == 'w' {
                                Some(I::CDropW)
                            } else {
                                None
                            }
                        } else {
                            None
                        }
                    } else {
                        None
                    }
                } else {
                    None
                }
            } else if t[1] == 'a' {
                if t[2] == 'l' {
                    if t[3] == 'l' {
                        if t[4] == 'e' {
                            if t[5] == 'r' {
                                Some(I::Caller)
                            } else {
                                None
                            }
                        } else {
                            None
                        }
                    } else {
                        None
                    }
                } else {
                    None
                }
            } else {
                None
            }
        } else if t[0] == 'h' {
            if t[1] == 'm' {
                if t[2] == 'e' {
                    if t[3] == 'r' {
                        if t[4] == 'g' {
                            if t[5] == 'e' {
                                Some(I::HMerge)
                            } else {
                                None
                            }
                        } else {
                            None
                        }
                    } else {
                        None
                    }
                } else {
                    None
                }
            } else {
                None
            }
        } else {
            None
        }
    } else if t.len() == 7 {
        if t[0] == 'a' {
            if t[1] == 's' {
                if t[2] == 's' {
                    if t[3] == 'e' {
                        if t[4] == 'r' {
                            if t[5] == 't' {
                                if t[6] == 'z' {
                                    Some(I::Assertz)
                                } else {
                                    None
                                }
                            } else {
                                None
                            }
                        } else {
                            None
                        }
                    } else {
                        None
                    }
                } else {
                    None
                }
            } else {
                None
            }
        } else if t[0] == 'e' {
            if t[1] == 'x' {
                if t[2] == 't' {
                    if t[3] == '2' {
                        if t[4] == 'a' {
                            if t[5] == 'd' {
                                if t[6] == 'd' {
                                    Some(I::Ext2Add)
                                } else {
                                    None
                                }
                            } else {
                                None
                            }
                        } else if t[4] == 's' {
                            if t[5] == 'u' {
                                if t[6] == 'b' {
                                    Some(I::Ext2Sub)
                                } else {
                                    None
                                }
                            } else {
                                None
                            }
                        } else if t[4] == 'm' {
                            if t[5] == 'u' {
                                if t[6] == 'l' {
                                    Some(I::Ext2Mul)
                                } else {
                                    None
                                }
                            } else {
                                None
                            }
                        } else if t[4] == 'd' {
                            if t[5] == 'i' {
                                if t[6] == 'v' {
                                    Some(I::Ext2Div)
                                } else {
                                    None
                                }
                            } else {
                                None
                            }
                        } else if t[4] == 'n' {
                            if t[5] == 'e' {
                                if t[6] == 'g' {
                                    Some(I::Ext2Neg)
                                } else {
                                    None
                                }
                            } else {
                                None
                            }
                        } else if t[4] == 'i' {
                            if t[5] == 'n' {
                                if t[6] == 'v' {
                                    Some(I::Ext2Inv)
                                } else {
                                    None
                                }
                            } else {
                                None
                            }
                        } else {
                            None
                        }
                    } else {
                        None
                    }
                } else {
                    None
                }
            } else {
                None
            }
        } else if t[0] == 'u' {
            if t[1] == '3' {
                if t[2] == '2' {
                    if t[3] == 't' {
                        if t[4] == 'e' {
                            if t[5] == 's' {
                                if t[6] == 't' {
                                    Some(I::U32Test)
                                } else {
                                    None
                                }
                            } else {
                                None
                            }
                        } else {
                            None
                        }
                    } else if t[3] == 'c' {
                        if t[4] == 'a' {
                            if t[5] == 's' {
                                if t[6] == 't' {
                                    Some(I::U32Cast)
                                } else {
                                    None
                                }
                            } else {
                                None
                            }
                        } else {
                            None
                        }
                    } else if t[3] == 'r' {
                        if t[4] == 'o' {
                            if t[5] == 't' {
                                if t[6] == 'r' {
                                    Some(I::U32Rotr)
                                } else if t[6] == 'l' {
                                    Some(I::U32Rotl)
                                } else {
                                    None
                                }
                            } else {
                                None
                            }
                        } else {
                            None
                        }
                    } else {
                        None
                    }
                } else {
                    None
                }
            } else {
                None
            }
        } else if t[0] == 's' {
            if t[1] == 'w' {
                if t[2] == 'a' {
                    if t[3] == 'p' {
                        if t[4] == '.' {
                            if t[5] == '1' {
                                if t[6] == '0' {
                                    Some(I::Swap10)
                                } else if t[6] == '1' {
                                    Some(I::Swap11)
                                } else if t[6] == '2' {
                                    Some(I::Swap12)
                                } else if t[6] == '3' {
                                    Some(I::Swap13)
                                } else if t[6] == '4' {
                                    Some(I::Swap14)
                                } else if t[6] == '5' {
                                    Some(I::Swap15)
                                } else {
                                    None
                                }
                            } else {
                                None
                            }
                        } else if t[4] == 'w' {
                            if t[5] == '.' {
                                if t[6] == '1' {
                                    Some(I::SwapW1)
                                } else if t[6] == '2' {
                                    Some(I::SwapW2)
                                } else if t[6] == '3' {
                                    Some(I::SwapW3)
                                } else {
                                    None
                                }
                            } else {
                                None
                            }
                        } else {
                            None
                        }
                    } else {
                        None
                    }
                } else {
                    None
                }
            } else {
                None
            }
        } else if t[0] == 'm' {
            if t[1] == 'o' {
                if t[2] == 'v' {
                    if t[3] == 'u' {
                        if t[4] == 'p' {
                            if t[5] == '.' {
                                if t[6] == '2' {
                                    Some(I::MovUp2)
                                } else if t[6] == '3' {
                                    Some(I::MovUp3)
                                } else if t[6] == '4' {
                                    Some(I::MovUp4)
                                } else if t[6] == '5' {
                                    Some(I::MovUp5)
                                } else if t[6] == '6' {
                                    Some(I::MovUp6)
                                } else if t[6] == '7' {
                                    Some(I::MovUp7)
                                } else if t[6] == '8' {
                                    Some(I::MovUp8)
                                } else if t[6] == '9' {
                                    Some(I::MovUp9)
                                } else {
                                    None
                                }
                            } else {
                                None
                            }
                        } else {
                            None
                        }
                    } else if t[3] == 'd' {
                        if t[4] == 'n' {
                            if t[5] == '.' {
                                if t[6] == '2' {
                                    Some(I::MovDn2)
                                } else if t[6] == '3' {
                                    Some(I::MovDn3)
                                } else if t[6] == '4' {
                                    Some(I::MovDn4)
                                } else if t[6] == '5' {
                                    Some(I::MovDn5)
                                } else if t[6] == '6' {
                                    Some(I::MovDn6)
                                } else if t[6] == '7' {
                                    Some(I::MovDn7)
                                } else if t[6] == '8' {
                                    Some(I::MovDn8)
                                } else if t[6] == '9' {
                                    Some(I::MovDn9)
                                } else {
                                    None
                                }
                            } else {
                                None
                            }
                        } else {
                            None
                        }
                    } else {
                        None
                    }
                } else {
                    None
                }
            } else {
                None
            }
        } else if t[0] == 'd' {
            if t[1] == 'y' {
                if t[2] == 'n' {
                    if t[3] == 'e' {
                        if t[4] == 'x' {
                            if t[5] == 'e' {
                                if t[6] == 'c' {
                                    Some(I::DynExec)
                                } else {
                                    None
                                }
                            } else {
                                None
                            }
                        } else {
                            None
                        }
                    } else if t[3] == 'c' {
                        if t[4] == 'a' {
                            if t[5] == 'l' {
                                if t[6] == 'l' {
                                    Some(I::DynCall)
                                } else {
                                    None
                                }
                            } else {
                                None
                            }
                        } else {
                            None
                        }
                    } else {
                        None
                    }
                } else {
                    None
                }
            } else {
                None
            }
        } else {
            None
        }
    } else if t.len() == 8 {
        if t[0] == 'u' {
            if t[1] == '3' {
                if t[2] == '2' {
                    if t[3] == 't' {
                        if t[4] == 'e' {
                            if t[5] == 's' {
                                if t[6] == 't' {
                                    if t[7] == 'w' {
                                        Some(I::U32TestW)
                                    } else {
                                        None
                                    }
                                } else {
                                    None
                                }
                            } else {
                                None
                            }
                        } else {
                            None
                        }
                    } else if t[3] == 's' {
                        if t[4] == 'p' {
                            if t[5] == 'l' {
                                if t[6] == 'i' {
                                    if t[7] == 't' {
                                        Some(I::U32Split)
                                    } else {
                                        None
                                    }
                                } else {
                                    None
                                }
                            } else {
                                None
                            }
                        } else {
                            None
                        }
                    } else {
                        None
                    }
                } else {
                    None
                }
            } else {
                None
            }
        } else if t[0] == 'm' {
            if t[1] == 'o' {
                if t[2] == 'v' {
                    if t[3] == 'u' {
                        if t[4] == 'p' {
                            if t[5] == '.' {
                                if t[6] == '1' {
                                    if t[7] == '0' {
                                        Some(I::MovUp10)
                                    } else if t[7] == '1' {
                                        Some(I::MovUp11)
                                    } else if t[7] == '2' {
                                        Some(I::MovUp12)
                                    } else if t[7] == '3' {
                                        Some(I::MovUp13)
                                    } else if t[7] == '4' {
                                        Some(I::MovUp14)
                                    } else if t[7] == '5' {
                                        Some(I::MovUp15)
                                    } else {
                                        None
                                    }
                                } else {
                                    None
                                }
                            } else if t[5] == 'w' {
                                if t[6] == '.' {
                                    if t[7] == '2' {
                                        Some(I::MovUpW2)
                                    } else if t[7] == '3' {
                                        Some(I::MovUpW3)
                                    } else {
                                        None
                                    }
                                } else {
                                    None
                                }
                            } else {
                                None
                            }
                        } else {
                            None
                        }
                    } else if t[3] == 'd' {
                        if t[4] == 'n' {
                            if t[5] == '.' {
                                if t[6] == '1' {
                                    if t[7] == '0' {
                                        Some(I::MovDn10)
                                    } else if t[7] == '1' {
                                        Some(I::MovDn11)
                                    } else if t[7] == '2' {
                                        Some(I::MovDn12)
                                    } else if t[7] == '3' {
                                        Some(I::MovDn13)
                                    } else if t[7] == '4' {
                                        Some(I::MovDn14)
                                    } else if t[7] == '5' {
                                        Some(I::MovDn15)
                                    } else {
                                        None
                                    }
                                } else {
                                    None
                                }
                            } else if t[5] == 'w' {
                                if t[6] == '.' {
                                    if t[7] == '2' {
                                        Some(I::MovDnW2)
                                    } else if t[7] == '3' {
                                        Some(I::MovDnW3)
                                    } else {
                                        None
                                    }
                                } else {
                                    None
                                }
                            } else {
                                None
                            }
                        } else {
                            None
                        }
                    } else {
                        None
                    }
                } else {
                    None
                }
            } else if t[1] == 'e' {
                if t[2] == 'm' {
                    if t[3] == '_' {
                        if t[4] == 'l' {
                            if t[5] == 'o' {
                                if t[6] == 'a' {
                                    if t[7] == 'd' {
                                        Some(I::MemLoad)
                                    } else {
                                        None
                                    }
                                } else {
                                    None
                                }
                            } else {
                                None
                            }
                        } else {
                            None
                        }
                    } else {
                        None
                    }
                } else {
                    None
                }
            } else {
                None
            }
        } else if t[0] == 'a' {
            if t[1] == 'd' {
                if t[2] == 'v' {
                    if t[3] == '_' {
                        if t[4] == 'p' {
                            if t[5] == 'i' {
                                if t[6] == 'p' {
                                    if t[7] == 'e' {
                                        Some(I::AdvPipe)
                                    } else {
                                        None
                                    }
                                } else {
                                    None
                                }
                            } else {
                                None
                            }
                        } else {
                            None
                        }
                    } else {
                        None
                    }
                } else {
                    None
                }
            } else {
                None
            }
        } else {
            None
        }
    } else if t.len() == 9 {
        if t[0] == 'a' {
            if t[1] == 's' {
                if t[2] == 's' {
                    if t[3] == 'e' {
                        if t[4] == 'r' {
                            if t[5] == 't' {
                                if t[6] == '_' {
                                    if t[7] == 'e' {
                                        if t[8] == 'q' {
                                            Some(I::AssertEq)
                                        } else {
                                            None
                                        }
                                    } else {
                                        None
                                    }
                                } else {
                                    None
                                }
                            } else {
                                None
                            }
                        } else {
                            None
                        }
                    } else {
                        None
                    }
                } else {
                    None
                }
            } else if t[1] == 'd' {
                if t[2] == 'v' {
                    if t[3] == '_' {
                        if t[4] == 'l' {
                            if t[5] == 'o' {
                                if t[6] == 'a' {
                                    if t[7] == 'd' {
                                        if t[8] == 'w' {
                                            Some(I::AdvLoadW)
                                        } else {
                                            None
                                        }
                                    } else {
                                        None
                                    }
                                } else {
                                    None
                                }
                            } else {
                                None
                            }
                        } else {
                            None
                        }
                    } else {
                        None
                    }
                } else {
                    None
                }
            } else {
                None
            }
        } else if t[0] == 'u' {
            if t[1] == '3' {
                if t[2] == '2' {
                    if t[3] == 'a' {
                        if t[4] == 's' {
                            if t[5] == 's' {
                                if t[6] == 'e' {
                                    if t[7] == 'r' {
                                        if t[8] == 't' {
                                            Some(I::U32Assert)
                                        } else {
                                            None
                                        }
                                    } else {
                                        None
                                    }
                                } else {
                                    None
                                }
                            } else {
                                None
                            }
                        } else {
                            None
                        }
                    } else if t[3] == 'd' {
                        if t[4] == 'i' {
                            if t[5] == 'v' {
                                if t[6] == 'm' {
                                    if t[7] == 'o' {
                                        if t[8] == 'd' {
                                            Some(I::U32DivMod)
                                        } else {
                                            None
                                        }
                                    } else {
                                        None
                                    }
                                } else {
                                    None
                                }
                            } else {
                                None
                            }
                        } else {
                            None
                        }
                    } else if t[3] == 'p' {
                        if t[4] == 'o' {
                            if t[5] == 'p' {
                                if t[6] == 'c' {
                                    if t[7] == 'n' {
                                        if t[8] == 't' {
                                            Some(I::U32Popcnt)
                                        } else {
                                            None
                                        }
                                    } else {
                                        None
                                    }
                                } else {
                                    None
                                }
                            } else {
                                None
                            }
                        } else {
                            None
                        }
                    } else {
                        None
                    }
                } else {
                    None
                }
            } else {
                None
            }
        } else if t[0] == 'm' {
            if t[1] == 'e' {
                if t[2] == 'm' {
                    if t[3] == '_' {
                        if t[4] == 'l' {
                            if t[5] == 'o' {
                                if t[6] == 'a' {
                                    if t[7] == 'd' {
                                        if t[8] == 'w' {
                                            Some(I::MemLoadW)
                                        } else {
                                            None
                                        }
                                    } else {
                                        None
                                    }
                                } else {
                                    None
                                }
                            } else {
                                None
                            }
                        } else if t[4] == 's' {
                            if t[5] == 't' {
                                if t[6] == 'o' {
                                    if t[7] == 'r' {
                                        if t[8] == 'e' {
                                            Some(I::MemStore)
                                        } else {
                                            None
                                        }
                                    } else {
                                        None
                                    }
                                } else {
                                    None
                                }
                            } else {
                                None
                            }
                        } else {
                            None
                        }
                    } else {
                        None
                    }
                } else {
                    None
                }
            } else if t[1] == 't' {
                if t[2] == 'r' {
                    if t[3] == 'e' {
                        if t[4] == 'e' {
                            if t[5] == '_' {
                                if t[6] == 'g' {
                                    if t[7] == 'e' {
                                        if t[8] == 't' {
                                            Some(I::MTreeGet)
                                        } else {
                                            None
                                        }
                                    } else {
                                        None
                                    }
                                } else if t[6] == 's' {
                                    if t[7] == 'e' {
                                        if t[8] == 't' {
                                            Some(I::MTreeSet)
                                        } else {
                                            None
                                        }
                                    } else {
                                        None
                                    }
                                } else {
                                    None
                                }
                            } else {
                                None
                            }
                        } else {
                            None
                        }
                    } else {
                        None
                    }
                } else {
                    None
                }
            } else {
                None
            }
        } else {
            None
        }
    } else if t.len() == 10 {
        if t[0] == 'a' {
            if t[1] == 's' {
                if t[2] == 's' {
                    if t[3] == 'e' {
                        if t[4] == 'r' {
                            if t[5] == 't' {
                                if t[6] == '_' {
                                    if t[7] == 'e' {
                                        if t[8] == 'q' {
                                            if t[9] == 'w' {
                                                Some(I::AssertEqw)
                                            } else {
                                                None
                                            }
                                        } else {
                                            None
                                        }
                                    } else {
                                        None
                                    }
                                } else {
                                    None
                                }
                            } else {
                                None
                            }
                        } else {
                            None
                        }
                    } else {
                        None
                    }
                } else {
                    None
                }
            } else {
                None
            }
        } else if t[0] == 'u' {
            if t[1] == '3' {
                if t[2] == '2' {
                    if t[3] == 'a' {
                        if t[4] == 's' {
                            if t[5] == 's' {
                                if t[6] == 'e' {
                                    if t[7] == 'r' {
                                        if t[8] == 't' {
                                            if t[9] == '2' {
                                                Some(I::U32Assert2)
                                            } else if t[9] == 'w' {
                                                Some(I::U32AssertW)
                                            } else {
                                                None
                                            }
                                        } else {
                                            None
                                        }
                                    } else {
                                        None
                                    }
                                } else {
                                    None
                                }
                            } else {
                                None
                            }
                        } else {
                            None
                        }
                    } else {
                        None
                    }
                } else {
                    None
                }
            } else {
                None
            }
        } else if t[0] == 'm' {
            if t[1] == 'e' {
                if t[2] == 'm' {
                    if t[3] == '_' {
                        if t[4] == 's' {
                            if t[5] == 't' {
                                if t[6] == 'o' {
                                    if t[7] == 'r' {
                                        if t[8] == 'e' {
                                            if t[9] == 'w' {
                                                Some(I::MemStoreW)
                                            } else {
                                                None
                                            }
                                        } else {
                                            None
                                        }
                                    } else {
                                        None
                                    }
                                } else if t[6] == 'r' {
                                    if t[7] == 'e' {
                                        if t[8] == 'a' {
                                            if t[9] == 'm' {
                                                Some(I::MemStream)
                                            } else {
                                                None
                                            }
                                        } else {
                                            None
                                        }
                                    } else {
                                        None
                                    }
                                } else {
                                    None
                                }
                            } else {
                                None
                            }
                        } else {
                            None
                        }
                    } else {
                        None
                    }
                } else {
                    None
                }
            } else {
                None
            }
        } else if t[0] == 'r' {
            if t[1] == 'c' {
                if t[2] == 'o' {
                    if t[3] == 'm' {
                        if t[4] == 'b' {
                            if t[5] == '_' {
                                if t[6] == 'b' {
                                    if t[7] == 'a' {
                                        if t[8] == 's' {
                                            if t[9] == 'e' {
                                                Some(I::RCombBase)
                                            } else {
                                                None
                                            }
                                        } else {
                                            None
                                        }
                                    } else {
                                        None
                                    }
                                } else {
                                    None
                                }
                            } else {
                                None
                            }
                        } else {
                            None
                        }
                    } else {
                        None
                    }
                } else {
                    None
                }
            } else {
                None
            }
        } else if t[0] == 'b' {
            if t[1] == 'r' {
                if t[2] == 'e' {
                    if t[3] == 'a' {
                        if t[4] == 'k' {
                            if t[5] == 'p' {
                                if t[6] == 'o' {
                                    if t[7] == 'i' {
                                        if t[8] == 'n' {
                                            if t[9] == 't' {
                                                Some(I::Breakpoint)
                                            } else {
                                                None
                                            }
                                        } else {
                                            None
                                        }
                                    } else {
                                        None
                                    }
                                } else {
                                    None
                                }
                            } else {
                                None
                            }
                        } else {
                            None
                        }
                    } else {
                        None
                    }
                } else {
                    None
                }
            } else {
                None
            }
        } else {
            None
        }
    } else if t.len() == 11 {
        if t[0] == 'm' {
            if t[1] == 't' {
                if t[2] == 'r' {
                    if t[3] == 'e' {
                        if t[4] == 'e' {
                            if t[5] == '_' {
                                if t[6] == 'm' {
                                    if t[7] == 'e' {
                                        if t[8] == 'r' {
                                            if t[9] == 'g' {
                                                if t[10] == 'e' {
                                                    Some(I::MTreeMerge)
                                                } else {
                                                    None
                                                }
                                            } else {
                                                None
                                            }
                                        } else {
                                            None
                                        }
                                    } else {
                                        None
                                    }
                                } else {
                                    None
                                }
                            } else {
                                None
                            }
                        } else {
                            None
                        }
                    } else {
                        None
                    }
                } else {
                    None
                }
            } else {
                None
            }
        } else {
            None
        }
    } else if t.len() == 12 {
        if t[0] == 'm' {
            if t[1] == 't' {
                if t[2] == 'r' {
                    if t[3] == 'e' {
                        if t[4] == 'e' {
                            if t[5] == '_' {
                                if t[6] == 'v' {
                                    if t[7] == 'e' {
                                        if t[8] == 'r' {
                                            if t[9] == 'i' {
                                                if t[10] == 'f' {
                                                    if t[11] == 'y' {
                                                        Some(I::MTreeVerify)
                                                    } else {
                                                        None
                                                    }
                                                } else {
                                                    None
                                                }
                                            } else {
                                                None
                                            }
                                        } else {
                                            None
                                        }
                                    } else {
                                        None
                                    }
                                } else {
                                    None
                                }
                            } else {
                                None
                            }
                        } else {
                            None
                        }
                    } else {
                        None
                    }
                } else {
                    None
                }
            } else {
                None
            }
        } else {
            None
        }
    } else if t.len() == 13 {
        if t[0] == 'f' {
            if t[1] == 'r' {
                if t[2] == 'i' {
                    if t[3] == '_' {
                        if t[4] == 'e' {
                            if t[5] == 'x' {
                                if t[6] == 't' {
                                    if t[7] == '2' {
                                        if t[8] == 'f' {
                                            if t[9] == 'o' {
                                                if t[10] == 'l' {
                                                    if t[11] == 'd' {
                                                        if t[12] == '4' {
                                                            Some(I::FriExt2Fold4)
                                                        } else {
                                                            None
                                                        }
                                                    } else {
                                                        None
                                                    }
                                                } else {
                                                    None
                                                }
                                            } else {
                                                None
                                            }
                                        } else {
                                            None
                                        }
                                    } else {
                                        None
                                    }
                                } else {
                                    None
                                }
                            } else {
                                None
                            }
                        } else {
                            None
                        }
                    } else {
                        None
                    }
                } else {
                    None
                }
            } else {
                None
            }
        } else {
            None
        }
    } else if t.len() == 15 {
        if t[0] == 'u' {
            if t[1] == '3' {
                if t[2] == '2' {
                    if t[3] == 'w' {
                        if t[4] == 'r' {
                            if t[5] == 'a' {
                                if t[6] == 'p' {
                                    if t[7] == 'p' {
                                        if t[8] == 'i' {
                                            if t[9] == 'n' {
                                                if t[10] == 'g' {
                                                    if t[11] == '_' {
                                                        if t[12] == 'a' {
                                                            if t[13] == 'd' {
                                                                if t[14] == 'd' {
                                                                    Some(I::U32WrappingAdd)
                                                                } else {
                                                                    None
                                                                }
                                                            } else {
                                                                None
                                                            }
                                                        } else if t[12] == 's' {
                                                            if t[13] == 'u' {
                                                                if t[14] == 'b' {
                                                                    Some(I::U32WrappingSub)
                                                                } else {
                                                                    None
                                                                }
                                                            } else {
                                                                None
                                                            }
                                                        } else if t[12] == 'm' {
                                                            if t[13] == 'u' {
                                                                if t[14] == 'l' {
                                                                    Some(I::U32WrappingMul)
                                                                } else {
                                                                    None
                                                                }
                                                            } else {
                                                                None
                                                            }
                                                        } else {
                                                            None
                                                        }
                                                    } else {
                                                        None
                                                    }
                                                } else {
                                                    None
                                                }
                                            } else {
                                                None
                                            }
                                        } else {
                                            None
                                        }
                                    } else {
                                        None
                                    }
                                } else {
                                    None
                                }
                            } else {
                                None
                            }
                        } else {
                            None
                        }
                    } else {
                        None
                    }
                } else {
                    None
                }
            } else {
                None
            }
        } else {
            None
        }
    } else if t.len() == 16 {
        if t[0] == 'u' {
            if t[1] == '3' {
                if t[2] == '2' {
                    if t[3] == 'w' {
                        if t[4] == 'r' {
                            if t[5] == 'a' {
                                if t[6] == 'p' {
                                    if t[7] == 'p' {
                                        if t[8] == 'i' {
                                            if t[9] == 'n' {
                                                if t[10] == 'g' {
                                                    if t[11] == '_' {
                                                        if t[12] == 'a' {
                                                            if t[13] == 'd' {
                                                                if t[14] == 'd' {
                                                                    if t[15] == '3' {
                                                                        Some(I::U32WrappingAdd3)
                                                                    } else {
                                                                        None
                                                                    }
                                                                } else {
                                                                    None
                                                                }
                                                            } else {
                                                                None
                                                            }
                                                        } else if t[12] == 'm' {
                                                            if t[13] == 'a' {
                                                                if t[14] == 'd' {
                                                                    if t[15] == 'd' {
                                                                        Some(I::U32WrappingMadd)
                                                                    } else {
                                                                        None
                                                                    }
                                                                } else {
                                                                    None
                                                                }
                                                            } else {
                                                                None
                                                            }
                                                        } else {
                                                            None
                                                        }
                                                    } else {
                                                        None
                                                    }
                                                } else {
                                                    None
                                                }
                                            } else {
                                                None
                                            }
                                        } else {
                                            None
                                        }
                                    } else {
                                        None
                                    }
                                } else {
                                    None
                                }
                            } else {
                                None
                            }
                        } else {
                            None
                        }
                    } else {
                        None
                    }
                } else {
                    None
                }
            } else {
                None
            }
        } else {
            None
        }
    } else if t.len() == 18 {
        if t[0] == 'u' {
            if t[1] == '3' {
                if t[2] == '2' {
                    if t[3] == 'o' {
                        if t[4] == 'v' {
                            if t[5] == 'e' {
                                if t[6] == 'r' {
                                    if t[7] == 'f' {
                                        if t[8] == 'l' {
                                            if t[9] == 'o' {
                                                if t[10] == 'w' {
                                                    if t[11] == 'i' {
                                                        if t[12] == 'n' {
                                                            if t[13] == 'g' {
                                                                if t[14] == '_' {
                                                                    if t[15] == 'a' {
                                                                        if t[16] == 'd' {
                                                                            if t[17] == 'd' {
                                                                                Some(I::U32OverflowingAdd)
                                                                            } else {
                                                                                None
                                                                            }
                                                                        } else {
                                                                            None
                                                                        }
                                                                    } else if t[15] == 's' {
                                                                        if t[16] == 'u' {
                                                                            if t[17] == 'b' {
                                                                                Some(I::U32OverflowingSub)
                                                                            } else {
                                                                                None
                                                                            }
                                                                        } else {
                                                                            None
                                                                        }
                                                                    } else if t[15] == 'm' {
                                                                        if t[16] == 'u' {
                                                                            if t[17] == 'l' {
                                                                                Some(I::U32OverflowingMul)
                                                                            } else {
                                                                                None
                                                                            }
                                                                        } else {
                                                                            None
                                                                        }
                                                                    } else {
                                                                        None
                                                                    }
                                                                } else {
                                                                    None
                                                                }
                                                            } else {
                                                                None
                                                            }
                                                        } else {
                                                            None
                                                        }
                                                    } else {
                                                        None
                                                    }
                                                } else {
                                                    None
                                                }
                                            } else {
                                                None
                                            }
                                        } else {
                                            None
                                        }
                                    } else {
                                        None
                                    }
                                } else {
                                    None
                                }
                            } else {
                                None
                            }
                        } else {
                            None
                        }
                    } else {
                        None
                    }
                } else {
                    None
                }
            } else {
                None
            }
        } else {
            None
        }
    } else if t.len() == 19 {
        if t[0] == 'u' {
            if t[1] == '3' {
                if t[2] == '2' {
                    if t[3] == 'o' {
                        if t[4] == 'v' {
                            if t[5] == 'e' {
                                if t[6] == 'r' {
                                    if t[7] == 'f' {
                                        if t[8] == 'l' {
                                            if t[9] == 'o' {
                                                if t[10] == 'w' {
                                                    if t[11] == 'i' {
                                                        if t[12] == 'n' {
                                                            if t[13] == 'g' {
                                                                if t[14] == '_' {
                                                                    if t[15] == 'a' {
                                                                        if t[16] == 'd' {
                                                                            if t[17] == 'd' {
                                                                                if t[18] == '3' {
                                                                                    Some(I::U32OverflowingAdd3)
                                                                                } else {
                                                                                    None
                                                                                }
                                                                            } else {
                                                                                None
                                                                            }
                                                                        } else {
                                                                            None
                                                                        }
                                                                    } else if t[15] == 'm' {
                                                                        if t[16] == 'a' {
                                                                            if t[17] == 'd' {
                                                                                if t[18] == 'd' {
                                                                                    Some(I::U32OverflowingMadd)
                                                                                } else {
                                                                                    None
                                                                                }
                                                                            } else {
                                                                                None
                                                                            }
                                                                        } else {
                                                                            None
                                                                        }
                                                                    } else {
                                                                        None
                                                                    }
                                                                } else {
                                                                    None
                                                                }
                                                            } else {
                                                                None
                                                            }
                                                        } else {
                                                            None
                                                        }
                                                    } else {
                                                        None
                                                    }
                                                } else {
                                                    None
                                                }
                                            } else {
                                                None
                                            }
                                        } else {
                                            None
                                        }
                                    } else {
                                        None
                                    }
                                } else {
                                    None
                                }
                            } else {
                                None
                            }
                        } else {
                            None
                        }
                    } else {
                        None
                    }
                } else {
                    None
                }
            } else {
                None
            }
        } else {
            None
        }
    } else {
        None
    }
}

/// The instruction has no operands: no immediates, and no target, options or code besides its
/// name.
pub open spec fn without_operands(i: Instruction) -> bool {
    &&& instruction_immediate(i) is Empty
    &&& (instruction_opcode(i) is Some || i is Nop || i is Breakpoint)
}

proof fn lemma_mnemonic_nop()
    ensures
        mnemonic_instruction(instruction_display(I::Nop)) == Some(I::Nop),
{
    reveal_strlit("nop");
}

proof fn lemma_mnemonic_assert()
    ensures
        mnemonic_instruction(instruction_display(I::Assert)) == Some(I::Assert),
{
    reveal_strlit("assert");
}

proof fn lemma_mnemonic_assert_eq()
    ensures
        mnemonic_instruction(instruction_display(I::AssertEq)) == Some(I::AssertEq),
{
    reveal_strlit("assert_eq");
}

proof fn lemma_mnemonic_assert_eqw()
    ensures
        mnemonic_instruction(instruction_display(I::AssertEqw)) == Some(I::AssertEqw),
{
    reveal_strlit("assert_eqw");
}

proof fn lemma_mnemonic_assertz()
    ensures
        mnemonic_instruction(instruction_display(I::Assertz)) == Some(I::Assertz),
{
    reveal_strlit("assertz");
}

proof fn lemma_mnemonic_add()
    ensures
        mnemonic_instruction(instruction_display(I::Add)) == Some(I::Add),
{
    reveal_strlit("add");
}

proof fn lemma_mnemonic_sub()
    ensures
        mnemonic_instruction(instruction_display(I::Sub)) == Some(I::Sub),
{
    reveal_strlit("sub");
}

proof fn lemma_mnemonic_mul()
    ensures
        mnemonic_instruction(instruction_display(I::Mul)) == Some(I::Mul),
{
    reveal_strlit("mul");
}

proof fn lemma_mnemonic_div()
    ensures
        mnemonic_instruction(instruction_display(I::Div)) == Some(I::Div),
{
    reveal_strlit("div");
}

proof fn lemma_mnemonic_neg()
    ensures
        mnemonic_instruction(instruction_display(I::Neg)) == Some(I::Neg),
{
    reveal_strlit("neg");
}

proof fn lemma_mnemonic_i_log2()
    ensures
        mnemonic_instruction(instruction_display(I::ILog2)) == Some(I::ILog2),
{
    reveal_strlit("ilog2");
}

proof fn lemma_mnemonic_inv()
    ensures
        mnemonic_instruction(instruction_display(I::Inv)) == Some(I::Inv),
{
    reveal_strlit("inv");
}

proof fn lemma_mnemonic_incr()
    ensures
        mnemonic_instruction(instruction_display(I::Incr)) == Some(I::Incr),
{
    reveal_strlit("add.1");
}

proof fn lemma_mnemonic_pow2()
    ensures
        mnemonic_instruction(instruction_display(I::Pow2)) == Some(I::Pow2),
{
    reveal_strlit("pow2");
}

proof fn lemma_mnemonic_exp()
    ensures
        mnemonic_instruction(instruction_display(I::Exp)) == Some(I::Exp),
{
    reveal_strlit("exp");
}

proof fn lemma_mnemonic_not()
    ensures
        mnemonic_instruction(instruction_display(I::Not)) == Some(I::Not),
{
    reveal_strlit("not");
}

proof fn lemma_mnemonic_and()
    ensures
        mnemonic_instruction(instruction_display(I::And)) == Some(I::And),
{
    reveal_strlit("and");
}

proof fn lemma_mnemonic_or()
    ensures
        mnemonic_instruction(instruction_display(I::Or)) == Some(I::Or),
{
    reveal_strlit("or");
}

proof fn lemma_mnemonic_xor()
    ensures
        mnemonic_instruction(instruction_display(I::Xor)) == Some(I::Xor),
{
    reveal_strlit("xor");
}

proof fn lemma_mnemonic_eq()
    ensures
        mnemonic_instruction(instruction_display(I::Eq)) == Some(I::Eq),
{
    reveal_strlit("eq");
}

proof fn lemma_mnemonic_neq()
    ensures
        mnemonic_instruction(instruction_display(I::Neq)) == Some(I::Neq),
{
    reveal_strlit("neq");
}

proof fn lemma_mnemonic_eqw()
    ensures
        mnemonic_instruction(instruction_display(I::Eqw)) == Some(I::Eqw),
{
    reveal_strlit("eqw");
}

proof fn lemma_mnemonic_lt()
    ensures
        mnemonic_instruction(instruction_display(I::Lt)) == Some(I::Lt),
{
    reveal_strlit("lt");
}

proof fn lemma_mnemonic_lte()
    ensures
        mnemonic_instruction(instruction_display(I::Lte)) == Some(I::Lte),
{
    reveal_strlit("lte");
}

proof fn lemma_mnemonic_gt()
    ensures
        mnemonic_instruction(instruction_display(I::Gt)) == Some(I::Gt),
{
    reveal_strlit("gt");
}

proof fn lemma_mnemonic_gte()
    ensures
        mnemonic_instruction(instruction_display(I::Gte)) == Some(I::Gte),
{
    reveal_strlit("gte");
}

proof fn lemma_mnemonic_is_odd()
    ensures
        mnemonic_instruction(instruction_display(I::IsOdd)) == Some(I::IsOdd),
{
    reveal_strlit("is_odd");
}

proof fn lemma_mnemonic_ext2_add()
    ensures
        mnemonic_instruction(instruction_display(I::Ext2Add)) == Some(I::Ext2Add),
{
    reveal_strlit("ext2add");
}

proof fn lemma_mnemonic_ext2_sub()
    ensures
        mnemonic_instruction(instruction_display(I::Ext2Sub)) == Some(I::Ext2Sub),
{
    reveal_strlit("ext2sub");
}

proof fn lemma_mnemonic_ext2_mul()
    ensures
        mnemonic_instruction(instruction_display(I::Ext2Mul)) == Some(I::Ext2Mul),
{
    reveal_strlit("ext2mul");
}

proof fn lemma_mnemonic_ext2_div()
    ensures
        mnemonic_instruction(instruction_display(I::Ext2Div)) == Some(I::Ext2Div),
{
    reveal_strlit("ext2div");
}

proof fn lemma_mnemonic_ext2_neg()
    ensures
        mnemonic_instruction(instruction_display(I::Ext2Neg)) == Some(I::Ext2Neg),
{
    reveal_strlit("ext2neg");
}

proof fn lemma_mnemonic_ext2_inv()
    ensures
        mnemonic_instruction(instruction_display(I::Ext2Inv)) == Some(I::Ext2Inv),
{
    reveal_strlit("ext2inv");
}

proof fn lemma_mnemonic_u32_test()
    ensures
        mnemonic_instruction(instruction_display(I::U32Test)) == Some(I::U32Test),
{
    reveal_strlit("u32test");
}

proof fn lemma_mnemonic_u32_test_w()
    ensures
        mnemonic_instruction(instruction_display(I::U32TestW)) == Some(I::U32TestW),
{
    reveal_strlit("u32testw");
}

proof fn lemma_mnemonic_u32_assert()
    ensures
        mnemonic_instruction(instruction_display(I::U32Assert)) == Some(I::U32Assert),
{
    reveal_strlit("u32assert");
}

proof fn lemma_mnemonic_u32_assert2()
    ensures
        mnemonic_instruction(instruction_display(I::U32Assert2)) == Some(I::U32Assert2),
{
    reveal_strlit("u32assert2");
}

proof fn lemma_mnemonic_u32_assert_w()
    ensures
        mnemonic_instruction(instruction_display(I::U32AssertW)) == Some(I::U32AssertW),
{
    reveal_strlit("u32assertw");
}

proof fn lemma_mnemonic_u32_split()
    ensures
        mnemonic_instruction(instruction_display(I::U32Split)) == Some(I::U32Split),
{
    reveal_strlit("u32split");
}

proof fn lemma_mnemonic_u32_cast()
    ensures
        mnemonic_instruction(instruction_display(I::U32Cast)) == Some(I::U32Cast),
{
    reveal_strlit("u32cast");
}

proof fn lemma_mnemonic_u32_wrapping_add()
    ensures
        mnemonic_instruction(instruction_display(I::U32WrappingAdd)) == Some(I::U32WrappingAdd),
{
    reveal_strlit("u32wrapping_add");
}

proof fn lemma_mnemonic_u32_overflowing_add()
    ensures
        mnemonic_instruction(instruction_display(I::U32OverflowingAdd)) == Some(I::U32OverflowingAdd),
{
    reveal_strlit("u32overflowing_add");
}

proof fn lemma_mnemonic_u32_overflowing_add3()
    ensures
        mnemonic_instruction(instruction_display(I::U32OverflowingAdd3)) == Some(I::U32OverflowingAdd3),
{
    reveal_strlit("u32overflowing_add3");
}

proof fn lemma_mnemonic_u32_wrapping_add3()
    ensures
        mnemonic_instruction(instruction_display(I::U32WrappingAdd3)) == Some(I::U32WrappingAdd3),
{
    reveal_strlit("u32wrapping_add3");
}

proof fn lemma_mnemonic_u32_wrapping_sub()
    ensures
        mnemonic_instruction(instruction_display(I::U32WrappingSub)) == Some(I::U32WrappingSub),
{
    reveal_strlit("u32wrapping_sub");
}

proof fn lemma_mnemonic_u32_overflowing_sub()
    ensures
        mnemonic_instruction(instruction_display(I::U32OverflowingSub)) == Some(I::U32OverflowingSub),
{
    reveal_strlit("u32overflowing_sub");
}

proof fn lemma_mnemonic_u32_wrapping_mul()
    ensures
        mnemonic_instruction(instruction_display(I::U32WrappingMul)) == Some(I::U32WrappingMul),
{
    reveal_strlit("u32wrapping_mul");
}

proof fn lemma_mnemonic_u32_overflowing_mul()
    ensures
        mnemonic_instruction(instruction_display(I::U32OverflowingMul)) == Some(I::U32OverflowingMul),
{
    reveal_strlit("u32overflowing_mul");
}

proof fn lemma_mnemonic_u32_overflowing_madd()
    ensures
        mnemonic_instruction(instruction_display(I::U32OverflowingMadd)) == Some(I::U32OverflowingMadd),
{
    reveal_strlit("u32overflowing_madd");
}

proof fn lemma_mnemonic_u32_wrapping_madd()
    ensures
        mnemonic_instruction(instruction_display(I::U32WrappingMadd)) == Some(I::U32WrappingMadd),
{
    reveal_strlit("u32wrapping_madd");
}

proof fn lemma_mnemonic_u32_div()
    ensures
        mnemonic_instruction(instruction_display(I::U32Div)) == Some(I::U32Div),
{
    reveal_strlit("u32div");
}

proof fn lemma_mnemonic_u32_mod()
    ensures
        mnemonic_instruction(instruction_display(I::U32Mod)) == Some(I::U32Mod),
{
    reveal_strlit("u32mod");
}

proof fn lemma_mnemonic_u32_div_mod()
    ensures
        mnemonic_instruction(instruction_display(I::U32DivMod)) == Some(I::U32DivMod),
{
    reveal_strlit("u32divmod");
}

proof fn lemma_mnemonic_u32_and()
    ensures
        mnemonic_instruction(instruction_display(I::U32And)) == Some(I::U32And),
{
    reveal_strlit("u32and");
}

proof fn lemma_mnemonic_u32_or()
    ensures
        mnemonic_instruction(instruction_display(I::U32Or)) == Some(I::U32Or),
{
    reveal_strlit("u32or");
}

proof fn lemma_mnemonic_u32_xor()
    ensures
        mnemonic_instruction(instruction_display(I::U32Xor)) == Some(I::U32Xor),
{
    reveal_strlit("u32xor");
}

proof fn lemma_mnemonic_u32_not()
    ensures
        mnemonic_instruction(instruction_display(I::U32Not)) == Some(I::U32Not),
{
    reveal_strlit("u32not");
}

proof fn lemma_mnemonic_u32_shr()
    ensures
        mnemonic_instruction(instruction_display(I::U32Shr)) == Some(I::U32Shr),
{
    reveal_strlit("u32shr");
}

proof fn lemma_mnemonic_u32_shl()
    ensures
        mnemonic_instruction(instruction_display(I::U32Shl)) == Some(I::U32Shl),
{
    reveal_strlit("u32shl");
}

proof fn lemma_mnemonic_u32_rotr()
    ensures
        mnemonic_instruction(instruction_display(I::U32Rotr)) == Some(I::U32Rotr),
{
    reveal_strlit("u32rotr");
}

proof fn lemma_mnemonic_u32_rotl()
    ensures
        mnemonic_instruction(instruction_display(I::U32Rotl)) == Some(I::U32Rotl),
{
    reveal_strlit("u32rotl");
}

proof fn lemma_mnemonic_u32_popcnt()
    ensures
        mnemonic_instruction(instruction_display(I::U32Popcnt)) == Some(I::U32Popcnt),
{
    reveal_strlit("u32popcnt");
}

proof fn lemma_mnemonic_u32_ctz()
    ensures
        mnemonic_instruction(instruction_display(I::U32Ctz)) == Some(I::U32Ctz),
{
    reveal_strlit("u32ctz");
}

proof fn lemma_mnemonic_u32_clz()
    ensures
        mnemonic_instruction(instruction_display(I::U32Clz)) == Some(I::U32Clz),
{
    reveal_strlit("u32clz");
}

proof fn lemma_mnemonic_u32_clo()
    ensures
        mnemonic_instruction(instruction_display(I::U32Clo)) == Some(I::U32Clo),
{
    reveal_strlit("u32clo");
}

proof fn lemma_mnemonic_u32_cto()
    ensures
        mnemonic_instruction(instruction_display(I::U32Cto)) == Some(I::U32Cto),
{
    reveal_strlit("u32cto");
}

proof fn lemma_mnemonic_u32_lt()
    ensures
        mnemonic_instruction(instruction_display(I::U32Lt)) == Some(I::U32Lt),
{
    reveal_strlit("u32lt");
}

proof fn lemma_mnemonic_u32_lte()
    ensures
        mnemonic_instruction(instruction_display(I::U32Lte)) == Some(I::U32Lte),
{
    reveal_strlit("u32lte");
}

proof fn lemma_mnemonic_u32_gt()
    ensures
        mnemonic_instruction(instruction_display(I::U32Gt)) == Some(I::U32Gt),
{
    reveal_strlit("u32gt");
}

proof fn lemma_mnemonic_u32_gte()
    ensures
        mnemonic_instruction(instruction_display(I::U32Gte)) == Some(I::U32Gte),
{
    reveal_strlit("u32gte");
}

proof fn lemma_mnemonic_u32_min()
    ensures
        mnemonic_instruction(instruction_display(I::U32Min)) == Some(I::U32Min),
{
    reveal_strlit("u32min");
}

proof fn lemma_mnemonic_u32_max()
    ensures
        mnemonic_instruction(instruction_display(I::U32Max)) == Some(I::U32Max),
{
    reveal_strlit("u32max");
}

proof fn lemma_mnemonic_drop()
    ensures
        mnemonic_instruction(instruction_display(I::Drop)) == Some(I::Drop),
{
    reveal_strlit("drop");
}

proof fn lemma_mnemonic_drop_w()
    ensures
        mnemonic_instruction(instruction_display(I::DropW)) == Some(I::DropW),
{
    reveal_strlit("dropw");
}

proof fn lemma_mnemonic_pad_w()
    ensures
        mnemonic_instruction(instruction_display(I::PadW)) == Some(I::PadW),
{
    reveal_strlit("padw");
}

proof fn lemma_mnemonic_dup0()
    ensures
        mnemonic_instruction(instruction_display(I::Dup0)) == Some(I::Dup0),
{
    reveal_strlit("dup.0");
}

proof fn lemma_mnemonic_dup1()
    ensures
        mnemonic_instruction(instruction_display(I::Dup1)) == Some(I::Dup1),
{
    reveal_strlit("dup.1");
}

proof fn lemma_mnemonic_dup2()
    ensures
        mnemonic_instruction(instruction_display(I::Dup2)) == Some(I::Dup2),
{
    reveal_strlit("dup.2");
}

proof fn lemma_mnemonic_dup3()
    ensures
        mnemonic_instruction(instruction_display(I::Dup3)) == Some(I::Dup3),
{
    reveal_strlit("dup.3");
}

proof fn lemma_mnemonic_dup4()
    ensures
        mnemonic_instruction(instruction_display(I::Dup4)) == Some(I::Dup4),
{
    reveal_strlit("dup.4");
}

proof fn lemma_mnemonic_dup5()
    ensures
        mnemonic_instruction(instruction_display(I::Dup5)) == Some(I::Dup5),
{
    reveal_strlit("dup.5");
}

proof fn lemma_mnemonic_dup6()
    ensures
        mnemonic_instruction(instruction_display(I::Dup6)) == Some(I::Dup6),
{
    reveal_strlit("dup.6");
}

proof fn lemma_mnemonic_dup7()
    ensures
        mnemonic_instruction(instruction_display(I::Dup7)) == Some(I::Dup7),
{
    reveal_strlit("dup.7");
}

proof fn lemma_mnemonic_dup8()
    ensures
        mnemonic_instruction(instruction_display(I::Dup8)) == Some(I::Dup8),
{
    reveal_strlit("dup.8");
}

proof fn lemma_mnemonic_dup9()
    ensures
        mnemonic_instruction(instruction_display(I::Dup9)) == Some(I::Dup9),
{
    reveal_strlit("dup.9");
}

proof fn lemma_mnemonic_dup10()
    ensures
        mnemonic_instruction(instruction_display(I::Dup10)) == Some(I::Dup10),
{
    reveal_strlit("dup.10");
}

proof fn lemma_mnemonic_dup11()
    ensures
        mnemonic_instruction(instruction_display(I::Dup11)) == Some(I::Dup11),
{
    reveal_strlit("dup.11");
}

proof fn lemma_mnemonic_dup12()
    ensures
        mnemonic_instruction(instruction_display(I::Dup12)) == Some(I::Dup12),
{
    reveal_strlit("dup.12");
}

proof fn lemma_mnemonic_dup13()
    ensures
        mnemonic_instruction(instruction_display(I::Dup13)) == Some(I::Dup13),
{
    reveal_strlit("dup.13");
}

proof fn lemma_mnemonic_dup14()
    ensures
        mnemonic_instruction(instruction_display(I::Dup14)) == Some(I::Dup14),
{
    reveal_strlit("dup.14");
}

proof fn lemma_mnemonic_dup15()
    ensures
        mnemonic_instruction(instruction_display(I::Dup15)) == Some(I::Dup15),
{
    reveal_strlit("dup.15");
}

proof fn lemma_mnemonic_dup_w0()
    ensures
        mnemonic_instruction(instruction_display(I::DupW0)) == Some(I::DupW0),
{
    reveal_strlit("dupw.0");
}

proof fn lemma_mnemonic_dup_w1()
    ensures
        mnemonic_instruction(instruction_display(I::DupW1)) == Some(I::DupW1),
{
    reveal_strlit("dupw.1");
}

proof fn lemma_mnemonic_dup_w2()
    ensures
        mnemonic_instruction(instruction_display(I::DupW2)) == Some(I::DupW2),
{
    reveal_strlit("dupw.2");
}

proof fn lemma_mnemonic_dup_w3()
    ensures
        mnemonic_instruction(instruction_display(I::DupW3)) == Some(I::DupW3),
{
    reveal_strlit("dupw.3");
}

proof fn lemma_mnemonic_swap1()
    ensures
        mnemonic_instruction(instruction_display(I::Swap1)) == Some(I::Swap1),
{
    reveal_strlit("swap.1");
}

proof fn lemma_mnemonic_swap2()
    ensures
        mnemonic_instruction(instruction_display(I::Swap2)) == Some(I::Swap2),
{
    reveal_strlit("swap.2");
}

proof fn lemma_mnemonic_swap3()
    ensures
        mnemonic_instruction(instruction_display(I::Swap3)) == Some(I::Swap3),
{
    reveal_strlit("swap.3");
}

proof fn lemma_mnemonic_swap4()
    ensures
        mnemonic_instruction(instruction_display(I::Swap4)) == Some(I::Swap4),
{
    reveal_strlit("swap.4");
}

proof fn lemma_mnemonic_swap5()
    ensures
        mnemonic_instruction(instruction_display(I::Swap5)) == Some(I::Swap5),
{
    reveal_strlit("swap.5");
}

proof fn lemma_mnemonic_swap6()
    ensures
        mnemonic_instruction(instruction_display(I::Swap6)) == Some(I::Swap6),
{
    reveal_strlit("swap.6");
}

proof fn lemma_mnemonic_swap7()
    ensures
        mnemonic_instruction(instruction_display(I::Swap7)) == Some(I::Swap7),
{
    reveal_strlit("swap.7");
}

proof fn lemma_mnemonic_swap8()
    ensures
        mnemonic_instruction(instruction_display(I::Swap8)) == Some(I::Swap8),
{
    reveal_strlit("swap.8");
}

proof fn lemma_mnemonic_swap9()
    ensures
        mnemonic_instruction(instruction_display(I::Swap9)) == Some(I::Swap9),
{
    reveal_strlit("swap.9");
}

proof fn lemma_mnemonic_swap10()
    ensures
        mnemonic_instruction(instruction_display(I::Swap10)) == Some(I::Swap10),
{
    reveal_strlit("swap.10");
}

proof fn lemma_mnemonic_swap11()
    ensures
        mnemonic_instruction(instruction_display(I::Swap11)) == Some(I::Swap11),
{
    reveal_strlit("swap.11");
}

proof fn lemma_mnemonic_swap12()
    ensures
        mnemonic_instruction(instruction_display(I::Swap12)) == Some(I::Swap12),
{
    reveal_strlit("swap.12");
}

proof fn lemma_mnemonic_swap13()
    ensures
        mnemonic_instruction(instruction_display(I::Swap13)) == Some(I::Swap13),
{
    reveal_strlit("swap.13");
}

proof fn lemma_mnemonic_swap14()
    ensures
        mnemonic_instruction(instruction_display(I::Swap14)) == Some(I::Swap14),
{
    reveal_strlit("swap.14");
}

proof fn lemma_mnemonic_swap15()
    ensures
        mnemonic_instruction(instruction_display(I::Swap15)) == Some(I::Swap15),
{
    reveal_strlit("swap.15");
}

proof fn lemma_mnemonic_swap_w1()
    ensures
        mnemonic_instruction(instruction_display(I::SwapW1)) == Some(I::SwapW1),
{
    reveal_strlit("swapw.1");
}

proof fn lemma_mnemonic_swap_w2()
    ensures
        mnemonic_instruction(instruction_display(I::SwapW2)) == Some(I::SwapW2),
{
    reveal_strlit("swapw.2");
}

proof fn lemma_mnemonic_swap_w3()
    ensures
        mnemonic_instruction(instruction_display(I::SwapW3)) == Some(I::SwapW3),
{
    reveal_strlit("swapw.3");
}

proof fn lemma_mnemonic_swap_dw()
    ensures
        mnemonic_instruction(instruction_display(I::SwapDw)) == Some(I::SwapDw),
{
    reveal_strlit("swapdw");
}

proof fn lemma_mnemonic_mov_up2()
    ensures
        mnemonic_instruction(instruction_display(I::MovUp2)) == Some(I::MovUp2),
{
    reveal_strlit("movup.2");
}

proof fn lemma_mnemonic_mov_up3()
    ensures
        mnemonic_instruction(instruction_display(I::MovUp3)) == Some(I::MovUp3),
{
    reveal_strlit("movup.3");
}

proof fn lemma_mnemonic_mov_up4()
    ensures
        mnemonic_instruction(instruction_display(I::MovUp4)) == Some(I::MovUp4),
{
    reveal_strlit("movup.4");
}

proof fn lemma_mnemonic_mov_up5()
    ensures
        mnemonic_instruction(instruction_display(I::MovUp5)) == Some(I::MovUp5),
{
    reveal_strlit("movup.5");
}

proof fn lemma_mnemonic_mov_up6()
    ensures
        mnemonic_instruction(instruction_display(I::MovUp6)) == Some(I::MovUp6),
{
    reveal_strlit("movup.6");
}

proof fn lemma_mnemonic_mov_up7()
    ensures
        mnemonic_instruction(instruction_display(I::MovUp7)) == Some(I::MovUp7),
{
    reveal_strlit("movup.7");
}

proof fn lemma_mnemonic_mov_up8()
    ensures
        mnemonic_instruction(instruction_display(I::MovUp8)) == Some(I::MovUp8),
{
    reveal_strlit("movup.8");
}

proof fn lemma_mnemonic_mov_up9()
    ensures
        mnemonic_instruction(instruction_display(I::MovUp9)) == Some(I::MovUp9),
{
    reveal_strlit("movup.9");
}

proof fn lemma_mnemonic_mov_up10()
    ensures
        mnemonic_instruction(instruction_display(I::MovUp10)) == Some(I::MovUp10),
{
    reveal_strlit("movup.10");
}

proof fn lemma_mnemonic_mov_up11()
    ensures
        mnemonic_instruction(instruction_display(I::MovUp11)) == Some(I::MovUp11),
{
    reveal_strlit("movup.11");
}

proof fn lemma_mnemonic_mov_up12()
    ensures
        mnemonic_instruction(instruction_display(I::MovUp12)) == Some(I::MovUp12),
{
    reveal_strlit("movup.12");
}

proof fn lemma_mnemonic_mov_up13()
    ensures
        mnemonic_instruction(instruction_display(I::MovUp13)) == Some(I::MovUp13),
{
    reveal_strlit("movup.13");
}

proof fn lemma_mnemonic_mov_up14()
    ensures
        mnemonic_instruction(instruction_display(I::MovUp14)) == Some(I::MovUp14),
{
    reveal_strlit("movup.14");
}

proof fn lemma_mnemonic_mov_up15()
    ensures
        mnemonic_instruction(instruction_display(I::MovUp15)) == Some(I::MovUp15),
{
    reveal_strlit("movup.15");
}

proof fn lemma_mnemonic_mov_up_w2()
    ensures
        mnemonic_instruction(instruction_display(I::MovUpW2)) == Some(I::MovUpW2),
{
    reveal_strlit("movupw.2");
}

proof fn lemma_mnemonic_mov_up_w3()
    ensures
        mnemonic_instruction(instruction_display(I::MovUpW3)) == Some(I::MovUpW3),
{
    reveal_strlit("movupw.3");
}

proof fn lemma_mnemonic_mov_dn2()
    ensures
        mnemonic_instruction(instruction_display(I::MovDn2)) == Some(I::MovDn2),
{
    reveal_strlit("movdn.2");
}

proof fn lemma_mnemonic_mov_dn3()
    ensures
        mnemonic_instruction(instruction_display(I::MovDn3)) == Some(I::MovDn3),
{
    reveal_strlit("movdn.3");
}

proof fn lemma_mnemonic_mov_dn4()
    ensures
        mnemonic_instruction(instruction_display(I::MovDn4)) == Some(I::MovDn4),
{
    reveal_strlit("movdn.4");
}

proof fn lemma_mnemonic_mov_dn5()
    ensures
        mnemonic_instruction(instruction_display(I::MovDn5)) == Some(I::MovDn5),
{
    reveal_strlit("movdn.5");
}

proof fn lemma_mnemonic_mov_dn6()
    ensures
        mnemonic_instruction(instruction_display(I::MovDn6)) == Some(I::MovDn6),
{
    reveal_strlit("movdn.6");
}

proof fn lemma_mnemonic_mov_dn7()
    ensures
        mnemonic_instruction(instruction_display(I::MovDn7)) == Some(I::MovDn7),
{
    reveal_strlit("movdn.7");
}

proof fn lemma_mnemonic_mov_dn8()
    ensures
        mnemonic_instruction(instruction_display(I::MovDn8)) == Some(I::MovDn8),
{
    reveal_strlit("movdn.8");
}

proof fn lemma_mnemonic_mov_dn9()
    ensures
        mnemonic_instruction(instruction_display(I::MovDn9)) == Some(I::MovDn9),
{
    reveal_strlit("movdn.9");
}

proof fn lemma_mnemonic_mov_dn10()
    ensures
        mnemonic_instruction(instruction_display(I::MovDn10)) == Some(I::MovDn10),
{
    reveal_strlit("movdn.10");
}

proof fn lemma_mnemonic_mov_dn11()
    ensures
        mnemonic_instruction(instruction_display(I::MovDn11)) == Some(I::MovDn11),
{
    reveal_strlit("movdn.11");
}

proof fn lemma_mnemonic_mov_dn12()
    ensures
        mnemonic_instruction(instruction_display(I::MovDn12)) == Some(I::MovDn12),
{
    reveal_strlit("movdn.12");
}

proof fn lemma_mnemonic_mov_dn13()
    ensures
        mnemonic_instruction(instruction_display(I::MovDn13)) == Some(I::MovDn13),
{
    reveal_strlit("movdn.13");
}

proof fn lemma_mnemonic_mov_dn14()
    ensures
        mnemonic_instruction(instruction_display(I::MovDn14)) == Some(I::MovDn14),
{
    reveal_strlit("movdn.14");
}

proof fn lemma_mnemonic_mov_dn15()
    ensures
        mnemonic_instruction(instruction_display(I::MovDn15)) == Some(I::MovDn15),
{
    reveal_strlit("movdn.15");
}

proof fn lemma_mnemonic_mov_dn_w2()
    ensures
        mnemonic_instruction(instruction_display(I::MovDnW2)) == Some(I::MovDnW2),
{
    reveal_strlit("movdnw.2");
}

proof fn lemma_mnemonic_mov_dn_w3()
    ensures
        mnemonic_instruction(instruction_display(I::MovDnW3)) == Some(I::MovDnW3),
{
    reveal_strlit("movdnw.3");
}

proof fn lemma_mnemonic_c_swap()
    ensures
        mnemonic_instruction(instruction_display(I::CSwap)) == Some(I::CSwap),
{
    reveal_strlit("cswap");
}

proof fn lemma_mnemonic_c_swap_w()
    ensures
        mnemonic_instruction(instruction_display(I::CSwapW)) == Some(I::CSwapW),
{
    reveal_strlit("cswapw");
}

proof fn lemma_mnemonic_c_drop()
    ensures
        mnemonic_instruction(instruction_display(I::CDrop)) == Some(I::CDrop),
{
    reveal_strlit("cdrop");
}

proof fn lemma_mnemonic_c_drop_w()
    ensures
        mnemonic_instruction(instruction_display(I::CDropW)) == Some(I::CDropW),
{
    reveal_strlit("cdropw");
}

proof fn lemma_mnemonic_sdepth()
    ensures
        mnemonic_instruction(instruction_display(I::Sdepth)) == Some(I::Sdepth),
{
    reveal_strlit("sdepth");
}

proof fn lemma_mnemonic_caller()
    ensures
        mnemonic_instruction(instruction_display(I::Caller)) == Some(I::Caller),
{
    reveal_strlit("caller");
}

proof fn lemma_mnemonic_clk()
    ensures
        mnemonic_instruction(instruction_display(I::Clk)) == Some(I::Clk),
{
    reveal_strlit("clk");
}

proof fn lemma_mnemonic_mem_load()
    ensures
        mnemonic_instruction(instruction_display(I::MemLoad)) == Some(I::MemLoad),
{
    reveal_strlit("mem_load");
}

proof fn lemma_mnemonic_mem_load_w()
    ensures
        mnemonic_instruction(instruction_display(I::MemLoadW)) == Some(I::MemLoadW),
{
    reveal_strlit("mem_loadw");
}

proof fn lemma_mnemonic_mem_store()
    ensures
        mnemonic_instruction(instruction_display(I::MemStore)) == Some(I::MemStore),
{
    reveal_strlit("mem_store");
}

proof fn lemma_mnemonic_mem_store_w()
    ensures
        mnemonic_instruction(instruction_display(I::MemStoreW)) == Some(I::MemStoreW),
{
    reveal_strlit("mem_storew");
}

proof fn lemma_mnemonic_mem_stream()
    ensures
        mnemonic_instruction(instruction_display(I::MemStream)) == Some(I::MemStream),
{
    reveal_strlit("mem_stream");
}

proof fn lemma_mnemonic_adv_pipe()
    ensures
        mnemonic_instruction(instruction_display(I::AdvPipe)) == Some(I::AdvPipe),
{
    reveal_strlit("adv_pipe");
}

proof fn lemma_mnemonic_adv_load_w()
    ensures
        mnemonic_instruction(instruction_display(I::AdvLoadW)) == Some(I::AdvLoadW),
{
    reveal_strlit("adv_loadw");
}

proof fn lemma_mnemonic_hash()
    ensures
        mnemonic_instruction(instruction_display(I::Hash)) == Some(I::Hash),
{
    reveal_strlit("hash");
}

proof fn lemma_mnemonic_h_merge()
    ensures
        mnemonic_instruction(instruction_display(I::HMerge)) == Some(I::HMerge),
{
    reveal_strlit("hmerge");
}

proof fn lemma_mnemonic_h_perm()
    ensures
        mnemonic_instruction(instruction_display(I::HPerm)) == Some(I::HPerm),
{
    reveal_strlit("hperm");
}

proof fn lemma_mnemonic_m_tree_get()
    ensures
        mnemonic_instruction(instruction_display(I::MTreeGet)) == Some(I::MTreeGet),
{
    reveal_strlit("mtree_get");
}

proof fn lemma_mnemonic_m_tree_set()
    ensures
        mnemonic_instruction(instruction_display(I::MTreeSet)) == Some(I::MTreeSet),
{
    reveal_strlit("mtree_set");
}

proof fn lemma_mnemonic_m_tree_merge()
    ensures
        mnemonic_instruction(instruction_display(I::MTreeMerge)) == Some(I::MTreeMerge),
{
    reveal_strlit("mtree_merge");
}

proof fn lemma_mnemonic_m_tree_verify()
    ensures
        mnemonic_instruction(instruction_display(I::MTreeVerify)) == Some(I::MTreeVerify),
{
    reveal_strlit("mtree_verify");
}

proof fn lemma_mnemonic_fri_ext2_fold4()
    ensures
        mnemonic_instruction(instruction_display(I::FriExt2Fold4)) == Some(I::FriExt2Fold4),
{
    reveal_strlit("fri_ext2fold4");
}

proof fn lemma_mnemonic_r_comb_base()
    ensures
        mnemonic_instruction(instruction_display(I::RCombBase)) == Some(I::RCombBase),
{
    reveal_strlit("rcomb_base");
}

proof fn lemma_mnemonic_dyn_exec()
    ensures
        mnemonic_instruction(instruction_display(I::DynExec)) == Some(I::DynExec),
{
    reveal_strlit("dynexec");
}

proof fn lemma_mnemonic_dyn_call()
    ensures
        mnemonic_instruction(instruction_display(I::DynCall)) == Some(I::DynCall),
{
    reveal_strlit("dyncall");
}

proof fn lemma_mnemonic_breakpoint()
    ensures
        mnemonic_instruction(instruction_display(I::Breakpoint)) == Some(I::Breakpoint),
{
    reveal_strlit("breakpoint");
}

/// The text of an instruction without operands is its mnemonic: reading the text back gives the
/// instruction.
pub proof fn lemma_mnemonic_reads_back(i: Instruction)
    requires
        without_operands(i),
    ensures
        mnemonic_instruction(instruction_display(i)) == Some(i),
{
    match i {
        I::Nop => lemma_mnemonic_nop(),
        I::Assert => lemma_mnemonic_assert(),
        I::AssertWithError(_) => {},
        I::AssertEq => lemma_mnemonic_assert_eq(),
        I::AssertEqWithError(_) => {},
        I::AssertEqw => lemma_mnemonic_assert_eqw(),
        I::AssertEqwWithError(_) => {},
        I::Assertz => lemma_mnemonic_assertz(),
        I::AssertzWithError(_) => {},
        I::Add => lemma_mnemonic_add(),
        I::AddImm(_) => {},
        I::Sub => lemma_mnemonic_sub(),
        I::SubImm(_) => {},
        I::Mul => lemma_mnemonic_mul(),
        I::MulImm(_) => {},
        I::Div => lemma_mnemonic_div(),
        I::DivImm(_) => {},
        I::Neg => lemma_mnemonic_neg(),
        I::ILog2 => lemma_mnemonic_i_log2(),
        I::Inv => lemma_mnemonic_inv(),
        I::Incr => lemma_mnemonic_incr(),
        I::Pow2 => lemma_mnemonic_pow2(),
        I::Exp => lemma_mnemonic_exp(),
        I::ExpImm(_) => {},
        I::ExpBitLength(_) => {},
        I::Not => lemma_mnemonic_not(),
        I::And => lemma_mnemonic_and(),
        I::Or => lemma_mnemonic_or(),
        I::Xor => lemma_mnemonic_xor(),
        I::Eq => lemma_mnemonic_eq(),
        I::EqImm(_) => {},
        I::Neq => lemma_mnemonic_neq(),
        I::NeqImm(_) => {},
        I::Eqw => lemma_mnemonic_eqw(),
        I::Lt => lemma_mnemonic_lt(),
        I::Lte => lemma_mnemonic_lte(),
        I::Gt => lemma_mnemonic_gt(),
        I::Gte => lemma_mnemonic_gte(),
        I::IsOdd => lemma_mnemonic_is_odd(),
        I::Ext2Add => lemma_mnemonic_ext2_add(),
        I::Ext2Sub => lemma_mnemonic_ext2_sub(),
        I::Ext2Mul => lemma_mnemonic_ext2_mul(),
        I::Ext2Div => lemma_mnemonic_ext2_div(),
        I::Ext2Neg => lemma_mnemonic_ext2_neg(),
        I::Ext2Inv => lemma_mnemonic_ext2_inv(),
        I::U32Test => lemma_mnemonic_u32_test(),
        I::U32TestW => lemma_mnemonic_u32_test_w(),
        I::U32Assert => lemma_mnemonic_u32_assert(),
        I::U32AssertWithError(_) => {},
        I::U32Assert2 => lemma_mnemonic_u32_assert2(),
        I::U32Assert2WithError(_) => {},
        I::U32AssertW => lemma_mnemonic_u32_assert_w(),
        I::U32AssertWWithError(_) => {},
        I::U32Split => lemma_mnemonic_u32_split(),
        I::U32Cast => lemma_mnemonic_u32_cast(),
        I::U32WrappingAdd => lemma_mnemonic_u32_wrapping_add(),
        I::U32WrappingAddImm(_) => {},
        I::U32OverflowingAdd => lemma_mnemonic_u32_overflowing_add(),
        I::U32OverflowingAddImm(_) => {},
        I::U32OverflowingAdd3 => lemma_mnemonic_u32_overflowing_add3(),
        I::U32WrappingAdd3 => lemma_mnemonic_u32_wrapping_add3(),
        I::U32WrappingSub => lemma_mnemonic_u32_wrapping_sub(),
        I::U32WrappingSubImm(_) => {},
        I::U32OverflowingSub => lemma_mnemonic_u32_overflowing_sub(),
        I::U32OverflowingSubImm(_) => {},
        I::U32WrappingMul => lemma_mnemonic_u32_wrapping_mul(),
        I::U32WrappingMulImm(_) => {},
        I::U32OverflowingMul => lemma_mnemonic_u32_overflowing_mul(),
        I::U32OverflowingMulImm(_) => {},
        I::U32OverflowingMadd => lemma_mnemonic_u32_overflowing_madd(),
        I::U32WrappingMadd => lemma_mnemonic_u32_wrapping_madd(),
        I::U32Div => lemma_mnemonic_u32_div(),
        I::U32DivImm(_) => {},
        I::U32Mod => lemma_mnemonic_u32_mod(),
        I::U32ModImm(_) => {},
        I::U32DivMod => lemma_mnemonic_u32_div_mod(),
        I::U32DivModImm(_) => {},
        I::U32And => lemma_mnemonic_u32_and(),
        I::U32Or => lemma_mnemonic_u32_or(),
        I::U32Xor => lemma_mnemonic_u32_xor(),
        I::U32Not => lemma_mnemonic_u32_not(),
        I::U32Shr => lemma_mnemonic_u32_shr(),
        I::U32ShrImm(_) => {},
        I::U32Shl => lemma_mnemonic_u32_shl(),
        I::U32ShlImm(_) => {},
        I::U32Rotr => lemma_mnemonic_u32_rotr(),
        I::U32RotrImm(_) => {},
        I::U32Rotl => lemma_mnemonic_u32_rotl(),
        I::U32RotlImm(_) => {},
        I::U32Popcnt => lemma_mnemonic_u32_popcnt(),
        I::U32Ctz => lemma_mnemonic_u32_ctz(),
        I::U32Clz => lemma_mnemonic_u32_clz(),
        I::U32Clo => lemma_mnemonic_u32_clo(),
        I::U32Cto => lemma_mnemonic_u32_cto(),
        I::U32Lt => lemma_mnemonic_u32_lt(),
        I::U32Lte => lemma_mnemonic_u32_lte(),
        I::U32Gt => lemma_mnemonic_u32_gt(),
        I::U32Gte => lemma_mnemonic_u32_gte(),
        I::U32Min => lemma_mnemonic_u32_min(),
        I::U32Max => lemma_mnemonic_u32_max(),
        I::Drop => lemma_mnemonic_drop(),
        I::DropW => lemma_mnemonic_drop_w(),
        I::PadW => lemma_mnemonic_pad_w(),
        I::Dup0 => lemma_mnemonic_dup0(),
        I::Dup1 => lemma_mnemonic_dup1(),
        I::Dup2 => lemma_mnemonic_dup2(),
        I::Dup3 => lemma_mnemonic_dup3(),
        I::Dup4 => lemma_mnemonic_dup4(),
        I::Dup5 => lemma_mnemonic_dup5(),
        I::Dup6 => lemma_mnemonic_dup6(),
        I::Dup7 => lemma_mnemonic_dup7(),
        I::Dup8 => lemma_mnemonic_dup8(),
        I::Dup9 => lemma_mnemonic_dup9(),
        I::Dup10 => lemma_mnemonic_dup10(),
        I::Dup11 => lemma_mnemonic_dup11(),
        I::Dup12 => lemma_mnemonic_dup12(),
        I::Dup13 => lemma_mnemonic_dup13(),
        I::Dup14 => lemma_mnemonic_dup14(),
        I::Dup15 => lemma_mnemonic_dup15(),
        I::DupW0 => lemma_mnemonic_dup_w0(),
        I::DupW1 => lemma_mnemonic_dup_w1(),
        I::DupW2 => lemma_mnemonic_dup_w2(),
        I::DupW3 => lemma_mnemonic_dup_w3(),
        I::Swap1 => lemma_mnemonic_swap1(),
        I::Swap2 => lemma_mnemonic_swap2(),
        I::Swap3 => lemma_mnemonic_swap3(),
        I::Swap4 => lemma_mnemonic_swap4(),
        I::Swap5 => lemma_mnemonic_swap5(),
        I::Swap6 => lemma_mnemonic_swap6(),
        I::Swap7 => lemma_mnemonic_swap7(),
        I::Swap8 => lemma_mnemonic_swap8(),
        I::Swap9 => lemma_mnemonic_swap9(),
        I::Swap10 => lemma_mnemonic_swap10(),
        I::Swap11 => lemma_mnemonic_swap11(),
        I::Swap12 => lemma_mnemonic_swap12(),
        I::Swap13 => lemma_mnemonic_swap13(),
        I::Swap14 => lemma_mnemonic_swap14(),
        I::Swap15 => lemma_mnemonic_swap15(),
        I::SwapW1 => lemma_mnemonic_swap_w1(),
        I::SwapW2 => lemma_mnemonic_swap_w2(),
        I::SwapW3 => lemma_mnemonic_swap_w3(),
        I::SwapDw => lemma_mnemonic_swap_dw(),
        I::MovUp2 => lemma_mnemonic_mov_up2(),
        I::MovUp3 => lemma_mnemonic_mov_up3(),
        I::MovUp4 => lemma_mnemonic_mov_up4(),
        I::MovUp5 => lemma_mnemonic_mov_up5(),
        I::MovUp6 => lemma_mnemonic_mov_up6(),
        I::MovUp7 => lemma_mnemonic_mov_up7(),
        I::MovUp8 => lemma_mnemonic_mov_up8(),
        I::MovUp9 => lemma_mnemonic_mov_up9(),
        I::MovUp10 => lemma_mnemonic_mov_up10(),
        I::MovUp11 => lemma_mnemonic_mov_up11(),
        I::MovUp12 => lemma_mnemonic_mov_up12(),
        I::MovUp13 => lemma_mnemonic_mov_up13(),
        I::MovUp14 => lemma_mnemonic_mov_up14(),
        I::MovUp15 => lemma_mnemonic_mov_up15(),
        I::MovUpW2 => lemma_mnemonic_mov_up_w2(),
        I::MovUpW3 => lemma_mnemonic_mov_up_w3(),
        I::MovDn2 => lemma_mnemonic_mov_dn2(),
        I::MovDn3 => lemma_mnemonic_mov_dn3(),
        I::MovDn4 => lemma_mnemonic_mov_dn4(),
        I::MovDn5 => lemma_mnemonic_mov_dn5(),
        I::MovDn6 => lemma_mnemonic_mov_dn6(),
        I::MovDn7 => lemma_mnemonic_mov_dn7(),
        I::MovDn8 => lemma_mnemonic_mov_dn8(),
        I::MovDn9 => lemma_mnemonic_mov_dn9(),
        I::MovDn10 => lemma_mnemonic_mov_dn10(),
        I::MovDn11 => lemma_mnemonic_mov_dn11(),
        I::MovDn12 => lemma_mnemonic_mov_dn12(),
        I::MovDn13 => lemma_mnemonic_mov_dn13(),
        I::MovDn14 => lemma_mnemonic_mov_dn14(),
        I::MovDn15 => lemma_mnemonic_mov_dn15(),
        I::MovDnW2 => lemma_mnemonic_mov_dn_w2(),
        I::MovDnW3 => lemma_mnemonic_mov_dn_w3(),
        I::CSwap => lemma_mnemonic_c_swap(),
        I::CSwapW => lemma_mnemonic_c_swap_w(),
        I::CDrop => lemma_mnemonic_c_drop(),
        I::CDropW => lemma_mnemonic_c_drop_w(),
        I::Push(_) => {},
        I::PushU8(_) => {},
        I::PushU16(_) => {},
        I::PushU32(_) => {},
        I::PushFelt(_) => {},
        I::PushWord(_) => {},
        I::PushU8List(_) => {},
        I::PushU16List(_) => {},
        I::PushU32List(_) => {},
        I::PushFeltList(_) => {},
        I::Locaddr(_) => {},
        I::Sdepth => lemma_mnemonic_sdepth(),
        I::Caller => lemma_mnemonic_caller(),
        I::Clk => lemma_mnemonic_clk(),
        I::MemLoad => lemma_mnemonic_mem_load(),
        I::MemLoadImm(_) => {},
        I::MemLoadW => lemma_mnemonic_mem_load_w(),
        I::MemLoadWImm(_) => {},
        I::LocLoad(_) => {},
        I::LocLoadW(_) => {},
        I::MemStore => lemma_mnemonic_mem_store(),
        I::MemStoreImm(_) => {},
        I::LocStore(_) => {},
        I::MemStoreW => lemma_mnemonic_mem_store_w(),
        I::MemStoreWImm(_) => {},
        I::LocStoreW(_) => {},
        I::MemStream => lemma_mnemonic_mem_stream(),
        I::AdvPipe => lemma_mnemonic_adv_pipe(),
        I::AdvPush(_) => {},
        I::AdvLoadW => lemma_mnemonic_adv_load_w(),
        I::AdvInject(_) => {},
        I::Hash => lemma_mnemonic_hash(),
        I::HMerge => lemma_mnemonic_h_merge(),
        I::HPerm => lemma_mnemonic_h_perm(),
        I::MTreeGet => lemma_mnemonic_m_tree_get(),
        I::MTreeSet => lemma_mnemonic_m_tree_set(),
        I::MTreeMerge => lemma_mnemonic_m_tree_merge(),
        I::MTreeVerify => lemma_mnemonic_m_tree_verify(),
        I::MTreeVerifyWithError(_) => {},
        I::FriExt2Fold4 => lemma_mnemonic_fri_ext2_fold4(),
        I::RCombBase => lemma_mnemonic_r_comb_base(),
        I::Exec(_) => {},
        I::Call(_) => {},
        I::SysCall(_) => {},
        I::DynExec => lemma_mnemonic_dyn_exec(),
        I::DynCall => lemma_mnemonic_dyn_call(),
        I::ProcRef(_) => {},
        I::Breakpoint => lemma_mnemonic_breakpoint(),
        I::Debug(_) => {},
        I::Emit(_) => {},
        I::Trace(_) => {},
    }
}

/// Two instructions without operands that are displayed alike are the same instruction.
pub proof fn lemma_display_injective(a: Instruction, b: Instruction)
    requires
        without_operands(a),
        without_operands(b),
        instruction_display(a) == instruction_display(b),
    ensures
        a == b,
{
    lemma_mnemonic_reads_back(a);
    lemma_mnemonic_reads_back(b);
}

proof fn lemma_display_forms_1()
    ensures
        forall|x: u32| #![auto] instruction_display(I::AssertWithError(x)) == "assert.err="@ + decimal(x as nat),
        forall|x: u32| #![auto] instruction_display(I::AssertEqWithError(x)) == "assert_eq.err="@ + decimal(x as nat),
        forall|x: u32| #![auto] instruction_display(I::AssertEqwWithError(x)) == "assert_eqw.err="@ + decimal(x as nat),
        forall|x: u32| #![auto] instruction_display(I::AssertzWithError(x)) == "assertz.err="@ + decimal(x as nat),
        forall|x: Felt| #![auto] instruction_display(I::AddImm(x)) == "add."@ + decimal(x.value as nat),
        forall|x: Felt| #![auto] instruction_display(I::SubImm(x)) == "sub."@ + decimal(x.value as nat),
        forall|x: Felt| #![auto] instruction_display(I::MulImm(x)) == "mul."@ + decimal(x.value as nat),
        forall|x: Felt| #![auto] instruction_display(I::DivImm(x)) == "div."@ + decimal(x.value as nat),
        forall|x: Felt| #![auto] instruction_display(I::ExpImm(x)) == "exp."@ + decimal(x.value as nat),
        forall|x: Felt| #![auto] instruction_display(I::EqImm(x)) == "eq."@ + decimal(x.value as nat),
        forall|x: Felt| #![auto] instruction_display(I::NeqImm(x)) == "neq."@ + decimal(x.value as nat),
        forall|x: u32| #![auto] instruction_display(I::U32AssertWithError(x)) == "u32assert.err="@ + decimal(x as nat),
        forall|x: u32| #![auto] instruction_display(I::U32Assert2WithError(x)) == "u32assert2.err="@ + decimal(x as nat),
        forall|x: u32| #![auto] instruction_display(I::U32AssertWWithError(x)) == "u32assertw.err="@ + decimal(x as nat),
        forall|x: u32| #![auto] instruction_display(I::U32WrappingAddImm(x)) == "u32wrapping_add."@ + decimal(x as nat),
        forall|x: u32| #![auto] instruction_display(I::U32OverflowingAddImm(x)) == "u32overflowing_add."@ + decimal(x as nat),
        forall|x: u32| #![auto] instruction_display(I::U32WrappingSubImm(x)) == "u32wrapping_sub."@ + decimal(x as nat),
        forall|x: u32| #![auto] instruction_display(I::U32OverflowingSubImm(x)) == "u32overflowing_sub."@ + decimal(x as nat),
        forall|x: u32| #![auto] instruction_display(I::U32WrappingMulImm(x)) == "u32wrapping_mul."@ + decimal(x as nat),
        forall|x: u32| #![auto] instruction_display(I::U32OverflowingMulImm(x)) == "u32overflowing_mul."@ + decimal(x as nat),
{
}

proof fn lemma_display_forms_2()
    ensures
        forall|x: u32| #![auto] instruction_display(I::U32DivImm(x)) == "u32div."@ + decimal(x as nat),
        forall|x: u32| #![auto] instruction_display(I::U32ModImm(x)) == "u32mod."@ + decimal(x as nat),
        forall|x: u32| #![auto] instruction_display(I::U32DivModImm(x)) == "u32divmod."@ + decimal(x as nat),
        forall|x: u8| #![auto] instruction_display(I::U32ShrImm(x)) == "u32shr."@ + decimal(x as nat),
        forall|x: u8| #![auto] instruction_display(I::U32ShlImm(x)) == "u32shl."@ + decimal(x as nat),
        forall|x: u8| #![auto] instruction_display(I::U32RotrImm(x)) == "u32rotr."@ + decimal(x as nat),
        forall|x: u8| #![auto] instruction_display(I::U32RotlImm(x)) == "u32rotl."@ + decimal(x as nat),
        forall|x: u8| #![auto] instruction_display(I::PushU8(x)) == "push."@ + decimal(x as nat),
        forall|x: u16| #![auto] instruction_display(I::PushU16(x)) == "push."@ + decimal(x as nat),
        forall|x: u32| #![auto] instruction_display(I::PushU32(x)) == "push."@ + decimal(x as nat),
        forall|x: Felt| #![auto] instruction_display(I::PushFelt(x)) == "push."@ + decimal(x.value as nat),
        forall|x: u16| #![auto] instruction_display(I::Locaddr(x)) == "locaddr."@ + decimal(x as nat),
        forall|x: u32| #![auto] instruction_display(I::MemLoadImm(x)) == "mem_load."@ + decimal(x as nat),
        forall|x: u32| #![auto] instruction_display(I::MemLoadWImm(x)) == "mem_loadw."@ + decimal(x as nat),
        forall|x: u16| #![auto] instruction_display(I::LocLoad(x)) == "loc_load."@ + decimal(x as nat),
        forall|x: u16| #![auto] instruction_display(I::LocLoadW(x)) == "loc_loadw."@ + decimal(x as nat),
        forall|x: u32| #![auto] instruction_display(I::MemStoreImm(x)) == "mem_store."@ + decimal(x as nat),
        forall|x: u16| #![auto] instruction_display(I::LocStore(x)) == "loc_store."@ + decimal(x as nat),
        forall|x: u32| #![auto] instruction_display(I::MemStoreWImm(x)) == "mem_storew."@ + decimal(x as nat),
        forall|x: u16| #![auto] instruction_display(I::LocStoreW(x)) == "loc_storew."@ + decimal(x as nat),
{
}

proof fn lemma_display_forms_3()
    ensures
        forall|x: u8| #![auto] instruction_display(I::AdvPush(x)) == "adv_push."@ + decimal(x as nat),
        forall|x: u32| #![auto] instruction_display(I::MTreeVerifyWithError(x)) == "mtree_verify.err="@ + decimal(x as nat),
        forall|x: u32| #![auto] instruction_display(I::Emit(x)) == "emit."@ + decimal(x as nat),
        forall|x: u32| #![auto] instruction_display(I::Trace(x)) == "trace."@ + decimal(x as nat),
        forall|x: u8| #![auto] instruction_display(I::ExpBitLength(x)) == "exp.u"@ + decimal(x as nat),
        forall|x: Felt| #![auto] instruction_display(I::Push(x)) == "push."@ + decimal(x.value as nat),
        forall|x: InvocationTarget| #![auto] instruction_display(I::Exec(x)) == "exec."@ + target_text(x),
        forall|x: InvocationTarget| #![auto] instruction_display(I::Call(x)) == "call."@ + target_text(x),
        forall|x: InvocationTarget| #![auto] instruction_display(I::SysCall(x)) == "syscall."@ + target_text(x),
        forall|x: InvocationTarget| #![auto] instruction_display(I::ProcRef(x)) == "procref."@ + target_text(x),
{
}

/// The text of an instruction with operands is its mnemonic, a dot, and its operand: an error code
/// after `.err=`, an immediate value in decimal, the target of an invocation.
pub proof fn lemma_display_forms()
    ensures
        forall|x: u32| #![auto] instruction_display(I::AssertWithError(x)) == "assert.err="@ + decimal(x as nat),
        forall|x: u32| #![auto] instruction_display(I::AssertEqWithError(x)) == "assert_eq.err="@ + decimal(x as nat),
        forall|x: u32| #![auto] instruction_display(I::AssertEqwWithError(x)) == "assert_eqw.err="@ + decimal(x as nat),
        forall|x: u32| #![auto] instruction_display(I::AssertzWithError(x)) == "assertz.err="@ + decimal(x as nat),
        forall|x: Felt| #![auto] instruction_display(I::AddImm(x)) == "add."@ + decimal(x.value as nat),
        forall|x: Felt| #![auto] instruction_display(I::SubImm(x)) == "sub."@ + decimal(x.value as nat),
        forall|x: Felt| #![auto] instruction_display(I::MulImm(x)) == "mul."@ + decimal(x.value as nat),
        forall|x: Felt| #![auto] instruction_display(I::DivImm(x)) == "div."@ + decimal(x.value as nat),
        forall|x: Felt| #![auto] instruction_display(I::ExpImm(x)) == "exp."@ + decimal(x.value as nat),
        forall|x: Felt| #![auto] instruction_display(I::EqImm(x)) == "eq."@ + decimal(x.value as nat),
        forall|x: Felt| #![auto] instruction_display(I::NeqImm(x)) == "neq."@ + decimal(x.value as nat),
        forall|x: u32| #![auto] instruction_display(I::U32AssertWithError(x)) == "u32assert.err="@ + decimal(x as nat),
        forall|x: u32| #![auto] instruction_display(I::U32Assert2WithError(x)) == "u32assert2.err="@ + decimal(x as nat),
        forall|x: u32| #![auto] instruction_display(I::U32AssertWWithError(x)) == "u32assertw.err="@ + decimal(x as nat),
        forall|x: u32| #![auto] instruction_display(I::U32WrappingAddImm(x)) == "u32wrapping_add."@ + decimal(x as nat),
        forall|x: u32| #![auto] instruction_display(I::U32OverflowingAddImm(x)) == "u32overflowing_add."@ + decimal(x as nat),
        forall|x: u32| #![auto] instruction_display(I::U32WrappingSubImm(x)) == "u32wrapping_sub."@ + decimal(x as nat),
        forall|x: u32| #![auto] instruction_display(I::U32OverflowingSubImm(x)) == "u32overflowing_sub."@ + decimal(x as nat),
        forall|x: u32| #![auto] instruction_display(I::U32WrappingMulImm(x)) == "u32wrapping_mul."@ + decimal(x as nat),
        forall|x: u32| #![auto] instruction_display(I::U32OverflowingMulImm(x)) == "u32overflowing_mul."@ + decimal(x as nat),
        forall|x: u32| #![auto] instruction_display(I::U32DivImm(x)) == "u32div."@ + decimal(x as nat),
        forall|x: u32| #![auto] instruction_display(I::U32ModImm(x)) == "u32mod."@ + decimal(x as nat),
        forall|x: u32| #![auto] instruction_display(I::U32DivModImm(x)) == "u32divmod."@ + decimal(x as nat),
        forall|x: u8| #![auto] instruction_display(I::U32ShrImm(x)) == "u32shr."@ + decimal(x as nat),
        forall|x: u8| #![auto] instruction_display(I::U32ShlImm(x)) == "u32shl."@ + decimal(x as nat),
        forall|x: u8| #![auto] instruction_display(I::U32RotrImm(x)) == "u32rotr."@ + decimal(x as nat),
        forall|x: u8| #![auto] instruction_display(I::U32RotlImm(x)) == "u32rotl."@ + decimal(x as nat),
        forall|x: u8| #![auto] instruction_display(I::PushU8(x)) == "push."@ + decimal(x as nat),
        forall|x: u16| #![auto] instruction_display(I::PushU16(x)) == "push."@ + decimal(x as nat),
        forall|x: u32| #![auto] instruction_display(I::PushU32(x)) == "push."@ + decimal(x as nat),
        forall|x: Felt| #![auto] instruction_display(I::PushFelt(x)) == "push."@ + decimal(x.value as nat),
        forall|x: u16| #![auto] instruction_display(I::Locaddr(x)) == "locaddr."@ + decimal(x as nat),
        forall|x: u32| #![auto] instruction_display(I::MemLoadImm(x)) == "mem_load."@ + decimal(x as nat),
        forall|x: u32| #![auto] instruction_display(I::MemLoadWImm(x)) == "mem_loadw."@ + decimal(x as nat),
        forall|x: u16| #![auto] instruction_display(I::LocLoad(x)) == "loc_load."@ + decimal(x as nat),
        forall|x: u16| #![auto] instruction_display(I::LocLoadW(x)) == "loc_loadw."@ + decimal(x as nat),
        forall|x: u32| #![auto] instruction_display(I::MemStoreImm(x)) == "mem_store."@ + decimal(x as nat),
        forall|x: u16| #![auto] instruction_display(I::LocStore(x)) == "loc_store."@ + decimal(x as nat),
        forall|x: u32| #![auto] instruction_display(I::MemStoreWImm(x)) == "mem_storew."@ + decimal(x as nat),
        forall|x: u16| #![auto] instruction_display(I::LocStoreW(x)) == "loc_storew."@ + decimal(x as nat),
        forall|x: u8| #![auto] instruction_display(I::AdvPush(x)) == "adv_push."@ + decimal(x as nat),
        forall|x: u32| #![auto] instruction_display(I::MTreeVerifyWithError(x)) == "mtree_verify.err="@ + decimal(x as nat),
        forall|x: u32| #![auto] instruction_display(I::Emit(x)) == "emit."@ + decimal(x as nat),
        forall|x: u32| #![auto] instruction_display(I::Trace(x)) == "trace."@ + decimal(x as nat),
        forall|x: u8| #![auto] instruction_display(I::ExpBitLength(x)) == "exp.u"@ + decimal(x as nat),
        forall|x: Felt| #![auto] instruction_display(I::Push(x)) == "push."@ + decimal(x.value as nat),
        forall|x: InvocationTarget| #![auto] instruction_display(I::Exec(x)) == "exec."@ + target_text(x),
        forall|x: InvocationTarget| #![auto] instruction_display(I::Call(x)) == "call."@ + target_text(x),
        forall|x: InvocationTarget| #![auto] instruction_display(I::SysCall(x)) == "syscall."@ + target_text(x),
        forall|x: InvocationTarget| #![auto] instruction_display(I::ProcRef(x)) == "procref."@ + target_text(x),
{
    lemma_display_forms_1();
    lemma_display_forms_2();
    lemma_display_forms_3();
}

} // verus!
