//! The binary form of instructions: the bytes written for each, and reading them back.

use vstd::prelude::*;

use crate::ast::encoding::{
    lemma_le_injective, lemma_opcode_roundtrip, opcode_of_tag, opcode_tag, parse_num_push_params, u16_le, u32_le,
    u64_le, write_u16, write_u32, write_u64, DeserializationError, OpCode, SliceReader, MAX_PUSH_INPUTS,
};
use crate::ast::instruction::Instruction;
use crate::ast::InvocationTarget;
use crate::felt::{Felt, MODULUS};
use crate::format::{append_decimal, decimal};
use crate::procedure::RpoDigest;

verus! {

/// The bytes of a field element: its canonical value, least significant byte first.
pub open spec fn felt_le(f: Felt) -> Seq<u8> {
    u64_le(f.value)
}

/// The bytes of a sequence of 16-bit values, each least significant byte first.
pub open spec fn u16s_le(s: Seq<u16>) -> Seq<u8>
    decreases s.len(),
{
    if s.len() == 0 {
        Seq::empty()
    } else {
        u16s_le(s.drop_last()) + u16_le(s.last())
    }
}

/// The bytes of a sequence of 32-bit values, each least significant byte first.
pub open spec fn u32s_le(s: Seq<u32>) -> Seq<u8>
    decreases s.len(),
{
    if s.len() == 0 {
        Seq::empty()
    } else {
        u32s_le(s.drop_last()) + u32_le(s.last())
    }
}

/// The bytes of a sequence of field elements.
pub open spec fn felts_le(s: Seq<Felt>) -> Seq<u8>
    decreases s.len(),
{
    if s.len() == 0 {
        Seq::empty()
    } else {
        felts_le(s.drop_last()) + felt_le(s.last())
    }
}

/// The bytes of a MAST root: its four elements.
pub open spec fn digest_le(d: RpoDigest) -> Seq<u8> {
    u64_le(d.e0) + u64_le(d.e1) + u64_le(d.e2) + u64_le(d.e3)
}

/// The message of the error for a field element whose value `v` is not below the modulus.
pub open spec fn invalid_felt_message(v: u64) -> Seq<char> {
    "invalid field element: value "@ + decimal(v as nat) + " is greater than or equal to the field modulus"@
}

/// The next 8 bytes of `s` from `p`, read as a value, are a field element.
pub open spec fn felt_at(s: Seq<u8>, p: int) -> bool {
    exists|v: u64| v < MODULUS && #[trigger] u64_le(v) == s.subrange(p, p + 8)
}

/// Reads a field element: 8 bytes, least significant first, whose value is below the modulus.
///
/// # Errors
/// Returns [DeserializationError::UnexpectedEOF], and reads nothing, if fewer than 8 bytes are
/// left, and an invalid value if the value is not below the modulus.
pub fn read_felt(source: &mut SliceReader) -> (r: Result<Felt, DeserializationError>)
    requires
        old(source).wf(),
    ensures
        final(source).wf(),
        final(source).spec_source() == old(source).spec_source(),
        old(source).spec_pos() + 8 > old(source).spec_source().len() ==> r == Err::<Felt, DeserializationError>(
            DeserializationError::UnexpectedEOF,
        ),
        old(source).spec_pos() + 8 <= old(source).spec_source().len() ==> {
            let bytes = old(source).spec_source().subrange(old(source).spec_pos() as int, old(source).spec_pos() + 8int);
            &&& final(source).spec_pos() == old(source).spec_pos() + 8
            &&& r is Ok <==> felt_at(old(source).spec_source(), old(source).spec_pos() as int)
            &&& r matches Ok(f) ==> f.canonical() && felt_le(f) == bytes
            &&& r matches Err(e) ==> (e matches DeserializationError::InvalidValue(m)
                && exists|v: u64| #[trigger] u64_le(v) == bytes && m@ == invalid_felt_message(v))
        },
{
    let ghost s = source.spec_source();
    let ghost p = source.spec_pos() as int;
    let v = source.read_u64()?;
    if v >= MODULUS {
        proof {
            assert forall|w: u64| w < MODULUS implies u64_le(w) != s.subrange(p, p + 8) by {
                lemma_le_injective(w, v, 0, 0, 0, 0);
            }
        }
        let mut message = String::from_str("invalid field element: value ");
        append_decimal(&mut message, v);
        message.append(" is greater than or equal to the field modulus");
        return Err(DeserializationError::InvalidValue(message));
    }
    Ok(Felt { value: v })
}

/// The four elements of a MAST root are field elements.
pub open spec fn digest_at(s: Seq<u8>, p: int) -> bool {
    felt_at(s, p) && felt_at(s, p + 8) && felt_at(s, p + 16) && felt_at(s, p + 24)
}

/// The MAST root's elements are field elements.
pub open spec fn digest_canonical(d: RpoDigest) -> bool {
    d.e0 < MODULUS && d.e1 < MODULUS && d.e2 < MODULUS && d.e3 < MODULUS
}

/// Reads one element of a MAST root.
fn read_root_element(source: &mut SliceReader) -> (r: Result<u64, DeserializationError>)
    requires
        old(source).wf(),
    ensures
        final(source).wf(),
        final(source).spec_source() == old(source).spec_source(),
        old(source).spec_pos() + 8 > old(source).spec_source().len() ==> r is Err,
        old(source).spec_pos() + 8 <= old(source).spec_source().len() ==> {
            &&& final(source).spec_pos() == old(source).spec_pos() + 8
            &&& r is Ok <==> felt_at(old(source).spec_source(), old(source).spec_pos() as int)
            &&& r matches Ok(v) ==> v < MODULUS
                && u64_le(v) == old(source).spec_source().subrange(old(source).spec_pos() as int, old(source).spec_pos() + 8int)
        },
{
    let ghost s = source.spec_source();
    let ghost p = source.spec_pos() as int;
    let v = source.read_u64()?;
    if v >= MODULUS {
        proof {
            assert forall|w: u64| w < MODULUS implies u64_le(w) != s.subrange(p, p + 8) by {
                lemma_le_injective(w, v, 0, 0, 0, 0);
            }
        }
        return Err(DeserializationError::InvalidValue(String::from_str("Value not in the appropriate range")));
    }
    Ok(v)
}

/// Reads a MAST root: four field elements.
///
/// # Errors
/// Returns an error if fewer than 32 bytes are left, or if an element is not below the modulus.
pub fn read_digest(source: &mut SliceReader) -> (r: Result<RpoDigest, DeserializationError>)
    requires
        old(source).wf(),
    ensures
        final(source).wf(),
        final(source).spec_source() == old(source).spec_source(),
        old(source).spec_pos() + 32 > old(source).spec_source().len() ==> r is Err,
        old(source).spec_pos() + 32 <= old(source).spec_source().len() ==> {
            &&& r is Ok <==> digest_at(old(source).spec_source(), old(source).spec_pos() as int)
            &&& r matches Ok(d) ==> digest_canonical(d) && final(source).spec_pos() == old(source).spec_pos() + 32
                && digest_le(d) == old(source).spec_source().subrange(old(source).spec_pos() as int, old(source).spec_pos() + 32int)
        },
{
    let ghost s = source.spec_source();
    let ghost p = source.spec_pos() as int;
    let e0 = read_root_element(source)?;
    let e1 = read_root_element(source)?;
    let e2 = read_root_element(source)?;
    let e3 = read_root_element(source)?;
    let d = RpoDigest { e0, e1, e2, e3 };
    proof {
        assert(digest_le(d) =~= s.subrange(p, p + 32));
    }
    Ok(d)
}

/// The `n` field elements from `p` on are all valid.
pub open spec fn felts_at(s: Seq<u8>, p: int, n: int) -> bool {
    forall|k: int| 0 <= k < n ==> #[trigger] felt_at(s, p + 8 * k)
}

/// Reads `n` bytes.
fn read_u8s(source: &mut SliceReader, n: u8) -> (r: Result<Vec<u8>, DeserializationError>)
    requires
        old(source).wf(),
    ensures
        final(source).wf(),
        final(source).spec_source() == old(source).spec_source(),
        r is Ok <==> old(source).spec_pos() + n <= old(source).spec_source().len(),
        r matches Ok(v) ==> v@ == old(source).spec_source().subrange(old(source).spec_pos() as int, old(source).spec_pos() + n)
            && final(source).spec_pos() == old(source).spec_pos() + n,
{
    let ghost s = source.spec_source();
    let ghost p = source.spec_pos() as int;
    let mut v: Vec<u8> = Vec::new();
    let mut k: u8 = 0;
    proof {
        assert(v@ =~= Seq::empty());
        assert(s.subrange(p, p) =~= Seq::<u8>::empty());
    }
    while k < n
        invariant
            source.wf(),
            source.spec_source() == s,
            s == old(source).spec_source(),
            p == old(source).spec_pos(),
            k <= n,
            p + k <= s.len(),
            source.spec_pos() == p + k,
            v@ == s.subrange(p, p + k),
        decreases n - k,
    {
        let b = match source.read_u8() {
            Ok(b) => b,
            Err(e) => return Err(e),
        };
        v.push(b);
        proof {
            assert(v@ =~= s.subrange(p, p + k + 1));
        }
        k = k + 1;
    }
    Ok(v)
}

/// Reads `n` 16-bit values.
fn read_u16s(source: &mut SliceReader, n: u8) -> (r: Result<Vec<u16>, DeserializationError>)
    requires
        old(source).wf(),
    ensures
        final(source).wf(),
        final(source).spec_source() == old(source).spec_source(),
        r is Ok <==> old(source).spec_pos() + 2 * n <= old(source).spec_source().len(),
        r matches Ok(v) ==> v@.len() == n && u16s_le(v@) == old(source).spec_source().subrange(old(source).spec_pos() as int, old(source).spec_pos() + 2 * n)
            && final(source).spec_pos() == old(source).spec_pos() + 2 * n,
{
    let ghost s = source.spec_source();
    let ghost p = source.spec_pos() as int;
    let mut v: Vec<u16> = Vec::new();
    let mut k: u8 = 0;
    proof {
        assert(v@ =~= Seq::empty());
        assert(s.subrange(p, p) =~= Seq::<u8>::empty());
    }
    while k < n
        invariant
            source.wf(),
            source.spec_source() == s,
            s == old(source).spec_source(),
            p == old(source).spec_pos(),
            k <= n,
            p + 2 * k <= s.len(),
            source.spec_pos() == p + 2 * k,
            v@.len() == k,
            u16s_le(v@) == s.subrange(p, p + 2 * k),
        decreases n - k,
    {
        let x = match source.read_u16() {
            Ok(x) => x,
            Err(e) => return Err(e),
        };
        let ghost before = v@;
        v.push(x);
        proof {
            assert(v@.drop_last() =~= before);
            assert(u16s_le(v@) =~= s.subrange(p, p + 2 * k + 2));
        }
        k = k + 1;
    }
    Ok(v)
}

/// Reads `n` 32-bit values.
fn read_u32s(source: &mut SliceReader, n: u8) -> (r: Result<Vec<u32>, DeserializationError>)
    requires
        old(source).wf(),
    ensures
        final(source).wf(),
        final(source).spec_source() == old(source).spec_source(),
        r is Ok <==> old(source).spec_pos() + 4 * n <= old(source).spec_source().len(),
        r matches Ok(v) ==> v@.len() == n && u32s_le(v@) == old(source).spec_source().subrange(old(source).spec_pos() as int, old(source).spec_pos() + 4 * n)
            && final(source).spec_pos() == old(source).spec_pos() + 4 * n,
{
    let ghost s = source.spec_source();
    let ghost p = source.spec_pos() as int;
    let mut v: Vec<u32> = Vec::new();
    let mut k: u8 = 0;
    proof {
        assert(v@ =~= Seq::empty());
        assert(s.subrange(p, p) =~= Seq::<u8>::empty());
    }
    while k < n
        invariant
            source.wf(),
            source.spec_source() == s,
            s == old(source).spec_source(),
            p == old(source).spec_pos(),
            k <= n,
            p + 4 * k <= s.len(),
            source.spec_pos() == p + 4 * k,
            v@.len() == k,
            u32s_le(v@) == s.subrange(p, p + 4 * k),
        decreases n - k,
    {
        let x = match source.read_u32() {
            Ok(x) => x,
            Err(e) => return Err(e),
        };
        let ghost before = v@;
        v.push(x);
        proof {
            assert(v@.drop_last() =~= before);
            assert(u32s_le(v@) =~= s.subrange(p, p + 4 * k + 4));
        }
        k = k + 1;
    }
    Ok(v)
}

/// Reads `n` field elements.
fn read_felts(source: &mut SliceReader, n: u8) -> (r: Result<Vec<Felt>, DeserializationError>)
    requires
        old(source).wf(),
    ensures
        final(source).wf(),
        final(source).spec_source() == old(source).spec_source(),
        r is Ok <==> old(source).spec_pos() + 8 * n <= old(source).spec_source().len()
            && felts_at(old(source).spec_source(), old(source).spec_pos() as int, n as int),
        r matches Ok(v) ==> v@.len() == n && felts_le(v@) == old(source).spec_source().subrange(old(source).spec_pos() as int, old(source).spec_pos() + 8 * n)
            && (forall|k: int| 0 <= k < v@.len() ==> (#[trigger] v@[k]).canonical())
            && final(source).spec_pos() == old(source).spec_pos() + 8 * n,
{
    let ghost s = source.spec_source();
    let ghost p = source.spec_pos() as int;
    let mut v: Vec<Felt> = Vec::new();
    let mut k: u8 = 0;
    proof {
        assert(v@ =~= Seq::empty());
        assert(s.subrange(p, p) =~= Seq::<u8>::empty());
    }
    while k < n
        invariant
            source.wf(),
            source.spec_source() == s,
            s == old(source).spec_source(),
            p == old(source).spec_pos(),
            k <= n,
            p + 8 * k <= s.len(),
            source.spec_pos() == p + 8 * k,
            v@.len() == k,
            felts_le(v@) == s.subrange(p, p + 8 * k),
            forall|j: int| 0 <= j < v@.len() ==> (#[trigger] v@[j]).canonical(),
            felts_at(s, p, k as int),
        decreases n - k,
    {
        let ghost q = p + 8 * k;
        let x = match read_felt(source) {
            Ok(x) => x,
            Err(e) => {
                proof {
                    if p + 8 * n <= s.len() {
                        assert(!felt_at(s, q));
                        assert(!felts_at(s, p, n as int));
                    }
                }
                return Err(e);
            },
        };
        let ghost before = v@;
        v.push(x);
        proof {
            assert(v@.drop_last() =~= before);
            assert(felts_le(v@) =~= s.subrange(p, p + 8 * k + 8));
            assert forall|j: int| 0 <= j < k + 1 implies #[trigger] felt_at(s, p + 8 * j) by {
                if j == k {
                    assert(p + 8 * j == q);
                }
            }
        }
        k = k + 1;
    }
    Ok(v)
}

/// The immediate values that the binary form of an instruction holds after its operation code.
pub enum Immediate {
    /// No immediate value.
    Empty,
    /// One byte.
    U8(u8),
    /// A 16-bit value.
    U16(u16),
    /// A 32-bit value.
    U32(u32),
    /// A field element.
    Felt(Felt),
    /// A word of four field elements.
    Word(Felt, Felt, Felt, Felt),
    /// A list of bytes.
    U8s(Seq<u8>),
    /// A list of 16-bit values.
    U16s(Seq<u16>),
    /// A list of 32-bit values.
    U32s(Seq<u32>),
    /// A list of field elements.
    Felts(Seq<Felt>),
    /// A MAST root.
    Root(RpoDigest),
}

/// The kinds of immediate values.
pub enum ImmediateKind {
    Empty,
    U8,
    U16,
    U32,
    Felt,
    Word,
    U8s,
    U16s,
    U32s,
    Felts,
    Root,
}

/// The kind of the immediate value `imm`.
pub open spec fn immediate_kind(imm: Immediate) -> ImmediateKind {
    match imm {
        Immediate::Empty => ImmediateKind::Empty,
        Immediate::U8(_) => ImmediateKind::U8,
        Immediate::U16(_) => ImmediateKind::U16,
        Immediate::U32(_) => ImmediateKind::U32,
        Immediate::Felt(_) => ImmediateKind::Felt,
        Immediate::Word(..) => ImmediateKind::Word,
        Immediate::U8s(_) => ImmediateKind::U8s,
        Immediate::U16s(_) => ImmediateKind::U16s,
        Immediate::U32s(_) => ImmediateKind::U32s,
        Immediate::Felts(_) => ImmediateKind::Felts,
        Immediate::Root(_) => ImmediateKind::Root,
    }
}

/// The bytes written for an immediate value: 16-, 32- and 64-bit values and field elements least
/// significant byte first, a list as the count of its values in one byte and then the values.
pub open spec fn immediate_bytes(imm: Immediate) -> Seq<u8> {
    match imm {
        Immediate::Empty => Seq::empty(),
        Immediate::U8(x) => seq![x],
        Immediate::U16(x) => u16_le(x),
        Immediate::U32(x) => u32_le(x),
        Immediate::Felt(x) => felt_le(x),
        Immediate::Word(a, b, c, d) => felt_le(a) + felt_le(b) + felt_le(c) + felt_le(d),
        Immediate::U8s(x) => seq![x.len() as u8] + x,
        Immediate::U16s(x) => seq![x.len() as u8] + u16s_le(x),
        Immediate::U32s(x) => seq![x.len() as u8] + u32s_le(x),
        Immediate::Felts(x) => seq![x.len() as u8] + felts_le(x),
        Immediate::Root(d) => digest_le(d),
    }
}

/// An immediate value reads back as itself: its field elements are canonical, and a list holds
/// 1 to 16 values.
pub open spec fn immediate_valid(imm: Immediate) -> bool {
    match imm {
        Immediate::Felt(x) => x.canonical(),
        Immediate::Word(a, b, c, d) => a.canonical() && b.canonical() && c.canonical() && d.canonical(),
        Immediate::U8s(x) => 1 <= x.len() <= MAX_PUSH_INPUTS,
        Immediate::U16s(x) => 1 <= x.len() <= MAX_PUSH_INPUTS,
        Immediate::U32s(x) => 1 <= x.len() <= MAX_PUSH_INPUTS,
        Immediate::Felts(x) => 1 <= x.len() <= MAX_PUSH_INPUTS && forall|k: int| 0 <= k < x.len() ==> (#[trigger] x[k]).canonical(),
        Immediate::Root(d) => digest_canonical(d),
        _ => true,
    }
}

/// The bytes of `s` from `q` on begin with those of the valid immediate value `imm`.
pub open spec fn immediate_at(s: Seq<u8>, q: int, imm: Immediate) -> bool {
    &&& immediate_valid(imm)
    &&& 0 <= q
    &&& q + immediate_bytes(imm).len() <= s.len()
    &&& s.subrange(q, q + immediate_bytes(imm).len()) == immediate_bytes(imm)
}

/// The bytes of `s` from `q` on begin with those of some valid immediate value of kind `k`.
pub open spec fn immediate_kind_at(s: Seq<u8>, q: int, k: ImmediateKind) -> bool {
    exists|imm: Immediate| immediate_kind(imm) == k && #[trigger] immediate_at(s, q, imm)
}


/// The operation code written for `i`, if `i` has a binary form.
pub open spec fn instruction_opcode(i: Instruction) -> Option<OpCode> {
    match i {
        Instruction::Nop => None,
        Instruction::Assert => Some(OpCode::Assert),
        Instruction::AssertWithError(_) => Some(OpCode::AssertWithError),
        Instruction::AssertEq => Some(OpCode::AssertEq),
        Instruction::AssertEqWithError(_) => Some(OpCode::AssertEqWithError),
        Instruction::AssertEqw => Some(OpCode::AssertEqw),
        Instruction::AssertEqwWithError(_) => Some(OpCode::AssertEqwWithError),
        Instruction::Assertz => Some(OpCode::Assertz),
        Instruction::AssertzWithError(_) => Some(OpCode::AssertzWithError),
        Instruction::Add => Some(OpCode::Add),
        Instruction::AddImm(_) => Some(OpCode::AddImm),
        Instruction::Sub => Some(OpCode::Sub),
        Instruction::SubImm(_) => Some(OpCode::SubImm),
        Instruction::Mul => Some(OpCode::Mul),
        Instruction::MulImm(_) => Some(OpCode::MulImm),
        Instruction::Div => Some(OpCode::Div),
        Instruction::DivImm(_) => Some(OpCode::DivImm),
        Instruction::Neg => Some(OpCode::Neg),
        Instruction::ILog2 => Some(OpCode::ILog2),
        Instruction::Inv => Some(OpCode::Inv),
        Instruction::Incr => Some(OpCode::Incr),
        Instruction::Pow2 => Some(OpCode::Pow2),
        Instruction::Exp => Some(OpCode::Exp),
        Instruction::ExpImm(_) => Some(OpCode::ExpImm),
        Instruction::ExpBitLength(_) => Some(OpCode::ExpBitLength),
        Instruction::Not => Some(OpCode::Not),
        Instruction::And => Some(OpCode::And),
        Instruction::Or => Some(OpCode::Or),
        Instruction::Xor => Some(OpCode::Xor),
        Instruction::Eq => Some(OpCode::Eq),
        Instruction::EqImm(_) => Some(OpCode::EqImm),
        Instruction::Neq => Some(OpCode::Neq),
        Instruction::NeqImm(_) => Some(OpCode::NeqImm),
        Instruction::Eqw => Some(OpCode::Eqw),
        Instruction::Lt => Some(OpCode::Lt),
        Instruction::Lte => Some(OpCode::Lte),
        Instruction::Gt => Some(OpCode::Gt),
        Instruction::Gte => Some(OpCode::Gte),
        Instruction::IsOdd => Some(OpCode::IsOdd),
        Instruction::Ext2Add => Some(OpCode::Ext2Add),
        Instruction::Ext2Sub => Some(OpCode::Ext2Sub),
        Instruction::Ext2Mul => Some(OpCode::Ext2Mul),
        Instruction::Ext2Div => Some(OpCode::Ext2Div),
        Instruction::Ext2Neg => Some(OpCode::Ext2Neg),
        Instruction::Ext2Inv => Some(OpCode::Ext2Inv),
        Instruction::U32Test => Some(OpCode::U32Test),
        Instruction::U32TestW => Some(OpCode::U32TestW),
        Instruction::U32Assert => Some(OpCode::U32Assert),
        Instruction::U32AssertWithError(_) => Some(OpCode::U32AssertWithError),
        Instruction::U32Assert2 => Some(OpCode::U32Assert2),
        Instruction::U32Assert2WithError(_) => Some(OpCode::U32Assert2WithError),
        Instruction::U32AssertW => Some(OpCode::U32AssertW),
        Instruction::U32AssertWWithError(_) => Some(OpCode::U32AssertWWithError),
        Instruction::U32Split => Some(OpCode::U32Split),
        Instruction::U32Cast => Some(OpCode::U32Cast),
        Instruction::U32WrappingAdd => Some(OpCode::U32WrappingAdd),
        Instruction::U32WrappingAddImm(_) => Some(OpCode::U32WrappingAddImm),
        Instruction::U32OverflowingAdd => Some(OpCode::U32OverflowingAdd),
        Instruction::U32OverflowingAddImm(_) => Some(OpCode::U32OverflowingAddImm),
        Instruction::U32OverflowingAdd3 => Some(OpCode::U32OverflowingAdd3),
        Instruction::U32WrappingAdd3 => Some(OpCode::U32WrappingAdd3),
        Instruction::U32WrappingSub => Some(OpCode::U32WrappingSub),
        Instruction::U32WrappingSubImm(_) => Some(OpCode::U32WrappingSubImm),
        Instruction::U32OverflowingSub => Some(OpCode::U32OverflowingSub),
        Instruction::U32OverflowingSubImm(_) => Some(OpCode::U32OverflowingSubImm),
        Instruction::U32WrappingMul => Some(OpCode::U32WrappingMul),
        Instruction::U32WrappingMulImm(_) => Some(OpCode::U32WrappingMulImm),
        Instruction::U32OverflowingMul => Some(OpCode::U32OverflowingMul),
        Instruction::U32OverflowingMulImm(_) => Some(OpCode::U32OverflowingMulImm),
        Instruction::U32OverflowingMadd => Some(OpCode::U32OverflowingMadd),
        Instruction::U32WrappingMadd => Some(OpCode::U32WrappingMadd),
        Instruction::U32Div => Some(OpCode::U32Div),
        Instruction::U32DivImm(_) => Some(OpCode::U32DivImm),
        Instruction::U32Mod => Some(OpCode::U32Mod),
        Instruction::U32ModImm(_) => Some(OpCode::U32ModImm),
        Instruction::U32DivMod => Some(OpCode::U32DivMod),
        Instruction::U32DivModImm(_) => Some(OpCode::U32DivModImm),
        Instruction::U32And => Some(OpCode::U32And),
        Instruction::U32Or => Some(OpCode::U32Or),
        Instruction::U32Xor => Some(OpCode::U32Xor),
        Instruction::U32Not => Some(OpCode::U32Not),
        Instruction::U32Shr => Some(OpCode::U32Shr),
        Instruction::U32ShrImm(_) => Some(OpCode::U32ShrImm),
        Instruction::U32Shl => Some(OpCode::U32Shl),
        Instruction::U32ShlImm(_) => Some(OpCode::U32ShlImm),
        Instruction::U32Rotr => Some(OpCode::U32Rotr),
        Instruction::U32RotrImm(_) => Some(OpCode::U32RotrImm),
        Instruction::U32Rotl => Some(OpCode::U32Rotl),
        Instruction::U32RotlImm(_) => Some(OpCode::U32RotlImm),
        Instruction::U32Popcnt => Some(OpCode::U32Popcnt),
        Instruction::U32Ctz => Some(OpCode::U32Ctz),
        Instruction::U32Clz => Some(OpCode::U32Clz),
        Instruction::U32Clo => Some(OpCode::U32Clo),
        Instruction::U32Cto => Some(OpCode::U32Cto),
        Instruction::U32Lt => Some(OpCode::U32Lt),
        Instruction::U32Lte => Some(OpCode::U32Lte),
        Instruction::U32Gt => Some(OpCode::U32Gt),
        Instruction::U32Gte => Some(OpCode::U32Gte),
        Instruction::U32Min => Some(OpCode::U32Min),
        Instruction::U32Max => Some(OpCode::U32Max),
        Instruction::Drop => Some(OpCode::Drop),
        Instruction::DropW => Some(OpCode::DropW),
        Instruction::PadW => Some(OpCode::PadW),
        Instruction::Dup0 => Some(OpCode::Dup0),
        Instruction::Dup1 => Some(OpCode::Dup1),
        Instruction::Dup2 => Some(OpCode::Dup2),
        Instruction::Dup3 => Some(OpCode::Dup3),
        Instruction::Dup4 => Some(OpCode::Dup4),
        Instruction::Dup5 => Some(OpCode::Dup5),
        Instruction::Dup6 => Some(OpCode::Dup6),
        Instruction::Dup7 => Some(OpCode::Dup7),
        Instruction::Dup8 => Some(OpCode::Dup8),
        Instruction::Dup9 => Some(OpCode::Dup9),
        Instruction::Dup10 => Some(OpCode::Dup10),
        Instruction::Dup11 => Some(OpCode::Dup11),
        Instruction::Dup12 => Some(OpCode::Dup12),
        Instruction::Dup13 => Some(OpCode::Dup13),
        Instruction::Dup14 => Some(OpCode::Dup14),
        Instruction::Dup15 => Some(OpCode::Dup15),
        Instruction::DupW0 => Some(OpCode::DupW0),
        Instruction::DupW1 => Some(OpCode::DupW1),
        Instruction::DupW2 => Some(OpCode::DupW2),
        Instruction::DupW3 => Some(OpCode::DupW3),
        Instruction::Swap1 => Some(OpCode::Swap1),
        Instruction::Swap2 => Some(OpCode::Swap2),
        Instruction::Swap3 => Some(OpCode::Swap3),
        Instruction::Swap4 => Some(OpCode::Swap4),
        Instruction::Swap5 => Some(OpCode::Swap5),
        Instruction::Swap6 => Some(OpCode::Swap6),
        Instruction::Swap7 => Some(OpCode::Swap7),
        Instruction::Swap8 => Some(OpCode::Swap8),
        Instruction::Swap9 => Some(OpCode::Swap9),
        Instruction::Swap10 => Some(OpCode::Swap10),
        Instruction::Swap11 => Some(OpCode::Swap11),
        Instruction::Swap12 => Some(OpCode::Swap12),
        Instruction::Swap13 => Some(OpCode::Swap13),
        Instruction::Swap14 => Some(OpCode::Swap14),
        Instruction::Swap15 => Some(OpCode::Swap15),
        Instruction::SwapW1 => Some(OpCode::SwapW1),
        Instruction::SwapW2 => Some(OpCode::SwapW2),
        Instruction::SwapW3 => Some(OpCode::SwapW3),
        Instruction::SwapDw => Some(OpCode::SwapDW),
        Instruction::MovUp2 => Some(OpCode::MovUp2),
        Instruction::MovUp3 => Some(OpCode::MovUp3),
        Instruction::MovUp4 => Some(OpCode::MovUp4),
        Instruction::MovUp5 => Some(OpCode::MovUp5),
        Instruction::MovUp6 => Some(OpCode::MovUp6),
        Instruction::MovUp7 => Some(OpCode::MovUp7),
        Instruction::MovUp8 => Some(OpCode::MovUp8),
        Instruction::MovUp9 => Some(OpCode::MovUp9),
        Instruction::MovUp10 => Some(OpCode::MovUp10),
        Instruction::MovUp11 => Some(OpCode::MovUp11),
        Instruction::MovUp12 => Some(OpCode::MovUp12),
        Instruction::MovUp13 => Some(OpCode::MovUp13),
        Instruction::MovUp14 => Some(OpCode::MovUp14),
        Instruction::MovUp15 => Some(OpCode::MovUp15),
        Instruction::MovUpW2 => Some(OpCode::MovUpW2),
        Instruction::MovUpW3 => Some(OpCode::MovUpW3),
        Instruction::MovDn2 => Some(OpCode::MovDn2),
        Instruction::MovDn3 => Some(OpCode::MovDn3),
        Instruction::MovDn4 => Some(OpCode::MovDn4),
        Instruction::MovDn5 => Some(OpCode::MovDn5),
        Instruction::MovDn6 => Some(OpCode::MovDn6),
        Instruction::MovDn7 => Some(OpCode::MovDn7),
        Instruction::MovDn8 => Some(OpCode::MovDn8),
        Instruction::MovDn9 => Some(OpCode::MovDn9),
        Instruction::MovDn10 => Some(OpCode::MovDn10),
        Instruction::MovDn11 => Some(OpCode::MovDn11),
        Instruction::MovDn12 => Some(OpCode::MovDn12),
        Instruction::MovDn13 => Some(OpCode::MovDn13),
        Instruction::MovDn14 => Some(OpCode::MovDn14),
        Instruction::MovDn15 => Some(OpCode::MovDn15),
        Instruction::MovDnW2 => Some(OpCode::MovDnW2),
        Instruction::MovDnW3 => Some(OpCode::MovDnW3),
        Instruction::CSwap => Some(OpCode::CSwap),
        Instruction::CSwapW => Some(OpCode::CSwapW),
        Instruction::CDrop => Some(OpCode::CDrop),
        Instruction::CDropW => Some(OpCode::CDropW),
        Instruction::Push(_) => Some(OpCode::PushFelt),
        Instruction::PushU8(_) => Some(OpCode::PushU8),
        Instruction::PushU16(_) => Some(OpCode::PushU16),
        Instruction::PushU32(_) => Some(OpCode::PushU32),
        Instruction::PushFelt(_) => Some(OpCode::PushFelt),
        Instruction::PushWord(_) => Some(OpCode::PushWord),
        Instruction::PushU8List(_) => Some(OpCode::PushU8List),
        Instruction::PushU16List(_) => Some(OpCode::PushU16List),
        Instruction::PushU32List(_) => Some(OpCode::PushU32List),
        Instruction::PushFeltList(_) => Some(OpCode::PushFeltList),
        Instruction::Locaddr(_) => Some(OpCode::Locaddr),
        Instruction::Sdepth => Some(OpCode::Sdepth),
        Instruction::Caller => Some(OpCode::Caller),
        Instruction::Clk => Some(OpCode::Clk),
        Instruction::MemLoad => Some(OpCode::MemLoad),
        Instruction::MemLoadImm(_) => Some(OpCode::MemLoadImm),
        Instruction::MemLoadW => Some(OpCode::MemLoadW),
        Instruction::MemLoadWImm(_) => Some(OpCode::MemLoadWImm),
        Instruction::LocLoad(_) => Some(OpCode::LocLoad),
        Instruction::LocLoadW(_) => Some(OpCode::LocLoadW),
        Instruction::MemStore => Some(OpCode::MemStore),
        Instruction::MemStoreImm(_) => Some(OpCode::MemStoreImm),
        Instruction::LocStore(_) => Some(OpCode::LocStore),
        Instruction::MemStoreW => Some(OpCode::MemStoreW),
        Instruction::MemStoreWImm(_) => Some(OpCode::MemStoreWImm),
        Instruction::LocStoreW(_) => Some(OpCode::LocStoreW),
        Instruction::MemStream => Some(OpCode::MemStream),
        Instruction::AdvPipe => Some(OpCode::AdvPipe),
        Instruction::AdvPush(_) => Some(OpCode::AdvPush),
        Instruction::AdvLoadW => Some(OpCode::AdvLoadW),
        Instruction::AdvInject(_) => None,
        Instruction::Hash => Some(OpCode::Hash),
        Instruction::HMerge => Some(OpCode::HMerge),
        Instruction::HPerm => Some(OpCode::HPerm),
        Instruction::MTreeGet => Some(OpCode::MTreeGet),
        Instruction::MTreeSet => Some(OpCode::MTreeSet),
        Instruction::MTreeMerge => Some(OpCode::MTreeMerge),
        Instruction::MTreeVerify => Some(OpCode::MTreeVerify),
        Instruction::MTreeVerifyWithError(_) => None,
        Instruction::FriExt2Fold4 => Some(OpCode::FriExt2Fold4),
        Instruction::RCombBase => Some(OpCode::RCombBase),
        Instruction::Exec(_) => None,
        Instruction::Call(x) => if x is MastRoot { Some(OpCode::CallMastRoot) } else { None },
        Instruction::SysCall(_) => None,
        Instruction::DynExec => Some(OpCode::DynExec),
        Instruction::DynCall => Some(OpCode::DynCall),
        Instruction::ProcRef(_) => None,
        Instruction::Breakpoint => None,
        Instruction::Debug(_) => None,
        Instruction::Emit(_) => Some(OpCode::Emit),
        Instruction::Trace(_) => Some(OpCode::Trace),
    }
}

/// The immediate values of `i` that its binary form holds after the operation code.
pub open spec fn instruction_immediate(i: Instruction) -> Immediate {
    match i {
        Instruction::Nop => Immediate::Empty,
        Instruction::Assert => Immediate::Empty,
        Instruction::AssertWithError(x) => Immediate::U32(x),
        Instruction::AssertEq => Immediate::Empty,
        Instruction::AssertEqWithError(x) => Immediate::U32(x),
        Instruction::AssertEqw => Immediate::Empty,
        Instruction::AssertEqwWithError(x) => Immediate::U32(x),
        Instruction::Assertz => Immediate::Empty,
        Instruction::AssertzWithError(x) => Immediate::U32(x),
        Instruction::Add => Immediate::Empty,
        Instruction::AddImm(x) => Immediate::Felt(x),
        Instruction::Sub => Immediate::Empty,
        Instruction::SubImm(x) => Immediate::Felt(x),
        Instruction::Mul => Immediate::Empty,
        Instruction::MulImm(x) => Immediate::Felt(x),
        Instruction::Div => Immediate::Empty,
        Instruction::DivImm(x) => Immediate::Felt(x),
        Instruction::Neg => Immediate::Empty,
        Instruction::ILog2 => Immediate::Empty,
        Instruction::Inv => Immediate::Empty,
        Instruction::Incr => Immediate::Empty,
        Instruction::Pow2 => Immediate::Empty,
        Instruction::Exp => Immediate::Empty,
        Instruction::ExpImm(x) => Immediate::Felt(x),
        Instruction::ExpBitLength(x) => Immediate::U8(x),
        Instruction::Not => Immediate::Empty,
        Instruction::And => Immediate::Empty,
        Instruction::Or => Immediate::Empty,
        Instruction::Xor => Immediate::Empty,
        Instruction::Eq => Immediate::Empty,
        Instruction::EqImm(x) => Immediate::Felt(x),
        Instruction::Neq => Immediate::Empty,
        Instruction::NeqImm(x) => Immediate::Felt(x),
        Instruction::Eqw => Immediate::Empty,
        Instruction::Lt => Immediate::Empty,
        Instruction::Lte => Immediate::Empty,
        Instruction::Gt => Immediate::Empty,
        Instruction::Gte => Immediate::Empty,
        Instruction::IsOdd => Immediate::Empty,
        Instruction::Ext2Add => Immediate::Empty,
        Instruction::Ext2Sub => Immediate::Empty,
        Instruction::Ext2Mul => Immediate::Empty,
        Instruction::Ext2Div => Immediate::Empty,
        Instruction::Ext2Neg => Immediate::Empty,
        Instruction::Ext2Inv => Immediate::Empty,
        Instruction::U32Test => Immediate::Empty,
        Instruction::U32TestW => Immediate::Empty,
        Instruction::U32Assert => Immediate::Empty,
        Instruction::U32AssertWithError(x) => Immediate::U32(x),
        Instruction::U32Assert2 => Immediate::Empty,
        Instruction::U32Assert2WithError(x) => Immediate::U32(x),
        Instruction::U32AssertW => Immediate::Empty,
        Instruction::U32AssertWWithError(x) => Immediate::U32(x),
        Instruction::U32Split => Immediate::Empty,
        Instruction::U32Cast => Immediate::Empty,
        Instruction::U32WrappingAdd => Immediate::Empty,
        Instruction::U32WrappingAddImm(x) => Immediate::U32(x),
        Instruction::U32OverflowingAdd => Immediate::Empty,
        Instruction::U32OverflowingAddImm(x) => Immediate::U32(x),
        Instruction::U32OverflowingAdd3 => Immediate::Empty,
        Instruction::U32WrappingAdd3 => Immediate::Empty,
        Instruction::U32WrappingSub => Immediate::Empty,
        Instruction::U32WrappingSubImm(x) => Immediate::U32(x),
        Instruction::U32OverflowingSub => Immediate::Empty,
        Instruction::U32OverflowingSubImm(x) => Immediate::U32(x),
        Instruction::U32WrappingMul => Immediate::Empty,
        Instruction::U32WrappingMulImm(x) => Immediate::U32(x),
        Instruction::U32OverflowingMul => Immediate::Empty,
        Instruction::U32OverflowingMulImm(x) => Immediate::U32(x),
        Instruction::U32OverflowingMadd => Immediate::Empty,
        Instruction::U32WrappingMadd => Immediate::Empty,
        Instruction::U32Div => Immediate::Empty,
        Instruction::U32DivImm(x) => Immediate::U32(x),
        Instruction::U32Mod => Immediate::Empty,
        Instruction::U32ModImm(x) => Immediate::U32(x),
        Instruction::U32DivMod => Immediate::Empty,
        Instruction::U32DivModImm(x) => Immediate::U32(x),
        Instruction::U32And => Immediate::Empty,
        Instruction::U32Or => Immediate::Empty,
        Instruction::U32Xor => Immediate::Empty,
        Instruction::U32Not => Immediate::Empty,
        Instruction::U32Shr => Immediate::Empty,
        Instruction::U32ShrImm(x) => Immediate::U8(x),
        Instruction::U32Shl => Immediate::Empty,
        Instruction::U32ShlImm(x) => Immediate::U8(x),
        Instruction::U32Rotr => Immediate::Empty,
        Instruction::U32RotrImm(x) => Immediate::U8(x),
        Instruction::U32Rotl => Immediate::Empty,
        Instruction::U32RotlImm(x) => Immediate::U8(x),
        Instruction::U32Popcnt => Immediate::Empty,
        Instruction::U32Ctz => Immediate::Empty,
        Instruction::U32Clz => Immediate::Empty,
        Instruction::U32Clo => Immediate::Empty,
        Instruction::U32Cto => Immediate::Empty,
        Instruction::U32Lt => Immediate::Empty,
        Instruction::U32Lte => Immediate::Empty,
        Instruction::U32Gt => Immediate::Empty,
        Instruction::U32Gte => Immediate::Empty,
        Instruction::U32Min => Immediate::Empty,
        Instruction::U32Max => Immediate::Empty,
        Instruction::Drop => Immediate::Empty,
        Instruction::DropW => Immediate::Empty,
        Instruction::PadW => Immediate::Empty,
        Instruction::Dup0 => Immediate::Empty,
        Instruction::Dup1 => Immediate::Empty,
        Instruction::Dup2 => Immediate::Empty,
        Instruction::Dup3 => Immediate::Empty,
        Instruction::Dup4 => Immediate::Empty,
        Instruction::Dup5 => Immediate::Empty,
        Instruction::Dup6 => Immediate::Empty,
        Instruction::Dup7 => Immediate::Empty,
        Instruction::Dup8 => Immediate::Empty,
        Instruction::Dup9 => Immediate::Empty,
        Instruction::Dup10 => Immediate::Empty,
        Instruction::Dup11 => Immediate::Empty,
        Instruction::Dup12 => Immediate::Empty,
        Instruction::Dup13 => Immediate::Empty,
        Instruction::Dup14 => Immediate::Empty,
        Instruction::Dup15 => Immediate::Empty,
        Instruction::DupW0 => Immediate::Empty,
        Instruction::DupW1 => Immediate::Empty,
        Instruction::DupW2 => Immediate::Empty,
        Instruction::DupW3 => Immediate::Empty,
        Instruction::Swap1 => Immediate::Empty,
        Instruction::Swap2 => Immediate::Empty,
        Instruction::Swap3 => Immediate::Empty,
        Instruction::Swap4 => Immediate::Empty,
        Instruction::Swap5 => Immediate::Empty,
        Instruction::Swap6 => Immediate::Empty,
        Instruction::Swap7 => Immediate::Empty,
        Instruction::Swap8 => Immediate::Empty,
        Instruction::Swap9 => Immediate::Empty,
        Instruction::Swap10 => Immediate::Empty,
        Instruction::Swap11 => Immediate::Empty,
        Instruction::Swap12 => Immediate::Empty,
        Instruction::Swap13 => Immediate::Empty,
        Instruction::Swap14 => Immediate::Empty,
        Instruction::Swap15 => Immediate::Empty,
        Instruction::SwapW1 => Immediate::Empty,
        Instruction::SwapW2 => Immediate::Empty,
        Instruction::SwapW3 => Immediate::Empty,
        Instruction::SwapDw => Immediate::Empty,
        Instruction::MovUp2 => Immediate::Empty,
        Instruction::MovUp3 => Immediate::Empty,
        Instruction::MovUp4 => Immediate::Empty,
        Instruction::MovUp5 => Immediate::Empty,
        Instruction::MovUp6 => Immediate::Empty,
        Instruction::MovUp7 => Immediate::Empty,
        Instruction::MovUp8 => Immediate::Empty,
        Instruction::MovUp9 => Immediate::Empty,
        Instruction::MovUp10 => Immediate::Empty,
        Instruction::MovUp11 => Immediate::Empty,
        Instruction::MovUp12 => Immediate::Empty,
        Instruction::MovUp13 => Immediate::Empty,
        Instruction::MovUp14 => Immediate::Empty,
        Instruction::MovUp15 => Immediate::Empty,
        Instruction::MovUpW2 => Immediate::Empty,
        Instruction::MovUpW3 => Immediate::Empty,
        Instruction::MovDn2 => Immediate::Empty,
        Instruction::MovDn3 => Immediate::Empty,
        Instruction::MovDn4 => Immediate::Empty,
        Instruction::MovDn5 => Immediate::Empty,
        Instruction::MovDn6 => Immediate::Empty,
        Instruction::MovDn7 => Immediate::Empty,
        Instruction::MovDn8 => Immediate::Empty,
        Instruction::MovDn9 => Immediate::Empty,
        Instruction::MovDn10 => Immediate::Empty,
        Instruction::MovDn11 => Immediate::Empty,
        Instruction::MovDn12 => Immediate::Empty,
        Instruction::MovDn13 => Immediate::Empty,
        Instruction::MovDn14 => Immediate::Empty,
        Instruction::MovDn15 => Immediate::Empty,
        Instruction::MovDnW2 => Immediate::Empty,
        Instruction::MovDnW3 => Immediate::Empty,
        Instruction::CSwap => Immediate::Empty,
        Instruction::CSwapW => Immediate::Empty,
        Instruction::CDrop => Immediate::Empty,
        Instruction::CDropW => Immediate::Empty,
        Instruction::Push(x) => Immediate::Felt(x),
        Instruction::PushU8(x) => Immediate::U8(x),
        Instruction::PushU16(x) => Immediate::U16(x),
        Instruction::PushU32(x) => Immediate::U32(x),
        Instruction::PushFelt(x) => Immediate::Felt(x),
        Instruction::PushWord(x) => Immediate::Word(x[0], x[1], x[2], x[3]),
        Instruction::PushU8List(x) => Immediate::U8s(x@),
        Instruction::PushU16List(x) => Immediate::U16s(x@),
        Instruction::PushU32List(x) => Immediate::U32s(x@),
        Instruction::PushFeltList(x) => Immediate::Felts(x@),
        Instruction::Locaddr(x) => Immediate::U16(x),
        Instruction::Sdepth => Immediate::Empty,
        Instruction::Caller => Immediate::Empty,
        Instruction::Clk => Immediate::Empty,
        Instruction::MemLoad => Immediate::Empty,
        Instruction::MemLoadImm(x) => Immediate::U32(x),
        Instruction::MemLoadW => Immediate::Empty,
        Instruction::MemLoadWImm(x) => Immediate::U32(x),
        Instruction::LocLoad(x) => Immediate::U16(x),
        Instruction::LocLoadW(x) => Immediate::U16(x),
        Instruction::MemStore => Immediate::Empty,
        Instruction::MemStoreImm(x) => Immediate::U32(x),
        Instruction::LocStore(x) => Immediate::U16(x),
        Instruction::MemStoreW => Immediate::Empty,
        Instruction::MemStoreWImm(x) => Immediate::U32(x),
        Instruction::LocStoreW(x) => Immediate::U16(x),
        Instruction::MemStream => Immediate::Empty,
        Instruction::AdvPipe => Immediate::Empty,
        Instruction::AdvPush(x) => Immediate::U8(x),
        Instruction::AdvLoadW => Immediate::Empty,
        Instruction::AdvInject(_) => Immediate::Empty,
        Instruction::Hash => Immediate::Empty,
        Instruction::HMerge => Immediate::Empty,
        Instruction::HPerm => Immediate::Empty,
        Instruction::MTreeGet => Immediate::Empty,
        Instruction::MTreeSet => Immediate::Empty,
        Instruction::MTreeMerge => Immediate::Empty,
        Instruction::MTreeVerify => Immediate::Empty,
        Instruction::MTreeVerifyWithError(_) => Immediate::Empty,
        Instruction::FriExt2Fold4 => Immediate::Empty,
        Instruction::RCombBase => Immediate::Empty,
        Instruction::Exec(_) => Immediate::Empty,
        Instruction::Call(x) => match x { InvocationTarget::MastRoot(d) => Immediate::Root(d), _ => Immediate::Empty },
        Instruction::SysCall(_) => Immediate::Empty,
        Instruction::DynExec => Immediate::Empty,
        Instruction::DynCall => Immediate::Empty,
        Instruction::ProcRef(_) => Immediate::Empty,
        Instruction::Breakpoint => Immediate::Empty,
        Instruction::Debug(_) => Immediate::Empty,
        Instruction::Emit(x) => Immediate::U32(x),
        Instruction::Trace(x) => Immediate::U32(x),
    }
}

/// The kind of immediates that follow the operation code `op`; `None` for an operation code whose
/// instruction is not read back here.
pub open spec fn opcode_kind(op: OpCode) -> Option<ImmediateKind> {
    match op {
        OpCode::Assert => Some(ImmediateKind::Empty),
        OpCode::AssertWithError => Some(ImmediateKind::U32),
        OpCode::AssertEq => Some(ImmediateKind::Empty),
        OpCode::AssertEqWithError => Some(ImmediateKind::U32),
        OpCode::AssertEqw => Some(ImmediateKind::Empty),
        OpCode::AssertEqwWithError => Some(ImmediateKind::U32),
        OpCode::Assertz => Some(ImmediateKind::Empty),
        OpCode::AssertzWithError => Some(ImmediateKind::U32),
        OpCode::Add => Some(ImmediateKind::Empty),
        OpCode::AddImm => Some(ImmediateKind::Felt),
        OpCode::Sub => Some(ImmediateKind::Empty),
        OpCode::SubImm => Some(ImmediateKind::Felt),
        OpCode::Mul => Some(ImmediateKind::Empty),
        OpCode::MulImm => Some(ImmediateKind::Felt),
        OpCode::Div => Some(ImmediateKind::Empty),
        OpCode::DivImm => Some(ImmediateKind::Felt),
        OpCode::Neg => Some(ImmediateKind::Empty),
        OpCode::Inv => Some(ImmediateKind::Empty),
        OpCode::Incr => Some(ImmediateKind::Empty),
        OpCode::Pow2 => Some(ImmediateKind::Empty),
        OpCode::Exp => Some(ImmediateKind::Empty),
        OpCode::ExpImm => Some(ImmediateKind::Felt),
        OpCode::ExpBitLength => Some(ImmediateKind::U8),
        OpCode::ILog2 => Some(ImmediateKind::Empty),
        OpCode::Not => Some(ImmediateKind::Empty),
        OpCode::And => Some(ImmediateKind::Empty),
        OpCode::Or => Some(ImmediateKind::Empty),
        OpCode::Xor => Some(ImmediateKind::Empty),
        OpCode::Eq => Some(ImmediateKind::Empty),
        OpCode::EqImm => Some(ImmediateKind::Felt),
        OpCode::Neq => Some(ImmediateKind::Empty),
        OpCode::NeqImm => Some(ImmediateKind::Felt),
        OpCode::Eqw => Some(ImmediateKind::Empty),
        OpCode::Lt => Some(ImmediateKind::Empty),
        OpCode::Lte => Some(ImmediateKind::Empty),
        OpCode::Gt => Some(ImmediateKind::Empty),
        OpCode::Gte => Some(ImmediateKind::Empty),
        OpCode::IsOdd => Some(ImmediateKind::Empty),
        OpCode::Ext2Add => Some(ImmediateKind::Empty),
        OpCode::Ext2Sub => Some(ImmediateKind::Empty),
        OpCode::Ext2Mul => Some(ImmediateKind::Empty),
        OpCode::Ext2Div => Some(ImmediateKind::Empty),
        OpCode::Ext2Neg => Some(ImmediateKind::Empty),
        OpCode::Ext2Inv => Some(ImmediateKind::Empty),
        OpCode::U32Test => Some(ImmediateKind::Empty),
        OpCode::U32TestW => Some(ImmediateKind::Empty),
        OpCode::U32Assert => Some(ImmediateKind::Empty),
        OpCode::U32AssertWithError => Some(ImmediateKind::U32),
        OpCode::U32Assert2 => Some(ImmediateKind::Empty),
        OpCode::U32Assert2WithError => Some(ImmediateKind::U32),
        OpCode::U32AssertW => Some(ImmediateKind::Empty),
        OpCode::U32AssertWWithError => Some(ImmediateKind::U32),
        OpCode::U32Split => Some(ImmediateKind::Empty),
        OpCode::U32Cast => Some(ImmediateKind::Empty),
        OpCode::U32WrappingAdd => Some(ImmediateKind::Empty),
        OpCode::U32WrappingAddImm => Some(ImmediateKind::U32),
        OpCode::U32OverflowingAdd => Some(ImmediateKind::Empty),
        OpCode::U32OverflowingAddImm => Some(ImmediateKind::U32),
        OpCode::U32OverflowingAdd3 => Some(ImmediateKind::Empty),
        OpCode::U32WrappingAdd3 => Some(ImmediateKind::Empty),
        OpCode::U32WrappingSub => Some(ImmediateKind::Empty),
        OpCode::U32WrappingSubImm => Some(ImmediateKind::U32),
        OpCode::U32OverflowingSub => Some(ImmediateKind::Empty),
        OpCode::U32OverflowingSubImm => Some(ImmediateKind::U32),
        OpCode::U32WrappingMul => Some(ImmediateKind::Empty),
        OpCode::U32WrappingMulImm => Some(ImmediateKind::U32),
        OpCode::U32OverflowingMul => Some(ImmediateKind::Empty),
        OpCode::U32OverflowingMulImm => Some(ImmediateKind::U32),
        OpCode::U32OverflowingMadd => Some(ImmediateKind::Empty),
        OpCode::U32WrappingMadd => Some(ImmediateKind::Empty),
        OpCode::U32Div => Some(ImmediateKind::Empty),
        OpCode::U32DivImm => Some(ImmediateKind::U32),
        OpCode::U32Mod => Some(ImmediateKind::Empty),
        OpCode::U32ModImm => Some(ImmediateKind::U32),
        OpCode::U32DivMod => Some(ImmediateKind::Empty),
        OpCode::U32DivModImm => Some(ImmediateKind::U32),
        OpCode::U32And => Some(ImmediateKind::Empty),
        OpCode::U32Or => Some(ImmediateKind::Empty),
        OpCode::U32Xor => Some(ImmediateKind::Empty),
        OpCode::U32Not => Some(ImmediateKind::Empty),
        OpCode::U32Shr => Some(ImmediateKind::Empty),
        OpCode::U32ShrImm => Some(ImmediateKind::U8),
        OpCode::U32Shl => Some(ImmediateKind::Empty),
        OpCode::U32ShlImm => Some(ImmediateKind::U8),
        OpCode::U32Rotr => Some(ImmediateKind::Empty),
        OpCode::U32RotrImm => Some(ImmediateKind::U8),
        OpCode::U32Rotl => Some(ImmediateKind::Empty),
        OpCode::U32RotlImm => Some(ImmediateKind::U8),
        OpCode::U32Popcnt => Some(ImmediateKind::Empty),
        OpCode::U32Clz => Some(ImmediateKind::Empty),
        OpCode::U32Ctz => Some(ImmediateKind::Empty),
        OpCode::U32Clo => Some(ImmediateKind::Empty),
        OpCode::U32Cto => Some(ImmediateKind::Empty),
        OpCode::U32Lt => Some(ImmediateKind::Empty),
        OpCode::U32Lte => Some(ImmediateKind::Empty),
        OpCode::U32Gt => Some(ImmediateKind::Empty),
        OpCode::U32Gte => Some(ImmediateKind::Empty),
        OpCode::U32Min => Some(ImmediateKind::Empty),
        OpCode::U32Max => Some(ImmediateKind::Empty),
        OpCode::Drop => Some(ImmediateKind::Empty),
        OpCode::DropW => Some(ImmediateKind::Empty),
        OpCode::PadW => Some(ImmediateKind::Empty),
        OpCode::Dup0 => Some(ImmediateKind::Empty),
        OpCode::Dup1 => Some(ImmediateKind::Empty),
        OpCode::Dup2 => Some(ImmediateKind::Empty),
        OpCode::Dup3 => Some(ImmediateKind::Empty),
        OpCode::Dup4 => Some(ImmediateKind::Empty),
        OpCode::Dup5 => Some(ImmediateKind::Empty),
        OpCode::Dup6 => Some(ImmediateKind::Empty),
        OpCode::Dup7 => Some(ImmediateKind::Empty),
        OpCode::Dup8 => Some(ImmediateKind::Empty),
        OpCode::Dup9 => Some(ImmediateKind::Empty),
        OpCode::Dup10 => Some(ImmediateKind::Empty),
        OpCode::Dup11 => Some(ImmediateKind::Empty),
        OpCode::Dup12 => Some(ImmediateKind::Empty),
        OpCode::Dup13 => Some(ImmediateKind::Empty),
        OpCode::Dup14 => Some(ImmediateKind::Empty),
        OpCode::Dup15 => Some(ImmediateKind::Empty),
        OpCode::DupW0 => Some(ImmediateKind::Empty),
        OpCode::DupW1 => Some(ImmediateKind::Empty),
        OpCode::DupW2 => Some(ImmediateKind::Empty),
        OpCode::DupW3 => Some(ImmediateKind::Empty),
        OpCode::Swap1 => Some(ImmediateKind::Empty),
        OpCode::Swap2 => Some(ImmediateKind::Empty),
        OpCode::Swap3 => Some(ImmediateKind::Empty),
        OpCode::Swap4 => Some(ImmediateKind::Empty),
        OpCode::Swap5 => Some(ImmediateKind::Empty),
        OpCode::Swap6 => Some(ImmediateKind::Empty),
        OpCode::Swap7 => Some(ImmediateKind::Empty),
        OpCode::Swap8 => Some(ImmediateKind::Empty),
        OpCode::Swap9 => Some(ImmediateKind::Empty),
        OpCode::Swap10 => Some(ImmediateKind::Empty),
        OpCode::Swap11 => Some(ImmediateKind::Empty),
        OpCode::Swap12 => Some(ImmediateKind::Empty),
        OpCode::Swap13 => Some(ImmediateKind::Empty),
        OpCode::Swap14 => Some(ImmediateKind::Empty),
        OpCode::Swap15 => Some(ImmediateKind::Empty),
        OpCode::SwapW1 => Some(ImmediateKind::Empty),
        OpCode::SwapW2 => Some(ImmediateKind::Empty),
        OpCode::SwapW3 => Some(ImmediateKind::Empty),
        OpCode::SwapDW => Some(ImmediateKind::Empty),
        OpCode::MovUp2 => Some(ImmediateKind::Empty),
        OpCode::MovUp3 => Some(ImmediateKind::Empty),
        OpCode::MovUp4 => Some(ImmediateKind::Empty),
        OpCode::MovUp5 => Some(ImmediateKind::Empty),
        OpCode::MovUp6 => Some(ImmediateKind::Empty),
        OpCode::MovUp7 => Some(ImmediateKind::Empty),
        OpCode::MovUp8 => Some(ImmediateKind::Empty),
        OpCode::MovUp9 => Some(ImmediateKind::Empty),
        OpCode::MovUp10 => Some(ImmediateKind::Empty),
        OpCode::MovUp11 => Some(ImmediateKind::Empty),
        OpCode::MovUp12 => Some(ImmediateKind::Empty),
        OpCode::MovUp13 => Some(ImmediateKind::Empty),
        OpCode::MovUp14 => Some(ImmediateKind::Empty),
        OpCode::MovUp15 => Some(ImmediateKind::Empty),
        OpCode::MovUpW2 => Some(ImmediateKind::Empty),
        OpCode::MovUpW3 => Some(ImmediateKind::Empty),
        OpCode::MovDn2 => Some(ImmediateKind::Empty),
        OpCode::MovDn3 => Some(ImmediateKind::Empty),
        OpCode::MovDn4 => Some(ImmediateKind::Empty),
        OpCode::MovDn5 => Some(ImmediateKind::Empty),
        OpCode::MovDn6 => Some(ImmediateKind::Empty),
        OpCode::MovDn7 => Some(ImmediateKind::Empty),
        OpCode::MovDn8 => Some(ImmediateKind::Empty),
        OpCode::MovDn9 => Some(ImmediateKind::Empty),
        OpCode::MovDn10 => Some(ImmediateKind::Empty),
        OpCode::MovDn11 => Some(ImmediateKind::Empty),
        OpCode::MovDn12 => Some(ImmediateKind::Empty),
        OpCode::MovDn13 => Some(ImmediateKind::Empty),
        OpCode::MovDn14 => Some(ImmediateKind::Empty),
        OpCode::MovDn15 => Some(ImmediateKind::Empty),
        OpCode::MovDnW2 => Some(ImmediateKind::Empty),
        OpCode::MovDnW3 => Some(ImmediateKind::Empty),
        OpCode::CSwap => Some(ImmediateKind::Empty),
        OpCode::CSwapW => Some(ImmediateKind::Empty),
        OpCode::CDrop => Some(ImmediateKind::Empty),
        OpCode::CDropW => Some(ImmediateKind::Empty),
        OpCode::PushU8 => Some(ImmediateKind::U8),
        OpCode::PushU16 => Some(ImmediateKind::U16),
        OpCode::PushU32 => Some(ImmediateKind::U32),
        OpCode::PushFelt => Some(ImmediateKind::Felt),
        OpCode::PushWord => Some(ImmediateKind::Word),
        OpCode::PushU8List => Some(ImmediateKind::U8s),
        OpCode::PushU16List => Some(ImmediateKind::U16s),
        OpCode::PushU32List => Some(ImmediateKind::U32s),
        OpCode::PushFeltList => Some(ImmediateKind::Felts),
        OpCode::Locaddr => Some(ImmediateKind::U16),
        OpCode::Sdepth => Some(ImmediateKind::Empty),
        OpCode::Caller => Some(ImmediateKind::Empty),
        OpCode::Clk => Some(ImmediateKind::Empty),
        OpCode::MemLoad => Some(ImmediateKind::Empty),
        OpCode::MemLoadImm => Some(ImmediateKind::U32),
        OpCode::MemLoadW => Some(ImmediateKind::Empty),
        OpCode::MemLoadWImm => Some(ImmediateKind::U32),
        OpCode::LocLoad => Some(ImmediateKind::U16),
        OpCode::LocLoadW => Some(ImmediateKind::U16),
        OpCode::MemStore => Some(ImmediateKind::Empty),
        OpCode::MemStoreImm => Some(ImmediateKind::U32),
        OpCode::LocStore => Some(ImmediateKind::U16),
        OpCode::MemStoreW => Some(ImmediateKind::Empty),
        OpCode::MemStoreWImm => Some(ImmediateKind::U32),
        OpCode::LocStoreW => Some(ImmediateKind::U16),
        OpCode::MemStream => Some(ImmediateKind::Empty),
        OpCode::AdvPipe => Some(ImmediateKind::Empty),
        OpCode::AdvPush => Some(ImmediateKind::U8),
        OpCode::AdvLoadW => Some(ImmediateKind::Empty),
        OpCode::AdvInject => None,
        OpCode::Hash => Some(ImmediateKind::Empty),
        OpCode::HMerge => Some(ImmediateKind::Empty),
        OpCode::HPerm => Some(ImmediateKind::Empty),
        OpCode::MTreeGet => Some(ImmediateKind::Empty),
        OpCode::MTreeSet => Some(ImmediateKind::Empty),
        OpCode::MTreeMerge => Some(ImmediateKind::Empty),
        OpCode::MTreeVerify => Some(ImmediateKind::Empty),
        OpCode::FriExt2Fold4 => Some(ImmediateKind::Empty),
        OpCode::RCombBase => Some(ImmediateKind::Empty),
        OpCode::ExecLocal => None,
        OpCode::ExecImported => None,
        OpCode::CallLocal => None,
        OpCode::CallMastRoot => Some(ImmediateKind::Root),
        OpCode::CallImported => None,
        OpCode::SysCall => None,
        OpCode::DynExec => Some(ImmediateKind::Empty),
        OpCode::DynCall => Some(ImmediateKind::Empty),
        OpCode::ProcRefLocal => None,
        OpCode::ProcRefImported => None,
        OpCode::Debug => None,
        OpCode::Emit => Some(ImmediateKind::U32),
        OpCode::Trace => Some(ImmediateKind::U32),
        OpCode::IfElse => None,
        OpCode::Repeat => None,
        OpCode::While => None,
    }
}

/// The bytes written for `i`: its operation code, then its immediates; `None` for an instruction
/// that has no binary form.
pub open spec fn instruction_bytes(i: Instruction) -> Option<Seq<u8>> {
    match instruction_opcode(i) {
        Some(op) => Some(seq![opcode_tag(op)] + immediate_bytes(instruction_immediate(i))),
        None => None,
    }
}

/// `i` has a binary form that reads back: an operation code, and valid immediates.
pub open spec fn encodable(i: Instruction) -> bool {
    instruction_opcode(i) is Some && immediate_valid(instruction_immediate(i))
}

/// The bytes of `s` from `p` on begin with the binary form of `i`.
pub open spec fn encoded_at(s: Seq<u8>, p: int, i: Instruction) -> bool {
    &&& encodable(i)
    &&& 0 <= p
    &&& instruction_bytes(i) matches Some(b)
    &&& p + b.len() <= s.len()
    &&& s.subrange(p, p + b.len()) == b
}

/// The operation codes of control flow, which are read as part of a block and never as an
/// instruction.
pub open spec fn control_flow_opcode(op: OpCode) -> bool {
    op is IfElse || op is Repeat || op is While
}

/// A part of `b`, which `s` holds from `p` on, is the same part of `s`.
pub proof fn lemma_sub(s: Seq<u8>, p: int, b: Seq<u8>, lo: int, hi: int)
    requires
        0 <= p,
        p + b.len() <= s.len(),
        s.subrange(p, p + b.len()) == b,
        0 <= lo <= hi <= b.len(),
    ensures
        s.subrange(p + lo, p + hi) == b.subrange(lo, hi),
{
    assert(s.subrange(p + lo, p + hi) =~= b.subrange(lo, hi)) by {
        assert forall|k: int| 0 <= k < hi - lo implies s.subrange(p + lo, p + hi)[k] == b.subrange(lo, hi)[k] by {
            assert(s.subrange(p, p + b.len())[lo + k] == b[lo + k]);
        }
    }
}

/// The bytes of a list have a fixed size per value.
pub proof fn lemma_list_lens(a: Seq<u16>, b: Seq<u32>, c: Seq<Felt>)
    ensures
        u16s_le(a).len() == 2 * a.len(),
        u32s_le(b).len() == 4 * b.len(),
        felts_le(c).len() == 8 * c.len(),
    decreases a.len() + b.len() + c.len(),
{
    if a.len() > 0 {
        lemma_list_lens(a.drop_last(), b, c);
    } else if b.len() > 0 {
        lemma_list_lens(a, b.drop_last(), c);
    } else if c.len() > 0 {
        lemma_list_lens(a, b, c.drop_last());
    }
}

/// The bytes of the `k`-th element of a list of field elements.
pub proof fn lemma_felts_le_at(c: Seq<Felt>, k: int)
    requires
        0 <= k < c.len(),
    ensures
        felts_le(c).len() == 8 * c.len(),
        felts_le(c).subrange(8 * k, 8 * k + 8) == felt_le(c[k]),
    decreases c.len(),
{
    lemma_list_lens(Seq::empty(), Seq::empty(), c);
    lemma_list_lens(Seq::empty(), Seq::empty(), c.drop_last());
    if k < c.len() - 1 {
        lemma_felts_le_at(c.drop_last(), k);
        assert(felts_le(c).subrange(8 * k, 8 * k + 8) =~= felts_le(c.drop_last()).subrange(8 * k, 8 * k + 8));
    } else {
        assert(felts_le(c).subrange(8 * k, 8 * k + 8) =~= felt_le(c[k]));
    }
}

/// The binary form of `i` begins at `p` exactly when its operation code is there and its valid
/// immediates follow.
pub proof fn lemma_encoded_parts(s: Seq<u8>, p: int, i: Instruction)
    ensures
        encoded_at(s, p, i) <==> (instruction_opcode(i) matches Some(op) && 0 <= p < s.len()
            && s[p] == opcode_tag(op) && immediate_at(s, p + 1, instruction_immediate(i))),
{
    if let Some(op) = instruction_opcode(i) {
        let ib = immediate_bytes(instruction_immediate(i));
        let b = seq![opcode_tag(op)] + ib;
        if encoded_at(s, p, i) {
            lemma_sub(s, p, b, 0, 1);
            lemma_sub(s, p, b, 1, b.len() as int);
            assert(b.subrange(1, b.len() as int) =~= ib);
            assert(s.subrange(p, p + 1)[0] == s[p]);
        }
        if 0 <= p < s.len() && s[p] == opcode_tag(op) && immediate_at(s, p + 1, instruction_immediate(i)) {
            assert(s.subrange(p, p + b.len()) =~= b) by {
                assert forall|k: int| 0 <= k < b.len() implies s.subrange(p, p + b.len())[k] == b[k] by {
                    if k > 0 {
                        assert(s.subrange(p + 1, p + 1 + ib.len())[k - 1] == ib[k - 1]);
                    }
                }
            }
        }
    }
}

/// No instruction's binary form begins at `p` when the operation code there takes no immediates
/// that are read back here, or when the bytes after it do not begin with valid immediates of the
/// kind that it takes.
pub proof fn lemma_no_encoding(s: Seq<u8>, p: int, op: OpCode)
    requires
        0 <= p < s.len(),
        s[p] == opcode_tag(op),
        match opcode_kind(op) {
            Some(k) => !immediate_kind_at(s, p + 1, k),
            None => true,
        },
    ensures
        forall|i: Instruction| !#[trigger] encoded_at(s, p, i),
{
    assert forall|i: Instruction| !#[trigger] encoded_at(s, p, i) by {
        if encoded_at(s, p, i) {
            lemma_encoded_parts(s, p, i);
            let op2 = instruction_opcode(i)->0;
            lemma_opcode_roundtrip(op2, s[p]);
            lemma_opcode_roundtrip(op, s[p]);
            lemma_instruction_kind(i);
            let imm = instruction_immediate(i);
            assert(immediate_kind(imm) == opcode_kind(op)->0 && immediate_at(s, p + 1, imm));
        }
    }
}

// ----- reading immediates ------------------------------------------------------------------------

/// Reads one byte.
fn read_imm_u8(source: &mut SliceReader) -> (r: Result<u8, DeserializationError>)
    requires
        old(source).wf(),
    ensures
        final(source).wf(),
        final(source).spec_source() == old(source).spec_source(),
        r matches Ok(x) ==> immediate_at(old(source).spec_source(), old(source).spec_pos() as int, Immediate::U8(x))
            && final(source).spec_pos() == old(source).spec_pos() + 1,
        r is Err ==> !immediate_kind_at(old(source).spec_source(), old(source).spec_pos() as int, ImmediateKind::U8),
{
    let ghost s = source.spec_source();
    let ghost p = source.spec_pos() as int;
    match source.read_u8() {
        Ok(x) => {
            proof {
                assert(s.subrange(p, p + 1) =~= seq![x]);
            }
            Ok(x)
        },
        Err(e) => {
            proof {
                assert forall|imm: Immediate| immediate_kind(imm) == ImmediateKind::U8 implies !#[trigger] immediate_at(s, p, imm) by {}
            }
            Err(e)
        },
    }
}

/// Reads a 16-bit value.
fn read_imm_u16(source: &mut SliceReader) -> (r: Result<u16, DeserializationError>)
    requires
        old(source).wf(),
    ensures
        final(source).wf(),
        final(source).spec_source() == old(source).spec_source(),
        r matches Ok(x) ==> immediate_at(old(source).spec_source(), old(source).spec_pos() as int, Immediate::U16(x))
            && final(source).spec_pos() == old(source).spec_pos() + 2,
        r is Err ==> !immediate_kind_at(old(source).spec_source(), old(source).spec_pos() as int, ImmediateKind::U16),
{
    let ghost s = source.spec_source();
    let ghost p = source.spec_pos() as int;
    let r = source.read_u16();
    proof {
        if r is Err {
            assert forall|imm: Immediate| immediate_kind(imm) == ImmediateKind::U16 implies !#[trigger] immediate_at(s, p, imm) by {}
        }
    }
    r
}

/// Reads a 32-bit value.
fn read_imm_u32(source: &mut SliceReader) -> (r: Result<u32, DeserializationError>)
    requires
        old(source).wf(),
    ensures
        final(source).wf(),
        final(source).spec_source() == old(source).spec_source(),
        r matches Ok(x) ==> immediate_at(old(source).spec_source(), old(source).spec_pos() as int, Immediate::U32(x))
            && final(source).spec_pos() == old(source).spec_pos() + 4,
        r is Err ==> !immediate_kind_at(old(source).spec_source(), old(source).spec_pos() as int, ImmediateKind::U32),
{
    let ghost s = source.spec_source();
    let ghost p = source.spec_pos() as int;
    let r = source.read_u32();
    proof {
        if r is Err {
            assert forall|imm: Immediate| immediate_kind(imm) == ImmediateKind::U32 implies !#[trigger] immediate_at(s, p, imm) by {}
        }
    }
    r
}

/// Reads a field element.
fn read_imm_felt(source: &mut SliceReader) -> (r: Result<Felt, DeserializationError>)
    requires
        old(source).wf(),
    ensures
        final(source).wf(),
        final(source).spec_source() == old(source).spec_source(),
        r matches Ok(x) ==> immediate_at(old(source).spec_source(), old(source).spec_pos() as int, Immediate::Felt(x))
            && final(source).spec_pos() == old(source).spec_pos() + 8,
        r is Err ==> !immediate_kind_at(old(source).spec_source(), old(source).spec_pos() as int, ImmediateKind::Felt),
{
    let ghost s = source.spec_source();
    let ghost p = source.spec_pos() as int;
    let r = read_felt(source);
    proof {
        if r is Err {
            assert forall|imm: Immediate| immediate_kind(imm) == ImmediateKind::Felt implies !#[trigger] immediate_at(s, p, imm) by {
                if immediate_at(s, p, imm) {
                    let f = imm->Felt_0;
                    assert(u64_le(f.value) == s.subrange(p, p + 8));
                }
            }
        }
    }
    r
}

/// The four elements of a word that `s` holds from `p` on are field elements there.
proof fn lemma_word_at(s: Seq<u8>, p: int, imm: Immediate)
    requires
        imm is Word,
        immediate_at(s, p, imm),
    ensures
        p + 32 <= s.len(),
        felt_at(s, p),
        felt_at(s, p + 8),
        felt_at(s, p + 16),
        felt_at(s, p + 24),
{
    let b = immediate_bytes(imm);
    let (a0, a1, a2, a3) = (imm->Word_0, imm->Word_1, imm->Word_2, imm->Word_3);
    lemma_sub(s, p, b, 0, 8);
    lemma_sub(s, p, b, 8, 16);
    lemma_sub(s, p, b, 16, 24);
    lemma_sub(s, p, b, 24, 32);
    assert(b.subrange(0, 8) =~= u64_le(a0.value));
    assert(b.subrange(8, 16) =~= u64_le(a1.value));
    assert(b.subrange(16, 24) =~= u64_le(a2.value));
    assert(b.subrange(24, 32) =~= u64_le(a3.value));
}

/// Reads a word of four field elements.
fn read_imm_word(source: &mut SliceReader) -> (r: Result<[Felt; 4], DeserializationError>)
    requires
        old(source).wf(),
    ensures
        final(source).wf(),
        final(source).spec_source() == old(source).spec_source(),
        r matches Ok(w) ==> immediate_at(old(source).spec_source(), old(source).spec_pos() as int, Immediate::Word(w[0], w[1], w[2], w[3]))
            && final(source).spec_pos() == old(source).spec_pos() + 32,
        r is Err ==> !immediate_kind_at(old(source).spec_source(), old(source).spec_pos() as int, ImmediateKind::Word),
{
    let ghost s = source.spec_source();
    let ghost p = source.spec_pos() as int;
    proof {
        assert forall|imm: Immediate| immediate_kind(imm) == ImmediateKind::Word && #[trigger] immediate_at(s, p, imm) implies
            p + 32 <= s.len() && felt_at(s, p) && felt_at(s, p + 8) && felt_at(s, p + 16) && felt_at(s, p + 24) by {
            lemma_word_at(s, p, imm);
        }
    }
    let a = read_felt(source)?;
    let b = read_felt(source)?;
    let c = read_felt(source)?;
    let d = read_felt(source)?;
    let w = [a, b, c, d];
    proof {
        assert(w[0] == a && w[1] == b && w[2] == c && w[3] == d);
        assert(immediate_bytes(Immediate::Word(a, b, c, d)) =~= s.subrange(p, p + 32));
    }
    Ok(w)
}

/// A list that `s` holds from `p` on begins with its count, which is between 1 and 16, and its
/// values take `size` bytes each.
proof fn lemma_list_at(s: Seq<u8>, p: int, imm: Immediate, n: int, size: int, values: Seq<u8>)
    requires
        immediate_at(s, p, imm),
        imm is U8s || imm is U16s || imm is U32s || imm is Felts,
        immediate_bytes(imm) == seq![n as u8] + values,
        1 <= n <= MAX_PUSH_INPUTS,
        values.len() == size * n,
    ensures
        p < s.len(),
        s[p] == n,
        p + 1 + size * n <= s.len(),
        s.subrange(p + 1, p + 1 + size * n) == values,
{
    let b = immediate_bytes(imm);
    lemma_sub(s, p, b, 0, 1);
    lemma_sub(s, p, b, 1, b.len() as int);
    assert(b.subrange(1, b.len() as int) =~= values);
    assert(s.subrange(p, p + 1)[0] == s[p]);
}

/// Reads a list of bytes: its count, then the bytes.
fn read_imm_u8s(source: &mut SliceReader) -> (r: Result<Vec<u8>, DeserializationError>)
    requires
        old(source).wf(),
    ensures
        final(source).wf(),
        final(source).spec_source() == old(source).spec_source(),
        r matches Ok(v) ==> immediate_at(old(source).spec_source(), old(source).spec_pos() as int, Immediate::U8s(v@))
            && final(source).spec_pos() == old(source).spec_pos() + immediate_bytes(Immediate::U8s(v@)).len(),
        r is Err ==> !immediate_kind_at(old(source).spec_source(), old(source).spec_pos() as int, ImmediateKind::U8s),
{
    let ghost s = source.spec_source();
    let ghost p = source.spec_pos() as int;
    proof {
        assert forall|imm: Immediate| immediate_kind(imm) == ImmediateKind::U8s && #[trigger] immediate_at(s, p, imm) implies
            p < s.len() && s[p] == imm->U8s_0.len() && 1 <= s[p] <= MAX_PUSH_INPUTS
            && p + 1 + imm->U8s_0.len() <= s.len() && s.subrange(p + 1, p + 1 + imm->U8s_0.len()) == imm->U8s_0 by {
            let x = imm->U8s_0;
            assert(x =~= x.subrange(0, x.len() as int));
            lemma_list_at(s, p, imm, x.len() as int, 1, x);
        }
    }
    let n = parse_num_push_params(source)?;
    let v = read_u8s(source, n)?;
    proof {
        assert(immediate_bytes(Immediate::U8s(v@)) =~= s.subrange(p, p + 1 + n));
    }
    Ok(v)
}

/// Reads a list of 16-bit values: its count, then the values.
fn read_imm_u16s(source: &mut SliceReader) -> (r: Result<Vec<u16>, DeserializationError>)
    requires
        old(source).wf(),
    ensures
        final(source).wf(),
        final(source).spec_source() == old(source).spec_source(),
        r matches Ok(v) ==> immediate_at(old(source).spec_source(), old(source).spec_pos() as int, Immediate::U16s(v@))
            && final(source).spec_pos() == old(source).spec_pos() + immediate_bytes(Immediate::U16s(v@)).len(),
        r is Err ==> !immediate_kind_at(old(source).spec_source(), old(source).spec_pos() as int, ImmediateKind::U16s),
{
    let ghost s = source.spec_source();
    let ghost p = source.spec_pos() as int;
    proof {
        assert forall|imm: Immediate| immediate_kind(imm) == ImmediateKind::U16s && #[trigger] immediate_at(s, p, imm) implies
            p < s.len() && s[p] == imm->U16s_0.len() && 1 <= s[p] <= MAX_PUSH_INPUTS
            && p + 1 + 2 * imm->U16s_0.len() <= s.len() by {
            let x = imm->U16s_0;
            lemma_list_lens(x, Seq::empty(), Seq::empty());
            lemma_list_at(s, p, imm, x.len() as int, 2, u16s_le(x));
        }
    }
    let n = parse_num_push_params(source)?;
    let v = read_u16s(source, n)?;
    proof {
        lemma_list_lens(v@, Seq::empty(), Seq::empty());
        assert(immediate_bytes(Immediate::U16s(v@)) =~= s.subrange(p, p + 1 + 2 * n));
    }
    Ok(v)
}

/// Reads a list of 32-bit values: its count, then the values.
fn read_imm_u32s(source: &mut SliceReader) -> (r: Result<Vec<u32>, DeserializationError>)
    requires
        old(source).wf(),
    ensures
        final(source).wf(),
        final(source).spec_source() == old(source).spec_source(),
        r matches Ok(v) ==> immediate_at(old(source).spec_source(), old(source).spec_pos() as int, Immediate::U32s(v@))
            && final(source).spec_pos() == old(source).spec_pos() + immediate_bytes(Immediate::U32s(v@)).len(),
        r is Err ==> !immediate_kind_at(old(source).spec_source(), old(source).spec_pos() as int, ImmediateKind::U32s),
{
    let ghost s = source.spec_source();
    let ghost p = source.spec_pos() as int;
    proof {
        assert forall|imm: Immediate| immediate_kind(imm) == ImmediateKind::U32s && #[trigger] immediate_at(s, p, imm) implies
            p < s.len() && s[p] == imm->U32s_0.len() && 1 <= s[p] <= MAX_PUSH_INPUTS
            && p + 1 + 4 * imm->U32s_0.len() <= s.len() by {
            let x = imm->U32s_0;
            lemma_list_lens(Seq::empty(), x, Seq::empty());
            lemma_list_at(s, p, imm, x.len() as int, 4, u32s_le(x));
        }
    }
    let n = parse_num_push_params(source)?;
    let v = read_u32s(source, n)?;
    proof {
        lemma_list_lens(Seq::empty(), v@, Seq::empty());
        assert(immediate_bytes(Immediate::U32s(v@)) =~= s.subrange(p, p + 1 + 4 * n));
    }
    Ok(v)
}

/// Reads a list of field elements: its count, then the elements.
fn read_imm_felts(source: &mut SliceReader) -> (r: Result<Vec<Felt>, DeserializationError>)
    requires
        old(source).wf(),
    ensures
        final(source).wf(),
        final(source).spec_source() == old(source).spec_source(),
        r matches Ok(v) ==> immediate_at(old(source).spec_source(), old(source).spec_pos() as int, Immediate::Felts(v@))
            && final(source).spec_pos() == old(source).spec_pos() + immediate_bytes(Immediate::Felts(v@)).len(),
        r is Err ==> !immediate_kind_at(old(source).spec_source(), old(source).spec_pos() as int, ImmediateKind::Felts),
{
    let ghost s = source.spec_source();
    let ghost p = source.spec_pos() as int;
    proof {
        assert forall|imm: Immediate| immediate_kind(imm) == ImmediateKind::Felts && #[trigger] immediate_at(s, p, imm) implies
            p < s.len() && s[p] == imm->Felts_0.len() && 1 <= s[p] <= MAX_PUSH_INPUTS
            && p + 1 + 8 * imm->Felts_0.len() <= s.len() && felts_at(s, p + 1, imm->Felts_0.len() as int) by {
            let x = imm->Felts_0;
            lemma_list_lens(Seq::empty(), Seq::empty(), x);
            lemma_list_at(s, p, imm, x.len() as int, 8, felts_le(x));
            assert forall|k: int| 0 <= k < x.len() implies #[trigger] felt_at(s, p + 1 + 8 * k) by {
                lemma_felts_le_at(x, k);
                lemma_sub(s, p + 1, felts_le(x), 8 * k, 8 * k + 8);
                assert(u64_le(x[k].value) == s.subrange(p + 1 + 8 * k, p + 1 + 8 * k + 8));
            }
        }
    }
    let n = parse_num_push_params(source)?;
    let v = read_felts(source, n)?;
    proof {
        lemma_list_lens(Seq::empty(), Seq::empty(), v@);
        assert(immediate_bytes(Immediate::Felts(v@)) =~= s.subrange(p, p + 1 + 8 * n));
    }
    Ok(v)
}

/// Reads a MAST root.
fn read_imm_root(source: &mut SliceReader) -> (r: Result<RpoDigest, DeserializationError>)
    requires
        old(source).wf(),
    ensures
        final(source).wf(),
        final(source).spec_source() == old(source).spec_source(),
        r matches Ok(d) ==> immediate_at(old(source).spec_source(), old(source).spec_pos() as int, Immediate::Root(d))
            && final(source).spec_pos() == old(source).spec_pos() + 32,
        r is Err ==> !immediate_kind_at(old(source).spec_source(), old(source).spec_pos() as int, ImmediateKind::Root),
{
    let ghost s = source.spec_source();
    let ghost p = source.spec_pos() as int;
    let r = read_digest(source);
    proof {
        if r is Err {
            assert forall|imm: Immediate| immediate_kind(imm) == ImmediateKind::Root implies !#[trigger] immediate_at(s, p, imm) by {
                if immediate_at(s, p, imm) {
                    let d = imm->Root_0;
                    let b = digest_le(d);
                    lemma_sub(s, p, b, 0, 8);
                    lemma_sub(s, p, b, 8, 16);
                    lemma_sub(s, p, b, 16, 24);
                    lemma_sub(s, p, b, 24, 32);
                    assert(b.subrange(0, 8) =~= u64_le(d.e0));
                    assert(b.subrange(8, 16) =~= u64_le(d.e1));
                    assert(b.subrange(16, 24) =~= u64_le(d.e2));
                    assert(b.subrange(24, 32) =~= u64_le(d.e3));
                    assert(felt_at(s, p) && felt_at(s, p + 8) && felt_at(s, p + 16) && felt_at(s, p + 24));
                }
            }
        }
    }
    r
}

// ----- writing immediates ------------------------------------------------------------------------

/// Appends one byte.
fn write_imm_u8(target: &mut Vec<u8>, x: u8)
    ensures
        final(target)@ == old(target)@ + immediate_bytes(Immediate::U8(x)),
{
    target.push(x);
    proof {
        assert(target@ =~= old(target)@ + immediate_bytes(Immediate::U8(x)));
    }
}

/// Appends a 16-bit value.
fn write_imm_u16(target: &mut Vec<u8>, x: u16)
    ensures
        final(target)@ == old(target)@ + immediate_bytes(Immediate::U16(x)),
{
    write_u16(target, x);
}

/// Appends a 32-bit value.
fn write_imm_u32(target: &mut Vec<u8>, x: u32)
    ensures
        final(target)@ == old(target)@ + immediate_bytes(Immediate::U32(x)),
{
    write_u32(target, x);
}

/// Appends a field element.
fn write_imm_felt(target: &mut Vec<u8>, x: Felt)
    ensures
        final(target)@ == old(target)@ + immediate_bytes(Immediate::Felt(x)),
{
    write_u64(target, x.value);
}

/// Appends a word of four field elements.
fn write_imm_word(target: &mut Vec<u8>, w: &[Felt; 4])
    ensures
        final(target)@ == old(target)@ + immediate_bytes(Immediate::Word(w[0], w[1], w[2], w[3])),
{
    write_u64(target, w[0].value);
    write_u64(target, w[1].value);
    write_u64(target, w[2].value);
    write_u64(target, w[3].value);
    proof {
        assert(target@ =~= old(target)@ + immediate_bytes(Immediate::Word(w[0], w[1], w[2], w[3])));
    }
}

/// Appends a MAST root.
fn write_imm_root(target: &mut Vec<u8>, d: RpoDigest)
    ensures
        final(target)@ == old(target)@ + immediate_bytes(Immediate::Root(d)),
{
    write_u64(target, d.e0);
    write_u64(target, d.e1);
    write_u64(target, d.e2);
    write_u64(target, d.e3);
    proof {
        assert(target@ =~= old(target)@ + immediate_bytes(Immediate::Root(d)));
    }
}

/// Appends a list of bytes: its count, then the bytes.
fn write_imm_u8s(target: &mut Vec<u8>, x: &Vec<u8>)
    ensures
        final(target)@ == old(target)@ + immediate_bytes(Immediate::U8s(x@)),
{
    target.push(x.len() as u8);
    let ghost start = target@;
    let mut k: usize = 0;
    while k < x.len()
        invariant
            k <= x@.len(),
            start == old(target)@.push(x@.len() as u8),
            target@ == start + x@.subrange(0, k as int),
        decreases x@.len() - k,
    {
        target.push(x[k]);
        proof {
            assert(target@ =~= start + x@.subrange(0, k + 1));
        }
        k = k + 1;
    }
    proof {
        assert(x@.subrange(0, x@.len() as int) =~= x@);
        assert(target@ =~= old(target)@ + immediate_bytes(Immediate::U8s(x@)));
    }
}

/// Appends a list of 16-bit values: its count, then the values.
fn write_imm_u16s(target: &mut Vec<u8>, x: &Vec<u16>)
    ensures
        final(target)@ == old(target)@ + immediate_bytes(Immediate::U16s(x@)),
{
    target.push(x.len() as u8);
    let ghost start = target@;
    let mut k: usize = 0;
    proof {
        assert(u16s_le(x@.subrange(0, 0)) =~= Seq::<u8>::empty());
        assert(target@ =~= start + u16s_le(x@.subrange(0, 0)));
    }
    while k < x.len()
        invariant
            k <= x@.len(),
            start == old(target)@.push(x@.len() as u8),
            target@ == start + u16s_le(x@.subrange(0, k as int)),
        decreases x@.len() - k,
    {
        write_u16(target, x[k]);
        proof {
            assert(x@.subrange(0, k + 1).drop_last() =~= x@.subrange(0, k as int));
            assert(target@ =~= start + u16s_le(x@.subrange(0, k + 1)));
        }
        k = k + 1;
    }
    proof {
        assert(x@.subrange(0, x@.len() as int) =~= x@);
        assert(target@ =~= old(target)@ + immediate_bytes(Immediate::U16s(x@)));
    }
}

/// Appends a list of 32-bit values: its count, then the values.
fn write_imm_u32s(target: &mut Vec<u8>, x: &Vec<u32>)
    ensures
        final(target)@ == old(target)@ + immediate_bytes(Immediate::U32s(x@)),
{
    target.push(x.len() as u8);
    let ghost start = target@;
    let mut k: usize = 0;
    proof {
        assert(u32s_le(x@.subrange(0, 0)) =~= Seq::<u8>::empty());
        assert(target@ =~= start + u32s_le(x@.subrange(0, 0)));
    }
    while k < x.len()
        invariant
            k <= x@.len(),
            start == old(target)@.push(x@.len() as u8),
            target@ == start + u32s_le(x@.subrange(0, k as int)),
        decreases x@.len() - k,
    {
        write_u32(target, x[k]);
        proof {
            assert(x@.subrange(0, k + 1).drop_last() =~= x@.subrange(0, k as int));
            assert(target@ =~= start + u32s_le(x@.subrange(0, k + 1)));
        }
        k = k + 1;
    }
    proof {
        assert(x@.subrange(0, x@.len() as int) =~= x@);
        assert(target@ =~= old(target)@ + immediate_bytes(Immediate::U32s(x@)));
    }
}

/// Appends a list of field elements: its count, then the elements.
fn write_imm_felts(target: &mut Vec<u8>, x: &Vec<Felt>)
    ensures
        final(target)@ == old(target)@ + immediate_bytes(Immediate::Felts(x@)),
{
    target.push(x.len() as u8);
    let ghost start = target@;
    let mut k: usize = 0;
    proof {
        assert(felts_le(x@.subrange(0, 0)) =~= Seq::<u8>::empty());
        assert(target@ =~= start + felts_le(x@.subrange(0, 0)));
    }
    while k < x.len()
        invariant
            k <= x@.len(),
            start == old(target)@.push(x@.len() as u8),
            target@ == start + felts_le(x@.subrange(0, k as int)),
        decreases x@.len() - k,
    {
        write_u64(target, x[k].value);
        proof {
            assert(x@.subrange(0, k + 1).drop_last() =~= x@.subrange(0, k as int));
            assert(target@ =~= start + felts_le(x@.subrange(0, k + 1)));
        }
        k = k + 1;
    }
    proof {
        assert(x@.subrange(0, x@.len() as int) =~= x@);
        assert(target@ =~= old(target)@ + immediate_bytes(Immediate::Felts(x@)));
    }
}


/// The immediates of an instruction with a binary form are of the kind that its operation code
/// takes, and an instruction other than `push` is the one that its operation code reads back as.
pub proof fn lemma_instruction_kind(i: Instruction)
    requires
        instruction_opcode(i) is Some,
    ensures
        opcode_kind(instruction_opcode(i)->0) == Some(immediate_kind(instruction_immediate(i))),
{
    match i {
        Instruction::Nop => {},
        Instruction::Assert => {},
        Instruction::AssertWithError(_) => {},
        Instruction::AssertEq => {},
        Instruction::AssertEqWithError(_) => {},
        Instruction::AssertEqw => {},
        Instruction::AssertEqwWithError(_) => {},
        Instruction::Assertz => {},
        Instruction::AssertzWithError(_) => {},
        Instruction::Add => {},
        Instruction::AddImm(_) => {},
        Instruction::Sub => {},
        Instruction::SubImm(_) => {},
        Instruction::Mul => {},
        Instruction::MulImm(_) => {},
        Instruction::Div => {},
        Instruction::DivImm(_) => {},
        Instruction::Neg => {},
        Instruction::ILog2 => {},
        Instruction::Inv => {},
        Instruction::Incr => {},
        Instruction::Pow2 => {},
        Instruction::Exp => {},
        Instruction::ExpImm(_) => {},
        Instruction::ExpBitLength(_) => {},
        Instruction::Not => {},
        Instruction::And => {},
        Instruction::Or => {},
        Instruction::Xor => {},
        Instruction::Eq => {},
        Instruction::EqImm(_) => {},
        Instruction::Neq => {},
        Instruction::NeqImm(_) => {},
        Instruction::Eqw => {},
        Instruction::Lt => {},
        Instruction::Lte => {},
        Instruction::Gt => {},
        Instruction::Gte => {},
        Instruction::IsOdd => {},
        Instruction::Ext2Add => {},
        Instruction::Ext2Sub => {},
        Instruction::Ext2Mul => {},
        Instruction::Ext2Div => {},
        Instruction::Ext2Neg => {},
        Instruction::Ext2Inv => {},
        Instruction::U32Test => {},
        Instruction::U32TestW => {},
        Instruction::U32Assert => {},
        Instruction::U32AssertWithError(_) => {},
        Instruction::U32Assert2 => {},
        Instruction::U32Assert2WithError(_) => {},
        Instruction::U32AssertW => {},
        Instruction::U32AssertWWithError(_) => {},
        Instruction::U32Split => {},
        Instruction::U32Cast => {},
        Instruction::U32WrappingAdd => {},
        Instruction::U32WrappingAddImm(_) => {},
        Instruction::U32OverflowingAdd => {},
        Instruction::U32OverflowingAddImm(_) => {},
        Instruction::U32OverflowingAdd3 => {},
        Instruction::U32WrappingAdd3 => {},
        Instruction::U32WrappingSub => {},
        Instruction::U32WrappingSubImm(_) => {},
        Instruction::U32OverflowingSub => {},
        Instruction::U32OverflowingSubImm(_) => {},
        Instruction::U32WrappingMul => {},
        Instruction::U32WrappingMulImm(_) => {},
        Instruction::U32OverflowingMul => {},
        Instruction::U32OverflowingMulImm(_) => {},
        Instruction::U32OverflowingMadd => {},
        Instruction::U32WrappingMadd => {},
        Instruction::U32Div => {},
        Instruction::U32DivImm(_) => {},
        Instruction::U32Mod => {},
        Instruction::U32ModImm(_) => {},
        Instruction::U32DivMod => {},
        Instruction::U32DivModImm(_) => {},
        Instruction::U32And => {},
        Instruction::U32Or => {},
        Instruction::U32Xor => {},
        Instruction::U32Not => {},
        Instruction::U32Shr => {},
        Instruction::U32ShrImm(_) => {},
        Instruction::U32Shl => {},
        Instruction::U32ShlImm(_) => {},
        Instruction::U32Rotr => {},
        Instruction::U32RotrImm(_) => {},
        Instruction::U32Rotl => {},
        Instruction::U32RotlImm(_) => {},
        Instruction::U32Popcnt => {},
        Instruction::U32Ctz => {},
        Instruction::U32Clz => {},
        Instruction::U32Clo => {},
        Instruction::U32Cto => {},
        Instruction::U32Lt => {},
        Instruction::U32Lte => {},
        Instruction::U32Gt => {},
        Instruction::U32Gte => {},
        Instruction::U32Min => {},
        Instruction::U32Max => {},
        Instruction::Drop => {},
        Instruction::DropW => {},
        Instruction::PadW => {},
        Instruction::Dup0 => {},
        Instruction::Dup1 => {},
        Instruction::Dup2 => {},
        Instruction::Dup3 => {},
        Instruction::Dup4 => {},
        Instruction::Dup5 => {},
        Instruction::Dup6 => {},
        Instruction::Dup7 => {},
        Instruction::Dup8 => {},
        Instruction::Dup9 => {},
        Instruction::Dup10 => {},
        Instruction::Dup11 => {},
        Instruction::Dup12 => {},
        Instruction::Dup13 => {},
        Instruction::Dup14 => {},
        Instruction::Dup15 => {},
        Instruction::DupW0 => {},
        Instruction::DupW1 => {},
        Instruction::DupW2 => {},
        Instruction::DupW3 => {},
        Instruction::Swap1 => {},
        Instruction::Swap2 => {},
        Instruction::Swap3 => {},
        Instruction::Swap4 => {},
        Instruction::Swap5 => {},
        Instruction::Swap6 => {},
        Instruction::Swap7 => {},
        Instruction::Swap8 => {},
        Instruction::Swap9 => {},
        Instruction::Swap10 => {},
        Instruction::Swap11 => {},
        Instruction::Swap12 => {},
        Instruction::Swap13 => {},
        Instruction::Swap14 => {},
        Instruction::Swap15 => {},
        Instruction::SwapW1 => {},
        Instruction::SwapW2 => {},
        Instruction::SwapW3 => {},
        Instruction::SwapDw => {},
        Instruction::MovUp2 => {},
        Instruction::MovUp3 => {},
        Instruction::MovUp4 => {},
        Instruction::MovUp5 => {},
        Instruction::MovUp6 => {},
        Instruction::MovUp7 => {},
        Instruction::MovUp8 => {},
        Instruction::MovUp9 => {},
        Instruction::MovUp10 => {},
        Instruction::MovUp11 => {},
        Instruction::MovUp12 => {},
        Instruction::MovUp13 => {},
        Instruction::MovUp14 => {},
        Instruction::MovUp15 => {},
        Instruction::MovUpW2 => {},
        Instruction::MovUpW3 => {},
        Instruction::MovDn2 => {},
        Instruction::MovDn3 => {},
        Instruction::MovDn4 => {},
        Instruction::MovDn5 => {},
        Instruction::MovDn6 => {},
        Instruction::MovDn7 => {},
        Instruction::MovDn8 => {},
        Instruction::MovDn9 => {},
        Instruction::MovDn10 => {},
        Instruction::MovDn11 => {},
        Instruction::MovDn12 => {},
        Instruction::MovDn13 => {},
        Instruction::MovDn14 => {},
        Instruction::MovDn15 => {},
        Instruction::MovDnW2 => {},
        Instruction::MovDnW3 => {},
        Instruction::CSwap => {},
        Instruction::CSwapW => {},
        Instruction::CDrop => {},
        Instruction::CDropW => {},
        Instruction::Push(_) => {},
        Instruction::PushU8(_) => {},
        Instruction::PushU16(_) => {},
        Instruction::PushU32(_) => {},
        Instruction::PushFelt(_) => {},
        Instruction::PushWord(_) => {},
        Instruction::PushU8List(_) => {},
        Instruction::PushU16List(_) => {},
        Instruction::PushU32List(_) => {},
        Instruction::PushFeltList(_) => {},
        Instruction::Locaddr(_) => {},
        Instruction::Sdepth => {},
        Instruction::Caller => {},
        Instruction::Clk => {},
        Instruction::MemLoad => {},
        Instruction::MemLoadImm(_) => {},
        Instruction::MemLoadW => {},
        Instruction::MemLoadWImm(_) => {},
        Instruction::LocLoad(_) => {},
        Instruction::LocLoadW(_) => {},
        Instruction::MemStore => {},
        Instruction::MemStoreImm(_) => {},
        Instruction::LocStore(_) => {},
        Instruction::MemStoreW => {},
        Instruction::MemStoreWImm(_) => {},
        Instruction::LocStoreW(_) => {},
        Instruction::MemStream => {},
        Instruction::AdvPipe => {},
        Instruction::AdvPush(_) => {},
        Instruction::AdvLoadW => {},
        Instruction::AdvInject(_) => {},
        Instruction::Hash => {},
        Instruction::HMerge => {},
        Instruction::HPerm => {},
        Instruction::MTreeGet => {},
        Instruction::MTreeSet => {},
        Instruction::MTreeMerge => {},
        Instruction::MTreeVerify => {},
        Instruction::MTreeVerifyWithError(_) => {},
        Instruction::FriExt2Fold4 => {},
        Instruction::RCombBase => {},
        Instruction::Exec(_) => {},
        Instruction::Call(_) => {},
        Instruction::SysCall(_) => {},
        Instruction::DynExec => {},
        Instruction::DynCall => {},
        Instruction::ProcRef(_) => {},
        Instruction::Breakpoint => {},
        Instruction::Debug(_) => {},
        Instruction::Emit(_) => {},
        Instruction::Trace(_) => {},
    }
}

/// The operation code written for `inst`, if it has a binary form.
pub fn opcode_for(inst: &Instruction) -> (r: Option<OpCode>)
    ensures
        r == instruction_opcode(*inst),
{
    match inst {
        Instruction::Nop => None,
        Instruction::Assert => Some(OpCode::Assert),
        Instruction::AssertWithError(_) => Some(OpCode::AssertWithError),
        Instruction::AssertEq => Some(OpCode::AssertEq),
        Instruction::AssertEqWithError(_) => Some(OpCode::AssertEqWithError),
        Instruction::AssertEqw => Some(OpCode::AssertEqw),
        Instruction::AssertEqwWithError(_) => Some(OpCode::AssertEqwWithError),
        Instruction::Assertz => Some(OpCode::Assertz),
        Instruction::AssertzWithError(_) => Some(OpCode::AssertzWithError),
        Instruction::Add => Some(OpCode::Add),
        Instruction::AddImm(_) => Some(OpCode::AddImm),
        Instruction::Sub => Some(OpCode::Sub),
        Instruction::SubImm(_) => Some(OpCode::SubImm),
        Instruction::Mul => Some(OpCode::Mul),
        Instruction::MulImm(_) => Some(OpCode::MulImm),
        Instruction::Div => Some(OpCode::Div),
        Instruction::DivImm(_) => Some(OpCode::DivImm),
        Instruction::Neg => Some(OpCode::Neg),
        Instruction::ILog2 => Some(OpCode::ILog2),
        Instruction::Inv => Some(OpCode::Inv),
        Instruction::Incr => Some(OpCode::Incr),
        Instruction::Pow2 => Some(OpCode::Pow2),
        Instruction::Exp => Some(OpCode::Exp),
        Instruction::ExpImm(_) => Some(OpCode::ExpImm),
        Instruction::ExpBitLength(_) => Some(OpCode::ExpBitLength),
        Instruction::Not => Some(OpCode::Not),
        Instruction::And => Some(OpCode::And),
        Instruction::Or => Some(OpCode::Or),
        Instruction::Xor => Some(OpCode::Xor),
        Instruction::Eq => Some(OpCode::Eq),
        Instruction::EqImm(_) => Some(OpCode::EqImm),
        Instruction::Neq => Some(OpCode::Neq),
        Instruction::NeqImm(_) => Some(OpCode::NeqImm),
        Instruction::Eqw => Some(OpCode::Eqw),
        Instruction::Lt => Some(OpCode::Lt),
        Instruction::Lte => Some(OpCode::Lte),
        Instruction::Gt => Some(OpCode::Gt),
        Instruction::Gte => Some(OpCode::Gte),
        Instruction::IsOdd => Some(OpCode::IsOdd),
        Instruction::Ext2Add => Some(OpCode::Ext2Add),
        Instruction::Ext2Sub => Some(OpCode::Ext2Sub),
        Instruction::Ext2Mul => Some(OpCode::Ext2Mul),
        Instruction::Ext2Div => Some(OpCode::Ext2Div),
        Instruction::Ext2Neg => Some(OpCode::Ext2Neg),
        Instruction::Ext2Inv => Some(OpCode::Ext2Inv),
        Instruction::U32Test => Some(OpCode::U32Test),
        Instruction::U32TestW => Some(OpCode::U32TestW),
        Instruction::U32Assert => Some(OpCode::U32Assert),
        Instruction::U32AssertWithError(_) => Some(OpCode::U32AssertWithError),
        Instruction::U32Assert2 => Some(OpCode::U32Assert2),
        Instruction::U32Assert2WithError(_) => Some(OpCode::U32Assert2WithError),
        Instruction::U32AssertW => Some(OpCode::U32AssertW),
        Instruction::U32AssertWWithError(_) => Some(OpCode::U32AssertWWithError),
        Instruction::U32Split => Some(OpCode::U32Split),
        Instruction::U32Cast => Some(OpCode::U32Cast),
        Instruction::U32WrappingAdd => Some(OpCode::U32WrappingAdd),
        Instruction::U32WrappingAddImm(_) => Some(OpCode::U32WrappingAddImm),
        Instruction::U32OverflowingAdd => Some(OpCode::U32OverflowingAdd),
        Instruction::U32OverflowingAddImm(_) => Some(OpCode::U32OverflowingAddImm),
        Instruction::U32OverflowingAdd3 => Some(OpCode::U32OverflowingAdd3),
        Instruction::U32WrappingAdd3 => Some(OpCode::U32WrappingAdd3),
        Instruction::U32WrappingSub => Some(OpCode::U32WrappingSub),
        Instruction::U32WrappingSubImm(_) => Some(OpCode::U32WrappingSubImm),
        Instruction::U32OverflowingSub => Some(OpCode::U32OverflowingSub),
        Instruction::U32OverflowingSubImm(_) => Some(OpCode::U32OverflowingSubImm),
        Instruction::U32WrappingMul => Some(OpCode::U32WrappingMul),
        Instruction::U32WrappingMulImm(_) => Some(OpCode::U32WrappingMulImm),
        Instruction::U32OverflowingMul => Some(OpCode::U32OverflowingMul),
        Instruction::U32OverflowingMulImm(_) => Some(OpCode::U32OverflowingMulImm),
        Instruction::U32OverflowingMadd => Some(OpCode::U32OverflowingMadd),
        Instruction::U32WrappingMadd => Some(OpCode::U32WrappingMadd),
        Instruction::U32Div => Some(OpCode::U32Div),
        Instruction::U32DivImm(_) => Some(OpCode::U32DivImm),
        Instruction::U32Mod => Some(OpCode::U32Mod),
        Instruction::U32ModImm(_) => Some(OpCode::U32ModImm),
        Instruction::U32DivMod => Some(OpCode::U32DivMod),
        Instruction::U32DivModImm(_) => Some(OpCode::U32DivModImm),
        Instruction::U32And => Some(OpCode::U32And),
        Instruction::U32Or => Some(OpCode::U32Or),
        Instruction::U32Xor => Some(OpCode::U32Xor),
        Instruction::U32Not => Some(OpCode::U32Not),
        Instruction::U32Shr => Some(OpCode::U32Shr),
        Instruction::U32ShrImm(_) => Some(OpCode::U32ShrImm),
        Instruction::U32Shl => Some(OpCode::U32Shl),
        Instruction::U32ShlImm(_) => Some(OpCode::U32ShlImm),
        Instruction::U32Rotr => Some(OpCode::U32Rotr),
        Instruction::U32RotrImm(_) => Some(OpCode::U32RotrImm),
        Instruction::U32Rotl => Some(OpCode::U32Rotl),
        Instruction::U32RotlImm(_) => Some(OpCode::U32RotlImm),
        Instruction::U32Popcnt => Some(OpCode::U32Popcnt),
        Instruction::U32Ctz => Some(OpCode::U32Ctz),
        Instruction::U32Clz => Some(OpCode::U32Clz),
        Instruction::U32Clo => Some(OpCode::U32Clo),
        Instruction::U32Cto => Some(OpCode::U32Cto),
        Instruction::U32Lt => Some(OpCode::U32Lt),
        Instruction::U32Lte => Some(OpCode::U32Lte),
        Instruction::U32Gt => Some(OpCode::U32Gt),
        Instruction::U32Gte => Some(OpCode::U32Gte),
        Instruction::U32Min => Some(OpCode::U32Min),
        Instruction::U32Max => Some(OpCode::U32Max),
        Instruction::Drop => Some(OpCode::Drop),
        Instruction::DropW => Some(OpCode::DropW),
        Instruction::PadW => Some(OpCode::PadW),
        Instruction::Dup0 => Some(OpCode::Dup0),
        Instruction::Dup1 => Some(OpCode::Dup1),
        Instruction::Dup2 => Some(OpCode::Dup2),
        Instruction::Dup3 => Some(OpCode::Dup3),
        Instruction::Dup4 => Some(OpCode::Dup4),
        Instruction::Dup5 => Some(OpCode::Dup5),
        Instruction::Dup6 => Some(OpCode::Dup6),
        Instruction::Dup7 => Some(OpCode::Dup7),
        Instruction::Dup8 => Some(OpCode::Dup8),
        Instruction::Dup9 => Some(OpCode::Dup9),
        Instruction::Dup10 => Some(OpCode::Dup10),
        Instruction::Dup11 => Some(OpCode::Dup11),
        Instruction::Dup12 => Some(OpCode::Dup12),
        Instruction::Dup13 => Some(OpCode::Dup13),
        Instruction::Dup14 => Some(OpCode::Dup14),
        Instruction::Dup15 => Some(OpCode::Dup15),
        Instruction::DupW0 => Some(OpCode::DupW0),
        Instruction::DupW1 => Some(OpCode::DupW1),
        Instruction::DupW2 => Some(OpCode::DupW2),
        Instruction::DupW3 => Some(OpCode::DupW3),
        Instruction::Swap1 => Some(OpCode::Swap1),
        Instruction::Swap2 => Some(OpCode::Swap2),
        Instruction::Swap3 => Some(OpCode::Swap3),
        Instruction::Swap4 => Some(OpCode::Swap4),
        Instruction::Swap5 => Some(OpCode::Swap5),
        Instruction::Swap6 => Some(OpCode::Swap6),
        Instruction::Swap7 => Some(OpCode::Swap7),
        Instruction::Swap8 => Some(OpCode::Swap8),
        Instruction::Swap9 => Some(OpCode::Swap9),
        Instruction::Swap10 => Some(OpCode::Swap10),
        Instruction::Swap11 => Some(OpCode::Swap11),
        Instruction::Swap12 => Some(OpCode::Swap12),
        Instruction::Swap13 => Some(OpCode::Swap13),
        Instruction::Swap14 => Some(OpCode::Swap14),
        Instruction::Swap15 => Some(OpCode::Swap15),
        Instruction::SwapW1 => Some(OpCode::SwapW1),
        Instruction::SwapW2 => Some(OpCode::SwapW2),
        Instruction::SwapW3 => Some(OpCode::SwapW3),
        Instruction::SwapDw => Some(OpCode::SwapDW),
        Instruction::MovUp2 => Some(OpCode::MovUp2),
        Instruction::MovUp3 => Some(OpCode::MovUp3),
        Instruction::MovUp4 => Some(OpCode::MovUp4),
        Instruction::MovUp5 => Some(OpCode::MovUp5),
        Instruction::MovUp6 => Some(OpCode::MovUp6),
        Instruction::MovUp7 => Some(OpCode::MovUp7),
        Instruction::MovUp8 => Some(OpCode::MovUp8),
        Instruction::MovUp9 => Some(OpCode::MovUp9),
        Instruction::MovUp10 => Some(OpCode::MovUp10),
        Instruction::MovUp11 => Some(OpCode::MovUp11),
        Instruction::MovUp12 => Some(OpCode::MovUp12),
        Instruction::MovUp13 => Some(OpCode::MovUp13),
        Instruction::MovUp14 => Some(OpCode::MovUp14),
        Instruction::MovUp15 => Some(OpCode::MovUp15),
        Instruction::MovUpW2 => Some(OpCode::MovUpW2),
        Instruction::MovUpW3 => Some(OpCode::MovUpW3),
        Instruction::MovDn2 => Some(OpCode::MovDn2),
        Instruction::MovDn3 => Some(OpCode::MovDn3),
        Instruction::MovDn4 => Some(OpCode::MovDn4),
        Instruction::MovDn5 => Some(OpCode::MovDn5),
        Instruction::MovDn6 => Some(OpCode::MovDn6),
        Instruction::MovDn7 => Some(OpCode::MovDn7),
        Instruction::MovDn8 => Some(OpCode::MovDn8),
        Instruction::MovDn9 => Some(OpCode::MovDn9),
        Instruction::MovDn10 => Some(OpCode::MovDn10),
        Instruction::MovDn11 => Some(OpCode::MovDn11),
        Instruction::MovDn12 => Some(OpCode::MovDn12),
        Instruction::MovDn13 => Some(OpCode::MovDn13),
        Instruction::MovDn14 => Some(OpCode::MovDn14),
        Instruction::MovDn15 => Some(OpCode::MovDn15),
        Instruction::MovDnW2 => Some(OpCode::MovDnW2),
        Instruction::MovDnW3 => Some(OpCode::MovDnW3),
        Instruction::CSwap => Some(OpCode::CSwap),
        Instruction::CSwapW => Some(OpCode::CSwapW),
        Instruction::CDrop => Some(OpCode::CDrop),
        Instruction::CDropW => Some(OpCode::CDropW),
        Instruction::Push(_) => Some(OpCode::PushFelt),
        Instruction::PushU8(_) => Some(OpCode::PushU8),
        Instruction::PushU16(_) => Some(OpCode::PushU16),
        Instruction::PushU32(_) => Some(OpCode::PushU32),
        Instruction::PushFelt(_) => Some(OpCode::PushFelt),
        Instruction::PushWord(_) => Some(OpCode::PushWord),
        Instruction::PushU8List(_) => Some(OpCode::PushU8List),
        Instruction::PushU16List(_) => Some(OpCode::PushU16List),
        Instruction::PushU32List(_) => Some(OpCode::PushU32List),
        Instruction::PushFeltList(_) => Some(OpCode::PushFeltList),
        Instruction::Locaddr(_) => Some(OpCode::Locaddr),
        Instruction::Sdepth => Some(OpCode::Sdepth),
        Instruction::Caller => Some(OpCode::Caller),
        Instruction::Clk => Some(OpCode::Clk),
        Instruction::MemLoad => Some(OpCode::MemLoad),
        Instruction::MemLoadImm(_) => Some(OpCode::MemLoadImm),
        Instruction::MemLoadW => Some(OpCode::MemLoadW),
        Instruction::MemLoadWImm(_) => Some(OpCode::MemLoadWImm),
        Instruction::LocLoad(_) => Some(OpCode::LocLoad),
        Instruction::LocLoadW(_) => Some(OpCode::LocLoadW),
        Instruction::MemStore => Some(OpCode::MemStore),
        Instruction::MemStoreImm(_) => Some(OpCode::MemStoreImm),
        Instruction::LocStore(_) => Some(OpCode::LocStore),
        Instruction::MemStoreW => Some(OpCode::MemStoreW),
        Instruction::MemStoreWImm(_) => Some(OpCode::MemStoreWImm),
        Instruction::LocStoreW(_) => Some(OpCode::LocStoreW),
        Instruction::MemStream => Some(OpCode::MemStream),
        Instruction::AdvPipe => Some(OpCode::AdvPipe),
        Instruction::AdvPush(_) => Some(OpCode::AdvPush),
        Instruction::AdvLoadW => Some(OpCode::AdvLoadW),
        Instruction::AdvInject(_) => None,
        Instruction::Hash => Some(OpCode::Hash),
        Instruction::HMerge => Some(OpCode::HMerge),
        Instruction::HPerm => Some(OpCode::HPerm),
        Instruction::MTreeGet => Some(OpCode::MTreeGet),
        Instruction::MTreeSet => Some(OpCode::MTreeSet),
        Instruction::MTreeMerge => Some(OpCode::MTreeMerge),
        Instruction::MTreeVerify => Some(OpCode::MTreeVerify),
        Instruction::MTreeVerifyWithError(_) => None,
        Instruction::FriExt2Fold4 => Some(OpCode::FriExt2Fold4),
        Instruction::RCombBase => Some(OpCode::RCombBase),
        Instruction::Exec(_) => None,
        Instruction::Call(x) => match x {
            InvocationTarget::MastRoot(_) => Some(OpCode::CallMastRoot),
            _ => None,
        },
        Instruction::SysCall(_) => None,
        Instruction::DynExec => Some(OpCode::DynExec),
        Instruction::DynCall => Some(OpCode::DynCall),
        Instruction::ProcRef(_) => None,
        Instruction::Breakpoint => None,
        Instruction::Debug(_) => None,
        Instruction::Emit(_) => Some(OpCode::Emit),
        Instruction::Trace(_) => Some(OpCode::Trace),
    }
}

/// Appends the bytes of the immediates of `inst`.
fn write_immediates(inst: &Instruction, target: &mut Vec<u8>)
    ensures
        final(target)@ == old(target)@ + immediate_bytes(instruction_immediate(*inst)),
{
    match inst {
        Instruction::Nop => {},
        Instruction::Assert => {},
        Instruction::AssertWithError(x) => write_imm_u32(target, *x),
        Instruction::AssertEq => {},
        Instruction::AssertEqWithError(x) => write_imm_u32(target, *x),
        Instruction::AssertEqw => {},
        Instruction::AssertEqwWithError(x) => write_imm_u32(target, *x),
        Instruction::Assertz => {},
        Instruction::AssertzWithError(x) => write_imm_u32(target, *x),
        Instruction::Add => {},
        Instruction::AddImm(x) => write_imm_felt(target, *x),
        Instruction::Sub => {},
        Instruction::SubImm(x) => write_imm_felt(target, *x),
        Instruction::Mul => {},
        Instruction::MulImm(x) => write_imm_felt(target, *x),
        Instruction::Div => {},
        Instruction::DivImm(x) => write_imm_felt(target, *x),
        Instruction::Neg => {},
        Instruction::ILog2 => {},
        Instruction::Inv => {},
        Instruction::Incr => {},
        Instruction::Pow2 => {},
        Instruction::Exp => {},
        Instruction::ExpImm(x) => write_imm_felt(target, *x),
        Instruction::ExpBitLength(x) => write_imm_u8(target, *x),
        Instruction::Not => {},
        Instruction::And => {},
        Instruction::Or => {},
        Instruction::Xor => {},
        Instruction::Eq => {},
        Instruction::EqImm(x) => write_imm_felt(target, *x),
        Instruction::Neq => {},
        Instruction::NeqImm(x) => write_imm_felt(target, *x),
        Instruction::Eqw => {},
        Instruction::Lt => {},
        Instruction::Lte => {},
        Instruction::Gt => {},
        Instruction::Gte => {},
        Instruction::IsOdd => {},
        Instruction::Ext2Add => {},
        Instruction::Ext2Sub => {},
        Instruction::Ext2Mul => {},
        Instruction::Ext2Div => {},
        Instruction::Ext2Neg => {},
        Instruction::Ext2Inv => {},
        Instruction::U32Test => {},
        Instruction::U32TestW => {},
        Instruction::U32Assert => {},
        Instruction::U32AssertWithError(x) => write_imm_u32(target, *x),
        Instruction::U32Assert2 => {},
        Instruction::U32Assert2WithError(x) => write_imm_u32(target, *x),
        Instruction::U32AssertW => {},
        Instruction::U32AssertWWithError(x) => write_imm_u32(target, *x),
        Instruction::U32Split => {},
        Instruction::U32Cast => {},
        Instruction::U32WrappingAdd => {},
        Instruction::U32WrappingAddImm(x) => write_imm_u32(target, *x),
        Instruction::U32OverflowingAdd => {},
        Instruction::U32OverflowingAddImm(x) => write_imm_u32(target, *x),
        Instruction::U32OverflowingAdd3 => {},
        Instruction::U32WrappingAdd3 => {},
        Instruction::U32WrappingSub => {},
        Instruction::U32WrappingSubImm(x) => write_imm_u32(target, *x),
        Instruction::U32OverflowingSub => {},
        Instruction::U32OverflowingSubImm(x) => write_imm_u32(target, *x),
        Instruction::U32WrappingMul => {},
        Instruction::U32WrappingMulImm(x) => write_imm_u32(target, *x),
        Instruction::U32OverflowingMul => {},
        Instruction::U32OverflowingMulImm(x) => write_imm_u32(target, *x),
        Instruction::U32OverflowingMadd => {},
        Instruction::U32WrappingMadd => {},
        Instruction::U32Div => {},
        Instruction::U32DivImm(x) => write_imm_u32(target, *x),
        Instruction::U32Mod => {},
        Instruction::U32ModImm(x) => write_imm_u32(target, *x),
        Instruction::U32DivMod => {},
        Instruction::U32DivModImm(x) => write_imm_u32(target, *x),
        Instruction::U32And => {},
        Instruction::U32Or => {},
        Instruction::U32Xor => {},
        Instruction::U32Not => {},
        Instruction::U32Shr => {},
        Instruction::U32ShrImm(x) => write_imm_u8(target, *x),
        Instruction::U32Shl => {},
        Instruction::U32ShlImm(x) => write_imm_u8(target, *x),
        Instruction::U32Rotr => {},
        Instruction::U32RotrImm(x) => write_imm_u8(target, *x),
        Instruction::U32Rotl => {},
        Instruction::U32RotlImm(x) => write_imm_u8(target, *x),
        Instruction::U32Popcnt => {},
        Instruction::U32Ctz => {},
        Instruction::U32Clz => {},
        Instruction::U32Clo => {},
        Instruction::U32Cto => {},
        Instruction::U32Lt => {},
        Instruction::U32Lte => {},
        Instruction::U32Gt => {},
        Instruction::U32Gte => {},
        Instruction::U32Min => {},
        Instruction::U32Max => {},
        Instruction::Drop => {},
        Instruction::DropW => {},
        Instruction::PadW => {},
        Instruction::Dup0 => {},
        Instruction::Dup1 => {},
        Instruction::Dup2 => {},
        Instruction::Dup3 => {},
        Instruction::Dup4 => {},
        Instruction::Dup5 => {},
        Instruction::Dup6 => {},
        Instruction::Dup7 => {},
        Instruction::Dup8 => {},
        Instruction::Dup9 => {},
        Instruction::Dup10 => {},
        Instruction::Dup11 => {},
        Instruction::Dup12 => {},
        Instruction::Dup13 => {},
        Instruction::Dup14 => {},
        Instruction::Dup15 => {},
        Instruction::DupW0 => {},
        Instruction::DupW1 => {},
        Instruction::DupW2 => {},
        Instruction::DupW3 => {},
        Instruction::Swap1 => {},
        Instruction::Swap2 => {},
        Instruction::Swap3 => {},
        Instruction::Swap4 => {},
        Instruction::Swap5 => {},
        Instruction::Swap6 => {},
        Instruction::Swap7 => {},
        Instruction::Swap8 => {},
        Instruction::Swap9 => {},
        Instruction::Swap10 => {},
        Instruction::Swap11 => {},
        Instruction::Swap12 => {},
        Instruction::Swap13 => {},
        Instruction::Swap14 => {},
        Instruction::Swap15 => {},
        Instruction::SwapW1 => {},
        Instruction::SwapW2 => {},
        Instruction::SwapW3 => {},
        Instruction::SwapDw => {},
        Instruction::MovUp2 => {},
        Instruction::MovUp3 => {},
        Instruction::MovUp4 => {},
        Instruction::MovUp5 => {},
        Instruction::MovUp6 => {},
        Instruction::MovUp7 => {},
        Instruction::MovUp8 => {},
        Instruction::MovUp9 => {},
        Instruction::MovUp10 => {},
        Instruction::MovUp11 => {},
        Instruction::MovUp12 => {},
        Instruction::MovUp13 => {},
        Instruction::MovUp14 => {},
        Instruction::MovUp15 => {},
        Instruction::MovUpW2 => {},
        Instruction::MovUpW3 => {},
        Instruction::MovDn2 => {},
        Instruction::MovDn3 => {},
        Instruction::MovDn4 => {},
        Instruction::MovDn5 => {},
        Instruction::MovDn6 => {},
        Instruction::MovDn7 => {},
        Instruction::MovDn8 => {},
        Instruction::MovDn9 => {},
        Instruction::MovDn10 => {},
        Instruction::MovDn11 => {},
        Instruction::MovDn12 => {},
        Instruction::MovDn13 => {},
        Instruction::MovDn14 => {},
        Instruction::MovDn15 => {},
        Instruction::MovDnW2 => {},
        Instruction::MovDnW3 => {},
        Instruction::CSwap => {},
        Instruction::CSwapW => {},
        Instruction::CDrop => {},
        Instruction::CDropW => {},
        Instruction::Push(x) => write_imm_felt(target, *x),
        Instruction::PushU8(x) => write_imm_u8(target, *x),
        Instruction::PushU16(x) => write_imm_u16(target, *x),
        Instruction::PushU32(x) => write_imm_u32(target, *x),
        Instruction::PushFelt(x) => write_imm_felt(target, *x),
        Instruction::PushWord(x) => write_imm_word(target, x),
        Instruction::PushU8List(x) => write_imm_u8s(target, x),
        Instruction::PushU16List(x) => write_imm_u16s(target, x),
        Instruction::PushU32List(x) => write_imm_u32s(target, x),
        Instruction::PushFeltList(x) => write_imm_felts(target, x),
        Instruction::Locaddr(x) => write_imm_u16(target, *x),
        Instruction::Sdepth => {},
        Instruction::Caller => {},
        Instruction::Clk => {},
        Instruction::MemLoad => {},
        Instruction::MemLoadImm(x) => write_imm_u32(target, *x),
        Instruction::MemLoadW => {},
        Instruction::MemLoadWImm(x) => write_imm_u32(target, *x),
        Instruction::LocLoad(x) => write_imm_u16(target, *x),
        Instruction::LocLoadW(x) => write_imm_u16(target, *x),
        Instruction::MemStore => {},
        Instruction::MemStoreImm(x) => write_imm_u32(target, *x),
        Instruction::LocStore(x) => write_imm_u16(target, *x),
        Instruction::MemStoreW => {},
        Instruction::MemStoreWImm(x) => write_imm_u32(target, *x),
        Instruction::LocStoreW(x) => write_imm_u16(target, *x),
        Instruction::MemStream => {},
        Instruction::AdvPipe => {},
        Instruction::AdvPush(x) => write_imm_u8(target, *x),
        Instruction::AdvLoadW => {},
        Instruction::AdvInject(_) => {},
        Instruction::Hash => {},
        Instruction::HMerge => {},
        Instruction::HPerm => {},
        Instruction::MTreeGet => {},
        Instruction::MTreeSet => {},
        Instruction::MTreeMerge => {},
        Instruction::MTreeVerify => {},
        Instruction::MTreeVerifyWithError(_) => {},
        Instruction::FriExt2Fold4 => {},
        Instruction::RCombBase => {},
        Instruction::Exec(_) => {},
        Instruction::Call(x) => match x {
            InvocationTarget::MastRoot(d) => write_imm_root(target, *d),
            _ => {},
        },
        Instruction::SysCall(_) => {},
        Instruction::DynExec => {},
        Instruction::DynCall => {},
        Instruction::ProcRef(_) => {},
        Instruction::Breakpoint => {},
        Instruction::Debug(_) => {},
        Instruction::Emit(x) => write_imm_u32(target, *x),
        Instruction::Trace(x) => write_imm_u32(target, *x),
    }
}

/// Reads the immediates that follow the operation code `op`, and gives the instruction.
fn read_operands(op: OpCode, source: &mut SliceReader) -> (r: Result<Instruction, DeserializationError>)
    requires
        old(source).wf(),
    ensures
        final(source).wf(),
        final(source).spec_source() == old(source).spec_source(),
        r matches Ok(i) ==> {
            &&& instruction_opcode(i) == Some(op)
            &&& !(i is Push)
            &&& immediate_at(old(source).spec_source(), old(source).spec_pos() as int, instruction_immediate(i))
            &&& final(source).spec_pos() == old(source).spec_pos() + immediate_bytes(instruction_immediate(i)).len()
        },
        r is Err ==> match opcode_kind(op) {
            Some(k) => !immediate_kind_at(old(source).spec_source(), old(source).spec_pos() as int, k),
            None => true,
        },
{
    let t = op.to_u8();
    if t < 25 {
        read_operands_1(op, source)
    } else if t < 50 {
        read_operands_2(op, source)
    } else if t < 75 {
        read_operands_3(op, source)
    } else if t < 100 {
        read_operands_4(op, source)
    } else if t < 125 {
        read_operands_5(op, source)
    } else if t < 150 {
        read_operands_6(op, source)
    } else if t < 175 {
        read_operands_7(op, source)
    } else if t < 200 {
        read_operands_8(op, source)
    } else if t < 225 {
        read_operands_9(op, source)
    } else {
        read_operands_10(op, source)
    }
}

/// Reads the immediates that follow the operation code `op`, one of those from 0 below 25,
/// and gives the instruction.
#[verifier::rlimit(80)]
fn read_operands_1(op: OpCode, source: &mut SliceReader) -> (r: Result<Instruction, DeserializationError>)
    requires
        old(source).wf(),
        0 <= opcode_tag(op) < 25,
    ensures
        final(source).wf(),
        final(source).spec_source() == old(source).spec_source(),
        r matches Ok(i) ==> {
            &&& instruction_opcode(i) == Some(op)
            &&& !(i is Push)
            &&& immediate_at(old(source).spec_source(), old(source).spec_pos() as int, instruction_immediate(i))
            &&& final(source).spec_pos() == old(source).spec_pos() + immediate_bytes(instruction_immediate(i)).len()
        },
        r is Err ==> match opcode_kind(op) {
            Some(k) => !immediate_kind_at(old(source).spec_source(), old(source).spec_pos() as int, k),
            None => true,
        },
{
    let ghost s = source.spec_source();
    let ghost p = source.spec_pos() as int;
    proof {
        assert(s.subrange(p, p) =~= Seq::<u8>::empty());
        assert(immediate_at(s, p, Immediate::Empty));
    }
    match op {
        OpCode::Assert => Ok(Instruction::Assert),
        OpCode::AssertWithError => {
            let x = read_imm_u32(source)?;
            Ok(Instruction::AssertWithError(x))
        },
        OpCode::AssertEq => Ok(Instruction::AssertEq),
        OpCode::AssertEqWithError => {
            let x = read_imm_u32(source)?;
            Ok(Instruction::AssertEqWithError(x))
        },
        OpCode::AssertEqw => Ok(Instruction::AssertEqw),
        OpCode::AssertEqwWithError => {
            let x = read_imm_u32(source)?;
            Ok(Instruction::AssertEqwWithError(x))
        },
        OpCode::Assertz => Ok(Instruction::Assertz),
        OpCode::AssertzWithError => {
            let x = read_imm_u32(source)?;
            Ok(Instruction::AssertzWithError(x))
        },
        OpCode::Add => Ok(Instruction::Add),
        OpCode::AddImm => {
            let x = read_imm_felt(source)?;
            Ok(Instruction::AddImm(x))
        },
        OpCode::Sub => Ok(Instruction::Sub),
        OpCode::SubImm => {
            let x = read_imm_felt(source)?;
            Ok(Instruction::SubImm(x))
        },
        OpCode::Mul => Ok(Instruction::Mul),
        OpCode::MulImm => {
            let x = read_imm_felt(source)?;
            Ok(Instruction::MulImm(x))
        },
        OpCode::Div => Ok(Instruction::Div),
        OpCode::DivImm => {
            let x = read_imm_felt(source)?;
            Ok(Instruction::DivImm(x))
        },
        OpCode::Neg => Ok(Instruction::Neg),
        OpCode::Inv => Ok(Instruction::Inv),
        OpCode::Incr => Ok(Instruction::Incr),
        OpCode::Pow2 => Ok(Instruction::Pow2),
        OpCode::Exp => Ok(Instruction::Exp),
        OpCode::ExpImm => {
            let x = read_imm_felt(source)?;
            Ok(Instruction::ExpImm(x))
        },
        OpCode::ExpBitLength => {
            let x = read_imm_u8(source)?;
            Ok(Instruction::ExpBitLength(x))
        },
        OpCode::ILog2 => Ok(Instruction::ILog2),
        OpCode::Not => Ok(Instruction::Not),
        _ => Err(DeserializationError::UnknownError(String::from_str("operation code out of range"))),
    }
}

/// Reads the immediates that follow the operation code `op`, one of those from 25 below 50,
/// and gives the instruction.
#[verifier::rlimit(80)]
fn read_operands_2(op: OpCode, source: &mut SliceReader) -> (r: Result<Instruction, DeserializationError>)
    requires
        old(source).wf(),
        25 <= opcode_tag(op) < 50,
    ensures
        final(source).wf(),
        final(source).spec_source() == old(source).spec_source(),
        r matches Ok(i) ==> {
            &&& instruction_opcode(i) == Some(op)
            &&& !(i is Push)
            &&& immediate_at(old(source).spec_source(), old(source).spec_pos() as int, instruction_immediate(i))
            &&& final(source).spec_pos() == old(source).spec_pos() + immediate_bytes(instruction_immediate(i)).len()
        },
        r is Err ==> match opcode_kind(op) {
            Some(k) => !immediate_kind_at(old(source).spec_source(), old(source).spec_pos() as int, k),
            None => true,
        },
{
    let ghost s = source.spec_source();
    let ghost p = source.spec_pos() as int;
    proof {
        assert(s.subrange(p, p) =~= Seq::<u8>::empty());
        assert(immediate_at(s, p, Immediate::Empty));
    }
    match op {
        OpCode::And => Ok(Instruction::And),
        OpCode::Or => Ok(Instruction::Or),
        OpCode::Xor => Ok(Instruction::Xor),
        OpCode::Eq => Ok(Instruction::Eq),
        OpCode::EqImm => {
            let x = read_imm_felt(source)?;
            Ok(Instruction::EqImm(x))
        },
        OpCode::Neq => Ok(Instruction::Neq),
        OpCode::NeqImm => {
            let x = read_imm_felt(source)?;
            Ok(Instruction::NeqImm(x))
        },
        OpCode::Eqw => Ok(Instruction::Eqw),
        OpCode::Lt => Ok(Instruction::Lt),
        OpCode::Lte => Ok(Instruction::Lte),
        OpCode::Gt => Ok(Instruction::Gt),
        OpCode::Gte => Ok(Instruction::Gte),
        OpCode::IsOdd => Ok(Instruction::IsOdd),
        OpCode::Ext2Add => Ok(Instruction::Ext2Add),
        OpCode::Ext2Sub => Ok(Instruction::Ext2Sub),
        OpCode::Ext2Mul => Ok(Instruction::Ext2Mul),
        OpCode::Ext2Div => Ok(Instruction::Ext2Div),
        OpCode::Ext2Neg => Ok(Instruction::Ext2Neg),
        OpCode::Ext2Inv => Ok(Instruction::Ext2Inv),
        OpCode::U32Test => Ok(Instruction::U32Test),
        OpCode::U32TestW => Ok(Instruction::U32TestW),
        OpCode::U32Assert => Ok(Instruction::U32Assert),
        OpCode::U32AssertWithError => {
            let x = read_imm_u32(source)?;
            Ok(Instruction::U32AssertWithError(x))
        },
        OpCode::U32Assert2 => Ok(Instruction::U32Assert2),
        OpCode::U32Assert2WithError => {
            let x = read_imm_u32(source)?;
            Ok(Instruction::U32Assert2WithError(x))
        },
        _ => Err(DeserializationError::UnknownError(String::from_str("operation code out of range"))),
    }
}

/// Reads the immediates that follow the operation code `op`, one of those from 50 below 75,
/// and gives the instruction.
#[verifier::rlimit(80)]
fn read_operands_3(op: OpCode, source: &mut SliceReader) -> (r: Result<Instruction, DeserializationError>)
    requires
        old(source).wf(),
        50 <= opcode_tag(op) < 75,
    ensures
        final(source).wf(),
        final(source).spec_source() == old(source).spec_source(),
        r matches Ok(i) ==> {
            &&& instruction_opcode(i) == Some(op)
            &&& !(i is Push)
            &&& immediate_at(old(source).spec_source(), old(source).spec_pos() as int, instruction_immediate(i))
            &&& final(source).spec_pos() == old(source).spec_pos() + immediate_bytes(instruction_immediate(i)).len()
        },
        r is Err ==> match opcode_kind(op) {
            Some(k) => !immediate_kind_at(old(source).spec_source(), old(source).spec_pos() as int, k),
            None => true,
        },
{
    let ghost s = source.spec_source();
    let ghost p = source.spec_pos() as int;
    proof {
        assert(s.subrange(p, p) =~= Seq::<u8>::empty());
        assert(immediate_at(s, p, Immediate::Empty));
    }
    match op {
        OpCode::U32AssertW => Ok(Instruction::U32AssertW),
        OpCode::U32AssertWWithError => {
            let x = read_imm_u32(source)?;
            Ok(Instruction::U32AssertWWithError(x))
        },
        OpCode::U32Split => Ok(Instruction::U32Split),
        OpCode::U32Cast => Ok(Instruction::U32Cast),
        OpCode::U32WrappingAdd => Ok(Instruction::U32WrappingAdd),
        OpCode::U32WrappingAddImm => {
            let x = read_imm_u32(source)?;
            Ok(Instruction::U32WrappingAddImm(x))
        },
        OpCode::U32OverflowingAdd => Ok(Instruction::U32OverflowingAdd),
        OpCode::U32OverflowingAddImm => {
            let x = read_imm_u32(source)?;
            Ok(Instruction::U32OverflowingAddImm(x))
        },
        OpCode::U32OverflowingAdd3 => Ok(Instruction::U32OverflowingAdd3),
        OpCode::U32WrappingAdd3 => Ok(Instruction::U32WrappingAdd3),
        OpCode::U32WrappingSub => Ok(Instruction::U32WrappingSub),
        OpCode::U32WrappingSubImm => {
            let x = read_imm_u32(source)?;
            Ok(Instruction::U32WrappingSubImm(x))
        },
        OpCode::U32OverflowingSub => Ok(Instruction::U32OverflowingSub),
        OpCode::U32OverflowingSubImm => {
            let x = read_imm_u32(source)?;
            Ok(Instruction::U32OverflowingSubImm(x))
        },
        OpCode::U32WrappingMul => Ok(Instruction::U32WrappingMul),
        OpCode::U32WrappingMulImm => {
            let x = read_imm_u32(source)?;
            Ok(Instruction::U32WrappingMulImm(x))
        },
        OpCode::U32OverflowingMul => Ok(Instruction::U32OverflowingMul),
        OpCode::U32OverflowingMulImm => {
            let x = read_imm_u32(source)?;
            Ok(Instruction::U32OverflowingMulImm(x))
        },
        OpCode::U32OverflowingMadd => Ok(Instruction::U32OverflowingMadd),
        OpCode::U32WrappingMadd => Ok(Instruction::U32WrappingMadd),
        OpCode::U32Div => Ok(Instruction::U32Div),
        OpCode::U32DivImm => {
            let x = read_imm_u32(source)?;
            Ok(Instruction::U32DivImm(x))
        },
        OpCode::U32Mod => Ok(Instruction::U32Mod),
        OpCode::U32ModImm => {
            let x = read_imm_u32(source)?;
            Ok(Instruction::U32ModImm(x))
        },
        OpCode::U32DivMod => Ok(Instruction::U32DivMod),
        _ => Err(DeserializationError::UnknownError(String::from_str("operation code out of range"))),
    }
}

/// Reads the immediates that follow the operation code `op`, one of those from 75 below 100,
/// and gives the instruction.
#[verifier::rlimit(80)]
fn read_operands_4(op: OpCode, source: &mut SliceReader) -> (r: Result<Instruction, DeserializationError>)
    requires
        old(source).wf(),
        75 <= opcode_tag(op) < 100,
    ensures
        final(source).wf(),
        final(source).spec_source() == old(source).spec_source(),
        r matches Ok(i) ==> {
            &&& instruction_opcode(i) == Some(op)
            &&& !(i is Push)
            &&& immediate_at(old(source).spec_source(), old(source).spec_pos() as int, instruction_immediate(i))
            &&& final(source).spec_pos() == old(source).spec_pos() + immediate_bytes(instruction_immediate(i)).len()
        },
        r is Err ==> match opcode_kind(op) {
            Some(k) => !immediate_kind_at(old(source).spec_source(), old(source).spec_pos() as int, k),
            None => true,
        },
{
    let ghost s = source.spec_source();
    let ghost p = source.spec_pos() as int;
    proof {
        assert(s.subrange(p, p) =~= Seq::<u8>::empty());
        assert(immediate_at(s, p, Immediate::Empty));
    }
    match op {
        OpCode::U32DivModImm => {
            let x = read_imm_u32(source)?;
            Ok(Instruction::U32DivModImm(x))
        },
        OpCode::U32And => Ok(Instruction::U32And),
        OpCode::U32Or => Ok(Instruction::U32Or),
        OpCode::U32Xor => Ok(Instruction::U32Xor),
        OpCode::U32Not => Ok(Instruction::U32Not),
        OpCode::U32Shr => Ok(Instruction::U32Shr),
        OpCode::U32ShrImm => {
            let x = read_imm_u8(source)?;
            Ok(Instruction::U32ShrImm(x))
        },
        OpCode::U32Shl => Ok(Instruction::U32Shl),
        OpCode::U32ShlImm => {
            let x = read_imm_u8(source)?;
            Ok(Instruction::U32ShlImm(x))
        },
        OpCode::U32Rotr => Ok(Instruction::U32Rotr),
        OpCode::U32RotrImm => {
            let x = read_imm_u8(source)?;
            Ok(Instruction::U32RotrImm(x))
        },
        OpCode::U32Rotl => Ok(Instruction::U32Rotl),
        OpCode::U32RotlImm => {
            let x = read_imm_u8(source)?;
            Ok(Instruction::U32RotlImm(x))
        },
        OpCode::U32Popcnt => Ok(Instruction::U32Popcnt),
        OpCode::U32Clz => Ok(Instruction::U32Clz),
        OpCode::U32Ctz => Ok(Instruction::U32Ctz),
        OpCode::U32Clo => Ok(Instruction::U32Clo),
        OpCode::U32Cto => Ok(Instruction::U32Cto),
        OpCode::U32Lt => Ok(Instruction::U32Lt),
        OpCode::U32Lte => Ok(Instruction::U32Lte),
        OpCode::U32Gt => Ok(Instruction::U32Gt),
        OpCode::U32Gte => Ok(Instruction::U32Gte),
        OpCode::U32Min => Ok(Instruction::U32Min),
        OpCode::U32Max => Ok(Instruction::U32Max),
        OpCode::Drop => Ok(Instruction::Drop),
        _ => Err(DeserializationError::UnknownError(String::from_str("operation code out of range"))),
    }
}

/// Reads the immediates that follow the operation code `op`, one of those from 100 below 125,
/// and gives the instruction.
#[verifier::rlimit(80)]
fn read_operands_5(op: OpCode, source: &mut SliceReader) -> (r: Result<Instruction, DeserializationError>)
    requires
        old(source).wf(),
        100 <= opcode_tag(op) < 125,
    ensures
        final(source).wf(),
        final(source).spec_source() == old(source).spec_source(),
        r matches Ok(i) ==> {
            &&& instruction_opcode(i) == Some(op)
            &&& !(i is Push)
            &&& immediate_at(old(source).spec_source(), old(source).spec_pos() as int, instruction_immediate(i))
            &&& final(source).spec_pos() == old(source).spec_pos() + immediate_bytes(instruction_immediate(i)).len()
        },
        r is Err ==> match opcode_kind(op) {
            Some(k) => !immediate_kind_at(old(source).spec_source(), old(source).spec_pos() as int, k),
            None => true,
        },
{
    let ghost s = source.spec_source();
    let ghost p = source.spec_pos() as int;
    proof {
        assert(s.subrange(p, p) =~= Seq::<u8>::empty());
        assert(immediate_at(s, p, Immediate::Empty));
    }
    match op {
        OpCode::DropW => Ok(Instruction::DropW),
        OpCode::PadW => Ok(Instruction::PadW),
        OpCode::Dup0 => Ok(Instruction::Dup0),
        OpCode::Dup1 => Ok(Instruction::Dup1),
        OpCode::Dup2 => Ok(Instruction::Dup2),
        OpCode::Dup3 => Ok(Instruction::Dup3),
        OpCode::Dup4 => Ok(Instruction::Dup4),
        OpCode::Dup5 => Ok(Instruction::Dup5),
        OpCode::Dup6 => Ok(Instruction::Dup6),
        OpCode::Dup7 => Ok(Instruction::Dup7),
        OpCode::Dup8 => Ok(Instruction::Dup8),
        OpCode::Dup9 => Ok(Instruction::Dup9),
        OpCode::Dup10 => Ok(Instruction::Dup10),
        OpCode::Dup11 => Ok(Instruction::Dup11),
        OpCode::Dup12 => Ok(Instruction::Dup12),
        OpCode::Dup13 => Ok(Instruction::Dup13),
        OpCode::Dup14 => Ok(Instruction::Dup14),
        OpCode::Dup15 => Ok(Instruction::Dup15),
        OpCode::DupW0 => Ok(Instruction::DupW0),
        OpCode::DupW1 => Ok(Instruction::DupW1),
        OpCode::DupW2 => Ok(Instruction::DupW2),
        OpCode::DupW3 => Ok(Instruction::DupW3),
        OpCode::Swap1 => Ok(Instruction::Swap1),
        OpCode::Swap2 => Ok(Instruction::Swap2),
        OpCode::Swap3 => Ok(Instruction::Swap3),
        _ => Err(DeserializationError::UnknownError(String::from_str("operation code out of range"))),
    }
}

/// Reads the immediates that follow the operation code `op`, one of those from 125 below 150,
/// and gives the instruction.
#[verifier::rlimit(80)]
fn read_operands_6(op: OpCode, source: &mut SliceReader) -> (r: Result<Instruction, DeserializationError>)
    requires
        old(source).wf(),
        125 <= opcode_tag(op) < 150,
    ensures
        final(source).wf(),
        final(source).spec_source() == old(source).spec_source(),
        r matches Ok(i) ==> {
            &&& instruction_opcode(i) == Some(op)
            &&& !(i is Push)
            &&& immediate_at(old(source).spec_source(), old(source).spec_pos() as int, instruction_immediate(i))
            &&& final(source).spec_pos() == old(source).spec_pos() + immediate_bytes(instruction_immediate(i)).len()
        },
        r is Err ==> match opcode_kind(op) {
            Some(k) => !immediate_kind_at(old(source).spec_source(), old(source).spec_pos() as int, k),
            None => true,
        },
{
    let ghost s = source.spec_source();
    let ghost p = source.spec_pos() as int;
    proof {
        assert(s.subrange(p, p) =~= Seq::<u8>::empty());
        assert(immediate_at(s, p, Immediate::Empty));
    }
    match op {
        OpCode::Swap4 => Ok(Instruction::Swap4),
        OpCode::Swap5 => Ok(Instruction::Swap5),
        OpCode::Swap6 => Ok(Instruction::Swap6),
        OpCode::Swap7 => Ok(Instruction::Swap7),
        OpCode::Swap8 => Ok(Instruction::Swap8),
        OpCode::Swap9 => Ok(Instruction::Swap9),
        OpCode::Swap10 => Ok(Instruction::Swap10),
        OpCode::Swap11 => Ok(Instruction::Swap11),
        OpCode::Swap12 => Ok(Instruction::Swap12),
        OpCode::Swap13 => Ok(Instruction::Swap13),
        OpCode::Swap14 => Ok(Instruction::Swap14),
        OpCode::Swap15 => Ok(Instruction::Swap15),
        OpCode::SwapW1 => Ok(Instruction::SwapW1),
        OpCode::SwapW2 => Ok(Instruction::SwapW2),
        OpCode::SwapW3 => Ok(Instruction::SwapW3),
        OpCode::SwapDW => Ok(Instruction::SwapDw),
        OpCode::MovUp2 => Ok(Instruction::MovUp2),
        OpCode::MovUp3 => Ok(Instruction::MovUp3),
        OpCode::MovUp4 => Ok(Instruction::MovUp4),
        OpCode::MovUp5 => Ok(Instruction::MovUp5),
        OpCode::MovUp6 => Ok(Instruction::MovUp6),
        OpCode::MovUp7 => Ok(Instruction::MovUp7),
        OpCode::MovUp8 => Ok(Instruction::MovUp8),
        OpCode::MovUp9 => Ok(Instruction::MovUp9),
        OpCode::MovUp10 => Ok(Instruction::MovUp10),
        _ => Err(DeserializationError::UnknownError(String::from_str("operation code out of range"))),
    }
}

/// Reads the immediates that follow the operation code `op`, one of those from 150 below 175,
/// and gives the instruction.
#[verifier::rlimit(80)]
fn read_operands_7(op: OpCode, source: &mut SliceReader) -> (r: Result<Instruction, DeserializationError>)
    requires
        old(source).wf(),
        150 <= opcode_tag(op) < 175,
    ensures
        final(source).wf(),
        final(source).spec_source() == old(source).spec_source(),
        r matches Ok(i) ==> {
            &&& instruction_opcode(i) == Some(op)
            &&& !(i is Push)
            &&& immediate_at(old(source).spec_source(), old(source).spec_pos() as int, instruction_immediate(i))
            &&& final(source).spec_pos() == old(source).spec_pos() + immediate_bytes(instruction_immediate(i)).len()
        },
        r is Err ==> match opcode_kind(op) {
            Some(k) => !immediate_kind_at(old(source).spec_source(), old(source).spec_pos() as int, k),
            None => true,
        },
{
    let ghost s = source.spec_source();
    let ghost p = source.spec_pos() as int;
    proof {
        assert(s.subrange(p, p) =~= Seq::<u8>::empty());
        assert(immediate_at(s, p, Immediate::Empty));
    }
    match op {
        OpCode::MovUp11 => Ok(Instruction::MovUp11),
        OpCode::MovUp12 => Ok(Instruction::MovUp12),
        OpCode::MovUp13 => Ok(Instruction::MovUp13),
        OpCode::MovUp14 => Ok(Instruction::MovUp14),
        OpCode::MovUp15 => Ok(Instruction::MovUp15),
        OpCode::MovUpW2 => Ok(Instruction::MovUpW2),
        OpCode::MovUpW3 => Ok(Instruction::MovUpW3),
        OpCode::MovDn2 => Ok(Instruction::MovDn2),
        OpCode::MovDn3 => Ok(Instruction::MovDn3),
        OpCode::MovDn4 => Ok(Instruction::MovDn4),
        OpCode::MovDn5 => Ok(Instruction::MovDn5),
        OpCode::MovDn6 => Ok(Instruction::MovDn6),
        OpCode::MovDn7 => Ok(Instruction::MovDn7),
        OpCode::MovDn8 => Ok(Instruction::MovDn8),
        OpCode::MovDn9 => Ok(Instruction::MovDn9),
        OpCode::MovDn10 => Ok(Instruction::MovDn10),
        OpCode::MovDn11 => Ok(Instruction::MovDn11),
        OpCode::MovDn12 => Ok(Instruction::MovDn12),
        OpCode::MovDn13 => Ok(Instruction::MovDn13),
        OpCode::MovDn14 => Ok(Instruction::MovDn14),
        OpCode::MovDn15 => Ok(Instruction::MovDn15),
        OpCode::MovDnW2 => Ok(Instruction::MovDnW2),
        OpCode::MovDnW3 => Ok(Instruction::MovDnW3),
        OpCode::CSwap => Ok(Instruction::CSwap),
        OpCode::CSwapW => Ok(Instruction::CSwapW),
        _ => Err(DeserializationError::UnknownError(String::from_str("operation code out of range"))),
    }
}

/// Reads the immediates that follow the operation code `op`, one of those from 175 below 200,
/// and gives the instruction.
#[verifier::rlimit(80)]
fn read_operands_8(op: OpCode, source: &mut SliceReader) -> (r: Result<Instruction, DeserializationError>)
    requires
        old(source).wf(),
        175 <= opcode_tag(op) < 200,
    ensures
        final(source).wf(),
        final(source).spec_source() == old(source).spec_source(),
        r matches Ok(i) ==> {
            &&& instruction_opcode(i) == Some(op)
            &&& !(i is Push)
            &&& immediate_at(old(source).spec_source(), old(source).spec_pos() as int, instruction_immediate(i))
            &&& final(source).spec_pos() == old(source).spec_pos() + immediate_bytes(instruction_immediate(i)).len()
        },
        r is Err ==> match opcode_kind(op) {
            Some(k) => !immediate_kind_at(old(source).spec_source(), old(source).spec_pos() as int, k),
            None => true,
        },
{
    let ghost s = source.spec_source();
    let ghost p = source.spec_pos() as int;
    proof {
        assert(s.subrange(p, p) =~= Seq::<u8>::empty());
        assert(immediate_at(s, p, Immediate::Empty));
    }
    match op {
        OpCode::CDrop => Ok(Instruction::CDrop),
        OpCode::CDropW => Ok(Instruction::CDropW),
        OpCode::PushU8 => {
            let x = read_imm_u8(source)?;
            Ok(Instruction::PushU8(x))
        },
        OpCode::PushU16 => {
            let x = read_imm_u16(source)?;
            Ok(Instruction::PushU16(x))
        },
        OpCode::PushU32 => {
            let x = read_imm_u32(source)?;
            Ok(Instruction::PushU32(x))
        },
        OpCode::PushFelt => {
            let x = read_imm_felt(source)?;
            Ok(Instruction::PushFelt(x))
        },
        OpCode::PushWord => {
            let x = read_imm_word(source)?;
            Ok(Instruction::PushWord(x))
        },
        OpCode::PushU8List => {
            let x = read_imm_u8s(source)?;
            Ok(Instruction::PushU8List(x))
        },
        OpCode::PushU16List => {
            let x = read_imm_u16s(source)?;
            Ok(Instruction::PushU16List(x))
        },
        OpCode::PushU32List => {
            let x = read_imm_u32s(source)?;
            Ok(Instruction::PushU32List(x))
        },
        OpCode::PushFeltList => {
            let x = read_imm_felts(source)?;
            Ok(Instruction::PushFeltList(x))
        },
        OpCode::Locaddr => {
            let x = read_imm_u16(source)?;
            Ok(Instruction::Locaddr(x))
        },
        OpCode::Sdepth => Ok(Instruction::Sdepth),
        OpCode::Caller => Ok(Instruction::Caller),
        OpCode::Clk => Ok(Instruction::Clk),
        OpCode::MemLoad => Ok(Instruction::MemLoad),
        OpCode::MemLoadImm => {
            let x = read_imm_u32(source)?;
            Ok(Instruction::MemLoadImm(x))
        },
        OpCode::MemLoadW => Ok(Instruction::MemLoadW),
        OpCode::MemLoadWImm => {
            let x = read_imm_u32(source)?;
            Ok(Instruction::MemLoadWImm(x))
        },
        OpCode::LocLoad => {
            let x = read_imm_u16(source)?;
            Ok(Instruction::LocLoad(x))
        },
        OpCode::LocLoadW => {
            let x = read_imm_u16(source)?;
            Ok(Instruction::LocLoadW(x))
        },
        OpCode::MemStore => Ok(Instruction::MemStore),
        OpCode::MemStoreImm => {
            let x = read_imm_u32(source)?;
            Ok(Instruction::MemStoreImm(x))
        },
        OpCode::LocStore => {
            let x = read_imm_u16(source)?;
            Ok(Instruction::LocStore(x))
        },
        OpCode::MemStoreW => Ok(Instruction::MemStoreW),
        _ => Err(DeserializationError::UnknownError(String::from_str("operation code out of range"))),
    }
}

/// Reads the immediates that follow the operation code `op`, one of those from 200 below 225,
/// and gives the instruction.
#[verifier::rlimit(80)]
fn read_operands_9(op: OpCode, source: &mut SliceReader) -> (r: Result<Instruction, DeserializationError>)
    requires
        old(source).wf(),
        200 <= opcode_tag(op) < 225,
    ensures
        final(source).wf(),
        final(source).spec_source() == old(source).spec_source(),
        r matches Ok(i) ==> {
            &&& instruction_opcode(i) == Some(op)
            &&& !(i is Push)
            &&& immediate_at(old(source).spec_source(), old(source).spec_pos() as int, instruction_immediate(i))
            &&& final(source).spec_pos() == old(source).spec_pos() + immediate_bytes(instruction_immediate(i)).len()
        },
        r is Err ==> match opcode_kind(op) {
            Some(k) => !immediate_kind_at(old(source).spec_source(), old(source).spec_pos() as int, k),
            None => true,
        },
{
    let ghost s = source.spec_source();
    let ghost p = source.spec_pos() as int;
    proof {
        assert(s.subrange(p, p) =~= Seq::<u8>::empty());
        assert(immediate_at(s, p, Immediate::Empty));
    }
    match op {
        OpCode::MemStoreWImm => {
            let x = read_imm_u32(source)?;
            Ok(Instruction::MemStoreWImm(x))
        },
        OpCode::LocStoreW => {
            let x = read_imm_u16(source)?;
            Ok(Instruction::LocStoreW(x))
        },
        OpCode::MemStream => Ok(Instruction::MemStream),
        OpCode::AdvPipe => Ok(Instruction::AdvPipe),
        OpCode::AdvPush => {
            let x = read_imm_u8(source)?;
            Ok(Instruction::AdvPush(x))
        },
        OpCode::AdvLoadW => Ok(Instruction::AdvLoadW),
        OpCode::AdvInject => Err(DeserializationError::InvalidValue(String::from_str("operation code not supported"))),
        OpCode::Hash => Ok(Instruction::Hash),
        OpCode::HMerge => Ok(Instruction::HMerge),
        OpCode::HPerm => Ok(Instruction::HPerm),
        OpCode::MTreeGet => Ok(Instruction::MTreeGet),
        OpCode::MTreeSet => Ok(Instruction::MTreeSet),
        OpCode::MTreeMerge => Ok(Instruction::MTreeMerge),
        OpCode::MTreeVerify => Ok(Instruction::MTreeVerify),
        OpCode::FriExt2Fold4 => Ok(Instruction::FriExt2Fold4),
        OpCode::RCombBase => Ok(Instruction::RCombBase),
        OpCode::ExecLocal => Err(DeserializationError::InvalidValue(String::from_str("operation code not supported"))),
        OpCode::ExecImported => Err(DeserializationError::InvalidValue(String::from_str("operation code not supported"))),
        OpCode::CallLocal => Err(DeserializationError::InvalidValue(String::from_str("operation code not supported"))),
        OpCode::CallMastRoot => {
            let d = read_imm_root(source)?;
            Ok(Instruction::Call(InvocationTarget::MastRoot(d)))
        },
        OpCode::CallImported => Err(DeserializationError::InvalidValue(String::from_str("operation code not supported"))),
        OpCode::SysCall => Err(DeserializationError::InvalidValue(String::from_str("operation code not supported"))),
        OpCode::DynExec => Ok(Instruction::DynExec),
        OpCode::DynCall => Ok(Instruction::DynCall),
        OpCode::ProcRefLocal => Err(DeserializationError::InvalidValue(String::from_str("operation code not supported"))),
        _ => Err(DeserializationError::UnknownError(String::from_str("operation code out of range"))),
    }
}

/// Reads the immediates that follow the operation code `op`, one of those from 225 below 256,
/// and gives the instruction.
#[verifier::rlimit(80)]
fn read_operands_10(op: OpCode, source: &mut SliceReader) -> (r: Result<Instruction, DeserializationError>)
    requires
        old(source).wf(),
        225 <= opcode_tag(op) < 256,
    ensures
        final(source).wf(),
        final(source).spec_source() == old(source).spec_source(),
        r matches Ok(i) ==> {
            &&& instruction_opcode(i) == Some(op)
            &&& !(i is Push)
            &&& immediate_at(old(source).spec_source(), old(source).spec_pos() as int, instruction_immediate(i))
            &&& final(source).spec_pos() == old(source).spec_pos() + immediate_bytes(instruction_immediate(i)).len()
        },
        r is Err ==> match opcode_kind(op) {
            Some(k) => !immediate_kind_at(old(source).spec_source(), old(source).spec_pos() as int, k),
            None => true,
        },
{
    let ghost s = source.spec_source();
    let ghost p = source.spec_pos() as int;
    proof {
        assert(s.subrange(p, p) =~= Seq::<u8>::empty());
        assert(immediate_at(s, p, Immediate::Empty));
    }
    match op {
        OpCode::ProcRefImported => Err(DeserializationError::InvalidValue(String::from_str("operation code not supported"))),
        OpCode::Debug => Err(DeserializationError::InvalidValue(String::from_str("operation code not supported"))),
        OpCode::Emit => {
            let x = read_imm_u32(source)?;
            Ok(Instruction::Emit(x))
        },
        OpCode::Trace => {
            let x = read_imm_u32(source)?;
            Ok(Instruction::Trace(x))
        },
        OpCode::IfElse => Err(DeserializationError::InvalidValue(String::from_str("operation code not supported"))),
        OpCode::Repeat => Err(DeserializationError::InvalidValue(String::from_str("operation code not supported"))),
        OpCode::While => Err(DeserializationError::InvalidValue(String::from_str("operation code not supported"))),
        _ => Err(DeserializationError::UnknownError(String::from_str("operation code out of range"))),
    }
}

// ----- reading and writing instructions ----------------------------------------------------------

/// Reads an instruction from its binary form: its operation code, then its immediates.
///
/// The binary form of `push` of a field element is that of `push.felt`, which is what reads back.
///
/// # Errors
/// Returns [DeserializationError::UnexpectedEOF] if no byte is left, an invalid value if the byte
/// is no operation code, and an error if the operation code takes immediates that are not read
/// back here or if the bytes after it are not its valid immediates; exactly when no binary form
/// of an instruction begins at the position.
pub fn read_instruction(source: &mut SliceReader) -> (r: Result<Instruction, DeserializationError>)
    requires
        old(source).wf(),
        old(source).spec_pos() < old(source).spec_source().len() ==> !(opcode_of_tag(
            old(source).spec_source()[old(source).spec_pos() as int],
        ) matches Some(op) && control_flow_opcode(op)),
    ensures
        final(source).wf(),
        final(source).spec_source() == old(source).spec_source(),
        old(source).spec_pos() >= old(source).spec_source().len() ==> r == Err::<Instruction, DeserializationError>(
            DeserializationError::UnexpectedEOF,
        ),
        old(source).spec_pos() < old(source).spec_source().len() && opcode_of_tag(
            old(source).spec_source()[old(source).spec_pos() as int],
        ) is None ==> r matches Err(DeserializationError::InvalidValue(_)),
        r matches Ok(i) ==> {
            &&& encoded_at(old(source).spec_source(), old(source).spec_pos() as int, i)
            &&& !(i is Push)
            &&& final(source).spec_pos() == old(source).spec_pos() + instruction_bytes(i)->0.len()
        },
        r is Err ==> forall|i: Instruction| !#[trigger] encoded_at(old(source).spec_source(), old(source).spec_pos() as int, i),
        forall|i: Instruction| #[trigger] encoded_at(old(source).spec_source(), old(source).spec_pos() as int, i) ==> (
            r matches Ok(j) && instruction_opcode(j) == instruction_opcode(i)
                && instruction_immediate(j) == instruction_immediate(i)),
{
    let ghost s = source.spec_source();
    let ghost p = source.spec_pos() as int;
    let op = match OpCode::read_from(source) {
        Ok(op) => op,
        Err(e) => {
            proof {
                assert forall|i: Instruction| !#[trigger] encoded_at(s, p, i) by {
                    if encoded_at(s, p, i) {
                        lemma_encoded_parts(s, p, i);
                        lemma_opcode_roundtrip(instruction_opcode(i)->0, s[p]);
                    }
                }
            }
            return Err(e);
        },
    };
    proof {
        lemma_opcode_roundtrip(op, s[p]);
    }
    let r = read_operands(op, source);
    proof {
        if r is Ok {
            lemma_encoded_parts(s, p, r->Ok_0);
        } else {
            lemma_no_encoding(s, p, op);
        }
        assert forall|i: Instruction| #[trigger] encoded_at(s, p, i) implies (r matches Ok(j)
            && instruction_opcode(j) == instruction_opcode(i) && instruction_immediate(j) == instruction_immediate(i)) by {
            if r is Ok {
                lemma_encoding_unique(s, p, i, r->Ok_0);
            }
        }
    }
    r
}

/// Appends the binary form of `inst` to `target`: its operation code, then its immediates.
/// Returns false, and appends nothing, for an instruction that has no binary form: `breakpoint`,
/// which is transparent, and those whose operands are procedure names, advice injectors or debug
/// options.
pub fn write_instruction(inst: &Instruction, target: &mut Vec<u8>) -> (r: bool)
    ensures
        r == (instruction_bytes(*inst) is Some),
        instruction_bytes(*inst) matches Some(b) ==> final(target)@ == old(target)@ + b,
        instruction_bytes(*inst) is None ==> final(target)@ == old(target)@,
{
    match opcode_for(inst) {
        Some(op) => {
            op.write_into(target);
            write_immediates(inst, target);
            proof {
                assert(target@ =~= old(target)@ + (seq![opcode_tag(op)] + immediate_bytes(instruction_immediate(*inst))));
            }
            true
        },
        None => false,
    }
}

// ----- the binary form determines the instruction ------------------------------------------------

/// Two lists of 16-bit values of the same length with the same bytes are equal.
proof fn lemma_u16s_injective(a: Seq<u16>, b: Seq<u16>)
    requires
        a.len() == b.len(),
        u16s_le(a) == u16s_le(b),
    ensures
        a == b,
    decreases a.len(),
{
    if a.len() > 0 {
        let n = a.len() - 1;
        lemma_list_lens(a.drop_last(), Seq::empty(), Seq::empty());
        lemma_list_lens(b.drop_last(), Seq::empty(), Seq::empty());
        assert(u16s_le(a).subrange(0, 2 * n) =~= u16s_le(a.drop_last()));
        assert(u16s_le(b).subrange(0, 2 * n) =~= u16s_le(b.drop_last()));
        assert(u16s_le(a).subrange(2 * n, 2 * n + 2) =~= u16_le(a.last()));
        assert(u16s_le(b).subrange(2 * n, 2 * n + 2) =~= u16_le(b.last()));
        lemma_u16s_injective(a.drop_last(), b.drop_last());
        lemma_le_injective(0, 0, 0, 0, a.last(), b.last());
        assert(a =~= b) by {
            assert forall|k: int| 0 <= k < a.len() implies a[k] == b[k] by {
                if k < n {
                    assert(a.drop_last()[k] == b.drop_last()[k]);
                }
            }
        }
    } else {
        assert(a =~= b);
    }
}

/// Two lists of 32-bit values of the same length with the same bytes are equal.
proof fn lemma_u32s_injective(a: Seq<u32>, b: Seq<u32>)
    requires
        a.len() == b.len(),
        u32s_le(a) == u32s_le(b),
    ensures
        a == b,
    decreases a.len(),
{
    if a.len() > 0 {
        let n = a.len() - 1;
        lemma_list_lens(Seq::empty(), a.drop_last(), Seq::empty());
        lemma_list_lens(Seq::empty(), b.drop_last(), Seq::empty());
        assert(u32s_le(a).subrange(0, 4 * n) =~= u32s_le(a.drop_last()));
        assert(u32s_le(b).subrange(0, 4 * n) =~= u32s_le(b.drop_last()));
        assert(u32s_le(a).subrange(4 * n, 4 * n + 4) =~= u32_le(a.last()));
        assert(u32s_le(b).subrange(4 * n, 4 * n + 4) =~= u32_le(b.last()));
        lemma_u32s_injective(a.drop_last(), b.drop_last());
        lemma_le_injective(0, 0, a.last(), b.last(), 0, 0);
        assert(a =~= b) by {
            assert forall|k: int| 0 <= k < a.len() implies a[k] == b[k] by {
                if k < n {
                    assert(a.drop_last()[k] == b.drop_last()[k]);
                }
            }
        }
    } else {
        assert(a =~= b);
    }
}

/// Two lists of field elements of the same length with the same bytes are equal.
proof fn lemma_felts_injective(a: Seq<Felt>, b: Seq<Felt>)
    requires
        a.len() == b.len(),
        felts_le(a) == felts_le(b),
    ensures
        a == b,
    decreases a.len(),
{
    if a.len() > 0 {
        let n = a.len() - 1;
        lemma_list_lens(Seq::empty(), Seq::empty(), a.drop_last());
        lemma_list_lens(Seq::empty(), Seq::empty(), b.drop_last());
        assert(felts_le(a).subrange(0, 8 * n) =~= felts_le(a.drop_last()));
        assert(felts_le(b).subrange(0, 8 * n) =~= felts_le(b.drop_last()));
        assert(felts_le(a).subrange(8 * n, 8 * n + 8) =~= u64_le(a.last().value));
        assert(felts_le(b).subrange(8 * n, 8 * n + 8) =~= u64_le(b.last().value));
        lemma_felts_injective(a.drop_last(), b.drop_last());
        lemma_le_injective(a.last().value, b.last().value, 0, 0, 0, 0);
        assert(a =~= b) by {
            assert forall|k: int| 0 <= k < a.len() implies a[k] == b[k] by {
                if k < n {
                    assert(a.drop_last()[k] == b.drop_last()[k]);
                }
            }
        }
    } else {
        assert(a =~= b);
    }
}

/// The parts of `b` from 8·k to 8·k + 8, for k below 4, are the bytes of four 64-bit values.
proof fn lemma_quad(s: Seq<u8>, q: int, b: Seq<u8>, x: Seq<u8>, y: Seq<u8>, z: Seq<u8>, w: Seq<u8>)
    requires
        0 <= q,
        q + b.len() <= s.len(),
        s.subrange(q, q + b.len()) == b,
        b == x + y + z + w,
        x.len() == 8 && y.len() == 8 && z.len() == 8 && w.len() == 8,
    ensures
        s.subrange(q, q + 8) == x,
        s.subrange(q + 8, q + 16) == y,
        s.subrange(q + 16, q + 24) == z,
        s.subrange(q + 24, q + 32) == w,
{
    lemma_sub(s, q, b, 0, 8);
    lemma_sub(s, q, b, 8, 16);
    lemma_sub(s, q, b, 16, 24);
    lemma_sub(s, q, b, 24, 32);
    assert(b.subrange(0, 8) =~= x);
    assert(b.subrange(8, 16) =~= y);
    assert(b.subrange(16, 24) =~= z);
    assert(b.subrange(24, 32) =~= w);
}

/// Two valid immediates of one kind that `s` holds from `q` on are equal.
proof fn lemma_immediate_unique(s: Seq<u8>, q: int, a: Immediate, b: Immediate)
    requires
        immediate_at(s, q, a),
        immediate_at(s, q, b),
        immediate_kind(a) == immediate_kind(b),
    ensures
        a == b,
{
    let ba = immediate_bytes(a);
    let bb = immediate_bytes(b);
    match a {
        Immediate::Empty => {},
        Immediate::U8(x) => {
            assert(ba[0] == s.subrange(q, q + 1)[0] && bb[0] == s.subrange(q, q + 1)[0]);
        },
        Immediate::U16(x) => {
            lemma_le_injective(0, 0, 0, 0, x, b->U16_0);
        },
        Immediate::U32(x) => {
            lemma_le_injective(0, 0, x, b->U32_0, 0, 0);
        },
        Immediate::Felt(x) => {
            lemma_le_injective(x.value, b->Felt_0.value, 0, 0, 0, 0);
        },
        Immediate::Word(a0, a1, a2, a3) => {
            let (b0, b1, b2, b3) = (b->Word_0, b->Word_1, b->Word_2, b->Word_3);
            lemma_quad(s, q, ba, u64_le(a0.value), u64_le(a1.value), u64_le(a2.value), u64_le(a3.value));
            lemma_quad(s, q, bb, u64_le(b0.value), u64_le(b1.value), u64_le(b2.value), u64_le(b3.value));
            lemma_le_injective(a0.value, b0.value, 0, 0, 0, 0);
            lemma_le_injective(a1.value, b1.value, 0, 0, 0, 0);
            lemma_le_injective(a2.value, b2.value, 0, 0, 0, 0);
            lemma_le_injective(a3.value, b3.value, 0, 0, 0, 0);
        },
        Immediate::Root(d) => {
            let e = b->Root_0;
            lemma_quad(s, q, ba, u64_le(d.e0), u64_le(d.e1), u64_le(d.e2), u64_le(d.e3));
            lemma_quad(s, q, bb, u64_le(e.e0), u64_le(e.e1), u64_le(e.e2), u64_le(e.e3));
            lemma_le_injective(d.e0, e.e0, 0, 0, 0, 0);
            lemma_le_injective(d.e1, e.e1, 0, 0, 0, 0);
            lemma_le_injective(d.e2, e.e2, 0, 0, 0, 0);
            lemma_le_injective(d.e3, e.e3, 0, 0, 0, 0);
        },
        Immediate::U8s(x) => {
            let y = b->U8s_0;
            lemma_list_at(s, q, a, x.len() as int, 1, x);
            lemma_list_at(s, q, b, y.len() as int, 1, y);
        },
        Immediate::U16s(x) => {
            let y = b->U16s_0;
            lemma_list_lens(x, Seq::empty(), Seq::empty());
            lemma_list_lens(y, Seq::empty(), Seq::empty());
            lemma_list_at(s, q, a, x.len() as int, 2, u16s_le(x));
            lemma_list_at(s, q, b, y.len() as int, 2, u16s_le(y));
            lemma_u16s_injective(x, y);
        },
        Immediate::U32s(x) => {
            let y = b->U32s_0;
            lemma_list_lens(Seq::empty(), x, Seq::empty());
            lemma_list_lens(Seq::empty(), y, Seq::empty());
            lemma_list_at(s, q, a, x.len() as int, 4, u32s_le(x));
            lemma_list_at(s, q, b, y.len() as int, 4, u32s_le(y));
            lemma_u32s_injective(x, y);
        },
        Immediate::Felts(x) => {
            let y = b->Felts_0;
            lemma_list_lens(Seq::empty(), Seq::empty(), x);
            lemma_list_lens(Seq::empty(), Seq::empty(), y);
            lemma_list_at(s, q, a, x.len() as int, 8, felts_le(x));
            lemma_list_at(s, q, b, y.len() as int, 8, felts_le(y));
            lemma_felts_injective(x, y);
        },
    }
}

/// The binary form determines the instruction: two instructions whose binary forms begin at the
/// same position have the same operation code and the same immediates.
pub proof fn lemma_encoding_unique(s: Seq<u8>, p: int, i: Instruction, j: Instruction)
    requires
        encoded_at(s, p, i),
        encoded_at(s, p, j),
    ensures
        instruction_opcode(i) == instruction_opcode(j),
        instruction_immediate(i) == instruction_immediate(j),
{
    lemma_encoded_parts(s, p, i);
    lemma_encoded_parts(s, p, j);
    lemma_opcode_roundtrip(instruction_opcode(i)->0, s[p]);
    lemma_opcode_roundtrip(instruction_opcode(j)->0, s[p]);
    lemma_instruction_kind(i);
    lemma_instruction_kind(j);
    lemma_immediate_unique(s, p + 1, instruction_immediate(i), instruction_immediate(j));
}

/// The binary form of an encodable instruction, written after any bytes, begins where it was
/// written, whatever follows it.
pub proof fn lemma_written_is_encoded(before: Seq<u8>, i: Instruction, after: Seq<u8>)
    requires
        encodable(i),
    ensures
        encoded_at(before + instruction_bytes(i)->0 + after, before.len() as int, i),
{
    let b = instruction_bytes(i)->0;
    let s = before + b + after;
    assert(s.subrange(before.len() as int, before.len() + b.len() as int) =~= b);
}


proof fn lemma_operation_codes_1()
    ensures
        instruction_opcode(Instruction::Assert) == Some(OpCode::Assert) && opcode_tag(OpCode::Assert) == 0,
        forall|x: u32| #![auto] instruction_opcode(Instruction::AssertWithError(x)) == Some(OpCode::AssertWithError) && opcode_tag(OpCode::AssertWithError) == 1,
        instruction_opcode(Instruction::AssertEq) == Some(OpCode::AssertEq) && opcode_tag(OpCode::AssertEq) == 2,
        forall|x: u32| #![auto] instruction_opcode(Instruction::AssertEqWithError(x)) == Some(OpCode::AssertEqWithError) && opcode_tag(OpCode::AssertEqWithError) == 3,
        instruction_opcode(Instruction::AssertEqw) == Some(OpCode::AssertEqw) && opcode_tag(OpCode::AssertEqw) == 4,
        forall|x: u32| #![auto] instruction_opcode(Instruction::AssertEqwWithError(x)) == Some(OpCode::AssertEqwWithError) && opcode_tag(OpCode::AssertEqwWithError) == 5,
        instruction_opcode(Instruction::Assertz) == Some(OpCode::Assertz) && opcode_tag(OpCode::Assertz) == 6,
        forall|x: u32| #![auto] instruction_opcode(Instruction::AssertzWithError(x)) == Some(OpCode::AssertzWithError) && opcode_tag(OpCode::AssertzWithError) == 7,
        instruction_opcode(Instruction::Add) == Some(OpCode::Add) && opcode_tag(OpCode::Add) == 8,
        forall|x: Felt| #![auto] instruction_opcode(Instruction::AddImm(x)) == Some(OpCode::AddImm) && opcode_tag(OpCode::AddImm) == 9,
        instruction_opcode(Instruction::Sub) == Some(OpCode::Sub) && opcode_tag(OpCode::Sub) == 10,
        forall|x: Felt| #![auto] instruction_opcode(Instruction::SubImm(x)) == Some(OpCode::SubImm) && opcode_tag(OpCode::SubImm) == 11,
        instruction_opcode(Instruction::Mul) == Some(OpCode::Mul) && opcode_tag(OpCode::Mul) == 12,
        forall|x: Felt| #![auto] instruction_opcode(Instruction::MulImm(x)) == Some(OpCode::MulImm) && opcode_tag(OpCode::MulImm) == 13,
        instruction_opcode(Instruction::Div) == Some(OpCode::Div) && opcode_tag(OpCode::Div) == 14,
        forall|x: Felt| #![auto] instruction_opcode(Instruction::DivImm(x)) == Some(OpCode::DivImm) && opcode_tag(OpCode::DivImm) == 15,
        instruction_opcode(Instruction::Neg) == Some(OpCode::Neg) && opcode_tag(OpCode::Neg) == 16,
        instruction_opcode(Instruction::Inv) == Some(OpCode::Inv) && opcode_tag(OpCode::Inv) == 17,
        instruction_opcode(Instruction::Incr) == Some(OpCode::Incr) && opcode_tag(OpCode::Incr) == 18,
        instruction_opcode(Instruction::Pow2) == Some(OpCode::Pow2) && opcode_tag(OpCode::Pow2) == 19,
        instruction_opcode(Instruction::Exp) == Some(OpCode::Exp) && opcode_tag(OpCode::Exp) == 20,
        forall|x: Felt| #![auto] instruction_opcode(Instruction::ExpImm(x)) == Some(OpCode::ExpImm) && opcode_tag(OpCode::ExpImm) == 21,
        forall|x: u8| #![auto] instruction_opcode(Instruction::ExpBitLength(x)) == Some(OpCode::ExpBitLength) && opcode_tag(OpCode::ExpBitLength) == 22,
        instruction_opcode(Instruction::Not) == Some(OpCode::Not) && opcode_tag(OpCode::Not) == 24,
        instruction_opcode(Instruction::And) == Some(OpCode::And) && opcode_tag(OpCode::And) == 25,
        instruction_opcode(Instruction::Or) == Some(OpCode::Or) && opcode_tag(OpCode::Or) == 26,
        instruction_opcode(Instruction::Xor) == Some(OpCode::Xor) && opcode_tag(OpCode::Xor) == 27,
        instruction_opcode(Instruction::Eq) == Some(OpCode::Eq) && opcode_tag(OpCode::Eq) == 28,
        forall|x: Felt| #![auto] instruction_opcode(Instruction::EqImm(x)) == Some(OpCode::EqImm) && opcode_tag(OpCode::EqImm) == 29,
        instruction_opcode(Instruction::Neq) == Some(OpCode::Neq) && opcode_tag(OpCode::Neq) == 30,
{
}

proof fn lemma_operation_codes_2()
    ensures
        forall|x: Felt| #![auto] instruction_opcode(Instruction::NeqImm(x)) == Some(OpCode::NeqImm) && opcode_tag(OpCode::NeqImm) == 31,
        instruction_opcode(Instruction::Eqw) == Some(OpCode::Eqw) && opcode_tag(OpCode::Eqw) == 32,
        instruction_opcode(Instruction::Lt) == Some(OpCode::Lt) && opcode_tag(OpCode::Lt) == 33,
        instruction_opcode(Instruction::Lte) == Some(OpCode::Lte) && opcode_tag(OpCode::Lte) == 34,
        instruction_opcode(Instruction::Gt) == Some(OpCode::Gt) && opcode_tag(OpCode::Gt) == 35,
        instruction_opcode(Instruction::Gte) == Some(OpCode::Gte) && opcode_tag(OpCode::Gte) == 36,
        instruction_opcode(Instruction::IsOdd) == Some(OpCode::IsOdd) && opcode_tag(OpCode::IsOdd) == 37,
        instruction_opcode(Instruction::Ext2Add) == Some(OpCode::Ext2Add) && opcode_tag(OpCode::Ext2Add) == 38,
        instruction_opcode(Instruction::Ext2Sub) == Some(OpCode::Ext2Sub) && opcode_tag(OpCode::Ext2Sub) == 39,
        instruction_opcode(Instruction::Ext2Mul) == Some(OpCode::Ext2Mul) && opcode_tag(OpCode::Ext2Mul) == 40,
        instruction_opcode(Instruction::Ext2Div) == Some(OpCode::Ext2Div) && opcode_tag(OpCode::Ext2Div) == 41,
        instruction_opcode(Instruction::Ext2Neg) == Some(OpCode::Ext2Neg) && opcode_tag(OpCode::Ext2Neg) == 42,
        instruction_opcode(Instruction::Ext2Inv) == Some(OpCode::Ext2Inv) && opcode_tag(OpCode::Ext2Inv) == 43,
        instruction_opcode(Instruction::U32Test) == Some(OpCode::U32Test) && opcode_tag(OpCode::U32Test) == 44,
        instruction_opcode(Instruction::U32TestW) == Some(OpCode::U32TestW) && opcode_tag(OpCode::U32TestW) == 45,
        instruction_opcode(Instruction::U32Assert) == Some(OpCode::U32Assert) && opcode_tag(OpCode::U32Assert) == 46,
        forall|x: u32| #![auto] instruction_opcode(Instruction::U32AssertWithError(x)) == Some(OpCode::U32AssertWithError) && opcode_tag(OpCode::U32AssertWithError) == 47,
        instruction_opcode(Instruction::U32Assert2) == Some(OpCode::U32Assert2) && opcode_tag(OpCode::U32Assert2) == 48,
        forall|x: u32| #![auto] instruction_opcode(Instruction::U32Assert2WithError(x)) == Some(OpCode::U32Assert2WithError) && opcode_tag(OpCode::U32Assert2WithError) == 49,
        instruction_opcode(Instruction::U32AssertW) == Some(OpCode::U32AssertW) && opcode_tag(OpCode::U32AssertW) == 50,
        forall|x: u32| #![auto] instruction_opcode(Instruction::U32AssertWWithError(x)) == Some(OpCode::U32AssertWWithError) && opcode_tag(OpCode::U32AssertWWithError) == 51,
        instruction_opcode(Instruction::U32Split) == Some(OpCode::U32Split) && opcode_tag(OpCode::U32Split) == 52,
        instruction_opcode(Instruction::U32Cast) == Some(OpCode::U32Cast) && opcode_tag(OpCode::U32Cast) == 53,
        instruction_opcode(Instruction::U32WrappingAdd) == Some(OpCode::U32WrappingAdd) && opcode_tag(OpCode::U32WrappingAdd) == 54,
        forall|x: u32| #![auto] instruction_opcode(Instruction::U32WrappingAddImm(x)) == Some(OpCode::U32WrappingAddImm) && opcode_tag(OpCode::U32WrappingAddImm) == 55,
        instruction_opcode(Instruction::U32OverflowingAdd) == Some(OpCode::U32OverflowingAdd) && opcode_tag(OpCode::U32OverflowingAdd) == 56,
        forall|x: u32| #![auto] instruction_opcode(Instruction::U32OverflowingAddImm(x)) == Some(OpCode::U32OverflowingAddImm) && opcode_tag(OpCode::U32OverflowingAddImm) == 57,
        instruction_opcode(Instruction::U32OverflowingAdd3) == Some(OpCode::U32OverflowingAdd3) && opcode_tag(OpCode::U32OverflowingAdd3) == 58,
        instruction_opcode(Instruction::U32WrappingAdd3) == Some(OpCode::U32WrappingAdd3) && opcode_tag(OpCode::U32WrappingAdd3) == 59,
        instruction_opcode(Instruction::U32WrappingSub) == Some(OpCode::U32WrappingSub) && opcode_tag(OpCode::U32WrappingSub) == 60,
{
}

proof fn lemma_operation_codes_3()
    ensures
        forall|x: u32| #![auto] instruction_opcode(Instruction::U32WrappingSubImm(x)) == Some(OpCode::U32WrappingSubImm) && opcode_tag(OpCode::U32WrappingSubImm) == 61,
        instruction_opcode(Instruction::U32OverflowingSub) == Some(OpCode::U32OverflowingSub) && opcode_tag(OpCode::U32OverflowingSub) == 62,
        forall|x: u32| #![auto] instruction_opcode(Instruction::U32OverflowingSubImm(x)) == Some(OpCode::U32OverflowingSubImm) && opcode_tag(OpCode::U32OverflowingSubImm) == 63,
        instruction_opcode(Instruction::U32WrappingMul) == Some(OpCode::U32WrappingMul) && opcode_tag(OpCode::U32WrappingMul) == 64,
        forall|x: u32| #![auto] instruction_opcode(Instruction::U32WrappingMulImm(x)) == Some(OpCode::U32WrappingMulImm) && opcode_tag(OpCode::U32WrappingMulImm) == 65,
        instruction_opcode(Instruction::U32OverflowingMul) == Some(OpCode::U32OverflowingMul) && opcode_tag(OpCode::U32OverflowingMul) == 66,
        forall|x: u32| #![auto] instruction_opcode(Instruction::U32OverflowingMulImm(x)) == Some(OpCode::U32OverflowingMulImm) && opcode_tag(OpCode::U32OverflowingMulImm) == 67,
        instruction_opcode(Instruction::U32OverflowingMadd) == Some(OpCode::U32OverflowingMadd) && opcode_tag(OpCode::U32OverflowingMadd) == 68,
        instruction_opcode(Instruction::U32WrappingMadd) == Some(OpCode::U32WrappingMadd) && opcode_tag(OpCode::U32WrappingMadd) == 69,
        instruction_opcode(Instruction::U32Div) == Some(OpCode::U32Div) && opcode_tag(OpCode::U32Div) == 70,
        forall|x: u32| #![auto] instruction_opcode(Instruction::U32DivImm(x)) == Some(OpCode::U32DivImm) && opcode_tag(OpCode::U32DivImm) == 71,
        instruction_opcode(Instruction::U32Mod) == Some(OpCode::U32Mod) && opcode_tag(OpCode::U32Mod) == 72,
        forall|x: u32| #![auto] instruction_opcode(Instruction::U32ModImm(x)) == Some(OpCode::U32ModImm) && opcode_tag(OpCode::U32ModImm) == 73,
        instruction_opcode(Instruction::U32DivMod) == Some(OpCode::U32DivMod) && opcode_tag(OpCode::U32DivMod) == 74,
        forall|x: u32| #![auto] instruction_opcode(Instruction::U32DivModImm(x)) == Some(OpCode::U32DivModImm) && opcode_tag(OpCode::U32DivModImm) == 75,
        instruction_opcode(Instruction::U32And) == Some(OpCode::U32And) && opcode_tag(OpCode::U32And) == 76,
        instruction_opcode(Instruction::U32Or) == Some(OpCode::U32Or) && opcode_tag(OpCode::U32Or) == 77,
        instruction_opcode(Instruction::U32Xor) == Some(OpCode::U32Xor) && opcode_tag(OpCode::U32Xor) == 78,
        instruction_opcode(Instruction::U32Not) == Some(OpCode::U32Not) && opcode_tag(OpCode::U32Not) == 79,
        instruction_opcode(Instruction::U32Shr) == Some(OpCode::U32Shr) && opcode_tag(OpCode::U32Shr) == 80,
        forall|x: u8| #![auto] instruction_opcode(Instruction::U32ShrImm(x)) == Some(OpCode::U32ShrImm) && opcode_tag(OpCode::U32ShrImm) == 81,
        instruction_opcode(Instruction::U32Shl) == Some(OpCode::U32Shl) && opcode_tag(OpCode::U32Shl) == 82,
        forall|x: u8| #![auto] instruction_opcode(Instruction::U32ShlImm(x)) == Some(OpCode::U32ShlImm) && opcode_tag(OpCode::U32ShlImm) == 83,
        instruction_opcode(Instruction::U32Rotr) == Some(OpCode::U32Rotr) && opcode_tag(OpCode::U32Rotr) == 84,
        forall|x: u8| #![auto] instruction_opcode(Instruction::U32RotrImm(x)) == Some(OpCode::U32RotrImm) && opcode_tag(OpCode::U32RotrImm) == 85,
        instruction_opcode(Instruction::U32Rotl) == Some(OpCode::U32Rotl) && opcode_tag(OpCode::U32Rotl) == 86,
        forall|x: u8| #![auto] instruction_opcode(Instruction::U32RotlImm(x)) == Some(OpCode::U32RotlImm) && opcode_tag(OpCode::U32RotlImm) == 87,
        instruction_opcode(Instruction::U32Popcnt) == Some(OpCode::U32Popcnt) && opcode_tag(OpCode::U32Popcnt) == 88,
        instruction_opcode(Instruction::U32Lt) == Some(OpCode::U32Lt) && opcode_tag(OpCode::U32Lt) == 93,
        instruction_opcode(Instruction::U32Lte) == Some(OpCode::U32Lte) && opcode_tag(OpCode::U32Lte) == 94,
{
}

proof fn lemma_operation_codes_4()
    ensures
        instruction_opcode(Instruction::U32Gt) == Some(OpCode::U32Gt) && opcode_tag(OpCode::U32Gt) == 95,
        instruction_opcode(Instruction::U32Gte) == Some(OpCode::U32Gte) && opcode_tag(OpCode::U32Gte) == 96,
        instruction_opcode(Instruction::U32Min) == Some(OpCode::U32Min) && opcode_tag(OpCode::U32Min) == 97,
        instruction_opcode(Instruction::U32Max) == Some(OpCode::U32Max) && opcode_tag(OpCode::U32Max) == 98,
        instruction_opcode(Instruction::Drop) == Some(OpCode::Drop) && opcode_tag(OpCode::Drop) == 99,
        instruction_opcode(Instruction::DropW) == Some(OpCode::DropW) && opcode_tag(OpCode::DropW) == 100,
        instruction_opcode(Instruction::PadW) == Some(OpCode::PadW) && opcode_tag(OpCode::PadW) == 101,
        instruction_opcode(Instruction::Dup0) == Some(OpCode::Dup0) && opcode_tag(OpCode::Dup0) == 102,
        instruction_opcode(Instruction::Dup1) == Some(OpCode::Dup1) && opcode_tag(OpCode::Dup1) == 103,
        instruction_opcode(Instruction::Dup2) == Some(OpCode::Dup2) && opcode_tag(OpCode::Dup2) == 104,
        instruction_opcode(Instruction::Dup3) == Some(OpCode::Dup3) && opcode_tag(OpCode::Dup3) == 105,
        instruction_opcode(Instruction::Dup4) == Some(OpCode::Dup4) && opcode_tag(OpCode::Dup4) == 106,
        instruction_opcode(Instruction::Dup5) == Some(OpCode::Dup5) && opcode_tag(OpCode::Dup5) == 107,
        instruction_opcode(Instruction::Dup6) == Some(OpCode::Dup6) && opcode_tag(OpCode::Dup6) == 108,
        instruction_opcode(Instruction::Dup7) == Some(OpCode::Dup7) && opcode_tag(OpCode::Dup7) == 109,
        instruction_opcode(Instruction::Dup8) == Some(OpCode::Dup8) && opcode_tag(OpCode::Dup8) == 110,
        instruction_opcode(Instruction::Dup9) == Some(OpCode::Dup9) && opcode_tag(OpCode::Dup9) == 111,
        instruction_opcode(Instruction::Dup10) == Some(OpCode::Dup10) && opcode_tag(OpCode::Dup10) == 112,
        instruction_opcode(Instruction::Dup11) == Some(OpCode::Dup11) && opcode_tag(OpCode::Dup11) == 113,
        instruction_opcode(Instruction::Dup12) == Some(OpCode::Dup12) && opcode_tag(OpCode::Dup12) == 114,
        instruction_opcode(Instruction::Dup13) == Some(OpCode::Dup13) && opcode_tag(OpCode::Dup13) == 115,
        instruction_opcode(Instruction::Dup14) == Some(OpCode::Dup14) && opcode_tag(OpCode::Dup14) == 116,
        instruction_opcode(Instruction::Dup15) == Some(OpCode::Dup15) && opcode_tag(OpCode::Dup15) == 117,
        instruction_opcode(Instruction::DupW0) == Some(OpCode::DupW0) && opcode_tag(OpCode::DupW0) == 118,
        instruction_opcode(Instruction::DupW1) == Some(OpCode::DupW1) && opcode_tag(OpCode::DupW1) == 119,
        instruction_opcode(Instruction::DupW2) == Some(OpCode::DupW2) && opcode_tag(OpCode::DupW2) == 120,
        instruction_opcode(Instruction::DupW3) == Some(OpCode::DupW3) && opcode_tag(OpCode::DupW3) == 121,
        instruction_opcode(Instruction::Swap1) == Some(OpCode::Swap1) && opcode_tag(OpCode::Swap1) == 122,
        instruction_opcode(Instruction::Swap2) == Some(OpCode::Swap2) && opcode_tag(OpCode::Swap2) == 123,
        instruction_opcode(Instruction::Swap3) == Some(OpCode::Swap3) && opcode_tag(OpCode::Swap3) == 124,
{
}

proof fn lemma_operation_codes_5()
    ensures
        instruction_opcode(Instruction::Swap4) == Some(OpCode::Swap4) && opcode_tag(OpCode::Swap4) == 125,
        instruction_opcode(Instruction::Swap5) == Some(OpCode::Swap5) && opcode_tag(OpCode::Swap5) == 126,
        instruction_opcode(Instruction::Swap6) == Some(OpCode::Swap6) && opcode_tag(OpCode::Swap6) == 127,
        instruction_opcode(Instruction::Swap7) == Some(OpCode::Swap7) && opcode_tag(OpCode::Swap7) == 128,
        instruction_opcode(Instruction::Swap8) == Some(OpCode::Swap8) && opcode_tag(OpCode::Swap8) == 129,
        instruction_opcode(Instruction::Swap9) == Some(OpCode::Swap9) && opcode_tag(OpCode::Swap9) == 130,
        instruction_opcode(Instruction::Swap10) == Some(OpCode::Swap10) && opcode_tag(OpCode::Swap10) == 131,
        instruction_opcode(Instruction::Swap11) == Some(OpCode::Swap11) && opcode_tag(OpCode::Swap11) == 132,
        instruction_opcode(Instruction::Swap12) == Some(OpCode::Swap12) && opcode_tag(OpCode::Swap12) == 133,
        instruction_opcode(Instruction::Swap13) == Some(OpCode::Swap13) && opcode_tag(OpCode::Swap13) == 134,
        instruction_opcode(Instruction::Swap14) == Some(OpCode::Swap14) && opcode_tag(OpCode::Swap14) == 135,
        instruction_opcode(Instruction::Swap15) == Some(OpCode::Swap15) && opcode_tag(OpCode::Swap15) == 136,
        instruction_opcode(Instruction::SwapW1) == Some(OpCode::SwapW1) && opcode_tag(OpCode::SwapW1) == 137,
        instruction_opcode(Instruction::SwapW2) == Some(OpCode::SwapW2) && opcode_tag(OpCode::SwapW2) == 138,
        instruction_opcode(Instruction::SwapW3) == Some(OpCode::SwapW3) && opcode_tag(OpCode::SwapW3) == 139,
        instruction_opcode(Instruction::SwapDw) == Some(OpCode::SwapDW) && opcode_tag(OpCode::SwapDW) == 140,
        instruction_opcode(Instruction::MovUp2) == Some(OpCode::MovUp2) && opcode_tag(OpCode::MovUp2) == 141,
        instruction_opcode(Instruction::MovUp3) == Some(OpCode::MovUp3) && opcode_tag(OpCode::MovUp3) == 142,
        instruction_opcode(Instruction::MovUp4) == Some(OpCode::MovUp4) && opcode_tag(OpCode::MovUp4) == 143,
        instruction_opcode(Instruction::MovUp5) == Some(OpCode::MovUp5) && opcode_tag(OpCode::MovUp5) == 144,
        instruction_opcode(Instruction::MovUp6) == Some(OpCode::MovUp6) && opcode_tag(OpCode::MovUp6) == 145,
        instruction_opcode(Instruction::MovUp7) == Some(OpCode::MovUp7) && opcode_tag(OpCode::MovUp7) == 146,
        instruction_opcode(Instruction::MovUp8) == Some(OpCode::MovUp8) && opcode_tag(OpCode::MovUp8) == 147,
        instruction_opcode(Instruction::MovUp9) == Some(OpCode::MovUp9) && opcode_tag(OpCode::MovUp9) == 148,
        instruction_opcode(Instruction::MovUp10) == Some(OpCode::MovUp10) && opcode_tag(OpCode::MovUp10) == 149,
        instruction_opcode(Instruction::MovUp11) == Some(OpCode::MovUp11) && opcode_tag(OpCode::MovUp11) == 150,
        instruction_opcode(Instruction::MovUp12) == Some(OpCode::MovUp12) && opcode_tag(OpCode::MovUp12) == 151,
        instruction_opcode(Instruction::MovUp13) == Some(OpCode::MovUp13) && opcode_tag(OpCode::MovUp13) == 152,
        instruction_opcode(Instruction::MovUp14) == Some(OpCode::MovUp14) && opcode_tag(OpCode::MovUp14) == 153,
        instruction_opcode(Instruction::MovUp15) == Some(OpCode::MovUp15) && opcode_tag(OpCode::MovUp15) == 154,
{
}

proof fn lemma_operation_codes_6()
    ensures
        instruction_opcode(Instruction::MovUpW2) == Some(OpCode::MovUpW2) && opcode_tag(OpCode::MovUpW2) == 155,
        instruction_opcode(Instruction::MovUpW3) == Some(OpCode::MovUpW3) && opcode_tag(OpCode::MovUpW3) == 156,
        instruction_opcode(Instruction::MovDn2) == Some(OpCode::MovDn2) && opcode_tag(OpCode::MovDn2) == 157,
        instruction_opcode(Instruction::MovDn3) == Some(OpCode::MovDn3) && opcode_tag(OpCode::MovDn3) == 158,
        instruction_opcode(Instruction::MovDn4) == Some(OpCode::MovDn4) && opcode_tag(OpCode::MovDn4) == 159,
        instruction_opcode(Instruction::MovDn5) == Some(OpCode::MovDn5) && opcode_tag(OpCode::MovDn5) == 160,
        instruction_opcode(Instruction::MovDn6) == Some(OpCode::MovDn6) && opcode_tag(OpCode::MovDn6) == 161,
        instruction_opcode(Instruction::MovDn7) == Some(OpCode::MovDn7) && opcode_tag(OpCode::MovDn7) == 162,
        instruction_opcode(Instruction::MovDn8) == Some(OpCode::MovDn8) && opcode_tag(OpCode::MovDn8) == 163,
        instruction_opcode(Instruction::MovDn9) == Some(OpCode::MovDn9) && opcode_tag(OpCode::MovDn9) == 164,
        instruction_opcode(Instruction::MovDn10) == Some(OpCode::MovDn10) && opcode_tag(OpCode::MovDn10) == 165,
        instruction_opcode(Instruction::MovDn11) == Some(OpCode::MovDn11) && opcode_tag(OpCode::MovDn11) == 166,
        instruction_opcode(Instruction::MovDn12) == Some(OpCode::MovDn12) && opcode_tag(OpCode::MovDn12) == 167,
        instruction_opcode(Instruction::MovDn13) == Some(OpCode::MovDn13) && opcode_tag(OpCode::MovDn13) == 168,
        instruction_opcode(Instruction::MovDn14) == Some(OpCode::MovDn14) && opcode_tag(OpCode::MovDn14) == 169,
        instruction_opcode(Instruction::MovDn15) == Some(OpCode::MovDn15) && opcode_tag(OpCode::MovDn15) == 170,
        instruction_opcode(Instruction::MovDnW2) == Some(OpCode::MovDnW2) && opcode_tag(OpCode::MovDnW2) == 171,
        instruction_opcode(Instruction::MovDnW3) == Some(OpCode::MovDnW3) && opcode_tag(OpCode::MovDnW3) == 172,
        instruction_opcode(Instruction::CSwap) == Some(OpCode::CSwap) && opcode_tag(OpCode::CSwap) == 173,
        instruction_opcode(Instruction::CSwapW) == Some(OpCode::CSwapW) && opcode_tag(OpCode::CSwapW) == 174,
        instruction_opcode(Instruction::CDrop) == Some(OpCode::CDrop) && opcode_tag(OpCode::CDrop) == 175,
        instruction_opcode(Instruction::CDropW) == Some(OpCode::CDropW) && opcode_tag(OpCode::CDropW) == 176,
        forall|x: u8| #![auto] instruction_opcode(Instruction::PushU8(x)) == Some(OpCode::PushU8) && opcode_tag(OpCode::PushU8) == 177,
        forall|x: u16| #![auto] instruction_opcode(Instruction::PushU16(x)) == Some(OpCode::PushU16) && opcode_tag(OpCode::PushU16) == 178,
        forall|x: u32| #![auto] instruction_opcode(Instruction::PushU32(x)) == Some(OpCode::PushU32) && opcode_tag(OpCode::PushU32) == 179,
        forall|x: Felt| #![auto] instruction_opcode(Instruction::PushFelt(x)) == Some(OpCode::PushFelt) && opcode_tag(OpCode::PushFelt) == 180,
        forall|x: [Felt; 4]| #![auto] instruction_opcode(Instruction::PushWord(x)) == Some(OpCode::PushWord) && opcode_tag(OpCode::PushWord) == 181,
        forall|x: u16| #![auto] instruction_opcode(Instruction::Locaddr(x)) == Some(OpCode::Locaddr) && opcode_tag(OpCode::Locaddr) == 186,
        instruction_opcode(Instruction::Sdepth) == Some(OpCode::Sdepth) && opcode_tag(OpCode::Sdepth) == 187,
        instruction_opcode(Instruction::Caller) == Some(OpCode::Caller) && opcode_tag(OpCode::Caller) == 188,
{
}

proof fn lemma_operation_codes_7()
    ensures
        instruction_opcode(Instruction::Clk) == Some(OpCode::Clk) && opcode_tag(OpCode::Clk) == 189,
        instruction_opcode(Instruction::MemLoad) == Some(OpCode::MemLoad) && opcode_tag(OpCode::MemLoad) == 190,
        forall|x: u32| #![auto] instruction_opcode(Instruction::MemLoadImm(x)) == Some(OpCode::MemLoadImm) && opcode_tag(OpCode::MemLoadImm) == 191,
        instruction_opcode(Instruction::MemLoadW) == Some(OpCode::MemLoadW) && opcode_tag(OpCode::MemLoadW) == 192,
        forall|x: u32| #![auto] instruction_opcode(Instruction::MemLoadWImm(x)) == Some(OpCode::MemLoadWImm) && opcode_tag(OpCode::MemLoadWImm) == 193,
        forall|x: u16| #![auto] instruction_opcode(Instruction::LocLoad(x)) == Some(OpCode::LocLoad) && opcode_tag(OpCode::LocLoad) == 194,
        forall|x: u16| #![auto] instruction_opcode(Instruction::LocLoadW(x)) == Some(OpCode::LocLoadW) && opcode_tag(OpCode::LocLoadW) == 195,
        instruction_opcode(Instruction::MemStore) == Some(OpCode::MemStore) && opcode_tag(OpCode::MemStore) == 196,
        forall|x: u32| #![auto] instruction_opcode(Instruction::MemStoreImm(x)) == Some(OpCode::MemStoreImm) && opcode_tag(OpCode::MemStoreImm) == 197,
        forall|x: u16| #![auto] instruction_opcode(Instruction::LocStore(x)) == Some(OpCode::LocStore) && opcode_tag(OpCode::LocStore) == 198,
        instruction_opcode(Instruction::MemStoreW) == Some(OpCode::MemStoreW) && opcode_tag(OpCode::MemStoreW) == 199,
        forall|x: u32| #![auto] instruction_opcode(Instruction::MemStoreWImm(x)) == Some(OpCode::MemStoreWImm) && opcode_tag(OpCode::MemStoreWImm) == 200,
        forall|x: u16| #![auto] instruction_opcode(Instruction::LocStoreW(x)) == Some(OpCode::LocStoreW) && opcode_tag(OpCode::LocStoreW) == 201,
        instruction_opcode(Instruction::MemStream) == Some(OpCode::MemStream) && opcode_tag(OpCode::MemStream) == 202,
        instruction_opcode(Instruction::AdvPipe) == Some(OpCode::AdvPipe) && opcode_tag(OpCode::AdvPipe) == 203,
        forall|x: u8| #![auto] instruction_opcode(Instruction::AdvPush(x)) == Some(OpCode::AdvPush) && opcode_tag(OpCode::AdvPush) == 204,
        instruction_opcode(Instruction::AdvLoadW) == Some(OpCode::AdvLoadW) && opcode_tag(OpCode::AdvLoadW) == 205,
        instruction_opcode(Instruction::Hash) == Some(OpCode::Hash) && opcode_tag(OpCode::Hash) == 207,
        instruction_opcode(Instruction::HMerge) == Some(OpCode::HMerge) && opcode_tag(OpCode::HMerge) == 208,
        instruction_opcode(Instruction::HPerm) == Some(OpCode::HPerm) && opcode_tag(OpCode::HPerm) == 209,
        instruction_opcode(Instruction::MTreeGet) == Some(OpCode::MTreeGet) && opcode_tag(OpCode::MTreeGet) == 210,
        instruction_opcode(Instruction::MTreeSet) == Some(OpCode::MTreeSet) && opcode_tag(OpCode::MTreeSet) == 211,
        instruction_opcode(Instruction::MTreeMerge) == Some(OpCode::MTreeMerge) && opcode_tag(OpCode::MTreeMerge) == 212,
        instruction_opcode(Instruction::MTreeVerify) == Some(OpCode::MTreeVerify) && opcode_tag(OpCode::MTreeVerify) == 213,
        instruction_opcode(Instruction::FriExt2Fold4) == Some(OpCode::FriExt2Fold4) && opcode_tag(OpCode::FriExt2Fold4) == 214,
        instruction_opcode(Instruction::RCombBase) == Some(OpCode::RCombBase) && opcode_tag(OpCode::RCombBase) == 215,
        instruction_opcode(Instruction::DynExec) == Some(OpCode::DynExec) && opcode_tag(OpCode::DynExec) == 222,
        instruction_opcode(Instruction::DynCall) == Some(OpCode::DynCall) && opcode_tag(OpCode::DynCall) == 223,
        forall|x: u32| #![auto] instruction_opcode(Instruction::Emit(x)) == Some(OpCode::Emit) && opcode_tag(OpCode::Emit) == 227,
        forall|x: u32| #![auto] instruction_opcode(Instruction::Trace(x)) == Some(OpCode::Trace) && opcode_tag(OpCode::Trace) == 228,
{
}

proof fn lemma_operation_codes_8()
    ensures
        forall|x: Felt| #![auto] instruction_opcode(Instruction::Push(x)) == Some(OpCode::PushFelt),
        forall|d: RpoDigest| #![auto] instruction_opcode(Instruction::Call(InvocationTarget::MastRoot(d))) == Some(OpCode::CallMastRoot) && opcode_tag(OpCode::CallMastRoot) == 219,
{
}

/// Each instruction with a binary form is written with the operation code of the same name, whose
/// byte is the instruction's place in the list of operation codes (`assert` 0, `assert.err` 1,
/// `assert_eq` 2, ...); a `push` of a field element is written as `push.felt`, and a `call` of a
/// MAST root with the code for calls by root.
pub proof fn lemma_operation_codes()
    ensures
        instruction_opcode(Instruction::Assert) == Some(OpCode::Assert) && opcode_tag(OpCode::Assert) == 0,
        forall|x: u32| #![auto] instruction_opcode(Instruction::AssertWithError(x)) == Some(OpCode::AssertWithError) && opcode_tag(OpCode::AssertWithError) == 1,
        instruction_opcode(Instruction::AssertEq) == Some(OpCode::AssertEq) && opcode_tag(OpCode::AssertEq) == 2,
        forall|x: u32| #![auto] instruction_opcode(Instruction::AssertEqWithError(x)) == Some(OpCode::AssertEqWithError) && opcode_tag(OpCode::AssertEqWithError) == 3,
        instruction_opcode(Instruction::AssertEqw) == Some(OpCode::AssertEqw) && opcode_tag(OpCode::AssertEqw) == 4,
        forall|x: u32| #![auto] instruction_opcode(Instruction::AssertEqwWithError(x)) == Some(OpCode::AssertEqwWithError) && opcode_tag(OpCode::AssertEqwWithError) == 5,
        instruction_opcode(Instruction::Assertz) == Some(OpCode::Assertz) && opcode_tag(OpCode::Assertz) == 6,
        forall|x: u32| #![auto] instruction_opcode(Instruction::AssertzWithError(x)) == Some(OpCode::AssertzWithError) && opcode_tag(OpCode::AssertzWithError) == 7,
        instruction_opcode(Instruction::Add) == Some(OpCode::Add) && opcode_tag(OpCode::Add) == 8,
        forall|x: Felt| #![auto] instruction_opcode(Instruction::AddImm(x)) == Some(OpCode::AddImm) && opcode_tag(OpCode::AddImm) == 9,
        instruction_opcode(Instruction::Sub) == Some(OpCode::Sub) && opcode_tag(OpCode::Sub) == 10,
        forall|x: Felt| #![auto] instruction_opcode(Instruction::SubImm(x)) == Some(OpCode::SubImm) && opcode_tag(OpCode::SubImm) == 11,
        instruction_opcode(Instruction::Mul) == Some(OpCode::Mul) && opcode_tag(OpCode::Mul) == 12,
        forall|x: Felt| #![auto] instruction_opcode(Instruction::MulImm(x)) == Some(OpCode::MulImm) && opcode_tag(OpCode::MulImm) == 13,
        instruction_opcode(Instruction::Div) == Some(OpCode::Div) && opcode_tag(OpCode::Div) == 14,
        forall|x: Felt| #![auto] instruction_opcode(Instruction::DivImm(x)) == Some(OpCode::DivImm) && opcode_tag(OpCode::DivImm) == 15,
        instruction_opcode(Instruction::Neg) == Some(OpCode::Neg) && opcode_tag(OpCode::Neg) == 16,
        instruction_opcode(Instruction::Inv) == Some(OpCode::Inv) && opcode_tag(OpCode::Inv) == 17,
        instruction_opcode(Instruction::Incr) == Some(OpCode::Incr) && opcode_tag(OpCode::Incr) == 18,
        instruction_opcode(Instruction::Pow2) == Some(OpCode::Pow2) && opcode_tag(OpCode::Pow2) == 19,
        instruction_opcode(Instruction::Exp) == Some(OpCode::Exp) && opcode_tag(OpCode::Exp) == 20,
        forall|x: Felt| #![auto] instruction_opcode(Instruction::ExpImm(x)) == Some(OpCode::ExpImm) && opcode_tag(OpCode::ExpImm) == 21,
        forall|x: u8| #![auto] instruction_opcode(Instruction::ExpBitLength(x)) == Some(OpCode::ExpBitLength) && opcode_tag(OpCode::ExpBitLength) == 22,
        instruction_opcode(Instruction::Not) == Some(OpCode::Not) && opcode_tag(OpCode::Not) == 24,
        instruction_opcode(Instruction::And) == Some(OpCode::And) && opcode_tag(OpCode::And) == 25,
        instruction_opcode(Instruction::Or) == Some(OpCode::Or) && opcode_tag(OpCode::Or) == 26,
        instruction_opcode(Instruction::Xor) == Some(OpCode::Xor) && opcode_tag(OpCode::Xor) == 27,
        instruction_opcode(Instruction::Eq) == Some(OpCode::Eq) && opcode_tag(OpCode::Eq) == 28,
        forall|x: Felt| #![auto] instruction_opcode(Instruction::EqImm(x)) == Some(OpCode::EqImm) && opcode_tag(OpCode::EqImm) == 29,
        instruction_opcode(Instruction::Neq) == Some(OpCode::Neq) && opcode_tag(OpCode::Neq) == 30,
        forall|x: Felt| #![auto] instruction_opcode(Instruction::NeqImm(x)) == Some(OpCode::NeqImm) && opcode_tag(OpCode::NeqImm) == 31,
        instruction_opcode(Instruction::Eqw) == Some(OpCode::Eqw) && opcode_tag(OpCode::Eqw) == 32,
        instruction_opcode(Instruction::Lt) == Some(OpCode::Lt) && opcode_tag(OpCode::Lt) == 33,
        instruction_opcode(Instruction::Lte) == Some(OpCode::Lte) && opcode_tag(OpCode::Lte) == 34,
        instruction_opcode(Instruction::Gt) == Some(OpCode::Gt) && opcode_tag(OpCode::Gt) == 35,
        instruction_opcode(Instruction::Gte) == Some(OpCode::Gte) && opcode_tag(OpCode::Gte) == 36,
        instruction_opcode(Instruction::IsOdd) == Some(OpCode::IsOdd) && opcode_tag(OpCode::IsOdd) == 37,
        instruction_opcode(Instruction::Ext2Add) == Some(OpCode::Ext2Add) && opcode_tag(OpCode::Ext2Add) == 38,
        instruction_opcode(Instruction::Ext2Sub) == Some(OpCode::Ext2Sub) && opcode_tag(OpCode::Ext2Sub) == 39,
        instruction_opcode(Instruction::Ext2Mul) == Some(OpCode::Ext2Mul) && opcode_tag(OpCode::Ext2Mul) == 40,
        instruction_opcode(Instruction::Ext2Div) == Some(OpCode::Ext2Div) && opcode_tag(OpCode::Ext2Div) == 41,
        instruction_opcode(Instruction::Ext2Neg) == Some(OpCode::Ext2Neg) && opcode_tag(OpCode::Ext2Neg) == 42,
        instruction_opcode(Instruction::Ext2Inv) == Some(OpCode::Ext2Inv) && opcode_tag(OpCode::Ext2Inv) == 43,
        instruction_opcode(Instruction::U32Test) == Some(OpCode::U32Test) && opcode_tag(OpCode::U32Test) == 44,
        instruction_opcode(Instruction::U32TestW) == Some(OpCode::U32TestW) && opcode_tag(OpCode::U32TestW) == 45,
        instruction_opcode(Instruction::U32Assert) == Some(OpCode::U32Assert) && opcode_tag(OpCode::U32Assert) == 46,
        forall|x: u32| #![auto] instruction_opcode(Instruction::U32AssertWithError(x)) == Some(OpCode::U32AssertWithError) && opcode_tag(OpCode::U32AssertWithError) == 47,
        instruction_opcode(Instruction::U32Assert2) == Some(OpCode::U32Assert2) && opcode_tag(OpCode::U32Assert2) == 48,
        forall|x: u32| #![auto] instruction_opcode(Instruction::U32Assert2WithError(x)) == Some(OpCode::U32Assert2WithError) && opcode_tag(OpCode::U32Assert2WithError) == 49,
        instruction_opcode(Instruction::U32AssertW) == Some(OpCode::U32AssertW) && opcode_tag(OpCode::U32AssertW) == 50,
        forall|x: u32| #![auto] instruction_opcode(Instruction::U32AssertWWithError(x)) == Some(OpCode::U32AssertWWithError) && opcode_tag(OpCode::U32AssertWWithError) == 51,
        instruction_opcode(Instruction::U32Split) == Some(OpCode::U32Split) && opcode_tag(OpCode::U32Split) == 52,
        instruction_opcode(Instruction::U32Cast) == Some(OpCode::U32Cast) && opcode_tag(OpCode::U32Cast) == 53,
        instruction_opcode(Instruction::U32WrappingAdd) == Some(OpCode::U32WrappingAdd) && opcode_tag(OpCode::U32WrappingAdd) == 54,
        forall|x: u32| #![auto] instruction_opcode(Instruction::U32WrappingAddImm(x)) == Some(OpCode::U32WrappingAddImm) && opcode_tag(OpCode::U32WrappingAddImm) == 55,
        instruction_opcode(Instruction::U32OverflowingAdd) == Some(OpCode::U32OverflowingAdd) && opcode_tag(OpCode::U32OverflowingAdd) == 56,
        forall|x: u32| #![auto] instruction_opcode(Instruction::U32OverflowingAddImm(x)) == Some(OpCode::U32OverflowingAddImm) && opcode_tag(OpCode::U32OverflowingAddImm) == 57,
        instruction_opcode(Instruction::U32OverflowingAdd3) == Some(OpCode::U32OverflowingAdd3) && opcode_tag(OpCode::U32OverflowingAdd3) == 58,
        instruction_opcode(Instruction::U32WrappingAdd3) == Some(OpCode::U32WrappingAdd3) && opcode_tag(OpCode::U32WrappingAdd3) == 59,
        instruction_opcode(Instruction::U32WrappingSub) == Some(OpCode::U32WrappingSub) && opcode_tag(OpCode::U32WrappingSub) == 60,
        forall|x: u32| #![auto] instruction_opcode(Instruction::U32WrappingSubImm(x)) == Some(OpCode::U32WrappingSubImm) && opcode_tag(OpCode::U32WrappingSubImm) == 61,
        instruction_opcode(Instruction::U32OverflowingSub) == Some(OpCode::U32OverflowingSub) && opcode_tag(OpCode::U32OverflowingSub) == 62,
        forall|x: u32| #![auto] instruction_opcode(Instruction::U32OverflowingSubImm(x)) == Some(OpCode::U32OverflowingSubImm) && opcode_tag(OpCode::U32OverflowingSubImm) == 63,
        instruction_opcode(Instruction::U32WrappingMul) == Some(OpCode::U32WrappingMul) && opcode_tag(OpCode::U32WrappingMul) == 64,
        forall|x: u32| #![auto] instruction_opcode(Instruction::U32WrappingMulImm(x)) == Some(OpCode::U32WrappingMulImm) && opcode_tag(OpCode::U32WrappingMulImm) == 65,
        instruction_opcode(Instruction::U32OverflowingMul) == Some(OpCode::U32OverflowingMul) && opcode_tag(OpCode::U32OverflowingMul) == 66,
        forall|x: u32| #![auto] instruction_opcode(Instruction::U32OverflowingMulImm(x)) == Some(OpCode::U32OverflowingMulImm) && opcode_tag(OpCode::U32OverflowingMulImm) == 67,
        instruction_opcode(Instruction::U32OverflowingMadd) == Some(OpCode::U32OverflowingMadd) && opcode_tag(OpCode::U32OverflowingMadd) == 68,
        instruction_opcode(Instruction::U32WrappingMadd) == Some(OpCode::U32WrappingMadd) && opcode_tag(OpCode::U32WrappingMadd) == 69,
        instruction_opcode(Instruction::U32Div) == Some(OpCode::U32Div) && opcode_tag(OpCode::U32Div) == 70,
        forall|x: u32| #![auto] instruction_opcode(Instruction::U32DivImm(x)) == Some(OpCode::U32DivImm) && opcode_tag(OpCode::U32DivImm) == 71,
        instruction_opcode(Instruction::U32Mod) == Some(OpCode::U32Mod) && opcode_tag(OpCode::U32Mod) == 72,
        forall|x: u32| #![auto] instruction_opcode(Instruction::U32ModImm(x)) == Some(OpCode::U32ModImm) && opcode_tag(OpCode::U32ModImm) == 73,
        instruction_opcode(Instruction::U32DivMod) == Some(OpCode::U32DivMod) && opcode_tag(OpCode::U32DivMod) == 74,
        forall|x: u32| #![auto] instruction_opcode(Instruction::U32DivModImm(x)) == Some(OpCode::U32DivModImm) && opcode_tag(OpCode::U32DivModImm) == 75,
        instruction_opcode(Instruction::U32And) == Some(OpCode::U32And) && opcode_tag(OpCode::U32And) == 76,
        instruction_opcode(Instruction::U32Or) == Some(OpCode::U32Or) && opcode_tag(OpCode::U32Or) == 77,
        instruction_opcode(Instruction::U32Xor) == Some(OpCode::U32Xor) && opcode_tag(OpCode::U32Xor) == 78,
        instruction_opcode(Instruction::U32Not) == Some(OpCode::U32Not) && opcode_tag(OpCode::U32Not) == 79,
        instruction_opcode(Instruction::U32Shr) == Some(OpCode::U32Shr) && opcode_tag(OpCode::U32Shr) == 80,
        forall|x: u8| #![auto] instruction_opcode(Instruction::U32ShrImm(x)) == Some(OpCode::U32ShrImm) && opcode_tag(OpCode::U32ShrImm) == 81,
        instruction_opcode(Instruction::U32Shl) == Some(OpCode::U32Shl) && opcode_tag(OpCode::U32Shl) == 82,
        forall|x: u8| #![auto] instruction_opcode(Instruction::U32ShlImm(x)) == Some(OpCode::U32ShlImm) && opcode_tag(OpCode::U32ShlImm) == 83,
        instruction_opcode(Instruction::U32Rotr) == Some(OpCode::U32Rotr) && opcode_tag(OpCode::U32Rotr) == 84,
        forall|x: u8| #![auto] instruction_opcode(Instruction::U32RotrImm(x)) == Some(OpCode::U32RotrImm) && opcode_tag(OpCode::U32RotrImm) == 85,
        instruction_opcode(Instruction::U32Rotl) == Some(OpCode::U32Rotl) && opcode_tag(OpCode::U32Rotl) == 86,
        forall|x: u8| #![auto] instruction_opcode(Instruction::U32RotlImm(x)) == Some(OpCode::U32RotlImm) && opcode_tag(OpCode::U32RotlImm) == 87,
        instruction_opcode(Instruction::U32Popcnt) == Some(OpCode::U32Popcnt) && opcode_tag(OpCode::U32Popcnt) == 88,
        instruction_opcode(Instruction::U32Lt) == Some(OpCode::U32Lt) && opcode_tag(OpCode::U32Lt) == 93,
        instruction_opcode(Instruction::U32Lte) == Some(OpCode::U32Lte) && opcode_tag(OpCode::U32Lte) == 94,
        instruction_opcode(Instruction::U32Gt) == Some(OpCode::U32Gt) && opcode_tag(OpCode::U32Gt) == 95,
        instruction_opcode(Instruction::U32Gte) == Some(OpCode::U32Gte) && opcode_tag(OpCode::U32Gte) == 96,
        instruction_opcode(Instruction::U32Min) == Some(OpCode::U32Min) && opcode_tag(OpCode::U32Min) == 97,
        instruction_opcode(Instruction::U32Max) == Some(OpCode::U32Max) && opcode_tag(OpCode::U32Max) == 98,
        instruction_opcode(Instruction::Drop) == Some(OpCode::Drop) && opcode_tag(OpCode::Drop) == 99,
        instruction_opcode(Instruction::DropW) == Some(OpCode::DropW) && opcode_tag(OpCode::DropW) == 100,
        instruction_opcode(Instruction::PadW) == Some(OpCode::PadW) && opcode_tag(OpCode::PadW) == 101,
        instruction_opcode(Instruction::Dup0) == Some(OpCode::Dup0) && opcode_tag(OpCode::Dup0) == 102,
        instruction_opcode(Instruction::Dup1) == Some(OpCode::Dup1) && opcode_tag(OpCode::Dup1) == 103,
        instruction_opcode(Instruction::Dup2) == Some(OpCode::Dup2) && opcode_tag(OpCode::Dup2) == 104,
        instruction_opcode(Instruction::Dup3) == Some(OpCode::Dup3) && opcode_tag(OpCode::Dup3) == 105,
        instruction_opcode(Instruction::Dup4) == Some(OpCode::Dup4) && opcode_tag(OpCode::Dup4) == 106,
        instruction_opcode(Instruction::Dup5) == Some(OpCode::Dup5) && opcode_tag(OpCode::Dup5) == 107,
        instruction_opcode(Instruction::Dup6) == Some(OpCode::Dup6) && opcode_tag(OpCode::Dup6) == 108,
        instruction_opcode(Instruction::Dup7) == Some(OpCode::Dup7) && opcode_tag(OpCode::Dup7) == 109,
        instruction_opcode(Instruction::Dup8) == Some(OpCode::Dup8) && opcode_tag(OpCode::Dup8) == 110,
        instruction_opcode(Instruction::Dup9) == Some(OpCode::Dup9) && opcode_tag(OpCode::Dup9) == 111,
        instruction_opcode(Instruction::Dup10) == Some(OpCode::Dup10) && opcode_tag(OpCode::Dup10) == 112,
        instruction_opcode(Instruction::Dup11) == Some(OpCode::Dup11) && opcode_tag(OpCode::Dup11) == 113,
        instruction_opcode(Instruction::Dup12) == Some(OpCode::Dup12) && opcode_tag(OpCode::Dup12) == 114,
        instruction_opcode(Instruction::Dup13) == Some(OpCode::Dup13) && opcode_tag(OpCode::Dup13) == 115,
        instruction_opcode(Instruction::Dup14) == Some(OpCode::Dup14) && opcode_tag(OpCode::Dup14) == 116,
        instruction_opcode(Instruction::Dup15) == Some(OpCode::Dup15) && opcode_tag(OpCode::Dup15) == 117,
        instruction_opcode(Instruction::DupW0) == Some(OpCode::DupW0) && opcode_tag(OpCode::DupW0) == 118,
        instruction_opcode(Instruction::DupW1) == Some(OpCode::DupW1) && opcode_tag(OpCode::DupW1) == 119,
        instruction_opcode(Instruction::DupW2) == Some(OpCode::DupW2) && opcode_tag(OpCode::DupW2) == 120,
        instruction_opcode(Instruction::DupW3) == Some(OpCode::DupW3) && opcode_tag(OpCode::DupW3) == 121,
        instruction_opcode(Instruction::Swap1) == Some(OpCode::Swap1) && opcode_tag(OpCode::Swap1) == 122,
        instruction_opcode(Instruction::Swap2) == Some(OpCode::Swap2) && opcode_tag(OpCode::Swap2) == 123,
        instruction_opcode(Instruction::Swap3) == Some(OpCode::Swap3) && opcode_tag(OpCode::Swap3) == 124,
        instruction_opcode(Instruction::Swap4) == Some(OpCode::Swap4) && opcode_tag(OpCode::Swap4) == 125,
        instruction_opcode(Instruction::Swap5) == Some(OpCode::Swap5) && opcode_tag(OpCode::Swap5) == 126,
        instruction_opcode(Instruction::Swap6) == Some(OpCode::Swap6) && opcode_tag(OpCode::Swap6) == 127,
        instruction_opcode(Instruction::Swap7) == Some(OpCode::Swap7) && opcode_tag(OpCode::Swap7) == 128,
        instruction_opcode(Instruction::Swap8) == Some(OpCode::Swap8) && opcode_tag(OpCode::Swap8) == 129,
        instruction_opcode(Instruction::Swap9) == Some(OpCode::Swap9) && opcode_tag(OpCode::Swap9) == 130,
        instruction_opcode(Instruction::Swap10) == Some(OpCode::Swap10) && opcode_tag(OpCode::Swap10) == 131,
        instruction_opcode(Instruction::Swap11) == Some(OpCode::Swap11) && opcode_tag(OpCode::Swap11) == 132,
        instruction_opcode(Instruction::Swap12) == Some(OpCode::Swap12) && opcode_tag(OpCode::Swap12) == 133,
        instruction_opcode(Instruction::Swap13) == Some(OpCode::Swap13) && opcode_tag(OpCode::Swap13) == 134,
        instruction_opcode(Instruction::Swap14) == Some(OpCode::Swap14) && opcode_tag(OpCode::Swap14) == 135,
        instruction_opcode(Instruction::Swap15) == Some(OpCode::Swap15) && opcode_tag(OpCode::Swap15) == 136,
        instruction_opcode(Instruction::SwapW1) == Some(OpCode::SwapW1) && opcode_tag(OpCode::SwapW1) == 137,
        instruction_opcode(Instruction::SwapW2) == Some(OpCode::SwapW2) && opcode_tag(OpCode::SwapW2) == 138,
        instruction_opcode(Instruction::SwapW3) == Some(OpCode::SwapW3) && opcode_tag(OpCode::SwapW3) == 139,
        instruction_opcode(Instruction::SwapDw) == Some(OpCode::SwapDW) && opcode_tag(OpCode::SwapDW) == 140,
        instruction_opcode(Instruction::MovUp2) == Some(OpCode::MovUp2) && opcode_tag(OpCode::MovUp2) == 141,
        instruction_opcode(Instruction::MovUp3) == Some(OpCode::MovUp3) && opcode_tag(OpCode::MovUp3) == 142,
        instruction_opcode(Instruction::MovUp4) == Some(OpCode::MovUp4) && opcode_tag(OpCode::MovUp4) == 143,
        instruction_opcode(Instruction::MovUp5) == Some(OpCode::MovUp5) && opcode_tag(OpCode::MovUp5) == 144,
        instruction_opcode(Instruction::MovUp6) == Some(OpCode::MovUp6) && opcode_tag(OpCode::MovUp6) == 145,
        instruction_opcode(Instruction::MovUp7) == Some(OpCode::MovUp7) && opcode_tag(OpCode::MovUp7) == 146,
        instruction_opcode(Instruction::MovUp8) == Some(OpCode::MovUp8) && opcode_tag(OpCode::MovUp8) == 147,
        instruction_opcode(Instruction::MovUp9) == Some(OpCode::MovUp9) && opcode_tag(OpCode::MovUp9) == 148,
        instruction_opcode(Instruction::MovUp10) == Some(OpCode::MovUp10) && opcode_tag(OpCode::MovUp10) == 149,
        instruction_opcode(Instruction::MovUp11) == Some(OpCode::MovUp11) && opcode_tag(OpCode::MovUp11) == 150,
        instruction_opcode(Instruction::MovUp12) == Some(OpCode::MovUp12) && opcode_tag(OpCode::MovUp12) == 151,
        instruction_opcode(Instruction::MovUp13) == Some(OpCode::MovUp13) && opcode_tag(OpCode::MovUp13) == 152,
        instruction_opcode(Instruction::MovUp14) == Some(OpCode::MovUp14) && opcode_tag(OpCode::MovUp14) == 153,
        instruction_opcode(Instruction::MovUp15) == Some(OpCode::MovUp15) && opcode_tag(OpCode::MovUp15) == 154,
        instruction_opcode(Instruction::MovUpW2) == Some(OpCode::MovUpW2) && opcode_tag(OpCode::MovUpW2) == 155,
        instruction_opcode(Instruction::MovUpW3) == Some(OpCode::MovUpW3) && opcode_tag(OpCode::MovUpW3) == 156,
        instruction_opcode(Instruction::MovDn2) == Some(OpCode::MovDn2) && opcode_tag(OpCode::MovDn2) == 157,
        instruction_opcode(Instruction::MovDn3) == Some(OpCode::MovDn3) && opcode_tag(OpCode::MovDn3) == 158,
        instruction_opcode(Instruction::MovDn4) == Some(OpCode::MovDn4) && opcode_tag(OpCode::MovDn4) == 159,
        instruction_opcode(Instruction::MovDn5) == Some(OpCode::MovDn5) && opcode_tag(OpCode::MovDn5) == 160,
        instruction_opcode(Instruction::MovDn6) == Some(OpCode::MovDn6) && opcode_tag(OpCode::MovDn6) == 161,
        instruction_opcode(Instruction::MovDn7) == Some(OpCode::MovDn7) && opcode_tag(OpCode::MovDn7) == 162,
        instruction_opcode(Instruction::MovDn8) == Some(OpCode::MovDn8) && opcode_tag(OpCode::MovDn8) == 163,
        instruction_opcode(Instruction::MovDn9) == Some(OpCode::MovDn9) && opcode_tag(OpCode::MovDn9) == 164,
        instruction_opcode(Instruction::MovDn10) == Some(OpCode::MovDn10) && opcode_tag(OpCode::MovDn10) == 165,
        instruction_opcode(Instruction::MovDn11) == Some(OpCode::MovDn11) && opcode_tag(OpCode::MovDn11) == 166,
        instruction_opcode(Instruction::MovDn12) == Some(OpCode::MovDn12) && opcode_tag(OpCode::MovDn12) == 167,
        instruction_opcode(Instruction::MovDn13) == Some(OpCode::MovDn13) && opcode_tag(OpCode::MovDn13) == 168,
        instruction_opcode(Instruction::MovDn14) == Some(OpCode::MovDn14) && opcode_tag(OpCode::MovDn14) == 169,
        instruction_opcode(Instruction::MovDn15) == Some(OpCode::MovDn15) && opcode_tag(OpCode::MovDn15) == 170,
        instruction_opcode(Instruction::MovDnW2) == Some(OpCode::MovDnW2) && opcode_tag(OpCode::MovDnW2) == 171,
        instruction_opcode(Instruction::MovDnW3) == Some(OpCode::MovDnW3) && opcode_tag(OpCode::MovDnW3) == 172,
        instruction_opcode(Instruction::CSwap) == Some(OpCode::CSwap) && opcode_tag(OpCode::CSwap) == 173,
        instruction_opcode(Instruction::CSwapW) == Some(OpCode::CSwapW) && opcode_tag(OpCode::CSwapW) == 174,
        instruction_opcode(Instruction::CDrop) == Some(OpCode::CDrop) && opcode_tag(OpCode::CDrop) == 175,
        instruction_opcode(Instruction::CDropW) == Some(OpCode::CDropW) && opcode_tag(OpCode::CDropW) == 176,
        forall|x: u8| #![auto] instruction_opcode(Instruction::PushU8(x)) == Some(OpCode::PushU8) && opcode_tag(OpCode::PushU8) == 177,
        forall|x: u16| #![auto] instruction_opcode(Instruction::PushU16(x)) == Some(OpCode::PushU16) && opcode_tag(OpCode::PushU16) == 178,
        forall|x: u32| #![auto] instruction_opcode(Instruction::PushU32(x)) == Some(OpCode::PushU32) && opcode_tag(OpCode::PushU32) == 179,
        forall|x: Felt| #![auto] instruction_opcode(Instruction::PushFelt(x)) == Some(OpCode::PushFelt) && opcode_tag(OpCode::PushFelt) == 180,
        forall|x: [Felt; 4]| #![auto] instruction_opcode(Instruction::PushWord(x)) == Some(OpCode::PushWord) && opcode_tag(OpCode::PushWord) == 181,
        forall|x: u16| #![auto] instruction_opcode(Instruction::Locaddr(x)) == Some(OpCode::Locaddr) && opcode_tag(OpCode::Locaddr) == 186,
        instruction_opcode(Instruction::Sdepth) == Some(OpCode::Sdepth) && opcode_tag(OpCode::Sdepth) == 187,
        instruction_opcode(Instruction::Caller) == Some(OpCode::Caller) && opcode_tag(OpCode::Caller) == 188,
        instruction_opcode(Instruction::Clk) == Some(OpCode::Clk) && opcode_tag(OpCode::Clk) == 189,
        instruction_opcode(Instruction::MemLoad) == Some(OpCode::MemLoad) && opcode_tag(OpCode::MemLoad) == 190,
        forall|x: u32| #![auto] instruction_opcode(Instruction::MemLoadImm(x)) == Some(OpCode::MemLoadImm) && opcode_tag(OpCode::MemLoadImm) == 191,
        instruction_opcode(Instruction::MemLoadW) == Some(OpCode::MemLoadW) && opcode_tag(OpCode::MemLoadW) == 192,
        forall|x: u32| #![auto] instruction_opcode(Instruction::MemLoadWImm(x)) == Some(OpCode::MemLoadWImm) && opcode_tag(OpCode::MemLoadWImm) == 193,
        forall|x: u16| #![auto] instruction_opcode(Instruction::LocLoad(x)) == Some(OpCode::LocLoad) && opcode_tag(OpCode::LocLoad) == 194,
        forall|x: u16| #![auto] instruction_opcode(Instruction::LocLoadW(x)) == Some(OpCode::LocLoadW) && opcode_tag(OpCode::LocLoadW) == 195,
        instruction_opcode(Instruction::MemStore) == Some(OpCode::MemStore) && opcode_tag(OpCode::MemStore) == 196,
        forall|x: u32| #![auto] instruction_opcode(Instruction::MemStoreImm(x)) == Some(OpCode::MemStoreImm) && opcode_tag(OpCode::MemStoreImm) == 197,
        forall|x: u16| #![auto] instruction_opcode(Instruction::LocStore(x)) == Some(OpCode::LocStore) && opcode_tag(OpCode::LocStore) == 198,
        instruction_opcode(Instruction::MemStoreW) == Some(OpCode::MemStoreW) && opcode_tag(OpCode::MemStoreW) == 199,
        forall|x: u32| #![auto] instruction_opcode(Instruction::MemStoreWImm(x)) == Some(OpCode::MemStoreWImm) && opcode_tag(OpCode::MemStoreWImm) == 200,
        forall|x: u16| #![auto] instruction_opcode(Instruction::LocStoreW(x)) == Some(OpCode::LocStoreW) && opcode_tag(OpCode::LocStoreW) == 201,
        instruction_opcode(Instruction::MemStream) == Some(OpCode::MemStream) && opcode_tag(OpCode::MemStream) == 202,
        instruction_opcode(Instruction::AdvPipe) == Some(OpCode::AdvPipe) && opcode_tag(OpCode::AdvPipe) == 203,
        forall|x: u8| #![auto] instruction_opcode(Instruction::AdvPush(x)) == Some(OpCode::AdvPush) && opcode_tag(OpCode::AdvPush) == 204,
        instruction_opcode(Instruction::AdvLoadW) == Some(OpCode::AdvLoadW) && opcode_tag(OpCode::AdvLoadW) == 205,
        instruction_opcode(Instruction::Hash) == Some(OpCode::Hash) && opcode_tag(OpCode::Hash) == 207,
        instruction_opcode(Instruction::HMerge) == Some(OpCode::HMerge) && opcode_tag(OpCode::HMerge) == 208,
        instruction_opcode(Instruction::HPerm) == Some(OpCode::HPerm) && opcode_tag(OpCode::HPerm) == 209,
        instruction_opcode(Instruction::MTreeGet) == Some(OpCode::MTreeGet) && opcode_tag(OpCode::MTreeGet) == 210,
        instruction_opcode(Instruction::MTreeSet) == Some(OpCode::MTreeSet) && opcode_tag(OpCode::MTreeSet) == 211,
        instruction_opcode(Instruction::MTreeMerge) == Some(OpCode::MTreeMerge) && opcode_tag(OpCode::MTreeMerge) == 212,
        instruction_opcode(Instruction::MTreeVerify) == Some(OpCode::MTreeVerify) && opcode_tag(OpCode::MTreeVerify) == 213,
        instruction_opcode(Instruction::FriExt2Fold4) == Some(OpCode::FriExt2Fold4) && opcode_tag(OpCode::FriExt2Fold4) == 214,
        instruction_opcode(Instruction::RCombBase) == Some(OpCode::RCombBase) && opcode_tag(OpCode::RCombBase) == 215,
        instruction_opcode(Instruction::DynExec) == Some(OpCode::DynExec) && opcode_tag(OpCode::DynExec) == 222,
        instruction_opcode(Instruction::DynCall) == Some(OpCode::DynCall) && opcode_tag(OpCode::DynCall) == 223,
        forall|x: u32| #![auto] instruction_opcode(Instruction::Emit(x)) == Some(OpCode::Emit) && opcode_tag(OpCode::Emit) == 227,
        forall|x: u32| #![auto] instruction_opcode(Instruction::Trace(x)) == Some(OpCode::Trace) && opcode_tag(OpCode::Trace) == 228,
        forall|x: Felt| #![auto] instruction_opcode(Instruction::Push(x)) == Some(OpCode::PushFelt),
        forall|d: RpoDigest| #![auto] instruction_opcode(Instruction::Call(InvocationTarget::MastRoot(d))) == Some(OpCode::CallMastRoot) && opcode_tag(OpCode::CallMastRoot) == 219,
{
    lemma_operation_codes_1();
    lemma_operation_codes_2();
    lemma_operation_codes_3();
    lemma_operation_codes_4();
    lemma_operation_codes_5();
    lemma_operation_codes_6();
    lemma_operation_codes_7();
    lemma_operation_codes_8();
}

} // verus!
