//! Arithmetic, comparison and exponentiation on field elements.

use vstd::prelude::*;
use vstd::std_specs::bits::u64_leading_zeros;

use crate::errors::AssemblyError;
use crate::felt::{Felt, MODULUS};
use crate::instruction::{appends, appends_decorated, validate_param};
use crate::ops::{AdviceInjector, Decorator, Operation as O};
use crate::span_builder::SpanBuilder;

verus! {

/// The largest number of bits of an exponent handled by `exp`.
pub const MAX_EXP_BITS: u8 = 64;

/// The operations of `assert_eqw` with error code `err_code`.
pub open spec fn assertw_ops(err_code: u32) -> Seq<O> {
    seq![
        O::MovUp4, O::Eq, O::Assert(err_code), O::MovUp3, O::Eq, O::Assert(err_code), O::MovUp2,
        O::Eq, O::Assert(err_code), O::Eq, O::Assert(err_code),
    ]
}

/// Asserts that the top two words in the stack are equal.
///
/// VM cycles: 11 cycles
pub fn assertw(span_builder: &mut SpanBuilder, err_code: u32)
    ensures
        appends(*old(span_builder), *final(span_builder), assertw_ops(err_code)),
        final(span_builder).ops().len() == old(span_builder).ops().len() + 11,
{
    span_builder.push_ops(
        &[
            O::MovUp4, O::Eq, O::Assert(err_code), O::MovUp3, O::Eq, O::Assert(err_code), O::MovUp2,
            O::Eq, O::Assert(err_code), O::Eq, O::Assert(err_code),
        ],
    );
}

/// The operations that add immediate `imm` to the top of the stack.
pub open spec fn add_imm_ops(imm: Felt) -> Seq<O> {
    if imm.value == 0 {
        seq![O::Noop]
    } else if imm.value == 1 {
        seq![O::Incr]
    } else if imm.value == 2 {
        seq![O::Incr, O::Incr]
    } else {
        seq![O::Push(imm), O::Add]
    }
}

/// Appends a sequence of operations to add an immediate value to the value at the top of the
/// stack. Specifically, the sequences are:
/// - if imm = 0: NOOP
/// - else if imm = 1: INCR
/// - else if imm = 2: INCR INCR
/// - otherwise: PUSH(imm) ADD
pub fn add_imm(span_builder: &mut SpanBuilder, imm: Felt)
    ensures
        appends(*old(span_builder), *final(span_builder), add_imm_ops(imm)),
{
    if imm.value == 0 {
        span_builder.push_op(O::Noop);
    } else if imm.value == 1 {
        span_builder.push_op(O::Incr);
    } else if imm.value == 2 {
        span_builder.push_ops(&[O::Incr, O::Incr]);
    } else {
        span_builder.push_ops(&[O::Push(imm), O::Add]);
    }
}

/// The operations that subtract immediate `imm` from the top of the stack.
pub open spec fn sub_imm_ops(imm: Felt) -> Seq<O> {
    if imm.value == 0 {
        seq![O::Noop]
    } else {
        seq![O::Push(Felt { value: (MODULUS - imm.value) as u64 }), O::Add]
    }
}

/// Appends a sequence of operations to subtract an immediate value from the value at the top of the
/// stack. Specifically, the sequences are:
/// - if imm = 0: NOOP
/// - otherwise: PUSH(-imm) ADD
pub fn sub_imm(span_builder: &mut SpanBuilder, imm: Felt)
    requires
        imm.canonical(),
    ensures
        appends(*old(span_builder), *final(span_builder), sub_imm_ops(imm)),
{
    if imm.value == 0 {
        span_builder.push_op(O::Noop);
    } else {
        span_builder.push_ops(&[O::Push(imm.neg()), O::Add]);
    }
}

/// The operations that multiply the top of the stack by immediate `imm`.
pub open spec fn mul_imm_ops(imm: Felt) -> Seq<O> {
    if imm.value == 0 {
        seq![O::Drop, O::Pad]
    } else if imm.value == 1 {
        seq![O::Noop]
    } else {
        seq![O::Push(imm), O::Mul]
    }
}

/// Appends a sequence of operations to multiply the value at the top of the stack by an immediate
/// value. Specifically, the sequences are:
/// - if imm = 0: DROP PAD
/// - else if imm = 1: NOOP
/// - otherwise: PUSH(imm) MUL
pub fn mul_imm(span_builder: &mut SpanBuilder, imm: Felt)
    ensures
        appends(*old(span_builder), *final(span_builder), mul_imm_ops(imm)),
{
    if imm.value == 0 {
        span_builder.push_ops(&[O::Drop, O::Pad]);
    } else if imm.value == 1 {
        span_builder.push_op(O::Noop);
    } else {
        span_builder.push_ops(&[O::Push(imm), O::Mul]);
    }
}

/// Appends a sequence of operations to divide the value at the top of the stack by an immediate
/// value. Specifically, the sequences are:
/// - if imm = 0: Returns an error
/// - else if imm = 1: NOOP
/// - otherwise: PUSH(1/imm) MUL
pub fn div_imm(span_builder: &mut SpanBuilder, imm: Felt) -> (r: Result<(), AssemblyError>)
    requires
        imm.canonical(),
    ensures
        imm.value == 0 ==> r == Err::<(), AssemblyError>(AssemblyError::DivisionByZero) && *final(span_builder) == *old(span_builder),
        imm.value == 1 ==> r is Ok && appends(*old(span_builder), *final(span_builder), seq![O::Noop]),
        imm.value > 1 ==> r is Ok && exists|inv: Felt| {
            &&& inv.canonical()
            &&& (imm.value as int * inv.value as int) % (MODULUS as int) == 1
            &&& appends(*old(span_builder), *final(span_builder), seq![O::Push(inv), O::Mul])
        },
{
    if imm.value == 0 {
        return Err(AssemblyError::DivisionByZero);
    } else if imm.value == 1 {
        span_builder.push_op(O::Noop);
    } else {
        let inv = imm.inv();
        span_builder.push_ops(&[O::Push(inv), O::Mul]);
    }
    Ok(())
}

/// The operations that raise 2 to the power of the top of the stack.
pub open spec fn pow2_ops() -> Seq<O> {
    seq![
        O::Push(Felt { value: 2 }), O::Pad, O::Incr, O::Swap, O::Pad, O::Expacc, O::Expacc,
        O::Expacc, O::Expacc, O::Expacc, O::Expacc, O::Drop, O::Drop, O::Swap, O::Eqz, O::Assert(0),
    ]
}

/// Appends a sequence of operations to raise value 2 to the power specified by the element at the
/// top of the stack.
///
/// VM cycles: 16 cycles
pub fn pow2(span_builder: &mut SpanBuilder)
    ensures
        appends(*old(span_builder), *final(span_builder), pow2_ops()),
        final(span_builder).ops().len() == old(span_builder).ops().len() + 16,
{
    append_pow2_op(span_builder);
}

/// Appends relevant operations to the span_builder block for the computation of power of 2.
///
/// VM cycles: 16 cycles
pub fn append_pow2_op(span_builder: &mut SpanBuilder)
    ensures
        appends(*old(span_builder), *final(span_builder), pow2_ops()),
        final(span_builder).ops().len() == old(span_builder).ops().len() + 16,
{
    // push base 2 onto the stack: [exp, ...] -> [2, exp, ...]
    span_builder.push_op(O::Push(Felt::from_u32(2)));
    // introduce initial value of acc onto the stack: [2, exp, ...] -> [1, 2, exp, ...]
    span_builder.push_ops(&[O::Pad, O::Incr]);
    // arrange the top of the stack for EXPACC operation: [1, 2, exp, ...] -> [0, 2, 1, exp, ...]
    span_builder.push_ops(&[O::Swap, O::Pad]);
    // calling expacc instruction 6 times
    span_builder.push_ops(&[O::Expacc, O::Expacc, O::Expacc, O::Expacc, O::Expacc, O::Expacc]);
    // drop the top two elements bit and exp value of the latest bit.
    span_builder.push_ops(&[O::Drop, O::Drop]);
    // taking `b` to the top and asserting if it's equal to ZERO after all the right shifts.
    span_builder.push_ops(&[O::Swap, O::Eqz, O::Assert(0)]);
    proof {
        assert(final(span_builder).ops() =~= old(span_builder).ops() + pow2_ops());
    }
}

/// The operations that compute `b^e` for an exponent `e` of `num_pow_bits` bits.
pub open spec fn exp_ops(num_pow_bits: u8) -> Seq<O> {
    seq![O::Pad, O::Incr, O::MovUp2, O::Pad] + Seq::new(num_pow_bits as nat, |i: int| O::Expacc)
        + seq![O::Drop, O::Drop, O::Swap, O::Eqz, O::Assert(0)]
}

/// Appends a sequence of operations to compute b^e where e is the value at the top of the stack
/// and b is the value second from the top of the stack.
///
/// num_pow_bits parameter is expected to contain the number of bits needed to encode value e. If
/// this assumption is not satisfied, the operation will fail at runtime.
///
/// VM cycles: 9 + num_pow_bits
///
/// # Errors
/// Returns an error if num_pow_bits is greater than 64.
pub fn exp(span_builder: &mut SpanBuilder, num_pow_bits: u8) -> (r: Result<(), AssemblyError>)
    ensures
        r is Ok <==> num_pow_bits <= MAX_EXP_BITS,
        r is Err ==> r == Err::<(), AssemblyError>(AssemblyError::InvalidParameter {
            value: num_pow_bits as u64,
            min: 0,
            max: MAX_EXP_BITS as u64,
        }) && *final(span_builder) == *old(span_builder),
        r is Ok ==> appends(*old(span_builder), *final(span_builder), exp_ops(num_pow_bits))
            && final(span_builder).ops().len() == old(span_builder).ops().len() + 9 + num_pow_bits,
{
    validate_param(num_pow_bits as u64, 0, MAX_EXP_BITS as u64)?;
    let ghost start = span_builder.ops();
    // arranging the stack to prepare it for expacc instruction.
    span_builder.push_ops(&[O::Pad, O::Incr, O::MovUp2, O::Pad]);
    // calling expacc instruction n times.
    span_builder.push_op_many(O::Expacc, num_pow_bits as usize);
    // drop the top two elements bit and exp value of the latest bit.
    span_builder.push_ops(&[O::Drop, O::Drop]);
    // taking `b` to the top and asserting if it's equal to ZERO after all the right shifts.
    span_builder.push_ops(&[O::Swap, O::Eqz, O::Assert(0)]);
    proof {
        assert(span_builder.ops() =~= start + exp_ops(num_pow_bits));
    }
    Ok(())
}

/// The operations that raise the top of the stack to the power `pow`, for `pow` below 8.
pub open spec fn small_power_ops(pow: u64) -> Seq<O> {
    if pow == 0 {
        seq![O::Drop, O::Pad, O::Incr]
    } else if pow == 1 {
        seq![O::Noop]
    } else {
        Seq::new((pow - 1) as nat, |i: int| O::Dup0) + Seq::new((pow - 1) as nat, |i: int| O::Mul)
    }
}

/// The number of bits needed to encode `x`.
pub open spec fn bit_length(x: u64) -> int {
    64 - u64_leading_zeros(x)
}

/// The operations that raise the top of the stack to the immediate power `pow`.
pub open spec fn exp_imm_ops(pow: Felt) -> Seq<O> {
    if pow.value <= 7 {
        small_power_ops(pow.value)
    } else {
        seq![O::Push(pow)] + exp_ops(bit_length(pow.value) as u8)
    }
}

/// Appends a sequence of operations to compute b^pow where b is the value at the top of the stack.
///
/// VM cycles per mode:
/// - pow = 0: 3 cycles
/// - pow = 1: 1 cycles
/// - pow = 2..=7: 2 * (pow - 1) cycles
/// - pow > 7: 10 + the number of bits of pow
pub fn exp_imm(span_builder: &mut SpanBuilder, pow: Felt) -> (r: Result<(), AssemblyError>)
    ensures
        r is Ok,
        appends(*old(span_builder), *final(span_builder), exp_imm_ops(pow)),
        pow.value == 0 ==> final(span_builder).ops().len() == old(span_builder).ops().len() + 3,
        pow.value == 1 ==> final(span_builder).ops().len() == old(span_builder).ops().len() + 1,
        2 <= pow.value <= 7 ==> final(span_builder).ops().len() == old(span_builder).ops().len() + 2 * (pow.value - 1),
        pow.value > 7 ==> final(span_builder).ops().len() == old(span_builder).ops().len() + 10 + bit_length(pow.value),
{
    if pow.value <= 7 {
        perform_exp_for_small_power(span_builder, pow.value);
        Ok(())
    } else {
        // compute the bits length of the exponent
        let lz = pow.value.leading_zeros();
        proof {
            vstd::std_specs::bits::axiom_u64_leading_zeros(pow.value);
        }
        let num_pow_bits = (64 - lz) as u8;
        let ghost start = span_builder.ops();
        // pushing the exponent onto the stack.
        span_builder.push_op(O::Push(pow));
        let r = exp(span_builder, num_pow_bits);
        proof {
            assert(span_builder.ops() =~= start + exp_imm_ops(pow));
        }
        r
    }
}

/// If the immediate value of the `exp` instruction is less than 8, then, it is be cheaper to
/// compute the exponentiation of the base to the power imm using `dup` and `mul` instructions.
///
/// The expected starting state of the stack (from the top) is: [b, ...].
///
/// After these operations, the stack state will be: [b^pow, ...].
fn perform_exp_for_small_power(span_builder: &mut SpanBuilder, pow: u64)
    requires
        pow <= 7,
    ensures
        appends(*old(span_builder), *final(span_builder), small_power_ops(pow)),
{
    let ghost start = span_builder.ops();
    if pow == 0 {
        span_builder.push_op(O::Drop);
        span_builder.push_op(O::Pad);
        span_builder.push_op(O::Incr);
    } else if pow == 1 {
        span_builder.push_op(O::Noop);
    } else {
        span_builder.push_op_many(O::Dup0, (pow - 1) as usize);
        span_builder.push_op_many(O::Mul, (pow - 1) as usize);
    }
    proof {
        assert(span_builder.ops() =~= start + small_power_ops(pow));
    }
}

/// The operations of `ilog2`, after its `ILog2` advice decorator.
pub open spec fn ilog2_ops() -> Seq<O> {
    seq![O::AdvPop, O::Dup0] + pow2_ops() + seq![
        O::MovUp2, O::U32split, O::MovUp2, O::U32split, O::Dup1, O::Eqz, O::Dup0, O::MovDn3,
        O::CSwap, O::Drop, O::MovDn3, O::CSwap, O::Drop, O::Swap, O::Pad, O::Incr, O::Incr, O::Mul,
        O::Pad, O::Incr, O::Neg, O::Add, O::Dup1, O::U32and, O::Eq, O::Assert(0),
    ]
}

/// Appends a sequence of operations to calculate the base 2 integer logarithm of the stack top
/// element, using non-deterministic technique (i.e. it takes help of advice provider).
///
/// This operation takes 44 VM cycles.
pub fn ilog2(span_builder: &mut SpanBuilder) -> (r: Result<(), AssemblyError>)
    ensures
        r is Ok,
        appends_decorated(*old(span_builder), *final(span_builder), Decorator::Advice(AdviceInjector::ILog2), ilog2_ops()),
        final(span_builder).ops().len() == old(span_builder).ops().len() + 44,
{
    let ghost start = span_builder.ops();
    span_builder.push_decorator(Decorator::Advice(AdviceInjector::ILog2));
    span_builder.push_op(O::AdvPop);  // [ilog2, n, ...]
    // compute the power-of-two for the value given in the advice tape (17 cycles)
    span_builder.push_op(O::Dup0);
    append_pow2_op(span_builder);
    // => [pow2, ilog2, n, ...]
    span_builder.push_ops(
        &[
            // split the words into u32 halves to use the bitwise operations (4 cycles)
            O::MovUp2, O::U32split, O::MovUp2, O::U32split,
            // => [pow2_high, pow2_low, n_high, n_low, ilog2, ...]
            // only one of the two halves in pow2 has a bit set, drop the other (9 cycles)
            O::Dup1, O::Eqz, O::Dup0, O::MovDn3,
            // => [drop_low, pow2_high, pow2_low, drop_low, n_high, n_low, ilog2, ...]
            O::CSwap, O::Drop, O::MovDn3, O::CSwap, O::Drop,
            // => [n_half, pow2_half, ilog2, ...]
            // set all bits to 1 lower than pow2_half (00010000 -> 00011111)
            O::Swap, O::Pad, O::Incr, O::Incr, O::Mul, O::Pad, O::Incr, O::Neg, O::Add,
            // => [pow2_half * 2 - 1, n_half, ilog2, ...]
            O::Dup1, O::U32and,
            // => [m, n_half, ilog2, ...] if ilog2 calculation was correct, m should be equal to n_half
            O::Eq, O::Assert(0),
            // => [ilog2, ...]
        ],
    );
    proof {
        assert(span_builder.ops() =~= start + ilog2_ops());
    }
    Ok(())
}

/// The operations that compare the top of the stack with immediate `imm`.
pub open spec fn eq_imm_ops(imm: Felt) -> Seq<O> {
    if imm.value == 0 {
        seq![O::Eqz]
    } else {
        seq![O::Push(imm), O::Eq]
    }
}

/// Appends a sequence of operations to check equality between the value at the top of the stack
/// and the provided immediate value. Specifically, the sequences are:
/// - if imm = 0: EQZ
/// - otherwise: PUSH(imm) EQ
pub fn eq_imm(span_builder: &mut SpanBuilder, imm: Felt)
    ensures
        appends(*old(span_builder), *final(span_builder), eq_imm_ops(imm)),
{
    if imm.value == 0 {
        span_builder.push_op(O::Eqz);
    } else {
        span_builder.push_ops(&[O::Push(imm), O::Eq]);
    }
}

/// The operations that check the top of the stack differs from immediate `imm`.
pub open spec fn neq_imm_ops(imm: Felt) -> Seq<O> {
    if imm.value == 0 {
        seq![O::Eqz, O::Not]
    } else {
        seq![O::Push(imm), O::Eq, O::Not]
    }
}

/// Appends a sequence of operations to check inequality between the value at the top of the stack
/// and the provided immediate value. Specifically, the sequences are:
/// - if imm = 0: EQZ NOT
/// - otherwise: PUSH(imm) EQ NOT
pub fn neq_imm(span_builder: &mut SpanBuilder, imm: Felt)
    ensures
        appends(*old(span_builder), *final(span_builder), neq_imm_ops(imm)),
{
    if imm.value == 0 {
        span_builder.push_ops(&[O::Eqz, O::Not]);
    } else {
        span_builder.push_ops(&[O::Push(imm), O::Eq, O::Not]);
    }
}

/// The operations of `eqw`.
pub open spec fn eqw_ops() -> Seq<O> {
    seq![
        O::Dup7, O::Dup4, O::Eq, O::Dup7, O::Dup4, O::Eq, O::And, O::Dup6, O::Dup3, O::Eq, O::And,
        O::Dup5, O::Dup2, O::Eq, O::And,
    ]
}

/// Appends a sequence of operations to check equality between two words at the top of the stack.
///
/// This operation takes 15 VM cycles.
pub fn eqw(span_builder: &mut SpanBuilder)
    ensures
        appends(*old(span_builder), *final(span_builder), eqw_ops()),
        final(span_builder).ops().len() == old(span_builder).ops().len() + 15,
{
    span_builder.push_ops(
        &[
            // duplicate first pair of for comparison(4th elements of each word) in reverse order
            // to avoid using dup.8 after stack shifting(dup.X where X > 7, takes more VM cycles )
            O::Dup7, O::Dup4, O::Eq,
            // continue comparison pair by pair using bitwise AND for EQ results
            O::Dup7, O::Dup4, O::Eq, O::And, O::Dup6, O::Dup3, O::Eq, O::And, O::Dup5, O::Dup2,
            O::Eq, O::And,
        ],
    );
}

/// Splits the top 2 elements on the stack into low and high 32-bit values and swaps their order.
pub open spec fn split_elements_ops() -> Seq<O> {
    seq![O::U32split, O::MovUp2, O::U32split]
}

/// Checks `a < b` and `a = b` at once, leaving both flags.
pub open spec fn check_lt_and_eq_ops() -> Seq<O> {
    seq![O::U32sub, O::Swap, O::Eqz]
}

/// Compares the high halves for "less than", then arranges the low halves.
pub open spec fn check_lt_high_bits_ops() -> Seq<O> {
    seq![O::MovUp2] + check_lt_and_eq_ops() + seq![O::MovUp2, O::MovUp3]
}

/// Checks `a < b` on the low halves.
pub open spec fn check_lt_ops() -> Seq<O> {
    seq![O::U32sub, O::Swap, O::Drop]
}

/// Combines the low-half and high-half flags.
pub open spec fn set_result_ops() -> Seq<O> {
    seq![O::And, O::Or]
}

/// Checks `a <= b` on the low halves.
pub open spec fn check_lte_ops() -> Seq<O> {
    seq![O::U32sub, O::Swap, O::Eqz, O::Or]
}

/// Compares the high halves for "greater than", then arranges the low halves.
pub open spec fn check_gt_high_bits_ops() -> Seq<O> {
    seq![O::Swap, O::MovDn2] + check_lt_and_eq_ops() + seq![O::MovUp3, O::MovUp3]
}

fn split_elements(span_builder: &mut SpanBuilder)
    ensures
        appends(*old(span_builder), *final(span_builder), split_elements_ops()),
{
    // stack: [b, a, ...] => [b_hi, b_lo, a, ...]
    span_builder.push_op(O::U32split);
    // => [a, b_hi, b_lo, ...]
    span_builder.push_op(O::MovUp2);
    // => [a_hi, a_lo, b_hi, b_lo, ...]
    span_builder.push_op(O::U32split);
    proof {
        assert(final(span_builder).ops() =~= old(span_builder).ops() + split_elements_ops());
    }
}

fn check_lt_and_eq(span_builder: &mut SpanBuilder)
    ensures
        appends(*old(span_builder), *final(span_builder), check_lt_and_eq_ops()),
{
    // calculate a - b: [b, a, ...] => [underflow_flag, result, ...]
    span_builder.push_op(O::U32sub);
    span_builder.push_ops(&[O::Swap, O::Eqz]);
    proof {
        assert(final(span_builder).ops() =~= old(span_builder).ops() + check_lt_and_eq_ops());
    }
}

fn check_lt_high_bits(span_builder: &mut SpanBuilder)
    ensures
        appends(*old(span_builder), *final(span_builder), check_lt_high_bits_ops()),
{
    // reorder the stack to check a_hi < b_hi
    span_builder.push_op(O::MovUp2);
    // simultaneously check a_hi < b_hi and a_hi = b_hi
    check_lt_and_eq(span_builder);
    // reorder the stack to prepare for low-bit comparison (a_lo < b_lo)
    span_builder.push_ops(&[O::MovUp2, O::MovUp3]);
    proof {
        assert(final(span_builder).ops() =~= old(span_builder).ops() + check_lt_high_bits_ops());
    }
}

fn check_lt(span_builder: &mut SpanBuilder)
    ensures
        appends(*old(span_builder), *final(span_builder), check_lt_ops()),
{
    // calculate a - b: [b, a, ...] => [underflow_flag, result, ...]
    span_builder.push_op(O::U32sub);
    // drop the result, since it's not needed
    span_builder.push_ops(&[O::Swap, O::Drop]);
    proof {
        assert(final(span_builder).ops() =~= old(span_builder).ops() + check_lt_ops());
    }
}

fn set_result(span_builder: &mut SpanBuilder)
    ensures
        appends(*old(span_builder), *final(span_builder), set_result_ops()),
{
    // check if high bits are equal AND low bit comparison condition was true
    span_builder.push_op(O::And);
    // Set the result flag if the above check passed OR the high-bit comparison was true
    span_builder.push_op(O::Or);
    proof {
        assert(final(span_builder).ops() =~= old(span_builder).ops() + set_result_ops());
    }
}

fn check_lte(span_builder: &mut SpanBuilder)
    ensures
        appends(*old(span_builder), *final(span_builder), check_lte_ops()),
{
    // calculate a - b: [b, a, ...] => [underflow_flag, result, ...]
    span_builder.push_op(O::U32sub);
    // check the result
    span_builder.push_ops(&[O::Swap, O::Eqz]);
    // set the lte flag if the underflow flag was set or the result was 0
    span_builder.push_op(O::Or);
    proof {
        assert(final(span_builder).ops() =~= old(span_builder).ops() + check_lte_ops());
    }
}

fn check_gt_high_bits(span_builder: &mut SpanBuilder)
    ensures
        appends(*old(span_builder), *final(span_builder), check_gt_high_bits_ops()),
{
    // reorder the stack to check b_hi < a_hi
    span_builder.push_ops(&[O::Swap, O::MovDn2]);
    // simultaneously check b_hi < a_hi and b_hi = a_hi
    check_lt_and_eq(span_builder);
    // reorder the stack to prepare for low-bit comparison (b_lo < a_lo)
    span_builder.push_ops(&[O::MovUp3, O::MovUp3]);
    proof {
        assert(final(span_builder).ops() =~= old(span_builder).ops() + check_gt_high_bits_ops());
    }
}

/// Appends a sequence of operations to pop the top 2 elements off the stack and do a "less
/// than" comparison. The stack is expected to be arranged as [b, a, ...] (from the top). A value
/// of 1 is pushed onto the stack if a < b. Otherwise, 0 is pushed.
///
/// This operation takes 14 VM cycles.
pub fn lt(span_builder: &mut SpanBuilder)
    ensures
        appends(*old(span_builder), *final(span_builder),
            split_elements_ops() + check_lt_high_bits_ops() + check_lt_ops() + set_result_ops()),
        final(span_builder).ops().len() == old(span_builder).ops().len() + 14,
{
    split_elements(span_builder);
    check_lt_high_bits(span_builder);
    check_lt(span_builder);
    set_result(span_builder);
    proof {
        assert(final(span_builder).ops() =~= old(span_builder).ops() + (split_elements_ops() + check_lt_high_bits_ops() + check_lt_ops() + set_result_ops()));
    }
}

/// Appends a sequence of operations to pop the top 2 elements off the stack and do a "less
/// than or equal" comparison. The stack is expected to be arranged as [b, a, ...] (from the top).
/// A value of 1 is pushed onto the stack if a <= b. Otherwise, 0 is pushed.
///
/// This operation takes 15 VM cycles.
pub fn lte(span_builder: &mut SpanBuilder)
    ensures
        appends(*old(span_builder), *final(span_builder),
            split_elements_ops() + check_lt_high_bits_ops() + check_lte_ops() + set_result_ops()),
        final(span_builder).ops().len() == old(span_builder).ops().len() + 15,
{
    split_elements(span_builder);
    check_lt_high_bits(span_builder);
    check_lte(span_builder);
    set_result(span_builder);
    proof {
        assert(final(span_builder).ops() =~= old(span_builder).ops() + (split_elements_ops() + check_lt_high_bits_ops() + check_lte_ops() + set_result_ops()));
    }
}

/// Appends a sequence of operations to pop the top 2 elements off the stack and do a "greater
/// than" comparison. The stack is expected to be arranged as [b, a, ...] (from the top). A value
/// of 1 is pushed onto the stack if a > b. Otherwise, 0 is pushed.
///
/// This operation takes 15 VM cycles.
pub fn gt(span_builder: &mut SpanBuilder)
    ensures
        appends(*old(span_builder), *final(span_builder),
            split_elements_ops() + check_gt_high_bits_ops() + check_lt_ops() + set_result_ops()),
        final(span_builder).ops().len() == old(span_builder).ops().len() + 15,
{
    split_elements(span_builder);
    check_gt_high_bits(span_builder);
    check_lt(span_builder);
    set_result(span_builder);
    proof {
        assert(final(span_builder).ops() =~= old(span_builder).ops() + (split_elements_ops() + check_gt_high_bits_ops() + check_lt_ops() + set_result_ops()));
    }
}

/// Appends a sequence of operations to pop the top 2 elements off the stack and do a "greater
/// than or equal" comparison. The stack is expected to be arranged as [b, a, ...] (from the top).
/// A value of 1 is pushed onto the stack if a >= b. Otherwise, 0 is pushed.
///
/// This operation takes 16 VM cycles.
pub fn gte(span_builder: &mut SpanBuilder)
    ensures
        appends(*old(span_builder), *final(span_builder),
            split_elements_ops() + check_gt_high_bits_ops() + check_lte_ops() + set_result_ops()),
        final(span_builder).ops().len() == old(span_builder).ops().len() + 16,
{
    split_elements(span_builder);
    check_gt_high_bits(span_builder);
    check_lte(span_builder);
    set_result(span_builder);
    proof {
        assert(final(span_builder).ops() =~= old(span_builder).ops() + (split_elements_ops() + check_gt_high_bits_ops() + check_lte_ops() + set_result_ops()));
    }
}

/// Checks if the top element in the stack is an odd number or not.
///
/// Vm cycles: 5
pub fn is_odd(span_builder: &mut SpanBuilder)
    ensures
        appends(*old(span_builder), *final(span_builder), seq![O::U32split, O::Drop, O::Pad, O::Incr, O::U32and]),
        final(span_builder).ops().len() == old(span_builder).ops().len() + 5,
{
    span_builder.push_ops(&[O::U32split, O::Drop, O::Pad, O::Incr, O::U32and]);
}

} // verus!
