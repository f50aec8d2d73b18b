//! Operations on 32-bit unsigned integers.

use vstd::prelude::*;

use crate::errors::AssemblyError;
use crate::felt::Felt;
use crate::instruction::field_ops::{append_pow2_op, pow2_ops};
use crate::instruction::{appends, appends_decorated, push_u32_ops, push_u32_value, validate_param};
use crate::ops::{AdviceInjector, Decorator, Operation as O};
use crate::span_builder::SpanBuilder;

verus! {

/// The largest immediate shift amount.
pub const MAX_U32_SHIFT_VALUE: u8 = 31;

/// The largest immediate rotation amount.
pub const MAX_U32_ROTATE_VALUE: u8 = 31;

/// This enum is intended to determine the mode of operation passed to the parsing function
#[derive(Debug, Copy, Clone, PartialEq, Eq, Structural)]
pub enum U32OpMode {
    Wrapping,
    Overflowing,
}

/// The operations of `u32testw`.
pub open spec fn u32testw_ops() -> Seq<O> {
    seq![
        O::Dup3, O::U32split, O::Swap, O::Drop, O::Eqz, O::Dup3, O::U32split, O::Swap, O::Drop,
        O::Eqz, O::And, O::Dup2, O::U32split, O::Swap, O::Drop, O::Eqz, O::And, O::Dup1, O::U32split,
        O::Swap, O::Drop, O::Eqz, O::And,
    ]
}

/// Lowers u32testw assembly instruction into VM operations.
///
/// Implemented by executing DUP U32SPLIT SWAP DROP EQZ on each element in the word
/// and combining the results using AND operation (total of 23 VM cycles)
pub fn u32testw(span_builder: &mut SpanBuilder)
    ensures
        appends(*old(span_builder), *final(span_builder), u32testw_ops()),
        final(span_builder).ops().len() == old(span_builder).ops().len() + 23,
{
    span_builder.push_ops(
        &[
            // Test the fourth element
            O::Dup3, O::U32split, O::Swap, O::Drop, O::Eqz,
            // Test the third element
            O::Dup3, O::U32split, O::Swap, O::Drop, O::Eqz, O::And,
            // Test the second element
            O::Dup2, O::U32split, O::Swap, O::Drop, O::Eqz, O::And,
            // Test the first element
            O::Dup1, O::U32split, O::Swap, O::Drop, O::Eqz, O::And,
        ],
    );
}

/// The operations of `u32assertw` with error code `err_code`.
pub open spec fn u32assertw_ops(err_code: u32) -> Seq<O> {
    seq![O::U32assert2(err_code), O::MovUp3, O::MovUp3, O::U32assert2(err_code), O::MovUp3, O::MovUp3]
}

/// Lowers u32assertw assembly instruction into VM operations.
///
/// Implemented by executing `U32ASSERT2` on each pair of elements in the word.
/// Total of 6 VM cycles.
pub fn u32assertw(span_builder: &mut SpanBuilder, err_code: u32)
    ensures
        appends(*old(span_builder), *final(span_builder), u32assertw_ops(err_code)),
        final(span_builder).ops().len() == old(span_builder).ops().len() + 6,
{
    span_builder.push_ops(
        &[
            // Test the first and the second elements
            O::U32assert2(err_code),
            // Move 3 and 4 to the top of the stack
            O::MovUp3, O::MovUp3,
            // Test them
            O::U32assert2(err_code),
            // Move the elements back into place
            O::MovUp3, O::MovUp3,
        ],
    );
}

/// The operations of a u32 arithmetic instruction with base operation `op`.
pub open spec fn arithmetic_ops(op: O, op_mode: U32OpMode, imm: Option<u32>) -> Seq<O> {
    (match imm {
        Some(v) => push_u32_ops(v),
        None => Seq::empty(),
    }) + seq![op] + (if op_mode is Wrapping {
        seq![O::Drop]
    } else {
        Seq::empty()
    })
}

/// Specifically handles these specific inputs per the spec.
/// - Wrapping: does not check if the inputs are u32 values; overflow or underflow bits are
///   discarded.
/// - Overflowing: does not check if the inputs are u32 values; overflow or underflow bits are
///   pushed onto the stack.
fn handle_arithmetic_operation(span_builder: &mut SpanBuilder, op: O, op_mode: U32OpMode, imm: Option<u32>)
    ensures
        appends(*old(span_builder), *final(span_builder), arithmetic_ops(op, op_mode, imm)),
{
    let ghost start = span_builder.ops();
    if let Some(imm) = imm {
        push_u32_value(span_builder, imm);
    }
    span_builder.push_op(op);
    // in the wrapping mode, drop high 32 bits
    if matches!(op_mode, U32OpMode::Wrapping) {
        span_builder.push_op(O::Drop);
    }
    proof {
        assert(span_builder.ops() =~= start + arithmetic_ops(op, op_mode, imm));
    }
}

/// The number of cycles documented for a u32 arithmetic instruction: 1 for the base operation, 1
/// more in wrapping mode, and 1 more with an immediate value.
pub open spec fn arithmetic_cycles(op_mode: U32OpMode, imm: Option<u32>) -> int {
    1 + (if op_mode is Wrapping { 1int } else { 0int }) + (if imm is Some { 1int } else { 0int })
}

/// Lowers u32add assembly instructions into VM operations.
///
/// VM cycles per mode:
/// - u32wrapping_add: 2 cycles
/// - u32wrapping_add.b: 3 cycles (4 if b is 1)
/// - u32overflowing_add: 1 cycles
/// - u32overflowing_add.b: 2 cycles (3 if b is 1)
pub fn u32add(span_builder: &mut SpanBuilder, op_mode: U32OpMode, imm: Option<u32>)
    ensures
        appends(*old(span_builder), *final(span_builder), arithmetic_ops(O::U32add, op_mode, imm)),
        imm != Some(1u32) ==> final(span_builder).ops().len() == old(span_builder).ops().len() + arithmetic_cycles(op_mode, imm),
{
    handle_arithmetic_operation(span_builder, O::U32add, op_mode, imm);
}

/// Lowers u32sub assembly instructions into VM operations.
///
/// VM cycles per mode:
/// - u32wrapping_sub: 2 cycles
/// - u32wrapping_sub.b: 3 cycles (4 if b is 1)
/// - u32overflowing_sub: 1 cycles
/// - u32overflowing_sub.b: 2 cycles (3 if b is 1)
pub fn u32sub(span_builder: &mut SpanBuilder, op_mode: U32OpMode, imm: Option<u32>)
    ensures
        appends(*old(span_builder), *final(span_builder), arithmetic_ops(O::U32sub, op_mode, imm)),
        imm != Some(1u32) ==> final(span_builder).ops().len() == old(span_builder).ops().len() + arithmetic_cycles(op_mode, imm),
{
    handle_arithmetic_operation(span_builder, O::U32sub, op_mode, imm);
}

/// Lowers u32mul assembly instructions into VM operations.
///
/// VM cycles per mode:
/// - u32wrapping_mul: 2 cycles
/// - u32wrapping_mul.b: 3 cycles (4 if b is 1)
/// - u32overflowing_mul: 1 cycles
/// - u32overflowing_mul.b: 2 cycles (3 if b is 1)
pub fn u32mul(span_builder: &mut SpanBuilder, op_mode: U32OpMode, imm: Option<u32>)
    ensures
        appends(*old(span_builder), *final(span_builder), arithmetic_ops(O::U32mul, op_mode, imm)),
        imm != Some(1u32) ==> final(span_builder).ops().len() == old(span_builder).ops().len() + arithmetic_cycles(op_mode, imm),
{
    handle_arithmetic_operation(span_builder, O::U32mul, op_mode, imm);
}

/// The operations common to u32div, u32mod and u32divmod.
pub open spec fn division_ops(imm: Option<u32>) -> Seq<O> {
    (match imm {
        Some(v) => push_u32_ops(v),
        None => Seq::empty(),
    }) + seq![O::U32div]
}

/// Handles common parts of u32div, u32mod, and u32divmod operations, including handling of
/// immediate parameters. A zero immediate divisor is an error.
fn handle_division(span_builder: &mut SpanBuilder, imm: Option<u32>) -> (r: Result<(), AssemblyError>)
    ensures
        imm == Some(0u32) ==> r == Err::<(), AssemblyError>(AssemblyError::DivisionByZero) && *final(span_builder) == *old(span_builder),
        imm != Some(0u32) ==> r is Ok && appends(*old(span_builder), *final(span_builder), division_ops(imm)),
{
    let ghost start = span_builder.ops();
    if let Some(imm) = imm {
        if imm == 0 {
            return Err(AssemblyError::DivisionByZero);
        }
        push_u32_value(span_builder, imm);
    }
    span_builder.push_op(O::U32div);
    proof {
        assert(span_builder.ops() =~= start + division_ops(imm));
    }
    Ok(())
}

/// Lowers u32div assembly instructions into VM operations.
///
/// VM cycles per mode:
/// - u32div: 2 cycles
/// - u32div.b:
///    - 4 cycles if b is 1
///    - 3 cycles if b is not 1
pub fn u32div(span_builder: &mut SpanBuilder, imm: Option<u32>) -> (r: Result<(), AssemblyError>)
    ensures
        imm == Some(0u32) ==> r == Err::<(), AssemblyError>(AssemblyError::DivisionByZero) && *final(span_builder) == *old(span_builder),
        imm != Some(0u32) ==> r is Ok && appends(*old(span_builder), *final(span_builder), division_ops(imm) + seq![O::Drop]),
        imm is None ==> final(span_builder).ops().len() == old(span_builder).ops().len() + 2,
        imm == Some(1u32) ==> final(span_builder).ops().len() == old(span_builder).ops().len() + 4,
        imm is Some && imm != Some(0u32) && imm != Some(1u32) ==> final(span_builder).ops().len() == old(span_builder).ops().len() + 3,
{
    handle_division(span_builder, imm)?;
    let ghost mid = span_builder.ops();
    span_builder.push_op(O::Drop);
    proof {
        assert(span_builder.ops() =~= old(span_builder).ops() + (division_ops(imm) + seq![O::Drop]));
    }
    Ok(())
}

/// Lowers u32mod assembly instructions into VM operations.
///
/// VM cycles per mode:
/// - u32mod: 3 cycle
/// - u32mod.b:
///    - 5 cycles if b is 1
///    - 4 cycles if b is not 1
pub fn u32mod(span_builder: &mut SpanBuilder, imm: Option<u32>) -> (r: Result<(), AssemblyError>)
    ensures
        imm == Some(0u32) ==> r == Err::<(), AssemblyError>(AssemblyError::DivisionByZero) && *final(span_builder) == *old(span_builder),
        imm != Some(0u32) ==> r is Ok && appends(*old(span_builder), *final(span_builder), division_ops(imm) + seq![O::Swap, O::Drop]),
        imm is None ==> final(span_builder).ops().len() == old(span_builder).ops().len() + 3,
        imm == Some(1u32) ==> final(span_builder).ops().len() == old(span_builder).ops().len() + 5,
        imm is Some && imm != Some(0u32) && imm != Some(1u32) ==> final(span_builder).ops().len() == old(span_builder).ops().len() + 4,
{
    handle_division(span_builder, imm)?;
    span_builder.push_ops(&[O::Swap, O::Drop]);
    proof {
        assert(span_builder.ops() =~= old(span_builder).ops() + (division_ops(imm) + seq![O::Swap, O::Drop]));
    }
    Ok(())
}

/// Lowers u32divmod assembly instructions into VM operations.
///
/// VM cycles per mode:
/// - u32divmod: 1 cycle
/// - u32divmod.b:
///    - 3 cycles if b is 1
///    - 2 cycles if b is not 1
pub fn u32divmod(span_builder: &mut SpanBuilder, imm: Option<u32>) -> (r: Result<(), AssemblyError>)
    ensures
        imm == Some(0u32) ==> r == Err::<(), AssemblyError>(AssemblyError::DivisionByZero) && *final(span_builder) == *old(span_builder),
        imm != Some(0u32) ==> r is Ok && appends(*old(span_builder), *final(span_builder), division_ops(imm)),
        imm is None ==> final(span_builder).ops().len() == old(span_builder).ops().len() + 1,
        imm == Some(1u32) ==> final(span_builder).ops().len() == old(span_builder).ops().len() + 3,
        imm is Some && imm != Some(0u32) && imm != Some(1u32) ==> final(span_builder).ops().len() == old(span_builder).ops().len() + 2,
{
    handle_division(span_builder, imm)
}

/// The operations of `u32not`.
pub open spec fn u32not_ops() -> Seq<O> {
    seq![O::Push(Felt { value: 0xFFFF_FFFF }), O::U32assert2(0), O::Swap, O::U32sub, O::Drop]
}

/// Lowers u32not assembly instruction into VM operations.
///
/// The reason this method works is because 2^32 -1 provides a bit mask of ones, which after
/// subtracting the element, flips the bits of the original value to perform a bitwise NOT.
///
/// This takes 5 VM cycles.
pub fn u32not(span_builder: &mut SpanBuilder)
    ensures
        appends(*old(span_builder), *final(span_builder), u32not_ops()),
        final(span_builder).ops().len() == old(span_builder).ops().len() + 5,
{
    span_builder.push_ops(
        &[
            // Perform the operation
            O::Push(Felt::from_u32(0xFFFF_FFFF)), O::U32assert2(0), O::Swap, O::U32sub,
            // Drop the underflow flag
            O::Drop,
        ],
    );
}

/// The operations that turn `[b, a, ..]` into `[2^b, a, ..]`: NOOP for an immediate 0, a PUSH
/// for another immediate, and the power-of-two sequence when `b` is on the stack.
pub open spec fn prepare_bitwise_ops(imm: Option<u8>) -> Seq<O> {
    match imm {
        Some(v) => if v == 0 {
            seq![O::Noop]
        } else {
            seq![O::Push(Felt { value: pow2(v as nat) as u64 })]
        },
        None => pow2_ops(),
    }
}

/// Two to the power `n`.
pub open spec fn pow2(n: nat) -> nat
    decreases n,
{
    if n == 0 {
        1
    } else {
        2 * pow2((n - 1) as nat)
    }
}

/// Computes `1 << n` for `n` below 32.
fn shift_one(n: u8) -> (r: u64)
    requires
        n <= 32,
    ensures
        r == pow2(n as nat),
{
    let mut r: u64 = 1;
    let mut i: u8 = 0;
    while i < n
        invariant
            i <= n <= 32,
            r == pow2(i as nat),
            r <= 0x1_0000_0000,
        decreases n - i,
    {
        proof {
            lemma_pow2_bound(i as nat);
        }
        r = r * 2;
        i = i + 1;
    }
    r
}

/// Two to the power `n` is at most two to the power 31 for `n` below 32.
pub(crate) proof fn lemma_pow2_bound(n: nat)
    ensures
        n < 32 ==> pow2(n) <= 0x8000_0000,
        n <= 32 ==> pow2(n) <= 0x1_0000_0000,
{
    lemma_pow2_mono(n, 31);
    lemma_pow2_mono(n, 32);
    assert(pow2(31) == 0x8000_0000 && pow2(32) == 0x1_0000_0000) by {
        reveal_with_fuel(pow2, 33);
    }
}

/// Powers of two grow with the exponent.
proof fn lemma_pow2_mono(n: nat, m: nat)
    ensures
        n <= m ==> pow2(n) <= pow2(m),
    decreases m,
{
    if n < m {
        lemma_pow2_mono(n, (m - 1) as nat);
    }
}

/// Mutate the first two elements of the stack from `[b, a, ..]` into `[2^b, a, ..]`, with `b`
/// either as a provided immediate value, or as an element that already exists in the stack.
fn prepare_bitwise(span_builder: &mut SpanBuilder, imm: Option<u8>, max_value: u8) -> (r: Result<(), AssemblyError>)
    requires
        max_value <= 31,
    ensures
        r is Err <==> (imm matches Some(v) && v > max_value),
        r is Err ==> r == Err::<(), AssemblyError>(AssemblyError::InvalidParameter {
            value: imm->Some_0 as u64,
            min: 1,
            max: max_value as u64,
        }) && *final(span_builder) == *old(span_builder),
        r is Ok ==> appends(*old(span_builder), *final(span_builder), prepare_bitwise_ops(imm)),
{
    match imm {
        Some(0) => {
            // if shift/rotation is performed by 0, do nothing (Noop)
            span_builder.push_op(O::Noop);
        },
        Some(imm) => {
            validate_param(imm as u64, 1, max_value as u64)?;
            let v = shift_one(imm);
            proof {
                lemma_pow2_bound(imm as nat);
            }
            span_builder.push_op(O::Push(Felt::from_u32(v as u32)));
        },
        None => {
            append_pow2_op(span_builder);
        },
    }
    Ok(())
}

/// The operations of a shift or rotation by `imm` whose final operations are `tail`.
pub open spec fn bitwise_ops(imm: Option<u8>, tail: Seq<O>) -> Seq<O> {
    prepare_bitwise_ops(imm) + if imm == Some(0u8) {
        Seq::empty()
    } else {
        tail
    }
}

/// Lowers u32shl assembly instructions into VM operations.
///
/// The operation is implemented by putting a power of 2 on the stack, then multiplying it with
/// the value to be shifted and splitting the result.
///
/// VM cycles per mode:
/// - u32shl: 18 cycles
/// - u32shl.b: 3 cycles
pub fn u32shl(span_builder: &mut SpanBuilder, imm: Option<u8>) -> (r: Result<(), AssemblyError>)
    ensures
        r is Err <==> (imm matches Some(v) && v > MAX_U32_SHIFT_VALUE),
        r is Err ==> r == Err::<(), AssemblyError>(AssemblyError::InvalidParameter {
            value: imm->Some_0 as u64,
            min: 1,
            max: MAX_U32_SHIFT_VALUE as u64,
        }),
        r is Err ==> *final(span_builder) == *old(span_builder),
        r is Ok ==> appends(*old(span_builder), *final(span_builder), bitwise_ops(imm, seq![O::U32mul, O::Drop])),
        r is Ok && imm is None ==> final(span_builder).ops().len() == old(span_builder).ops().len() + 18,
        r is Ok && imm is Some && imm != Some(0u8) ==> final(span_builder).ops().len() == old(span_builder).ops().len() + 3,
{
    prepare_bitwise(span_builder, imm, MAX_U32_SHIFT_VALUE)?;
    let ghost mid = span_builder.ops();
    if imm != Some(0u8) {
        span_builder.push_ops(&[O::U32mul, O::Drop]);
    }
    proof {
        assert(span_builder.ops() =~= old(span_builder).ops() + bitwise_ops(imm, seq![O::U32mul, O::Drop]));
    }
    Ok(())
}

/// Lowers u32shr assembly instructions into VM operations.
///
/// The operation is implemented by putting a power of 2 on the stack, then dividing the value to
/// be shifted by it and returning the quotient.
///
/// VM cycles per mode:
/// - u32shr: 18 cycles
/// - u32shr.b: 3 cycles
pub fn u32shr(span_builder: &mut SpanBuilder, imm: Option<u8>) -> (r: Result<(), AssemblyError>)
    ensures
        r is Err <==> (imm matches Some(v) && v > MAX_U32_SHIFT_VALUE),
        r is Err ==> r == Err::<(), AssemblyError>(AssemblyError::InvalidParameter {
            value: imm->Some_0 as u64,
            min: 1,
            max: MAX_U32_SHIFT_VALUE as u64,
        }),
        r is Err ==> *final(span_builder) == *old(span_builder),
        r is Ok ==> appends(*old(span_builder), *final(span_builder), bitwise_ops(imm, seq![O::U32div, O::Drop])),
        r is Ok && imm is None ==> final(span_builder).ops().len() == old(span_builder).ops().len() + 18,
        r is Ok && imm is Some && imm != Some(0u8) ==> final(span_builder).ops().len() == old(span_builder).ops().len() + 3,
{
    prepare_bitwise(span_builder, imm, MAX_U32_SHIFT_VALUE)?;
    if imm != Some(0u8) {
        span_builder.push_ops(&[O::U32div, O::Drop]);
    }
    proof {
        assert(span_builder.ops() =~= old(span_builder).ops() + bitwise_ops(imm, seq![O::U32div, O::Drop]));
    }
    Ok(())
}

/// Lowers u32rotl assembly instructions into VM operations.
///
/// The base operation is implemented by putting a power of 2 on the stack, then multiplying the
/// value to be shifted by it and adding the overflow limb to the shifted limb.
///
/// VM cycles per mode:
/// - u32rotl: 18 cycles
/// - u32rotl.b: 3 cycles
pub fn u32rotl(span_builder: &mut SpanBuilder, imm: Option<u8>) -> (r: Result<(), AssemblyError>)
    ensures
        r is Err <==> (imm matches Some(v) && v > MAX_U32_ROTATE_VALUE),
        r is Err ==> r == Err::<(), AssemblyError>(AssemblyError::InvalidParameter {
            value: imm->Some_0 as u64,
            min: 1,
            max: MAX_U32_ROTATE_VALUE as u64,
        }),
        r is Err ==> *final(span_builder) == *old(span_builder),
        r is Ok ==> appends(*old(span_builder), *final(span_builder), bitwise_ops(imm, seq![O::U32mul, O::Add])),
        r is Ok && imm is None ==> final(span_builder).ops().len() == old(span_builder).ops().len() + 18,
        r is Ok && imm is Some && imm != Some(0u8) ==> final(span_builder).ops().len() == old(span_builder).ops().len() + 3,
{
    prepare_bitwise(span_builder, imm, MAX_U32_ROTATE_VALUE)?;
    if imm != Some(0u8) {
        span_builder.push_ops(&[O::U32mul, O::Add]);
    }
    proof {
        assert(span_builder.ops() =~= old(span_builder).ops() + bitwise_ops(imm, seq![O::U32mul, O::Add]));
    }
    Ok(())
}

/// The operations of `u32rotr` with immediate `imm`.
pub open spec fn u32rotr_ops(imm: Option<u8>) -> Seq<O> {
    match imm {
        Some(v) => if v == 0 {
            seq![O::Noop]
        } else {
            seq![O::Push(Felt { value: pow2((32 - v) as nat) as u64 }), O::U32mul, O::Add]
        },
        None => seq![O::Push(Felt { value: 32 }), O::Swap, O::U32sub, O::Drop] + pow2_ops() + seq![
            O::U32mul,
            O::Add,
        ],
    }
}

/// Lowers u32rotr assembly instructions into VM operations.
///
/// The base operation is implemented by multiplying the value to be shifted by 2^(32-b), where
/// b is the shift amount, then adding the overflow limb to the shifted limb.
///
/// VM cycles per mode:
/// - u32rotr: 22 cycles
/// - u32rotr.b: 3 cycles
pub fn u32rotr(span_builder: &mut SpanBuilder, imm: Option<u8>) -> (r: Result<(), AssemblyError>)
    ensures
        r is Err <==> (imm matches Some(v) && v > MAX_U32_ROTATE_VALUE),
        r is Err ==> r == Err::<(), AssemblyError>(AssemblyError::InvalidParameter {
            value: imm->Some_0 as u64,
            min: 1,
            max: MAX_U32_ROTATE_VALUE as u64,
        }) && *final(span_builder) == *old(span_builder),
        r is Ok ==> appends(*old(span_builder), *final(span_builder), u32rotr_ops(imm)),
        r is Ok && imm is None ==> final(span_builder).ops().len() == old(span_builder).ops().len() + 22,
        r is Ok && imm is Some && imm != Some(0u8) ==> final(span_builder).ops().len() == old(span_builder).ops().len() + 3,
{
    let ghost start = span_builder.ops();
    match imm {
        Some(0) => {
            // if rotation is performed by 0, do nothing (Noop)
            span_builder.push_op(O::Noop);
            return Ok(());
        },
        Some(imm) => {
            validate_param(imm as u64, 1, MAX_U32_ROTATE_VALUE as u64)?;
            let v = shift_one(32 - imm);
            proof {
                lemma_pow2_bound((32 - imm) as nat);
            }
            span_builder.push_op(O::Push(Felt::new(v)));
        },
        None => {
            span_builder.push_ops(&[O::Push(Felt::from_u32(32)), O::Swap, O::U32sub, O::Drop]);
            append_pow2_op(span_builder);
        },
    }
    span_builder.push_ops(&[O::U32mul, O::Add]);
    proof {
        assert(span_builder.ops() =~= start + u32rotr_ops(imm));
    }
    Ok(())
}

/// The operations of `u32popcnt`.
pub open spec fn u32popcnt_ops() -> Seq<O> {
    seq![
        O::Dup0, O::Push(Felt { value: 2 }), O::U32div, O::Drop, O::Push(Felt { value: 0x55555555 }),
        O::U32and, O::U32sub, O::Drop, O::Dup0, O::Push(Felt { value: 4 }), O::U32div, O::Drop,
        O::Push(Felt { value: 0x33333333 }), O::U32and, O::Swap, O::Push(Felt { value: 0x33333333 }),
        O::U32and, O::U32add, O::Drop, O::Dup0, O::Push(Felt { value: 16 }), O::U32div, O::Drop,
        O::U32add, O::Drop, O::Push(Felt { value: 0x0F0F0F0F }), O::U32and,
        O::Push(Felt { value: 0x01010101 }), O::U32mul, O::Drop, O::Push(Felt { value: 0x1000000 }),
        O::U32div, O::Drop,
    ]
}

/// Lowers u32popcnt assembly instructions into VM operations.
///
/// This operation takes 33 cycles.
pub fn u32popcnt(span_builder: &mut SpanBuilder)
    ensures
        appends(*old(span_builder), *final(span_builder), u32popcnt_ops()),
        final(span_builder).ops().len() == old(span_builder).ops().len() + 33,
{
    span_builder.push_ops(
        &[
            // i = i - ((i >> 1) & 0x55555555);
            O::Dup0, O::Push(Felt::from_u32(2)), O::U32div, O::Drop, O::Push(Felt::from_u32(0x55555555)),
            O::U32and, O::U32sub, O::Drop,
            // i = (i & 0x33333333) + ((i >> 2) & 0x33333333);
            O::Dup0, O::Push(Felt::from_u32(4)), O::U32div, O::Drop, O::Push(Felt::from_u32(0x33333333)),
            O::U32and, O::Swap, O::Push(Felt::from_u32(0x33333333)), O::U32and, O::U32add, O::Drop,
            // i = (i + (i >> 4)) & 0x0F0F0F0F;
            O::Dup0, O::Push(Felt::from_u32(16)), O::U32div, O::Drop, O::U32add, O::Drop,
            O::Push(Felt::from_u32(0x0F0F0F0F)), O::U32and,
            // return (i * 0x01010101) >> 24;
            O::Push(Felt::from_u32(0x01010101)), O::U32mul, O::Drop, O::Push(Felt::from_u32(0x1000000)),
            O::U32div, O::Drop,
        ],
    );
}

/// The correctness check of the `U32Clz` injector.
pub open spec fn clz_ops() -> Seq<O> {
    seq![O::Swap, O::Push(Felt { value: 32 }), O::Dup2, O::Neg, O::Add] + pow2_ops() + seq![
        O::Push(Felt { value: 0x1_0000_0000 }), O::Dup1, O::Neg, O::Add, O::Swap,
        O::Push(Felt { value: 2 }), O::U32div, O::Drop, O::Swap, O::Dup1, O::Add, O::MovUp2,
        O::U32and, O::Eq, O::Assert(0),
    ]
}

/// The correctness check of the `U32Clo` injector.
pub open spec fn clo_ops() -> Seq<O> {
    seq![O::Swap, O::Push(Felt { value: 32 }), O::Dup2, O::Neg, O::Add] + pow2_ops() + seq![
        O::Push(Felt { value: 0x1_0000_0000 }), O::Dup1, O::Neg, O::Add, O::Swap,
        O::Push(Felt { value: 2 }), O::U32div, O::Drop, O::Dup1, O::Add, O::MovUp2, O::U32and,
        O::Eq, O::Assert(0),
    ]
}

/// The correctness check of the `U32Ctz` injector.
pub open spec fn ctz_ops() -> Seq<O> {
    seq![O::Swap, O::Dup1] + pow2_ops() + seq![
        O::Dup0, O::Pad, O::Incr, O::Neg, O::Add, O::Swap, O::U32split, O::Drop, O::Dup0, O::MovUp2,
        O::Add, O::MovUp2, O::U32and, O::Eq, O::Assert(0),
    ]
}

/// The correctness check of the `U32Cto` injector.
pub open spec fn cto_ops() -> Seq<O> {
    seq![O::Swap, O::Dup1] + pow2_ops() + seq![
        O::Dup0, O::Pad, O::Incr, O::Neg, O::Add, O::Swap, O::U32split, O::Drop, O::Dup1, O::Add,
        O::MovUp2, O::U32and, O::Eq, O::Assert(0),
    ]
}

fn calculate_clz(span: &mut SpanBuilder)
    ensures
        appends(*old(span), *final(span), clz_ops()),
{
    // [clz, n, ...]
    span.push_ops(&[O::Swap, O::Push(Felt::from_u32(32)), O::Dup2, O::Neg, O::Add]);
    append_pow2_op(span);  // [pow2(32 - clz), n, clz, ...]
    span.push_ops(
        &[
            O::Push(Felt::new(0x1_0000_0000)),  // [2^32, pow2(32 - clz), n, clz, ...]
            O::Dup1, O::Neg, O::Add,  // [2^32 - pow2(32 - clz), pow2(32 - clz), n, clz, ...]
            O::Swap, O::Push(Felt::from_u32(2)), O::U32div, O::Drop,  // [pow2(32 - clz) / 2, ...]
            O::Swap, O::Dup1, O::Add,  // [bit_mask, pow2(32 - clz) / 2, n, clz, ...]
            O::MovUp2, O::U32and,  // [m, pow2(32 - clz) / 2, clz]
            O::Eq, O::Assert(0),  // [clz, ...]
        ],
    );
    proof {
        assert(final(span).ops() =~= old(span).ops() + clz_ops());
    }
}

fn calculate_clo(span: &mut SpanBuilder)
    ensures
        appends(*old(span), *final(span), clo_ops()),
{
    // [clo, n, ...]
    span.push_ops(&[O::Swap, O::Push(Felt::from_u32(32)), O::Dup2, O::Neg, O::Add]);
    append_pow2_op(span);  // [pow2(32 - clo), n, clo, ...]
    span.push_ops(
        &[
            O::Push(Felt::new(0x1_0000_0000)),  // [2^32, pow2(32 - clo), n, clo, ...]
            O::Dup1, O::Neg, O::Add,  // [2^32 - pow2(32 - clo), pow2(32 - clo), n, clo, ...]
            O::Swap, O::Push(Felt::from_u32(2)), O::U32div, O::Drop,  // [pow2(32 - clo) / 2, ...]
            O::Dup1, O::Add,  // [bit_mask, 2^32 - pow2(32 - clo), n, clo, ...]
            O::MovUp2, O::U32and,  // [m, 2^32 - pow2(32 - clo), clo]
            O::Eq, O::Assert(0),  // [clo, ...]
        ],
    );
    proof {
        assert(final(span).ops() =~= old(span).ops() + clo_ops());
    }
}

fn calculate_ctz(span: &mut SpanBuilder)
    ensures
        appends(*old(span), *final(span), ctz_ops()),
{
    // [ctz, n, ...]
    span.push_ops(&[O::Swap, O::Dup1]);
    append_pow2_op(span);  // [pow2(ctz), n, ctz, ...]
    span.push_ops(
        &[
            O::Dup0,  // [pow2(ctz), pow2(ctz), n, ctz, ...]
            O::Pad, O::Incr, O::Neg, O::Add,  // [pow2(ctz) - 1, pow2(ctz), n, ctz, ...]
            O::Swap, O::U32split, O::Drop,  // [pow2(ctz), pow2(ctz) - 1, n, ctz, ...]
            O::Dup0, O::MovUp2, O::Add,  // [bit_mask, pow2(ctz), n, ctz]
            O::MovUp2, O::U32and,  // [m, pow2(ctz), ctz]
            O::Eq, O::Assert(0),  // [ctz, ...]
        ],
    );
    proof {
        assert(final(span).ops() =~= old(span).ops() + ctz_ops());
    }
}

fn calculate_cto(span: &mut SpanBuilder)
    ensures
        appends(*old(span), *final(span), cto_ops()),
{
    // [cto, n, ...]
    span.push_ops(&[O::Swap, O::Dup1]);
    append_pow2_op(span);  // [pow2(cto), n, cto, ...]
    span.push_ops(
        &[
            O::Dup0,  // [pow2(cto), pow2(cto), n, cto, ...]
            O::Pad, O::Incr, O::Neg, O::Add,  // [pow2(cto) - 1, pow2(cto), n, cto, ...]
            O::Swap, O::U32split, O::Drop,  // [pow2(cto), pow2(cto) - 1, n, cto, ...]
            O::Dup1, O::Add,  // [bit_mask, pow2(cto) - 1, n, cto]
            O::MovUp2, O::U32and,  // [m, pow2(cto) - 1, cto]
            O::Eq, O::Assert(0),  // [cto, ...]
        ],
    );
    proof {
        assert(final(span).ops() =~= old(span).ops() + cto_ops());
    }
}

/// Lowers `u32clz` assembly instruction into VM operations. `u32clz` counts the number of
/// leading zeros of the value using non-deterministic technique (i.e. it takes help of advice
/// provider).
///
/// This operation takes 37 VM cycles.
pub fn u32clz(span: &mut SpanBuilder)
    ensures
        appends_decorated(*old(span), *final(span), Decorator::Advice(AdviceInjector::U32Clz), seq![O::AdvPop] + clz_ops()),
        final(span).ops().len() == old(span).ops().len() + 37,
{
    span.push_decorator(Decorator::Advice(AdviceInjector::U32Clz));
    span.push_op(O::AdvPop);  // [clz, n, ...]
    calculate_clz(span);
}

/// Lowers `u32ctz` assembly instruction into VM operations. `u32ctz` counts the number of
/// trailing zeros of the value using non-deterministic technique (i.e. it takes help of advice
/// provider).
///
/// This operation takes 34 VM cycles.
pub fn u32ctz(span: &mut SpanBuilder)
    ensures
        appends_decorated(*old(span), *final(span), Decorator::Advice(AdviceInjector::U32Ctz), seq![O::AdvPop] + ctz_ops()),
        final(span).ops().len() == old(span).ops().len() + 34,
{
    span.push_decorator(Decorator::Advice(AdviceInjector::U32Ctz));
    span.push_op(O::AdvPop);  // [ctz, n, ...]
    calculate_ctz(span);
}

/// Lowers `u32clo` assembly instruction into VM operations. `u32clo` counts the number of
/// leading ones of the value using non-deterministic technique (i.e. it takes help of advice
/// provider).
///
/// This operation takes 36 VM cycles.
pub fn u32clo(span: &mut SpanBuilder)
    ensures
        appends_decorated(*old(span), *final(span), Decorator::Advice(AdviceInjector::U32Clo), seq![O::AdvPop] + clo_ops()),
        final(span).ops().len() == old(span).ops().len() + 36,
{
    span.push_decorator(Decorator::Advice(AdviceInjector::U32Clo));
    span.push_op(O::AdvPop);  // [clo, n, ...]
    calculate_clo(span);
}

/// Lowers `u32cto` assembly instruction into VM operations. `u32cto` counts the number of
/// trailing ones of the value using non-deterministic technique (i.e. it takes help of advice
/// provider).
///
/// This operation takes 33 VM cycles.
pub fn u32cto(span: &mut SpanBuilder)
    ensures
        appends_decorated(*old(span), *final(span), Decorator::Advice(AdviceInjector::U32Cto), seq![O::AdvPop] + cto_ops()),
        final(span).ops().len() == old(span).ops().len() + 33,
{
    span.push_decorator(Decorator::Advice(AdviceInjector::U32Cto));
    span.push_op(O::AdvPop);  // [cto, n, ...]
    calculate_cto(span);
}

/// The operations that check whether the second element is less than the top one.
pub open spec fn compute_lt_ops() -> Seq<O> {
    seq![O::U32sub, O::Swap, O::Drop]
}

fn compute_lt(span_builder: &mut SpanBuilder)
    ensures
        appends(*old(span_builder), *final(span_builder), compute_lt_ops()),
{
    span_builder.push_ops(&[O::U32sub, O::Swap, O::Drop]);
}

/// Lowers u32lt assembly instructions into VM operations.
///
/// This operation takes 3 cycles.
pub fn u32lt(span_builder: &mut SpanBuilder)
    ensures
        appends(*old(span_builder), *final(span_builder), compute_lt_ops()),
        final(span_builder).ops().len() == old(span_builder).ops().len() + 3,
{
    compute_lt(span_builder);
}

/// Lowers u32lte assembly instructions into VM operations.
///
/// This operation takes 5 cycles.
pub fn u32lte(span_builder: &mut SpanBuilder)
    ensures
        appends(*old(span_builder), *final(span_builder), seq![O::Swap] + compute_lt_ops() + seq![O::Not]),
        final(span_builder).ops().len() == old(span_builder).ops().len() + 5,
{
    // Compute the lt with reversed number to get a gt check
    span_builder.push_op(O::Swap);
    compute_lt(span_builder);
    // Flip the final results to get the lte results.
    span_builder.push_op(O::Not);
    proof {
        assert(final(span_builder).ops() =~= old(span_builder).ops() + (seq![O::Swap] + compute_lt_ops() + seq![O::Not]));
    }
}

/// Lowers u32gt assembly instructions into VM operations.
///
/// This operation takes 4 cycles.
pub fn u32gt(span_builder: &mut SpanBuilder)
    ensures
        appends(*old(span_builder), *final(span_builder), seq![O::Swap] + compute_lt_ops()),
        final(span_builder).ops().len() == old(span_builder).ops().len() + 4,
{
    // Reverse the numbers so we can get a gt check.
    span_builder.push_op(O::Swap);
    compute_lt(span_builder);
    proof {
        assert(final(span_builder).ops() =~= old(span_builder).ops() + (seq![O::Swap] + compute_lt_ops()));
    }
}

/// Lowers u32gte assembly instructions into VM operations.
///
/// This operation takes 4 cycles.
pub fn u32gte(span_builder: &mut SpanBuilder)
    ensures
        appends(*old(span_builder), *final(span_builder), compute_lt_ops() + seq![O::Not]),
        final(span_builder).ops().len() == old(span_builder).ops().len() + 4,
{
    compute_lt(span_builder);
    // Flip the final results to get the gte results.
    span_builder.push_op(O::Not);
    proof {
        assert(final(span_builder).ops() =~= old(span_builder).ops() + (compute_lt_ops() + seq![O::Not]));
    }
}

/// The operations that put the max and then the min of the top two elements on the stack.
pub open spec fn max_and_min_ops() -> Seq<O> {
    seq![O::Dup1, O::Dup1, O::U32sub, O::Swap, O::Drop, O::Eqz, O::CSwap]
}

/// Duplicate the top two elements in the stack and determine the min and max between them.
///
/// The maximum number will be at the top of the stack and minimum will be at the 2nd index.
fn compute_max_and_min(span_builder: &mut SpanBuilder)
    ensures
        appends(*old(span_builder), *final(span_builder), max_and_min_ops()),
{
    // Copy top two elements of the stack.
    span_builder.push_ops(&[O::Dup1, O::Dup1]);
    // Check the underflow flag, if it's zero then the second number is equal or larger than the
    // first.
    span_builder.push_ops(&[O::U32sub, O::Swap, O::Drop, O::Eqz, O::CSwap]);
    proof {
        assert(final(span_builder).ops() =~= old(span_builder).ops() + max_and_min_ops());
    }
}

/// Lowers u32min assembly instructions into VM operations.
///
/// This operation takes 8 cycles.
pub fn u32min(span_builder: &mut SpanBuilder)
    ensures
        appends(*old(span_builder), *final(span_builder), max_and_min_ops() + seq![O::Drop]),
        final(span_builder).ops().len() == old(span_builder).ops().len() + 8,
{
    compute_max_and_min(span_builder);
    // Drop the max and keep the min
    span_builder.push_op(O::Drop);
    proof {
        assert(final(span_builder).ops() =~= old(span_builder).ops() + (max_and_min_ops() + seq![O::Drop]));
    }
}

/// Lowers u32max assembly instructions into VM operations.
///
/// This operation takes 9 cycles.
pub fn u32max(span_builder: &mut SpanBuilder)
    ensures
        appends(*old(span_builder), *final(span_builder), max_and_min_ops() + seq![O::Swap, O::Drop]),
        final(span_builder).ops().len() == old(span_builder).ops().len() + 9,
{
    compute_max_and_min(span_builder);
    // Drop the min and keep the max
    span_builder.push_ops(&[O::Swap, O::Drop]);
    proof {
        assert(final(span_builder).ops() =~= old(span_builder).ops() + (max_and_min_ops() + seq![O::Swap, O::Drop]));
    }
}

} // verus!
