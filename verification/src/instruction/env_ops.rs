//! Constants, environment inputs and advice inputs.

use vstd::prelude::*;

use crate::errors::AssemblyError;
use crate::felt::Felt;
use crate::instruction::mem_ops::{local_addr_ops, local_to_absolute_addr};
use crate::instruction::{appends, push_felt, push_felt_ops};
use crate::ops::Operation as O;
use crate::procedure::ProcedureContext;
use crate::span_builder::SpanBuilder;

verus! {

/// The largest number of elements read from the advice stack at once.
pub const ADVICE_READ_LIMIT: u8 = 16;

/// Appends `PUSH` operation to the span block to push provided constant value onto the stack.
///
/// In cases when the immediate value is 0, `PUSH` operation is replaced with `PAD`. Also, in cases
/// when immediate value is 1, `PUSH` operation is replaced with `PAD INCR` because in most cases
/// this will be more efficient than doing a `PUSH`.
pub fn push_one(imm: Felt, span: &mut SpanBuilder)
    ensures
        appends(*old(span), *final(span), push_felt_ops(imm)),
{
    push_felt(span, imm);
}

/// The operations that push each of `imms` in turn.
pub open spec fn push_many_ops(imms: Seq<Felt>) -> Seq<O>
    decreases imms.len(),
{
    if imms.len() == 0 {
        Seq::empty()
    } else {
        push_many_ops(imms.drop_last()) + push_felt_ops(imms.last())
    }
}

/// Appends `PUSH` operations to the span block to push two or more provided constant values onto
/// the stack.
///
/// In cases when the immediate value is 0, `PUSH` operation is replaced with `PAD`. Also, in cases
/// when immediate value is 1, `PUSH` operation is replaced with `PAD INCR` because in most cases
/// this will be more efficient than doing a `PUSH`.
pub fn push_many(imms: &[Felt], span: &mut SpanBuilder)
    ensures
        appends(*old(span), *final(span), push_many_ops(imms@)),
{
    let ghost start = span.ops();
    let n = imms.len();
    let mut i: usize = 0;
    while i < n
        invariant
            n == imms@.len(),
            i <= n,
            appends(*old(span), *span, push_many_ops(imms@.take(i as int))),
        decreases n - i,
    {
        push_felt(span, imms[i]);
        proof {
            assert(imms@.take(i + 1).drop_last() =~= imms@.take(i as int));
        }
        i = i + 1;
    }
    proof {
        assert(imms@.take(n as int) =~= imms@);
    }
}

/// Appends a sequence of operations to the span needed for executing locaddr.i instruction. This
/// consists of putting i onto the stack and then executing LOCADDR operation.
///
/// # Errors
/// Returns an error if index is greater than the number of procedure locals.
pub fn locaddr(span: &mut SpanBuilder, index: u16, proc_ctx: &ProcedureContext) -> (r: Result<(), AssemblyError>)
    requires
        proc_ctx.spec_num_locals() > 0,
    ensures
        r is Ok <==> index < proc_ctx.spec_num_locals(),
        r is Err ==> r == Err::<(), AssemblyError>(AssemblyError::InvalidParameter {
            value: index as u64,
            min: 0,
            max: (proc_ctx.spec_num_locals() - 1) as u64,
        }),
        r is Err ==> *final(span) == *old(span),
        r is Ok ==> appends(*old(span), *final(span), local_addr_ops(index, proc_ctx.spec_num_locals())),
{
    local_to_absolute_addr(span, index, proc_ctx.num_locals())
}

/// Appends CALLER operation to the span which puts the hash of the function which initiated the
/// current SYSCALL onto the stack.
///
/// # Errors
/// Returns an error if the instruction is being executed outside of kernel context.
pub fn caller(span: &mut SpanBuilder, proc_ctx: &ProcedureContext) -> (r: Result<(), AssemblyError>)
    ensures
        !proc_ctx.spec_is_kernel() ==> r == Err::<(), AssemblyError>(AssemblyError::CallerOutsideOfKernel) && *final(span) == *old(span),
        proc_ctx.spec_is_kernel() ==> r is Ok && appends(*old(span), *final(span), seq![O::Caller]),
{
    if !proc_ctx.is_kernel() {
        return Err(AssemblyError::CallerOutsideOfKernel);
    }
    span.push_op(O::Caller);
    Ok(())
}

/// Appends the number of ADVPOP operations specified by the instruction's immediate value to the
/// span. This pops the specified number of elements from the advice stack and pushes them onto the
/// operand stack.
///
/// # Errors
/// Returns an error if the specified number of values to pushed is smaller than 1 or greater
/// than 16.
pub fn adv_push(span: &mut SpanBuilder, n: u8) -> (r: Result<(), AssemblyError>)
    ensures
        r is Ok <==> 1 <= n <= ADVICE_READ_LIMIT,
        r is Err ==> r == Err::<(), AssemblyError>(AssemblyError::InvalidParameter {
            value: n as u64,
            min: 1,
            max: ADVICE_READ_LIMIT as u64,
        }) && *final(span) == *old(span),
        r is Ok ==> appends(*old(span), *final(span), Seq::new(n as nat, |i: int| O::AdvPop)),
{
    let min: u8 = 1;
    let max = ADVICE_READ_LIMIT;
    if n < min || n > max {
        return Err(AssemblyError::InvalidParameter { value: n as u64, min: min as u64, max: max as u64 });
    }
    span.push_op_many(O::AdvPop, n as usize);
    Ok(())
}

} // verus!
