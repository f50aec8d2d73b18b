//! Lowering of assembly instructions into VM operations.

pub mod ext2_ops;
pub mod field_ops;
pub mod u32_ops;
pub mod crypto_ops;
pub mod mem_ops;
pub mod env_ops;
pub mod compile;
pub mod semantics;

use vstd::prelude::*;

use crate::errors::AssemblyError;
use crate::felt::Felt;
use crate::ops::{Decorator, Operation};
use crate::span_builder::SpanBuilder;

verus! {

/// `new` is `old` with `ops` appended to its operations, and nothing else changed.
pub open spec fn appends(old: SpanBuilder, new: SpanBuilder, ops: Seq<Operation>) -> bool {
    &&& new.ops() =~= old.ops() + ops
    &&& new.decorators() == old.decorators()
    &&& new.epilogue() == old.epilogue()
    &&& new.last_asmop_pos() == old.last_asmop_pos()
}

/// `new` is `old` with decorator `d` attached at the current position, then `ops` appended to its
/// operations, and nothing else changed.
pub open spec fn appends_decorated(
    old: SpanBuilder,
    new: SpanBuilder,
    d: Decorator,
    ops: Seq<Operation>,
) -> bool {
    &&& new.ops() =~= old.ops() + ops
    &&& new.decorators() == old.decorators().push((old.ops().len() as usize, d))
    &&& new.epilogue() == old.epilogue()
    &&& new.last_asmop_pos() == old.last_asmop_pos()
}

/// The operations that put a 32-bit value on the stack: PAD for 0, PAD INCR for 1, otherwise
/// a PUSH.
pub open spec fn push_u32_ops(value: u32) -> Seq<Operation> {
    if value == 0 {
        seq![Operation::Pad]
    } else if value == 1 {
        seq![Operation::Pad, Operation::Incr]
    } else {
        seq![Operation::Push(Felt { value: value as u64 })]
    }
}

/// The operations that put a field element on the stack: PAD for 0, PAD INCR for 1, otherwise a
/// PUSH.
pub open spec fn push_felt_ops(value: Felt) -> Seq<Operation> {
    if value.value == 0 {
        seq![Operation::Pad]
    } else if value.value == 1 {
        seq![Operation::Pad, Operation::Incr]
    } else {
        seq![Operation::Push(value)]
    }
}

/// Appends a PUSH operation which puts the provided u32 value onto the stack.
///
/// When the value is 0, PUSH operation is replaced with PAD. When the value is 1, PUSH operation
/// is replaced with PAD INCR because in most cases this will be more efficient than doing a PUSH.
pub fn push_u32_value(span: &mut SpanBuilder, value: u32)
    ensures
        appends(*old(span), *final(span), push_u32_ops(value)),
{
    if value == 0 {
        span.push_op(Operation::Pad);
    } else if value == 1 {
        span.push_op(Operation::Pad);
        span.push_op(Operation::Incr);
    } else {
        span.push_op(Operation::Push(Felt::from_u32(value)));
    }
}

/// Appends a PUSH operation which puts the provided field element onto the stack.
///
/// When the value is 0, PUSH operation is replaced with PAD. When the value is 1, PUSH operation
/// is replaced with PAD INCR because in most cases this will be more efficient than doing a PUSH.
pub fn push_felt(span: &mut SpanBuilder, value: Felt)
    ensures
        appends(*old(span), *final(span), push_felt_ops(value)),
{
    if value.value == 0 {
        span.push_op(Operation::Pad);
    } else if value.value == 1 {
        span.push_op(Operation::Pad);
        span.push_op(Operation::Incr);
    } else {
        span.push_op(Operation::Push(value));
    }
}

/// Returns an error if `value` lies outside the range `min..=max`. Otherwise, returns Ok(()).
pub fn validate_param(value: u64, min: u64, max: u64) -> (r: Result<(), AssemblyError>)
    ensures
        r is Ok <==> min <= value <= max,
        r is Err ==> r == Err::<(), AssemblyError>(AssemblyError::InvalidParameter { value, min, max }),
{
    if min <= value && value <= max {
        Ok(())
    } else {
        Err(AssemblyError::InvalidParameter { value, min, max })
    }
}

} // verus!
