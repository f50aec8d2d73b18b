//! Memory reads and writes, and local addresses.

use vstd::prelude::*;

use crate::errors::AssemblyError;
use crate::felt::{Felt, MODULUS};
use crate::instruction::{appends, push_felt, push_felt_ops, push_u32_ops, push_u32_value, validate_param};
use crate::ops::Operation as O;
use crate::procedure::ProcedureContext;
use crate::span_builder::{SpanBlock, SpanBuilder};

verus! {

/// The additive inverse of `x` in the base field, for `x` below the modulus.
pub open spec fn neg_value(x: u64) -> u64 {
    if x == 0 {
        0
    } else {
        (MODULUS - x) as u64
    }
}

/// The operations that turn the index of a local into its absolute address, for a procedure with
/// `num_proc_locals` locals: the offset of the local from the frame pointer, then `FMPADD`. Index 1
/// puts the offset of index 0 and increments it.
pub open spec fn local_addr_ops(index: u16, num_proc_locals: u16) -> Seq<O> {
    if index == 1 {
        seq![O::Push(Felt { value: neg_value((num_proc_locals - 1) as u64) }), O::Incr, O::FmpAdd]
    } else {
        push_felt_ops(Felt { value: neg_value((num_proc_locals - 1 - index) as u64) }) + seq![O::FmpAdd]
    }
}

/// Appends a sequence of operations to the span needed for converting procedure local index to
/// absolute memory address. This consists of putting index onto the stack and then executing
/// LOCADDR operation.
///
/// This operation takes:
/// - 3 VM cycles if index == 1
/// - 2 VM cycles if index != 1
///
/// # Errors
/// Returns an error if index is greater than the number of procedure locals.
pub fn local_to_absolute_addr(span: &mut SpanBuilder, index: u16, num_proc_locals: u16) -> (r: Result<(), AssemblyError>)
    requires
        num_proc_locals > 0,
    ensures
        r is Ok <==> index < num_proc_locals,
        r is Err ==> r == Err::<(), AssemblyError>(AssemblyError::InvalidParameter {
            value: index as u64,
            min: 0,
            max: (num_proc_locals - 1) as u64,
        }) && *final(span) == *old(span),
        r is Ok ==> appends(*old(span), *final(span), local_addr_ops(index, num_proc_locals)),
        r is Ok ==> final(span).ops().len() == old(span).ops().len() + (if index == 1 { 3int } else { 2int }),
{
    let max = num_proc_locals - 1;
    validate_param(index as u64, 0, max as u64)?;
    let ghost start = span.ops();
    if index == 1 {
        span.push_op(O::Push(Felt::from_u32(max as u32).neg()));
        span.push_op(O::Incr);
    } else {
        push_felt(span, Felt::from_u32((max - index) as u32).neg());
    }
    span.push_op(O::FmpAdd);
    proof {
        assert(span.ops() =~= start + local_addr_ops(index, num_proc_locals));
    }
    Ok(())
}

/// The operation that puts the memory address `a` on the stack: `PAD` for 0, else a `PUSH`.
pub open spec fn mem_addr_ops(a: u32) -> Seq<O> {
    if a == 1 {
        seq![O::Push(Felt { value: 1 })]
    } else {
        push_u32_ops(a)
    }
}

/// The operations that put the address `addr` on the stack, if it is given.
pub open spec fn address_ops(addr: Option<u32>, is_local: bool, num_proc_locals: u16) -> Seq<O> {
    match addr {
        Some(a) => if is_local {
            local_addr_ops(a as u16, num_proc_locals)
        } else {
            mem_addr_ops(a)
        },
        None => Seq::empty(),
    }
}

/// The address is valid: a local address must name one of the procedure's locals.
pub open spec fn valid_address(addr: Option<u32>, is_local: bool, num_proc_locals: u16) -> bool {
    is_local ==> (addr matches Some(a) && (a as u16) < num_proc_locals)
}

/// The error for a local index that names none of the procedure's locals.
pub open spec fn local_index_error(addr: Option<u32>, num_proc_locals: u16) -> AssemblyError {
    AssemblyError::InvalidParameter {
        value: (addr->0 as u16) as u64,
        min: 0,
        max: (num_proc_locals - 1) as u64,
    }
}

/// Puts the address on the stack, if given.
fn push_address(span: &mut SpanBuilder, num_proc_locals: u16, addr: Option<u32>, is_local: bool) -> (r: Result<(), AssemblyError>)
    requires
        is_local ==> addr is Some && num_proc_locals > 0,
    ensures
        r is Ok <==> valid_address(addr, is_local, num_proc_locals),
        r is Err ==> *final(span) == *old(span),
        r is Err ==> r == Err::<(), AssemblyError>(local_index_error(addr, num_proc_locals)),
        r is Ok ==> appends(*old(span), *final(span), address_ops(addr, is_local, num_proc_locals)),
{
    let ghost start = span.ops();
    // if the address was provided as an immediate value, put it onto the stack
    if let Some(addr) = addr {
        if is_local {
            local_to_absolute_addr(span, addr as u16, num_proc_locals)?;
        } else if addr == 1 {
            span.push_op(O::Push(Felt::one()));
        } else {
            push_u32_value(span, addr);
        }
    }
    proof {
        assert(span.ops() =~= start + address_ops(addr, is_local, num_proc_locals));
    }
    Ok(())
}

/// Appends operations to the span needed to execute a memory read instruction. This includes
/// reading a single element or an entire word from either local or global memory. Specifically,
/// this handles mem_load, mem_loadw, loc_load, and loc_loadw instructions.
///
/// VM cycles per operation:
/// - mem_load(w): 1 cycle
/// - mem_load(w).b: 2 cycles
/// - loc_load(w).b:
///    - 4 cycles if b = 1
///    - 3 cycles if b != 1
///
/// # Errors
/// Returns an error if we are reading from local memory and local memory index is greater than
/// the number of procedure locals.
pub fn mem_read(
    span: &mut SpanBuilder,
    context: &ProcedureContext,
    addr: Option<u32>,
    is_local: bool,
    is_single: bool,
) -> (r: Result<Option<SpanBlock>, AssemblyError>)
    requires
        is_local ==> addr is Some && context.spec_num_locals() > 0,
    ensures
        r is Ok <==> valid_address(addr, is_local, context.spec_num_locals()),
        r is Err ==> *final(span) == *old(span),
        r is Err ==> r == Err::<Option<SpanBlock>, AssemblyError>(local_index_error(addr, context.spec_num_locals())),
        r is Ok ==> (r matches Ok(None) && appends(*old(span), *final(span),
            address_ops(addr, is_local, context.spec_num_locals()) + seq![if is_single { O::MLoad } else { O::MLoadW }])),
        r is Ok && addr is None ==> final(span).ops().len() == old(span).ops().len() + 1,
        r is Ok && !is_local && addr is Some ==> final(span).ops().len() == old(span).ops().len() + 2,
        r is Ok && is_local ==> final(span).ops().len() == old(span).ops().len() + (if addr->0 as u16 == 1 { 4int } else { 3int }),
{
    push_address(span, context.num_locals(), addr, is_local)?;
    // load from the memory address on top of the stack
    if is_single {
        span.push_op(O::MLoad);
    } else {
        span.push_op(O::MLoadW);
    }
    proof {
        assert(final(span).ops() =~= old(span).ops() + (address_ops(addr, is_local, context.spec_num_locals()) + seq![if is_single { O::MLoad } else { O::MLoadW }]));
    }
    Ok(None)
}

/// Appends operations to the span needed to execute a memory write instruction. This includes
/// writing a single element or an entire word into either local or global memory. Specifically,
/// this handles mem_store, mem_storew, loc_store, and loc_storew instructions.
///
/// VM cycles per operation:
/// - mem_store(w): 1 cycle
/// - mem_store(w).b: 2 cycles
/// - loc_store(w).b:
///    - 4 cycles if b = 1
///    - 3 cycles if b != 1
///
/// # Errors
/// Returns an error if we are writing to local memory and local memory index is greater than
/// the number of procedure locals.
pub fn mem_write(
    span: &mut SpanBuilder,
    context: &ProcedureContext,
    addr: Option<u32>,
    is_local: bool,
    is_single: bool,
) -> (r: Result<Option<SpanBlock>, AssemblyError>)
    requires
        is_local ==> addr is Some && context.spec_num_locals() > 0,
    ensures
        r is Ok <==> valid_address(addr, is_local, context.spec_num_locals()),
        r is Err ==> *final(span) == *old(span),
        r is Err ==> r == Err::<Option<SpanBlock>, AssemblyError>(local_index_error(addr, context.spec_num_locals())),
        r is Ok ==> (r matches Ok(None) && appends(*old(span), *final(span),
            address_ops(addr, is_local, context.spec_num_locals()) + seq![if is_single { O::MStore } else { O::MStoreW }])),
        r is Ok && addr is None ==> final(span).ops().len() == old(span).ops().len() + 1,
        r is Ok && !is_local && addr is Some ==> final(span).ops().len() == old(span).ops().len() + 2,
        r is Ok && is_local ==> final(span).ops().len() == old(span).ops().len() + (if addr->0 as u16 == 1 { 4int } else { 3int }),
{
    push_address(span, context.num_locals(), addr, is_local)?;
    if is_single {
        span.push_op(O::MStore);
    } else {
        span.push_op(O::MStoreW);
    }
    proof {
        assert(final(span).ops() =~= old(span).ops() + (address_ops(addr, is_local, context.spec_num_locals()) + seq![if is_single { O::MStore } else { O::MStoreW }]));
    }
    Ok(None)
}

} // verus!
