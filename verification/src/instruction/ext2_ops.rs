//! Arithmetic in the quadratic extension of the base field.

use vstd::prelude::*;

use crate::errors::AssemblyError;
use crate::instruction::{appends, appends_decorated};
use crate::ops::{AdviceInjector, Decorator, Operation as O};
use crate::span_builder::{SpanBlock, SpanBuilder};

verus! {

/// The operations of `ext2add`.
pub open spec fn ext2_add_ops() -> Seq<O> {
    seq![O::Swap, O::MovUp3, O::Add, O::MovDn2, O::Add]
}

/// The operations of `ext2sub`.
pub open spec fn ext2_sub_ops() -> Seq<O> {
    seq![O::Neg, O::Swap, O::Neg, O::MovUp3, O::Add, O::MovDn2, O::Add]
}

/// The operations of `ext2mul`.
pub open spec fn ext2_mul_ops() -> Seq<O> {
    seq![O::Ext2Mul, O::Drop, O::Drop]
}

/// The operations of `ext2div`, after its `Ext2Inv` advice decorator.
pub open spec fn ext2_div_ops() -> Seq<O> {
    seq![
        O::AdvPop, O::AdvPop, O::Ext2Mul, O::MovUp2, O::Eqz, O::Assert(0), O::MovUp2, O::Assert(0),
        O::Ext2Mul, O::Drop, O::Drop,
    ]
}

/// The operations of `ext2neg`.
pub open spec fn ext2_neg_ops() -> Seq<O> {
    seq![O::Neg, O::Swap, O::Neg, O::Swap]
}

/// The operations of `ext2inv`, after its `Ext2Inv` advice decorator.
pub open spec fn ext2_inv_ops() -> Seq<O> {
    seq![O::AdvPop, O::AdvPop, O::Ext2Mul, O::MovUp2, O::Eqz, O::Assert(0), O::MovUp2, O::Assert(0)]
}

/// Given a stack in the following initial configuration [b1, b0, a1, a0, ...] where a = (a0, a1)
/// and b = (b0, b1) represent elements in the extension field of degree 2, this series of
/// operations outputs the result c = (c1, c0) where c1 = a1 + b1 and c0 = a0 + b0.
///
/// This operation takes 5 VM cycles.
pub fn ext2_add(span: &mut SpanBuilder) -> (r: Result<Option<SpanBlock>, AssemblyError>)
    ensures
        appends(*old(span), *final(span), ext2_add_ops()),
        final(span).ops().len() == old(span).ops().len() + 5,
        r matches Ok(None),
{
    span.add_ops(&[O::Swap, O::MovUp3, O::Add, O::MovDn2, O::Add])
}

/// Given a stack in the following initial configuration [b1, b0, a1, a0, ...] where a = (a0, a1)
/// and b = (b0, b1) represent elements in the extension field of degree 2, this series of
/// operations outputs the result c = (c1, c0) where c1 = a1 - b1 and c0 = a0 - b0.
///
/// This operation takes 7 VM cycles.
pub fn ext2_sub(span: &mut SpanBuilder) -> (r: Result<Option<SpanBlock>, AssemblyError>)
    ensures
        appends(*old(span), *final(span), ext2_sub_ops()),
        final(span).ops().len() == old(span).ops().len() + 7,
        r matches Ok(None),
{
    span.add_ops(&[O::Neg, O::Swap, O::Neg, O::MovUp3, O::Add, O::MovDn2, O::Add])
}

/// Given a stack with initial configuration given by [b1, b0, a1, a0, ...] where a = (a0, a1) and
/// b = (b0, b1) represent elements in the extension field of degree 2, this series of operations
/// outputs the product c = (c1, c0) where c0 = a0b0 - 2(a1b1) and c1 = (a0 + a1)(b0 + b1) - a0b0.
///
/// This operation takes 3 VM cycles.
pub fn ext2_mul(span: &mut SpanBuilder) -> (r: Result<Option<SpanBlock>, AssemblyError>)
    ensures
        appends(*old(span), *final(span), ext2_mul_ops()),
        final(span).ops().len() == old(span).ops().len() + 3,
        r matches Ok(None),
{
    span.add_ops(&[O::Ext2Mul, O::Drop, O::Drop])
}

/// Given a stack in the following initial configuration [b1, b0, a1, a0, ...] where a = (a0, a1)
/// and b = (b0, b1) represent elements in the extension field of degree 2, this series of
/// operations outputs the result c = (c1, c0) where c = a * b^-1.
///
/// This operation takes 11 VM cycles.
pub fn ext2_div(span: &mut SpanBuilder) -> (r: Result<Option<SpanBlock>, AssemblyError>)
    ensures
        appends_decorated(*old(span), *final(span), Decorator::Advice(AdviceInjector::Ext2Inv), ext2_div_ops()),
        final(span).ops().len() == old(span).ops().len() + 11,
        r matches Ok(None),
{
    let _ = span.add_decorator(Decorator::Advice(AdviceInjector::Ext2Inv));
    span.add_ops(
        &[
            O::AdvPop, O::AdvPop, O::Ext2Mul, O::MovUp2, O::Eqz, O::Assert(0), O::MovUp2,
            O::Assert(0), O::Ext2Mul, O::Drop, O::Drop,
        ],
    )
}

/// Given a stack with initial configuration given by [a1, a0, ...] where a = (a0, a1) represents
/// elements in the extension field of degree 2, the procedure outputs the negative of a, i.e.
/// [-a1, -a0, ...]
///
/// This operation takes 4 VM cycles.
pub fn ext2_neg(span: &mut SpanBuilder) -> (r: Result<Option<SpanBlock>, AssemblyError>)
    ensures
        appends(*old(span), *final(span), ext2_neg_ops()),
        final(span).ops().len() == old(span).ops().len() + 4,
        r matches Ok(None),
{
    span.add_ops(&[O::Neg, O::Swap, O::Neg, O::Swap])
}

/// Given an invertible quadratic extension field element on the stack, computes its
/// multiplicative inverse with the help of the advice provider, and checks the result by
/// multiplying it with the input, which must give the multiplicative identity (1, 0).
///
/// This operation takes 8 VM cycles.
pub fn ext2_inv(span: &mut SpanBuilder) -> (r: Result<Option<SpanBlock>, AssemblyError>)
    ensures
        appends_decorated(*old(span), *final(span), Decorator::Advice(AdviceInjector::Ext2Inv), ext2_inv_ops()),
        final(span).ops().len() == old(span).ops().len() + 8,
        r matches Ok(None),
{
    let _ = span.add_decorator(Decorator::Advice(AdviceInjector::Ext2Inv));
    span.add_ops(
        &[O::AdvPop, O::AdvPop, O::Ext2Mul, O::MovUp2, O::Eqz, O::Assert(0), O::MovUp2, O::Assert(0)],
    )
}

} // verus!
