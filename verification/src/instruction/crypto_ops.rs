//! Hashing and Merkle tree instructions.

use vstd::prelude::*;

use crate::errors::AssemblyError;
use crate::instruction::{appends, appends_decorated};
use crate::ops::{AdviceInjector, Decorator, Operation as O};
use crate::span_builder::{SpanBlock, SpanBuilder};

verus! {

/// The operations of `hash`.
pub open spec fn hash_ops() -> Seq<O> {
    seq![
        O::Pad, O::Incr, O::Pad, O::Pad, O::Pad, O::SwapW, O::Dup7, O::Dup7, O::Dup7, O::Dup7,
        O::HPerm, O::Drop, O::Drop, O::Drop, O::Drop, O::SwapW, O::Drop, O::Drop, O::Drop, O::Drop,
    ]
}

/// The operations of `hmerge`.
pub open spec fn hmerge_ops() -> Seq<O> {
    seq![
        O::Pad, O::Pad, O::Pad, O::Pad, O::SwapW2, O::SwapW, O::HPerm, O::Drop, O::Drop, O::Drop,
        O::Drop, O::SwapW, O::Drop, O::Drop, O::Drop, O::Drop,
    ]
}

/// The operations that pop the old value of a Merkle tree node from the advice stack.
pub open spec fn read_mtree_node_ops() -> Seq<O> {
    seq![O::AdvPop, O::AdvPop, O::AdvPop, O::AdvPop]
}

/// The operations of `mtree_get`, after its `MerkleNodeToStack` advice decorator.
pub open spec fn mtree_get_ops() -> Seq<O> {
    read_mtree_node_ops() + seq![O::MpVerify(0), O::MovUp4, O::Drop, O::MovUp4, O::Drop]
}

/// The operations of `mtree_set`, after its `MerkleNodeToStack` advice decorator.
pub open spec fn update_mtree_ops() -> Seq<O> {
    read_mtree_node_ops() + seq![
        O::MovUp5, O::MovUp5, O::Dup5, O::Dup5, O::SwapDW, O::SwapW, O::SwapW2, O::Dup13, O::Dup13,
        O::MrUpdate, O::MovUp4, O::Drop, O::MovUp4, O::Drop, O::SwapW, O::Drop, O::Drop, O::Drop,
        O::Drop, O::SwapW, O::Drop, O::Drop, O::Drop, O::Drop, O::SwapW,
    ]
}

/// Appends HPERM and stack manipulation operations to the span block as required to compute a
/// 1-to-1 hash. The top of the stack is expected to be arranged with 1 word (4 elements) to be
/// hashed: [A, ...]. The resulting stack will contain the 1-to-1 hash result: [C, ...].
///
/// This operation takes 20 VM cycles.
pub fn hash(span: &mut SpanBuilder) -> (r: Result<Option<SpanBlock>, AssemblyError>)
    ensures
        appends(*old(span), *final(span), hash_ops()),
        final(span).ops().len() == old(span).ops().len() + 20,
        r matches Ok(None),
{
    span.add_ops(
        &[
            // add 4 elements to the stack to be used as the capacity elements for the RPO
            // permutation
            O::Pad, O::Incr, O::Pad, O::Pad, O::Pad,
            // swap capacity elements such that they are below the elements to be hashed
            O::SwapW,
            // Duplicate capacity elements in the rate portion of the stack
            O::Dup7, O::Dup7, O::Dup7, O::Dup7,
            // Apply a hashing permutation on the top 12 elements in the stack
            O::HPerm,
            // Drop 4 elements (the part of the rate that doesn't have our result)
            O::Drop, O::Drop, O::Drop, O::Drop,
            // Move the top word (our result) down the stack
            O::SwapW,
            // Drop 4 elements (the capacity portion)
            O::Drop, O::Drop, O::Drop, O::Drop,
        ],
    )
}

/// Appends HPERM and stack manipulation operations to the span block as required to compute a
/// 2-to-1 hash. The top of the stack is expected to be arranged with 2 words (8 elements) to be
/// hashed: [B, A, ...]. The resulting stack will contain the 2-to-1 hash result [E, ...].
///
/// This operation takes 16 VM cycles.
pub fn hmerge(span: &mut SpanBuilder) -> (r: Result<Option<SpanBlock>, AssemblyError>)
    ensures
        appends(*old(span), *final(span), hmerge_ops()),
        final(span).ops().len() == old(span).ops().len() + 16,
        r matches Ok(None),
{
    span.add_ops(
        &[
            // Add 4 elements to the stack to prepare the capacity portion for the permutation
            O::Pad, O::Pad, O::Pad, O::Pad, O::SwapW2,
            // restore the order of the top 2 words to be hashed
            O::SwapW,
            // Do the permutation on the top 12 elements in the stack
            O::HPerm,
            // Drop 4 elements (the part of the rate that doesn't have our result)
            O::Drop, O::Drop, O::Drop, O::Drop,
            // Move the top word (our result) down the stack
            O::SwapW,
            // Drop 4 elements (the capacity portion)
            O::Drop, O::Drop, O::Drop, O::Drop,
        ],
    )
}

/// Appends the MPVERIFY op and stack manipulations to the span block as required to verify that a
/// Merkle tree with root R opens to node V at depth d and index i. The stack is expected to be
/// arranged as follows (from the top): depth of the node, index of the node, current root of the
/// tree. Afterwards the stack holds the node V and the root of the tree.
///
/// This operation takes 9 VM cycles.
pub fn mtree_get(span: &mut SpanBuilder) -> (r: Result<Option<SpanBlock>, AssemblyError>)
    ensures
        appends_decorated(*old(span), *final(span), Decorator::Advice(AdviceInjector::MerkleNodeToStack), mtree_get_ops()),
        final(span).ops().len() == old(span).ops().len() + 9,
        r matches Ok(None),
{
    // stack: [d, i, R, ...]
    // pops the value of the node we are looking for from the advice stack
    read_mtree_node(span);
    let r = span.add_ops(
        &[
            // verify the node V for root R with depth d and index i => [V, d, i, R, ...]
            O::MpVerify(0),
            // move d, i back to the top of the stack and drop them => [V, R, ...]
            O::MovUp4, O::Drop, O::MovUp4, O::Drop,
        ],
    );
    proof {
        assert(final(span).ops() =~= old(span).ops() + mtree_get_ops());
    }
    r
}

/// Appends the MRUPDATE op and stack manipulations to the span block as required to update a node
/// in the Merkle tree with root R at depth d and index i to value V. Afterwards the stack holds
/// the old value of the node and the new root of the tree.
///
/// This operation takes 29 VM cycles.
pub fn mtree_set(span: &mut SpanBuilder) -> (r: Result<Option<SpanBlock>, AssemblyError>)
    ensures
        appends_decorated(*old(span), *final(span), Decorator::Advice(AdviceInjector::MerkleNodeToStack), update_mtree_ops()),
        final(span).ops().len() == old(span).ops().len() + 29,
        r matches Ok(None),
{
    // stack: [d, i, R_old, V_new, ...] => [V_old, R_new, ...]
    update_mtree(span)
}

/// Creates a new Merkle tree in the advice provider by combining trees with the specified roots,
/// and computes the merged root on the stack.
///
/// This operation takes 16 VM cycles.
pub fn mtree_merge(span: &mut SpanBuilder) -> (r: Result<Option<SpanBlock>, AssemblyError>)
    ensures
        appends_decorated(*old(span), *final(span), Decorator::Advice(AdviceInjector::MerkleNodeMerge), hmerge_ops()),
        final(span).ops().len() == old(span).ops().len() + 16,
        r matches Ok(None),
{
    // stack input:  [R_rhs, R_lhs, ...], stack output: [R_merged, ...]
    // invoke the advice provider function to merge 2 Merkle trees defined by the roots on the top
    // of the operand stack
    span.push_decorator(Decorator::Advice(AdviceInjector::MerkleNodeMerge));
    // perform the `hmerge`, updating the operand stack
    hmerge(span)
}

/// Fetches the node value from the Merkle tree using decorators and pushes it onto the stack.
///
/// This operation takes 4 VM cycles.
fn read_mtree_node(span: &mut SpanBuilder)
    ensures
        appends_decorated(*old(span), *final(span), Decorator::Advice(AdviceInjector::MerkleNodeToStack), read_mtree_node_ops()),
{
    // pops the value of the node we are looking for from the advice stack
    span.push_decorator(Decorator::Advice(AdviceInjector::MerkleNodeToStack));
    // pops the old node value from advice the stack => MPVERIFY: [V_old, d, i, R, ...]
    span.push_op_many(O::AdvPop, 4);
    proof {
        assert(final(span).ops() =~= old(span).ops() + read_mtree_node_ops());
    }
}

/// Update a node in the merkle tree. This operation will always copy the tree into a new instance,
/// and perform the mutation on the copied tree.
///
/// This operation takes 29 VM cycles.
fn update_mtree(span: &mut SpanBuilder) -> (r: Result<Option<SpanBlock>, AssemblyError>)
    ensures
        appends_decorated(*old(span), *final(span), Decorator::Advice(AdviceInjector::MerkleNodeToStack), update_mtree_ops()),
        final(span).ops().len() == old(span).ops().len() + 29,
        r matches Ok(None),
{
    // stack: [d, i, R_old, V_new, ...]
    // output: [R_new, R_old, V_new, V_old, ...]
    // Inject the old node value onto the stack for the call to MRUPDATE.
    // stack: [V_old, d, i, R_old, V_new, ...] (4 cycles)
    read_mtree_node(span);
    let r = span.add_ops(
        &[
            // COPY V_old
            // Move i then d up
            O::MovUp5, O::MovUp5,
            // Copy half of the word, o0 then o1
            O::Dup5, O::Dup5,
            // Move the data down
            O::SwapDW, O::SwapW, O::SwapW2,
            // Copy the other half of the word, o2 then o3
            O::Dup13, O::Dup13,
            // Update the node at depth `d` and position `i`. It will always copy the Merkle tree.
            // stack: [R_new, d, i, R_old, V_new, V_old, ...]
            O::MrUpdate,
            // drop d and i since they are no longer needed
            // stack: [R_new, R_old, V_new, V_old, ...]
            O::MovUp4, O::Drop, O::MovUp4, O::Drop,
            // drop old Merkle root from the stack
            // stack: [R_new, V_new, V_old, ...]
            O::SwapW, O::Drop, O::Drop, O::Drop, O::Drop,
            // drop new value from stack
            // stack: [R_new, V_old, ...]
            O::SwapW, O::Drop, O::Drop, O::Drop, O::Drop,
            // move the V_old to the front
            // stack: [V_old, R_new, ...]
            O::SwapW,
        ],
    );
    proof {
        assert(final(span).ops() =~= old(span).ops() + update_mtree_ops());
    }
    r
}

} // verus!
