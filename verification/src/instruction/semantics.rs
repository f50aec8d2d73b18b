//! What the VM operations do to the stack, and what the operations that instructions are lowered
//! into therefore do: each law below states the effect of an instruction on any stack, in terms of
//! the stack alone.

use vstd::prelude::*;

use crate::ast::Instruction as I;
use crate::felt::{Felt, MODULUS};
use crate::instruction::compile::instruction_ops;
use crate::instruction::{push_felt_ops, push_u32_ops};
use crate::instruction::u32_ops::{lemma_pow2_bound, max_and_min_ops, pow2};
use crate::instruction::env_ops::push_many_ops;
use crate::instruction::field_ops::{check_gt_high_bits_ops, check_lt_and_eq_ops, check_lt_high_bits_ops, check_lt_ops, check_lte_ops, set_result_ops, split_elements_ops};
use crate::instruction::compile::{felts_of_u8, felts_of_u16, felts_of_u32};
use crate::ops::Operation as O;

verus! {

/// The field modulus.
pub open spec fn modulus() -> int {
    MODULUS as int
}

/// Every element of the stack `s` (top first) is a field element.
pub open spec fn field_stack(s: Seq<int>) -> bool {
    forall|k: int| 0 <= k < s.len() ==> 0 <= #[trigger] s[k] < modulus()
}

/// The multiplicative inverse of `x` in the field: the field element whose product with `x` is 1.
pub open spec fn inverse(x: int) -> int {
    choose|i: int| 0 <= i < modulus() && #[trigger] ((x * i) % modulus()) == 1
}

/// 2^32.
pub open spec fn two32() -> int {
    0x1_0000_0000
}

/// `x` is a 32-bit value.
pub open spec fn is_u32(x: int) -> bool {
    0 <= x < two32()
}

/// `x` is 0 or 1.
pub open spec fn binary(x: int) -> bool {
    x == 0 || x == 1
}

/// The stack after copying element `k` to the top.
pub open spec fn dup_k(s: Seq<int>, k: int) -> Option<Seq<int>> {
    if 0 <= k < s.len() {
        Some(seq![s[k]] + s)
    } else {
        None
    }
}

/// The stack after moving element `k` to the top.
pub open spec fn movup_k(s: Seq<int>, k: int) -> Option<Seq<int>> {
    if 0 < k < s.len() {
        Some(seq![s[k]] + s.subrange(0, k) + s.subrange(k + 1, s.len() as int))
    } else {
        None
    }
}

/// The stack after moving the top element to position `k`.
pub open spec fn movdn_k(s: Seq<int>, k: int) -> Option<Seq<int>> {
    if 0 < k < s.len() {
        Some(s.subrange(1, k + 1) + seq![s[0]] + s.subrange(k + 1, s.len() as int))
    } else {
        None
    }
}

/// What the operation `op` does to the stack `s` (top first): the new stack, or `None` when the
/// operation fails on `s` (an assertion that does not hold, a non-binary flag, too few elements)
/// or touches more than the stack.
pub open spec fn step(op: O, s: Seq<int>) -> Option<Seq<int>> {
    let n = s.len() as int;
    let p = modulus();
    match op {
        O::Noop => Some(s),
        O::Assert(_) => if n >= 1 && s[0] == 1 { Some(s.subrange(1, n)) } else { None },
        O::Add => if n >= 2 { Some(seq![(s[0] + s[1]) % p] + s.subrange(2, n)) } else { None },
        O::Neg => if n >= 1 { Some(seq![(p - s[0]) % p] + s.subrange(1, n)) } else { None },
        O::Mul => if n >= 2 { Some(seq![(s[0] * s[1]) % p] + s.subrange(2, n)) } else { None },
        O::Inv => if n >= 1 && s[0] != 0 { Some(seq![inverse(s[0])] + s.subrange(1, n)) } else { None },
        O::Incr => if n >= 1 { Some(seq![(s[0] + 1) % p] + s.subrange(1, n)) } else { None },
        O::And => if n >= 2 && binary(s[0]) && binary(s[1]) {
            Some(seq![if s[0] == 1 && s[1] == 1 { 1int } else { 0int }] + s.subrange(2, n))
        } else {
            None
        },
        O::Or => if n >= 2 && binary(s[0]) && binary(s[1]) {
            Some(seq![if s[0] == 1 || s[1] == 1 { 1int } else { 0int }] + s.subrange(2, n))
        } else {
            None
        },
        O::Not => if n >= 1 && binary(s[0]) { Some(seq![1 - s[0]] + s.subrange(1, n)) } else { None },
        O::Eq => if n >= 2 { Some(seq![if s[0] == s[1] { 1int } else { 0int }] + s.subrange(2, n)) } else { None },
        O::Eqz => if n >= 1 { Some(seq![if s[0] == 0 { 1int } else { 0int }] + s.subrange(1, n)) } else { None },
        O::Pad => Some(seq![0int] + s),
        O::Drop => if n >= 1 { Some(s.subrange(1, n)) } else { None },
        O::Dup0 => dup_k(s, 0),
        O::Dup1 => dup_k(s, 1),
        O::Dup2 => dup_k(s, 2),
        O::Dup3 => dup_k(s, 3),
        O::Dup4 => dup_k(s, 4),
        O::Dup5 => dup_k(s, 5),
        O::Dup6 => dup_k(s, 6),
        O::Dup7 => dup_k(s, 7),
        O::Dup9 => dup_k(s, 9),
        O::Dup11 => dup_k(s, 11),
        O::Dup13 => dup_k(s, 13),
        O::Dup15 => dup_k(s, 15),
        O::Swap => if n >= 2 { Some(seq![s[1], s[0]] + s.subrange(2, n)) } else { None },
        O::SwapW => if n >= 8 { Some(s.subrange(4, 8) + s.subrange(0, 4) + s.subrange(8, n)) } else { None },
        O::SwapW2 => if n >= 12 {
            Some(s.subrange(8, 12) + s.subrange(4, 8) + s.subrange(0, 4) + s.subrange(12, n))
        } else {
            None
        },
        O::SwapW3 => if n >= 16 {
            Some(s.subrange(12, 16) + s.subrange(4, 12) + s.subrange(0, 4) + s.subrange(16, n))
        } else {
            None
        },
        O::SwapDW => if n >= 16 { Some(s.subrange(8, 16) + s.subrange(0, 8) + s.subrange(16, n)) } else { None },
        O::MovUp2 => movup_k(s, 2),
        O::MovUp3 => movup_k(s, 3),
        O::MovUp4 => movup_k(s, 4),
        O::MovUp5 => movup_k(s, 5),
        O::MovUp6 => movup_k(s, 6),
        O::MovUp7 => movup_k(s, 7),
        O::MovUp8 => movup_k(s, 8),
        O::MovDn2 => movdn_k(s, 2),
        O::MovDn3 => movdn_k(s, 3),
        O::MovDn4 => movdn_k(s, 4),
        O::MovDn5 => movdn_k(s, 5),
        O::MovDn6 => movdn_k(s, 6),
        O::MovDn7 => movdn_k(s, 7),
        O::MovDn8 => movdn_k(s, 8),
        O::CSwap => if n >= 3 && binary(s[0]) {
            if s[0] == 1 { Some(seq![s[2], s[1]] + s.subrange(3, n)) } else { Some(s.subrange(1, n)) }
        } else {
            None
        },
        O::CSwapW => if n >= 9 && binary(s[0]) {
            if s[0] == 1 { Some(s.subrange(5, 9) + s.subrange(1, 5) + s.subrange(9, n)) } else { Some(s.subrange(1, n)) }
        } else {
            None
        },
        O::Push(f) => Some(seq![f.value as int] + s),
        O::U32split => if n >= 1 { Some(seq![s[0] / two32(), s[0] % two32()] + s.subrange(1, n)) } else { None },
        O::U32assert2(_) => if n >= 2 && is_u32(s[0]) && is_u32(s[1]) { Some(s) } else { None },
        O::U32add => if n >= 2 && is_u32(s[0]) && is_u32(s[1]) {
            Some(seq![(s[0] + s[1]) / two32(), (s[0] + s[1]) % two32()] + s.subrange(2, n))
        } else {
            None
        },
        O::U32add3 => if n >= 3 && is_u32(s[0]) && is_u32(s[1]) && is_u32(s[2]) {
            Some(seq![(s[0] + s[1] + s[2]) / two32(), (s[0] + s[1] + s[2]) % two32()] + s.subrange(3, n))
        } else {
            None
        },
        O::U32sub => if n >= 2 && is_u32(s[0]) && is_u32(s[1]) {
            Some(seq![if s[1] < s[0] { 1int } else { 0int }, (s[1] - s[0]) % two32()] + s.subrange(2, n))
        } else {
            None
        },
        O::U32mul => if n >= 2 && is_u32(s[0]) && is_u32(s[1]) {
            Some(seq![(s[0] * s[1]) / two32(), (s[0] * s[1]) % two32()] + s.subrange(2, n))
        } else {
            None
        },
        O::U32madd => if n >= 3 && is_u32(s[0]) && is_u32(s[1]) && is_u32(s[2]) {
            Some(seq![(s[0] * s[1] + s[2]) / two32(), (s[0] * s[1] + s[2]) % two32()] + s.subrange(3, n))
        } else {
            None
        },
        O::U32div => if n >= 2 && is_u32(s[0]) && is_u32(s[1]) && s[0] != 0 {
            Some(seq![s[1] % s[0], s[1] / s[0]] + s.subrange(2, n))
        } else {
            None
        },
        O::U32and => if n >= 2 && is_u32(s[0]) && is_u32(s[1]) {
            Some(seq![((s[0] as u32) & (s[1] as u32)) as int] + s.subrange(2, n))
        } else {
            None
        },
        O::U32xor => if n >= 2 && is_u32(s[0]) && is_u32(s[1]) {
            Some(seq![((s[0] as u32) ^ (s[1] as u32)) as int] + s.subrange(2, n))
        } else {
            None
        },
        _ => None,
    }
}

/// What the operations `ops`, run in order, do to the stack `s`; `None` when one of them fails.
pub open spec fn run(ops: Seq<O>, s: Seq<int>) -> Option<Seq<int>>
    decreases ops.len(),
{
    if ops.len() == 0 {
        Some(s)
    } else {
        match step(ops[0], s) {
            Some(t) => run(ops.subrange(1, ops.len() as int), t),
            None => None,
        }
    }
}

/// Running two sequences of operations one after the other.
pub proof fn lemma_run_append(a: Seq<O>, b: Seq<O>, s: Seq<int>)
    ensures
        run(a + b, s) == match run(a, s) {
            Some(t) => run(b, t),
            None => None,
        },
    decreases a.len(),
{
    if a.len() > 0 {
        assert((a + b).subrange(1, (a + b).len() as int) =~= a.subrange(1, a.len() as int) + b);
        assert((a + b)[0] == a[0]);
        if let Some(t) = step(a[0], s) {
            lemma_run_append(a.subrange(1, a.len() as int), b, t);
        }
    } else {
        assert(a + b =~= b);
    }
}

/// `s` with the `len` elements from position `a` and the `len` elements from position `b`
/// exchanged.
pub open spec fn exchange(s: Seq<int>, a: int, b: int, len: int) -> Seq<int> {
    Seq::new(s.len(), |k: int| if a <= k < a + len { s[k - a + b] } else if b <= k < b + len { s[k - b + a] } else { s[k] })
}

/// `eq` leaves 1 when the two top elements are equal and 0 otherwise; `neq` leaves the
/// opposite.
pub proof fn lemma_eq_neq(s: Seq<int>, n: u16)
    requires
        s.len() >= 2,
    ensures
        run(instruction_ops(I::Eq, n), s) == Some(seq![if s[0] == s[1] { 1int } else { 0int }] + s.subrange(2, s.len() as int)),
        run(instruction_ops(I::Neq, n), s) == Some(seq![if s[0] != s[1] { 1int } else { 0int }] + s.subrange(2, s.len() as int)),
{
    reveal_with_fuel(run, 3);
    let t = seq![if s[0] == s[1] { 1int } else { 0int }] + s.subrange(2, s.len() as int);
    assert(step(O::Eq, s) == Some(t));
    assert(t[0] == (if s[0] == s[1] { 1int } else { 0int }));
    assert(t.subrange(1, t.len() as int) =~= s.subrange(2, s.len() as int));
    assert(run(instruction_ops(I::Neq, n), s) =~~= Some(seq![if s[0] != s[1] { 1int } else { 0int }] + s.subrange(2, s.len() as int)));
}

#[verifier::spinoff_prover]
#[verifier::rlimit(100)]
proof fn lemma_dupw_dupw0(s: Seq<int>, n: u16)
    requires
        s.len() >= 16,
    ensures
        run(instruction_ops(I::DupW0, n), s) == Some(s.subrange(0, 4) + s),
{
    reveal_with_fuel(run, 5);
    assert(run(instruction_ops(I::DupW0, n), s) =~~= Some(s.subrange(0, 4) + s));
}

#[verifier::spinoff_prover]
#[verifier::rlimit(100)]
proof fn lemma_dupw_dupw1(s: Seq<int>, n: u16)
    requires
        s.len() >= 16,
    ensures
        run(instruction_ops(I::DupW1, n), s) == Some(s.subrange(4, 8) + s),
{
    reveal_with_fuel(run, 5);
    assert(run(instruction_ops(I::DupW1, n), s) =~~= Some(s.subrange(4, 8) + s));
}

#[verifier::spinoff_prover]
#[verifier::rlimit(100)]
proof fn lemma_dupw_dupw2(s: Seq<int>, n: u16)
    requires
        s.len() >= 16,
    ensures
        run(instruction_ops(I::DupW2, n), s) == Some(s.subrange(8, 12) + s),
{
    reveal_with_fuel(run, 5);
    assert(run(instruction_ops(I::DupW2, n), s) =~~= Some(s.subrange(8, 12) + s));
}

#[verifier::spinoff_prover]
#[verifier::rlimit(100)]
proof fn lemma_dupw_dupw3(s: Seq<int>, n: u16)
    requires
        s.len() >= 16,
    ensures
        run(instruction_ops(I::DupW3, n), s) == Some(s.subrange(12, 16) + s),
{
    reveal_with_fuel(run, 5);
    assert(run(instruction_ops(I::DupW3, n), s) =~~= Some(s.subrange(12, 16) + s));
}

/// `dupw.i` copies word `i` (elements 4i to 4i + 3) to the top of the stack.
pub proof fn lemma_dupw(s: Seq<int>, n: u16)
    requires
        s.len() >= 16,
    ensures
        run(instruction_ops(I::DupW0, n), s) == Some(s.subrange(0, 4) + s),
        run(instruction_ops(I::DupW1, n), s) == Some(s.subrange(4, 8) + s),
        run(instruction_ops(I::DupW2, n), s) == Some(s.subrange(8, 12) + s),
        run(instruction_ops(I::DupW3, n), s) == Some(s.subrange(12, 16) + s),
{
    lemma_dupw_dupw0(s, n);
    lemma_dupw_dupw1(s, n);
    lemma_dupw_dupw2(s, n);
    lemma_dupw_dupw3(s, n);
}

#[verifier::spinoff_prover]
#[verifier::rlimit(100)]
proof fn lemma_dup_dup0(s: Seq<int>, n: u16)
    requires
        s.len() >= 16,
        field_stack(s),
    ensures
        run(instruction_ops(I::Dup0, n), s) == Some(seq![s[0]] + s),
{
    reveal_with_fuel(run, 4);
    assert(run(instruction_ops(I::Dup0, n), s) =~~= Some(seq![s[0]] + s));
}

#[verifier::spinoff_prover]
#[verifier::rlimit(100)]
proof fn lemma_dup_dup1(s: Seq<int>, n: u16)
    requires
        s.len() >= 16,
        field_stack(s),
    ensures
        run(instruction_ops(I::Dup1, n), s) == Some(seq![s[1]] + s),
{
    reveal_with_fuel(run, 4);
    assert(run(instruction_ops(I::Dup1, n), s) =~~= Some(seq![s[1]] + s));
}

#[verifier::spinoff_prover]
#[verifier::rlimit(100)]
proof fn lemma_dup_dup2(s: Seq<int>, n: u16)
    requires
        s.len() >= 16,
        field_stack(s),
    ensures
        run(instruction_ops(I::Dup2, n), s) == Some(seq![s[2]] + s),
{
    reveal_with_fuel(run, 4);
    assert(run(instruction_ops(I::Dup2, n), s) =~~= Some(seq![s[2]] + s));
}

#[verifier::spinoff_prover]
#[verifier::rlimit(100)]
proof fn lemma_dup_dup3(s: Seq<int>, n: u16)
    requires
        s.len() >= 16,
        field_stack(s),
    ensures
        run(instruction_ops(I::Dup3, n), s) == Some(seq![s[3]] + s),
{
    reveal_with_fuel(run, 4);
    assert(run(instruction_ops(I::Dup3, n), s) =~~= Some(seq![s[3]] + s));
}

#[verifier::spinoff_prover]
#[verifier::rlimit(100)]
proof fn lemma_dup_dup4(s: Seq<int>, n: u16)
    requires
        s.len() >= 16,
        field_stack(s),
    ensures
        run(instruction_ops(I::Dup4, n), s) == Some(seq![s[4]] + s),
{
    reveal_with_fuel(run, 4);
    assert(run(instruction_ops(I::Dup4, n), s) =~~= Some(seq![s[4]] + s));
}

#[verifier::spinoff_prover]
#[verifier::rlimit(100)]
proof fn lemma_dup_dup5(s: Seq<int>, n: u16)
    requires
        s.len() >= 16,
        field_stack(s),
    ensures
        run(instruction_ops(I::Dup5, n), s) == Some(seq![s[5]] + s),
{
    reveal_with_fuel(run, 4);
    assert(run(instruction_ops(I::Dup5, n), s) =~~= Some(seq![s[5]] + s));
}

#[verifier::spinoff_prover]
#[verifier::rlimit(100)]
proof fn lemma_dup_dup6(s: Seq<int>, n: u16)
    requires
        s.len() >= 16,
        field_stack(s),
    ensures
        run(instruction_ops(I::Dup6, n), s) == Some(seq![s[6]] + s),
{
    reveal_with_fuel(run, 4);
    assert(run(instruction_ops(I::Dup6, n), s) =~~= Some(seq![s[6]] + s));
}

#[verifier::spinoff_prover]
#[verifier::rlimit(100)]
proof fn lemma_dup_dup7(s: Seq<int>, n: u16)
    requires
        s.len() >= 16,
        field_stack(s),
    ensures
        run(instruction_ops(I::Dup7, n), s) == Some(seq![s[7]] + s),
{
    reveal_with_fuel(run, 4);
    assert(run(instruction_ops(I::Dup7, n), s) =~~= Some(seq![s[7]] + s));
}

#[verifier::spinoff_prover]
#[verifier::rlimit(100)]
proof fn lemma_dup_dup8(s: Seq<int>, n: u16)
    requires
        s.len() >= 16,
        field_stack(s),
    ensures
        run(instruction_ops(I::Dup8, n), s) == Some(seq![s[8]] + s),
{
    reveal_with_fuel(run, 4);
    assert(run(instruction_ops(I::Dup8, n), s) =~~= Some(seq![s[8]] + s));
}

#[verifier::spinoff_prover]
#[verifier::rlimit(100)]
proof fn lemma_dup_dup9(s: Seq<int>, n: u16)
    requires
        s.len() >= 16,
        field_stack(s),
    ensures
        run(instruction_ops(I::Dup9, n), s) == Some(seq![s[9]] + s),
{
    reveal_with_fuel(run, 4);
    assert(run(instruction_ops(I::Dup9, n), s) =~~= Some(seq![s[9]] + s));
}

#[verifier::spinoff_prover]
#[verifier::rlimit(100)]
proof fn lemma_dup_dup10(s: Seq<int>, n: u16)
    requires
        s.len() >= 16,
        field_stack(s),
    ensures
        run(instruction_ops(I::Dup10, n), s) == Some(seq![s[10]] + s),
{
    reveal_with_fuel(run, 4);
    assert(run(instruction_ops(I::Dup10, n), s) =~~= Some(seq![s[10]] + s));
}

#[verifier::spinoff_prover]
#[verifier::rlimit(100)]
proof fn lemma_dup_dup11(s: Seq<int>, n: u16)
    requires
        s.len() >= 16,
        field_stack(s),
    ensures
        run(instruction_ops(I::Dup11, n), s) == Some(seq![s[11]] + s),
{
    reveal_with_fuel(run, 4);
    assert(run(instruction_ops(I::Dup11, n), s) =~~= Some(seq![s[11]] + s));
}

#[verifier::spinoff_prover]
#[verifier::rlimit(100)]
proof fn lemma_dup_dup12(s: Seq<int>, n: u16)
    requires
        s.len() >= 16,
        field_stack(s),
    ensures
        run(instruction_ops(I::Dup12, n), s) == Some(seq![s[12]] + s),
{
    reveal_with_fuel(run, 4);
    assert(run(instruction_ops(I::Dup12, n), s) =~~= Some(seq![s[12]] + s));
}

#[verifier::spinoff_prover]
#[verifier::rlimit(100)]
proof fn lemma_dup_dup13(s: Seq<int>, n: u16)
    requires
        s.len() >= 16,
        field_stack(s),
    ensures
        run(instruction_ops(I::Dup13, n), s) == Some(seq![s[13]] + s),
{
    reveal_with_fuel(run, 4);
    assert(run(instruction_ops(I::Dup13, n), s) =~~= Some(seq![s[13]] + s));
}

#[verifier::spinoff_prover]
#[verifier::rlimit(100)]
proof fn lemma_dup_dup14(s: Seq<int>, n: u16)
    requires
        s.len() >= 16,
        field_stack(s),
    ensures
        run(instruction_ops(I::Dup14, n), s) == Some(seq![s[14]] + s),
{
    reveal_with_fuel(run, 4);
    assert(run(instruction_ops(I::Dup14, n), s) =~~= Some(seq![s[14]] + s));
}

#[verifier::spinoff_prover]
#[verifier::rlimit(100)]
proof fn lemma_dup_dup15(s: Seq<int>, n: u16)
    requires
        s.len() >= 16,
        field_stack(s),
    ensures
        run(instruction_ops(I::Dup15, n), s) == Some(seq![s[15]] + s),
{
    reveal_with_fuel(run, 4);
    assert(run(instruction_ops(I::Dup15, n), s) =~~= Some(seq![s[15]] + s));
}

/// `dup.i` copies element `i` to the top of the stack.
pub proof fn lemma_dup(s: Seq<int>, n: u16)
    requires
        s.len() >= 16,
        field_stack(s),
    ensures
        run(instruction_ops(I::Dup0, n), s) == Some(seq![s[0]] + s),
        run(instruction_ops(I::Dup1, n), s) == Some(seq![s[1]] + s),
        run(instruction_ops(I::Dup2, n), s) == Some(seq![s[2]] + s),
        run(instruction_ops(I::Dup3, n), s) == Some(seq![s[3]] + s),
        run(instruction_ops(I::Dup4, n), s) == Some(seq![s[4]] + s),
        run(instruction_ops(I::Dup5, n), s) == Some(seq![s[5]] + s),
        run(instruction_ops(I::Dup6, n), s) == Some(seq![s[6]] + s),
        run(instruction_ops(I::Dup7, n), s) == Some(seq![s[7]] + s),
        run(instruction_ops(I::Dup8, n), s) == Some(seq![s[8]] + s),
        run(instruction_ops(I::Dup9, n), s) == Some(seq![s[9]] + s),
        run(instruction_ops(I::Dup10, n), s) == Some(seq![s[10]] + s),
        run(instruction_ops(I::Dup11, n), s) == Some(seq![s[11]] + s),
        run(instruction_ops(I::Dup12, n), s) == Some(seq![s[12]] + s),
        run(instruction_ops(I::Dup13, n), s) == Some(seq![s[13]] + s),
        run(instruction_ops(I::Dup14, n), s) == Some(seq![s[14]] + s),
        run(instruction_ops(I::Dup15, n), s) == Some(seq![s[15]] + s),
{
    lemma_dup_dup0(s, n);
    lemma_dup_dup1(s, n);
    lemma_dup_dup2(s, n);
    lemma_dup_dup3(s, n);
    lemma_dup_dup4(s, n);
    lemma_dup_dup5(s, n);
    lemma_dup_dup6(s, n);
    lemma_dup_dup7(s, n);
    lemma_dup_dup8(s, n);
    lemma_dup_dup9(s, n);
    lemma_dup_dup10(s, n);
    lemma_dup_dup11(s, n);
    lemma_dup_dup12(s, n);
    lemma_dup_dup13(s, n);
    lemma_dup_dup14(s, n);
    lemma_dup_dup15(s, n);
}

#[verifier::spinoff_prover]
#[verifier::rlimit(100)]
proof fn lemma_swap_swap1(s: Seq<int>, n: u16)
    requires
        s.len() >= 16,
    ensures
        run(instruction_ops(I::Swap1, n), s) == Some(exchange(s, 0, 1, 1)),
{
    reveal_with_fuel(run, 7);
    assert(run(instruction_ops(I::Swap1, n), s) =~~= Some(exchange(s, 0, 1, 1)));
}

#[verifier::spinoff_prover]
#[verifier::rlimit(100)]
proof fn lemma_swap_swap2(s: Seq<int>, n: u16)
    requires
        s.len() >= 16,
    ensures
        run(instruction_ops(I::Swap2, n), s) == Some(exchange(s, 0, 2, 1)),
{
    reveal_with_fuel(run, 7);
    assert(run(instruction_ops(I::Swap2, n), s) =~~= Some(exchange(s, 0, 2, 1)));
}

#[verifier::spinoff_prover]
#[verifier::rlimit(100)]
proof fn lemma_swap_swap3(s: Seq<int>, n: u16)
    requires
        s.len() >= 16,
    ensures
        run(instruction_ops(I::Swap3, n), s) == Some(exchange(s, 0, 3, 1)),
{
    reveal_with_fuel(run, 7);
    assert(run(instruction_ops(I::Swap3, n), s) =~~= Some(exchange(s, 0, 3, 1)));
}

#[verifier::spinoff_prover]
#[verifier::rlimit(100)]
proof fn lemma_swap_swap4(s: Seq<int>, n: u16)
    requires
        s.len() >= 16,
    ensures
        run(instruction_ops(I::Swap4, n), s) == Some(exchange(s, 0, 4, 1)),
{
    reveal_with_fuel(run, 7);
    assert(run(instruction_ops(I::Swap4, n), s) =~~= Some(exchange(s, 0, 4, 1)));
}

#[verifier::spinoff_prover]
#[verifier::rlimit(100)]
proof fn lemma_swap_swap5(s: Seq<int>, n: u16)
    requires
        s.len() >= 16,
    ensures
        run(instruction_ops(I::Swap5, n), s) == Some(exchange(s, 0, 5, 1)),
{
    reveal_with_fuel(run, 7);
    assert(run(instruction_ops(I::Swap5, n), s) =~~= Some(exchange(s, 0, 5, 1)));
}

#[verifier::spinoff_prover]
#[verifier::rlimit(100)]
proof fn lemma_swap_swap6(s: Seq<int>, n: u16)
    requires
        s.len() >= 16,
    ensures
        run(instruction_ops(I::Swap6, n), s) == Some(exchange(s, 0, 6, 1)),
{
    reveal_with_fuel(run, 7);
    assert(run(instruction_ops(I::Swap6, n), s) =~~= Some(exchange(s, 0, 6, 1)));
}

#[verifier::spinoff_prover]
#[verifier::rlimit(100)]
proof fn lemma_swap_swap7(s: Seq<int>, n: u16)
    requires
        s.len() >= 16,
    ensures
        run(instruction_ops(I::Swap7, n), s) == Some(exchange(s, 0, 7, 1)),
{
    reveal_with_fuel(run, 7);
    assert(run(instruction_ops(I::Swap7, n), s) =~~= Some(exchange(s, 0, 7, 1)));
}

#[verifier::spinoff_prover]
#[verifier::rlimit(100)]
proof fn lemma_swap_swap8(s: Seq<int>, n: u16)
    requires
        s.len() >= 16,
    ensures
        run(instruction_ops(I::Swap8, n), s) == Some(exchange(s, 0, 8, 1)),
{
    reveal_with_fuel(run, 7);
    assert(run(instruction_ops(I::Swap8, n), s) =~~= Some(exchange(s, 0, 8, 1)));
}

#[verifier::spinoff_prover]
#[verifier::rlimit(100)]
proof fn lemma_swap_swap9(s: Seq<int>, n: u16)
    requires
        s.len() >= 16,
    ensures
        run(instruction_ops(I::Swap9, n), s) == Some(exchange(s, 0, 9, 1)),
{
    reveal_with_fuel(run, 7);
    assert(run(instruction_ops(I::Swap9, n), s) =~~= Some(exchange(s, 0, 9, 1)));
}

#[verifier::spinoff_prover]
#[verifier::rlimit(100)]
proof fn lemma_swap_swap10(s: Seq<int>, n: u16)
    requires
        s.len() >= 16,
    ensures
        run(instruction_ops(I::Swap10, n), s) == Some(exchange(s, 0, 10, 1)),
{
    reveal_with_fuel(run, 7);
    assert(run(instruction_ops(I::Swap10, n), s) =~~= Some(exchange(s, 0, 10, 1)));
}

#[verifier::spinoff_prover]
#[verifier::rlimit(100)]
proof fn lemma_swap_swap11(s: Seq<int>, n: u16)
    requires
        s.len() >= 16,
    ensures
        run(instruction_ops(I::Swap11, n), s) == Some(exchange(s, 0, 11, 1)),
{
    reveal_with_fuel(run, 7);
    assert(run(instruction_ops(I::Swap11, n), s) =~~= Some(exchange(s, 0, 11, 1)));
}

#[verifier::spinoff_prover]
#[verifier::rlimit(100)]
proof fn lemma_swap_swap12(s: Seq<int>, n: u16)
    requires
        s.len() >= 16,
    ensures
        run(instruction_ops(I::Swap12, n), s) == Some(exchange(s, 0, 12, 1)),
{
    reveal_with_fuel(run, 7);
    assert(run(instruction_ops(I::Swap12, n), s) =~~= Some(exchange(s, 0, 12, 1)));
}

#[verifier::spinoff_prover]
#[verifier::rlimit(100)]
proof fn lemma_swap_swap13(s: Seq<int>, n: u16)
    requires
        s.len() >= 16,
    ensures
        run(instruction_ops(I::Swap13, n), s) == Some(exchange(s, 0, 13, 1)),
{
    reveal_with_fuel(run, 7);
    assert(run(instruction_ops(I::Swap13, n), s) =~~= Some(exchange(s, 0, 13, 1)));
}

#[verifier::spinoff_prover]
#[verifier::rlimit(100)]
proof fn lemma_swap_swap14(s: Seq<int>, n: u16)
    requires
        s.len() >= 16,
    ensures
        run(instruction_ops(I::Swap14, n), s) == Some(exchange(s, 0, 14, 1)),
{
    reveal_with_fuel(run, 7);
    assert(run(instruction_ops(I::Swap14, n), s) =~~= Some(exchange(s, 0, 14, 1)));
}

#[verifier::spinoff_prover]
#[verifier::rlimit(100)]
proof fn lemma_swap_swap15(s: Seq<int>, n: u16)
    requires
        s.len() >= 16,
    ensures
        run(instruction_ops(I::Swap15, n), s) == Some(exchange(s, 0, 15, 1)),
{
    reveal_with_fuel(run, 7);
    assert(run(instruction_ops(I::Swap15, n), s) =~~= Some(exchange(s, 0, 15, 1)));
}

/// `swap.i` exchanges the top element with element `i`.
pub proof fn lemma_swap(s: Seq<int>, n: u16)
    requires
        s.len() >= 16,
    ensures
        run(instruction_ops(I::Swap1, n), s) == Some(exchange(s, 0, 1, 1)),
        run(instruction_ops(I::Swap2, n), s) == Some(exchange(s, 0, 2, 1)),
        run(instruction_ops(I::Swap3, n), s) == Some(exchange(s, 0, 3, 1)),
        run(instruction_ops(I::Swap4, n), s) == Some(exchange(s, 0, 4, 1)),
        run(instruction_ops(I::Swap5, n), s) == Some(exchange(s, 0, 5, 1)),
        run(instruction_ops(I::Swap6, n), s) == Some(exchange(s, 0, 6, 1)),
        run(instruction_ops(I::Swap7, n), s) == Some(exchange(s, 0, 7, 1)),
        run(instruction_ops(I::Swap8, n), s) == Some(exchange(s, 0, 8, 1)),
        run(instruction_ops(I::Swap9, n), s) == Some(exchange(s, 0, 9, 1)),
        run(instruction_ops(I::Swap10, n), s) == Some(exchange(s, 0, 10, 1)),
        run(instruction_ops(I::Swap11, n), s) == Some(exchange(s, 0, 11, 1)),
        run(instruction_ops(I::Swap12, n), s) == Some(exchange(s, 0, 12, 1)),
        run(instruction_ops(I::Swap13, n), s) == Some(exchange(s, 0, 13, 1)),
        run(instruction_ops(I::Swap14, n), s) == Some(exchange(s, 0, 14, 1)),
        run(instruction_ops(I::Swap15, n), s) == Some(exchange(s, 0, 15, 1)),
{
    lemma_swap_swap1(s, n);
    lemma_swap_swap2(s, n);
    lemma_swap_swap3(s, n);
    lemma_swap_swap4(s, n);
    lemma_swap_swap5(s, n);
    lemma_swap_swap6(s, n);
    lemma_swap_swap7(s, n);
    lemma_swap_swap8(s, n);
    lemma_swap_swap9(s, n);
    lemma_swap_swap10(s, n);
    lemma_swap_swap11(s, n);
    lemma_swap_swap12(s, n);
    lemma_swap_swap13(s, n);
    lemma_swap_swap14(s, n);
    lemma_swap_swap15(s, n);
}

#[verifier::spinoff_prover]
#[verifier::rlimit(100)]
proof fn lemma_movup_movup2(s: Seq<int>, n: u16)
    requires
        s.len() >= 16,
    ensures
        run(instruction_ops(I::MovUp2, n), s) == Some(seq![s[2]] + s.subrange(0, 2) + s.subrange(3, s.len() as int)),
{
    reveal_with_fuel(run, 5);
    assert(run(instruction_ops(I::MovUp2, n), s) =~~= Some(seq![s[2]] + s.subrange(0, 2) + s.subrange(3, s.len() as int)));
}

#[verifier::spinoff_prover]
#[verifier::rlimit(100)]
proof fn lemma_movup_movup3(s: Seq<int>, n: u16)
    requires
        s.len() >= 16,
    ensures
        run(instruction_ops(I::MovUp3, n), s) == Some(seq![s[3]] + s.subrange(0, 3) + s.subrange(4, s.len() as int)),
{
    reveal_with_fuel(run, 5);
    assert(run(instruction_ops(I::MovUp3, n), s) =~~= Some(seq![s[3]] + s.subrange(0, 3) + s.subrange(4, s.len() as int)));
}

#[verifier::spinoff_prover]
#[verifier::rlimit(100)]
proof fn lemma_movup_movup4(s: Seq<int>, n: u16)
    requires
        s.len() >= 16,
    ensures
        run(instruction_ops(I::MovUp4, n), s) == Some(seq![s[4]] + s.subrange(0, 4) + s.subrange(5, s.len() as int)),
{
    reveal_with_fuel(run, 5);
    assert(run(instruction_ops(I::MovUp4, n), s) =~~= Some(seq![s[4]] + s.subrange(0, 4) + s.subrange(5, s.len() as int)));
}

#[verifier::spinoff_prover]
#[verifier::rlimit(100)]
proof fn lemma_movup_movup5(s: Seq<int>, n: u16)
    requires
        s.len() >= 16,
    ensures
        run(instruction_ops(I::MovUp5, n), s) == Some(seq![s[5]] + s.subrange(0, 5) + s.subrange(6, s.len() as int)),
{
    reveal_with_fuel(run, 5);
    assert(run(instruction_ops(I::MovUp5, n), s) =~~= Some(seq![s[5]] + s.subrange(0, 5) + s.subrange(6, s.len() as int)));
}

#[verifier::spinoff_prover]
#[verifier::rlimit(100)]
proof fn lemma_movup_movup6(s: Seq<int>, n: u16)
    requires
        s.len() >= 16,
    ensures
        run(instruction_ops(I::MovUp6, n), s) == Some(seq![s[6]] + s.subrange(0, 6) + s.subrange(7, s.len() as int)),
{
    reveal_with_fuel(run, 5);
    assert(run(instruction_ops(I::MovUp6, n), s) =~~= Some(seq![s[6]] + s.subrange(0, 6) + s.subrange(7, s.len() as int)));
}

#[verifier::spinoff_prover]
#[verifier::rlimit(100)]
proof fn lemma_movup_movup7(s: Seq<int>, n: u16)
    requires
        s.len() >= 16,
    ensures
        run(instruction_ops(I::MovUp7, n), s) == Some(seq![s[7]] + s.subrange(0, 7) + s.subrange(8, s.len() as int)),
{
    reveal_with_fuel(run, 5);
    assert(run(instruction_ops(I::MovUp7, n), s) =~~= Some(seq![s[7]] + s.subrange(0, 7) + s.subrange(8, s.len() as int)));
}

#[verifier::spinoff_prover]
#[verifier::rlimit(100)]
proof fn lemma_movup_movup8(s: Seq<int>, n: u16)
    requires
        s.len() >= 16,
    ensures
        run(instruction_ops(I::MovUp8, n), s) == Some(seq![s[8]] + s.subrange(0, 8) + s.subrange(9, s.len() as int)),
{
    reveal_with_fuel(run, 5);
    assert(run(instruction_ops(I::MovUp8, n), s) =~~= Some(seq![s[8]] + s.subrange(0, 8) + s.subrange(9, s.len() as int)));
}

#[verifier::spinoff_prover]
#[verifier::rlimit(100)]
proof fn lemma_movup_movup9(s: Seq<int>, n: u16)
    requires
        s.len() >= 16,
    ensures
        run(instruction_ops(I::MovUp9, n), s) == Some(seq![s[9]] + s.subrange(0, 9) + s.subrange(10, s.len() as int)),
{
    reveal_with_fuel(run, 5);
    assert(run(instruction_ops(I::MovUp9, n), s) =~~= Some(seq![s[9]] + s.subrange(0, 9) + s.subrange(10, s.len() as int)));
}

#[verifier::spinoff_prover]
#[verifier::rlimit(100)]
proof fn lemma_movup_movup10(s: Seq<int>, n: u16)
    requires
        s.len() >= 16,
    ensures
        run(instruction_ops(I::MovUp10, n), s) == Some(seq![s[10]] + s.subrange(0, 10) + s.subrange(11, s.len() as int)),
{
    reveal_with_fuel(run, 5);
    assert(run(instruction_ops(I::MovUp10, n), s) =~~= Some(seq![s[10]] + s.subrange(0, 10) + s.subrange(11, s.len() as int)));
}

#[verifier::spinoff_prover]
#[verifier::rlimit(100)]
proof fn lemma_movup_movup11(s: Seq<int>, n: u16)
    requires
        s.len() >= 16,
    ensures
        run(instruction_ops(I::MovUp11, n), s) == Some(seq![s[11]] + s.subrange(0, 11) + s.subrange(12, s.len() as int)),
{
    reveal_with_fuel(run, 5);
    assert(run(instruction_ops(I::MovUp11, n), s) =~~= Some(seq![s[11]] + s.subrange(0, 11) + s.subrange(12, s.len() as int)));
}

#[verifier::spinoff_prover]
#[verifier::rlimit(100)]
proof fn lemma_movup_movup12(s: Seq<int>, n: u16)
    requires
        s.len() >= 16,
    ensures
        run(instruction_ops(I::MovUp12, n), s) == Some(seq![s[12]] + s.subrange(0, 12) + s.subrange(13, s.len() as int)),
{
    reveal_with_fuel(run, 5);
    assert(run(instruction_ops(I::MovUp12, n), s) =~~= Some(seq![s[12]] + s.subrange(0, 12) + s.subrange(13, s.len() as int)));
}

#[verifier::spinoff_prover]
#[verifier::rlimit(100)]
proof fn lemma_movup_movup13(s: Seq<int>, n: u16)
    requires
        s.len() >= 16,
    ensures
        run(instruction_ops(I::MovUp13, n), s) == Some(seq![s[13]] + s.subrange(0, 13) + s.subrange(14, s.len() as int)),
{
    reveal_with_fuel(run, 5);
    assert(run(instruction_ops(I::MovUp13, n), s) =~~= Some(seq![s[13]] + s.subrange(0, 13) + s.subrange(14, s.len() as int)));
}

#[verifier::spinoff_prover]
#[verifier::rlimit(100)]
proof fn lemma_movup_movup14(s: Seq<int>, n: u16)
    requires
        s.len() >= 16,
    ensures
        run(instruction_ops(I::MovUp14, n), s) == Some(seq![s[14]] + s.subrange(0, 14) + s.subrange(15, s.len() as int)),
{
    reveal_with_fuel(run, 5);
    assert(run(instruction_ops(I::MovUp14, n), s) =~~= Some(seq![s[14]] + s.subrange(0, 14) + s.subrange(15, s.len() as int)));
}

#[verifier::spinoff_prover]
#[verifier::rlimit(100)]
proof fn lemma_movup_movup15(s: Seq<int>, n: u16)
    requires
        s.len() >= 16,
    ensures
        run(instruction_ops(I::MovUp15, n), s) == Some(seq![s[15]] + s.subrange(0, 15) + s.subrange(16, s.len() as int)),
{
    reveal_with_fuel(run, 5);
    assert(run(instruction_ops(I::MovUp15, n), s) =~~= Some(seq![s[15]] + s.subrange(0, 15) + s.subrange(16, s.len() as int)));
}

/// `movup.i` moves element `i` to the top, the elements above it one place down.
pub proof fn lemma_movup(s: Seq<int>, n: u16)
    requires
        s.len() >= 16,
    ensures
        run(instruction_ops(I::MovUp2, n), s) == Some(seq![s[2]] + s.subrange(0, 2) + s.subrange(3, s.len() as int)),
        run(instruction_ops(I::MovUp3, n), s) == Some(seq![s[3]] + s.subrange(0, 3) + s.subrange(4, s.len() as int)),
        run(instruction_ops(I::MovUp4, n), s) == Some(seq![s[4]] + s.subrange(0, 4) + s.subrange(5, s.len() as int)),
        run(instruction_ops(I::MovUp5, n), s) == Some(seq![s[5]] + s.subrange(0, 5) + s.subrange(6, s.len() as int)),
        run(instruction_ops(I::MovUp6, n), s) == Some(seq![s[6]] + s.subrange(0, 6) + s.subrange(7, s.len() as int)),
        run(instruction_ops(I::MovUp7, n), s) == Some(seq![s[7]] + s.subrange(0, 7) + s.subrange(8, s.len() as int)),
        run(instruction_ops(I::MovUp8, n), s) == Some(seq![s[8]] + s.subrange(0, 8) + s.subrange(9, s.len() as int)),
        run(instruction_ops(I::MovUp9, n), s) == Some(seq![s[9]] + s.subrange(0, 9) + s.subrange(10, s.len() as int)),
        run(instruction_ops(I::MovUp10, n), s) == Some(seq![s[10]] + s.subrange(0, 10) + s.subrange(11, s.len() as int)),
        run(instruction_ops(I::MovUp11, n), s) == Some(seq![s[11]] + s.subrange(0, 11) + s.subrange(12, s.len() as int)),
        run(instruction_ops(I::MovUp12, n), s) == Some(seq![s[12]] + s.subrange(0, 12) + s.subrange(13, s.len() as int)),
        run(instruction_ops(I::MovUp13, n), s) == Some(seq![s[13]] + s.subrange(0, 13) + s.subrange(14, s.len() as int)),
        run(instruction_ops(I::MovUp14, n), s) == Some(seq![s[14]] + s.subrange(0, 14) + s.subrange(15, s.len() as int)),
        run(instruction_ops(I::MovUp15, n), s) == Some(seq![s[15]] + s.subrange(0, 15) + s.subrange(16, s.len() as int)),
{
    lemma_movup_movup2(s, n);
    lemma_movup_movup3(s, n);
    lemma_movup_movup4(s, n);
    lemma_movup_movup5(s, n);
    lemma_movup_movup6(s, n);
    lemma_movup_movup7(s, n);
    lemma_movup_movup8(s, n);
    lemma_movup_movup9(s, n);
    lemma_movup_movup10(s, n);
    lemma_movup_movup11(s, n);
    lemma_movup_movup12(s, n);
    lemma_movup_movup13(s, n);
    lemma_movup_movup14(s, n);
    lemma_movup_movup15(s, n);
}

#[verifier::spinoff_prover]
#[verifier::rlimit(100)]
proof fn lemma_movdn_movdn2(s: Seq<int>, n: u16)
    requires
        s.len() >= 16,
    ensures
        run(instruction_ops(I::MovDn2, n), s) == Some(s.subrange(1, 3) + seq![s[0]] + s.subrange(3, s.len() as int)),
{
    reveal_with_fuel(run, 5);
    assert(run(instruction_ops(I::MovDn2, n), s) =~~= Some(s.subrange(1, 3) + seq![s[0]] + s.subrange(3, s.len() as int)));
}

#[verifier::spinoff_prover]
#[verifier::rlimit(100)]
proof fn lemma_movdn_movdn3(s: Seq<int>, n: u16)
    requires
        s.len() >= 16,
    ensures
        run(instruction_ops(I::MovDn3, n), s) == Some(s.subrange(1, 4) + seq![s[0]] + s.subrange(4, s.len() as int)),
{
    reveal_with_fuel(run, 5);
    assert(run(instruction_ops(I::MovDn3, n), s) =~~= Some(s.subrange(1, 4) + seq![s[0]] + s.subrange(4, s.len() as int)));
}

#[verifier::spinoff_prover]
#[verifier::rlimit(100)]
proof fn lemma_movdn_movdn4(s: Seq<int>, n: u16)
    requires
        s.len() >= 16,
    ensures
        run(instruction_ops(I::MovDn4, n), s) == Some(s.subrange(1, 5) + seq![s[0]] + s.subrange(5, s.len() as int)),
{
    reveal_with_fuel(run, 5);
    assert(run(instruction_ops(I::MovDn4, n), s) =~~= Some(s.subrange(1, 5) + seq![s[0]] + s.subrange(5, s.len() as int)));
}

#[verifier::spinoff_prover]
#[verifier::rlimit(100)]
proof fn lemma_movdn_movdn5(s: Seq<int>, n: u16)
    requires
        s.len() >= 16,
    ensures
        run(instruction_ops(I::MovDn5, n), s) == Some(s.subrange(1, 6) + seq![s[0]] + s.subrange(6, s.len() as int)),
{
    reveal_with_fuel(run, 5);
    assert(run(instruction_ops(I::MovDn5, n), s) =~~= Some(s.subrange(1, 6) + seq![s[0]] + s.subrange(6, s.len() as int)));
}

#[verifier::spinoff_prover]
#[verifier::rlimit(100)]
proof fn lemma_movdn_movdn6(s: Seq<int>, n: u16)
    requires
        s.len() >= 16,
    ensures
        run(instruction_ops(I::MovDn6, n), s) == Some(s.subrange(1, 7) + seq![s[0]] + s.subrange(7, s.len() as int)),
{
    reveal_with_fuel(run, 5);
    assert(run(instruction_ops(I::MovDn6, n), s) =~~= Some(s.subrange(1, 7) + seq![s[0]] + s.subrange(7, s.len() as int)));
}

#[verifier::spinoff_prover]
#[verifier::rlimit(100)]
proof fn lemma_movdn_movdn7(s: Seq<int>, n: u16)
    requires
        s.len() >= 16,
    ensures
        run(instruction_ops(I::MovDn7, n), s) == Some(s.subrange(1, 8) + seq![s[0]] + s.subrange(8, s.len() as int)),
{
    reveal_with_fuel(run, 5);
    assert(run(instruction_ops(I::MovDn7, n), s) =~~= Some(s.subrange(1, 8) + seq![s[0]] + s.subrange(8, s.len() as int)));
}

#[verifier::spinoff_prover]
#[verifier::rlimit(100)]
proof fn lemma_movdn_movdn8(s: Seq<int>, n: u16)
    requires
        s.len() >= 16,
    ensures
        run(instruction_ops(I::MovDn8, n), s) == Some(s.subrange(1, 9) + seq![s[0]] + s.subrange(9, s.len() as int)),
{
    reveal_with_fuel(run, 5);
    assert(run(instruction_ops(I::MovDn8, n), s) =~~= Some(s.subrange(1, 9) + seq![s[0]] + s.subrange(9, s.len() as int)));
}

#[verifier::spinoff_prover]
#[verifier::rlimit(100)]
proof fn lemma_movdn_movdn9(s: Seq<int>, n: u16)
    requires
        s.len() >= 16,
    ensures
        run(instruction_ops(I::MovDn9, n), s) == Some(s.subrange(1, 10) + seq![s[0]] + s.subrange(10, s.len() as int)),
{
    reveal_with_fuel(run, 5);
    assert(run(instruction_ops(I::MovDn9, n), s) =~~= Some(s.subrange(1, 10) + seq![s[0]] + s.subrange(10, s.len() as int)));
}

#[verifier::spinoff_prover]
#[verifier::rlimit(100)]
proof fn lemma_movdn_movdn10(s: Seq<int>, n: u16)
    requires
        s.len() >= 16,
    ensures
        run(instruction_ops(I::MovDn10, n), s) == Some(s.subrange(1, 11) + seq![s[0]] + s.subrange(11, s.len() as int)),
{
    reveal_with_fuel(run, 5);
    assert(run(instruction_ops(I::MovDn10, n), s) =~~= Some(s.subrange(1, 11) + seq![s[0]] + s.subrange(11, s.len() as int)));
}

#[verifier::spinoff_prover]
#[verifier::rlimit(100)]
proof fn lemma_movdn_movdn11(s: Seq<int>, n: u16)
    requires
        s.len() >= 16,
    ensures
        run(instruction_ops(I::MovDn11, n), s) == Some(s.subrange(1, 12) + seq![s[0]] + s.subrange(12, s.len() as int)),
{
    reveal_with_fuel(run, 5);
    assert(run(instruction_ops(I::MovDn11, n), s) =~~= Some(s.subrange(1, 12) + seq![s[0]] + s.subrange(12, s.len() as int)));
}

#[verifier::spinoff_prover]
#[verifier::rlimit(100)]
proof fn lemma_movdn_movdn12(s: Seq<int>, n: u16)
    requires
        s.len() >= 16,
    ensures
        run(instruction_ops(I::MovDn12, n), s) == Some(s.subrange(1, 13) + seq![s[0]] + s.subrange(13, s.len() as int)),
{
    reveal_with_fuel(run, 5);
    assert(run(instruction_ops(I::MovDn12, n), s) =~~= Some(s.subrange(1, 13) + seq![s[0]] + s.subrange(13, s.len() as int)));
}

#[verifier::spinoff_prover]
#[verifier::rlimit(100)]
proof fn lemma_movdn_movdn13(s: Seq<int>, n: u16)
    requires
        s.len() >= 16,
    ensures
        run(instruction_ops(I::MovDn13, n), s) == Some(s.subrange(1, 14) + seq![s[0]] + s.subrange(14, s.len() as int)),
{
    reveal_with_fuel(run, 5);
    assert(run(instruction_ops(I::MovDn13, n), s) =~~= Some(s.subrange(1, 14) + seq![s[0]] + s.subrange(14, s.len() as int)));
}

#[verifier::spinoff_prover]
#[verifier::rlimit(100)]
proof fn lemma_movdn_movdn14(s: Seq<int>, n: u16)
    requires
        s.len() >= 16,
    ensures
        run(instruction_ops(I::MovDn14, n), s) == Some(s.subrange(1, 15) + seq![s[0]] + s.subrange(15, s.len() as int)),
{
    reveal_with_fuel(run, 5);
    assert(run(instruction_ops(I::MovDn14, n), s) =~~= Some(s.subrange(1, 15) + seq![s[0]] + s.subrange(15, s.len() as int)));
}

#[verifier::spinoff_prover]
#[verifier::rlimit(100)]
proof fn lemma_movdn_movdn15(s: Seq<int>, n: u16)
    requires
        s.len() >= 16,
    ensures
        run(instruction_ops(I::MovDn15, n), s) == Some(s.subrange(1, 16) + seq![s[0]] + s.subrange(16, s.len() as int)),
{
    reveal_with_fuel(run, 5);
    assert(run(instruction_ops(I::MovDn15, n), s) =~~= Some(s.subrange(1, 16) + seq![s[0]] + s.subrange(16, s.len() as int)));
}

/// `movdn.i` moves the top element to position `i`, the elements above it one place up.
pub proof fn lemma_movdn(s: Seq<int>, n: u16)
    requires
        s.len() >= 16,
    ensures
        run(instruction_ops(I::MovDn2, n), s) == Some(s.subrange(1, 3) + seq![s[0]] + s.subrange(3, s.len() as int)),
        run(instruction_ops(I::MovDn3, n), s) == Some(s.subrange(1, 4) + seq![s[0]] + s.subrange(4, s.len() as int)),
        run(instruction_ops(I::MovDn4, n), s) == Some(s.subrange(1, 5) + seq![s[0]] + s.subrange(5, s.len() as int)),
        run(instruction_ops(I::MovDn5, n), s) == Some(s.subrange(1, 6) + seq![s[0]] + s.subrange(6, s.len() as int)),
        run(instruction_ops(I::MovDn6, n), s) == Some(s.subrange(1, 7) + seq![s[0]] + s.subrange(7, s.len() as int)),
        run(instruction_ops(I::MovDn7, n), s) == Some(s.subrange(1, 8) + seq![s[0]] + s.subrange(8, s.len() as int)),
        run(instruction_ops(I::MovDn8, n), s) == Some(s.subrange(1, 9) + seq![s[0]] + s.subrange(9, s.len() as int)),
        run(instruction_ops(I::MovDn9, n), s) == Some(s.subrange(1, 10) + seq![s[0]] + s.subrange(10, s.len() as int)),
        run(instruction_ops(I::MovDn10, n), s) == Some(s.subrange(1, 11) + seq![s[0]] + s.subrange(11, s.len() as int)),
        run(instruction_ops(I::MovDn11, n), s) == Some(s.subrange(1, 12) + seq![s[0]] + s.subrange(12, s.len() as int)),
        run(instruction_ops(I::MovDn12, n), s) == Some(s.subrange(1, 13) + seq![s[0]] + s.subrange(13, s.len() as int)),
        run(instruction_ops(I::MovDn13, n), s) == Some(s.subrange(1, 14) + seq![s[0]] + s.subrange(14, s.len() as int)),
        run(instruction_ops(I::MovDn14, n), s) == Some(s.subrange(1, 15) + seq![s[0]] + s.subrange(15, s.len() as int)),
        run(instruction_ops(I::MovDn15, n), s) == Some(s.subrange(1, 16) + seq![s[0]] + s.subrange(16, s.len() as int)),
{
    lemma_movdn_movdn2(s, n);
    lemma_movdn_movdn3(s, n);
    lemma_movdn_movdn4(s, n);
    lemma_movdn_movdn5(s, n);
    lemma_movdn_movdn6(s, n);
    lemma_movdn_movdn7(s, n);
    lemma_movdn_movdn8(s, n);
    lemma_movdn_movdn9(s, n);
    lemma_movdn_movdn10(s, n);
    lemma_movdn_movdn11(s, n);
    lemma_movdn_movdn12(s, n);
    lemma_movdn_movdn13(s, n);
    lemma_movdn_movdn14(s, n);
    lemma_movdn_movdn15(s, n);
}

#[verifier::spinoff_prover]
#[verifier::rlimit(100)]
proof fn lemma_words_swapw1(s: Seq<int>, n: u16)
    requires
        s.len() >= 16,
    ensures
        run(instruction_ops(I::SwapW1, n), s) == Some(exchange(s, 0, 4, 4)),
{
    reveal_with_fuel(run, 5);
    assert(run(instruction_ops(I::SwapW1, n), s) =~~= Some(exchange(s, 0, 4, 4)));
}

#[verifier::spinoff_prover]
#[verifier::rlimit(100)]
proof fn lemma_words_swapw2(s: Seq<int>, n: u16)
    requires
        s.len() >= 16,
    ensures
        run(instruction_ops(I::SwapW2, n), s) == Some(exchange(s, 0, 8, 4)),
{
    reveal_with_fuel(run, 5);
    assert(run(instruction_ops(I::SwapW2, n), s) =~~= Some(exchange(s, 0, 8, 4)));
}

#[verifier::spinoff_prover]
#[verifier::rlimit(100)]
proof fn lemma_words_swapw3(s: Seq<int>, n: u16)
    requires
        s.len() >= 16,
    ensures
        run(instruction_ops(I::SwapW3, n), s) == Some(exchange(s, 0, 12, 4)),
{
    reveal_with_fuel(run, 5);
    assert(run(instruction_ops(I::SwapW3, n), s) =~~= Some(exchange(s, 0, 12, 4)));
}

#[verifier::spinoff_prover]
#[verifier::rlimit(100)]
proof fn lemma_words_swapdw(s: Seq<int>, n: u16)
    requires
        s.len() >= 16,
    ensures
        run(instruction_ops(I::SwapDw, n), s) == Some(exchange(s, 0, 8, 8)),
{
    reveal_with_fuel(run, 5);
    assert(run(instruction_ops(I::SwapDw, n), s) =~~= Some(exchange(s, 0, 8, 8)));
}

#[verifier::spinoff_prover]
#[verifier::rlimit(100)]
proof fn lemma_words_movupw2(s: Seq<int>, n: u16)
    requires
        s.len() >= 16,
    ensures
        run(instruction_ops(I::MovUpW2, n), s) == Some(s.subrange(8, 12) + s.subrange(0, 8) + s.subrange(12, s.len() as int)),
{
    reveal_with_fuel(run, 5);
    assert(run(instruction_ops(I::MovUpW2, n), s) =~~= Some(s.subrange(8, 12) + s.subrange(0, 8) + s.subrange(12, s.len() as int)));
}

#[verifier::spinoff_prover]
#[verifier::rlimit(100)]
proof fn lemma_words_movupw3(s: Seq<int>, n: u16)
    requires
        s.len() >= 16,
    ensures
        run(instruction_ops(I::MovUpW3, n), s) == Some(s.subrange(12, 16) + s.subrange(0, 12) + s.subrange(16, s.len() as int)),
{
    reveal_with_fuel(run, 5);
    assert(run(instruction_ops(I::MovUpW3, n), s) =~~= Some(s.subrange(12, 16) + s.subrange(0, 12) + s.subrange(16, s.len() as int)));
}

#[verifier::spinoff_prover]
#[verifier::rlimit(100)]
proof fn lemma_words_movdnw2(s: Seq<int>, n: u16)
    requires
        s.len() >= 16,
    ensures
        run(instruction_ops(I::MovDnW2, n), s) == Some(s.subrange(4, 12) + s.subrange(0, 4) + s.subrange(12, s.len() as int)),
{
    reveal_with_fuel(run, 5);
    assert(run(instruction_ops(I::MovDnW2, n), s) =~~= Some(s.subrange(4, 12) + s.subrange(0, 4) + s.subrange(12, s.len() as int)));
}

#[verifier::spinoff_prover]
#[verifier::rlimit(100)]
proof fn lemma_words_movdnw3(s: Seq<int>, n: u16)
    requires
        s.len() >= 16,
    ensures
        run(instruction_ops(I::MovDnW3, n), s) == Some(s.subrange(4, 16) + s.subrange(0, 4) + s.subrange(16, s.len() as int)),
{
    reveal_with_fuel(run, 5);
    assert(run(instruction_ops(I::MovDnW3, n), s) =~~= Some(s.subrange(4, 16) + s.subrange(0, 4) + s.subrange(16, s.len() as int)));
}

#[verifier::spinoff_prover]
#[verifier::rlimit(100)]
proof fn lemma_words_drop(s: Seq<int>, n: u16)
    requires
        s.len() >= 16,
    ensures
        run(instruction_ops(I::Drop, n), s) == Some(s.subrange(1, s.len() as int)),
{
    reveal_with_fuel(run, 5);
    assert(run(instruction_ops(I::Drop, n), s) =~~= Some(s.subrange(1, s.len() as int)));
}

#[verifier::spinoff_prover]
#[verifier::rlimit(100)]
proof fn lemma_words_dropw(s: Seq<int>, n: u16)
    requires
        s.len() >= 16,
    ensures
        run(instruction_ops(I::DropW, n), s) == Some(s.subrange(4, s.len() as int)),
{
    reveal_with_fuel(run, 5);
    assert(run(instruction_ops(I::DropW, n), s) =~~= Some(s.subrange(4, s.len() as int)));
}

#[verifier::spinoff_prover]
#[verifier::rlimit(100)]
proof fn lemma_words_padw(s: Seq<int>, n: u16)
    requires
        s.len() >= 16,
    ensures
        run(instruction_ops(I::PadW, n), s) == Some(seq![0int, 0int, 0int, 0int] + s),
{
    reveal_with_fuel(run, 5);
    assert(run(instruction_ops(I::PadW, n), s) =~~= Some(seq![0int, 0int, 0int, 0int] + s));
}

/// `swapw.i` exchanges word 0 with word `i`, `swapdw` the two top double words; `movupw.i` moves word `i` to the top and `movdnw.i` the top word to position `i`; `drop`, `dropw` and `padw` remove one element, remove four, and add four zeros.
pub proof fn lemma_words(s: Seq<int>, n: u16)
    requires
        s.len() >= 16,
    ensures
        run(instruction_ops(I::SwapW1, n), s) == Some(exchange(s, 0, 4, 4)),
        run(instruction_ops(I::SwapW2, n), s) == Some(exchange(s, 0, 8, 4)),
        run(instruction_ops(I::SwapW3, n), s) == Some(exchange(s, 0, 12, 4)),
        run(instruction_ops(I::SwapDw, n), s) == Some(exchange(s, 0, 8, 8)),
        run(instruction_ops(I::MovUpW2, n), s) == Some(s.subrange(8, 12) + s.subrange(0, 8) + s.subrange(12, s.len() as int)),
        run(instruction_ops(I::MovUpW3, n), s) == Some(s.subrange(12, 16) + s.subrange(0, 12) + s.subrange(16, s.len() as int)),
        run(instruction_ops(I::MovDnW2, n), s) == Some(s.subrange(4, 12) + s.subrange(0, 4) + s.subrange(12, s.len() as int)),
        run(instruction_ops(I::MovDnW3, n), s) == Some(s.subrange(4, 16) + s.subrange(0, 4) + s.subrange(16, s.len() as int)),
        run(instruction_ops(I::Drop, n), s) == Some(s.subrange(1, s.len() as int)),
        run(instruction_ops(I::DropW, n), s) == Some(s.subrange(4, s.len() as int)),
        run(instruction_ops(I::PadW, n), s) == Some(seq![0int, 0int, 0int, 0int] + s),
{
    lemma_words_swapw1(s, n);
    lemma_words_swapw2(s, n);
    lemma_words_swapw3(s, n);
    lemma_words_swapdw(s, n);
    lemma_words_movupw2(s, n);
    lemma_words_movupw3(s, n);
    lemma_words_movdnw2(s, n);
    lemma_words_movdnw3(s, n);
    lemma_words_drop(s, n);
    lemma_words_dropw(s, n);
    lemma_words_padw(s, n);
}

#[verifier::spinoff_prover]
#[verifier::rlimit(100)]
proof fn lemma_conditional_cswap(s: Seq<int>, n: u16)
    requires
        s.len() >= 16,
        binary(s[0]),
    ensures
        run(instruction_ops(I::CSwap, n), s) == Some(if s[0] == 1 { exchange(s.subrange(1, s.len() as int), 0, 1, 1) } else { s.subrange(1, s.len() as int) }),
{
    reveal_with_fuel(run, 6);
    assert(run(instruction_ops(I::CSwap, n), s) =~~= Some(if s[0] == 1 { exchange(s.subrange(1, s.len() as int), 0, 1, 1) } else { s.subrange(1, s.len() as int) }));
}

#[verifier::spinoff_prover]
#[verifier::rlimit(100)]
proof fn lemma_conditional_cswapw(s: Seq<int>, n: u16)
    requires
        s.len() >= 16,
        binary(s[0]),
    ensures
        run(instruction_ops(I::CSwapW, n), s) == Some(if s[0] == 1 { exchange(s.subrange(1, s.len() as int), 0, 4, 4) } else { s.subrange(1, s.len() as int) }),
{
    reveal_with_fuel(run, 6);
    assert(run(instruction_ops(I::CSwapW, n), s) =~~= Some(if s[0] == 1 { exchange(s.subrange(1, s.len() as int), 0, 4, 4) } else { s.subrange(1, s.len() as int) }));
}

#[verifier::spinoff_prover]
#[verifier::rlimit(100)]
proof fn lemma_conditional_cdrop(s: Seq<int>, n: u16)
    requires
        s.len() >= 16,
        binary(s[0]),
    ensures
        run(instruction_ops(I::CDrop, n), s) == Some(seq![if s[0] == 1 { s[1] } else { s[2] }] + s.subrange(3, s.len() as int)),
{
    reveal_with_fuel(run, 6);
    assert(run(instruction_ops(I::CDrop, n), s) =~~= Some(seq![if s[0] == 1 { s[1] } else { s[2] }] + s.subrange(3, s.len() as int)));
}

#[verifier::spinoff_prover]
#[verifier::rlimit(100)]
proof fn lemma_conditional_cdropw(s: Seq<int>, n: u16)
    requires
        s.len() >= 16,
        binary(s[0]),
    ensures
        run(instruction_ops(I::CDropW, n), s) == Some((if s[0] == 1 { s.subrange(1, 5) } else { s.subrange(5, 9) }) + s.subrange(9, s.len() as int)),
{
    let n0 = s.len() as int;
    let t1 = if s[0] == 1 { s.subrange(5, 9) + s.subrange(1, 5) + s.subrange(9, n0) } else { s.subrange(1, n0) };
    assert(step(O::CSwapW, s) == Some(t1));
    let t2 = t1.subrange(1, t1.len() as int);
    let t3 = t2.subrange(1, t2.len() as int);
    let t4 = t3.subrange(1, t3.len() as int);
    let t5 = t4.subrange(1, t4.len() as int);
    let ops = instruction_ops(I::CDropW, n);
    assert(ops =~= seq![O::CSwapW] + seq![O::Drop, O::Drop, O::Drop, O::Drop]);
    lemma_run_append(seq![O::CSwapW], seq![O::Drop, O::Drop, O::Drop, O::Drop], s);
    reveal_with_fuel(run, 5);
    assert(run(seq![O::CSwapW], s) == Some(t1));
    assert(run(seq![O::Drop, O::Drop, O::Drop, O::Drop], t1) == Some(t5));
    assert(t5 =~= (if s[0] == 1 { s.subrange(1, 5) } else { s.subrange(5, 9) }) + s.subrange(9, n0));
    assert(run(ops, s) == Some(t5));
}

/// With a binary flag on top, `cswap` and `cswapw` pop it and exchange the next two elements or words when it is 1; `cdrop` and `cdropw` pop it and keep the first of the two when it is 1 and the second when it is 0.
pub proof fn lemma_conditional(s: Seq<int>, n: u16)
    requires
        s.len() >= 16,
        binary(s[0]),
    ensures
        run(instruction_ops(I::CSwap, n), s) == Some(if s[0] == 1 { exchange(s.subrange(1, s.len() as int), 0, 1, 1) } else { s.subrange(1, s.len() as int) }),
        run(instruction_ops(I::CSwapW, n), s) == Some(if s[0] == 1 { exchange(s.subrange(1, s.len() as int), 0, 4, 4) } else { s.subrange(1, s.len() as int) }),
        run(instruction_ops(I::CDrop, n), s) == Some(seq![if s[0] == 1 { s[1] } else { s[2] }] + s.subrange(3, s.len() as int)),
        run(instruction_ops(I::CDropW, n), s) == Some((if s[0] == 1 { s.subrange(1, 5) } else { s.subrange(5, 9) }) + s.subrange(9, s.len() as int)),
{
    lemma_conditional_cswap(s, n);
    lemma_conditional_cswapw(s, n);
    lemma_conditional_cdrop(s, n);
    lemma_conditional_cdropw(s, n);
}

#[verifier::spinoff_prover]
#[verifier::rlimit(100)]
proof fn lemma_field_add(s: Seq<int>, n: u16)
    requires
        s.len() >= 16,
        field_stack(s),
    ensures
        run(instruction_ops(I::Add, n), s) == Some(seq![(s[0] + s[1]) % modulus()] + s.subrange(2, s.len() as int)),
{
    reveal_with_fuel(run, 3);
    assert(run(instruction_ops(I::Add, n), s) =~~= Some(seq![(s[0] + s[1]) % modulus()] + s.subrange(2, s.len() as int)));
}

#[verifier::spinoff_prover]
#[verifier::rlimit(100)]
proof fn lemma_field_sub(s: Seq<int>, n: u16)
    requires
        s.len() >= 16,
        field_stack(s),
    ensures
        run(instruction_ops(I::Sub, n), s) == Some(seq![(s[1] - s[0]) % modulus()] + s.subrange(2, s.len() as int)),
{
    reveal_with_fuel(run, 3);
    let t = seq![(modulus() - s[0]) % modulus()] + s.subrange(1, s.len() as int);
    assert(step(O::Neg, s) == Some(t));
    assert(t[1] == s[1]);
    vstd::arithmetic::div_mod::lemma_add_mod_noop_right(s[1], modulus() - s[0], modulus());
    vstd::arithmetic::div_mod::lemma_mod_add_multiples_vanish(s[1] - s[0], modulus());
    assert((t[0] + t[1]) % modulus() == (s[1] - s[0]) % modulus());
    assert(t.subrange(2, t.len() as int) =~= s.subrange(2, s.len() as int));
    assert(run(instruction_ops(I::Sub, n), s) =~~= Some(seq![(s[1] - s[0]) % modulus()] + s.subrange(2, s.len() as int)));
}

#[verifier::spinoff_prover]
#[verifier::rlimit(100)]
proof fn lemma_field_mul(s: Seq<int>, n: u16)
    requires
        s.len() >= 16,
        field_stack(s),
    ensures
        run(instruction_ops(I::Mul, n), s) == Some(seq![(s[0] * s[1]) % modulus()] + s.subrange(2, s.len() as int)),
{
    reveal_with_fuel(run, 3);
    assert(run(instruction_ops(I::Mul, n), s) =~~= Some(seq![(s[0] * s[1]) % modulus()] + s.subrange(2, s.len() as int)));
}

#[verifier::spinoff_prover]
#[verifier::rlimit(100)]
proof fn lemma_field_neg(s: Seq<int>, n: u16)
    requires
        s.len() >= 16,
        field_stack(s),
    ensures
        run(instruction_ops(I::Neg, n), s) == Some(seq![(0 - s[0]) % modulus()] + s.subrange(1, s.len() as int)),
{
    reveal_with_fuel(run, 3);
    vstd::arithmetic::div_mod::lemma_mod_add_multiples_vanish(0 - s[0], modulus());
    assert(run(instruction_ops(I::Neg, n), s) =~~= Some(seq![(0 - s[0]) % modulus()] + s.subrange(1, s.len() as int)));
}

#[verifier::spinoff_prover]
#[verifier::rlimit(100)]
proof fn lemma_field_incr(s: Seq<int>, n: u16)
    requires
        s.len() >= 16,
        field_stack(s),
    ensures
        run(instruction_ops(I::Incr, n), s) == Some(seq![(s[0] + 1) % modulus()] + s.subrange(1, s.len() as int)),
{
    reveal_with_fuel(run, 3);
    assert(run(instruction_ops(I::Incr, n), s) =~~= Some(seq![(s[0] + 1) % modulus()] + s.subrange(1, s.len() as int)));
}

/// `add`, `sub`, `mul`, `neg` and `incr` compute, in the field, the sum of the two top elements, the second minus the top, their product, the negation of the top and its successor.
pub proof fn lemma_field(s: Seq<int>, n: u16)
    requires
        s.len() >= 16,
        field_stack(s),
    ensures
        run(instruction_ops(I::Add, n), s) == Some(seq![(s[0] + s[1]) % modulus()] + s.subrange(2, s.len() as int)),
        run(instruction_ops(I::Sub, n), s) == Some(seq![(s[1] - s[0]) % modulus()] + s.subrange(2, s.len() as int)),
        run(instruction_ops(I::Mul, n), s) == Some(seq![(s[0] * s[1]) % modulus()] + s.subrange(2, s.len() as int)),
        run(instruction_ops(I::Neg, n), s) == Some(seq![(0 - s[0]) % modulus()] + s.subrange(1, s.len() as int)),
        run(instruction_ops(I::Incr, n), s) == Some(seq![(s[0] + 1) % modulus()] + s.subrange(1, s.len() as int)),
{
    lemma_field_add(s, n);
    lemma_field_sub(s, n);
    lemma_field_mul(s, n);
    lemma_field_neg(s, n);
    lemma_field_incr(s, n);
}

#[verifier::spinoff_prover]
#[verifier::rlimit(100)]
proof fn lemma_boolean_not(s: Seq<int>, n: u16)
    requires
        s.len() >= 16,
        binary(s[0]),
        binary(s[1]),
    ensures
        run(instruction_ops(I::Not, n), s) == Some(seq![if s[0] == 0 { 1int } else { 0int }] + s.subrange(1, s.len() as int)),
{
    reveal_with_fuel(run, 8);
    assert(run(instruction_ops(I::Not, n), s) =~~= Some(seq![if s[0] == 0 { 1int } else { 0int }] + s.subrange(1, s.len() as int)));
}

#[verifier::spinoff_prover]
#[verifier::rlimit(100)]
proof fn lemma_boolean_and(s: Seq<int>, n: u16)
    requires
        s.len() >= 16,
        binary(s[0]),
        binary(s[1]),
    ensures
        run(instruction_ops(I::And, n), s) == Some(seq![if s[0] == 1 && s[1] == 1 { 1int } else { 0int }] + s.subrange(2, s.len() as int)),
{
    reveal_with_fuel(run, 8);
    assert(run(instruction_ops(I::And, n), s) =~~= Some(seq![if s[0] == 1 && s[1] == 1 { 1int } else { 0int }] + s.subrange(2, s.len() as int)));
}

#[verifier::spinoff_prover]
#[verifier::rlimit(100)]
proof fn lemma_boolean_or(s: Seq<int>, n: u16)
    requires
        s.len() >= 16,
        binary(s[0]),
        binary(s[1]),
    ensures
        run(instruction_ops(I::Or, n), s) == Some(seq![if s[0] == 1 || s[1] == 1 { 1int } else { 0int }] + s.subrange(2, s.len() as int)),
{
    reveal_with_fuel(run, 8);
    assert(run(instruction_ops(I::Or, n), s) =~~= Some(seq![if s[0] == 1 || s[1] == 1 { 1int } else { 0int }] + s.subrange(2, s.len() as int)));
}

#[verifier::spinoff_prover]
#[verifier::rlimit(100)]
proof fn lemma_boolean_xor(s: Seq<int>, n: u16)
    requires
        s.len() >= 16,
        binary(s[0]),
        binary(s[1]),
    ensures
        run(instruction_ops(I::Xor, n), s) == Some(seq![if s[0] != s[1] { 1int } else { 0int }] + s.subrange(2, s.len() as int)),
{
    reveal_with_fuel(run, 8);
    assert(run(instruction_ops(I::Xor, n), s) =~~= Some(seq![if s[0] != s[1] { 1int } else { 0int }] + s.subrange(2, s.len() as int)));
}

/// On binary top elements, `not`, `and`, `or` and `xor` compute the negation of the top, and the conjunction, disjunction and exclusive or of the two top elements.
pub proof fn lemma_boolean(s: Seq<int>, n: u16)
    requires
        s.len() >= 16,
        binary(s[0]),
        binary(s[1]),
    ensures
        run(instruction_ops(I::Not, n), s) == Some(seq![if s[0] == 0 { 1int } else { 0int }] + s.subrange(1, s.len() as int)),
        run(instruction_ops(I::And, n), s) == Some(seq![if s[0] == 1 && s[1] == 1 { 1int } else { 0int }] + s.subrange(2, s.len() as int)),
        run(instruction_ops(I::Or, n), s) == Some(seq![if s[0] == 1 || s[1] == 1 { 1int } else { 0int }] + s.subrange(2, s.len() as int)),
        run(instruction_ops(I::Xor, n), s) == Some(seq![if s[0] != s[1] { 1int } else { 0int }] + s.subrange(2, s.len() as int)),
{
    lemma_boolean_not(s, n);
    lemma_boolean_and(s, n);
    lemma_boolean_or(s, n);
    lemma_boolean_xor(s, n);
}

/// `assert`, `assertz` and `assert_eq`, with or without an error code, succeed exactly when the
/// top element is 1, the top element is 0, and the two top elements are equal; on success they
/// remove what they checked.
pub proof fn lemma_assertions(s: Seq<int>, n: u16, e: u32)
    requires
        s.len() >= 16,
    ensures
        run(instruction_ops(I::Assert, n), s) == if s[0] == 1 { Some(s.subrange(1, s.len() as int)) } else { None },
        run(instruction_ops(I::AssertWithError(e), n), s) == if s[0] == 1 { Some(s.subrange(1, s.len() as int)) } else { None },
        run(instruction_ops(I::Assertz, n), s) == if s[0] == 0 { Some(s.subrange(1, s.len() as int)) } else { None },
        run(instruction_ops(I::AssertzWithError(e), n), s) == if s[0] == 0 { Some(s.subrange(1, s.len() as int)) } else { None },
        run(instruction_ops(I::AssertEq, n), s) == if s[0] == s[1] { Some(s.subrange(2, s.len() as int)) } else { None },
        run(instruction_ops(I::AssertEqWithError(e), n), s) == if s[0] == s[1] { Some(s.subrange(2, s.len() as int)) } else { None },
{
    reveal_with_fuel(run, 3);
    let t = seq![if s[0] == 0 { 1int } else { 0int }] + s.subrange(1, s.len() as int);
    assert(t.subrange(1, t.len() as int) =~= s.subrange(1, s.len() as int));
    let u = seq![if s[0] == s[1] { 1int } else { 0int }] + s.subrange(2, s.len() as int);
    assert(u.subrange(1, u.len() as int) =~= s.subrange(2, s.len() as int));
    assert(run(instruction_ops(I::Assert, n), s) =~~= if s[0] == 1 { Some(s.subrange(1, s.len() as int)) } else { None });
    assert(run(instruction_ops(I::AssertWithError(e), n), s) =~~= if s[0] == 1 { Some(s.subrange(1, s.len() as int)) } else { None });
}

/// A push of a field element, or of an 8-, 16- or 32-bit value, puts that value on top of the
/// stack.
pub proof fn lemma_push(s: Seq<int>, n: u16, f: Felt, a: u8, b: u16, c: u32)
    requires
        f.canonical(),
    ensures
        run(instruction_ops(I::Push(f), n), s) == Some(seq![f.value as int] + s),
        run(instruction_ops(I::PushFelt(f), n), s) == Some(seq![f.value as int] + s),
        run(instruction_ops(I::PushU8(a), n), s) == Some(seq![a as int] + s),
        run(instruction_ops(I::PushU16(b), n), s) == Some(seq![b as int] + s),
        run(instruction_ops(I::PushU32(c), n), s) == Some(seq![c as int] + s),
{
    lemma_push_value(s, f);
    lemma_push_value(s, Felt { value: a as u64 });
    lemma_push_value(s, Felt { value: b as u64 });
    lemma_push_value(s, Felt { value: c as u64 });
}

/// The operations that push a field element put its value on top of the stack.
proof fn lemma_push_value(s: Seq<int>, f: Felt)
    requires
        f.canonical(),
    ensures
        run(push_felt_ops(f), s) == Some(seq![f.value as int] + s),
{
    reveal_with_fuel(run, 3);
    if f.value == 1 {
        let t = seq![0int] + s;
        assert(step(O::Pad, s) == Some(t));
        let u = seq![(t[0] + 1) % modulus()] + t.subrange(1, t.len() as int);
        assert(step(O::Incr, t) == Some(u));
        assert(t.subrange(1, t.len() as int) =~= s);
        assert(t[0] == 0);
        assert((0int + 1) % modulus() == 1);
        assert(u[0] == 1);
        assert(u =~= seq![1int] + s);
        assert(run(push_felt_ops(f), s) =~~= Some(seq![f.value as int] + s));
    } else {
        assert(run(push_felt_ops(f), s) =~~= Some(seq![f.value as int] + s));
    }
}

#[verifier::spinoff_prover]
#[verifier::rlimit(100)]
proof fn lemma_u32_checks_u32split(s: Seq<int>, n: u16, e: u32)
    requires
        s.len() >= 16,
        field_stack(s),
    ensures
        run(instruction_ops(I::U32Split, n), s) == Some(seq![s[0] / two32(), s[0] % two32()] + s.subrange(1, s.len() as int)),
{
    reveal_with_fuel(run, 7);
    assert(run(instruction_ops(I::U32Split, n), s) =~~= Some(seq![s[0] / two32(), s[0] % two32()] + s.subrange(1, s.len() as int)));
}

#[verifier::spinoff_prover]
#[verifier::rlimit(100)]
proof fn lemma_u32_checks_u32cast(s: Seq<int>, n: u16, e: u32)
    requires
        s.len() >= 16,
        field_stack(s),
    ensures
        run(instruction_ops(I::U32Cast, n), s) == Some(seq![s[0] % two32()] + s.subrange(1, s.len() as int)),
{
    reveal_with_fuel(run, 7);
    assert(run(instruction_ops(I::U32Cast, n), s) =~~= Some(seq![s[0] % two32()] + s.subrange(1, s.len() as int)));
}

#[verifier::spinoff_prover]
#[verifier::rlimit(100)]
proof fn lemma_u32_checks_u32test(s: Seq<int>, n: u16, e: u32)
    requires
        s.len() >= 16,
        field_stack(s),
    ensures
        run(instruction_ops(I::U32Test, n), s) == Some(seq![if is_u32(s[0]) { 1int } else { 0int }] + s),
{
    reveal_with_fuel(run, 7);
    assert(run(instruction_ops(I::U32Test, n), s) =~~= Some(seq![if is_u32(s[0]) { 1int } else { 0int }] + s));
}

#[verifier::spinoff_prover]
#[verifier::rlimit(100)]
proof fn lemma_u32_checks_u32assert(s: Seq<int>, n: u16, e: u32)
    requires
        s.len() >= 16,
        field_stack(s),
    ensures
        run(instruction_ops(I::U32Assert, n), s) == if is_u32(s[0]) { Some(s) } else { None },
{
    reveal_with_fuel(run, 7);
    assert(run(instruction_ops(I::U32Assert, n), s) =~~= if is_u32(s[0]) { Some(s) } else { None });
}

#[verifier::spinoff_prover]
#[verifier::rlimit(100)]
proof fn lemma_u32_checks_u32assertwitherror(s: Seq<int>, n: u16, e: u32)
    requires
        s.len() >= 16,
        field_stack(s),
    ensures
        run(instruction_ops(I::U32AssertWithError(e), n), s) == if is_u32(s[0]) { Some(s) } else { None },
{
    reveal_with_fuel(run, 7);
    assert(run(instruction_ops(I::U32AssertWithError(e), n), s) =~~= if is_u32(s[0]) { Some(s) } else { None });
}

#[verifier::spinoff_prover]
#[verifier::rlimit(100)]
proof fn lemma_u32_checks_u32assert2(s: Seq<int>, n: u16, e: u32)
    requires
        s.len() >= 16,
        field_stack(s),
    ensures
        run(instruction_ops(I::U32Assert2, n), s) == if is_u32(s[0]) && is_u32(s[1]) { Some(s) } else { None },
{
    reveal_with_fuel(run, 7);
    assert(run(instruction_ops(I::U32Assert2, n), s) =~~= if is_u32(s[0]) && is_u32(s[1]) { Some(s) } else { None });
}

#[verifier::spinoff_prover]
#[verifier::rlimit(100)]
proof fn lemma_u32_checks_u32assert2witherror(s: Seq<int>, n: u16, e: u32)
    requires
        s.len() >= 16,
        field_stack(s),
    ensures
        run(instruction_ops(I::U32Assert2WithError(e), n), s) == if is_u32(s[0]) && is_u32(s[1]) { Some(s) } else { None },
{
    reveal_with_fuel(run, 7);
    assert(run(instruction_ops(I::U32Assert2WithError(e), n), s) =~~= if is_u32(s[0]) && is_u32(s[1]) { Some(s) } else { None });
}

/// `u32split` splits the top element into its high and low 32 bits (high on top), `u32cast` keeps the low 32 bits, `u32test` pushes whether the top element is a 32-bit value, and `u32assert` and `u32assert2` succeed, leaving the stack as it was, exactly when the top element, or the two top elements, are 32-bit values.
pub proof fn lemma_u32_checks(s: Seq<int>, n: u16, e: u32)
    requires
        s.len() >= 16,
        field_stack(s),
    ensures
        run(instruction_ops(I::U32Split, n), s) == Some(seq![s[0] / two32(), s[0] % two32()] + s.subrange(1, s.len() as int)),
        run(instruction_ops(I::U32Cast, n), s) == Some(seq![s[0] % two32()] + s.subrange(1, s.len() as int)),
        run(instruction_ops(I::U32Test, n), s) == Some(seq![if is_u32(s[0]) { 1int } else { 0int }] + s),
        run(instruction_ops(I::U32Assert, n), s) == if is_u32(s[0]) { Some(s) } else { None },
        run(instruction_ops(I::U32AssertWithError(e), n), s) == if is_u32(s[0]) { Some(s) } else { None },
        run(instruction_ops(I::U32Assert2, n), s) == if is_u32(s[0]) && is_u32(s[1]) { Some(s) } else { None },
        run(instruction_ops(I::U32Assert2WithError(e), n), s) == if is_u32(s[0]) && is_u32(s[1]) { Some(s) } else { None },
{
    lemma_u32_checks_u32split(s, n, e);
    lemma_u32_checks_u32cast(s, n, e);
    lemma_u32_checks_u32test(s, n, e);
    lemma_u32_checks_u32assert(s, n, e);
    lemma_u32_checks_u32assertwitherror(s, n, e);
    lemma_u32_checks_u32assert2(s, n, e);
    lemma_u32_checks_u32assert2witherror(s, n, e);
}

#[verifier::spinoff_prover]
#[verifier::rlimit(100)]
proof fn lemma_u32_arithmetic_u32wrappingadd(s: Seq<int>, n: u16)
    requires
        s.len() >= 16,
        is_u32(s[0]),
        is_u32(s[1]),
    ensures
        run(instruction_ops(I::U32WrappingAdd, n), s) == Some(seq![(s[1] + s[0]) % two32()] + s.subrange(2, s.len() as int)),
{
    reveal_with_fuel(run, 6);
    assert(run(instruction_ops(I::U32WrappingAdd, n), s) =~~= Some(seq![(s[1] + s[0]) % two32()] + s.subrange(2, s.len() as int)));
}

#[verifier::spinoff_prover]
#[verifier::rlimit(100)]
proof fn lemma_u32_arithmetic_u32overflowingadd(s: Seq<int>, n: u16)
    requires
        s.len() >= 16,
        is_u32(s[0]),
        is_u32(s[1]),
    ensures
        run(instruction_ops(I::U32OverflowingAdd, n), s) == Some(seq![(s[1] + s[0]) / two32(), (s[1] + s[0]) % two32()] + s.subrange(2, s.len() as int)),
{
    reveal_with_fuel(run, 6);
    assert(run(instruction_ops(I::U32OverflowingAdd, n), s) =~~= Some(seq![(s[1] + s[0]) / two32(), (s[1] + s[0]) % two32()] + s.subrange(2, s.len() as int)));
}

#[verifier::spinoff_prover]
#[verifier::rlimit(100)]
proof fn lemma_u32_arithmetic_u32wrappingsub(s: Seq<int>, n: u16)
    requires
        s.len() >= 16,
        is_u32(s[0]),
        is_u32(s[1]),
    ensures
        run(instruction_ops(I::U32WrappingSub, n), s) == Some(seq![(s[1] - s[0]) % two32()] + s.subrange(2, s.len() as int)),
{
    reveal_with_fuel(run, 6);
    assert(run(instruction_ops(I::U32WrappingSub, n), s) =~~= Some(seq![(s[1] - s[0]) % two32()] + s.subrange(2, s.len() as int)));
}

#[verifier::spinoff_prover]
#[verifier::rlimit(100)]
proof fn lemma_u32_arithmetic_u32overflowingsub(s: Seq<int>, n: u16)
    requires
        s.len() >= 16,
        is_u32(s[0]),
        is_u32(s[1]),
    ensures
        run(instruction_ops(I::U32OverflowingSub, n), s) == Some(seq![if s[1] < s[0] { 1int } else { 0int }, (s[1] - s[0]) % two32()] + s.subrange(2, s.len() as int)),
{
    reveal_with_fuel(run, 6);
    assert(run(instruction_ops(I::U32OverflowingSub, n), s) =~~= Some(seq![if s[1] < s[0] { 1int } else { 0int }, (s[1] - s[0]) % two32()] + s.subrange(2, s.len() as int)));
}

#[verifier::spinoff_prover]
#[verifier::rlimit(100)]
proof fn lemma_u32_arithmetic_u32wrappingmul(s: Seq<int>, n: u16)
    requires
        s.len() >= 16,
        is_u32(s[0]),
        is_u32(s[1]),
    ensures
        run(instruction_ops(I::U32WrappingMul, n), s) == Some(seq![(s[1] * s[0]) % two32()] + s.subrange(2, s.len() as int)),
{
    reveal_with_fuel(run, 6);
    assert(run(instruction_ops(I::U32WrappingMul, n), s) =~~= Some(seq![(s[1] * s[0]) % two32()] + s.subrange(2, s.len() as int)));
}

#[verifier::spinoff_prover]
#[verifier::rlimit(100)]
proof fn lemma_u32_arithmetic_u32overflowingmul(s: Seq<int>, n: u16)
    requires
        s.len() >= 16,
        is_u32(s[0]),
        is_u32(s[1]),
    ensures
        run(instruction_ops(I::U32OverflowingMul, n), s) == Some(seq![(s[1] * s[0]) / two32(), (s[1] * s[0]) % two32()] + s.subrange(2, s.len() as int)),
{
    reveal_with_fuel(run, 6);
    assert(run(instruction_ops(I::U32OverflowingMul, n), s) =~~= Some(seq![(s[1] * s[0]) / two32(), (s[1] * s[0]) % two32()] + s.subrange(2, s.len() as int)));
}

#[verifier::spinoff_prover]
#[verifier::rlimit(100)]
proof fn lemma_u32_arithmetic_u32and(s: Seq<int>, n: u16)
    requires
        s.len() >= 16,
        is_u32(s[0]),
        is_u32(s[1]),
    ensures
        run(instruction_ops(I::U32And, n), s) == Some(seq![((s[0] as u32) & (s[1] as u32)) as int] + s.subrange(2, s.len() as int)),
{
    reveal_with_fuel(run, 6);
    assert(run(instruction_ops(I::U32And, n), s) =~~= Some(seq![((s[0] as u32) & (s[1] as u32)) as int] + s.subrange(2, s.len() as int)));
}

#[verifier::spinoff_prover]
#[verifier::rlimit(100)]
proof fn lemma_u32_arithmetic_u32xor(s: Seq<int>, n: u16)
    requires
        s.len() >= 16,
        is_u32(s[0]),
        is_u32(s[1]),
    ensures
        run(instruction_ops(I::U32Xor, n), s) == Some(seq![((s[0] as u32) ^ (s[1] as u32)) as int] + s.subrange(2, s.len() as int)),
{
    reveal_with_fuel(run, 6);
    assert(run(instruction_ops(I::U32Xor, n), s) =~~= Some(seq![((s[0] as u32) ^ (s[1] as u32)) as int] + s.subrange(2, s.len() as int)));
}

#[verifier::spinoff_prover]
#[verifier::rlimit(100)]
proof fn lemma_u32_arithmetic_u32not(s: Seq<int>, n: u16)
    requires
        s.len() >= 16,
        is_u32(s[0]),
        is_u32(s[1]),
    ensures
        run(instruction_ops(I::U32Not, n), s) == Some(seq![two32() - 1 - s[0]] + s.subrange(1, s.len() as int)),
{
    let n0 = s.len() as int;
    let m = 0xFFFF_FFFFint;
    let t1 = seq![m] + s;
    let t2 = seq![s[0], m] + s.subrange(1, n0);
    let t3 = seq![if s[0] < m { 0int } else { 0int }, (m - s[0]) % two32()] + s.subrange(1, n0);
    let ops = instruction_ops(I::U32Not, n);
    assert(ops =~= seq![O::Push(Felt { value: 0xFFFF_FFFF }), O::U32assert2(0)] + seq![O::Swap, O::U32sub, O::Drop]);
    lemma_run_append(seq![O::Push(Felt { value: 0xFFFF_FFFF }), O::U32assert2(0)], seq![O::Swap, O::U32sub, O::Drop], s);
    reveal_with_fuel(run, 4);
    assert(step(O::Push(Felt { value: 0xFFFF_FFFF }), s) == Some(t1));
    assert(t1[0] == m && t1[1] == s[0]);
    assert(step(O::U32assert2(0), t1) == Some(t1));
    assert(run(seq![O::Push(Felt { value: 0xFFFF_FFFF }), O::U32assert2(0)], s) == Some(t1));
    assert(t1.subrange(2, t1.len() as int) =~= s.subrange(1, n0));
    assert(step(O::Swap, t1) == Some(t2));
    assert(t2[0] == s[0] && t2[1] == m);
    assert(t2.subrange(2, t2.len() as int) =~= s.subrange(1, n0));
    assert((m - s[0]) % two32() == two32() - 1 - s[0]);
    assert(run(instruction_ops(I::U32Not, n), s) =~~= Some(seq![two32() - 1 - s[0]] + s.subrange(1, s.len() as int)));
}

/// On two 32-bit values `b` (top) and `a`: the wrapping forms of `u32add`, `u32sub` and `u32mul` leave `a + b`, `a - b` and `a * b` modulo 2^32; the overflowing forms also push the carry, the borrow, or the high 32 bits of the product, on top; `u32and` and `u32xor` leave the bitwise conjunction and exclusive or, and `u32not` the complement of the top element.
pub proof fn lemma_u32_arithmetic(s: Seq<int>, n: u16)
    requires
        s.len() >= 16,
        is_u32(s[0]),
        is_u32(s[1]),
    ensures
        run(instruction_ops(I::U32WrappingAdd, n), s) == Some(seq![(s[1] + s[0]) % two32()] + s.subrange(2, s.len() as int)),
        run(instruction_ops(I::U32OverflowingAdd, n), s) == Some(seq![(s[1] + s[0]) / two32(), (s[1] + s[0]) % two32()] + s.subrange(2, s.len() as int)),
        run(instruction_ops(I::U32WrappingSub, n), s) == Some(seq![(s[1] - s[0]) % two32()] + s.subrange(2, s.len() as int)),
        run(instruction_ops(I::U32OverflowingSub, n), s) == Some(seq![if s[1] < s[0] { 1int } else { 0int }, (s[1] - s[0]) % two32()] + s.subrange(2, s.len() as int)),
        run(instruction_ops(I::U32WrappingMul, n), s) == Some(seq![(s[1] * s[0]) % two32()] + s.subrange(2, s.len() as int)),
        run(instruction_ops(I::U32OverflowingMul, n), s) == Some(seq![(s[1] * s[0]) / two32(), (s[1] * s[0]) % two32()] + s.subrange(2, s.len() as int)),
        run(instruction_ops(I::U32And, n), s) == Some(seq![((s[0] as u32) & (s[1] as u32)) as int] + s.subrange(2, s.len() as int)),
        run(instruction_ops(I::U32Xor, n), s) == Some(seq![((s[0] as u32) ^ (s[1] as u32)) as int] + s.subrange(2, s.len() as int)),
        run(instruction_ops(I::U32Not, n), s) == Some(seq![two32() - 1 - s[0]] + s.subrange(1, s.len() as int)),
{
    lemma_u32_arithmetic_u32wrappingadd(s, n);
    lemma_u32_arithmetic_u32overflowingadd(s, n);
    lemma_u32_arithmetic_u32wrappingsub(s, n);
    lemma_u32_arithmetic_u32overflowingsub(s, n);
    lemma_u32_arithmetic_u32wrappingmul(s, n);
    lemma_u32_arithmetic_u32overflowingmul(s, n);
    lemma_u32_arithmetic_u32and(s, n);
    lemma_u32_arithmetic_u32xor(s, n);
    lemma_u32_arithmetic_u32not(s, n);
}

#[verifier::spinoff_prover]
#[verifier::rlimit(100)]
proof fn lemma_u32_three_u32overflowingadd3(s: Seq<int>, n: u16)
    requires
        s.len() >= 16,
        is_u32(s[0]),
        is_u32(s[1]),
        is_u32(s[2]),
    ensures
        run(instruction_ops(I::U32OverflowingAdd3, n), s) == Some(seq![(s[0] + s[1] + s[2]) / two32(), (s[0] + s[1] + s[2]) % two32()] + s.subrange(3, s.len() as int)),
{
    reveal_with_fuel(run, 4);
    assert(run(instruction_ops(I::U32OverflowingAdd3, n), s) =~~= Some(seq![(s[0] + s[1] + s[2]) / two32(), (s[0] + s[1] + s[2]) % two32()] + s.subrange(3, s.len() as int)));
}

#[verifier::spinoff_prover]
#[verifier::rlimit(100)]
proof fn lemma_u32_three_u32wrappingadd3(s: Seq<int>, n: u16)
    requires
        s.len() >= 16,
        is_u32(s[0]),
        is_u32(s[1]),
        is_u32(s[2]),
    ensures
        run(instruction_ops(I::U32WrappingAdd3, n), s) == Some(seq![(s[0] + s[1] + s[2]) % two32()] + s.subrange(3, s.len() as int)),
{
    reveal_with_fuel(run, 4);
    assert(run(instruction_ops(I::U32WrappingAdd3, n), s) =~~= Some(seq![(s[0] + s[1] + s[2]) % two32()] + s.subrange(3, s.len() as int)));
}

#[verifier::spinoff_prover]
#[verifier::rlimit(100)]
proof fn lemma_u32_three_u32overflowingmadd(s: Seq<int>, n: u16)
    requires
        s.len() >= 16,
        is_u32(s[0]),
        is_u32(s[1]),
        is_u32(s[2]),
    ensures
        run(instruction_ops(I::U32OverflowingMadd, n), s) == Some(seq![(s[0] * s[1] + s[2]) / two32(), (s[0] * s[1] + s[2]) % two32()] + s.subrange(3, s.len() as int)),
{
    reveal_with_fuel(run, 4);
    assert(run(instruction_ops(I::U32OverflowingMadd, n), s) =~~= Some(seq![(s[0] * s[1] + s[2]) / two32(), (s[0] * s[1] + s[2]) % two32()] + s.subrange(3, s.len() as int)));
}

#[verifier::spinoff_prover]
#[verifier::rlimit(100)]
proof fn lemma_u32_three_u32wrappingmadd(s: Seq<int>, n: u16)
    requires
        s.len() >= 16,
        is_u32(s[0]),
        is_u32(s[1]),
        is_u32(s[2]),
    ensures
        run(instruction_ops(I::U32WrappingMadd, n), s) == Some(seq![(s[0] * s[1] + s[2]) % two32()] + s.subrange(3, s.len() as int)),
{
    reveal_with_fuel(run, 4);
    assert(run(instruction_ops(I::U32WrappingMadd, n), s) =~~= Some(seq![(s[0] * s[1] + s[2]) % two32()] + s.subrange(3, s.len() as int)));
}

/// On three 32-bit values `c` (top), `b` and `a`: `u32overflowing_add3` leaves the high and low 32 bits of `a + b + c`, the wrapping form the low bits; `u32overflowing_madd` the high and low bits of `b * c + a`, the wrapping form the low bits.
pub proof fn lemma_u32_three(s: Seq<int>, n: u16)
    requires
        s.len() >= 16,
        is_u32(s[0]),
        is_u32(s[1]),
        is_u32(s[2]),
    ensures
        run(instruction_ops(I::U32OverflowingAdd3, n), s) == Some(seq![(s[0] + s[1] + s[2]) / two32(), (s[0] + s[1] + s[2]) % two32()] + s.subrange(3, s.len() as int)),
        run(instruction_ops(I::U32WrappingAdd3, n), s) == Some(seq![(s[0] + s[1] + s[2]) % two32()] + s.subrange(3, s.len() as int)),
        run(instruction_ops(I::U32OverflowingMadd, n), s) == Some(seq![(s[0] * s[1] + s[2]) / two32(), (s[0] * s[1] + s[2]) % two32()] + s.subrange(3, s.len() as int)),
        run(instruction_ops(I::U32WrappingMadd, n), s) == Some(seq![(s[0] * s[1] + s[2]) % two32()] + s.subrange(3, s.len() as int)),
{
    lemma_u32_three_u32overflowingadd3(s, n);
    lemma_u32_three_u32wrappingadd3(s, n);
    lemma_u32_three_u32overflowingmadd(s, n);
    lemma_u32_three_u32wrappingmadd(s, n);
}

#[verifier::spinoff_prover]
#[verifier::rlimit(100)]
proof fn lemma_u32_division_u32div(s: Seq<int>, n: u16)
    requires
        s.len() >= 16,
        is_u32(s[0]),
        is_u32(s[1]),
        s[0] != 0,
    ensures
        run(instruction_ops(I::U32Div, n), s) == Some(seq![s[1] / s[0]] + s.subrange(2, s.len() as int)),
{
    reveal_with_fuel(run, 4);
    assert(run(instruction_ops(I::U32Div, n), s) =~~= Some(seq![s[1] / s[0]] + s.subrange(2, s.len() as int)));
}

#[verifier::spinoff_prover]
#[verifier::rlimit(100)]
proof fn lemma_u32_division_u32mod(s: Seq<int>, n: u16)
    requires
        s.len() >= 16,
        is_u32(s[0]),
        is_u32(s[1]),
        s[0] != 0,
    ensures
        run(instruction_ops(I::U32Mod, n), s) == Some(seq![s[1] % s[0]] + s.subrange(2, s.len() as int)),
{
    reveal_with_fuel(run, 4);
    assert(run(instruction_ops(I::U32Mod, n), s) =~~= Some(seq![s[1] % s[0]] + s.subrange(2, s.len() as int)));
}

#[verifier::spinoff_prover]
#[verifier::rlimit(100)]
proof fn lemma_u32_division_u32divmod(s: Seq<int>, n: u16)
    requires
        s.len() >= 16,
        is_u32(s[0]),
        is_u32(s[1]),
        s[0] != 0,
    ensures
        run(instruction_ops(I::U32DivMod, n), s) == Some(seq![s[1] % s[0], s[1] / s[0]] + s.subrange(2, s.len() as int)),
{
    reveal_with_fuel(run, 4);
    assert(run(instruction_ops(I::U32DivMod, n), s) =~~= Some(seq![s[1] % s[0], s[1] / s[0]] + s.subrange(2, s.len() as int)));
}

/// On two 32-bit values `b` (top, not zero) and `a`: `u32div` leaves the quotient of `a` by `b`, `u32mod` the remainder, and `u32divmod` the remainder on top of the quotient.
pub proof fn lemma_u32_division(s: Seq<int>, n: u16)
    requires
        s.len() >= 16,
        is_u32(s[0]),
        is_u32(s[1]),
        s[0] != 0,
    ensures
        run(instruction_ops(I::U32Div, n), s) == Some(seq![s[1] / s[0]] + s.subrange(2, s.len() as int)),
        run(instruction_ops(I::U32Mod, n), s) == Some(seq![s[1] % s[0]] + s.subrange(2, s.len() as int)),
        run(instruction_ops(I::U32DivMod, n), s) == Some(seq![s[1] % s[0], s[1] / s[0]] + s.subrange(2, s.len() as int)),
{
    lemma_u32_division_u32div(s, n);
    lemma_u32_division_u32mod(s, n);
    lemma_u32_division_u32divmod(s, n);
}

#[verifier::spinoff_prover]
#[verifier::rlimit(100)]
proof fn lemma_u32_immediates_u32wrappingaddimm(s: Seq<int>, n: u16, v: u32)
    requires
        s.len() >= 16,
        is_u32(s[0]),
    ensures
        run(instruction_ops(I::U32WrappingAddImm(v), n), s) == Some(seq![(s[0] + v) % two32()] + s.subrange(1, s.len() as int)),
{
    reveal_with_fuel(run, 4);
    lemma_run_after_push_u32(v, seq![O::U32add, O::Drop], s);
    assert(instruction_ops(I::U32WrappingAddImm(v), n) =~= push_u32_ops(v) + seq![O::U32add, O::Drop]);
    assert(run(instruction_ops(I::U32WrappingAddImm(v), n), s) =~~= Some(seq![(s[0] + v) % two32()] + s.subrange(1, s.len() as int)));
}

#[verifier::spinoff_prover]
#[verifier::rlimit(100)]
proof fn lemma_u32_immediates_u32overflowingaddimm(s: Seq<int>, n: u16, v: u32)
    requires
        s.len() >= 16,
        is_u32(s[0]),
    ensures
        run(instruction_ops(I::U32OverflowingAddImm(v), n), s) == Some(seq![(s[0] + v) / two32(), (s[0] + v) % two32()] + s.subrange(1, s.len() as int)),
{
    reveal_with_fuel(run, 4);
    lemma_run_after_push_u32(v, seq![O::U32add], s);
    assert(instruction_ops(I::U32OverflowingAddImm(v), n) =~= push_u32_ops(v) + seq![O::U32add]);
    assert(run(instruction_ops(I::U32OverflowingAddImm(v), n), s) =~~= Some(seq![(s[0] + v) / two32(), (s[0] + v) % two32()] + s.subrange(1, s.len() as int)));
}

#[verifier::spinoff_prover]
#[verifier::rlimit(100)]
proof fn lemma_u32_immediates_u32wrappingsubimm(s: Seq<int>, n: u16, v: u32)
    requires
        s.len() >= 16,
        is_u32(s[0]),
    ensures
        run(instruction_ops(I::U32WrappingSubImm(v), n), s) == Some(seq![(s[0] - v) % two32()] + s.subrange(1, s.len() as int)),
{
    reveal_with_fuel(run, 4);
    lemma_run_after_push_u32(v, seq![O::U32sub, O::Drop], s);
    assert(instruction_ops(I::U32WrappingSubImm(v), n) =~= push_u32_ops(v) + seq![O::U32sub, O::Drop]);
    assert(run(instruction_ops(I::U32WrappingSubImm(v), n), s) =~~= Some(seq![(s[0] - v) % two32()] + s.subrange(1, s.len() as int)));
}

#[verifier::spinoff_prover]
#[verifier::rlimit(100)]
proof fn lemma_u32_immediates_u32overflowingsubimm(s: Seq<int>, n: u16, v: u32)
    requires
        s.len() >= 16,
        is_u32(s[0]),
    ensures
        run(instruction_ops(I::U32OverflowingSubImm(v), n), s) == Some(seq![if s[0] < v { 1int } else { 0int }, (s[0] - v) % two32()] + s.subrange(1, s.len() as int)),
{
    reveal_with_fuel(run, 4);
    lemma_run_after_push_u32(v, seq![O::U32sub], s);
    assert(instruction_ops(I::U32OverflowingSubImm(v), n) =~= push_u32_ops(v) + seq![O::U32sub]);
    assert(run(instruction_ops(I::U32OverflowingSubImm(v), n), s) =~~= Some(seq![if s[0] < v { 1int } else { 0int }, (s[0] - v) % two32()] + s.subrange(1, s.len() as int)));
}

#[verifier::spinoff_prover]
#[verifier::rlimit(100)]
proof fn lemma_u32_immediates_u32wrappingmulimm(s: Seq<int>, n: u16, v: u32)
    requires
        s.len() >= 16,
        is_u32(s[0]),
    ensures
        run(instruction_ops(I::U32WrappingMulImm(v), n), s) == Some(seq![(s[0] * v) % two32()] + s.subrange(1, s.len() as int)),
{
    reveal_with_fuel(run, 4);
    lemma_run_after_push_u32(v, seq![O::U32mul, O::Drop], s);
    assert(instruction_ops(I::U32WrappingMulImm(v), n) =~= push_u32_ops(v) + seq![O::U32mul, O::Drop]);
    assert(v * s[0] == s[0] * v) by (nonlinear_arith);
    assert(run(instruction_ops(I::U32WrappingMulImm(v), n), s) =~~= Some(seq![(s[0] * v) % two32()] + s.subrange(1, s.len() as int)));
}

#[verifier::spinoff_prover]
#[verifier::rlimit(100)]
proof fn lemma_u32_immediates_u32overflowingmulimm(s: Seq<int>, n: u16, v: u32)
    requires
        s.len() >= 16,
        is_u32(s[0]),
    ensures
        run(instruction_ops(I::U32OverflowingMulImm(v), n), s) == Some(seq![(s[0] * v) / two32(), (s[0] * v) % two32()] + s.subrange(1, s.len() as int)),
{
    reveal_with_fuel(run, 4);
    lemma_run_after_push_u32(v, seq![O::U32mul], s);
    assert(instruction_ops(I::U32OverflowingMulImm(v), n) =~= push_u32_ops(v) + seq![O::U32mul]);
    assert(v * s[0] == s[0] * v) by (nonlinear_arith);
    assert(run(instruction_ops(I::U32OverflowingMulImm(v), n), s) =~~= Some(seq![(s[0] * v) / two32(), (s[0] * v) % two32()] + s.subrange(1, s.len() as int)));
}

/// With an immediate `v` and a 32-bit value `a` on top: the forms of `u32add`, `u32sub` and `u32mul` with `v` leave `a + v`, `a - v` and `a * v` modulo 2^32 (with the carry, borrow or high bits on top in their overflowing forms); with `v` not zero, `u32div`, `u32mod` and `u32divmod` with `v` leave the quotient of `a` by `v`, the remainder, and both.
pub proof fn lemma_u32_immediates(s: Seq<int>, n: u16, v: u32)
    requires
        s.len() >= 16,
        is_u32(s[0]),
    ensures
        run(instruction_ops(I::U32WrappingAddImm(v), n), s) == Some(seq![(s[0] + v) % two32()] + s.subrange(1, s.len() as int)),
        run(instruction_ops(I::U32OverflowingAddImm(v), n), s) == Some(seq![(s[0] + v) / two32(), (s[0] + v) % two32()] + s.subrange(1, s.len() as int)),
        run(instruction_ops(I::U32WrappingSubImm(v), n), s) == Some(seq![(s[0] - v) % two32()] + s.subrange(1, s.len() as int)),
        run(instruction_ops(I::U32OverflowingSubImm(v), n), s) == Some(seq![if s[0] < v { 1int } else { 0int }, (s[0] - v) % two32()] + s.subrange(1, s.len() as int)),
        run(instruction_ops(I::U32WrappingMulImm(v), n), s) == Some(seq![(s[0] * v) % two32()] + s.subrange(1, s.len() as int)),
        run(instruction_ops(I::U32OverflowingMulImm(v), n), s) == Some(seq![(s[0] * v) / two32(), (s[0] * v) % two32()] + s.subrange(1, s.len() as int)),
{
    lemma_u32_immediates_u32wrappingaddimm(s, n, v);
    lemma_u32_immediates_u32overflowingaddimm(s, n, v);
    lemma_u32_immediates_u32wrappingsubimm(s, n, v);
    lemma_u32_immediates_u32overflowingsubimm(s, n, v);
    lemma_u32_immediates_u32wrappingmulimm(s, n, v);
    lemma_u32_immediates_u32overflowingmulimm(s, n, v);
}

/// Running operations after a push of a 32-bit value is running them on the stack with that value
/// on top.
pub proof fn lemma_run_after_push_u32(v: u32, tail: Seq<O>, s: Seq<int>)
    ensures
        run(push_u32_ops(v) + tail, s) == run(tail, seq![v as int] + s),
{
    lemma_run_append(push_u32_ops(v), tail, s);
    lemma_push_value(s, Felt { value: v as u64 });
    assert(push_u32_ops(v) == push_felt_ops(Felt { value: v as u64 }));
}

#[verifier::spinoff_prover]
#[verifier::rlimit(100)]
proof fn lemma_field_immediates_addimm(s: Seq<int>, n: u16, f: Felt)
    requires
        s.len() >= 16,
        field_stack(s),
        f.canonical(),
    ensures
        run(instruction_ops(I::AddImm(f), n), s) == Some(seq![(s[0] + f.value) % modulus()] + s.subrange(1, s.len() as int)),
{
    reveal_with_fuel(run, 4);
    vstd::arithmetic::div_mod::lemma_add_mod_noop(s[0] + 1, 1, modulus());
    assert(run(instruction_ops(I::AddImm(f), n), s) =~~= Some(seq![(s[0] + f.value) % modulus()] + s.subrange(1, s.len() as int)));
}

#[verifier::spinoff_prover]
#[verifier::rlimit(100)]
proof fn lemma_field_immediates_subimm(s: Seq<int>, n: u16, f: Felt)
    requires
        s.len() >= 16,
        field_stack(s),
        f.canonical(),
    ensures
        run(instruction_ops(I::SubImm(f), n), s) == Some(seq![(s[0] - f.value) % modulus()] + s.subrange(1, s.len() as int)),
{
    reveal_with_fuel(run, 4);
    vstd::arithmetic::div_mod::lemma_mod_add_multiples_vanish(s[0] - f.value, modulus());
    assert(run(instruction_ops(I::SubImm(f), n), s) =~~= Some(seq![(s[0] - f.value) % modulus()] + s.subrange(1, s.len() as int)));
}

#[verifier::spinoff_prover]
#[verifier::rlimit(100)]
proof fn lemma_field_immediates_mulimm(s: Seq<int>, n: u16, f: Felt)
    requires
        s.len() >= 16,
        field_stack(s),
        f.canonical(),
    ensures
        run(instruction_ops(I::MulImm(f), n), s) == Some(seq![(s[0] * f.value) % modulus()] + s.subrange(1, s.len() as int)),
{
    reveal_with_fuel(run, 4);
    let r1 = s.subrange(1, s.len() as int);
    let expected = Some(seq![(s[0] * f.value) % modulus()] + r1);
    assert(s[0] < modulus());
    if f.value == 0 {
        vstd::arithmetic::mul::lemma_mul_basics(s[0]);
        assert(s[0] * f.value == 0);
        assert(instruction_ops(I::MulImm(f), n) == seq![O::Drop, O::Pad]);
        assert(step(O::Drop, s) == Some(r1));
        assert(step(O::Pad, r1) == Some(seq![0int] + r1));
        assert(run(seq![O::Drop, O::Pad], s) == Some(seq![0int] + r1));
        vstd::arithmetic::div_mod::lemma_small_mod(0, modulus() as nat);
        assert((s[0] * f.value) % modulus() == 0);
        assert(run(instruction_ops(I::MulImm(f), n), s) =~~= expected);
    } else if f.value == 1 {
        vstd::arithmetic::mul::lemma_mul_basics(s[0]);
        assert(s[0] * f.value == s[0]);
        vstd::arithmetic::div_mod::lemma_small_mod(s[0] as nat, modulus() as nat);
        assert(s[0] % modulus() == s[0]);
        assert(s =~= seq![s[0]] + r1);
        assert(instruction_ops(I::MulImm(f), n) == seq![O::Noop]);
        assert(run(seq![O::Noop], s) == Some(s));
        assert(run(instruction_ops(I::MulImm(f), n), s) =~~= expected);
    } else {
        assert(f.value * s[0] == s[0] * f.value) by (nonlinear_arith);
        let t1 = seq![f.value as int] + s;
        assert(step(O::Push(f), s) == Some(t1));
        assert(t1[0] == f.value && t1[1] == s[0]);
        assert(t1.subrange(2, t1.len() as int) =~= r1);
        assert(run(instruction_ops(I::MulImm(f), n), s) =~~= expected);
    }
}

#[verifier::spinoff_prover]
#[verifier::rlimit(100)]
proof fn lemma_field_immediates_eqimm(s: Seq<int>, n: u16, f: Felt)
    requires
        s.len() >= 16,
        field_stack(s),
        f.canonical(),
    ensures
        run(instruction_ops(I::EqImm(f), n), s) == Some(seq![if s[0] == f.value { 1int } else { 0int }] + s.subrange(1, s.len() as int)),
{
    reveal_with_fuel(run, 4);
    assert(run(instruction_ops(I::EqImm(f), n), s) =~~= Some(seq![if s[0] == f.value { 1int } else { 0int }] + s.subrange(1, s.len() as int)));
}

#[verifier::spinoff_prover]
#[verifier::rlimit(100)]
proof fn lemma_field_immediates_neqimm(s: Seq<int>, n: u16, f: Felt)
    requires
        s.len() >= 16,
        field_stack(s),
        f.canonical(),
    ensures
        run(instruction_ops(I::NeqImm(f), n), s) == Some(seq![if s[0] != f.value { 1int } else { 0int }] + s.subrange(1, s.len() as int)),
{
    reveal_with_fuel(run, 4);
    assert(run(instruction_ops(I::NeqImm(f), n), s) =~~= Some(seq![if s[0] != f.value { 1int } else { 0int }] + s.subrange(1, s.len() as int)));
}

/// With a field element `f`: `add.f`, `sub.f` and `mul.f` replace the top element `a` by `a + f`, `a - f` and `a * f` in the field; `eq.f` and `neq.f` by 1 when `a` is, and when it is not, equal to `f`, and 0 otherwise.
pub proof fn lemma_field_immediates(s: Seq<int>, n: u16, f: Felt)
    requires
        s.len() >= 16,
        field_stack(s),
        f.canonical(),
    ensures
        run(instruction_ops(I::AddImm(f), n), s) == Some(seq![(s[0] + f.value) % modulus()] + s.subrange(1, s.len() as int)),
        run(instruction_ops(I::SubImm(f), n), s) == Some(seq![(s[0] - f.value) % modulus()] + s.subrange(1, s.len() as int)),
        run(instruction_ops(I::MulImm(f), n), s) == Some(seq![(s[0] * f.value) % modulus()] + s.subrange(1, s.len() as int)),
        run(instruction_ops(I::EqImm(f), n), s) == Some(seq![if s[0] == f.value { 1int } else { 0int }] + s.subrange(1, s.len() as int)),
        run(instruction_ops(I::NeqImm(f), n), s) == Some(seq![if s[0] != f.value { 1int } else { 0int }] + s.subrange(1, s.len() as int)),
{
    lemma_field_immediates_addimm(s, n, f);
    lemma_field_immediates_subimm(s, n, f);
    lemma_field_immediates_mulimm(s, n, f);
    lemma_field_immediates_eqimm(s, n, f);
    lemma_field_immediates_neqimm(s, n, f);
}

#[verifier::spinoff_prover]
#[verifier::rlimit(100)]
proof fn lemma_u32_division_immediates_u32divimm(s: Seq<int>, n: u16, v: u32)
    requires
        s.len() >= 16,
        is_u32(s[0]),
        v != 0,
    ensures
        run(instruction_ops(I::U32DivImm(v), n), s) == Some(seq![s[0] / (v as int)] + s.subrange(1, s.len() as int)),
{
    reveal_with_fuel(run, 4);
    lemma_run_after_push_u32(v, seq![O::U32div, O::Drop], s);
    assert(instruction_ops(I::U32DivImm(v), n) =~= push_u32_ops(v) + seq![O::U32div, O::Drop]);
    assert(run(instruction_ops(I::U32DivImm(v), n), s) =~~= Some(seq![s[0] / (v as int)] + s.subrange(1, s.len() as int)));
}

#[verifier::spinoff_prover]
#[verifier::rlimit(100)]
proof fn lemma_u32_division_immediates_u32modimm(s: Seq<int>, n: u16, v: u32)
    requires
        s.len() >= 16,
        is_u32(s[0]),
        v != 0,
    ensures
        run(instruction_ops(I::U32ModImm(v), n), s) == Some(seq![s[0] % (v as int)] + s.subrange(1, s.len() as int)),
{
    reveal_with_fuel(run, 4);
    lemma_run_after_push_u32(v, seq![O::U32div, O::Swap, O::Drop], s);
    assert(instruction_ops(I::U32ModImm(v), n) =~= push_u32_ops(v) + seq![O::U32div, O::Swap, O::Drop]);
    assert(run(instruction_ops(I::U32ModImm(v), n), s) =~~= Some(seq![s[0] % (v as int)] + s.subrange(1, s.len() as int)));
}

#[verifier::spinoff_prover]
#[verifier::rlimit(100)]
proof fn lemma_u32_division_immediates_u32divmodimm(s: Seq<int>, n: u16, v: u32)
    requires
        s.len() >= 16,
        is_u32(s[0]),
        v != 0,
    ensures
        run(instruction_ops(I::U32DivModImm(v), n), s) == Some(seq![s[0] % (v as int), s[0] / (v as int)] + s.subrange(1, s.len() as int)),
{
    reveal_with_fuel(run, 4);
    lemma_run_after_push_u32(v, seq![O::U32div], s);
    assert(instruction_ops(I::U32DivModImm(v), n) =~= push_u32_ops(v) + seq![O::U32div]);
    assert(run(instruction_ops(I::U32DivModImm(v), n), s) =~~= Some(seq![s[0] % (v as int), s[0] / (v as int)] + s.subrange(1, s.len() as int)));
}

/// With a non-zero immediate `v` and a 32-bit value `a` on top: `u32div.v`, `u32mod.v` and `u32divmod.v` leave the quotient of `a` by `v`, the remainder, and the remainder on top of the quotient.
pub proof fn lemma_u32_division_immediates(s: Seq<int>, n: u16, v: u32)
    requires
        s.len() >= 16,
        is_u32(s[0]),
        v != 0,
    ensures
        run(instruction_ops(I::U32DivImm(v), n), s) == Some(seq![s[0] / (v as int)] + s.subrange(1, s.len() as int)),
        run(instruction_ops(I::U32ModImm(v), n), s) == Some(seq![s[0] % (v as int)] + s.subrange(1, s.len() as int)),
        run(instruction_ops(I::U32DivModImm(v), n), s) == Some(seq![s[0] % (v as int), s[0] / (v as int)] + s.subrange(1, s.len() as int)),
{
    lemma_u32_division_immediates_u32divimm(s, n, v);
    lemma_u32_division_immediates_u32modimm(s, n, v);
    lemma_u32_division_immediates_u32divmodimm(s, n, v);
}

#[verifier::spinoff_prover]
#[verifier::rlimit(100)]
proof fn lemma_u32_comparisons_u32lt(s: Seq<int>, n: u16)
    requires
        s.len() >= 16,
        is_u32(s[0]),
        is_u32(s[1]),
    ensures
        run(instruction_ops(I::U32Lt, n), s) == Some(seq![if s[1] < s[0] { 1int } else { 0int }] + s.subrange(2, s.len() as int)),
{
    reveal_with_fuel(run, 8);
    assert(run(instruction_ops(I::U32Lt, n), s) =~~= Some(seq![if s[1] < s[0] { 1int } else { 0int }] + s.subrange(2, s.len() as int)));
}

#[verifier::spinoff_prover]
#[verifier::rlimit(100)]
proof fn lemma_u32_comparisons_u32lte(s: Seq<int>, n: u16)
    requires
        s.len() >= 16,
        is_u32(s[0]),
        is_u32(s[1]),
    ensures
        run(instruction_ops(I::U32Lte, n), s) == Some(seq![if s[1] <= s[0] { 1int } else { 0int }] + s.subrange(2, s.len() as int)),
{
    reveal_with_fuel(run, 8);
    assert(run(instruction_ops(I::U32Lte, n), s) =~~= Some(seq![if s[1] <= s[0] { 1int } else { 0int }] + s.subrange(2, s.len() as int)));
}

#[verifier::spinoff_prover]
#[verifier::rlimit(100)]
proof fn lemma_u32_comparisons_u32gt(s: Seq<int>, n: u16)
    requires
        s.len() >= 16,
        is_u32(s[0]),
        is_u32(s[1]),
    ensures
        run(instruction_ops(I::U32Gt, n), s) == Some(seq![if s[1] > s[0] { 1int } else { 0int }] + s.subrange(2, s.len() as int)),
{
    reveal_with_fuel(run, 8);
    assert(run(instruction_ops(I::U32Gt, n), s) =~~= Some(seq![if s[1] > s[0] { 1int } else { 0int }] + s.subrange(2, s.len() as int)));
}

#[verifier::spinoff_prover]
#[verifier::rlimit(100)]
proof fn lemma_u32_comparisons_u32gte(s: Seq<int>, n: u16)
    requires
        s.len() >= 16,
        is_u32(s[0]),
        is_u32(s[1]),
    ensures
        run(instruction_ops(I::U32Gte, n), s) == Some(seq![if s[1] >= s[0] { 1int } else { 0int }] + s.subrange(2, s.len() as int)),
{
    reveal_with_fuel(run, 8);
    assert(run(instruction_ops(I::U32Gte, n), s) =~~= Some(seq![if s[1] >= s[0] { 1int } else { 0int }] + s.subrange(2, s.len() as int)));
}

#[verifier::spinoff_prover]
#[verifier::rlimit(100)]
proof fn lemma_u32_comparisons_u32min(s: Seq<int>, n: u16)
    requires
        s.len() >= 16,
        is_u32(s[0]),
        is_u32(s[1]),
    ensures
        run(instruction_ops(I::U32Min, n), s) == Some(seq![if s[1] < s[0] { s[1] } else { s[0] }] + s.subrange(2, s.len() as int)),
{
    let r2 = s.subrange(2, s.len() as int);
    lemma_max_and_min(s);
    lemma_run_append(max_and_min_ops(), seq![O::Drop], s);
    let mx = if s[1] < s[0] { s[0] } else { s[1] };
    let mn = if s[1] < s[0] { s[1] } else { s[0] };
    let u = seq![mx, mn] + r2;
    reveal_with_fuel(run, 3);
    assert(u.subrange(1, u.len() as int) =~= seq![mn] + r2);
    assert(u.subrange(2, u.len() as int) =~= r2);
    assert(run(instruction_ops(I::U32Min, n), s) =~~= Some(seq![if s[1] < s[0] { s[1] } else { s[0] }] + r2));
}

#[verifier::spinoff_prover]
#[verifier::rlimit(100)]
proof fn lemma_u32_comparisons_u32max(s: Seq<int>, n: u16)
    requires
        s.len() >= 16,
        is_u32(s[0]),
        is_u32(s[1]),
    ensures
        run(instruction_ops(I::U32Max, n), s) == Some(seq![if s[1] < s[0] { s[0] } else { s[1] }] + s.subrange(2, s.len() as int)),
{
    let r2 = s.subrange(2, s.len() as int);
    lemma_max_and_min(s);
    lemma_run_append(max_and_min_ops(), seq![O::Swap, O::Drop], s);
    let mx = if s[1] < s[0] { s[0] } else { s[1] };
    let mn = if s[1] < s[0] { s[1] } else { s[0] };
    let u = seq![mx, mn] + r2;
    reveal_with_fuel(run, 3);
    assert(u.subrange(1, u.len() as int) =~= seq![mn] + r2);
    assert(u.subrange(2, u.len() as int) =~= r2);
    assert(run(instruction_ops(I::U32Max, n), s) =~~= Some(seq![if s[1] < s[0] { s[0] } else { s[1] }] + r2));
}

#[verifier::spinoff_prover]
#[verifier::rlimit(100)]
proof fn lemma_u32_comparisons_u32or(s: Seq<int>, n: u16)
    requires
        s.len() >= 16,
        is_u32(s[0]),
        is_u32(s[1]),
    ensures
        run(instruction_ops(I::U32Or, n), s) == Some(seq![((s[0] as u32) | (s[1] as u32)) as int] + s.subrange(2, s.len() as int)),
{
    reveal_with_fuel(run, 8);
    let x = s[0] as u32;
    let y = s[1] as u32;
    assert(x as int == s[0] && y as int == s[1]);
    assert((x | y) as int == x as int + y as int - (x & y) as int) by (bit_vector);
    assert((x & y) <= x && (x & y) <= y) by (bit_vector);
    let c = (x & y) as int;
    assert((modulus() - c + s[0]) % modulus() == s[0] - c);
    assert((s[0] - c + s[1]) % modulus() == s[0] - c + s[1]);
    assert(run(instruction_ops(I::U32Or, n), s) =~~= Some(seq![((s[0] as u32) | (s[1] as u32)) as int] + s.subrange(2, s.len() as int)));
}

/// On two 32-bit values `b` (top) and `a`: `u32lt`, `u32lte`, `u32gt` and `u32gte` leave 1 when `a < b`, `a <= b`, `a > b` and `a >= b`, and 0 otherwise; `u32min` and `u32max` leave the smaller and the larger of the two; `u32or` leaves their bitwise disjunction.
pub proof fn lemma_u32_comparisons(s: Seq<int>, n: u16)
    requires
        s.len() >= 16,
        is_u32(s[0]),
        is_u32(s[1]),
    ensures
        run(instruction_ops(I::U32Lt, n), s) == Some(seq![if s[1] < s[0] { 1int } else { 0int }] + s.subrange(2, s.len() as int)),
        run(instruction_ops(I::U32Lte, n), s) == Some(seq![if s[1] <= s[0] { 1int } else { 0int }] + s.subrange(2, s.len() as int)),
        run(instruction_ops(I::U32Gt, n), s) == Some(seq![if s[1] > s[0] { 1int } else { 0int }] + s.subrange(2, s.len() as int)),
        run(instruction_ops(I::U32Gte, n), s) == Some(seq![if s[1] >= s[0] { 1int } else { 0int }] + s.subrange(2, s.len() as int)),
        run(instruction_ops(I::U32Min, n), s) == Some(seq![if s[1] < s[0] { s[1] } else { s[0] }] + s.subrange(2, s.len() as int)),
        run(instruction_ops(I::U32Max, n), s) == Some(seq![if s[1] < s[0] { s[0] } else { s[1] }] + s.subrange(2, s.len() as int)),
        run(instruction_ops(I::U32Or, n), s) == Some(seq![((s[0] as u32) | (s[1] as u32)) as int] + s.subrange(2, s.len() as int)),
{
    lemma_u32_comparisons_u32lt(s, n);
    lemma_u32_comparisons_u32lte(s, n);
    lemma_u32_comparisons_u32gt(s, n);
    lemma_u32_comparisons_u32gte(s, n);
    lemma_u32_comparisons_u32min(s, n);
    lemma_u32_comparisons_u32max(s, n);
    lemma_u32_comparisons_u32or(s, n);
}

#[verifier::spinoff_prover]
#[verifier::rlimit(100)]
proof fn lemma_words_equal_eqw(s: Seq<int>, n: u16, e: u32)
    requires
        s.len() >= 16,
    ensures
        run(instruction_ops(I::Eqw, n), s) == Some(seq![if s.subrange(0, 4) == s.subrange(4, 8) { 1int } else { 0int }] + s),
{
    let n0 = s.len() as int;
    let a = seq![O::Dup7, O::Dup4, O::Eq];
    let b = seq![O::Dup7, O::Dup4, O::Eq, O::And];
    let c = seq![O::Dup6, O::Dup3, O::Eq, O::And];
    let d = seq![O::Dup5, O::Dup2, O::Eq, O::And];
    assert(instruction_ops(I::Eqw, n) =~= a + (b + (c + d)));
    let e3 = s[3] == s[7];
    let e2 = s[2] == s[6];
    let e1 = s[1] == s[5];
    let e0 = s[0] == s[4];
    let t1 = seq![if e3 { 1int } else { 0int }] + s;
    let t2 = seq![if e3 && e2 { 1int } else { 0int }] + s;
    let t3 = seq![if e3 && e2 && e1 { 1int } else { 0int }] + s;
    let t4 = seq![if e3 && e2 && e1 && e0 { 1int } else { 0int }] + s;
    lemma_eqw_chunk(a, s, t1, 7, 4, None);
    assert(t1.subrange(1, t1.len() as int) =~= s);
    assert(t2.subrange(1, t2.len() as int) =~= s);
    assert(t3.subrange(1, t3.len() as int) =~= s);
    assert(t1[7] == s[6] && t1[3] == s[2] && t2[6] == s[5] && t2[2] == s[1] && t3[5] == s[4] && t3[1] == s[0]);
    lemma_eqw_chunk(b, t1, t2, 7, 4, Some(e3));
    lemma_eqw_chunk(c, t2, t3, 6, 3, Some(e3 && e2));
    lemma_eqw_chunk(d, t3, t4, 5, 2, Some(e3 && e2 && e1));
    lemma_run_append(c, d, t2);
    lemma_run_append(b, c + d, t1);
    lemma_run_append(a, b + (c + d), s);
    assert((s.subrange(0, 4) == s.subrange(4, 8)) == (e0 && e1 && e2 && e3)) by {
        if e0 && e1 && e2 && e3 {
            assert(s.subrange(0, 4) =~= s.subrange(4, 8));
        }
        if s.subrange(0, 4) == s.subrange(4, 8) {
            assert(s.subrange(0, 4)[0] == s.subrange(4, 8)[0]);
            assert(s.subrange(0, 4)[1] == s.subrange(4, 8)[1]);
            assert(s.subrange(0, 4)[2] == s.subrange(4, 8)[2]);
            assert(s.subrange(0, 4)[3] == s.subrange(4, 8)[3]);
        }
    }
    assert(run(instruction_ops(I::Eqw, n), s) =~~= Some(t4));
}

/// Moving element `k` (2 to 4) of `t` to the top, comparing it with the element above it and
/// asserting that they are equal.
proof fn lemma_assertw_chunk(ops: Seq<O>, t: Seq<int>, k: int, e: u32)
    requires
        t.len() >= 5,
        2 <= k <= 4,
        ops == seq![if k == 4 { O::MovUp4 } else if k == 3 { O::MovUp3 } else { O::MovUp2 }, O::Eq, O::Assert(e)],
    ensures
        run(ops, t) == if t[0] == t[k] { Some(t.subrange(1, k) + t.subrange(k + 1, t.len() as int)) } else { None },
{
    reveal_with_fuel(run, 4);
    let u1 = seq![t[k]] + t.subrange(0, k) + t.subrange(k + 1, t.len() as int);
    assert(u1[0] == t[k] && u1[1] == t[0]);
    let u2 = seq![if u1[0] == u1[1] { 1int } else { 0int }] + u1.subrange(2, u1.len() as int);
    assert(u1.subrange(2, u1.len() as int) =~= t.subrange(1, k) + t.subrange(k + 1, t.len() as int));
    assert(u2.subrange(1, u2.len() as int) =~= t.subrange(1, k) + t.subrange(k + 1, t.len() as int));
    assert(run(ops, t) =~~= if t[0] == t[k] { Some(t.subrange(1, k) + t.subrange(k + 1, t.len() as int)) } else { None });
}

/// On two 32-bit values, the operations shared by `u32min` and `u32max` leave the larger on top
/// of the smaller.
proof fn lemma_max_and_min(s: Seq<int>)
    requires
        s.len() >= 16,
        is_u32(s[0]),
        is_u32(s[1]),
    ensures
        run(max_and_min_ops(), s) == Some(seq![if s[1] < s[0] { s[0] } else { s[1] }, if s[1] < s[0] { s[1] } else { s[0] }]
            + s.subrange(2, s.len() as int)),
{
    let a = s[1];
    let b = s[0];
    let r2 = s.subrange(2, s.len() as int);
    let c1 = seq![O::Dup1, O::Dup1, O::U32sub];
    let c2 = seq![O::Swap, O::Drop, O::Eqz, O::CSwap];
    assert(max_and_min_ops() =~= c1 + c2);
    reveal_with_fuel(run, 5);
    let u1 = seq![a] + s;
    assert(step(O::Dup1, s) == Some(u1));
    let u2 = seq![b] + u1;
    assert(step(O::Dup1, u1) == Some(u2));
    assert(u2[0] == b && u2[1] == a);
    let u3 = seq![if a < b { 1int } else { 0int }, (a - b) % two32()] + u2.subrange(2, u2.len() as int);
    assert(step(O::U32sub, u2) == Some(u3));
    assert(u2.subrange(2, u2.len() as int) =~= s);
    assert(run(c1, s) == Some(u3));
    let v1 = seq![(a - b) % two32(), if a < b { 1int } else { 0int }] + s;
    assert(u3.subrange(2, u3.len() as int) =~= s);
    assert(step(O::Swap, u3) == Some(v1));
    let v2 = seq![if a < b { 1int } else { 0int }] + s;
    assert(v1.subrange(1, v1.len() as int) =~= v2);
    let v3 = seq![if a < b { 0int } else { 1int }] + s;
    assert(v2.subrange(1, v2.len() as int) =~= s);
    assert(step(O::Eqz, v2) == Some(v3));
    assert(v3.subrange(1, v3.len() as int) =~= s);
    assert(v3[1] == b && v3[2] == a);
    assert(v3.subrange(3, v3.len() as int) =~= r2);
    assert(run(c2, u3) =~~= Some(seq![if a < b { b } else { a }, if a < b { a } else { b }] + r2));
    lemma_run_append(c1, c2, s);
}

/// The operation that copies element `k`, for `k` from 0 to 7.
pub open spec fn dup_op(k: int) -> O {
    if k == 0 {
        O::Dup0
    } else if k == 1 {
        O::Dup1
    } else if k == 2 {
        O::Dup2
    } else if k == 3 {
        O::Dup3
    } else if k == 4 {
        O::Dup4
    } else if k == 5 {
        O::Dup5
    } else if k == 6 {
        O::Dup6
    } else {
        O::Dup7
    }
}

/// Copying elements `i` and then `j` of `t`, comparing the copies, and, when `acc` is given,
/// combining the comparison with the flag `acc` on top of `t`.
proof fn lemma_eqw_chunk(ops: Seq<O>, t: Seq<int>, r: Seq<int>, i: int, j: int, acc: Option<bool>)
    requires
        t.len() >= 9,
        1 <= j < i <= 7,
        ops == (match acc {
            None => seq![dup_op(i), dup_op(j), O::Eq],
            Some(_) => seq![dup_op(i), dup_op(j), O::Eq, O::And],
        }),
        acc matches Some(x) ==> t[0] == (if x { 1int } else { 0int }),
        r == (match acc {
            None => seq![if t[j - 1] == t[i] { 1int } else { 0int }] + t,
            Some(x) => seq![if x && t[j - 1] == t[i] { 1int } else { 0int }] + t.subrange(1, t.len() as int),
        }),
    ensures
        run(ops, t) == Some(r),
{
    reveal_with_fuel(run, 5);
    let u1 = seq![t[i]] + t;
    let u2 = seq![u1[j]] + u1;
    assert(step(dup_op(i), t) == Some(u1));
    assert(step(dup_op(j), u1) == Some(u2));
    let u3 = seq![if u2[0] == u2[1] { 1int } else { 0int }] + u2.subrange(2, u2.len() as int);
    assert(u2.subrange(2, u2.len() as int) =~= t);
    assert(run(ops, t) =~~= Some(r));
}


#[verifier::spinoff_prover]
#[verifier::rlimit(100)]
proof fn lemma_words_equal_asserteqw(s: Seq<int>, n: u16, e: u32)
    requires
        s.len() >= 16,
    ensures
        run(instruction_ops(I::AssertEqw, n), s) == if s.subrange(0, 4) == s.subrange(4, 8) { Some(s.subrange(8, s.len() as int)) } else { None },
{
    let e = 0u32;
    let n0 = s.len() as int;
    let ops = instruction_ops(I::AssertEqw, n);
    let c1 = seq![O::MovUp4, O::Eq, O::Assert(e)];
    let c2 = seq![O::MovUp3, O::Eq, O::Assert(e)];
    let c3 = seq![O::MovUp2, O::Eq, O::Assert(e)];
    let c4 = seq![O::Eq, O::Assert(e)];
    assert(ops =~= c1 + (c2 + (c3 + c4)));
    let t1 = s.subrange(1, 4) + s.subrange(5, n0);
    let t2 = s.subrange(2, 4) + s.subrange(6, n0);
    let t3 = s.subrange(3, 4) + s.subrange(7, n0);
    let t4 = s.subrange(8, n0);
    lemma_assertw_chunk(c1, s, 4, e);
    assert(s.subrange(1, 4) + s.subrange(5, n0) == t1);
    lemma_assertw_chunk(c2, t1, 3, e);
    assert(t1.subrange(1, 3) + t1.subrange(4, t1.len() as int) =~= t2);
    assert(t1[0] == s[1] && t1[3] == s[5]);
    lemma_assertw_chunk(c3, t2, 2, e);
    assert(t2.subrange(1, 2) + t2.subrange(3, t2.len() as int) =~= t3);
    assert(t2[0] == s[2] && t2[2] == s[6]);
    reveal_with_fuel(run, 3);
    assert(t3[0] == s[3] && t3[1] == s[7]);
    let u = seq![if t3[0] == t3[1] { 1int } else { 0int }] + t3.subrange(2, t3.len() as int);
    assert(u.subrange(1, u.len() as int) =~= t4);
    assert(run(c4, t3) == if s[3] == s[7] { Some(t4) } else { None });
    lemma_run_append(c3, c4, t2);
    lemma_run_append(c2, c3 + c4, t1);
    lemma_run_append(c1, c2 + (c3 + c4), s);
    assert((s.subrange(0, 4) == s.subrange(4, 8)) == (s[0] == s[4] && s[1] == s[5] && s[2] == s[6] && s[3] == s[7])) by {
        if s[0] == s[4] && s[1] == s[5] && s[2] == s[6] && s[3] == s[7] {
            assert(s.subrange(0, 4) =~= s.subrange(4, 8));
        }
        if s.subrange(0, 4) == s.subrange(4, 8) {
            assert(s.subrange(0, 4)[0] == s.subrange(4, 8)[0]);
            assert(s.subrange(0, 4)[1] == s.subrange(4, 8)[1]);
            assert(s.subrange(0, 4)[2] == s.subrange(4, 8)[2]);
            assert(s.subrange(0, 4)[3] == s.subrange(4, 8)[3]);
        }
    }
}

#[verifier::spinoff_prover]
#[verifier::rlimit(100)]
proof fn lemma_words_equal_asserteqwwitherror(s: Seq<int>, n: u16, e: u32)
    requires
        s.len() >= 16,
    ensures
        run(instruction_ops(I::AssertEqwWithError(e), n), s) == if s.subrange(0, 4) == s.subrange(4, 8) { Some(s.subrange(8, s.len() as int)) } else { None },
{
    let n0 = s.len() as int;
    let ops = instruction_ops(I::AssertEqwWithError(e), n);
    let c1 = seq![O::MovUp4, O::Eq, O::Assert(e)];
    let c2 = seq![O::MovUp3, O::Eq, O::Assert(e)];
    let c3 = seq![O::MovUp2, O::Eq, O::Assert(e)];
    let c4 = seq![O::Eq, O::Assert(e)];
    assert(ops =~= c1 + (c2 + (c3 + c4)));
    let t1 = s.subrange(1, 4) + s.subrange(5, n0);
    let t2 = s.subrange(2, 4) + s.subrange(6, n0);
    let t3 = s.subrange(3, 4) + s.subrange(7, n0);
    let t4 = s.subrange(8, n0);
    lemma_assertw_chunk(c1, s, 4, e);
    assert(s.subrange(1, 4) + s.subrange(5, n0) == t1);
    lemma_assertw_chunk(c2, t1, 3, e);
    assert(t1.subrange(1, 3) + t1.subrange(4, t1.len() as int) =~= t2);
    assert(t1[0] == s[1] && t1[3] == s[5]);
    lemma_assertw_chunk(c3, t2, 2, e);
    assert(t2.subrange(1, 2) + t2.subrange(3, t2.len() as int) =~= t3);
    assert(t2[0] == s[2] && t2[2] == s[6]);
    reveal_with_fuel(run, 3);
    assert(t3[0] == s[3] && t3[1] == s[7]);
    let u = seq![if t3[0] == t3[1] { 1int } else { 0int }] + t3.subrange(2, t3.len() as int);
    assert(u.subrange(1, u.len() as int) =~= t4);
    assert(run(c4, t3) == if s[3] == s[7] { Some(t4) } else { None });
    lemma_run_append(c3, c4, t2);
    lemma_run_append(c2, c3 + c4, t1);
    lemma_run_append(c1, c2 + (c3 + c4), s);
    assert((s.subrange(0, 4) == s.subrange(4, 8)) == (s[0] == s[4] && s[1] == s[5] && s[2] == s[6] && s[3] == s[7])) by {
        if s[0] == s[4] && s[1] == s[5] && s[2] == s[6] && s[3] == s[7] {
            assert(s.subrange(0, 4) =~= s.subrange(4, 8));
        }
        if s.subrange(0, 4) == s.subrange(4, 8) {
            assert(s.subrange(0, 4)[0] == s.subrange(4, 8)[0]);
            assert(s.subrange(0, 4)[1] == s.subrange(4, 8)[1]);
            assert(s.subrange(0, 4)[2] == s.subrange(4, 8)[2]);
            assert(s.subrange(0, 4)[3] == s.subrange(4, 8)[3]);
        }
    }
}

/// `eqw` pushes 1 when the two top words are equal and 0 otherwise, keeping them; `assert_eqw`, with or without an error code, succeeds exactly when they are equal, and removes them.
pub proof fn lemma_words_equal(s: Seq<int>, n: u16, e: u32)
    requires
        s.len() >= 16,
    ensures
        run(instruction_ops(I::Eqw, n), s) == Some(seq![if s.subrange(0, 4) == s.subrange(4, 8) { 1int } else { 0int }] + s),
        run(instruction_ops(I::AssertEqw, n), s) == if s.subrange(0, 4) == s.subrange(4, 8) { Some(s.subrange(8, s.len() as int)) } else { None },
        run(instruction_ops(I::AssertEqwWithError(e), n), s) == if s.subrange(0, 4) == s.subrange(4, 8) { Some(s.subrange(8, s.len() as int)) } else { None },
{
    lemma_words_equal_eqw(s, n, e);
    lemma_words_equal_asserteqw(s, n, e);
    lemma_words_equal_asserteqwwitherror(s, n, e);
}


/// The values of field elements, as stack elements.
pub open spec fn values_of(f: Seq<Felt>) -> Seq<int> {
    f.map_values(|x: Felt| x.value as int)
}

/// Pushing field elements one after the other leaves them on the stack, the last one on top.
pub proof fn lemma_push_many(imms: Seq<Felt>, s: Seq<int>)
    requires
        forall|k: int| 0 <= k < imms.len() ==> (#[trigger] imms[k]).canonical(),
    ensures
        run(push_many_ops(imms), s) == Some(values_of(imms).reverse() + s),
    decreases imms.len(),
{
    if imms.len() == 0 {
        assert(values_of(imms).reverse() + s =~= s);
        reveal_with_fuel(run, 1);
    } else {
        let init = imms.drop_last();
        lemma_push_many(init, s);
        lemma_run_append(push_many_ops(init), push_felt_ops(imms.last()), s);
        lemma_push_value(values_of(init).reverse() + s, imms.last());
        assert(seq![imms.last().value as int] + (values_of(init).reverse() + s) =~= values_of(imms).reverse() + s);
    }
}

/// `push` of a word or of a list of values leaves the values on the stack, the last one on top.
pub proof fn lemma_push_lists(
    s: Seq<int>,
    n: u16,
    w: [Felt; 4],
    fs: Vec<Felt>,
    a: Vec<u8>,
    b: Vec<u16>,
    c: Vec<u32>,
)
    requires
        forall|k: int| 0 <= k < 4 ==> (#[trigger] w@[k]).canonical(),
        forall|k: int| 0 <= k < fs@.len() ==> (#[trigger] fs@[k]).canonical(),
    ensures
        run(instruction_ops(I::PushWord(w), n), s) == Some(values_of(w@).reverse() + s),
        run(instruction_ops(I::PushFeltList(fs), n), s) == Some(values_of(fs@).reverse() + s),
        run(instruction_ops(I::PushU8List(a), n), s) == Some(a@.map_values(|x: u8| x as int).reverse() + s),
        run(instruction_ops(I::PushU16List(b), n), s) == Some(b@.map_values(|x: u16| x as int).reverse() + s),
        run(instruction_ops(I::PushU32List(c), n), s) == Some(c@.map_values(|x: u32| x as int).reverse() + s),
{
    lemma_push_many(w@, s);
    lemma_push_many(fs@, s);
    lemma_push_many(felts_of_u8(a@), s);
    lemma_push_many(felts_of_u16(b@), s);
    lemma_push_many(felts_of_u32(c@), s);
    assert(values_of(felts_of_u8(a@)) =~= a@.map_values(|x: u8| x as int));
    assert(values_of(felts_of_u16(b@)) =~= b@.map_values(|x: u16| x as int));
    assert(values_of(felts_of_u32(c@)) =~= c@.map_values(|x: u32| x as int));
}

/// `is_odd` replaces a field element on top by 1 when it is odd and 0 when it is even.
pub proof fn lemma_is_odd(s: Seq<int>, n: u16)
    requires
        s.len() >= 16,
        field_stack(s),
    ensures
        run(instruction_ops(I::IsOdd, n), s) == Some(seq![s[0] % 2] + s.subrange(1, s.len() as int)),
{
    let r1 = s.subrange(1, s.len() as int);
    let lo = s[0] % two32();
    let t1 = seq![s[0] / two32(), lo] + r1;
    let t2 = seq![lo] + r1;
    let t3 = seq![0int, lo] + r1;
    let t4 = seq![1int, lo] + r1;
    reveal_with_fuel(run, 6);
    assert(step(O::U32split, s) == Some(t1));
    assert(t1.subrange(1, t1.len() as int) =~= t2);
    assert(step(O::Pad, t2) == Some(seq![0int] + t2));
    assert(seq![0int] + t2 =~= t3);
    assert(t3.subrange(1, t3.len() as int) =~= t2);
    assert(step(O::Incr, t3) == Some(seq![(0int + 1) % modulus()] + t2));
    vstd::arithmetic::div_mod::lemma_small_mod(1, modulus() as nat);
    assert(seq![(0int + 1) % modulus()] + t2 =~= t4);
    let x = lo as u32;
    assert(x as int == lo);
    assert((1u32 & x) as int == x % 2) by (bit_vector);
    assert(lo % 2 == s[0] % 2);
    assert(t4.subrange(2, t4.len() as int) =~= r1);
    assert(run(instruction_ops(I::IsOdd, n), s) =~~= Some(seq![s[0] % 2] + r1));
}

/// `u32assertw`, with or without an error code, succeeds exactly when the four top elements are
/// 32-bit values, and leaves the stack as it was.
pub proof fn lemma_u32_assertw(s: Seq<int>, n: u16, e: u32)
    requires
        s.len() >= 16,
    ensures
        run(instruction_ops(I::U32AssertW, n), s) == if is_u32(s[0]) && is_u32(s[1]) && is_u32(s[2]) && is_u32(s[3]) { Some(s) } else { None },
        run(instruction_ops(I::U32AssertWWithError(e), n), s) == if is_u32(s[0]) && is_u32(s[1]) && is_u32(s[2]) && is_u32(s[3]) { Some(s) } else { None },
{
    lemma_u32_assertw_with(s, n, 0);
    lemma_u32_assertw_with(s, n, e);
}

proof fn lemma_u32_assertw_with(s: Seq<int>, n: u16, e: u32)
    requires
        s.len() >= 16,
    ensures
        run(crate::instruction::u32_ops::u32assertw_ops(e), s) == if is_u32(s[0]) && is_u32(s[1]) && is_u32(s[2]) && is_u32(s[3]) { Some(s) } else { None },
{
    let n0 = s.len() as int;
    let r4 = s.subrange(4, n0);
    reveal_with_fuel(run, 7);
    let t1 = seq![s[2], s[0], s[1], s[3]] + r4;
    let t2 = seq![s[3], s[2], s[0], s[1]] + r4;
    let t3 = seq![s[0], s[3], s[2], s[1]] + r4;
    let t4 = seq![s[1], s[0], s[3], s[2]] + r4;
    assert(movup_k(s, 3) == Some(seq![s[3], s[0], s[1], s[2]] + r4)) by {
        assert(seq![s[3]] + s.subrange(0, 3) + s.subrange(4, n0) =~= seq![s[3], s[0], s[1], s[2]] + r4);
    }
    let m1 = seq![s[3], s[0], s[1], s[2]] + r4;
    assert(movup_k(m1, 3) == Some(seq![s[2], s[3], s[0], s[1]] + r4)) by {
        assert(seq![m1[3]] + m1.subrange(0, 3) + m1.subrange(4, n0) =~= seq![s[2], s[3], s[0], s[1]] + r4);
    }
    let m2 = seq![s[2], s[3], s[0], s[1]] + r4;
    assert(movup_k(m2, 3) == Some(seq![s[1], s[2], s[3], s[0]] + r4)) by {
        assert(seq![m2[3]] + m2.subrange(0, 3) + m2.subrange(4, n0) =~= seq![s[1], s[2], s[3], s[0]] + r4);
    }
    let m3 = seq![s[1], s[2], s[3], s[0]] + r4;
    assert(movup_k(m3, 3) == Some(s)) by {
        assert(seq![m3[3]] + m3.subrange(0, 3) + m3.subrange(4, n0) =~= s);
    }
    assert(m2[0] == s[2] && m2[1] == s[3]);
    assert(run(crate::instruction::u32_ops::u32assertw_ops(e), s) =~~= if is_u32(s[0]) && is_u32(s[1]) && is_u32(s[2]) && is_u32(s[3]) { Some(s) } else { None });
}


/// Copying element `k` of `t` (a field element) and testing whether the copy is a 32-bit value.
proof fn lemma_test_chunk(t: Seq<int>, k: int)
    requires
        t.len() >= 16,
        0 <= k <= 3,
        0 <= t[k] < modulus(),
    ensures
        run(seq![dup_op(k), O::U32split, O::Swap, O::Drop, O::Eqz], t) == Some(seq![if is_u32(t[k]) { 1int } else { 0int }] + t),
{
    reveal_with_fuel(run, 6);
    let x = t[k];
    let u1 = seq![x] + t;
    assert(step(dup_op(k), t) == Some(u1));
    let u2 = seq![x / two32(), x % two32()] + t;
    assert(u1.subrange(1, u1.len() as int) =~= t);
    assert(step(O::U32split, u1) == Some(u2));
    let u3 = seq![x % two32(), x / two32()] + t;
    assert(u2.subrange(2, u2.len() as int) =~= t);
    assert(step(O::Swap, u2) == Some(u3));
    let u4 = seq![x / two32()] + t;
    assert(u3.subrange(1, u3.len() as int) =~= u4);
    assert(u4.subrange(1, u4.len() as int) =~= t);
    assert((x / two32() == 0) == is_u32(x));
    assert(run(seq![dup_op(k), O::U32split, O::Swap, O::Drop, O::Eqz], t) =~~= Some(seq![if is_u32(t[k]) { 1int } else { 0int }] + t));
}

/// `u32testw` pushes 1 when the four top elements are all 32-bit values and 0 otherwise.
pub proof fn lemma_u32_testw(s: Seq<int>, n: u16)
    requires
        s.len() >= 16,
        field_stack(s),
    ensures
        run(instruction_ops(I::U32TestW, n), s) == Some(
            seq![if is_u32(s[0]) && is_u32(s[1]) && is_u32(s[2]) && is_u32(s[3]) { 1int } else { 0int }] + s,
        ),
{
    let tc = |k: int| seq![dup_op(k), O::U32split, O::Swap, O::Drop, O::Eqz];
    let a = tc(3);
    let b = tc(3) + seq![O::And];
    let c = tc(2) + seq![O::And];
    let d = tc(1) + seq![O::And];
    assert(instruction_ops(I::U32TestW, n) =~= a + (b + (c + d)));
    let f3 = is_u32(s[3]);
    let f2 = is_u32(s[2]);
    let f1 = is_u32(s[1]);
    let f0 = is_u32(s[0]);
    let t1 = seq![if f3 { 1int } else { 0int }] + s;
    let t2 = seq![if f3 && f2 { 1int } else { 0int }] + s;
    let t3 = seq![if f3 && f2 && f1 { 1int } else { 0int }] + s;
    let t4 = seq![if f3 && f2 && f1 && f0 { 1int } else { 0int }] + s;
    lemma_test_chunk(s, 3);
    assert(t1[3] == s[2] && t2[2] == s[1] && t3[1] == s[0]);
    assert(t1.subrange(1, t1.len() as int) =~= s);
    assert(t2.subrange(1, t2.len() as int) =~= s);
    assert(t3.subrange(1, t3.len() as int) =~= s);
    lemma_test_and(t1, 3, f3, t2);
    lemma_test_and(t2, 2, f3 && f2, t3);
    lemma_test_and(t3, 1, f3 && f2 && f1, t4);
    lemma_run_append(c, d, t2);
    lemma_run_append(b, c + d, t1);
    lemma_run_append(a, b + (c + d), s);
}

/// Testing element `k` of `t` and combining the result with the flag `acc` on top of `t`.
proof fn lemma_test_and(t: Seq<int>, k: int, acc: bool, r: Seq<int>)
    requires
        t.len() >= 16,
        1 <= k <= 3,
        0 <= t[k] < modulus(),
        t[0] == (if acc { 1int } else { 0int }),
        r == seq![if acc && is_u32(t[k]) { 1int } else { 0int }] + t.subrange(1, t.len() as int),
    ensures
        run(seq![dup_op(k), O::U32split, O::Swap, O::Drop, O::Eqz] + seq![O::And], t) == Some(r),
{
    lemma_test_chunk(t, k);
    lemma_run_append(seq![dup_op(k), O::U32split, O::Swap, O::Drop, O::Eqz], seq![O::And], t);
    let u = seq![if is_u32(t[k]) { 1int } else { 0int }] + t;
    reveal_with_fuel(run, 2);
    assert(u.subrange(2, u.len() as int) =~= t.subrange(1, t.len() as int));
    assert(run(seq![O::And], u) =~~= Some(r));
}


/// Two to any power is positive.
proof fn lemma_pow2_pos(n: nat)
    ensures
        pow2(n) >= 1,
    decreases n,
{
    if n > 0 {
        lemma_pow2_pos((n - 1) as nat);
    }
}

#[verifier::spinoff_prover]
#[verifier::rlimit(100)]
proof fn lemma_shift_shl(s: Seq<int>, n: u16, v: u8)
    requires
        s.len() >= 16,
        is_u32(s[0]),
        1 <= v <= 31,
    ensures
        run(instruction_ops(I::U32ShlImm(v), n), s) == Some(seq![(s[0] * (pow2(v as nat) as int)) % two32()] + s.subrange(1, s.len() as int)),
{
    let k: nat = v as nat;
    let m = pow2(k) as int;
    lemma_pow2_pos(k);
    lemma_pow2_bound(k);
    let f = Felt { value: m as u64 };
    assert(f.value as int == m);
    let t1 = seq![m] + s;
    assert(instruction_ops(I::U32ShlImm(v), n) =~= seq![O::Push(f)] + seq![O::U32mul, O::Drop]);
    lemma_run_append(seq![O::Push(f)], seq![O::U32mul, O::Drop], s);
    reveal_with_fuel(run, 3);
    assert(run(seq![O::Push(f)], s) == Some(t1));
    assert(t1[0] == m && t1[1] == s[0]);
    assert(t1.subrange(2, t1.len() as int) =~= s.subrange(1, s.len() as int));
    assert(m * s[0] == s[0] * m) by (nonlinear_arith);
    assert(run(seq![O::U32mul, O::Drop], t1) =~~= Some(seq![(s[0] * (pow2(v as nat) as int)) % two32()] + s.subrange(1, s.len() as int)));
}
#[verifier::spinoff_prover]
#[verifier::rlimit(100)]
proof fn lemma_shift_shr(s: Seq<int>, n: u16, v: u8)
    requires
        s.len() >= 16,
        is_u32(s[0]),
        1 <= v <= 31,
    ensures
        run(instruction_ops(I::U32ShrImm(v), n), s) == Some(seq![s[0] / (pow2(v as nat) as int)] + s.subrange(1, s.len() as int)),
{
    let k: nat = v as nat;
    let m = pow2(k) as int;
    lemma_pow2_pos(k);
    lemma_pow2_bound(k);
    let f = Felt { value: m as u64 };
    assert(f.value as int == m);
    let t1 = seq![m] + s;
    assert(instruction_ops(I::U32ShrImm(v), n) =~= seq![O::Push(f)] + seq![O::U32div, O::Drop]);
    lemma_run_append(seq![O::Push(f)], seq![O::U32div, O::Drop], s);
    reveal_with_fuel(run, 3);
    assert(run(seq![O::Push(f)], s) == Some(t1));
    assert(t1[0] == m && t1[1] == s[0]);
    assert(t1.subrange(2, t1.len() as int) =~= s.subrange(1, s.len() as int));
    assert(m * s[0] == s[0] * m) by (nonlinear_arith);
    assert(run(seq![O::U32div, O::Drop], t1) =~~= Some(seq![s[0] / (pow2(v as nat) as int)] + s.subrange(1, s.len() as int)));
}
#[verifier::spinoff_prover]
#[verifier::rlimit(100)]
proof fn lemma_shift_rotl(s: Seq<int>, n: u16, v: u8)
    requires
        s.len() >= 16,
        is_u32(s[0]),
        1 <= v <= 31,
    ensures
        run(instruction_ops(I::U32RotlImm(v), n), s) == Some(seq![(s[0] * (pow2(v as nat) as int)) % two32() + (s[0] * (pow2(v as nat) as int)) / two32()] + s.subrange(1, s.len() as int)),
{
    let k: nat = v as nat;
    let m = pow2(k) as int;
    lemma_pow2_pos(k);
    lemma_pow2_bound(k);
    let f = Felt { value: m as u64 };
    assert(f.value as int == m);
    let t1 = seq![m] + s;
    assert(instruction_ops(I::U32RotlImm(v), n) =~= seq![O::Push(f)] + seq![O::U32mul, O::Add]);
    lemma_run_append(seq![O::Push(f)], seq![O::U32mul, O::Add], s);
    reveal_with_fuel(run, 3);
    assert(run(seq![O::Push(f)], s) == Some(t1));
    assert(t1[0] == m && t1[1] == s[0]);
    assert(t1.subrange(2, t1.len() as int) =~= s.subrange(1, s.len() as int));
    assert(m * s[0] == s[0] * m) by (nonlinear_arith);
    let hi = (s[0] * m) / two32();
    let lo = (s[0] * m) % two32();
    assert(0 <= hi < two32() && 0 <= lo < two32()) by (nonlinear_arith)
        requires
            0 <= s[0] < two32(),
            1 <= m <= two32(),
            hi == (s[0] * m) / two32(),
            lo == (s[0] * m) % two32();
    vstd::arithmetic::div_mod::lemma_small_mod((hi + lo) as nat, modulus() as nat);
    assert(run(seq![O::U32mul, O::Add], t1) =~~= Some(seq![(s[0] * (pow2(v as nat) as int)) % two32() + (s[0] * (pow2(v as nat) as int)) / two32()] + s.subrange(1, s.len() as int)));
}
#[verifier::spinoff_prover]
#[verifier::rlimit(100)]
proof fn lemma_shift_rotr(s: Seq<int>, n: u16, v: u8)
    requires
        s.len() >= 16,
        is_u32(s[0]),
        1 <= v <= 31,
    ensures
        run(instruction_ops(I::U32RotrImm(v), n), s) == Some(seq![(s[0] * (pow2((32 - v) as nat) as int)) % two32() + (s[0] * (pow2((32 - v) as nat) as int)) / two32()] + s.subrange(1, s.len() as int)),
{
    let k: nat = (32 - v) as nat;
    let m = pow2(k) as int;
    lemma_pow2_pos(k);
    lemma_pow2_bound(k);
    let f = Felt { value: m as u64 };
    assert(f.value as int == m);
    let t1 = seq![m] + s;
    assert(instruction_ops(I::U32RotrImm(v), n) =~= seq![O::Push(f)] + seq![O::U32mul, O::Add]);
    lemma_run_append(seq![O::Push(f)], seq![O::U32mul, O::Add], s);
    reveal_with_fuel(run, 3);
    assert(run(seq![O::Push(f)], s) == Some(t1));
    assert(t1[0] == m && t1[1] == s[0]);
    assert(t1.subrange(2, t1.len() as int) =~= s.subrange(1, s.len() as int));
    assert(m * s[0] == s[0] * m) by (nonlinear_arith);
    let hi = (s[0] * m) / two32();
    let lo = (s[0] * m) % two32();
    assert(0 <= hi < two32() && 0 <= lo < two32()) by (nonlinear_arith)
        requires
            0 <= s[0] < two32(),
            1 <= m <= two32(),
            hi == (s[0] * m) / two32(),
            lo == (s[0] * m) % two32();
    vstd::arithmetic::div_mod::lemma_small_mod((hi + lo) as nat, modulus() as nat);
    assert(run(seq![O::U32mul, O::Add], t1) =~~= Some(seq![(s[0] * (pow2((32 - v) as nat) as int)) % two32() + (s[0] * (pow2((32 - v) as nat) as int)) / two32()] + s.subrange(1, s.len() as int)));
}
/// With an immediate `v` from 1 to 31 and a 32-bit value `a` on top: `u32shl.v` leaves `a * 2^v`
/// modulo 2^32 (the bits of `a` shifted left), `u32shr.v` the quotient of `a` by 2^v (shifted
/// right), `u32rotl.v` the low plus the high 32 bits of `a * 2^v` (rotated left), and `u32rotr.v`
/// those of `a * 2^(32 - v)` (rotated right); with `v` zero, each leaves the stack as it was.
pub proof fn lemma_u32_shift_immediates(s: Seq<int>, n: u16, v: u8)
    requires
        s.len() >= 16,
        is_u32(s[0]),
        v <= 31,
    ensures
        v == 0 ==> run(instruction_ops(I::U32ShlImm(v), n), s) == Some(s),
        v == 0 ==> run(instruction_ops(I::U32ShrImm(v), n), s) == Some(s),
        v == 0 ==> run(instruction_ops(I::U32RotlImm(v), n), s) == Some(s),
        v == 0 ==> run(instruction_ops(I::U32RotrImm(v), n), s) == Some(s),
        v >= 1 ==> run(instruction_ops(I::U32ShlImm(v), n), s) == Some(seq![(s[0] * (pow2(v as nat) as int)) % two32()] + s.subrange(1, s.len() as int)),
        v >= 1 ==> run(instruction_ops(I::U32ShrImm(v), n), s) == Some(seq![s[0] / (pow2(v as nat) as int)] + s.subrange(1, s.len() as int)),
        v >= 1 ==> run(instruction_ops(I::U32RotlImm(v), n), s) == Some(seq![(s[0] * (pow2(v as nat) as int)) % two32() + (s[0] * (pow2(v as nat) as int)) / two32()] + s.subrange(1, s.len() as int)),
        v >= 1 ==> run(instruction_ops(I::U32RotrImm(v), n), s) == Some(seq![(s[0] * (pow2((32 - v) as nat) as int)) % two32() + (s[0] * (pow2((32 - v) as nat) as int)) / two32()] + s.subrange(1, s.len() as int)),
{
    if v == 0 {
        reveal_with_fuel(run, 2);
        assert(instruction_ops(I::U32ShlImm(v), n) =~= seq![O::Noop]);
        assert(instruction_ops(I::U32ShrImm(v), n) =~= seq![O::Noop]);
        assert(instruction_ops(I::U32RotlImm(v), n) =~= seq![O::Noop]);
        assert(instruction_ops(I::U32RotrImm(v), n) =~= seq![O::Noop]);
    } else {
        lemma_shift_shl(s, n, v);
        lemma_shift_shr(s, n, v);
        lemma_shift_rotl(s, n, v);
        lemma_shift_rotr(s, n, v);
    }
}


/// 1 for true and 0 for false.
pub open spec fn bit(b: bool) -> int {
    if b { 1 } else { 0 }
}

proof fn lemma_order_split(b: int, a: int, r: Seq<int>)
    requires
        0 <= a < modulus(),
        0 <= b < modulus(),
    ensures
        run(split_elements_ops(), seq![b, a] + r) == Some(seq![a / two32(), a % two32(), b / two32(), b % two32()] + r),
{
    reveal_with_fuel(run, 4);
    let s = seq![b, a] + r;
    let t1 = seq![b / two32(), b % two32()] + (seq![a] + r);
    assert(s.subrange(1, s.len() as int) =~= seq![a] + r);
    assert(step(O::U32split, s) == Some(t1));
    let t2 = seq![a, b / two32(), b % two32()] + r;
    assert(seq![t1[2]] + t1.subrange(0, 2) + t1.subrange(3, t1.len() as int) =~= t2);
    assert(step(O::MovUp2, t1) == Some(t2));
    assert(t2.subrange(1, t2.len() as int) =~= seq![b / two32(), b % two32()] + r);
    assert(run(split_elements_ops(), s) =~~= Some(seq![a / two32(), a % two32(), b / two32(), b % two32()] + r));
}

proof fn lemma_order_lt_and_eq(x: int, y: int, r: Seq<int>)
    requires
        is_u32(x),
        is_u32(y),
    ensures
        run(check_lt_and_eq_ops(), seq![x, y] + r) == Some(seq![bit(y == x), bit(y < x)] + r),
{
    reveal_with_fuel(run, 4);
    let s = seq![x, y] + r;
    assert(s.subrange(2, s.len() as int) =~= r);
    let t1 = seq![bit(y < x), (y - x) % two32()] + r;
    assert(step(O::U32sub, s) == Some(t1));
    let t2 = seq![(y - x) % two32(), bit(y < x)] + r;
    assert(t1.subrange(2, t1.len() as int) =~= r);
    assert(step(O::Swap, t1) == Some(t2));
    assert(((y - x) % two32() == 0) == (y == x));
    assert(t2.subrange(1, t2.len() as int) =~= seq![bit(y < x)] + r);
    assert(run(check_lt_and_eq_ops(), s) =~~= Some(seq![bit(y == x), bit(y < x)] + r));
}

#[verifier::spinoff_prover]
#[verifier::rlimit(100)]
proof fn lemma_order_high_lt(ah: int, al: int, bh: int, bl: int, r: Seq<int>)
    requires
        is_u32(ah),
        is_u32(bh),
    ensures
        run(check_lt_high_bits_ops(), seq![ah, al, bh, bl] + r) == Some(seq![bl, al, bit(ah == bh), bit(ah < bh)] + r),
{
    let s = seq![ah, al, bh, bl] + r;
    reveal_with_fuel(run, 3);
    let m = seq![bh, ah, al, bl] + r;
    assert(seq![s[2]] + s.subrange(0, 2) + s.subrange(3, s.len() as int) =~= m);
    assert(run(seq![O::MovUp2], s) == Some(m));
    assert(m =~= seq![bh, ah] + (seq![al, bl] + r));
    lemma_order_lt_and_eq(bh, ah, seq![al, bl] + r);
    let u = seq![bit(ah == bh), bit(ah < bh)] + (seq![al, bl] + r);
    let u1 = seq![al, bit(ah == bh), bit(ah < bh), bl] + r;
    assert(seq![u[2]] + u.subrange(0, 2) + u.subrange(3, u.len() as int) =~= u1);
    let u2 = seq![bl, al, bit(ah == bh), bit(ah < bh)] + r;
    assert(seq![u1[3]] + u1.subrange(0, 3) + u1.subrange(4, u1.len() as int) =~= u2);
    assert(run(seq![O::MovUp2, O::MovUp3], u) == Some(u2));
    lemma_run_append(check_lt_and_eq_ops(), seq![O::MovUp2, O::MovUp3], m);
    lemma_run_append(seq![O::MovUp2], check_lt_and_eq_ops() + seq![O::MovUp2, O::MovUp3], s);
    assert(check_lt_high_bits_ops() =~= seq![O::MovUp2] + (check_lt_and_eq_ops() + seq![O::MovUp2, O::MovUp3]));
}

#[verifier::spinoff_prover]
#[verifier::rlimit(100)]
proof fn lemma_order_high_gt(ah: int, al: int, bh: int, bl: int, r: Seq<int>)
    requires
        is_u32(ah),
        is_u32(bh),
    ensures
        run(check_gt_high_bits_ops(), seq![ah, al, bh, bl] + r) == Some(seq![al, bl, bit(ah == bh), bit(bh < ah)] + r),
{
    let s = seq![ah, al, bh, bl] + r;
    reveal_with_fuel(run, 3);
    let g = seq![ah, bh, al, bl] + r;
    let g0 = seq![al, ah, bh, bl] + r;
    assert(s.subrange(2, s.len() as int) =~= g0.subrange(2, g0.len() as int));
    assert(step(O::Swap, s) == Some(g0));
    assert(g0.subrange(1, 3) + seq![g0[0]] + g0.subrange(3, g0.len() as int) =~= g);
    assert(step(O::MovDn2, g0) == Some(g));
    assert(run(seq![O::Swap, O::MovDn2], s) == Some(g));
    assert(g =~= seq![ah, bh] + (seq![al, bl] + r));
    lemma_order_lt_and_eq(ah, bh, seq![al, bl] + r);
    let v = seq![bit(bh == ah), bit(bh < ah)] + (seq![al, bl] + r);
    let v1 = seq![bl, bit(bh == ah), bit(bh < ah), al] + r;
    assert(seq![v[3]] + v.subrange(0, 3) + v.subrange(4, v.len() as int) =~= v1);
    let v2 = seq![al, bl, bit(bh == ah), bit(bh < ah)] + r;
    assert(seq![v1[3]] + v1.subrange(0, 3) + v1.subrange(4, v1.len() as int) =~= v2);
    assert(run(seq![O::MovUp3, O::MovUp3], v) == Some(v2));
    lemma_run_append(check_lt_and_eq_ops(), seq![O::MovUp3, O::MovUp3], g);
    lemma_run_append(seq![O::Swap, O::MovDn2], check_lt_and_eq_ops() + seq![O::MovUp3, O::MovUp3], s);
    assert(check_gt_high_bits_ops() =~= seq![O::Swap, O::MovDn2] + (check_lt_and_eq_ops() + seq![O::MovUp3, O::MovUp3]));
    assert(bit(bh == ah) == bit(ah == bh));
}

proof fn lemma_order_high(ah: int, al: int, bh: int, bl: int, r: Seq<int>)
    requires
        is_u32(ah),
        is_u32(bh),
    ensures
        run(check_lt_high_bits_ops(), seq![ah, al, bh, bl] + r) == Some(seq![bl, al, bit(ah == bh), bit(ah < bh)] + r),
        run(check_gt_high_bits_ops(), seq![ah, al, bh, bl] + r) == Some(seq![al, bl, bit(ah == bh), bit(bh < ah)] + r),
{
    lemma_order_high_lt(ah, al, bh, bl, r);
    lemma_order_high_gt(ah, al, bh, bl, r);
}

#[verifier::spinoff_prover]
#[verifier::rlimit(100)]
proof fn lemma_order_low_lt(x: int, y: int, e: int, l: int, r: Seq<int>)
    requires
        is_u32(x),
        is_u32(y),
        binary(e),
        binary(l),
    ensures
        run(check_lt_ops() + set_result_ops(), seq![x, y, e, l] + r) == Some(seq![bit((bit(y < x) == 1 && e == 1) || l == 1)] + r),
{
    let s = seq![x, y, e, l] + r;
    reveal_with_fuel(run, 5);
    let t1 = seq![bit(y < x), (y - x) % two32()] + (seq![e, l] + r);
    assert(s.subrange(2, s.len() as int) =~= seq![e, l] + r);
    assert(step(O::U32sub, s) == Some(t1));
    let t2 = seq![(y - x) % two32(), bit(y < x)] + (seq![e, l] + r);
    assert(t1.subrange(2, t1.len() as int) =~= seq![e, l] + r);
    assert(step(O::Swap, t1) == Some(t2));
    let t3 = seq![bit(y < x), e, l] + r;
    assert(t2.subrange(1, t2.len() as int) =~= t3);
    assert(run(check_lt_ops(), s) == Some(t3));
    let w = seq![bit(bit(y < x) == 1 && e == 1), l] + r;
    assert(t3.subrange(2, t3.len() as int) =~= seq![l] + r);
    assert(step(O::And, t3) == Some(w));
    assert(w.subrange(2, w.len() as int) =~= r);
    assert(run(set_result_ops(), t3) =~~= Some(seq![bit((bit(y < x) == 1 && e == 1) || l == 1)] + r));
    lemma_run_append(check_lt_ops(), set_result_ops(), s);
}

#[verifier::spinoff_prover]
#[verifier::rlimit(100)]
proof fn lemma_order_low_lte(x: int, y: int, e: int, l: int, r: Seq<int>)
    requires
        is_u32(x),
        is_u32(y),
        binary(e),
        binary(l),
    ensures
        run(check_lte_ops() + set_result_ops(), seq![x, y, e, l] + r) == Some(seq![bit((bit(y <= x) == 1 && e == 1) || l == 1)] + r),
{
    let s = seq![x, y, e, l] + r;
    reveal_with_fuel(run, 5);
    let t1 = seq![bit(y < x), (y - x) % two32()] + (seq![e, l] + r);
    assert(s.subrange(2, s.len() as int) =~= seq![e, l] + r);
    assert(step(O::U32sub, s) == Some(t1));
    let t2 = seq![(y - x) % two32(), bit(y < x)] + (seq![e, l] + r);
    assert(t1.subrange(2, t1.len() as int) =~= seq![e, l] + r);
    assert(step(O::Swap, t1) == Some(t2));
    let t4 = seq![bit((y - x) % two32() == 0), bit(y < x), e, l] + r;
    assert(t2.subrange(1, t2.len() as int) =~= seq![bit(y < x), e, l] + r);
    assert(step(O::Eqz, t2) == Some(t4));
    assert(((y - x) % two32() == 0) == (y == x));
    let t5 = seq![bit(y <= x), e, l] + r;
    assert(t4.subrange(2, t4.len() as int) =~= seq![e, l] + r);
    assert(step(O::Or, t4) =~~= Some(t5));
    assert(run(check_lte_ops(), s) == Some(t5));
    let w2 = seq![bit(bit(y <= x) == 1 && e == 1), l] + r;
    assert(t5.subrange(2, t5.len() as int) =~= seq![l] + r);
    assert(step(O::And, t5) == Some(w2));
    assert(w2.subrange(2, w2.len() as int) =~= r);
    assert(run(set_result_ops(), t5) =~~= Some(seq![bit((bit(y <= x) == 1 && e == 1) || l == 1)] + r));
    lemma_run_append(check_lte_ops(), set_result_ops(), s);
}

proof fn lemma_order_low(x: int, y: int, e: int, l: int, r: Seq<int>)
    requires
        is_u32(x),
        is_u32(y),
        binary(e),
        binary(l),
    ensures
        run(check_lt_ops() + set_result_ops(), seq![x, y, e, l] + r) == Some(seq![bit((bit(y < x) == 1 && e == 1) || l == 1)] + r),
        run(check_lte_ops() + set_result_ops(), seq![x, y, e, l] + r) == Some(seq![bit((bit(y <= x) == 1 && e == 1) || l == 1)] + r),
{
    lemma_order_low_lt(x, y, e, l, r);
    lemma_order_low_lte(x, y, e, l, r);
}

/// Comparing two values below 2^64 is comparing their high 32 bits, and on a tie their low 32 bits.
proof fn lemma_order_halves(a: int, b: int)
    requires
        0 <= a < modulus(),
        0 <= b < modulus(),
    ensures
        (a < b) == (a / two32() < b / two32() || (a / two32() == b / two32() && a % two32() < b % two32())),
        (a <= b) == (a / two32() < b / two32() || (a / two32() == b / two32() && a % two32() <= b % two32())),
        is_u32(a / two32()) && is_u32(a % two32()) && is_u32(b / two32()) && is_u32(b % two32()),
{
    vstd::arithmetic::div_mod::lemma_fundamental_div_mod(a, two32());
    vstd::arithmetic::div_mod::lemma_fundamental_div_mod(b, two32());
    vstd::arithmetic::div_mod::lemma_mod_bound(a, two32());
    vstd::arithmetic::div_mod::lemma_mod_bound(b, two32());
    let ah = a / two32();
    let bh = b / two32();
    assert(0 <= ah < two32()) by (nonlinear_arith)
        requires
            a == two32() * ah + a % two32(),
            0 <= a % two32() < two32(),
            0 <= a < modulus(),
            modulus() < two32() * two32();
    assert(0 <= bh < two32()) by (nonlinear_arith)
        requires
            b == two32() * bh + b % two32(),
            0 <= b % two32() < two32(),
            0 <= b < modulus(),
            modulus() < two32() * two32();
    assert((a < b) == (ah < bh || (ah == bh && a % two32() < b % two32()))) by (nonlinear_arith)
        requires
            a == two32() * ah + a % two32(),
            b == two32() * bh + b % two32(),
            0 <= a % two32() < two32(),
            0 <= b % two32() < two32();
    assert((a <= b) == (ah < bh || (ah == bh && a % two32() <= b % two32()))) by (nonlinear_arith)
        requires
            a == two32() * ah + a % two32(),
            b == two32() * bh + b % two32(),
            0 <= a % two32() < two32(),
            0 <= b % two32() < two32();
}

/// On two field elements `b` (top) and `a`: `lt`, `lte`, `gt` and `gte` leave 1 when `a < b`,
/// `a <= b`, `a > b` and `a >= b`, comparing their canonical values, and 0 otherwise.
pub proof fn lemma_field_comparisons(s: Seq<int>, n: u16)
    requires
        s.len() >= 16,
        field_stack(s),
    ensures
        run(instruction_ops(I::Lt, n), s) == Some(seq![bit(s[1] < s[0])] + s.subrange(2, s.len() as int)),
        run(instruction_ops(I::Lte, n), s) == Some(seq![bit(s[1] <= s[0])] + s.subrange(2, s.len() as int)),
        run(instruction_ops(I::Gt, n), s) == Some(seq![bit(s[1] > s[0])] + s.subrange(2, s.len() as int)),
        run(instruction_ops(I::Gte, n), s) == Some(seq![bit(s[1] >= s[0])] + s.subrange(2, s.len() as int)),
{
    let b = s[0];
    let a = s[1];
    let r = s.subrange(2, s.len() as int);
    assert(s =~= seq![b, a] + r);
    let (ah, al, bh, bl) = (a / two32(), a % two32(), b / two32(), b % two32());
    lemma_order_halves(a, b);
    lemma_order_halves(b, a);
    lemma_order_split(b, a, r);
    lemma_order_high(ah, al, bh, bl, r);
    let sp = seq![ah, al, bh, bl] + r;
    let lo_lt = seq![bl, al, bit(ah == bh), bit(ah < bh)] + r;
    let lo_gt = seq![al, bl, bit(ah == bh), bit(bh < ah)] + r;
    lemma_order_low(bl, al, bit(ah == bh), bit(ah < bh), r);
    lemma_order_low(al, bl, bit(ah == bh), bit(bh < ah), r);
    lemma_run_append(check_lt_high_bits_ops(), check_lt_ops() + set_result_ops(), sp);
    lemma_run_append(check_lt_high_bits_ops(), check_lte_ops() + set_result_ops(), sp);
    lemma_run_append(check_gt_high_bits_ops(), check_lt_ops() + set_result_ops(), sp);
    lemma_run_append(check_gt_high_bits_ops(), check_lte_ops() + set_result_ops(), sp);
    lemma_run_append(split_elements_ops(), check_lt_high_bits_ops() + (check_lt_ops() + set_result_ops()), s);
    lemma_run_append(split_elements_ops(), check_lt_high_bits_ops() + (check_lte_ops() + set_result_ops()), s);
    lemma_run_append(split_elements_ops(), check_gt_high_bits_ops() + (check_lt_ops() + set_result_ops()), s);
    lemma_run_append(split_elements_ops(), check_gt_high_bits_ops() + (check_lte_ops() + set_result_ops()), s);
    assert(instruction_ops(I::Lt, n) =~= split_elements_ops() + (check_lt_high_bits_ops() + (check_lt_ops() + set_result_ops())));
    assert(instruction_ops(I::Lte, n) =~= split_elements_ops() + (check_lt_high_bits_ops() + (check_lte_ops() + set_result_ops())));
    assert(instruction_ops(I::Gt, n) =~= split_elements_ops() + (check_gt_high_bits_ops() + (check_lt_ops() + set_result_ops())));
    assert(instruction_ops(I::Gte, n) =~= split_elements_ops() + (check_gt_high_bits_ops() + (check_lte_ops() + set_result_ops())));
}


/// `inv` replaces a non-zero top element by its inverse, and `div` replaces the two top elements
/// `b` (top, not zero) and `a` by `a` times the inverse of `b`; both fail on a zero divisor.
pub proof fn lemma_inverse(s: Seq<int>, n: u16)
    requires
        s.len() >= 16,
    ensures
        run(instruction_ops(I::Inv, n), s) == if s[0] != 0 { Some(seq![inverse(s[0])] + s.subrange(1, s.len() as int)) } else { None },
        run(instruction_ops(I::Div, n), s) == if s[0] != 0 { Some(seq![(s[1] * inverse(s[0])) % modulus()] + s.subrange(2, s.len() as int)) } else { None },
{
    reveal_with_fuel(run, 3);
    let r1 = s.subrange(1, s.len() as int);
    if s[0] != 0 {
        let t1 = seq![inverse(s[0])] + r1;
        assert(step(O::Inv, s) == Some(t1));
        assert(t1[1] == s[1]);
        assert(t1.subrange(2, t1.len() as int) =~= s.subrange(2, s.len() as int));
        assert(inverse(s[0]) * s[1] == s[1] * inverse(s[0])) by (nonlinear_arith);
    }
    assert(run(instruction_ops(I::Inv, n), s) =~~= if s[0] != 0 { Some(seq![inverse(s[0])] + r1) } else { None });
    assert(run(instruction_ops(I::Div, n), s) =~~= if s[0] != 0 { Some(seq![(s[1] * inverse(s[0])) % modulus()] + s.subrange(2, s.len() as int)) } else { None });
}

#[verifier::spinoff_prover]
#[verifier::rlimit(100)]
proof fn lemma_ext2_ext2add(s: Seq<int>, n: u16)
    requires
        s.len() >= 16,
        field_stack(s),
    ensures
        run(instruction_ops(I::Ext2Add, n), s) == Some(seq![(s[2] + s[0]) % modulus(), (s[3] + s[1]) % modulus()] + s.subrange(4, s.len() as int)),
{
    reveal_with_fuel(run, 8);
    assert(run(instruction_ops(I::Ext2Add, n), s) =~~= Some(seq![(s[2] + s[0]) % modulus(), (s[3] + s[1]) % modulus()] + s.subrange(4, s.len() as int)));
}

#[verifier::spinoff_prover]
#[verifier::rlimit(100)]
proof fn lemma_ext2_ext2sub(s: Seq<int>, n: u16)
    requires
        s.len() >= 16,
        field_stack(s),
    ensures
        run(instruction_ops(I::Ext2Sub, n), s) == Some(seq![(s[2] - s[0]) % modulus(), (s[3] - s[1]) % modulus()] + s.subrange(4, s.len() as int)),
{
    reveal_with_fuel(run, 8);
    vstd::arithmetic::div_mod::lemma_add_mod_noop_right(s[2], modulus() - s[0], modulus());
    vstd::arithmetic::div_mod::lemma_mod_add_multiples_vanish(s[2] - s[0], modulus());
    vstd::arithmetic::div_mod::lemma_add_mod_noop_right(s[3], modulus() - s[1], modulus());
    vstd::arithmetic::div_mod::lemma_mod_add_multiples_vanish(s[3] - s[1], modulus());
    assert((modulus() - s[0]) % modulus() + s[2] == s[2] + (modulus() - s[0]) % modulus());
    assert((modulus() - s[1]) % modulus() + s[3] == s[3] + (modulus() - s[1]) % modulus());
    assert(run(instruction_ops(I::Ext2Sub, n), s) =~~= Some(seq![(s[2] - s[0]) % modulus(), (s[3] - s[1]) % modulus()] + s.subrange(4, s.len() as int)));
}

#[verifier::spinoff_prover]
#[verifier::rlimit(100)]
proof fn lemma_ext2_ext2neg(s: Seq<int>, n: u16)
    requires
        s.len() >= 16,
        field_stack(s),
    ensures
        run(instruction_ops(I::Ext2Neg, n), s) == Some(seq![(0 - s[0]) % modulus(), (0 - s[1]) % modulus()] + s.subrange(2, s.len() as int)),
{
    reveal_with_fuel(run, 8);
    vstd::arithmetic::div_mod::lemma_mod_add_multiples_vanish(0 - s[0], modulus());
    vstd::arithmetic::div_mod::lemma_mod_add_multiples_vanish(0 - s[1], modulus());
    assert(run(instruction_ops(I::Ext2Neg, n), s) =~~= Some(seq![(0 - s[0]) % modulus(), (0 - s[1]) % modulus()] + s.subrange(2, s.len() as int)));
}

/// On two elements of the quadratic extension field, `b = (b0, b1)` on top (`b1` first) and `a = (a0, a1)` below it: `ext2add` and `ext2sub` leave `a + b` and `a - b` componentwise, high component on top; `ext2neg` negates the element on top.
pub proof fn lemma_ext2(s: Seq<int>, n: u16)
    requires
        s.len() >= 16,
        field_stack(s),
    ensures
        run(instruction_ops(I::Ext2Add, n), s) == Some(seq![(s[2] + s[0]) % modulus(), (s[3] + s[1]) % modulus()] + s.subrange(4, s.len() as int)),
        run(instruction_ops(I::Ext2Sub, n), s) == Some(seq![(s[2] - s[0]) % modulus(), (s[3] - s[1]) % modulus()] + s.subrange(4, s.len() as int)),
        run(instruction_ops(I::Ext2Neg, n), s) == Some(seq![(0 - s[0]) % modulus(), (0 - s[1]) % modulus()] + s.subrange(2, s.len() as int)),
{
    lemma_ext2_ext2add(s, n);
    lemma_ext2_ext2sub(s, n);
    lemma_ext2_ext2neg(s, n);
}

} // verus!
