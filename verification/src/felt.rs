//! Elements of the VM's base field, the integers modulo `2^64 - 2^32 + 1`.

use miden_core::{FieldElement, StarkField};
use vstd::prelude::*;

verus! {

/// The modulus of the base field: `2^64 - 2^32 + 1`.
pub const MODULUS: u64 = 0xFFFF_FFFF_0000_0001;

/// A field element, held by its canonical value.
#[derive(Debug, Copy, Clone, PartialEq, Eq, Structural)]
pub struct Felt {
    /// The canonical value of the element.
    pub value: u64,
}

/// The multiplicative inverse of `x` in the base field, as computed by `miden_core::Felt::inv`,
/// which returns the inverse of a non-zero element and zero for zero.
#[verifier::external_body]
fn field_inverse(x: u64) -> (r: u64)
    requires
        x < MODULUS,
    ensures
        r < MODULUS,
        x == 0 ==> r == 0,
        x != 0 ==> (x as int * r as int) % (MODULUS as int) == 1,
{
    miden_core::Felt::new(x).inv().as_int()
}

impl Felt {
    /// The element is held in canonical form.
    pub open spec fn canonical(self) -> bool {
        self.value < MODULUS
    }

    /// Returns the field element for `value`, reduced modulo the field modulus.
    pub fn new(value: u64) -> (r: Felt)
        ensures
            r.value == value % MODULUS,
            r.canonical(),
    {
        Felt { value: value % MODULUS }
    }

    /// Returns the field element for a 32-bit value.
    pub fn from_u32(value: u32) -> (r: Felt)
        ensures
            r.value == value,
            r.canonical(),
    {
        Felt { value: value as u64 }
    }

    /// The zero element.
    pub fn zero() -> (r: Felt)
        ensures
            r.value == 0,
    {
        Felt { value: 0 }
    }

    /// The unit element.
    pub fn one() -> (r: Felt)
        ensures
            r.value == 1,
    {
        Felt { value: 1 }
    }

    /// Returns the canonical value of this element.
    pub fn as_int(&self) -> (r: u64)
        ensures
            r == self.value,
    {
        self.value
    }

    /// Returns the additive inverse of this element.
    pub fn neg(self) -> (r: Felt)
        requires
            self.canonical(),
        ensures
            r.canonical(),
            (self.value + r.value) % (MODULUS as int) == 0,
            r.value == if self.value == 0 {
                0
            } else {
                MODULUS - self.value
            },
    {
        if self.value == 0 {
            Felt { value: 0 }
        } else {
            Felt { value: MODULUS - self.value }
        }
    }

    /// Returns the multiplicative inverse of this element; the inverse of zero is zero.
    pub fn inv(self) -> (r: Felt)
        requires
            self.canonical(),
        ensures
            r.canonical(),
            self.value == 0 ==> r.value == 0,
            self.value != 0 ==> (self.value as int * r.value as int) % (MODULUS as int) == 1,
    {
        Felt { value: field_inverse(self.value) }
    }
}

} // verus!
