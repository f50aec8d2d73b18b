//! Identifiers of modules and procedures in a module graph.

use vstd::prelude::*;

verus! {

/// A strongly-typed index into a set of modules.
#[derive(Debug, Copy, Clone, PartialEq, Eq, Structural, PartialOrd, Ord, Hash)]
pub struct ModuleIndex(pub u16);

impl ModuleIndex {
    /// Creates a module index from `index`; the index must fit in 16 bits.
    pub fn new(index: usize) -> (r: Self)
        requires
            index <= u16::MAX,
        ensures
            r.0 == index,
    {
        ModuleIndex(index as u16)
    }

    /// Returns the index as a `usize`.
    pub fn as_usize(&self) -> (r: usize)
        ensures
            r == self.0,
    {
        self.0 as usize
    }
}

/// The local index of a procedure in the module that defines it.
#[derive(Debug, Copy, Clone, PartialEq, Eq, Structural, PartialOrd, Ord, Hash)]
pub struct ProcedureIndex(pub u16);

impl ProcedureIndex {
    /// Creates a procedure index from `index`; the index must fit in 16 bits.
    pub fn new(index: usize) -> (r: Self)
        requires
            index <= u16::MAX,
        ensures
            r.0 == index,
    {
        ProcedureIndex(index as u16)
    }

    /// Returns the index as a `usize`.
    pub fn as_usize(&self) -> (r: usize)
        ensures
            r == self.0,
    {
        self.0 as usize
    }
}

/// Uniquely identifies a procedure in a module graph: the index of its module, and the local
/// index of the procedure in that module.
///
/// Identifiers are ordered by module index first, and by local index second.
#[derive(Debug, Copy, Clone, PartialEq, Eq, Structural, PartialOrd, Ord, Hash)]
pub struct GlobalProcedureIndex {
    /// The index of the containing module in the global set of modules
    pub module: ModuleIndex,
    /// The local index of the procedure in the module
    pub index: ProcedureIndex,
}

/// The order of procedure identifiers: by module index, then by local index.
pub open spec fn gid_lt(a: GlobalProcedureIndex, b: GlobalProcedureIndex) -> bool {
    a.module.0 < b.module.0 || (a.module.0 == b.module.0 && a.index.0 < b.index.0)
}

/// Compares two procedure identifiers in the order of [gid_lt].
pub fn gid_less(a: GlobalProcedureIndex, b: GlobalProcedureIndex) -> (r: bool)
    ensures
        r == gid_lt(a, b),
{
    a.module.0 < b.module.0 || (a.module.0 == b.module.0 && a.index.0 < b.index.0)
}

} // verus!
