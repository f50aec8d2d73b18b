//! Errors raised while assembling.

use vstd::prelude::*;

use std::sync::Arc;

use crate::id::GlobalProcedureIndex;
use crate::procedure::{QualifiedProcedureName, SourceFile, SourceSpan};

verus! {

/// An error raised while assembling.
#[derive(Debug, Clone, PartialEq, Eq)]
pub enum AssemblyError {
    /// An immediate divisor is zero.
    DivisionByZero,
    /// A parameter lies outside the range `min..=max`.
    InvalidParameter { value: u64, min: u64, max: u64 },
    /// The `caller` instruction is used outside of a kernel procedure.
    CallerOutsideOfKernel,
    /// Two procedures are cached under one identifier, or with one MAST root, with differing
    /// definitions.
    ConflictingDefinitions { first: QualifiedProcedureName, second: QualifiedProcedureName },
    /// The module graph holds no module, and none is to be added.
    Empty,
    /// A module is added under a path that a module of the graph already has.
    DuplicateModule { path: String },
    /// A module is referenced but not defined.
    UndefinedModule { span: SourceSpan, source_file: Option<Arc<SourceFile>>, path: String },
    /// A `syscall` targets a procedure that is not defined by the kernel module.
    InvalidSysCallTarget { span: SourceSpan, source_file: Option<Arc<SourceFile>>, callee: QualifiedProcedureName },
    /// Following re-exports comes back to a name already followed: the named alias, declared in
    /// the given source file, loops back on itself.
    RecursiveAlias { source_file: Option<Arc<SourceFile>>, name: QualifiedProcedureName },
    /// A procedure reference, at the given span of the given source file, resolves to no
    /// definition.
    UndefinedProcedure { span: SourceSpan, source_file: Option<Arc<SourceFile>> },
    /// A `syscall`, at the given span of the given source file, names no kernel procedure; the
    /// flag records whether the assembler had a nonempty kernel.
    UndefinedKernelProcedure { span: SourceSpan, source_file: Option<Arc<SourceFile>>, nonempty_kernel: bool },
    /// The call graph has a cycle through these procedures, in increasing order.
    Cycle { nodes: Vec<GlobalProcedureIndex> },
}

} // verus!
