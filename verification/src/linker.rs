//! The inputs of the linker: procedures and libraries, in source form or already assembled.

use std::sync::Arc;

use vstd::prelude::*;

use crate::ast::{Instruction, InvokeKind};
use crate::felt::Felt;
use crate::id::ModuleIndex;
use crate::procedure::{QualifiedProcedureName, RpoDigest, SourceFile, SourceSpan, Visibility};

verus! {

/// A procedure exported by a module for which we have the source: its name, visibility, number
/// of locals and body.
#[derive(Debug)]
pub struct Export {
    pub name: String,
    pub visibility: Visibility,
    pub num_locals: u16,
    pub body: Vec<Instruction>,
}

/// A procedure of an assembled library: its name and the digest of its MAST.
#[derive(Debug)]
pub struct ProcedureInfo {
    pub name: String,
    pub digest: RpoDigest,
}

/// An assembled library: the digest of its MAST forest and the procedures it exports.
#[derive(Debug)]
pub struct Library {
    pub digest: RpoDigest,
    pub exports: Vec<ProcedureInfo>,
}

/// A linked procedure in the procedure graph of the linker.
pub enum ProcedureLink<'a> {
    /// A procedure which we have the source AST for, and may require additional processing.
    Ast(&'a Export),
    /// A procedure which we have the MAST for; no additional processing required.
    Info(&'a ProcedureInfo),
}

impl<'a> ProcedureLink<'a> {
    /// Returns the name of the procedure.
    pub fn name(&self) -> (r: &String)
        ensures
            *r == match *self {
                ProcedureLink::Ast(p) => p.name,
                ProcedureLink::Info(p) => p.name,
            },
    {
        match self {
            ProcedureLink::Ast(p) => &p.name,
            ProcedureLink::Info(p) => &p.name,
        }
    }

    /// Returns the wrapped procedure, which must be in the `Ast` representation.
    pub fn unwrap_ast(&self) -> (r: &Export)
        requires
            *self is Ast,
        ensures
            *r == *self->Ast_0,
    {
        match self {
            ProcedureLink::Ast(p) => p,
            ProcedureLink::Info(_) => {
                proof {
                    assert(false);
                }
                unreached()
            },
        }
    }

    /// Returns true if the wrapped procedure is in the `Ast` representation.
    pub fn is_ast(&self) -> (r: bool)
        ensures
            r == (*self is Ast),
    {
        matches!(self, ProcedureLink::Ast(_))
    }
}

/// Wraps all supported representations of a procedure in the module graph: one for which we have
/// the entire AST, or the name and digest of one compiled before.
pub enum ProcedureWrapper<'a> {
    Ast(&'a Export),
    Info(&'a ProcedureInfo),
}

impl<'a> ProcedureWrapper<'a> {
    /// Returns the name of the procedure.
    pub fn name(&self) -> (r: &String)
        ensures
            *r == match *self {
                ProcedureWrapper::Ast(p) => p.name,
                ProcedureWrapper::Info(p) => p.name,
            },
    {
        match self {
            ProcedureWrapper::Ast(p) => &p.name,
            ProcedureWrapper::Info(p) => &p.name,
        }
    }

    /// Returns the wrapped procedure, which must be in the `Ast` representation.
    pub fn unwrap_ast(&self) -> (r: &Export)
        requires
            *self is Ast,
        ensures
            *r == *self->Ast_0,
    {
        match self {
            ProcedureWrapper::Ast(p) => p,
            ProcedureWrapper::Info(_) => {
                proof {
                    assert(false);
                }
                unreached()
            },
        }
    }

    /// Returns true if the wrapped procedure is in the `Ast` representation.
    pub fn is_ast(&self) -> (r: bool)
        ensures
            r == (*self is Ast),
    {
        matches!(self, ProcedureWrapper::Ast(_))
    }
}

/// How a library is linked into the assembled MAST.
#[derive(Debug, Copy, Clone, PartialEq, Eq, Structural)]
pub enum LinkLibraryKind {
    /// References to its procedures are resolved at runtime: each is linked as an external node
    /// holding the procedure's digest.
    Dynamic,
    /// Its procedures are resolved by the linker: the MAST of each referenced procedure is
    /// included in the assembled MAST.
    Static,
}

impl Default for LinkLibraryKind {
    fn default() -> (r: Self)
        ensures
            r == LinkLibraryKind::Dynamic,
    {
        LinkLibraryKind::Dynamic
    }
}

/// An assembled library to use when resolving references while linking, and how the referenced
/// procedures are linked into the assembled MAST.
pub struct LinkLibrary {
    /// The library to link.
    pub library: Arc<Library>,
    /// How to link against this library.
    pub kind: LinkLibraryKind,
}

impl LinkLibrary {
    /// Dynamically link against `library`.
    pub fn dynamic(library: Arc<Library>) -> (r: Self)
        ensures
            r.library == library,
            r.kind == LinkLibraryKind::Dynamic,
    {
        LinkLibrary { library, kind: LinkLibraryKind::Dynamic }
    }

    /// Statically link `library`.
    pub fn static_(library: Arc<Library>) -> (r: Self)
        ensures
            r.library == library,
            r.kind == LinkLibraryKind::Static,
    {
        LinkLibrary { library, kind: LinkLibraryKind::Static }
    }
}

/// A call to a procedure for which we do not have an implementation, known only by its MAST root.
///
/// Such calls are valid, as at runtime the procedure may be supplied to the VM. Two phantom calls
/// are equal when they call the same root.
pub struct PhantomCall {
    /// The source span associated with the call.
    pub span: SourceSpan,
    /// The source file corresponding to `span`, if available.
    pub source_file: Option<Arc<SourceFile>>,
    /// The MAST root of the callee.
    pub callee: RpoDigest,
}

impl PartialEq for PhantomCall {
    fn eq(&self, other: &Self) -> (r: bool) {
        self.callee == other.callee
    }
}

impl vstd::std_specs::cmp::PartialEqSpecImpl for PhantomCall {
    open spec fn obeys_eq_spec() -> bool {
        true
    }

    open spec fn eq_spec(&self, other: &Self) -> bool {
        self.callee == other.callee
    }
}

/// Where an invocation occurs: its span and source file, the module that holds it, and its kind.
pub struct CallerInfo {
    pub span: SourceSpan,
    pub source_file: Option<Arc<SourceFile>>,
    pub module: ModuleIndex,
    pub kind: InvokeKind,
}

/// An error raised while linking modules and resolving procedure references.
pub enum LinkerError {
    /// There are no modules to analyze.
    Empty,
    /// Linking failed; the labels describe each problem.
    Failed { labels: Vec<String> },
    /// The call graph has a cycle, involving these procedures.
    Cycle { nodes: Vec<String> },
    /// A module is defined twice.
    DuplicateModule { path: String },
    /// A module is referenced but not defined.
    UndefinedModule { span: SourceSpan, source_file: Option<Arc<SourceFile>>, path: String },
    /// A `syscall` targets a procedure that is not an exported kernel procedure.
    InvalidSysCallTarget {
        span: SourceSpan,
        source_file: Option<Arc<SourceFile>>,
        callee: QualifiedProcedureName,
    },
    /// A key is already present in the advice map, with other values.
    AdviceMapKeyAlreadyPresent { key: [Felt; 4], prev_values: Vec<Felt>, new_values: Vec<Felt> },
}

/// The number of operation batches under which the block of a procedure is merged with others.
pub const PROCEDURE_INLINING_THRESHOLD: usize = 32;

/// Determines if we want to merge a block with other blocks:
/// - the block of a procedure is merged only if its number of operation batches is smaller than
///   the threshold: past it, the runtime penalty of not inlining the procedure (roughly 3 extra
///   MAST nodes, so 3 hashes) is under 10% of the hashing of its batches, and is accepted to make
///   deserialization faster;
/// - any other block is always merged: a large one is likely to be unique, so the block it was
///   merged from is orphaned and removed later, and inlining a small one has a large runtime
///   benefit.
pub fn should_merge(is_procedure: bool, num_op_batches: usize) -> (r: bool)
    ensures
        r == (!is_procedure || num_op_batches < PROCEDURE_INLINING_THRESHOLD),
{
    if is_procedure {
        num_op_batches < PROCEDURE_INLINING_THRESHOLD
    } else {
        true
    }
}

} // verus!
