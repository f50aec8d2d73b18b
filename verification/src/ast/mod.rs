//! The abstract syntax of Miden Assembly: instructions, invocation targets and module kinds.

pub mod instruction;
pub mod ident;
pub mod encoding;
pub mod binary;
pub mod text;

use vstd::prelude::*;

use crate::procedure::RpoDigest;

pub use self::ident::{validate_ident, IdentError};
pub use self::instruction::Instruction;

verus! {

/// The kind of an invocation.
#[derive(Debug, Copy, Clone, PartialEq, Eq, Structural)]
pub enum InvokeKind {
    Exec,
    Call,
    SysCall,
}

/// The target of an `exec`, `call`, `syscall` or `procref` instruction.
#[derive(Debug)]
pub enum InvocationTarget {
    /// An absolute procedure reference by MAST root; such references are valid a priori.
    MastRoot(RpoDigest),
    /// A locally-defined procedure.
    ProcedureName(String),
    /// A procedure of an imported module, named by the import's alias in the containing module.
    ProcedurePath { name: String, module: String },
    /// A fully-resolved procedure path: the procedure's name and the full path of its module.
    AbsoluteProcedurePath { name: String, path: String },
}

impl Clone for InvocationTarget {
    fn clone(&self) -> (r: Self)
        ensures
            r == *self,
    {
        match self {
            InvocationTarget::MastRoot(root) => InvocationTarget::MastRoot(*root),
            InvocationTarget::ProcedureName(name) => InvocationTarget::ProcedureName(name.clone()),
            InvocationTarget::ProcedurePath { name, module } => InvocationTarget::ProcedurePath {
                name: name.clone(),
                module: module.clone(),
            },
            InvocationTarget::AbsoluteProcedurePath { name, path } => InvocationTarget::AbsoluteProcedurePath {
                name: name.clone(),
                path: path.clone(),
            },
        }
    }
}

/// The kind of a module.
///
/// The three kinds have slightly different rules on what syntax is allowed, and on what operations
/// can be performed in the body of procedures defined in the module.
#[derive(Debug, Copy, Clone, PartialEq, Eq, Structural)]
pub enum ModuleKind {
    /// A simple container of code that must be included into an executable module to form a
    /// complete program.
    Library,
    /// The root module of a program, which provides the entrypoint for executing that program.
    Executable,
    /// A library whose code always executes in the root context, and whose exported procedures
    /// must be invoked with `syscall`.
    Kernel,
}

impl Default for ModuleKind {
    fn default() -> (r: Self)
        ensures
            r == ModuleKind::Library,
    {
        ModuleKind::Library
    }
}

/// The byte that stands for each module kind in the serialized form of a module.
pub open spec fn module_kind_tag(kind: ModuleKind) -> u8 {
    match kind {
        ModuleKind::Library => 0,
        ModuleKind::Executable => 1,
        ModuleKind::Kernel => 2,
    }
}

impl ModuleKind {
    pub fn is_executable(&self) -> (r: bool)
        ensures
            r == (*self is Executable),
    {
        matches!(self, ModuleKind::Executable)
    }

    pub fn is_kernel(&self) -> (r: bool)
        ensures
            r == (*self is Kernel),
    {
        matches!(self, ModuleKind::Kernel)
    }

    pub fn is_library(&self) -> (r: bool)
        ensures
            r == (*self is Library),
    {
        matches!(self, ModuleKind::Library)
    }

    /// The name of the kind, as it is displayed.
    pub fn as_str(&self) -> (r: &'static str)
        ensures
            r@ == match *self {
                ModuleKind::Library => "library"@,
                ModuleKind::Executable => "executable"@,
                ModuleKind::Kernel => "kernel"@,
            },
    {
        match self {
            ModuleKind::Library => "library",
            ModuleKind::Executable => "executable",
            ModuleKind::Kernel => "kernel",
        }
    }

    /// The byte written for the kind when a module is serialized.
    pub fn to_u8(&self) -> (r: u8)
        ensures
            r == module_kind_tag(*self),
    {
        match self {
            ModuleKind::Library => 0,
            ModuleKind::Executable => 1,
            ModuleKind::Kernel => 2,
        }
    }

    /// Reads a kind back from its byte.
    ///
    /// # Errors
    /// Returns the byte itself, as an invalid module kind tag, if it stands for no kind.
    pub fn from_u8(tag: u8) -> (r: Result<ModuleKind, u8>)
        ensures
            r == match module_kind_of_tag(tag) {
                Some(kind) => Ok::<ModuleKind, u8>(kind),
                None => Err(tag),
            },
    {
        match tag {
            0 => Ok(ModuleKind::Library),
            1 => Ok(ModuleKind::Executable),
            2 => Ok(ModuleKind::Kernel),
            n => Err(n),
        }
    }
}

/// The module kind that the byte `tag` stands for, if any.
pub open spec fn module_kind_of_tag(tag: u8) -> Option<ModuleKind> {
    if tag == 0 {
        Some(ModuleKind::Library)
    } else if tag == 1 {
        Some(ModuleKind::Executable)
    } else if tag == 2 {
        Some(ModuleKind::Kernel)
    } else {
        None
    }
}

/// Reading back the byte written for a module kind gives that kind, and a byte that is read as a
/// kind is the byte written for it.
pub proof fn lemma_module_kind_roundtrip(kind: ModuleKind, tag: u8)
    ensures
        module_kind_of_tag(module_kind_tag(kind)) == Some(kind),
        module_kind_of_tag(tag) matches Some(k) ==> module_kind_tag(k) == tag,
{
}

/// Instructions which inject data into the advice provider.
///
/// These instructions can be used to perform two broad sets of operations:
/// - Push new data onto the advice stack.
/// - Insert new data into the advice map.
#[derive(Debug, Copy, Clone, PartialEq, Eq, Structural)]
pub enum SystemEventNode {
    PushSmtPeek,
    PushMapVal,
    PushMapValN,
    PushMtNode,
    InsertMem,
    InsertHdword,
    InsertHdwordWithDomain,
    InsertHperm,
}

impl SystemEventNode {
    /// The text of the instruction, as it is displayed.
    pub fn as_str(&self) -> (r: &'static str)
        ensures
            r@ == match *self {
                SystemEventNode::PushSmtPeek => "push_smtpeek"@,
                SystemEventNode::PushMapVal => "push_mapval"@,
                SystemEventNode::PushMapValN => "push_mapvaln"@,
                SystemEventNode::PushMtNode => "push_mtnode"@,
                SystemEventNode::InsertMem => "insert_mem"@,
                SystemEventNode::InsertHdword => "insert_hdword"@,
                SystemEventNode::InsertHdwordWithDomain => "insert_hdword_d"@,
                SystemEventNode::InsertHperm => "insert_hperm\n"@,
            },
    {
        match self {
            SystemEventNode::PushSmtPeek => "push_smtpeek",
            SystemEventNode::PushMapVal => "push_mapval",
            SystemEventNode::PushMapValN => "push_mapvaln",
            SystemEventNode::PushMtNode => "push_mtnode",
            SystemEventNode::InsertMem => "insert_mem",
            SystemEventNode::InsertHdword => "insert_hdword",
            SystemEventNode::InsertHdwordWithDomain => "insert_hdword_d",
            SystemEventNode::InsertHperm => "insert_hperm\n",
        }
    }
}

/// Path and procedures of an imported module.
///
/// Only the procedures that are actually called or executed by the program are represented.
#[derive(Debug)]
pub struct ModuleImportInfo {
    pub path: String,
    imported_procs: Vec<String>,
}

impl ModuleImportInfo {
    /// The path of the imported module.
    pub closed spec fn spec_path(&self) -> Seq<char> {
        self.path@
    }

    /// The names of the imported procedures that are used, in the order they were added.
    pub closed spec fn spec_imported_procs(&self) -> Seq<Seq<char>> {
        self.imported_procs@.map_values(|p: String| p@)
    }

    /// An import of the module at `path`, with no procedure used yet.
    pub fn new(path: String) -> (r: Self)
        ensures
            r.spec_path() == path@,
            r.spec_imported_procs() == Seq::<Seq<char>>::empty(),
    {
        let r = ModuleImportInfo { path, imported_procs: Vec::new() };
        proof {
            assert(r.spec_imported_procs() =~= Seq::<Seq<char>>::empty());
        }
        r
    }

    /// The names of the imported procedures that are used.
    pub fn imported_procs(&self) -> (r: &Vec<String>)
        ensures
            r@.map_values(|p: String| p@) == self.spec_imported_procs(),
    {
        &self.imported_procs
    }

    /// Records the use of procedure `proc` of the module, if `proc` is a valid identifier;
    /// otherwise nothing changes.
    pub fn add_procedure(&mut self, proc: &str)
        ensures
            final(self).spec_path() == old(self).spec_path(),
            final(self).spec_imported_procs() == if ident::valid_ident(proc@) {
                old(self).spec_imported_procs().push(proc@)
            } else {
                old(self).spec_imported_procs()
            },
    {
        if validate_ident(proc).is_ok() {
            let name = String::from_str(proc);
            self.imported_procs.push(name);
            proof {
                assert(self.spec_imported_procs() =~= old(self).spec_imported_procs().push(proc@));
            }
        }
    }
}

} // verus!
