//! Procedures being compiled, and compiled procedures.

use std::sync::Arc;

use vstd::prelude::*;

use crate::errors::AssemblyError;
use crate::id::GlobalProcedureIndex;

verus! {

/// A range of source text.
#[derive(Debug, Copy, Clone, PartialEq, Eq, Structural, Default)]
pub struct SourceSpan {
    pub start: u32,
    pub end: u32,
}

/// A source file: its name and its text.
#[derive(Debug, Clone, PartialEq, Eq)]
pub struct SourceFile {
    pub name: String,
    pub content: String,
}

/// `Arc::clone`: another pointer to the same allocation as `value`, so to the same value.
#[verifier::external_body]
pub(crate) fn share<T>(value: &Arc<T>) -> (r: Arc<T>)
    ensures
        r == *value,
{
    Arc::clone(value)
}

/// Another handle on the source file `file`, if any.
pub fn clone_source_file(file: &Option<Arc<SourceFile>>) -> (r: Option<Arc<SourceFile>>)
    ensures
        r == *file,
{
    match file {
        Some(f) => Some(share(f)),
        None => None,
    }
}

/// Returns true if `callset` holds `digest`.
fn callset_contains(callset: &Vec<RpoDigest>, digest: RpoDigest) -> (r: bool)
    ensures
        r == callset@.contains(digest),
{
    let mut i: usize = 0;
    while i < callset.len()
        invariant
            i <= callset.len(),
            forall|k: int| 0 <= k < i ==> callset@[k] != digest,
        decreases callset.len() - i,
    {
        if callset[i] == digest {
            return true;
        }
        i = i + 1;
    }
    false
}

/// The visibility of a procedure.
#[derive(Debug, Copy, Clone, PartialEq, Eq, Structural)]
pub enum Visibility {
    /// Exported from its module.
    Public,
    /// Exported from a kernel, callable only with `syscall`.
    Syscall,
    /// Local to its module.
    Private,
}

impl Visibility {
    /// Whether the procedure is a kernel procedure, callable with `syscall`.
    pub fn is_syscall(&self) -> (r: bool)
        ensures
            r == (*self is Syscall),
    {
        matches!(self, Visibility::Syscall)
    }
}

/// The fully-qualified name of a procedure: the path of its module and its local name.
#[derive(Debug, PartialEq, Eq)]
pub struct QualifiedProcedureName {
    /// The source span of the name.
    pub span: SourceSpan,
    /// The path of the module that defines the procedure.
    pub module: String,
    /// The local name of the procedure.
    pub name: String,
}

impl Clone for QualifiedProcedureName {
    fn clone(&self) -> (r: Self)
        ensures
            r == *self,
    {
        QualifiedProcedureName { span: self.span, module: self.module.clone(), name: self.name.clone() }
    }
}

impl QualifiedProcedureName {
    /// The source span of the name.
    pub fn span(&self) -> (r: SourceSpan)
        ensures
            r == self.span,
    {
        self.span
    }
}

/// The digest of a MAST root: four field elements, each held by its canonical value.
#[derive(Debug, Copy, Clone, PartialEq, Eq, Structural)]
pub struct RpoDigest {
    pub e0: u64,
    pub e1: u64,
    pub e2: u64,
    pub e3: u64,
}

/// The identifier of a node in a MAST forest.
#[derive(Debug, Copy, Clone, PartialEq, Eq, Structural)]
pub struct MastNodeId(pub u32);

/// Rounds `value` up to the nearest multiple of 4.
pub fn round_up_to_multiple_of_4(value: u16) -> (r: u16)
    requires
        value <= u16::MAX - 3,
    ensures
        r % 4 == 0,
        value <= r < value + 4,
{
    // For example, if value = 4,5,6,7: value + 3 = 7,8,9,10, and clearing the last two bits gives
    // 4,8,8,8 as desired.
    let s: u16 = value + 3;
    let r = s & !3u16;
    assert((s & !3u16) % 4 == 0 && s <= (s & !3u16) + 3 && (s & !3u16) <= s) by (bit_vector);
    r
}

/// Information about a procedure currently being compiled.
pub struct ProcedureContext {
    gid: GlobalProcedureIndex,
    span: SourceSpan,
    source_file: Option<Arc<SourceFile>>,
    name: QualifiedProcedureName,
    visibility: Visibility,
    is_kernel: bool,
    num_locals: u16,
    callset: Vec<RpoDigest>,
}

impl ProcedureContext {
    /// The identifier of the procedure.
    pub closed spec fn spec_id(&self) -> GlobalProcedureIndex {
        self.gid
    }

    /// The source span of the procedure.
    pub closed spec fn spec_span(&self) -> SourceSpan {
        self.span
    }

    /// The name of the procedure.
    pub closed spec fn spec_name(&self) -> QualifiedProcedureName {
        self.name
    }

    /// The visibility of the procedure.
    pub closed spec fn spec_visibility(&self) -> Visibility {
        self.visibility
    }

    /// Whether the procedure is assembled for a kernel.
    pub closed spec fn spec_is_kernel(&self) -> bool {
        self.is_kernel
    }

    /// The number of locals allocated by the procedure.
    pub closed spec fn spec_num_locals(&self) -> u16 {
        self.num_locals
    }

    /// The source file of the procedure, if known.
    pub closed spec fn spec_source_file(&self) -> Option<Arc<SourceFile>> {
        self.source_file
    }

    /// The MAST roots of the procedures that the procedure calls, directly or through them.
    pub closed spec fn spec_callset(&self) -> Set<RpoDigest> {
        self.callset@.to_set()
    }

    /// The call set is held without repetition.
    pub closed spec fn wf(&self) -> bool {
        self.callset@.no_duplicates()
    }

    /// Creates the context for procedure `gid` named `name`, with no locals; its span is that of
    /// its name.
    pub fn new(
        gid: GlobalProcedureIndex,
        name: QualifiedProcedureName,
        visibility: Visibility,
        is_kernel: bool,
    ) -> (r: Self)
        ensures
            r.spec_id() == gid,
            r.spec_span() == name.span,
            r.spec_name() == name,
            r.spec_visibility() == visibility,
            r.spec_is_kernel() == is_kernel,
            r.spec_num_locals() == 0,
            r.spec_source_file() is None,
            r.spec_callset() == Set::<RpoDigest>::empty(),
            r.wf(),
    {
        let span = name.span();
        let r = ProcedureContext {
            gid,
            span,
            source_file: None,
            name,
            visibility,
            is_kernel,
            num_locals: 0,
            callset: Vec::new(),
        };
        proof {
            assert(r.callset@.to_set() =~= Set::<RpoDigest>::empty());
        }
        r
    }

    /// Sets the number of locals to allocate for the procedure, rounded up to the nearest
    /// multiple of 4.
    pub fn with_num_locals(self, num_locals: u16) -> (r: Self)
        requires
            num_locals <= u16::MAX - 3,
        ensures
            r.spec_num_locals() % 4 == 0,
            num_locals <= r.spec_num_locals() < num_locals + 4,
            r.spec_id() == self.spec_id(),
            r.spec_span() == self.spec_span(),
            r.spec_name() == self.spec_name(),
            r.spec_visibility() == self.spec_visibility(),
            r.spec_is_kernel() == self.spec_is_kernel(),
            r.spec_source_file() == self.spec_source_file(),
            r.spec_callset() == self.spec_callset(),
            r.wf() == self.wf(),
    {
        let mut this = self;
        this.num_locals = round_up_to_multiple_of_4(num_locals);
        this
    }

    /// Sets the source span of the procedure.
    pub fn with_span(self, span: SourceSpan) -> (r: Self)
        ensures
            r.spec_span() == span,
            r.spec_id() == self.spec_id(),
            r.spec_name() == self.spec_name(),
            r.spec_visibility() == self.spec_visibility(),
            r.spec_is_kernel() == self.spec_is_kernel(),
            r.spec_num_locals() == self.spec_num_locals(),
            r.spec_source_file() == self.spec_source_file(),
            r.spec_callset() == self.spec_callset(),
            r.wf() == self.wf(),
    {
        let mut this = self;
        this.span = span;
        this
    }

    /// Sets the source file of the procedure.
    pub fn with_source_file(self, source_file: Option<Arc<SourceFile>>) -> (r: Self)
        ensures
            r.spec_source_file() == source_file,
            r.spec_span() == self.spec_span(),
            r.spec_id() == self.spec_id(),
            r.spec_name() == self.spec_name(),
            r.spec_visibility() == self.spec_visibility(),
            r.spec_is_kernel() == self.spec_is_kernel(),
            r.spec_num_locals() == self.spec_num_locals(),
            r.spec_callset() == self.spec_callset(),
            r.wf() == self.wf(),
    {
        let mut this = self;
        this.source_file = source_file;
        this
    }

    /// Adds `callee` to the call set of the procedure.
    pub fn insert_callee(&mut self, callee: RpoDigest)
        requires
            old(self).wf(),
        ensures
            final(self).wf(),
            final(self).spec_callset() == old(self).spec_callset().insert(callee),
            final(self).spec_id() == old(self).spec_id(),
            final(self).spec_span() == old(self).spec_span(),
            final(self).spec_name() == old(self).spec_name(),
            final(self).spec_visibility() == old(self).spec_visibility(),
            final(self).spec_is_kernel() == old(self).spec_is_kernel(),
            final(self).spec_num_locals() == old(self).spec_num_locals(),
            final(self).spec_source_file() == old(self).spec_source_file(),
    {
        if !callset_contains(&self.callset, callee) {
            self.callset.push(callee);
            proof {
                broadcast use vstd::seq_lib::lemma_seq_contains_after_push;
                assert(self.callset@.to_set() =~= old(self).callset@.to_set().insert(callee));
                assert forall|i: int, j: int| 0 <= i < j < self.callset@.len() implies self.callset@[i] != self.callset@[j] by {
                    if j == self.callset@.len() - 1 {
                        assert(old(self).callset@.contains(self.callset@[i]));
                    }
                }
            }
        } else {
            proof {
                assert(self.callset@.to_set() =~= old(self).callset@.to_set().insert(callee));
            }
        }
    }

    /// Adds each of `callees` to the call set of the procedure.
    pub fn extend_callset(&mut self, callees: &[RpoDigest])
        requires
            old(self).wf(),
        ensures
            final(self).wf(),
            final(self).spec_callset() == old(self).spec_callset() + callees@.to_set(),
            final(self).spec_id() == old(self).spec_id(),
            final(self).spec_span() == old(self).spec_span(),
            final(self).spec_name() == old(self).spec_name(),
            final(self).spec_visibility() == old(self).spec_visibility(),
            final(self).spec_is_kernel() == old(self).spec_is_kernel(),
            final(self).spec_num_locals() == old(self).spec_num_locals(),
            final(self).spec_source_file() == old(self).spec_source_file(),
    {
        let mut i: usize = 0;
        while i < callees.len()
            invariant
                i <= callees.len(),
                self.wf(),
                self.spec_callset() == old(self).spec_callset() + callees@.take(i as int).to_set(),
                self.spec_id() == old(self).spec_id(),
                self.spec_span() == old(self).spec_span(),
                self.spec_name() == old(self).spec_name(),
                self.spec_visibility() == old(self).spec_visibility(),
                self.spec_is_kernel() == old(self).spec_is_kernel(),
                self.spec_num_locals() == old(self).spec_num_locals(),
                self.spec_source_file() == old(self).spec_source_file(),
            decreases callees.len() - i,
        {
            self.insert_callee(callees[i]);
            proof {
                broadcast use vstd::seq_lib::lemma_seq_contains_after_push;
                assert(callees@.take(i + 1) =~= callees@.take(i as int).push(callees@[i as int]));
                assert(callees@.take(i + 1).to_set() =~= callees@.take(i as int).to_set().insert(callees@[i as int]));
            }
            i = i + 1;
        }
        proof {
            assert(callees@.take(i as int) =~= callees@);
        }
    }

    /// Registers a call to `callee`, a procedure compiled before: the call set of the callee is
    /// added to the call set of the procedure, since all of the code reachable from the callee is
    /// by extension reachable from it, and the callee itself is added unless it is inlined.
    pub fn register_external_call(&mut self, callee: &Procedure, inlined: bool) -> (r: Result<(), AssemblyError>)
        requires
            old(self).wf(),
        ensures
            r is Ok,
            final(self).wf(),
            final(self).spec_callset() == if inlined {
                old(self).spec_callset() + callee.callset@.to_set()
            } else {
                (old(self).spec_callset() + callee.callset@.to_set()).insert(callee.mast_root)
            },
            final(self).spec_num_locals() == old(self).spec_num_locals(),
            final(self).spec_is_kernel() == old(self).spec_is_kernel(),
    {
        self.extend_callset(callee.callset.as_slice());
        if !inlined {
            self.insert_callee(callee.mast_root);
        }
        Ok(())
    }

    /// The source file of the procedure, if known.
    pub fn source_file(&self) -> (r: Option<Arc<SourceFile>>)
        ensures
            r == self.spec_source_file(),
    {
        clone_source_file(&self.source_file)
    }

    /// The identifier of the procedure.
    pub fn id(&self) -> (r: GlobalProcedureIndex)
        ensures
            r == self.spec_id(),
    {
        self.gid
    }

    /// The name of the procedure.
    pub fn name(&self) -> (r: &QualifiedProcedureName)
        ensures
            *r == self.spec_name(),
    {
        &self.name
    }

    /// The number of locals allocated by the procedure.
    pub fn num_locals(&self) -> (r: u16)
        ensures
            r == self.spec_num_locals(),
    {
        self.num_locals
    }

    /// The path of the module that defines the procedure.
    pub fn module(&self) -> (r: &String)
        ensures
            *r == self.spec_name().module,
    {
        &self.name.module
    }

    /// Returns true if the procedure is being assembled for a kernel.
    pub fn is_kernel(&self) -> (r: bool)
        ensures
            r == self.spec_is_kernel(),
    {
        self.is_kernel
    }

    /// The source span of the procedure.
    pub fn span(&self) -> (r: SourceSpan)
        ensures
            r == self.spec_span(),
    {
        self.span
    }

    /// Transforms this context into a [Procedure] whose body has root `mast_root` and lives at
    /// node `mast_node_id`.
    pub fn into_procedure(self, mast_root: RpoDigest, mast_node_id: MastNodeId) -> (r: Procedure)
        ensures
            r.path == self.spec_name(),
            r.visibility == self.spec_visibility(),
            r.num_locals == self.spec_num_locals(),
            r.mast_root == mast_root,
            r.body_node_id == mast_node_id,
            r.span == self.spec_span(),
            r.source_file == self.spec_source_file(),
            r.callset@.to_set() == self.spec_callset(),
    {
        Procedure {
            span: self.span,
            source_file: self.source_file,
            path: self.name,
            visibility: self.visibility,
            num_locals: self.num_locals as u32,
            mast_root,
            body_node_id: mast_node_id,
            callset: self.callset,
        }
    }
}

/// A compiled procedure: its MAST root, the node of its body, and basic metadata.
#[derive(Debug)]
pub struct Procedure {
    pub span: SourceSpan,
    pub source_file: Option<Arc<SourceFile>>,
    pub path: QualifiedProcedureName,
    pub visibility: Visibility,
    pub num_locals: u32,
    /// The MAST root of the procedure.
    pub mast_root: RpoDigest,
    /// The MAST node id which resolves to the above MAST root.
    pub body_node_id: MastNodeId,
    /// The MAST roots of the procedures that this procedure calls, directly or through them.
    pub callset: Vec<RpoDigest>,
}

impl Procedure {
    /// The local name of the procedure.
    pub fn name(&self) -> (r: &String)
        ensures
            *r == self.path.name,
    {
        &self.path.name
    }

    /// The fully-qualified name of the procedure.
    pub fn fully_qualified_name(&self) -> (r: &QualifiedProcedureName)
        ensures
            *r == self.path,
    {
        &self.path
    }

    /// The visibility of the procedure.
    pub fn visibility(&self) -> (r: Visibility)
        ensures
            r == self.visibility,
    {
        self.visibility
    }

    /// The path of the module of the procedure.
    pub fn path(&self) -> (r: &String)
        ensures
            *r == self.path.module,
    {
        &self.path.module
    }

    /// The number of memory locals reserved by the procedure.
    pub fn num_locals(&self) -> (r: u32)
        ensures
            r == self.num_locals,
    {
        self.num_locals
    }

    /// The root of the procedure's MAST.
    pub fn mast_root(&self) -> (r: RpoDigest)
        ensures
            r == self.mast_root,
    {
        self.mast_root
    }

    /// The MAST node of the procedure's body.
    pub fn body_node_id(&self) -> (r: MastNodeId)
        ensures
            r == self.body_node_id,
    {
        self.body_node_id
    }

    /// The MAST roots of the procedures that this procedure calls.
    pub fn callset(&self) -> (r: &Vec<RpoDigest>)
        ensures
            r@ == self.callset@,
    {
        &self.callset
    }

    /// The source file of the procedure, if known.
    pub fn source_file(&self) -> (r: Option<Arc<SourceFile>>)
        ensures
            r == self.source_file,
    {
        clone_source_file(&self.source_file)
    }
}

} // verus!
