//! The module graph and name resolution: which procedure a reference in a module stands for,
//! following re-exports across modules.

use std::sync::Arc;

use vstd::prelude::*;

use crate::ast::{InvocationTarget, InvokeKind};
use crate::errors::AssemblyError;
use crate::id::{GlobalProcedureIndex, ModuleIndex, ProcedureIndex};
use crate::callgraph::{
    has_edge, with_edge, with_node, Graph,
    is_cycle_witness, is_topological_order, out_of, outside_module, reachable_subgraph, strictly_sorted, without_module,
    CallGraph, CycleError,
};
use crate::linker::{CallerInfo, PhantomCall};
use crate::procedure::{clone_source_file, QualifiedProcedureName, RpoDigest, SourceFile, SourceSpan};

verus! {

/// An invocation made by the body of a procedure: its kind, its target, and the span of the
/// target.
#[derive(Debug)]
pub struct Invoke {
    pub kind: InvokeKind,
    pub target: InvocationTarget,
    pub span: SourceSpan,
}

/// A procedure of a module, as the module graph sees it: its name and span, its number of
/// locals, for a re-export the fully-qualified name of the procedure that it stands for, and the
/// invocations that its body makes.
#[derive(Debug)]
pub struct ModuleProcedure {
    pub name: String,
    pub span: SourceSpan,
    pub num_locals: u16,
    pub alias_of: Option<QualifiedProcedureName>,
    pub invoked: Vec<Invoke>,
}

/// An import of a module: the name under which it is known locally, and its full path.
#[derive(Debug)]
pub struct ModuleImport {
    pub name: String,
    pub path: String,
}

/// A module as the module graph sees it: its path, its source file, its procedures (the local
/// index of each is its position) and its imports.
#[derive(Debug)]
pub struct ThinModule {
    pub path: String,
    pub source_file: Option<Arc<SourceFile>>,
    pub procedures: Vec<ModuleProcedure>,
    pub imports: Vec<ModuleImport>,
}

/// What a name resolves to within the module that declares it.
#[derive(Debug)]
pub enum ResolvedProcedure {
    /// A procedure defined by the module itself, by its local index.
    Local(ProcedureIndex),
    /// A procedure of another module, which the name re-exports.
    External(QualifiedProcedureName),
}

/// The first position at or after `i` in `s` whose element satisfies `p`.
pub open spec fn position_from<T>(s: Seq<T>, p: spec_fn(T) -> bool, i: int) -> Option<int>
    decreases s.len() - i,
{
    if i < 0 || i >= s.len() {
        None
    } else if p(s[i]) {
        Some(i)
    } else {
        position_from(s, p, i + 1)
    }
}

/// The first position in `s` whose element satisfies `p`.
pub open spec fn position<T>(s: Seq<T>, p: spec_fn(T) -> bool) -> Option<int> {
    position_from(s, p, 0)
}

/// A position found from `i` holds an element that satisfies `p`, and none before it does; if
/// none is found, no element from `i` on satisfies `p`.
pub proof fn lemma_position_from<T>(s: Seq<T>, p: spec_fn(T) -> bool, i: int)
    requires
        0 <= i,
    ensures
        position_from(s, p, i) matches Some(k) ==> i <= k < s.len() && p(s[k]) && forall|j: int| i <= j < k ==> !p(#[trigger] s[j]),
        position_from(s, p, i) is None ==> forall|j: int| i <= j < s.len() ==> !p(#[trigger] s[j]),
    decreases s.len() - i,
{
    if i < s.len() && !p(s[i]) {
        lemma_position_from(s, p, i + 1);
    }
}

/// What a fully-qualified name is compared by when re-exports are followed: its module path and
/// its local name, not its span.
pub open spec fn qualified_key(q: QualifiedProcedureName) -> (Seq<char>, Seq<char>) {
    (q.module@, q.name@)
}

/// Holds of a procedure called `name`.
pub open spec fn procedure_named(name: Seq<char>) -> spec_fn(ModuleProcedure) -> bool {
    |p: ModuleProcedure| p.name@ == name
}

/// Holds of an import made under the name `name`.
pub open spec fn import_named(name: Seq<char>) -> spec_fn(ModuleImport) -> bool {
    |i: ModuleImport| i.name@ == name
}

/// What `name` resolves to in module `m`: the first procedure of that name, by its local index
/// if `m` defines it, or by the name it re-exports.
pub open spec fn resolve_in(m: ThinModule, name: Seq<char>) -> Option<ResolvedProcedure> {
    match position(m.procedures@, procedure_named(name)) {
        Some(i) => match m.procedures@[i].alias_of {
            None => Some(ResolvedProcedure::Local(ProcedureIndex(i as u16))),
            Some(q) => Some(ResolvedProcedure::External(q)),
        },
        None => None,
    }
}

/// The path that the import named `name` in module `m` stands for, if any.
pub open spec fn import_in(m: ThinModule, name: Seq<char>) -> Option<String> {
    match position(m.imports@, import_named(name)) {
        Some(k) => Some(m.imports@[k].path),
        None => None,
    }
}

/// The module has few enough procedures that each has a local index.
pub open spec fn module_wf(m: ThinModule) -> bool {
    m.procedures@.len() <= u16::MAX + 1
}

impl ThinModule {
    /// Resolves `name` to a procedure within the local scope of this module.
    pub fn resolve(&self, name: &String) -> (r: Option<ResolvedProcedure>)
        requires
            module_wf(*self),
        ensures
            r == resolve_in(*self, name@),
    {
        let ghost p = procedure_named(name@);
        let mut i: usize = 0;
        while i < self.procedures.len()
            invariant
                i <= self.procedures@.len(),
                self.procedures@.len() <= u16::MAX + 1,
                p == procedure_named(name@),
                position(self.procedures@, p) == position_from(self.procedures@, p, i as int),
            decreases self.procedures@.len() - i,
        {
            let proc = &self.procedures[i];
            if proc.name == *name {
                return match &proc.alias_of {
                    None => Some(ResolvedProcedure::Local(ProcedureIndex::new(i))),
                    Some(q) => Some(ResolvedProcedure::External(q.clone())),
                };
            }
            i = i + 1;
        }
        None
    }

    /// Resolves `name` to the path of the module imported under it.
    pub fn resolve_import(&self, name: &String) -> (r: Option<&String>)
        ensures
            r matches Some(path) ==> import_in(*self, name@) == Some(*path),
            r is None ==> import_in(*self, name@) is None,
    {
        let ghost p = import_named(name@);
        let mut i: usize = 0;
        while i < self.imports.len()
            invariant
                i <= self.imports@.len(),
                p == import_named(name@),
                position(self.imports@, p) == position_from(self.imports@, p, i as int),
            decreases self.imports@.len() - i,
        {
            if self.imports[i].name == *name {
                return Some(&self.imports[i].path);
            }
            i = i + 1;
        }
        None
    }

    /// The name of the procedure at local index `index`.
    pub fn get_name(&self, index: ProcedureIndex) -> (r: &String)
        requires
            index.0 < self.procedures@.len(),
        ensures
            *r == self.procedures@[index.0 as int].name,
    {
        &self.procedures[index.as_usize()].name
    }
}

/// Holds of a module at path `path`.
pub open spec fn module_at(path: Seq<char>) -> spec_fn(ThinModule) -> bool {
    |m: ThinModule| m.path@ == path
}

/// The source file of the first module at path `path` among `mods`, if there is such a module.
pub open spec fn module_source_of(mods: Seq<ThinModule>, path: Seq<char>) -> Option<Arc<SourceFile>> {
    match position(mods, module_at(path)) {
        Some(k) => mods[k].source_file,
        None => None,
    }
}

/// One if `p` re-exports a procedure whose name is not among `visited`, zero otherwise.
pub open spec fn unvisited_alias(p: ModuleProcedure, visited: Seq<(Seq<char>, Seq<char>)>) -> nat {
    match p.alias_of {
        Some(q) => if visited.contains(qualified_key(q)) { 0 } else { 1 },
        None => 0,
    }
}

/// The number of procedures among `procs` that re-export a procedure whose name is not among
/// `visited`.
pub open spec fn unvisited_in(procs: Seq<ModuleProcedure>, visited: Seq<(Seq<char>, Seq<char>)>) -> nat
    decreases procs.len(),
{
    if procs.len() == 0 {
        0
    } else {
        unvisited_in(procs.drop_last(), visited) + unvisited_alias(procs.last(), visited)
    }
}

/// The number of procedures of `mods` that re-export a procedure whose name is not among
/// `visited`.
pub open spec fn unvisited(mods: Seq<ThinModule>, visited: Seq<(Seq<char>, Seq<char>)>) -> nat
    decreases mods.len(),
{
    if mods.len() == 0 {
        0
    } else {
        unvisited(mods.drop_last(), visited) + unvisited_in(mods.last().procedures@, visited)
    }
}

pub proof fn lemma_push_contains<T>(s: Seq<T>, k: T, x: T)
    ensures
        s.push(k).contains(x) <==> (s.contains(x) || x == k),
{
    if s.contains(x) {
        let j = choose|j: int| 0 <= j < s.len() && s[j] == x;
        assert(s.push(k)[j] == x);
    }
    if x == k {
        assert(s.push(k)[s.len() as int] == x);
    }
    if s.push(k).contains(x) {
        let j = choose|j: int| 0 <= j < s.push(k).len() && s.push(k)[j] == x;
        if j < s.len() {
            assert(s[j] == x);
        }
    }
}

/// Marking one more name as visited never adds to the count of unvisited re-exports, and takes
/// one off for each re-export of that name, so at least one if procedure `i` is such.
pub proof fn lemma_unvisited_in_push(procs: Seq<ModuleProcedure>, visited: Seq<(Seq<char>, Seq<char>)>, k: (Seq<char>, Seq<char>), i: int)
    ensures
        unvisited_in(procs, visited.push(k)) <= unvisited_in(procs, visited),
        0 <= i < procs.len() && !visited.contains(k) && (procs[i].alias_of matches Some(q) && qualified_key(q) == k)
            ==> unvisited_in(procs, visited.push(k)) < unvisited_in(procs, visited),
    decreases procs.len(),
{
    if procs.len() > 0 {
        lemma_unvisited_in_push(procs.drop_last(), visited, k, i);
        let last = procs.last();
        if let Some(q) = last.alias_of {
            lemma_push_contains(visited, k, qualified_key(q));
        }
        if i == procs.len() - 1 {
            assert(procs[i] == last);
        } else if 0 <= i < procs.len() - 1 {
            assert(procs.drop_last()[i] == procs[i]);
        }
    }
}

/// The count over all modules behaves as the count over the procedures of one.
pub proof fn lemma_unvisited_push(mods: Seq<ThinModule>, visited: Seq<(Seq<char>, Seq<char>)>, k: (Seq<char>, Seq<char>), m: int, i: int)
    ensures
        unvisited(mods, visited.push(k)) <= unvisited(mods, visited),
        0 <= m < mods.len() && 0 <= i < mods[m].procedures@.len() && !visited.contains(k)
            && (mods[m].procedures@[i].alias_of matches Some(q) && qualified_key(q) == k)
            ==> unvisited(mods, visited.push(k)) < unvisited(mods, visited),
    decreases mods.len(),
{
    if mods.len() > 0 {
        lemma_unvisited_push(mods.drop_last(), visited, k, m, i);
        let ii = if m == mods.len() - 1 { i } else { -1 };
        lemma_unvisited_in_push(mods.last().procedures@, visited, k, ii);
        if 0 <= m < mods.len() - 1 {
            assert(mods.drop_last()[m] == mods[m]);
        }
    }
}

/// What resolving `callee` gives, where `visited` holds the re-exported names followed so far
/// and `source_file` is the source of the module that named `callee`; errors report `caller`.
///
/// The module at the path of `callee` is looked up; if the first procedure of that name in it is
/// defined there, that procedure is the result (a `syscall` must find it in the kernel); if it
/// re-exports another name, resolution goes on from that name, unless it was followed before,
/// which is a recursive alias.
pub open spec fn find_from(
    mods: Seq<ThinModule>,
    kernel_index: Option<ModuleIndex>,
    nonempty_kernel: bool,
    caller: CallerInfo,
    kind: InvokeKind,
    source_file: Option<Arc<SourceFile>>,
    callee: QualifiedProcedureName,
    visited: Seq<(Seq<char>, Seq<char>)>,
) -> Result<GlobalProcedureIndex, AssemblyError>
    decreases unvisited(mods, visited),
{
    match position(mods, module_at(callee.module@)) {
        None => Err(AssemblyError::UndefinedModule { span: callee.span, source_file, path: callee.module }),
        Some(m) => match position(mods[m].procedures@, procedure_named(callee.name@)) {
            Some(i) => match mods[m].procedures@[i].alias_of {
                None => if kind == InvokeKind::SysCall && kernel_index != Some(ModuleIndex(m as u16)) {
                    Err(AssemblyError::InvalidSysCallTarget { span: callee.span, source_file, callee })
                } else {
                    Ok(GlobalProcedureIndex { module: ModuleIndex(m as u16), index: ProcedureIndex(i as u16) })
                },
                Some(fqn) => if visited.contains(qualified_key(fqn)) {
                    Err(AssemblyError::RecursiveAlias { source_file: mods[m].source_file, name: fqn })
                } else {
                    proof {
                        lemma_position_from(mods, module_at(callee.module@), 0);
                        lemma_position_from(mods[m].procedures@, procedure_named(callee.name@), 0);
                        lemma_unvisited_push(mods, visited, qualified_key(fqn), m, i);
                    }
                    find_from(
                        mods,
                        kernel_index,
                        nonempty_kernel,
                        caller,
                        kind,
                        module_source_of(mods, fqn.module@),
                        fqn,
                        visited.push(qualified_key(fqn)),
                    )
                },
            },
            None => if kind == InvokeKind::SysCall {
                Err(AssemblyError::UndefinedKernelProcedure {
                    span: caller.span,
                    source_file: caller.source_file,
                    nonempty_kernel,
                })
            } else {
                Err(AssemblyError::UndefinedProcedure { span: caller.span, source_file: caller.source_file })
            },
        },
    }
}

/// A procedure that resolution finds is defined, not re-exported, by a module of `mods`; what a
/// `syscall` finds is defined by the kernel module.
pub proof fn lemma_find_from_ok(
    mods: Seq<ThinModule>,
    kernel_index: Option<ModuleIndex>,
    nonempty_kernel: bool,
    caller: CallerInfo,
    kind: InvokeKind,
    source_file: Option<Arc<SourceFile>>,
    callee: QualifiedProcedureName,
    visited: Seq<(Seq<char>, Seq<char>)>,
)
    requires
        mods.len() <= u16::MAX + 1,
        forall|k: int| 0 <= k < mods.len() ==> module_wf(#[trigger] mods[k]),
    ensures
        find_from(mods, kernel_index, nonempty_kernel, caller, kind, source_file, callee, visited) matches Ok(gid) ==> {
            &&& gid.module.0 < mods.len()
            &&& gid.index.0 < mods[gid.module.0 as int].procedures@.len()
            &&& mods[gid.module.0 as int].procedures@[gid.index.0 as int].alias_of is None
            &&& kind == InvokeKind::SysCall ==> kernel_index == Some(gid.module)
        },
    decreases unvisited(mods, visited),
{
    lemma_position_from(mods, module_at(callee.module@), 0);
    if let Some(m) = position(mods, module_at(callee.module@)) {
        lemma_position_from(mods[m].procedures@, procedure_named(callee.name@), 0);
        if let Some(i) = position(mods[m].procedures@, procedure_named(callee.name@)) {
            if let Some(fqn) = mods[m].procedures@[i].alias_of {
                if !visited.contains(qualified_key(fqn)) {
                    lemma_unvisited_push(mods, visited, qualified_key(fqn), m, i);
                    lemma_find_from_ok(
                        mods,
                        kernel_index,
                        nonempty_kernel,
                        caller,
                        kind,
                        module_source_of(mods, fqn.module@),
                        fqn,
                        visited.push(qualified_key(fqn)),
                    );
                }
            }
        }
    }
}

/// A fully-qualified reference to a procedure that a module defines resolves to that procedure,
/// when the module is the first at its path and the procedure the first of its name in it (and,
/// for a `syscall`, the module is the kernel's).
pub proof fn lemma_find_defined(
    mods: Seq<ThinModule>,
    kernel_index: Option<ModuleIndex>,
    nonempty_kernel: bool,
    caller: CallerInfo,
    kind: InvokeKind,
    source_file: Option<Arc<SourceFile>>,
    span: SourceSpan,
    m: int,
    i: int,
    visited: Seq<(Seq<char>, Seq<char>)>,
)
    requires
        0 <= m < mods.len() <= u16::MAX + 1,
        0 <= i < mods[m].procedures@.len() <= u16::MAX + 1,
        position(mods, module_at(mods[m].path@)) == Some(m),
        position(mods[m].procedures@, procedure_named(mods[m].procedures@[i].name@)) == Some(i),
        mods[m].procedures@[i].alias_of is None,
        kind != InvokeKind::SysCall || kernel_index == Some(ModuleIndex(m as u16)),
    ensures
        find_from(
            mods,
            kernel_index,
            nonempty_kernel,
            caller,
            kind,
            source_file,
            QualifiedProcedureName { span, module: mods[m].path, name: mods[m].procedures@[i].name },
            visited,
        ) == Ok::<GlobalProcedureIndex, AssemblyError>(GlobalProcedureIndex { module: ModuleIndex(m as u16), index: ProcedureIndex(i as u16) }),
{
}

/// The names of `visited`, as compared when following re-exports.
pub open spec fn keys_of(visited: Seq<QualifiedProcedureName>) -> Seq<(Seq<char>, Seq<char>)> {
    visited.map_values(|q: QualifiedProcedureName| qualified_key(q))
}

/// Holds of an entry for procedure `gid`.
pub open spec fn entry_for(gid: GlobalProcedureIndex) -> spec_fn((GlobalProcedureIndex, RpoDigest)) -> bool {
    |e: (GlobalProcedureIndex, RpoDigest)| e.0 == gid
}

/// Holds of an entry for MAST root `digest`.
pub open spec fn root_entry(digest: RpoDigest) -> spec_fn((RpoDigest, Seq<GlobalProcedureIndex>)) -> bool {
    |e: (RpoDigest, Seq<GlobalProcedureIndex>)| e.0 == digest
}

/// The MAST root recorded for procedure `gid`, if any.
pub open spec fn digest_of(digests: Seq<(GlobalProcedureIndex, RpoDigest)>, gid: GlobalProcedureIndex) -> Option<RpoDigest> {
    match position(digests, entry_for(gid)) {
        Some(k) => Some(digests[k].1),
        None => None,
    }
}

/// The first procedure bound to MAST root `digest`, if any.
pub open spec fn first_bound(roots: Seq<(RpoDigest, Seq<GlobalProcedureIndex>)>, digest: RpoDigest) -> Option<GlobalProcedureIndex> {
    match position(roots, root_entry(digest)) {
        Some(k) => Some(roots[k].1[0]),
        None => None,
    }
}

/// The outcome of resolving an invocation target.
#[derive(Debug)]
pub enum ResolvedTarget {
    /// The target's MAST root is known; so is its procedure, when `gid` is given.
    Cached { digest: RpoDigest, gid: Option<GlobalProcedureIndex> },
    /// The target is the procedure `gid`, named as it was.
    Exact { gid: GlobalProcedureIndex },
    /// The target is the procedure `gid`, which `target` names by its absolute path.
    Resolved { gid: GlobalProcedureIndex, target: InvocationTarget },
    /// The target is known only by its MAST root, with no definition in the graph.
    Phantom(RpoDigest),
}

impl ResolvedTarget {
    /// The procedure that the target resolved to, if it is known.
    pub fn into_global_id(self) -> (r: Option<GlobalProcedureIndex>)
        ensures
            r == match self {
                ResolvedTarget::Exact { gid } => Some(gid),
                ResolvedTarget::Resolved { gid, .. } => Some(gid),
                ResolvedTarget::Cached { gid, .. } => gid,
                ResolvedTarget::Phantom(_) => None,
            },
    {
        match self {
            ResolvedTarget::Exact { gid } | ResolvedTarget::Resolved { gid, .. } => Some(gid),
            ResolvedTarget::Cached { gid, .. } => gid,
            ResolvedTarget::Phantom(_) => None,
        }
    }
}

/// The procedure `gid` among `mods`.
pub open spec fn procedure_at(mods: Seq<ThinModule>, gid: GlobalProcedureIndex) -> ModuleProcedure {
    mods[gid.module.0 as int].procedures@[gid.index.0 as int]
}

/// Procedure `gid` is one of `mods`.
pub open spec fn is_procedure_of(mods: Seq<ThinModule>, gid: GlobalProcedureIndex) -> bool {
    gid.module.0 < mods.len() && gid.index.0 < mods[gid.module.0 as int].procedures@.len()
}

/// The fully-qualified name of procedure `gid` among `mods`, with its span.
pub open spec fn qualified_name_in(mods: Seq<ThinModule>, gid: GlobalProcedureIndex) -> QualifiedProcedureName {
    QualifiedProcedureName {
        span: procedure_at(mods, gid).span,
        module: mods[gid.module.0 as int].path,
        name: procedure_at(mods, gid).name,
    }
}

/// The procedures bound to each MAST root once `id` is bound to `digest`: appended to those
/// bound to it already, unless it comes first among them, or bound alone to a new root.
pub open spec fn roots_after(
    roots: Seq<(RpoDigest, Seq<GlobalProcedureIndex>)>,
    id: GlobalProcedureIndex,
    digest: RpoDigest,
) -> Seq<(RpoDigest, Seq<GlobalProcedureIndex>)> {
    match position(roots, root_entry(digest)) {
        Some(k) => if roots[k].1[0] == id {
            roots
        } else {
            roots.update(k, (digest, roots[k].1.push(id)))
        },
        None => roots.push((digest, seq![id])),
    }
}

/// The roots recorded for procedures once `digest` is recorded for `id`, unless it has one.
pub open spec fn digests_after(
    digests: Seq<(GlobalProcedureIndex, RpoDigest)>,
    id: GlobalProcedureIndex,
    digest: RpoDigest,
) -> Seq<(GlobalProcedureIndex, RpoDigest)> {
    if digest_of(digests, id) is Some {
        digests
    } else {
        digests.push((id, digest))
    }
}

/// What binding procedure `id` to MAST root `digest` gives: an error if the first procedure
/// bound to that root is another, with a different number of locals.
pub open spec fn register_result(graph: ModuleGraph, id: GlobalProcedureIndex, digest: RpoDigest) -> Result<(), AssemblyError> {
    let roots = graph.spec_roots();
    let mods = graph.spec_modules();
    match position(roots, root_entry(digest)) {
        Some(k) => {
            let prev = roots[k].1[0];
            if prev != id && procedure_at(mods, prev).num_locals != procedure_at(mods, id).num_locals {
                Err(AssemblyError::ConflictingDefinitions {
                    first: qualified_name_in(mods, prev),
                    second: qualified_name_in(mods, id),
                })
            } else {
                Ok(())
            }
        },
        None => Ok(()),
    }
}

/// One step of a filter over a prefix: the element at `i` is kept if it satisfies `p`.
pub proof fn lemma_filter_take<T>(s: Seq<T>, p: spec_fn(T) -> bool, i: int)
    requires
        0 <= i < s.len(),
    ensures
        s.take(i + 1).filter(p) == if p(s[i]) { s.take(i).filter(p).push(s[i]) } else { s.take(i).filter(p) },
{
    reveal(Seq::filter);
    assert(s.take(i + 1).drop_last() =~= s.take(i));
    assert(s.take(i + 1).last() == s[i]);
}

/// Holds of a recorded root for a procedure outside module `m`.
pub open spec fn digest_outside(m: ModuleIndex) -> spec_fn((GlobalProcedureIndex, RpoDigest)) -> bool {
    |e: (GlobalProcedureIndex, RpoDigest)| e.0.module != m
}

/// MAST root `d` is recorded for some procedure of module `m`.
pub open spec fn root_of_module(digests: Seq<(GlobalProcedureIndex, RpoDigest)>, m: ModuleIndex, d: RpoDigest) -> bool {
    exists|k: int| 0 <= k < digests.len() && (#[trigger] digests[k]).1 == d && digests[k].0.module == m
}

/// The bindings of MAST roots once module `m` is removed: from each root recorded for a
/// procedure of `m`, the procedures of `m` are unbound; a root left with no procedure is dropped.
pub open spec fn roots_without(
    roots: Seq<(RpoDigest, Seq<GlobalProcedureIndex>)>,
    digests: Seq<(GlobalProcedureIndex, RpoDigest)>,
    m: ModuleIndex,
) -> Seq<(RpoDigest, Seq<GlobalProcedureIndex>)>
    decreases roots.len(),
{
    if roots.len() == 0 {
        roots
    } else {
        let rest = roots_without(roots.drop_last(), digests, m);
        let e = roots.last();
        let gids = if root_of_module(digests, m, e.0) { e.1.filter(outside_module(m)) } else { e.1 };
        if gids.len() > 0 {
            rest.push((e.0, gids))
        } else {
            rest
        }
    }
}

/// Every root kept by [roots_without] has a procedure bound to it.
pub proof fn lemma_roots_without_nonempty(
    roots: Seq<(RpoDigest, Seq<GlobalProcedureIndex>)>,
    digests: Seq<(GlobalProcedureIndex, RpoDigest)>,
    m: ModuleIndex,
)
    ensures
        forall|k: int| 0 <= k < roots_without(roots, digests, m).len() ==> (#[trigger] roots_without(roots, digests, m)[k]).1.len() > 0,
    decreases roots.len(),
{
    if roots.len() > 0 {
        lemma_roots_without_nonempty(roots.drop_last(), digests, m);
        let rest = roots_without(roots.drop_last(), digests, m);
        let r = roots_without(roots, digests, m);
        assert forall|k: int| 0 <= k < r.len() implies (#[trigger] r[k]).1.len() > 0 by {
            if k < rest.len() {
                assert(r[k] == rest[k]);
            }
        }
    }
}

/// The graph of the modules of a program: the modules added to it, those pending analysis, the
/// call graph between their procedures and its topological order, the MAST roots known for
/// procedures, the calls to procedures known only by their root, and the kernel.
pub struct ModuleGraph {
    modules: Vec<ThinModule>,
    pending: Vec<ThinModule>,
    callgraph: CallGraph,
    topo: Vec<GlobalProcedureIndex>,
    /// Each MAST root with a definition in the graph, with the procedures bound to it.
    roots: Vec<(RpoDigest, Vec<GlobalProcedureIndex>)>,
    /// Each procedure whose MAST root is known, with that root.
    digests: Vec<(GlobalProcedureIndex, RpoDigest)>,
    phantoms: Vec<PhantomCall>,
    kernel_index: Option<ModuleIndex>,
    /// The MAST roots of the procedures of the kernel.
    kernel: Vec<RpoDigest>,
}

impl ModuleGraph {
    /// The modules of the graph, by index.
    pub closed spec fn spec_modules(&self) -> Seq<ThinModule> {
        self.modules@
    }

    /// The modules pending analysis; their indices follow those of the graph's modules.
    pub closed spec fn spec_pending(&self) -> Seq<ThinModule> {
        self.pending@
    }

    /// The index of the kernel module, if any.
    pub closed spec fn spec_kernel_index(&self) -> Option<ModuleIndex> {
        self.kernel_index
    }

    /// The MAST roots of the kernel's procedures.
    pub closed spec fn spec_kernel(&self) -> Seq<RpoDigest> {
        self.kernel@
    }

    /// Each procedure whose MAST root is known, with that root.
    pub closed spec fn spec_digests(&self) -> Seq<(GlobalProcedureIndex, RpoDigest)> {
        self.digests@
    }

    /// Each MAST root with a definition, with the procedures bound to it.
    pub closed spec fn spec_roots(&self) -> Seq<(RpoDigest, Seq<GlobalProcedureIndex>)> {
        self.roots@.map_values(|e: (RpoDigest, Vec<GlobalProcedureIndex>)| (e.0, e.1@))
    }

    /// The call graph between the procedures of the graph.
    pub closed spec fn spec_callgraph(&self) -> CallGraph {
        self.callgraph
    }

    /// The assembler has a kernel: a kernel module, or kernel procedures.
    pub open spec fn spec_has_nonempty_kernel(&self) -> bool {
        self.spec_kernel_index() is Some || self.spec_kernel().len() > 0
    }

    /// Every module and pending module has an index, and each of its procedures a local index.
    pub open spec fn wf(&self) -> bool {
        &&& self.spec_modules().len() + self.spec_pending().len() <= u16::MAX + 1
        &&& forall|k: int| 0 <= k < self.spec_modules().len() ==> module_wf(#[trigger] self.spec_modules()[k])
        &&& forall|k: int| 0 <= k < self.spec_pending().len() ==> module_wf(#[trigger] self.spec_pending()[k])
        &&& forall|k: int| 0 <= k < self.spec_roots().len() ==> (#[trigger] self.spec_roots()[k]).1.len() > 0
        &&& self.spec_callgraph().wf()
    }

    /// A module of the graph, or a pending one, is at path `path`.
    pub open spec fn has_module_at(&self, path: Seq<char>) -> bool {
        exists|k: int| 0 <= k < self.spec_modules().len() + self.spec_pending().len()
            && (#[trigger] (self.spec_modules() + self.spec_pending())[k]).path@ == path
    }

    /// The topological order of the call graph computed last.
    pub closed spec fn spec_topo(&self) -> Seq<GlobalProcedureIndex> {
        self.topo@
    }

    /// The calls to procedures known only by their MAST root.
    pub closed spec fn spec_phantoms(&self) -> Seq<PhantomCall> {
        self.phantoms@
    }
}

/// Graphs `a` and `b` agree on the results of analysis: the call graph, its topological order,
/// the MAST roots and the calls known only by their root.
pub open spec fn same_analysis(a: ModuleGraph, b: ModuleGraph) -> bool {
    &&& a.spec_callgraph() == b.spec_callgraph()
    &&& a.spec_topo() == b.spec_topo()
    &&& a.spec_roots() == b.spec_roots()
    &&& a.spec_digests() == b.spec_digests()
    &&& a.spec_phantoms() == b.spec_phantoms()
}

impl Default for ModuleGraph {
    fn default() -> (r: Self)
        ensures
            r.wf(),
            r.spec_modules() == Seq::<ThinModule>::empty(),
            r.spec_pending() == Seq::<ThinModule>::empty(),
            r.spec_callgraph()@ == crate::callgraph::Graph::empty(),
            r.spec_topo() == Seq::<GlobalProcedureIndex>::empty(),
            r.spec_roots() == Seq::<(RpoDigest, Seq<GlobalProcedureIndex>)>::empty(),
            r.spec_digests() == Seq::<(GlobalProcedureIndex, RpoDigest)>::empty(),
            r.spec_phantoms() == Seq::<PhantomCall>::empty(),
            r.spec_kernel_index() is None,
            r.spec_kernel() == Seq::<RpoDigest>::empty(),
    {
        let r = ModuleGraph {
            modules: Vec::new(),
            pending: Vec::new(),
            callgraph: CallGraph::new(),
            topo: Vec::new(),
            roots: Vec::new(),
            digests: Vec::new(),
            phantoms: Vec::new(),
            kernel_index: None,
            kernel: Vec::new(),
        };
        proof {
            assert(r.spec_roots() =~= Seq::<(RpoDigest, Seq<GlobalProcedureIndex>)>::empty());
        }
        r
    }
}

impl ModuleGraph {
    /// Returns true if a pending module has path `path`.
    fn is_pending(&self, path: &String) -> (r: bool)
        ensures
            r == exists|k: int| 0 <= k < self.spec_pending().len() && (#[trigger] self.spec_pending()[k]).path@ == path@,
    {
        let mut k: usize = 0;
        while k < self.pending.len()
            invariant
                k <= self.pending@.len(),
                forall|j: int| 0 <= j < k ==> (#[trigger] self.pending@[j]).path@ != path@,
            decreases self.pending@.len() - k,
        {
            if self.pending[k].path == *path {
                return true;
            }
            k = k + 1;
        }
        false
    }

    /// The index that the next module added gets.
    fn next_module_id(&self) -> (r: ModuleIndex)
        requires
            self.spec_modules().len() + self.spec_pending().len() <= u16::MAX,
        ensures
            r.0 == self.spec_modules().len() + self.spec_pending().len(),
    {
        ModuleIndex::new(self.modules.len() + self.pending.len())
    }

    /// Adds `module` to the modules pending analysis, under the next module index. Fails if a
    /// module of the graph, or a pending one, has its path already.
    pub fn add_module(&mut self, module: ThinModule) -> (r: Result<ModuleIndex, AssemblyError>)
        requires
            old(self).wf(),
            module_wf(module),
            old(self).spec_modules().len() + old(self).spec_pending().len() <= u16::MAX,
        ensures
            final(self).wf(),
            same_analysis(*final(self), *old(self)),
            final(self).spec_modules() == old(self).spec_modules(),
            final(self).spec_kernel_index() == old(self).spec_kernel_index(),
            final(self).spec_kernel() == old(self).spec_kernel(),
            r is Err <==> old(self).has_module_at(module.path@),
            r matches Err(e) ==> (e == AssemblyError::DuplicateModule { path: module.path })
                && final(self).spec_pending() == old(self).spec_pending(),
            r matches Ok(id) ==> id.0 == old(self).spec_modules().len() + old(self).spec_pending().len()
                && final(self).spec_pending() == old(self).spec_pending().push(module),
    {
        let ghost all = self.modules@ + self.pending@;
        let in_graph = self.find_module_index(&module.path);
        proof {
            lemma_position_from(self.modules@, module_at(module.path@), 0);
        }
        let is_duplicate = self.is_pending(&module.path) || in_graph.is_some();
        if is_duplicate {
            proof {
                if in_graph is Some {
                    let k = position(self.modules@, module_at(module.path@))->0;
                    assert(all[k] == self.modules@[k]);
                } else {
                    let k = choose|k: int| 0 <= k < self.pending@.len() && (#[trigger] self.pending@[k]).path@ == module.path@;
                    assert(all[self.modules@.len() + k] == self.pending@[k]);
                }
            }
            return Err(AssemblyError::DuplicateModule { path: module.path });
        }
        proof {
            assert forall|k: int| 0 <= k < all.len() implies (#[trigger] all[k]).path@ != module.path@ by {
                if k < self.modules@.len() {
                    assert(all[k] == self.modules@[k]);
                } else {
                    assert(all[k] == self.pending@[k - self.modules@.len()]);
                }
            }
        }
        let module_id = self.next_module_id();
        let ghost m = module;
        self.pending.push(module);
        proof {
            assert forall|k: int| 0 <= k < self.pending@.len() implies module_wf(#[trigger] self.pending@[k]) by {
                if k < old(self).pending@.len() {
                    assert(self.pending@[k] == old(self).pending@[k]);
                } else {
                    assert(self.pending@[k] == m);
                }
            }
            assert(self.spec_roots() == old(self).spec_roots());
            assert(self.spec_callgraph().wf());
            assert(self.spec_modules().len() + self.spec_pending().len() <= u16::MAX + 1);
        }
        Ok(module_id)
    }

    /// Resolve a module path to the index of the first module of the graph at that path.
    pub fn find_module_index(&self, path: &String) -> (r: Option<ModuleIndex>)
        requires
            self.spec_modules().len() <= u16::MAX + 1,
        ensures
            r == match position(self.spec_modules(), module_at(path@)) {
                Some(k) => Some(ModuleIndex(k as u16)),
                None => None,
            },
    {
        let ghost p = module_at(path@);
        let mut k: usize = 0;
        while k < self.modules.len()
            invariant
                p == module_at(path@),
                self.modules@.len() <= u16::MAX + 1,
                k <= self.modules@.len(),
                position(self.modules@, p) == position_from(self.modules@, p, k as int),
            decreases self.modules@.len() - k,
        {
            if self.modules[k].path == *path {
                return Some(ModuleIndex::new(k));
            }
            k = k + 1;
        }
        None
    }

    /// Sets the kernel: the index of its module, if it has one, and the MAST roots of its
    /// procedures.
    pub fn set_kernel(&mut self, kernel_index: Option<ModuleIndex>, kernel: Vec<RpoDigest>)
        ensures
            final(self).spec_kernel_index() == kernel_index,
            final(self).spec_kernel() == kernel@,
            final(self).spec_modules() == old(self).spec_modules(),
            final(self).spec_pending() == old(self).spec_pending(),
            same_analysis(*final(self), *old(self)),
    {
        self.kernel_index = kernel_index;
        self.kernel = kernel;
    }

    /// The MAST roots of the kernel's procedures.
    pub fn kernel(&self) -> (r: &Vec<RpoDigest>)
        ensures
            r@ == self.spec_kernel(),
    {
        &self.kernel
    }

    /// The index of the kernel module, if any.
    pub fn kernel_index(&self) -> (r: Option<ModuleIndex>)
        ensures
            r == self.spec_kernel_index(),
    {
        self.kernel_index
    }

    /// Returns true if there is a kernel module, or the kernel has procedures.
    pub fn has_nonempty_kernel(&self) -> (r: bool)
        ensures
            r == self.spec_has_nonempty_kernel(),
    {
        self.kernel_index.is_some() || self.kernel.len() > 0
    }

    /// Returns true if `digest` is the MAST root of a procedure of the kernel.
    pub fn is_kernel_procedure_root(&self, digest: &RpoDigest) -> (r: bool)
        ensures
            r == self.spec_kernel().contains(*digest),
    {
        let mut k: usize = 0;
        while k < self.kernel.len()
            invariant
                k <= self.kernel@.len(),
                forall|j: int| 0 <= j < k ==> self.kernel@[j] != *digest,
            decreases self.kernel@.len() - k,
        {
            if self.kernel[k] == *digest {
                return true;
            }
            k = k + 1;
        }
        false
    }

    /// Returns true if the kernel module declares a procedure called `name`.
    pub fn is_kernel_procedure(&self, name: &String) -> (r: bool)
        requires
            self.wf(),
            self.spec_kernel_index() matches Some(k) ==> k.0 < self.spec_modules().len(),
        ensures
            r == match self.spec_kernel_index() {
                Some(k) => resolve_in(self.spec_modules()[k.0 as int], name@) is Some,
                None => false,
            },
    {
        match self.kernel_index {
            Some(index) => self.modules[index.as_usize()].resolve(name).is_some(),
            None => false,
        }
    }

    /// Returns true if `name` names a procedure declared by the kernel module.
    pub fn is_kernel_procedure_fully_qualified(&self, name: &QualifiedProcedureName) -> (r: bool)
        requires
            self.wf(),
        ensures
            r == match position(self.spec_modules(), module_at(name.module@)) {
                Some(k) => self.spec_kernel_index() == Some(ModuleIndex(k as u16))
                    && resolve_in(self.spec_modules()[k], name.name@) is Some,
                None => false,
            },
    {
        proof {
            lemma_position_from(self.modules@, module_at(name.module@), 0);
        }
        match self.find_module_index(&name.module) {
            Some(module_index) => {
                let is_kernel = match self.kernel_index {
                    Some(k) => k.0 == module_index.0,
                    None => false,
                };
                is_kernel && self.modules[module_index.as_usize()].resolve(&name.name).is_some()
            },
            None => false,
        }
    }

    /// The topological order of the call graph computed last: a procedure comes before all of
    /// its callees.
    pub fn topological_sort(&self) -> (r: &[GlobalProcedureIndex])
        ensures
            r@ == self.spec_topo(),
    {
        self.topo.as_slice()
    }

    /// The topological order of the part of the call graph reachable from `caller`.
    pub fn topological_sort_from_root(&self, caller: GlobalProcedureIndex) -> (res: Result<Vec<GlobalProcedureIndex>, CycleError>)
        requires
            self.wf(),
        ensures
            match res {
                Ok(order) => is_topological_order(reachable_subgraph(self.spec_callgraph()@, caller), order@)
                    && order@.len() >= 1 && order@[0] == caller,
                Err(e) => is_cycle_witness(reachable_subgraph(self.spec_callgraph()@, caller), e@.to_set())
                    && strictly_sorted(e@),
            },
            res is Ok <==> exists|s: Seq<GlobalProcedureIndex>|
                is_topological_order(reachable_subgraph(self.spec_callgraph()@, caller), s),
    {
        self.callgraph.toposort_caller(caller)
    }

    /// Returns true if the graph has a module at index `id`.
    pub fn contains_module(&self, id: ModuleIndex) -> (r: bool)
        ensures
            r == (id.0 < self.spec_modules().len()),
    {
        id.as_usize() < self.modules.len()
    }

    /// The procedures that `gid` calls, in the call graph.
    pub fn callees(&self, gid: GlobalProcedureIndex) -> (r: &[GlobalProcedureIndex])
        requires
            self.wf(),
        ensures
            r@ == out_of(self.spec_callgraph()@, gid),
    {
        self.callgraph.out_edges(gid)
    }

    /// Resolve `target` from the perspective of `caller`, over the modules of the graph.
    pub fn resolve_target(&self, caller: &CallerInfo, target: &InvocationTarget) -> (r: Result<ResolvedTarget, AssemblyError>)
        requires
            self.wf(),
            !(*target is MastRoot) ==> caller.module.0 < self.spec_modules().len(),
            !(*target is MastRoot) ==> (self.spec_kernel_index() matches Some(k) ==> k.0 < self.spec_modules().len()),
        ensures
            r == resolve_target_in(*self, self.spec_modules(), *caller, *target),
    {
        let resolver = NameResolver::new(self);
        resolver.resolve_target(caller, target)
    }

    /// The qualified name of procedure `gid` of the graph.
    fn qualified_name(&self, gid: GlobalProcedureIndex) -> (r: QualifiedProcedureName)
        requires
            is_procedure_of(self.spec_modules(), gid),
        ensures
            r == qualified_name_in(self.spec_modules(), gid),
    {
        let module = &self.modules[gid.module.as_usize()];
        let procedure = &module.procedures[gid.index.as_usize()];
        QualifiedProcedureName { span: procedure.span, module: module.path.clone(), name: procedure.name.clone() }
    }

    /// The position of the entry for MAST root `digest`, if any.
    fn root_position(&self, digest: &RpoDigest) -> (r: Option<usize>)
        ensures
            r matches Some(k) ==> position(self.spec_roots(), root_entry(*digest)) == Some(k as int),
            r is None ==> position(self.spec_roots(), root_entry(*digest)) is None,
            self.spec_roots().len() == self.roots@.len(),
    {
        let ghost p = root_entry(*digest);
        let ghost roots = self.spec_roots();
        let mut k: usize = 0;
        while k < self.roots.len()
            invariant
                p == root_entry(*digest),
                roots == self.spec_roots(),
                roots.len() == self.roots@.len(),
                k <= self.roots@.len(),
                position(roots, p) == position_from(roots, p, k as int),
            decreases self.roots@.len() - k,
        {
            proof {
                assert(roots[k as int] == (self.roots@[k as int].0, self.roots@[k as int].1@));
            }
            if self.roots[k].0 == *digest {
                return Some(k);
            }
            k = k + 1;
        }
        None
    }

    /// Records `digest` as the MAST root of procedure `id`.
    ///
    /// Several procedures may share a root, if they have the same number of locals: the first
    /// procedure bound to the root is kept first. A procedure whose root is recorded keeps it.
    pub fn register_mast_root(&mut self, id: GlobalProcedureIndex, digest: RpoDigest) -> (r: Result<(), AssemblyError>)
        requires
            old(self).wf(),
            is_procedure_of(old(self).spec_modules(), id),
            forall|k: int, j: int| 0 <= k < old(self).spec_roots().len() && 0 <= j < old(self).spec_roots()[k].1.len()
                ==> is_procedure_of(old(self).spec_modules(), #[trigger] old(self).spec_roots()[k].1[j]),
            digest_of(old(self).spec_digests(), id) matches Some(d) ==> d == digest,
        ensures
            final(self).wf(),
            final(self).spec_modules() == old(self).spec_modules(),
            final(self).spec_pending() == old(self).spec_pending(),
            final(self).spec_kernel_index() == old(self).spec_kernel_index(),
            final(self).spec_kernel() == old(self).spec_kernel(),
            final(self).spec_callgraph() == old(self).spec_callgraph(),
            final(self).spec_topo() == old(self).spec_topo(),
            final(self).spec_phantoms() == old(self).spec_phantoms(),
            r == register_result(*old(self), id, digest),
            r is Err ==> final(self).spec_roots() == old(self).spec_roots() && final(self).spec_digests() == old(self).spec_digests(),
            r is Ok ==> final(self).spec_roots() == roots_after(old(self).spec_roots(), id, digest)
                && final(self).spec_digests() == digests_after(old(self).spec_digests(), id, digest),
    {
        let ghost p = root_entry(digest);
        let ghost roots = self.spec_roots();
        let pos = self.root_position(&digest);
        match pos {
            Some(k) => {
                proof {
                    lemma_position_from(roots, p, 0);
                    assert(roots[k as int] == (self.roots@[k as int].0, self.roots@[k as int].1@));
                }
                let prev_id = self.roots[k].1[0];
                if prev_id != id {
                    proof {
                        assert(is_procedure_of(self.spec_modules(), roots[k as int].1[0]));
                    }
                    let prev_locals = self.modules[prev_id.module.as_usize()].procedures[prev_id.index.as_usize()].num_locals;
                    let current_locals = self.modules[id.module.as_usize()].procedures[id.index.as_usize()].num_locals;
                    if prev_locals != current_locals {
                        let first = self.qualified_name(prev_id);
                        let second = self.qualified_name(id);
                        return Err(AssemblyError::ConflictingDefinitions { first, second });
                    }
                    let mut gids: Vec<GlobalProcedureIndex> = Vec::new();
                    let mut j: usize = 0;
                    while j < self.roots[k].1.len()
                        invariant
                            k < self.roots@.len(),
                            j <= self.roots@[k as int].1@.len(),
                            gids@ == self.roots@[k as int].1@.take(j as int),
                        decreases self.roots@[k as int].1@.len() - j,
                    {
                        gids.push(self.roots[k].1[j]);
                        proof {
                            assert(self.roots@[k as int].1@.take(j + 1) =~= self.roots@[k as int].1@.take(j as int).push(self.roots@[k as int].1@[j as int]));
                        }
                        j = j + 1;
                    }
                    gids.push(id);
                    proof {
                        assert(self.roots@[k as int].1@.take(j as int) =~= self.roots@[k as int].1@);
                    }
                    self.roots.set(k, (digest, gids));
                    proof {
                        assert(self.spec_roots() =~= roots.update(k as int, (digest, roots[k as int].1.push(id))));
                    }
                }
            },
            None => {
                let mut gids: Vec<GlobalProcedureIndex> = Vec::new();
                gids.push(id);
                self.roots.push((digest, gids));
                proof {
                    assert(self.spec_roots() =~= roots.push((digest, seq![id])));
                }
            },
        }
        proof {
            assert forall|k: int| 0 <= k < self.spec_roots().len() implies (#[trigger] self.spec_roots()[k]).1.len() > 0 by {
                if k < roots.len() {
                    assert(roots[k].1.len() > 0);
                }
            }
        }
        match self.get_mast_root(id) {
            Some(_) => {},
            None => {
                let ghost digests = self.digests@;
                self.digests.push((id, digest));
                proof {
                    assert(self.digests@ == digests.push((id, digest)));
                }
            },
        }
        Ok(())
    }

    /// Adds to the call graph a node for each procedure, not re-export, of the pending modules.
    fn add_pending_nodes(&mut self)
        requires
            old(self).wf(),
        ensures
            final(self).wf(),
            final(self).spec_modules() == old(self).spec_modules(),
            final(self).spec_pending() == old(self).spec_pending(),
            final(self).spec_topo() == old(self).spec_topo(),
            final(self).spec_phantoms() == old(self).spec_phantoms(),
            same_roots_and_kernel(*final(self), *old(self)),
            forall|x: GlobalProcedureIndex| #[trigger] final(self).spec_callgraph()@.dom().contains(x)
                <==> old(self).spec_callgraph()@.dom().contains(x)
                    || is_new_node(old(self).spec_modules() + old(self).spec_pending(), old(self).spec_modules().len() as int, x),
            forall|u: GlobalProcedureIndex, v: GlobalProcedureIndex| #[trigger] has_edge(final(self).spec_callgraph()@, u, v)
                <==> has_edge(old(self).spec_callgraph()@, u, v),
    {
        let ghost mods = self.modules@ + self.pending@;
        let ghost g0 = self.callgraph@;
        let hwm = self.modules.len();
        let ghost from = hwm as int;
        let mut pm: usize = 0;
        while pm < self.pending.len()
            invariant
                self.wf(),
                mods == self.modules@ + self.pending@,
                hwm == self.modules@.len(),
                from == hwm as int,
                self.modules@ == old(self).modules@,
                self.pending@ == old(self).pending@,
                self.topo@ == old(self).topo@,
                self.phantoms@ == old(self).phantoms@,
                same_roots_and_kernel(*self, *old(self)),
                g0 == old(self).callgraph@,
                pm <= self.pending@.len(),
                forall|x: GlobalProcedureIndex| #[trigger] self.callgraph@.dom().contains(x)
                    <==> g0.dom().contains(x) || new_node_before(mods, from, from + pm, 0, x),
                forall|u: GlobalProcedureIndex, v: GlobalProcedureIndex| #[trigger] has_edge(self.callgraph@, u, v) <==> has_edge(g0, u, v),
            decreases self.pending@.len() - pm,
        {
            let ghost m = from + pm;
            let mut i: usize = 0;
            while i < self.pending[pm].procedures.len()
                invariant
                    self.wf(),
                    mods == self.modules@ + self.pending@,
                    hwm == self.modules@.len(),
                    from == hwm as int,
                    m == from + pm,
                    self.modules@ == old(self).modules@,
                    self.pending@ == old(self).pending@,
                    self.topo@ == old(self).topo@,
                    self.phantoms@ == old(self).phantoms@,
                    same_roots_and_kernel(*self, *old(self)),
                    g0 == old(self).callgraph@,
                    pm < self.pending@.len(),
                    i <= self.pending@[pm as int].procedures@.len(),
                    forall|x: GlobalProcedureIndex| #[trigger] self.callgraph@.dom().contains(x)
                        <==> g0.dom().contains(x) || new_node_before(mods, from, m, i as int, x),
                    forall|u: GlobalProcedureIndex, v: GlobalProcedureIndex| #[trigger] has_edge(self.callgraph@, u, v) <==> has_edge(g0, u, v),
                decreases self.pending@[pm as int].procedures@.len() - i,
            {
                proof {
                    assert(mods[m] == self.pending@[pm as int]);
                    assert(module_wf(self.pending@[pm as int]));
                }
                if self.pending[pm].procedures[i].alias_of.is_none() {
                    let gid = GlobalProcedureIndex { module: ModuleIndex::new(hwm + pm), index: ProcedureIndex::new(i) };
                    let ghost before = self.callgraph@;
                    self.callgraph.get_or_insert_node(gid);
                    proof {
                        assert(gid == edge_source(mods, m, i as int));
                        assert forall|x: GlobalProcedureIndex| #[trigger] self.callgraph@.dom().contains(x)
                            <==> g0.dom().contains(x) || new_node_before(mods, from, m, i + 1, x) by {
                            if new_node_before(mods, from, m, i + 1, x) && x != gid {
                                let (m2, i2) = choose|m2: int, i2: int| {
                                    &&& from <= m2 < mods.len()
                                    &&& (m2 < m || (m2 == m && i2 < i + 1))
                                    &&& 0 <= i2 < mods[m2].procedures@.len()
                                    &&& mods[m2].procedures@[i2].alias_of is None
                                    &&& x == #[trigger] edge_source(mods, m2, i2)
                                };
                                assert(new_node_before(mods, from, m, i as int, x));
                            }
                            if new_node_before(mods, from, m, i as int, x) {
                                let (m2, i2) = choose|m2: int, i2: int| {
                                    &&& from <= m2 < mods.len()
                                    &&& (m2 < m || (m2 == m && i2 < i))
                                    &&& 0 <= i2 < mods[m2].procedures@.len()
                                    &&& mods[m2].procedures@[i2].alias_of is None
                                    &&& x == #[trigger] edge_source(mods, m2, i2)
                                };
                                assert(new_node_before(mods, from, m, i + 1, x));
                            }
                            if x == gid {
                                assert(new_node_before(mods, from, m, i + 1, x));
                            }
                        }
                        assert forall|u: GlobalProcedureIndex, v: GlobalProcedureIndex| #[trigger] has_edge(self.callgraph@, u, v) <==> has_edge(g0, u, v) by {
                            assert(has_edge(self.callgraph@, u, v) == has_edge(before, u, v));
                        }
                    }
                } else {
                    proof {
                        assert forall|x: GlobalProcedureIndex|
                            new_node_before(mods, from, m, i + 1, x) <==> new_node_before(mods, from, m, i as int, x) by {
                            if new_node_before(mods, from, m, i + 1, x) {
                                let (m2, i2) = choose|m2: int, i2: int| {
                                    &&& from <= m2 < mods.len()
                                    &&& (m2 < m || (m2 == m && i2 < i + 1))
                                    &&& 0 <= i2 < mods[m2].procedures@.len()
                                    &&& mods[m2].procedures@[i2].alias_of is None
                                    &&& x == #[trigger] edge_source(mods, m2, i2)
                                };
                                assert(new_node_before(mods, from, m, i as int, x));
                            }
                            if new_node_before(mods, from, m, i as int, x) {
                                let (m2, i2) = choose|m2: int, i2: int| {
                                    &&& from <= m2 < mods.len()
                                    &&& (m2 < m || (m2 == m && i2 < i))
                                    &&& 0 <= i2 < mods[m2].procedures@.len()
                                    &&& mods[m2].procedures@[i2].alias_of is None
                                    &&& x == #[trigger] edge_source(mods, m2, i2)
                                };
                                assert(new_node_before(mods, from, m, i + 1, x));
                            }
                        }
                    }
                }
                i = i + 1;
            }
            proof {
                assert forall|x: GlobalProcedureIndex|
                    new_node_before(mods, from, m, i as int, x) <==> new_node_before(mods, from, m + 1, 0, x) by {
                    if new_node_before(mods, from, m, i as int, x) {
                        let (m2, i2) = choose|m2: int, i2: int| {
                            &&& from <= m2 < mods.len()
                            &&& (m2 < m || (m2 == m && i2 < i))
                            &&& 0 <= i2 < mods[m2].procedures@.len()
                            &&& mods[m2].procedures@[i2].alias_of is None
                            &&& x == #[trigger] edge_source(mods, m2, i2)
                        };
                        assert(new_node_before(mods, from, m + 1, 0, x));
                    }
                    if new_node_before(mods, from, m + 1, 0, x) {
                        let (m2, i2) = choose|m2: int, i2: int| {
                            &&& from <= m2 < mods.len()
                            &&& (m2 < m + 1 || (m2 == m + 1 && i2 < 0))
                            &&& 0 <= i2 < mods[m2].procedures@.len()
                            &&& mods[m2].procedures@[i2].alias_of is None
                            &&& x == #[trigger] edge_source(mods, m2, i2)
                        };
                        assert(mods[m] == self.pending@[pm as int]);
                        assert(new_node_before(mods, from, m, i as int, x));
                    }
                }
            }
            pm = pm + 1;
        }
        proof {
            assert forall|x: GlobalProcedureIndex|
                new_node_before(mods, from, from + pm, 0, x) <==> is_new_node(mods, from, x) by {
                if is_new_node(mods, from, x) {
                    let (m2, i2) = choose|m2: int, i2: int| {
                        &&& from <= m2 < mods.len()
                        &&& 0 <= i2 < mods[m2].procedures@.len()
                        &&& mods[m2].procedures@[i2].alias_of is None
                        &&& x == #[trigger] edge_source(mods, m2, i2)
                    };
                    assert(new_node_before(mods, from, from + pm, 0, x));
                }
            }
        }
    }

    /// Adds each edge of `edges` to the call graph, but a procedure's call to itself, which is
    /// returned instead.
    fn add_edges(&mut self, edges: &Vec<(GlobalProcedureIndex, GlobalProcedureIndex)>) -> (r: Option<GlobalProcedureIndex>)
        requires
            old(self).wf(),
        ensures
            final(self).wf(),
            final(self).spec_modules() == old(self).spec_modules(),
            final(self).spec_pending() == old(self).spec_pending(),
            final(self).spec_topo() == old(self).spec_topo(),
            final(self).spec_phantoms() == old(self).spec_phantoms(),
            same_roots_and_kernel(*final(self), *old(self)),
            forall|u: GlobalProcedureIndex, v: GlobalProcedureIndex| #[trigger] has_edge(final(self).spec_callgraph()@, u, v)
                <==> has_edge(old(self).spec_callgraph()@, u, v) || (edges@.contains((u, v)) && u != v),
            forall|x: GlobalProcedureIndex| #[trigger] final(self).spec_callgraph()@.dom().contains(x)
                <==> old(self).spec_callgraph()@.dom().contains(x) || node_among(edges@, edges@.len() as int, x),
            r matches Some(u) ==> edges@.contains((u, u)),
            r is None ==> forall|u: GlobalProcedureIndex| !edges@.contains((u, u)),
    {
        let ghost g0 = self.callgraph@;
        let mut self_call: Option<GlobalProcedureIndex> = None;
        let mut k: usize = 0;
        while k < edges.len()
            invariant
                self.wf(),
                self.modules@ == old(self).modules@,
                self.pending@ == old(self).pending@,
                self.topo@ == old(self).topo@,
                self.phantoms@ == old(self).phantoms@,
                same_roots_and_kernel(*self, *old(self)),
                g0 == old(self).callgraph@,
                k <= edges@.len(),
                forall|u: GlobalProcedureIndex, v: GlobalProcedureIndex| #[trigger] has_edge(self.callgraph@, u, v)
                    <==> has_edge(g0, u, v) || edge_among(edges@, k as int, u, v),
                forall|x: GlobalProcedureIndex| #[trigger] self.callgraph@.dom().contains(x)
                    <==> g0.dom().contains(x) || node_among(edges@, k as int, x),
                self_call matches Some(u) ==> edges@.contains((u, u)),
                self_call is None ==> forall|k2: int| 0 <= k2 < k ==> (#[trigger] edges@[k2]).0 != edges@[k2].1,
            decreases edges@.len() - k,
        {
            let (caller, callee) = edges[k];
            let ghost before = self.callgraph@;
            if caller == callee {
                self_call = Some(caller);
                proof {
                    assert(edges@[k as int] == (caller, caller));
                }
            } else {
                self.callgraph.add_edge_unchecked(caller, callee);
            }
            proof {
                assert(edges@[k as int] == (caller, callee));
                assert forall|u: GlobalProcedureIndex, v: GlobalProcedureIndex|
                    #[trigger] edge_among(edges@, k + 1, u, v) == (edge_among(edges@, k as int, u, v) || (caller == u && callee == v && u != v)) by {
                    if edge_among(edges@, k + 1, u, v) {
                        let k2 = choose|k2: int| 0 <= k2 < k + 1 && #[trigger] edges@[k2] == (u, v) && u != v;
                        if k2 < k {
                            assert(edge_among(edges@, k as int, u, v));
                        }
                    }
                    if edge_among(edges@, k as int, u, v) {
                        let k2 = choose|k2: int| 0 <= k2 < k && #[trigger] edges@[k2] == (u, v) && u != v;
                        assert(edge_among(edges@, k + 1, u, v));
                    }
                    if caller == u && callee == v && u != v {
                        assert(edge_among(edges@, k + 1, u, v));
                    }
                }
                assert forall|x: GlobalProcedureIndex|
                    #[trigger] node_among(edges@, k + 1, x) == (node_among(edges@, k as int, x) || (caller != callee && (caller == x || callee == x))) by {
                    if node_among(edges@, k + 1, x) {
                        let k2 = choose|k2: int| 0 <= k2 < k + 1 && (#[trigger] edges@[k2]).0 != edges@[k2].1 && (edges@[k2].0 == x || edges@[k2].1 == x);
                        if k2 < k {
                            assert(node_among(edges@, k as int, x));
                        }
                    }
                    if node_among(edges@, k as int, x) {
                        let k2 = choose|k2: int| 0 <= k2 < k && (#[trigger] edges@[k2]).0 != edges@[k2].1 && (edges@[k2].0 == x || edges@[k2].1 == x);
                        assert(node_among(edges@, k + 1, x));
                    }
                    if caller != callee && (caller == x || callee == x) {
                        assert(node_among(edges@, k + 1, x));
                    }
                }
                if caller != callee {
                    lemma_has_edge_with_edge(before, caller, callee);
                }
            }
            k = k + 1;
        }
        proof {
            if self_call is None {
                assert forall|u: GlobalProcedureIndex| !edges@.contains((u, u)) by {
                    if edges@.contains((u, u)) {
                        let k2 = choose|k2: int| 0 <= k2 < edges@.len() && edges@[k2] == (u, u);
                        assert(edges@[k2].0 == edges@[k2].1);
                    }
                }
            }
            assert forall|u: GlobalProcedureIndex, v: GlobalProcedureIndex|
                #[trigger] edge_among(edges@, k as int, u, v) == (edges@.contains((u, v)) && u != v) by {
                if edges@.contains((u, v)) && u != v {
                    let k2 = choose|k2: int| 0 <= k2 < edges@.len() && edges@[k2] == (u, v);
                    assert(edge_among(edges@, k as int, u, v));
                }
            }
        }
        self_call
    }

    /// Recomputes the module graph, once modules are added: the pending modules are analysed
    /// and join the graph.
    ///
    /// Each invocation of each pending module is resolved, now that the full set of modules is
    /// known, as is each invocation of the modules already in the graph. A procedure becomes a
    /// node of the global call graph, and each resolved invocation an edge of it. The graph must
    /// be free of static cycles, which would prevent hashing the MAST of the program: its
    /// topological order, by which procedures are compiled bottom-up, is then recorded.
    ///
    /// # Errors
    /// An empty graph with no pending module is an error. So is an invocation that does not
    /// resolve, and a cycle in the call graph.
    pub fn recompute(&mut self) -> (r: Result<(), AssemblyError>)
        requires
            old(self).wf(),
            old(self).spec_kernel_index() matches Some(k) ==> k.0 < old(self).spec_modules().len() + old(self).spec_pending().len(),
        ensures
            final(self).wf(),
            old(self).spec_modules().len() == 0 && old(self).spec_pending().len() == 0
                ==> r == Err::<(), AssemblyError>(AssemblyError::Empty) && *final(self) == *old(self),
            old(self).spec_modules().len() > 0 && old(self).spec_pending().len() == 0 ==> r is Ok && *final(self) == *old(self),
            old(self).spec_pending().len() > 0 ==> recompute_outcome(*old(self), *final(self), r),
    {
        if self.modules.len() == 0 && self.pending.len() == 0 {
            return Err(AssemblyError::Empty);
        }
        if self.pending.len() == 0 {
            return Ok(());
        }
        let ghost g0 = *self;
        let ghost mods = self.modules@ + self.pending@;
        let ghost from = self.modules@.len() as int;
        self.topo = Vec::new();
        self.add_pending_nodes();
        let ghost g1 = self.callgraph@;
        let hwm = self.modules.len();
        let mut pending: Vec<ThinModule> = Vec::new();
        std::mem::swap(&mut pending, &mut self.pending);
        let total = hwm + pending.len();
        let mut edges: Vec<(GlobalProcedureIndex, GlobalProcedureIndex)> = Vec::new();
        let mut phantoms: Vec<PhantomCall> = Vec::new();
        let ghost s1 = *self;
        proof {
            assert(s1.spec_roots() == g0.spec_roots());
            assert(s1.wf());
        }
        let resolver = NameResolver { graph: &*self, pending };
        let ghost gr = resolver.spec_graph();
        proof {
            assert(resolver.all() =~= mods);
            assert(same_roots_and_kernel(gr, g0));
            lemma_outcomes_congruent(gr, g0, mods);
            assert forall|k: int| 0 <= k < mods.len() implies module_wf(#[trigger] mods[k]) by {
                if k < from {
                    assert(mods[k] == g0.spec_modules()[k]);
                } else {
                    assert(mods[k] == g0.spec_pending()[k - from]);
                }
            }
            assert(gr.spec_roots() == g0.spec_roots());
        }
        let mut m: usize = hwm;
        while m < total
            invariant
                resolver.all() == mods,
                resolver.spec_graph() == gr,
                gr == s1,
                *self == s1,
                g0 == *old(self),
                g0.spec_pending().len() > 0,
                s1.wf(),
                s1.spec_pending().len() == 0,
                s1.spec_modules() == g0.spec_modules(),
                s1.spec_topo().len() == 0,
                s1.spec_phantoms() == g0.spec_phantoms(),
                mods == g0.spec_modules() + g0.spec_pending(),
                resolver.wf(),
                gr.wf(),
                same_roots_and_kernel(gr, g0),
                gr.spec_kernel_index() matches Some(k) ==> k.0 < mods.len(),
                forall|m2: int, i: int, j: int| #![trigger invocation_outcome(gr, mods, m2, i, j)] #![trigger invocation_outcome(g0, mods, m2, i, j)]
                    invocation_outcome(gr, mods, m2, i, j) == invocation_outcome(g0, mods, m2, i, j),
                forall|m2: int| #[trigger] module_resolves(gr, mods, m2) == module_resolves(g0, mods, m2),
                forall|m2: int, u: GlobalProcedureIndex, v: GlobalProcedureIndex| #[trigger] module_edge(gr, mods, m2, u, v) == module_edge(g0, mods, m2, u, v),
                from == hwm as int,
                total == mods.len(),
                hwm <= m <= total,
                forall|m2: int| from <= m2 < m ==> #[trigger] module_resolves(g0, mods, m2),
                forall|u: GlobalProcedureIndex, v: GlobalProcedureIndex| #[trigger] edges@.contains((u, v))
                    <==> exists|m2: int| from <= m2 < m && #[trigger] module_edge(g0, mods, m2, u, v),
                forall|k: int| 0 <= k < phantoms@.len() ==> first_bound(g0.spec_roots(), #[trigger] phantoms@[k].callee) is None,
            decreases total - m,
        {
            let ghost edges_before = edges@;
            let ghost ph_before = phantoms@;
            match resolver.check_module(m, &mut edges, &mut phantoms) {
                Ok(()) => {},
                Err(e) => {
                    return Err(e);
                },
            }
            proof {
                assert forall|k: int| 0 <= k < phantoms@.len() implies first_bound(g0.spec_roots(), #[trigger] phantoms@[k].callee) is None by {
                    if k < ph_before.len() {
                        assert(phantoms@[k] == ph_before[k]);
                    }
                }
                assert forall|u: GlobalProcedureIndex, v: GlobalProcedureIndex| #[trigger] edges@.contains((u, v))
                    <==> exists|m2: int| from <= m2 < m + 1 && #[trigger] module_edge(g0, mods, m2, u, v) by {
                    if edges_before.contains((u, v)) {
                        let m2 = choose|m2: int| from <= m2 < m && #[trigger] module_edge(g0, mods, m2, u, v);
                        assert(from <= m2 < m + 1 && module_edge(g0, mods, m2, u, v));
                    }
                    if module_edge(g0, mods, m as int, u, v) {
                        assert(module_edge(gr, mods, m as int, u, v));
                    }
                    if exists|m2: int| from <= m2 < m + 1 && #[trigger] module_edge(g0, mods, m2, u, v) {
                        let m2 = choose|m2: int| from <= m2 < m + 1 && #[trigger] module_edge(g0, mods, m2, u, v);
                        if m2 < m {
                            assert(exists|m3: int| from <= m3 < m && #[trigger] module_edge(g0, mods, m3, u, v));
                        } else {
                            assert(module_edge(gr, mods, m as int, u, v));
                        }
                    }
                }
            }
            m = m + 1;
        }
        let mut scratch_edges: Vec<(GlobalProcedureIndex, GlobalProcedureIndex)> = Vec::new();
        let mut scratch_phantoms: Vec<PhantomCall> = Vec::new();
        let mut m: usize = 0;
        while m < hwm
            invariant
                resolver.all() == mods,
                resolver.spec_graph() == gr,
                gr == s1,
                *self == s1,
                g0 == *old(self),
                g0.spec_pending().len() > 0,
                s1.wf(),
                s1.spec_pending().len() == 0,
                s1.spec_modules() == g0.spec_modules(),
                s1.spec_topo().len() == 0,
                s1.spec_phantoms() == g0.spec_phantoms(),
                mods == g0.spec_modules() + g0.spec_pending(),
                resolver.wf(),
                gr.wf(),
                gr.spec_kernel_index() matches Some(k) ==> k.0 < mods.len(),
                forall|m2: int, i: int, j: int| #![trigger invocation_outcome(gr, mods, m2, i, j)] #![trigger invocation_outcome(g0, mods, m2, i, j)]
                    invocation_outcome(gr, mods, m2, i, j) == invocation_outcome(g0, mods, m2, i, j),
                same_roots_and_kernel(gr, g0),
                forall|m2: int| #[trigger] module_resolves(gr, mods, m2) == module_resolves(g0, mods, m2),
                from == hwm as int,
                total == mods.len(),
                hwm <= total,
                m <= hwm,
                forall|m2: int| (from <= m2 < total || 0 <= m2 < m) ==> #[trigger] module_resolves(g0, mods, m2),
            decreases hwm - m,
        {
            match resolver.check_module(m, &mut scratch_edges, &mut scratch_phantoms) {
                Ok(()) => {},
                Err(e) => {
                    proof {
                        assert(!module_resolves(g0, mods, m as int));
                        assert(!all_resolve(g0, mods));
                        let (i, j) = choose|i: int, j: int| is_invocation(mods, m as int, i, j)
                            && #[trigger] invocation_outcome(gr, mods, m as int, i, j) == Err::<ResolvedTarget, AssemblyError>(e);
                        assert(invocation_outcome(g0, mods, m as int, i, j) == Err::<ResolvedTarget, AssemblyError>(e));
                    }
                    return Err(e);
                },
            }
            m = m + 1;
        }
        proof {
            assert(all_resolve(g0, mods));
        }
        let mut pending = resolver.pending;
        self.modules.append(&mut pending);
        let ghost phantoms_before = self.phantoms@;
        self.phantoms.append(&mut phantoms);
        proof {
            assert(self.modules@ =~= mods);
            assert forall|k: int| 0 <= k < self.modules@.len() implies module_wf(#[trigger] self.modules@[k]) by {
                assert(self.modules@[k] == mods[k]);
            }
            assert(self.spec_roots() == g0.spec_roots());
            assert(g0.spec_phantoms().is_prefix_of(self.phantoms@));
        }
        let self_call = self.add_edges(&edges);
        proof {
            assert forall|u: GlobalProcedureIndex, v: GlobalProcedureIndex|
                edges@.contains((u, v)) <==> #[trigger] new_edge(g0, mods, from, u, v) by {
                if edges@.contains((u, v)) {
                    let m2 = choose|m2: int| from <= m2 < total && #[trigger] module_edge(g0, mods, m2, u, v);
                    assert(new_edge(g0, mods, from, u, v));
                }
                if new_edge(g0, mods, from, u, v) {
                    let m2 = choose|m2: int| from <= m2 < mods.len() && #[trigger] module_edge(g0, mods, m2, u, v);
                    assert(edges@.contains((u, v)));
                }
            }
            assert forall|u: GlobalProcedureIndex, v: GlobalProcedureIndex| #[trigger] has_edge(self.spec_callgraph()@, u, v)
                <==> analysed_edge(g0.spec_callgraph()@, g0, mods, from, u, v) by {
                assert(has_edge(g1, u, v) == has_edge(g0.spec_callgraph()@, u, v));
                assert(edges@.contains((u, v)) == new_edge(g0, mods, from, u, v));
            }
            assert forall|x: GlobalProcedureIndex| #[trigger] self.spec_callgraph()@.dom().contains(x)
                <==> analysed_node(g0.spec_callgraph()@, g0, mods, from, x) by {
                assert(g1.dom().contains(x) == (g0.spec_callgraph()@.dom().contains(x) || is_new_node(mods, from, x)));
                if node_among(edges@, edges@.len() as int, x) {
                    let k = choose|k: int| 0 <= k < edges@.len() && (#[trigger] edges@[k]).0 != edges@[k].1 && (edges@[k].0 == x || edges@[k].1 == x);
                    let (a, b) = edges@[k];
                    assert(edges@.contains((a, b)));
                    assert(new_edge(g0, mods, from, a, b));
                }
                if exists|u: GlobalProcedureIndex| u != x && #[trigger] new_edge(g0, mods, from, u, x) {
                    let u = choose|u: GlobalProcedureIndex| u != x && #[trigger] new_edge(g0, mods, from, u, x);
                    assert(edges@.contains((u, x)));
                    let k = choose|k: int| 0 <= k < edges@.len() && edges@[k] == (u, x);
                    assert(node_among(edges@, edges@.len() as int, x));
                }
                if exists|v: GlobalProcedureIndex| x != v && #[trigger] new_edge(g0, mods, from, x, v) {
                    let v = choose|v: GlobalProcedureIndex| x != v && #[trigger] new_edge(g0, mods, from, x, v);
                    assert(edges@.contains((x, v)));
                    let k = choose|k: int| 0 <= k < edges@.len() && edges@[k] == (x, v);
                    assert(node_among(edges@, edges@.len() as int, x));
                }
            }
        }
        match self_call {
            Some(u) => {
                let mut nodes: Vec<GlobalProcedureIndex> = Vec::new();
                nodes.push(u);
                proof {
                    assert(edges@.contains((u, u)));
                    assert(new_edge(g0, mods, from, u, u));
                    assert(nodes@[0] == u);
                }
                return Err(AssemblyError::Cycle { nodes });
            },
            None => {
                proof {
                    assert forall|u: GlobalProcedureIndex| !#[trigger] new_edge(g0, mods, from, u, u) by {
                        assert(!edges@.contains((u, u)));
                    }
                }
            },
        }
        let ghost before_sort = *self;
        match self.callgraph.toposort() {
            Ok(order) => {
                self.topo = order;
                proof {
                    assert(self.spec_callgraph() == before_sort.spec_callgraph());
                    assert(recompute_outcome(g0, *self, Ok(())));
                }
                Ok(())
            },
            Err(cycle) => {
                let nodes = cycle.into_node_ids();
                proof {
                    assert(recompute_outcome(g0, *self, Err(AssemblyError::Cycle { nodes })));
                }
                Err(AssemblyError::Cycle { nodes })
            },
        }
    }

    /// Returns true if `digest` is recorded as the MAST root of a procedure of module `m`.
    fn is_root_of_module(&self, m: ModuleIndex, digest: RpoDigest) -> (r: bool)
        ensures
            r == root_of_module(self.spec_digests(), m, digest),
    {
        let mut k: usize = 0;
        while k < self.digests.len()
            invariant
                k <= self.digests@.len(),
                forall|j: int| 0 <= j < k ==> !((#[trigger] self.digests@[j]).1 == digest && self.digests@[j].0.module == m),
            decreases self.digests@.len() - k,
        {
            if self.digests[k].1 == digest && self.digests[k].0.module == m {
                return true;
            }
            k = k + 1;
        }
        false
    }

    /// Removes the module at `index`.
    ///
    /// A pending module is dropped from the pending modules. A module of the graph loses its
    /// call edges, its procedures leave the topological order, their MAST roots are forgotten,
    /// and, for the kernel module, the kernel is reset; the module itself stays in place, so that
    /// the indices of the others stay valid, unless it comes last.
    pub fn remove_module(&mut self, index: ModuleIndex)
        requires
            old(self).wf(),
            index.0 < old(self).spec_modules().len() + old(self).spec_pending().len(),
        ensures
            final(self).wf(),
            index.0 >= old(self).spec_modules().len() ==> {
                &&& final(self).spec_pending() == old(self).spec_pending().remove(index.0 - old(self).spec_modules().len())
                &&& final(self).spec_modules() == old(self).spec_modules()
                &&& same_analysis(*final(self), *old(self))
                &&& final(self).spec_kernel_index() == old(self).spec_kernel_index()
                &&& final(self).spec_kernel() == old(self).spec_kernel()
            },
            index.0 < old(self).spec_modules().len() ==> {
                &&& final(self).spec_pending() == old(self).spec_pending()
                &&& final(self).spec_callgraph()@ == without_module(old(self).spec_callgraph()@, index)
                &&& final(self).spec_topo() == old(self).spec_topo().filter(outside_module(index))
                &&& final(self).spec_roots() == roots_without(old(self).spec_roots(), old(self).spec_digests(), index)
                &&& final(self).spec_digests() == old(self).spec_digests().filter(digest_outside(index))
                &&& final(self).spec_phantoms() == old(self).spec_phantoms()
                &&& final(self).spec_kernel_index() == (if old(self).spec_kernel_index() == Some(index) { None } else { old(self).spec_kernel_index() })
                &&& final(self).spec_kernel() == (if old(self).spec_kernel_index() == Some(index) { Seq::empty() } else { old(self).spec_kernel() })
                &&& final(self).spec_modules() == (if index.0 == old(self).spec_modules().len() - 1 { old(self).spec_modules().drop_last() } else { old(self).spec_modules() })
            },
    {
        let pending_offset = self.modules.len();
        if index.as_usize() >= pending_offset {
            self.pending.remove(index.as_usize() - pending_offset);
            proof {
                assert forall|k: int| 0 <= k < self.pending@.len() implies module_wf(#[trigger] self.pending@[k]) by {
                    if k < index.0 - pending_offset {
                        assert(self.pending@[k] == old(self).pending@[k]);
                    } else {
                        assert(self.pending@[k] == old(self).pending@[k + 1]);
                    }
                }
                assert(self.spec_roots() == old(self).spec_roots());
                assert(self.spec_callgraph().wf());
            }
            return;
        }

        self.callgraph.remove_edges_for_module(index);

        // The topological order, without the module's procedures.
        let ghost p = outside_module(index);
        let mut topo: Vec<GlobalProcedureIndex> = Vec::new();
        let mut i: usize = 0;
        while i < self.topo.len()
            invariant
                p == outside_module(index),
                i <= self.topo@.len(),
                topo@ == self.topo@.take(i as int).filter(p),
            decreases self.topo@.len() - i,
        {
            proof {
                lemma_filter_take(self.topo@, p, i as int);
            }
            if self.topo[i].module != index {
                topo.push(self.topo[i]);
            }
            i = i + 1;
        }
        proof {
            assert(self.topo@.take(self.topo@.len() as int) =~= self.topo@);
        }
        self.topo = topo;

        // The bindings of MAST roots, without the module's procedures on roots recorded for them.
        let ghost digests = self.spec_digests();
        let ghost roots0 = self.spec_roots();
        let mut roots: Vec<(RpoDigest, Vec<GlobalProcedureIndex>)> = Vec::new();
        let mut k: usize = 0;
        while k < self.roots.len()
            invariant
                p == outside_module(index),
                digests == self.spec_digests(),
                roots0 == self.spec_roots(),
                roots0.len() == self.roots@.len(),
                k <= self.roots@.len(),
                roots@.map_values(|e: (RpoDigest, Vec<GlobalProcedureIndex>)| (e.0, e.1@)) == roots_without(roots0.take(k as int), digests, index),
            decreases self.roots@.len() - k,
        {
            let digest = self.roots[k].0;
            let ghost entry = roots0[k as int];
            proof {
                assert(entry == (self.roots@[k as int].0, self.roots@[k as int].1@));
                assert(roots0.take(k + 1).drop_last() =~= roots0.take(k as int));
                assert(roots0.take(k + 1).last() == entry);
            }
            let touched = self.is_root_of_module(index, digest);
            let mut gids: Vec<GlobalProcedureIndex> = Vec::new();
            let mut j: usize = 0;
            while j < self.roots[k].1.len()
                invariant
                    p == outside_module(index),
                    k < self.roots@.len(),
                    entry.1 == self.roots@[k as int].1@,
                    j <= entry.1.len(),
                    touched ==> gids@ == entry.1.take(j as int).filter(p),
                    !touched ==> gids@ == entry.1.take(j as int),
                decreases entry.1.len() - j,
            {
                proof {
                    lemma_filter_take(entry.1, p, j as int);
                    assert(entry.1.take(j + 1) =~= entry.1.take(j as int).push(entry.1[j as int]));
                }
                let g = self.roots[k].1[j];
                if !touched || g.module != index {
                    gids.push(g);
                }
                j = j + 1;
            }
            proof {
                assert(entry.1.take(entry.1.len() as int) =~= entry.1);
            }
            let ghost before = roots@;
            if gids.len() > 0 {
                roots.push((digest, gids));
                proof {
                    assert(roots@.map_values(|e: (RpoDigest, Vec<GlobalProcedureIndex>)| (e.0, e.1@))
                        =~= before.map_values(|e: (RpoDigest, Vec<GlobalProcedureIndex>)| (e.0, e.1@)).push((digest, roots@.last().1@)));
                }
            }
            k = k + 1;
        }
        proof {
            assert(roots0.take(roots0.len() as int) =~= roots0);
            lemma_roots_without_nonempty(roots0, digests, index);
        }
        self.roots = roots;

        // The recorded roots, without those of the module's procedures.
        let ghost q = digest_outside(index);
        let mut kept: Vec<(GlobalProcedureIndex, RpoDigest)> = Vec::new();
        let mut d: usize = 0;
        while d < self.digests.len()
            invariant
                q == digest_outside(index),
                d <= self.digests@.len(),
                kept@ == self.digests@.take(d as int).filter(q),
            decreases self.digests@.len() - d,
        {
            proof {
                lemma_filter_take(self.digests@, q, d as int);
            }
            if self.digests[d].0.module != index {
                kept.push(self.digests[d]);
            }
            d = d + 1;
        }
        proof {
            assert(self.digests@.take(self.digests@.len() as int) =~= self.digests@);
        }
        self.digests = kept;

        let is_kernel = match self.kernel_index {
            Some(k) => k.0 == index.0,
            None => false,
        };
        if is_kernel {
            self.kernel_index = None;
            self.kernel = Vec::new();
        }

        if index.as_usize() == self.modules.len() - 1 {
            self.modules.pop();
            proof {
                assert forall|k: int| 0 <= k < self.modules@.len() implies module_wf(#[trigger] self.modules@[k]) by {
                    assert(self.modules@[k] == old(self).modules@[k]);
                }
            }
        }
    }

    /// Look up the MAST root of procedure `id`, if one is known at this point.
    pub fn get_mast_root(&self, id: GlobalProcedureIndex) -> (r: Option<&RpoDigest>)
        ensures
            r matches Some(d) ==> digest_of(self.spec_digests(), id) == Some(*d),
            r is None ==> digest_of(self.spec_digests(), id) is None,
    {
        let ghost p = entry_for(id);
        let mut k: usize = 0;
        while k < self.digests.len()
            invariant
                p == entry_for(id),
                k <= self.digests@.len(),
                position(self.digests@, p) == position_from(self.digests@, p, k as int),
            decreases self.digests@.len() - k,
        {
            if self.digests[k].0 == id {
                return Some(&self.digests[k].1);
            }
            k = k + 1;
        }
        None
    }

    /// The first procedure bound to MAST root `digest`, if any.
    pub fn get_procedure_index_by_digest(&self, digest: &RpoDigest) -> (r: Option<GlobalProcedureIndex>)
        requires
            self.wf(),
        ensures
            r == first_bound(self.spec_roots(), *digest),
    {
        let ghost p = root_entry(*digest);
        let ghost roots = self.spec_roots();
        let mut k: usize = 0;
        while k < self.roots.len()
            invariant
                p == root_entry(*digest),
                roots == self.spec_roots(),
                self.wf(),
                roots.len() == self.roots@.len(),
                k <= self.roots@.len(),
                position(roots, p) == position_from(roots, p, k as int),
            decreases self.roots@.len() - k,
        {
            proof {
                assert(roots[k as int] == (self.roots@[k as int].0, self.roots@[k as int].1@));
            }
            if self.roots[k].0 == *digest {
                return Some(self.roots[k].1[0]);
            }
            k = k + 1;
        }
        None
    }
}

/// What resolving `callee` from `caller` by [NameResolver::find] over `mods` gives.
pub open spec fn find_in(graph: ModuleGraph, mods: Seq<ThinModule>, caller: CallerInfo, callee: QualifiedProcedureName) -> Result<GlobalProcedureIndex, AssemblyError> {
    find_from(
        mods,
        graph.spec_kernel_index(),
        graph.spec_has_nonempty_kernel(),
        caller,
        caller.kind,
        caller.source_file,
        callee,
        Seq::empty(),
    )
}

/// The target that procedure `gid` resolves to: by its MAST root if that is known, else
/// `otherwise`.
pub open spec fn cached_or(graph: ModuleGraph, gid: GlobalProcedureIndex, otherwise: ResolvedTarget) -> ResolvedTarget {
    match digest_of(graph.spec_digests(), gid) {
        Some(digest) => ResolvedTarget::Cached { digest, gid: Some(gid) },
        None => otherwise,
    }
}

/// The absolute path of procedure `gid`: its name and the path of its module.
pub open spec fn absolute_path_in(mods: Seq<ThinModule>, gid: GlobalProcedureIndex) -> InvocationTarget {
    InvocationTarget::AbsoluteProcedurePath {
        name: mods[gid.module.0 as int].procedures@[gid.index.0 as int].name,
        path: mods[gid.module.0 as int].path,
    }
}

/// The module in whose scope a local name is resolved for `caller`: the kernel for a
/// `syscall`, else the caller's own module.
pub open spec fn scope_of(graph: ModuleGraph, caller: CallerInfo) -> Option<ModuleIndex> {
    if caller.kind == InvokeKind::SysCall {
        graph.spec_kernel_index()
    } else {
        Some(caller.module)
    }
}

/// What resolving the local name `callee` from `caller` by [NameResolver::resolve] over `mods` gives.
pub open spec fn resolve_name_in(graph: ModuleGraph, mods: Seq<ThinModule>, caller: CallerInfo, callee: Seq<char>) -> Result<ResolvedTarget, AssemblyError> {
    let local = match scope_of(graph, caller) {
        Some(m) => resolve_in(mods[m.0 as int], callee),
        None => None,
    };
    match local {
        Some(ResolvedProcedure::Local(index)) => {
            let gid = GlobalProcedureIndex { module: scope_of(graph, caller)->0, index };
            Ok(cached_or(graph, gid, ResolvedTarget::Exact { gid }))
        },
        Some(ResolvedProcedure::External(fqn)) => match find_in(graph, mods, caller, fqn) {
            Ok(gid) => Ok(cached_or(graph, gid, ResolvedTarget::Resolved { gid, target: absolute_path_in(mods, gid) })),
            Err(e) => Err(e),
        },
        None => Err(AssemblyError::UndefinedProcedure { span: caller.span, source_file: caller.source_file }),
    }
}

/// What resolving `target` from `caller` by [NameResolver::resolve_target] over `mods` gives. The span
/// of the target is that of the caller.
pub open spec fn resolve_target_in(graph: ModuleGraph, mods: Seq<ThinModule>, caller: CallerInfo, target: InvocationTarget) -> Result<ResolvedTarget, AssemblyError> {
    match target {
        InvocationTarget::MastRoot(root) => Ok(match first_bound(graph.spec_roots(), root) {
            Some(gid) => ResolvedTarget::Exact { gid },
            None => ResolvedTarget::Phantom(root),
        }),
        InvocationTarget::ProcedureName(callee) => resolve_name_in(graph, mods, caller, callee@),
        InvocationTarget::ProcedurePath { name, module } => match import_in(mods[caller.module.0 as int], module@) {
            Some(path) => {
                let fqn = QualifiedProcedureName { span: caller.span, module: path, name };
                match find_in(graph, mods, caller, fqn) {
                    Ok(gid) => Ok(cached_or(graph, gid, ResolvedTarget::Resolved { gid, target: absolute_path_in(mods, gid) })),
                    Err(e) => Err(e),
                }
            },
            None => Err(AssemblyError::UndefinedModule { span: caller.span, source_file: caller.source_file, path: module }),
        },
        InvocationTarget::AbsoluteProcedurePath { name, path } => {
            let fqn = QualifiedProcedureName { span: caller.span, module: path, name };
            match find_in(graph, mods, caller, fqn) {
                Ok(gid) => Ok(cached_or(graph, gid, ResolvedTarget::Exact { gid })),
                Err(e) => Err(e),
            }
        },
    }
}

/// Where invocation `j` of procedure `i` of module `m` among `mods` is made from.
pub open spec fn invocation_caller(mods: Seq<ThinModule>, m: int, i: int, j: int) -> CallerInfo {
    CallerInfo {
        span: mods[m].procedures@[i].invoked@[j].span,
        source_file: mods[m].source_file,
        module: ModuleIndex(m as u16),
        kind: mods[m].procedures@[i].invoked@[j].kind,
    }
}

/// Invocation `j` of procedure `i` of module `m` is one of `mods`.
pub open spec fn is_invocation(mods: Seq<ThinModule>, m: int, i: int, j: int) -> bool {
    &&& 0 <= m < mods.len()
    &&& 0 <= i < mods[m].procedures@.len()
    &&& 0 <= j < mods[m].procedures@[i].invoked@.len()
}

/// What invocation `j` of procedure `i` of module `m` resolves to.
pub open spec fn invocation_outcome(graph: ModuleGraph, mods: Seq<ThinModule>, m: int, i: int, j: int) -> Result<ResolvedTarget, AssemblyError> {
    resolve_target_in(graph, mods, invocation_caller(mods, m, i, j), mods[m].procedures@[i].invoked@[j].target)
}

/// The procedure that a resolved target names, if it is known.
pub open spec fn target_gid(t: ResolvedTarget) -> Option<GlobalProcedureIndex> {
    match t {
        ResolvedTarget::Exact { gid } => Some(gid),
        ResolvedTarget::Resolved { gid, .. } => Some(gid),
        ResolvedTarget::Cached { gid, .. } => gid,
        ResolvedTarget::Phantom(_) => None,
    }
}

/// The procedure `i` of module `m`, as the caller of the edges that its invocations give.
pub open spec fn edge_source(mods: Seq<ThinModule>, m: int, i: int) -> GlobalProcedureIndex {
    GlobalProcedureIndex { module: ModuleIndex(m as u16), index: ProcedureIndex(i as u16) }
}

/// A procedure of module `m` calls `v` as the invocation `j` of its procedure `i` resolves: the
/// edge `(u, v)` of the call graph that module `m` gives.
pub open spec fn module_edge(graph: ModuleGraph, mods: Seq<ThinModule>, m: int, u: GlobalProcedureIndex, v: GlobalProcedureIndex) -> bool {
    exists|i: int, j: int| {
        &&& is_invocation(mods, m, i, j)
        &&& u == edge_source(mods, m, i)
        &&& #[trigger] invocation_outcome(graph, mods, m, i, j) matches Ok(t)
        &&& target_gid(t) == Some(v)
    }
}

/// Every invocation of module `m` resolves.
pub open spec fn module_resolves(graph: ModuleGraph, mods: Seq<ThinModule>, m: int) -> bool {
    forall|i: int, j: int| is_invocation(mods, m, i, j) ==> (#[trigger] invocation_outcome(graph, mods, m, i, j)) is Ok
}

/// The results of resolution depend on a graph only through its kernel and its MAST roots.
pub open spec fn same_roots_and_kernel(a: ModuleGraph, b: ModuleGraph) -> bool {
    &&& a.spec_kernel_index() == b.spec_kernel_index()
    &&& a.spec_kernel() == b.spec_kernel()
    &&& a.spec_digests() == b.spec_digests()
    &&& a.spec_roots() == b.spec_roots()
}

/// Resolution over graphs with the same kernel and MAST roots gives the same results.
pub proof fn lemma_resolution_congruent(a: ModuleGraph, b: ModuleGraph, mods: Seq<ThinModule>, caller: CallerInfo, target: InvocationTarget)
    requires
        same_roots_and_kernel(a, b),
    ensures
        resolve_target_in(a, mods, caller, target) == resolve_target_in(b, mods, caller, target),
{
}

/// Invocation `j2` of procedure `i2` of module `m`, coming before invocation `j` of procedure
/// `i`, resolves to procedure `v`, called from `u`.
pub open spec fn edge_before(graph: ModuleGraph, mods: Seq<ThinModule>, m: int, i: int, j: int, u: GlobalProcedureIndex, v: GlobalProcedureIndex) -> bool {
    exists|i2: int, j2: int| {
        &&& (i2 < i || (i2 == i && j2 < j))
        &&& is_invocation(mods, m, i2, j2)
        &&& u == edge_source(mods, m, i2)
        &&& #[trigger] invocation_outcome(graph, mods, m, i2, j2) matches Ok(t)
        &&& target_gid(t) == Some(v)
    }
}

/// Every invocation of every module of `mods` resolves.
pub open spec fn all_resolve(graph: ModuleGraph, mods: Seq<ThinModule>) -> bool {
    forall|m: int| 0 <= m < mods.len() ==> #[trigger] module_resolves(graph, mods, m)
}

/// A module of `mods` from index `from` on gives the call-graph edge `(u, v)`.
pub open spec fn new_edge(graph: ModuleGraph, mods: Seq<ThinModule>, from: int, u: GlobalProcedureIndex, v: GlobalProcedureIndex) -> bool {
    exists|m: int| from <= m < mods.len() && #[trigger] module_edge(graph, mods, m, u, v)
}

/// `k` is a procedure, not a re-export, of a module of `mods` from index `from` on.
pub open spec fn is_new_node(mods: Seq<ThinModule>, from: int, k: GlobalProcedureIndex) -> bool {
    exists|m: int, i: int| {
        &&& from <= m < mods.len()
        &&& 0 <= i < mods[m].procedures@.len()
        &&& mods[m].procedures@[i].alias_of is None
        &&& k == #[trigger] edge_source(mods, m, i)
    }
}

/// `k` is such a procedure of a module before module `m`, or of module `m` before procedure `i`.
pub open spec fn new_node_before(mods: Seq<ThinModule>, from: int, m: int, i: int, k: GlobalProcedureIndex) -> bool {
    exists|m2: int, i2: int| {
        &&& from <= m2 < mods.len()
        &&& (m2 < m || (m2 == m && i2 < i))
        &&& 0 <= i2 < mods[m2].procedures@.len()
        &&& mods[m2].procedures@[i2].alias_of is None
        &&& k == #[trigger] edge_source(mods, m2, i2)
    }
}

/// The edges of the call graph once the modules of `mods` from `from` on are analysed: those of
/// `g`, and each new edge but a procedure's call to itself.
pub open spec fn analysed_edge(g: Graph, graph: ModuleGraph, mods: Seq<ThinModule>, from: int, u: GlobalProcedureIndex, v: GlobalProcedureIndex) -> bool {
    has_edge(g, u, v) || (new_edge(graph, mods, from, u, v) && u != v)
}

/// The nodes of the call graph once the modules of `mods` from `from` on are analysed: those of
/// `g`, their procedures, and the ends of the new edges.
pub open spec fn analysed_node(g: Graph, graph: ModuleGraph, mods: Seq<ThinModule>, from: int, x: GlobalProcedureIndex) -> bool {
    ||| g.dom().contains(x)
    ||| is_new_node(mods, from, x)
    ||| exists|u: GlobalProcedureIndex| u != x && #[trigger] new_edge(graph, mods, from, u, x)
    ||| exists|v: GlobalProcedureIndex| x != v && #[trigger] new_edge(graph, mods, from, x, v)
}

/// Resolution over graphs with the same kernel and MAST roots gives the same results for every
/// invocation, so the same edges.
pub proof fn lemma_outcomes_congruent(a: ModuleGraph, b: ModuleGraph, mods: Seq<ThinModule>)
    requires
        same_roots_and_kernel(a, b),
    ensures
        forall|m: int, i: int, j: int| #![trigger invocation_outcome(a, mods, m, i, j)] #![trigger invocation_outcome(b, mods, m, i, j)]
            invocation_outcome(a, mods, m, i, j) == invocation_outcome(b, mods, m, i, j),
        forall|m: int| #[trigger] module_resolves(a, mods, m) == module_resolves(b, mods, m),
        forall|m: int, u: GlobalProcedureIndex, v: GlobalProcedureIndex| #[trigger] module_edge(a, mods, m, u, v) == module_edge(b, mods, m, u, v),
{
    assert forall|m: int, i: int, j: int| #![trigger invocation_outcome(a, mods, m, i, j)] #![trigger invocation_outcome(b, mods, m, i, j)]
        invocation_outcome(a, mods, m, i, j) == invocation_outcome(b, mods, m, i, j) by {
        lemma_resolution_congruent(a, b, mods, invocation_caller(mods, m, i, j), mods[m].procedures@[i].invoked@[j].target);
    }
    assert forall|m: int, u: GlobalProcedureIndex, v: GlobalProcedureIndex| #[trigger] module_edge(a, mods, m, u, v) == module_edge(b, mods, m, u, v) by {
        if module_edge(a, mods, m, u, v) {
            let (i, j) = choose|i: int, j: int| {
                &&& is_invocation(mods, m, i, j)
                &&& u == edge_source(mods, m, i)
                &&& #[trigger] invocation_outcome(a, mods, m, i, j) matches Ok(t)
                &&& target_gid(t) == Some(v)
            };
            assert(invocation_outcome(b, mods, m, i, j) == invocation_outcome(a, mods, m, i, j));
        }
        if module_edge(b, mods, m, u, v) {
            let (i, j) = choose|i: int, j: int| {
                &&& is_invocation(mods, m, i, j)
                &&& u == edge_source(mods, m, i)
                &&& #[trigger] invocation_outcome(b, mods, m, i, j) matches Ok(t)
                &&& target_gid(t) == Some(v)
            };
            assert(invocation_outcome(a, mods, m, i, j) == invocation_outcome(b, mods, m, i, j));
        }
    }
}

/// Adding the edge `(c, e)` adds just that edge, and the nodes `c` and `e`.
pub proof fn lemma_has_edge_with_edge(g: Graph, c: GlobalProcedureIndex, e: GlobalProcedureIndex)
    ensures
        forall|u: GlobalProcedureIndex, v: GlobalProcedureIndex| #[trigger] has_edge(with_edge(g, c, e), u, v)
            == (has_edge(g, u, v) || (u == c && v == e)),
        forall|x: GlobalProcedureIndex| #[trigger] with_edge(g, c, e).dom().contains(x)
            == (g.dom().contains(x) || x == c || x == e),
{
    let g1 = with_node(g, e);
    let g2 = with_node(g1, c);
    assert forall|u: GlobalProcedureIndex, v: GlobalProcedureIndex| has_edge(g2, u, v) == has_edge(g, u, v) by {
        if u == e && !g.dom().contains(e) {
            assert(g1[e] =~= Seq::<GlobalProcedureIndex>::empty());
        }
        if u == c && !g1.dom().contains(c) {
            assert(g2[c] =~= Seq::<GlobalProcedureIndex>::empty());
        }
        if u != c && u != e {
            assert(g2.dom().contains(u) == g.dom().contains(u));
        }
    }
    assert forall|u: GlobalProcedureIndex, v: GlobalProcedureIndex| #[trigger] has_edge(with_edge(g, c, e), u, v)
        == (has_edge(g, u, v) || (u == c && v == e)) by {
        if !g2[c].contains(e) {
            let r = g2.insert(c, g2[c].push(e));
            assert(r == with_edge(g, c, e));
            if u == c {
                assert(r[c].contains(v) == (g2[c].contains(v) || v == e)) by {
                    if r[c].contains(v) {
                        let k = choose|k: int| 0 <= k < r[c].len() && r[c][k] == v;
                        if k < g2[c].len() {
                            assert(g2[c][k] == v);
                        }
                    }
                    if g2[c].contains(v) {
                        let k = choose|k: int| 0 <= k < g2[c].len() && g2[c][k] == v;
                        assert(r[c][k] == v);
                    }
                    if v == e {
                        assert(r[c][g2[c].len() as int] == v);
                    }
                }
                assert(has_edge(g2, c, v) == (g2.dom().contains(c) && g2[c].contains(v)));
            }
        } else {
            assert(has_edge(g2, c, e));
        }
    }
}

/// Some edge of `edges` below position `k`, not a call to itself, is `(u, v)`.
pub open spec fn edge_among(edges: Seq<(GlobalProcedureIndex, GlobalProcedureIndex)>, k: int, u: GlobalProcedureIndex, v: GlobalProcedureIndex) -> bool {
    exists|k2: int| 0 <= k2 < k && #[trigger] edges[k2] == (u, v) && u != v
}

/// Some edge of `edges` below position `k`, not a call to itself, starts or ends at `x`.
pub open spec fn node_among(edges: Seq<(GlobalProcedureIndex, GlobalProcedureIndex)>, k: int, x: GlobalProcedureIndex) -> bool {
    exists|k2: int| 0 <= k2 < k && (#[trigger] edges[k2]).0 != edges[k2].1 && (edges[k2].0 == x || edges[k2].1 == x)
}

/// What recomputing graph `old` gives, when it has pending modules: the graph `new` and the
/// result `r`.
///
/// The pending modules leave the pending set. If an invocation of a module (pending ones first)
/// does not resolve, the result is such an error. Otherwise the pending modules join the graph;
/// the call graph gains a node for each of their procedures and an edge for each of their
/// resolved invocations, a call of a procedure to itself excepted; the result is an error naming
/// such a call, or a cycle of the call graph, if there is one, and otherwise the call graph's
/// topological order is recorded.
pub open spec fn recompute_outcome(old: ModuleGraph, new: ModuleGraph, r: Result<(), AssemblyError>) -> bool {
    let mods = old.spec_modules() + old.spec_pending();
    let from = old.spec_modules().len() as int;
    &&& new.spec_pending().len() == 0
    &&& same_roots_and_kernel(new, old)
    &&& old.spec_phantoms().is_prefix_of(new.spec_phantoms())
    &&& forall|k: int| old.spec_phantoms().len() <= k < new.spec_phantoms().len()
        ==> first_bound(old.spec_roots(), #[trigger] new.spec_phantoms()[k].callee) is None
    &&& r is Err ==> new.spec_topo().len() == 0
    &&& !all_resolve(old, mods) ==> {
        &&& new.spec_modules() == old.spec_modules()
        &&& r matches Err(e) && exists|m: int, i: int, j: int| is_invocation(mods, m, i, j)
            && #[trigger] invocation_outcome(old, mods, m, i, j) == Err::<ResolvedTarget, AssemblyError>(e)
    }
    &&& all_resolve(old, mods) ==> {
        &&& new.spec_modules() == mods
        &&& forall|u: GlobalProcedureIndex, v: GlobalProcedureIndex| #[trigger] has_edge(new.spec_callgraph()@, u, v)
            <==> analysed_edge(old.spec_callgraph()@, old, mods, from, u, v)
        &&& forall|x: GlobalProcedureIndex| #[trigger] new.spec_callgraph()@.dom().contains(x)
            <==> analysed_node(old.spec_callgraph()@, old, mods, from, x)
        &&& r is Ok <==> (!(exists|u: GlobalProcedureIndex| #[trigger] new_edge(old, mods, from, u, u))
            && exists|s: Seq<GlobalProcedureIndex>| is_topological_order(new.spec_callgraph()@, s))
        &&& r is Ok ==> is_topological_order(new.spec_callgraph()@, new.spec_topo())
        &&& r matches Err(e) ==> (e matches AssemblyError::Cycle { nodes } && (
            (nodes@.len() == 1 && new_edge(old, mods, from, nodes@[0], nodes@[0]))
            || (is_cycle_witness(new.spec_callgraph()@, nodes@.to_set()) && strictly_sorted(nodes@))))
    }
}

/// Resolves names over the modules of a graph and the modules pending their addition to it.
pub struct NameResolver<'a> {
    graph: &'a ModuleGraph,
    pending: Vec<ThinModule>,
}

impl<'a> NameResolver<'a> {
    /// The graph whose modules come first.
    pub closed spec fn spec_graph(&self) -> ModuleGraph {
        *self.graph
    }

    /// The modules that names resolve over: those of the graph, then the pending ones, each at
    /// its module index.
    pub closed spec fn all(&self) -> Seq<ThinModule> {
        self.graph.modules@ + self.pending@
    }

    /// Every module has an index, and each of its procedures a local index.
    pub open spec fn wf(&self) -> bool {
        &&& self.all().len() <= u16::MAX + 1
        &&& forall|k: int| 0 <= k < self.all().len() ==> module_wf(#[trigger] self.all()[k])
    }

    /// A resolver over the modules of `graph`, with no pending module yet.
    pub fn new(graph: &'a ModuleGraph) -> (r: Self)
        ensures
            r.spec_graph() == *graph,
            r.all() == graph.spec_modules(),
    {
        let r = NameResolver { graph, pending: Vec::new() };
        proof {
            assert(r.all() =~= graph.spec_modules());
        }
        r
    }

    /// Adds `module` after the modules that names resolve over, as pending its addition to the
    /// graph.
    pub fn push_pending(&mut self, module: ThinModule)
        ensures
            final(self).spec_graph() == old(self).spec_graph(),
            final(self).all() == old(self).all().push(module),
    {
        let ghost m = module;
        self.pending.push(module);
        proof {
            assert(self.all() =~= old(self).all().push(m));
        }
    }

    /// The module at `module` among all the modules.
    fn thin_module(&self, module: ModuleIndex) -> (r: &ThinModule)
        requires
            module.0 < self.all().len(),
        ensures
            *r == self.all()[module.0 as int],
    {
        let pending_offset = self.graph.modules.len();
        let module_index = module.as_usize();
        if module_index >= pending_offset {
            &self.pending[module_index - pending_offset]
        } else {
            &self.graph.modules[module_index]
        }
    }

    /// Resolves `callee` in the scope of the module at `module`.
    pub fn resolve_local_with_index(&self, module: ModuleIndex, callee: &String) -> (r: Option<ResolvedProcedure>)
        requires
            self.wf(),
            module.0 < self.all().len(),
        ensures
            r == resolve_in(self.all()[module.0 as int], callee@),
    {
        self.thin_module(module).resolve(callee)
    }

    /// The source file of the module at `module`.
    pub fn module_source(&self, module: ModuleIndex) -> (r: Option<Arc<SourceFile>>)
        requires
            module.0 < self.all().len(),
        ensures
            r == self.all()[module.0 as int].source_file,
    {
        clone_source_file(&self.thin_module(module).source_file)
    }

    /// The path of the module at `module`.
    pub fn path_of(&self, module: ModuleIndex) -> (r: String)
        requires
            module.0 < self.all().len(),
        ensures
            r == self.all()[module.0 as int].path,
    {
        self.thin_module(module).path.clone()
    }

    /// The index of the first module, among all the modules, at path `path`.
    pub fn find_module_index(&self, path: &String) -> (r: Option<ModuleIndex>)
        requires
            self.wf(),
        ensures
            r == match position(self.all(), module_at(path@)) {
                Some(k) => Some(ModuleIndex(k as u16)),
                None => None,
            },
    {
        let ghost p = module_at(path@);
        let ghost mods = self.all();
        let total = self.graph.modules.len() + self.pending.len();
        let mut k: usize = 0;
        while k < total
            invariant
                p == module_at(path@),
                mods == self.all(),
                total == mods.len(),
                mods.len() <= u16::MAX + 1,
                k <= total,
                position(mods, p) == position_from(mods, p, k as int),
            decreases total - k,
        {
            let m = self.thin_module(ModuleIndex::new(k));
            if m.path == *path {
                return Some(ModuleIndex::new(k));
            }
            k = k + 1;
        }
        None
    }

    /// Returns true if `visited` holds a name with the module path and local name of `name`.
    fn visited_contains(visited: &Vec<QualifiedProcedureName>, name: &QualifiedProcedureName) -> (r: bool)
        ensures
            r == keys_of(visited@).contains(qualified_key(*name)),
    {
        let mut i: usize = 0;
        while i < visited.len()
            invariant
                i <= visited@.len(),
                forall|j: int| 0 <= j < i ==> keys_of(visited@)[j] != qualified_key(*name),
            decreases visited@.len() - i,
        {
            if visited[i].module == name.module && visited[i].name == name.name {
                proof {
                    assert(keys_of(visited@)[i as int] == qualified_key(*name));
                }
                return true;
            }
            i = i + 1;
        }
        false
    }

    /// Resolves `callee` to its concrete definition, following re-exports, from the perspective
    /// of `caller`.
    ///
    /// The definition that a `syscall` reaches must be a procedure of the kernel module: another
    /// is an invalid syscall target, and a name it cannot resolve is an undefined kernel
    /// procedure. Following a re-exported name that was followed before is reported as a
    /// recursive alias.
    pub fn find(&self, caller: &CallerInfo, callee: &QualifiedProcedureName) -> (r: Result<GlobalProcedureIndex, AssemblyError>)
        requires
            self.wf(),
        ensures
            r == find_from(
                self.all(),
                self.spec_graph().spec_kernel_index(),
                self.spec_graph().spec_has_nonempty_kernel(),
                *caller,
                caller.kind,
                caller.source_file,
                *callee,
                Seq::empty(),
            ),
    {
        let kind = caller.kind;
        let nonempty_kernel = self.graph.kernel_index.is_some() || self.graph.kernel.len() > 0;
        let ghost mods = self.all();
        let ghost outcome = find_from(
            mods,
            self.graph.kernel_index,
            nonempty_kernel,
            *caller,
            kind,
            caller.source_file,
            *callee,
            Seq::empty(),
        );
        let mut source_file = clone_source_file(&caller.source_file);
        let mut current = callee.clone();
        let mut visited: Vec<QualifiedProcedureName> = Vec::new();
        proof {
            assert(keys_of(visited@) =~= Seq::<(Seq<char>, Seq<char>)>::empty());
        }
        loop
            invariant
                self.wf(),
                mods == self.all(),
                nonempty_kernel == self.spec_graph().spec_has_nonempty_kernel(),
                kind == (caller.kind),
                outcome == find_from(mods, self.graph.kernel_index, nonempty_kernel, *caller, kind, caller.source_file, *callee, Seq::empty()),
                outcome == find_from(mods, self.graph.kernel_index, nonempty_kernel, *caller, kind, source_file, current, keys_of(visited@)),
            decreases unvisited(mods, keys_of(visited@)),
        {
            let module_index = match self.find_module_index(&current.module) {
                Some(k) => k,
                None => {
                    return Err(AssemblyError::UndefinedModule { span: current.span, source_file, path: current.module });
                },
            };
            let ghost m = module_index.0 as int;
            proof {
                lemma_position_from(mods, module_at(current.module@), 0);
                lemma_position_from(mods[m].procedures@, procedure_named(current.name@), 0);
            }
            match self.resolve_local_with_index(module_index, &current.name) {
                Some(ResolvedProcedure::Local(index)) => {
                    let id = GlobalProcedureIndex { module: module_index, index };
                    if kind == InvokeKind::SysCall {
                        let in_kernel = match self.graph.kernel_index {
                            Some(k) => k.0 == module_index.0,
                            None => false,
                        };
                        if !in_kernel {
                            return Err(AssemblyError::InvalidSysCallTarget {
                                span: current.span,
                                source_file,
                                callee: current,
                            });
                        }
                    }
                    return Ok(id);
                },
                Some(ResolvedProcedure::External(fqn)) => {
                    if Self::visited_contains(&visited, &fqn) {
                        return Err(AssemblyError::RecursiveAlias { source_file: self.module_source(module_index), name: fqn });
                    }
                    let ghost i = position(mods[m].procedures@, procedure_named(current.name@))->0;
                    proof {
                        lemma_unvisited_push(mods, keys_of(visited@), qualified_key(fqn), m, i);
                        lemma_position_from(mods, module_at(fqn.module@), 0);
                    }
                    let ghost before = visited@;
                    visited.push(fqn.clone());
                    proof {
                        assert(keys_of(visited@) =~= keys_of(before).push(qualified_key(fqn)));
                    }
                    source_file = match self.find_module_index(&fqn.module) {
                        Some(k) => self.module_source(k),
                        None => None,
                    };
                    current = fqn;
                },
                None => {
                    if kind == InvokeKind::SysCall {
                        return Err(AssemblyError::UndefinedKernelProcedure {
                            span: caller.span,
                            source_file: clone_source_file(&caller.source_file),
                            nonempty_kernel,
                        });
                    }
                    return Err(AssemblyError::UndefinedProcedure {
                        span: caller.span,
                        source_file: clone_source_file(&caller.source_file),
                    });
                },
            }
        }
    }

    /// Resolves every invocation made by the procedures of module `m`, in order, stopping at the
    /// first error; records the call-graph edge that each gives, and the calls to procedures
    /// known only by their MAST root.
    fn check_module(
        &self,
        m: usize,
        edges: &mut Vec<(GlobalProcedureIndex, GlobalProcedureIndex)>,
        phantoms: &mut Vec<PhantomCall>,
    ) -> (r: Result<(), AssemblyError>)
        requires
            self.wf(),
            self.spec_graph().wf(),
            m < self.all().len(),
            self.spec_graph().spec_kernel_index() matches Some(k) ==> k.0 < self.all().len(),
        ensures
            r is Ok <==> module_resolves(self.spec_graph(), self.all(), m as int),
            r matches Err(e) ==> exists|i: int, j: int| is_invocation(self.all(), m as int, i, j)
                && #[trigger] invocation_outcome(self.spec_graph(), self.all(), m as int, i, j) == Err::<ResolvedTarget, AssemblyError>(e),
            r is Ok ==> forall|u: GlobalProcedureIndex, v: GlobalProcedureIndex|
                #[trigger] final(edges)@.contains((u, v)) <==> old(edges)@.contains((u, v)) || module_edge(self.spec_graph(), self.all(), m as int, u, v),
            old(phantoms)@.is_prefix_of(final(phantoms)@),
            forall|k: int| old(phantoms)@.len() <= k < final(phantoms)@.len()
                ==> first_bound(self.spec_graph().spec_roots(), #[trigger] final(phantoms)@[k].callee) is None,
    {
        let ghost g = self.spec_graph();
        let ghost mods = self.all();
        let ghost mm = m as int;
        let ghost edges0 = edges@;
        let ghost phantoms0 = phantoms@;
        let module = self.thin_module(ModuleIndex::new(m));
        let mut i: usize = 0;
        while i < module.procedures.len()
            invariant
                g == self.spec_graph(),
                mods == self.all(),
                self.wf(),
                g.wf(),
                mm == m as int,
                m < mods.len(),
                g.spec_kernel_index() matches Some(k) ==> k.0 < mods.len(),
                *module == mods[mm],
                i <= module.procedures@.len(),
                forall|i2: int, j2: int| i2 < i && is_invocation(mods, mm, i2, j2) ==> (#[trigger] invocation_outcome(g, mods, mm, i2, j2)) is Ok,
                forall|u: GlobalProcedureIndex, v: GlobalProcedureIndex|
                    #[trigger] edges@.contains((u, v)) <==> edges0.contains((u, v)) || edge_before(g, mods, mm, i as int, 0, u, v),
                phantoms0.is_prefix_of(phantoms@),
                phantoms0 == old(phantoms)@,
                forall|k: int| phantoms0.len() <= k < phantoms@.len() ==> first_bound(g.spec_roots(), #[trigger] phantoms@[k].callee) is None,
            decreases module.procedures@.len() - i,
        {
            let procedure = &module.procedures[i];
            let mut j: usize = 0;
            while j < procedure.invoked.len()
                invariant
                    g == self.spec_graph(),
                    mods == self.all(),
                    self.wf(),
                    g.wf(),
                    mm == m as int,
                    m < mods.len(),
                    g.spec_kernel_index() matches Some(k) ==> k.0 < mods.len(),
                    *module == mods[mm],
                    i < module.procedures@.len(),
                    *procedure == module.procedures@[i as int],
                    j <= procedure.invoked@.len(),
                    forall|i2: int, j2: int| (i2 < i || (i2 == i && j2 < j)) && is_invocation(mods, mm, i2, j2)
                        ==> (#[trigger] invocation_outcome(g, mods, mm, i2, j2)) is Ok,
                    forall|u: GlobalProcedureIndex, v: GlobalProcedureIndex|
                        #[trigger] edges@.contains((u, v)) <==> edges0.contains((u, v)) || edge_before(g, mods, mm, i as int, j as int, u, v),
                    phantoms0.is_prefix_of(phantoms@),
                    phantoms0 == old(phantoms)@,
                    forall|k: int| phantoms0.len() <= k < phantoms@.len() ==> first_bound(g.spec_roots(), #[trigger] phantoms@[k].callee) is None,
                decreases procedure.invoked@.len() - j,
            {
                let invoke = &procedure.invoked[j];
                let caller = CallerInfo {
                    span: invoke.span,
                    source_file: clone_source_file(&module.source_file),
                    module: ModuleIndex::new(m),
                    kind: invoke.kind,
                };
                proof {
                    assert(caller == invocation_caller(mods, mm, i as int, j as int));
                    assert(is_invocation(mods, mm, i as int, j as int));
                }
                let resolved = match self.resolve_target(&caller, &invoke.target) {
                    Ok(t) => t,
                    Err(e) => {
                        proof {
                            assert(invocation_outcome(g, mods, mm, i as int, j as int) == Err::<ResolvedTarget, AssemblyError>(e));
                        }
                        return Err(e);
                    },
                };
                let ghost outcome = resolved;
                proof {
                    assert(invocation_outcome(g, mods, mm, i as int, j as int) == Ok::<ResolvedTarget, AssemblyError>(outcome));
                }
                if let ResolvedTarget::Phantom(root) = &resolved {
                    let ghost before = phantoms@;
                    phantoms.push(PhantomCall { span: invoke.span, source_file: clone_source_file(&module.source_file), callee: *root });
                    proof {
                        assert(before.is_prefix_of(phantoms@));
                        assert(phantoms0.is_prefix_of(phantoms@)) by {
                            assert forall|k: int| 0 <= k < phantoms0.len() implies phantoms0[k] == phantoms@[k] by {
                                assert(phantoms0[k] == before[k]);
                            }
                        }
                    }
                }
                let ghost edges_before = edges@;
                let gid = GlobalProcedureIndex { module: ModuleIndex::new(m), index: ProcedureIndex::new(i) };
                match resolved.into_global_id() {
                    Some(callee) => {
                        edges.push((gid, callee));
                        proof {
                            assert forall|u: GlobalProcedureIndex, v: GlobalProcedureIndex|
                                #[trigger] edges@.contains((u, v)) <==> edges0.contains((u, v)) || edge_before(g, mods, mm, i as int, j + 1, u, v) by {
                                if edges@.contains((u, v)) && !edges_before.contains((u, v)) {
                                    let k = choose|k: int| 0 <= k < edges@.len() && edges@[k] == (u, v);
                                    if k < edges_before.len() {
                                        assert(edges_before[k] == (u, v));
                                    }
                                    assert(invocation_outcome(g, mods, mm, i as int, j as int) matches Ok(t) && target_gid(t) == Some(v));
                                }
                                if edges_before.contains((u, v)) {
                                    let k = choose|k: int| 0 <= k < edges_before.len() && edges_before[k] == (u, v);
                                    assert(edges@[k] == (u, v));
                                }
                                if edge_before(g, mods, mm, i as int, j + 1, u, v) && !edge_before(g, mods, mm, i as int, j as int, u, v) {
                                    let (i2, j2) = choose|i2: int, j2: int| {
                                        &&& (i2 < i || (i2 == i && j2 < j + 1))
                                        &&& is_invocation(mods, mm, i2, j2)
                                        &&& u == edge_source(mods, mm, i2)
                                        &&& #[trigger] invocation_outcome(g, mods, mm, i2, j2) matches Ok(t)
                                        &&& target_gid(t) == Some(v)
                                    };
                                    assert(i2 == i && j2 == j);
                                    assert(edges@[edges@.len() - 1] == (u, v));
                                }
                                if edge_before(g, mods, mm, i as int, j as int, u, v) {
                                    let (i2, j2) = choose|i2: int, j2: int| {
                                        &&& (i2 < i || (i2 == i && j2 < j))
                                        &&& is_invocation(mods, mm, i2, j2)
                                        &&& u == edge_source(mods, mm, i2)
                                        &&& #[trigger] invocation_outcome(g, mods, mm, i2, j2) matches Ok(t)
                                        &&& target_gid(t) == Some(v)
                                    };
                                    assert(edge_before(g, mods, mm, i as int, j + 1, u, v));
                                }
                            }
                        }
                    },
                    None => {
                        proof {
                            assert forall|u: GlobalProcedureIndex, v: GlobalProcedureIndex|
                                #[trigger] edges@.contains((u, v)) <==> edges0.contains((u, v)) || edge_before(g, mods, mm, i as int, j + 1, u, v) by {
                                if edge_before(g, mods, mm, i as int, j + 1, u, v) {
                                    let (i2, j2) = choose|i2: int, j2: int| {
                                        &&& (i2 < i || (i2 == i && j2 < j + 1))
                                        &&& is_invocation(mods, mm, i2, j2)
                                        &&& u == edge_source(mods, mm, i2)
                                        &&& #[trigger] invocation_outcome(g, mods, mm, i2, j2) matches Ok(t)
                                        &&& target_gid(t) == Some(v)
                                    };
                                    assert(!(i2 == i && j2 == j));
                                    assert(edge_before(g, mods, mm, i as int, j as int, u, v));
                                }
                                if edge_before(g, mods, mm, i as int, j as int, u, v) {
                                    let (i2, j2) = choose|i2: int, j2: int| {
                                        &&& (i2 < i || (i2 == i && j2 < j))
                                        &&& is_invocation(mods, mm, i2, j2)
                                        &&& u == edge_source(mods, mm, i2)
                                        &&& #[trigger] invocation_outcome(g, mods, mm, i2, j2) matches Ok(t)
                                        &&& target_gid(t) == Some(v)
                                    };
                                    assert(edge_before(g, mods, mm, i as int, j + 1, u, v));
                                }
                            }
                        }
                    },
                }
                j = j + 1;
            }
            proof {
                assert forall|u: GlobalProcedureIndex, v: GlobalProcedureIndex|
                    edge_before(g, mods, mm, i as int, j as int, u, v) <==> edge_before(g, mods, mm, i + 1, 0, u, v) by {
                    if edge_before(g, mods, mm, i as int, j as int, u, v) {
                        let (i2, j2) = choose|i2: int, j2: int| {
                            &&& (i2 < i || (i2 == i && j2 < j))
                            &&& is_invocation(mods, mm, i2, j2)
                            &&& u == edge_source(mods, mm, i2)
                            &&& #[trigger] invocation_outcome(g, mods, mm, i2, j2) matches Ok(t)
                            &&& target_gid(t) == Some(v)
                        };
                        assert(edge_before(g, mods, mm, i + 1, 0, u, v));
                    }
                    if edge_before(g, mods, mm, i + 1, 0, u, v) {
                        let (i2, j2) = choose|i2: int, j2: int| {
                            &&& (i2 < i + 1 || (i2 == i + 1 && j2 < 0))
                            &&& is_invocation(mods, mm, i2, j2)
                            &&& u == edge_source(mods, mm, i2)
                            &&& #[trigger] invocation_outcome(g, mods, mm, i2, j2) matches Ok(t)
                            &&& target_gid(t) == Some(v)
                        };
                        assert(edge_before(g, mods, mm, i as int, j as int, u, v));
                    }
                }
            }
            i = i + 1;
        }
        proof {
            assert forall|u: GlobalProcedureIndex, v: GlobalProcedureIndex|
                edge_before(g, mods, mm, i as int, 0, u, v) <==> module_edge(g, mods, mm, u, v) by {
                if module_edge(g, mods, mm, u, v) {
                    let (i2, j2) = choose|i2: int, j2: int| {
                        &&& is_invocation(mods, mm, i2, j2)
                        &&& u == edge_source(mods, mm, i2)
                        &&& #[trigger] invocation_outcome(g, mods, mm, i2, j2) matches Ok(t)
                        &&& target_gid(t) == Some(v)
                    };
                    assert(edge_before(g, mods, mm, i as int, 0, u, v));
                }
            }
        }
        Ok(())
    }

    /// The resolved target for procedure `gid`: by its MAST root if that is known, else by
    /// `otherwise`.
    fn cached_or_else(&self, gid: GlobalProcedureIndex, otherwise: ResolvedTarget) -> (r: ResolvedTarget)
        ensures
            r == cached_or(self.spec_graph(), gid, otherwise),
    {
        match self.graph.get_mast_root(gid) {
            Some(digest) => ResolvedTarget::Cached { digest: *digest, gid: Some(gid) },
            None => otherwise,
        }
    }

    /// The absolute path of procedure `gid`, which a module defines.
    fn absolute_path(&self, gid: GlobalProcedureIndex) -> (r: InvocationTarget)
        requires
            gid.module.0 < self.all().len(),
            gid.index.0 < self.all()[gid.module.0 as int].procedures@.len(),
        ensures
            r == absolute_path_in(self.all(), gid),
    {
        let module = self.thin_module(gid.module);
        InvocationTarget::AbsoluteProcedurePath { name: module.get_name(gid.index).clone(), path: module.path.clone() }
    }

    /// Resolves a local name `callee` in the scope of the caller (the kernel for a `syscall`).
    pub fn resolve_local(&self, caller: &CallerInfo, callee: &String) -> (r: Option<ResolvedProcedure>)
        requires
            self.wf(),
            caller.module.0 < self.all().len(),
            self.spec_graph().spec_kernel_index() matches Some(k) ==> k.0 < self.all().len(),
        ensures
            r == match scope_of(self.spec_graph(), *caller) {
                Some(m) => resolve_in(self.all()[m.0 as int], callee@),
                None => None,
            },
    {
        let module = if caller.kind == InvokeKind::SysCall {
            match self.graph.kernel_index {
                Some(k) => k,
                None => return None,
            }
        } else {
            caller.module
        };
        self.resolve_local_with_index(module, callee)
    }

    /// Resolves the local name `callee` from `caller`: a procedure of the caller's scope is
    /// known by its MAST root if that is known, else exactly; a re-export is followed to its
    /// definition, which is then known by its MAST root or by its absolute path.
    pub fn resolve(&self, caller: &CallerInfo, callee: &String) -> (r: Result<ResolvedTarget, AssemblyError>)
        requires
            self.wf(),
            caller.module.0 < self.all().len(),
            self.spec_graph().spec_kernel_index() matches Some(k) ==> k.0 < self.all().len(),
        ensures
            r == resolve_name_in(self.spec_graph(), self.all(), *caller, callee@),
    {
        match self.resolve_local(caller, callee) {
            Some(ResolvedProcedure::Local(index)) => {
                let module = if caller.kind == InvokeKind::SysCall {
                    match self.graph.kernel_index {
                        Some(k) => k,
                        None => caller.module,
                    }
                } else {
                    caller.module
                };
                let gid = GlobalProcedureIndex { module, index };
                Ok(self.cached_or_else(gid, ResolvedTarget::Exact { gid }))
            },
            Some(ResolvedProcedure::External(fqn)) => {
                let gid = match self.find(caller, &fqn) {
                    Ok(gid) => gid,
                    Err(e) => return Err(e),
                };
                proof {
                    lemma_find_from_ok(
                        self.all(),
                        self.spec_graph().spec_kernel_index(),
                        self.spec_graph().spec_has_nonempty_kernel(),
                        *caller,
                        caller.kind,
                        caller.source_file,
                        fqn,
                        Seq::empty(),
                    );
                }
                let target = self.absolute_path(gid);
                Ok(self.cached_or_else(gid, ResolvedTarget::Resolved { gid, target }))
            },
            None => Err(AssemblyError::UndefinedProcedure { span: caller.span, source_file: clone_source_file(&caller.source_file) }),
        }
    }

    /// The path of the module that the caller's module imports under the name `name`.
    pub fn resolve_import(&self, caller: &CallerInfo, name: &String) -> (r: Option<&String>)
        requires
            caller.module.0 < self.all().len(),
        ensures
            r matches Some(path) ==> import_in(self.all()[caller.module.0 as int], name@) == Some(*path),
            r is None ==> import_in(self.all()[caller.module.0 as int], name@) is None,
    {
        self.thin_module(caller.module).resolve_import(name)
    }

    /// Resolves `target` from `caller`. A MAST root resolves to the first procedure bound to it,
    /// or, with none, to a phantom; a local name as by [NameResolver::resolve]; a path through
    /// an import, to the definition it leads to, by MAST root or by absolute path; an absolute
    /// path, to the definition it leads to, by MAST root or as it was named.
    pub fn resolve_target(&self, caller: &CallerInfo, target: &InvocationTarget) -> (r: Result<ResolvedTarget, AssemblyError>)
        requires
            self.wf(),
            self.spec_graph().wf(),
            !(*target is MastRoot) ==> caller.module.0 < self.all().len(),
            !(*target is MastRoot) ==> (self.spec_graph().spec_kernel_index() matches Some(k) ==> k.0 < self.all().len()),
        ensures
            r == resolve_target_in(self.spec_graph(), self.all(), *caller, *target),
    {
        match target {
            InvocationTarget::MastRoot(root) => match self.graph.get_procedure_index_by_digest(root) {
                None => Ok(ResolvedTarget::Phantom(*root)),
                Some(gid) => Ok(ResolvedTarget::Exact { gid }),
            },
            InvocationTarget::ProcedureName(callee) => self.resolve(caller, callee),
            InvocationTarget::ProcedurePath { name, module } => match self.resolve_import(caller, module) {
                Some(path) => {
                    let fqn = QualifiedProcedureName { span: caller.span, module: path.clone(), name: name.clone() };
                    let gid = match self.find(caller, &fqn) {
                        Ok(gid) => gid,
                        Err(e) => return Err(e),
                    };
                    proof {
                        lemma_find_from_ok(
                            self.all(),
                            self.spec_graph().spec_kernel_index(),
                            self.spec_graph().spec_has_nonempty_kernel(),
                            *caller,
                            caller.kind,
                            caller.source_file,
                            fqn,
                            Seq::empty(),
                        );
                    }
                    let target = self.absolute_path(gid);
                    Ok(self.cached_or_else(gid, ResolvedTarget::Resolved { gid, target }))
                },
                None => Err(AssemblyError::UndefinedModule {
                    span: caller.span,
                    source_file: clone_source_file(&caller.source_file),
                    path: module.clone(),
                }),
            },
            InvocationTarget::AbsoluteProcedurePath { name, path } => {
                let fqn = QualifiedProcedureName { span: caller.span, module: path.clone(), name: name.clone() };
                let gid = match self.find(caller, &fqn) {
                    Ok(gid) => gid,
                    Err(e) => return Err(e),
                };
                Ok(self.cached_or_else(gid, ResolvedTarget::Exact { gid }))
            },
        }
    }
}

} // verus!
