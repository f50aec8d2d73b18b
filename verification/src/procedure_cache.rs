//! A cache of compiled procedures, keyed by their global procedure index.

use std::sync::Arc;

use vstd::prelude::*;

use crate::errors::AssemblyError;
use crate::id::{GlobalProcedureIndex, ModuleIndex, ProcedureIndex};
use crate::procedure::{share, Procedure, QualifiedProcedureName, RpoDigest};

verus! {

/// The slots of the cache, per module.
pub type Slots = Seq<Seq<Option<Arc<Procedure>>>>;

/// The content of slot `i` of module `m`, if it exists.
pub open spec fn slot(c: Slots, m: int, i: int) -> Option<Arc<Procedure>> {
    if 0 <= m < c.len() && 0 <= i < c[m].len() {
        c[m][i]
    } else {
        None
    }
}

/// The number of occupied slots in `s`.
pub open spec fn count_some(s: Seq<Option<Arc<Procedure>>>) -> nat
    decreases s.len(),
{
    if s.len() == 0 {
        0
    } else {
        count_some(s.drop_last()) + if s.last() is Some {
            1nat
        } else {
            0nat
        }
    }
}

/// The number of occupied slots in `c`.
pub open spec fn count_entries(c: Slots) -> nat
    decreases c.len(),
{
    if c.len() == 0 {
        0
    } else {
        count_entries(c.drop_last()) + count_some(c.last())
    }
}

/// The identifier of slot `i` of module `m`.
pub open spec fn gid_of(m: int, i: int) -> GlobalProcedureIndex {
    GlobalProcedureIndex { module: ModuleIndex(m as u16), index: ProcedureIndex(i as u16) }
}

/// The cached procedures of `c` from slot `i` of module `m` on, in the order of modules and then
/// of slots, with their identifiers.
pub open spec fn entries_from(c: Slots, m: nat, i: nat) -> Seq<(GlobalProcedureIndex, Arc<Procedure>)>
    decreases c.len() - m, if m < c.len() {
        c[m as int].len() - i
    } else {
        0
    },
{
    if m >= c.len() {
        Seq::empty()
    } else if i >= c[m as int].len() {
        entries_from(c, m + 1, 0)
    } else {
        let rest = entries_from(c, m, i + 1);
        match c[m as int][i as int] {
            Some(p) => seq![(gid_of(m as int, i as int), p)] + rest,
            None => rest,
        }
    }
}

/// The fully-qualified names `a` and `b` name the same procedure: the same module path and the
/// same local name.
pub open spec fn same_name(a: QualifiedProcedureName, b: QualifiedProcedureName) -> bool {
    a.module@ == b.module@ && a.name@ == b.name@
}

/// A prefix has at most as many occupied slots as the whole.
proof fn lemma_count_some_prefix(s: Seq<Option<Arc<Procedure>>>, k: int)
    requires
        0 <= k <= s.len(),
    ensures
        count_some(s.take(k)) <= count_some(s),
    decreases s.len() - k,
{
    if k < s.len() {
        lemma_count_some_prefix(s, k + 1);
        assert(s.take(k + 1).drop_last() =~= s.take(k));
    } else {
        assert(s.take(k) =~= s);
    }
}

/// A prefix of the modules has at most as many occupied slots as the whole.
proof fn lemma_count_entries_prefix(c: Slots, k: int)
    requires
        0 <= k <= c.len(),
    ensures
        count_entries(c.take(k)) <= count_entries(c),
    decreases c.len() - k,
{
    if k < c.len() {
        lemma_count_entries_prefix(c, k + 1);
        assert(c.take(k + 1).drop_last() =~= c.take(k));
    } else {
        assert(c.take(k) =~= c);
    }
}

/// No MAST root is recorded twice in `by`.
pub open spec fn unique_roots(by: Seq<(RpoDigest, GlobalProcedureIndex)>) -> bool {
    forall|j: int, k: int| 0 <= j < k < by.len() ==> (#[trigger] by[j]).0 != (#[trigger] by[k]).0
}

/// The record of a root in a cache whose roots are recorded once gives the root's identifier.
proof fn lemma_root_index_at(cache: ProcedureCache, k: int)
    requires
        unique_roots(cache.by_mast_root@),
        0 <= k < cache.by_mast_root@.len(),
    ensures
        cache.root_index(cache.by_mast_root@[k].0) == Some(cache.by_mast_root@[k].1),
{
    let d = cache.by_mast_root@[k].0;
    let c = choose|c: int| 0 <= c < cache.by_mast_root@.len() && cache.by_mast_root@[c].0 == d;
    if c != k {
        if c < k {
            assert(cache.by_mast_root@[c].0 != cache.by_mast_root@[k].0);
        } else {
            assert(cache.by_mast_root@[k].0 != cache.by_mast_root@[c].0);
        }
    }
}

/// What inserting `procedure` under `id` into `cache` returns.
pub open spec fn insert_result(cache: ProcedureCache, id: GlobalProcedureIndex, procedure: Arc<Procedure>) -> Result<(), AssemblyError> {
    match cache.entry(id) {
        Some(cached) => if cached.mast_root != procedure.mast_root || cached.num_locals != procedure.num_locals {
            Err(AssemblyError::ConflictingDefinitions { first: cached.path, second: procedure.path })
        } else {
            Ok(())
        },
        None => match cache.root_index(procedure.mast_root) {
            Some(gid) => {
                let cached = cache.entry(gid)->Some_0;
                if cached.num_locals != procedure.num_locals {
                    Err(AssemblyError::ConflictingDefinitions { first: cached.path, second: procedure.path })
                } else {
                    Ok(())
                }
            },
            None => Ok(()),
        },
    }
}

/// Filling the existing, empty slot of `id` in `before` gives `after`: every other entry and the
/// record of roots are unchanged, and the cache stays consistent.
proof fn lemma_set_slot(before: ProcedureCache, after: ProcedureCache, id: GlobalProcedureIndex)
    requires
        before.wf(),
        (id.module.0 as int) < before.cache@.len(),
        (id.index.0 as int) < before.cache@[id.module.0 as int]@.len(),
        before.entry(id) is None,
        after.modules@ == before.modules@,
        after.by_mast_root@ == before.by_mast_root@,
        after.cache@.len() == before.cache@.len(),
        forall|m: int| 0 <= m < before.cache@.len() && m != id.module.0 ==> #[trigger] after.cache@[m] == before.cache@[m],
        after.cache@[id.module.0 as int]@ == before.cache@[id.module.0 as int]@.update(id.index.0 as int, after.entry(id)),
        after.entry(id) is Some,
    ensures
        after.wf(),
        forall|other: GlobalProcedureIndex| other != id ==> #[trigger] after.entry(other) == before.entry(other),
        forall|d: RpoDigest| #[trigger] after.root_index(d) == before.root_index(d),
{
    assert forall|other: GlobalProcedureIndex| other != id implies #[trigger] after.entry(other) == before.entry(other) by {
        if other.module == id.module {
            assert(other.index != id.index);
        }
    }
    assert forall|k: int| 0 <= k < after.by_mast_root@.len() implies {
        let (d, gid) = #[trigger] after.by_mast_root@[k];
        &&& after.entry(gid) is Some
        &&& after.entry(gid)->Some_0.mast_root == d
    } by {
        let (d, gid) = after.by_mast_root@[k];
        assert(before.entry(gid) is Some);
        assert(gid != id);
    }
    assert forall|m: int| 0 <= m < after.cache@.len() implies (#[trigger] after.cache@[m])@.len() <= u16::MAX + 1 by {
        if m != id.module.0 {
            assert(after.cache@[m] == before.cache@[m]);
        }
    }
}

/// The cache of the MAST of compiled procedures.
///
/// Once cached, subsequent compilations use the cached MAST rather than compiling the same
/// procedures again. Each procedure is cached under its global procedure index; when a module is
/// modified and recompiled, the old module is removed and the new one gets new indices.
pub struct ProcedureCache {
    cache: Vec<Vec<Option<Arc<Procedure>>>>,
    /// The path of each module with a slot in the cache; as long as `cache`.
    modules: Vec<Option<String>>,
    /// The identifier under which each MAST root was first cached.
    by_mast_root: Vec<(RpoDigest, GlobalProcedureIndex)>,
}

impl ProcedureCache {
    /// The slots of the cache.
    pub closed spec fn slots(&self) -> Slots {
        self.cache@.map_values(|m: Vec<Option<Arc<Procedure>>>| m@)
    }

    /// The procedure cached under `id`, if any.
    pub open spec fn entry(&self, id: GlobalProcedureIndex) -> Option<Arc<Procedure>> {
        slot(self.slots(), id.module.0 as int, id.index.0 as int)
    }

    /// The path of module `m`, if it has slots in the cache.
    pub closed spec fn path_of_module(&self, m: int) -> Option<String> {
        if 0 <= m < self.modules@.len() {
            self.modules@[m]
        } else {
            None
        }
    }

    /// The identifier under which the MAST root `d` was first cached, if it is recorded.
    pub closed spec fn root_index(&self, d: RpoDigest) -> Option<GlobalProcedureIndex> {
        if exists|k: int| 0 <= k < self.by_mast_root@.len() && self.by_mast_root@[k].0 == d {
            Some(self.by_mast_root@[choose|k: int| 0 <= k < self.by_mast_root@.len() && self.by_mast_root@[k].0 == d].1)
        } else {
            None
        }
    }

    /// The internal consistency of the cache: one path per module slot, identifiers that fit in
    /// 16 bits, and MAST roots recorded once, each under an identifier whose cached procedure has
    /// that root.
    pub closed spec fn wf(&self) -> bool {
        &&& self.modules@.len() == self.cache@.len()
        &&& self.cache@.len() <= u16::MAX + 1
        &&& forall|m: int| 0 <= m < self.cache@.len() ==> (#[trigger] self.cache@[m])@.len() <= u16::MAX + 1
        &&& unique_roots(self.by_mast_root@)
        &&& forall|k: int| 0 <= k < self.by_mast_root@.len() ==> {
            let (d, gid) = #[trigger] self.by_mast_root@[k];
            &&& self.entry(gid) is Some
            &&& self.entry(gid)->Some_0.mast_root == d
        }
    }

    /// An empty cache.
    pub fn new() -> (r: Self)
        ensures
            r.wf(),
            forall|id: GlobalProcedureIndex| r.entry(id) is None,
            forall|d: RpoDigest| r.root_index(d) is None,
            count_entries(r.slots()) == 0,
            r.slots() == Seq::<Seq<Option<Arc<Procedure>>>>::empty(),
            forall|m: int| r.path_of_module(m) is None,
    {
        let r = ProcedureCache { cache: Vec::new(), modules: Vec::new(), by_mast_root: Vec::new() };
        proof {
            assert(r.slots() =~= Seq::<Seq<Option<Arc<Procedure>>>>::empty());
        }
        r
    }

    /// Returns the number of procedures in the cache.
    pub fn len(&self) -> (r: usize)
        requires
            self.wf(),
            count_entries(self.slots()) <= usize::MAX,
        ensures
            r == count_entries(self.slots()),
    {
        let mut total: usize = 0;
        let mut m: usize = 0;
        while m < self.cache.len()
            invariant
                self.wf(),
                count_entries(self.slots()) <= usize::MAX,
                m <= self.cache@.len(),
                total == count_entries(self.slots().take(m as int)),
            decreases self.cache@.len() - m,
        {
            let slots = &self.cache[m];
            proof {
                assert(self.slots()[m as int] == slots@);
                lemma_count_entries_prefix(self.slots(), m as int + 1);
                assert(self.slots().take(m + 1).drop_last() =~= self.slots().take(m as int));
            }
            let mut i: usize = 0;
            let mut here: usize = 0;
            while i < slots.len()
                invariant
                    i <= slots@.len(),
                    here == count_some(slots@.take(i as int)),
                    here <= i,
                    total + count_some(slots@) <= usize::MAX,
                    count_some(slots@.take(i as int)) <= count_some(slots@),
                decreases slots@.len() - i,
            {
                proof {
                    assert(slots@.take(i + 1).drop_last() =~= slots@.take(i as int));
                    lemma_count_some_prefix(slots@, i as int + 1);
                }
                if slots[i].is_some() {
                    here = here + 1;
                }
                i = i + 1;
            }
            proof {
                assert(slots@.take(i as int) =~= slots@);
            }
            total = total + here;
            m = m + 1;
        }
        proof {
            assert(self.slots().take(m as int) =~= self.slots());
        }
        total
    }

    /// Returns true if the cache is empty.
    pub fn is_empty(&self) -> (r: bool)
        requires
            self.wf(),
            count_entries(self.slots()) <= usize::MAX,
        ensures
            r == (count_entries(self.slots()) == 0),
    {
        self.len() == 0
    }

    /// Makes the slot of `id` exist, and records `module` as the path of the module of `id` if it
    /// has none yet.
    fn ensure_cache_slot_exists(&mut self, id: GlobalProcedureIndex, module: &String)
        requires
            old(self).wf(),
        ensures
            final(self).wf(),
            (id.module.0 as int) < final(self).cache@.len(),
            (id.index.0 as int) < final(self).cache@[id.module.0 as int]@.len(),
            forall|m: int, i: int| #[trigger] slot(final(self).slots(), m, i) == slot(old(self).slots(), m, i),
            final(self).by_mast_root@ == old(self).by_mast_root@,
            forall|m: int| m != id.module.0 ==> #[trigger] final(self).path_of_module(m) == old(self).path_of_module(m),
            final(self).path_of_module(id.module.0 as int) == match old(self).path_of_module(id.module.0 as int) {
                Some(p) => Some(p),
                None => Some(*module),
            },
    {
        let m = id.module.as_usize();
        let i = id.index.as_usize();
        while self.cache.len() < m + 1
            invariant
                m <= u16::MAX,
                self.modules@.len() == self.cache@.len(),
                self.cache@.len() <= m + 1 || self.cache@.len() == old(self).cache@.len(),
                self.cache@.len() <= u16::MAX + 1,
                forall|k: int| 0 <= k < self.cache@.len() ==> (#[trigger] self.cache@[k])@.len() <= u16::MAX + 1,
                forall|x: int, y: int| #[trigger] slot(self.slots(), x, y) == slot(old(self).slots(), x, y),
                forall|x: int| 0 <= x < old(self).modules@.len() ==> #[trigger] self.modules@[x] == old(self).modules@[x],
                forall|x: int| old(self).modules@.len() <= x < self.modules@.len() ==> (#[trigger] self.modules@[x]) is None,
                self.by_mast_root@ == old(self).by_mast_root@,
                old(self).cache@.len() <= self.cache@.len(),
                old(self).modules@.len() == old(self).cache@.len(),
            decreases m + 1 - self.cache@.len(),
        {
            let ghost before = self.slots();
            let ghost before_modules = self.modules@;
            self.cache.push(Vec::new());
            self.modules.push(None);
            proof {
                assert forall|x: int| 0 <= x < before_modules.len() implies #[trigger] self.modules@[x] == before_modules[x] by {
                }
                assert forall|x: int, y: int| #[trigger] slot(self.slots(), x, y) == slot(before, x, y) by {
                    if x == before.len() {
                        assert(self.slots()[x].len() == 0);
                    }
                }
            }
        }
        let ghost slots_now = self.slots();
        if self.modules[m].is_none() {
            self.modules.set(m, Some(module.clone()));
        }
        proof {
            assert(self.slots() == slots_now);
        }
        let ghost modules_now = self.modules@;
        while self.cache[m].len() < i + 1
            invariant
                m < self.cache@.len(),
                i <= u16::MAX,
                self.modules@ == modules_now,
                self.modules@.len() == self.cache@.len(),
                self.cache@.len() <= u16::MAX + 1,
                forall|k: int| 0 <= k < self.cache@.len() ==> (#[trigger] self.cache@[k])@.len() <= u16::MAX + 1,
                forall|x: int, y: int| #[trigger] slot(self.slots(), x, y) == slot(old(self).slots(), x, y),
                self.by_mast_root@ == old(self).by_mast_root@,
            decreases i + 1 - self.cache@[m as int]@.len(),
        {
            let ghost before = self.slots();
            self.cache[m].push(None);
            proof {
                assert forall|x: int, y: int| #[trigger] slot(self.slots(), x, y) == slot(before, x, y) by {
                    if x == m as int && y == before[x].len() {
                        assert(slot(before, x, y) is None);
                    }
                }
            }
        }
        proof {
            assert forall|x: int| x != m implies #[trigger] self.path_of_module(x) == old(self).path_of_module(x) by {
                if 0 <= x < old(self).modules@.len() {
                    assert(modules_now[x] == old(self).modules@[x]);
                }
            }
        }
        proof {
            assert forall|k: int| 0 <= k < self.by_mast_root@.len() implies {
                let (d, gid) = #[trigger] self.by_mast_root@[k];
                &&& self.entry(gid) is Some
                &&& self.entry(gid)->Some_0.mast_root == d
            } by {
                let (d, gid) = self.by_mast_root@[k];
                assert(slot(self.slots(), gid.module.0 as int, gid.index.0 as int) == slot(old(self).slots(), gid.module.0 as int, gid.index.0 as int));
            }
        }
    }

    /// Inserts `procedure` into the cache under `id`.
    ///
    /// Nothing changes if `id` already holds a procedure with the same MAST root and number of
    /// locals. A procedure whose MAST root is already recorded under another identifier is cached
    /// under `id` too, without recording its root again; a procedure with a new root is cached
    /// and its root recorded under `id`.
    ///
    /// # Errors
    /// Returns [AssemblyError::ConflictingDefinitions], and caches nothing, if `id` holds a
    /// procedure with another MAST root or number of locals, or if the MAST root is recorded for
    /// a procedure with another number of locals.
    pub fn insert(&mut self, id: GlobalProcedureIndex, procedure: Arc<Procedure>) -> (r: Result<(), AssemblyError>)
        requires
            old(self).wf(),
        ensures
            final(self).wf(),
            r == insert_result(*old(self), id, procedure),
            final(self).entry(id) == if r is Ok && old(self).entry(id) is None {
                Some(procedure)
            } else {
                old(self).entry(id)
            },
            forall|other: GlobalProcedureIndex| other != id ==> #[trigger] final(self).entry(other) == old(self).entry(other),
            forall|d: RpoDigest| #[trigger] final(self).root_index(d) == if r is Ok && old(self).entry(id) is None
                && old(self).root_index(procedure.mast_root) is None && d == procedure.mast_root {
                Some(id)
            } else {
                old(self).root_index(d)
            },
    {
        let mast_root = procedure.mast_root();
        // make sure we can index to the cache slot for this procedure
        self.ensure_cache_slot_exists(id, procedure.path());
        proof {
            assert forall|other: GlobalProcedureIndex| #[trigger] self.entry(other) == old(self).entry(other) by {
                assert(slot(self.slots(), other.module.0 as int, other.index.0 as int) == slot(old(self).slots(), other.module.0 as int, other.index.0 as int));
            }
            assert forall|d: RpoDigest| #[trigger] self.root_index(d) == old(self).root_index(d) by {}
        }
        // if there is already an entry in the slot, it must be the same procedure
        if let Some(cached) = self.get(id) {
            if cached.mast_root() != mast_root || cached.num_locals() != procedure.num_locals() {
                return Err(AssemblyError::ConflictingDefinitions {
                    first: cached.fully_qualified_name().clone(),
                    second: procedure.fully_qualified_name().clone(),
                });
            }
            return Ok(());
        }
        let m = id.module.as_usize();
        let i = id.index.as_usize();
        let ghost before = *self;
        // a procedure with the same MAST root, under another identifier, must be equivalent
        if let Some(cached) = self.get_by_mast_root(&mast_root) {
            if cached.num_locals() != procedure.num_locals() {
                return Err(AssemblyError::ConflictingDefinitions {
                    first: cached.fully_qualified_name().clone(),
                    second: procedure.fully_qualified_name().clone(),
                });
            }
            self.cache[m].set(i, Some(procedure));
            proof {
                lemma_set_slot(before, *self, id);
            }
            return Ok(());
        }
        // a new entry: record both the procedure and its MAST root
        self.cache[m].set(i, Some(procedure));
        proof {
            lemma_set_slot(before, *self, id);
        }
        let ghost mid = *self;
        self.by_mast_root.push((mast_root, id));
        proof {
            assert(self.slots() == mid.slots());
            assert forall|j: int, k: int|
                0 <= j < k < self.by_mast_root@.len() implies (#[trigger] self.by_mast_root@[j]).0 != (#[trigger] self.by_mast_root@[k]).0 by {
                if k == self.by_mast_root@.len() - 1 {
                    assert(mid.by_mast_root@[j] == self.by_mast_root@[j]);
                    if mid.by_mast_root@[j].0 == mast_root {
                        assert(exists|q: int| 0 <= q < mid.by_mast_root@.len() && mid.by_mast_root@[q].0 == mast_root);
                    }
                }
            }
            assert forall|k: int| 0 <= k < self.by_mast_root@.len() implies {
                let (d, gid) = #[trigger] self.by_mast_root@[k];
                &&& self.entry(gid) is Some
                &&& self.entry(gid)->Some_0.mast_root == d
            } by {
                if k < mid.by_mast_root@.len() {
                    assert(self.by_mast_root@[k] == mid.by_mast_root@[k]);
                }
            }
            assert forall|d: RpoDigest| #[trigger] self.root_index(d) == if d == mast_root {
                Some(id)
            } else {
                mid.root_index(d)
            } by {
                let q = (self.by_mast_root@.len() - 1) as int;
                if d == mast_root {
                    lemma_root_index_at(*self, q);
                } else if exists|c: int| 0 <= c < mid.by_mast_root@.len() && mid.by_mast_root@[c].0 == d {
                    let c = choose|c: int| 0 <= c < mid.by_mast_root@.len() && mid.by_mast_root@[c].0 == d;
                    lemma_root_index_at(mid, c);
                    assert(self.by_mast_root@[c] == mid.by_mast_root@[c]);
                    lemma_root_index_at(*self, c);
                } else {
                    assert forall|c: int| 0 <= c < self.by_mast_root@.len() implies self.by_mast_root@[c].0 != d by {
                        if c < q {
                            assert(self.by_mast_root@[c] == mid.by_mast_root@[c]);
                        }
                    }
                }
            }
            assert forall|other: GlobalProcedureIndex| #[trigger] self.entry(other) == mid.entry(other) by {}
        }
        Ok(())
    }

    /// Removes the entries of the cache for the procedures of `module`.
    pub fn remove_module(&mut self, module: ModuleIndex)
        requires
            old(self).wf(),
        ensures
            final(self).wf(),
            forall|id: GlobalProcedureIndex| #[trigger] final(self).entry(id) == if id.module == module {
                None
            } else {
                old(self).entry(id)
            },
            forall|d: RpoDigest| #[trigger] final(self).root_index(d) == match old(self).root_index(d) {
                Some(gid) => if gid.module == module {
                    None
                } else {
                    Some(gid)
                },
                None => None,
            },
            final(self).path_of_module(module.0 as int) is None,
            forall|m: int| m != module.0 ==> #[trigger] final(self).path_of_module(m) == old(self).path_of_module(m),
    {
        let index = module.as_usize();
        if index < self.cache.len() {
            self.cache[index].clear();
            self.modules.set(index, None);
        }
        proof {
            assert forall|id: GlobalProcedureIndex| #[trigger] self.entry(id) == if id.module == module {
                None
            } else {
                old(self).entry(id)
            } by {
                assert(slot(self.slots(), id.module.0 as int, id.index.0 as int) == if id.module.0 == index {
                    None
                } else {
                    slot(old(self).slots(), id.module.0 as int, id.index.0 as int)
                });
            }
        }
        let ghost mid = *self;
        let mut kept: Vec<(RpoDigest, GlobalProcedureIndex)> = Vec::new();
        let ghost mut idx: Seq<int> = Seq::empty();
        let mut k: usize = 0;
        while k < self.by_mast_root.len()
            invariant
                self.by_mast_root@ == mid.by_mast_root@,
                k <= mid.by_mast_root@.len(),
                idx.len() == kept@.len(),
                forall|a: int| 0 <= a < kept@.len() ==> 0 <= #[trigger] idx[a] < k && kept@[a] == mid.by_mast_root@[idx[a]],
                forall|a: int| 0 <= a < kept@.len() ==> (#[trigger] kept@[a]).1.module != module,
                forall|a1: int, a2: int| 0 <= a1 < a2 < kept@.len() ==> #[trigger] idx[a1] < #[trigger] idx[a2],
                forall|b: int| 0 <= b < k && (#[trigger] mid.by_mast_root@[b]).1.module != module ==> exists|a: int| 0 <= a < kept@.len() && idx[a] == b,
            decreases mid.by_mast_root@.len() - k,
        {
            let entry = self.by_mast_root[k];
            if entry.1.module != module {
                kept.push(entry);
                proof {
                    let old_idx = idx;
                    idx = idx.push(k as int);
                    assert forall|b: int| 0 <= b < k + 1 && (#[trigger] mid.by_mast_root@[b]).1.module != module implies exists|a: int| 0 <= a < kept@.len() && idx[a] == b by {
                        if b == k as int {
                            assert(idx[idx.len() - 1] == b);
                        } else {
                            let a = choose|a: int| 0 <= a < kept@.len() - 1 && old_idx[a] == b;
                            assert(idx[a] == b);
                        }
                    }
                }
            }
            k = k + 1;
        }
        self.by_mast_root = kept;
        proof {
            assert(self.slots() == mid.slots());
            assert forall|j: int, k2: int|
                0 <= j < k2 < self.by_mast_root@.len() implies (#[trigger] self.by_mast_root@[j]).0 != (#[trigger] self.by_mast_root@[k2]).0 by {
                assert(idx[j] < idx[k2]);
                assert(mid.by_mast_root@[idx[j]].0 != mid.by_mast_root@[idx[k2]].0);
            }
            assert forall|a: int| 0 <= a < self.by_mast_root@.len() implies {
                let (d, gid) = #[trigger] self.by_mast_root@[a];
                &&& self.entry(gid) is Some
                &&& self.entry(gid)->Some_0.mast_root == d
            } by {
                let (d, gid) = mid.by_mast_root@[idx[a]];
                assert(old(self).entry(gid) is Some);
                assert(self.entry(gid) == old(self).entry(gid));
            }
            assert forall|d: RpoDigest| #[trigger] self.root_index(d) == match old(self).root_index(d) {
                Some(gid) => if gid.module == module {
                    None
                } else {
                    Some(gid)
                },
                None => None,
            } by {
                if exists|c: int| 0 <= c < old(self).by_mast_root@.len() && old(self).by_mast_root@[c].0 == d {
                    let c = choose|c: int| 0 <= c < old(self).by_mast_root@.len() && old(self).by_mast_root@[c].0 == d;
                    lemma_root_index_at(*old(self), c);
                    if old(self).by_mast_root@[c].1.module != module {
                        let a = choose|a: int| 0 <= a < self.by_mast_root@.len() && idx[a] == c;
                        lemma_root_index_at(*self, a);
                    } else {
                        assert forall|a: int| 0 <= a < self.by_mast_root@.len() implies self.by_mast_root@[a].0 != d by {
                            if idx[a] != c {
                                if idx[a] < c {
                                    assert(old(self).by_mast_root@[idx[a]].0 != old(self).by_mast_root@[c].0);
                                } else {
                                    assert(old(self).by_mast_root@[c].0 != old(self).by_mast_root@[idx[a]].0);
                                }
                            }
                        }
                    }
                } else {
                    assert forall|a: int| 0 <= a < self.by_mast_root@.len() implies self.by_mast_root@[a].0 != d by {
                        assert(old(self).by_mast_root@[idx[a]].0 != d);
                    }
                }
            }
        }
    }

    /// Consumes the cache into an iterator over its entries, in the order of modules and then of
    /// slots, each with its identifier.
    pub fn into_iter(self) -> (r: IntoIter)
        requires
            self.wf(),
        ensures
            r.wf(),
            r.remaining() == entries_from(self.slots(), 0, 0),
    {
        let r = IntoIter { cache: self.cache, module: 0, index: 0 };
        proof {
            assert(r.slots() == self.slots());
        }
        r
    }

    /// Returns the procedure with the given identifier, if it is cached.
    pub fn get(&self, id: GlobalProcedureIndex) -> (r: Option<Arc<Procedure>>)
        ensures
            r == self.entry(id),
    {
        let m = id.module.as_usize();
        let i = id.index.as_usize();
        if m < self.cache.len() && i < self.cache[m].len() {
            match &self.cache[m][i] {
                Some(p) => Some(share(p)),
                None => None,
            }
        } else {
            None
        }
    }

    /// Returns true if a procedure is cached under the given identifier.
    pub fn contains_key(&self, id: GlobalProcedureIndex) -> (r: bool)
        ensures
            r == (self.entry(id) is Some),
    {
        let m = id.module.as_usize();
        let i = id.index.as_usize();
        m < self.cache.len() && i < self.cache[m].len() && self.cache[m][i].is_some()
    }

    /// The position of the record of MAST root `digest`, if any.
    fn find_mast_root(&self, digest: RpoDigest) -> (r: Option<usize>)
        requires
            self.wf(),
        ensures
            r is None <==> self.root_index(digest) is None,
            r matches Some(k) ==> k < self.by_mast_root@.len() && self.by_mast_root@[k as int].0 == digest
                && self.root_index(digest) == Some(self.by_mast_root@[k as int].1),
    {
        let mut k: usize = 0;
        while k < self.by_mast_root.len()
            invariant
                self.wf(),
                k <= self.by_mast_root@.len(),
                forall|j: int| 0 <= j < k ==> self.by_mast_root@[j].0 != digest,
            decreases self.by_mast_root@.len() - k,
        {
            if self.by_mast_root[k].0 == digest {
                proof {
                    let c = choose|j: int| 0 <= j < self.by_mast_root@.len() && self.by_mast_root@[j].0 == digest;
                    if c != k as int {
                        if c < k {
                        } else {
                            assert(self.by_mast_root@[k as int].0 != self.by_mast_root@[c].0);
                        }
                    }
                }
                return Some(k);
            }
            k = k + 1;
        }
        None
    }

    /// Returns true if a procedure with the given MAST root is recorded in the cache.
    pub fn contains_mast_root(&self, digest: &RpoDigest) -> (r: bool)
        requires
            self.wf(),
        ensures
            r == (self.root_index(*digest) is Some),
    {
        self.find_mast_root(*digest).is_some()
    }

    /// Looks up a procedure by its MAST root.
    pub fn get_by_mast_root(&self, digest: &RpoDigest) -> (r: Option<Arc<Procedure>>)
        requires
            self.wf(),
        ensures
            r == match self.root_index(*digest) {
                Some(id) => self.entry(id),
                None => None,
            },
            r matches Some(p) ==> p.mast_root == *digest,
    {
        match self.find_mast_root(*digest) {
            Some(k) => {
                let id = self.by_mast_root[k].1;
                self.get(id)
            },
            None => None,
        }
    }

    /// Looks up a procedure by its fully-qualified name. If the name is cached more than once,
    /// returns the version with the highest module index, and within it, the first.
    pub fn get_by_name(&self, name: &QualifiedProcedureName) -> (r: Option<Arc<Procedure>>)
        ensures
            r is None <==> !(exists|m: int, i: int| #[trigger] slot(self.slots(), m, i) matches Some(p) && same_name(p.path, *name)),
            r matches Some(p) ==> exists|m: int, i: int| {
                &&& #[trigger] slot(self.slots(), m, i) == Some(p)
                &&& same_name(p.path, *name)
                &&& forall|m2: int, i2: int| #![trigger slot(self.slots(), m2, i2)]
                    (m < m2 || (m == m2 && i2 < i)) ==> !(slot(self.slots(), m2, i2) matches Some(q) && same_name(q.path, *name))
            },
    {
        let mut m: usize = self.cache.len();
        while m > 0
            invariant
                m <= self.cache@.len(),
                forall|m2: int, i2: int| #![trigger slot(self.slots(), m2, i2)]
                    m <= m2 ==> !(slot(self.slots(), m2, i2) matches Some(q) && same_name(q.path, *name)),
            decreases m,
        {
            m = m - 1;
            let slots = &self.cache[m];
            let mut i: usize = 0;
            while i < slots.len()
                invariant
                    m < self.cache@.len(),
                    forall|m2: int, i2: int| #![trigger slot(self.slots(), m2, i2)]
                        m < m2 ==> !(slot(self.slots(), m2, i2) matches Some(q) && same_name(q.path, *name)),
                    slots@ == self.slots()[m as int],
                    i <= slots@.len(),
                    forall|i2: int| #![trigger slot(self.slots(), m as int, i2)]
                        i2 < i ==> !(slot(self.slots(), m as int, i2) matches Some(q) && same_name(q.path, *name)),
                decreases slots@.len() - i,
            {
                match &slots[i] {
                    Some(p) => {
                        if p.path.module == name.module && p.path.name == name.name {
                            proof {
                                let (mm, ii) = (m as int, i as int);
                                assert(slot(self.slots(), mm, ii) == Some(*p));
                                assert({
                                    &&& slot(self.slots(), mm, ii) == Some(*p)
                                    &&& same_name(p.path, *name)
                                    &&& forall|m2: int, i2: int| #![trigger slot(self.slots(), m2, i2)]
                                        (mm < m2 || (mm == m2 && i2 < ii)) ==> !(slot(self.slots(), m2, i2) matches Some(q) && same_name(q.path, *name))
                                });
                            }
                            return Some(share(p));
                        }
                    },
                    None => {},
                }
                proof {
                    assert(slot(self.slots(), m as int, i as int) == slots@[i as int]);
                }
                i = i + 1;
            }
            proof {
                assert forall|m2: int, i2: int| #![trigger slot(self.slots(), m2, i2)]
                    m <= m2 implies !(slot(self.slots(), m2, i2) matches Some(q) && same_name(q.path, *name)) by {
                    if m2 == m as int && i2 >= i {
                        assert(slot(self.slots(), m2, i2) is None);
                    }
                }
            }
        }
        proof {
            assert forall|m2: int, i2: int| !(#[trigger] slot(self.slots(), m2, i2) matches Some(q) && same_name(q.path, *name)) by {
                if m2 < 0 {
                    assert(slot(self.slots(), m2, i2) is None);
                }
            }
        }
        None
    }
}

/// An iterator over the entries of a procedure cache, each with its identifier.
pub struct IntoIter {
    cache: Vec<Vec<Option<Arc<Procedure>>>>,
    module: usize,
    index: usize,
}

impl IntoIter {
    /// The slots being iterated over.
    pub closed spec fn slots(&self) -> Slots {
        self.cache@.map_values(|m: Vec<Option<Arc<Procedure>>>| m@)
    }

    /// The entries still to be returned.
    pub closed spec fn remaining(&self) -> Seq<(GlobalProcedureIndex, Arc<Procedure>)> {
        entries_from(self.slots(), self.module as nat, self.index as nat)
    }

    /// The identifiers of the slots fit in 16 bits.
    pub closed spec fn wf(&self) -> bool {
        &&& self.cache@.len() <= u16::MAX + 1
        &&& forall|m: int| 0 <= m < self.cache@.len() ==> (#[trigger] self.cache@[m])@.len() <= u16::MAX + 1
    }

    /// Returns the next entry, if any.
    pub fn next(&mut self) -> (r: Option<(GlobalProcedureIndex, Arc<Procedure>)>)
        requires
            old(self).wf(),
        ensures
            final(self).wf(),
            match r {
                Some(entry) => old(self).remaining() == seq![entry] + final(self).remaining(),
                None => old(self).remaining() == Seq::<(GlobalProcedureIndex, Arc<Procedure>)>::empty()
                    && final(self).remaining() == old(self).remaining(),
            },
    {
        while self.module < self.cache.len()
            invariant
                self.wf(),
                self.cache@ == old(self).cache@,
                self.remaining() == old(self).remaining(),
            decreases self.cache@.len() - self.module, if self.module < self.cache@.len() {
                self.cache@[self.module as int]@.len() - self.index
            } else {
                0
            },
        {
            let m = self.module;
            let i = self.index;
            if i < self.cache[m].len() {
                self.index = i + 1;
                match &self.cache[m][i] {
                    Some(p) => {
                        let gid = GlobalProcedureIndex { module: ModuleIndex::new(m), index: ProcedureIndex::new(i) };
                        proof {
                            assert(self.slots()[m as int][i as int] == Some(*p));
                            assert(gid == gid_of(m as int, i as int));
                        }
                        return Some((gid, share(p)));
                    },
                    None => {
                        proof {
                            assert(self.slots()[m as int][i as int] is None);
                        }
                    },
                }
            } else {
                self.module = m + 1;
                self.index = 0;
            }
        }
        None
    }
}

} // verus!
