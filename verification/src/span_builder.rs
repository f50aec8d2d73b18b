//! Accumulation of the operations and decorators of a basic block.

use vstd::prelude::*;

use crate::ops::{AssemblyOp, Decorator, Operation};
use crate::errors::AssemblyError;

verus! {

/// Operations placed before and after a procedure body: the prologue starts the first block, the
/// epilogue ends the last one.
#[derive(Debug)]
pub struct BodyWrapper {
    pub prologue: Vec<Operation>,
    pub epilogue: Vec<Operation>,
}

/// A basic block: a sequence of operations, and decorators each attached to the position of the
/// operation it precedes.
#[derive(Debug)]
pub struct SpanBlock {
    pub ops: Vec<Operation>,
    pub decorators: Vec<(usize, Decorator)>,
}

/// A helper for constructing basic blocks while compiling procedure bodies.
///
/// Operations and decorators are added via the `add_*()` and `push_*()` methods, and blocks are
/// extracted via the `extract_*()` methods. The same builder can be used to construct many blocks;
/// the last block of a procedure body is extracted with `extract_final_span_into()`.
pub struct SpanBuilder {
    ops: Vec<Operation>,
    decorators: Vec<(usize, Decorator)>,
    epilogue: Vec<Operation>,
    last_asmop_pos: usize,
}

impl SpanBuilder {
    /// The operations of the block under construction.
    pub closed spec fn ops(&self) -> Seq<Operation> {
        self.ops@
    }

    /// The decorators of the block under construction, with their positions.
    pub closed spec fn decorators(&self) -> Seq<(usize, Decorator)> {
        self.decorators@
    }

    /// The operations appended to the last block.
    pub closed spec fn epilogue(&self) -> Seq<Operation> {
        self.epilogue@
    }

    /// The position, among the decorators, of the last instruction being tracked.
    pub closed spec fn last_asmop_pos(&self) -> usize {
        self.last_asmop_pos
    }

    /// Returns a builder that starts with the prologue of `wrapper`, if any, and will end the
    /// last block with its epilogue.
    pub fn new(wrapper: Option<BodyWrapper>) -> (r: Self)
        ensures
            r.decorators() == Seq::<(usize, Decorator)>::empty(),
            r.last_asmop_pos() == 0,
            match wrapper {
                Some(w) => r.ops() == w.prologue@ && r.epilogue() == w.epilogue@,
                None => r.ops() == Seq::<Operation>::empty() && r.epilogue()
                    == Seq::<Operation>::empty(),
            },
    {
        match wrapper {
            Some(wrapper) => SpanBuilder {
                ops: wrapper.prologue,
                decorators: Vec::new(),
                epilogue: wrapper.epilogue,
                last_asmop_pos: 0,
            },
            None => SpanBuilder {
                ops: Vec::new(),
                decorators: Vec::new(),
                epilogue: Vec::new(),
                last_asmop_pos: 0,
            },
        }
    }

    /// Adds the specified operation to the list of span operations and returns Ok(None).
    pub fn add_op(&mut self, op: Operation) -> (r: Result<Option<SpanBlock>, AssemblyError>)
        ensures
            final(self).ops() == old(self).ops().push(op),
            final(self).decorators() == old(self).decorators(),
            final(self).epilogue() == old(self).epilogue(),
            final(self).last_asmop_pos() == old(self).last_asmop_pos(),
            r matches Ok(None),
    {
        self.ops.push(op);
        Ok(None)
    }

    /// Adds the specified sequence of operations to the list of span operations and returns
    /// Ok(None).
    pub fn add_ops(&mut self, ops: &[Operation]) -> (r: Result<Option<SpanBlock>, AssemblyError>)
        ensures
            final(self).ops() == old(self).ops() + ops@,
            final(self).decorators() == old(self).decorators(),
            final(self).epilogue() == old(self).epilogue(),
            final(self).last_asmop_pos() == old(self).last_asmop_pos(),
            r matches Ok(None),
    {
        self.push_ops(ops);
        Ok(None)
    }

    /// Adds the specified operation to the list of span operations.
    pub fn push_op(&mut self, op: Operation)
        ensures
            final(self).ops() == old(self).ops().push(op),
            final(self).decorators() == old(self).decorators(),
            final(self).epilogue() == old(self).epilogue(),
            final(self).last_asmop_pos() == old(self).last_asmop_pos(),
    {
        self.ops.push(op);
    }

    /// Adds the specified sequence of operations to the list of span operations.
    pub fn push_ops(&mut self, ops: &[Operation])
        ensures
            final(self).ops() == old(self).ops() + ops@,
            final(self).decorators() == old(self).decorators(),
            final(self).epilogue() == old(self).epilogue(),
            final(self).last_asmop_pos() == old(self).last_asmop_pos(),
    {
        let ghost start = self.ops@;
        let n = ops.len();
        let mut i: usize = 0;
        while i < n
            invariant
                n == ops@.len(),
                i <= n,
                self.ops@ == start + ops@.take(i as int),
                self.decorators@ == old(self).decorators@,
                self.epilogue@ == old(self).epilogue@,
                self.last_asmop_pos == old(self).last_asmop_pos,
            decreases n - i,
        {
            self.ops.push(ops[i]);
            i = i + 1;
            proof {
                assert(self.ops@ =~= start + ops@.take(i as int));
            }
        }
        proof {
            assert(ops@.take(n as int) =~= ops@);
        }
    }

    /// Adds the specified operation `n` times to the list of span operations.
    pub fn push_op_many(&mut self, op: Operation, n: usize)
        ensures
            final(self).ops() == old(self).ops() + Seq::new(n as nat, |i: int| op),
            final(self).decorators() == old(self).decorators(),
            final(self).epilogue() == old(self).epilogue(),
            final(self).last_asmop_pos() == old(self).last_asmop_pos(),
    {
        let ghost start = self.ops@;
        let mut i: usize = 0;
        while i < n
            invariant
                i <= n,
                self.ops@ == start + Seq::new(i as nat, |k: int| op),
                self.decorators@ == old(self).decorators@,
                self.epilogue@ == old(self).epilogue@,
                self.last_asmop_pos == old(self).last_asmop_pos,
            decreases n - i,
        {
            self.ops.push(op);
            i = i + 1;
            proof {
                assert(self.ops@ =~= start + Seq::new(i as nat, |k: int| op));
            }
        }
    }

    /// Adds the specified decorator to the list of span decorators, at the current position.
    pub fn push_decorator(&mut self, decorator: Decorator)
        ensures
            final(self).ops() == old(self).ops(),
            final(self).decorators() == old(self).decorators().push((old(self).ops().len() as usize, decorator)),
            final(self).epilogue() == old(self).epilogue(),
            final(self).last_asmop_pos() == old(self).last_asmop_pos(),
    {
        let pos = self.ops.len();
        self.decorators.push((pos, decorator));
    }

    /// Adds the specified decorator to the list of span decorators and returns Ok(None).
    pub fn add_decorator(&mut self, decorator: Decorator) -> (r: Result<Option<SpanBlock>, AssemblyError>)
        ensures
            final(self).ops() == old(self).ops(),
            final(self).decorators() == old(self).decorators().push((old(self).ops().len() as usize, decorator)),
            final(self).epilogue() == old(self).epilogue(),
            final(self).last_asmop_pos() == old(self).last_asmop_pos(),
            r matches Ok(None),
    {
        self.push_decorator(decorator);
        Ok(None)
    }

    /// Adds an AsmOp decorator for the instruction with text `instruction`, with a cycle count of
    /// zero, and remembers it as the instruction being tracked; its cycle count is computed by the
    /// next call to [SpanBuilder::set_instruction_cycle_count].
    pub fn track_instruction(&mut self, instruction: String)
        requires
            old(self).decorators().len() < usize::MAX,
        ensures
            final(self).ops() == old(self).ops(),
            final(self).decorators().len() == old(self).decorators().len() + 1,
            final(self).decorators().drop_last() == old(self).decorators(),
            final(self).decorators().last().0 == old(self).ops().len(),
            final(self).decorators().last().1 matches Decorator::AsmOp(a) && a.op@ == instruction@
                && a.num_cycles == 0,
            final(self).epilogue() == old(self).epilogue(),
            final(self).last_asmop_pos() == old(self).decorators().len(),
    {
        let op = AssemblyOp::new(instruction, 0);
        let n = self.ops.len();
        self.push_decorator(Decorator::AsmOp(op));
        self.last_asmop_pos = self.decorators.len() - 1;
        proof {
            assert(self.decorators@.drop_last() =~= old(self).decorators@);
        }
    }

    /// Sets the cycle count of the tracked instruction to the number of operations added since
    /// it was tracked (modulo 256).
    pub fn set_instruction_cycle_count(&mut self)
        requires
            old(self).last_asmop_pos() < old(self).decorators().len(),
            old(self).decorators()[old(self).last_asmop_pos() as int].1 is AsmOp,
            old(self).decorators()[old(self).last_asmop_pos() as int].0 <= old(self).ops().len(),
        ensures
            final(self).ops() == old(self).ops(),
            final(self).epilogue() == old(self).epilogue(),
            final(self).last_asmop_pos() == old(self).last_asmop_pos(),
            final(self).decorators().len() == old(self).decorators().len(),
            forall|i: int|
                0 <= i < old(self).decorators().len() && i != old(self).last_asmop_pos()
                    ==> final(self).decorators()[i] == old(self).decorators()[i],
            ({
                let (start, d) = old(self).decorators()[old(self).last_asmop_pos() as int];
                let (start2, d2) = final(self).decorators()[old(self).last_asmop_pos() as int];
                &&& start2 == start
                &&& d2 matches Decorator::AsmOp(a2) && a2.op@ == d->AsmOp_0.op@
                    && a2.num_cycles == (old(self).ops().len() - start) as u8
            }),
    {
        let pos = self.last_asmop_pos;
        let (start, dec) = self.decorators.remove(pos);
        let cycle_count = self.ops.len() - start;
        match dec {
            Decorator::AsmOp(mut op) => {
                op.set_num_cycles(cycle_count as u8);
                self.decorators.insert(pos, (start, Decorator::AsmOp(op)));
            },
            other => {
                proof {
                    assert(false);
                }
                self.decorators.insert(pos, (start, other));
            },
        }
        proof {
            assert forall|i: int|
                0 <= i < old(self).decorators@.len() && i != pos implies self.decorators@[i] == old(self).decorators@[i] by {
            }
        }
    }

    /// Creates a new basic block from the operations and decorators currently in this builder and
    /// appends it to `target`; nothing is appended when there are no operations.
    ///
    /// This consumes all operations and decorators in the builder, but does not touch the
    /// operations in its epilogue. Decorators are never added without an operation to follow.
    pub fn extract_span_into(&mut self, target: &mut Vec<SpanBlock>)
        requires
            old(self).ops().len() == 0 ==> old(self).decorators().len() == 0,
        ensures
            final(self).ops() == Seq::<Operation>::empty(),
            final(self).decorators() == Seq::<(usize, Decorator)>::empty(),
            final(self).epilogue() == old(self).epilogue(),
            final(self).last_asmop_pos() == old(self).last_asmop_pos(),
            old(self).ops().len() == 0 ==> final(target)@ == old(target)@,
            old(self).ops().len() > 0 ==> {
                &&& final(target)@.len() == old(target)@.len() + 1
                &&& final(target)@.drop_last() == old(target)@
                &&& final(target)@.last().ops@ == old(self).ops()
                &&& final(target)@.last().decorators@ == old(self).decorators()
            },
    {
        if self.ops.len() > 0 {
            let mut ops: Vec<Operation> = Vec::new();
            let mut decorators: Vec<(usize, Decorator)> = Vec::new();
            std::mem::swap(&mut ops, &mut self.ops);
            std::mem::swap(&mut decorators, &mut self.decorators);
            target.push(SpanBlock { ops, decorators });
            proof {
                assert(target@.drop_last() =~= old(target)@);
            }
        }
    }

    /// Creates the last basic block: the epilogue of the builder is appended to its operations,
    /// and the block, if it has any operations, is appended to `target`.
    pub fn extract_final_span_into(self, target: &mut Vec<SpanBlock>)
        requires
            self.ops().len() + self.epilogue().len() == 0 ==> self.decorators().len() == 0,
        ensures
            self.ops().len() + self.epilogue().len() == 0 ==> final(target)@ == old(target)@,
            self.ops().len() + self.epilogue().len() > 0 ==> {
                &&& final(target)@.len() == old(target)@.len() + 1
                &&& final(target)@.drop_last() == old(target)@
                &&& final(target)@.last().ops@ == self.ops() + self.epilogue()
                &&& final(target)@.last().decorators@ == self.decorators()
            },
    {
        let mut this = self;
        let mut epilogue: Vec<Operation> = Vec::new();
        std::mem::swap(&mut epilogue, &mut this.epilogue);
        this.ops.append(&mut epilogue);
        this.extract_span_into(target);
    }
}

} // verus!
