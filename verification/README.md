# miden-assembly (verified core)

The parts of the Miden assembler that decide what code is produced, written in Verus and proved
against their contracts:

- `callgraph`: the call graph of procedures, its topological sorts and cycle detection;
- `instruction`: the lowering of each assembly instruction into VM operations and decorators,
  with the cycle counts of the instructions, and `compile` for a whole instruction;
- `span_builder`: the accumulation of operations and decorators into basic blocks;
- `procedure`, `procedure_cache`: procedures being compiled and compiled, and their cache;
- `mast`: reachability in a MAST forest and the removal of dead nodes;
- `ast`: instructions, module kinds and identifiers; `ast::encoding` and `ast::binary`, the
  binary form of instructions (an operation code, then its immediates), written and read back,
  with the proof that the bytes determine the instruction; `ast::text`, the text of
  instructions;
- `format`: the text of numbers, pushes and procedure headers;
- `linker`: the inputs of the linker;
- `module_graph`: the modules of a program, their analysis into a call graph with its
  topological order, and the resolution of procedure references across them, following
  re-exports and reporting recursive aliases.

`app/` converts the values of the library into the types of `miden-core`, and reports errors.

## Collections

The ordered maps and sets that the assembler keys by its own types are held as vectors, with
the invariant that the ordered collection gave:

- the call graph: its nodes, in increasing order, and one callee list per node, in sorted
  vectors; a cycle error holds its nodes in a sorted vector;
- the module graph: the procedures bound to each MAST root, and the root recorded for each
  procedure, as vectors of pairs with unique keys (the bindings of a root in a `Vec` rather than
  a `SmallVec`);
- a procedure's callset: a vector without duplicates;
- the procedure cache: slots per module, and a vector of (root, identifier) pairs with unique
  roots;
- dead-code elimination: the live nodes as a `Vec<bool>` by node index, and the new identifier
  of each node as a `Vec<Option<MastNodeId>>`.

Their keys (`GlobalProcedureIndex`, `RpoDigest`) are the library's own structs, ordered by a
derived `Ord` whose code the verifier does not read, so a map keyed by them would prove nothing
of its lookups; each vector's contract states the map or set it stands for.
