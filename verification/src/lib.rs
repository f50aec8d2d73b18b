//! Verified core of the Miden assembler: procedure identifiers, the call graph and its
//! topological analyses, the lowering of assembly instructions into VM operations, the cache of
//! compiled procedures, the removal of dead MAST nodes, the binary form of operation codes, the
//! resolution of procedure names across modules, and the text of programs.

pub mod id;
pub mod callgraph;
pub mod felt;
pub mod ops;
pub mod errors;
pub mod span_builder;
pub mod instruction;
pub mod procedure;
pub mod ast;
pub mod linker;
pub mod format;
pub mod mast;
pub mod procedure_cache;
pub mod module_graph;
