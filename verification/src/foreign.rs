//! Plain-value snapshots of what the foreign handle layer reports.
//!
//! The native toolchain owns the parsed module and answers point queries
//! (filename of a handle, line of a handle, whether a call is inline
//! assembly, ...) through opaque handles that are only valid while the
//! module is loaded.  The reconstruction logic never touches those handles:
//! whoever drives the walk copies each query's answer into the records
//! below, and the verified code works on these owned values alone.

use vstd::prelude::*;

use crate::instruction::AssemblyDialect;

verus! {

/// The kind of value a foreign handle stands for.
///
/// Only these four kinds carry debug locations; the with-column query is
/// meaningful for instructions and terminators alone.
#[derive(Clone, Copy, Debug, PartialEq, Eq, Structural)]
pub enum ValueKind {
    Instruction,
    Terminator,
    Function,
    GlobalVariable,
}

/// What the foreign debug-location queries report for one handle.
///
/// `filename` and `directory` are `None` where the corresponding query
/// reports no value.  `line` and `col` are the raw answers of the line and
/// column queries; they are meaningless unless a filename is present, and
/// `col` is meaningful only for instruction and terminator handles.
#[derive(Clone, Debug)]
pub struct LlvmValueInfo {
    pub kind: ValueKind,
    pub filename: Option<String>,
    pub directory: Option<String>,
    pub line: u32,
    pub col: u32,
}

impl LlvmValueInfo {
    /// True for handles on which the with-column query may be asked.
    pub open spec fn col_allowed(self) -> bool {
        self.kind is Instruction || self.kind is Terminator
    }
}

/// What the foreign queries report for one call instruction.
///
/// The foreign model represents ordinary calls and inline-assembly calls
/// uniformly; `is_inline_assembly` is the discriminator query, and the
/// payload fields hold whichever accessors apply.  `callee_name` is the
/// name under which an ordinary callee is resolved against the module;
/// the assembly fields are the verbatim answers of the assembly accessors.
#[derive(Clone, Debug)]
pub struct LlvmCallInfo {
    pub is_inline_assembly: bool,
    pub assembly: String,
    pub constraints: String,
    pub has_side_effects: bool,
    pub can_unwind: bool,
    pub needs_aligned_stack: bool,
    pub dialect: AssemblyDialect,
    pub callee_name: String,
    pub debug: LlvmValueInfo,
}

impl LlvmCallInfo {
    /// A call record comes from an instruction handle.
    pub open spec fn wf(self) -> bool {
        self.debug.kind is Instruction
    }
}

/// What the foreign queries report for one basic block.
///
/// Only call-shaped instructions are covered here; `instrs` lists them in
/// source order, which reconstruction must preserve.
#[derive(Clone, Debug)]
pub struct LlvmBlockInfo {
    pub name: String,
    pub instrs: Vec<LlvmCallInfo>,
}

impl LlvmBlockInfo {
    pub open spec fn wf(self) -> bool {
        forall|i: int| 0 <= i < self.instrs@.len() ==> (#[trigger] self.instrs@[i]).wf()
    }
}

/// What the foreign queries report for one function definition.
#[derive(Clone, Debug)]
pub struct LlvmFunctionInfo {
    pub name: String,
    pub blocks: Vec<LlvmBlockInfo>,
    pub debug: LlvmValueInfo,
}

impl LlvmFunctionInfo {
    pub open spec fn wf(self) -> bool {
        &&& self.debug.kind is Function
        &&& forall|i: int| 0 <= i < self.blocks@.len() ==> (#[trigger] self.blocks@[i]).wf()
    }
}

/// What the foreign queries report for one whole module.
#[derive(Clone, Debug)]
pub struct LlvmModuleInfo {
    pub name: String,
    pub functions: Vec<LlvmFunctionInfo>,
}

impl LlvmModuleInfo {
    pub open spec fn wf(self) -> bool {
        forall|i: int| 0 <= i < self.functions@.len() ==> (#[trigger] self.functions@[i]).wf()
    }
}

} // verus!
