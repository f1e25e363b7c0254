//! Owned modules, functions and basic blocks, rebuilt in source order.
//!
//! Reconstruction is a single top-down walk: module, then functions, then
//! basic blocks, then instructions.  Every node is stored by value into its
//! owning parent in traversal order, which reflects source program order
//! and must be preserved for deterministic diagnostics and control-flow
//! reasoning downstream.

use vstd::prelude::*;

use std::cmp::Ordering;
use crate::debugloc::{
    DebugLoc,
    HasDebugLoc,
    LocModel,
    lemma_chars_cmp_equal,
    no_col_model,
    str_cmp,
};
use crate::foreign::{LlvmBlockInfo, LlvmFunctionInfo, LlvmModuleInfo};
use crate::instruction::{Call, Instruction, InstrModel, call_model};

verus! {

/// Spec-level value of a [`BasicBlock`].
#[verifier::ext_equal]
pub ghost struct BlockModel {
    pub name: Seq<char>,
    pub instrs: Seq<InstrModel>,
}

/// Spec-level value of a [`Function`].
#[verifier::ext_equal]
pub ghost struct FuncModel {
    pub name: Seq<char>,
    pub basic_blocks: Seq<BlockModel>,
    pub debugloc: Option<LocModel>,
}

/// Spec-level value of a [`Module`].
#[verifier::ext_equal]
pub ghost struct ModuleModel {
    pub name: Seq<char>,
    pub functions: Seq<FuncModel>,
}

/// The block a foreign block record reconstructs to: its instructions in
/// the record's order, each classified as a call node.
pub open spec fn block_model(rec: LlvmBlockInfo) -> BlockModel {
    BlockModel {
        name: rec.name@,
        instrs: Seq::new(rec.instrs@.len(), |i: int| InstrModel::Call(call_model(rec.instrs@[i]))),
    }
}

/// The function a foreign function record reconstructs to: its blocks in
/// the record's order, and its own no-column location.
pub open spec fn func_model(rec: LlvmFunctionInfo) -> FuncModel {
    FuncModel {
        name: rec.name@,
        basic_blocks: Seq::new(rec.blocks@.len(), |i: int| block_model(rec.blocks@[i])),
        debugloc: no_col_model(rec.debug),
    }
}

/// The module a foreign module record reconstructs to: its functions in
/// the record's order.
pub open spec fn module_model(rec: LlvmModuleInfo) -> ModuleModel {
    ModuleModel {
        name: rec.name@,
        functions: Seq::new(rec.functions@.len(), |i: int| func_model(rec.functions@[i])),
    }
}

/// A reconstructed basic block: its call-shaped instructions, in source
/// order.
#[derive(Clone, Debug)]
pub struct BasicBlock {
    pub name: String,
    pub instrs: Vec<Instruction>,
}

impl View for BasicBlock {
    type V = BlockModel;

    open spec fn view(&self) -> BlockModel {
        BlockModel { name: self.name@, instrs: self.instrs.deep_view() }
    }
}

impl DeepView for BasicBlock {
    type V = BlockModel;

    open spec fn deep_view(&self) -> BlockModel {
        self.view()
    }
}

impl BasicBlock {
    /// Rebuild one block, classifying each foreign call record in order.
    pub fn from_llvm(rec: &LlvmBlockInfo) -> (b: BasicBlock)
        requires
            rec.wf(),
        ensures
            b@ == block_model(*rec),
    {
        let mut instrs: Vec<Instruction> = Vec::new();
        let n = rec.instrs.len();
        let mut i: usize = 0;
        while i < n
            invariant
                rec.wf(),
                n == rec.instrs@.len(),
                i <= n,
                instrs@.len() == i,
                forall|j: int|
                    0 <= j < i ==> #[trigger] instrs@[j]@ == InstrModel::Call(
                        call_model(rec.instrs@[j]),
                    ),
            decreases n - i,
        {
            let call = Call::from_llvm(&rec.instrs[i]);
            instrs.push(Instruction::Call(call));
            i = i + 1;
        }
        let b = BasicBlock { name: rec.name.clone(), instrs };
        proof {
            assert(b@.instrs =~= block_model(*rec).instrs);
            assert(b@ =~= block_model(*rec));
        }
        b
    }
}

/// A reconstructed function definition: its basic blocks in source order,
/// and its optional location record.
#[derive(Clone, Debug)]
pub struct Function {
    pub name: String,
    pub basic_blocks: Vec<BasicBlock>,
    pub debugloc: Option<DebugLoc>,
}

impl View for Function {
    type V = FuncModel;

    open spec fn view(&self) -> FuncModel {
        FuncModel {
            name: self.name@,
            basic_blocks: self.basic_blocks.deep_view(),
            debugloc: self.debugloc.deep_view(),
        }
    }
}

impl DeepView for Function {
    type V = FuncModel;

    open spec fn deep_view(&self) -> FuncModel {
        self.view()
    }
}

impl Function {
    /// Rebuild one function: every block in order, plus the function's own
    /// location (functions carry no column).
    pub fn from_llvm(rec: &LlvmFunctionInfo) -> (f: Function)
        requires
            rec.wf(),
        ensures
            f@ == func_model(*rec),
    {
        let mut basic_blocks: Vec<BasicBlock> = Vec::new();
        let n = rec.blocks.len();
        let mut i: usize = 0;
        while i < n
            invariant
                rec.wf(),
                n == rec.blocks@.len(),
                i <= n,
                basic_blocks@.len() == i,
                forall|j: int|
                    0 <= j < i ==> #[trigger] basic_blocks@[j]@ == block_model(rec.blocks@[j]),
            decreases n - i,
        {
            let block = BasicBlock::from_llvm(&rec.blocks[i]);
            basic_blocks.push(block);
            i = i + 1;
        }
        let f = Function {
            name: rec.name.clone(),
            basic_blocks,
            debugloc: DebugLoc::from_llvm_no_col(&rec.debug),
        };
        proof {
            assert(f@.basic_blocks =~= func_model(*rec).basic_blocks);
            assert(f@ =~= func_model(*rec));
        }
        f
    }
}

impl HasDebugLoc for Function {
    open spec fn spec_debug_loc(&self) -> Option<DebugLoc> {
        self.debugloc
    }

    fn get_debug_loc(&self) -> (r: &Option<DebugLoc>) {
        &self.debugloc
    }
}

/// The first function named `name`, scanning in module order.
pub open spec fn find_func(funcs: Seq<FuncModel>, name: Seq<char>) -> Option<FuncModel>
    decreases funcs.len(),
{
    if funcs.len() == 0 {
        None
    } else if funcs[0].name == name {
        Some(funcs[0])
    } else {
        find_func(funcs.skip(1), name)
    }
}

fn str_eq(a: &str, b: &str) -> (r: bool)
    ensures
        r == (a@ == b@),
{
    let c = str_cmp(a, b);
    proof {
        lemma_chars_cmp_equal(a@, b@);
    }
    match c {
        Ordering::Equal => true,
        _ => false,
    }
}

/// The load of a module failed: the foreign parser rejected the input as
/// corrupt, truncated or from an unsupported toolchain version.  This is
/// terminal — no partial graph accompanies it.
#[derive(Clone, Debug)]
pub struct LoadError {
    /// The parser's description of the rejection.
    pub message: String,
}

/// A reconstructed module: a fully owned snapshot of the foreign module,
/// holding no foreign handle.
#[derive(Clone, Debug)]
pub struct Module {
    pub name: String,
    pub functions: Vec<Function>,
}

impl View for Module {
    type V = ModuleModel;

    open spec fn view(&self) -> ModuleModel {
        ModuleModel { name: self.name@, functions: self.functions.deep_view() }
    }
}

impl DeepView for Module {
    type V = ModuleModel;

    open spec fn deep_view(&self) -> ModuleModel {
        self.view()
    }
}

impl Module {
    /// Rebuild a whole loaded module, top-down, in one pass.
    pub fn from_llvm(rec: &LlvmModuleInfo) -> (m: Module)
        requires
            rec.wf(),
        ensures
            m@ == module_model(*rec),
    {
        let mut functions: Vec<Function> = Vec::new();
        let n = rec.functions.len();
        let mut i: usize = 0;
        while i < n
            invariant
                rec.wf(),
                n == rec.functions@.len(),
                i <= n,
                functions@.len() == i,
                forall|j: int|
                    0 <= j < i ==> #[trigger] functions@[j]@ == func_model(rec.functions@[j]),
            decreases n - i,
        {
            let f = Function::from_llvm(&rec.functions[i]);
            functions.push(f);
            i = i + 1;
        }
        let m = Module { name: rec.name.clone(), functions };
        proof {
            assert(m@.functions =~= module_model(*rec).functions);
            assert(m@ =~= module_model(*rec));
        }
        m
    }

    /// Accept the outcome of the foreign load: a failed load is surfaced
    /// unchanged and yields no graph at all, a successful one is rebuilt
    /// whole.
    pub fn from_load(loaded: Result<LlvmModuleInfo, LoadError>) -> (r: Result<Module, LoadError>)
        requires
            loaded matches Ok(rec) ==> rec.wf(),
        ensures
            loaded is Err <==> r is Err,
            loaded matches Ok(rec) ==> r matches Ok(m) && m@ == module_model(rec),
            loaded matches Err(e) ==> r == Result::<Module, LoadError>::Err(e),
    {
        match loaded {
            Ok(rec) => Ok(Module::from_llvm(&rec)),
            Err(e) => Err(e),
        }
    }

    /// The first function of the module carrying the given name, or `None`
    /// if no function does.
    pub fn get_func_by_name(&self, name: &str) -> (r: Option<&Function>)
        ensures
            match r {
                Some(f) => find_func(self@.functions, name@) == Some(f@),
                None => find_func(self@.functions, name@) is None,
            },
    {
        let n = self.functions.len();
        let mut i: usize = 0;
        proof {
            assert(self@.functions.skip(0) =~= self@.functions);
        }
        while i < n
            invariant
                n == self.functions@.len(),
                i <= n,
                find_func(self@.functions.skip(i as int), name@) == find_func(
                    self@.functions,
                    name@,
                ),
            decreases n - i,
        {
            if str_eq(self.functions[i].name.as_str(), name) {
                let f = &self.functions[i];
                proof {
                    assert(self@.functions.skip(i as int)[0] == f@);
                }
                return Some(f);
            }
            proof {
                assert(self@.functions.skip(i as int).skip(1) =~= self@.functions.skip(i + 1));
            }
            i = i + 1;
        }
        None
    }
}

} // verus!
