//! Typed call nodes and the classifier that produces them.
//!
//! The foreign model represents ordinary calls and inline-assembly calls
//! uniformly; here a call's callee is a closed two-variant type, so every
//! consumer must handle both cases and a node can never carry both payloads
//! or neither.

use vstd::prelude::*;

use crate::debugloc::{DebugLoc, HasDebugLoc, LocModel, with_col_model};
use crate::foreign::LlvmCallInfo;

verus! {

/// The dialect tag of an inline-assembly fragment, taken verbatim from the
/// foreign record.
#[derive(Clone, Copy, Debug, PartialEq, Eq, Hash, Structural)]
pub enum AssemblyDialect {
    ATT,
    Intel,
}

/// Spec-level value of an [`InlineAssembly`] payload.
#[verifier::ext_equal]
pub ghost struct AsmModel {
    pub assembly: Seq<char>,
    pub constraints: Seq<char>,
    pub has_side_effects: bool,
    pub can_unwind: bool,
    pub needs_aligned_stack: bool,
    pub dialect: AssemblyDialect,
}

/// An inline-assembly block standing in callee position, copied verbatim
/// from the foreign record: no reinterpretation, no defaulting.
#[derive(Clone, Debug)]
pub struct InlineAssembly {
    /// The raw assembly text
    pub assembly: String,
    /// The constraint string
    pub constraints: String,
    pub has_side_effects: bool,
    pub can_unwind: bool,
    pub needs_aligned_stack: bool,
    pub dialect: AssemblyDialect,
}

impl View for InlineAssembly {
    type V = AsmModel;

    open spec fn view(&self) -> AsmModel {
        AsmModel {
            assembly: self.assembly@,
            constraints: self.constraints@,
            has_side_effects: self.has_side_effects,
            can_unwind: self.can_unwind,
            needs_aligned_stack: self.needs_aligned_stack,
            dialect: self.dialect,
        }
    }
}

impl DeepView for InlineAssembly {
    type V = AsmModel;

    open spec fn deep_view(&self) -> AsmModel {
        self.view()
    }
}

/// Spec-level value of a [`Callee`].
#[verifier::ext_equal]
pub ghost enum CalleeModel {
    InlineAssembly(AsmModel),
    Value(Seq<char>),
}

/// What a call calls: exactly one of an inline-assembly payload or an
/// ordinary value reference.
///
/// The ordinary case carries the callee's name, a lookup key against the
/// module being built rather than an owning edge, so recursive call graphs
/// stay acyclic in ownership terms.
#[derive(Clone, Debug)]
pub enum Callee {
    InlineAssembly(InlineAssembly),
    Value(String),
}

impl View for Callee {
    type V = CalleeModel;

    open spec fn view(&self) -> CalleeModel {
        match self {
            Callee::InlineAssembly(a) => CalleeModel::InlineAssembly(a@),
            Callee::Value(n) => CalleeModel::Value(n@),
        }
    }
}

impl DeepView for Callee {
    type V = CalleeModel;

    open spec fn deep_view(&self) -> CalleeModel {
        self.view()
    }
}

impl Callee {
    /// The inline-assembly payload, if this callee is one.
    pub fn left(&self) -> (r: Option<&InlineAssembly>)
        ensures
            match self@ {
                CalleeModel::InlineAssembly(m) => r matches Some(a) && a@ == m,
                CalleeModel::Value(_) => r is None,
            },
    {
        match self {
            Callee::InlineAssembly(a) => Some(a),
            Callee::Value(_) => None,
        }
    }

    /// The ordinary callee's name, if this callee is one.
    pub fn right(&self) -> (r: Option<&String>)
        ensures
            match self@ {
                CalleeModel::Value(m) => r matches Some(n) && n@ == m,
                CalleeModel::InlineAssembly(_) => r is None,
            },
    {
        match self {
            Callee::InlineAssembly(_) => None,
            Callee::Value(n) => Some(n),
        }
    }
}

/// A call's callee is exactly one of the two variants: an inline-assembly
/// payload or an ordinary value reference — never both, never neither.
pub proof fn lemma_callee_exclusive(c: Callee)
    ensures
        (c is InlineAssembly) <==> !(c is Value),
{
}

/// Spec-level value of a [`Call`].
#[verifier::ext_equal]
pub ghost struct CallModel {
    pub function: CalleeModel,
    pub debugloc: Option<LocModel>,
}

/// The callee a foreign call record classifies to: the assembly payload
/// verbatim when the discriminator reports inline assembly, else a
/// reference to the reported callee name.
pub open spec fn callee_model(rec: LlvmCallInfo) -> CalleeModel {
    if rec.is_inline_assembly {
        CalleeModel::InlineAssembly(
            AsmModel {
                assembly: rec.assembly@,
                constraints: rec.constraints@,
                has_side_effects: rec.has_side_effects,
                can_unwind: rec.can_unwind,
                needs_aligned_stack: rec.needs_aligned_stack,
                dialect: rec.dialect,
            },
        )
    } else {
        CalleeModel::Value(rec.callee_name@)
    }
}

/// The call node a foreign call record reconstructs to.
pub open spec fn call_model(rec: LlvmCallInfo) -> CallModel {
    CallModel { function: callee_model(rec), debugloc: with_col_model(rec.debug) }
}

/// A reconstructed call instruction.
#[derive(Clone, Debug)]
pub struct Call {
    /// What is called
    pub function: Callee,
    /// The call's source location, if it has one
    pub debugloc: Option<DebugLoc>,
}

impl View for Call {
    type V = CallModel;

    open spec fn view(&self) -> CallModel {
        CallModel { function: self.function@, debugloc: self.debugloc.deep_view() }
    }
}

impl DeepView for Call {
    type V = CallModel;

    open spec fn deep_view(&self) -> CallModel {
        self.view()
    }
}

impl Call {
    /// Classify a foreign call record into a typed call node, attaching
    /// its with-column location.
    pub fn from_llvm(rec: &LlvmCallInfo) -> (c: Call)
        requires
            rec.wf(),
        ensures
            c@ == call_model(*rec),
    {
        let function = if rec.is_inline_assembly {
            Callee::InlineAssembly(
                InlineAssembly {
                    assembly: rec.assembly.clone(),
                    constraints: rec.constraints.clone(),
                    has_side_effects: rec.has_side_effects,
                    can_unwind: rec.can_unwind,
                    needs_aligned_stack: rec.needs_aligned_stack,
                    dialect: rec.dialect,
                },
            )
        } else {
            Callee::Value(rec.callee_name.clone())
        };
        let c = Call { function, debugloc: DebugLoc::from_llvm_with_col(&rec.debug) };
        proof {
            assert(c@ =~= call_model(*rec));
        }
        c
    }
}

impl HasDebugLoc for Call {
    open spec fn spec_debug_loc(&self) -> Option<DebugLoc> {
        self.debugloc
    }

    fn get_debug_loc(&self) -> (r: &Option<DebugLoc>) {
        &self.debugloc
    }
}

/// Spec-level value of an [`Instruction`].
#[verifier::ext_equal]
pub ghost enum InstrModel {
    Call(CallModel),
}

/// A reconstructed instruction.  Only call-shaped instructions are
/// covered here.
#[derive(Clone, Debug)]
pub enum Instruction {
    Call(Call),
}

impl View for Instruction {
    type V = InstrModel;

    open spec fn view(&self) -> InstrModel {
        match self {
            Instruction::Call(c) => InstrModel::Call(c@),
        }
    }
}

impl DeepView for Instruction {
    type V = InstrModel;

    open spec fn deep_view(&self) -> InstrModel {
        self.view()
    }
}

impl Instruction {
    /// The call this instruction is.
    pub fn as_call(&self) -> (r: &Call)
        ensures
            self@ == InstrModel::Call(r@),
    {
        match self {
            Instruction::Call(c) => c,
        }
    }
}

impl HasDebugLoc for Instruction {
    open spec fn spec_debug_loc(&self) -> Option<DebugLoc> {
        match self {
            Instruction::Call(c) => c.debugloc,
        }
    }

    fn get_debug_loc(&self) -> (r: &Option<DebugLoc>) {
        match self {
            Instruction::Call(c) => c.get_debug_loc(),
        }
    }
}

} // verus!
