//! The optimizer's state, and its rewrites of immediately-invoked functions.

use vstd::prelude::*;

use fxhash::FxHashMap;

use crate::ast::{Expr, Id, Stmt};

verus! {

/// The options of the optimizer that the rewrites read.
#[derive(Clone, Copy, Debug)]
pub struct CompressOptions {
    /// Turn `(function(){})()` into `!function(){}()` where the value is unused.
    pub negate_iife: bool,
    /// The inlining level; `0` turns inlining off.
    pub inline: u8,
}

/// What the optimizer knows of where it stands in the tree.
#[derive(Clone, Copy, Debug)]
pub struct Ctx {
    /// Inside the argument of a `!`.
    pub in_bang_arg: bool,
    /// Negated IIFEs are not wanted here.
    pub dont_use_negated_iife: bool,
    /// Inlining is forbidden here.
    pub inline_prevented: bool,
    /// Optimizing a whole program (not a function body on its own).
    pub top_level: bool,
    /// Inside a function.
    pub in_fn_like: bool,
    /// Inside an argument of a call.
    pub in_call_arg: bool,
    /// Inside the object of a non-computed member access (`obj.prop`).
    pub in_obj_of_non_computed_member: bool,
    /// Inside code that may run more than once (a loop body).
    pub executed_multiple_time: bool,
}

impl Ctx {
    /// At the top level: in top-level mode, or outside every function.
    pub open spec fn spec_in_top_level(&self) -> bool {
        self.top_level || !self.in_fn_like
    }

    #[verifier::when_used_as_spec(spec_in_top_level)]
    pub fn in_top_level(&self) -> (r: bool)
        ensures
            r == self.spec_in_top_level(),
    {
        self.top_level || !self.in_fn_like
    }
}

/// What the analysis found about one binding.
#[derive(Clone, Copy, Debug)]
pub struct VarUsageInfo {
    /// The binding is assigned after its declaration.
    pub reassigned: bool,
    /// How many times the binding is read.
    pub ref_count: usize,
}

/// What the analysis found about the program.
pub struct ProgramData {
    pub vars: FxHashMap<Id, VarUsageInfo>,
}

/// State of the optimizer that its visits read.
pub struct OptimizerState {
    /// Expressions that stand for bindings, replaced into the node being visited.
    pub vars_for_inlining: FxHashMap<Id, Box<Expr>>,
}

/// The syntax contexts that the optimizer stamps on the nodes it makes.
#[derive(Clone, Copy, Debug)]
pub struct Marks {
    /// The syntax context of an empty span with the non-top-level mark applied.
    pub non_top_level: u32,
}

/// The optimizer.
pub struct Optimizer {
    pub options: CompressOptions,
    pub ctx: Ctx,
    pub state: OptimizerState,
    pub data: Option<ProgramData>,
    pub marks: Marks,
    /// Whether anything was changed.
    pub changed: bool,
    /// Statements to insert before the statement being optimized.
    pub prepend_stmts: Vec<Stmt>,
    /// The source positions that carry a `/*#__NOINLINE__*/` comment.
    pub noinline_positions: Vec<u32>,
}

} // verus!
