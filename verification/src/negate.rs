//! Negating immediately-invoked function expressions (IIFEs) and undoing it.

use vstd::prelude::*;

use crate::ast::{CallExpr, CondExpr, Expr, ExprOrSuper, Invalid, UnaryExpr, UnaryOp, dummy_sp, spec_dummy_sp};
use crate::optimizer::Optimizer;

verus! {

/// What a node holds after its content was taken out.
pub open spec fn spec_invalid() -> Expr {
    Expr::Invalid(Invalid { span: spec_dummy_sp() })
}

/// Takes an expression out of its place, leaving an invalid node there.
pub fn take_expr(e: &mut Expr) -> (r: Expr)
    ensures
        r == *old(e),
        *final(e) == spec_invalid(),
{
    let mut t = Expr::Invalid(Invalid { span: dummy_sp() });
    std::mem::swap(e, &mut t);
    t
}

/// `!e`, made by the optimizer.
pub open spec fn spec_negated(e: Expr) -> Expr {
    Expr::Unary(UnaryExpr { span: spec_dummy_sp(), op: UnaryOp::Bang, arg: Box::new(e) })
}

/// The expression is a call of a function expression: `(function(){ ... })(...)`.
pub open spec fn is_fn_call(e: Expr) -> bool {
    e matches Expr::Call(c) && c.callee matches ExprOrSuper::Expr(f) && *f is Fn
}

/// Whether the expression is a call of a function expression.
pub fn is_fn_call_exec(e: &Expr) -> (r: bool)
    ensures
        r == is_fn_call(*e),
{
    match e {
        Expr::Call(c) => match &c.callee {
            ExprOrSuper::Super(_) => false,
            ExprOrSuper::Expr(f) => match &**f {
                Expr::Fn(_) => true,
                _ => false,
            },
        },
        _ => false,
    }
}

/// The test of a conditional after its IIFE was negated and its branches swapped:
/// `iife ? foo : bar` becomes `!iife ? bar : foo`.
pub open spec fn spec_negate_iife_in_cond(c: CondExpr) -> CondExpr {
    CondExpr { span: c.span, test: Box::new(spec_negated(*c.test)), cons: c.alt, alt: c.cons }
}

/// The test is a negated call of a function expression: `!function(){}()`.
pub open spec fn is_negated_fn_call(e: Expr) -> bool {
    e matches Expr::Unary(u) && u.op == UnaryOp::Bang && is_fn_call(*u.arg)
}

/// A conditional whose test is a negated IIFE, with the negation removed and
/// the branches swapped back: `!iife ? bar : foo` becomes `iife ? foo : bar`.
pub open spec fn spec_restore_negated_iife(c: CondExpr) -> CondExpr {
    CondExpr { span: c.span, test: c.test->Unary_0.arg, cons: c.alt, alt: c.cons }
}


/// Methods related to the option `negate_iife`.
impl Optimizer {
    /// Negates an IIFE whose value is not used: `function(){}()` becomes
    /// `!function(){}()`, unless negation is turned off or unwanted here.
    pub fn negate_iife_ignoring_ret(&mut self, e: &mut Expr)
        ensures
            *final(self) == *old(self),
            if old(self).options.negate_iife && !old(self).ctx.in_bang_arg
                && !old(self).ctx.dont_use_negated_iife && is_fn_call(*old(e)) {
                *final(e) == spec_negated(*old(e))
            } else {
                *final(e) == *old(e)
            },
    {
        if !self.options.negate_iife || self.ctx.in_bang_arg || self.ctx.dont_use_negated_iife {
            return;
        }
        if is_fn_call_exec(e) {
            let inner = take_expr(e);
            *e = Expr::Unary(UnaryExpr { span: dummy_sp(), op: UnaryOp::Bang, arg: Box::new(inner) });
        }
    }

    /// `iife ? foo : bar` becomes `!iife ? bar : foo`. Returns whether it did
    /// any work.
    pub fn negate_iife_in_cond(&mut self, e: &mut Expr) -> (r: bool)
        ensures
            *final(self) == *old(self),
            r == (*old(e) matches Expr::Cond(c) && is_fn_call(*c.test)),
            r ==> *final(e) == Expr::Cond(spec_negate_iife_in_cond(old(e)->Cond_0)),
            !r ==> *final(e) == *old(e),
    {
        let applies = match &*e {
            Expr::Cond(c) => is_fn_call_exec(&c.test),
            _ => false,
        };
        if !applies {
            return false;
        }
        match e {
            Expr::Cond(c) => {
                let test = take_expr(&mut c.test);
                c.test = Box::new(Expr::Unary(UnaryExpr { span: dummy_sp(), op: UnaryOp::Bang, arg: Box::new(test) }));
                std::mem::swap(&mut c.cons, &mut c.alt);
                true
            },
            _ => false,
        }
    }

    /// Where negated IIFEs are unwanted, `!iife ? bar : foo` becomes
    /// `iife ? foo : bar`.
    pub fn restore_negated_iife(&mut self, cond: &mut CondExpr)
        ensures
            *final(self) == *old(self),
            if old(self).ctx.dont_use_negated_iife && is_negated_fn_call(*old(cond).test) {
                *final(cond) == spec_restore_negated_iife(*old(cond))
            } else {
                *final(cond) == *old(cond)
            },
    {
        if !self.ctx.dont_use_negated_iife {
            return;
        }
        let applies = match &*cond.test {
            Expr::Unary(u) => u.op == UnaryOp::Bang && is_fn_call_exec(&u.arg),
            _ => false,
        };
        if !applies {
            return;
        }
        let test = take_expr(&mut cond.test);
        match test {
            Expr::Unary(u) => match *u.arg {
                Expr::Call(call) => {
                    cond.test = Box::new(Expr::Call(CallExpr { span: call.span, callee: call.callee, args: call.args }));
                    std::mem::swap(&mut cond.cons, &mut cond.alt);
                },
                _ => {},
            },
            _ => {},
        }
    }
}

} // verus!
