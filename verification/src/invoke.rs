//! Fully inlining IIFEs.

use vstd::prelude::*;

use crate::ast::{
    ArrowExpr, BlockStmt, BlockStmtOrExpr, CallExpr, Decl, Expr, ExprOrSpread, ExprOrSuper, FnExpr, Ident,
    Invalid, Param, Pat, SeqExpr, Span, Stmt, dummy_sp, spec_dummy_sp, spec_undefined, undefined,
};
use crate::equiv::clone_ident;
use crate::idents::{IdentQuery, ident_is, opt_block_mentions, opt_block_uses};
use crate::lit::{Lit, Number};
use crate::optimizer::Optimizer;
use crate::inline_fn::{
    arg_exprs, ident_pat, is_inlined_call, marked_span, prepends_ok, same_settings, spec_can_inline_fn_like,
    stmts_until_return, take_args, var_decls_in,
};
use crate::negate::take_expr;

verus! {

/// The span of an expression.
pub open spec fn expr_span(e: Expr) -> Span {
    match e {
        Expr::This(x) => x.span,
        Expr::Object(x) => x.span,
        Expr::Fn(x) => x.function.span,
        Expr::Unary(x) => x.span,
        Expr::Bin(x) => x.span,
        Expr::Assign(x) => x.span,
        Expr::Member(x) => x.span,
        Expr::Cond(x) => x.span,
        Expr::Call(x) => x.span,
        Expr::Ident(x) => x.span,
        Expr::Lit(l) => match l {
            Lit::Str(x) => x.span,
            Lit::Bool(x) => x.span,
            Lit::Null(x) => x.span,
            Lit::Num(x) => x.span,
            Lit::Regex(x) => x.span,
        },
        Expr::Sequence(x) => x.span,
        Expr::Arrow(x) => x.span,
        Expr::Await(x) => x.span,
        Expr::Invalid(x) => x.span,
    }
}

/// The span of a callee.
pub open spec fn callee_span(c: ExprOrSuper) -> Span {
    match c {
        ExprOrSuper::Super(s) => s.span,
        ExprOrSuper::Expr(e) => expr_span(*e),
    }
}

/// The span of a callee.
pub fn callee_span_exec(c: &ExprOrSuper) -> (sp: Span)
    ensures
        sp == callee_span(*c),
{
    match c {
        ExprOrSuper::Super(s) => s.span,
        ExprOrSuper::Expr(e) => match &**e {
            Expr::This(x) => x.span,
            Expr::Object(x) => x.span,
            Expr::Fn(x) => x.function.span,
            Expr::Unary(x) => x.span,
            Expr::Bin(x) => x.span,
            Expr::Assign(x) => x.span,
            Expr::Member(x) => x.span,
            Expr::Cond(x) => x.span,
            Expr::Call(x) => x.span,
            Expr::Ident(x) => x.span,
            Expr::Lit(l) => match l {
                Lit::Str(x) => x.span,
                Lit::Bool(x) => x.span,
                Lit::Null(x) => x.span,
                Lit::Num(x) => x.span,
                Lit::Regex(x) => x.span,
            },
            Expr::Sequence(x) => x.span,
            Expr::Arrow(x) => x.span,
            Expr::Await(x) => x.span,
            Expr::Invalid(x) => x.span,
        },
    }
}

/// A `/*#__NOINLINE__*/` comment stands at the start of the span.
pub open spec fn noinline_at(o: Optimizer, sp: Span) -> bool {
    o.noinline_positions@.contains(sp.lo)
}

/// The literal `0`, made by the optimizer.
pub open spec fn spec_zero() -> Expr {
    Expr::Lit(Lit::Num(Number { span: spec_dummy_sp(), value_bits: 0 }))
}

/// Some statement is a declaration.
pub open spec fn has_decl(stmts: Seq<Stmt>) -> bool {
    exists|i: int| 0 <= i < stmts.len() && #[trigger] stmts[i] is Decl
}

/// The identifiers of parameters that are all plain identifiers.
pub open spec fn pat_ids(pats: Seq<Pat>) -> Seq<Ident> {
    pats.map_values(|p: Pat| p->Ident_0.id)
}

/// The patterns of a function's parameters.
pub open spec fn fn_pats(f: FnExpr) -> Seq<Pat> {
    f.function.params@.map_values(|p: Param| p.pat)
}

/// `invoke_iife` looks at this expression: inlining is on (or the callee
/// has a dummy span), it is a call that no `NOINLINE` comment marks, its
/// callee is an expression, and inlining is not prevented here.
pub open spec fn invoke_applies(o: Optimizer, e: Expr) -> bool {
    &&& e matches Expr::Call(c)
    &&& o.options.inline != 0 || callee_span(c.callee).spec_is_dummy()
    &&& !noinline_at(o, c.span)
    &&& c.callee is Expr
    &&& !o.ctx.inline_prevented
}

/// Declarations at the top level must stay where they are when IIFEs are
/// negated there.
pub open spec fn keeps_top_level_decls(o: Optimizer) -> bool {
    o.ctx.spec_in_top_level() && !o.ctx.in_call_arg && o.options.negate_iife
}

/// The call of an arrow function is left alone: it is async or a generator,
/// it declares something at the top level, or a parameter is a pattern.
pub open spec fn arrow_blocked(o: Optimizer, f: ArrowExpr) -> bool {
    ||| f.is_async
    ||| f.is_generator
    ||| keeps_top_level_decls(o) && (f.body matches BlockStmtOrExpr::BlockStmt(b) && has_decl(b.stmts@))
    ||| exists|i: int| 0 <= i < f.params@.len() && !(#[trigger] f.params@[i]).spec_is_ident()
}

/// The call of a function expression is left alone: it declares something
/// at the top level, it is async or a generator, a parameter is a pattern, it
/// calls itself by name, or an argument is spread or a function.
pub open spec fn fn_blocked(o: Optimizer, c: CallExpr, f: FnExpr) -> bool {
    let body = f.function.body->Some_0;
    ||| keeps_top_level_decls(o) && has_decl(body.stmts@)
    ||| f.function.is_async
    ||| f.function.is_generator
    ||| exists|i: int| 0 <= i < f.function.params@.len() && !(#[trigger] f.function.params@[i]).pat.spec_is_ident()
    ||| f.ident matches Some(n) && opt_block_uses(f.function.body, ident_is(n.spec_id()))
    ||| exists|i: int| 0 <= i < c.args@.len() && ((#[trigger] c.args@[i]).spread is Some || *c.args@[i].expr is Fn
        || *c.args@[i].expr is Arrow)
}

/// `o2` and `x` are the optimizer and the expression after a body was
/// inlined as a comma expression (see `inline_fn_like`).
pub open spec fn inlined_into(o: Optimizer, o2: Optimizer, ids: Seq<Ident>, args: Seq<ExprOrSpread>, body: BlockStmt, x: Expr) -> bool {
    &&& o2.changed
    &&& same_settings(o, o2)
    &&& prepends_ok(o.prepend_stmts@, o2.prepend_stmts@, ids.map_values(|p: Ident| ident_pat(p)), marked_span(o),
        var_decls_in(stmts_until_return(body.stmts@)))
    &&& is_inlined_call(x, marked_span(o), ids, args, body)
}

/// What a call of an arrow function becomes.
pub open spec fn arrow_outcome(o: Optimizer, c: CallExpr, f: ArrowExpr, o2: Optimizer, e2: Expr) -> bool {
    let unchanged = o2 == o && e2 == Expr::Call(c);
    let ids = pat_ids(f.params@);
    if arrow_blocked(o, f) {
        unchanged
    } else {
        match f.body {
            BlockStmtOrExpr::BlockStmt(b) => if spec_can_inline_fn_like(o.ctx, ids, b) {
                inlined_into(o, o2, ids, c.args@, b, e2)
            } else {
                unchanged
            },
            BlockStmtOrExpr::Expr(b) => if *b matches Expr::Lit(Lit::Num(_)) && o.ctx.in_obj_of_non_computed_member {
                unchanged
            } else {
                &&& o2.changed
                &&& same_settings(o, o2)
                &&& prepends_ok(o.prepend_stmts@, o2.prepend_stmts@, ids.map_values(|p: Ident| ident_pat(p)),
                    marked_span(o), Seq::empty())
                &&& e2 matches Expr::Sequence(q) && q.span == spec_dummy_sp()
                    && q.exprs@ == seq![Box::new(spec_zero())] + arg_exprs(marked_span(o), ids.map_values(|p: Ident| ident_pat(p)), c.args@) + seq![b]
            },
        }
    }
}

/// What a call of a function expression becomes: `void 0` where both the
/// body and the arguments are empty; otherwise, unless it is left alone, the
/// inlined body, with every argument still evaluated.
pub open spec fn fn_outcome(o: Optimizer, c: CallExpr, f: FnExpr, o2: Optimizer, e2: Expr) -> bool {
    let unchanged = o2 == o && e2 == Expr::Call(c);
    let body = f.function.body->Some_0;
    let ids = pat_ids(fn_pats(f));
    if fn_blocked(o, c, f) {
        unchanged
    } else if body.stmts@.len() == 0 && c.args@.len() == 0 {
        o2 == o && e2 == spec_undefined(f.function.span)
    } else if !spec_can_inline_fn_like(o.ctx, ids, body) {
        unchanged
    } else {
        inlined_into(o, o2, ids, c.args@, body, e2)
    }
}

/// What `invoke_iife` makes of the optimizer `o` and the expression `e`.
pub open spec fn invoke_outcome(o: Optimizer, e: Expr, o2: Optimizer, e2: Expr) -> bool {
    if !invoke_applies(o, e) {
        o2 == o && e2 == e
    } else {
        let c = e->Call_0;
        match *c.callee->Expr_0 {
            Expr::Arrow(f) => arrow_outcome(o, c, f, o2, e2),
            Expr::Fn(f) => fn_outcome(o, c, f, o2, e2),
            _ => o2 == o && e2 == e,
        }
    }
}

/// The identifiers of parameters that are plain identifiers.
fn collect_param_ids(pats: &Vec<Pat>) -> (ids: Vec<Ident>)
    requires
        forall|i: int| 0 <= i < pats@.len() ==> (#[trigger] pats@[i]).spec_is_ident(),
    ensures
        ids@ == pat_ids(pats@),
        ids@.map_values(|p: Ident| ident_pat(p)) == pats@,
{
    let mut ids: Vec<Ident> = Vec::new();
    let mut i: usize = 0;
    while i < pats.len()
        invariant
            i <= pats@.len(),
            ids@.len() == i,
            forall|j: int| 0 <= j < pats@.len() ==> (#[trigger] pats@[j]).spec_is_ident(),
            forall|j: int| 0 <= j < i ==> #[trigger] ids@[j] == pats@[j]->Ident_0.id,
        decreases pats@.len() - i,
    {
        match &pats[i] {
            Pat::Ident(b) => ids.push(clone_ident(&b.id)),
            _ => {},
        }
        i = i + 1;
    }
    assert(ids@ =~= pat_ids(pats@));
    assert(ids@.map_values(|p: Ident| ident_pat(p)) =~= pats@);
    ids
}

/// The identifiers of a function's parameters that are plain identifiers.
fn collect_fn_param_ids(params: &Vec<Param>) -> (ids: Vec<Ident>)
    requires
        forall|i: int| 0 <= i < params@.len() ==> (#[trigger] params@[i]).pat.spec_is_ident(),
    ensures
        ids@ == pat_ids(params@.map_values(|p: Param| p.pat)),
{
    let mut ids: Vec<Ident> = Vec::new();
    let mut i: usize = 0;
    while i < params.len()
        invariant
            i <= params@.len(),
            ids@.len() == i,
            forall|j: int| 0 <= j < params@.len() ==> (#[trigger] params@[j]).pat.spec_is_ident(),
            forall|j: int| 0 <= j < i ==> #[trigger] ids@[j] == params@[j].pat->Ident_0.id,
        decreases params@.len() - i,
    {
        match &params[i].pat {
            Pat::Ident(b) => ids.push(clone_ident(&b.id)),
            _ => {},
        }
        i = i + 1;
    }
    assert(ids@ =~= pat_ids(params@.map_values(|p: Param| p.pat)));
    ids
}

/// Whether some statement is a declaration.
fn has_decl_exec(stmts: &Vec<Stmt>) -> (r: bool)
    ensures
        r == has_decl(stmts@),
{
    let mut i: usize = 0;
    while i < stmts.len()
        invariant
            i <= stmts@.len(),
            forall|j: int| 0 <= j < i ==> !(#[trigger] stmts@[j] is Decl),
        decreases stmts@.len() - i,
    {
        match &stmts[i] {
            Stmt::Decl(_) => {
                return true;
            },
            _ => {},
        }
        i = i + 1;
    }
    false
}

impl Optimizer {
    /// Whether a `/*#__NOINLINE__*/` comment stands at the start of the span.
    pub fn has_noinline(&self, span: Span) -> (r: bool)
        ensures
            r == noinline_at(*self, span),
    {
        let mut i: usize = 0;
        while i < self.noinline_positions.len()
            invariant
                i <= self.noinline_positions@.len(),
                forall|j: int| 0 <= j < i ==> self.noinline_positions@[j] != span.lo,
            decreases self.noinline_positions@.len() - i,
        {
            if self.noinline_positions[i] == span.lo {
                assert(self.noinline_positions@[i as int] == span.lo);
                return true;
            }
            i = i + 1;
        }
        false
    }

    /// Inlines a call of an arrow function (see [`arrow_outcome`]); `None`
    /// where it is left alone.
    #[verifier::loop_isolation(false)]
    fn invoke_arrow(&mut self, call: &mut CallExpr) -> (r: Option<Expr>)
        requires
            old(call).callee matches ExprOrSuper::Expr(f) && *f is Arrow,
        ensures
            r is None ==> *final(self) == *old(self) && *final(call) == *old(call),
            arrow_outcome(*old(self), *old(call), old(call).callee->Expr_0->Arrow_0, *final(self), match r {
                Some(x) => x,
                None => Expr::Call(*old(call)),
            }),
    {
        let ghost o0 = *self;
        let ghost c0 = *call;
        match &mut call.callee {
            ExprOrSuper::Super(_) => None,
            ExprOrSuper::Expr(callee) => match &mut **callee {
                Expr::Arrow(f) => {
                    let ghost f0 = *f;
                    if f.is_async {
                        return None;
                    }
                    if f.is_generator {
                        return None;
                    }
                    if self.ctx.in_top_level() && !self.ctx.in_call_arg && self.options.negate_iife {
                        match &f.body {
                            BlockStmtOrExpr::BlockStmt(body) => {
                                if has_decl_exec(&body.stmts) {
                                    return None;
                                }
                            },
                            BlockStmtOrExpr::Expr(_) => {},
                        }
                    }
                    let mut i: usize = 0;
                    while i < f.params.len()
                        invariant
                            i <= f.params@.len(),
                            forall|j: int| 0 <= j < i ==> (#[trigger] f.params@[j]).spec_is_ident(),
                        decreases f.params@.len() - i,
                    {
                        if !f.params[i].is_ident() {
                            assert(!f.params@[i as int].spec_is_ident());
                            return None;
                        }
                        i = i + 1;
                    }
                    let param_ids = collect_param_ids(&f.params);
                    let is_block = match &f.body {
                        BlockStmtOrExpr::BlockStmt(_) => true,
                        BlockStmtOrExpr::Expr(_) => false,
                    };
                    if is_block {
                        return match &mut f.body {
                            BlockStmtOrExpr::BlockStmt(body) => self.inline_fn_like(param_ids.as_slice(), body, &mut call.args),
                            BlockStmtOrExpr::Expr(_) => None,
                        };
                    }
                    let num_body = match &f.body {
                        BlockStmtOrExpr::Expr(b) => match &**b {
                            Expr::Lit(Lit::Num(_)) => true,
                            _ => false,
                        },
                        BlockStmtOrExpr::BlockStmt(_) => false,
                    };
                    if num_body && self.ctx.in_obj_of_non_computed_member {
                        return None;
                    }
                    self.changed = true;
                    let sp = self.non_top_level_span();
                    let ghost p0 = self.prepend_stmts@;
                    self.declare_params(param_ids.as_slice(), sp);
                    let rest = take_args(param_ids.as_slice(), &mut call.args, sp);
                    let mut exprs: Vec<Box<Expr>> = Vec::new();
                    exprs.push(Box::new(Expr::Lit(Lit::Num(Number { span: dummy_sp(), value_bits: 0 }))));
                    let mut rest = rest;
                    exprs.append(&mut rest);
                    match &mut f.body {
                        BlockStmtOrExpr::Expr(b) => {
                            let body = take_expr(b);
                            exprs.push(Box::new(body));
                        },
                        BlockStmtOrExpr::BlockStmt(_) => {},
                    }
                    proof {
                        let p2 = self.prepend_stmts@;
                        let ids = param_ids@;
                        let pats = ids.map_values(|p: Ident| ident_pat(p));
                        assert(pats.len() == ids.len());
                        if param_ids@.len() > 0 {
                            assert(p2.subrange(0, p0.len() as int) =~= p2.drop_last());
                            assert(p2[p0.len() as int] == p2.last());
                        } else {
                            assert(p2.subrange(0, p0.len() as int) =~= p0);
                        }
                        assert(prepends_ok(p0, p2, pats, sp, Seq::empty()));
                        assert(same_settings(o0, *self));
                        assert(exprs@ == seq![Box::new(spec_zero())] + arg_exprs(sp, pats, c0.args@) + seq![f0.body->Expr_0]);
                    }
                    Some(Expr::Sequence(SeqExpr { span: dummy_sp(), exprs }))
                },
                _ => None,
            },
        }
    }
}

/// `invoke_iife` reads the body of the called function expression: at the
/// top level with negation on, or where nothing else rules the call out.
pub open spec fn fn_body_needed(o: Optimizer, c: CallExpr, f: FnExpr) -> bool {
    ||| keeps_top_level_decls(o)
    ||| !f.function.is_async && !f.function.is_generator
        && (forall|i: int| 0 <= i < f.function.params@.len() ==> (#[trigger] f.function.params@[i]).pat.spec_is_ident())
        && (forall|i: int| 0 <= i < c.args@.len() ==> !((#[trigger] c.args@[i]).spread is Some
            || *c.args@[i].expr is Fn || *c.args@[i].expr is Arrow))
}

/// Where `invoke_iife` reads the body of a called function expression, it
/// has one.
pub open spec fn iife_body_present(o: Optimizer, e: Expr) -> bool {
    invoke_applies(o, e) ==> match *e->Call_0.callee->Expr_0 {
        Expr::Fn(f) => fn_body_needed(o, e->Call_0, f) ==> f.function.body is Some,
        _ => true,
    }
}

impl Optimizer {
    /// Inlines a call of a function expression (see [`fn_outcome`]); `None`
    /// where it is left alone.
    #[verifier::loop_isolation(false)]
    fn invoke_fn(&mut self, call: &mut CallExpr) -> (r: Option<Expr>)
        requires
            old(call).callee matches ExprOrSuper::Expr(f) && *f is Fn,
            fn_body_needed(*old(self), *old(call), old(call).callee->Expr_0->Fn_0)
                ==> old(call).callee->Expr_0->Fn_0.function.body is Some,
        ensures
            r is None ==> *final(self) == *old(self) && *final(call) == *old(call),
            fn_outcome(*old(self), *old(call), old(call).callee->Expr_0->Fn_0, *final(self), match r {
                Some(x) => x,
                None => Expr::Call(*old(call)),
            }),
    {
        let ghost o0 = *self;
        let ghost c0 = *call;
        match &mut call.callee {
            ExprOrSuper::Super(_) => None,
            ExprOrSuper::Expr(callee) => match &mut **callee {
                Expr::Fn(f) => {
                    if self.ctx.in_top_level() && !self.ctx.in_call_arg && self.options.negate_iife {
                        match &f.function.body {
                            Some(body) => {
                                if has_decl_exec(&body.stmts) {
                                    return None;
                                }
                            },
                            None => {},
                        }
                    }
                    if f.function.is_async {
                        return None;
                    }
                    if f.function.is_generator {
                        return None;
                    }
                    let mut i: usize = 0;
                    while i < f.function.params.len()
                        invariant
                            i <= f.function.params@.len(),
                            forall|j: int| 0 <= j < i ==> (#[trigger] f.function.params@[j]).pat.spec_is_ident(),
                        decreases f.function.params@.len() - i,
                    {
                        if !f.function.params[i].pat.is_ident() {
                            assert(!f.function.params@[i as int].pat.spec_is_ident());
                            return None;
                        }
                        i = i + 1;
                    }
                    match &f.ident {
                        Some(name) => {
                            let q = IdentQuery::Id(name.to_id());
                            if opt_block_mentions(&f.function.body, &q) {
                                return None;
                            }
                        },
                        None => {},
                    }
                    let mut k: usize = 0;
                    while k < call.args.len()
                        invariant
                            k <= call.args@.len(),
                            forall|j: int| 0 <= j < k ==> !((#[trigger] call.args@[j]).spread is Some
                                || *call.args@[j].expr is Fn || *call.args@[j].expr is Arrow),
                        decreases call.args@.len() - k,
                    {
                        if call.args[k].spread.is_some() {
                            assert(call.args@[k as int].spread is Some);
                            return None;
                        }
                        let callable = match &*call.args[k].expr {
                            Expr::Fn(_) | Expr::Arrow(_) => true,
                            _ => false,
                        };
                        if callable {
                            assert(*call.args@[k as int].expr is Fn || *call.args@[k as int].expr is Arrow);
                            return None;
                        }
                        k = k + 1;
                    }
                    let span = f.function.span;
                    match &mut f.function.body {
                        Some(body) => {
                            if body.stmts.len() == 0 && call.args.len() == 0 {
                                return Some(*undefined(span));
                            }
                            let param_ids = collect_fn_param_ids(&f.function.params);
                            if !self.can_inline_fn_like(param_ids.as_slice(), body) {
                                return None;
                            }
                            self.inline_fn_like(param_ids.as_slice(), body, &mut call.args)
                        },
                        None => None,
                    }
                },
                _ => None,
            },
        }
    }

    /// Fully inlines an IIFE where it can (see [`invoke_outcome`]):
    ///
    /// `(function () { return {}; })().x = 10;` becomes `({}).x = 10;`
    pub fn invoke_iife(&mut self, e: &mut Expr)
        requires
            iife_body_present(*old(self), *old(e)),
        ensures
            invoke_outcome(*old(self), *old(e), *final(self), *final(e)),
    {
        if self.options.inline == 0 {
            let skip = match &*e {
                Expr::Call(v) => !callee_span_exec(&v.callee).is_dummy(),
                _ => true,
            };
            if skip {
                return;
            }
        }
        let new = match e {
            Expr::Call(call) => {
                if self.has_noinline(call.span) {
                    return;
                }
                let kind: u8 = match &call.callee {
                    ExprOrSuper::Super(_) => {
                        return;
                    },
                    ExprOrSuper::Expr(c) => match &**c {
                        Expr::Arrow(_) => 1,
                        Expr::Fn(_) => 2,
                        _ => 0,
                    },
                };
                if self.ctx.inline_prevented {
                    return;
                }
                if kind == 1 {
                    self.invoke_arrow(call)
                } else if kind == 2 {
                    self.invoke_fn(call)
                } else {
                    None
                }
            },
            _ => {
                return;
            },
        };
        match new {
            Some(x) => {
                *e = x;
            },
            None => {},
        }
    }
}

} // verus!
