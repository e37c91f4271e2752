//! Properties of the rewrites that span more than one call.

use vstd::prelude::*;

use crate::ast::{
    BlockStmt, BlockStmtOrExpr, CondExpr, Decl, Expr, ExprOrSpread, ExprOrSuper, IdView, Ident, Pat, Span, Stmt,
    UnaryExpr, UnaryOp, VarDeclKind, VarDeclarator, spec_dummy_sp, spec_undefined,
};
use crate::abstraction::{FrameView, expr_abs, frame_hit, nested_iife, stack_hit};
use crate::ast::FnExpr;
use crate::lit::Lit;
use crate::subst::expr_subst;
use crate::equiv::expr_equiv;
use crate::inline_args::{iife_arg_binding, iife_arg_map, lemma_binding_simple, param_inline_value, usage_allows};
use crate::inline_fn::{
    arg_exprs, assign_to, decl_init_exprs, first_return_from, ident_pat, min_len, prepends_ok, spec_can_inline_fn_like, stmt_inlinable,
    stmts_until_return, var_decls_in,
};
use crate::idents::{block_uses, expr_uses, ident_is, ident_named, opt_block_uses, stmt_uses};
use crate::optimizer::Ctx;
use crate::negate::{
    is_fn_call, is_negated_fn_call, spec_negate_iife_in_cond, spec_negated, spec_restore_negated_iife,
};
use crate::invoke::{callee_span, invoke_outcome, pat_ids};
use crate::optimizer::{Optimizer, ProgramData};

verus! {

/// Restoring a negated IIFE in a conditional gives back the conditional that
/// was negated: `iife ? a : b` becomes `!iife ? b : a` and back.
pub proof fn lemma_restore_undoes_negate(c: CondExpr)
    requires
        is_fn_call(*c.test),
    ensures
        is_negated_fn_call(*spec_negate_iife_in_cond(c).test),
        spec_restore_negated_iife(spec_negate_iife_in_cond(c)) == c,
{
}

/// Negating the IIFE of a conditional is done once: the negated test is no
/// longer a call of a function expression.
pub proof fn lemma_negate_in_cond_once(c: CondExpr)
    requires
        is_fn_call(*c.test),
    ensures
        !is_fn_call(*spec_negate_iife_in_cond(c).test),
{
}

/// Negating an IIFE whose value is unused is done once: the negated
/// expression is no longer a call of a function expression.
pub proof fn lemma_negate_ignoring_ret_once(e: Expr)
    requires
        is_fn_call(e),
    ensures
        !is_fn_call(spec_negated(e)),
{
}

/// Inlining a call keeps every argument, once and in order: the `i`-th
/// expression that the arguments become is the `i`-th argument, assigned to
/// its parameter where it has one.
pub proof fn lemma_arg_exprs_keep_args(sp: Span, pats: Seq<Pat>, args: Seq<ExprOrSpread>)
    ensures
        arg_exprs(sp, pats, args).len() == args.len(),
        forall|i: int| 0 <= i < args.len() ==> {
            let x = #[trigger] arg_exprs(sp, pats, args)[i];
            if i < pats.len() {
                x == assign_to(sp, pats[i], args[i].expr)
            } else {
                x == args[i].expr
            }
        },
{
    let n = min_len(pats.len(), args.len());
    let first = Seq::new(n, |i: int| assign_to(sp, pats[i], args[i].expr));
    if args.len() > pats.len() {
        let rest = args.subrange(pats.len() as int, args.len() as int).map_values(|a: ExprOrSpread| a.expr);
        assert(arg_exprs(sp, pats, args) == first + rest);
    } else {
        assert(arg_exprs(sp, pats, args) =~= first);
    }
}

/// The expression that an IIFE's parameter is replaced by is an identifier,
/// a literal or `void 0`, and only bindings that the analysis allows are
/// replaced.
pub proof fn lemma_only_simple_args_inlined(
    pats: Seq<Pat>,
    args: Seq<ExprOrSpread>,
    data: Option<ProgramData>,
    id: IdView,
)
    requires
        iife_arg_map(pats, args, data).contains_key(id),
    ensures
        usage_allows(data, id),
        ({
            let v = iife_arg_map(pats, args, data)[id];
            v is Ident || v is Lit || exists|s: Span| v == spec_undefined(s)
        }),
{
    lemma_binding_simple(pats, args, data, pats.len() as int, id);
}

/// `invoke_iife` changes nothing but calls: any other expression, and the
/// optimizer, stay as they were.
pub proof fn lemma_invoke_only_calls(o: Optimizer, e: Expr, o2: Optimizer, e2: Expr)
    requires
        invoke_outcome(o, e, o2, e2),
        !(e is Call),
    ensures
        o2 == o,
        e2 == e,
{
}

/// With inlining off, `invoke_iife` leaves alone every call whose callee
/// comes from the source (has a span that is not a dummy).
pub proof fn lemma_invoke_respects_inline_off(o: Optimizer, e: Expr, o2: Optimizer, e2: Expr)
    requires
        invoke_outcome(o, e, o2, e2),
        o.options.inline == 0,
        e matches Expr::Call(c) && !callee_span(c.callee).spec_is_dummy(),
    ensures
        o2 == o,
        e2 == e,
{
}

/// The `i`-th parameter binds `id` to an expression (see [`iife_arg_binding`]).
pub open spec fn binds_param(pats: Seq<Pat>, args: Seq<ExprOrSpread>, data: Option<ProgramData>, i: int, id: IdView) -> bool {
    pats[i] matches Pat::Ident(b) && b.id.spec_id() == id && param_inline_value(pats, args, data, i) is Some
}

/// The map of an IIFE's arguments, parameter by parameter: a parameter binds
/// its name exactly when it is a plain identifier that the analysis allows
/// and its argument, if it has one, is an identifier or a literal; the map
/// holds a name exactly when some parameter binds it, and then holds what the
/// last such parameter binds it to: its argument, or `void 0` where it has
/// none.
pub proof fn lemma_iife_arg_map_per_param(pats: Seq<Pat>, args: Seq<ExprOrSpread>, data: Option<ProgramData>, id: IdView)
    ensures
        forall|i: int| 0 <= i < pats.len() ==> (#[trigger] binds_param(pats, args, data, i, id) <==> (
            pats[i] matches Pat::Ident(b) && b.id.spec_id() == id && usage_allows(data, id)
                && (i < args.len() ==> (*args[i].expr is Ident || *args[i].expr is Lit)))),
        iife_arg_map(pats, args, data).contains_key(id)
            <==> exists|i: int| 0 <= i < pats.len() && #[trigger] binds_param(pats, args, data, i, id),
        forall|i: int| 0 <= i < pats.len() && #[trigger] binds_param(pats, args, data, i, id)
            && (forall|j: int| i < j < pats.len() ==> !binds_param(pats, args, data, j, id))
            ==> iife_arg_map(pats, args, data)[id] == if i < args.len() {
                *args[i].expr
            } else {
                spec_undefined(pats[i]->Ident_0.id.span)
            },
{
    assert forall|i: int| 0 <= i < pats.len() implies (#[trigger] binds_param(pats, args, data, i, id) <==> (
        pats[i] matches Pat::Ident(b) && b.id.spec_id() == id && usage_allows(data, id)
            && (i < args.len() ==> (*args[i].expr is Ident || *args[i].expr is Lit)))) by {
        if i < args.len() {
            let a = *args[i].expr;
            if a is Ident || a is Lit {
                assert(crate::inline_args::spec_can_be_inlined_for_iife(a));
            }
        }
    }
    lemma_binding_per_param(pats, args, data, pats.len() as int, id);
}

/// What [`lemma_iife_arg_map_per_param`] states of the map, after the first
/// `k` parameters.
proof fn lemma_binding_per_param(pats: Seq<Pat>, args: Seq<ExprOrSpread>, data: Option<ProgramData>, k: int, id: IdView)
    requires
        0 <= k <= pats.len(),
    ensures
        iife_arg_binding(pats, args, data, k, id) is Some
            <==> exists|i: int| 0 <= i < k && #[trigger] binds_param(pats, args, data, i, id),
        forall|i: int| 0 <= i < k && #[trigger] binds_param(pats, args, data, i, id)
            && (forall|j: int| i < j < k ==> !binds_param(pats, args, data, j, id))
            ==> iife_arg_binding(pats, args, data, k, id) == param_inline_value(pats, args, data, i),
    decreases k,
{
    if k > 0 {
        lemma_binding_per_param(pats, args, data, k - 1, id);
        if binds_param(pats, args, data, k - 1, id) {
            assert forall|i: int| 0 <= i < k && #[trigger] binds_param(pats, args, data, i, id)
                && (forall|j: int| i < j < k ==> !binds_param(pats, args, data, j, id))
                implies iife_arg_binding(pats, args, data, k, id) == param_inline_value(pats, args, data, i) by {
                if i < k - 1 {
                    assert(!binds_param(pats, args, data, k - 1, id));
                }
            }
        } else {
            assert forall|i: int| 0 <= i < k && #[trigger] binds_param(pats, args, data, i, id)
                && (forall|j: int| i < j < k ==> !binds_param(pats, args, data, j, id))
                implies iife_arg_binding(pats, args, data, k, id) == param_inline_value(pats, args, data, i) by {
                assert(i < k - 1);
                assert(forall|j: int| i < j < k - 1 ==> !binds_param(pats, args, data, j, id));
            }
            if iife_arg_binding(pats, args, data, k, id) is Some {
                let w = choose|i: int| 0 <= i < k - 1 && #[trigger] binds_param(pats, args, data, i, id);
                assert(0 <= w < k && binds_param(pats, args, data, w, id));
            }
        }
    }
}

/// A statement hoisted before the optimized one: a `var` or `let`
/// declaration none of whose declarators has an initializer.
pub open spec fn is_hoisted_decl(s: Stmt) -> bool {
    s matches Stmt::Decl(Decl::Var(v)) && (v.kind == VarDeclKind::Var || v.kind == VarDeclKind::Let)
        && forall|j: int| 0 <= j < v.decls@.len() ==> (#[trigger] v.decls@[j]).init is None
}

/// `invoke_iife` only appends to the statements to prepend, and all it
/// appends are `var` or `let` declarations without initializers (the
/// parameters, then the body's own variables).
pub proof fn lemma_invoke_only_hoists_decls(o: Optimizer, e: Expr, o2: Optimizer, e2: Expr)
    requires
        invoke_outcome(o, e, o2, e2),
    ensures
        o.prepend_stmts@.len() <= o2.prepend_stmts@.len(),
        o2.prepend_stmts@.subrange(0, o.prepend_stmts@.len() as int) == o.prepend_stmts@,
        forall|k: int| o.prepend_stmts@.len() <= k < o2.prepend_stmts@.len() ==> is_hoisted_decl(
            #[trigger] o2.prepend_stmts@[k],
        ),
{
    let p = o.prepend_stmts@;
    let q = o2.prepend_stmts@;
    if q == p {
        assert(q.subrange(0, p.len() as int) =~= p);
        return;
    }
    let c = e->Call_0;
    match *c.callee->Expr_0 {
        Expr::Arrow(f) => {
            let ids = pat_ids(f.params@);
            match f.body {
                crate::ast::BlockStmtOrExpr::BlockStmt(b) => {
                    lemma_prepends_hoisted(o.ctx, ids, b.stmts@, p, q, o.marks.non_top_level);
                },
                crate::ast::BlockStmtOrExpr::Expr(_) => {
                    lemma_prepends_hoisted(o.ctx, ids, Seq::empty(), p, q, o.marks.non_top_level);
                },
            }
        },
        Expr::Fn(f) => {
            let ids = pat_ids(crate::invoke::fn_pats(f));
            lemma_prepends_hoisted(o.ctx, ids, f.function.body->Some_0.stmts@, p, q, o.marks.non_top_level);
        },
        _ => {},
    }
}

/// Declarations appended as `prepends_ok` states, from an inlinable body,
/// are hoisted declarations.
proof fn lemma_prepends_hoisted(ctx: Ctx, ids: Seq<Ident>, stmts: Seq<Stmt>, p: Seq<Stmt>, q: Seq<Stmt>, mark: u32)
    requires
        forall|i: int| 0 <= i < stmts.len() ==> stmt_inlinable(ctx, ids, #[trigger] stmts[i]),
        prepends_ok(p, q, ids.map_values(|x: Ident| ident_pat(x)), Span { lo: 0, hi: 0, ctxt: mark },
            var_decls_in(stmts_until_return(stmts))),
    ensures
        p.len() <= q.len(),
        q.subrange(0, p.len() as int) == p,
        forall|k: int| p.len() <= k < q.len() ==> is_hoisted_decl(#[trigger] q[k]),
{
    let t = stmts_until_return(stmts);
    assert forall|j: int| 0 <= j < t.len() implies stmt_inlinable(ctx, ids, #[trigger] t[j]) by {
        let f = first_return_from(stmts, 0);
        lemma_first_return_bounds(stmts, 0);
        if f < stmts.len() {
            assert(t[j] == stmts[j]);
        }
    }
    lemma_var_decls_kinds(ctx, ids, t);
    let names = ids.map_values(|x: Ident| ident_pat(x));
    let base = p.len() + if names.len() > 0 { 1int } else { 0int };
    let decls = var_decls_in(t);
    assert forall|k: int| p.len() <= k < q.len() implies is_hoisted_decl(#[trigger] q[k]) by {
        if k >= base {
            assert(crate::inline_fn::is_stripped_decl(decls[k - base], q[k]));
            let v = decls[k - base];
            let w = q[k]->Decl_0->Var_0;
            assert forall|j: int| 0 <= j < w.decls@.len() implies (#[trigger] w.decls@[j]).init is None by {
                assert(w.decls@[j] == crate::inline_fn::strip_init(v.decls@[j]));
            }
        } else {
            let w = q[k]->Decl_0->Var_0;
            assert forall|j: int| 0 <= j < w.decls@.len() implies (#[trigger] w.decls@[j]).init is None by {
                assert(w.decls@[j].init is None);
            }
        }
    }
}

/// The first `return` at or after `k` is at an index from `k` to the length.
proof fn lemma_first_return_bounds(stmts: Seq<Stmt>, k: int)
    requires
        0 <= k,
    ensures
        k <= first_return_from(stmts, k) <= stmts.len() || (k > stmts.len() && first_return_from(stmts, k) == stmts.len()),
    decreases stmts.len() - k,
{
    if k < stmts.len() && !(stmts[k] is Return) {
        lemma_first_return_bounds(stmts, k + 1);
    }
}

/// The declarations of inlinable statements are `var` or `let` declarations.
proof fn lemma_var_decls_kinds(ctx: Ctx, ids: Seq<Ident>, t: Seq<Stmt>)
    requires
        forall|j: int| 0 <= j < t.len() ==> stmt_inlinable(ctx, ids, #[trigger] t[j]),
    ensures
        forall|i: int| 0 <= i < var_decls_in(t).len() ==> (#[trigger] var_decls_in(t)[i]).kind == VarDeclKind::Var
            || var_decls_in(t)[i].kind == VarDeclKind::Let,
    decreases t.len(),
{
    if t.len() > 0 {
        let s = t.drop_last();
        assert forall|j: int| 0 <= j < s.len() implies stmt_inlinable(ctx, ids, #[trigger] s[j]) by {
            assert(s[j] == t[j]);
        }
        lemma_var_decls_kinds(ctx, ids, s);
        assert(stmt_inlinable(ctx, ids, t[t.len() - 1]));
    }
}

/// Dropping statements of a body, or parameters, never makes a body that
/// can be inlined one that cannot.
pub proof fn lemma_can_inline_fn_like_monotone(
    ctx: Ctx,
    params: Seq<Ident>,
    body: BlockStmt,
    params2: Seq<Ident>,
    body2: BlockStmt,
)
    requires
        spec_can_inline_fn_like(ctx, params, body),
        forall|i: int| 0 <= i < params2.len() ==> exists|j: int| 0 <= j < params.len()
            && (#[trigger] params[j]).spec_id() == (#[trigger] params2[i]).spec_id(),
        forall|i: int| 0 <= i < body2.stmts@.len() ==> body.stmts@.contains(#[trigger] body2.stmts@[i]),
    ensures
        spec_can_inline_fn_like(ctx, params2, body2),
{
    assert forall|k: int| 0 <= k < body2.stmts@.len() implies stmt_inlinable(ctx, params2, #[trigger] body2.stmts@[k]) by {
        let st = body2.stmts@[k];
        let j = choose|j: int| 0 <= j < body.stmts@.len() && body.stmts@[j] == st;
        assert(stmt_inlinable(ctx, params, body.stmts@[j]));
        if let Stmt::Expr(x) = st {
            if *x.expr is Call {
                assert forall|i: int| 0 <= i < params2.len() implies !crate::idents::expr_uses(
                    *x.expr,
                    crate::idents::ident_is(#[trigger] params2[i].spec_id()),
                ) by {
                    let p = params2[i];
                    let q = choose|q: int| 0 <= q < params.len() && (#[trigger] params[q]).spec_id() == p.spec_id();
                    assert(!crate::idents::expr_uses(*x.expr, crate::idents::ident_is(params[q].spec_id())));
                }
            }
        }
    }
    if block_uses(body2, ident_named("arguments"@)) {
        let k = choose|k: int| 0 <= k < body2.stmts@.len() && stmt_uses(#[trigger] body2.stmts@[k], ident_named("arguments"@));
        let j = choose|j: int| 0 <= j < body.stmts@.len() && body.stmts@[j] == body2.stmts@[k];
        assert(stmt_uses(body.stmts@[j], ident_named("arguments"@)));
        assert(block_uses(body, ident_named("arguments"@)));
    }
}

/// The expression of a callee, if it is one.
pub open spec fn callee_expr(c: ExprOrSuper) -> Seq<Expr> {
    match c {
        ExprOrSuper::Expr(x) => seq![*x],
        ExprOrSuper::Super(_) => Seq::empty(),
    }
}

/// The subexpressions that stand directly in an expression, in the position
/// of a value that is read: operands, the object and a computed property of a
/// member access, the test and both branches of a conditional, a callee and
/// every argument of a call, every expression of a comma expression, the
/// value assigned by an assignment, and an arrow function's expression body.
pub open spec fn expr_children(e: Expr) -> Seq<Expr> {
    match e {
        Expr::Unary(x) => seq![*x.arg],
        Expr::Bin(x) => seq![*x.left, *x.right],
        Expr::Assign(x) => seq![*x.right],
        Expr::Member(x) => callee_expr(x.obj) + if x.computed {
            seq![*x.prop]
        } else {
            Seq::<Expr>::empty()
        },
        Expr::Cond(x) => seq![*x.test, *x.cons, *x.alt],
        Expr::Call(x) => callee_expr(x.callee) + x.args@.map_values(|a: ExprOrSpread| *a.expr),
        Expr::Sequence(x) => x.exprs@.map_values(|b: Box<Expr>| *b),
        Expr::Await(x) => seq![*x.arg],
        Expr::Arrow(x) => match x.body {
            BlockStmtOrExpr::Expr(b) => seq![*b],
            BlockStmtOrExpr::BlockStmt(_) => Seq::empty(),
        },
        _ => Seq::empty(),
    }
}

/// The expressions that stand directly in a statement: the expression of an
/// expression statement, the value of a `return`, the test of an `if`.
pub open spec fn stmt_child_exprs(s: Stmt) -> Seq<Expr> {
    match s {
        Stmt::Expr(x) => seq![*x.expr],
        Stmt::Return(r) => match r.arg {
            Some(a) => seq![*a],
            None => Seq::empty(),
        },
        Stmt::If(x) => seq![*x.test],
        _ => Seq::empty(),
    }
}

/// The statements that stand directly in a statement: those of a block, and
/// the branches of an `if`.
pub open spec fn stmt_child_stmts(s: Stmt) -> Seq<Stmt> {
    match s {
        Stmt::Block(b) => b.stmts@,
        Stmt::If(x) => seq![*x.cons] + match x.alt {
            Some(a) => seq![*a],
            None => Seq::<Stmt>::empty(),
        },
        _ => Seq::empty(),
    }
}

/// An identifier is used where it stands, and everything an expression's
/// subexpressions use, the expression uses: an identifier is seen in every
/// operand, both branches of a conditional, every argument of a call, and so
/// on.
pub proof fn lemma_expr_uses_children(e: Expr, p: spec_fn(IdView) -> bool, i: int)
    requires
        0 <= i < expr_children(e).len(),
        expr_uses(expr_children(e)[i], p),
    ensures
        expr_uses(e, p),
{
    match e {
        Expr::Member(x) => {
            if i < callee_expr(x.obj).len() {
                assert(expr_children(e)[i] == *x.obj->Expr_0);
                assert(expr_uses(*x.obj->Expr_0, p));
                assert(crate::idents::callee_uses(x.obj, p));
            } else {
                assert(expr_children(e)[i] == *x.prop);
                assert(expr_uses(*x.prop, p));
            }
        },
        Expr::Call(x) => {
            let n = callee_expr(x.callee).len() as int;
            if i < n {
                assert(expr_children(e)[i] == *x.callee->Expr_0);
                assert(expr_uses(*x.callee->Expr_0, p));
                assert(crate::idents::callee_uses(x.callee, p));
            } else {
                assert(expr_children(e)[i] == *x.args@[i - n].expr);
                assert(expr_uses(*x.args@[i - n].expr, p));
            }
        },
        Expr::Sequence(x) => {
            assert(expr_children(e)[i] == *x.exprs@[i]);
            assert(expr_uses(*x.exprs@[i], p));
        },
        Expr::Arrow(x) => {
            let b = x.body->Expr_0;
            assert(expr_uses(*b, p));
            assert(crate::idents::block_or_expr_uses(x.body, p));
        },
        _ => {},
    }
}

/// An identifier is used by an identifier expression exactly when it is that
/// identifier.
pub proof fn lemma_ident_uses(x: Ident, p: spec_fn(IdView) -> bool)
    ensures
        expr_uses(Expr::Ident(x), p) == p(x.spec_id()),
{
}

/// What the expressions and statements standing in a statement use, the
/// statement uses.
pub proof fn lemma_stmt_uses_children(s: Stmt, p: spec_fn(IdView) -> bool)
    ensures
        forall|i: int| 0 <= i < stmt_child_exprs(s).len() && expr_uses(#[trigger] stmt_child_exprs(s)[i], p)
            ==> stmt_uses(s, p),
        forall|i: int| 0 <= i < stmt_child_stmts(s).len() && stmt_uses(#[trigger] stmt_child_stmts(s)[i], p)
            ==> stmt_uses(s, p),
{
    assert forall|i: int| 0 <= i < stmt_child_exprs(s).len() && expr_uses(#[trigger] stmt_child_exprs(s)[i], p)
        implies stmt_uses(s, p) by {
        match s {
            Stmt::Return(r) => {
                assert(expr_uses(*r.arg->Some_0, p));
                assert(crate::idents::opt_expr_uses(r.arg, p));
            },
            _ => {},
        }
    }
    assert forall|i: int| 0 <= i < stmt_child_stmts(s).len() && stmt_uses(#[trigger] stmt_child_stmts(s)[i], p)
        implies stmt_uses(s, p) by {
        match s {
            Stmt::Block(b) => {
                assert(stmt_uses(b.stmts@[i], p));
                assert(block_uses(b, p));
            },
            Stmt::If(x) => {
                if i > 0 {
                    assert(stmt_child_stmts(s)[i] == *x.alt->Some_0);
                }
            },
            _ => {},
        }
    }
}

/// What a statement of a function expression's body uses, the function
/// expression uses.
pub proof fn lemma_fn_uses_body(f: FnExpr, p: spec_fn(IdView) -> bool, k: int)
    requires
        f.function.body matches Some(b) && 0 <= k < b.stmts@.len() && stmt_uses(b.stmts@[k], p),
    ensures
        expr_uses(Expr::Fn(f), p),
{
    let b = f.function.body->Some_0;
    assert(block_uses(b, p));
    assert(crate::idents::function_uses(f.function, p));
}

/// `invoke_iife` leaves alone every call of a named function expression
/// whose body uses that name, in any statement of the body.
pub proof fn lemma_invoke_keeps_self_referencing(o: Optimizer, e: Expr, o2: Optimizer, e2: Expr, k: int)
    requires
        invoke_outcome(o, e, o2, e2),
        e matches Expr::Call(c) && c.callee matches ExprOrSuper::Expr(f) && (*f matches Expr::Fn(g)
            && g.ident matches Some(n) && g.function.body matches Some(b) && 0 <= k < b.stmts@.len()
            && stmt_uses(b.stmts@[k], ident_is(n.spec_id()))),
    ensures
        o2 == o,
        e2 == e,
{
    let g = e->Call_0.callee->Expr_0->Fn_0;
    let b = g.function.body->Some_0;
    assert(block_uses(b, ident_is(g.ident->Some_0.spec_id())));
    assert(opt_block_uses(g.function.body, ident_is(g.ident->Some_0.spec_id())));
}

/// Substitution reaches every subexpression: it acts on each of them, so
/// that every identifier whose binding the map holds, in any operand, branch
/// or argument, is replaced; the identifier itself becomes a copy of its
/// expression.
pub proof fn lemma_subst_children(a: Expr, m: Map<IdView, Expr>, b: Expr)
    requires
        expr_subst(a, m, b),
    ensures
        a is Ident && m.contains_key(a->Ident_0.spec_id()) ==> expr_equiv(m[a->Ident_0.spec_id()], b),
        !(a is Ident) ==> expr_children(b).len() == expr_children(a).len(),
        !(a is Ident) ==> forall|i: int| 0 <= i < expr_children(a).len()
            ==> expr_subst(#[trigger] expr_children(a)[i], m, expr_children(b)[i]),
{
    match a {
        Expr::Member(x) => {
            let y = b->Member_0;
            assert(crate::subst::callee_subst(x.obj, m, y.obj));
            assert(callee_expr(x.obj).len() == callee_expr(y.obj).len());
            assert forall|i: int| 0 <= i < expr_children(a).len()
                implies expr_subst(#[trigger] expr_children(a)[i], m, expr_children(b)[i]) by {
                if i < callee_expr(x.obj).len() {
                    assert(expr_children(a)[i] == *x.obj->Expr_0);
                    assert(expr_children(b)[i] == *y.obj->Expr_0);
                } else {
                    assert(expr_children(a)[i] == *x.prop);
                    assert(expr_children(b)[i] == *y.prop);
                }
            }
        },
        Expr::Call(x) => {
            let y = b->Call_0;
            assert(crate::subst::callee_subst(x.callee, m, y.callee));
            let n = callee_expr(x.callee).len() as int;
            assert(n == callee_expr(y.callee).len());
            assert forall|i: int| 0 <= i < expr_children(a).len()
                implies expr_subst(#[trigger] expr_children(a)[i], m, expr_children(b)[i]) by {
                if i < n {
                    assert(expr_children(a)[i] == *x.callee->Expr_0);
                    assert(expr_children(b)[i] == *y.callee->Expr_0);
                } else {
                    assert(crate::subst::arg_subst(x.args@[i - n], m, y.args@[i - n]));
                    assert(expr_children(a)[i] == *x.args@[i - n].expr);
                    assert(expr_children(b)[i] == *y.args@[i - n].expr);
                }
            }
        },
        Expr::Sequence(x) => {
            let y = b->Sequence_0;
            assert forall|i: int| 0 <= i < expr_children(a).len()
                implies expr_subst(#[trigger] expr_children(a)[i], m, expr_children(b)[i]) by {
                assert(expr_subst(*x.exprs@[i], m, *y.exprs@[i]));
            }
        },
        Expr::Arrow(x) => {
            let y = b->Arrow_0;
            assert(crate::subst::block_or_expr_subst(x.body, m, y.body));
        },
        _ => {},
    }
}

/// Putting parameters in place of their values reaches every subexpression:
/// an expression that is the value of a parameter becomes that parameter,
/// and otherwise every operand, branch and argument is treated in turn (the
/// callee of a nested IIFE is treated with its own parameters as well).
pub proof fn lemma_abs_children(a: Expr, fs: Seq<FrameView>, d: Option<ProgramData>, b: Expr)
    requires
        expr_abs(a, fs, d, b),
    ensures
        stack_hit(fs, a) is Some ==> b == Expr::Ident(stack_hit(fs, a)->Some_0),
        stack_hit(fs, a) is None ==> expr_children(b).len() == expr_children(a).len(),
        stack_hit(fs, a) is None ==> forall|i: int| 0 <= i < expr_children(a).len()
            && !(i == 0 && a is Call && nested_iife(a->Call_0))
            ==> expr_abs(#[trigger] expr_children(a)[i], fs, d, expr_children(b)[i]),
{
    if stack_hit(fs, a) is None {
        match a {
            Expr::Member(x) => {
                let y = b->Member_0;
                assert(crate::abstraction::callee_abs(x.obj, fs, d, y.obj));
                assert(callee_expr(x.obj).len() == callee_expr(y.obj).len());
                assert forall|i: int| 0 <= i < expr_children(a).len()
                    implies expr_abs(#[trigger] expr_children(a)[i], fs, d, expr_children(b)[i]) by {
                    if i < callee_expr(x.obj).len() {
                        assert(expr_children(a)[i] == *x.obj->Expr_0);
                        assert(expr_children(b)[i] == *y.obj->Expr_0);
                    } else {
                        assert(expr_children(a)[i] == *x.prop);
                        assert(expr_children(b)[i] == *y.prop);
                    }
                }
            },
            Expr::Call(x) => {
                let y = b->Call_0;
                let n = callee_expr(x.callee).len() as int;
                if nested_iife(x) {
                    assert(n == 1);
                    assert(callee_expr(y.callee).len() == 1);
                } else {
                    assert(crate::abstraction::callee_abs(x.callee, fs, d, y.callee));
                    assert(n == callee_expr(y.callee).len());
                }
                assert forall|i: int| 0 <= i < expr_children(a).len() && !(i == 0 && nested_iife(x))
                    implies expr_abs(#[trigger] expr_children(a)[i], fs, d, expr_children(b)[i]) by {
                    if i < n {
                        assert(expr_children(a)[i] == *x.callee->Expr_0);
                        assert(expr_children(b)[i] == *y.callee->Expr_0);
                    } else {
                        assert(crate::abstraction::arg_abs(x.args@[i - n], fs, d, y.args@[i - n]));
                        assert(expr_children(a)[i] == *x.args@[i - n].expr);
                        assert(expr_children(b)[i] == *y.args@[i - n].expr);
                    }
                }
            },
            Expr::Sequence(x) => {
                let y = b->Sequence_0;
                assert forall|i: int| 0 <= i < expr_children(a).len()
                    implies expr_abs(#[trigger] expr_children(a)[i], fs, d, expr_children(b)[i]) by {
                    assert(expr_abs(*x.exprs@[i], fs, d, *y.exprs@[i]));
                }
            },
            Expr::Arrow(x) => {
                let y = b->Arrow_0;
                assert(crate::abstraction::arrow_abs(x, fs, fs, d, y));
                assert(crate::abstraction::block_or_expr_abs(x.body, fs, d, y.body));
            },
            _ => {},
        }
    }
}

/// `e` is the value `v` that a parameter holds: an identifier naming the
/// same binding, a string with the same characters, a number with the same
/// bits, the same boolean, `null`, a regular expression with the same pattern
/// and flags, or `void 0` where `v` is `void 0`.
pub open spec fn same_value(e: Expr, v: Expr) -> bool {
    match e {
        Expr::Ident(x) => v is Ident && x.spec_id() == v->Ident_0.spec_id(),
        Expr::Lit(Lit::Str(x)) => v is Lit && v->Lit_0 is Str && x.value@ == v->Lit_0->Str_0.value@,
        Expr::Lit(Lit::Num(x)) => v is Lit && v->Lit_0 is Num && x.value_bits == v->Lit_0->Num_0.value_bits,
        Expr::Lit(Lit::Bool(x)) => v is Lit && v->Lit_0 is Bool && x.value == v->Lit_0->Bool_0.value,
        Expr::Lit(Lit::Null(_)) => v is Lit && v->Lit_0 is Null,
        Expr::Lit(Lit::Regex(x)) => v is Lit && v->Lit_0 is Regex && x.exp@ == v->Lit_0->Regex_0.exp@
            && x.flags@ == v->Lit_0->Regex_0.flags@,
        _ => void_zero(e) && void_zero(v),
    }
}

/// The expression is `void 0`.
pub open spec fn void_zero(e: Expr) -> bool {
    match e {
        Expr::Unary(x) => x.op == UnaryOp::Void && match *x.arg {
            Expr::Lit(Lit::Num(n)) => n.value_bits == 0,
            _ => false,
        },
        _ => false,
    }
}

/// The `j`-th entry of the frame binds a parameter to the value `e` is.
pub open spec fn entry_holds(fr: FrameView, j: int, e: Expr) -> bool {
    fr[j] is Some && same_value(e, fr[j]->Some_0.1)
}

/// An expression becomes a parameter of an IIFE's frame exactly when it is
/// the value of one of its parameters; it becomes the last such parameter.
/// A string literal, in particular, becomes a parameter only where an
/// argument is a string with the same characters.
pub proof fn lemma_frame_hit_same_value(fr: FrameView, e: Expr, k: int)
    requires
        0 <= k <= fr.len(),
    ensures
        frame_hit(fr, e, k) is Some <==> exists|j: int| 0 <= j < k && #[trigger] entry_holds(fr, j, e),
        forall|j: int| 0 <= j < k && #[trigger] entry_holds(fr, j, e)
            && (forall|l: int| j < l < k ==> !entry_holds(fr, l, e))
            ==> frame_hit(fr, e, k) == Some(fr[j]->Some_0.0),
    decreases k,
{
    if k > 0 {
        lemma_frame_hit_same_value(fr, e, k - 1);
        if entry_holds(fr, k - 1, e) {
            assert(0 <= k - 1 < k && entry_holds(fr, k - 1, e));
            assert forall|j: int| 0 <= j < k && #[trigger] entry_holds(fr, j, e)
                && (forall|l: int| j < l < k ==> !entry_holds(fr, l, e))
                implies frame_hit(fr, e, k) == Some(fr[j]->Some_0.0) by {
                if j < k - 1 {
                    assert(!entry_holds(fr, k - 1, e));
                }
            }
        } else {
            if frame_hit(fr, e, k) is Some {
                let j = choose|j: int| 0 <= j < k - 1 && #[trigger] entry_holds(fr, j, e);
                assert(0 <= j < k && entry_holds(fr, j, e));
            }
            assert forall|j: int| 0 <= j < k && #[trigger] entry_holds(fr, j, e)
                && (forall|l: int| j < l < k ==> !entry_holds(fr, l, e))
                implies frame_hit(fr, e, k) == Some(fr[j]->Some_0.0) by {
                assert(j < k - 1);
                assert(forall|l: int| j < l < k - 1 ==> !entry_holds(fr, l, e));
            }
        }
    }
}

/// Inlining a `var` or `let` declaration gives one assignment `name = init`
/// for every declarator that has an initializer, in order, and nothing for
/// the others.
pub proof fn lemma_var_decl_assignments(sp: Span, decls: Seq<VarDeclarator>)
    ensures
        decl_init_exprs(sp, decls) == decls.filter(|d: VarDeclarator| d.init is Some).map_values(
            |d: VarDeclarator| assign_to(sp, d.name, d.init->Some_0),
        ),
    decreases decls.len(),
{
    reveal(Seq::filter);
    if decls.len() > 0 {
        lemma_var_decl_assignments(sp, decls.drop_last());
        let f = |d: VarDeclarator| assign_to(sp, d.name, d.init->Some_0);
        let pr = |d: VarDeclarator| d.init is Some;
        let sub = decls.drop_last().filter(pr);
        if decls.last().init is Some {
            assert(sub.push(decls.last()).map_values(f) =~= sub.map_values(f).push(f(decls.last())));
        }
        assert(decl_init_exprs(sp, decls) =~= decls.filter(pr).map_values(f));
    } else {
        assert(decls.filter(|d: VarDeclarator| d.init is Some).len() == 0);
        assert(decl_init_exprs(sp, decls) =~= decls.filter(|d: VarDeclarator| d.init is Some).map_values(
            |d: VarDeclarator| assign_to(sp, d.name, d.init->Some_0),
        ));
    }
}

/// Negating the IIFE of a conditional right after restoring it gives back
/// the conditional, whatever the span of its `!` was (only that span becomes
/// the optimizer's): restoring removes the `!` and swaps the branches back.
pub proof fn lemma_negate_after_restore(c: CondExpr)
    requires
        is_negated_fn_call(*c.test),
    ensures
        spec_negate_iife_in_cond(spec_restore_negated_iife(c)) == (CondExpr {
            test: Box::new(Expr::Unary(UnaryExpr { span: spec_dummy_sp(), ..c.test->Unary_0 })),
            ..c
        }),
{
}

} // verus!
