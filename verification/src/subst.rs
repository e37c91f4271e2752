//! Replacing bindings by the expressions that stand for them.
//!
//! This is the part of the optimizer's visit that inlines the expressions of
//! `vars_for_inlining`: every identifier in the position of an expression
//! whose binding the map holds is replaced by a copy of the expression held
//! for it. Bindings, property names, the property of a non-computed member
//! access and an identifier that is the target of an assignment are left
//! alone. Nested functions are visited too.

use vstd::prelude::*;

use crate::ast::{
    BlockStmt, BlockStmtOrExpr, Decl, Expr, ExprOrSpread, ExprOrSuper, Function, IdView, ObjectPatProp, Param,
    Pat, PatOrExpr, Prop, PropName, PropOrSpread, RestPat, Stmt, VarDeclarator,
};
use crate::equiv::{clone_expr, expr_equiv};
use crate::fxmap::{InlineMap, inline_map_contents, inline_map_get};

verus! {

/// `b` is `a` with the bindings of `m` replaced.
pub open spec fn expr_subst(a: Expr, m: Map<IdView, Expr>, b: Expr) -> bool
    decreases a,
{
    match a {
        Expr::This(_) | Expr::Invalid(_) | Expr::Lit(_) => b == a,
        Expr::Ident(x) => if m.contains_key(x.spec_id()) {
            expr_equiv(m[x.spec_id()], b)
        } else {
            b == a
        },
        Expr::Object(x) => b matches Expr::Object(y) && x.span == y.span && x.props@.len() == y.props@.len()
            && forall|i: int| 0 <= i < x.props@.len() ==> prop_or_spread_subst(#[trigger] x.props@[i], m, y.props@[i]),
        Expr::Fn(x) => b matches Expr::Fn(y) && x.ident == y.ident && function_subst(x.function, m, y.function),
        Expr::Unary(x) => b matches Expr::Unary(y) && x.span == y.span && x.op == y.op
            && expr_subst(*x.arg, m, *y.arg),
        Expr::Bin(x) => b matches Expr::Bin(y) && x.span == y.span && x.op == y.op
            && expr_subst(*x.left, m, *y.left) && expr_subst(*x.right, m, *y.right),
        Expr::Assign(x) => b matches Expr::Assign(y) && x.span == y.span && x.op == y.op
            && target_subst(x.left, m, y.left) && expr_subst(*x.right, m, *y.right),
        Expr::Member(x) => b matches Expr::Member(y) && x.span == y.span && x.computed == y.computed
            && callee_subst(x.obj, m, y.obj) && if x.computed {
            expr_subst(*x.prop, m, *y.prop)
        } else {
            y.prop == x.prop
        },
        Expr::Cond(x) => b matches Expr::Cond(y) && x.span == y.span && expr_subst(*x.test, m, *y.test)
            && expr_subst(*x.cons, m, *y.cons) && expr_subst(*x.alt, m, *y.alt),
        Expr::Call(x) => b matches Expr::Call(y) && x.span == y.span && callee_subst(x.callee, m, y.callee)
            && x.args@.len() == y.args@.len()
            && forall|i: int| 0 <= i < x.args@.len() ==> arg_subst(#[trigger] x.args@[i], m, y.args@[i]),
        Expr::Sequence(x) => b matches Expr::Sequence(y) && x.span == y.span && x.exprs@.len() == y.exprs@.len()
            && forall|i: int| 0 <= i < x.exprs@.len() ==> expr_subst(*#[trigger] x.exprs@[i], m, *y.exprs@[i]),
        Expr::Arrow(x) => b matches Expr::Arrow(y) && x.span == y.span && x.is_async == y.is_async
            && x.is_generator == y.is_generator && x.params@.len() == y.params@.len()
            && (forall|i: int| 0 <= i < x.params@.len() ==> pat_subst(#[trigger] x.params@[i], m, y.params@[i]))
            && block_or_expr_subst(x.body, m, y.body),
        Expr::Await(x) => b matches Expr::Await(y) && x.span == y.span && expr_subst(*x.arg, m, *y.arg),
    }
}

/// `b` is the argument `a` with the bindings of `m` replaced.
pub open spec fn arg_subst(a: ExprOrSpread, m: Map<IdView, Expr>, b: ExprOrSpread) -> bool
    decreases a,
{
    a.spread == b.spread && expr_subst(*a.expr, m, *b.expr)
}

/// `b` is the callee `a` with the bindings of `m` replaced.
pub open spec fn callee_subst(a: ExprOrSuper, m: Map<IdView, Expr>, b: ExprOrSuper) -> bool
    decreases a,
{
    match a {
        ExprOrSuper::Super(_) => b == a,
        ExprOrSuper::Expr(x) => b matches ExprOrSuper::Expr(y) && expr_subst(*x, m, *y),
    }
}

/// `b` is the assignment target `a` with the bindings of `m` replaced; an
/// identifier as target stays.
pub open spec fn target_subst(a: PatOrExpr, m: Map<IdView, Expr>, b: PatOrExpr) -> bool
    decreases a,
{
    match a {
        PatOrExpr::Expr(x) => if *x is Ident {
            b == a
        } else {
            b matches PatOrExpr::Expr(y) && expr_subst(*x, m, *y)
        },
        PatOrExpr::Pat(x) => b matches PatOrExpr::Pat(y) && pat_subst(*x, m, *y),
    }
}

/// `b` is the arrow body `a` with the bindings of `m` replaced.
pub open spec fn block_or_expr_subst(a: BlockStmtOrExpr, m: Map<IdView, Expr>, b: BlockStmtOrExpr) -> bool
    decreases a,
{
    match a {
        BlockStmtOrExpr::BlockStmt(x) => b matches BlockStmtOrExpr::BlockStmt(y) && block_subst(x, m, y),
        BlockStmtOrExpr::Expr(x) => b matches BlockStmtOrExpr::Expr(y) && expr_subst(*x, m, *y),
    }
}

/// `b` is the property `a` with the bindings of `m` replaced.
pub open spec fn prop_or_spread_subst(a: PropOrSpread, m: Map<IdView, Expr>, b: PropOrSpread) -> bool
    decreases a,
{
    match a {
        PropOrSpread::Spread(x) => b matches PropOrSpread::Spread(y) && x.dot3_token == y.dot3_token
            && expr_subst(*x.expr, m, *y.expr),
        PropOrSpread::Prop(x) => b matches PropOrSpread::Prop(y) && prop_subst(*x, m, *y),
    }
}

/// `b` is the property `a` with the bindings of `m` replaced; a shorthand
/// property stays.
pub open spec fn prop_subst(a: Prop, m: Map<IdView, Expr>, b: Prop) -> bool
    decreases a,
{
    match a {
        Prop::Shorthand(_) => b == a,
        Prop::KeyValue(x) => b matches Prop::KeyValue(y) && prop_name_subst(x.key, m, y.key)
            && expr_subst(*x.value, m, *y.value),
        Prop::Assign(x) => b matches Prop::Assign(y) && x.key == y.key && expr_subst(*x.value, m, *y.value),
        Prop::Method(x) => b matches Prop::Method(y) && prop_name_subst(x.key, m, y.key)
            && function_subst(x.function, m, y.function),
    }
}

/// `b` is the property key `a` with the bindings of `m` replaced.
pub open spec fn prop_name_subst(a: PropName, m: Map<IdView, Expr>, b: PropName) -> bool
    decreases a,
{
    match a {
        PropName::Computed(x) => b matches PropName::Computed(y) && x.span == y.span
            && expr_subst(*x.expr, m, *y.expr),
        _ => b == a,
    }
}

/// `b` is the function `a` with the bindings of `m` replaced.
pub open spec fn function_subst(a: Function, m: Map<IdView, Expr>, b: Function) -> bool
    decreases a,
{
    &&& a.span == b.span
    &&& a.is_generator == b.is_generator
    &&& a.is_async == b.is_async
    &&& a.params@.len() == b.params@.len()
    &&& forall|i: int| 0 <= i < a.params@.len() ==> param_subst(#[trigger] a.params@[i], m, b.params@[i])
    &&& match a.body {
        None => b.body is None,
        Some(x) => b.body matches Some(y) && block_subst(x, m, y),
    }
}

/// `b` is the parameter `a` with the bindings of `m` replaced.
pub open spec fn param_subst(a: Param, m: Map<IdView, Expr>, b: Param) -> bool
    decreases a,
{
    a.span == b.span && pat_subst(a.pat, m, b.pat)
}

/// `b` is the pattern `a` with the bindings of `m` replaced (in default values
/// and computed keys).
pub open spec fn pat_subst(a: Pat, m: Map<IdView, Expr>, b: Pat) -> bool
    decreases a,
{
    match a {
        Pat::Ident(_) => b == a,
        Pat::Array(x) => b matches Pat::Array(y) && x.span == y.span && x.elems@.len() == y.elems@.len()
            && forall|i: int| 0 <= i < x.elems@.len() ==> opt_pat_subst(#[trigger] x.elems@[i], m, y.elems@[i]),
        Pat::Rest(x) => b matches Pat::Rest(y) && rest_pat_subst(x, m, y),
        Pat::Object(x) => b matches Pat::Object(y) && x.span == y.span && x.props@.len() == y.props@.len()
            && forall|i: int| 0 <= i < x.props@.len() ==> object_pat_prop_subst(#[trigger] x.props@[i], m, y.props@[i]),
        Pat::Assign(x) => b matches Pat::Assign(y) && x.span == y.span && pat_subst(*x.left, m, *y.left)
            && expr_subst(*x.right, m, *y.right),
    }
}

/// `b` is the optional pattern `a` with the bindings of `m` replaced.
pub open spec fn opt_pat_subst(a: Option<Pat>, m: Map<IdView, Expr>, b: Option<Pat>) -> bool
    decreases a,
{
    match a {
        None => b is None,
        Some(x) => b matches Some(y) && pat_subst(x, m, y),
    }
}

/// `b` is the rest pattern `a` with the bindings of `m` replaced.
pub open spec fn rest_pat_subst(a: RestPat, m: Map<IdView, Expr>, b: RestPat) -> bool
    decreases a,
{
    a.span == b.span && a.dot3_token == b.dot3_token && pat_subst(*a.arg, m, *b.arg)
}

/// `b` is the object pattern property `a` with the bindings of `m` replaced.
pub open spec fn object_pat_prop_subst(a: ObjectPatProp, m: Map<IdView, Expr>, b: ObjectPatProp) -> bool
    decreases a,
{
    match a {
        ObjectPatProp::KeyValue(x) => b matches ObjectPatProp::KeyValue(y) && prop_name_subst(x.key, m, y.key)
            && pat_subst(*x.value, m, *y.value),
        ObjectPatProp::Assign(x) => b matches ObjectPatProp::Assign(y) && x.span == y.span && x.key == y.key
            && opt_expr_subst(x.value, m, y.value),
        ObjectPatProp::Rest(x) => b matches ObjectPatProp::Rest(y) && rest_pat_subst(x, m, y),
    }
}

/// `b` is the optional expression `a` with the bindings of `m` replaced.
pub open spec fn opt_expr_subst(a: Option<Box<Expr>>, m: Map<IdView, Expr>, b: Option<Box<Expr>>) -> bool
    decreases a,
{
    match a {
        None => b is None,
        Some(x) => b matches Some(y) && expr_subst(*x, m, *y),
    }
}

/// `b` is the block `a` with the bindings of `m` replaced.
pub open spec fn block_subst(a: BlockStmt, m: Map<IdView, Expr>, b: BlockStmt) -> bool
    decreases a,
{
    a.span == b.span && a.stmts@.len() == b.stmts@.len()
        && forall|i: int| 0 <= i < a.stmts@.len() ==> stmt_subst(#[trigger] a.stmts@[i], m, b.stmts@[i])
}

/// `b` is the statement `a` with the bindings of `m` replaced.
pub open spec fn stmt_subst(a: Stmt, m: Map<IdView, Expr>, b: Stmt) -> bool
    decreases a,
{
    match a {
        Stmt::Block(x) => b matches Stmt::Block(y) && block_subst(x, m, y),
        Stmt::Empty(_) => b == a,
        Stmt::Expr(x) => b matches Stmt::Expr(y) && x.span == y.span && expr_subst(*x.expr, m, *y.expr),
        Stmt::Return(x) => b matches Stmt::Return(y) && x.span == y.span && opt_expr_subst(x.arg, m, y.arg),
        Stmt::If(x) => b matches Stmt::If(y) && x.span == y.span && expr_subst(*x.test, m, *y.test)
            && stmt_subst(*x.cons, m, *y.cons) && match x.alt {
                None => y.alt is None,
                Some(s) => y.alt matches Some(t) && stmt_subst(*s, m, *t),
            },
        Stmt::Decl(x) => b matches Stmt::Decl(y) && decl_subst(x, m, y),
    }
}

/// `b` is the declaration `a` with the bindings of `m` replaced.
pub open spec fn decl_subst(a: Decl, m: Map<IdView, Expr>, b: Decl) -> bool
    decreases a,
{
    match a {
        Decl::Fn(x) => b matches Decl::Fn(y) && x.ident == y.ident && x.declare == y.declare
            && function_subst(x.function, m, y.function),
        Decl::Var(x) => b matches Decl::Var(y) && x.span == y.span && x.kind == y.kind && x.declare == y.declare
            && x.decls@.len() == y.decls@.len()
            && forall|i: int| 0 <= i < x.decls@.len() ==> var_declarator_subst(#[trigger] x.decls@[i], m, y.decls@[i]),
    }
}

/// `b` is the declarator `a` with the bindings of `m` replaced.
pub open spec fn var_declarator_subst(a: VarDeclarator, m: Map<IdView, Expr>, b: VarDeclarator) -> bool
    decreases a,
{
    a.span == b.span && a.definite == b.definite && pat_subst(a.name, m, b.name) && opt_expr_subst(a.init, m, b.init)
}

/// Replaces, in an expression, the bindings that `vars` holds by copies of
/// their expressions.
#[verifier::loop_isolation(false)]
pub fn replace_in_expr(e: &mut Expr, vars: &InlineMap)
    ensures
        expr_subst(*old(e), inline_map_contents(*vars), *final(e)),
    decreases *old(e),
{
    let ghost m = inline_map_contents(*vars);
    let hit: Option<Expr> = match &*e {
        Expr::Ident(i) => {
            let id = i.to_id();
            match inline_map_get(vars, &id) {
                Some(v) => Some(clone_expr(v)),
                None => None,
            }
        },
        _ => None,
    };
    match hit {
        Some(v) => {
            *e = v;
            return;
        },
        None => {},
    }
    match e {
        Expr::This(_) | Expr::Invalid(_) | Expr::Lit(_) | Expr::Ident(_) => {},
        Expr::Object(x) => {
            let ghost x0 = *x;
            let mut i: usize = 0;
            while i < x.props.len()
                invariant
                    *old(e) == Expr::Object(x0),
                    x.span == x0.span,
                    i <= x.props@.len(),
                    x.props@.len() == x0.props@.len(),
                    forall|j: int| 0 <= j < i ==> prop_or_spread_subst(#[trigger] x0.props@[j], m, x.props@[j]),
                    forall|j: int| i <= j < x0.props@.len() ==> x.props@[j] == x0.props@[j],
                decreases x0.props@.len() - i,
            {
                assert(decreases_to!(*old(e) => x0.props@[i as int]));
                replace_in_prop_or_spread(&mut x.props[i], vars);
                i = i + 1;
            }
        },
        Expr::Fn(x) => replace_in_function(&mut x.function, vars),
        Expr::Unary(x) => replace_in_expr(&mut x.arg, vars),
        Expr::Bin(x) => {
            replace_in_expr(&mut x.left, vars);
            replace_in_expr(&mut x.right, vars);
        },
        Expr::Assign(x) => {
            replace_in_target(&mut x.left, vars);
            replace_in_expr(&mut x.right, vars);
        },
        Expr::Member(x) => {
            replace_in_callee(&mut x.obj, vars);
            if x.computed {
                replace_in_expr(&mut x.prop, vars);
            }
        },
        Expr::Cond(x) => {
            replace_in_expr(&mut x.test, vars);
            replace_in_expr(&mut x.cons, vars);
            replace_in_expr(&mut x.alt, vars);
        },
        Expr::Call(x) => {
            let ghost x0 = *x;
            replace_in_callee(&mut x.callee, vars);
            let mut i: usize = 0;
            while i < x.args.len()
                invariant
                    *old(e) == Expr::Call(x0),
                    x.span == x0.span,
                    callee_subst(x0.callee, m, x.callee),
                    i <= x.args@.len(),
                    x.args@.len() == x0.args@.len(),
                    forall|j: int| 0 <= j < i ==> arg_subst(#[trigger] x0.args@[j], m, x.args@[j]),
                    forall|j: int| i <= j < x0.args@.len() ==> x.args@[j] == x0.args@[j],
                decreases x0.args@.len() - i,
            {
                assert(decreases_to!(*old(e) => x0.args@[i as int]));
                replace_in_expr(&mut x.args[i].expr, vars);
                i = i + 1;
            }
        },
        Expr::Sequence(x) => {
            let ghost x0 = *x;
            let mut i: usize = 0;
            while i < x.exprs.len()
                invariant
                    *old(e) == Expr::Sequence(x0),
                    x.span == x0.span,
                    i <= x.exprs@.len(),
                    x.exprs@.len() == x0.exprs@.len(),
                    forall|j: int| 0 <= j < i ==> expr_subst(*#[trigger] x0.exprs@[j], m, *x.exprs@[j]),
                    forall|j: int| i <= j < x0.exprs@.len() ==> x.exprs@[j] == x0.exprs@[j],
                decreases x0.exprs@.len() - i,
            {
                assert(decreases_to!(*old(e) => x0.exprs@[i as int]));
                replace_in_expr(&mut x.exprs[i], vars);
                i = i + 1;
            }
        },
        Expr::Arrow(x) => {
            let ghost x0 = *x;
            let mut i: usize = 0;
            while i < x.params.len()
                invariant
                    *old(e) == Expr::Arrow(x0),
                    x.span == x0.span,
                    x.body == x0.body,
                    x.is_async == x0.is_async,
                    x.is_generator == x0.is_generator,
                    i <= x.params@.len(),
                    x.params@.len() == x0.params@.len(),
                    forall|j: int| 0 <= j < i ==> pat_subst(#[trigger] x0.params@[j], m, x.params@[j]),
                    forall|j: int| i <= j < x0.params@.len() ==> x.params@[j] == x0.params@[j],
                decreases x0.params@.len() - i,
            {
                assert(decreases_to!(*old(e) => x0.params@[i as int]));
                replace_in_pat(&mut x.params[i], vars);
                i = i + 1;
            }
            replace_in_block_or_expr(&mut x.body, vars);
        },
        Expr::Await(x) => replace_in_expr(&mut x.arg, vars),
    }
}

/// Replaces the bindings that `vars` holds in a callee.
pub fn replace_in_callee(c: &mut ExprOrSuper, vars: &InlineMap)
    ensures
        callee_subst(*old(c), inline_map_contents(*vars), *final(c)),
    decreases *old(c),
{
    match c {
        ExprOrSuper::Super(_) => {},
        ExprOrSuper::Expr(x) => replace_in_expr(x, vars),
    }
}

/// Replaces the bindings that `vars` holds in an assignment target; an
/// identifier as target is left alone.
pub fn replace_in_target(t: &mut PatOrExpr, vars: &InlineMap)
    ensures
        target_subst(*old(t), inline_map_contents(*vars), *final(t)),
    decreases *old(t),
{
    match t {
        PatOrExpr::Expr(x) => {
            let is_ident = match &**x {
                Expr::Ident(_) => true,
                _ => false,
            };
            if !is_ident {
                replace_in_expr(x, vars);
            }
        },
        PatOrExpr::Pat(x) => replace_in_pat(x, vars),
    }
}

/// Replaces the bindings that `vars` holds in an arrow body.
pub fn replace_in_block_or_expr(b: &mut BlockStmtOrExpr, vars: &InlineMap)
    ensures
        block_or_expr_subst(*old(b), inline_map_contents(*vars), *final(b)),
    decreases *old(b),
{
    match b {
        BlockStmtOrExpr::BlockStmt(x) => replace_in_block(x, vars),
        BlockStmtOrExpr::Expr(x) => replace_in_expr(x, vars),
    }
}

/// Replaces the bindings that `vars` holds in a property.
pub fn replace_in_prop_or_spread(p: &mut PropOrSpread, vars: &InlineMap)
    ensures
        prop_or_spread_subst(*old(p), inline_map_contents(*vars), *final(p)),
    decreases *old(p),
{
    match p {
        PropOrSpread::Spread(x) => replace_in_expr(&mut x.expr, vars),
        PropOrSpread::Prop(x) => replace_in_prop(x, vars),
    }
}

/// Replaces the bindings that `vars` holds in a property.
pub fn replace_in_prop(p: &mut Prop, vars: &InlineMap)
    ensures
        prop_subst(*old(p), inline_map_contents(*vars), *final(p)),
    decreases *old(p),
{
    match p {
        Prop::Shorthand(_) => {},
        Prop::KeyValue(x) => {
            replace_in_prop_name(&mut x.key, vars);
            replace_in_expr(&mut x.value, vars);
        },
        Prop::Assign(x) => replace_in_expr(&mut x.value, vars),
        Prop::Method(x) => {
            replace_in_prop_name(&mut x.key, vars);
            replace_in_function(&mut x.function, vars);
        },
    }
}

/// Replaces the bindings that `vars` holds in a computed property key.
pub fn replace_in_prop_name(p: &mut PropName, vars: &InlineMap)
    ensures
        prop_name_subst(*old(p), inline_map_contents(*vars), *final(p)),
    decreases *old(p),
{
    match p {
        PropName::Computed(x) => replace_in_expr(&mut x.expr, vars),
        _ => {},
    }
}

/// Replaces the bindings that `vars` holds in a function.
#[verifier::loop_isolation(false)]
pub fn replace_in_function(f: &mut Function, vars: &InlineMap)
    ensures
        function_subst(*old(f), inline_map_contents(*vars), *final(f)),
    decreases *old(f),
{
    let ghost m = inline_map_contents(*vars);
    let ghost f0 = *f;
    let mut i: usize = 0;
    while i < f.params.len()
        invariant
            *old(f) == f0,
            f.span == f0.span,
            f.body == f0.body,
            f.is_async == f0.is_async,
            f.is_generator == f0.is_generator,
            i <= f.params@.len(),
            f.params@.len() == f0.params@.len(),
            forall|j: int| 0 <= j < i ==> param_subst(#[trigger] f0.params@[j], m, f.params@[j]),
            forall|j: int| i <= j < f0.params@.len() ==> f.params@[j] == f0.params@[j],
        decreases f0.params@.len() - i,
    {
        assert(decreases_to!(*old(f) => f0.params@[i as int]));
        replace_in_pat(&mut f.params[i].pat, vars);
        i = i + 1;
    }
    match &mut f.body {
        Some(b) => replace_in_block(b, vars),
        None => {},
    }
}

/// Replaces the bindings that `vars` holds in a pattern.
#[verifier::loop_isolation(false)]
pub fn replace_in_pat(p: &mut Pat, vars: &InlineMap)
    ensures
        pat_subst(*old(p), inline_map_contents(*vars), *final(p)),
    decreases *old(p),
{
    let ghost m = inline_map_contents(*vars);
    match p {
        Pat::Ident(_) => {},
        Pat::Array(x) => {
            let ghost x0 = *x;
            let mut i: usize = 0;
            while i < x.elems.len()
                invariant
                    *old(p) == Pat::Array(x0),
                    x.span == x0.span,
                    i <= x.elems@.len(),
                    x.elems@.len() == x0.elems@.len(),
                    forall|j: int| 0 <= j < i ==> opt_pat_subst(#[trigger] x0.elems@[j], m, x.elems@[j]),
                    forall|j: int| i <= j < x0.elems@.len() ==> x.elems@[j] == x0.elems@[j],
                decreases x0.elems@.len() - i,
            {
                assert(decreases_to!(*old(p) => x0.elems@[i as int]));
                match &mut x.elems[i] {
                    Some(q) => replace_in_pat(q, vars),
                    None => {},
                }
                i = i + 1;
            }
        },
        Pat::Rest(x) => replace_in_rest_pat(x, vars),
        Pat::Object(x) => {
            let ghost x0 = *x;
            let mut i: usize = 0;
            while i < x.props.len()
                invariant
                    *old(p) == Pat::Object(x0),
                    x.span == x0.span,
                    i <= x.props@.len(),
                    x.props@.len() == x0.props@.len(),
                    forall|j: int| 0 <= j < i ==> object_pat_prop_subst(#[trigger] x0.props@[j], m, x.props@[j]),
                    forall|j: int| i <= j < x0.props@.len() ==> x.props@[j] == x0.props@[j],
                decreases x0.props@.len() - i,
            {
                assert(decreases_to!(*old(p) => x0.props@[i as int]));
                replace_in_object_pat_prop(&mut x.props[i], vars);
                i = i + 1;
            }
        },
        Pat::Assign(x) => {
            replace_in_pat(&mut x.left, vars);
            replace_in_expr(&mut x.right, vars);
        },
    }
}

/// Replaces the bindings that `vars` holds in a rest pattern.
pub fn replace_in_rest_pat(p: &mut RestPat, vars: &InlineMap)
    ensures
        rest_pat_subst(*old(p), inline_map_contents(*vars), *final(p)),
    decreases *old(p),
{
    replace_in_pat(&mut p.arg, vars);
}

/// Replaces the bindings that `vars` holds in an object pattern property.
pub fn replace_in_object_pat_prop(p: &mut ObjectPatProp, vars: &InlineMap)
    ensures
        object_pat_prop_subst(*old(p), inline_map_contents(*vars), *final(p)),
    decreases *old(p),
{
    match p {
        ObjectPatProp::KeyValue(x) => {
            replace_in_prop_name(&mut x.key, vars);
            replace_in_pat(&mut x.value, vars);
        },
        ObjectPatProp::Assign(x) => replace_in_opt_expr(&mut x.value, vars),
        ObjectPatProp::Rest(x) => replace_in_rest_pat(x, vars),
    }
}

/// Replaces the bindings that `vars` holds in an optional expression.
pub fn replace_in_opt_expr(e: &mut Option<Box<Expr>>, vars: &InlineMap)
    ensures
        opt_expr_subst(*old(e), inline_map_contents(*vars), *final(e)),
    decreases *old(e),
{
    match e {
        Some(x) => replace_in_expr(x, vars),
        None => {},
    }
}

/// Replaces the bindings that `vars` holds in a block.
#[verifier::loop_isolation(false)]
pub fn replace_in_block(b: &mut BlockStmt, vars: &InlineMap)
    ensures
        block_subst(*old(b), inline_map_contents(*vars), *final(b)),
    decreases *old(b),
{
    let ghost m = inline_map_contents(*vars);
    let ghost b0 = *b;
    let mut i: usize = 0;
    while i < b.stmts.len()
        invariant
            *old(b) == b0,
            b.span == b0.span,
            i <= b.stmts@.len(),
            b.stmts@.len() == b0.stmts@.len(),
            forall|j: int| 0 <= j < i ==> stmt_subst(#[trigger] b0.stmts@[j], m, b.stmts@[j]),
            forall|j: int| i <= j < b0.stmts@.len() ==> b.stmts@[j] == b0.stmts@[j],
        decreases b0.stmts@.len() - i,
    {
        assert(decreases_to!(*old(b) => b0.stmts@[i as int]));
        replace_in_stmt(&mut b.stmts[i], vars);
        i = i + 1;
    }
}

/// Replaces the bindings that `vars` holds in a statement.
pub fn replace_in_stmt(s: &mut Stmt, vars: &InlineMap)
    ensures
        stmt_subst(*old(s), inline_map_contents(*vars), *final(s)),
    decreases *old(s),
{
    match s {
        Stmt::Block(x) => replace_in_block(x, vars),
        Stmt::Empty(_) => {},
        Stmt::Expr(x) => replace_in_expr(&mut x.expr, vars),
        Stmt::Return(x) => replace_in_opt_expr(&mut x.arg, vars),
        Stmt::If(x) => {
            replace_in_expr(&mut x.test, vars);
            replace_in_stmt(&mut x.cons, vars);
            match &mut x.alt {
                Some(a) => replace_in_stmt(a, vars),
                None => {},
            }
        },
        Stmt::Decl(x) => replace_in_decl(x, vars),
    }
}

/// Replaces the bindings that `vars` holds in a declaration.
#[verifier::loop_isolation(false)]
pub fn replace_in_decl(d: &mut Decl, vars: &InlineMap)
    ensures
        decl_subst(*old(d), inline_map_contents(*vars), *final(d)),
    decreases *old(d),
{
    let ghost m = inline_map_contents(*vars);
    match d {
        Decl::Fn(x) => replace_in_function(&mut x.function, vars),
        Decl::Var(x) => {
            let ghost x0 = *x;
            let mut i: usize = 0;
            while i < x.decls.len()
                invariant
                    *old(d) == Decl::Var(x0),
                    x.span == x0.span,
                    x.kind == x0.kind,
                    x.declare == x0.declare,
                    i <= x.decls@.len(),
                    x.decls@.len() == x0.decls@.len(),
                    forall|j: int| 0 <= j < i ==> var_declarator_subst(#[trigger] x0.decls@[j], m, x.decls@[j]),
                    forall|j: int| i <= j < x0.decls@.len() ==> x.decls@[j] == x0.decls@[j],
                decreases x0.decls@.len() - i,
            {
                assert(decreases_to!(*old(d) => x0.decls@[i as int]));
                replace_in_pat(&mut x.decls[i].name, vars);
                replace_in_opt_expr(&mut x.decls[i].init, vars);
                i = i + 1;
            }
        },
    }
}

} // verus!

verus! {

/// A node in which bindings can be replaced by their expressions.
pub trait InlineTarget: Sized {
    /// `r` is `self` with the bindings of `m` replaced.
    spec fn substituted(self, m: Map<IdView, Expr>, r: Self) -> bool;

    /// Replaces, in the node, the bindings that `vars` holds by copies of
    /// their expressions.
    fn replace_vars(&mut self, vars: &InlineMap)
        ensures
            old(self).substituted(inline_map_contents(*vars), *final(self)),
    ;
}

impl InlineTarget for Expr {
    open spec fn substituted(self, m: Map<IdView, Expr>, r: Self) -> bool {
        expr_subst(self, m, r)
    }

    fn replace_vars(&mut self, vars: &InlineMap) {
        replace_in_expr(self, vars);
    }
}

impl InlineTarget for BlockStmt {
    open spec fn substituted(self, m: Map<IdView, Expr>, r: Self) -> bool {
        block_subst(self, m, r)
    }

    fn replace_vars(&mut self, vars: &InlineMap) {
        replace_in_block(self, vars);
    }
}

} // verus!
