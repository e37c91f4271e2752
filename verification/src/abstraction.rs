//! Putting the parameters of an IIFE in place of the values that its
//! arguments pass.
//!
//! In the body of a called function, an expression that is the value bound
//! to a parameter (the same identifier, the same literal, or `void 0` for a
//! missing argument) is replaced by the parameter itself. Calls of function
//! expressions nested in the body are treated the same way, with their own
//! parameters, before the outer ones. Bindings, property names, the property
//! of a non-computed member access and an identifier that is the target of an
//! assignment are left alone.

use vstd::prelude::*;

use crate::ast::{
    ArrowExpr, BlockStmt, BlockStmtOrExpr, CallExpr, Decl, Expr, ExprOrSpread, ExprOrSuper, Function, IdView,
    Ident, ObjectPatProp, Param, Pat, PatOrExpr, Prop, PropName, PropOrSpread, RestPat, Stmt, UnaryOp,
    VarDeclarator, spec_undefined,
};
use crate::equiv::{clone_expr, clone_ident, expr_equiv};
use crate::fxmap::{inline_map_contents, inline_map_get, inline_map_insert, new_inline_map, usage_map_get};
use crate::inline_args::{
    callee_pats, find_params, iife_arg_binding, iife_arg_map, lemma_binding_simple, lemma_undefined_equiv,
};
use crate::lit::Lit;
use crate::optimizer::{Optimizer, ProgramData};

verus! {

/// The parameters of one IIFE as they are matched: for each parameter, the
/// parameter and the value it is bound to, or nothing where it binds nothing.
pub type Frame = Vec<Option<(Ident, Expr)>>;

/// What a [`Frame`] holds.
pub type FrameView = Seq<Option<(Ident, Expr)>>;

/// The frames of a stack.
pub open spec fn stack_view(fs: Seq<Frame>) -> Seq<FrameView> {
    fs.map_values(|f: Frame| f@)
}

/// Two literals are the same literal, wherever they stand.
pub open spec fn same_lit(a: Lit, b: Lit) -> bool {
    match (a, b) {
        (Lit::Str(x), Lit::Str(y)) => x.value@ == y.value@,
        (Lit::Bool(x), Lit::Bool(y)) => x.value == y.value,
        (Lit::Null(_), Lit::Null(_)) => true,
        (Lit::Num(x), Lit::Num(y)) => x.value_bits == y.value_bits,
        (Lit::Regex(x), Lit::Regex(y)) => x.exp@ == y.exp@ && x.flags@ == y.flags@,
        _ => false,
    }
}

/// The expression is `void 0`.
pub open spec fn is_void_zero(e: Expr) -> bool {
    e matches Expr::Unary(u) && u.op == UnaryOp::Void && (*u.arg matches Expr::Lit(Lit::Num(n)) && n.value_bits == 0)
}

/// `e` is the value `v` that a parameter holds: the same identifier, the same
/// literal, or `void 0` for both.
pub open spec fn leaf_matches(e: Expr, v: Expr) -> bool {
    match v {
        Expr::Ident(x) => e matches Expr::Ident(y) && y.spec_id() == x.spec_id(),
        Expr::Lit(l) => e matches Expr::Lit(k) && same_lit(k, l),
        _ => is_void_zero(v) && is_void_zero(e),
    }
}

/// The last of the first `k` parameters of the frame whose value `e` is.
pub open spec fn frame_hit(fr: FrameView, e: Expr, k: int) -> Option<Ident>
    decreases k,
{
    if k <= 0 {
        None
    } else {
        match fr[k - 1] {
            Some(p) => if leaf_matches(e, p.1) {
                Some(p.0)
            } else {
                frame_hit(fr, e, k - 1)
            },
            None => frame_hit(fr, e, k - 1),
        }
    }
}

/// The parameter that `e` becomes in a stack of frames, the innermost first:
/// once it is a parameter of an inner frame, the outer frames see that
/// parameter.
pub open spec fn stack_hit(fs: Seq<FrameView>, e: Expr) -> Option<Ident>
    decreases fs.len(),
{
    if fs.len() == 0 {
        None
    } else {
        match frame_hit(fs.last(), e, fs.last().len() as int) {
            Some(i) => match stack_hit(fs.drop_last(), Expr::Ident(i)) {
                Some(j) => Some(j),
                None => Some(i),
            },
            None => stack_hit(fs.drop_last(), e),
        }
    }
}

/// The frame of the parameters `pats`, bound as `m` holds.
pub open spec fn frame_of(pats: Seq<Pat>, m: Map<IdView, Expr>) -> FrameView {
    pats.map_values(
        |p: Pat|
            match p {
                Pat::Ident(b) => if m.contains_key(b.id.spec_id()) {
                    Some((b.id, m[b.id.spec_id()]))
                } else {
                    None
                },
                _ => None,
            },
    )
}

/// The call is an IIFE whose parameters are put in its body: no argument is
/// spread and the callee is an arrow function or a function expression with
/// a body.
pub open spec fn nested_iife(x: CallExpr) -> bool {
    &&& forall|i: int| 0 <= i < x.args@.len() ==> (#[trigger] x.args@[i]).spread is None
    &&& x.callee matches ExprOrSuper::Expr(c) && (*c is Arrow || (*c matches Expr::Fn(f) && f.function.body is Some))
}

/// The frame of an IIFE's parameters, bound to its arguments as
/// [`iife_arg_map`] states.
pub open spec fn iife_frame(c: Expr, args: Seq<ExprOrSpread>, d: Option<ProgramData>) -> FrameView {
    frame_of(callee_pats(c), iife_arg_map(callee_pats(c), args, d))
}

/// `b` is `a` with the parameters of `fs` put in place of their values.
pub open spec fn expr_abs(a: Expr, fs: Seq<FrameView>, d: Option<ProgramData>, b: Expr) -> bool
    decreases a,
{
    if stack_hit(fs, a) is Some {
        b == Expr::Ident(stack_hit(fs, a)->Some_0)
    } else {
        match a {
            Expr::This(_) | Expr::Invalid(_) | Expr::Lit(_) | Expr::Ident(_) => b == a,
            Expr::Object(x) => b matches Expr::Object(y) && x.span == y.span && x.props@.len() == y.props@.len()
                && forall|i: int| 0 <= i < x.props@.len() ==> prop_or_spread_abs(#[trigger] x.props@[i], fs, d, y.props@[i]),
            Expr::Fn(x) => b matches Expr::Fn(y) && x.ident == y.ident && function_abs(x.function, fs, fs, d, y.function),
            Expr::Unary(x) => b matches Expr::Unary(y) && x.span == y.span && x.op == y.op
                && expr_abs(*x.arg, fs, d, *y.arg),
            Expr::Bin(x) => b matches Expr::Bin(y) && x.span == y.span && x.op == y.op
                && expr_abs(*x.left, fs, d, *y.left) && expr_abs(*x.right, fs, d, *y.right),
            Expr::Assign(x) => b matches Expr::Assign(y) && x.span == y.span && x.op == y.op
                && target_abs(x.left, fs, d, y.left) && expr_abs(*x.right, fs, d, *y.right),
            Expr::Member(x) => b matches Expr::Member(y) && x.span == y.span && x.computed == y.computed
                && callee_abs(x.obj, fs, d, y.obj) && if x.computed {
                expr_abs(*x.prop, fs, d, *y.prop)
            } else {
                y.prop == x.prop
            },
            Expr::Cond(x) => b matches Expr::Cond(y) && x.span == y.span && expr_abs(*x.test, fs, d, *y.test)
                && expr_abs(*x.cons, fs, d, *y.cons) && expr_abs(*x.alt, fs, d, *y.alt),
            Expr::Call(x) => b matches Expr::Call(y) && x.span == y.span && x.args@.len() == y.args@.len()
                && (forall|i: int| 0 <= i < x.args@.len() ==> arg_abs(#[trigger] x.args@[i], fs, d, y.args@[i]))
                && if nested_iife(x) {
                    let c = *x.callee->Expr_0;
                    y.callee matches ExprOrSuper::Expr(z) && iife_callee_abs(c, fs, fs.push(iife_frame(c, x.args@, d)), d, *z)
                } else {
                    callee_abs(x.callee, fs, d, y.callee)
                },
            Expr::Sequence(x) => b matches Expr::Sequence(y) && x.span == y.span && x.exprs@.len() == y.exprs@.len()
                && forall|i: int| 0 <= i < x.exprs@.len() ==> expr_abs(*#[trigger] x.exprs@[i], fs, d, *y.exprs@[i]),
            Expr::Arrow(x) => b matches Expr::Arrow(y) && arrow_abs(x, fs, fs, d, y),
            Expr::Await(x) => b matches Expr::Await(y) && x.span == y.span && expr_abs(*x.arg, fs, d, *y.arg),
        }
    }
}

/// `b` is the callee `a` of an IIFE with the parameters of `fs` put in its
/// parameters' default values and those of `bfs` in its body.
pub open spec fn iife_callee_abs(a: Expr, fs: Seq<FrameView>, bfs: Seq<FrameView>, d: Option<ProgramData>, b: Expr) -> bool
    decreases a,
{
    match a {
        Expr::Arrow(x) => b matches Expr::Arrow(y) && arrow_abs(x, fs, bfs, d, y),
        Expr::Fn(x) => b matches Expr::Fn(y) && x.ident == y.ident && function_abs(x.function, fs, bfs, d, y.function),
        _ => b == a,
    }
}

/// `b` is the arrow function `a` with the parameters of `fs` put in its
/// parameters' default values and those of `bfs` in its body.
pub open spec fn arrow_abs(a: ArrowExpr, fs: Seq<FrameView>, bfs: Seq<FrameView>, d: Option<ProgramData>, b: ArrowExpr) -> bool
    decreases a,
{
    &&& a.span == b.span
    &&& a.is_async == b.is_async
    &&& a.is_generator == b.is_generator
    &&& a.params@.len() == b.params@.len()
    &&& forall|i: int| 0 <= i < a.params@.len() ==> pat_abs(#[trigger] a.params@[i], fs, d, b.params@[i])
    &&& block_or_expr_abs(a.body, bfs, d, b.body)
}

/// `b` is the argument `a` with the parameters of `fs` put in.
pub open spec fn arg_abs(a: ExprOrSpread, fs: Seq<FrameView>, d: Option<ProgramData>, b: ExprOrSpread) -> bool
    decreases a,
{
    a.spread == b.spread && expr_abs(*a.expr, fs, d, *b.expr)
}

/// `b` is the callee `a` with the parameters of `fs` put in.
pub open spec fn callee_abs(a: ExprOrSuper, fs: Seq<FrameView>, d: Option<ProgramData>, b: ExprOrSuper) -> bool
    decreases a,
{
    match a {
        ExprOrSuper::Super(_) => b == a,
        ExprOrSuper::Expr(x) => b matches ExprOrSuper::Expr(y) && expr_abs(*x, fs, d, *y),
    }
}

/// `b` is the assignment target `a` with the parameters of `fs` put in; an
/// identifier as target stays.
pub open spec fn target_abs(a: PatOrExpr, fs: Seq<FrameView>, d: Option<ProgramData>, b: PatOrExpr) -> bool
    decreases a,
{
    match a {
        PatOrExpr::Expr(x) => if *x is Ident {
            b == a
        } else {
            b matches PatOrExpr::Expr(y) && expr_abs(*x, fs, d, *y)
        },
        PatOrExpr::Pat(x) => b matches PatOrExpr::Pat(y) && pat_abs(*x, fs, d, *y),
    }
}

/// `b` is the arrow body `a` with the parameters of `fs` put in.
pub open spec fn block_or_expr_abs(a: BlockStmtOrExpr, fs: Seq<FrameView>, d: Option<ProgramData>, b: BlockStmtOrExpr) -> bool
    decreases a,
{
    match a {
        BlockStmtOrExpr::BlockStmt(x) => b matches BlockStmtOrExpr::BlockStmt(y) && block_abs(x, fs, d, y),
        BlockStmtOrExpr::Expr(x) => b matches BlockStmtOrExpr::Expr(y) && expr_abs(*x, fs, d, *y),
    }
}

/// `b` is the property `a` with the parameters of `fs` put in.
pub open spec fn prop_or_spread_abs(a: PropOrSpread, fs: Seq<FrameView>, d: Option<ProgramData>, b: PropOrSpread) -> bool
    decreases a,
{
    match a {
        PropOrSpread::Spread(x) => b matches PropOrSpread::Spread(y) && x.dot3_token == y.dot3_token
            && expr_abs(*x.expr, fs, d, *y.expr),
        PropOrSpread::Prop(x) => b matches PropOrSpread::Prop(y) && prop_abs(*x, fs, d, *y),
    }
}

/// `b` is the property `a` with the parameters of `fs` put in; a shorthand
/// property stays.
pub open spec fn prop_abs(a: Prop, fs: Seq<FrameView>, d: Option<ProgramData>, b: Prop) -> bool
    decreases a,
{
    match a {
        Prop::Shorthand(_) => b == a,
        Prop::KeyValue(x) => b matches Prop::KeyValue(y) && prop_name_abs(x.key, fs, d, y.key)
            && expr_abs(*x.value, fs, d, *y.value),
        Prop::Assign(x) => b matches Prop::Assign(y) && x.key == y.key && expr_abs(*x.value, fs, d, *y.value),
        Prop::Method(x) => b matches Prop::Method(y) && prop_name_abs(x.key, fs, d, y.key)
            && function_abs(x.function, fs, fs, d, y.function),
    }
}

/// `b` is the property key `a` with the parameters of `fs` put in.
pub open spec fn prop_name_abs(a: PropName, fs: Seq<FrameView>, d: Option<ProgramData>, b: PropName) -> bool
    decreases a,
{
    match a {
        PropName::Computed(x) => b matches PropName::Computed(y) && x.span == y.span
            && expr_abs(*x.expr, fs, d, *y.expr),
        _ => b == a,
    }
}

/// `b` is the function `a` with the parameters of `fs` put in its
/// parameters' default values and those of `bfs` put in its body.
pub open spec fn function_abs(a: Function, fs: Seq<FrameView>, bfs: Seq<FrameView>, d: Option<ProgramData>, b: Function) -> bool
    decreases a,
{
    &&& a.span == b.span
    &&& a.is_generator == b.is_generator
    &&& a.is_async == b.is_async
    &&& a.params@.len() == b.params@.len()
    &&& forall|i: int| 0 <= i < a.params@.len() ==> param_abs(#[trigger] a.params@[i], fs, d, b.params@[i])
    &&& match a.body {
        None => b.body is None,
        Some(x) => b.body matches Some(y) && block_abs(x, bfs, d, y),
    }
}

/// `b` is the parameter `a` with the parameters of `fs` put in.
pub open spec fn param_abs(a: Param, fs: Seq<FrameView>, d: Option<ProgramData>, b: Param) -> bool
    decreases a,
{
    a.span == b.span && pat_abs(a.pat, fs, d, b.pat)
}

/// `b` is the pattern `a` with the parameters of `fs` put in (in default values
/// and computed keys).
pub open spec fn pat_abs(a: Pat, fs: Seq<FrameView>, d: Option<ProgramData>, b: Pat) -> bool
    decreases a,
{
    match a {
        Pat::Ident(_) => b == a,
        Pat::Array(x) => b matches Pat::Array(y) && x.span == y.span && x.elems@.len() == y.elems@.len()
            && forall|i: int| 0 <= i < x.elems@.len() ==> opt_pat_abs(#[trigger] x.elems@[i], fs, d, y.elems@[i]),
        Pat::Rest(x) => b matches Pat::Rest(y) && rest_pat_abs(x, fs, d, y),
        Pat::Object(x) => b matches Pat::Object(y) && x.span == y.span && x.props@.len() == y.props@.len()
            && forall|i: int| 0 <= i < x.props@.len() ==> object_pat_prop_abs(#[trigger] x.props@[i], fs, d, y.props@[i]),
        Pat::Assign(x) => b matches Pat::Assign(y) && x.span == y.span && pat_abs(*x.left, fs, d, *y.left)
            && expr_abs(*x.right, fs, d, *y.right),
    }
}

/// `b` is the optional pattern `a` with the parameters of `fs` put in.
pub open spec fn opt_pat_abs(a: Option<Pat>, fs: Seq<FrameView>, d: Option<ProgramData>, b: Option<Pat>) -> bool
    decreases a,
{
    match a {
        None => b is None,
        Some(x) => b matches Some(y) && pat_abs(x, fs, d, y),
    }
}

/// `b` is the rest pattern `a` with the parameters of `fs` put in.
pub open spec fn rest_pat_abs(a: RestPat, fs: Seq<FrameView>, d: Option<ProgramData>, b: RestPat) -> bool
    decreases a,
{
    a.span == b.span && a.dot3_token == b.dot3_token && pat_abs(*a.arg, fs, d, *b.arg)
}

/// `b` is the object pattern property `a` with the parameters of `fs` put in.
pub open spec fn object_pat_prop_abs(a: ObjectPatProp, fs: Seq<FrameView>, d: Option<ProgramData>, b: ObjectPatProp) -> bool
    decreases a,
{
    match a {
        ObjectPatProp::KeyValue(x) => b matches ObjectPatProp::KeyValue(y) && prop_name_abs(x.key, fs, d, y.key)
            && pat_abs(*x.value, fs, d, *y.value),
        ObjectPatProp::Assign(x) => b matches ObjectPatProp::Assign(y) && x.span == y.span && x.key == y.key
            && opt_expr_abs(x.value, fs, d, y.value),
        ObjectPatProp::Rest(x) => b matches ObjectPatProp::Rest(y) && rest_pat_abs(x, fs, d, y),
    }
}

/// `b` is the optional expression `a` with the parameters of `fs` put in.
pub open spec fn opt_expr_abs(a: Option<Box<Expr>>, fs: Seq<FrameView>, d: Option<ProgramData>, b: Option<Box<Expr>>) -> bool
    decreases a,
{
    match a {
        None => b is None,
        Some(x) => b matches Some(y) && expr_abs(*x, fs, d, *y),
    }
}

/// `b` is the block `a` with the parameters of `fs` put in.
pub open spec fn block_abs(a: BlockStmt, fs: Seq<FrameView>, d: Option<ProgramData>, b: BlockStmt) -> bool
    decreases a,
{
    a.span == b.span && a.stmts@.len() == b.stmts@.len()
        && forall|i: int| 0 <= i < a.stmts@.len() ==> stmt_abs(#[trigger] a.stmts@[i], fs, d, b.stmts@[i])
}

/// `b` is the statement `a` with the parameters of `fs` put in.
pub open spec fn stmt_abs(a: Stmt, fs: Seq<FrameView>, d: Option<ProgramData>, b: Stmt) -> bool
    decreases a,
{
    match a {
        Stmt::Block(x) => b matches Stmt::Block(y) && block_abs(x, fs, d, y),
        Stmt::Empty(_) => b == a,
        Stmt::Expr(x) => b matches Stmt::Expr(y) && x.span == y.span && expr_abs(*x.expr, fs, d, *y.expr),
        Stmt::Return(x) => b matches Stmt::Return(y) && x.span == y.span && opt_expr_abs(x.arg, fs, d, y.arg),
        Stmt::If(x) => b matches Stmt::If(y) && x.span == y.span && expr_abs(*x.test, fs, d, *y.test)
            && stmt_abs(*x.cons, fs, d, *y.cons) && match x.alt {
                None => y.alt is None,
                Some(s) => y.alt matches Some(t) && stmt_abs(*s, fs, d, *t),
            },
        Stmt::Decl(x) => b matches Stmt::Decl(y) && decl_abs(x, fs, d, y),
    }
}

/// `b` is the declaration `a` with the parameters of `fs` put in.
pub open spec fn decl_abs(a: Decl, fs: Seq<FrameView>, d: Option<ProgramData>, b: Decl) -> bool
    decreases a,
{
    match a {
        Decl::Fn(x) => b matches Decl::Fn(y) && x.ident == y.ident && x.declare == y.declare
            && function_abs(x.function, fs, fs, d, y.function),
        Decl::Var(x) => b matches Decl::Var(y) && x.span == y.span && x.kind == y.kind && x.declare == y.declare
            && x.decls@.len() == y.decls@.len()
            && forall|i: int| 0 <= i < x.decls@.len() ==> var_declarator_abs(#[trigger] x.decls@[i], fs, d, y.decls@[i]),
    }
}

/// `b` is the declarator `a` with the parameters of `fs` put in.
pub open spec fn var_declarator_abs(a: VarDeclarator, fs: Seq<FrameView>, d: Option<ProgramData>, b: VarDeclarator) -> bool
    decreases a,
{
    a.span == b.span && a.definite == b.definite && pat_abs(a.name, fs, d, b.name) && opt_expr_abs(a.init, fs, d, b.init)
}

/// The stack that a body is seen with: `fs`, and `fr` on top where there is one.
pub open spec fn body_stack(fs: Seq<FrameView>, fr: Option<Frame>) -> Seq<FrameView> {
    match fr {
        Some(f) => fs.push(f@),
        None => fs,
    }
}

/// Pushes `fr`, if any, on the stack; returns whether it did.
fn push_frame(fs: &mut Vec<Frame>, fr: Option<Frame>) -> (pushed: bool)
    ensures
        pushed == fr is Some,
        stack_view(final(fs)@) == body_stack(stack_view(old(fs)@), fr),
        pushed ==> final(fs)@.len() == old(fs)@.len() + 1 && final(fs)@.drop_last() == old(fs)@,
        !pushed ==> final(fs)@ == old(fs)@,
{
    match fr {
        Some(f) => {
            fs.push(f);
            assert(stack_view(fs@) =~= stack_view(old(fs)@).push(fs@.last()@));
            assert(fs@.drop_last() =~= old(fs)@);
            true
        },
        None => false,
    }
}

/// Pops the frame that [`push_frame`] pushed.
fn pop_frame(fs: &mut Vec<Frame>, pushed: bool)
    requires
        pushed ==> old(fs)@.len() > 0,
    ensures
        pushed ==> final(fs)@ == old(fs)@.drop_last(),
        !pushed ==> final(fs)@ == old(fs)@,
{
    if pushed {
        let _ = fs.pop();
    }
}

/// Whether the literals are the same literal.
fn same_lit_exec(a: &Lit, b: &Lit) -> (r: bool)
    ensures
        r == same_lit(*a, *b),
{
    match a {
        Lit::Str(x) => match b {
            Lit::Str(y) => x.value == y.value,
            _ => false,
        },
        Lit::Bool(x) => match b {
            Lit::Bool(y) => x.value == y.value,
            _ => false,
        },
        Lit::Null(_) => match b {
            Lit::Null(_) => true,
            _ => false,
        },
        Lit::Num(x) => match b {
            Lit::Num(y) => x.value_bits == y.value_bits,
            _ => false,
        },
        Lit::Regex(x) => match b {
            Lit::Regex(y) => x.exp == y.exp && x.flags == y.flags,
            _ => false,
        },
    }
}

/// Whether the expression is `void 0`.
fn is_void_zero_exec(e: &Expr) -> (r: bool)
    ensures
        r == is_void_zero(*e),
{
    match e {
        Expr::Unary(u) => match u.op {
            UnaryOp::Void => match &*u.arg {
                Expr::Lit(Lit::Num(n)) => n.value_bits == 0,
                _ => false,
            },
            _ => false,
        },
        _ => false,
    }
}

/// Whether `e` is the value `v` that a parameter holds.
fn leaf_matches_exec(e: &Expr, v: &Expr) -> (r: bool)
    ensures
        r == leaf_matches(*e, *v),
{
    match v {
        Expr::Ident(x) => match e {
            Expr::Ident(y) => y.sym == x.sym && y.span.ctxt == x.span.ctxt,
            _ => false,
        },
        Expr::Lit(l) => match e {
            Expr::Lit(k) => same_lit_exec(k, l),
            _ => false,
        },
        _ => is_void_zero_exec(v) && is_void_zero_exec(e),
    }
}

/// The last parameter of the frame whose value `e` is.
fn frame_hit_exec(fr: &Frame, e: &Expr) -> (r: Option<Ident>)
    ensures
        r == frame_hit(fr@, *e, fr@.len() as int),
{
    let mut k: usize = fr.len();
    while k > 0
        invariant
            k <= fr@.len(),
            frame_hit(fr@, *e, fr@.len() as int) == frame_hit(fr@, *e, k as int),
        decreases k,
    {
        match &fr[k - 1] {
            Some(p) => {
                if leaf_matches_exec(e, &p.1) {
                    return Some(clone_ident(&p.0));
                }
            },
            None => {},
        }
        k = k - 1;
    }
    None
}

/// What a lookup that found `cur` so far gives, where the frames still to
/// look at give `r`.
pub open spec fn hit_then(cur: Option<Ident>, r: Option<Ident>) -> Option<Ident> {
    match r {
        Some(j) => Some(j),
        None => cur,
    }
}

/// The expression that the frames still to look at see.
pub open spec fn hit_expr(cur: Option<Ident>, e: Expr) -> Expr {
    match cur {
        Some(i) => Expr::Ident(i),
        None => e,
    }
}

/// The parameter that `e` becomes in the stack of frames, if any.
fn stack_hit_exec(fs: &Vec<Frame>, e: &Expr) -> (r: Option<Ident>)
    ensures
        r == stack_hit(stack_view(fs@), *e),
{
    let ghost s = stack_view(fs@);
    let mut k: usize = fs.len();
    let mut cur: Option<Ident> = None;
    assert(s.take(k as int) =~= s);
    while k > 0
        invariant
            k <= fs@.len(),
            s == stack_view(fs@),
            hit_then(cur, stack_hit(s.take(k as int), hit_expr(cur, *e))) == stack_hit(s, *e),
        decreases k,
    {
        let ghost t = s.take(k as int);
        assert(t.drop_last() =~= s.take(k - 1));
        assert(t.last() == fs@[k - 1]@);
        let h = match &cur {
            Some(i) => {
                let x = Expr::Ident(clone_ident(i));
                frame_hit_exec(&fs[k - 1], &x)
            },
            None => frame_hit_exec(&fs[k - 1], e),
        };
        match h {
            Some(i) => {
                cur = Some(i);
            },
            None => {},
        }
        k = k - 1;
    }
    cur
}

/// Nothing but an identifier, a literal or a unary expression is the value of
/// a parameter.
proof fn lemma_no_hit_off_leaves(fs: Seq<FrameView>, e: Expr)
    requires
        !(e is Ident || e is Lit || e is Unary),
    ensures
        stack_hit(fs, e) is None,
    decreases fs.len(),
{
    if fs.len() > 0 {
        lemma_no_frame_hit_off_leaves(fs.last(), e, fs.last().len() as int);
        lemma_no_hit_off_leaves(fs.drop_last(), e);
    }
}

/// [`lemma_no_hit_off_leaves`] for one frame.
proof fn lemma_no_frame_hit_off_leaves(fr: FrameView, e: Expr, k: int)
    requires
        !(e is Ident || e is Lit || e is Unary),
    ensures
        frame_hit(fr, e, k) is None,
    decreases k,
{
    if k > 0 {
        lemma_no_frame_hit_off_leaves(fr, e, k - 1);
    }
}

/// A value that a parameter can be bound to is equal to any expression
/// equivalent to it.
proof fn lemma_simple_equiv_eq(v: Expr, w: Expr)
    requires
        v is Ident || v is Lit || exists|s: crate::ast::Span| v == spec_undefined(s),
        expr_equiv(v, w),
    ensures
        w == v,
{
    if !(v is Ident || v is Lit) {
        let s = choose|s: crate::ast::Span| v == spec_undefined(s);
        assert(v == spec_undefined(s));
        let x = v->Unary_0;
        assert(expr_equiv(*x.arg, *w->Unary_0.arg));
        let y = w->Unary_0;
        assert(*y.arg == *x.arg);
        assert(y == x);
    }
}

impl Optimizer {
    /// The frame of the parameters of an IIFE's callee, bound to its arguments
    /// as [`iife_arg_map`] states; the bindings are collected in an Fx hash map.
    #[verifier::loop_isolation(false)]
    pub fn build_frame(&self, callee: &Expr, args: &Vec<ExprOrSpread>) -> (fr: Frame)
        requires
            *callee is Arrow || *callee is Fn,
        ensures
            fr@ == iife_frame(*callee, args@, self.data),
    {
        let ghost pats = callee_pats(*callee);
        let ghost sargs = args@;
        let ghost data = self.data;
        let ghost m = iife_arg_map(pats, sargs, data);
        let params = match find_params(callee) {
            Some(p) => p,
            None => Vec::new(),
        };
        let mut vars = new_inline_map();
        let mut idx: usize = 0;
        while idx < params.len()
            invariant
                idx <= params@.len(),
                params@.len() == pats.len(),
                forall|j: int| 0 <= j < params@.len() ==> *params@[j] == pats[j],
                forall|id: IdView| #[trigger] inline_map_contents(vars).contains_key(id)
                    == iife_arg_binding(pats, sargs, data, idx as int, id) is Some,
                forall|id: IdView| #[trigger] inline_map_contents(vars).contains_key(id)
                    ==> expr_equiv(iife_arg_binding(pats, sargs, data, idx as int, id)->Some_0,
                    inline_map_contents(vars)[id]),
            decreases params@.len() - idx,
        {
            match params[idx] {
                Pat::Ident(param) => {
                    let id = param.id.to_id();
                    let usage = match &self.data {
                        Some(d) => usage_map_get(&d.vars, &id),
                        None => None,
                    };
                    let usage_ok = match usage {
                        Some(u) => !u.reassigned && u.ref_count == 1,
                        None => true,
                    };
                    if usage_ok {
                        if idx < args.len() {
                            let arg = &args[idx].expr;
                            let simple = match &**arg {
                                Expr::Ident(_) | Expr::Lit(_) => true,
                                _ => false,
                            };
                            if simple && self.can_be_inlined_for_iife(arg) {
                                let v = clone_expr(arg);
                                inline_map_insert(&mut vars, id, Box::new(v));
                            }
                        } else {
                            let v = crate::ast::undefined(param.id.span);
                            proof {
                                lemma_undefined_equiv(param.id.span);
                            }
                            inline_map_insert(&mut vars, id, v);
                        }
                    }
                },
                _ => {},
            }
            assert forall|id: IdView| #[trigger] inline_map_contents(vars).contains_key(id)
                == iife_arg_binding(pats, sargs, data, idx + 1, id) is Some by {}
            assert forall|id: IdView| #[trigger] inline_map_contents(vars).contains_key(id)
                implies expr_equiv(iife_arg_binding(pats, sargs, data, idx + 1, id)->Some_0,
                inline_map_contents(vars)[id]) by {}
            idx = idx + 1;
        }
        let ghost mv = inline_map_contents(vars);
        assert forall|id: IdView| #[trigger] mv.contains_key(id) implies m.contains_key(id) && mv[id] == m[id] by {
            lemma_binding_simple(pats, sargs, data, pats.len() as int, id);
            lemma_simple_equiv_eq(m[id], mv[id]);
        }
        assert forall|id: IdView| #[trigger] m.contains_key(id) implies mv.contains_key(id) by {}
        let ghost want = iife_frame(*callee, sargs, data);
        let mut fr: Frame = Vec::new();
        let mut i: usize = 0;
        while i < params.len()
            invariant
                i <= params@.len(),
                params@.len() == pats.len(),
                forall|j: int| 0 <= j < params@.len() ==> *params@[j] == pats[j],
                want == frame_of(pats, m),
                forall|id: IdView| #[trigger] mv.contains_key(id) ==> m.contains_key(id) && mv[id] == m[id],
                forall|id: IdView| #[trigger] m.contains_key(id) ==> mv.contains_key(id),
                mv == inline_map_contents(vars),
                fr@.len() == i,
                forall|j: int| 0 <= j < i ==> #[trigger] fr@[j] == want[j],
            decreases params@.len() - i,
        {
            let entry = match params[i] {
                Pat::Ident(b) => {
                    let id = b.id.to_id();
                    match inline_map_get(&vars, &id) {
                        Some(v) => {
                            let c = clone_expr(v);
                            proof {
                                lemma_binding_simple(pats, sargs, data, pats.len() as int, b.id.spec_id());
                                lemma_simple_equiv_eq(m[b.id.spec_id()], c);
                            }
                            Some((clone_ident(&b.id), c))
                        },
                        None => None,
                    }
                },
                _ => None,
            };
            fr.push(entry);
            i = i + 1;
        }
        assert(fr@ =~= want);
        fr
    }
}

/// Whether the call is an IIFE whose parameters are put in its body.
fn is_nested_iife(x: &CallExpr) -> (r: bool)
    ensures
        r == nested_iife(*x),
{
    let mut i: usize = 0;
    while i < x.args.len()
        invariant
            i <= x.args@.len(),
            forall|j: int| 0 <= j < i ==> (#[trigger] x.args@[j]).spread is None,
        decreases x.args@.len() - i,
    {
        if x.args[i].spread.is_some() {
            assert(x.args@[i as int].spread is Some);
            return false;
        }
        i = i + 1;
    }
    match &x.callee {
        ExprOrSuper::Super(_) => false,
        ExprOrSuper::Expr(c) => match &**c {
            Expr::Arrow(_) => true,
            Expr::Fn(f) => f.function.body.is_some(),
            _ => false,
        },
    }
}

/// Puts, in an expression, the parameters of `fs` in place of their values,
/// and those of each nested IIFE in its own body.
#[verifier::loop_isolation(false)]
pub fn abs_in_expr(e: &mut Expr, fs: &mut Vec<Frame>, o: &Optimizer)
    ensures
        final(fs)@ == old(fs)@,
        expr_abs(*old(e), stack_view(old(fs)@), o.data, *final(e)),
    decreases *old(e),
{
    let ghost sv = stack_view(fs@);
    let leaf = match &*e {
        Expr::Ident(_) | Expr::Lit(_) | Expr::Unary(_) => true,
        _ => false,
    };
    if leaf {
        match stack_hit_exec(fs, e) {
            Some(i) => {
                *e = Expr::Ident(i);
                return;
            },
            None => {},
        }
    } else {
        proof {
            lemma_no_hit_off_leaves(sv, *e);
        }
    }
    match e {
        Expr::This(_) | Expr::Invalid(_) | Expr::Lit(_) | Expr::Ident(_) => {},
        Expr::Object(x) => {
            let ghost x0 = *x;
            let mut i: usize = 0;
            while i < x.props.len()
                invariant
                    fs@ == old(fs)@,
                    *old(e) == Expr::Object(x0),
                    x.span == x0.span,
                    i <= x.props@.len(),
                    x.props@.len() == x0.props@.len(),
                    forall|j: int| 0 <= j < i ==> prop_or_spread_abs(#[trigger] x0.props@[j], sv, o.data, x.props@[j]),
                    forall|j: int| i <= j < x0.props@.len() ==> x.props@[j] == x0.props@[j],
                decreases x0.props@.len() - i,
            {
                assert(decreases_to!(*old(e) => x0.props@[i as int]));
                abs_in_prop_or_spread(&mut x.props[i], fs, o);
                i = i + 1;
            }
        },
        Expr::Fn(x) => abs_in_function(&mut x.function, fs, o, None),
        Expr::Unary(x) => abs_in_expr(&mut x.arg, fs, o),
        Expr::Bin(x) => {
            abs_in_expr(&mut x.left, fs, o);
            abs_in_expr(&mut x.right, fs, o);
        },
        Expr::Assign(x) => {
            abs_in_target(&mut x.left, fs, o);
            abs_in_expr(&mut x.right, fs, o);
        },
        Expr::Member(x) => {
            abs_in_callee(&mut x.obj, fs, o);
            if x.computed {
                abs_in_expr(&mut x.prop, fs, o);
            }
        },
        Expr::Cond(x) => {
            abs_in_expr(&mut x.test, fs, o);
            abs_in_expr(&mut x.cons, fs, o);
            abs_in_expr(&mut x.alt, fs, o);
        },
        Expr::Call(x) => {
            let ghost x0 = *x;
            let nested = is_nested_iife(x);
            if nested {
                let fr = match &x.callee {
                    ExprOrSuper::Expr(c) => o.build_frame(c, &x.args),
                    ExprOrSuper::Super(_) => Vec::new(),
                };
                match &mut x.callee {
                    ExprOrSuper::Expr(c) => match &mut **c {
                        Expr::Arrow(a) => abs_in_arrow(a, fs, o, Some(fr)),
                        Expr::Fn(f) => abs_in_function(&mut f.function, fs, o, Some(fr)),
                        _ => {},
                    },
                    ExprOrSuper::Super(_) => {},
                }
            } else {
                abs_in_callee(&mut x.callee, fs, o);
            }
            let mut i: usize = 0;
            while i < x.args.len()
                invariant
                    fs@ == old(fs)@,
                    *old(e) == Expr::Call(x0),
                    x.span == x0.span,
                    nested == nested_iife(x0),
                    nested ==> (x.callee matches ExprOrSuper::Expr(z) && iife_callee_abs(*x0.callee->Expr_0, sv,
                        sv.push(iife_frame(*x0.callee->Expr_0, x0.args@, o.data)), o.data, *z)),
                    !nested ==> callee_abs(x0.callee, sv, o.data, x.callee),
                    i <= x.args@.len(),
                    x.args@.len() == x0.args@.len(),
                    forall|j: int| 0 <= j < i ==> arg_abs(#[trigger] x0.args@[j], sv, o.data, x.args@[j]),
                    forall|j: int| i <= j < x0.args@.len() ==> x.args@[j] == x0.args@[j],
                decreases x0.args@.len() - i,
            {
                assert(decreases_to!(*old(e) => x0.args@[i as int]));
                abs_in_expr(&mut x.args[i].expr, fs, o);
                i = i + 1;
            }
        },
        Expr::Sequence(x) => {
            let ghost x0 = *x;
            let mut i: usize = 0;
            while i < x.exprs.len()
                invariant
                    fs@ == old(fs)@,
                    *old(e) == Expr::Sequence(x0),
                    x.span == x0.span,
                    i <= x.exprs@.len(),
                    x.exprs@.len() == x0.exprs@.len(),
                    forall|j: int| 0 <= j < i ==> expr_abs(*#[trigger] x0.exprs@[j], sv, o.data, *x.exprs@[j]),
                    forall|j: int| i <= j < x0.exprs@.len() ==> x.exprs@[j] == x0.exprs@[j],
                decreases x0.exprs@.len() - i,
            {
                assert(decreases_to!(*old(e) => x0.exprs@[i as int]));
                abs_in_expr(&mut x.exprs[i], fs, o);
                i = i + 1;
            }
        },
        Expr::Arrow(x) => abs_in_arrow(x, fs, o, None),
        Expr::Await(x) => abs_in_expr(&mut x.arg, fs, o),
    }
}

/// Puts the parameters of `fs` in place of their values in a callee.
pub fn abs_in_callee(c: &mut ExprOrSuper, fs: &mut Vec<Frame>, o: &Optimizer)
    ensures
        final(fs)@ == old(fs)@,
        callee_abs(*old(c), stack_view(old(fs)@), o.data, *final(c)),
    decreases *old(c),
{
    match c {
        ExprOrSuper::Super(_) => {},
        ExprOrSuper::Expr(x) => abs_in_expr(x, fs, o),
    }
}

/// Puts the parameters of `fs` in place of their values in an assignment target; an
/// identifier as target is left alone.
pub fn abs_in_target(t: &mut PatOrExpr, fs: &mut Vec<Frame>, o: &Optimizer)
    ensures
        final(fs)@ == old(fs)@,
        target_abs(*old(t), stack_view(old(fs)@), o.data, *final(t)),
    decreases *old(t),
{
    match t {
        PatOrExpr::Expr(x) => {
            let is_ident = match &**x {
                Expr::Ident(_) => true,
                _ => false,
            };
            if !is_ident {
                abs_in_expr(x, fs, o);
            }
        },
        PatOrExpr::Pat(x) => abs_in_pat(x, fs, o),
    }
}

/// Puts the parameters of `fs` in place of their values in an arrow body.
pub fn abs_in_block_or_expr(b: &mut BlockStmtOrExpr, fs: &mut Vec<Frame>, o: &Optimizer)
    ensures
        final(fs)@ == old(fs)@,
        block_or_expr_abs(*old(b), stack_view(old(fs)@), o.data, *final(b)),
    decreases *old(b),
{
    match b {
        BlockStmtOrExpr::BlockStmt(x) => abs_in_block(x, fs, o),
        BlockStmtOrExpr::Expr(x) => abs_in_expr(x, fs, o),
    }
}

/// Puts the parameters of `fs` in place of their values in a property.
pub fn abs_in_prop_or_spread(p: &mut PropOrSpread, fs: &mut Vec<Frame>, o: &Optimizer)
    ensures
        final(fs)@ == old(fs)@,
        prop_or_spread_abs(*old(p), stack_view(old(fs)@), o.data, *final(p)),
    decreases *old(p),
{
    match p {
        PropOrSpread::Spread(x) => abs_in_expr(&mut x.expr, fs, o),
        PropOrSpread::Prop(x) => abs_in_prop(x, fs, o),
    }
}

/// Puts the parameters of `fs` in place of their values in a property.
pub fn abs_in_prop(p: &mut Prop, fs: &mut Vec<Frame>, o: &Optimizer)
    ensures
        final(fs)@ == old(fs)@,
        prop_abs(*old(p), stack_view(old(fs)@), o.data, *final(p)),
    decreases *old(p),
{
    match p {
        Prop::Shorthand(_) => {},
        Prop::KeyValue(x) => {
            abs_in_prop_name(&mut x.key, fs, o);
            abs_in_expr(&mut x.value, fs, o);
        },
        Prop::Assign(x) => abs_in_expr(&mut x.value, fs, o),
        Prop::Method(x) => {
            abs_in_prop_name(&mut x.key, fs, o);
            abs_in_function(&mut x.function, fs, o, None);
        },
    }
}

/// Puts the parameters of `fs` in place of their values in a computed property key.
pub fn abs_in_prop_name(p: &mut PropName, fs: &mut Vec<Frame>, o: &Optimizer)
    ensures
        final(fs)@ == old(fs)@,
        prop_name_abs(*old(p), stack_view(old(fs)@), o.data, *final(p)),
    decreases *old(p),
{
    match p {
        PropName::Computed(x) => abs_in_expr(&mut x.expr, fs, o),
        _ => {},
    }
}

/// Puts the parameters of `fs` in place of their values in the default values
/// of a function's parameters, and those of `fs` and then `fr` in its body.
#[verifier::loop_isolation(false)]
pub fn abs_in_function(f: &mut Function, fs: &mut Vec<Frame>, o: &Optimizer, fr: Option<Frame>)
    ensures
        final(fs)@ == old(fs)@,
        function_abs(*old(f), stack_view(old(fs)@), body_stack(stack_view(old(fs)@), fr), o.data, *final(f)),
    decreases *old(f),
{
    let ghost sv = stack_view(fs@);
    let ghost f0 = *f;
    let mut i: usize = 0;
    while i < f.params.len()
        invariant
            fs@ == old(fs)@,
            *old(f) == f0,
            f.span == f0.span,
            f.body == f0.body,
            f.is_async == f0.is_async,
            f.is_generator == f0.is_generator,
            i <= f.params@.len(),
            f.params@.len() == f0.params@.len(),
            forall|j: int| 0 <= j < i ==> param_abs(#[trigger] f0.params@[j], sv, o.data, f.params@[j]),
            forall|j: int| i <= j < f0.params@.len() ==> f.params@[j] == f0.params@[j],
        decreases f0.params@.len() - i,
    {
        assert(decreases_to!(*old(f) => f0.params@[i as int]));
        abs_in_pat(&mut f.params[i].pat, fs, o);
        i = i + 1;
    }
    match &mut f.body {
        Some(b) => {
            let pushed = push_frame(fs, fr);
            abs_in_block(b, fs, o);
            pop_frame(fs, pushed);
        },
        None => {},
    }
}

/// Puts the parameters of `fs` in place of their values in the default values
/// of an arrow function's parameters, and those of `fs` and then `fr` in its
/// body.
#[verifier::loop_isolation(false)]
pub fn abs_in_arrow(x: &mut ArrowExpr, fs: &mut Vec<Frame>, o: &Optimizer, fr: Option<Frame>)
    ensures
        final(fs)@ == old(fs)@,
        arrow_abs(*old(x), stack_view(old(fs)@), body_stack(stack_view(old(fs)@), fr), o.data, *final(x)),
    decreases *old(x),
{
    let ghost sv = stack_view(fs@);
    let ghost x0 = *x;
    let mut i: usize = 0;
    while i < x.params.len()
        invariant
            fs@ == old(fs)@,
            *old(x) == x0,
            x.span == x0.span,
            x.body == x0.body,
            x.is_async == x0.is_async,
            x.is_generator == x0.is_generator,
            i <= x.params@.len(),
            x.params@.len() == x0.params@.len(),
            forall|j: int| 0 <= j < i ==> pat_abs(#[trigger] x0.params@[j], sv, o.data, x.params@[j]),
            forall|j: int| i <= j < x0.params@.len() ==> x.params@[j] == x0.params@[j],
        decreases x0.params@.len() - i,
    {
        assert(decreases_to!(*old(x) => x0.params@[i as int]));
        abs_in_pat(&mut x.params[i], fs, o);
        i = i + 1;
    }
    let pushed = push_frame(fs, fr);
    abs_in_block_or_expr(&mut x.body, fs, o);
    pop_frame(fs, pushed);
}

/// Puts the parameters of `fs` in place of their values in a pattern.
#[verifier::loop_isolation(false)]
pub fn abs_in_pat(p: &mut Pat, fs: &mut Vec<Frame>, o: &Optimizer)
    ensures
        final(fs)@ == old(fs)@,
        pat_abs(*old(p), stack_view(old(fs)@), o.data, *final(p)),
    decreases *old(p),
{
    let ghost sv = stack_view(fs@);
    match p {
        Pat::Ident(_) => {},
        Pat::Array(x) => {
            let ghost x0 = *x;
            let mut i: usize = 0;
            while i < x.elems.len()
                invariant
                    fs@ == old(fs)@,
                    *old(p) == Pat::Array(x0),
                    x.span == x0.span,
                    i <= x.elems@.len(),
                    x.elems@.len() == x0.elems@.len(),
                    forall|j: int| 0 <= j < i ==> opt_pat_abs(#[trigger] x0.elems@[j], sv, o.data, x.elems@[j]),
                    forall|j: int| i <= j < x0.elems@.len() ==> x.elems@[j] == x0.elems@[j],
                decreases x0.elems@.len() - i,
            {
                assert(decreases_to!(*old(p) => x0.elems@[i as int]));
                match &mut x.elems[i] {
                    Some(q) => abs_in_pat(q, fs, o),
                    None => {},
                }
                i = i + 1;
            }
        },
        Pat::Rest(x) => abs_in_rest_pat(x, fs, o),
        Pat::Object(x) => {
            let ghost x0 = *x;
            let mut i: usize = 0;
            while i < x.props.len()
                invariant
                    fs@ == old(fs)@,
                    *old(p) == Pat::Object(x0),
                    x.span == x0.span,
                    i <= x.props@.len(),
                    x.props@.len() == x0.props@.len(),
                    forall|j: int| 0 <= j < i ==> object_pat_prop_abs(#[trigger] x0.props@[j], sv, o.data, x.props@[j]),
                    forall|j: int| i <= j < x0.props@.len() ==> x.props@[j] == x0.props@[j],
                decreases x0.props@.len() - i,
            {
                assert(decreases_to!(*old(p) => x0.props@[i as int]));
                abs_in_object_pat_prop(&mut x.props[i], fs, o);
                i = i + 1;
            }
        },
        Pat::Assign(x) => {
            abs_in_pat(&mut x.left, fs, o);
            abs_in_expr(&mut x.right, fs, o);
        },
    }
}

/// Puts the parameters of `fs` in place of their values in a rest pattern.
pub fn abs_in_rest_pat(p: &mut RestPat, fs: &mut Vec<Frame>, o: &Optimizer)
    ensures
        final(fs)@ == old(fs)@,
        rest_pat_abs(*old(p), stack_view(old(fs)@), o.data, *final(p)),
    decreases *old(p),
{
    abs_in_pat(&mut p.arg, fs, o);
}

/// Puts the parameters of `fs` in place of their values in an object pattern property.
pub fn abs_in_object_pat_prop(p: &mut ObjectPatProp, fs: &mut Vec<Frame>, o: &Optimizer)
    ensures
        final(fs)@ == old(fs)@,
        object_pat_prop_abs(*old(p), stack_view(old(fs)@), o.data, *final(p)),
    decreases *old(p),
{
    match p {
        ObjectPatProp::KeyValue(x) => {
            abs_in_prop_name(&mut x.key, fs, o);
            abs_in_pat(&mut x.value, fs, o);
        },
        ObjectPatProp::Assign(x) => abs_in_opt_expr(&mut x.value, fs, o),
        ObjectPatProp::Rest(x) => abs_in_rest_pat(x, fs, o),
    }
}

/// Puts the parameters of `fs` in place of their values in an optional expression.
pub fn abs_in_opt_expr(e: &mut Option<Box<Expr>>, fs: &mut Vec<Frame>, o: &Optimizer)
    ensures
        final(fs)@ == old(fs)@,
        opt_expr_abs(*old(e), stack_view(old(fs)@), o.data, *final(e)),
    decreases *old(e),
{
    match e {
        Some(x) => abs_in_expr(x, fs, o),
        None => {},
    }
}

/// Puts the parameters of `fs` in place of their values in a block.
#[verifier::loop_isolation(false)]
pub fn abs_in_block(b: &mut BlockStmt, fs: &mut Vec<Frame>, o: &Optimizer)
    ensures
        final(fs)@ == old(fs)@,
        block_abs(*old(b), stack_view(old(fs)@), o.data, *final(b)),
    decreases *old(b),
{
    let ghost sv = stack_view(fs@);
    let ghost b0 = *b;
    let mut i: usize = 0;
    while i < b.stmts.len()
        invariant
            fs@ == old(fs)@,
            *old(b) == b0,
            b.span == b0.span,
            i <= b.stmts@.len(),
            b.stmts@.len() == b0.stmts@.len(),
            forall|j: int| 0 <= j < i ==> stmt_abs(#[trigger] b0.stmts@[j], sv, o.data, b.stmts@[j]),
            forall|j: int| i <= j < b0.stmts@.len() ==> b.stmts@[j] == b0.stmts@[j],
        decreases b0.stmts@.len() - i,
    {
        assert(decreases_to!(*old(b) => b0.stmts@[i as int]));
        abs_in_stmt(&mut b.stmts[i], fs, o);
        i = i + 1;
    }
}

/// Puts the parameters of `fs` in place of their values in a statement.
pub fn abs_in_stmt(s: &mut Stmt, fs: &mut Vec<Frame>, o: &Optimizer)
    ensures
        final(fs)@ == old(fs)@,
        stmt_abs(*old(s), stack_view(old(fs)@), o.data, *final(s)),
    decreases *old(s),
{
    match s {
        Stmt::Block(x) => abs_in_block(x, fs, o),
        Stmt::Empty(_) => {},
        Stmt::Expr(x) => abs_in_expr(&mut x.expr, fs, o),
        Stmt::Return(x) => abs_in_opt_expr(&mut x.arg, fs, o),
        Stmt::If(x) => {
            abs_in_expr(&mut x.test, fs, o);
            abs_in_stmt(&mut x.cons, fs, o);
            match &mut x.alt {
                Some(a) => abs_in_stmt(a, fs, o),
                None => {},
            }
        },
        Stmt::Decl(x) => abs_in_decl(x, fs, o),
    }
}

/// Puts the parameters of `fs` in place of their values in a declaration.
#[verifier::loop_isolation(false)]
pub fn abs_in_decl(d: &mut Decl, fs: &mut Vec<Frame>, o: &Optimizer)
    ensures
        final(fs)@ == old(fs)@,
        decl_abs(*old(d), stack_view(old(fs)@), o.data, *final(d)),
    decreases *old(d),
{
    let ghost sv = stack_view(fs@);
    match d {
        Decl::Fn(x) => abs_in_function(&mut x.function, fs, o, None),
        Decl::Var(x) => {
            let ghost x0 = *x;
            let mut i: usize = 0;
            while i < x.decls.len()
                invariant
                    fs@ == old(fs)@,
                    *old(d) == Decl::Var(x0),
                    x.span == x0.span,
                    x.kind == x0.kind,
                    x.declare == x0.declare,
                    i <= x.decls@.len(),
                    x.decls@.len() == x0.decls@.len(),
                    forall|j: int| 0 <= j < i ==> var_declarator_abs(#[trigger] x0.decls@[j], sv, o.data, x.decls@[j]),
                    forall|j: int| i <= j < x0.decls@.len() ==> x.decls@[j] == x0.decls@[j],
                decreases x0.decls@.len() - i,
            {
                assert(decreases_to!(*old(d) => x0.decls@[i as int]));
                abs_in_pat(&mut x.decls[i].name, fs, o);
                abs_in_opt_expr(&mut x.decls[i].init, fs, o);
                i = i + 1;
            }
        },
    }
}

} // verus!
