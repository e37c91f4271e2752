//! Inlining the body of a called function as a comma expression.

use vstd::prelude::*;

use crate::ast::{
    AssignExpr, AssignOp, BindingIdent, BlockStmt, Decl, Expr, ExprOrSpread, Ident, Pat, PatOrExpr, SeqExpr,
    Span, Stmt, UnaryExpr, UnaryOp, VarDecl, VarDeclKind, VarDeclarator, dummy_sp, spec_dummy_sp,
    spec_undefined, undefined,
};
use crate::equiv::{clone_ident, clone_pat};
use crate::idents::{IdentQuery, block_mentions, block_uses, expr_mentions, expr_uses, ident_is, ident_named};
use crate::lit::Lit;
use crate::optimizer::{Ctx, Optimizer};
use crate::negate::{spec_invalid, take_expr};

verus! {

/// A statement of a function body that can stand in a comma expression:
/// a `var` or `let` declaration of plain identifiers (where code runs once),
/// an expression other than `await` (a call must not mention a parameter),
/// or a `return` of anything but `await` (nor of a number where the call is
/// the object of a member access).
pub open spec fn stmt_inlinable(ctx: Ctx, params: Seq<Ident>, s: Stmt) -> bool {
    match s {
        Stmt::Decl(Decl::Var(v)) => (v.kind == VarDeclKind::Var || v.kind == VarDeclKind::Let)
            && (forall|i: int| 0 <= i < v.decls@.len() ==> (#[trigger] v.decls@[i]).name is Ident)
            && !ctx.executed_multiple_time,
        Stmt::Expr(x) => match *x.expr {
            Expr::Await(_) => false,
            Expr::Call(_) => forall|i: int| 0 <= i < params.len() ==> !expr_uses(*x.expr, ident_is(#[trigger] params[i].spec_id())),
            _ => true,
        },
        Stmt::Return(r) => match r.arg {
            Some(a) => match *a {
                Expr::Await(_) => false,
                Expr::Lit(Lit::Num(_)) => !ctx.in_obj_of_non_computed_member,
                _ => true,
            },
            None => true,
        },
        _ => false,
    }
}

/// A function body with these parameters can be inlined as a comma
/// expression: every statement can, and the body does not mention
/// `arguments`.
pub open spec fn spec_can_inline_fn_like(ctx: Ctx, params: Seq<Ident>, body: BlockStmt) -> bool {
    &&& forall|i: int| 0 <= i < body.stmts@.len() ==> stmt_inlinable(ctx, params, #[trigger] body.stmts@[i])
    &&& !block_uses(body, ident_named("arguments"@))
}

impl Optimizer {
    /// Whether a function body with these parameters can be inlined.
    pub fn can_inline_fn_like(&self, param_ids: &[Ident], body: &BlockStmt) -> (r: bool)
        ensures
            r == spec_can_inline_fn_like(self.ctx, param_ids@, *body),
    {
        let mut i: usize = 0;
        while i < body.stmts.len()
            invariant
                i <= body.stmts@.len(),
                forall|j: int| 0 <= j < i ==> stmt_inlinable(self.ctx, param_ids@, #[trigger] body.stmts@[j]),
            decreases body.stmts@.len() - i,
        {
            let ok = match &body.stmts[i] {
                Stmt::Decl(Decl::Var(v)) => match v.kind {
                    VarDeclKind::Var | VarDeclKind::Let => {
                        let mut all_idents = true;
                        let mut j: usize = 0;
                        while j < v.decls.len()
                            invariant
                                j <= v.decls@.len(),
                                all_idents == forall|k: int| 0 <= k < j ==> (#[trigger] v.decls@[k]).name is Ident,
                            decreases v.decls@.len() - j,
                        {
                            let is_ident = match &v.decls[j].name {
                                Pat::Ident(_) => true,
                                _ => false,
                            };
                            if !is_ident {
                                all_idents = false;
                            }
                            j = j + 1;
                        }
                        all_idents && !self.ctx.executed_multiple_time
                    },
                    VarDeclKind::Const => false,
                },
                Stmt::Expr(x) => match &*x.expr {
                    Expr::Await(_) => false,
                    Expr::Call(_) => {
                        let mut unused = true;
                        let mut j: usize = 0;
                        while j < param_ids.len()
                            invariant
                                j <= param_ids@.len(),
                                unused == forall|k: int| 0 <= k < j ==> !expr_uses(*x.expr, ident_is(#[trigger] param_ids@[k].spec_id())),
                            decreases param_ids@.len() - j,
                        {
                            let q = IdentQuery::Id(param_ids[j].to_id());
                            if expr_mentions(&x.expr, &q) {
                                unused = false;
                            }
                            j = j + 1;
                        }
                        unused
                    },
                    _ => true,
                },
                Stmt::Return(r) => match &r.arg {
                    Some(a) => match &**a {
                        Expr::Await(_) => false,
                        Expr::Lit(Lit::Num(_)) => !self.ctx.in_obj_of_non_computed_member,
                        _ => true,
                    },
                    None => true,
                },
                _ => false,
            };
            if !ok {
                return false;
            }
            i = i + 1;
        }
        let q = IdentQuery::Sym("arguments".to_owned());
        if block_mentions(body, &q) {
            return false;
        }
        true
    }
}

/// The span of the nodes that inlining makes: an empty span with the
/// non-top-level mark applied.
pub open spec fn marked_span(o: Optimizer) -> Span {
    Span { lo: 0, hi: 0, ctxt: o.marks.non_top_level }
}

/// `left = right`, made by inlining.
pub open spec fn assign_to(sp: Span, left: Pat, right: Box<Expr>) -> Box<Expr> {
    Box::new(Expr::Assign(AssignExpr { span: sp, op: AssignOp::Assign, left: PatOrExpr::Pat(Box::new(left)), right }))
}

/// A parameter as a pattern.
pub open spec fn ident_pat(i: Ident) -> Pat {
    Pat::Ident(BindingIdent { id: i })
}

/// The smaller of two lengths.
pub open spec fn min_len(a: nat, b: nat) -> nat {
    if a < b { a } else { b }
}

/// What the arguments of an inlined call become: each argument that has a
/// parameter is assigned to it; the arguments beyond the parameters stay, in
/// order, for what they do.
pub open spec fn arg_exprs(sp: Span, pats: Seq<Pat>, args: Seq<ExprOrSpread>) -> Seq<Box<Expr>> {
    Seq::new(min_len(pats.len(), args.len()), |i: int| assign_to(sp, pats[i], args[i].expr)) + if args.len() > pats.len() {
        args.subrange(pats.len() as int, args.len() as int).map_values(|a: ExprOrSpread| a.expr)
    } else {
        Seq::empty()
    }
}

/// The assignments that the declarators with an initializer become.
pub open spec fn decl_init_exprs(sp: Span, decls: Seq<VarDeclarator>) -> Seq<Box<Expr>>
    decreases decls.len(),
{
    if decls.len() == 0 {
        Seq::empty()
    } else {
        decl_init_exprs(sp, decls.drop_last()) + match decls.last().init {
            Some(i) => seq![assign_to(sp, decls.last().name, i)],
            None => Seq::empty(),
        }
    }
}

/// What a statement of an inlined body becomes: a declaration its
/// initializations, an expression itself, a `return` its value (`void 0`
/// where it has none).
pub open spec fn stmt_exprs(sp: Span, s: Stmt) -> Seq<Box<Expr>> {
    match s {
        Stmt::Decl(Decl::Var(v)) => decl_init_exprs(sp, v.decls@),
        Stmt::Expr(x) => seq![x.expr],
        Stmt::Return(r) => seq![
            match r.arg {
                Some(a) => a,
                None => Box::new(spec_undefined(r.span)),
            },
        ],
        _ => Seq::empty(),
    }
}

/// What the statements of an inlined body become, in order.
pub open spec fn stmts_exprs(sp: Span, stmts: Seq<Stmt>) -> Seq<Box<Expr>>
    decreases stmts.len(),
{
    if stmts.len() == 0 {
        Seq::empty()
    } else {
        stmts_exprs(sp, stmts.drop_last()) + stmt_exprs(sp, stmts.last())
    }
}

/// The variable declarations among the statements, in order.
pub open spec fn var_decls_in(stmts: Seq<Stmt>) -> Seq<VarDecl>
    decreases stmts.len(),
{
    if stmts.len() == 0 {
        Seq::empty()
    } else {
        var_decls_in(stmts.drop_last()) + match stmts.last() {
            Stmt::Decl(Decl::Var(v)) => seq![v],
            _ => Seq::empty(),
        }
    }
}

/// The index of the first `return` at or after `k`, or the length where there
/// is none.
pub open spec fn first_return_from(stmts: Seq<Stmt>, k: int) -> int
    decreases stmts.len() - k,
{
    if k < 0 || k >= stmts.len() {
        stmts.len() as int
    } else if stmts[k] is Return {
        k
    } else {
        first_return_from(stmts, k + 1)
    }
}

/// The statements of a body up to its first `return`, that one included.
pub open spec fn stmts_until_return(stmts: Seq<Stmt>) -> Seq<Stmt> {
    let f = first_return_from(stmts, 0);
    if f < stmts.len() {
        stmts.take(f + 1)
    } else {
        stmts
    }
}

/// A declarator without its initializer.
pub open spec fn strip_init(d: VarDeclarator) -> VarDeclarator {
    VarDeclarator { span: d.span, name: d.name, init: None, definite: d.definite }
}

/// `s` is the declaration `v` with the initializers removed.
pub open spec fn is_stripped_decl(v: VarDecl, s: Stmt) -> bool {
    s matches Stmt::Decl(Decl::Var(w)) && w.span == v.span && w.kind == v.kind && w.declare == v.declare
        && w.decls@ == v.decls@.map_values(|d: VarDeclarator| strip_init(d))
}

/// `s` is `var` of the given names, without initializers.
pub open spec fn is_decl_of(names: Seq<Pat>, sp: Span, s: Stmt) -> bool {
    s matches Stmt::Decl(Decl::Var(w)) && w.span == spec_dummy_sp() && w.kind == VarDeclKind::Var && !w.declare
        && w.decls@ == names.map_values(|n: Pat| VarDeclarator { span: sp, name: n, init: None, definite: false })
}

/// `new_p` is `old_p` followed by the declaration of `names` (when there are
/// any) and by the declarations `decls` without their initializers.
pub open spec fn prepends_ok(old_p: Seq<Stmt>, new_p: Seq<Stmt>, names: Seq<Pat>, sp: Span, decls: Seq<VarDecl>) -> bool {
    let base = old_p.len() + if names.len() > 0 { 1int } else { 0int };
    &&& new_p.len() == base + decls.len()
    &&& new_p.subrange(0, old_p.len() as int) == old_p
    &&& names.len() > 0 ==> is_decl_of(names, sp, new_p[old_p.len() as int])
    &&& forall|k: int| base <= k < new_p.len() ==> is_stripped_decl(decls[k - base], #[trigger] new_p[k])
}

/// The optimizer is as before but for `changed` and the statements to prepend.
pub open spec fn same_settings(a: Optimizer, b: Optimizer) -> bool {
    &&& b.options == a.options
    &&& b.ctx == a.ctx
    &&& b.state == a.state
    &&& b.data == a.data
    &&& b.marks == a.marks
    &&& b.noinline_positions == a.noinline_positions
}

/// The expressions of an inlined call, in order: the arguments, then the
/// statements of the body up to its first `return`.
pub open spec fn inlined_exprs(sp: Span, params: Seq<Ident>, args: Seq<ExprOrSpread>, stmts: Seq<Stmt>) -> Seq<Box<Expr>> {
    arg_exprs(sp, params.map_values(|p: Ident| ident_pat(p)), args) + stmts_exprs(sp, stmts_until_return(stmts))
}

/// `x` is what an inlined call becomes: the comma expression of
/// [`inlined_exprs`]; when the body has no `return`, its last expression is
/// wrapped in `void`, and a call that leaves no expression is `void 0`.
pub open spec fn is_inlined_call(x: Expr, sp: Span, params: Seq<Ident>, args: Seq<ExprOrSpread>, body: BlockStmt) -> bool {
    let all = inlined_exprs(sp, params, args, body.stmts@);
    if first_return_from(body.stmts@, 0) < body.stmts@.len() {
        x matches Expr::Sequence(q) && q.span == spec_dummy_sp() && q.exprs@ == all
    } else if all.len() == 0 {
        x == spec_undefined(body.span)
    } else {
        x matches Expr::Sequence(q) && q.span == spec_dummy_sp() && q.exprs@ == all.drop_last().push(
            Box::new(Expr::Unary(UnaryExpr { span: spec_dummy_sp(), op: UnaryOp::Void, arg: all.last() })),
        )
    }
}

/// An argument whose expression was taken out.
pub open spec fn taken_arg(a: ExprOrSpread) -> ExprOrSpread {
    ExprOrSpread { spread: a.spread, expr: Box::new(spec_invalid()) }
}

/// Takes the statements out of a block.
fn take_stmts(v: &mut Vec<Stmt>) -> (r: Vec<Stmt>)
    ensures
        r@ == old(v)@,
        final(v)@.len() == 0,
{
    let mut t: Vec<Stmt> = Vec::new();
    std::mem::swap(v, &mut t);
    t
}

/// Takes a statement out of its place, leaving an empty statement there.
fn take_stmt(s: &mut Stmt) -> (r: Stmt)
    ensures
        r == *old(s),
{
    let mut t = Stmt::Empty(crate::ast::EmptyStmt { span: dummy_sp() });
    std::mem::swap(s, &mut t);
    t
}

/// `new_p` is `old_p` followed by the declarations `decls` without their
/// initializers.
pub open spec fn appended_stripped(old_p: Seq<Stmt>, new_p: Seq<Stmt>, decls: Seq<VarDecl>) -> bool {
    &&& new_p.len() == old_p.len() + decls.len()
    &&& new_p.subrange(0, old_p.len() as int) == old_p
    &&& forall|k: int| old_p.len() <= k < new_p.len() ==> is_stripped_decl(decls[k - old_p.len()], #[trigger] new_p[k])
}

/// The declarators of a variable declaration bind plain identifiers.
pub open spec fn decl_names_ident(s: Stmt) -> bool {
    s matches Stmt::Decl(Decl::Var(v)) ==> forall|k: int| 0 <= k < v.decls@.len() ==> (#[trigger] v.decls@[k]).name is Ident
}

/// Moves the initializers of a declaration, as assignments, to `exprs`.
#[verifier::loop_isolation(false)]
fn inline_var_decl(var: &mut VarDecl, exprs: &mut Vec<Box<Expr>>, sp: Span)
    requires
        forall|k: int| 0 <= k < old(var).decls@.len() ==> (#[trigger] old(var).decls@[k]).name is Ident,
    ensures
        final(exprs)@ == old(exprs)@ + decl_init_exprs(sp, old(var).decls@),
        is_stripped_decl(*old(var), Stmt::Decl(Decl::Var(*final(var)))),
{
    let ghost v0 = *var;
    let ghost before = exprs@;
    let mut j: usize = 0;
    while j < var.decls.len()
        invariant
            j <= v0.decls@.len(),
            var.span == v0.span,
            var.kind == v0.kind,
            var.declare == v0.declare,
            var.decls@.len() == v0.decls@.len(),
            forall|k: int| 0 <= k < v0.decls@.len() ==> #[trigger] var.decls@[k] == if k < j {
                strip_init(v0.decls@[k])
            } else {
                v0.decls@[k]
            },
            exprs@ == before + decl_init_exprs(sp, v0.decls@.take(j as int)),
        decreases v0.decls@.len() - j,
    {
        assert(v0.decls@.take(j + 1).drop_last() =~= v0.decls@.take(j as int));
        if var.decls[j].init.is_some() {
            let name = clone_pat(&var.decls[j].name);
            let init = var.decls[j].init.take();
            match init {
                Some(init) => {
                    exprs.push(Box::new(Expr::Assign(AssignExpr {
                        span: sp,
                        op: AssignOp::Assign,
                        left: PatOrExpr::Pat(Box::new(name)),
                        right: init,
                    })));
                },
                None => {},
            }
        }
        assert(exprs@ =~= before + decl_init_exprs(sp, v0.decls@.take(j + 1)));
        j = j + 1;
    }
    assert(v0.decls@.take(j as int) =~= v0.decls@);
    assert(var.decls@ =~= v0.decls@.map_values(|d: VarDeclarator| strip_init(d)));
}

/// The assignments of the arguments to the parameters, then the arguments
/// beyond the parameters; the arguments are taken out of `args`.
#[verifier::loop_isolation(false)]
pub(crate) fn take_args(params: &[Ident], args: &mut Vec<ExprOrSpread>, sp: Span) -> (exprs: Vec<Box<Expr>>)
    ensures
        exprs@ == arg_exprs(sp, params@.map_values(|p: Ident| ident_pat(p)), old(args)@),
        final(args)@ == old(args)@.map_values(|a: ExprOrSpread| taken_arg(a)),
{
    let ghost args0 = args@;
    let ghost pats = params@.map_values(|p: Ident| ident_pat(p));
    let mut exprs: Vec<Box<Expr>> = Vec::new();
    let mut idx: usize = 0;
    while idx < params.len()
        invariant
            idx <= params@.len(),
            args@.len() == args0.len(),
            exprs@.len() == min_len(idx as nat, args0.len()),
            forall|j: int| 0 <= j < exprs@.len() ==> #[trigger] exprs@[j] == assign_to(sp, pats[j], args0[j].expr),
            forall|j: int| 0 <= j < args0.len() ==> #[trigger] args@[j] == if j < idx { taken_arg(args0[j]) } else { args0[j] },
        decreases params@.len() - idx,
    {
        if idx < args.len() {
            let right = take_expr(&mut args[idx].expr);
            exprs.push(Box::new(Expr::Assign(AssignExpr {
                span: sp,
                op: AssignOp::Assign,
                left: PatOrExpr::Pat(Box::new(Pat::Ident(BindingIdent { id: clone_ident(&params[idx]) }))),
                right: Box::new(right),
            })));
        }
        idx = idx + 1;
    }
    if args.len() > params.len() {
        let mut k: usize = params.len();
        while k < args.len()
            invariant
                params@.len() <= k <= args@.len(),
                args@.len() == args0.len(),
                exprs@.len() == k,
                forall|j: int| 0 <= j < params@.len() ==> #[trigger] exprs@[j] == assign_to(sp, pats[j], args0[j].expr),
                forall|j: int| params@.len() <= j < k ==> #[trigger] exprs@[j] == args0[j].expr,
                forall|j: int| 0 <= j < args0.len() ==> #[trigger] args@[j] == if j < k { taken_arg(args0[j]) } else { args0[j] },
            decreases args@.len() - k,
        {
            let x = take_expr(&mut args[k].expr);
            exprs.push(Box::new(x));
            k = k + 1;
        }
    }
    assert(exprs@ =~= arg_exprs(sp, pats, args0));
    assert(args@ =~= args0.map_values(|a: ExprOrSpread| taken_arg(a)));
    exprs
}

impl Optimizer {
    /// The span of the nodes that inlining makes.
    pub fn non_top_level_span(&self) -> (sp: Span)
        ensures
            sp == marked_span(*self),
    {
        Span { lo: 0, hi: 0, ctxt: self.marks.non_top_level }
    }

    /// Declares the parameters of an inlined function before the statement.
    #[verifier::loop_isolation(false)]
    pub(crate) fn declare_params(&mut self, params: &[Ident], sp: Span)
        ensures
            same_settings(*old(self), *final(self)),
            final(self).changed == old(self).changed,
            params@.len() == 0 ==> final(self).prepend_stmts@ == old(self).prepend_stmts@,
            params@.len() > 0 ==> final(self).prepend_stmts@.len() == old(self).prepend_stmts@.len() + 1
                && final(self).prepend_stmts@.drop_last() == old(self).prepend_stmts@
                && is_decl_of(params@.map_values(|p: Ident| ident_pat(p)), sp, final(self).prepend_stmts@.last()),
    {
        let ghost pats = params@.map_values(|p: Ident| ident_pat(p));
        let mut decls: Vec<VarDeclarator> = Vec::new();
        let mut i: usize = 0;
        while i < params.len()
            invariant
                i <= params@.len(),
                decls@.len() == i,
                forall|j: int| 0 <= j < i ==> #[trigger] decls@[j] == (VarDeclarator {
                    span: sp,
                    name: pats[j],
                    init: None,
                    definite: false,
                }),
            decreases params@.len() - i,
        {
            decls.push(VarDeclarator {
                span: sp,
                name: Pat::Ident(BindingIdent { id: clone_ident(&params[i]) }),
                init: None,
                definite: false,
            });
            i = i + 1;
        }
        if decls.len() > 0 {
            assert(decls@ =~= pats.map_values(|n: Pat| VarDeclarator { span: sp, name: n, init: None, definite: false }));
            self.prepend_stmts.push(Stmt::Decl(Decl::Var(VarDecl {
                span: dummy_sp(),
                kind: VarDeclKind::Var,
                declare: false,
                decls,
            })));
            assert(self.prepend_stmts@.drop_last() =~= old(self).prepend_stmts@);
        }
    }

    /// Turns the statements of an inlined body into expressions pushed to
    /// `exprs`, up to the first `return` (included); the declarations go,
    /// without their initializers, before the statement. Returns whether a
    /// `return` was met.
    #[verifier::loop_isolation(false)]
    fn inline_stmts(&mut self, stmts: Vec<Stmt>, exprs: &mut Vec<Box<Expr>>, sp: Span) -> (returned: bool)
        requires
            forall|j: int| 0 <= j < stmts@.len() ==> decl_names_ident(#[trigger] stmts@[j]),
        ensures
            returned == (first_return_from(stmts@, 0) < stmts@.len()),
            final(exprs)@ == old(exprs)@ + stmts_exprs(sp, stmts_until_return(stmts@)),
            same_settings(*old(self), *final(self)),
            final(self).changed == old(self).changed,
            appended_stripped(old(self).prepend_stmts@, final(self).prepend_stmts@, var_decls_in(stmts_until_return(stmts@))),
    {
        let ghost stmts0 = stmts@;
        let ghost p0 = self.prepend_stmts@;
        let ghost pre = exprs@;
        let mut stmts = stmts;
        assert(stmts0.take(0) =~= Seq::<Stmt>::empty());
        assert(p0.subrange(0, p0.len() as int) =~= p0);
        assert(pre + stmts_exprs(sp, stmts0.take(0)) =~= pre);
        let mut s: usize = 0;
        while s < stmts.len()
            invariant
                s <= stmts0.len(),
                stmts@.len() == stmts0.len(),
                forall|j: int| 0 <= j < stmts0.len() ==> decl_names_ident(#[trigger] stmts0[j]),
                forall|j: int| s <= j < stmts0.len() ==> #[trigger] stmts@[j] == stmts0[j],
                first_return_from(stmts0, 0) == first_return_from(stmts0, s as int),
                exprs@ == pre + stmts_exprs(sp, stmts0.take(s as int)),
                same_settings(*old(self), *self),
                self.changed == old(self).changed,
                appended_stripped(p0, self.prepend_stmts@, var_decls_in(stmts0.take(s as int))),
            decreases stmts0.len() - s,
        {
            assert(stmts0.take(s + 1).drop_last() =~= stmts0.take(s as int));
            let stmt = take_stmt(&mut stmts[s]);
            match stmt {
                Stmt::Decl(Decl::Var(mut var)) => {
                    inline_var_decl(&mut var, exprs, sp);
                    let ghost before = self.prepend_stmts@;
                    self.prepend_stmts.push(Stmt::Decl(Decl::Var(var)));
                    assert(self.prepend_stmts@.subrange(0, p0.len() as int) =~= before.subrange(0, p0.len() as int));
                },
                Stmt::Expr(x) => {
                    exprs.push(x.expr);
                },
                Stmt::Return(x) => {
                    let val = match x.arg {
                        Some(a) => *a,
                        None => *undefined(x.span),
                    };
                    exprs.push(Box::new(val));
                    assert(exprs@ =~= pre + stmts_exprs(sp, stmts0.take(s + 1)));
                    assert(var_decls_in(stmts0.take(s + 1)) =~= var_decls_in(stmts0.take(s as int)));
                    return true;
                },
                _ => {},
            }
            assert(exprs@ =~= pre + stmts_exprs(sp, stmts0.take(s + 1)));
            s = s + 1;
        }
        assert(stmts0.take(s as int) =~= stmts0);
        false
    }

    /// Inlines a call of a function-like with the parameters `params`, the
    /// body `body` and the arguments `args`, as a comma expression: the
    /// parameters and the body's variables are declared before the statement
    /// (in `prepend_stmts`), the arguments are assigned to the parameters,
    /// and the body's statements follow up to its first `return`, whose value
    /// is the value of the whole. `None` where the body cannot be inlined.
    pub fn inline_fn_like(&mut self, params: &[Ident], body: &mut BlockStmt, args: &mut Vec<ExprOrSpread>) -> (r: Option<Expr>)
        ensures
            r is None <==> !spec_can_inline_fn_like(old(self).ctx, params@, *old(body)),
            r is None ==> *final(self) == *old(self) && *final(body) == *old(body) && *final(args) == *old(args),
            r matches Some(x) ==> {
                &&& final(self).changed
                &&& same_settings(*old(self), *final(self))
                &&& prepends_ok(old(self).prepend_stmts@, final(self).prepend_stmts@,
                    params@.map_values(|p: Ident| ident_pat(p)), marked_span(*old(self)),
                    var_decls_in(stmts_until_return(old(body).stmts@)))
                &&& final(body).span == old(body).span
                &&& final(body).stmts@.len() == 0
                &&& final(args)@ == old(args)@.map_values(|a: ExprOrSpread| taken_arg(a))
                &&& is_inlined_call(x, marked_span(*old(self)), params@, old(args)@, *old(body))
            },
    {
        if !self.can_inline_fn_like(params, body) {
            return None;
        }
        self.changed = true;
        let ghost stmts0 = body.stmts@;
        let ghost p0 = self.prepend_stmts@;
        let sp = self.non_top_level_span();
        self.declare_params(params, sp);
        let ghost p1 = self.prepend_stmts@;
        let mut exprs = take_args(params, args, sp);
        let stmts = take_stmts(&mut body.stmts);
        assert forall|j: int| 0 <= j < stmts@.len() implies decl_names_ident(#[trigger] stmts@[j]) by {
            assert(stmt_inlinable(self.ctx, params@, stmts0[j]));
        }
        let returned = self.inline_stmts(stmts, &mut exprs, sp);
        proof {
            let p2 = self.prepend_stmts@;
            assert(p2.subrange(0, p0.len() as int) =~= p1.subrange(0, p1.len() as int).subrange(0, p0.len() as int));
            if params@.len() > 0 {
                assert(p1.subrange(0, p0.len() as int) =~= p1.drop_last());
                assert(p2[p0.len() as int] == p1[p0.len() as int]);
            } else {
                assert(p1 == p0);
            }
        }
        let ghost pats = params@.map_values(|p: Ident| ident_pat(p));
        proof {
            let p2 = self.prepend_stmts@;
            let decls = var_decls_in(stmts_until_return(stmts0));
            assert(pats.len() == params@.len());
            let base = p0.len() + if pats.len() > 0 { 1int } else { 0int };
            assert(base == p1.len());
            assert forall|i: int| 0 <= i < decls.len() implies is_stripped_decl(decls[i], #[trigger] p2[base + i]) by {
                assert(is_stripped_decl(decls[i], p2[p1.len() + i]));
            }
            if pats.len() > 0 {
                assert(p2.subrange(0, p1.len() as int)[p0.len() as int] == p2[p0.len() as int]);
                assert(p1.last() == p1[p0.len() as int]);
                assert(is_decl_of(pats, sp, p2[p0.len() as int]));
            }
            assert(p2.len() == base + decls.len());
            assert(p2.subrange(0, p0.len() as int) == p0);
        }
        assert(prepends_ok(p0, self.prepend_stmts@, pats, sp, var_decls_in(stmts_until_return(stmts0))));
        assert(exprs@ == inlined_exprs(sp, params@, old(args)@, stmts0));
        if returned {
            return Some(Expr::Sequence(SeqExpr { span: dummy_sp(), exprs }));
        }
        if exprs.len() > 0 {
            let ghost all = exprs@;
            let last = exprs.pop();
            match last {
                Some(last) => {
                    exprs.push(Box::new(Expr::Unary(UnaryExpr { span: dummy_sp(), op: UnaryOp::Void, arg: last })));
                },
                None => {},
            }
            assert(exprs@ =~= all.drop_last().push(
                Box::new(Expr::Unary(UnaryExpr { span: dummy_sp(), op: UnaryOp::Void, arg: all.last() })),
            ));
        } else {
            return Some(*undefined(body.span));
        }
        Some(Expr::Sequence(SeqExpr { span: dummy_sp(), exprs }))
    }
}

} // verus!
