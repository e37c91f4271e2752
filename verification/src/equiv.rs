//! Structural equality of syntax trees, and copies that keep it.
//!
//! Two trees are equivalent when they have the same shape and the same
//! leaves; lists are compared element by element.

use vstd::prelude::*;

use crate::lit::{Lit, Regex, Str};
use crate::ast::{
    ArrayPat, ArrowExpr, AssignExpr, AssignPat, AssignPatProp, AssignProp, AwaitExpr, BinExpr, BindingIdent,
    BlockStmt, BlockStmtOrExpr, CallExpr, ComputedPropName, CondExpr, Decl, EmptyStmt, Expr, ExprOrSpread,
    ExprOrSuper, ExprStmt, FnDecl, FnExpr, Function, Ident, IfStmt, Invalid, KeyValuePatProp, KeyValueProp,
    MemberExpr, MethodProp, ObjectLit, ObjectPat, ObjectPatProp, Param, Pat, PatOrExpr, Prop, PropName,
    PropOrSpread, RestPat, ReturnStmt, SeqExpr, SpreadElement, Stmt, Super, ThisExpr, UnaryExpr, VarDecl,
    VarDeclarator,
};

verus! {

/// Two expressions are equivalent.
pub open spec fn expr_equiv(a: Expr, b: Expr) -> bool
    decreases a,
{
    match a {
        Expr::This(x) => b == Expr::This(x),
        Expr::Invalid(x) => b == Expr::Invalid(x),
        Expr::Ident(x) => b == Expr::Ident(x),
        Expr::Lit(x) => b == Expr::Lit(x),
        Expr::Object(x) => b matches Expr::Object(y) && x.span == y.span && x.props@.len() == y.props@.len()
            && forall|i: int| 0 <= i < x.props@.len() ==> prop_or_spread_equiv(#[trigger] x.props@[i], y.props@[i]),
        Expr::Fn(x) => b matches Expr::Fn(y) && x.ident == y.ident && function_equiv(x.function, y.function),
        Expr::Unary(x) => b matches Expr::Unary(y) && x.span == y.span && x.op == y.op && expr_equiv(*x.arg, *y.arg),
        Expr::Bin(x) => b matches Expr::Bin(y) && x.span == y.span && x.op == y.op
            && expr_equiv(*x.left, *y.left) && expr_equiv(*x.right, *y.right),
        Expr::Assign(x) => b matches Expr::Assign(y) && x.span == y.span && x.op == y.op
            && pat_or_expr_equiv(x.left, y.left) && expr_equiv(*x.right, *y.right),
        Expr::Member(x) => b matches Expr::Member(y) && x.span == y.span && x.computed == y.computed
            && callee_equiv(x.obj, y.obj) && expr_equiv(*x.prop, *y.prop),
        Expr::Cond(x) => b matches Expr::Cond(y) && x.span == y.span && expr_equiv(*x.test, *y.test)
            && expr_equiv(*x.cons, *y.cons) && expr_equiv(*x.alt, *y.alt),
        Expr::Call(x) => b matches Expr::Call(y) && x.span == y.span && callee_equiv(x.callee, y.callee)
            && x.args@.len() == y.args@.len()
            && forall|i: int| 0 <= i < x.args@.len() ==> arg_equiv(#[trigger] x.args@[i], y.args@[i]),
        Expr::Sequence(x) => b matches Expr::Sequence(y) && x.span == y.span && x.exprs@.len() == y.exprs@.len()
            && forall|i: int| 0 <= i < x.exprs@.len() ==> expr_equiv(*#[trigger] x.exprs@[i], *y.exprs@[i]),
        Expr::Arrow(x) => b matches Expr::Arrow(y) && x.span == y.span && x.is_async == y.is_async
            && x.is_generator == y.is_generator && x.params@.len() == y.params@.len()
            && (forall|i: int| 0 <= i < x.params@.len() ==> pat_equiv(#[trigger] x.params@[i], y.params@[i]))
            && block_or_expr_equiv(x.body, y.body),
        Expr::Await(x) => b matches Expr::Await(y) && x.span == y.span && expr_equiv(*x.arg, *y.arg),
    }
}

/// Two arguments are equivalent.
pub open spec fn arg_equiv(a: ExprOrSpread, b: ExprOrSpread) -> bool
    decreases a,
{
    a.spread == b.spread && expr_equiv(*a.expr, *b.expr)
}

/// Two callees (or member objects) are equivalent.
pub open spec fn callee_equiv(a: ExprOrSuper, b: ExprOrSuper) -> bool
    decreases a,
{
    match a {
        ExprOrSuper::Super(x) => b == ExprOrSuper::Super(x),
        ExprOrSuper::Expr(x) => b matches ExprOrSuper::Expr(y) && expr_equiv(*x, *y),
    }
}

/// Two assignment targets are equivalent.
pub open spec fn pat_or_expr_equiv(a: PatOrExpr, b: PatOrExpr) -> bool
    decreases a,
{
    match a {
        PatOrExpr::Expr(x) => b matches PatOrExpr::Expr(y) && expr_equiv(*x, *y),
        PatOrExpr::Pat(x) => b matches PatOrExpr::Pat(y) && pat_equiv(*x, *y),
    }
}

/// Two arrow bodies are equivalent.
pub open spec fn block_or_expr_equiv(a: BlockStmtOrExpr, b: BlockStmtOrExpr) -> bool
    decreases a,
{
    match a {
        BlockStmtOrExpr::BlockStmt(x) => b matches BlockStmtOrExpr::BlockStmt(y) && block_equiv(x, y),
        BlockStmtOrExpr::Expr(x) => b matches BlockStmtOrExpr::Expr(y) && expr_equiv(*x, *y),
    }
}

/// Two properties of object literals are equivalent.
pub open spec fn prop_or_spread_equiv(a: PropOrSpread, b: PropOrSpread) -> bool
    decreases a,
{
    match a {
        PropOrSpread::Spread(x) => b matches PropOrSpread::Spread(y) && x.dot3_token == y.dot3_token
            && expr_equiv(*x.expr, *y.expr),
        PropOrSpread::Prop(x) => b matches PropOrSpread::Prop(y) && prop_equiv(*x, *y),
    }
}

/// Two properties are equivalent.
pub open spec fn prop_equiv(a: Prop, b: Prop) -> bool
    decreases a,
{
    match a {
        Prop::Shorthand(x) => b == Prop::Shorthand(x),
        Prop::KeyValue(x) => b matches Prop::KeyValue(y) && prop_name_equiv(x.key, y.key)
            && expr_equiv(*x.value, *y.value),
        Prop::Assign(x) => b matches Prop::Assign(y) && x.key == y.key && expr_equiv(*x.value, *y.value),
        Prop::Method(x) => b matches Prop::Method(y) && prop_name_equiv(x.key, y.key)
            && function_equiv(x.function, y.function),
    }
}

/// Two property keys are equivalent.
pub open spec fn prop_name_equiv(a: PropName, b: PropName) -> bool
    decreases a,
{
    match a {
        PropName::Ident(x) => b == PropName::Ident(x),
        PropName::Str(x) => b == PropName::Str(x),
        PropName::Num(x) => b == PropName::Num(x),
        PropName::Computed(x) => b matches PropName::Computed(y) && x.span == y.span
            && expr_equiv(*x.expr, *y.expr),
    }
}

/// Two functions are equivalent.
pub open spec fn function_equiv(a: Function, b: Function) -> bool
    decreases a,
{
    &&& a.span == b.span
    &&& a.is_generator == b.is_generator
    &&& a.is_async == b.is_async
    &&& a.params@.len() == b.params@.len()
    &&& forall|i: int| 0 <= i < a.params@.len() ==> param_equiv(#[trigger] a.params@[i], b.params@[i])
    &&& match a.body {
        None => b.body is None,
        Some(x) => b.body matches Some(y) && block_equiv(x, y),
    }
}

/// Two parameters are equivalent.
pub open spec fn param_equiv(a: Param, b: Param) -> bool
    decreases a,
{
    a.span == b.span && pat_equiv(a.pat, b.pat)
}

/// Two patterns are equivalent.
pub open spec fn pat_equiv(a: Pat, b: Pat) -> bool
    decreases a,
{
    match a {
        Pat::Ident(x) => b == Pat::Ident(x),
        Pat::Array(x) => b matches Pat::Array(y) && x.span == y.span && x.elems@.len() == y.elems@.len()
            && forall|i: int| 0 <= i < x.elems@.len() ==> opt_pat_equiv(#[trigger] x.elems@[i], y.elems@[i]),
        Pat::Rest(x) => b matches Pat::Rest(y) && rest_pat_equiv(x, y),
        Pat::Object(x) => b matches Pat::Object(y) && x.span == y.span && x.props@.len() == y.props@.len()
            && forall|i: int| 0 <= i < x.props@.len() ==> object_pat_prop_equiv(#[trigger] x.props@[i], y.props@[i]),
        Pat::Assign(x) => b matches Pat::Assign(y) && x.span == y.span && pat_equiv(*x.left, *y.left)
            && expr_equiv(*x.right, *y.right),
    }
}

/// Two optional patterns (array pattern elements) are equivalent.
pub open spec fn opt_pat_equiv(a: Option<Pat>, b: Option<Pat>) -> bool
    decreases a,
{
    match a {
        None => b is None,
        Some(x) => b matches Some(y) && pat_equiv(x, y),
    }
}

/// Two rest patterns are equivalent.
pub open spec fn rest_pat_equiv(a: RestPat, b: RestPat) -> bool
    decreases a,
{
    a.span == b.span && a.dot3_token == b.dot3_token && pat_equiv(*a.arg, *b.arg)
}

/// Two object pattern properties are equivalent.
pub open spec fn object_pat_prop_equiv(a: ObjectPatProp, b: ObjectPatProp) -> bool
    decreases a,
{
    match a {
        ObjectPatProp::KeyValue(x) => b matches ObjectPatProp::KeyValue(y) && prop_name_equiv(x.key, y.key)
            && pat_equiv(*x.value, *y.value),
        ObjectPatProp::Assign(x) => b matches ObjectPatProp::Assign(y) && x.span == y.span && x.key == y.key
            && opt_expr_equiv(x.value, y.value),
        ObjectPatProp::Rest(x) => b matches ObjectPatProp::Rest(y) && rest_pat_equiv(x, y),
    }
}

/// Two optional expressions are equivalent.
pub open spec fn opt_expr_equiv(a: Option<Box<Expr>>, b: Option<Box<Expr>>) -> bool
    decreases a,
{
    match a {
        None => b is None,
        Some(x) => b matches Some(y) && expr_equiv(*x, *y),
    }
}

/// Two blocks are equivalent.
pub open spec fn block_equiv(a: BlockStmt, b: BlockStmt) -> bool
    decreases a,
{
    a.span == b.span && a.stmts@.len() == b.stmts@.len()
        && forall|i: int| 0 <= i < a.stmts@.len() ==> stmt_equiv(#[trigger] a.stmts@[i], b.stmts@[i])
}

/// Two statements are equivalent.
pub open spec fn stmt_equiv(a: Stmt, b: Stmt) -> bool
    decreases a,
{
    match a {
        Stmt::Block(x) => b matches Stmt::Block(y) && block_equiv(x, y),
        Stmt::Empty(x) => b == Stmt::Empty(x),
        Stmt::Expr(x) => b matches Stmt::Expr(y) && x.span == y.span && expr_equiv(*x.expr, *y.expr),
        Stmt::Return(x) => b matches Stmt::Return(y) && x.span == y.span && opt_expr_equiv(x.arg, y.arg),
        Stmt::If(x) => b matches Stmt::If(y) && x.span == y.span && expr_equiv(*x.test, *y.test)
            && stmt_equiv(*x.cons, *y.cons) && match x.alt {
                None => y.alt is None,
                Some(s) => y.alt matches Some(t) && stmt_equiv(*s, *t),
            },
        Stmt::Decl(x) => b matches Stmt::Decl(y) && decl_equiv(x, y),
    }
}

/// Two declarations are equivalent.
pub open spec fn decl_equiv(a: Decl, b: Decl) -> bool
    decreases a,
{
    match a {
        Decl::Fn(x) => b matches Decl::Fn(y) && x.ident == y.ident && x.declare == y.declare
            && function_equiv(x.function, y.function),
        Decl::Var(x) => b matches Decl::Var(y) && x.span == y.span && x.kind == y.kind && x.declare == y.declare
            && x.decls@.len() == y.decls@.len()
            && forall|i: int| 0 <= i < x.decls@.len() ==> var_declarator_equiv(#[trigger] x.decls@[i], y.decls@[i]),
    }
}

/// Two declarators are equivalent.
pub open spec fn var_declarator_equiv(a: VarDeclarator, b: VarDeclarator) -> bool
    decreases a,
{
    a.span == b.span && a.definite == b.definite && pat_equiv(a.name, b.name) && opt_expr_equiv(a.init, b.init)
}

/// A copy of an identifier.
pub fn clone_ident(i: &Ident) -> (r: Ident)
    ensures
        r == *i,
{
    Ident { span: i.span, sym: i.sym.clone() }
}

/// A copy of an optional identifier.
pub fn clone_opt_ident(i: &Option<Ident>) -> (r: Option<Ident>)
    ensures
        r == *i,
{
    match i {
        None => None,
        Some(x) => Some(clone_ident(x)),
    }
}

/// A copy of a string literal.
pub fn clone_str(s: &Str) -> (r: Str)
    ensures
        r == *s,
{
    Str { span: s.span, value: s.value.clone(), has_escape: s.has_escape }
}

/// A copy of a literal.
pub fn clone_lit(l: &Lit) -> (r: Lit)
    ensures
        r == *l,
{
    match l {
        Lit::Str(x) => Lit::Str(clone_str(x)),
        Lit::Bool(x) => Lit::Bool(*x),
        Lit::Null(x) => Lit::Null(*x),
        Lit::Num(x) => Lit::Num(*x),
        Lit::Regex(x) => Lit::Regex(Regex { span: x.span, exp: x.exp.clone(), flags: x.flags.clone() }),
    }
}

/// A copy of an expression.
#[verifier::loop_isolation(false)]
pub fn clone_expr(e: &Expr) -> (r: Expr)
    ensures
        expr_equiv(*e, r),
    decreases e,
{
    match e {
        Expr::This(x) => Expr::This(ThisExpr { span: x.span }),
        Expr::Invalid(x) => Expr::Invalid(Invalid { span: x.span }),
        Expr::Ident(x) => Expr::Ident(clone_ident(x)),
        Expr::Lit(x) => Expr::Lit(clone_lit(x)),
        Expr::Object(x) => {
            let mut props: Vec<PropOrSpread> = Vec::new();
            let mut i: usize = 0;
            while i < x.props.len()
                invariant
                    i <= x.props@.len(),
                    props@.len() == i,
                    forall|j: int| 0 <= j < i ==> prop_or_spread_equiv(#[trigger] x.props@[j], props@[j]),
                decreases x.props@.len() - i,
            {
                props.push(clone_prop_or_spread(&x.props[i]));
                i = i + 1;
            }
            Expr::Object(ObjectLit { span: x.span, props })
        },
        Expr::Fn(x) => Expr::Fn(FnExpr { ident: clone_opt_ident(&x.ident), function: clone_function(&x.function) }),
        Expr::Unary(x) => Expr::Unary(UnaryExpr { span: x.span, op: x.op, arg: Box::new(clone_expr(&x.arg)) }),
        Expr::Bin(x) => Expr::Bin(BinExpr {
            span: x.span,
            op: x.op,
            left: Box::new(clone_expr(&x.left)),
            right: Box::new(clone_expr(&x.right)),
        }),
        Expr::Assign(x) => Expr::Assign(AssignExpr {
            span: x.span,
            op: x.op,
            left: clone_pat_or_expr(&x.left),
            right: Box::new(clone_expr(&x.right)),
        }),
        Expr::Member(x) => Expr::Member(MemberExpr {
            span: x.span,
            obj: clone_callee(&x.obj),
            prop: Box::new(clone_expr(&x.prop)),
            computed: x.computed,
        }),
        Expr::Cond(x) => Expr::Cond(CondExpr {
            span: x.span,
            test: Box::new(clone_expr(&x.test)),
            cons: Box::new(clone_expr(&x.cons)),
            alt: Box::new(clone_expr(&x.alt)),
        }),
        Expr::Call(x) => {
            let callee = clone_callee(&x.callee);
            let args = clone_args(&x.args);
            Expr::Call(CallExpr { span: x.span, callee, args })
        },
        Expr::Sequence(x) => {
            let mut exprs: Vec<Box<Expr>> = Vec::new();
            let mut i: usize = 0;
            while i < x.exprs.len()
                invariant
                    i <= x.exprs@.len(),
                    exprs@.len() == i,
                    forall|j: int| 0 <= j < i ==> expr_equiv(*#[trigger] x.exprs@[j], *exprs@[j]),
                decreases x.exprs@.len() - i,
            {
                exprs.push(Box::new(clone_expr(&x.exprs[i])));
                i = i + 1;
            }
            Expr::Sequence(SeqExpr { span: x.span, exprs })
        },
        Expr::Arrow(x) => {
            let params = clone_pats(&x.params);
            let body = clone_block_or_expr(&x.body);
            Expr::Arrow(ArrowExpr {
                span: x.span,
                params,
                body,
                is_async: x.is_async,
                is_generator: x.is_generator,
            })
        },
        Expr::Await(x) => Expr::Await(AwaitExpr { span: x.span, arg: Box::new(clone_expr(&x.arg)) }),
    }
}

/// A copy of a list of arguments.
#[verifier::loop_isolation(false)]
pub fn clone_args(args: &Vec<ExprOrSpread>) -> (r: Vec<ExprOrSpread>)
    ensures
        r@.len() == args@.len(),
        forall|j: int| 0 <= j < args@.len() ==> arg_equiv(#[trigger] args@[j], r@[j]),
    decreases args,
{
    let mut r: Vec<ExprOrSpread> = Vec::new();
    let mut i: usize = 0;
    while i < args.len()
        invariant
            i <= args@.len(),
            r@.len() == i,
            forall|j: int| 0 <= j < i ==> arg_equiv(#[trigger] args@[j], r@[j]),
        decreases args@.len() - i,
    {
        let a = &args[i];
        r.push(ExprOrSpread { spread: a.spread, expr: Box::new(clone_expr(&a.expr)) });
        i = i + 1;
    }
    r
}

/// A copy of a list of patterns.
#[verifier::loop_isolation(false)]
pub fn clone_pats(pats: &Vec<Pat>) -> (r: Vec<Pat>)
    ensures
        r@.len() == pats@.len(),
        forall|j: int| 0 <= j < pats@.len() ==> pat_equiv(#[trigger] pats@[j], r@[j]),
    decreases pats,
{
    let mut r: Vec<Pat> = Vec::new();
    let mut i: usize = 0;
    while i < pats.len()
        invariant
            i <= pats@.len(),
            r@.len() == i,
            forall|j: int| 0 <= j < i ==> pat_equiv(#[trigger] pats@[j], r@[j]),
        decreases pats@.len() - i,
    {
        r.push(clone_pat(&pats[i]));
        i = i + 1;
    }
    r
}

/// A copy of a callee.
pub fn clone_callee(c: &ExprOrSuper) -> (r: ExprOrSuper)
    ensures
        callee_equiv(*c, r),
    decreases c,
{
    match c {
        ExprOrSuper::Super(s) => ExprOrSuper::Super(Super { span: s.span }),
        ExprOrSuper::Expr(x) => ExprOrSuper::Expr(Box::new(clone_expr(x))),
    }
}

/// A copy of an assignment target.
pub fn clone_pat_or_expr(p: &PatOrExpr) -> (r: PatOrExpr)
    ensures
        pat_or_expr_equiv(*p, r),
    decreases p,
{
    match p {
        PatOrExpr::Expr(x) => PatOrExpr::Expr(Box::new(clone_expr(x))),
        PatOrExpr::Pat(x) => PatOrExpr::Pat(Box::new(clone_pat(x))),
    }
}

/// A copy of an arrow body.
pub fn clone_block_or_expr(b: &BlockStmtOrExpr) -> (r: BlockStmtOrExpr)
    ensures
        block_or_expr_equiv(*b, r),
    decreases b,
{
    match b {
        BlockStmtOrExpr::BlockStmt(x) => BlockStmtOrExpr::BlockStmt(clone_block(x)),
        BlockStmtOrExpr::Expr(x) => BlockStmtOrExpr::Expr(Box::new(clone_expr(x))),
    }
}

/// A copy of a property.
pub fn clone_prop_or_spread(p: &PropOrSpread) -> (r: PropOrSpread)
    ensures
        prop_or_spread_equiv(*p, r),
    decreases p,
{
    match p {
        PropOrSpread::Spread(x) => PropOrSpread::Spread(
            SpreadElement { dot3_token: x.dot3_token, expr: Box::new(clone_expr(&x.expr)) },
        ),
        PropOrSpread::Prop(x) => PropOrSpread::Prop(Box::new(clone_prop(x))),
    }
}

/// A copy of a property.
pub fn clone_prop(p: &Prop) -> (r: Prop)
    ensures
        prop_equiv(*p, r),
    decreases p,
{
    match p {
        Prop::Shorthand(x) => Prop::Shorthand(clone_ident(x)),
        Prop::KeyValue(x) => Prop::KeyValue(
            KeyValueProp { key: clone_prop_name(&x.key), value: Box::new(clone_expr(&x.value)) },
        ),
        Prop::Assign(x) => Prop::Assign(
            AssignProp { key: clone_ident(&x.key), value: Box::new(clone_expr(&x.value)) },
        ),
        Prop::Method(x) => Prop::Method(
            MethodProp { key: clone_prop_name(&x.key), function: clone_function(&x.function) },
        ),
    }
}

/// A copy of a property key.
pub fn clone_prop_name(p: &PropName) -> (r: PropName)
    ensures
        prop_name_equiv(*p, r),
    decreases p,
{
    match p {
        PropName::Ident(x) => PropName::Ident(clone_ident(x)),
        PropName::Str(x) => PropName::Str(clone_str(x)),
        PropName::Num(x) => PropName::Num(*x),
        PropName::Computed(x) => PropName::Computed(
            ComputedPropName { span: x.span, expr: Box::new(clone_expr(&x.expr)) },
        ),
    }
}

/// A copy of a function.
#[verifier::loop_isolation(false)]
pub fn clone_function(f: &Function) -> (r: Function)
    ensures
        function_equiv(*f, r),
    decreases f,
{
    let mut params: Vec<Param> = Vec::new();
    let mut i: usize = 0;
    while i < f.params.len()
        invariant
            i <= f.params@.len(),
            params@.len() == i,
            forall|j: int| 0 <= j < i ==> param_equiv(#[trigger] f.params@[j], params@[j]),
        decreases f.params@.len() - i,
    {
        params.push(Param { span: f.params[i].span, pat: clone_pat(&f.params[i].pat) });
        i = i + 1;
    }
    let body = match &f.body {
        None => None,
        Some(b) => Some(clone_block(b)),
    };
    Function { params, span: f.span, body, is_generator: f.is_generator, is_async: f.is_async }
}

/// A copy of a pattern.
#[verifier::loop_isolation(false)]
pub fn clone_pat(p: &Pat) -> (r: Pat)
    ensures
        pat_equiv(*p, r),
    decreases p,
{
    match p {
        Pat::Ident(x) => Pat::Ident(BindingIdent { id: clone_ident(&x.id) }),
        Pat::Array(x) => {
            let mut elems: Vec<Option<Pat>> = Vec::new();
            let mut i: usize = 0;
            while i < x.elems.len()
                invariant
                    i <= x.elems@.len(),
                    elems@.len() == i,
                    forall|j: int| 0 <= j < i ==> opt_pat_equiv(#[trigger] x.elems@[j], elems@[j]),
                decreases x.elems@.len() - i,
            {
                let el = match &x.elems[i] {
                    None => None,
                    Some(q) => Some(clone_pat(q)),
                };
                elems.push(el);
                i = i + 1;
            }
            Pat::Array(ArrayPat { span: x.span, elems })
        },
        Pat::Rest(x) => Pat::Rest(clone_rest_pat(x)),
        Pat::Object(x) => {
            let mut props: Vec<ObjectPatProp> = Vec::new();
            let mut i: usize = 0;
            while i < x.props.len()
                invariant
                    i <= x.props@.len(),
                    props@.len() == i,
                    forall|j: int| 0 <= j < i ==> object_pat_prop_equiv(#[trigger] x.props@[j], props@[j]),
                decreases x.props@.len() - i,
            {
                props.push(clone_object_pat_prop(&x.props[i]));
                i = i + 1;
            }
            Pat::Object(ObjectPat { span: x.span, props })
        },
        Pat::Assign(x) => Pat::Assign(AssignPat {
            span: x.span,
            left: Box::new(clone_pat(&x.left)),
            right: Box::new(clone_expr(&x.right)),
        }),
    }
}

/// A copy of a rest pattern.
pub fn clone_rest_pat(p: &RestPat) -> (r: RestPat)
    ensures
        rest_pat_equiv(*p, r),
    decreases p,
{
    RestPat { span: p.span, dot3_token: p.dot3_token, arg: Box::new(clone_pat(&p.arg)) }
}

/// A copy of an object pattern property.
pub fn clone_object_pat_prop(p: &ObjectPatProp) -> (r: ObjectPatProp)
    ensures
        object_pat_prop_equiv(*p, r),
    decreases p,
{
    match p {
        ObjectPatProp::KeyValue(x) => ObjectPatProp::KeyValue(
            KeyValuePatProp { key: clone_prop_name(&x.key), value: Box::new(clone_pat(&x.value)) },
        ),
        ObjectPatProp::Assign(x) => ObjectPatProp::Assign(
            AssignPatProp { span: x.span, key: clone_ident(&x.key), value: clone_opt_expr(&x.value) },
        ),
        ObjectPatProp::Rest(x) => ObjectPatProp::Rest(clone_rest_pat(x)),
    }
}

/// A copy of an optional expression.
pub fn clone_opt_expr(e: &Option<Box<Expr>>) -> (r: Option<Box<Expr>>)
    ensures
        opt_expr_equiv(*e, r),
    decreases e,
{
    match e {
        None => None,
        Some(x) => Some(Box::new(clone_expr(x))),
    }
}

/// A copy of a block.
#[verifier::loop_isolation(false)]
pub fn clone_block(b: &BlockStmt) -> (r: BlockStmt)
    ensures
        block_equiv(*b, r),
    decreases b,
{
    let mut stmts: Vec<Stmt> = Vec::new();
    let mut i: usize = 0;
    while i < b.stmts.len()
        invariant
            i <= b.stmts@.len(),
            stmts@.len() == i,
            forall|j: int| 0 <= j < i ==> stmt_equiv(#[trigger] b.stmts@[j], stmts@[j]),
        decreases b.stmts@.len() - i,
    {
        stmts.push(clone_stmt(&b.stmts[i]));
        i = i + 1;
    }
    BlockStmt { span: b.span, stmts }
}

/// A copy of a statement.
pub fn clone_stmt(s: &Stmt) -> (r: Stmt)
    ensures
        stmt_equiv(*s, r),
    decreases s,
{
    match s {
        Stmt::Block(x) => Stmt::Block(clone_block(x)),
        Stmt::Empty(x) => Stmt::Empty(EmptyStmt { span: x.span }),
        Stmt::Expr(x) => Stmt::Expr(ExprStmt { span: x.span, expr: Box::new(clone_expr(&x.expr)) }),
        Stmt::Return(x) => Stmt::Return(ReturnStmt { span: x.span, arg: clone_opt_expr(&x.arg) }),
        Stmt::If(x) => {
            let alt = match &x.alt {
                None => None,
                Some(a) => Some(Box::new(clone_stmt(a))),
            };
            Stmt::If(IfStmt {
                span: x.span,
                test: Box::new(clone_expr(&x.test)),
                cons: Box::new(clone_stmt(&x.cons)),
                alt,
            })
        },
        Stmt::Decl(x) => Stmt::Decl(clone_decl(x)),
    }
}

/// A copy of a declaration.
#[verifier::loop_isolation(false)]
pub fn clone_decl(d: &Decl) -> (r: Decl)
    ensures
        decl_equiv(*d, r),
    decreases d,
{
    match d {
        Decl::Fn(x) => Decl::Fn(FnDecl {
            ident: clone_ident(&x.ident),
            declare: x.declare,
            function: clone_function(&x.function),
        }),
        Decl::Var(x) => {
            let mut decls: Vec<VarDeclarator> = Vec::new();
            let mut i: usize = 0;
            while i < x.decls.len()
                invariant
                    i <= x.decls@.len(),
                    decls@.len() == i,
                    forall|j: int| 0 <= j < i ==> var_declarator_equiv(#[trigger] x.decls@[j], decls@[j]),
                decreases x.decls@.len() - i,
            {
                let d = &x.decls[i];
                decls.push(VarDeclarator {
                    span: d.span,
                    name: clone_pat(&d.name),
                    init: clone_opt_expr(&d.init),
                    definite: d.definite,
                });
                i = i + 1;
            }
            Decl::Var(VarDecl { span: x.span, kind: x.kind, declare: x.declare, decls })
        },
    }
}

} // verus!
