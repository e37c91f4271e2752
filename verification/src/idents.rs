//! The identifiers that a node mentions.
//!
//! A node uses an identifier when the identifier occurs in it as a reference
//! or as a binding, nested functions included. The property names of
//! non-computed member accesses (`a.b`) and non-computed property keys
//! (`{ b: 1 }`) are not identifiers in this sense.

use vstd::prelude::*;

use crate::ast::{
    BlockStmt, BlockStmtOrExpr, Decl, Expr, ExprOrSuper, Function, Id, IdView, Ident, ObjectPatProp, Pat,
    PatOrExpr, Prop, PropName, PropOrSpread, RestPat, Stmt, VarDeclarator, id_view,
};

verus! {

/// What is looked for among the identifiers of a node: one binding, or any
/// binding of a name.
pub enum IdentQuery {
    Id(Id),
    Sym(String),
}

/// The predicate of one binding.
pub open spec fn ident_is(x: IdView) -> spec_fn(IdView) -> bool {
    |id: IdView| id == x
}

/// The predicate of any binding of the name `s`.
pub open spec fn ident_named(s: Seq<char>) -> spec_fn(IdView) -> bool {
    |id: IdView| id.0 == s
}

impl IdentQuery {
    /// The query as a predicate on bindings.
    pub open spec fn pred(self) -> spec_fn(IdView) -> bool {
        match self {
            IdentQuery::Id(x) => ident_is(id_view(x)),
            IdentQuery::Sym(s) => ident_named(s@),
        }
    }

    /// Whether an identifier answers the query.
    pub fn matches_ident(&self, i: &Ident) -> (r: bool)
        ensures
            r == self.pred()(i.spec_id()),
    {
        match self {
            IdentQuery::Id(x) => x.0 == i.sym && x.1 == i.span.ctxt,
            IdentQuery::Sym(s) => *s == i.sym,
        }
    }
}

/// Whether an identifier that satisfies `p` occurs in an expression.
pub open spec fn expr_uses(e: Expr, p: spec_fn(IdView) -> bool) -> bool
    decreases e,
{
    match e {
        Expr::This(_) | Expr::Invalid(_) | Expr::Lit(_) => false,
        Expr::Ident(x) => p(x.spec_id()),
        Expr::Object(x) => exists|i: int| 0 <= i < x.props@.len() && prop_or_spread_uses(#[trigger] x.props@[i], p),
        Expr::Fn(x) => (x.ident matches Some(n) && p(n.spec_id())) || function_uses(x.function, p),
        Expr::Unary(x) => expr_uses(*x.arg, p),
        Expr::Bin(x) => expr_uses(*x.left, p) || expr_uses(*x.right, p),
        Expr::Assign(x) => pat_or_expr_uses(x.left, p) || expr_uses(*x.right, p),
        Expr::Member(x) => callee_uses(x.obj, p) || (x.computed && expr_uses(*x.prop, p)),
        Expr::Cond(x) => expr_uses(*x.test, p) || expr_uses(*x.cons, p) || expr_uses(*x.alt, p),
        Expr::Call(x) => callee_uses(x.callee, p)
            || exists|i: int| 0 <= i < x.args@.len() && expr_uses(*(#[trigger] x.args@[i]).expr, p),
        Expr::Sequence(x) => exists|i: int| 0 <= i < x.exprs@.len() && expr_uses(*#[trigger] x.exprs@[i], p),
        Expr::Arrow(x) => (exists|i: int| 0 <= i < x.params@.len() && pat_uses(#[trigger] x.params@[i], p))
            || block_or_expr_uses(x.body, p),
        Expr::Await(x) => expr_uses(*x.arg, p),
    }
}

/// Whether an identifier that satisfies `p` occurs in a callee.
pub open spec fn callee_uses(c: ExprOrSuper, p: spec_fn(IdView) -> bool) -> bool
    decreases c,
{
    match c {
        ExprOrSuper::Super(_) => false,
        ExprOrSuper::Expr(x) => expr_uses(*x, p),
    }
}

/// Whether an identifier that satisfies `p` occurs in an assignment target.
pub open spec fn pat_or_expr_uses(t: PatOrExpr, p: spec_fn(IdView) -> bool) -> bool
    decreases t,
{
    match t {
        PatOrExpr::Expr(x) => expr_uses(*x, p),
        PatOrExpr::Pat(x) => pat_uses(*x, p),
    }
}

/// Whether an identifier that satisfies `p` occurs in an arrow body.
pub open spec fn block_or_expr_uses(b: BlockStmtOrExpr, p: spec_fn(IdView) -> bool) -> bool
    decreases b,
{
    match b {
        BlockStmtOrExpr::BlockStmt(x) => block_uses(x, p),
        BlockStmtOrExpr::Expr(x) => expr_uses(*x, p),
    }
}

/// Whether an identifier that satisfies `p` occurs in a property.
pub open spec fn prop_or_spread_uses(x: PropOrSpread, p: spec_fn(IdView) -> bool) -> bool
    decreases x,
{
    match x {
        PropOrSpread::Spread(s) => expr_uses(*s.expr, p),
        PropOrSpread::Prop(q) => prop_uses(*q, p),
    }
}

/// Whether an identifier that satisfies `p` occurs in a property.
pub open spec fn prop_uses(x: Prop, p: spec_fn(IdView) -> bool) -> bool
    decreases x,
{
    match x {
        Prop::Shorthand(i) => p(i.spec_id()),
        Prop::KeyValue(kv) => prop_name_uses(kv.key, p) || expr_uses(*kv.value, p),
        Prop::Assign(a) => p(a.key.spec_id()) || expr_uses(*a.value, p),
        Prop::Method(m) => prop_name_uses(m.key, p) || function_uses(m.function, p),
    }
}

/// Whether an identifier that satisfies `p` occurs in a property key: only
/// in a computed one.
pub open spec fn prop_name_uses(x: PropName, p: spec_fn(IdView) -> bool) -> bool
    decreases x,
{
    match x {
        PropName::Computed(c) => expr_uses(*c.expr, p),
        _ => false,
    }
}

/// Whether an identifier that satisfies `p` occurs in a function.
pub open spec fn function_uses(f: Function, p: spec_fn(IdView) -> bool) -> bool
    decreases f,
{
    (exists|i: int| 0 <= i < f.params@.len() && pat_uses((#[trigger] f.params@[i]).pat, p))
        || (f.body matches Some(b) && block_uses(b, p))
}

/// Whether an identifier that satisfies `p` occurs in a pattern.
pub open spec fn pat_uses(x: Pat, p: spec_fn(IdView) -> bool) -> bool
    decreases x,
{
    match x {
        Pat::Ident(b) => p(b.id.spec_id()),
        Pat::Array(a) => exists|i: int| 0 <= i < a.elems@.len()
            && (#[trigger] a.elems@[i] matches Some(q) && pat_uses(q, p)),
        Pat::Rest(r) => rest_pat_uses(r, p),
        Pat::Object(o) => exists|i: int| 0 <= i < o.props@.len() && object_pat_prop_uses(#[trigger] o.props@[i], p),
        Pat::Assign(a) => pat_uses(*a.left, p) || expr_uses(*a.right, p),
    }
}

/// Whether an identifier that satisfies `p` occurs in a rest pattern.
pub open spec fn rest_pat_uses(x: RestPat, p: spec_fn(IdView) -> bool) -> bool
    decreases x,
{
    pat_uses(*x.arg, p)
}

/// Whether an identifier that satisfies `p` occurs in an object pattern property.
pub open spec fn object_pat_prop_uses(x: ObjectPatProp, p: spec_fn(IdView) -> bool) -> bool
    decreases x,
{
    match x {
        ObjectPatProp::KeyValue(kv) => prop_name_uses(kv.key, p) || pat_uses(*kv.value, p),
        ObjectPatProp::Assign(a) => p(a.key.spec_id()) || opt_expr_uses(a.value, p),
        ObjectPatProp::Rest(r) => rest_pat_uses(r, p),
    }
}

/// Whether an identifier that satisfies `p` occurs in an optional expression.
pub open spec fn opt_expr_uses(x: Option<Box<Expr>>, p: spec_fn(IdView) -> bool) -> bool
    decreases x,
{
    match x {
        None => false,
        Some(e) => expr_uses(*e, p),
    }
}

/// Whether an identifier that satisfies `p` occurs in a block.
pub open spec fn block_uses(b: BlockStmt, p: spec_fn(IdView) -> bool) -> bool
    decreases b,
{
    exists|i: int| 0 <= i < b.stmts@.len() && stmt_uses(#[trigger] b.stmts@[i], p)
}

/// Whether an identifier that satisfies `p` occurs in an optional block.
pub open spec fn opt_block_uses(b: Option<BlockStmt>, p: spec_fn(IdView) -> bool) -> bool {
    b matches Some(x) && block_uses(x, p)
}

/// Whether an identifier that satisfies `p` occurs in a statement.
pub open spec fn stmt_uses(s: Stmt, p: spec_fn(IdView) -> bool) -> bool
    decreases s,
{
    match s {
        Stmt::Block(b) => block_uses(b, p),
        Stmt::Empty(_) => false,
        Stmt::Expr(x) => expr_uses(*x.expr, p),
        Stmt::Return(x) => opt_expr_uses(x.arg, p),
        Stmt::If(x) => expr_uses(*x.test, p) || stmt_uses(*x.cons, p)
            || (x.alt matches Some(a) && stmt_uses(*a, p)),
        Stmt::Decl(d) => decl_uses(d, p),
    }
}

/// Whether an identifier that satisfies `p` occurs in a declaration.
pub open spec fn decl_uses(d: Decl, p: spec_fn(IdView) -> bool) -> bool
    decreases d,
{
    match d {
        Decl::Fn(f) => p(f.ident.spec_id()) || function_uses(f.function, p),
        Decl::Var(v) => exists|i: int| 0 <= i < v.decls@.len() && var_declarator_uses(#[trigger] v.decls@[i], p),
    }
}

/// Whether an identifier that satisfies `p` occurs in a declarator.
pub open spec fn var_declarator_uses(d: VarDeclarator, p: spec_fn(IdView) -> bool) -> bool
    decreases d,
{
    pat_uses(d.name, p) || opt_expr_uses(d.init, p)
}

/// Whether an identifier that answers `q` occurs in an expression.
#[verifier::loop_isolation(false)]
pub fn expr_mentions(e: &Expr, q: &IdentQuery) -> (r: bool)
    ensures
        r == expr_uses(*e, q.pred()),
    decreases e,
{
    match e {
        Expr::This(_) | Expr::Invalid(_) | Expr::Lit(_) => false,
        Expr::Ident(x) => q.matches_ident(x),
        Expr::Object(x) => {
            let mut i: usize = 0;
            while i < x.props.len()
                invariant
                    i <= x.props@.len(),
                    forall|j: int| 0 <= j < i ==> !prop_or_spread_uses(#[trigger] x.props@[j], q.pred()),
                decreases x.props@.len() - i,
            {
                if prop_or_spread_mentions(&x.props[i], q) {
                    assert(prop_or_spread_uses(x.props@[i as int], q.pred()));
                    return true;
                }
                i = i + 1;
            }
            false
        },
        Expr::Fn(x) => {
            let in_name = match &x.ident {
                Some(n) => q.matches_ident(n),
                None => false,
            };
            in_name || function_mentions(&x.function, q)
        },
        Expr::Unary(x) => expr_mentions(&x.arg, q),
        Expr::Bin(x) => expr_mentions(&x.left, q) || expr_mentions(&x.right, q),
        Expr::Assign(x) => pat_or_expr_mentions(&x.left, q) || expr_mentions(&x.right, q),
        Expr::Member(x) => callee_mentions(&x.obj, q) || (x.computed && expr_mentions(&x.prop, q)),
        Expr::Cond(x) => expr_mentions(&x.test, q) || expr_mentions(&x.cons, q) || expr_mentions(&x.alt, q),
        Expr::Call(x) => {
            if callee_mentions(&x.callee, q) {
                return true;
            }
            let mut i: usize = 0;
            while i < x.args.len()
                invariant
                    i <= x.args@.len(),
                    forall|j: int| 0 <= j < i ==> !expr_uses(*(#[trigger] x.args@[j]).expr, q.pred()),
                decreases x.args@.len() - i,
            {
                if expr_mentions(&x.args[i].expr, q) {
                    assert(expr_uses(*x.args@[i as int].expr, q.pred()));
                    return true;
                }
                i = i + 1;
            }
            false
        },
        Expr::Sequence(x) => {
            let mut i: usize = 0;
            while i < x.exprs.len()
                invariant
                    i <= x.exprs@.len(),
                    forall|j: int| 0 <= j < i ==> !expr_uses(*#[trigger] x.exprs@[j], q.pred()),
                decreases x.exprs@.len() - i,
            {
                if expr_mentions(&x.exprs[i], q) {
                    assert(expr_uses(*x.exprs@[i as int], q.pred()));
                    return true;
                }
                i = i + 1;
            }
            false
        },
        Expr::Arrow(x) => {
            let mut i: usize = 0;
            while i < x.params.len()
                invariant
                    i <= x.params@.len(),
                    forall|j: int| 0 <= j < i ==> !pat_uses(#[trigger] x.params@[j], q.pred()),
                decreases x.params@.len() - i,
            {
                if pat_mentions(&x.params[i], q) {
                    assert(pat_uses(x.params@[i as int], q.pred()));
                    return true;
                }
                i = i + 1;
            }
            block_or_expr_mentions(&x.body, q)
        },
        Expr::Await(x) => expr_mentions(&x.arg, q),
    }
}

/// Whether an identifier that answers `q` occurs in a callee.
pub fn callee_mentions(c: &ExprOrSuper, q: &IdentQuery) -> (r: bool)
    ensures
        r == callee_uses(*c, q.pred()),
    decreases c,
{
    match c {
        ExprOrSuper::Super(_) => false,
        ExprOrSuper::Expr(x) => expr_mentions(x, q),
    }
}

/// Whether an identifier that answers `q` occurs in an assignment target.
pub fn pat_or_expr_mentions(t: &PatOrExpr, q: &IdentQuery) -> (r: bool)
    ensures
        r == pat_or_expr_uses(*t, q.pred()),
    decreases t,
{
    match t {
        PatOrExpr::Expr(x) => expr_mentions(x, q),
        PatOrExpr::Pat(x) => pat_mentions(x, q),
    }
}

/// Whether an identifier that answers `q` occurs in an arrow body.
pub fn block_or_expr_mentions(b: &BlockStmtOrExpr, q: &IdentQuery) -> (r: bool)
    ensures
        r == block_or_expr_uses(*b, q.pred()),
    decreases b,
{
    match b {
        BlockStmtOrExpr::BlockStmt(x) => block_mentions(x, q),
        BlockStmtOrExpr::Expr(x) => expr_mentions(x, q),
    }
}

/// Whether an identifier that answers `q` occurs in a property.
pub fn prop_or_spread_mentions(x: &PropOrSpread, q: &IdentQuery) -> (r: bool)
    ensures
        r == prop_or_spread_uses(*x, q.pred()),
    decreases x,
{
    match x {
        PropOrSpread::Spread(s) => expr_mentions(&s.expr, q),
        PropOrSpread::Prop(p) => prop_mentions(p, q),
    }
}

/// Whether an identifier that answers `q` occurs in a property.
pub fn prop_mentions(x: &Prop, q: &IdentQuery) -> (r: bool)
    ensures
        r == prop_uses(*x, q.pred()),
    decreases x,
{
    match x {
        Prop::Shorthand(i) => q.matches_ident(i),
        Prop::KeyValue(kv) => prop_name_mentions(&kv.key, q) || expr_mentions(&kv.value, q),
        Prop::Assign(a) => q.matches_ident(&a.key) || expr_mentions(&a.value, q),
        Prop::Method(m) => prop_name_mentions(&m.key, q) || function_mentions(&m.function, q),
    }
}

/// Whether an identifier that answers `q` occurs in a computed property key.
pub fn prop_name_mentions(x: &PropName, q: &IdentQuery) -> (r: bool)
    ensures
        r == prop_name_uses(*x, q.pred()),
    decreases x,
{
    match x {
        PropName::Computed(c) => expr_mentions(&c.expr, q),
        _ => false,
    }
}

/// Whether an identifier that answers `q` occurs in a function.
#[verifier::loop_isolation(false)]
pub fn function_mentions(f: &Function, q: &IdentQuery) -> (r: bool)
    ensures
        r == function_uses(*f, q.pred()),
    decreases f,
{
    let mut i: usize = 0;
    while i < f.params.len()
        invariant
            i <= f.params@.len(),
            forall|j: int| 0 <= j < i ==> !pat_uses((#[trigger] f.params@[j]).pat, q.pred()),
        decreases f.params@.len() - i,
    {
        if pat_mentions(&f.params[i].pat, q) {
            assert(pat_uses(f.params@[i as int].pat, q.pred()));
            return true;
        }
        i = i + 1;
    }
    match &f.body {
        Some(b) => block_mentions(b, q),
        None => false,
    }
}

/// Whether an identifier that answers `q` occurs in a pattern.
#[verifier::loop_isolation(false)]
pub fn pat_mentions(x: &Pat, q: &IdentQuery) -> (r: bool)
    ensures
        r == pat_uses(*x, q.pred()),
    decreases x,
{
    match x {
        Pat::Ident(b) => q.matches_ident(&b.id),
        Pat::Array(a) => {
            let mut i: usize = 0;
            while i < a.elems.len()
                invariant
                    i <= a.elems@.len(),
                    forall|j: int| 0 <= j < i ==> !(#[trigger] a.elems@[j] matches Some(p) && pat_uses(p, q.pred())),
                decreases a.elems@.len() - i,
            {
                match &a.elems[i] {
                    Some(p) => {
                        if pat_mentions(p, q) {
                            assert(a.elems@[i as int] matches Some(p) && pat_uses(p, q.pred()));
                            return true;
                        }
                    },
                    None => {},
                }
                i = i + 1;
            }
            false
        },
        Pat::Rest(r) => rest_pat_mentions(r, q),
        Pat::Object(o) => {
            let mut i: usize = 0;
            while i < o.props.len()
                invariant
                    i <= o.props@.len(),
                    forall|j: int| 0 <= j < i ==> !object_pat_prop_uses(#[trigger] o.props@[j], q.pred()),
                decreases o.props@.len() - i,
            {
                if object_pat_prop_mentions(&o.props[i], q) {
                    assert(object_pat_prop_uses(o.props@[i as int], q.pred()));
                    return true;
                }
                i = i + 1;
            }
            false
        },
        Pat::Assign(a) => pat_mentions(&a.left, q) || expr_mentions(&a.right, q),
    }
}

/// Whether an identifier that answers `q` occurs in a rest pattern.
pub fn rest_pat_mentions(x: &RestPat, q: &IdentQuery) -> (r: bool)
    ensures
        r == rest_pat_uses(*x, q.pred()),
    decreases x,
{
    pat_mentions(&x.arg, q)
}

/// Whether an identifier that answers `q` occurs in an object pattern property.
pub fn object_pat_prop_mentions(x: &ObjectPatProp, q: &IdentQuery) -> (r: bool)
    ensures
        r == object_pat_prop_uses(*x, q.pred()),
    decreases x,
{
    match x {
        ObjectPatProp::KeyValue(kv) => prop_name_mentions(&kv.key, q) || pat_mentions(&kv.value, q),
        ObjectPatProp::Assign(a) => q.matches_ident(&a.key) || opt_expr_mentions(&a.value, q),
        ObjectPatProp::Rest(r) => rest_pat_mentions(r, q),
    }
}

/// Whether an identifier that answers `q` occurs in an optional expression.
pub fn opt_expr_mentions(x: &Option<Box<Expr>>, q: &IdentQuery) -> (r: bool)
    ensures
        r == opt_expr_uses(*x, q.pred()),
    decreases x,
{
    match x {
        None => false,
        Some(e) => expr_mentions(e, q),
    }
}

/// Whether an identifier that answers `q` occurs in a block.
#[verifier::loop_isolation(false)]
pub fn block_mentions(b: &BlockStmt, q: &IdentQuery) -> (r: bool)
    ensures
        r == block_uses(*b, q.pred()),
    decreases b,
{
    let mut i: usize = 0;
    while i < b.stmts.len()
        invariant
            i <= b.stmts@.len(),
            forall|j: int| 0 <= j < i ==> !stmt_uses(#[trigger] b.stmts@[j], q.pred()),
        decreases b.stmts@.len() - i,
    {
        if stmt_mentions(&b.stmts[i], q) {
            assert(stmt_uses(b.stmts@[i as int], q.pred()));
            return true;
        }
        i = i + 1;
    }
    false
}

/// Whether an identifier that answers `q` occurs in an optional block.
pub fn opt_block_mentions(b: &Option<BlockStmt>, q: &IdentQuery) -> (r: bool)
    ensures
        r == opt_block_uses(*b, q.pred()),
{
    match b {
        Some(x) => block_mentions(x, q),
        None => false,
    }
}

/// Whether an identifier that answers `q` occurs in a statement.
pub fn stmt_mentions(s: &Stmt, q: &IdentQuery) -> (r: bool)
    ensures
        r == stmt_uses(*s, q.pred()),
    decreases s,
{
    match s {
        Stmt::Block(b) => block_mentions(b, q),
        Stmt::Empty(_) => false,
        Stmt::Expr(x) => expr_mentions(&x.expr, q),
        Stmt::Return(x) => opt_expr_mentions(&x.arg, q),
        Stmt::If(x) => {
            if expr_mentions(&x.test, q) || stmt_mentions(&x.cons, q) {
                return true;
            }
            match &x.alt {
                Some(a) => stmt_mentions(a, q),
                None => false,
            }
        },
        Stmt::Decl(d) => decl_mentions(d, q),
    }
}

/// Whether an identifier that answers `q` occurs in a declaration.
#[verifier::loop_isolation(false)]
pub fn decl_mentions(d: &Decl, q: &IdentQuery) -> (r: bool)
    ensures
        r == decl_uses(*d, q.pred()),
    decreases d,
{
    match d {
        Decl::Fn(f) => q.matches_ident(&f.ident) || function_mentions(&f.function, q),
        Decl::Var(v) => {
            let mut i: usize = 0;
            while i < v.decls.len()
                invariant
                    i <= v.decls@.len(),
                    forall|j: int| 0 <= j < i ==> !var_declarator_uses(#[trigger] v.decls@[j], q.pred()),
                decreases v.decls@.len() - i,
            {
                let dc = &v.decls[i];
                if pat_mentions(&dc.name, q) || opt_expr_mentions(&dc.init, q) {
                    assert(var_declarator_uses(v.decls@[i as int], q.pred()));
                    return true;
                }
                i = i + 1;
            }
            false
        },
    }
}

} // verus!
