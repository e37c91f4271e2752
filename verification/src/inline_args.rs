//! Replacing the parameters of an IIFE by its arguments.

use vstd::prelude::*;

use crate::ast::{
    BinaryOp, BlockStmt, BlockStmtOrExpr, CallExpr, Expr, ExprOrSpread, ExprOrSuper, IdView, Ident, Param,
    Pat, Prop, PropName, PropOrSpread, Span, UnaryOp, spec_undefined,
};
use crate::equiv::expr_equiv;
use crate::fxmap::{
    InlineMap, inline_map_contents, usage_map_contents,
};
use crate::lit::Lit;
use crate::optimizer::{Optimizer, ProgramData};
use crate::subst::InlineTarget;
use crate::abstraction::{
    Frame, FrameView, abs_in_block, abs_in_block_or_expr, block_abs, block_or_expr_abs, iife_frame, stack_view,
};

verus! {

/// An argument of an IIFE that may be copied into its body: literals,
/// identifiers, and combinations of them that run no code of the program.
pub open spec fn spec_can_be_inlined_for_iife(e: Expr) -> bool
    decreases e,
{
    match e {
        Expr::Lit(_) => true,
        Expr::Ident(_) => true,
        Expr::Unary(u) => (u.op == UnaryOp::Void || u.op == UnaryOp::Bang) && spec_can_be_inlined_for_iife(*u.arg),
        Expr::Member(m) => !m.computed && (m.obj matches ExprOrSuper::Expr(o) && spec_can_be_inlined_for_iife(*o)),
        Expr::Bin(b) => (b.op == BinaryOp::Add || b.op == BinaryOp::Mul) && spec_can_be_inlined_for_iife(*b.left)
            && spec_can_be_inlined_for_iife(*b.right),
        Expr::Object(o) => forall|i: int| 0 <= i < o.props@.len() ==> prop_can_be_inlined(#[trigger] o.props@[i]),
        Expr::Arrow(a) => !a.is_async && !a.is_generator && (a.body matches BlockStmtOrExpr::Expr(b)
            && (forall|i: int| 0 <= i < a.params@.len() ==> (#[trigger] a.params@[i]).spec_is_ident())
            && spec_can_be_inlined_for_iife(*b)),
        _ => false,
    }
}

/// A property of an object literal that may be copied: a shorthand, or a
/// key-value or assignment property whose computed key and value may be.
pub open spec fn prop_can_be_inlined(p: PropOrSpread) -> bool
    decreases p,
{
    match p {
        PropOrSpread::Spread(_) => false,
        PropOrSpread::Prop(b) => match *b {
            Prop::Shorthand(_) => true,
            Prop::KeyValue(kv) => (kv.key matches PropName::Computed(k) ==> spec_can_be_inlined_for_iife(*k.expr))
                && spec_can_be_inlined_for_iife(*kv.value),
            Prop::Assign(a) => spec_can_be_inlined_for_iife(*a.value),
            Prop::Method(_) => false,
        },
    }
}

/// Methods related to IIFEs.
impl Optimizer {
    /// Whether an argument of an IIFE may be copied into its body.
    #[verifier::loop_isolation(false)]
    pub fn can_be_inlined_for_iife(&self, arg: &Expr) -> (r: bool)
        ensures
            r == spec_can_be_inlined_for_iife(*arg),
        decreases arg,
    {
        match arg {
            Expr::Lit(_) => true,
            Expr::Unary(u) => match u.op {
                UnaryOp::Void | UnaryOp::Bang => self.can_be_inlined_for_iife(&u.arg),
                _ => false,
            },
            Expr::Ident(_) => true,
            Expr::Member(m) => {
                if m.computed {
                    return false;
                }
                match &m.obj {
                    ExprOrSuper::Expr(o) => self.can_be_inlined_for_iife(o),
                    ExprOrSuper::Super(_) => false,
                }
            },
            Expr::Bin(b) => match b.op {
                BinaryOp::Add | BinaryOp::Mul => self.can_be_inlined_for_iife(&b.left)
                    && self.can_be_inlined_for_iife(&b.right),
                _ => false,
            },
            Expr::Object(o) => {
                let mut i: usize = 0;
                while i < o.props.len()
                    invariant
                        i <= o.props@.len(),
                        forall|j: int| 0 <= j < i ==> prop_can_be_inlined(#[trigger] o.props@[j]),
                    decreases o.props@.len() - i,
                {
                    let ok = match &o.props[i] {
                        PropOrSpread::Spread(_) => false,
                        PropOrSpread::Prop(p) => match &**p {
                            Prop::Shorthand(_) => true,
                            Prop::KeyValue(kv) => {
                                let key_ok = match &kv.key {
                                    PropName::Computed(k) => self.can_be_inlined_for_iife(&k.expr),
                                    _ => true,
                                };
                                key_ok && self.can_be_inlined_for_iife(&kv.value)
                            },
                            Prop::Assign(a) => self.can_be_inlined_for_iife(&a.value),
                            Prop::Method(_) => false,
                        },
                    };
                    if !ok {
                        assert(!prop_can_be_inlined(o.props@[i as int]));
                        return false;
                    }
                    i = i + 1;
                }
                true
            },
            Expr::Arrow(a) => {
                if a.is_async || a.is_generator {
                    return false;
                }
                match &a.body {
                    BlockStmtOrExpr::Expr(b) => {
                        let mut i: usize = 0;
                        while i < a.params.len()
                            invariant
                                i <= a.params@.len(),
                                forall|j: int| 0 <= j < i ==> (#[trigger] a.params@[j]).spec_is_ident(),
                            decreases a.params@.len() - i,
                        {
                            if !a.params[i].is_ident() {
                                return false;
                            }
                            i = i + 1;
                        }
                        self.can_be_inlined_for_iife(b)
                    },
                    BlockStmtOrExpr::BlockStmt(_) => false,
                }
            },
            _ => false,
        }
    }
}

/// The binding may be replaced by its argument as far as the analysis is
/// concerned: it is never reassigned and read exactly once, or the analysis
/// knows nothing of it.
pub open spec fn usage_allows(data: Option<ProgramData>, id: IdView) -> bool {
    match data {
        Some(d) => usage_map_contents(d.vars).contains_key(id) ==> (!usage_map_contents(d.vars)[id].reassigned
            && usage_map_contents(d.vars)[id].ref_count == 1),
        None => true,
    }
}

/// The expression that stands for the `i`-th parameter of an IIFE, if any:
/// its argument where that is an identifier or a literal that may be copied,
/// `void 0` where there is no argument; none for a parameter that is not a
/// plain identifier or that the analysis rules out.
pub open spec fn param_inline_value(pats: Seq<Pat>, args: Seq<ExprOrSpread>, data: Option<ProgramData>, i: int) -> Option<Expr> {
    match pats[i] {
        Pat::Ident(b) => if !usage_allows(data, b.id.spec_id()) {
            None
        } else if i < args.len() {
            let a = *args[i].expr;
            if (a is Ident || a is Lit) && spec_can_be_inlined_for_iife(a) {
                Some(a)
            } else {
                None
            }
        } else {
            Some(spec_undefined(b.id.span))
        },
        _ => None,
    }
}

/// The expression that stands for the binding `id` after the first `k`
/// parameters were looked at: a later parameter of the same name wins.
pub open spec fn iife_arg_binding(
    pats: Seq<Pat>,
    args: Seq<ExprOrSpread>,
    data: Option<ProgramData>,
    k: int,
    id: IdView,
) -> Option<Expr>
    decreases k,
{
    if k <= 0 {
        None
    } else if pats[k - 1] matches Pat::Ident(b) && b.id.spec_id() == id && param_inline_value(pats, args, data, k - 1) is Some {
        param_inline_value(pats, args, data, k - 1)
    } else {
        iife_arg_binding(pats, args, data, k - 1, id)
    }
}

/// The expressions that stand for the parameters of an IIFE.
pub open spec fn iife_arg_map(pats: Seq<Pat>, args: Seq<ExprOrSpread>, data: Option<ProgramData>) -> Map<IdView, Expr> {
    Map::new(
        |id: IdView| iife_arg_binding(pats, args, data, pats.len() as int, id) is Some,
        |id: IdView| iife_arg_binding(pats, args, data, pats.len() as int, id)->Some_0,
    )
}

/// The parameter patterns of an arrow or function expression.
pub open spec fn callee_pats(c: Expr) -> Seq<Pat> {
    match c {
        Expr::Arrow(a) => a.params@,
        Expr::Fn(f) => f.function.params@.map_values(|p: Param| p.pat),
        _ => Seq::empty(),
    }
}

/// A function expression called here has a body.
pub open spec fn callee_has_body(c: ExprOrSuper) -> bool {
    c matches ExprOrSuper::Expr(f) && *f matches Expr::Fn(g) ==> g.function.body is Some
}

/// `d` is the function-like `c` with the parameters of the stack `fs` put in
/// place of their values in its body.
pub open spec fn callee_body_abs(c: Expr, fs: Seq<FrameView>, data: Option<ProgramData>, d: Expr) -> bool {
    match c {
        Expr::Arrow(a) => d matches Expr::Arrow(b) && b.span == a.span && b.params == a.params
            && b.is_async == a.is_async && b.is_generator == a.is_generator && block_or_expr_abs(a.body, fs, data, b.body),
        Expr::Fn(f) => d matches Expr::Fn(g) && g.ident == f.ident && g.function.params == f.function.params
            && g.function.span == f.function.span && g.function.is_async == f.function.is_async
            && g.function.is_generator == f.function.is_generator && (f.function.body matches Some(x)
            && g.function.body matches Some(y) && block_abs(x, fs, data, y)),
        _ => d == c,
    }
}

/// `inline_args_of_iife` rewrites this call: inlining is on, no argument is
/// spread, and the callee is an arrow or function expression.
pub open spec fn inline_args_applies(o: Optimizer, e: CallExpr) -> bool {
    &&& o.options.inline != 0
    &&& forall|i: int| 0 <= i < e.args@.len() ==> (#[trigger] e.args@[i]).spread is None
    &&& e.callee matches ExprOrSuper::Expr(c) && (*c is Arrow || *c is Fn)
}

/// `void 0` is equivalent to itself.
pub proof fn lemma_undefined_equiv(s: crate::ast::Span)
    ensures
        expr_equiv(spec_undefined(s), spec_undefined(s)),
{
    let e = spec_undefined(s);
    assert(expr_equiv(*e->Unary_0.arg, *e->Unary_0.arg));
}

/// The expression that the first `k` parameters of an IIFE bind a name to
/// is an identifier, a literal or `void 0`, and the analysis allows the
/// binding.
pub proof fn lemma_binding_simple(pats: Seq<Pat>, args: Seq<ExprOrSpread>, data: Option<ProgramData>, k: int, id: IdView)
    requires
        iife_arg_binding(pats, args, data, k, id) is Some,
    ensures
        usage_allows(data, id),
        ({
            let v = iife_arg_binding(pats, args, data, k, id)->Some_0;
            v is Ident || v is Lit || exists|s: Span| v == spec_undefined(s)
        }),
    decreases k,
{
    if k > 0 {
        if pats[k - 1] is Ident && pats[k - 1]->Ident_0.id.spec_id() == id && param_inline_value(pats, args, data, k - 1) is Some {
            let b = pats[k - 1]->Ident_0;
            if k - 1 >= args.len() {
                assert(iife_arg_binding(pats, args, data, k, id)->Some_0 == spec_undefined(b.id.span));
            }
        } else {
            lemma_binding_simple(pats, args, data, k - 1, id);
        }
    }
}

/// The parameter patterns of an arrow or function expression, if the callee is one.
pub(crate) fn find_params(callee: &Expr) -> (r: Option<Vec<&Pat>>)
    ensures
        r is Some <==> (*callee is Arrow || *callee is Fn),
        r matches Some(v) ==> v@.len() == callee_pats(*callee).len()
            && forall|i: int| 0 <= i < v@.len() ==> *v@[i] == callee_pats(*callee)[i],
{
    match callee {
        Expr::Arrow(a) => {
            let mut v: Vec<&Pat> = Vec::new();
            let mut i: usize = 0;
            while i < a.params.len()
                invariant
                    i <= a.params@.len(),
                    v@.len() == i,
                    forall|j: int| 0 <= j < i ==> *v@[j] == a.params@[j],
                decreases a.params@.len() - i,
            {
                v.push(&a.params[i]);
                i = i + 1;
            }
            Some(v)
        },
        Expr::Fn(f) => {
            let mut v: Vec<&Pat> = Vec::new();
            let mut i: usize = 0;
            while i < f.function.params.len()
                invariant
                    i <= f.function.params@.len(),
                    v@.len() == i,
                    forall|j: int| 0 <= j < i ==> *v@[j] == f.function.params@[j].pat,
                decreases f.function.params@.len() - i,
            {
                v.push(&f.function.params[i].pat);
                i = i + 1;
            }
            Some(v)
        },
        _ => None,
    }
}

impl Optimizer {
    /// Replaces, in `n`, the bindings that `vars` holds by copies of their
    /// expressions, with inlining allowed; the optimizer's own map and context
    /// are as before afterwards.
    pub fn inline_vars_in_node<N: InlineTarget>(&mut self, n: &mut N, vars: InlineMap)
        ensures
            *final(self) == *old(self),
            old(n).substituted(inline_map_contents(vars), *final(n)),
    {
        let orig_ctx = self.ctx;
        self.ctx.inline_prevented = false;
        let mut orig_vars = vars;
        std::mem::swap(&mut self.state.vars_for_inlining, &mut orig_vars);
        n.replace_vars(&self.state.vars_for_inlining);
        self.state.vars_for_inlining = orig_vars;
        self.ctx = orig_ctx;
    }

    /// Puts the parameters of an IIFE in place of the values that its
    /// arguments pass, in its body: where an argument is an identifier or a
    /// literal, that identifier or literal becomes the parameter, and where an
    /// argument is missing, `void 0` does. Calls of function expressions in
    /// the body are treated the same way with their own parameters:
    ///
    /// `(function(x) { (function(y) { console.log(7); })(7); })(7);` becomes
    /// `(function(x) { (function(y) { console.log(y); })(x); })(7);`
    pub fn inline_args_of_iife(&mut self, e: &mut CallExpr)
        requires
            inline_args_applies(*old(self), *old(e)) ==> callee_has_body(old(e).callee),
        ensures
            *final(self) == *old(self),
            final(e).span == old(e).span,
            final(e).args == old(e).args,
            inline_args_applies(*old(self), *old(e)) ==> {
                let c = *old(e).callee->Expr_0;
                &&& final(e).callee is Expr
                &&& callee_body_abs(c, seq![iife_frame(c, old(e).args@, old(self).data)], old(self).data,
                    *final(e).callee->Expr_0)
            },
            !inline_args_applies(*old(self), *old(e)) ==> *final(e) == *old(e),
    {
        if self.options.inline == 0 {
            return;
        }
        let mut k: usize = 0;
        while k < e.args.len()
            invariant
                k <= e.args@.len(),
                forall|j: int| 0 <= j < k ==> (#[trigger] e.args@[j]).spread is None,
            decreases e.args@.len() - k,
        {
            if e.args[k].spread.is_some() {
                return;
            }
            k = k + 1;
        }
        let fr = match &e.callee {
            ExprOrSuper::Super(_) => {
                return;
            },
            ExprOrSuper::Expr(callee) => match &**callee {
                Expr::Arrow(_) | Expr::Fn(_) => self.build_frame(callee, &e.args),
                _ => {
                    return;
                },
            },
        };
        let ghost c0 = *e.callee->Expr_0;
        let ghost sv = seq![iife_frame(c0, e.args@, self.data)];
        let mut fs: Vec<Frame> = Vec::new();
        fs.push(fr);
        assert(stack_view(fs@) =~= sv);
        let o: &Optimizer = self;
        match &mut e.callee {
            ExprOrSuper::Super(_) => {},
            ExprOrSuper::Expr(callee) => match &mut **callee {
                Expr::Arrow(a) => abs_in_block_or_expr(&mut a.body, &mut fs, o),
                Expr::Fn(f) => match &mut f.function.body {
                    Some(b) => abs_in_block(b, &mut fs, o),
                    None => {},
                },
                _ => {},
            },
        }
    }
}

} // verus!
