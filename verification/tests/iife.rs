use iife_optimizer::ast::{
    ArrowExpr, AssignExpr, AssignOp, BinExpr, BinaryOp, BindingIdent, BlockStmt, BlockStmtOrExpr, CallExpr,
    CondExpr, Decl, Expr, ExprOrSpread, ExprOrSuper, ExprStmt, FnExpr, Function, Ident, KeyValueProp, MemberExpr,
    ObjectLit, Param, Pat, PatOrExpr, Prop, PropName, PropOrSpread, ReturnStmt, SeqExpr, Span, SpreadElement,
    Stmt, UnaryExpr, UnaryOp, VarDecl, VarDeclKind, VarDeclarator,
};
use iife_optimizer::equiv::clone_expr;
use iife_optimizer::idents::{expr_mentions, IdentQuery};
use iife_optimizer::lit::{Lit, Number, Str};
use iife_optimizer::optimizer::{CompressOptions, Ctx, Marks, Optimizer, OptimizerState, ProgramData, VarUsageInfo};

fn span(lo: u32) -> Span {
    Span { lo, hi: lo + 1, ctxt: 0 }
}

fn dummy() -> Span {
    Span { lo: 0, hi: 0, ctxt: 0 }
}

fn ident(name: &str) -> Ident {
    Ident { span: span(1), sym: name.to_string() }
}

fn id(name: &str) -> Expr {
    Expr::Ident(ident(name))
}

fn num(bits: u64) -> Expr {
    Expr::Lit(Lit::Num(Number { span: span(2), value_bits: bits }))
}

fn arg(e: Expr) -> ExprOrSpread {
    ExprOrSpread { spread: None, expr: Box::new(e) }
}

fn call(callee: Expr, args: Vec<Expr>) -> Expr {
    Expr::Call(CallExpr {
        span: span(10),
        callee: ExprOrSuper::Expr(Box::new(callee)),
        args: args.into_iter().map(arg).collect(),
    })
}

fn param(name: &str) -> Param {
    Param { span: span(3), pat: Pat::Ident(BindingIdent { id: ident(name) }) }
}

fn function(params: &[&str], stmts: Vec<Stmt>) -> Function {
    Function {
        params: params.iter().map(|p| param(p)).collect(),
        span: span(20),
        body: Some(BlockStmt { span: span(21), stmts }),
        is_generator: false,
        is_async: false,
    }
}

fn fn_expr(params: &[&str], stmts: Vec<Stmt>) -> Expr {
    Expr::Fn(FnExpr { ident: None, function: function(params, stmts) })
}

fn arrow(params: &[&str], body: BlockStmtOrExpr) -> Expr {
    Expr::Arrow(ArrowExpr {
        span: span(30),
        params: params.iter().map(|p| Pat::Ident(BindingIdent { id: ident(p) })).collect(),
        body,
        is_async: false,
        is_generator: false,
    })
}

fn expr_stmt(e: Expr) -> Stmt {
    Stmt::Expr(ExprStmt { span: span(4), expr: Box::new(e) })
}

fn ret(e: Option<Expr>) -> Stmt {
    Stmt::Return(ReturnStmt { span: span(5), arg: e.map(Box::new) })
}

fn var(name: &str, init: Option<Expr>) -> Stmt {
    Stmt::Decl(Decl::Var(VarDecl {
        span: span(6),
        kind: VarDeclKind::Var,
        declare: false,
        decls: vec![VarDeclarator {
            span: span(7),
            name: Pat::Ident(BindingIdent { id: ident(name) }),
            init: init.map(Box::new),
            definite: false,
        }],
    }))
}

fn member(obj: Expr, prop: &str) -> Expr {
    Expr::Member(MemberExpr {
        span: span(8),
        obj: ExprOrSuper::Expr(Box::new(obj)),
        prop: Box::new(id(prop)),
        computed: false,
    })
}

fn bin(op: BinaryOp, l: Expr, r: Expr) -> Expr {
    Expr::Bin(BinExpr { span: span(9), op, left: Box::new(l), right: Box::new(r) })
}

fn unary(op: UnaryOp, e: Expr) -> Expr {
    Expr::Unary(UnaryExpr { span: span(11), op, arg: Box::new(e) })
}

fn ctx() -> Ctx {
    Ctx {
        in_bang_arg: false,
        dont_use_negated_iife: false,
        inline_prevented: false,
        top_level: false,
        in_fn_like: true,
        in_call_arg: false,
        in_obj_of_non_computed_member: false,
        executed_multiple_time: false,
    }
}

fn optimizer() -> Optimizer {
    Optimizer {
        options: CompressOptions { negate_iife: true, inline: 1 },
        ctx: ctx(),
        state: OptimizerState { vars_for_inlining: fxhash::FxHashMap::default() },
        data: None,
        marks: Marks { non_top_level: 7 },
        changed: false,
        prepend_stmts: Vec::new(),
        noinline_positions: Vec::new(),
    }
}

fn marked() -> Span {
    Span { lo: 0, hi: 0, ctxt: 7 }
}

fn assign(name: &str, value: Expr) -> Box<Expr> {
    Box::new(Expr::Assign(AssignExpr {
        span: marked(),
        op: AssignOp::Assign,
        left: PatOrExpr::Pat(Box::new(Pat::Ident(BindingIdent { id: ident(name) }))),
        right: Box::new(value),
    }))
}

fn undefined_at(s: Span) -> Expr {
    Expr::Unary(UnaryExpr {
        span: s,
        op: UnaryOp::Void,
        arg: Box::new(Expr::Lit(Lit::Num(Number { span: s, value_bits: 0 }))),
    })
}

fn negated(e: Expr) -> Expr {
    Expr::Unary(UnaryExpr { span: dummy(), op: UnaryOp::Bang, arg: Box::new(e) })
}

fn cond(test: Expr, cons: Expr, alt: Expr) -> CondExpr {
    CondExpr { span: span(12), test: Box::new(test), cons: Box::new(cons), alt: Box::new(alt) }
}

fn body_of(e: &Expr) -> &BlockStmt {
    match e {
        Expr::Call(c) => match &c.callee {
            ExprOrSuper::Expr(f) => match &**f {
                Expr::Fn(f) => f.function.body.as_ref().unwrap(),
                _ => panic!("not a function"),
            },
            _ => panic!("super"),
        },
        _ => panic!("not a call"),
    }
}

#[test]
fn negate_iife_ignoring_ret_negates_fn_call() {
    let mut o = optimizer();
    let mut e = call(fn_expr(&[], vec![]), vec![]);
    o.negate_iife_ignoring_ret(&mut e);
    assert_eq!(e, negated(call(fn_expr(&[], vec![]), vec![])));
}

#[test]
fn negate_iife_ignoring_ret_respects_options() {
    let mut o = optimizer();
    o.options.negate_iife = false;
    let mut e = call(fn_expr(&[], vec![]), vec![]);
    o.negate_iife_ignoring_ret(&mut e);
    assert_eq!(e, call(fn_expr(&[], vec![]), vec![]));

    let mut o = optimizer();
    o.ctx.dont_use_negated_iife = true;
    o.negate_iife_ignoring_ret(&mut e);
    assert_eq!(e, call(fn_expr(&[], vec![]), vec![]));

    let mut o = optimizer();
    o.ctx.in_bang_arg = true;
    o.negate_iife_ignoring_ret(&mut e);
    assert_eq!(e, call(fn_expr(&[], vec![]), vec![]));
}

#[test]
fn negate_iife_ignoring_ret_only_function_expressions() {
    let mut o = optimizer();
    let a = arrow(&[], BlockStmtOrExpr::Expr(Box::new(num(1))));
    let mut e = call(a, vec![]);
    o.negate_iife_ignoring_ret(&mut e);
    assert!(matches!(e, Expr::Call(_)));
}

#[test]
fn negate_iife_ignoring_ret_once() {
    let mut o = optimizer();
    let mut e = call(fn_expr(&[], vec![]), vec![]);
    o.negate_iife_ignoring_ret(&mut e);
    o.negate_iife_ignoring_ret(&mut e);
    assert_eq!(e, negated(call(fn_expr(&[], vec![]), vec![])));
}

#[test]
fn negate_iife_in_cond_swaps_branches() {
    let mut o = optimizer();
    let mut e = Expr::Cond(cond(call(fn_expr(&[], vec![]), vec![]), id("foo"), id("bar")));
    assert!(o.negate_iife_in_cond(&mut e));
    assert_eq!(e, Expr::Cond(cond(negated(call(fn_expr(&[], vec![]), vec![])), id("bar"), id("foo"))));
    // the negated test is not an IIFE any more
    assert!(!o.negate_iife_in_cond(&mut e));
}

#[test]
fn negate_iife_in_cond_other_tests() {
    let mut o = optimizer();
    let mut e = Expr::Cond(cond(call(id("f"), vec![]), id("foo"), id("bar")));
    assert!(!o.negate_iife_in_cond(&mut e));
    assert_eq!(e, Expr::Cond(cond(call(id("f"), vec![]), id("foo"), id("bar"))));
    let mut e = id("x");
    assert!(!o.negate_iife_in_cond(&mut e));
    assert_eq!(e, id("x"));
}

#[test]
fn restore_negated_iife_undoes_negation() {
    let mut o = optimizer();
    let mut e = Expr::Cond(cond(call(fn_expr(&["a"], vec![]), vec![num(1)]), id("foo"), id("bar")));
    assert!(o.negate_iife_in_cond(&mut e));
    o.ctx.dont_use_negated_iife = true;
    match &mut e {
        Expr::Cond(c) => o.restore_negated_iife(c),
        _ => panic!("not a conditional"),
    }
    assert_eq!(e, Expr::Cond(cond(call(fn_expr(&["a"], vec![]), vec![num(1)]), id("foo"), id("bar"))));
}

#[test]
fn restore_negated_iife_needs_the_flag() {
    let mut o = optimizer();
    let mut c = cond(negated(call(fn_expr(&[], vec![]), vec![])), id("bar"), id("foo"));
    o.restore_negated_iife(&mut c);
    assert_eq!(c, cond(negated(call(fn_expr(&[], vec![]), vec![])), id("bar"), id("foo")));
    o.ctx.dont_use_negated_iife = true;
    let mut c = cond(negated(call(id("f"), vec![])), id("bar"), id("foo"));
    o.restore_negated_iife(&mut c);
    assert_eq!(c, cond(negated(call(id("f"), vec![])), id("bar"), id("foo")));
}

#[test]
fn can_be_inlined_for_iife_cases() {
    let o = optimizer();
    assert!(o.can_be_inlined_for_iife(&num(1)));
    assert!(o.can_be_inlined_for_iife(&id("x")));
    assert!(o.can_be_inlined_for_iife(&unary(UnaryOp::Bang, id("x"))));
    assert!(o.can_be_inlined_for_iife(&unary(UnaryOp::Void, num(0))));
    assert!(!o.can_be_inlined_for_iife(&unary(UnaryOp::Minus, id("x"))));
    assert!(o.can_be_inlined_for_iife(&member(id("a"), "b")));
    let computed = Expr::Member(MemberExpr {
        span: span(8),
        obj: ExprOrSuper::Expr(Box::new(id("a"))),
        prop: Box::new(id("b")),
        computed: true,
    });
    assert!(!o.can_be_inlined_for_iife(&computed));
    assert!(o.can_be_inlined_for_iife(&bin(BinaryOp::Add, id("a"), num(1))));
    assert!(o.can_be_inlined_for_iife(&bin(BinaryOp::Mul, id("a"), num(1))));
    assert!(!o.can_be_inlined_for_iife(&bin(BinaryOp::Sub, id("a"), num(1))));
    assert!(!o.can_be_inlined_for_iife(&call(id("f"), vec![])));
    let object = Expr::Object(ObjectLit {
        span: span(13),
        props: vec![
            PropOrSpread::Prop(Box::new(Prop::Shorthand(ident("a")))),
            PropOrSpread::Prop(Box::new(Prop::KeyValue(KeyValueProp {
                key: PropName::Str(Str { span: span(14), value: "b".to_string(), has_escape: false }),
                value: Box::new(num(1)),
            }))),
        ],
    });
    assert!(o.can_be_inlined_for_iife(&object));
    let spread = Expr::Object(ObjectLit {
        span: span(13),
        props: vec![PropOrSpread::Spread(SpreadElement { dot3_token: span(15), expr: Box::new(id("a")) })],
    });
    assert!(!o.can_be_inlined_for_iife(&spread));
    assert!(o.can_be_inlined_for_iife(&arrow(&["x"], BlockStmtOrExpr::Expr(Box::new(id("x"))))));
    let block_arrow = arrow(&["x"], BlockStmtOrExpr::BlockStmt(BlockStmt { span: span(16), stmts: vec![] }));
    assert!(!o.can_be_inlined_for_iife(&block_arrow));
    let mut async_arrow = arrow(&[], BlockStmtOrExpr::Expr(Box::new(num(1))));
    if let Expr::Arrow(a) = &mut async_arrow {
        a.is_async = true;
    }
    assert!(!o.can_be_inlined_for_iife(&async_arrow));
}

#[test]
fn inline_args_of_iife_doc_example() {
    // (function(x) { (function(y) { console.log(7); })(7); })(7)
    //   => (function(x) { (function(y) { console.log(y); })(x); })(7)
    let mut o = optimizer();
    let log = |e: Expr| expr_stmt(call(member(id("console"), "log"), vec![e]));
    let inner = |body: Expr, a: Expr| expr_stmt(call(fn_expr(&["y"], vec![log(body)]), vec![a]));
    let mut e = call(fn_expr(&["x"], vec![inner(num(7), num(7))]), vec![num(7)]);
    if let Expr::Call(c) = &mut e {
        o.inline_args_of_iife(c);
    }
    let expected = call(fn_expr(&["x"], vec![inner(id("y"), id("x"))]), vec![num(7)]);
    assert_eq!(e, expected);
    assert!(!o.changed);
}

#[test]
fn inline_args_of_iife_replaces_argument_by_parameter() {
    // (function(y) { console.log(x); })(x)  =>  the body logs y
    let mut o = optimizer();
    let log = |e: Expr| expr_stmt(call(member(id("console"), "log"), vec![e]));
    let mut e = call(fn_expr(&["y"], vec![log(id("x"))]), vec![id("x")]);
    if let Expr::Call(c) = &mut e {
        o.inline_args_of_iife(c);
    }
    assert_eq!(body_of(&e).stmts, vec![log(id("y"))]);
    // the arguments stay
    if let Expr::Call(c) = &e {
        assert_eq!(c.args, vec![arg(id("x"))]);
    }
}

#[test]
fn inline_args_of_iife_missing_argument_is_undefined() {
    // (function(y) { f(void 0); })()  =>  the body calls f(y)
    let mut o = optimizer();
    let mut e = call(fn_expr(&["y"], vec![expr_stmt(call(id("f"), vec![undefined_at(span(50))]))]), vec![]);
    if let Expr::Call(c) = &mut e {
        o.inline_args_of_iife(c);
    }
    assert_eq!(body_of(&e).stmts, vec![expr_stmt(call(id("f"), vec![id("y")]))]);
}

#[test]
fn inline_args_of_iife_arrow_body() {
    let mut o = optimizer();
    let mut e = call(arrow(&["a"], BlockStmtOrExpr::Expr(Box::new(bin(BinaryOp::Add, num(5), num(1))))), vec![num(5)]);
    if let Expr::Call(c) = &mut e {
        o.inline_args_of_iife(c);
    }
    let expected = call(arrow(&["a"], BlockStmtOrExpr::Expr(Box::new(bin(BinaryOp::Add, id("a"), num(1))))), vec![num(5)]);
    assert_eq!(e, expected);
}

#[test]
fn inline_args_of_iife_leaves_targets_and_property_names() {
    // (function(y) { x = x; o.x; })(x)  =>  (function(y) { x = y; o.x; })(x)
    let mut o = optimizer();
    let assign = |l: Expr, r: Expr| {
        expr_stmt(Expr::Assign(AssignExpr {
            span: span(17),
            op: AssignOp::Assign,
            left: PatOrExpr::Expr(Box::new(l)),
            right: Box::new(r),
        }))
    };
    let mut e = call(fn_expr(&["y"], vec![assign(id("x"), id("x")), expr_stmt(member(id("o"), "x"))]), vec![id("x")]);
    if let Expr::Call(c) = &mut e {
        o.inline_args_of_iife(c);
    }
    assert_eq!(body_of(&e).stmts, vec![assign(id("x"), id("y")), expr_stmt(member(id("o"), "x"))]);
}

#[test]
fn inline_args_of_iife_respects_usage() {
    let mut o = optimizer();
    let mut vars = fxhash::FxHashMap::default();
    vars.insert(("y".to_string(), 0u32), VarUsageInfo { reassigned: true, ref_count: 1 });
    o.data = Some(ProgramData { vars });
    let unchanged = call(fn_expr(&["y"], vec![expr_stmt(call(id("f"), vec![id("x")]))]), vec![id("x")]);
    let mut e = call(fn_expr(&["y"], vec![expr_stmt(call(id("f"), vec![id("x")]))]), vec![id("x")]);
    if let Expr::Call(c) = &mut e {
        o.inline_args_of_iife(c);
    }
    assert_eq!(e, unchanged);

    let mut vars = fxhash::FxHashMap::default();
    vars.insert(("y".to_string(), 0u32), VarUsageInfo { reassigned: false, ref_count: 2 });
    o.data = Some(ProgramData { vars });
    if let Expr::Call(c) = &mut e {
        o.inline_args_of_iife(c);
    }
    assert_eq!(e, unchanged);

    let mut vars = fxhash::FxHashMap::default();
    vars.insert(("y".to_string(), 0u32), VarUsageInfo { reassigned: false, ref_count: 1 });
    o.data = Some(ProgramData { vars });
    if let Expr::Call(c) = &mut e {
        o.inline_args_of_iife(c);
    }
    assert_eq!(body_of(&e).stmts, vec![expr_stmt(call(id("f"), vec![id("y")]))]);
}

#[test]
fn inline_args_of_iife_only_simple_arguments() {
    let mut o = optimizer();
    let unchanged = call(fn_expr(&["y"], vec![expr_stmt(member(id("a"), "b"))]), vec![member(id("a"), "b")]);
    let mut e = call(fn_expr(&["y"], vec![expr_stmt(member(id("a"), "b"))]), vec![member(id("a"), "b")]);
    if let Expr::Call(c) = &mut e {
        o.inline_args_of_iife(c);
    }
    assert_eq!(e, unchanged);
}

#[test]
fn inline_args_of_iife_spread_or_off() {
    let mut o = optimizer();
    let mut e = call(fn_expr(&["y"], vec![expr_stmt(id("x"))]), vec![id("x")]);
    if let Expr::Call(c) = &mut e {
        c.args[0].spread = Some(span(40));
        o.inline_args_of_iife(c);
    }
    assert_eq!(body_of(&e).stmts, vec![expr_stmt(id("x"))]);
    let mut o = optimizer();
    o.options.inline = 0;
    let mut e = call(fn_expr(&["y"], vec![expr_stmt(id("x"))]), vec![id("x")]);
    if let Expr::Call(c) = &mut e {
        o.inline_args_of_iife(c);
    }
    assert_eq!(body_of(&e).stmts, vec![expr_stmt(id("x"))]);
}

#[test]
fn inline_vars_in_node_replaces_and_restores() {
    let mut o = optimizer();
    o.ctx.inline_prevented = true;
    let mut vars = fxhash::FxHashMap::default();
    vars.insert(("a".to_string(), 0u32), Box::new(num(3)));
    let mut e = bin(BinaryOp::Add, id("a"), member(id("b"), "a"));
    o.inline_vars_in_node(&mut e, vars);
    // a non-computed property name is not a reference
    assert_eq!(e, bin(BinaryOp::Add, num(3), member(id("b"), "a")));
    assert!(o.ctx.inline_prevented);
    assert!(o.state.vars_for_inlining.is_empty());
}

#[test]
fn inline_vars_in_node_leaves_assignment_targets() {
    let mut o = optimizer();
    let mut vars = fxhash::FxHashMap::default();
    vars.insert(("a".to_string(), 0u32), Box::new(num(3)));
    let assign_expr = |left: Expr, right: Expr| {
        Expr::Assign(AssignExpr {
            span: span(17),
            op: AssignOp::Assign,
            left: PatOrExpr::Expr(Box::new(left)),
            right: Box::new(right),
        })
    };
    let mut e = assign_expr(id("a"), id("a"));
    o.inline_vars_in_node(&mut e, vars);
    assert_eq!(e, assign_expr(id("a"), num(3)));
}

#[test]
fn invoke_iife_returning_object() {
    // (function () { return {}; })().x  =>  ({}).x
    let mut o = optimizer();
    let object = || Expr::Object(ObjectLit { span: span(18), props: vec![] });
    let mut e = call(fn_expr(&[], vec![ret(Some(object()))]), vec![]);
    o.invoke_iife(&mut e);
    assert_eq!(e, Expr::Sequence(SeqExpr { span: dummy(), exprs: vec![Box::new(object())] }));
    assert!(o.changed);
    assert!(o.prepend_stmts.is_empty());
}

#[test]
fn invoke_iife_arrow_with_expression_body() {
    // ((a) => a + 1)(2)  =>  (0, a = 2, a + 1) with `var a` before
    let mut o = optimizer();
    let mut e = call(arrow(&["a"], BlockStmtOrExpr::Expr(Box::new(bin(BinaryOp::Add, id("a"), num(1))))), vec![num(2)]);
    o.invoke_iife(&mut e);
    let zero = Expr::Lit(Lit::Num(Number { span: dummy(), value_bits: 0 }));
    assert_eq!(
        e,
        Expr::Sequence(SeqExpr {
            span: dummy(),
            exprs: vec![Box::new(zero), assign("a", num(2)), Box::new(bin(BinaryOp::Add, id("a"), num(1)))],
        })
    );
    assert!(o.changed);
    assert_eq!(
        o.prepend_stmts,
        vec![Stmt::Decl(Decl::Var(VarDecl {
            span: dummy(),
            kind: VarDeclKind::Var,
            declare: false,
            decls: vec![VarDeclarator {
                span: marked(),
                name: Pat::Ident(BindingIdent { id: ident("a") }),
                init: None,
                definite: false,
            }],
        }))]
    );
}

#[test]
fn invoke_iife_number_body_in_member_object() {
    let mut o = optimizer();
    o.ctx.in_obj_of_non_computed_member = true;
    let unchanged = call(arrow(&[], BlockStmtOrExpr::Expr(Box::new(num(1)))), vec![]);
    let mut e = call(arrow(&[], BlockStmtOrExpr::Expr(Box::new(num(1)))), vec![]);
    o.invoke_iife(&mut e);
    assert_eq!(e, unchanged);
    assert!(!o.changed);
}

#[test]
fn invoke_iife_empty_function_is_undefined() {
    let mut o = optimizer();
    let mut e = call(fn_expr(&[], vec![]), vec![]);
    o.invoke_iife(&mut e);
    assert_eq!(e, undefined_at(span(20)));
    assert!(!o.changed);
    assert!(o.prepend_stmts.is_empty());
}

#[test]
fn invoke_iife_empty_function_keeps_arguments() {
    // `(function(){})(f())` becomes `void f()`: the argument is still evaluated
    let mut o = optimizer();
    let mut e = call(fn_expr(&[], vec![]), vec![call(id("f"), vec![])]);
    o.invoke_iife(&mut e);
    assert_eq!(e, Expr::Sequence(SeqExpr { span: dummy(), exprs: vec![Box::new(unary_void_dummy(call(id("f"), vec![])))] }));
    assert!(o.changed);
    assert!(o.prepend_stmts.is_empty());
}

#[test]
fn invoke_iife_leaves_recursive_function() {
    let mut o = optimizer();
    let named = || {
        Expr::Fn(FnExpr {
            ident: Some(ident("f")),
            function: function(&[], vec![expr_stmt(call(id("f"), vec![]))]),
        })
    };
    let mut e = call(named(), vec![]);
    o.invoke_iife(&mut e);
    assert_eq!(e, call(named(), vec![]));
    assert!(!o.changed);
}

#[test]
fn invoke_iife_leaves_arguments_users() {
    let mut o = optimizer();
    let mut e = call(fn_expr(&[], vec![ret(Some(id("arguments")))]), vec![]);
    o.invoke_iife(&mut e);
    assert_eq!(e, call(fn_expr(&[], vec![ret(Some(id("arguments")))]), vec![]));
}

#[test]
fn invoke_iife_respects_noinline_and_options() {
    let mut o = optimizer();
    o.noinline_positions.push(10);
    let mut e = call(fn_expr(&[], vec![ret(Some(num(1)))]), vec![]);
    o.invoke_iife(&mut e);
    assert_eq!(e, call(fn_expr(&[], vec![ret(Some(num(1)))]), vec![]));

    let mut o = optimizer();
    o.options.inline = 0;
    o.invoke_iife(&mut e);
    assert_eq!(e, call(fn_expr(&[], vec![ret(Some(num(1)))]), vec![]));

    let mut o = optimizer();
    o.ctx.inline_prevented = true;
    o.invoke_iife(&mut e);
    assert_eq!(e, call(fn_expr(&[], vec![ret(Some(num(1)))]), vec![]));
}

#[test]
fn invoke_iife_top_level_declarations_stay() {
    let mut o = optimizer();
    o.ctx.top_level = true;
    let body = || vec![var("x", Some(num(1))), ret(Some(id("x")))];
    let mut e = call(fn_expr(&[], body()), vec![]);
    o.invoke_iife(&mut e);
    assert_eq!(e, call(fn_expr(&[], body()), vec![]));
}

#[test]
fn invoke_iife_callable_argument() {
    let mut o = optimizer();
    let mut e = call(fn_expr(&["a"], vec![ret(Some(num(1)))]), vec![fn_expr(&[], vec![])]);
    o.invoke_iife(&mut e);
    assert_eq!(e, call(fn_expr(&["a"], vec![ret(Some(num(1)))]), vec![fn_expr(&[], vec![])]));
}

#[test]
fn inline_fn_like_declares_and_assigns() {
    // (function(a) { var x = 1; return x; })(5)  =>  (a = 5, x = 1, x) with `var a; var x;` before
    let mut o = optimizer();
    let params = vec![ident("a")];
    let mut body = BlockStmt { span: span(21), stmts: vec![var("x", Some(num(1))), ret(Some(id("x")))] };
    let mut args = vec![arg(num(5))];
    let r = o.inline_fn_like(&params, &mut body, &mut args).unwrap();
    assert_eq!(
        r,
        Expr::Sequence(SeqExpr { span: dummy(), exprs: vec![assign("a", num(5)), assign("x", num(1)), Box::new(id("x"))] })
    );
    assert!(body.stmts.is_empty());
    assert_eq!(args, vec![ExprOrSpread { spread: None, expr: Box::new(Expr::Invalid(iife_optimizer::ast::Invalid { span: dummy() })) }]);
    assert_eq!(o.prepend_stmts.len(), 2);
    assert_eq!(o.prepend_stmts[1], var("x", None));
    assert!(o.changed);
}

#[test]
fn inline_fn_like_void_of_last_expression() {
    // (function(a) { b; })(1, 2)  =>  (a = 1, 2, void b)
    let mut o = optimizer();
    let params = vec![ident("a")];
    let mut body = BlockStmt { span: span(21), stmts: vec![expr_stmt(id("b"))] };
    let mut args = vec![arg(num(1)), arg(num(2))];
    let r = o.inline_fn_like(&params, &mut body, &mut args).unwrap();
    assert_eq!(
        r,
        Expr::Sequence(SeqExpr {
            span: dummy(),
            exprs: vec![assign("a", num(1)), Box::new(num(2)), Box::new(unary_void_dummy(id("b")))],
        })
    );
}

fn unary_void_dummy(e: Expr) -> Expr {
    Expr::Unary(UnaryExpr { span: dummy(), op: UnaryOp::Void, arg: Box::new(e) })
}

#[test]
fn inline_fn_like_refuses() {
    let mut o = optimizer();
    let params = vec![ident("a")];
    // a call that mentions a parameter
    let mut body = BlockStmt { span: span(21), stmts: vec![expr_stmt(call(id("f"), vec![id("a")]))] };
    let mut args = vec![arg(num(1))];
    assert!(o.inline_fn_like(&params, &mut body, &mut args).is_none());
    assert_eq!(args, vec![arg(num(1))]);
    assert!(!o.changed);
    // a declaration in code that runs more than once
    o.ctx.executed_multiple_time = true;
    let mut body = BlockStmt { span: span(21), stmts: vec![var("x", None)] };
    assert!(o.inline_fn_like(&params, &mut body, &mut args).is_none());
}

#[test]
fn inline_fn_like_nothing_is_undefined() {
    let mut o = optimizer();
    let mut body = BlockStmt { span: span(21), stmts: vec![var("x", None)] };
    let mut args = vec![];
    let r = o.inline_fn_like(&[], &mut body, &mut args).unwrap();
    assert_eq!(r, undefined_at(span(21)));
    assert_eq!(o.prepend_stmts, vec![var("x", None)]);
}

#[test]
fn clone_expr_is_equal() {
    let e = call(fn_expr(&["a"], vec![var("x", Some(num(1))), ret(Some(bin(BinaryOp::Add, id("a"), id("x"))))]), vec![num(3)]);
    assert_eq!(clone_expr(&e), e);
}

#[test]
fn expr_mentions_finds_identifiers() {
    let e = call(member(id("console"), "log"), vec![id("y")]);
    assert!(expr_mentions(&e, &IdentQuery::Id(("y".to_string(), 0))));
    assert!(expr_mentions(&e, &IdentQuery::Sym("console".to_string())));
    assert!(!expr_mentions(&e, &IdentQuery::Sym("log".to_string())));
    assert!(!expr_mentions(&e, &IdentQuery::Id(("y".to_string(), 1))));
}

#[test]
fn undefined_is_void_zero() {
    assert_eq!(*iife_optimizer::ast::undefined(span(3)), undefined_at(span(3)));
}


#[test]
fn invoke_iife_leaves_non_calls() {
    let mut o = optimizer();
    let mut e = bin(BinaryOp::Add, id("a"), num(1));
    o.invoke_iife(&mut e);
    assert_eq!(e, bin(BinaryOp::Add, id("a"), num(1)));
    assert!(!o.changed);
}

#[test]
fn invoke_iife_inline_off_dummy_callee() {
    // with inlining off, a callee that the optimizer made itself is still inlined
    let mut o = optimizer();
    o.options.inline = 0;
    let mut f = function(&[], vec![ret(Some(num(1)))]);
    f.span = dummy();
    let mut e = call(Expr::Fn(FnExpr { ident: None, function: f }), vec![]);
    o.invoke_iife(&mut e);
    assert_eq!(e, Expr::Sequence(SeqExpr { span: dummy(), exprs: vec![Box::new(num(1))] }));
}

#[test]
fn invoke_iife_async_function_without_body() {
    let mut o = optimizer();
    let mut f = function(&[], vec![]);
    f.body = None;
    f.is_async = true;
    let make = |f: Function| call(Expr::Fn(FnExpr { ident: None, function: f }), vec![]);
    let mut e = make(f);
    o.invoke_iife(&mut e);
    let mut g = function(&[], vec![]);
    g.body = None;
    g.is_async = true;
    assert_eq!(e, make(g));
}
