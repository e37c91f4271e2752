//! The JavaScript syntax tree that the rewrites read and build.

use vstd::prelude::*;

use crate::lit::{Lit, Number, Str};

verus! {

/// Where a node stands in the source (byte offsets `lo` and `hi`) and its
/// syntax context `ctxt`, which tells apart bindings of the same name.
#[derive(Clone, Copy, Debug, PartialEq, Eq)]
pub struct Span {
    pub lo: u32,
    pub hi: u32,
    pub ctxt: u32,
}

/// The span of a node that the source does not hold.
pub open spec fn spec_dummy_sp() -> Span {
    Span { lo: 0, hi: 0, ctxt: 0 }
}

/// The span of a node that the source does not hold.
#[verifier::when_used_as_spec(spec_dummy_sp)]
pub fn dummy_sp() -> (sp: Span)
    ensures
        sp == spec_dummy_sp(),
{
    Span { lo: 0, hi: 0, ctxt: 0 }
}

impl Span {
    /// A span is a dummy when it covers no source text at offset zero,
    /// whatever its syntax context.
    pub open spec fn spec_is_dummy(&self) -> bool {
        self.lo == 0 && self.hi == 0
    }

    /// Whether the span stands for no source text.
    #[verifier::when_used_as_spec(spec_is_dummy)]
    pub fn is_dummy(&self) -> (r: bool)
        ensures
            r == self.spec_is_dummy(),
    {
        self.lo == 0 && self.hi == 0
    }
}

/// An identifier.
#[derive(Debug, PartialEq)]
pub struct Ident {
    pub span: Span,
    pub sym: String,
}

/// An identifier as a binding: its name and its syntax context.
pub type Id = (String, u32);

/// The mathematical value of an [`Id`].
pub type IdView = (Seq<char>, u32);

/// The view of a binding.
pub open spec fn id_view(id: Id) -> IdView {
    (id.0@, id.1)
}

impl Ident {
    /// The binding that this identifier names.
    pub open spec fn spec_id(&self) -> IdView {
        (self.sym@, self.span.ctxt)
    }

    /// The binding that this identifier names.
    pub fn to_id(&self) -> (id: Id)
        ensures
            id_view(id) == self.spec_id(),
    {
        (self.sym.clone(), self.span.ctxt)
    }
}

/// An identifier that a pattern binds.
#[derive(Debug, PartialEq)]
pub struct BindingIdent {
    pub id: Ident,
}

/// Prefix operators.
#[derive(Clone, Copy, Debug, PartialEq, Eq, Structural)]
pub enum UnaryOp {
    Minus,
    Plus,
    Bang,
    Tilde,
    TypeOf,
    Void,
    Delete,
}

/// Binary operators.
#[derive(Clone, Copy, Debug, PartialEq, Eq, Structural)]
pub enum BinaryOp {
    EqEq,
    NotEq,
    EqEqEq,
    NotEqEq,
    Lt,
    LtEq,
    Gt,
    GtEq,
    LShift,
    RShift,
    ZeroFillRShift,
    Add,
    Sub,
    Mul,
    Div,
    Mod,
    BitOr,
    BitXor,
    BitAnd,
    LogicalOr,
    LogicalAnd,
    In,
    InstanceOf,
    Exp,
    NullishCoalescing,
}

/// Assignment operators.
#[derive(Clone, Copy, Debug, PartialEq, Eq, Structural)]
pub enum AssignOp {
    Assign,
    AddAssign,
    SubAssign,
    MulAssign,
    DivAssign,
    ModAssign,
    LShiftAssign,
    RShiftAssign,
    ZeroFillRShiftAssign,
    BitOrAssign,
    BitXorAssign,
    BitAndAssign,
    ExpAssign,
}

/// The keyword of a variable declaration.
#[derive(Clone, Copy, Debug, PartialEq, Eq, Structural)]
pub enum VarDeclKind {
    Var,
    Let,
    Const,
}

/// An expression.
#[derive(Debug, PartialEq)]
pub enum Expr {
    This(ThisExpr),
    Object(ObjectLit),
    Fn(FnExpr),
    Unary(UnaryExpr),
    Bin(BinExpr),
    Assign(AssignExpr),
    Member(MemberExpr),
    Cond(CondExpr),
    Call(CallExpr),
    Ident(Ident),
    Lit(Lit),
    Sequence(SeqExpr),
    Arrow(ArrowExpr),
    Await(AwaitExpr),
    /// What a node holds after its content was taken out.
    Invalid(Invalid),
}

#[derive(Debug, PartialEq)]
pub struct ThisExpr {
    pub span: Span,
}

#[derive(Debug, PartialEq)]
pub struct Invalid {
    pub span: Span,
}

/// An object literal.
#[derive(Debug, PartialEq)]
pub struct ObjectLit {
    pub span: Span,
    pub props: Vec<PropOrSpread>,
}

#[derive(Debug, PartialEq)]
pub enum PropOrSpread {
    Spread(SpreadElement),
    Prop(Box<Prop>),
}

#[derive(Debug, PartialEq)]
pub struct SpreadElement {
    pub dot3_token: Span,
    pub expr: Box<Expr>,
}

/// A property of an object literal.
#[derive(Debug, PartialEq)]
pub enum Prop {
    /// `{ a }`
    Shorthand(Ident),
    /// `{ key: value }`
    KeyValue(KeyValueProp),
    /// `{ a = value }` (only valid as an assignment target)
    Assign(AssignProp),
    /// `{ key() {} }`
    Method(MethodProp),
}

#[derive(Debug, PartialEq)]
pub struct KeyValueProp {
    pub key: PropName,
    pub value: Box<Expr>,
}

#[derive(Debug, PartialEq)]
pub struct AssignProp {
    pub key: Ident,
    pub value: Box<Expr>,
}

#[derive(Debug, PartialEq)]
pub struct MethodProp {
    pub key: PropName,
    pub function: Function,
}

/// The key of a property.
#[derive(Debug, PartialEq)]
pub enum PropName {
    Ident(Ident),
    Str(Str),
    Num(Number),
    Computed(ComputedPropName),
}

#[derive(Debug, PartialEq)]
pub struct ComputedPropName {
    pub span: Span,
    pub expr: Box<Expr>,
}

/// A function expression, with an optional name.
#[derive(Debug, PartialEq)]
pub struct FnExpr {
    pub ident: Option<Ident>,
    pub function: Function,
}

/// A function: its parameters and its body (`None` for a declaration without a body).
#[derive(Debug, PartialEq)]
pub struct Function {
    pub params: Vec<Param>,
    pub span: Span,
    pub body: Option<BlockStmt>,
    pub is_generator: bool,
    pub is_async: bool,
}

#[derive(Debug, PartialEq)]
pub struct Param {
    pub span: Span,
    pub pat: Pat,
}

/// An arrow function.
#[derive(Debug, PartialEq)]
pub struct ArrowExpr {
    pub span: Span,
    pub params: Vec<Pat>,
    pub body: BlockStmtOrExpr,
    pub is_async: bool,
    pub is_generator: bool,
}

#[derive(Debug, PartialEq)]
pub enum BlockStmtOrExpr {
    BlockStmt(BlockStmt),
    Expr(Box<Expr>),
}

#[derive(Debug, PartialEq)]
pub struct UnaryExpr {
    pub span: Span,
    pub op: UnaryOp,
    pub arg: Box<Expr>,
}

#[derive(Debug, PartialEq)]
pub struct BinExpr {
    pub span: Span,
    pub op: BinaryOp,
    pub left: Box<Expr>,
    pub right: Box<Expr>,
}

#[derive(Debug, PartialEq)]
pub struct AssignExpr {
    pub span: Span,
    pub op: AssignOp,
    pub left: PatOrExpr,
    pub right: Box<Expr>,
}

/// The target of an assignment.
#[derive(Debug, PartialEq)]
pub enum PatOrExpr {
    Expr(Box<Expr>),
    Pat(Box<Pat>),
}

/// `obj.prop`, or `obj[prop]` when `computed`.
#[derive(Debug, PartialEq)]
pub struct MemberExpr {
    pub span: Span,
    pub obj: ExprOrSuper,
    pub prop: Box<Expr>,
    pub computed: bool,
}

#[derive(Debug, PartialEq)]
pub struct CondExpr {
    pub span: Span,
    pub test: Box<Expr>,
    pub cons: Box<Expr>,
    pub alt: Box<Expr>,
}

/// A call.
#[derive(Debug, PartialEq)]
pub struct CallExpr {
    pub span: Span,
    pub callee: ExprOrSuper,
    pub args: Vec<ExprOrSpread>,
}

#[derive(Debug, PartialEq)]
pub enum ExprOrSuper {
    Super(Super),
    Expr(Box<Expr>),
}

#[derive(Debug, PartialEq)]
pub struct Super {
    pub span: Span,
}

/// An argument, spread (`...expr`) when `spread` holds the span of the dots.
#[derive(Debug, PartialEq)]
pub struct ExprOrSpread {
    pub spread: Option<Span>,
    pub expr: Box<Expr>,
}

/// A comma expression.
#[derive(Debug, PartialEq)]
pub struct SeqExpr {
    pub span: Span,
    pub exprs: Vec<Box<Expr>>,
}

#[derive(Debug, PartialEq)]
pub struct AwaitExpr {
    pub span: Span,
    pub arg: Box<Expr>,
}

/// A binding pattern.
#[derive(Debug, PartialEq)]
pub enum Pat {
    Ident(BindingIdent),
    Array(ArrayPat),
    Rest(RestPat),
    Object(ObjectPat),
    Assign(AssignPat),
}

#[derive(Debug, PartialEq)]
pub struct ArrayPat {
    pub span: Span,
    pub elems: Vec<Option<Pat>>,
}

#[derive(Debug, PartialEq)]
pub struct RestPat {
    pub span: Span,
    pub dot3_token: Span,
    pub arg: Box<Pat>,
}

#[derive(Debug, PartialEq)]
pub struct ObjectPat {
    pub span: Span,
    pub props: Vec<ObjectPatProp>,
}

#[derive(Debug, PartialEq)]
pub enum ObjectPatProp {
    /// `{ key: pat }`
    KeyValue(KeyValuePatProp),
    /// `{ a }` or `{ a = value }`
    Assign(AssignPatProp),
    /// `{ ...rest }`
    Rest(RestPat),
}

#[derive(Debug, PartialEq)]
pub struct KeyValuePatProp {
    pub key: PropName,
    pub value: Box<Pat>,
}

#[derive(Debug, PartialEq)]
pub struct AssignPatProp {
    pub span: Span,
    pub key: Ident,
    pub value: Option<Box<Expr>>,
}

/// `left = right` as a pattern with a default value.
#[derive(Debug, PartialEq)]
pub struct AssignPat {
    pub span: Span,
    pub left: Box<Pat>,
    pub right: Box<Expr>,
}

/// A statement.
#[derive(Debug, PartialEq)]
pub enum Stmt {
    Block(BlockStmt),
    Empty(EmptyStmt),
    Expr(ExprStmt),
    Return(ReturnStmt),
    If(IfStmt),
    Decl(Decl),
}

#[derive(Debug, PartialEq)]
pub struct BlockStmt {
    pub span: Span,
    pub stmts: Vec<Stmt>,
}

#[derive(Debug, PartialEq)]
pub struct EmptyStmt {
    pub span: Span,
}

#[derive(Debug, PartialEq)]
pub struct ExprStmt {
    pub span: Span,
    pub expr: Box<Expr>,
}

#[derive(Debug, PartialEq)]
pub struct ReturnStmt {
    pub span: Span,
    pub arg: Option<Box<Expr>>,
}

#[derive(Debug, PartialEq)]
pub struct IfStmt {
    pub span: Span,
    pub test: Box<Expr>,
    pub cons: Box<Stmt>,
    pub alt: Option<Box<Stmt>>,
}

/// A declaration.
#[derive(Debug, PartialEq)]
pub enum Decl {
    Fn(FnDecl),
    Var(VarDecl),
}

#[derive(Debug, PartialEq)]
pub struct FnDecl {
    pub ident: Ident,
    pub declare: bool,
    pub function: Function,
}

#[derive(Debug, PartialEq)]
pub struct VarDecl {
    pub span: Span,
    pub kind: VarDeclKind,
    pub declare: bool,
    pub decls: Vec<VarDeclarator>,
}

#[derive(Debug, PartialEq)]
pub struct VarDeclarator {
    pub span: Span,
    pub name: Pat,
    pub init: Option<Box<Expr>>,
    pub definite: bool,
}

impl Pat {
    /// Whether the pattern is a plain identifier.
    pub open spec fn spec_is_ident(&self) -> bool {
        self is Ident
    }

    #[verifier::when_used_as_spec(spec_is_ident)]
    pub fn is_ident(&self) -> (r: bool)
        ensures
            r == self.spec_is_ident(),
    {
        match self {
            Pat::Ident(_) => true,
            _ => false,
        }
    }
}

/// `void 0` at the given span: the expression that evaluates to `undefined`.
pub open spec fn spec_undefined(span: Span) -> Expr {
    Expr::Unary(
        UnaryExpr {
            span,
            op: UnaryOp::Void,
            arg: Box::new(Expr::Lit(Lit::Num(Number { span, value_bits: 0 }))),
        },
    )
}

/// `void 0` at the given span.
pub fn undefined(span: Span) -> (e: Box<Expr>)
    ensures
        *e == spec_undefined(span),
{
    Box::new(
        Expr::Unary(
            UnaryExpr {
                span,
                op: UnaryOp::Void,
                arg: Box::new(Expr::Lit(Lit::Num(Number { span, value_bits: 0 }))),
            },
        ),
    )
}

} // verus!
