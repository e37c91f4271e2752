use vstd::prelude::*;

use crate::ast::Span;

verus! {

/// A literal.
#[derive(Debug, PartialEq)]
pub enum Lit {
    Str(Str),
    Bool(Bool),
    Null(Null),
    Num(Number),
    Regex(Regex),
}

/// A string literal.
#[derive(Debug, PartialEq)]
pub struct Str {
    pub span: Span,
    pub value: String,
    /// This includes line escape.
    pub has_escape: bool,
}

/// A boolean literal.
#[derive(Clone, Copy, Debug, PartialEq)]
pub struct Bool {
    pub span: Span,
    pub value: bool,
}

/// The `null` literal.
#[derive(Clone, Copy, Debug, PartialEq)]
pub struct Null {
    pub span: Span,
}

/// A regular expression literal: its pattern and its flags.
#[derive(Debug, PartialEq)]
pub struct Regex {
    pub span: Span,
    pub exp: String,
    pub flags: String,
}

/// A numeric literal. The value is held as the bit pattern of the IEEE-754
/// double that it denotes (what `f64::to_bits` gives), so that the tree holds
/// no floating-point number; `0` stands for `0.0`.
#[derive(Clone, Copy, Debug, PartialEq)]
pub struct Number {
    pub span: Span,
    pub value_bits: u64,
}

} // verus!
