//! Immediately-invoked function expression (IIFE) rewrites of a JavaScript
//! minifier, over a JavaScript syntax tree of the library's own.

pub mod ast;
pub mod lit;
pub mod equiv;
pub mod idents;
pub mod fxmap;
pub mod optimizer;
pub mod subst;
pub mod abstraction;
pub mod negate;
pub mod inline_args;
pub mod inline_fn;
pub mod invoke;
pub mod laws;
