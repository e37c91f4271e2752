# iife_optimizer

Verified rewrites of immediately-invoked function expressions (IIFEs) for a
JavaScript minifier, written in Verus.

- `src/ast.rs`, `src/lit.rs`: the JavaScript syntax tree the rewrites work on.
- `src/equiv.rs`: structural equivalence of trees and copies that keep it.
- `src/idents.rs`: which identifiers a node mentions.
- `src/subst.rs`: replacing bindings by the expressions that stand for them.
- `src/abstraction.rs`: putting an IIFE's parameters in place of the values its arguments pass.
- `src/fxmap.rs`: the Fx hash maps of the optimizer (trusted wrappers around `fxhash`/std).
- `src/optimizer.rs`: the optimizer's options, context and state.
- `src/negate.rs`: `negate_iife_ignoring_ret`, `negate_iife_in_cond`, `restore_negated_iife`.
- `src/inline_args.rs`: `can_be_inlined_for_iife`, `inline_vars_in_node`, `inline_args_of_iife`.
- `src/inline_fn.rs`: `can_inline_fn_like`, `inline_fn_like`.
- `src/invoke.rs`: `invoke_iife`.
- `src/laws.rs`: properties that span several rewrites.
- `app/lib.rs`: numeric literals as `f64` and how they print.
