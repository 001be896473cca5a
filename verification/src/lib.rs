//! A small expression language with two value domains — 64-bit signed
//! integers and booleans — and a verified recursive evaluator that reduces
//! a syntax tree to a single tagged value.
//!
//! The tree is built programmatically from the constructors in [`ast`];
//! there is no parser and no I/O. Evaluation is a pure structural
//! recursion whose semantics is given by the spec functions in
//! [`semantics`], and the executable evaluators in [`evaluator`] are
//! proved to follow it exactly.
//!
//! Integer division truncates toward zero. Division by zero and results
//! outside the 64-bit signed range are reported by the total evaluators
//! ([`evaluator::try_eval`] and friends) as typed [`ast::EvalError`]
//! values; the plain evaluators ([`evaluator::eval`] and friends) require
//! the tree to evaluate without either fault and never panic.

pub mod ast;
pub mod evaluator;
pub mod laws;
pub mod semantics;

pub use ast::{ArithCmpOp, ArithExpr, BinArithOp, BinLogicOp, BoolExpr, EvalError, Expr, Value};
pub use evaluator::{eval, eval_arith_expr, eval_bool_expr, try_eval, try_eval_arith_expr,
    try_eval_bool_expr};
