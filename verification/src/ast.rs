//! The expression data model: tagged unions for arithmetic and boolean
//! trees, their operators, the tagged result value, and the evaluation
//! error type.
//!
//! Every node owns its children exclusively, so a tree is acyclic by
//! construction, and arithmetic subtrees can only yield integers while
//! boolean subtrees can only yield booleans: ill-typed trees are
//! unrepresentable.

use vstd::prelude::*;

verus! {

/// Root of an evaluable tree: either an arithmetic or a boolean expression.
pub enum Expr {
    ArithExpr(ArithExpr),
    BoolExpr(BoolExpr),
}

/// An expression that evaluates to a 64-bit signed integer.
pub enum ArithExpr {
    BinArithExpr { left: Box<ArithExpr>, right: Box<ArithExpr>, op: BinArithOp },
    IntLit(i64),
}

/// An expression that evaluates to a boolean.
pub enum BoolExpr {
    ArithCmpExpr { left: Box<ArithExpr>, right: Box<ArithExpr>, op: ArithCmpOp },
    BinBoolExpr { left: Box<BoolExpr>, right: Box<BoolExpr>, op: BinLogicOp },
    NotExpr(Box<BoolExpr>),
    BoolLit(bool),
}

/// Binary arithmetic operators. `IntDivOp` is truncating division
/// (rounding the quotient toward zero).
pub enum BinArithOp {
    AddOp,
    SubOp,
    MulOp,
    IntDivOp,
}

/// Comparison operators on integers, with standard signed ordering.
pub enum ArithCmpOp {
    LtOp,
    LteOp,
    GtOp,
    GteOp,
    ArithEqOp,
    ArithNeqOp,
}

/// Binary logic operators on booleans. Both operands are always
/// evaluated: `AndOp` and `OrOp` do not short-circuit.
pub enum BinLogicOp {
    AndOp,
    OrOp,
    BoolEqOp,
    BoolNeqOp,
}

/// The tagged result of evaluating an expression.
#[derive(Debug, PartialEq, Eq, Structural)]
pub enum Value {
    BoolValue(bool),
    IntValue(i64),
}

/// Why an evaluation failed.
///
/// `DivisionByZero` reports an `IntDivOp` whose right operand evaluated
/// to zero. `ArithmeticOverflow` reports an operation whose exact result
/// falls outside the 64-bit signed range (including dividing the minimum
/// value by minus one).
#[derive(Debug, PartialEq, Eq, Structural, Clone, Copy)]
pub enum EvalError {
    DivisionByZero,
    ArithmeticOverflow,
}

} // verus!
