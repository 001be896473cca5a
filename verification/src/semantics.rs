//! The mathematical semantics of the expression language.
//!
//! `arith_eval`, `bool_eval` and `expr_eval` define, by structural
//! recursion over the tree, either the exact value of an expression or
//! the first evaluation fault encountered. A fault is found in
//! evaluation order: the left operand's fault before the right
//! operand's, both before the operator's own, and a division by zero
//! before an overflow at the same node.

use vstd::prelude::*;

use crate::ast::{ArithCmpOp, ArithExpr, BinArithOp, BinLogicOp, BoolExpr, EvalError, Expr, Value};

verus! {

/// The absolute value of a mathematical integer.
pub open spec fn abs_int(a: int) -> int {
    if a < 0 {
        -a
    } else {
        a
    }
}

/// Division of mathematical integers with the quotient rounded toward
/// zero, as Rust's `/` on signed integers behaves. (The ghost `/` on
/// `int` rounds toward negative infinity instead.)
pub open spec fn trunc_div(a: int, b: int) -> int {
    if (a < 0) == (b < 0) {
        abs_int(a) / abs_int(b)
    } else {
        -(abs_int(a) / abs_int(b))
    }
}

/// The exact (unbounded) result of a binary arithmetic operator.
pub open spec fn apply_arith_op(op: BinArithOp, left: int, right: int) -> int {
    match op {
        BinArithOp::AddOp => left + right,
        BinArithOp::SubOp => left - right,
        BinArithOp::MulOp => left * right,
        BinArithOp::IntDivOp => trunc_div(left, right),
    }
}

/// The result of a comparison operator, with standard signed ordering.
pub open spec fn apply_cmp_op(op: ArithCmpOp, left: int, right: int) -> bool {
    match op {
        ArithCmpOp::LtOp => left < right,
        ArithCmpOp::LteOp => left <= right,
        ArithCmpOp::GtOp => left > right,
        ArithCmpOp::GteOp => left >= right,
        ArithCmpOp::ArithEqOp => left == right,
        ArithCmpOp::ArithNeqOp => left != right,
    }
}

/// The result of a binary logic operator. Both operands are given:
/// logic operators do not short-circuit.
pub open spec fn apply_logic_op(op: BinLogicOp, left: bool, right: bool) -> bool {
    match op {
        BinLogicOp::AndOp => left && right,
        BinLogicOp::OrOp => left || right,
        BinLogicOp::BoolEqOp => left == right,
        BinLogicOp::BoolNeqOp => left != right,
    }
}

/// Whether a mathematical integer fits in the 64-bit signed range.
pub open spec fn fits_i64(v: int) -> bool {
    i64::MIN <= v <= i64::MAX
}

/// The value of an arithmetic expression, or the first fault met while
/// evaluating it: operands left to right, then a division by zero, then
/// an out-of-range result.
pub open spec fn arith_eval(e: ArithExpr) -> Result<int, EvalError>
    decreases e,
{
    match e {
        ArithExpr::IntLit(v) => Ok(v as int),
        ArithExpr::BinArithExpr { left, right, op } => match arith_eval(*left) {
            Err(err) => Err(err),
            Ok(lv) => match arith_eval(*right) {
                Err(err) => Err(err),
                Ok(rv) => {
                    if op is IntDivOp && rv == 0 {
                        Err(EvalError::DivisionByZero)
                    } else if !fits_i64(apply_arith_op(op, lv, rv)) {
                        Err(EvalError::ArithmeticOverflow)
                    } else {
                        Ok(apply_arith_op(op, lv, rv))
                    }
                },
            },
        },
    }
}

/// The value of a boolean expression, or the first fault met in one of
/// its arithmetic subtrees. Comparison and logic operators themselves
/// never fault, and both operands of a logic operator are always
/// evaluated.
pub open spec fn bool_eval(e: BoolExpr) -> Result<bool, EvalError>
    decreases e,
{
    match e {
        BoolExpr::BoolLit(v) => Ok(v),
        BoolExpr::ArithCmpExpr { left, right, op } => match arith_eval(*left) {
            Err(err) => Err(err),
            Ok(lv) => match arith_eval(*right) {
                Err(err) => Err(err),
                Ok(rv) => Ok(apply_cmp_op(op, lv, rv)),
            },
        },
        BoolExpr::BinBoolExpr { left, right, op } => match bool_eval(*left) {
            Err(err) => Err(err),
            Ok(lv) => match bool_eval(*right) {
                Err(err) => Err(err),
                Ok(rv) => Ok(apply_logic_op(op, lv, rv)),
            },
        },
        BoolExpr::NotExpr(inner) => match bool_eval(*inner) {
            Err(err) => Err(err),
            Ok(v) => Ok(!v),
        },
    }
}

/// The tagged value of a top-level expression, or the first fault met
/// while evaluating it.
pub open spec fn expr_eval(e: Expr) -> Result<Value, EvalError> {
    match e {
        Expr::ArithExpr(a) => match arith_eval(a) {
            Err(err) => Err(err),
            Ok(v) => Ok(Value::IntValue(v as i64)),
        },
        Expr::BoolExpr(b) => match bool_eval(b) {
            Err(err) => Err(err),
            Ok(v) => Ok(Value::BoolValue(v)),
        },
    }
}

/// Whether an arithmetic expression evaluates without a fault.
pub open spec fn arith_ok(e: ArithExpr) -> bool {
    arith_eval(e) is Ok
}

/// The value of a fault-free arithmetic expression.
pub open spec fn arith_value(e: ArithExpr) -> int {
    arith_eval(e)->Ok_0
}

/// Whether a boolean expression evaluates without a fault.
pub open spec fn bool_ok(e: BoolExpr) -> bool {
    bool_eval(e) is Ok
}

/// The value of a fault-free boolean expression.
pub open spec fn bool_value(e: BoolExpr) -> bool {
    bool_eval(e)->Ok_0
}

/// Whether a top-level expression evaluates without a fault.
pub open spec fn expr_ok(e: Expr) -> bool {
    expr_eval(e) is Ok
}

/// The tagged value of a fault-free top-level expression.
pub open spec fn expr_value(e: Expr) -> Value {
    expr_eval(e)->Ok_0
}

} // verus!
