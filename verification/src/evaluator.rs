//! The executable evaluators.
//!
//! `try_eval`, `try_eval_arith_expr` and `try_eval_bool_expr` are total:
//! they walk the tree once and return either its value or the first
//! fault, exactly as the spec functions in [`crate::semantics`] define.
//! `eval`, `eval_arith_expr` and `eval_bool_expr` require a fault-free
//! tree and return its value directly; under that precondition they
//! never panic.

use vstd::prelude::*;

use crate::ast::{ArithCmpOp, ArithExpr, BinArithOp, BinLogicOp, BoolExpr, EvalError, Expr, Value};
use crate::semantics::{arith_eval, arith_ok, arith_value, bool_eval, bool_ok, bool_value,
    expr_eval, expr_ok, expr_value, trunc_div};

verus! {

/// Evaluates an arithmetic expression, reporting a division by zero or
/// an out-of-range result as a typed error.
pub fn try_eval_arith_expr(arith_expr: &ArithExpr) -> (r: Result<i64, EvalError>)
    ensures
        r matches Ok(v) ==> arith_eval(*arith_expr) == Ok::<int, EvalError>(v as int),
        r matches Err(err) ==> arith_eval(*arith_expr) == Err::<int, EvalError>(err),
    decreases *arith_expr,
{
    match arith_expr {
        ArithExpr::IntLit(v) => Ok(*v),
        ArithExpr::BinArithExpr { left, right, op } => {
            let left_val = match try_eval_arith_expr(left) {
                Ok(v) => v,
                Err(err) => {
                    return Err(err);
                },
            };
            let right_val = match try_eval_arith_expr(right) {
                Ok(v) => v,
                Err(err) => {
                    return Err(err);
                },
            };
            let checked = match op {
                BinArithOp::AddOp => left_val.checked_add(right_val),
                BinArithOp::SubOp => left_val.checked_sub(right_val),
                BinArithOp::MulOp => left_val.checked_mul(right_val),
                BinArithOp::IntDivOp => {
                    if right_val == 0 {
                        return Err(EvalError::DivisionByZero);
                    }
                    proof {
                        lemma_trunc_div_cases(left_val as int, right_val as int);
                    }
                    left_val.checked_div(right_val)
                },
            };
            match checked {
                Some(v) => Ok(v),
                None => Err(EvalError::ArithmeticOverflow),
            }
        },
    }
}

/// Evaluates a boolean expression, reporting a fault in one of its
/// arithmetic subtrees as a typed error. Both operands of a logic
/// operator are evaluated; nothing is short-circuited.
pub fn try_eval_bool_expr(bool_expr: &BoolExpr) -> (r: Result<bool, EvalError>)
    ensures
        r == bool_eval(*bool_expr),
    decreases *bool_expr,
{
    match bool_expr {
        BoolExpr::BoolLit(v) => Ok(*v),
        BoolExpr::ArithCmpExpr { left, right, op } => {
            let left_val = match try_eval_arith_expr(left) {
                Ok(v) => v,
                Err(err) => {
                    return Err(err);
                },
            };
            let right_val = match try_eval_arith_expr(right) {
                Ok(v) => v,
                Err(err) => {
                    return Err(err);
                },
            };
            Ok(
                match op {
                    ArithCmpOp::LtOp => left_val < right_val,
                    ArithCmpOp::LteOp => left_val <= right_val,
                    ArithCmpOp::GtOp => left_val > right_val,
                    ArithCmpOp::GteOp => left_val >= right_val,
                    ArithCmpOp::ArithEqOp => left_val == right_val,
                    ArithCmpOp::ArithNeqOp => left_val != right_val,
                },
            )
        },
        BoolExpr::BinBoolExpr { left, right, op } => {
            let left_val = match try_eval_bool_expr(left) {
                Ok(v) => v,
                Err(err) => {
                    return Err(err);
                },
            };
            let right_val = match try_eval_bool_expr(right) {
                Ok(v) => v,
                Err(err) => {
                    return Err(err);
                },
            };
            Ok(
                match op {
                    BinLogicOp::AndOp => left_val && right_val,
                    BinLogicOp::OrOp => left_val || right_val,
                    BinLogicOp::BoolEqOp => left_val == right_val,
                    BinLogicOp::BoolNeqOp => left_val != right_val,
                },
            )
        },
        BoolExpr::NotExpr(inner) => {
            let v = match try_eval_bool_expr(inner) {
                Ok(v) => v,
                Err(err) => {
                    return Err(err);
                },
            };
            Ok(!v)
        },
    }
}

/// Evaluates a top-level expression, reporting any fault as a typed
/// error.
pub fn try_eval(expr: &Expr) -> (r: Result<Value, EvalError>)
    ensures
        r == expr_eval(*expr),
{
    match expr {
        Expr::ArithExpr(arith_expr) => match try_eval_arith_expr(arith_expr) {
            Ok(v) => Ok(Value::IntValue(v)),
            Err(err) => Err(err),
        },
        Expr::BoolExpr(bool_expr) => match try_eval_bool_expr(bool_expr) {
            Ok(v) => Ok(Value::BoolValue(v)),
            Err(err) => Err(err),
        },
    }
}

/// Evaluates a fault-free top-level expression to its tagged value.
pub fn eval(expr: Expr) -> (v: Value)
    requires
        expr_ok(expr),
    ensures
        v == expr_value(expr),
{
    match try_eval(&expr) {
        Ok(v) => v,
        Err(_) => {
            proof {
                assert(false);
            }
            Value::BoolValue(false)
        },
    }
}

/// Evaluates a fault-free arithmetic expression to its integer value.
pub fn eval_arith_expr(arith_expr: ArithExpr) -> (r: i64)
    requires
        arith_ok(arith_expr),
    ensures
        r == arith_value(arith_expr),
{
    match try_eval_arith_expr(&arith_expr) {
        Ok(v) => v,
        Err(_) => {
            proof {
                assert(false);
            }
            0
        },
    }
}

/// Evaluates a fault-free boolean expression to its boolean value.
pub fn eval_bool_expr(bool_expr: BoolExpr) -> (r: bool)
    requires
        bool_ok(bool_expr),
    ensures
        r == bool_value(bool_expr),
{
    match try_eval_bool_expr(&bool_expr) {
        Ok(v) => v,
        Err(_) => {
            proof {
                assert(false);
            }
            false
        },
    }
}

/// `trunc_div` agrees, case by case on the signs of its operands, with
/// the quotient that signed division computes.
proof fn lemma_trunc_div_cases(a: int, b: int)
    requires
        b != 0,
    ensures
        a == 0 ==> trunc_div(a, b) == 0,
        a > 0 && b > 0 ==> trunc_div(a, b) == a / b,
        a < 0 && b < 0 ==> trunc_div(a, b) == (a * -1) / (b * -1),
        a < 0 && b > 0 ==> trunc_div(a, b) == ((a * -1) / b) * -1,
        a > 0 && b < 0 ==> trunc_div(a, b) == (a / (b * -1)) * -1,
{
    assert(a < 0 ==> a * -1 == -a);
    assert(b < 0 ==> b * -1 == -b);
}

} // verus!
