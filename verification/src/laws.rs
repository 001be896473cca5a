//! Laws of the evaluator, stated over the spec functions of
//! [`crate::semantics`] and proved once and for all.

use vstd::prelude::*;

use crate::ast::{ArithCmpOp, ArithExpr, BinArithOp, BinLogicOp, BoolExpr, EvalError, Expr, Value};
use crate::semantics::{apply_arith_op, apply_cmp_op, apply_logic_op, arith_eval, arith_ok,
    arith_value, bool_eval, expr_eval, fits_i64};

verus! {

/// Law: applying a binary arithmetic operator to two integer literals
/// evaluates to the operator's exact result — the sum for `AddOp`, the
/// difference for `SubOp`, the product for `MulOp`, and the quotient
/// rounded toward zero for `IntDivOp` with a nonzero divisor — whenever
/// that result fits in the 64-bit signed range.
pub proof fn lemma_eval_bin_arith(
    a: i64,
    b: i64,
    left: Box<ArithExpr>,
    right: Box<ArithExpr>,
    op: BinArithOp,
)
    requires
        *left == ArithExpr::IntLit(a),
        *right == ArithExpr::IntLit(b),
        op is IntDivOp ==> b != 0,
        fits_i64(apply_arith_op(op, a as int, b as int)),
    ensures
        (expr_eval(Expr::ArithExpr((ArithExpr::BinArithExpr { left, right, op })))
            == Ok::<Value, EvalError>(
            Value::IntValue(apply_arith_op(op, a as int, b as int) as i64),
        )),
{
    assert(arith_eval(*left) == Ok::<int, EvalError>(a as int));
    assert(arith_eval(*right) == Ok::<int, EvalError>(b as int));
}

/// Law: comparing two integer literals evaluates to the standard
/// signed-integer comparison of their values, for every comparison
/// operator. A comparison never faults.
pub proof fn lemma_eval_cmp(
    a: i64,
    b: i64,
    left: Box<ArithExpr>,
    right: Box<ArithExpr>,
    op: ArithCmpOp,
)
    requires
        *left == ArithExpr::IntLit(a),
        *right == ArithExpr::IntLit(b),
    ensures
        (expr_eval(Expr::BoolExpr((BoolExpr::ArithCmpExpr { left, right, op })))
            == Ok::<Value, EvalError>(Value::BoolValue(apply_cmp_op(op, a as int, b as int)))),
{
    assert(arith_eval(*left) == Ok::<int, EvalError>(a as int));
    assert(arith_eval(*right) == Ok::<int, EvalError>(b as int));
}

/// Law: applying a binary logic operator to two boolean literals
/// evaluates to the operator's truth-table result — conjunction,
/// disjunction, boolean equality or boolean inequality — for every pair
/// of operands.
pub proof fn lemma_eval_logic(
    a: bool,
    b: bool,
    left: Box<BoolExpr>,
    right: Box<BoolExpr>,
    op: BinLogicOp,
)
    requires
        *left == BoolExpr::BoolLit(a),
        *right == BoolExpr::BoolLit(b),
    ensures
        (expr_eval(Expr::BoolExpr((BoolExpr::BinBoolExpr { left, right, op })))
            == Ok::<Value, EvalError>(Value::BoolValue(apply_logic_op(op, a, b)))),
{
    assert(bool_eval(*left) == Ok::<bool, EvalError>(a));
    assert(bool_eval(*right) == Ok::<bool, EvalError>(b));
}

/// Law: logic operators are not short-circuited. The right operand is
/// evaluated whatever the left operand's value — even where that value
/// alone would decide an `AndOp` or an `OrOp` — so a fault in the right
/// operand always surfaces.
pub proof fn lemma_logic_not_short_circuited(
    left: Box<BoolExpr>,
    right: Box<BoolExpr>,
    op: BinLogicOp,
    err: EvalError,
)
    requires
        bool_eval(*left) is Ok,
        bool_eval(*right) == Err::<bool, EvalError>(err),
    ensures
        (bool_eval((BoolExpr::BinBoolExpr { left, right, op })) == Err::<bool, EvalError>(err)),
{
}

/// Law: negation evaluates its operand and returns the logical
/// complement of its value.
pub proof fn lemma_eval_not(inner: Box<BoolExpr>, v: bool)
    requires
        bool_eval(*inner) == Ok::<bool, EvalError>(v),
    ensures
        expr_eval(Expr::BoolExpr(BoolExpr::NotExpr(inner))) == Ok::<Value, EvalError>(
            Value::BoolValue(!v),
        ),
{
}

/// Law: an integer literal evaluates to its stored value.
pub proof fn lemma_eval_int_lit(v: i64)
    ensures
        expr_eval(Expr::ArithExpr(ArithExpr::IntLit(v))) == Ok::<Value, EvalError>(
            Value::IntValue(v),
        ),
{
}

/// Law: a boolean literal evaluates to its stored value.
pub proof fn lemma_eval_bool_lit(v: bool)
    ensures
        expr_eval(Expr::BoolExpr(BoolExpr::BoolLit(v))) == Ok::<Value, EvalError>(
            Value::BoolValue(v),
        ),
{
}

/// Law: dividing by an operand that evaluates to zero faults with
/// `DivisionByZero`, whatever the left operand's value, and never
/// yields a number.
pub proof fn lemma_div_by_zero(left: Box<ArithExpr>, right: Box<ArithExpr>)
    requires
        arith_eval(*left) is Ok,
        arith_eval(*right) == Ok::<int, EvalError>(0),
    ensures
        (arith_eval((ArithExpr::BinArithExpr { left, right, op: BinArithOp::IntDivOp }))
            == Err::<int, EvalError>(EvalError::DivisionByZero)),
{
}

/// Law: every fault-free arithmetic result fits in the 64-bit signed
/// range — a literal carries a 64-bit value, and every operator result
/// is range-checked before it is accepted — so wrapping it in a tagged
/// `IntValue` loses nothing.
pub proof fn lemma_arith_value_fits(e: ArithExpr)
    requires
        arith_ok(e),
    ensures
        fits_i64(arith_value(e)),
{
}

/// Law: evaluation is pure. The outcome — value or fault — is a
/// function of the tree alone, so any two evaluations of the same tree
/// agree. The executable evaluators make this concrete: `try_eval`
/// takes the tree by shared reference, leaves it unchanged, and its
/// contract pins its result to `expr_eval` of that tree, so calling it
/// twice on one tree returns identical results.
pub proof fn lemma_eval_deterministic(
    e: Expr,
    r1: Result<Value, EvalError>,
    r2: Result<Value, EvalError>,
)
    requires
        r1 == expr_eval(e),
        r2 == expr_eval(e),
    ensures
        r1 == r2,
{
}

} // verus!
