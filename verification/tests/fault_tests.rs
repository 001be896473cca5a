//! Exercises the total evaluators on trees that fault: division by
//! zero, out-of-range results, and the order in which faults surface.

use expr_eval::ast::ArithCmpOp::LtOp;
use expr_eval::ast::ArithExpr::{BinArithExpr, IntLit};
use expr_eval::ast::BinArithOp::{AddOp, IntDivOp, MulOp, SubOp};
use expr_eval::ast::BinLogicOp::AndOp;
use expr_eval::ast::BoolExpr::{ArithCmpExpr, BinBoolExpr, BoolLit};
use expr_eval::ast::EvalError::{ArithmeticOverflow, DivisionByZero};
use expr_eval::ast::Expr::{ArithExpr, BoolExpr};
use expr_eval::{try_eval, try_eval_arith_expr, try_eval_bool_expr};

#[test]
fn test_div_by_zero() {
    let expr = ArithExpr(BinArithExpr {
        left: Box::new(IntLit(1)),
        right: Box::new(IntLit(0)),
        op: IntDivOp,
    });

    assert_eq!(try_eval(&expr), Err(DivisionByZero));
}

#[test]
fn test_add_overflow() {
    let expr = BinArithExpr {
        left: Box::new(IntLit(i64::MAX)),
        right: Box::new(IntLit(1)),
        op: AddOp,
    };

    assert_eq!(try_eval_arith_expr(&expr), Err(ArithmeticOverflow));
}

#[test]
fn test_sub_overflow() {
    let expr = BinArithExpr {
        left: Box::new(IntLit(i64::MIN)),
        right: Box::new(IntLit(1)),
        op: SubOp,
    };

    assert_eq!(try_eval_arith_expr(&expr), Err(ArithmeticOverflow));
}

#[test]
fn test_mul_overflow() {
    let expr = BinArithExpr {
        left: Box::new(IntLit(i64::MAX)),
        right: Box::new(IntLit(2)),
        op: MulOp,
    };

    assert_eq!(try_eval_arith_expr(&expr), Err(ArithmeticOverflow));
}

#[test]
fn test_div_overflow() {
    // The one quotient outside the 64-bit signed range.
    let expr = BinArithExpr {
        left: Box::new(IntLit(i64::MIN)),
        right: Box::new(IntLit(-1)),
        op: IntDivOp,
    };

    assert_eq!(try_eval_arith_expr(&expr), Err(ArithmeticOverflow));
}

#[test]
fn test_left_fault_first() {
    // Both operands fault; the left operand's fault is reported.
    let div_by_zero = BinArithExpr {
        left: Box::new(IntLit(1)),
        right: Box::new(IntLit(0)),
        op: IntDivOp,
    };
    let overflow = BinArithExpr {
        left: Box::new(IntLit(i64::MAX)),
        right: Box::new(IntLit(1)),
        op: AddOp,
    };
    let expr = BinArithExpr {
        left: Box::new(div_by_zero),
        right: Box::new(overflow),
        op: AddOp,
    };

    assert_eq!(try_eval_arith_expr(&expr), Err(DivisionByZero));
}

#[test]
fn test_div_by_zero_before_overflow() {
    // A zero divisor is reported as DivisionByZero even where the
    // dividend alone could not yield an in-range quotient anyway.
    let expr = BinArithExpr {
        left: Box::new(IntLit(i64::MIN)),
        right: Box::new(IntLit(0)),
        op: IntDivOp,
    };

    assert_eq!(try_eval_arith_expr(&expr), Err(DivisionByZero));
}

#[test]
fn test_logic_right_fault_surfaces() {
    // AndOp does not short-circuit: the fault in the right operand
    // surfaces although the left operand is already false.
    let faulting_cmp = ArithCmpExpr {
        left: Box::new(BinArithExpr {
            left: Box::new(IntLit(1)),
            right: Box::new(IntLit(0)),
            op: IntDivOp,
        }),
        right: Box::new(IntLit(1)),
        op: LtOp,
    };
    let expr = BinBoolExpr {
        left: Box::new(BoolLit(false)),
        right: Box::new(faulting_cmp),
        op: AndOp,
    };

    assert_eq!(try_eval_bool_expr(&expr), Err(DivisionByZero));
}

#[test]
fn test_fault_propagates_to_top() {
    let expr = BoolExpr(ArithCmpExpr {
        left: Box::new(IntLit(1)),
        right: Box::new(BinArithExpr {
            left: Box::new(IntLit(1)),
            right: Box::new(IntLit(0)),
            op: IntDivOp,
        }),
        op: LtOp,
    });

    assert_eq!(try_eval(&expr), Err(DivisionByZero));
}
