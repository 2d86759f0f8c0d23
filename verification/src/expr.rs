use vstd::prelude::*;
use crate::arith::{eval_arith_expr, ArithExpr};
use crate::boolean::{eval_bool_expr, BoolExpr};
use crate::error::EvalError;

verus! {

/// An expression of the language: arithmetic or boolean.
#[derive(Debug)]
pub enum Expr {
    ArithExpr(ArithExpr),
    BoolExpr(BoolExpr),
}

/// The result of evaluating an expression.
#[derive(Debug, Clone, Copy, PartialEq, Eq, Structural)]
pub enum Value {
    BoolValue(bool),
    IntValue(i64),
}

impl Expr {
    /// The meaning of an expression: the value it denotes, tagged with its
    /// kind, or the failure of the expression inside.
    pub open spec fn outcome(self) -> Result<Value, EvalError> {
        match self {
            Expr::ArithExpr(e) => match e.outcome() {
                Ok(n) => Ok(Value::IntValue(n)),
                Err(err) => Err(err),
            },
            Expr::BoolExpr(e) => match e.outcome() {
                Ok(b) => Ok(Value::BoolValue(b)),
                Err(err) => Err(err),
            },
        }
    }
}

/// Evaluates an expression to a value.
///
/// An arithmetic expression gives an `IntValue`, a boolean one a
/// `BoolValue`. The evaluation fails with `DivisionByZero` where a division
/// is reached whose right operand is zero, and with `ArithmeticOverflow`
/// where a result does not fit in 64 bits; whichever comes first in a
/// left-to-right walk of the tree is reported.
pub fn eval(expr: Expr) -> (res: Result<Value, EvalError>)
    ensures
        res == expr.outcome(),
{
    match expr {
        Expr::ArithExpr(e) => match eval_arith_expr(e) {
            Ok(n) => Ok(Value::IntValue(n)),
            Err(err) => Err(err),
        },
        Expr::BoolExpr(e) => match eval_bool_expr(e) {
            Ok(b) => Ok(Value::BoolValue(b)),
            Err(err) => Err(err),
        },
    }
}

} // verus!
