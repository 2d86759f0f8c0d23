//! Laws of evaluation: what every literal and every operator applied to
//! literals evaluates to, that no operand of a boolean node is skipped, and
//! that the result depends on the tree alone.

use vstd::prelude::*;
use crate::arith::{fits, lemma_trunc_div_fits, trunc_div, ArithExpr, BinArithOp};
use crate::boolean::{ArithCmpOp, BinLogicOp, BoolExpr};
use crate::error::EvalError;
use crate::expr::{eval, Expr, Value};

verus! {

/// The tree that applies `op` to the integer literals `a` and `b`.
pub open spec fn arith_of_literals(a: i64, b: i64, op: BinArithOp) -> Expr {
    Expr::ArithExpr(
        ArithExpr::BinArithExpr {
            left: Box::new(ArithExpr::IntLit(a)),
            right: Box::new(ArithExpr::IntLit(b)),
            op,
        },
    )
}

/// The tree that compares the integer literals `a` and `b` by `op`.
pub open spec fn comparison_of_literals(a: i64, b: i64, op: ArithCmpOp) -> Expr {
    Expr::BoolExpr(
        BoolExpr::ArithCmpExpr {
            left: Box::new(ArithExpr::IntLit(a)),
            right: Box::new(ArithExpr::IntLit(b)),
            op,
        },
    )
}

/// The tree that applies `op` to the boolean literals `p` and `q`.
pub open spec fn logic_of_literals(p: bool, q: bool, op: BinLogicOp) -> Expr {
    Expr::BoolExpr(
        BoolExpr::BinBoolExpr {
            left: Box::new(BoolExpr::BoolLit(p)),
            right: Box::new(BoolExpr::BoolLit(q)),
            op,
        },
    )
}

/// The tree that negates the boolean literal `p`.
pub open spec fn negation_of_literal(p: bool) -> Expr {
    Expr::BoolExpr(BoolExpr::NotExpr(Box::new(BoolExpr::BoolLit(p))))
}

/// An integer literal evaluates to itself.
pub proof fn lemma_int_literal(n: i64)
    ensures
        Expr::ArithExpr(ArithExpr::IntLit(n)).outcome() == Ok::<Value, EvalError>(
            Value::IntValue(n),
        ),
{
}

/// A boolean literal evaluates to itself.
pub proof fn lemma_bool_literal(b: bool)
    ensures
        Expr::BoolExpr(BoolExpr::BoolLit(b)).outcome() == Ok::<Value, EvalError>(
            Value::BoolValue(b),
        ),
{
}

/// The sum of two literals is their exact sum where that fits in 64 bits,
/// and an overflow where it does not.
pub proof fn lemma_add_literals(a: i64, b: i64)
    ensures
        fits(a + b) ==> (arith_of_literals(a, b, BinArithOp::AddOp).outcome() matches Ok(
            Value::IntValue(v),
        ) && v == a + b),
        !fits(a + b) ==> arith_of_literals(a, b, BinArithOp::AddOp).outcome()
            == Err::<Value, EvalError>(EvalError::ArithmeticOverflow),
{
    reveal_with_fuel(ArithExpr::outcome, 2);
}

/// The difference of two literals is their exact difference where that fits
/// in 64 bits, and an overflow where it does not.
pub proof fn lemma_subtract_literals(a: i64, b: i64)
    ensures
        fits(a - b) ==> (arith_of_literals(a, b, BinArithOp::SubOp).outcome() matches Ok(
            Value::IntValue(v),
        ) && v == a - b),
        !fits(a - b) ==> arith_of_literals(a, b, BinArithOp::SubOp).outcome()
            == Err::<Value, EvalError>(EvalError::ArithmeticOverflow),
{
    reveal_with_fuel(ArithExpr::outcome, 2);
}

/// The product of two literals is their exact product where that fits in
/// 64 bits, and an overflow where it does not.
pub proof fn lemma_multiply_literals(a: i64, b: i64)
    ensures
        fits(a * b) ==> (arith_of_literals(a, b, BinArithOp::MulOp).outcome() matches Ok(
            Value::IntValue(v),
        ) && v == a * b),
        !fits(a * b) ==> arith_of_literals(a, b, BinArithOp::MulOp).outcome()
            == Err::<Value, EvalError>(EvalError::ArithmeticOverflow),
{
    reveal_with_fuel(ArithExpr::outcome, 2);
}

/// The quotient of a literal by a nonzero literal is the exact quotient
/// rounded toward zero. It fits in 64 bits but for the least integer divided
/// by minus one, which is an overflow.
pub proof fn lemma_divide_literals(a: i64, b: i64)
    requires
        b != 0,
    ensures
        !(a == i64::MIN && b == -1) ==> (arith_of_literals(a, b, BinArithOp::IntDivOp).outcome()
            matches Ok(Value::IntValue(v)) && v == trunc_div(a as int, b as int)),
        a == i64::MIN && b == -1 ==> arith_of_literals(a, b, BinArithOp::IntDivOp).outcome()
            == Err::<Value, EvalError>(EvalError::ArithmeticOverflow),
{
    reveal_with_fuel(ArithExpr::outcome, 2);
    lemma_trunc_div_fits(a, b);
}

/// Dividing a literal by the literal zero fails as a division by zero.
pub proof fn lemma_divide_by_zero_literal(a: i64)
    ensures
        arith_of_literals(a, 0, BinArithOp::IntDivOp).outcome() == Err::<Value, EvalError>(
            EvalError::DivisionByZero,
        ),
{
    reveal_with_fuel(ArithExpr::outcome, 2);
}

/// Each comparison operator, applied to two literals, gives what the order
/// of the integers gives.
pub proof fn lemma_compare_literals(a: i64, b: i64)
    ensures
        comparison_of_literals(a, b, ArithCmpOp::LtOp).outcome() == Ok::<Value, EvalError>(
            Value::BoolValue(a < b),
        ),
        comparison_of_literals(a, b, ArithCmpOp::LteOp).outcome() == Ok::<Value, EvalError>(
            Value::BoolValue(a <= b),
        ),
        comparison_of_literals(a, b, ArithCmpOp::GtOp).outcome() == Ok::<Value, EvalError>(
            Value::BoolValue(a > b),
        ),
        comparison_of_literals(a, b, ArithCmpOp::GteOp).outcome() == Ok::<Value, EvalError>(
            Value::BoolValue(a >= b),
        ),
        comparison_of_literals(a, b, ArithCmpOp::ArithEqOp).outcome() == Ok::<Value, EvalError>(
            Value::BoolValue(a == b),
        ),
        comparison_of_literals(a, b, ArithCmpOp::ArithNeqOp).outcome() == Ok::<Value, EvalError>(
            Value::BoolValue(a != b),
        ),
{
    reveal_with_fuel(ArithExpr::outcome, 2);
}

/// Each binary boolean operator, applied to two literals, gives what its
/// truth table gives.
pub proof fn lemma_connect_literals(p: bool, q: bool)
    ensures
        logic_of_literals(p, q, BinLogicOp::AndOp).outcome() == Ok::<Value, EvalError>(
            Value::BoolValue(p && q),
        ),
        logic_of_literals(p, q, BinLogicOp::OrOp).outcome() == Ok::<Value, EvalError>(
            Value::BoolValue(p || q),
        ),
        logic_of_literals(p, q, BinLogicOp::BoolEqOp).outcome() == Ok::<Value, EvalError>(
            Value::BoolValue(p == q),
        ),
        logic_of_literals(p, q, BinLogicOp::BoolNeqOp).outcome() == Ok::<Value, EvalError>(
            Value::BoolValue(p != q),
        ),
{
    reveal_with_fuel(BoolExpr::outcome, 2);
}

/// The negation of a literal is the opposite truth value.
pub proof fn lemma_negate_literal(p: bool)
    ensures
        negation_of_literal(p).outcome() == Ok::<Value, EvalError>(Value::BoolValue(!p)),
{
    reveal_with_fuel(BoolExpr::outcome, 2);
}

/// A failure in the right operand of a binary boolean node is the node's
/// failure whenever the left operand has a value, whatever that value and
/// the operator are: nothing is skipped.
pub proof fn lemma_right_operand_always_counts(
    left: BoolExpr,
    right: BoolExpr,
    op: BinLogicOp,
    err: EvalError,
)
    requires
        left.outcome() is Ok,
        right.outcome() == Err::<bool, EvalError>(err),
    ensures
        (BoolExpr::BinBoolExpr { left: Box::new(left), right: Box::new(right), op }).outcome()
            == Err::<bool, EvalError>(err),
{
}

/// Evaluation is a function of the tree: two runs of `eval` on the same
/// tree cannot differ.
pub proof fn lemma_eval_deterministic(
    expr: Expr,
    first: Result<Value, EvalError>,
    second: Result<Value, EvalError>,
)
    requires
        call_ensures(eval, (expr,), first),
        call_ensures(eval, (expr,), second),
    ensures
        first == second,
{
}

} // verus!
