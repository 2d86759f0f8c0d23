use vstd::prelude::*;
use crate::arith::{eval_arith_expr, ArithExpr};
use crate::error::EvalError;

verus! {

/// The operator of a comparison between two arithmetic expressions.
#[derive(Debug, Clone, Copy, PartialEq, Eq, Structural)]
pub enum ArithCmpOp {
    LtOp,
    LteOp,
    GtOp,
    GteOp,
    ArithEqOp,
    ArithNeqOp,
}

/// The operator of a binary boolean node.
#[derive(Debug, Clone, Copy, PartialEq, Eq, Structural)]
pub enum BinLogicOp {
    AndOp,
    OrOp,
    BoolEqOp,
    BoolNeqOp,
}

/// An expression that denotes a boolean.
///
/// The operands of a comparison are arithmetic; those of the other nodes
/// are boolean. Every node owns its children.
#[derive(Debug)]
#[allow(inconsistent_fields)]
pub enum BoolExpr {
    ArithCmpExpr { left: Box<ArithExpr>, right: Box<ArithExpr>, op: ArithCmpOp },
    BinBoolExpr { left: Box<BoolExpr>, right: Box<BoolExpr>, op: BinLogicOp },
    NotExpr(Box<BoolExpr>),
    BoolLit(bool),
}

/// The order or equality that a comparison operator tests of two integers.
pub open spec fn compare(op: ArithCmpOp, l: i64, r: i64) -> bool {
    match op {
        ArithCmpOp::LtOp => l < r,
        ArithCmpOp::LteOp => l <= r,
        ArithCmpOp::GtOp => l > r,
        ArithCmpOp::GteOp => l >= r,
        ArithCmpOp::ArithEqOp => l == r,
        ArithCmpOp::ArithNeqOp => l != r,
    }
}

/// The truth function of a binary boolean operator.
pub open spec fn connect(op: BinLogicOp, l: bool, r: bool) -> bool {
    match op {
        BinLogicOp::AndOp => l && r,
        BinLogicOp::OrOp => l || r,
        BinLogicOp::BoolEqOp => l == r,
        BinLogicOp::BoolNeqOp => l != r,
    }
}

impl BoolExpr {
    /// The meaning of a boolean expression: the truth value it denotes, or
    /// the first failure met when its operands are taken left to right.
    ///
    /// Both operands of a binary node count, whatever the left one yields:
    /// a failure on the right is a failure of the node even where the left
    /// operand alone would settle a conjunction or a disjunction.
    pub open spec fn outcome(self) -> Result<bool, EvalError>
        decreases self,
    {
        match self {
            BoolExpr::BoolLit(b) => Ok(b),
            BoolExpr::NotExpr(operand) => match operand.outcome() {
                Err(e) => Err(e),
                Ok(b) => Ok(!b),
            },
            BoolExpr::ArithCmpExpr { left, right, op } => match left.outcome() {
                Err(e) => Err(e),
                Ok(l) => match right.outcome() {
                    Err(e) => Err(e),
                    Ok(r) => Ok(compare(op, l, r)),
                },
            },
            BoolExpr::BinBoolExpr { left, right, op } => match left.outcome() {
                Err(e) => Err(e),
                Ok(l) => match right.outcome() {
                    Err(e) => Err(e),
                    Ok(r) => Ok(connect(op, l, r)),
                },
            },
        }
    }
}

/// Applies a comparison operator to two evaluated operands.
fn apply_compare_op(op: ArithCmpOp, l: i64, r: i64) -> (res: bool)
    ensures
        res == compare(op, l, r),
{
    match op {
        ArithCmpOp::LtOp => l < r,
        ArithCmpOp::LteOp => l <= r,
        ArithCmpOp::GtOp => l > r,
        ArithCmpOp::GteOp => l >= r,
        ArithCmpOp::ArithEqOp => l == r,
        ArithCmpOp::ArithNeqOp => l != r,
    }
}

/// Applies a binary boolean operator to two evaluated operands.
fn apply_logic_op(op: BinLogicOp, l: bool, r: bool) -> (res: bool)
    ensures
        res == connect(op, l, r),
{
    match op {
        BinLogicOp::AndOp => l && r,
        BinLogicOp::OrOp => l || r,
        BinLogicOp::BoolEqOp => l == r,
        BinLogicOp::BoolNeqOp => l != r,
    }
}

/// Evaluates a boolean expression.
///
/// Both operands of a binary node are evaluated, the left one first, before
/// the operator is applied: conjunction and disjunction do not stop at a
/// left operand that settles them. The first failure ends the evaluation.
pub fn eval_bool_expr(bool_expr: BoolExpr) -> (res: Result<bool, EvalError>)
    ensures
        res == bool_expr.outcome(),
    decreases bool_expr,
{
    match bool_expr {
        BoolExpr::ArithCmpExpr { left, right, op } => {
            let l = match eval_arith_expr(*left) {
                Ok(l) => l,
                Err(e) => return Err(e),
            };
            let r = match eval_arith_expr(*right) {
                Ok(r) => r,
                Err(e) => return Err(e),
            };
            Ok(apply_compare_op(op, l, r))
        },
        BoolExpr::BinBoolExpr { left, right, op } => {
            let l = match eval_bool_expr(*left) {
                Ok(l) => l,
                Err(e) => return Err(e),
            };
            let r = match eval_bool_expr(*right) {
                Ok(r) => r,
                Err(e) => return Err(e),
            };
            Ok(apply_logic_op(op, l, r))
        },
        BoolExpr::BoolLit(boolean) => Ok(boolean),
        BoolExpr::NotExpr(operand) => match eval_bool_expr(*operand) {
            Ok(b) => Ok(!b),
            Err(e) => Err(e),
        },
    }
}

} // verus!
