use vstd::prelude::*;
use crate::error::EvalError;

verus! {

/// The operator of a binary arithmetic node.
#[derive(Debug, Clone, Copy, PartialEq, Eq, Structural)]
pub enum BinArithOp {
    AddOp,
    SubOp,
    MulOp,
    IntDivOp,
}

/// An expression that denotes a 64-bit signed integer.
///
/// Every node owns its children, so a value of this type is a finite tree.
#[derive(Debug)]
pub enum ArithExpr {
    BinArithExpr { left: Box<ArithExpr>, right: Box<ArithExpr>, op: BinArithOp },
    IntLit(i64),
}

/// The quotient of `a` by `b` rounded toward zero.
///
/// Spec-level `/` is Euclidean, so the quotient is taken on the magnitudes
/// and the sign is restored afterwards.
pub open spec fn trunc_div(a: int, b: int) -> int
    recommends
        b != 0,
{
    if a >= 0 && b > 0 {
        a / b
    } else if a >= 0 {
        -(a / (-b))
    } else if b > 0 {
        -((-a) / b)
    } else {
        (-a) / (-b)
    }
}

/// Whether the exact integer `v` can be held in 64 bits.
pub open spec fn fits(v: int) -> bool {
    i64::MIN <= v <= i64::MAX
}

/// An exact integer result brought back into the 64-bit signed range:
/// the integer itself where it fits, an overflow otherwise.
pub open spec fn checked(v: int) -> Result<i64, EvalError> {
    if fits(v) {
        Ok(v as i64)
    } else {
        Err(EvalError::ArithmeticOverflow)
    }
}

/// What a binary operator makes of two integer operands.
///
/// The exact result is computed over the mathematical integers; it is the
/// outcome if it fits in 64 bits. Division by zero is reported as such.
pub open spec fn arith_op_outcome(op: BinArithOp, l: i64, r: i64) -> Result<i64, EvalError> {
    match op {
        BinArithOp::AddOp => checked(l + r),
        BinArithOp::SubOp => checked(l - r),
        BinArithOp::MulOp => checked(l * r),
        BinArithOp::IntDivOp => if r == 0 {
            Err(EvalError::DivisionByZero)
        } else {
            checked(trunc_div(l as int, r as int))
        },
    }
}

impl ArithExpr {
    /// The meaning of an arithmetic expression: the integer it denotes, or
    /// the first failure met when its operands are taken left to right.
    pub open spec fn outcome(self) -> Result<i64, EvalError>
        decreases self,
    {
        match self {
            ArithExpr::IntLit(n) => Ok(n),
            ArithExpr::BinArithExpr { left, right, op } => match left.outcome() {
                Err(e) => Err(e),
                Ok(l) => match right.outcome() {
                    Err(e) => Err(e),
                    Ok(r) => arith_op_outcome(op, l, r),
                },
            },
        }
    }
}

/// Whether `q` is a quotient of `a` by `b` that rounds toward zero: the
/// remainder it leaves is smaller in magnitude than the divisor and never
/// has the sign opposite to the dividend's.
pub open spec fn rounds_toward_zero(a: int, b: int, q: int) -> bool {
    let r = a - q * b;
    &&& -b < r < b || b < r < -b
    &&& a >= 0 ==> r >= 0
    &&& a <= 0 ==> r <= 0
}

/// `trunc_div` rounds toward zero.
pub proof fn lemma_trunc_div_rounds_toward_zero(a: int, b: int)
    requires
        b != 0,
    ensures
        rounds_toward_zero(a, b, trunc_div(a, b)),
{
    let ma = if a >= 0 { a } else { -a };
    let mb = if b > 0 { b } else { -b };
    let q = ma / mb;
    vstd::arithmetic::div_mod::lemma_fundamental_div_mod(ma, mb);
    vstd::arithmetic::div_mod::lemma_mod_bound(ma, mb);
    assert(trunc_div(a, b) == if (a >= 0) == (b > 0) { q } else { -q });
    assert(trunc_div(a, b) * b == if a >= 0 { mb * q } else { -(mb * q) }) by (nonlinear_arith)
        requires
            b != 0,
            mb == if b > 0 { b } else { -b },
            trunc_div(a, b) == if (a >= 0) == (b > 0) { q } else { -q },
    ;
}

/// No other quotient rounds toward zero.
pub proof fn lemma_trunc_div_unique(a: int, b: int, q: int)
    requires
        b != 0,
        rounds_toward_zero(a, b, q),
    ensures
        q == trunc_div(a, b),
{
    let t = trunc_div(a, b);
    lemma_trunc_div_rounds_toward_zero(a, b);
    let d = q - t;
    assert((a - t * b) - (a - q * b) == d * b) by (nonlinear_arith)
        requires
            d == q - t,
    ;
    assert(d == 0) by (nonlinear_arith)
        requires
            b != 0,
            -b < d * b < b || b < d * b < -b,
    ;
}

/// The truncating quotient of two 64-bit integers fits in 64 bits with one
/// exception: the least integer divided by minus one.
pub proof fn lemma_trunc_div_fits(a: i64, b: i64)
    requires
        b != 0,
    ensures
        fits(trunc_div(a as int, b as int)) <==> !(a == i64::MIN && b == -1),
{
    let ma: int = if a >= 0 { a as int } else { -a };
    let mb: int = if b > 0 { b as int } else { -b };
    let q = ma / mb;
    vstd::arithmetic::div_mod::lemma_fundamental_div_mod(ma, mb);
    vstd::arithmetic::div_mod::lemma_mod_bound(ma, mb);
    assert(0 <= q <= ma && (mb >= 2 ==> 2 * q <= ma)) by (nonlinear_arith)
        requires
            ma == mb * q + ma % mb,
            0 <= ma % mb < mb,
            mb >= 1,
            ma >= 0,
    ;
    if mb == 1 {
        vstd::arithmetic::div_mod::lemma_div_basics(ma);
    }
}

/// Applies one operator to two evaluated operands.
fn apply_arith_op(op: BinArithOp, l: i64, r: i64) -> (res: Result<i64, EvalError>)
    ensures
        res == arith_op_outcome(op, l, r),
{
    let exact = match op {
        BinArithOp::AddOp => l.checked_add(r),
        BinArithOp::SubOp => l.checked_sub(r),
        BinArithOp::MulOp => l.checked_mul(r),
        BinArithOp::IntDivOp => {
            if r == 0 {
                return Err(EvalError::DivisionByZero);
            }
            l.checked_div(r)
        },
    };
    match exact {
        Some(v) => Ok(v),
        None => Err(EvalError::ArithmeticOverflow),
    }
}

/// Evaluates an arithmetic expression.
///
/// The left operand of a node is evaluated before the right one, and the
/// first failure ends the evaluation.
pub fn eval_arith_expr(arith_expr: ArithExpr) -> (res: Result<i64, EvalError>)
    ensures
        res == arith_expr.outcome(),
    decreases arith_expr,
{
    match arith_expr {
        ArithExpr::IntLit(num) => Ok(num),
        ArithExpr::BinArithExpr { left, right, op } => {
            let l = match eval_arith_expr(*left) {
                Ok(l) => l,
                Err(e) => return Err(e),
            };
            let r = match eval_arith_expr(*right) {
                Ok(r) => r,
                Err(e) => return Err(e),
            };
            apply_arith_op(op, l, r)
        },
    }
}

} // verus!
