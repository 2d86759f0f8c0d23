use vstd::prelude::*;

verus! {

/// The ways in which evaluating an expression can fail.
#[derive(Debug, Clone, Copy, PartialEq, Eq, Structural)]
pub enum EvalError {
    /// An integer division whose right operand evaluated to zero.
    DivisionByZero,
    /// An arithmetic result that does not fit in a 64-bit signed integer.
    ArithmeticOverflow,
}

} // verus!
